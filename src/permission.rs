use vstd::prelude::*;

verus! {

/// Access level of a user on a resource, totally ordered
/// `NoAccess < Read < Execute < Write`.
#[derive(Clone, Copy, Debug, PartialEq, Eq, Structural)]
pub enum PermissionLevel {
    NoAccess,
    Read,
    Execute,
    Write,
}

impl PermissionLevel {
    pub open spec fn rank(self) -> nat {
        match self {
            PermissionLevel::NoAccess => 0,
            PermissionLevel::Read => 1,
            PermissionLevel::Execute => 2,
            PermissionLevel::Write => 3,
        }
    }

    pub fn to_rank(&self) -> (r: u8)
        ensures
            r as nat == self.rank(),
    {
        match self {
            PermissionLevel::NoAccess => 0,
            PermissionLevel::Read => 1,
            PermissionLevel::Execute => 2,
            PermissionLevel::Write => 3,
        }
    }

    /// `self >= other` in the level order.
    pub fn at_least(&self, other: &PermissionLevel) -> (r: bool)
        ensures
            r == (self.rank() >= other.rank()),
    {
        self.to_rank() >= other.to_rank()
    }
}

/// One grant: `user_id` holds `level` on the resource.
#[derive(Clone, Debug)]
pub struct PermissionEntry {
    pub user_id: String,
    pub level: PermissionLevel,
}

/// Level recorded for `uid` in a grant list: the first grant for it wins,
/// no grant means `NoAccess`.
pub open spec fn level_in(entries: Seq<PermissionEntry>, uid: Seq<char>) -> PermissionLevel
    decreases entries.len(),
{
    if entries.len() == 0 {
        PermissionLevel::NoAccess
    } else if entries[0].user_id@ == uid {
        entries[0].level
    } else {
        level_in(entries.drop_first(), uid)
    }
}

/// Grants of a resource, one per user.
#[derive(Clone, Debug)]
pub struct PermissionsMap {
    pub entries: Vec<PermissionEntry>,
}

impl PermissionsMap {
    pub open spec fn level_of(&self, uid: Seq<char>) -> PermissionLevel {
        level_in(self.entries@, uid)
    }

    pub fn new() -> (r: PermissionsMap)
        ensures
            r.entries@.len() == 0,
            forall|u: Seq<char>| r.level_of(u) == PermissionLevel::NoAccess,
    {
        PermissionsMap { entries: Vec::new() }
    }

    /// Grants of a fresh resource: its creator holds `Write`.
    pub fn for_creator(user_id: &String) -> (r: PermissionsMap)
        ensures
            r.level_of(user_id@) == PermissionLevel::Write,
            forall|u: Seq<char>| u != user_id@ ==> r.level_of(u) == PermissionLevel::NoAccess,
    {
        let mut entries: Vec<PermissionEntry> = Vec::new();
        entries.push(PermissionEntry { user_id: user_id.clone(), level: PermissionLevel::Write });
        let r = PermissionsMap { entries };
        proof {
            assert(r.entries@.drop_first().len() == 0);
            assert forall|u: Seq<char>| u != user_id@ implies r.level_of(u)
                == PermissionLevel::NoAccess by {
                assert(level_in(r.entries@.drop_first(), u) == PermissionLevel::NoAccess);
            }
        }
        r
    }

    /// Level that `user_id` holds through these grants alone.
    pub fn get_user_permissions(&self, user_id: &String) -> (r: PermissionLevel)
        ensures
            r == self.level_of(user_id@),
    {
        let mut i: usize = 0;
        proof {
            assert(self.entries@.subrange(0, self.entries@.len() as int) =~= self.entries@);
        }
        while i < self.entries.len()
            invariant
                i <= self.entries@.len(),
                level_in(self.entries@.subrange(i as int, self.entries@.len() as int), user_id@)
                    == self.level_of(user_id@),
            decreases self.entries@.len() - i,
        {
            let ghost rest = self.entries@.subrange(i as int, self.entries@.len() as int);
            proof {
                assert(rest.drop_first() =~= self.entries@.subrange(i + 1, self.entries@.len() as int));
            }
            if self.entries[i].user_id == *user_id {
                return self.entries[i].level;
            }
            i = i + 1;
        }
        proof {
            assert(self.entries@.subrange(i as int, self.entries@.len() as int).len() == 0);
        }
        PermissionLevel::NoAccess
    }
}

/// An authenticated caller.
#[derive(Clone, Debug)]
pub struct User {
    pub id: String,
    pub username: String,
    pub enabled: bool,
    pub admin: bool,
}

/// Level the user effectively holds: `Write` for an admin, else its grant.
pub open spec fn effective_level(user: User, perms: PermissionsMap) -> PermissionLevel {
    if user.admin {
        PermissionLevel::Write
    } else {
        perms.level_of(user.id@)
    }
}

/// Whether `user` holds at least `required` on a resource with `perms`.
pub open spec fn permitted(user: User, perms: PermissionsMap, required: PermissionLevel) -> bool {
    effective_level(user, perms).rank() >= required.rank()
}

pub fn effective(user: &User, perms: &PermissionsMap) -> (r: PermissionLevel)
    ensures
        r == effective_level(*user, *perms),
{
    if user.admin {
        PermissionLevel::Write
    } else {
        perms.get_user_permissions(&user.id)
    }
}

pub fn has_permission(user: &User, perms: &PermissionsMap, required: PermissionLevel) -> (r: bool)
    ensures
        r == permitted(*user, *perms, required),
{
    effective(user, perms).at_least(&required)
}

} // verus!

use vstd::prelude::*;
use crate::entities::Resource;
use crate::name::{normalized_name, to_monitor_name};
use crate::permission::{has_permission, permitted, PermissionLevel, PermissionsMap, User};

verus! {

/// Error kinds a request can fail with.
#[derive(Clone, Copy, Debug, PartialEq, Eq, Structural)]
pub enum CoreError {
    NotFound,
    Forbidden,
    DuplicateName,
    DuplicateKey,
    Validation,
    PeripheryUnreachable,
    Internal,
}

/// The first document with id `id`.
pub open spec fn lookup<C, I>(docs: Seq<Resource<C, I>>, id: Seq<char>) -> Option<Resource<C, I>>
    decreases docs.len(),
{
    if docs.len() == 0 {
        None
    } else if docs[0].id@ == id {
        Some(docs[0])
    } else {
        lookup(docs.drop_first(), id)
    }
}

pub open spec fn has_name<C, I>(docs: Seq<Resource<C, I>>, name: Seq<char>) -> bool {
    exists|j: int| 0 <= j < docs.len() && (#[trigger] docs[j]).name@ == name
}

/// Ids of the documents `user` may read, in store order.
pub open spec fn visible_ids<C, I>(docs: Seq<Resource<C, I>>, user: User) -> Seq<Seq<char>>
    decreases docs.len(),
{
    if docs.len() == 0 {
        Seq::empty()
    } else {
        let prefix = visible_ids(docs.drop_last(), user);
        if permitted(user, docs.last().permissions, PermissionLevel::Read) {
            prefix.push(docs.last().id@)
        } else {
            prefix
        }
    }
}

pub proof fn lemma_lookup_none<C, I>(docs: Seq<Resource<C, I>>, id: Seq<char>)
    ensures
        lookup(docs, id).is_none() <==> forall|j: int| 0 <= j < docs.len() ==> (#[trigger] docs[j]).id@ != id,
    decreases docs.len(),
{
    if docs.len() > 0 {
        lemma_lookup_none(docs.drop_first(), id);
        if lookup(docs, id).is_none() {
            assert forall|j: int| 0 <= j < docs.len() implies (#[trigger] docs[j]).id@ != id by {
                if j > 0 {
                    assert(docs[j] == docs.drop_first()[j - 1]);
                }
            }
        } else if docs[0].id@ != id {
            let k = choose|k: int| 0 <= k < docs.drop_first().len() && (#[trigger] docs.drop_first()[k]).id@ == id;
            assert(docs[k + 1] == docs.drop_first()[k]);
        }
    }
}

pub proof fn lemma_lookup_some<C, I>(docs: Seq<Resource<C, I>>, id: Seq<char>)
    requires
        lookup(docs, id).is_some(),
    ensures
        exists|j: int| 0 <= j < docs.len() && docs[j].id@ == id && lookup(docs, id) == Some(#[trigger] docs[j]),
    decreases docs.len(),
{
    if docs[0].id@ != id {
        lemma_lookup_some(docs.drop_first(), id);
        let k = choose|k: int| 0 <= k < docs.drop_first().len() && docs.drop_first()[k].id@ == id
            && lookup(docs.drop_first(), id) == Some(#[trigger] docs.drop_first()[k]);
        assert(docs[k + 1] == docs.drop_first()[k]);
    } else {
        assert(lookup(docs, id) == Some(docs[0]));
    }
}

/// With unique ids, the lookup of a document's id finds that document.
pub proof fn lemma_lookup_unique<C, I>(docs: Seq<Resource<C, I>>, j: int)
    requires
        0 <= j < docs.len(),
        unique_ids(docs),
    ensures
        lookup(docs, docs[j].id@) == Some(docs[j]),
{
    lemma_lookup_none(docs, docs[j].id@);
    lemma_lookup_some(docs, docs[j].id@);
}

pub open spec fn unique_ids<C, I>(docs: Seq<Resource<C, I>>) -> bool {
    forall|a: int, b: int| 0 <= a < docs.len() && 0 <= b < docs.len() && a != b
        ==> (#[trigger] docs[a]).id@ != (#[trigger] docs[b]).id@
}

pub open spec fn unique_names<C, I>(docs: Seq<Resource<C, I>>) -> bool {
    forall|a: int, b: int| 0 <= a < docs.len() && 0 <= b < docs.len() && a != b
        ==> (#[trigger] docs[a]).name@ != (#[trigger] docs[b]).name@
}

/// The lookups after writing `d` (with the id of the document at `i`) in
/// its place: that id finds `d`, every other id what it found before.
pub proof fn lemma_lookup_after_set<C, I>(docs: Seq<Resource<C, I>>, i: int, d: Resource<C, I>, y: Seq<char>)
    requires
        0 <= i < docs.len(),
        unique_ids(docs),
        d.id@ == docs[i].id@,
    ensures
        unique_ids(docs.update(i, d)),
        lookup(docs.update(i, d), y) == (if y == d.id@ { Some(d) } else { lookup(docs, y) }),
{
    let s = docs.update(i, d);
    assert(unique_ids(s)) by {
        assert forall|a: int, b: int| 0 <= a < s.len() && 0 <= b < s.len() && a != b
            implies (#[trigger] s[a]).id@ != (#[trigger] s[b]).id@ by {
            assert(s[a].id@ == docs[a].id@);
            assert(s[b].id@ == docs[b].id@);
        }
    }
    if y == d.id@ {
        lemma_lookup_unique(s, i);
    } else {
        lemma_lookup_none(docs, y);
        lemma_lookup_none(s, y);
        if lookup(docs, y).is_some() {
            lemma_lookup_some(docs, y);
            let j = choose|j: int| 0 <= j < docs.len() && docs[j].id@ == y && lookup(docs, y) == Some(#[trigger] docs[j]);
            assert(s[j] == docs[j]);
            lemma_lookup_unique(s, j);
        }
    }
}

/// The lookups after removing the document at `i`: its id finds nothing,
/// every other id what it found before.
pub proof fn lemma_lookup_after_remove<C, I>(docs: Seq<Resource<C, I>>, i: int, y: Seq<char>)
    requires
        0 <= i < docs.len(),
        unique_ids(docs),
    ensures
        unique_ids(docs.remove(i)),
        lookup(docs.remove(i), y) == (if y == docs[i].id@ { None } else { lookup(docs, y) }),
{
    let s = docs.remove(i);
    assert(unique_ids(s)) by {
        assert forall|a: int, b: int| 0 <= a < s.len() && 0 <= b < s.len() && a != b
            implies (#[trigger] s[a]).id@ != (#[trigger] s[b]).id@ by {
            let a2 = if a < i { a } else { a + 1 };
            let b2 = if b < i { b } else { b + 1 };
            assert(s[a] == docs[a2]);
            assert(s[b] == docs[b2]);
        }
    }
    lemma_lookup_none(s, y);
    lemma_lookup_none(docs, y);
    if y == docs[i].id@ {
        assert forall|j: int| 0 <= j < s.len() implies (#[trigger] s[j]).id@ != y by {
            let j2 = if j < i { j } else { j + 1 };
            assert(s[j] == docs[j2]);
        }
    } else if lookup(docs, y).is_some() {
        lemma_lookup_some(docs, y);
        let j = choose|j: int| 0 <= j < docs.len() && docs[j].id@ == y && lookup(docs, y) == Some(#[trigger] docs[j]);
        let j2 = if j < i { j } else { j - 1 };
        assert(s[j2] == docs[j]);
        lemma_lookup_unique(s, j2);
    } else {
        assert forall|j: int| 0 <= j < s.len() implies (#[trigger] s[j]).id@ != y by {
            let j2 = if j < i { j } else { j + 1 };
            assert(s[j] == docs[j2]);
        }
    }
}

/// The lookups after appending `d` with a fresh id.
pub proof fn lemma_lookup_after_push<C, I>(docs: Seq<Resource<C, I>>, d: Resource<C, I>, y: Seq<char>)
    requires
        unique_ids(docs),
        lookup(docs, d.id@).is_none(),
    ensures
        unique_ids(docs.push(d)),
        lookup(docs.push(d), y) == (if y == d.id@ { Some(d) } else { lookup(docs, y) }),
{
    let s = docs.push(d);
    lemma_lookup_none(docs, d.id@);
    assert(unique_ids(s)) by {
        assert forall|a: int, b: int| 0 <= a < s.len() && 0 <= b < s.len() && a != b
            implies (#[trigger] s[a]).id@ != (#[trigger] s[b]).id@ by {
            if a < docs.len() {
                assert(s[a] == docs[a]);
            }
            if b < docs.len() {
                assert(s[b] == docs[b]);
            }
        }
    }
    lemma_lookup_none(s, y);
    if y == d.id@ {
        lemma_lookup_unique(s, docs.len() as int);
    } else if lookup(docs, y).is_some() {
        lemma_lookup_some(docs, y);
        let j = choose|j: int| 0 <= j < docs.len() && docs[j].id@ == y && lookup(docs, y) == Some(#[trigger] docs[j]);
        assert(s[j] == docs[j]);
        lemma_lookup_unique(s, j);
    } else {
        lemma_lookup_none(docs, y);
        assert forall|j: int| 0 <= j < s.len() implies (#[trigger] s[j]).id@ != y by {
            if j < docs.len() {
                assert(s[j] == docs[j]);
            } else {
                assert(s[j] == d);
            }
        }
    }
}

/// One collection of resources of a type, ids and names unique.
pub struct Collection<C, I> {
    pub docs: Vec<Resource<C, I>>,
}

impl<C, I> Collection<C, I> {
    pub open spec fn wf(&self) -> bool {
        unique_ids(self.docs@) && unique_names(self.docs@)
    }

    pub open spec fn get_doc(&self, id: Seq<char>) -> Option<Resource<C, I>> {
        lookup(self.docs@, id)
    }

    pub fn new() -> (r: Collection<C, I>)
        ensures
            r.wf(),
            r.docs@.len() == 0,
    {
        Collection { docs: Vec::new() }
    }

    /// Position of the document with id `id`.
    pub fn find(&self, id: &String) -> (r: Option<usize>)
        requires
            self.wf(),
        ensures
            match r {
                Some(i) => i < self.docs@.len() && self.docs@[i as int].id@ == id@
                    && self.get_doc(id@) == Some(self.docs@[i as int]),
                None => self.get_doc(id@).is_none(),
            },
    {
        let mut i: usize = 0;
        while i < self.docs.len()
            invariant
                self.wf(),
                i <= self.docs@.len(),
                forall|j: int| 0 <= j < i ==> (#[trigger] self.docs@[j]).id@ != id@,
            decreases self.docs@.len() - i,
        {
            if self.docs[i].id == *id {
                proof {
                    lemma_lookup_unique(self.docs@, i as int);
                }
                return Some(i);
            }
            i = i + 1;
        }
        proof {
            lemma_lookup_none(self.docs@, id@);
        }
        None
    }

    /// Position of a document named `name` other than the one with id `except`.
    pub fn find_other_named(&self, name: &String, except: &String) -> (r: Option<usize>)
        ensures
            match r {
                Some(i) => i < self.docs@.len() && self.docs@[i as int].name@ == name@
                    && self.docs@[i as int].id@ != except@,
                None => forall|j: int| 0 <= j < self.docs@.len() ==> #[trigger] self.docs@[j].name@ != name@
                    || self.docs@[j].id@ == except@,
            },
    {
        let mut i: usize = 0;
        while i < self.docs.len()
            invariant
                i <= self.docs@.len(),
                forall|j: int| 0 <= j < i ==> #[trigger] self.docs@[j].name@ != name@
                    || self.docs@[j].id@ == except@,
            decreases self.docs@.len() - i,
        {
            if self.docs[i].name == *name && !(self.docs[i].id == *except) {
                return Some(i);
            }
            i = i + 1;
        }
        None
    }

    /// Adds `doc`: fails with `DuplicateKey` on a known id, else with
    /// `DuplicateName` on a taken name.
    pub fn create_one(&mut self, doc: Resource<C, I>) -> (r: Result<(), CoreError>)
        requires
            old(self).wf(),
        ensures
            final(self).wf(),
            old(self).get_doc(doc.id@).is_some() ==> r == Err::<(), CoreError>(CoreError::DuplicateKey),
            old(self).get_doc(doc.id@).is_none() && has_name(old(self).docs@, doc.name@)
                ==> r == Err::<(), CoreError>(CoreError::DuplicateName),
            r is Ok <==> old(self).get_doc(doc.id@).is_none() && !has_name(old(self).docs@, doc.name@),
            r is Ok ==> final(self).docs@ == old(self).docs@.push(doc),
            r is Err ==> final(self).docs@ == old(self).docs@,
    {
        if self.find(&doc.id).is_some() {
            return Err(CoreError::DuplicateKey);
        }
        match self.find_other_named(&doc.name, &doc.id) {
            Some(_) => {
                return Err(CoreError::DuplicateName);
            },
            None => {},
        }
        proof {
            lemma_lookup_none(self.docs@, doc.id@);
            assert(!has_name(self.docs@, doc.name@));
        }
        let ghost before = self.docs@;
        self.docs.push(doc);
        proof {
            lemma_lookup_after_push(before, doc, doc.id@);
            let s = self.docs@;
            assert forall|a: int, b: int| 0 <= a < s.len() && 0 <= b < s.len() && a != b
                implies (#[trigger] s[a]).name@ != (#[trigger] s[b]).name@ by {
                if a < before.len() {
                    assert(s[a] == before[a]);
                } else {
                    assert(s[a] == doc);
                }
                if b < before.len() {
                    assert(s[b] == before[b]);
                } else {
                    assert(s[b] == doc);
                }
            }
        }
        Ok(())
    }
}


impl<C, I> Collection<C, I> {
    /// Creates a document with a normalized name; its creator holds `Write`.
    pub fn create(&mut self, id: String, name: &str, config: C, info: I, user: &User, now: i64) -> (r: Result<(), CoreError>)
        requires
            old(self).wf(),
        ensures
            create_outcome(*old(self), *final(self), id@, name@, config, info, *user, now, r),
    {
        let doc = Resource {
            id,
            name: to_monitor_name(name),
            permissions: PermissionsMap::for_creator(&user.id),
            tags: Vec::new(),
            created_at: now,
            updated_at: now,
            config,
            info,
        };
        let ghost d = doc;
        let r = self.create_one(doc);
        proof {
            if r is Ok {
                assert(self.docs@.drop_last() =~= old(self).docs@);
                assert(self.docs@.last() == d);
            }
        }
        r
    }

    /// The document with id `id`, where `user` may read it.
    pub fn get(&self, id: &String, user: &User) -> (r: Result<&Resource<C, I>, CoreError>)
        requires
            self.wf(),
        ensures
            get_outcome(*self, id@, *user, match r {
                Ok(d) => Ok::<Resource<C, I>, CoreError>(*d),
                Err(e) => Err::<Resource<C, I>, CoreError>(e),
            }),
    {
        match self.find(id) {
            None => Err(CoreError::NotFound),
            Some(i) => {
                if has_permission(user, &self.docs[i].permissions, PermissionLevel::Read) {
                    Ok(&self.docs[i])
                } else {
                    Err(CoreError::Forbidden)
                }
            },
        }
    }

    /// Replaces a document with `proposed`, keeping its permissions and
    /// creation time and stamping `now` as its update time.
    pub fn update(&mut self, proposed: Resource<C, I>, user: &User, now: i64) -> (r: Result<(), CoreError>)
        requires
            old(self).wf(),
        ensures
            update_outcome(*old(self), *final(self), proposed, *user, now, r),
    {
        let i = match self.find(&proposed.id) {
            None => {
                return Err(CoreError::NotFound);
            },
            Some(i) => i,
        };
        if !has_permission(user, &self.docs[i].permissions, PermissionLevel::Write) {
            return Err(CoreError::Forbidden);
        }
        match self.find_other_named(&proposed.name, &proposed.id) {
            Some(_) => {
                return Err(CoreError::DuplicateName);
            },
            None => {},
        }
        let ghost before = self.docs@;
        let cur = self.docs.remove(i);
        let doc = Resource {
            permissions: cur.permissions,
            created_at: cur.created_at,
            updated_at: now,
            ..proposed
        };
        self.docs.insert(i, doc);
        proof {
            assert(self.docs@ =~= before.update(i as int, doc));
            assert forall|y: Seq<char>| true implies lookup(self.docs@, y) == (if y == doc.id@ {
                Some(doc)
            } else {
                lookup(before, y)
            }) by {
                lemma_lookup_after_set(before, i as int, doc, y);
            }
            let s = self.docs@;
            assert forall|a: int, b: int| 0 <= a < s.len() && 0 <= b < s.len() && a != b
                implies (#[trigger] s[a]).name@ != (#[trigger] s[b]).name@ by {
                if a != i {
                    assert(s[a] == before[a]);
                }
                if b != i {
                    assert(s[b] == before[b]);
                }
            }
        }
        Ok(())
    }
}

impl<C, I> Collection<C, I> {
    /// Removes the document with id `id` and hands it back.
    pub fn delete(&mut self, id: &String, user: &User) -> (r: Result<Resource<C, I>, CoreError>)
        requires
            old(self).wf(),
        ensures
            delete_outcome(*old(self), *final(self), id@, *user, r),
    {
        let i = match self.find(id) {
            None => {
                return Err(CoreError::NotFound);
            },
            Some(i) => i,
        };
        if !has_permission(user, &self.docs[i].permissions, PermissionLevel::Write) {
            return Err(CoreError::Forbidden);
        }
        let ghost before = self.docs@;
        let doc = self.docs.remove(i);
        proof {
            assert forall|y: Seq<char>| true implies lookup(self.docs@, y) == (if y == before[i as int].id@ {
                None
            } else {
                lookup(before, y)
            }) by {
                lemma_lookup_after_remove(before, i as int, y);
            }
            lemma_lookup_after_remove(before, i as int, id@);
            let s = self.docs@;
            assert forall|a: int, b: int| 0 <= a < s.len() && 0 <= b < s.len() && a != b
                implies (#[trigger] s[a]).name@ != (#[trigger] s[b]).name@ by {
                let a2 = if a < i { a } else { a + 1 };
                let b2 = if b < i { b } else { b + 1 };
                assert(s[a] == before[a2]);
                assert(s[b] == before[b2]);
            }
        }
        Ok(doc)
    }

    /// Ids of the documents `user` may read, in store order.
    pub fn list_ids(&self, user: &User) -> (r: Vec<String>)
        ensures
            r@.map_values(|s: String| s@) == visible_ids(self.docs@, *user),
    {
        let mut out: Vec<String> = Vec::new();
        let mut i: usize = 0;
        while i < self.docs.len()
            invariant
                i <= self.docs@.len(),
                out@.map_values(|s: String| s@) == visible_ids(self.docs@.subrange(0, i as int), *user),
            decreases self.docs@.len() - i,
        {
            proof {
                let pre = self.docs@.subrange(0, i as int + 1);
                assert(pre.drop_last() =~= self.docs@.subrange(0, i as int));
                assert(pre.last() == self.docs@[i as int]);
            }
            if has_permission(user, &self.docs[i].permissions, PermissionLevel::Read) {
                let ghost prev = out@;
                out.push(self.docs[i].id.clone());
                proof {
                    assert(out@.map_values(|s: String| s@) =~= prev.map_values(|s: String| s@).push(self.docs@[i as int].id@));
                }
            }
            i = i + 1;
        }
        proof {
            assert(self.docs@.subrange(0, self.docs@.len() as int) =~= self.docs@);
        }
        out
    }

    /// Number of documents `user` may read.
    pub fn summary(&self, user: &User) -> (total: u64)
        ensures
            total == visible_ids(self.docs@, *user).len(),
    {
        let mut n: u64 = 0;
        let mut i: usize = 0;
        while i < self.docs.len()
            invariant
                i <= self.docs@.len(),
                n == visible_ids(self.docs@.subrange(0, i as int), *user).len(),
                n <= i,
            decreases self.docs@.len() - i,
        {
            proof {
                let pre = self.docs@.subrange(0, i as int + 1);
                assert(pre.drop_last() =~= self.docs@.subrange(0, i as int));
                assert(pre.last() == self.docs@[i as int]);
            }
            if has_permission(user, &self.docs[i].permissions, PermissionLevel::Read) {
                n = n + 1;
            }
            i = i + 1;
        }
        proof {
            assert(self.docs@.subrange(0, self.docs@.len() as int) =~= self.docs@);
        }
        n
    }
}

impl<C, I> Collection<C, I> {
    /// Replaces the info of document `id`; an unknown id changes nothing.
    pub fn set_info(&mut self, id: &String, info: I)
        requires
            old(self).wf(),
        ensures
            final(self).wf(),
            forall|y: Seq<char>| y != id@ ==> final(self).get_doc(y) == old(self).get_doc(y),
            match old(self).get_doc(id@) {
                None => final(self).docs@ == old(self).docs@,
                Some(d) => final(self).get_doc(id@) == Some(Resource { info, ..d }),
            },
    {
        let i = match self.find(id) {
            None => {
                return;
            },
            Some(i) => i,
        };
        let ghost before = self.docs@;
        let cur = self.docs.remove(i);
        let doc = Resource { info, ..cur };
        self.docs.insert(i, doc);
        proof {
            assert(self.docs@ =~= before.update(i as int, doc));
            assert forall|y: Seq<char>| true implies lookup(self.docs@, y) == (if y == doc.id@ {
                Some(doc)
            } else {
                lookup(before, y)
            }) by {
                lemma_lookup_after_set(before, i as int, doc, y);
            }
            let s = self.docs@;
            assert forall|a: int, b: int| 0 <= a < s.len() && 0 <= b < s.len() && a != b
                implies (#[trigger] s[a]).name@ != (#[trigger] s[b]).name@ by {
                if a != i {
                    assert(s[a] == before[a]);
                }
                if b != i {
                    assert(s[b] == before[b]);
                }
            }
        }
    }
}

/// What `Collection::create` promises: fresh id and free normalized name
/// give `Ok`, and the new document is appended.
pub open spec fn create_outcome<C, I>(
    before: Collection<C, I>,
    after: Collection<C, I>,
    id: Seq<char>,
    name: Seq<char>,
    config: C,
    info: I,
    user: User,
    now: i64,
    r: Result<(), CoreError>,
) -> bool {
    &&& after.wf()
    &&& (r is Ok <==> before.get_doc(id).is_none() && !has_name(before.docs@, normalized_name(name)))
    &&& (before.get_doc(id).is_some() ==> r == Err::<(), CoreError>(CoreError::DuplicateKey))
    &&& (before.get_doc(id).is_none() && has_name(before.docs@, normalized_name(name))
        ==> r == Err::<(), CoreError>(CoreError::DuplicateName))
    &&& (r is Err ==> after.docs@ == before.docs@)
    &&& (r is Ok ==> after.docs@.len() == before.docs@.len() + 1
        && after.docs@.drop_last() == before.docs@
        && ({
            let d = after.docs@.last();
            &&& d.id@ == id
            &&& d.name@ == normalized_name(name)
            &&& d.permissions.level_of(user.id@) == PermissionLevel::Write
            &&& forall|u: Seq<char>| u != user.id@ ==> d.permissions.level_of(u) == PermissionLevel::NoAccess
            &&& d.tags@.len() == 0
            &&& d.created_at == now
            &&& d.updated_at == now
            &&& d.config == config
            &&& d.info == info
        }))
}

/// What `Collection::get` promises.
pub open spec fn get_outcome<C, I>(c: Collection<C, I>, id: Seq<char>, user: User, r: Result<Resource<C, I>, CoreError>) -> bool {
    match c.get_doc(id) {
        None => r == Err::<Resource<C, I>, CoreError>(CoreError::NotFound),
        Some(d) => if permitted(user, d.permissions, PermissionLevel::Read) {
            r == Ok::<Resource<C, I>, CoreError>(d)
        } else {
            r == Err::<Resource<C, I>, CoreError>(CoreError::Forbidden)
        },
    }
}

/// What `Collection::update` promises.
pub open spec fn update_outcome<C, I>(
    before: Collection<C, I>,
    after: Collection<C, I>,
    proposed: Resource<C, I>,
    user: User,
    now: i64,
    r: Result<(), CoreError>,
) -> bool {
    &&& after.wf()
    &&& match before.get_doc(proposed.id@) {
        None => r == Err::<(), CoreError>(CoreError::NotFound) && after.docs@ == before.docs@,
        Some(cur) => if !permitted(user, cur.permissions, PermissionLevel::Write) {
            r == Err::<(), CoreError>(CoreError::Forbidden) && after.docs@ == before.docs@
        } else if exists|j: int| 0 <= j < before.docs@.len() && (#[trigger] before.docs@[j]).name@ == proposed.name@
            && before.docs@[j].id@ != proposed.id@ {
            r == Err::<(), CoreError>(CoreError::DuplicateName) && after.docs@ == before.docs@
        } else {
            &&& r is Ok
            &&& after.get_doc(proposed.id@) == Some(Resource {
                permissions: cur.permissions,
                created_at: cur.created_at,
                updated_at: now,
                ..proposed
            })
            &&& forall|y: Seq<char>| y != proposed.id@ ==> after.get_doc(y) == before.get_doc(y)
        },
    }
}

/// What `Collection::delete` promises.
pub open spec fn delete_outcome<C, I>(
    before: Collection<C, I>,
    after: Collection<C, I>,
    id: Seq<char>,
    user: User,
    r: Result<Resource<C, I>, CoreError>,
) -> bool {
    &&& after.wf()
    &&& match before.get_doc(id) {
        None => r == Err::<Resource<C, I>, CoreError>(CoreError::NotFound) && after.docs@ == before.docs@,
        Some(cur) => if !permitted(user, cur.permissions, PermissionLevel::Write) {
            r == Err::<Resource<C, I>, CoreError>(CoreError::Forbidden) && after.docs@ == before.docs@
        } else {
            &&& r == Ok::<Resource<C, I>, CoreError>(cur)
            &&& after.get_doc(id).is_none()
            &&& forall|y: Seq<char>| y != id ==> after.get_doc(y) == before.get_doc(y)
        },
    }
}

/// Every id listed by `visible_ids` belongs to a document that `user` may read.
pub proof fn lemma_visible_ids_readable<C, I>(docs: Seq<Resource<C, I>>, user: User, x: Seq<char>)
    requires
        visible_ids(docs, user).contains(x),
    ensures
        exists|j: int| 0 <= j < docs.len() && (#[trigger] docs[j]).id@ == x
            && permitted(user, docs[j].permissions, PermissionLevel::Read),
    decreases docs.len(),
{
    let prefix = visible_ids(docs.drop_last(), user);
    if prefix.contains(x) {
        lemma_visible_ids_readable(docs.drop_last(), user, x);
        let j = choose|j: int| 0 <= j < docs.drop_last().len() && (#[trigger] docs.drop_last()[j]).id@ == x
            && permitted(user, docs.drop_last()[j].permissions, PermissionLevel::Read);
        assert(docs[j] == docs.drop_last()[j]);
    } else {
        assert(docs[docs.len() - 1] == docs.last());
    }
}

/// A created resource, read back by its creator, has the normalized name
/// and grants its creator `Write`.
pub proof fn lemma_create_then_get<C, I>(
    before: Collection<C, I>,
    after: Collection<C, I>,
    id: Seq<char>,
    name: Seq<char>,
    config: C,
    info: I,
    user: User,
    now: i64,
    r: Result<(), CoreError>,
    g: Result<Resource<C, I>, CoreError>,
)
    requires
        before.wf(),
        create_outcome(before, after, id, name, config, info, user, now, r),
        r is Ok,
        get_outcome(after, id, user, g),
    ensures
        g is Ok,
        g->Ok_0.id@ == id,
        g->Ok_0.name@ == normalized_name(name),
        g->Ok_0.permissions.level_of(user.id@) == PermissionLevel::Write,
{
    let d = after.docs@.last();
    assert(after.docs@ =~= before.docs@.push(d));
    lemma_lookup_after_push(before.docs@, d, id);
}

/// A non-admin who holds no level on a resource does not see it listed or
/// counted, cannot read it, and cannot update or delete it.
pub proof fn lemma_no_access_hidden<C, I>(
    c: Collection<C, I>,
    id: Seq<char>,
    user: User,
    g: Result<Resource<C, I>, CoreError>,
    after_update: Collection<C, I>,
    proposed: Resource<C, I>,
    now: i64,
    ru: Result<(), CoreError>,
    after_delete: Collection<C, I>,
    rd: Result<Resource<C, I>, CoreError>,
)
    requires
        c.wf(),
        !user.admin,
        c.get_doc(id) is Some,
        c.get_doc(id)->Some_0.permissions.level_of(user.id@) == PermissionLevel::NoAccess,
        get_outcome(c, id, user, g),
        proposed.id@ == id,
        update_outcome(c, after_update, proposed, user, now, ru),
        delete_outcome(c, after_delete, id, user, rd),
    ensures
        !visible_ids(c.docs@, user).contains(id),
        g == Err::<Resource<C, I>, CoreError>(CoreError::Forbidden),
        ru == Err::<(), CoreError>(CoreError::Forbidden),
        rd == Err::<Resource<C, I>, CoreError>(CoreError::Forbidden),
{
    if visible_ids(c.docs@, user).contains(id) {
        lemma_visible_ids_readable(c.docs@, user, id);
        let j = choose|j: int| 0 <= j < c.docs@.len() && (#[trigger] c.docs@[j]).id@ == id
            && permitted(user, c.docs@[j].permissions, PermissionLevel::Read);
        lemma_lookup_unique(c.docs@, j);
    }
}

/// An update keeps the creation time and the permissions of the stored
/// resource, and (with a clock that does not run back) does not move its
/// update time backwards.
pub proof fn lemma_update_preserves<C, I>(
    before: Collection<C, I>,
    after: Collection<C, I>,
    proposed: Resource<C, I>,
    user: User,
    now: i64,
    r: Result<(), CoreError>,
)
    requires
        before.wf(),
        update_outcome(before, after, proposed, user, now, r),
        r is Ok,
        before.get_doc(proposed.id@) is Some ==> before.get_doc(proposed.id@)->Some_0.updated_at <= now,
    ensures
        before.get_doc(proposed.id@) is Some,
        after.get_doc(proposed.id@) is Some,
        after.get_doc(proposed.id@)->Some_0.created_at == before.get_doc(proposed.id@)->Some_0.created_at,
        after.get_doc(proposed.id@)->Some_0.permissions == before.get_doc(proposed.id@)->Some_0.permissions,
        after.get_doc(proposed.id@)->Some_0.updated_at >= before.get_doc(proposed.id@)->Some_0.updated_at,
{
}

/// Deleting the same id twice: the second call finds nothing.
pub proof fn lemma_delete_twice<C, I>(
    c0: Collection<C, I>,
    c1: Collection<C, I>,
    c2: Collection<C, I>,
    id: Seq<char>,
    user: User,
    r1: Result<Resource<C, I>, CoreError>,
    r2: Result<Resource<C, I>, CoreError>,
)
    requires
        c0.wf(),
        delete_outcome(c0, c1, id, user, r1),
        r1 is Ok,
        delete_outcome(c1, c2, id, user, r2),
    ensures
        r2 == Err::<Resource<C, I>, CoreError>(CoreError::NotFound),
{
}

} // verus!

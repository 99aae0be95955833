use vstd::prelude::*;
use crate::diff::strings_view;
use crate::entities::{BuilderConfig, BuilderInfo};
use crate::permission::{has_permission, permitted, PermissionLevel, User};
use crate::store::{Collection, CoreError};

verus! {

/// Lexicographic order of strings by character code, as `String`'s `Ord`.
pub open spec fn lex_lt(a: Seq<char>, b: Seq<char>) -> bool
    decreases a.len(),
{
    if a.len() == 0 {
        b.len() > 0
    } else if b.len() == 0 {
        false
    } else if a[0] != b[0] {
        (a[0] as u32) < (b[0] as u32)
    } else {
        lex_lt(a.drop_first(), b.drop_first())
    }
}

pub proof fn lemma_lex_irreflexive(a: Seq<char>)
    ensures
        !lex_lt(a, a),
    decreases a.len(),
{
    if a.len() > 0 {
        lemma_lex_irreflexive(a.drop_first());
    }
}

pub proof fn lemma_lex_total(a: Seq<char>, b: Seq<char>)
    ensures
        a == b || lex_lt(a, b) || lex_lt(b, a),
    decreases a.len(),
{
    if a.len() > 0 && b.len() > 0 {
        if a[0] == b[0] {
            lemma_lex_total(a.drop_first(), b.drop_first());
            if a.drop_first() == b.drop_first() {
                assert(a =~= seq![a[0]] + a.drop_first());
                assert(b =~= seq![b[0]] + b.drop_first());
            }
        } else {
            vstd::utf8::char_u32_cast(a[0], a[0] as u32);
            vstd::utf8::char_u32_cast(b[0], b[0] as u32);
        }
    } else if a.len() == 0 && b.len() == 0 {
        assert(a =~= b);
    }
}

pub proof fn lemma_lex_transitive(a: Seq<char>, b: Seq<char>, c: Seq<char>)
    requires
        lex_lt(a, b),
        lex_lt(b, c),
    ensures
        lex_lt(a, c),
    decreases a.len(),
{
    if a.len() > 0 && a[0] == b[0] && b[0] == c[0] {
        lemma_lex_transitive(a.drop_first(), b.drop_first(), c.drop_first());
    }
}

/// Strictly ascending, hence free of duplicates.
pub open spec fn strictly_sorted(s: Seq<Seq<char>>) -> bool {
    forall|i: int, j: int| 0 <= i < j < s.len() ==> lex_lt(#[trigger] s[i], #[trigger] s[j])
}

/// Whether `a` sorts before `b`.
pub fn string_lt(a: &String, b: &String) -> (r: bool)
    ensures
        r == lex_lt(a@, b@),
{
    let sa = a.as_str();
    let sb = b.as_str();
    let na = sa.unicode_len();
    let nb = sb.unicode_len();
    let mut i: usize = 0;
    assert(a@.skip(0) =~= a@);
    assert(b@.skip(0) =~= b@);
    while i < na && i < nb
        invariant
            sa@ == a@,
            sb@ == b@,
            na == a@.len(),
            nb == b@.len(),
            i <= na,
            i <= nb,
            lex_lt(a@.skip(i as int), b@.skip(i as int)) == lex_lt(a@, b@),
        decreases na - i,
    {
        let ca = sa.get_char(i);
        let cb = sb.get_char(i);
        proof {
            assert(a@.skip(i as int)[0] == ca);
            assert(b@.skip(i as int)[0] == cb);
            assert(a@.skip(i as int).drop_first() =~= a@.skip(i as int + 1));
            assert(b@.skip(i as int).drop_first() =~= b@.skip(i as int + 1));
        }
        if ca != cb {
            return (ca as u32) < (cb as u32);
        }
        i = i + 1;
    }
    proof {
        assert(a@.skip(i as int).len() == na - i);
        assert(b@.skip(i as int).len() == nb - i);
    }
    i == na && i < nb
}

/// Inserts `x` into a strictly sorted list unless it is already there.
fn insert_sorted(out: &mut Vec<String>, x: String)
    requires
        strictly_sorted(strings_view(old(out)@)),
    ensures
        strictly_sorted(strings_view(final(out)@)),
        strings_view(final(out)@).to_set() == strings_view(old(out)@).to_set().insert(x@),
{
    let ghost v0 = strings_view(out@);
    let mut p: usize = 0;
    while p < out.len() && string_lt(&out[p], &x)
        invariant
            p <= out@.len(),
            out@ == old(out)@,
            forall|k: int| 0 <= k < p ==> lex_lt(#[trigger] strings_view(out@)[k], x@),
        decreases out@.len() - p,
    {
        p = p + 1;
    }
    if p < out.len() && out[p] == x {
        proof {
            assert(v0.to_set().insert(x@) =~= v0.to_set()) by {
                assert(v0[p as int] == x@);
            }
        }
        return;
    }
    proof {
        if p < v0.len() {
            lemma_lex_total(v0[p as int], x@);
        }
    }
    out.insert(p, x);
    proof {
        let v1 = strings_view(out@);
        assert(v1 =~= v0.insert(p as int, x@));
        assert forall|i: int, j: int| 0 <= i < j < v1.len() implies lex_lt(#[trigger] v1[i], #[trigger] v1[j]) by {
            if j < p {
                assert(v1[i] == v0[i] && v1[j] == v0[j]);
            } else if j == p {
                assert(v1[i] == v0[i]);
            } else if i < p {
                assert(v1[i] == v0[i] && v1[j] == v0[j - 1]);
                assert(lex_lt(v0[i], v0[p as int]) || j - 1 == p as int);
                lemma_lex_transitive(v0[i], x@, v0[p as int]);
                if j - 1 > p {
                    lemma_lex_transitive(v0[i], v0[p as int], v0[j - 1]);
                }
            } else if i == p {
                assert(v1[j] == v0[j - 1]);
                if j - 1 > p {
                    lemma_lex_transitive(x@, v0[p as int], v0[j - 1]);
                }
            } else {
                assert(v1[i] == v0[i - 1] && v1[j] == v0[j - 1]);
            }
        }
        assert(v1.to_set() =~= v0.to_set().insert(x@)) by {
            assert forall|s: Seq<char>| v1.to_set().contains(s) <==> v0.to_set().insert(x@).contains(s) by {
                if v1.to_set().contains(s) {
                    let k = choose|k: int| 0 <= k < v1.len() && v1[k] == s;
                    if k < p {
                        assert(v0[k] == s);
                    } else if k > p {
                        assert(v0[k - 1] == s);
                    }
                }
                if v0.to_set().contains(s) {
                    let k = choose|k: int| 0 <= k < v0.len() && v0[k] == s;
                    if k < p {
                        assert(v1[k] == s);
                    } else {
                        assert(v1[k + 1] == s);
                    }
                }
                if s == x@ {
                    assert(v1[p as int] == s);
                }
            }
        }
    }
}

/// The union of two account lists, sorted ascending, each name once.
pub fn merge_accounts(global: &Vec<String>, scoped: &Vec<String>) -> (r: Vec<String>)
    ensures
        strictly_sorted(strings_view(r@)),
        strings_view(r@).to_set() == strings_view(global@).to_set() + strings_view(scoped@).to_set(),
{
    let mut out: Vec<String> = Vec::new();
    let mut i: usize = 0;
    assert(strings_view(out@).to_set() =~= strings_view(global@).subrange(0, 0).to_set());
    while i < global.len()
        invariant
            i <= global@.len(),
            strictly_sorted(strings_view(out@)),
            strings_view(out@).to_set() == strings_view(global@).subrange(0, i as int).to_set(),
        decreases global@.len() - i,
    {
        insert_sorted(&mut out, global[i].clone());
        proof {
            let pre = strings_view(global@).subrange(0, i as int);
            assert(strings_view(global@).subrange(0, i as int + 1) =~= pre.push(global@[i as int]@));
            pre.lemma_push_to_set_commute(global@[i as int]@);
        }
        i = i + 1;
    }
    assert(strings_view(global@).subrange(0, global@.len() as int) =~= strings_view(global@));
    let mut j: usize = 0;
    assert(strings_view(scoped@).subrange(0, 0).to_set() =~= Set::empty());
    while j < scoped.len()
        invariant
            j <= scoped@.len(),
            strictly_sorted(strings_view(out@)),
            strings_view(out@).to_set() == strings_view(global@).to_set() + strings_view(scoped@).subrange(0, j as int).to_set(),
        decreases scoped@.len() - j,
    {
        insert_sorted(&mut out, scoped[j].clone());
        proof {
            let pre = strings_view(scoped@).subrange(0, j as int);
            assert(strings_view(scoped@).subrange(0, j as int + 1) =~= pre.push(scoped@[j as int]@));
            pre.lemma_push_to_set_commute(scoped@[j as int]@);
            assert(strings_view(global@).to_set() + pre.to_set().insert(scoped@[j as int]@)
                =~= (strings_view(global@).to_set() + pre.to_set()).insert(scoped@[j as int]@));
        }
        j = j + 1;
    }
    assert(strings_view(scoped@).subrange(0, scoped@.len() as int) =~= strings_view(scoped@));
    out
}

/// Where a builder's own accounts come from.
pub enum AccountSource {
    /// A cloud builder lists them in its config.
    Listed { github: Vec<String>, docker: Vec<String> },
    /// A server builder has them from the agent on that server.
    Server { server_id: String },
}

/// Account names a build may use.
pub struct AvailableAccounts {
    pub github: Vec<String>,
    pub docker: Vec<String>,
}

fn copy_strings(v: &Vec<String>) -> (r: Vec<String>)
    ensures
        strings_view(r@) == strings_view(v@),
{
    let mut out: Vec<String> = Vec::new();
    let mut i: usize = 0;
    while i < v.len()
        invariant
            i <= v@.len(),
            strings_view(out@) == strings_view(v@).subrange(0, i as int),
        decreases v@.len() - i,
    {
        let ghost prev = out@;
        let x = v[i].clone();
        out.push(x);
        assert(strings_view(out@) =~= strings_view(prev).push(x@));
        assert(strings_view(out@) =~= strings_view(v@).subrange(0, i as int + 1));
        i = i + 1;
    }
    assert(strings_view(v@).subrange(0, v@.len() as int) =~= strings_view(v@));
    out
}

/// Where the accounts of builder `builder_id` come from, once `user` is
/// seen to hold `Read` on it.
pub fn builder_account_source(builders: &Collection<BuilderConfig, BuilderInfo>, builder_id: &String, user: &User)
    -> (r: Result<AccountSource, CoreError>)
    requires
        builders.wf(),
    ensures
        match builders.get_doc(builder_id@) {
            None => r is Err && r->Err_0 == CoreError::NotFound,
            Some(b) => if !permitted(*user, b.permissions, PermissionLevel::Read) {
                r is Err && r->Err_0 == CoreError::Forbidden
            } else {
                match b.config {
                    BuilderConfig::Aws { github_accounts, docker_accounts, .. } => r matches Ok(
                        AccountSource::Listed { github, docker },
                    ) && strings_view(github@) == strings_view(github_accounts@) && strings_view(docker@)
                        == strings_view(docker_accounts@),
                    BuilderConfig::Server { server_id } => r matches Ok(AccountSource::Server { server_id: s })
                        && s@ == server_id@,
                }
            },
        },
{
    let i = match builders.find(builder_id) {
        None => {
            return Err(CoreError::NotFound);
        },
        Some(i) => i,
    };
    if !has_permission(user, &builders.docs[i].permissions, PermissionLevel::Read) {
        return Err(CoreError::Forbidden);
    }
    match &builders.docs[i].config {
        BuilderConfig::Aws { github_accounts, docker_accounts, .. } => Ok(
            AccountSource::Listed { github: copy_strings(github_accounts), docker: copy_strings(docker_accounts) },
        ),
        BuilderConfig::Server { server_id } => Ok(AccountSource::Server { server_id: server_id.clone() }),
    }
}

/// Joins the globally configured accounts with a builder's own: each
/// list sorted ascending, each name once.
pub fn available_accounts(
    global_github: &Vec<String>,
    global_docker: &Vec<String>,
    github: &Vec<String>,
    docker: &Vec<String>,
) -> (r: AvailableAccounts)
    ensures
        strictly_sorted(strings_view(r.github@)),
        strictly_sorted(strings_view(r.docker@)),
        strings_view(r.github@).to_set() == strings_view(global_github@).to_set() + strings_view(github@).to_set(),
        strings_view(r.docker@).to_set() == strings_view(global_docker@).to_set() + strings_view(docker@).to_set(),
{
    AvailableAccounts { github: merge_accounts(global_github, github), docker: merge_accounts(global_docker, docker) }
}

} // verus!

use vstd::prelude::*;

verus! {

pub open spec fn is_ascii_upper(c: char) -> bool {
    'A' <= c && c <= 'Z'
}

pub open spec fn is_kept(c: char) -> bool {
    ('a' <= c && c <= 'z') || ('0' <= c && c <= '9') || c == '-' || c == '_'
}

/// What a character of a name becomes: upper case letters are lowered,
/// a space becomes `-`, other characters outside `[a-z0-9_-]` are dropped.
pub open spec fn name_char(c: char) -> Option<char> {
    if is_ascii_upper(c) {
        Some(((c as u32) + 32) as char)
    } else if c == ' ' {
        Some('-')
    } else if is_kept(c) {
        Some(c)
    } else {
        None
    }
}

/// The normalized form of a resource name.
pub open spec fn normalized_name(s: Seq<char>) -> Seq<char>
    decreases s.len(),
{
    if s.len() == 0 {
        Seq::empty()
    } else {
        let prefix = normalized_name(s.drop_last());
        match name_char(s.last()) {
            Some(c) => prefix.push(c),
            None => prefix,
        }
    }
}

/// Relies on `String::push`: appends one character to the string.
#[verifier::external_body]
fn push_char(s: &mut String, c: char)
    ensures
        final(s)@ == old(s)@.push(c),
{
    s.push(c)
}

fn map_name_char(c: char) -> (r: Option<char>)
    ensures
        r == name_char(c),
{
    if 'A' <= c && c <= 'Z' {
        let b: u8 = c as u8;
        let lower: u8 = b + 32;
        let r = lower as char;
        assert(r == ((c as u32) + 32) as char);
        Some(r)
    } else if c == ' ' {
        Some('-')
    } else if ('a' <= c && c <= 'z') || ('0' <= c && c <= '9') || c == '-' || c == '_' {
        Some(c)
    } else {
        None
    }
}

/// Normalizes a resource name: lower case, spaces as `-`, and only
/// `[a-z0-9_-]` kept.
pub fn to_monitor_name(name: &str) -> (r: String)
    ensures
        r@ == normalized_name(name@),
{
    let n = name.unicode_len();
    let mut out = String::new();
    let mut i: usize = 0;
    while i < n
        invariant
            n == name@.len(),
            i <= n,
            out@ == normalized_name(name@.subrange(0, i as int)),
        decreases n - i,
    {
        let c = name.get_char(i);
        proof {
            let pre = name@.subrange(0, i as int + 1);
            assert(pre.drop_last() =~= name@.subrange(0, i as int));
            assert(pre.last() == c);
        }
        match map_name_char(c) {
            Some(m) => push_char(&mut out, m),
            None => {},
        }
        i = i + 1;
    }
    proof {
        assert(name@.subrange(0, n as int) =~= name@);
    }
    out
}

/// Normalizing twice changes nothing.
pub proof fn lemma_normalized_name_idempotent(s: Seq<char>)
    ensures
        normalized_name(normalized_name(s)) == normalized_name(s),
    decreases s.len(),
{
    if s.len() > 0 {
        lemma_normalized_name_idempotent(s.drop_last());
        let prefix = normalized_name(s.drop_last());
        match name_char(s.last()) {
            Some(c) => {
                assert(prefix.push(c).drop_last() =~= prefix);
                assert(name_char(c) == Some(c));
            },
            None => {},
        }
    }
}

} // verus!

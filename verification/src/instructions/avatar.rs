//! The short avatar text that a profile gets from its name.

use vstd::prelude::*;
use vstd::string::{StrSliceExecFns, StringExecFns};

verus! {

/// Whether `char::is_whitespace` holds of `c`, that is, whether `c` has the
/// Unicode property White_Space.
pub uninterp spec fn is_whitespace(c: char) -> bool;

/// Calls `char::is_whitespace`.
///
/// Not proved, but taken from that method: the result is `is_whitespace` of
/// `c`. Nothing is claimed about which characters are whitespace.
#[verifier::external_body]
fn char_is_whitespace(c: char) -> (r: bool)
    ensures
        r == is_whitespace(c),
{
    c.is_whitespace()
}

/// `s` without its leading whitespace.
pub open spec fn trim_start(s: Seq<char>) -> Seq<char> decreases s.len(), {
    if s.len() > 0 && is_whitespace(s[0]) {
        trim_start(s.drop_first())
    } else {
        s
    }
}

/// `s` without its trailing whitespace.
pub open spec fn trim_end(s: Seq<char>) -> Seq<char> decreases s.len(), {
    if s.len() > 0 && is_whitespace(s.last()) {
        trim_end(s.drop_last())
    } else {
        s
    }
}

/// `s` without its leading and trailing whitespace.
pub open spec fn trimmed(s: Seq<char>) -> Seq<char> {
    trim_end(trim_start(s))
}

/// The first character of each word of `s`, in order; a word is a longest
/// run of characters that are not whitespace.
pub open spec fn initials(s: Seq<char>) -> Seq<char> decreases s.len(), {
    if s.len() == 0 {
        Seq::<char>::empty()
    } else {
        let before = initials(s.drop_last());
        let i = s.len() - 1;
        if !is_whitespace(s[i]) && (i == 0 || is_whitespace(s[i - 1])) {
            before.push(s[i])
        } else {
            before
        }
    }
}

/// The avatar text of a name: where the trimmed name holds a space, the
/// initials of its words; otherwise its first two characters, or all of it
/// where it is shorter.
pub open spec fn avatar_of(name: Seq<char>) -> Seq<char> {
    let t = trimmed(name);
    if t.contains(' ') {
        initials(t)
    } else if t.len() <= 2 {
        t
    } else {
        t.subrange(0, 2)
    }
}

/// The avatar text of `input`.
pub fn process_avatar(input: &str) -> (r: String)
    ensures
        r@ == avatar_of(input@),
{
    let n = input.unicode_len();
    let mut start: usize = 0;
    assert(input@.skip(0) =~= input@);
    while start < n && char_is_whitespace(input.get_char(start))
        invariant
            0 <= start <= n,
            n == input@.len(),
            trim_start(input@) == trim_start(input@.skip(start as int)),
        decreases n - start,
    {
        assert(input@.skip(start as int).drop_first() =~= input@.skip(start + 1));
        start += 1;
    }
    assert(trim_start(input@) == input@.skip(start as int));
    assert(input@.skip(start as int) =~= input@.subrange(start as int, n as int));
    let mut end: usize = n;
    while end > start && char_is_whitespace(input.get_char(end - 1))
        invariant
            0 <= start <= end <= n,
            n == input@.len(),
            trimmed(input@) == trim_end(input@.subrange(start as int, end as int)),
        decreases end - start,
    {
        assert(input@.subrange(start as int, end as int).drop_last() =~= input@.subrange(
            start as int,
            end - 1,
        ));
        end -= 1;
    }
    let t = input.substring_char(start, end);
    assert(t@ == trimmed(input@));
    let len = end - start;
    let mut has_space = false;
    let mut i: usize = 0;
    while i < len
        invariant
            0 <= i <= len,
            len == t@.len(),
            has_space == exists|j: int| 0 <= j < i && t@[j] == ' ',
        decreases len - i,
    {
        if t.get_char(i) == ' ' {
            has_space = true;
        }
        i += 1;
    }
    assert(has_space == t@.contains(' '));
    if has_space {
        let mut out = String::new();
        let mut k: usize = 0;
        assert(t@.subrange(0, 0) =~= Seq::<char>::empty());
        while k < len
            invariant
                0 <= k <= len,
                len == t@.len(),
                out@ == initials(t@.subrange(0, k as int)),
            decreases len - k,
        {
            let c = t.get_char(k);
            let starts_word = !char_is_whitespace(c) && (k == 0 || char_is_whitespace(
                t.get_char(k - 1),
            ));
            assert(t@.subrange(0, k + 1).drop_last() =~= t@.subrange(0, k as int));
            if starts_word {
                out.append(t.substring_char(k, k + 1));
                assert(t@.subrange(k as int, k + 1) =~= seq![t@[k as int]]);
                assert(out@ =~= initials(t@.subrange(0, k as int)).push(t@[k as int]));
            }
            k += 1;
        }
        assert(t@.subrange(0, len as int) =~= t@);
        out
    } else if len <= 2 {
        String::from_str(t)
    } else {
        String::from_str(t.substring_char(0, 2))
    }
}

} // verus!

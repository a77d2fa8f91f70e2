//! Whitespace normalization for term strings.
//!
//! The dictionary dataset contains entries in which two or more consecutive
//! space characters appear where a single space is meant. Every string that
//! leaves the engine is normalized so that no run of two or more spaces
//! remains; single spaces and all other characters are untouched.

use vstd::prelude::*;
use vstd::string::*;

verus! {

/// The mathematical model of normalization: scanning the string from left
/// to right, a space that immediately follows another space is dropped, so
/// every run of consecutive spaces collapses to a single space.
pub open spec fn squeeze(s: Seq<char>) -> Seq<char>
    decreases s.len(),
{
    if s.len() == 0 {
        Seq::empty()
    } else {
        let rest = squeeze(s.drop_last());
        if s.last() == ' ' && rest.len() > 0 && rest.last() == ' ' {
            rest
        } else {
            rest.push(s.last())
        }
    }
}

/// Holds when the string has no two consecutive space characters.
pub open spec fn no_double_space(s: Seq<char>) -> bool {
    forall|i: int| 0 <= i && i + 1 < s.len() ==> !(s[i] == ' ' && #[trigger] s[i + 1] == ' ')
}

/// Relies on std's String::push: appends exactly the given character.
#[verifier::external_body]
fn push_char(s: &mut String, c: char)
    ensures
        final(s)@ == old(s)@.push(c),
{
    s.push(c)
}

/// Collapses every run of two or more consecutive spaces into a single
/// space, leaving all other characters (single spaces included) untouched.
pub fn normalize(s: &str) -> (r: String)
    ensures
        r@ == squeeze(s@),
{
    let n = s.unicode_len();
    let mut out = String::new();
    let mut prev_space = false;
    let mut i: usize = 0;
    while i < n
        invariant
            n == s@.len(),
            i <= n,
            out@ == squeeze(s@.take(i as int)),
            prev_space == (out@.len() > 0 && out@.last() == ' '),
        decreases n - i,
    {
        let c = s.get_char(i);
        proof {
            assert(s@.take(i as int + 1).drop_last() =~= s@.take(i as int));
            assert(s@.take(i as int + 1).last() == s@[i as int]);
        }
        if c == ' ' && prev_space {
            // a space right after a space: dropped
        } else {
            push_char(&mut out, c);
            prev_space = c == ' ';
        }
        i = i + 1;
    }
    proof {
        assert(s@.take(n as int) =~= s@);
    }
    out
}

/// Law: a normalized string contains no run of two or more consecutive
/// spaces.
pub proof fn lemma_squeeze_no_double_space(s: Seq<char>)
    ensures
        no_double_space(squeeze(s)),
    decreases s.len(),
{
    if s.len() == 0 {
    } else {
        lemma_squeeze_no_double_space(s.drop_last());
        let rest = squeeze(s.drop_last());
        if s.last() == ' ' && rest.len() > 0 && rest.last() == ' ' {
        } else {
            let r = rest.push(s.last());
            assert forall|i: int| 0 <= i && i + 1 < r.len() implies !(r[i] == ' '
                && #[trigger] r[i + 1] == ' ') by {
                if i + 1 < rest.len() {
                    assert(!(rest[i] == ' ' && rest[i + 1] == ' '));
                }
            }
        }
    }
}

/// A string without consecutive spaces is already normal: squeezing it
/// changes nothing.
pub proof fn lemma_squeeze_identity(s: Seq<char>)
    requires
        no_double_space(s),
    ensures
        squeeze(s) == s,
    decreases s.len(),
{
    if s.len() == 0 {
        assert(squeeze(s) =~= s);
    } else {
        let d = s.drop_last();
        assert forall|i: int| 0 <= i && i + 1 < d.len() implies !(d[i] == ' '
            && #[trigger] d[i + 1] == ' ') by {
            assert(!(s[i] == ' ' && s[i + 1] == ' '));
        }
        lemma_squeeze_identity(d);
        if s.last() == ' ' && d.len() > 0 && d.last() == ' ' {
            let j = s.len() - 2;
            assert(s[j] == ' ');
            assert(s[j + 1] == ' ');
            assert(false);
        }
        assert(squeeze(s) =~= s);
    }
}

/// Law: normalization is idempotent. Normalizing an already-normalized
/// string returns it unchanged.
pub proof fn lemma_squeeze_idempotent(s: Seq<char>)
    ensures
        squeeze(squeeze(s)) == squeeze(s),
{
    lemma_squeeze_no_double_space(s);
    lemma_squeeze_identity(squeeze(s));
}

} // verus!

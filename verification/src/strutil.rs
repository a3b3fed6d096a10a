//! Character-level string helpers: ASCII case folding, case-insensitive token
//! comparison, and exact string comparison, each with an exact specification.

use vstd::prelude::*;

verus! {

/// The ASCII case fold of a character, as a scalar value: uppercase ASCII
/// letters map to their lowercase counterpart, everything else to itself.
pub open spec fn fold_u(c: char) -> u32 {
    if 65 <= c as u32 && c as u32 <= 90 {
        (c as u32 + 32) as u32
    } else {
        c as u32
    }
}

/// Two tokens match when they have the same length and agree character by
/// character up to ASCII case folding.
pub open spec fn tokens_match(a: Seq<char>, b: Seq<char>) -> bool {
    &&& a.len() == b.len()
    &&& forall|i: int|
        #![trigger a[i]]
        #![trigger b[i]]
        0 <= i < a.len() ==> fold_u(a[i]) == fold_u(b[i])
}

/// Decides whether two tokens match case-insensitively (ASCII folding).
pub fn matches_token(t: &str, alias: &str) -> (r: bool)
    ensures
        r == tokens_match(t@, alias@),
{
    let n = t.unicode_len();
    if n != alias.unicode_len() {
        return false;
    }
    let mut i: usize = 0;
    while i < n
        invariant
            i <= n,
            n == t@.len(),
            t@.len() == alias@.len(),
            forall|j: int| #![trigger t@[j]] 0 <= j < i ==> fold_u(t@[j]) == fold_u(alias@[j]),
        decreases n - i,
    {
        let tc = t.get_char(i);
        let ac = alias.get_char(i);
        let tu = tc as u32;
        let au = ac as u32;
        let tf = if 65 <= tu && tu <= 90 {
            tu + 32
        } else {
            tu
        };
        let af = if 65 <= au && au <= 90 {
            au + 32
        } else {
            au
        };
        if tf != af {
            assert(fold_u(t@[i as int]) != fold_u(alias@[i as int]));
            return false;
        }
        i += 1;
    }
    true
}

/// Decides exact (case-sensitive) equality of two string slices.
pub fn str_eq(a: &str, b: &str) -> (r: bool)
    ensures
        r == (a@ == b@),
{
    let n = a.unicode_len();
    if n != b.unicode_len() {
        return false;
    }
    let mut i: usize = 0;
    while i < n
        invariant
            i <= n,
            n == a@.len(),
            a@.len() == b@.len(),
            forall|j: int| #![trigger a@[j]] 0 <= j < i ==> a@[j] == b@[j],
        decreases n - i,
    {
        if a.get_char(i) != b.get_char(i) {
            return false;
        }
        i += 1;
    }
    proof {
        assert(a@ =~= b@);
    }
    true
}

} // verus!

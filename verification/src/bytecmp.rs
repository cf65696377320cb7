//! Canonical three-way comparison of byte strings.
//!
//! Key ordering in this layer is the lexicographic order of the canonical
//! serialized bytes: contents compared element by element, with a shorter
//! string ordering before every proper extension of it. The lemmas here
//! establish that this is a strict total order, which the key types then
//! inherit through their serialized forms.

use vstd::prelude::*;
use core::cmp::Ordering;

verus! {

/// Lexicographic three-way comparison of byte strings, yielding -1, 0 or 1.
pub open spec fn lex_cmp(a: Seq<u8>, b: Seq<u8>) -> int
    decreases a.len(),
{
    if a.len() == 0 && b.len() == 0 {
        0
    } else if a.len() == 0 {
        -1
    } else if b.len() == 0 {
        1
    } else if a[0] < b[0] {
        -1
    } else if a[0] > b[0] {
        1
    } else {
        lex_cmp(a.drop_first(), b.drop_first())
    }
}

/// The [`Ordering`] that a three-way comparison result reads as.
pub open spec fn spec_ordering_of(c: int) -> Ordering {
    if c < 0 {
        Ordering::Less
    } else if c == 0 {
        Ordering::Equal
    } else {
        Ordering::Greater
    }
}

/// The comparison always yields one of -1, 0, 1.
pub proof fn lemma_lex_cmp_range(a: Seq<u8>, b: Seq<u8>)
    ensures
        -1 <= lex_cmp(a, b) <= 1,
    decreases a.len(),
{
    if a.len() != 0 && b.len() != 0 && a[0] == b[0] {
        lemma_lex_cmp_range(a.drop_first(), b.drop_first());
    }
}

/// Two byte strings compare as equal exactly when they are the same string.
pub proof fn lemma_lex_cmp_zero_iff_eq(a: Seq<u8>, b: Seq<u8>)
    ensures
        lex_cmp(a, b) == 0 <==> a == b,
    decreases a.len(),
{
    if a.len() == 0 && b.len() == 0 {
        assert(a =~= b);
    } else if a.len() != 0 && b.len() != 0 && a[0] == b[0] {
        lemma_lex_cmp_zero_iff_eq(a.drop_first(), b.drop_first());
        if lex_cmp(a, b) == 0 {
            assert(a =~= b) by {
                assert(a.drop_first() =~= b.drop_first());
                assert(forall|i: int| 1 <= i < a.len() ==> a[i] == a.drop_first()[i - 1]);
            }
        }
        if a == b {
            assert(a.drop_first() =~= b.drop_first());
        }
    }
}

/// Swapping the arguments negates the comparison.
pub proof fn lemma_lex_cmp_antisymmetric(a: Seq<u8>, b: Seq<u8>)
    ensures
        lex_cmp(a, b) == -lex_cmp(b, a),
    decreases a.len(),
{
    if a.len() != 0 && b.len() != 0 && a[0] == b[0] {
        lemma_lex_cmp_antisymmetric(a.drop_first(), b.drop_first());
    }
}

/// The strict order is transitive: below-or-equal composes, and stays
/// strict as soon as one of the two steps is strict.
pub proof fn lemma_lex_cmp_transitive(a: Seq<u8>, b: Seq<u8>, c: Seq<u8>)
    requires
        lex_cmp(a, b) <= 0,
        lex_cmp(b, c) <= 0,
    ensures
        lex_cmp(a, c) <= 0,
        lex_cmp(a, b) < 0 || lex_cmp(b, c) < 0 ==> lex_cmp(a, c) < 0,
    decreases a.len() + b.len() + c.len(),
{
    lemma_lex_cmp_zero_iff_eq(a, b);
    lemma_lex_cmp_zero_iff_eq(b, c);
    if lex_cmp(a, b) == 0 || lex_cmp(b, c) == 0 {
        // One step is an equality, so the other settles the comparison.
    } else {
        lemma_lex_cmp_range(a, b);
        lemma_lex_cmp_range(b, c);
        if a.len() == 0 {
            // b is nonempty, hence so is c, and the empty string is least.
        } else {
            // a nonempty forces b and c nonempty, else a later step were 1.
            if a[0] == b[0] && b[0] == c[0] {
                lemma_lex_cmp_transitive(a.drop_first(), b.drop_first(), c.drop_first());
            }
        }
    }
}

/// For any two byte strings exactly one of "less", "equal", "greater"
/// holds, "equal" coincides with being the same string, and "less" one way
/// is "greater" the other way.
pub proof fn lemma_lex_cmp_trichotomy(a: Seq<u8>, b: Seq<u8>)
    ensures
        lex_cmp(a, b) == -1 || lex_cmp(a, b) == 0 || lex_cmp(a, b) == 1,
        lex_cmp(a, b) == 0 <==> a == b,
        lex_cmp(a, b) == -1 <==> lex_cmp(b, a) == 1,
{
    lemma_lex_cmp_range(a, b);
    lemma_lex_cmp_zero_iff_eq(a, b);
    lemma_lex_cmp_antisymmetric(a, b);
}

/// Skipping one matching leading byte on both sides keeps the comparison.
proof fn lemma_lex_cmp_skip_step(a: Seq<u8>, b: Seq<u8>, i: int)
    requires
        0 <= i < a.len(),
        0 <= i < b.len(),
        a[i] == b[i],
    ensures
        lex_cmp(a.skip(i), b.skip(i)) == lex_cmp(a.skip(i + 1), b.skip(i + 1)),
{
    assert(a.skip(i).drop_first() =~= a.skip(i + 1));
    assert(b.skip(i).drop_first() =~= b.skip(i + 1));
    assert(a.skip(i)[0] == a[i]);
    assert(b.skip(i)[0] == b[i]);
}

/// Compare two byte strings in the canonical order.
pub fn compare_bytes(a: &[u8], b: &[u8]) -> (o: Ordering)
    ensures
        o == spec_ordering_of(lex_cmp(a@, b@)),
{
    let n: usize = if a.len() < b.len() {
        a.len()
    } else {
        b.len()
    };
    let mut i: usize = 0;
    proof {
        assert(a@.skip(0) =~= a@);
        assert(b@.skip(0) =~= b@);
    }
    while i < n
        invariant
            0 <= i <= n,
            n <= a@.len(),
            n <= b@.len(),
            n == if a@.len() < b@.len() {
                a@.len()
            } else {
                b@.len()
            },
            lex_cmp(a@, b@) == lex_cmp(a@.skip(i as int), b@.skip(i as int)),
        decreases n - i,
    {
        proof {
            assert(a@.skip(i as int)[0] == a@[i as int]);
            assert(b@.skip(i as int)[0] == b@[i as int]);
        }
        if a[i] < b[i] {
            return Ordering::Less;
        }
        if a[i] > b[i] {
            return Ordering::Greater;
        }
        proof {
            lemma_lex_cmp_skip_step(a@, b@, i as int);
        }
        i = i + 1;
    }
    proof {
        assert(a@.skip(n as int).len() == a@.len() - n);
        assert(b@.skip(n as int).len() == b@.len() - n);
    }
    if a.len() == b.len() {
        Ordering::Equal
    } else if a.len() < b.len() {
        Ordering::Less
    } else {
        Ordering::Greater
    }
}

/// Does a byte string consist of zero bytes only?
pub open spec fn all_zero(s: Seq<u8>) -> bool {
    forall|i: int| 0 <= i < s.len() ==> s[i] == 0u8
}

/// Is every byte of the string zero?
pub fn is_all_zero(s: &[u8]) -> (r: bool)
    ensures
        r == all_zero(s@),
{
    let mut i: usize = 0;
    while i < s.len()
        invariant
            0 <= i <= s@.len(),
            forall|j: int| 0 <= j < i ==> s@[j] == 0u8,
        decreases s@.len() - i,
    {
        if s[i] != 0 {
            return false;
        }
        i = i + 1;
    }
    true
}

/// Are two byte strings the same string?
pub fn bytes_eq(a: &[u8], b: &[u8]) -> (r: bool)
    ensures
        r == (a@ == b@),
{
    proof {
        lemma_lex_cmp_zero_iff_eq(a@, b@);
        lemma_lex_cmp_range(a@, b@);
    }
    matches!(compare_bytes(a, b), Ordering::Equal)
}

} // verus!

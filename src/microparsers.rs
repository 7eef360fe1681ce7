use vstd::prelude::*;

verus! {

/// Whether `c` continues a word: an ASCII letter (`a`-`z`, `A`-`Z`), a
/// digit (`0`-`9`) or `_` (0x5f).
pub open spec fn word_byte(c: u8) -> bool {
    (0x61 <= c && c <= 0x7a) || (0x41 <= c && c <= 0x5a) || (0x30 <= c && c <= 0x39) || c == 0x5f
}

pub fn is_word(c: u8) -> (r: bool)
    ensures
        r == word_byte(c),
{
    (0x61 <= c && c <= 0x7a) || (0x41 <= c && c <= 0x5a) || (0x30 <= c && c <= 0x39) || c == 0x5f
}

/// The length of the longest common prefix of `a` and `b`.
pub open spec fn common_prefix_len(a: Seq<u8>, b: Seq<u8>) -> nat
    decreases a.len(),
{
    if a.len() == 0 || b.len() == 0 || a[0] != b[0] {
        0
    } else {
        1 + common_prefix_len(a.drop_first(), b.drop_first())
    }
}

/// How many leading bytes of `s` match the literal `lit`, stopping at the
/// first difference.
pub fn prefixlen(s: &[u8], lit: &[u8]) -> (r: usize)
    ensures
        r == common_prefix_len(s@, lit@),
        r <= s@.len(),
        r <= lit@.len(),
        forall|j: int| 0 <= j < r ==> s@[j] == lit@[j],
        r < s@.len() && r < lit@.len() ==> s@[r as int] != lit@[r as int],
{
    let mut i: usize = 0;
    assert(s@.skip(0) =~= s@);
    assert(lit@.skip(0) =~= lit@);
    while i < s.len() && i < lit.len() && s[i] == lit[i]
        invariant
            i <= s@.len(),
            i <= lit@.len(),
            forall|j: int| 0 <= j < i ==> s@[j] == lit@[j],
            common_prefix_len(s@, lit@) == i + common_prefix_len(s@.skip(i as int), lit@.skip(i as int)),
        decreases s@.len() - i,
    {
        proof {
            let a = s@.skip(i as int);
            let b = lit@.skip(i as int);
            assert(a.drop_first() =~= s@.skip(i + 1));
            assert(b.drop_first() =~= lit@.skip(i + 1));
        }
        i = i + 1;
    }
    proof {
        let a = s@.skip(i as int);
        let b = lit@.skip(i as int);
        assert(common_prefix_len(a, b) == 0);
    }
    i
}

} // verus!

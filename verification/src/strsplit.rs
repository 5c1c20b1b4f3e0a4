//! Splitting text at a separator character, the way the callback listener
//! reads a query string: specified as a sequence of pieces, implemented as
//! one verified scan.

use vstd::prelude::*;

verus! {

/// Index of the first occurrence of `c` in `s`, or -1 when `c` does not
/// occur.
pub open spec fn first_index_of(s: Seq<char>, c: char) -> int
    decreases s.len(),
{
    if s.len() == 0 {
        -1
    } else if s[0] == c {
        0
    } else {
        let r = first_index_of(s.drop_first(), c);
        if r < 0 {
            -1
        } else {
            r + 1
        }
    }
}

pub proof fn lemma_first_index_of(s: Seq<char>, c: char)
    ensures
        first_index_of(s, c) == -1 || 0 <= first_index_of(s, c) < s.len(),
        first_index_of(s, c) >= 0 ==> s[first_index_of(s, c)] == c,
        forall|j: int| 0 <= j < first_index_of(s, c) ==> s[j] != c,
        first_index_of(s, c) == -1 ==> forall|j: int| 0 <= j < s.len() ==> s[j] != c,
    decreases s.len(),
{
    if s.len() != 0 && s[0] != c {
        lemma_first_index_of(s.drop_first(), c);
        assert(forall|j: int| 0 <= j < s.len() - 1 ==> s.drop_first()[j] == s[j + 1]);
        if first_index_of(s, c) == -1 {
            assert forall|j: int| 0 <= j < s.len() implies s[j] != c by {
                if j > 0 {
                    assert(s.drop_first()[j - 1] != c);
                }
            }
        } else {
            assert forall|j: int| 0 <= j < first_index_of(s, c) implies s[j] != c by {
                if j > 0 {
                    assert(s.drop_first()[j - 1] != c);
                }
            }
        }
    }
}

/// The pieces of `s` between occurrences of `sep`: always one more piece
/// than there are separators, and empty pieces are kept.
pub open spec fn split_chars(s: Seq<char>, sep: char) -> Seq<Seq<char>>
    decreases s.len(),
    via split_chars_decreases
{
    let i = first_index_of(s, sep);
    if i < 0 {
        seq![s]
    } else {
        seq![s.subrange(0, i)] + split_chars(s.subrange(i + 1, s.len() as int), sep)
    }
}

#[via_fn]
proof fn split_chars_decreases(s: Seq<char>, sep: char) {
    lemma_first_index_of(s, sep);
}

/// Splitting yields at least one piece.
pub proof fn lemma_split_chars_nonempty(s: Seq<char>, sep: char)
    ensures
        split_chars(s, sep).len() >= 1,
{
    lemma_first_index_of(s, sep);
    if first_index_of(s, sep) < 0 {
    } else {
    }
}

/// A string without the separator is a single piece.
pub proof fn lemma_split_chars_whole(s: Seq<char>, sep: char)
    requires
        forall|j: int| 0 <= j < s.len() ==> s[j] != sep,
    ensures
        split_chars(s, sep) == seq![s],
{
    lemma_first_index_of(s, sep);
    if first_index_of(s, sep) >= 0 {
        assert(s[first_index_of(s, sep)] == sep);
    }
}

proof fn lemma_first_index_in_concat(a: Seq<char>, b: Seq<char>, sep: char)
    requires
        forall|j: int| 0 <= j < a.len() ==> a[j] != sep,
    ensures
        first_index_of(a + seq![sep] + b, sep) == a.len(),
    decreases a.len(),
{
    let s = a + seq![sep] + b;
    if a.len() == 0 {
        assert(s[0] == sep);
    } else {
        assert(s[0] == a[0]);
        assert(forall|j: int| 0 <= j < a.len() - 1 ==> a.drop_first()[j] == a[j + 1]);
        lemma_first_index_in_concat(a.drop_first(), b, sep);
        assert(s.drop_first() =~= a.drop_first() + seq![sep] + b);
    }
}

/// Peeling the first separator off: the piece before it, then the split of
/// what follows it.
pub proof fn lemma_split_chars_step(a: Seq<char>, b: Seq<char>, sep: char)
    requires
        forall|j: int| 0 <= j < a.len() ==> a[j] != sep,
    ensures
        split_chars(a + seq![sep] + b, sep) == seq![a] + split_chars(b, sep),
{
    let s = a + seq![sep] + b;
    lemma_first_index_in_concat(a, b, sep);
    assert(s.subrange(0, a.len() as int) =~= a);
    assert(s.subrange(a.len() as int + 1, s.len() as int) =~= b);
}

/// Splits `s` at every occurrence of `sep`, exactly as [`split_chars`]
/// describes.
pub fn split_str(s: &str, sep: char) -> (r: Vec<String>)
    ensures
        r@.map_values(|p: String| p@) == split_chars(s@, sep),
        r@.len() == split_chars(s@, sep).len(),
        forall|k: int| 0 <= k < r@.len() ==> (#[trigger] r@[k])@ == split_chars(s@, sep)[k],
{
    let n = s.unicode_len();
    let mut parts: Vec<String> = Vec::new();
    let mut start: usize = 0;
    let mut i: usize = 0;
    proof {
        assert(s@.subrange(0, n as int) =~= s@);
        assert(parts@.map_values(|p: String| p@) + split_chars(s@, sep) =~= split_chars(s@, sep));
    }
    while i < n
        invariant
            n == s@.len(),
            i <= n,
            start <= i,
            forall|j: int| start <= j < i ==> s@[j] != sep,
            split_chars(s@, sep) == parts@.map_values(|p: String| p@) + split_chars(
                s@.subrange(start as int, n as int),
                sep,
            ),
        decreases n - i,
    {
        if s.get_char(i) == sep {
            let ghost old_map = parts@.map_values(|p: String| p@);
            let ghost aa = s@.subrange(start as int, i as int);
            let ghost bb = s@.subrange(i as int + 1, n as int);
            proof {
                assert(s@.subrange(start as int, n as int) =~= aa + seq![sep] + bb);
                lemma_split_chars_step(aa, bb, sep);
            }
            let piece = s.substring_char(start, i);
            parts.push(String::from_str(piece));
            proof {
                assert(parts@.map_values(|p: String| p@) =~= old_map.push(aa));
                assert(old_map + (seq![aa] + split_chars(bb, sep)) =~= old_map.push(aa)
                    + split_chars(bb, sep));
            }
            start = i + 1;
        }
        i += 1;
    }
    let ghost old_map = parts@.map_values(|p: String| p@);
    let ghost rem = s@.subrange(start as int, n as int);
    proof {
        assert(forall|j: int| 0 <= j < rem.len() ==> rem[j] != sep);
        lemma_split_chars_whole(rem, sep);
    }
    let piece = s.substring_char(start, n);
    parts.push(String::from_str(piece));
    proof {
        assert(parts@.map_values(|p: String| p@) =~= old_map.push(rem));
        assert(old_map + seq![rem] =~= old_map.push(rem));
    }
    parts
}

} // verus!

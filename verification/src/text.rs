//! Small verified text helpers shared across the engine: comparing string
//! slices by value, joining pieces with a separator, and splitting a
//! configuration value at a separator character.

use vstd::prelude::*;
use vstd::string::StrSliceExecFns;

verus! {

/// Whether two string slices hold the same characters.
pub fn str_eq(a: &str, b: &str) -> (r: bool)
    ensures
        r == (a@ == b@),
{
    let owned_a: String = a.to_owned();
    let owned_b: String = b.to_owned();
    owned_a == owned_b
}

/// The pieces laid end to end with the separator between each two.
pub open spec fn joined(parts: Seq<Seq<char>>, sep: Seq<char>) -> Seq<char>
    decreases parts.len(),
{
    if parts.len() == 0 {
        Seq::empty()
    } else if parts.len() == 1 {
        parts[0]
    } else {
        joined(parts.drop_last(), sep) + sep + parts.last()
    }
}

/// The pieces laid end to end with the separator after each one.
pub open spec fn joined_trailing(parts: Seq<Seq<char>>, sep: Seq<char>) -> Seq<char>
    decreases parts.len(),
{
    if parts.len() == 0 {
        Seq::empty()
    } else {
        joined_trailing(parts.drop_last(), sep) + parts.last() + sep
    }
}

/// Putting the separator between pieces and after them differ by exactly one
/// trailing separator.
proof fn lemma_joined_trailing(parts: Seq<Seq<char>>, sep: Seq<char>)
    requires
        parts.len() > 0,
    ensures
        joined_trailing(parts, sep) == joined(parts, sep) + sep,
    decreases parts.len(),
{
    if parts.len() == 1 {
        assert(parts.drop_last().len() == 0);
        assert(joined_trailing(parts.drop_last(), sep) == Seq::<char>::empty());
        assert(joined_trailing(parts, sep) =~= joined(parts, sep) + sep);
    } else {
        lemma_joined_trailing(parts.drop_last(), sep);
        assert(joined_trailing(parts, sep) =~= joined(parts, sep) + sep);
    }
}

/// Appending one more piece extends the trailing-separator join by the piece
/// and the separator between.
proof fn lemma_joined_push(parts: Seq<Seq<char>>, piece: Seq<char>, sep: Seq<char>)
    ensures
        joined(parts.push(piece), sep) == joined_trailing(parts, sep) + piece,
{
    if parts.len() == 0 {
        assert(parts.push(piece)[0] == piece);
        assert(joined(parts.push(piece), sep) =~= joined_trailing(parts, sep) + piece);
    } else {
        lemma_joined_trailing(parts, sep);
        assert(parts.push(piece).drop_last() =~= parts);
        assert(joined(parts.push(piece), sep) == joined(parts, sep) + sep + piece);
        assert(joined(parts, sep) + sep + piece =~= (joined(parts, sep) + sep) + piece);
    }
}

/// The sequence of views of a vector of strings.
pub open spec fn string_views(v: Seq<String>) -> Seq<Seq<char>> {
    v.map_values(|s: String| s@)
}

/// Split at every occurrence of the separator: the pieces, none of which
/// contains the separator, joined with it, give back the input; a string
/// with no separator yields itself as the one piece.
pub fn split_char(s: &str, sep: char) -> (r: Vec<String>)
    ensures
        r@.len() >= 1,
        joined(string_views(r@), seq![sep]) == s@,
        forall|i: int| 0 <= i < r@.len() ==> !(#[trigger] string_views(r@)[i]).contains(sep),
{
    let n: usize = s.unicode_len();
    let mut parts: Vec<String> = Vec::new();
    let mut start: usize = 0;
    let mut i: usize = 0;
    while i < n
        invariant
            start <= i <= n,
            n == s@.len(),
            joined_trailing(string_views(parts@), seq![sep]) == s@.take(start as int),
            forall|j: int|
                0 <= j < parts@.len() ==> !(#[trigger] string_views(parts@)[j]).contains(sep),
            forall|j: int| start <= j < i ==> s@[j] != sep,
        decreases n - i,
    {
        if s.get_char(i) == sep {
            let ghost pv = string_views(parts@);
            let piece = s.substring_char(start, i).to_owned();
            proof {
                assert(piece@ == s@.subrange(start as int, i as int));
                assert forall|j: int| 0 <= j < piece@.len() implies piece@[j] != sep by {
                    assert(piece@[j] == s@[start + j]);
                }
                if piece@.contains(sep) {
                    let j = choose|j: int| 0 <= j < piece@.len() && piece@[j] == sep;
                }
            }
            parts.push(piece);
            proof {
                let pv_new = string_views(parts@);
                assert(pv_new =~= pv.push(piece@));
                assert(pv_new.drop_last() =~= pv);
                assert(pv_new.last() == piece@);
                assert(joined_trailing(pv_new, seq![sep]) == joined_trailing(pv, seq![sep])
                    + piece@ + seq![sep]);
                assert(joined_trailing(pv, seq![sep]) + piece@ + seq![sep] =~= s@.take(
                    i + 1,
                ));
                assert forall|j: int| 0 <= j < pv_new.len() implies !(#[trigger] pv_new[
                j]).contains(sep) by {
                    if j < pv.len() {
                        assert(pv_new[j] == pv[j]);
                    }
                }
            }
            start = i + 1;
        }
        i = i + 1;
    }
    let ghost pv = string_views(parts@);
    let piece = s.substring_char(start, n).to_owned();
    proof {
        assert(piece@ == s@.subrange(start as int, n as int));
        assert forall|j: int| 0 <= j < piece@.len() implies piece@[j] != sep by {
            assert(piece@[j] == s@[start + j]);
        }
        if piece@.contains(sep) {
            let j = choose|j: int| 0 <= j < piece@.len() && piece@[j] == sep;
        }
    }
    parts.push(piece);
    proof {
        let pv_new = string_views(parts@);
        assert(pv_new =~= pv.push(piece@));
        lemma_joined_push(pv, piece@, seq![sep]);
        assert(s@.take(start as int) + piece@ =~= s@);
        assert(joined(pv_new, seq![sep]) == s@);
        assert forall|j: int| 0 <= j < pv_new.len() implies !(#[trigger] string_views(
            parts@,
        )[j]).contains(sep) by {
            assert(pv_new[j] == pv.push(piece@)[j]);
            if j < pv.len() {
                assert(pv_new[j] == pv[j]);
            } else {
                assert(pv_new[j] == piece@);
            }
        }
    }
    parts
}

} // verus!

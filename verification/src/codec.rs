//! Field framing for the message channel: several byte fields packed into
//! one frame with a separator byte, and the exact inverse.  The connection
//! handler maps framed bytes to the session's message types; the splitting
//! itself is specified and verified here.

use vstd::prelude::*;

verus! {

/// The field separator.
pub const SEPARATOR: u8 = 0;

/// Fields joined by a separator, in order.
pub open spec fn joined_with(items: Seq<Seq<u8>>, sep: Seq<u8>) -> Seq<u8>
    decreases items.len(),
{
    if items.len() == 0 {
        Seq::<u8>::empty()
    } else if items.len() == 1 {
        items[0]
    } else {
        items[0] + sep + joined_with(items.drop_first(), sep)
    }
}

/// Joining one more field appends a separator (unless the list was empty)
/// and the field.
pub proof fn lemma_joined_with_push(items: Seq<Seq<u8>>, sep: Seq<u8>, x: Seq<u8>)
    ensures
        joined_with(items.push(x), sep) == if items.len() == 0 {
            x
        } else {
            joined_with(items, sep) + sep + x
        },
    decreases items.len(),
{
    if items.len() == 0 {
        assert(joined_with(items.push(x), sep) == items.push(x)[0]);
    } else if items.len() == 1 {
        assert(items.push(x)[0] == items[0]);
        assert(items.push(x).drop_first() =~= seq![x]);
        assert(joined_with(seq![x], sep) == x);
    } else {
        assert(items.push(x)[0] == items[0]);
        assert(items.push(x).drop_first() =~= items.drop_first().push(x));
        lemma_joined_with_push(items.drop_first(), sep, x);
        assert(joined_with(items.push(x), sep) =~= joined_with(items, sep) + sep + x);
    }
}

/// Splits a frame at every separator byte.  The contract pins the result
/// completely: the fields contain no separator, and joining them with the
/// separator reassembles the frame byte for byte.
pub fn split_fields(data: &[u8]) -> (parts: Vec<Vec<u8>>)
    ensures
        parts@.len() >= 1,
        joined_with(parts.deep_view(), seq![SEPARATOR]) == data@,
        forall|i: int|
            0 <= i < parts@.len() ==> !(#[trigger] parts.deep_view()[i]).contains(SEPARATOR),
{
    let n: usize = data.len();
    let mut parts: Vec<Vec<u8>> = Vec::new();
    let mut current: Vec<u8> = Vec::new();
    for i in 0..n
        invariant
            n == data@.len(),
            joined_with(parts.deep_view().push(current@), seq![SEPARATOR]) == data@.take(i as int),
            forall|k: int|
                0 <= k < parts@.len() ==> !(#[trigger] parts.deep_view()[k]).contains(SEPARATOR),
            !current@.contains(SEPARATOR),
    {
        let b = data[i];
        let ghost prev_parts = parts.deep_view();
        let ghost prev_cur = current@;
        if b == SEPARATOR {
            parts.push(current);
            current = Vec::new();
            proof {
                assert(parts.deep_view() =~~= prev_parts.push(prev_cur));
                lemma_joined_with_push(parts.deep_view(), seq![SEPARATOR], Seq::<u8>::empty());
                assert(joined_with(prev_parts.push(prev_cur), seq![SEPARATOR]) + seq![SEPARATOR]
                    + Seq::<u8>::empty() =~= data@.take(i + 1));
            }
        } else {
            current.push(b);
            proof {
                assert(current@ =~= prev_cur + seq![b]);
                lemma_joined_with_push(prev_parts, seq![SEPARATOR], prev_cur);
                lemma_joined_with_push(prev_parts, seq![SEPARATOR], prev_cur + seq![b]);
                if prev_parts.len() == 0 {
                    assert(prev_cur + seq![b] =~= data@.take(i + 1));
                } else {
                    assert(joined_with(prev_parts, seq![SEPARATOR]) + seq![SEPARATOR] + (prev_cur
                        + seq![b]) =~= data@.take(i + 1));
                }
                assert forall|k: int| 0 <= k < current@.len() implies current@[k] != SEPARATOR by {
                    if k < prev_cur.len() {
                        assert(!prev_cur.contains(prev_cur[k]) ==> false);
                    }
                }
            }
        }
    }
    proof {
        assert(data@.take(n as int) =~= data@);
    }
    let ghost prev_parts = parts.deep_view();
    let ghost prev_cur = current@;
    parts.push(current);
    proof {
        assert(parts.deep_view() =~~= prev_parts.push(prev_cur));
    }
    parts
}

/// Joins separator-free fields into one frame: the inverse of
/// [`split_fields`].
pub fn join_fields(parts: &Vec<Vec<u8>>) -> (data: Vec<u8>)
    requires
        parts@.len() >= 1,
    ensures
        data@ == joined_with(parts.deep_view(), seq![SEPARATOR]),
{
    let mut data: Vec<u8> = Vec::new();
    let n: usize = parts.len();
    for i in 0..n
        invariant
            n == parts@.len(),
            parts.deep_view().len() == n,
            i == 0 ==> data@ == Seq::<u8>::empty(),
            i > 0 ==> data@ == joined_with(parts.deep_view().take(i as int), seq![SEPARATOR]),
    {
        proof {
            assert(parts.deep_view()[i as int] == parts@[i as int]@);
            assert(parts.deep_view().take(i + 1) =~= parts.deep_view().take(i as int).push(
                parts.deep_view()[i as int],
            ));
            lemma_joined_with_push(
                parts.deep_view().take(i as int),
                seq![SEPARATOR],
                parts.deep_view()[i as int],
            );
        }
        if i > 0 {
            data.push(SEPARATOR);
        }
        let m: usize = parts[i].len();
        for j in 0..m
            invariant
                m == parts@[i as int]@.len(),
                i < parts@.len(),
                data@ == (if i == 0 {
                    Seq::<u8>::empty()
                } else {
                    joined_with(parts.deep_view().take(i as int), seq![SEPARATOR]) + seq![SEPARATOR]
                }) + parts@[i as int]@.take(j as int),
        {
            data.push(parts[i][j]);
            proof {
                assert(parts@[i as int]@.take(j + 1) =~= parts@[i as int]@.take(j as int).push(
                    parts@[i as int]@[j as int],
                ));
                assert(data@ == (if i == 0 {
                    Seq::<u8>::empty()
                } else {
                    joined_with(parts.deep_view().take(i as int), seq![SEPARATOR]) + seq![SEPARATOR]
                }) + parts@[i as int]@.take(j + 1));
            }
        }
        proof {
            assert(parts@[i as int]@.take(m as int) =~= parts@[i as int]@);
            if i == 0 {
                assert(data@ =~= joined_with(parts.deep_view().take(1), seq![SEPARATOR]));
            } else {
                assert(data@ =~= joined_with(parts.deep_view().take(i + 1), seq![SEPARATOR]));
            }
        }
    }
    proof {
        assert(parts.deep_view().take(n as int) =~= parts.deep_view());
    }
    data
}

} // verus!

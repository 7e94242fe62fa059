//! Output-stream assembly: a workload's stdout is forwarded as a sequence
//! of chunks; concatenating the chunks in delivery order reconstructs the
//! byte stream exactly.

use vstd::prelude::*;

verus! {

/// The byte stream that a sequence of output chunks denotes: the chunks
/// concatenated in order.
pub open spec fn concat_bytes(chunks: Seq<Seq<u8>>) -> Seq<u8>
    decreases chunks.len(),
{
    if chunks.len() == 0 {
        Seq::<u8>::empty()
    } else {
        chunks[0] + concat_bytes(chunks.drop_first())
    }
}

/// Appending one chunk to a chunk sequence appends its bytes to the stream.
pub proof fn lemma_concat_bytes_push(chunks: Seq<Seq<u8>>, c: Seq<u8>)
    ensures
        concat_bytes(chunks.push(c)) == concat_bytes(chunks) + c,
    decreases chunks.len(),
{
    if chunks.len() == 0 {
        assert(chunks.push(c)[0] == c);
        assert(chunks.push(c).drop_first() =~= Seq::<Seq<u8>>::empty());
        assert(concat_bytes(Seq::<Seq<u8>>::empty()) == Seq::<u8>::empty());
        assert(concat_bytes(chunks.push(c)) =~= concat_bytes(chunks) + c);
    } else {
        assert(chunks.push(c).drop_first() =~= chunks.drop_first().push(c));
        lemma_concat_bytes_push(chunks.drop_first(), c);
        assert(concat_bytes(chunks.push(c)) =~= concat_bytes(chunks) + c);
    }
}

/// Appends one received chunk to the assembled stream.
pub fn append_chunk(stream: &mut Vec<u8>, chunk: &Vec<u8>)
    ensures
        final(stream)@ == old(stream)@ + chunk@,
{
    let n: usize = chunk.len();
    for i in 0..n
        invariant
            n == chunk.len(),
            stream@ == old(stream)@ + chunk@.take(i as int),
    {
        stream.push(chunk[i]);
        proof {
            assert(old(stream)@ + chunk@.take(i as int) + seq![chunk@[i as int]] =~= old(
                stream,
            )@ + chunk@.take(i + 1));
        }
    }
    proof {
        assert(old(stream)@ + chunk@.take(n as int) =~= old(stream)@ + chunk@);
    }
}

/// Reassembles the byte stream from the chunks as delivered, in order:
/// the client-side half of the output round trip.
pub fn assemble(chunks: &Vec<Vec<u8>>) -> (stream: Vec<u8>)
    ensures
        stream@ == concat_bytes(chunks.deep_view()),
{
    let mut stream: Vec<u8> = Vec::new();
    let n: usize = chunks.len();
    for i in 0..n
        invariant
            n == chunks.len(),
            chunks.deep_view().len() == n,
            stream@ == concat_bytes(chunks.deep_view().take(i as int)),
    {
        proof {
            assert(chunks.deep_view()[i as int] == chunks[i as int]@);
            assert(chunks.deep_view().take(i + 1) =~= chunks.deep_view().take(i as int).push(
                chunks.deep_view()[i as int],
            ));
            lemma_concat_bytes_push(chunks.deep_view().take(i as int), chunks.deep_view()[i as int]);
        }
        append_chunk(&mut stream, &chunks[i]);
    }
    proof {
        assert(chunks.deep_view().take(n as int) =~= chunks.deep_view());
    }
    stream
}

} // verus!

use vstd::prelude::*;

use itertools::Itertools;

verus! {

/// `s` cut into consecutive pieces of `n` elements, the last one shorter when
/// the length of `s` is not a multiple of `n`. An empty `s` has no pieces.
pub open spec fn chunks_of(s: Seq<u8>, n: nat) -> Seq<Seq<u8>>
    decreases s.len(),
{
    if n == 0 || s.len() == 0 {
        seq![]
    } else if s.len() <= n {
        seq![s]
    } else {
        seq![s.take(n as int)] + chunks_of(s.skip(n as int), n)
    }
}

/// All pieces joined back together, in order.
pub open spec fn join_chunks(chunks: Seq<Seq<u8>>) -> Seq<u8>
    decreases chunks.len(),
{
    if chunks.len() == 0 {
        seq![]
    } else {
        chunks[0] + join_chunks(chunks.drop_first())
    }
}

/// Number of pieces of at most `n` elements that `len` elements need.
pub open spec fn chunk_count(len: nat, n: nat) -> nat {
    if n == 0 {
        0
    } else if len % n == 0 {
        len / n
    } else {
        len / n + 1
    }
}

/// Joining the pieces gives back the cut sequence.
pub proof fn lemma_join_chunks_of(s: Seq<u8>, n: nat)
    requires
        n > 0,
    ensures
        join_chunks(chunks_of(s, n)) == s,
    decreases s.len(),
{
    if s.len() == 0 {
        assert(join_chunks(chunks_of(s, n)) =~= s);
    } else if s.len() <= n {
        let c = chunks_of(s, n);
        assert(c == seq![s]);
        assert(c.drop_first() =~= Seq::<Seq<u8>>::empty());
        assert(join_chunks(c.drop_first()) == Seq::<u8>::empty());
        assert(join_chunks(c) =~= s);
    } else {
        lemma_join_chunks_of(s.skip(n as int), n);
        let c = chunks_of(s, n);
        assert(c.drop_first() =~= chunks_of(s.skip(n as int), n));
        assert(s.take(n as int) + s.skip(n as int) =~= s);
    }
}

/// Every piece holds between one and `n` elements, all but the last exactly `n`,
/// and there are as many pieces as `chunk_count` says.
pub proof fn lemma_chunks_of_shape(s: Seq<u8>, n: nat)
    requires
        n > 0,
    ensures
        chunks_of(s, n).len() == chunk_count(s.len(), n),
        forall|i: int|
            0 <= i < chunks_of(s, n).len() ==> 0 < #[trigger] chunks_of(s, n)[i].len() <= n,
        forall|i: int|
            0 <= i < chunks_of(s, n).len() - 1 ==> #[trigger] chunks_of(s, n)[i].len() == n,
    decreases s.len(),
{
    if s.len() == 0 {
    } else if s.len() <= n {
        if s.len() == n {
            assert(s.len() / n == 1) by (nonlinear_arith)
                requires
                    s.len() == n,
                    n > 0,
            ;
            assert(s.len() % n == 0) by (nonlinear_arith)
                requires
                    s.len() == n,
                    n > 0,
            ;
        } else {
            assert(s.len() / n == 0) by (nonlinear_arith)
                requires
                    s.len() < n,
                    n > 0,
            ;
            assert(s.len() % n != 0) by (nonlinear_arith)
                requires
                    0 < s.len() < n,
                    n > 0,
            ;
        }
    } else {
        let rest = s.skip(n as int);
        lemma_chunks_of_shape(rest, n);
        let len = s.len() as int;
        let m = n as int;
        assert(rest.len() == len - m);
        assert(len / m == (len - m) / m + 1 && len % m == (len - m) % m) by (nonlinear_arith)
            requires
                len > m,
                m > 0,
        ;
        let c = chunks_of(s, n);
        assert forall|i: int| 0 <= i < c.len() implies 0 < #[trigger] c[i].len() <= n by {
            if i > 0 {
                assert(c[i] == chunks_of(rest, n)[i - 1]);
            }
        }
        assert forall|i: int| 0 <= i < c.len() - 1 implies #[trigger] c[i].len() == n by {
            if i > 0 {
                assert(c[i] == chunks_of(rest, n)[i - 1]);
            }
        }
    }
}

/// Calls itertools' `chunks(size)` on the bytes of `bytes` and collects every
/// chunk into a `Vec`.
///
/// Claimed, as itertools documents it: the chunks are consecutive runs of `size`
/// elements, the last one shorter if there are not enough elements; an empty
/// input has no chunks. `size` must not be 0, since itertools panics on it.
#[verifier::external_body]
pub(crate) fn itertools_chunks(bytes: Vec<u8>, size: usize) -> (chunks: Vec<Vec<u8>>)
    requires
        size > 0,
    ensures
        chunks@.map_values(|c: Vec<u8>| c@) == chunks_of(bytes@, size as nat),
{
    let chunked = bytes.into_iter().chunks(size);
    chunked.into_iter().map(|chunk| chunk.collect::<Vec<u8>>()).collect()
}

} // verus!

//! Fair dice and a fair coin out of 64 random bytes.
//!
//! A byte of 252 or more is thrown away, so that the 252 bytes that remain
//! fall on the six faces in equal shares. The low bit of a byte is a fair coin
//! as it stands.
use crate::state::CoinSide;
use vstd::prelude::*;

verus! {

/// Bytes below this bound are used for dice: the largest multiple of six that
/// a byte can count to.
pub const D6_BOUND: u8 = 252;

/// Whether a byte is used for a die.
pub open spec fn accepted(b: u8) -> bool {
    b < D6_BOUND
}

/// The bytes that are used for dice, in their order.
pub open spec fn accepted_bytes(bytes: Seq<u8>) -> Seq<u8> {
    bytes.filter(|b: u8| accepted(b))
}

/// The face that a byte shows.
pub open spec fn face(b: u8) -> u8 {
    (b % 6 + 1) as u8
}

/// The `n`-th die thrown from `bytes`: the face of the `n`-th byte that is not
/// thrown away. When too few are left, the first byte decides.
pub open spec fn die(bytes: Seq<u8>, n: int) -> u8 {
    if n < accepted_bytes(bytes).len() {
        face(accepted_bytes(bytes)[n])
    } else {
        face(bytes[0])
    }
}

/// The side that the coin shows.
pub open spec fn coin(bytes: Seq<u8>) -> CoinSide {
    if bytes[0] % 2 == 0 {
        CoinSide::Heads
    } else {
        CoinSide::Tails
    }
}

/// The index of the first accepted byte at `from` or after it; the length of
/// `bytes` when there is none.
pub open spec fn next_accepted(bytes: Seq<u8>, from: int) -> int
    decreases bytes.len() - from,
{
    if from >= bytes.len() {
        bytes.len() as int
    } else if accepted(bytes[from]) {
        from
    } else {
        next_accepted(bytes, from + 1)
    }
}

/// How the accepted bytes from a position on relate to the next accepted byte.
pub proof fn lemma_next_accepted(bytes: Seq<u8>, from: int)
    requires
        0 <= from <= bytes.len(),
    ensures
        from <= next_accepted(bytes, from) <= bytes.len(),
        next_accepted(bytes, from) == bytes.len() ==> accepted_bytes(bytes.skip(from)).len() == 0,
        next_accepted(bytes, from) < bytes.len() ==> {
            let i = next_accepted(bytes, from);
            &&& accepted(bytes[i])
            &&& accepted_bytes(bytes.skip(from)) == seq![bytes[i]] + accepted_bytes(
                bytes.skip(i + 1),
            )
        },
    decreases bytes.len() - from,
{
    let keep = |b: u8| accepted(b);
    if from == bytes.len() {
        assert(bytes.skip(from) =~= Seq::<u8>::empty());
        assert(Seq::<u8>::empty().filter(keep).len() == 0) by {
            reveal(Seq::filter);
        }
    } else {
        let one = seq![bytes[from]];
        assert(bytes.skip(from) =~= one + bytes.skip(from + 1));
        Seq::filter_distributes_over_add(one, bytes.skip(from + 1), keep);
        assert(one.filter(keep) == if accepted(bytes[from]) {
            one
        } else {
            Seq::empty()
        }) by {
            reveal(Seq::filter);
            assert(one.drop_last() =~= Seq::empty());
            assert(one.drop_last().filter(keep) =~= Seq::empty());
        }
        if !accepted(bytes[from]) {
            lemma_next_accepted(bytes, from + 1);
            assert(accepted_bytes(bytes.skip(from)) =~= accepted_bytes(bytes.skip(from + 1)));
        }
    }
}

/// The next die (1 to 6): the face of the first accepted byte at the cursor or
/// after it, which the cursor then passes. When none is left the first byte of
/// the buffer decides.
pub fn next_d6(bytes: &[u8; 64], cursor: &mut usize) -> (r: u8)
    ensures
        1 <= r <= 6,
        next_accepted(bytes@, *old(cursor) as int) < 64 ==> {
            &&& r == face(bytes@[next_accepted(bytes@, *old(cursor) as int)])
            &&& *final(cursor) == next_accepted(bytes@, *old(cursor) as int) + 1
        },
        next_accepted(bytes@, *old(cursor) as int) >= 64 ==> {
            &&& r == face(bytes@[0])
            &&& *final(cursor) == if *old(cursor) < 64 {
                64
            } else {
                *old(cursor)
            }
        },
{
    while *cursor < 64
        invariant
            *old(cursor) <= *cursor,
            *cursor <= 64 || *cursor == *old(cursor),
            next_accepted(bytes@, *old(cursor) as int) == next_accepted(bytes@, *cursor as int),
        decreases 64 - *cursor,
    {
        let b: u8 = bytes[*cursor];
        *cursor += 1;
        if b < D6_BOUND {
            return b % 6 + 1;
        }
    }
    bytes[0] % 6 + 1
}

/// The coin: heads when the low bit of the first byte is clear.
pub fn next_coin(bytes: &[u8; 64]) -> (r: CoinSide)
    ensures
        r == coin(bytes@),
{
    let b: u8 = bytes[0];
    assert(b & 1 == b % 2) by (bit_vector);
    if b & 1 == 0 {
        CoinSide::Heads
    } else {
        CoinSide::Tails
    }
}

/// The four dice of a duel: two for the creator, then two for the opponent.
pub fn roll_dice(bytes: &[u8; 64]) -> (r: ([u8; 2], [u8; 2]))
    ensures
        r.0 == [die(bytes@, 0), die(bytes@, 1)],
        r.1 == [die(bytes@, 2), die(bytes@, 3)],
{
    let mut cur: usize = 0;
    proof {
        assert(bytes@.skip(0) =~= bytes@);
        lemma_next_accepted(bytes@, cur as int);
    }
    let a: u8 = next_d6(bytes, &mut cur);
    proof {
        lemma_next_accepted(bytes@, cur as int);
    }
    let b: u8 = next_d6(bytes, &mut cur);
    proof {
        lemma_next_accepted(bytes@, cur as int);
    }
    let c: u8 = next_d6(bytes, &mut cur);
    proof {
        lemma_next_accepted(bytes@, cur as int);
    }
    let d: u8 = next_d6(bytes, &mut cur);
    ([a, b], [c, d])
}

} // verus!

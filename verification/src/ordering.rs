//! Sequence numbers for consensus instances and the other sub-protocols,
//! with wrap-around arithmetic and the thresholds that bound the
//! out-of-order message window.

use vstd::prelude::*;

verus! {

/// A value that is one of two things: an `L` or an `R`.
///
/// `SeqNo::index` uses it to report either the reason a sequence number
/// falls outside the ordering window, or the slot it indexes.
#[derive(Debug, Clone, Copy, PartialEq, Eq, Structural)]
pub enum Either<L, R> {
    Left(L),
    Right(R),
}

/// Why a sequence number cannot index the ordering window.
#[derive(Debug, Clone, Copy, PartialEq, Eq, Structural)]
pub enum InvalidSeqNo {
    /// The sequence number belongs to an older instance.
    Small,
    /// The sequence number lies too far in the future, possibly sent
    /// by a malicious node.
    Big,
}

/// Largest raw difference between two sequence numbers that is taken at
/// face value; anything beyond it is treated as wrap-around.
pub const OVERFLOW_THRES_POS: i64 = 10000;

/// Messages indexing further than this many instances ahead of the
/// current one are dropped; equals `PERIOD + PERIOD / 2`.
pub const DROP_SEQNO_THRES: i64 = 1500;

/// Represents a sequence number attributed to a client request
/// during a consensus instance.
///
/// The number is signed-cyclic: `next` wraps from `i32::MAX` back to `0`,
/// and distances are computed with a wrap-around correction.
#[derive(Debug, Copy, Clone, Eq, PartialEq, Structural, Hash)]
pub struct SeqNo(pub i32);

/// The value `x` wrapped into the range of an `i32`, for `x` within one
/// wrap of that range.
pub open spec fn spec_wrap_i32(x: int) -> int {
    if x < -0x8000_0000 {
        x + 0x1_0000_0000
    } else if x > 0x7fff_ffff {
        x - 0x1_0000_0000
    } else {
        x
    }
}

/// The distance from `a` to `b` in sequence space, as the `TboQueue`
/// index rules define it: the difference wraps as 32-bit subtraction
/// does, differences beyond `OVERFLOW_THRES_POS` in magnitude are
/// corrected by `i32::MAX + 1` to account for wrap-around; negative
/// corrected distances are `Small`, distances past `DROP_SEQNO_THRES`
/// are `Big`.
pub open spec fn spec_index_of(a: int, b: int) -> Either<InvalidSeqNo, int> {
    let diff = spec_wrap_i32(a - b);
    let corrected = if diff > OVERFLOW_THRES_POS {
        diff - 0x8000_0000
    } else if diff < -OVERFLOW_THRES_POS {
        diff + 0x8000_0000
    } else {
        diff
    };
    if corrected < 0 {
        Either::Left(InvalidSeqNo::Small)
    } else if corrected > DROP_SEQNO_THRES {
        Either::Left(InvalidSeqNo::Big)
    } else {
        Either::Right(corrected)
    }
}

impl SeqNo {
    /// The sequence number following this one, in specification form.
    pub open spec fn spec_next(self) -> SeqNo {
        if self.0 == i32::MAX {
            SeqNo(0)
        } else {
            SeqNo((self.0 + 1) as i32)
        }
    }

    /// Returns the following sequence number, wrapping from
    /// `i32::MAX` back to `0`.
    pub fn next(self) -> (r: SeqNo)
        ensures
            r == self.spec_next(),
    {
        if self.0 == i32::MAX {
            SeqNo(0)
        } else {
            SeqNo(self.0 + 1)
        }
    }

    /// Return an appropriate value to index the `TboQueue`: the distance
    /// from `self` to `other` in sequence space, or the reason `self`
    /// falls outside the window anchored at `other`.
    pub fn index(self, other: SeqNo) -> (r: Either<InvalidSeqNo, usize>)
        ensures
            match r {
                Either::Right(i) => spec_index_of(self.0 as int, other.0 as int)
                    == Either::<InvalidSeqNo, int>::Right(i as int),
                Either::Left(e) => spec_index_of(self.0 as int, other.0 as int)
                    == Either::<InvalidSeqNo, int>::Left(e),
            },
    {
        let a: i64 = self.0 as i64;
        let b: i64 = other.0 as i64;
        let raw: i64 = a - b;
        let diff: i64 = if raw < -0x8000_0000i64 {
            raw + 0x1_0000_0000i64
        } else if raw > 0x7fff_ffffi64 {
            raw - 0x1_0000_0000i64
        } else {
            raw
        };
        let corrected: i64 = if diff > OVERFLOW_THRES_POS {
            diff - 0x8000_0000
        } else if diff < -OVERFLOW_THRES_POS {
            diff + 0x8000_0000
        } else {
            diff
        };
        if corrected < 0 {
            Either::Left(InvalidSeqNo::Small)
        } else if corrected > DROP_SEQNO_THRES {
            Either::Left(InvalidSeqNo::Big)
        } else {
            Either::Right(corrected as usize)
        }
    }
}

impl PartialOrd for SeqNo {
    /// Orders two sequence numbers by their wrap-corrected distance:
    /// equal at distance zero, less when this one lies in the window
    /// behind `other`, and greater otherwise.
    fn partial_cmp(&self, other: &SeqNo) -> (r: Option<core::cmp::Ordering>) {
        Some(
            match self.index(*other) {
                Either::Right(i) => if i == 0 {
                    core::cmp::Ordering::Equal
                } else {
                    core::cmp::Ordering::Greater
                },
                Either::Left(InvalidSeqNo::Small) => core::cmp::Ordering::Less,
                Either::Left(InvalidSeqNo::Big) => core::cmp::Ordering::Greater,
            },
        )
    }
}

impl vstd::std_specs::cmp::PartialOrdSpecImpl for SeqNo {
    open spec fn obeys_partial_cmp_spec() -> bool {
        true
    }

    open spec fn partial_cmp_spec(&self, other: &SeqNo) -> Option<core::cmp::Ordering> {
        Some(
            match spec_index_of(self.0 as int, other.0 as int) {
                Either::Right(i) => if i == 0 {
                    core::cmp::Ordering::Equal
                } else {
                    core::cmp::Ordering::Greater
                },
                Either::Left(InvalidSeqNo::Small) => core::cmp::Ordering::Less,
                Either::Left(InvalidSeqNo::Big) => core::cmp::Ordering::Greater,
            },
        )
    }
}

impl From<u32> for SeqNo {
    /// Reinterprets the 32 bits of `sequence_number` as a signed
    /// sequence number.
    fn from(sequence_number: u32) -> (r: SeqNo) {
        SeqNo(sequence_number as i32)
    }
}

impl vstd::std_specs::convert::FromSpecImpl<u32> for SeqNo {
    open spec fn obeys_from_spec() -> bool {
        true
    }

    open spec fn from_spec(v: u32) -> SeqNo {
        SeqNo(v as i32)
    }
}

impl From<SeqNo> for u32 {
    /// Reinterprets the sequence number as its 32 raw bits.
    fn from(sequence_number: SeqNo) -> (r: u32) {
        sequence_number.0 as u32
    }
}

impl vstd::std_specs::convert::FromSpecImpl<SeqNo> for u32 {
    open spec fn obeys_from_spec() -> bool {
        true
    }

    open spec fn from_spec(v: SeqNo) -> u32 {
        v.0 as u32
    }
}

/// Applies `spec_next` to `a` a total of `n` times.
pub open spec fn spec_next_n(a: SeqNo, n: nat) -> SeqNo
    decreases n,
{
    if n == 0 {
        a
    } else {
        spec_next_n(a, (n - 1) as nat).spec_next()
    }
}

/// A sequence number is at distance zero from itself.
pub proof fn lemma_seqno_index_self(a: SeqNo)
    ensures
        spec_index_of(a.0 as int, a.0 as int) == Either::<InvalidSeqNo, int>::Right(0),
{
}

/// The successor of a sequence number is at distance one from it,
/// also across the wrap at `i32::MAX`.
pub proof fn lemma_seqno_next_index(a: SeqNo)
    ensures
        spec_index_of(a.spec_next().0 as int, a.0 as int)
            == Either::<InvalidSeqNo, int>::Right(1),
{
}

/// Starting from zero, `n` applications of `next` reach the sequence
/// number `n`, for every `n` up to `i32::MAX`.
pub proof fn lemma_seqno_next_n_from_zero(n: nat)
    requires
        n <= i32::MAX,
    ensures
        spec_next_n(SeqNo(0), n).0 == n,
    decreases n,
{
    if n > 0 {
        lemma_seqno_next_n_from_zero((n - 1) as nat);
    }
}

/// The sequence numbers cycle: one full revolution of `next`, that is
/// `i32::MAX + 1` applications, returns to zero.
pub proof fn lemma_seqno_cycle()
    ensures
        spec_next_n(SeqNo(0), i32::MAX as nat + 1) == SeqNo(0),
{
    lemma_seqno_next_n_from_zero(i32::MAX as nat);
}

/// Wrap correction: when `a` is semantically just ahead of `b` across
/// the wrap (the raw difference is hugely negative), the index is the
/// small positive forward distance.
pub proof fn lemma_seqno_wrap_ahead(a: SeqNo, b: SeqNo)
    requires
        0 <= a.0,
        0 <= b.0,
        a.0 + 0x8000_0000 - b.0 <= DROP_SEQNO_THRES,
    ensures
        spec_index_of(a.0 as int, b.0 as int)
            == Either::<InvalidSeqNo, int>::Right(a.0 + 0x8000_0000 - b.0),
{
}

} // verus!

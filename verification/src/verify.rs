//! Comparing what the flash holds against what was programmed.

use vstd::prelude::*;

verus! {

/// Largest number of bytes one verification reads back.
pub const READBACK_CAPACITY: u32 = 4096;

/// How a verification ended.
#[derive(Clone, Copy, Debug, PartialEq, Eq, Structural)]
pub enum VerifyOutcome {
    /// Every byte matched. `end` is the host address just past the region.
    Success { end: u32 },
    /// The byte at host address `address` is the first that differs:
    /// `expected` was programmed, `found` is what the flash holds.
    VerifyMismatch { address: u32, expected: u8, found: u8 },
    /// The region is larger than [`READBACK_CAPACITY`]; nothing was read.
    SizeTooLarge,
    /// The driver could not read the region.
    ReadFailed,
}

/// The two sequences hold the same bytes at every offset below `n`.
pub open spec fn agree(programmed: Seq<u8>, stored: Seq<u8>, n: int) -> bool {
    forall|j: int| 0 <= j < n ==> programmed[j] == stored[j]
}

/// `k` is the first offset at which `stored` differs from `programmed`.
pub open spec fn first_difference(programmed: Seq<u8>, stored: Seq<u8>, k: int) -> bool {
    &&& 0 <= k < programmed.len()
    &&& programmed[k] != stored[k]
    &&& agree(programmed, stored, k)
}

/// The outcome of comparing `programmed`, which starts at host address `adr`,
/// with the bytes `stored` that the flash holds there.
///
/// Where the two differ, the outcome names the first differing byte;
/// otherwise it names the address just past the region.
pub open spec fn comparison(adr: u32, programmed: Seq<u8>, stored: Seq<u8>) -> VerifyOutcome {
    if exists|k: int| first_difference(programmed, stored, k) {
        let k = choose|k: int| first_difference(programmed, stored, k);
        VerifyOutcome::VerifyMismatch {
            address: (adr + k) as u32,
            expected: programmed[k],
            found: stored[k],
        }
    } else {
        VerifyOutcome::Success { end: (adr + programmed.len()) as u32 }
    }
}

/// `outcome` is what comparing `programmed`, which starts at host address
/// `adr`, with `stored` gives: a success that names the address just past the
/// region, where the two agree on all of it, or a mismatch that names the
/// first byte that differs, with the programmed and the stored value of that
/// byte.
///
/// Says the same as [`comparison`], from the outcome's side.
pub open spec fn compared(
    outcome: VerifyOutcome,
    adr: u32,
    programmed: Seq<u8>,
    stored: Seq<u8>,
) -> bool {
    match outcome {
        VerifyOutcome::Success { end } => {
            &&& end == adr + programmed.len()
            &&& agree(programmed, stored, programmed.len() as int)
        },
        VerifyOutcome::VerifyMismatch { address, expected, found } => {
            &&& first_difference(programmed, stored, address - adr)
            &&& expected == programmed[address - adr]
            &&& found == stored[address - adr]
        },
        _ => false,
    }
}

/// The outcome of verifying the region that starts at host address `adr` and
/// holds `programmed`, given the driver's answer to the read: its result
/// `code` and the bytes `stored` it read.
///
/// A region over [`READBACK_CAPACITY`] is refused before anything is read; a
/// nonzero `code` is a failed read; otherwise the bytes are compared.
pub open spec fn verification(
    adr: u32,
    programmed: Seq<u8>,
    code: i32,
    stored: Seq<u8>,
) -> VerifyOutcome {
    if programmed.len() > READBACK_CAPACITY {
        VerifyOutcome::SizeTooLarge
    } else if code != 0 {
        VerifyOutcome::ReadFailed
    } else {
        comparison(adr, programmed, stored)
    }
}

/// There is at most one first difference.
pub proof fn lemma_first_difference_unique(
    programmed: Seq<u8>,
    stored: Seq<u8>,
    k1: int,
    k2: int,
)
    requires
        first_difference(programmed, stored, k1),
        first_difference(programmed, stored, k2),
    ensures
        k1 == k2,
{
    if k1 < k2 {
        assert(programmed[k1] == stored[k1]);
    } else if k2 < k1 {
        assert(programmed[k2] == stored[k2]);
    }
}

/// Sequences that agree on the whole region compare as a success that names
/// the address just past the region.
pub proof fn lemma_comparison_of_equal(adr: u32, programmed: Seq<u8>, stored: Seq<u8>)
    requires
        agree(programmed, stored, programmed.len() as int),
    ensures
        comparison(adr, programmed, stored) == (VerifyOutcome::Success {
            end: (adr + programmed.len()) as u32,
        }),
{
    assert forall|k: int| !first_difference(programmed, stored, k) by {
        if 0 <= k < programmed.len() {
            assert(programmed[k] == stored[k]);
        }
    }
}

/// Sequences whose first difference is at offset `k` compare as a mismatch at
/// `adr + k` that reports the programmed byte and the stored byte at `k`.
pub proof fn lemma_comparison_at_first_difference(
    adr: u32,
    programmed: Seq<u8>,
    stored: Seq<u8>,
    k: int,
)
    requires
        first_difference(programmed, stored, k),
    ensures
        comparison(adr, programmed, stored) == (VerifyOutcome::VerifyMismatch {
            address: (adr + k) as u32,
            expected: programmed[k],
            found: stored[k],
        }),
{
    let chosen = choose|k: int| first_difference(programmed, stored, k);
    lemma_first_difference_unique(programmed, stored, k, chosen);
}

/// The two ways of stating a comparison say the same, for a region that ends
/// inside the address space: an outcome is what [`compared`] describes
/// exactly when it is the one [`comparison`] gives.
pub proof fn lemma_compared_is_comparison(
    outcome: VerifyOutcome,
    adr: u32,
    programmed: Seq<u8>,
    stored: Seq<u8>,
)
    requires
        adr + programmed.len() <= u32::MAX,
    ensures
        compared(outcome, adr, programmed, stored) <==> outcome == comparison(
            adr,
            programmed,
            stored,
        ),
{
    if compared(outcome, adr, programmed, stored) {
        match outcome {
            VerifyOutcome::Success { end } => {
                lemma_comparison_of_equal(adr, programmed, stored);
            },
            VerifyOutcome::VerifyMismatch { address, expected, found } => {
                lemma_comparison_at_first_difference(adr, programmed, stored, address - adr);
            },
            _ => {},
        }
    }
    if outcome == comparison(adr, programmed, stored) {
        if exists|k: int| first_difference(programmed, stored, k) {
            let k = choose|k: int| first_difference(programmed, stored, k);
            assert(0 <= k < programmed.len());
        } else {
            assert forall|j: int| 0 <= j < programmed.len() implies programmed[j]
                == stored[j] by {
                lemma_no_difference_agrees(programmed, stored, j);
            }
        }
    }
}

/// Compares `programmed`, which starts at host address `adr`, byte by byte in
/// ascending order with what the flash holds, and stops at the first byte
/// that differs.
pub fn compare(adr: u32, programmed: &[u8], stored: &[u8]) -> (outcome: VerifyOutcome)
    requires
        programmed@.len() <= stored@.len(),
        adr + programmed@.len() <= u32::MAX,
    ensures
        outcome == comparison(adr, programmed@, stored@),
        compared(outcome, adr, programmed@, stored@),
{
    let n: usize = programmed.len();
    let mut i: usize = 0;
    while i < n
        invariant
            n == programmed@.len(),
            n <= stored@.len(),
            adr + n <= u32::MAX,
            i <= n,
            agree(programmed@, stored@, i as int),
        decreases n - i,
    {
        if programmed[i] != stored[i] {
            proof {
                lemma_comparison_at_first_difference(adr, programmed@, stored@, i as int);
            }
            return VerifyOutcome::VerifyMismatch {
                address: adr + i as u32,
                expected: programmed[i],
                found: stored[i],
            };
        }
        i = i + 1;
    }
    proof {
        lemma_comparison_of_equal(adr, programmed@, stored@);
    }
    VerifyOutcome::Success { end: adr + n as u32 }
}

impl VerifyOutcome {
    /// The outcome as one number, for hosts that know only the numeric
    /// convention: the address just past the region on success, the address
    /// of the first differing byte on a mismatch, zero for a region that is
    /// too large, one for a failed read.
    ///
    /// The last two cannot be told from a real address; callers that can
    /// should look at the outcome itself.
    pub open spec fn numeric(self) -> u32 {
        match self {
            VerifyOutcome::Success { end } => end,
            VerifyOutcome::VerifyMismatch { address, .. } => address,
            VerifyOutcome::SizeTooLarge => 0,
            VerifyOutcome::ReadFailed => 1,
        }
    }

    /// What the "expected" output holds after the report, where it held
    /// `before`: the programmed byte on a mismatch, else what it held.
    pub open spec fn expected_after(self, before: i16) -> i16 {
        match self {
            VerifyOutcome::VerifyMismatch { expected, .. } => expected as i16,
            _ => before,
        }
    }

    /// What the "found" output holds after the report, where it held
    /// `before`: the stored byte on a mismatch, else what it held.
    pub open spec fn found_after(self, before: i16) -> i16 {
        match self {
            VerifyOutcome::VerifyMismatch { found, .. } => found as i16,
            _ => before,
        }
    }

    /// Reports the outcome in the numeric convention: returns
    /// [`numeric`](Self::numeric) and, on a mismatch only, writes the two
    /// differing bytes to `expected` and `found`.
    pub fn report(&self, expected: &mut i16, found: &mut i16) -> (result: u32)
        ensures
            result == self.numeric(),
            *final(expected) == self.expected_after(*old(expected)),
            *final(found) == self.found_after(*old(found)),
    {
        match *self {
            VerifyOutcome::Success { end } => end,
            VerifyOutcome::VerifyMismatch { address, expected: programmed, found: stored } => {
                *expected = programmed as i16;
                *found = stored as i16;
                address
            },
            VerifyOutcome::SizeTooLarge => 0,
            VerifyOutcome::ReadFailed => 1,
        }
    }
}

/// Verifying a region within capacity against flash that holds the same bytes
/// succeeds: the outcome names the address just past the region, the numeric
/// report is that address, and the report leaves both outputs as they were.
pub proof fn lemma_verify_identical(
    adr: u32,
    programmed: Seq<u8>,
    stored: Seq<u8>,
    expected_before: i16,
    found_before: i16,
)
    requires
        programmed.len() <= READBACK_CAPACITY,
        adr + programmed.len() <= u32::MAX,
        agree(programmed, stored, programmed.len() as int),
    ensures
        verification(adr, programmed, 0, stored) == (VerifyOutcome::Success {
            end: (adr + programmed.len()) as u32,
        }),
        verification(adr, programmed, 0, stored).numeric() == adr + programmed.len(),
        verification(adr, programmed, 0, stored).expected_after(expected_before)
            == expected_before,
        verification(adr, programmed, 0, stored).found_after(found_before) == found_before,
{
    lemma_comparison_of_equal(adr, programmed, stored);
}

/// Verifying a region within capacity against flash that first differs at
/// offset `k` gives a mismatch at `adr + k`: the numeric report is that
/// address, and the report writes the programmed byte at `k` to "expected"
/// and the stored byte at `k` to "found".
pub proof fn lemma_verify_first_difference(
    adr: u32,
    programmed: Seq<u8>,
    stored: Seq<u8>,
    k: int,
    expected_before: i16,
    found_before: i16,
)
    requires
        programmed.len() <= READBACK_CAPACITY,
        adr + programmed.len() <= u32::MAX,
        first_difference(programmed, stored, k),
    ensures
        verification(adr, programmed, 0, stored) == (VerifyOutcome::VerifyMismatch {
            address: (adr + k) as u32,
            expected: programmed[k],
            found: stored[k],
        }),
        verification(adr, programmed, 0, stored).numeric() == adr + k,
        verification(adr, programmed, 0, stored).expected_after(expected_before)
            == programmed[k],
        verification(adr, programmed, 0, stored).found_after(found_before) == stored[k],
{
    lemma_comparison_at_first_difference(adr, programmed, stored, k);
}

/// Nothing past the first difference matters: flash contents that agree with
/// `stored` up to and including the first differing offset `k` verify to the
/// same outcome, whatever they hold after it.
pub proof fn lemma_verify_stops_at_first_difference(
    adr: u32,
    programmed: Seq<u8>,
    stored: Seq<u8>,
    other: Seq<u8>,
    k: int,
)
    requires
        first_difference(programmed, stored, k),
        forall|j: int| 0 <= j <= k ==> other[j] == stored[j],
    ensures
        verification(adr, programmed, 0, other) == verification(adr, programmed, 0, stored),
{
    assert(first_difference(programmed, other, k));
    lemma_comparison_at_first_difference(adr, programmed, stored, k);
    lemma_comparison_at_first_difference(adr, programmed, other, k);
}

/// Each outcome comes on its own inputs and on no others. In particular a
/// region is reported as too large exactly when it is over capacity,
/// whatever the driver answered, so that outcome cannot be taken for a
/// success, at address zero or anywhere else.
pub proof fn lemma_outcomes_are_told_apart(
    adr: u32,
    programmed: Seq<u8>,
    code: i32,
    stored: Seq<u8>,
)
    ensures
        verification(adr, programmed, code, stored) == VerifyOutcome::SizeTooLarge
            <==> programmed.len() > READBACK_CAPACITY,
        verification(adr, programmed, code, stored) == VerifyOutcome::ReadFailed
            <==> programmed.len() <= READBACK_CAPACITY && code != 0,
        verification(adr, programmed, code, stored) is Success <==> programmed.len()
            <= READBACK_CAPACITY && code == 0 && agree(
            programmed,
            stored,
            programmed.len() as int,
        ),
        verification(adr, programmed, code, stored) is VerifyMismatch <==> programmed.len()
            <= READBACK_CAPACITY && code == 0 && exists|k: int|
            first_difference(programmed, stored, k),
{
    if programmed.len() <= READBACK_CAPACITY && code == 0 {
        if exists|k: int| first_difference(programmed, stored, k) {
            let k = choose|k: int| first_difference(programmed, stored, k);
            assert(programmed[k] != stored[k]);
        } else {
            assert forall|j: int| 0 <= j < programmed.len() implies programmed[j]
                == stored[j] by {
                lemma_no_difference_agrees(programmed, stored, j);
            }
        }
    }
}

/// Where there is no first difference, the sequences agree below every
/// offset of the region.
proof fn lemma_no_difference_agrees(programmed: Seq<u8>, stored: Seq<u8>, n: int)
    requires
        !exists|k: int| first_difference(programmed, stored, k),
        0 <= n < programmed.len(),
    ensures
        agree(programmed, stored, n + 1),
    decreases n,
{
    if n > 0 {
        lemma_no_difference_agrees(programmed, stored, n - 1);
    }
    assert(agree(programmed, stored, n));
    if programmed[n] != stored[n] {
        assert(first_difference(programmed, stored, n));
    }
}

} // verus!

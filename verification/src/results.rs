//! Interpretation of the probe's result buffer.
//!
//! The shaders report through a buffer of 32-bit words: the raygen shader
//! copies the record's user-data words back into words `0..16`, the
//! closest-hit shader writes its sentinel into word 16 when an intersection
//! was accepted, and the intersection shader writes its sentinel into word
//! 17 when it ran.  The checks here decide, word for word, which of the
//! probe's expectations the buffer meets.

use vstd::prelude::*;

verus! {

/// Number of user-data words the raygen shader copies back.
pub const RESULT_DATA_WORDS: usize = 16;

/// Result word the closest-hit shader writes its sentinel into.
pub const CLOSEST_HIT_SLOT: usize = 16;

/// Result word the intersection shader writes its sentinel into.
pub const INTERSECTION_SLOT: usize = 17;

/// Sentinel the intersection shader writes when it runs.
pub const INTERSECTION_SENTINEL: u32 = 12777;

/// Sentinel the closest-hit shader writes when an intersection was accepted.
pub const CLOSEST_HIT_SENTINEL: u32 = 120000;

/// Words of the result buffer the checks read.
pub const MIN_RESULT_WORDS: usize = 18;

/// The first `n` data words hold their own index: the record bytes behind
/// them were read back exactly as written.
pub open spec fn data_words_ok_upto(s: Seq<u32>, n: int) -> bool {
    forall|j: int| 0 <= j < n ==> s[j] == j
}

/// Every raygen data word round-tripped unchanged.
pub open spec fn raygen_data_round_tripped(s: Seq<u32>) -> bool {
    data_words_ok_upto(s, RESULT_DATA_WORDS as int)
}

/// The intersection shader ran: its sentinel is in place.
pub open spec fn intersection_ran(s: Seq<u32>) -> bool {
    s[INTERSECTION_SLOT as int] == INTERSECTION_SENTINEL
}

/// The closest-hit shader ran: its sentinel is in place.
pub open spec fn closest_hit_ran(s: Seq<u32>) -> bool {
    s[CLOSEST_HIT_SLOT as int] == CLOSEST_HIT_SENTINEL
}

/// Everything the probe expects of the result buffer.
pub open spec fn probe_passed(s: Seq<u32>) -> bool {
    &&& s.len() >= MIN_RESULT_WORDS
    &&& raygen_data_round_tripped(s)
    &&& intersection_ran(s)
    &&& closest_hit_ran(s)
}

/// Which expectation a result buffer missed.
#[derive(Clone, Copy, Debug, PartialEq, Eq, Structural)]
pub enum ResultError {
    /// The buffer holds fewer words than the checks read.
    TooFewWords,
    /// Data word `index` did not round-trip: the record bytes were misread.
    DataMismatch { index: usize },
    /// The intersection sentinel is missing: the intersection shader did not run.
    IntersectionMissed,
    /// The closest-hit sentinel is missing: no intersection was accepted.
    ClosestHitMissed,
}

/// The first data word that did not round-trip, if any.
pub fn first_data_mismatch(results: &Vec<u32>) -> (r: Option<usize>)
    requires
        results@.len() >= RESULT_DATA_WORDS,
    ensures
        r matches Some(ix) ==> ix < RESULT_DATA_WORDS && results@[ix as int] != ix
            && data_words_ok_upto(results@, ix as int),
        r is None <==> raygen_data_round_tripped(results@),
{
    let mut i: usize = 0;
    while i < RESULT_DATA_WORDS
        invariant
            results@.len() >= RESULT_DATA_WORDS,
            i <= RESULT_DATA_WORDS,
            data_words_ok_upto(results@, i as int),
        decreases RESULT_DATA_WORDS - i,
    {
        if results[i] != i as u32 {
            proof {
                assert(!raygen_data_round_tripped(results@)) by {
                    assert(results@[i as int] != i);
                }
            }
            return Some(i);
        }
        i = i + 1;
    }
    None
}

/// Checks the result buffer exactly as the probe asserts it, in order:
/// buffer length, the raygen data words, the intersection sentinel, the
/// closest-hit sentinel.  Returns the first expectation missed.
pub fn check_results(results: &Vec<u32>) -> (r: Result<(), ResultError>)
    ensures
        r is Ok <==> probe_passed(results@),
        results@.len() < MIN_RESULT_WORDS <==> r == Err::<(), ResultError>(
            ResultError::TooFewWords,
        ),
        results@.len() >= MIN_RESULT_WORDS && !raygen_data_round_tripped(results@) ==> (r matches
            Err(e) && e matches ResultError::DataMismatch { index } && index < RESULT_DATA_WORDS
            && results@[index as int] != index && data_words_ok_upto(results@, index as int)),
        results@.len() >= MIN_RESULT_WORDS && raygen_data_round_tripped(results@)
            && !intersection_ran(results@) ==> r == Err::<(), ResultError>(
            ResultError::IntersectionMissed,
        ),
        results@.len() >= MIN_RESULT_WORDS && raygen_data_round_tripped(results@)
            && intersection_ran(results@) && !closest_hit_ran(results@) ==> r == Err::<
            (),
            ResultError,
        >(ResultError::ClosestHitMissed),
{
    if results.len() < MIN_RESULT_WORDS {
        return Err(ResultError::TooFewWords);
    }
    match first_data_mismatch(results) {
        Some(index) => Err(ResultError::DataMismatch { index }),
        None => {
            if results[INTERSECTION_SLOT] != INTERSECTION_SENTINEL {
                Err(ResultError::IntersectionMissed)
            } else if results[CLOSEST_HIT_SLOT] != CLOSEST_HIT_SENTINEL {
                Err(ResultError::ClosestHitMissed)
            } else {
                Ok(())
            }
        },
    }
}

/// Pass/fail of each expectation separately, so that a run at an offset
/// under suspicion can be captured rather than merely aborted on.
#[derive(Clone, Copy, Debug, PartialEq, Eq, Structural)]
pub struct ProbeVerdict {
    /// Every raygen data word round-tripped.
    pub data_ok: bool,
    /// The intersection shader's sentinel is present.
    pub intersection_ran: bool,
    /// The closest-hit shader's sentinel is present.
    pub closest_hit_ran: bool,
}

impl ProbeVerdict {
    /// The whole probe passed.
    pub open spec fn all_passed(self) -> bool {
        self.data_ok && self.intersection_ran && self.closest_hit_ran
    }
}

/// Evaluates every expectation of the result buffer independently.
pub fn evaluate_results(results: &Vec<u32>) -> (r: ProbeVerdict)
    requires
        results@.len() >= MIN_RESULT_WORDS,
    ensures
        r.data_ok == raygen_data_round_tripped(results@),
        r.intersection_ran == intersection_ran(results@),
        r.closest_hit_ran == closest_hit_ran(results@),
        r.all_passed() <==> probe_passed(results@),
{
    let data_ok: bool = match first_data_mismatch(results) {
        Some(_) => false,
        None => true,
    };
    let hit_intersection: bool = results[INTERSECTION_SLOT] == INTERSECTION_SENTINEL;
    let hit_closest: bool = results[CLOSEST_HIT_SLOT] == CLOSEST_HIT_SENTINEL;
    ProbeVerdict { data_ok, intersection_ran: hit_intersection, closest_hit_ran: hit_closest }
}

} // verus!

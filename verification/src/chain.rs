//! Decoder resolution chain: an ordered set of fallback strategies that
//! try to open a decode stream from a file's bytes.
//!
//! Each strategy is planned from the leading bytes alone, every attempt
//! reads the file from its own clean position, and the first success
//! wins. The only outside step — whether the decoder accepts a byte
//! stream — enters through one trusted call; which attempt is chosen,
//! and that failure is reported only when every attempt failed, is
//! proved.

use vstd::prelude::*;
use vstd::string::*;
use crate::errors::AppError;
use crate::paths::{extension, lower_chars, spec_extension, to_lowercase, str_eq};

verus! {

/// Fixed text of the aggregated decoder failure.
pub open spec fn all_strategies_failed_text() -> Seq<char> {
    "All decoding strategies failed. The file may be corrupted or use an unsupported MP3 encoding."@
}

/// One fallback strategy of the resolution chain, in the order tried.
#[derive(Debug, Clone, Copy, PartialEq, Eq, Structural)]
pub enum DecodeStrategy {
    /// Standard decode with a small read buffer.
    Standard,
    /// The same decode with a large read-ahead buffer.
    LargeBuffer,
    /// Decode with an even larger buffer, planned only when the leading
    /// bytes carry a frame-sync pattern.
    Validated,
    /// Decode starting at the given byte offset, skipping leading data
    /// that the decoder does not recognize.
    SkipHeader(usize),
}

/// Bytes of the large read-ahead buffer.
pub const LARGE_BUFFER_BYTES: usize = 131072;

/// Bytes of the buffer used after pre-validation.
pub const VALIDATED_BUFFER_BYTES: usize = 262144;

/// Bytes inspected when pre-validating the leading frame-sync pattern.
pub const SYNC_PROBE_BYTES: usize = 10;

/// Bytes scanned for a frame-sync pattern at a later offset.
pub const SCAN_WINDOW_BYTES: usize = 1024;

/// The read buffer capacity a strategy decodes with; the skip strategy
/// uses the small default.
pub fn buffer_capacity(s: DecodeStrategy) -> (r: usize)
    ensures
        r == match s {
            DecodeStrategy::Standard => 8192int,
            DecodeStrategy::LargeBuffer => LARGE_BUFFER_BYTES as int,
            DecodeStrategy::Validated => VALIDATED_BUFFER_BYTES as int,
            DecodeStrategy::SkipHeader(_) => 8192int,
        },
{
    match s {
        DecodeStrategy::Standard => 8192,
        DecodeStrategy::LargeBuffer => LARGE_BUFFER_BYTES,
        DecodeStrategy::Validated => VALIDATED_BUFFER_BYTES,
        DecodeStrategy::SkipHeader(_) => 8192,
    }
}

/// A frame-sync pattern at byte offset `i`: a full first byte and the
/// high three bits of the next one set.
pub open spec fn sync_at(data: Seq<u8>, i: int) -> bool {
    &&& 0 <= i
    &&& i + 2 <= data.len()
    &&& data[i] == 0xFFu8
    &&& data[i + 1] & 0xE0u8 == 0xE0u8
}

/// Whether the bytes carry a frame-sync pattern at offset `i`.
pub fn has_sync_at(data: &Vec<u8>, i: usize) -> (r: bool)
    requires
        i + 2 <= data@.len(),
    ensures
        r == sync_at(data@, i as int),
{
    proof {
        vstd::std_specs::vec::axiom_spec_len(data);
    }
    data[i] == 0xFF && (data[i + 1] & 0xE0) == 0xE0
}

/// The skip-header candidates at offsets `i..SCAN_WINDOW_BYTES - 4`:
/// one strategy for each offset carrying a frame-sync pattern.
pub open spec fn skip_candidates(data: Seq<u8>, i: int) -> Seq<DecodeStrategy>
    decreases SCAN_WINDOW_BYTES - 4 - i,
{
    if i < 0 || i >= SCAN_WINDOW_BYTES - 4 {
        Seq::<DecodeStrategy>::empty()
    } else if sync_at(data, i) {
        seq![DecodeStrategy::SkipHeader(i as usize)] + skip_candidates(data, i + 1)
    } else {
        skip_candidates(data, i + 1)
    }
}

/// The attempts the chain makes for a file with these bytes, in order:
/// the standard decode, the large-buffer decode, the pre-validated
/// decode when the file starts with a frame-sync pattern, then one
/// skip-header attempt per sync candidate in the scan window. The scan
/// needs a full window; the probe needs its few bytes.
pub open spec fn spec_plan(data: Seq<u8>) -> Seq<DecodeStrategy> {
    seq![DecodeStrategy::Standard, DecodeStrategy::LargeBuffer] + (if data.len()
        >= SYNC_PROBE_BYTES && sync_at(data, 0) {
        seq![DecodeStrategy::Validated]
    } else {
        Seq::<DecodeStrategy>::empty()
    }) + (if data.len() >= SCAN_WINDOW_BYTES {
        skip_candidates(data, 0)
    } else {
        Seq::<DecodeStrategy>::empty()
    })
}

/// Plan the chain's attempts for a file whose bytes are `data`.
pub fn plan_decode_attempts(data: &Vec<u8>) -> (plan: Vec<DecodeStrategy>)
    ensures
        plan@ == spec_plan(data@),
{
    let mut plan: Vec<DecodeStrategy> = Vec::new();
    plan.push(DecodeStrategy::Standard);
    plan.push(DecodeStrategy::LargeBuffer);
    if data.len() >= SYNC_PROBE_BYTES && has_sync_at(data, 0) {
        plan.push(DecodeStrategy::Validated);
    }
    if data.len() >= SCAN_WINDOW_BYTES {
        let mut i: usize = 0;
        proof {
            assert(plan@ + skip_candidates(data@, 0) =~= spec_plan(data@));
        }
        while i < SCAN_WINDOW_BYTES - 4
            invariant
                i <= SCAN_WINDOW_BYTES - 4,
                data@.len() >= SCAN_WINDOW_BYTES,
                plan@ + skip_candidates(data@, i as int) =~= spec_plan(data@),
            decreases SCAN_WINDOW_BYTES - 4 - i,
        {
            if has_sync_at(data, i) {
                plan.push(DecodeStrategy::SkipHeader(i));
                proof {
                    assert(seq![DecodeStrategy::SkipHeader(i)] + skip_candidates(data@, i + 1)
                        =~= skip_candidates(data@, i as int));
                    assert(plan@ + skip_candidates(data@, i + 1) =~= spec_plan(data@));
                }
            }
            i = i + 1;
        }
    } else {
        proof {
            assert(plan@ =~= spec_plan(data@));
        }
    }
    plan
}

/// Index of the first successful outcome, if any.
pub open spec fn first_true(outcomes: Seq<bool>) -> Option<int>
    decreases outcomes.len(),
{
    if outcomes.len() == 0 {
        None
    } else if outcomes[0] {
        Some(0int)
    } else {
        match first_true(outcomes.drop_first()) {
            Some(i) => Some(i + 1),
            None => None,
        }
    }
}

/// Law: the first successful outcome is a success, nothing before it
/// is, and when there is none every outcome failed — the chain's
/// first-success-wins rule, and its failure only when no strategy
/// matches.
pub proof fn lemma_first_true_properties(o: Seq<bool>)
    ensures
        match first_true(o) {
            Some(i) => 0 <= i < o.len() && o[i] && (forall|j: int| 0 <= j < i ==> !o[j]),
            None => forall|j: int| 0 <= j < o.len() ==> !o[j],
        },
    decreases o.len(),
{
    if o.len() > 0 && !o[0] {
        lemma_first_true_properties(o.drop_first());
        assert forall|j: int| 1 <= j < o.len() implies o.drop_first()[j - 1] == o[j] by {}
    }
}

proof fn lemma_first_true_at(o: Seq<bool>, i: int)
    requires
        0 <= i < o.len(),
        o[i],
        forall|j: int| 0 <= j < i ==> !o[j],
    ensures
        first_true(o) == Some(i),
    decreases i,
{
    if i > 0 {
        lemma_first_true_at(o.drop_first(), i - 1);
    }
}

proof fn lemma_first_true_none(o: Seq<bool>)
    requires
        forall|j: int| 0 <= j < o.len() ==> !o[j],
    ensures
        first_true(o) is None,
    decreases o.len(),
{
    if o.len() > 0 {
        lemma_first_true_none(o.drop_first());
    }
}

/// Resolve a plan against the outcome of each of its attempts: the
/// first successful attempt wins; none succeeds, none is chosen.
pub fn resolve_with_outcomes(plan: &Vec<DecodeStrategy>, outcomes: &Vec<bool>) -> (r: Option<
    DecodeStrategy,
>)
    requires
        plan@.len() == outcomes@.len(),
    ensures
        match first_true(outcomes@) {
            Some(i) => r == Some(plan@[i]),
            None => r is None,
        },
{
    let mut i: usize = 0;
    while i < outcomes.len()
        invariant
            i <= outcomes@.len(),
            plan@.len() == outcomes@.len(),
            forall|j: int| 0 <= j < i ==> !outcomes@[j],
        decreases outcomes@.len() - i,
    {
        if outcomes[i] {
            proof {
                lemma_first_true_at(outcomes@, i as int);
            }
            return Some(plan[i]);
        }
        i = i + 1;
    }
    proof {
        lemma_first_true_none(outcomes@);
    }
    None
}

/// Whether rodio's decoder opens a stream over these bytes; a function
/// of the bytes alone.
pub uninterp spec fn rodio_accepts(data: Seq<u8>) -> bool;

/// What a strategy's attempt sees: the skip strategy decodes from its
/// offset, every other one from the start of the file.
pub open spec fn strategy_outcome(data: Seq<u8>, s: DecodeStrategy) -> bool {
    match s {
        DecodeStrategy::SkipHeader(i) => rodio_accepts(data.skip(i as int)),
        _ => rodio_accepts(data),
    }
}

/// The outcome of every attempt of a plan, in order.
pub open spec fn spec_outcomes(data: Seq<u8>, plan: Seq<DecodeStrategy>) -> Seq<bool> {
    plan.map_values(|s: DecodeStrategy| strategy_outcome(data, s))
}

/// Relies on rodio's `Decoder::new`: it recognizes and opens a stream,
/// or refuses it, depending on the bytes it reads alone.
#[verifier::external_body]
fn decoder_accepts(data: &Vec<u8>, start: usize) -> (r: bool)
    requires
        start <= data@.len(),
    ensures
        r == rodio_accepts(data@.skip(start as int)),
{
    let cursor = std::io::Cursor::new(data[start..].to_vec());
    rodio::Decoder::new(cursor).is_ok()
}

/// Run one planned attempt over the file's bytes.
fn run_attempt(data: &Vec<u8>, s: DecodeStrategy) -> (r: bool)
    requires
        match s {
            DecodeStrategy::SkipHeader(i) => i + 2 <= data@.len(),
            _ => true,
        },
    ensures
        r == strategy_outcome(data@, s),
{
    match s {
        DecodeStrategy::SkipHeader(i) => decoder_accepts(data, i),
        _ => {
            let r = decoder_accepts(data, 0);
            proof {
                assert(data@.skip(0) =~= data@);
            }
            r
        },
    }
}

/// Every skip candidate lies inside the scan window.
proof fn lemma_skip_candidates_bounded(data: Seq<u8>, i: int)
    ensures
        forall|k: int|
            0 <= k < skip_candidates(data, i).len() ==> (#[trigger] skip_candidates(data, i)[k]
                matches DecodeStrategy::SkipHeader(o) && o + 2 < SCAN_WINDOW_BYTES),
    decreases SCAN_WINDOW_BYTES - 4 - i,
{
    if i < 0 || i >= SCAN_WINDOW_BYTES - 4 {
    } else {
        lemma_skip_candidates_bounded(data, i + 1);
    }
}

/// Every planned skip offset lies inside the data: skip candidates are
/// planned only for files at least one scan window long.
proof fn lemma_plan_bounded(data: Seq<u8>)
    ensures
        forall|k: int|
            0 <= k < spec_plan(data).len() ==> (#[trigger] spec_plan(data)[k] matches
                DecodeStrategy::SkipHeader(o) ==> o + 2 <= data.len()),
{
    lemma_skip_candidates_bounded(data, 0);
}

/// Resolve a decoder for a file with these bytes: try the planned
/// strategies in order and return the first that the decoder accepts;
/// fail with the aggregated message only when every attempt failed.
pub fn create_robust_decoder(data: &Vec<u8>) -> (r: Result<DecodeStrategy, String>)
    ensures
        ({
            let plan = spec_plan(data@);
            let outcomes = spec_outcomes(data@, plan);
            match first_true(outcomes) {
                Some(i) => r == Ok::<DecodeStrategy, String>(plan[i]),
                None => r matches Err(m) && m@ == all_strategies_failed_text(),
            }
        }),
{
    let plan = plan_decode_attempts(data);
    let ghost outcomes = spec_outcomes(data@, plan@);
    proof {
        lemma_plan_bounded(data@);
    }
    let mut i: usize = 0;
    while i < plan.len()
        invariant
            i <= plan@.len(),
            plan@ == spec_plan(data@),
            outcomes == spec_outcomes(data@, plan@),
            forall|k: int|
                0 <= k < plan@.len() ==> (#[trigger] plan@[k] matches DecodeStrategy::SkipHeader(o)
                    ==> o + 2 <= data@.len()),
            forall|j: int| 0 <= j < i ==> !outcomes[j],
        decreases plan@.len() - i,
    {
        let s = plan[i];
        if run_attempt(data, s) {
            proof {
                lemma_first_true_at(outcomes, i as int);
            }
            return Ok(s);
        }
        i = i + 1;
    }
    proof {
        lemma_first_true_none(outcomes);
    }
    Err(
        String::from_str(
            "All decoding strategies failed. The file may be corrupted or use an unsupported MP3 encoding.",
        ),
    )
}

} // verus!

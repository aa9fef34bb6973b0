//! Field selection: which scan-line parity of an interlaced frame the effect
//! samples for a given frame index.

use vstd::prelude::*;

verus! {

/// The scan lines sampled when one frame is converted to planar form:
/// one field parity, both, or an interleaved (field-doubled) layout.
#[derive(Clone, Copy, PartialEq, Eq, Structural, Debug)]
pub enum FieldSpec {
    Upper,
    Lower,
    Both,
    InterleavedUpper,
    InterleavedLower,
}

/// The configured field mode of an effect: fixed parity, progressive,
/// interleaved, or alternating parity from frame to frame.
#[derive(Clone, Copy, PartialEq, Eq, Structural, Debug)]
pub enum FieldMode {
    Alternating,
    Upper,
    Lower,
    Both,
    InterleavedUpper,
    InterleavedLower,
}

/// The field sampled for frame `frame_num` under `mode`: a pure function of
/// the two, so repeated runs over the same counters pick the same fields.
pub open spec fn spec_select(frame_num: nat, mode: FieldMode) -> FieldSpec {
    match mode {
        FieldMode::Alternating => if frame_num % 2 == 0 {
            FieldSpec::Lower
        } else {
            FieldSpec::Upper
        },
        FieldMode::Upper => FieldSpec::Upper,
        FieldMode::Lower => FieldSpec::Lower,
        FieldMode::Both => FieldSpec::Both,
        FieldMode::InterleavedUpper => FieldSpec::InterleavedUpper,
        FieldMode::InterleavedLower => FieldSpec::InterleavedLower,
    }
}

/// Chooses the field to sample for this frame.
pub fn select(frame_num: usize, mode: FieldMode) -> (f: FieldSpec)
    ensures
        f == spec_select(frame_num as nat, mode),
{
    match mode {
        FieldMode::Alternating => if frame_num % 2 == 0 {
            FieldSpec::Lower
        } else {
            FieldSpec::Upper
        },
        FieldMode::Upper => FieldSpec::Upper,
        FieldMode::Lower => FieldSpec::Lower,
        FieldMode::Both => FieldSpec::Both,
        FieldMode::InterleavedUpper => FieldSpec::InterleavedUpper,
        FieldMode::InterleavedLower => FieldSpec::InterleavedLower,
    }
}

/// In alternating mode the selected field differs between consecutive frame
/// indices and repeats with period two.
pub proof fn lemma_alternating_period(k: nat)
    ensures
        spec_select(k, FieldMode::Alternating) != spec_select(k + 1, FieldMode::Alternating),
        spec_select(k, FieldMode::Alternating) == spec_select(k + 2, FieldMode::Alternating),
{
}

} // verus!

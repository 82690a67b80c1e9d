//! Volume levels, held as integer thousandths of full scale so that repeated
//! adjustments never drift.

use vstd::prelude::*;

verus! {

/// Full scale, in thousandths.
pub const VOLUME_MAX: u16 = 1000;

/// One adjustment step (0.01 of full scale), in thousandths.
pub const VOLUME_STEP: u16 = 10;

/// Volume of a fresh session (0.05 of full scale), in thousandths.
pub const DEFAULT_VOLUME: u16 = 50;

/// The level one step up from `v`, held at full scale.
pub open spec fn raised(v: int) -> int {
    if v + VOLUME_STEP > VOLUME_MAX {
        VOLUME_MAX as int
    } else {
        v + VOLUME_STEP
    }
}

/// The level one step down from `v`, held at silence.
pub open spec fn lowered(v: int) -> int {
    if v - VOLUME_STEP < 0 {
        0
    } else {
        v - VOLUME_STEP
    }
}

/// `v` held to the range from silence to full scale.
pub open spec fn clamped(v: int) -> int {
    if v > VOLUME_MAX {
        VOLUME_MAX as int
    } else {
        v
    }
}

/// Raises `v` by one step, never past full scale.
pub fn raise_volume(v: u16) -> (r: u16)
    requires
        v <= VOLUME_MAX,
    ensures
        r == raised(v as int),
        r <= VOLUME_MAX,
{
    if v >= VOLUME_MAX - VOLUME_STEP {
        VOLUME_MAX
    } else {
        v + VOLUME_STEP
    }
}

/// Lowers `v` by one step, never below silence.
pub fn lower_volume(v: u16) -> (r: u16)
    requires
        v <= VOLUME_MAX,
    ensures
        r == lowered(v as int),
        r <= VOLUME_MAX,
{
    if v < VOLUME_STEP {
        0
    } else {
        v - VOLUME_STEP
    }
}

/// Holds `v` to the range from silence to full scale.
pub fn clamp_volume(v: u16) -> (r: u16)
    ensures
        r == clamped(v as int),
        r <= VOLUME_MAX,
{
    if v > VOLUME_MAX {
        VOLUME_MAX
    } else {
        v
    }
}

/// The level after applying each adjustment of `ups` in turn to `v`:
/// `true` raises, `false` lowers.
pub open spec fn adjusted(v: int, ups: Seq<bool>) -> int
    decreases ups.len(),
{
    if ups.len() == 0 {
        v
    } else {
        let w = if ups[0] {
            raised(v)
        } else {
            lowered(v)
        };
        adjusted(w, ups.drop_first())
    }
}

/// Raising and then lowering returns to the starting level wherever the
/// raise was not held at full scale.
pub proof fn lemma_raise_then_lower(v: int)
    requires
        0 <= v,
        v + VOLUME_STEP <= VOLUME_MAX,
    ensures
        lowered(raised(v)) == v,
{
}

/// However many adjustments are applied, the level stays between silence and
/// full scale.
pub proof fn lemma_adjustments_stay_in_range(v: int, ups: Seq<bool>)
    requires
        0 <= v <= VOLUME_MAX,
    ensures
        0 <= adjusted(v, ups) <= VOLUME_MAX,
    decreases ups.len(),
{
    if ups.len() > 0 {
        let w = if ups[0] {
            raised(v)
        } else {
            lowered(v)
        };
        lemma_adjustments_stay_in_range(w, ups.drop_first());
    }
}

} // verus!

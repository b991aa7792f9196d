//! The per-style camera controllers: input-gating shared by all styles, and
//! one submodule per camera style with its control events, reducer and
//! default input mapping.

use vstd::prelude::*;

pub mod fps_3d;
pub mod orbit;

verus! {

use crate::geometry::Vec2Fx;

/// Largest per-event control delta (pointer motion, translation step, zoom
/// factor) the reducers accept: 2^28, i.e. 16 whole units.
pub const DELTA_LIM: i64 = 268435456;

/// Largest sensitivity scalar a well-formed controller holds: 2^28.
pub const SENS_LIM: i64 = 268435456;

/// Largest number of control events consumed in one tick.
pub const MAX_EVENTS: usize = 1024;

/// Process-wide input gating: whether the default input mappers may consume
/// raw input this tick. Setting it to `Disable` is sticky for the run as far
/// as this library is concerned; re-enabling is the host's affair. Reducers
/// ignore it and always run.
#[derive(Debug, PartialEq, Eq, Structural)]
pub enum InputBehavior {
    Enable,
    Disable,
}

impl Default for InputBehavior {
    /// Input consumption starts enabled.
    fn default() -> (r: Self)
        ensures
            r == InputBehavior::Enable,
    {
        InputBehavior::Enable
    }
}

/// The per-tick reading of the flag: true exactly when the default input
/// mappers should run.
pub fn should_consume_input(consume: &InputBehavior) -> (r: bool)
    ensures
        r == (*consume == InputBehavior::Enable),
{
    if InputBehavior::Disable == *consume {
        return false;
    }
    true
}

/// Sum of the horizontal components of a tick's pointer-motion samples.
pub open spec fn sp_motion_sum_x(s: Seq<Vec2Fx>) -> int
    decreases s.len(),
{
    if s.len() == 0 {
        0
    } else {
        sp_motion_sum_x(s.drop_last()) + s.last().x
    }
}

/// Sum of the vertical components of a tick's pointer-motion samples.
pub open spec fn sp_motion_sum_y(s: Seq<Vec2Fx>) -> int
    decreases s.len(),
{
    if s.len() == 0 {
        0
    } else {
        sp_motion_sum_y(s.drop_last()) + s.last().y
    }
}

/// Accumulate a tick's pointer-motion samples into one combined delta.
pub fn accumulate_motion(samples: &Vec<Vec2Fx>) -> (r: Vec2Fx)
    requires
        forall|i: int|
            0 <= i < samples@.len() ==> crate::geometry::sp_in_range2(
                #[trigger] samples@[i],
                DELTA_LIM as int,
            ),
        samples@.len() <= MAX_EVENTS as int,
    ensures
        r.x as int == sp_motion_sum_x(samples@),
        r.y as int == sp_motion_sum_y(samples@),
        crate::geometry::sp_in_range2(r, (MAX_EVENTS as int) * (DELTA_LIM as int)),
{
    let mut sx: i64 = 0;
    let mut sy: i64 = 0;
    let mut i: usize = 0;
    while i < samples.len()
        invariant
            i <= samples@.len(),
            samples@.len() <= MAX_EVENTS as int,
            forall|j: int|
                0 <= j < samples@.len() ==> crate::geometry::sp_in_range2(
                    #[trigger] samples@[j],
                    DELTA_LIM as int,
                ),
            sx as int == sp_motion_sum_x(samples@.take(i as int)),
            sy as int == sp_motion_sum_y(samples@.take(i as int)),
            -(i as int) * (DELTA_LIM as int) <= sx as int <= (i as int) * (DELTA_LIM as int),
            -(i as int) * (DELTA_LIM as int) <= sy as int <= (i as int) * (DELTA_LIM as int),
        decreases samples@.len() - i,
    {
        let s = samples[i];
        proof {
            assert(samples@.take(i as int + 1).drop_last() =~= samples@.take(i as int));
            assert(samples@.take(i as int + 1).last() == samples@[i as int]);
        }
        sx = sx + s.x;
        sy = sy + s.y;
        i = i + 1;
    }
    proof {
        assert(samples@.take(samples@.len() as int) =~= samples@);
    }
    Vec2Fx { x: sx, y: sy }
}

} // verus!

//! Where the editor window appears.
//!
//! It is laid over the window that holds the edited field, on the same monitor. Coordinates are
//! physical pixels of the virtual screen, which reaches to the left of and above the primary
//! monitor, so they may be negative.
use vstd::prelude::*;

verus! {

/// A rectangle: left, top, right, bottom.
pub type Sides = (i32, i32, i32, i32);

/// Half of `x`, rounded towards zero.
pub open spec fn half(x: int) -> int {
    if x >= 0 {
        x / 2
    } else {
        -((-x) / 2)
    }
}

/// The middle of the target's side.
pub open spec fn middle(target_min: int, target_max: int) -> int {
    target_min + half(target_max - target_min)
}

/// Where the window's side begins if it is centred on the target's.
pub open spec fn centred_start(target_min: int, target_max: int, side: u32) -> int {
    middle(target_min, target_max) - side as int / 2
}

/// The last place in the work area where the window's side can begin.
pub open spec fn last_start(work_max: int, side: u32) -> int {
    work_max - side
}

/// Where the window's side begins: centred, pushed back from the far end of the work area, and in
/// no case before its near end.
pub open spec fn start_of(
    target_min: int,
    target_max: int,
    work_min: int,
    work_max: int,
    side: u32,
) -> int {
    let wanted = centred_start(target_min, target_max, side);
    let last = last_start(work_max, side);
    let pushed = if wanted < last {
        wanted
    } else {
        last
    };
    if pushed > work_min {
        pushed
    } else {
        work_min
    }
}

/// Half, rounded towards zero.
fn half_of(x: i64) -> (r: i64)
    requires
        i64::MIN < x,
    ensures
        r == half(x as int),
{
    if x >= 0 {
        x / 2
    } else {
        -((-x) / 2)
    }
}

/// One axis of [`place_over`].
pub fn centered(
    target_min: i32,
    target_max: i32,
    work_min: i32,
    work_max: i32,
    span: u32,
) -> (start: i32)
    ensures
        start == start_of(
            target_min as int,
            target_max as int,
            work_min as int,
            work_max as int,
            span,
        ),
{
    // What lies on the way may be too large for an `i32`; the corner is not.
    let span = span as i64;
    let width = target_max as i64 - target_min as i64;
    let wanted = target_min as i64 + half_of(width) - span / 2;
    let last = work_max as i64 - span;
    let pushed = if wanted < last {
        wanted
    } else {
        last
    };
    if pushed > work_min as i64 {
        pushed as i32
    } else {
        work_min
    }
}

/// The top left corner of a window of the given size (width, height) that is centred on `target`.
///
/// What would stick out of the work area is pushed back into it; a side that is longer than the
/// work area begins at its left (top) end.
pub fn place_over(target: Sides, work: Sides, size: (u32, u32)) -> (corner: (i32, i32))
    ensures
        corner.0 == start_of(
            target.0 as int,
            target.2 as int,
            work.0 as int,
            work.2 as int,
            size.0,
        ),
        corner.1 == start_of(
            target.1 as int,
            target.3 as int,
            work.1 as int,
            work.3 as int,
            size.1,
        ),
{
    (
        centered(target.0, target.2, work.0, work.2, size.0),
        centered(target.1, target.3, work.1, work.3, size.1),
    )
}

// ---------------------------------------------------------------------------
// Laws
// ---------------------------------------------------------------------------

/// A window that fits into the work area lies wholly inside it, wherever the target is.
pub proof fn law_a_window_that_fits_stays_inside(
    target_min: i32,
    target_max: i32,
    work_min: i32,
    work_max: i32,
    side: u32,
)
    requires
        side <= work_max - work_min,
    ensures
        ({
            let start = start_of(
                target_min as int,
                target_max as int,
                work_min as int,
                work_max as int,
                side,
            );
            work_min <= start && start + side <= work_max
        }),
{
}

/// A window that is longer than the work area begins at the near end of the work area.
pub proof fn law_an_oversized_window_is_pinned(
    target_min: i32,
    target_max: i32,
    work_min: i32,
    work_max: i32,
    side: u32,
)
    requires
        side >= work_max - work_min,
    ensures
        start_of(
            target_min as int,
            target_max as int,
            work_min as int,
            work_max as int,
            side,
        ) == work_min,
{
}

/// The window never begins before the near end of the work area.
pub proof fn law_the_near_end_is_never_crossed(
    target_min: i32,
    target_max: i32,
    work_min: i32,
    work_max: i32,
    side: u32,
)
    ensures
        work_min <= start_of(
            target_min as int,
            target_max as int,
            work_min as int,
            work_max as int,
            side,
        ) <= i32::MAX,
{
}

/// As long as the centred window lies in the work area, its middle is the target's, to the pixel
/// that rounding takes.
pub proof fn law_the_middles_coincide(
    target_min: i32,
    target_max: i32,
    work_min: i32,
    work_max: i32,
    side: u32,
)
    requires
        target_min <= target_max,
        work_min <= (target_min + target_max) / 2 - side / 2,
        (target_min + target_max) / 2 - side / 2 + side <= work_max,
    ensures
        start_of(
            target_min as int,
            target_max as int,
            work_min as int,
            work_max as int,
            side,
        ) == (target_min + target_max) / 2 - side / 2,
{
}

/// A window that fits into the work area begins at the place of the work area that is nearest to the
/// one where it is centred on the target: there, if it is inside, and else at the end that is
/// nearer to it. The middle of a target is its near end and half of its extent, rounded towards the
/// near end.
pub proof fn law_a_window_is_as_near_to_the_middle_as_can_be(
    target_min: i32,
    target_max: i32,
    work_min: i32,
    work_max: i32,
    side: u32,
)
    requires
        side <= work_max - work_min,
    ensures
        ({
            let start = start_of(
                target_min as int,
                target_max as int,
                work_min as int,
                work_max as int,
                side,
            );
            let extent = target_max - target_min;
            let halved = if extent >= 0 {
                extent / 2
            } else {
                -((-extent) / 2)
            };
            let centred = target_min + halved - side as int / 2;
            &&& centred < work_min ==> start == work_min
            &&& centred > work_max - side ==> start == work_max - side
            &&& work_min <= centred <= work_max - side ==> start == centred
        }),
{
}

/// Moving the target and the work area together moves the window with them.
pub proof fn law_the_window_moves_with_the_screen(
    target_min: int,
    target_max: int,
    work_min: int,
    work_max: int,
    side: u32,
    by: int,
)
    ensures
        start_of(target_min + by, target_max + by, work_min + by, work_max + by, side) == start_of(
            target_min,
            target_max,
            work_min,
            work_max,
            side,
        ) + by,
{
}

} // verus!

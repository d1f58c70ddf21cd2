//! What the outputs (monitors) decide: the bounds of the whole desktop, the
//! sizes a surface accepts, the buffers a surface draws into and what a
//! frame does.
use vstd::prelude::*;

verus! {

/// A rectangle of the desktop: its position and its size.
#[derive(Clone, Copy, Debug)]
pub struct Bounds {
    pub position: (i32, i32),
    pub size: (u32, u32),
}

impl Bounds {
    /// The bounds at `top_left`, whose size on each axis is the difference
    /// `top_left - bottom_right` taken modulo 2^32: a negative difference
    /// wraps around to a large size.
    pub fn new(top_left: (i32, i32), bottom_right: (i32, i32)) -> (res: Bounds)
        ensures
            res.position == top_left,
            res.size.0 == #[verifier::truncate] ((top_left.0 - bottom_right.0) as u32),
            res.size.1 == #[verifier::truncate] ((top_left.1 - bottom_right.1) as u32),
    {
        let width = wrapped_difference(top_left.0, bottom_right.0);
        let height = wrapped_difference(top_left.1, bottom_right.1);
        Bounds { position: top_left, size: (width, height) }
    }
}

/// `a - b` modulo 2^32.
fn wrapped_difference(a: i32, b: i32) -> (res: u32)
    ensures
        res == #[verifier::truncate] ((a - b) as u32),
{
    let d: i64 = a as i64 - b as i64;
    #[verifier::truncate] (d as u32)
}

/// Why the desktop's bounds are not known.
#[derive(PartialEq, Eq, Structural, Clone, Copy, Debug)]
pub enum BoundsError {
    /// An output's information could not be had.
    MissingInfo,
    /// An output has no logical position.
    MissingPosition,
}

/// The largest of 0 and the coordinates on one axis (0 for x, 1 for y).
pub open spec fn max_coordinate(positions: Seq<(i32, i32)>, axis: int) -> int
    decreases positions.len(),
{
    if positions.len() == 0 {
        0
    } else {
        let rest = max_coordinate(positions.drop_last(), axis);
        let c = if axis == 0 {
            positions.last().0 as int
        } else {
            positions.last().1 as int
        };
        if c > rest {
            c
        } else {
            rest
        }
    }
}

/// The smallest of 0 and the coordinates on one axis (0 for x, 1 for y).
pub open spec fn min_coordinate(positions: Seq<(i32, i32)>, axis: int) -> int
    decreases positions.len(),
{
    if positions.len() == 0 {
        0
    } else {
        let rest = min_coordinate(positions.drop_last(), axis);
        let c = if axis == 0 {
            positions.last().0 as int
        } else {
            positions.last().1 as int
        };
        if c < rest {
            c
        } else {
            rest
        }
    }
}

/// The output's information and position are known.
pub open spec fn is_known(output: Option<Option<(i32, i32)>>) -> bool {
    output matches Some(Some(_))
}

/// Every output's information and position are known.
pub open spec fn all_known(outputs: Seq<Option<Option<(i32, i32)>>>) -> bool {
    forall|i: int| 0 <= i < outputs.len() ==> is_known(#[trigger] outputs[i])
}

/// The positions of the outputs, where all are known.
pub open spec fn known_positions(outputs: Seq<Option<Option<(i32, i32)>>>) -> Seq<(i32, i32)> {
    outputs.map_values(|o: Option<Option<(i32, i32)>>| o->0->0)
}

/// The error of the first output whose information or position is missing.
pub open spec fn first_missing(outputs: Seq<Option<Option<(i32, i32)>>>, error: BoundsError) -> bool {
    exists|k: int|
        {
            &&& 0 <= k < outputs.len()
            &&& !is_known(#[trigger] outputs[k])
            &&& forall|j: int| 0 <= j < k ==> is_known(#[trigger] outputs[j])
            &&& error == if outputs[k] is None {
                BoundsError::MissingInfo
            } else {
                BoundsError::MissingPosition
            }
        }
}

proof fn lemma_max_step(positions: Seq<(i32, i32)>, p: (i32, i32))
    ensures
        positions.push(p).drop_last() == positions,
        positions.push(p).last() == p,
{
    assert(positions.push(p).drop_last() =~= positions);
}

/// The bounds of the whole desktop from the logical positions of the
/// outputs (each `None` where the output's information is missing, or
/// `Some(None)` where it has no position): from the smallest to the largest
/// coordinate on each axis, 0 included, placed at the largest.
pub fn calculate_global_bounds(outputs: &[Option<Option<(i32, i32)>>]) -> (res: Result<
    Bounds,
    BoundsError,
>)
    ensures
        all_known(outputs@) ==> (res matches Ok(b) && {
            let ps = known_positions(outputs@);
            &&& b.position == (max_coordinate(ps, 0) as i32, max_coordinate(ps, 1) as i32)
            &&& b.size.0 == max_coordinate(ps, 0) - min_coordinate(ps, 0)
            &&& b.size.1 == max_coordinate(ps, 1) - min_coordinate(ps, 1)
        }),
        !all_known(outputs@) ==> (res matches Err(e) && first_missing(outputs@, e)),
{
    let mut max_x: i32 = 0;
    let mut max_y: i32 = 0;
    let mut min_x: i32 = 0;
    let mut min_y: i32 = 0;
    let ghost mut seen: Seq<(i32, i32)> = Seq::empty();
    let mut i: usize = 0;
    while i < outputs.len()
        invariant
            0 <= i <= outputs@.len(),
            forall|j: int| 0 <= j < i ==> is_known(#[trigger] outputs@[j]),
            seen == known_positions(outputs@.take(i as int)),
            max_x == max_coordinate(seen, 0),
            max_y == max_coordinate(seen, 1),
            min_x == min_coordinate(seen, 0),
            min_y == min_coordinate(seen, 1),
        decreases outputs@.len() - i,
    {
        match outputs[i] {
            None => {
                proof {
                    assert(!all_known(outputs@));
                    assert(first_missing(outputs@, BoundsError::MissingInfo));
                }
                return Err(BoundsError::MissingInfo);
            },
            Some(None) => {
                proof {
                    assert(!all_known(outputs@));
                    assert(first_missing(outputs@, BoundsError::MissingPosition));
                }
                return Err(BoundsError::MissingPosition);
            },
            Some(Some(position)) => {
                proof {
                    lemma_max_step(seen, position);
                    assert(outputs@.take(i + 1) =~= outputs@.take(i as int).push(outputs@[i as int]));
                    assert(known_positions(outputs@.take(i + 1)) =~= seen.push(position));
                    seen = seen.push(position);
                }
                if position.0 > max_x {
                    max_x = position.0;
                }
                if position.1 > max_y {
                    max_y = position.1;
                }
                if position.0 < min_x {
                    min_x = position.0;
                }
                if position.1 < min_y {
                    min_y = position.1;
                }
            },
        }
        i = i + 1;
    }
    proof {
        assert(outputs@.take(i as int) =~= outputs@);
    }
    Ok(Bounds::new((max_x, max_y), (min_x, min_y)))
}

/// A surface takes a new size only where neither side is 0.
pub open spec fn accepts_size_spec(size: (u32, u32)) -> bool {
    size.0 != 0 && size.1 != 0
}

/// Whether a surface takes the new size: one with a side of 0 is ignored.
pub fn accepts_size(size: (u32, u32)) -> (res: bool)
    ensures
        res == accepts_size_spec(size),
{
    size.0 != 0 && size.1 != 0
}

/// What one frame of an output does besides drawing and committing.
#[derive(PartialEq, Eq, Structural, Clone, Copy, Debug)]
pub struct FramePlan {
    /// Ask for another frame: the transition is still running.
    pub request_next_frame: bool,
    /// Hand the transition's progress to the output's renderer: the output
    /// is in a transition.
    pub apply_progress: bool,
}

/// The plan of a frame: another frame is asked for while the transition
/// runs, and the progress is handed on to an output that is transitioning.
pub fn frame_plan(transition_finished: bool, output_transitioning: bool) -> (res: FramePlan)
    ensures
        res.request_next_frame == !transition_finished,
        res.apply_progress == output_transitioning,
{
    FramePlan { request_next_frame: !transition_finished, apply_progress: output_transitioning }
}

} // verus!

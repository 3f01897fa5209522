use vstd::prelude::*;
use crate::config::{ITERATION_STEP, MAX_ITERATIONS, MIN_ITERATIONS};

verus! {

/// The logical keys held or pressed during one frame.
#[derive(Clone, Copy, Debug, PartialEq, Eq, Structural)]
pub struct Input {
    pub left: bool,
    pub right: bool,
    pub up: bool,
    pub down: bool,
    pub zoom_in: bool,
    pub zoom_out: bool,
    pub more_iterations: bool,
    pub fewer_iterations: bool,
}

/// What happens to the extent of the viewport in one frame.
#[derive(Clone, Copy, Debug, PartialEq, Eq, Structural)]
pub enum Zoom {
    /// Both extents are multiplied by the zoom factor.
    In,
    /// Both extents are divided by the zoom factor.
    Out,
    /// The extent is left as it is.
    Hold,
}

/// The change of viewport that one frame of input asks for. The directions
/// are -1, 0 or 1; the caller scales them by speed, frame time and extent.
#[derive(Clone, Copy, Debug, PartialEq, Eq, Structural)]
pub struct Motion {
    pub horizontal: i32,
    pub vertical: i32,
    pub zoom: Zoom,
}

/// 1 when the key is down, 0 otherwise.
pub open spec fn held(key: bool) -> int {
    if key { 1 } else { 0 }
}

/// Pan to the right minus pan to the left, down minus up. The zoom keys
/// exclude each other, zoom-in first: zoom out only when the zoom-out key is
/// held alone.
pub open spec fn motion_of(input: Input) -> Motion {
    Motion {
        horizontal: (held(input.right) - held(input.left)) as i32,
        vertical: (held(input.down) - held(input.up)) as i32,
        zoom: if input.zoom_in {
            Zoom::In
        } else if input.zoom_out {
            Zoom::Out
        } else {
            Zoom::Hold
        },
    }
}

/// The budget after one frame: the net of a step up and a step down, kept
/// between the floor and the top of `u32`. A step up and a step down in the
/// same frame cancel.
pub open spec fn next_budget(budget: int, input: Input) -> int {
    let target = budget + ITERATION_STEP * held(input.more_iterations) - ITERATION_STEP * held(
        input.fewer_iterations,
    );
    if target < MIN_ITERATIONS {
        MIN_ITERATIONS as int
    } else if target > u32::MAX {
        u32::MAX as int
    } else {
        target
    }
}

/// The budget after a run of frames, oldest input first.
pub open spec fn budget_after(budget: int, inputs: Seq<Input>) -> int
    decreases inputs.len(),
{
    if inputs.len() == 0 {
        budget
    } else {
        budget_after(next_budget(budget, inputs[0]), inputs.drop_first())
    }
}

/// The part of the camera that is kept as an integer: its iteration budget.
/// The budget is never below the floor.
pub struct Camera {
    iterations: u32,
}

impl View for Camera {
    type V = int;

    closed spec fn view(&self) -> int {
        self.iterations as int
    }
}

impl Camera {
    #[verifier::type_invariant]
    spec fn budget_at_floor_or_above(&self) -> bool {
        self.iterations >= MIN_ITERATIONS
    }

    /// A camera with the given budget, raised to the floor where it is below.
    pub fn new(iterations: u32) -> (c: Camera)
        ensures
            c@ == if iterations < MIN_ITERATIONS { MIN_ITERATIONS as int } else { iterations as int },
    {
        if iterations < MIN_ITERATIONS {
            Camera { iterations: MIN_ITERATIONS }
        } else {
            Camera { iterations }
        }
    }

    /// The current iteration budget.
    pub fn iterations(&self) -> (r: u32)
        ensures
            r as int == self@,
            r >= MIN_ITERATIONS,
    {
        proof {
            use_type_invariant(self);
        }
        self.iterations
    }

    /// Applies one frame of input: adjusts the budget and returns how the
    /// viewport is to pan and zoom.
    pub fn update(&mut self, input: &Input) -> (m: Motion)
        ensures
            final(self)@ == next_budget(old(self)@, *input),
            final(self)@ >= MIN_ITERATIONS,
            m == motion_of(*input),
    {
        proof {
            use_type_invariant(&*self);
        }
        let horizontal: i32 = input.right as i32 - input.left as i32;
        let vertical: i32 = input.down as i32 - input.up as i32;
        let zoom = if input.zoom_in {
            Zoom::In
        } else if input.zoom_out {
            Zoom::Out
        } else {
            Zoom::Hold
        };

        // The net change is taken in a wider type, then brought back into range.
        let mut target: i64 = self.iterations as i64;
        if input.more_iterations {
            target = target + ITERATION_STEP as i64;
        }
        if input.fewer_iterations {
            target = target - ITERATION_STEP as i64;
        }
        let budget: u32 = if target < MIN_ITERATIONS as i64 {
            MIN_ITERATIONS
        } else if target > u32::MAX as i64 {
            u32::MAX
        } else {
            target as u32
        };
        *self = Camera { iterations: budget };
        Motion { horizontal, vertical, zoom }
    }
}

impl Default for Camera {
    /// A camera with the default budget.
    fn default() -> (c: Camera)
        ensures
            c@ == MAX_ITERATIONS as int,
    {
        Camera::new(MAX_ITERATIONS)
    }
}

/// However many frames of input are applied, decrements included, the budget
/// never drops below the floor.
pub proof fn iteration_floor(budget: int, inputs: Seq<Input>)
    requires
        budget >= MIN_ITERATIONS,
    ensures
        budget_after(budget, inputs) >= MIN_ITERATIONS,
    decreases inputs.len(),
{
    if inputs.len() > 0 {
        iteration_floor(next_budget(budget, inputs[0]), inputs.drop_first());
    }
}

} // verus!

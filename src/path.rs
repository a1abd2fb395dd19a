use vstd::prelude::*;

verus! {

/// What a traced ray met on one bounce.
#[derive(Debug, Clone, Copy, PartialEq, Eq)]
pub enum Bounce {
    /// It left the scene: the path takes the background color.
    Miss,
    /// It hit a surface whose material absorbed it.
    Absorbed,
    /// It hit a surface whose material sent out a new ray.
    Scattered,
}

/// How the color of a finished path is made.
#[derive(Debug, Clone, Copy, PartialEq, Eq)]
pub enum PathEnd {
    /// The background color, times the attenuations gathered so far.
    Sky,
    /// Black: no light reaches the camera along the path.
    Black,
}

/// What the integrator does next on a path.
#[derive(Debug, Clone, Copy, PartialEq, Eq)]
pub enum Step {
    /// Trace the current ray against the scene, with `remaining` bounces left in the budget.
    Trace { remaining: u32 },
    /// Stop and make the path's color.
    Finish(PathEnd),
}

/// The step for a ray with a budget of `depth` bounces: none left means black.
pub open spec fn begin_spec(depth: u32) -> Step {
    if depth == 0 {
        Step::Finish(PathEnd::Black)
    } else {
        Step::Trace { remaining: depth }
    }
}

/// The step after a traced ray met `bounce` with `remaining` bounces in the budget.
pub open spec fn advance_spec(remaining: u32, bounce: Bounce) -> Step
    recommends
        remaining > 0,
{
    match bounce {
        Bounce::Miss => Step::Finish(PathEnd::Sky),
        Bounce::Absorbed => Step::Finish(PathEnd::Black),
        Bounce::Scattered => begin_spec((remaining - 1) as u32),
    }
}

/// The first step of a path with a budget of `depth` bounces.
pub fn begin(depth: u32) -> (r: Step)
    ensures
        r == begin_spec(depth),
{
    if depth == 0 {
        Step::Finish(PathEnd::Black)
    } else {
        Step::Trace { remaining: depth }
    }
}

/// The step that follows a `Trace { remaining }` whose ray met `bounce`.
pub fn advance(remaining: u32, bounce: Bounce) -> (r: Step)
    requires
        remaining > 0,
    ensures
        r == advance_spec(remaining, bounce),
        r matches Step::Trace { remaining: next } ==> next == remaining - 1,
{
    match bounce {
        Bounce::Miss => Step::Finish(PathEnd::Sky),
        Bounce::Absorbed => Step::Finish(PathEnd::Black),
        Bounce::Scattered => begin(remaining - 1),
    }
}

/// Where a path ends when its rays meet `bounces` in turn, starting from `step`; `None` when
/// the bounces run out first.
pub open spec fn path_end(step: Step, bounces: Seq<Bounce>) -> Option<PathEnd>
    decreases bounces.len(),
{
    match step {
        Step::Finish(end) => Some(end),
        Step::Trace { remaining } => {
            if bounces.len() == 0 || remaining == 0 {
                None
            } else {
                path_end(advance_spec(remaining, bounces[0]), bounces.drop_first())
            }
        },
    }
}

/// A path never traces more rays than its budget: whatever the bounces, a path that starts
/// with a budget of `depth` has ended after `depth` of them.
pub proof fn lemma_budget_bounds_path(depth: u32, bounces: Seq<Bounce>)
    requires
        bounces.len() >= depth,
    ensures
        path_end(begin_spec(depth), bounces) is Some,
    decreases depth,
{
    if depth > 0 {
        let next = advance_spec(depth, bounces[0]);
        assert(path_end(begin_spec(depth), bounces) == path_end(next, bounces.drop_first()));
        if bounces[0] == Bounce::Scattered {
            lemma_budget_bounds_path((depth - 1) as u32, bounces.drop_first());
        } else {
            assert(path_end(next, bounces.drop_first()) is Some);
        }
    }
}

/// A path whose rays scatter every time they are traced ends black once its budget is spent.
pub proof fn lemma_endless_scatter_is_black(depth: u32, bounces: Seq<Bounce>)
    requires
        bounces.len() >= depth,
        forall|i: int| 0 <= i < bounces.len() ==> bounces[i] == Bounce::Scattered,
    ensures
        path_end(begin_spec(depth), bounces) == Some(PathEnd::Black),
    decreases depth,
{
    if depth > 0 {
        lemma_endless_scatter_is_black((depth - 1) as u32, bounces.drop_first());
    }
}

} // verus!

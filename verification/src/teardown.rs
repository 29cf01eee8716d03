use vstd::prelude::*;
use crate::errors::ToolError;
use crate::geometry::CaptureRegion;

verus! {

/// One server-side release operation of the teardown routine.
#[derive(Clone, Copy, PartialEq, Eq, Structural, Debug)]
pub enum ReleaseAction {
    /// Free the graphics context.
    FreeGraphicsContext,
    /// Free the offscreen pixmap.
    FreePixmap,
    /// Destroy the overlay window.
    DestroyWindow,
    /// Flush the connection so the releases reach the server.
    Flush,
}

/// How a whole run terminated.
#[derive(Clone, Copy, PartialEq, Eq, Structural, Debug)]
pub enum RunOutcome {
    /// A drag finished and this region was extracted and handed to the
    /// persistence collaborator.
    Extracted(CaptureRegion),
    /// The user cancelled; nothing was extracted.
    Cancelled,
    /// A fatal error ended the run.
    Failed(ToolError),
}

/// The fixed release order: graphics context, then pixmap, then window,
/// then a flush.
pub open spec fn spec_teardown_plan() -> Seq<ReleaseAction> {
    seq![
        ReleaseAction::FreeGraphicsContext,
        ReleaseAction::FreePixmap,
        ReleaseAction::DestroyWindow,
        ReleaseAction::Flush,
    ]
}

/// How many times an action occurs in a plan.
pub open spec fn count_action(plan: Seq<ReleaseAction>, a: ReleaseAction) -> int
    decreases plan.len(),
{
    if plan.len() == 0 {
        0
    } else {
        count_action(plan.drop_last(), a) + if plan.last() == a {
            1int
        } else {
            0int
        }
    }
}

/// The releases to perform for a terminating run. Every outcome — success,
/// cancel, or error — gets the same plan: each resource released once, in
/// the fixed order, each attempted even if an earlier release failed.
pub fn teardown_plan(_outcome: &RunOutcome) -> (plan: Vec<ReleaseAction>)
    ensures
        plan@ == spec_teardown_plan(),
{
    let mut plan: Vec<ReleaseAction> = Vec::new();
    plan.push(ReleaseAction::FreeGraphicsContext);
    plan.push(ReleaseAction::FreePixmap);
    plan.push(ReleaseAction::DestroyWindow);
    plan.push(ReleaseAction::Flush);
    proof {
        assert(plan@ =~= spec_teardown_plan());
    }
    plan
}

/// Teardown exactly-once: on every exit path the plan names each release —
/// the graphics context, the pixmap, the window, and the closing flush —
/// exactly once, and it does not depend on how the run ended.
pub proof fn lemma_teardown_exactly_once()
    ensures
        forall|a: ReleaseAction| count_action(spec_teardown_plan(), a) == 1,
        spec_teardown_plan().len() == 4,
{
    let plan = spec_teardown_plan();
    assert forall|a: ReleaseAction| count_action(plan, a) == 1 by {
        reveal_with_fuel(count_action, 5);
        assert(plan.drop_last() =~= seq![
            ReleaseAction::FreeGraphicsContext,
            ReleaseAction::FreePixmap,
            ReleaseAction::DestroyWindow,
        ]);
        assert(plan.drop_last().drop_last() =~= seq![
            ReleaseAction::FreeGraphicsContext,
            ReleaseAction::FreePixmap,
        ]);
        assert(plan.drop_last().drop_last().drop_last() =~= seq![
            ReleaseAction::FreeGraphicsContext,
        ]);
        assert(plan.drop_last().drop_last().drop_last().drop_last() =~= Seq::<
            ReleaseAction,
        >::empty());
        assert(count_action(plan.drop_last().drop_last().drop_last().drop_last(), a) == 0);
    }
}

} // verus!

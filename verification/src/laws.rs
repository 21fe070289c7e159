//! What holds of every frame and of every run, proved from what a frame
//! promises.

use vstd::prelude::*;
use crate::player::off_road;
use crate::world::{FrameInput, FrameReport, World};

verus! {

/// Frame `i` of a run leads from a well-formed state `worlds[i]` to
/// `worlds[i + 1]`, on `inputs[i]` and with `reports[i]`.
pub open spec fn is_frame_of_run(
    worlds: Seq<World>,
    inputs: Seq<FrameInput>,
    reports: Seq<FrameReport>,
    i: int,
) -> bool {
    &&& worlds[i].wf()
    &&& worlds[i].advances(inputs[i], worlds[i + 1], reports[i])
}

/// A run: the states that a game goes through, from `worlds[0]` on, with the
/// input and the report of the frame that leads from each state to the next.
pub open spec fn is_run(
    worlds: Seq<World>,
    inputs: Seq<FrameInput>,
    reports: Seq<FrameReport>,
) -> bool {
    &&& worlds.len() == inputs.len() + 1
    &&& reports.len() == inputs.len()
    &&& forall|i: int|
        0 <= i < inputs.len() ==> #[trigger] is_frame_of_run(worlds, inputs, reports, i)
}

/// Number of reports that announce the end of the run.
pub open spec fn game_overs(reports: Seq<FrameReport>) -> nat
    decreases reports.len(),
{
    if reports.len() == 0 {
        0
    } else {
        game_overs(reports.drop_last()) + (if reports.last().game_over { 1nat } else { 0nat })
    }
}

/// A frame leaves a lost run as it is: no position, no health and no text
/// changes, and the report asks for nothing.
pub proof fn lost_run_is_frozen(
    pre: World,
    input: FrameInput,
    post: World,
    report: FrameReport,
)
    requires
        pre.lost,
        pre.advances(input, post, report),
    ensures
        post == pre,
        post.player == pre.player,
        post.roadlines@ == pre.roadlines@,
        post.obstacles@ == pre.obstacles@,
        post.health == pre.health,
        post.health_text@ == pre.health_text@,
        report == FrameReport::quiet(),
{
}

/// Health never rises from one frame to the next.
pub proof fn health_never_rises(pre: World, input: FrameInput, post: World, report: FrameReport)
    requires
        pre.advances(input, post, report),
    ensures
        0 <= post.health <= pre.health,
        post.health + report.impacts <= pre.health,
{
}

/// A player that the frame leaves off the road has no health left, whatever
/// it had before and whatever it collided with, and the run is lost.
pub proof fn leaving_the_road_ends_the_run(
    pre: World,
    input: FrameInput,
    post: World,
    report: FrameReport,
)
    requires
        !pre.lost,
        pre.advances(input, post, report),
        off_road(post.player.y as int),
    ensures
        post.health == 0,
        post.lost,
        report.game_over,
{
}

/// A lane marker that scrolls past the left edge is, after that same frame,
/// somewhere within the spans that the run draws from.
pub proof fn roadline_returns_within_spans(
    pre: World,
    input: FrameInput,
    post: World,
    report: FrameReport,
    i: int,
)
    requires
        !pre.lost,
        pre.advances(input, post, report),
        0 <= i < pre.roadlines@.len(),
        pre.roadlines@[i].leaves(input.delta),
    ensures
        post.x_values.contains(post.roadlines@[i].x as int),
        post.y_values.contains(post.roadlines@[i].y as int),
{
    assert(pre.roadlines@[i].follows(input.delta, pre.x_values, pre.y_values, post.roadlines@[i]));
}

/// An obstacle that scrolls past the left edge is, after that same frame,
/// somewhere within the spans that the run draws from, and so is its speed.
pub proof fn obstacle_returns_within_spans(
    pre: World,
    input: FrameInput,
    post: World,
    report: FrameReport,
    i: int,
)
    requires
        !pre.lost,
        pre.advances(input, post, report),
        0 <= i < pre.obstacles@.len(),
        pre.obstacles@[i].leaves(input.delta),
    ensures
        post.x_values.contains(post.obstacles@[i].x as int),
        post.y_values.contains(post.obstacles@[i].y as int),
        post.speed_values.contains(post.obstacles@[i].speed as int),
{
    assert(pre.obstacles@[i].follows(
        input.delta,
        pre.x_values,
        pre.y_values,
        pre.speed_values,
        post.obstacles@[i],
    ));
}

/// A frame announces the end of the run exactly when it takes health from
/// above zero to zero.
pub proof fn game_over_marks_the_last_health(
    pre: World,
    input: FrameInput,
    post: World,
    report: FrameReport,
)
    requires
        pre.wf(),
        pre.advances(input, post, report),
    ensures
        report.game_over <==> pre.health > 0 && post.health == 0,
        report.game_over <==> !pre.lost && post.lost,
{
}

/// The beginning of a run is a run.
pub proof fn run_without_last_frame(
    worlds: Seq<World>,
    inputs: Seq<FrameInput>,
    reports: Seq<FrameReport>,
)
    requires
        is_run(worlds, inputs, reports),
        inputs.len() > 0,
    ensures
        is_run(worlds.drop_last(), inputs.drop_last(), reports.drop_last()),
{
    let w = worlds.drop_last();
    let n = inputs.drop_last();
    let r = reports.drop_last();
    assert forall|i: int| 0 <= i < n.len() implies #[trigger] is_frame_of_run(w, n, r, i) by {
        assert(is_frame_of_run(worlds, inputs, reports, i));
    }
}

/// Over a run health never rises: at a later frame it is at most what it was
/// at an earlier one.
pub proof fn health_never_rises_in_run(
    worlds: Seq<World>,
    inputs: Seq<FrameInput>,
    reports: Seq<FrameReport>,
    i: int,
    j: int,
)
    requires
        is_run(worlds, inputs, reports),
        0 <= i <= j < worlds.len(),
    ensures
        0 <= worlds[j].health <= worlds[i].health,
    decreases j - i,
{
    if i < j {
        health_never_rises_in_run(worlds, inputs, reports, i, j - 1);
        assert(is_frame_of_run(worlds, inputs, reports, j - 1));
    }
}

/// Once a run is lost, its state stays what it was at that frame, and no
/// later report asks for anything.
pub proof fn lost_run_stays_frozen(
    worlds: Seq<World>,
    inputs: Seq<FrameInput>,
    reports: Seq<FrameReport>,
    i: int,
    j: int,
)
    requires
        is_run(worlds, inputs, reports),
        0 <= i <= j < worlds.len(),
        worlds[i].lost,
    ensures
        worlds[j] == worlds[i],
        j < reports.len() ==> reports[j] == FrameReport::quiet(),
    decreases j - i,
{
    if i < j {
        lost_run_stays_frozen(worlds, inputs, reports, i, j - 1);
        assert(is_frame_of_run(worlds, inputs, reports, j - 1));
    }
    if j < reports.len() {
        assert(is_frame_of_run(worlds, inputs, reports, j));
    }
}

/// A run that begins with health left announces its end exactly once if it
/// is lost by its last state, and never if it is not.
pub proof fn game_over_comes_once(
    worlds: Seq<World>,
    inputs: Seq<FrameInput>,
    reports: Seq<FrameReport>,
)
    requires
        is_run(worlds, inputs, reports),
        !worlds[0].lost,
    ensures
        game_overs(reports) == (if worlds.last().lost { 1nat } else { 0nat }),
    decreases inputs.len(),
{
    if inputs.len() > 0 {
        let n = inputs.len() as int;
        run_without_last_frame(worlds, inputs, reports);
        game_over_comes_once(worlds.drop_last(), inputs.drop_last(), reports.drop_last());
        assert(worlds.drop_last().last() == worlds[n - 1]);
        assert(worlds.drop_last()[0] == worlds[0]);
        assert(is_frame_of_run(worlds, inputs, reports, n - 1));
        assert(reports.last() == reports[n - 1]);
        assert(worlds.last() == worlds[n]);
    }
}

/// No two frames of a run announce its end.
pub proof fn game_over_is_not_repeated(
    worlds: Seq<World>,
    inputs: Seq<FrameInput>,
    reports: Seq<FrameReport>,
    i: int,
    j: int,
)
    requires
        is_run(worlds, inputs, reports),
        0 <= i < j < reports.len(),
        reports[i].game_over,
    ensures
        !reports[j].game_over,
{
    assert(is_frame_of_run(worlds, inputs, reports, i));
    lost_run_stays_frozen(worlds, inputs, reports, i + 1, j);
}

} // verus!

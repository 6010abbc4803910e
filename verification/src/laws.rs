//! What holds of the container across calls.

use crate::builder::AppBuilder;
use crate::container::App;
use crate::engine::{pass_outcome, pass_returns};
use crate::strategy::{fn_completed, pass_completes, RunStrategy};
use vstd::prelude::*;

verus! {

/// `after` is `app` a number of ticks later: each tick starts from the world
/// and schedule that the tick before it left.
pub open spec fn after_ticks(app: App, ticks: nat, after: App) -> bool
    decreases ticks,
{
    if ticks == 0 {
        after == app
    } else {
        exists|between: App|
            after_ticks(app, (ticks - 1) as nat, between) && #[trigger] between.ticked(after)
    }
}

/// A builder that nothing was registered with can be run, and running it
/// invokes the default strategy: `AppBuilder::run` is owed, and what it
/// reports is that one pass of the schedule was made. The schedule being
/// empty, that pass can only leave world and schedule as they were.
pub proof fn lemma_fresh_builder_runs(builder: AppBuilder)
    requires
        builder.app.is_fresh(),
    ensures
        builder.app.runner.accepts(builder.app.world, builder.app.schedule),
        builder.app.runner.completed(builder.app.world, builder.app.schedule) <==> pass_completes(
            builder.app.world,
            builder.app.schedule,
        ),
        forall|after: App| #[trigger]
            builder.app.ticked(after) ==> after.world == builder.app.world && after.schedule
                == builder.app.schedule,
{
}

/// One more update is one more tick.
pub proof fn lemma_update_adds_a_tick(start: App, ticks: nat, before: App, after: App)
    requires
        after_ticks(start, ticks, before),
        before.ticked(after),
    ensures
        after_ticks(start, ticks + 1, after),
{
}

/// Two updates in a row run the schedule twice: the first over the world as
/// it was, the second over the world and schedule that the first left. The
/// strategy is the same throughout.
pub proof fn lemma_two_updates(start: App, between: App, end: App)
    requires
        start.ticked(between),
        between.ticked(end),
    ensures
        after_ticks(start, 2, end),
        pass_outcome(start.schedule, start.world, between.schedule, between.world),
        pass_outcome(between.schedule, between.world, end.schedule, end.world),
        end.runner == start.runner,
{
    assert(after_ticks(start, 0, start));
    lemma_update_adds_a_tick(start, 0, start, between);
    lemma_update_adds_a_tick(start, 1, between, end);
}

/// Ticks add up: a run of updates followed by another is one run of as many
/// updates as the two together, each starting from what the one before left.
pub proof fn lemma_ticks_add_up(start: App, first: nat, middle: App, second: nat, end: App)
    requires
        after_ticks(start, first, middle),
        after_ticks(middle, second, end),
    ensures
        after_ticks(start, first + second, end),
    decreases second,
{
    if second > 0 {
        let between = choose|between: App|
            after_ticks(middle, (second - 1) as nat, between) && #[trigger] between.ticked(end);
        lemma_ticks_add_up(start, first, middle, (second - 1) as nat, between);
        lemma_update_adds_a_tick(start, (first + second - 1) as nat, between, end);
    }
}

/// However many ticks a fresh container goes through, it can take another,
/// and its world and schedule are still as they were.
pub proof fn lemma_fresh_container_idles(app: App, ticks: nat, after: App)
    requires
        app.is_fresh(),
        after_ticks(app, ticks, after),
    ensures
        after.world == app.world,
        after.schedule == app.schedule,
        after.runner == app.runner,
        pass_returns(after.schedule, after.world),
    decreases ticks,
{
    if ticks > 0 {
        let between = choose|between: App|
            after_ticks(app, (ticks - 1) as nat, between) && #[trigger] between.ticked(after);
        lemma_fresh_container_idles(app, (ticks - 1) as nat, between);
    }
}

/// A container runs the strategy that is in its slot when `App::run` is
/// called: where that strategy was put in place of another, `App::run` is owed
/// wherever the replacement accepts the world and schedule, and what it
/// reports is what the replacement reports.
pub proof fn lemma_replacement_runs<R: RunStrategy>(app: App, replacement: R)
    requires
        app.runs_like(replacement),
    ensures
        app.runner.accepts(app.world, app.schedule) <==> replacement.accepts(
            app.world,
            app.schedule,
        ),
        app.runner.completed(app.world, app.schedule) <==> replacement.completed(
            app.world,
            app.schedule,
        ),
{
}

/// A builder whose strategy was set to a function hands that function the
/// container: once `AppBuilder::run` has come back, the function has been
/// called on a container that holds the builder's world and schedule and,
/// in its slot, the default strategy.
pub proof fn lemma_set_runner_is_called<F: Fn(App)>(builder: AppBuilder, run_fn: F)
    requires
        builder.app.runs_fn(run_fn),
        builder.app.runner.completed(builder.app.world, builder.app.schedule),
    ensures
        exists|app: App|
            app.wraps(builder.app.world, builder.app.schedule) && #[trigger] call_ensures(
                run_fn,
                (app,),
                (),
            ),
{
    assert(fn_completed(run_fn, builder.app.world, builder.app.schedule));
}

} // verus!

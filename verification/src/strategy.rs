//! Run strategies: what `App::run` hands the container to.

use crate::container::App;
use crate::engine::{pass_outcome, pass_returns};
use bevy_ecs::schedule::Schedule;
use bevy_ecs::world::World;
use vstd::prelude::*;

verus! {

/// A policy for running a container: one pass, a loop until some event, a
/// hand-over to a windowing event loop.
///
/// A strategy is handed what the container owns, its world and its schedule,
/// and keeps them: nothing comes back. The container's strategy slot is vacant
/// from that moment. A strategy that wants a whole container to work on makes
/// one with [`App::from_parts`], whose slot holds the default strategy.
pub trait RunStrategy {
    /// The worlds and schedules that the strategy can be handed. A strategy
    /// that does not say accepts them all.
    open spec fn accepts(&self, world: World, schedule: Schedule) -> bool {
        true
    }

    /// What is known of the world and schedule that the strategy was handed,
    /// once it has come back. A strategy that does not say reports nothing.
    open spec fn completed(&self, world: World, schedule: Schedule) -> bool {
        true
    }

    /// Runs the strategy on a world and schedule, consuming both.
    fn invoke(&self, world: World, schedule: Schedule)
        requires
            self.accepts(world, schedule),
        ensures
            self.completed(world, schedule),
    ;
}

/// Whether one pass of `schedule` over `world` has an outcome.
pub open spec fn pass_completes(world: World, schedule: Schedule) -> bool {
    exists|schedule_after: Schedule, world_after: World|
        pass_outcome(schedule, world, schedule_after, world_after)
}

/// The default strategy: one pass of the schedule, then back to the caller.
#[derive(Debug, Clone, Copy)]
pub struct RunOnce;

impl RunStrategy for RunOnce {
    open spec fn accepts(&self, world: World, schedule: Schedule) -> bool {
        pass_returns(schedule, world)
    }

    open spec fn completed(&self, world: World, schedule: Schedule) -> bool {
        pass_completes(world, schedule)
    }

    fn invoke(&self, world: World, schedule: Schedule) {
        run_once(App { world, schedule, runner: Box::new(RunOnce) })
    }
}

/// Advances the container by one tick: calls [`App::update`] once and lets the
/// container go.
pub fn run_once(app: App)
    requires
        pass_returns(app.schedule, app.world),
    ensures
        pass_completes(app.world, app.schedule),
{
    let mut app = app;
    let ghost before = app;
    app.update();
    assert(pass_outcome(before.schedule, before.world, app.schedule, app.world));
}

/// A function can be handed a world and schedule where it accepts every
/// container that can be made of them.
pub open spec fn fn_accepts<F: Fn(App)>(run_fn: F, world: World, schedule: Schedule) -> bool {
    forall|app: App| app.wraps(world, schedule) ==> #[trigger] call_requires(run_fn, (app,))
}

/// A function was called on a container made of the world and schedule, and
/// came back.
pub open spec fn fn_completed<F: Fn(App)>(run_fn: F, world: World, schedule: Schedule) -> bool {
    exists|app: App| app.wraps(world, schedule) && #[trigger] call_ensures(run_fn, (app,), ())
}

/// A strategy given as a function or closure that takes the container by
/// value. The container it receives holds the world and schedule that were
/// handed over, and the default strategy in its slot.
pub struct FnStrategy<F: Fn(App)> {
    /// The function that is called with the container.
    pub run_fn: F,
}

impl<F: Fn(App)> FnStrategy<F> {
    /// Wraps a function as a strategy.
    pub fn new(run_fn: F) -> (strategy: Self)
        ensures
            strategy.run_fn == run_fn,
            forall|world: World, schedule: Schedule| #[trigger]
                strategy.accepts(world, schedule) == fn_accepts(run_fn, world, schedule),
            forall|world: World, schedule: Schedule| #[trigger]
                strategy.completed(world, schedule) == fn_completed(run_fn, world, schedule),
    {
        FnStrategy { run_fn }
    }
}

impl<F: Fn(App)> RunStrategy for FnStrategy<F> {
    open spec fn accepts(&self, world: World, schedule: Schedule) -> bool {
        fn_accepts(self.run_fn, world, schedule)
    }

    open spec fn completed(&self, world: World, schedule: Schedule) -> bool {
        fn_completed(self.run_fn, world, schedule)
    }

    fn invoke(&self, world: World, schedule: Schedule) {
        let app = App::from_parts(world, schedule);
        (self.run_fn)(app)
    }
}

} // verus!

//! The application container.

use crate::builder::AppBuilder;
use crate::engine::{
    entity_count, is_idle, new_schedule, new_world, pass_outcome, pass_returns, resource_count,
    run_schedule, stage_count,
};
use crate::strategy::{fn_accepts, fn_completed, RunOnce, RunStrategy};
use bevy_ecs::schedule::Schedule;
use bevy_ecs::world::World;
use vstd::prelude::*;

verus! {

/// Container of application logic and data.
///
/// An `App` owns the engine's world (entities, components and the resource
/// table), the schedule of systems, and the strategy that [`App::run`] hands
/// them to. By default the strategy makes one pass of the schedule. Containers
/// are made with the builder that [`App::build`] returns.
pub struct App {
    /// The entities, their components, and the resources.
    pub world: World,
    /// The strategy that [`App::run`] hands world and schedule to.
    pub runner: Box<dyn RunStrategy>,
    /// The stages of systems that one tick runs.
    pub schedule: Schedule,
}

impl App {
    /// The strategy in the slot behaves as `strategy` does: it accepts the same
    /// worlds and schedules, and the same is known once it has come back.
    pub open spec fn runs_like<R: RunStrategy>(self, strategy: R) -> bool {
        &&& forall|world: World, schedule: Schedule|
            #![trigger self.runner.accepts(world, schedule)]
            #![trigger strategy.accepts(world, schedule)]
            self.runner.accepts(world, schedule) == strategy.accepts(world, schedule)
        &&& forall|world: World, schedule: Schedule|
            #![trigger self.runner.completed(world, schedule)]
            #![trigger strategy.completed(world, schedule)]
            self.runner.completed(world, schedule) == strategy.completed(world, schedule)
    }

    /// The strategy in the slot is the function `run_fn`, to be called on a
    /// container made of the world and schedule.
    pub open spec fn runs_fn<F: Fn(App)>(self, run_fn: F) -> bool {
        &&& forall|world: World, schedule: Schedule| #[trigger]
            self.runner.accepts(world, schedule) == fn_accepts(run_fn, world, schedule)
        &&& forall|world: World, schedule: Schedule| #[trigger]
            self.runner.completed(world, schedule) == fn_completed(run_fn, world, schedule)
    }

    /// The slot holds the default strategy: it accepts a world and schedule
    /// where a pass of the one over the other comes back, and once it has come
    /// back such a pass has been made.
    pub open spec fn runs_once(self) -> bool {
        self.runs_like(RunOnce)
    }

    /// A container as it is first made: no entity, no resource, no stage, a
    /// schedule on which a pass does nothing, and the default strategy.
    pub open spec fn is_fresh(self) -> bool {
        &&& entity_count(self.world) == 0
        &&& resource_count(self.world) == 0
        &&& stage_count(self.schedule) == 0
        &&& is_idle(self.schedule)
        &&& self.runs_once()
    }

    /// A container that a strategy may make of the world and schedule it was
    /// handed.
    pub open spec fn wraps(self, world: World, schedule: Schedule) -> bool {
        &&& self.world == world
        &&& self.schedule == schedule
        &&& self.runs_once()
    }

    /// `after` is this container one tick later: its schedule and world are an
    /// outcome of one pass over this one's, and the strategy is the same.
    pub open spec fn ticked(self, after: App) -> bool {
        &&& pass_outcome(self.schedule, self.world, after.schedule, after.world)
        &&& after.runner == self.runner
    }

    /// A builder around a fresh container.
    pub fn build() -> (builder: AppBuilder)
        ensures
            builder.app.is_fresh(),
    {
        AppBuilder::default()
    }

    /// The container that stands for a world and schedule once they have been
    /// handed to a strategy: the default strategy fills the slot.
    pub fn from_parts(world: World, schedule: Schedule) -> (app: App)
        ensures
            app.wraps(world, schedule),
    {
        App { world, schedule, runner: Box::new(RunOnce) }
    }

    /// Advances the container by one tick: one pass of the schedule over the
    /// world. Whatever the systems do to the world and to the resources in it
    /// is there afterwards; the strategy slot is not touched.
    pub fn update(&mut self)
        requires
            pass_returns(old(self).schedule, old(self).world),
        ensures
            old(self).ticked(*final(self)),
    {
        run_schedule(&mut self.schedule, &mut self.world);
    }

    /// Hands the container to its strategy. The container is taken apart: the
    /// strategy leaves the slot and receives the world and the schedule, and
    /// the caller keeps nothing.
    pub fn run(self)
        requires
            self.runner.accepts(self.world, self.schedule),
        ensures
            self.runner.completed(self.world, self.schedule),
    {
        let App { world, schedule, runner } = self;
        runner.invoke(world, schedule);
    }
}

impl Default for App {
    /// A fresh container.
    fn default() -> (app: App)
        ensures
            app.is_fresh(),
    {
        App { world: new_world(), schedule: new_schedule(), runner: Box::new(RunOnce) }
    }
}

/// An event that indicates the app should exit.
#[derive(Debug, Clone)]
pub struct AppExit;

} // verus!

//! The boundary with the entity-component-system engine.
//!
//! The engine's world and schedule are opaque here: nothing in this crate
//! looks inside them. What the contracts need to say about them is said
//! through a handful of names, and the three engine calls that the container
//! makes each stand in one function whose contract is taken on trust from the
//! engine's source.

use bevy_ecs::schedule::{Schedule, Stage};
use bevy_ecs::world::World;
use vstd::prelude::*;

verus! {

/// `bevy_ecs::world::World`: the store of entities, their components and the
/// resources. Carried through as an opaque value.
#[verifier::external_type_specification]
#[verifier::external_body]
pub struct ExWorld(World);

/// `bevy_ecs::schedule::Schedule`: the ordered stages of systems. Carried
/// through as an opaque value.
#[verifier::external_type_specification]
#[verifier::external_body]
pub struct ExSchedule(Schedule);

/// The number of entities in a world: what `world.entities().len()` reports.
pub uninterp spec fn entity_count(world: World) -> nat;

/// The number of resources in a world's resource table: what
/// `world.archetypes().resource().unique_components().len()` reports.
pub uninterp spec fn resource_count(world: World) -> nat;

/// The number of stages in a schedule: how many items
/// `schedule.iter_stages()` yields.
pub uninterp spec fn stage_count(schedule: Schedule) -> nat;

/// Whether one pass of `schedule` over `world` is sure to come back: no
/// system and no run criterion in it panics, and the schedule's run criterion
/// does not ask for another round forever.
pub uninterp spec fn pass_returns(schedule: Schedule, world: World) -> bool;

/// Whether one pass of `schedule` over `world` can leave the two as
/// `schedule_after` and `world_after`. Systems are free to read the clock or
/// to run side by side, so a pass may have more than one outcome.
pub uninterp spec fn pass_outcome(
    schedule: Schedule,
    world: World,
    schedule_after: Schedule,
    world_after: World,
) -> bool;

/// A schedule on which every pass comes back and changes nothing, whatever
/// the world.
pub open spec fn is_idle(schedule: Schedule) -> bool {
    &&& forall|world: World| #[trigger] pass_returns(schedule, world)
    &&& forall|world: World, schedule_after: Schedule, world_after: World| #[trigger]
        pass_outcome(schedule, world, schedule_after, world_after) ==> schedule_after == schedule
            && world_after == world
}

/// Calls `World::default`, which is what `World::new` returns.
///
/// Trusted: the new world holds no entity and no resource. Its identifier is
/// drawn at random, so nothing more is said of it.
#[verifier::external_body]
pub(crate) fn new_world() -> (world: World)
    ensures
        entity_count(world) == 0,
        resource_count(world) == 0,
{
    World::default()
}

/// Calls `Schedule::default`.
///
/// Trusted: the new schedule has no stage and no run criterion, so a pass of
/// it over any world walks an empty list of stages: it comes back, and leaves
/// schedule and world as they were.
#[verifier::external_body]
pub(crate) fn new_schedule() -> (schedule: Schedule)
    ensures
        stage_count(schedule) == 0,
        forall|world: World| #[trigger] pass_returns(schedule, world),
        forall|world: World, schedule_after: Schedule, world_after: World| #[trigger]
            pass_outcome(schedule, world, schedule_after, world_after) ==> schedule_after
                == schedule && world_after == world,
{
    Schedule::default()
}

/// Calls `Stage::run` on a `Schedule`: one pass of every stage, in order,
/// over the world, as often as the schedule's run criterion asks.
///
/// Trusted: what the pass leaves behind is one of its outcomes. The engine
/// panics where a system or a run criterion does; `requires` leaves those
/// schedules and worlds out.
#[verifier::external_body]
pub(crate) fn run_schedule(schedule: &mut Schedule, world: &mut World)
    requires
        pass_returns(*old(schedule), *old(world)),
    ensures
        pass_outcome(*old(schedule), *old(world), *final(schedule), *final(world)),
{
    schedule.run(world)
}

} // verus!

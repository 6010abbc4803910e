//! The builder that containers are configured with.

use crate::container::App;
use crate::strategy::FnStrategy;
use vstd::prelude::*;

verus! {

/// Configures an [`App`] step by step.
///
/// The container is a public field: stages, systems and resources are
/// registered with the engine's own calls on `app.schedule` and `app.world`.
pub struct AppBuilder {
    /// The container under construction.
    pub app: App,
}

impl AppBuilder {
    /// Replaces the strategy of the container with `run_fn`, which will be
    /// called with a container made of the world and the schedule.
    pub fn set_runner<F: Fn(App) + 'static>(&mut self, run_fn: F) -> (builder: &mut Self)
        ensures
            *final(builder) == *final(self),
            builder.app.world == old(self).app.world,
            builder.app.schedule == old(self).app.schedule,
            builder.app.runs_fn(run_fn),
    {
        self.app.runner = Box::new(FnStrategy::new(run_fn));
        self
    }

    /// Runs the container that was built, leaving a fresh one in its place.
    pub fn run(&mut self)
        requires
            old(self).app.runner.accepts(old(self).app.world, old(self).app.schedule),
        ensures
            old(self).app.runner.completed(old(self).app.world, old(self).app.schedule),
            final(self).app.is_fresh(),
    {
        let mut app = App::default();
        std::mem::swap(&mut self.app, &mut app);
        app.run();
    }
}

impl Default for AppBuilder {
    /// A builder around a fresh container.
    fn default() -> (builder: AppBuilder)
        ensures
            builder.app.is_fresh(),
    {
        AppBuilder { app: App::default() }
    }
}

} // verus!

use vstd::prelude::*;

verus! {

use crate::DoryenAppBuilder;

/// The names of the render stages, in the order the render pass runs them.
#[derive(Clone, Copy, Debug, Eq, Hash, PartialEq, Structural)]
pub enum RenderStage {
    /// This stage runs before all the other stages.
    First,
    /// This stage runs right before the render stage.
    PreRender,
    /// This stage is where rendering should be done.
    Render,
    /// This stage runs right after the render stage.
    PostRender,
    /// This stage runs after all the other stages.
    Last,
}

/// A handle naming one render system.  Systems are opaque to the bridge: the
/// host-side driver keeps the executable systems keyed by these handles, and
/// the bridge only decides which handles run, and in what order.
#[derive(Clone, Copy, Debug, Eq, Hash, PartialEq, Structural)]
pub struct RenderSystemHandle(pub u64);

/// An ordered group of render systems registered as one unit.
#[derive(Debug)]
pub struct RenderSystemSet {
    /// The systems of the set, in the order they run.
    pub systems: Vec<RenderSystemHandle>,
}

/// The secondary render schedule: five fixed stages, each an ordered list of
/// system handles.  The stage order never changes; within a stage, systems
/// keep their insertion order.
#[derive(Debug)]
pub struct RenderSchedule {
    /// Systems of the `First` stage.
    pub first: Vec<RenderSystemHandle>,
    /// Systems of the `PreRender` stage.
    pub pre_render: Vec<RenderSystemHandle>,
    /// Systems of the `Render` stage.
    pub render: Vec<RenderSystemHandle>,
    /// Systems of the `PostRender` stage.
    pub post_render: Vec<RenderSystemHandle>,
    /// Systems of the `Last` stage.
    pub last: Vec<RenderSystemHandle>,
}

impl RenderSchedule {
    /// The systems registered in one stage, in insertion order.
    pub open spec fn stage_view(self, stage: RenderStage) -> Seq<RenderSystemHandle> {
        match stage {
            RenderStage::First => self.first@,
            RenderStage::PreRender => self.pre_render@,
            RenderStage::Render => self.render@,
            RenderStage::PostRender => self.post_render@,
            RenderStage::Last => self.last@,
        }
    }

    /// The order one render pass runs the registered systems in: the five
    /// stages in their fixed order, each in insertion order.
    pub open spec fn run_order_view(self) -> Seq<RenderSystemHandle> {
        self.first@ + self.pre_render@ + self.render@ + self.post_render@ + self.last@
    }

    /// An empty schedule with the five stages in place.
    pub fn new() -> (r: RenderSchedule)
        ensures
            forall|stage: RenderStage| #[trigger] r.stage_view(stage) == Seq::<
                RenderSystemHandle,
            >::empty(),
    {
        RenderSchedule {
            first: Vec::new(),
            pre_render: Vec::new(),
            render: Vec::new(),
            post_render: Vec::new(),
            last: Vec::new(),
        }
    }

    /// Append one system to the given stage, leaving every other stage as it
    /// was.
    pub fn add_system_to_stage(&mut self, stage: RenderStage, system: RenderSystemHandle)
        ensures
            final(self).stage_view(stage) == old(self).stage_view(stage).push(system),
            forall|other: RenderStage|
                other != stage ==> #[trigger] final(self).stage_view(other) == old(
                    self,
                ).stage_view(other),
    {
        match stage {
            RenderStage::First => self.first.push(system),
            RenderStage::PreRender => self.pre_render.push(system),
            RenderStage::Render => self.render.push(system),
            RenderStage::PostRender => self.post_render.push(system),
            RenderStage::Last => self.last.push(system),
        }
    }

    /// Append every system of the set, in set order, to the given stage.
    pub fn add_system_set_to_stage(&mut self, stage: RenderStage, set: &RenderSystemSet)
        ensures
            final(self).stage_view(stage) == old(self).stage_view(stage) + set.systems@,
            forall|other: RenderStage|
                other != stage ==> #[trigger] final(self).stage_view(other) == old(
                    self,
                ).stage_view(other),
    {
        let ghost start = self.stage_view(stage);
        let mut i: usize = 0;
        while i < set.systems.len()
            invariant
                0 <= i <= set.systems.len(),
                self.stage_view(stage) == start + set.systems@.take(i as int),
                forall|other: RenderStage|
                    other != stage ==> #[trigger] self.stage_view(other) == old(self).stage_view(
                        other,
                    ),
            decreases set.systems.len() - i,
        {
            self.add_system_to_stage(stage, set.systems[i]);
            proof {
                assert((start + set.systems@.take(i as int)).push(set.systems@[i as int]) =~= start
                    + set.systems@.take(i + 1));
            }
            i = i + 1;
        }
        proof {
            assert(start + set.systems@.take(set.systems@.len() as int) =~= start + set.systems@);
        }
    }

    /// The registered systems in the order one render pass runs them.
    pub fn run_order(&self) -> (r: Vec<RenderSystemHandle>)
        ensures
            r@ == self.run_order_view(),
    {
        let mut r: Vec<RenderSystemHandle> = Vec::new();
        push_all(&mut r, &self.first);
        push_all(&mut r, &self.pre_render);
        push_all(&mut r, &self.render);
        push_all(&mut r, &self.post_render);
        push_all(&mut r, &self.last);
        proof {
            assert(r@ =~= self.run_order_view());
        }
        r
    }
}

pub(crate) fn push_all(dst: &mut Vec<RenderSystemHandle>, src: &Vec<RenderSystemHandle>)
    ensures
        final(dst)@ == old(dst)@ + src@,
{
    let mut i: usize = 0;
    while i < src.len()
        invariant
            0 <= i <= src.len(),
            dst@ == old(dst)@ + src@.take(i as int),
        decreases src.len() - i,
    {
        dst.push(src[i]);
        proof {
            assert((old(dst)@ + src@.take(i as int)).push(src@[i as int]) =~= old(dst)@ + src@.take(
                i + 1,
            ));
        }
        i = i + 1;
    }
    proof {
        assert(old(dst)@ + src@.take(src@.len() as int) =~= old(dst)@ + src@);
    }
}

/// Stage order is fixed by construction: whatever was registered, and in
/// whatever order across stages, one render pass runs `First`, `PreRender`,
/// `Render`, `PostRender`, `Last`, keeping insertion order within each stage.
pub proof fn lemma_stage_order(s: RenderSchedule)
    ensures
        s.run_order_view() == s.stage_view(RenderStage::First) + s.stage_view(
            RenderStage::PreRender,
        ) + s.stage_view(RenderStage::Render) + s.stage_view(RenderStage::PostRender)
            + s.stage_view(RenderStage::Last),
{
}

/// The resource slot that owns the render schedule between passes.  The
/// schedule is checked out (taken, leaving the slot empty) for the duration
/// of one render pass and checked back in afterward, so a render-phase
/// system can never re-enter the same schedule.
#[derive(Debug)]
pub struct DoryenRenderSystems(pub Option<RenderSchedule>);

impl Default for DoryenRenderSystems {
    /// A slot holding an empty five-stage schedule.
    fn default() -> (r: Self)
        ensures
            is_initial_render_systems(r),
    {
        DoryenRenderSystems(Some(RenderSchedule::new()))
    }
}

/// A slot holding an empty five-stage schedule: the state the plugin
/// installs at startup.
pub open spec fn is_initial_render_systems(d: DoryenRenderSystems) -> bool {
    &&& d.0 is Some
    &&& forall|stage: RenderStage| #[trigger] d.0.unwrap().stage_view(stage) == Seq::<
        RenderSystemHandle,
    >::empty()
}

/// Render-state bookkeeping as the plugin installs it: flag set, so the
/// first render pass runs every driver once, and no driver registered yet.
pub open spec fn is_initial_render_state(st: RenderState) -> bool {
    &&& st.dirty == true
    &&& st.drivers@ == Seq::<RenderSystemHandle>::empty()
}

/// The drivers one render pass must invoke: every registered driver when the
/// dirty flag is set, none otherwise.
pub open spec fn drivers_due(st: RenderState) -> Seq<RenderSystemHandle> {
    if st.dirty {
        st.drivers@
    } else {
        Seq::empty()
    }
}

/// The render-state bookkeeping after one render pass: the dirty flag is
/// cleared, the registered drivers stay.
pub open spec fn after_render_pass(st: RenderState) -> RenderState {
    RenderState { dirty: false, drivers: st.drivers }
}

/// Render-state bookkeeping for state-machine driver systems.
///
/// Run criteria that track state transitions assume all their consumers live
/// in the host framework's own schedule; this bridge deliberately runs a
/// second schedule over the same state.  Whenever a host system performs a
/// state transition it must call [`RenderState::state_updated`]; the next
/// render pass then invokes every registered driver callback once, so the
/// drivers' run-criteria bookkeeping is re-evaluated fully, and clears the
/// flag.  Without that call, driver-dependent render systems observe stale
/// run criteria.
#[derive(Debug)]
pub struct RenderState {
    /// Whether a state transition happened since the last render pass.
    pub dirty: bool,
    /// The registered driver callbacks, named by handle.
    pub drivers: Vec<RenderSystemHandle>,
}

impl RenderState {
    /// Call this whenever a state transition is performed, so the next
    /// render pass re-runs every registered driver callback.
    pub fn state_updated(&mut self)
        ensures
            final(self).dirty == true,
            final(self).drivers == old(self).drivers,
    {
        self.dirty = true;
    }

    /// Register one driver callback, to be invoked by every render pass that
    /// finds the dirty flag set.
    pub fn add_driver(&mut self, driver: RenderSystemHandle)
        ensures
            final(self).dirty == old(self).dirty,
            final(self).drivers@ == old(self).drivers@.push(driver),
    {
        self.drivers.push(driver);
    }
}

impl Default for RenderState {
    /// The flag starts set, so the first render pass runs every driver once.
    fn default() -> (r: Self)
        ensures
            is_initial_render_state(r),
    {
        RenderState { dirty: true, drivers: Vec::new() }
    }
}

/// Setting the dirty flag makes the next render pass due to run every
/// registered driver exactly once; the pass clears the flag, so a second
/// pass without a new transition runs none.
pub proof fn lemma_drivers_run_once_per_transition(st: RenderState)
    ensures
        drivers_due(RenderState { dirty: true, drivers: st.drivers }) == st.drivers@,
        drivers_due(
            after_render_pass(RenderState { dirty: true, drivers: st.drivers }),
        ) == Seq::<RenderSystemHandle>::empty(),
        after_render_pass(RenderState { dirty: true, drivers: st.drivers }).drivers == st.drivers,
{
}

/// Adds methods to the [`DoryenAppBuilder`] for adding systems to the
/// render schedule.
pub trait RenderSystemExtensions: Sized {
    /// The systems registered in one stage of the render schedule.
    spec fn render_stage_view(&self, stage: RenderStage) -> Seq<RenderSystemHandle>;

    /// Whether the render schedule sits in its slot.
    spec fn render_schedule_present(&self) -> bool;

    /// The registered state-driver handles.
    spec fn render_drivers_view(&self) -> Seq<RenderSystemHandle>;

    /// Adds a system to the [`RenderStage::Render`] stage of the render
    /// schedule.
    fn add_doryen_render_system(&mut self, system: RenderSystemHandle) -> (r: &mut Self)
        requires
            old(self).render_schedule_present(),
        ensures
            (*r).render_schedule_present(),
            (*r).render_stage_view(RenderStage::Render) == old(self).render_stage_view(
                RenderStage::Render,
            ).push(system),
            forall|other: RenderStage|
                other != RenderStage::Render ==> #[trigger] (*r).render_stage_view(other)
                    == old(self).render_stage_view(other),
            (*r).render_drivers_view() == old(self).render_drivers_view(),
            *final(self) == *final(r),
    ;

    /// Adds a system to the given stage of the render schedule.
    fn add_doryen_render_system_to_stage(&mut self, stage: RenderStage, system: RenderSystemHandle)
        -> (r: &mut Self)
        requires
            old(self).render_schedule_present(),
        ensures
            (*r).render_schedule_present(),
            (*r).render_stage_view(stage) == old(self).render_stage_view(stage).push(
                system,
            ),
            forall|other: RenderStage|
                other != stage ==> #[trigger] (*r).render_stage_view(other) == old(
                    self,
                ).render_stage_view(other),
            (*r).render_drivers_view() == old(self).render_drivers_view(),
            *final(self) == *final(r),
    ;

    /// Adds a system set to the [`RenderStage::Render`] stage of the render
    /// schedule.
    fn add_doryen_render_system_set(&mut self, system_set: &RenderSystemSet) -> (r: &mut Self)
        requires
            old(self).render_schedule_present(),
        ensures
            (*r).render_schedule_present(),
            (*r).render_stage_view(RenderStage::Render) == old(self).render_stage_view(
                RenderStage::Render,
            ) + system_set.systems@,
            forall|other: RenderStage|
                other != RenderStage::Render ==> #[trigger] (*r).render_stage_view(other)
                    == old(self).render_stage_view(other),
            (*r).render_drivers_view() == old(self).render_drivers_view(),
            *final(self) == *final(r),
    ;

    /// Adds a system set to the given stage of the render schedule.
    fn add_doryen_render_system_set_to_stage(
        &mut self,
        stage: RenderStage,
        system_set: &RenderSystemSet,
    ) -> (r: &mut Self)
        requires
            old(self).render_schedule_present(),
        ensures
            (*r).render_schedule_present(),
            (*r).render_stage_view(stage) == old(self).render_stage_view(stage)
                + system_set.systems@,
            forall|other: RenderStage|
                other != stage ==> #[trigger] (*r).render_stage_view(other) == old(
                    self,
                ).render_stage_view(other),
            (*r).render_drivers_view() == old(self).render_drivers_view(),
            *final(self) == *final(r),
    ;

    /// Adds a state-machine driver to the render schedule: registers the
    /// driver callback, so that a render pass after a state transition
    /// re-evaluates the state's run criteria, and appends the driver system
    /// to the [`RenderStage::Render`] stage, ahead of the state-dependent
    /// sets added after it.
    fn add_doryen_render_state(&mut self, driver: RenderSystemHandle) -> (r: &mut Self)
        requires
            old(self).render_schedule_present(),
        ensures
            (*r).render_schedule_present(),
            (*r).render_drivers_view() == old(self).render_drivers_view().push(driver),
            (*r).render_stage_view(RenderStage::Render) == old(self).render_stage_view(
                RenderStage::Render,
            ).push(driver),
            forall|other: RenderStage|
                other != RenderStage::Render ==> #[trigger] (*r).render_stage_view(other)
                    == old(self).render_stage_view(other),
            *final(self) == *final(r),
    ;
}

impl RenderSystemExtensions for DoryenAppBuilder {
    open spec fn render_stage_view(&self, stage: RenderStage) -> Seq<RenderSystemHandle> {
        self.render_systems.0.unwrap().stage_view(stage)
    }

    open spec fn render_schedule_present(&self) -> bool {
        self.render_systems.0 is Some
    }

    open spec fn render_drivers_view(&self) -> Seq<RenderSystemHandle> {
        self.render_state.drivers@
    }

    fn add_doryen_render_system(&mut self, system: RenderSystemHandle) -> (r: &mut Self) {
        self.add_doryen_render_system_to_stage(RenderStage::Render, system)
    }

    fn add_doryen_render_system_to_stage(
        &mut self,
        stage: RenderStage,
        system: RenderSystemHandle,
    ) -> (r: &mut Self) {
        match &mut self.render_systems.0 {
            Some(schedule) => schedule.add_system_to_stage(stage, system),
            None => {
                proof {
                    assert(false);
                }
            },
        }
        self
    }

    fn add_doryen_render_system_set(&mut self, system_set: &RenderSystemSet) -> (r: &mut Self) {
        self.add_doryen_render_system_set_to_stage(RenderStage::Render, system_set)
    }

    fn add_doryen_render_system_set_to_stage(
        &mut self,
        stage: RenderStage,
        system_set: &RenderSystemSet,
    ) -> (r: &mut Self) {
        match &mut self.render_systems.0 {
            Some(schedule) => schedule.add_system_set_to_stage(stage, system_set),
            None => {
                proof {
                    assert(false);
                }
            },
        }
        self
    }

    fn add_doryen_render_state(&mut self, driver: RenderSystemHandle) -> (r: &mut Self) {
        self.render_state.add_driver(driver);
        self.add_doryen_render_system_to_stage(RenderStage::Render, driver)
    }
}

} // verus!

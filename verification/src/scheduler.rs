//! Per-tick dispatch state machine.
//!
//! Each compute phase (heightmap synthesis, shadow derivation, erosion) has a
//! sticky status in {Update, Wait}. The two one-shot phases also carry an
//! "armed" bit that separates the tick where a trigger is observed from the
//! tick where the work fires: a trigger observed at tick T arms the phase at
//! T's decision stage and fires it exactly once at tick T+1, however many
//! ticks pass before the next trigger. The shadow phase additionally fires
//! whenever the heightmap phase fires, since a new heightmap invalidates the
//! shadows. The erosion phase is continuous: it fires on every tick whose
//! decision stage sees its status at Update.
//!
//! Trigger events are drained once per tick, in arrival order, before the
//! decision stage; several same-kind events in one tick collapse to a single
//! status flip.

use vstd::prelude::*;

verus! {

/// Sticky status of the heightmap (fractal noise) phase.
#[derive(Clone, Copy, Debug, PartialEq, Eq, Structural)]
pub enum MountainGenerateFBMStatus {
    Update,
    Wait,
}

impl Default for MountainGenerateFBMStatus {
    /// The heightmap phase starts due, so the first ticks produce a terrain.
    fn default() -> (r: Self)
        ensures
            r is Update,
    {
        MountainGenerateFBMStatus::Update
    }
}

/// Sticky status of the shadow derivation phase.
#[derive(Clone, Copy, Debug, PartialEq, Eq, Structural)]
pub enum MountainGenerateShadowStatus {
    Update,
    Wait,
}

impl Default for MountainGenerateShadowStatus {
    /// The shadow phase starts due as well.
    fn default() -> (r: Self)
        ensures
            r is Update,
    {
        MountainGenerateShadowStatus::Update
    }
}

/// Sticky status of the continuous erosion phase.
#[derive(Clone, Copy, Debug, PartialEq, Eq, Structural)]
pub enum MountainErosionStatus {
    Update,
    Wait,
}

impl Default for MountainErosionStatus {
    /// Erosion starts idle until explicitly started.
    fn default() -> (r: Self)
        ensures
            r is Wait,
    {
        MountainErosionStatus::Wait
    }
}

/// Trigger event: regenerate the heightmap.
#[derive(Clone, Copy, Debug)]
pub struct RegenerateMountain;

/// Trigger event: recompute the shadow field.
#[derive(Clone, Copy, Debug)]
pub struct RegenerateShadows;

/// Sticky status of the snapshot-export preparation step.
#[derive(Clone, Copy, Debug, PartialEq, Eq, Structural)]
pub enum MountainPrepareWriteStatus {
    Update,
    Wait,
}

impl Default for MountainPrepareWriteStatus {
    /// No snapshot is due until one is requested.
    fn default() -> (r: Self)
        ensures
            r is Wait,
    {
        MountainPrepareWriteStatus::Wait
    }
}

/// Trigger event: prepare the current grids for a snapshot write.
#[derive(Clone, Copy, Debug)]
pub struct PrepareWriteCompute;

/// Trigger events steering the continuous erosion phase.
#[derive(Clone, Copy, Debug, PartialEq, Eq, Structural)]
pub enum MountainErosionTrigger {
    Start,
    Stop,
    Toggle,
}

/// Status of the heightmap phase after its event queue is drained: any event
/// flips it to Update, none leaves it alone.
pub open spec fn fbm_status_after(
    s: MountainGenerateFBMStatus,
    any_event: bool,
) -> MountainGenerateFBMStatus {
    if any_event {
        MountainGenerateFBMStatus::Update
    } else {
        s
    }
}

/// Status of the shadow phase after its event queue is drained.
pub open spec fn shadow_status_after(
    s: MountainGenerateShadowStatus,
    any_event: bool,
) -> MountainGenerateShadowStatus {
    if any_event {
        MountainGenerateShadowStatus::Update
    } else {
        s
    }
}

/// Effect of one erosion trigger, evaluated against the status at the moment
/// the event is consumed.
pub open spec fn apply_erosion_trigger(
    s: MountainErosionStatus,
    ev: MountainErosionTrigger,
) -> MountainErosionStatus {
    match ev {
        MountainErosionTrigger::Start => MountainErosionStatus::Update,
        MountainErosionTrigger::Stop => MountainErosionStatus::Wait,
        MountainErosionTrigger::Toggle => if s is Wait {
            MountainErosionStatus::Update
        } else {
            MountainErosionStatus::Wait
        },
    }
}

/// Status of the erosion phase after its event queue is drained in arrival
/// order.
pub open spec fn erosion_status_after(
    s: MountainErosionStatus,
    evs: Seq<MountainErosionTrigger>,
) -> MountainErosionStatus
    decreases evs.len(),
{
    if evs.len() == 0 {
        s
    } else {
        erosion_status_after(apply_erosion_trigger(s, evs[0]), evs.subrange(1, evs.len() as int))
    }
}

/// Drains the heightmap trigger queue: any queued event sets the status to
/// Update; multiple events in one tick collapse.
pub fn update_generate_fbm_status(
    events: &Vec<RegenerateMountain>,
    status: &mut MountainGenerateFBMStatus,
)
    ensures
        *final(status) == fbm_status_after(*old(status), events@.len() > 0),
{
    let mut i: usize = 0;
    while i < events.len()
        invariant
            *status == fbm_status_after(*old(status), i > 0),
            i <= events@.len(),
        decreases events@.len() - i,
    {
        *status = MountainGenerateFBMStatus::Update;
        i = i + 1;
    }
}

/// Drains the shadow trigger queue, as for the heightmap phase.
pub fn update_generate_shadow_status(
    events: &Vec<RegenerateShadows>,
    status: &mut MountainGenerateShadowStatus,
)
    ensures
        *final(status) == shadow_status_after(*old(status), events@.len() > 0),
{
    let mut i: usize = 0;
    while i < events.len()
        invariant
            *status == shadow_status_after(*old(status), i > 0),
            i <= events@.len(),
        decreases events@.len() - i,
    {
        *status = MountainGenerateShadowStatus::Update;
        i = i + 1;
    }
}

/// Status of the snapshot-preparation step after its event queue is drained.
pub open spec fn prepare_write_status_after(
    s: MountainPrepareWriteStatus,
    any_event: bool,
) -> MountainPrepareWriteStatus {
    if any_event {
        MountainPrepareWriteStatus::Update
    } else {
        s
    }
}

/// Drains the snapshot-preparation trigger queue: any queued event sets the
/// status to Update.
pub fn update_prepare_write_status(
    events: &Vec<PrepareWriteCompute>,
    status: &mut MountainPrepareWriteStatus,
)
    ensures
        *final(status) == prepare_write_status_after(*old(status), events@.len() > 0),
{
    let mut i: usize = 0;
    while i < events.len()
        invariant
            *status == prepare_write_status_after(*old(status), i > 0),
            i <= events@.len(),
        decreases events@.len() - i,
    {
        *status = MountainPrepareWriteStatus::Update;
        i = i + 1;
    }
}

/// Drains the erosion trigger queue in arrival order; a toggle is evaluated
/// against the status at the time it is consumed.
pub fn update_erosion_status(
    events: &Vec<MountainErosionTrigger>,
    status: &mut MountainErosionStatus,
)
    ensures
        *final(status) == erosion_status_after(*old(status), events@),
{
    let mut i: usize = 0;
    proof {
        assert(events@.subrange(0, events@.len() as int) =~= events@);
    }
    while i < events.len()
        invariant
            i <= events@.len(),
            erosion_status_after(*old(status), events@) == erosion_status_after(
                *status,
                events@.subrange(i as int, events@.len() as int),
            ),
        decreases events@.len() - i,
    {
        proof {
            let rest = events@.subrange(i as int, events@.len() as int);
            assert(rest[0] == events@[i as int]);
            assert(rest.subrange(1, rest.len() as int) =~= events@.subrange(
                i as int + 1,
                events@.len() as int,
            ));
        }
        match events[i] {
            MountainErosionTrigger::Start => {
                *status = MountainErosionStatus::Update;
            },
            MountainErosionTrigger::Stop => {
                *status = MountainErosionStatus::Wait;
            },
            MountainErosionTrigger::Toggle => {
                if *status == MountainErosionStatus::Wait {
                    *status = MountainErosionStatus::Update;
                } else {
                    *status = MountainErosionStatus::Wait;
                }
            },
        }
        i = i + 1;
    }
    proof {
        assert(events@.subrange(i as int, events@.len() as int) =~= Seq::<
            MountainErosionTrigger,
        >::empty());
    }
}

/// The decision a tick produces: which phases fire now.
#[derive(Clone, Copy, Debug, PartialEq, Eq, Structural)]
pub struct TickDecision {
    pub run_fbm: bool,
    pub run_shadow: bool,
    pub run_erosion: bool,
}

/// The latch bits of the decision stage: one armed bit per one-shot phase,
/// and a mirror of whether erosion ran on the last decision.
#[derive(Clone, Copy, Debug, PartialEq, Eq, Structural)]
pub struct MountainComputeNode {
    pub generate_fbm: bool,
    pub generate_shadow: bool,
    pub enable_erosion: bool,
}

impl Default for MountainComputeNode {
    /// No phase is armed before the first tick.
    fn default() -> (r: Self)
        ensures
            !r.generate_fbm,
            !r.generate_shadow,
            !r.enable_erosion,
    {
        MountainComputeNode { generate_fbm: false, generate_shadow: false, enable_erosion: false }
    }
}

/// A one-shot phase arms when its status is Update and it is not yet armed.
pub open spec fn one_shot_arms(status_update: bool, armed: bool) -> bool {
    status_update && !armed
}

/// A one-shot phase fires when its status is Update and it was armed on the
/// previous tick; firing flips the status back to Wait and clears the bit.
pub open spec fn one_shot_fires(status_update: bool, armed: bool) -> bool {
    status_update && armed
}

impl MountainComputeNode {
    /// Decision stage of one tick. For each one-shot phase: a status of
    /// Update first arms the phase (no fire), and fires it on the next
    /// decision, flipping the status back to Wait — exactly one fire per
    /// trigger, one tick after the trigger was observed. The shadow pass also
    /// runs whenever the heightmap fires; erosion runs exactly when its
    /// status is Update.
    pub fn update(
        &mut self,
        fbm_status: &mut MountainGenerateFBMStatus,
        shadow_status: &mut MountainGenerateShadowStatus,
        erosion_status: &MountainErosionStatus,
    ) -> (d: TickDecision)
        ensures
            d.run_fbm == one_shot_fires(*old(fbm_status) is Update, old(self).generate_fbm),
            d.run_shadow == (d.run_fbm || one_shot_fires(
                *old(shadow_status) is Update,
                old(self).generate_shadow,
            )),
            d.run_erosion == (*erosion_status is Update),
            final(self).generate_fbm == one_shot_arms(
                *old(fbm_status) is Update,
                old(self).generate_fbm,
            ),
            final(self).generate_shadow == one_shot_arms(
                *old(shadow_status) is Update,
                old(self).generate_shadow,
            ),
            final(self).enable_erosion == (*erosion_status is Update),
            *final(fbm_status) is Update == one_shot_arms(
                *old(fbm_status) is Update,
                old(self).generate_fbm,
            ),
            *final(shadow_status) is Update == one_shot_arms(
                *old(shadow_status) is Update,
                old(self).generate_shadow,
            ),
    {
        self.enable_erosion = *erosion_status == MountainErosionStatus::Update;
        let run_erosion = self.enable_erosion;

        let mut run_fbm = false;
        if *fbm_status == MountainGenerateFBMStatus::Update {
            if self.generate_fbm {
                run_fbm = true;
                *fbm_status = MountainGenerateFBMStatus::Wait;
                self.generate_fbm = false;
            } else {
                self.generate_fbm = true;
            }
        } else {
            self.generate_fbm = false;
        }

        let mut shadow_fired = false;
        if *shadow_status == MountainGenerateShadowStatus::Update {
            if self.generate_shadow {
                shadow_fired = true;
                *shadow_status = MountainGenerateShadowStatus::Wait;
                self.generate_shadow = false;
            } else {
                self.generate_shadow = true;
            }
        } else {
            self.generate_shadow = false;
        }

        TickDecision { run_fbm, run_shadow: run_fbm || shadow_fired, run_erosion }
    }
}

/// The whole scheduler: the three sticky statuses and the latch bits.
#[derive(Clone, Copy, Debug, PartialEq, Eq, Structural)]
pub struct DispatchScheduler {
    pub fbm_status: MountainGenerateFBMStatus,
    pub shadow_status: MountainGenerateShadowStatus,
    pub erosion_status: MountainErosionStatus,
    pub node: MountainComputeNode,
}

/// The events one tick observes. The one-shot phases only care whether any
/// event of their kind arrived; erosion consumes its queue in order.
pub struct TickInputs {
    pub regenerate_heightmap: bool,
    pub regenerate_shadow: bool,
    pub erosion_triggers: Seq<MountainErosionTrigger>,
}

/// The scheduler state at startup: both one-shot phases due (so the first
/// terrain appears without an explicit trigger), erosion idle, nothing armed.
pub open spec fn initial_scheduler() -> DispatchScheduler {
    DispatchScheduler {
        fbm_status: MountainGenerateFBMStatus::Update,
        shadow_status: MountainGenerateShadowStatus::Update,
        erosion_status: MountainErosionStatus::Wait,
        node: MountainComputeNode {
            generate_fbm: false,
            generate_shadow: false,
            enable_erosion: false,
        },
    }
}

/// The scheduler state after the observation stage of a tick.
pub open spec fn spec_observe(s: DispatchScheduler, inputs: TickInputs) -> DispatchScheduler {
    DispatchScheduler {
        fbm_status: fbm_status_after(s.fbm_status, inputs.regenerate_heightmap),
        shadow_status: shadow_status_after(s.shadow_status, inputs.regenerate_shadow),
        erosion_status: erosion_status_after(s.erosion_status, inputs.erosion_triggers),
        node: s.node,
    }
}

/// The decision the decision stage produces from an observed state.
pub open spec fn spec_decision(s: DispatchScheduler) -> TickDecision {
    TickDecision {
        run_fbm: one_shot_fires(s.fbm_status is Update, s.node.generate_fbm),
        run_shadow: one_shot_fires(s.fbm_status is Update, s.node.generate_fbm)
            || one_shot_fires(s.shadow_status is Update, s.node.generate_shadow),
        run_erosion: s.erosion_status is Update,
    }
}

/// The scheduler state after the decision stage.
pub open spec fn spec_decide_state(s: DispatchScheduler) -> DispatchScheduler {
    DispatchScheduler {
        fbm_status: if one_shot_arms(s.fbm_status is Update, s.node.generate_fbm) {
            MountainGenerateFBMStatus::Update
        } else {
            MountainGenerateFBMStatus::Wait
        },
        shadow_status: if one_shot_arms(s.shadow_status is Update, s.node.generate_shadow) {
            MountainGenerateShadowStatus::Update
        } else {
            MountainGenerateShadowStatus::Wait
        },
        erosion_status: s.erosion_status,
        node: MountainComputeNode {
            generate_fbm: one_shot_arms(s.fbm_status is Update, s.node.generate_fbm),
            generate_shadow: one_shot_arms(s.shadow_status is Update, s.node.generate_shadow),
            enable_erosion: s.erosion_status is Update,
        },
    }
}

/// State after a whole tick: observation, then decision.
pub open spec fn spec_tick_state(s: DispatchScheduler, inputs: TickInputs) -> DispatchScheduler {
    spec_decide_state(spec_observe(s, inputs))
}

/// Decision of a whole tick.
pub open spec fn spec_tick_decision(s: DispatchScheduler, inputs: TickInputs) -> TickDecision {
    spec_decision(spec_observe(s, inputs))
}

/// The decisions of a run of ticks, one per entry of `inputs`.
pub open spec fn run_schedule(s: DispatchScheduler, inputs: Seq<TickInputs>) -> Seq<TickDecision>
    decreases inputs.len(),
{
    if inputs.len() == 0 {
        Seq::empty()
    } else {
        seq![spec_tick_decision(s, inputs[0])] + run_schedule(
            spec_tick_state(s, inputs[0]),
            inputs.subrange(1, inputs.len() as int),
        )
    }
}

/// A run produces exactly one decision per tick.
pub proof fn lemma_run_schedule_len(s: DispatchScheduler, inputs: Seq<TickInputs>)
    ensures
        run_schedule(s, inputs).len() == inputs.len(),
    decreases inputs.len(),
{
    if inputs.len() > 0 {
        lemma_run_schedule_len(spec_tick_state(s, inputs[0]), inputs.subrange(
            1,
            inputs.len() as int,
        ));
    }
}

impl DispatchScheduler {
    /// The scheduler at startup.
    pub fn new() -> (s: Self)
        ensures
            s == initial_scheduler(),
    {
        DispatchScheduler {
            fbm_status: MountainGenerateFBMStatus::Update,
            shadow_status: MountainGenerateShadowStatus::Update,
            erosion_status: MountainErosionStatus::Wait,
            node: MountainComputeNode {
                generate_fbm: false,
                generate_shadow: false,
                enable_erosion: false,
            },
        }
    }

    /// Observation stage: drains this tick's trigger queues into the sticky
    /// statuses.
    pub fn observe(
        &mut self,
        regenerate_heightmap: &Vec<RegenerateMountain>,
        regenerate_shadows: &Vec<RegenerateShadows>,
        erosion_triggers: &Vec<MountainErosionTrigger>,
    )
        ensures
            *final(self) == spec_observe(
                *old(self),
                TickInputs {
                    regenerate_heightmap: regenerate_heightmap@.len() > 0,
                    regenerate_shadow: regenerate_shadows@.len() > 0,
                    erosion_triggers: erosion_triggers@,
                },
            ),
    {
        update_generate_fbm_status(regenerate_heightmap, &mut self.fbm_status);
        update_generate_shadow_status(regenerate_shadows, &mut self.shadow_status);
        update_erosion_status(erosion_triggers, &mut self.erosion_status);
    }

    /// Decision stage: advances the latch bits and says which phases fire
    /// this tick.
    pub fn decide(&mut self) -> (d: TickDecision)
        ensures
            *final(self) == spec_decide_state(*old(self)),
            d == spec_decision(*old(self)),
    {
        let mut fbm_status = self.fbm_status;
        let mut shadow_status = self.shadow_status;
        let d = self.node.update(&mut fbm_status, &mut shadow_status, &self.erosion_status);
        self.fbm_status = fbm_status;
        self.shadow_status = shadow_status;
        d
    }

    /// The heightmap phase is quiescent: nothing pending and nothing armed,
    /// so without a new trigger it can never fire.
    pub open spec fn fbm_quiescent(self) -> bool {
        self.fbm_status is Wait && !self.node.generate_fbm
    }

    /// One whole tick: observe the queued triggers, then decide.
    pub fn tick(
        &mut self,
        regenerate_heightmap: &Vec<RegenerateMountain>,
        regenerate_shadows: &Vec<RegenerateShadows>,
        erosion_triggers: &Vec<MountainErosionTrigger>,
    ) -> (d: TickDecision)
        ensures
            *final(self) == spec_tick_state(
                *old(self),
                TickInputs {
                    regenerate_heightmap: regenerate_heightmap@.len() > 0,
                    regenerate_shadow: regenerate_shadows@.len() > 0,
                    erosion_triggers: erosion_triggers@,
                },
            ),
            d == spec_tick_decision(
                *old(self),
                TickInputs {
                    regenerate_heightmap: regenerate_heightmap@.len() > 0,
                    regenerate_shadow: regenerate_shadows@.len() > 0,
                    erosion_triggers: erosion_triggers@,
                },
            ),
    {
        self.observe(regenerate_heightmap, regenerate_shadows, erosion_triggers);
        self.decide()
    }
}

/// While the heightmap phase is quiescent and no heightmap trigger arrives,
/// it never fires, and it stays quiescent.
pub proof fn lemma_heightmap_quiescent(s: DispatchScheduler, inputs: Seq<TickInputs>)
    requires
        s.fbm_quiescent(),
        forall|i: int| 0 <= i < inputs.len() ==> !inputs[i].regenerate_heightmap,
    ensures
        forall|i: int| 0 <= i < inputs.len() ==> !run_schedule(s, inputs)[i].run_fbm,
    decreases inputs.len(),
{
    lemma_run_schedule_len(s, inputs);
    if inputs.len() > 0 {
        let s1 = spec_tick_state(s, inputs[0]);
        let rest = inputs.subrange(1, inputs.len() as int);
        assert(s1.fbm_quiescent());
        lemma_heightmap_quiescent(s1, rest);
        assert forall|i: int| 0 <= i < inputs.len() implies !run_schedule(s, inputs)[i].run_fbm by {
            if i > 0 {
                assert(run_schedule(s, inputs)[i] == run_schedule(s1, rest)[i - 1]);
            }
        }
    }
}

/// A single heightmap trigger observed at the first tick makes the heightmap
/// phase fire exactly once, one tick later, and never again while no new
/// trigger arrives; the shadow pass runs on the same tick as that fire.
pub proof fn lemma_heightmap_trigger_fires_exactly_once(
    s: DispatchScheduler,
    inputs: Seq<TickInputs>,
)
    requires
        s.fbm_quiescent(),
        inputs.len() >= 2,
        inputs[0].regenerate_heightmap,
        forall|i: int| 1 <= i < inputs.len() ==> !inputs[i].regenerate_heightmap,
    ensures
        !run_schedule(s, inputs)[0].run_fbm,
        run_schedule(s, inputs)[1].run_fbm,
        run_schedule(s, inputs)[1].run_shadow,
        forall|i: int| 2 <= i < inputs.len() ==> !run_schedule(s, inputs)[i].run_fbm,
{
    lemma_run_schedule_len(s, inputs);
    let s1 = spec_tick_state(s, inputs[0]);
    let rest1 = inputs.subrange(1, inputs.len() as int);
    lemma_run_schedule_len(s1, rest1);

    // Tick 0 observes the trigger and arms the phase without firing.
    assert(!run_schedule(s, inputs)[0].run_fbm);
    assert(s1.fbm_status is Update && s1.node.generate_fbm);

    // Tick 1 fires the phase (and with it the shadow pass) and leaves it
    // quiescent.
    let s2 = spec_tick_state(s1, rest1[0]);
    let rest2 = rest1.subrange(1, rest1.len() as int);
    assert(run_schedule(s, inputs)[1] == run_schedule(s1, rest1)[0]);
    assert(run_schedule(s1, rest1)[0] == spec_tick_decision(s1, rest1[0]));
    assert(rest1[0] == inputs[1]);
    assert(spec_tick_decision(s1, inputs[1]).run_fbm);
    assert(spec_tick_decision(s1, inputs[1]).run_shadow);

    // From tick 2 on the phase is quiescent and never fires again.
    assert(s2.fbm_quiescent());
    assert forall|i: int| 0 <= i < rest2.len() implies !(#[trigger] rest2[i]).regenerate_heightmap by {
        assert(rest2[i] == inputs[i + 2]);
    }
    lemma_heightmap_quiescent(s2, rest2);
    assert forall|i: int| 2 <= i < inputs.len() implies !run_schedule(s, inputs)[i].run_fbm by {
        assert(run_schedule(s, inputs)[i] == run_schedule(s1, rest1)[i - 1]);
        assert(run_schedule(s1, rest1)[i - 1] == run_schedule(s2, rest2)[i - 2]);
        assert(rest2[i - 2] == inputs[i]);
    }
}

/// The shadow pass runs on every tick the heightmap fires, with or without
/// a shadow trigger of its own: a new heightmap invalidates the shadows.
pub proof fn lemma_shadow_fires_with_heightmap(s: DispatchScheduler)
    ensures
        spec_decision(s).run_fbm ==> spec_decision(s).run_shadow,
{
}

/// A queue of erosion triggers that keeps the phase on: only start events (or
/// none at all).
pub open spec fn only_start_triggers(evs: Seq<MountainErosionTrigger>) -> bool {
    forall|i: int| 0 <= i < evs.len() ==> evs[i] is Start
}

/// Draining a queue of start events (or none) from a running erosion phase
/// leaves it running.
pub proof fn lemma_erosion_stays_on(s: MountainErosionStatus, evs: Seq<MountainErosionTrigger>)
    requires
        s is Update,
        only_start_triggers(evs),
    ensures
        erosion_status_after(s, evs) is Update,
    decreases evs.len(),
{
    if evs.len() > 0 {
        let rest = evs.subrange(1, evs.len() as int);
        assert(only_start_triggers(rest)) by {
            assert(forall|i: int| 0 <= i < rest.len() ==> rest[i] == evs[i + 1]);
        }
        lemma_erosion_stays_on(apply_erosion_trigger(s, evs[0]), rest);
    }
}

/// Once the erosion phase is on, it fires on every tick until a stop or a
/// toggle-to-off is observed: while the queued triggers are only starts (or
/// none), every tick's decision runs erosion.
pub proof fn lemma_erosion_fires_until_stopped(s: DispatchScheduler, inputs: Seq<TickInputs>)
    requires
        s.erosion_status is Update,
        forall|i: int| 0 <= i < inputs.len() ==> only_start_triggers(
            #[trigger] inputs[i].erosion_triggers,
        ),
    ensures
        forall|i: int| 0 <= i < inputs.len() ==> run_schedule(s, inputs)[i].run_erosion,
    decreases inputs.len(),
{
    lemma_run_schedule_len(s, inputs);
    if inputs.len() > 0 {
        lemma_erosion_stays_on(s.erosion_status, inputs[0].erosion_triggers);
        let s1 = spec_tick_state(s, inputs[0]);
        let rest = inputs.subrange(1, inputs.len() as int);
        assert(s1.erosion_status is Update);
        assert(forall|i: int| 0 <= i < rest.len() ==> rest[i] == inputs[i + 1]);
        lemma_erosion_fires_until_stopped(s1, rest);
        assert forall|i: int| 0 <= i < inputs.len() implies run_schedule(
            s,
            inputs,
        )[i].run_erosion by {
            if i > 0 {
                assert(run_schedule(s, inputs)[i] == run_schedule(s1, rest)[i - 1]);
            }
        }
    }
}

} // verus!

//! The two plugins and what they register: which routines run once at
//! startup, which run in every frame, and which resources exist from the
//! start. The routines run in the order in which they were registered.

use crate::input::{handle_input, rising_edge, KeyTracker, PlayerInputs};
use crate::report::get_things_pos;
use crate::scene::{
    add_camera, add_cube, add_light, add_plane, camera, count_kind, cube, ground_plane,
    lemma_count_after_spawn, light, thing_positions, EntityKind, SceneEntity, Vec3, World,
};
use crate::timer::{elapsed_after, fires, DiagnosticTimer, NANOS_PER_SECOND};
use crate::window::{
    cursor_asserted, cursor_for, cursor_report, has_primary, present_mode_logged, toggle_cursor,
    toggle_vsync, vsync_toggled, CursorReport, PresentMode, Window,
};
use vstd::prelude::*;

verus! {

/// The period of the position report, in seconds.
pub const REPORT_PERIOD_SECONDS: u32 = 2;

/// A routine that runs once, at startup.
#[derive(Clone, Copy, Debug, PartialEq, Eq, Structural)]
pub enum StartupSystem {
    AddPlane,
    AddCamera,
    AddCube,
    AddLight,
}

/// A routine that runs in every frame.
#[derive(Clone, Copy, Debug, PartialEq, Eq, Structural)]
pub enum UpdateSystem {
    HandleInput,
    ToggleCursor,
    GetThingsPos,
    ToggleVsync,
}

/// A diagnostics overlay of the engine that is registered alongside.
#[derive(Clone, Copy, Debug, PartialEq, Eq, Structural)]
pub enum Overlay {
    LogDiagnostics,
    FrameTimeDiagnostics,
}

/// What the plugins have registered.
#[derive(Clone, Debug, PartialEq, Eq)]
pub struct Schedule {
    /// The startup routines, in the order of their registration.
    pub startup: Vec<StartupSystem>,
    /// The per-frame routines, in the order of their registration.
    pub update: Vec<UpdateSystem>,
    /// The overlays, in the order of their registration.
    pub overlays: Vec<Overlay>,
    /// The toggle flags as they are at the start, once they are inserted.
    pub inputs: Option<PlayerInputs>,
    /// The diagnostic timer as it is at the start, once it is inserted.
    pub timer: Option<DiagnosticTimer>,
}

/// The plugin that builds the scene and wires the toggles and the report.
#[derive(Clone, Copy, Debug, PartialEq, Eq, Structural)]
pub struct Setup;

/// The plugin that adds the diagnostics overlays and the vsync toggle.
#[derive(Clone, Copy, Debug, PartialEq, Eq, Structural)]
pub struct DebugStuff;

/// The startup routines of `Setup`, in the order of their registration.
pub open spec fn setup_startup() -> Seq<StartupSystem> {
    seq![
        StartupSystem::AddPlane,
        StartupSystem::AddCamera,
        StartupSystem::AddCube,
        StartupSystem::AddLight,
    ]
}

/// The per-frame routines of `Setup`, in the order of their registration.
pub open spec fn setup_update() -> Seq<UpdateSystem> {
    seq![UpdateSystem::HandleInput, UpdateSystem::ToggleCursor, UpdateSystem::GetThingsPos]
}

/// The overlays of `DebugStuff`, in the order of their registration.
pub open spec fn debug_overlays() -> Seq<Overlay> {
    seq![Overlay::LogDiagnostics, Overlay::FrameTimeDiagnostics]
}

impl Schedule {
    /// A schedule with nothing registered.
    pub fn new() -> (app: Schedule)
        ensures
            app.startup@ == Seq::<StartupSystem>::empty(),
            app.update@ == Seq::<UpdateSystem>::empty(),
            app.overlays@ == Seq::<Overlay>::empty(),
            app.inputs.is_none(),
            app.timer.is_none(),
    {
        Schedule {
            startup: Vec::new(),
            update: Vec::new(),
            overlays: Vec::new(),
            inputs: None,
            timer: None,
        }
    }

    /// The stage as it is before startup: an empty world, the given primary
    /// windows, the resources as they were inserted, and both trigger keys
    /// up. There is no stage while a resource is missing.
    pub fn stage(&self, windows: Vec<Window>) -> (stage: Option<Stage>)
        ensures
            stage.is_some() == (self.inputs.is_some() && self.timer.is_some()),
            stage matches Some(s) ==> s@ == (StageView {
                world: Seq::empty(),
                windows: windows@,
                inputs: self.inputs.unwrap(),
                period: self.timer.unwrap().period(),
                elapsed: self.timer.unwrap().elapsed(),
                lock_key: KeyTracker { down: false },
                vsync_key: KeyTracker { down: false },
            }),
    {
        match (self.inputs, self.timer) {
            (Some(inputs), Some(timer)) => Some(
                Stage {
                    world: World::new(),
                    windows,
                    inputs,
                    timer,
                    lock_key: KeyTracker::new(),
                    vsync_key: KeyTracker::new(),
                },
            ),
            _ => None,
        }
    }
}

impl Setup {
    /// Registers the four scene routines for startup, inserts the toggle
    /// flags with the cursor free and a timer at rest with the report's
    /// period, and registers the input handler, the cursor re-assertion and
    /// the position report for every frame.
    pub fn build(&self, app: &mut Schedule)
        ensures
            final(app).startup@ == old(app).startup@ + setup_startup(),
            final(app).update@ == old(app).update@ + setup_update(),
            final(app).overlays@ == old(app).overlays@,
            final(app).inputs == Some(PlayerInputs { mouse_locked: false }),
            final(app).timer matches Some(timer) && timer.period() == REPORT_PERIOD_SECONDS
                * NANOS_PER_SECOND && timer.elapsed() == 0,
    {
        app.startup.push(StartupSystem::AddPlane);
        app.startup.push(StartupSystem::AddCamera);
        app.startup.push(StartupSystem::AddCube);
        app.startup.push(StartupSystem::AddLight);
        app.inputs = Some(PlayerInputs::new());
        app.timer = DiagnosticTimer::from_seconds(REPORT_PERIOD_SECONDS);
        app.update.push(UpdateSystem::HandleInput);
        app.update.push(UpdateSystem::ToggleCursor);
        app.update.push(UpdateSystem::GetThingsPos);
    }
}

impl DebugStuff {
    /// Registers the two diagnostics overlays, and the vsync toggle for
    /// every frame.
    pub fn build(&self, app: &mut Schedule)
        ensures
            final(app).startup@ == old(app).startup@,
            final(app).update@ == old(app).update@.push(UpdateSystem::ToggleVsync),
            final(app).overlays@ == old(app).overlays@ + debug_overlays(),
            final(app).inputs == old(app).inputs,
            final(app).timer == old(app).timer,
    {
        app.overlays.push(Overlay::LogDiagnostics);
        app.overlays.push(Overlay::FrameTimeDiagnostics);
        app.update.push(UpdateSystem::ToggleVsync);
    }
}

/// The entity that a startup routine creates.
pub open spec fn spawned_by(system: StartupSystem) -> SceneEntity {
    match system {
        StartupSystem::AddPlane => ground_plane(),
        StartupSystem::AddCamera => camera(),
        StartupSystem::AddCube => cube(),
        StartupSystem::AddLight => light(),
    }
}

/// The entities that a run of startup routines creates, in order.
pub open spec fn spawned_by_all(systems: Seq<StartupSystem>) -> Seq<SceneEntity> {
    systems.map_values(|system: StartupSystem| spawned_by(system))
}

/// How often the routine that creates entities of `kind` occurs in `systems`.
pub open spec fn registrations(systems: Seq<StartupSystem>, kind: EntityKind) -> nat
    decreases systems.len(),
{
    if systems.len() == 0 {
        0
    } else if spawned_by(systems.last()).kind_of() == kind {
        registrations(systems.drop_last(), kind) + 1
    } else {
        registrations(systems.drop_last(), kind)
    }
}

/// Runs the startup routines in the order of their registration. Each adds
/// its one entity to the world.
pub fn run_startup(systems: &Vec<StartupSystem>, world: &mut World)
    ensures
        final(world)@ == old(world)@ + spawned_by_all(systems@),
{
    let mut i: usize = 0;
    while i < systems.len()
        invariant
            i <= systems.len(),
            world@ == old(world)@ + spawned_by_all(systems@.take(i as int)),
        decreases systems.len() - i,
    {
        proof {
            assert(systems@.take(i + 1) == systems@.take(i as int).push(systems@[i as int]));
        }
        match systems[i] {
            StartupSystem::AddPlane => add_plane(world),
            StartupSystem::AddCamera => add_camera(world),
            StartupSystem::AddCube => add_cube(world),
            StartupSystem::AddLight => add_light(world),
        }
        i = i + 1;
    }
    assert(systems@.take(i as int) == systems@);
}

/// What one frame brings in from outside: the time since the last frame and
/// the levels of the two trigger keys.
#[derive(Clone, Copy, Debug, PartialEq, Eq, Structural)]
pub struct Frame {
    pub delta_nanos: u64,
    /// Whether the key that toggles the cursor lock is down.
    pub lock_key_down: bool,
    /// Whether the key that toggles vsync is down.
    pub vsync_key_down: bool,
}

/// Everything that the per-frame routines read or change.
#[derive(Clone, Debug, PartialEq, Eq)]
pub struct Stage {
    pub world: World,
    /// The windows that are marked as primary.
    pub windows: Vec<Window>,
    pub inputs: PlayerInputs,
    pub timer: DiagnosticTimer,
    pub lock_key: KeyTracker,
    pub vsync_key: KeyTracker,
}

/// A stage as the contracts see it.
pub struct StageView {
    pub world: Seq<SceneEntity>,
    pub windows: Seq<Window>,
    pub inputs: PlayerInputs,
    pub period: nat,
    pub elapsed: nat,
    pub lock_key: KeyTracker,
    pub vsync_key: KeyTracker,
}

impl View for Stage {
    type V = StageView;

    open spec fn view(&self) -> StageView {
        StageView {
            world: self.world@,
            windows: self.windows@,
            inputs: self.inputs,
            period: self.timer.period(),
            elapsed: self.timer.elapsed(),
            lock_key: self.lock_key,
            vsync_key: self.vsync_key,
        }
    }
}

/// Something that a per-frame routine hands out to be logged.
#[derive(Clone, Debug, PartialEq, Eq)]
pub enum Effect {
    /// The position report of a completed period.
    Positions(Vec<Vec3>),
    /// The report of the cursor re-assertion.
    Cursor(CursorReport),
    /// The present mode that the vsync toggle has set.
    PresentMode(PresentMode),
}

/// An effect as the contracts see it.
pub enum EffectView {
    Positions(Seq<Vec3>),
    Cursor(CursorReport),
    PresentMode(PresentMode),
}

impl View for Effect {
    type V = EffectView;

    open spec fn view(&self) -> EffectView {
        match *self {
            Effect::Positions(positions) => EffectView::Positions(positions@),
            Effect::Cursor(report) => EffectView::Cursor(report),
            Effect::PresentMode(mode) => EffectView::PresentMode(mode),
        }
    }
}

/// The effects of a frame as the contracts see them.
pub open spec fn effect_views(effects: Seq<Effect>) -> Seq<EffectView> {
    effects.map_values(|effect: Effect| effect@)
}

/// The presses that a frame brings: whether each trigger key has gone down
/// since the frame before.
pub struct Presses {
    pub lock: bool,
    pub vsync: bool,
}

/// The stage after one per-frame routine has run.
pub open spec fn after_system(
    stage: StageView,
    system: UpdateSystem,
    presses: Presses,
    delta: nat,
) -> StageView {
    match system {
        UpdateSystem::HandleInput => StageView {
            inputs: PlayerInputs { mouse_locked: stage.inputs.mouse_locked != presses.lock },
            ..stage
        },
        UpdateSystem::ToggleCursor => StageView {
            windows: cursor_asserted(stage.windows, stage.inputs.mouse_locked),
            ..stage
        },
        UpdateSystem::GetThingsPos => StageView {
            elapsed: elapsed_after(stage.period, stage.elapsed, delta),
            ..stage
        },
        UpdateSystem::ToggleVsync => StageView {
            windows: if presses.vsync {
                vsync_toggled(stage.windows)
            } else {
                stage.windows
            },
            ..stage
        },
    }
}

/// What one per-frame routine hands out, run on `stage`.
pub open spec fn effect_of(
    stage: StageView,
    system: UpdateSystem,
    presses: Presses,
    delta: nat,
) -> Option<EffectView> {
    match system {
        UpdateSystem::HandleInput => None,
        UpdateSystem::ToggleCursor => Some(EffectView::Cursor(cursor_report(stage.windows))),
        UpdateSystem::GetThingsPos => if fires(stage.period, stage.elapsed, delta) {
            Some(EffectView::Positions(thing_positions(stage.world)))
        } else {
            None
        },
        UpdateSystem::ToggleVsync => match present_mode_logged(presses.vsync, stage.windows) {
            Some(mode) => Some(EffectView::PresentMode(mode)),
            None => None,
        },
    }
}

/// The stage after the routines of `systems` have run in order.
pub open spec fn after_systems(
    stage: StageView,
    systems: Seq<UpdateSystem>,
    presses: Presses,
    delta: nat,
) -> StageView
    decreases systems.len(),
{
    if systems.len() == 0 {
        stage
    } else {
        after_system(
            after_systems(stage, systems.drop_last(), presses, delta),
            systems.last(),
            presses,
            delta,
        )
    }
}

/// What the routines of `systems` hand out, run in order from `stage`.
pub open spec fn effects_of(
    stage: StageView,
    systems: Seq<UpdateSystem>,
    presses: Presses,
    delta: nat,
) -> Seq<EffectView>
    decreases systems.len(),
{
    if systems.len() == 0 {
        Seq::empty()
    } else {
        let earlier = effects_of(stage, systems.drop_last(), presses, delta);
        let before = after_systems(stage, systems.drop_last(), presses, delta);
        match effect_of(before, systems.last(), presses, delta) {
            Some(effect) => earlier.push(effect),
            None => earlier,
        }
    }
}

/// The presses that `frame` brings to `stage`.
pub open spec fn presses_of(stage: StageView, frame: Frame) -> Presses {
    Presses {
        lock: rising_edge(stage.lock_key.down, frame.lock_key_down),
        vsync: rising_edge(stage.vsync_key.down, frame.vsync_key_down),
    }
}

/// The stage once both trigger keys have been sampled for `frame`.
pub open spec fn sampled(stage: StageView, frame: Frame) -> StageView {
    StageView {
        lock_key: KeyTracker { down: frame.lock_key_down },
        vsync_key: KeyTracker { down: frame.vsync_key_down },
        ..stage
    }
}

/// Runs one per-frame routine and hands back what it hands out.
pub fn run_system(
    system: UpdateSystem,
    stage: &mut Stage,
    lock_pressed: bool,
    vsync_pressed: bool,
    delta_nanos: u64,
) -> (effect: Option<Effect>)
    ensures
        final(stage)@ == after_system(
            old(stage)@,
            system,
            Presses { lock: lock_pressed, vsync: vsync_pressed },
            delta_nanos as nat,
        ),
        (match effect {
            Some(e) => Some(e@),
            None => None,
        }) == effect_of(
            old(stage)@,
            system,
            Presses { lock: lock_pressed, vsync: vsync_pressed },
            delta_nanos as nat,
        ),
{
    match system {
        UpdateSystem::HandleInput => {
            handle_input(lock_pressed, &mut stage.inputs);
            None
        },
        UpdateSystem::ToggleCursor => {
            let report = toggle_cursor(&mut stage.windows, &stage.inputs);
            Some(Effect::Cursor(report))
        },
        UpdateSystem::GetThingsPos => {
            match get_things_pos(delta_nanos, &mut stage.timer, &stage.world) {
                Some(positions) => Some(Effect::Positions(positions)),
                None => None,
            }
        },
        UpdateSystem::ToggleVsync => {
            match toggle_vsync(vsync_pressed, &mut stage.windows) {
                Some(mode) => Some(Effect::PresentMode(mode)),
                None => None,
            }
        },
    }
}

/// Runs one frame: samples the two trigger keys, then runs the per-frame
/// routines in the order of their registration, and hands back what they
/// hand out, in that order.
pub fn run_frame(systems: &Vec<UpdateSystem>, stage: &mut Stage, frame: &Frame) -> (effects:
    Vec<Effect>)
    ensures
        final(stage)@ == after_systems(
            sampled(old(stage)@, *frame),
            systems@,
            presses_of(old(stage)@, *frame),
            frame.delta_nanos as nat,
        ),
        effect_views(effects@) == effects_of(
            sampled(old(stage)@, *frame),
            systems@,
            presses_of(old(stage)@, *frame),
            frame.delta_nanos as nat,
        ),
{
    let lock_pressed = stage.lock_key.sample(frame.lock_key_down);
    let vsync_pressed = stage.vsync_key.sample(frame.vsync_key_down);
    let ghost start = stage@;
    let ghost presses = Presses { lock: lock_pressed, vsync: vsync_pressed };
    let ghost delta = frame.delta_nanos as nat;
    let mut effects: Vec<Effect> = Vec::new();
    let mut i: usize = 0;
    assert(effect_views(effects@) == Seq::<EffectView>::empty());
    while i < systems.len()
        invariant
            i <= systems.len(),
            stage@ == after_systems(start, systems@.take(i as int), presses, delta),
            effect_views(effects@) == effects_of(start, systems@.take(i as int), presses, delta),
            presses == (Presses { lock: lock_pressed, vsync: vsync_pressed }),
            delta == frame.delta_nanos as nat,
        decreases systems.len() - i,
    {
        proof {
            assert(systems@.take(i + 1).drop_last() == systems@.take(i as int));
        }
        let ghost earlier = effects@;
        match run_system(systems[i], stage, lock_pressed, vsync_pressed, frame.delta_nanos) {
            Some(effect) => {
                effects.push(effect);
                proof {
                    earlier.lemma_push_map_commute(|e: Effect| e@, effect);
                }
            },
            None => {},
        }
        i = i + 1;
    }
    assert(systems@.take(i as int) == systems@);
    effects
}

/// A run of startup routines raises the count of each kind of entity by the
/// number of times that the routine for that kind is registered, in whatever
/// order the routines stand.
pub proof fn lemma_startup_counts(
    world: Seq<SceneEntity>,
    systems: Seq<StartupSystem>,
    kind: EntityKind,
)
    ensures
        count_kind(world + spawned_by_all(systems), kind) == count_kind(world, kind)
            + registrations(systems, kind),
    decreases systems.len(),
{
    if systems.len() == 0 {
        assert(world + spawned_by_all(systems) == world);
    } else {
        let earlier = systems.drop_last();
        lemma_startup_counts(world, earlier, kind);
        assert(world + spawned_by_all(systems) == (world + spawned_by_all(earlier)).push(
            spawned_by(systems.last()),
        ));
        lemma_count_after_spawn(
            world + spawned_by_all(earlier),
            spawned_by(systems.last()),
            kind,
        );
    }
}

/// The startup routines of `Setup`, run in any order on any world, add
/// exactly one plane, one cube, one camera and one light.
pub proof fn lemma_setup_adds_one_of_each(
    world: Seq<SceneEntity>,
    systems: Seq<StartupSystem>,
    kind: EntityKind,
)
    requires
        systems.to_multiset() == setup_startup().to_multiset(),
    ensures
        count_kind(world + spawned_by_all(systems), kind) == count_kind(world, kind) + 1,
{
    lemma_startup_counts(world, systems, kind);
    lemma_registrations_by_multiset(systems, kind);
    lemma_registrations_by_multiset(setup_startup(), kind);
    lemma_setup_registers_each_once(kind);
}

/// `Setup` registers the routine for each kind of entity once.
pub proof fn lemma_setup_registers_each_once(kind: EntityKind)
    ensures
        registrations(setup_startup(), kind) == 1,
{
    let four = setup_startup();
    let three = seq![StartupSystem::AddPlane, StartupSystem::AddCamera, StartupSystem::AddCube];
    let two = seq![StartupSystem::AddPlane, StartupSystem::AddCamera];
    let one = seq![StartupSystem::AddPlane];
    assert(four.drop_last() == three);
    assert(three.drop_last() == two);
    assert(two.drop_last() == one);
    assert(one.drop_last() == Seq::<StartupSystem>::empty());
    reveal_with_fuel(registrations, 5);
}

/// How often a routine is registered depends on which routines are
/// registered and how often, not on their order.
proof fn lemma_registrations_by_multiset(systems: Seq<StartupSystem>, kind: EntityKind)
    ensures
        registrations(systems, kind) == systems.to_multiset().filter(
            |system: StartupSystem| spawned_by(system).kind_of() == kind,
        ).len(),
    decreases systems.len(),
{
    let picked = |system: StartupSystem| spawned_by(system).kind_of() == kind;
    broadcast use vstd::seq_lib::group_to_multiset_ensures;

    if systems.len() == 0 {
        assert(systems.to_multiset() =~= vstd::multiset::Multiset::<StartupSystem>::empty());
        assert(systems.to_multiset().filter(picked) =~= vstd::multiset::Multiset::<
            StartupSystem,
        >::empty());
    } else {
        let earlier = systems.drop_last();
        lemma_registrations_by_multiset(earlier, kind);
        assert(earlier.push(systems.last()) == systems);
        assert(systems.to_multiset() == earlier.to_multiset().insert(systems.last()));
        if picked(systems.last()) {
            assert(systems.to_multiset().filter(picked) =~= earlier.to_multiset().filter(
                picked,
            ).insert(systems.last()));
        } else {
            assert(systems.to_multiset().filter(picked) =~= earlier.to_multiset().filter(picked));
        }
    }
}

/// Under the per-frame routines of `Setup`, a press of the lock key shows in
/// the cursor of the primary window within the same frame: after the frame
/// the flag is flipped exactly if the key went down, and the cursor is the
/// one that belongs to the flag.
pub proof fn lemma_press_reaches_cursor(stage: StageView, frame: Frame)
    requires
        has_primary(stage.windows),
    ensures
        ({
            let after = after_systems(
                sampled(stage, frame),
                setup_update(),
                presses_of(stage, frame),
                frame.delta_nanos as nat,
            );
            &&& after.inputs.mouse_locked == (stage.inputs.mouse_locked != rising_edge(
                stage.lock_key.down,
                frame.lock_key_down,
            ))
            &&& has_primary(after.windows)
            &&& after.windows[0].cursor == cursor_for(after.inputs.mouse_locked)
            &&& after.windows[0].present_mode == stage.windows[0].present_mode
            &&& after.world == stage.world
        }),
{
    let systems = setup_update();
    assert(systems.drop_last() == seq![UpdateSystem::HandleInput, UpdateSystem::ToggleCursor]);
    assert(systems.drop_last().drop_last() == seq![UpdateSystem::HandleInput]);
    assert(systems.drop_last().drop_last().drop_last() == Seq::<UpdateSystem>::empty());
    reveal_with_fuel(after_systems, 4);
}

} // verus!

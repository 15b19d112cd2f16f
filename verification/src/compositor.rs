//! Startup and the running stage.
//!
//! The compositor decides what the host does next: fetch the descriptor,
//! then load the image, then start the clock. The host performs each step
//! and reports how it went. Any failure abandons startup for good: no
//! animation ever starts on a stage that is only partly set up.

use vstd::prelude::*;
use crate::clock::{AnimationClock, AnimationState, ClockConfig, spec_tick_commands};
use crate::error::{FrameNotFound, LoadError, ParseError, StartupError};
use crate::geometry::Rect;
use crate::loader::Image;
use crate::sheet::{
    FrameEntry,
    SheetDescriptor,
    SpriteSheet,
    spec_first_duplicate,
    spec_frames,
    spec_lookup,
    spec_names_distinct,
};
use crate::surface::{DrawCommand, Surface};

verus! {

/// Everything the stage is set up with.
#[derive(Debug, PartialEq, Eq)]
pub struct StageConfig {
    /// Where the sheet descriptor is fetched from.
    pub descriptor_path: String,
    /// Where the sheet image is loaded from.
    pub image_path: String,
    /// What the clock draws, and where.
    pub clock: ClockConfig,
    /// The period of the ticks, in milliseconds.
    pub period_ms: u32,
}

impl StageConfig {
    /// The stage of the running sprite: eight frames called `Run`, drawn at
    /// (300, 300) on a canvas of 600 by 600 every 50 milliseconds.
    pub fn running_sprite() -> (config: StageConfig)
        ensures
            config.descriptor_path@ == "rhb.json"@,
            config.image_path@ == "rhb.png"@,
            config.clock.base_name@ == "Run"@,
            config.clock.frame_count == 8,
            config.clock.canvas == (Rect { x: 0, y: 0, w: 600, h: 600 }),
            config.clock.dst_x == 300,
            config.clock.dst_y == 300,
            config.period_ms == 50,
    {
        StageConfig {
            descriptor_path: String::from_str("rhb.json"),
            image_path: String::from_str("rhb.png"),
            clock: ClockConfig {
                base_name: String::from_str("Run"),
                frame_count: 8,
                canvas: Rect { x: 0, y: 0, w: 600, h: 600 },
                dst_x: 300,
                dst_y: 300,
            },
            period_ms: 50,
        }
    }
}

/// A stage that is fully set up: sheet, image, a running clock and the
/// surface it draws on.
pub struct Stage {
    sheet: SpriteSheet,
    image: Image,
    clock: AnimationClock,
    surface: Surface,
}

impl Stage {
    /// The frames of the sheet.
    pub closed spec fn sheet(&self) -> Map<Seq<char>, Rect> {
        self.sheet@
    }

    /// The image the frames are cut from.
    pub closed spec fn image(&self) -> Image {
        self.image
    }

    /// The clock that drives the stage.
    pub closed spec fn clock(&self) -> AnimationClock {
        self.clock
    }

    /// What was drawn and not yet handed to the host.
    pub closed spec fn surface(&self) -> Seq<DrawCommand> {
        self.surface@
    }

    /// The clock of the stage is well formed and runs.
    pub open spec fn wf(&self) -> bool {
        self.clock().wf() && self.clock().is_running()
    }

    /// The stage as it stands right after startup with `config`, `entries`
    /// and `image`: the sheet of the entries, a clock that was just started
    /// before its first frame, and nothing drawn yet.
    pub open spec fn spec_fresh(&self, config: StageConfig, entries: Seq<FrameEntry>, image: Image) -> bool {
        &&& self.sheet() == spec_frames(entries)
        &&& self.image() == image
        &&& self.surface() == Seq::<DrawCommand>::empty()
        &&& self.clock().is_running()
        &&& self.clock().period() == config.period_ms
        &&& self.clock().animation() == AnimationState::spec_initial(config.clock.frame_count)
        &&& self.clock().base() == config.clock.base_name@
        &&& self.clock().canvas() == config.clock.canvas
        &&& self.clock().destination() == (config.clock.dst_x, config.clock.dst_y)
    }

    /// One tick of the stage: the next frame is drawn on the stage's own
    /// surface. When the sheet lacks the frame, the canvas has been cleared
    /// and the error names the frame.
    pub fn tick(&mut self) -> (result: Result<(), FrameNotFound>)
        requires
            old(self).wf(),
        ensures
            final(self).wf(),
            final(self).sheet() == old(self).sheet(),
            final(self).image() == old(self).image(),
            final(self).clock().period() == old(self).clock().period(),
            final(self).clock().same_setup(&old(self).clock()),
            final(self).clock().animation() == old(self).clock().animation().spec_advance(),
            final(self).surface() == old(self).surface() + spec_tick_commands(
                old(self).sheet(),
                old(self).image(),
                final(self).clock().spec_visible_name(),
                old(self).clock().canvas(),
                old(self).clock().destination().0,
                old(self).clock().destination().1,
            ),
            match result {
                Ok(()) => spec_lookup(old(self).sheet(), final(self).clock().spec_visible_name())
                    is Some,
                Err(e) => spec_lookup(old(self).sheet(), final(self).clock().spec_visible_name())
                    is None && e.name@ == final(self).clock().spec_visible_name(),
            },
    {
        self.clock.tick(&self.sheet, &self.image, &mut self.surface)
    }

    /// Hands out what was drawn since the last call, oldest first, for the
    /// host to replay on its canvas.
    pub fn take_frame(&mut self) -> (list: Vec<DrawCommand>)
        ensures
            list@ == old(self).surface(),
            final(self).surface() == Seq::<DrawCommand>::empty(),
            final(self).sheet() == old(self).sheet(),
            final(self).image() == old(self).image(),
            final(self).clock() == old(self).clock(),
    {
        self.surface.drain()
    }
}

/// Where startup stands.
pub enum StartupState {
    /// Nothing was asked of the host yet.
    Idle,
    /// The host fetches the descriptor.
    FetchingDescriptor,
    /// The descriptor is here and the host loads the image.
    LoadingImage { descriptor: SheetDescriptor },
    /// Both are here and the clock runs.
    Running { stage: Stage },
    /// Startup was abandoned.
    Aborted { error: StartupError },
}

/// What the host reports.
pub enum StartupEvent {
    /// The program starts.
    Begin,
    /// The descriptor fetch ended.
    DescriptorFetched(Result<SheetDescriptor, StartupError>),
    /// The image load ended.
    ImageLoaded(Result<Image, LoadError>),
}

/// What the host is to do next.
#[derive(Clone, Copy, Debug, PartialEq, Eq, Structural)]
pub enum StartupAction {
    /// Fetch and parse the descriptor.
    FetchDescriptor,
    /// Load the image.
    LoadImage,
    /// Begin ticking at the configured period.
    StartClock,
    /// Emit the diagnostic and stop.
    Abort,
    /// Nothing: the report does not belong to the step that is under way.
    Ignore,
}

/// Startup without its data: how far it has come.
pub enum Progress {
    Idle,
    FetchingDescriptor,
    /// The image is loading; `well_formed` tells whether the descriptor that
    /// is held will make a sheet.
    LoadingImage { well_formed: bool },
    Running,
    Aborted,
}

/// A report without its data.
pub enum EventKind {
    Begin,
    /// The descriptor came; `well_formed` tells whether it will make a
    /// sheet.
    DescriptorArrived { well_formed: bool },
    DescriptorFailed,
    ImageArrived,
    ImageFailed,
}

/// How far `state` has come.
pub open spec fn spec_progress(state: StartupState) -> Progress {
    match state {
        StartupState::Idle => Progress::Idle,
        StartupState::FetchingDescriptor => Progress::FetchingDescriptor,
        StartupState::LoadingImage { descriptor } => Progress::LoadingImage {
            well_formed: spec_names_distinct(descriptor.frames@),
        },
        StartupState::Running { .. } => Progress::Running,
        StartupState::Aborted { .. } => Progress::Aborted,
    }
}

/// What kind of report `event` is.
pub open spec fn spec_kind(event: StartupEvent) -> EventKind {
    match event {
        StartupEvent::Begin => EventKind::Begin,
        StartupEvent::DescriptorFetched(Ok(descriptor)) => EventKind::DescriptorArrived {
            well_formed: spec_names_distinct(descriptor.frames@),
        },
        StartupEvent::DescriptorFetched(Err(_)) => EventKind::DescriptorFailed,
        StartupEvent::ImageLoaded(Ok(_)) => EventKind::ImageArrived,
        StartupEvent::ImageLoaded(Err(_)) => EventKind::ImageFailed,
    }
}

/// The step of startup: where a report leads, and what the host is to do.
/// A report that does not belong to the step under way changes nothing.
pub open spec fn spec_next(progress: Progress, event: EventKind) -> (Progress, StartupAction) {
    match (progress, event) {
        (Progress::Idle, EventKind::Begin) => (
            Progress::FetchingDescriptor,
            StartupAction::FetchDescriptor,
        ),
        (Progress::FetchingDescriptor, EventKind::DescriptorArrived { well_formed }) => (
            Progress::LoadingImage { well_formed },
            StartupAction::LoadImage,
        ),
        (Progress::FetchingDescriptor, EventKind::DescriptorFailed) => (
            Progress::Aborted,
            StartupAction::Abort,
        ),
        (Progress::LoadingImage { well_formed }, EventKind::ImageArrived) => if well_formed {
            (Progress::Running, StartupAction::StartClock)
        } else {
            (Progress::Aborted, StartupAction::Abort)
        },
        (Progress::LoadingImage { .. }, EventKind::ImageFailed) => (
            Progress::Aborted,
            StartupAction::Abort,
        ),
        _ => (progress, StartupAction::Ignore),
    }
}

/// Where startup stands after the reports `events`, taken in order.
pub open spec fn spec_progress_after(progress: Progress, events: Seq<EventKind>) -> Progress
    decreases events.len(),
{
    if events.len() == 0 {
        progress
    } else {
        spec_next(spec_progress_after(progress, events.drop_last()), events.last()).0
    }
}

/// What the host was told to do at each of the reports `events`, taken in
/// order.
pub open spec fn spec_trace(progress: Progress, events: Seq<EventKind>) -> Seq<StartupAction>
    decreases events.len(),
{
    if events.len() == 0 {
        Seq::empty()
    } else {
        spec_trace(progress, events.drop_last()).push(
            spec_next(spec_progress_after(progress, events.drop_last()), events.last()).1,
        )
    }
}

/// One action is issued for each report.
pub proof fn lemma_trace_len(progress: Progress, events: Seq<EventKind>)
    ensures
        spec_trace(progress, events).len() == events.len(),
    decreases events.len(),
{
    if events.len() > 0 {
        lemma_trace_len(progress, events.drop_last());
    }
}

/// Once startup is abandoned it stays abandoned, and every later report is
/// ignored.
pub proof fn lemma_aborted_is_final(events: Seq<EventKind>)
    ensures
        spec_progress_after(Progress::Aborted, events) == Progress::Aborted,
        spec_trace(Progress::Aborted, events).len() == events.len(),
        forall|i: int|
            0 <= i < events.len() ==> #[trigger] spec_trace(Progress::Aborted, events)[i]
                == StartupAction::Ignore,
    decreases events.len(),
{
    if events.len() > 0 {
        lemma_aborted_is_final(events.drop_last());
    }
}

/// Startup ordering: when the descriptor fetch fails, startup is abandoned
/// at once, and whatever is reported afterwards, the host is never told to
/// load the image nor to start the clock.
pub proof fn lemma_failed_fetch_never_loads(events: Seq<EventKind>)
    requires
        events.len() >= 1,
        events[0] == EventKind::DescriptorFailed,
    ensures
        spec_progress_after(Progress::FetchingDescriptor, events) == Progress::Aborted,
        spec_trace(Progress::FetchingDescriptor, events).len() == events.len(),
        spec_trace(Progress::FetchingDescriptor, events)[0] == StartupAction::Abort,
        forall|i: int|
            0 <= i < events.len() ==> {
                let action = #[trigger] spec_trace(Progress::FetchingDescriptor, events)[i];
                action != StartupAction::LoadImage && action != StartupAction::StartClock
            },
    decreases events.len(),
{
    let front = events.drop_last();
    if events.len() > 1 {
        assert(front[0] == events[0]);
        lemma_failed_fetch_never_loads(front);
    } else {
        assert(spec_progress_after(Progress::FetchingDescriptor, front)
            == Progress::FetchingDescriptor);
        assert(spec_trace(Progress::FetchingDescriptor, front).len() == 0);
        assert(events.last() == events[0]);
    }
}

/// Startup ordering, from the very start: after `Begin`, a failed descriptor
/// fetch abandons startup, and the host is never told to load the image nor
/// to start the clock, whatever is reported afterwards.
pub proof fn lemma_failed_fetch_never_loads_from_idle(events: Seq<EventKind>)
    requires
        events.len() >= 2,
        events[0] == EventKind::Begin,
        events[1] == EventKind::DescriptorFailed,
    ensures
        spec_progress_after(Progress::Idle, events) == Progress::Aborted,
        spec_trace(Progress::Idle, events).len() == events.len(),
        forall|i: int|
            0 <= i < events.len() ==> {
                let action = #[trigger] spec_trace(Progress::Idle, events)[i];
                action != StartupAction::LoadImage && action != StartupAction::StartClock
            },
    decreases events.len(),
{
    let front = events.drop_last();
    if events.len() > 2 {
        assert(front[0] == events[0] && front[1] == events[1]);
        lemma_failed_fetch_never_loads_from_idle(front);
    } else {
        let first = front.drop_last();
        assert(spec_progress_after(Progress::Idle, first) == Progress::Idle);
        assert(spec_trace(Progress::Idle, first).len() == 0);
        assert(front.last() == events[0]);
        assert(spec_progress_after(Progress::Idle, front) == Progress::FetchingDescriptor);
        assert(spec_trace(Progress::Idle, front) == seq![StartupAction::FetchDescriptor]);
        assert(events.last() == events[1]);
    }
}

/// No partial start: the clock is started only by the report of a loaded
/// image, and only while a descriptor that makes a sheet is held.
pub proof fn lemma_clock_starts_fully_set_up(progress: Progress, events: Seq<EventKind>, i: int)
    requires
        0 <= i < events.len(),
        spec_trace(progress, events).len() == events.len(),
        spec_trace(progress, events)[i] == StartupAction::StartClock,
    ensures
        events[i] == EventKind::ImageArrived,
        spec_progress_after(progress, events.take(i)) == (Progress::LoadingImage { well_formed: true }),
    decreases events.len(),
{
    let front = events.drop_last();
    if i == events.len() - 1 {
        assert(events.take(i) == front);
    } else {
        lemma_trace_len(progress, front);
        assert(front.take(i) == events.take(i));
        lemma_clock_starts_fully_set_up(progress, front, i);
    }
}

/// What `handle` does with the data: the state `after` and the `action` that
/// follow from the state `before` and the report `event`, under `config`.
pub open spec fn spec_handled(
    config: StageConfig,
    before: StartupState,
    event: StartupEvent,
    after: StartupState,
    action: StartupAction,
) -> bool {
    match (before, event) {
        (StartupState::Idle, StartupEvent::Begin) => {
            &&& after is FetchingDescriptor
            &&& action == StartupAction::FetchDescriptor
        },
        (StartupState::FetchingDescriptor, StartupEvent::DescriptorFetched(Ok(descriptor))) => {
            &&& after == (StartupState::LoadingImage { descriptor })
            &&& action == StartupAction::LoadImage
        },
        (StartupState::FetchingDescriptor, StartupEvent::DescriptorFetched(Err(error))) => {
            &&& after == (StartupState::Aborted { error })
            &&& action == StartupAction::Abort
        },
        (StartupState::LoadingImage { descriptor }, StartupEvent::ImageLoaded(Ok(image))) => {
            if spec_names_distinct(descriptor.frames@) {
                &&& after matches StartupState::Running { stage }
                &&& stage.spec_fresh(config, descriptor.frames@, image)
                &&& action == StartupAction::StartClock
            } else {
                &&& exists|j: int|
                    #![trigger descriptor.frames@[j]]
                    spec_first_duplicate(descriptor.frames@, j) && after == (StartupState::Aborted {
                        error: StartupError::Parse(
                            ParseError::DuplicateFrame { name: descriptor.frames@[j].name },
                        ),
                    })
                &&& action == StartupAction::Abort
            }
        },
        (StartupState::LoadingImage { .. }, StartupEvent::ImageLoaded(Err(error))) => {
            &&& after == (StartupState::Aborted { error: StartupError::Load(error) })
            &&& action == StartupAction::Abort
        },
        _ => {
            &&& after == before
            &&& action == StartupAction::Ignore
        },
    }
}

/// The startup sequencer, and the owner of the stage once it runs.
pub struct Compositor {
    config: StageConfig,
    state: StartupState,
}

impl Compositor {
    /// What the stage is set up with.
    pub closed spec fn config(&self) -> StageConfig {
        self.config
    }

    /// Where startup stands.
    pub closed spec fn state(&self) -> StartupState {
        self.state
    }

    /// The configured sequence is not empty, and a stage that runs is well
    /// formed.
    pub open spec fn wf(&self) -> bool {
        &&& self.config().clock.frame_count >= 1
        &&& self.state() matches StartupState::Running { stage } ==> stage.wf()
    }

    /// A compositor that has asked nothing of the host yet. A configuration
    /// with an empty sequence has no compositor.
    pub fn new(config: StageConfig) -> (compositor: Option<Compositor>)
        ensures
            config.clock.frame_count == 0 ==> compositor is None,
            config.clock.frame_count >= 1 ==> compositor is Some && compositor->0.wf()
                && compositor->0.config() == config && compositor->0.state() is Idle,
    {
        if config.clock.frame_count == 0 {
            None
        } else {
            Some(Compositor { config, state: StartupState::Idle })
        }
    }

    /// Takes a report of the host and says what the host is to do next.
    ///
    /// `Begin` asks for the descriptor. The descriptor asks for the image;
    /// a failed fetch abandons startup, and the image is never asked for.
    /// The image, once loaded, makes the sheet from the descriptor that was
    /// kept, sets the clock before its first frame and starts it; a failed
    /// load, or a descriptor that makes no sheet, abandons startup.
    pub fn handle(&mut self, event: StartupEvent) -> (action: StartupAction)
        requires
            old(self).wf(),
        ensures
            final(self).wf(),
            final(self).config() == old(self).config(),
            spec_handled(old(self).config(), old(self).state(), event, final(self).state(), action),
            (spec_progress(final(self).state()), action) == spec_next(
                spec_progress(old(self).state()),
                spec_kind(event),
            ),
    {
        let mut state = StartupState::Idle;
        core::mem::swap(&mut self.state, &mut state);
        match (state, event) {
            (StartupState::Idle, StartupEvent::Begin) => {
                self.state = StartupState::FetchingDescriptor;
                StartupAction::FetchDescriptor
            },
            (StartupState::FetchingDescriptor, StartupEvent::DescriptorFetched(Ok(descriptor))) => {
                self.state = StartupState::LoadingImage { descriptor };
                StartupAction::LoadImage
            },
            (StartupState::FetchingDescriptor, StartupEvent::DescriptorFetched(Err(error))) => {
                self.state = StartupState::Aborted { error };
                StartupAction::Abort
            },
            (StartupState::LoadingImage { descriptor }, StartupEvent::ImageLoaded(Ok(image))) => {
                match SpriteSheet::from_descriptor(&descriptor) {
                    Ok(sheet) => {
                        let mut clock = AnimationClock::new(self.config.clock.clone()).unwrap();
                        clock.start(self.config.period_ms);
                        let stage = Stage { sheet, image, clock, surface: Surface::new() };
                        self.state = StartupState::Running { stage };
                        StartupAction::StartClock
                    },
                    Err(e) => {
                        self.state = StartupState::Aborted { error: StartupError::Parse(e) };
                        StartupAction::Abort
                    },
                }
            },
            (StartupState::LoadingImage { descriptor }, StartupEvent::ImageLoaded(Err(error))) => {
                self.state = StartupState::Aborted { error: StartupError::Load(error) };
                StartupAction::Abort
            },
            (state, _) => {
                self.state = state;
                StartupAction::Ignore
            },
        }
    }

    /// What the stage is set up with.
    pub fn settings(&self) -> (config: &StageConfig)
        ensures
            *config == self.config(),
    {
        &self.config
    }

    /// Whether the clock runs.
    pub fn is_running(&self) -> (running: bool)
        ensures
            running == (self.state() is Running),
    {
        match &self.state {
            StartupState::Running { .. } => true,
            _ => false,
        }
    }

    /// The diagnostic of an abandoned startup, and `None` otherwise.
    pub fn diagnostic(&self) -> (text: Option<String>)
        ensures
            match self.state() {
                StartupState::Aborted { error } => text is Some && text->0@
                    == crate::error::spec_startup_message(error),
                _ => text is None,
            },
    {
        match &self.state {
            StartupState::Aborted { error } => Some(error.message()),
            _ => None,
        }
    }

    /// One tick of the running stage. `None`, and nothing changes, while the
    /// clock does not run.
    pub fn tick(&mut self) -> (result: Option<Result<(), FrameNotFound>>)
        requires
            old(self).wf(),
        ensures
            final(self).wf(),
            final(self).config() == old(self).config(),
            match old(self).state() {
                StartupState::Running { stage: before } => final(self).state() matches StartupState::Running {
                    stage: after,
                } && result is Some && spec_stage_ticked(before, after, result->0),
                _ => result is None && final(self).state() == old(self).state(),
            },
    {
        match &mut self.state {
            StartupState::Running { stage } => Some(stage.tick()),
            _ => None,
        }
    }

    /// Hands out what the running stage drew since the last call, oldest
    /// first. Empty, and nothing changes, while the clock does not run.
    pub fn take_frame(&mut self) -> (list: Vec<DrawCommand>)
        requires
            old(self).wf(),
        ensures
            final(self).wf(),
            final(self).config() == old(self).config(),
            match old(self).state() {
                StartupState::Running { stage: before } => final(self).state() matches StartupState::Running {
                    stage: after,
                } && list@ == before.surface() && after.surface() == Seq::<DrawCommand>::empty()
                    && after.sheet() == before.sheet() && after.image() == before.image()
                    && after.clock() == before.clock(),
                _ => list@ == Seq::<DrawCommand>::empty() && final(self).state() == old(
                    self,
                ).state(),
            },
    {
        match &mut self.state {
            StartupState::Running { stage } => stage.take_frame(),
            _ => Vec::new(),
        }
    }
}

/// One tick led the stage from `before` to `after` with `result`.
pub open spec fn spec_stage_ticked(before: Stage, after: Stage, result: Result<(), FrameNotFound>) -> bool {
    &&& after.sheet() == before.sheet()
    &&& after.image() == before.image()
    &&& after.clock().period() == before.clock().period()
    &&& after.clock().same_setup(&before.clock())
    &&& after.clock().animation() == before.clock().animation().spec_advance()
    &&& after.surface() == before.surface() + spec_tick_commands(
        before.sheet(),
        before.image(),
        after.clock().spec_visible_name(),
        before.clock().canvas(),
        before.clock().destination().0,
        before.clock().destination().1,
    )
    &&& match result {
        Ok(()) => spec_lookup(before.sheet(), after.clock().spec_visible_name()) is Some,
        Err(e) => spec_lookup(before.sheet(), after.clock().spec_visible_name()) is None
            && e.name@ == after.clock().spec_visible_name(),
    }
}

} // verus!

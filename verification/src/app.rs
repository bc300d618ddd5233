//! The application state, the loop that drives it, and the frame it shows.

use vstd::prelude::*;
use vstd::string::StringExecFns;
use crate::chart::{project, time_axis, HISTORY_LEN, TIME_ORIGIN, TIME_SPAN};
use crate::control::{Action, LoopEvent, Phase, Stage};
use crate::frame::{ChartPanel, Frame, Panel};
use crate::input::{poll_requests_quit, Event, KeyEvent, KeyEventKind};
use crate::layout::{PanelAreas, Rect};
use crate::metric::{Metric, Snapshot};
use crate::ring::{shifted_in, zeros, RingSeries};
use crate::status::{ErrorKind, Outcome};

verus! {

/// The application state as mathematics.
pub ghost struct AppModel {
    /// The name of the device, empty until it is known.
    pub device_label: Seq<char>,
    /// The history of the core clock, oldest first.
    pub core_clock: Seq<u32>,
    /// The history of the temperature, oldest first.
    pub temperature: Seq<u32>,
    /// The user asked to quit.
    pub exit_requested: bool,
    /// Where the loop stands.
    pub stage: Stage,
    /// A counter read has failed during this run.
    pub read_failed: bool,
}

impl AppModel {
    /// The history of `metric`.
    pub open spec fn series(self, metric: Metric) -> Seq<u32> {
        match metric {
            Metric::CoreClock => self.core_clock,
            Metric::Temperature => self.temperature,
        }
    }

    /// Both histories have the length that the charts show, and the run has
    /// stopped cleanly only if the exit was requested.
    pub open spec fn well_formed(self) -> bool {
        &&& self.core_clock.len() == HISTORY_LEN
        &&& self.temperature.len() == HISTORY_LEN
        &&& self.stage == Stage::Stopped(Outcome::Quit) ==> self.exit_requested
    }

    /// The state at start-up: no name, nothing but zeros, no exit requested.
    pub open spec fn initial() -> AppModel {
        AppModel {
            device_label: Seq::empty(),
            core_clock: zeros(HISTORY_LEN as nat),
            temperature: zeros(HISTORY_LEN as nat),
            exit_requested: false,
            stage: Stage::AcquiringTerminal,
            read_failed: false,
        }
    }

    /// The state after the readings of `snapshot` have been appended.
    pub open spec fn sampled(self, snapshot: Snapshot) -> AppModel {
        AppModel {
            core_clock: shifted_in(self.core_clock, snapshot.core_clock_mhz),
            temperature: shifted_in(self.temperature, snapshot.temperature_c),
            ..self
        }
    }

    /// The state after a frame whose counters could not be read: each history
    /// repeats its newest value, and the failure is remembered.
    pub open spec fn held(self) -> AppModel {
        AppModel {
            core_clock: shifted_in(self.core_clock, self.core_clock.last()),
            temperature: shifted_in(self.temperature, self.temperature.last()),
            read_failed: true,
            ..self
        }
    }

    /// The state after a key event.
    pub open spec fn keyed(self, key_event: KeyEvent) -> AppModel {
        AppModel { exit_requested: self.exit_requested || key_event.requests_quit(), ..self }
    }

    /// The state after a poll of the keyboard has answered.
    pub open spec fn polled(self, polled: Option<Event>) -> AppModel {
        AppModel { exit_requested: self.exit_requested || poll_requests_quit(polled), ..self }
    }

    /// The state at `stage`, all else unchanged.
    pub open spec fn at(self, stage: Stage) -> AppModel {
        AppModel { stage, ..self }
    }

    /// The event answers what the loop is waiting for.
    pub open spec fn awaits(self, event: LoopEvent) -> bool {
        match self.stage {
            Stage::AcquiringTerminal => event is TerminalAcquired || event is TerminalFailed,
            Stage::AcquiringTelemetry => event is TelemetryReady || event is TelemetryFailed,
            Stage::Sampling => event is Sampled || event is SampleFailed,
            Stage::Drawing => event is Drawn || event is DrawFailed,
            Stage::Polling => event is Polled || event is PollFailed,
            Stage::Stopped(_) => false,
        }
    }

    /// The state after `event`. An event that does not answer what the loop
    /// is waiting for changes nothing; a run that has stopped stays stopped.
    pub open spec fn step(self, event: LoopEvent) -> AppModel {
        if !self.awaits(event) {
            self
        } else {
            match event {
                LoopEvent::TerminalAcquired => self.at(Stage::AcquiringTelemetry),
                LoopEvent::TerminalFailed => self.at(
                    Stage::Stopped(Outcome::Fatal(ErrorKind::TerminalInit)),
                ),
                LoopEvent::TelemetryReady(name) => AppModel {
                    device_label: name@,
                    stage: Stage::top_of_loop(self.exit_requested),
                    ..self
                },
                LoopEvent::TelemetryFailed => self.at(
                    Stage::Stopped(Outcome::Fatal(ErrorKind::TelemetryInit)),
                ),
                LoopEvent::Sampled(snapshot) => self.sampled(snapshot).at(Stage::Drawing),
                LoopEvent::SampleFailed => self.held().at(Stage::Drawing),
                LoopEvent::Drawn => self.at(Stage::Polling),
                LoopEvent::DrawFailed => self.at(
                    Stage::Stopped(Outcome::Fatal(ErrorKind::RenderFail)),
                ),
                LoopEvent::Polled(polled) => {
                    let after = self.polled(polled);
                    after.at(Stage::top_of_loop(after.exit_requested))
                },
                LoopEvent::PollFailed => self.at(
                    Stage::Stopped(Outcome::Fatal(ErrorKind::InputRead)),
                ),
            }
        }
    }

    /// The one line, if any, that is owed to the error stream when the run
    /// stops: the fatal error, or else a counter read that failed on the way.
    pub open spec fn diagnostic(self) -> Option<ErrorKind> {
        match self.stage {
            Stage::Stopped(Outcome::Fatal(kind)) => Some(kind),
            Stage::Stopped(Outcome::Quit) => if self.read_failed {
                Some(ErrorKind::TelemetryRead)
            } else {
                None
            },
            _ => None,
        }
    }
}

/// The state of the dashboard: the device's name, one history for each
/// metric, the exit flag, and where the loop stands.
#[derive(Debug)]
pub struct NvidiaApp {
    gpu_core_clock: RingSeries,
    gpu_temperature: RingSeries,
    gpu_device: String,
    exit: bool,
    stage: Stage,
    read_failed: bool,
}

impl View for NvidiaApp {
    type V = AppModel;

    closed spec fn view(&self) -> AppModel {
        AppModel {
            device_label: self.gpu_device@,
            core_clock: self.gpu_core_clock@,
            temperature: self.gpu_temperature@,
            exit_requested: self.exit,
            stage: self.stage,
            read_failed: self.read_failed,
        }
    }
}

impl Default for NvidiaApp {
    /// The state at start-up.
    fn default() -> (app: NvidiaApp)
        ensures
            app@ == AppModel::initial(),
            app@.well_formed(),
    {
        NvidiaApp {
            gpu_core_clock: RingSeries::new(HISTORY_LEN),
            gpu_temperature: RingSeries::new(HISTORY_LEN),
            gpu_device: String::new(),
            exit: false,
            stage: Stage::AcquiringTerminal,
            read_failed: false,
        }
    }
}

impl NvidiaApp {
    #[verifier::type_invariant]
    spec fn histories_are_full(&self) -> bool {
        &&& self.gpu_core_clock@.len() == HISTORY_LEN
        &&& self.gpu_temperature@.len() == HISTORY_LEN
        &&& self.stage == Stage::Stopped(Outcome::Quit) ==> self.exit
    }

    /// The name of the device; empty until it is known.
    pub fn device_label(&self) -> (label: &str)
        ensures
            label@ == self@.device_label,
    {
        self.gpu_device.as_str()
    }

    /// The history of `metric`.
    pub fn series(&self, metric: Metric) -> (series: &RingSeries)
        ensures
            series@ == self@.series(metric),
            self@.well_formed(),
    {
        proof {
            use_type_invariant(self);
        }
        match metric {
            Metric::CoreClock => &self.gpu_core_clock,
            Metric::Temperature => &self.gpu_temperature,
        }
    }

    /// Whether the user asked to quit.
    pub fn exit_requested(&self) -> (requested: bool)
        ensures
            requested == self@.exit_requested,
    {
        self.exit
    }

    /// Where the loop stands.
    pub fn stage(&self) -> (stage: Stage)
        ensures
            stage == self@.stage,
    {
        self.stage
    }

    /// Requests the exit.
    pub fn exit(&mut self)
        ensures
            final(self)@ == (AppModel { exit_requested: true, ..old(self)@ }),
    {
        proof {
            use_type_invariant(&*self);
        }
        self.exit = true;
    }

    /// Appends each reading of `snapshot` to the history of its metric. The
    /// newest slot of every history then holds the snapshot's reading.
    pub fn update_state(&mut self, snapshot: &Snapshot)
        ensures
            final(self)@ == old(self)@.sampled(*snapshot),
            forall|metric: Metric|
                (#[trigger] final(self)@.series(metric)).last() == snapshot.value(metric),
    {
        proof {
            use_type_invariant(&*self);
        }
        self.gpu_core_clock.push(snapshot.reading(Metric::CoreClock));
        self.gpu_temperature.push(snapshot.reading(Metric::Temperature));
    }

    /// Stands in for a snapshot that could not be read: every history repeats
    /// its newest value, so that each slot stays defined, and the failure is
    /// remembered for the end of the run.
    pub fn hold_state(&mut self)
        ensures
            final(self)@ == old(self)@.held(),
            forall|metric: Metric|
                (#[trigger] final(self)@.series(metric)).last() == old(self)@.series(metric).last(),
    {
        proof {
            use_type_invariant(&*self);
        }
        self.gpu_core_clock.repeat_newest();
        self.gpu_temperature.repeat_newest();
        self.read_failed = true;
    }

    /// Handles one key event: the press of `q` or `Q` requests the exit, and
    /// no other event changes anything.
    pub fn handle_key_event(&mut self, key_event: KeyEvent)
        ensures
            final(self)@ == old(self)@.keyed(key_event),
            key_event.requests_quit() ==> final(self)@.exit_requested,
            !key_event.requests_quit() ==> final(self)@ == old(self)@,
    {
        if key_event.is_quit() {
            self.exit();
        }
    }

    /// Handles the answer of one poll of the keyboard: `None` if no event came
    /// in time. Only a key event can change the state, as `handle_key_event`
    /// says.
    pub fn handle_events(&mut self, polled: Option<Event>)
        ensures
            final(self)@ == old(self)@.polled(polled),
            poll_requests_quit(polled) ==> final(self)@.exit_requested,
            !poll_requests_quit(polled) ==> final(self)@ == old(self)@,
    {
        match polled {
            Some(Event::Key(key_event)) => {
                self.handle_key_event(key_event);
            },
            Some(Event::Other) => {},
            None => {},
        }
    }

    /// The stage at the top of an iteration.
    fn top_of_loop(&self) -> (stage: Stage)
        ensures
            stage == Stage::top_of_loop(self@.exit_requested),
    {
        if self.exit {
            Stage::Stopped(Outcome::Quit)
        } else {
            Stage::Sampling
        }
    }

    /// Moves the loop to `stage`.
    fn enter(&mut self, stage: Stage)
        requires
            stage == Stage::Stopped(Outcome::Quit) ==> old(self)@.exit_requested,
        ensures
            final(self)@ == old(self)@.at(stage),
    {
        proof {
            use_type_invariant(&*self);
        }
        self.stage = stage;
    }

    /// Takes the name of the device.
    fn name_device(&mut self, name: String)
        ensures
            final(self)@ == (AppModel { device_label: name@, ..old(self)@ }),
    {
        proof {
            use_type_invariant(&*self);
        }
        self.gpu_device = name;
    }

    /// Advances the loop by one event and says what to do next. The driver
    /// starts with the action of the first stage, performs each action, and
    /// hands back what came of it, until the action is `Stop`.
    pub fn run_app(&mut self, event: LoopEvent) -> (action: Action)
        ensures
            final(self)@ == old(self)@.step(event),
            action == final(self)@.stage.action(),
            action == Action::Stop(Outcome::Quit) ==> final(self)@.exit_requested,
            final(self)@.well_formed(),
    {
        match self.stage {
            Stage::AcquiringTerminal => match event {
                LoopEvent::TerminalAcquired => self.enter(Stage::AcquiringTelemetry),
                LoopEvent::TerminalFailed => self.enter(
                    Stage::Stopped(Outcome::Fatal(ErrorKind::TerminalInit)),
                ),
                _ => {},
            },
            Stage::AcquiringTelemetry => match event {
                LoopEvent::TelemetryReady(name) => {
                    self.name_device(name);
                    let next = self.top_of_loop();
                    self.enter(next);
                },
                LoopEvent::TelemetryFailed => self.enter(
                    Stage::Stopped(Outcome::Fatal(ErrorKind::TelemetryInit)),
                ),
                _ => {},
            },
            Stage::Sampling => match event {
                LoopEvent::Sampled(snapshot) => {
                    self.update_state(&snapshot);
                    self.enter(Stage::Drawing);
                },
                LoopEvent::SampleFailed => {
                    self.hold_state();
                    self.enter(Stage::Drawing);
                },
                _ => {},
            },
            Stage::Drawing => match event {
                LoopEvent::Drawn => self.enter(Stage::Polling),
                LoopEvent::DrawFailed => self.enter(
                    Stage::Stopped(Outcome::Fatal(ErrorKind::RenderFail)),
                ),
                _ => {},
            },
            Stage::Polling => match event {
                LoopEvent::Polled(polled) => {
                    self.handle_events(polled);
                    let next = self.top_of_loop();
                    self.enter(next);
                },
                LoopEvent::PollFailed => self.enter(
                    Stage::Stopped(Outcome::Fatal(ErrorKind::InputRead)),
                ),
                _ => {},
            },
            Stage::Stopped(_) => {},
        }
        proof {
            use_type_invariant(&*self);
        }
        self.stage.pending_action()
    }

    /// The one line, if any, that is owed to the error stream once the run
    /// has stopped.
    pub fn diagnostic(&self) -> (kind: Option<ErrorKind>)
        ensures
            kind == self@.diagnostic(),
    {
        match self.stage {
            Stage::Stopped(Outcome::Fatal(kind)) => Some(kind),
            Stage::Stopped(Outcome::Quit) => if self.read_failed {
                Some(ErrorKind::TelemetryRead)
            } else {
                None
            },
            _ => None,
        }
    }

    /// The chart of `metric`.
    fn chart_panel(&self, metric: Metric) -> (chart: ChartPanel)
        ensures
            chart.charts(metric, self@.device_label, self@.series(metric)),
    {
        let descriptor = metric.descriptor();
        let heading = match descriptor.heading {
            Some(lead) => Some(String::from_str(lead).concat(self.gpu_device.as_str())),
            None => None,
        };
        let points = project(self.series(metric), TIME_ORIGIN, TIME_SPAN);
        ChartPanel { descriptor, heading, time_axis: time_axis(TIME_ORIGIN, TIME_SPAN), points }
    }

    /// The frame for this state on panels that have been laid out already.
    pub fn compose(&self, areas: PanelAreas) -> (frame: Frame)
        ensures
            frame.is_dashboard(areas, self@.device_label, self@.core_clock, self@.temperature),
    {
        let mut panels: Vec<Panel> = Vec::new();
        panels.push(Panel::Reserved(areas.bottom_left));
        panels.push(Panel::Reserved(areas.bottom_right));
        panels.push(Panel::Chart(areas.top_left, self.chart_panel(Metric::CoreClock)));
        panels.push(Panel::Chart(areas.top_right, self.chart_panel(Metric::Temperature)));
        Frame { panels }
    }

    /// The frame for this state on the drawable region `area`: the region is
    /// cut into its four quarters, and the frame composed on them. So the
    /// panels of the frame tile `area`, lie inside it, stand in two columns
    /// and end on the grid of addressable cells.
    pub fn render(&self, area: Rect) -> (frame: Frame)
        ensures
            frame.is_dashboard(
                PanelAreas::quarters(area),
                self@.device_label,
                self@.core_clock,
                self@.temperature,
            ),
            frame.areas() == PanelAreas::quarters(area),
            frame.areas().tiles(area),
            frame.areas().within(area),
            frame.areas().in_two_columns(),
            frame.areas().on_grid(),
    {
        let areas = PanelAreas::grid(area);
        self.compose(areas)
    }
}

/// The exit flag is raised by the press of a quit key that answers a poll, and
/// by nothing else; no event lowers it.
pub proof fn lemma_exit_needs_quit_key(state: AppModel, event: LoopEvent)
    ensures
        state.step(event).exit_requested == (state.exit_requested || (state.stage == Stage::Polling
            && event.requests_quit())),
{
}

/// A key event that is no press never changes the state, whatever its key.
pub proof fn lemma_only_presses_count(state: AppModel, key_event: KeyEvent)
    requires
        key_event.kind != KeyEventKind::Press,
    ensures
        state.keyed(key_event) == state,
        state.polled(Some(Event::Key(key_event))) == state,
        state.step(LoopEvent::Polled(Some(Event::Key(key_event)))).exit_requested
            == state.exit_requested,
{
}

/// A run that has stopped stays stopped: no event changes its state.
pub proof fn lemma_stopped_is_final(state: AppModel, event: LoopEvent)
    requires
        state.stage is Stopped,
    ensures
        state.step(event) == state,
{
}

/// No event changes the length of a history, so every slot stays defined.
pub proof fn lemma_step_keeps_histories(state: AppModel, event: LoopEvent)
    ensures
        state.step(event).core_clock.len() == state.core_clock.len(),
        state.step(event).temperature.len() == state.temperature.len(),
        state.well_formed() ==> state.step(event).well_formed(),
{
}

/// After a snapshot has been taken in, the newest slot of every metric's
/// history holds the snapshot's reading of that metric, and the frame is
/// drawn next.
pub proof fn lemma_sample_is_newest(state: AppModel, snapshot: Snapshot, metric: Metric)
    requires
        state.well_formed(),
    ensures
        state.sampled(snapshot).series(metric).last() == snapshot.value(metric),
        state.stage == Stage::Sampling ==> state.step(LoopEvent::Sampled(snapshot)).series(
            metric,
        ).last() == snapshot.value(metric),
{
}

/// Within a frame the loop samples, then draws, then polls: an event that
/// answers a running stage and is no failure leads to the next stage in that
/// order, and from the poll back to the top of the loop.
pub proof fn lemma_frame_order(state: AppModel, event: LoopEvent)
    requires
        state.awaits(event),
    ensures
        state.stage == Stage::Sampling ==> state.step(event).stage == Stage::Drawing,
        state.stage == Stage::Drawing && event is Drawn ==> state.step(event).stage
            == Stage::Polling,
        state.stage == Stage::Polling && event is Polled ==> state.step(event).stage
            == Stage::top_of_loop(state.step(event).exit_requested),
{
}

/// A run that has stopped cleanly is one whose exit was requested: that holds
/// of the state at start-up, and every event keeps it.
pub proof fn lemma_clean_stop_was_requested(state: AppModel, event: LoopEvent)
    requires
        state.well_formed(),
    ensures
        AppModel::initial().well_formed(),
        state.step(event).well_formed(),
        state.step(event).stage == Stage::Stopped(Outcome::Quit) ==> state.step(
            event,
        ).exit_requested,
        state.step(event).stage.action() == Action::Stop(Outcome::Quit) ==> state.step(
            event,
        ).exit_requested,
{
}

/// A run stops cleanly only once the exit has been requested, and an error
/// stops it only if its kind is fatal: a failed counter read never does.
pub proof fn lemma_stops_for_a_reason(state: AppModel, event: LoopEvent)
    requires
        !(state.stage is Stopped),
    ensures
        state.step(event).stage == Stage::Stopped(Outcome::Quit) ==> state.step(
            event,
        ).exit_requested,
        forall|kind: ErrorKind|
            state.step(event).stage == Stage::Stopped(Outcome::Fatal(kind)) ==> kind.is_fatal(),
{
}

/// A run never goes back: once it is running it does not initialize again,
/// and once it has stopped, cleanly or not, it stays as it stopped.
pub proof fn lemma_phases_advance(state: AppModel, event: LoopEvent)
    ensures
        state.stage.phase() == Phase::Running ==> state.step(event).stage.phase()
            != Phase::Initializing,
        state.stage.phase() == Phase::ShuttingDown ==> state.step(event).stage.phase()
            == Phase::ShuttingDown,
        state.stage.phase() == Phase::Fatal ==> state.step(event).stage.phase() == Phase::Fatal,
{
}

} // verus!

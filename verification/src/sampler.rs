//! The sampling thread as a state machine.
//!
//! The thread that runs the machine does the waiting: it blocks on the
//! channel, sleeps, and reports what happened as an [`Event`]. The machine
//! decides what comes next and says so as an [`Action`]. Calls on the head
//! tracker are made by [`Sampler::perform`].

use vstd::prelude::*;
use crate::gate::{GateModel, GateState, Signal, StartGate, StateChangeMessage};
use crate::scene::Scene;
use crate::space::Space;
use crate::tracking::{Error, HeadTracker, UnknownError};

verus! {

/// The interval between two polls of the sensor, in milliseconds.
pub const SAMPLING_RESOLUTION_MS: u64 = 100;

/// The stage of a sampling thread's life.
#[derive(Clone, Copy, Debug, PartialEq, Eq, Structural)]
pub enum Phase {
    Idle,
    WaitingForStart,
    Sampling,
    Stopped,
}

/// What the machine asks for next.
#[derive(Clone, Copy, Debug, PartialEq, Eq, Structural)]
pub enum Action {
    /// Start the thread.
    Spawn,
    /// Block until the channel yields a signal or is closed.
    Receive,
    /// Start the sensor.
    StartSensor,
    /// Look, without blocking, whether the channel is closed.
    CheckHangUp,
    /// Ask the sensor for its latest orientation.
    PullOrientation,
    /// Hand the latest sample, if any, to the owner, then sleep for the
    /// sampling resolution.
    Rest,
    /// Stop the sensor.
    StopSensor,
    /// Leave the thread.
    Finish,
}

/// What the thread reports back.
#[verifier::reject_recursive_types(S)]
pub enum Event<S: Space> {
    /// The thread runs.
    Spawned,
    /// The channel yielded a signal.
    Received(StateChangeMessage<S>),
    /// The channel is closed: the owner has shut down.
    Disconnected,
    /// The channel is still open.
    Connected,
    /// The sensor has started.
    SensorStarted,
    /// The sensor could not be started.
    SensorFailed,
    /// The sensor answered a pull.
    Pulled(Option<S::Orientation>),
    /// The sleep is over.
    Slept,
    /// The sensor's stop operation has returned.
    SensorStopped,
}

/// An event as contracts see it.
#[verifier::reject_recursive_types(S)]
pub ghost enum Occurrence<S: Space> {
    Spawned,
    Received(Signal<S>),
    Disconnected,
    Connected,
    SensorStarted,
    SensorFailed,
    Pulled(Option<S::Orientation>),
    Slept,
    SensorStopped,
}

/// What came of a call on the head tracker, for the caller to log.
#[derive(Debug)]
pub enum SensorReport {
    /// No call was due, or the call succeeded.
    Nothing,
    /// The sensor could not be started.
    StartFailed(Error),
    /// The sensor's stop operation failed.
    StopFailed(UnknownError),
}

/// A sampler as contracts see it.
#[verifier::reject_recursive_types(S)]
pub ghost struct SamplerModel<S: Space> {
    pub phase: Phase,
    /// The action asked for last, whose outcome the machine waits for.
    pub pending: Action,
    pub gate: GateModel<S>,
    /// The orientation pulled last.
    pub sample: Option<S::Orientation>,
}

/// The machine.
#[verifier::reject_recursive_types(S)]
pub struct Sampler<S: Space> {
    phase: Phase,
    pending: Action,
    gate: StartGate<S>,
    sample: Option<S::Orientation>,
}

impl<S: Space> View for Event<S> {
    type V = Occurrence<S>;

    open spec fn view(&self) -> Occurrence<S> {
        match *self {
            Event::Spawned => Occurrence::Spawned,
            Event::Received(message) => Occurrence::Received(message@),
            Event::Disconnected => Occurrence::Disconnected,
            Event::Connected => Occurrence::Connected,
            Event::SensorStarted => Occurrence::SensorStarted,
            Event::SensorFailed => Occurrence::SensorFailed,
            Event::Pulled(sample) => Occurrence::Pulled(sample),
            Event::Slept => Occurrence::Slept,
            Event::SensorStopped => Occurrence::SensorStopped,
        }
    }
}

/// Where a phase stands in a thread's life.
pub open spec fn phase_rank(phase: Phase) -> int {
    match phase {
        Phase::Idle => 0,
        Phase::WaitingForStart => 1,
        Phase::Sampling => 2,
        Phase::Stopped => 3,
    }
}

impl<S: Space> SamplerModel<S> {
    /// A machine whose thread has not been started.
    pub open spec fn idle() -> Self {
        SamplerModel {
            phase: Phase::Idle,
            pending: Action::Spawn,
            gate: GateModel::fresh(),
            sample: None,
        }
    }

    /// What the pending action may be in each phase, and what its gate has
    /// done by then.
    pub open spec fn well_formed(self) -> bool {
        &&& self.gate.well_formed()
        &&& match self.phase {
            Phase::Idle => self.pending == Action::Spawn && self.gate == GateModel::<S>::fresh(),
            Phase::WaitingForStart => {
                ||| self.pending == Action::Receive && self.gate.state == GateState::NotStarted
                ||| self.pending == Action::StartSensor && self.gate.state == GateState::Started
            },
            Phase::Sampling => {
                &&& self.gate.state == GateState::Started
                &&& (self.pending == Action::CheckHangUp || self.pending
                    == Action::PullOrientation || self.pending == Action::Rest)
            },
            Phase::Stopped => self.pending == Action::StopSensor || self.pending == Action::Finish,
        }
    }

    /// The machine after `event`. An event that does not answer the pending
    /// action changes nothing.
    pub open spec fn next(self, event: Occurrence<S>) -> Self {
        match (self.phase, self.pending, event) {
            (Phase::Idle, Action::Spawn, Occurrence::Spawned) => SamplerModel {
                phase: Phase::WaitingForStart,
                pending: Action::Receive,
                ..self
            },
            (Phase::WaitingForStart, Action::Receive, Occurrence::Received(signal)) => {
                let gate = self.gate.deliver(signal);
                SamplerModel {
                    pending: if gate.state == GateState::Started {
                        Action::StartSensor
                    } else {
                        Action::Receive
                    },
                    gate,
                    ..self
                }
            },
            (Phase::WaitingForStart, Action::Receive, Occurrence::Disconnected) => SamplerModel {
                phase: Phase::Stopped,
                pending: Action::Finish,
                gate: self.gate.abort(),
                ..self
            },
            (Phase::WaitingForStart, Action::StartSensor, Occurrence::SensorStarted) => SamplerModel {
                phase: Phase::Sampling,
                pending: Action::CheckHangUp,
                ..self
            },
            (Phase::WaitingForStart, Action::StartSensor, Occurrence::SensorFailed) => SamplerModel {
                phase: Phase::Stopped,
                pending: Action::Finish,
                ..self
            },
            (Phase::Sampling, Action::CheckHangUp, Occurrence::Disconnected) => SamplerModel {
                phase: Phase::Stopped,
                pending: Action::StopSensor,
                ..self
            },
            (Phase::Sampling, Action::CheckHangUp, Occurrence::Connected) => SamplerModel {
                pending: Action::PullOrientation,
                ..self
            },
            (Phase::Sampling, Action::PullOrientation, Occurrence::Pulled(sample)) => SamplerModel {
                pending: Action::Rest,
                sample,
                ..self
            },
            (Phase::Sampling, Action::Rest, Occurrence::Slept) => SamplerModel {
                pending: Action::CheckHangUp,
                ..self
            },
            (Phase::Stopped, Action::StopSensor, Occurrence::SensorStopped) => SamplerModel {
                pending: Action::Finish,
                ..self
            },
            _ => self,
        }
    }

    /// The machine after `events`, in order.
    pub open spec fn run(self, events: Seq<Occurrence<S>>) -> Self
        decreases events.len(),
    {
        if events.len() == 0 {
            self
        } else {
            self.run(events.drop_last()).next(events.last())
        }
    }
}

/// Whether `events` holds the arrival of a playing signal.
pub open spec fn received_playing<S: Space>(events: Seq<Occurrence<S>>) -> bool {
    exists|i: int|
        0 <= i < events.len() && #[trigger] events[i] == Occurrence::<S>::Received(Signal::Playing)
}

/// Whether `events` holds the arrival of an initial scene.
pub open spec fn received_scene<S: Space>(events: Seq<Occurrence<S>>) -> bool {
    exists|i: int|
        0 <= i < events.len() && (#[trigger] events[i] is Received)
            && events[i]->Received_0 is InitialScene
}

impl<S: Space> View for Sampler<S> {
    type V = SamplerModel<S>;

    closed spec fn view(&self) -> SamplerModel<S> {
        SamplerModel {
            phase: self.phase,
            pending: self.pending,
            gate: self.gate@,
            sample: self.sample,
        }
    }
}

impl<S: Space> Sampler<S> {
    /// A machine whose thread has not been started.
    pub fn new() -> (sampler: Self)
        ensures
            sampler@ == SamplerModel::<S>::idle(),
    {
        Sampler { phase: Phase::Idle, pending: Action::Spawn, gate: StartGate::new(), sample: None }
    }

    pub fn phase(&self) -> (phase: Phase)
        ensures
            phase == self@.phase,
    {
        self.phase
    }

    /// The action asked for last.
    pub fn pending(&self) -> (action: Action)
        ensures
            action == self@.pending,
    {
        self.pending
    }

    /// The orientation pulled last, for the owner.
    pub fn sample(&self) -> (sample: Option<S::Orientation>)
        ensures
            sample == self@.sample,
    {
        self.sample
    }

    /// The scene on which this machine's gate opened, if it has.
    pub fn initial_scene(&self) -> (scene: Option<&Scene<S>>)
        ensures
            scene is Some <==> self@.gate.scene is Some,
            scene is Some ==> scene.unwrap()@ == self@.gate.scene.unwrap(),
    {
        self.gate.initial_scene()
    }

    /// Takes one event and says what to do next.
    pub fn step(&mut self, event: Event<S>) -> (action: Action)
        ensures
            final(self)@ == old(self)@.next(event@),
            action == final(self)@.pending,
    {
        match (self.phase, self.pending, event) {
            (Phase::Idle, Action::Spawn, Event::Spawned) => {
                self.phase = Phase::WaitingForStart;
                self.pending = Action::Receive;
            },
            (Phase::WaitingForStart, Action::Receive, Event::Received(message)) => {
                self.gate.deliver(message);
                self.pending = match self.gate.state() {
                    GateState::Started => Action::StartSensor,
                    _ => Action::Receive,
                };
            },
            (Phase::WaitingForStart, Action::Receive, Event::Disconnected) => {
                self.gate.abort();
                self.phase = Phase::Stopped;
                self.pending = Action::Finish;
            },
            (Phase::WaitingForStart, Action::StartSensor, Event::SensorStarted) => {
                self.phase = Phase::Sampling;
                self.pending = Action::CheckHangUp;
            },
            (Phase::WaitingForStart, Action::StartSensor, Event::SensorFailed) => {
                self.phase = Phase::Stopped;
                self.pending = Action::Finish;
            },
            (Phase::Sampling, Action::CheckHangUp, Event::Disconnected) => {
                self.phase = Phase::Stopped;
                self.pending = Action::StopSensor;
            },
            (Phase::Sampling, Action::CheckHangUp, Event::Connected) => {
                self.pending = Action::PullOrientation;
            },
            (Phase::Sampling, Action::PullOrientation, Event::Pulled(sample)) => {
                self.sample = sample;
                self.pending = Action::Rest;
            },
            (Phase::Sampling, Action::Rest, Event::Slept) => {
                self.pending = Action::CheckHangUp;
            },
            (Phase::Stopped, Action::StopSensor, Event::SensorStopped) => {
                self.pending = Action::Finish;
            },
            _ => {},
        }
        self.pending
    }

    /// Makes the call on `tracker` that the pending action asks for, if it
    /// asks for one, and takes the outcome as an event. Whatever the tracker
    /// answers, the machine moves by the event that stands for the answer; a
    /// failure is handed back for the caller to log.
    pub fn perform<T: HeadTracker<S>>(&mut self, tracker: &T) -> (outcome: (Action, SensorReport))
        ensures
            outcome.0 == final(self)@.pending,
            old(self)@.pending == Action::StartSensor ==> {
                ||| outcome.1 is Nothing && final(self)@ == old(self)@.next(
                    Occurrence::SensorStarted,
                )
                ||| outcome.1 is StartFailed && final(self)@ == old(self)@.next(
                    Occurrence::SensorFailed,
                )
            },
            old(self)@.pending == Action::PullOrientation ==> outcome.1 is Nothing && exists|
                sample: Option<S::Orientation>,
            |
                final(self)@ == old(self)@.next(Occurrence::Pulled(sample)),
            old(self)@.pending == Action::StopSensor ==> (outcome.1 is Nothing || outcome.1
                is StopFailed) && final(self)@ == old(self)@.next(Occurrence::SensorStopped),
            old(self)@.pending != Action::StartSensor && old(self)@.pending
                != Action::PullOrientation && old(self)@.pending != Action::StopSensor ==> outcome.1
                is Nothing && final(self)@ == old(self)@,
    {
        match self.pending {
            Action::StartSensor => {
                match tracker.start_motion_updates() {
                    Ok(_) => {
                        let action = self.step(Event::SensorStarted);
                        (action, SensorReport::Nothing)
                    },
                    Err(error) => {
                        let action = self.step(Event::SensorFailed);
                        (action, SensorReport::StartFailed(error))
                    },
                }
            },
            Action::PullOrientation => {
                let sample = tracker.pull_orientation();
                let action = self.step(Event::Pulled(sample));
                (action, SensorReport::Nothing)
            },
            Action::StopSensor => {
                let stopped = tracker.stop_motion_updates();
                let action = self.step(Event::SensorStopped);
                match stopped {
                    Ok(_) => (action, SensorReport::Nothing),
                    Err(error) => (action, SensorReport::StopFailed(error)),
                }
            },
            _ => (self.pending, SensorReport::Nothing),
        }
    }
}

/// Every event leaves a well-formed machine well-formed.
pub proof fn lemma_next_well_formed<S: Space>(machine: SamplerModel<S>, event: Occurrence<S>)
    requires
        machine.well_formed(),
    ensures
        machine.next(event).well_formed(),
{
}

/// Every run leaves a well-formed machine well-formed.
pub proof fn lemma_run_well_formed<S: Space>(machine: SamplerModel<S>, events: Seq<Occurrence<S>>)
    requires
        machine.well_formed(),
    ensures
        machine.run(events).well_formed(),
    decreases events.len(),
{
    if events.len() > 0 {
        lemma_run_well_formed(machine, events.drop_last());
        lemma_next_well_formed(machine.run(events.drop_last()), events.last());
    }
}

/// A thread's life only moves forward: no event takes the machine to an
/// earlier phase. So the machine enters `Sampling` at most once, and a
/// stopped machine stays stopped.
pub proof fn lemma_phase_never_goes_back<S: Space>(
    machine: SamplerModel<S>,
    events: Seq<Occurrence<S>>,
)
    ensures
        phase_rank(machine.run(events).phase) >= phase_rank(machine.phase),
    decreases events.len(),
{
    if events.len() > 0 {
        lemma_phase_never_goes_back(machine, events.drop_last());
    }
}

/// The machine asks for the sensor to be started, or samples, only after both
/// readiness signals have arrived, in whichever order and among whatever
/// other events.
pub proof fn lemma_sampling_needs_both_signals<S: Space>(events: Seq<Occurrence<S>>)
    ensures
        ({
            let machine = SamplerModel::<S>::idle().run(events);
            machine.pending == Action::StartSensor || machine.phase == Phase::Sampling
                ==> received_playing(events) && received_scene(events)
        }),
{
    lemma_gate_follows_events(events);
    lemma_run_well_formed(SamplerModel::<S>::idle(), events);
}

/// What a machine's gate has noted has arrived as an event.
proof fn lemma_gate_follows_events<S: Space>(events: Seq<Occurrence<S>>)
    ensures
        ({
            let machine = SamplerModel::<S>::idle().run(events);
            &&& machine.gate.playing ==> received_playing(events)
            &&& machine.gate.scene is Some ==> received_scene(events)
        }),
    decreases events.len(),
{
    if events.len() > 0 {
        let before = events.drop_last();
        lemma_gate_follows_events(before);
        if received_playing(before) {
            let i = choose|i: int|
                0 <= i < before.len() && #[trigger] before[i] == Occurrence::<S>::Received(
                    Signal::Playing,
                );
            assert(events[i] == Occurrence::<S>::Received(Signal::Playing));
        }
        if received_scene(before) {
            let i = choose|i: int|
                0 <= i < before.len() && (#[trigger] before[i] is Received)
                    && before[i]->Received_0 is InitialScene;
            assert(events[i] is Received && events[i]->Received_0 is InitialScene);
        }
        let last = events[events.len() - 1];
        assert(last == events.last());
        if last is Received {
            if last->Received_0 is Playing {
                assert(last == Occurrence::<S>::Received(Signal::Playing));
            }
        }
    }
}

/// With both signals delivered, in either order, the machine asks for the
/// sensor, and samples once the sensor has started.
pub proof fn lemma_either_order_starts<S: Space>(scene: Seq<crate::scene::Source<S>>)
    ensures
        ({
            let waiting = SamplerModel::<S>::idle().next(Occurrence::Spawned);
            let playing = Occurrence::<S>::Received(Signal::Playing);
            let captured = Occurrence::<S>::Received(Signal::InitialScene(scene));
            &&& waiting.next(playing).pending == Action::Receive
            &&& waiting.next(captured).pending == Action::Receive
            &&& waiting.next(playing).next(captured) == waiting.next(captured).next(playing)
            &&& waiting.next(playing).next(captured).pending == Action::StartSensor
            &&& waiting.next(playing).next(captured).phase == Phase::WaitingForStart
            &&& waiting.next(playing).next(captured).gate.scene == Some(scene)
            &&& waiting.next(playing).next(captured).next(Occurrence::SensorStarted).phase
                == Phase::Sampling
            &&& waiting.next(playing).next(captured).next(Occurrence::SensorFailed).phase
                == Phase::Stopped
        }),
{
}

/// If the owner shuts down while the machine still waits for a signal, the
/// machine stops at once, aborts its gate, and never asks for the sensor,
/// whatever events follow.
pub proof fn lemma_shutdown_before_ready<S: Space>(
    machine: SamplerModel<S>,
    later: Seq<Occurrence<S>>,
)
    requires
        machine.well_formed(),
        machine.phase == Phase::WaitingForStart,
        machine.gate.state == GateState::NotStarted,
    ensures
        ({
            let stopped = machine.next(Occurrence::Disconnected);
            &&& stopped.phase == Phase::Stopped
            &&& stopped.pending == Action::Finish
            &&& stopped.gate.state == GateState::Aborted
            &&& stopped.run(later) == stopped
        }),
    decreases later.len(),
{
    if later.len() > 0 {
        lemma_shutdown_before_ready(machine, later.drop_last());
    }
}

} // verus!

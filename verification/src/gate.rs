//! The start gate: two readiness signals, combined once.
//!
//! A sampling thread waits at a start gate. It opens when the pipeline has
//! started playing and an initial scene is known, in whichever order the two
//! signals come. Shutdown may abort a gate that has not opened. Once opened or
//! aborted, a gate never changes again.

use vstd::prelude::*;
use crate::scene::{Scene, Source};
use crate::space::Space;

verus! {

/// A readiness signal on its way to a gate.
#[derive(Debug)]
#[verifier::reject_recursive_types(S)]
pub enum StateChangeMessage<S: Space> {
    /// The pipeline has reached its playing state.
    StartedPlaying,
    /// The renderer's first scene has been captured.
    HaveInitialScene(Scene<S>),
}

/// A readiness signal as contracts see it.
#[verifier::reject_recursive_types(S)]
pub ghost enum Signal<S: Space> {
    Playing,
    InitialScene(Seq<Source<S>>),
}

/// Where a gate stands.
#[derive(Clone, Copy, Debug, PartialEq, Eq, Structural)]
pub enum GateState {
    NotStarted,
    Started,
    Aborted,
}

/// A gate as contracts see it.
#[verifier::reject_recursive_types(S)]
pub ghost struct GateModel<S: Space> {
    pub state: GateState,
    pub playing: bool,
    pub scene: Option<Seq<Source<S>>>,
}

/// The start gate.
#[verifier::reject_recursive_types(S)]
pub struct StartGate<S: Space> {
    state: GateState,
    playing: bool,
    scene: Option<Scene<S>>,
}

impl<S: Space> View for StateChangeMessage<S> {
    type V = Signal<S>;

    open spec fn view(&self) -> Signal<S> {
        match self {
            StateChangeMessage::StartedPlaying => Signal::Playing,
            StateChangeMessage::HaveInitialScene(scene) => Signal::InitialScene(scene@),
        }
    }
}

impl<S: Space> GateModel<S> {
    /// A gate that has seen nothing.
    pub open spec fn fresh() -> Self {
        GateModel { state: GateState::NotStarted, playing: false, scene: None }
    }

    /// Whether both signals have been seen.
    pub open spec fn ready(self) -> bool {
        self.playing && self.scene is Some
    }

    /// A gate is started exactly when it was ready before any abort, and an
    /// unresolved gate is not ready.
    pub open spec fn well_formed(self) -> bool {
        &&& self.state == GateState::Started ==> self.ready()
        &&& self.state == GateState::NotStarted ==> !self.ready()
    }

    /// This gate after `signal`. A resolved gate ignores it; a later scene
    /// replaces an earlier one while this gate is unresolved.
    pub open spec fn deliver(self, signal: Signal<S>) -> Self {
        if self.state != GateState::NotStarted {
            self
        } else {
            let playing = self.playing || signal is Playing;
            let scene = match signal {
                Signal::Playing => self.scene,
                Signal::InitialScene(s) => Some(s),
            };
            GateModel {
                state: if playing && scene is Some {
                    GateState::Started
                } else {
                    GateState::NotStarted
                },
                playing,
                scene,
            }
        }
    }

    /// This gate after a request to shut down. A resolved gate ignores it.
    pub open spec fn abort(self) -> Self {
        if self.state != GateState::NotStarted {
            self
        } else {
            GateModel { state: GateState::Aborted, playing: self.playing, scene: self.scene }
        }
    }

    /// This gate after `signals`, delivered in order.
    pub open spec fn deliver_all(self, signals: Seq<Signal<S>>) -> Self
        decreases signals.len(),
    {
        if signals.len() == 0 {
            self
        } else {
            self.deliver_all(signals.drop_last()).deliver(signals.last())
        }
    }
}

/// Whether `signals` holds a playing signal.
pub open spec fn has_playing<S: Space>(signals: Seq<Signal<S>>) -> bool {
    exists|i: int| 0 <= i < signals.len() && #[trigger] signals[i] is Playing
}

/// Whether `signals` holds an initial scene.
pub open spec fn has_scene<S: Space>(signals: Seq<Signal<S>>) -> bool {
    exists|i: int| 0 <= i < signals.len() && #[trigger] signals[i] is InitialScene
}

impl<S: Space> View for StartGate<S> {
    type V = GateModel<S>;

    closed spec fn view(&self) -> GateModel<S> {
        GateModel {
            state: self.state,
            playing: self.playing,
            scene: match self.scene {
                Some(scene) => Some(scene@),
                None => None,
            },
        }
    }
}

impl<S: Space> StartGate<S> {
    /// A gate that has seen nothing.
    pub fn new() -> (gate: Self)
        ensures
            gate@ == GateModel::<S>::fresh(),
    {
        StartGate { state: GateState::NotStarted, playing: false, scene: None }
    }

    /// Hands one signal to this gate.
    pub fn deliver(&mut self, message: StateChangeMessage<S>)
        ensures
            final(self)@ == old(self)@.deliver(message@),
    {
        if self.state == GateState::NotStarted {
            match message {
                StateChangeMessage::StartedPlaying => {
                    self.playing = true;
                },
                StateChangeMessage::HaveInitialScene(scene) => {
                    self.scene = Some(scene);
                },
            }
            if self.playing && self.scene.is_some() {
                self.state = GateState::Started;
            }
        }
    }

    /// Asks this gate to give up waiting.
    pub fn abort(&mut self)
        ensures
            final(self)@ == old(self)@.abort(),
    {
        if self.state == GateState::NotStarted {
            self.state = GateState::Aborted;
        }
    }

    pub fn state(&self) -> (state: GateState)
        ensures
            state == self@.state,
    {
        self.state
    }

    /// The scene that this gate holds, if it has seen one.
    pub fn initial_scene(&self) -> (scene: Option<&Scene<S>>)
        ensures
            scene is Some <==> self@.scene is Some,
            scene is Some ==> scene.unwrap()@ == self@.scene.unwrap(),
    {
        self.scene.as_ref()
    }
}

/// The signals that `messages` stand for, in order.
pub open spec fn signals_of<S: Space>(messages: Seq<StateChangeMessage<S>>) -> Seq<Signal<S>> {
    Seq::new(messages.len(), |i: int| messages[i]@)
}

/// What a thread that waits on a channel of signals ends up with. The channel
/// delivered `messages`, in order, and was then closed. The result is the
/// initial scene if a fresh gate opened on the way, and nothing if the channel
/// closed first.
pub fn wait_for_initial_scene<S: Space>(messages: &Vec<StateChangeMessage<S>>) -> (scene: Option<
    Scene<S>,
>)
    ensures
        ({
            let gate = GateModel::<S>::fresh().deliver_all(signals_of(messages@));
            &&& scene is Some <==> gate.state == GateState::Started
            &&& scene is Some ==> Some(scene.unwrap()@) == gate.scene
        }),
{
    let ghost signals = signals_of(messages@);
    let mut gate: StartGate<S> = StartGate::new();
    let mut i: usize = 0;
    while i < messages.len()
        invariant
            i <= messages.len(),
            signals == signals_of(messages@),
            gate@ == GateModel::<S>::fresh().deliver_all(signals.take(i as int)),
        decreases messages.len() - i,
    {
        match &messages[i] {
            StateChangeMessage::StartedPlaying => {
                gate.deliver(StateChangeMessage::StartedPlaying);
            },
            StateChangeMessage::HaveInitialScene(scene) => {
                gate.deliver(StateChangeMessage::HaveInitialScene(scene.clone()));
            },
        }
        i += 1;
        assert(signals.take(i as int).drop_last() =~= signals.take(i as int - 1));
    }
    proof {
        assert(signals.take(i as int) =~= signals);
        lemma_deliver_all_well_formed(GateModel::<S>::fresh(), signals);
    }
    match gate.state {
        GateState::Started => gate.scene,
        _ => None,
    }
}

/// Delivering signals to a well-formed gate leaves it well-formed.
pub proof fn lemma_deliver_all_well_formed<S: Space>(gate: GateModel<S>, signals: Seq<Signal<S>>)
    requires
        gate.well_formed(),
    ensures
        gate.deliver_all(signals).well_formed(),
        gate.state != GateState::Aborted ==> gate.deliver_all(signals).state != GateState::Aborted,
    decreases signals.len(),
{
    if signals.len() > 0 {
        lemma_deliver_all_well_formed(gate, signals.drop_last());
    }
}

/// A gate that has opened or was aborted never changes again.
pub proof fn lemma_gate_one_shot<S: Space>(gate: GateModel<S>, signal: Signal<S>)
    requires
        gate.state != GateState::NotStarted,
    ensures
        gate.deliver(signal) == gate,
        gate.abort() == gate,
{
}

/// The two signals open a fresh gate in either order, and after both it
/// holds the scene that was delivered.
pub proof fn lemma_gate_either_order<S: Space>(scene: Seq<Source<S>>)
    ensures
        GateModel::<S>::fresh().deliver(Signal::Playing).state == GateState::NotStarted,
        GateModel::<S>::fresh().deliver(Signal::InitialScene(scene)).state == GateState::NotStarted,
        GateModel::<S>::fresh().deliver(Signal::Playing).deliver(Signal::InitialScene(scene))
            == GateModel::<S>::fresh().deliver(Signal::InitialScene(scene)).deliver(Signal::Playing),
        GateModel::<S>::fresh().deliver(Signal::Playing).deliver(
            Signal::InitialScene(scene),
        ).state == GateState::Started,
        GateModel::<S>::fresh().deliver(Signal::Playing).deliver(
            Signal::InitialScene(scene),
        ).scene == Some(scene),
{
}

/// A fresh gate has opened after a run of signals exactly when the run holds
/// both a playing signal and an initial scene.
pub proof fn lemma_gate_opens_on_both<S: Space>(signals: Seq<Signal<S>>)
    ensures
        GateModel::<S>::fresh().deliver_all(signals).state == GateState::Started <==> has_playing(
            signals,
        ) && has_scene(signals),
        GateModel::<S>::fresh().deliver_all(signals).state != GateState::Aborted,
{
    lemma_gate_tracks_signals(signals);
    lemma_deliver_all_well_formed(GateModel::<S>::fresh(), signals);
}

/// While a fresh gate is unresolved, it has noted exactly the kinds of signal
/// that were delivered; once started, both kinds were.
proof fn lemma_gate_tracks_signals<S: Space>(signals: Seq<Signal<S>>)
    ensures
        ({
            let gate = GateModel::<S>::fresh().deliver_all(signals);
            &&& gate.state == GateState::NotStarted ==> (gate.playing <==> has_playing(signals))
                && (gate.scene is Some <==> has_scene(signals))
            &&& gate.state == GateState::Started ==> has_playing(signals) && has_scene(signals)
            &&& gate.state != GateState::Aborted
        }),
    decreases signals.len(),
{
    if signals.len() > 0 {
        let before = signals.drop_last();
        let last = signals.last();
        lemma_gate_tracks_signals(before);
        lemma_deliver_all_well_formed(GateModel::<S>::fresh(), before);
        let gate = GateModel::<S>::fresh().deliver_all(before);
        if has_playing(before) {
            let i = choose|i: int| 0 <= i < before.len() && #[trigger] before[i] is Playing;
            assert(signals[i] is Playing);
        }
        if has_scene(before) {
            let i = choose|i: int| 0 <= i < before.len() && #[trigger] before[i] is InitialScene;
            assert(signals[i] is InitialScene);
        }
        if has_playing(signals) && !(last is Playing) {
            let i = choose|i: int| 0 <= i < signals.len() && #[trigger] signals[i] is Playing;
            assert(before[i] is Playing);
        }
        if has_scene(signals) && !(last is InitialScene) {
            let i = choose|i: int| 0 <= i < signals.len() && #[trigger] signals[i] is InitialScene;
            assert(before[i] is InitialScene);
        }
        if last is Playing {
            assert(signals[signals.len() - 1] is Playing);
        }
        if last is InitialScene {
            assert(signals[signals.len() - 1] is InitialScene);
        }
    }
}

} // verus!

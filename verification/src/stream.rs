//! The decisions of a receiving stream: which pipeline events become
//! readiness signals, how an incoming pad is wired, and what teardown does.
//!
//! The pipeline itself is somebody else's. Its events come in as plain values
//! and the answers go out as plain values.

use vstd::prelude::*;
use vstd::string::StrSliceExecFns;
use crate::gate::{Signal, StateChangeMessage};
use crate::scene::Scene;
use crate::space::Space;

verus! {

/// A state of the media pipeline.
#[derive(Clone, Copy, Debug, PartialEq, Eq, Structural)]
pub enum PipelineState {
    VoidPending,
    Null,
    Ready,
    Paused,
    Playing,
}

/// What a message on the pipeline's bus says, as far as a stream cares.
#[derive(Clone, Copy, Debug, PartialEq, Eq, Structural)]
pub enum BusMessage {
    /// Some element changed state. `from_pipeline` tells whether that element
    /// is the pipeline itself, `current` the state it is in now.
    StateChanged { from_pipeline: bool, current: PipelineState },
    /// An element reported an error.
    Error,
    /// Anything else.
    Other,
}

/// What an event on the renderer's output says, as far as a stream cares.
#[derive(Clone, Copy, Debug, PartialEq, Eq, Structural)]
pub enum ProbeEvent {
    /// The format of the frames to come.
    Caps,
    /// Anything else.
    Other,
}

/// What becomes of a probe after it has seen an event.
#[derive(Clone, Copy, Debug, PartialEq, Eq, Structural)]
pub enum PadProbeReturn {
    /// The probe stays.
    Keep,
    /// The probe is taken off and will not fire again.
    Remove,
}

/// The signal, if any, that a bus message gives rise to: the pipeline itself
/// reaching its playing state starts playback, and nothing else does.
pub fn on_bus_message<S: Space>(message: &BusMessage) -> (signal: Option<StateChangeMessage<S>>)
    ensures
        signal is Some <==> *message == (BusMessage::StateChanged {
            from_pipeline: true,
            current: PipelineState::Playing,
        }),
        signal is Some ==> signal.unwrap()@ == Signal::<S>::Playing,
{
    match message {
        BusMessage::StateChanged { from_pipeline, current } => {
            if !*from_pipeline {
                return None;
            }
            match current {
                PipelineState::Playing => Some(StateChangeMessage::StartedPlaying),
                _ => None,
            }
        },
        _ => None,
    }
}

/// What a probe on the renderer's output does with an event. `scene` is the
/// scene that the renderer holds when the event passes. The first format
/// event that finds a scene sends it on and takes the probe off; until then
/// the probe stays and sends nothing.
pub fn on_renderer_src_event<S: Space>(event: ProbeEvent, scene: Option<Scene<S>>) -> (outcome: (
    PadProbeReturn,
    Option<StateChangeMessage<S>>,
))
    ensures
        event == ProbeEvent::Caps && scene is Some ==> outcome.0 == PadProbeReturn::Remove
            && outcome.1 is Some && outcome.1.unwrap()@ == Signal::InitialScene(scene.unwrap()@),
        !(event == ProbeEvent::Caps && scene is Some) ==> outcome.0 == PadProbeReturn::Keep
            && outcome.1 is None,
{
    match event {
        ProbeEvent::Caps => match scene {
            Some(scene) => (
                PadProbeReturn::Remove,
                Some(StateChangeMessage::HaveInitialScene(scene)),
            ),
            None => (PadProbeReturn::Keep, None),
        },
        ProbeEvent::Other => (PadProbeReturn::Keep, None),
    }
}

/// The kind of media that an incoming pad carries.
#[derive(Clone, Copy, Debug, PartialEq, Eq, Structural)]
pub enum Branch {
    Video,
    Audio,
}

/// An element of a branch.
#[derive(Clone, Copy, Debug, PartialEq, Eq, Structural)]
pub enum Element {
    Queue,
    VideoConvert,
    /// A filter that lets only raw video in the YV12 format through.
    CapsFilter,
    GlUpload,
    /// The stream's video sink, which is part of the pipeline from the start.
    VideoSink,
    AudioConvert,
    AudioResample,
    /// The stream's spatial renderer.
    HrtfRenderer,
    AutoAudioSink,
}

/// How to wire one incoming pad.
#[derive(Debug)]
pub struct BranchPlan {
    /// The elements to link, in order, behind the pad.
    pub chain: Vec<Element>,
    /// How many of them, from the front, are new to the pipeline.
    pub added: usize,
}

/// The branch that a pad named `name` carries.
pub open spec fn branch_of(name: Seq<char>) -> Option<Branch> {
    if name.len() >= 5 && name.subrange(0, 5) == seq!['v', 'i', 'd', 'e', 'o'] {
        Some(Branch::Video)
    } else if name.len() >= 5 && name.subrange(0, 5) == seq!['a', 'u', 'd', 'i', 'o'] {
        Some(Branch::Audio)
    } else {
        None
    }
}

/// The elements of a branch, in order.
pub open spec fn chain_of(branch: Branch) -> Seq<Element> {
    match branch {
        Branch::Video => seq![
            Element::Queue,
            Element::VideoConvert,
            Element::CapsFilter,
            Element::GlUpload,
            Element::VideoSink,
        ],
        Branch::Audio => seq![
            Element::Queue,
            Element::AudioConvert,
            Element::AudioResample,
            Element::HrtfRenderer,
            Element::AutoAudioSink,
        ],
    }
}

/// Tells by the first five characters of a pad's name what it carries.
pub fn pad_branch(name: &str) -> (branch: Option<Branch>)
    ensures
        branch == branch_of(name@),
{
    if name.unicode_len() < 5 {
        return None;
    }
    let c0 = name.get_char(0);
    let c1 = name.get_char(1);
    let c2 = name.get_char(2);
    let c3 = name.get_char(3);
    let c4 = name.get_char(4);
    proof {
        let head = name@.subrange(0, 5);
        assert(head[0] == c0 && head[1] == c1 && head[2] == c2 && head[3] == c3 && head[4] == c4);
        assert(head =~= seq![c0, c1, c2, c3, c4]);
        assert(seq!['v', 'i', 'd', 'e', 'o'][0] == 'v');
        assert(seq!['v', 'i', 'd', 'e', 'o'][1] == 'i');
        assert(seq!['v', 'i', 'd', 'e', 'o'][2] == 'd');
        assert(seq!['v', 'i', 'd', 'e', 'o'][3] == 'e');
        assert(seq!['v', 'i', 'd', 'e', 'o'][4] == 'o');
        assert(seq!['a', 'u', 'd', 'i', 'o'][0] == 'a');
        assert(seq!['a', 'u', 'd', 'i', 'o'][1] == 'u');
        assert(seq!['a', 'u', 'd', 'i', 'o'][2] == 'd');
        assert(seq!['a', 'u', 'd', 'i', 'o'][3] == 'i');
        assert(seq!['a', 'u', 'd', 'i', 'o'][4] == 'o');
    }
    if c0 == 'v' && c1 == 'i' && c2 == 'd' && c3 == 'e' && c4 == 'o' {
        Some(Branch::Video)
    } else if c0 == 'a' && c1 == 'u' && c2 == 'd' && c3 == 'i' && c4 == 'o' {
        Some(Branch::Audio)
    } else {
        None
    }
}

/// The wiring for a pad named `name`. `video_linked` and `audio_linked` tell
/// whether the video sink and the renderer already have an upstream. There
/// is no wiring for a pad that carries neither video nor audio, nor for a
/// second pad of a kind that is already wired.
pub fn handle_webrtc_pad(name: &str, video_linked: bool, audio_linked: bool) -> (plan: Option<
    BranchPlan,
>)
    ensures
        plan is Some <==> (branch_of(name@) == Some(Branch::Video) && !video_linked) || (branch_of(
            name@,
        ) == Some(Branch::Audio) && !audio_linked),
        plan is Some ==> plan.unwrap().chain@ == chain_of(branch_of(name@).unwrap()),
        plan is Some && branch_of(name@) == Some(Branch::Video) ==> plan.unwrap().added == 4,
        plan is Some && branch_of(name@) == Some(Branch::Audio) ==> plan.unwrap().added == 5,
{
    match pad_branch(name) {
        Some(Branch::Video) => {
            if video_linked {
                return None;
            }
            let mut chain: Vec<Element> = Vec::with_capacity(8);
            chain.push(Element::Queue);
            chain.push(Element::VideoConvert);
            chain.push(Element::CapsFilter);
            chain.push(Element::GlUpload);
            chain.push(Element::VideoSink);
            let added = chain.len() - 1;
            assert(chain@ =~= chain_of(Branch::Video));
            Some(BranchPlan { chain, added })
        },
        Some(Branch::Audio) => {
            if audio_linked {
                return None;
            }
            let mut chain: Vec<Element> = Vec::with_capacity(8);
            chain.push(Element::Queue);
            chain.push(Element::AudioConvert);
            chain.push(Element::AudioResample);
            chain.push(Element::HrtfRenderer);
            chain.push(Element::AutoAudioSink);
            let added = chain.len();
            assert(chain@ =~= chain_of(Branch::Audio));
            Some(BranchPlan { chain, added })
        },
        None => None,
    }
}

/// What a stream knows of its sampling thread.
#[derive(Clone, Copy, Debug, PartialEq, Eq, Structural)]
pub enum ThreadStatus {
    /// There never was one: the platform has no head tracker.
    Absent,
    /// It was started and has not been joined.
    Running,
    /// It was joined.
    Joined,
}

/// One step of a teardown.
#[derive(Clone, Copy, Debug, PartialEq, Eq, Structural)]
pub enum TeardownStep {
    /// Bring the pipeline to its null state; go on if that fails.
    StopPipeline,
    /// Take the stream's handler off the pipeline's bus.
    DetachBusHandler,
    /// Close the channel to the sampling thread, which aborts a gate that has
    /// not opened and ends sampling otherwise.
    HangUp,
    /// Stop the sensor, so that a call that blocks in it returns.
    StopSensor,
    /// Wait for the sampling thread to end.
    JoinThread,
}

/// The part of a stream that teardown is about.
#[derive(Clone, Copy, Debug, PartialEq, Eq, Structural)]
pub struct Session {
    pub thread: ThreadStatus,
}

/// The steps of a teardown for a thread in `status`, in order. Only a running
/// thread is hung up on, has its sensor stopped, and is joined.
pub open spec fn teardown_steps(status: ThreadStatus) -> Seq<TeardownStep> {
    if status == ThreadStatus::Running {
        seq![
            TeardownStep::StopPipeline,
            TeardownStep::DetachBusHandler,
            TeardownStep::HangUp,
            TeardownStep::StopSensor,
            TeardownStep::JoinThread,
        ]
    } else {
        seq![TeardownStep::StopPipeline, TeardownStep::DetachBusHandler]
    }
}

/// The thread's status after a teardown.
pub open spec fn after_teardown(status: ThreadStatus) -> ThreadStatus {
    if status == ThreadStatus::Running {
        ThreadStatus::Joined
    } else {
        status
    }
}

impl Session {
    /// A session for a new stream. A sampling thread runs exactly when the
    /// platform has a head tracker.
    pub fn create_ht_thread(head_tracker_available: bool) -> (session: Self)
        ensures
            session.thread == if head_tracker_available {
                ThreadStatus::Running
            } else {
                ThreadStatus::Absent
            },
    {
        if head_tracker_available {
            Session { thread: ThreadStatus::Running }
        } else {
            Session { thread: ThreadStatus::Absent }
        }
    }

    /// The steps to take now, in order. The thread counts as joined from here
    /// on.
    pub fn teardown(&mut self) -> (steps: Vec<TeardownStep>)
        ensures
            steps@ == teardown_steps(old(self).thread),
            final(self).thread == after_teardown(old(self).thread),
    {
        let mut steps: Vec<TeardownStep> = Vec::with_capacity(5);
        steps.push(TeardownStep::StopPipeline);
        steps.push(TeardownStep::DetachBusHandler);
        match self.thread {
            ThreadStatus::Running => {
                steps.push(TeardownStep::HangUp);
                steps.push(TeardownStep::StopSensor);
                steps.push(TeardownStep::JoinThread);
                self.thread = ThreadStatus::Joined;
            },
            _ => {},
        }
        assert(steps@ =~= teardown_steps(old(self).thread));
        steps
    }
}

/// A second teardown hangs up on nothing, stops no sensor and joins no
/// thread, and leaves the session as the first left it. In a first teardown
/// of a running thread, the channel is closed and the sensor stopped before
/// the thread is joined, each once.
pub proof fn lemma_teardown_idempotent(status: ThreadStatus)
    ensures
        after_teardown(after_teardown(status)) == after_teardown(status),
        teardown_steps(after_teardown(status)) == seq![
            TeardownStep::StopPipeline,
            TeardownStep::DetachBusHandler,
        ],
        !teardown_steps(after_teardown(status)).contains(TeardownStep::HangUp),
        !teardown_steps(after_teardown(status)).contains(TeardownStep::StopSensor),
        !teardown_steps(after_teardown(status)).contains(TeardownStep::JoinThread),
        status == ThreadStatus::Running ==> teardown_steps(status).index_of(TeardownStep::HangUp)
            < teardown_steps(status).index_of(TeardownStep::StopSensor) < teardown_steps(
            status,
        ).index_of(TeardownStep::JoinThread),
{
    let second = teardown_steps(after_teardown(status));
    assert(second =~= seq![TeardownStep::StopPipeline, TeardownStep::DetachBusHandler]);
    assert forall|step: TeardownStep| second.contains(step) implies step
        == TeardownStep::StopPipeline || step == TeardownStep::DetachBusHandler by {
        let i = choose|i: int| 0 <= i < second.len() && second[i] == step;
        assert(i == 0 || i == 1);
    }
    if status == ThreadStatus::Running {
        let first = teardown_steps(status);
        assert(first[2] == TeardownStep::HangUp);
        assert(first[3] == TeardownStep::StopSensor);
        assert(first[4] == TeardownStep::JoinThread);
    }
}

} // verus!

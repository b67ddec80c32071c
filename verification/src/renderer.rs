//! What passes between a scene and the element that renders it.

use vstd::prelude::*;
use vstd::std_specs::convert::FromSpecImpl;
use vstd::string::StringExecFns;
use crate::scene::{Scene, Source};
use crate::space::Space;

verus! {

/// `std::io::Error`, carried from where a file could not be read to whoever
/// reports it. Nothing is known of a value but that it is one.
#[verifier::external_type_specification]
#[verifier::external_body]
pub struct ExIoError(std::io::Error);

/// Why a renderer could not be set up.
#[derive(Debug)]
pub enum SetupError {
    /// The rendering element is not installed.
    MissingPlugin,
    /// The file of impulse responses could not be read.
    CannotReadHRIRFile(std::io::Error),
}

/// An element that could not be loaded ahead of use.
#[derive(Debug)]
pub struct PreloadError {
    element_name: String,
}

impl SetupError {
    /// The error in words.
    pub fn message(&self) -> (message: &'static str)
        ensures
            self is MissingPlugin ==> message@
                == "HRTF renderer element is missing: please make sure you have audiofx Rust plugins installed and available in the plugin search path"@,
            self is CannotReadHRIRFile ==> message@ == "cannot open HRIR file"@,
    {
        match self {
            SetupError::MissingPlugin => {
                "HRTF renderer element is missing: please make sure you have audiofx Rust plugins installed and available in the plugin search path"
            },
            SetupError::CannotReadHRIRFile(_) => "cannot open HRIR file",
        }
    }
}

impl From<std::io::Error> for SetupError {
    fn from(value: std::io::Error) -> (error: Self) {
        SetupError::CannotReadHRIRFile(value)
    }
}

impl FromSpecImpl<std::io::Error> for SetupError {
    open spec fn obeys_from_spec() -> bool {
        true
    }

    open spec fn from_spec(value: std::io::Error) -> Self {
        SetupError::CannotReadHRIRFile(value)
    }
}

impl View for PreloadError {
    type V = Seq<char>;

    closed spec fn view(&self) -> Seq<char> {
        self.element_name@
    }
}

impl PreloadError {
    pub fn new(element_name: &str) -> (error: Self)
        ensures
            error@ == element_name@,
    {
        PreloadError { element_name: element_name.to_owned() }
    }

    /// The element that could not be loaded.
    pub fn element_name(&self) -> (name: &str)
        ensures
            name@ == self@,
    {
        self.element_name.as_str()
    }

    /// The error in words.
    pub fn message(&self) -> (message: String)
        ensures
            message@ == "failed to preload "@ + self@,
    {
        String::from_str("failed to preload ").concat(self.element_name.as_str())
    }
}

/// What preloading the element named `element_name` came to: `built` tells
/// whether the media framework could make one.
pub fn preload_gst_element(element_name: &str, built: bool) -> (outcome: Result<(), PreloadError>)
    ensures
        outcome is Ok <==> built,
        outcome is Err ==> outcome->Err_0@ == element_name@,
{
    if built {
        Ok(())
    } else {
        Err(PreloadError::new(element_name))
    }
}

/// The sources that `objects` describe, in order: each a position and a gain.
pub open spec fn sources_of<S: Space>(objects: Seq<(S::Point, S::Gain)>) -> Seq<Source<S>> {
    Seq::new(
        objects.len(),
        |i: int| Source { position: objects[i].0, distance_gain: objects[i].1 },
    )
}

/// The scene that a renderer holds, read from its list of spatial objects.
/// A renderer with no objects holds no scene.
pub fn current_scene<S: Space>(objects: &Vec<(S::Point, S::Gain)>) -> (scene: Option<Scene<S>>)
    ensures
        objects@.len() == 0 <==> scene is None,
        scene is Some ==> scene.unwrap()@ == sources_of::<S>(objects@),
{
    if objects.len() == 0 {
        return None;
    }
    let mut sources: Vec<Source<S>> = Vec::with_capacity(objects.len());
    let mut i: usize = 0;
    while i < objects.len()
        invariant
            i <= objects.len(),
            sources@ == sources_of::<S>(objects@).take(i as int),
        decreases objects.len() - i,
    {
        let (position, gain) = objects[i];
        sources.push(Source::with_location(position).distance_gain(gain).build());
        i += 1;
        assert(sources@ =~= sources_of::<S>(objects@).take(i as int));
    }
    assert(sources@ =~= sources_of::<S>(objects@));
    Some(Scene::new(sources))
}

/// The position and gain of each source of `sources`, in order.
pub open spec fn objects_of<S: Space>(sources: Seq<Source<S>>) -> Seq<(S::Point, S::Gain)> {
    Seq::new(sources.len(), |i: int| (sources[i].position, sources[i].distance_gain))
}

/// The spatial objects that a rendering element is given for `scene`: one
/// for each source, in order.
pub fn to_value_array<S: Space>(scene: &Scene<S>) -> (objects: Vec<(S::Point, S::Gain)>)
    ensures
        objects@ == objects_of(scene@),
{
    let sources = scene.sources();
    let mut objects: Vec<(S::Point, S::Gain)> = Vec::with_capacity(sources.len());
    let mut i: usize = 0;
    while i < sources.len()
        invariant
            i <= sources.len(),
            sources@ == scene@,
            objects@ == objects_of(scene@).take(i as int),
        decreases sources.len() - i,
    {
        objects.push((sources[i].location(), sources[i].distance_gain()));
        i += 1;
        assert(objects@ =~= objects_of(scene@).take(i as int));
    }
    assert(objects@ =~= objects_of(scene@));
    objects
}

/// Reading back the objects written for a scene gives the scene.
pub proof fn lemma_objects_round_trip<S: Space>(sources: Seq<Source<S>>)
    ensures
        sources_of::<S>(objects_of(sources)) == sources,
{
    assert(sources_of::<S>(objects_of(sources)) =~= sources);
}

} // verus!

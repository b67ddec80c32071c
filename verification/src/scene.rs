//! Sources, scenes and the listener that perceives them.
//!
//! A scene is a sequence of sources in one absolute frame. Every transform
//! gives back a new scene with one source for each source it was given, in the
//! same order; only positions change.

use vstd::prelude::*;
use vstd::std_specs::convert::FromSpecImpl;
use crate::space::{ExactSpace, Space};

verus! {

/// A point emitter: where it is and how its level falls with distance.
#[derive(Debug, PartialEq)]
#[verifier::reject_recursive_types(S)]
pub struct Source<S: Space> {
    pub position: S::Point,
    pub distance_gain: S::Gain,
}

/// A source in the making, whose gain can still be set.
#[verifier::reject_recursive_types(S)]
pub struct SourceBuilder<S: Space> {
    pub position: S::Point,
    pub distance_gain: S::Gain,
}

/// An ordered collection of sources.
#[derive(Debug, PartialEq)]
#[verifier::reject_recursive_types(S)]
pub struct Scene<S: Space> {
    sources: Vec<Source<S>>,
}

/// The observer: where it stands and how it is turned, in the scene's frame.
#[derive(Debug)]
#[verifier::reject_recursive_types(S)]
pub struct Listener<S: Space> {
    pub location: S::Point,
    pub orientation: S::Orientation,
}

impl<S: Space> Clone for Source<S> {
    fn clone(&self) -> (source: Self)
        ensures
            source == *self,
    {
        Source { position: self.position, distance_gain: self.distance_gain }
    }
}

impl<S: Space> Clone for Scene<S> {
    fn clone(&self) -> (scene: Self)
        ensures
            scene@ == self@,
    {
        let mut sources: Vec<Source<S>> = Vec::with_capacity(self.sources.len());
        let mut i: usize = 0;
        while i < self.sources.len()
            invariant
                i <= self.sources.len(),
                sources@ == self@.take(i as int),
            decreases self.sources.len() - i,
        {
            sources.push(self.sources[i].clone());
            i += 1;
            assert(sources@ =~= self@.take(i as int));
        }
        assert(sources@ =~= self@);
        Scene { sources }
    }
}

impl<S: Space> Clone for Listener<S> {
    fn clone(&self) -> (listener: Self)
        ensures
            listener == *self,
    {
        Listener { location: self.location, orientation: self.orientation }
    }
}

impl<S: Space> SourceBuilder<S> {
    /// Sets the gain of the source under construction.
    pub fn distance_gain(self, value: S::Gain) -> (builder: Self)
        ensures
            builder.position == self.position,
            builder.distance_gain == value,
    {
        SourceBuilder { position: self.position, distance_gain: value }
    }

    /// The finished source.
    pub fn build(self) -> (source: Source<S>)
        ensures
            source.position == self.position,
            source.distance_gain == self.distance_gain,
    {
        Source { position: self.position, distance_gain: self.distance_gain }
    }
}

impl<S: Space> Source<S> {
    /// This source turned by `orientation` about the origin.
    pub open spec fn turned(self, orientation: S::Orientation) -> Self {
        Source {
            position: S::rotated(orientation, self.position),
            distance_gain: self.distance_gain,
        }
    }

    /// This source as seen from `location`, without any turn.
    pub open spec fn seen_from(self, location: S::Point) -> Self {
        Source {
            position: S::difference(self.position, location),
            distance_gain: self.distance_gain,
        }
    }

    /// A source at `position` with full gain.
    pub fn new(position: S::Point) -> (source: Self)
        ensures
            source.position == position,
            source.distance_gain == S::full_gain(),
    {
        Source { position, distance_gain: S::unit_gain() }
    }

    /// Starts a source at `position`; the gain is full until set otherwise.
    pub fn with_location(position: S::Point) -> (builder: SourceBuilder<S>)
        ensures
            builder.position == position,
            builder.distance_gain == S::full_gain(),
    {
        SourceBuilder { position, distance_gain: S::unit_gain() }
    }

    /// The source turned by `orientation`; its gain is carried through.
    pub fn perceived_from(&self, orientation: &S::Orientation) -> (source: Self)
        ensures
            source == self.turned(*orientation),
    {
        Source {
            position: S::rotate(orientation, &self.position),
            distance_gain: self.distance_gain,
        }
    }

    pub fn location(&self) -> (position: S::Point)
        ensures
            position == self.position,
    {
        self.position
    }

    pub fn distance_gain(&self) -> (gain: S::Gain)
        ensures
            gain == self.distance_gain,
    {
        self.distance_gain
    }
}

/// `sources`, each turned by `orientation`.
pub open spec fn turned_sources<S: Space>(
    sources: Seq<Source<S>>,
    orientation: S::Orientation,
) -> Seq<Source<S>> {
    Seq::new(sources.len(), |i: int| sources[i].turned(orientation))
}

/// `sources`, each seen from `location`.
pub open spec fn sources_seen_from<S: Space>(
    sources: Seq<Source<S>>,
    location: S::Point,
) -> Seq<Source<S>> {
    Seq::new(sources.len(), |i: int| sources[i].seen_from(location))
}

impl<S: Space> View for Scene<S> {
    type V = Seq<Source<S>>;

    closed spec fn view(&self) -> Seq<Source<S>> {
        self.sources@
    }
}

impl<S: Space> Scene<S> {
    pub fn new(sources: Vec<Source<S>>) -> (scene: Self)
        ensures
            scene@ == sources@,
    {
        Scene { sources }
    }

    /// The scene with every source turned by `orientation`.
    pub fn relative_to(&self, orientation: S::Orientation) -> (scene: Self)
        ensures
            scene@ == turned_sources(self@, orientation),
    {
        let mut sources: Vec<Source<S>> = Vec::with_capacity(self.sources.len());
        let mut i: usize = 0;
        while i < self.sources.len()
            invariant
                i <= self.sources.len(),
                sources@ == turned_sources(self@, orientation).take(i as int),
            decreases self.sources.len() - i,
        {
            let source = self.sources[i].perceived_from(&orientation);
            sources.push(source);
            i += 1;
            assert(sources@ =~= turned_sources(self@, orientation).take(i as int));
        }
        assert(sources@ =~= turned_sources(self@, orientation));
        Scene { sources }
    }

    pub fn sources(&self) -> (sources: &[Source<S>])
        ensures
            sources@ == self@,
    {
        self.sources.as_slice()
    }
}

impl<S: Space> Listener<S> {
    /// What this listener perceives of `sources`: each source seen from the
    /// listener's location, then turned by the inverse of its orientation.
    pub open spec fn perceived(self, sources: Seq<Source<S>>) -> Seq<Source<S>> {
        turned_sources(sources_seen_from(sources, self.location), S::inverted(self.orientation))
    }

    /// A listener at the origin.
    pub fn new(orientation: S::Orientation) -> (listener: Self)
        ensures
            listener.location == S::origin_point(),
            listener.orientation == orientation,
    {
        Listener { location: S::origin(), orientation }
    }

    pub fn new_with_location(location: S::Point, orientation: S::Orientation) -> (listener: Self)
        ensures
            listener.location == location,
            listener.orientation == orientation,
    {
        Listener { location, orientation }
    }

    /// The scene in the listener's own frame.
    pub fn perceived_scene(&self, scene: &Scene<S>) -> (perceived: Scene<S>)
        ensures
            perceived@ == self.perceived(scene@),
    {
        let mut sources: Vec<Source<S>> = Vec::with_capacity(scene.sources.len());
        let mut i: usize = 0;
        while i < scene.sources.len()
            invariant
                i <= scene.sources.len(),
                sources@ == sources_seen_from(scene@, self.location).take(i as int),
            decreases scene.sources.len() - i,
        {
            let source = &scene.sources[i];
            sources.push(
                Source {
                    position: S::subtract(&source.position, &self.location),
                    distance_gain: source.distance_gain,
                },
            );
            i += 1;
            assert(sources@ =~= sources_seen_from(scene@, self.location).take(i as int));
        }
        assert(sources@ =~= sources_seen_from(scene@, self.location));
        Scene::new(sources).relative_to(S::inverse(&self.orientation))
    }

    pub fn location(&self) -> (location: S::Point)
        ensures
            location == self.location,
    {
        self.location
    }
}

impl<S: Space> From<(S::Point, S::Orientation)> for Listener<S> {
    fn from(value: (S::Point, S::Orientation)) -> (listener: Self) {
        Listener::new_with_location(value.0, value.1)
    }
}

impl<S: Space> FromSpecImpl<(S::Point, S::Orientation)> for Listener<S> {
    open spec fn obeys_from_spec() -> bool {
        true
    }

    open spec fn from_spec(value: (S::Point, S::Orientation)) -> Self {
        Listener { location: value.0, orientation: value.1 }
    }
}

/// Every transform keeps the number of sources and their order: the source at
/// each index of the result comes from the source at the same index.
pub proof fn lemma_transforms_keep_order<S: Space>(
    listener: Listener<S>,
    sources: Seq<Source<S>>,
    orientation: S::Orientation,
)
    ensures
        turned_sources(sources, orientation).len() == sources.len(),
        listener.perceived(sources).len() == sources.len(),
        forall|i: int|
            0 <= i < sources.len() ==> #[trigger] turned_sources(sources, orientation)[i]
                == sources[i].turned(orientation),
        forall|i: int|
            0 <= i < sources.len() ==> #[trigger] listener.perceived(sources)[i] == sources[i].seen_from(
                listener.location,
            ).turned(S::inverted(listener.orientation)),
{
}

/// A single source at `p` is perceived at `p` minus the listener's location,
/// turned by the inverse of the listener's orientation, with its gain kept.
pub proof fn lemma_translation_then_rotation<S: Space>(listener: Listener<S>, source: Source<S>)
    ensures
        listener.perceived(seq![source]).len() == 1,
        listener.perceived(seq![source])[0].position == S::rotated(
            S::inverted(listener.orientation),
            S::difference(source.position, listener.location),
        ),
        listener.perceived(seq![source])[0].distance_gain == source.distance_gain,
{
}

/// In an exact space, a listener at the origin that is not turned perceives
/// every scene as it is.
pub proof fn lemma_identity_transform<S: ExactSpace>(listener: Listener<S>, sources: Seq<Source<S>>)
    requires
        listener.location == S::origin_point(),
        listener.orientation == S::no_turn(),
    ensures
        listener.perceived(sources) == sources,
{
    S::law_no_turn_inverted();
    assert forall|i: int| 0 <= i < sources.len() implies #[trigger] listener.perceived(sources)[i]
        == sources[i] by {
        S::law_difference_from_origin(sources[i].position);
        S::law_no_turn(sources[i].position);
    }
    assert(listener.perceived(sources) =~= sources);
}

/// In an exact space, turning a scene and then turning it by the inverse gives
/// the scene back.
pub proof fn lemma_round_trip<S: ExactSpace>(sources: Seq<Source<S>>, orientation: S::Orientation)
    ensures
        turned_sources(turned_sources(sources, orientation), S::inverted(orientation)) == sources,
{
    let back = turned_sources(turned_sources(sources, orientation), S::inverted(orientation));
    assert forall|i: int| 0 <= i < sources.len() implies #[trigger] back[i] == sources[i] by {
        S::law_round_trip(orientation, sources[i].position);
    }
    assert(back =~= sources);
}

} // verus!

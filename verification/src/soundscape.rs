//! The coordinator that keeps a renderer in step with the listener.

use vstd::prelude::*;
use crate::scene::{Listener, Scene, Source};
use crate::space::Space;

verus! {

/// A sink for perceived scenes.
pub trait Renderer<S: Space> {
    /// Every scene pushed to this renderer so far, oldest first. A renderer
    /// that keeps no record leaves this unknown.
    open spec fn rendered(&self) -> Seq<Seq<Source<S>>> {
        arbitrary()
    }

    /// Takes one perceived scene.
    fn render_scene(&mut self, scene: &Scene<S>)
        ensures
            final(self).rendered() == old(self).rendered().push(scene@),
    ;
}

/// A renderer that keeps every scene it is given.
#[verifier::reject_recursive_types(S)]
pub struct Recorder<S: Space> {
    scenes: Vec<Scene<S>>,
}

impl<S: Space> Recorder<S> {
    pub fn new() -> (recorder: Self)
        ensures
            recorder.rendered() == Seq::<Seq<Source<S>>>::empty(),
    {
        let recorder = Recorder { scenes: Vec::new() };
        assert(recorder.rendered() =~= Seq::<Seq<Source<S>>>::empty());
        recorder
    }

    /// How many scenes were pushed.
    pub fn count(&self) -> (n: usize)
        ensures
            n == self.rendered().len(),
    {
        self.scenes.len()
    }

    /// The scene pushed at position `index`, counting from the oldest.
    pub fn scene(&self, index: usize) -> (scene: Option<&Scene<S>>)
        ensures
            index < self.rendered().len() ==> scene.is_some() && scene.unwrap()@
                == self.rendered()[index as int],
            index >= self.rendered().len() ==> scene.is_none(),
    {
        if index < self.scenes.len() {
            Some(&self.scenes[index])
        } else {
            None
        }
    }

    /// The scene pushed last.
    pub fn latest(&self) -> (scene: Option<&Scene<S>>)
        ensures
            self.rendered().len() > 0 ==> scene.is_some() && scene.unwrap()@
                == self.rendered().last(),
            self.rendered().len() == 0 ==> scene.is_none(),
    {
        if self.scenes.len() > 0 {
            Some(&self.scenes[self.scenes.len() - 1])
        } else {
            None
        }
    }
}

impl<S: Space> Renderer<S> for Recorder<S> {
    closed spec fn rendered(&self) -> Seq<Seq<Source<S>>> {
        Seq::new(self.scenes@.len(), |i: int| self.scenes@[i]@)
    }

    fn render_scene(&mut self, scene: &Scene<S>) {
        self.scenes.push(scene.clone());
        assert(self.rendered() =~= old(self).rendered().push(scene@));
    }
}

/// An absolute scene, the listener in it, and the renderer that is told what
/// the listener perceives.
#[verifier::reject_recursive_types(S)]
pub struct Soundscape<S: Space, T: Renderer<S>> {
    listener: Listener<S>,
    scene: Scene<S>,
    renderer: T,
}

impl<S: Space, T: Renderer<S>> Soundscape<S, T> {
    /// The absolute scene, which no operation changes.
    pub closed spec fn absolute(&self) -> Seq<Source<S>> {
        self.scene@
    }

    /// The listener last set.
    pub closed spec fn current_listener(&self) -> Listener<S> {
        self.listener
    }

    /// The renderer's history.
    pub closed spec fn pushed(&self) -> Seq<Seq<Source<S>>> {
        self.renderer.rendered()
    }

    /// Renders, once, what `initial_listener` perceives of `initial_scene`.
    pub fn new(initial_scene: Scene<S>, initial_listener: Listener<S>, renderer: T) -> (soundscape:
        Self)
        ensures
            soundscape.absolute() == initial_scene@,
            soundscape.current_listener() == initial_listener,
            soundscape.pushed() == renderer.rendered().push(
                initial_listener.perceived(initial_scene@),
            ),
    {
        let mut instance = Soundscape { listener: initial_listener, scene: initial_scene, renderer };
        instance.update_scene();
        instance
    }

    /// Replaces the listener and renders, once, what it perceives of the
    /// absolute scene.
    pub fn set_listener(&mut self, listener: Listener<S>)
        ensures
            final(self).absolute() == old(self).absolute(),
            final(self).current_listener() == listener,
            final(self).pushed() == old(self).pushed().push(listener.perceived(old(self).absolute())),
    {
        self.listener = listener;
        self.update_scene();
    }

    fn update_scene(&mut self)
        ensures
            final(self).absolute() == old(self).absolute(),
            final(self).current_listener() == old(self).current_listener(),
            final(self).pushed() == old(self).pushed().push(
                old(self).current_listener().perceived(old(self).absolute()),
            ),
    {
        let new_scene = self.listener.perceived_scene(&self.scene);
        self.renderer.render_scene(&new_scene);
    }

    pub fn renderer(&self) -> (renderer: &T)
        ensures
            renderer.rendered() == self.pushed(),
    {
        &self.renderer
    }
}

} // verus!

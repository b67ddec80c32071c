//! Spatial audio for a scene of point sources, as perceived by a listener
//! who moves and turns.
//!
//! [`scene`] turns an absolute scene into the scene that a listener
//! perceives, over a [`space`] that supplies the arithmetic; [`lattice`] is a
//! space in which that arithmetic is exact. [`soundscape`] keeps a renderer
//! in step with the listener. [`gate`] and [`sampler`] decide when a thread
//! that samples a head tracker may start and when it must stop, and
//! [`stream`] decides what a receiving stream does with the events of its
//! pipeline and how it is torn down. The rest is what stands around these:
//! the head tracker's interface and errors in [`tracking`], what passes to
//! and from the rendering element in [`renderer`], the sending side in
//! [`publisher`], and the token service in [`token`] and [`client`].

pub mod client;
pub mod gate;
pub mod greeter;
pub mod lattice;
pub mod publisher;
pub mod renderer;
pub mod sampler;
pub mod scene;
pub mod soundscape;
pub mod space;
pub mod stream;
pub mod sweep;
pub mod token;
pub mod tracking;

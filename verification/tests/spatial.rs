use std::f32::consts::FRAC_PI_2;

use approx::{AbsDiffEq, RelativeEq};
use nalgebra::{Point3, UnitQuaternion, Vector3};

use irt::scene::{Listener, Scene, Source};
use irt::soundscape::{Recorder, Soundscape};
use irt::space::Space;

type Orientation = UnitQuaternion<f32>;

/// Three-dimensional space in single precision.
#[derive(Clone, Copy, Debug, PartialEq)]
struct Euclid;

impl Space for Euclid {
    type Point = Point3<f32>;
    type Orientation = Orientation;
    type Gain = f32;

    fn origin() -> Point3<f32> {
        Point3::origin()
    }

    fn subtract(p: &Point3<f32>, q: &Point3<f32>) -> Point3<f32> {
        Point3::from(p - q)
    }

    fn identity() -> Orientation {
        Orientation::identity()
    }

    fn inverse(o: &Orientation) -> Orientation {
        o.inverse()
    }

    fn compose(first: &Orientation, second: &Orientation) -> Orientation {
        first * second
    }

    fn rotate(o: &Orientation, p: &Point3<f32>) -> Point3<f32> {
        o.transform_point(p)
    }

    fn unit_gain() -> f32 {
        1.0
    }
}

fn sources(points: &[Point3<f32>]) -> Vec<Source<Euclid>> {
    points.iter().map(|p| Source::new(*p)).collect()
}

#[test]
fn spatial_test_point_rotation() {
    let point = Point3::new(-1.0, 2.0, 0.0);
    let source: Source<Euclid> = Source::new(point);
    let orientation = Orientation::from_axis_angle(&Vector3::z_axis(), -FRAC_PI_2);

    let perceived_source = source.perceived_from(&orientation);

    assert!(perceived_source.location().relative_eq(
        &(orientation * point),
        Point3::<f32>::default_epsilon(),
        Point3::<f32>::default_max_relative(),
    ));
}

#[test]
fn spatial_test_scene_rotation() {
    let orientation = Orientation::from_axis_angle(&Vector3::z_axis(), -FRAC_PI_2);
    let scene_points = [
        Point3::new(-1.0, 2.0, 0.0),
        Point3::new(1.0, 3.0, 0.0),
        Point3::new(0.0, 3.0, 2.0),
    ];

    let rotated_points = scene_points.map(|p| orientation * p);

    let initial_scene: Scene<Euclid> = Scene::new(sources(&scene_points));
    let rotated_scene: Scene<Euclid> = Scene::new(sources(&rotated_points));

    assert_eq!(initial_scene.relative_to(orientation), rotated_scene);
}

#[test]
fn spatial_test_listener_perceived_scene() {
    let orientation = Orientation::from_axis_angle(&Vector3::z_axis(), -FRAC_PI_2);
    let listener: Listener<Euclid> = Listener::new(orientation);

    let scene = Scene::new(sources(&[
        Point3::new(-1.0, 2.0, 0.0),
        Point3::new(1.0, 3.0, 0.0),
        Point3::new(0.0, 3.0, 2.0),
    ]));

    // The listener sees the world turned against its own turn.
    assert_eq!(
        listener.perceived_scene(&scene),
        scene.relative_to(orientation.inverse())
    );
    assert_ne!(listener.perceived_scene(&scene), scene.relative_to(orientation));
}

#[test]
fn spatial_test_listener_with_no_location_defaults_to_origin() {
    let listener: Listener<Euclid> =
        Listener::new(Orientation::from_axis_angle(&Vector3::y_axis(), 0.0));
    assert_eq!(listener.location(), Point3::origin());
}

#[test]
fn lib_test_listener_with_no_location_defaults_to_origin() {
    let listener: Listener<Euclid> =
        Listener::new(Orientation::from_axis_angle(&Vector3::y_axis(), 0.0));
    assert_eq!(listener.location(), Point3::origin());
}

#[test]
fn test_listener_with_location_perceived_scene() {
    let position = Point3::new(1.0, 2.0, 1.0);
    let listener: Listener<Euclid> = Listener::new_with_location(
        position,
        Orientation::from_axis_angle(&Vector3::y_axis(), 0.0),
    );

    assert_eq!(listener.location(), position);

    let points = [Point3::new(2.0, -1.0, 2.0), Point3::new(4.0, 2.0, -4.0)];
    let scene = Scene::new(sources(&points));

    let perceived_scene = listener.perceived_scene(&scene);

    let offset_by_position = perceived_scene
        .sources()
        .iter()
        .zip(points.iter())
        .map(|(left, right)| right - left.location())
        .all(|val| val == position.coords);

    assert!(offset_by_position);
}

#[test]
fn test_listener_perceived_scene_rotation() {
    let point = Point3::new(-2.0, -1.0, 4.0);
    let orientation = Orientation::from_axis_angle(&Vector3::y_axis(), FRAC_PI_2);

    let expected = orientation.inverse() * point;

    let scene: Scene<Euclid> = Scene::new(vec![Source::new(point)]);
    let listener = Listener::new(orientation);

    let perceived = listener.perceived_scene(&scene);

    assert_eq!(perceived.sources().first(), Some(&Source::new(expected)));
}

#[test]
fn quarter_turn_about_z_is_undone_for_the_listener() {
    // A source at (-1, 2, 0), heard by a listener at the origin who has
    // turned a quarter turn counter-clockwise about z, lies at (2, 1, 0).
    let orientation = Orientation::from_axis_angle(&Vector3::z_axis(), FRAC_PI_2);
    let listener: Listener<Euclid> = Listener::new(orientation);
    let scene = Scene::new(vec![Source::new(Point3::new(-1.0, 2.0, 0.0))]);

    let perceived = listener.perceived_scene(&scene);
    let location = perceived.sources()[0].location();

    assert!((location - Point3::new(2.0, 1.0, 0.0)).norm() < 1e-6);
    assert_eq!(location, orientation.inverse() * Point3::new(-1.0, 2.0, 0.0));
}

#[test]
fn round_trip_rotation_returns_the_point() {
    let orientation = Orientation::from_axis_angle(&Vector3::x_axis(), 0.7);
    let point = Point3::new(0.5, -3.0, 2.25);
    let there = Euclid::rotate(&orientation, &point);
    let back = Euclid::rotate(&Euclid::inverse(&orientation), &there);
    assert!((back - point).norm() < 1e-5);
}

#[test]
fn gain_is_carried_through_transforms() {
    let orientation = Orientation::from_axis_angle(&Vector3::z_axis(), FRAC_PI_2);
    let source: Source<Euclid> = Source::with_location(Point3::new(-5.0, 0.0, 1.0))
        .distance_gain(0.2)
        .build();
    assert_eq!(source.distance_gain(), 0.2);
    assert_eq!(source.perceived_from(&orientation).distance_gain(), 0.2);

    let scene = Scene::new(vec![source, Source::new(Point3::new(1.0, 1.0, 1.0))]);
    let listener: Listener<Euclid> =
        Listener::new_with_location(Point3::new(1.0, 0.0, 0.0), orientation);
    let perceived = listener.perceived_scene(&scene);
    assert_eq!(perceived.sources().len(), 2);
    assert_eq!(perceived.sources()[0].distance_gain(), 0.2);
    assert_eq!(perceived.sources()[1].distance_gain(), 1.0);
}

#[test]
fn soundscape_renders_what_each_listener_perceives() {
    let points = [Point3::new(-5.0, 0.0, 1.0), Point3::new(2.0, 2.0, 2.0)];
    let absolute: Scene<Euclid> = Scene::new(sources(&points));
    let first = Listener::new(Orientation::from_axis_angle(&Vector3::z_axis(), 0.0));
    let expected = first.perceived_scene(&absolute);

    let mut soundscape = Soundscape::new(absolute.clone(), first, Recorder::new());
    assert_eq!(soundscape.renderer().count(), 1);
    assert_eq!(soundscape.renderer().latest(), Some(&expected));

    for step in 1..=12 {
        let angle = -FRAC_PI_2 * step as f32 / 12.0;
        let listener = Listener::new_with_location(
            Point3::new(step as f32, 0.0, 0.0),
            Orientation::from_axis_angle(&Vector3::y_axis(), angle),
        );
        let expected = listener.perceived_scene(&absolute);
        soundscape.set_listener(listener);
        assert_eq!(soundscape.renderer().count(), step + 1);
        assert_eq!(soundscape.renderer().latest(), Some(&expected));
    }
}

#[test]
fn identity_listener_at_origin_perceives_the_scene_as_it_is() {
    let scene = Scene::new(vec![
        Source::<Euclid>::with_location(Point3::new(-5.0, 0.0, 1.0))
            .distance_gain(0.2)
            .build(),
        Source::new(Point3::new(3.5, -2.25, 8.0)),
    ]);
    let listener: Listener<Euclid> = Listener::new(Euclid::identity());
    assert_eq!(listener.perceived_scene(&scene), scene);
}

use irt::lattice::{Axis, GridPoint, GridTurn, Lattice, Shuffle, FULL_GAIN};
use irt::scene::{Listener, Scene, Source};
use irt::soundscape::{Recorder, Renderer, Soundscape};
use irt::space::Space;

fn point(x: i32, y: i32, z: i32) -> GridPoint {
    GridPoint::new(x, y, z)
}

fn scene_of(points: &[GridPoint]) -> Scene<Lattice> {
    Scene::new(points.iter().map(|p| Source::new(*p)).collect())
}

fn all_turns() -> Vec<GridTurn> {
    let shuffles = [
        Shuffle::Xyz,
        Shuffle::Xzy,
        Shuffle::Yxz,
        Shuffle::Yzx,
        Shuffle::Zxy,
        Shuffle::Zyx,
    ];
    let mut turns = Vec::new();
    for shuffle in shuffles {
        for flip_x in [false, true] {
            for flip_y in [false, true] {
                turns.push(GridTurn { shuffle, flip_x, flip_y });
            }
        }
    }
    turns
}

fn cross(a: GridPoint, b: GridPoint) -> GridPoint {
    point(
        a.y * b.z - a.z * b.y,
        a.z * b.x - a.x * b.z,
        a.x * b.y - a.y * b.x,
    )
}

#[test]
fn quarter_turns_move_the_axes_as_named() {
    let z = GridTurn::quarter_about_z();
    assert_eq!(Lattice::rotate(&z, &point(1, 0, 0)), point(0, 1, 0));
    assert_eq!(Lattice::rotate(&z, &point(0, 1, 0)), point(-1, 0, 0));
    assert_eq!(Lattice::rotate(&z, &point(0, 0, 1)), point(0, 0, 1));

    let x = GridTurn::quarter_about_x();
    assert_eq!(Lattice::rotate(&x, &point(0, 1, 0)), point(0, 0, 1));
    assert_eq!(Lattice::rotate(&x, &point(0, 0, 1)), point(0, -1, 0));
    assert_eq!(Lattice::rotate(&x, &point(1, 0, 0)), point(1, 0, 0));

    let y = GridTurn::quarter_about_y();
    assert_eq!(Lattice::rotate(&y, &point(0, 0, 1)), point(1, 0, 0));
    assert_eq!(Lattice::rotate(&y, &point(1, 0, 0)), point(0, 0, -1));
    assert_eq!(Lattice::rotate(&y, &point(0, 1, 0)), point(0, 1, 0));
}

#[test]
fn every_turn_is_a_rotation() {
    let turns = all_turns();
    assert_eq!(turns.len(), 24);
    let (ex, ey, ez) = (point(1, 0, 0), point(0, 1, 0), point(0, 0, 1));
    for (i, turn) in turns.iter().enumerate() {
        let (ix, iy, iz) = (
            Lattice::rotate(turn, &ex),
            Lattice::rotate(turn, &ey),
            Lattice::rotate(turn, &ez),
        );
        // Handedness is kept: the image of x cross the image of y is the image of z.
        assert_eq!(cross(ix, iy), iz);
        for other in turns.iter().skip(i + 1) {
            assert_ne!(turn, other);
        }
    }
}

#[test]
fn inverse_undoes_every_turn() {
    let p = point(3, -7, 11);
    for turn in all_turns() {
        let back = Lattice::inverse(&turn);
        assert_eq!(Lattice::rotate(&back, &Lattice::rotate(&turn, &p)), p);
        assert_eq!(Lattice::rotate(&turn, &Lattice::rotate(&back, &p)), p);
        assert_eq!(Lattice::compose(&back, &turn), Lattice::identity());
    }
}

#[test]
fn compose_turns_by_the_second_then_the_first() {
    let p = point(2, 5, -9);
    for first in all_turns() {
        for second in all_turns() {
            let both = Lattice::compose(&first, &second);
            assert_eq!(
                Lattice::rotate(&both, &p),
                Lattice::rotate(&first, &Lattice::rotate(&second, &p))
            );
        }
    }
    let z = GridTurn::quarter_about_z();
    let x = GridTurn::quarter_about_x();
    // x after z takes the x axis to y and then to z.
    assert_eq!(
        Lattice::rotate(&Lattice::compose(&x, &z), &point(1, 0, 0)),
        point(0, 0, 1)
    );
}

#[test]
fn four_quarter_turns_make_none() {
    let z = GridTurn::quarter_about_z();
    let half = Lattice::compose(&z, &z);
    let full = Lattice::compose(&half, &half);
    assert_eq!(full, GridTurn::none());
    assert_eq!(Lattice::rotate(&half, &point(1, 2, 3)), point(-1, -2, 3));
}

#[test]
fn arithmetic_wraps_at_the_ends_of_the_range() {
    assert_eq!(
        Lattice::subtract(&point(i32::MIN, 0, i32::MAX), &point(1, 0, -1)),
        point(i32::MAX, 0, i32::MIN)
    );
    let half = Lattice::compose(&GridTurn::quarter_about_z(), &GridTurn::quarter_about_z());
    assert_eq!(
        Lattice::rotate(&half, &point(i32::MIN, 1, 0)),
        point(i32::MIN, -1, 0)
    );
    assert_eq!(Lattice::subtract(&point(4, 5, 6), &Lattice::origin()), point(4, 5, 6));
}

#[test]
fn accessors_read_what_was_stored() {
    let p = point(1, 2, 3);
    assert_eq!(p.coordinate(Axis::X), 1);
    assert_eq!(p.coordinate(Axis::Y), 2);
    assert_eq!(p.coordinate(Axis::Z), 3);
    let z = GridTurn::quarter_about_z();
    assert!(z.is_flipped(Axis::X));
    assert!(!z.is_flipped(Axis::Y));
    assert!(!z.is_flipped(Axis::Z));
    assert_eq!(Shuffle::Yzx.undo(), Shuffle::Zxy);
    assert_eq!(Shuffle::Yzx.source_of(Axis::Z), Axis::X);
    assert_eq!(Shuffle::from_sources(Axis::Z, Axis::Y), Shuffle::Zyx);
    assert!(Shuffle::Xzy.is_odd());
    assert!(!Shuffle::Zxy.is_odd());
    assert_eq!(Lattice::unit_gain(), FULL_GAIN);
    assert_eq!(FULL_GAIN, 1000);
}

#[test]
fn source_at_minus_one_two_is_heard_at_two_one() {
    let listener: Listener<Lattice> = Listener::new(GridTurn::quarter_about_z());
    let scene = scene_of(&[point(-1, 2, 0)]);
    let perceived = listener.perceived_scene(&scene);
    assert_eq!(perceived.sources().len(), 1);
    assert_eq!(perceived.sources()[0].location(), point(2, 1, 0));
    assert_eq!(
        perceived.sources()[0].location(),
        Lattice::rotate(
            &Lattice::inverse(&GridTurn::quarter_about_z()),
            &point(-1, 2, 0)
        )
    );
}

#[test]
fn identity_listener_at_origin_changes_nothing() {
    let scene: Scene<Lattice> = Scene::new(vec![
        Source::new(point(-1, 2, 0)),
        Source::with_location(point(1, 3, 0)).distance_gain(200).build(),
        Source::new(point(0, 3, 2)),
    ]);
    let listener: Listener<Lattice> = Listener::new(Lattice::identity());
    assert_eq!(listener.location(), point(0, 0, 0));
    assert_eq!(listener.perceived_scene(&scene), scene);
}

#[test]
fn translation_comes_before_rotation() {
    let turn = GridTurn::quarter_about_x();
    let listener: Listener<Lattice> = Listener::new_with_location(point(10, 20, 30), turn);
    let scene = scene_of(&[point(11, 22, 33)]);
    let perceived = listener.perceived_scene(&scene);
    // (1, 2, 3) turned back a quarter about x.
    assert_eq!(perceived.sources()[0].location(), point(1, 3, -2));
    // Rotating first and translating after would give something else.
    let wrong = Lattice::subtract(
        &Lattice::rotate(&Lattice::inverse(&turn), &point(11, 22, 33)),
        &point(10, 20, 30),
    );
    assert_ne!(perceived.sources()[0].location(), wrong);
}

#[test]
fn transforms_keep_count_order_and_gain() {
    let scene: Scene<Lattice> = Scene::new(vec![
        Source::with_location(point(1, 0, 0)).distance_gain(1).build(),
        Source::with_location(point(2, 0, 0)).distance_gain(2).build(),
        Source::with_location(point(3, 0, 0)).distance_gain(3).build(),
        Source::with_location(point(4, 0, 0)).distance_gain(4).build(),
    ]);
    let turned = scene.relative_to(GridTurn::quarter_about_z());
    let listener: Listener<Lattice> =
        Listener::new_with_location(point(0, 1, 0), GridTurn::quarter_about_z());
    let perceived = listener.perceived_scene(&scene);
    assert_eq!(turned.sources().len(), 4);
    assert_eq!(perceived.sources().len(), 4);
    for i in 0..4 {
        let k = i as i32 + 1;
        assert_eq!(turned.sources()[i].location(), point(0, k, 0));
        assert_eq!(turned.sources()[i].distance_gain(), k as u32);
        assert_eq!(perceived.sources()[i].location(), point(-1, -k, 0));
        assert_eq!(perceived.sources()[i].distance_gain(), k as u32);
    }
    let empty: Scene<Lattice> = Scene::new(Vec::new());
    assert_eq!(empty.relative_to(GridTurn::quarter_about_y()).sources().len(), 0);
    assert_eq!(listener.perceived_scene(&empty).sources().len(), 0);
}

#[test]
fn turning_a_scene_there_and_back_gives_the_scene() {
    let scene = scene_of(&[point(1, 2, 3), point(-4, 5, -6)]);
    for turn in all_turns() {
        let back = scene.relative_to(turn).relative_to(Lattice::inverse(&turn));
        assert_eq!(back, scene);
    }
}

#[test]
fn new_source_has_full_gain_and_clone_copies() {
    let source: Source<Lattice> = Source::new(point(7, 8, 9));
    assert_eq!(source.distance_gain(), FULL_GAIN);
    assert_eq!(source.location(), point(7, 8, 9));
    assert_eq!(source.clone(), source);
    let scene = scene_of(&[point(1, 1, 1), point(2, 2, 2)]);
    assert_eq!(scene.clone(), scene);
    let listener: Listener<Lattice> =
        Listener::new_with_location(point(1, 2, 3), GridTurn::quarter_about_y());
    let copy = listener.clone();
    assert_eq!(copy.location(), point(1, 2, 3));
    assert_eq!(copy.orientation, GridTurn::quarter_about_y());
}

#[test]
fn soundscape_pushes_once_on_construction() {
    let scene = scene_of(&[point(-1, 2, 0), point(5, 5, 5)]);
    let listener: Listener<Lattice> = Listener::new(GridTurn::quarter_about_z());
    let expected = listener.perceived_scene(&scene);
    let soundscape = Soundscape::new(scene, listener, Recorder::new());
    assert_eq!(soundscape.renderer().count(), 1);
    assert_eq!(soundscape.renderer().latest(), Some(&expected));
    assert_eq!(soundscape.renderer().scene(0), Some(&expected));
    assert_eq!(soundscape.renderer().scene(1), None);
}

#[test]
fn soundscape_pushes_once_for_each_listener() {
    let scene = scene_of(&[point(-1, 2, 0), point(5, 5, 5)]);
    let absolute = scene.clone();
    let mut soundscape = Soundscape::new(
        scene,
        Listener::<Lattice>::new(Lattice::identity()),
        Recorder::new(),
    );
    assert_eq!(soundscape.renderer().scene(0), Some(&absolute));

    let mut listeners = Vec::new();
    for (i, turn) in all_turns().into_iter().enumerate() {
        listeners.push(Listener::<Lattice>::new_with_location(
            point(i as i32, 0, -(i as i32)),
            turn,
        ));
    }
    for (i, listener) in listeners.iter().enumerate() {
        soundscape.set_listener(listener.clone());
        assert_eq!(soundscape.renderer().count(), i + 2);
        // Each push is computed from the absolute scene, not from the last push.
        assert_eq!(
            soundscape.renderer().latest(),
            Some(&listener.perceived_scene(&absolute))
        );
    }
    // Earlier pushes stay as they were.
    assert_eq!(soundscape.renderer().scene(0), Some(&absolute));
    assert_eq!(
        soundscape.renderer().scene(1),
        Some(&listeners[0].perceived_scene(&absolute))
    );
}

#[test]
fn recorder_starts_empty_and_keeps_what_it_is_given() {
    let mut recorder: Recorder<Lattice> = Recorder::new();
    assert_eq!(recorder.count(), 0);
    assert_eq!(recorder.latest(), None);
    let first = scene_of(&[point(1, 0, 0)]);
    let second = scene_of(&[]);
    recorder.render_scene(&first);
    recorder.render_scene(&second);
    assert_eq!(recorder.count(), 2);
    assert_eq!(recorder.scene(0), Some(&first));
    assert_eq!(recorder.latest(), Some(&second));
}

#[test]
fn listener_from_a_pair_stands_where_the_pair_says() {
    let listener: Listener<Lattice> = Listener::from((point(1, 2, 3), GridTurn::quarter_about_x()));
    assert_eq!(listener.location(), point(1, 2, 3));
    assert_eq!(listener.orientation, GridTurn::quarter_about_x());
}

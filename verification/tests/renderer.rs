use irt::greeter::Greeter;
use irt::lattice::{GridPoint, Lattice};
use irt::publisher::{pipeline_description, SetupError as PublisherSetupError};
use irt::renderer::{current_scene, preload_gst_element, to_value_array, PreloadError, SetupError};
use irt::scene::{Scene, Source};

#[test]
fn renderer_without_objects_holds_no_scene() {
    assert_eq!(current_scene::<Lattice>(&Vec::new()), None);
}

#[test]
fn objects_become_sources_in_order() {
    let objects = vec![(GridPoint::new(-5, 0, 1), 200), (GridPoint::new(1, 2, 3), 1000)];
    let scene = current_scene::<Lattice>(&objects).unwrap();
    assert_eq!(scene.sources().len(), 2);
    assert_eq!(scene.sources()[0].location(), GridPoint::new(-5, 0, 1));
    assert_eq!(scene.sources()[0].distance_gain(), 200);
    assert_eq!(scene.sources()[1].location(), GridPoint::new(1, 2, 3));
    assert_eq!(scene.sources()[1].distance_gain(), 1000);
}

#[test]
fn scene_is_written_out_and_read_back() {
    let scene: Scene<Lattice> = Scene::new(vec![
        Source::with_location(GridPoint::new(-5, 0, 1)).distance_gain(200).build(),
        Source::new(GridPoint::new(1, 2, 3)),
    ]);
    let objects = to_value_array(&scene);
    assert_eq!(
        objects,
        vec![(GridPoint::new(-5, 0, 1), 200), (GridPoint::new(1, 2, 3), 1000)]
    );
    assert_eq!(current_scene::<Lattice>(&objects), Some(scene));
    let empty: Scene<Lattice> = Scene::new(Vec::new());
    assert!(to_value_array(&empty).is_empty());
}

#[test]
fn preloading_reports_the_element_that_failed() {
    assert!(preload_gst_element("qml6glsink", true).is_ok());
    let error = preload_gst_element("qml6glsink", false).unwrap_err();
    assert_eq!(error.element_name(), "qml6glsink");
    assert_eq!(error.message(), "failed to preload qml6glsink");
    assert_eq!(PreloadError::new("x").message(), "failed to preload x");
}

#[test]
fn setup_errors_say_what_is_wrong() {
    assert_eq!(
        SetupError::MissingPlugin.message(),
        "HRTF renderer element is missing: please make sure you have audiofx Rust plugins installed and available in the plugin search path"
    );
    let missing = std::io::Error::new(std::io::ErrorKind::NotFound, "gone");
    let error = SetupError::from(missing);
    assert_eq!(error.message(), "cannot open HRIR file");
    match error {
        SetupError::CannotReadHRIRFile(inner) => {
            assert_eq!(inner.kind(), std::io::ErrorKind::NotFound)
        }
        SetupError::MissingPlugin => panic!("the cause was lost"),
    }
    assert_eq!(
        PublisherSetupError::FailedToCreatePipeline.message(),
        "failed to create pipeline"
    );
}

#[test]
fn pipeline_description_holds_token_and_file() {
    assert_eq!(
        pipeline_description("T0K", "file:///tmp/a.webm"),
        "livekitwebrtcsink name=sink signaller::auth-token=\"T0K\" video-caps=\"video/x-vp8\" audio-caps=\"audio/x-opus\" uridecodebin3 uri=\"file:///tmp/a.webm\" name=bin bin. ! queue ! videoconvert ! sink. bin. ! audioconvert ! audioresample ! sink. "
    );
    assert_eq!(
        pipeline_description("", ""),
        format!(
            "\
        livekitwebrtcsink name=sink signaller::auth-token=\"{}\" video-caps=\"video/x-vp8\" audio-caps=\"audio/x-opus\" \
        uridecodebin3 uri=\"{}\" name=bin \
        bin. \
        ! queue \
        ! videoconvert \
        ! sink. \
        bin. \
        ! audioconvert \
        ! audioresample \
        ! sink. \
        ",
            "", ""
        )
    );
}

#[test]
fn greeter_greets_by_name() {
    assert_eq!(Greeter::new("Swift").greeting(), "Hello from Rust, Swift!");
    assert_eq!(Greeter::new("").greeting(), "Hello from Rust, !");
}

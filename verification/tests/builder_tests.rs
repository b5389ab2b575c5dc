use doodle::{Doodle, DoodleBuilder, Error, NoopHandler};

#[derive(Default)]
struct Empty;

#[test]
fn default_configuration() {
    let d: Doodle<Empty, NoopHandler, NoopHandler> = DoodleBuilder::new().build().unwrap();
    assert_eq!(d.name(), "Doodle");
    assert_eq!(d.width(), 800);
    assert_eq!(d.height(), 600);
    assert_eq!(d.fps(), 30);
}

#[test]
fn default_callbacks_are_noops() {
    let mut d: Doodle<Empty, NoopHandler, NoopHandler> = DoodleBuilder::new().fps(1000).build().unwrap();
    d.start();
    assert!(d.frame(false));
    // The no-op callbacks issued no drawing command; only the two harness
    // presents (after setup and after the frame) were recorded.
    let ops = d.take_ops();
    assert_eq!(ops.len(), 2);
}

#[test]
fn later_setter_overrides_earlier() {
    let d: Doodle<Empty, NoopHandler, NoopHandler> =
        DoodleBuilder::new().width(800).width(600).build().unwrap();
    assert_eq!(d.width(), 600);
}

#[test]
fn setters_store_their_values() {
    let d: Doodle<Empty, NoopHandler, NoopHandler> = DoodleBuilder::new()
        .name("Test")
        .width(600)
        .height(400)
        .fps(60)
        .state(Empty)
        .build()
        .unwrap();
    assert_eq!(d.name(), "Test");
    assert_eq!(d.width(), 600);
    assert_eq!(d.height(), 400);
    assert_eq!(d.fps(), 60);
}

#[test]
fn zero_width_is_a_window_build_failure() {
    let r: Result<Doodle<Empty, NoopHandler, NoopHandler>, Error> =
        DoodleBuilder::new().width(0).build();
    assert!(matches!(r, Err(Error::WindowBuildError(_))));
}

#[test]
fn zero_height_is_a_window_build_failure() {
    let r: Result<Doodle<Empty, NoopHandler, NoopHandler>, Error> =
        DoodleBuilder::new().height(0).build();
    assert!(matches!(r, Err(Error::WindowBuildError(_))));
}

#[test]
fn oversized_width_is_a_window_build_failure() {
    let r: Result<Doodle<Empty, NoopHandler, NoopHandler>, Error> =
        DoodleBuilder::new().width(2147483648).build();
    assert!(matches!(r, Err(Error::WindowBuildError(_))));
}

#[test]
fn largest_representable_dimensions_build() {
    let r: Result<Doodle<Empty, NoopHandler, NoopHandler>, Error> =
        DoodleBuilder::new().width(2147483647).height(2147483647).build();
    assert!(r.is_ok());
}

#[test]
fn zero_fps_is_rejected() {
    let r: Result<Doodle<Empty, NoopHandler, NoopHandler>, Error> =
        DoodleBuilder::new().fps(0).build();
    assert!(matches!(r, Err(Error::Error(_))));
}

#[test]
fn string_converts_to_the_generic_error() {
    let e = Error::from(String::from("boom"));
    assert!(matches!(e, Error::Error(m) if m == "boom"));
}

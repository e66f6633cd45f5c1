use shaderpg::App;
use shaderpg::DataSender;
use shaderpg::TryRecv;

fn outcome(ds: &DataSender) -> String {
    match ds.try_outcome() {
        TryRecv::Got(s) => s,
        TryRecv::Empty => panic!("no outcome queued"),
        TryRecv::Closed => panic!("outcome channel closed"),
    }
}

/// A 2-by-1 binary PPM image: one red pixel, one green pixel.
fn tiny_ppm() -> Vec<u8> {
    let mut bytes = b"P6\n2 1\n255\n".to_vec();
    bytes.extend_from_slice(&[255, 0, 0, 0, 255, 0]);
    bytes
}

#[test]
fn playground_starts_with_placeholder_texture() {
    let (app, _ds) = App::init(600, 400).unwrap();
    assert_eq!(app.texture_generation(), 0);
    assert_eq!(app.bound_texture().width(), 1);
    assert_eq!(app.bound_texture().height(), 1);
    assert_eq!(app.bound_texture().pixels(), &vec![0u8, 0, 0, 0]);
}

#[test]
fn valid_image_swaps_texture() {
    let (mut app, ds) = App::init(600, 400).unwrap();

    ds.send_texture(tiny_ppm()).unwrap();
    app.draw(0).unwrap();

    assert_eq!(outcome(&ds), "ok");
    assert_eq!(app.texture_generation(), 1);
    assert_eq!(app.bound_texture().width(), 2);
    assert_eq!(app.bound_texture().height(), 1);
    assert_eq!(
        app.bound_texture().pixels(),
        &vec![255u8, 0, 0, 255, 0, 255, 0, 255],
    );
}

#[test]
fn empty_bytes_keep_placeholder() {
    let (mut app, ds) = App::init(600, 400).unwrap();

    ds.send_texture(Vec::new()).unwrap();
    app.draw(0).unwrap();

    let diag = outcome(&ds);
    assert_ne!(diag, "ok");
    assert!(!diag.is_empty());
    assert_eq!(app.texture_generation(), 0);
    assert_eq!(app.bound_texture().width(), 1);
    assert_eq!(app.bound_texture().height(), 1);
    assert_eq!(app.bound_texture().pixels(), &vec![0u8, 0, 0, 0]);
}

#[test]
fn corrupt_bytes_keep_previous_texture() {
    let (mut app, ds) = App::init(600, 400).unwrap();

    ds.send_texture(tiny_ppm()).unwrap();
    app.draw(0).unwrap();
    assert_eq!(outcome(&ds), "ok");

    ds.send_texture(vec![7, 7, 7, 7]).unwrap();
    app.draw(1000).unwrap();

    assert_ne!(outcome(&ds), "ok");
    assert_eq!(app.texture_generation(), 1);
    assert_eq!(app.bound_texture().width(), 2);
    assert_eq!(
        app.bound_texture().pixels(),
        &vec![255u8, 0, 0, 255, 0, 255, 0, 255],
    );
}

#[test]
fn texture_failure_leaves_pipeline_untouched() {
    let (mut app, ds) = App::init(600, 400).unwrap();

    ds.send_texture(vec![1]).unwrap();
    let frame = app.draw(0).unwrap();

    assert_ne!(outcome(&ds), "ok");
    assert!(frame.bind.is_none());
    assert_eq!(app.shader_generation(), 0);
}

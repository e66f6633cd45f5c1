use shaderpg::App;
use shaderpg::BoundResource;
use shaderpg::SCALE;
use shaderpg::WinEvent;

#[test]
fn cursor_is_normalized_while_inside() {
    let (mut app, _ds) = App::init(600, 400).unwrap();

    app.event(&WinEvent::CursorEntered);
    app.event(&WinEvent::CursorMoved(300, 100));

    let u = app.uniforms();
    assert_eq!(u.cursor_x, 500_000);
    assert_eq!(u.cursor_y, 750_000);
}

#[test]
fn cursor_sentinel_on_leave_and_back_on_enter() {
    let (mut app, _ds) = App::init(600, 400).unwrap();

    app.event(&WinEvent::CursorEntered);
    app.event(&WinEvent::CursorMoved(300, 100));
    app.event(&WinEvent::CursorLeft);

    let frame = app.draw(0).unwrap();
    assert_eq!(frame.uniforms.cursor_x, -SCALE);
    assert_eq!(frame.uniforms.cursor_y, -SCALE);

    app.event(&WinEvent::CursorEntered);
    let frame = app.draw(10).unwrap();
    assert_eq!(frame.uniforms.cursor_x, 500_000);
    assert_eq!(frame.uniforms.cursor_y, 750_000);
}

#[test]
fn aspect_and_time_are_recomputed_each_frame() {
    let (mut app, _ds) = App::init(600, 400).unwrap();

    let frame = app.draw(5).unwrap();
    assert_eq!(frame.uniforms.aspect, 1_500_000);
    assert_eq!(frame.uniforms.time_ms, 5);

    app.event(&WinEvent::Resized(800, 400));
    let frame = app.draw(17).unwrap();
    assert_eq!(frame.uniforms.aspect, 2_000_000);
    assert_eq!(frame.uniforms.time_ms, 17);
}

#[test]
fn close_request_is_mirrored() {
    let (mut app, _ds) = App::init(600, 400).unwrap();
    assert!(!app.should_close());
    app.event(&WinEvent::CloseRequested);
    assert!(app.should_close());
}

#[test]
fn idle_frame_only_clears() {
    let (mut app, _ds) = App::init(600, 400).unwrap();
    let frame = app.draw(0).unwrap();
    assert!(frame.bind.is_none());
}

#[test]
fn active_frame_binds_fixed_layout_with_current_texture() {
    let (mut app, ds) = App::init(600, 400).unwrap();
    ds.send_shader(
        "@fragment\nfn main() -> @location(0) vec4<f32> {\n    return vec4<f32>(0.0, 0.0, 1.0, 1.0);\n}\n"
            .to_string(),
    )
    .unwrap();
    app.draw(0).unwrap();

    let frame = app.draw(10).unwrap();
    let bind = frame.bind.unwrap();
    assert_eq!(
        bind,
        vec![
            BoundResource::Uniforms,
            BoundResource::TextureView(0),
            BoundResource::Sampler,
        ],
    );
}

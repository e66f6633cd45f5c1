use shaderpg::App;
use shaderpg::ChannelClosed;
use shaderpg::DataSender;
use shaderpg::TryRecv;

const VALID_FRAG: &str =
    "@fragment\nfn main() -> @location(0) vec4<f32> {\n    return vec4<f32>(1.0, 0.0, 0.0, 1.0);\n}\n";

const VALID_FRAG_GREEN: &str =
    "@fragment\nfn main() -> @location(0) vec4<f32> {\n    return vec4<f32>(0.0, 1.0, 0.0, 1.0);\n}\n";

const INVALID_FRAG: &str = "this is not wgsl at all";

fn outcome(ds: &DataSender) -> String {
    match ds.try_outcome() {
        TryRecv::Got(s) => s,
        TryRecv::Empty => panic!("no outcome queued"),
        TryRecv::Closed => panic!("outcome channel closed"),
    }
}

#[test]
fn vertex_stage_compiles_at_startup() {
    assert!(App::init(600, 400).is_ok());
}

#[test]
fn valid_shader_reports_ok_and_activates() {
    let (mut app, ds) = App::init(600, 400).unwrap();
    assert_eq!(app.shader_generation(), 0);

    ds.send_shader(VALID_FRAG.to_string()).unwrap();
    let frame = app.draw(0).unwrap();

    assert_eq!(outcome(&ds), "ok");
    assert_eq!(app.shader_generation(), 1);
    assert_eq!(app.shader_source().unwrap().as_str(), VALID_FRAG);
    assert!(frame.bind.is_some());
}

#[test]
fn invalid_shader_keeps_pipeline_idle() {
    let (mut app, ds) = App::init(600, 400).unwrap();

    ds.send_shader(INVALID_FRAG.to_string()).unwrap();
    let frame = app.draw(0).unwrap();

    let diag = outcome(&ds);
    assert_ne!(diag, "ok");
    assert!(!diag.is_empty());
    assert_eq!(app.shader_generation(), 0);
    assert!(app.shader_source().is_none());
    assert!(frame.bind.is_none());
}

#[test]
fn invalid_shader_keeps_previous_pipeline() {
    let (mut app, ds) = App::init(600, 400).unwrap();

    ds.send_shader(VALID_FRAG.to_string()).unwrap();
    app.draw(0).unwrap();
    assert_eq!(outcome(&ds), "ok");

    ds.send_shader(INVALID_FRAG.to_string()).unwrap();
    let frame = app.draw(1000).unwrap();

    assert_ne!(outcome(&ds), "ok");
    assert_eq!(app.shader_generation(), 1);
    assert_eq!(app.shader_source().unwrap().as_str(), VALID_FRAG);
    assert!(frame.bind.is_some());
}

#[test]
fn sequential_outcomes_pair_with_requests() {
    let (mut app, ds) = App::init(600, 400).unwrap();

    ds.send_shader(VALID_FRAG.to_string()).unwrap();
    app.draw(0).unwrap();
    assert_eq!(outcome(&ds), "ok");

    ds.send_shader(INVALID_FRAG.to_string()).unwrap();
    app.draw(1000).unwrap();
    let second = outcome(&ds);
    assert_ne!(second, "ok");

    ds.send_shader(VALID_FRAG_GREEN.to_string()).unwrap();
    app.draw(2000).unwrap();
    assert_eq!(outcome(&ds), "ok");

    assert_eq!(app.shader_source().unwrap().as_str(), VALID_FRAG_GREEN);
    assert_eq!(app.shader_generation(), 2);
}

#[test]
fn resubmitting_same_source_reports_ok_twice() {
    let (mut app, ds) = App::init(600, 400).unwrap();

    ds.send_shader(VALID_FRAG.to_string()).unwrap();
    app.draw(0).unwrap();
    assert_eq!(outcome(&ds), "ok");

    ds.send_shader(VALID_FRAG.to_string()).unwrap();
    app.draw(1000).unwrap();
    assert_eq!(outcome(&ds), "ok");

    assert_eq!(app.shader_source().unwrap().as_str(), VALID_FRAG);
    assert_eq!(app.shader_generation(), 2);
}

#[test]
fn clock_gates_edit_processing_to_one_per_tick() {
    let (mut app, ds) = App::init(600, 400).unwrap();

    ds.send_shader(VALID_FRAG.to_string()).unwrap();
    ds.send_shader(VALID_FRAG_GREEN.to_string()).unwrap();

    app.draw(0).unwrap();
    assert_eq!(outcome(&ds), "ok");
    assert_eq!(app.shader_source().unwrap().as_str(), VALID_FRAG);

    app.draw(10).unwrap();
    assert!(matches!(ds.try_outcome(), TryRecv::Empty));
    assert_eq!(app.shader_source().unwrap().as_str(), VALID_FRAG);

    app.draw(1000).unwrap();
    assert_eq!(outcome(&ds), "ok");
    assert_eq!(app.shader_source().unwrap().as_str(), VALID_FRAG_GREEN);
}

#[test]
fn cloned_handles_share_the_channels() {
    let (mut app, ds) = App::init(600, 400).unwrap();
    let ds2 = ds.new();

    ds2.send_shader(VALID_FRAG.to_string()).unwrap();
    app.draw(0).unwrap();
    assert_eq!(outcome(&ds), "ok");
}

#[test]
fn closed_channels_fail_fast_after_teardown() {
    let (app, ds) = App::init(600, 400).unwrap();
    assert!(matches!(ds.try_outcome(), TryRecv::Empty));

    drop(app);

    assert_eq!(ds.send_shader(VALID_FRAG.to_string()), Err(ChannelClosed));
    assert_eq!(ds.send_texture(vec![1, 2, 3]), Err(ChannelClosed));
    assert!(matches!(ds.try_outcome(), TryRecv::Closed));
}

#[test]
fn loop_reports_closure_when_host_hangs_up() {
    let (mut app, ds) = App::init(600, 400).unwrap();
    ds.send_shader(VALID_FRAG.to_string()).unwrap();
    drop(ds);

    assert!(matches!(app.draw(0), Err(ChannelClosed)));
}

#[test]
fn layout_violating_shader_keeps_pipeline_idle() {
    let (mut app, ds) = App::init(600, 400).unwrap();

    ds.send_shader(
        "@group(1) @binding(0) var<uniform> u: vec4<f32>;\n@fragment\nfn main() -> @location(0) vec4<f32> {\n    return u;\n}\n"
            .to_string(),
    )
    .unwrap();
    let frame = app.draw(0).unwrap();

    assert_eq!(outcome(&ds), shaderpg::LAYOUT_DIAG);
    assert_eq!(app.shader_generation(), 0);
    assert!(frame.bind.is_none());
}

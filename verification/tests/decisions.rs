//! Pure decisions: settings marshaling, the source builders, the installer
//! checks, module plans, and the transform builder.

use libobs_wrapper::module_load_plan;
use libobs_wrapper::should_update;
use libobs_wrapper::verify_archive_digest;
use libobs_wrapper::GsColorFormat;
use libobs_wrapper::GsZstencilFormat;
use libobs_wrapper::ModulePlan;
use libobs_wrapper::ObsBoundsType;
use libobs_wrapper::ObsBootstrapError;
use libobs_wrapper::ObsContext;
use libobs_wrapper::ObsCrashHandler;
use libobs_wrapper::ConsoleCrashHandler;
use libobs_wrapper::ObsDataUpdater;
use libobs_wrapper::ObsDisplayCreationData;
use libobs_wrapper::ObsError;
use libobs_wrapper::ObsModules;
use libobs_wrapper::ObsProcessState;
use libobs_wrapper::ObsSourceBuilder;
use libobs_wrapper::ObsTransformInfoBuilder;
use libobs_wrapper::ObsVideoInfo;
use libobs_wrapper::ObsWindowPriority;
use libobs_wrapper::PipeWireCameraSourceBuilder;
use libobs_wrapper::PipeWireDesktopCaptureSourceBuilder;
use libobs_wrapper::PipeWireDesktopCaptureSourceUpdater;
use libobs_wrapper::PipeWireSourceExtTrait;
use libobs_wrapper::PulseInputSource;
use libobs_wrapper::PulseOutputSource;
use libobs_wrapper::StartupInfo;
use libobs_wrapper::StartupPaths;
use libobs_wrapper::Vec2;
use libobs_wrapper::WindowCaptureSourceBuilder;

fn decisions_context() -> (ObsProcessState, ObsContext) {
    let mut state = ObsProcessState::new();
    let info = StartupInfo {
        startup_paths: StartupPaths::new("data/libobs", "obs-plugins", "data/obs-plugins"),
        video: ObsVideoInfo::new(1280, 720, 60, 1),
        worker_thread: 1,
        obs_version_major: 31,
        has_disabled_module_fn: false,
        module_failures: Vec::new(),
    };
    let ctx = ObsContext::start(&mut state, info).unwrap();
    (state, ctx)
}

#[test]
fn settings_round_trip_every_type() {
    let (_state, ctx) = decisions_context();
    let mut data = ctx.data();
    data.set_string("directory", "recordings");
    data.set_int("max_time_sec", 15);
    data.set_bool("replay", true);
    data.set_double_bits("ratio", 0.5f64.to_bits());

    assert_eq!(
        data.get_string("directory").unwrap(),
        Some("recordings".to_string())
    );
    assert_eq!(data.get_int("max_time_sec").unwrap(), Some(15));
    assert_eq!(data.get_bool("replay").unwrap(), Some(true));
    assert_eq!(
        data.get_double_bits("ratio").unwrap().map(f64::from_bits),
        Some(0.5)
    );
}

#[test]
fn settings_absent_keys_read_as_nothing() {
    let (_state, ctx) = decisions_context();
    let data = ctx.data();
    assert_eq!(data.get_string("missing").unwrap(), None);
    assert_eq!(data.get_int("missing").unwrap(), None);
    assert_eq!(data.get_bool("missing").unwrap(), None);
}

#[test]
fn settings_defaults_fill_in_behind_user_values() {
    let (_state, ctx) = decisions_context();
    let mut data = ctx.data();
    data.set_default_value(
        "format",
        libobs_wrapper::ObsValue::Text("mp4".to_string()),
    );
    assert_eq!(data.get_string("format").unwrap(), Some("mp4".to_string()));
    data.set_string("format", "mkv");
    assert_eq!(data.get_string("format").unwrap(), Some("mkv".to_string()));
}

#[test]
fn settings_wrong_type_is_a_conversion_error() {
    let (_state, ctx) = decisions_context();
    let mut data = ctx.data();
    data.set_int("max_time_sec", 15);
    assert_eq!(
        data.get_string("max_time_sec"),
        Err(ObsError::StringConversionError)
    );
}

#[test]
fn json_serialization_renders_the_user_values() {
    let (_state, ctx) = decisions_context();
    let mut data = ctx.data();
    data.set_string("directory", "recordings");
    data.set_int("max_time_sec", -15);
    data.set_bool("replay", true);
    assert_eq!(
        data.get_json().unwrap(),
        "{\"directory\":\"recordings\",\"max_time_sec\":-15,\"replay\":true}"
    );
}

#[test]
fn json_serialization_escapes_quotes_and_backslashes() {
    let (_state, ctx) = decisions_context();
    let mut data = ctx.data();
    data.set_string("fo\"rm\\at", "m\"p4");
    assert_eq!(
        data.get_json().unwrap(),
        "{\"fo\\\"rm\\\\at\":\"m\\\"p4\"}"
    );
}

#[test]
fn json_serialization_refuses_floating_point_bits() {
    let (_state, ctx) = decisions_context();
    let mut data = ctx.data();
    data.set_double_bits("ratio", 0.5f64.to_bits());
    assert_eq!(data.get_json(), Err(ObsError::JsonParseError));
}

#[test]
fn bulk_update_signals_exactly_once() {
    let (_state, ctx) = decisions_context();
    let mut data = ctx.data();
    let batch = ObsDataUpdater::new()
        .set_string("directory", "recordings")
        .set_string("format", "%CCYY-%MM-%DD %hh-%mm-%ss")
        .set_string("extension", "mp4")
        .set_int("max_time_sec", 15)
        .set_int("max_size_mb", 500);
    batch.update(&mut data);

    assert_eq!(data.update_signal_count(), 1);
    assert_eq!(
        data.get_string("extension").unwrap(),
        Some("mp4".to_string())
    );
    assert_eq!(data.get_int("max_size_mb").unwrap(), Some(500));
}

#[test]
fn bulk_update_last_write_wins() {
    let (_state, ctx) = decisions_context();
    let mut data = ctx.data();
    let batch = ObsDataUpdater::new()
        .set_int("max_time_sec", 15)
        .set_int("max_time_sec", 90);
    batch.update(&mut data);
    assert_eq!(data.get_int("max_time_sec").unwrap(), Some(90));
    assert_eq!(data.update_signal_count(), 1);
}

#[test]
fn window_capture_builder_writes_its_settings() {
    let (_state, mut ctx) = decisions_context();
    let scene = ctx.scene("main").unwrap();
    let source = WindowCaptureSourceBuilder::new("test_capture")
        .set_window("notepad")
        .set_priority(ObsWindowPriority::Executable)
        .add_to_scene(&mut ctx, &scene)
        .unwrap();
    let id = source.id();
    assert_eq!(id.as_str(), "window_capture");
    assert_eq!(
        source.get_setting_string(&ctx, "window").unwrap(),
        Some("notepad".to_string())
    );
    assert_eq!(WindowCaptureSourceBuilder::get_windows().len(), 0);
}

#[test]
fn camera_builder_renders_resolution_and_framerate() {
    let (_state, mut ctx) = decisions_context();
    let scene = ctx.scene("main").unwrap();
    let source = PipeWireCameraSourceBuilder::new("cam")
        .set_camera_id("video-device-0")
        .set_resolution_values(1920, 1080)
        .set_framerate_values(30, 1)
        .add_to_scene(&mut ctx, &scene)
        .unwrap();
    assert_eq!(
        source.get_setting_string(&ctx, "resolution").unwrap(),
        Some("1920x1080".to_string())
    );
    assert_eq!(
        source.get_setting_string(&ctx, "framerate").unwrap(),
        Some("30/1".to_string())
    );
}

#[test]
fn restore_token_reads_back_from_pipewire_sources() {
    let (_state, mut ctx) = decisions_context();
    let scene = ctx.scene("main").unwrap();
    let capture = PipeWireDesktopCaptureSourceBuilder::new("desk")
        .set_restore_token("portal-token")
        .with_cursor()
        .add_to_scene(&mut ctx, &scene)
        .unwrap();
    assert_eq!(
        capture.get_restore_token(&ctx).unwrap(),
        Some("portal-token".to_string())
    );

    let plain = WindowCaptureSourceBuilder::new("win")
        .add_to_scene(&mut ctx, &scene)
        .unwrap();
    match plain.get_restore_token(&ctx) {
        Err(ObsError::InvalidOperation(_)) => {}
        other => panic!("restore token on a non PipeWire source: {:?}", other),
    }
}

#[test]
fn pipewire_updater_batches_changes() {
    let (_state, mut ctx) = decisions_context();
    let scene = ctx.scene("main").unwrap();
    let capture = PipeWireDesktopCaptureSourceBuilder::new("desk")
        .with_cursor()
        .add_to_scene(&mut ctx, &scene)
        .unwrap();
    PipeWireDesktopCaptureSourceUpdater::new(&capture)
        .set_show_cursor(false)
        .update(&mut ctx)
        .unwrap();
}

#[test]
fn pulse_builders_pick_the_default_device() {
    let (_state, mut ctx) = decisions_context();
    let scene = ctx.scene("main").unwrap();
    let input = PulseInputSource::new("mic")
        .set_default_device()
        .add_to_scene(&mut ctx, &scene)
        .unwrap();
    assert_eq!(
        input.get_setting_string(&ctx, "device_id").unwrap(),
        Some("default".to_string())
    );
    let output = PulseOutputSource::new("monitor")
        .set_device_id("alsa_output.0")
        .add_to_scene(&mut ctx, &scene)
        .unwrap();
    assert_eq!(
        output.get_setting_string(&ctx, "device_id").unwrap(),
        Some("alsa_output.0".to_string())
    );
}

#[test]
fn should_update_compares_versions() {
    assert_eq!(should_update("31.0.2", 31, 0, 2), Ok(false));
    assert_eq!(should_update("31.0.3", 31, 0, 2), Ok(false));
    assert_eq!(should_update("31.0.1", 31, 0, 2), Ok(true));
    assert_eq!(should_update("30.2.2", 31, 0, 2), Ok(true));
    assert_eq!(should_update("31.1.2", 31, 0, 2), Ok(true));
}

#[test]
fn should_update_rejects_malformed_versions() {
    for text in ["", "31", "31.0", "31.0.2.1", "a.b.c", "31..2", "31.0.", ".0.2"] {
        match should_update(text, 31, 0, 2) {
            Err(ObsBootstrapError::VersionError(_)) => {}
            other => panic!("version {:?} was not rejected: {:?}", text, other),
        }
    }
}

#[test]
fn should_update_rejects_oversized_segments() {
    match should_update("18446744073709551616.0.0", 31, 0, 2) {
        Err(ObsBootstrapError::VersionError(_)) => {}
        other => panic!("an oversized segment was not rejected: {:?}", other),
    }
    assert_eq!(
        should_update("18446744073709551615.0.0", 31, 0, 2),
        Ok(true)
    );
}

#[test]
fn archive_digests_verify_against_their_hex_text() {
    let data: Vec<u8> = b"abc".to_vec();
    let good = "ba7816bf8f01cfea414140de5dae2223b00361a396177a9cb410ff61f20015ad";
    assert!(verify_archive_digest(&data, good));
    assert!(verify_archive_digest(
        &data,
        "BA7816BF8F01CFEA414140DE5DAE2223B00361A396177A9CB410FF61F20015AD"
    ));
    let other = "ba7816bf8f01cfea414140de5dae2223b00361a396177a9cb410ff61f20015ae";
    assert!(!verify_archive_digest(&data, other));
    assert!(!verify_archive_digest(&data, "not hex"));
    assert!(!verify_archive_digest(&data, "abc"));
}

#[test]
fn module_plans_follow_the_engine_version() {
    assert_eq!(module_load_plan(32, true), ModulePlan::DisableListed);
    assert_eq!(module_load_plan(32, false), ModulePlan::SafeListed);
    assert_eq!(module_load_plan(31, true), ModulePlan::SafeListed);
}

#[test]
fn module_failures_are_reported_joined() {
    let paths = StartupPaths::new("data/libobs", "obs-plugins", "data/obs-plugins");
    let mut modules = ObsModules::add_paths(paths, 31, false);
    assert_eq!(modules.log_if_failed(), None);
    modules.load_modules(vec!["obs-vst".to_string(), "decklink".to_string()]);
    assert_eq!(
        modules.log_if_failed(),
        Some("obs-vst, decklink".to_string())
    );
}

#[test]
fn display_creation_data_builds_init_data() {
    let built = ObsDisplayCreationData::new(42, 5, 6, 800, 600)
        .set_adapter(2)
        .set_backbuffers(3)
        .set_format(GsColorFormat::RGBA)
        .set_zsformat(GsZstencilFormat::Z24S8)
        .set_background_color(7)
        .set_create_child(false)
        .build(None);
    assert_eq!(built.cx, 800);
    assert_eq!(built.cy, 600);
    assert_eq!(built.window, 42);
    assert_eq!(built.adapter, 2);
    assert_eq!(built.num_backbuffers, 3);
    assert_eq!(built.format, GsColorFormat::RGBA);
    assert_eq!(built.zsformat, GsZstencilFormat::Z24S8);

    let overridden = ObsDisplayCreationData::new(42, 0, 0, 800, 600).build(Some(9));
    assert_eq!(overridden.window, 9);
}

#[test]
fn transform_builder_defaults_and_overrides() {
    let built = ObsTransformInfoBuilder::new()
        .set_pos(Vec2 { x: 4, y: 8 })
        .set_rot(90)
        .build(1920, 1080);
    assert_eq!(built.get_pos(), Vec2 { x: 4, y: 8 });
    assert_eq!(built.get_rot(), 90);
    assert_eq!(built.get_scale(), Vec2 { x: 1, y: 1 });
    assert_eq!(built.get_bounds(), Vec2 { x: 1920, y: 1080 });
    assert_eq!(built.get_bounds_type(), ObsBoundsType::ScaleInner);
    assert!(!built.get_crop_to_bounds());

    let over = ObsTransformInfoBuilder::new()
        .set_bounds(Vec2 { x: 10, y: 20 })
        .set_bounds_type(ObsBoundsType::Stretch)
        .build(1920, 1080);
    assert_eq!(over.get_bounds(), Vec2 { x: 10, y: 20 });
    assert_eq!(over.get_bounds_type(), ObsBoundsType::Stretch);
}

#[test]
fn error_descriptions_name_every_kind() {
    assert!(!ObsError::NullPointer.describe().is_empty());
    assert!(!ObsError::ThreadFailure.describe().is_empty());
    assert!(!ObsError::OutputAlreadyActive.describe().is_empty());
    assert!(
        !libobs_wrapper::WindowHelperError::NoWindowFound
            .describe()
            .is_empty()
    );
}

#[test]
fn renderer_library_scan_finds_the_first_named_run() {
    // a synthetic frontend binary: junk, a stem without the suffix, junk,
    // then the real zero-terminated library name
    let mut binary: Vec<u8> = Vec::new();
    binary.extend_from_slice(b"\x01\x02junk");
    binary.extend_from_slice(b"libobs-opengl");
    binary.push(0);
    binary.extend_from_slice(b"more");
    binary.extend_from_slice(b"libobs-opengl.so.0");
    binary.push(0);
    binary.extend_from_slice(b"tail");

    let found = libobs_wrapper::find_renderer_library(&binary).unwrap();
    assert_eq!(found, b"libobs-opengl.so.0".to_vec());

    let empty: Vec<u8> = b"nothing to see".to_vec();
    assert!(libobs_wrapper::find_renderer_library(&empty).is_none());
}

#[test]
fn crash_handler_records_messages() {
    let mut handler = ConsoleCrashHandler::new();
    assert_eq!(handler.reported_count(), 0);
    handler.handle_crash("the engine hit a fatal error".to_string());
    handler.handle_crash("a second fatal error".to_string());
    assert_eq!(handler.reported_count(), 2);
}

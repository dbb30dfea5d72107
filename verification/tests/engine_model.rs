//! Behavior of the engine model: lifecycle, reference counting, channels,
//! transforms, outputs and signals.

use libobs_wrapper::NativeHandle;
use libobs_wrapper::NativeRequest;
use libobs_wrapper::ObjectInfo;
use libobs_wrapper::ObsContext;
use libobs_wrapper::ObsError;
use libobs_wrapper::ObsGraphicsModule;
use libobs_wrapper::ObsObjectKind;
use libobs_wrapper::ObsProcessState;
use libobs_wrapper::ObsSignalBridge;
use libobs_wrapper::ObsSignalPayload;
use libobs_wrapper::ObsString;
use libobs_wrapper::ObsVideoInfo;
use libobs_wrapper::SourceInfo;
use libobs_wrapper::StartupInfo;
use libobs_wrapper::StartupPaths;
use libobs_wrapper::StartupStep;
use libobs_wrapper::Vec2;

fn engine_startup_info(worker: u64) -> StartupInfo {
    StartupInfo {
        startup_paths: StartupPaths::new("data/libobs", "obs-plugins", "data/obs-plugins"),
        video: ObsVideoInfo::new(1920, 1080, 30, 1),
        worker_thread: worker,
        obs_version_major: 31,
        has_disabled_module_fn: false,
        module_failures: Vec::new(),
    }
}

fn engine_context() -> (ObsProcessState, ObsContext) {
    let mut state = ObsProcessState::new();
    let ctx = ObsContext::start(&mut state, engine_startup_info(1)).unwrap();
    (state, ctx)
}

fn plain_source_info(name: &str) -> SourceInfo {
    SourceInfo::new(
        ObsString::new("color_source"),
        ObsString::new(name),
        None,
        None,
    )
}

#[test]
fn start_refuses_second_engine_instance() {
    let mut state = ObsProcessState::new();
    let _ctx = ObsContext::start(&mut state, engine_startup_info(1)).unwrap();
    assert!(state.is_running());
    let second = ObsContext::start(&mut state, engine_startup_info(1));
    assert_eq!(second.err(), Some(ObsError::ThreadFailure));
}

#[test]
fn shutdown_walks_startup_in_reverse() {
    let (mut state, ctx) = engine_context();
    let steps = ctx.shutdown(&mut state);
    assert!(!state.is_running());
    assert_eq!(
        steps,
        vec![
            StartupStep::InitAudio,
            StartupStep::InitVideo,
            StartupStep::LoadModules,
            StartupStep::AddDataPaths,
        ]
    );
}

#[test]
fn retains_match_releases_once_everything_drops() {
    let (_state, mut ctx) = engine_context();
    let scene = ctx.scene("main").unwrap();
    let source = scene.add_source(&mut ctx, plain_source_info("cam")).unwrap();
    let extra = source.clone_ref(&mut ctx).unwrap();
    let output = ctx
        .output(ObjectInfo::new(
            ObsString::new("ffmpeg_muxer"),
            ObsString::new("rec"),
            None,
            None,
        ))
        .unwrap();
    let filter = ctx.filter("color_filter", "tint").unwrap();

    extra.release(&mut ctx).unwrap();
    source.release(&mut ctx).unwrap();
    // the scene still holds the source through its scene item; tearing the
    // scene down releases both
    scene.release(&mut ctx).unwrap();
    output.release(&mut ctx).unwrap();
    filter.release(&mut ctx).unwrap();

    assert_eq!(ctx.live_objects(), 0);
    let (retains, releases) = ctx.counters();
    assert_eq!(retains, releases);
    assert_eq!(retains, 4);
}

#[test]
fn set_to_channel_rejects_out_of_range_indexes() {
    let (_state, mut ctx) = engine_context();
    let scene = ctx.scene("main").unwrap();
    for channel in [64u32, 65, 1000] {
        match scene.set_to_channel(&mut ctx, channel) {
            Err(ObsError::InvalidOperation(_)) => {}
            other => panic!("channel {} was not rejected: {:?}", channel, other),
        }
    }
    assert!(scene.set_to_channel(&mut ctx, 0).is_ok());
    assert!(scene.set_to_channel(&mut ctx, 63).is_ok());
}

#[test]
fn set_to_channel_is_idempotent() {
    let (_state, mut ctx) = engine_context();
    let scene = ctx.scene("main").unwrap();
    scene.set_to_channel(&mut ctx, 5).unwrap();
    let (retains_once, releases_once) = ctx.counters();
    scene.set_to_channel(&mut ctx, 5).unwrap();
    let (retains_twice, releases_twice) = ctx.counters();
    assert_eq!(retains_once, retains_twice);
    assert_eq!(releases_once, releases_twice);
    scene.remove_from_channel(&mut ctx, 5).unwrap();
}

#[test]
fn scene_membership_survives_dropped_source_reference() {
    let (_state, mut ctx) = engine_context();
    let scene = ctx.scene("main").unwrap();
    let source = scene.add_source(&mut ctx, plain_source_info("cam")).unwrap();
    scene.set_to_channel(&mut ctx, 0).unwrap();

    assert_eq!(scene.source_count(&ctx), 1);
    assert!(scene.has_source_item(&ctx, &source));

    // keep a second reference to name the source after the first drops
    let kept = source.clone_ref(&mut ctx).unwrap();
    source.release(&mut ctx).unwrap();

    // the scene itself owns the membership: the set still functions
    assert_eq!(scene.source_count(&ctx), 1);
    assert!(scene.has_source_item(&ctx, &kept));
    let found = scene.get_source_mut(&mut ctx, "cam").unwrap();
    assert!(found.is_some());
    found.unwrap().release(&mut ctx).unwrap();

    scene.remove_source(&mut ctx, &kept).unwrap();
    assert_eq!(scene.source_count(&ctx), 0);
    assert!(!scene.has_source_item(&ctx, &kept));
}

#[test]
fn remove_source_reports_unattached_sources() {
    let (_state, mut ctx) = engine_context();
    let first = ctx.scene("one").unwrap();
    let second = ctx.scene("two").unwrap();
    let source = second.add_source(&mut ctx, plain_source_info("cam")).unwrap();
    assert_eq!(
        first.remove_source(&mut ctx, &source),
        Err(ObsError::SourceNotFound)
    );
}

#[test]
fn get_source_mut_finds_by_name() {
    let (_state, mut ctx) = engine_context();
    let scene = ctx.scene("main").unwrap();
    let _a = scene.add_source(&mut ctx, plain_source_info("left")).unwrap();
    let _b = scene.add_source(&mut ctx, plain_source_info("right")).unwrap();
    let hit = scene.get_source_mut(&mut ctx, "right").unwrap();
    assert!(hit.is_some());
    let hit_name = hit.unwrap().name();
    assert_eq!(hit_name.as_str(), "right");
    let miss = scene.get_source_mut(&mut ctx, "middle").unwrap();
    assert!(miss.is_none());
}

#[test]
fn fit_source_to_screen_respects_locked_items() {
    let (_state, mut ctx) = engine_context();
    let scene = ctx.scene("main").unwrap();
    let source = scene.add_source(&mut ctx, plain_source_info("cam")).unwrap();

    let before = scene.get_transform_info(&mut ctx, &source).unwrap();
    scene.set_source_locked(&mut ctx, &source, true).unwrap();
    let fitted = scene.fit_source_to_screen(&mut ctx, &source).unwrap();
    assert!(!fitted);
    let after = scene.get_transform_info(&mut ctx, &source).unwrap();
    assert_eq!(before, after);
}

#[test]
fn fit_source_to_screen_bounds_equal_base_resolution() {
    let (_state, mut ctx) = engine_context();
    let scene = ctx.scene("main").unwrap();
    let source = scene.add_source(&mut ctx, plain_source_info("cam")).unwrap();

    let fitted = scene.fit_source_to_screen(&mut ctx, &source).unwrap();
    assert!(fitted);
    let info = scene.get_transform_info(&mut ctx, &source).unwrap();
    assert_eq!(info.get_bounds(), Vec2 { x: 1920, y: 1080 });
    assert_eq!(info.get_pos(), Vec2 { x: 0, y: 0 });
    assert_eq!(info.get_scale(), Vec2 { x: 1, y: 1 });
}

#[test]
fn transforms_move_and_scale_sources() {
    let (_state, mut ctx) = engine_context();
    let scene = ctx.scene("main").unwrap();
    let source = scene.add_source(&mut ctx, plain_source_info("cam")).unwrap();

    scene
        .set_source_position(&mut ctx, &source, Vec2 { x: 10, y: 20 })
        .unwrap();
    scene
        .set_source_scale(&mut ctx, &source, Vec2 { x: 2, y: 3 })
        .unwrap();
    assert_eq!(
        scene.get_source_position(&mut ctx, &source).unwrap(),
        Vec2 { x: 10, y: 20 }
    );
    assert_eq!(
        scene.get_source_scale(&mut ctx, &source).unwrap(),
        Vec2 { x: 2, y: 3 }
    );
}

#[test]
fn affinity_transparency_for_foreign_threads() {
    // the same request against the same engine state gives the same
    // outcome whether it was submitted from the worker thread or queued
    // from another thread
    let (_s1, mut on_worker) = engine_context();
    let (_s2, mut off_worker) = engine_context();
    let a = on_worker
        .run_with_obs(1, NativeRequest::CreateScene { name: "main".to_string() })
        .unwrap();
    let b = off_worker
        .run_with_obs(99, NativeRequest::CreateScene { name: "main".to_string() })
        .unwrap();
    assert_eq!(a, b);
    let ca = on_worker.counters();
    let cb = off_worker.counters();
    assert_eq!(ca, cb);
}

#[test]
fn reset_video_keeps_the_graphics_backend() {
    let (_state, mut ctx) = engine_context();
    let same_backend = ObsVideoInfo::new(1280, 720, 60, 1);
    assert!(ctx.reset_video(same_backend).is_ok());

    let mut other_backend = ObsVideoInfo::new(1280, 720, 60, 1);
    other_backend.graphics_module = ObsGraphicsModule::Direct3D11;
    assert_eq!(
        ctx.reset_video(other_backend),
        Err(ObsError::ResetVideoFailureGraphicsModule)
    );
}

#[test]
fn output_start_stop_pause_protocol() {
    let (_state, mut ctx) = engine_context();
    let out = ctx
        .output(ObjectInfo::new(
            ObsString::new("ffmpeg_muxer"),
            ObsString::new("rec"),
            None,
            None,
        ))
        .unwrap();

    match out.stop(&mut ctx) {
        Err(ObsError::OutputStopFailure(_)) => {}
        other => panic!("stopping an inactive output: {:?}", other),
    }
    match out.pause(&mut ctx, true) {
        Err(ObsError::InvalidOperation(_)) => {}
        other => panic!("pausing an inactive output: {:?}", other),
    }

    out.start(&mut ctx).unwrap();
    assert_eq!(out.start(&mut ctx), Err(ObsError::OutputAlreadyActive));
    out.pause(&mut ctx, true).unwrap();
    out.pause(&mut ctx, false).unwrap();
    out.stop(&mut ctx).unwrap();
}

#[test]
fn save_buffer_refuses_non_replay_outputs_without_native_calls() {
    let (_state, mut ctx) = engine_context();
    let recording = ctx
        .output(ObjectInfo::new(
            ObsString::new("ffmpeg_muxer"),
            ObsString::new("rec"),
            None,
            None,
        ))
        .unwrap();
    let procs_before = ctx.proc_calls();
    match recording.save_buffer(&mut ctx) {
        Err(ObsError::OutputSaveBufferFailure(_)) => {}
        other => panic!("saving a non replay buffer: {:?}", other),
    }
    assert_eq!(ctx.proc_calls(), procs_before);
}

#[test]
fn save_buffer_hands_back_the_saved_path() {
    let (_state, mut ctx) = engine_context();
    let replay = ctx
        .output(ObjectInfo::new(
            ObsString::new("replay_buffer"),
            ObsString::new("replay"),
            None,
            None,
        ))
        .unwrap();

    // saving without starting the output fails at the native save call
    replay.start(&mut ctx).unwrap();
    match replay.save_buffer(&mut ctx) {
        Err(ObsError::OutputSaveBufferFailure(_)) => {}
        other => panic!("saving before any replay was written: {:?}", other),
    }

    replay
        .notify_replay_saved(&mut ctx, "recordings/replay-0001.mp4")
        .unwrap();
    let path = replay.save_buffer(&mut ctx).unwrap();
    assert_eq!(path, "recordings/replay-0001.mp4");
}

#[test]
fn signal_fanout_delivers_to_every_subscription() {
    let mut bridge = ObsSignalBridge::new();
    let object = NativeHandle::new(3, ObsObjectKind::Scene);
    let first = bridge.subscribe(object, "item_add");
    let second = bridge.subscribe(object, "item_add");
    let other_signal = bridge.subscribe(object, "item_remove");

    bridge.trigger(object, "item_add", ObsSignalPayload::IntData(7));

    assert_eq!(bridge.pending_count(first), 1);
    assert_eq!(bridge.pending_count(second), 1);
    assert_eq!(bridge.pending_count(other_signal), 0);
    assert_eq!(
        bridge.next_event(first),
        Some(ObsSignalPayload::IntData(7))
    );
    assert_eq!(
        bridge.next_event(second),
        Some(ObsSignalPayload::IntData(7))
    );
    assert_eq!(bridge.next_event(first), None);
}

#[test]
fn unsubscribed_queues_receive_nothing_more() {
    let mut bridge = ObsSignalBridge::new();
    let object = NativeHandle::new(3, ObsObjectKind::Source);
    let sub = bridge.subscribe(object, "item_visible");
    bridge.trigger(object, "item_visible", ObsSignalPayload::BoolData(true));
    bridge.unsubscribe(sub);
    bridge.trigger(object, "item_visible", ObsSignalPayload::BoolData(false));
    assert_eq!(bridge.pending_count(sub), 1);
    assert_eq!(
        bridge.next_event(sub),
        Some(ObsSignalPayload::BoolData(true))
    );
    assert_eq!(bridge.next_event(sub), None);
}

#[test]
fn calls_after_the_worker_is_gone_fail_with_thread_failure() {
    let (_state, mut ctx) = engine_context();
    let scene = ctx.scene("main").unwrap();
    ctx.retire_worker();
    assert!(!ctx.is_alive());
    assert_eq!(
        scene.set_to_channel(&mut ctx, 0),
        Err(ObsError::ThreadFailure)
    );
    assert_eq!(ctx.flush_drops(), Err(ObsError::ThreadFailure));
    assert_eq!(
        ctx.scene("side").err(),
        Some(ObsError::ThreadFailure)
    );
}

#[test]
fn request_validity_is_testable_before_submitting() {
    let (_state, mut ctx) = engine_context();
    let scene = ctx.scene("main").unwrap();
    assert!(ctx.request_valid(&NativeRequest::CreateScene { name: "side".to_string() }));
    assert!(ctx.request_valid(&NativeRequest::SetChannelSource {
        channel: 63,
        scene: scene.as_ptr().raw,
    }));
    assert!(!ctx.request_valid(&NativeRequest::SetChannelSource {
        channel: 64,
        scene: scene.as_ptr().raw,
    }));
    assert!(!ctx.request_valid(&NativeRequest::ItemGetLocked { item: 999 }));
    assert!(!ctx.request_valid(&NativeRequest::OutputGetFlags {
        output: scene.as_ptr().raw,
    }));
}

#[test]
fn deferred_drops_release_on_flush() {
    let (_state, mut ctx) = engine_context();
    let scene = ctx.scene("main").unwrap();
    let source = scene.add_source(&mut ctx, plain_source_info("cam")).unwrap();
    scene.remove_source(&mut ctx, &source).unwrap();

    // the non-blocking drop mode queues the releases and issues them later
    ctx.queue_release(source.as_ptr().raw);
    ctx.queue_release(scene.as_ptr().raw);
    let (retains_before, releases_before) = ctx.counters();
    assert!(releases_before < retains_before);

    let released = ctx.flush_drops().unwrap();
    assert_eq!(released, 2);
    assert_eq!(ctx.live_objects(), 0);
    let (retains, releases) = ctx.counters();
    assert_eq!(retains, releases);

    // stale entries are skipped on a second flush
    ctx.queue_release(source.as_ptr().raw);
    assert_eq!(ctx.flush_drops().unwrap(), 0);
}

#[test]
fn filters_attach_and_detach() {
    let (_state, mut ctx) = engine_context();
    let scene = ctx.scene("main").unwrap();
    let source = scene.add_source(&mut ctx, plain_source_info("cam")).unwrap();
    let filter = ctx.filter("color_filter", "tint").unwrap();
    scene.add_scene_filter(&mut ctx, &source, &filter).unwrap();
    scene
        .remove_scene_filter(&mut ctx, &source, &filter)
        .unwrap();
}

//! A safety-oriented model of a binding layer over a native multimedia
//! capture and encoding engine.
//!
//! The hard problem this library addresses is not the multimedia work
//! itself (that belongs to the wrapped native engine) but the bookkeeping
//! around it: marshaling every native call onto one dedicated thread,
//! matching every native retain with exactly one release, keeping scene
//! membership and output channels consistent, and translating the engine's
//! untyped key/value settings into typed values.  All of that bookkeeping
//! lives here as verified state, while the platform layer performs the
//! actual foreign calls and feeds their outcomes back in.

use vstd::prelude::*;

mod bootstrap;
mod context;
mod crash_handler;
mod data;
mod display;
mod engine;
mod modules;
mod output;
mod pipewire;
mod pulse;
mod runtime;
mod scenes;
mod signals;
mod source_builder;
mod sources;
mod window_capture;
mod error;
mod graphics;
mod transform;
mod utils;

pub use bootstrap::should_update;
pub use bootstrap::verify_archive_digest;
pub use bootstrap::ObsBootstrapError;
pub use context::ObsContext;
pub use context::ObsProcessState;
pub use context::StartupInfo;
pub use context::StartupStep;
pub use crash_handler::ConsoleCrashHandler;
pub use crash_handler::ObsCrashHandler;
pub use data::ObsData;
pub use data::ObsDataUpdater;
pub use data::ObsValue;
pub use display::GsInitData;
pub use display::ObsDisplayCreationData;
pub use engine::lemma_retain_release_balance;
pub use error::ObsError;
pub use error::WindowHelperError;
pub use modules::ModulePlan;
pub use modules::ObsModules;
pub use modules::StartupPaths;
pub use modules::find_renderer_library;
pub use modules::module_load_plan;
pub use output::ObsOutputRef;
pub use output::ReplayBufferOutput;
pub use pipewire::ObsPipeWireSourceType;
pub use pipewire::PipeWireCameraSourceBuilder;
pub use pipewire::PipeWireDesktopCaptureSourceBuilder;
pub use pipewire::PipeWireDesktopCaptureSourceUpdater;
pub use pipewire::PipeWireScreenCaptureSourceBuilder;
pub use pipewire::PipeWireScreenCaptureSourceUpdater;
pub use pipewire::PipeWireSourceExtTrait;
pub use pipewire::PipeWireWindowCaptureSourceBuilder;
pub use pipewire::PipeWireWindowCaptureSourceUpdater;
pub use pulse::PulseInputSource;
pub use pulse::PulseOutputSource;
pub use runtime::lemma_affinity_transparency;
pub use runtime::NativeRequest;
pub use runtime::NativeResponse;
pub use runtime::ObsRuntime;
pub use scenes::lemma_fit_source_to_screen_law;
pub use scenes::lemma_set_to_channel_idempotent;
pub use scenes::ObsSceneRef;
pub use signals::lemma_signal_fanout;
pub use signals::ObsSignalBridge;
pub use signals::ObsSignalPayload;
pub use signals::SignalSubscription;
pub use source_builder::ObsSourceBuilder;
pub use source_builder::ObsSourceBuilderId;
pub use source_builder::SourceBuilderCore;
pub use sources::ObjectInfo;
pub use sources::ObsFilterRef;
pub use sources::ObsSourceRef;
pub use sources::SourceInfo;
pub use utils::NativeHandle;
pub use utils::ObsObjectKind;
pub use window_capture::ObsWindowPriority;
pub use window_capture::WindowCaptureSourceBuilder;
pub use window_capture::WindowInfo;
pub use graphics::GsColorFormat;
pub use graphics::GsZstencilFormat;
pub use graphics::ObsGraphicsModule;
pub use graphics::ObsVideoInfo;
pub use graphics::Vec2;
pub use graphics::OBS_ALIGN_BOTTOM;
pub use graphics::OBS_ALIGN_CENTER;
pub use graphics::OBS_ALIGN_LEFT;
pub use graphics::OBS_ALIGN_RIGHT;
pub use graphics::OBS_ALIGN_TOP;
pub use transform::ObsBoundsType;
pub use transform::ObsTransformInfo;
pub use transform::ObsTransformInfoBuilder;
pub use utils::ObsString;

verus! {

/// The number of output channels a scene can be assigned to.
pub const MAX_CHANNELS: u32 = 64;

} // verus!

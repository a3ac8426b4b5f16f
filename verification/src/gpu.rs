//! GPU bring-up decisions: the state machine that turns adapter, device and
//! format negotiation results into either a configured swapchain plus a fixed
//! render pipeline, or a clean startup failure; and the deterministic choice
//! of the swapchain format.

use vstd::prelude::*;

verus! {

/// How frames are delivered to the display path. The wallpaper always
/// configures strict first-in-first-out, vsync-paced delivery.
#[derive(Clone, Copy, PartialEq, Eq, Structural, Debug)]
pub enum PresentMode {
    /// Strict, no-tearing, vsync-paced delivery; frames are never skipped.
    Fifo,
    /// Unpaced immediate delivery.
    Immediate,
    /// Triple-buffered delivery.
    Mailbox,
}

/// The configuration of the presentable surface: usage, format, dimensions
/// and present mode. The format is recorded as its index into the list of
/// formats the surface reports as supported for the chosen adapter.
#[derive(Clone, Copy, PartialEq, Eq, Structural, Debug)]
pub struct SurfaceConfig {
    /// The surface is used only as a render target.
    pub render_attachment_usage: bool,
    /// Index of the chosen format in the supported-format list.
    pub format_index: usize,
    /// Configured width in pixels.
    pub width: u32,
    /// Configured height in pixels.
    pub height: u32,
    /// Frame delivery pacing.
    pub present_mode: PresentMode,
}

/// The two entry symbols of the fixed shader program.
#[derive(Clone, Copy, PartialEq, Eq, Structural, Debug)]
pub enum ShaderEntry {
    /// The vertex stage entry.
    Vertex,
    /// The fragment stage entry.
    Fragment,
}

impl ShaderEntry {
    /// The well-known symbol name of this entry in the shader source.
    pub fn name(&self) -> (r: &'static str)
        ensures
            *self is Vertex ==> r@ == "vs_main"@,
            *self is Fragment ==> r@ == "fs_main"@,
    {
        match self {
            ShaderEntry::Vertex => "vs_main",
            ShaderEntry::Fragment => "fs_main",
        }
    }
}

/// The fixed, immutable render pipeline description: both shader entries, an
/// empty layout, one color target in the chosen swapchain format, no depth
/// buffer and no multisampling.
#[derive(Clone, Copy, PartialEq, Eq, Structural, Debug)]
pub struct PipelinePlan {
    /// Entry symbol of the vertex stage.
    pub vertex_entry: ShaderEntry,
    /// Entry symbol of the fragment stage.
    pub fragment_entry: ShaderEntry,
    /// Number of bound resource layouts; the shader needs none.
    pub bind_group_layout_count: usize,
    /// Number of push-constant ranges; the shader needs none.
    pub push_constant_range_count: usize,
    /// Number of color targets.
    pub color_target_count: usize,
    /// Index of the color target's format in the supported-format list.
    pub target_format_index: usize,
    /// Whether a depth/stencil buffer is attached.
    pub has_depth_stencil: bool,
    /// Number of samples per pixel.
    pub multisample_count: u32,
}

/// Why bring-up failed. Every variant is fatal at startup and leaves no GPU
/// object behind.
#[derive(Clone, Copy, PartialEq, Eq, Structural, Debug)]
pub enum BringUpError {
    /// The adapter request returned no adapter compatible with the surface.
    NoCompatibleAdapter,
    /// The adapter rejected the device and queue request.
    DeviceRequestFailed,
    /// The surface reports no supported format for the chosen adapter.
    NoSupportedFormats,
}

/// The bring-up state machine. The unverified shell performs one negotiation
/// per step and reports only its outcome; the machine decides what follows.
/// GPU objects exist only behind a `Ready` state.
#[derive(Clone, Copy, PartialEq, Eq, Structural, Debug)]
pub enum BringUp {
    /// Waiting for the adapter request against the presentable surface.
    AwaitingAdapter { width: u16, height: u16 },
    /// Waiting for the device and queue request.
    AwaitingDevice { width: u16, height: u16 },
    /// Waiting for the supported-format query.
    AwaitingFormats { width: u16, height: u16 },
    /// Bring-up is complete: configure the surface and build the pipeline.
    Ready { config: SurfaceConfig, pipeline: PipelinePlan },
    /// Bring-up failed; nothing was constructed.
    Failed { error: BringUpError },
}

/// Whether the state exposes any GPU object (swapchain configuration or
/// pipeline description) to the caller.
pub open spec fn exposes_gpu_objects(state: BringUp) -> bool {
    state is Ready
}

/// The surface configuration chosen for a surface of the given dimensions:
/// render-target usage, the first supported format, the surface's own size,
/// and strict first-in-first-out delivery.
pub open spec fn spec_surface_config(width: u16, height: u16) -> SurfaceConfig {
    SurfaceConfig {
        render_attachment_usage: true,
        format_index: 0,
        width: width as u32,
        height: height as u32,
        present_mode: PresentMode::Fifo,
    }
}

/// The fixed pipeline description built once after negotiation.
pub open spec fn spec_pipeline_plan() -> PipelinePlan {
    PipelinePlan {
        vertex_entry: ShaderEntry::Vertex,
        fragment_entry: ShaderEntry::Fragment,
        bind_group_layout_count: 0,
        push_constant_range_count: 0,
        color_target_count: 1,
        target_format_index: 0,
        has_depth_stencil: false,
        multisample_count: 1,
    }
}

/// Bring-up begins by requesting an adapter compatible with the surface.
pub open spec fn spec_start_bring_up(width: u16, height: u16) -> BringUp {
    BringUp::AwaitingAdapter { width, height }
}

/// Outcome of the adapter request: on success, request a device next; with
/// no compatible adapter, fail without constructing anything.
pub open spec fn spec_on_adapter(state: BringUp, found: bool) -> BringUp
    recommends
        state is AwaitingAdapter,
{
    if found {
        BringUp::AwaitingDevice { width: state->AwaitingAdapter_width, height: state->AwaitingAdapter_height }
    } else {
        BringUp::Failed { error: BringUpError::NoCompatibleAdapter }
    }
}

/// Outcome of the device and queue request: on success, query the supported
/// formats next; on rejection, fail without constructing anything.
pub open spec fn spec_on_device(state: BringUp, granted: bool) -> BringUp
    recommends
        state is AwaitingDevice,
{
    if granted {
        BringUp::AwaitingFormats { width: state->AwaitingDevice_width, height: state->AwaitingDevice_height }
    } else {
        BringUp::Failed { error: BringUpError::DeviceRequestFailed }
    }
}

/// Outcome of the supported-format query, reported as the number of formats:
/// with at least one, bring-up completes with the configuration and the
/// pipeline description; with none, it fails.
pub open spec fn spec_on_formats(state: BringUp, format_count: usize) -> BringUp
    recommends
        state is AwaitingFormats,
{
    if format_count > 0 {
        BringUp::Ready {
            config: spec_surface_config(state->AwaitingFormats_width, state->AwaitingFormats_height),
            pipeline: spec_pipeline_plan(),
        }
    } else {
        BringUp::Failed { error: BringUpError::NoSupportedFormats }
    }
}

/// Begin bring-up for a surface of the given non-empty dimensions.
pub fn start_bring_up(width: u16, height: u16) -> (r: BringUp)
    requires
        width > 0,
        height > 0,
    ensures
        r == spec_start_bring_up(width, height),
{
    BringUp::AwaitingAdapter { width, height }
}

/// Record the outcome of the adapter request.
pub fn on_adapter(state: BringUp, found: bool) -> (r: BringUp)
    requires
        state is AwaitingAdapter,
    ensures
        r == spec_on_adapter(state, found),
{
    match state {
        BringUp::AwaitingAdapter { width, height } => {
            if found {
                BringUp::AwaitingDevice { width, height }
            } else {
                BringUp::Failed { error: BringUpError::NoCompatibleAdapter }
            }
        },
        _ => state,
    }
}

/// Record the outcome of the device and queue request.
pub fn on_device(state: BringUp, granted: bool) -> (r: BringUp)
    requires
        state is AwaitingDevice,
    ensures
        r == spec_on_device(state, granted),
{
    match state {
        BringUp::AwaitingDevice { width, height } => {
            if granted {
                BringUp::AwaitingFormats { width, height }
            } else {
                BringUp::Failed { error: BringUpError::DeviceRequestFailed }
            }
        },
        _ => state,
    }
}

/// Record the number of formats the surface reports as supported.
pub fn on_formats(state: BringUp, format_count: usize) -> (r: BringUp)
    requires
        state is AwaitingFormats,
    ensures
        r == spec_on_formats(state, format_count),
{
    match state {
        BringUp::AwaitingFormats { width, height } => {
            if format_count > 0 {
                BringUp::Ready {
                    config: SurfaceConfig {
                        render_attachment_usage: true,
                        format_index: 0,
                        width: width as u32,
                        height: height as u32,
                        present_mode: PresentMode::Fifo,
                    },
                    pipeline: PipelinePlan {
                        vertex_entry: ShaderEntry::Vertex,
                        fragment_entry: ShaderEntry::Fragment,
                        bind_group_layout_count: 0,
                        push_constant_range_count: 0,
                        color_target_count: 1,
                        target_format_index: 0,
                        has_depth_stencil: false,
                        multisample_count: 1,
                    },
                }
            } else {
                BringUp::Failed { error: BringUpError::NoSupportedFormats }
            }
        },
        _ => state,
    }
}

/// The first format of the supported list, which is the one the wallpaper
/// always renders in; nothing with an empty list.
pub fn first_supported<T: Copy>(formats: &Vec<T>) -> (r: Option<T>)
    ensures
        formats@.len() > 0 ==> r == Some(formats@[0]),
        formats@.len() == 0 ==> r is None,
{
    if formats.len() > 0 {
        Some(formats[0])
    } else {
        None
    }
}

/// A failed adapter request ends bring-up cleanly: the machine reports the
/// missing adapter and exposes no device, queue, swapchain configuration or
/// pipeline state afterwards.
pub proof fn adapter_failure_is_clean(state: BringUp)
    requires
        state is AwaitingAdapter,
    ensures
        spec_on_adapter(state, false) matches BringUp::Failed { error } && error
            == BringUpError::NoCompatibleAdapter,
        !exposes_gpu_objects(spec_on_adapter(state, false)),
{
}

/// Every failure at any negotiation step is clean: no step of the machine
/// moves from a failure outcome to a state that exposes GPU objects.
pub proof fn failures_expose_nothing(state: BringUp)
    ensures
        state is AwaitingAdapter ==> !exposes_gpu_objects(spec_on_adapter(state, false)),
        state is AwaitingDevice ==> !exposes_gpu_objects(spec_on_device(state, false)),
        state is AwaitingFormats ==> !exposes_gpu_objects(spec_on_formats(state, 0)),
{
}

/// Successful bring-up for a surface of dimensions (`width`, `height`) ends
/// in a configuration with exactly those dimensions, render-target usage and
/// strict first-in-first-out delivery, and the pipeline's single color target
/// uses the same format as the configured swapchain: the first format the
/// surface reports as supported.
pub proof fn bring_up_matches_surface(width: u16, height: u16, format_count: usize)
    requires
        width > 0,
        height > 0,
        format_count > 0,
    ensures
        ({
            let end = spec_on_formats(
                spec_on_device(spec_on_adapter(spec_start_bring_up(width, height), true), true),
                format_count,
            );
            &&& end matches BringUp::Ready { config, pipeline }
            &&& config.width == width as u32
            &&& config.height == height as u32
            &&& config.render_attachment_usage
            &&& config.present_mode == PresentMode::Fifo
            &&& config.format_index == 0
            &&& pipeline.target_format_index == config.format_index
            &&& pipeline.color_target_count == 1
        }),
{
}

} // verus!

//! The steady-state presentation loop: the fixed command plan recorded for
//! every frame, and the decision taken on each frame-acquisition outcome.

use vstd::prelude::*;

verus! {

/// A color with 8-bit channels. The shell scales each channel to the unit
/// interval when it records the real clear operation.
#[derive(Clone, Copy, PartialEq, Eq, Structural, Debug)]
pub struct ClearColor {
    /// Red channel.
    pub red: u8,
    /// Green channel.
    pub green: u8,
    /// Blue channel.
    pub blue: u8,
    /// Alpha channel.
    pub alpha: u8,
}

/// One draw call, as a vertex range and an instance range.
#[derive(Clone, Copy, PartialEq, Eq, Structural, Debug)]
pub struct DrawCall {
    /// First vertex of the range.
    pub first_vertex: u32,
    /// Number of vertices drawn.
    pub vertex_count: u32,
    /// First instance of the range.
    pub first_instance: u32,
    /// Number of instances drawn.
    pub instance_count: u32,
}

/// One render pass: clear the single color target, bind the fixed pipeline,
/// and issue one draw call.
#[derive(Clone, Copy, PartialEq, Eq, Structural, Debug)]
pub struct RenderPassPlan {
    /// The color the target is cleared to before drawing.
    pub clear: ClearColor,
    /// Whether the fixed render pipeline is bound.
    pub binds_pipeline: bool,
    /// The single draw call of the pass.
    pub draw: DrawCall,
}

/// The command plan of one frame: exactly one render pass, nothing else.
#[derive(Clone, Copy, PartialEq, Eq, Structural, Debug)]
pub struct FramePlan {
    /// The single render pass recorded into the frame's command buffer.
    pub pass: RenderPassPlan,
}

/// What the loop does after one frame-acquisition attempt.
#[derive(Clone, Copy, PartialEq, Eq, Structural, Debug)]
pub enum LoopAction {
    /// Record the plan into a command buffer, submit it, present the frame.
    RenderAndPresent { plan: FramePlan },
    /// Acquisition failed; the loop ends and the failure propagates.
    Terminate,
}

/// The fixed clear color: full green, fully opaque.
pub open spec fn spec_clear_color() -> ClearColor {
    ClearColor { red: 0, green: 255, blue: 0, alpha: 255 }
}

/// The command plan recorded for every frame: one pass that clears to full
/// green, binds the pipeline, and draws 3 vertices of 1 instance, both
/// ranges starting at 0 — the full-screen triangle implied by the shader.
pub open spec fn spec_frame_plan() -> FramePlan {
    FramePlan {
        pass: RenderPassPlan {
            clear: spec_clear_color(),
            binds_pipeline: true,
            draw: DrawCall {
                first_vertex: 0,
                vertex_count: 3,
                first_instance: 0,
                instance_count: 1,
            },
        },
    }
}

/// The command plan of the next frame. The plan never varies: every frame
/// records the same single pass.
pub fn frame_plan() -> (r: FramePlan)
    ensures
        r == spec_frame_plan(),
{
    FramePlan {
        pass: RenderPassPlan {
            clear: ClearColor { red: 0, green: 255, blue: 0, alpha: 255 },
            binds_pipeline: true,
            draw: DrawCall {
                first_vertex: 0,
                vertex_count: 3,
                first_instance: 0,
                instance_count: 1,
            },
        },
    }
}

/// Decide one loop iteration from the frame-acquisition outcome: an acquired
/// frame is rendered with the fixed plan and presented; a failed acquisition
/// ends the loop, and the failure propagates to the caller.
pub fn presentation_step(acquired: bool) -> (r: LoopAction)
    ensures
        acquired ==> (r matches LoopAction::RenderAndPresent { plan } && plan
            == spec_frame_plan()),
        !acquired ==> r is Terminate,
{
    if acquired {
        LoopAction::RenderAndPresent { plan: frame_plan() }
    } else {
        LoopAction::Terminate
    }
}

} // verus!

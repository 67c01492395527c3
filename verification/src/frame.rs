//! The per-frame protocol, planned as an explicit command sequence.
//!
//! One frame is: begin a render pass that clears the target, bind the
//! pipeline and the uniform bind group, draw the screen-covering pair of
//! triangles (6 vertices, 1 instance, no vertex buffer), end the pass,
//! write the cursor uniform if one is known, submit everything in one
//! submission, then notify the windowing system and present. The driver
//! executes the commands in order against the GPU handles it owns.

use vstd::prelude::*;

use crate::uniform::{spec_encoding, UniformState};

verus! {

/// One step of a frame, in the order the driver must perform them.
#[derive(PartialEq, Eq, Debug)]
pub enum FrameCommand {
    /// Begin the render pass, clearing the color target to the default color.
    BeginClearPass,
    /// Bind the render pipeline.
    BindPipeline,
    /// Bind the uniform bind group at group index 0.
    BindUniformGroup,
    /// Issue the draw call.
    Draw { vertices: u32, instances: u32 },
    /// End the render pass.
    EndPass,
    /// Write `bytes` at offset 0 of the uniform buffer.
    WriteUniform { bytes: Vec<u8> },
    /// Submit the recorded commands to the queue, in one submission.
    Submit,
    /// Tell the windowing system the frame is about to present.
    PrePresentNotify,
    /// Present the acquired surface image.
    Present,
}

/// The exact command sequence a frame must consist of, given the cursor
/// uniform at plan time: the fixed pass with its single 6-vertex,
/// 1-instance draw, a uniform write exactly when the cursor is known, one
/// submission, then notify and present.
pub open spec fn spec_frame_plan_ok(u: UniformState, s: Seq<FrameCommand>) -> bool {
    match u {
        UniformState::Unset => {
            &&& s.len() == 8
            &&& s[0] is BeginClearPass
            &&& s[1] is BindPipeline
            &&& s[2] is BindUniformGroup
            &&& (s[3] matches FrameCommand::Draw { vertices, instances }
                && vertices == 6 && instances == 1)
            &&& s[4] is EndPass
            &&& s[5] is Submit
            &&& s[6] is PrePresentNotify
            &&& s[7] is Present
        }
        UniformState::Known { x_bits, y_bits } => {
            &&& s.len() == 9
            &&& s[0] is BeginClearPass
            &&& s[1] is BindPipeline
            &&& s[2] is BindUniformGroup
            &&& (s[3] matches FrameCommand::Draw { vertices, instances }
                && vertices == 6 && instances == 1)
            &&& s[4] is EndPass
            &&& (s[5] matches FrameCommand::WriteUniform { bytes }
                && bytes@ == spec_encoding(x_bits, y_bits))
            &&& s[6] is Submit
            &&& s[7] is PrePresentNotify
            &&& s[8] is Present
        }
    }
}

/// Plan one frame for the given cursor uniform.
pub fn frame_plan(u: &UniformState) -> (cmds: Vec<FrameCommand>)
    ensures
        spec_frame_plan_ok(*u, cmds@),
{
    let mut cmds: Vec<FrameCommand> = Vec::new();
    cmds.push(FrameCommand::BeginClearPass);
    cmds.push(FrameCommand::BindPipeline);
    cmds.push(FrameCommand::BindUniformGroup);
    cmds.push(FrameCommand::Draw { vertices: 6, instances: 1 });
    cmds.push(FrameCommand::EndPass);
    if let Some(bytes) = u.encode() {
        cmds.push(FrameCommand::WriteUniform { bytes });
    }
    cmds.push(FrameCommand::Submit);
    cmds.push(FrameCommand::PrePresentNotify);
    cmds.push(FrameCommand::Present);
    cmds
}

/// Every draw a frame plan issues uses exactly 6 vertices and 1 instance,
/// and each plan issues exactly one draw, whatever the uniform state.
pub proof fn lemma_draw_always_six_one(u: UniformState, s: Seq<FrameCommand>)
    requires
        spec_frame_plan_ok(u, s),
    ensures
        forall|i: int|
            0 <= i < s.len() && s[i] is Draw ==> s[i]->vertices == 6 && s[i]->instances == 1,
        exists|i: int| 0 <= i < s.len() && #[trigger] (s[i] is Draw),
{
    assert(s[3] is Draw);
}

/// A frame planned while no cursor position is known writes nothing to the
/// uniform buffer.
pub proof fn lemma_unset_never_writes(s: Seq<FrameCommand>)
    requires
        spec_frame_plan_ok(UniformState::Unset, s),
    ensures
        forall|i: int| 0 <= i < s.len() ==> !(#[trigger] s[i] is WriteUniform),
{
}

} // verus!

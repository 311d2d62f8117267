use vstd::prelude::*;
use crate::config::{Extent, SurfaceFormat};
use crate::resources::FramebufferDesc;

verus! {

/// The color an attachment is cleared to, one byte per channel.
#[derive(Clone, Copy, Debug, PartialEq, Eq, Structural)]
pub struct ClearColor {
    pub r: u8,
    pub g: u8,
    pub b: u8,
    pub a: u8,
}

/// The geometry drawn each frame: a vertex buffer of `vertex_count` vertices.
#[derive(Clone, Copy, Debug, PartialEq, Eq, Structural)]
pub struct Geometry {
    pub vertex_count: u32,
}

/// One step of a frame's command sequence.
#[derive(Clone, Copy, Debug, PartialEq, Eq, Structural)]
pub enum Command {
    /// Begins the render pass on the framebuffer of image `framebuffer`, clearing it.
    BeginRenderPass { framebuffer: usize, clear: ClearColor },
    /// Draws the geometry over a viewport at the origin of size `viewport`.
    Draw { vertex_count: u32, viewport: Extent },
    EndRenderPass,
}

/// Why a command sequence cannot be recorded.
#[derive(Clone, Copy, Debug, PartialEq, Eq, Structural)]
pub enum RecordError {
    /// The framebuffer's extent or format differs from the viewport or the render pass.
    IncompatibleFramebuffer,
}

/// Whether `fb` can be drawn into with a viewport of `viewport` by a render pass of `format`.
pub open spec fn compatible(fb: FramebufferDesc, viewport: Extent, format: SurfaceFormat) -> bool {
    fb.extent == viewport && fb.format == format
}

/// The commands of one frame: one render pass, one draw, sized to the viewport.
pub open spec fn commands_spec(
    fb: FramebufferDesc,
    viewport: Extent,
    geometry: Geometry,
    clear: ClearColor,
) -> Seq<Command> {
    seq![
        Command::BeginRenderPass { framebuffer: fb.image, clear },
        Command::Draw { vertex_count: geometry.vertex_count, viewport },
        Command::EndRenderPass,
    ]
}

/// Records the command sequence of one frame into `fb`, for a render pass of `format`.
pub fn record(
    fb: FramebufferDesc,
    viewport: Extent,
    format: SurfaceFormat,
    geometry: Geometry,
    clear: ClearColor,
) -> (r: Result<Vec<Command>, RecordError>)
    ensures
        r is Ok <==> compatible(fb, viewport, format),
        r is Ok ==> r->Ok_0@ == commands_spec(fb, viewport, geometry, clear),
        r is Err ==> r->Err_0 == RecordError::IncompatibleFramebuffer,
{
    if fb.extent != viewport || fb.format != format {
        return Err(RecordError::IncompatibleFramebuffer);
    }
    let mut commands: Vec<Command> = Vec::new();
    commands.push(Command::BeginRenderPass { framebuffer: fb.image, clear });
    commands.push(Command::Draw { vertex_count: geometry.vertex_count, viewport });
    commands.push(Command::EndRenderPass);
    assert(commands@ =~= commands_spec(fb, viewport, geometry, clear));
    Ok(commands)
}

} // verus!

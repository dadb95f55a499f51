//! The renderer-facing drawer: it owns three fixed-budget buffers
//! (vertices, elements, draw commands), uploads the font atlas
//! texture, and packs each frame's accumulated UI commands into the
//! buffers.  The buffers are allocated once with their byte budgets
//! and reused every frame; a frame that does not fit is rejected, the
//! buffers are never grown.

use vstd::prelude::*;
use vstd::string::StrSliceExecFns;

use crate::config::ConvertConfig;
use crate::config::TextureHandle;
use crate::context::Context;
use crate::context::UiCommand;

verus! {

/// Byte budget of the vertex buffer.
pub const MAX_VERTEX_MEMORY: usize = 512 * 1024;

/// Byte budget of the element (index) buffer.
pub const MAX_ELEMENT_MEMORY: usize = 128 * 1024;

/// Byte budget of the draw-command buffer.
pub const MAX_COMMANDS_MEMORY: usize = 64 * 1024;

/// Bytes of one packed vertex: position, texture coordinates, color.
pub const VERTEX_BYTES: usize = 20;

/// Bytes of one index.
pub const INDEX_BYTES: usize = 2;

/// Bytes one textured quad takes in the vertex buffer: four vertices.
pub const QUAD_VERTEX_BYTES: usize = 4 * VERTEX_BYTES;

/// Bytes one textured quad takes in the element buffer: six indices.
pub const QUAD_ELEMENT_BYTES: usize = 6 * INDEX_BYTES;

/// Bytes of one draw-command record.
pub const DRAW_COMMAND_BYTES: usize = 64;

/// Quads a command tessellates into: a panel needs its background,
/// four border strips if bordered, and a title bar plus one quad per
/// title glyph if titled; a text label needs one quad per glyph; the
/// layout commands emit no geometry.
pub open spec fn quads_of_command(c: UiCommand) -> int {
    match c {
        UiCommand::PanelBegin { title, flags, .. } => 1 + (if flags.border {
            4int
        } else {
            0int
        }) + (if flags.title {
            1 + title@.len() as int
        } else {
            0int
        }),
        UiCommand::Text { content, .. } => content@.len() as int,
        UiCommand::LayoutRowDynamic { .. } => 0,
        UiCommand::PanelEnd => 0,
    }
}

/// Draw-command records a command needs: one per command that emits
/// geometry.
pub open spec fn records_of_command(c: UiCommand) -> int {
    match c {
        UiCommand::PanelBegin { .. } => 1,
        UiCommand::Text { .. } => 1,
        UiCommand::LayoutRowDynamic { .. } => 0,
        UiCommand::PanelEnd => 0,
    }
}

/// Quads a whole command list tessellates into.
pub open spec fn total_quads(s: Seq<UiCommand>) -> int
    decreases s.len(),
{
    if s.len() == 0 {
        0
    } else {
        total_quads(s.drop_last()) + quads_of_command(s.last())
    }
}

/// Draw-command records a whole command list needs.
pub open spec fn total_records(s: Seq<UiCommand>) -> int
    decreases s.len(),
{
    if s.len() == 0 {
        0
    } else {
        total_records(s.drop_last()) + records_of_command(s.last())
    }
}

/// No command has negative cost.
pub proof fn lemma_totals_nonneg(s: Seq<UiCommand>)
    ensures
        total_quads(s) >= 0,
        total_records(s) >= 0,
    decreases s.len(),
{
    if s.len() > 0 {
        lemma_totals_nonneg(s.drop_last());
    }
}

/// A prefix of a command list never costs more than the whole list.
pub proof fn lemma_totals_prefix(s: Seq<UiCommand>, i: int)
    requires
        0 <= i <= s.len(),
    ensures
        total_quads(s.subrange(0, i)) <= total_quads(s),
        total_records(s.subrange(0, i)) <= total_records(s),
    decreases s.len() - i,
{
    if i == s.len() {
        assert(s.subrange(0, i) =~= s);
    } else {
        lemma_totals_prefix(s, i + 1);
        assert(s.subrange(0, i + 1).drop_last() =~= s.subrange(0, i));
        assert(s.subrange(0, i + 1).last() == s[i]);
        let c = s[i];
        assert(quads_of_command(c) >= 0);
        assert(records_of_command(c) >= 0);
    }
}

/// Bytes a frame's command list asks of each buffer.
pub ghost struct FrameCost {
    pub vertex_bytes: int,
    pub element_bytes: int,
    pub command_bytes: int,
}

/// The cost of converting a command list into buffer contents.
pub open spec fn frame_cost(s: Seq<UiCommand>) -> FrameCost {
    FrameCost {
        vertex_bytes: total_quads(s) * QUAD_VERTEX_BYTES,
        element_bytes: total_quads(s) * QUAD_ELEMENT_BYTES,
        command_bytes: total_records(s) * DRAW_COMMAND_BYTES,
    }
}

/// Abstraction of the drawer's buffers: the configured byte budgets
/// and the bytes the last converted frame used.
pub ghost struct BufferModel {
    pub vertex_capacity: int,
    pub element_capacity: int,
    pub command_capacity: int,
    pub vertex_used: int,
    pub element_used: int,
    pub command_used: int,
}

impl BufferModel {
    /// Usage never exceeds the configured budgets.
    pub open spec fn wf(self) -> bool {
        &&& 0 <= self.vertex_used <= self.vertex_capacity
        &&& 0 <= self.element_used <= self.element_capacity
        &&& 0 <= self.command_used <= self.command_capacity
    }
}

/// Whether a frame's cost fits the configured budgets.
pub open spec fn cost_fits(m: BufferModel, c: FrameCost) -> bool {
    &&& c.vertex_bytes <= m.vertex_capacity
    &&& c.element_bytes <= m.element_capacity
    &&& c.command_bytes <= m.command_capacity
}

/// Effect of one frame's conversion on the buffers: the budgets never
/// change; a frame that fits replaces the usage, one that does not
/// leaves the buffers untouched.
pub open spec fn apply_frame(m: BufferModel, c: FrameCost) -> BufferModel {
    if cost_fits(m, c) {
        BufferModel {
            vertex_used: c.vertex_bytes,
            element_used: c.element_bytes,
            command_used: c.command_bytes,
            ..m
        }
    } else {
        m
    }
}

/// Effect of a whole run of frames, first frame first.
pub open spec fn apply_frames(m: BufferModel, cs: Seq<FrameCost>) -> BufferModel
    decreases cs.len(),
{
    if cs.len() == 0 {
        m
    } else {
        apply_frames(apply_frame(m, cs[0]), cs.subrange(1, cs.len() as int))
    }
}

/// A frame's cost never asks for a negative number of bytes, so
/// every cost a command list produces satisfies the hypothesis of
/// `buffers_never_grow`.
pub proof fn lemma_frame_cost_nonneg(s: Seq<UiCommand>)
    ensures
        frame_cost(s).vertex_bytes >= 0,
        frame_cost(s).element_bytes >= 0,
        frame_cost(s).command_bytes >= 0,
{
    lemma_totals_nonneg(s);
}

/// What every cost a command list can produce satisfies.
pub open spec fn cost_nonneg(c: FrameCost) -> bool {
    &&& c.vertex_bytes >= 0
    &&& c.element_bytes >= 0
    &&& c.command_bytes >= 0
}

/// Re-running the frame conversion for any number of frames never
/// changes the configured budgets and never leaves any buffer holding
/// more than its budget: the buffers are reused, not grown.
pub proof fn buffers_never_grow(m: BufferModel, cs: Seq<FrameCost>)
    requires
        m.wf(),
        forall|i: int| 0 <= i < cs.len() ==> #[trigger] cost_nonneg(cs[i]),
    ensures
        apply_frames(m, cs).vertex_capacity == m.vertex_capacity,
        apply_frames(m, cs).element_capacity == m.element_capacity,
        apply_frames(m, cs).command_capacity == m.command_capacity,
        apply_frames(m, cs).wf(),
    decreases cs.len(),
{
    if cs.len() > 0 {
        let m1 = apply_frame(m, cs[0]);
        assert(cost_nonneg(cs[0]));
        assert(m1.wf());
        buffers_never_grow(m1, cs.subrange(1, cs.len() as int));
    }
}

/// Bytes each buffer of a converted frame holds, and the viewport
/// the frame was sized for, handed to the platform layer together
/// with the draw calls.
#[derive(Clone, Copy, Debug, PartialEq, Eq, Structural)]
pub struct FrameStats {
    pub vertex_bytes: usize,
    pub element_bytes: usize,
    pub command_bytes: usize,
    /// Framebuffer width the frame was converted for, in pixels.
    pub fb_width: u32,
    /// Framebuffer height the frame was converted for, in pixels.
    pub fb_height: u32,
    /// DPI scale the frame was converted at, in permille.
    pub scale_permille: u32,
}

/// Why a frame could not be converted.
#[derive(Clone, Copy, Debug, PartialEq, Eq, Structural)]
pub enum DrawError {
    /// The frame's vertices exceed the vertex buffer budget.
    VertexBufferOverflow,
    /// The frame's indices exceed the element buffer budget.
    ElementBufferOverflow,
    /// The frame's draw records exceed the command buffer budget.
    CommandBufferOverflow,
}

/// The drawer.
#[derive(Debug)]
pub struct Drawer {
    /// Configured vertex buffer budget, in bytes.
    pub vertex_capacity: usize,
    /// Configured element buffer budget, in bytes.
    pub element_capacity: usize,
    /// Configured draw-command buffer budget, in bytes.
    pub command_capacity: usize,
    /// Vertex bytes the last converted frame used.
    pub vertex_used: usize,
    /// Element bytes the last converted frame used.
    pub element_used: usize,
    /// Draw-command bytes the last converted frame used.
    pub command_used: usize,
    /// Identifier the next created texture gets.
    pub next_tex_id: u32,
    /// Texture of the baked font atlas, once uploaded.
    pub font_tex: Option<TextureHandle>,
}

impl Drawer {
    /// The buffer abstraction of this drawer.
    pub open spec fn model(&self) -> BufferModel {
        BufferModel {
            vertex_capacity: self.vertex_capacity as int,
            element_capacity: self.element_capacity as int,
            command_capacity: self.command_capacity as int,
            vertex_used: self.vertex_used as int,
            element_used: self.element_used as int,
            command_used: self.command_used as int,
        }
    }

    /// Well-formedness: the buffer abstraction is within budget and
    /// texture identifiers start at 1.
    pub open spec fn wf(&self) -> bool {
        &&& self.model().wf()
        &&& self.next_tex_id >= 1
    }

    /// A fresh drawer with the given byte budgets and empty buffers.
    pub fn new(vertex_capacity: usize, element_capacity: usize, command_capacity: usize) -> (r:
        Drawer)
        ensures
            r.wf(),
            r.model() == (BufferModel {
                vertex_capacity: vertex_capacity as int,
                element_capacity: element_capacity as int,
                command_capacity: command_capacity as int,
                vertex_used: 0,
                element_used: 0,
                command_used: 0,
            }),
            r.font_tex is None,
            r.next_tex_id == 1,
    {
        Drawer {
            vertex_capacity,
            element_capacity,
            command_capacity,
            vertex_used: 0,
            element_used: 0,
            command_used: 0,
            next_tex_id: 1,
            font_tex: None,
        }
    }

    /// Creates a texture from a tightly packed RGBA bitmap and records
    /// it as the font atlas texture.  The handle is always valid.
    pub fn add_texture(&mut self, bitmap: &Vec<u8>, width: usize, height: usize) -> (r:
        TextureHandle)
        requires
            old(self).wf(),
            old(self).next_tex_id < u32::MAX,
            width >= 1,
            height >= 1,
            bitmap@.len() == 4 * width * height,
        ensures
            final(self).wf(),
            r.id == old(self).next_tex_id,
            r.is_valid(),
            final(self).next_tex_id == old(self).next_tex_id + 1,
            final(self).font_tex == Some(r),
            final(self).model() == old(self).model(),
    {
        let r = TextureHandle { id: self.next_tex_id };
        self.next_tex_id = self.next_tex_id + 1;
        self.font_tex = Some(r);
        r
    }

    /// Converts a frame's accumulated UI commands into the three
    /// buffers, sized for the given framebuffer.  Succeeds exactly when
    /// the frame's cost fits every budget; the budgets themselves never
    /// change, and a frame that does not fit leaves the buffers as they
    /// were.
    pub fn draw(&mut self, ctx: &Context, cfg: &ConvertConfig, fw: u32, fh: u32, scale_permille: u32) -> (r:
        Result<FrameStats, DrawError>)
        requires
            old(self).wf(),
            cfg.null.texture.is_valid(),
        ensures
            final(self).wf(),
            final(self).model() == apply_frame(old(self).model(), frame_cost(ctx.commands@)),
            final(self).next_tex_id == old(self).next_tex_id,
            final(self).font_tex == old(self).font_tex,
            r is Ok <==> cost_fits(old(self).model(), frame_cost(ctx.commands@)),
            r matches Ok(s) ==> s.vertex_bytes == frame_cost(ctx.commands@).vertex_bytes
                && s.element_bytes == frame_cost(ctx.commands@).element_bytes && s.command_bytes
                == frame_cost(ctx.commands@).command_bytes && s.fb_width == fw && s.fb_height == fh
                && s.scale_permille == scale_permille,
            r matches Err(DrawError::VertexBufferOverflow) <==> frame_cost(
                ctx.commands@,
            ).vertex_bytes > old(self).model().vertex_capacity,
            r matches Err(DrawError::ElementBufferOverflow) <==> (frame_cost(
                ctx.commands@,
            ).vertex_bytes <= old(self).model().vertex_capacity && frame_cost(
                ctx.commands@,
            ).element_bytes > old(self).model().element_capacity),
            r matches Err(DrawError::CommandBufferOverflow) <==> (frame_cost(
                ctx.commands@,
            ).vertex_bytes <= old(self).model().vertex_capacity && frame_cost(
                ctx.commands@,
            ).element_bytes <= old(self).model().element_capacity && frame_cost(
                ctx.commands@,
            ).command_bytes > old(self).model().command_capacity),
    {
        let cmds = &ctx.commands;
        let n = cmds.len();
        let mut quads: usize = 0;
        let mut records: usize = 0;
        let mut i: usize = 0;
        let mut overflowed = false;
        while i < n
            invariant
                0 <= i <= n,
                n == cmds@.len(),
                records <= i,
                !overflowed ==> quads == total_quads(cmds@.subrange(0, i as int)),
                overflowed ==> total_quads(cmds@.subrange(0, i as int)) > usize::MAX,
                records == total_records(cmds@.subrange(0, i as int)),
            decreases n - i,
        {
            proof {
                assert(cmds@.subrange(0, i + 1).drop_last() =~= cmds@.subrange(0, i as int));
                assert(cmds@.subrange(0, i + 1).last() == cmds@[i as int]);
                lemma_totals_nonneg(cmds@.subrange(0, i as int));
            }
            let c_quads: Option<usize> = match &cmds[i] {
                UiCommand::PanelBegin { title, flags, .. } => {
                    let fixed: usize = 1 + (if flags.border {
                        4
                    } else {
                        0
                    }) + (if flags.title {
                        1
                    } else {
                        0
                    });
                    if flags.title {
                        title.as_str().unicode_len().checked_add(fixed)
                    } else {
                        Some(fixed)
                    }
                },
                UiCommand::Text { content, .. } => Some(content.as_str().unicode_len()),
                UiCommand::LayoutRowDynamic { .. } => Some(0),
                UiCommand::PanelEnd => Some(0),
            };
            let c_records: usize = match &cmds[i] {
                UiCommand::PanelBegin { .. } => 1,
                UiCommand::Text { .. } => 1,
                UiCommand::LayoutRowDynamic { .. } => 0,
                UiCommand::PanelEnd => 0,
            };
            if !overflowed {
                let stepped: Option<usize> = match c_quads {
                    Some(q) => quads.checked_add(q),
                    None => None,
                };
                match stepped {
                    Some(q) => {
                        quads = q;
                    },
                    None => {
                        overflowed = true;
                    },
                }
            }
            records = records + c_records;
            i = i + 1;
        }
        proof {
            assert(cmds@.subrange(0, n as int) =~= cmds@);
            lemma_totals_prefix(cmds@, i as int);
        }
        let vertex_bytes: Option<usize> = if overflowed {
            None
        } else {
            quads.checked_mul(QUAD_VERTEX_BYTES)
        };
        let element_bytes: Option<usize> = if overflowed {
            None
        } else {
            quads.checked_mul(QUAD_ELEMENT_BYTES)
        };
        let command_bytes: Option<usize> = records.checked_mul(DRAW_COMMAND_BYTES);
        proof {
            if overflowed {
                assert(total_quads(cmds@) * QUAD_VERTEX_BYTES > usize::MAX) by (nonlinear_arith)
                    requires
                        total_quads(cmds@) > usize::MAX,
                ;
                assert(total_quads(cmds@) * QUAD_ELEMENT_BYTES > usize::MAX) by (nonlinear_arith)
                    requires
                        total_quads(cmds@) > usize::MAX,
                ;
            }
        }
        let v = match vertex_bytes {
            Some(v) => v,
            None => {
                return Err(DrawError::VertexBufferOverflow);
            },
        };
        if v > self.vertex_capacity {
            return Err(DrawError::VertexBufferOverflow);
        }
        let e = match element_bytes {
            Some(e) => e,
            None => {
                return Err(DrawError::ElementBufferOverflow);
            },
        };
        if e > self.element_capacity {
            return Err(DrawError::ElementBufferOverflow);
        }
        let c = match command_bytes {
            Some(c) => c,
            None => {
                return Err(DrawError::CommandBufferOverflow);
            },
        };
        if c > self.command_capacity {
            return Err(DrawError::CommandBufferOverflow);
        }
        self.vertex_used = v;
        self.element_used = e;
        self.command_used = c;
        Ok(
            FrameStats {
                vertex_bytes: v,
                element_bytes: e,
                command_bytes: c,
                fb_width: fw,
                fb_height: fh,
                scale_permille,
            },
        )
    }
}

} // verus!

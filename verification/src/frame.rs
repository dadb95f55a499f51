//! The frame loop: poll input, declare the UI, convert and render it,
//! present, clear, sleep, repeat — until a close event arrives.  The
//! loop's decisions live here as verified phase steps over plain
//! values; the platform layer performs the window, GPU and timer work
//! between the steps.

use vstd::prelude::*;

use crate::atlas::AtlasError;
use crate::atlas::FontAtlas;
use crate::atlas::FontAtlasFormat;
use crate::config::ConvertConfig;
use crate::config::DrawNullTexture;
use crate::config::convert_config_setup;
use crate::config::font_config_setup;
use crate::config::valid_glyph_range;
use crate::context::Context;
use crate::context::custom_simple_stuff;
use crate::context::is_basic_panel;
use crate::drawer::BufferModel;
use crate::drawer::DrawError;
use crate::drawer::Drawer;
use crate::drawer::FrameStats;
use crate::drawer::MAX_COMMANDS_MEMORY;
use crate::drawer::MAX_ELEMENT_MEMORY;
use crate::drawer::MAX_VERTEX_MEMORY;
use crate::drawer::apply_frame;
use crate::drawer::cost_fits;
use crate::drawer::frame_cost;

verus! {

/// Milliseconds the loop sleeps after clearing, before the next
/// input poll.  The fixed sleep crudely caps the frame rate.
pub const FRAME_SLEEP_MS: u64 = 20;

/// Where the loop stands within one frame.  `Closed` is terminal.
#[derive(Clone, Copy, Debug, PartialEq, Eq, Structural)]
pub enum Phase {
    InputPhase,
    BuildPhase,
    RenderPhase,
    PresentPhase,
    ClearPhase,
    Closed,
}

/// A platform event drained during the input phase.
#[derive(Clone, Copy, Debug, PartialEq, Eq, Structural)]
pub enum WindowEvent {
    /// The user asked to close the window.
    CloseRequested,
    /// Any other platform event; the demo ignores it.
    Other,
}

/// Whether a drained event batch contains a close request.
pub open spec fn contains_close(evs: Seq<WindowEvent>) -> bool {
    exists|i: int| 0 <= i < evs.len() && evs[i] is CloseRequested
}

/// The loop's phase transition: a close request observed during the
/// input phase ends the loop; otherwise the phases cycle.
pub open spec fn next_phase(p: Phase, saw_close: bool) -> Phase {
    match p {
        Phase::InputPhase => if saw_close {
            Phase::Closed
        } else {
            Phase::BuildPhase
        },
        Phase::BuildPhase => Phase::RenderPhase,
        Phase::RenderPhase => Phase::PresentPhase,
        Phase::PresentPhase => Phase::ClearPhase,
        Phase::ClearPhase => Phase::InputPhase,
        Phase::Closed => Phase::Closed,
    }
}

/// A close event observed during the input phase moves the loop to its
/// terminal state within that same iteration: the phase that follows
/// is `Closed`, never the render or present phase.
pub proof fn close_during_input_skips_render(evs: Seq<WindowEvent>)
    requires
        contains_close(evs),
    ensures
        next_phase(Phase::InputPhase, contains_close(evs)) is Closed,
        !(next_phase(Phase::InputPhase, contains_close(evs)) is RenderPhase),
        !(next_phase(Phase::InputPhase, contains_close(evs)) is PresentPhase),
{
}

/// Once the loop is closed it stays closed, whatever else happens.
pub proof fn closed_is_terminal(saw_close: bool)
    ensures
        next_phase(Phase::Closed, saw_close) is Closed,
{
}

/// With no close event, one whole iteration walks the five phases and
/// returns the loop to the input phase.
pub proof fn quiet_frame_returns_to_input()
    ensures
        next_phase(
            next_phase(
                next_phase(next_phase(next_phase(Phase::InputPhase, false), false), false),
                false,
            ),
            false,
        ) is InputPhase,
{
}

/// Background color the target is cleared to each frame, in permille
/// per channel.
#[derive(Clone, Copy, Debug, PartialEq, Eq, Structural)]
pub struct ClearColor {
    pub r: u16,
    pub g: u16,
    pub b: u16,
    pub a: u16,
}

/// The demo's fixed background: a dark blue, fully opaque.
pub fn background_color() -> (c: ClearColor)
    ensures
        c == (ClearColor { r: 100, g: 200, b: 300, a: 1000 }),
{
    ClearColor { r: 100, g: 200, b: 300, a: 1000 }
}

/// Scans a drained event batch for a close request.
fn poll_saw_close(events: &Vec<WindowEvent>) -> (b: bool)
    ensures
        b == contains_close(events@),
{
    let n = events.len();
    let mut i: usize = 0;
    while i < n
        invariant
            0 <= i <= n,
            n == events@.len(),
            forall|j: int| 0 <= j < i ==> !(events@[j] is CloseRequested),
        decreases n - i,
    {
        match events[i] {
            WindowEvent::CloseRequested => {
                proof {
                    assert(events@[i as int] is CloseRequested);
                }
                return true;
            },
            WindowEvent::Other => {},
        }
        i = i + 1;
    }
    false
}

/// Why startup failed.
#[derive(Clone, Copy, Debug, PartialEq, Eq, Structural)]
pub enum SetupError {
    /// The font could not be registered with the atlas.
    FontRejected(AtlasError),
}

/// The whole application state the frame loop drives: the phase, the
/// UI context, the drawer, the finalized atlas and the conversion
/// configuration.
#[derive(Debug)]
pub struct App {
    /// Where the loop stands.
    pub phase: Phase,
    /// The UI context.
    pub ctx: Context,
    /// The renderer-facing drawer.
    pub drawer: Drawer,
    /// The baked, finalized font atlas.
    pub atlas: FontAtlas,
    /// The draw-conversion configuration.
    pub convert: ConvertConfig,
}

impl App {
    /// Well-formedness between phase steps: each part is well-formed,
    /// no input collection or panel is left open, the atlas is
    /// finalized, and the null-texture sentinel is usable.
    pub open spec fn wf(&self) -> bool {
        &&& self.ctx.wf()
        &&& self.ctx.input is Idle
        &&& !self.ctx.in_panel
        &&& self.drawer.wf()
        &&& self.atlas.wf()
        &&& self.atlas.state is Finalized
        &&& self.convert.null.texture.is_valid()
    }

    /// Whether the loop has reached its terminal state.
    pub fn is_closed(&self) -> (b: bool)
        ensures
            b == (self.phase is Closed),
    {
        match self.phase {
            Phase::Closed => true,
            _ => false,
        }
    }

    /// Input phase: opens input collection, routes the drained events,
    /// and closes collection.  A close request among the events ends
    /// the loop; otherwise the build phase follows.  The accumulated
    /// commands and the buffers are untouched.
    pub fn input_phase(&mut self, events: &Vec<WindowEvent>)
        requires
            old(self).wf(),
            old(self).phase is InputPhase,
        ensures
            final(self).wf(),
            final(self).phase == next_phase(old(self).phase, contains_close(events@)),
            final(self).phase is Closed <==> contains_close(events@),
            final(self).ctx.commands@ == old(self).ctx.commands@,
            final(self).ctx.font == old(self).ctx.font,
            final(self).drawer == old(self).drawer,
            final(self).atlas == old(self).atlas,
            final(self).convert == old(self).convert,
    {
        self.ctx.input_begin();
        let saw_close = poll_saw_close(events);
        self.ctx.input_end();
        self.phase = if saw_close {
            Phase::Closed
        } else {
            Phase::BuildPhase
        };
    }

    /// Build phase: replays the demo's declarative UI, appending the
    /// fixed panel's commands to the context.
    pub fn build_phase(&mut self)
        requires
            old(self).wf(),
            old(self).phase is BuildPhase,
        ensures
            final(self).wf(),
            final(self).phase is RenderPhase,
            final(self).ctx.commands@.len() == old(self).ctx.commands@.len() + 4,
            final(self).ctx.commands@.subrange(0, old(self).ctx.commands@.len() as int) == old(
                self,
            ).ctx.commands@,
            is_basic_panel(final(self).ctx.commands@.skip(old(self).ctx.commands@.len() as int)),
            final(self).drawer == old(self).drawer,
            final(self).atlas == old(self).atlas,
            final(self).convert == old(self).convert,
    {
        custom_simple_stuff(&mut self.ctx);
        self.phase = Phase::RenderPhase;
    }

    /// Render phase: converts the frame's accumulated commands into
    /// the fixed-budget buffers for the given framebuffer size and
    /// DPI scale.  Succeeds exactly when the frame fits the budgets,
    /// and the present phase follows; a frame that does not fit is
    /// fatal and ends the loop.  The budgets themselves never change.
    pub fn render_phase(&mut self, fw: u32, fh: u32, scale_permille: u32) -> (r: Result<
        FrameStats,
        DrawError,
    >)
        requires
            old(self).wf(),
            old(self).phase is RenderPhase,
        ensures
            final(self).wf(),
            r is Ok <==> cost_fits(old(self).drawer.model(), frame_cost(old(self).ctx.commands@)),
            final(self).phase is PresentPhase <==> r is Ok,
            r is Err ==> final(self).phase is Closed,
            final(self).drawer.model() == apply_frame(
                old(self).drawer.model(),
                frame_cost(old(self).ctx.commands@),
            ),
            r matches Ok(s) ==> s.vertex_bytes == frame_cost(old(self).ctx.commands@).vertex_bytes
                && s.element_bytes == frame_cost(old(self).ctx.commands@).element_bytes
                && s.command_bytes == frame_cost(old(self).ctx.commands@).command_bytes
                && s.fb_width == fw && s.fb_height == fh && s.scale_permille == scale_permille,
            final(self).ctx.commands@ == old(self).ctx.commands@,
            final(self).atlas == old(self).atlas,
            final(self).convert == old(self).convert,
    {
        let r = self.drawer.draw(&self.ctx, &self.convert, fw, fh, scale_permille);
        self.phase = match r {
            Ok(_) => Phase::PresentPhase,
            Err(_) => Phase::Closed,
        };
        r
    }

    /// Present phase: the platform layer flushes the encoder, swaps
    /// the window's buffers and releases transient resources; the
    /// loop state only advances to the clear phase.
    pub fn present_phase(&mut self)
        requires
            old(self).wf(),
            old(self).phase is PresentPhase,
        ensures
            final(self).wf(),
            final(self).phase is ClearPhase,
            final(self).ctx.commands@ == old(self).ctx.commands@,
            final(self).drawer == old(self).drawer,
            final(self).atlas == old(self).atlas,
            final(self).convert == old(self).convert,
    {
        self.phase = Phase::ClearPhase;
    }

    /// Clear phase: resets the UI context — afterwards the accumulated
    /// command count is zero, every frame — and returns how long the
    /// platform layer must sleep before the next input poll: never
    /// less than the fixed frame interval.
    pub fn clear_phase(&mut self) -> (sleep_ms: u64)
        requires
            old(self).wf(),
            old(self).phase is ClearPhase,
        ensures
            final(self).wf(),
            final(self).phase is InputPhase,
            final(self).ctx.commands@.len() == 0,
            final(self).ctx.font == old(self).ctx.font,
            sleep_ms == FRAME_SLEEP_MS,
            sleep_ms >= 20,
            final(self).drawer == old(self).drawer,
            final(self).atlas == old(self).atlas,
            final(self).convert == old(self).convert,
    {
        self.ctx.clear();
        self.phase = Phase::InputPhase;
        FRAME_SLEEP_MS
    }
}

/// Builds the whole application state: the font configuration with the
/// given font file bytes, the atlas with one font at size 14, the
/// baked RGBA atlas texture, the drawer with the demo's byte budgets,
/// and the conversion configuration around the null-texture sentinel.
/// Succeeds exactly when the font file is not empty; registration of
/// an empty font file is the one way startup fails.
pub fn startup(ttf: Vec<u8>) -> (r: Result<App, SetupError>)
    ensures
        r is Ok <==> ttf@.len() >= 1,
        r matches Ok(app) ==> {
            &&& app.wf()
            &&& app.phase is InputPhase
            &&& app.ctx.commands@.len() == 0
            &&& app.ctx.font.index == 0
            &&& app.ctx.font.height == 14
            &&& app.drawer.model() == (BufferModel {
                vertex_capacity: MAX_VERTEX_MEMORY as int,
                element_capacity: MAX_ELEMENT_MEMORY as int,
                command_capacity: MAX_COMMANDS_MEMORY as int,
                vertex_used: 0,
                element_used: 0,
                command_used: 0,
            })
            &&& app.atlas.state is Finalized
            &&& app.atlas.fonts@.len() == 1
            &&& app.atlas.fonts@[0].size == 14
            &&& app.atlas.fonts@[0].oversample_h == 3
            &&& app.atlas.fonts@[0].oversample_v == 2
            &&& app.convert.null.texture.is_valid()
            &&& app.convert.circle_segment_count == 22
            &&& app.convert.curve_segment_count == 22
            &&& app.convert.arc_segment_count == 22
            &&& app.convert.global_alpha_permille == 1000
            &&& app.convert.shape_aa is On
            &&& app.convert.line_aa is On
        },
        r matches Err(SetupError::FontRejected(AtlasError::InvalidConfig)) <==> ttf@.len() == 0,
{
    let mut cfg = font_config_setup(ttf);
    let mut atlas = FontAtlas::new();
    proof {
        assert(valid_glyph_range(cfg.glyph_ranges@[0]));
        assert(valid_glyph_range(cfg.glyph_ranges@[1]));
        assert(valid_glyph_range(cfg.glyph_ranges@[2]));
        assert(valid_glyph_range(cfg.glyph_ranges@[3]));
    }
    let font_14 = match crate::atlas::set_font(&mut cfg, &mut atlas, 14, false) {
        Ok(i) => i,
        Err(e) => {
            return Err(SetupError::FontRejected(e));
        },
    };
    let font = match atlas.font_handle(font_14) {
        Some(h) => h,
        None => {
            proof {
                assert(false);
            }
            return Err(SetupError::FontRejected(AtlasError::InvalidConfig));
        },
    };
    let ctx = Context::new(font);
    let mut drawer = Drawer::new(MAX_VERTEX_MEMORY, MAX_ELEMENT_MEMORY, MAX_COMMANDS_MEMORY);
    let baked = atlas.bake(FontAtlasFormat::Rgba32);
    let (bitmap, width, height) = baked;
    let font_tex = drawer.add_texture(&bitmap, width, height);
    let mut null = DrawNullTexture::default();
    atlas.end(font_tex, &mut null);
    let convert = convert_config_setup(&null);
    Ok(App { phase: Phase::InputPhase, ctx, drawer, atlas, convert })
}

} // verus!

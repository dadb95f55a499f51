//! The immediate-mode UI context: it collects input for the frame,
//! accumulates the draw commands the widget declarations emit, and is
//! cleared at the end of every frame.  No widget state survives a
//! clear; the declarations are replayed each frame.

use vstd::prelude::*;

use crate::atlas::FontHandle;

verus! {

/// Horizontal alignment of a text label inside its column.
#[derive(Clone, Copy, Debug, PartialEq, Eq, Structural)]
pub enum TextAlignment {
    Left,
    Centered,
    Right,
}

/// Flags of a window panel.
#[derive(Clone, Copy, Debug, PartialEq, Eq, Structural)]
pub struct PanelFlags {
    /// Draw a border around the panel.
    pub border: bool,
    /// The panel can be dragged.
    pub movable: bool,
    /// The panel has a title bar.
    pub title: bool,
}

/// Position and size of a panel, in whole pixels.
#[derive(Clone, Copy, Debug, PartialEq, Eq, Structural)]
pub struct Rect {
    pub x: u32,
    pub y: u32,
    pub w: u32,
    pub h: u32,
}

/// One accumulated draw command.  A text label records the column the
/// layout placed it in, so the emitted command list fully describes
/// the frame's layout.
#[derive(Debug)]
pub enum UiCommand {
    /// Opens a panel.
    PanelBegin { title: String, rect: Rect, flags: PanelFlags },
    /// Starts a row of `cols` equal-width columns of the given height.
    LayoutRowDynamic { height: u32, cols: u32 },
    /// A text label, placed in column `column` of a row of `cols`.
    Text { content: String, align: TextAlignment, column: u32, cols: u32 },
    /// Closes the open panel.
    PanelEnd,
}

/// Whether the context is between `input_begin` and `input_end`.
#[derive(Clone, Copy, Debug, PartialEq, Eq, Structural)]
pub enum InputState {
    Idle,
    Collecting,
}

/// The UI context.
#[derive(Debug)]
pub struct Context {
    /// Font the widgets are styled with.
    pub font: FontHandle,
    /// Input collection state.
    pub input: InputState,
    /// Draw commands accumulated this frame.
    pub commands: Vec<UiCommand>,
    /// Whether a panel is open.
    pub in_panel: bool,
    /// Columns of the current row; 0 while no row is declared.
    pub row_cols: u32,
    /// Column the next widget goes into.
    pub row_slot: u32,
}

/// The parts of the context that a call leaves untouched: everything
/// except the input collection state.
pub open spec fn same_ui(a: Context, b: Context) -> bool {
    &&& a.font == b.font
    &&& a.commands@ == b.commands@
    &&& a.in_panel == b.in_panel
    &&& a.row_cols == b.row_cols
    &&& a.row_slot == b.row_slot
}

impl Context {
    /// Well-formedness: a row exists only inside a panel, and the next
    /// slot stays within the row's columns.
    pub open spec fn wf(&self) -> bool {
        &&& !self.in_panel ==> self.row_cols == 0
        &&& self.row_cols > 0 ==> self.row_slot < self.row_cols
        &&& self.row_cols == 0 ==> self.row_slot == 0
    }

    /// A fresh context styled with the given font: no commands, no
    /// open panel, not collecting input.
    pub fn new(font: FontHandle) -> (r: Context)
        ensures
            r.wf(),
            r.font == font,
            r.input is Idle,
            r.commands@.len() == 0,
            !r.in_panel,
    {
        Context {
            font,
            input: InputState::Idle,
            commands: Vec::new(),
            in_panel: false,
            row_cols: 0,
            row_slot: 0,
        }
    }

    /// Opens input collection for the frame.
    pub fn input_begin(&mut self)
        requires
            old(self).wf(),
            old(self).input is Idle,
        ensures
            final(self).wf(),
            final(self).input is Collecting,
            same_ui(*old(self), *final(self)),
    {
        self.input = InputState::Collecting;
    }

    /// Closes input collection for the frame.
    pub fn input_end(&mut self)
        requires
            old(self).wf(),
            old(self).input is Collecting,
        ensures
            final(self).wf(),
            final(self).input is Idle,
            same_ui(*old(self), *final(self)),
    {
        self.input = InputState::Idle;
    }

    /// Opens a panel with the given title, placement and flags.
    pub fn begin(&mut self, title: String, rect: Rect, flags: PanelFlags)
        requires
            old(self).wf(),
            old(self).input is Idle,
            !old(self).in_panel,
        ensures
            final(self).wf(),
            final(self).input is Idle,
            final(self).font == old(self).font,
            final(self).in_panel,
            final(self).row_cols == 0,
            final(self).commands@ == old(self).commands@.push(
                UiCommand::PanelBegin { title, rect, flags },
            ),
    {
        self.commands.push(UiCommand::PanelBegin { title, rect, flags });
        self.in_panel = true;
        self.row_cols = 0;
        self.row_slot = 0;
    }

    /// Starts a row of `cols` equal-width columns of the given height.
    /// Widgets declared afterwards fill the columns left to right.
    pub fn layout_row_dynamic(&mut self, height: u32, cols: u32)
        requires
            old(self).wf(),
            old(self).in_panel,
            cols >= 1,
        ensures
            final(self).wf(),
            final(self).input == old(self).input,
            final(self).font == old(self).font,
            final(self).in_panel,
            final(self).row_cols == cols,
            final(self).row_slot == 0,
            final(self).commands@ == old(self).commands@.push(
                UiCommand::LayoutRowDynamic { height, cols },
            ),
    {
        self.commands.push(UiCommand::LayoutRowDynamic { height, cols });
        self.row_cols = cols;
        self.row_slot = 0;
    }

    /// Emits a text label into the next column of the current row.
    pub fn text(&mut self, content: String, align: TextAlignment)
        requires
            old(self).wf(),
            old(self).in_panel,
            old(self).row_cols >= 1,
        ensures
            final(self).wf(),
            final(self).input == old(self).input,
            final(self).font == old(self).font,
            final(self).in_panel,
            final(self).row_cols == old(self).row_cols,
            final(self).row_slot == (old(self).row_slot + 1) % (old(self).row_cols as int),
            final(self).commands@ == old(self).commands@.push(
                UiCommand::Text {
                    content,
                    align,
                    column: old(self).row_slot,
                    cols: old(self).row_cols,
                },
            ),
    {
        let column = self.row_slot;
        let cols = self.row_cols;
        self.commands.push(UiCommand::Text { content, align, column, cols });
        self.row_slot = (column + 1) % cols;
    }

    /// Closes the open panel.
    pub fn end(&mut self)
        requires
            old(self).wf(),
            old(self).in_panel,
        ensures
            final(self).wf(),
            final(self).input == old(self).input,
            final(self).font == old(self).font,
            !final(self).in_panel,
            final(self).row_cols == 0,
            final(self).commands@ == old(self).commands@.push(UiCommand::PanelEnd),
    {
        self.commands.push(UiCommand::PanelEnd);
        self.in_panel = false;
        self.row_cols = 0;
        self.row_slot = 0;
    }

    /// Resets the context, discarding the frame's command list.  The
    /// reset is total: afterwards the context holds no commands, no
    /// open panel and no pending input, whatever state it was in.
    pub fn clear(&mut self)
        ensures
            final(self).wf(),
            final(self).font == old(self).font,
            final(self).input is Idle,
            final(self).commands@.len() == 0,
            !final(self).in_panel,
    {
        self.commands = Vec::new();
        self.input = InputState::Idle;
        self.in_panel = false;
        self.row_cols = 0;
        self.row_slot = 0;
    }

    /// Number of draw commands accumulated so far this frame.
    pub fn command_count(&self) -> (n: usize)
        ensures
            n == self.commands@.len(),
    {
        self.commands.len()
    }
}

/// The command list the demo's fixed panel declaration emits: one
/// bordered, movable, titled panel at (320, 50) sized 275 x 610, one
/// two-column row of height 30, and one right-aligned label in the
/// first column.
pub open spec fn is_basic_panel(cmds: Seq<UiCommand>) -> bool {
    &&& cmds.len() == 4
    &&& (cmds[0] matches UiCommand::PanelBegin { title, rect, flags } && title@
        == "Basic Nuklear Rust!"@ && rect == (Rect { x: 320, y: 50, w: 275, h: 610 }) && flags == (
    PanelFlags { border: true, movable: true, title: true }))
    &&& (cmds[1] matches UiCommand::LayoutRowDynamic { height, cols } && height == 30 && cols == 2)
    &&& (cmds[2] matches UiCommand::Text { content, align, column, cols } && content@
        == "Free type:"@ && align is Right && column == 0 && cols == 2)
    &&& cmds[3] is PanelEnd
}

/// Declares the demo's fixed panel: appends exactly the basic panel
/// command list to the context.
pub fn custom_simple_stuff(ctx: &mut Context)
    requires
        old(ctx).wf(),
        old(ctx).input is Idle,
        !old(ctx).in_panel,
    ensures
        final(ctx).wf(),
        final(ctx).input is Idle,
        final(ctx).font == old(ctx).font,
        !final(ctx).in_panel,
        final(ctx).commands@.len() == old(ctx).commands@.len() + 4,
        final(ctx).commands@.subrange(0, old(ctx).commands@.len() as int) == old(ctx).commands@,
        is_basic_panel(final(ctx).commands@.skip(old(ctx).commands@.len() as int)),
{
    let ghost base = ctx.commands@;
    ctx.begin(
        "Basic Nuklear Rust!".to_owned(),
        Rect { x: 320, y: 50, w: 275, h: 610 },
        PanelFlags { border: true, movable: true, title: true },
    );
    ctx.layout_row_dynamic(30, 2);
    ctx.text("Free type:".to_owned(), TextAlignment::Right);
    ctx.end();
    proof {
        assert(ctx.commands@.subrange(0, base.len() as int) =~= base);
        assert(ctx.commands@.skip(base.len() as int) =~= seq![
            ctx.commands@[base.len() as int],
            ctx.commands@[base.len() as int + 1],
            ctx.commands@[base.len() as int + 2],
            ctx.commands@[base.len() as int + 3],
        ]);
    }
}

/// The fixed panel declaration places exactly one text label, in the
/// first of two equal-width columns, right-aligned.
pub proof fn basic_panel_places_one_label(cmds: Seq<UiCommand>)
    requires
        is_basic_panel(cmds),
    ensures
        text_labels(cmds).len() == 1,
        text_labels(cmds)[0] matches UiCommand::Text { align, column, cols, .. } && align is Right
            && column == 0 && cols == 2,
{
    reveal_with_fuel(Seq::filter, 5);
    assert(cmds =~= seq![cmds[0], cmds[1], cmds[2], cmds[3]]);
    assert(cmds.drop_last() =~= seq![cmds[0], cmds[1], cmds[2]]);
    assert(cmds.drop_last().drop_last() =~= seq![cmds[0], cmds[1]]);
    assert(cmds.drop_last().drop_last().drop_last() =~= seq![cmds[0]]);
    assert(cmds.drop_last().drop_last().drop_last().drop_last() =~= Seq::<UiCommand>::empty());
}

/// The text labels among a command list, in order.
pub open spec fn text_labels(cmds: Seq<UiCommand>) -> Seq<UiCommand> {
    cmds.filter(|c: UiCommand| c is Text)
}

} // verus!

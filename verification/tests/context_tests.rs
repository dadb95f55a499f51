use nuklear_demo::atlas::FontHandle;
use nuklear_demo::context::Context;
use nuklear_demo::context::InputState;
use nuklear_demo::context::PanelFlags;
use nuklear_demo::context::Rect;
use nuklear_demo::context::TextAlignment;
use nuklear_demo::context::UiCommand;
use nuklear_demo::context::custom_simple_stuff;

fn fresh_context() -> Context {
    Context::new(FontHandle { index: 0, height: 14 })
}

#[test]
fn new_context_is_empty_and_idle() {
    let ctx = fresh_context();
    assert_eq!(ctx.command_count(), 0);
    assert_eq!(ctx.input, InputState::Idle);
    assert!(!ctx.in_panel);
}

#[test]
fn input_cycle_leaves_commands_untouched() {
    let mut ctx = fresh_context();
    ctx.input_begin();
    assert_eq!(ctx.input, InputState::Collecting);
    ctx.input_end();
    assert_eq!(ctx.input, InputState::Idle);
    assert_eq!(ctx.command_count(), 0);
}

#[test]
fn basic_panel_emits_four_commands() {
    let mut ctx = fresh_context();
    custom_simple_stuff(&mut ctx);
    assert_eq!(ctx.command_count(), 4);
    match &ctx.commands[0] {
        UiCommand::PanelBegin { title, rect, flags } => {
            assert_eq!(title, "Basic Nuklear Rust!");
            assert_eq!(*rect, Rect { x: 320, y: 50, w: 275, h: 610 });
            assert_eq!(*flags, PanelFlags { border: true, movable: true, title: true });
        }
        other => panic!("expected PanelBegin, got {:?}", other),
    }
    match &ctx.commands[1] {
        UiCommand::LayoutRowDynamic { height, cols } => {
            assert_eq!(*height, 30);
            assert_eq!(*cols, 2);
        }
        other => panic!("expected LayoutRowDynamic, got {:?}", other),
    }
    match &ctx.commands[3] {
        UiCommand::PanelEnd => {}
        other => panic!("expected PanelEnd, got {:?}", other),
    }
}

// The fixed panel places exactly one text label, in the first of two
// equal-width columns, right-aligned.
#[test]
fn basic_panel_places_one_right_aligned_label_in_first_column() {
    let mut ctx = fresh_context();
    custom_simple_stuff(&mut ctx);
    let labels: Vec<&UiCommand> = ctx
        .commands
        .iter()
        .filter(|c| matches!(c, UiCommand::Text { .. }))
        .collect();
    assert_eq!(labels.len(), 1);
    match labels[0] {
        UiCommand::Text { content, align, column, cols } => {
            assert_eq!(content, "Free type:");
            assert_eq!(*align, TextAlignment::Right);
            assert_eq!(*column, 0);
            assert_eq!(*cols, 2);
        }
        other => panic!("expected Text, got {:?}", other),
    }
}

#[test]
fn labels_fill_columns_left_to_right_and_wrap() {
    let mut ctx = fresh_context();
    ctx.begin(
        "P".to_owned(),
        Rect { x: 0, y: 0, w: 100, h: 100 },
        PanelFlags { border: false, movable: false, title: false },
    );
    ctx.layout_row_dynamic(30, 2);
    ctx.text("a".to_owned(), TextAlignment::Left);
    ctx.text("b".to_owned(), TextAlignment::Left);
    ctx.text("c".to_owned(), TextAlignment::Left);
    ctx.end();
    let placements: Vec<(u32, u32)> = ctx
        .commands
        .iter()
        .filter_map(|c| match c {
            UiCommand::Text { column, cols, .. } => Some((*column, *cols)),
            _ => None,
        })
        .collect();
    assert_eq!(placements, vec![(0, 2), (1, 2), (0, 2)]);
}

// Clearing the context always leaves zero accumulated commands.
#[test]
fn clear_resets_command_count_to_zero() {
    let mut ctx = fresh_context();
    custom_simple_stuff(&mut ctx);
    assert_eq!(ctx.command_count(), 4);
    ctx.clear();
    assert_eq!(ctx.command_count(), 0);
    assert_eq!(ctx.input, InputState::Idle);
    assert!(!ctx.in_panel);
    // Clearing twice changes nothing further.
    ctx.clear();
    assert_eq!(ctx.command_count(), 0);
}

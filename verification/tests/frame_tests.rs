use nuklear_demo::atlas::AtlasError;
use nuklear_demo::atlas::AtlasState;
use nuklear_demo::frame::FRAME_SLEEP_MS;
use nuklear_demo::frame::Phase;
use nuklear_demo::frame::SetupError;
use nuklear_demo::frame::WindowEvent;
use nuklear_demo::frame::background_color;
use nuklear_demo::frame::startup;

fn booted() -> nuklear_demo::frame::App {
    startup(vec![3u8; 32]).unwrap()
}

#[test]
fn startup_builds_the_whole_demo_state() {
    let app = booted();
    assert_eq!(app.phase, Phase::InputPhase);
    assert_eq!(app.ctx.command_count(), 0);
    assert_eq!(app.ctx.font.index, 0);
    assert_eq!(app.ctx.font.height, 14);
    assert_eq!(app.drawer.vertex_capacity, 512 * 1024);
    assert_eq!(app.drawer.element_capacity, 128 * 1024);
    assert_eq!(app.drawer.command_capacity, 64 * 1024);
    assert_eq!(app.atlas.state, AtlasState::Finalized);
    assert_eq!(app.atlas.fonts.len(), 1);
    assert!(app.convert.null.texture.id >= 1);
}

#[test]
fn startup_rejects_an_empty_font_file() {
    let r = startup(Vec::new());
    assert!(matches!(r, Err(SetupError::FontRejected(AtlasError::InvalidConfig))));
}

#[test]
fn background_is_the_fixed_dark_blue() {
    let c = background_color();
    assert_eq!((c.r, c.g, c.b, c.a), (100, 200, 300, 1000));
}

// A close request during the input phase ends the loop within that
// same iteration: the render and present phases never run.
#[test]
fn close_event_ends_the_loop_before_rendering() {
    let mut app = booted();
    let events = vec![WindowEvent::Other, WindowEvent::CloseRequested];
    app.input_phase(&events);
    assert_eq!(app.phase, Phase::Closed);
    assert!(app.is_closed());
    assert_eq!(app.ctx.command_count(), 0);
    assert_eq!((app.drawer.vertex_used, app.drawer.element_used, app.drawer.command_used), (0, 0, 0));
}

// Running the loop with no close event cycles the phases; after every
// clear phase the accumulated command count is zero, the sleep is at
// least 20 ms, and no buffer ever exceeds its budget.
#[test]
fn three_frames_without_close_keep_every_invariant() {
    let mut app = booted();
    let no_events: Vec<WindowEvent> = Vec::new();
    for _ in 0..3 {
        assert_eq!(app.phase, Phase::InputPhase);
        app.input_phase(&no_events);
        assert_eq!(app.phase, Phase::BuildPhase);
        app.build_phase();
        assert_eq!(app.phase, Phase::RenderPhase);
        assert_eq!(app.ctx.command_count(), 4);
        let stats = app.render_phase(1280, 800, 1000).unwrap();
        assert_eq!(app.phase, Phase::PresentPhase);
        assert!(stats.vertex_bytes <= app.drawer.vertex_capacity);
        assert!(stats.element_bytes <= app.drawer.element_capacity);
        assert!(stats.command_bytes <= app.drawer.command_capacity);
        app.present_phase();
        assert_eq!(app.phase, Phase::ClearPhase);
        let sleep_ms = app.clear_phase();
        assert!(sleep_ms >= 20);
        assert_eq!(sleep_ms, FRAME_SLEEP_MS);
        assert_eq!(app.ctx.command_count(), 0);
        // The budgets are never grown.
        assert_eq!(app.drawer.vertex_capacity, 512 * 1024);
        assert_eq!(app.drawer.element_capacity, 128 * 1024);
        assert_eq!(app.drawer.command_capacity, 64 * 1024);
        assert!(app.drawer.vertex_used <= app.drawer.vertex_capacity);
        assert!(app.drawer.element_used <= app.drawer.element_capacity);
        assert!(app.drawer.command_used <= app.drawer.command_capacity);
    }
    assert!(!app.is_closed());
}

// A frame whose geometry cannot fit the configured budgets is fatal:
// the loop closes instead of growing any buffer.
#[test]
fn overfull_frame_closes_the_loop_without_growing_buffers() {
    let mut app = booted();
    app.drawer = nuklear_demo::drawer::Drawer::new(100, 100, 100);
    let no_events: Vec<WindowEvent> = Vec::new();
    app.input_phase(&no_events);
    app.build_phase();
    let r = app.render_phase(1280, 800, 1000);
    assert!(r.is_err());
    assert_eq!(app.phase, Phase::Closed);
    assert_eq!(app.drawer.vertex_capacity, 100);
    assert_eq!(app.drawer.vertex_used, 0);
}

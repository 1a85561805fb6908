//! Behaviour of the render projection: command count, interpolated
//! positions, highlight scale and label placement.

use mlb_browser::Game;
use mlb_browser::ImageHandle;
use mlb_browser::MenuItem;
use mlb_browser::MlbApp;
use mlb_browser::SimpleDate;

fn mk_entry(id: u32) -> MenuItem {
    let game = Game {
        id,
        home_name: format!("H{}", id),
        away_name: format!("A{}", id),
        recap_label: format!("R{}", id),
        recap_image_ref: format!("http://img.example/{}.jpg", id),
    };
    MenuItem::new(game, 200_000, 112_500, ImageHandle { token: id as u64 }, 80_000, 50_000)
}

fn mk_state(n: u32) -> MlbApp {
    let mut items = Vec::new();
    let mut id = 1;
    while id <= n {
        items.push(mk_entry(id));
        id += 1;
    }
    MlbApp::new(items, SimpleDate { year: 2018, month: 6, day: 11 })
}

#[test]
fn render_empty_produces_no_commands() {
    let app = mk_state(0);
    let cmds = app.render(1366, 768);
    assert_eq!(cmds.len(), 0);
}

#[test]
fn render_one_command_per_entry() {
    let app = mk_state(3);
    let cmds = app.render(1366, 768);
    assert_eq!(cmds.len(), 3);
    for (i, cmd) in cmds.iter().enumerate() {
        assert_eq!(cmd.entry_index, i);
        assert_eq!(cmd.y_milli, 768 * 550);
    }
}

#[test]
fn render_initial_state_centres_first_entry() {
    // Settled on index 0: scroll offset 0, first card at the screen centre,
    // neighbours one pitch (1.3 card widths = 260 pixels) apart.
    let app = mk_state(3);
    let cmds = app.render(1366, 768);
    assert_eq!(cmds[0].x_milli, 683_000);
    assert_eq!(cmds[1].x_milli, 943_000);
    assert_eq!(cmds[2].x_milli, 1_203_000);
    assert!(cmds[0].highlighted);
    assert_eq!(cmds[0].scale_milli, 1500);
}

#[test]
fn render_settled_after_navigation() {
    // After one next-navigation and a full 100 ms tick the carousel has
    // scrolled one full pitch: the new selection sits at the centre.
    let mut app = mk_state(3);
    app.select_next();
    app.update(100);
    let cmds = app.render(1366, 768);
    assert_eq!(cmds[0].x_milli, 423_000);
    assert_eq!(cmds[1].x_milli, 683_000);
    assert_eq!(cmds[2].x_milli, 943_000);
    assert!(cmds[1].highlighted);
    assert!(!cmds[0].highlighted);
    assert_eq!(cmds[1].scale_milli, 1500);
}

#[test]
fn render_mid_transition_interpolates() {
    // Halfway through the transition (50 ms of 100) the scroll offset is
    // half an index: every card has moved half a pitch, and the highlighted
    // card has grown halfway to 1.5.
    let mut app = mk_state(3);
    app.select_next();
    app.update(50);
    let cmds = app.render(1366, 768);
    assert_eq!(cmds[0].x_milli, 553_000);
    assert_eq!(cmds[1].x_milli, 813_000);
    assert_eq!(cmds[1].scale_milli, 1250);
}

#[test]
fn render_fresh_navigation_keeps_position() {
    // At progress 0 the scroll offset still equals the previous index, so
    // nothing has moved yet, but the highlight has already switched.
    let mut app = mk_state(3);
    app.select_next();
    let cmds = app.render(1366, 768);
    assert_eq!(cmds[1].x_milli, 943_000);
    assert!(cmds[1].highlighted);
    assert_eq!(cmds[1].scale_milli, 1000);
    assert_eq!(cmds[0].scale_milli, 1000);
}

#[test]
fn render_only_highlight_scales_and_labels() {
    let mut app = mk_state(3);
    app.select_next();
    app.update(100);
    let cmds = app.render(1366, 768);
    assert_eq!(cmds[0].scale_milli, 1000);
    assert_eq!(cmds[2].scale_milli, 1000);
    assert!(cmds[0].labels.is_none());
    assert!(cmds[2].labels.is_none());
    assert!(cmds[1].labels.is_some());
}

#[test]
fn render_label_placement() {
    // Settled highlight at the centre of a 1366x768 viewport: labels are
    // centred with their pre-measured widths; the title sits half the scaled
    // card height plus half its font size above the centre, the caption half
    // the scaled card height plus its font size below.
    let mut app = mk_state(3);
    app.select_next();
    app.update(100);
    let cmds = app.render(1366, 768);
    let labels = cmds[1].labels.expect("highlighted card carries labels");
    assert_eq!(labels.title_x_milli, 683_000 - 40_000);
    assert_eq!(labels.caption_x_milli, 683_000 - 25_000);
    assert_eq!(labels.title_y_milli, 422_400 - 84_375 - 11_000);
    assert_eq!(labels.caption_y_milli, 422_400 + 84_375 + 15_000);
}

#[test]
fn render_command_carries_image_token() {
    let app = mk_state(2);
    let cmds = app.render(800, 600);
    assert_eq!(cmds.len(), 2);
    assert_eq!(app.items[cmds[1].entry_index].image.token, 2);
}

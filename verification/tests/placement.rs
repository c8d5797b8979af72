use promptforge::platform::Platform;
use promptforge::status_window::{cursor_pos, pill_position, work_area_around};
use promptforge::keys::{
    delivered_all, modifiers_settled, send_copy, send_paste, Direction, Key, KeyEvent,
};
use promptforge::tray::{tray_action, window_label_of, TrayAction, TrayWindow};

#[test]
fn pill_sits_at_cursor_offset_when_it_fits() {
    assert_eq!(pill_position(100, 100, (0, 0, 1920, 1080)), (118, 118));
}

#[test]
fn pill_is_pulled_back_from_far_edges() {
    assert_eq!(pill_position(1900, 1050, (0, 0, 1920, 1080)), (1696, 1006));
}

#[test]
fn pill_is_pushed_in_from_near_edges() {
    // A second monitor to the right: the cursor left of it lands on the near edge.
    assert_eq!(pill_position(1800, -500, (1920, 0, 3840, 1080)), (1924, 4));
}

#[test]
fn pill_stays_on_screen_for_many_cursors() {
    let area = (0, 0, 1920, 1080);
    for cx in (-300..2300).step_by(37) {
        for cy in (-300..1400).step_by(41) {
            let (x, y) = pill_position(cx, cy, area);
            assert!(x >= 0 && x + 220 <= 1920);
            assert!(y >= 0 && y + 70 <= 1080);
        }
    }
}

#[test]
fn cursor_and_work_area_fallbacks() {
    assert_eq!(cursor_pos(Platform::Windows, Some((5, 6))), (5, 6));
    assert_eq!(cursor_pos(Platform::Windows, None), (100, 100));
    assert_eq!(cursor_pos(Platform::MacOs, Some((5, 6))), (1200, 100));
    assert_eq!(cursor_pos(Platform::Linux, None), (1200, 100));
    assert_eq!(work_area_around(Platform::Windows, Some((1, 2, 3, 4))), (1, 2, 3, 4));
    assert_eq!(work_area_around(Platform::Windows, None), (0, 0, 1920, 1080));
    assert_eq!(work_area_around(Platform::Linux, Some((1, 2, 3, 4))), (0, 0, 1920, 1080));
}

fn chord(m: Key, l: Key) -> Vec<KeyEvent> {
    vec![
        KeyEvent { key: m, direction: Direction::Press },
        KeyEvent { key: l, direction: Direction::Press },
        KeyEvent { key: l, direction: Direction::Release },
        KeyEvent { key: m, direction: Direction::Release },
    ]
}

#[test]
fn copy_and_paste_chords_per_platform() {
    assert_eq!(send_copy(Platform::Windows), chord(Key::Control, Key::Letter('C')));
    assert_eq!(send_paste(Platform::Windows), chord(Key::Control, Key::Letter('V')));
    assert_eq!(send_copy(Platform::MacOs), chord(Key::Meta, Key::Letter('c')));
    assert_eq!(send_paste(Platform::MacOs), chord(Key::Meta, Key::Letter('v')));
    assert_eq!(send_copy(Platform::Linux), chord(Key::Control, Key::Letter('c')));
    assert_eq!(send_paste(Platform::Linux), chord(Key::Control, Key::Letter('v')));
}

#[test]
fn delivery_and_modifier_rules() {
    assert!(delivered_all(4, 4));
    assert!(!delivered_all(3, 4));
    assert!(modifiers_settled(false, 0));
    assert!(!modifiers_settled(true, 1499));
    assert!(modifiers_settled(true, 1500));
}

#[test]
fn tray_menu_entries() {
    assert_eq!(tray_action("projects"), TrayAction::Show(TrayWindow::Projects));
    assert_eq!(tray_action("settings"), TrayAction::Show(TrayWindow::Settings));
    assert_eq!(tray_action("quit"), TrayAction::Quit);
    assert_eq!(tray_action("about"), TrayAction::Ignore);
    assert_eq!(window_label_of(TrayWindow::Projects), "projects");
    assert_eq!(window_label_of(TrayWindow::Settings), "settings");
}

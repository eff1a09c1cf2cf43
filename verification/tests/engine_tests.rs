use is_boxer_like::command::Command;
use is_boxer_like::config::{BotAction, Config, Duration, LayoutOptions, Mode, Shortcut};
use is_boxer_like::engine::App;
use is_boxer_like::geometry::Rect;
use is_boxer_like::keys::{Key, VK_A, VK_F1, VK_LMENU, VK_LSHIFT, VK_SPACE};
use is_boxer_like::registry::TrackedWindow;

fn key(code: u8) -> Key {
    Key { code }
}

fn rect(left: i32, top: i32, width: i32, height: i32) -> Rect {
    Rect { left, top, width, height }
}

fn window(handle: usize, title: &str, r: Rect) -> TrackedWindow {
    TrackedWindow { handle, title: title.as_bytes().to_vec(), rect: r }
}

fn config(window_name: &str, keybind: Vec<Key>) -> Config {
    Config {
        window_name: window_name.as_bytes().to_vec(),
        layout: LayoutOptions::Always,
        mode: Mode::Mimic(Duration::Milliseconds(10)),
        remap_keybind: Vec::new(),
        skip_keybind: Vec::new(),
        keybind,
        shortcuts: Vec::new(),
        bot_action: Vec::new(),
    }
}

fn snapshot(down: &[u8]) -> Vec<bool> {
    let mut v = vec![false; 256];
    for code in down {
        v[*code as usize] = true;
    }
    v
}

fn two_notepads() -> App {
    let mut app = App::new(config("notepad", vec![key(VK_A)]));
    let entries = vec![
        window(1, "Notepad - first", rect(0, 0, 100, 100)),
        window(2, "NOTEPAD - second", rect(100, 0, 100, 100)),
    ];
    let updated = app.update_windows(&b"notepad".to_vec(), &entries);
    assert!(updated);
    app
}

#[test]
fn refresh_tracks_matches_and_picks_first_as_main() {
    let mut app = App::new(config("notepad", vec![key(VK_A)]));
    let entries = vec![
        window(10, "Calculator", rect(0, 0, 10, 10)),
        window(11, "My Notepad", rect(0, 0, 10, 10)),
        window(12, "notepad two", rect(0, 0, 10, 10)),
    ];
    assert!(app.update_windows(&b"notepad".to_vec(), &entries));
    assert_eq!(app.registry.windows.len(), 2);
    assert_eq!(app.registry.windows[0].handle, 11);
    assert_eq!(app.registry.windows[1].handle, 12);
    assert_eq!(app.registry.main, Some(11));
    assert!(app.has_hwnd(11));
    assert!(app.has_hwnd(12));
    assert!(!app.has_hwnd(10));
}

#[test]
fn refresh_with_no_match_keeps_the_previous_registry() {
    let mut app = two_notepads();
    let entries = vec![window(9, "Calculator", rect(0, 0, 10, 10))];
    assert!(!app.update_windows(&b"notepad".to_vec(), &entries));
    assert_eq!(app.registry.windows.len(), 2);
    assert_eq!(app.registry.main, Some(1));
}

#[test]
fn refresh_keeps_main_while_it_still_matches() {
    let mut app = two_notepads();
    app.registry.main = Some(2);
    let entries = vec![
        window(2, "NOTEPAD - second", rect(0, 0, 10, 10)),
        window(3, "notepad - third", rect(0, 0, 10, 10)),
    ];
    assert!(app.update_windows(&b"notepad".to_vec(), &entries));
    assert_eq!(app.registry.main, Some(2));
    // and when main vanishes, the first match takes over
    let entries = vec![window(4, "notepad - fourth", rect(0, 0, 10, 10))];
    assert!(app.update_windows(&b"notepad".to_vec(), &entries));
    assert_eq!(app.registry.main, Some(4));
}

#[test]
fn first_refresh_reports_no_match_for_the_host_to_abort() {
    let mut app = App::new(config("notepad", vec![key(VK_A)]));
    let entries = vec![window(9, "Calculator", rect(0, 0, 10, 10))];
    assert!(!app.update_windows(&b"notepad".to_vec(), &entries));
    assert_eq!(app.registry.windows.len(), 0);
}

// The scenario of a two-window mirror: pressing and releasing a bound key
// while the main window is focused delivers exactly one key-down and one
// key-up to the secondary window, and nothing to the main window.
#[test]
fn mirror_press_release_hits_only_the_secondary() {
    let mut app = two_notepads();
    // press A while window 1 (main) is focused
    let cmds = app.mimic(1, &snapshot(&[VK_A]));
    assert_eq!(
        cmds,
        vec![Command::PostKey { target: 2, code: key(VK_A), down: true, prev_down: false }]
    );
    // release A
    let cmds = app.mimic(1, &snapshot(&[]));
    assert_eq!(
        cmds,
        vec![Command::PostKey { target: 2, code: key(VK_A), down: false, prev_down: true }]
    );
    // nothing held any more: a further tick emits nothing
    let cmds = app.mimic(1, &snapshot(&[]));
    assert_eq!(cmds, Vec::new());
}

#[test]
fn mirror_held_key_repeats_with_the_previous_state_flag() {
    let mut app = two_notepads();
    let down = snapshot(&[VK_A]);
    let first = app.mimic(1, &down);
    assert_eq!(
        first,
        vec![Command::PostKey { target: 2, code: key(VK_A), down: true, prev_down: false }]
    );
    let second = app.mimic(1, &down);
    assert_eq!(
        second,
        vec![Command::PostKey { target: 2, code: key(VK_A), down: true, prev_down: true }]
    );
}

#[test]
fn mirror_does_nothing_while_focus_is_outside_the_registry() {
    let mut app = two_notepads();
    let cmds = app.mimic(99, &snapshot(&[VK_A]));
    assert_eq!(cmds, Vec::new());
    // the press was not recorded, so returning focus starts with a clean edge
    let cmds = app.mimic(1, &snapshot(&[VK_A]));
    assert_eq!(
        cmds,
        vec![Command::PostKey { target: 2, code: key(VK_A), down: true, prev_down: false }]
    );
}

// Pressing left Alt under the built-in tables yields Space events, never
// left-Alt events.
#[test]
fn default_remap_mirrors_left_alt_as_space() {
    let mut app = App::new(Config::default());
    let entries = vec![
        window(1, "World of Warcraft", rect(0, 0, 100, 100)),
        window(2, "World of Warcraft 2", rect(100, 0, 100, 100)),
    ];
    assert!(app.update_windows(&b"warcraft".to_vec(), &entries));
    let cmds = app.mimic(1, &snapshot(&[VK_LMENU]));
    assert_eq!(
        cmds,
        vec![Command::PostKey { target: 2, code: key(VK_SPACE), down: true, prev_down: false }]
    );
    let cmds = app.mimic(1, &snapshot(&[]));
    assert_eq!(
        cmds,
        vec![Command::PostKey { target: 2, code: key(VK_SPACE), down: false, prev_down: true }]
    );
}

// Losing focus freezes the press-state; the release edge still fires once
// focus returns, so no key stays stuck in a secondary window.
#[test]
fn mirror_recovers_a_release_missed_while_unfocused() {
    let mut app = two_notepads();
    let down = app.mimic(1, &snapshot(&[VK_A]));
    assert_eq!(down.len(), 1);
    // the key is released while an untracked window has the focus
    let cmds = app.mimic(99, &snapshot(&[]));
    assert_eq!(cmds, Vec::new());
    // focus returns: the stale entry produces the key-up now
    let cmds = app.mimic(1, &snapshot(&[]));
    assert_eq!(
        cmds,
        vec![Command::PostKey { target: 2, code: key(VK_A), down: false, prev_down: true }]
    );
}

fn three_windows() -> App {
    let mut app = App::new(config("pad", vec![key(VK_A)]));
    let entries = vec![
        window(1, "pad one", rect(0, 0, 800, 400)),
        window(2, "pad two", rect(0, 400, 400, 200)),
        window(3, "pad three", rect(400, 400, 400, 200)),
    ];
    assert!(app.update_windows(&b"pad".to_vec(), &entries));
    app
}

// The scenario of clicking into a tracked secondary window under the
// "Always" layout policy: it is promoted to main, the rectangles are
// exchanged, and the new main is brought to the foreground.
#[test]
fn promotion_swaps_rectangles_and_main() {
    let mut app = three_windows();
    let (changed, cmds) = app.swap_windows(3);
    assert!(changed);
    assert_eq!(
        cmds,
        vec![
            Command::MoveWindow { target: 1, rect: rect(400, 400, 400, 200) },
            Command::MoveWindow { target: 3, rect: rect(0, 0, 800, 400) },
            Command::SetForeground { target: 3 },
        ]
    );
    assert_eq!(app.registry.main, Some(3));
    assert_eq!(app.registry.windows[0].rect, rect(400, 400, 400, 200));
    assert_eq!(app.registry.windows[2].rect, rect(0, 0, 800, 400));
    // the uninvolved window is untouched
    assert_eq!(app.registry.windows[1].rect, rect(0, 400, 400, 200));
}

#[test]
fn promotion_ignores_main_and_untracked_windows() {
    let mut app = three_windows();
    let (changed, cmds) = app.swap_windows(1);
    assert!(!changed);
    assert!(cmds.is_empty());
    let (changed, cmds) = app.swap_windows(99);
    assert!(!changed);
    assert!(cmds.is_empty());
    assert_eq!(app.registry.main, Some(1));
}

#[test]
fn tiling_gives_main_the_top_region_and_secondaries_the_band() {
    let mut app = three_windows();
    let wa = rect(0, 0, 800, 600);
    let cmds = app.layout_windows(&wa);
    // band height 600/3 = 200, secondary width 800/2 = 400
    assert_eq!(
        cmds,
        vec![
            Command::MoveWindow { target: 1, rect: rect(0, 0, 800, 400) },
            Command::StripChrome { target: 2 },
            Command::MoveWindow { target: 2, rect: rect(0, 400, 400, 200) },
            Command::StripChrome { target: 3 },
            Command::MoveWindow { target: 3, rect: rect(400, 400, 400, 200) },
        ]
    );
    assert_eq!(app.registry.windows[0].rect, rect(0, 0, 800, 400));
    assert_eq!(app.registry.windows[1].rect, rect(0, 400, 400, 200));
    assert_eq!(app.registry.windows[2].rect, rect(400, 400, 400, 200));
}

// Tiling twice with the same inputs issues the same commands and moves
// nothing further.
#[test]
fn tiling_twice_is_idempotent() {
    let mut app = three_windows();
    let wa = rect(0, 0, 800, 600);
    let first = app.layout_windows(&wa);
    let rects_after_first: Vec<Rect> = app.registry.windows.iter().map(|w| w.rect).collect();
    let second = app.layout_windows(&wa);
    let rects_after_second: Vec<Rect> = app.registry.windows.iter().map(|w| w.rect).collect();
    assert_eq!(first, second);
    assert_eq!(rects_after_first, rects_after_second);
}

#[test]
fn tiling_needs_two_windows() {
    let mut app = App::new(config("pad", vec![key(VK_A)]));
    let entries = vec![window(1, "pad one", rect(5, 5, 50, 50))];
    assert!(app.update_windows(&b"pad".to_vec(), &entries));
    let cmds = app.layout_windows(&rect(0, 0, 800, 600));
    assert!(cmds.is_empty());
    assert_eq!(app.registry.windows[0].rect, rect(5, 5, 50, 50));
}

#[test]
fn foreground_flashes_every_window_topmost_in_order() {
    let app = three_windows();
    let cmds = app.foreground();
    assert_eq!(
        cmds,
        vec![
            Command::SetZOrder { target: 1, topmost: true },
            Command::SetZOrder { target: 1, topmost: false },
            Command::SetZOrder { target: 2, topmost: true },
            Command::SetZOrder { target: 2, topmost: false },
            Command::SetZOrder { target: 3, topmost: true },
            Command::SetZOrder { target: 3, topmost: false },
        ]
    );
}

#[test]
fn get_foreground_window_promotes_tracked_focus() {
    let mut app = three_windows();
    assert!(!app.get_foreground_window(1));
    assert_eq!(app.registry.main, Some(1));
    assert!(app.get_foreground_window(2));
    assert_eq!(app.registry.main, Some(2));
    // an untracked focus still reports a change but promotes nothing
    assert!(app.get_foreground_window(99));
    assert_eq!(app.registry.main, Some(2));
}

#[test]
fn send_key_and_mouse_broadcast_to_every_window() {
    let app = three_windows();
    let downs = app.send_key_down(key(VK_SPACE));
    assert_eq!(downs.len(), 3);
    assert_eq!(
        downs[0],
        Command::PostKey { target: 1, code: key(VK_SPACE), down: true, prev_down: false }
    );
    let ups = app.send_key_up(key(VK_SPACE));
    assert_eq!(
        ups[2],
        Command::PostKey { target: 3, code: key(VK_SPACE), down: false, prev_down: false }
    );
    let clicks = app.send_mouse(120, 80);
    assert_eq!(clicks.len(), 6);
    assert_eq!(clicks[0], Command::PostMouse { target: 1, x: 120, y: 80, down: true });
    assert_eq!(clicks[1], Command::PostMouse { target: 1, x: 120, y: 80, down: false });
    assert_eq!(clicks[4], Command::PostMouse { target: 3, x: 120, y: 80, down: true });
}

#[test]
fn shortcuts_fire_only_while_both_modifiers_are_held() {
    let mut app = three_windows();
    app.config.shortcuts = vec![(key(VK_F1), Shortcut::Mode(Mode::Bot))];
    // trigger key down, but only one modifier held: nothing fires
    let (restart, cmds) = app.global_shortcuts(1, &snapshot(&[VK_LSHIFT, VK_F1]), &rect(0, 0, 800, 600));
    assert!(!restart);
    assert!(cmds.is_empty());
    assert!(matches!(app.config.mode, Mode::Mimic(_)));
    // both modifiers held: the bound mode switch fires and asks for a restart
    let (restart, cmds) =
        app.global_shortcuts(1, &snapshot(&[VK_LSHIFT, VK_LMENU, VK_F1]), &rect(0, 0, 800, 600));
    assert!(restart);
    assert!(cmds.is_empty());
    assert!(matches!(app.config.mode, Mode::Bot));
    assert_eq!(app.bot.cursor, 0);
    assert_eq!(app.bot.deadline, None);
}

#[test]
fn layout_shortcut_promotes_the_focused_window_and_retiles() {
    let mut app = three_windows();
    app.config.shortcuts = vec![(key(VK_F1), Shortcut::Layout)];
    let (restart, cmds) =
        app.global_shortcuts(2, &snapshot(&[VK_LSHIFT, VK_LMENU, VK_F1]), &rect(0, 0, 800, 600));
    assert!(!restart);
    assert_eq!(app.registry.main, Some(2));
    // window 2 is now main: full width on top, windows 1 and 3 share the band
    assert_eq!(
        cmds,
        vec![
            Command::StripChrome { target: 1 },
            Command::MoveWindow { target: 1, rect: rect(0, 400, 400, 200) },
            Command::MoveWindow { target: 2, rect: rect(0, 0, 800, 400) },
            Command::StripChrome { target: 3 },
            Command::MoveWindow { target: 3, rect: rect(400, 400, 400, 200) },
        ]
    );
}

#[test]
fn foreground_shortcut_flashes_while_held() {
    let mut app = three_windows();
    app.config.shortcuts = vec![(key(VK_F1), Shortcut::Foreground)];
    let (restart, cmds) =
        app.global_shortcuts(1, &snapshot(&[VK_LSHIFT, VK_LMENU, VK_F1]), &rect(0, 0, 800, 600));
    assert!(!restart);
    assert_eq!(cmds.len(), 6);
    assert_eq!(cmds[0], Command::SetZOrder { target: 1, topmost: true });
    // with the trigger key up, nothing fires even though the modifiers are held
    let (_, cmds) =
        app.global_shortcuts(1, &snapshot(&[VK_LSHIFT, VK_LMENU]), &rect(0, 0, 800, 600));
    assert!(cmds.is_empty());
}

// The scripted-mode scenario: a sleep holds the cursor on its step until
// the deadline, then the keystroke fires (key-up before key-down, to every
// tracked window) and the cursor wraps back to the start.
#[test]
fn bot_sleep_then_keystroke_wraps_around() {
    let mut app = two_notepads();
    app.config.mode = Mode::Bot;
    app.config.bot_action =
        vec![BotAction::Sleep(Duration::Milliseconds(100)), BotAction::KeyStroke(key(VK_SPACE))];
    // tick 0 enters the sleep
    let cmds = app.bot_step(0);
    assert!(cmds.is_empty());
    assert_eq!(app.bot.cursor, 0);
    assert_eq!(app.bot.deadline, Some(100));
    // before the deadline nothing happens
    let cmds = app.bot_step(60);
    assert!(cmds.is_empty());
    assert_eq!(app.bot.cursor, 0);
    // the first tick past the deadline fires the keystroke and wraps
    let cmds = app.bot_step(100);
    assert_eq!(
        cmds,
        vec![
            Command::PostKey { target: 1, code: key(VK_SPACE), down: false, prev_down: false },
            Command::PostKey { target: 2, code: key(VK_SPACE), down: false, prev_down: false },
            Command::PostKey { target: 1, code: key(VK_SPACE), down: true, prev_down: false },
            Command::PostKey { target: 2, code: key(VK_SPACE), down: true, prev_down: false },
        ]
    );
    assert_eq!(app.bot.cursor, 0);
    assert_eq!(app.bot.deadline, None);
}

#[test]
fn bot_mouse_step_clicks_every_window_and_advances() {
    let mut app = two_notepads();
    app.config.mode = Mode::Bot;
    app.config.bot_action = vec![BotAction::MouseTo(30, 40), BotAction::Sleep(
        Duration::Milliseconds(5),
    )];
    let cmds = app.bot_step(0);
    assert_eq!(
        cmds,
        vec![
            Command::PostMouse { target: 1, x: 30, y: 40, down: true },
            Command::PostMouse { target: 1, x: 30, y: 40, down: false },
            Command::PostMouse { target: 2, x: 30, y: 40, down: true },
            Command::PostMouse { target: 2, x: 30, y: 40, down: false },
        ]
    );
    assert_eq!(app.bot.cursor, 1);
    // the next tick enters the sleep
    let cmds = app.bot_step(1);
    assert!(cmds.is_empty());
    assert_eq!(app.bot.deadline, Some(6));
}

#[test]
fn is_main_focus_tracks_the_designated_main() {
    let app = three_windows();
    assert!(app.is_main_focus(1));
    assert!(!app.is_main_focus(2));
    assert!(!app.is_main_focus(99));
}

#[test]
fn layout_shortcut_with_untracked_focus_keeps_main() {
    let mut app = three_windows();
    app.config.shortcuts = vec![(key(VK_F1), Shortcut::Layout)];
    let (restart, cmds) =
        app.global_shortcuts(99, &snapshot(&[VK_LSHIFT, VK_LMENU, VK_F1]), &rect(0, 0, 800, 600));
    assert!(!restart);
    assert_eq!(app.registry.main, Some(1));
    // it still re-tiles around the unchanged main window
    assert_eq!(cmds.len(), 5);
    assert_eq!(cmds[0], Command::MoveWindow { target: 1, rect: rect(0, 0, 800, 400) });
}

#[test]
fn shortcuts_fire_in_table_order() {
    let mut app = three_windows();
    app.config.shortcuts = vec![
        (key(VK_F1), Shortcut::Foreground),
        (key(0x71), Shortcut::Mode(Mode::Bot)),
    ];
    // both trigger keys held: the flash commands come first, then the
    // mode switch asks for a restart
    let (restart, cmds) = app.global_shortcuts(
        1,
        &snapshot(&[VK_LSHIFT, VK_LMENU, VK_F1, 0x71]),
        &rect(0, 0, 800, 600),
    );
    assert!(restart);
    assert_eq!(cmds.len(), 6);
    assert!(matches!(app.config.mode, Mode::Bot));
}

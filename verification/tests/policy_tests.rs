use is_boxer_like::command::{key_event_param, mouse_event_param, Command};
use is_boxer_like::config::{Config, Duration, LayoutOptions, Mode};
use is_boxer_like::keys::{
    default_keybind, default_remap, default_skip, Key, VK_A, VK_D, VK_LCONTROL, VK_LMENU, VK_Q,
    VK_S, VK_SPACE, VK_Z,
};
use is_boxer_like::geometry::{merge_outer_client, Rect};
use is_boxer_like::mirror::{route, Route};
use is_boxer_like::registry::title_contains;
use is_boxer_like::styles::{chrome_style_words, CHROME_EX_STYLE_MASK, CHROME_STYLE_MASK};

fn key(code: u8) -> Key {
    Key { code }
}

#[test]
fn default_keybind_has_the_documented_tables() {
    let kb = default_keybind();
    // 19 head keys, 10 numpad digits, 12 function keys, 10 digits,
    // 4 arrows, 26 letters.
    assert_eq!(kb.len(), 81);
    assert_eq!(kb[0], key(VK_LCONTROL));
    assert_eq!(kb[6], key(VK_SPACE));
    // numpad range directly after the head table
    assert_eq!(kb[19], key(0x60));
    assert_eq!(kb[28], key(0x69));
    // function keys
    assert_eq!(kb[29], key(0x70));
    assert_eq!(kb[40], key(0x7B));
    // digits
    assert_eq!(kb[41], key(0x30));
    assert_eq!(kb[50], key(0x39));
    // arrows
    assert_eq!(kb[51], key(0x25));
    assert_eq!(kb[54], key(0x28));
    // letters
    assert_eq!(kb[55], key(0x41));
    assert_eq!(kb[80], key(0x5A));
}

#[test]
fn default_remap_maps_left_alt_to_space() {
    let rm = default_remap();
    assert_eq!(rm.len(), 1);
    assert_eq!(rm[0], (key(VK_LMENU), key(VK_SPACE)));
}

#[test]
fn default_skip_lists_the_movement_keys() {
    let sk = default_skip();
    assert_eq!(sk, vec![key(VK_D), key(VK_Q), key(VK_S), key(VK_SPACE), key(VK_Z)]);
}

#[test]
fn default_config_matches_the_documented_defaults() {
    let c = Config::default();
    assert_eq!(c.window_name, b"warcraft".to_vec());
    assert!(matches!(c.layout, LayoutOptions::Init));
    assert!(matches!(c.mode, Mode::Mimic(Duration::Milliseconds(10))));
    assert_eq!(c.keybind.len(), 81);
    assert_eq!(c.remap_keybind.len(), 1);
    assert_eq!(c.skip_keybind.len(), 5);
    assert!(c.shortcuts.is_empty());
    assert!(c.bot_action.is_empty());
}

#[test]
fn durations_convert_to_milliseconds() {
    assert_eq!(Duration::Milliseconds(7).as_millis(), 7);
    assert_eq!(Duration::Seconds(2).as_millis(), 2_000);
    assert_eq!(Duration::Minutes(3).as_millis(), 180_000);
    assert_eq!(Duration::Hours(1).as_millis(), 3_600_000);
    assert_eq!(Duration::Days(2).as_millis(), 172_800_000);
    assert_eq!(Duration::Weeks(1).as_millis(), 604_800_000);
    assert_eq!(Duration::Months(1).as_millis(), 2_592_000_000);
    assert_eq!(Duration::Years(1).as_millis(), 31_536_000_000);
}

fn routing_config(skip: Vec<Key>, remap: Vec<(Key, Key)>, keybind: Vec<Key>) -> Config {
    Config {
        window_name: b"x".to_vec(),
        layout: LayoutOptions::Never,
        mode: Mode::Bot,
        remap_keybind: remap,
        skip_keybind: skip,
        keybind,
        shortcuts: Vec::new(),
        bot_action: Vec::new(),
    }
}

#[test]
fn routing_precedence_skip_over_remap_over_keybind() {
    let a = key(VK_A);
    let s = key(VK_SPACE);
    // in all three tables: skip wins
    let c = routing_config(vec![a], vec![(a, s)], vec![a]);
    assert_eq!(route(&c, a), Route::Skipped);
    // in remap and keybind: remap wins
    let c = routing_config(vec![], vec![(a, s)], vec![a]);
    assert_eq!(route(&c, a), Route::Remapped(s));
    // in keybind alone: verbatim
    let c = routing_config(vec![], vec![], vec![a]);
    assert_eq!(route(&c, a), Route::Verbatim);
    // in no table: ignored
    let c = routing_config(vec![], vec![], vec![]);
    assert_eq!(route(&c, a), Route::Unbound);
}

#[test]
fn routing_takes_the_first_remap_entry() {
    let a = key(VK_A);
    let c = routing_config(vec![], vec![(a, key(0x31)), (a, key(0x32))], vec![]);
    assert_eq!(route(&c, a), Route::Remapped(key(0x31)));
}

#[test]
fn default_config_routes_left_alt_to_space() {
    let c = Config::default();
    assert_eq!(route(&c, key(VK_LMENU)), Route::Remapped(key(VK_SPACE)));
    // a skipped key stays skipped even though it is also in keybind
    assert_eq!(route(&c, key(VK_D)), Route::Skipped);
    // an ordinary letter is mirrored verbatim
    assert_eq!(route(&c, key(0x42)), Route::Verbatim);
}

#[test]
fn title_match_is_case_insensitive_substring() {
    let title = b"World of WarCraft III".to_vec();
    assert!(title_contains(&title, &b"warcraft".to_vec()));
    assert!(title_contains(&title, &b"WORLD".to_vec()));
    assert!(title_contains(&title, &b"craft iii".to_vec()));
    assert!(!title_contains(&title, &b"notepad".to_vec()));
    // the empty pattern occurs in every title
    assert!(title_contains(&title, &Vec::new()));
    // a pattern longer than the title never matches
    assert!(!title_contains(&b"abc".to_vec(), &b"abcd".to_vec()));
    // matching is byte-wise: punctuation and digits must be exact
    assert!(title_contains(&b"Pad - 2".to_vec(), &b"pAd - 2".to_vec()));
    assert!(!title_contains(&b"Pad - 2".to_vec(), &b"pad - 3".to_vec()));
}

#[test]
fn key_event_param_packs_code_and_repeat_flag() {
    assert_eq!(key_event_param(key(VK_A), false), 0x0041_0000);
    assert_eq!(key_event_param(key(VK_A), true), 0x0041_4000);
    assert_eq!(key_event_param(key(0xFF), true), 0x00FF_4000);
}

#[test]
fn mouse_event_param_packs_coordinates() {
    assert_eq!(mouse_event_param(10, 2), 2 * 0x1_0000 + 10);
    assert_eq!(mouse_event_param(0, 0), 0);
    assert_eq!(mouse_event_param(0xFFFF, 0xFFFF), 0xFFFF_FFFF);
}

#[test]
fn commands_compare_by_value() {
    let c1 = Command::PostKey { target: 7, code: key(VK_A), down: true, prev_down: false };
    let c2 = Command::PostKey { target: 7, code: key(VK_A), down: true, prev_down: false };
    assert_eq!(c1, c2);
    assert_ne!(c1, Command::StripChrome { target: 7 });
}

#[test]
fn chrome_style_words_clear_and_set_only_the_chrome_bits() {
    // 0x0010_0000 is WS_MAXIMIZEBOX (chrome); 0x1000_0000 is unrelated.
    let style = 0x1001_0000u64;
    let ex_style = 0x0000_0201u64;
    let (s, ex) = chrome_style_words(style, ex_style, false);
    assert_eq!(s, 0x1000_0000);
    assert_eq!(ex, 0);
    let (s, ex) = chrome_style_words(0x1000_0000, 0, true);
    assert_eq!(s, 0x1000_0000 | CHROME_STYLE_MASK);
    assert_eq!(ex, CHROME_EX_STYLE_MASK);
}

#[test]
fn enumerated_rect_takes_position_from_outer_and_size_from_client() {
    let outer = Rect { left: 30, top: 40, width: 820, height: 650 };
    let client = Rect { left: 0, top: 0, width: 800, height: 600 };
    assert_eq!(
        merge_outer_client(&outer, &client),
        Rect { left: 30, top: 40, width: 800, height: 600 }
    );
}

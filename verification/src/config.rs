//! The engine's configuration: key tables, layout policy, mode and the
//! scripted action list.

use vstd::prelude::*;

use crate::keys;
use crate::keys::Key;

verus! {

/// A span of time, in the unit the configuration names.
#[derive(Clone, Copy, PartialEq, Eq, Structural, Debug)]
pub enum Duration {
    Milliseconds(u64),
    Seconds(u64),
    Minutes(u64),
    Hours(u64),
    Days(u64),
    Weeks(u64),
    Months(u64),
    Years(u64),
}

/// The longest sleep a scripted action may ask for, in milliseconds.
/// Keeping sleeps below this bound lets deadlines be computed without
/// overflow for any realistic clock value.
pub const MAX_SLEEP_MILLIS: u64 = 0x1000_0000_0000;

impl Duration {
    /// The span in milliseconds. A month counts as 30 days and a year as
    /// 365 days.
    pub open spec fn millis_spec(self) -> int {
        match self {
            Duration::Milliseconds(n) => n as int,
            Duration::Seconds(n) => n * 1000,
            Duration::Minutes(n) => n * 60_000,
            Duration::Hours(n) => n * 3_600_000,
            Duration::Days(n) => n * 86_400_000,
            Duration::Weeks(n) => n * 604_800_000,
            Duration::Months(n) => n * 2_592_000_000,
            Duration::Years(n) => n * 31_536_000_000,
        }
    }

    /// The span in milliseconds.
    pub fn as_millis(&self) -> (r: u64)
        requires
            self.millis_spec() <= u64::MAX,
        ensures
            r == self.millis_spec(),
    {
        match *self {
            Duration::Milliseconds(n) => n,
            Duration::Seconds(n) => n * 1000,
            Duration::Minutes(n) => n * 60_000,
            Duration::Hours(n) => n * 3_600_000,
            Duration::Days(n) => n * 86_400_000,
            Duration::Weeks(n) => n * 604_800_000,
            Duration::Months(n) => n * 2_592_000_000,
            Duration::Years(n) => n * 31_536_000_000,
        }
    }
}

/// One step of the scripted ("bot") action list.
#[derive(Clone, Copy, PartialEq, Eq, Structural, Debug)]
pub enum BotAction {
    /// Stay on this step until the given span has elapsed.
    Sleep(Duration),
    /// Post a left-button click at the given client coordinates to every
    /// tracked window.
    MouseTo(u16, u16),
    /// Post a key-up then a key-down for the given key to every tracked
    /// window.
    KeyStroke(Key),
}

/// Which per-tick behaviour the engine runs: mirroring physical input at
/// the given polling delay, or playing back the scripted action list.
#[derive(Clone, Copy, PartialEq, Eq, Structural, Debug)]
pub enum Mode {
    Mimic(Duration),
    Bot,
}

/// When the windows are tiled: never, once at startup, or at startup and
/// again on every promotion of a new main window.
#[derive(Clone, Copy, PartialEq, Eq, Structural, Debug)]
pub enum LayoutOptions {
    Never,
    Init,
    Always,
}

/// The action a global shortcut key is bound to.
#[derive(Clone, Copy, PartialEq, Eq, Structural, Debug)]
pub enum Shortcut {
    /// Flash every tracked window briefly topmost to reorder the z-band.
    Foreground,
    /// Promote the focused window (if tracked) to main and re-tile.
    Layout,
    /// Switch the engine to the given mode.
    Mode(Mode),
}

/// The engine's configuration, loaded once at startup and mutated only by
/// a `Shortcut::Mode` action.
pub struct Config {
    /// Pattern matched case-insensitively against window titles when the
    /// registry refreshes; an empty pattern is rejected at startup.
    pub window_name: Vec<u8>,
    pub layout: LayoutOptions,
    pub mode: Mode,
    /// Keys mirrored under a substituted code; takes precedence over
    /// `keybind`, and is itself overridden by `skip_keybind`.
    pub remap_keybind: Vec<(Key, Key)>,
    /// Keys never mirrored; strongest precedence.
    pub skip_keybind: Vec<Key>,
    /// Keys mirrored verbatim; weakest precedence.
    pub keybind: Vec<Key>,
    /// Trigger keys of the global-shortcut table, scanned while both
    /// designated modifier keys are held.
    pub shortcuts: Vec<(Key, Shortcut)>,
    /// The scripted action list played back in `Mode::Bot`; must not be
    /// empty when that mode is selected.
    pub bot_action: Vec<BotAction>,
}

/// Every sleep of the action list stays below the bound that keeps
/// deadline arithmetic free of overflow.
pub open spec fn sleeps_bounded(actions: Seq<BotAction>) -> bool {
    forall|i: int|
        0 <= i < actions.len() ==> match #[trigger] actions[i] {
            BotAction::Sleep(d) => 0 <= d.millis_spec() <= MAX_SLEEP_MILLIS,
            _ => true,
        }
}

impl Config {
    /// The configuration's scripted sleeps stay below the deadline bound.
    pub open spec fn wf(self) -> bool {
        sleeps_bounded(self.bot_action@)
    }
}

/// The built-in title pattern.
pub open spec fn default_window_name_spec() -> Seq<u8> {
    seq![119u8, 97u8, 114u8, 99u8, 114u8, 97u8, 102u8, 116u8]
}

impl Default for Config {
    /// The built-in configuration: match "warcraft" titles, tile once at
    /// startup, mirror with a 10 ms polling delay, and use the built-in
    /// key tables with no shortcuts and no scripted actions.
    fn default() -> (r: Config)
        ensures
            r.window_name@ == default_window_name_spec(),
            r.layout == LayoutOptions::Init,
            r.mode == Mode::Mimic(Duration::Milliseconds(10)),
            r.remap_keybind@ == keys::default_remap_spec(),
            r.skip_keybind@ == keys::default_skip_spec(),
            r.keybind@ == keys::default_keybind_spec(),
            r.shortcuts@ == Seq::<(Key, Shortcut)>::empty(),
            r.bot_action@ == Seq::<BotAction>::empty(),
            r.wf(),
    {
        let mut name: Vec<u8> = Vec::new();
        name.push(119);
        name.push(97);
        name.push(114);
        name.push(99);
        name.push(114);
        name.push(97);
        name.push(102);
        name.push(116);
        proof {
            assert(name@ == default_window_name_spec());
        }
        Config {
            window_name: name,
            layout: LayoutOptions::Init,
            mode: Mode::Mimic(Duration::Milliseconds(10)),
            remap_keybind: keys::default_remap(),
            skip_keybind: keys::default_skip(),
            keybind: keys::default_keybind(),
            shortcuts: Vec::new(),
            bot_action: Vec::new(),
        }
    }
}

} // verus!

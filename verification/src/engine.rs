//! The engine: one owned value holding the window registry, the mirror's
//! press-state, the sequencer state and the configuration.
//!
//! The host's tick loop feeds each method what it sampled from the window
//! service — an enumeration, the focused window, a key-state snapshot, the
//! clock — and carries out the returned commands in order. Within one tick
//! the host polls shortcuts first, then either runs one sequencer step
//! (bot mode) or the swap controller followed by the input mirror (mimic
//! mode), and then sleeps the configured interval.

use vstd::prelude::*;

use crate::bot;
use crate::bot::BotState;
use crate::command::Command;
use crate::config::{Config, MAX_SLEEP_MILLIS};
use crate::geometry::Rect;
use crate::keys::Key;
use crate::layout;
use crate::mirror;
use crate::mirror::{broadcast_key, down_in, keyboard_wf};
use crate::registry::{handles_of, TrackedWindow, WindowRegistry};
use crate::shortcuts;
use crate::shortcuts::{dispatch_all, dispatch_start, modifiers_held};
use crate::swap;

verus! {

/// The engine value the host drives.
pub struct App {
    /// The tracked windows and the designated main window.
    pub registry: WindowRegistry,
    /// The mirror's press-state: one bit per key code.
    pub keyboard: Vec<bool>,
    /// The scripted sequencer's cursor and sleep deadline.
    pub bot: BotState,
    /// The configuration; only its mode ever changes after startup.
    pub config: Config,
}

impl App {
    /// The engine invariant: the registry's main window is tracked, the
    /// scripted sleeps are bounded, only mirrored keys are recorded as
    /// pressed, and the sequencer cursor stays inside the action list.
    pub open spec fn wf(self) -> bool {
        &&& self.registry.wf()
        &&& self.config.wf()
        &&& keyboard_wf(self.config, self.keyboard@)
        &&& (self.config.bot_action@.len() == 0 || self.bot.cursor
            < self.config.bot_action@.len())
    }

    /// A fresh engine: an empty registry, no key recorded as pressed, and
    /// the sequencer at its first step. The host fills the registry with
    /// its first enumeration through [`App::update_windows`].
    pub fn new(config: Config) -> (a: App)
        requires
            config.wf(),
        ensures
            a.wf(),
            a.config == config,
            a.registry.models().len() == 0,
            a.registry.main is None,
            a.keyboard@.len() == 256,
            forall|i: int| 0 <= i < 256 ==> !a.keyboard@[i],
            a.bot.cursor == 0,
            a.bot.deadline is None,
    {
        let mut keyboard: Vec<bool> = Vec::new();
        let mut i: usize = 0;
        while i < 256
            invariant
                i <= 256,
                keyboard@.len() == i,
                forall|j: int| 0 <= j < i ==> !keyboard@[j],
            decreases 256 - i,
        {
            keyboard.push(false);
            i = i + 1;
        }
        App { registry: WindowRegistry::new(), keyboard, bot: BotState::new(), config }
    }

    /// The handle names a tracked window.
    pub fn has_hwnd(&self, hwnd: usize) -> (r: bool)
        ensures
            r == self.registry.tracks(hwnd),
    {
        self.registry.has(hwnd)
    }

    /// The focused window the host reports is the designated main window.
    pub fn is_main_focus(&self, focused: usize) -> (r: bool)
        ensures
            r == (self.registry.main == Some(focused)),
    {
        match self.registry.main {
            Some(m) => m == focused,
            None => false,
        }
    }

    /// Rebuilds the registry from a fresh enumeration: the entries whose
    /// titles contain the pattern, case-insensitively, replace the tracked
    /// set. An enumeration with no match leaves the registry as it was and
    /// returns `false`; the host treats that as fatal only on the very
    /// first discovery.
    pub fn update_windows(&mut self, pattern: &Vec<u8>, entries: &Vec<TrackedWindow>) -> (updated:
        bool)
        requires
            old(self).wf(),
        ensures
            final(self).wf(),
            final(self).keyboard@ == old(self).keyboard@,
            final(self).bot == old(self).bot,
            final(self).config == old(self).config,
            !updated ==> final(self).registry.models() == old(self).registry.models() && final(self).registry.main == old(self).registry.main,
            updated == (crate::registry::matched(
                crate::registry::models_of(entries@),
                pattern@,
            ).len() != 0),
            updated ==> final(self).registry.models() == crate::registry::matched(
                crate::registry::models_of(entries@),
                pattern@,
            ),
            updated && old(self).registry.main is Some && final(self).registry.tracks(
                old(self).registry.main->0,
            ) ==> final(self).registry.main == old(self).registry.main,
            updated && !(old(self).registry.main is Some && final(self).registry.tracks(
                old(self).registry.main->0,
            )) ==> final(self).registry.main == Some(final(self).registry.models()[0].handle),
    {
        self.registry.refresh(pattern, entries)
    }

    /// One mirror tick: posts edge events for every configured key to
    /// every tracked window except the focused one, and records the
    /// mirrored keys' physical state. Nothing happens while the focus is
    /// outside the registry.
    pub fn mimic(&mut self, focused: usize, snap: &Vec<bool>) -> (cmds: Vec<Command>)
        requires
            old(self).wf(),
            snap@.len() == 256,
        ensures
            final(self).wf(),
            final(self).registry == old(self).registry,
            final(self).bot == old(self).bot,
            final(self).config == old(self).config,
            !old(self).registry.tracks(focused) ==> final(self).keyboard@ == old(self).keyboard@
                && cmds@ == Seq::<Command>::empty(),
            old(self).registry.tracks(focused) ==> cmds@ == mirror::mirror_cmds(
                old(self).config,
                old(self).keyboard@,
                snap@,
                mirror::other_handles(old(self).registry.models(), focused),
            ),
            old(self).registry.tracks(focused) ==> final(self).keyboard@ == mirror::next_keyboard(
                old(self).config,
                old(self).keyboard@,
                snap@,
            ),
    {
        mirror::mirror_tick(&self.config, &self.registry, &mut self.keyboard, focused, snap)
    }

    /// One swap-controller step: when the focused window is a tracked
    /// secondary, it is promoted to main, exchanging rectangles with the
    /// old main window; the host then moves both windows and re-focuses
    /// the promoted one.
    pub fn swap_windows(&mut self, focused: usize) -> (r: (bool, Vec<Command>))
        requires
            old(self).wf(),
        ensures
            final(self).wf(),
            final(self).keyboard@ == old(self).keyboard@,
            final(self).bot == old(self).bot,
            final(self).config == old(self).config,
            r.0 == swap::promotion_applies(
                old(self).registry.models(),
                old(self).registry.main,
                focused,
            ),
            !r.0 ==> final(self).registry.models() == old(self).registry.models() && final(self).registry.main == old(self).registry.main && r.1@ == Seq::<Command>::empty(),
            r.0 ==> final(self).registry.models() == swap::swapped(
                old(self).registry.models(),
                old(self).registry.main->0,
                focused,
            ),
            r.0 ==> final(self).registry.main == Some(focused),
            r.0 ==> r.1@ == swap::promote_cmds(
                old(self).registry.models(),
                old(self).registry.main->0,
                focused,
            ),
    {
        swap::maybe_promote(&mut self.registry, focused)
    }

    /// Tiles the tracked windows over the work area, updating the stored
    /// rectangles and returning the chrome and move commands. With fewer
    /// than two windows, or no main window, nothing happens.
    pub fn layout_windows(&mut self, wa: &Rect) -> (cmds: Vec<Command>)
        requires
            old(self).wf(),
            wa.width >= 0,
            wa.height >= 0,
            old(self).registry.models().len() < 0x8000_0000,
        ensures
            final(self).wf(),
            final(self).keyboard@ == old(self).keyboard@,
            final(self).bot == old(self).bot,
            final(self).config == old(self).config,
            final(self).registry.main == old(self).registry.main,
            !layout::tiling_applies(old(self).registry.models(), old(self).registry.main)
                ==> final(self).registry.models() == old(self).registry.models() && cmds@ == Seq::<
                Command,
            >::empty(),
            layout::tiling_applies(old(self).registry.models(), old(self).registry.main) ==> final(self).registry.models() == layout::retiled(
                old(self).registry.models(),
                old(self).registry.main->0,
                *wa,
            ) && cmds@ == layout::layout_cmds(
                old(self).registry.models(),
                old(self).registry.main->0,
                *wa,
            ),
    {
        layout::apply_layout(&mut self.registry, wa)
    }

    /// Flashes every tracked window briefly topmost, in registry order,
    /// to pull the set to the front of the z-order.
    pub fn foreground(&self) -> (cmds: Vec<Command>)
        ensures
            cmds@ == shortcuts::flash_cmds(self.registry.models()),
    {
        let mut cmds: Vec<Command> = Vec::new();
        shortcuts::push_flash_cmds(&mut cmds, &self.registry);
        cmds
    }

    /// Notes the window the host reports as focused: reports `false` when
    /// it already is the main window; otherwise promotes it when tracked
    /// and reports `true`.
    pub fn get_foreground_window(&mut self, focused: usize) -> (r: bool)
        requires
            old(self).wf(),
        ensures
            final(self).wf(),
            final(self).keyboard@ == old(self).keyboard@,
            final(self).bot == old(self).bot,
            final(self).config == old(self).config,
            final(self).registry.windows@ == old(self).registry.windows@,
            r == (old(self).registry.main != Some(focused)),
            !r ==> final(self).registry.main == old(self).registry.main,
            r ==> final(self).registry.main == (if old(self).registry.tracks(focused) {
                Some(focused)
            } else {
                old(self).registry.main
            }),
    {
        if self.is_main_focus(focused) {
            return false;
        }
        self.registry.promote(focused);
        true
    }

    /// Posts a key-down for this key to every tracked window, main
    /// included, with the previous-state flag from the press-state.
    pub fn send_key_down(&self, key: Key) -> (cmds: Vec<Command>)
        requires
            self.wf(),
        ensures
            cmds@ == broadcast_key(
                handles_of(self.registry.models()),
                key,
                true,
                down_in(self.keyboard@, key),
            ),
    {
        let handles = crate::registry::collect_handles(&self.registry);
        let prev = self.keyboard[key.code as usize];
        let mut cmds: Vec<Command> = Vec::new();
        mirror::push_broadcast(&mut cmds, &handles, key, true, prev);
        cmds
    }

    /// Posts a key-up for this key to every tracked window, main
    /// included, with the previous-state flag from the press-state.
    pub fn send_key_up(&self, key: Key) -> (cmds: Vec<Command>)
        requires
            self.wf(),
        ensures
            cmds@ == broadcast_key(
                handles_of(self.registry.models()),
                key,
                false,
                down_in(self.keyboard@, key),
            ),
    {
        let handles = crate::registry::collect_handles(&self.registry);
        let prev = self.keyboard[key.code as usize];
        let mut cmds: Vec<Command> = Vec::new();
        mirror::push_broadcast(&mut cmds, &handles, key, false, prev);
        cmds
    }

    /// Posts a left-button click at the given client coordinates to every
    /// tracked window.
    pub fn send_mouse(&self, x: u16, y: u16) -> (cmds: Vec<Command>)
        ensures
            cmds@ == bot::mouse_cmds(self.registry.models(), x, y),
    {
        let mut cmds: Vec<Command> = Vec::new();
        bot::push_mouse_cmds(&mut cmds, &self.registry, x, y);
        cmds
    }

    /// Polls the global shortcuts: while both designated modifier keys
    /// are held, every shortcut whose trigger key is down fires in table
    /// order. Returns `true`, with the sequencer reset, when a fired
    /// action switched the mode, so the host restarts its tick loop.
    pub fn global_shortcuts(&mut self, focused: usize, snap: &Vec<bool>, wa: &Rect) -> (r: (
        bool,
        Vec<Command>,
    ))
        requires
            old(self).wf(),
            snap@.len() == 256,
            wa.width >= 0,
            wa.height >= 0,
            old(self).registry.models().len() < 0x8000_0000,
        ensures
            final(self).wf(),
            final(self).keyboard@ == old(self).keyboard@,
            final(self).config.window_name@ == old(self).config.window_name@,
            final(self).config.layout == old(self).config.layout,
            final(self).config.remap_keybind@ == old(self).config.remap_keybind@,
            final(self).config.skip_keybind@ == old(self).config.skip_keybind@,
            final(self).config.keybind@ == old(self).config.keybind@,
            final(self).config.shortcuts@ == old(self).config.shortcuts@,
            final(self).config.bot_action@ == old(self).config.bot_action@,
            !modifiers_held(snap@) ==> final(self).registry.models() == old(self).registry.models() && final(self).registry.main == old(self).registry.main && final(self).config.mode == old(self).config.mode && final(self).bot == old(self).bot && r.0
                == false && r.1@ == Seq::<Command>::empty(),
            modifiers_held(snap@) ==> ({
                let out = dispatch_all(
                    old(self).config.shortcuts@,
                    snap@,
                    focused,
                    *wa,
                    dispatch_start(old(self).registry, old(self).config.mode),
                );
                &&& final(self).registry.models() == out.windows
                &&& final(self).registry.main == out.main
                &&& final(self).config.mode == out.mode
                &&& r.0 == out.restart
                &&& r.1@ == out.cmds
            }),
            r.0 ==> final(self).bot.cursor == 0 && final(self).bot.deadline is None,
            !r.0 ==> final(self).bot == old(self).bot,
    {
        let r = shortcuts::dispatch_shortcuts(
            &mut self.registry,
            &mut self.config.mode,
            &self.config.shortcuts,
            focused,
            snap,
            wa,
        );
        if r.0 {
            self.bot = BotState::new();
        }
        proof {
            mirror::lemma_active_same_tables(old(self).config, self.config);
            assert(keyboard_wf(self.config, self.keyboard@));
        }
        r
    }

    /// One sequencer step in bot mode. The host guarantees a non-empty
    /// action list at startup; the clock is any monotonic millisecond
    /// counter small enough that a sleep deadline cannot overflow.
    pub fn bot_step(&mut self, now: u64) -> (cmds: Vec<Command>)
        requires
            old(self).wf(),
            old(self).config.bot_action@.len() > 0,
            now <= u64::MAX - MAX_SLEEP_MILLIS,
        ensures
            final(self).wf(),
            final(self).keyboard@ == old(self).keyboard@,
            final(self).config == old(self).config,
            final(self).registry == old(self).registry,
            final(self).bot == bot::bot_step_spec(
                old(self).config.bot_action@,
                old(self).bot,
                now,
                old(self).registry.models(),
                old(self).keyboard@,
            ).0,
            cmds@ == bot::bot_step_spec(
                old(self).config.bot_action@,
                old(self).bot,
                now,
                old(self).registry.models(),
                old(self).keyboard@,
            ).1,
    {
        bot::bot_step(&self.config.bot_action, &mut self.bot, now, &self.registry, &self.keyboard)
    }
}

} // verus!

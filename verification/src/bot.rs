//! The scripted action sequencer: a circular cursor over a closed list of
//! actions, advanced one step per tick.
//!
//! A `Sleep` step records a deadline on first visit and holds the cursor
//! until the clock passes it; on the first tick past the deadline the
//! cursor advances and the next action runs in the same tick. A
//! `KeyStroke` posts a key-up then a key-down to every tracked window and
//! advances. A `MouseTo` posts a left-button click to every tracked
//! window and advances. The cursor wraps around the end of the list.

use vstd::prelude::*;

use crate::command::Command;
use crate::config::{sleeps_bounded, BotAction, MAX_SLEEP_MILLIS};
use crate::keys::Key;
use crate::mirror::{broadcast_key, down_in, push_broadcast};
use crate::registry::{handles_of, WindowModel, WindowRegistry};

verus! {

/// The sequencer's state: the current step, and the deadline of a sleep
/// in progress.
#[derive(Clone, Copy, PartialEq, Eq, Structural, Debug)]
pub struct BotState {
    pub cursor: usize,
    pub deadline: Option<u64>,
}

impl BotState {
    /// The sequencer at the first step, with no sleep in progress.
    pub fn new() -> (r: BotState)
        ensures
            r.cursor == 0,
            r.deadline is None,
    {
        BotState { cursor: 0, deadline: None }
    }
}

/// The click events posted to the first `i` windows: a button-down and a
/// button-up per window, in registry order.
pub open spec fn mouse_upto(ws: Seq<WindowModel>, x: u16, y: u16, i: int) -> Seq<Command>
    decreases i,
{
    if i <= 0 {
        Seq::empty()
    } else {
        mouse_upto(ws, x, y, i - 1) + seq![
            (Command::PostMouse { target: ws[i - 1].handle, x, y, down: true }),
            (Command::PostMouse { target: ws[i - 1].handle, x, y, down: false }),
        ]
    }
}

/// A left-button click posted to every tracked window, in registry order.
pub open spec fn mouse_cmds(ws: Seq<WindowModel>, x: u16, y: u16) -> Seq<Command> {
    mouse_upto(ws, x, y, ws.len() as int)
}

/// A keystroke posted to every tracked window: first the key-ups, then
/// the key-downs, each in registry order, with the previous-state flag
/// taken from the press-state.
pub open spec fn keystroke_cmds(ws: Seq<WindowModel>, kb: Seq<bool>, k: Key) -> Seq<Command> {
    broadcast_key(handles_of(ws), k, false, down_in(kb, k)) + broadcast_key(
        handles_of(ws),
        k,
        true,
        down_in(kb, k),
    )
}

/// The next cursor position, wrapping around the end of the list.
pub open spec fn wrap_next(cursor: int, len: int) -> int
    recommends
        len > 0,
{
    (cursor + 1) % len
}

/// The sequencer step: the state after one tick and the commands the tick
/// issues.
pub open spec fn bot_step_spec(
    actions: Seq<BotAction>,
    s: BotState,
    now: u64,
    ws: Seq<WindowModel>,
    kb: Seq<bool>,
) -> (BotState, Seq<Command>)
    recommends
        actions.len() > 0,
        s.cursor < actions.len(),
{
    if s.deadline matches Some(d) && now < d {
        (s, Seq::empty())
    } else {
        let cur = if s.deadline is Some {
            wrap_next(s.cursor as int, actions.len() as int)
        } else {
            s.cursor as int
        };
        match actions[cur] {
            BotAction::Sleep(dur) => (
                (BotState {
                    cursor: cur as usize,
                    deadline: Some((now + dur.millis_spec()) as u64),
                }),
                Seq::empty(),
            ),
            BotAction::MouseTo(x, y) => (
                (BotState { cursor: wrap_next(cur, actions.len() as int) as usize, deadline: None }),
                mouse_cmds(ws, x, y),
            ),
            BotAction::KeyStroke(k) => (
                (BotState { cursor: wrap_next(cur, actions.len() as int) as usize, deadline: None }),
                keystroke_cmds(ws, kb, k),
            ),
        }
    }
}

/// Appends a button-down and button-up per tracked window to `out`.
pub(crate) fn push_mouse_cmds(out: &mut Vec<Command>, reg: &WindowRegistry, x: u16, y: u16)
    ensures
        final(out)@ == old(out)@ + mouse_cmds(reg.models(), x, y),
{
    let mut i: usize = 0;
    while i < reg.windows.len()
        invariant
            i <= reg.models().len(),
            out@ == old(out)@ + mouse_upto(reg.models(), x, y, i as int),
        decreases reg.models().len() - i,
    {
        let h = reg.windows[i].handle;
        proof {
            assert(reg.models()[i as int].handle == h);
        }
        out.push(Command::PostMouse { target: h, x, y, down: true });
        out.push(Command::PostMouse { target: h, x, y, down: false });
        proof {
            assert(out@ == old(out)@ + mouse_upto(reg.models(), x, y, i as int + 1));
        }
        i = i + 1;
    }
}

/// One tick of the sequencer. The press-state is read only, for the
/// previous-state flag of keystroke events.
pub fn bot_step(
    actions: &Vec<BotAction>,
    s: &mut BotState,
    now: u64,
    reg: &WindowRegistry,
    kb: &Vec<bool>,
) -> (cmds: Vec<Command>)
    requires
        actions@.len() > 0,
        old(s).cursor < actions@.len(),
        sleeps_bounded(actions@),
        now <= u64::MAX - MAX_SLEEP_MILLIS,
        kb@.len() == 256,
    ensures
        final(s).cursor < actions@.len(),
        *final(s) == bot_step_spec(actions@, *old(s), now, reg.models(), kb@).0,
        cmds@ == bot_step_spec(actions@, *old(s), now, reg.models(), kb@).1,
{
    let len = actions.len();
    let mut cur: usize = s.cursor;
    match s.deadline {
        Some(d) => {
            if now < d {
                return Vec::new();
            }
            cur = (cur + 1) % len;
            s.deadline = None;
        },
        None => {},
    }
    match actions[cur] {
        BotAction::Sleep(dur) => {
            let ms = dur.as_millis();
            s.deadline = Some(now + ms);
            s.cursor = cur;
            Vec::new()
        },
        BotAction::MouseTo(x, y) => {
            s.cursor = (cur + 1) % len;
            s.deadline = None;
            let mut cmds: Vec<Command> = Vec::new();
            push_mouse_cmds(&mut cmds, reg, x, y);
            cmds
        },
        BotAction::KeyStroke(k) => {
            s.cursor = (cur + 1) % len;
            s.deadline = None;
            let handles = crate::registry::collect_handles(reg);
            let prev = kb[k.code as usize];
            let mut cmds: Vec<Command> = Vec::new();
            push_broadcast(&mut cmds, &handles, k, false, prev);
            push_broadcast(&mut cmds, &handles, k, true, prev);
            proof {
                assert(cmds@ == keystroke_cmds(reg.models(), kb@, k));
            }
            cmds
        },
    }
}

} // verus!

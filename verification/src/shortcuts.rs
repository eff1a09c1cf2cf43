//! The global-shortcut dispatcher.
//!
//! While both designated modifier keys (left Shift and left Alt) are
//! physically held, every trigger key of the shortcut table that is
//! currently down fires its bound action, in table order: `Foreground`
//! flashes every tracked window briefly topmost; `Layout` promotes the
//! focused window (if tracked) to main and re-tiles; `Mode` switches the
//! engine's mode and asks the host to restart its tick loop.

use vstd::prelude::*;

use crate::command::Command;
use crate::config::{Mode, Shortcut};
use crate::geometry::Rect;
use crate::keys::{Key, VK_LMENU, VK_LSHIFT};
use crate::layout::{apply_layout, layout_cmds, retiled, tiling_applies};
use crate::mirror::down_in;
use crate::registry::{tracks_handle, WindowModel, WindowRegistry};

verus! {

/// The z-order flashes of the first `i` windows: each is pinned topmost
/// and released again, in registry order.
pub open spec fn flash_upto(ws: Seq<WindowModel>, i: int) -> Seq<Command>
    decreases i,
{
    if i <= 0 {
        Seq::empty()
    } else {
        flash_upto(ws, i - 1) + seq![
            (Command::SetZOrder { target: ws[i - 1].handle, topmost: true }),
            (Command::SetZOrder { target: ws[i - 1].handle, topmost: false }),
        ]
    }
}

/// Every tracked window pinned topmost and released, in registry order.
pub open spec fn flash_cmds(ws: Seq<WindowModel>) -> Seq<Command> {
    flash_upto(ws, ws.len() as int)
}

/// The dispatcher's running state: the registry contents, the engine
/// mode, the restart signal and the commands issued so far.
pub struct DispatchState {
    pub windows: Seq<WindowModel>,
    pub main: Option<usize>,
    pub mode: Mode,
    pub restart: bool,
    pub cmds: Seq<Command>,
}

/// The dispatcher's state before any trigger key fires.
pub open spec fn dispatch_start(reg: WindowRegistry, mode: Mode) -> DispatchState {
    DispatchState {
        windows: reg.models(),
        main: reg.main,
        mode,
        restart: false,
        cmds: Seq::empty(),
    }
}

/// One fired action applied to the dispatcher's state.
pub open spec fn apply_action(s: DispatchState, act: Shortcut, focused: usize, wa: Rect) -> DispatchState {
    match act {
        Shortcut::Foreground => DispatchState { cmds: s.cmds + flash_cmds(s.windows), ..s },
        Shortcut::Layout => {
            let main2 = if tracks_handle(s.windows, focused) {
                Some(focused)
            } else {
                s.main
            };
            if tiling_applies(s.windows, main2) {
                DispatchState {
                    windows: retiled(s.windows, main2->0, wa),
                    main: main2,
                    cmds: s.cmds + layout_cmds(s.windows, main2->0, wa),
                    ..s
                }
            } else {
                DispatchState { main: main2, ..s }
            }
        },
        Shortcut::Mode(m) => DispatchState { mode: m, restart: true, ..s },
    }
}

/// The dispatcher's state after scanning the first `i` table entries:
/// each entry whose trigger key is physically down fires its action.
pub open spec fn dispatch_upto(
    table: Seq<(Key, Shortcut)>,
    snap: Seq<bool>,
    focused: usize,
    wa: Rect,
    s0: DispatchState,
    i: int,
) -> DispatchState
    decreases i,
{
    if i <= 0 {
        s0
    } else {
        let s = dispatch_upto(table, snap, focused, wa, s0, i - 1);
        if down_in(snap, table[i - 1].0) {
            apply_action(s, table[i - 1].1, focused, wa)
        } else {
            s
        }
    }
}

/// The dispatcher's state after scanning the whole table.
pub open spec fn dispatch_all(
    table: Seq<(Key, Shortcut)>,
    snap: Seq<bool>,
    focused: usize,
    wa: Rect,
    s0: DispatchState,
) -> DispatchState {
    dispatch_upto(table, snap, focused, wa, s0, table.len() as int)
}

/// Both designated modifier keys are physically held.
pub open spec fn modifiers_held(snap: Seq<bool>) -> bool {
    snap[VK_LSHIFT as int] && snap[VK_LMENU as int]
}

/// Appends a topmost pin and release per tracked window to `out`.
pub(crate) fn push_flash_cmds(out: &mut Vec<Command>, reg: &WindowRegistry)
    ensures
        final(out)@ == old(out)@ + flash_cmds(reg.models()),
{
    let mut i: usize = 0;
    while i < reg.windows.len()
        invariant
            i <= reg.models().len(),
            out@ == old(out)@ + flash_upto(reg.models(), i as int),
        decreases reg.models().len() - i,
    {
        let h = reg.windows[i].handle;
        proof {
            assert(reg.models()[i as int].handle == h);
        }
        out.push(Command::SetZOrder { target: h, topmost: true });
        out.push(Command::SetZOrder { target: h, topmost: false });
        proof {
            assert(out@ == old(out)@ + flash_upto(reg.models(), i as int + 1));
        }
        i = i + 1;
    }
}

/// Scans the shortcut table once.
///
/// When the two modifier keys are not both held, nothing happens and no
/// restart is signalled. Otherwise every table entry whose trigger key is
/// down fires, in table order, mutating the registry and the mode as
/// [`dispatch_all`] describes; the returned flag asks the host to restart
/// its tick loop after a mode switch.
pub fn dispatch_shortcuts(
    reg: &mut WindowRegistry,
    mode: &mut Mode,
    table: &Vec<(Key, Shortcut)>,
    focused: usize,
    snap: &Vec<bool>,
    wa: &Rect,
) -> (r: (bool, Vec<Command>))
    requires
        old(reg).wf(),
        snap@.len() == 256,
        wa.width >= 0,
        wa.height >= 0,
        old(reg).models().len() < 0x8000_0000,
    ensures
        final(reg).wf(),
        final(reg).models().len() == old(reg).models().len(),
        !modifiers_held(snap@) ==> final(reg).models() == old(reg).models() && final(reg).main
            == old(reg).main && *final(mode) == *old(mode) && r.0 == false && r.1@ == Seq::<
            Command,
        >::empty(),
        modifiers_held(snap@) ==> ({
            let out = dispatch_all(
                table@,
                snap@,
                focused,
                *wa,
                dispatch_start(*old(reg), *old(mode)),
            );
            &&& final(reg).models() == out.windows
            &&& final(reg).main == out.main
            &&& *final(mode) == out.mode
            &&& r.0 == out.restart
            &&& r.1@ == out.cmds
        }),
{
    if !snap[VK_LSHIFT as usize] || !snap[VK_LMENU as usize] {
        return (false, Vec::new());
    }
    let ghost s0 = dispatch_start(*old(reg), *old(mode));
    let mut cmds: Vec<Command> = Vec::new();
    let mut restart: bool = false;
    let mut i: usize = 0;
    while i < table.len()
        invariant
            snap@.len() == 256,
            wa.width >= 0,
            wa.height >= 0,
            i <= table@.len(),
            reg.wf(),
            ({
                let s = dispatch_upto(table@, snap@, focused, *wa, s0, i as int);
                &&& reg.models() == s.windows
                &&& reg.main == s.main
                &&& *mode == s.mode
                &&& restart == s.restart
                &&& cmds@ == s.cmds
            }),
            reg.models().len() == s0.windows.len() < 0x8000_0000,
        decreases table@.len() - i,
    {
        let (k, act) = table[i];
        proof {
            assert(table@[i as int].0 == k);
            assert(table@[i as int].1 == act);
        }
        if snap[k.code as usize] {
            match act {
                Shortcut::Foreground => {
                    push_flash_cmds(&mut cmds, reg);
                },
                Shortcut::Layout => {
                    reg.promote(focused);
                    let mut lc = apply_layout(reg, wa);
                    cmds.append(&mut lc);
                },
                Shortcut::Mode(m) => {
                    *mode = m;
                    restart = true;
                },
            }
        }
        proof {
            let s = dispatch_upto(table@, snap@, focused, *wa, s0, i as int);
            let s2 = dispatch_upto(table@, snap@, focused, *wa, s0, i as int + 1);
            assert(reg.models() =~= s2.windows);
            assert(cmds@ =~= s2.cmds);
        }
        i = i + 1;
    }
    (restart, cmds)
}

} // verus!

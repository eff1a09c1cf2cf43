//! The swap controller: promotion of a focused secondary window to main,
//! exchanging its geometry with the old main window.

use vstd::prelude::*;

use crate::command::Command;
use crate::layout::set_window_rect;
use crate::registry::{tracks_handle, WindowModel, WindowRegistry};

verus! {

/// The index of the first window with this handle; the sequence length
/// when no window has it.
pub open spec fn first_index(ws: Seq<WindowModel>, h: usize) -> int
    decreases ws.len(),
{
    if ws.len() == 0 {
        0
    } else if ws[0].handle == h {
        0
    } else {
        1 + first_index(ws.drop_first(), h)
    }
}

/// For a tracked handle, `first_index` names the first window carrying
/// it.
pub proof fn lemma_first_index(ws: Seq<WindowModel>, h: usize)
    requires
        tracks_handle(ws, h),
    ensures
        0 <= first_index(ws, h) < ws.len(),
        ws[first_index(ws, h)].handle == h,
        forall|j: int| 0 <= j < first_index(ws, h) ==> ws[j].handle != h,
    decreases ws.len(),
{
    if ws.len() > 0 && ws[0].handle != h {
        let tail = ws.drop_first();
        assert(tracks_handle(tail, h)) by {
            let w = choose|i: int| 0 <= i < ws.len() && ws[i].handle == h;
            assert(tail[w - 1].handle == h);
        }
        lemma_first_index(tail, h);
        assert forall|j: int| 0 <= j < first_index(ws, h) implies ws[j].handle != h by {
            if j > 0 {
                assert(tail[j - 1].handle != h);
            }
        }
    }
}

/// Finds the first window with this handle.
fn find_index(reg: &WindowRegistry, h: usize) -> (r: Option<usize>)
    ensures
        r is Some == reg.tracks(h),
        r is Some ==> r->0 == first_index(reg.models(), h),
{
    let mut i: usize = 0;
    while i < reg.windows.len()
        invariant
            i <= reg.models().len(),
            forall|j: int| 0 <= j < i ==> reg.models()[j].handle != h,
        decreases reg.models().len() - i,
    {
        if reg.windows[i].handle == h {
            proof {
                assert(reg.models()[i as int].handle == h);
                lemma_first_index(reg.models(), h);
                assert(first_index(reg.models(), h) == i);
            }
            return Some(i);
        }
        i = i + 1;
    }
    None
}

/// A promotion applies when at least two windows are tracked, a main
/// window is designated, and the focused window is a tracked window other
/// than main.
pub open spec fn promotion_applies(ws: Seq<WindowModel>, main: Option<usize>, focused: usize) -> bool {
    &&& ws.len() >= 2
    &&& main is Some
    &&& main != Some(focused)
    &&& tracks_handle(ws, focused)
}

/// The window sequence after the promotion swap: the old main window and
/// the focused window exchange rectangles; every other window is
/// untouched.
pub open spec fn swapped(ws: Seq<WindowModel>, main: usize, focused: usize) -> Seq<WindowModel> {
    let im = first_index(ws, main);
    let ifc = first_index(ws, focused);
    ws.update(
        im,
        (WindowModel { handle: ws[im].handle, title: ws[im].title, rect: ws[ifc].rect }),
    ).update(ifc, (WindowModel { handle: ws[ifc].handle, title: ws[ifc].title, rect: ws[im].rect }))
}

/// The commands a promotion issues: move the old main window into the
/// focused window's rectangle, move the focused window into the old
/// main's rectangle, then give the promoted window the input focus.
pub open spec fn promote_cmds(ws: Seq<WindowModel>, main: usize, focused: usize) -> Seq<Command> {
    seq![
        (Command::MoveWindow {
            target: main,
            rect: ws[first_index(ws, focused)].rect,
        }),
        (Command::MoveWindow {
            target: focused,
            rect: ws[first_index(ws, main)].rect,
        }),
        (Command::SetForeground { target: focused }),
    ]
}

/// Promotes the focused window to main when a promotion applies: the old
/// main window and the focused window exchange rectangles, the registry's
/// main becomes the focused handle, and the host is told to move both
/// windows and re-focus the promoted one. Otherwise nothing changes.
pub fn maybe_promote(reg: &mut WindowRegistry, focused: usize) -> (r: (bool, Vec<Command>))
    requires
        old(reg).wf(),
    ensures
        final(reg).wf(),
        r.0 == promotion_applies(old(reg).models(), old(reg).main, focused),
        !r.0 ==> final(reg).models() == old(reg).models() && final(reg).main == old(reg).main
            && r.1@ == Seq::<Command>::empty(),
        r.0 ==> final(reg).models() == swapped(old(reg).models(), old(reg).main->0, focused),
        r.0 ==> final(reg).main == Some(focused),
        r.0 ==> r.1@ == promote_cmds(old(reg).models(), old(reg).main->0, focused),
        r.0 ==> final(reg).models()[first_index(old(reg).models(), old(reg).main->0)].rect == old(
            reg,
        ).models()[first_index(old(reg).models(), focused)].rect,
        r.0 ==> final(reg).models()[first_index(old(reg).models(), focused)].rect == old(
            reg,
        ).models()[first_index(old(reg).models(), old(reg).main->0)].rect,
{
    if reg.windows.len() <= 1 {
        return (false, Vec::new());
    }
    let main: usize = match reg.main {
        Some(m) => m,
        None => {
            return (false, Vec::new());
        },
    };
    if main == focused {
        return (false, Vec::new());
    }
    let im: usize = match find_index(reg, main) {
        Some(i) => i,
        None => {
            proof {
                assert(false);
            }
            return (false, Vec::new());
        },
    };
    let ifc: usize = match find_index(reg, focused) {
        Some(i) => i,
        None => {
            return (false, Vec::new());
        },
    };
    proof {
        lemma_first_index(reg.models(), main);
        lemma_first_index(reg.models(), focused);
    }
    let rm = reg.windows[im].rect;
    let rf = reg.windows[ifc].rect;
    proof {
        assert(reg.models()[im as int].rect == rm);
        assert(reg.models()[ifc as int].rect == rf);
    }
    set_window_rect(&mut reg.windows, im, rf);
    set_window_rect(&mut reg.windows, ifc, rm);
    reg.main = Some(focused);
    proof {
        assert(reg.models() =~= swapped(old(reg).models(), main, focused));
        assert(reg.models()[ifc as int].handle == focused);
        assert(tracks_handle(reg.models(), focused));
    }
    let mut cmds: Vec<Command> = Vec::new();
    cmds.push(Command::MoveWindow { target: main, rect: rf });
    cmds.push(Command::MoveWindow { target: focused, rect: rm });
    cmds.push(Command::SetForeground { target: focused });
    proof {
        assert(cmds@ =~= promote_cmds(old(reg).models(), main, focused));
    }
    (true, cmds)
}

} // verus!

//! The layout engine: pure tiling geometry over the registry.
//!
//! The main window receives the full work-area width with a band at the
//! bottom cut off; the secondary windows share that band left to right in
//! registry order. Tiling reads only the window order, the main handle and
//! the work area — never the current rectangles — which makes it
//! idempotent (see [`lemma_tile_idempotent`]).

use vstd::prelude::*;

use crate::command::Command;
use crate::geometry::Rect;
use crate::registry::{models_of, tracks_handle, WindowModel, WindowRegistry};

verus! {

/// Width of one secondary window: the work-area width split among the
/// `n - 1` secondaries.
pub open spec fn small_width(wa: Rect, n: int) -> int {
    wa.width as int / (n - 1)
}

/// Height of the bottom band: the work-area height divided by the window
/// count.
pub open spec fn small_height(wa: Rect, n: int) -> int {
    wa.height as int / n
}

/// The main window's target: the full width, with the bottom band cut off.
pub open spec fn main_target(wa: Rect, n: int) -> Rect {
    Rect { left: 0, top: 0, width: wa.width, height: (wa.height - small_height(wa, n)) as i32 }
}

/// The target of the `j`-th secondary window: its slot in the bottom band.
pub open spec fn secondary_target(wa: Rect, n: int, j: int) -> Rect {
    Rect {
        left: (j * small_width(wa, n)) as i32,
        top: (wa.height - small_height(wa, n)) as i32,
        width: small_width(wa, n) as i32,
        height: small_height(wa, n) as i32,
    }
}

/// How many of the first `i` windows are secondaries (their handle is not
/// the main handle).
pub open spec fn sec_index(ws: Seq<WindowModel>, main: usize, i: int) -> int
    decreases i,
{
    if i <= 0 {
        0
    } else {
        sec_index(ws, main, i - 1) + if ws[i - 1].handle == main {
            0int
        } else {
            1int
        }
    }
}

/// The rectangle the tiling assigns to window `i`.
pub open spec fn target_rect(ws: Seq<WindowModel>, main: usize, wa: Rect, i: int) -> Rect {
    if ws[i].handle == main {
        main_target(wa, ws.len() as int)
    } else {
        secondary_target(wa, ws.len() as int, sec_index(ws, main, i))
    }
}

/// The window sequence with every rectangle replaced by its tiling target.
pub open spec fn retiled(ws: Seq<WindowModel>, main: usize, wa: Rect) -> Seq<WindowModel> {
    Seq::new(
        ws.len(),
        |i: int|
            (WindowModel {
                handle: ws[i].handle,
                title: ws[i].title,
                rect: target_rect(ws, main, wa, i),
            }),
    )
}

/// The commands tiling issues for window `i`: secondaries lose their
/// caption and resize chrome before the move; the main window's border is
/// left untouched.
pub open spec fn window_cmds(ws: Seq<WindowModel>, main: usize, wa: Rect, i: int) -> Seq<Command> {
    if ws[i].handle == main {
        seq![(Command::MoveWindow { target: ws[i].handle, rect: target_rect(ws, main, wa, i) })]
    } else {
        seq![
            (Command::StripChrome { target: ws[i].handle }),
            (Command::MoveWindow { target: ws[i].handle, rect: target_rect(ws, main, wa, i) }),
        ]
    }
}

/// The commands tiling issues for the first `i` windows, in registry
/// order.
pub open spec fn layout_cmds_upto(ws: Seq<WindowModel>, main: usize, wa: Rect, i: int) -> Seq<
    Command,
>
    decreases i,
{
    if i <= 0 {
        Seq::empty()
    } else {
        layout_cmds_upto(ws, main, wa, i - 1) + window_cmds(ws, main, wa, i - 1)
    }
}

/// The commands tiling issues, in registry order.
pub open spec fn layout_cmds(ws: Seq<WindowModel>, main: usize, wa: Rect) -> Seq<Command> {
    layout_cmds_upto(ws, main, wa, ws.len() as int)
}

/// Tiling applies when at least two windows are tracked and a main window
/// is designated.
pub open spec fn tiling_applies(ws: Seq<WindowModel>, main: Option<usize>) -> bool {
    ws.len() >= 2 && main is Some
}

/// Replaces the rectangle of window `i`, leaving handle and title alone.
pub(crate) fn set_window_rect(ws: &mut Vec<crate::registry::TrackedWindow>, i: usize, r: Rect)
    requires
        i < old(ws)@.len(),
    ensures
        final(ws)@.len() == old(ws)@.len(),
        models_of(final(ws)@) == models_of(old(ws)@).update(
            i as int,
            (WindowModel {
                handle: models_of(old(ws)@)[i as int].handle,
                title: models_of(old(ws)@)[i as int].title,
                rect: r,
            }),
        ),
{
    let w = &mut ws[i];
    w.rect = r;
    proof {
        assert(models_of(final(ws)@) =~= models_of(old(ws)@).update(
            i as int,
            (WindowModel {
                handle: models_of(old(ws)@)[i as int].handle,
                title: models_of(old(ws)@)[i as int].title,
                rect: r,
            }),
        ));
    }
}

/// Tiles the registry's windows over the work area: updates the stored
/// rectangles to the tiling targets and returns the chrome and move
/// commands, window by window in registry order. With fewer than two
/// windows, or no main window, nothing changes and no command is issued.
pub fn apply_layout(reg: &mut WindowRegistry, wa: &Rect) -> (cmds: Vec<Command>)
    requires
        old(reg).wf(),
        wa.width >= 0,
        wa.height >= 0,
        old(reg).models().len() < 0x8000_0000,
    ensures
        final(reg).wf(),
        final(reg).main == old(reg).main,
        !tiling_applies(old(reg).models(), old(reg).main) ==> final(reg).models() == old(
            reg,
        ).models() && cmds@ == Seq::<Command>::empty(),
        tiling_applies(old(reg).models(), old(reg).main) ==> final(reg).models() == retiled(
            old(reg).models(),
            old(reg).main->0,
            *wa,
        ) && cmds@ == layout_cmds(old(reg).models(), old(reg).main->0, *wa),
{
    let n = reg.windows.len();
    if n <= 1 {
        return Vec::new();
    }
    let main: usize = match reg.main {
        Some(m) => m,
        None => {
            return Vec::new();
        },
    };
    let ghost ws0 = old(reg).models();
    let sw: i32 = wa.width / (n as i32 - 1);
    let sh: i32 = wa.height / (n as i32);
    let top: i32 = wa.height - sh;
    proof {
        assert(sw == small_width(*wa, n as int));
        assert(sh == small_height(*wa, n as int));
        assert(0 <= sw <= wa.width);
        assert(0 <= sh <= wa.height);
    }
    let mut cmds: Vec<Command> = Vec::new();
    let mut j: usize = 0;
    let mut i: usize = 0;
    while i < n
        invariant
            2 <= n == ws0.len() < 0x8000_0000,
            wa.width >= 0,
            wa.height >= 0,
            sw == small_width(*wa, n as int),
            sh == small_height(*wa, n as int),
            top == wa.height - sh,
            0 <= sw <= wa.width,
            0 <= sh <= wa.height,
            i <= n,
            reg.main == old(reg).main,
            reg.models().len() == n,
            j == sec_index(ws0, main, i as int),
            j <= i,
            forall|k: int| i <= k < n ==> reg.models()[k] == ws0[k],
            forall|k: int|
                0 <= k < i ==> reg.models()[k] == (WindowModel {
                    handle: ws0[k].handle,
                    title: ws0[k].title,
                    rect: target_rect(ws0, main, *wa, k),
                }),
            cmds@ == layout_cmds_upto(ws0, main, *wa, i as int),
        decreases n - i,
    {
        let h = reg.windows[i].handle;
        proof {
            assert(reg.models()[i as int] == ws0[i as int]);
            assert(h == ws0[i as int].handle);
        }
        if h == main {
            let r = Rect { left: 0, top: 0, width: wa.width, height: top };
            proof {
                assert(r == target_rect(ws0, main, *wa, i as int));
            }
            set_window_rect(&mut reg.windows, i, r);
            cmds.push(Command::MoveWindow { target: h, rect: r });
            proof {
                assert(cmds@ == layout_cmds_upto(ws0, main, *wa, i as int + 1));
            }
        } else {
            proof {
                assert(j < n) by {
                    lemma_sec_index_le(ws0, main, i as int);
                }
                assert(j as int * sw as int <= (n - 1) * sw as int) by (nonlinear_arith)
                    requires
                        0 <= j as int <= n - 1,
                        sw >= 0,
                ;
                assert((n - 1) * sw as int <= wa.width) by {
                    lemma_div_times_divisor_le(wa.width as int, n - 1);
                }
            }
            let r = Rect { left: j as i32 * sw, top, width: sw, height: sh };
            proof {
                assert(r == target_rect(ws0, main, *wa, i as int));
            }
            set_window_rect(&mut reg.windows, i, r);
            cmds.push(Command::StripChrome { target: h });
            cmds.push(Command::MoveWindow { target: h, rect: r });
            proof {
                assert(cmds@ == layout_cmds_upto(ws0, main, *wa, i as int + 1));
            }
            j = j + 1;
        }
        i = i + 1;
    }
    proof {
        assert(reg.models() =~= retiled(ws0, main, *wa));
        assert(tracks_handle(reg.models(), main)) by {
            let w = choose|k: int| 0 <= k < ws0.len() && ws0[k].handle == main;
            assert(reg.models()[w].handle == main);
        }
    }
    cmds
}

/// The secondary count over a prefix never exceeds the prefix length.
proof fn lemma_sec_index_le(ws: Seq<WindowModel>, main: usize, i: int)
    requires
        0 <= i,
    ensures
        0 <= sec_index(ws, main, i) <= i,
    decreases i,
{
    if i > 0 {
        lemma_sec_index_le(ws, main, i - 1);
    }
}

/// `(d * (x / d)) <= x` for positive divisors of non-negative values.
proof fn lemma_div_times_divisor_le(x: int, d: int)
    requires
        x >= 0,
        d >= 1,
    ensures
        d * (x / d) <= x,
{
    assert(d * (x / d) <= x) by (nonlinear_arith)
        requires
            x >= 0,
            d >= 1,
    ;
}

/// The secondary count depends only on the window handles.
proof fn lemma_sec_index_same_handles(a: Seq<WindowModel>, b: Seq<WindowModel>, main: usize, i: int)
    requires
        a.len() == b.len(),
        forall|k: int| 0 <= k < a.len() ==> a[k].handle == b[k].handle,
        0 <= i <= a.len(),
    ensures
        sec_index(a, main, i) == sec_index(b, main, i),
    decreases i,
{
    if i > 0 {
        lemma_sec_index_same_handles(a, b, main, i - 1);
    }
}

/// The tiling targets depend only on the window handles, not on the
/// current rectangles.
proof fn lemma_targets_same_handles(a: Seq<WindowModel>, b: Seq<WindowModel>, main: usize, wa: Rect)
    requires
        a.len() == b.len(),
        forall|k: int| 0 <= k < a.len() ==> a[k].handle == b[k].handle,
    ensures
        forall|k: int| 0 <= k < a.len() ==> target_rect(a, main, wa, k) == target_rect(
            b,
            main,
            wa,
            k,
        ),
{
    assert forall|k: int| 0 <= k < a.len() implies target_rect(a, main, wa, k) == target_rect(
        b,
        main,
        wa,
        k,
    ) by {
        lemma_sec_index_same_handles(a, b, main, k);
    }
}

/// The tiling commands depend only on the window handles.
proof fn lemma_layout_cmds_same_handles(
    a: Seq<WindowModel>,
    b: Seq<WindowModel>,
    main: usize,
    wa: Rect,
    i: int,
)
    requires
        a.len() == b.len(),
        forall|k: int| 0 <= k < a.len() ==> a[k].handle == b[k].handle,
        0 <= i <= a.len(),
    ensures
        layout_cmds_upto(a, main, wa, i) == layout_cmds_upto(b, main, wa, i),
    decreases i,
{
    if i > 0 {
        lemma_layout_cmds_same_handles(a, b, main, wa, i - 1);
        lemma_sec_index_same_handles(a, b, main, i - 1);
    }
}

/// Tiling is idempotent: re-tiling an already tiled window sequence
/// assigns every window the rectangle it already has, issues the same
/// commands, and leaves the sequence unchanged.
pub proof fn lemma_tile_idempotent(ws: Seq<WindowModel>, main: usize, wa: Rect)
    ensures
        retiled(retiled(ws, main, wa), main, wa) == retiled(ws, main, wa),
        forall|k: int|
            0 <= k < ws.len() ==> retiled(ws, main, wa)[k].rect == target_rect(
                retiled(ws, main, wa),
                main,
                wa,
                k,
            ),
        layout_cmds(retiled(ws, main, wa), main, wa) == layout_cmds(ws, main, wa),
{
    let t = retiled(ws, main, wa);
    assert(t.len() == ws.len());
    assert(forall|k: int| 0 <= k < ws.len() ==> ws[k].handle == t[k].handle);
    lemma_targets_same_handles(ws, t, main, wa);
    assert(retiled(t, main, wa) =~= t);
    lemma_layout_cmds_same_handles(ws, t, main, wa, ws.len() as int);
}

} // verus!

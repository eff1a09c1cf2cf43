//! The input mirror: edge-triggered mirroring of physical key state to
//! the secondary windows.
//!
//! Each tick the host samples the physical state of every key code into a
//! 256-entry snapshot and names the focused window. For every configured
//! key the mirror compares the snapshot to its own press-state and posts
//! synthetic events to every tracked window except the focused one: a
//! key-down with the previous-state flag clear on a down edge, a key-down
//! with the flag set while the key stays down, and a key-up on an up edge.
//!
//! A key is routed by precedence: a key in the skip table is ignored
//! entirely; otherwise a key in the remap table is mirrored under its
//! substituted code; otherwise a key in the keybind table is mirrored
//! verbatim; all other keys are ignored.

use vstd::prelude::*;

use crate::command::Command;
use crate::config::Config;
use crate::keys::Key;
use crate::registry::{WindowModel, WindowRegistry};

verus! {

/// The key's bit in a 256-entry key-state table.
pub open spec fn down_in(states: Seq<bool>, k: Key) -> bool {
    states[k.code as int]
}

/// The key is in the skip table.
pub open spec fn in_skip(c: Config, k: Key) -> bool {
    c.skip_keybind@.contains(k)
}

/// The key is in the remap table's domain.
pub open spec fn in_remap(c: Config, k: Key) -> bool {
    exists|i: int| 0 <= i < c.remap_keybind@.len() && c.remap_keybind@[i].0 == k
}

/// The key is in the keybind table.
pub open spec fn in_keybind(c: Config, k: Key) -> bool {
    c.keybind@.contains(k)
}

/// The code a remapped key is mirrored under: the second component of the
/// first table entry whose first component is the key. Keys outside the
/// table map to themselves.
pub open spec fn remap_target(m: Seq<(Key, Key)>, k: Key) -> Key
    decreases m.len(),
{
    if m.len() == 0 {
        k
    } else if m[0].0 == k {
        m[0].1
    } else {
        remap_target(m.drop_first(), k)
    }
}

/// How the mirror handles one key.
#[derive(Clone, Copy, PartialEq, Eq, Structural, Debug)]
pub enum Route {
    /// In the skip table: never mirrored.
    Skipped,
    /// In the remap table: mirrored under the carried code.
    Remapped(Key),
    /// In the keybind table: mirrored under its own code.
    Verbatim,
    /// In no table: ignored.
    Unbound,
}

/// The key's route under the documented precedence:
/// skip over remap over keybind over ignored.
pub open spec fn route_spec(c: Config, k: Key) -> Route {
    if in_skip(c, k) {
        Route::Skipped
    } else if in_remap(c, k) {
        Route::Remapped(remap_target(c.remap_keybind@, k))
    } else if in_keybind(c, k) {
        Route::Verbatim
    } else {
        Route::Unbound
    }
}

/// The key takes part in mirroring (routed `Remapped` or `Verbatim`).
pub open spec fn is_active(c: Config, k: Key) -> bool {
    !in_skip(c, k) && (in_remap(c, k) || in_keybind(c, k))
}

/// Key routing is decided by precedence alone: exactly one clause applies
/// to every key, so membership in a stronger table decides the key's
/// handling no matter what the weaker tables say.
pub proof fn lemma_route_precedence(c: Config, k: Key)
    ensures
        in_skip(c, k) ==> route_spec(c, k) == Route::Skipped,
        !in_skip(c, k) && in_remap(c, k) ==> route_spec(c, k) == Route::Remapped(
            remap_target(c.remap_keybind@, k),
        ),
        !in_skip(c, k) && !in_remap(c, k) && in_keybind(c, k) ==> route_spec(c, k)
            == Route::Verbatim,
        !in_skip(c, k) && !in_remap(c, k) && !in_keybind(c, k) ==> route_spec(c, k)
            == Route::Unbound,
        is_active(c, k) == (route_spec(c, k) is Remapped || route_spec(c, k) is Verbatim),
{
}

/// Membership test in a key table.
pub fn key_list_contains(v: &Vec<Key>, k: Key) -> (r: bool)
    ensures
        r == v@.contains(k),
{
    let mut i: usize = 0;
    while i < v.len()
        invariant
            i <= v@.len(),
            forall|j: int| 0 <= j < i ==> v@[j] != k,
        decreases v@.len() - i,
    {
        if v[i].code == k.code {
            proof {
                assert(v@[i as int] == k);
            }
            return true;
        }
        i = i + 1;
    }
    false
}

/// Dropping a prefix without a match leaves the remap target unchanged.
proof fn lemma_remap_target_skip(m: Seq<(Key, Key)>, k: Key, i: int)
    requires
        0 <= i <= m.len(),
        forall|j: int| 0 <= j < i ==> (#[trigger] m[j]).0 != k,
    ensures
        remap_target(m, k) == remap_target(m.skip(i), k),
    decreases i,
{
    if i > 0 {
        lemma_remap_target_skip(m, k, i - 1);
        assert(m.skip(i - 1).len() > 0);
        assert(m.skip(i - 1)[0] == m[i - 1]);
        assert(m.skip(i - 1).drop_first() =~= m.skip(i));
    } else {
        assert(m.skip(0) =~= m);
    }
}

/// Looks the key up in the remap table; `Some` carries the substituted
/// code of the first matching entry.
pub fn remap_lookup(m: &Vec<(Key, Key)>, k: Key) -> (r: Option<Key>)
    ensures
        r is Some == (exists|i: int| 0 <= i < m@.len() && (#[trigger] m@[i]).0 == k),
        r is Some ==> r->0 == remap_target(m@, k),
{
    let mut i: usize = 0;
    while i < m.len()
        invariant
            i <= m@.len(),
            forall|j: int| 0 <= j < i ==> (#[trigger] m@[j]).0 != k,
        decreases m@.len() - i,
    {
        let (from, to) = m[i];
        if from.code == k.code {
            proof {
                assert(m@[i as int].0 == k);
                lemma_remap_target_skip(m@, k, i as int);
                assert(m@.skip(i as int)[0] == m@[i as int]);
            }
            return Some(to);
        }
        i = i + 1;
    }
    None
}

/// Routes one key under the documented precedence.
pub fn route(c: &Config, k: Key) -> (r: Route)
    ensures
        r == route_spec(*c, k),
{
    if key_list_contains(&c.skip_keybind, k) {
        Route::Skipped
    } else {
        match remap_lookup(&c.remap_keybind, k) {
            Some(t) => Route::Remapped(t),
            None => {
                if key_list_contains(&c.keybind, k) {
                    Route::Verbatim
                } else {
                    Route::Unbound
                }
            },
        }
    }
}

/// The key takes part in mirroring.
pub fn is_active_key(c: &Config, k: Key) -> (r: bool)
    ensures
        r == is_active(*c, k),
{
    match route(c, k) {
        Route::Remapped(_) => true,
        Route::Verbatim => true,
        Route::Skipped => false,
        Route::Unbound => false,
    }
}

/// The key events posted to the first `i` targets: one event per target,
/// in target order, all with the same code and flags.
pub open spec fn broadcast_key_upto(
    targets: Seq<usize>,
    code: Key,
    down: bool,
    prev: bool,
    i: int,
) -> Seq<Command>
    decreases i,
{
    if i <= 0 {
        Seq::empty()
    } else {
        broadcast_key_upto(targets, code, down, prev, i - 1).push(
            (Command::PostKey { target: targets[i - 1], code, down, prev_down: prev }),
        )
    }
}

/// One key event per target, in target order.
pub open spec fn broadcast_key(targets: Seq<usize>, code: Key, down: bool, prev: bool) -> Seq<
    Command,
> {
    broadcast_key_upto(targets, code, down, prev, targets.len() as int)
}

/// A broadcast posts exactly one event to each target, in order, all
/// carrying the same code and flags.
pub proof fn lemma_broadcast_key(targets: Seq<usize>, code: Key, down: bool, prev: bool, i: int)
    requires
        0 <= i <= targets.len(),
    ensures
        broadcast_key_upto(targets, code, down, prev, i).len() == i,
        forall|j: int|
            0 <= j < i ==> broadcast_key_upto(targets, code, down, prev, i)[j] == (Command::PostKey {
                target: targets[j],
                code,
                down,
                prev_down: prev,
            }),
    decreases i,
{
    if i > 0 {
        lemma_broadcast_key(targets, code, down, prev, i - 1);
    }
}

/// Appends one key event per target to `out`.
pub(crate) fn push_broadcast(out: &mut Vec<Command>, targets: &Vec<usize>, code: Key, down: bool, prev: bool)
    ensures
        final(out)@ == old(out)@ + broadcast_key(targets@, code, down, prev),
{
    let mut i: usize = 0;
    while i < targets.len()
        invariant
            i <= targets@.len(),
            out@ == old(out)@ + broadcast_key_upto(targets@, code, down, prev, i as int),
        decreases targets@.len() - i,
    {
        out.push(Command::PostKey { target: targets[i], code, down, prev_down: prev });
        proof {
            assert(out@ == old(out)@ + broadcast_key_upto(
                targets@,
                code,
                down,
                prev,
                i as int + 1,
            ));
        }
        i = i + 1;
    }
}

/// The events one key contributes in one tick, given its press-state bit,
/// its physical state, and the code it is mirrored under: a down edge
/// posts key-downs with the previous-state flag clear; a held key posts
/// key-downs with the flag set; an up edge posts key-ups; otherwise
/// nothing.
pub open spec fn per_key_cmds(
    was_down: bool,
    phys_down: bool,
    emit: Key,
    targets: Seq<usize>,
) -> Seq<Command> {
    if phys_down {
        broadcast_key(targets, emit, true, was_down)
    } else if was_down {
        broadcast_key(targets, emit, false, true)
    } else {
        Seq::empty()
    }
}

/// The events the `i`-th keybind entry contributes: keys claimed by the
/// skip or remap table are left to those tables.
pub open spec fn verbatim_item(
    c: Config,
    kb: Seq<bool>,
    snap: Seq<bool>,
    targets: Seq<usize>,
    i: int,
) -> Seq<Command> {
    let k = c.keybind@[i];
    if !in_skip(c, k) && !in_remap(c, k) {
        per_key_cmds(down_in(kb, k), down_in(snap, k), k, targets)
    } else {
        Seq::empty()
    }
}

/// The events of the first `i` keybind entries, in table order.
pub open spec fn verbatim_upto(
    c: Config,
    kb: Seq<bool>,
    snap: Seq<bool>,
    targets: Seq<usize>,
    i: int,
) -> Seq<Command>
    decreases i,
{
    if i <= 0 {
        Seq::empty()
    } else {
        verbatim_upto(c, kb, snap, targets, i - 1) + verbatim_item(c, kb, snap, targets, i - 1)
    }
}

/// The events the `i`-th remap entry contributes: the physical key's
/// edges, mirrored under the substituted code; skipped keys contribute
/// nothing.
pub open spec fn remap_item(
    c: Config,
    kb: Seq<bool>,
    snap: Seq<bool>,
    targets: Seq<usize>,
    i: int,
) -> Seq<Command> {
    let k = c.remap_keybind@[i].0;
    let t = c.remap_keybind@[i].1;
    if !in_skip(c, k) {
        per_key_cmds(down_in(kb, k), down_in(snap, k), t, targets)
    } else {
        Seq::empty()
    }
}

/// The events of the first `i` remap entries, in table order.
pub open spec fn remap_upto(
    c: Config,
    kb: Seq<bool>,
    snap: Seq<bool>,
    targets: Seq<usize>,
    i: int,
) -> Seq<Command>
    decreases i,
{
    if i <= 0 {
        Seq::empty()
    } else {
        remap_upto(c, kb, snap, targets, i - 1) + remap_item(c, kb, snap, targets, i - 1)
    }
}

/// All events of one mirror tick: the keybind table's events, then the
/// remap table's, each in table order.
pub open spec fn mirror_cmds(c: Config, kb: Seq<bool>, snap: Seq<bool>, targets: Seq<usize>) -> Seq<
    Command,
> {
    verbatim_upto(c, kb, snap, targets, c.keybind@.len() as int) + remap_upto(
        c,
        kb,
        snap,
        targets,
        c.remap_keybind@.len() as int,
    )
}

/// The handles of the first `i` windows other than the focused one, in
/// registry order.
pub open spec fn others_upto(ws: Seq<WindowModel>, focused: usize, i: int) -> Seq<usize>
    decreases i,
{
    if i <= 0 {
        Seq::empty()
    } else {
        others_upto(ws, focused, i - 1) + if ws[i - 1].handle == focused {
            Seq::empty()
        } else {
            seq![ws[i - 1].handle]
        }
    }
}

/// The handles of every tracked window except the focused one, in
/// registry order: the receivers of mirrored events.
pub open spec fn other_handles(ws: Seq<WindowModel>, focused: usize) -> Seq<usize> {
    others_upto(ws, focused, ws.len() as int)
}

/// The receivers never include the focused window, and every receiver is
/// a tracked window's handle.
pub proof fn lemma_other_handles(ws: Seq<WindowModel>, focused: usize, i: int)
    requires
        0 <= i <= ws.len(),
    ensures
        forall|j: int|
            0 <= j < others_upto(ws, focused, i).len() ==> (#[trigger] others_upto(
                ws,
                focused,
                i,
            )[j]) != focused,
        forall|j: int|
            0 <= j < others_upto(ws, focused, i).len() ==> crate::registry::tracks_handle(
                ws,
                #[trigger] others_upto(ws, focused, i)[j],
            ),
    decreases i,
{
    if i > 0 {
        lemma_other_handles(ws, focused, i - 1);
        let prev = others_upto(ws, focused, i - 1);
        let cur = others_upto(ws, focused, i);
        assert forall|j: int| 0 <= j < cur.len() implies cur[j] != focused
            && crate::registry::tracks_handle(ws, cur[j]) by {
            if j < prev.len() {
                assert(cur[j] == prev[j]);
            } else {
                assert(ws[i - 1].handle != focused);
                assert(cur[j] == ws[i - 1].handle);
                assert(crate::registry::tracks_handle(ws, cur[j]));
            }
        }
    }
}

/// The press-state after one mirror tick: every key that takes part in
/// mirroring holds its physical state from the snapshot; all other keys
/// keep their old bit.
pub open spec fn next_keyboard(c: Config, kb: Seq<bool>, snap: Seq<bool>) -> Seq<bool> {
    Seq::new(kb.len(), |i: int| if is_active(c, Key { code: i as u8 }) {
        snap[i]
    } else {
        kb[i]
    })
}

/// The press-state invariant: only keys that take part in mirroring are
/// ever recorded as down.
pub open spec fn keyboard_wf(c: Config, kb: Seq<bool>) -> bool {
    &&& kb.len() == 256
    &&& forall|i: int| 0 <= i < 256 && kb[i] ==> is_active(c, Key { code: i as u8 })
}

/// Builds the receiver list: every tracked handle except the focused one.
fn collect_others(reg: &WindowRegistry, focused: usize) -> (r: Vec<usize>)
    ensures
        r@ == other_handles(reg.models(), focused),
{
    let mut r: Vec<usize> = Vec::new();
    let mut i: usize = 0;
    while i < reg.windows.len()
        invariant
            i <= reg.models().len(),
            r@ == others_upto(reg.models(), focused, i as int),
        decreases reg.models().len() - i,
    {
        let h = reg.windows[i].handle;
        proof {
            assert(reg.models()[i as int].handle == h);
        }
        if h != focused {
            r.push(h);
        }
        proof {
            assert(r@ == others_upto(reg.models(), focused, i as int + 1));
        }
        i = i + 1;
    }
    r
}

/// One tick of the input mirror.
///
/// When the focused window is not tracked, nothing is emitted and the
/// press-state is left untouched. Otherwise the tick posts, for each
/// keybind entry and then for each remap entry, that key's edge events to
/// every tracked window except the focused one, and records the physical
/// state of every mirrored key in the press-state.
pub fn mirror_tick(
    c: &Config,
    reg: &WindowRegistry,
    kb: &mut Vec<bool>,
    focused: usize,
    snap: &Vec<bool>,
) -> (cmds: Vec<Command>)
    requires
        old(kb)@.len() == 256,
        snap@.len() == 256,
    ensures
        final(kb)@.len() == 256,
        !reg.tracks(focused) ==> final(kb)@ == old(kb)@ && cmds@ == Seq::<Command>::empty(),
        reg.tracks(focused) ==> cmds@ == mirror_cmds(
            *c,
            old(kb)@,
            snap@,
            other_handles(reg.models(), focused),
        ),
        reg.tracks(focused) ==> final(kb)@ == next_keyboard(*c, old(kb)@, snap@),
        keyboard_wf(*c, old(kb)@) ==> keyboard_wf(*c, final(kb)@),
{
    if !reg.has(focused) {
        return Vec::new();
    }
    let others = collect_others(reg, focused);
    let mut cmds: Vec<Command> = Vec::new();
    let ghost kb0 = kb@;
    let ghost targets = other_handles(reg.models(), focused);

    let mut i: usize = 0;
    while i < c.keybind.len()
        invariant
            kb@ == kb0,
            kb0.len() == 256,
            snap@.len() == 256,
            others@ == targets,
            i <= c.keybind@.len(),
            cmds@ == verbatim_upto(*c, kb0, snap@, targets, i as int),
        decreases c.keybind@.len() - i,
    {
        let k = c.keybind[i];
        if !key_list_contains(&c.skip_keybind, k) && remap_lookup(&c.remap_keybind, k).is_none() {
            let was = kb[k.code as usize];
            let phys = snap[k.code as usize];
            if phys {
                push_broadcast(&mut cmds, &others, k, true, was);
            } else if was {
                push_broadcast(&mut cmds, &others, k, false, true);
            }
        }
        proof {
            assert(cmds@ == verbatim_upto(*c, kb0, snap@, targets, i as int + 1));
        }
        i = i + 1;
    }
    let ghost verbatim_all = verbatim_upto(*c, kb0, snap@, targets, c.keybind@.len() as int);

    let mut i2: usize = 0;
    while i2 < c.remap_keybind.len()
        invariant
            kb@ == kb0,
            kb0.len() == 256,
            snap@.len() == 256,
            others@ == targets,
            i2 <= c.remap_keybind@.len(),
            verbatim_all == verbatim_upto(*c, kb0, snap@, targets, c.keybind@.len() as int),
            cmds@ == verbatim_all + remap_upto(*c, kb0, snap@, targets, i2 as int),
        decreases c.remap_keybind@.len() - i2,
    {
        let (k, t) = c.remap_keybind[i2];
        proof {
            assert(c.remap_keybind@[i2 as int].0 == k);
            assert(c.remap_keybind@[i2 as int].1 == t);
        }
        if !key_list_contains(&c.skip_keybind, k) {
            let was = kb[k.code as usize];
            let phys = snap[k.code as usize];
            if phys {
                push_broadcast(&mut cmds, &others, t, true, was);
            } else if was {
                push_broadcast(&mut cmds, &others, t, false, true);
            }
        }
        proof {
            assert(cmds@ == verbatim_all + remap_upto(*c, kb0, snap@, targets, i2 as int + 1));
        }
        i2 = i2 + 1;
    }

    let mut code: usize = 0;
    while code < 256
        invariant
            code <= 256,
            kb@.len() == 256,
            snap@.len() == 256,
            forall|n: int|
                0 <= n < code ==> kb@[n] == (if is_active(*c, Key { code: n as u8 }) {
                    snap@[n]
                } else {
                    kb0[n]
                }),
            forall|n: int| code <= n < 256 ==> kb@[n] == kb0[n],
        decreases 256 - code,
    {
        if is_active_key(c, Key { code: code as u8 }) {
            let v = snap[code];
            let e = &mut kb[code];
            *e = v;
        }
        code = code + 1;
    }
    proof {
        assert(kb@ =~= next_keyboard(*c, kb0, snap@));
    }
    cmds
}


/// Whether a key takes part in mirroring depends only on the three key
/// tables, not on the rest of the configuration.
pub proof fn lemma_active_same_tables(c1: Config, c2: Config)
    requires
        c1.skip_keybind@ == c2.skip_keybind@,
        c1.remap_keybind@ == c2.remap_keybind@,
        c1.keybind@ == c2.keybind@,
    ensures
        forall|k: Key| is_active(c1, k) == is_active(c2, k),
{
    assert forall|k: Key| is_active(c1, k) == is_active(c2, k) by {
        assert(in_skip(c1, k) == in_skip(c2, k));
        assert(in_keybind(c1, k) == in_keybind(c2, k));
        if in_remap(c1, k) {
            let i = choose|i: int| 0 <= i < c1.remap_keybind@.len() && c1.remap_keybind@[i].0 == k;
            assert(c2.remap_keybind@[i].0 == k);
        }
        if in_remap(c2, k) {
            let i = choose|i: int| 0 <= i < c2.remap_keybind@.len() && c2.remap_keybind@[i].0 == k;
            assert(c1.remap_keybind@[i].0 == k);
        }
    }
}


/// The command posts a key event carrying this code.
pub open spec fn emits_code(cmd: Command, k: Key) -> bool {
    match cmd {
        Command::PostKey { code, .. } => code == k,
        _ => false,
    }
}

/// The command posts a key event into this target list.
pub open spec fn posts_into(cmd: Command, targets: Seq<usize>) -> bool {
    match cmd {
        Command::PostKey { target, .. } => targets.contains(target),
        _ => false,
    }
}

/// Every event of a per-key step is a key event into the target list.
proof fn lemma_per_key_posts(was_down: bool, phys_down: bool, emit: Key, targets: Seq<usize>)
    ensures
        forall|j: int|
            0 <= j < per_key_cmds(was_down, phys_down, emit, targets).len() ==> posts_into(
                #[trigger] per_key_cmds(was_down, phys_down, emit, targets)[j],
                targets,
            ),
{
    if phys_down {
        lemma_broadcast_key(targets, emit, true, was_down, targets.len() as int);
    } else if was_down {
        lemma_broadcast_key(targets, emit, false, true, targets.len() as int);
    }
}

proof fn lemma_verbatim_posts(c: Config, kb: Seq<bool>, snap: Seq<bool>, targets: Seq<usize>, i: int)
    requires
        0 <= i,
    ensures
        forall|j: int|
            0 <= j < verbatim_upto(c, kb, snap, targets, i).len() ==> posts_into(
                #[trigger] verbatim_upto(c, kb, snap, targets, i)[j],
                targets,
            ),
    decreases i,
{
    if i > 0 {
        lemma_verbatim_posts(c, kb, snap, targets, i - 1);
        let prev = verbatim_upto(c, kb, snap, targets, i - 1);
        let item = verbatim_item(c, kb, snap, targets, i - 1);
        let cur = verbatim_upto(c, kb, snap, targets, i);
        assert(cur == prev + item);
        let k = c.keybind@[i - 1];
        lemma_per_key_posts(down_in(kb, k), down_in(snap, k), k, targets);
        assert forall|j: int| 0 <= j < cur.len() implies posts_into(cur[j], targets) by {
            if j < prev.len() {
                assert(cur[j] == prev[j]);
            } else {
                assert(cur[j] == item[j - prev.len()]);
            }
        }
    }
}

proof fn lemma_remap_posts(c: Config, kb: Seq<bool>, snap: Seq<bool>, targets: Seq<usize>, i: int)
    requires
        0 <= i,
    ensures
        forall|j: int|
            0 <= j < remap_upto(c, kb, snap, targets, i).len() ==> posts_into(
                #[trigger] remap_upto(c, kb, snap, targets, i)[j],
                targets,
            ),
    decreases i,
{
    if i > 0 {
        lemma_remap_posts(c, kb, snap, targets, i - 1);
        let prev = remap_upto(c, kb, snap, targets, i - 1);
        let item = remap_item(c, kb, snap, targets, i - 1);
        let cur = remap_upto(c, kb, snap, targets, i);
        assert(cur == prev + item);
        let k = c.remap_keybind@[i - 1].0;
        let t = c.remap_keybind@[i - 1].1;
        lemma_per_key_posts(down_in(kb, k), down_in(snap, k), t, targets);
        assert forall|j: int| 0 <= j < cur.len() implies posts_into(cur[j], targets) by {
            if j < prev.len() {
                assert(cur[j] == prev[j]);
            } else {
                assert(cur[j] == item[j - prev.len()]);
            }
        }
    }
}

/// Every command of a mirror tick is a synthetic key event delivered to a
/// tracked window other than the focused one: the mirror never posts to
/// the window the user is typing into, and never to an untracked window.
pub proof fn lemma_mirror_never_to_focused(
    c: Config,
    kb: Seq<bool>,
    snap: Seq<bool>,
    ws: Seq<WindowModel>,
    focused: usize,
)
    ensures
        forall|j: int|
            0 <= j < mirror_cmds(c, kb, snap, other_handles(ws, focused)).len() ==> ((
            #[trigger] mirror_cmds(c, kb, snap, other_handles(ws, focused))[j])
                matches Command::PostKey { target, .. } && target != focused
                && crate::registry::tracks_handle(ws, target)),
{
    let targets = other_handles(ws, focused);
    lemma_verbatim_posts(c, kb, snap, targets, c.keybind@.len() as int);
    lemma_remap_posts(c, kb, snap, targets, c.remap_keybind@.len() as int);
    lemma_other_handles(ws, focused, ws.len() as int);
    assert forall|j: int| 0 <= j < mirror_cmds(c, kb, snap, targets).len() implies ((
    #[trigger] mirror_cmds(c, kb, snap, targets)[j]) matches Command::PostKey { target, .. }
        && target != focused && crate::registry::tracks_handle(ws, target)) by {
        assert(posts_into(mirror_cmds(c, kb, snap, targets)[j], targets));
        let cmd = mirror_cmds(c, kb, snap, targets)[j];
        match cmd {
            Command::PostKey { target, .. } => {
                let w = choose|w: int| 0 <= w < targets.len() && targets[w] == target;
                assert(targets[w] != focused);
                assert(crate::registry::tracks_handle(ws, targets[w]));
            },
            _ => {},
        }
    }
}

/// Edge-triggered mirroring. For any mirrored key — its press-state bit
/// clear — a physical press observed on two consecutive ticks followed by
/// a release produces, tick by tick: exactly one key-down with the
/// previous-state flag clear to each receiver, then exactly one key-down
/// with the flag set to each receiver, then exactly one key-up to each
/// receiver, in that order; and after the release tick the key's
/// press-state bit is clear again.
pub proof fn lemma_edge_triggered_mirroring(
    c: Config,
    kb0: Seq<bool>,
    s1: Seq<bool>,
    s2: Seq<bool>,
    s3: Seq<bool>,
    k: Key,
    emit: Key,
    targets: Seq<usize>,
)
    requires
        kb0.len() == 256,
        is_active(c, k),
        emit == (if in_remap(c, k) {
            remap_target(c.remap_keybind@, k)
        } else {
            k
        }),
        !down_in(kb0, k),
        down_in(s1, k),
        down_in(s2, k),
        !down_in(s3, k),
    ensures
        ({
            let kb1 = next_keyboard(c, kb0, s1);
            let kb2 = next_keyboard(c, kb1, s2);
            let kb3 = next_keyboard(c, kb2, s3);
            let e1 = per_key_cmds(down_in(kb0, k), down_in(s1, k), emit, targets);
            let e2 = per_key_cmds(down_in(kb1, k), down_in(s2, k), emit, targets);
            let e3 = per_key_cmds(down_in(kb2, k), down_in(s3, k), emit, targets);
            &&& down_in(kb1, k)
            &&& down_in(kb2, k)
            &&& !down_in(kb3, k)
            &&& e1.len() == targets.len()
            &&& forall|j: int|
                0 <= j < targets.len() ==> e1[j] == (Command::PostKey {
                    target: targets[j],
                    code: emit,
                    down: true,
                    prev_down: false,
                })
            &&& e2.len() == targets.len()
            &&& forall|j: int|
                0 <= j < targets.len() ==> e2[j] == (Command::PostKey {
                    target: targets[j],
                    code: emit,
                    down: true,
                    prev_down: true,
                })
            &&& e3.len() == targets.len()
            &&& forall|j: int|
                0 <= j < targets.len() ==> e3[j] == (Command::PostKey {
                    target: targets[j],
                    code: emit,
                    down: false,
                    prev_down: true,
                })
        }),
{
    let kb1 = next_keyboard(c, kb0, s1);
    let kb2 = next_keyboard(c, kb1, s2);
    let kb3 = next_keyboard(c, kb2, s3);
    assert(down_in(kb1, k));
    assert(down_in(kb2, k));
    assert(!down_in(kb3, k));
    lemma_broadcast_key(targets, emit, true, false, targets.len() as int);
    lemma_broadcast_key(targets, emit, true, true, targets.len() as int);
    lemma_broadcast_key(targets, emit, false, true, targets.len() as int);
}

/// Every event of a per-key step carries the step's own code.
proof fn lemma_per_key_code(was_down: bool, phys_down: bool, emit: Key, targets: Seq<usize>)
    ensures
        forall|j: int|
            0 <= j < per_key_cmds(was_down, phys_down, emit, targets).len() ==> emits_code(
                #[trigger] per_key_cmds(was_down, phys_down, emit, targets)[j],
                emit,
            ),
{
    if phys_down {
        lemma_broadcast_key(targets, emit, true, was_down, targets.len() as int);
    } else if was_down {
        lemma_broadcast_key(targets, emit, false, true, targets.len() as int);
    }
}

proof fn lemma_verbatim_no_remapped_code(
    c: Config,
    kb: Seq<bool>,
    snap: Seq<bool>,
    targets: Seq<usize>,
    k: Key,
    i: int,
)
    requires
        0 <= i,
        in_remap(c, k),
    ensures
        forall|j: int|
            0 <= j < verbatim_upto(c, kb, snap, targets, i).len() ==> !emits_code(
                #[trigger] verbatim_upto(c, kb, snap, targets, i)[j],
                k,
            ),
    decreases i,
{
    if i > 0 {
        lemma_verbatim_no_remapped_code(c, kb, snap, targets, k, i - 1);
        let prev = verbatim_upto(c, kb, snap, targets, i - 1);
        let item = verbatim_item(c, kb, snap, targets, i - 1);
        let cur = verbatim_upto(c, kb, snap, targets, i);
        assert(cur == prev + item);
        let kk = c.keybind@[i - 1];
        if !in_skip(c, kk) && !in_remap(c, kk) {
            assert(kk != k);
            lemma_per_key_code(down_in(kb, kk), down_in(snap, kk), kk, targets);
        }
        assert forall|j: int| 0 <= j < cur.len() implies !emits_code(cur[j], k) by {
            if j < prev.len() {
                assert(cur[j] == prev[j]);
            } else {
                assert(cur[j] == item[j - prev.len()]);
            }
        }
    }
}

proof fn lemma_remap_no_foreign_code(
    c: Config,
    kb: Seq<bool>,
    snap: Seq<bool>,
    targets: Seq<usize>,
    k: Key,
    i: int,
)
    requires
        0 <= i <= c.remap_keybind@.len(),
        forall|n: int| 0 <= n < c.remap_keybind@.len() ==> (#[trigger] c.remap_keybind@[n]).1 != k,
    ensures
        forall|j: int|
            0 <= j < remap_upto(c, kb, snap, targets, i).len() ==> !emits_code(
                #[trigger] remap_upto(c, kb, snap, targets, i)[j],
                k,
            ),
    decreases i,
{
    if i > 0 {
        lemma_remap_no_foreign_code(c, kb, snap, targets, k, i - 1);
        let prev = remap_upto(c, kb, snap, targets, i - 1);
        let item = remap_item(c, kb, snap, targets, i - 1);
        let cur = remap_upto(c, kb, snap, targets, i);
        assert(cur == prev + item);
        let kk = c.remap_keybind@[i - 1].0;
        let t = c.remap_keybind@[i - 1].1;
        assert(t != k);
        if !in_skip(c, kk) {
            lemma_per_key_code(down_in(kb, kk), down_in(snap, kk), t, targets);
        }
        assert forall|j: int| 0 <= j < cur.len() implies !emits_code(cur[j], k) by {
            if j < prev.len() {
                assert(cur[j] == prev[j]);
            } else {
                assert(cur[j] == item[j - prev.len()]);
            }
        }
    }
}

/// A remapped physical key is never mirrored under its own code: as long
/// as no remap entry substitutes *to* the key, no event of any mirror tick
/// carries it. Its edges appear only under the substituted code.
pub proof fn lemma_remapped_key_shadowed(
    c: Config,
    kb: Seq<bool>,
    snap: Seq<bool>,
    targets: Seq<usize>,
    k: Key,
)
    requires
        in_remap(c, k),
        forall|n: int| 0 <= n < c.remap_keybind@.len() ==> (#[trigger] c.remap_keybind@[n]).1 != k,
    ensures
        forall|j: int|
            0 <= j < mirror_cmds(c, kb, snap, targets).len() ==> !emits_code(
                #[trigger] mirror_cmds(c, kb, snap, targets)[j],
                k,
            ),
{
    lemma_verbatim_no_remapped_code(c, kb, snap, targets, k, c.keybind@.len() as int);
    lemma_remap_no_foreign_code(c, kb, snap, targets, k, c.remap_keybind@.len() as int);
}

/// Under the built-in tables, left Alt routes to Space, and a mirror tick
/// is the keybind table's events followed by exactly one per-key step for
/// the left Alt key, emitted under the Space code.
pub proof fn lemma_default_remap(c: Config, kb: Seq<bool>, snap: Seq<bool>, targets: Seq<usize>)
    requires
        c.skip_keybind@ == crate::keys::default_skip_spec(),
        c.remap_keybind@ == crate::keys::default_remap_spec(),
    ensures
        route_spec(c, (Key { code: crate::keys::VK_LMENU })) == Route::Remapped(
            (Key { code: crate::keys::VK_SPACE }),
        ),
        mirror_cmds(c, kb, snap, targets) == verbatim_upto(
            c,
            kb,
            snap,
            targets,
            c.keybind@.len() as int,
        ) + per_key_cmds(
            down_in(kb, (Key { code: crate::keys::VK_LMENU })),
            down_in(snap, (Key { code: crate::keys::VK_LMENU })),
            (Key { code: crate::keys::VK_SPACE }),
            targets,
        ),
{
    let lmenu = Key { code: crate::keys::VK_LMENU };
    let space = Key { code: crate::keys::VK_SPACE };
    assert(!in_skip(c, lmenu)) by {
        assert(forall|j: int|
            0 <= j < c.skip_keybind@.len() ==> #[trigger] c.skip_keybind@[j] != lmenu);
    }
    assert(in_remap(c, lmenu)) by {
        assert(c.remap_keybind@[0].0 == lmenu);
    }
    assert(remap_target(c.remap_keybind@, lmenu) == space);
    assert(remap_upto(c, kb, snap, targets, 0) =~= Seq::<Command>::empty());
    assert(remap_upto(c, kb, snap, targets, 1) =~= remap_item(c, kb, snap, targets, 0));
}


/// With a single verbatim key configured and the skip and remap tables
/// empty, a mirror tick is exactly that key's per-key step.
pub proof fn lemma_single_key_mirror(
    c: Config,
    kb: Seq<bool>,
    snap: Seq<bool>,
    targets: Seq<usize>,
    k: Key,
)
    requires
        c.keybind@ == seq![k],
        c.skip_keybind@.len() == 0,
        c.remap_keybind@.len() == 0,
    ensures
        mirror_cmds(c, kb, snap, targets) == per_key_cmds(
            down_in(kb, k),
            down_in(snap, k),
            k,
            targets,
        ),
{
    assert(!in_skip(c, k));
    assert(!in_remap(c, k));
    assert(verbatim_upto(c, kb, snap, targets, 0) =~= Seq::<Command>::empty());
    assert(remap_upto(c, kb, snap, targets, 0) =~= Seq::<Command>::empty());
    assert(c.keybind@[0] == k);
    assert(mirror_cmds(c, kb, snap, targets) =~= per_key_cmds(
        down_in(kb, k),
        down_in(snap, k),
        k,
        targets,
    ));
}

} // verus!

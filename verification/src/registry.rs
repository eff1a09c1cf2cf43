//! The window registry: the set of tracked windows and the designated
//! main window.

use vstd::prelude::*;

use crate::geometry::Rect;

verus! {

/// One tracked application window. The host fills these from the window
/// service's enumeration; the engine owns them afterwards.
#[derive(Debug)]
pub struct TrackedWindow {
    /// The service's opaque identifier for the window.
    pub handle: usize,
    /// The window title at enumeration time, as bytes.
    pub title: Vec<u8>,
    /// The window's rectangle as last known to the engine.
    pub rect: Rect,
}

/// The mathematical value of a tracked window.
pub struct WindowModel {
    pub handle: usize,
    pub title: Seq<u8>,
    pub rect: Rect,
}

impl View for TrackedWindow {
    type V = WindowModel;

    open spec fn view(&self) -> WindowModel {
        WindowModel { handle: self.handle, title: self.title@, rect: self.rect }
    }
}

/// The mathematical values of a window sequence, in order.
pub open spec fn models_of(ws: Seq<TrackedWindow>) -> Seq<WindowModel> {
    ws.map_values(|w: TrackedWindow| w@)
}

impl Clone for TrackedWindow {
    fn clone(&self) -> (r: Self)
        ensures
            r@ == self@,
    {
        TrackedWindow { handle: self.handle, title: copy_bytes(&self.title), rect: self.rect }
    }
}

/// Copies a byte vector element by element.
fn copy_bytes(v: &Vec<u8>) -> (r: Vec<u8>)
    ensures
        r@ == v@,
{
    let mut r: Vec<u8> = Vec::new();
    let mut i: usize = 0;
    while i < v.len()
        invariant
            i <= v@.len(),
            r@ == v@.subrange(0, i as int),
        decreases v@.len() - i,
    {
        r.push(v[i]);
        proof {
            assert(r@ == v@.subrange(0, i as int + 1));
        }
        i = i + 1;
    }
    proof {
        assert(v@.subrange(0, v@.len() as int) == v@);
    }
    r
}

/// The byte with any ASCII capital letter folded to lower case.
pub open spec fn fold_byte(b: u8) -> u8 {
    if 0x41 <= b <= 0x5A {
        (b + 0x20) as u8
    } else {
        b
    }
}

/// The pattern occurs in the title at offset `at`, compared after ASCII
/// case folding.
pub open spec fn matches_at(title: Seq<u8>, pattern: Seq<u8>, at: int) -> bool {
    forall|j: int| 0 <= j < pattern.len() ==> fold_byte(title[at + j]) == fold_byte(#[trigger] pattern[j])
}

/// The pattern occurs somewhere in the title, compared after ASCII case
/// folding. An empty pattern occurs in every title.
pub open spec fn title_matches(title: Seq<u8>, pattern: Seq<u8>) -> bool {
    exists|at: int| 0 <= at <= title.len() - pattern.len() && matches_at(title, pattern, at)
}

/// ASCII case folding of one byte.
fn fold_byte_exec(b: u8) -> (r: u8)
    ensures
        r == fold_byte(b),
{
    if 0x41 <= b && b <= 0x5A {
        b + 0x20
    } else {
        b
    }
}

/// Case-insensitive substring test, the registry's title match.
pub fn title_contains(title: &Vec<u8>, pattern: &Vec<u8>) -> (r: bool)
    ensures
        r == title_matches(title@, pattern@),
{
    if pattern.len() == 0 {
        proof {
            assert(matches_at(title@, pattern@, 0));
        }
        return true;
    }
    if pattern.len() > title.len() {
        return false;
    }
    let last: usize = title.len() - pattern.len();
    let mut at: usize = 0;
    while at <= last
        invariant
            1 <= pattern@.len() <= title@.len(),
            title@.len() <= usize::MAX,
            last == title@.len() - pattern@.len(),
            at <= last + 1,
            forall|a: int| 0 <= a < at ==> !matches_at(title@, pattern@, a),
        decreases last + 1 - at,
    {
        let mut j: usize = 0;
        let mut hit: bool = true;
        while j < pattern.len()
            invariant
                pattern@.len() <= title@.len(),
                title@.len() <= usize::MAX,
                at <= title@.len() - pattern@.len(),
                j <= pattern@.len(),
                hit ==> forall|k: int|
                    0 <= k < j ==> fold_byte(title@[at + k]) == fold_byte(#[trigger] pattern@[k]),
                !hit ==> !matches_at(title@, pattern@, at as int),
            decreases pattern@.len() - j,
        {
            if fold_byte_exec(title[at + j]) != fold_byte_exec(pattern[j]) {
                proof {
                    assert(!matches_at(title@, pattern@, at as int));
                }
                hit = false;
                j = pattern.len();
            } else {
                j = j + 1;
            }
        }
        if hit {
            proof {
                assert(matches_at(title@, pattern@, at as int));
            }
            return true;
        }
        at = at + 1;
    }
    false
}

/// The registry: the tracked windows in enumeration order, and the handle
/// of the designated main window, if any.
pub struct WindowRegistry {
    pub windows: Vec<TrackedWindow>,
    pub main: Option<usize>,
}

/// The windows matching the pattern among the first `i` enumerated ones,
/// in enumeration order.
pub open spec fn matched_upto(entries: Seq<WindowModel>, pattern: Seq<u8>, i: int) -> Seq<
    WindowModel,
>
    decreases i,
{
    if i <= 0 {
        Seq::empty()
    } else {
        matched_upto(entries, pattern, i - 1) + if title_matches(entries[i - 1].title, pattern) {
            seq![entries[i - 1]]
        } else {
            Seq::empty()
        }
    }
}

/// The windows matching the pattern, in enumeration order.
pub open spec fn matched(entries: Seq<WindowModel>, pattern: Seq<u8>) -> Seq<WindowModel> {
    matched_upto(entries, pattern, entries.len() as int)
}

/// The handles of the first `i` windows, in order.
pub open spec fn handles_upto(ws: Seq<WindowModel>, i: int) -> Seq<usize>
    decreases i,
{
    if i <= 0 {
        Seq::empty()
    } else {
        handles_upto(ws, i - 1).push(ws[i - 1].handle)
    }
}

/// The handles of all windows, in order.
pub open spec fn handles_of(ws: Seq<WindowModel>) -> Seq<usize> {
    handles_upto(ws, ws.len() as int)
}

/// Collects the handles of every tracked window, in registry order.
pub fn collect_handles(reg: &WindowRegistry) -> (r: Vec<usize>)
    ensures
        r@ == handles_of(reg.models()),
{
    let mut r: Vec<usize> = Vec::new();
    let mut i: usize = 0;
    while i < reg.windows.len()
        invariant
            i <= reg.models().len(),
            r@ == handles_upto(reg.models(), i as int),
        decreases reg.models().len() - i,
    {
        let h = reg.windows[i].handle;
        proof {
            assert(reg.models()[i as int].handle == h);
        }
        r.push(h);
        i = i + 1;
    }
    r
}

/// The handle is one of the windows of the sequence.
pub open spec fn tracks_handle(ws: Seq<WindowModel>, handle: usize) -> bool {
    exists|i: int| 0 <= i < ws.len() && ws[i].handle == handle
}

impl WindowRegistry {
    /// The sequence of tracked window values.
    pub open spec fn models(self) -> Seq<WindowModel> {
        models_of(self.windows@)
    }

    /// The handle is one of a tracked window.
    pub open spec fn tracks(self, handle: usize) -> bool {
        tracks_handle(models_of(self.windows@), handle)
    }

    /// The registry invariant: the main handle, when set, always names a
    /// tracked window.
    pub open spec fn wf(self) -> bool {
        match self.main {
            Some(m) => self.tracks(m),
            None => true,
        }
    }

    /// An empty registry with no main window.
    pub fn new() -> (r: WindowRegistry)
        ensures
            r.models() == Seq::<WindowModel>::empty(),
            r.main is None,
            r.wf(),
    {
        let r = WindowRegistry { windows: Vec::new(), main: None };
        proof {
            assert(r.models() == Seq::<WindowModel>::empty());
        }
        r
    }

    /// Membership test for a window handle.
    pub fn has(&self, handle: usize) -> (r: bool)
        ensures
            r == self.tracks(handle),
    {
        let mut i: usize = 0;
        while i < self.windows.len()
            invariant
                i <= self.models().len(),
                forall|k: int| 0 <= k < i ==> self.models()[k].handle != handle,
            decreases self.models().len() - i,
        {
            if self.windows[i].handle == handle {
                proof {
                    assert(self.models()[i as int].handle == handle);
                }
                return true;
            }
            i = i + 1;
        }
        false
    }

    /// Designates the tracked window with this handle as main; does
    /// nothing when the handle is untracked.
    pub fn promote(&mut self, handle: usize)
        requires
            old(self).wf(),
        ensures
            final(self).windows@ == old(self).windows@,
            final(self).main == if old(self).tracks(handle) {
                Some(handle)
            } else {
                old(self).main
            },
            final(self).wf(),
    {
        if self.has(handle) {
            self.main = Some(handle);
            proof {
                assert(self.models() == old(self).models());
                assert(self.tracks(handle));
            }
        }
    }

    /// Replaces the tracked set with the enumerated windows whose titles
    /// contain the pattern. When nothing matches, the previous registry is
    /// kept unchanged and `false` is returned. Otherwise the previous main
    /// window is kept if it is still among the matches, and the first
    /// match becomes main if there was none (or it vanished).
    pub fn refresh(&mut self, pattern: &Vec<u8>, entries: &Vec<TrackedWindow>) -> (updated: bool)
        requires
            old(self).wf(),
        ensures
            final(self).wf(),
            !updated ==> final(self).models() == old(self).models() && final(self).main == old(
                self,
            ).main,
            updated == (matched(models_of(entries@), pattern@).len() != 0),
            updated ==> final(self).models() == matched(models_of(entries@), pattern@),
            updated && old(self).main is Some && final(self).tracks(old(self).main->0)
                ==> final(self).main == old(self).main,
            updated && !(old(self).main is Some && final(self).tracks(old(self).main->0))
                ==> final(self).main == Some(final(self).models()[0].handle),
    {
        let mut found: Vec<TrackedWindow> = Vec::new();
        let mut i: usize = 0;
        while i < entries.len()
            invariant
                i <= entries@.len(),
                models_of(found@) == matched_upto(models_of(entries@), pattern@, i as int),
            decreases entries@.len() - i,
        {
            if title_contains(&entries[i].title, pattern) {
                found.push(entries[i].clone());
            }
            proof {
                assert(models_of(found@) == matched_upto(
                    models_of(entries@),
                    pattern@,
                    i as int + 1,
                ));
            }
            i = i + 1;
        }
        if found.len() == 0 {
            proof {
                assert(models_of(found@).len() == 0);
            }
            return false;
        }
        proof {
            assert(models_of(found@).len() == found@.len());
        }
        let first = found[0].handle;
        proof {
            assert(models_of(found@)[0] == found@[0]@);
        }
        self.windows = found;
        let keep = match self.main {
            Some(m) => self.has(m),
            None => false,
        };
        if !keep {
            proof {
                if old(self).main is Some {
                    assert(!self.tracks(old(self).main->0));
                }
            }
            self.main = Some(first);
            proof {
                assert(self.models()[0].handle == first);
                assert(self.tracks(first));
                if old(self).main is Some {
                    assert(!self.tracks(old(self).main->0));
                }
            }
        } else {
            proof {
                assert(self.main == old(self).main);
                assert(old(self).main matches Some(m) && self.tracks(m));
            }
        }
        true
    }
}

} // verus!

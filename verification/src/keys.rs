//! Virtual-key codes and the built-in key tables.

use vstd::prelude::*;

verus! {

/// A virtual-key code as the operating system's input service reports it.
/// Every code of interest fits in one byte, which lets key-state snapshots
/// be indexed directly by code.
#[derive(Clone, Copy, PartialEq, Eq, Structural, Debug, Hash)]
pub struct Key {
    pub code: u8,
}

// Codes of the keys the built-in tables and the dispatcher refer to.
pub const VK_BACK: u8 = 0x08;
pub const VK_TAB: u8 = 0x09;
pub const VK_RETURN: u8 = 0x0D;
pub const VK_CAPITAL: u8 = 0x14;
pub const VK_ESCAPE: u8 = 0x1B;
pub const VK_SPACE: u8 = 0x20;
pub const VK_PRIOR: u8 = 0x21;
pub const VK_NEXT: u8 = 0x22;
pub const VK_END: u8 = 0x23;
pub const VK_LEFT: u8 = 0x25;
pub const VK_DOWN: u8 = 0x28;
pub const VK_0: u8 = 0x30;
pub const VK_9: u8 = 0x39;
pub const VK_A: u8 = 0x41;
pub const VK_D: u8 = 0x44;
pub const VK_Q: u8 = 0x51;
pub const VK_S: u8 = 0x53;
pub const VK_Z: u8 = 0x5A;
pub const VK_NUMPAD0: u8 = 0x60;
pub const VK_NUMPAD9: u8 = 0x69;
pub const VK_F1: u8 = 0x70;
pub const VK_F12: u8 = 0x7B;
pub const VK_LSHIFT: u8 = 0xA0;
pub const VK_RSHIFT: u8 = 0xA1;
pub const VK_LCONTROL: u8 = 0xA2;
pub const VK_RCONTROL: u8 = 0xA3;
pub const VK_LMENU: u8 = 0xA4;
pub const VK_RMENU: u8 = 0xA5;
pub const VK_OEM_1: u8 = 0xBA;
pub const VK_OEM_COMMA: u8 = 0xBC;
pub const VK_OEM_8: u8 = 0xDF;
pub const VK_OEM_102: u8 = 0xE2;

/// The keys of a contiguous range of codes, in code order.
pub open spec fn key_range_spec(lo: u8, hi: u8) -> Seq<Key> {
    Seq::new((hi - lo + 1) as nat, |i: int| (Key { code: (lo + i) as u8 }))
}

/// The head of the built-in mirror table: modifiers and common editing keys.
pub open spec fn default_keybind_head_spec() -> Seq<Key> {
    seq![
        (Key { code: VK_LCONTROL }),
        (Key { code: VK_LSHIFT }),
        (Key { code: VK_LMENU }),
        (Key { code: VK_RCONTROL }),
        (Key { code: VK_RSHIFT }),
        (Key { code: VK_RMENU }),
        (Key { code: VK_SPACE }),
        (Key { code: VK_OEM_102 }),
        (Key { code: VK_OEM_8 }),
        (Key { code: VK_OEM_COMMA }),
        (Key { code: VK_OEM_1 }),
        (Key { code: VK_RETURN }),
        (Key { code: VK_BACK }),
        (Key { code: VK_TAB }),
        (Key { code: VK_CAPITAL }),
        (Key { code: VK_ESCAPE }),
        (Key { code: VK_PRIOR }),
        (Key { code: VK_NEXT }),
        (Key { code: VK_END }),
    ]
}

/// The built-in set of mirrored keys: the head table followed by the
/// numpad digits, the function keys, the digits, the arrow keys and the
/// letters.
pub open spec fn default_keybind_spec() -> Seq<Key> {
    default_keybind_head_spec() + key_range_spec(VK_NUMPAD0, VK_NUMPAD9) + key_range_spec(
        VK_F1,
        VK_F12,
    ) + key_range_spec(VK_0, VK_9) + key_range_spec(VK_LEFT, VK_DOWN) + key_range_spec(VK_A, VK_Z)
}

/// The built-in remap table: left Alt is mirrored as Space.
pub open spec fn default_remap_spec() -> Seq<(Key, Key)> {
    seq![((Key { code: VK_LMENU }), (Key { code: VK_SPACE }))]
}

/// The built-in skip table: movement keys and Space are never mirrored.
pub open spec fn default_skip_spec() -> Seq<Key> {
    seq![
        (Key { code: VK_D }),
        (Key { code: VK_Q }),
        (Key { code: VK_S }),
        (Key { code: VK_SPACE }),
        (Key { code: VK_Z }),
    ]
}

/// Appends the keys with codes `lo..=hi` to `out`.
fn push_key_range(out: &mut Vec<Key>, lo: u8, hi: u8)
    requires
        lo <= hi,
    ensures
        final(out)@ == old(out)@ + key_range_spec(lo, hi),
{
    let count: usize = (hi - lo) as usize + 1;
    let mut i: usize = 0;
    while i < count
        invariant
            lo <= hi,
            count == hi - lo + 1,
            i <= count,
            out@ == old(out)@ + key_range_spec(lo, hi).subrange(0, i as int),
        decreases count - i,
    {
        out.push(Key { code: lo + i as u8 });
        proof {
            assert(out@ == old(out)@ + key_range_spec(lo, hi).subrange(0, i as int + 1));
        }
        i = i + 1;
    }
    proof {
        assert(key_range_spec(lo, hi).subrange(0, count as int) == key_range_spec(lo, hi));
    }
}

/// The built-in set of mirrored keys.
pub fn default_keybind() -> (r: Vec<Key>)
    ensures
        r@ == default_keybind_spec(),
{
    let mut r: Vec<Key> = Vec::new();
    r.push(Key { code: VK_LCONTROL });
    r.push(Key { code: VK_LSHIFT });
    r.push(Key { code: VK_LMENU });
    r.push(Key { code: VK_RCONTROL });
    r.push(Key { code: VK_RSHIFT });
    r.push(Key { code: VK_RMENU });
    r.push(Key { code: VK_SPACE });
    r.push(Key { code: VK_OEM_102 });
    r.push(Key { code: VK_OEM_8 });
    r.push(Key { code: VK_OEM_COMMA });
    r.push(Key { code: VK_OEM_1 });
    r.push(Key { code: VK_RETURN });
    r.push(Key { code: VK_BACK });
    r.push(Key { code: VK_TAB });
    r.push(Key { code: VK_CAPITAL });
    r.push(Key { code: VK_ESCAPE });
    r.push(Key { code: VK_PRIOR });
    r.push(Key { code: VK_NEXT });
    r.push(Key { code: VK_END });
    proof {
        assert(r@ == default_keybind_head_spec());
    }
    push_key_range(&mut r, VK_NUMPAD0, VK_NUMPAD9);
    push_key_range(&mut r, VK_F1, VK_F12);
    push_key_range(&mut r, VK_0, VK_9);
    push_key_range(&mut r, VK_LEFT, VK_DOWN);
    push_key_range(&mut r, VK_A, VK_Z);
    proof {
        assert(r@ == default_keybind_spec());
    }
    r
}

/// The built-in remap table.
pub fn default_remap() -> (r: Vec<(Key, Key)>)
    ensures
        r@ == default_remap_spec(),
{
    let mut r: Vec<(Key, Key)> = Vec::new();
    r.push((Key { code: VK_LMENU }, Key { code: VK_SPACE }));
    proof {
        assert(r@ == default_remap_spec());
    }
    r
}

/// The built-in skip table.
pub fn default_skip() -> (r: Vec<Key>)
    ensures
        r@ == default_skip_spec(),
{
    let mut r: Vec<Key> = Vec::new();
    r.push(Key { code: VK_D });
    r.push(Key { code: VK_Q });
    r.push(Key { code: VK_S });
    r.push(Key { code: VK_SPACE });
    r.push(Key { code: VK_Z });
    proof {
        assert(r@ == default_skip_spec());
    }
    r
}

} // verus!

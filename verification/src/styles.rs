//! Window-style words: the bit masks that give a window its caption and
//! resize chrome, and the edits that strip or restore them.
//!
//! The host reads a window's two style words from the window service,
//! passes them through [`chrome_style_words`], and writes the results
//! back; the service then redraws the frame.

use vstd::prelude::*;

verus! {

// The style bits that make up a window's caption and resize chrome.
pub const WS_CAPTION: u64 = 0x00C0_0000;
pub const WS_THICKFRAME: u64 = 0x0004_0000;
pub const WS_MINIMIZEBOX: u64 = 0x0002_0000;
pub const WS_MAXIMIZEBOX: u64 = 0x0001_0000;
pub const WS_SYSMENU: u64 = 0x0008_0000;

// The extended-style bits that draw a window's border edges.
pub const WS_EX_DLGMODALFRAME: u64 = 0x0000_0001;
pub const WS_EX_CLIENTEDGE: u64 = 0x0000_0200;
pub const WS_EX_STATICEDGE: u64 = 0x0002_0000;

/// All chrome bits of the primary style word.
pub const CHROME_STYLE_MASK: u64 = WS_CAPTION | WS_THICKFRAME | WS_MINIMIZEBOX | WS_MAXIMIZEBOX
    | WS_SYSMENU;

/// All border bits of the extended style word.
pub const CHROME_EX_STYLE_MASK: u64 = WS_EX_DLGMODALFRAME | WS_EX_CLIENTEDGE | WS_EX_STATICEDGE;

/// A window's style words with the chrome bits cleared (`borders` false)
/// or set (`borders` true); every other bit is left as it was.
pub fn chrome_style_words(style: u64, ex_style: u64, borders: bool) -> (r: (u64, u64))
    ensures
        !borders ==> r.0 == (style & !CHROME_STYLE_MASK) && r.1 == (ex_style
            & !CHROME_EX_STYLE_MASK),
        borders ==> r.0 == (style | CHROME_STYLE_MASK) && r.1 == (ex_style
            | CHROME_EX_STYLE_MASK),
{
    if borders {
        (style | CHROME_STYLE_MASK, ex_style | CHROME_EX_STYLE_MASK)
    } else {
        (style & !CHROME_STYLE_MASK, ex_style & !CHROME_EX_STYLE_MASK)
    }
}

} // verus!

use vstd::prelude::*;

verus! {

/// Virtual key reported for either Shift key.
pub const VK_SHIFT: u32 = 0x10;

/// Virtual key reported for either Control key.
pub const VK_CONTROL: u32 = 0x11;

/// Virtual key reported for either Alt key.
pub const VK_MENU: u32 = 0x12;

pub const VK_LSHIFT: u32 = 0xA0;

pub const VK_RSHIFT: u32 = 0xA1;

pub const VK_LCONTROL: u32 = 0xA2;

pub const VK_RCONTROL: u32 = 0xA3;

pub const VK_LMENU: u32 = 0xA4;

pub const VK_RMENU: u32 = 0xA5;

/// Scan code of the left Shift key.
pub const SCAN_LEFT_SHIFT: u32 = 42;

/// Scan code of the right Shift key.
pub const SCAN_RIGHT_SHIFT: u32 = 54;

/// The extended-key bit, in the position a low-level keyboard hook reports it.
pub const EXTENDED_FLAG: u32 = 0x01;

/// Whether a flag word has the extended-key bit set.
pub open spec fn is_extended(flags: u32) -> bool {
    flags & EXTENDED_FLAG != 0
}

/// Whether a key went down or up; `Other` keeps a code that is neither.
#[derive(Clone, Copy, Debug, PartialEq, Eq, Structural)]
pub enum Transition {
    Press,
    Release,
    Other(u64),
}

/// One raw key notification, as a capture backend delivers it.
#[derive(Clone, Copy, Debug, PartialEq, Eq, Structural)]
pub struct RawKeyEvent {
    pub vk_code: u32,
    pub scan_code: u32,
    /// Flag word; the extended-key bit is `EXTENDED_FLAG`.
    pub flags: u32,
    pub transition: Transition,
    /// Set when the event was synthesised by software.
    pub injected: bool,
}

/// The state carried by a normalized message.
#[derive(Clone, Copy, Debug, PartialEq, Eq, Structural)]
pub enum HookKeyState {
    Down,
    Up,
}

/// A normalized, transport-ready key event.
#[derive(Debug)]
pub struct HookMessage {
    pub labels: Vec<String>,
    pub state: HookKeyState,
    pub vk_code: u32,
    pub scan_code: u32,
    pub flags: u32,
}

impl HookMessage {
    /// The labels of the message as sequences of characters.
    pub open spec fn label_seqs(&self) -> Seq<Seq<char>> {
        self.labels@.map_values(|l: String| l@)
    }

    /// A message always has at least one label.
    pub open spec fn wf(&self) -> bool {
        self.labels@.len() > 0
    }
}

impl RawKeyEvent {
    /// Whether the extended-key bit of this event is set.
    pub fn extended(&self) -> (r: bool)
        ensures
            r == is_extended(self.flags),
    {
        self.flags & EXTENDED_FLAG != 0
    }
}

} // verus!

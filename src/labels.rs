use vstd::prelude::*;

verus! {

/// Virtual key of Enter; with the extended bit it is the numeric-pad Enter.
pub const VK_RETURN: u32 = 0x0D;

/// The name of the key with virtual key code `vk`, if the table knows it.
pub open spec fn key_name(vk: u32) -> Option<Seq<char>> {
    match vk {
        0x08 => Some("BackSpace"@),
        0x09 => Some("Tab"@),
        0x0C => Some("Clear"@),
        0x0D => Some("Enter"@),
        0x10 => Some("Shift"@),
        0x13 => Some("Pause"@),
        0x14 => Some("CapsLock"@),
        0x1B => Some("Escape"@),
        0x20 => Some("Space"@),
        0x21 => Some("PageUp"@),
        0x22 => Some("PageDown"@),
        0x23 => Some("End"@),
        0x24 => Some("Home"@),
        0x25 => Some("ArrowLeft"@),
        0x26 => Some("ArrowUp"@),
        0x27 => Some("ArrowRight"@),
        0x28 => Some("ArrowDown"@),
        0x2A => Some("Print"@),
        0x2C => Some("PrintScreen"@),
        0x2D => Some("Insert"@),
        0x2E => Some("Delete"@),
        0x30 => Some("Number0"@),
        0x31 => Some("Number1"@),
        0x32 => Some("Number2"@),
        0x33 => Some("Number3"@),
        0x34 => Some("Number4"@),
        0x35 => Some("Number5"@),
        0x36 => Some("Number6"@),
        0x37 => Some("Number7"@),
        0x38 => Some("Number8"@),
        0x39 => Some("Number9"@),
        0x41 => Some("A"@),
        0x42 => Some("B"@),
        0x43 => Some("C"@),
        0x44 => Some("D"@),
        0x45 => Some("E"@),
        0x46 => Some("F"@),
        0x47 => Some("G"@),
        0x48 => Some("H"@),
        0x49 => Some("I"@),
        0x4A => Some("J"@),
        0x4B => Some("K"@),
        0x4C => Some("L"@),
        0x4D => Some("M"@),
        0x4E => Some("N"@),
        0x4F => Some("O"@),
        0x50 => Some("P"@),
        0x51 => Some("Q"@),
        0x52 => Some("R"@),
        0x53 => Some("S"@),
        0x54 => Some("T"@),
        0x55 => Some("U"@),
        0x56 => Some("V"@),
        0x57 => Some("W"@),
        0x58 => Some("X"@),
        0x59 => Some("Y"@),
        0x5A => Some("Z"@),
        0x5B => Some("LeftWindows"@),
        0x5C => Some("RightWindows"@),
        0x5D => Some("Apps"@),
        0x60 => Some("Numpad0"@),
        0x61 => Some("Numpad1"@),
        0x62 => Some("Numpad2"@),
        0x63 => Some("Numpad3"@),
        0x64 => Some("Numpad4"@),
        0x65 => Some("Numpad5"@),
        0x66 => Some("Numpad6"@),
        0x67 => Some("Numpad7"@),
        0x68 => Some("Numpad8"@),
        0x69 => Some("Numpad9"@),
        0x6A => Some("Multiply"@),
        0x6B => Some("Add"@),
        0x6C => Some("Separator"@),
        0x6D => Some("Subtract"@),
        0x6E => Some("Decimal"@),
        0x6F => Some("Divide"@),
        0x70 => Some("F1"@),
        0x71 => Some("F2"@),
        0x72 => Some("F3"@),
        0x73 => Some("F4"@),
        0x74 => Some("F5"@),
        0x75 => Some("F6"@),
        0x76 => Some("F7"@),
        0x77 => Some("F8"@),
        0x78 => Some("F9"@),
        0x79 => Some("F10"@),
        0x7A => Some("F11"@),
        0x7B => Some("F12"@),
        0x7C => Some("F13"@),
        0x7D => Some("F14"@),
        0x7E => Some("F15"@),
        0x7F => Some("F16"@),
        0x80 => Some("F17"@),
        0x81 => Some("F18"@),
        0x82 => Some("F19"@),
        0x83 => Some("F20"@),
        0x84 => Some("F21"@),
        0x85 => Some("F22"@),
        0x86 => Some("F23"@),
        0x87 => Some("F24"@),
        0x90 => Some("NumLock"@),
        0x91 => Some("ScrollLock"@),
        0xA0 => Some("LeftShift"@),
        0xA1 => Some("RightShift"@),
        0xA2 => Some("LeftControl"@),
        0xA3 => Some("RightControl"@),
        0xA4 => Some("LeftAlt"@),
        0xA5 => Some("RightAlt"@),
        0xBA => Some("SemiColon"@),
        0xBB => Some("Equal"@),
        0xBC => Some("Comma"@),
        0xBD => Some("Minus"@),
        0xBE => Some("Period"@),
        0xBF => Some("Slash"@),
        0xC0 => Some("Grave"@),
        0xDB => Some("LeftBrace"@),
        0xDC => Some("BackwardSlash"@),
        0xDD => Some("RightBrace"@),
        0xDE => Some("Apostrophe"@),
        _ => None,
    }
}

/// The numeric-pad key that reports the navigation key `vk` when it is not
/// extended (Num Lock off), if there is one.
pub open spec fn numpad_alias(vk: u32) -> Option<Seq<char>> {
    match vk {
        0x2D => Some("Numpad0"@),
        0x23 => Some("Numpad1"@),
        0x28 => Some("Numpad2"@),
        0x22 => Some("Numpad3"@),
        0x25 => Some("Numpad4"@),
        0x0C => Some("Numpad5"@),
        0x27 => Some("Numpad6"@),
        0x24 => Some("Numpad7"@),
        0x26 => Some("Numpad8"@),
        0x21 => Some("Numpad9"@),
        0x2E => Some("Decimal"@),
        _ => None,
    }
}

/// The labels of a key, most specific first.
pub open spec fn key_labels(vk: u32, extended: bool) -> Seq<Seq<char>> {
    if vk == VK_RETURN && extended {
        seq!["NumpadEnter"@]
    } else {
        let named = match key_name(vk) {
            Some(n) => seq![n],
            None => Seq::empty(),
        };
        match numpad_alias(vk) {
            Some(a) if !extended => seq![a] + named,
            _ => named,
        }
    }
}

/// Looks up the name of a virtual key code.
pub fn key_name_of(vk: u32) -> (r: Option<&'static str>)
    ensures
        r matches Some(s) ==> key_name(vk) == Some(s@),
        r is None <==> key_name(vk) is None,
{
    match vk {
        0x08 => Some("BackSpace"),
        0x09 => Some("Tab"),
        0x0C => Some("Clear"),
        0x0D => Some("Enter"),
        0x10 => Some("Shift"),
        0x13 => Some("Pause"),
        0x14 => Some("CapsLock"),
        0x1B => Some("Escape"),
        0x20 => Some("Space"),
        0x21 => Some("PageUp"),
        0x22 => Some("PageDown"),
        0x23 => Some("End"),
        0x24 => Some("Home"),
        0x25 => Some("ArrowLeft"),
        0x26 => Some("ArrowUp"),
        0x27 => Some("ArrowRight"),
        0x28 => Some("ArrowDown"),
        0x2A => Some("Print"),
        0x2C => Some("PrintScreen"),
        0x2D => Some("Insert"),
        0x2E => Some("Delete"),
        0x30 => Some("Number0"),
        0x31 => Some("Number1"),
        0x32 => Some("Number2"),
        0x33 => Some("Number3"),
        0x34 => Some("Number4"),
        0x35 => Some("Number5"),
        0x36 => Some("Number6"),
        0x37 => Some("Number7"),
        0x38 => Some("Number8"),
        0x39 => Some("Number9"),
        0x41 => Some("A"),
        0x42 => Some("B"),
        0x43 => Some("C"),
        0x44 => Some("D"),
        0x45 => Some("E"),
        0x46 => Some("F"),
        0x47 => Some("G"),
        0x48 => Some("H"),
        0x49 => Some("I"),
        0x4A => Some("J"),
        0x4B => Some("K"),
        0x4C => Some("L"),
        0x4D => Some("M"),
        0x4E => Some("N"),
        0x4F => Some("O"),
        0x50 => Some("P"),
        0x51 => Some("Q"),
        0x52 => Some("R"),
        0x53 => Some("S"),
        0x54 => Some("T"),
        0x55 => Some("U"),
        0x56 => Some("V"),
        0x57 => Some("W"),
        0x58 => Some("X"),
        0x59 => Some("Y"),
        0x5A => Some("Z"),
        0x5B => Some("LeftWindows"),
        0x5C => Some("RightWindows"),
        0x5D => Some("Apps"),
        0x60 => Some("Numpad0"),
        0x61 => Some("Numpad1"),
        0x62 => Some("Numpad2"),
        0x63 => Some("Numpad3"),
        0x64 => Some("Numpad4"),
        0x65 => Some("Numpad5"),
        0x66 => Some("Numpad6"),
        0x67 => Some("Numpad7"),
        0x68 => Some("Numpad8"),
        0x69 => Some("Numpad9"),
        0x6A => Some("Multiply"),
        0x6B => Some("Add"),
        0x6C => Some("Separator"),
        0x6D => Some("Subtract"),
        0x6E => Some("Decimal"),
        0x6F => Some("Divide"),
        0x70 => Some("F1"),
        0x71 => Some("F2"),
        0x72 => Some("F3"),
        0x73 => Some("F4"),
        0x74 => Some("F5"),
        0x75 => Some("F6"),
        0x76 => Some("F7"),
        0x77 => Some("F8"),
        0x78 => Some("F9"),
        0x79 => Some("F10"),
        0x7A => Some("F11"),
        0x7B => Some("F12"),
        0x7C => Some("F13"),
        0x7D => Some("F14"),
        0x7E => Some("F15"),
        0x7F => Some("F16"),
        0x80 => Some("F17"),
        0x81 => Some("F18"),
        0x82 => Some("F19"),
        0x83 => Some("F20"),
        0x84 => Some("F21"),
        0x85 => Some("F22"),
        0x86 => Some("F23"),
        0x87 => Some("F24"),
        0x90 => Some("NumLock"),
        0x91 => Some("ScrollLock"),
        0xA0 => Some("LeftShift"),
        0xA1 => Some("RightShift"),
        0xA2 => Some("LeftControl"),
        0xA3 => Some("RightControl"),
        0xA4 => Some("LeftAlt"),
        0xA5 => Some("RightAlt"),
        0xBA => Some("SemiColon"),
        0xBB => Some("Equal"),
        0xBC => Some("Comma"),
        0xBD => Some("Minus"),
        0xBE => Some("Period"),
        0xBF => Some("Slash"),
        0xC0 => Some("Grave"),
        0xDB => Some("LeftBrace"),
        0xDC => Some("BackwardSlash"),
        0xDD => Some("RightBrace"),
        0xDE => Some("Apostrophe"),
        _ => None,
    }
}

/// Looks up the numeric-pad alias of a navigation key.
pub fn numpad_alias_of(vk: u32) -> (r: Option<&'static str>)
    ensures
        r matches Some(s) ==> numpad_alias(vk) == Some(s@),
        r is None <==> numpad_alias(vk) is None,
{
    match vk {
        0x2D => Some("Numpad0"),
        0x23 => Some("Numpad1"),
        0x28 => Some("Numpad2"),
        0x22 => Some("Numpad3"),
        0x25 => Some("Numpad4"),
        0x0C => Some("Numpad5"),
        0x27 => Some("Numpad6"),
        0x24 => Some("Numpad7"),
        0x26 => Some("Numpad8"),
        0x21 => Some("Numpad9"),
        0x2E => Some("Decimal"),
        _ => None,
    }
}

/// Resolves a (disambiguated) virtual key and its extended bit to its labels.
pub fn resolve_labels(vk: u32, extended: bool) -> (r: Vec<String>)
    ensures
        r@.map_values(|l: String| l@) == key_labels(vk, extended),
{
    let mut labels: Vec<String> = Vec::new();
    if vk == VK_RETURN && extended {
        labels.push("NumpadEnter".to_owned());
        assert(labels@.map_values(|l: String| l@) =~= key_labels(vk, extended));
        return labels;
    }
    if !extended {
        if let Some(a) = numpad_alias_of(vk) {
            labels.push(a.to_owned());
        }
    }
    if let Some(n) = key_name_of(vk) {
        labels.push(n.to_owned());
    }
    assert(labels@.map_values(|l: String| l@) =~= key_labels(vk, extended));
    labels
}

} // verus!

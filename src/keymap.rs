//! Keyboard: host scancodes to the guest's key codes.
use vstd::prelude::*;

verus! {

/// The guest key code of a USB HID scancode, as the host's keyboard layer numbers
/// keys; keys the guest does not know have none. In order, the codes 1 to 82 are:
/// Escape, F1-F12, Grave, the digits 1-9 and 0, Minus, Equals, Backspace, Tab,
/// the letter rows (Q to P with both brackets and Backslash, CapsLock, A to L with
/// Semicolon, Apostrophe and Return, left Shift, Z to M with Comma, Period, Slash and
/// right Shift), left Ctrl, Application, left Alt, Space, right Alt, right Ctrl,
/// Up, Down, Left, Right, Insert, Delete, Home, End, PageUp, PageDown.
pub open spec fn amkey_of(code: i32) -> Option<u32> {
    match code {
        41i32 => Some(1u32),
        58i32 => Some(2u32),
        59i32 => Some(3u32),
        60i32 => Some(4u32),
        61i32 => Some(5u32),
        62i32 => Some(6u32),
        63i32 => Some(7u32),
        64i32 => Some(8u32),
        65i32 => Some(9u32),
        66i32 => Some(10u32),
        67i32 => Some(11u32),
        68i32 => Some(12u32),
        69i32 => Some(13u32),
        53i32 => Some(14u32),
        30i32 => Some(15u32),
        31i32 => Some(16u32),
        32i32 => Some(17u32),
        33i32 => Some(18u32),
        34i32 => Some(19u32),
        35i32 => Some(20u32),
        36i32 => Some(21u32),
        37i32 => Some(22u32),
        38i32 => Some(23u32),
        39i32 => Some(24u32),
        45i32 => Some(25u32),
        46i32 => Some(26u32),
        42i32 => Some(27u32),
        43i32 => Some(28u32),
        20i32 => Some(29u32),
        26i32 => Some(30u32),
        8i32 => Some(31u32),
        21i32 => Some(32u32),
        23i32 => Some(33u32),
        28i32 => Some(34u32),
        24i32 => Some(35u32),
        12i32 => Some(36u32),
        18i32 => Some(37u32),
        19i32 => Some(38u32),
        47i32 => Some(39u32),
        48i32 => Some(40u32),
        49i32 => Some(41u32),
        57i32 => Some(42u32),
        4i32 => Some(43u32),
        22i32 => Some(44u32),
        7i32 => Some(45u32),
        9i32 => Some(46u32),
        10i32 => Some(47u32),
        11i32 => Some(48u32),
        13i32 => Some(49u32),
        14i32 => Some(50u32),
        15i32 => Some(51u32),
        51i32 => Some(52u32),
        52i32 => Some(53u32),
        40i32 => Some(54u32),
        225i32 => Some(55u32),
        29i32 => Some(56u32),
        27i32 => Some(57u32),
        6i32 => Some(58u32),
        25i32 => Some(59u32),
        5i32 => Some(60u32),
        17i32 => Some(61u32),
        16i32 => Some(62u32),
        54i32 => Some(63u32),
        55i32 => Some(64u32),
        56i32 => Some(65u32),
        229i32 => Some(66u32),
        224i32 => Some(67u32),
        101i32 => Some(68u32),
        226i32 => Some(69u32),
        44i32 => Some(70u32),
        230i32 => Some(71u32),
        228i32 => Some(72u32),
        82i32 => Some(73u32),
        81i32 => Some(74u32),
        80i32 => Some(75u32),
        79i32 => Some(76u32),
        73i32 => Some(77u32),
        76i32 => Some(78u32),
        74i32 => Some(79u32),
        77i32 => Some(80u32),
        75i32 => Some(81u32),
        78i32 => Some(82u32),
        _ => None,
    }
}

/// Maps a host scancode to the guest's key code.
pub fn keycode_to_amkey(code: i32) -> (r: Option<u32>)
    ensures
        r == amkey_of(code),
        r matches Some(k) ==> 1 <= k <= 82,
{
    match code {
        41 => Some(1u32),
        58 => Some(2u32),
        59 => Some(3u32),
        60 => Some(4u32),
        61 => Some(5u32),
        62 => Some(6u32),
        63 => Some(7u32),
        64 => Some(8u32),
        65 => Some(9u32),
        66 => Some(10u32),
        67 => Some(11u32),
        68 => Some(12u32),
        69 => Some(13u32),
        53 => Some(14u32),
        30 => Some(15u32),
        31 => Some(16u32),
        32 => Some(17u32),
        33 => Some(18u32),
        34 => Some(19u32),
        35 => Some(20u32),
        36 => Some(21u32),
        37 => Some(22u32),
        38 => Some(23u32),
        39 => Some(24u32),
        45 => Some(25u32),
        46 => Some(26u32),
        42 => Some(27u32),
        43 => Some(28u32),
        20 => Some(29u32),
        26 => Some(30u32),
        8 => Some(31u32),
        21 => Some(32u32),
        23 => Some(33u32),
        28 => Some(34u32),
        24 => Some(35u32),
        12 => Some(36u32),
        18 => Some(37u32),
        19 => Some(38u32),
        47 => Some(39u32),
        48 => Some(40u32),
        49 => Some(41u32),
        57 => Some(42u32),
        4 => Some(43u32),
        22 => Some(44u32),
        7 => Some(45u32),
        9 => Some(46u32),
        10 => Some(47u32),
        11 => Some(48u32),
        13 => Some(49u32),
        14 => Some(50u32),
        15 => Some(51u32),
        51 => Some(52u32),
        52 => Some(53u32),
        40 => Some(54u32),
        225 => Some(55u32),
        29 => Some(56u32),
        27 => Some(57u32),
        6 => Some(58u32),
        25 => Some(59u32),
        5 => Some(60u32),
        17 => Some(61u32),
        16 => Some(62u32),
        54 => Some(63u32),
        55 => Some(64u32),
        56 => Some(65u32),
        229 => Some(66u32),
        224 => Some(67u32),
        101 => Some(68u32),
        226 => Some(69u32),
        44 => Some(70u32),
        230 => Some(71u32),
        228 => Some(72u32),
        82 => Some(73u32),
        81 => Some(74u32),
        80 => Some(75u32),
        79 => Some(76u32),
        73 => Some(77u32),
        76 => Some(78u32),
        74 => Some(79u32),
        77 => Some(80u32),
        75 => Some(81u32),
        78 => Some(82u32),
        _ => None,
    }
}

} // verus!

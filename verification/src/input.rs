//! Mapping of browser input events onto the desktop: key names to Windows
//! virtual-key and scan codes, button names to button numbers, and the
//! platform input interface that performs them.
use vstd::prelude::*;

use crate::text::{owned, str_eq};

verus! {

/// Why an input event could not be performed.
#[derive(Debug, Clone)]
pub struct InputError {
    pub message: String,
}

/// Keyboard output of a platform.
pub trait KeyboardController {
    /// Sends a key press.
    fn send_key_down(&self, key_code: u32, scan_code: u32) -> Result<(), InputError>;

    /// Sends a key release.
    fn send_key_up(&self, key_code: u32, scan_code: u32) -> Result<(), InputError>;
}

/// Pointer output of a platform.
pub trait MouseController {
    /// Moves the pointer to a screen position.
    fn move_mouse(&self, x: i32, y: i32) -> Result<(), InputError>;

    /// Presses a button (1 left, 2 right, 3 middle) at a position.
    fn send_mouse_down(&self, button: u32, x: i32, y: i32) -> Result<(), InputError>;

    /// Releases a button at a position.
    fn send_mouse_up(&self, button: u32, x: i32, y: i32) -> Result<(), InputError>;

    /// Scrolls by whole wheel steps.
    fn send_scroll(&self, delta_x: i32, delta_y: i32) -> Result<(), InputError>;
}

/// Button number for a button name: "left" 1, "right" 2, "middle" 3, and 1
/// for anything else.
pub open spec fn button_code_spec(button: Seq<char>) -> u32 {
    if button == "left"@ {
        1
    } else if button == "right"@ {
        2
    } else if button == "middle"@ {
        3
    } else {
        1
    }
}

/// Returns the button number for a button name.
pub fn mouse_button_code(button: &str) -> (r: u32)
    ensures
        r == button_code_spec(button@),
{
    if str_eq(button, "left") {
        1
    } else if str_eq(button, "right") {
        2
    } else if str_eq(button, "middle") {
        3
    } else {
        1
    }
}

/// The (virtual-key code, scan code) pair of a key name, as the browser's
/// `KeyboardEvent.code` names keys; `None` for unsupported keys.
pub open spec fn key_codes(key: Seq<char>) -> Option<(u32, u32)> {
    if key == "Delete"@ {
        Some((0x2E, 0x53))
    } else if key == "ArrowUp"@ {
        Some((0x26, 0x48))
    } else if key == "ArrowDown"@ {
        Some((0x28, 0x50))
    } else if key == "ArrowLeft"@ {
        Some((0x25, 0x4B))
    } else if key == "ArrowRight"@ {
        Some((0x27, 0x4D))
    } else if key == "Home"@ {
        Some((0x24, 0x47))
    } else if key == "End"@ {
        Some((0x23, 0x4F))
    } else if key == "PageUp"@ {
        Some((0x21, 0x49))
    } else if key == "PageDown"@ {
        Some((0x22, 0x51))
    } else if key == "Insert"@ {
        Some((0x2D, 0x52))
    } else if key == "KeyA"@ {
        Some((0x41, 0x1E))
    } else if key == "KeyB"@ {
        Some((0x42, 0x30))
    } else if key == "KeyC"@ {
        Some((0x43, 0x2E))
    } else if key == "KeyD"@ {
        Some((0x44, 0x20))
    } else if key == "KeyE"@ {
        Some((0x45, 0x12))
    } else if key == "KeyF"@ {
        Some((0x46, 0x21))
    } else if key == "KeyG"@ {
        Some((0x47, 0x22))
    } else if key == "KeyH"@ {
        Some((0x48, 0x23))
    } else if key == "KeyI"@ {
        Some((0x49, 0x17))
    } else if key == "KeyJ"@ {
        Some((0x4A, 0x24))
    } else if key == "KeyK"@ {
        Some((0x4B, 0x25))
    } else if key == "KeyL"@ {
        Some((0x4C, 0x26))
    } else if key == "KeyM"@ {
        Some((0x4D, 0x32))
    } else if key == "KeyN"@ {
        Some((0x4E, 0x31))
    } else if key == "KeyO"@ {
        Some((0x4F, 0x18))
    } else if key == "KeyP"@ {
        Some((0x50, 0x19))
    } else if key == "KeyQ"@ {
        Some((0x51, 0x10))
    } else if key == "KeyR"@ {
        Some((0x52, 0x13))
    } else if key == "KeyS"@ {
        Some((0x53, 0x1F))
    } else if key == "KeyT"@ {
        Some((0x54, 0x14))
    } else if key == "KeyU"@ {
        Some((0x55, 0x16))
    } else if key == "KeyV"@ {
        Some((0x56, 0x2F))
    } else if key == "KeyW"@ {
        Some((0x57, 0x11))
    } else if key == "KeyX"@ {
        Some((0x58, 0x2D))
    } else if key == "KeyY"@ {
        Some((0x59, 0x15))
    } else if key == "KeyZ"@ {
        Some((0x5A, 0x2C))
    } else if key == "Digit0"@ {
        Some((0x30, 0x0B))
    } else if key == "Digit1"@ {
        Some((0x31, 0x02))
    } else if key == "Digit2"@ {
        Some((0x32, 0x03))
    } else if key == "Digit3"@ {
        Some((0x33, 0x04))
    } else if key == "Digit4"@ {
        Some((0x34, 0x05))
    } else if key == "Digit5"@ {
        Some((0x35, 0x06))
    } else if key == "Digit6"@ {
        Some((0x36, 0x07))
    } else if key == "Digit7"@ {
        Some((0x37, 0x08))
    } else if key == "Digit8"@ {
        Some((0x38, 0x09))
    } else if key == "Digit9"@ {
        Some((0x39, 0x0A))
    } else if key == "F1"@ {
        Some((0x70, 0x3B))
    } else if key == "F2"@ {
        Some((0x71, 0x3C))
    } else if key == "F3"@ {
        Some((0x72, 0x3D))
    } else if key == "F4"@ {
        Some((0x73, 0x3E))
    } else if key == "F5"@ {
        Some((0x74, 0x3F))
    } else if key == "F6"@ {
        Some((0x75, 0x40))
    } else if key == "F7"@ {
        Some((0x76, 0x41))
    } else if key == "F8"@ {
        Some((0x77, 0x42))
    } else if key == "F9"@ {
        Some((0x78, 0x43))
    } else if key == "F10"@ {
        Some((0x79, 0x44))
    } else if key == "F11"@ {
        Some((0x7A, 0x57))
    } else if key == "F12"@ {
        Some((0x7B, 0x58))
    } else if key == "Enter"@ {
        Some((0x0D, 0x1C))
    } else if key == "Space"@ {
        Some((0x20, 0x39))
    } else if key == "Backspace"@ {
        Some((0x08, 0x0E))
    } else if key == "Tab"@ {
        Some((0x09, 0x0F))
    } else if key == "Escape"@ {
        Some((0x1B, 0x01))
    } else if key == "ShiftLeft"@ {
        Some((0xA0, 0x2A))
    } else if key == "ShiftRight"@ {
        Some((0xA1, 0x36))
    } else if key == "ControlLeft"@ {
        Some((0xA2, 0x1D))
    } else if key == "ControlRight"@ {
        Some((0xA3, 0x1D))
    } else if key == "AltLeft"@ {
        Some((0xA4, 0x38))
    } else if key == "AltRight"@ {
        Some((0xA5, 0x38))
    } else if key == "MetaLeft"@ {
        Some((0x5B, 0x5B))
    } else if key == "MetaRight"@ {
        Some((0x5C, 0x5C))
    } else {
        None
    }
}

/// The virtual-key code of a key in the table.
pub open spec fn vk_of(key: Seq<char>) -> u32 {
    key_codes(key).unwrap().0
}

/// The scan code of a key in the table.
pub open spec fn scan_of(key: Seq<char>) -> u32 {
    key_codes(key).unwrap().1
}

proof fn lemma_codes_arrow_left()
    ensures
        key_codes("ArrowLeft"@) == Some((0x25u32, 0x4Bu32)),
{
    reveal_strlit("Delete");
    reveal_strlit("ArrowUp");
    reveal_strlit("ArrowDown");
    reveal_strlit("ArrowLeft");
    assert("ArrowLeft"@.len() != "Delete"@.len());
    assert("ArrowLeft"@.len() != "ArrowUp"@.len());
    assert("ArrowLeft"@[5] != "ArrowDown"@[5]);
}

proof fn lemma_codes_arrow_up()
    ensures
        key_codes("ArrowUp"@) == Some((0x26u32, 0x48u32)),
{
    reveal_strlit("Delete");
    reveal_strlit("ArrowUp");
    assert("ArrowUp"@.len() != "Delete"@.len());
}

proof fn lemma_codes_arrow_right()
    ensures
        key_codes("ArrowRight"@) == Some((0x27u32, 0x4Du32)),
{
    reveal_strlit("Delete");
    reveal_strlit("ArrowUp");
    reveal_strlit("ArrowDown");
    reveal_strlit("ArrowLeft");
    reveal_strlit("ArrowRight");
    assert("ArrowRight"@.len() != "Delete"@.len());
    assert("ArrowRight"@.len() != "ArrowUp"@.len());
    assert("ArrowRight"@.len() != "ArrowDown"@.len());
    assert("ArrowRight"@.len() != "ArrowLeft"@.len());
}

proof fn lemma_codes_arrow_down()
    ensures
        key_codes("ArrowDown"@) == Some((0x28u32, 0x50u32)),
{
    reveal_strlit("Delete");
    reveal_strlit("ArrowUp");
    reveal_strlit("ArrowDown");
    assert("ArrowDown"@.len() != "Delete"@.len());
    assert("ArrowDown"@.len() != "ArrowUp"@.len());
}

proof fn lemma_codes_home()
    ensures
        key_codes("Home"@) == Some((0x24u32, 0x47u32)),
{
    reveal_strlit("Delete");
    reveal_strlit("ArrowUp");
    reveal_strlit("ArrowDown");
    reveal_strlit("ArrowLeft");
    reveal_strlit("ArrowRight");
    reveal_strlit("Home");
    assert("Home"@.len() != "Delete"@.len());
    assert("Home"@.len() != "ArrowUp"@.len());
    assert("Home"@.len() != "ArrowDown"@.len());
    assert("Home"@.len() != "ArrowLeft"@.len());
    assert("Home"@.len() != "ArrowRight"@.len());
}

proof fn lemma_codes_page_up()
    ensures
        key_codes("PageUp"@) == Some((0x21u32, 0x49u32)),
{
    reveal_strlit("Delete");
    reveal_strlit("ArrowUp");
    reveal_strlit("ArrowDown");
    reveal_strlit("ArrowLeft");
    reveal_strlit("ArrowRight");
    reveal_strlit("Home");
    reveal_strlit("End");
    reveal_strlit("PageUp");
    assert("PageUp"@[0] != "Delete"@[0]);
    assert("PageUp"@.len() != "ArrowUp"@.len());
    assert("PageUp"@.len() != "ArrowDown"@.len());
    assert("PageUp"@.len() != "ArrowLeft"@.len());
    assert("PageUp"@.len() != "ArrowRight"@.len());
    assert("PageUp"@.len() != "Home"@.len());
    assert("PageUp"@.len() != "End"@.len());
}

proof fn lemma_codes_end()
    ensures
        key_codes("End"@) == Some((0x23u32, 0x4Fu32)),
{
    reveal_strlit("Delete");
    reveal_strlit("ArrowUp");
    reveal_strlit("ArrowDown");
    reveal_strlit("ArrowLeft");
    reveal_strlit("ArrowRight");
    reveal_strlit("Home");
    reveal_strlit("End");
    assert("End"@.len() != "Delete"@.len());
    assert("End"@.len() != "ArrowUp"@.len());
    assert("End"@.len() != "ArrowDown"@.len());
    assert("End"@.len() != "ArrowLeft"@.len());
    assert("End"@.len() != "ArrowRight"@.len());
    assert("End"@.len() != "Home"@.len());
}

proof fn lemma_codes_page_down()
    ensures
        key_codes("PageDown"@) == Some((0x22u32, 0x51u32)),
{
    reveal_strlit("Delete");
    reveal_strlit("ArrowUp");
    reveal_strlit("ArrowDown");
    reveal_strlit("ArrowLeft");
    reveal_strlit("ArrowRight");
    reveal_strlit("Home");
    reveal_strlit("End");
    reveal_strlit("PageUp");
    reveal_strlit("PageDown");
    assert("PageDown"@.len() != "Delete"@.len());
    assert("PageDown"@.len() != "ArrowUp"@.len());
    assert("PageDown"@.len() != "ArrowDown"@.len());
    assert("PageDown"@.len() != "ArrowLeft"@.len());
    assert("PageDown"@.len() != "ArrowRight"@.len());
    assert("PageDown"@.len() != "Home"@.len());
    assert("PageDown"@.len() != "End"@.len());
    assert("PageDown"@.len() != "PageUp"@.len());
}

/// The arrow keys are where Windows and the PC keyboard put them. Their
/// virtual-key codes start at `VK_LEFT` (0x25) and run Left, Up, Right,
/// Down. Their scan codes are those of the numeric keypad's direction keys:
/// Up sits in the keypad's top row between Home and Page Up, Down in its
/// bottom row between End and Page Down, one row (eight codes) below Up, and
/// Left and Right two apart in the middle row on either side of the
/// keypad's centre, which lies halfway between Up and Down.
pub proof fn law_arrow_keys_layout()
    ensures
        key_codes("ArrowLeft"@) is Some,
        key_codes("ArrowUp"@) is Some,
        key_codes("ArrowRight"@) is Some,
        key_codes("ArrowDown"@) is Some,
        key_codes("Home"@) is Some,
        key_codes("PageUp"@) is Some,
        key_codes("End"@) is Some,
        key_codes("PageDown"@) is Some,
        vk_of("ArrowLeft"@) == 0x25,
        vk_of("ArrowUp"@) == vk_of("ArrowLeft"@) + 1,
        vk_of("ArrowRight"@) == vk_of("ArrowUp"@) + 1,
        vk_of("ArrowDown"@) == vk_of("ArrowRight"@) + 1,
        scan_of("ArrowUp"@) == scan_of("Home"@) + 1,
        scan_of("PageUp"@) == scan_of("ArrowUp"@) + 1,
        scan_of("ArrowDown"@) == scan_of("End"@) + 1,
        scan_of("PageDown"@) == scan_of("ArrowDown"@) + 1,
        scan_of("ArrowDown"@) == scan_of("ArrowUp"@) + 8,
        scan_of("ArrowRight"@) == scan_of("ArrowLeft"@) + 2,
        2 * (scan_of("ArrowLeft"@) + 1) == scan_of("ArrowUp"@) + scan_of("ArrowDown"@),
{
    lemma_codes_arrow_left();
    lemma_codes_arrow_up();
    lemma_codes_arrow_right();
    lemma_codes_arrow_down();
    lemma_codes_home();
    lemma_codes_page_up();
    lemma_codes_end();
    lemma_codes_page_down();
}

/// Looks a key name up in the key table.
pub fn parse_key(key: &str) -> (r: Option<(u32, u32)>)
    ensures
        r == key_codes(key@),
{
    if str_eq(key, "Delete") {
        Some((0x2E, 0x53))
    } else if str_eq(key, "ArrowUp") {
        Some((0x26, 0x48))
    } else if str_eq(key, "ArrowDown") {
        Some((0x28, 0x50))
    } else if str_eq(key, "ArrowLeft") {
        Some((0x25, 0x4B))
    } else if str_eq(key, "ArrowRight") {
        Some((0x27, 0x4D))
    } else if str_eq(key, "Home") {
        Some((0x24, 0x47))
    } else if str_eq(key, "End") {
        Some((0x23, 0x4F))
    } else if str_eq(key, "PageUp") {
        Some((0x21, 0x49))
    } else if str_eq(key, "PageDown") {
        Some((0x22, 0x51))
    } else if str_eq(key, "Insert") {
        Some((0x2D, 0x52))
    } else if str_eq(key, "KeyA") {
        Some((0x41, 0x1E))
    } else if str_eq(key, "KeyB") {
        Some((0x42, 0x30))
    } else if str_eq(key, "KeyC") {
        Some((0x43, 0x2E))
    } else if str_eq(key, "KeyD") {
        Some((0x44, 0x20))
    } else if str_eq(key, "KeyE") {
        Some((0x45, 0x12))
    } else if str_eq(key, "KeyF") {
        Some((0x46, 0x21))
    } else if str_eq(key, "KeyG") {
        Some((0x47, 0x22))
    } else if str_eq(key, "KeyH") {
        Some((0x48, 0x23))
    } else if str_eq(key, "KeyI") {
        Some((0x49, 0x17))
    } else if str_eq(key, "KeyJ") {
        Some((0x4A, 0x24))
    } else if str_eq(key, "KeyK") {
        Some((0x4B, 0x25))
    } else if str_eq(key, "KeyL") {
        Some((0x4C, 0x26))
    } else if str_eq(key, "KeyM") {
        Some((0x4D, 0x32))
    } else if str_eq(key, "KeyN") {
        Some((0x4E, 0x31))
    } else if str_eq(key, "KeyO") {
        Some((0x4F, 0x18))
    } else if str_eq(key, "KeyP") {
        Some((0x50, 0x19))
    } else if str_eq(key, "KeyQ") {
        Some((0x51, 0x10))
    } else if str_eq(key, "KeyR") {
        Some((0x52, 0x13))
    } else if str_eq(key, "KeyS") {
        Some((0x53, 0x1F))
    } else if str_eq(key, "KeyT") {
        Some((0x54, 0x14))
    } else if str_eq(key, "KeyU") {
        Some((0x55, 0x16))
    } else if str_eq(key, "KeyV") {
        Some((0x56, 0x2F))
    } else if str_eq(key, "KeyW") {
        Some((0x57, 0x11))
    } else if str_eq(key, "KeyX") {
        Some((0x58, 0x2D))
    } else if str_eq(key, "KeyY") {
        Some((0x59, 0x15))
    } else if str_eq(key, "KeyZ") {
        Some((0x5A, 0x2C))
    } else if str_eq(key, "Digit0") {
        Some((0x30, 0x0B))
    } else if str_eq(key, "Digit1") {
        Some((0x31, 0x02))
    } else if str_eq(key, "Digit2") {
        Some((0x32, 0x03))
    } else if str_eq(key, "Digit3") {
        Some((0x33, 0x04))
    } else if str_eq(key, "Digit4") {
        Some((0x34, 0x05))
    } else if str_eq(key, "Digit5") {
        Some((0x35, 0x06))
    } else if str_eq(key, "Digit6") {
        Some((0x36, 0x07))
    } else if str_eq(key, "Digit7") {
        Some((0x37, 0x08))
    } else if str_eq(key, "Digit8") {
        Some((0x38, 0x09))
    } else if str_eq(key, "Digit9") {
        Some((0x39, 0x0A))
    } else if str_eq(key, "F1") {
        Some((0x70, 0x3B))
    } else if str_eq(key, "F2") {
        Some((0x71, 0x3C))
    } else if str_eq(key, "F3") {
        Some((0x72, 0x3D))
    } else if str_eq(key, "F4") {
        Some((0x73, 0x3E))
    } else if str_eq(key, "F5") {
        Some((0x74, 0x3F))
    } else if str_eq(key, "F6") {
        Some((0x75, 0x40))
    } else if str_eq(key, "F7") {
        Some((0x76, 0x41))
    } else if str_eq(key, "F8") {
        Some((0x77, 0x42))
    } else if str_eq(key, "F9") {
        Some((0x78, 0x43))
    } else if str_eq(key, "F10") {
        Some((0x79, 0x44))
    } else if str_eq(key, "F11") {
        Some((0x7A, 0x57))
    } else if str_eq(key, "F12") {
        Some((0x7B, 0x58))
    } else if str_eq(key, "Enter") {
        Some((0x0D, 0x1C))
    } else if str_eq(key, "Space") {
        Some((0x20, 0x39))
    } else if str_eq(key, "Backspace") {
        Some((0x08, 0x0E))
    } else if str_eq(key, "Tab") {
        Some((0x09, 0x0F))
    } else if str_eq(key, "Escape") {
        Some((0x1B, 0x01))
    } else if str_eq(key, "ShiftLeft") {
        Some((0xA0, 0x2A))
    } else if str_eq(key, "ShiftRight") {
        Some((0xA1, 0x36))
    } else if str_eq(key, "ControlLeft") {
        Some((0xA2, 0x1D))
    } else if str_eq(key, "ControlRight") {
        Some((0xA3, 0x1D))
    } else if str_eq(key, "AltLeft") {
        Some((0xA4, 0x38))
    } else if str_eq(key, "AltRight") {
        Some((0xA5, 0x38))
    } else if str_eq(key, "MetaLeft") {
        Some((0x5B, 0x5B))
    } else if str_eq(key, "MetaRight") {
        Some((0x5C, 0x5C))
    } else {
        None
    }
}

/// The X11 key code for a PC scan code.
pub fn x11_keycode(scan_code: u32) -> (r: u32)
    requires
        scan_code <= u32::MAX - 8,
    ensures
        r == scan_code + 8,
{
    scan_code + 8
}

/// X11 scrolling as (button, clicks) pairs: vertical first (button 4 up for a
/// positive delta, 5 down for a negative one), then horizontal (7 for
/// positive, 6 for negative); zero deltas give no clicks.
pub open spec fn x11_scroll_spec(delta_x: i32, delta_y: i32) -> Seq<(u32, u32)> {
    let v: Seq<(u32, u32)> = if delta_y > 0 {
        seq![(4u32, delta_y as u32)]
    } else if delta_y < 0 {
        seq![(5u32, (-delta_y) as u32)]
    } else {
        Seq::empty()
    };
    let h: Seq<(u32, u32)> = if delta_x > 0 {
        seq![(7u32, delta_x as u32)]
    } else if delta_x < 0 {
        seq![(6u32, (-delta_x) as u32)]
    } else {
        Seq::empty()
    };
    v + h
}

/// The button clicks that scroll by the given deltas on X11.
pub fn x11_scroll_clicks(delta_x: i32, delta_y: i32) -> (r: Vec<(u32, u32)>)
    requires
        delta_x != i32::MIN,
        delta_y != i32::MIN,
    ensures
        r@ == x11_scroll_spec(delta_x, delta_y),
{
    let mut r: Vec<(u32, u32)> = Vec::new();
    if delta_y > 0 {
        r.push((4, delta_y as u32));
    } else if delta_y < 0 {
        r.push((5, (-delta_y) as u32));
    }
    if delta_x > 0 {
        r.push((7, delta_x as u32));
    } else if delta_x < 0 {
        r.push((6, (-delta_x) as u32));
    }
    assert(r@ == x11_scroll_spec(delta_x, delta_y));
    r
}

/// X11 pointer button that scrolls up one step.
pub const X11_WHEEL_UP: u32 = 4;

/// X11 pointer button that scrolls down one step.
pub const X11_WHEEL_DOWN: u32 = 5;

/// X11 pointer button that scrolls left one step.
pub const X11_WHEEL_LEFT: u32 = 6;

/// X11 pointer button that scrolls right one step.
pub const X11_WHEEL_RIGHT: u32 = 7;

/// X11 scrolling follows the wheel buttons' directions: a positive vertical
/// delta `d` is `d` clicks of the up button and a negative one `-d` clicks of
/// the down button; a positive horizontal delta `d` is `d` clicks of the right
/// button and a negative one `-d` clicks of the left button. Opposite
/// directions never share a button, no delta gives no click, and a diagonal
/// scroll is its vertical clicks followed by its horizontal ones.
pub proof fn law_x11_scroll_directions(dx: i32, dy: i32)
    requires
        dx != i32::MIN,
        dy != i32::MIN,
    ensures
        dx > 0 ==> x11_scroll_spec(dx, 0) == seq![(X11_WHEEL_RIGHT, dx as u32)],
        dx < 0 ==> x11_scroll_spec(dx, 0) == seq![(X11_WHEEL_LEFT, (-dx) as u32)],
        dy > 0 ==> x11_scroll_spec(0, dy) == seq![(X11_WHEEL_UP, dy as u32)],
        dy < 0 ==> x11_scroll_spec(0, dy) == seq![(X11_WHEEL_DOWN, (-dy) as u32)],
        dx != 0 ==> x11_scroll_spec(dx, 0)[0].0 != x11_scroll_spec((-dx) as i32, 0)[0].0 && x11_scroll_spec(dx, 0)[0].1
            == x11_scroll_spec((-dx) as i32, 0)[0].1,
        dy != 0 ==> x11_scroll_spec(0, dy)[0].0 != x11_scroll_spec(0, (-dy) as i32)[0].0 && x11_scroll_spec(0, dy)[0].1
            == x11_scroll_spec(0, (-dy) as i32)[0].1,
        x11_scroll_spec(0, 0).len() == 0,
        x11_scroll_spec(dx, dy) == x11_scroll_spec(0, dy) + x11_scroll_spec(dx, 0),
{
    assert(x11_scroll_spec(dx, dy) =~= x11_scroll_spec(0, dy) + x11_scroll_spec(dx, 0));
    assert(x11_scroll_spec(0, 0) =~= Seq::<(u32, u32)>::empty());
}

/// The Windows wheel amount for a scroll of `delta` steps: 120 per step, as
/// the 32-bit pattern the input record carries.
pub fn windows_wheel_data(delta: i32) -> (r: u32)
    requires
        i32::MIN <= delta * 120 <= i32::MAX,
    ensures
        r == (delta * 120) as u32,
{
    (delta * 120) as u32
}

/// The platform-independent input controller: turns named keys and buttons
/// into platform calls.
pub struct InputController<C> {
    pub controller: C,
}

impl<C: KeyboardController + MouseController> InputController<C> {
    pub fn new(controller: C) -> (r: Self)
        ensures
            r.controller == controller,
    {
        InputController { controller }
    }

    /// `r` is what the platform's pointer move to (`x`, `y`) returned.
    pub open spec fn moved_to(&self, x: i32, y: i32, r: Result<(), InputError>) -> bool {
        call_ensures(C::move_mouse, (&self.controller, x, y), r)
    }

    /// `r` is what the platform returned for pressing the named button's
    /// number at (`x`, `y`).
    pub open spec fn button_pressed(&self, x: i32, y: i32, button: Seq<char>, r: Result<(), InputError>) -> bool {
        call_ensures(C::send_mouse_down, (&self.controller, button_code_spec(button), x, y), r)
    }

    /// `r` is what the platform returned for releasing the named button's
    /// number at (`x`, `y`).
    pub open spec fn button_released(&self, x: i32, y: i32, button: Seq<char>, r: Result<(), InputError>) -> bool {
        call_ensures(C::send_mouse_up, (&self.controller, button_code_spec(button), x, y), r)
    }

    /// `r` is the result of a move to (`x`, `y`) followed by a vertical
    /// scroll of `delta` steps: the move's error when it failed (no scroll is
    /// sent), else the scroll's result.
    pub open spec fn scrolled(&self, x: i32, y: i32, delta: i32, r: Result<(), InputError>) -> bool {
        match r {
            Ok(_) => self.moved_to(x, y, Ok::<(), InputError>(())) && call_ensures(
                C::send_scroll,
                (&self.controller, 0i32, delta),
                r,
            ),
            Err(_) => self.moved_to(x, y, r) || (self.moved_to(x, y, Ok::<(), InputError>(()))
                && call_ensures(C::send_scroll, (&self.controller, 0i32, delta), r)),
        }
    }

    /// `r` is the result of pressing the named key: `Ok` for a key outside
    /// the table, else what the platform returned for its codes.
    pub open spec fn key_pressed(&self, key: Seq<char>, r: Result<(), InputError>) -> bool {
        match key_codes(key) {
            None => r is Ok,
            Some(c) => call_ensures(C::send_key_down, (&self.controller, c.0, c.1), r),
        }
    }

    /// `r` is the result of releasing the named key: `Ok` for a key outside
    /// the table, else what the platform returned for its codes.
    pub open spec fn key_released(&self, key: Seq<char>, r: Result<(), InputError>) -> bool {
        match key_codes(key) {
            None => r is Ok,
            Some(c) => call_ensures(C::send_key_up, (&self.controller, c.0, c.1), r),
        }
    }

    /// Moves the pointer: the result is the platform's, for these coordinates.
    pub fn move_mouse(&self, x: i32, y: i32) -> (r: Result<(), InputError>)
        ensures
            self.moved_to(x, y, r),
    {
        let send = C::move_mouse;
        send(&self.controller, x, y)
    }

    /// Presses a named button at a position: the platform is handed the
    /// button's number and the position, and its result is returned.
    pub fn press_mouse_button(&self, x: i32, y: i32, button: &str) -> (r: Result<(), InputError>)
        ensures
            self.button_pressed(x, y, button@, r),
    {
        let code = mouse_button_code(button);
        let send = C::send_mouse_down;
        send(&self.controller, code, x, y)
    }

    /// Releases a named button at a position: the platform is handed the
    /// button's number and the position, and its result is returned.
    pub fn release_mouse_button(&self, x: i32, y: i32, button: &str) -> (r: Result<(), InputError>)
        ensures
            self.button_released(x, y, button@, r),
    {
        let code = mouse_button_code(button);
        let send = C::send_mouse_up;
        send(&self.controller, code, x, y)
    }

    /// Moves the pointer, then scrolls vertically by `delta` steps. A failed
    /// move is returned and no scroll is sent; after a move that succeeded,
    /// the scroll's result is returned.
    pub fn scroll_mouse(&self, x: i32, y: i32, delta: i32) -> (r: Result<(), InputError>)
        ensures
            self.scrolled(x, y, delta, r),
    {
        let move_to = C::move_mouse;
        let moved = move_to(&self.controller, x, y);
        if moved.is_err() {
            return moved;
        }
        assert(moved->Ok_0 == ());
        let scroll = C::send_scroll;
        scroll(&self.controller, 0, delta)
    }

    /// Presses a named key; unsupported keys are ignored. A supported key's
    /// codes are handed to the platform and its result is returned.
    pub fn press_key(&self, key: &str) -> (r: Result<(), InputError>)
        ensures
            self.key_pressed(key@, r),
    {
        match parse_key(key) {
            Some((key_code, scan_code)) => {
                let send = C::send_key_down;
                send(&self.controller, key_code, scan_code)
            },
            None => Ok(()),
        }
    }

    /// Releases a named key; unsupported keys are ignored. A supported key's
    /// codes are handed to the platform and its result is returned.
    pub fn release_key(&self, key: &str) -> (r: Result<(), InputError>)
        ensures
            self.key_released(key@, r),
    {
        match parse_key(key) {
            Some((key_code, scan_code)) => {
                let send = C::send_key_up;
                send(&self.controller, key_code, scan_code)
            },
            None => Ok(()),
        }
    }

    /// The key table lookup.
    pub fn parse_key(&self, key: &str) -> (r: Option<(u32, u32)>)
        ensures
            r == key_codes(key@),
    {
        parse_key(key)
    }
}

} // verus!

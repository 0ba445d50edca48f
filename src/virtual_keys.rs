//! Windows virtual-key codes.
use vstd::prelude::*;

verus! {

/// A virtual key, as Windows names them.
#[allow(non_camel_case_types)]
#[derive(Debug, Clone, Copy, PartialEq, Eq, PartialOrd, Ord, Hash, Structural)]
pub enum VirtualKey {
    VK_LBUTTON,
    VK_RBUTTON,
    VK_CANCEL,
    VK_MBUTTON,
    VK_XBUTTON1,
    VK_XBUTTON2,
    VK_BACK,
    VK_TAB,
    VK_CLEAR,
    VK_RETURN,
    VK_SHIFT,
    VK_CONTROL,
    VK_MENU,
    VK_PAUSE,
    VK_CAPITAL,
    VK_KANA,
    VK_HANGUEL,
    VK_HANGUL,
    VK_IME_ON,
    VK_JUNJA,
    VK_FINAL,
    VK_HANJA,
    VK_KANJI,
    VK_IME_OFF,
    VK_ESCAPE,
    VK_CONVERT,
    VK_NONCONVERT,
    VK_ACCEPT,
    VK_MODECHANGE,
    VK_SPACE,
    VK_PRIOR,
    VK_NEXT,
    VK_END,
    VK_HOME,
    VK_LEFT,
    VK_UP,
    VK_RIGHT,
    VK_DOWN,
    VK_SELECT,
    VK_PRINT,
    VK_EXECUTE,
    VK_SNAPSHOT,
    VK_INSERT,
    VK_DELETE,
    VK_HELP,
    VK_0,
    VK_1,
    VK_2,
    VK_3,
    VK_4,
    VK_5,
    VK_6,
    VK_7,
    VK_8,
    VK_9,
    VK_A,
    VK_B,
    VK_C,
    VK_D,
    VK_E,
    VK_F,
    VK_G,
    VK_H,
    VK_I,
    VK_J,
    VK_K,
    VK_L,
    VK_M,
    VK_N,
    VK_O,
    VK_P,
    VK_Q,
    VK_R,
    VK_S,
    VK_T,
    VK_U,
    VK_V,
    VK_W,
    VK_X,
    VK_Y,
    VK_Z,
    VK_LWIN,
    VK_RWIN,
    VK_APPS,
    VK_SLEEP,
    VK_NUMPAD0,
    VK_NUMPAD1,
    VK_NUMPAD2,
    VK_NUMPAD3,
    VK_NUMPAD4,
    VK_NUMPAD5,
    VK_NUMPAD6,
    VK_NUMPAD7,
    VK_NUMPAD8,
    VK_NUMPAD9,
    VK_MULTIPLY,
    VK_ADD,
    VK_SEPARATOR,
    VK_SUBTRACT,
    VK_DECIMAL,
    VK_DIVIDE,
    VK_F1,
    VK_F2,
    VK_F3,
    VK_F4,
    VK_F5,
    VK_F6,
    VK_F7,
    VK_F8,
    VK_F9,
    VK_F10,
    VK_F11,
    VK_F12,
    VK_F13,
    VK_F14,
    VK_F15,
    VK_F16,
    VK_F17,
    VK_F18,
    VK_F19,
    VK_F20,
    VK_F21,
    VK_F22,
    VK_F23,
    VK_F24,
    VK_NUMLOCK,
    VK_SCROLL,
    VK_LSHIFT,
    VK_RSHIFT,
    VK_LCONTROL,
    VK_RCONTROL,
    VK_LMENU,
    VK_RMENU,
    VK_BROWSER_BACK,
    VK_BROWSER_FORWARD,
    VK_BROWSER_REFRESH,
    VK_BROWSER_STOP,
    VK_BROWSER_SEARCH,
    VK_BROWSER_FAVORITES,
    VK_BROWSER_HOME,
    VK_VOLUME_MUTE,
    VK_VOLUME_DOWN,
    VK_VOLUME_UP,
    VK_MEDIA_NEXT_TRACK,
    VK_MEDIA_PREV_TRACK,
    VK_MEDIA_STOP,
    VK_MEDIA_PLAY_PAUSE,
    VK_LAUNCH_MAIL,
    VK_LAUNCH_MEDIA_SELECT,
    VK_LAUNCH_APP1,
    VK_LAUNCH_APP2,
    VK_OEM_1,
    VK_OEM_PLUS,
    VK_OEM_COMMA,
    VK_OEM_MINUS,
    VK_OEM_PERIOD,
    VK_OEM_2,
    VK_OEM_3,
    VK_OEM_4,
    VK_OEM_5,
    VK_OEM_6,
    VK_OEM_7,
    VK_OEM_8,
    VK_OEM_102,
    VK_PROCESSKEY,
    VK_PACKET,
    VK_ATTN,
    VK_CRSEL,
    VK_EXSEL,
    VK_EREOF,
    VK_PLAY,
    VK_ZOOM,
    VK_PA1,
    VK_OEM_CLEAR,
}

impl VirtualKey {
    /// The virtual-key code of the key.
    pub open spec fn spec_code(self) -> u16 {
        match self {
            VirtualKey::VK_LBUTTON => 0x01,
            VirtualKey::VK_RBUTTON => 0x02,
            VirtualKey::VK_CANCEL => 0x03,
            VirtualKey::VK_MBUTTON => 0x04,
            VirtualKey::VK_XBUTTON1 => 0x05,
            VirtualKey::VK_XBUTTON2 => 0x06,
            VirtualKey::VK_BACK => 0x08,
            VirtualKey::VK_TAB => 0x09,
            VirtualKey::VK_CLEAR => 0x0C,
            VirtualKey::VK_RETURN => 0x0D,
            VirtualKey::VK_SHIFT => 0x10,
            VirtualKey::VK_CONTROL => 0x11,
            VirtualKey::VK_MENU => 0x12,
            VirtualKey::VK_PAUSE => 0x13,
            VirtualKey::VK_CAPITAL => 0x14,
            VirtualKey::VK_KANA => 0x15,
            VirtualKey::VK_HANGUEL => 0x15,
            VirtualKey::VK_HANGUL => 0x15,
            VirtualKey::VK_IME_ON => 0x16,
            VirtualKey::VK_JUNJA => 0x17,
            VirtualKey::VK_FINAL => 0x18,
            VirtualKey::VK_HANJA => 0x19,
            VirtualKey::VK_KANJI => 0x19,
            VirtualKey::VK_IME_OFF => 0x1A,
            VirtualKey::VK_ESCAPE => 0x1B,
            VirtualKey::VK_CONVERT => 0x1C,
            VirtualKey::VK_NONCONVERT => 0x1D,
            VirtualKey::VK_ACCEPT => 0x1E,
            VirtualKey::VK_MODECHANGE => 0x1F,
            VirtualKey::VK_SPACE => 0x20,
            VirtualKey::VK_PRIOR => 0x21,
            VirtualKey::VK_NEXT => 0x22,
            VirtualKey::VK_END => 0x23,
            VirtualKey::VK_HOME => 0x24,
            VirtualKey::VK_LEFT => 0x25,
            VirtualKey::VK_UP => 0x26,
            VirtualKey::VK_RIGHT => 0x27,
            VirtualKey::VK_DOWN => 0x28,
            VirtualKey::VK_SELECT => 0x29,
            VirtualKey::VK_PRINT => 0x2A,
            VirtualKey::VK_EXECUTE => 0x2B,
            VirtualKey::VK_SNAPSHOT => 0x2C,
            VirtualKey::VK_INSERT => 0x2D,
            VirtualKey::VK_DELETE => 0x2E,
            VirtualKey::VK_HELP => 0x2F,
            VirtualKey::VK_0 => 0x30,
            VirtualKey::VK_1 => 0x31,
            VirtualKey::VK_2 => 0x32,
            VirtualKey::VK_3 => 0x33,
            VirtualKey::VK_4 => 0x34,
            VirtualKey::VK_5 => 0x35,
            VirtualKey::VK_6 => 0x36,
            VirtualKey::VK_7 => 0x37,
            VirtualKey::VK_8 => 0x38,
            VirtualKey::VK_9 => 0x39,
            VirtualKey::VK_A => 0x41,
            VirtualKey::VK_B => 0x42,
            VirtualKey::VK_C => 0x43,
            VirtualKey::VK_D => 0x44,
            VirtualKey::VK_E => 0x45,
            VirtualKey::VK_F => 0x46,
            VirtualKey::VK_G => 0x47,
            VirtualKey::VK_H => 0x48,
            VirtualKey::VK_I => 0x49,
            VirtualKey::VK_J => 0x4A,
            VirtualKey::VK_K => 0x4B,
            VirtualKey::VK_L => 0x4C,
            VirtualKey::VK_M => 0x4D,
            VirtualKey::VK_N => 0x4E,
            VirtualKey::VK_O => 0x4F,
            VirtualKey::VK_P => 0x50,
            VirtualKey::VK_Q => 0x51,
            VirtualKey::VK_R => 0x52,
            VirtualKey::VK_S => 0x53,
            VirtualKey::VK_T => 0x54,
            VirtualKey::VK_U => 0x55,
            VirtualKey::VK_V => 0x56,
            VirtualKey::VK_W => 0x57,
            VirtualKey::VK_X => 0x58,
            VirtualKey::VK_Y => 0x59,
            VirtualKey::VK_Z => 0x5A,
            VirtualKey::VK_LWIN => 0x5B,
            VirtualKey::VK_RWIN => 0x5C,
            VirtualKey::VK_APPS => 0x5D,
            VirtualKey::VK_SLEEP => 0x5F,
            VirtualKey::VK_NUMPAD0 => 0x60,
            VirtualKey::VK_NUMPAD1 => 0x61,
            VirtualKey::VK_NUMPAD2 => 0x62,
            VirtualKey::VK_NUMPAD3 => 0x63,
            VirtualKey::VK_NUMPAD4 => 0x64,
            VirtualKey::VK_NUMPAD5 => 0x65,
            VirtualKey::VK_NUMPAD6 => 0x66,
            VirtualKey::VK_NUMPAD7 => 0x67,
            VirtualKey::VK_NUMPAD8 => 0x68,
            VirtualKey::VK_NUMPAD9 => 0x69,
            VirtualKey::VK_MULTIPLY => 0x6A,
            VirtualKey::VK_ADD => 0x6B,
            VirtualKey::VK_SEPARATOR => 0x6C,
            VirtualKey::VK_SUBTRACT => 0x6D,
            VirtualKey::VK_DECIMAL => 0x6E,
            VirtualKey::VK_DIVIDE => 0x6F,
            VirtualKey::VK_F1 => 0x70,
            VirtualKey::VK_F2 => 0x71,
            VirtualKey::VK_F3 => 0x72,
            VirtualKey::VK_F4 => 0x73,
            VirtualKey::VK_F5 => 0x74,
            VirtualKey::VK_F6 => 0x75,
            VirtualKey::VK_F7 => 0x76,
            VirtualKey::VK_F8 => 0x77,
            VirtualKey::VK_F9 => 0x78,
            VirtualKey::VK_F10 => 0x79,
            VirtualKey::VK_F11 => 0x7A,
            VirtualKey::VK_F12 => 0x7B,
            VirtualKey::VK_F13 => 0x7C,
            VirtualKey::VK_F14 => 0x7D,
            VirtualKey::VK_F15 => 0x7E,
            VirtualKey::VK_F16 => 0x7F,
            VirtualKey::VK_F17 => 0x80,
            VirtualKey::VK_F18 => 0x81,
            VirtualKey::VK_F19 => 0x82,
            VirtualKey::VK_F20 => 0x83,
            VirtualKey::VK_F21 => 0x84,
            VirtualKey::VK_F22 => 0x85,
            VirtualKey::VK_F23 => 0x86,
            VirtualKey::VK_F24 => 0x87,
            VirtualKey::VK_NUMLOCK => 0x90,
            VirtualKey::VK_SCROLL => 0x91,
            VirtualKey::VK_LSHIFT => 0xA0,
            VirtualKey::VK_RSHIFT => 0xA1,
            VirtualKey::VK_LCONTROL => 0xA2,
            VirtualKey::VK_RCONTROL => 0xA3,
            VirtualKey::VK_LMENU => 0xA4,
            VirtualKey::VK_RMENU => 0xA5,
            VirtualKey::VK_BROWSER_BACK => 0xA6,
            VirtualKey::VK_BROWSER_FORWARD => 0xA7,
            VirtualKey::VK_BROWSER_REFRESH => 0xA8,
            VirtualKey::VK_BROWSER_STOP => 0xA9,
            VirtualKey::VK_BROWSER_SEARCH => 0xAA,
            VirtualKey::VK_BROWSER_FAVORITES => 0xAB,
            VirtualKey::VK_BROWSER_HOME => 0xAC,
            VirtualKey::VK_VOLUME_MUTE => 0xAD,
            VirtualKey::VK_VOLUME_DOWN => 0xAE,
            VirtualKey::VK_VOLUME_UP => 0xAF,
            VirtualKey::VK_MEDIA_NEXT_TRACK => 0xB0,
            VirtualKey::VK_MEDIA_PREV_TRACK => 0xB1,
            VirtualKey::VK_MEDIA_STOP => 0xB2,
            VirtualKey::VK_MEDIA_PLAY_PAUSE => 0xB3,
            VirtualKey::VK_LAUNCH_MAIL => 0xB4,
            VirtualKey::VK_LAUNCH_MEDIA_SELECT => 0xB5,
            VirtualKey::VK_LAUNCH_APP1 => 0xB6,
            VirtualKey::VK_LAUNCH_APP2 => 0xB7,
            VirtualKey::VK_OEM_1 => 0xBA,
            VirtualKey::VK_OEM_PLUS => 0xBB,
            VirtualKey::VK_OEM_COMMA => 0xBC,
            VirtualKey::VK_OEM_MINUS => 0xBD,
            VirtualKey::VK_OEM_PERIOD => 0xBE,
            VirtualKey::VK_OEM_2 => 0xBF,
            VirtualKey::VK_OEM_3 => 0xC0,
            VirtualKey::VK_OEM_4 => 0xDB,
            VirtualKey::VK_OEM_5 => 0xDC,
            VirtualKey::VK_OEM_6 => 0xDD,
            VirtualKey::VK_OEM_7 => 0xDE,
            VirtualKey::VK_OEM_8 => 0xDF,
            VirtualKey::VK_OEM_102 => 0xE2,
            VirtualKey::VK_PROCESSKEY => 0xE5,
            VirtualKey::VK_PACKET => 0xE7,
            VirtualKey::VK_ATTN => 0xF6,
            VirtualKey::VK_CRSEL => 0xF7,
            VirtualKey::VK_EXSEL => 0xF8,
            VirtualKey::VK_EREOF => 0xF9,
            VirtualKey::VK_PLAY => 0xFA,
            VirtualKey::VK_ZOOM => 0xFB,
            VirtualKey::VK_PA1 => 0xFD,
            VirtualKey::VK_OEM_CLEAR => 0xFE,
        }
    }

    /// The virtual-key code of the key.
    pub fn code(self) -> (r: u16)
        ensures
            r == self.spec_code(),
    {
        match self {
            VirtualKey::VK_LBUTTON => 0x01,
            VirtualKey::VK_RBUTTON => 0x02,
            VirtualKey::VK_CANCEL => 0x03,
            VirtualKey::VK_MBUTTON => 0x04,
            VirtualKey::VK_XBUTTON1 => 0x05,
            VirtualKey::VK_XBUTTON2 => 0x06,
            VirtualKey::VK_BACK => 0x08,
            VirtualKey::VK_TAB => 0x09,
            VirtualKey::VK_CLEAR => 0x0C,
            VirtualKey::VK_RETURN => 0x0D,
            VirtualKey::VK_SHIFT => 0x10,
            VirtualKey::VK_CONTROL => 0x11,
            VirtualKey::VK_MENU => 0x12,
            VirtualKey::VK_PAUSE => 0x13,
            VirtualKey::VK_CAPITAL => 0x14,
            VirtualKey::VK_KANA => 0x15,
            VirtualKey::VK_HANGUEL => 0x15,
            VirtualKey::VK_HANGUL => 0x15,
            VirtualKey::VK_IME_ON => 0x16,
            VirtualKey::VK_JUNJA => 0x17,
            VirtualKey::VK_FINAL => 0x18,
            VirtualKey::VK_HANJA => 0x19,
            VirtualKey::VK_KANJI => 0x19,
            VirtualKey::VK_IME_OFF => 0x1A,
            VirtualKey::VK_ESCAPE => 0x1B,
            VirtualKey::VK_CONVERT => 0x1C,
            VirtualKey::VK_NONCONVERT => 0x1D,
            VirtualKey::VK_ACCEPT => 0x1E,
            VirtualKey::VK_MODECHANGE => 0x1F,
            VirtualKey::VK_SPACE => 0x20,
            VirtualKey::VK_PRIOR => 0x21,
            VirtualKey::VK_NEXT => 0x22,
            VirtualKey::VK_END => 0x23,
            VirtualKey::VK_HOME => 0x24,
            VirtualKey::VK_LEFT => 0x25,
            VirtualKey::VK_UP => 0x26,
            VirtualKey::VK_RIGHT => 0x27,
            VirtualKey::VK_DOWN => 0x28,
            VirtualKey::VK_SELECT => 0x29,
            VirtualKey::VK_PRINT => 0x2A,
            VirtualKey::VK_EXECUTE => 0x2B,
            VirtualKey::VK_SNAPSHOT => 0x2C,
            VirtualKey::VK_INSERT => 0x2D,
            VirtualKey::VK_DELETE => 0x2E,
            VirtualKey::VK_HELP => 0x2F,
            VirtualKey::VK_0 => 0x30,
            VirtualKey::VK_1 => 0x31,
            VirtualKey::VK_2 => 0x32,
            VirtualKey::VK_3 => 0x33,
            VirtualKey::VK_4 => 0x34,
            VirtualKey::VK_5 => 0x35,
            VirtualKey::VK_6 => 0x36,
            VirtualKey::VK_7 => 0x37,
            VirtualKey::VK_8 => 0x38,
            VirtualKey::VK_9 => 0x39,
            VirtualKey::VK_A => 0x41,
            VirtualKey::VK_B => 0x42,
            VirtualKey::VK_C => 0x43,
            VirtualKey::VK_D => 0x44,
            VirtualKey::VK_E => 0x45,
            VirtualKey::VK_F => 0x46,
            VirtualKey::VK_G => 0x47,
            VirtualKey::VK_H => 0x48,
            VirtualKey::VK_I => 0x49,
            VirtualKey::VK_J => 0x4A,
            VirtualKey::VK_K => 0x4B,
            VirtualKey::VK_L => 0x4C,
            VirtualKey::VK_M => 0x4D,
            VirtualKey::VK_N => 0x4E,
            VirtualKey::VK_O => 0x4F,
            VirtualKey::VK_P => 0x50,
            VirtualKey::VK_Q => 0x51,
            VirtualKey::VK_R => 0x52,
            VirtualKey::VK_S => 0x53,
            VirtualKey::VK_T => 0x54,
            VirtualKey::VK_U => 0x55,
            VirtualKey::VK_V => 0x56,
            VirtualKey::VK_W => 0x57,
            VirtualKey::VK_X => 0x58,
            VirtualKey::VK_Y => 0x59,
            VirtualKey::VK_Z => 0x5A,
            VirtualKey::VK_LWIN => 0x5B,
            VirtualKey::VK_RWIN => 0x5C,
            VirtualKey::VK_APPS => 0x5D,
            VirtualKey::VK_SLEEP => 0x5F,
            VirtualKey::VK_NUMPAD0 => 0x60,
            VirtualKey::VK_NUMPAD1 => 0x61,
            VirtualKey::VK_NUMPAD2 => 0x62,
            VirtualKey::VK_NUMPAD3 => 0x63,
            VirtualKey::VK_NUMPAD4 => 0x64,
            VirtualKey::VK_NUMPAD5 => 0x65,
            VirtualKey::VK_NUMPAD6 => 0x66,
            VirtualKey::VK_NUMPAD7 => 0x67,
            VirtualKey::VK_NUMPAD8 => 0x68,
            VirtualKey::VK_NUMPAD9 => 0x69,
            VirtualKey::VK_MULTIPLY => 0x6A,
            VirtualKey::VK_ADD => 0x6B,
            VirtualKey::VK_SEPARATOR => 0x6C,
            VirtualKey::VK_SUBTRACT => 0x6D,
            VirtualKey::VK_DECIMAL => 0x6E,
            VirtualKey::VK_DIVIDE => 0x6F,
            VirtualKey::VK_F1 => 0x70,
            VirtualKey::VK_F2 => 0x71,
            VirtualKey::VK_F3 => 0x72,
            VirtualKey::VK_F4 => 0x73,
            VirtualKey::VK_F5 => 0x74,
            VirtualKey::VK_F6 => 0x75,
            VirtualKey::VK_F7 => 0x76,
            VirtualKey::VK_F8 => 0x77,
            VirtualKey::VK_F9 => 0x78,
            VirtualKey::VK_F10 => 0x79,
            VirtualKey::VK_F11 => 0x7A,
            VirtualKey::VK_F12 => 0x7B,
            VirtualKey::VK_F13 => 0x7C,
            VirtualKey::VK_F14 => 0x7D,
            VirtualKey::VK_F15 => 0x7E,
            VirtualKey::VK_F16 => 0x7F,
            VirtualKey::VK_F17 => 0x80,
            VirtualKey::VK_F18 => 0x81,
            VirtualKey::VK_F19 => 0x82,
            VirtualKey::VK_F20 => 0x83,
            VirtualKey::VK_F21 => 0x84,
            VirtualKey::VK_F22 => 0x85,
            VirtualKey::VK_F23 => 0x86,
            VirtualKey::VK_F24 => 0x87,
            VirtualKey::VK_NUMLOCK => 0x90,
            VirtualKey::VK_SCROLL => 0x91,
            VirtualKey::VK_LSHIFT => 0xA0,
            VirtualKey::VK_RSHIFT => 0xA1,
            VirtualKey::VK_LCONTROL => 0xA2,
            VirtualKey::VK_RCONTROL => 0xA3,
            VirtualKey::VK_LMENU => 0xA4,
            VirtualKey::VK_RMENU => 0xA5,
            VirtualKey::VK_BROWSER_BACK => 0xA6,
            VirtualKey::VK_BROWSER_FORWARD => 0xA7,
            VirtualKey::VK_BROWSER_REFRESH => 0xA8,
            VirtualKey::VK_BROWSER_STOP => 0xA9,
            VirtualKey::VK_BROWSER_SEARCH => 0xAA,
            VirtualKey::VK_BROWSER_FAVORITES => 0xAB,
            VirtualKey::VK_BROWSER_HOME => 0xAC,
            VirtualKey::VK_VOLUME_MUTE => 0xAD,
            VirtualKey::VK_VOLUME_DOWN => 0xAE,
            VirtualKey::VK_VOLUME_UP => 0xAF,
            VirtualKey::VK_MEDIA_NEXT_TRACK => 0xB0,
            VirtualKey::VK_MEDIA_PREV_TRACK => 0xB1,
            VirtualKey::VK_MEDIA_STOP => 0xB2,
            VirtualKey::VK_MEDIA_PLAY_PAUSE => 0xB3,
            VirtualKey::VK_LAUNCH_MAIL => 0xB4,
            VirtualKey::VK_LAUNCH_MEDIA_SELECT => 0xB5,
            VirtualKey::VK_LAUNCH_APP1 => 0xB6,
            VirtualKey::VK_LAUNCH_APP2 => 0xB7,
            VirtualKey::VK_OEM_1 => 0xBA,
            VirtualKey::VK_OEM_PLUS => 0xBB,
            VirtualKey::VK_OEM_COMMA => 0xBC,
            VirtualKey::VK_OEM_MINUS => 0xBD,
            VirtualKey::VK_OEM_PERIOD => 0xBE,
            VirtualKey::VK_OEM_2 => 0xBF,
            VirtualKey::VK_OEM_3 => 0xC0,
            VirtualKey::VK_OEM_4 => 0xDB,
            VirtualKey::VK_OEM_5 => 0xDC,
            VirtualKey::VK_OEM_6 => 0xDD,
            VirtualKey::VK_OEM_7 => 0xDE,
            VirtualKey::VK_OEM_8 => 0xDF,
            VirtualKey::VK_OEM_102 => 0xE2,
            VirtualKey::VK_PROCESSKEY => 0xE5,
            VirtualKey::VK_PACKET => 0xE7,
            VirtualKey::VK_ATTN => 0xF6,
            VirtualKey::VK_CRSEL => 0xF7,
            VirtualKey::VK_EXSEL => 0xF8,
            VirtualKey::VK_EREOF => 0xF9,
            VirtualKey::VK_PLAY => 0xFA,
            VirtualKey::VK_ZOOM => 0xFB,
            VirtualKey::VK_PA1 => 0xFD,
            VirtualKey::VK_OEM_CLEAR => 0xFE,
        }
    }

    /// The virtual-key code of the key, as a `usize`.
    pub fn to_usize(self) -> (r: usize)
        ensures
            r == self.spec_code() as usize,
    {
        let val: u16 = u16::from(self);
        val as usize
    }
}

impl From<VirtualKey> for u16 {
    fn from(value: VirtualKey) -> (r: u16) {
        value.code()
    }
}

impl vstd::std_specs::convert::FromSpecImpl<VirtualKey> for u16 {
    open spec fn obeys_from_spec() -> bool {
        true
    }

    open spec fn from_spec(v: VirtualKey) -> u16 {
        v.spec_code()
    }
}

} // verus!

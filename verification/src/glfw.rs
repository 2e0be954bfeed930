//! Numeric values of the GLFW constants used by the library.
//!
//! These are the values defined by the GLFW 3.4 C header. They are the
//! vocabulary that the library exchanges with GLFW: error codes, window hints,
//! attribute names, key codes and so on.
use vstd::prelude::*;

verus! {

pub const GLFW_FALSE: u32 = 0;
pub const GLFW_TRUE: u32 = 1;
pub const GLFW_DONT_CARE: i32 = -1;
pub const GLFW_ANY_POSITION: u32 = 0x80000000;

pub const GLFW_RELEASE: u32 = 0;
pub const GLFW_PRESS: u32 = 1;
pub const GLFW_REPEAT: u32 = 2;

// Error codes
pub const GLFW_NO_ERROR: u32 = 0;
pub const GLFW_NOT_INITIALIZED: u32 = 0x00010001;
pub const GLFW_NO_CURRENT_CONTEXT: u32 = 0x00010002;
pub const GLFW_INVALID_ENUM: u32 = 0x00010003;
pub const GLFW_INVALID_VALUE: u32 = 0x00010004;
pub const GLFW_OUT_OF_MEMORY: u32 = 0x00010005;
pub const GLFW_API_UNAVAILABLE: u32 = 0x00010006;
pub const GLFW_VERSION_UNAVAILABLE: u32 = 0x00010007;
pub const GLFW_PLATFORM_ERROR: u32 = 0x00010008;
pub const GLFW_FORMAT_UNAVAILABLE: u32 = 0x00010009;
pub const GLFW_NO_WINDOW_CONTEXT: u32 = 0x0001000A;
pub const GLFW_CURSOR_UNAVAILABLE: u32 = 0x0001000B;
pub const GLFW_FEATURE_UNAVAILABLE: u32 = 0x0001000C;
pub const GLFW_FEATURE_UNIMPLEMENTED: u32 = 0x0001000D;
pub const GLFW_PLATFORM_UNAVAILABLE: u32 = 0x0001000E;

// Window attributes and hints
pub const GLFW_FOCUSED: u32 = 0x00020001;
pub const GLFW_ICONIFIED: u32 = 0x00020002;
pub const GLFW_RESIZABLE: u32 = 0x00020003;
pub const GLFW_VISIBLE: u32 = 0x00020004;
pub const GLFW_DECORATED: u32 = 0x00020005;
pub const GLFW_AUTO_ICONIFY: u32 = 0x00020006;
pub const GLFW_FLOATING: u32 = 0x00020007;
pub const GLFW_MAXIMIZED: u32 = 0x00020008;
pub const GLFW_CENTER_CURSOR: u32 = 0x00020009;
pub const GLFW_TRANSPARENT_FRAMEBUFFER: u32 = 0x0002000A;
pub const GLFW_HOVERED: u32 = 0x0002000B;
pub const GLFW_FOCUS_ON_SHOW: u32 = 0x0002000C;
pub const GLFW_MOUSE_PASSTHROUGH: u32 = 0x0002000D;
pub const GLFW_POSITION_X: u32 = 0x0002000E;
pub const GLFW_POSITION_Y: u32 = 0x0002000F;

pub const GLFW_RED_BITS: u32 = 0x00021001;
pub const GLFW_GREEN_BITS: u32 = 0x00021002;
pub const GLFW_BLUE_BITS: u32 = 0x00021003;
pub const GLFW_ALPHA_BITS: u32 = 0x00021004;
pub const GLFW_DEPTH_BITS: u32 = 0x00021005;
pub const GLFW_STENCIL_BITS: u32 = 0x00021006;
pub const GLFW_STEREO: u32 = 0x0002100C;
pub const GLFW_SAMPLES: u32 = 0x0002100D;
pub const GLFW_SRGB_CAPABLE: u32 = 0x0002100E;
pub const GLFW_REFRESH_RATE: u32 = 0x0002100F;
pub const GLFW_DOUBLEBUFFER: u32 = 0x00021010;

pub const GLFW_CLIENT_API: u32 = 0x00022001;
pub const GLFW_CONTEXT_VERSION_MAJOR: u32 = 0x00022002;
pub const GLFW_CONTEXT_VERSION_MINOR: u32 = 0x00022003;
pub const GLFW_CONTEXT_ROBUSTNESS: u32 = 0x00022005;
pub const GLFW_OPENGL_FORWARD_COMPAT: u32 = 0x00022006;
pub const GLFW_CONTEXT_DEBUG: u32 = 0x00022007;
pub const GLFW_OPENGL_PROFILE: u32 = 0x00022008;
pub const GLFW_CONTEXT_RELEASE_BEHAVIOR: u32 = 0x00022009;
pub const GLFW_CONTEXT_NO_ERROR: u32 = 0x0002200A;
pub const GLFW_CONTEXT_CREATION_API: u32 = 0x0002200B;
pub const GLFW_SCALE_TO_MONITOR: u32 = 0x0002200C;
pub const GLFW_SCALE_FRAMEBUFFER: u32 = 0x0002200D;
pub const GLFW_COCOA_FRAME_NAME: u32 = 0x00023002;
pub const GLFW_COCOA_GRAPHICS_SWITCHING: u32 = 0x00023003;
pub const GLFW_X11_CLASS_NAME: u32 = 0x00024001;
pub const GLFW_X11_INSTANCE_NAME: u32 = 0x00024002;
pub const GLFW_WIN32_KEYBOARD_MENU: u32 = 0x00025001;
pub const GLFW_WIN32_SHOWDEFAULT: u32 = 0x00025002;
pub const GLFW_WAYLAND_APP_ID: u32 = 0x00026001;

pub const GLFW_NO_API: u32 = 0;
pub const GLFW_OPENGL_API: u32 = 0x00030001;
pub const GLFW_OPENGL_ES_API: u32 = 0x00030002;
pub const GLFW_NO_ROBUSTNESS: u32 = 0;
pub const GLFW_NO_RESET_NOTIFICATION: u32 = 0x00031001;
pub const GLFW_LOSE_CONTEXT_ON_RESET: u32 = 0x00031002;
pub const GLFW_OPENGL_ANY_PROFILE: u32 = 0;
pub const GLFW_OPENGL_CORE_PROFILE: u32 = 0x00032001;
pub const GLFW_OPENGL_COMPAT_PROFILE: u32 = 0x00032002;

// Input modes
pub const GLFW_CURSOR: u32 = 0x00033001;
pub const GLFW_STICKY_KEYS: u32 = 0x00033002;
pub const GLFW_STICKY_MOUSE_BUTTONS: u32 = 0x00033003;
pub const GLFW_LOCK_KEY_MODS: u32 = 0x00033004;
pub const GLFW_RAW_MOUSE_MOTION: u32 = 0x00033005;
pub const GLFW_CURSOR_NORMAL: u32 = 0x00034001;
pub const GLFW_CURSOR_HIDDEN: u32 = 0x00034002;
pub const GLFW_CURSOR_DISABLED: u32 = 0x00034003;
pub const GLFW_CURSOR_CAPTURED: u32 = 0x00034004;

pub const GLFW_ANY_RELEASE_BEHAVIOR: u32 = 0;
pub const GLFW_RELEASE_BEHAVIOR_FLUSH: u32 = 0x00035001;
pub const GLFW_RELEASE_BEHAVIOR_NONE: u32 = 0x00035002;
pub const GLFW_NATIVE_CONTEXT_API: u32 = 0x00036001;
pub const GLFW_EGL_CONTEXT_API: u32 = 0x00036002;
pub const GLFW_OSMESA_CONTEXT_API: u32 = 0x00036003;

// Standard cursor shapes
pub const GLFW_ARROW_CURSOR: u32 = 0x00036001;
pub const GLFW_IBEAM_CURSOR: u32 = 0x00036002;
pub const GLFW_CROSSHAIR_CURSOR: u32 = 0x00036003;
pub const GLFW_POINTING_HAND_CURSOR: u32 = 0x00036004;
pub const GLFW_RESIZE_EW_CURSOR: u32 = 0x00036005;
pub const GLFW_RESIZE_NS_CURSOR: u32 = 0x00036006;
pub const GLFW_RESIZE_NWSE_CURSOR: u32 = 0x00036007;
pub const GLFW_RESIZE_NESW_CURSOR: u32 = 0x00036008;
pub const GLFW_RESIZE_ALL_CURSOR: u32 = 0x00036009;
pub const GLFW_NOT_ALLOWED_CURSOR: u32 = 0x0003600A;

pub const GLFW_WAYLAND_PREFER_LIBDECOR: u32 = 0x00038001;
pub const GLFW_WAYLAND_DISABLE_LIBDECOR: u32 = 0x00038002;

pub const GLFW_CONNECTED: u32 = 0x00040001;
pub const GLFW_DISCONNECTED: u32 = 0x00040002;

// Init hints and platforms
pub const GLFW_PLATFORM: u32 = 0x00050003;
pub const GLFW_COCOA_CHDIR_RESOURCES: u32 = 0x00051001;
pub const GLFW_COCOA_MENUBAR: u32 = 0x00051002;
pub const GLFW_WAYLAND_LIBDECOR: u32 = 0x00053001;
pub const GLFW_ANY_PLATFORM: u32 = 0x00060000;
pub const GLFW_PLATFORM_WIN32: u32 = 0x00060001;
pub const GLFW_PLATFORM_COCOA: u32 = 0x00060002;
pub const GLFW_PLATFORM_WAYLAND: u32 = 0x00060003;
pub const GLFW_PLATFORM_X11: u32 = 0x00060004;
pub const GLFW_PLATFORM_NULL: u32 = 0x00060005;

// Modifier key flags
pub const GLFW_MOD_SHIFT: u32 = 0x0001;
pub const GLFW_MOD_CONTROL: u32 = 0x0002;
pub const GLFW_MOD_ALT: u32 = 0x0004;
pub const GLFW_MOD_SUPER: u32 = 0x0008;
pub const GLFW_MOD_CAPS_LOCK: u32 = 0x0010;
pub const GLFW_MOD_NUM_LOCK: u32 = 0x0020;

// Joystick hat states
pub const GLFW_HAT_CENTERED: u32 = 0;
pub const GLFW_HAT_UP: u32 = 1;
pub const GLFW_HAT_RIGHT: u32 = 2;
pub const GLFW_HAT_DOWN: u32 = 4;
pub const GLFW_HAT_LEFT: u32 = 8;

// Key codes
pub const GLFW_KEY_SPACE: u32 = 32;
pub const GLFW_KEY_APOSTROPHE: u32 = 39;
pub const GLFW_KEY_COMMA: u32 = 44;
pub const GLFW_KEY_MINUS: u32 = 45;
pub const GLFW_KEY_PERIOD: u32 = 46;
pub const GLFW_KEY_SLASH: u32 = 47;
pub const GLFW_KEY_0: u32 = 48;
pub const GLFW_KEY_1: u32 = 49;
pub const GLFW_KEY_2: u32 = 50;
pub const GLFW_KEY_3: u32 = 51;
pub const GLFW_KEY_4: u32 = 52;
pub const GLFW_KEY_5: u32 = 53;
pub const GLFW_KEY_6: u32 = 54;
pub const GLFW_KEY_7: u32 = 55;
pub const GLFW_KEY_8: u32 = 56;
pub const GLFW_KEY_9: u32 = 57;
pub const GLFW_KEY_SEMICOLON: u32 = 59;
pub const GLFW_KEY_EQUAL: u32 = 61;
pub const GLFW_KEY_A: u32 = 65;
pub const GLFW_KEY_B: u32 = 66;
pub const GLFW_KEY_C: u32 = 67;
pub const GLFW_KEY_D: u32 = 68;
pub const GLFW_KEY_E: u32 = 69;
pub const GLFW_KEY_F: u32 = 70;
pub const GLFW_KEY_G: u32 = 71;
pub const GLFW_KEY_H: u32 = 72;
pub const GLFW_KEY_I: u32 = 73;
pub const GLFW_KEY_J: u32 = 74;
pub const GLFW_KEY_K: u32 = 75;
pub const GLFW_KEY_L: u32 = 76;
pub const GLFW_KEY_M: u32 = 77;
pub const GLFW_KEY_N: u32 = 78;
pub const GLFW_KEY_O: u32 = 79;
pub const GLFW_KEY_P: u32 = 80;
pub const GLFW_KEY_Q: u32 = 81;
pub const GLFW_KEY_R: u32 = 82;
pub const GLFW_KEY_S: u32 = 83;
pub const GLFW_KEY_T: u32 = 84;
pub const GLFW_KEY_U: u32 = 85;
pub const GLFW_KEY_V: u32 = 86;
pub const GLFW_KEY_W: u32 = 87;
pub const GLFW_KEY_X: u32 = 88;
pub const GLFW_KEY_Y: u32 = 89;
pub const GLFW_KEY_Z: u32 = 90;
pub const GLFW_KEY_LEFT_BRACKET: u32 = 91;
pub const GLFW_KEY_BACKSLASH: u32 = 92;
pub const GLFW_KEY_RIGHT_BRACKET: u32 = 93;
pub const GLFW_KEY_GRAVE_ACCENT: u32 = 96;
pub const GLFW_KEY_WORLD_1: u32 = 161;
pub const GLFW_KEY_WORLD_2: u32 = 162;
pub const GLFW_KEY_ESCAPE: u32 = 256;
pub const GLFW_KEY_ENTER: u32 = 257;
pub const GLFW_KEY_TAB: u32 = 258;
pub const GLFW_KEY_BACKSPACE: u32 = 259;
pub const GLFW_KEY_INSERT: u32 = 260;
pub const GLFW_KEY_DELETE: u32 = 261;
pub const GLFW_KEY_RIGHT: u32 = 262;
pub const GLFW_KEY_LEFT: u32 = 263;
pub const GLFW_KEY_DOWN: u32 = 264;
pub const GLFW_KEY_UP: u32 = 265;
pub const GLFW_KEY_PAGE_UP: u32 = 266;
pub const GLFW_KEY_PAGE_DOWN: u32 = 267;
pub const GLFW_KEY_HOME: u32 = 268;
pub const GLFW_KEY_END: u32 = 269;
pub const GLFW_KEY_CAPS_LOCK: u32 = 280;
pub const GLFW_KEY_SCROLL_LOCK: u32 = 281;
pub const GLFW_KEY_NUM_LOCK: u32 = 282;
pub const GLFW_KEY_PRINT_SCREEN: u32 = 283;
pub const GLFW_KEY_PAUSE: u32 = 284;
pub const GLFW_KEY_F1: u32 = 290;
pub const GLFW_KEY_F2: u32 = 291;
pub const GLFW_KEY_F3: u32 = 292;
pub const GLFW_KEY_F4: u32 = 293;
pub const GLFW_KEY_F5: u32 = 294;
pub const GLFW_KEY_F6: u32 = 295;
pub const GLFW_KEY_F7: u32 = 296;
pub const GLFW_KEY_F8: u32 = 297;
pub const GLFW_KEY_F9: u32 = 298;
pub const GLFW_KEY_F10: u32 = 299;
pub const GLFW_KEY_F11: u32 = 300;
pub const GLFW_KEY_F12: u32 = 301;
pub const GLFW_KEY_F13: u32 = 302;
pub const GLFW_KEY_F14: u32 = 303;
pub const GLFW_KEY_F15: u32 = 304;
pub const GLFW_KEY_F16: u32 = 305;
pub const GLFW_KEY_F17: u32 = 306;
pub const GLFW_KEY_F18: u32 = 307;
pub const GLFW_KEY_F19: u32 = 308;
pub const GLFW_KEY_F20: u32 = 309;
pub const GLFW_KEY_F21: u32 = 310;
pub const GLFW_KEY_F22: u32 = 311;
pub const GLFW_KEY_F23: u32 = 312;
pub const GLFW_KEY_F24: u32 = 313;
pub const GLFW_KEY_F25: u32 = 314;
pub const GLFW_KEY_KP_0: u32 = 320;
pub const GLFW_KEY_KP_1: u32 = 321;
pub const GLFW_KEY_KP_2: u32 = 322;
pub const GLFW_KEY_KP_3: u32 = 323;
pub const GLFW_KEY_KP_4: u32 = 324;
pub const GLFW_KEY_KP_5: u32 = 325;
pub const GLFW_KEY_KP_6: u32 = 326;
pub const GLFW_KEY_KP_7: u32 = 327;
pub const GLFW_KEY_KP_8: u32 = 328;
pub const GLFW_KEY_KP_9: u32 = 329;
pub const GLFW_KEY_KP_DECIMAL: u32 = 330;
pub const GLFW_KEY_KP_DIVIDE: u32 = 331;
pub const GLFW_KEY_KP_MULTIPLY: u32 = 332;
pub const GLFW_KEY_KP_SUBTRACT: u32 = 333;
pub const GLFW_KEY_KP_ADD: u32 = 334;
pub const GLFW_KEY_KP_ENTER: u32 = 335;
pub const GLFW_KEY_KP_EQUAL: u32 = 336;
pub const GLFW_KEY_LEFT_SHIFT: u32 = 340;
pub const GLFW_KEY_LEFT_CONTROL: u32 = 341;
pub const GLFW_KEY_LEFT_ALT: u32 = 342;
pub const GLFW_KEY_LEFT_SUPER: u32 = 343;
pub const GLFW_KEY_RIGHT_SHIFT: u32 = 344;
pub const GLFW_KEY_RIGHT_CONTROL: u32 = 345;
pub const GLFW_KEY_RIGHT_ALT: u32 = 346;
pub const GLFW_KEY_RIGHT_SUPER: u32 = 347;
pub const GLFW_KEY_MENU: u32 = 348;
// Mouse buttons
pub const GLFW_MOUSE_BUTTON_1: u32 = 0;
pub const GLFW_MOUSE_BUTTON_2: u32 = 1;
pub const GLFW_MOUSE_BUTTON_3: u32 = 2;
pub const GLFW_MOUSE_BUTTON_4: u32 = 3;
pub const GLFW_MOUSE_BUTTON_5: u32 = 4;
pub const GLFW_MOUSE_BUTTON_6: u32 = 5;
pub const GLFW_MOUSE_BUTTON_7: u32 = 6;
pub const GLFW_MOUSE_BUTTON_8: u32 = 7;
pub const GLFW_MOUSE_BUTTON_LEFT: u32 = GLFW_MOUSE_BUTTON_1;
pub const GLFW_MOUSE_BUTTON_RIGHT: u32 = GLFW_MOUSE_BUTTON_2;
pub const GLFW_MOUSE_BUTTON_MIDDLE: u32 = GLFW_MOUSE_BUTTON_3;
// Joysticks
pub const GLFW_JOYSTICK_1: u32 = 0;
pub const GLFW_JOYSTICK_2: u32 = 1;
pub const GLFW_JOYSTICK_3: u32 = 2;
pub const GLFW_JOYSTICK_4: u32 = 3;
pub const GLFW_JOYSTICK_5: u32 = 4;
pub const GLFW_JOYSTICK_6: u32 = 5;
pub const GLFW_JOYSTICK_7: u32 = 6;
pub const GLFW_JOYSTICK_8: u32 = 7;
pub const GLFW_JOYSTICK_9: u32 = 8;
pub const GLFW_JOYSTICK_10: u32 = 9;
pub const GLFW_JOYSTICK_11: u32 = 10;
pub const GLFW_JOYSTICK_12: u32 = 11;
pub const GLFW_JOYSTICK_13: u32 = 12;
pub const GLFW_JOYSTICK_14: u32 = 13;
pub const GLFW_JOYSTICK_15: u32 = 14;
pub const GLFW_JOYSTICK_16: u32 = 15;
pub const GLFW_JOYSTICK_LAST: u32 = GLFW_JOYSTICK_16;
// Gamepad axes and buttons
pub const GLFW_GAMEPAD_AXIS_LEFT_X: u32 = 0;
pub const GLFW_GAMEPAD_AXIS_LEFT_Y: u32 = 1;
pub const GLFW_GAMEPAD_AXIS_RIGHT_X: u32 = 2;
pub const GLFW_GAMEPAD_AXIS_RIGHT_Y: u32 = 3;
pub const GLFW_GAMEPAD_AXIS_LEFT_TRIGGER: u32 = 4;
pub const GLFW_GAMEPAD_AXIS_RIGHT_TRIGGER: u32 = 5;
pub const GLFW_GAMEPAD_BUTTON_A: u32 = 0;
pub const GLFW_GAMEPAD_BUTTON_B: u32 = 1;
pub const GLFW_GAMEPAD_BUTTON_X: u32 = 2;
pub const GLFW_GAMEPAD_BUTTON_Y: u32 = 3;
pub const GLFW_GAMEPAD_BUTTON_LEFT_BUMPER: u32 = 4;
pub const GLFW_GAMEPAD_BUTTON_RIGHT_BUMPER: u32 = 5;
pub const GLFW_GAMEPAD_BUTTON_BACK: u32 = 6;
pub const GLFW_GAMEPAD_BUTTON_START: u32 = 7;
pub const GLFW_GAMEPAD_BUTTON_GUIDE: u32 = 8;
pub const GLFW_GAMEPAD_BUTTON_LEFT_THUMB: u32 = 9;
pub const GLFW_GAMEPAD_BUTTON_RIGHT_THUMB: u32 = 10;
pub const GLFW_GAMEPAD_BUTTON_DPAD_UP: u32 = 11;
pub const GLFW_GAMEPAD_BUTTON_DPAD_RIGHT: u32 = 12;
pub const GLFW_GAMEPAD_BUTTON_DPAD_DOWN: u32 = 13;
pub const GLFW_GAMEPAD_BUTTON_DPAD_LEFT: u32 = 14;
pub const GLFW_HAT_RIGHT_UP: u32 = 3;
pub const GLFW_HAT_RIGHT_DOWN: u32 = 6;
pub const GLFW_HAT_LEFT_UP: u32 = 9;
pub const GLFW_HAT_LEFT_DOWN: u32 = 12;

} // verus!

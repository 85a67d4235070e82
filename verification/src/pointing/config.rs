//! Pointing modes and their configuration.

use vstd::prelude::*;

use crate::event::HidKeyCode;

verus! {

/// Device id that stands for every pointing device.
pub const ALL_POINTING_DEVICES: u8 = 255;

/// Pointing mode determines how raw XY motion is interpreted
#[derive(Clone, Copy, Debug, PartialEq, Eq, Structural)]
pub enum PointingMode {
    /// Default cursor mode - XY maps to mouse XY movement
    Cursor(CursorConfig),
    /// Scroll mode - XY maps to wheel (vertical) and pan (horizontal)
    Scroll(ScrollConfig),
    /// Sniper mode - XY maps to cursor but at reduced sensitivity
    Sniper(SniperConfig),
    /// Caret mode, XY maps to vertical and horizontal caret movement
    Caret(CaretConfig),
}

/// Configuration for cursor mode
#[derive(Clone, Copy, Debug, PartialEq, Eq, Structural)]
pub struct CursorConfig {
    /// Multiplier for X axis. Higher = more output per unit of motion. 0 disables X.
    pub multiplier_x: u8,
    /// Multiplier for Y axis. Higher = more output per unit of motion. 0 disables Y.
    pub multiplier_y: u8,
    /// Invert X axis movement.
    pub invert_x: bool,
    /// Invert Y axis movement.
    pub invert_y: bool,
}

/// Configuration for caret mode
#[derive(Clone, Copy, Debug, PartialEq, Eq, Structural)]
pub struct CaretConfig {
    /// Disable X axis in caret mode.
    pub disable_x: bool,
    /// Disable y axis in caret mode.
    pub disable_y: bool,
    /// Invert X axis.
    pub invert_x: bool,
    /// Invert Y axis.
    pub invert_y: bool,
    /// Threshold for accumulated motion. Read this as sensitivity in caret mode.
    /// Higher values mean less sensitivity.
    pub threshold: i16,
    /// Keycode to emit for up rotation. Default: Up arrow
    pub keycode_up: HidKeyCode,
    /// Keycode to emit for down rotation. Default: Down arrow
    pub keycode_down: HidKeyCode,
    /// Keycode to emit for left rotation. Default: Left arrow
    pub keycode_left: HidKeyCode,
    /// Keycode to emit for right rotation. Default: Right arrow
    pub keycode_right: HidKeyCode,
}

/// Configuration for scroll mode
#[derive(Clone, Copy, Debug, PartialEq, Eq, Structural)]
pub struct ScrollConfig {
    /// Multiplier for X axis (pan). Higher = more output per unit of motion. 0 disables horizontal pan.
    pub multiplier_x: u8,
    /// Divisor for X axis (pan). Higher = slower. 0 disables horizontal pan.
    pub divisor_x: u8,
    /// Multiplier for Y axis (wheel). Higher = more output per unit of motion. 0 disables vertical scroll.
    pub multiplier_y: u8,
    /// Divisor for Y axis (wheel). Higher = slower. 0 disables vertical scroll.
    pub divisor_y: u8,
    /// Invert X axis. In scroll mode X maps to pan, so this reverses pan direction.
    pub invert_x: bool,
    /// Invert Y axis. In scroll mode Y maps to wheel, so this reverses scroll direction.
    pub invert_y: bool,
}

/// Configuration for sniper (precision) mode
#[derive(Clone, Copy, Debug, PartialEq, Eq, Structural)]
pub struct SniperConfig {
    /// Multiplier for both axes. Higher = more output per unit of motion.
    pub multiplier: u8,
    /// Divisor for both axes. Higher = slower, more precise movement.
    pub divisor: u8,
    /// Invert X axis movement.
    pub invert_x: bool,
    /// Invert Y axis movement.
    pub invert_y: bool,
}

/// Configuration of a pointing processor.
#[derive(Clone, Copy, Debug, PartialEq, Eq, Structural)]
pub struct PointingProcessorConfig {
    /// The id of the pointing device this processor handles.
    /// Use ALL_POINTING_DEVICES (255) to process events from all devices.
    pub device_id: u8,
    /// Invert X axis (applied to all modes before mode-specific processing)
    pub invert_x: bool,
    /// Invert Y axis (applied to all modes before mode-specific processing)
    pub invert_y: bool,
    /// Swap X and Y axes (applied to all modes before mode-specific processing)
    pub swap_xy: bool,
}

/// Cursor mode that passes motion on unchanged.
pub open spec fn plain_cursor() -> CursorConfig {
    CursorConfig { multiplier_x: 1, multiplier_y: 1, invert_x: false, invert_y: false }
}

impl Default for PointingMode {
    fn default() -> (mode: Self)
        ensures
            mode == PointingMode::Cursor(plain_cursor()),
    {
        PointingMode::Cursor(CursorConfig::default())
    }
}

impl Default for CursorConfig {
    fn default() -> (config: Self)
        ensures
            config == plain_cursor(),
    {
        CursorConfig { multiplier_x: 1, multiplier_y: 1, invert_x: false, invert_y: false }
    }
}

impl Default for CaretConfig {
    fn default() -> (config: Self)
        ensures
            config == (CaretConfig {
                disable_x: false,
                disable_y: false,
                invert_x: false,
                invert_y: false,
                threshold: 100,
                keycode_up: HidKeyCode::Up,
                keycode_down: HidKeyCode::Down,
                keycode_left: HidKeyCode::Left,
                keycode_right: HidKeyCode::Right,
            }),
    {
        CaretConfig {
            disable_x: false,
            disable_y: false,
            invert_x: false,
            invert_y: false,
            threshold: 100,
            keycode_up: HidKeyCode::Up,
            keycode_down: HidKeyCode::Down,
            keycode_left: HidKeyCode::Left,
            keycode_right: HidKeyCode::Right,
        }
    }
}

impl Default for ScrollConfig {
    fn default() -> (config: Self)
        ensures
            config == (ScrollConfig {
                multiplier_x: 1,
                divisor_x: 8,
                multiplier_y: 1,
                divisor_y: 8,
                invert_x: false,
                invert_y: false,
            }),
    {
        ScrollConfig {
            multiplier_x: 1,
            multiplier_y: 1,
            divisor_x: 8,
            divisor_y: 8,
            invert_x: false,
            invert_y: false,
        }
    }
}

impl Default for SniperConfig {
    fn default() -> (config: Self)
        ensures
            config == (SniperConfig { multiplier: 1, divisor: 4, invert_x: false, invert_y: false }),
    {
        SniperConfig { multiplier: 1, divisor: 4, invert_x: false, invert_y: false }
    }
}

impl Default for PointingProcessorConfig {
    fn default() -> (config: Self)
        ensures
            config == (PointingProcessorConfig {
                device_id: ALL_POINTING_DEVICES,
                invert_x: false,
                invert_y: false,
                swap_xy: false,
            }),
    {
        PointingProcessorConfig {
            device_id: ALL_POINTING_DEVICES,
            invert_x: false,
            invert_y: false,
            swap_xy: false,
        }
    }
}

} // verus!

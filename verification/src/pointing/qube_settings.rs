//! Pointing settings of the K:04 Qube and the packet that carries them.

use vstd::prelude::*;

use crate::num;

verus! {

pub const QUBE_SETTINGS_VERSION: u8 = 9;

pub const QUBE_MODULE_SELECT_BALL: u8 = 2;

pub const QUBE_MODULE_SELECT_TOUCH: u8 = 3;

pub const QUBE_DEFAULT_AUTO_LAYER_TIMEOUT_INDEX: u8 = 1;

pub const QUBE_AUTO_LAYER_TIMEOUT_MS_TABLE: [u32; 6] = [250, 500, 750, 1000, 1250, 1500];

pub const QUBE_FLAG_LEFT_INVERT_SCROLL_Y: u8 = 0x01;

pub const QUBE_FLAG_RIGHT_INVERT_SCROLL_Y: u8 = 0x02;

pub const QUBE_FLAG_LEFT_INVERT_TEXT_Y: u8 = 0x04;

pub const QUBE_FLAG_RIGHT_INVERT_TEXT_Y: u8 = 0x08;

pub const QUBE_FLAG_LEFT_ACCELERATION: u8 = 0x10;

pub const QUBE_FLAG_RIGHT_ACCELERATION: u8 = 0x20;

pub const QUBE_FLAG_LEFT_STICKY: u8 = 0x40;

pub const QUBE_FLAG_RIGHT_STICKY: u8 = 0x80;

pub const QUBE_AXIS_FLAG_LEFT_INVERT_SCROLL_X: u8 = 0x01;

pub const QUBE_AXIS_FLAG_RIGHT_INVERT_SCROLL_X: u8 = 0x02;

pub const QUBE_AXIS_FLAG_LEFT_INVERT_TEXT_X: u8 = 0x04;

pub const QUBE_AXIS_FLAG_RIGHT_INVERT_TEXT_X: u8 = 0x08;

/// How the motion of one half is used.
#[derive(Clone, Copy, Debug, PartialEq, Eq, Structural)]
pub enum QubePointingMode {
    Normal,
    Sniper,
    Scroll,
    Text,
}

/// Kind of a pointing module.
#[derive(Clone, Copy, Debug, PartialEq, Eq, Structural)]
pub enum QubePointingKind {
    Ball,
    Touch,
}

/// A pointing module: the half that it sits on (0 left, 1 right) and its kind.
#[derive(Clone, Copy, Debug, PartialEq, Eq, Structural)]
pub struct QubePointingSource {
    pub side: usize,
    pub kind: QubePointingKind,
}

/// Pointing settings of both halves. Index 0 is the left half, 1 the right half.
#[derive(Clone, Copy, Debug)]
pub struct QubePointingSettings {
    pub mode: [QubePointingMode; 2],
    pub ball_axis: [u8; 2],
    pub touch_axis: [u8; 2],
    pub scroll_sens: [i32; 2],
    pub sniper_sens: [i32; 2],
    pub text_sens: [i32; 2],
    pub flags: u8,
    pub auto_layer: u8,
    pub auto_flags: u8,
    pub module_select: u8,
    pub axis_flags: u8,
    pub auto_layer_timeout_index: u8,
}

/// Mode with the number `value`; numbers above the last mode mean the last mode.
pub open spec fn mode_of_value(value: int) -> QubePointingMode {
    if value <= 0 {
        QubePointingMode::Normal
    } else if value == 1 {
        QubePointingMode::Sniper
    } else if value == 2 {
        QubePointingMode::Scroll
    } else {
        QubePointingMode::Text
    }
}

/// Number of a mode.
pub open spec fn value_of_mode(mode: QubePointingMode) -> int {
    match mode {
        QubePointingMode::Normal => 0,
        QubePointingMode::Sniper => 1,
        QubePointingMode::Scroll => 2,
        QubePointingMode::Text => 3,
    }
}

/// The two-bit field `index` of `byte`, counted from the low end.
pub open spec fn two_bits(byte: u8, index: int) -> int {
    if index == 0 {
        byte as int % 4
    } else if index == 1 {
        byte as int / 4 % 4
    } else if index == 2 {
        byte as int / 16 % 4
    } else {
        byte as int / 64
    }
}

/// `byte` as a sensitivity, which is never below one.
pub open spec fn sensitivity(byte: u8) -> i32 {
    if byte == 0 {
        1
    } else {
        byte as i32
    }
}

/// Whether a bit of `mask` is set in `byte`.
pub open spec fn any_bit(byte: u8, mask: u8) -> bool {
    byte & mask != 0
}

proof fn lemma_bit_fields(b: u8)
    by (bit_vector)
    ensures
        b & 0x03 == b % 4,
        (b >> 2) & 0x03 == (b / 4) % 4,
        (b >> 4) & 0x03 == (b / 16) % 4,
        (b >> 6) & 0x03 == b / 64,
        (b >> 4) & 0x0f == b / 16,
        b & 0x0f == b % 16,
        b >> 4 == b / 16,
        (b >> 0u8) & 0x03 == b % 4,
{
}

/// Whether the settings of a Qube are in their ranges: sensitivities are 1 to 255,
/// orientations 0 to 3, the automatic layer, the module selection and the axis flags 0
/// to 15, and the timeout index is in its table.
pub open spec fn settings_wf(s: QubePointingSettings) -> bool {
    &&& forall|i: int| 0 <= i < 2 ==> 1 <= #[trigger] s.scroll_sens[i] <= 255
    &&& forall|i: int| 0 <= i < 2 ==> 1 <= #[trigger] s.sniper_sens[i] <= 255
    &&& forall|i: int| 0 <= i < 2 ==> 1 <= #[trigger] s.text_sens[i] <= 255
    &&& forall|i: int| 0 <= i < 2 ==> #[trigger] s.ball_axis[i] <= 3
    &&& forall|i: int| 0 <= i < 2 ==> #[trigger] s.touch_axis[i] <= 3
    &&& s.auto_layer_timeout_index <= 5
    &&& s.auto_layer <= 15
    &&& s.module_select <= 15
    &&& s.axis_flags <= 15
}

/// Whether `after` holds what the packet `data` carries.
pub open spec fn settings_match(after: QubePointingSettings, data: Seq<u8>) -> bool {
    &&& after.mode@ == seq![mode_of_value(two_bits(data[1], 0)), mode_of_value(two_bits(data[1], 1))]
    &&& after.auto_layer == data[1] as int / 16
    &&& after.ball_axis@ == seq![two_bits(data[2], 0) as u8, two_bits(data[2], 1) as u8]
    &&& after.touch_axis@ == seq![two_bits(data[2], 2) as u8, two_bits(data[2], 3) as u8]
    &&& after.scroll_sens@ == seq![sensitivity(data[5]), sensitivity(data[8])]
    &&& after.sniper_sens@ == seq![sensitivity(data[6]), sensitivity(data[9])]
    &&& after.text_sens@ == seq![sensitivity(data[7]), sensitivity(data[10])]
    &&& after.flags == data[11]
    &&& after.auto_flags == data[12]
    &&& after.module_select == data[25] as int % 16
    &&& after.axis_flags == data[26] as int % 16
    &&& after.auto_layer_timeout_index == num::clamp(data[26] as int / 16, 0, 5)
}

/// Module selection of one half: 2 means the ball, 3 the touchpad.
pub open spec fn selected_module(s: QubePointingSettings, side: usize) -> int {
    two_bits(s.module_select, if side == 0 {
        0
    } else {
        1
    })
}

/// Sensitivity of `side` in `mode`.
pub open spec fn mode_sens(s: QubePointingSettings, side: int, mode: QubePointingMode) -> int {
    let raw = match mode {
        QubePointingMode::Normal => 1,
        QubePointingMode::Sniper => s.sniper_sens[side] as int,
        QubePointingMode::Scroll => s.scroll_sens[side] as int,
        QubePointingMode::Text => s.text_sens[side] as int,
    };
    if raw < 1 {
        1
    } else {
        raw
    }
}

/// Mask of the automatic layer flag of `mode`.
pub open spec fn auto_layer_mask(mode: QubePointingMode) -> u8 {
    match mode {
        QubePointingMode::Normal => 0x01,
        QubePointingMode::Sniper => 0x02,
        QubePointingMode::Scroll => 0x04,
        QubePointingMode::Text => 0x08,
    }
}

/// Orientation of a module, in quarter turns.
pub open spec fn module_orientation(s: QubePointingSettings, source: QubePointingSource) -> u8 {
    match source.kind {
        QubePointingKind::Ball => if source.side == 0 {
            s.ball_axis[0]
        } else if source.side == 1 {
            s.ball_axis[1]
        } else {
            s.touch_axis[1]
        },
        QubePointingKind::Touch => if source.side == 0 {
            s.touch_axis[0]
        } else {
            s.touch_axis[1]
        },
    }
}

impl QubePointingMode {
    /// Mode with the number `value`; numbers above the last mode mean the last mode.
    pub fn from_value(value: u8) -> (mode: Self)
        ensures
            mode == mode_of_value(value as int),
    {
        if value == 0 {
            QubePointingMode::Normal
        } else if value == 1 {
            QubePointingMode::Sniper
        } else if value == 2 {
            QubePointingMode::Scroll
        } else {
            QubePointingMode::Text
        }
    }
}

/// `byte` as a sensitivity, which is never below one.
fn read_sensitivity(byte: u8) -> (sens: i32)
    ensures
        sens == sensitivity(byte),
{
    if byte == 0 {
        1
    } else {
        byte as i32
    }
}

/// `a` on the left half, `b` on any other.
fn by_side(side: usize, a: u8, b: u8) -> (mask: u8)
    ensures
        mask == (if side == 0 {
            a
        } else {
            b
        }),
{
    if side == 0 {
        a
    } else {
        b
    }
}

/// Whether settings are those before any packet has arrived.
pub open spec fn is_fresh(s: QubePointingSettings) -> bool {
    &&& s.mode@ == seq![QubePointingMode::Normal, QubePointingMode::Normal]
    &&& s.ball_axis@ == seq![0u8, 0u8]
    &&& s.touch_axis@ == seq![0u8, 0u8]
    &&& s.scroll_sens@ == seq![8i32, 8i32]
    &&& s.sniper_sens@ == seq![4i32, 4i32]
    &&& s.text_sens@ == seq![16i32, 16i32]
    &&& s.flags == 0
    &&& s.auto_layer == 4
    &&& s.auto_flags == 1
    &&& selected_module(s, 0) == QUBE_MODULE_SELECT_TOUCH
    &&& selected_module(s, 1) == QUBE_MODULE_SELECT_BALL
    &&& s.module_select == 11
    &&& s.axis_flags == 0
    &&& s.auto_layer_timeout_index == QUBE_DEFAULT_AUTO_LAYER_TIMEOUT_INDEX
}

impl QubePointingSettings {
    /// Settings before any packet has arrived: a touchpad on the left, a ball on the
    /// right, and layer 4 as the automatic layer of normal mode.
    pub fn new() -> (s: Self)
        ensures
            is_fresh(s),
            settings_wf(s),
    {
        QubePointingSettings {
            mode: [QubePointingMode::Normal, QubePointingMode::Normal],
            ball_axis: [0, 0],
            touch_axis: [0, 0],
            scroll_sens: [8, 8],
            sniper_sens: [4, 4],
            text_sens: [16, 16],
            flags: 0,
            auto_layer: 4,
            auto_flags: 1,
            module_select: QUBE_MODULE_SELECT_TOUCH + 4 * QUBE_MODULE_SELECT_BALL,
            axis_flags: 0,
            auto_layer_timeout_index: QUBE_DEFAULT_AUTO_LAYER_TIMEOUT_INDEX,
        }
    }

    /// Takes over the settings of a packet. A packet of another version is ignored.
    pub fn apply_packet(&mut self, data: &[u8; 27])
        ensures
            data[0] != QUBE_SETTINGS_VERSION ==> *final(self) == *old(self),
            data[0] == QUBE_SETTINGS_VERSION ==> settings_match(*final(self), data@) && settings_wf(*final(self)),
    {
        if data[0] != QUBE_SETTINGS_VERSION {
            return;
        }
        proof {
            lemma_bit_fields(data[1]);
            lemma_bit_fields(data[2]);
            lemma_bit_fields(data[25]);
            lemma_bit_fields(data[26]);
        }
        self.mode = [QubePointingMode::from_value(data[1] & 0x03), QubePointingMode::from_value((data[1] >> 2) & 0x03)];
        self.auto_layer = (data[1] >> 4) & 0x0f;
        self.ball_axis = [data[2] & 0x03, (data[2] >> 2) & 0x03];
        self.touch_axis = [(data[2] >> 4) & 0x03, (data[2] >> 6) & 0x03];
        self.scroll_sens = [read_sensitivity(data[5]), read_sensitivity(data[8])];
        self.sniper_sens = [read_sensitivity(data[6]), read_sensitivity(data[9])];
        self.text_sens = [read_sensitivity(data[7]), read_sensitivity(data[10])];
        self.flags = data[11];
        self.auto_flags = data[12];
        self.module_select = data[25] & 0x0f;
        self.axis_flags = data[26] & 0x0f;
        let index: u8 = data[26] >> 4;
        self.auto_layer_timeout_index = if index > 5 {
            5
        } else {
            index
        };
    }

    /// Whether the module is the one that is selected on its half.
    pub fn module_enabled(&self, source: QubePointingSource) -> (enabled: bool)
        ensures
            enabled == (selected_module(*self, source.side) == (match source.kind {
                QubePointingKind::Ball => QUBE_MODULE_SELECT_BALL,
                QubePointingKind::Touch => QUBE_MODULE_SELECT_TOUCH,
            })),
    {
        proof {
            lemma_bit_fields(self.module_select);
        }
        let selected: u8 = if source.side == 0 {
            self.module_select & 0x03
        } else {
            (self.module_select >> 2) & 0x03
        };
        match source.kind {
            QubePointingKind::Ball => selected == QUBE_MODULE_SELECT_BALL,
            QubePointingKind::Touch => selected == QUBE_MODULE_SELECT_TOUCH,
        }
    }

    /// Orientation of a module, in quarter turns.
    pub fn orientation(&self, source: QubePointingSource) -> (orientation: u8)
        ensures
            orientation == module_orientation(*self, source),
    {
        match source.kind {
            QubePointingKind::Ball => if source.side == 0 {
                self.ball_axis[0]
            } else if source.side == 1 {
                self.ball_axis[1]
            } else {
                self.touch_axis[1]
            },
            QubePointingKind::Touch => if source.side == 0 {
                self.touch_axis[0]
            } else {
                self.touch_axis[1]
            },
        }
    }

    /// Sensitivity of `side` in `mode`.
    pub fn sens(&self, side: usize, mode: QubePointingMode) -> (sens: i32)
        requires
            mode != QubePointingMode::Normal ==> side < 2,
        ensures
            sens == mode_sens(*self, side as int, mode),
    {
        let raw: i32 = match mode {
            QubePointingMode::Normal => 1,
            QubePointingMode::Sniper => self.sniper_sens[side],
            QubePointingMode::Scroll => self.scroll_sens[side],
            QubePointingMode::Text => self.text_sens[side],
        };
        if raw < 1 {
            1
        } else {
            raw
        }
    }

    /// Whether motion in `mode` switches the automatic layer on.
    pub fn auto_layer_enabled(&self, mode: QubePointingMode) -> (enabled: bool)
        ensures
            enabled == any_bit(self.auto_flags, auto_layer_mask(mode)),
    {
        let mask: u8 = match mode {
            QubePointingMode::Normal => 0x01,
            QubePointingMode::Sniper => 0x02,
            QubePointingMode::Scroll => 0x04,
            QubePointingMode::Text => 0x08,
        };
        (self.auto_flags & mask) != 0
    }

    /// Time without motion after which the automatic layer is switched off.
    pub fn auto_layer_timeout_ms(&self) -> (timeout: u32)
        ensures
            timeout == QUBE_AUTO_LAYER_TIMEOUT_MS_TABLE[num::clamp(self.auto_layer_timeout_index as int, 0, 5)],
    {
        let index: usize = if self.auto_layer_timeout_index > 5 {
            5
        } else {
            self.auto_layer_timeout_index as usize
        };
        QUBE_AUTO_LAYER_TIMEOUT_MS_TABLE[index]
    }

    /// Whether fast motion of `side` is accelerated.
    pub fn acceleration(&self, side: usize) -> (on: bool)
        ensures
            on == any_bit(self.flags, if side == 0 {
                QUBE_FLAG_LEFT_ACCELERATION
            } else {
                QUBE_FLAG_RIGHT_ACCELERATION
            }),
    {
        self.flag(by_side(side, QUBE_FLAG_LEFT_ACCELERATION, QUBE_FLAG_RIGHT_ACCELERATION))
    }

    /// Whether a tapped mode key of `side` latches its mode.
    pub fn sticky_mode(&self, side: usize) -> (on: bool)
        ensures
            on == sticky(*self, side),
    {
        self.flag(by_side(side, QUBE_FLAG_LEFT_STICKY, QUBE_FLAG_RIGHT_STICKY))
    }

    /// Whether horizontal scrolling of `side` is inverted.
    pub fn invert_scroll_x(&self, side: usize) -> (on: bool)
        ensures
            on == any_bit(self.axis_flags, if side == 0 {
                QUBE_AXIS_FLAG_LEFT_INVERT_SCROLL_X
            } else {
                QUBE_AXIS_FLAG_RIGHT_INVERT_SCROLL_X
            }),
    {
        self.axis_flag(by_side(side, QUBE_AXIS_FLAG_LEFT_INVERT_SCROLL_X, QUBE_AXIS_FLAG_RIGHT_INVERT_SCROLL_X))
    }

    /// Whether vertical scrolling of `side` is inverted.
    pub fn invert_scroll_y(&self, side: usize) -> (on: bool)
        ensures
            on == any_bit(self.flags, if side == 0 {
                QUBE_FLAG_LEFT_INVERT_SCROLL_Y
            } else {
                QUBE_FLAG_RIGHT_INVERT_SCROLL_Y
            }),
    {
        self.flag(by_side(side, QUBE_FLAG_LEFT_INVERT_SCROLL_Y, QUBE_FLAG_RIGHT_INVERT_SCROLL_Y))
    }

    /// Whether horizontal text motion of `side` is inverted.
    pub fn invert_text_x(&self, side: usize) -> (on: bool)
        ensures
            on == any_bit(self.axis_flags, if side == 0 {
                QUBE_AXIS_FLAG_LEFT_INVERT_TEXT_X
            } else {
                QUBE_AXIS_FLAG_RIGHT_INVERT_TEXT_X
            }),
    {
        self.axis_flag(by_side(side, QUBE_AXIS_FLAG_LEFT_INVERT_TEXT_X, QUBE_AXIS_FLAG_RIGHT_INVERT_TEXT_X))
    }

    /// Whether vertical text motion of `side` is inverted.
    pub fn invert_text_y(&self, side: usize) -> (on: bool)
        ensures
            on == any_bit(self.flags, if side == 0 {
                QUBE_FLAG_LEFT_INVERT_TEXT_Y
            } else {
                QUBE_FLAG_RIGHT_INVERT_TEXT_Y
            }),
    {
        self.flag(by_side(side, QUBE_FLAG_LEFT_INVERT_TEXT_Y, QUBE_FLAG_RIGHT_INVERT_TEXT_Y))
    }

    /// Whether a flag of `mask` is set.
    pub fn flag(&self, mask: u8) -> (on: bool)
        ensures
            on == any_bit(self.flags, mask),
    {
        (self.flags & mask) != 0
    }

    /// Whether an axis flag of `mask` is set.
    pub fn axis_flag(&self, mask: u8) -> (on: bool)
        ensures
            on == any_bit(self.axis_flags, mask),
    {
        (self.axis_flags & mask) != 0
    }
}

/// Whether a tapped mode key of `side` latches its mode.
pub open spec fn sticky(s: QubePointingSettings, side: usize) -> bool {
    any_bit(s.flags, if side == 0 {
        QUBE_FLAG_LEFT_STICKY
    } else {
        QUBE_FLAG_RIGHT_STICKY
    })
}

/// A packet replaces every setting: two settings that match the same packet are
/// the same settings, whatever was set before.
pub proof fn law_packet_replaces_all_settings(a: QubePointingSettings, b: QubePointingSettings, data: Seq<u8>)
    requires
        settings_match(a, data),
        settings_match(b, data),
    ensures
        a == b,
{
    assert(a.mode =~= b.mode);
    assert(a.ball_axis =~= b.ball_axis);
    assert(a.touch_axis =~= b.touch_axis);
    assert(a.scroll_sens =~= b.scroll_sens);
    assert(a.sniper_sens =~= b.sniper_sens);
    assert(a.text_sens =~= b.text_sens);
}

/// The number of a mode leads back to the mode.
pub proof fn law_mode_numbers_are_faithful(mode: QubePointingMode)
    ensures
        mode_of_value(value_of_mode(mode)) == mode,
{
}

/// Normal motion is not divided, and any other mode divides by its own sensitivity of the
/// half, and by one at least.
pub proof fn law_modes_have_their_own_sensitivity(s: QubePointingSettings, side: int)
    ensures
        mode_sens(s, side, QubePointingMode::Normal) == 1,
        s.sniper_sens[side] >= 1 ==> mode_sens(s, side, QubePointingMode::Sniper) == s.sniper_sens[side],
        s.scroll_sens[side] >= 1 ==> mode_sens(s, side, QubePointingMode::Scroll) == s.scroll_sens[side],
        s.text_sens[side] >= 1 ==> mode_sens(s, side, QubePointingMode::Text) == s.text_sens[side],
        s.sniper_sens[side] < 1 ==> mode_sens(s, side, QubePointingMode::Sniper) == 1,
        s.scroll_sens[side] < 1 ==> mode_sens(s, side, QubePointingMode::Scroll) == 1,
        s.text_sens[side] < 1 ==> mode_sens(s, side, QubePointingMode::Text) == 1,
{
}

} // verus!

//! Decisions of the interactive viewer: the map menu, the settings overlay, the
//! performance-counter selectors and the frame-buffer swap. The caller reads the
//! controller and the hardware and performs what these functions decide.
use vstd::prelude::*;

verus! {

/// Controller button masks as reported by the pad driver.
pub const PAD_BUTTON_LEFT: u16 = 0x0001;
pub const PAD_BUTTON_RIGHT: u16 = 0x0002;
pub const PAD_BUTTON_DOWN: u16 = 0x0004;
pub const PAD_BUTTON_UP: u16 = 0x0008;
pub const PAD_TRIGGER_Z: u16 = 0x0010;
pub const PAD_TRIGGER_R: u16 = 0x0020;
pub const PAD_TRIGGER_L: u16 = 0x0040;
pub const PAD_BUTTON_A: u16 = 0x0100;
pub const PAD_BUTTON_B: u16 = 0x0200;
pub const PAD_BUTTON_X: u16 = 0x0400;
pub const PAD_BUTTON_Y: u16 = 0x0800;
pub const PAD_BUTTON_START: u16 = 0x1000;

/// Whether `mask` is set in `buttons`.
pub open spec fn spec_pressed(buttons: u16, mask: u16) -> bool {
    buttons & mask != 0
}

/// Whether `mask` is set in `buttons`.
#[verifier::when_used_as_spec(spec_pressed)]
pub fn pressed(buttons: u16, mask: u16) -> (r: bool)
    ensures
        r == spec_pressed(buttons, mask),
{
    buttons & mask != 0
}

/// What to do with the map list that was fetched.
#[derive(Clone, Copy, Debug, PartialEq, Eq, Structural)]
pub enum MapListChoice {
    /// No map to offer: report it and stop.
    Empty,
    /// A single map: load it without asking.
    Only,
    /// Several maps: show the menu.
    Menu,
}

/// Decides how to proceed with a list of `count` maps.
pub fn map_list_choice(count: usize) -> (r: MapListChoice)
    ensures
        r == (if count == 0 {
            MapListChoice::Empty
        } else if count == 1 {
            MapListChoice::Only
        } else {
            MapListChoice::Menu
        }),
{
    if count == 0 {
        MapListChoice::Empty
    } else if count == 1 {
        MapListChoice::Only
    } else {
        MapListChoice::Menu
    }
}

/// Index after "up": ten forward, stopping at the last entry; from the last entry, the first.
pub open spec fn spec_menu_up(i: int, len: int) -> int {
    if i < len - 1 {
        if i + 10 < len - 1 { i + 10 } else { len - 1 }
    } else {
        0
    }
}

/// Index after "down": ten back, stopping at the first entry; from the first entry, the last.
pub open spec fn spec_menu_down(i: int, len: int) -> int {
    if i > 0 {
        if i >= 10 { i - 10 } else { 0 }
    } else {
        len - 1
    }
}

/// Index after "left": one back, wrapping to the last entry.
pub open spec fn spec_menu_left(i: int, len: int) -> int {
    if i > 0 { i - 1 } else { len - 1 }
}

/// Index after "right": one forward, wrapping to the first entry.
pub open spec fn spec_menu_right(i: int, len: int) -> int {
    if i < len - 1 { i + 1 } else { 0 }
}

/// Stepping right and then left, or left and then right, comes back to the same entry.
pub proof fn lemma_menu_left_right_inverse(i: int, len: int)
    requires
        0 <= i < len,
    ensures
        spec_menu_left(spec_menu_right(i, len), len) == i,
        spec_menu_right(spec_menu_left(i, len), len) == i,
{
}

/// Every move keeps the index inside the list.
pub proof fn lemma_menu_moves_in_range(i: int, len: int)
    requires
        0 <= i < len,
    ensures
        0 <= spec_menu_up(i, len) < len,
        0 <= spec_menu_down(i, len) < len,
        0 <= spec_menu_left(i, len) < len,
        0 <= spec_menu_right(i, len) < len,
{
}

/// What the map menu asks for after a frame's button presses.
#[derive(Clone, Copy, Debug, PartialEq, Eq, Structural)]
pub enum MenuAction {
    /// Leave the program.
    Exit,
    /// The highlighted entry changed: redraw it.
    Moved,
    /// Load the map at this index.
    Choose(usize),
    /// Fetch the map list again.
    Refresh,
    /// Nothing was pressed: wait for the next frame.
    Wait,
}

/// The map menu: which of `len` maps is highlighted.
pub struct MapMenu {
    index: usize,
    len: usize,
}

impl MapMenu {
    #[verifier::type_invariant]
    closed spec fn inv(self) -> bool {
        self.index < self.len
    }

    /// The highlighted entry.
    pub closed spec fn spec_index(&self) -> int {
        self.index as int
    }

    /// The number of entries.
    pub closed spec fn spec_len(&self) -> int {
        self.len as int
    }

    /// A menu over `len` maps with the first one highlighted.
    pub fn new(len: usize) -> (r: Self)
        requires
            len > 0,
        ensures
            r.spec_index() == 0,
            r.spec_len() == len,
    {
        MapMenu { index: 0, len }
    }

    /// The highlighted entry.
    pub fn index(&self) -> (r: usize)
        ensures
            r == self.spec_index(),
            r < self.spec_len(),
    {
        proof {
            use_type_invariant(self);
        }
        self.index
    }

    /// The number of entries.
    pub fn len(&self) -> (r: usize)
        ensures
            r == self.spec_len(),
            r > 0,
    {
        proof {
            use_type_invariant(self);
        }
        self.len
    }

    /// Applies one frame of newly pressed buttons. Start wins over the direction pad, which wins
    /// over A, which wins over B; within the pad the order is up, down, left, right.
    pub fn on_buttons(&mut self, down: u16) -> (r: MenuAction)
        ensures
            final(self).spec_len() == old(self).spec_len(),
            ({
                let i = old(self).spec_index();
                let n = old(self).spec_len();
                if spec_pressed(down, PAD_BUTTON_START) {
                    r == MenuAction::Exit && final(self).spec_index() == i
                } else if spec_pressed(down, PAD_BUTTON_UP) {
                    r == MenuAction::Moved && final(self).spec_index() == spec_menu_up(i, n)
                } else if spec_pressed(down, PAD_BUTTON_DOWN) {
                    r == MenuAction::Moved && final(self).spec_index() == spec_menu_down(i, n)
                } else if spec_pressed(down, PAD_BUTTON_LEFT) {
                    r == MenuAction::Moved && final(self).spec_index() == spec_menu_left(i, n)
                } else if spec_pressed(down, PAD_BUTTON_RIGHT) {
                    r == MenuAction::Moved && final(self).spec_index() == spec_menu_right(i, n)
                } else if spec_pressed(down, PAD_BUTTON_A) {
                    r == MenuAction::Choose(i as usize) && final(self).spec_index() == i
                } else if spec_pressed(down, PAD_BUTTON_B) {
                    r == MenuAction::Refresh && final(self).spec_index() == i
                } else {
                    r == MenuAction::Wait && final(self).spec_index() == i
                }
            }),
    {
        proof {
            use_type_invariant(&*self);
        }
        let last = self.len - 1;
        if pressed(down, PAD_BUTTON_START) {
            MenuAction::Exit
        } else if pressed(down, PAD_BUTTON_UP) {
            if self.index < last {
                self.index = if last - self.index > 10 { self.index + 10 } else { last };
            } else {
                self.index = 0;
            }
            MenuAction::Moved
        } else if pressed(down, PAD_BUTTON_DOWN) {
            if self.index > 0 {
                self.index = if self.index >= 10 { self.index - 10 } else { 0 };
            } else {
                self.index = last;
            }
            MenuAction::Moved
        } else if pressed(down, PAD_BUTTON_LEFT) {
            if self.index > 0 {
                self.index = self.index - 1;
            } else {
                self.index = last;
            }
            MenuAction::Moved
        } else if pressed(down, PAD_BUTTON_RIGHT) {
            if self.index < last {
                self.index = self.index + 1;
            } else {
                self.index = 0;
            }
            MenuAction::Moved
        } else if pressed(down, PAD_BUTTON_A) {
            MenuAction::Choose(self.index)
        } else if pressed(down, PAD_BUTTON_B) {
            MenuAction::Refresh
        } else {
            MenuAction::Wait
        }
    }
}

/// A selectable performance counter of the first GP metric bank.
#[allow(non_camel_case_types)]
#[derive(Clone, Copy, Debug, PartialEq, Eq, Structural)]
pub enum GpPerfMetric0 {
    VERTICES,
    CLIP_VTX,
    CLIP_CLKS,
    XF_WAIT_IN,
    XF_WAIT_OUT,
    XF_XFRM_CLKS,
    XF_LIT_CLKS,
    XF_BOT_CLKS,
    XF_REGLD_CLKS,
    XF_REGRD_CLKS,
    CLIP_RATIO,
    TRIANGLES,
    TRIANGLES_CULLED,
    TRIANGLES_PASSED,
    TRIANGLES_SCISSORED,
    TRIANGLES_0TEX,
    TRIANGLES_1TEX,
    TRIANGLES_2TEX,
    TRIANGLES_3TEX,
    TRIANGLES_4TEX,
    TRIANGLES_5TEX,
    TRIANGLES_6TEX,
    TRIANGLES_7TEX,
    TRIANGLES_8TEX,
    TRIANGLES_0CLR,
    TRIANGLES_1CLR,
    TRIANGLES_2CLR,
    QUAD_0CVG,
    QUAD_NON0CVG,
    QUAD_1CVG,
    QUAD_2CVG,
    QUAD_3CVG,
    QUAD_4CVG,
    AVG_QUAD_CNT,
    CLOCKS,
    NONE,
}

impl GpPerfMetric0 {
    /// Number of selectable values, the last of which is `NONE`.
    pub const COUNT: u32 = 36;

    /// The hardware selector value of the metric.
    pub open spec fn spec_index(self) -> u32 {
        match self {
            GpPerfMetric0::VERTICES => 0,
            GpPerfMetric0::CLIP_VTX => 1,
            GpPerfMetric0::CLIP_CLKS => 2,
            GpPerfMetric0::XF_WAIT_IN => 3,
            GpPerfMetric0::XF_WAIT_OUT => 4,
            GpPerfMetric0::XF_XFRM_CLKS => 5,
            GpPerfMetric0::XF_LIT_CLKS => 6,
            GpPerfMetric0::XF_BOT_CLKS => 7,
            GpPerfMetric0::XF_REGLD_CLKS => 8,
            GpPerfMetric0::XF_REGRD_CLKS => 9,
            GpPerfMetric0::CLIP_RATIO => 10,
            GpPerfMetric0::TRIANGLES => 11,
            GpPerfMetric0::TRIANGLES_CULLED => 12,
            GpPerfMetric0::TRIANGLES_PASSED => 13,
            GpPerfMetric0::TRIANGLES_SCISSORED => 14,
            GpPerfMetric0::TRIANGLES_0TEX => 15,
            GpPerfMetric0::TRIANGLES_1TEX => 16,
            GpPerfMetric0::TRIANGLES_2TEX => 17,
            GpPerfMetric0::TRIANGLES_3TEX => 18,
            GpPerfMetric0::TRIANGLES_4TEX => 19,
            GpPerfMetric0::TRIANGLES_5TEX => 20,
            GpPerfMetric0::TRIANGLES_6TEX => 21,
            GpPerfMetric0::TRIANGLES_7TEX => 22,
            GpPerfMetric0::TRIANGLES_8TEX => 23,
            GpPerfMetric0::TRIANGLES_0CLR => 24,
            GpPerfMetric0::TRIANGLES_1CLR => 25,
            GpPerfMetric0::TRIANGLES_2CLR => 26,
            GpPerfMetric0::QUAD_0CVG => 27,
            GpPerfMetric0::QUAD_NON0CVG => 28,
            GpPerfMetric0::QUAD_1CVG => 29,
            GpPerfMetric0::QUAD_2CVG => 30,
            GpPerfMetric0::QUAD_3CVG => 31,
            GpPerfMetric0::QUAD_4CVG => 32,
            GpPerfMetric0::AVG_QUAD_CNT => 33,
            GpPerfMetric0::CLOCKS => 34,
            GpPerfMetric0::NONE => 35,
        }
    }

    /// The metric whose selector is `i`, if there is one.
    pub open spec fn spec_from_index(i: u32) -> Option<Self> {
        if i == 0 { Some(GpPerfMetric0::VERTICES) } else if i == 1 { Some(GpPerfMetric0::CLIP_VTX) } else if i == 2 { Some(GpPerfMetric0::CLIP_CLKS) } else if i == 3 { Some(GpPerfMetric0::XF_WAIT_IN) } else if i == 4 { Some(GpPerfMetric0::XF_WAIT_OUT) } else if i == 5 { Some(GpPerfMetric0::XF_XFRM_CLKS) } else if i == 6 { Some(GpPerfMetric0::XF_LIT_CLKS) } else if i == 7 { Some(GpPerfMetric0::XF_BOT_CLKS) } else if i == 8 { Some(GpPerfMetric0::XF_REGLD_CLKS) } else if i == 9 { Some(GpPerfMetric0::XF_REGRD_CLKS) } else if i == 10 { Some(GpPerfMetric0::CLIP_RATIO) } else if i == 11 { Some(GpPerfMetric0::TRIANGLES) } else if i == 12 { Some(GpPerfMetric0::TRIANGLES_CULLED) } else if i == 13 { Some(GpPerfMetric0::TRIANGLES_PASSED) } else if i == 14 { Some(GpPerfMetric0::TRIANGLES_SCISSORED) } else if i == 15 { Some(GpPerfMetric0::TRIANGLES_0TEX) } else if i == 16 { Some(GpPerfMetric0::TRIANGLES_1TEX) } else if i == 17 { Some(GpPerfMetric0::TRIANGLES_2TEX) } else if i == 18 { Some(GpPerfMetric0::TRIANGLES_3TEX) } else if i == 19 { Some(GpPerfMetric0::TRIANGLES_4TEX) } else if i == 20 { Some(GpPerfMetric0::TRIANGLES_5TEX) } else if i == 21 { Some(GpPerfMetric0::TRIANGLES_6TEX) } else if i == 22 { Some(GpPerfMetric0::TRIANGLES_7TEX) } else if i == 23 { Some(GpPerfMetric0::TRIANGLES_8TEX) } else if i == 24 { Some(GpPerfMetric0::TRIANGLES_0CLR) } else if i == 25 { Some(GpPerfMetric0::TRIANGLES_1CLR) } else if i == 26 { Some(GpPerfMetric0::TRIANGLES_2CLR) } else if i == 27 { Some(GpPerfMetric0::QUAD_0CVG) } else if i == 28 { Some(GpPerfMetric0::QUAD_NON0CVG) } else if i == 29 { Some(GpPerfMetric0::QUAD_1CVG) } else if i == 30 { Some(GpPerfMetric0::QUAD_2CVG) } else if i == 31 { Some(GpPerfMetric0::QUAD_3CVG) } else if i == 32 { Some(GpPerfMetric0::QUAD_4CVG) } else if i == 33 { Some(GpPerfMetric0::AVG_QUAD_CNT) } else if i == 34 { Some(GpPerfMetric0::CLOCKS) } else if i == 35 { Some(GpPerfMetric0::NONE) } else { None }
    }

    /// The hardware selector value of the metric.
    #[verifier::when_used_as_spec(spec_index)]
    pub fn index(self) -> (r: u32)
        ensures
            r == self.spec_index(),
            r < Self::COUNT,
    {
        match self {
            GpPerfMetric0::VERTICES => 0,
            GpPerfMetric0::CLIP_VTX => 1,
            GpPerfMetric0::CLIP_CLKS => 2,
            GpPerfMetric0::XF_WAIT_IN => 3,
            GpPerfMetric0::XF_WAIT_OUT => 4,
            GpPerfMetric0::XF_XFRM_CLKS => 5,
            GpPerfMetric0::XF_LIT_CLKS => 6,
            GpPerfMetric0::XF_BOT_CLKS => 7,
            GpPerfMetric0::XF_REGLD_CLKS => 8,
            GpPerfMetric0::XF_REGRD_CLKS => 9,
            GpPerfMetric0::CLIP_RATIO => 10,
            GpPerfMetric0::TRIANGLES => 11,
            GpPerfMetric0::TRIANGLES_CULLED => 12,
            GpPerfMetric0::TRIANGLES_PASSED => 13,
            GpPerfMetric0::TRIANGLES_SCISSORED => 14,
            GpPerfMetric0::TRIANGLES_0TEX => 15,
            GpPerfMetric0::TRIANGLES_1TEX => 16,
            GpPerfMetric0::TRIANGLES_2TEX => 17,
            GpPerfMetric0::TRIANGLES_3TEX => 18,
            GpPerfMetric0::TRIANGLES_4TEX => 19,
            GpPerfMetric0::TRIANGLES_5TEX => 20,
            GpPerfMetric0::TRIANGLES_6TEX => 21,
            GpPerfMetric0::TRIANGLES_7TEX => 22,
            GpPerfMetric0::TRIANGLES_8TEX => 23,
            GpPerfMetric0::TRIANGLES_0CLR => 24,
            GpPerfMetric0::TRIANGLES_1CLR => 25,
            GpPerfMetric0::TRIANGLES_2CLR => 26,
            GpPerfMetric0::QUAD_0CVG => 27,
            GpPerfMetric0::QUAD_NON0CVG => 28,
            GpPerfMetric0::QUAD_1CVG => 29,
            GpPerfMetric0::QUAD_2CVG => 30,
            GpPerfMetric0::QUAD_3CVG => 31,
            GpPerfMetric0::QUAD_4CVG => 32,
            GpPerfMetric0::AVG_QUAD_CNT => 33,
            GpPerfMetric0::CLOCKS => 34,
            GpPerfMetric0::NONE => 35,
        }
    }

    /// The metric whose selector is `i`, or `None` past the last one.
    pub fn from_index(i: u32) -> (r: Option<Self>)
        ensures
            r == Self::spec_from_index(i),
            r is Some <==> i < Self::COUNT,
            r matches Some(m) ==> m.spec_index() == i,
    {
        match i {
            0 => Some(GpPerfMetric0::VERTICES),
            1 => Some(GpPerfMetric0::CLIP_VTX),
            2 => Some(GpPerfMetric0::CLIP_CLKS),
            3 => Some(GpPerfMetric0::XF_WAIT_IN),
            4 => Some(GpPerfMetric0::XF_WAIT_OUT),
            5 => Some(GpPerfMetric0::XF_XFRM_CLKS),
            6 => Some(GpPerfMetric0::XF_LIT_CLKS),
            7 => Some(GpPerfMetric0::XF_BOT_CLKS),
            8 => Some(GpPerfMetric0::XF_REGLD_CLKS),
            9 => Some(GpPerfMetric0::XF_REGRD_CLKS),
            10 => Some(GpPerfMetric0::CLIP_RATIO),
            11 => Some(GpPerfMetric0::TRIANGLES),
            12 => Some(GpPerfMetric0::TRIANGLES_CULLED),
            13 => Some(GpPerfMetric0::TRIANGLES_PASSED),
            14 => Some(GpPerfMetric0::TRIANGLES_SCISSORED),
            15 => Some(GpPerfMetric0::TRIANGLES_0TEX),
            16 => Some(GpPerfMetric0::TRIANGLES_1TEX),
            17 => Some(GpPerfMetric0::TRIANGLES_2TEX),
            18 => Some(GpPerfMetric0::TRIANGLES_3TEX),
            19 => Some(GpPerfMetric0::TRIANGLES_4TEX),
            20 => Some(GpPerfMetric0::TRIANGLES_5TEX),
            21 => Some(GpPerfMetric0::TRIANGLES_6TEX),
            22 => Some(GpPerfMetric0::TRIANGLES_7TEX),
            23 => Some(GpPerfMetric0::TRIANGLES_8TEX),
            24 => Some(GpPerfMetric0::TRIANGLES_0CLR),
            25 => Some(GpPerfMetric0::TRIANGLES_1CLR),
            26 => Some(GpPerfMetric0::TRIANGLES_2CLR),
            27 => Some(GpPerfMetric0::QUAD_0CVG),
            28 => Some(GpPerfMetric0::QUAD_NON0CVG),
            29 => Some(GpPerfMetric0::QUAD_1CVG),
            30 => Some(GpPerfMetric0::QUAD_2CVG),
            31 => Some(GpPerfMetric0::QUAD_3CVG),
            32 => Some(GpPerfMetric0::QUAD_4CVG),
            33 => Some(GpPerfMetric0::AVG_QUAD_CNT),
            34 => Some(GpPerfMetric0::CLOCKS),
            35 => Some(GpPerfMetric0::NONE),
            _ => None,
        }
    }

    /// The selector value names the metric: the metric is found again from it, so two metrics
    /// with the same selector are the same.
    pub proof fn lemma_index_round_trip(self)
        ensures
            Self::spec_from_index(self.spec_index()) == Some(self),
    {
    }

    /// Two metrics with the same selector value are the same metric.
    pub proof fn lemma_index_injective(a: Self, b: Self)
        requires
            a.spec_index() == b.spec_index(),
        ensures
            a == b,
    {
        a.lemma_index_round_trip();
        b.lemma_index_round_trip();
    }

    /// The value before this one; before the first comes `NONE`.
    pub fn prev(self) -> (r: Self)
        ensures
            r.spec_index() == spec_cycle_prev(self.spec_index() as int, Self::COUNT as int),
    {
        let i = self.index();
        if i == 0 {
            GpPerfMetric0::NONE
        } else {
            match Self::from_index(i - 1) {
                Some(m) => m,
                None => GpPerfMetric0::NONE,
            }
        }
    }

    /// The value after this one; after `NONE` comes `VERTICES`.
    pub fn next(self) -> (r: Self)
        ensures
            r.spec_index() == spec_cycle_next(self.spec_index() as int, Self::COUNT as int),
    {
        match Self::from_index(self.index() + 1) {
            Some(m) => m,
            None => GpPerfMetric0::VERTICES,
        }
    }
}

/// A selectable performance counter of the second GP metric bank.
#[allow(non_camel_case_types)]
#[derive(Clone, Copy, Debug, PartialEq, Eq, Structural)]
pub enum GpPerfMetric1 {
    TEXELS,
    TX_IDLE,
    TX_REGS,
    TX_MEMSTALL,
    TC_CHECK1_2,
    TC_CHECK3_4,
    TC_CHECK5_6,
    TC_CHECK7_8,
    TC_MISS,
    VC_ELEMQ_FULL,
    VC_MISSQ_FULL,
    VC_MEMREQ_FULL,
    VC_STATUS7,
    VC_MISSREP_FULL,
    VC_STREAMBUF_LOW,
    VC_ALL_STALLS,
    VERTICES,
    FIFO_REQ,
    CALL_REQ,
    VC_MISS_REQ,
    CP_ALL_REQ,
    CLOCKS,
    NONE,
}

impl GpPerfMetric1 {
    /// Number of selectable values, the last of which is `NONE`.
    pub const COUNT: u32 = 23;

    /// The hardware selector value of the metric.
    pub open spec fn spec_index(self) -> u32 {
        match self {
            GpPerfMetric1::TEXELS => 0,
            GpPerfMetric1::TX_IDLE => 1,
            GpPerfMetric1::TX_REGS => 2,
            GpPerfMetric1::TX_MEMSTALL => 3,
            GpPerfMetric1::TC_CHECK1_2 => 4,
            GpPerfMetric1::TC_CHECK3_4 => 5,
            GpPerfMetric1::TC_CHECK5_6 => 6,
            GpPerfMetric1::TC_CHECK7_8 => 7,
            GpPerfMetric1::TC_MISS => 8,
            GpPerfMetric1::VC_ELEMQ_FULL => 9,
            GpPerfMetric1::VC_MISSQ_FULL => 10,
            GpPerfMetric1::VC_MEMREQ_FULL => 11,
            GpPerfMetric1::VC_STATUS7 => 12,
            GpPerfMetric1::VC_MISSREP_FULL => 13,
            GpPerfMetric1::VC_STREAMBUF_LOW => 14,
            GpPerfMetric1::VC_ALL_STALLS => 15,
            GpPerfMetric1::VERTICES => 16,
            GpPerfMetric1::FIFO_REQ => 17,
            GpPerfMetric1::CALL_REQ => 18,
            GpPerfMetric1::VC_MISS_REQ => 19,
            GpPerfMetric1::CP_ALL_REQ => 20,
            GpPerfMetric1::CLOCKS => 21,
            GpPerfMetric1::NONE => 22,
        }
    }

    /// The metric whose selector is `i`, if there is one.
    pub open spec fn spec_from_index(i: u32) -> Option<Self> {
        if i == 0 { Some(GpPerfMetric1::TEXELS) } else if i == 1 { Some(GpPerfMetric1::TX_IDLE) } else if i == 2 { Some(GpPerfMetric1::TX_REGS) } else if i == 3 { Some(GpPerfMetric1::TX_MEMSTALL) } else if i == 4 { Some(GpPerfMetric1::TC_CHECK1_2) } else if i == 5 { Some(GpPerfMetric1::TC_CHECK3_4) } else if i == 6 { Some(GpPerfMetric1::TC_CHECK5_6) } else if i == 7 { Some(GpPerfMetric1::TC_CHECK7_8) } else if i == 8 { Some(GpPerfMetric1::TC_MISS) } else if i == 9 { Some(GpPerfMetric1::VC_ELEMQ_FULL) } else if i == 10 { Some(GpPerfMetric1::VC_MISSQ_FULL) } else if i == 11 { Some(GpPerfMetric1::VC_MEMREQ_FULL) } else if i == 12 { Some(GpPerfMetric1::VC_STATUS7) } else if i == 13 { Some(GpPerfMetric1::VC_MISSREP_FULL) } else if i == 14 { Some(GpPerfMetric1::VC_STREAMBUF_LOW) } else if i == 15 { Some(GpPerfMetric1::VC_ALL_STALLS) } else if i == 16 { Some(GpPerfMetric1::VERTICES) } else if i == 17 { Some(GpPerfMetric1::FIFO_REQ) } else if i == 18 { Some(GpPerfMetric1::CALL_REQ) } else if i == 19 { Some(GpPerfMetric1::VC_MISS_REQ) } else if i == 20 { Some(GpPerfMetric1::CP_ALL_REQ) } else if i == 21 { Some(GpPerfMetric1::CLOCKS) } else if i == 22 { Some(GpPerfMetric1::NONE) } else { None }
    }

    /// The hardware selector value of the metric.
    #[verifier::when_used_as_spec(spec_index)]
    pub fn index(self) -> (r: u32)
        ensures
            r == self.spec_index(),
            r < Self::COUNT,
    {
        match self {
            GpPerfMetric1::TEXELS => 0,
            GpPerfMetric1::TX_IDLE => 1,
            GpPerfMetric1::TX_REGS => 2,
            GpPerfMetric1::TX_MEMSTALL => 3,
            GpPerfMetric1::TC_CHECK1_2 => 4,
            GpPerfMetric1::TC_CHECK3_4 => 5,
            GpPerfMetric1::TC_CHECK5_6 => 6,
            GpPerfMetric1::TC_CHECK7_8 => 7,
            GpPerfMetric1::TC_MISS => 8,
            GpPerfMetric1::VC_ELEMQ_FULL => 9,
            GpPerfMetric1::VC_MISSQ_FULL => 10,
            GpPerfMetric1::VC_MEMREQ_FULL => 11,
            GpPerfMetric1::VC_STATUS7 => 12,
            GpPerfMetric1::VC_MISSREP_FULL => 13,
            GpPerfMetric1::VC_STREAMBUF_LOW => 14,
            GpPerfMetric1::VC_ALL_STALLS => 15,
            GpPerfMetric1::VERTICES => 16,
            GpPerfMetric1::FIFO_REQ => 17,
            GpPerfMetric1::CALL_REQ => 18,
            GpPerfMetric1::VC_MISS_REQ => 19,
            GpPerfMetric1::CP_ALL_REQ => 20,
            GpPerfMetric1::CLOCKS => 21,
            GpPerfMetric1::NONE => 22,
        }
    }

    /// The metric whose selector is `i`, or `None` past the last one.
    pub fn from_index(i: u32) -> (r: Option<Self>)
        ensures
            r == Self::spec_from_index(i),
            r is Some <==> i < Self::COUNT,
            r matches Some(m) ==> m.spec_index() == i,
    {
        match i {
            0 => Some(GpPerfMetric1::TEXELS),
            1 => Some(GpPerfMetric1::TX_IDLE),
            2 => Some(GpPerfMetric1::TX_REGS),
            3 => Some(GpPerfMetric1::TX_MEMSTALL),
            4 => Some(GpPerfMetric1::TC_CHECK1_2),
            5 => Some(GpPerfMetric1::TC_CHECK3_4),
            6 => Some(GpPerfMetric1::TC_CHECK5_6),
            7 => Some(GpPerfMetric1::TC_CHECK7_8),
            8 => Some(GpPerfMetric1::TC_MISS),
            9 => Some(GpPerfMetric1::VC_ELEMQ_FULL),
            10 => Some(GpPerfMetric1::VC_MISSQ_FULL),
            11 => Some(GpPerfMetric1::VC_MEMREQ_FULL),
            12 => Some(GpPerfMetric1::VC_STATUS7),
            13 => Some(GpPerfMetric1::VC_MISSREP_FULL),
            14 => Some(GpPerfMetric1::VC_STREAMBUF_LOW),
            15 => Some(GpPerfMetric1::VC_ALL_STALLS),
            16 => Some(GpPerfMetric1::VERTICES),
            17 => Some(GpPerfMetric1::FIFO_REQ),
            18 => Some(GpPerfMetric1::CALL_REQ),
            19 => Some(GpPerfMetric1::VC_MISS_REQ),
            20 => Some(GpPerfMetric1::CP_ALL_REQ),
            21 => Some(GpPerfMetric1::CLOCKS),
            22 => Some(GpPerfMetric1::NONE),
            _ => None,
        }
    }

    /// The selector value names the metric: the metric is found again from it, so two metrics
    /// with the same selector are the same.
    pub proof fn lemma_index_round_trip(self)
        ensures
            Self::spec_from_index(self.spec_index()) == Some(self),
    {
    }

    /// Two metrics with the same selector value are the same metric.
    pub proof fn lemma_index_injective(a: Self, b: Self)
        requires
            a.spec_index() == b.spec_index(),
        ensures
            a == b,
    {
        a.lemma_index_round_trip();
        b.lemma_index_round_trip();
    }

    /// The value before this one; before the first comes `NONE`.
    pub fn prev(self) -> (r: Self)
        ensures
            r.spec_index() == spec_cycle_prev(self.spec_index() as int, Self::COUNT as int),
    {
        let i = self.index();
        if i == 0 {
            GpPerfMetric1::NONE
        } else {
            match Self::from_index(i - 1) {
                Some(m) => m,
                None => GpPerfMetric1::NONE,
            }
        }
    }

    /// The value after this one; after `NONE` comes `TEXELS`.
    pub fn next(self) -> (r: Self)
        ensures
            r.spec_index() == spec_cycle_next(self.spec_index() as int, Self::COUNT as int),
    {
        match Self::from_index(self.index() + 1) {
            Some(m) => m,
            None => GpPerfMetric1::TEXELS,
        }
    }
}


/// Number of entries of the settings overlay.
pub const UI_ITEM_COUNT: usize = 5;

/// Number of lightmap styles that can be selected.
pub const LIGHTMAP_STYLE_COUNT: usize = 4;

/// The overlay entry above `item`, wrapping from the first to the last.
pub open spec fn spec_ui_up(item: int) -> int {
    if item == 0 { UI_ITEM_COUNT - 1 } else { item - 1 }
}

/// The overlay entry below `item`, wrapping from the last to the first.
pub open spec fn spec_ui_down(item: int) -> int {
    (item + 1) % (UI_ITEM_COUNT as int)
}

/// The lightmap style `style` moved by `increment`, which is -1, 0 or 1, modulo the style count.
pub open spec fn spec_step_style(style: int, increment: int) -> int {
    (style + LIGHTMAP_STYLE_COUNT + increment) % (LIGHTMAP_STYLE_COUNT as int)
}

/// The horizontal step of the settings overlay: -1 for left, 1 for right, 0 for both or neither.
pub open spec fn spec_ui_increment(down: u16) -> int {
    (if spec_pressed(down, PAD_BUTTON_RIGHT) { 1int } else { 0int }) - (if spec_pressed(
        down,
        PAD_BUTTON_LEFT,
    ) {
        1int
    } else {
        0int
    })
}

/// The horizontal step of the settings overlay: -1 for left, 1 for right, 0 for both or neither.
pub fn ui_increment(down: u16) -> (r: i32)
    ensures
        r == spec_ui_increment(down),
        -1 <= r <= 1,
{
    let left: i32 = if pressed(down, PAD_BUTTON_LEFT) { -1 } else { 0 };
    let right: i32 = if pressed(down, PAD_BUTTON_RIGHT) { 1 } else { 0 };
    left + right
}

/// Moving up and then down in the overlay, or down and then up, returns to the same entry.
pub proof fn lemma_ui_up_down_inverse(item: int)
    requires
        0 <= item < UI_ITEM_COUNT,
    ensures
        spec_ui_down(spec_ui_up(item)) == item,
        spec_ui_up(spec_ui_down(item)) == item,
        0 <= spec_ui_up(item) < UI_ITEM_COUNT,
        0 <= spec_ui_down(item) < UI_ITEM_COUNT,
{
}

/// Stepping the lightmap style left and then right, or right and then left, restores it.
pub proof fn lemma_style_steps_inverse(style: int)
    requires
        0 <= style < LIGHTMAP_STYLE_COUNT,
    ensures
        spec_step_style(spec_step_style(style, -1), 1) == style,
        spec_step_style(spec_step_style(style, 1), -1) == style,
        spec_step_style(style, 0) == style,
        0 <= spec_step_style(style, -1) < LIGHTMAP_STYLE_COUNT,
        0 <= spec_step_style(style, 1) < LIGHTMAP_STYLE_COUNT,
{
}

/// The selector before `i` among `n`, wrapping from the first to the last.
pub open spec fn spec_cycle_prev(i: int, n: int) -> int {
    if i == 0 { n - 1 } else { i - 1 }
}

/// The selector after `i` among `n`, wrapping from the last to the first.
pub open spec fn spec_cycle_next(i: int, n: int) -> int {
    if i + 1 == n { 0 } else { i + 1 }
}

/// Stepping a selector back and then forward, or forward and then back, restores it.
pub proof fn lemma_cycle_prev_next_inverse(i: int, n: int)
    requires
        0 <= i < n,
    ensures
        spec_cycle_next(spec_cycle_prev(i, n), n) == i,
        spec_cycle_prev(spec_cycle_next(i, n), n) == i,
        0 <= spec_cycle_prev(i, n) < n,
        0 <= spec_cycle_next(i, n) < n,
{
}

/// The overlay entry after up and down were applied, up first.
fn step_ui_item(item: usize, down: u16) -> (r: usize)
    requires
        item < UI_ITEM_COUNT,
    ensures
        r < UI_ITEM_COUNT,
        ({
            let after_up = if spec_pressed(down, PAD_BUTTON_UP) {
                spec_ui_up(item as int)
            } else {
                item as int
            };
            r == if spec_pressed(down, PAD_BUTTON_DOWN) {
                spec_ui_down(after_up)
            } else {
                after_up
            }
        }),
{
    let mut item = item;
    if pressed(down, PAD_BUTTON_UP) {
        item = if item == 0 { UI_ITEM_COUNT - 1 } else { item - 1 };
    }
    if pressed(down, PAD_BUTTON_DOWN) {
        item = (item + 1) % UI_ITEM_COUNT;
    }
    item
}

/// The lightmap style moved by `inc`.
fn step_style(style: usize, inc: i32) -> (r: usize)
    requires
        style < LIGHTMAP_STYLE_COUNT,
        -1 <= inc <= 1,
    ensures
        r == spec_step_style(style as int, inc as int),
        r < LIGHTMAP_STYLE_COUNT,
{
    if inc == -1 {
        (style + 3) % LIGHTMAP_STYLE_COUNT
    } else if inc == 1 {
        (style + 1) % LIGHTMAP_STYLE_COUNT
    } else {
        style
    }
}

/// The first counter selector moved by `inc`.
fn step_metric0(m: GpPerfMetric0, inc: i32) -> (r: GpPerfMetric0)
    ensures
        r.spec_index() == if inc == -1 {
            spec_cycle_prev(m.spec_index() as int, GpPerfMetric0::COUNT as int)
        } else if inc == 1 {
            spec_cycle_next(m.spec_index() as int, GpPerfMetric0::COUNT as int)
        } else {
            m.spec_index() as int
        },
{
    if inc == -1 {
        m.prev()
    } else if inc == 1 {
        m.next()
    } else {
        m
    }
}

/// The second counter selector moved by `inc`.
fn step_metric1(m: GpPerfMetric1, inc: i32) -> (r: GpPerfMetric1)
    ensures
        r.spec_index() == if inc == -1 {
            spec_cycle_prev(m.spec_index() as int, GpPerfMetric1::COUNT as int)
        } else if inc == 1 {
            spec_cycle_next(m.spec_index() as int, GpPerfMetric1::COUNT as int)
        } else {
            m.spec_index() as int
        },
{
    if inc == -1 {
        m.prev()
    } else if inc == 1 {
        m.next()
    } else {
        m
    }
}

/// What the caller has to do after the settings took a frame's button presses.
#[derive(Clone, Copy, Debug, PartialEq, Eq, Structural)]
pub struct SettingsEffect {
    /// Return to the map menu.
    pub map_select: bool,
    /// The lightmap style changed: every lightmap has to be rebuilt for it.
    pub relight: bool,
}

/// The viewer settings that buttons change (the camera is the caller's).
#[derive(Clone, Copy, Debug, PartialEq, Eq, Structural)]
pub struct GameSettings {
    pub inverted_pitch_control: bool,
    pub msaa: bool,
    pub copy_filter: bool,
    pub widescreen: bool,
    pub lightmap_style: usize,
    pub ui_item: usize,
    pub gp_perf_metric0: GpPerfMetric0,
    pub gp_perf_metric1: GpPerfMetric1,
}

impl GameSettings {
    /// The overlay entry and the lightmap style are in range.
    pub open spec fn wf(&self) -> bool {
        &&& self.ui_item < UI_ITEM_COUNT
        &&& self.lightmap_style < LIGHTMAP_STYLE_COUNT
    }

    /// The settings a map starts with.
    pub fn new(widescreen: bool) -> (r: Self)
        ensures
            r.wf(),
            r == (GameSettings {
                inverted_pitch_control: false,
                msaa: false,
                copy_filter: false,
                widescreen,
                lightmap_style: 0,
                ui_item: 0,
                gp_perf_metric0: GpPerfMetric0::NONE,
                gp_perf_metric1: GpPerfMetric1::NONE,
            }),
    {
        GameSettings {
            inverted_pitch_control: false,
            msaa: false,
            copy_filter: false,
            widescreen,
            lightmap_style: 0,
            ui_item: 0,
            gp_perf_metric0: GpPerfMetric0::NONE,
            gp_perf_metric1: GpPerfMetric1::NONE,
        }
    }

    /// Applies one frame of newly pressed buttons: start asks for the map menu, Z flips the pitch
    /// control, up and down move through the overlay and left and right change its entry.
    pub fn on_buttons(&mut self, down: u16) -> (r: SettingsEffect)
        requires
            old(self).wf(),
        ensures
            final(self).wf(),
            r.map_select == spec_pressed(down, PAD_BUTTON_START),
            final(self).inverted_pitch_control == (old(self).inverted_pitch_control != spec_pressed(
                down,
                PAD_TRIGGER_Z,
            )),
            final(self).widescreen == old(self).widescreen,
            ({
                let after_up = if spec_pressed(down, PAD_BUTTON_UP) {
                    spec_ui_up(old(self).ui_item as int)
                } else {
                    old(self).ui_item as int
                };
                final(self).ui_item == if spec_pressed(down, PAD_BUTTON_DOWN) {
                    spec_ui_down(after_up)
                } else {
                    after_up
                }
            }),
            ({
                let inc = spec_ui_increment(down);
                let item = final(self).ui_item;
                &&& final(self).msaa == (old(self).msaa != (item == 0 && inc != 0))
                &&& final(self).copy_filter == (old(self).copy_filter != (item == 1 && inc != 0))
                &&& final(self).lightmap_style == if item == 2 {
                    spec_step_style(old(self).lightmap_style as int, inc)
                } else {
                    old(self).lightmap_style as int
                }
                &&& r.relight == (final(self).lightmap_style != old(self).lightmap_style)
                &&& final(self).gp_perf_metric0.spec_index() == if item == 3 && inc == -1 {
                    spec_cycle_prev(old(self).gp_perf_metric0.spec_index() as int, GpPerfMetric0::COUNT as int)
                } else if item == 3 && inc == 1 {
                    spec_cycle_next(old(self).gp_perf_metric0.spec_index() as int, GpPerfMetric0::COUNT as int)
                } else {
                    old(self).gp_perf_metric0.spec_index() as int
                }
                &&& final(self).gp_perf_metric1.spec_index() == if item == 4 && inc == -1 {
                    spec_cycle_prev(old(self).gp_perf_metric1.spec_index() as int, GpPerfMetric1::COUNT as int)
                } else if item == 4 && inc == 1 {
                    spec_cycle_next(old(self).gp_perf_metric1.spec_index() as int, GpPerfMetric1::COUNT as int)
                } else {
                    old(self).gp_perf_metric1.spec_index() as int
                }
            }),
    {
        let map_select = pressed(down, PAD_BUTTON_START);
        let inverted = self.inverted_pitch_control != pressed(down, PAD_TRIGGER_Z);
        let item = step_ui_item(self.ui_item, down);
        let inc = ui_increment(down);
        let msaa = self.msaa != (item == 0 && inc != 0);
        let copy_filter = self.copy_filter != (item == 1 && inc != 0);
        let style = if item == 2 {
            step_style(self.lightmap_style, inc)
        } else {
            self.lightmap_style
        };
        let relight = style != self.lightmap_style;
        let metric0 = if item == 3 {
            step_metric0(self.gp_perf_metric0, inc)
        } else {
            self.gp_perf_metric0
        };
        let metric1 = if item == 4 {
            step_metric1(self.gp_perf_metric1, inc)
        } else {
            self.gp_perf_metric1
        };
        self.inverted_pitch_control = inverted;
        self.ui_item = item;
        self.msaa = msaa;
        self.copy_filter = copy_filter;
        self.lightmap_style = style;
        self.gp_perf_metric0 = metric0;
        self.gp_perf_metric1 = metric1;
        SettingsEffect { map_select, relight }
    }
}

/// Joins the two 16-bit halves of a hardware counter.
pub fn combine_counter(high: u16, low: u16) -> (r: u32)
    ensures
        r == high as int * 0x1_0000 + low as int,
{
    let r = (high as u32) << 16u32 | low as u32;
    assert(r == high as int * 0x1_0000 + low as int) by (bit_vector)
        requires
            r == (high as u32) << 16u32 | low as u32,
    ;
    r
}

/// The performance counters read back after a frame.
#[derive(Clone, Copy, Debug, PartialEq, Eq, Structural)]
pub struct PerformanceMetrics {
    pub gp_a: u32,
    pub gp_b: u32,
    pub gp_c: u32,
    pub gp_d: u32,
    pub vcache_metric_check: u32,
    pub vcache_metric_miss: u32,
    pub vcache_metric_stall: u32,
}

impl PerformanceMetrics {
    /// All counters zero.
    pub fn zeroed() -> (r: Self)
        ensures
            r == (PerformanceMetrics {
                gp_a: 0,
                gp_b: 0,
                gp_c: 0,
                gp_d: 0,
                vcache_metric_check: 0,
                vcache_metric_miss: 0,
                vcache_metric_stall: 0,
            }),
    {
        PerformanceMetrics {
            gp_a: 0,
            gp_b: 0,
            gp_c: 0,
            gp_d: 0,
            vcache_metric_check: 0,
            vcache_metric_miss: 0,
            vcache_metric_stall: 0,
        }
    }

    /// Builds the counters from the (high, low) halves of the rasterizer-busy, transform-clock,
    /// wait-in, wait-out and vertex-cache check, miss and stall registers, in that order.
    pub fn from_halves(halves: [(u16, u16); 7]) -> (r: Self)
        ensures
            r.gp_a == halves[0].0 * 0x1_0000 + halves[0].1,
            r.gp_b == halves[1].0 * 0x1_0000 + halves[1].1,
            r.gp_c == halves[2].0 * 0x1_0000 + halves[2].1,
            r.gp_d == halves[3].0 * 0x1_0000 + halves[3].1,
            r.vcache_metric_check == halves[4].0 * 0x1_0000 + halves[4].1,
            r.vcache_metric_miss == halves[5].0 * 0x1_0000 + halves[5].1,
            r.vcache_metric_stall == halves[6].0 * 0x1_0000 + halves[6].1,
    {
        PerformanceMetrics {
            gp_a: combine_counter(halves[0].0, halves[0].1),
            gp_b: combine_counter(halves[1].0, halves[1].1),
            gp_c: combine_counter(halves[2].0, halves[2].1),
            gp_d: combine_counter(halves[3].0, halves[3].1),
            vcache_metric_check: combine_counter(halves[4].0, halves[4].1),
            vcache_metric_miss: combine_counter(halves[5].0, halves[5].1),
            vcache_metric_stall: combine_counter(halves[6].0, halves[6].1),
        }
    }
}

/// The region of the embedded frame buffer copied to the external one, and where it lands.
#[derive(Clone, Copy, Debug, PartialEq, Eq, Structural)]
pub struct DispCopy {
    pub src_height: u16,
    pub dst_height: u16,
    /// Byte offset into the external frame buffer.
    pub xfb_offset: usize,
}

/// Width in pixels of the copied frame.
pub const DISP_COPY_WIDTH: u16 = 640;

/// The copy for a full frame (`None`) or for the top (`Some(false)`) or bottom (`Some(true)`)
/// half of an antialiased frame, which is drawn in two halves of 240 lines.
pub fn disp_copy_region(half: Option<bool>) -> (r: DispCopy)
    ensures
        half is None ==> r == (DispCopy { src_height: 480, dst_height: 480, xfb_offset: 0 }),
        half == Some(false) ==> r == (DispCopy { src_height: 240, dst_height: 240, xfb_offset: 0 }),
        half == Some(true) ==> r == (DispCopy {
            src_height: 240,
            dst_height: 240,
            xfb_offset: 307200,
        }),
{
    match half {
        None => DispCopy { src_height: 480, dst_height: 480, xfb_offset: 0 },
        Some(false) => DispCopy { src_height: 240, dst_height: 240, xfb_offset: 0 },
        Some(true) => DispCopy { src_height: 240, dst_height: 240, xfb_offset: 2 * 640 * 240 },
    }
}

/// The retrace counter after one more retrace; it wraps around as the hardware counter does.
pub open spec fn spec_count_retrace(frames: usize) -> usize {
    if frames == usize::MAX { 0 } else { (frames + 1) as usize }
}

/// The double-buffered external frame buffers and the retrace counter shared with the
/// vertical-retrace handler.
#[derive(Clone, Copy, Debug, PartialEq, Eq, Structural)]
pub struct FrameSwap {
    /// Address of the buffer on screen.
    pub front: usize,
    /// Address of the buffer being drawn.
    pub back: usize,
    /// A finished frame waits to be shown.
    pub do_copy: bool,
    /// Retraces since the last swap.
    pub frames: usize,
    /// Retraces that the last shown frame stayed on screen.
    pub last_frame_frames: usize,
}

impl FrameSwap {
    /// Buffers at `front` and `back`, nothing pending.
    pub fn new(front: usize, back: usize) -> (r: Self)
        ensures
            r == (FrameSwap { front, back, do_copy: false, frames: 0, last_frame_frames: 0 }),
    {
        FrameSwap { front, back, do_copy: false, frames: 0, last_frame_frames: 0 }
    }

    /// Marks the frame in the back buffer as finished.
    pub fn request_copy(&mut self)
        ensures
            *final(self) == (FrameSwap { do_copy: true, ..*old(self) }),
    {
        self.do_copy = true;
    }

    /// One vertical retrace: counts it and, when a frame is finished, swaps the buffers and
    /// returns the buffer to show next.
    pub fn on_retrace(&mut self) -> (r: Option<usize>)
        ensures
            old(self).do_copy ==> {
                &&& r == Some(old(self).back)
                &&& *final(self) == (FrameSwap {
                    front: old(self).back,
                    back: old(self).front,
                    do_copy: false,
                    frames: 0,
                    last_frame_frames: spec_count_retrace(old(self).frames),
                })
            },
            !old(self).do_copy ==> {
                &&& r is None
                &&& *final(self) == (FrameSwap {
                    frames: spec_count_retrace(old(self).frames),
                    ..*old(self)
                })
            },
    {
        self.frames = self.frames.wrapping_add(1);
        if self.do_copy {
            self.do_copy = false;
            let next_front = self.back;
            self.back = self.front;
            self.front = next_front;
            self.last_frame_frames = self.frames;
            self.frames = 0;
            Some(next_front)
        } else {
            None
        }
    }
}

/// Two finished frames shown one after the other leave the buffers where they started.
pub proof fn lemma_two_swaps_restore(s: FrameSwap, t: FrameSwap, u: FrameSwap)
    requires
        s.do_copy,
        t == (FrameSwap {
            front: s.back,
            back: s.front,
            do_copy: true,
            frames: 0,
            last_frame_frames: spec_count_retrace(s.frames),
        }),
        u == (FrameSwap {
            front: t.back,
            back: t.front,
            do_copy: false,
            frames: 0,
            last_frame_frames: spec_count_retrace(t.frames),
        }),
    ensures
        u.front == s.front,
        u.back == s.back,
{
}

/// The texture cache region of texture map `map_id`; the hardware has four.
pub fn tex_region_index(map_id: u8) -> (r: usize)
    requires
        map_id < 4,
    ensures
        r == map_id,
{
    map_id as usize
}

impl GpPerfMetric0 {
    /// The metric's name, as the overlay shows it.
    pub open spec fn spec_name(self) -> Seq<char> {
        match self {
            GpPerfMetric0::VERTICES => "VERTICES"@,
            GpPerfMetric0::CLIP_VTX => "CLIP_VTX"@,
            GpPerfMetric0::CLIP_CLKS => "CLIP_CLKS"@,
            GpPerfMetric0::XF_WAIT_IN => "XF_WAIT_IN"@,
            GpPerfMetric0::XF_WAIT_OUT => "XF_WAIT_OUT"@,
            GpPerfMetric0::XF_XFRM_CLKS => "XF_XFRM_CLKS"@,
            GpPerfMetric0::XF_LIT_CLKS => "XF_LIT_CLKS"@,
            GpPerfMetric0::XF_BOT_CLKS => "XF_BOT_CLKS"@,
            GpPerfMetric0::XF_REGLD_CLKS => "XF_REGLD_CLKS"@,
            GpPerfMetric0::XF_REGRD_CLKS => "XF_REGRD_CLKS"@,
            GpPerfMetric0::CLIP_RATIO => "CLIP_RATIO"@,
            GpPerfMetric0::TRIANGLES => "TRIANGLES"@,
            GpPerfMetric0::TRIANGLES_CULLED => "TRIANGLES_CULLED"@,
            GpPerfMetric0::TRIANGLES_PASSED => "TRIANGLES_PASSED"@,
            GpPerfMetric0::TRIANGLES_SCISSORED => "TRIANGLES_SCISSORED"@,
            GpPerfMetric0::TRIANGLES_0TEX => "TRIANGLES_0TEX"@,
            GpPerfMetric0::TRIANGLES_1TEX => "TRIANGLES_1TEX"@,
            GpPerfMetric0::TRIANGLES_2TEX => "TRIANGLES_2TEX"@,
            GpPerfMetric0::TRIANGLES_3TEX => "TRIANGLES_3TEX"@,
            GpPerfMetric0::TRIANGLES_4TEX => "TRIANGLES_4TEX"@,
            GpPerfMetric0::TRIANGLES_5TEX => "TRIANGLES_5TEX"@,
            GpPerfMetric0::TRIANGLES_6TEX => "TRIANGLES_6TEX"@,
            GpPerfMetric0::TRIANGLES_7TEX => "TRIANGLES_7TEX"@,
            GpPerfMetric0::TRIANGLES_8TEX => "TRIANGLES_8TEX"@,
            GpPerfMetric0::TRIANGLES_0CLR => "TRIANGLES_0CLR"@,
            GpPerfMetric0::TRIANGLES_1CLR => "TRIANGLES_1CLR"@,
            GpPerfMetric0::TRIANGLES_2CLR => "TRIANGLES_2CLR"@,
            GpPerfMetric0::QUAD_0CVG => "QUAD_0CVG"@,
            GpPerfMetric0::QUAD_NON0CVG => "QUAD_NON0CVG"@,
            GpPerfMetric0::QUAD_1CVG => "QUAD_1CVG"@,
            GpPerfMetric0::QUAD_2CVG => "QUAD_2CVG"@,
            GpPerfMetric0::QUAD_3CVG => "QUAD_3CVG"@,
            GpPerfMetric0::QUAD_4CVG => "QUAD_4CVG"@,
            GpPerfMetric0::AVG_QUAD_CNT => "AVG_QUAD_CNT"@,
            GpPerfMetric0::CLOCKS => "CLOCKS"@,
            GpPerfMetric0::NONE => "NONE"@,
        }
    }

    /// The metric's name, as the overlay shows it.
    pub fn name(self) -> (r: &'static str)
        ensures
            r@ == self.spec_name(),
    {
        match self {
            GpPerfMetric0::VERTICES => "VERTICES",
            GpPerfMetric0::CLIP_VTX => "CLIP_VTX",
            GpPerfMetric0::CLIP_CLKS => "CLIP_CLKS",
            GpPerfMetric0::XF_WAIT_IN => "XF_WAIT_IN",
            GpPerfMetric0::XF_WAIT_OUT => "XF_WAIT_OUT",
            GpPerfMetric0::XF_XFRM_CLKS => "XF_XFRM_CLKS",
            GpPerfMetric0::XF_LIT_CLKS => "XF_LIT_CLKS",
            GpPerfMetric0::XF_BOT_CLKS => "XF_BOT_CLKS",
            GpPerfMetric0::XF_REGLD_CLKS => "XF_REGLD_CLKS",
            GpPerfMetric0::XF_REGRD_CLKS => "XF_REGRD_CLKS",
            GpPerfMetric0::CLIP_RATIO => "CLIP_RATIO",
            GpPerfMetric0::TRIANGLES => "TRIANGLES",
            GpPerfMetric0::TRIANGLES_CULLED => "TRIANGLES_CULLED",
            GpPerfMetric0::TRIANGLES_PASSED => "TRIANGLES_PASSED",
            GpPerfMetric0::TRIANGLES_SCISSORED => "TRIANGLES_SCISSORED",
            GpPerfMetric0::TRIANGLES_0TEX => "TRIANGLES_0TEX",
            GpPerfMetric0::TRIANGLES_1TEX => "TRIANGLES_1TEX",
            GpPerfMetric0::TRIANGLES_2TEX => "TRIANGLES_2TEX",
            GpPerfMetric0::TRIANGLES_3TEX => "TRIANGLES_3TEX",
            GpPerfMetric0::TRIANGLES_4TEX => "TRIANGLES_4TEX",
            GpPerfMetric0::TRIANGLES_5TEX => "TRIANGLES_5TEX",
            GpPerfMetric0::TRIANGLES_6TEX => "TRIANGLES_6TEX",
            GpPerfMetric0::TRIANGLES_7TEX => "TRIANGLES_7TEX",
            GpPerfMetric0::TRIANGLES_8TEX => "TRIANGLES_8TEX",
            GpPerfMetric0::TRIANGLES_0CLR => "TRIANGLES_0CLR",
            GpPerfMetric0::TRIANGLES_1CLR => "TRIANGLES_1CLR",
            GpPerfMetric0::TRIANGLES_2CLR => "TRIANGLES_2CLR",
            GpPerfMetric0::QUAD_0CVG => "QUAD_0CVG",
            GpPerfMetric0::QUAD_NON0CVG => "QUAD_NON0CVG",
            GpPerfMetric0::QUAD_1CVG => "QUAD_1CVG",
            GpPerfMetric0::QUAD_2CVG => "QUAD_2CVG",
            GpPerfMetric0::QUAD_3CVG => "QUAD_3CVG",
            GpPerfMetric0::QUAD_4CVG => "QUAD_4CVG",
            GpPerfMetric0::AVG_QUAD_CNT => "AVG_QUAD_CNT",
            GpPerfMetric0::CLOCKS => "CLOCKS",
            GpPerfMetric0::NONE => "NONE",
        }
    }
}

impl GpPerfMetric1 {
    /// The metric's name, as the overlay shows it.
    pub open spec fn spec_name(self) -> Seq<char> {
        match self {
            GpPerfMetric1::TEXELS => "TEXELS"@,
            GpPerfMetric1::TX_IDLE => "TX_IDLE"@,
            GpPerfMetric1::TX_REGS => "TX_REGS"@,
            GpPerfMetric1::TX_MEMSTALL => "TX_MEMSTALL"@,
            GpPerfMetric1::TC_CHECK1_2 => "TC_CHECK1_2"@,
            GpPerfMetric1::TC_CHECK3_4 => "TC_CHECK3_4"@,
            GpPerfMetric1::TC_CHECK5_6 => "TC_CHECK5_6"@,
            GpPerfMetric1::TC_CHECK7_8 => "TC_CHECK7_8"@,
            GpPerfMetric1::TC_MISS => "TC_MISS"@,
            GpPerfMetric1::VC_ELEMQ_FULL => "VC_ELEMQ_FULL"@,
            GpPerfMetric1::VC_MISSQ_FULL => "VC_MISSQ_FULL"@,
            GpPerfMetric1::VC_MEMREQ_FULL => "VC_MEMREQ_FULL"@,
            GpPerfMetric1::VC_STATUS7 => "VC_STATUS7"@,
            GpPerfMetric1::VC_MISSREP_FULL => "VC_MISSREP_FULL"@,
            GpPerfMetric1::VC_STREAMBUF_LOW => "VC_STREAMBUF_LOW"@,
            GpPerfMetric1::VC_ALL_STALLS => "VC_ALL_STALLS"@,
            GpPerfMetric1::VERTICES => "VERTICES"@,
            GpPerfMetric1::FIFO_REQ => "FIFO_REQ"@,
            GpPerfMetric1::CALL_REQ => "CALL_REQ"@,
            GpPerfMetric1::VC_MISS_REQ => "VC_MISS_REQ"@,
            GpPerfMetric1::CP_ALL_REQ => "CP_ALL_REQ"@,
            GpPerfMetric1::CLOCKS => "CLOCKS"@,
            GpPerfMetric1::NONE => "NONE"@,
        }
    }

    /// The metric's name, as the overlay shows it.
    pub fn name(self) -> (r: &'static str)
        ensures
            r@ == self.spec_name(),
    {
        match self {
            GpPerfMetric1::TEXELS => "TEXELS",
            GpPerfMetric1::TX_IDLE => "TX_IDLE",
            GpPerfMetric1::TX_REGS => "TX_REGS",
            GpPerfMetric1::TX_MEMSTALL => "TX_MEMSTALL",
            GpPerfMetric1::TC_CHECK1_2 => "TC_CHECK1_2",
            GpPerfMetric1::TC_CHECK3_4 => "TC_CHECK3_4",
            GpPerfMetric1::TC_CHECK5_6 => "TC_CHECK5_6",
            GpPerfMetric1::TC_CHECK7_8 => "TC_CHECK7_8",
            GpPerfMetric1::TC_MISS => "TC_MISS",
            GpPerfMetric1::VC_ELEMQ_FULL => "VC_ELEMQ_FULL",
            GpPerfMetric1::VC_MISSQ_FULL => "VC_MISSQ_FULL",
            GpPerfMetric1::VC_MEMREQ_FULL => "VC_MEMREQ_FULL",
            GpPerfMetric1::VC_STATUS7 => "VC_STATUS7",
            GpPerfMetric1::VC_MISSREP_FULL => "VC_MISSREP_FULL",
            GpPerfMetric1::VC_STREAMBUF_LOW => "VC_STREAMBUF_LOW",
            GpPerfMetric1::VC_ALL_STALLS => "VC_ALL_STALLS",
            GpPerfMetric1::VERTICES => "VERTICES",
            GpPerfMetric1::FIFO_REQ => "FIFO_REQ",
            GpPerfMetric1::CALL_REQ => "CALL_REQ",
            GpPerfMetric1::VC_MISS_REQ => "VC_MISS_REQ",
            GpPerfMetric1::CP_ALL_REQ => "CP_ALL_REQ",
            GpPerfMetric1::CLOCKS => "CLOCKS",
            GpPerfMetric1::NONE => "NONE",
        }
    }
}

} // verus!

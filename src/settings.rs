use vstd::prelude::*;

verus! {

/// Which of the overlay's windows are open.
#[derive(Clone, Copy, Debug, PartialEq, Eq, Structural)]
pub struct WndState {
    pub is_open_help_wnd: bool,
    pub is_open_ctrl_wnd: bool,
    pub is_open_status_wnd: bool,
}

impl Default for WndState {
    /// All windows open.
    fn default() -> (r: Self)
        ensures
            r.is_open_help_wnd,
            r.is_open_ctrl_wnd,
            r.is_open_status_wnd,
    {
        WndState { is_open_help_wnd: true, is_open_ctrl_wnd: true, is_open_status_wnd: true }
    }
}

/// The smallest scale of the overlay. Scales are kept in hundredths: 100 is
/// the natural size.
pub const SCALE_MIN: u32 = 50;

/// The largest scale of the overlay, in hundredths.
pub const SCALE_MAX: u32 = 350;

/// One press of a zoom key moves the scale by this much.
pub const SCALE_STEP: u32 = 20;

/// The scale that the reset key brings back.
pub const SCALE_RESET: u32 = 120;

/// The keys of one frame that bear on the overlay's scale.
#[derive(Clone, Copy, Debug, PartialEq, Eq, Structural)]
pub struct ScaleKeys {
    /// Either control key is held down.
    pub ctrl: bool,
    /// Plus or equals was pressed in this frame.
    pub grow: bool,
    /// Zero, on the main keys or the keypad, was pressed in this frame.
    pub reset: bool,
    /// Minus was pressed in this frame.
    pub shrink: bool,
}

pub open spec fn clamp_scale(x: int) -> int {
    if x < SCALE_MIN {
        SCALE_MIN as int
    } else if x > SCALE_MAX {
        SCALE_MAX as int
    } else {
        x
    }
}

/// The scale after one frame's keys. Nothing happens without a control key;
/// with one, growing, resetting and shrinking apply in that order, and each
/// step keeps the scale within `SCALE_MIN..=SCALE_MAX`.
pub open spec fn scale_after(cur: int, keys: ScaleKeys) -> int {
    if !keys.ctrl {
        cur
    } else {
        let a = if keys.grow {
            clamp_scale(cur + SCALE_STEP)
        } else {
            cur
        };
        let b = if keys.reset {
            SCALE_RESET as int
        } else {
            a
        };
        if keys.shrink {
            clamp_scale(b - SCALE_STEP)
        } else {
            b
        }
    }
}

fn clamped_up(cur: u32) -> (r: u32)
    ensures
        r == clamp_scale(cur + SCALE_STEP),
{
    if cur >= SCALE_MAX - SCALE_STEP {
        SCALE_MAX
    } else if cur + SCALE_STEP < SCALE_MIN {
        SCALE_MIN
    } else {
        cur + SCALE_STEP
    }
}

fn clamped_down(cur: u32) -> (r: u32)
    ensures
        r == clamp_scale(cur - SCALE_STEP),
{
    if cur > SCALE_MAX + SCALE_STEP {
        SCALE_MAX
    } else if cur < SCALE_MIN + SCALE_STEP {
        SCALE_MIN
    } else {
        cur - SCALE_STEP
    }
}

/// The overlay's scale, in hundredths, after a frame with these keys.
pub fn next_scale(cur: u32, keys: ScaleKeys) -> (r: u32)
    ensures
        r == scale_after(cur as int, keys),
{
    if !keys.ctrl {
        return cur;
    }
    let mut s = cur;
    if keys.grow {
        s = clamped_up(s);
    }
    if keys.reset {
        s = SCALE_RESET;
    }
    if keys.shrink {
        s = clamped_down(s);
    }
    s
}

/// Once a zoom key was used, the scale stays within bounds; keys without a
/// control key leave it alone.
pub proof fn lemma_scale_bounds(cur: int, keys: ScaleKeys)
    ensures
        keys.ctrl && (keys.grow || keys.reset || keys.shrink) ==> SCALE_MIN <= scale_after(cur, keys)
            <= SCALE_MAX,
        !keys.ctrl ==> scale_after(cur, keys) == cur,
        SCALE_MIN <= cur <= SCALE_MAX ==> SCALE_MIN <= scale_after(cur, keys) <= SCALE_MAX,
{
}

/// Frames counted between two readings of a frame counter that wraps
/// around at `u32::MAX`.
pub fn frames_between(last: u32, now: u32) -> (r: u32)
    ensures
        r == (if now >= last {
            now - last
        } else {
            now + 0x1_0000_0000 - last
        }),
{
    if now >= last {
        now - last
    } else {
        (u32::MAX - last) + now + 1
    }
}

} // verus!

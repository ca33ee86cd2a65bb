//! The render loop's per-tick state transition.
//!
//! Once per tick the loop drains the shared accumulator and feeds the net
//! change to [`RenderState::tick`], which clamps the text position to the
//! screen and decides what to draw: when the position changed (or on the
//! very first tick, when nothing is on screen yet) it erases the text and
//! its marker rectangle at the old position and redraws both at the new
//! one; every tick, changed or not, it also draws one overlay diagonal
//! line. The drawing itself is left to the display surface: `tick` returns
//! the commands as plain data.

use vstd::prelude::*;

verus! {

/// Logical screen width in pixels.
pub const SCREEN_W: i32 = 135;

/// Logical screen height in pixels.
pub const SCREEN_H: i32 = 240;

/// Width of one glyph of the fixed-width font.
pub const GLYPH_W: i32 = 10;

/// The largest horizontal text position: the clamp's upper bound.
pub const TEXT_MAX_X: i32 = SCREEN_W - GLYPH_W;

/// How far the marker rectangle extends beyond the text's top-left corner.
pub const MARKER_PAD: i32 = 2;

/// Height of the marker rectangle.
pub const MARKER_H: u32 = 24;

/// One drawing command for the display surface.
#[derive(Clone, Copy, PartialEq, Eq, Structural, Debug)]
pub enum DrawCmd {
    /// Render the text at `(x, y)`, in the background color when `erase`.
    Text { x: i32, y: i32, erase: bool },
    /// Outline the marker rectangle, in the background color when `erase`.
    Marker { x: i32, y: i32, width: u32, height: u32, erase: bool },
    /// Draw a one-pixel line from `(x0, y0)` to `(x1, y1)`.
    Line { x0: i32, y0: i32, x1: i32, y1: i32 },
}

/// The render loop's own state: where the text stands and whether anything
/// has been drawn yet.
pub struct RenderState {
    /// Current horizontal text position, always in `[0, TEXT_MAX_X]`.
    pub text_x: i32,
    /// Fixed vertical text position.
    pub text_y: i32,
    /// Length of the displayed text in glyphs; fixes the marker's width.
    pub text_len: u32,
    /// True only before the first tick has drawn anything.
    pub first_tick: bool,
}

/// A position clamped to the screen: values below zero snap to zero, values
/// above [`TEXT_MAX_X`] snap to [`TEXT_MAX_X`].
pub open spec fn clamped_x(x: int) -> int {
    if x < 0 {
        0
    } else if x > TEXT_MAX_X as int {
        TEXT_MAX_X as int
    } else {
        x
    }
}

/// The marker rectangle around the text at position `x`, padded by
/// [`MARKER_PAD`] and as wide as the text plus the padding on both sides.
pub open spec fn marker_for(st: RenderState, x: i32, erase: bool) -> DrawCmd {
    DrawCmd::Marker {
        x: (x - MARKER_PAD) as i32,
        y: (st.text_y - MARKER_PAD) as i32,
        width: (st.text_len * (GLYPH_W as u32) + 2 * (MARKER_PAD as u32)) as u32,
        height: MARKER_H,
        erase,
    }
}

/// The overlay diagonal drawn unconditionally once per tick.
pub open spec fn overlay_line() -> DrawCmd {
    DrawCmd::Line { x0: 0, y0: 0, x1: (SCREEN_W - 1) as i32, y1: (SCREEN_H - 1) as i32 }
}

impl RenderState {
    /// The state invariant: the text position is on screen and the marker
    /// geometry is representable.
    pub open spec fn wf(&self) -> bool {
        &&& 0 <= self.text_x <= TEXT_MAX_X
        &&& i32::MIN + MARKER_PAD <= self.text_y
        &&& self.text_len as int * (GLYPH_W as int) + 2 * (MARKER_PAD as int) <= u32::MAX as int
    }

    /// Whether this tick must erase and redraw: the position is about to
    /// move, or nothing has been drawn yet.
    pub open spec fn needs_redraw(&self, change: i32) -> bool {
        change != 0 || self.first_tick
    }
}

/// Everything one tick draws, in order: on a redraw, erase the text and the
/// marker at the old position, then draw both at the new clamped position;
/// in every case, finish with the overlay line.
pub open spec fn tick_cmds(st: RenderState, change: i32) -> Seq<DrawCmd> {
    if st.needs_redraw(change) {
        let nx = clamped_x(st.text_x + change) as i32;
        seq![
            DrawCmd::Text { x: st.text_x, y: st.text_y, erase: true },
            marker_for(st, st.text_x, true),
            DrawCmd::Text { x: nx, y: st.text_y, erase: false },
            marker_for(st, nx, false),
            overlay_line(),
        ]
    } else {
        seq![overlay_line()]
    }
}

/// Clamp a position update to the screen. The candidate `x + change` is
/// computed without overflow; out-of-range candidates snap to the nearest
/// bound.
pub fn clamp_position(x: i32, change: i32) -> (r: i32)
    ensures
        r as int == clamped_x(x + change),
{
    let candidate: i64 = x as i64 + change as i64;
    if candidate < 0 {
        0
    } else if candidate > TEXT_MAX_X as i64 {
        TEXT_MAX_X
    } else {
        candidate as i32
    }
}

impl RenderState {
    /// The state before the first tick: nothing drawn yet, text at the given
    /// on-screen position.
    pub fn new(text_x: i32, text_y: i32, text_len: u32) -> (r: RenderState)
        requires
            0 <= text_x <= TEXT_MAX_X,
            i32::MIN + MARKER_PAD <= text_y,
            text_len as int * (GLYPH_W as int) + 2 * (MARKER_PAD as int) <= u32::MAX as int,
        ensures
            r.wf(),
            r.text_x == text_x,
            r.text_y == text_y,
            r.text_len == text_len,
            r.first_tick,
    {
        RenderState { text_x, text_y, text_len, first_tick: true }
    }

    /// One render tick, fed the net change drained from the accumulator.
    ///
    /// The text position moves to the clamped candidate exactly when a
    /// redraw is due (the change is nonzero, or this is the first tick);
    /// afterwards the first tick is over. The returned commands are exactly
    /// [`tick_cmds`]: erase-pair and draw-pair on a redraw, and the overlay
    /// line in every case.
    pub fn tick(&mut self, change: i32) -> (cmds: Vec<DrawCmd>)
        requires
            old(self).wf(),
        ensures
            final(self).wf(),
            final(self).text_y == old(self).text_y,
            final(self).text_len == old(self).text_len,
            !final(self).first_tick,
            old(self).needs_redraw(change) ==> final(self).text_x as int == clamped_x(
                old(self).text_x + change,
            ),
            !old(self).needs_redraw(change) ==> final(self).text_x == old(self).text_x,
            cmds@ == tick_cmds(*old(self), change),
    {
        let mut cmds: Vec<DrawCmd> = Vec::new();
        if change != 0 || self.first_tick {
            let width: u32 = self.text_len * (GLYPH_W as u32) + 2 * (MARKER_PAD as u32);
            cmds.push(DrawCmd::Text { x: self.text_x, y: self.text_y, erase: true });
            cmds.push(DrawCmd::Marker {
                x: self.text_x - MARKER_PAD,
                y: self.text_y - MARKER_PAD,
                width,
                height: MARKER_H,
                erase: true,
            });
            let new_x = clamp_position(self.text_x, change);
            self.text_x = new_x;
            cmds.push(DrawCmd::Text { x: new_x, y: self.text_y, erase: false });
            cmds.push(DrawCmd::Marker {
                x: new_x - MARKER_PAD,
                y: self.text_y - MARKER_PAD,
                width,
                height: MARKER_H,
                erase: false,
            });
        }
        self.first_tick = false;
        cmds.push(DrawCmd::Line { x0: 0, y0: 0, x1: SCREEN_W - 1, y1: SCREEN_H - 1 });
        proof {
            assert(cmds@ =~= tick_cmds(*old(self), change));
        }
        cmds
    }
}

/// Clamping idempotence: a clamped position lies within the screen bounds,
/// re-clamping a clamped position does not move it, and a position already
/// within bounds (in particular, one updated with a change of zero) is left
/// exactly where it was.
pub proof fn lemma_clamp_idempotent(x: int)
    ensures
        0 <= clamped_x(x) <= TEXT_MAX_X as int,
        clamped_x(clamped_x(x)) == clamped_x(x),
        0 <= x <= TEXT_MAX_X as int ==> clamped_x(x) == x,
{
}

/// First-tick redraw: when nothing has been drawn yet, the tick's commands
/// include the draw of the text and of its marker at the clamped position —
/// even when the change is zero, in which case that position is the
/// unchanged one.
pub proof fn lemma_first_tick_redraws(st: RenderState, change: i32)
    requires
        st.first_tick,
        st.wf(),
    ensures
        tick_cmds(st, change).len() == 5,
        tick_cmds(st, change)[2] == (DrawCmd::Text {
            x: clamped_x(st.text_x + change) as i32,
            y: st.text_y,
            erase: false,
        }),
        tick_cmds(st, change)[3] == marker_for(st, clamped_x(st.text_x + change) as i32, false),
        change == 0 ==> clamped_x(st.text_x + change) == st.text_x,
{
}

} // verus!

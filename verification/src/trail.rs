//! A rain trail: one falling vertical stream of glyphs in a fixed column.
//!
//! Index 0 of `glyphs` is the leading (bottom-most, brightest) glyph; larger
//! indices are older glyphs higher up. `bottom` is the leading row, `top` the
//! trailing row; both grow by `speed` each tick, and
//! `bottom - top == glyphs.len() - 1` holds throughout a trail's life.

use vstd::prelude::*;
use crate::instr::{DrawInstruction, spec_color_at, color_at};
use crate::rng::{is_alphanumeric_char, sample_alphanumeric, sample_range};

verus! {

/// The largest glyph count a trail may carry. Generous next to any terminal
/// height, and small enough that every row computation stays inside `i32`.
pub const MAX_TRAIL_LEN: usize = 0xFFFF;

pub struct RainTrail {
    /// The glyphs, newest (leading) first.
    pub glyphs: Vec<char>,
    /// The fixed 1-based column the trail falls in.
    pub column: u16,
    /// The trailing (top-most) occupied row.
    pub top: i32,
    /// The leading (bottom-most) occupied row.
    pub bottom: i32,
    /// Rows advanced per tick, drawn once at creation from 1..=3.
    pub speed: u8,
    /// True until the whole trail has scrolled past the bottom of the
    /// viewport; set false exactly once, by `render`, and never reset.
    pub alive: bool,
}

impl RainTrail {
    /// Well-formedness: the trail spans exactly `glyphs.len()` rows between
    /// its trailing and leading edge, sits in a real (1-based) column, and
    /// falls at a speed from the fixed range.
    pub open spec fn wf(self) -> bool {
        &&& 1 <= self.glyphs@.len() <= MAX_TRAIL_LEN
        &&& self.bottom - self.top == self.glyphs@.len() - 1
        &&& 1 <= self.speed <= 3
        &&& self.column >= 1
    }

    /// The glyph at index `i`, newest (leading) first.
    pub open spec fn spec_glyph(self, i: int) -> char {
        self.glyphs@[i]
    }

    /// A new trail enters from above the viewport: its head sits at row 0 and
    /// its tail at `-(length - 1)`, so no part has been drawn yet.
    pub fn new(length: usize, column: u16) -> (t: RainTrail)
        requires
            1 <= length <= MAX_TRAIL_LEN,
            column >= 1,
        ensures
            t.wf(),
            t.glyphs@.len() == length,
            forall|i: int| 0 <= i < length ==> is_alphanumeric_char(#[trigger] t.glyphs@[i]),
            t.column == column,
            t.bottom == 0,
            t.top == 1 - length,
            t.alive,
    {
        let mut glyphs: Vec<char> = Vec::new();
        let mut i: usize = 0;
        while i < length
            invariant
                i <= length,
                glyphs@.len() == i,
                forall|j: int| 0 <= j < i ==> is_alphanumeric_char(#[trigger] glyphs@[j]),
            decreases length - i,
        {
            glyphs.push(sample_alphanumeric());
            i = i + 1;
        }
        let speed = sample_range(1, 3) as u8;
        RainTrail {
            glyphs,
            column,
            top: 1i32 - length as i32,
            bottom: 0,
            speed,
            alive: true,
        }
    }

    /// Advance one tick: both edges move down by `speed`, and the glyph
    /// sequence rotates exactly one position — a fresh random glyph becomes
    /// the new head, every other glyph ages one slot, and the oldest is
    /// discarded. The span `bottom - top == len - 1` is preserved, and the
    /// length never changes.
    pub fn trickle(&mut self)
        requires
            old(self).wf(),
            old(self).bottom + old(self).speed <= i32::MAX,
        ensures
            final(self).wf(),
            final(self).bottom - final(self).top == final(self).glyphs@.len() - 1,
            final(self).glyphs@.len() == old(self).glyphs@.len(),
            final(self).top == old(self).top + old(self).speed,
            final(self).bottom == old(self).bottom + old(self).speed,
            is_alphanumeric_char(final(self).glyphs@[0]),
            forall|i: int|
                1 <= i < final(self).glyphs@.len()
                    ==> #[trigger] final(self).glyphs@[i] == old(self).glyphs@[i - 1],
            final(self).column == old(self).column,
            final(self).speed == old(self).speed,
            final(self).alive == old(self).alive,
    {
        self.bottom = self.bottom + self.speed as i32;
        self.top = self.top + self.speed as i32;
        let head = sample_alphanumeric();
        self.glyphs.insert(0, head);
        self.glyphs.pop();
    }

    /// Render one tick of this trail against a viewport of the given height,
    /// reading the pre-advance position.
    ///
    /// The instructions are exactly `spec_render_output(self, height)`: the
    /// visible glyphs (rows clipped to `[0, height]`), followed by the blanks
    /// that erase the rows the tail vacates this tick. A trail whose trailing
    /// edge has passed the bottom of the viewport is marked dead — that is
    /// the one `alive` transition, and it never reverses; otherwise `alive`
    /// is left as it was. Nothing else changes.
    pub fn render(&mut self, height: u16) -> (out: Vec<DrawInstruction>)
        requires
            old(self).wf(),
        ensures
            out@ == spec_render_output(*old(self), height),
            forall|k: int| 0 <= k < out@.len() ==> (#[trigger] out@[k]).spec_row() <= height,
            forall|k: int|
                0 <= k < out@.len() ==> (#[trigger] out@[k]).spec_column() == old(self).column,
            final(self).alive == (old(self).alive && old(self).top <= height),
            final(self).glyphs == old(self).glyphs,
            final(self).column == old(self).column,
            final(self).top == old(self).top,
            final(self).bottom == old(self).bottom,
            final(self).speed == old(self).speed,
            final(self).wf(),
    {
        let ghost pre = *self;
        let mut out: Vec<DrawInstruction> = Vec::new();
        if self.top > height as i32 {
            self.alive = false;
            // The trailing edge is past the bottom: nothing of the trail is
            // visible any more, only the rows its tail left behind want
            // erasing.
            push_blanks(&mut out, self.column, self.top, self.speed, height);
            proof {
                lemma_blank_rows_clipped(pre.column, pre.top as int, pre.speed as int, height, 1);
                assert(out@ =~= spec_render_output(pre, height));
            }
        } else {
            let len = self.glyphs.len();
            let mut i: usize = 0;
            while i < len
                invariant
                    *self == pre,
                    pre.wf(),
                    pre.top <= height,
                    len == pre.glyphs@.len(),
                    i <= len,
                    out@ + spec_glyph_instrs(pre, height, i as int)
                        == spec_glyph_instrs(pre, height, 0),
                decreases len - i,
            {
                let row = self.bottom - i as i32;
                let ghost out_before = out@;
                let ghost f_here = spec_glyph_instrs(pre, height, i as int);
                let ghost f_next = spec_glyph_instrs(pre, height, i as int + 1);
                if 0 <= row && row <= height as i32 {
                    let d = DrawInstruction::Glyph {
                        column: self.column,
                        row: row as u16,
                        color: color_at(i),
                        glyph: self.glyphs[i],
                    };
                    out.push(d);
                    proof {
                        assert(f_here == seq![d] + f_next);
                        assert(out_before + f_here =~= out@ + f_next);
                    }
                } else {
                    proof {
                        assert(f_here == f_next);
                    }
                }
                i = i + 1;
            }
            proof {
                assert(out@ =~= spec_glyph_instrs(pre, height, 0));
            }
            let vacated_top = self.top + self.speed as i32;
            if vacated_top > 0 {
                push_blanks(&mut out, self.column, vacated_top, self.speed, height);
            }
            proof {
                assert(out@ =~= spec_render_output(pre, height));
            }
        }
        proof {
            lemma_render_output_clipped(pre, height);
        }
        out
    }
}

/// Every instruction one render emits has its row clipped to the viewport —
/// never below row 0 (rows are unsigned) and never past `height` — and stands
/// in the trail's own column.
pub proof fn lemma_render_output_clipped(t: RainTrail, height: u16)
    ensures
        forall|k: int|
            0 <= k < spec_render_output(t, height).len()
                ==> (#[trigger] spec_render_output(t, height)[k]).spec_row() <= height
                && spec_render_output(t, height)[k].spec_column() == t.column,
{
    let s = spec_render_output(t, height);
    if t.top > height {
        lemma_blank_rows_clipped(t.column, t.top as int, t.speed as int, height, 1);
    } else {
        let g = spec_glyph_instrs(t, height, 0);
        let b = if t.top + t.speed > 0 {
            spec_blank_instrs(t.column, t.top + t.speed, t.speed as int, height, 1)
        } else {
            Seq::<DrawInstruction>::empty()
        };
        lemma_glyph_rows_clipped(t, height, 0);
        if t.top + t.speed > 0 {
            lemma_blank_rows_clipped(t.column, t.top + t.speed, t.speed as int, height, 1);
        }
        assert forall|k: int| 0 <= k < s.len() implies (#[trigger] s[k]).spec_row() <= height
            && s[k].spec_column() == t.column by {
            if k < g.len() {
                assert(s[k] == g[k]);
            } else {
                assert(s[k] == b[k - g.len()]);
            }
        }
    }
}

/// Every glyph instruction's row is clipped to the viewport, and every glyph
/// stands in the trail's own column.
pub proof fn lemma_glyph_rows_clipped(t: RainTrail, height: u16, from: int)
    ensures
        forall|k: int|
            0 <= k < spec_glyph_instrs(t, height, from).len()
                ==> (#[trigger] spec_glyph_instrs(t, height, from)[k]).spec_row() <= height
                && spec_glyph_instrs(t, height, from)[k].spec_column() == t.column,
    decreases t.glyphs@.len() - from,
{
    if from < 0 || from >= t.glyphs@.len() {
    } else {
        lemma_glyph_rows_clipped(t, height, from + 1);
        let s = spec_glyph_instrs(t, height, from);
        let rest = spec_glyph_instrs(t, height, from + 1);
        if 0 <= t.bottom - from <= height {
            assert forall|k: int| 0 <= k < s.len() implies (#[trigger] s[k]).spec_row() <= height
                && s[k].spec_column() == t.column by {
                if k > 0 {
                    assert(s[k] == rest[k - 1]);
                }
            }
        }
    }
}

/// The draw instructions for the glyphs of `t` at indices `from` and beyond:
/// for each index whose row `bottom - index` lies within `[0, height]`, a
/// coloured glyph instruction; glyphs whose row falls outside the viewport
/// are skipped entirely.
pub open spec fn spec_glyph_instrs(t: RainTrail, height: u16, from: int) -> Seq<DrawInstruction>
    decreases t.glyphs@.len() - from,
{
    if from < 0 || from >= t.glyphs@.len() {
        Seq::empty()
    } else if 0 <= t.bottom - from && t.bottom - from <= height {
        seq![
            DrawInstruction::Glyph {
                column: t.column,
                row: (t.bottom - from) as u16,
                color: spec_color_at(from),
                glyph: t.spec_glyph(from),
            },
        ] + spec_glyph_instrs(t, height, from + 1)
    } else {
        spec_glyph_instrs(t, height, from + 1)
    }
}

/// The blank (erasure) instructions below a trailing edge at `vacated_top`:
/// one for each row `vacated_top - i`, `i` in `from..=speed`, that lies
/// within `[0, height]`. These are the rows the tail vacates in one tick.
pub open spec fn spec_blank_instrs(
    column: u16,
    vacated_top: int,
    speed: int,
    height: u16,
    from: int,
) -> Seq<DrawInstruction>
    decreases speed - from + 1,
{
    if from < 1 || from > speed {
        Seq::empty()
    } else {
        let row = vacated_top - from;
        let rest = spec_blank_instrs(column, vacated_top, speed, height, from + 1);
        if 0 <= row <= height {
            seq![DrawInstruction::Blank { column, row: row as u16 }] + rest
        } else {
            rest
        }
    }
}

/// What one render of a trail emits, reading the pre-advance position: a dead
/// trail (trailing edge past the viewport bottom) yields only the erasure of
/// the rows its tail last vacated; a live one yields its visible glyphs and
/// then the erasure of the rows its tail vacates as it advances this tick —
/// `speed` rows just above the advanced trailing edge, where drawing from the
/// last tick would otherwise linger.
pub open spec fn spec_render_output(t: RainTrail, height: u16) -> Seq<DrawInstruction> {
    if t.top > height {
        spec_blank_instrs(t.column, t.top as int, t.speed as int, height, 1)
    } else {
        spec_glyph_instrs(t, height, 0) + (if t.top + t.speed > 0 {
            spec_blank_instrs(t.column, t.top + t.speed, t.speed as int, height, 1)
        } else {
            Seq::empty()
        })
    }
}

/// Every blank instruction's row is clipped to the viewport, and every blank
/// stands in the trail's own column.
pub proof fn lemma_blank_rows_clipped(
    column: u16,
    vacated_top: int,
    speed: int,
    height: u16,
    from: int,
)
    ensures
        forall|k: int|
            0 <= k < spec_blank_instrs(column, vacated_top, speed, height, from).len()
                ==> (#[trigger] spec_blank_instrs(column, vacated_top, speed, height, from)[k])
                    .spec_row() <= height
                && spec_blank_instrs(column, vacated_top, speed, height, from)[k]
                    .spec_column() == column,
    decreases speed - from + 1,
{
    if from < 1 || from > speed {
    } else {
        lemma_blank_rows_clipped(column, vacated_top, speed, height, from + 1);
        let s = spec_blank_instrs(column, vacated_top, speed, height, from);
        let rest = spec_blank_instrs(column, vacated_top, speed, height, from + 1);
        if 0 <= vacated_top - from <= height {
            assert forall|k: int| 0 <= k < s.len() implies (#[trigger] s[k]).spec_row() <= height
                && s[k].spec_column() == column by {
                if k > 0 {
                    assert(s[k] == rest[k - 1]);
                }
            }
        }
    }
}

/// Emit the blanks that erase the `speed` rows immediately above a trailing
/// edge at `vacated_top`, skipping any row outside `[0, height]`.
fn push_blanks(
    out: &mut Vec<DrawInstruction>,
    column: u16,
    vacated_top: i32,
    speed: u8,
    height: u16,
)
    requires
        vacated_top > 0,
        1 <= speed <= 3,
    ensures
        final(out)@ == old(out)@ + spec_blank_instrs(
            column,
            vacated_top as int,
            speed as int,
            height,
            1,
        ),
{
    let ghost base = out@;
    let mut i: u8 = 1;
    while i <= speed
        invariant
            vacated_top > 0,
            1 <= speed <= 3,
            1 <= i <= speed + 1,
            out@ + spec_blank_instrs(column, vacated_top as int, speed as int, height, i as int)
                == base + spec_blank_instrs(column, vacated_top as int, speed as int, height, 1),
        decreases speed + 1 - i,
    {
        let row = vacated_top - i as i32;
        let ghost out_before = out@;
        if 0 <= row && row <= height as i32 {
            out.push(DrawInstruction::Blank { column, row: row as u16 });
        }
        proof {
            assert(out_before + spec_blank_instrs(
                column,
                vacated_top as int,
                speed as int,
                height,
                i as int,
            ) =~= out@ + spec_blank_instrs(
                column,
                vacated_top as int,
                speed as int,
                height,
                i as int + 1,
            ));
        }
        i = i + 1;
    }
    proof {
        assert(out@ =~= old(out)@ + spec_blank_instrs(
            column,
            vacated_top as int,
            speed as int,
            height,
            1,
        ));
    }
}

} // verus!

//! The render surface: one terminal viewport owning the full set of live
//! trails, with all spawn-eligibility and pruning policy.

use vstd::prelude::*;
use crate::instr::DrawInstruction;
use crate::trail::{RainTrail, spec_render_output};
use crate::rng::sample_range;
use crate::escape::{frame_text, spec_frame_text};

verus! {

/// A column with a trail whose trailing row is at most this far down is
/// still too close to the top for a new trail to spawn above it without
/// visual collision.
pub const CLEARANCE: i32 = 5;

pub struct Glass {
    /// Viewport width in character cells, fixed for the surface's lifetime.
    pub width: u16,
    /// Viewport height in character cells, fixed for the surface's lifetime.
    pub height: u16,
    /// The live trails, in no required order.
    pub rain_trails: Vec<RainTrail>,
}

impl Glass {
    /// Well-formedness: every trail is itself well formed, still alive (dead
    /// ones are pruned before a tick returns), and falls in a column of the
    /// viewport.
    pub open spec fn wf(self) -> bool {
        forall|i: int|
            0 <= i < self.rain_trails@.len() ==> {
                &&& (#[trigger] self.rain_trails@[i]).wf()
                &&& self.rain_trails@[i].alive
                &&& 1 <= self.rain_trails@[i].column <= self.width
            }
    }

    /// A fresh surface has no trails.
    pub fn new(width: u16, height: u16) -> (g: Glass)
        ensures
            g.wf(),
            g.width == width,
            g.height == height,
            g.rain_trails@.len() == 0,
    {
        Glass { width, height, rain_trails: Vec::new() }
    }

    /// Whether `column` has room for a new trail: no trail occupies it, or
    /// every trail in it — in particular the top-most one, the one with the
    /// smallest trailing row — has fallen past the clearance threshold.
    pub open spec fn spec_column_clear(self, column: u16) -> bool {
        forall|i: int|
            0 <= i < self.rain_trails@.len()
                && (#[trigger] self.rain_trails@[i]).column == column
                ==> self.rain_trails@[i].top > CLEARANCE
    }

    /// Whether `column` is eligible for a spawn: it lies in the viewport and
    /// is clear.
    pub open spec fn spec_column_available(self, column: u16) -> bool {
        1 <= column <= self.width && self.spec_column_clear(column)
    }

    fn column_clear(&self, column: u16) -> (clear: bool)
        ensures
            clear == self.spec_column_clear(column),
    {
        let n = self.rain_trails.len();
        let mut i: usize = 0;
        while i < n
            invariant
                n == self.rain_trails@.len(),
                i <= n,
                forall|j: int|
                    0 <= j < i && (#[trigger] self.rain_trails@[j]).column == column
                        ==> self.rain_trails@[j].top > CLEARANCE,
            decreases n - i,
        {
            let t = &self.rain_trails[i];
            if t.column == column && t.top <= CLEARANCE {
                return false;
            }
            i = i + 1;
        }
        true
    }

    /// The columns eligible for a new trail this tick, in increasing order:
    /// every column of `[1, width]` whose top-most trail (if any) has fallen
    /// past the clearance threshold. On a surface with no trails at all that
    /// is the full range `{1, ..., width}`. `None` means no column currently
    /// qualifies — the caller skips spawning this tick; it is not an error.
    pub fn available_columns(&self) -> (r: Option<Vec<u16>>)
        ensures
            r matches Some(v) ==> (forall|c: u16|
                v@.contains(c) <==> self.spec_column_available(c)),
            r matches Some(v) ==> (forall|i: int, j: int|
                0 <= i < j < v@.len() ==> v@[i] < v@[j]),
            r is None <==> (self.rain_trails@.len() > 0 && (forall|c: u16|
                !self.spec_column_available(c))),
            self.rain_trails@.len() == 0 ==> (r matches Some(v) && v@ == spec_full_range(
                self.width,
            )),
    {
        if self.rain_trails.is_empty() {
            let v = full_range(self.width);
            proof {
                assert forall|c: u16| v@.contains(c) <==> self.spec_column_available(c) by {
                    if 1 <= c <= self.width {
                        assert(v@[c - 1] == c);
                        assert(v@.contains(c));
                    }
                    if v@.contains(c) {
                        let i = choose|i: int| 0 <= i < v@.len() && v@[i] == c;
                        assert(1 <= c <= self.width);
                    }
                }
            }
            return Some(v);
        }

        let mut available: Vec<u16> = Vec::new();
        let mut c: u32 = 1;
        while c <= self.width as u32
            invariant
                self.rain_trails@.len() > 0,
                1 <= c <= self.width as u32 + 1,
                forall|x: u16| available@.contains(x) <==> (x < c && self.spec_column_available(
                    x,
                )),
                forall|i: int, j: int|
                    0 <= i < j < available@.len() ==> available@[i] < available@[j],
                forall|i: int| 0 <= i < available@.len() ==> available@[i] < c,
            decreases self.width as u32 + 1 - c,
        {
            let ghost before = available@;
            let col = c as u16;
            if self.column_clear(col) {
                available.push(col);
            }
            proof {
                assert forall|x: u16| available@.contains(x) implies (x < c + 1
                    && self.spec_column_available(x)) by {
                    if !before.contains(x) {
                        assert(available@.last() == x);
                    }
                }
                assert forall|x: u16| x < c + 1 && self.spec_column_available(x) implies
                    available@.contains(x) by {
                    if x < c {
                        assert(before.contains(x));
                        let i = choose|i: int| 0 <= i < before.len() && before[i] == x;
                        assert(available@[i] == x);
                        assert(available@.contains(x));
                    } else {
                        assert(available@.last() == x);
                    }
                }
            }
            c = c + 1;
        }

        if available.is_empty() {
            proof {
                assert forall|x: u16| !self.spec_column_available(x) by {
                    if self.spec_column_available(x) {
                        assert(available@.contains(x));
                    }
                }
            }
            None
        } else {
            proof {
                assert(available@.contains(available@[0]));
                assert(self.spec_column_available(available@[0]));
            }
            Some(available)
        }
    }

    /// The trail length `create_rain_trail` may draw for this surface: a
    /// random length from 5 up to (exclusive) eight tenths of the viewport
    /// height, truncated; when that interval is empty — a very small viewport
    /// — the length is clamped to the minimum valid length of one instead of
    /// failing.
    pub open spec fn spec_spawn_len_ok(self, len: int) -> bool {
        if (self.height as int) * 4 / 5 > 5 {
            5 <= len && len < (self.height as int) * 4 / 5
        } else {
            len == 1
        }
    }

    /// Create one new trail in `column` and append it to the collection. The
    /// new trail enters from above: head at row 0, tail at `-(length - 1)`,
    /// alive, with a length drawn as `spec_spawn_len_ok` says and a speed
    /// from 1..=3. Nothing else changes.
    pub fn create_rain_trail(&mut self, column: u16)
        requires
            old(self).wf(),
            1 <= column <= old(self).width,
        ensures
            final(self).wf(),
            final(self).width == old(self).width,
            final(self).height == old(self).height,
            final(self).rain_trails@.len() == old(self).rain_trails@.len() + 1,
            forall|i: int|
                0 <= i < old(self).rain_trails@.len()
                    ==> #[trigger] final(self).rain_trails@[i] == old(self).rain_trails@[i],
            final(self).rain_trails@.last().wf(),
            final(self).rain_trails@.last().alive,
            final(self).rain_trails@.last().column == column,
            final(self).rain_trails@.last().bottom == 0,
            final(self).rain_trails@.last().top
                == 1 - final(self).rain_trails@.last().glyphs@.len(),
            old(self).spec_spawn_len_ok(final(self).rain_trails@.last().glyphs@.len() as int),
    {
        let upper = (self.height as usize) * 4 / 5;
        let length = if upper > 5 {
            sample_range(5, upper - 1)
        } else {
            1
        };
        let trail = RainTrail::new(length, column);
        self.rain_trails.push(trail);
    }

    /// Run one tick: render every trail against the pre-advance positions (in
    /// trail order), advance every trail whose trailing edge is still within
    /// the viewport, and prune the rest. Returns the concatenated draw
    /// instructions of the tick.
    ///
    /// Afterwards the collection holds exactly the survivors — the trails
    /// whose trailing row had not passed the viewport bottom — each advanced
    /// one step, in their old order; every trail marked dead this tick has
    /// been removed, and no live trail has: the collection never holds a dead
    /// trail between ticks.
    pub fn update(&mut self) -> (out: Vec<DrawInstruction>)
        requires
            old(self).wf(),
        ensures
            final(self).wf(),
            final(self).width == old(self).width,
            final(self).height == old(self).height,
            out@ == spec_tick_output(old(self).rain_trails@, old(self).height),
            forall|k: int| 0 <= k < out@.len() ==> (#[trigger] out@[k]).spec_row()
                <= old(self).height,
            forall|k: int| 0 <= k < out@.len() ==> 1 <= (#[trigger] out@[k]).spec_column()
                <= old(self).width,
            final(self).rain_trails@.len() == spec_survivors(
                old(self).rain_trails@,
                old(self).height,
            ).len(),
            forall|j: int|
                0 <= j < final(self).rain_trails@.len() ==> spec_advanced_from(
                    #[trigger] final(self).rain_trails@[j],
                    spec_survivors(old(self).rain_trails@, old(self).height)[j],
                ),
            forall|j: int|
                0 <= j < final(self).rain_trails@.len()
                    ==> (#[trigger] final(self).rain_trails@[j]).alive,
    {
        let ghost orig = self.rain_trails@;
        let height = self.height;
        let ghost w = self.width;
        let mut out: Vec<DrawInstruction> = Vec::new();
        let mut kept: Vec<RainTrail> = Vec::new();
        let ghost mut done: Seq<RainTrail> = Seq::empty();
        while self.rain_trails.len() > 0
            invariant
                self.width == w,
                self.height == height,
                forall|i: int|
                    0 <= i < self.rain_trails@.len() ==> {
                        &&& (#[trigger] self.rain_trails@[i]).wf()
                        &&& self.rain_trails@[i].alive
                        &&& 1 <= self.rain_trails@[i].column <= w
                    },
                out@ + spec_tick_output(self.rain_trails@, height) == spec_tick_output(
                    orig,
                    height,
                ),
                forall|k: int| 0 <= k < out@.len() ==> (#[trigger] out@[k]).spec_row() <= height,
                forall|k: int| 0 <= k < out@.len() ==> 1 <= (#[trigger] out@[k]).spec_column()
                    <= w,
                done + spec_survivors(self.rain_trails@, height) == spec_survivors(orig, height),
                kept@.len() == done.len(),
                forall|j: int|
                    0 <= j < kept@.len() ==> spec_advanced_from(
                        #[trigger] kept@[j],
                        done[j],
                    ),
                forall|j: int|
                    0 <= j < kept@.len() ==> {
                        &&& (#[trigger] kept@[j]).wf()
                        &&& kept@[j].alive
                        &&& 1 <= kept@[j].column <= w
                    },
            decreases self.rain_trails@.len(),
        {
            let ghost remaining = self.rain_trails@;
            let mut t = self.rain_trails.remove(0);
            let ghost pre = t;
            let mut instrs = t.render(height);
            out.append(&mut instrs);
            proof {
                assert(out@ + spec_tick_output(self.rain_trails@, height) =~= spec_tick_output(
                    orig,
                    height,
                ));
            }
            if t.alive {
                t.trickle();
                kept.push(t);
                proof {
                    done = done.push(pre);
                    assert(spec_survivors(remaining, height) == seq![pre] + spec_survivors(
                        self.rain_trails@,
                        height,
                    ));
                    assert(done + spec_survivors(self.rain_trails@, height) =~= spec_survivors(
                        orig,
                        height,
                    ));
                }
            } else {
                proof {
                    assert(spec_survivors(remaining, height) == spec_survivors(
                        self.rain_trails@,
                        height,
                    ));
                }
            }
        }
        proof {
            assert(out@ =~= spec_tick_output(orig, height));
            assert(done =~= spec_survivors(orig, height));
        }
        self.rain_trails = kept;
        out
    }

    /// Run one tick and return the frame as the ANSI escape string that
    /// paints it — one cursor move and one coloured glyph (or erasing blank)
    /// per draw instruction, in tick order. The state changes exactly as
    /// `update` says.
    pub fn update_text(&mut self) -> (s: String)
        requires
            old(self).wf(),
        ensures
            s@ == spec_frame_text(spec_tick_output(old(self).rain_trails@, old(self).height)),
            final(self).wf(),
            final(self).width == old(self).width,
            final(self).height == old(self).height,
            final(self).rain_trails@.len() == spec_survivors(
                old(self).rain_trails@,
                old(self).height,
            ).len(),
            forall|j: int|
                0 <= j < final(self).rain_trails@.len() ==> spec_advanced_from(
                    #[trigger] final(self).rain_trails@[j],
                    spec_survivors(old(self).rain_trails@, old(self).height)[j],
                ),
    {
        let instrs = self.update();
        frame_text(&instrs)
    }
}

/// The draw instructions one tick emits for `trails`, in trail order: each
/// trail's render output against the pre-advance positions, concatenated.
pub open spec fn spec_tick_output(trails: Seq<RainTrail>, height: u16) -> Seq<DrawInstruction>
    decreases trails.len(),
{
    if trails.len() == 0 {
        Seq::empty()
    } else {
        spec_render_output(trails[0], height) + spec_tick_output(trails.drop_first(), height)
    }
}

/// The trails of `trails` that survive a tick against a viewport of the given
/// height — those whose trailing row has not passed the viewport bottom — in
/// their original order.
pub open spec fn spec_survivors(trails: Seq<RainTrail>, height: u16) -> Seq<RainTrail>
    decreases trails.len(),
{
    if trails.len() == 0 {
        Seq::empty()
    } else if trails[0].top <= height {
        seq![trails[0]] + spec_survivors(trails.drop_first(), height)
    } else {
        spec_survivors(trails.drop_first(), height)
    }
}

/// How a trail that survived a tick relates to its pre-tick self: both edges
/// moved down by `speed`, the glyphs rotated exactly one position behind a
/// fresh head, and everything else — column, speed, length, liveness — kept.
pub open spec fn spec_advanced_from(post: RainTrail, pre: RainTrail) -> bool {
    &&& post.column == pre.column
    &&& post.speed == pre.speed
    &&& post.alive == pre.alive
    &&& post.top == pre.top + pre.speed
    &&& post.bottom == pre.bottom + pre.speed
    &&& post.glyphs@.len() == pre.glyphs@.len()
    &&& crate::rng::is_alphanumeric_char(post.glyphs@[0])
    &&& forall|i: int|
        1 <= i < post.glyphs@.len() ==> #[trigger] post.glyphs@[i] == pre.glyphs@[i - 1]
}

/// The full column range `{1, ..., width}`, in increasing order.
pub open spec fn spec_full_range(width: u16) -> Seq<u16> {
    Seq::new(width as nat, |i: int| (i + 1) as u16)
}

fn full_range(width: u16) -> (v: Vec<u16>)
    ensures
        v@ == spec_full_range(width),
{
    let mut v: Vec<u16> = Vec::new();
    let mut c: u16 = 0;
    while c < width
        invariant
            c <= width,
            v@.len() == c,
            forall|i: int| 0 <= i < c ==> v@[i] == i + 1,
        decreases width - c,
    {
        v.push(c + 1);
        c = c + 1;
    }
    proof {
        assert(v@ =~= spec_full_range(width));
    }
    v
}

} // verus!

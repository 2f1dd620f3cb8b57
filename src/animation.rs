//! Animations: time-indexed movement of an element on its slide.
use vstd::prelude::*;

verus! {

/// Moves one element of a slide in a straight line from one position to
/// another over `duration` ticks. The element is named by its index on the
/// slide: the animation refers to it, the slide owns it.
#[derive(Debug, Clone, Copy, PartialEq, Eq, Structural)]
pub struct Animation {
    pub target: usize,
    pub from_x: i32,
    pub from_y: i32,
    pub to_x: i32,
    pub to_y: i32,
    pub duration: u32,
}

/// The point `tick / duration` of the way from `a` to `b`, the distance
/// covered rounded down; `b` itself from `duration` on.
pub open spec fn lerp(a: int, b: int, tick: int, duration: int) -> int {
    if tick >= duration {
        b
    } else if a <= b {
        a + (b - a) * tick / duration
    } else {
        a - (a - b) * tick / duration
    }
}

proof fn lemma_lerp_between(a: int, b: int, tick: int, duration: int)
    requires
        0 <= tick < duration,
    ensures
        a <= b ==> 0 <= (b - a) * tick / duration <= b - a,
        b < a ==> 0 <= (a - b) * tick / duration <= a - b,
{
    if a <= b {
        assert(0 <= (b - a) * tick / duration <= b - a) by (nonlinear_arith)
            requires
                a <= b,
                0 <= tick < duration,
        ;
    } else {
        assert(0 <= (a - b) * tick / duration <= a - b) by (nonlinear_arith)
            requires
                b < a,
                0 <= tick < duration,
        ;
    }
}

fn lerp_exec(a: i32, b: i32, tick: u32, duration: u32) -> (r: i32)
    ensures
        r == lerp(a as int, b as int, tick as int, duration as int),
{
    if tick >= duration {
        return b;
    }
    proof {
        lemma_lerp_between(a as int, b as int, tick as int, duration as int);
    }
    if a <= b {
        let span: u64 = (b as i64 - a as i64) as u64;
        assert(span * tick <= 0xffff_ffff * 0xffff_ffff) by (nonlinear_arith)
            requires
                span <= 0xffff_ffff,
                tick <= 0xffff_ffff,
        ;
        let step: u64 = span * tick as u64 / duration as u64;
        (a as i64 + step as i64) as i32
    } else {
        let span: u64 = (a as i64 - b as i64) as u64;
        assert(span * tick <= 0xffff_ffff * 0xffff_ffff) by (nonlinear_arith)
            requires
                span <= 0xffff_ffff,
                tick <= 0xffff_ffff,
        ;
        let step: u64 = span * tick as u64 / duration as u64;
        (a as i64 - step as i64) as i32
    }
}

impl Animation {
    /// Where the animation puts its target at `tick`.
    pub open spec fn spec_position_at(&self, tick: int) -> (i32, i32) {
        (
            lerp(self.from_x as int, self.to_x as int, tick, self.duration as int) as i32,
            lerp(self.from_y as int, self.to_y as int, tick, self.duration as int) as i32,
        )
    }

    /// An animation of the element at `target` from `(from_x, from_y)` to
    /// `(to_x, to_y)` over `duration` ticks.
    pub fn new(target: usize, from: (i32, i32), to: (i32, i32), duration: u32) -> (r: Animation)
        ensures
            r == (Animation {
                target: target,
                from_x: from.0,
                from_y: from.1,
                to_x: to.0,
                to_y: to.1,
                duration: duration,
            }),
    {
        Animation { target, from_x: from.0, from_y: from.1, to_x: to.0, to_y: to.1, duration }
    }

    pub fn position_at(&self, tick: u32) -> (r: (i32, i32))
        ensures
            r == self.spec_position_at(tick as int),
            tick >= self.duration ==> r == (self.to_x, self.to_y),
            tick == 0 ==> r == (self.from_x, self.from_y) || self.duration == 0,
    {
        (
            lerp_exec(self.from_x, self.to_x, tick, self.duration),
            lerp_exec(self.from_y, self.to_y, tick, self.duration),
        )
    }
}

} // verus!

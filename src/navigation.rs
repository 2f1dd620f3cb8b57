//! Moving between slides.
use vstd::prelude::*;

verus! {

/// A navigation request from the presenter.
#[derive(Debug, Clone, Copy, PartialEq, Eq, Structural)]
pub enum Command {
    Next,
    Previous,
}

/// The slide shown after `command` at `current` in a show of `count` slides:
/// one step, clamped to the first and last slide.
pub open spec fn step_spec(current: nat, count: nat, command: Command) -> nat {
    match command {
        Command::Next => if current + 1 < count { current + 1 } else { current },
        Command::Previous => if current > 0 { (current - 1) as nat } else { 0 },
    }
}

/// The slide shown after `k` equal commands from `current`.
pub open spec fn steps_spec(current: nat, count: nat, command: Command, k: nat) -> nat
    decreases k,
{
    if k == 0 {
        current
    } else {
        step_spec(steps_spec(current, count, command, (k - 1) as nat), count, command)
    }
}

/// Index of the slide shown after `command`, from slide `current` of `slide_count`.
pub fn step(current: usize, slide_count: usize, command: Command) -> (r: usize)
    requires
        current < slide_count,
    ensures
        r == step_spec(current as nat, slide_count as nat, command),
        r < slide_count,
{
    match command {
        Command::Next => if current + 1 < slide_count {
            current + 1
        } else {
            current
        },
        Command::Previous => if current > 0 {
            current - 1
        } else {
            0
        },
    }
}

/// From the first of `count` slides, `k` steps back stay on the first
/// slide, and `k` steps forward reach slide `k`, or the last one if there
/// are fewer.
pub proof fn lemma_navigation_clamps(count: nat, k: nat)
    requires
        count > 0,
    ensures
        steps_spec(0, count, Command::Previous, k) == 0,
        steps_spec(0, count, Command::Next, k) == if k < count { k } else { (count - 1) as nat },
    decreases k,
{
    if k > 0 {
        lemma_navigation_clamps(count, (k - 1) as nat);
    }
}

/// Where a presentation stands: the slide shown, out of how many.
pub struct Navigator {
    current: usize,
    slide_count: usize,
}

impl Navigator {
    pub closed spec fn spec_current(&self) -> nat {
        self.current as nat
    }

    pub closed spec fn spec_slide_count(&self) -> nat {
        self.slide_count as nat
    }

    /// The slide shown lies within the show.
    pub open spec fn wf(&self) -> bool {
        self.spec_current() < self.spec_slide_count()
    }

    /// A presentation of `slide_count` slides, on the first one; `None` for
    /// a show without slides.
    pub fn new(slide_count: usize) -> (r: Option<Navigator>)
        ensures
            r is None <==> slide_count == 0,
            r is Some ==> r->Some_0.spec_current() == 0 && r->Some_0.spec_slide_count() == slide_count && r->Some_0.wf(),
    {
        if slide_count == 0 {
            None
        } else {
            Some(Navigator { current: 0, slide_count })
        }
    }

    pub fn current(&self) -> (r: usize)
        ensures
            r == self.spec_current(),
    {
        self.current
    }

    pub fn slide_count(&self) -> (r: usize)
        ensures
            r == self.spec_slide_count(),
    {
        self.slide_count
    }

    /// Follows one command.
    pub fn handle(&mut self, command: Command)
        requires
            old(self).wf(),
        ensures
            final(self).spec_current() == step_spec(old(self).spec_current(), old(self).spec_slide_count(), command),
            final(self).spec_slide_count() == old(self).spec_slide_count(),
            final(self).wf(),
    {
        self.current = step(self.current, self.slide_count, command);
    }
}

} // verus!

use vstd::prelude::*;

verus! {

/// Number of built-in visual effects that the effect index cycles through.
pub const EFFECT_COUNT: i32 = 7;

/// An aspect ratio kept exactly, as the width and height it was taken from;
/// its value is `width / height`.
#[derive(Clone, Copy, Debug, PartialEq, Eq, Structural)]
pub struct Aspect {
    pub width: u32,
    pub height: u32,
}

/// The effect index that follows `e`: one more, wrapping from the last
/// effect back to the first.
pub open spec fn next_effect(e: int) -> int {
    if e < EFFECT_COUNT - 1 {
        e + 1
    } else {
        0
    }
}

/// The effect index reached from `start` after `n` steps.
pub open spec fn effect_after(start: int, n: nat) -> int
    decreases n,
{
    if n == 0 {
        start
    } else {
        next_effect(effect_after(start, (n - 1) as nat))
    }
}

/// The fill flag after one toggle.
pub open spec fn toggled(f: int) -> int {
    if f == 0 {
        1
    } else {
        0
    }
}

/// The small record handed to the fragment shader every frame: which effect
/// to apply, whether to fill or fit, and the viewport and image aspect ratios.
#[derive(Clone, Copy, Debug)]
pub struct InputUniform {
    effect: i32,
    fill_mode: i32,
    window_ratio: Aspect,
    img_ratio: Aspect,
}

impl InputUniform {
    pub closed spec fn effect_spec(&self) -> int {
        self.effect as int
    }

    pub closed spec fn fill_mode_spec(&self) -> int {
        self.fill_mode as int
    }

    pub closed spec fn window_ratio_spec(&self) -> Aspect {
        self.window_ratio
    }

    pub closed spec fn img_ratio_spec(&self) -> Aspect {
        self.img_ratio
    }

    /// The effect index lies among the built-in effects and the fill flag is
    /// one of its two values.
    pub open spec fn wf(&self) -> bool {
        &&& 0 <= self.effect_spec() < EFFECT_COUNT
        &&& (self.fill_mode_spec() == 0 || self.fill_mode_spec() == 1)
    }

    /// The starting uniform: first effect, fit mode, the given viewport
    /// ratio and an image ratio of zero (no image yet).
    pub fn new(window_ratio: Aspect) -> (r: Self)
        ensures
            r.wf(),
            r.effect_spec() == 0,
            r.fill_mode_spec() == 0,
            r.window_ratio_spec() == window_ratio,
            r.img_ratio_spec() == (Aspect { width: 0, height: 1 }),
    {
        InputUniform { effect: 0, fill_mode: 0, window_ratio, img_ratio: Aspect { width: 0, height: 1 } }
    }

    /// Advances to the next effect, wrapping after the last one.
    pub fn step(&mut self)
        ensures
            final(self).effect_spec() == next_effect(old(self).effect_spec()),
            final(self).fill_mode_spec() == old(self).fill_mode_spec(),
            final(self).window_ratio_spec() == old(self).window_ratio_spec(),
            final(self).img_ratio_spec() == old(self).img_ratio_spec(),
            old(self).wf() ==> final(self).wf(),
    {
        if self.effect < EFFECT_COUNT - 1 {
            self.effect = self.effect + 1;
        } else {
            self.effect = 0;
        }
    }

    /// Flips between fit mode (0) and fill mode (1).
    pub fn toggle_fill(&mut self)
        ensures
            final(self).fill_mode_spec() == toggled(old(self).fill_mode_spec()),
            final(self).effect_spec() == old(self).effect_spec(),
            final(self).window_ratio_spec() == old(self).window_ratio_spec(),
            final(self).img_ratio_spec() == old(self).img_ratio_spec(),
            old(self).wf() ==> final(self).wf(),
    {
        if self.fill_mode == 0 {
            self.fill_mode = 1;
        } else {
            self.fill_mode = 0;
        }
    }

    /// Records the aspect ratio of the image now bound as texture.
    pub(crate) fn set_img_ratio(&mut self, ratio: Aspect)
        ensures
            final(self).img_ratio_spec() == ratio,
            final(self).effect_spec() == old(self).effect_spec(),
            final(self).fill_mode_spec() == old(self).fill_mode_spec(),
            final(self).window_ratio_spec() == old(self).window_ratio_spec(),
    {
        self.img_ratio = ratio;
    }

    pub fn effect(&self) -> (r: i32)
        ensures
            r as int == self.effect_spec(),
    {
        self.effect
    }

    pub fn fill_mode(&self) -> (r: i32)
        ensures
            r as int == self.fill_mode_spec(),
    {
        self.fill_mode
    }

    pub fn window_ratio(&self) -> (r: Aspect)
        ensures
            r == self.window_ratio_spec(),
    {
        self.window_ratio
    }

    pub fn img_ratio(&self) -> (r: Aspect)
        ensures
            r == self.img_ratio_spec(),
    {
        self.img_ratio
    }
}

/// Stepping `n` times from the first effect lands on effect `n mod 7`.
pub proof fn lemma_step_cycle(n: nat)
    ensures
        effect_after(0, n) == (n as int) % (EFFECT_COUNT as int),
    decreases n,
{
    if n > 0 {
        let k = (n - 1) as int;
        lemma_step_cycle(k as nat);
        assert((k + 1) % 7 == if k % 7 < 6 { k % 7 + 1 } else { 0 }) by (nonlinear_arith)
            requires
                k >= 0,
        ;
        assert(effect_after(0, n) == next_effect(effect_after(0, k as nat)));
    }
}

/// Toggling the fill flag twice gives back the flag it started from.
pub proof fn lemma_toggle_involution(u: InputUniform)
    requires
        u.wf(),
    ensures
        toggled(toggled(u.fill_mode_spec())) == u.fill_mode_spec(),
{
}

} // verus!

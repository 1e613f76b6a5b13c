//! The frame shown by a sprite that is cut from a strip of animation frames.

use vstd::prelude::*;

verus! {

/// A sprite on a strip of `frames` frames, showing frame number `index`.
pub struct SpriteModel {
    /// Number of the frame shown, counted from zero.
    pub index: nat,
    /// Number of frames on the strip.
    pub frames: nat,
}

impl SpriteModel {
    /// The frame shown is one of the strip's frames.
    pub open spec fn wf(self) -> bool {
        self.index < self.frames
    }

    /// The sprite showing the next frame, wrapping to the first after the
    /// last.
    pub open spec fn advanced(self) -> SpriteModel {
        SpriteModel { index: (self.index + 1) % self.frames, frames: self.frames }
    }

    /// The sprite showing the first frame, the idle pose.
    pub open spec fn rested(self) -> SpriteModel {
        SpriteModel { index: 0, frames: self.frames }
    }

    /// The sprite after advancing `n` times.
    pub open spec fn advanced_by(self, n: nat) -> SpriteModel
        decreases n,
    {
        if n == 0 {
            self
        } else {
            self.advanced_by((n - 1) as nat).advanced()
        }
    }
}

/// Advancing keeps the frame on the strip: after the last frame comes the
/// first, and no frame beyond the last is ever shown.
pub proof fn lemma_advanced_wf(sprite: SpriteModel)
    requires
        sprite.wf(),
    ensures
        sprite.advanced().wf(),
        sprite.index + 1 < sprite.frames ==> sprite.advanced().index == sprite.index + 1,
        sprite.index + 1 == sprite.frames ==> sprite.advanced().index == 0,
{
    if sprite.index + 1 < sprite.frames {
        assert((sprite.index + 1) % sprite.frames == sprite.index + 1) by (nonlinear_arith)
            requires
                0 <= sprite.index + 1 < sprite.frames,
        ;
    } else {
        assert((sprite.index + 1) % sprite.frames == 0) by (nonlinear_arith)
            requires
                sprite.index + 1 == sprite.frames,
                sprite.frames > 0,
        ;
    }
}

/// The frames cycle: advancing `n` times from frame `i` of a strip of `k`
/// frames shows frame `(i + n) mod k`, so `k` advances lead back to `i`.
pub proof fn lemma_advance_cycles(sprite: SpriteModel, n: nat)
    requires
        sprite.wf(),
    ensures
        sprite.advanced_by(n).wf(),
        sprite.advanced_by(n).frames == sprite.frames,
        sprite.advanced_by(n).index == (sprite.index + n) % sprite.frames,
        sprite.advanced_by(sprite.frames) == sprite,
{
    lemma_advanced_by(sprite, n);
    lemma_advanced_by(sprite, sprite.frames);
    assert((sprite.index + sprite.frames) % sprite.frames == sprite.index) by (nonlinear_arith)
        requires
            0 <= sprite.index < sprite.frames,
    ;
}

proof fn lemma_advanced_by(sprite: SpriteModel, n: nat)
    requires
        sprite.wf(),
    ensures
        sprite.advanced_by(n).frames == sprite.frames,
        sprite.advanced_by(n).index == (sprite.index + n) % sprite.frames,
        sprite.advanced_by(n).wf(),
    decreases n,
{
    let k = sprite.frames as int;
    let i = sprite.index as int;
    if n == 0 {
        assert(i % k == i) by (nonlinear_arith)
            requires
                0 <= i < k,
        ;
    } else {
        let m = (n - 1) as nat;
        lemma_advanced_by(sprite, m);
        let before = sprite.advanced_by(m);
        lemma_advanced_wf(before);
        assert(((i + m) % k + 1) % k == (i + m + 1) % k) by {
            vstd::arithmetic::div_mod::lemma_add_mod_noop(i + m, 1, k);
            vstd::arithmetic::div_mod::lemma_mod_twice(i + m, k);
            vstd::arithmetic::div_mod::lemma_add_mod_noop((i + m) % k, 1, k);
        }
    }
}

/// The sprite component of an animated entity.
#[derive(Clone, Copy, Debug, PartialEq, Eq)]
pub struct AtlasSprite {
    index: usize,
    frames: usize,
}

impl View for AtlasSprite {
    type V = SpriteModel;

    closed spec fn view(&self) -> SpriteModel {
        SpriteModel { index: self.index as nat, frames: self.frames as nat }
    }
}

impl AtlasSprite {
    /// The frame shown is one of the strip's frames.
    #[verifier::type_invariant]
    spec fn on_strip(self) -> bool {
        self.index < self.frames
    }

    /// A sprite on a strip of `frames` frames, showing the first one. A strip
    /// without frames has nothing to show.
    pub fn new(frames: usize) -> (sprite: Option<AtlasSprite>)
        ensures
            frames == 0 <==> sprite is None,
            sprite matches Some(s) ==> s@ == (SpriteModel { index: 0, frames: frames as nat })
                && s@.wf(),
    {
        if frames == 0 {
            None
        } else {
            Some(AtlasSprite { index: 0, frames })
        }
    }

    /// The number of the frame shown, which is always one of the strip's.
    pub fn index(&self) -> (index: usize)
        ensures
            index == self@.index,
            self@.wf(),
    {
        proof {
            use_type_invariant(self);
        }
        self.index
    }

    /// The number of frames on the strip.
    pub fn frames(&self) -> (frames: usize)
        ensures
            frames == self@.frames,
            self@.wf(),
    {
        proof {
            use_type_invariant(self);
        }
        self.frames
    }

    /// Shows the next frame, wrapping to the first after the last.
    pub fn advance(&mut self)
        ensures
            final(self)@ == old(self)@.advanced(),
            old(self)@.wf(),
            final(self)@.wf(),
    {
        proof {
            use_type_invariant(&*self);
            lemma_advanced_wf(self@);
        }
        self.index = (self.index + 1) % self.frames;
    }

    /// Shows the first frame, the idle pose.
    pub fn rest(&mut self)
        ensures
            final(self)@ == old(self)@.rested(),
            old(self)@.wf(),
            final(self)@.wf(),
    {
        proof {
            use_type_invariant(&*self);
        }
        self.index = 0;
    }
}

} // verus!

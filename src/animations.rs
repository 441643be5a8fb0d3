use vstd::prelude::*;

verus! {

/// The first and last frame of an animation.
pub type AnimationFrameRange = (usize, usize);

/// Playback state of a sprite sheet holding several animations.
pub struct AnimationState {
    pub animations: Vec<AnimationFrameRange>,
    pub current_animation: usize,
    pub current_idx: usize,
    pub is_playing: bool,
}

/// The frame that follows `idx` in the animation `range`: the next one, or
/// the first once the last has been shown.
pub open spec fn next_frame(range: AnimationFrameRange, idx: usize) -> int {
    if idx == range.1 {
        range.0 as int
    } else {
        idx + 1
    }
}

impl Default for AnimationState {
    fn default() -> (r: Self)
        ensures
            r.animations@.len() == 0,
            r.current_animation == 0,
            r.current_idx == 0,
            !r.is_playing,
    {
        AnimationState { animations: Vec::new(), current_animation: 0, current_idx: 0, is_playing: false }
    }
}

impl AnimationState {
    /// Switch to animation `animation_idx` at its first frame; false, with
    /// nothing changed, when there is no such animation.
    pub fn set_animation(&mut self, animation_idx: usize) -> (r: bool)
        ensures
            r == (animation_idx < old(self).animations.len()),
            final(self).animations@ == old(self).animations@,
            final(self).is_playing == old(self).is_playing,
            r ==> final(self).current_animation == animation_idx,
            r ==> final(self).current_idx == old(self).animations@[animation_idx as int].0,
            !r ==> *final(self) == *old(self),
    {
        if animation_idx >= self.animations.len() {
            return false;
        }
        self.current_animation = animation_idx;
        self.current_idx = self.animations[animation_idx].0;
        true
    }

    /// Move to the next frame of the current animation, wrapping to its first
    /// frame after the last.
    pub fn incr(&mut self)
        requires
            old(self).current_animation < old(self).animations.len(),
            old(self).current_idx < usize::MAX
                || old(self).current_idx == old(self).animations@[old(self).current_animation as int].1,
        ensures
            final(self).animations@ == old(self).animations@,
            final(self).current_animation == old(self).current_animation,
            final(self).is_playing == old(self).is_playing,
            final(self).current_idx == next_frame(
                old(self).animations@[old(self).current_animation as int],
                old(self).current_idx,
            ),
    {
        let range = self.animations[self.current_animation];
        if self.current_idx == range.1 {
            self.current_idx = range.0;
        } else {
            self.current_idx = self.current_idx + 1;
        }
    }

    /// The sprite sheet index to show: the current animation's first frame
    /// offset by the current index, or 0 while not playing.
    pub fn get_frame_index(&self) -> (r: u32)
        requires
            self.is_playing ==> self.current_animation < self.animations.len(),
            self.is_playing ==> self.animations@[self.current_animation as int].0 + self.current_idx
                <= usize::MAX,
        ensures
            !self.is_playing ==> r == 0,
            self.is_playing ==> r == (self.animations@[self.current_animation as int].0
                + self.current_idx) as u32,
    {
        if !self.is_playing {
            return 0;
        }
        (self.animations[self.current_animation].0 + self.current_idx) as u32
    }
}

} // verus!

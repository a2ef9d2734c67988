use crate::control::time::{GameTime, Nanos};
use crate::utils::rust::random_index;
use vstd::prelude::*;

verus! {

/// A looping flip-book animation over `images`; its color and size are kept
/// by the caller.
pub struct SimpleSprite<I> {
    pub images: Vec<I>,
    pub frame_duration: Nanos,
    /// Index of the shown image.
    pub frame: usize,
    /// When the next image is due.
    pub until: Nanos,
}

impl<I> SimpleSprite<I> {
    /// On creation the animation starts at a random image (none when there
    /// are no images); returns it.
    pub fn start(&mut self) -> (frame: Option<usize>)
        ensures
            final(self).images@ == old(self).images@,
            final(self).frame_duration == old(self).frame_duration,
            final(self).until == old(self).until,
            frame is None <==> old(self).images@.len() == 0,
            frame matches Some(f) ==> f < old(self).images@.len() && final(self).frame == f,
            frame is None ==> final(self).frame == old(self).frame,
    {
        let n = self.images.len();
        if n == 0 {
            None
        } else {
            let f = random_index(n);
            self.frame = f;
            Some(f)
        }
    }

    /// Shows the next image (wrapping around) once the current one is due;
    /// returns the new image index.
    pub fn update(&mut self, time: &GameTime) -> (frame: Option<usize>)
        requires
            time.spec_now() + old(self).frame_duration <= u64::MAX,
            old(self).frame < usize::MAX,
        ensures
            final(self).images@ == old(self).images@,
            final(self).frame_duration == old(self).frame_duration,
            if time.spec_now() >= old(self).until && old(self).images@.len() > 0 {
                &&& final(self).frame == (old(self).frame + 1) % (old(self).images@.len() as int)
                &&& final(self).until == time.spec_now() + old(self).frame_duration
                &&& frame == Some(final(self).frame)
            } else {
                final(self).frame == old(self).frame && final(self).until == old(self).until
                    && frame is None
            },
    {
        if time.reached(self.until) && self.images.len() > 0 {
            self.frame = (self.frame + 1) % self.images.len();
            self.until = time.now() + self.frame_duration;
            Some(self.frame)
        } else {
            None
        }
    }
}

} // verus!

use vstd::prelude::*;
use crate::image::Image;

verus! {

/// The latest captured frame and its preprocessed form, always replaced
/// together.
pub struct FrameCapture {
    pub width: i32,
    pub height: i32,
    pub last_frame: Option<Image>,
    pub preprocessed_frame: Option<Image>,
}

impl FrameCapture {
    /// Both frames are present or neither is.
    pub open spec fn wf(&self) -> bool {
        self.last_frame is Some <==> self.preprocessed_frame is Some
    }

    pub fn new(width: i32, height: i32) -> (r: Self)
        ensures
            r.wf(),
            r.width == width,
            r.height == height,
            r.last_frame is None,
            r.preprocessed_frame is None,
    {
        FrameCapture { width, height, last_frame: None, preprocessed_frame: None }
    }

    /// Takes a raw frame and the frame derived from it by preprocessing, in
    /// place of the previous pair.
    pub fn capture_frame(&mut self, frame: Image, preprocessed: Image)
        ensures
            final(self).wf(),
            final(self).last_frame == Some(frame),
            final(self).preprocessed_frame == Some(preprocessed),
            final(self).width == old(self).width,
            final(self).height == old(self).height,
    {
        self.last_frame = Some(frame);
        self.preprocessed_frame = Some(preprocessed);
    }

    pub fn get_last_frame(&self) -> (r: Option<&Image>)
        ensures
            r matches Some(f) ==> self.last_frame == Some(*f),
            r is None ==> self.last_frame is None,
    {
        match &self.last_frame {
            Some(f) => Some(f),
            None => None,
        }
    }

    pub fn get_preprocessed_frame(&self) -> (r: Option<&Image>)
        ensures
            r matches Some(f) ==> self.preprocessed_frame == Some(*f),
            r is None ==> self.preprocessed_frame is None,
    {
        match &self.preprocessed_frame {
            Some(f) => Some(f),
            None => None,
        }
    }

    pub fn get_dimensions(&self) -> (r: (i32, i32))
        ensures
            r == (self.width, self.height),
    {
        (self.width, self.height)
    }
}

} // verus!

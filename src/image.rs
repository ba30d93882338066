use vstd::prelude::*;

verus! {

/// An owned image buffer: `channels` bytes per pixel, rows one after another.
#[derive(Debug, Clone)]
pub struct Image {
    pub width: u32,
    pub height: u32,
    pub channels: u32,
    pub data: Vec<u8>,
}

impl Image {
    pub open spec fn wf(&self) -> bool {
        self.data@.len() == self.width as int * self.height as int * self.channels as int
    }

    pub fn new(width: u32, height: u32, channels: u32, data: Vec<u8>) -> (r: Option<Image>)
        ensures
            r is Some <==> data@.len() == width as int * height as int * channels as int,
            r matches Some(img) ==> img.wf() && img.width == width && img.height == height
                && img.channels == channels && img.data@ == data@,
    {
        let n = data.len() as u128;
        let w = width as u128;
        let h = height as u128;
        let c = channels as u128;
        assert(w * h <= 0xffff_ffff_ffff_ffff) by (nonlinear_arith)
            requires
                w <= 0xffff_ffff,
                h <= 0xffff_ffff,
        ;
        assert(w * h * c <= 0xffff_ffff_ffff_ffff_ffff_ffff) by (nonlinear_arith)
            requires
                w * h <= 0xffff_ffff_ffff_ffff,
                c <= 0xffff_ffff,
        ;
        let whc = w * h * c;
        if n == whc {
            Some(Image { width, height, channels, data })
        } else {
            None
        }
    }
}

} // verus!

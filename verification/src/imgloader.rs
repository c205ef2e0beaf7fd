//! The image sequence loader: decodes the files `0.jpg`, `1.jpg`, ... of a
//! directory, in index order, stopping at the first index that is missing or
//! cannot be decoded.

use vstd::prelude::*;

verus! {

/// One decoded image: four 8-bit channels (red, green, blue, alpha) per
/// pixel, rows from top to bottom.
pub struct Frame {
    pub width: u32,
    pub height: u32,
    pub pixels: Vec<u8>,
}

impl Frame {
    /// The pixel buffer holds exactly four bytes for every pixel.
    pub open spec fn wf(self) -> bool {
        self.pixels@.len() == 4 * (self.width as int) * (self.height as int)
    }
}

/// Relies on image::open, which reads and decodes the image file at the
/// given path, and on image::DynamicImage::to_rgba8, which converts the
/// decoded image into an 8-bit RGBA buffer holding exactly
/// width * height * 4 bytes; ImageBuffer::dimensions and into_raw only
/// read that buffer's fields off. Whether decoding succeeds depends on
/// what is on disk, so nothing more is promised of the outcome.
#[verifier::external_body]
fn decode_indexed_frame(dir: &str, index: usize) -> (r: Option<Frame>)
    ensures
        r matches Some(f) ==> f.wf(),
{
    let path = std::path::Path::new(dir).join(format!("{}.jpg", index));
    match image::open(&path) {
        Ok(decoded) => {
            let rgba = decoded.to_rgba8();
            let (width, height) = rgba.dimensions();
            Some(Frame { width, height, pixels: rgba.into_raw() })
        }
        Err(_) => None,
    }
}

/// Decode `0.jpg`, `1.jpg`, ... under `dir` until the first index that is
/// missing or cannot be decoded, and return the frames before that gap in
/// index order. A gap at index 0 gives an empty sequence; neither case is
/// an error.
pub fn img_load(dir: &str) -> (frames: Vec<Frame>)
    ensures
        forall|i: int| 0 <= i < frames@.len() ==> frames@[i].wf(),
{
    let mut frames: Vec<Frame> = Vec::new();
    // The sequence can hold at most usize::MAX frames, which also bounds
    // how many indices the probing loop can visit.
    while frames.len() < usize::MAX
        invariant
            forall|i: int| 0 <= i < frames@.len() ==> frames@[i].wf(),
        ensures
            forall|i: int| 0 <= i < frames@.len() ==> frames@[i].wf(),
        decreases usize::MAX - frames@.len(),
    {
        match decode_indexed_frame(dir, frames.len()) {
            Some(frame) => frames.push(frame),
            None => break,
        }
    }
    frames
}

} // verus!

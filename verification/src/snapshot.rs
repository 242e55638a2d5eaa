//! What one read of the clipboard found, and the fingerprint of it.

use crate::hasher::{calculate_hash, fingerprint};
use vstd::prelude::*;
use vstd::string::*;
use vstd::utf8::encode_utf8;

verus! {

/// An image as the clipboard hands it out: its size in pixels and the
/// pixel bytes, four per pixel, row by row.
#[derive(Debug)]
pub struct ImageSnapshot {
    pub width: usize,
    pub height: usize,
    pub pixels: Vec<u8>,
}

/// One point-in-time read of the clipboard.
#[derive(Debug)]
pub enum ClipboardSnapshot {
    Image(ImageSnapshot),
    Text(String),
    Empty,
}

impl ImageSnapshot {
    /// The image can be encoded: both sides fit in 32 bits and the
    /// buffer holds four bytes for every pixel.
    pub open spec fn is_complete(&self) -> bool {
        &&& self.width <= u32::MAX
        &&& self.height <= u32::MAX
        &&& 4 * self.width * self.height <= self.pixels@.len()
    }

    /// Tells whether the image can be encoded.
    pub fn complete(&self) -> (ok: bool)
        ensures
            ok == self.is_complete(),
    {
        if self.width > u32::MAX as usize || self.height > u32::MAX as usize {
            return false;
        }
        let width = self.width as u128;
        let height = self.height as u128;
        assert(width * height <= 0xffff_ffff * 0xffff_ffff) by (nonlinear_arith)
            requires
                width <= 0xffff_ffff,
                height <= 0xffff_ffff,
        ;
        assert(4 * self.width * self.height == 4 * (width * height)) by (nonlinear_arith)
            requires
                width == self.width,
                height == self.height,
        ;
        4 * (width * height) <= self.pixels.len() as u128
    }
}

impl ClipboardSnapshot {
    /// The bytes that stand for the content when it is compared with what
    /// was seen before: the pixel bytes of an image, the UTF-8 bytes of a
    /// text, nothing for an empty clipboard.
    pub open spec fn content(&self) -> Seq<u8> {
        match self {
            ClipboardSnapshot::Image(image) => image.pixels@,
            ClipboardSnapshot::Text(text) => encode_utf8(text@),
            ClipboardSnapshot::Empty => Seq::empty(),
        }
    }

    /// The fingerprint of the content.
    pub open spec fn fingerprint_spec(&self) -> u64 {
        fingerprint(self.content())
    }

    /// Computes the fingerprint of the content.
    #[verifier::when_used_as_spec(fingerprint_spec)]
    pub fn fingerprint(&self) -> (digest: u64)
        ensures
            digest == self.fingerprint_spec(),
    {
        match self {
            ClipboardSnapshot::Image(image) => calculate_hash(image.pixels.as_slice()),
            ClipboardSnapshot::Text(text) => calculate_hash(text.as_str().as_bytes()),
            ClipboardSnapshot::Empty => {
                let nothing: Vec<u8> = Vec::new();
                calculate_hash(nothing.as_slice())
            },
        }
    }
}

/// The fingerprint of no content at all: what the monitor records before
/// it has seen anything.
pub open spec fn baseline_fingerprint() -> u64 {
    fingerprint(Seq::empty())
}

/// Computes the fingerprint of no content.
pub fn baseline() -> (digest: u64)
    ensures
        digest == baseline_fingerprint(),
{
    ClipboardSnapshot::Empty.fingerprint()
}

} // verus!

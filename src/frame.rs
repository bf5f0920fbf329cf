use vstd::prelude::*;

use bevy::image::{Image, IntoDynamicImageError};

use crate::channel::write_bytes_at;
use crate::session::CaptureState;

verus! {

#[verifier::external_type_specification]
#[verifier::external_body]
pub struct ExImage(Image);

#[verifier::external_type_specification]
#[verifier::external_body]
pub struct ExIntoDynamicImageError(IntoDynamicImageError);

/// The interleaved RGBA8 bytes of a rendered image, or `None` when its
/// texture format cannot be converted.
pub uninterp spec fn rgba8_of(image: Image) -> Option<Seq<u8>>;

/// Relies on bevy's `Image::try_into_dynamic`, then the image crate's
/// `DynamicImage::to_rgba8`, to give the interleaved RGBA8 bytes of a rendered
/// image, or the error bevy reports for a format it cannot convert. Both
/// depend on the image alone. Nothing is promised of the length: it is
/// whatever the image holds.
#[verifier::external_body]
fn rgba8_bytes(image: &Image) -> (r: Result<Vec<u8>, IntoDynamicImageError>)
    ensures
        r matches Ok(v) ==> rgba8_of(*image) == Some(v@),
        r is Err ==> rgba8_of(*image) is None,
{
    image.clone().try_into_dynamic().map(|d| d.to_rgba8().into_raw())
}

/// Bytes per pixel of an RGBA8 frame.
pub const CHANNELS: usize = 4;

/// Why a frame was not written.
#[derive(Clone, Copy, Debug, PartialEq, Eq, Structural)]
pub enum EncodeError {
    /// The rendered image could not be turned into RGBA8 bytes.
    Conversion,
    /// The image's RGBA8 bytes are not exactly one frame long.
    SizeMismatch { expected: usize, got: usize },
}

/// Writes rendered frames, as raw row-major RGBA8 with no header, to the start
/// of one camera's frame region.
pub struct MyCustomEncoder {
    frame_size: usize,
}

impl MyCustomEncoder {
    /// The length in bytes of one frame.
    pub closed spec fn frame_len(self) -> nat {
        self.frame_size as nat
    }

    /// An encoder for frames of `width` by `height` pixels: `width * height * 4` bytes.
    pub fn new(width: usize, height: usize) -> (r: MyCustomEncoder)
        requires
            width * height * 4 <= usize::MAX,
        ensures
            r.frame_len() == width * height * 4,
    {
        assert(width * height <= usize::MAX) by (nonlinear_arith)
            requires
                width * height * 4 <= usize::MAX,
        ;
        MyCustomEncoder { frame_size: width * height * CHANNELS }
    }

    pub fn frame_size(&self) -> (r: usize)
        ensures
            r == self.frame_len(),
    {
        self.frame_size
    }

    /// Copies one frame of RGBA8 bytes into the region. When `data` is not
    /// exactly one frame long the region is left untouched and the mismatch
    /// is reported: nothing is ever copied in part.
    pub fn encode_bytes(&self, data: &[u8], region: &mut [u8]) -> (r: Result<(), EncodeError>)
        requires
            self.frame_len() <= old(region)@.len(),
        ensures
            r is Ok <==> data@.len() == self.frame_len(),
            data@.len() == self.frame_len() ==> r == Ok::<(), EncodeError>(()),
            r is Ok ==> final(region)@ == data@ + old(region)@.subrange(
                self.frame_len() as int,
                old(region)@.len() as int,
            ),
            !(r is Ok) ==> final(region)@ == old(region)@,
            !(r is Ok) ==> r == Err::<(), EncodeError>(
                EncodeError::SizeMismatch { expected: self.frame_len() as usize, got: data@.len() as usize },
            ),
    {
        if data.len() != self.frame_size {
            return Err(EncodeError::SizeMismatch { expected: self.frame_size, got: data.len() });
        }
        write_bytes_at(region, 0, data);
        assert(old(region)@.subrange(0, 0) + data@ =~= data@);
        Ok(())
    }

    /// What encoding `image` gives: a conversion error, a size mismatch, or
    /// success when the image's RGBA8 bytes are exactly one frame long.
    pub open spec fn encode_outcome(self, image: Image) -> Result<(), EncodeError> {
        match rgba8_of(image) {
            None => Err(EncodeError::Conversion),
            Some(d) => if d.len() == self.frame_len() {
                Ok(())
            } else {
                Err(EncodeError::SizeMismatch { expected: self.frame_len() as usize, got: d.len() as usize })
            },
        }
    }

    /// The region after encoding `image` into `before`: the frame replaced by
    /// the image's RGBA8 bytes on success, and untouched otherwise.
    pub open spec fn region_after(self, image: Image, before: Seq<u8>) -> Seq<u8> {
        match rgba8_of(image) {
            Some(d) => if d.len() == self.frame_len() {
                d + before.subrange(self.frame_len() as int, before.len() as int)
            } else {
                before
            },
            None => before,
        }
    }

    /// Encodes a rendered image into the region: its RGBA8 bytes become the
    /// frame when they are exactly one frame long; otherwise the region is
    /// left untouched and the conversion failure or the size mismatch is
    /// reported.
    pub fn encode(&self, image: &Image, region: &mut [u8]) -> (r: Result<(), EncodeError>)
        requires
            self.frame_len() <= old(region)@.len(),
        ensures
            r == self.encode_outcome(*image),
            final(region)@ == self.region_after(*image, old(region)@),
    {
        match rgba8_bytes(image) {
            Ok(data) => self.encode_bytes(data.as_slice(), region),
            Err(_) => Err(EncodeError::Conversion),
        }
    }

    /// Encodes a rendered image only while the camera is capturing: a camera
    /// that is paused or stopped takes no frame and its region is untouched.
    pub fn capture_frame(&self, state: CaptureState, image: &Image, region: &mut [u8]) -> (r: Option<
        Result<(), EncodeError>,
    >)
        requires
            self.frame_len() <= old(region)@.len(),
        ensures
            state == CaptureState::Capturing ==> r == Some(self.encode_outcome(*image))
                && final(region)@ == self.region_after(*image, old(region)@),
            state != CaptureState::Capturing ==> r is None && final(region)@ == old(region)@,
    {
        if state.is_capturing() {
            Some(self.encode(image, region))
        } else {
            None
        }
    }

    /// Ends the encoder. The region outlives it: nothing is torn down.
    pub fn finish(self) {
    }
}

} // verus!

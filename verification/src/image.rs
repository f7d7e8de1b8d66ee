//! Decoded video frames, held as images of the `photon_rs` crate.

use crate::content::InnerContent;
use crate::result::Result;
use crate::size::Size;
use photon_rs::PhotonImage;
use vstd::prelude::*;

verus! {

/// An image of the `photon_rs` crate.
#[verifier::external_type_specification]
#[verifier::external_body]
pub struct ExPhotonImage(PhotonImage);

/// The bytes that a `PhotonImage` holds as its raw pixels.
pub uninterp spec fn photon_pixels(image: PhotonImage) -> Seq<u8>;

/// The width that a `PhotonImage` records.
pub uninterp spec fn photon_width(image: PhotonImage) -> u32;

/// The height that a `PhotonImage` records.
pub uninterp spec fn photon_height(image: PhotonImage) -> u32;

/// `PhotonImage::new`: the image holds the bytes and the dimensions it is
/// given, as they are.
#[verifier::external_body]
fn photon_new(raw_pixels: Vec<u8>, width: u32, height: u32) -> (r: PhotonImage)
    ensures
        photon_pixels(r) == raw_pixels@,
        photon_width(r) == width,
        photon_height(r) == height,
{
    PhotonImage::new(raw_pixels, width, height)
}

/// `PhotonImage::get_raw_pixels`: a copy of the bytes the image holds.
#[verifier::external_body]
fn photon_get_raw_pixels(image: &PhotonImage) -> (r: Vec<u8>)
    ensures
        r@ == photon_pixels(*image),
{
    image.get_raw_pixels()
}

/// `PhotonImage::get_width`: the width the image records.
#[verifier::external_body]
fn photon_get_width(image: &PhotonImage) -> (r: u32)
    ensures
        r == photon_width(*image),
{
    image.get_width()
}

/// `PhotonImage::get_height`: the height the image records.
#[verifier::external_body]
fn photon_get_height(image: &PhotonImage) -> (r: u32)
    ensures
        r == photon_height(*image),
{
    image.get_height()
}

/// `PhotonImage::clone`: the copy holds the same bytes and dimensions.
#[verifier::external_body]
fn photon_clone(image: &PhotonImage) -> (r: PhotonImage)
    ensures
        photon_pixels(r) == photon_pixels(*image),
        photon_width(r) == photon_width(*image),
        photon_height(r) == photon_height(*image),
{
    image.clone()
}

/// One video frame: raw pixel bytes and the dimensions they are laid out in.
pub struct Image {
    inner: PhotonImage,
}

impl InnerContent for Image {

}

impl Image {
    /// The raw pixel bytes.
    pub closed spec fn pixels(&self) -> Seq<u8> {
        photon_pixels(self.inner)
    }

    /// The dimensions.
    pub closed spec fn spec_size(&self) -> Size {
        Size { width: photon_width(self.inner), height: photon_height(self.inner) }
    }

    /// The raw pixel bytes, copied out.
    pub fn data_bytes(&self) -> (r: Vec<u8>)
        ensures
            r@ == self.pixels(),
    {
        photon_get_raw_pixels(&self.inner)
    }

    /// The dimensions.
    #[verifier::when_used_as_spec(spec_size)]
    pub fn size(&self) -> (r: Size)
        ensures
            r == self.spec_size(),
    {
        Size { height: photon_get_height(&self.inner), width: photon_get_width(&self.inner) }
    }

    /// The frame of `size` whose raw pixels are `data`. The bytes are taken
    /// as they are: nothing is checked against the dimensions.
    pub fn new_size(size: Size, data: Vec<u8>) -> (r: Result<Self>)
        ensures
            r matches Ok(image) && image.pixels() == data@ && image.size() == size,
    {
        Ok(Self { inner: photon_new(data, size.width, size.height) })
    }
}

impl Clone for Image {
    /// A copy of a frame has the same pixels and the same dimensions.
    fn clone(&self) -> (r: Self)
        ensures
            r.pixels() == self.pixels(),
            r.size() == self.size(),
    {
        Image { inner: photon_clone(&self.inner) }
    }
}

} // verus!

//! Clipboard content: text, or an encoded image with its decoded bitmap and
//! a fingerprint used to tell images apart.

use image::ImageFormat;
use md5::{Digest, Md5};
use vstd::prelude::*;

verus! {

/// The MD5 digest of a byte sequence, read as a big-endian 128-bit integer.
pub uninterp spec fn md5_of(bytes: Seq<u8>) -> u128;

/// What decoding a byte sequence as PNG yields: `None` when it is not a
/// valid PNG, else the width, height and RGBA8 pixel bytes.
pub uninterp spec fn png_decode(raw: Seq<u8>) -> Option<(u32, u32, Seq<u8>)>;

#[verifier::external_type_specification]
#[verifier::external_body]
pub struct ExImageError(image::ImageError);

/// Relies on md-5's `Md5` hasher: the digest depends on the bytes alone.
#[verifier::external_body]
fn md5_digest(bytes: &[u8]) -> (r: u128)
    ensures
        r == md5_of(bytes@),
{
    let mut hasher = Md5::new();
    hasher.update(bytes);
    u128::from_be_bytes(hasher.finalize().into())
}

/// Relies on image's `load_from_memory_with_format` with the PNG format and
/// its default decoding limits, then `to_rgba8`: the outcome depends on the
/// bytes alone.
#[verifier::external_body]
fn decode_png(raw: &[u8]) -> (r: Result<Bitmap, image::ImageError>)
    ensures
        match r {
            Ok(b) => png_decode(raw@) == Some((b.width, b.height, b.pixels@)),
            Err(_) => png_decode(raw@).is_none(),
        },
{
    match image::load_from_memory_with_format(raw, ImageFormat::Png) {
        Ok(img) => {
            let rgba = img.to_rgba8();
            Ok(Bitmap { width: rgba.width(), height: rgba.height(), pixels: rgba.into_raw() })
        },
        Err(err) => Err(err),
    }
}

/// A decoded image: `width` times `height` pixels, four bytes (RGBA) each.
#[derive(Debug, Clone)]
pub struct Bitmap {
    pub width: u32,
    pub height: u32,
    pub pixels: Vec<u8>,
}

/// The bytes given as an image are not a valid PNG.
#[derive(Debug, Clone, Copy, PartialEq, Eq, Structural)]
pub struct DecodeError;

/// An image as found on the clipboard: its encoded bytes, the bitmap decoded
/// from them, and their fingerprint.
#[derive(Debug, Clone)]
pub struct ContentImage {
    pub raw: Vec<u8>,
    pub image_buf: Bitmap,
    pub sum: u128,
}

/// The values that an image's contract speaks of.
pub ghost struct ImageView {
    pub raw: Seq<u8>,
    pub width: u32,
    pub height: u32,
    pub pixels: Seq<u8>,
    pub sum: u128,
}

impl View for ContentImage {
    type V = ImageView;

    open spec fn view(&self) -> ImageView {
        ImageView {
            raw: self.raw@,
            width: self.image_buf.width,
            height: self.image_buf.height,
            pixels: self.image_buf.pixels@,
            sum: self.sum,
        }
    }
}

impl ContentImage {
    /// Decodes `raw` as a PNG image and fingerprints it; fails exactly when
    /// the bytes are not a valid PNG.
    pub fn decode(raw: Vec<u8>) -> (r: Result<ContentImage, DecodeError>)
        ensures
            png_decode(raw@).is_none() <==> r is Err,
            r matches Ok(img) ==> img.wf() && img.raw@ == raw@,
    {
        match decode_png(raw.as_slice()) {
            Ok(image_buf) => {
                let sum = fingerprint(raw.as_slice());
                Ok(ContentImage { raw, image_buf, sum })
            },
            Err(_) => Err(DecodeError),
        }
    }

    /// A copy of the image that holds the same values.
    pub fn duplicate(&self) -> (r: ContentImage)
        ensures
            r@ == self@,
    {
        let raw = self.raw.clone();
        let pixels = self.image_buf.pixels.clone();
        assert(raw@ =~= self.raw@);
        assert(pixels@ =~= self.image_buf.pixels@);
        ContentImage {
            raw,
            image_buf: Bitmap { width: self.image_buf.width, height: self.image_buf.height, pixels },
            sum: self.sum,
        }
    }

    /// The bitmap and the fingerprint are those of `raw`.
    pub open spec fn wf(&self) -> bool {
        &&& self.sum == md5_of(self.raw@)
        &&& png_decode(self.raw@) == Some(
            (self.image_buf.width, self.image_buf.height, self.image_buf.pixels@),
        )
    }
}

/// A clipboard value.
#[derive(Debug, Clone)]
pub enum Content {
    Text(String),
    Image(ContentImage),
}

/// The values that a content's contract speaks of.
pub ghost enum ContentView {
    Text(Seq<char>),
    Image(ImageView),
}

impl View for Content {
    type V = ContentView;

    open spec fn view(&self) -> ContentView {
        match self {
            Content::Text(t) => ContentView::Text(t@),
            Content::Image(img) => ContentView::Image(img@),
        }
    }
}

/// Two values are the same content when both are text with equal characters,
/// or both are images with equal fingerprints.
pub open spec fn same_content(a: ContentView, b: ContentView) -> bool {
    match (a, b) {
        (ContentView::Text(x), ContentView::Text(y)) => x == y,
        (ContentView::Image(x), ContentView::Image(y)) => x.sum == y.sum,
        _ => false,
    }
}

/// The fingerprint of a byte sequence.
pub fn fingerprint(bytes: &[u8]) -> (r: u128)
    ensures
        r == md5_of(bytes@),
{
    md5_digest(bytes)
}

impl Content {
    pub open spec fn wf(&self) -> bool {
        match self {
            Content::Text(_) => true,
            Content::Image(img) => img.wf(),
        }
    }

    /// Decodes `raw` as a PNG image and fingerprints it; fails exactly when
    /// the bytes are not a valid PNG.
    pub fn decode_image(raw: Vec<u8>) -> (r: Result<Content, DecodeError>)
        ensures
            png_decode(raw@).is_none() <==> r is Err,
            r matches Ok(c) ==> c.wf() && (c matches Content::Image(img) && img.raw@ == raw@),
    {
        match ContentImage::decode(raw) {
            Ok(img) => Ok(Content::Image(img)),
            Err(err) => Err(err),
        }
    }

    /// Whether the two values are the same content.
    pub fn same(&self, other: &Content) -> (r: bool)
        ensures
            r == same_content(self@, other@),
    {
        match (self, other) {
            (Content::Text(x), Content::Text(y)) => *x == *y,
            (Content::Image(x), Content::Image(y)) => x.sum == y.sum,
            _ => false,
        }
    }
}

impl From<String> for Content {
    fn from(text: String) -> (r: Content) {
        Content::Text(text)
    }
}

impl vstd::std_specs::convert::FromSpecImpl<String> for Content {
    open spec fn obeys_from_spec() -> bool {
        true
    }

    open spec fn from_spec(text: String) -> Content {
        Content::Text(text)
    }
}

} // verus!

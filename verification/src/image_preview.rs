use vstd::prelude::*;

verus! {

#[verifier::external_type_specification]
#[verifier::external_body]
pub struct ExDynamicImage(image::DynamicImage);

/// The dimensions that decoding a byte payload yields, or `None` when the
/// payload does not decode.  Decoding is a function of the bytes alone, so
/// the outcome can be named without writing the decoder down.
pub uninterp spec fn decoded_dims(bytes: Seq<u8>) -> Option<(u32, u32)>;

/// Relies on `image::load_from_memory`, which decodes a byte buffer after
/// guessing its format, and on `DynamicImage::width` / `height` for the
/// decoded image's dimensions.  Decoding depends on the bytes alone: the
/// outcome is `decoded_dims` of them, `None` for a payload that does not
/// decode.
#[verifier::external_body]
fn decode_image(bytes: &Vec<u8>) -> (r: Option<(image::DynamicImage, u32, u32)>)
    ensures
        match r {
            Some((img, w, h)) => decoded_dims(bytes@) == Some((w, h)),
            None => decoded_dims(bytes@) is None,
        },
{
    match image::load_from_memory(bytes.as_slice()) {
        Ok(img) => {
            let w = img.width();
            let h = img.height();
            Some((img, w, h))
        },
        Err(_) => None,
    }
}

/// Relies on `DynamicImage::resize` with a fit-within filter: the result
/// preserves the aspect ratio, both dimensions lie within the given bounds,
/// and neither collapses to zero.  `width` / `height` report the result's
/// dimensions.
#[verifier::external_body]
fn resize_to_fit(img: &image::DynamicImage, max_w: u32, max_h: u32) -> (r: (image::DynamicImage, u32, u32))
    requires
        1 <= max_w <= 4096,
        1 <= max_h <= 4096,
    ensures
        1 <= r.1 <= max_w,
        1 <= r.2 <= max_h,
{
    let out = img.resize(max_w, max_h, image::imageops::FilterType::Lanczos3);
    let w = out.width();
    let h = out.height();
    (out, w, h)
}

/// The side length at or under which an image is kept at native resolution.
pub const THUMBNAIL_LIMIT: u32 = 512;

/// The resize policy for thumbnails: an image at or under the limit in both
/// dimensions is kept at native resolution, to avoid upscaling artifacts; a
/// larger one is downscaled into the limit, preserving aspect ratio.
pub fn fit_image(img: image::DynamicImage, w: u32, h: u32) -> (r: (image::DynamicImage, u32, u32))
    ensures
        w <= THUMBNAIL_LIMIT && h <= THUMBNAIL_LIMIT ==> r.1 == w && r.2 == h,
        !(w <= THUMBNAIL_LIMIT && h <= THUMBNAIL_LIMIT) ==> 1 <= r.1 <= THUMBNAIL_LIMIT
            && 1 <= r.2 <= THUMBNAIL_LIMIT,
        r.1 <= THUMBNAIL_LIMIT || r.1 == w,
        r.2 <= THUMBNAIL_LIMIT || r.2 == h,
{
    if w <= THUMBNAIL_LIMIT && h <= THUMBNAIL_LIMIT {
        (img, w, h)
    } else {
        resize_to_fit(&img, THUMBNAIL_LIMIT, THUMBNAIL_LIMIT)
    }
}

/// A decoded, size-bounded image ready for display: the thumbnail model.
/// Once created it is immutable but for visibility flags.
pub struct ImagePreview {
    pub image: Option<image::DynamicImage>,
    pub width: u32,
    pub height: u32,
    pub visible: bool,
    pub full_screen: bool,
    pub decode_failed: bool,
}

impl ImagePreview {
    /// A held image honours the thumbnail resize policy.
    pub open spec fn wf(self) -> bool {
        self.image is Some ==> self.width <= THUMBNAIL_LIMIT && self.height <= THUMBNAIL_LIMIT
    }

    pub fn new() -> (r: ImagePreview)
        ensures
            r.wf(),
            r.image is None,
            !r.visible,
            !r.full_screen,
            !r.decode_failed,
    {
        ImagePreview {
            image: None,
            width: 0,
            height: 0,
            visible: false,
            full_screen: false,
            decode_failed: false,
        }
    }

    /// Decode a payload into the preview under the resize policy.  A
    /// decodable payload is always taken: the preview then holds its fitted
    /// dimensions and becomes visible.  A payload that does not decode
    /// clears the slot and records the failure, without touching anything
    /// else.
    pub fn load_from_bytes(&mut self, bytes: &Vec<u8>) -> (ok: bool)
        requires
            old(self).wf(),
        ensures
            final(self).wf(),
            ok == (decoded_dims(bytes@) is Some),
            ok ==> final(self).image is Some && final(self).visible
                && !final(self).decode_failed
                && final(self).width <= THUMBNAIL_LIMIT && final(self).height <= THUMBNAIL_LIMIT,
            match decoded_dims(bytes@) {
                Some((dw, dh)) => if dw <= THUMBNAIL_LIMIT && dh <= THUMBNAIL_LIMIT {
                    final(self).width == dw && final(self).height == dh
                } else {
                    1 <= final(self).width <= THUMBNAIL_LIMIT
                        && 1 <= final(self).height <= THUMBNAIL_LIMIT
                },
                None => true,
            },
            !ok ==> final(self).image is None && final(self).decode_failed,
            final(self).full_screen == old(self).full_screen,
    {
        match decode_image(bytes) {
            Some((img, w, h)) => {
                let (fitted, fw, fh) = fit_image(img, w, h);
                self.image = Some(fitted);
                self.width = fw;
                self.height = fh;
                self.visible = true;
                self.decode_failed = false;
                true
            },
            None => {
                self.image = None;
                self.width = 0;
                self.height = 0;
                self.decode_failed = true;
                false
            },
        }
    }

    pub fn has_image(&self) -> (r: bool)
        ensures
            r == (self.image is Some),
    {
        match &self.image {
            Some(_) => true,
            None => false,
        }
    }

    pub fn set_visible(&mut self, visible: bool)
        requires
            old(self).wf(),
        ensures
            final(self).wf(),
            *final(self) == (ImagePreview { visible, ..*old(self) }),
    {
        self.visible = visible;
    }

    pub fn is_visible(&self) -> (r: bool)
        ensures
            r == self.visible,
    {
        self.visible
    }

    pub fn toggle_full_screen(&mut self)
        requires
            old(self).wf(),
        ensures
            final(self).wf(),
            *final(self) == (ImagePreview { full_screen: !old(self).full_screen, ..*old(self) }),
    {
        self.full_screen = !self.full_screen;
    }

    pub fn is_full_screen(&self) -> (r: bool)
        ensures
            r == self.full_screen,
    {
        self.full_screen
    }

    pub fn clear(&mut self)
        requires
            old(self).wf(),
        ensures
            final(self).wf(),
            final(self).image is None,
            !final(self).visible,
            !final(self).full_screen,
            !final(self).decode_failed,
    {
        self.image = None;
        self.width = 0;
        self.height = 0;
        self.visible = false;
        self.full_screen = false;
        self.decode_failed = false;
    }
}

} // verus!

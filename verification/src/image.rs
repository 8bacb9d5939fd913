//! Decoding the embedded raw-image hint into a display-ready pixel buffer.
//!
//! A request may embed an icon as a structured raw-pixel tuple.  The
//! decoder validates that the tuple actually describes its pixel buffer
//! and converts it to 4-byte-per-pixel RGBA: a 3-byte-per-pixel source
//! gains a constant opaque alpha byte, a 4-byte-per-pixel source is kept
//! as it is.  A notification whose image hint fails to decode is still
//! shown, just without an icon.

use vstd::prelude::*;

use crate::entries::{map_of_entries, unique_keys};
use crate::hints::{copy_bytes, HintValue, HintValueRep, ImageDataRep};
use crate::notification::{Notification, NotificationRep};
use vstd::string::StringExecFns;

verus! {

/// A decoded icon: the pixel buffer always holds 4 bytes (RGBA) per pixel.
#[derive(Debug, PartialEq, Eq)]
pub struct Image {
    pub width: i32,
    pub height: i32,
    pub rowstride: i32,
    pub has_alpha: bool,
    pub bits_per_sample: i32,
    pub channels: i32,
    pub pixels: Vec<u8>,
}

impl Image {
    /// The buffer holds exactly one 4-byte group per pixel.
    pub open spec fn wf(self) -> bool {
        &&& 0 <= self.width
        &&& 0 <= self.height
        &&& self.pixels@.len() == self.width * self.height * 4
    }
}

/// Why a raw-image hint could not be decoded.
#[derive(Clone, Copy, Debug, PartialEq, Eq, Structural)]
pub enum ImageDecodeError {
    /// The hint value is not the structured raw-image tuple.
    WrongShape,
    /// The tuple's dimensions and channel description do not match its
    /// pixel buffer.
    Inconsistent,
}

/// An RGB byte sequence expanded to RGBA: after each group of (up to) 3
/// source bytes an opaque alpha byte is appended.
pub open spec fn rgba_of(rgb: Seq<u8>) -> Seq<u8>
    decreases rgb.len(),
{
    if rgb.len() == 0 {
        Seq::empty()
    } else if rgb.len() < 3 {
        rgb.push(255)
    } else {
        rgb.take(3).push(255) + rgba_of(rgb.skip(3))
    }
}

/// Expanding three more source bytes appends those bytes and one alpha
/// byte to the output.
pub proof fn lemma_rgba_of_step(s: Seq<u8>, i: int)
    requires
        0 <= i,
        i % 3 == 0,
        i + 3 <= s.len(),
    ensures
        rgba_of(s.take(i + 3)) == rgba_of(s.take(i)) + s.subrange(i, i + 3).push(255),
    decreases i,
{
    if i == 0 {
        assert(rgba_of(s.take(0)) =~= Seq::<u8>::empty());
        let a = s.take(3);
        if a.len() == 3 {
            assert(a.skip(3) =~= Seq::<u8>::empty());
            assert(rgba_of(a.skip(3)) =~= Seq::<u8>::empty());
            assert(a.take(3) =~= a);
            assert(a =~= s.subrange(0, 3));
            assert(rgba_of(a) =~= Seq::<u8>::empty() + s.subrange(0, 3).push(255));
        }
    } else {
        let a = s.take(i + 3);
        let b = s.take(i);
        assert(a.len() >= 3);
        assert(b.len() >= 3);
        assert(a.take(3) =~= s.take(3));
        assert(b.take(3) =~= s.take(3));
        assert(a.skip(3) =~= s.skip(3).take(i));
        assert(b.skip(3) =~= s.skip(3).take(i - 3));
        lemma_rgba_of_step(s.skip(3), i - 3);
        assert(s.skip(3).subrange(i - 3, i) =~= s.subrange(i, i + 3));
        assert(rgba_of(a) =~= rgba_of(b) + s.subrange(i, i + 3).push(255));
    }
}

/// A short trailing group (1 or 2 bytes) still gains one alpha byte.
pub proof fn lemma_rgba_of_tail(s: Seq<u8>, i: int)
    requires
        0 <= i,
        i % 3 == 0,
        i < s.len(),
        s.len() < i + 3,
    ensures
        rgba_of(s) == rgba_of(s.take(i)) + s.skip(i).push(255),
    decreases i,
{
    if i == 0 {
        assert(rgba_of(s.take(0)) =~= Seq::<u8>::empty());
        assert(s.skip(0) =~= s);
        assert(rgba_of(s) =~= Seq::<u8>::empty() + s.push(255));
    } else {
        assert(s.take(i).take(3) =~= s.take(3));
        assert(s.take(i).skip(3) =~= s.skip(3).take(i - 3));
        lemma_rgba_of_tail(s.skip(3), i - 3);
        assert(s.skip(3).skip(i - 3) =~= s.skip(i));
        assert(rgba_of(s) =~= rgba_of(s.take(i)) + s.skip(i).push(255));
    }
}

/// Expanding a whole number of 3-byte pixels: the output holds one
/// 4-byte group per source pixel; the first three bytes of each group are
/// the source bytes and the fourth is the opaque alpha byte.
pub proof fn lemma_rgba_of_rgb(s: Seq<u8>)
    requires
        s.len() % 3 == 0,
    ensures
        rgba_of(s).len() == s.len() / 3 * 4,
        forall|k: int|
            0 <= k < rgba_of(s).len() ==> rgba_of(s)[k] == (if k % 4 == 3 {
                255u8
            } else {
                s[k / 4 * 3 + k % 4]
            }),
    decreases s.len(),
{
    if s.len() == 0 {
    } else {
        lemma_rgba_of_rgb(s.skip(3));
        assert(rgba_of(s) == s.take(3).push(255) + rgba_of(s.skip(3)));
        assert(s.len() / 3 * 4 == 4 + (s.len() - 3) / 3 * 4) by (nonlinear_arith)
            requires
                s.len() >= 3,
                s.len() % 3 == 0,
        ;
        assert forall|k: int| 0 <= k < rgba_of(s).len() implies rgba_of(s)[k] == (if k % 4 == 3 {
            255u8
        } else {
            s[k / 4 * 3 + k % 4]
        }) by {
            if k < 4 {
                if k < 3 {
                    assert(rgba_of(s)[k] == s.take(3)[k]);
                }
            } else {
                assert(rgba_of(s)[k] == rgba_of(s.skip(3))[k - 4]);
                assert((k - 4) / 4 * 3 + (k - 4) % 4 == k / 4 * 3 + k % 4 - 3) by (nonlinear_arith)
                    requires
                        k >= 4,
                ;
            }
        }
    }
}

/// Appends an opaque alpha byte to each 3-byte group of an RGB buffer,
/// producing an RGBA buffer.  A trailing group shorter than 3 bytes also
/// gains one alpha byte.
pub fn rbg_to_rgba(rgb: Vec<u8>) -> (rgba: Vec<u8>)
    ensures
        rgba@ == rgba_of(rgb@),
{
    let mut rgba: Vec<u8> = Vec::new();
    let mut i: usize = 0;
    proof {
        assert(rgba_of(rgb@.take(0)) =~= Seq::<u8>::empty());
    }
    while i < rgb.len()
        invariant
            i <= rgb.len(),
            i % 3 == 0,
            rgba@ == rgba_of(rgb@.take(i as int)),
        decreases rgb.len() - i,
    {
        if i + 3 <= rgb.len() {
            proof {
                lemma_rgba_of_step(rgb@, i as int);
            }
            let ghost before = rgba@;
            rgba.push(rgb[i]);
            rgba.push(rgb[i + 1]);
            rgba.push(rgb[i + 2]);
            rgba.push(255);
            proof {
                assert(rgba@ =~= before + rgb@.subrange(i as int, i as int + 3).push(255));
            }
            i += 3;
        } else {
            proof {
                lemma_rgba_of_tail(rgb@, i as int);
            }
            let ghost before = rgba@;
            let ghost start = i as int;
            let mut j: usize = i;
            while j < rgb.len()
                invariant
                    0 <= start <= j <= rgb.len(),
                    rgba@ == before + rgb@.subrange(start, j as int),
                decreases rgb.len() - j,
            {
                rgba.push(rgb[j]);
                proof {
                    assert(rgba@ =~= before + rgb@.subrange(start, j as int + 1));
                }
                j += 1;
            }
            rgba.push(255);
            proof {
                assert(rgb@.subrange(start, rgb@.len() as int) =~= rgb@.skip(start));
                assert(rgba@ =~= before + rgb@.skip(start).push(255));
            }
            return rgba;
        }
    }
    proof {
        assert(rgb@.take(rgb@.len() as int) =~= rgb@);
    }
    rgba
}

/// Whether the raw tuple consistently describes its pixel buffer: the
/// dimensions are non-negative, the channel count matches the alpha flag
/// (3 bytes per pixel without alpha, 4 with), and the buffer holds
/// exactly `width * height * channels` bytes.
pub open spec fn valid_image_data(d: ImageDataRep) -> bool {
    &&& 0 <= d.width
    &&& 0 <= d.height
    &&& (d.channels == 3 || d.channels == 4)
    &&& d.has_alpha == (d.channels == 4)
    &&& d.pixels.len() == d.width * d.height * d.channels
}

/// The RGBA buffer a valid raw tuple decodes to.
pub open spec fn spec_decoded_pixels(d: ImageDataRep) -> Seq<u8> {
    if d.channels == 3 {
        rgba_of(d.pixels)
    } else {
        d.pixels
    }
}

/// What decoding a valid raw tuple `d` yields: the tuple's own
/// description, with the pixel buffer expanded to RGBA.
pub open spec fn is_decoded(img: Image, d: ImageDataRep) -> bool {
    &&& img.wf()
    &&& img.width == d.width
    &&& img.height == d.height
    &&& img.rowstride == d.rowstride
    &&& img.has_alpha == d.has_alpha
    &&& img.bits_per_sample == d.bits_per_sample
    &&& img.channels == d.channels
    &&& img.pixels@ == spec_decoded_pixels(d)
}

impl Image {
    /// Decodes the raw-image hint value into an RGBA image.  Fails with
    /// `WrongShape` when the hint is not the structured raw-image tuple,
    /// and with `Inconsistent` when the tuple does not describe its
    /// buffer; succeeds exactly on valid tuples.
    pub fn try_from_hint(h: &HintValue) -> (r: Result<Image, ImageDecodeError>)
        ensures
            r is Ok <==> (h@ is Image && valid_image_data(h@->Image_0)),
            r matches Ok(img) ==> is_decoded(img, h@->Image_0),
            r matches Err(e) ==> e == (if h@ is Image {
                ImageDecodeError::Inconsistent
            } else {
                ImageDecodeError::WrongShape
            }),
    {
        let d = match h {
            HintValue::Image(d) => d,
            _ => {
                return Err(ImageDecodeError::WrongShape);
            },
        };
        if d.width < 0 || d.height < 0 {
            return Err(ImageDecodeError::Inconsistent);
        }
        if !(d.channels == 3 || d.channels == 4) {
            return Err(ImageDecodeError::Inconsistent);
        }
        if d.has_alpha != (d.channels == 4) {
            return Err(ImageDecodeError::Inconsistent);
        }
        let nbytes = d.pixels.len();
        let expected = match (d.width as u64).checked_mul(d.height as u64) {
            Some(wh) => match wh.checked_mul(d.channels as u64) {
                Some(whc) => whc,
                None => {
                    // The buffer cannot be as large as the overflowing product.
                    proof {
                        assert(d.pixels@.len() != d.width * d.height * d.channels)
                            by (nonlinear_arith)
                            requires
                                (d.width as int) * (d.height as int) * (d.channels as int)
                                    > u64::MAX as int,
                                d.pixels@.len() <= u64::MAX as int,
                        ;
                    }
                    return Err(ImageDecodeError::Inconsistent);
                },
            },
            None => {
                proof {
                    assert(d.pixels@.len() != d.width * d.height * d.channels)
                        by (nonlinear_arith)
                        requires
                            (d.width as int) * (d.height as int) > u64::MAX as int,
                            d.channels == 3 || d.channels == 4,
                            d.pixels@.len() <= u64::MAX as int,
                    ;
                }
                return Err(ImageDecodeError::Inconsistent);
            },
        };
        if nbytes as u64 != expected {
            return Err(ImageDecodeError::Inconsistent);
        }
        let pixels = if d.channels == 3 {
            proof {
                assert(d.pixels@.len() % 3 == 0) by (nonlinear_arith)
                    requires
                        d.pixels@.len() == d.width * d.height * 3,
                        0 <= d.width,
                        0 <= d.height,
                ;
                lemma_rgba_of_rgb(d.pixels@);
                assert(d.pixels@.len() / 3 * 4 == d.width * d.height * 4) by (nonlinear_arith)
                    requires
                        d.pixels@.len() == d.width * d.height * 3,
                        0 <= d.width,
                        0 <= d.height,
                ;
            }
            rbg_to_rgba(copy_bytes(&d.pixels))
        } else {
            copy_bytes(&d.pixels)
        };
        Ok(
            Image {
                width: d.width,
                height: d.height,
                rowstride: d.rowstride,
                has_alpha: d.has_alpha,
                bits_per_sample: d.bits_per_sample,
                channels: d.channels,
                pixels,
            },
        )
    }
}

/// Where a notification's icon comes from.
#[derive(Debug, PartialEq, Eq)]
pub enum IconChoice {
    /// Decoded from an embedded raw-image hint.
    Embedded(Image),
    /// Named by the request's `app_icon` field; the presentation layer
    /// resolves the name.
    Named(String),
    /// No icon: none was given, or the embedded image failed to decode.
    NoIcon,
}

/// The hint value a notification's icon is decoded from: `image-data` is
/// preferred, then `icon_data`.
pub open spec fn spec_icon_hint(n: NotificationRep) -> Option<HintValueRep> {
    let m = map_of_entries(n.hints);
    if m.dom().contains("image-data"@) {
        Some(m["image-data"@])
    } else if m.dom().contains("icon_data"@) {
        Some(m["icon_data"@])
    } else {
        None
    }
}

/// Selects a notification's icon: the embedded raw image when a valid
/// image hint is present; otherwise the named `app_icon` when it is
/// non-empty; otherwise none.  An image hint that fails to decode yields
/// no icon (the notification is still shown) and does not fall back to
/// `app_icon`.
pub fn icon_for(n: &Notification) -> (r: IconChoice)
    requires
        unique_keys(n@.hints),
    ensures
        match spec_icon_hint(n@) {
            Some(h) => if h is Image && valid_image_data(h->Image_0) {
                r matches IconChoice::Embedded(img) && is_decoded(img, h->Image_0)
            } else {
                r is NoIcon
            },
            None => if n@.app_icon.len() > 0 {
                r matches IconChoice::Named(name) && name@ == n@.app_icon
            } else {
                r is NoIcon
            },
        },
{
    let image_key = String::from_str("image-data");
    let found = match n.hint(&image_key) {
        Some(h) => Some(h),
        None => {
            let icon_key = String::from_str("icon_data");
            n.hint(&icon_key)
        },
    };
    match found {
        Some(h) => match Image::try_from_hint(h) {
            Ok(img) => IconChoice::Embedded(img),
            Err(_) => IconChoice::NoIcon,
        },
        None => {
            if !n.app_icon.as_str().is_empty() {
                IconChoice::Named(n.app_icon.clone())
            } else {
                IconChoice::NoIcon
            }
        },
    }
}

} // verus!

//! Owned, typed hint values.
//!
//! A notification request carries a map of loosely-typed metadata values.
//! At the protocol boundary each incoming value is read into a [`WireValue`],
//! a closed model of the wire-level data the service can receive, and then
//! eagerly converted into an owned [`HintValue`]: text, integer, boolean,
//! byte sequence, or a structured raw-image tuple.  Value kinds the service
//! does not interpret are preserved opaquely; a value that cannot cross the
//! boundary at all (a file-descriptor handle) fails the whole call.

use vstd::prelude::*;

use crate::entries::{
    lemma_map_of_entries_push, lemma_map_of_entries_update, map_of_entries, unique_keys,
};

verus! {

/// A single field of a structured wire value.  Only the field kinds that
/// the service interprets (those of the raw-image tuple) are distinguished;
/// any other field is preserved opaquely as its type signature.
#[derive(Debug, PartialEq, Eq)]
pub enum FieldValue {
    I32(i32),
    Bool(bool),
    Bytes(Vec<u8>),
    Other(String),
}

/// Abstraction of a [`FieldValue`].
pub enum FieldValueRep {
    I32(i32),
    Bool(bool),
    Bytes(Seq<u8>),
    Other(Seq<char>),
}

impl View for FieldValue {
    type V = FieldValueRep;

    open spec fn view(&self) -> FieldValueRep {
        match self {
            FieldValue::I32(x) => FieldValueRep::I32(*x),
            FieldValue::Bool(b) => FieldValueRep::Bool(*b),
            FieldValue::Bytes(bs) => FieldValueRep::Bytes(bs@),
            FieldValue::Other(s) => FieldValueRep::Other(s@),
        }
    }
}

impl DeepView for FieldValue {
    type V = FieldValueRep;

    open spec fn deep_view(&self) -> FieldValueRep {
        self.view()
    }
}

/// An incoming metadata value as it appears on the wire, owned.  Numeric
/// kinds are kept as received; a `Double` carries the raw bits of the
/// 64-bit floating-point value, which the service never interprets; a
/// `Structure` is a tuple of fields; an `Fd` is a file-descriptor handle,
/// which cannot be converted to an owned value; `Opaque` stands for any
/// other kind, carrying its type signature.
#[derive(Debug, PartialEq, Eq)]
pub enum WireValue {
    Str(String),
    Bool(bool),
    Byte(u8),
    I32(i32),
    U32(u32),
    I64(i64),
    U64(u64),
    Double(u64),
    Bytes(Vec<u8>),
    Structure(Vec<FieldValue>),
    Fd(i32),
    Opaque(String),
}

/// Abstraction of a [`WireValue`].
pub enum WireValueRep {
    Str(Seq<char>),
    Bool(bool),
    Byte(u8),
    I32(i32),
    U32(u32),
    I64(i64),
    U64(u64),
    Double(u64),
    Bytes(Seq<u8>),
    Structure(Seq<FieldValueRep>),
    Fd(i32),
    Opaque(Seq<char>),
}

impl View for WireValue {
    type V = WireValueRep;

    open spec fn view(&self) -> WireValueRep {
        match self {
            WireValue::Str(s) => WireValueRep::Str(s@),
            WireValue::Bool(b) => WireValueRep::Bool(*b),
            WireValue::Byte(b) => WireValueRep::Byte(*b),
            WireValue::I32(x) => WireValueRep::I32(*x),
            WireValue::U32(x) => WireValueRep::U32(*x),
            WireValue::I64(x) => WireValueRep::I64(*x),
            WireValue::U64(x) => WireValueRep::U64(*x),
            WireValue::Double(bits) => WireValueRep::Double(*bits),
            WireValue::Bytes(bs) => WireValueRep::Bytes(bs@),
            WireValue::Structure(fs) => WireValueRep::Structure(fs.deep_view()),
            WireValue::Fd(x) => WireValueRep::Fd(*x),
            WireValue::Opaque(s) => WireValueRep::Opaque(s@),
        }
    }
}

impl DeepView for WireValue {
    type V = WireValueRep;

    open spec fn deep_view(&self) -> WireValueRep {
        self.view()
    }
}

/// The structured raw-image tuple embedded in a hint, exactly as received:
/// `pixels` still holds one `channels`-byte group per pixel.
#[derive(Debug, PartialEq, Eq)]
pub struct ImageData {
    pub width: i32,
    pub height: i32,
    pub rowstride: i32,
    pub has_alpha: bool,
    pub bits_per_sample: i32,
    pub channels: i32,
    pub pixels: Vec<u8>,
}

/// Abstraction of an [`ImageData`].
#[verifier::ext_equal]
pub struct ImageDataRep {
    pub width: i32,
    pub height: i32,
    pub rowstride: i32,
    pub has_alpha: bool,
    pub bits_per_sample: i32,
    pub channels: i32,
    pub pixels: Seq<u8>,
}

impl View for ImageData {
    type V = ImageDataRep;

    open spec fn view(&self) -> ImageDataRep {
        ImageDataRep {
            width: self.width,
            height: self.height,
            rowstride: self.rowstride,
            has_alpha: self.has_alpha,
            bits_per_sample: self.bits_per_sample,
            channels: self.channels,
            pixels: self.pixels@,
        }
    }
}

impl DeepView for ImageData {
    type V = ImageDataRep;

    open spec fn deep_view(&self) -> ImageDataRep {
        self.view()
    }
}

/// An owned hint value after conversion at the protocol boundary.
#[derive(Debug, PartialEq, Eq)]
pub enum HintValue {
    Text(String),
    Int(i64),
    Boolean(bool),
    Bytes(Vec<u8>),
    Image(ImageData),
    Other(WireValue),
}

/// Abstraction of a [`HintValue`].
pub enum HintValueRep {
    Text(Seq<char>),
    Int(i64),
    Boolean(bool),
    Bytes(Seq<u8>),
    Image(ImageDataRep),
    Other(WireValueRep),
}

impl View for HintValue {
    type V = HintValueRep;

    open spec fn view(&self) -> HintValueRep {
        match self {
            HintValue::Text(s) => HintValueRep::Text(s@),
            HintValue::Int(x) => HintValueRep::Int(*x),
            HintValue::Boolean(b) => HintValueRep::Boolean(*b),
            HintValue::Bytes(bs) => HintValueRep::Bytes(bs@),
            HintValue::Image(d) => HintValueRep::Image(d@),
            HintValue::Other(w) => HintValueRep::Other(w@),
        }
    }
}

impl DeepView for HintValue {
    type V = HintValueRep;

    open spec fn deep_view(&self) -> HintValueRep {
        self.view()
    }
}

/// Why a request was rejected before any state changed.
#[derive(Clone, Copy, Debug, PartialEq, Eq, Structural)]
pub enum ProtocolError {
    /// A hint value cannot be converted into an owned representation.
    HintNotConvertible,
    /// Every 32-bit notification id has been handed out.
    IdSpaceExhausted,
}

// ---------------------------------------------------------------------
// Owned copies.
// ---------------------------------------------------------------------

/// Byte-for-byte copy of a buffer.
pub fn copy_bytes(v: &Vec<u8>) -> (r: Vec<u8>)
    ensures
        r@ == v@,
{
    let mut r: Vec<u8> = Vec::new();
    let mut i: usize = 0;
    while i < v.len()
        invariant
            i <= v.len(),
            r@ == v@.take(i as int),
        decreases v.len() - i,
    {
        r.push(v[i]);
        proof {
            assert(r@ =~= v@.take(i as int + 1));
        }
        i += 1;
    }
    proof {
        assert(v@.take(v@.len() as int) =~= v@);
    }
    r
}

impl Clone for FieldValue {
    /// The copy abstracts to the same value.
    fn clone(&self) -> (r: Self)
        ensures
            r@ == self@,
    {
        match self {
            FieldValue::I32(x) => FieldValue::I32(*x),
            FieldValue::Bool(b) => FieldValue::Bool(*b),
            FieldValue::Bytes(bs) => FieldValue::Bytes(copy_bytes(bs)),
            FieldValue::Other(s) => FieldValue::Other(s.clone()),
        }
    }
}

/// Element-wise copy of a structure's fields.
fn copy_fields(v: &Vec<FieldValue>) -> (r: Vec<FieldValue>)
    ensures
        r.deep_view() == v.deep_view(),
{
    let mut r: Vec<FieldValue> = Vec::new();
    let mut i: usize = 0;
    while i < v.len()
        invariant
            i <= v.len(),
            r@.len() == i,
            forall|k: int| 0 <= k < i ==> r@[k]@ == v@[k]@,
        decreases v.len() - i,
    {
        r.push(v[i].clone());
        i += 1;
    }
    proof {
        assert(r.deep_view() =~= v.deep_view());
    }
    r
}

impl Clone for WireValue {
    /// The copy abstracts to the same value.
    fn clone(&self) -> (r: Self)
        ensures
            r@ == self@,
    {
        match self {
            WireValue::Str(s) => WireValue::Str(s.clone()),
            WireValue::Bool(b) => WireValue::Bool(*b),
            WireValue::Byte(b) => WireValue::Byte(*b),
            WireValue::I32(x) => WireValue::I32(*x),
            WireValue::U32(x) => WireValue::U32(*x),
            WireValue::I64(x) => WireValue::I64(*x),
            WireValue::U64(x) => WireValue::U64(*x),
            WireValue::Double(bits) => WireValue::Double(*bits),
            WireValue::Bytes(bs) => WireValue::Bytes(copy_bytes(bs)),
            WireValue::Structure(fs) => WireValue::Structure(copy_fields(fs)),
            WireValue::Fd(x) => WireValue::Fd(*x),
            WireValue::Opaque(s) => WireValue::Opaque(s.clone()),
        }
    }
}

impl Clone for ImageData {
    /// The copy abstracts to the same value.
    fn clone(&self) -> (r: Self)
        ensures
            r@ == self@,
    {
        ImageData {
            width: self.width,
            height: self.height,
            rowstride: self.rowstride,
            has_alpha: self.has_alpha,
            bits_per_sample: self.bits_per_sample,
            channels: self.channels,
            pixels: copy_bytes(&self.pixels),
        }
    }
}

impl Clone for HintValue {
    /// The copy abstracts to the same value.
    fn clone(&self) -> (r: Self)
        ensures
            r@ == self@,
    {
        match self {
            HintValue::Text(s) => HintValue::Text(s.clone()),
            HintValue::Int(x) => HintValue::Int(*x),
            HintValue::Boolean(b) => HintValue::Boolean(*b),
            HintValue::Bytes(bs) => HintValue::Bytes(copy_bytes(bs)),
            HintValue::Image(d) => HintValue::Image(d.clone()),
            HintValue::Other(w) => HintValue::Other(w.clone()),
        }
    }
}

// ---------------------------------------------------------------------
// Conversion at the protocol boundary.
// ---------------------------------------------------------------------

/// Whether a structure's fields have exactly the shape of the raw-image
/// tuple: `(width, height, rowstride, has_alpha, bits_per_sample,
/// channels, pixels)`.
pub open spec fn is_image_shape(fs: Seq<FieldValueRep>) -> bool {
    &&& fs.len() == 7
    &&& fs[0] is I32
    &&& fs[1] is I32
    &&& fs[2] is I32
    &&& fs[3] is Bool
    &&& fs[4] is I32
    &&& fs[5] is I32
    &&& fs[6] is Bytes
}

/// The raw-image tuple read out of an image-shaped structure.
pub open spec fn image_of_fields(fs: Seq<FieldValueRep>) -> ImageDataRep
    recommends
        is_image_shape(fs),
{
    ImageDataRep {
        width: fs[0]->I32_0,
        height: fs[1]->I32_0,
        rowstride: fs[2]->I32_0,
        has_alpha: fs[3]->Bool_0,
        bits_per_sample: fs[4]->I32_0,
        channels: fs[5]->I32_0,
        pixels: fs[6]->Bytes_0,
    }
}

/// The owned value a wire value converts to, or `None` when the value
/// cannot cross the protocol boundary.  Strings, booleans and byte
/// sequences convert to their own kind; every integral kind that fits is
/// widened to a 64-bit integer; an image-shaped structure becomes the
/// raw-image tuple; everything else is preserved opaquely, except a
/// file-descriptor handle, which cannot be owned.
pub open spec fn spec_convert_value(w: WireValueRep) -> Option<HintValueRep> {
    match w {
        WireValueRep::Str(s) => Some(HintValueRep::Text(s)),
        WireValueRep::Bool(b) => Some(HintValueRep::Boolean(b)),
        WireValueRep::Byte(b) => Some(HintValueRep::Int(b as i64)),
        WireValueRep::I32(x) => Some(HintValueRep::Int(x as i64)),
        WireValueRep::U32(x) => Some(HintValueRep::Int(x as i64)),
        WireValueRep::I64(x) => Some(HintValueRep::Int(x)),
        WireValueRep::U64(x) => if x <= i64::MAX as u64 {
            Some(HintValueRep::Int(x as i64))
        } else {
            Some(HintValueRep::Other(w))
        },
        WireValueRep::Double(_) => Some(HintValueRep::Other(w)),
        WireValueRep::Bytes(bs) => Some(HintValueRep::Bytes(bs)),
        WireValueRep::Structure(fs) => if is_image_shape(fs) {
            Some(HintValueRep::Image(image_of_fields(fs)))
        } else {
            Some(HintValueRep::Other(w))
        },
        WireValueRep::Fd(_) => None,
        WireValueRep::Opaque(_) => Some(HintValueRep::Other(w)),
    }
}

/// Whether a structure's fields have the raw-image shape.
fn fields_are_image_shape(fs: &Vec<FieldValue>) -> (r: bool)
    ensures
        r == is_image_shape(fs.deep_view()),
{
    fs.len() == 7 && matches!(fs[0], FieldValue::I32(_)) && matches!(fs[1], FieldValue::I32(_))
        && matches!(fs[2], FieldValue::I32(_)) && matches!(fs[3], FieldValue::Bool(_)) && matches!(
        fs[4],
        FieldValue::I32(_),
    ) && matches!(fs[5], FieldValue::I32(_)) && matches!(fs[6], FieldValue::Bytes(_))
}

/// Reads the `i32` out of a field known to carry one.
fn field_i32(fs: &Vec<FieldValue>, i: usize) -> (r: i32)
    requires
        i < fs.deep_view().len(),
        fs.deep_view()[i as int] is I32,
    ensures
        r == fs.deep_view()[i as int]->I32_0,
{
    match &fs[i] {
        FieldValue::I32(x) => *x,
        _ => 0,
    }
}

/// Converts one wire value into an owned hint value, per
/// [`spec_convert_value`].
pub fn convert_value(w: WireValue) -> (r: Result<HintValue, ProtocolError>)
    ensures
        r is Ok <==> spec_convert_value(w@) is Some,
        r matches Ok(h) ==> Some(h@) == spec_convert_value(w@),
        r matches Err(e) ==> e == ProtocolError::HintNotConvertible,
{
    match w {
        WireValue::Str(s) => Ok(HintValue::Text(s)),
        WireValue::Bool(b) => Ok(HintValue::Boolean(b)),
        WireValue::Byte(b) => Ok(HintValue::Int(b as i64)),
        WireValue::I32(x) => Ok(HintValue::Int(x as i64)),
        WireValue::U32(x) => Ok(HintValue::Int(x as i64)),
        WireValue::I64(x) => Ok(HintValue::Int(x)),
        WireValue::U64(x) => {
            if x <= i64::MAX as u64 {
                Ok(HintValue::Int(x as i64))
            } else {
                Ok(HintValue::Other(WireValue::U64(x)))
            }
        },
        WireValue::Double(bits) => Ok(HintValue::Other(WireValue::Double(bits))),
        WireValue::Bytes(bs) => Ok(HintValue::Bytes(bs)),
        WireValue::Structure(fs) => {
            if fields_are_image_shape(&fs) {
                let width = field_i32(&fs, 0);
                let height = field_i32(&fs, 1);
                let rowstride = field_i32(&fs, 2);
                let has_alpha = match &fs[3] {
                    FieldValue::Bool(b) => *b,
                    _ => false,
                };
                let bits_per_sample = field_i32(&fs, 4);
                let channels = field_i32(&fs, 5);
                let pixels = match &fs[6] {
                    FieldValue::Bytes(bs) => copy_bytes(bs),
                    _ => Vec::new(),
                };
                let data = ImageData {
                    width,
                    height,
                    rowstride,
                    has_alpha,
                    bits_per_sample,
                    channels,
                    pixels,
                };
                proof {
                    assert(data@ =~= image_of_fields(fs.deep_view()));
                }
                Ok(HintValue::Image(data))
            } else {
                Ok(HintValue::Other(WireValue::Structure(fs)))
            }
        },
        WireValue::Fd(_) => Err(ProtocolError::HintNotConvertible),
        WireValue::Opaque(s) => Ok(HintValue::Other(WireValue::Opaque(s))),
    }
}

/// Whether every value of a hint table can cross the protocol boundary.
pub open spec fn all_hints_convertible(s: Seq<(Seq<char>, WireValueRep)>) -> bool {
    forall|i: int| 0 <= i < s.len() ==> spec_convert_value(s[i].1) is Some
}

/// A hint table after every value has been converted, entry by entry.
/// Meaningful only when every value converts.
pub open spec fn converted_entries(s: Seq<(Seq<char>, WireValueRep)>) -> Seq<
    (Seq<char>, HintValueRep),
> {
    Seq::new(s.len(), |i: int| (s[i].0, spec_convert_value(s[i].1)->Some_0))
}

/// Converts a whole hint table into owned values.  The call fails, and no
/// entry is kept, as soon as any value cannot be converted.  On success
/// the result has unique keys and denotes the converted table's map: a
/// later entry for a key overrides an earlier one.
pub fn convert_hints(hints: &Vec<(String, WireValue)>) -> (r: Result<
    Vec<(String, HintValue)>,
    ProtocolError,
>)
    ensures
        r is Ok <==> all_hints_convertible(hints.deep_view()),
        r matches Ok(v) ==> unique_keys(v.deep_view()) && map_of_entries(v.deep_view())
            == map_of_entries(converted_entries(hints.deep_view())),
        r matches Err(e) ==> e == ProtocolError::HintNotConvertible,
{
    let ghost dv = hints.deep_view();
    let mut out: Vec<(String, HintValue)> = Vec::new();
    let mut i: usize = 0;
    proof {
        assert(converted_entries(dv.take(0)) =~= Seq::<(Seq<char>, HintValueRep)>::empty());
        assert(out.deep_view() =~= Seq::<(Seq<char>, HintValueRep)>::empty());
    }
    while i < hints.len()
        invariant
            i <= hints.len(),
            dv == hints.deep_view(),
            dv.len() == hints.len(),
            forall|k: int| 0 <= k < i ==> spec_convert_value(dv[k].1) is Some,
            unique_keys(out.deep_view()),
            map_of_entries(out.deep_view()) == map_of_entries(converted_entries(dv.take(i as int))),
        decreases hints.len() - i,
    {
        let key = hints[i].0.clone();
        let converted = convert_value(hints[i].1.clone());
        let hv = match converted {
            Ok(h) => h,
            Err(e) => {
                proof {
                    assert(spec_convert_value(dv[i as int].1) is None);
                }
                return Err(e);
            },
        };
        proof {
            assert(converted_entries(dv.take(i as int + 1)) =~= converted_entries(
                dv.take(i as int),
            ).push((key@, hv@)));
            lemma_map_of_entries_push(converted_entries(dv.take(i as int)), key@, hv@);
        }
        let ghost old_out = out.deep_view();
        let mut j: usize = 0;
        while j < out.len() && !(out[j].0 == key)
            invariant
                j <= out.len(),
                out.deep_view() == old_out,
                forall|jj: int| 0 <= jj < j ==> out.deep_view()[jj].0 != key@,
            decreases out.len() - j,
        {
            j += 1;
        }
        if j < out.len() {
            proof {
                assert(old_out[j as int].0 == key@);
                lemma_map_of_entries_update(old_out, j as int, key@, hv@);
            }
            out.set(j, (key, hv));
            proof {
                assert(out.deep_view() =~= old_out.update(j as int, (key@, hv@)));
            }
        } else {
            out.push((key, hv));
            proof {
                assert(out.deep_view() =~= old_out.push((key@, hv@)));
                lemma_map_of_entries_push(old_out, key@, hv@);
            }
        }
        i += 1;
    }
    proof {
        assert(dv.take(i as int) =~= dv);
    }
    Ok(out)
}

} // verus!

//! The values bound to the placeholders of a SQL statement.
use vstd::prelude::*;
use vstd::utf8::{valid_utf8, decode_utf8};
use crate::base::datetime::{LocalDateTime, datetime_display};
use crate::util::text::{int_text, i64_text, u64_text};

verus! {

/// A value bound to a statement. A floating-point value is held as its IEEE
/// bit pattern together with its decimal text.
#[derive(Debug)]
pub enum ParamValue {
    I8(i8),
    I16(i16),
    I32(i32),
    I64(i64),
    U8(u8),
    U16(u16),
    U32(u32),
    U64(u64),
    F32 { bits: u32, text: String },
    F64 { bits: u64, text: String },
    Bool(bool),
    String(String),
    DateTime(LocalDateTime),
    Blob(Vec<u8>),
    Clob(Vec<u8>),
    Null,
}

/// The mathematical content of a `ParamValue`.
pub enum ParamValueView {
    I8(i8),
    I16(i16),
    I32(i32),
    I64(i64),
    U8(u8),
    U16(u16),
    U32(u32),
    U64(u64),
    F32 { bits: u32, text: Seq<char> },
    F64 { bits: u64, text: Seq<char> },
    Bool(bool),
    String(Seq<char>),
    DateTime(LocalDateTime),
    Blob(Seq<u8>),
    Clob(Seq<u8>),
    Null,
}

impl View for ParamValue {
    type V = ParamValueView;

    open spec fn view(&self) -> ParamValueView {
        match self {
            ParamValue::I8(v) => ParamValueView::I8(*v),
            ParamValue::I16(v) => ParamValueView::I16(*v),
            ParamValue::I32(v) => ParamValueView::I32(*v),
            ParamValue::I64(v) => ParamValueView::I64(*v),
            ParamValue::U8(v) => ParamValueView::U8(*v),
            ParamValue::U16(v) => ParamValueView::U16(*v),
            ParamValue::U32(v) => ParamValueView::U32(*v),
            ParamValue::U64(v) => ParamValueView::U64(*v),
            ParamValue::F32 { bits, text } => ParamValueView::F32 { bits: *bits, text: text@ },
            ParamValue::F64 { bits, text } => ParamValueView::F64 { bits: *bits, text: text@ },
            ParamValue::Bool(v) => ParamValueView::Bool(*v),
            ParamValue::String(v) => ParamValueView::String(v@),
            ParamValue::DateTime(v) => ParamValueView::DateTime(*v),
            ParamValue::Blob(v) => ParamValueView::Blob(v@),
            ParamValue::Clob(v) => ParamValueView::Clob(v@),
            ParamValue::Null => ParamValueView::Null,
        }
    }
}

/// The views of a sequence of values.
pub open spec fn param_views(v: Seq<ParamValue>) -> Seq<ParamValueView> {
    v.map_values(|p: ParamValue| p@)
}

/// The text of bytes read as UTF-8, empty when they are not valid UTF-8.
pub open spec fn utf8_text_or_empty(b: Seq<u8>) -> Seq<char> {
    if valid_utf8(b) {
        decode_utf8(b)
    } else {
        Seq::empty()
    }
}

/// The text of a value.
pub open spec fn param_text(v: ParamValueView) -> Seq<char> {
    match v {
        ParamValueView::I8(x) => int_text(x as int),
        ParamValueView::I16(x) => int_text(x as int),
        ParamValueView::I32(x) => int_text(x as int),
        ParamValueView::I64(x) => int_text(x as int),
        ParamValueView::U8(x) => int_text(x as int),
        ParamValueView::U16(x) => int_text(x as int),
        ParamValueView::U32(x) => int_text(x as int),
        ParamValueView::U64(x) => int_text(x as int),
        ParamValueView::F32 { bits, text } => text,
        ParamValueView::F64 { bits, text } => text,
        ParamValueView::Bool(b) => if b { "true"@ } else { "false"@ },
        ParamValueView::String(s) => s,
        ParamValueView::DateTime(d) => datetime_display(d.spec_secs(), d.spec_nanos(), d.spec_offset_secs()),
        ParamValueView::Blob(b) => utf8_text_or_empty(b),
        ParamValueView::Clob(b) => utf8_text_or_empty(b),
        ParamValueView::Null => "null"@,
    }
}

/// The text of a value: an integer in decimal, a float as written, a
/// boolean as "true" or "false", a text as itself, bytes as the UTF-8 text
/// they encode (empty where they encode none), and `Null` as "null".
pub proof fn law_value_texts(a: i8, b: i32, c: i64, d: u64, t: Seq<char>, bits: u64, ft: Seq<char>)
    ensures
        param_text(ParamValueView::I8(a)) == int_text(a as int),
        param_text(ParamValueView::I32(b)) == int_text(b as int),
        param_text(ParamValueView::I64(c)) == int_text(c as int),
        param_text(ParamValueView::U64(d)) == int_text(d as int),
        param_text(ParamValueView::F64 { bits, text: ft }) == ft,
        param_text(ParamValueView::Bool(true)) == "true"@,
        param_text(ParamValueView::Bool(false)) == "false"@,
        param_text(ParamValueView::String(t)) == t,
        param_text(ParamValueView::Null) == "null"@,
{
}

/// `String::from_utf8` on a copy of the bytes: `Some` exactly when the bytes
/// are valid UTF-8, holding the characters they encode.
#[verifier::external_body]
fn string_from_utf8(bytes: &Vec<u8>) -> (r: Option<String>)
    ensures
        r is Some <==> valid_utf8(bytes@),
        r matches Some(s) ==> s@ == decode_utf8(bytes@),
{
    String::from_utf8(bytes.clone()).ok()
}

fn utf8_or_empty(bytes: &Vec<u8>) -> (r: String)
    ensures
        r@ == utf8_text_or_empty(bytes@),
{
    match string_from_utf8(bytes) {
        Some(s) => s,
        None => String::new(),
    }
}

fn copy_bytes(v: &Vec<u8>) -> (r: Vec<u8>)
    ensures
        r@ == v@,
{
    let mut r: Vec<u8> = Vec::new();
    let mut i: usize = 0;
    while i < v.len()
        invariant
            i <= v.len(),
            r@ == v@.take(i as int),
        decreases v.len() - i,
    {
        r.push(v[i]);
        proof {
            assert(v@.take(i + 1) =~= v@.take(i as int).push(v@[i as int]));
        }
        i = i + 1;
    }
    proof {
        assert(v@.take(v.len() as int) =~= v@);
    }
    r
}

impl Clone for ParamValue {
    fn clone(&self) -> (r: Self)
        ensures
            r@ == self@,
    {
        match self {
            ParamValue::I8(v) => ParamValue::I8(*v),
            ParamValue::I16(v) => ParamValue::I16(*v),
            ParamValue::I32(v) => ParamValue::I32(*v),
            ParamValue::I64(v) => ParamValue::I64(*v),
            ParamValue::U8(v) => ParamValue::U8(*v),
            ParamValue::U16(v) => ParamValue::U16(*v),
            ParamValue::U32(v) => ParamValue::U32(*v),
            ParamValue::U64(v) => ParamValue::U64(*v),
            ParamValue::F32 { bits, text } => ParamValue::F32 { bits: *bits, text: text.clone() },
            ParamValue::F64 { bits, text } => ParamValue::F64 { bits: *bits, text: text.clone() },
            ParamValue::Bool(v) => ParamValue::Bool(*v),
            ParamValue::String(v) => ParamValue::String(v.clone()),
            ParamValue::DateTime(v) => ParamValue::DateTime(*v),
            ParamValue::Blob(v) => ParamValue::Blob(copy_bytes(v)),
            ParamValue::Clob(v) => ParamValue::Clob(copy_bytes(v)),
            ParamValue::Null => ParamValue::Null,
        }
    }
}

/// Copies a vector of values.
pub fn clone_params(v: &Vec<ParamValue>) -> (r: Vec<ParamValue>)
    ensures
        param_views(r@) == param_views(v@),
{
    let mut r: Vec<ParamValue> = Vec::new();
    let mut i: usize = 0;
    while i < v.len()
        invariant
            i <= v.len(),
            param_views(r@) == param_views(v@.take(i as int)),
        decreases v.len() - i,
    {
        r.push(v[i].clone());
        proof {
            assert(v@.take(i + 1) =~= v@.take(i as int).push(v@[i as int]));
            assert(param_views(v@.take(i + 1)) =~= param_views(v@.take(i as int)).push(v@[i as int]@));
            assert(param_views(r@) =~= param_views(v@.take(i + 1)));
        }
        i = i + 1;
    }
    proof {
        assert(v@.take(v.len() as int) =~= v@);
    }
    r
}

impl ParamValue {
    pub fn is_null(&self) -> (r: bool)
        ensures
            r <==> self@ is Null,
    {
        match self {
            ParamValue::Null => true,
            _ => false,
        }
    }

    pub fn is_not_null(&self) -> (r: bool)
        ensures
            r <==> !(self@ is Null),
    {
        !self.is_null()
    }

    /// The value of an integer, cast to `u64` (negative values wrap);
    /// `None` for any other value.
    pub fn as_u64(&self) -> (r: Option<u64>)
        ensures
            r == (match self@ {
                ParamValueView::U64(x) => Some(x),
                ParamValueView::U32(x) => Some(x as u64),
                ParamValueView::U16(x) => Some(x as u64),
                ParamValueView::U8(x) => Some(x as u64),
                ParamValueView::I64(x) => Some(x as u64),
                ParamValueView::I32(x) => Some(x as u64),
                ParamValueView::I16(x) => Some(x as u64),
                ParamValueView::I8(x) => Some(x as u64),
                _ => None,
            }),
    {
        match self {
            ParamValue::U64(x) => Some(*x),
            ParamValue::U32(x) => Some(*x as u64),
            ParamValue::U16(x) => Some(*x as u64),
            ParamValue::U8(x) => Some(*x as u64),
            ParamValue::I64(x) => Some(*x as u64),
            ParamValue::I32(x) => Some(*x as u64),
            ParamValue::I16(x) => Some(*x as u64),
            ParamValue::I8(x) => Some(*x as u64),
            _ => None,
        }
    }

    /// The text of this value: decimal for integers, the held text for
    /// floating-point values, "true"/"false", the string itself, the
    /// date-time text, the bytes read as UTF-8 (empty when invalid), and
    /// "null".
    pub fn to_string(&self) -> (r: String)
        ensures
            r@ == param_text(self@),
    {
        match self {
            ParamValue::U64(x) => u64_text(*x),
            ParamValue::U32(x) => u64_text(*x as u64),
            ParamValue::U16(x) => u64_text(*x as u64),
            ParamValue::U8(x) => u64_text(*x as u64),
            ParamValue::I64(x) => i64_text(*x),
            ParamValue::I32(x) => i64_text(*x as i64),
            ParamValue::I16(x) => i64_text(*x as i64),
            ParamValue::I8(x) => i64_text(*x as i64),
            ParamValue::Bool(x) => if *x { String::from_str("true") } else { String::from_str("false") },
            ParamValue::String(x) => x.clone(),
            ParamValue::DateTime(x) => x.to_string(),
            ParamValue::Blob(x) => utf8_or_empty(x),
            ParamValue::Clob(x) => utf8_or_empty(x),
            ParamValue::Null => String::from_str("null"),
            ParamValue::F32 { text, .. } => text.clone(),
            ParamValue::F64 { text, .. } => text.clone(),
        }
    }
}

/// Values that can be bound to a statement.
pub trait IntoParamValue: Sized {
    /// The value this converts to.
    spec fn spec_param(self) -> ParamValueView;

    fn into_param_value(self) -> (r: ParamValue)
        ensures
            r@ == self.spec_param(),
    ;
}

impl IntoParamValue for ParamValue {
    open spec fn spec_param(self) -> ParamValueView {
        self@
    }

    fn into_param_value(self) -> (r: ParamValue) {
        self
    }
}

impl IntoParamValue for i8 {
    open spec fn spec_param(self) -> ParamValueView { ParamValueView::I8(self) }
    fn into_param_value(self) -> (r: ParamValue) { ParamValue::I8(self) }
}

impl IntoParamValue for i16 {
    open spec fn spec_param(self) -> ParamValueView { ParamValueView::I16(self) }
    fn into_param_value(self) -> (r: ParamValue) { ParamValue::I16(self) }
}

impl IntoParamValue for i32 {
    open spec fn spec_param(self) -> ParamValueView { ParamValueView::I32(self) }
    fn into_param_value(self) -> (r: ParamValue) { ParamValue::I32(self) }
}

impl IntoParamValue for i64 {
    open spec fn spec_param(self) -> ParamValueView { ParamValueView::I64(self) }
    fn into_param_value(self) -> (r: ParamValue) { ParamValue::I64(self) }
}

impl IntoParamValue for u8 {
    open spec fn spec_param(self) -> ParamValueView { ParamValueView::U8(self) }
    fn into_param_value(self) -> (r: ParamValue) { ParamValue::U8(self) }
}

impl IntoParamValue for u16 {
    open spec fn spec_param(self) -> ParamValueView { ParamValueView::U16(self) }
    fn into_param_value(self) -> (r: ParamValue) { ParamValue::U16(self) }
}

impl IntoParamValue for u32 {
    open spec fn spec_param(self) -> ParamValueView { ParamValueView::U32(self) }
    fn into_param_value(self) -> (r: ParamValue) { ParamValue::U32(self) }
}

impl IntoParamValue for u64 {
    open spec fn spec_param(self) -> ParamValueView { ParamValueView::U64(self) }
    fn into_param_value(self) -> (r: ParamValue) { ParamValue::U64(self) }
}

impl IntoParamValue for bool {
    open spec fn spec_param(self) -> ParamValueView { ParamValueView::Bool(self) }
    fn into_param_value(self) -> (r: ParamValue) { ParamValue::Bool(self) }
}

impl IntoParamValue for String {
    open spec fn spec_param(self) -> ParamValueView { ParamValueView::String(self@) }
    fn into_param_value(self) -> (r: ParamValue) { ParamValue::String(self) }
}

impl<'a> IntoParamValue for &'a str {
    open spec fn spec_param(self) -> ParamValueView { ParamValueView::String(self@) }
    fn into_param_value(self) -> (r: ParamValue) { ParamValue::String(String::from_str(self)) }
}

impl IntoParamValue for LocalDateTime {
    open spec fn spec_param(self) -> ParamValueView { ParamValueView::DateTime(self) }
    fn into_param_value(self) -> (r: ParamValue) { ParamValue::DateTime(self) }
}

impl IntoParamValue for Vec<u8> {
    open spec fn spec_param(self) -> ParamValueView { ParamValueView::Blob(self@) }
    fn into_param_value(self) -> (r: ParamValue) { ParamValue::Blob(self) }
}

/// The value of an optional field: `Null` when absent.
pub open spec fn optional_param<T: IntoParamValue>(value: Option<T>) -> ParamValueView {
    match value {
        Some(v) => v.spec_param(),
        None => ParamValueView::Null,
    }
}

/// The value of an optional field: `Null` when absent.
pub fn get_param_value<T: IntoParamValue>(value: Option<T>) -> (r: ParamValue)
    ensures
        r@ == optional_param(value),
{
    match value {
        Some(v) => v.into_param_value(),
        None => ParamValue::Null,
    }
}

/// The value of a borrowed optional field, converted from a clone of it:
/// `Null` when absent.
pub fn get_param_value_ref<T: Clone + IntoParamValue>(value: &Option<T>) -> (r: ParamValue)
    ensures
        value is None ==> r@ is Null,
        value matches Some(v) ==> exists|c: T| cloned::<T>(*v, c) && r@ == c.spec_param(),
{
    match value {
        Some(v) => {
            let c = v.clone();
            c.into_param_value()
        },
        None => ParamValue::Null,
    }
}

} // verus!

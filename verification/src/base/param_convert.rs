//! Reading plain values out of bound values.
use vstd::prelude::*;
use crate::base::param::{ParamValue, ParamValueView, param_text};
use crate::util::parse::{parse_int, parse_int_spec, parse_bool, parse_bool_spec, lemma_int_text_reads_back};

verus! {

/// Types that a bound value can be read as.
pub trait FromParamValue: Sized + View {
    /// What a value reads as, where it can be read.
    spec fn spec_from_param(v: ParamValueView) -> Option<<Self as View>::V>;

    /// What stands for a value that cannot be read.
    spec fn spec_default() -> <Self as View>::V;

    fn from_param_value(v: ParamValue) -> (r: Option<Self>)
        ensures
            match r {
                Some(x) => Self::spec_from_param(v@) == Some(x@),
                None => Self::spec_from_param(v@) is None,
            },
    ;

    fn default_value() -> (r: Self)
        ensures
            r@ == Self::spec_default(),
    ;
}

/// What a value reads as, or the default where it cannot be read.
pub open spec fn read_or_default<T: FromParamValue>(v: ParamValueView) -> <T as View>::V {
    match T::spec_from_param(v) {
        Some(x) => x,
        None => T::spec_default(),
    }
}

/// Reads a value, or gives the type's default where it cannot be read.
pub fn read_value<T: FromParamValue>(v: ParamValue) -> (r: T)
    ensures
        r@ == read_or_default::<T>(v@),
{
    match T::from_param_value(v) {
        Some(x) => x,
        None => T::default_value(),
    }
}

impl FromParamValue for i8 {
    /// From I8, U8 by `as`, and from a text by `str::parse` (0
    /// where it does not read); nothing else.
    open spec fn spec_from_param(v: ParamValueView) -> Option<i8> {
        match v {
            ParamValueView::I8(x) => Some(x as i8),
            ParamValueView::U8(x) => Some(x as i8),
            ParamValueView::String(s) => Some(
                match parse_int_spec(s, i8::MIN as int, i8::MAX as int) {
                    Some(x) => x as i8,
                    None => 0,
                },
            ),
            _ => None,
        }
    }

    open spec fn spec_default() -> i8 {
        0
    }

    fn from_param_value(v: ParamValue) -> (r: Option<i8>) {
        match v {
            ParamValue::I8(x) => Some(x as i8),
            ParamValue::U8(x) => Some(x as i8),
            ParamValue::String(s) => Some(
                match parse_int(s.as_str(), i8::MIN as i128, i8::MAX as i128) {
                    Some(x) => x as i8,
                    None => 0,
                },
            ),
            _ => None,
        }
    }

    fn default_value() -> (r: i8) {
        0
    }
}

impl FromParamValue for i16 {
    /// From I8, I16, U8, U16 by `as`, and from a text by `str::parse` (0
    /// where it does not read); nothing else.
    open spec fn spec_from_param(v: ParamValueView) -> Option<i16> {
        match v {
            ParamValueView::I8(x) => Some(x as i16),
            ParamValueView::I16(x) => Some(x as i16),
            ParamValueView::U8(x) => Some(x as i16),
            ParamValueView::U16(x) => Some(x as i16),
            ParamValueView::String(s) => Some(
                match parse_int_spec(s, i16::MIN as int, i16::MAX as int) {
                    Some(x) => x as i16,
                    None => 0,
                },
            ),
            _ => None,
        }
    }

    open spec fn spec_default() -> i16 {
        0
    }

    fn from_param_value(v: ParamValue) -> (r: Option<i16>) {
        match v {
            ParamValue::I8(x) => Some(x as i16),
            ParamValue::I16(x) => Some(x as i16),
            ParamValue::U8(x) => Some(x as i16),
            ParamValue::U16(x) => Some(x as i16),
            ParamValue::String(s) => Some(
                match parse_int(s.as_str(), i16::MIN as i128, i16::MAX as i128) {
                    Some(x) => x as i16,
                    None => 0,
                },
            ),
            _ => None,
        }
    }

    fn default_value() -> (r: i16) {
        0
    }
}

impl FromParamValue for i32 {
    /// From I8, I16, I32, U8, U16, U32 by `as`, and from a text by `str::parse` (0
    /// where it does not read); nothing else.
    open spec fn spec_from_param(v: ParamValueView) -> Option<i32> {
        match v {
            ParamValueView::I8(x) => Some(x as i32),
            ParamValueView::I16(x) => Some(x as i32),
            ParamValueView::I32(x) => Some(x as i32),
            ParamValueView::U8(x) => Some(x as i32),
            ParamValueView::U16(x) => Some(x as i32),
            ParamValueView::U32(x) => Some(x as i32),
            ParamValueView::String(s) => Some(
                match parse_int_spec(s, i32::MIN as int, i32::MAX as int) {
                    Some(x) => x as i32,
                    None => 0,
                },
            ),
            _ => None,
        }
    }

    open spec fn spec_default() -> i32 {
        0
    }

    fn from_param_value(v: ParamValue) -> (r: Option<i32>) {
        match v {
            ParamValue::I8(x) => Some(x as i32),
            ParamValue::I16(x) => Some(x as i32),
            ParamValue::I32(x) => Some(x as i32),
            ParamValue::U8(x) => Some(x as i32),
            ParamValue::U16(x) => Some(x as i32),
            ParamValue::U32(x) => Some(x as i32),
            ParamValue::String(s) => Some(
                match parse_int(s.as_str(), i32::MIN as i128, i32::MAX as i128) {
                    Some(x) => x as i32,
                    None => 0,
                },
            ),
            _ => None,
        }
    }

    fn default_value() -> (r: i32) {
        0
    }
}

impl FromParamValue for i64 {
    /// From I8, I16, I32, I64, U8, U16, U32, U64 by `as`, and from a text by `str::parse` (0
    /// where it does not read); nothing else.
    open spec fn spec_from_param(v: ParamValueView) -> Option<i64> {
        match v {
            ParamValueView::I8(x) => Some(x as i64),
            ParamValueView::I16(x) => Some(x as i64),
            ParamValueView::I32(x) => Some(x as i64),
            ParamValueView::I64(x) => Some(x as i64),
            ParamValueView::U8(x) => Some(x as i64),
            ParamValueView::U16(x) => Some(x as i64),
            ParamValueView::U32(x) => Some(x as i64),
            ParamValueView::U64(x) => Some(x as i64),
            ParamValueView::String(s) => Some(
                match parse_int_spec(s, i64::MIN as int, i64::MAX as int) {
                    Some(x) => x as i64,
                    None => 0,
                },
            ),
            _ => None,
        }
    }

    open spec fn spec_default() -> i64 {
        0
    }

    fn from_param_value(v: ParamValue) -> (r: Option<i64>) {
        match v {
            ParamValue::I8(x) => Some(x as i64),
            ParamValue::I16(x) => Some(x as i64),
            ParamValue::I32(x) => Some(x as i64),
            ParamValue::I64(x) => Some(x as i64),
            ParamValue::U8(x) => Some(x as i64),
            ParamValue::U16(x) => Some(x as i64),
            ParamValue::U32(x) => Some(x as i64),
            ParamValue::U64(x) => Some(x as i64),
            ParamValue::String(s) => Some(
                match parse_int(s.as_str(), i64::MIN as i128, i64::MAX as i128) {
                    Some(x) => x as i64,
                    None => 0,
                },
            ),
            _ => None,
        }
    }

    fn default_value() -> (r: i64) {
        0
    }
}

impl FromParamValue for usize {
    /// From I8, I16, I32, U8, U16, U32 by `as`, and from a text by `str::parse` (0
    /// where it does not read); nothing else.
    open spec fn spec_from_param(v: ParamValueView) -> Option<usize> {
        match v {
            ParamValueView::I8(x) => Some(x as usize),
            ParamValueView::I16(x) => Some(x as usize),
            ParamValueView::I32(x) => Some(x as usize),
            ParamValueView::U8(x) => Some(x as usize),
            ParamValueView::U16(x) => Some(x as usize),
            ParamValueView::U32(x) => Some(x as usize),
            ParamValueView::String(s) => Some(
                match parse_int_spec(s, 0 as int, usize::MAX as int) {
                    Some(x) => x as usize,
                    None => 0,
                },
            ),
            _ => None,
        }
    }

    open spec fn spec_default() -> usize {
        0
    }

    fn from_param_value(v: ParamValue) -> (r: Option<usize>) {
        match v {
            ParamValue::I8(x) => Some(x as usize),
            ParamValue::I16(x) => Some(x as usize),
            ParamValue::I32(x) => Some(x as usize),
            ParamValue::U8(x) => Some(x as usize),
            ParamValue::U16(x) => Some(x as usize),
            ParamValue::U32(x) => Some(x as usize),
            ParamValue::String(s) => Some(
                match parse_int(s.as_str(), 0 as i128, usize::MAX as i128) {
                    Some(x) => x as usize,
                    None => 0,
                },
            ),
            _ => None,
        }
    }

    fn default_value() -> (r: usize) {
        0
    }
}

impl FromParamValue for u8 {
    /// From U8 by `as`, and from a text by `str::parse` (0
    /// where it does not read); nothing else.
    open spec fn spec_from_param(v: ParamValueView) -> Option<u8> {
        match v {
            ParamValueView::U8(x) => Some(x as u8),
            ParamValueView::String(s) => Some(
                match parse_int_spec(s, 0 as int, u8::MAX as int) {
                    Some(x) => x as u8,
                    None => 0,
                },
            ),
            _ => None,
        }
    }

    open spec fn spec_default() -> u8 {
        0
    }

    fn from_param_value(v: ParamValue) -> (r: Option<u8>) {
        match v {
            ParamValue::U8(x) => Some(x as u8),
            ParamValue::String(s) => Some(
                match parse_int(s.as_str(), 0 as i128, u8::MAX as i128) {
                    Some(x) => x as u8,
                    None => 0,
                },
            ),
            _ => None,
        }
    }

    fn default_value() -> (r: u8) {
        0
    }
}

impl FromParamValue for u16 {
    /// From U8, U16 by `as`, and from a text by `str::parse` (0
    /// where it does not read); nothing else.
    open spec fn spec_from_param(v: ParamValueView) -> Option<u16> {
        match v {
            ParamValueView::U8(x) => Some(x as u16),
            ParamValueView::U16(x) => Some(x as u16),
            ParamValueView::String(s) => Some(
                match parse_int_spec(s, 0 as int, u16::MAX as int) {
                    Some(x) => x as u16,
                    None => 0,
                },
            ),
            _ => None,
        }
    }

    open spec fn spec_default() -> u16 {
        0
    }

    fn from_param_value(v: ParamValue) -> (r: Option<u16>) {
        match v {
            ParamValue::U8(x) => Some(x as u16),
            ParamValue::U16(x) => Some(x as u16),
            ParamValue::String(s) => Some(
                match parse_int(s.as_str(), 0 as i128, u16::MAX as i128) {
                    Some(x) => x as u16,
                    None => 0,
                },
            ),
            _ => None,
        }
    }

    fn default_value() -> (r: u16) {
        0
    }
}

impl FromParamValue for u32 {
    /// From U8, U16, U32 by `as`, and from a text by `str::parse` (0
    /// where it does not read); nothing else.
    open spec fn spec_from_param(v: ParamValueView) -> Option<u32> {
        match v {
            ParamValueView::U8(x) => Some(x as u32),
            ParamValueView::U16(x) => Some(x as u32),
            ParamValueView::U32(x) => Some(x as u32),
            ParamValueView::String(s) => Some(
                match parse_int_spec(s, 0 as int, u32::MAX as int) {
                    Some(x) => x as u32,
                    None => 0,
                },
            ),
            _ => None,
        }
    }

    open spec fn spec_default() -> u32 {
        0
    }

    fn from_param_value(v: ParamValue) -> (r: Option<u32>) {
        match v {
            ParamValue::U8(x) => Some(x as u32),
            ParamValue::U16(x) => Some(x as u32),
            ParamValue::U32(x) => Some(x as u32),
            ParamValue::String(s) => Some(
                match parse_int(s.as_str(), 0 as i128, u32::MAX as i128) {
                    Some(x) => x as u32,
                    None => 0,
                },
            ),
            _ => None,
        }
    }

    fn default_value() -> (r: u32) {
        0
    }
}

impl FromParamValue for u64 {
    /// From U8, U16, U32, U64 by `as`, and from a text by `str::parse` (0
    /// where it does not read); nothing else.
    open spec fn spec_from_param(v: ParamValueView) -> Option<u64> {
        match v {
            ParamValueView::U8(x) => Some(x as u64),
            ParamValueView::U16(x) => Some(x as u64),
            ParamValueView::U32(x) => Some(x as u64),
            ParamValueView::U64(x) => Some(x as u64),
            ParamValueView::String(s) => Some(
                match parse_int_spec(s, 0 as int, u64::MAX as int) {
                    Some(x) => x as u64,
                    None => 0,
                },
            ),
            _ => None,
        }
    }

    open spec fn spec_default() -> u64 {
        0
    }

    fn from_param_value(v: ParamValue) -> (r: Option<u64>) {
        match v {
            ParamValue::U8(x) => Some(x as u64),
            ParamValue::U16(x) => Some(x as u64),
            ParamValue::U32(x) => Some(x as u64),
            ParamValue::U64(x) => Some(x as u64),
            ParamValue::String(s) => Some(
                match parse_int(s.as_str(), 0 as i128, u64::MAX as i128) {
                    Some(x) => x as u64,
                    None => 0,
                },
            ),
            _ => None,
        }
    }

    fn default_value() -> (r: u64) {
        0
    }
}

impl FromParamValue for bool {
    /// From `Bool`, and from a text by `str::parse` (false where it does not
    /// read); nothing else.
    open spec fn spec_from_param(v: ParamValueView) -> Option<bool> {
        match v {
            ParamValueView::Bool(b) => Some(b),
            ParamValueView::String(s) => Some(
                match parse_bool_spec(s) {
                    Some(b) => b,
                    None => false,
                },
            ),
            _ => None,
        }
    }

    open spec fn spec_default() -> bool {
        false
    }

    fn from_param_value(v: ParamValue) -> (r: Option<bool>) {
        match v {
            ParamValue::Bool(b) => Some(b),
            ParamValue::String(s) => Some(
                match parse_bool(s.as_str()) {
                    Some(b) => b,
                    None => false,
                },
            ),
            _ => None,
        }
    }

    fn default_value() -> (r: bool) {
        false
    }
}

impl FromParamValue for String {
    /// The text of any value but `Null`.
    open spec fn spec_from_param(v: ParamValueView) -> Option<Seq<char>> {
        match v {
            ParamValueView::Null => None,
            _ => Some(param_text(v)),
        }
    }

    open spec fn spec_default() -> Seq<char> {
        Seq::empty()
    }

    fn from_param_value(v: ParamValue) -> (r: Option<String>) {
        if v.is_null() {
            None
        } else {
            Some(v.to_string())
        }
    }

    fn default_value() -> (r: String) {
        String::new()
    }
}

impl FromParamValue for Vec<u8> {
    /// The bytes of a `Blob` or a `Clob`; nothing else.
    open spec fn spec_from_param(v: ParamValueView) -> Option<Seq<u8>> {
        match v {
            ParamValueView::Blob(b) => Some(b),
            ParamValueView::Clob(b) => Some(b),
            _ => None,
        }
    }

    open spec fn spec_default() -> Seq<u8> {
        Seq::empty()
    }

    fn from_param_value(v: ParamValue) -> (r: Option<Vec<u8>>) {
        match v {
            ParamValue::Blob(b) => Some(b),
            ParamValue::Clob(b) => Some(b),
            _ => None,
        }
    }

    fn default_value() -> (r: Vec<u8>) {
        Vec::new()
    }
}

impl ParamValue {
    /// This value read as a `T`, where it can be read.
    pub fn as_option<T: FromParamValue>(self) -> (r: Option<T>)
        ensures
            match r {
                Some(x) => T::spec_from_param(self@) == Some(x@),
                None => T::spec_from_param(self@) is None,
            },
    {
        T::from_param_value(self)
    }

    /// This value read as a `T`, or `default` where it cannot be read.
    pub fn as_number_or<T: FromParamValue>(self, default: T) -> (r: T)
        ensures
            match T::spec_from_param(self@) {
                Some(x) => r@ == x,
                None => r == default,
            },
    {
        match T::from_param_value(self) {
            Some(x) => x,
            None => default,
        }
    }

    /// Whether this value can be read as a `T`.
    pub fn can_convert_to<T: FromParamValue>(&self) -> (r: bool)
        ensures
            r == T::spec_from_param(self@) is Some,
    {
        T::from_param_value(self.clone()).is_some()
    }
}

/// A `i8` written as the text of a value reads back as the same `i8`.
pub proof fn lemma_i8_text_reads_back(v: i8)
    ensures
        i8::spec_from_param(ParamValueView::String(param_text(ParamValueView::I8(v)))) == Some(v),
{
    lemma_int_text_reads_back(v as int, i8::MIN as int, i8::MAX as int);
}

/// A `i16` written as the text of a value reads back as the same `i16`.
pub proof fn lemma_i16_text_reads_back(v: i16)
    ensures
        i16::spec_from_param(ParamValueView::String(param_text(ParamValueView::I16(v)))) == Some(v),
{
    lemma_int_text_reads_back(v as int, i16::MIN as int, i16::MAX as int);
}

/// A `i32` written as the text of a value reads back as the same `i32`.
pub proof fn lemma_i32_text_reads_back(v: i32)
    ensures
        i32::spec_from_param(ParamValueView::String(param_text(ParamValueView::I32(v)))) == Some(v),
{
    lemma_int_text_reads_back(v as int, i32::MIN as int, i32::MAX as int);
}

/// A `i64` written as the text of a value reads back as the same `i64`.
pub proof fn lemma_i64_text_reads_back(v: i64)
    ensures
        i64::spec_from_param(ParamValueView::String(param_text(ParamValueView::I64(v)))) == Some(v),
{
    lemma_int_text_reads_back(v as int, i64::MIN as int, i64::MAX as int);
}

/// A `u8` written as the text of a value reads back as the same `u8`.
pub proof fn lemma_u8_text_reads_back(v: u8)
    ensures
        u8::spec_from_param(ParamValueView::String(param_text(ParamValueView::U8(v)))) == Some(v),
{
    lemma_int_text_reads_back(v as int, 0 as int, u8::MAX as int);
}

/// A `u16` written as the text of a value reads back as the same `u16`.
pub proof fn lemma_u16_text_reads_back(v: u16)
    ensures
        u16::spec_from_param(ParamValueView::String(param_text(ParamValueView::U16(v)))) == Some(v),
{
    lemma_int_text_reads_back(v as int, 0 as int, u16::MAX as int);
}

/// A `u32` written as the text of a value reads back as the same `u32`.
pub proof fn lemma_u32_text_reads_back(v: u32)
    ensures
        u32::spec_from_param(ParamValueView::String(param_text(ParamValueView::U32(v)))) == Some(v),
{
    lemma_int_text_reads_back(v as int, 0 as int, u32::MAX as int);
}

/// A `u64` written as the text of a value reads back as the same `u64`.
pub proof fn lemma_u64_text_reads_back(v: u64)
    ensures
        u64::spec_from_param(ParamValueView::String(param_text(ParamValueView::U64(v)))) == Some(v),
{
    lemma_int_text_reads_back(v as int, 0 as int, u64::MAX as int);
}

/// A boolean written as the text of a value reads back as the same boolean.
pub proof fn lemma_bool_text_reads_back(b: bool)
    ensures
        bool::spec_from_param(ParamValueView::String(param_text(ParamValueView::Bool(b)))) == Some(b),
{
    reveal_strlit("true");
    reveal_strlit("false");
    assert("true"@ != "false"@) by {
        assert("true"@.len() != "false"@.len());
    }
}

/// A text value reads back as its own text.
pub proof fn lemma_string_reads_back(s: Seq<char>)
    ensures
        String::spec_from_param(ParamValueView::String(s)) == Some(s),
{
}

/// Reading an integer as an `i8`: an `i8` keeps its value; a `u8` keeps it
/// where it fits and otherwise wraps around (`as`).
pub proof fn law_i8_reads(a: i8, e: u8)
    ensures
        <i8 as FromParamValue>::spec_from_param(ParamValueView::I8(a)) matches Some(y) && y == a,
        <i8 as FromParamValue>::spec_from_param(ParamValueView::U8(e)) matches Some(y) && (e <= i8::MAX ==> y == e) && (e > i8::MAX ==> y == e - 0x100),
{
    assert(e > 127u8 ==> (e as i8) == e - 0x100) by (bit_vector);
}

/// Reading an integer as an `i16`: `i8`, `i16` and `u8` values keep their
/// value; a `u16` keeps it where it fits and otherwise wraps around (`as`).
pub proof fn law_i16_reads(a: i8, b: i16, e: u8, f: u16)
    ensures
        <i16 as FromParamValue>::spec_from_param(ParamValueView::I8(a)) matches Some(y) && y == a,
        <i16 as FromParamValue>::spec_from_param(ParamValueView::I16(b)) matches Some(y) && y == b,
        <i16 as FromParamValue>::spec_from_param(ParamValueView::U8(e)) matches Some(y) && y == e,
        <i16 as FromParamValue>::spec_from_param(ParamValueView::U16(f)) matches Some(y) && (f <= i16::MAX ==> y == f) && (f > i16::MAX ==> y == f - 0x1_0000),
{
    assert(f > 32767u16 ==> (f as i16) == f - 0x1_0000) by (bit_vector);
}

/// Reading an integer as an `i32`: `i8`, `i16`, `i32`, `u8` and `u16` values
/// keep their value; a `u32` keeps it where it fits and otherwise wraps
/// around (`as`).
pub proof fn law_i32_reads(a: i8, b: i16, c: i32, e: u8, f: u16, g: u32)
    ensures
        <i32 as FromParamValue>::spec_from_param(ParamValueView::I8(a)) matches Some(y) && y == a,
        <i32 as FromParamValue>::spec_from_param(ParamValueView::I16(b)) matches Some(y) && y == b,
        <i32 as FromParamValue>::spec_from_param(ParamValueView::I32(c)) matches Some(y) && y == c,
        <i32 as FromParamValue>::spec_from_param(ParamValueView::U8(e)) matches Some(y) && y == e,
        <i32 as FromParamValue>::spec_from_param(ParamValueView::U16(f)) matches Some(y) && y == f,
        <i32 as FromParamValue>::spec_from_param(ParamValueView::U32(g)) matches Some(y) && (g <= i32::MAX ==> y == g) && (g > i32::MAX ==> y == g - 0x1_0000_0000),
{
    assert(g > 0x7fff_ffffu32 ==> (g as i32) == g - 0x1_0000_0000) by (bit_vector);
}

/// Reading an integer as an `i64`: every signed value and `u8`, `u16` and
/// `u32` values keep their value; a `u64` keeps it where it fits and
/// otherwise wraps around (`as`).
pub proof fn law_i64_reads(a: i8, b: i16, c: i32, d: i64, e: u8, f: u16, g: u32, h: u64)
    ensures
        <i64 as FromParamValue>::spec_from_param(ParamValueView::I8(a)) matches Some(y) && y == a,
        <i64 as FromParamValue>::spec_from_param(ParamValueView::I16(b)) matches Some(y) && y == b,
        <i64 as FromParamValue>::spec_from_param(ParamValueView::I32(c)) matches Some(y) && y == c,
        <i64 as FromParamValue>::spec_from_param(ParamValueView::I64(d)) matches Some(y) && y == d,
        <i64 as FromParamValue>::spec_from_param(ParamValueView::U8(e)) matches Some(y) && y == e,
        <i64 as FromParamValue>::spec_from_param(ParamValueView::U16(f)) matches Some(y) && y == f,
        <i64 as FromParamValue>::spec_from_param(ParamValueView::U32(g)) matches Some(y) && y == g,
        <i64 as FromParamValue>::spec_from_param(ParamValueView::U64(h)) matches Some(y) && (h <= i64::MAX ==> y == h) && (h > i64::MAX ==> y == h - 0x1_0000_0000_0000_0000),
{
    assert(h > 0x7fff_ffff_ffff_ffffu64 ==> (h as i64) == h - 0x1_0000_0000_0000_0000) by (bit_vector);
}

/// Reading an integer as a `usize`: `u8`, `u16` and `u32` values keep their
/// value, and so do signed values that are not negative; a negative one
/// wraps around (`as`).
pub proof fn law_usize_reads(a: i8, b: i16, c: i32, e: u8, f: u16, g: u32)
    ensures
        <usize as FromParamValue>::spec_from_param(ParamValueView::U8(e)) matches Some(y) && y == e,
        <usize as FromParamValue>::spec_from_param(ParamValueView::U16(f)) matches Some(y) && y == f,
        <usize as FromParamValue>::spec_from_param(ParamValueView::U32(g)) matches Some(y) && y == g,
        <usize as FromParamValue>::spec_from_param(ParamValueView::I8(a)) matches Some(y) && (a >= 0 ==> y == a) && (a < 0 ==> y == a + usize::MAX + 1),
        <usize as FromParamValue>::spec_from_param(ParamValueView::I16(b)) matches Some(y) && (b >= 0 ==> y == b) && (b < 0 ==> y == b + usize::MAX + 1),
        <usize as FromParamValue>::spec_from_param(ParamValueView::I32(c)) matches Some(y) && (c >= 0 ==> y == c) && (c < 0 ==> y == c + usize::MAX + 1),
{
    assert(usize::BITS == 64 ==> (a < 0i8 ==> (a as usize) == a + 0x1_0000_0000_0000_0000)) by (bit_vector);
    assert(usize::BITS == 32 ==> (a < 0i8 ==> (a as usize) == a + 0x1_0000_0000)) by (bit_vector);
    assert(usize::BITS == 64 ==> (b < 0i16 ==> (b as usize) == b + 0x1_0000_0000_0000_0000)) by (bit_vector);
    assert(usize::BITS == 32 ==> (b < 0i16 ==> (b as usize) == b + 0x1_0000_0000)) by (bit_vector);
    assert(usize::BITS == 64 ==> (c < 0i32 ==> (c as usize) == c + 0x1_0000_0000_0000_0000)) by (bit_vector);
    assert(usize::BITS == 32 ==> (c < 0i32 ==> (c as usize) == c + 0x1_0000_0000)) by (bit_vector);
}

/// Reading an unsigned integer as an unsigned type at least as wide keeps
/// its value.
pub proof fn law_unsigned_reads(e: u8, f: u16, g: u32, h: u64)
    ensures
        <u8 as FromParamValue>::spec_from_param(ParamValueView::U8(e)) matches Some(y) && y == e,
        <u16 as FromParamValue>::spec_from_param(ParamValueView::U8(e)) matches Some(y) && y == e,
        <u16 as FromParamValue>::spec_from_param(ParamValueView::U16(f)) matches Some(y) && y == f,
        <u32 as FromParamValue>::spec_from_param(ParamValueView::U8(e)) matches Some(y) && y == e,
        <u32 as FromParamValue>::spec_from_param(ParamValueView::U16(f)) matches Some(y) && y == f,
        <u32 as FromParamValue>::spec_from_param(ParamValueView::U32(g)) matches Some(y) && y == g,
        <u64 as FromParamValue>::spec_from_param(ParamValueView::U8(e)) matches Some(y) && y == e,
        <u64 as FromParamValue>::spec_from_param(ParamValueView::U16(f)) matches Some(y) && y == f,
        <u64 as FromParamValue>::spec_from_param(ParamValueView::U32(g)) matches Some(y) && y == g,
        <u64 as FromParamValue>::spec_from_param(ParamValueView::U64(h)) matches Some(y) && y == h,
{
}

/// A boolean reads as itself, the bytes of a blob or a text blob read as
/// themselves, no type reads `Null`, no integer type reads a boolean, and
/// what cannot be read stands as 0, `false` or nothing.
pub proof fn law_other_reads(b: bool, bytes: Seq<u8>)
    ensures
        <bool as FromParamValue>::spec_from_param(ParamValueView::Bool(b)) == Some(b),
        <Vec<u8> as FromParamValue>::spec_from_param(ParamValueView::Blob(bytes)) == Some(bytes),
        <Vec<u8> as FromParamValue>::spec_from_param(ParamValueView::Clob(bytes)) == Some(bytes),
        <i8 as FromParamValue>::spec_from_param(ParamValueView::Null) is None,
        <i16 as FromParamValue>::spec_from_param(ParamValueView::Null) is None,
        <i32 as FromParamValue>::spec_from_param(ParamValueView::Null) is None,
        <i64 as FromParamValue>::spec_from_param(ParamValueView::Null) is None,
        <usize as FromParamValue>::spec_from_param(ParamValueView::Null) is None,
        <u8 as FromParamValue>::spec_from_param(ParamValueView::Null) is None,
        <u16 as FromParamValue>::spec_from_param(ParamValueView::Null) is None,
        <u32 as FromParamValue>::spec_from_param(ParamValueView::Null) is None,
        <u64 as FromParamValue>::spec_from_param(ParamValueView::Null) is None,
        <bool as FromParamValue>::spec_from_param(ParamValueView::Null) is None,
        <String as FromParamValue>::spec_from_param(ParamValueView::Null) is None,
        <Vec<u8> as FromParamValue>::spec_from_param(ParamValueView::Null) is None,
        <i64 as FromParamValue>::spec_from_param(ParamValueView::Bool(b)) is None,
        <u64 as FromParamValue>::spec_from_param(ParamValueView::Bool(b)) is None,
        <i64 as FromParamValue>::spec_default() == 0,
        <u64 as FromParamValue>::spec_default() == 0,
        <i32 as FromParamValue>::spec_default() == 0,
        <bool as FromParamValue>::spec_default() == false,
        <String as FromParamValue>::spec_default().len() == 0,
{
}

} // verus!

//! The canonical value, the two engines' native values, and the conversions
//! between them.

use vstd::prelude::*;
use vstd::utf8::{decode_utf8, encode_utf8, valid_utf8};
use vstd::std_specs::convert::FromSpecImpl;
use crate::float::{
    clamp, truncate_to_i32, truncate_to_i64, truncate_to_u32, truncate_to_u64, truncated,
};
use crate::text::{decimal, push_decimal};

verus! {

/// The canonical value: what every backend-native value is normalised into.
///
/// A `Float` carries the IEEE 754 binary64 bit pattern of its number.
#[derive(Debug, PartialEq, Eq)]
pub enum Dypes {
    Uint(u64),
    Int(i64),
    Float(u64),
    String(String),
    Bytes(Vec<u8>),
    Null,
}

/// A [`Dypes`] with its text and bytes as sequences.
pub ghost enum DypesView {
    Uint(u64),
    Int(i64),
    Float(u64),
    String(Seq<char>),
    Bytes(Seq<u8>),
    Null,
}

impl View for Dypes {
    type V = DypesView;

    open spec fn view(&self) -> DypesView {
        match self {
            Dypes::Uint(x) => DypesView::Uint(*x),
            Dypes::Int(x) => DypesView::Int(*x),
            Dypes::Float(x) => DypesView::Float(*x),
            Dypes::String(x) => DypesView::String(x@),
            Dypes::Bytes(x) => DypesView::Bytes(x@),
            Dypes::Null => DypesView::Null,
        }
    }
}

impl Clone for Dypes {
    fn clone(&self) -> (r: Self)
        ensures
            r@ == self@,
    {
        match self {
            Dypes::Uint(x) => Dypes::Uint(*x),
            Dypes::Int(x) => Dypes::Int(*x),
            Dypes::Float(x) => Dypes::Float(*x),
            Dypes::String(x) => Dypes::String(x.clone()),
            Dypes::Bytes(x) => Dypes::Bytes(x.clone()),
            Dypes::Null => Dypes::Null,
        }
    }
}

/// A value as the client/server engine's driver hands it over.
///
/// A `Float` carries the IEEE 754 binary64 bit pattern of its number. A `Date`
/// is year, month, day, hour, minutes, seconds, microseconds. A `Time` is a
/// sign flag, days, hours, minutes, seconds, microseconds.
#[derive(Debug, PartialEq, Eq)]
pub enum MySqlValue {
    Null,
    Bytes(Vec<u8>),
    Int(i64),
    UInt(u64),
    Float(u64),
    Date(u16, u8, u8, u8, u8, u8, u32),
    Time(bool, u32, u8, u8, u8, u32),
}

/// A [`MySqlValue`] with its bytes as a sequence.
pub ghost enum MySqlValueView {
    Null,
    Bytes(Seq<u8>),
    Int(i64),
    UInt(u64),
    Float(u64),
    Date(u16, u8, u8, u8, u8, u8, u32),
    Time(bool, u32, u8, u8, u8, u32),
}

impl View for MySqlValue {
    type V = MySqlValueView;

    open spec fn view(&self) -> MySqlValueView {
        match self {
            MySqlValue::Null => MySqlValueView::Null,
            MySqlValue::Bytes(x) => MySqlValueView::Bytes(x@),
            MySqlValue::Int(x) => MySqlValueView::Int(*x),
            MySqlValue::UInt(x) => MySqlValueView::UInt(*x),
            MySqlValue::Float(x) => MySqlValueView::Float(*x),
            MySqlValue::Date(y, m, d, h, mi, s, us) => MySqlValueView::Date(
                *y,
                *m,
                *d,
                *h,
                *mi,
                *s,
                *us,
            ),
            MySqlValue::Time(n, d, h, mi, s, us) => MySqlValueView::Time(*n, *d, *h, *mi, *s, *us),
        }
    }
}

impl Clone for MySqlValue {
    fn clone(&self) -> (r: Self)
        ensures
            r@ == self@,
    {
        match self {
            MySqlValue::Null => MySqlValue::Null,
            MySqlValue::Bytes(x) => MySqlValue::Bytes(x.clone()),
            MySqlValue::Int(x) => MySqlValue::Int(*x),
            MySqlValue::UInt(x) => MySqlValue::UInt(*x),
            MySqlValue::Float(x) => MySqlValue::Float(*x),
            MySqlValue::Date(y, m, d, h, mi, s, us) => MySqlValue::Date(
                *y,
                *m,
                *d,
                *h,
                *mi,
                *s,
                *us,
            ),
            MySqlValue::Time(n, d, h, mi, s, us) => MySqlValue::Time(*n, *d, *h, *mi, *s, *us),
        }
    }
}

/// A value as the embedded engine's driver hands it over.
///
/// A `Float` carries the IEEE 754 binary64 bit pattern of its number.
#[derive(Debug, PartialEq, Eq)]
pub enum SqliteValue {
    Int(i64),
    Uint(u64),
    Float(u64),
    String(String),
    Bytes(Vec<u8>),
    Null,
}

/// A [`SqliteValue`] with its text and bytes as sequences.
pub ghost enum SqliteValueView {
    Int(i64),
    Uint(u64),
    Float(u64),
    String(Seq<char>),
    Bytes(Seq<u8>),
    Null,
}

impl View for SqliteValue {
    type V = SqliteValueView;

    open spec fn view(&self) -> SqliteValueView {
        match self {
            SqliteValue::Int(x) => SqliteValueView::Int(*x),
            SqliteValue::Uint(x) => SqliteValueView::Uint(*x),
            SqliteValue::Float(x) => SqliteValueView::Float(*x),
            SqliteValue::String(x) => SqliteValueView::String(x@),
            SqliteValue::Bytes(x) => SqliteValueView::Bytes(x@),
            SqliteValue::Null => SqliteValueView::Null,
        }
    }
}

impl Clone for SqliteValue {
    fn clone(&self) -> (r: Self)
        ensures
            r@ == self@,
    {
        match self {
            SqliteValue::Int(x) => SqliteValue::Int(*x),
            SqliteValue::Uint(x) => SqliteValue::Uint(*x),
            SqliteValue::Float(x) => SqliteValue::Float(*x),
            SqliteValue::String(x) => SqliteValue::String(x.clone()),
            SqliteValue::Bytes(x) => SqliteValue::Bytes(x.clone()),
            SqliteValue::Null => SqliteValue::Null,
        }
    }
}

/// A date and time of day written as `Y-M-D H:Min:Sec:Frac`, each part in
/// decimal without padding.
pub open spec fn date_text(date: (u16, u8, u8, u8, u8, u8, u32)) -> Seq<char> {
    decimal(date.0 as nat) + seq!['-'] + decimal(date.1 as nat) + seq!['-'] + decimal(
        date.2 as nat,
    ) + seq![' '] + decimal(date.3 as nat) + seq![':'] + decimal(date.4 as nat) + seq![':']
        + decimal(date.5 as nat) + seq![':'] + decimal(date.6 as nat)
}

/// A duration written as a sign and `D:H:Min:Sec:Frac`, each part in decimal
/// without padding. The sign is `+` where the flag is set and `-` where it is not.
pub open spec fn time_text(time: (bool, u32, u8, u8, u8, u32)) -> Seq<char> {
    seq![if time.0 { '+' } else { '-' }] + decimal(time.1 as nat) + seq![':'] + decimal(
        time.2 as nat,
    ) + seq![':'] + decimal(time.3 as nat) + seq![':'] + decimal(time.4 as nat) + seq![':']
        + decimal(time.5 as nat)
}

/// Writes a date and time of day as text.
pub fn date_to_string(date: (u16, u8, u8, u8, u8, u8, u32)) -> (r: String)
    ensures
        r@ == date_text(date),
{
    let mut out = String::new();
    assert(out@ + decimal(date.0 as nat) =~= decimal(date.0 as nat));
    push_decimal(&mut out, date.0 as u64);
    out.push('-');
    push_decimal(&mut out, date.1 as u64);
    out.push('-');
    push_decimal(&mut out, date.2 as u64);
    out.push(' ');
    push_decimal(&mut out, date.3 as u64);
    out.push(':');
    push_decimal(&mut out, date.4 as u64);
    out.push(':');
    push_decimal(&mut out, date.5 as u64);
    out.push(':');
    push_decimal(&mut out, date.6 as u64);
    assert(out@ =~= date_text(date));
    out
}

/// Writes a duration as text.
pub fn time_to_string(time: (bool, u32, u8, u8, u8, u32)) -> (r: String)
    ensures
        r@ == time_text(time),
{
    let mut out = String::new();
    out.push(if time.0 { '+' } else { '-' });
    push_decimal(&mut out, time.1 as u64);
    out.push(':');
    push_decimal(&mut out, time.2 as u64);
    out.push(':');
    push_decimal(&mut out, time.3 as u64);
    out.push(':');
    push_decimal(&mut out, time.4 as u64);
    out.push(':');
    push_decimal(&mut out, time.5 as u64);
    assert(out@ =~= time_text(time));
    out
}

/// The canonical value of a value of the client/server engine. Dates and
/// durations have no counterpart and become text.
pub open spec fn from_mysql_view(v: MySqlValueView) -> DypesView {
    match v {
        MySqlValueView::Null => DypesView::Null,
        MySqlValueView::Bytes(x) => DypesView::Bytes(x),
        MySqlValueView::Int(x) => DypesView::Int(x),
        MySqlValueView::UInt(x) => DypesView::Uint(x),
        MySqlValueView::Float(x) => DypesView::Float(x),
        MySqlValueView::Date(y, m, d, h, mi, s, us) => DypesView::String(
            date_text((y, m, d, h, mi, s, us)),
        ),
        MySqlValueView::Time(n, d, h, mi, s, us) => DypesView::String(
            time_text((n, d, h, mi, s, us)),
        ),
    }
}

/// The value of the client/server engine that stands for a canonical value.
/// Text travels as its UTF-8 bytes.
pub open spec fn to_mysql_view(v: DypesView) -> MySqlValueView {
    match v {
        DypesView::Uint(x) => MySqlValueView::UInt(x),
        DypesView::Int(x) => MySqlValueView::Int(x),
        DypesView::Float(x) => MySqlValueView::Float(x),
        DypesView::String(x) => MySqlValueView::Bytes(encode_utf8(x)),
        DypesView::Bytes(x) => MySqlValueView::Bytes(x),
        DypesView::Null => MySqlValueView::Null,
    }
}

/// The canonical value of a value of the embedded engine.
pub open spec fn from_sqlite_view(v: SqliteValueView) -> DypesView {
    match v {
        SqliteValueView::Int(x) => DypesView::Int(x),
        SqliteValueView::Uint(x) => DypesView::Uint(x),
        SqliteValueView::Float(x) => DypesView::Float(x),
        SqliteValueView::String(x) => DypesView::String(x),
        SqliteValueView::Bytes(x) => DypesView::Bytes(x),
        SqliteValueView::Null => DypesView::Null,
    }
}

/// The value of the embedded engine that stands for a canonical value.
pub open spec fn to_sqlite_view(v: DypesView) -> SqliteValueView {
    match v {
        DypesView::Uint(x) => SqliteValueView::Uint(x),
        DypesView::Int(x) => SqliteValueView::Int(x),
        DypesView::Float(x) => SqliteValueView::Float(x),
        DypesView::String(x) => SqliteValueView::String(x),
        DypesView::Bytes(x) => SqliteValueView::Bytes(x),
        DypesView::Null => SqliteValueView::Null,
    }
}

/// Whether a value of the client/server engine is a date or a duration.
pub open spec fn is_temporal(v: MySqlValueView) -> bool {
    v is Date || v is Time
}

/// A value of the client/server engine that is neither a date nor a duration
/// comes back unchanged from the canonical form.
pub proof fn lemma_mysql_round_trip(v: MySqlValueView)
    requires
        !is_temporal(v),
    ensures
        to_mysql_view(from_mysql_view(v)) == v,
{
}

/// Every value of the embedded engine comes back unchanged from the canonical form.
pub proof fn lemma_sqlite_round_trip(v: SqliteValueView)
    ensures
        to_sqlite_view(from_sqlite_view(v)) == v,
{
}

/// Every canonical value comes back unchanged from the embedded engine's form.
pub proof fn lemma_sqlite_round_trip_canonical(v: DypesView)
    ensures
        from_sqlite_view(to_sqlite_view(v)) == v,
{
}

impl Dypes {
    /// Normalises a value of the client/server engine.
    pub fn from_mysql(v: MySqlValue) -> (r: Self)
        ensures
            r@ == from_mysql_view(v@),
    {
        match v {
            MySqlValue::Null => Dypes::Null,
            MySqlValue::Bytes(x) => Dypes::Bytes(x),
            MySqlValue::Int(x) => Dypes::Int(x),
            MySqlValue::UInt(x) => Dypes::Uint(x),
            MySqlValue::Float(x) => Dypes::Float(x),
            MySqlValue::Date(y, m, d, h, mi, s, us) => Dypes::String(
                date_to_string((y, m, d, h, mi, s, us)),
            ),
            MySqlValue::Time(n, d, h, mi, s, us) => Dypes::String(
                time_to_string((n, d, h, mi, s, us)),
            ),
        }
    }

    /// The value of the client/server engine that stands for this one.
    pub fn to_mysql(self) -> (r: MySqlValue)
        ensures
            r@ == to_mysql_view(self@),
    {
        match self {
            Dypes::Uint(x) => MySqlValue::UInt(x),
            Dypes::Int(x) => MySqlValue::Int(x),
            Dypes::Float(x) => MySqlValue::Float(x),
            Dypes::String(x) => MySqlValue::Bytes(x.as_str().as_bytes_vec()),
            Dypes::Bytes(x) => MySqlValue::Bytes(x),
            Dypes::Null => MySqlValue::Null,
        }
    }

    /// Normalises a value of the embedded engine.
    pub fn from_sqlite(v: SqliteValue) -> (r: Self)
        ensures
            r@ == from_sqlite_view(v@),
    {
        match v {
            SqliteValue::Int(x) => Dypes::Int(x),
            SqliteValue::Uint(x) => Dypes::Uint(x),
            SqliteValue::Float(x) => Dypes::Float(x),
            SqliteValue::String(x) => Dypes::String(x),
            SqliteValue::Bytes(x) => Dypes::Bytes(x),
            SqliteValue::Null => Dypes::Null,
        }
    }

    /// The value of the embedded engine that stands for this one.
    pub fn to_sqlite(self) -> (r: SqliteValue)
        ensures
            r@ == to_sqlite_view(self@),
    {
        match self {
            Dypes::Uint(x) => SqliteValue::Uint(x),
            Dypes::Int(x) => SqliteValue::Int(x),
            Dypes::Float(x) => SqliteValue::Float(x),
            Dypes::String(x) => SqliteValue::String(x),
            Dypes::Bytes(x) => SqliteValue::Bytes(x),
            Dypes::Null => SqliteValue::Null,
        }
    }
}

/// `String::from_utf8` gives the text that the bytes encode, and nothing where
/// they are not valid UTF-8.
#[verifier::external_body]
fn text_of_utf8(bytes: Vec<u8>) -> (r: Option<String>)
    ensures
        match r {
            Some(s) => valid_utf8(bytes@) && s@ == decode_utf8(bytes@),
            None => !valid_utf8(bytes@),
        },
{
    match String::from_utf8(bytes) {
        Ok(s) => Some(s),
        Err(_) => None,
    }
}

/// The text that a canonical value converts to: text as it is, bytes decoded
/// as UTF-8 where they are valid, and nothing otherwise.
pub open spec fn text_of(v: DypesView) -> Option<Seq<char>> {
    match v {
        DypesView::String(x) => Some(x),
        DypesView::Bytes(x) => if valid_utf8(x) {
            Some(decode_utf8(x))
        } else {
            None
        },
        _ => None,
    }
}

/// The truth value that a canonical value converts to: an integer is true
/// where it is not zero; anything else gives nothing.
pub open spec fn bool_of(v: DypesView) -> Option<bool> {
    match v {
        DypesView::Int(x) => Some(x != 0),
        DypesView::Uint(x) => Some(x != 0),
        _ => None,
    }
}

impl Dypes {
    /// Converts to text.
    pub fn to_text(self) -> (r: Option<String>)
        ensures
            match r {
                Some(s) => text_of(self@) == Some(s@),
                None => text_of(self@).is_none(),
            },
    {
        match self {
            Dypes::String(x) => Some(x),
            Dypes::Bytes(x) => text_of_utf8(x),
            _ => None,
        }
    }

    /// Converts to a truth value.
    pub fn to_bool(&self) -> (r: Option<bool>)
        ensures
            r == bool_of(self@),
    {
        match self {
            Dypes::Int(x) => Some(*x != 0),
            Dypes::Uint(x) => Some(*x != 0),
            _ => None,
        }
    }
}

/// The unsigned 64-bit integer that a canonical value converts to: an integer
/// by its low 64 bits, a float rounded toward zero and held to the type's
/// range; anything else gives nothing.
pub open spec fn u64_of(v: DypesView) -> Option<u64> {
    match v {
        DypesView::Int(x) => Some(x as u64),
        DypesView::Uint(x) => Some(x),
        DypesView::Float(x) => Some(clamp(truncated(x), 0, u64::MAX as int) as u64),
        _ => None,
    }
}

/// The signed 64-bit integer that a canonical value converts to, by the same rule.
pub open spec fn i64_of(v: DypesView) -> Option<i64> {
    match v {
        DypesView::Int(x) => Some(x),
        DypesView::Uint(x) => Some(x as i64),
        DypesView::Float(x) => Some(clamp(truncated(x), i64::MIN as int, i64::MAX as int) as i64),
        _ => None,
    }
}

/// The unsigned 32-bit integer that a canonical value converts to: an integer
/// by its low 32 bits, a float rounded toward zero and held to the type's range.
pub open spec fn u32_of(v: DypesView) -> Option<u32> {
    match v {
        DypesView::Int(x) => Some(x as u32),
        DypesView::Uint(x) => Some(x as u32),
        DypesView::Float(x) => Some(clamp(truncated(x), 0, u32::MAX as int) as u32),
        _ => None,
    }
}

/// The signed 32-bit integer that a canonical value converts to, by the same rule.
pub open spec fn i32_of(v: DypesView) -> Option<i32> {
    match v {
        DypesView::Int(x) => Some(x as i32),
        DypesView::Uint(x) => Some(x as i32),
        DypesView::Float(x) => Some(clamp(truncated(x), i32::MIN as int, i32::MAX as int) as i32),
        _ => None,
    }
}

impl Dypes {
    /// Converts to an unsigned 64-bit integer.
    pub fn to_u64(&self) -> (r: Option<u64>)
        ensures
            r == u64_of(self@),
    {
        match self {
            Dypes::Int(x) => Some(#[verifier::truncate] (*x as u64)),
            Dypes::Uint(x) => Some(*x),
            Dypes::Float(x) => Some(truncate_to_u64(*x)),
            _ => None,
        }
    }

    /// Converts to a signed 64-bit integer.
    pub fn to_i64(&self) -> (r: Option<i64>)
        ensures
            r == i64_of(self@),
    {
        match self {
            Dypes::Int(x) => Some(*x),
            Dypes::Uint(x) => Some(#[verifier::truncate] (*x as i64)),
            Dypes::Float(x) => Some(truncate_to_i64(*x)),
            _ => None,
        }
    }

    /// Converts to an unsigned 32-bit integer.
    pub fn to_u32(&self) -> (r: Option<u32>)
        ensures
            r == u32_of(self@),
    {
        match self {
            Dypes::Int(x) => Some(#[verifier::truncate] (*x as u32)),
            Dypes::Uint(x) => Some(#[verifier::truncate] (*x as u32)),
            Dypes::Float(x) => Some(truncate_to_u32(*x)),
            _ => None,
        }
    }

    /// Converts to a signed 32-bit integer.
    pub fn to_i32(&self) -> (r: Option<i32>)
        ensures
            r == i32_of(self@),
    {
        match self {
            Dypes::Int(x) => Some(#[verifier::truncate] (*x as i32)),
            Dypes::Uint(x) => Some(#[verifier::truncate] (*x as i32)),
            Dypes::Float(x) => Some(truncate_to_i32(*x)),
            _ => None,
        }
    }
}

impl From<u64> for Dypes {
    fn from(val: u64) -> (r: Self) {
        Dypes::Uint(val)
    }
}

impl FromSpecImpl<u64> for Dypes {
    open spec fn obeys_from_spec() -> bool {
        true
    }

    open spec fn from_spec(val: u64) -> Self {
        Dypes::Uint(val)
    }
}

impl From<u32> for Dypes {
    fn from(val: u32) -> (r: Self) {
        Dypes::Uint(val as u64)
    }
}

impl FromSpecImpl<u32> for Dypes {
    open spec fn obeys_from_spec() -> bool {
        true
    }

    open spec fn from_spec(val: u32) -> Self {
        Dypes::Uint(val as u64)
    }
}

impl From<i64> for Dypes {
    fn from(val: i64) -> (r: Self) {
        Dypes::Int(val)
    }
}

impl FromSpecImpl<i64> for Dypes {
    open spec fn obeys_from_spec() -> bool {
        true
    }

    open spec fn from_spec(val: i64) -> Self {
        Dypes::Int(val)
    }
}

impl From<i32> for Dypes {
    fn from(val: i32) -> (r: Self) {
        Dypes::Int(val as i64)
    }
}

impl FromSpecImpl<i32> for Dypes {
    open spec fn obeys_from_spec() -> bool {
        true
    }

    open spec fn from_spec(val: i32) -> Self {
        Dypes::Int(val as i64)
    }
}

impl From<String> for Dypes {
    fn from(val: String) -> (r: Self) {
        Dypes::String(val)
    }
}

impl FromSpecImpl<String> for Dypes {
    open spec fn obeys_from_spec() -> bool {
        true
    }

    open spec fn from_spec(val: String) -> Self {
        Dypes::String(val)
    }
}

} // verus!

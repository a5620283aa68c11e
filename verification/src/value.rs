//! The tagged union of loggable values.
//!
//! A [`ContextValue`] holds one datum attached to a log record: a primitive,
//! a string, or a type-erased payload that only the sink's value protocol can
//! interpret. The mathematical content of a value is its [`ValueView`].

use vstd::prelude::*;

verus! {

/// The mathematical content of a [`ContextValue`].
///
/// Primitive variants carry their value; a string carries its character
/// sequence. The four type-erased variants are opaque: nothing is known of
/// their payload beyond which capability family produced it.
pub enum ValueView {
    Null,
    Str(Seq<char>),
    Bool(bool),
    Char(char),
    I64(i64),
    U64(u64),
    I128(i128),
    U128(u128),
    Debug,
    Display,
    Error,
    Serde,
}

/// Type-erased handle to a value rendered through `std::fmt::Debug` at
/// emission time. Verus sees nothing of its content; only the sink's value
/// protocol ever reads it.
#[verifier::external_body]
pub struct DebugPayload {
    inner: Box<dyn std::fmt::Debug + Send + Sync + 'static>,
}

/// Type-erased handle to a value rendered through `std::fmt::Display` at
/// emission time.
#[verifier::external_body]
pub struct DisplayPayload {
    inner: Box<dyn std::fmt::Display + Send + Sync + 'static>,
}

/// Type-erased handle to an error value, with its possible cause chain.
#[verifier::external_body]
pub struct ErrorPayload {
    inner: Box<dyn std::error::Error + Send + Sync + 'static>,
}

/// Type-erased handle to a structurally-serializable value.
#[verifier::external_body]
pub struct SerdePayload {
    inner: Box<dyn erased_serde::Serialize + Send + Sync + 'static>,
}

/// Relies on `Box::new`: owns the value behind a type-erased handle, read
/// only by `log::kv::Value::from_dyn_debug`.
#[verifier::external_body]
fn debug_payload<T: std::fmt::Debug + Send + Sync + 'static>(value: T) -> DebugPayload {
    DebugPayload { inner: Box::new(value) }
}

/// Relies on `Box::new`: owns the value behind a type-erased handle, read
/// only by `log::kv::Value::from_dyn_display`.
#[verifier::external_body]
fn display_payload<T: std::fmt::Display + Send + Sync + 'static>(value: T) -> DisplayPayload {
    DisplayPayload { inner: Box::new(value) }
}

/// Relies on `Box::new`: owns the error behind a type-erased handle, read
/// only by `log::kv::Value::from_dyn_error`.
#[verifier::external_body]
fn error_payload<T: std::error::Error + Send + Sync + 'static>(value: T) -> ErrorPayload {
    ErrorPayload { inner: Box::new(value) }
}

/// Relies on `Box::new` and erased_serde's blanket implementation of
/// `erased_serde::Serialize` for every `serde::Serialize` type: owns the
/// value behind a type-erased handle, read only by
/// `log::kv::Value::from_serde`.
#[verifier::external_body]
fn serde_payload<S: serde::Serialize + Send + Sync + 'static>(value: S) -> SerdePayload {
    SerdePayload { inner: Box::new(value) }
}

enum ContextValueInner {
    Null,
    Str(String),
    Bool(bool),
    Char(char),
    I64(i64),
    U64(u64),
    I128(i128),
    U128(u128),
    Debug(DebugPayload),
    Display(DisplayPayload),
    Error(ErrorPayload),
    Serde(SerdePayload),
}

/// One loggable datum: a closed union over primitives, strings and four
/// families of type-erased payloads.
///
/// A value exclusively owns its payload; its lifetime ends with the property
/// set that holds it. Equality and ordering are deliberately undefined; the
/// only operation on a payload is rendering it for the sink.
pub struct ContextValue(ContextValueInner);

impl View for ContextValue {
    type V = ValueView;

    closed spec fn view(&self) -> ValueView {
        match self.0 {
            ContextValueInner::Null => ValueView::Null,
            ContextValueInner::Str(s) => ValueView::Str(s@),
            ContextValueInner::Bool(b) => ValueView::Bool(b),
            ContextValueInner::Char(c) => ValueView::Char(c),
            ContextValueInner::I64(i) => ValueView::I64(i),
            ContextValueInner::U64(u) => ValueView::U64(u),
            ContextValueInner::I128(i) => ValueView::I128(i),
            ContextValueInner::U128(u) => ValueView::U128(u),
            ContextValueInner::Debug(_) => ValueView::Debug,
            ContextValueInner::Display(_) => ValueView::Display,
            ContextValueInner::Error(_) => ValueView::Error,
            ContextValueInner::Serde(_) => ValueView::Serde,
        }
    }
}

impl ContextValue {
    /// Creates a null context value.
    pub fn null() -> (r: Self)
        ensures
            r@ == ValueView::Null,
    {
        ContextValue(ContextValueInner::Null)
    }

    /// Creates a context value from a structurally-serializable value.
    pub fn serde<S>(value: S) -> (r: Self) where S: serde::Serialize + Send + Sync + 'static
        ensures
            r@ == ValueView::Serde,
    {
        ContextValue(ContextValueInner::Serde(serde_payload(value)))
    }

    /// Creates a context value from a `std::fmt::Display` value.
    pub fn display<T>(value: T) -> (r: Self) where T: std::fmt::Display + Send + Sync + 'static
        ensures
            r@ == ValueView::Display,
    {
        ContextValue(ContextValueInner::Display(display_payload(value)))
    }

    /// Creates a context value from a `std::fmt::Debug` value.
    pub fn debug<T>(value: T) -> (r: Self) where T: std::fmt::Debug + Send + Sync + 'static
        ensures
            r@ == ValueView::Debug,
    {
        ContextValue(ContextValueInner::Debug(debug_payload(value)))
    }

    /// Creates a context value from a `std::error::Error` value.
    pub fn error<T>(value: T) -> (r: Self) where T: std::error::Error + Send + Sync + 'static
        ensures
            r@ == ValueView::Error,
    {
        ContextValue(ContextValueInner::Error(error_payload(value)))
    }

    /// Renders this value for the sink's generic value protocol.
    pub fn as_log_value<'a>(&'a self) -> log::kv::Value<'a> {
        match &self.0 {
            ContextValueInner::Null => kv_null(),
            ContextValueInner::Str(s) => kv_from_str(s.as_str()),
            ContextValueInner::Bool(b) => kv_from_bool(*b),
            ContextValueInner::Char(c) => kv_from_char(*c),
            ContextValueInner::I64(i) => kv_from_i64(*i),
            ContextValueInner::U64(u) => kv_from_u64(*u),
            ContextValueInner::I128(i) => kv_from_i128(*i),
            ContextValueInner::U128(u) => kv_from_u128(*u),
            ContextValueInner::Debug(p) => kv_from_debug(p),
            ContextValueInner::Display(p) => kv_from_display(p),
            ContextValueInner::Error(p) => kv_from_error(p),
            ContextValueInner::Serde(p) => kv_from_serde(p),
        }
    }
}

/// Declares the sink-facing value type of the log facade's key-value
/// protocol; such values stay opaque and are only handed through.
#[verifier::external_type_specification]
#[verifier::external_body]
pub struct ExKvValue<'a>(log::kv::Value<'a>);

/// Relies on `log::kv::Value::null`: the sink-facing null value.
#[verifier::external_body]
fn kv_null<'a>() -> log::kv::Value<'a> {
    log::kv::Value::null()
}

/// Relies on `log::kv::Value::from` for `&str`: the value holds the string.
#[verifier::external_body]
fn kv_from_str<'a>(s: &'a str) -> log::kv::Value<'a> {
    log::kv::Value::from(s)
}

/// Relies on `log::kv::Value::from` for `bool`.
#[verifier::external_body]
fn kv_from_bool<'a>(b: bool) -> log::kv::Value<'a> {
    log::kv::Value::from(b)
}

/// Relies on `log::kv::Value::from` for `char`.
#[verifier::external_body]
fn kv_from_char<'a>(c: char) -> log::kv::Value<'a> {
    log::kv::Value::from(c)
}

/// Relies on `log::kv::Value::from` for `i64`.
#[verifier::external_body]
fn kv_from_i64<'a>(i: i64) -> log::kv::Value<'a> {
    log::kv::Value::from(i)
}

/// Relies on `log::kv::Value::from` for `u64`.
#[verifier::external_body]
fn kv_from_u64<'a>(u: u64) -> log::kv::Value<'a> {
    log::kv::Value::from(u)
}

/// Relies on `log::kv::Value::from` for `i128`.
#[verifier::external_body]
fn kv_from_i128<'a>(i: i128) -> log::kv::Value<'a> {
    log::kv::Value::from(i)
}

/// Relies on `log::kv::Value::from` for `u128`.
#[verifier::external_body]
fn kv_from_u128<'a>(u: u128) -> log::kv::Value<'a> {
    log::kv::Value::from(u)
}

/// Relies on `log::kv::Value::from_dyn_debug`: renders through the payload's
/// `Debug` implementation at emission time.
#[verifier::external_body]
fn kv_from_debug<'a>(p: &'a DebugPayload) -> log::kv::Value<'a> {
    log::kv::Value::from_dyn_debug(&p.inner)
}

/// Relies on `log::kv::Value::from_dyn_display`: renders through the
/// payload's `Display` implementation at emission time.
#[verifier::external_body]
fn kv_from_display<'a>(p: &'a DisplayPayload) -> log::kv::Value<'a> {
    log::kv::Value::from_dyn_display(&p.inner)
}

/// Relies on `log::kv::Value::from_dyn_error`: renders the error and keeps
/// its cause chain reachable for the sink.
#[verifier::external_body]
fn kv_from_error<'a>(p: &'a ErrorPayload) -> log::kv::Value<'a> {
    log::kv::Value::from_dyn_error(&*p.inner)
}

/// Relies on `log::kv::Value::from_serde`: renders through the payload's
/// structural serialization at emission time.
#[verifier::external_body]
fn kv_from_serde<'a>(p: &'a SerdePayload) -> log::kv::Value<'a> {
    log::kv::Value::from_serde(&p.inner)
}

impl From<bool> for ContextValue {
    fn from(value: bool) -> (r: Self)
        ensures
            r@ == ValueView::Bool(value),
    {
        ContextValue(ContextValueInner::Bool(value))
    }
}

impl vstd::std_specs::convert::FromSpecImpl<bool> for ContextValue {
    open spec fn obeys_from_spec() -> bool {
        true
    }

    closed spec fn from_spec(v: bool) -> Self {
        ContextValue(ContextValueInner::Bool(v))
    }
}

impl From<char> for ContextValue {
    fn from(value: char) -> (r: Self)
        ensures
            r@ == ValueView::Char(value),
    {
        ContextValue(ContextValueInner::Char(value))
    }
}

impl vstd::std_specs::convert::FromSpecImpl<char> for ContextValue {
    open spec fn obeys_from_spec() -> bool {
        true
    }

    closed spec fn from_spec(v: char) -> Self {
        ContextValue(ContextValueInner::Char(v))
    }
}

impl From<i8> for ContextValue {
    fn from(value: i8) -> (r: Self)
        ensures
            r@ == ValueView::I64(value as i64),
    {
        ContextValue(ContextValueInner::I64(value as i64))
    }
}

impl vstd::std_specs::convert::FromSpecImpl<i8> for ContextValue {
    open spec fn obeys_from_spec() -> bool {
        true
    }

    closed spec fn from_spec(v: i8) -> Self {
        ContextValue(ContextValueInner::I64(v as i64))
    }
}

impl From<i16> for ContextValue {
    fn from(value: i16) -> (r: Self)
        ensures
            r@ == ValueView::I64(value as i64),
    {
        ContextValue(ContextValueInner::I64(value as i64))
    }
}

impl vstd::std_specs::convert::FromSpecImpl<i16> for ContextValue {
    open spec fn obeys_from_spec() -> bool {
        true
    }

    closed spec fn from_spec(v: i16) -> Self {
        ContextValue(ContextValueInner::I64(v as i64))
    }
}

impl From<u8> for ContextValue {
    fn from(value: u8) -> (r: Self)
        ensures
            r@ == ValueView::U64(value as u64),
    {
        ContextValue(ContextValueInner::U64(value as u64))
    }
}

impl vstd::std_specs::convert::FromSpecImpl<u8> for ContextValue {
    open spec fn obeys_from_spec() -> bool {
        true
    }

    closed spec fn from_spec(v: u8) -> Self {
        ContextValue(ContextValueInner::U64(v as u64))
    }
}

impl From<u16> for ContextValue {
    fn from(value: u16) -> (r: Self)
        ensures
            r@ == ValueView::U64(value as u64),
    {
        ContextValue(ContextValueInner::U64(value as u64))
    }
}

impl vstd::std_specs::convert::FromSpecImpl<u16> for ContextValue {
    open spec fn obeys_from_spec() -> bool {
        true
    }

    closed spec fn from_spec(v: u16) -> Self {
        ContextValue(ContextValueInner::U64(v as u64))
    }
}

impl From<i32> for ContextValue {
    fn from(value: i32) -> (r: Self)
        ensures
            r@ == ValueView::I64(value as i64),
    {
        ContextValue(ContextValueInner::I64(value as i64))
    }
}

impl vstd::std_specs::convert::FromSpecImpl<i32> for ContextValue {
    open spec fn obeys_from_spec() -> bool {
        true
    }

    closed spec fn from_spec(v: i32) -> Self {
        ContextValue(ContextValueInner::I64(v as i64))
    }
}

impl From<i64> for ContextValue {
    fn from(value: i64) -> (r: Self)
        ensures
            r@ == ValueView::I64(value),
    {
        ContextValue(ContextValueInner::I64(value))
    }
}

impl vstd::std_specs::convert::FromSpecImpl<i64> for ContextValue {
    open spec fn obeys_from_spec() -> bool {
        true
    }

    closed spec fn from_spec(v: i64) -> Self {
        ContextValue(ContextValueInner::I64(v))
    }
}

impl From<u32> for ContextValue {
    fn from(value: u32) -> (r: Self)
        ensures
            r@ == ValueView::U64(value as u64),
    {
        ContextValue(ContextValueInner::U64(value as u64))
    }
}

impl vstd::std_specs::convert::FromSpecImpl<u32> for ContextValue {
    open spec fn obeys_from_spec() -> bool {
        true
    }

    closed spec fn from_spec(v: u32) -> Self {
        ContextValue(ContextValueInner::U64(v as u64))
    }
}

impl From<u64> for ContextValue {
    fn from(value: u64) -> (r: Self)
        ensures
            r@ == ValueView::U64(value),
    {
        ContextValue(ContextValueInner::U64(value))
    }
}

impl vstd::std_specs::convert::FromSpecImpl<u64> for ContextValue {
    open spec fn obeys_from_spec() -> bool {
        true
    }

    closed spec fn from_spec(v: u64) -> Self {
        ContextValue(ContextValueInner::U64(v))
    }
}

impl From<i128> for ContextValue {
    fn from(value: i128) -> (r: Self)
        ensures
            r@ == ValueView::I128(value),
    {
        ContextValue(ContextValueInner::I128(value))
    }
}

impl vstd::std_specs::convert::FromSpecImpl<i128> for ContextValue {
    open spec fn obeys_from_spec() -> bool {
        true
    }

    closed spec fn from_spec(v: i128) -> Self {
        ContextValue(ContextValueInner::I128(v))
    }
}

impl From<u128> for ContextValue {
    fn from(value: u128) -> (r: Self)
        ensures
            r@ == ValueView::U128(value),
    {
        ContextValue(ContextValueInner::U128(value))
    }
}

impl vstd::std_specs::convert::FromSpecImpl<u128> for ContextValue {
    open spec fn obeys_from_spec() -> bool {
        true
    }

    closed spec fn from_spec(v: u128) -> Self {
        ContextValue(ContextValueInner::U128(v))
    }
}

impl From<String> for ContextValue {
    fn from(value: String) -> (r: Self)
        ensures
            r@ == ValueView::Str(value@),
    {
        ContextValue(ContextValueInner::Str(value))
    }
}

impl vstd::std_specs::convert::FromSpecImpl<String> for ContextValue {
    open spec fn obeys_from_spec() -> bool {
        true
    }

    closed spec fn from_spec(v: String) -> Self {
        ContextValue(ContextValueInner::Str(v))
    }
}

impl From<&str> for ContextValue {
    fn from(value: &str) -> (r: Self)
        ensures
            r@ == ValueView::Str(value@),
    {
        ContextValue(ContextValueInner::Str(<String as vstd::string::StringExecFns>::from_str(
            value,
        )))
    }
}

impl vstd::std_specs::convert::FromSpecImpl<&str> for ContextValue {
    open spec fn obeys_from_spec() -> bool {
        false
    }

    closed spec fn from_spec(v: &str) -> Self {
        ContextValue(ContextValueInner::Null)
    }
}

/// The decimal digit character for `d`.
pub open spec fn decimal_digit(d: int) -> char
    recommends
        0 <= d < 10,
{
    if d == 0 {
        '0'
    } else if d == 1 {
        '1'
    } else if d == 2 {
        '2'
    } else if d == 3 {
        '3'
    } else if d == 4 {
        '4'
    } else if d == 5 {
        '5'
    } else if d == 6 {
        '6'
    } else if d == 7 {
        '7'
    } else if d == 8 {
        '8'
    } else {
        '9'
    }
}

/// The decimal representation of a nonnegative integer, most significant
/// digit first, without leading zeros (zero itself is "0").
pub open spec fn decimal_string(n: int) -> Seq<char>
    recommends
        n >= 0,
    decreases n,
{
    if n < 10 {
        seq![decimal_digit(n)]
    } else {
        decimal_string(n / 10).push(decimal_digit(n % 10))
    }
}

/// The decimal representation of an integer: a minus sign before the
/// magnitude for negative values.
pub open spec fn signed_decimal_string(n: int) -> Seq<char> {
    if n < 0 {
        seq!['-'] + decimal_string(-n)
    } else {
        decimal_string(n)
    }
}

/// The text a null value renders to.
pub open spec fn null_text() -> Seq<char> {
    seq!['N', 'o', 'n', 'e']
}

/// The text a boolean renders to.
pub open spec fn bool_text(b: bool) -> Seq<char> {
    if b {
        seq!['t', 'r', 'u', 'e']
    } else {
        seq!['f', 'a', 'l', 's', 'e']
    }
}

/// Appends the character for the decimal digit `d`.
fn push_decimal_digit(out: &mut String, d: u8)
    requires
        d < 10,
    ensures
        final(out)@ == old(out)@ + seq![decimal_digit(d as int)],
{
    let digit: &str = match d {
        0 => "0",
        1 => "1",
        2 => "2",
        3 => "3",
        4 => "4",
        5 => "5",
        6 => "6",
        7 => "7",
        8 => "8",
        _ => "9",
    };
    proof {
        reveal_strlit("0");
        reveal_strlit("1");
        reveal_strlit("2");
        reveal_strlit("3");
        reveal_strlit("4");
        reveal_strlit("5");
        reveal_strlit("6");
        reveal_strlit("7");
        reveal_strlit("8");
        reveal_strlit("9");
        assert(digit@ =~= seq![decimal_digit(d as int)]);
    }
    vstd::string::StringExecFns::append(out, digit);
}

/// Appends the decimal representation of `n`.
fn push_decimal(out: &mut String, n: u128)
    ensures
        final(out)@ == old(out)@ + decimal_string(n as int),
    decreases n,
{
    if n >= 10 {
        push_decimal(out, n / 10);
        push_decimal_digit(out, (n % 10) as u8);
        proof {
            assert(out@ =~= old(out)@ + decimal_string(n as int));
        }
    } else {
        push_decimal_digit(out, n as u8);
        proof {
            assert(out@ =~= old(out)@ + decimal_string(n as int));
        }
    }
}

/// The decimal text of a nonnegative 128-bit integer.
fn decimal_text_of(n: u128) -> (r: String)
    ensures
        r@ == decimal_string(n as int),
{
    let mut out = String::new();
    push_decimal(&mut out, n);
    proof {
        assert(out@ =~= decimal_string(n as int));
    }
    out
}

/// The decimal text of a signed 128-bit integer.
fn signed_decimal_text_of(n: i128) -> (r: String)
    ensures
        r@ == signed_decimal_string(n as int),
{
    if n < 0 {
        let magnitude: u128 = ((-1 - n) as u128) + 1;
        proof {
            assert(magnitude as int == -(n as int));
        }
        let mut out = "-".to_owned();
        proof {
            reveal_strlit("-");
            assert(out@ =~= seq!['-']);
        }
        push_decimal(&mut out, magnitude);
        out
    } else {
        let r = decimal_text_of(n as u128);
        r
    }
}

/// Relies on `char::to_string` through `ToString`: the documented result is
/// a string holding exactly the one character.
#[verifier::external_body]
fn char_to_string(c: char) -> (r: String)
    ensures
        r@ == seq![c],
{
    c.to_string()
}

/// Relies on `format!` over the payload's `std::fmt::Debug` implementation:
/// the text is the payload's own rendering; nothing is promised of it.
#[verifier::external_body]
fn render_debug_payload(p: &DebugPayload) -> String {
    format!("{:?}", p.inner)
}

/// Relies on `format!` over the payload's `std::fmt::Display`
/// implementation: the text is the payload's own rendering.
#[verifier::external_body]
fn render_display_payload(p: &DisplayPayload) -> String {
    format!("{}", p.inner)
}

/// Relies on `format!` over the error's `std::fmt::Display` implementation:
/// the text is the error's own message.
#[verifier::external_body]
fn render_error_payload(p: &ErrorPayload) -> String {
    format!("{}", p.inner)
}

/// Relies on `log::kv::Value::from_serde` and the `Display` implementation
/// of `log::kv::Value`: the text is the sink-facing rendering of the
/// serialized value.
#[verifier::external_body]
fn render_serde_payload(p: &SerdePayload) -> String {
    format!("{}", log::kv::Value::from_serde(&p.inner))
}

impl ContextValue {
    /// Renders this value as text, as the sink-facing value displays it:
    /// strings as they stand, numbers in decimal, booleans as `true` or
    /// `false`, the null value as `None`, and a type-erased payload through
    /// its own rendering.
    pub fn render(&self) -> (r: String)
        ensures
            self@ matches ValueView::Null ==> r@ == null_text(),
            self@ matches ValueView::Str(s) ==> r@ == s,
            self@ matches ValueView::Bool(b) ==> r@ == bool_text(b),
            self@ matches ValueView::Char(c) ==> r@ == seq![c],
            self@ matches ValueView::I64(i) ==> r@ == signed_decimal_string(i as int),
            self@ matches ValueView::U64(u) ==> r@ == decimal_string(u as int),
            self@ matches ValueView::I128(i) ==> r@ == signed_decimal_string(i as int),
            self@ matches ValueView::U128(u) ==> r@ == decimal_string(u as int),
    {
        match &self.0 {
            ContextValueInner::Null => {
                let r = "None".to_owned();
                proof {
                    reveal_strlit("None");
                    assert(r@ =~= null_text());
                }
                r
            },
            ContextValueInner::Str(s) => s.clone(),
            ContextValueInner::Bool(b) => {
                let r = if *b {
                    "true".to_owned()
                } else {
                    "false".to_owned()
                };
                proof {
                    reveal_strlit("true");
                    reveal_strlit("false");
                    assert(r@ =~= bool_text(self@->Bool_0));
                }
                r
            },
            ContextValueInner::Char(c) => char_to_string(*c),
            ContextValueInner::I64(i) => signed_decimal_text_of(*i as i128),
            ContextValueInner::U64(u) => decimal_text_of(*u as u128),
            ContextValueInner::I128(i) => signed_decimal_text_of(*i),
            ContextValueInner::U128(u) => decimal_text_of(*u),
            ContextValueInner::Debug(p) => render_debug_payload(p),
            ContextValueInner::Display(p) => render_display_payload(p),
            ContextValueInner::Error(p) => render_error_payload(p),
            ContextValueInner::Serde(p) => render_serde_payload(p),
        }
    }
}

} // verus!

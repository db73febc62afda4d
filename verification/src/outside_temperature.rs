//! Fetching only the outside temperature: the errors of doing so, and reading
//! the weather service's temperature-only response.
use vstd::prelude::*;

use crate::fixed_capacity::{bounded_text, bounded_text_from, empty_bounded_text};
use crate::text::{self, decimal, i8_of, trim, trim_end, trim_start, whitespace};
use crate::weather::{degrees_celsius, signed_decimal};
use vstd::string::StrSliceExecFns;
use vstd::utf8::{decode_utf8, encode_utf8, encode_utf8_decode_utf8, valid_utf8};

verus! {

/// Why joining the wifi network failed.
#[derive(Debug)]
pub enum WifiError {
    MultipleFailedJoins,
    LinkTimeout,
    DhcpTimeout,
}

/// Why a temperature request failed. A response that is no temperature keeps
/// its text, when that fits in 64 bytes.
#[derive(Debug)]
pub enum RequestError {
    Request,
    Send,
    ReadingResponse,
    Utf8Error,
    ParsingResponse(heapless::String<64>),
}

/// Why fetching the outside temperature failed.
#[derive(Debug)]
pub enum OutsideTemperatureTaskError {
    Wifi(WifiError),
    Request(RequestError),
}

/// The four-character code the display shows for a wifi error.
pub open spec fn wifi_error_code(e: WifiError) -> Seq<char> {
    match e {
        WifiError::MultipleFailedJoins => "WE01"@,
        WifiError::LinkTimeout => "WE02"@,
        WifiError::DhcpTimeout => "WE03"@,
    }
}

/// The four-character code the display shows for a request error.
pub open spec fn request_error_code(e: RequestError) -> Seq<char> {
    match e {
        RequestError::Request => "RE01"@,
        RequestError::Send => "RE02"@,
        RequestError::ReadingResponse => "RE03"@,
        RequestError::Utf8Error => "RE04"@,
        RequestError::ParsingResponse(_) => "RE05"@,
    }
}

/// The four-character code the display shows for an error of fetching the
/// temperature: the code of the wifi or request error inside it.
pub open spec fn task_error_code(e: OutsideTemperatureTaskError) -> Seq<char> {
    match e {
        OutsideTemperatureTaskError::Wifi(w) => wifi_error_code(w),
        OutsideTemperatureTaskError::Request(r) => request_error_code(r),
    }
}

impl WifiError {
    /// The code the display shows for this error.
    pub fn code(&self) -> (r: &'static str)
        ensures
            r@ == wifi_error_code(*self),
    {
        match self {
            WifiError::MultipleFailedJoins => "WE01",
            WifiError::LinkTimeout => "WE02",
            WifiError::DhcpTimeout => "WE03",
        }
    }
}

impl RequestError {
    /// The code the display shows for this error.
    pub fn code(&self) -> (r: &'static str)
        ensures
            r@ == request_error_code(*self),
    {
        match self {
            RequestError::Request => "RE01",
            RequestError::Send => "RE02",
            RequestError::ReadingResponse => "RE03",
            RequestError::Utf8Error => "RE04",
            RequestError::ParsingResponse(_) => "RE05",
        }
    }
}

impl OutsideTemperatureTaskError {
    /// The code the display shows for this error.
    pub fn code(&self) -> (r: &'static str)
        ensures
            r@ == task_error_code(*self),
    {
        match self {
            OutsideTemperatureTaskError::Wifi(e) => e.code(),
            OutsideTemperatureTaskError::Request(e) => e.code(),
        }
    }
}

impl From<WifiError> for OutsideTemperatureTaskError {
    fn from(e: WifiError) -> (r: Self) {
        OutsideTemperatureTaskError::Wifi(e)
    }
}

impl vstd::std_specs::convert::FromSpecImpl<WifiError> for OutsideTemperatureTaskError {
    open spec fn obeys_from_spec() -> bool {
        true
    }

    open spec fn from_spec(e: WifiError) -> Self {
        OutsideTemperatureTaskError::Wifi(e)
    }
}

impl From<RequestError> for OutsideTemperatureTaskError {
    fn from(e: RequestError) -> (r: Self) {
        OutsideTemperatureTaskError::Request(e)
    }
}

impl vstd::std_specs::convert::FromSpecImpl<RequestError> for OutsideTemperatureTaskError {
    open spec fn obeys_from_spec() -> bool {
        true
    }

    open spec fn from_spec(e: RequestError) -> Self {
        OutsideTemperatureTaskError::Request(e)
    }
}

/// The plus sign, as a predicate.
pub open spec fn plus_sign() -> spec_fn(char) -> bool {
    |c: char| c == '+'
}

/// The temperature text of a response: the response without white space at
/// either end, without leading plus signs and without trailing `°C` units.
pub open spec fn temperature_token(response: Seq<char>) -> Seq<char> {
    trim_end(trim_start(trim(response), plus_sign()), degrees_celsius())
}

/// `s` when its UTF-8 encoding fits in 64 bytes, the empty text otherwise.
pub open spec fn fitting_text(s: Seq<char>) -> Seq<char> {
    if encode_utf8(s).len() <= 64 {
        s
    } else {
        Seq::empty()
    }
}

fn is_plus(c: char) -> (b: bool)
    ensures
        b == (c == '+'),
{
    c == '+'
}

/// The outside temperature that the body of the weather service's response
/// reports. A body that is not UTF-8 is an `Utf8Error`; a body whose
/// temperature text is not an `i8` is a parsing error that keeps the text.
pub fn parse_response(body: &[u8]) -> (r: Result<i8, RequestError>)
    ensures
        !valid_utf8(body@) ==> r matches Err(RequestError::Utf8Error),
        valid_utf8(body@) ==> match i8_of(temperature_token(decode_utf8(body@))) {
            Some(t) => r matches Ok(v) && v == t,
            None => r matches Err(RequestError::ParsingResponse(payload)) && bounded_text(payload)
                == fitting_text(temperature_token(decode_utf8(body@))),
        },
{
    let response = match text::str_from_utf8(body) {
        Err(_) => return Err(RequestError::Utf8Error),
        Ok(s) => s,
    };
    proof {
        encode_utf8_decode_utf8(response@);
    }
    let chars = text::chars_of(response);
    let cs = chars.as_slice();
    let len = cs.len();
    let a = text::leading_len(cs, text::char_is_whitespace, Ghost(whitespace()));
    let t1 = &cs[a..len];
    let e = text::trailing_len(t1, text::char_is_whitespace, Ghost(whitespace()));
    let t1_len = t1.len();
    let t2 = &t1[0..t1_len - e];
    assert(t2@ == trim(cs@));
    let p = text::leading_len(t2, is_plus, Ghost(plus_sign()));
    let t2_len = t2.len();
    let t3 = &t2[p..t2_len];
    let unit = ['\u{b0}', 'C'];
    assert(unit@ =~= degrees_celsius());
    let t4 = text::strip_suffixes(t3, &unit);
    assert(t4@ == temperature_token(response@));
    match text::parse_i8(t4) {
        Some(t) => Ok(t),
        None => {
            assert(t1@ == cs@.subrange(a as int, len as int));
            assert(t2@ == t1@.subrange(0, t1_len - e));
            assert(t3@ == t2@.subrange(p as int, t2_len as int));
            let from = a + p;
            let to = from + t4.len();
            assert forall|i: int| 0 <= i < t4@.len() implies t4@[i] == cs@[from + i] by {
                assert(t4@[i] == t3@[i]);
                assert(t3@[i] == t2@[p + i]);
                assert(t2@[p + i] == t1@[p + i]);
                assert(t1@[p + i] == cs@[a + p + i]);
            }
            assert(cs@.subrange(from as int, to as int) =~= t4@);
            let kept = response.substring_char(from, to);
            let payload = match bounded_text_from(kept) {
                Ok(t) => t,
                Err(_) => empty_bounded_text(),
            };
            Err(RequestError::ParsingResponse(payload))
        },
    }
}


/// A response that holds a signed temperature in degrees Celsius, on a line of
/// its own, reads back as that temperature.
pub proof fn lemma_temperature_read_back(t: i8)
    ensures
        i8_of(temperature_token(signed_decimal(t) + degrees_celsius() + seq!['\n'])) == Some(t),
{
    let n: nat = if t < 0 {
        (-t) as nat
    } else {
        t as nat
    };
    text::lemma_decimal(n);
    let digits = decimal(n);
    assert(text::is_ascii_digit(digits[0]));
    assert(text::is_ascii_digit(digits.last()));
    let number = signed_decimal(t);
    let unit = degrees_celsius();
    let body = number + unit;
    let response = body + seq!['\n'];
    assert(response == Seq::<char>::empty() + response);
    assert(response[0] == number[0]);
    text::lemma_count_leading_concat(Seq::empty(), response, whitespace());
    assert(trim_start(response, whitespace()) == response);
    assert(body.last() == 'C');
    text::lemma_count_trailing_concat(body, seq!['\n'], whitespace());
    assert(trim(response) == body);
    if t < 0 {
        assert(body == Seq::<char>::empty() + body);
        text::lemma_count_leading_concat(Seq::empty(), body, plus_sign());
        assert(trim_start(body, plus_sign()) == body);
        assert(number.last() == digits.last());
        text::lemma_trim_end_once(number, unit);
        text::lemma_i8_of_negative_decimal(n);
    } else {
        let rest = digits + unit;
        assert(body == seq!['+'] + rest);
        assert(rest[0] == digits[0]);
        text::lemma_count_leading_concat(seq!['+'], rest, plus_sign());
        assert(trim_start(body, plus_sign()) == rest);
        text::lemma_trim_end_once(digits, unit);
        text::lemma_i8_of_decimal(n);
    }
}

} // verus!

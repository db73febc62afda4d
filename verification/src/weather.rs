//! The weather as the weather service reports it: reading its one-line report,
//! the errors of fetching it, and how the display shows it.
use vstd::prelude::*;

use crate::animation::{self, Animation, CharacterSegment};
use crate::text::{
    self, decimal, decode_text, digit_char, is_whitespace, i8_of, is_ascii_digit, next_word, trim_end, trim_start, u8_of,
};
use vstd::utf8::{decode_utf8, encode_utf8, encode_utf8_decode_utf8, encode_utf8_valid_utf8, valid_utf8};

verus! {

/// Why joining the wifi network failed.
#[derive(Debug)]
pub enum WifiError {
    MultipleFailedJoins,
    LinkTimeout,
    DhcpTimeout,
}

/// Why a weather request failed.
#[derive(Debug)]
pub enum RequestError {
    Request,
    Send,
    ReadingResponse,
    Utf8Error,
    ParsingResponse,
}

/// Why fetching the weather failed.
#[derive(Debug)]
pub enum OutsideTemperatureTaskError {
    Wifi(WifiError),
    Request(RequestError),
}

/// The four-character code the display shows for a wifi error.
pub open spec fn wifi_error_code(e: WifiError) -> Seq<char> {
    match e {
        WifiError::MultipleFailedJoins => "WE01"@,
        WifiError::LinkTimeout => "WE02"@,
        WifiError::DhcpTimeout => "WE03"@,
    }
}

/// The four-character code the display shows for a request error.
pub open spec fn request_error_code(e: RequestError) -> Seq<char> {
    match e {
        RequestError::Request => "RE01"@,
        RequestError::Send => "RE02"@,
        RequestError::ReadingResponse => "RE03"@,
        RequestError::Utf8Error => "RE04"@,
        RequestError::ParsingResponse => "RE05"@,
    }
}

/// The four-character code the display shows for an error of fetching the
/// weather: the code of the wifi or request error inside it.
pub open spec fn task_error_code(e: OutsideTemperatureTaskError) -> Seq<char> {
    match e {
        OutsideTemperatureTaskError::Wifi(w) => wifi_error_code(w),
        OutsideTemperatureTaskError::Request(r) => request_error_code(r),
    }
}

impl WifiError {
    /// The code the display shows for this error.
    pub fn code(&self) -> (r: &'static str)
        ensures
            r@ == wifi_error_code(*self),
    {
        match self {
            WifiError::MultipleFailedJoins => "WE01",
            WifiError::LinkTimeout => "WE02",
            WifiError::DhcpTimeout => "WE03",
        }
    }
}

impl RequestError {
    /// The code the display shows for this error.
    pub fn code(&self) -> (r: &'static str)
        ensures
            r@ == request_error_code(*self),
    {
        match self {
            RequestError::Request => "RE01",
            RequestError::Send => "RE02",
            RequestError::ReadingResponse => "RE03",
            RequestError::Utf8Error => "RE04",
            RequestError::ParsingResponse => "RE05",
        }
    }
}

impl OutsideTemperatureTaskError {
    /// The code the display shows for this error.
    pub fn code(&self) -> (r: &'static str)
        ensures
            r@ == task_error_code(*self),
    {
        match self {
            OutsideTemperatureTaskError::Wifi(e) => e.code(),
            OutsideTemperatureTaskError::Request(e) => e.code(),
        }
    }
}

impl From<WifiError> for OutsideTemperatureTaskError {
    fn from(e: WifiError) -> (r: Self) {
        OutsideTemperatureTaskError::Wifi(e)
    }
}

impl vstd::std_specs::convert::FromSpecImpl<WifiError> for OutsideTemperatureTaskError {
    open spec fn obeys_from_spec() -> bool {
        true
    }

    open spec fn from_spec(e: WifiError) -> Self {
        OutsideTemperatureTaskError::Wifi(e)
    }
}

impl From<RequestError> for OutsideTemperatureTaskError {
    fn from(e: RequestError) -> (r: Self) {
        OutsideTemperatureTaskError::Request(e)
    }
}

impl vstd::std_specs::convert::FromSpecImpl<RequestError> for OutsideTemperatureTaskError {
    open spec fn obeys_from_spec() -> bool {
        true
    }

    open spec fn from_spec(e: RequestError) -> Self {
        OutsideTemperatureTaskError::Request(e)
    }
}

/// The weather condition.
#[derive(Clone, Copy, Debug, PartialEq, Eq, Structural)]
pub enum Condition {
    Unknown,
    Sunny,
    Cloudy,
    PartlyCloudy,
    Fog,
    LightRain,
    HeavyRain,
    LightSnow,
    HeavySnow,
    ThunderyRain,
    ThunderyHeavyRain,
}

/// The direction the wind blows from.
#[derive(Clone, Copy, Debug, PartialEq, Eq, Structural)]
pub enum Direction {
    North,
    NorthEast,
    East,
    SouthEast,
    South,
    SouthWest,
    West,
    NorthWest,
}

/// The wind: its direction and its speed in km/h.
#[derive(Clone, Copy, Debug, PartialEq, Eq, Structural)]
pub struct Wind {
    pub direction: Direction,
    pub speed_kmh: u8,
}

/// The weather: its condition, the temperature in degrees Celsius and the wind.
#[derive(Clone, Copy, Debug, PartialEq, Eq, Structural)]
pub struct Weather {
    pub condition: Condition,
    pub temperature_c: i8,
    pub wind: Wind,
}

/// The animation shown for a condition, as its duration and frames.
pub open spec fn condition_animation(c: Condition) -> (u64, Seq<Seq<CharacterSegment>>) {
    match c {
        Condition::Unknown => (1000u64, animation::question_marks_frames()),
        Condition::Sunny => (750u64, animation::sunshine_frames()),
        Condition::Cloudy => (1500u64, animation::cloudy_frames()),
        Condition::PartlyCloudy => (750u64, animation::partially_cloudy_frames()),
        Condition::Fog => (2500u64, animation::fog_frames()),
        Condition::LightRain => (500u64, animation::rain_frames()),
        Condition::HeavyRain => (500u64, animation::rain_frames()),
        Condition::LightSnow => (250u64, animation::snow_frames(false)),
        Condition::HeavySnow => (150u64, animation::snow_frames(true)),
        Condition::ThunderyRain => (500u64, animation::lightning_frames()),
        Condition::ThunderyHeavyRain => (500u64, animation::lightning_frames()),
    }
}

/// The name of a condition.
pub open spec fn condition_name(c: Condition) -> Seq<char> {
    match c {
        Condition::Unknown => "Unknown"@,
        Condition::Sunny => "Sunny"@,
        Condition::Cloudy => "Cloudy"@,
        Condition::PartlyCloudy => "Partly Cloudy"@,
        Condition::Fog => "Fog"@,
        Condition::LightRain => "Light Rain"@,
        Condition::HeavyRain => "Heavy Rain"@,
        Condition::LightSnow => "Light Snow"@,
        Condition::HeavySnow => "Heavy Snow"@,
        Condition::ThunderyRain => "Thundery Rain"@,
        Condition::ThunderyHeavyRain => "Thundery Heavy Rain"@,
    }
}

impl Condition {
    /// The animation the display shows for this condition.
    pub fn animation(&self) -> (r: Animation)
        ensures
            r@ == condition_animation(*self),
    {
        match self {
            Condition::Unknown => animation::question_marks_anim(),
            Condition::Sunny => animation::sunshine_anim(),
            Condition::Cloudy => animation::cloudy_anim(),
            Condition::PartlyCloudy => animation::partially_cloudy_anim(),
            Condition::Fog => animation::fog_anim(),
            Condition::LightRain => animation::rain_anim(false),
            Condition::HeavyRain => animation::rain_anim(true),
            Condition::LightSnow => animation::snow_anim(false),
            Condition::HeavySnow => animation::snow_anim(true),
            Condition::ThunderyRain => animation::lightning_anim(),
            Condition::ThunderyHeavyRain => animation::lightning_anim(),
        }
    }

    /// The name of this condition.
    pub fn to_string(&self) -> (r: String)
        ensures
            r@ == condition_name(*self),
    {
        let name = match self {
            Condition::Unknown => "Unknown",
            Condition::Sunny => "Sunny",
            Condition::Cloudy => "Cloudy",
            Condition::PartlyCloudy => "Partly Cloudy",
            Condition::Fog => "Fog",
            Condition::LightRain => "Light Rain",
            Condition::HeavyRain => "Heavy Rain",
            Condition::LightSnow => "Light Snow",
            Condition::HeavySnow => "Heavy Snow",
            Condition::ThunderyRain => "Thundery Rain",
            Condition::ThunderyHeavyRain => "Thundery Heavy Rain",
        };
        String::from_str(name)
    }
}


/// The text the display shows for a wind direction: its compass letters,
/// right-aligned in two characters.
pub open spec fn direction_text(d: Direction) -> Seq<char> {
    match d {
        Direction::North => seq![' ', 'N'],
        Direction::NorthEast => seq!['N', 'E'],
        Direction::East => seq![' ', 'E'],
        Direction::SouthEast => seq!['S', 'E'],
        Direction::South => seq![' ', 'S'],
        Direction::SouthWest => seq!['S', 'W'],
        Direction::West => seq![' ', 'W'],
        Direction::NorthWest => seq!['N', 'W'],
    }
}

/// The text the display shows for a wind speed: the speed, capped at 99 km/h,
/// right-aligned in two characters.
pub open spec fn speed_text(speed_kmh: u8) -> Seq<char> {
    let s = if speed_kmh > 99 {
        99
    } else {
        speed_kmh as int
    };
    if s < 10 {
        seq![' ', digit_char(s)]
    } else {
        seq![digit_char(s / 10), digit_char(s % 10)]
    }
}

/// The four characters the display shows for the wind: speed, then direction.
pub open spec fn wind_text(w: Wind) -> Seq<char> {
    speed_text(w.speed_kmh) + direction_text(w.direction)
}

impl Direction {
    /// The compass letters of this direction, right-aligned in two characters.
    pub fn to_string(&self) -> (r: String)
        ensures
            r@ == direction_text(*self),
    {
        let t = match self {
            Direction::North => " N",
            Direction::NorthEast => "NE",
            Direction::East => " E",
            Direction::SouthEast => "SE",
            Direction::South => " S",
            Direction::SouthWest => "SW",
            Direction::West => " W",
            Direction::NorthWest => "NW",
        };
        proof {
            reveal_strlit(" N");
            reveal_strlit("NE");
            reveal_strlit(" E");
            reveal_strlit("SE");
            reveal_strlit(" S");
            reveal_strlit("SW");
            reveal_strlit(" W");
            reveal_strlit("NW");
        }
        let r = String::from_str(t);
        assert(r@ =~= direction_text(*self));
        r
    }
}

/// The one-character text of a decimal digit.
fn digit_str(d: u8) -> (r: &'static str)
    requires
        d < 10,
    ensures
        r@ == seq![digit_char(d as int)],
{
    proof {
        reveal_strlit("0");
        reveal_strlit("1");
        reveal_strlit("2");
        reveal_strlit("3");
        reveal_strlit("4");
        reveal_strlit("5");
        reveal_strlit("6");
        reveal_strlit("7");
        reveal_strlit("8");
        reveal_strlit("9");
    }
    let r = match d {
        0 => "0",
        1 => "1",
        2 => "2",
        3 => "3",
        4 => "4",
        5 => "5",
        6 => "6",
        7 => "7",
        8 => "8",
        _ => "9",
    };
    assert(r@ =~= seq![digit_char(d as int)]);
    r
}

impl Wind {
    /// The wind as the display shows it: the speed (capped at 99 km/h)
    /// right-aligned in two characters, then the direction.
    pub fn to_string(&self) -> (r: String)
        ensures
            r@ == wind_text(*self),
    {
        let speed = if self.speed_kmh > 99 {
            99u8
        } else {
            self.speed_kmh
        };
        let mut r = if speed < 10 {
            proof {
                reveal_strlit(" ");
            }
            let mut t = String::from_str(" ");
            t.append(digit_str(speed));
            t
        } else {
            let mut t = String::from_str(digit_str(speed / 10));
            t.append(digit_str(speed % 10));
            t
        };
        let d = self.direction.to_string();
        r.append(d.as_str());
        assert(r@ =~= wind_text(*self));
        r
    }
}

/// The degrees of a temperature, with a minus sign when it is below zero.
pub open spec fn number_text(t: i8) -> Seq<char> {
    if t < 0 {
        seq!['-'] + decimal((-t) as nat)
    } else {
        decimal(t as nat)
    }
}

/// `s` right-aligned in three characters: spaces before it when it is shorter.
pub open spec fn right_aligned3(s: Seq<char>) -> Seq<char> {
    if s.len() < 3 {
        Seq::new((3 - s.len()) as nat, |i: int| ' ') + s
    } else {
        s
    }
}

/// The four characters the display shows for a temperature: the degrees
/// right-aligned in three characters, then `C`. A temperature of -100 or
/// below takes all four characters for its degrees, and the unit is left out.
pub open spec fn temperature_display(t: i8) -> Seq<char> {
    let n = right_aligned3(number_text(t));
    if n.len() == 3 {
        n + seq!['C']
    } else {
        n
    }
}

/// The temperature as the display shows it, in four characters.
pub fn temperature_text(t: i8) -> (r: String)
    ensures
        r@ == temperature_display(t),
{
    let negative = t < 0;
    let m: u8 = if negative {
        (0i16 - (t as i16)) as u8
    } else {
        t as u8
    };
    let ghost n = if negative {
        (-t) as nat
    } else {
        t as nat
    };
    assert(m == n);
    proof {
        reveal_with_fuel(decimal, 3);
        reveal_strlit("-");
        reveal_strlit(" ");
        reveal_strlit(" -");
        reveal_strlit("  ");
        reveal_strlit("C");
        reveal_strlit("");
    }
    let mut r;
    if m < 10 {
        r = String::from_str(if negative {
            " -"
        } else {
            "  "
        });
        r.append(digit_str(m));
        r.append("C");
        assert(decimal(n) == seq![digit_char(n as int)]);
        assert(number_text(t).len() == if negative { 2int } else { 1int });
        assert(right_aligned3(number_text(t)) =~= r@.take(3));
        assert(r@ =~= temperature_display(t));
    } else if m < 100 {
        r = String::from_str(if negative {
            "-"
        } else {
            " "
        });
        r.append(digit_str(m / 10));
        r.append(digit_str(m % 10));
        r.append("C");
        assert(decimal(n) == seq![digit_char((n / 10) as int), digit_char((n % 10) as int)]);
        assert(right_aligned3(number_text(t)) =~= r@.take(3));
        assert(r@ =~= temperature_display(t));
    } else {
        r = String::from_str(if negative {
            "-"
        } else {
            ""
        });
        r.append(digit_str(m / 100));
        r.append(digit_str((m / 10) % 10));
        r.append(digit_str(m % 10));
        assert(decimal(n) == seq![
            digit_char((n / 100) as int),
            digit_char(((n / 10) % 10) as int),
            digit_char((n % 10) as int),
        ]);
        assert((n / 10) / 10 == n / 100);
        if !negative {
            r.append("C");
            assert(right_aligned3(number_text(t)) =~= r@.take(3));
        } else {
            assert(right_aligned3(number_text(t)) =~= r@);
        }
        assert(r@ =~= temperature_display(t));
    }
    r
}

/// The temperature always fills the four characters of the display exactly.
pub proof fn lemma_temperature_text_fits(t: i8)
    ensures
        temperature_display(t).len() == 4,
{
    reveal_with_fuel(decimal, 3);
    let m: nat = if t < 0 {
        (-t) as nat
    } else {
        t as nat
    };
    if m >= 100 {
        assert((m / 10) / 10 == m / 100);
    }
}

/// The condition a report's condition symbol names: the first of the known
/// symbols that the text holds decides.
pub open spec fn condition_of(s: Seq<char>) -> Option<Condition> {
    if s.contains('\u{26c8}') {
        Some(Condition::ThunderyRain)
    } else if s.contains('\u{1f329}') {
        Some(Condition::ThunderyHeavyRain)
    } else if s.contains('\u{2744}') {
        Some(Condition::HeavySnow)
    } else if s.contains('\u{1f328}') {
        Some(Condition::LightSnow)
    } else if s.contains('\u{1f326}') {
        Some(Condition::LightRain)
    } else if s.contains('\u{1f327}') {
        Some(Condition::HeavyRain)
    } else if s.contains('\u{1f32b}') {
        Some(Condition::Fog)
    } else if s.contains('\u{26c5}') {
        Some(Condition::PartlyCloudy)
    } else if s.contains('\u{2600}') {
        Some(Condition::Sunny)
    } else if s.contains('\u{2601}') {
        Some(Condition::Cloudy)
    } else if s.contains('\u{2728}') {
        Some(Condition::Unknown)
    } else {
        None
    }
}

/// The direction an arrow points to.
pub open spec fn direction_of(arrow: char) -> Option<Direction> {
    if arrow == '\u{2191}' {
        Some(Direction::North)
    } else if arrow == '\u{2197}' {
        Some(Direction::NorthEast)
    } else if arrow == '\u{2192}' {
        Some(Direction::East)
    } else if arrow == '\u{2198}' {
        Some(Direction::SouthEast)
    } else if arrow == '\u{2193}' {
        Some(Direction::South)
    } else if arrow == '\u{2199}' {
        Some(Direction::SouthWest)
    } else if arrow == '\u{2190}' {
        Some(Direction::West)
    } else if arrow == '\u{2196}' {
        Some(Direction::NorthWest)
    } else {
        None
    }
}

/// What precedes the wind's arrow: anything but a digit or an arrow.
pub open spec fn wind_prefix() -> spec_fn(char) -> bool {
    |c: char| !is_ascii_digit(c) && direction_of(c) is None
}

/// What precedes the temperature: anything but a digit or a minus sign.
pub open spec fn temperature_prefix() -> spec_fn(char) -> bool {
    |c: char| !is_ascii_digit(c) && c != '-'
}

/// The unit that ends a wind token.
pub open spec fn kmh() -> Seq<char> {
    seq!['k', 'm', '/', 'h']
}

/// The unit that ends a temperature token.
pub open spec fn degrees_celsius() -> Seq<char> {
    seq!['\u{b0}', 'C']
}

/// The wind a wind token reports: after what precedes the arrow, an arrow,
/// then the speed in km/h with the unit trimmed off its end.
pub open spec fn wind_of(s: Seq<char>) -> Option<Wind> {
    let t = trim_start(s, wind_prefix());
    if t.len() == 0 {
        None
    } else {
        match direction_of(t[0]) {
            None => None,
            Some(d) => match u8_of(trim_end(t.drop_first(), kmh())) {
                None => None,
                Some(v) => Some(Wind { direction: d, speed_kmh: v }),
            },
        }
    }
}

/// The temperature a temperature token reports: after what precedes the
/// number, the number in degrees Celsius with the unit trimmed off its end.
pub open spec fn temperature_of(s: Seq<char>) -> Option<i8> {
    i8_of(trim_end(trim_start(s, temperature_prefix()), degrees_celsius()))
}

/// The weather a report reports: its first three words are the condition, the
/// temperature and the wind.
pub open spec fn weather_of(s: Seq<char>) -> Option<Weather> {
    match next_word(s) {
        None => None,
        Some((c, r1)) => match next_word(r1) {
            None => None,
            Some((t, r2)) => match next_word(r2) {
                None => None,
                Some((w, _)) => match (condition_of(c), temperature_of(t), wind_of(w)) {
                    (Some(condition), Some(temperature_c), Some(wind)) => Some(
                        Weather { condition, temperature_c, wind },
                    ),
                    _ => None,
                },
            },
        },
    }
}

/// A parse result, with a failure reported as a parsing error.
pub open spec fn parsed<T>(o: Option<T>) -> Result<T, RequestError> {
    match o {
        Some(v) => Ok(v),
        None => Err(RequestError::ParsingResponse),
    }
}

/// What reading the response body `body` gives.
pub open spec fn response_result(body: Seq<u8>) -> Result<Weather, RequestError> {
    if valid_utf8(body) {
        parsed(weather_of(decode_utf8(body)))
    } else {
        Err(RequestError::Utf8Error)
    }
}

/// Whether `s` holds `c`.
fn contains_char(s: &[char], c: char) -> (b: bool)
    ensures
        b == s@.contains(c),
{
    let mut i: usize = 0;
    while i < s.len()
        invariant
            i <= s@.len(),
            forall|j: int| 0 <= j < i ==> s@[j] != c,
        decreases s@.len() - i,
    {
        if s[i] == c {
            return true;
        }
        i = i + 1;
    }
    false
}

fn condition_in(s: &[char]) -> (r: Option<Condition>)
    ensures
        r == condition_of(s@),
{
    if contains_char(s, '\u{26c8}') {
        Some(Condition::ThunderyRain)
    } else if contains_char(s, '\u{1f329}') {
        Some(Condition::ThunderyHeavyRain)
    } else if contains_char(s, '\u{2744}') {
        Some(Condition::HeavySnow)
    } else if contains_char(s, '\u{1f328}') {
        Some(Condition::LightSnow)
    } else if contains_char(s, '\u{1f326}') {
        Some(Condition::LightRain)
    } else if contains_char(s, '\u{1f327}') {
        Some(Condition::HeavyRain)
    } else if contains_char(s, '\u{1f32b}') {
        Some(Condition::Fog)
    } else if contains_char(s, '\u{26c5}') {
        Some(Condition::PartlyCloudy)
    } else if contains_char(s, '\u{2600}') {
        Some(Condition::Sunny)
    } else if contains_char(s, '\u{2601}') {
        Some(Condition::Cloudy)
    } else if contains_char(s, '\u{2728}') {
        Some(Condition::Unknown)
    } else {
        None
    }
}

fn direction_in(arrow: char) -> (r: Option<Direction>)
    ensures
        r == direction_of(arrow),
{
    if arrow == '\u{2191}' {
        Some(Direction::North)
    } else if arrow == '\u{2197}' {
        Some(Direction::NorthEast)
    } else if arrow == '\u{2192}' {
        Some(Direction::East)
    } else if arrow == '\u{2198}' {
        Some(Direction::SouthEast)
    } else if arrow == '\u{2193}' {
        Some(Direction::South)
    } else if arrow == '\u{2199}' {
        Some(Direction::SouthWest)
    } else if arrow == '\u{2190}' {
        Some(Direction::West)
    } else if arrow == '\u{2196}' {
        Some(Direction::NorthWest)
    } else {
        None
    }
}

fn is_wind_prefix_char(c: char) -> (b: bool)
    ensures
        b == (!is_ascii_digit(c) && direction_of(c) is None),
{
    !text::char_is_ascii_digit(c) && direction_in(c).is_none()
}

fn is_temperature_prefix_char(c: char) -> (b: bool)
    ensures
        b == (!is_ascii_digit(c) && c != '-'),
{
    !text::char_is_ascii_digit(c) && c != '-'
}

fn wind_in(s: &[char]) -> (r: Option<Wind>)
    ensures
        r == wind_of(s@),
{
    let n = text::leading_len(s, is_wind_prefix_char, Ghost(wind_prefix()));
    let len = s.len();
    let t = &s[n..len];
    if t.len() == 0 {
        return None;
    }
    match direction_in(t[0]) {
        None => None,
        Some(direction) => {
            let tlen = t.len();
            let unit = ['k', 'm', '/', 'h'];
            assert(unit@ =~= kmh());
            let speed = text::strip_suffixes(&t[1..tlen], &unit);
            assert(t@.subrange(1, tlen as int) == t@.drop_first());
            match text::parse_u8(speed) {
                None => None,
                Some(speed_kmh) => Some(Wind { direction, speed_kmh }),
            }
        },
    }
}

fn temperature_in(s: &[char]) -> (r: Option<i8>)
    ensures
        r == temperature_of(s@),
{
    let n = text::leading_len(s, is_temperature_prefix_char, Ghost(temperature_prefix()));
    let len = s.len();
    let unit = ['\u{b0}', 'C'];
    assert(unit@ =~= degrees_celsius());
    let t = text::strip_suffixes(&s[n..len], &unit);
    text::parse_i8(t)
}

fn weather_in(s: &[char]) -> (r: Option<Weather>)
    ensures
        r == weather_of(s@),
{
    let (condition_tok, rest) = match text::first_word(s) {
        None => return None,
        Some(p) => p,
    };
    let (temp_tok, rest) = match text::first_word(rest) {
        None => return None,
        Some(p) => p,
    };
    let (wind_tok, _) = match text::first_word(rest) {
        None => return None,
        Some(p) => p,
    };
    let condition = match condition_in(condition_tok) {
        None => return None,
        Some(c) => c,
    };
    let temperature_c = match temperature_in(temp_tok) {
        None => return None,
        Some(t) => t,
    };
    let wind = match wind_in(wind_tok) {
        None => return None,
        Some(w) => w,
    };
    Some(Weather { condition, temperature_c, wind })
}

/// The condition that a report's condition symbol names.
pub fn parse_condition(s: &str) -> (r: Result<Condition, RequestError>)
    ensures
        r == parsed(condition_of(s@)),
{
    let chars = text::chars_of(s);
    match condition_in(chars.as_slice()) {
        Some(c) => Ok(c),
        None => Err(RequestError::ParsingResponse),
    }
}

/// The direction a wind arrow points to.
pub fn parse_direction(arrow: char) -> (r: Result<Direction, RequestError>)
    ensures
        r == parsed(direction_of(arrow)),
{
    match direction_in(arrow) {
        Some(d) => Ok(d),
        None => Err(RequestError::ParsingResponse),
    }
}

/// The wind that a report's wind token reports.
pub fn parse_wind(s: &str) -> (r: Result<Wind, RequestError>)
    ensures
        r == parsed(wind_of(s@)),
{
    let chars = text::chars_of(s);
    match wind_in(chars.as_slice()) {
        Some(w) => Ok(w),
        None => Err(RequestError::ParsingResponse),
    }
}

/// The weather that the body of the weather service's response reports.
pub fn parse_response(body: &[u8]) -> (r: Result<Weather, RequestError>)
    ensures
        r == response_result(body@),
{
    match decode_text(body) {
        None => Err(RequestError::Utf8Error),
        Some(chars) => match weather_in(chars.as_slice()) {
            Some(w) => Ok(w),
            None => Err(RequestError::ParsingResponse),
        },
    }
}


/// The symbol the weather service writes for a condition.
pub open spec fn condition_symbol(c: Condition) -> char {
    match c {
        Condition::ThunderyRain => '\u{26c8}',
        Condition::ThunderyHeavyRain => '\u{1f329}',
        Condition::HeavySnow => '\u{2744}',
        Condition::LightSnow => '\u{1f328}',
        Condition::LightRain => '\u{1f326}',
        Condition::HeavyRain => '\u{1f327}',
        Condition::Fog => '\u{1f32b}',
        Condition::PartlyCloudy => '\u{26c5}',
        Condition::Sunny => '\u{2600}',
        Condition::Cloudy => '\u{2601}',
        Condition::Unknown => '\u{2728}',
    }
}

/// The arrow the weather service writes for a wind direction.
pub open spec fn direction_arrow(d: Direction) -> char {
    match d {
        Direction::North => '\u{2191}',
        Direction::NorthEast => '\u{2197}',
        Direction::East => '\u{2192}',
        Direction::SouthEast => '\u{2198}',
        Direction::South => '\u{2193}',
        Direction::SouthWest => '\u{2199}',
        Direction::West => '\u{2190}',
        Direction::NorthWest => '\u{2196}',
    }
}

/// The condition as the weather service writes it: its symbol, in emoji style.
pub open spec fn condition_word(c: Condition) -> Seq<char> {
    seq![condition_symbol(c), '\u{fe0f}']
}

/// The sign and the degrees of a temperature.
pub open spec fn signed_decimal(t: i8) -> Seq<char> {
    if t < 0 {
        seq!['-'] + decimal((-t) as nat)
    } else {
        seq!['+'] + decimal(t as nat)
    }
}

/// The temperature as the weather service writes it: a thermometer, then the
/// signed degrees and the unit.
pub open spec fn temperature_word(t: i8) -> Seq<char> {
    seq!['\u{1f321}', '\u{fe0f}'] + signed_decimal(t) + degrees_celsius()
}

/// The wind as the weather service writes it: a wind face, the arrow, then the
/// speed and its unit.
pub open spec fn wind_word(w: Wind) -> Seq<char> {
    seq!['\u{1f32c}', '\u{fe0f}', direction_arrow(w.direction)] + decimal(w.speed_kmh as nat)
        + kmh()
}

/// The report the weather service writes for a weather: condition,
/// temperature and wind, separated by spaces, on a line of its own.
pub open spec fn report_of(w: Weather) -> Seq<char> {
    condition_word(w.condition) + seq![' ', ' '] + temperature_word(w.temperature_c) + seq![' ']
        + wind_word(w.wind) + seq!['\n']
}

proof fn lemma_condition_word(c: Condition)
    ensures
        condition_of(condition_word(c)) == Some(c),
        forall|i: int|
            0 <= i < condition_word(c).len() ==> !is_whitespace(#[trigger] condition_word(c)[i]),
{
    let w = condition_word(c);
    assert forall|x: char| w.contains(x) <==> (x == condition_symbol(c) || x == '\u{fe0f}') by {
        if x == condition_symbol(c) {
            assert(w[0] == x);
        }
        if x == '\u{fe0f}' {
            assert(w[1] == x);
        }
    }
}

proof fn lemma_temperature_word_has_no_whitespace(t: i8)
    ensures
        temperature_word(t).len() > 0,
        forall|i: int|
            0 <= i < temperature_word(t).len() ==> !is_whitespace(#[trigger] temperature_word(t)[i]),
{
    let word = temperature_word(t);
    let n: nat = if t < 0 {
        (-t) as nat
    } else {
        t as nat
    };
    text::lemma_decimal(n);
    let digits = decimal(n);
    text::lemma_digits_not_whitespace(digits);
    assert forall|i: int| 0 <= i < word.len() implies !is_whitespace(#[trigger] word[i]) by {
        if 3 <= i < 3 + digits.len() {
            assert(word[i] == digits[i - 3]);
        }
    }
}

#[verifier::spinoff_prover]
#[verifier::rlimit(40)]
proof fn lemma_temperature_word(t: i8)
    ensures
        temperature_of(temperature_word(t)) == Some(t),
{
    let word = temperature_word(t);
    let n: nat = if t < 0 {
        (-t) as nat
    } else {
        t as nat
    };
    text::lemma_decimal(n);
    let digits = decimal(n);
    assert(text::is_ascii_digit(digits[0]));
    assert(text::is_ascii_digit(digits.last()));
    let unit = degrees_celsius();
    if t < 0 {
        let head = seq!['\u{1f321}', '\u{fe0f}'];
        let number = seq!['-'] + digits;
        assert(word == head + (number + unit));
        text::lemma_count_leading_concat(head, number + unit, temperature_prefix());
        assert(trim_start(word, temperature_prefix()) == number + unit);
        assert(number.last() == digits.last());
        text::lemma_trim_end_once(number, unit);
        text::lemma_i8_of_negative_decimal(n);
    } else {
        let head = seq!['\u{1f321}', '\u{fe0f}', '+'];
        assert(word == head + (digits + unit));
        assert((digits + unit)[0] == digits[0]);
        text::lemma_count_leading_concat(head, digits + unit, temperature_prefix());
        assert(trim_start(word, temperature_prefix()) == digits + unit);
        text::lemma_trim_end_once(digits, unit);
        text::lemma_i8_of_decimal(n);
    }
}

#[verifier::spinoff_prover]
proof fn lemma_wind_word(w: Wind)
    ensures
        wind_of(wind_word(w)) == Some(w),
        wind_word(w).len() > 0,
        forall|i: int| 0 <= i < wind_word(w).len() ==> !is_whitespace(#[trigger] wind_word(w)[i]),
{
    let word = wind_word(w);
    let n = w.speed_kmh as nat;
    text::lemma_decimal(n);
    let digits = decimal(n);
    text::lemma_digits_not_whitespace(digits);
    assert(text::is_ascii_digit(digits.last()));
    let head = seq!['\u{1f32c}', '\u{fe0f}'];
    let tail = seq![direction_arrow(w.direction)] + digits + kmh();
    assert(word == head + tail);
    assert(tail[0] == direction_arrow(w.direction));
    text::lemma_count_leading_concat(head, tail, wind_prefix());
    let t = trim_start(word, wind_prefix());
    assert(t == tail);
    assert(t.drop_first() == digits + kmh());
    text::lemma_trim_end_once(digits, kmh());
    text::lemma_u8_of_decimal(n);
    assert forall|i: int| 0 <= i < word.len() implies !is_whitespace(#[trigger] word[i]) by {
        if 3 <= i < 3 + digits.len() {
            assert(word[i] == digits[i - 3]);
        }
    }
}

/// Reading a report gives back the weather it was written for: condition,
/// temperature and wind.
#[verifier::spinoff_prover]
pub proof fn lemma_report_read_back(w: Weather)
    ensures
        weather_of(report_of(w)) == Some(w),
{
    let c = condition_word(w.condition);
    let t = temperature_word(w.temperature_c);
    let v = wind_word(w.wind);
    lemma_condition_word(w.condition);
    lemma_temperature_word(w.temperature_c);
    lemma_temperature_word_has_no_whitespace(w.temperature_c);
    lemma_wind_word(w.wind);
    let two = seq![' ', ' '];
    let one = seq![' '];
    let end = seq!['\n'];
    let rest1 = two + t + one + v + end;
    let rest2 = one + v + end;
    assert(report_of(w) == Seq::<char>::empty() + c + rest1);
    assert(rest1[0] == ' ');
    text::lemma_next_word(Seq::empty(), c, rest1);
    assert(rest1 == two + t + rest2);
    assert(rest2[0] == ' ');
    text::lemma_next_word(two, t, rest2);
    assert(rest2 == one + v + end);
    text::lemma_next_word(one, v, end);
}

/// A response whose body is a report, in UTF-8, reads back as the weather it
/// was written for.
pub proof fn lemma_response_read_back(w: Weather)
    ensures
        response_result(encode_utf8(report_of(w))) == Ok::<Weather, RequestError>(w),
{
    encode_utf8_valid_utf8(report_of(w));
    encode_utf8_decode_utf8(report_of(w));
    lemma_report_read_back(w);
}

/// The animation of every condition can be drawn.
pub proof fn lemma_condition_animation_drawable(c: Condition)
    ensures
        animation::drawable(condition_animation(c)),
{
    animation::lemma_animations_drawable();
}

/// A thunderstorm, light or heavy, shows the lightning animation at its pace of
/// half a second, never the rain; rain, light or heavy, shows the rain
/// animation; heavy snow falls faster than light snow.
pub proof fn lemma_condition_animation_kinds()
    ensures
        condition_animation(Condition::ThunderyRain) == (500u64, animation::lightning_frames()),
        condition_animation(Condition::ThunderyHeavyRain) == (500u64, animation::lightning_frames()),
        condition_animation(Condition::ThunderyRain).1 != animation::rain_frames(),
        condition_animation(Condition::LightRain) == (500u64, animation::rain_frames()),
        condition_animation(Condition::HeavyRain) == (500u64, animation::rain_frames()),
        condition_animation(Condition::HeavySnow).0 < condition_animation(Condition::LightSnow).0,
        condition_animation(Condition::Sunny).1 == animation::sunshine_frames(),
{
    let l = animation::lightning_frames();
    let r = animation::rain_frames();
    assert(l.len() != r.len());
}

/// The wind always fills the four characters of the display exactly.
pub proof fn lemma_wind_text_fits(w: Wind)
    ensures
        wind_text(w).len() == 4,
{
}

/// Every error of fetching the weather has a four-character code of its own:
/// two different errors never show the same code.
pub proof fn lemma_error_codes_distinct(e1: OutsideTemperatureTaskError, e2: OutsideTemperatureTaskError)
    requires
        e1 != e2,
    ensures
        task_error_code(e1).len() == 4,
        task_error_code(e1) != task_error_code(e2),
{
    reveal_strlit("WE01");
    reveal_strlit("WE02");
    reveal_strlit("WE03");
    reveal_strlit("RE01");
    reveal_strlit("RE02");
    reveal_strlit("RE03");
    reveal_strlit("RE04");
    reveal_strlit("RE05");
    let c1 = task_error_code(e1);
    let c2 = task_error_code(e2);
    if c1 == c2 {
        assert(c1[0] == c2[0]);
        assert(c1[3] == c2[3]);
    }
}

/// How long joining the wifi network may take, in milliseconds.
pub const JOIN_TIMEOUT_MS: u64 = 30_000;

/// How long to wait after a failed join before trying again, in milliseconds.
pub const JOIN_RETRY_DELAY_MS: u64 = 5_000;

/// How long the link may take to come up after joining, in milliseconds.
pub const LINK_TIMEOUT_MS: u64 = 30_000;

/// How long to wait before checking the link again, in milliseconds.
pub const LINK_POLL_DELAY_MS: u64 = 500;

/// How long DHCP may take to configure the network, in milliseconds.
pub const DHCP_TIMEOUT_MS: u64 = 30_000;

/// Where joining the wifi network stands.
#[derive(Clone, Copy, Debug, PartialEq, Eq, Structural)]
pub enum JoinState {
    /// Trying to join, until the clock passes `deadline_ms`.
    Joining { deadline_ms: u64 },
    /// Joined; waiting for the link to come up until the clock passes `deadline_ms`.
    WaitingForLink { deadline_ms: u64 },
    /// The link is up; waiting for DHCP.
    WaitingForDhcp,
    /// Finished, one way or the other.
    Done,
}

/// What happened since the last step of joining.
#[derive(Clone, Copy, Debug)]
pub enum JoinEvent {
    /// A join attempt ended at `now_ms`; `joined` tells whether it succeeded.
    JoinAttempted { joined: bool, now_ms: u64 },
    /// A wait ended at `now_ms`.
    Waited { now_ms: u64 },
    /// The link was checked; `up` tells whether it is up, at `now_ms`.
    LinkChecked { up: bool, now_ms: u64 },
    /// Waiting for DHCP ended; `configured` tells whether it configured the
    /// network in time.
    DhcpFinished { configured: bool },
}

/// What to do next to join the wifi network.
#[derive(Debug)]
pub enum JoinAction {
    /// Try to join the network.
    TryJoin,
    /// Wait this many milliseconds.
    Wait { ms: u64 },
    /// Check whether the link is up.
    CheckLink,
    /// Wait for DHCP at most this many milliseconds.
    WaitForDhcp { timeout_ms: u64 },
    /// Stop: joining succeeded or failed.
    Finish(Result<(), WifiError>),
}

/// The event is one that can follow the state.
pub open spec fn join_event_expected(state: JoinState, event: JoinEvent) -> bool {
    match (state, event) {
        (JoinState::Joining { .. }, JoinEvent::JoinAttempted { joined, now_ms }) => joined
            ==> now_ms <= u64::MAX - LINK_TIMEOUT_MS,
        (JoinState::Joining { .. }, JoinEvent::Waited { .. }) => true,
        (JoinState::WaitingForLink { .. }, JoinEvent::LinkChecked { .. }) => true,
        (JoinState::WaitingForLink { .. }, JoinEvent::Waited { .. }) => true,
        (JoinState::WaitingForDhcp, JoinEvent::DhcpFinished { .. }) => true,
        _ => false,
    }
}

/// The next state of joining and what to do, after `event` in `state`.
pub open spec fn join_transition(state: JoinState, event: JoinEvent) -> (JoinState, JoinAction) {
    match (state, event) {
        (JoinState::Joining { deadline_ms }, JoinEvent::JoinAttempted { joined, now_ms }) => {
            if joined {
                (
                    JoinState::WaitingForLink { deadline_ms: (now_ms + LINK_TIMEOUT_MS) as u64 },
                    JoinAction::CheckLink,
                )
            } else {
                (state, JoinAction::Wait { ms: JOIN_RETRY_DELAY_MS })
            }
        },
        (JoinState::Joining { deadline_ms }, JoinEvent::Waited { now_ms }) => {
            if now_ms > deadline_ms {
                (JoinState::Done, JoinAction::Finish(Err(WifiError::MultipleFailedJoins)))
            } else {
                (state, JoinAction::TryJoin)
            }
        },
        (JoinState::WaitingForLink { deadline_ms }, JoinEvent::LinkChecked { up, now_ms }) => {
            if up {
                (JoinState::WaitingForDhcp, JoinAction::WaitForDhcp { timeout_ms: DHCP_TIMEOUT_MS })
            } else if now_ms > deadline_ms {
                (JoinState::Done, JoinAction::Finish(Err(WifiError::LinkTimeout)))
            } else {
                (state, JoinAction::Wait { ms: LINK_POLL_DELAY_MS })
            }
        },
        (JoinState::WaitingForLink { .. }, JoinEvent::Waited { .. }) => (
            state,
            JoinAction::CheckLink,
        ),
        (JoinState::WaitingForDhcp, JoinEvent::DhcpFinished { configured }) => {
            if configured {
                (JoinState::Done, JoinAction::Finish(Ok(())))
            } else {
                (JoinState::Done, JoinAction::Finish(Err(WifiError::DhcpTimeout)))
            }
        },
        _ => (state, JoinAction::Finish(Err(WifiError::MultipleFailedJoins))),
    }
}

/// Starts joining the wifi network at `now_ms`: joining may go on for
/// `JOIN_TIMEOUT_MS`, and the first thing to do is to try to join.
pub fn start_join(now_ms: u64) -> (r: (JoinState, JoinAction))
    requires
        now_ms <= u64::MAX - JOIN_TIMEOUT_MS,
    ensures
        r.0 == (JoinState::Joining { deadline_ms: (now_ms + JOIN_TIMEOUT_MS) as u64 }),
        r.1 is TryJoin,
{
    (JoinState::Joining { deadline_ms: now_ms + JOIN_TIMEOUT_MS }, JoinAction::TryJoin)
}

/// One step of joining the wifi network: the next state and what to do after
/// `event` in `state`.
pub fn join_step(state: JoinState, event: JoinEvent) -> (r: (JoinState, JoinAction))
    requires
        join_event_expected(state, event),
    ensures
        r == join_transition(state, event),
{
    match (state, event) {
        (JoinState::Joining { deadline_ms }, JoinEvent::JoinAttempted { joined, now_ms }) => {
            if joined {
                (
                    JoinState::WaitingForLink { deadline_ms: now_ms + LINK_TIMEOUT_MS },
                    JoinAction::CheckLink,
                )
            } else {
                (state, JoinAction::Wait { ms: JOIN_RETRY_DELAY_MS })
            }
        },
        (JoinState::Joining { deadline_ms }, JoinEvent::Waited { now_ms }) => {
            if now_ms > deadline_ms {
                (JoinState::Done, JoinAction::Finish(Err(WifiError::MultipleFailedJoins)))
            } else {
                (state, JoinAction::TryJoin)
            }
        },
        (JoinState::WaitingForLink { deadline_ms }, JoinEvent::LinkChecked { up, now_ms }) => {
            if up {
                (JoinState::WaitingForDhcp, JoinAction::WaitForDhcp { timeout_ms: DHCP_TIMEOUT_MS })
            } else if now_ms > deadline_ms {
                (JoinState::Done, JoinAction::Finish(Err(WifiError::LinkTimeout)))
            } else {
                (state, JoinAction::Wait { ms: LINK_POLL_DELAY_MS })
            }
        },
        (JoinState::WaitingForLink { .. }, JoinEvent::Waited { .. }) => (
            state,
            JoinAction::CheckLink,
        ),
        (JoinState::WaitingForDhcp, JoinEvent::DhcpFinished { configured }) => {
            if configured {
                (JoinState::Done, JoinAction::Finish(Ok(())))
            } else {
                (JoinState::Done, JoinAction::Finish(Err(WifiError::DhcpTimeout)))
            }
        },
        _ => (state, JoinAction::Finish(Err(WifiError::MultipleFailedJoins))),
    }
}


/// Once joined at `now_ms`, the link has until `now_ms + LINK_TIMEOUT_MS` to
/// come up.
pub proof fn lemma_joined_link_deadline(deadline_ms: u64, now_ms: u64)
    requires
        now_ms <= u64::MAX - LINK_TIMEOUT_MS,
    ensures
        join_transition(
            JoinState::Joining { deadline_ms },
            JoinEvent::JoinAttempted { joined: true, now_ms },
        ).0 == (JoinState::WaitingForLink { deadline_ms: (now_ms + LINK_TIMEOUT_MS) as u64 }),
{
}

/// Waiting for the link keeps the deadline set when joining succeeded, through
/// every wait and every check of a link that is still down; it gives up with
/// `LinkTimeout` only on a check of a link that is down after the deadline, and
/// goes on to DHCP exactly when the link is up.
pub proof fn lemma_link_respects_deadline(deadline_ms: u64, event: JoinEvent)
    requires
        join_event_expected(JoinState::WaitingForLink { deadline_ms }, event),
    ensures
        ({
            let (next, action) = join_transition(JoinState::WaitingForLink { deadline_ms }, event);
            &&& next matches JoinState::WaitingForLink { deadline_ms: d } ==> d == deadline_ms
            &&& action matches JoinAction::Finish(Err(WifiError::LinkTimeout)) ==> (
            event matches JoinEvent::LinkChecked { up, now_ms } && !up && now_ms > deadline_ms)
            &&& (event matches JoinEvent::LinkChecked { up, now_ms } && !up && now_ms
                <= deadline_ms) ==> next == (JoinState::WaitingForLink { deadline_ms })
            &&& event is Waited ==> next == (JoinState::WaitingForLink { deadline_ms })
            &&& next is WaitingForDhcp <==> (event matches JoinEvent::LinkChecked { up, .. } && up)
        }),
{
}

/// Joining keeps the deadline it started with while it retries, tries again
/// only while the deadline has not passed, and gives up with
/// `MultipleFailedJoins` only once it has.
pub proof fn lemma_join_respects_deadline(deadline_ms: u64, event: JoinEvent)
    requires
        join_event_expected(JoinState::Joining { deadline_ms }, event),
    ensures
        ({
            let (next, action) = join_transition(JoinState::Joining { deadline_ms }, event);
            &&& next matches JoinState::Joining { deadline_ms: d } ==> d == deadline_ms
            &&& action is TryJoin ==> (event matches JoinEvent::Waited { now_ms } && now_ms
                <= deadline_ms)
            &&& action matches JoinAction::Finish(Err(WifiError::MultipleFailedJoins)) ==> (
            event matches JoinEvent::Waited { now_ms } && now_ms > deadline_ms)
        }),
{
}

} // verus!

//! What the display shows from moment to moment, and how bright.
use vstd::prelude::*;

verus! {

/// How long one cycle of temperature, animation and wind lasts, in milliseconds.
pub const CYCLE_MS: u64 = 30_000;

/// How long the temperature shows at the start of each cycle, in milliseconds.
pub const TEMPERATURE_MS: u64 = 20_000;

/// When in each cycle the wind takes over from the animation, in milliseconds.
pub const WIND_FROM_MS: u64 = 25_000;

/// What the display shows.
#[derive(Clone, Copy, Debug, PartialEq, Eq, Structural)]
pub enum Screen {
    /// The code of the error that fetching the weather ended with.
    ErrorCode,
    /// The loading animation: no weather has been fetched yet.
    Loading,
    /// The temperature.
    Temperature,
    /// The animation of the weather condition.
    ConditionAnimation,
    /// The wind.
    Wind,
}

/// What the display shows at `now_ms`: an error, once there is one; the loading
/// animation until there is weather; then, in each thirty-second cycle, the
/// temperature for twenty seconds, the condition's animation for five and the
/// wind for five.
pub open spec fn screen_at(has_error: bool, has_weather: bool, now_ms: u64) -> Screen {
    if has_error {
        Screen::ErrorCode
    } else if !has_weather {
        Screen::Loading
    } else {
        let t = now_ms % CYCLE_MS;
        if t < TEMPERATURE_MS {
            Screen::Temperature
        } else if t < WIND_FROM_MS {
            Screen::ConditionAnimation
        } else {
            Screen::Wind
        }
    }
}

/// What the display shows at `now_ms`, given whether fetching the weather
/// ended with an error and whether weather has been fetched.
pub fn choose_screen(has_error: bool, has_weather: bool, now_ms: u64) -> (r: Screen)
    ensures
        r == screen_at(has_error, has_weather, now_ms),
        has_error ==> r == Screen::ErrorCode,
        !has_error && !has_weather ==> r == Screen::Loading,
{
    if has_error {
        Screen::ErrorCode
    } else if !has_weather {
        Screen::Loading
    } else {
        let t = now_ms % CYCLE_MS;
        if t < TEMPERATURE_MS {
            Screen::Temperature
        } else if t < WIND_FROM_MS {
            Screen::ConditionAnimation
        } else {
            Screen::Wind
        }
    }
}

/// The screen repeats every cycle.
pub proof fn lemma_screen_repeats(has_error: bool, has_weather: bool, now_ms: u64)
    requires
        now_ms + CYCLE_MS <= u64::MAX,
    ensures
        screen_at(has_error, has_weather, now_ms) == screen_at(
            has_error,
            has_weather,
            (now_ms + CYCLE_MS) as u64,
        ),
{
    let x = now_ms as int;
    assert((x + 30000) % 30000 == x % 30000) by (nonlinear_arith);
}

/// An error shows at every moment, whether or not weather is held: it is never
/// replaced by the temperature, an animation or the wind.
pub proof fn lemma_error_always_shows(has_weather: bool, now_ms: u64)
    ensures
        screen_at(true, has_weather, now_ms) == Screen::ErrorCode,
{
}

/// Without an error, the screen shows the error code at no moment; without
/// weather, it shows the loading animation at every moment.
pub proof fn lemma_no_error_screens(has_weather: bool, now_ms: u64)
    ensures
        screen_at(false, has_weather, now_ms) != Screen::ErrorCode,
        !has_weather ==> screen_at(false, has_weather, now_ms) == Screen::Loading,
        has_weather ==> screen_at(false, has_weather, now_ms) != Screen::Loading,
{
}

/// With weather and no error, each cycle shows the temperature for its first
/// twenty seconds, the animation for the next five and the wind for the last
/// five.
pub proof fn lemma_cycle_split(now_ms: u64)
    ensures
        now_ms % 30_000 < 20_000 ==> screen_at(false, true, now_ms) == Screen::Temperature,
        20_000 <= now_ms % 30_000 < 25_000 ==> screen_at(false, true, now_ms)
            == Screen::ConditionAnimation,
        25_000 <= now_ms % 30_000 ==> screen_at(false, true, now_ms) == Screen::Wind,
{
}

/// The display brightness level (0 to 15) that a reading of the 12-bit
/// brightness potentiometer sets.
pub fn brightness_level(raw: u16) -> (r: u8)
    ensures
        r == raw / 256,
{
    (raw / 256) as u8
}

/// The display's dimming command for brightness `level`.
pub fn brightness_command(level: u8) -> (r: u8)
    requires
        level <= 31,
    ensures
        r == 0xE0 + level,
{
    0xE0 + level
}

} // verus!

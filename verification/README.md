# weather_display

The logic of a weather display: a four-character fourteen-segment display that
cycles through the outside temperature, an animation of the weather condition
and the wind, as a weather service reports them.

- `src/` is the library, verified with Verus:
  - `display.rs`: which frame byte and bit light each segment, and rendering
    characters and glyphs into a 17-byte frame;
  - `glyph.rs`: the font, which segments draw each character;
  - `animation.rs`: the animations of the weather conditions and the frames
    they are drawn from;
  - `text.rs`: reading text as Rust's `str` methods and integer parsing do;
  - `weather.rs`: reading the weather service's report, the errors of fetching
    it, how the wind and the condition are shown, and the steps of joining the
    wifi network;
  - `outside_temperature.rs`: reading a temperature-only report;
  - `screen.rs`: what the display shows at each moment, and its brightness;
  - `fixed_capacity.rs`: what the library relies on of `heapless`.
- `tests/` runs the library on concrete values.
- `app/` is the firmware around the library: tasks, wifi, HTTP and the display's
  I2C bus.

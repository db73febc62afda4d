use weather_display::weather::temperature_text;
use weather_display::weather::{
    parse_condition, parse_direction, parse_response, parse_wind, Condition, Direction,
    OutsideTemperatureTaskError, RequestError, Weather, WifiError, Wind,
};

fn weather(body: &str) -> Weather {
    match parse_response(body.as_bytes()) {
        Ok(w) => w,
        Err(e) => panic!("{:?} for {:?}", e, body),
    }
}

#[test]
fn parses_a_sunny_report() {
    let w = weather("\u{2600}\u{fe0f}   +12\u{b0}C \u{1f32c}\u{fe0f}\u{2197}13km/h\n");
    assert_eq!(
        w,
        Weather {
            condition: Condition::Sunny,
            temperature_c: 12,
            wind: Wind { direction: Direction::NorthEast, speed_kmh: 13 },
        }
    );
}

#[test]
fn parses_a_freezing_snowy_report() {
    let w = weather("\u{1f328}  -7\u{b0}C \u{1f32c}\u{fe0f}\u{2190}4km/h");
    assert_eq!(w.condition, Condition::LightSnow);
    assert_eq!(w.temperature_c, -7);
    assert_eq!(w.wind, Wind { direction: Direction::West, speed_kmh: 4 });
}

#[test]
fn parses_extreme_values() {
    let w = weather("\u{26c8} -128\u{b0}C \u{2193}255km/h");
    assert_eq!(w.condition, Condition::ThunderyRain);
    assert_eq!(w.temperature_c, -128);
    assert_eq!(w.wind, Wind { direction: Direction::South, speed_kmh: 255 });
    let w = weather("\u{2601} +127\u{b0}C\u{b0}C \u{2196}0km/hkm/h trailing words");
    assert_eq!(w.condition, Condition::Cloudy);
    assert_eq!(w.temperature_c, 127);
    assert_eq!(w.wind, Wind { direction: Direction::NorthWest, speed_kmh: 0 });
}

#[test]
fn rejects_invalid_utf8() {
    assert!(matches!(parse_response(&[0x2b, 0xff, 0x31]), Err(RequestError::Utf8Error)));
    assert!(matches!(parse_response(&[0xe2, 0x98]), Err(RequestError::Utf8Error)));
}

#[test]
fn rejects_malformed_reports() {
    let bad = [
        "",
        "   \n",
        "\u{2600} +12\u{b0}C",
        "x +12\u{b0}C \u{2197}13km/h",
        "\u{2600} +128\u{b0}C \u{2197}13km/h",
        "\u{2600} 12C \u{2197}13km/h",
        "\u{2600} +12\u{b0}C 13km/h",
        "\u{2600} +12\u{b0}C \u{2197}256km/h",
        "\u{2600} +12\u{b0}C \u{2197}-1km/h",
        "\u{2600} +12\u{b0}C \u{2197}km/h",
        "\u{2600} - \u{2197}1km/h",
    ];
    for b in bad {
        assert!(
            matches!(parse_response(b.as_bytes()), Err(RequestError::ParsingResponse)),
            "{:?}",
            b
        );
    }
}

#[test]
fn each_condition_symbol() {
    let cases = [
        ("\u{26c8}", Condition::ThunderyRain),
        ("\u{1f329}", Condition::ThunderyHeavyRain),
        ("\u{2744}\u{fe0f}", Condition::HeavySnow),
        ("\u{1f328}", Condition::LightSnow),
        ("\u{1f326}", Condition::LightRain),
        ("\u{1f327}", Condition::HeavyRain),
        ("\u{1f32b}", Condition::Fog),
        ("\u{26c5}\u{fe0f}", Condition::PartlyCloudy),
        ("\u{2600}\u{fe0f}", Condition::Sunny),
        ("\u{2601}\u{fe0f}", Condition::Cloudy),
        ("\u{2728}", Condition::Unknown),
    ];
    for (s, c) in cases {
        assert_eq!(parse_condition(s).ok(), Some(c));
    }
    assert!(matches!(parse_condition("rain"), Err(RequestError::ParsingResponse)));
    // the earlier symbol in the list wins
    assert_eq!(parse_condition("\u{2601}\u{26c8}").ok(), Some(Condition::ThunderyRain));
}

#[test]
fn each_wind_arrow() {
    let cases = [
        ('\u{2191}', Direction::North),
        ('\u{2197}', Direction::NorthEast),
        ('\u{2192}', Direction::East),
        ('\u{2198}', Direction::SouthEast),
        ('\u{2193}', Direction::South),
        ('\u{2199}', Direction::SouthWest),
        ('\u{2190}', Direction::West),
        ('\u{2196}', Direction::NorthWest),
    ];
    for (a, d) in cases {
        assert_eq!(parse_direction(a).ok(), Some(d));
    }
    assert!(matches!(parse_direction('N'), Err(RequestError::ParsingResponse)));
}

#[test]
fn wind_tokens() {
    assert_eq!(
        parse_wind("\u{1f32c}\u{fe0f}\u{2192}21km/h").ok(),
        Some(Wind { direction: Direction::East, speed_kmh: 21 })
    );
    assert_eq!(
        parse_wind("\u{2198}+7").ok(),
        Some(Wind { direction: Direction::SouthEast, speed_kmh: 7 })
    );
    // a digit before the arrow stops the prefix: no arrow is found
    assert!(parse_wind("5\u{2192}21km/h").is_err());
    assert!(parse_wind("wind").is_err());
    assert!(parse_wind("\u{2192}21 km/h").is_err());
}

#[test]
fn direction_and_wind_text() {
    assert_eq!(Direction::North.to_string(), " N");
    assert_eq!(Direction::NorthEast.to_string(), "NE");
    assert_eq!(Direction::SouthWest.to_string(), "SW");
    assert_eq!(Direction::West.to_string(), " W");
    assert_eq!(Wind { direction: Direction::North, speed_kmh: 5 }.to_string(), " 5 N");
    assert_eq!(Wind { direction: Direction::SouthEast, speed_kmh: 42 }.to_string(), "42SE");
    assert_eq!(Wind { direction: Direction::East, speed_kmh: 0 }.to_string(), " 0 E");
    assert_eq!(Wind { direction: Direction::NorthWest, speed_kmh: 99 }.to_string(), "99NW");
    assert_eq!(Wind { direction: Direction::South, speed_kmh: 200 }.to_string(), "99 S");
}

#[test]
fn condition_names() {
    assert_eq!(Condition::Unknown.to_string(), "Unknown");
    assert_eq!(Condition::PartlyCloudy.to_string(), "Partly Cloudy");
    assert_eq!(Condition::ThunderyHeavyRain.to_string(), "Thundery Heavy Rain");
    assert_eq!(Condition::LightSnow.to_string(), "Light Snow");
}

#[test]
fn condition_animations() {
    assert_eq!(Condition::Sunny.animation().duration, 750);
    assert_eq!(Condition::Sunny.animation().frames.len(), 5);
    assert_eq!(Condition::HeavySnow.animation().duration, 150);
    assert_eq!(Condition::LightSnow.animation().duration, 250);
    assert_eq!(Condition::ThunderyHeavyRain.animation().frames.len(), 9);
    assert_eq!(Condition::Unknown.animation().frames.len(), 8);
    assert_eq!(Condition::Fog.animation().duration, 2500);
}

#[test]
fn error_codes() {
    assert_eq!(WifiError::MultipleFailedJoins.code(), "WE01");
    assert_eq!(WifiError::LinkTimeout.code(), "WE02");
    assert_eq!(WifiError::DhcpTimeout.code(), "WE03");
    assert_eq!(RequestError::Request.code(), "RE01");
    assert_eq!(RequestError::Send.code(), "RE02");
    assert_eq!(RequestError::ReadingResponse.code(), "RE03");
    assert_eq!(RequestError::Utf8Error.code(), "RE04");
    assert_eq!(RequestError::ParsingResponse.code(), "RE05");
    assert_eq!(OutsideTemperatureTaskError::from(WifiError::LinkTimeout).code(), "WE02");
    assert_eq!(OutsideTemperatureTaskError::from(RequestError::Send).code(), "RE02");
    assert!(matches!(
        OutsideTemperatureTaskError::from(RequestError::Utf8Error),
        OutsideTemperatureTaskError::Request(RequestError::Utf8Error)
    ));
}

fn symbol(c: Condition) -> char {
    match c {
        Condition::ThunderyRain => '\u{26c8}',
        Condition::ThunderyHeavyRain => '\u{1f329}',
        Condition::HeavySnow => '\u{2744}',
        Condition::LightSnow => '\u{1f328}',
        Condition::LightRain => '\u{1f326}',
        Condition::HeavyRain => '\u{1f327}',
        Condition::Fog => '\u{1f32b}',
        Condition::PartlyCloudy => '\u{26c5}',
        Condition::Sunny => '\u{2600}',
        Condition::Cloudy => '\u{2601}',
        Condition::Unknown => '\u{2728}',
    }
}

fn arrow(d: Direction) -> char {
    match d {
        Direction::North => '\u{2191}',
        Direction::NorthEast => '\u{2197}',
        Direction::East => '\u{2192}',
        Direction::SouthEast => '\u{2198}',
        Direction::South => '\u{2193}',
        Direction::SouthWest => '\u{2199}',
        Direction::West => '\u{2190}',
        Direction::NorthWest => '\u{2196}',
    }
}

#[test]
fn reports_read_back_as_the_weather_they_describe() {
    let conditions = [
        Condition::Unknown,
        Condition::Sunny,
        Condition::Cloudy,
        Condition::PartlyCloudy,
        Condition::Fog,
        Condition::LightRain,
        Condition::HeavyRain,
        Condition::LightSnow,
        Condition::HeavySnow,
        Condition::ThunderyRain,
        Condition::ThunderyHeavyRain,
    ];
    let directions = [
        Direction::North,
        Direction::NorthEast,
        Direction::East,
        Direction::SouthEast,
        Direction::South,
        Direction::SouthWest,
        Direction::West,
        Direction::NorthWest,
    ];
    for (i, c) in conditions.iter().enumerate() {
        for (j, d) in directions.iter().enumerate() {
            for t in [-128i8, -40, -1, 0, 1, 9, 10, 37, 127] {
                let speed = ((i * 31 + j * 17 + t as usize) % 256) as u8;
                let report = format!(
                    "{}\u{fe0f}  \u{1f321}\u{fe0f}{:+}\u{b0}C \u{1f32c}\u{fe0f}{}{}km/h\n",
                    symbol(*c),
                    t,
                    arrow(*d),
                    speed
                );
                let expected = Weather {
                    condition: *c,
                    temperature_c: t,
                    wind: Wind { direction: *d, speed_kmh: speed },
                };
                assert_eq!(weather(&report), expected, "{:?}", report);
            }
        }
    }
}

#[test]
fn wind_text_always_has_four_characters() {
    for speed in 0..=255u8 {
        for d in [Direction::North, Direction::SouthWest] {
            assert_eq!(Wind { direction: d, speed_kmh: speed }.to_string().chars().count(), 4);
        }
    }
}

#[test]
fn error_codes_are_distinct() {
    let codes = [
        OutsideTemperatureTaskError::Wifi(WifiError::MultipleFailedJoins).code(),
        OutsideTemperatureTaskError::Wifi(WifiError::LinkTimeout).code(),
        OutsideTemperatureTaskError::Wifi(WifiError::DhcpTimeout).code(),
        OutsideTemperatureTaskError::Request(RequestError::Request).code(),
        OutsideTemperatureTaskError::Request(RequestError::Send).code(),
        OutsideTemperatureTaskError::Request(RequestError::ReadingResponse).code(),
        OutsideTemperatureTaskError::Request(RequestError::Utf8Error).code(),
        OutsideTemperatureTaskError::Request(RequestError::ParsingResponse).code(),
    ];
    for (i, a) in codes.iter().enumerate() {
        assert_eq!(a.len(), 4);
        for (j, b) in codes.iter().enumerate() {
            assert_eq!(i == j, a == b);
        }
    }
}

#[test]
fn temperature_text_fills_four_characters() {
    assert_eq!(temperature_text(5), "  5C");
    assert_eq!(temperature_text(-5), " -5C");
    assert_eq!(temperature_text(12), " 12C");
    assert_eq!(temperature_text(-12), "-12C");
    assert_eq!(temperature_text(0), "  0C");
    assert_eq!(temperature_text(127), "127C");
    assert_eq!(temperature_text(-100), "-100");
    assert_eq!(temperature_text(-128), "-128");
    for t in i8::MIN..=i8::MAX {
        let expected = if t >= -99 { format!("{:>3}C", t) } else { format!("{}", t) };
        assert_eq!(temperature_text(t), expected);
        assert_eq!(temperature_text(t).chars().count(), 4);
    }
}

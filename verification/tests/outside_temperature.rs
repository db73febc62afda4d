use weather_display::outside_temperature::{
    parse_response, OutsideTemperatureTaskError, RequestError, WifiError,
};

#[test]
fn reads_the_temperature() {
    assert_eq!(parse_response("+5\u{b0}C\n".as_bytes()).ok(), Some(5));
    assert_eq!(parse_response("  -12\u{b0}C  ".as_bytes()).ok(), Some(-12));
    assert_eq!(parse_response("++0\u{b0}C\u{b0}C".as_bytes()).ok(), Some(0));
    assert_eq!(parse_response("127".as_bytes()).ok(), Some(127));
    assert_eq!(parse_response("-128\u{b0}C".as_bytes()).ok(), Some(-128));
}

#[test]
fn keeps_the_text_that_is_no_temperature() {
    match parse_response("  +warm\u{b0}C \n".as_bytes()) {
        Err(RequestError::ParsingResponse(text)) => assert_eq!(text.as_str(), "warm"),
        other => panic!("unexpected {:?}", other),
    }
    match parse_response("+128\u{b0}C".as_bytes()) {
        Err(RequestError::ParsingResponse(text)) => assert_eq!(text.as_str(), "128"),
        other => panic!("unexpected {:?}", other),
    }
    match parse_response("".as_bytes()) {
        Err(RequestError::ParsingResponse(text)) => assert_eq!(text.as_str(), ""),
        other => panic!("unexpected {:?}", other),
    }
}

#[test]
fn drops_text_longer_than_sixty_four_bytes() {
    let fits = "a".repeat(64);
    match parse_response(fits.as_bytes()) {
        Err(RequestError::ParsingResponse(text)) => assert_eq!(text.as_str(), fits),
        other => panic!("unexpected {:?}", other),
    }
    let long = "a".repeat(65);
    match parse_response(long.as_bytes()) {
        Err(RequestError::ParsingResponse(text)) => assert_eq!(text.as_str(), ""),
        other => panic!("unexpected {:?}", other),
    }
    // 33 two-byte characters make 66 bytes
    let wide = "\u{e9}".repeat(33);
    match parse_response(wide.as_bytes()) {
        Err(RequestError::ParsingResponse(text)) => assert_eq!(text.as_str(), ""),
        other => panic!("unexpected {:?}", other),
    }
}

#[test]
fn rejects_invalid_utf8_temperature() {
    assert!(matches!(parse_response(&[0x35, 0xc0]), Err(RequestError::Utf8Error)));
}

#[test]
fn temperature_task_error_codes() {
    assert_eq!(WifiError::MultipleFailedJoins.code(), "WE01");
    assert_eq!(WifiError::LinkTimeout.code(), "WE02");
    assert_eq!(WifiError::DhcpTimeout.code(), "WE03");
    assert_eq!(RequestError::Request.code(), "RE01");
    assert_eq!(RequestError::Send.code(), "RE02");
    assert_eq!(RequestError::ReadingResponse.code(), "RE03");
    assert_eq!(RequestError::Utf8Error.code(), "RE04");
    let text: heapless::String<64> = heapless::String::try_from("x").unwrap_or_default();
    assert_eq!(RequestError::ParsingResponse(text).code(), "RE05");
    assert_eq!(OutsideTemperatureTaskError::from(WifiError::DhcpTimeout).code(), "WE03");
    assert_eq!(OutsideTemperatureTaskError::from(RequestError::ReadingResponse).code(), "RE03");
}

#[test]
fn every_temperature_reads_back() {
    for t in i8::MIN..=i8::MAX {
        let body = format!("{:+}\u{b0}C\n", t);
        assert_eq!(parse_response(body.as_bytes()).ok(), Some(t), "{:?}", body);
    }
}

use civet::status::{band, Band, StatusCode, ToStatusCode};

#[test]
fn named_codes_have_canonical_pairs() {
    assert_eq!(StatusCode::Continue.to_code(), (100, "Continue"));
    assert_eq!(StatusCode::SwitchingProtocols.to_code(), (101, "Switching Protocols"));
    assert_eq!(StatusCode::OK.to_code(), (200, "OK"));
    assert_eq!(StatusCode::NoContent.to_code(), (204, "No Content"));
    assert_eq!(StatusCode::MovedPermanently.to_code(), (301, "Moved Permanently"));
    assert_eq!(StatusCode::PaymentRequired.to_code(), (402, "Payment Required"));
    assert_eq!(StatusCode::NotFound.to_code(), (404, "Not Found"));
    assert_eq!(StatusCode::RequestUriTooLong.to_code(), (414, "Request-URI Too Long"));
    assert_eq!(StatusCode::InternalServerError.to_code(), (500, "Internal Server Error"));
    assert_eq!(StatusCode::HttpVersionNotSupported.to_code(), (505, "HTTP Version Not Supported"));
}

#[test]
fn payload_variants_pass_through() {
    assert_eq!(StatusCode::Informational(150, "Informational").to_code(), (150, "Informational"));
    assert_eq!(StatusCode::Other(999, "Whatever").to_code(), (999, "Whatever"));
}

#[test]
fn numeric_conversion_rejects_out_of_range() {
    assert!(0u16.to_status().is_err());
    assert!(99u16.to_status().is_err());
    assert!(600u16.to_status().is_err());
    assert!(65535u16.to_status().is_err());
    assert!((-1i32).to_status().is_err());
    assert!(1000i32.to_status().is_err());
    assert!(().to_status().is_err());
}

#[test]
fn numeric_conversion_accepts_all_valid_codes() {
    for code in 100u16..=599 {
        assert!(code.to_status().is_ok(), "code {} should convert", code);
        let (back, reason) = code.to_status().unwrap().to_code();
        assert_eq!(back, code);
        assert!(!reason.is_empty());
    }
}

#[test]
fn unnamed_codes_fall_back_to_band_reasons() {
    assert_eq!(102u16.to_status().unwrap().to_code(), (102, "Informational"));
    assert_eq!(226u16.to_status().unwrap().to_code(), (226, "Successful"));
    assert_eq!(306u16.to_status().unwrap().to_code(), (306, "Redirection"));
    assert_eq!(418u16.to_status().unwrap().to_code(), (418, "Client Error"));
    assert_eq!(599u16.to_status().unwrap().to_code(), (599, "Server Error"));
}

#[test]
fn tuple_and_status_conversions_pass_through() {
    let s = (999u16, "Whatever").to_status().unwrap();
    assert_eq!(s.to_code(), (999, "Whatever"));
    let t = StatusCode::NotFound.to_status().unwrap();
    assert_eq!(t.to_code(), (404, "Not Found"));
}

#[test]
fn named_round_trip() {
    let named: [(u16, &str); 40] = [
        (100, "Continue"),
        (101, "Switching Protocols"),
        (200, "OK"),
        (201, "Created"),
        (202, "Accepted"),
        (203, "Non-Authoritative Information"),
        (204, "No Content"),
        (205, "Reset Content"),
        (206, "Partial Content"),
        (300, "Multiple Choices"),
        (301, "Moved Permanently"),
        (302, "Found"),
        (303, "See Other"),
        (304, "Not Modified"),
        (305, "Use Proxy"),
        (307, "Temporary Redirect"),
        (400, "Bad Request"),
        (401, "Unauthorized"),
        (402, "Payment Required"),
        (403, "Forbidden"),
        (404, "Not Found"),
        (405, "Method Not Allowed"),
        (406, "Not Acceptable"),
        (407, "Proxy Authentication Required"),
        (408, "Request Timeout"),
        (409, "Conflict"),
        (410, "Gone"),
        (411, "Length Required"),
        (412, "Precondition Failed"),
        (413, "Request Entity Too Large"),
        (414, "Request-URI Too Long"),
        (415, "Unsupported Media Type"),
        (416, "Requested Range Not Satisfiable"),
        (417, "Expectation Failed"),
        (500, "Internal Server Error"),
        (501, "Not Implemented"),
        (502, "Bad Gateway"),
        (503, "Service Unavailable"),
        (504, "Gateway Timeout"),
        (505, "HTTP Version Not Supported"),
    ];
    for (code, reason) in named {
        let status = code.to_status().unwrap();
        assert_eq!(status.to_code(), (code, reason));
    }
}

#[test]
fn band_partitions_valid_codes() {
    for code in 100u16..=599 {
        let b = band(code).expect("valid code must have a band");
        let expected = match code / 100 {
            1 => Band::Informational,
            2 => Band::Successful,
            3 => Band::Redirection,
            4 => Band::ClientError,
            _ => Band::ServerError,
        };
        assert_eq!(b, expected);
    }
}

#[test]
fn band_rejects_out_of_range() {
    assert!(band(0).is_err());
    assert!(band(99).is_err());
    assert!(band(600).is_err());
    assert!(band(65535).is_err());
}

#[test]
fn band_is_stable_under_repeated_calls() {
    for code in [100u16, 204, 302, 418, 503] {
        assert_eq!(band(code), band(code));
        assert_eq!(band(code), band(code));
    }
}

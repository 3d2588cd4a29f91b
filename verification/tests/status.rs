use slovo::status::HttpStatus;

#[test]
fn status_accepts_three_digit_codes_only() {
    assert!(HttpStatus::from_u16(0).is_none());
    assert!(HttpStatus::from_u16(99).is_none());
    assert!(HttpStatus::from_u16(100).is_some());
    assert!(HttpStatus::from_u16(999).is_some());
    assert!(HttpStatus::from_u16(1000).is_none());
    assert!(HttpStatus::from_u16(u16::MAX).is_none());
}

#[test]
fn status_keeps_its_code() {
    assert_eq!(HttpStatus::from_u16(204).unwrap().as_u16(), 204);
    assert_eq!(HttpStatus::from_u16(503).unwrap().as_u16(), 503);
}

#[test]
fn status_success_is_the_2xx_class() {
    let expect = [
        (100u16, false),
        (199, false),
        (200, true),
        (204, true),
        (299, true),
        (300, false),
        (404, false),
        (500, false),
        (999, false),
    ];
    for (code, success) in expect {
        assert_eq!(HttpStatus::from_u16(code).unwrap().is_success(), success, "code {}", code);
    }
}

#[test]
fn status_prints_code_and_reason() {
    assert_eq!(HttpStatus::from_u16(200).unwrap().to_string(), "200 OK");
    assert_eq!(HttpStatus::from_u16(404).unwrap().to_string(), "404 Not Found");
    assert_eq!(HttpStatus::from_u16(500).unwrap().to_string(), "500 Internal Server Error");
    assert_eq!(HttpStatus::from_u16(503).unwrap().to_string(), "503 Service Unavailable");
}

#[test]
fn status_without_reason_still_opens_with_its_code() {
    let line = HttpStatus::from_u16(799).unwrap().to_string();
    assert_eq!(line, "799 <unknown status code>");
    assert!(line.starts_with("799 "));
}

#[test]
fn status_line_opens_with_code_for_every_code() {
    for code in 100u16..=999 {
        let line = HttpStatus::from_u16(code).unwrap().to_string();
        assert!(line.len() > 4, "code {}", code);
        assert!(line.starts_with(&format!("{} ", code)), "code {}", code);
    }
}

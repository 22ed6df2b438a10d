use fc_core::script::{parse_press, parse_presses, scripted_buttons, InputPress, PressError};

#[test]
fn parses_frame_duration_and_buttons() {
    let p = parse_press("60:4:start").unwrap();
    assert_eq!(p, InputPress { start: 60, end: 64, buttons: 0x08 });
    let p = parse_press("+10:5: a + B ,Right").unwrap();
    assert_eq!(p, InputPress { start: 10, end: 15, buttons: 0x01 | 0x02 | 0x80 });
}

#[test]
fn end_saturates() {
    let p = parse_press("18446744073709551615:5:a").unwrap();
    assert_eq!(p.end, u64::MAX);
}

#[test]
fn refusals_name_their_cause() {
    assert!(matches!(parse_press("x:1:a"), Err(PressError::BadNumber)));
    assert!(matches!(parse_press("18446744073709551616:1:a"), Err(PressError::BadNumber)));
    assert!(matches!(parse_press("5"), Err(PressError::MissingDuration)));
    assert!(matches!(parse_press("5:-1:a"), Err(PressError::BadNumber)));
    assert!(matches!(parse_press("5:1"), Err(PressError::MissingButtons)));
    assert!(matches!(parse_press("5:1:a:b"), Err(PressError::TooManyFields)));
    match parse_press("5:1:a+jump") {
        Err(PressError::UnknownButton(n)) => assert_eq!(n, "jump"),
        _ => panic!("expected an unknown button"),
    }
    match parse_press("5:1:") {
        Err(PressError::UnknownButton(n)) => assert_eq!(n, ""),
        _ => panic!("expected an unknown button"),
    }
}

#[test]
fn first_bad_spec_is_reported() {
    let specs = vec!["1:1:a".to_string(), "2:x:b".to_string(), "3:1:nope".to_string()];
    match parse_presses(&specs) {
        Err((1, PressError::BadNumber)) => {}
        _ => panic!("expected the second spec to fail"),
    }
    let good = vec!["1:2:a".to_string(), "2:2:b".to_string()];
    assert_eq!(parse_presses(&good).unwrap().len(), 2);
}

#[test]
fn scripted_buttons_merge_autostart_and_presses() {
    let presses = vec![InputPress { start: 1, end: 3, buttons: 0x01 }, InputPress { start: 2, end: 5, buttons: 0x02 }];
    assert_eq!(scripted_buttons(0, false, &presses), 0);
    assert_eq!(scripted_buttons(2, false, &presses), 0x03);
    assert_eq!(scripted_buttons(4, false, &presses), 0x02);
    assert_eq!(scripted_buttons(61, true, &presses), 0x08);
    assert_eq!(scripted_buttons(95, true, &presses), 0x80);
    assert_eq!(scripted_buttons(70, true, &presses), 0);
}

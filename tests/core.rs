use plane_analyzer::{
    calibration_fields, frame_text, outputs, parameter_key, parse_baud, plan_tick, reading_sum,
    CalibrationError, ConfigError, Output, PayloadError, Quantity, ReadOutcome, TickAction,
    FILTERED_CHANNEL, MEAN_ENTRY, NODE_NAME, SCORE_CHANNEL, TERMINATOR_LEN, VARIANCE_ENTRY,
};

fn rows(cells: &[&[&str]]) -> Vec<Vec<String>> {
    cells
        .iter()
        .map(|row| row.iter().map(|f| f.to_string()).collect())
        .collect()
}

#[test]
fn frame_yields_sample_text() {
    let text = frame_text(b"12.5\r\n").unwrap();
    assert_eq!(text, "12.5");
    assert_eq!(text.parse::<f64>().unwrap(), 12.5);
}

#[test]
fn frame_strips_any_two_terminator_bytes() {
    assert_eq!(frame_text(b"-3.25\n\0").unwrap(), "-3.25");
    assert_eq!(frame_text(b"7xy").unwrap(), "7");
    assert_eq!(TERMINATOR_LEN, 2);
}

#[test]
fn frame_of_terminator_alone_is_too_short() {
    assert_eq!(frame_text(b"\r\n"), Err(PayloadError::TooShort));
    assert_eq!(frame_text(b"5"), Err(PayloadError::TooShort));
    assert_eq!(frame_text(b""), Err(PayloadError::TooShort));
}

#[test]
fn frame_with_invalid_utf8_is_not_text() {
    assert_eq!(frame_text(&[0xff, 0xfe, b'\r', b'\n']), Err(PayloadError::NotText));
    assert_eq!(frame_text(&[b'1', 0xc3, b'\r', b'\n']), Err(PayloadError::NotText));
}

#[test]
fn frame_keeps_multibyte_text() {
    assert_eq!(frame_text("é1\r\n".as_bytes()).unwrap(), "é1");
}

#[test]
fn non_numeric_frame_text_is_left_to_the_number_parse() {
    let text = frame_text(b"abc\r\n").unwrap();
    assert_eq!(text, "abc");
    assert!(text.parse::<f64>().is_err());
}

#[test]
fn timeout_tick_is_idle() {
    assert_eq!(plan_tick(&ReadOutcome::TimedOut), TickAction::Idle);
}

#[test]
fn empty_read_tick_is_idle() {
    assert_eq!(plan_tick(&ReadOutcome::Received(Vec::new())), TickAction::Idle);
}

#[test]
fn failed_read_tick_reports() {
    assert_eq!(plan_tick(&ReadOutcome::Failed), TickAction::ReportFailure);
}

#[test]
fn received_frame_tick_applies_sample() {
    let outcome = ReadOutcome::Received(b"10.0\r\n".to_vec());
    assert_eq!(plan_tick(&outcome), TickAction::Apply("10.0".to_string()));
}

#[test]
fn short_frame_tick_is_malformed() {
    let outcome = ReadOutcome::Received(b"\r\n".to_vec());
    assert_eq!(plan_tick(&outcome), TickAction::ReportMalformed(PayloadError::TooShort));
    let outcome = ReadOutcome::Received(vec![0x80, 0x80, b'\r', b'\n']);
    assert_eq!(plan_tick(&outcome), TickAction::ReportMalformed(PayloadError::NotText));
}

#[test]
fn calibration_rows_give_variance_then_mean() {
    let c = calibration_fields(&rows(&[&["2.0"], &["10.0"]])).unwrap();
    assert_eq!(c.variance, "2.0");
    assert_eq!(c.mean, "10.0");
    assert_eq!(c.variance.parse::<f64>().unwrap(), 2.0);
    assert_eq!(c.mean.parse::<f64>().unwrap(), 10.0);
}

#[test]
fn calibration_negative_variance_is_refused() {
    assert_eq!(
        calibration_fields(&rows(&[&["-1.0"], &["5.0"]])),
        Err(CalibrationError::NonPositiveVariance)
    );
}

#[test]
fn calibration_zero_variance_is_refused() {
    for zero in ["0", "0.0", "+0.", ".0", "-0", "000.000", "+0"] {
        assert_eq!(
            calibration_fields(&rows(&[&[zero], &["5.0"]])),
            Err(CalibrationError::NonPositiveVariance),
            "{zero:?}"
        );
    }
}

#[test]
fn calibration_positive_or_unclear_variance_is_passed_on() {
    for text in ["0.5", "00.01", "+2", "0..0", ".", "+", "", "0e0"] {
        let c = calibration_fields(&rows(&[&[text], &["-5.0"]])).unwrap();
        assert_eq!(c.variance, text);
        assert_eq!(c.mean, "-5.0");
    }
}

#[test]
fn calibration_ignores_further_rows_and_fields() {
    let c = calibration_fields(&rows(&[&["4.0", "x"], &["1.5", "y"], &[], &["z"]])).unwrap();
    assert_eq!(c.variance, "4.0");
    assert_eq!(c.mean, "1.5");
}

#[test]
fn calibration_with_one_row_is_too_short() {
    assert_eq!(calibration_fields(&rows(&[&["2.0"]])), Err(CalibrationError::TooFewRows));
    assert_eq!(calibration_fields(&rows(&[])), Err(CalibrationError::TooFewRows));
}

#[test]
fn calibration_with_empty_row_misses_field() {
    assert_eq!(
        calibration_fields(&rows(&[&[], &["1.0"]])),
        Err(CalibrationError::MissingField(0))
    );
    assert_eq!(
        calibration_fields(&rows(&[&["1.0"], &[]])),
        Err(CalibrationError::MissingField(1))
    );
}

#[test]
fn baud_rates_parse() {
    assert_eq!(parse_baud("9600"), Ok(9600));
    assert_eq!(parse_baud("+115200"), Ok(115200));
    assert_eq!(parse_baud("0009600"), Ok(9600));
    assert_eq!(parse_baud("0"), Ok(0));
    assert_eq!(parse_baud("4294967295"), Ok(u32::MAX));
}

#[test]
fn bad_baud_rates_are_refused() {
    for text in ["", "+", "-1", "96a0", " 9600", "9600 ", "4294967296", "99999999999", "++1"] {
        assert_eq!(parse_baud(text), Err(ConfigError::InvalidBaudRate), "{text:?}");
    }
}

#[test]
fn baud_parse_agrees_with_std() {
    for text in ["1", "+0", "57600", "4294967295", "4294967296", "12x", "", "+", "-0"] {
        assert_eq!(parse_baud(text).ok(), text.parse::<u32>().ok(), "{text:?}");
    }
}

#[test]
fn outputs_publish_filtered_then_score() {
    let all = outputs(true);
    assert_eq!(
        all,
        vec![
            Output { channel: "sensor_filter".to_string(), quantity: Quantity::Filtered },
            Output { channel: "plane_probability".to_string(), quantity: Quantity::Score },
        ]
    );
    assert_eq!(FILTERED_CHANNEL, "sensor_filter");
    assert_eq!(SCORE_CHANNEL, "plane_probability");
}

#[test]
fn outputs_without_filtered_publish_score_only() {
    assert_eq!(
        outputs(false),
        vec![Output { channel: "plane_probability".to_string(), quantity: Quantity::Score }]
    );
}

#[test]
fn parameter_keys_name_node_and_entry() {
    assert_eq!(parameter_key(NODE_NAME, VARIANCE_ENTRY), "/plane_analyzer_node/variance");
    assert_eq!(parameter_key(NODE_NAME, MEAN_ENTRY), "/plane_analyzer_node/average");
    assert_eq!(parameter_key("", ""), "//");
}

#[test]
fn reading_sums_are_exact() {
    assert_eq!(reading_sum(&vec![1, 2, 3]), 6);
    assert_eq!(reading_sum(&vec![]), 0);
    assert_eq!(reading_sum(&vec![i32::MAX, i32::MAX]), 4294967294);
    assert_eq!(reading_sum(&vec![i32::MIN, -1]), -2147483649);
}

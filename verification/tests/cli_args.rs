use blocktime::extract_timestamp;
use blocktime::parse_timestamp;
use blocktime::ArgError;

fn argv(parts: &[&str]) -> Vec<String> {
    parts.iter().map(|p| p.to_string()).collect()
}

#[test]
fn test_timestamp() {
    let args = argv(&["test", "--timestamp", "1234567890"]);
    assert_eq!(extract_timestamp(&args).unwrap(), 1234567890);
    let args = argv(&["test", "-t", "1234567890"]);
    assert_eq!(extract_timestamp(&args).unwrap(), 1234567890);
}

#[test]
fn short_and_long_flags_agree_on_same_value() {
    let short = extract_timestamp(&argv(&["prog", "-t", "98765"]));
    let long = extract_timestamp(&argv(&["prog", "--timestamp", "98765"]));
    assert_eq!(short, long);
    assert_eq!(short, Ok(98765));
}

#[test]
fn missing_arguments_are_a_usage_error() {
    assert_eq!(extract_timestamp(&argv(&["prog"])), Err(ArgError::Usage));
    assert_eq!(extract_timestamp(&argv(&["prog", "-t"])), Err(ArgError::Usage));
    assert_eq!(extract_timestamp(&argv(&[])), Err(ArgError::Usage));
}

#[test]
fn unknown_flag_is_a_usage_error() {
    let args = argv(&["prog", "--stamp", "123"]);
    assert_eq!(extract_timestamp(&args), Err(ArgError::Usage));
    let args = argv(&["prog", "-T", "123"]);
    assert_eq!(extract_timestamp(&args), Err(ArgError::Usage));
}

#[test]
fn extra_arguments_are_a_usage_error() {
    let args = argv(&["prog", "-t", "123", "456"]);
    assert_eq!(extract_timestamp(&args), Err(ArgError::Usage));
}

#[test]
fn non_numeric_value_is_invalid() {
    let args = argv(&["prog", "--timestamp", "soon"]);
    assert_eq!(extract_timestamp(&args), Err(ArgError::InvalidTimestamp));
    assert_eq!(parse_timestamp("12a4"), Err(ArgError::InvalidTimestamp));
    assert_eq!(parse_timestamp(""), Err(ArgError::InvalidTimestamp));
    assert_eq!(parse_timestamp("-5"), Err(ArgError::InvalidTimestamp));
    assert_eq!(parse_timestamp("+5"), Err(ArgError::InvalidTimestamp));
    assert_eq!(parse_timestamp("1 2"), Err(ArgError::InvalidTimestamp));
}

#[test]
fn parse_accepts_plain_decimals() {
    assert_eq!(parse_timestamp("0"), Ok(0));
    assert_eq!(parse_timestamp("007"), Ok(7));
    assert_eq!(parse_timestamp("1234567890"), Ok(1234567890));
}

#[test]
fn parse_bounds_at_machine_word() {
    let max = format!("{}", usize::MAX);
    assert_eq!(parse_timestamp(&max), Ok(usize::MAX));
    let too_big = format!("{}", usize::MAX as u128 + 1);
    assert_eq!(parse_timestamp(&too_big), Err(ArgError::InvalidTimestamp));
}

#[test]
fn arg_error_messages_name_the_cause() {
    assert_eq!(
        ArgError::Usage.message(),
        "usage: pass -t or --timestamp followed by a unix timestamp"
    );
    assert_eq!(
        ArgError::InvalidTimestamp.message(),
        "the timestamp must be a decimal integer no larger than usize::MAX"
    );
}

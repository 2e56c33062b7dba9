use pomodoro::alert::{choose_alert_source, decode_action, AlertAction, AlertSource};

#[test]
fn custom_file_wins_over_built_in() {
    assert_eq!(choose_alert_source(true), AlertSource::Custom);
    assert_eq!(choose_alert_source(false), AlertSource::BuiltIn);
}

#[test]
fn successful_decode_plays_whatever_the_source() {
    assert_eq!(decode_action(AlertSource::Custom, true), AlertAction::Play);
    assert_eq!(decode_action(AlertSource::BuiltIn, true), AlertAction::Play);
}

#[test]
fn failed_built_in_decode_falls_back_to_the_bell() {
    assert_eq!(decode_action(AlertSource::BuiltIn, false), AlertAction::RingBell);
}

#[test]
fn failed_custom_decode_propagates_the_error() {
    assert_eq!(decode_action(AlertSource::Custom, false), AlertAction::PropagateError);
}

use hyprsunset_overdrive::command::{append_decimal, FilterCommand, Message};
use hyprsunset_overdrive::phase::ParOfDay;

#[test]
fn daytime_turns_the_filter_off() {
    assert_eq!(
        FilterCommand::for_part(ParOfDay::Daytime, 3000),
        FilterCommand::Disable
    );
    assert_eq!(Message::for_part(ParOfDay::Daytime), Message::Day);
}

#[test]
fn night_turns_the_filter_on_at_the_configured_temperature() {
    assert_eq!(
        FilterCommand::for_part(ParOfDay::BeforeDaytime, 3000),
        FilterCommand::Enable(3000)
    );
    assert_eq!(
        FilterCommand::for_part(ParOfDay::AfterDaytime, 4500),
        FilterCommand::Enable(4500)
    );
    assert_eq!(Message::for_part(ParOfDay::BeforeDaytime), Message::Night);
    assert_eq!(Message::for_part(ParOfDay::AfterDaytime), Message::Night);
}

#[test]
fn notice_and_command_agree_for_every_part() {
    for part in [
        ParOfDay::BeforeDaytime,
        ParOfDay::Daytime,
        ParOfDay::AfterDaytime,
    ] {
        let command = FilterCommand::for_part(part, 3000);
        assert_eq!(Message::for_part(part).command(3000), Some(command));
        assert_eq!(command.message(), Message::for_part(part));
    }
}

#[test]
fn shutdown_stands_for_no_command() {
    assert_eq!(Message::Shutdown.command(3000), None);
    assert_eq!(Message::Day.command(3000), Some(FilterCommand::Disable));
    assert_eq!(
        Message::Night.command(2500),
        Some(FilterCommand::Enable(2500))
    );
}

#[test]
fn enable_is_spelled_temperature_and_the_value() {
    assert_eq!(FilterCommand::Enable(3000).text(), "temperature 3000");
    assert_eq!(FilterCommand::Enable(0).text(), "temperature 0");
    assert_eq!(FilterCommand::Enable(7).text(), "temperature 7");
    assert_eq!(FilterCommand::Enable(10).text(), "temperature 10");
    assert_eq!(FilterCommand::Enable(6500).text(), "temperature 6500");
}

#[test]
fn disable_is_spelled_identity() {
    assert_eq!(FilterCommand::Disable.text(), "identity");
}

#[test]
fn negative_and_extreme_temperatures_are_spelled_as_the_standard_library_does() {
    for value in [
        -1,
        -10,
        -3000,
        i32::MIN,
        i32::MIN + 1,
        i32::MAX,
        1_000_000_000,
        999_999_999,
        101,
        100,
        99,
    ] {
        assert_eq!(
            FilterCommand::Enable(value).text(),
            format!("temperature {}", value)
        );
    }
    assert_eq!(
        FilterCommand::Enable(i32::MIN).text(),
        "temperature -2147483648"
    );
}

#[test]
fn append_decimal_keeps_what_is_there() {
    let mut text = String::from("t=");
    append_decimal(&mut text, 42);
    assert_eq!(text, "t=42");
    append_decimal(&mut text, -7);
    assert_eq!(text, "t=42-7");
    append_decimal(&mut text, 0);
    assert_eq!(text, "t=42-70");
}

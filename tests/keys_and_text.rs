use pomo_rs::{command_for_key, format_duration, Cli, Config, UserInput};

#[test]
fn keys_map_to_commands() {
    assert_eq!(command_for_key('c'), Some(UserInput::Cancel));
    assert_eq!(command_for_key('C'), Some(UserInput::Cancel));
    assert_eq!(command_for_key('p'), Some(UserInput::Pause));
    assert_eq!(command_for_key('P'), Some(UserInput::Pause));
    assert_eq!(command_for_key('r'), Some(UserInput::Resume));
    assert_eq!(command_for_key('R'), Some(UserInput::Resume));
    assert_eq!(command_for_key('x'), None);
    assert_eq!(command_for_key(' '), None);
}

#[test]
fn durations_are_written_in_minutes_and_seconds() {
    assert_eq!(format_duration(0), "0 mins, 0 seconds");
    assert_eq!(format_duration(59), "0 mins, 59 seconds");
    assert_eq!(format_duration(125), "2 mins, 5 seconds");
    assert_eq!(format_duration(3600), "60 mins, 0 seconds");
    assert_eq!(format_duration(1_500_061), "25001 mins, 1 seconds");
}

fn config_of(text: &str) -> Result<Config, &'static str> {
    Config::new(Cli { time: text.to_string() })
}

#[test]
fn config_from_minutes() {
    let c = config_of("25").unwrap();
    assert_eq!(c.time_min, 25);
    assert_eq!(c.time_sec, 1500);
    assert_eq!(c.current_time, 0);
    assert_eq!(config_of("+7").unwrap().time_sec, 420);
    assert_eq!(config_of("0").unwrap().time_sec, 0);
    assert_eq!(config_of("007").unwrap().time_min, 7);
}

#[test]
fn config_rejects_bad_text() {
    for bad in ["", "+", "abc", "-5", " 5", "5 ", "1.5", "5m", "++5"] {
        assert_eq!(config_of(bad), Err("Please enter a valid time in minutes"));
    }
}

#[test]
fn config_rejects_lengths_that_do_not_fit() {
    let max = usize::MAX / 60;
    assert_eq!(config_of(&max.to_string()).unwrap().time_sec, max * 60);
    assert!(config_of(&(max + 1).to_string()).is_err());
    assert!(config_of(&usize::MAX.to_string()).is_err());
    assert!(config_of("99999999999999999999999999").is_err());
}

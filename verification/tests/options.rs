use prgnome::options::{parse_output_level, OutputLevel};

#[test]
fn it_is_parsed_from_strings() {
    assert_eq!("DEbUg".parse(), Ok(OutputLevel::Debug));
    assert_eq!("VerboSE".parse(), Ok(OutputLevel::Verbose));
    assert_eq!("WarnING".parse(), Ok(OutputLevel::Warning));
    assert_eq!("ErrOR".parse(), Ok(OutputLevel::Error));
    assert_eq!(
        "warn".parse::<OutputLevel>(),
        Err(String::from("Unknown output level: warn"))
    );
}

#[test]
fn it_reports_unknown_levels_lowercased() {
    assert_eq!(
        parse_output_level("LOUD"),
        Err(String::from("Unknown output level: loud"))
    );
}

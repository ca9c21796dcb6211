use x264::Param;
use x264::Error;
use x264::param::{parse_preset, parse_profile, parse_tune, Preset, Profile, Tune};

#[test]
fn default_preset_accepts_known_names() {
    assert!(Param::default_preset(None, Some("medium")).is_ok());
    assert!(Param::default_preset(Some("film"), Some("veryslow")).is_ok());
    assert!(Param::default_preset(Some("zerolatency"), None).is_ok());
    assert!(Param::default_preset(None, None).is_ok());
}

#[test]
fn default_preset_rejects_unknown_preset() {
    assert_eq!(
        Param::default_preset(None, Some("warpspeed")).err().unwrap(),
        Error::InvalidArgument
    );
    assert_eq!(
        Param::default_preset(None, Some("")).err().unwrap(),
        Error::InvalidArgument
    );
}

#[test]
fn default_preset_rejects_unknown_tune() {
    assert_eq!(
        Param::default_preset(Some("sharpen"), Some("medium")).err().unwrap(),
        Error::InvalidArgument
    );
    // a preset name is not a tune
    assert_eq!(
        Param::default_preset(Some("medium"), None).err().unwrap(),
        Error::InvalidArgument
    );
}

#[test]
fn apply_profile_matches_the_profile_table() {
    assert!(Param::new().apply_profile("baseline").is_ok());
    assert!(Param::new().apply_profile("main").is_ok());
    assert!(Param::new().apply_profile("high").is_ok());
    assert!(Param::new().apply_profile("high10").is_ok());
    assert!(Param::new().apply_profile("high422").is_ok());
    assert!(Param::new().apply_profile("high444").is_ok());
    assert_eq!(
        Param::new().apply_profile("extended").err().unwrap(),
        Error::InvalidArgument
    );
}

#[test]
fn param_parse_accepts_known_keys() {
    let par = Param::new()
        .param_parse("repeat_headers", "1")
        .unwrap()
        .param_parse("annexb", "false")
        .unwrap()
        .param_parse("bframes", "16")
        .unwrap();
    let _ = par;
}

#[test]
fn param_parse_rejects_unknown_key() {
    assert_eq!(
        Param::new().param_parse("sharpness", "1").err().unwrap(),
        Error::InvalidArgument
    );
}

#[test]
fn param_parse_rejects_bad_values() {
    assert_eq!(
        Param::new().param_parse("annexb", "maybe").err().unwrap(),
        Error::InvalidArgument
    );
    assert_eq!(
        Param::new().param_parse("bframes", "17").err().unwrap(),
        Error::InvalidArgument
    );
    assert_eq!(
        Param::new().param_parse("bframes", "3x").err().unwrap(),
        Error::InvalidArgument
    );
    assert_eq!(
        Param::new().param_parse("bframes", "").err().unwrap(),
        Error::InvalidArgument
    );
    assert_eq!(
        Param::new().param_parse("bframes", "123").err().unwrap(),
        Error::InvalidArgument
    );
}

#[test]
fn dimensions_are_recorded() {
    let par = Param::new().set_dimension(480, 640);
    assert_eq!(par.width(), 640);
    assert_eq!(par.height(), 480);
}

#[test]
fn name_tables_are_case_sensitive() {
    assert_eq!(
        Param::default_preset(None, Some("Medium")).err().unwrap(),
        Error::InvalidArgument
    );
    assert_eq!(
        Param::new().apply_profile("High").err().unwrap(),
        Error::InvalidArgument
    );
}

#[test]
fn name_parsers_match_their_tables() {
    assert_eq!(parse_preset("medium"), Some(Preset::Medium));
    assert_eq!(parse_preset("placebo"), Some(Preset::Placebo));
    assert_eq!(parse_preset("mediun"), None);
    assert_eq!(parse_tune("zerolatency"), Some(Tune::Zerolatency));
    assert_eq!(parse_tune("medium"), None);
    assert_eq!(parse_profile("high444"), Some(Profile::High444));
    assert_eq!(parse_profile("high44"), None);
}

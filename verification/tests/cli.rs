use seal::cli::{
    seal_self_version, seal_version_string, ColorChoice, ExitStatus, GlobalArgs, GlobalSettings,
    Level, Printer, Stderr, Stdout, StreamColorChoice, VersionInfo,
};

fn text_output(info: &VersionInfo, short: bool) -> String {
    let (prefix, version) = info.text_parts(short);
    format!("{prefix}{version}")
}

#[test]
fn self_version() {
    assert_eq!(text_output(&seal_self_version(), false), "seal 0.0.0");
}

#[test]
fn self_version_short() {
    assert_eq!(text_output(&seal_self_version(), true), "0.0.0");
}

#[test]
fn version_flag() {
    assert_eq!(format!("seal {}", seal_version_string()), "seal 0.0.0");
    assert_eq!(text_output(&seal_self_version(), false), format!("seal {}", seal_version_string()));
}

#[test]
fn version_short_flag() {
    assert_eq!(seal_version_string(), "0.0.0");
    assert_eq!(seal_self_version().to_string(), "0.0.0");
}

#[test]
fn nameless_version_has_no_prefix() {
    let info = VersionInfo { package_name: None, version: "1.2.3".to_string() };
    assert_eq!(text_output(&info, false), "1.2.3");
}

fn args(quiet: u8, verbose: u8, no_progress: bool) -> GlobalArgs {
    GlobalArgs { quiet, verbose, no_progress, color: None, no_color: false }
}

#[test]
fn printer_from_settings() {
    let p = |a: GlobalArgs| Printer::from_settings(&GlobalSettings::resolve(&a));
    assert_eq!(p(args(0, 0, false)), Printer::Default);
    assert_eq!(p(args(1, 3, false)), Printer::Quiet);
    assert_eq!(p(args(2, 0, false)), Printer::Silent);
    assert_eq!(p(args(0, 1, true)), Printer::Verbose);
    assert_eq!(p(args(0, 0, true)), Printer::NoProgress);
}

#[test]
fn printer_streams() {
    assert_eq!(Printer::Silent.stdout_important(), Stdout::Disabled);
    assert_eq!(Printer::Quiet.stdout_important(), Stdout::Enabled);
    assert_eq!(Printer::Quiet.stdout(), Stdout::Disabled);
    assert_eq!(Printer::Quiet.stderr(), Stderr::Disabled);
    assert_eq!(Printer::Default.stdout(), Stdout::Enabled);
    assert_eq!(Printer::NoProgress.stderr(), Stderr::Enabled);
    assert!(Printer::Verbose.is_verbose());
    assert!(!Printer::Default.is_verbose());
}

#[test]
fn no_color_wins_over_color() {
    let a = GlobalArgs {
        quiet: 0,
        verbose: 0,
        no_progress: false,
        color: Some(ColorChoice::Always),
        no_color: true,
    };
    assert_eq!(GlobalSettings::resolve(&a).color, ColorChoice::Never);
    let b = GlobalArgs { no_color: false, ..a };
    assert_eq!(GlobalSettings::resolve(&b).color, ColorChoice::Always);
    assert_eq!(GlobalSettings::resolve(&args(0, 0, false)).color, ColorChoice::Auto);
}

#[test]
fn color_choice_for_a_stream() {
    assert_eq!(ColorChoice::Auto.and_colorchoice(StreamColorChoice::Never), ColorChoice::Never);
    assert_eq!(ColorChoice::Auto.and_colorchoice(StreamColorChoice::Always), ColorChoice::Always);
    assert_eq!(ColorChoice::Never.and_colorchoice(StreamColorChoice::Always), ColorChoice::Never);
    assert_eq!(ColorChoice::Always.and_colorchoice(StreamColorChoice::Never), ColorChoice::Always);
}

#[test]
fn levels_and_filters() {
    assert_eq!(Level::from_verbosity(0).filter(), "warn");
    assert_eq!(Level::from_verbosity(1).filter(), "info");
    assert_eq!(Level::from_verbosity(2).filter(), "debug");
    assert_eq!(Level::from_verbosity(3).filter(), "seal=trace");
    assert_eq!(Level::from_verbosity(9).filter(), "trace");
}

#[test]
fn exit_codes() {
    assert_eq!(ExitStatus::Success.code(), 0);
    assert_eq!(ExitStatus::Failure.code(), 1);
    assert_eq!(ExitStatus::Error.code(), 2);
    assert_eq!(ExitStatus::External(42).code(), 42);
}

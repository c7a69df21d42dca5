use crossbundle::cli::build_command::{
    android_build_targets, ios_build_targets, validate_android_activity_features, validate_cargo_library_target,
    BuildCommand,
};
use crossbundle::cli::choices::{AndroidRuntime, AndroidStrategy, DoctorPlatform, IosTarget};
use crossbundle::cli::doctor::resolve_platforms;
use crossbundle::cli::grammar::ErrorKind;
use crossbundle::cli::install::InstallCommandSubcommand;
use crossbundle::cli::opts::{definition_is_consistent, Commands, Opts};
use crossbundle::cli::run_command::RunCommand;
use crossbundle::types::build_target::AndroidTarget;
use crossbundle::types::profile::Profile;
use crossbundle::utils::shell::Verbosity;

fn features(values: &[&str]) -> Vec<String> {
    values.iter().map(|value| (*value).to_owned()).collect()
}

#[test]
fn parses_repeated_verbose_flags() {
    let opts = Opts::try_parse_from(&["crossbundle", "-vv", "update"]).unwrap();

    assert_eq!(opts.verbose, 2);
}

#[test]
fn command_line_definition_is_consistent() {
    assert!(definition_is_consistent());
}

#[test]
fn parses_ios_simulator_automation_options() {
    let opts = Opts::try_parse_from(&[
        "crossbundle",
        "run",
        "ios",
        "--simulator",
        "iPhone 17",
        "--no-open",
        "--detach",
    ])
    .unwrap();
    let Commands::Run(RunCommand::Ios(command)) = opts.cmd else {
        panic!("expected iOS run command")
    };
    assert_eq!(command.simulator.as_deref(), Some("iPhone 17"));
    assert!(command.no_open && command.detach);
}

#[test]
fn rejects_simulator_options_for_physical_devices() {
    for option in ["--simulator", "--no-open", "--detach"] {
        let mut args = vec![
            "crossbundle",
            "run",
            "ios",
            "--device",
            "--profile-path=profile.mobileprovision",
            "--team-id=TEAM",
            "--signing-identity=IDENTITY",
            option,
        ];
        if option == "--simulator" {
            args.push("iPhone 17");
        }
        assert!(Opts::try_parse_from(&args).is_err());
    }
    assert!(Opts::try_parse_from(&["crossbundle", "run", "ios", "--device"]).is_err());
    assert!(Opts::try_parse_from(&["crossbundle", "run", "ios", "--debug"]).is_err());
}

#[test]
fn parses_doctor_project_json_and_strict() {
    let opts = Opts::try_parse_from(&["crossbundle", "doctor", "--project", ".", "--json", "--strict"]).unwrap();
    let Commands::Doctor(command) = opts.cmd else {
        panic!("expected doctor")
    };
    assert_eq!(command.project.unwrap(), ".".to_string());
    assert!(command.json && command.strict);
}

#[test]
fn parses_repeated_and_delimited_doctor_platforms() {
    let opts = Opts::try_parse_from(&[
        "crossbundle",
        "doctor",
        "--platform",
        "apple,android",
        "--platform",
        "apple",
    ])
    .unwrap();
    let Commands::Doctor(command) = opts.cmd else {
        panic!("expected doctor")
    };
    assert_eq!(command.platform.len(), 3);
    assert_eq!(
        resolve_platforms(&command.platform).unwrap(),
        vec![DoctorPlatform::Android, DoctorPlatform::Apple]
    );
}

#[test]
fn parses_omitted_single_and_duplicate_doctor_platforms() {
    let omitted = Opts::try_parse_from(&["crossbundle", "doctor"]).unwrap();
    let Commands::Doctor(omitted) = omitted.cmd else {
        panic!("expected doctor")
    };
    assert!(omitted.platform.is_empty());

    let single = Opts::try_parse_from(&["crossbundle", "doctor", "--platform", "android", "--platform", "android"])
        .unwrap();
    let Commands::Doctor(single) = single.cmd else {
        panic!("expected doctor")
    };
    assert_eq!(resolve_platforms(&single.platform).unwrap(), vec![DoctorPlatform::Android]);
}

#[test]
fn rejects_an_unknown_doctor_platform() {
    let error = Opts::try_parse_from(&["crossbundle", "doctor", "--platform", "windows-phone"]).unwrap_err();
    assert_eq!(error.exit_code(), 2);
}

#[test]
fn parses_android_build_dry_run_json() {
    let opts = Opts::try_parse_from(&["crossbundle", "build", "android", "--dry-run", "--json"]).unwrap();
    let Commands::Build(BuildCommand::Android(command)) = opts.cmd else {
        panic!("expected Android build")
    };
    assert!(command.dry_run && command.json);
}

#[test]
fn accepts_a_renamed_cdylib_target() {
    assert_eq!(validate_cargo_library_target(None, Some(("mobile_game", true))).unwrap(), "mobile_game");
}

#[test]
fn rejects_binary_examples_on_the_standard_path() {
    let error = validate_cargo_library_target(Some("demo"), Some(("game", true))).unwrap_err().to_string();
    assert!(error.contains("--example demo"));
    assert!(error.contains("library target"));
}

#[test]
fn explains_missing_cdylib_configuration() {
    let error = validate_cargo_library_target(None, Some(("game", false))).unwrap_err().to_string();
    assert!(error.contains("crate-type"));
    assert!(error.contains("cdylib"));
}

#[test]
fn accepts_matching_android_activity_runtime_features() {
    validate_android_activity_features(AndroidRuntime::NativeActivity, &features(&["native-activity"])).unwrap();
    validate_android_activity_features(AndroidRuntime::GameActivity, &features(&["game-activity"])).unwrap();
    validate_android_activity_features(AndroidRuntime::Miniquad, &features(&["native-activity", "game-activity"]))
        .unwrap();
}

#[test]
fn rejects_mismatched_or_ambiguous_android_activity_runtime_features() {
    let mismatch = validate_android_activity_features(AndroidRuntime::GameActivity, &features(&["native-activity"]))
        .unwrap_err()
        .to_string();
    assert!(mismatch.contains("requires the resolved `android-activity` feature `game-activity`"));

    let ambiguous =
        validate_android_activity_features(AndroidRuntime::GameActivity, &features(&["native-activity", "game-activity"]))
            .unwrap_err()
            .to_string();
    assert!(ambiguous.contains("native-activity, game-activity"));
}

#[test]
fn activity_mismatch_message_is_complete() {
    let message = validate_android_activity_features(AndroidRuntime::NativeActivity, &features(&["x", "y"]))
        .unwrap_err();
    assert_eq!(
        message,
        "Android runtime `native-activity` requires the resolved `android-activity` feature `native-activity`, \
         but its activated features are [x, y]. Align `package.metadata.android.runtime` with the Bevy or \
         android-activity Android feature."
    );
}

#[test]
fn missing_library_target_is_explained() {
    assert_eq!(
        validate_cargo_library_target(None, None).unwrap_err(),
        "standard Cargo Android builds require a library target. Add `[lib]` and \
         `crate-type = [\"cdylib\", \"rlib\"]` to Cargo.toml."
    );
}

#[test]
fn missing_subcommand_is_a_usage_error() {
    let error = Opts::try_parse_from(&["crossbundle"]).unwrap_err();
    assert_eq!(error.kind(), ErrorKind::MissingSubcommand);
    assert_eq!(error.exit_code(), 2);
    let error = Opts::try_parse_from(&["crossbundle", "build"]).unwrap_err();
    assert_eq!(error.kind(), ErrorKind::MissingSubcommand);
}

#[test]
fn help_and_version_exit_successfully() {
    let help = Opts::try_parse_from(&["crossbundle", "--help"]).unwrap_err();
    assert_eq!(help.kind(), ErrorKind::DisplayHelp);
    assert_eq!(help.exit_code(), 0);
    let help = Opts::try_parse_from(&["crossbundle", "build", "android", "-h"]).unwrap_err();
    assert_eq!(help.kind(), ErrorKind::DisplayHelp);
    let help = Opts::try_parse_from(&["crossbundle", "help"]).unwrap_err();
    assert_eq!(help.kind(), ErrorKind::DisplayHelp);
    let help = Opts::try_parse_from(&["crossbundle", "--help", "--bogus", "deploy"]).unwrap_err();
    assert_eq!(help.kind(), ErrorKind::DisplayHelp);
    assert_eq!(help.argument, "--help");
    let version = Opts::try_parse_from(&["crossbundle", "--version", "build"]).unwrap_err();
    assert_eq!(version.kind(), ErrorKind::DisplayVersion);
    let version = Opts::try_parse_from(&["crossbundle", "-V"]).unwrap_err();
    assert_eq!(version.kind(), ErrorKind::DisplayVersion);
    assert_eq!(version.exit_code(), 0);
}

#[test]
fn unknown_arguments_and_commands_are_rejected() {
    let error = Opts::try_parse_from(&["crossbundle", "--bogus", "update"]).unwrap_err();
    assert_eq!(error.kind(), ErrorKind::UnknownArgument);
    assert_eq!(error.argument, "--bogus");
    let error = Opts::try_parse_from(&["crossbundle", "deploy"]).unwrap_err();
    assert_eq!(error.kind(), ErrorKind::InvalidSubcommand);
    let error = Opts::try_parse_from(&["crossbundle", "update", "-x"]).unwrap_err();
    assert_eq!(error.kind(), ErrorKind::UnknownArgument);
    assert_eq!(error.argument, "-x");
    // Global options belong before the command.
    let error = Opts::try_parse_from(&["crossbundle", "update", "--quiet"]).unwrap_err();
    assert_eq!(error.kind(), ErrorKind::UnknownArgument);
}

#[test]
fn options_given_once_cannot_repeat() {
    let error = Opts::try_parse_from(&["crossbundle", "-q", "-q", "update"]).unwrap_err();
    assert_eq!(error.kind(), ErrorKind::ArgumentConflict);
    assert_eq!(error.argument, "--quiet");
    let error =
        Opts::try_parse_from(&["crossbundle", "build", "android", "--example", "a", "--example", "b"]).unwrap_err();
    assert_eq!(error.kind(), ErrorKind::ArgumentConflict);
    assert_eq!(error.argument, "--example");
}

#[test]
fn a_switch_takes_no_value_and_an_option_needs_one() {
    let error = Opts::try_parse_from(&["crossbundle", "update", "--check=yes"]).unwrap_err();
    assert_eq!(error.kind(), ErrorKind::TooManyValues);
    let error = Opts::try_parse_from(&["crossbundle", "doctor", "--project"]).unwrap_err();
    assert_eq!(error.kind(), ErrorKind::InvalidValue);
    assert_eq!(error.argument, "--project");
    let error = Opts::try_parse_from(&["crossbundle", "doctor", "--project", "--json"]).unwrap_err();
    assert_eq!(error.kind(), ErrorKind::InvalidValue);
}

#[test]
fn global_options_are_read() {
    let opts = Opts::try_parse_from(&["crossbundle", "-c", "/work", "-qv", "update", "--check"]).unwrap();
    assert_eq!(opts.current_dir.as_deref(), Some("/work"));
    assert!(opts.quiet);
    assert_eq!(opts.verbose, 1);
    assert_eq!(opts.get_verbosity(), Verbosity::Quiet);
    let Commands::Update(update) = opts.cmd else {
        panic!("expected update")
    };
    assert!(update.check && !update.update);
    let opts = Opts::try_parse_from(&["crossbundle", "--current-dir=/a", "-c/b", "update"]).unwrap_err();
    assert_eq!(opts.kind(), ErrorKind::ArgumentConflict);
    let opts = Opts::try_parse_from(&["crossbundle", "-c=/x", "update"]).unwrap();
    assert_eq!(opts.current_dir.as_deref(), Some("/x"));
    assert_eq!(opts.get_verbosity(), Verbosity::Normal);
    let opts = Opts::try_parse_from(&["crossbundle", "-v", "-v", "-v", "update"]).unwrap();
    assert_eq!(opts.verbose, 3);
    assert_eq!(opts.get_verbosity(), Verbosity::Verbose);
    assert!(opts.trace_logging());
}

#[test]
fn android_build_options_are_read() {
    let opts = Opts::try_parse_from(&[
        "crossbundle",
        "build",
        "android",
        "-t",
        "armv7-linux-androideabi",
        "--target=x86_64-linux-android",
        "-snative-aab",
        "--features",
        "a",
        "--features",
        "b c",
        "--release",
        "--lib",
    ])
    .unwrap();
    let Commands::Build(BuildCommand::Android(command)) = opts.cmd else {
        panic!("expected Android build")
    };
    assert_eq!(command.target, vec![AndroidTarget::Armv7LinuxAndroideabi, AndroidTarget::X8664LinuxAndroid]);
    assert_eq!(command.strategy, AndroidStrategy::NativeAab);
    assert_eq!(command.shared.features, vec!["a".to_string(), "b c".to_string()]);
    assert!(command.shared.release);
    assert_eq!(command.shared.profile(), Profile::Release);
    assert_eq!(command.lib.as_deref(), Some("crossbow_android"));
    assert!(!command.dry_run);
    assert!(Commands::Build(BuildCommand::Android(command)).requires_update_check());
}

#[test]
fn android_build_defaults() {
    let opts = Opts::try_parse_from(&["crossbundle", "build", "android", "--lib", "mylib"]).unwrap();
    let Commands::Build(BuildCommand::Android(command)) = opts.cmd else {
        panic!("expected Android build")
    };
    assert_eq!(command.strategy, AndroidStrategy::GradleApk);
    assert!(command.target.is_empty());
    assert_eq!(command.lib.as_deref(), Some("mylib"));
    assert_eq!(command.shared.profile(), Profile::Debug);
}

#[test]
fn android_build_values_are_checked() {
    let error = Opts::try_parse_from(&["crossbundle", "build", "android", "-t", "mips-linux"]).unwrap_err();
    assert_eq!(error.kind(), ErrorKind::ValueValidation);
    assert_eq!(error.argument, "mips-linux");
    let error = Opts::try_parse_from(&["crossbundle", "build", "android", "--strategy", "gradle"]).unwrap_err();
    assert_eq!(error.kind(), ErrorKind::InvalidValue);
    let error = Opts::try_parse_from(&["crossbundle", "build", "android", "--json"]).unwrap_err();
    assert_eq!(error.kind(), ErrorKind::MissingRequiredArgument);
    assert_eq!(error.argument, "--dry-run");
    let error = Opts::try_parse_from(&["crossbundle", "build", "android", "--sign-key-path", "k", "--sign-key-pass", "p"])
        .unwrap_err();
    assert_eq!(error.kind(), ErrorKind::MissingRequiredArgument);
    assert_eq!(error.argument, "--sign-key-alias");
}

#[test]
fn android_run_options_are_read() {
    let opts = Opts::try_parse_from(&["crossbundle", "run", "android", "--log", "--dry-run"]).unwrap();
    let Commands::Run(RunCommand::Android(command)) = opts.cmd else {
        panic!("expected Android run")
    };
    assert!(command.log && command.build_command.dry_run);
    assert!(!Commands::Run(RunCommand::Android(command)).requires_update_check());
    assert!(Opts::try_parse_from(&["crossbundle", "build", "android", "--log"]).is_err());
}

#[test]
fn ios_build_options_are_read_and_checked() {
    let opts = Opts::try_parse_from(&["crossbundle", "build", "ios", "-t", "aarch64-apple-ios-sim", "--bin", "app"])
        .unwrap();
    let Commands::Build(BuildCommand::Ios(command)) = opts.cmd else {
        panic!("expected iOS build")
    };
    assert_eq!(command.target, vec![IosTarget::Aarch64Simulator]);
    assert_eq!(command.bin.as_deref(), Some("app"));
    let error = Opts::try_parse_from(&["crossbundle", "build", "ios", "--bin", "a", "--example", "b"]).unwrap_err();
    assert_eq!(error.kind(), ErrorKind::ArgumentConflict);
    let error = Opts::try_parse_from(&["crossbundle", "build", "ios", "--team-id", "T"]).unwrap_err();
    assert_eq!(error.argument, "--signing-identity");
    let error = Opts::try_parse_from(&["crossbundle", "build", "ios", "--signing-identity", "I", "--team-id", "T"])
        .unwrap_err();
    assert_eq!(error.argument, "--profile-path");
}

#[test]
fn ios_device_run_is_read() {
    let opts = Opts::try_parse_from(&[
        "crossbundle",
        "run",
        "ios",
        "-d",
        "-D",
        "00008",
        "--debug",
        "--profile-path",
        "p",
        "--team-id",
        "t",
        "--signing-identity",
        "s",
    ])
    .unwrap();
    let Commands::Run(RunCommand::Ios(command)) = opts.cmd else {
        panic!("expected iOS run")
    };
    assert!(command.device && command.debug);
    assert_eq!(command.device_id.as_deref(), Some("00008"));
    assert_eq!(command.run_targets(true), vec![IosTarget::Aarch64Device]);
    let paths = vec![
        (IosTarget::Aarch64Simulator, "sim.app".to_string()),
        (IosTarget::Aarch64Device, "device.app".to_string()),
    ];
    assert_eq!(command.get_app_path(&paths, true).unwrap(), "device.app");
    let only_sim = vec![(IosTarget::Aarch64Simulator, "sim.app".to_string())];
    assert_eq!(
        command.get_app_path(&only_sim, true).unwrap_err(),
        "the build did not produce a runnable iOS device artifact"
    );
}

#[test]
fn simulator_run_falls_back_to_any_simulator_build() {
    let opts = Opts::try_parse_from(&["crossbundle", "run", "ios"]).unwrap();
    let Commands::Run(RunCommand::Ios(command)) = opts.cmd else {
        panic!("expected iOS run")
    };
    assert_eq!(command.run_targets(false), vec![IosTarget::X86_64Simulator]);
    let paths = vec![
        (IosTarget::Aarch64Device, "device.app".to_string()),
        (IosTarget::Aarch64Simulator, "arm-sim.app".to_string()),
    ];
    assert_eq!(command.get_app_path(&paths, false).unwrap(), "arm-sim.app");
    assert_eq!(
        command.get_app_path(&vec![], false).unwrap_err(),
        "the build did not produce a runnable iOS Simulator artifact"
    );
}

#[test]
fn install_subcommands_are_read() {
    let opts = Opts::try_parse_from(&["crossbundle", "install", "bundletool", "-f"]).unwrap();
    let Commands::Install(install) = opts.cmd else {
        panic!("expected install")
    };
    assert!(!install.preferred);
    let Some(InstallCommandSubcommand::Bundletool(b)) = install.subcommand else {
        panic!("expected bundletool")
    };
    assert_eq!(b.version, "1.18.3");
    assert!(b.force);
    assert_eq!(b.file_name(), "bundletool-all-1.18.3.jar");
    assert_eq!(
        b.download_url(),
        "https://github.com/google/bundletool/releases/download/1.18.3/bundletool-all-1.18.3.jar"
    );

    let opts = Opts::try_parse_from(&["crossbundle", "install", "--preferred"]).unwrap();
    let Commands::Install(install) = opts.cmd else {
        panic!("expected install")
    };
    assert!(install.preferred && install.subcommand.is_none());

    let opts = Opts::try_parse_from(&["crossbundle", "install", "sdkmanager", "-l", "-c", "3", "--proxy", "http"])
        .unwrap();
    let Commands::Install(install) = opts.cmd else {
        panic!("expected install")
    };
    let Some(InstallCommandSubcommand::Sdkmanager(s)) = install.subcommand else {
        panic!("expected sdkmanager")
    };
    assert!(s.list);
    assert_eq!(s.channel, Some(3));
    assert_eq!(s.args("/sdk"), vec!["--sdk_root=/sdk", "--list", "--channel=3", "--proxy=http"]);

    let error = Opts::try_parse_from(&["crossbundle", "install", "sdkmanager", "--channel", "beta"]).unwrap_err();
    assert_eq!(error.kind(), ErrorKind::ValueValidation);
    assert_eq!(error.argument, "beta");
}

#[test]
fn command_line_tools_are_read() {
    let opts = Opts::try_parse_from(&["crossbundle", "install", "command-line-tools", "-i", "/opt/sdk"]).unwrap();
    let Commands::Install(install) = opts.cmd else {
        panic!("expected install")
    };
    let Some(InstallCommandSubcommand::CommandLineTools(c)) = install.subcommand else {
        panic!("expected command-line-tools")
    };
    assert_eq!(c.install_path.as_deref(), Some("/opt/sdk"));
    assert!(!c.force);
    assert_eq!(c.file_name("linux"), "commandlinetools-linux-15859902_latest.zip");
    assert_eq!(
        c.download_url("win"),
        "https://dl.google.com/android/repository/commandlinetools-win-15859902_latest.zip"
    );
}

#[test]
fn build_targets_follow_the_command_line_then_the_project() {
    let debug = [AndroidTarget::I686LinuxAndroid];
    let release = [AndroidTarget::X8664LinuxAndroid];
    assert_eq!(
        android_build_targets(Profile::Debug, &[AndroidTarget::Armv7LinuxAndroideabi], &debug, &release),
        vec![AndroidTarget::Armv7LinuxAndroideabi]
    );
    assert_eq!(android_build_targets(Profile::Debug, &[], &debug, &release), vec![AndroidTarget::I686LinuxAndroid]);
    assert_eq!(android_build_targets(Profile::Release, &[], &debug, &release), vec![AndroidTarget::X8664LinuxAndroid]);
    assert_eq!(android_build_targets(Profile::Release, &[], &debug, &[]), vec![AndroidTarget::Aarch64LinuxAndroid]);
    assert_eq!(ios_build_targets(Profile::Debug, &[], &[], &[], true), vec![IosTarget::Aarch64Simulator]);
    assert_eq!(
        ios_build_targets(Profile::Release, &[], &[], &[IosTarget::Aarch64Device], false),
        vec![IosTarget::Aarch64Device]
    );
}

#[test]
fn delimited_platforms_match_repeated_platforms() {
    let delimited = Opts::try_parse_from(&["crossbundle", "doctor", "--platform", "apple,android"]).unwrap();
    let repeated =
        Opts::try_parse_from(&["crossbundle", "doctor", "--platform", "apple", "--platform=android"]).unwrap();
    let (Commands::Doctor(d), Commands::Doctor(r)) = (delimited.cmd, repeated.cmd) else {
        panic!("expected doctor")
    };
    assert_eq!(d.platform, r.platform);
    assert_eq!(d.platform, vec![DoctorPlatform::Apple, DoctorPlatform::Android]);
    let error = Opts::try_parse_from(&["crossbundle", "doctor", "--platform", "apple,"]).unwrap_err();
    assert_eq!(error.kind(), ErrorKind::InvalidValue);
    assert_eq!(error.argument, "");
}

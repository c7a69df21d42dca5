use crossbundle::cli::plan_steps::{
    apks_file_name, apks_output, build_apks_command, build_step, ensure_plan_valid, gradle_command,
    install_apks_command, ios_signing, next_artifact_after_run, run_step, Artifact, BuildAction, IosSigning,
    PlanCheck, PlanStepKind, PlanTools, RunAction, SigningKey,
};
use crossbundle::tools::{CheckInfo, IntoCheckInfo};

fn all_tools() -> PlanTools {
    PlanTools {
        java: Some("java".to_string()),
        jarsigner: Some("jarsigner".to_string()),
        bundletool: Some("bundletool.jar".to_string()),
        gradle: Some("gradle".to_string()),
    }
}

fn no_tools() -> PlanTools {
    PlanTools { java: None, jarsigner: None, bundletool: None, gradle: None }
}

fn bundle() -> Artifact {
    Artifact::NativeAab {
        path: "target/android/game.aab".to_string(),
        package: "game".to_string(),
        manifest_package: Some("com.example.game".to_string()),
        key: SigningKey {
            key_path: "debug.keystore".to_string(),
            key_pass: "android".to_string(),
            key_alias: "androiddebugkey".to_string(),
        },
        apks: None,
    }
}

fn gradle_project() -> Artifact {
    Artifact::Gradle { project: "target/android/game".to_string() }
}

fn err<T>(r: Result<T, String>) -> String {
    match r {
        Ok(_) => panic!("expected an error"),
        Err(m) => m,
    }
}

#[test]
fn build_steps_follow_what_was_built() {
    let tools = all_tools();
    match build_step(PlanStepKind::BuildRustLibrary, &None, &None, &tools) {
        Ok(BuildAction::BuildRustLibrary { lib_name }) => assert_eq!(lib_name, "crossbow_android"),
        _ => panic!("expected a library build"),
    }
    match build_step(PlanStepKind::BuildRustLibrary, &Some("mylib".to_string()), &None, &tools) {
        Ok(BuildAction::BuildRustLibrary { lib_name }) => assert_eq!(lib_name, "mylib"),
        _ => panic!("expected a library build"),
    }
    assert!(matches!(build_step(PlanStepKind::BuildNativeApk, &None, &None, &tools), Ok(BuildAction::BuildNativeApk)));
    match build_step(PlanStepKind::BuildNativeAab, &None, &None, &tools) {
        Ok(BuildAction::BuildNativeAab { java, jarsigner, bundletool }) => {
            assert_eq!(java, "java");
            assert_eq!(jarsigner, "jarsigner");
            assert_eq!(bundletool, "bundletool.jar");
        },
        _ => panic!("expected a bundle build"),
    }
    assert!(matches!(
        build_step(PlanStepKind::PrepareGradleProject, &None, &None, &tools),
        Ok(BuildAction::PrepareGradleProject)
    ));
    assert_eq!(
        err(build_step(PlanStepKind::BuildGradleProject, &None, &None, &tools)),
        "Gradle project was not prepared"
    );
    match build_step(PlanStepKind::BuildGradleProject, &None, &Some(gradle_project()), &tools) {
        Ok(BuildAction::BuildGradleProject { command }) => {
            assert_eq!(command.program, "gradle");
            assert_eq!(command.args, vec!["build", "-p", "target/android/game"]);
        },
        _ => panic!("expected a Gradle build"),
    }
    assert!(matches!(
        build_step(PlanStepKind::LaunchApplication, &None, &None, &tools),
        Ok(BuildAction::NotABuildStep)
    ));
}

#[test]
fn build_steps_need_their_tools() {
    let mut tools = all_tools();
    tools.jarsigner = None;
    assert_eq!(
        err(build_step(PlanStepKind::BuildNativeAab, &None, &None, &tools)),
        "jarsigner is absent from build plan"
    );
    tools.java = None;
    assert_eq!(err(build_step(PlanStepKind::BuildNativeAab, &None, &None, &tools)), "Java is absent from build plan");
    let mut tools = all_tools();
    tools.bundletool = None;
    assert_eq!(
        err(build_step(PlanStepKind::BuildNativeAab, &None, &None, &tools)),
        "bundletool is absent from build plan"
    );
    assert_eq!(
        err(build_step(PlanStepKind::BuildGradleProject, &None, &Some(gradle_project()), &no_tools())),
        "Gradle executable is absent from build plan"
    );
    assert!(matches!(
        build_step(PlanStepKind::BuildNativeApk, &None, &None, &no_tools()),
        Ok(BuildAction::BuildNativeApk)
    ));
}

#[test]
fn apk_set_is_generated_next_to_the_bundle_and_installed() {
    let tools = all_tools();
    let aab = Some(bundle());
    assert_eq!(
        err(run_step(PlanStepKind::InstallArtifact, &aab, &tools)),
        "APKs archive was not generated"
    );
    let action = match run_step(PlanStepKind::GenerateApksArchive, &aab, &tools) {
        Ok(a) => a,
        Err(m) => panic!("{}", m),
    };
    match &action {
        RunAction::GenerateApks { command, output } => {
            assert_eq!(output, "target/android/game.apks");
            assert_eq!(command.program, "java");
            assert_eq!(
                command.args,
                vec![
                    "-jar", "bundletool.jar", "build-apks", "--bundle", "target/android/game.aab", "--output",
                    "target/android/game.apks", "--overwrite", "--ks", "debug.keystore", "--ks-pass",
                    "pass:android", "--ks-key-alias", "androiddebugkey",
                ]
            );
        },
        _ => panic!("expected the APK set to be generated"),
    }
    let generated = next_artifact_after_run(action, aab);
    match &generated {
        Some(Artifact::NativeAab { apks, .. }) => assert_eq!(apks.as_deref(), Some("target/android/game.apks")),
        _ => panic!("expected the bundle to stay"),
    }
    match run_step(PlanStepKind::InstallArtifact, &generated, &tools) {
        Ok(RunAction::InstallApks { command }) => {
            assert_eq!(command.program, "java");
            assert_eq!(
                command.args,
                vec!["-jar", "bundletool.jar", "install-apks", "--apks", "target/android/game.apks"]
            );
        },
        _ => panic!("expected the APK set to be installed"),
    }
    match run_step(PlanStepKind::LaunchApplication, &generated, &tools) {
        Ok(RunAction::Launch { package, activity }) => {
            assert_eq!(package, "com.example.game");
            assert_eq!(activity, "android.app.NativeActivity");
        },
        _ => panic!("expected a launch"),
    }
}

#[test]
fn run_steps_need_their_tools_and_artifacts() {
    let aab = Some(bundle());
    assert_eq!(
        err(run_step(PlanStepKind::GenerateApksArchive, &aab, &no_tools())),
        "Java is absent from build plan"
    );
    let mut tools = all_tools();
    tools.bundletool = None;
    assert_eq!(
        err(run_step(PlanStepKind::GenerateApksArchive, &aab, &tools)),
        "bundletool is absent from build plan"
    );
    assert_eq!(
        err(run_step(PlanStepKind::GenerateApksArchive, &None, &no_tools())),
        "Java is absent from build plan"
    );
    let apk = Some(Artifact::NativeApk { path: "target/game.apk".to_string(), manifest_package: None });
    assert_eq!(
        err(run_step(PlanStepKind::GenerateApksArchive, &apk, &all_tools())),
        "AAB artifact was not built"
    );
    match run_step(PlanStepKind::InstallArtifact, &apk, &no_tools()) {
        Ok(RunAction::InstallApk { path }) => assert_eq!(path, "target/game.apk"),
        _ => panic!("expected the APK to be installed"),
    }
    assert_eq!(
        err(run_step(PlanStepKind::LaunchApplication, &apk, &all_tools())),
        "Android manifest package is missing"
    );
    assert_eq!(
        err(run_step(PlanStepKind::InstallArtifact, &Some(gradle_project()), &no_tools())),
        "Gradle executable is absent from build plan"
    );
    match run_step(PlanStepKind::InstallArtifact, &Some(gradle_project()), &all_tools()) {
        Ok(RunAction::InstallGradle { command }) => {
            assert_eq!(command.program, "gradle");
            assert_eq!(command.args, vec!["installDebug", "-p", "target/android/game"]);
        },
        _ => panic!("expected a Gradle install"),
    }
    match run_step(PlanStepKind::LaunchApplication, &Some(gradle_project()), &no_tools()) {
        Ok(RunAction::Launch { package, activity }) => {
            assert_eq!(package, "com.crossbow.game");
            assert_eq!(activity, ".CrossbowApp");
        },
        _ => panic!("expected a launch"),
    }
    assert_eq!(
        err(run_step(PlanStepKind::InstallArtifact, &None, &all_tools())),
        "installable artifact was not built"
    );
    assert_eq!(
        err(run_step(PlanStepKind::LaunchApplication, &None, &all_tools())),
        "launchable artifact was not built"
    );
    assert_eq!(err(run_step(PlanStepKind::AttachLogger, &None, &all_tools())), "artifact was not built");
    assert!(matches!(run_step(PlanStepKind::AttachLogger, &apk, &no_tools()), Ok(RunAction::AttachLogger)));
    assert_eq!(
        err(run_step(PlanStepKind::BuildNativeApk, &None, &all_tools())),
        "unexpected BuildNativeApk step in run plan"
    );
}

#[test]
fn apk_set_paths() {
    assert_eq!(apks_file_name("game"), "game.apks");
    assert_eq!(apks_output("out/game.aab", "game"), "out/game.apks");
    assert_eq!(apks_output("a/b/c.aab", "pkg"), "a/b/pkg.apks");
    assert_eq!(apks_output("game.aab", "game"), "game.apks");
    assert_eq!(apks_output("/game.aab", "game"), "/game.apks");
}

#[test]
fn apk_set_commands() {
    let c = build_apks_command("java", "bundletool.jar", "out/game.aab", "out/game.apks", "key.jks", "android", "alias");
    assert_eq!(c.program, "java");
    assert_eq!(
        c.args,
        vec![
            "-jar", "bundletool.jar", "build-apks", "--bundle", "out/game.aab", "--output", "out/game.apks",
            "--overwrite", "--ks", "key.jks", "--ks-pass", "pass:android", "--ks-key-alias", "alias",
        ]
    );
    let c = install_apks_command("java", "b.jar", "game.apks");
    assert_eq!(c.args, vec!["-jar", "b.jar", "install-apks", "--apks", "game.apks"]);
    let c = gradle_command("gradle", "installDebug", "proj");
    assert_eq!(c.program, "gradle");
    assert_eq!(c.args, vec!["installDebug", "-p", "proj"]);
}

#[test]
fn ios_signing_choices() {
    let s = |v: &str| Some(v.to_string());
    assert!(matches!(ios_signing(true, &None, &None, &None), Ok(IosSigning::AdHoc)));
    assert!(matches!(ios_signing(false, &None, &None, &None), Ok(IosSigning::Unsigned)));
    match ios_signing(false, &s("Apple Development"), &s("a.mobileprovision"), &s("TEAM1")) {
        Ok(IosSigning::Identity { identity, profile_path, team_id }) => {
            assert_eq!(identity, "Apple Development");
            assert_eq!(profile_path, "a.mobileprovision");
            assert_eq!(team_id, "TEAM1");
        },
        _ => panic!("expected signing with the identity"),
    }
    assert!(matches!(
        ios_signing(true, &s("Apple Development"), &s("p"), &s("t")),
        Ok(IosSigning::Identity { .. })
    ));
    assert_eq!(
        err(ios_signing(true, &s("Apple Development"), &None, &s("t"))),
        "--profile-path is required with --signing-identity"
    );
    assert_eq!(
        err(ios_signing(false, &s("Apple Development"), &s("p"), &None)),
        "--team-id is required with --signing-identity"
    );
}

#[test]
fn invalid_plan_lists_its_failed_checks() {
    let checks = vec![
        PlanCheck { failed: true, summary: "Java not found".to_string(), remediation: Some("install a JDK".to_string()) },
        PlanCheck { failed: false, summary: "NDK found".to_string(), remediation: None },
        PlanCheck { failed: true, summary: "bundletool not found".to_string(), remediation: None },
    ];
    assert_eq!(ensure_plan_valid(false, &checks), Ok(()));
    assert_eq!(
        ensure_plan_valid(true, &checks),
        Err("Android build plan is invalid: Java not found: install a JDK; bundletool not found".to_string())
    );
    assert_eq!(ensure_plan_valid(true, &vec![]), Err("Android build plan is invalid: ".to_string()));
}

#[derive(Clone, PartialEq)]
struct Java {
    found: bool,
}

impl IntoCheckInfo for Java {
    fn check_passed(self) -> CheckInfo {
        CheckInfo { dependency_name: "java".to_string(), check_name: "installed".to_string(), passed: self.found }
    }
}

#[test]
fn a_failed_check_is_the_passed_check_inverted() {
    for found in [true, false] {
        let x = Java { found };
        let y = x.clone();
        let passed = y.check_passed();
        let failed = x.check_failed();
        assert_eq!(failed.dependency_name, passed.dependency_name);
        assert_eq!(failed.check_name, passed.check_name);
        assert_eq!(failed.passed, !passed.passed);
    }
}

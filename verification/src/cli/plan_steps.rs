//! The decisions of the Android build and run plans and of iOS signing: what
//! each step does given what was built before it and which tools the plan
//! found, with the exact command lines of the steps that run `java -jar
//! <bundletool>` and Gradle.
use vstd::prelude::*;
use crate::argv::{join, join_strings, opt_view, push_arg, push_string, ToolCommand};

verus! {

/// The kinds of steps of an Android build or run plan.
#[derive(Debug, Clone, Copy, PartialEq, Eq, Structural)]
pub enum PlanStepKind {
    BuildRustLibrary,
    BuildNativeApk,
    BuildNativeAab,
    PrepareGradleProject,
    BuildGradleProject,
    GenerateApksArchive,
    InstallArtifact,
    LaunchApplication,
    AttachLogger,
}

/// The tools the plan found, by path.
#[derive(Debug, Clone)]
pub struct PlanTools {
    pub java: Option<String>,
    pub jarsigner: Option<String>,
    pub bundletool: Option<String>,
    pub gradle: Option<String>,
}

/// The key an App Bundle's APK set is signed with.
#[derive(Debug, Clone)]
pub struct SigningKey {
    pub key_path: String,
    pub key_pass: String,
    pub key_alias: String,
}

/// What the steps before have built.
#[derive(Debug, Clone)]
pub enum Artifact {
    /// A signed APK at `path`; `manifest_package` is the package its manifest names.
    NativeApk { path: String, manifest_package: Option<String> },
    /// A signed App Bundle at `path`, built for the Cargo package `package`,
    /// with the key for its APK set and, once generated, the APK set's path.
    NativeAab {
        path: String,
        package: String,
        manifest_package: Option<String>,
        key: SigningKey,
        apks: Option<String>,
    },
    /// A Gradle project in the folder `project`.
    Gradle { project: String },
}

/// The message when the plan lacks a tool.
pub open spec fn absent_message(tool: Seq<char>) -> Seq<char> {
    tool + " is absent from build plan"@
}

/// The library a library-only build compiles: the one named, else `crossbow_android`.
pub open spec fn lib_name_of(lib: Option<Seq<char>>) -> Seq<char> {
    match lib {
        Some(l) => l,
        None => "crossbow_android"@,
    }
}

/// What a build step does.
#[derive(Debug, Clone)]
pub enum BuildAction {
    /// Compiles the Rust library `lib_name` only; what was built stays.
    BuildRustLibrary { lib_name: String },
    /// Builds a signed APK, which becomes the artifact.
    BuildNativeApk,
    /// Builds a signed App Bundle with these tools; it becomes the artifact.
    BuildNativeAab { java: String, jarsigner: String, bundletool: String },
    /// Generates the Gradle project, which becomes the artifact.
    PrepareGradleProject,
    /// Builds the prepared Gradle project with this command; what was built stays.
    BuildGradleProject { command: ToolCommand },
    /// The step is not one of building; what was built stays.
    NotABuildStep,
}

/// Why a build step fails, if it does: a bundle needs java, jarsigner and
/// bundletool; building the Gradle project needs a prepared project, then Gradle.
pub open spec fn build_step_error(kind: PlanStepKind, artifact: Option<Artifact>, tools: PlanTools) -> Option<Seq<char>> {
    match kind {
        PlanStepKind::BuildNativeAab => if tools.java is None {
            Some(absent_message("Java"@))
        } else if tools.jarsigner is None {
            Some(absent_message("jarsigner"@))
        } else if tools.bundletool is None {
            Some(absent_message("bundletool"@))
        } else {
            None
        },
        PlanStepKind::BuildGradleProject => if !(artifact matches Some(Artifact::Gradle { .. })) {
            Some("Gradle project was not prepared"@)
        } else if tools.gradle is None {
            Some(absent_message("Gradle executable"@))
        } else {
            None
        },
        _ => None,
    }
}

/// The action of an accepted build step.
pub open spec fn build_action_fits(
    kind: PlanStepKind,
    lib: Option<String>,
    artifact: Option<Artifact>,
    tools: PlanTools,
    a: BuildAction,
) -> bool {
    match kind {
        PlanStepKind::BuildRustLibrary => a matches BuildAction::BuildRustLibrary { lib_name }
            && lib_name@ == lib_name_of(opt_view(lib)),
        PlanStepKind::BuildNativeApk => a is BuildNativeApk,
        PlanStepKind::BuildNativeAab => a matches BuildAction::BuildNativeAab { java, jarsigner, bundletool }
            && java@ == tools.java->0@ && jarsigner@ == tools.jarsigner->0@ && bundletool@ == tools.bundletool->0@,
        PlanStepKind::PrepareGradleProject => a is PrepareGradleProject,
        PlanStepKind::BuildGradleProject => {
            &&& a matches BuildAction::BuildGradleProject { command }
            &&& artifact matches Some(Artifact::Gradle { project })
            &&& command.program@ == tools.gradle->0@
            &&& command.args.deep_view() == seq!["build"@, "-p"@, project@]
        },
        _ => a is NotABuildStep,
    }
}

/// The Gradle command line that runs `task` (`build` or `installDebug`) on the
/// project at `project`.
pub fn gradle_command(gradle: &str, task: &str, project: &str) -> (c: ToolCommand)
    ensures
        c.program@ == gradle@,
        c.args.deep_view() == seq![task@, "-p"@, project@],
{
    let mut c = ToolCommand::new(gradle);
    push_arg(&mut c.args, task);
    push_arg(&mut c.args, "-p");
    push_arg(&mut c.args, project);
    c
}

fn absent(tool: &str) -> (r: String)
    ensures r@ == absent_message(tool@),
{
    let mut m = tool.to_owned();
    m.append(" is absent from build plan");
    m
}

/// What a build step does, given the library asked for (`--lib`), what was
/// built and the tools of the plan; the error says what is missing.
pub fn build_step(kind: PlanStepKind, lib: &Option<String>, artifact: &Option<Artifact>, tools: &PlanTools) -> (r: Result<BuildAction, String>)
    ensures
        match r {
            Ok(a) => build_step_error(kind, *artifact, *tools) is None && build_action_fits(kind, *lib, *artifact, *tools, a),
            Err(m) => build_step_error(kind, *artifact, *tools) == Some(m@),
        },
{
    match kind {
        PlanStepKind::BuildRustLibrary => {
            let lib_name = match lib {
                Some(l) => l.clone(),
                None => "crossbow_android".to_owned(),
            };
            Ok(BuildAction::BuildRustLibrary { lib_name })
        },
        PlanStepKind::BuildNativeApk => Ok(BuildAction::BuildNativeApk),
        PlanStepKind::BuildNativeAab => {
            let java = match &tools.java {
                Some(j) => j.clone(),
                None => { return Err(absent("Java")); },
            };
            let jarsigner = match &tools.jarsigner {
                Some(j) => j.clone(),
                None => { return Err(absent("jarsigner")); },
            };
            let bundletool = match &tools.bundletool {
                Some(b) => b.clone(),
                None => { return Err(absent("bundletool")); },
            };
            Ok(BuildAction::BuildNativeAab { java, jarsigner, bundletool })
        },
        PlanStepKind::PrepareGradleProject => Ok(BuildAction::PrepareGradleProject),
        PlanStepKind::BuildGradleProject => match artifact {
            Some(Artifact::Gradle { project }) => match &tools.gradle {
                Some(g) => Ok(BuildAction::BuildGradleProject { command: gradle_command(g.as_str(), "build", project.as_str()) }),
                None => Err(absent("Gradle executable")),
            },
            _ => Err("Gradle project was not prepared".to_owned()),
        },
        _ => Ok(BuildAction::NotABuildStep),
    }
}

/// What a run step that is not one of building does.
#[derive(Debug, Clone)]
pub enum RunAction {
    /// Generates the APK set `output` of the App Bundle with this command.
    GenerateApks { command: ToolCommand, output: String },
    /// Installs the APK at `path` on the device.
    InstallApk { path: String },
    /// Installs the generated APK set with this command.
    InstallApks { command: ToolCommand },
    /// Installs the Gradle project's debug build with this command.
    InstallGradle { command: ToolCommand },
    /// Starts the activity `activity` of the package `package`.
    Launch { package: String, activity: String },
    /// Attaches the logger to the application.
    AttachLogger,
}

/// The name of a step kind in messages.
pub open spec fn step_kind_text(kind: PlanStepKind) -> Seq<char> {
    match kind {
        PlanStepKind::BuildRustLibrary => "BuildRustLibrary"@,
        PlanStepKind::BuildNativeApk => "BuildNativeApk"@,
        PlanStepKind::BuildNativeAab => "BuildNativeAab"@,
        PlanStepKind::PrepareGradleProject => "PrepareGradleProject"@,
        PlanStepKind::BuildGradleProject => "BuildGradleProject"@,
        PlanStepKind::GenerateApksArchive => "GenerateApksArchive"@,
        PlanStepKind::InstallArtifact => "InstallArtifact"@,
        PlanStepKind::LaunchApplication => "LaunchApplication"@,
        PlanStepKind::AttachLogger => "AttachLogger"@,
    }
}

/// Why `java -jar <bundletool>` cannot be run, if it cannot.
pub open spec fn bundletool_error(tools: PlanTools) -> Option<Seq<char>> {
    if tools.java is None {
        Some(absent_message("Java"@))
    } else if tools.bundletool is None {
        Some(absent_message("bundletool"@))
    } else {
        None
    }
}

/// Why a run step that is not one of building fails, if it does.
pub open spec fn run_step_error(kind: PlanStepKind, artifact: Option<Artifact>, tools: PlanTools) -> Option<Seq<char>> {
    match kind {
        PlanStepKind::GenerateApksArchive => if bundletool_error(tools) is Some {
            bundletool_error(tools)
        } else if !(artifact matches Some(Artifact::NativeAab { .. })) {
            Some("AAB artifact was not built"@)
        } else {
            None
        },
        PlanStepKind::InstallArtifact => match artifact {
            None => Some("installable artifact was not built"@),
            Some(Artifact::NativeApk { .. }) => None,
            Some(Artifact::NativeAab { apks, .. }) => if apks is None {
                Some("APKs archive was not generated"@)
            } else {
                bundletool_error(tools)
            },
            Some(Artifact::Gradle { .. }) => if tools.gradle is None {
                Some(absent_message("Gradle executable"@))
            } else {
                None
            },
        },
        PlanStepKind::LaunchApplication => match artifact {
            None => Some("launchable artifact was not built"@),
            Some(Artifact::NativeApk { manifest_package, .. }) => if manifest_package is None {
                Some("Android manifest package is missing"@)
            } else {
                None
            },
            Some(Artifact::NativeAab { manifest_package, .. }) => if manifest_package is None {
                Some("Android manifest package is missing"@)
            } else {
                None
            },
            Some(Artifact::Gradle { .. }) => None,
        },
        PlanStepKind::AttachLogger => if artifact is None { Some("artifact was not built"@) } else { None },
        _ => Some("unexpected "@ + step_kind_text(kind) + " step in run plan"@),
    }
}

/// The first index below `k` where `s` holds `c`, searching from the end.
pub open spec fn last_index_below(s: Seq<char>, c: char, k: nat) -> Option<nat>
    decreases k,
{
    if k == 0 {
        None
    } else if k <= s.len() && s[k - 1] == c {
        Some((k - 1) as nat)
    } else {
        last_index_below(s, c, (k - 1) as nat)
    }
}

/// The file name of the APK set generated for `package`.
pub open spec fn apks_file_name_of(package: Seq<char>) -> Seq<char> {
    package + ".apks"@
}

/// A bundle path that names a folder to write beside: not empty and not the
/// root alone.
pub open spec fn has_parent_folder(aab: Seq<char>) -> bool {
    exists|i: int| 0 <= i < aab.len() && aab[i] != '/'
}

/// The APK set of the bundle at `aab`: the file `<package>.apks` in the
/// bundle's folder (the text before the last `/`; none when there is no `/`).
pub open spec fn apks_output_path(aab: Seq<char>, package: Seq<char>) -> Seq<char> {
    match last_index_below(aab, '/', aab.len()) {
        None => apks_file_name_of(package),
        Some(i) => if i == 0 {
            seq!['/'] + apks_file_name_of(package)
        } else {
            aab.subrange(0, i as int) + seq!['/'] + apks_file_name_of(package)
        },
    }
}

/// The arguments of `java` that generate the APK set `output` of the App Bundle
/// `aab` with the bundletool jar `bundletool`, signed with the key at
/// `key_path` under `key_alias`.
pub open spec fn build_apks_args(
    bundletool: Seq<char>,
    aab: Seq<char>,
    output: Seq<char>,
    key_path: Seq<char>,
    key_pass: Seq<char>,
    key_alias: Seq<char>,
) -> Seq<Seq<char>> {
    seq![
        "-jar"@, bundletool, "build-apks"@, "--bundle"@, aab, "--output"@, output, "--overwrite"@,
        "--ks"@, key_path, "--ks-pass"@, "pass:"@ + key_pass, "--ks-key-alias"@, key_alias,
    ]
}

/// The arguments of `java` that install the APK set `apks` with the bundletool jar `bundletool`.
pub open spec fn install_apks_args(bundletool: Seq<char>, apks: Seq<char>) -> Seq<Seq<char>> {
    seq!["-jar"@, bundletool, "install-apks"@, "--apks"@, apks]
}

/// The action of an accepted run step.
pub open spec fn run_action_fits(kind: PlanStepKind, artifact: Option<Artifact>, tools: PlanTools, a: RunAction) -> bool {
    match kind {
        PlanStepKind::GenerateApksArchive => {
            &&& artifact matches Some(Artifact::NativeAab { path, package, key, .. })
            &&& a matches RunAction::GenerateApks { command, output }
            &&& output@ == apks_output_path(path@, package@)
            &&& command.program@ == tools.java->0@
            &&& command.args.deep_view() == build_apks_args(
                tools.bundletool->0@,
                path@,
                output@,
                key.key_path@,
                key.key_pass@,
                key.key_alias@,
            )
        },
        PlanStepKind::InstallArtifact => match artifact {
            Some(Artifact::NativeApk { path, .. }) => a matches RunAction::InstallApk { path: p } && p@ == path@,
            Some(Artifact::NativeAab { apks, .. }) => {
                &&& a matches RunAction::InstallApks { command }
                &&& command.program@ == tools.java->0@
                &&& command.args.deep_view() == install_apks_args(tools.bundletool->0@, apks->0@)
            },
            Some(Artifact::Gradle { project }) => {
                &&& a matches RunAction::InstallGradle { command }
                &&& command.program@ == tools.gradle->0@
                &&& command.args.deep_view() == seq!["installDebug"@, "-p"@, project@]
            },
            None => false,
        },
        PlanStepKind::LaunchApplication => match artifact {
            Some(Artifact::NativeApk { manifest_package, .. }) => a matches RunAction::Launch { package, activity }
                && package@ == manifest_package->0@ && activity@ == "android.app.NativeActivity"@,
            Some(Artifact::NativeAab { manifest_package, .. }) => a matches RunAction::Launch { package, activity }
                && package@ == manifest_package->0@ && activity@ == "android.app.NativeActivity"@,
            Some(Artifact::Gradle { .. }) => a matches RunAction::Launch { package, activity }
                && package@ == "com.crossbow.game"@ && activity@ == ".CrossbowApp"@,
            None => false,
        },
        PlanStepKind::AttachLogger => a is AttachLogger,
        _ => false,
    }
}

fn step_kind_name(kind: PlanStepKind) -> (r: &'static str)
    ensures r@ == step_kind_text(kind),
{
    match kind {
        PlanStepKind::BuildRustLibrary => "BuildRustLibrary",
        PlanStepKind::BuildNativeApk => "BuildNativeApk",
        PlanStepKind::BuildNativeAab => "BuildNativeAab",
        PlanStepKind::PrepareGradleProject => "PrepareGradleProject",
        PlanStepKind::BuildGradleProject => "BuildGradleProject",
        PlanStepKind::GenerateApksArchive => "GenerateApksArchive",
        PlanStepKind::InstallArtifact => "InstallArtifact",
        PlanStepKind::LaunchApplication => "LaunchApplication",
        PlanStepKind::AttachLogger => "AttachLogger",
    }
}

/// The file name of the APK set generated for `package`: `<package>.apks`.
pub fn apks_file_name(package: &str) -> (r: String)
    ensures r@ == apks_file_name_of(package@),
{
    let mut s = package.to_owned();
    s.append(".apks");
    s
}

/// The path of the APK set of the bundle at `aab`, built for `package`.
pub fn apks_output(aab: &str, package: &str) -> (r: String)
    requires
        has_parent_folder(aab@),
    ensures r@ == apks_output_path(aab@, package@),
{
    let n = aab.unicode_len();
    let mut k: usize = n;
    while k > 0 && aab.get_char(k - 1) != '/'
        invariant
            k <= n,
            n == aab@.len(),
            last_index_below(aab@, '/', n as nat) == last_index_below(aab@, '/', k as nat),
        decreases k,
    {
        k = k - 1;
    }
    let name = apks_file_name(package);
    if k == 0 {
        name
    } else if k == 1 {
        let mut s = "/".to_owned();
        s.append(name.as_str());
        proof { reveal_strlit("/"); }
        assert(s@ =~= seq!['/'] + apks_file_name_of(package@));
        s
    } else {
        let mut s = aab.substring_char(0, k - 1).to_owned();
        s.append("/");
        s.append(name.as_str());
        proof { reveal_strlit("/"); }
        assert(s@ =~= aab@.subrange(0, k - 1) + seq!['/'] + apks_file_name_of(package@));
        s
    }
}

/// The `java -jar <bundletool> build-apks` command line of the APK set step.
pub fn build_apks_command(
    java: &str,
    bundletool: &str,
    aab: &str,
    output: &str,
    key_path: &str,
    key_pass: &str,
    key_alias: &str,
) -> (c: ToolCommand)
    ensures
        c.program@ == java@,
        c.args.deep_view() == build_apks_args(bundletool@, aab@, output@, key_path@, key_pass@, key_alias@),
{
    let mut c = ToolCommand::new(java);
    push_arg(&mut c.args, "-jar");
    push_arg(&mut c.args, bundletool);
    push_arg(&mut c.args, "build-apks");
    push_arg(&mut c.args, "--bundle");
    push_arg(&mut c.args, aab);
    push_arg(&mut c.args, "--output");
    push_arg(&mut c.args, output);
    push_arg(&mut c.args, "--overwrite");
    push_arg(&mut c.args, "--ks");
    push_arg(&mut c.args, key_path);
    push_arg(&mut c.args, "--ks-pass");
    let mut pass = "pass:".to_owned();
    pass.append(key_pass);
    push_string(&mut c.args, pass);
    push_arg(&mut c.args, "--ks-key-alias");
    push_arg(&mut c.args, key_alias);
    c
}

/// The `java -jar <bundletool> install-apks --apks <apks>` command line of the
/// install step of an App Bundle.
pub fn install_apks_command(java: &str, bundletool: &str, apks: &str) -> (c: ToolCommand)
    ensures
        c.program@ == java@,
        c.args.deep_view() == install_apks_args(bundletool@, apks@),
{
    let mut c = ToolCommand::new(java);
    push_arg(&mut c.args, "-jar");
    push_arg(&mut c.args, bundletool);
    push_arg(&mut c.args, "install-apks");
    push_arg(&mut c.args, "--apks");
    push_arg(&mut c.args, apks);
    c
}

fn bundletool_tools(tools: &PlanTools) -> (r: Result<(String, String), String>)
    ensures
        match r {
            Ok((j, b)) => bundletool_error(*tools) is None && j@ == tools.java->0@ && b@ == tools.bundletool->0@,
            Err(m) => bundletool_error(*tools) == Some(m@),
        },
{
    let java = match &tools.java {
        Some(j) => j.clone(),
        None => { return Err(absent("Java")); },
    };
    let bundletool = match &tools.bundletool {
        Some(b) => b.clone(),
        None => { return Err(absent("bundletool")); },
    };
    Ok((java, bundletool))
}

/// What a run step that is not one of building does, given what was built and
/// the tools of the plan; the error says what is missing.
pub fn run_step(kind: PlanStepKind, artifact: &Option<Artifact>, tools: &PlanTools) -> (r: Result<RunAction, String>)
    requires
        kind == PlanStepKind::GenerateApksArchive ==> (artifact matches Some(Artifact::NativeAab { path, .. })
            ==> has_parent_folder(path@)),
    ensures
        match r {
            Ok(a) => run_step_error(kind, *artifact, *tools) is None && run_action_fits(kind, *artifact, *tools, a),
            Err(m) => run_step_error(kind, *artifact, *tools) == Some(m@),
        },
{
    match kind {
        PlanStepKind::GenerateApksArchive => {
            let (java, bundletool) = bundletool_tools(tools)?;
            match artifact {
                Some(Artifact::NativeAab { path, package, key, .. }) => {
                    let output = apks_output(path.as_str(), package.as_str());
                    let command = build_apks_command(
                        java.as_str(),
                        bundletool.as_str(),
                        path.as_str(),
                        output.as_str(),
                        key.key_path.as_str(),
                        key.key_pass.as_str(),
                        key.key_alias.as_str(),
                    );
                    Ok(RunAction::GenerateApks { command, output })
                },
                _ => Err("AAB artifact was not built".to_owned()),
            }
        },
        PlanStepKind::InstallArtifact => match artifact {
            None => Err("installable artifact was not built".to_owned()),
            Some(Artifact::NativeApk { path, .. }) => Ok(RunAction::InstallApk { path: path.clone() }),
            Some(Artifact::NativeAab { apks, .. }) => match apks {
                None => Err("APKs archive was not generated".to_owned()),
                Some(p) => {
                    let (java, bundletool) = bundletool_tools(tools)?;
                    Ok(RunAction::InstallApks { command: install_apks_command(java.as_str(), bundletool.as_str(), p.as_str()) })
                },
            },
            Some(Artifact::Gradle { project }) => match &tools.gradle {
                Some(g) => Ok(RunAction::InstallGradle { command: gradle_command(g.as_str(), "installDebug", project.as_str()) }),
                None => Err(absent("Gradle executable")),
            },
        },
        PlanStepKind::LaunchApplication => match artifact {
            None => Err("launchable artifact was not built".to_owned()),
            Some(Artifact::NativeApk { manifest_package, .. }) | Some(Artifact::NativeAab { manifest_package, .. }) => {
                match manifest_package {
                    Some(p) => Ok(RunAction::Launch { package: p.clone(), activity: "android.app.NativeActivity".to_owned() }),
                    None => Err("Android manifest package is missing".to_owned()),
                }
            },
            Some(Artifact::Gradle { .. }) => Ok(RunAction::Launch {
                package: "com.crossbow.game".to_owned(),
                activity: ".CrossbowApp".to_owned(),
            }),
        },
        PlanStepKind::AttachLogger => match artifact {
            None => Err("artifact was not built".to_owned()),
            Some(_) => Ok(RunAction::AttachLogger),
        },
        _ => {
            let mut m = "unexpected ".to_owned();
            m.append(step_kind_name(kind));
            m.append(" step in run plan");
            Err(m)
        },
    }
}

/// What is built after a run action: generating the APK set of a bundle
/// records the set's path; the other actions build nothing.
pub open spec fn artifact_after_run(action: RunAction, artifact: Option<Artifact>) -> Option<Artifact> {
    match (action, artifact) {
        (RunAction::GenerateApks { output, .. }, Some(Artifact::NativeAab { path, package, manifest_package, key, .. })) =>
            Some(Artifact::NativeAab { path, package, manifest_package, key, apks: Some(output) }),
        (_, a) => a,
    }
}

/// What is built after a run action.
pub fn next_artifact_after_run(action: RunAction, artifact: Option<Artifact>) -> (r: Option<Artifact>)
    ensures r == artifact_after_run(action, artifact),
{
    match (action, artifact) {
        (RunAction::GenerateApks { output, .. }, Some(Artifact::NativeAab { path, package, manifest_package, key, .. })) =>
            Some(Artifact::NativeAab { path, package, manifest_package, key, apks: Some(output) }),
        (_, a) => a,
    }
}

/// Installing after generating the APK set installs that set: once the
/// generate step of a bundle is accepted, the install step on what it
/// recorded is accepted and passes the set's path to `install-apks`.
pub proof fn lemma_install_uses_generated_apks(artifact: Option<Artifact>, tools: PlanTools, generate: RunAction, install: RunAction)
    requires
        run_step_error(PlanStepKind::GenerateApksArchive, artifact, tools) is None,
        run_action_fits(PlanStepKind::GenerateApksArchive, artifact, tools, generate),
        run_action_fits(PlanStepKind::InstallArtifact, artifact_after_run(generate, artifact), tools, install),
    ensures
        run_step_error(PlanStepKind::InstallArtifact, artifact_after_run(generate, artifact), tools) is None,
        generate matches RunAction::GenerateApks { output, .. } && install matches RunAction::InstallApks { command }
            && command.args.deep_view() == install_apks_args(tools.bundletool->0@, output@),
{
}

/// How an iOS application is signed.
#[derive(Debug, Clone)]
pub enum IosSigning {
    /// Ad-hoc, for the Simulator when no identity is given.
    AdHoc,
    /// With the identity, its provisioning profile and the team.
    Identity { identity: String, profile_path: String, team_id: String },
    /// Not at all: a device build without an identity.
    Unsigned,
}

/// How an iOS application is signed, or why it cannot be.
pub open spec fn ios_signing_error(is_simulator: bool, identity: Option<String>, profile_path: Option<String>, team_id: Option<String>) -> Option<Seq<char>> {
    if is_simulator && identity is None {
        None
    } else if identity is Some && profile_path is None {
        Some("--profile-path is required with --signing-identity"@)
    } else if identity is Some && team_id is None {
        Some("--team-id is required with --signing-identity"@)
    } else {
        None
    }
}

/// The signing of an accepted iOS build.
pub open spec fn ios_signing_fits(
    is_simulator: bool,
    identity: Option<String>,
    profile_path: Option<String>,
    team_id: Option<String>,
    s: IosSigning,
) -> bool {
    if is_simulator && identity is None {
        s is AdHoc
    } else if identity is Some {
        s matches IosSigning::Identity { identity: i, profile_path: p, team_id: t }
            && i@ == identity->0@ && p@ == profile_path->0@ && t@ == team_id->0@
    } else {
        s is Unsigned
    }
}

/// How an iOS application for the Simulator (or not) is signed: ad hoc in the
/// Simulator without an identity; with an identity, with its profile and team,
/// which must be given; otherwise not at all.
pub fn ios_signing(
    is_simulator: bool,
    identity: &Option<String>,
    profile_path: &Option<String>,
    team_id: &Option<String>,
) -> (r: Result<IosSigning, String>)
    ensures
        match r {
            Ok(s) => ios_signing_error(is_simulator, *identity, *profile_path, *team_id) is None
                && ios_signing_fits(is_simulator, *identity, *profile_path, *team_id, s),
            Err(m) => ios_signing_error(is_simulator, *identity, *profile_path, *team_id) == Some(m@),
        },
{
    if is_simulator && identity.is_none() {
        return Ok(IosSigning::AdHoc);
    }
    match identity {
        Some(i) => {
            let p = match profile_path {
                Some(p) => p.clone(),
                None => { return Err("--profile-path is required with --signing-identity".to_owned()); },
            };
            let t = match team_id {
                Some(t) => t.clone(),
                None => { return Err("--team-id is required with --signing-identity".to_owned()); },
            };
            Ok(IosSigning::Identity { identity: i.clone(), profile_path: p, team_id: t })
        },
        None => Ok(IosSigning::Unsigned),
    }
}

/// One check of a plan's diagnosis.
#[derive(Debug, Clone)]
pub struct PlanCheck {
    pub failed: bool,
    pub summary: String,
    pub remediation: Option<String>,
}

/// How a failed check is reported: its summary, followed by `: ` and the
/// remediation when there is one.
pub open spec fn check_text(c: PlanCheck) -> Seq<char> {
    match c.remediation {
        Some(r) => c.summary@ + ": "@ + r@,
        None => c.summary@,
    }
}

/// The reports of the failed checks, in order.
pub open spec fn failure_texts(checks: Seq<PlanCheck>) -> Seq<Seq<char>>
    decreases checks.len(),
{
    if checks.len() == 0 {
        Seq::empty()
    } else {
        let p = failure_texts(checks.drop_last());
        if checks.last().failed { p.push(check_text(checks.last())) } else { p }
    }
}

/// The message of a failed plan.
pub open spec fn invalid_plan_message(checks: Seq<PlanCheck>) -> Seq<char> {
    "Android build plan is invalid: "@ + join(failure_texts(checks), "; "@)
}

/// Accepts a plan whose diagnosis did not fail; a failed one is refused with
/// the reports of its failed checks joined by `; `.
pub fn ensure_plan_valid(plan_failed: bool, checks: &Vec<PlanCheck>) -> (r: Result<(), String>)
    ensures
        match r {
            Ok(()) => !plan_failed,
            Err(m) => plan_failed && m@ == invalid_plan_message(checks@),
        },
{
    if !plan_failed {
        return Ok(());
    }
    let mut texts: Vec<String> = Vec::new();
    let mut k: usize = 0;
    assert(checks@.take(0) =~= Seq::<PlanCheck>::empty());
    while k < checks.len()
        invariant
            k <= checks.len(),
            texts.deep_view() == failure_texts(checks@.take(k as int)),
        decreases checks.len() - k,
    {
        assert(checks@.take(k + 1).drop_last() =~= checks@.take(k as int));
        assert(checks@.take(k + 1).last() == checks@[k as int]);
        let c = &checks[k];
        if c.failed {
            let mut t = c.summary.clone();
            match &c.remediation {
                Some(r) => {
                    t.append(": ");
                    t.append(r.as_str());
                },
                None => {},
            }
            let ghost before = texts.deep_view();
            texts.push(t);
            assert(texts.deep_view() =~= before.push(check_text(checks@[k as int])));
        }
        k = k + 1;
    }
    assert(checks@.take(checks.len() as int) =~= checks@);
    let mut m = "Android build plan is invalid: ".to_owned();
    let joined = join_strings(&texts, "; ");
    m.append(joined.as_str());
    Err(m)
}

} // verus!

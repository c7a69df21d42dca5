use crossbundle::error::{AndroidError, Error};
use crossbundle::tools::aapt2::compile::{Aapt2Compile, Visibility};
use crossbundle::tools::aapt2::convert::OutputFormat;
use crossbundle::tools::aapt2::dump::SubCommand;
use crossbundle::tools::aapt2::gen_apk_aapt2::aapt2_link;
use crossbundle::tools::aapt2::link::Aapt2Link;
use crossbundle::tools::aapt2::Aapt2;
use crossbundle::tools::bundletool::extract_apks::ExtractApks;
use crossbundle::tools::bundletool::get_device_spec::GetDeviceSpec;
use crossbundle::tools::bundletool::get_size_total::GetSizeTotal;
use crossbundle::tools::bundletool::install_apks::InstallApks;
use crossbundle::tools::bundletool::jarsigner::Jarsigner;
use crossbundle::tools::bundletool::Bundletool;

fn strings(items: &[&str]) -> Vec<String> {
    items.iter().map(|s| s.to_string()).collect()
}

#[test]
fn compile_command_lists_found_files_then_options() {
    let mut compile = Aapt2Compile::new("res", "compiled");
    compile.output_text_symbols("text.txt".to_string()).no_crunch(true).verbose(true);
    let c = compile.command(&strings(&["res/a.png", "res/values/b.xml"]));
    assert_eq!(c.program, "aapt2");
    assert_eq!(
        c.args,
        strings(&[
            "compile",
            "res/a.png",
            "res/values/b.xml",
            "-o",
            "compiled",
            "--output-text-symbols",
            "text.txt",
            "--no-crunch",
            "-v",
        ])
    );
}

#[test]
fn compile_from_a_directory_names_it() {
    let compile = Aapt2Compile::new_from_res_dir("res", "out");
    let c = compile.command(&strings(&["res/ignored.png"]));
    assert_eq!(c.args, strings(&["compile", "-o", "out", "--dir", "res"]));
    let compile = Aapt2Compile::new_from_res_zip("res.zip", "out");
    assert_eq!(compile.command(&vec![]).args, strings(&["compile", "-o", "out", "--zip", "res.zip"]));
    let compile = Aapt2.compile("res", "out", Visibility::Public);
    assert_eq!(
        compile.command(&strings(&["res/x.xml"])).args,
        strings(&["compile", "res/x.xml", "-o", "out", "--visibility", "public"])
    );
    assert_eq!(Visibility::Private.to_string(), "private");
}

#[test]
fn link_command_starts_with_inputs_output_and_manifest() {
    let mut link = Aapt2Link::new(&strings(&["a.flat", "b.flat"]), "app.apk".to_string(), "AndroidManifest.xml");
    link.i("android.jar".to_string()).min_sdk_version(21).target_sdk_version(30).proto_format(true);
    let c = link.command();
    assert_eq!(c.program, "aapt2");
    assert_eq!(
        c.args,
        strings(&[
            "link",
            "a.flat",
            "b.flat",
            "-o",
            "app.apk",
            "--manifest",
            "AndroidManifest.xml",
            "-I",
            "android.jar",
            "--min-sdk-version",
            "21",
            "--target-sdk-version",
            "30",
            "--proto-format",
        ])
    );
}

#[test]
fn link_joins_configurations_and_writes_densities() {
    let mut link = Aapt2Link::new(&strings(&["a.flat"]), "o.apk".to_string(), "m.xml");
    link.config("en".to_string()).config("fr".to_string()).preferred_density(-1);
    assert_eq!(
        link.command().args,
        strings(&["link", "a.flat", "-o", "o.apk", "--manifest", "m.xml", "-c", "en,fr", "--preferred-density", "-1"])
    );
}

#[test]
fn linking_against_a_platform_jar() {
    let link = aapt2_link("platforms/android-30/android.jar", &strings(&["x.flat"]), "out.apk", "m.xml");
    assert_eq!(
        link.command().args,
        strings(&["link", "x.flat", "-o", "out.apk", "--manifest", "m.xml", "-I", "platforms/android-30/android.jar"])
    );
}

#[test]
fn dump_diff_convert_version_and_optimize_commands() {
    let mut dump = Aapt2.dump(SubCommand::Badging, "app.apk");
    dump.no_values(true).file("res/x.xml");
    assert_eq!(dump.command().args, strings(&["dump", "badging", "app.apk", "--no-values", "--file", "res/x.xml"]));
    assert_eq!(SubCommand::Xmltree.to_string(), "xmltree");

    let diff = Aapt2.diff(&strings(&["a.apk", "b.apk"]));
    assert_eq!(diff.command().args, strings(&["diff", "a.apk", "b.apk"]));

    let mut convert = Aapt2.convert("out.apk", OutputFormat::Proto);
    convert.keep_raw_values(true);
    assert_eq!(
        convert.command().args,
        strings(&["convert", "-o", "out.apk", "--output-format", "proto", "--keep-raw-values"])
    );
    assert_eq!(OutputFormat::Binary.to_string(), "binary");

    let version = Aapt2.version("2.19".to_string());
    assert_eq!(version.command().args, strings(&["version", "2.19"]));

    let mut optimize = Aapt2.optimize("out", "dir", "x");
    optimize.p(true).c("en");
    assert_eq!(optimize.command().args, strings(&["optimize", "-o", "out", "-d", "dir", "-x", "x", "-p", "-c", "en"]));
}

#[test]
fn jarsigner_command_ends_with_the_alternative_signer_path() {
    let mut j = Jarsigner::new();
    j.keystore("debug.keystore").storepass("android".to_string()).verify(true).strict(true);
    let c = j.command();
    assert_eq!(c.program, "jarsigner");
    assert_eq!(c.args, strings(&["-keystore", "debug.keystore", "-storepass", "android", "-verify", "-strict"]));
    let mut j = Jarsigner::new();
    j.keypass("secret".to_string()).altsignerpath("a.jar").altsignerpath("b.jar");
    assert_eq!(j.command().args, strings(&["-keypass", "secret", "-altsignerpath", "a.jar,b.jar"]));
}

#[test]
fn bundletool_commands() {
    let mut size = Bundletool.get_size_total("app.apks");
    size.instant(true).modules("base");
    let c = size.command();
    assert_eq!(c.program, "bundletool");
    assert_eq!(c.args, strings(&["get-size", "total", "--apks=app.apks", "--instant", "--modules=base"]));

    let extract = Bundletool.extract_apks("app.apks", "out", "spec.json");
    let c = extract.command();
    assert_eq!(c.program, "bundletool");
    assert_eq!(c.args, strings(&["extract-apks", "--apks=app.apks", "--device-spec=spec.json", "--dimensions=out"]));

    let plain = ExtractApks::new("x.apks");
    assert_eq!(plain.command().args, strings(&["extract-apks", "--apks=x.apks"]));
}

#[test]
fn java_bundletool_commands_need_the_bundletool_path() {
    let mut install = InstallApks::new("app.apks");
    install.local_testing(true).device_id("emulator-5554".to_string());
    let c = install.command(Some("/opt/bundletool.jar".to_string())).unwrap();
    assert_eq!(c.program, "java");
    assert_eq!(
        c.args,
        strings(&[
            "-jar",
            "/opt/bundletool.jar",
            "install-apks",
            "--apks",
            "app.apks",
            "--local-testing",
            "--device-id",
            "emulator-5554",
        ])
    );
    assert_eq!(install.command(None).unwrap_err(), Error::Android(AndroidError::BundletoolNotFound));

    let spec = GetDeviceSpec::new("spec.json");
    assert_eq!(
        spec.command(Some("b.jar".to_string())).unwrap().args,
        strings(&["-jar", "b.jar", "get-device-spec", "--output", "spec.json"])
    );
    assert!(spec.command(None).is_err());
    let size = GetSizeTotal::new("a.apks");
    assert_eq!(size.command().args, strings(&["get-size", "total", "--apks=a.apks"]));
}

#[test]
fn aapt2_compile_test() {
    let link = crossbundle::tools::aapt2::gen_unaligned_apk_aapt2::gen_aapt2_apk(
        &strings(&["res\\mipmap\\Screenshot_2.png"]),
        "res\\mipmap\\",
        "platforms\\android-30\\android.jar",
        &strings(&["res\\mipmap\\mipmap_Screenshot_2.png.flat"]),
        "res\\mipmap\\test.apk",
        "res\\mipmap\\AndroidManifest.xml",
    );
    assert_eq!(
        link.command().args,
        strings(&[
            "link",
            "res\\mipmap\\mipmap_Screenshot_2.png.flat",
            "-o",
            "res\\mipmap\\test.apk",
            "--manifest",
            "res\\mipmap\\AndroidManifest.xml",
            "-I",
            "platforms\\android-30\\android.jar",
        ])
    );
}

#[test]
fn main() {
    let dir = "D:\\programing\\work\\creator-rs\\creator\\examples\\3d\\res\\android\\mipmap-xxhdpi";
    let link = aapt2_link(
        "platforms\\android-30\\android.jar",
        &[format!("{dir}\\mipmap-xxhdpi_ic_launcher.png.flat")],
        &format!("{dir}\\Test_apk.apk"),
        &format!("{dir}\\AndroidManifest.xml"),
    );
    let c = link.command();
    assert_eq!(c.program, "aapt2");
    assert_eq!(c.args[1], format!("{dir}\\mipmap-xxhdpi_ic_launcher.png.flat"));
    assert_eq!(c.args[c.args.len() - 1], "platforms\\android-30\\android.jar");
}

#[test]
fn download_test() {
    let command = crossbundle::cli::install::NdkInstallCommand {
        ndk: None,
        uninstall: None,
        required_tools: true,
        list: false,
        update: false,
    };
    assert_eq!(
        command.args("/sdk"),
        strings(&[
            "--sdk_root=/sdk",
            "ndk;22.0.7026061",
            "build-tools;30.0.0",
            "cmdline-tools;latest",
            "extras;google;usb_driver",
            "extras;google;Android_Emulator_Hypervisor_Driver",
            "ndk;22.0.7026061",
            "platforms;android-30",
            "sources;android-30",
        ])
    );
    let mut ndk = command.clone();
    ndk.ndk = Some("23.1.7779620".to_string());
    ndk.required_tools = false;
    ndk.update = true;
    assert_eq!(ndk.args("/sdk"), strings(&["--sdk_root=/sdk", "ndk;23.1.7779620", "--update"]));
}

#[test]
fn builder_test_one() {
    let mut aapt2 = crossbundle::tools::aapt2::dump::Aapt2Dump::new(
        SubCommand::Configurations,
        "C:/Users/den99/AndroidStudioProjects/creator_paint.apk",
    );
    aapt2.no_values(true);
    let c = aapt2.command();
    assert_eq!(c.program, "aapt2");
    assert_eq!(
        c.args,
        strings(&["dump", "configurations", "C:/Users/den99/AndroidStudioProjects/creator_paint.apk", "--no-values"])
    );
}

#[test]
fn extract_apks_test() {
    let c = ExtractApks::new("res\\mipmap\\").command();
    assert_eq!(c.program, "bundletool");
    assert_eq!(c.args, strings(&["extract-apks", "--apks=res\\mipmap\\"]));
}

#[test]
fn new() {
    let apks = "C:\\Users\\den99\\Desktop\\Work\\DodoRare\\creator\\target\\android\\debug\\threed.apks";
    let install = InstallApks::new(apks);
    assert_eq!(install.command(None).unwrap_err(), Error::Android(AndroidError::BundletoolNotFound));
    assert_eq!(
        install.command(Some("bundletool.jar".to_string())).unwrap().args,
        strings(&["-jar", "bundletool.jar", "install-apks", "--apks", apks])
    );
}

#[test]
fn compile_facade_sets_only_the_visibility() {
    let compile = Aapt2.compile("res", "out", Visibility::Default);
    assert!(!compile.preserve_visibility_of_styleables);
    assert_eq!(compile.visibility, Some(Visibility::Default));
    assert!(compile.res_path.is_some() && compile.res_dir.is_none() && compile.res_zip.is_none());
}

#[test]
fn compile_builders_name_one_source() {
    for mut c in [
        Aapt2Compile::new("res", "out"),
        Aapt2Compile::new_from_res_dir("dir", "out"),
        Aapt2Compile::new_from_res_zip("res.zip", "out"),
    ] {
        c.legacy(true).verbose(true).trace_folder("trace");
        let sources = [c.res_path.is_some(), c.res_dir.is_some(), c.res_zip.is_some()];
        assert_eq!(sources.iter().filter(|s| **s).count(), 1);
    }
}

#[test]
fn link_options_follow_the_setters() {
    let mut link = Aapt2Link::new(&strings(&["a.flat"]), "o.apk".to_string(), "m.xml");
    link.assets("assets".to_string()).auto_add_overlay(true).version_code(3);
    let args = link.command().args;
    assert_eq!(&args[..7], &strings(&["link", "a.flat", "-o", "o.apk", "--manifest", "m.xml", "-A"])[..]);
    assert!(args.windows(2).any(|w| w[0] == "--version-code" && w[1] == "3"));
    assert!(args.iter().any(|a| a == "--auto-add-overlay"));
    let plain = Aapt2Link::new(&strings(&["a.flat"]), "o.apk".to_string(), "m.xml");
    assert_eq!(plain.command().args, strings(&["link", "a.flat", "-o", "o.apk", "--manifest", "m.xml"]));
}

#[test]
fn ndk_version_is_installed_when_named() {
    let command = crossbundle::cli::install::NdkInstallCommand {
        ndk: Some("25.2.9519653".to_string()),
        uninstall: Some("ndk;21.0.0".to_string()),
        required_tools: false,
        list: true,
        update: false,
    };
    assert_eq!(
        command.args("C:\\sdk"),
        strings(&["--sdk_root=C:\\sdk", "ndk;25.2.9519653", "--uninstall", "ndk;21.0.0", "--list"])
    );
}

#[test]
fn link_verbose_last_setting_wins() {
    let mut once = Aapt2Link::new(&strings(&["a.flat"]), "o.apk".to_string(), "m.xml");
    once.v(false);
    let mut twice = Aapt2Link::new(&strings(&["a.flat"]), "o.apk".to_string(), "m.xml");
    twice.v(true).v(false);
    assert_eq!(twice.command().args, once.command().args);
    twice.v(true);
    assert!(twice.command().args.contains(&"-v".to_string()));
}

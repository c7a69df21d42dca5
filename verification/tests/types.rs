use crossbundle::error::{AndroidError, Error};
use crossbundle::tools::CheckInfo;
use crossbundle::types::android_manifest::inner::{
    ActivityMetadata, ApplicationMetadata, Feature, IntentFilter, IntentFilterData, Permission,
};
use crossbundle::types::android_manifest::AndroidManifest;
use crossbundle::types::build_target::{AndroidTarget, AppleTarget, BuildTarget, CrateType, IntoRustTriple};
use crossbundle::types::profile::Profile;
use crossbundle::utils::config::Config;
use crossbundle::utils::shell::{Shell, Verbosity};

#[test]
fn android_target_names() {
    let t = AndroidTarget::Armv7LinuxAndroideabi;
    assert_eq!(t.android_abi(), "armeabi-v7a");
    assert_eq!(t.ndk_llvm_triple(), "armv7a-linux-androideabi");
    assert_eq!(t.ndk_triple(), "arm-linux-androideabi");
    assert_eq!(t.rust_triple(), "armv7-linux-androideabi");
    assert_eq!(AndroidTarget::X8664LinuxAndroid.android_abi(), "x86_64");
    assert_eq!(AndroidTarget::I686LinuxAndroid.ndk_triple(), "i686-linux-android");
}

#[test]
fn android_targets_read_back_from_their_names() {
    for t in [
        AndroidTarget::Armv7LinuxAndroideabi,
        AndroidTarget::Aarch64LinuxAndroid,
        AndroidTarget::I686LinuxAndroid,
        AndroidTarget::X8664LinuxAndroid,
    ] {
        assert_eq!(AndroidTarget::from_android_abi(t.android_abi()), Ok(t));
        assert_eq!(AndroidTarget::from_str(t.rust_triple()), Ok(t));
    }
    assert_eq!(
        AndroidTarget::from_android_abi("mips"),
        Err(Error::Android(AndroidError::UnsupportedTarget))
    );
    assert_eq!(
        AndroidTarget::from_str("mips-linux"),
        Err(AndroidError::InvalidBuildTarget("mips-linux".to_string()))
    );
    let parsed: AndroidTarget = "aarch64-linux-android".parse().unwrap();
    assert_eq!(parsed, AndroidTarget::Aarch64LinuxAndroid);
}

#[test]
fn apple_and_build_targets() {
    assert_eq!(AppleTarget::Aarch64AppleIos.rust_triple(), "aarch64-apple-ios");
    assert_eq!(AppleTarget::Armv7sAppleIos.rust_triple(), "armv7s-apple-ios");
    let b: BuildTarget = AndroidTarget::I686LinuxAndroid.into();
    assert_eq!(b.rust_triple(), "i686-linux-android");
    let b: BuildTarget = AppleTarget::X86_64AppleIos.into();
    assert_eq!(b.rust_triple(), "x86_64-apple-ios");
}

#[test]
fn crate_types_and_profiles() {
    assert_eq!(CrateType::Cdylib.as_ref(), "cdylib");
    assert_eq!(CrateType::Staticlib.as_ref(), "staticlib");
    assert_eq!(Profile::Debug.as_ref(), "debug");
    assert_eq!(Profile::from_str("release"), Ok(Profile::Release));
    assert_eq!(Profile::from_str("fast"), Err(Error::InvalidProfile("fast".to_string())));
    let p: Profile = "debug".parse().unwrap();
    assert_eq!(p, Profile::Debug);
    assert_eq!(Profile::default(), Profile::Debug);
}

#[test]
fn shell_and_config() {
    let mut shell = Shell::new();
    assert_eq!(shell.verbosity(), Verbosity::Normal);
    shell.set_verbosity(Verbosity::Quiet);
    let config = Config::new(shell, "/work".to_string());
    assert_eq!(config.current_dir(), "/work");
    assert_eq!(config.shell().verbosity(), Verbosity::Quiet);
}

#[test]
fn check_outcomes_invert() {
    let c = CheckInfo { dependency_name: "java".into(), check_name: "found".into(), passed: true };
    let i = c.clone().invert_passed();
    assert!(!i.passed);
    assert_eq!(i.dependency_name, "java");
    assert!(i.invert_passed() == c);
}

#[test]
fn manifest_elements_render_as_xml() {
    let f = Feature { name: "android.hardware.vulkan.level".into(), required: true };
    assert_eq!(f.to_string(), r#"<uses-feature android:name="android.hardware.vulkan.level" android:required="true"/>"#);
    let m = ApplicationMetadata { name: "a".into(), value: "b".into() };
    assert_eq!(m.to_string(), r#"<meta-data android:name="a" android:value="b"/>"#);
    let m = ActivityMetadata { name: "c".into(), value: "d".into() };
    assert_eq!(m.to_string(), r#"<meta-data android:name="c" android:value="d"/>"#);
    let p = Permission { name: "android.permission.INTERNET".into(), max_sdk_version: None };
    assert_eq!(p.to_string(), r#"<uses-permission android:name="android.permission.INTERNET" />"#);
    let p = Permission { name: "x".into(), max_sdk_version: Some(18) };
    assert_eq!(p.to_string(), r#"<uses-permission android:name="x" android:maxSdkVersion="18"/>"#);
    let d = IntentFilterData { scheme: Some("https".into()), host: None, prefix: Some("/p".into()) };
    assert_eq!(d.to_string(), r#"<data  android:scheme="https"   android:pathPrefix="/p"/>"#);
}

#[test]
fn intent_filters_render_as_xml() {
    let filter = IntentFilter {
        name: "android.intent.action.VIEW".into(),
        categories: vec!["android.intent.category.DEFAULT".into(), "android.intent.category.BROWSABLE".into()],
        data: vec![IntentFilterData { scheme: Some("x".into()), host: Some("h".into()), prefix: None }],
    };
    let expected = format!(
        "<intent-filter>
                \t{}
                \t{}
                \t<action android:name=\"{}\"/>
                </intent-filter>",
        "<category android:name=\"android.intent.category.DEFAULT\"/><category android:name=\"android.intent.category.BROWSABLE\"/>",
        "<data  android:scheme=\"x\"  android:host=\"h\" />",
        "android.intent.action.VIEW",
    );
    assert_eq!(filter.to_string(), expected);
}

fn manifest_text(m: &AndroidManifest, split: &str, gles: &str, icon: &str, fullscreen: &str, orientation: &str) -> String {
    format!(
        r#"<?xml version="1.0" encoding="utf-8"?>
<manifest xmlns:android="http://schemas.android.com/apk/res/android"
        package="{package_name}"
        android:versionCode="{version_code}"
        android:versionName="{version_name}"
        {split}>
    <uses-sdk
        android:targetSdkVersion="{target_sdk_version}"
        android:minSdkVersion="{min_sdk_version}" />
    <uses-feature android:glEsVersion="{opengles_version}" android:required="true"></uses-feature>
    {features}
    {permissions}
    <application
            android:hasCode="false"
            android:label="{package_label}"
            android:debuggable="{debuggable}"
            {icon}
            {fullscreen}>
            {application_metadatas}
        <activity
                android:name="android.app.NativeActivity"
                android:label="{package_label}"
                android:screenOrientation="{orientation}"
                android:configChanges="orientation|keyboardHidden|screenSize">
            <meta-data android:name="android.app.lib_name" android:value="{target_name}" />
            {activity_metadatas}
            <intent-filter>
                <action android:name="android.intent.action.MAIN" />
                <category android:name="android.intent.category.LAUNCHER" />
            </intent-filter>
            {intent_filters}
        </activity>
    </application>
</manifest>"#,
        package_name = m.package_name,
        package_label = m.package_label,
        version_name = m.version_name,
        version_code = m.version_code,
        split = split,
        target_sdk_version = m.target_sdk_version,
        min_sdk_version = m.min_sdk_version,
        opengles_version = gles,
        target_name = m.target_name,
        icon = icon,
        fullscreen = fullscreen,
        orientation = orientation,
        application_metadatas = m.application_metadatas.iter().map(|x| x.to_string()).collect::<Vec<_>>().join("\n"),
        activity_metadatas = m.activity_metadatas.iter().map(|x| x.to_string()).collect::<Vec<_>>().join("\n"),
        debuggable = m.debuggable,
        features = m.features.iter().map(|x| x.to_string()).collect::<Vec<_>>().join("\n"),
        permissions = m.permissions.iter().map(|x| x.to_string()).collect::<Vec<_>>().join("\n"),
        intent_filters = m.intent_filters.iter().map(|x| x.to_string()).collect::<Vec<_>>().join("\n"),
    )
}

fn sample_manifest() -> AndroidManifest {
    AndroidManifest {
        package_name: "com.example.game".into(),
        package_label: "Game".into(),
        version_name: "1.2".into(),
        version_code: 7,
        target_name: "game".into(),
        target_sdk_version: 30,
        min_sdk_version: 21,
        opengles_version: (3, 1),
        features: vec![
            Feature { name: "f1".into(), required: false },
            Feature { name: "f2".into(), required: true },
        ],
        permissions: vec![Permission { name: "android.permission.INTERNET".into(), max_sdk_version: None }],
        intent_filters: vec![],
        icon: None,
        fullscreen: false,
        orientation: None,
        debuggable: true,
        split: None,
        application_metadatas: vec![ApplicationMetadata { name: "k".into(), value: "v".into() }],
        activity_metadatas: vec![],
    }
}

#[test]
fn manifest_renders_with_defaults() {
    let m = sample_manifest();
    assert_eq!(m.to_string(), manifest_text(&m, "", "0x00030001", "", "", "unspecified"));
}

#[test]
fn manifest_renders_optional_attributes() {
    let mut m = sample_manifest();
    m.split = Some("feature1".into());
    m.icon = Some("@mipmap/ic_launcher".into());
    m.fullscreen = true;
    m.orientation = Some("landscape".into());
    m.opengles_version = (2, 0);
    assert_eq!(
        m.to_string(),
        manifest_text(
            &m,
            r#"split="feature1" android:isFeatureSplit="true""#,
            "0x00020000",
            r#"android:icon="@mipmap/ic_launcher""#,
            r#"android:theme="@android:style/Theme.DeviceDefault.NoActionBar.Fullscreen""#,
            "landscape",
        )
    );
}

//! The enumerated values that options of the command line take.
use vstd::prelude::*;
use crate::text::str_eq;

verus! {

/// What and how to build for Android.
#[derive(Debug, Clone, Copy, PartialEq, Eq, Structural)]
pub enum AndroidStrategy {
    /// A Gradle project that builds an APK.
    GradleApk,
    /// An APK built without Gradle.
    NativeApk,
    /// An Android App Bundle built without Gradle.
    NativeAab,
}

/// The name of a strategy on the command line.
pub open spec fn strategy_text(s: AndroidStrategy) -> Seq<char> {
    match s {
        AndroidStrategy::GradleApk => "gradle-apk"@,
        AndroidStrategy::NativeApk => "native-apk"@,
        AndroidStrategy::NativeAab => "native-aab"@,
    }
}

/// The strategy named `s`, if any.
pub open spec fn strategy_of_text(s: Seq<char>) -> Option<AndroidStrategy> {
    if s == "gradle-apk"@ {
        Some(AndroidStrategy::GradleApk)
    } else if s == "native-apk"@ {
        Some(AndroidStrategy::NativeApk)
    } else if s == "native-aab"@ {
        Some(AndroidStrategy::NativeAab)
    } else {
        None
    }
}

impl AndroidStrategy {
    /// The strategy named `s`, if any.
    pub fn from_text(s: &str) -> (r: Option<AndroidStrategy>)
        ensures r == strategy_of_text(s@),
    {
        if str_eq(s, "gradle-apk") {
            Some(AndroidStrategy::GradleApk)
        } else if str_eq(s, "native-apk") {
            Some(AndroidStrategy::NativeApk)
        } else if str_eq(s, "native-aab") {
            Some(AndroidStrategy::NativeAab)
        } else {
            None
        }
    }

    /// The name of the strategy on the command line.
    pub fn as_str(&self) -> (r: &'static str)
        ensures r@ == strategy_text(*self),
    {
        match self {
            AndroidStrategy::GradleApk => "gradle-apk",
            AndroidStrategy::NativeApk => "native-apk",
            AndroidStrategy::NativeAab => "native-aab",
        }
    }
}

/// Reading a strategy's name gives the strategy back.
pub proof fn lemma_strategy_round_trip(s: AndroidStrategy)
    ensures strategy_of_text(strategy_text(s)) == Some(s),
{
    reveal_strlit("gradle-apk");
    reveal_strlit("native-apk");
    reveal_strlit("native-aab");
    assert("gradle-apk"@[0] != "native-apk"@[0]);
    assert("native-apk"@[8] != "native-aab"@[8]);
}

/// The iOS targets that can be built.
#[derive(Debug, Clone, Copy, PartialEq, Eq, Structural)]
pub enum IosTarget {
    /// 64-bit ARM devices.
    Aarch64Device,
    /// The Simulator on 64-bit ARM hosts.
    Aarch64Simulator,
    /// The Simulator on x86-64 hosts.
    X86_64Simulator,
}

/// The Rust triple of an iOS target.
pub open spec fn ios_triple_text(t: IosTarget) -> Seq<char> {
    match t {
        IosTarget::Aarch64Device => "aarch64-apple-ios"@,
        IosTarget::Aarch64Simulator => "aarch64-apple-ios-sim"@,
        IosTarget::X86_64Simulator => "x86_64-apple-ios"@,
    }
}

/// The iOS target whose Rust triple is `s`, if any.
pub open spec fn ios_target_of_text(s: Seq<char>) -> Option<IosTarget> {
    if s == "aarch64-apple-ios"@ {
        Some(IosTarget::Aarch64Device)
    } else if s == "aarch64-apple-ios-sim"@ {
        Some(IosTarget::Aarch64Simulator)
    } else if s == "x86_64-apple-ios"@ {
        Some(IosTarget::X86_64Simulator)
    } else {
        None
    }
}

/// The Simulator target of a host: the ARM one on ARM hosts.
pub open spec fn host_simulator_of(host_is_aarch64: bool) -> IosTarget {
    if host_is_aarch64 { IosTarget::Aarch64Simulator } else { IosTarget::X86_64Simulator }
}

impl IosTarget {
    /// The iOS target whose Rust triple is `s`, if any.
    pub fn from_text(s: &str) -> (r: Option<IosTarget>)
        ensures r == ios_target_of_text(s@),
    {
        if str_eq(s, "aarch64-apple-ios") {
            Some(IosTarget::Aarch64Device)
        } else if str_eq(s, "aarch64-apple-ios-sim") {
            Some(IosTarget::Aarch64Simulator)
        } else if str_eq(s, "x86_64-apple-ios") {
            Some(IosTarget::X86_64Simulator)
        } else {
            None
        }
    }

    /// The Rust triple of the target.
    pub fn rust_triple(&self) -> (r: &'static str)
        ensures r@ == ios_triple_text(*self),
    {
        match self {
            IosTarget::Aarch64Device => "aarch64-apple-ios",
            IosTarget::Aarch64Simulator => "aarch64-apple-ios-sim",
            IosTarget::X86_64Simulator => "x86_64-apple-ios",
        }
    }

    /// Whether the target runs in the Simulator.
    pub fn is_simulator(&self) -> (r: bool)
        ensures r == (*self != IosTarget::Aarch64Device),
    {
        !matches!(self, IosTarget::Aarch64Device)
    }

    /// The Simulator target of the host, given whether the host is a 64-bit ARM machine.
    pub fn host_simulator(host_is_aarch64: bool) -> (r: IosTarget)
        ensures r == host_simulator_of(host_is_aarch64),
    {
        if host_is_aarch64 { IosTarget::Aarch64Simulator } else { IosTarget::X86_64Simulator }
    }
}

/// Reading an iOS target's Rust triple gives the target back.
pub proof fn lemma_ios_target_round_trip(t: IosTarget)
    ensures ios_target_of_text(ios_triple_text(t)) == Some(t),
{
    reveal_strlit("aarch64-apple-ios");
    reveal_strlit("aarch64-apple-ios-sim");
    reveal_strlit("x86_64-apple-ios");
    assert("aarch64-apple-ios"@.len() != "aarch64-apple-ios-sim"@.len());
    assert("aarch64-apple-ios"@[0] != "x86_64-apple-ios"@[0]);
    assert("aarch64-apple-ios-sim"@[0] != "x86_64-apple-ios"@[0]);
}

/// The platforms that `doctor` can diagnose.
#[derive(Debug, Clone, Copy, PartialEq, Eq, Structural)]
pub enum DoctorPlatform {
    Android,
    Apple,
}

/// The name of a platform on the command line.
pub open spec fn platform_text(p: DoctorPlatform) -> Seq<char> {
    match p {
        DoctorPlatform::Android => "android"@,
        DoctorPlatform::Apple => "apple"@,
    }
}

/// The platform named `s`, if any.
pub open spec fn platform_of_text(s: Seq<char>) -> Option<DoctorPlatform> {
    if s == "android"@ {
        Some(DoctorPlatform::Android)
    } else if s == "apple"@ {
        Some(DoctorPlatform::Apple)
    } else {
        None
    }
}

impl DoctorPlatform {
    /// The platform named `s`, if any.
    pub fn from_text(s: &str) -> (r: Option<DoctorPlatform>)
        ensures r == platform_of_text(s@),
    {
        if str_eq(s, "android") {
            Some(DoctorPlatform::Android)
        } else if str_eq(s, "apple") {
            Some(DoctorPlatform::Apple)
        } else {
            None
        }
    }

    /// The name of the platform on the command line.
    pub fn as_str(&self) -> (r: &'static str)
        ensures r@ == platform_text(*self),
    {
        match self {
            DoctorPlatform::Android => "android",
            DoctorPlatform::Apple => "apple",
        }
    }
}

/// Reading a platform's name gives the platform back.
pub proof fn lemma_platform_round_trip(p: DoctorPlatform)
    ensures platform_of_text(platform_text(p)) == Some(p),
{
    reveal_strlit("android");
    reveal_strlit("apple");
    assert("android"@[1] != "apple"@[1]);
}

/// The Android runtime an application is built for.
#[derive(Debug, Clone, Copy, PartialEq, Eq, Structural)]
pub enum AndroidRuntime {
    NativeActivity,
    GameActivity,
    Miniquad,
}

/// The name of a runtime.
pub open spec fn runtime_text(r: AndroidRuntime) -> Seq<char> {
    match r {
        AndroidRuntime::NativeActivity => "native-activity"@,
        AndroidRuntime::GameActivity => "game-activity"@,
        AndroidRuntime::Miniquad => "miniquad"@,
    }
}

impl AndroidRuntime {
    /// The name of the runtime.
    pub fn as_str(&self) -> (r: &'static str)
        ensures r@ == runtime_text(*self),
    {
        match self {
            AndroidRuntime::NativeActivity => "native-activity",
            AndroidRuntime::GameActivity => "game-activity",
            AndroidRuntime::Miniquad => "miniquad",
        }
    }
}

} // verus!

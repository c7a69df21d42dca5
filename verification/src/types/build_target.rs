//! Rust build targets of the Android and Apple platforms.
use vstd::prelude::*;
use crate::error::{AndroidError, Error};
use crate::text::str_eq;

verus! {

/// A type that names the target triple used by the Rust build tools.
pub trait IntoRustTriple {
    /// The triple, as text.
    spec fn rust_triple_text(&self) -> Seq<char>;

    /// Returns the triple used by the rust build tools
    fn rust_triple(&self) -> (r: &'static str)
        ensures r@ == self.rust_triple_text();
}

/// Android target architectures.
#[derive(Clone, Copy, Debug, Eq, PartialEq, Structural)]
pub enum AndroidTarget {
    Armv7LinuxAndroideabi,
    Aarch64LinuxAndroid,
    I686LinuxAndroid,
    X8664LinuxAndroid,
}

/// Identifier used in the NDK to refer to the ABI of `t`.
pub open spec fn android_abi_text(t: AndroidTarget) -> Seq<char> {
    match t {
        AndroidTarget::Armv7LinuxAndroideabi => "armeabi-v7a"@,
        AndroidTarget::Aarch64LinuxAndroid => "arm64-v8a"@,
        AndroidTarget::I686LinuxAndroid => "x86"@,
        AndroidTarget::X8664LinuxAndroid => "x86_64"@,
    }
}

/// The triple of the LLVM that the NDK provides for `t`.
pub open spec fn ndk_llvm_triple_text(t: AndroidTarget) -> Seq<char> {
    match t {
        AndroidTarget::Armv7LinuxAndroideabi => "armv7a-linux-androideabi"@,
        AndroidTarget::Aarch64LinuxAndroid => "aarch64-linux-android"@,
        AndroidTarget::I686LinuxAndroid => "i686-linux-android"@,
        AndroidTarget::X8664LinuxAndroid => "x86_64-linux-android"@,
    }
}

/// The triple used by the non-LLVM parts of the NDK for `t`.
pub open spec fn ndk_triple_text(t: AndroidTarget) -> Seq<char> {
    match t {
        AndroidTarget::Armv7LinuxAndroideabi => "arm-linux-androideabi"@,
        AndroidTarget::Aarch64LinuxAndroid => "aarch64-linux-android"@,
        AndroidTarget::I686LinuxAndroid => "i686-linux-android"@,
        AndroidTarget::X8664LinuxAndroid => "x86_64-linux-android"@,
    }
}

/// The Rust triple of `t`.
pub open spec fn android_rust_triple_text(t: AndroidTarget) -> Seq<char> {
    match t {
        AndroidTarget::Armv7LinuxAndroideabi => "armv7-linux-androideabi"@,
        AndroidTarget::Aarch64LinuxAndroid => "aarch64-linux-android"@,
        AndroidTarget::I686LinuxAndroid => "i686-linux-android"@,
        AndroidTarget::X8664LinuxAndroid => "x86_64-linux-android"@,
    }
}

/// The target whose NDK ABI is `abi`, if any.
pub open spec fn android_target_of_abi(abi: Seq<char>) -> Option<AndroidTarget> {
    if abi == "armeabi-v7a"@ {
        Some(AndroidTarget::Armv7LinuxAndroideabi)
    } else if abi == "arm64-v8a"@ {
        Some(AndroidTarget::Aarch64LinuxAndroid)
    } else if abi == "x86"@ {
        Some(AndroidTarget::I686LinuxAndroid)
    } else if abi == "x86_64"@ {
        Some(AndroidTarget::X8664LinuxAndroid)
    } else {
        None
    }
}

/// The target whose Rust triple is `triple`, if any.
pub open spec fn android_target_of_triple(triple: Seq<char>) -> Option<AndroidTarget> {
    if triple == "armv7-linux-androideabi"@ {
        Some(AndroidTarget::Armv7LinuxAndroideabi)
    } else if triple == "aarch64-linux-android"@ {
        Some(AndroidTarget::Aarch64LinuxAndroid)
    } else if triple == "i686-linux-android"@ {
        Some(AndroidTarget::I686LinuxAndroid)
    } else if triple == "x86_64-linux-android"@ {
        Some(AndroidTarget::X8664LinuxAndroid)
    } else {
        None
    }
}

impl AndroidTarget {
    /// Identifier used in the NDK to refer to the ABI
    pub fn android_abi(self) -> (r: &'static str)
        ensures r@ == android_abi_text(self),
    {
        match self {
            AndroidTarget::Armv7LinuxAndroideabi => "armeabi-v7a",
            AndroidTarget::Aarch64LinuxAndroid => "arm64-v8a",
            AndroidTarget::I686LinuxAndroid => "x86",
            AndroidTarget::X8664LinuxAndroid => "x86_64",
        }
    }

    /// Returns the triple NDK provided LLVM
    pub fn ndk_llvm_triple(self) -> (r: &'static str)
        ensures r@ == ndk_llvm_triple_text(self),
    {
        match self {
            AndroidTarget::Armv7LinuxAndroideabi => "armv7a-linux-androideabi",
            AndroidTarget::Aarch64LinuxAndroid => "aarch64-linux-android",
            AndroidTarget::I686LinuxAndroid => "i686-linux-android",
            AndroidTarget::X8664LinuxAndroid => "x86_64-linux-android",
        }
    }

    /// Returns the triple used by the non-LLVM parts of the NDK
    pub fn ndk_triple(self) -> (r: &'static str)
        ensures r@ == ndk_triple_text(self),
    {
        match self {
            AndroidTarget::Armv7LinuxAndroideabi => "arm-linux-androideabi",
            AndroidTarget::Aarch64LinuxAndroid => "aarch64-linux-android",
            AndroidTarget::I686LinuxAndroid => "i686-linux-android",
            AndroidTarget::X8664LinuxAndroid => "x86_64-linux-android",
        }
    }

    /// Returns `AndroidTarget` for abi.
    pub fn from_android_abi(abi: &str) -> (r: Result<Self, Error>)
        ensures
            r == match android_target_of_abi(abi@) {
                Some(t) => Ok::<AndroidTarget, Error>(t),
                None => Err(Error::Android(AndroidError::UnsupportedTarget)),
            },
    {
        if str_eq(abi, "armeabi-v7a") {
            Ok(AndroidTarget::Armv7LinuxAndroideabi)
        } else if str_eq(abi, "arm64-v8a") {
            Ok(AndroidTarget::Aarch64LinuxAndroid)
        } else if str_eq(abi, "x86") {
            Ok(AndroidTarget::I686LinuxAndroid)
        } else if str_eq(abi, "x86_64") {
            Ok(AndroidTarget::X8664LinuxAndroid)
        } else {
            Err(Error::Android(AndroidError::UnsupportedTarget))
        }
    }

    /// Returns `AndroidTarget` for a Rust triple.
    pub fn from_str(s: &str) -> (r: Result<Self, AndroidError>)
        ensures
            match android_target_of_triple(s@) {
                Some(t) => r == Ok::<AndroidTarget, AndroidError>(t),
                None => r matches Err(AndroidError::InvalidBuildTarget(e)) && e@ == s@,
            },
    {
        if str_eq(s, "armv7-linux-androideabi") {
            Ok(AndroidTarget::Armv7LinuxAndroideabi)
        } else if str_eq(s, "aarch64-linux-android") {
            Ok(AndroidTarget::Aarch64LinuxAndroid)
        } else if str_eq(s, "i686-linux-android") {
            Ok(AndroidTarget::I686LinuxAndroid)
        } else if str_eq(s, "x86_64-linux-android") {
            Ok(AndroidTarget::X8664LinuxAndroid)
        } else {
            Err(AndroidError::InvalidBuildTarget(s.to_owned()))
        }
    }
}

impl IntoRustTriple for AndroidTarget {
    open spec fn rust_triple_text(&self) -> Seq<char> {
        android_rust_triple_text(*self)
    }

    fn rust_triple(&self) -> (r: &'static str) {
        match self {
            AndroidTarget::Armv7LinuxAndroideabi => "armv7-linux-androideabi",
            AndroidTarget::Aarch64LinuxAndroid => "aarch64-linux-android",
            AndroidTarget::I686LinuxAndroid => "i686-linux-android",
            AndroidTarget::X8664LinuxAndroid => "x86_64-linux-android",
        }
    }
}

/// Reading the NDK ABI of a target gives the target back.
pub proof fn lemma_android_abi_round_trip(t: AndroidTarget)
    ensures android_target_of_abi(android_abi_text(t)) == Some(t),
{
    reveal_strlit("armeabi-v7a");
    reveal_strlit("arm64-v8a");
    reveal_strlit("x86");
    reveal_strlit("x86_64");
    assert("armeabi-v7a"@.len() == 11);
    assert("arm64-v8a"@.len() == 9);
    assert("x86"@.len() == 3);
    assert("x86_64"@.len() == 6);
}

/// Reading the Rust triple of a target gives the target back.
pub proof fn lemma_android_rust_triple_round_trip(t: AndroidTarget)
    ensures android_target_of_triple(android_rust_triple_text(t)) == Some(t),
{
    reveal_strlit("armv7-linux-androideabi");
    reveal_strlit("aarch64-linux-android");
    reveal_strlit("i686-linux-android");
    reveal_strlit("x86_64-linux-android");
    assert("armv7-linux-androideabi"@.len() == 23);
    assert("aarch64-linux-android"@.len() == 21);
    assert("i686-linux-android"@.len() == 18);
    assert("x86_64-linux-android"@.len() == 20);
}

/// Apple Target architectures.
#[derive(Clone, Copy, Debug, Eq, PartialEq, Structural)]
pub enum AppleTarget {
    X86_64AppleIos,
    I386AppleIos,
    Aarch64AppleIos,
    Armv7AppleIos,
    Armv7sAppleIos,
}

/// The Rust triple of `t`.
pub open spec fn apple_rust_triple_text(t: AppleTarget) -> Seq<char> {
    match t {
        AppleTarget::X86_64AppleIos => "x86_64-apple-ios"@,
        AppleTarget::I386AppleIos => "i386-apple-ios"@,
        AppleTarget::Aarch64AppleIos => "aarch64-apple-ios"@,
        AppleTarget::Armv7AppleIos => "armv7-apple-ios"@,
        AppleTarget::Armv7sAppleIos => "armv7s-apple-ios"@,
    }
}

impl IntoRustTriple for AppleTarget {
    open spec fn rust_triple_text(&self) -> Seq<char> {
        apple_rust_triple_text(*self)
    }

    fn rust_triple(&self) -> (r: &'static str) {
        match self {
            AppleTarget::X86_64AppleIos => "x86_64-apple-ios",
            AppleTarget::I386AppleIos => "i386-apple-ios",
            AppleTarget::Aarch64AppleIos => "aarch64-apple-ios",
            AppleTarget::Armv7AppleIos => "armv7-apple-ios",
            AppleTarget::Armv7sAppleIos => "armv7s-apple-ios",
        }
    }
}

/// A target of either platform.
#[derive(Debug, Clone, Copy, PartialEq, Eq, Structural)]
pub enum BuildTarget {
    Android(AndroidTarget),
    Apple(AppleTarget),
}

impl IntoRustTriple for BuildTarget {
    open spec fn rust_triple_text(&self) -> Seq<char> {
        match *self {
            BuildTarget::Android(t) => android_rust_triple_text(t),
            BuildTarget::Apple(t) => apple_rust_triple_text(t),
        }
    }

    fn rust_triple(&self) -> (r: &'static str) {
        match self {
            BuildTarget::Android(target) => target.rust_triple(),
            BuildTarget::Apple(target) => target.rust_triple(),
        }
    }
}

impl From<AppleTarget> for BuildTarget {
    fn from(target: AppleTarget) -> (r: Self) {
        BuildTarget::Apple(target)
    }
}

impl vstd::std_specs::convert::FromSpecImpl<AppleTarget> for BuildTarget {
    open spec fn obeys_from_spec() -> bool {
        true
    }

    open spec fn from_spec(v: AppleTarget) -> Self {
        BuildTarget::Apple(v)
    }
}

impl From<AndroidTarget> for BuildTarget {
    fn from(target: AndroidTarget) -> (r: Self) {
        BuildTarget::Android(target)
    }
}

impl vstd::std_specs::convert::FromSpecImpl<AndroidTarget> for BuildTarget {
    open spec fn obeys_from_spec() -> bool {
        true
    }

    open spec fn from_spec(v: AndroidTarget) -> Self {
        BuildTarget::Android(v)
    }
}

/// The targets of one platform.
#[derive(Debug, Clone)]
pub enum BuildTargets {
    Android(Vec<AndroidTarget>),
    Apple(Vec<AppleTarget>),
}

impl From<Vec<AndroidTarget>> for BuildTargets {
    fn from(targets: Vec<AndroidTarget>) -> (r: Self) {
        BuildTargets::Android(targets)
    }
}

impl vstd::std_specs::convert::FromSpecImpl<Vec<AndroidTarget>> for BuildTargets {
    open spec fn obeys_from_spec() -> bool {
        true
    }

    open spec fn from_spec(v: Vec<AndroidTarget>) -> Self {
        BuildTargets::Android(v)
    }
}

impl From<Vec<AppleTarget>> for BuildTargets {
    fn from(targets: Vec<AppleTarget>) -> (r: Self) {
        BuildTargets::Apple(targets)
    }
}

impl vstd::std_specs::convert::FromSpecImpl<Vec<AppleTarget>> for BuildTargets {
    open spec fn obeys_from_spec() -> bool {
        true
    }

    open spec fn from_spec(v: Vec<AppleTarget>) -> Self {
        BuildTargets::Apple(v)
    }
}

/// Kinds of Cargo crate output.
#[derive(Clone, Copy, Debug, Eq, PartialEq, Structural)]
pub enum CrateType {
    /// A runnable executable.
    Bin,
    /// A Rust library.
    Lib,
    /// A dynamic Rust library.
    Dylib,
    /// A static system library.
    Staticlib,
    /// A dynamic system library.
    Cdylib,
    /// A "Rust library" file.
    Rlib,
}

/// The name Cargo gives to a crate type.
pub open spec fn crate_type_text(c: CrateType) -> Seq<char> {
    match c {
        CrateType::Bin => "bin"@,
        CrateType::Lib => "lib"@,
        CrateType::Dylib => "dylib"@,
        CrateType::Staticlib => "staticlib"@,
        CrateType::Cdylib => "cdylib"@,
        CrateType::Rlib => "rlib"@,
    }
}

impl CrateType {
    /// The name Cargo gives to the crate type.
    pub fn as_ref(&self) -> (r: &'static str)
        ensures r@ == crate_type_text(*self),
    {
        match self {
            CrateType::Bin => "bin",
            CrateType::Lib => "lib",
            CrateType::Dylib => "dylib",
            CrateType::Staticlib => "staticlib",
            CrateType::Cdylib => "cdylib",
            CrateType::Rlib => "rlib",
        }
    }
}

impl std::str::FromStr for AndroidTarget {
    type Err = AndroidError;

    fn from_str(s: &str) -> (r: std::result::Result<Self, Self::Err>)
        ensures
            match android_target_of_triple(s@) {
                Some(t) => r == Ok::<AndroidTarget, AndroidError>(t),
                None => r matches Err(AndroidError::InvalidBuildTarget(e)) && e@ == s@,
            },
    {
        AndroidTarget::from_str(s)
    }
}

} // verus!

//! Types shared by the build commands.
pub mod android_manifest;
pub mod build_target;
pub mod info_plist;
pub mod profile;
pub mod target;

//! Keys of an Information Property List (`Info.plist`).
pub mod app_execution;
pub mod bundle_configuration;

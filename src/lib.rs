//! Extension packages for a command-line host: name rules, package
//! validation, install and uninstall planning, permission grants and the
//! module-loading policy that confines an extension's imports.

pub mod name;
pub mod path;
pub mod permissions;
pub mod extension;
pub mod listing;
pub mod loader;
pub mod run;

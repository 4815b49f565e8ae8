//! Turns a Cargo manifest into an Arch Linux PKGBUILD: the manifest is read
//! from its TOML text, the user's overrides and the defaults are applied,
//! and the resolved config is rendered as PKGBUILD text.
pub mod arch;
pub mod document;
pub mod locate;
pub mod manifest;

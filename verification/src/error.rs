//! The library's error type.

use vstd::prelude::*;

verus! {

/// `std::io::Error`, carried through unread.
#[verifier::external_type_specification]
#[verifier::external_body]
pub struct ExIoError(std::io::Error);

/// `toml::de::Error`, carried through unread.
#[verifier::external_type_specification]
#[verifier::external_body]
pub struct ExTomlDeError(toml::de::Error);

/// `toml::ser::Error`, carried through unread.
#[verifier::external_type_specification]
#[verifier::external_body]
pub struct ExTomlSerError(toml::ser::Error);

/// `serde_json::Error`, carried through unread.
#[verifier::external_type_specification]
#[verifier::external_body]
pub struct ExJsonError(serde_json::Error);

/// `battery::Error`, carried through unread.
#[verifier::external_type_specification]
#[verifier::external_body]
pub struct ExBatteryError(battery::Error);

/// `strfmt::FmtError`, carried through unread.
#[verifier::external_type_specification]
#[verifier::external_body]
pub struct ExFmtError(strfmt::FmtError);

/// `std::fmt::Error`, carried through unread.
#[verifier::external_type_specification]
#[verifier::external_body]
pub struct ExStdFmtError(std::fmt::Error);

/// `std::sync::mpsc::RecvError`, carried through unread.
#[verifier::external_type_specification]
#[verifier::external_body]
pub struct ExRecvError(std::sync::mpsc::RecvError);

/// Everything that can go wrong when the status bar reads its configuration
/// or runs a module.
#[derive(Debug)]
pub enum PbStatusError {
    Io(std::io::Error),
    ParseToml(toml::de::Error),
    SerializeToml(toml::ser::Error),
    SerializeJson(serde_json::Error),
    Battery(battery::Error),
    DynamicFormat(strfmt::FmtError),
    StaticFormat(std::fmt::Error),
    MsgRecv(std::sync::mpsc::RecvError),
    ModuleNotFound(String),
}

/// The result of the status bar's operations.
pub type Result<T> = std::result::Result<T, PbStatusError>;

} // verus!

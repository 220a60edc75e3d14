//! The error that the API reports: a message, and optionally a code and the
//! ledger version at which it arose.

use vstd::prelude::*;
use vstd::std_specs::convert::FromSpecImpl;
use vstd::string::to_string_from_display_ensures;

verus! {

/// `anyhow::Error`, carried through as it is: nothing is read from it but
/// its text.
#[verifier::external_type_specification]
#[verifier::external_body]
pub struct ExAnyhowError(anyhow::Error);

/// A 64-bit unsigned integer as the API carries it.
#[derive(Clone, Copy, Debug, PartialEq, Eq, Structural)]
pub struct U64(pub u64);

impl From<u64> for U64 {
    fn from(value: u64) -> (r: U64) {
        U64(value)
    }
}

impl FromSpecImpl<u64> for U64 {
    open spec fn obeys_from_spec() -> bool {
        true
    }

    open spec fn from_spec(value: u64) -> U64 {
        U64(value)
    }
}

/// These codes say more of an error than the HTTP status of the response
/// does.
#[derive(Clone, Copy, Debug, PartialEq, Eq, Structural)]
pub enum AptosErrorCode {
    /// The API failed to read from storage for this request, not because of a
    /// bad request, but because of some internal error.
    ReadFromStorageError,
    /// The data read from the DB was not valid BCS.
    InvalidBcsInStorageError,
    /// A Rust type could unexpectedly not be converted to BCS.
    BcsSerializationError,
    /// The start param given for paging is invalid.
    InvalidStartParam,
    /// The limit param given for paging is invalid.
    InvalidLimitParam,
    /// Health check failed.
    HealthCheckFailed,
    InternalError,
    AccountNotFound,
    ResourceNotFound,
    ModuleNotFound,
    StructFieldNotFound,
    VersionNotFound,
    VersionPruned,
}

impl AptosErrorCode {
    /// The integer of each code; they run from 1 upwards, one by one.
    pub open spec fn number(self) -> u8 {
        match self {
            AptosErrorCode::ReadFromStorageError => 1,
            AptosErrorCode::InvalidBcsInStorageError => 2,
            AptosErrorCode::BcsSerializationError => 3,
            AptosErrorCode::InvalidStartParam => 4,
            AptosErrorCode::InvalidLimitParam => 5,
            AptosErrorCode::HealthCheckFailed => 6,
            AptosErrorCode::InternalError => 7,
            AptosErrorCode::AccountNotFound => 8,
            AptosErrorCode::ResourceNotFound => 9,
            AptosErrorCode::ModuleNotFound => 10,
            AptosErrorCode::StructFieldNotFound => 11,
            AptosErrorCode::VersionNotFound => 12,
            AptosErrorCode::VersionPruned => 13,
        }
    }

    /// The integer that stands for this code.
    pub fn code(&self) -> (r: u8)
        ensures
            r == self.number(),
    {
        match self {
            AptosErrorCode::ReadFromStorageError => 1,
            AptosErrorCode::InvalidBcsInStorageError => 2,
            AptosErrorCode::BcsSerializationError => 3,
            AptosErrorCode::InvalidStartParam => 4,
            AptosErrorCode::InvalidLimitParam => 5,
            AptosErrorCode::HealthCheckFailed => 6,
            AptosErrorCode::InternalError => 7,
            AptosErrorCode::AccountNotFound => 8,
            AptosErrorCode::ResourceNotFound => 9,
            AptosErrorCode::ModuleNotFound => 10,
            AptosErrorCode::StructFieldNotFound => 11,
            AptosErrorCode::VersionNotFound => 12,
            AptosErrorCode::VersionPruned => 13,
        }
    }
}

/// The generic struct used for all API errors: a string message and an API
/// specific error code.
#[derive(Debug)]
pub struct AptosError {
    /// What went wrong, in words.
    pub message: String,
    /// The code of the error, where one applies.
    pub error_code: Option<AptosErrorCode>,
    /// The ledger version at which the error arose, where it is known.
    pub aptos_ledger_version: Option<U64>,
}

/// The `{:#}` form of `anyhow::Error`'s `Display`: the text of the error,
/// then that of each of its causes after a colon and a space. Nothing is
/// claimed of the text.
#[verifier::external_body]
fn chain_text(error: &anyhow::Error) -> (text: String) {
    format!("{:#}", error)
}

/// `text` is a text that `anyhow` has rendered `error` as, in the `{:#}` form.
/// The rendering runs the `Display` of whatever errors are wrapped, so it is
/// stated as a relation: two renderings of one error are not claimed equal.
pub closed spec fn renders_as(error: anyhow::Error, text: String) -> bool {
    call_ensures(chain_text, (&error,), text)
}

impl AptosError {
    /// An error that carries `message` and nothing else.
    pub fn new(message: String) -> (r: Self)
        ensures
            r.message == message,
            r.error_code is None,
            r.aptos_ledger_version is None,
    {
        AptosError { message, error_code: None, aptos_ledger_version: None }
    }

    /// An error whose message is what `error` displays as, with `error_code`.
    pub fn new_with_error_code<ErrorType: std::fmt::Display>(
        error: ErrorType,
        error_code: AptosErrorCode,
    ) -> (r: AptosError)
        ensures
            to_string_from_display_ensures::<ErrorType>(&error, r.message),
            r.error_code == Some(error_code),
            r.aptos_ledger_version is None,
    {
        AptosError {
            message: error.to_string(),
            error_code: Some(error_code),
            aptos_ledger_version: None,
        }
    }

    /// This error with its code set to `error_code`.
    pub fn error_code(self, error_code: AptosErrorCode) -> (r: Self)
        ensures
            r == (AptosError { error_code: Some(error_code), ..self }),
    {
        AptosError { error_code: Some(error_code), ..self }
    }

    /// This error with its ledger version set to `ledger_version`.
    pub fn aptos_ledger_version(self, ledger_version: u64) -> (r: Self)
        ensures
            r == (AptosError { aptos_ledger_version: Some(U64(ledger_version)), ..self }),
    {
        AptosError { aptos_ledger_version: Some(U64::from(ledger_version)), ..self }
    }
}

impl From<anyhow::Error> for AptosError {
    /// An error whose message is the `{:#}` text of `error`.
    fn from(error: anyhow::Error) -> (r: AptosError)
        ensures
            renders_as(error, r.message),
            r.error_code is None,
            r.aptos_ledger_version is None,
    {
        AptosError::new(chain_text(&error))
    }
}

/// The message comes from `anyhow`, so `from` is no function that could be
/// written down here: what it returns is stated on `from` itself.
impl FromSpecImpl<anyhow::Error> for AptosError {
    open spec fn obeys_from_spec() -> bool {
        false
    }

    open spec fn from_spec(error: anyhow::Error) -> AptosError {
        arbitrary()
    }
}

} // verus!

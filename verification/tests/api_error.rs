use aptos_logger::error::{AptosError, AptosErrorCode, U64};

#[test]
fn new_carries_only_the_message() {
    let e = AptosError::new("ledger not found".to_string());
    assert_eq!(e.message, "ledger not found");
    assert_eq!(e.error_code, None);
    assert_eq!(e.aptos_ledger_version, None);
}

#[test]
fn new_with_error_code_displays_the_error() {
    let e = AptosError::new_with_error_code("bad start", AptosErrorCode::InvalidStartParam);
    assert_eq!(e.message, "bad start");
    assert_eq!(e.error_code, Some(AptosErrorCode::InvalidStartParam));
    assert_eq!(e.aptos_ledger_version, None);

    let e = AptosError::new_with_error_code(404u16, AptosErrorCode::AccountNotFound);
    assert_eq!(e.message, "404");
    assert_eq!(e.error_code, Some(AptosErrorCode::AccountNotFound));
}

#[test]
fn error_code_sets_and_replaces_the_code() {
    let e = AptosError::new("m".to_string()).error_code(AptosErrorCode::InternalError);
    assert_eq!(e.message, "m");
    assert_eq!(e.error_code, Some(AptosErrorCode::InternalError));
    assert_eq!(e.aptos_ledger_version, None);
    let e = e.error_code(AptosErrorCode::VersionPruned);
    assert_eq!(e.error_code, Some(AptosErrorCode::VersionPruned));
    assert_eq!(e.message, "m");
}

#[test]
fn aptos_ledger_version_sets_the_version() {
    let e = AptosError::new_with_error_code("x", AptosErrorCode::HealthCheckFailed)
        .aptos_ledger_version(18_446_744_073_709_551_615);
    assert_eq!(e.aptos_ledger_version, Some(U64(u64::MAX)));
    assert_eq!(e.error_code, Some(AptosErrorCode::HealthCheckFailed));
    assert_eq!(e.message, "x");
    let e = e.aptos_ledger_version(0);
    assert_eq!(e.aptos_ledger_version, Some(U64(0)));
}

#[test]
fn u64_from_keeps_the_value() {
    assert_eq!(U64::from(77), U64(77));
    let v: U64 = 5u64.into();
    assert_eq!(v.0, 5);
}

#[test]
fn from_anyhow_joins_the_chain() {
    let inner = anyhow::Error::msg("disk full");
    let outer = inner.context("write failed").context("commit failed");
    let e = AptosError::from(outer);
    assert_eq!(e.message, "commit failed: write failed: disk full");
    assert_eq!(e.error_code, None);
    assert_eq!(e.aptos_ledger_version, None);
}

#[test]
fn from_anyhow_without_cause() {
    let e: AptosError = anyhow::Error::msg("plain").into();
    assert_eq!(e.message, "plain");
}

#[test]
fn codes_run_from_one_to_thirteen() {
    let all = [
        AptosErrorCode::ReadFromStorageError,
        AptosErrorCode::InvalidBcsInStorageError,
        AptosErrorCode::BcsSerializationError,
        AptosErrorCode::InvalidStartParam,
        AptosErrorCode::InvalidLimitParam,
        AptosErrorCode::HealthCheckFailed,
        AptosErrorCode::InternalError,
        AptosErrorCode::AccountNotFound,
        AptosErrorCode::ResourceNotFound,
        AptosErrorCode::ModuleNotFound,
        AptosErrorCode::StructFieldNotFound,
        AptosErrorCode::VersionNotFound,
        AptosErrorCode::VersionPruned,
    ];
    for (i, code) in all.iter().enumerate() {
        assert_eq!(code.code() as usize, i + 1);
    }
}

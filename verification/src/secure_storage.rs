//! Names and result shapes of the secret store kept in the system keychain.

use vstd::prelude::*;

pub mod keys;

verus! {

/// Service under which every secret of the application is filed.
pub const SERVICE_NAME: &'static str = "com.openlinear.app";

/// A secret together with the key it is filed under.
#[derive(Debug, Clone)]
pub struct StoredSecret {
    pub key: String,
    pub value: String,
}

/// Outcome of storing or removing a secret.
#[derive(Debug, Clone)]
pub struct SecureStorageResult {
    pub success: bool,
    pub error: Option<String>,
}

impl SecureStorageResult {
    /// Whether this says exactly `outcome`.
    pub open spec fn reports(&self, outcome: Result<(), Seq<char>>) -> bool {
        match outcome {
            Ok(_) => self.success && self.error is None,
            Err(reason) => !self.success && self.error.deep_view() == Some(reason),
        }
    }

    /// The result that reports `outcome`.
    pub fn from_outcome(outcome: Result<(), String>) -> (result: SecureStorageResult)
        ensures
            result.reports(
                match outcome {
                    Ok(_) => Ok(()),
                    Err(reason) => Err(reason@),
                },
            ),
    {
        match outcome {
            Ok(_) => SecureStorageResult { success: true, error: None },
            Err(reason) => SecureStorageResult { success: false, error: Some(reason) },
        }
    }
}

/// The keys of the stored secrets. The keychain cannot be listed, so there
/// are never any to report.
pub fn list_secrets() -> (listed: Result<Vec<String>, String>)
    ensures
        listed matches Ok(keys) && keys@.len() == 0,
{
    Ok(Vec::new())
}

} // verus!

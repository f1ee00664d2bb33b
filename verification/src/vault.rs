//! Opening and creating vaults.
use crate::file::PathKind;
use vstd::prelude::*;

verus! {

/// A vault: a directory of notes, and its name.
#[derive(Debug, Clone, PartialEq, Eq)]
pub struct VaultConfig {
    pub path: String,
    pub name: String,
}

/// Why a vault could not be opened or created.
#[derive(Debug, Clone, PartialEq, Eq)]
pub enum VaultError {
    /// Nothing stands at the path.
    Missing(String),
    /// What stands at the path is no directory.
    NotDirectory(String),
    /// Something stands at the path already.
    Exists(String),
    /// The directory could not be created.
    Create(String),
}

impl VaultError {
    /// The message shown to the user.
    pub fn message(&self) -> (text: String)
        ensures
            text@ == match *self {
                VaultError::Missing(path) => "Vault path does not exist: "@ + path@,
                VaultError::NotDirectory(path) => "Vault path is not a directory: "@ + path@,
                VaultError::Exists(path) => "Path already exists: "@ + path@,
                VaultError::Create(cause) => "Failed to create vault: "@ + cause@,
            },
    {
        let (head, tail) = match self {
            VaultError::Missing(path) => ("Vault path does not exist: ", path),
            VaultError::NotDirectory(path) => ("Vault path is not a directory: ", path),
            VaultError::Exists(path) => ("Path already exists: ", path),
            VaultError::Create(cause) => ("Failed to create vault: ", cause),
        };
        let mut text = head.to_string();
        text.append(tail.as_str());
        text
    }
}

/// Opens the vault at `path`, where a directory must stand. The vault is
/// named after the directory: `file_name` is the last component of `path`,
/// if it has one that is text.
pub fn open_vault(path: String, kind: PathKind, file_name: Option<String>) -> (result: Result<
    VaultConfig,
    VaultError,
>)
    ensures
        kind is Missing ==> result == Err::<VaultConfig, VaultError>(VaultError::Missing(path)),
        kind is File || kind is Other ==> result == Err::<VaultConfig, VaultError>(
            VaultError::NotDirectory(path),
        ),
        kind is Directory ==> result is Ok && result->Ok_0.path == path && result->Ok_0.name@
            == (match file_name {
            Some(name) => name@,
            None => "Vault"@,
        }),
{
    match kind {
        PathKind::Missing => Err(VaultError::Missing(path)),
        PathKind::Directory => {
            let name = match file_name {
                Some(name) => name,
                None => "Vault".to_string(),
            };
            Ok(VaultConfig { path, name })
        },
        _ => Err(VaultError::NotDirectory(path)),
    }
}

/// Accepts a path for a new vault: nothing may stand there.
pub fn check_new_vault(path: &str, exists: bool) -> (result: Result<(), VaultError>)
    ensures
        exists ==> (result matches Err(VaultError::Exists(shown)) && shown@ == path@),
        !exists ==> result is Ok,
{
    if exists {
        return Err(VaultError::Exists(path.to_string()));
    }
    Ok(())
}

/// The vault that was created at `path`, or why creating its directory
/// failed.
pub fn create_vault(path: String, name: String, created: Result<(), String>) -> (result: Result<
    VaultConfig,
    VaultError,
>)
    ensures
        result == match created {
            Ok(()) => Ok::<VaultConfig, VaultError>(VaultConfig { path, name }),
            Err(cause) => Err::<VaultConfig, VaultError>(VaultError::Create(cause)),
        },
{
    match created {
        Ok(()) => Ok(VaultConfig { path, name }),
        Err(cause) => Err(VaultError::Create(cause)),
    }
}

} // verus!

//! The failures that the helper reports.

use vstd::prelude::*;

verus! {

/// Every way in which an invocation of the helper can fail.
#[derive(Clone, Copy, Debug, PartialEq, Eq, Structural)]
pub enum HelperError {
    /// Session negotiation failed: the peer returned no usable public key.
    Handshake,
    /// A message from the peer was malformed or could not be decrypted.
    Protocol,
    /// The peer reported that the database is locked.
    DatabaseLocked,
    /// No configured database passed validation.
    NoValidDatabase,
    /// The invoking process is not on the allow-list.
    CallerDenied,
    /// No stored entry is left to answer a `get` request.
    NoMatchingLogin,
    /// A `store` request lacks its username or its password.
    MissingCredentialField,
    /// An existing entry would have to be updated while several databases are configured.
    UnsupportedMultiDatabaseUpdate,
    /// The key material of the existing encryption profiles could not be recovered.
    VaultLocked,
    /// A line of a credential request has no `=`.
    MalformedRequest,
    /// A credential request has neither a URL nor both protocol and host.
    IncompleteRequest,
    /// The peer did not return a database identifier when asked to associate.
    AssociationFailed,
    /// The peer did not confirm that a login was stored.
    StoreRejected,
    /// A user or group identifier on the command line is not a number.
    InvalidCallerId,
    /// The unlock option is not of the form `interval,max_retries`.
    InvalidUnlockOptions,
    /// No subcommand was given.
    NoSubcommand,
    /// The subcommand is not one the helper knows.
    UnknownSubcommand,
    /// An encryption profile with an empty descriptor was given.
    InvalidEncryptionProfile,
    /// The encryption profile is already part of the configuration.
    DuplicateEncryptionProfile,
    /// Something is to be encrypted but no encryption profile is configured.
    NoEncryptionProfile,
    /// The configuration breaks its own rules.
    InvalidConfiguration,
    /// The operating system gave no randomness for a key or a nonce.
    NoRandomness,
}

impl HelperError {
    /// The text shown to the user for this failure.
    pub open spec fn message(self) -> Seq<char> {
        match self {
            HelperError::Handshake => "Failed to retrieve host public key"@,
            HelperError::Protocol => "Malformed message from the password manager"@,
            HelperError::DatabaseLocked => "Database is locked"@,
            HelperError::NoValidDatabase => {
                "No valid database associations found in configuration file"@
            },
            HelperError::CallerDenied => "You are not allowed to use this program"@,
            HelperError::NoMatchingLogin => "No matching logins found"@,
            HelperError::MissingCredentialField => "Username or password is missing"@,
            HelperError::UnsupportedMultiDatabaseUpdate => {
                "Cannot update a login with several databases configured"@
            },
            HelperError::VaultLocked => {
                "Failed to extract the encryption key from existing profiles"@
            },
            HelperError::MalformedRequest => "Malformed credential request"@,
            HelperError::IncompleteRequest => {
                "Protocol and host are both required when URL is not provided"@
            },
            HelperError::AssociationFailed => "Association failed"@,
            HelperError::StoreRejected => "Failed to store login"@,
            HelperError::InvalidCallerId => "Invalid UID or GID"@,
            HelperError::InvalidUnlockOptions => "Invalid unlock options"@,
            HelperError::NoSubcommand => "No subcommand selected"@,
            HelperError::UnknownSubcommand => "Unrecognised subcommand"@,
            HelperError::InvalidEncryptionProfile => "Invalid encryption profile"@,
            HelperError::DuplicateEncryptionProfile => "Encryption profile is already configured"@,
            HelperError::NoEncryptionProfile => "No encryption profile is configured"@,
            HelperError::InvalidConfiguration => "Invalid configuration"@,
            HelperError::NoRandomness => "The operating system gave no randomness"@,
        }
    }

    /// Whether the unlock-wait policy may retry after this failure.
    pub open spec fn retryable(self) -> bool {
        self == HelperError::DatabaseLocked
    }

    pub fn is_retryable(&self) -> (r: bool)
        ensures
            r == self.retryable(),
    {
        match self {
            HelperError::DatabaseLocked => true,
            _ => false,
        }
    }

    pub fn describe(&self) -> (text: String)
        ensures
            text@ == self.message(),
    {
        let text: &str = match self {
            HelperError::Handshake => "Failed to retrieve host public key",
            HelperError::Protocol => "Malformed message from the password manager",
            HelperError::DatabaseLocked => "Database is locked",
            HelperError::NoValidDatabase => {
                "No valid database associations found in configuration file"
            },
            HelperError::CallerDenied => "You are not allowed to use this program",
            HelperError::NoMatchingLogin => "No matching logins found",
            HelperError::MissingCredentialField => "Username or password is missing",
            HelperError::UnsupportedMultiDatabaseUpdate => {
                "Cannot update a login with several databases configured"
            },
            HelperError::VaultLocked => {
                "Failed to extract the encryption key from existing profiles"
            },
            HelperError::MalformedRequest => "Malformed credential request",
            HelperError::IncompleteRequest => {
                "Protocol and host are both required when URL is not provided"
            },
            HelperError::AssociationFailed => "Association failed",
            HelperError::StoreRejected => "Failed to store login",
            HelperError::InvalidCallerId => "Invalid UID or GID",
            HelperError::InvalidUnlockOptions => "Invalid unlock options",
            HelperError::NoSubcommand => "No subcommand selected",
            HelperError::UnknownSubcommand => "Unrecognised subcommand",
            HelperError::InvalidEncryptionProfile => "Invalid encryption profile",
            HelperError::DuplicateEncryptionProfile => "Encryption profile is already configured",
            HelperError::NoEncryptionProfile => "No encryption profile is configured",
            HelperError::InvalidConfiguration => "Invalid configuration",
            HelperError::NoRandomness => "The operating system gave no randomness",
        };
        text.to_owned()
    }
}

} // verus!

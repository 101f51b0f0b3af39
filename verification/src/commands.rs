//! What the subcommands of the helper decide.
//!
//! Reading and writing the configuration, asking the user and talking to the password manager
//! are left to the caller. What is decided in between stands here: which subcommand is meant,
//! how a configuration changes, and when there is nothing to do.

use crate::config::{
    database_of, law_configuration_stays_valid, law_with_database, Caller, CallerView, Config,
    ConfigView, Database, Group,
};
use crate::crypto::{base64_encode, base64_text, derive_public_key, x25519_public_key};
use crate::error::HelperError;
use crate::git::read_git_request;
use crate::session::fresh_bytes;
use crate::text::{number_within, parse_number, str_text_of, text_of};
use vstd::prelude::*;

verus! {

/// The subcommands of the helper.
#[derive(Clone, Copy, Debug, PartialEq, Eq, Structural)]
pub enum Subcommand {
    Configure,
    Encrypt,
    Decrypt,
    Caller,
    Get,
    Store,
    Erase,
}

/// The subcommand that a name stands for.
pub open spec fn subcommand_named(name: Seq<char>) -> Option<Subcommand> {
    if name == "configure"@ {
        Some(Subcommand::Configure)
    } else if name == "encrypt"@ {
        Some(Subcommand::Encrypt)
    } else if name == "decrypt"@ {
        Some(Subcommand::Decrypt)
    } else if name == "caller"@ {
        Some(Subcommand::Caller)
    } else if name == "get"@ {
        Some(Subcommand::Get)
    } else if name == "store"@ {
        Some(Subcommand::Store)
    } else if name == "erase"@ {
        Some(Subcommand::Erase)
    } else {
        None
    }
}

/// Whether two texts are the same.
fn same_text(a: &str, b: &str) -> (same: bool)
    ensures
        same == (a@ == b@),
{
    a.to_owned() == b.to_owned()
}

/// Finds the subcommand that was given on the command line, if one was given.
pub fn select_subcommand(name: Option<&str>) -> (r: Result<Subcommand, HelperError>)
    ensures
        match name {
            None => r == Err::<Subcommand, HelperError>(HelperError::NoSubcommand),
            Some(name) => match subcommand_named(name@) {
                Some(subcommand) => r == Ok::<Subcommand, HelperError>(subcommand),
                None => r == Err::<Subcommand, HelperError>(HelperError::UnknownSubcommand),
            },
        },
{
    let name = match name {
        Some(name) => name,
        None => {
            return Err(HelperError::NoSubcommand);
        },
    };
    if same_text(name, "configure") {
        Ok(Subcommand::Configure)
    } else if same_text(name, "encrypt") {
        Ok(Subcommand::Encrypt)
    } else if same_text(name, "decrypt") {
        Ok(Subcommand::Decrypt)
    } else if same_text(name, "caller") {
        Ok(Subcommand::Caller)
    } else if same_text(name, "get") {
        Ok(Subcommand::Get)
    } else if same_text(name, "store") {
        Ok(Subcommand::Store)
    } else if same_text(name, "erase") {
        Ok(Subcommand::Erase)
    } else {
        Err(HelperError::UnknownSubcommand)
    }
}

/// How much is logged, from the least to the most.
#[derive(Clone, Copy, Debug, PartialEq, Eq, Structural)]
pub enum LogLevel {
    Critical,
    Error,
    Warning,
    Info,
    Debug,
    Trace,
}

/// The level for a number of `--verbose` flags: errors without any, and one level more for
/// each flag up to the highest.
pub open spec fn level_for(verbosity: nat) -> LogLevel {
    if verbosity == 0 {
        LogLevel::Error
    } else if verbosity == 1 {
        LogLevel::Warning
    } else if verbosity == 2 {
        LogLevel::Info
    } else if verbosity == 3 {
        LogLevel::Debug
    } else {
        LogLevel::Trace
    }
}

impl LogLevel {
    /// The number of the level, from 1 for the least to 6 for the most that is logged.
    pub open spec fn number(self) -> nat {
        match self {
            LogLevel::Critical => 1,
            LogLevel::Error => 2,
            LogLevel::Warning => 3,
            LogLevel::Info => 4,
            LogLevel::Debug => 5,
            LogLevel::Trace => 6,
        }
    }

    pub fn as_usize(self) -> (number: usize)
        ensures
            number == self.number(),
    {
        match self {
            LogLevel::Critical => 1,
            LogLevel::Error => 2,
            LogLevel::Warning => 3,
            LogLevel::Info => 4,
            LogLevel::Debug => 5,
            LogLevel::Trace => 6,
        }
    }
}

/// The log level for the number of `--verbose` flags on the command line.
pub fn log_level(verbosity: u64) -> (level: LogLevel)
    ensures
        level == level_for(verbosity as nat),
        level.number() == if verbosity + 2 < 6 {
            verbosity + 2
        } else {
            6
        },
{
    if verbosity == 0 {
        LogLevel::Error
    } else if verbosity == 1 {
        LogLevel::Warning
    } else if verbosity == 2 {
        LogLevel::Info
    } else if verbosity == 3 {
        LogLevel::Debug
    } else {
        LogLevel::Trace
    }
}

/// What an `encrypt` or `decrypt` did.
#[derive(Clone, Copy, Debug, PartialEq, Eq, Structural)]
pub struct VaultReport {
    /// How many databases changed their state.
    pub databases: usize,
    /// How many callers changed their state.
    pub callers: usize,
}

/// Whether the user is to confirm that an existing encryption key is reused or replaced:
/// that is the case where a profile is given, it is not empty, and profiles exist already.
pub fn needs_secondary_confirmation(config: &Config, profile: Option<&str>) -> (needed: bool)
    ensures
        needed == match profile {
            Some(text) => config@.encryptions.len() > 0 && text@.len() > 0,
            None => false,
        },
{
    match profile {
        Some(text) => config.count_encryptions() > 0 && !text.is_empty(),
        None => false,
    }
}

/// The configuration after `decrypt`, and what was decrypted: where something is kept
/// encrypted, everything is kept in the clear afterwards and the profiles are gone.
pub open spec fn decrypted(config: ConfigView) -> Option<(ConfigView, VaultReport)> {
    if config.encrypted_databases() == 0 && config.encrypted_callers() == 0 {
        None
    } else {
        Some(
            (
                ConfigView {
                    databases_encrypted: false,
                    callers_encrypted: false,
                    encryptions: Seq::<Seq<char>>::empty(),
                    ..config
                },
                VaultReport {
                    databases: config.encrypted_databases() as usize,
                    callers: config.encrypted_callers() as usize,
                },
            ),
        )
    }
}

/// Decrypts the configuration. Where nothing is kept encrypted nothing changes, and `None`
/// says that nothing is to be written. Otherwise databases and callers are kept in the clear
/// from now on, and the encryption profiles are removed with the last encrypted collection.
pub fn decrypt(config: &mut Config) -> (report: Option<VaultReport>)
    ensures
        match decrypted(old(config)@) {
            Some((after, done)) => report == Some(done) && final(config)@ == after,
            None => report is None && final(config)@ == old(config)@,
        },
{
    let databases = config.count_encrypted_databases();
    let callers = config.count_encrypted_callers();
    if databases == 0 && callers == 0 {
        return None;
    }
    config.decrypt_databases();
    config.decrypt_callers();
    if config.count_encrypted_databases() == 0 && config.count_encrypted_callers() == 0 {
        config.clear_encryptions();
    }
    Some(VaultReport { databases, callers })
}

/// The configuration with a profile added, where one is given.
pub open spec fn with_optional_profile(
    config: ConfigView,
    profile: Option<Seq<char>>,
    key_available: bool,
) -> Result<ConfigView, HelperError> {
    match profile {
        Some(text) => match config.profile_refused(text, key_available) {
            Some(e) => Err(e),
            None => Ok(config.with_profile(text)),
        },
        None => Ok(config),
    }
}

/// The configuration after `encrypt`, and what was encrypted. `None` where nothing is in the
/// clear and no profile is to be added. Otherwise the profile is added where one is given,
/// and both collections are kept encrypted as far as they hold anything.
pub open spec fn encrypted(
    config: ConfigView,
    profile: Option<Seq<char>>,
    key_available: bool,
) -> Result<Option<(ConfigView, VaultReport)>, HelperError> {
    let idle = match profile {
        Some(text) => text.len() == 0,
        None => true,
    };
    if config.databases_to_encrypt() == 0 && config.callers_to_encrypt() == 0 && idle {
        Ok(None)
    } else {
        match with_optional_profile(config, profile, key_available) {
            Err(e) => Err(e),
            Ok(with) => if with.encryptions.len() == 0 && (with.databases_to_encrypt() > 0
                || with.callers_to_encrypt() > 0) {
                Err(HelperError::NoEncryptionProfile)
            } else {
                Ok(
                    Some(
                        (
                            ConfigView {
                                databases_encrypted: with.databases.len() > 0,
                                callers_encrypted: with.callers.len() > 0,
                                ..with
                            },
                            VaultReport {
                                databases: with.databases_to_encrypt() as usize,
                                callers: with.callers_to_encrypt() as usize,
                            },
                        ),
                    ),
                )
            },
        }
    }
}

/// Encrypts the configuration. `profile` is the encryption profile to add, if any, and
/// `key_available` says whether the key of the existing profiles has been recovered. Where
/// all is encrypted already and no profile is to be added nothing changes, and `None` says
/// that nothing is to be written. A failure leaves the configuration as it was.
pub fn encrypt(config: &mut Config, profile: Option<&str>, key_available: bool) -> (r: Result<
    Option<VaultReport>,
    HelperError,
>)
    ensures
        match encrypted(old(config)@, str_text_of(profile), key_available) {
            Ok(Some((after, done))) => r == Ok::<Option<VaultReport>, HelperError>(Some(done))
                && final(config)@ == after,
            Ok(None) => r == Ok::<Option<VaultReport>, HelperError>(None)
                && final(config)@ == old(config)@,
            Err(e) => r == Err::<Option<VaultReport>, HelperError>(e)
                && final(config)@ == old(config)@,
        },
{
    let databases = config.count_databases() - config.count_encrypted_databases();
    let callers = config.count_callers() - config.count_encrypted_callers();
    let idle = match profile {
        Some(text) => text.is_empty(),
        None => true,
    };
    if databases == 0 && callers == 0 && idle {
        return Ok(None);
    }
    match profile {
        Some(text) => {
            match config.add_encryption(text, key_available) {
                Ok(()) => {},
                Err(e) => {
                    return Err(e);
                },
            }
        },
        None => {
            if config.count_encryptions() == 0 {
                return Err(HelperError::NoEncryptionProfile);
            }
        },
    }
    let databases = match config.encrypt_databases() {
        Ok(count) => count,
        Err(e) => {
            return Err(e);
        },
    };
    let callers = match config.encrypt_callers() {
        Ok(count) => count,
        Err(e) => {
            return Err(e);
        },
    };
    Ok(Some(VaultReport { databases, callers }))
}

/// The request to associate: the public key of the session and the public half of the
/// permanent key, both as base64 text.
#[derive(Clone, Debug, PartialEq, Eq)]
pub struct AssociateRequest {
    pub key: String,
    pub id_key: String,
}

/// Makes the request to associate for a session and a permanent key.
pub fn associate_request(session_public_key: &[u8; 32], identity_secret: &[u8; 32]) -> (request:
    AssociateRequest)
    ensures
        request.key@ == base64_text(session_public_key@),
        request.id_key@ == base64_text(x25519_public_key(identity_secret@)),
{
    let identity_public = derive_public_key(identity_secret);
    AssociateRequest {
        key: base64_encode(session_public_key.as_slice()),
        id_key: base64_encode(identity_public.as_slice()),
    }
}

/// Makes a permanent key for a new association, which chance picks, and the request to
/// associate with it. The secret half of the key is returned beside the request. It fails only
/// where the operating system gives no randomness.
pub fn start_association(session_public_key: &[u8; 32]) -> (r: Result<
    ([u8; 32], AssociateRequest),
    HelperError,
>)
    ensures
        match r {
            Ok((identity_secret, request)) => request.key@ == base64_text(session_public_key@)
                && request.id_key@ == base64_text(x25519_public_key(identity_secret@)),
            Err(e) => e == HelperError::NoRandomness,
        },
{
    let identity_secret = match fresh_bytes::<32>() {
        Ok(bytes) => bytes,
        Err(e) => {
            return Err(e);
        },
    };
    let request = associate_request(session_public_key, &identity_secret);
    Ok((identity_secret, request))
}

/// The configuration after `configure`. The password manager must have returned an
/// identifier for the association. The profile is added where one is given, and then the
/// databases are kept encrypted.
pub open spec fn configured(
    config: ConfigView,
    association_id: Option<Seq<char>>,
    identity_secret: Seq<u8>,
    group: Group,
    profile: Option<Seq<char>>,
    key_available: bool,
) -> Result<ConfigView, HelperError> {
    match association_id {
        None => Err(HelperError::AssociationFailed),
        Some(id) => match with_optional_profile(config, profile, key_available) {
            Err(e) => Err(e),
            Ok(with) => Ok(
                with.with_database(database_of(id, identity_secret, group), profile is Some),
            ),
        },
    }
}

/// Records a new association in the configuration. `association_id` is the identifier in the
/// answer of the password manager, `identity_secret` the secret half of the permanent key,
/// and `group` the group that was created for new entries. `profile` is the encryption
/// profile to add, if any, and `key_available` says whether the key of the existing profiles
/// has been recovered. A failure leaves the configuration as it was.
pub fn configure(
    config: &mut Config,
    association_id: Option<String>,
    identity_secret: &[u8; 32],
    group: Group,
    profile: Option<&str>,
    key_available: bool,
) -> (r: Result<(), HelperError>)
    ensures
        match configured(
            old(config)@,
            text_of(association_id),
            identity_secret@,
            group,
            str_text_of(profile),
            key_available,
        ) {
            Ok(after) => r is Ok && final(config)@ == after,
            Err(e) => r == Err::<(), HelperError>(e) && final(config)@ == old(config)@,
        },
{
    let id = match association_id {
        Some(id) => id,
        None => {
            return Err(HelperError::AssociationFailed);
        },
    };
    match profile {
        Some(text) => {
            match config.add_encryption(text, key_available) {
                Ok(()) => {},
                Err(e) => {
                    return Err(e);
                },
            }
        },
        None => {},
    }
    let database = Database::new(id, identity_secret, group);
    config.add_database(database, profile.is_some())
}

/// What the `caller` subcommand is asked to do.
#[derive(Clone, Debug, PartialEq, Eq)]
pub enum CallerCommand {
    /// Add a caller to the allow-list; `uid` and `gid` are given as text.
    Add { path: String, uid: Option<String>, gid: Option<String>, encrypt: Option<String> },
    /// Empty the allow-list.
    Clear,
}

/// The user or group identifier that an optional text stands for: none without text, and a
/// failure where the text is not a number of 32 bits.
pub open spec fn caller_id(text: Option<Seq<char>>) -> Result<Option<u32>, HelperError> {
    match text {
        None => Ok(None),
        Some(text) => match number_within(text, u32::MAX as nat) {
            Some(id) => Ok(Some(id as u32)),
            None => Err(HelperError::InvalidCallerId),
        },
    }
}

fn parse_caller_id(text: &Option<String>) -> (r: Result<Option<u32>, HelperError>)
    ensures
        r == caller_id(text_of(*text)),
{
    match text {
        None => Ok(None),
        Some(text) => {
            match parse_number(text.as_str()) {
                Some(id) => {
                    if id <= 0xffff_ffff {
                        Ok(Some(id as u32))
                    } else {
                        Err(HelperError::InvalidCallerId)
                    }
                },
                None => Err(HelperError::InvalidCallerId),
            }
        },
    }
}

/// The configuration after the `caller` subcommand.
pub open spec fn caller_applied(
    config: ConfigView,
    command: CallerCommand,
    key_available: bool,
) -> Result<ConfigView, HelperError> {
    match command {
        CallerCommand::Clear => Ok(config.without_callers()),
        CallerCommand::Add { path, uid, gid, encrypt } => match caller_id(text_of(uid)) {
            Err(e) => Err(e),
            Ok(uid) => match caller_id(text_of(gid)) {
                Err(e) => Err(e),
                Ok(gid) => match with_optional_profile(config, text_of(encrypt), key_available) {
                    Err(e) => Err(e),
                    Ok(with) => Ok(
                        with.with_caller(CallerView { path: path@, uid, gid }, encrypt is Some),
                    ),
                },
            },
        },
    }
}

/// Carries out the `caller` subcommand: adds a caller to the allow-list, or empties the
/// allow-list. A failure leaves the configuration as it was.
pub fn caller(config: &mut Config, command: CallerCommand, key_available: bool) -> (r: Result<
    (),
    HelperError,
>)
    ensures
        match caller_applied(old(config)@, command, key_available) {
            Ok(after) => r is Ok && final(config)@ == after,
            Err(e) => r == Err::<(), HelperError>(e) && final(config)@ == old(config)@,
        },
{
    match command {
        CallerCommand::Clear => {
            config.clear_callers();
            Ok(())
        },
        CallerCommand::Add { path, uid, gid, encrypt } => {
            let uid = match parse_caller_id(&uid) {
                Ok(uid) => uid,
                Err(e) => {
                    return Err(e);
                },
            };
            let gid = match parse_caller_id(&gid) {
                Ok(gid) => gid,
                Err(e) => {
                    return Err(e);
                },
            };
            let encrypted = encrypt.is_some();
            match encrypt {
                Some(text) => {
                    match config.add_encryption(text.as_str(), key_available) {
                        Ok(()) => {},
                        Err(e) => {
                            return Err(e);
                        },
                    }
                },
                None => {},
            }
            config.add_caller(Caller { path, uid, gid }, encrypted)
        },
    }
}

/// Takes an `erase` request. The password manager offers no way to remove an entry, so the
/// request is read to its end and nothing else is done; this never fails, whatever the
/// request holds, because git sends such requests of its own accord after a rejected login.
pub fn erase_login(input: &str) -> (r: Result<(), HelperError>)
    ensures
        r is Ok,
{
    let _ = read_git_request(input);
    Ok(())
}

/// Whatever a subcommand makes of a valid configuration is a valid configuration again: the
/// identifiers of the databases stay distinct, and what is kept encrypted has a profile.
pub proof fn law_subcommands_keep_configuration_valid(
    config: ConfigView,
    association_id: Option<Seq<char>>,
    identity_secret: Seq<u8>,
    group: Group,
    profile: Option<Seq<char>>,
    command: CallerCommand,
    key_available: bool,
)
    requires
        config.valid(),
    ensures
        configured(
            config,
            association_id,
            identity_secret,
            group,
            profile,
            key_available,
        ) matches Ok(after) ==> after.valid(),
        encrypted(config, profile, key_available) matches Ok(Some((after, _))) ==> after.valid(),
        decrypted(config) matches Some((after, _)) ==> after.valid(),
        caller_applied(config, command, key_available) matches Ok(after) ==> after.valid(),
{
    let nobody = CallerView { path: Seq::<char>::empty(), uid: None, gid: None };
    match profile {
        Some(text) => {
            law_configuration_stays_valid(config, nobody, false, text, key_available);
        },
        None => {},
    }
    match with_optional_profile(config, profile, key_available) {
        Ok(with) => {
            match association_id {
                Some(id) => {
                    law_with_database(
                        with,
                        database_of(id, identity_secret, group),
                        profile is Some,
                    );
                },
                None => {},
            }
        },
        Err(_) => {},
    }
    match command {
        CallerCommand::Clear => {
            law_configuration_stays_valid(config, nobody, false, Seq::<char>::empty(), false);
        },
        CallerCommand::Add { path, uid, gid, encrypt } => {
            match (caller_id(text_of(uid)), caller_id(text_of(gid))) {
                (Ok(uid), Ok(gid)) => {
                    let added = CallerView { path: path@, uid, gid };
                    match encrypt {
                        Some(text) => {
                            law_configuration_stays_valid(
                                config,
                                added,
                                true,
                                text@,
                                key_available,
                            );
                            if config.profile_refused(text@, key_available) is None {
                                law_configuration_stays_valid(
                                    config.with_profile(text@),
                                    added,
                                    true,
                                    text@,
                                    key_available,
                                );
                            }
                        },
                        None => {
                            law_configuration_stays_valid(
                                config,
                                added,
                                false,
                                path@,
                                key_available,
                            );
                        },
                    }
                },
                _ => {},
            }
        },
    }
}

/// Encrypting a configuration that has no profile yet, and then decrypting it, gives the
/// configuration back, as long as it holds a database or a caller. A configuration that holds
/// neither keeps the profile, since nothing is there for a `decrypt` to do.
pub proof fn law_encrypt_then_decrypt(config: ConfigView, profile: Seq<char>, key_available: bool)
    requires
        config.valid(),
        config.encryptions.len() == 0,
        profile.len() > 0,
    ensures
        encrypted(config, Some(profile), key_available) matches Ok(Some((between, _))),
        ({
            let between = encrypted(config, Some(profile), key_available)->Ok_0->Some_0.0;
            if config.databases.len() > 0 || config.callers.len() > 0 {
                decrypted(between) matches Some((after, _)) && after == config
            } else {
                decrypted(between) is None && between == config.with_profile(profile)
            }
        }),
{
    assert(config.encryptions =~= Seq::<Seq<char>>::empty());
}

} // verus!

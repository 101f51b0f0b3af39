//! The persisted configuration: database associations, allowed callers and encryption
//! profiles.

use crate::crypto::{base64_encode, base64_text, derive_public_key, x25519_public_key};
use crate::error::HelperError;
use vstd::prelude::*;

verus! {

/// A group of entries in a database.
#[derive(Clone, Debug, PartialEq, Eq)]
pub struct Group {
    pub name: String,
    pub uuid: String,
}

/// One association with a database of the password manager.
#[derive(PartialEq, Eq)]
pub struct Database {
    /// The identifier that the password manager gave to the association.
    pub id: String,
    /// The permanent secret key of the association, as text.
    pub key: String,
    /// The public half of the permanent key, as text. It accompanies `id` in requests.
    pub pkey: String,
    /// The name of the group in which new entries are placed.
    pub group: String,
    /// The identifier of that group.
    pub group_uuid: String,
}

/// An association as plain text.
pub struct DatabaseView {
    pub id: Seq<char>,
    pub key: Seq<char>,
    pub pkey: Seq<char>,
    pub group: Seq<char>,
    pub group_uuid: Seq<char>,
}

impl View for Database {
    type V = DatabaseView;

    open spec fn view(&self) -> DatabaseView {
        DatabaseView {
            id: self.id@,
            key: self.key@,
            pkey: self.pkey@,
            group: self.group@,
            group_uuid: self.group_uuid@,
        }
    }
}

impl DeepView for Database {
    type V = DatabaseView;

    open spec fn deep_view(&self) -> DatabaseView {
        self@
    }
}

/// The association that the password manager knows as `id`, with the permanent key whose
/// secret half is `secret`, and with `group` for new entries. Both halves of the key are kept
/// as base64 text.
pub open spec fn database_of(id: Seq<char>, secret: Seq<u8>, group: Group) -> DatabaseView {
    DatabaseView {
        id,
        key: base64_text(secret),
        pkey: base64_text(x25519_public_key(secret)),
        group: group.name@,
        group_uuid: group.uuid@,
    }
}

impl Group {
    pub fn new(name: String, uuid: String) -> (group: Group)
        ensures
            group.name@ == name@,
            group.uuid@ == uuid@,
    {
        Group { name, uuid }
    }
}

impl Database {
    /// Makes the record of a new association from the identifier that the password manager
    /// returned, the secret half of the permanent key and the group for new entries.
    pub fn new(id: String, secret: &[u8; 32], group: Group) -> (database: Database)
        ensures
            database@ == database_of(id@, secret@, group),
    {
        let public = derive_public_key(secret);
        Database {
            id,
            key: base64_encode(secret.as_slice()),
            pkey: base64_encode(public.as_slice()),
            group: group.name,
            group_uuid: group.uuid,
        }
    }
}

impl Clone for Database {
    fn clone(&self) -> (copy: Database)
        ensures
            copy@ == self@,
    {
        Database {
            id: self.id.clone(),
            key: self.key.clone(),
            pkey: self.pkey.clone(),
            group: self.group.clone(),
            group_uuid: self.group_uuid.clone(),
        }
    }
}

/// A process that may invoke the helper. Without `uid` or `gid` any user or group will do.
#[derive(Clone, Debug, PartialEq, Eq)]
pub struct Caller {
    pub path: String,
    pub uid: Option<u32>,
    pub gid: Option<u32>,
}

/// An allowed caller as plain values.
pub struct CallerView {
    pub path: Seq<char>,
    pub uid: Option<u32>,
    pub gid: Option<u32>,
}

impl View for Caller {
    type V = CallerView;

    open spec fn view(&self) -> CallerView {
        CallerView { path: self.path@, uid: self.uid, gid: self.gid }
    }
}

impl DeepView for Caller {
    type V = CallerView;

    open spec fn deep_view(&self) -> CallerView {
        self@
    }
}

/// What a configuration holds, as plain values. The collections are held in the clear; the
/// two flags say whether a collection is kept encrypted on disk.
pub struct ConfigView {
    pub databases: Seq<DatabaseView>,
    pub databases_encrypted: bool,
    pub callers: Seq<CallerView>,
    pub callers_encrypted: bool,
    pub encryptions: Seq<Seq<char>>,
}

impl ConfigView {
    /// The rules that every configuration keeps: database identifiers and profiles are
    /// distinct, and a collection that is kept encrypted is not empty and has a profile to
    /// unlock it.
    pub open spec fn valid(self) -> bool {
        &&& distinct_ids(self.databases)
        &&& distinct_profiles(self.encryptions)
        &&& self.databases_encrypted ==> self.databases.len() > 0 && self.encryptions.len() > 0
        &&& self.callers_encrypted ==> self.callers.len() > 0 && self.encryptions.len() > 0
    }

    /// How many databases are kept encrypted.
    pub open spec fn encrypted_databases(self) -> nat {
        if self.databases_encrypted {
            self.databases.len()
        } else {
            0
        }
    }

    /// How many callers are kept encrypted.
    pub open spec fn encrypted_callers(self) -> nat {
        if self.callers_encrypted {
            self.callers.len()
        } else {
            0
        }
    }

    /// The configuration with `database` added: it takes the place of the database with the
    /// same identifier where there is one, and stands at the end otherwise. With `encrypt` the
    /// databases are kept encrypted from now on.
    pub open spec fn with_database(self, database: DatabaseView, encrypt: bool) -> ConfigView {
        let at = id_position(self.databases, database.id);
        ConfigView {
            databases: if at < self.databases.len() {
                self.databases.update(at, database)
            } else {
                self.databases.push(database)
            },
            databases_encrypted: self.databases_encrypted || encrypt,
            ..self
        }
    }

    /// The configuration with `caller` added at the end of the allow-list. With `encrypt` the
    /// allow-list is kept encrypted from now on.
    pub open spec fn with_caller(self, caller: CallerView, encrypt: bool) -> ConfigView {
        ConfigView {
            callers: self.callers.push(caller),
            callers_encrypted: self.callers_encrypted || encrypt,
            ..self
        }
    }

    /// The configuration with an empty allow-list.
    pub open spec fn without_callers(self) -> ConfigView {
        ConfigView { callers: Seq::<CallerView>::empty(), callers_encrypted: false, ..self }
    }

    /// Why `profile` cannot be added, if it cannot: it is empty, it is there already, or the
    /// key that the existing profiles protect is not at hand.
    pub open spec fn profile_refused(self, profile: Seq<char>, key_available: bool) -> Option<
        HelperError,
    > {
        if profile.len() == 0 {
            Some(HelperError::InvalidEncryptionProfile)
        } else if self.encryptions.contains(profile) {
            Some(HelperError::DuplicateEncryptionProfile)
        } else if self.encryptions.len() > 0 && !key_available {
            Some(HelperError::VaultLocked)
        } else {
            None
        }
    }

    /// The configuration with `profile` added at the end of the profiles.
    pub open spec fn with_profile(self, profile: Seq<char>) -> ConfigView {
        ConfigView { encryptions: self.encryptions.push(profile), ..self }
    }

    /// How many databases are in the clear.
    pub open spec fn databases_to_encrypt(self) -> nat {
        (self.databases.len() - self.encrypted_databases()) as nat
    }

    /// How many callers are in the clear.
    pub open spec fn callers_to_encrypt(self) -> nat {
        (self.callers.len() - self.encrypted_callers()) as nat
    }
}

/// The position of the first database with the identifier `id`, or the number of databases.
pub open spec fn id_position(databases: Seq<DatabaseView>, id: Seq<char>) -> int
    decreases databases.len(),
{
    if databases.len() == 0 {
        0
    } else if databases[0].id == id {
        0
    } else {
        1 + id_position(databases.skip(1), id)
    }
}

/// A position that holds `id`, or is the end, with no `id` before it is its position.
pub proof fn lemma_id_position_is(databases: Seq<DatabaseView>, id: Seq<char>, at: int)
    requires
        0 <= at <= databases.len(),
        forall|j: int| 0 <= j < at ==> (#[trigger] databases[j]).id != id,
        at < databases.len() ==> databases[at].id == id,
    ensures
        id_position(databases, id) == at,
    decreases databases.len(),
{
    if databases.len() > 0 && at > 0 {
        let rest = databases.skip(1);
        lemma_id_position_is(rest, id, at - 1);
    }
}

/// The position of an identifier lies within the databases, no database before it has the
/// identifier, and the database at the position has it unless the position is the end.
pub proof fn lemma_id_position_bounds(databases: Seq<DatabaseView>, id: Seq<char>)
    ensures
        0 <= id_position(databases, id) <= databases.len(),
        forall|j: int| 0 <= j < id_position(databases, id) ==> (#[trigger] databases[j]).id != id,
        id_position(databases, id) < databases.len() ==> databases[id_position(
            databases,
            id,
        )].id == id,
    decreases databases.len(),
{
    if databases.len() > 0 && databases[0].id != id {
        let rest = databases.skip(1);
        lemma_id_position_bounds(rest, id);
        assert forall|j: int| 0 <= j < id_position(databases, id) implies (
        #[trigger] databases[j]).id != id by {
            if j > 0 {
                assert(databases[j] == rest[j - 1]);
            }
        }
    }
}

/// A valid configuration stays valid when a database is added, and holds the database in
/// the place of the one with the same identifier, or else at the end, with all others as they
/// were.
pub proof fn law_with_database(config: ConfigView, database: DatabaseView, encrypt: bool)
    requires
        config.valid(),
        encrypt ==> config.encryptions.len() > 0,
    ensures
        config.with_database(database, encrypt).valid(),
        ({
            let at = id_position(config.databases, database.id);
            let after = config.with_database(database, encrypt).databases;
            &&& 0 <= at <= config.databases.len()
            &&& after.len() == if at < config.databases.len() {
                config.databases.len()
            } else {
                config.databases.len() + 1
            }
            &&& after[at] == database
            &&& forall|i: int|
                0 <= i < config.databases.len() && i != at ==> after[i] == config.databases[i]
        }),
{
    lemma_id_position_bounds(config.databases, database.id);
}

/// A valid configuration stays valid when a caller is added, when the allow-list is emptied,
/// and when a profile is added that is not refused.
pub proof fn law_configuration_stays_valid(
    config: ConfigView,
    caller: CallerView,
    encrypt: bool,
    profile: Seq<char>,
    key_available: bool,
)
    requires
        config.valid(),
    ensures
        encrypt ==> config.encryptions.len() > 0 ==> config.with_caller(caller, encrypt).valid(),
        !encrypt ==> config.with_caller(caller, encrypt).valid(),
        config.without_callers().valid(),
        config.profile_refused(profile, key_available) is None ==> config.with_profile(
            profile,
        ).valid(),
{
    let with = config.with_profile(profile);
    if config.profile_refused(profile, key_available) is None {
        assert forall|i: int, j: int| 0 <= i < j < with.encryptions.len() implies (
        #[trigger] with.encryptions[i]) != (#[trigger] with.encryptions[j]) by {
            if j == config.encryptions.len() {
                assert(config.encryptions.contains(config.encryptions[i]));
            }
        }
    }
}

/// No two databases share an identifier.
pub open spec fn distinct_ids(databases: Seq<DatabaseView>) -> bool {
    forall|i: int, j: int|
        0 <= i < j < databases.len() ==> (#[trigger] databases[i]).id != (
        #[trigger] databases[j]).id
}

/// No profile is empty and no two profiles are the same.
pub open spec fn distinct_profiles(profiles: Seq<Seq<char>>) -> bool {
    &&& forall|i: int| 0 <= i < profiles.len() ==> (#[trigger] profiles[i]).len() > 0
    &&& forall|i: int, j: int|
        0 <= i < j < profiles.len() ==> #[trigger] profiles[i] != #[trigger] profiles[j]
}

/// The configuration of the helper.
pub struct Config {
    databases: Vec<Database>,
    databases_encrypted: bool,
    callers: Vec<Caller>,
    callers_encrypted: bool,
    encryptions: Vec<String>,
}

impl View for Config {
    type V = ConfigView;

    closed spec fn view(&self) -> ConfigView {
        ConfigView {
            databases: self.databases.deep_view(),
            databases_encrypted: self.databases_encrypted,
            callers: self.callers.deep_view(),
            callers_encrypted: self.callers_encrypted,
            encryptions: self.encryptions.deep_view(),
        }
    }
}

impl Config {
    #[verifier::type_invariant]
    spec fn kept_valid(self) -> bool {
        self@.valid()
    }

    /// The configuration without any entry.
    pub fn new() -> (config: Config)
        ensures
            config@.databases.len() == 0,
            config@.callers.len() == 0,
            config@.encryptions.len() == 0,
            !config@.databases_encrypted,
            !config@.callers_encrypted,
            config@.valid(),
    {
        let config = Config {
            databases: Vec::new(),
            databases_encrypted: false,
            callers: Vec::new(),
            callers_encrypted: false,
            encryptions: Vec::new(),
        };
        config
    }

    /// Builds a configuration from what was read from disk, or refuses what breaks the rules
    /// of a configuration.
    pub fn from_parts(
        databases: Vec<Database>,
        databases_encrypted: bool,
        callers: Vec<Caller>,
        callers_encrypted: bool,
        encryptions: Vec<String>,
    ) -> (r: Result<Config, HelperError>)
        ensures
            ({
                let parts = ConfigView {
                    databases: databases.deep_view(),
                    databases_encrypted,
                    callers: callers.deep_view(),
                    callers_encrypted,
                    encryptions: encryptions.deep_view(),
                };
                if parts.valid() {
                    r is Ok && r->Ok_0@ == parts
                } else {
                    r is Err && r->Err_0 == HelperError::InvalidConfiguration
                }
            }),
    {
        if !has_distinct_ids(&databases) || !has_distinct_profiles(&encryptions) {
            return Err(HelperError::InvalidConfiguration);
        }
        if databases_encrypted && (databases.len() == 0 || encryptions.len() == 0) {
            return Err(HelperError::InvalidConfiguration);
        }
        if callers_encrypted && (callers.len() == 0 || encryptions.len() == 0) {
            return Err(HelperError::InvalidConfiguration);
        }
        Ok(Config { databases, databases_encrypted, callers, callers_encrypted, encryptions })
    }

    /// Takes the configuration out and leaves an empty one in its place.
    fn take(&mut self) -> (taken: Config)
        ensures
            taken@ == old(self)@,
            taken@.valid(),
    {
        proof {
            use_type_invariant(&*self);
        }
        let mut taken = Config::new();
        std::mem::swap(self, &mut taken);
        taken
    }

    pub fn count_databases(&self) -> (count: usize)
        ensures
            count == self@.databases.len(),
    {
        self.databases.len()
    }

    pub fn count_encrypted_databases(&self) -> (count: usize)
        ensures
            count == self@.encrypted_databases(),
    {
        if self.databases_encrypted {
            self.databases.len()
        } else {
            0
        }
    }

    pub fn count_callers(&self) -> (count: usize)
        ensures
            count == self@.callers.len(),
    {
        self.callers.len()
    }

    pub fn count_encrypted_callers(&self) -> (count: usize)
        ensures
            count == self@.encrypted_callers(),
    {
        if self.callers_encrypted {
            self.callers.len()
        } else {
            0
        }
    }

    pub fn count_encryptions(&self) -> (count: usize)
        ensures
            count == self@.encryptions.len(),
    {
        self.encryptions.len()
    }

    /// The configured databases, in the order in which they were added.
    pub fn get_databases(&self) -> (databases: &Vec<Database>)
        ensures
            databases.deep_view() == self@.databases,
            self@.valid(),
    {
        proof {
            use_type_invariant(self);
        }
        &self.databases
    }

    /// The allow-list, in the order in which the callers were added.
    pub fn get_callers(&self) -> (callers: &Vec<Caller>)
        ensures
            callers.deep_view() == self@.callers,
            self@.valid(),
    {
        proof {
            use_type_invariant(self);
        }
        &self.callers
    }

    /// The encryption profiles, in the order in which they were added.
    pub fn get_encryptions(&self) -> (profiles: &Vec<String>)
        ensures
            profiles.deep_view() == self@.encryptions,
            self@.valid(),
    {
        proof {
            use_type_invariant(self);
        }
        &self.encryptions
    }

    /// Whether the databases are kept encrypted on disk.
    pub fn databases_encrypted(&self) -> (encrypted: bool)
        ensures
            encrypted == self@.databases_encrypted,
    {
        self.databases_encrypted
    }

    /// Whether the allow-list is kept encrypted on disk.
    pub fn callers_encrypted(&self) -> (encrypted: bool)
        ensures
            encrypted == self@.callers_encrypted,
    {
        self.callers_encrypted
    }

    /// Adds a database, in place of the one with the same identifier if there is one. With
    /// `encrypt` the databases are kept encrypted from now on, which takes a profile.
    pub fn add_database(&mut self, database: Database, encrypt: bool) -> (r: Result<
        (),
        HelperError,
    >)
        ensures
            encrypt && old(self)@.encryptions.len() == 0 ==> r == Err::<(), HelperError>(
                HelperError::NoEncryptionProfile,
            ) && final(self)@ == old(self)@,
            !(encrypt && old(self)@.encryptions.len() == 0) ==> r is Ok
                && final(self)@ == old(self)@.with_database(database@, encrypt),
            final(self)@.valid(),
    {
        let taken = self.take();
        let Config { mut databases, databases_encrypted, callers, callers_encrypted, encryptions } =
            taken;
        if encrypt && encryptions.len() == 0 {
            *self = Config {
                databases,
                databases_encrypted,
                callers,
                callers_encrypted,
                encryptions,
            };
            return Err(HelperError::NoEncryptionProfile);
        }
        let ghost before = databases.deep_view();
        let ghost added = database@;
        let at = find_database(&databases, &database.id);
        if at < databases.len() {
            databases.set(at, database);
            proof {
                assert(databases.deep_view() =~= before.update(at as int, added));
            }
        } else {
            databases.push(database);
            proof {
                assert(databases.deep_view() =~= before.push(added));
            }
        }
        *self = Config {
            databases,
            databases_encrypted: databases_encrypted || encrypt,
            callers,
            callers_encrypted,
            encryptions,
        };
        Ok(())
    }

    /// Adds a caller to the allow-list. With `encrypt` the allow-list is kept encrypted from
    /// now on, which takes a profile.
    pub fn add_caller(&mut self, caller: Caller, encrypt: bool) -> (r: Result<(), HelperError>)
        ensures
            encrypt && old(self)@.encryptions.len() == 0 ==> r == Err::<(), HelperError>(
                HelperError::NoEncryptionProfile,
            ) && final(self)@ == old(self)@,
            !(encrypt && old(self)@.encryptions.len() == 0) ==> r is Ok
                && final(self)@ == old(self)@.with_caller(caller@, encrypt),
            final(self)@.valid(),
    {
        let taken = self.take();
        let Config { databases, databases_encrypted, mut callers, callers_encrypted, encryptions } =
            taken;
        if encrypt && encryptions.len() == 0 {
            *self = Config {
                databases,
                databases_encrypted,
                callers,
                callers_encrypted,
                encryptions,
            };
            return Err(HelperError::NoEncryptionProfile);
        }
        let ghost before = callers.deep_view();
        let ghost added = caller@;
        callers.push(caller);
        proof {
            assert(callers.deep_view() =~= before.push(added));
        }
        *self = Config {
            databases,
            databases_encrypted,
            callers,
            callers_encrypted: callers_encrypted || encrypt,
            encryptions,
        };
        Ok(())
    }

    /// Empties the allow-list.
    pub fn clear_callers(&mut self)
        ensures
            final(self)@ == old(self)@.without_callers(),
            final(self)@.valid(),
    {
        let taken = self.take();
        let Config { databases, databases_encrypted, callers, callers_encrypted, encryptions } =
            taken;
        let callers: Vec<Caller> = Vec::new();
        proof {
            assert(callers.deep_view() =~= Seq::<CallerView>::empty());
        }
        *self = Config {
            databases,
            databases_encrypted,
            callers,
            callers_encrypted: false,
            encryptions,
        };
    }

    /// Adds an encryption profile. `key_available` says whether the key that the existing
    /// profiles protect has been recovered; without it no further profile can be added.
    pub fn add_encryption(&mut self, profile: &str, key_available: bool) -> (r: Result<
        (),
        HelperError,
    >)
        ensures
            match old(self)@.profile_refused(profile@, key_available) {
                Some(e) => r == Err::<(), HelperError>(e) && final(self)@ == old(self)@,
                None => r is Ok && final(self)@ == old(self)@.with_profile(profile@),
            },
            final(self)@.valid(),
    {
        let taken = self.take();
        let Config { databases, databases_encrypted, callers, callers_encrypted, mut encryptions } =
            taken;
        let added = profile.to_owned();
        let refused = if profile.is_empty() {
            Some(HelperError::InvalidEncryptionProfile)
        } else if holds_text(&encryptions, &added) {
            Some(HelperError::DuplicateEncryptionProfile)
        } else if encryptions.len() > 0 && !key_available {
            Some(HelperError::VaultLocked)
        } else {
            None
        };
        match refused {
            Some(e) => {
                *self = Config {
                    databases,
                    databases_encrypted,
                    callers,
                    callers_encrypted,
                    encryptions,
                };
                Err(e)
            },
            None => {
                let ghost before = encryptions.deep_view();
                encryptions.push(added);
                proof {
                    assert(encryptions.deep_view() =~= before.push(profile@));
                }
                *self = Config {
                    databases,
                    databases_encrypted,
                    callers,
                    callers_encrypted,
                    encryptions,
                };
                Ok(())
            },
        }
    }

    /// Removes all encryption profiles, which only a configuration with nothing encrypted
    /// allows: otherwise nothing changes. Returns whether the profiles were removed.
    pub fn clear_encryptions(&mut self) -> (cleared: bool)
        ensures
            cleared == (!old(self)@.databases_encrypted && !old(self)@.callers_encrypted),
            cleared ==> final(self)@ == (ConfigView {
                encryptions: Seq::<Seq<char>>::empty(),
                ..old(self)@
            }),
            !cleared ==> final(self)@ == old(self)@,
            final(self)@.valid(),
    {
        let taken = self.take();
        let Config { databases, databases_encrypted, callers, callers_encrypted, encryptions } =
            taken;
        if databases_encrypted || callers_encrypted {
            *self = Config {
                databases,
                databases_encrypted,
                callers,
                callers_encrypted,
                encryptions,
            };
            false
        } else {
            let encryptions: Vec<String> = Vec::new();
            proof {
                assert(encryptions.deep_view() =~= Seq::<Seq<char>>::empty());
            }
            *self = Config {
                databases,
                databases_encrypted,
                callers,
                callers_encrypted,
                encryptions,
            };
            true
        }
    }

    /// Marks the databases as kept encrypted and returns how many that newly covers. Where
    /// nothing remains to encrypt nothing changes; otherwise a profile must be there.
    pub fn encrypt_databases(&mut self) -> (r: Result<usize, HelperError>)
        ensures
            old(self)@.databases_to_encrypt() == 0 ==> r == Ok::<usize, HelperError>(0)
                && final(self)@ == old(self)@,
            old(self)@.databases_to_encrypt() > 0 && old(self)@.encryptions.len() == 0 ==> r
                == Err::<usize, HelperError>(HelperError::NoEncryptionProfile) && final(self)@
                == old(self)@,
            old(self)@.databases_to_encrypt() > 0 && old(self)@.encryptions.len() > 0 ==> r is Ok
                && r->Ok_0 == old(self)@.databases_to_encrypt() && final(self)@ == (ConfigView {
                databases_encrypted: true,
                ..old(self)@
            }),
            final(self)@.valid(),
    {
        proof {
            use_type_invariant(&*self);
        }
        if self.databases_encrypted || self.databases.len() == 0 {
            Ok(0)
        } else if self.encryptions.len() == 0 {
            Err(HelperError::NoEncryptionProfile)
        } else {
            self.databases_encrypted = true;
            Ok(self.databases.len())
        }
    }

    /// Marks the allow-list as kept encrypted and returns how many callers that newly covers.
    /// Where nothing remains to encrypt nothing changes; otherwise a profile must be there.
    pub fn encrypt_callers(&mut self) -> (r: Result<usize, HelperError>)
        ensures
            old(self)@.callers_to_encrypt() == 0 ==> r == Ok::<usize, HelperError>(0)
                && final(self)@ == old(self)@,
            old(self)@.callers_to_encrypt() > 0 && old(self)@.encryptions.len() == 0 ==> r == Err::<
                usize,
                HelperError,
            >(HelperError::NoEncryptionProfile) && final(self)@ == old(self)@,
            old(self)@.callers_to_encrypt() > 0 && old(self)@.encryptions.len() > 0 ==> r is Ok
                && r->Ok_0 == old(self)@.callers_to_encrypt() && final(self)@ == (ConfigView {
                callers_encrypted: true,
                ..old(self)@
            }),
            final(self)@.valid(),
    {
        proof {
            use_type_invariant(&*self);
        }
        if self.callers_encrypted || self.callers.len() == 0 {
            Ok(0)
        } else if self.encryptions.len() == 0 {
            Err(HelperError::NoEncryptionProfile)
        } else {
            self.callers_encrypted = true;
            Ok(self.callers.len())
        }
    }

    /// Marks the databases as kept in the clear and returns how many were encrypted.
    pub fn decrypt_databases(&mut self) -> (count: usize)
        ensures
            count == old(self)@.encrypted_databases(),
            final(self)@ == (ConfigView { databases_encrypted: false, ..old(self)@ }),
            final(self)@.valid(),
    {
        proof {
            use_type_invariant(&*self);
        }
        let count = self.count_encrypted_databases();
        self.databases_encrypted = false;
        count
    }

    /// Marks the allow-list as kept in the clear and returns how many callers were encrypted.
    pub fn decrypt_callers(&mut self) -> (count: usize)
        ensures
            count == old(self)@.encrypted_callers(),
            final(self)@ == (ConfigView { callers_encrypted: false, ..old(self)@ }),
            final(self)@.valid(),
    {
        proof {
            use_type_invariant(&*self);
        }
        let count = self.count_encrypted_callers();
        self.callers_encrypted = false;
        count
    }
}

/// The position of the first database with the identifier `id`, or the number of databases.
fn find_database(databases: &Vec<Database>, id: &String) -> (at: usize)
    ensures
        at == id_position(databases.deep_view(), id@),
        at <= databases.len(),
        forall|j: int| 0 <= j < at ==> (#[trigger] databases.deep_view()[j]).id != id@,
        at < databases.len() ==> databases.deep_view()[at as int].id == id@,
{
    let mut at: usize = 0;
    while at < databases.len() && databases[at].id != *id
        invariant
            at <= databases.len(),
            forall|j: int| 0 <= j < at ==> (#[trigger] databases.deep_view()[j]).id != id@,
        decreases databases.len() - at,
    {
        at = at + 1;
    }
    proof {
        lemma_id_position_is(databases.deep_view(), id@, at as int);
    }
    at
}

/// Whether one of `texts` is `wanted`.
fn holds_text(texts: &Vec<String>, wanted: &String) -> (found: bool)
    ensures
        found == texts.deep_view().contains(wanted@),
{
    let mut i: usize = 0;
    while i < texts.len()
        invariant
            i <= texts.len(),
            forall|j: int| 0 <= j < i ==> #[trigger] texts.deep_view()[j] != wanted@,
        decreases texts.len() - i,
    {
        if texts[i] == *wanted {
            assert(texts.deep_view()[i as int] == wanted@);
            return true;
        }
        i = i + 1;
    }
    false
}

/// Whether no two databases share an identifier.
fn has_distinct_ids(databases: &Vec<Database>) -> (distinct: bool)
    ensures
        distinct == distinct_ids(databases.deep_view()),
{
    let ghost all = databases.deep_view();
    let mut j: usize = 0;
    while j < databases.len()
        invariant
            j <= databases.len(),
            all == databases.deep_view(),
            forall|a: int, b: int|
                0 <= a < b < j ==> (#[trigger] all[a]).id != (#[trigger] all[b]).id,
        decreases databases.len() - j,
    {
        let mut i: usize = 0;
        while i < j
            invariant
                i <= j < databases.len(),
                all == databases.deep_view(),
                forall|a: int| 0 <= a < i ==> (#[trigger] all[a]).id != all[j as int].id,
            decreases j - i,
        {
            if databases[i].id == databases[j].id {
                assert(all[i as int].id == all[j as int].id);
                return false;
            }
            i = i + 1;
        }
        j = j + 1;
    }
    true
}

/// Whether no profile is empty and no two profiles are the same.
fn has_distinct_profiles(profiles: &Vec<String>) -> (distinct: bool)
    ensures
        distinct == distinct_profiles(profiles.deep_view()),
{
    let ghost all = profiles.deep_view();
    let mut j: usize = 0;
    while j < profiles.len()
        invariant
            j <= profiles.len(),
            all == profiles.deep_view(),
            forall|a: int| 0 <= a < j ==> (#[trigger] all[a]).len() > 0,
            forall|a: int, b: int| 0 <= a < b < j ==> #[trigger] all[a] != #[trigger] all[b],
        decreases profiles.len() - j,
    {
        if profiles[j].as_str().is_empty() {
            assert(all[j as int].len() == 0);
            return false;
        }
        let mut i: usize = 0;
        while i < j
            invariant
                i <= j < profiles.len(),
                all == profiles.deep_view(),
                forall|a: int| 0 <= a < i ==> #[trigger] all[a] != all[j as int],
            decreases j - i,
        {
            if profiles[i] == profiles[j] {
                assert(all[i as int] == all[j as int]);
                return false;
            }
            i = i + 1;
        }
        j = j + 1;
    }
    true
}

} // verus!

//! The rules of a `store` request: create a new entry, update an existing one, or do nothing.

use crate::config::{Database, DatabaseView};
use crate::error::HelperError;
use crate::filters::{
    both, lemma_filter_first, lemma_filter_first_index, lemma_filter_none, lemma_filter_push,
    lemma_filter_some, lemma_filter_twice,
};
use crate::git::{GitCredentialMessage, GitCredentialView};
use crate::logins::{
    entries_named, filter_by_login, filter_kph_logins, get_logins_for, has_login, live_entries,
    not_expired, not_opted_out, offered_entries, LoginEntry, LoginEntryView,
};
use crate::text::text_of;
use vstd::prelude::*;

verus! {

/// A request to the password manager to create or update an entry.
#[derive(Clone, Debug, PartialEq, Eq)]
pub struct SetLoginRequest {
    pub url: String,
    pub submit_url: String,
    /// The identifier of the database that receives the entry.
    pub id: String,
    pub login: String,
    pub password: String,
    pub group: Option<String>,
    pub group_uuid: Option<String>,
    /// The identifier of the entry to update; without it a new entry is created.
    pub uuid: Option<String>,
}

/// A set-login request as plain text.
pub struct SetLoginRequestView {
    pub url: Seq<char>,
    pub submit_url: Seq<char>,
    pub id: Seq<char>,
    pub login: Seq<char>,
    pub password: Seq<char>,
    pub group: Option<Seq<char>>,
    pub group_uuid: Option<Seq<char>>,
    pub uuid: Option<Seq<char>>,
}

impl View for SetLoginRequest {
    type V = SetLoginRequestView;

    open spec fn view(&self) -> SetLoginRequestView {
        SetLoginRequestView {
            url: self.url@,
            submit_url: self.submit_url@,
            id: self.id@,
            login: self.login@,
            password: self.password@,
            group: text_of(self.group),
            group_uuid: text_of(self.group_uuid),
            uuid: text_of(self.uuid),
        }
    }
}

/// What a `store` does.
#[derive(Clone, Debug, PartialEq, Eq)]
pub enum StoreAction {
    /// The credentials are stored already: nothing is written.
    AlreadyStored,
    /// The request is to be sent to the password manager.
    Send(SetLoginRequest),
}

/// What a `store` does, as plain values.
pub enum StoreActionView {
    AlreadyStored,
    Send(SetLoginRequestView),
}

impl View for StoreAction {
    type V = StoreActionView;

    open spec fn view(&self) -> StoreActionView {
        match self {
            StoreAction::AlreadyStored => StoreActionView::AlreadyStored,
            StoreAction::Send(request) => StoreActionView::Send(request@),
        }
    }
}

/// The entries that a `store` for `username` may update: those that are neither expired nor
/// opted out and have that login, in the manager's order.
pub open spec fn existing_entries(entries: Seq<LoginEntryView>, username: Seq<char>) -> Seq<
    LoginEntryView,
> {
    entries_named(offered_entries(live_entries(entries)), username)
}

/// The request that writes `login` and `password` for `url` into `database`, over the entry
/// `uuid` where one is given.
pub open spec fn set_login_for(
    url: Seq<char>,
    database: DatabaseView,
    login: Seq<char>,
    password: Seq<char>,
    uuid: Option<Seq<char>>,
) -> SetLoginRequestView {
    SetLoginRequestView {
        url,
        submit_url: url,
        id: database.id,
        login,
        password,
        group: Some(database.group),
        group_uuid: Some(database.group_uuid),
        uuid,
    }
}

/// What a `store` decides.
///
/// The request must name user and password, and a usable database must be there. Where an
/// entry of that user exists, the first such entry decides: with the same password nothing is
/// written; otherwise it is updated, which only a configuration with a single database
/// supports. Without such an entry a new one is created. Either request goes to the first
/// usable database.
pub open spec fn store_decision(
    request: GitCredentialView,
    url: Seq<char>,
    entries: Seq<LoginEntryView>,
    configured: nat,
    usable: Seq<DatabaseView>,
) -> Result<StoreActionView, HelperError> {
    match (request.username, request.password) {
        (Some(username), Some(password)) => {
            if usable.len() == 0 {
                Err(HelperError::NoValidDatabase)
            } else if existing_entries(entries, username).len() > 0 {
                let entry = existing_entries(entries, username)[0];
                if entry.password == password {
                    Ok(StoreActionView::AlreadyStored)
                } else if configured > 1 {
                    Err(HelperError::UnsupportedMultiDatabaseUpdate)
                } else {
                    Ok(
                        StoreActionView::Send(
                            set_login_for(url, usable[0], username, password, Some(entry.uuid)),
                        ),
                    )
                }
            } else {
                Ok(StoreActionView::Send(set_login_for(url, usable[0], username, password, None)))
            }
        },
        _ => Err(HelperError::MissingCredentialField),
    }
}

fn set_login_request(
    url: &String,
    database: &Database,
    login: &String,
    password: &String,
    uuid: Option<&String>,
) -> (request: SetLoginRequest)
    ensures
        request@ == set_login_for(
            url@,
            database@,
            login@,
            password@,
            match uuid {
                Some(uuid) => Some(uuid@),
                None => None,
            },
        ),
{
    SetLoginRequest {
        url: url.clone(),
        submit_url: url.clone(),
        id: database.id.clone(),
        login: login.clone(),
        password: password.clone(),
        group: Some(database.group.clone()),
        group_uuid: Some(database.group_uuid.clone()),
        uuid: match uuid {
            Some(uuid) => Some(uuid.clone()),
            None => None,
        },
    }
}

/// Decides what a `store` request does, from the entries that the password manager returned
/// for the URL of the request (none where the query failed), the number of configured
/// databases and the usable ones.
pub fn store_login(
    request: &GitCredentialMessage,
    url: &String,
    entries: &Vec<LoginEntry>,
    configured: usize,
    usable: &Vec<Database>,
) -> (r: Result<StoreAction, HelperError>)
    ensures
        match store_decision(
            request@,
            url@,
            entries.deep_view(),
            configured as nat,
            usable.deep_view(),
        ) {
            Ok(action) => r is Ok && r->Ok_0@ == action,
            Err(e) => r is Err && r->Err_0 == e,
        },
{
    let username = match &request.username {
        Some(username) => username,
        None => {
            return Err(HelperError::MissingCredentialField);
        },
    };
    let password = match &request.password {
        Some(password) => password,
        None => {
            return Err(HelperError::MissingCredentialField);
        },
    };
    if usable.len() == 0 {
        return Err(HelperError::NoValidDatabase);
    }
    let database = &usable[0];
    let live = get_logins_for(entries);
    let (_, offered) = filter_kph_logins(&live);
    let existing = filter_by_login(&offered, username);
    if existing.len() > 0 {
        let entry = existing[0];
        if entry.password == *password {
            Ok(StoreAction::AlreadyStored)
        } else if configured > 1 {
            Err(HelperError::UnsupportedMultiDatabaseUpdate)
        } else {
            let update = set_login_request(url, database, username, password, Some(&entry.uuid));
            Ok(StoreAction::Send(update))
        }
    } else {
        Ok(StoreAction::Send(set_login_request(url, database, username, password, None)))
    }
}

/// The answer of the password manager to a set-login request.
#[derive(Clone, Debug, PartialEq, Eq)]
pub struct SetLoginResponse {
    pub success: Option<bool>,
    pub error: Option<String>,
    pub error_code: Option<String>,
}

/// The answer says that the login was stored: its success flag is set, and its error text is
/// absent, empty or the word `success`.
pub open spec fn confirms_store(success: Option<bool>, error: Option<Seq<char>>) -> bool {
    &&& success == Some(true)
    &&& match error {
        None => true,
        Some(text) => text.len() == 0 || text == "success"@,
    }
}

/// Judges the answer to a set-login request.
pub fn check_store_response(response: &SetLoginResponse) -> (r: Result<(), HelperError>)
    ensures
        confirms_store(response.success, text_of(response.error)) ==> r is Ok,
        !confirms_store(response.success, text_of(response.error)) ==> r == Err::<
            (),
            HelperError,
        >(HelperError::StoreRejected),
{
    let flagged = match response.success {
        Some(flag) => flag,
        None => false,
    };
    let clean = match &response.error {
        None => true,
        Some(text) => {
            let word = "success".to_owned();
            text.as_str().is_empty() || *text == word
        },
    };
    if flagged && clean {
        Ok(())
    } else {
        Err(HelperError::StoreRejected)
    }
}

/// The entry with `login` and `password` written over its own.
pub open spec fn with_credentials(
    entry: LoginEntryView,
    login: Seq<char>,
    password: Seq<char>,
) -> LoginEntryView {
    LoginEntryView { login, password, ..entry }
}

/// The entries that the password manager holds for a URL after it has carried out `request`:
/// with an entry identifier every entry of that identifier has the new login and password,
/// and without one a new entry with the identifier `fresh` stands at the end.
pub open spec fn after_set_login(
    entries: Seq<LoginEntryView>,
    request: SetLoginRequestView,
    fresh: Seq<char>,
) -> Seq<LoginEntryView> {
    match request.uuid {
        Some(uuid) => Seq::new(
            entries.len(),
            |i: int|
                if entries[i].uuid == uuid {
                    with_credentials(entries[i], request.login, request.password)
                } else {
                    entries[i]
                },
        ),
        None => entries.push(
            LoginEntryView {
                login: request.login,
                password: request.password,
                uuid: fresh,
                string_fields: None,
                expired: None,
            },
        ),
    }
}

/// The entries after a `store` has done what it decided.
pub open spec fn after_store(
    entries: Seq<LoginEntryView>,
    action: StoreActionView,
    fresh: Seq<char>,
) -> Seq<LoginEntryView> {
    match action {
        StoreActionView::AlreadyStored => entries,
        StoreActionView::Send(request) => after_set_login(entries, request, fresh),
    }
}

/// The condition under which a `store` for `username` may update an entry.
pub open spec fn updatable(username: Seq<char>) -> spec_fn(LoginEntryView) -> bool {
    both(both(not_expired(), not_opted_out()), has_login(username))
}

/// The entries that a `store` may update are those that meet `updatable`.
proof fn lemma_existing_entries(entries: Seq<LoginEntryView>, username: Seq<char>)
    ensures
        existing_entries(entries, username) == entries.filter(updatable(username)),
{
    lemma_filter_twice(entries, not_expired(), not_opted_out());
    lemma_filter_twice(entries, both(not_expired(), not_opted_out()), has_login(username));
}

/// A `store` repeated with the same username and password writes nothing: once the password
/// manager has carried out what the first `store` decided, the second finds the credentials
/// stored already.
pub proof fn law_store_idempotent(
    request: GitCredentialView,
    url: Seq<char>,
    entries: Seq<LoginEntryView>,
    configured: nat,
    usable: Seq<DatabaseView>,
    fresh: Seq<char>,
)
    requires
        store_decision(request, url, entries, configured, usable) is Ok,
    ensures
        store_decision(
            request,
            url,
            after_store(
                entries,
                store_decision(request, url, entries, configured, usable)->Ok_0,
                fresh,
            ),
            configured,
            usable,
        ) == Ok::<StoreActionView, HelperError>(StoreActionView::AlreadyStored),
{
    let username = request.username->Some_0;
    let keep = updatable(username);
    let action = store_decision(request, url, entries, configured, usable)->Ok_0;
    let later = after_store(entries, action, fresh);
    lemma_existing_entries(entries, username);
    lemma_existing_entries(later, username);
    match action {
        StoreActionView::AlreadyStored => {},
        StoreActionView::Send(sent) => {
            match sent.uuid {
                None => {
                    let added = later[entries.len() as int];
                    lemma_filter_push(entries, added, keep);
                },
                Some(uuid) => {
                    let k = lemma_filter_first_index(entries, keep);
                    lemma_filter_some(later, keep, k);
                    let f = lemma_filter_first_index(later, keep);
                },
            }
        },
    }
}

/// A `store` for a user whose entry holds another password updates that entry in place: the
/// request names the entry, and afterwards the password manager holds as many entries as
/// before, with the new password in the same place.
pub proof fn law_store_updates_in_place(
    request: GitCredentialView,
    url: Seq<char>,
    entries: Seq<LoginEntryView>,
    configured: nat,
    usable: Seq<DatabaseView>,
    fresh: Seq<char>,
    k: int,
)
    requires
        request.username is Some,
        request.password is Some,
        usable.len() > 0,
        configured <= 1,
        0 <= k < entries.len(),
        crate::logins::usable(entries[k]),
        entries[k].login == request.username->Some_0,
        entries[k].password != request.password->Some_0,
        forall|j: int|
            0 <= j < k && crate::logins::usable(#[trigger] entries[j]) ==> entries[j].login
                != request.username->Some_0,
    ensures
        store_decision(request, url, entries, configured, usable) == Ok::<
            StoreActionView,
            HelperError,
        >(
            StoreActionView::Send(
                set_login_for(
                    url,
                    usable[0],
                    request.username->Some_0,
                    request.password->Some_0,
                    Some(entries[k].uuid),
                ),
            ),
        ),
        after_store(
            entries,
            store_decision(request, url, entries, configured, usable)->Ok_0,
            fresh,
        ).len() == entries.len(),
        after_store(
            entries,
            store_decision(request, url, entries, configured, usable)->Ok_0,
            fresh,
        )[k] == with_credentials(entries[k], request.username->Some_0, request.password->Some_0),
{
    let username = request.username->Some_0;
    lemma_existing_entries(entries, username);
    lemma_filter_first(entries, updatable(username), k);
}

/// A `store` for a user without a usable entry creates one, and does not touch the others.
pub proof fn law_store_creates(
    request: GitCredentialView,
    url: Seq<char>,
    entries: Seq<LoginEntryView>,
    configured: nat,
    usable: Seq<DatabaseView>,
    fresh: Seq<char>,
)
    requires
        request.username is Some,
        request.password is Some,
        usable.len() > 0,
        forall|j: int|
            0 <= j < entries.len() && crate::logins::usable(#[trigger] entries[j])
                ==> entries[j].login != request.username->Some_0,
    ensures
        store_decision(request, url, entries, configured, usable) == Ok::<
            StoreActionView,
            HelperError,
        >(
            StoreActionView::Send(
                set_login_for(
                    url,
                    usable[0],
                    request.username->Some_0,
                    request.password->Some_0,
                    None,
                ),
            ),
        ),
        after_store(
            entries,
            store_decision(request, url, entries, configured, usable)->Ok_0,
            fresh,
        ).drop_last() == entries,
{
    let username = request.username->Some_0;
    lemma_existing_entries(entries, username);
    lemma_filter_none(entries, updatable(username));
    let later = after_store(
        entries,
        store_decision(request, url, entries, configured, usable)->Ok_0,
        fresh,
    );
}

} // verus!

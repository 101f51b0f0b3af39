//! Stored login entries and the rules that pick one of them for a `get` request.
//!
//! The password manager answers a query with a list of entries. Entries that are expired or
//! that carry the opt-out marker are never offered. Of those that are left the username of
//! the request may pick some, and the first one in the manager's order is returned.

use crate::config::{Database, DatabaseView};
use crate::error::HelperError;
use crate::filters::{
    both, lemma_filter_ends, lemma_filter_first, lemma_filter_members, lemma_filter_next,
    lemma_filter_none, lemma_filter_only, lemma_filter_some, lemma_filter_twice,
};
use crate::git::{decoded, encoded, law_decode_encode, GitCredentialMessage, GitCredentialView};
use vstd::prelude::*;

verus! {

/// One custom field of a stored entry.
#[derive(Clone, Debug, PartialEq, Eq)]
pub struct StringField {
    pub key: String,
    pub value: String,
}

/// A login entry as the password manager reports it. `string_fields` is a list of mappings
/// from field names to values, each mapping written as a list of fields in which no name
/// occurs twice.
#[derive(Clone, Debug, PartialEq, Eq)]
pub struct LoginEntry {
    pub login: String,
    pub password: String,
    pub uuid: String,
    pub string_fields: Option<Vec<Vec<StringField>>>,
    pub expired: Option<bool>,
}

/// A custom field as plain text.
pub struct StringFieldView {
    pub key: Seq<char>,
    pub value: Seq<char>,
}

/// A login entry as plain values.
pub struct LoginEntryView {
    pub login: Seq<char>,
    pub password: Seq<char>,
    pub uuid: Seq<char>,
    pub string_fields: Option<Seq<Seq<StringFieldView>>>,
    pub expired: Option<bool>,
}

impl View for StringField {
    type V = StringFieldView;

    open spec fn view(&self) -> StringFieldView {
        StringFieldView { key: self.key@, value: self.value@ }
    }
}

impl DeepView for StringField {
    type V = StringFieldView;

    open spec fn deep_view(&self) -> StringFieldView {
        self@
    }
}

impl View for LoginEntry {
    type V = LoginEntryView;

    open spec fn view(&self) -> LoginEntryView {
        LoginEntryView {
            login: self.login@,
            password: self.password@,
            uuid: self.uuid@,
            string_fields: self.string_fields.deep_view(),
            expired: self.expired,
        }
    }
}

impl DeepView for LoginEntry {
    type V = LoginEntryView;

    open spec fn deep_view(&self) -> LoginEntryView {
        self@
    }
}

/// The field says that its entry is not to be offered: it is named `KPH: git` and holds `false`.
pub open spec fn marks_opt_out(field: StringFieldView) -> bool {
    field.key == "KPH: git"@ && field.value == "false"@
}

/// One of the fields of the mapping is the opt-out marker.
pub open spec fn mapping_opts_out(fields: Seq<StringFieldView>) -> bool {
    exists|j: int| 0 <= j < fields.len() && marks_opt_out(#[trigger] fields[j])
}

/// The entry carries the opt-out marker in one of its mappings.
pub open spec fn opted_out(entry: LoginEntryView) -> bool {
    match entry.string_fields {
        Some(mappings) => exists|i: int|
            0 <= i < mappings.len() && mapping_opts_out(#[trigger] mappings[i]),
        None => false,
    }
}

/// The list of fields is a mapping: no name occurs twice in it.
pub open spec fn is_mapping(fields: Seq<StringFieldView>) -> bool {
    forall|i: int, j: int|
        0 <= i < j < fields.len() ==> (#[trigger] fields[i]).key != (#[trigger] fields[j]).key
}

/// What the mapping holds under `key`: the value of the first field of that name.
pub open spec fn field_value(fields: Seq<StringFieldView>, key: Seq<char>) -> Option<Seq<char>>
    decreases fields.len(),
{
    if fields.len() == 0 {
        None
    } else if fields[0].key == key {
        Some(fields[0].value)
    } else {
        field_value(fields.skip(1), key)
    }
}

impl LoginEntryView {
    /// Each list of custom fields of the entry is a mapping.
    pub open spec fn well_formed(self) -> bool {
        match self.string_fields {
            Some(mappings) => forall|i: int|
                0 <= i < mappings.len() ==> is_mapping(#[trigger] mappings[i]),
            None => true,
        }
    }
}

/// The entry is explicitly marked as expired.
pub open spec fn is_expired(entry: LoginEntryView) -> bool {
    entry.expired == Some(true)
}

pub open spec fn not_expired() -> spec_fn(LoginEntryView) -> bool {
    |entry: LoginEntryView| !is_expired(entry)
}

pub open spec fn not_opted_out() -> spec_fn(LoginEntryView) -> bool {
    |entry: LoginEntryView| !opted_out(entry)
}

pub open spec fn has_login(username: Seq<char>) -> spec_fn(LoginEntryView) -> bool {
    |entry: LoginEntryView| entry.login == username
}

/// The entries that are not expired, in their order.
pub open spec fn live_entries(entries: Seq<LoginEntryView>) -> Seq<LoginEntryView> {
    entries.filter(not_expired())
}

/// The entries without the opt-out marker, in their order.
pub open spec fn offered_entries(entries: Seq<LoginEntryView>) -> Seq<LoginEntryView> {
    entries.filter(not_opted_out())
}

/// The entries whose login is `username`, in their order.
pub open spec fn entries_named(entries: Seq<LoginEntryView>, username: Seq<char>) -> Seq<
    LoginEntryView,
> {
    entries.filter(has_login(username))
}

/// How many of the entries carry the opt-out marker.
pub open spec fn excluded_count(entries: Seq<LoginEntryView>) -> int {
    entries.len() - offered_entries(entries).len()
}

/// The entries that a `get` chooses from: those that the manager returned and that are
/// neither expired nor opted out. Where more than one is left and a username is given, only
/// those with that login count, unless there is none of them.
pub open spec fn candidates(entries: Seq<LoginEntryView>, hint: Option<Seq<char>>) -> Seq<
    LoginEntryView,
> {
    let offered = offered_entries(live_entries(entries));
    match hint {
        Some(username) => if offered.len() > 1 && entries_named(offered, username).len() > 0 {
            entries_named(offered, username)
        } else {
            offered
        },
        None => offered,
    }
}

/// The entry that answers a `get`: the first candidate in the manager's order.
pub open spec fn resolved(entries: Seq<LoginEntryView>, hint: Option<Seq<char>>) -> Option<
    LoginEntryView,
> {
    if candidates(entries, hint).len() == 0 {
        None
    } else {
        Some(candidates(entries, hint)[0])
    }
}

fn field_marks_opt_out(field: &StringField) -> (marked: bool)
    ensures
        marked == marks_opt_out(field@),
{
    let key = "KPH: git".to_owned();
    let value = "false".to_owned();
    field.key == key && field.value == value
}

fn mapping_has_marker(fields: &Vec<StringField>) -> (marked: bool)
    ensures
        marked == mapping_opts_out(fields.deep_view()),
{
    let mut j: usize = 0;
    while j < fields.len()
        invariant
            j <= fields.len(),
            forall|k: int| 0 <= k < j ==> !marks_opt_out(#[trigger] fields.deep_view()[k]),
        decreases fields.len() - j,
    {
        if field_marks_opt_out(&fields[j]) {
            assert(marks_opt_out(fields.deep_view()[j as int]));
            return true;
        }
        j = j + 1;
    }
    false
}

/// Whether the entry carries the opt-out marker.
pub fn is_opted_out(entry: &LoginEntry) -> (marked: bool)
    ensures
        marked == opted_out(entry@),
{
    match &entry.string_fields {
        Some(mappings) => {
            let mut i: usize = 0;
            while i < mappings.len()
                invariant
                    i <= mappings.len(),
                    entry.string_fields == Some(*mappings),
                    forall|k: int|
                        0 <= k < i ==> !mapping_opts_out(#[trigger] mappings.deep_view()[k]),
                decreases mappings.len() - i,
            {
                if mapping_has_marker(&mappings[i]) {
                    proof {
                        let groups = mappings.deep_view();
                        assert(entry@.string_fields->Some_0 == groups);
                        assert(mapping_opts_out(groups[i as int]));
                    }
                    return true;
                }
                i = i + 1;
            }
            false
        },
        None => false,
    }
}

/// Drops the entries that are marked as expired. The manager should not return such entries,
/// and if it does they are not used.
pub fn get_logins_for(entries: &Vec<LoginEntry>) -> (live: Vec<&LoginEntry>)
    ensures
        live.deep_view() == live_entries(entries.deep_view()),
{
    let mut live: Vec<&LoginEntry> = Vec::new();
    let mut i: usize = 0;
    proof {
        lemma_filter_ends(entries.deep_view(), not_expired());
    }
    while i < entries.len()
        invariant
            i <= entries.len(),
            live.deep_view() == live_entries(entries.deep_view().take(i as int)),
        decreases entries.len() - i,
    {
        let entry = &entries[i];
        let expired = match entry.expired {
            Some(flag) => flag,
            None => false,
        };
        proof {
            lemma_filter_next(entries.deep_view(), not_expired(), i as int);
        }
        if !expired {
            live.push(entry);
        }
        i = i + 1;
    }
    proof {
        lemma_filter_ends(entries.deep_view(), not_expired());
    }
    live
}

/// Drops the entries that carry the opt-out marker and counts them.
pub fn filter_kph_logins<'a>(entries: &Vec<&'a LoginEntry>) -> (r: (usize, Vec<&'a LoginEntry>))
    ensures
        r.1.deep_view() == offered_entries(entries.deep_view()),
        r.0 == excluded_count(entries.deep_view()),
{
    let mut offered: Vec<&LoginEntry> = Vec::new();
    let mut excluded: usize = 0;
    let mut i: usize = 0;
    proof {
        lemma_filter_ends(entries.deep_view(), not_opted_out());
    }
    while i < entries.len()
        invariant
            i <= entries.len(),
            offered.deep_view() == offered_entries(entries.deep_view().take(i as int)),
            excluded + offered.len() == i,
        decreases entries.len() - i,
    {
        let entry = entries[i];
        proof {
            lemma_filter_next(entries.deep_view(), not_opted_out(), i as int);
        }
        if is_opted_out(entry) {
            excluded = excluded + 1;
        } else {
            offered.push(entry);
        }
        i = i + 1;
    }
    proof {
        lemma_filter_ends(entries.deep_view(), not_opted_out());
    }
    (excluded, offered)
}

/// Keeps the entries whose login is `username`.
pub fn filter_by_login<'a>(entries: &Vec<&'a LoginEntry>, username: &String) -> (named: Vec<
    &'a LoginEntry,
>)
    ensures
        named.deep_view() == entries_named(entries.deep_view(), username@),
{
    let mut named: Vec<&LoginEntry> = Vec::new();
    let mut i: usize = 0;
    proof {
        lemma_filter_ends(entries.deep_view(), has_login(username@));
    }
    while i < entries.len()
        invariant
            i <= entries.len(),
            named.deep_view() == entries_named(entries.deep_view().take(i as int), username@),
        decreases entries.len() - i,
    {
        let entry = entries[i];
        proof {
            lemma_filter_next(entries.deep_view(), has_login(username@), i as int);
        }
        if entry.login == *username {
            named.push(entry);
        }
        i = i + 1;
    }
    proof {
        lemma_filter_ends(entries.deep_view(), has_login(username@));
    }
    named
}

/// The query for the entries of a URL: the URL, and for each database its identifier with the
/// public half of its permanent key.
#[derive(Clone, Debug, PartialEq, Eq)]
pub struct GetLoginsRequest {
    pub url: String,
    pub keys: Vec<(String, String)>,
}

/// The identifier and the public key text of each database, in order.
pub open spec fn id_key_pairs(databases: Seq<DatabaseView>) -> Seq<(Seq<char>, Seq<char>)> {
    databases.map_values(|database: DatabaseView| (database.id, database.pkey))
}

/// Makes the query for the entries of `url` in the usable databases.
pub fn get_logins_request(url: &String, databases: &Vec<Database>) -> (request: GetLoginsRequest)
    ensures
        request.url@ == url@,
        request.keys.deep_view() == id_key_pairs(databases.deep_view()),
{
    let mut keys: Vec<(String, String)> = Vec::new();
    let mut i: usize = 0;
    while i < databases.len()
        invariant
            i <= databases.len(),
            keys.deep_view() == id_key_pairs(databases.deep_view().take(i as int)),
        decreases databases.len() - i,
    {
        keys.push((databases[i].id.clone(), databases[i].pkey.clone()));
        proof {
            let all = databases.deep_view();
            assert(id_key_pairs(all.take(i + 1)) =~= id_key_pairs(all.take(i as int)).push(
                (all[i as int].id, all[i as int].pkey),
            ));
        }
        i = i + 1;
    }
    GetLoginsRequest { url: url.clone(), keys }
}

/// The answer to a `get` request.
#[derive(Clone, Debug, PartialEq, Eq)]
pub struct Resolution {
    /// The request with username and password filled in from the chosen entry.
    pub response: GitCredentialMessage,
    /// How many entries were left out because they carry the opt-out marker.
    pub excluded: usize,
    /// Whether more than one candidate was left, so that the first one was taken.
    pub ambiguous: bool,
}

/// The response to `request` that carries the credentials of `entry`.
pub open spec fn response_for(
    request: GitCredentialView,
    entry: LoginEntryView,
) -> GitCredentialView {
    GitCredentialView { username: Some(entry.login), password: Some(entry.password), ..request }
}

/// Answers a `get` request from the entries that the password manager returned for its URL.
///
/// Expired and opted-out entries are dropped. Where more than one entry is left and the
/// request names a user, the entries of that user are taken if there are any. The first entry
/// left provides username and password; that there were several is reported, not refused.
/// Without any entry left the request fails.
pub fn get_logins(request: GitCredentialMessage, entries: &Vec<LoginEntry>) -> (r: Result<
    Resolution,
    HelperError,
>)
    ensures
        match resolved(entries.deep_view(), request@.username) {
            Some(entry) => {
                &&& r is Ok
                &&& r->Ok_0.response@ == response_for(request@, entry)
                &&& r->Ok_0.excluded == excluded_count(live_entries(entries.deep_view()))
                &&& r->Ok_0.ambiguous == (candidates(entries.deep_view(), request@.username).len()
                    > 1)
            },
            None => r is Err && r->Err_0 == HelperError::NoMatchingLogin,
        },
{
    let live = get_logins_for(entries);
    let (excluded, offered) = filter_kph_logins(&live);
    if offered.len() == 0 {
        return Err(HelperError::NoMatchingLogin);
    }
    let mut chosen = offered;
    if chosen.len() > 1 {
        match &request.username {
            Some(username) => {
                let named = filter_by_login(&chosen, username);
                if named.len() > 0 {
                    chosen = named;
                }
            },
            None => {},
        }
    }
    let ambiguous = chosen.len() > 1;
    let entry = chosen[0];
    let mut response = request;
    response.username = Some(entry.login.clone());
    response.password = Some(entry.password.clone());
    Ok(Resolution { response, excluded, ambiguous })
}

/// The entry may be offered: it is neither expired nor opted out.
pub open spec fn usable(entry: LoginEntryView) -> bool {
    !is_expired(entry) && !opted_out(entry)
}

/// A `get` that finds exactly one entry that is neither expired nor opted out returns the
/// login and the password of that entry as they are stored, whatever username the request names.
pub proof fn law_single_match(request: GitCredentialView, entries: Seq<LoginEntryView>, k: int)
    requires
        0 <= k < entries.len(),
        usable(entries[k]),
        forall|j: int| 0 <= j < entries.len() && j != k ==> !usable(#[trigger] entries[j]),
    ensures
        resolved(entries, request.username) == Some(entries[k]),
        response_for(request, entries[k]).username == Some(entries[k].login),
        response_for(request, entries[k]).password == Some(entries[k].password),
{
    let keep = both(not_expired(), not_opted_out());
    lemma_filter_twice(entries, not_expired(), not_opted_out());
    lemma_filter_only(entries, keep, k);
}

/// A `get` with a username that exactly one of the usable entries has returns that entry.
pub proof fn law_hint_selects(entries: Seq<LoginEntryView>, username: Seq<char>, k: int)
    requires
        0 <= k < entries.len(),
        usable(entries[k]),
        entries[k].login == username,
        forall|j: int|
            0 <= j < entries.len() && j != k && usable(#[trigger] entries[j]) ==> entries[j].login
                != username,
    ensures
        resolved(entries, Some(username)) == Some(entries[k]),
{
    let keep = both(not_expired(), not_opted_out());
    let offered = offered_entries(live_entries(entries));
    let named = entries_named(offered, username);
    lemma_filter_twice(entries, not_expired(), not_opted_out());
    lemma_filter_twice(entries, keep, has_login(username));
    lemma_filter_only(entries, both(keep, has_login(username)), k);
    if offered.len() <= 1 {
        lemma_filter_members(offered, has_login(username));
        assert(offered.contains(named[0]));
    }
}

/// A `get` with a username that none of the usable entries has returns the first usable entry
/// in the order in which the password manager listed them.
pub proof fn law_hint_misses(entries: Seq<LoginEntryView>, username: Seq<char>, k: int)
    requires
        0 <= k < entries.len(),
        usable(entries[k]),
        forall|j: int| 0 <= j < k ==> !usable(#[trigger] entries[j]),
        forall|j: int|
            0 <= j < entries.len() && usable(#[trigger] entries[j]) ==> entries[j].login
                != username,
    ensures
        resolved(entries, Some(username)) == Some(entries[k]),
{
    let keep = both(not_expired(), not_opted_out());
    lemma_filter_twice(entries, not_expired(), not_opted_out());
    lemma_filter_twice(entries, keep, has_login(username));
    lemma_filter_first(entries, keep, k);
    lemma_filter_none(entries, both(keep, has_login(username)));
}

/// A `get` without a username returns the first usable entry in the manager's order.
pub proof fn law_first_in_order(entries: Seq<LoginEntryView>, k: int)
    requires
        0 <= k < entries.len(),
        usable(entries[k]),
        forall|j: int| 0 <= j < k ==> !usable(#[trigger] entries[j]),
    ensures
        resolved(entries, None) == Some(entries[k]),
{
    lemma_filter_twice(entries, not_expired(), not_opted_out());
    lemma_filter_first(entries, both(not_expired(), not_opted_out()), k);
}

/// A `get` fails exactly when every entry is expired or opted out.
pub proof fn law_no_match(entries: Seq<LoginEntryView>, hint: Option<Seq<char>>)
    ensures
        resolved(entries, hint) is None <==> forall|j: int|
            0 <= j < entries.len() ==> !usable(#[trigger] entries[j]),
{
    let keep = both(not_expired(), not_opted_out());
    lemma_filter_twice(entries, not_expired(), not_opted_out());
    if forall|j: int| 0 <= j < entries.len() ==> !usable(#[trigger] entries[j]) {
        lemma_filter_none(entries, keep);
    } else {
        let j = choose|j: int| 0 <= j < entries.len() && usable(#[trigger] entries[j]);
        lemma_filter_some(entries, keep, j);
    }
}

/// What a lookup finds is the value of the first field of that name, and it finds nothing
/// only where no field has the name.
pub proof fn lemma_field_value(fields: Seq<StringFieldView>, key: Seq<char>)
    ensures
        match field_value(fields, key) {
            Some(value) => exists|j: int|
                0 <= j < fields.len() && (#[trigger] fields[j]).key == key && fields[j].value
                    == value && forall|i: int| 0 <= i < j ==> (#[trigger] fields[i]).key != key,
            None => forall|j: int| 0 <= j < fields.len() ==> (#[trigger] fields[j]).key != key,
        },
    decreases fields.len(),
{
    if fields.len() > 0 && fields[0].key != key {
        let rest = fields.skip(1);
        lemma_field_value(rest, key);
        match field_value(rest, key) {
            Some(value) => {
                let j = choose|j: int|
                    0 <= j < rest.len() && (#[trigger] rest[j]).key == key && rest[j].value
                        == value && forall|i: int| 0 <= i < j ==> (#[trigger] rest[i]).key != key;
                assert(fields[j + 1] == rest[j]);
                assert forall|i: int| 0 <= i < j + 1 implies (#[trigger] fields[i]).key
                    != key by {
                    if i > 0 {
                        assert(fields[i] == rest[i - 1]);
                    }
                }
            },
            None => {
                assert forall|j: int| 0 <= j < fields.len() implies (#[trigger] fields[j]).key
                    != key by {
                    if j > 0 {
                        assert(fields[j] == rest[j - 1]);
                    }
                }
            },
        }
    }
}

/// In a mapping the opt-out marker is what a lookup finds: the mapping opts out exactly where
/// it holds `false` under `KPH: git`.
pub proof fn law_opt_out_is_lookup(fields: Seq<StringFieldView>)
    requires
        is_mapping(fields),
    ensures
        mapping_opts_out(fields) <==> field_value(fields, "KPH: git"@) == Some("false"@),
{
    lemma_field_value(fields, "KPH: git"@);
    if mapping_opts_out(fields) {
        let j = choose|j: int| 0 <= j < fields.len() && marks_opt_out(#[trigger] fields[j]);
        assert(fields[j].key == "KPH: git"@);
    }
}

/// An entry whose custom fields are mappings is opted out exactly where one of the mappings
/// holds `false` under `KPH: git`.
pub proof fn law_opted_out_is_lookup(entry: LoginEntryView)
    requires
        entry.well_formed(),
    ensures
        opted_out(entry) <==> (entry.string_fields matches Some(mappings) && exists|i: int|
            0 <= i < mappings.len() && field_value(#[trigger] mappings[i], "KPH: git"@) == Some(
                "false"@,
            )),
{
    match entry.string_fields {
        Some(mappings) => {
            assert forall|i: int| 0 <= i < mappings.len() implies (mapping_opts_out(
                #[trigger] mappings[i],
            ) <==> field_value(mappings[i], "KPH: git"@) == Some("false"@)) by {
                law_opt_out_is_lookup(mappings[i]);
            }
        },
        None => {},
    }
}

/// The answer to a `get` can be written and read back wherever the request could and the
/// stored login and password hold no newline.
pub proof fn law_response_round_trip(request: GitCredentialView, entry: LoginEntryView)
    requires
        request.well_formed(),
        !entry.login.contains('\n'),
        !entry.password.contains('\n'),
    ensures
        response_for(request, entry).well_formed(),
        decoded(encoded(response_for(request, entry))) == Some(
            response_for(request, entry),
        ),
{
    law_decode_encode(response_for(request, entry));
}

} // verus!

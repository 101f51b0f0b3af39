//! Who may invoke the helper.
//!
//! The process that invoked the helper is checked against the allow-list of the
//! configuration before anything else happens. A configuration without allow-list is taken
//! as not set up yet, and lets everybody in.

use crate::config::{Caller, CallerView, Config};
use crate::error::HelperError;
use vstd::prelude::*;

verus! {

/// What is known of the process that invoked the helper. `uid` and `gid` are there where the
/// owner of the process is known; an allow-list entry that asks for an owner admits no
/// process whose owner is unknown.
#[derive(Clone, Debug, PartialEq, Eq)]
pub struct ParentProcess {
    pub pid: usize,
    pub path: String,
    pub uid: Option<u32>,
    pub gid: Option<u32>,
}

/// The invoking process as plain values.
pub struct ParentProcessView {
    pub pid: usize,
    pub path: Seq<char>,
    pub uid: Option<u32>,
    pub gid: Option<u32>,
}

impl View for ParentProcess {
    type V = ParentProcessView;

    open spec fn view(&self) -> ParentProcessView {
        ParentProcessView { pid: self.pid, path: self.path@, uid: self.uid, gid: self.gid }
    }
}

/// The text of an optional invoking process.
pub open spec fn parent_of(parent: Option<&ParentProcess>) -> Option<ParentProcessView> {
    match parent {
        Some(parent) => Some(parent@),
        None => None,
    }
}

/// An identifier that the allow-list asks for agrees with the one of the process: where the
/// allow-list asks for none any process will do, and where it asks for one the process must
/// be known to have that one.
pub open spec fn id_agrees(wanted: Option<u32>, actual: Option<u32>) -> bool {
    match wanted {
        Some(wanted) => actual == Some(wanted),
        None => true,
    }
}

/// The allow-list entry admits the process: the paths are the same, and user and group agree.
pub open spec fn admits(caller: CallerView, parent: ParentProcessView) -> bool {
    &&& caller.path == parent.path
    &&& id_agrees(caller.uid, parent.uid)
    &&& id_agrees(caller.gid, parent.gid)
}

/// Some entry of the allow-list admits the process.
pub open spec fn allowed(callers: Seq<CallerView>, parent: ParentProcessView) -> bool {
    exists|i: int| 0 <= i < callers.len() && admits(#[trigger] callers[i], parent)
}

/// Nothing is set up yet that a check could go by: the allow-list is empty, and either the
/// strict mode is off or no database is configured.
pub open spec fn bootstrap_state(callers: nat, databases: nat, strict: bool) -> bool {
    callers == 0 && (!strict || databases == 0)
}

/// The verdict on the invoking process. In the bootstrap state the check is skipped and
/// nobody is named. Otherwise the process must be known and admitted by the allow-list, and
/// is named by its identifier and its path.
pub open spec fn caller_verdict(
    callers: Seq<CallerView>,
    databases: nat,
    strict: bool,
    parent: Option<ParentProcessView>,
) -> Result<Option<(usize, Seq<char>)>, HelperError> {
    if bootstrap_state(callers.len(), databases, strict) {
        Ok(None)
    } else {
        match parent {
            Some(parent) => if allowed(callers, parent) {
                Ok(Some((parent.pid, parent.path)))
            } else {
                Err(HelperError::CallerDenied)
            },
            None => Err(HelperError::CallerDenied),
        }
    }
}

/// Whether the check of the invoking process is skipped, so that the process need not be
/// looked up at all.
pub fn verification_skipped(config: &Config, strict: bool) -> (skipped: bool)
    ensures
        skipped == bootstrap_state(config@.callers.len(), config@.databases.len(), strict),
{
    config.count_callers() == 0 && (!strict || config.count_databases() == 0)
}

fn id_matches(wanted: Option<u32>, actual: Option<u32>) -> (agrees: bool)
    ensures
        agrees == id_agrees(wanted, actual),
{
    match (wanted, actual) {
        (Some(wanted), Some(actual)) => wanted == actual,
        (Some(_), None) => false,
        (None, _) => true,
    }
}

fn caller_admits(caller: &Caller, parent: &ParentProcess) -> (admitted: bool)
    ensures
        admitted == admits(caller@, parent@),
{
    caller.path == parent.path && id_matches(caller.uid, parent.uid) && id_matches(
        caller.gid,
        parent.gid,
    )
}

/// Checks the invoking process against the allow-list. `parent` is the process that invoked
/// the helper, or `None` where it could not be found out. On success the process that was
/// admitted is returned, for information only; in the bootstrap state that is nobody.
pub fn verify_caller(config: &Config, strict: bool, parent: Option<&ParentProcess>) -> (r: Result<
    Option<(usize, String)>,
    HelperError,
>)
    ensures
        match caller_verdict(config@.callers, config@.databases.len(), strict, parent_of(parent)) {
            Ok(Some(named)) => r is Ok && r->Ok_0 is Some && r->Ok_0->Some_0.0 == named.0
                && r->Ok_0->Some_0.1@ == named.1,
            Ok(None) => r is Ok && r->Ok_0 is None,
            Err(e) => r is Err && r->Err_0 == e,
        },
{
    if verification_skipped(config, strict) {
        return Ok(None);
    }
    let process = match parent {
        Some(process) => process,
        None => {
            return Err(HelperError::CallerDenied);
        },
    };
    let callers = config.get_callers();
    let mut i: usize = 0;
    while i < callers.len()
        invariant
            i <= callers.len(),
            callers.deep_view() == config@.callers,
            parent_of(parent) == Some(process@),
            !bootstrap_state(config@.callers.len(), config@.databases.len(), strict),
            forall|j: int| 0 <= j < i ==> !admits(#[trigger] config@.callers[j], process@),
        decreases callers.len() - i,
    {
        if caller_admits(&callers[i], process) {
            assert(admits(config@.callers[i as int], process@));
            return Ok(Some((process.pid, process.path.clone())));
        }
        i = i + 1;
    }
    Err(HelperError::CallerDenied)
}

/// A process whose path is not on a non-empty allow-list is denied, whatever else is known
/// of it.
pub proof fn law_unlisted_path_denied(
    callers: Seq<CallerView>,
    databases: nat,
    strict: bool,
    parent: ParentProcessView,
)
    requires
        callers.len() > 0,
        forall|i: int| 0 <= i < callers.len() ==> (#[trigger] callers[i]).path != parent.path,
    ensures
        caller_verdict(callers, databases, strict, Some(parent)) == Err::<
            Option<(usize, Seq<char>)>,
            HelperError,
        >(HelperError::CallerDenied),
{
}

/// With an empty allow-list and no database configured everybody is let in, known or not.
pub proof fn law_bootstrap_allows(strict: bool, parent: Option<ParentProcessView>)
    ensures
        caller_verdict(Seq::<CallerView>::empty(), 0, strict, parent) == Ok::<
            Option<(usize, Seq<char>)>,
            HelperError,
        >(None),
{
}

/// Outside the bootstrap state a process that could not be found out is denied.
pub proof fn law_unknown_parent_denied(callers: Seq<CallerView>, databases: nat, strict: bool)
    requires
        !bootstrap_state(callers.len(), databases, strict),
    ensures
        caller_verdict(callers, databases, strict, None) == Err::<
            Option<(usize, Seq<char>)>,
            HelperError,
        >(HelperError::CallerDenied),
{
}

/// A process that an entry of the allow-list admits is let in and named.
pub proof fn law_listed_caller_allowed(
    callers: Seq<CallerView>,
    databases: nat,
    strict: bool,
    parent: ParentProcessView,
    i: int,
)
    requires
        0 <= i < callers.len(),
        admits(callers[i], parent),
    ensures
        caller_verdict(callers, databases, strict, Some(parent)) == Ok::<
            Option<(usize, Seq<char>)>,
            HelperError,
        >(Some((parent.pid, parent.path))),
{
}

/// A process whose owner is unknown is admitted by no entry that asks for a user or a group,
/// and so is denied where every entry asks for one.
pub proof fn law_unknown_owner_denied(
    callers: Seq<CallerView>,
    databases: nat,
    strict: bool,
    parent: ParentProcessView,
)
    requires
        callers.len() > 0,
        parent.uid is None || parent.gid is None,
        forall|i: int|
            0 <= i < callers.len() ==> (#[trigger] callers[i]).uid is Some && callers[i].gid
                is Some,
    ensures
        caller_verdict(callers, databases, strict, Some(parent)) == Err::<
            Option<(usize, Seq<char>)>,
            HelperError,
        >(HelperError::CallerDenied),
{
}

} // verus!

//! Waiting for a locked database to be unlocked.
//!
//! Each configured database is probed with a test of its association. A database that answers
//! as locked is polled at a fixed interval until it is reachable again, and then probed once
//! more. Every poll, whatever it shows, uses up one unit of the budget, so that a bounded
//! budget bounds the polls and with them the whole wait; only an unbounded budget lets the
//! wait go on for ever. The rules are a state machine: the caller performs the action of the
//! current state and hands back what happened.

use crate::config::{Database, DatabaseView};
use crate::error::HelperError;
use crate::text::{chars_of, find_char, first_index, number_within, parse_u64};
use vstd::prelude::*;

verus! {

/// How long and how often to wait for a database to be unlocked.
#[derive(Clone, Copy, Debug, PartialEq, Eq, Structural)]
pub struct UnlockOptions {
    /// The time between two polls, in milliseconds.
    pub interval: u64,
    /// How many polls may be made; zero stands for no limit.
    pub max_retries: u64,
}

/// How many more polls may be made.
#[derive(Clone, Copy, Debug, PartialEq, Eq, Structural)]
pub enum RetryBudget {
    Unbounded,
    Bounded(u64),
}

/// What a test of the association showed.
#[derive(Clone, Copy, Debug, PartialEq, Eq, Structural)]
pub enum ProbeOutcome {
    /// The password manager accepted the stored key.
    Associated,
    /// The password manager reported the database as locked.
    Locked,
    /// The test failed for any other reason.
    Failed,
}

/// What a poll showed.
#[derive(Clone, Copy, Debug, PartialEq, Eq, Structural)]
pub enum PollOutcome {
    /// The password manager answered: the database is open.
    Alive,
    /// The password manager did not answer the poll with success.
    Unreachable,
}

/// What happened when the action of a state was performed.
#[derive(Clone, Copy, Debug, PartialEq, Eq, Structural)]
pub enum WaitEvent {
    Probed(ProbeOutcome),
    Polled(PollOutcome),
}

/// Where the wait for one database stands.
#[derive(Clone, Copy, Debug, PartialEq, Eq, Structural)]
pub enum WaitState {
    /// The association is to be tested.
    Probing(RetryBudget),
    /// The database is locked and is to be polled after the interval.
    Sleeping(RetryBudget),
    /// The database is usable.
    Unlocked,
    /// The database is not usable, and no further attempt is made.
    Exhausted,
}

/// What the caller is to do in a state.
#[derive(Clone, Copy, Debug, PartialEq, Eq, Structural)]
pub enum WaitAction {
    /// Test the association; `trigger_unlock` asks the password manager to prompt the user.
    TestAssociate { trigger_unlock: bool },
    /// Sleep for `interval` milliseconds, then ask for the database hash.
    SleepThenPoll { interval: u64 },
    /// Take the database into the usable set.
    Accept,
    /// Leave the database out.
    Reject,
}

impl UnlockOptions {
    /// The budget that the options grant.
    pub open spec fn budget_spec(self) -> RetryBudget {
        if self.max_retries == 0 {
            RetryBudget::Unbounded
        } else {
            RetryBudget::Bounded(self.max_retries)
        }
    }

    #[verifier::when_used_as_spec(budget_spec)]
    pub fn budget(self) -> (budget: RetryBudget)
        ensures
            budget == self.budget_spec(),
    {
        if self.max_retries == 0 {
            RetryBudget::Unbounded
        } else {
            RetryBudget::Bounded(self.max_retries)
        }
    }

    /// Reads the options from text of the form `interval,max_retries`.
    pub fn from_str(text: &str) -> (r: Result<UnlockOptions, HelperError>)
        ensures
            match unlock_options_of(text@) {
                Some(options) => r == Ok::<UnlockOptions, HelperError>(options),
                None => r == Err::<UnlockOptions, HelperError>(HelperError::InvalidUnlockOptions),
            },
    {
        let chars = chars_of(text);
        let comma = find_char(&chars, 0, chars.len(), ',');
        proof {
            assert(chars@.subrange(0, chars.len() as int) =~= text@);
        }
        if comma == chars.len() {
            return Err(HelperError::InvalidUnlockOptions);
        }
        let interval = parse_u64(&chars, 0, comma);
        let max_retries = parse_u64(&chars, comma + 1, chars.len());
        match (interval, max_retries) {
            (Some(interval), Some(max_retries)) => Ok(UnlockOptions { interval, max_retries }),
            _ => Err(HelperError::InvalidUnlockOptions),
        }
    }
}

/// The options that `text` spells: two unsigned numbers of at most 64 bits with a comma
/// between them, the interval first.
pub open spec fn unlock_options_of(text: Seq<char>) -> Option<UnlockOptions> {
    let comma = first_index(text, ',');
    if comma == text.len() {
        None
    } else {
        match (
            number_within(text.take(comma), u64::MAX as nat),
            number_within(text.skip(comma + 1), u64::MAX as nat),
        ) {
            (Some(interval), Some(max_retries)) => Some(
                UnlockOptions { interval: interval as u64, max_retries: max_retries as u64 },
            ),
            _ => None,
        }
    }
}

/// The state in which the wait for a database begins. Without options no poll is granted.
pub open spec fn initial_state(options: Option<UnlockOptions>) -> WaitState {
    match options {
        Some(options) => WaitState::Probing(options.budget_spec()),
        None => WaitState::Probing(RetryBudget::Bounded(0)),
    }
}

/// The budget after one more poll: a bounded budget is one unit less, as long as it has any.
pub open spec fn spent(budget: RetryBudget) -> RetryBudget {
    match budget {
        RetryBudget::Unbounded => RetryBudget::Unbounded,
        RetryBudget::Bounded(left) => if left == 0 {
            RetryBudget::Bounded(0)
        } else {
            RetryBudget::Bounded((left - 1) as u64)
        },
    }
}

/// The state that follows `state` on `event`.
///
/// A test that succeeds ends the wait with the database usable, and one that fails for
/// another reason than a lock ends it with the database left out. On a lock the database is
/// polled if the budget grants a poll, and is left out otherwise. Every poll uses up one unit
/// of a bounded budget. A poll that succeeds leads back to the test at once; one that fails
/// leads to the next poll, or ends the wait where it has used up the budget. An event that
/// does not belong to the state changes nothing.
pub open spec fn next_state(state: WaitState, event: WaitEvent) -> WaitState {
    match (state, event) {
        (WaitState::Probing(_), WaitEvent::Probed(ProbeOutcome::Associated)) => WaitState::Unlocked,
        (WaitState::Probing(_), WaitEvent::Probed(ProbeOutcome::Failed)) => WaitState::Exhausted,
        (WaitState::Probing(budget), WaitEvent::Probed(ProbeOutcome::Locked)) => {
            if budget == RetryBudget::Bounded(0) {
                WaitState::Exhausted
            } else {
                WaitState::Sleeping(budget)
            }
        },
        (WaitState::Sleeping(budget), WaitEvent::Polled(PollOutcome::Alive)) => WaitState::Probing(
            spent(budget),
        ),
        (WaitState::Sleeping(budget), WaitEvent::Polled(PollOutcome::Unreachable)) => {
            if spent(budget) == RetryBudget::Bounded(0) {
                WaitState::Exhausted
            } else {
                WaitState::Sleeping(spent(budget))
            }
        },
        _ => state,
    }
}

/// What is to be done in `state`.
pub open spec fn action_of(options: Option<UnlockOptions>, state: WaitState) -> WaitAction {
    match state {
        WaitState::Probing(_) => WaitAction::TestAssociate { trigger_unlock: options is Some },
        WaitState::Sleeping(_) => WaitAction::SleepThenPoll {
            interval: match options {
                Some(options) => options.interval,
                None => 0,
            },
        },
        WaitState::Unlocked => WaitAction::Accept,
        WaitState::Exhausted => WaitAction::Reject,
    }
}

/// How a test of the association counts: success only with the success flag set, a lock
/// only where the failure is the report of a locked database.
pub open spec fn probe_outcome_of(response: Result<Option<bool>, HelperError>) -> ProbeOutcome {
    match response {
        Ok(Some(true)) => ProbeOutcome::Associated,
        Err(HelperError::DatabaseLocked) => ProbeOutcome::Locked,
        _ => ProbeOutcome::Failed,
    }
}

/// Classifies the answer to a test of the association, given as its success flag or as the
/// failure of the exchange.
pub fn classify_probe(response: Result<Option<bool>, HelperError>) -> (outcome: ProbeOutcome)
    ensures
        outcome == probe_outcome_of(response),
{
    match response {
        Ok(Some(true)) => ProbeOutcome::Associated,
        Err(HelperError::DatabaseLocked) => ProbeOutcome::Locked,
        _ => ProbeOutcome::Failed,
    }
}

/// Classifies the answer to a poll: any successful exchange shows the database open.
pub fn classify_poll(succeeded: bool) -> (outcome: PollOutcome)
    ensures
        outcome == if succeeded {
            PollOutcome::Alive
        } else {
            PollOutcome::Unreachable
        },
{
    if succeeded {
        PollOutcome::Alive
    } else {
        PollOutcome::Unreachable
    }
}

impl RetryBudget {
    /// The budget after one more poll.
    pub fn after_poll(self) -> (budget: RetryBudget)
        ensures
            budget == spent(self),
    {
        match self {
            RetryBudget::Unbounded => RetryBudget::Unbounded,
            RetryBudget::Bounded(left) => if left == 0 {
                RetryBudget::Bounded(0)
            } else {
                RetryBudget::Bounded(left - 1)
            },
        }
    }
}

impl WaitState {
    /// A state in which the database is polled has budget for the poll.
    pub open spec fn well_formed(self) -> bool {
        self matches WaitState::Sleeping(RetryBudget::Bounded(left)) ==> left > 0
    }

    /// The wait is over.
    pub open spec fn is_final(self) -> bool {
        self == WaitState::Unlocked || self == WaitState::Exhausted
    }

    /// The state in which the wait for a database begins.
    pub fn start(options: &Option<UnlockOptions>) -> (state: WaitState)
        ensures
            state == initial_state(*options),
            state.well_formed(),
    {
        match options {
            Some(options) => WaitState::Probing(options.budget()),
            None => WaitState::Probing(RetryBudget::Bounded(0)),
        }
    }

    /// The state after `event`.
    pub fn next(self, event: WaitEvent) -> (state: WaitState)
        ensures
            state == next_state(self, event),
            self.well_formed() ==> state.well_formed(),
    {
        match (self, event) {
            (WaitState::Probing(_), WaitEvent::Probed(ProbeOutcome::Associated)) => {
                WaitState::Unlocked
            },
            (WaitState::Probing(_), WaitEvent::Probed(ProbeOutcome::Failed)) => {
                WaitState::Exhausted
            },
            (WaitState::Probing(budget), WaitEvent::Probed(ProbeOutcome::Locked)) => match budget {
                RetryBudget::Bounded(0) => WaitState::Exhausted,
                _ => WaitState::Sleeping(budget),
            },
            (WaitState::Sleeping(budget), WaitEvent::Polled(PollOutcome::Alive)) => {
                WaitState::Probing(budget.after_poll())
            },
            (WaitState::Sleeping(budget), WaitEvent::Polled(PollOutcome::Unreachable)) => {
                match budget.after_poll() {
                    RetryBudget::Bounded(0) => WaitState::Exhausted,
                    left => WaitState::Sleeping(left),
                }
            },
            _ => self,
        }
    }

    /// What the caller is to do now.
    pub fn action(&self, options: &Option<UnlockOptions>) -> (action: WaitAction)
        ensures
            action == action_of(*options, *self),
    {
        match self {
            WaitState::Probing(_) => {
                WaitAction::TestAssociate { trigger_unlock: options.is_some() }
            },
            WaitState::Sleeping(_) => WaitAction::SleepThenPoll {
                interval: match options {
                    Some(options) => options.interval,
                    None => 0,
                },
            },
            WaitState::Unlocked => WaitAction::Accept,
            WaitState::Exhausted => WaitAction::Reject,
        }
    }
}

/// The state reached from `state` when the events happen one after the other.
pub open spec fn state_after(state: WaitState, events: Seq<WaitEvent>) -> WaitState
    decreases events.len(),
{
    if events.len() == 0 {
        state
    } else {
        state_after(next_state(state, events[0]), events.skip(1))
    }
}

/// `event` is the answer to the action of `state`: the outcome of a test while the association
/// is to be tested, or of a poll while the database is to be polled.
pub open spec fn answers(state: WaitState, event: WaitEvent) -> bool {
    (state is Probing && event is Probed) || (state is Sleeping && event is Polled)
}

/// `event` is the answer to a poll that `state` asked for.
pub open spec fn is_poll(state: WaitState, event: WaitEvent) -> bool {
    state is Sleeping && event is Polled
}

/// How many polls are made while the events happen, starting in `state`.
pub open spec fn polls_made(state: WaitState, events: Seq<WaitEvent>) -> nat
    decreases events.len(),
{
    if events.len() == 0 {
        0
    } else {
        let made: nat = if is_poll(state, events[0]) {
            1
        } else {
            0
        };
        made + polls_made(next_state(state, events[0]), events.skip(1))
    }
}

/// How many actions are performed while the events happen, starting in `state`: tests and
/// polls together.
pub open spec fn actions_taken(state: WaitState, events: Seq<WaitEvent>) -> nat
    decreases events.len(),
{
    if events.len() == 0 {
        0
    } else {
        let taken: nat = if answers(state, events[0]) {
            1
        } else {
            0
        };
        taken + actions_taken(next_state(state, events[0]), events.skip(1))
    }
}

/// How many polls may still be made in `state`, where that is bounded.
pub open spec fn polls_left(state: WaitState) -> Option<nat> {
    match state {
        WaitState::Probing(RetryBudget::Bounded(left)) => Some(left as nat),
        WaitState::Sleeping(RetryBudget::Bounded(left)) => Some(left as nat),
        WaitState::Probing(RetryBudget::Unbounded) => None,
        WaitState::Sleeping(RetryBudget::Unbounded) => None,
        WaitState::Unlocked => Some(0),
        WaitState::Exhausted => Some(0),
    }
}

/// How many actions may still be performed in `state`, where that is bounded: each poll that
/// is left may be followed by one more test, and a test that is due comes on top.
pub open spec fn actions_left(state: WaitState) -> Option<nat> {
    match state {
        WaitState::Probing(RetryBudget::Bounded(left)) => Some((2 * left + 1) as nat),
        WaitState::Sleeping(RetryBudget::Bounded(left)) => Some((2 * left) as nat),
        WaitState::Probing(RetryBudget::Unbounded) => None,
        WaitState::Sleeping(RetryBudget::Unbounded) => None,
        WaitState::Unlocked => Some(0),
        WaitState::Exhausted => Some(0),
    }
}

/// With a bounded budget no more polls are made than the budget grants, whatever the
/// password manager answers: every poll, successful or not, uses up one unit.
pub proof fn law_polls_bounded(state: WaitState, events: Seq<WaitEvent>)
    requires
        state.well_formed(),
        polls_left(state) is Some,
    ensures
        polls_left(state_after(state, events)) is Some,
        polls_made(state, events) + polls_left(state_after(state, events))->Some_0 <= polls_left(
            state,
        )->Some_0,
        polls_made(state, events) <= polls_left(state)->Some_0,
    decreases events.len(),
{
    if events.len() > 0 {
        law_polls_bounded(next_state(state, events[0]), events.skip(1));
    }
}

/// With a limit on the retries a database is polled no more often than the limit says,
/// whatever the password manager answers and in whatever order.
pub proof fn law_wait_bounded(options: UnlockOptions, events: Seq<WaitEvent>)
    requires
        options.max_retries > 0,
    ensures
        polls_made(initial_state(Some(options)), events) <= options.max_retries,
{
    law_polls_bounded(initial_state(Some(options)), events);
}

/// With a bounded budget the wait ends: no more tests and polls are performed than twice the
/// budget and one, whatever the password manager answers.
pub proof fn law_actions_bounded(state: WaitState, events: Seq<WaitEvent>)
    requires
        state.well_formed(),
        actions_left(state) is Some,
    ensures
        actions_left(state_after(state, events)) is Some,
        actions_taken(state, events) + actions_left(state_after(state, events))->Some_0
            <= actions_left(state)->Some_0,
        actions_taken(state, events) <= actions_left(state)->Some_0,
    decreases events.len(),
{
    if events.len() > 0 {
        law_actions_bounded(next_state(state, events[0]), events.skip(1));
    }
}

/// With a limit on the retries the wait for a database ends after at most that many polls
/// and one test more than polls, and the sleeps with it: a caller that performs the action of
/// each state and hands back its answer reaches a final state.
pub proof fn law_wait_ends(options: UnlockOptions, events: Seq<WaitEvent>)
    requires
        options.max_retries > 0,
        forall|i: int|
            0 <= i < events.len() ==> answers(
                state_after(initial_state(Some(options)), #[trigger] events.take(i)),
                events[i],
            ),
    ensures
        events.len() <= 2 * options.max_retries + 1,
        events.len() == 2 * options.max_retries + 1 ==> state_after(
            initial_state(Some(options)),
            events,
        ).is_final(),
{
    let start = initial_state(Some(options));
    law_actions_bounded(start, events);
    lemma_answers_counted(start, events);
    law_states_well_formed(start, events);
}

/// Where every event answers the action of the state it meets, every event is an action
/// performed.
proof fn lemma_answers_counted(state: WaitState, events: Seq<WaitEvent>)
    requires
        forall|i: int|
            0 <= i < events.len() ==> answers(
                state_after(state, #[trigger] events.take(i)),
                events[i],
            ),
    ensures
        actions_taken(state, events) == events.len(),
    decreases events.len(),
{
    if events.len() > 0 {
        let rest = events.skip(1);
        let next = next_state(state, events[0]);
        assert(answers(state_after(state, events.take(0)), events[0]));
        assert forall|i: int| 0 <= i < rest.len() implies answers(
            state_after(next, #[trigger] rest.take(i)),
            rest[i],
        ) by {
            assert(events.take(i + 1).skip(1) =~= rest.take(i));
        }
        lemma_answers_counted(next, rest);
    }
}

/// With the options `max_retries` above zero, a database whose polls all fail is given up
/// after exactly `max_retries` polls, and not before.
pub proof fn law_gives_up(budget: u64, events: Seq<WaitEvent>)
    requires
        budget > 0,
        events.len() <= budget,
        forall|i: int|
            0 <= i < events.len() ==> #[trigger] events[i] == WaitEvent::Polled(
                PollOutcome::Unreachable,
            ),
    ensures
        events.len() == budget ==> state_after(
            WaitState::Sleeping(RetryBudget::Bounded(budget)),
            events,
        ) == WaitState::Exhausted,
        events.len() < budget ==> state_after(
            WaitState::Sleeping(RetryBudget::Bounded(budget)),
            events,
        ) == WaitState::Sleeping(RetryBudget::Bounded((budget - events.len()) as u64)),
    decreases events.len(),
{
    if events.len() > 0 {
        let rest = events.skip(1);
        let next = next_state(WaitState::Sleeping(RetryBudget::Bounded(budget)), events[0]);
        if budget > 1 {
            law_gives_up((budget - 1) as u64, rest);
        } else {
            assert(state_after(next, rest) == next);
        }
    }
}

/// A poll that succeeds ends the polling at once: the next action is the test of the
/// association.
pub proof fn law_poll_success_stops(options: Option<UnlockOptions>, budget: RetryBudget)
    ensures
        action_of(
            options,
            next_state(WaitState::Sleeping(budget), WaitEvent::Polled(PollOutcome::Alive)),
        ) is TestAssociate,
{
}

/// A database that is locked again and again, though each poll finds it open, is given up
/// once the budget is used up: the test after the last poll is the last one.
pub proof fn law_locked_after_last_poll(budget: RetryBudget)
    requires
        spent(budget) == RetryBudget::Bounded(0),
    ensures
        next_state(
            next_state(WaitState::Sleeping(budget), WaitEvent::Polled(PollOutcome::Alive)),
            WaitEvent::Probed(ProbeOutcome::Locked),
        ) == WaitState::Exhausted,
{
}

/// The states that the machine reaches from a well-formed state are well formed.
pub proof fn law_states_well_formed(state: WaitState, events: Seq<WaitEvent>)
    requires
        state.well_formed(),
    ensures
        state_after(state, events).well_formed(),
    decreases events.len(),
{
    if events.len() > 0 {
        law_states_well_formed(next_state(state, events[0]), events.skip(1));
    }
}

/// Once the wait is over nothing changes its result, and no poll is made any more.
pub proof fn law_final_states_stay(state: WaitState, events: Seq<WaitEvent>)
    requires
        state.is_final(),
    ensures
        state_after(state, events) == state,
        polls_made(state, events) == 0,
    decreases events.len(),
{
    if events.len() > 0 {
        law_final_states_stay(state, events.skip(1));
    }
}

/// Without unlock options a locked database is left out at once, without any poll.
pub proof fn law_no_wait_without_options(events: Seq<WaitEvent>)
    ensures
        polls_made(initial_state(None), events) == 0,
        next_state(initial_state(None), WaitEvent::Probed(ProbeOutcome::Locked))
            == WaitState::Exhausted,
{
    law_polls_bounded(initial_state(None), events);
}

/// The databases whose wait ended with the database usable, in their order. A database
/// without a state counts as not usable.
pub open spec fn usable_databases(databases: Seq<DatabaseView>, states: Seq<WaitState>) -> Seq<
    DatabaseView,
>
    decreases databases.len(),
{
    if databases.len() == 0 {
        Seq::<DatabaseView>::empty()
    } else {
        let last = databases.len() - 1;
        let before = usable_databases(databases.drop_last(), states);
        if last < states.len() && states[last] == WaitState::Unlocked {
            before.push(databases[last])
        } else {
            before
        }
    }
}

/// Collects the usable databases once the wait for each configured database is over:
/// `states[i]` is the state in which the wait for `databases[i]` ended. Without any usable
/// database the operation fails.
pub fn associated_databases(databases: &Vec<Database>, states: &Vec<WaitState>) -> (r: Result<
    Vec<Database>,
    HelperError,
>)
    ensures
        usable_databases(databases.deep_view(), states@).len() > 0 ==> r is Ok
            && r->Ok_0.deep_view() == usable_databases(databases.deep_view(), states@),
        usable_databases(databases.deep_view(), states@).len() == 0 ==> r is Err && r->Err_0
            == HelperError::NoValidDatabase,
{
    let mut usable: Vec<Database> = Vec::new();
    let mut i: usize = 0;
    while i < databases.len()
        invariant
            i <= databases.len(),
            usable.deep_view() == usable_databases(databases.deep_view().take(i as int), states@),
        decreases databases.len() - i,
    {
        proof {
            let all = databases.deep_view();
            assert(all.take(i + 1).drop_last() =~= all.take(i as int));
        }
        if i < states.len() && states[i] == WaitState::Unlocked {
            let database = databases[i].clone();
            usable.push(database);
        }
        i = i + 1;
    }
    proof {
        assert(databases.deep_view().take(i as int) =~= databases.deep_view());
    }
    if usable.len() == 0 {
        Err(HelperError::NoValidDatabase)
    } else {
        Ok(usable)
    }
}

} // verus!

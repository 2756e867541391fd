//! The confirmation poller: a bundle is pending until the relay reports a
//! terminal status or the retry budget is spent.

use crate::client::BundleStatus;
use vstd::prelude::*;
use vstd::string::StringExecFns;

verus! {

/// The pause between two status queries, in milliseconds.
pub const POLL_INTERVAL_MS: u64 = 1_000;

/// What one status query says of a bundle.
#[derive(Debug, Clone, Copy, PartialEq, Eq, Structural)]
pub enum BundleState {
    Pending,
    Confirmed,
    Failed,
    Expired,
    /// The query failed, or the relay reported a status it does not define.
    Unknown,
}

/// What the poller asks of its driver next.
#[derive(Debug, Clone, Copy, PartialEq, Eq, Structural)]
pub enum PollerAction {
    /// Query the bundle's status and record what came back.
    Query,
    /// Stop; the flag says whether the bundle was confirmed.
    Finish(bool),
}

impl BundleState {
    /// Whether no further transition follows this state.
    pub open spec fn spec_is_terminal(self) -> bool {
        self is Confirmed || self is Failed || self is Expired
    }

    #[verifier::when_used_as_spec(spec_is_terminal)]
    pub fn is_terminal(self) -> (r: bool)
        ensures
            r == self.spec_is_terminal(),
    {
        match self {
            BundleState::Confirmed | BundleState::Failed | BundleState::Expired => true,
            _ => false,
        }
    }
}

/// The state that a status text names.
pub open spec fn spec_classify_status(status: Seq<char>) -> BundleState {
    if status == "confirmed"@ {
        BundleState::Confirmed
    } else if status == "failed"@ {
        BundleState::Failed
    } else if status == "expired"@ {
        BundleState::Expired
    } else if status == "pending"@ {
        BundleState::Pending
    } else {
        BundleState::Unknown
    }
}

/// Reads the state that a status text names; any text but the four defined
/// ones is unknown.
pub fn classify_status(status: &String) -> (state: BundleState)
    ensures
        state == spec_classify_status(status@),
{
    if *status == String::from_str("confirmed") {
        BundleState::Confirmed
    } else if *status == String::from_str("failed") {
        BundleState::Failed
    } else if *status == String::from_str("expired") {
        BundleState::Expired
    } else if *status == String::from_str("pending") {
        BundleState::Pending
    } else {
        BundleState::Unknown
    }
}

/// What one poll says of the bundle: the state that the reported status
/// names, or unknown when the query itself failed.
pub fn observe<E>(poll: &Result<BundleStatus, E>) -> (state: BundleState)
    ensures
        state == match *poll {
            Ok(status) => spec_classify_status(status.status@),
            Err(_) => BundleState::Unknown,
        },
{
    match poll {
        Ok(status) => classify_status(&status.status),
        Err(_) => BundleState::Unknown,
    }
}

// ============== what a run of polls amounts to ==============
/// The position of the first terminal state, or the length if there is none.
pub open spec fn first_terminal(states: Seq<BundleState>) -> int
    decreases states.len(),
{
    if states.len() == 0 {
        0
    } else if states.first().spec_is_terminal() {
        0
    } else {
        1 + first_terminal(states.drop_first())
    }
}

/// The polls that the budget allows of an observed sequence.
pub open spec fn within_budget(states: Seq<BundleState>, max_retries: u32) -> Seq<BundleState> {
    if states.len() <= max_retries {
        states
    } else {
        states.take(max_retries as int)
    }
}

/// The number of polls made: up to and including the first terminal state,
/// and never more than the budget.
pub open spec fn polls_made(states: Seq<BundleState>, max_retries: u32) -> int {
    let allowed = within_budget(states, max_retries);
    let stop = first_terminal(allowed);
    if stop < allowed.len() {
        stop + 1
    } else {
        allowed.len() as int
    }
}

/// Whether the run ends in confirmation: the first terminal state comes
/// within the budget and is `Confirmed`.
pub open spec fn confirmed_within(states: Seq<BundleState>, max_retries: u32) -> bool {
    let allowed = within_budget(states, max_retries);
    let stop = first_terminal(allowed);
    stop < allowed.len() && allowed[stop] is Confirmed
}

/// The first terminal state lies within the sequence or at its end, and no
/// state before it is terminal.
pub proof fn lemma_first_terminal(states: Seq<BundleState>)
    ensures
        0 <= first_terminal(states) <= states.len(),
        first_terminal(states) < states.len() ==> states[first_terminal(states)].spec_is_terminal(),
        forall|j: int| 0 <= j < first_terminal(states) ==> !(#[trigger] states[j]).spec_is_terminal(),
    decreases states.len(),
{
    if states.len() > 0 && !states.first().spec_is_terminal() {
        let rest = states.drop_first();
        lemma_first_terminal(rest);
        assert forall|j: int| 0 <= j < first_terminal(states) implies !(
        #[trigger] states[j]).spec_is_terminal() by {
            if j > 0 {
                assert(states[j] == rest[j - 1]);
            }
        }
    }
}

/// A terminal state that no terminal state precedes is the first one.
pub proof fn lemma_first_terminal_at(states: Seq<BundleState>, k: int)
    requires
        0 <= k < states.len(),
        states[k].spec_is_terminal(),
        forall|j: int| 0 <= j < k ==> !(#[trigger] states[j]).spec_is_terminal(),
    ensures
        first_terminal(states) == k,
{
    lemma_first_terminal(states);
    let t = first_terminal(states);
    if t < k {
        assert(!states[t].spec_is_terminal());
    } else if t > k {
        assert(!states[k].spec_is_terminal());
    }
}

/// A `confirmed` that follows only non-terminal polls, within the budget,
/// ends the run in success after exactly that many polls.
pub proof fn lemma_confirmed_ends_polling(states: Seq<BundleState>, max_retries: u32, k: int)
    requires
        0 <= k < states.len(),
        k < max_retries,
        states[k] is Confirmed,
        forall|j: int| 0 <= j < k ==> !(#[trigger] states[j]).spec_is_terminal(),
    ensures
        confirmed_within(states, max_retries),
        polls_made(states, max_retries) == k + 1,
{
    let allowed = within_budget(states, max_retries);
    assert forall|j: int| 0 <= j <= k implies allowed[j] == states[j] by {}
    lemma_first_terminal_at(allowed, k);
}

/// A `failed` or `expired` that follows only non-terminal polls, within
/// the budget, ends the run at once as not confirmed: no later poll is made.
pub proof fn lemma_rejection_ends_polling(states: Seq<BundleState>, max_retries: u32, k: int)
    requires
        0 <= k < states.len(),
        k < max_retries,
        states[k] is Failed || states[k] is Expired,
        forall|j: int| 0 <= j < k ==> !(#[trigger] states[j]).spec_is_terminal(),
    ensures
        !confirmed_within(states, max_retries),
        polls_made(states, max_retries) == k + 1,
{
    let allowed = within_budget(states, max_retries);
    assert forall|j: int| 0 <= j <= k implies allowed[j] == states[j] by {}
    lemma_first_terminal_at(allowed, k);
}

/// A run without a terminal state within the budget ends as not confirmed
/// once the budget, or the sequence, is spent.
pub proof fn lemma_budget_exhausted(states: Seq<BundleState>, max_retries: u32)
    requires
        forall|j: int|
            0 <= j < states.len() && j < max_retries ==> !(#[trigger] states[j]).spec_is_terminal(),
    ensures
        !confirmed_within(states, max_retries),
        polls_made(states, max_retries) == within_budget(states, max_retries).len(),
{
    let allowed = within_budget(states, max_retries);
    lemma_first_terminal(allowed);
    let t = first_terminal(allowed);
    if t < allowed.len() {
        assert(allowed[t] == states[t]);
        assert(!states[t].spec_is_terminal());
    }
}

// ============== a run that is already known ==============
/// Replays the poller over an observed sequence of states: whether the
/// bundle was confirmed, and how many polls were made.
pub fn confirmation_of(states: &Vec<BundleState>, max_retries: u32) -> (r: (bool, u32))
    ensures
        r.0 == confirmed_within(states@, max_retries),
        r.1 == polls_made(states@, max_retries),
{
    let mut i: u32 = 0;
    while i < max_retries && (i as usize) < states.len()
        invariant
            i <= max_retries,
            i <= states@.len(),
            forall|j: int| 0 <= j < i ==> !(#[trigger] states@[j]).spec_is_terminal(),
        decreases max_retries - i,
    {
        let state = states[i as usize];
        if state.is_terminal() {
            proof {
                let allowed = within_budget(states@, max_retries);
                assert forall|j: int| 0 <= j <= i implies allowed[j] == states@[j] by {}
                lemma_first_terminal_at(allowed, i as int);
            }
            return (state == BundleState::Confirmed, i + 1);
        }
        i += 1;
    }
    proof {
        lemma_budget_exhausted(states@, max_retries);
    }
    (false, i)
}

// ============== a run that is driven poll by poll ==============
/// The poller's state between two polls.
pub struct ConfirmationPoller {
    max_retries: u32,
    polls: u32,
    last: BundleState,
    history: Ghost<Seq<BundleState>>,
}

impl ConfirmationPoller {
    /// The states recorded so far, in order.
    pub closed spec fn history(&self) -> Seq<BundleState> {
        self.history@
    }

    /// The retry budget.
    pub closed spec fn max_retries(&self) -> u32 {
        self.max_retries
    }

    /// The poller counts what it recorded, stays within its budget, and
    /// recorded nothing after a terminal state.
    pub closed spec fn wf(&self) -> bool {
        &&& self.polls == self.history@.len()
        &&& self.polls <= self.max_retries
        &&& self.history@.len() > 0 ==> self.last == self.history@.last()
        &&& self.history@.len() == 0 ==> self.last is Pending
        &&& forall|j: int|
            0 <= j < self.history@.len() - 1 ==> !(#[trigger] self.history@[j]).spec_is_terminal()
    }

    /// What the poller asks next: it stops on a terminal state and when the
    /// budget is spent, and queries otherwise.
    pub open spec fn spec_next_action(&self) -> PollerAction {
        if self.history().len() > 0 && self.history().last().spec_is_terminal() {
            PollerAction::Finish(self.history().last() is Confirmed)
        } else if self.history().len() >= self.max_retries() {
            PollerAction::Finish(false)
        } else {
            PollerAction::Query
        }
    }

    /// A poller that has recorded nothing yet.
    pub fn new(max_retries: u32) -> (poller: Self)
        ensures
            poller.wf(),
            poller.history() == Seq::<BundleState>::empty(),
            poller.max_retries() == max_retries,
    {
        ConfirmationPoller {
            max_retries,
            polls: 0,
            last: BundleState::Pending,
            history: Ghost(Seq::empty()),
        }
    }

    /// The number of polls recorded.
    pub fn polls(&self) -> (n: u32)
        requires
            self.wf(),
        ensures
            n == self.history().len(),
            n == polls_made(self.history(), self.max_retries()),
    {
        proof {
            self.lemma_history();
        }
        self.polls
    }

    /// The state that the last poll recorded; pending before the first.
    pub fn last_state(&self) -> (state: BundleState)
        requires
            self.wf(),
        ensures
            state == if self.history().len() > 0 {
                self.history().last()
            } else {
                BundleState::Pending
            },
    {
        self.last
    }

    proof fn lemma_history(&self)
        requires
            self.wf(),
        ensures
            polls_made(self.history(), self.max_retries()) == self.history().len(),
            confirmed_within(self.history(), self.max_retries()) == (self.history().len() > 0
                && self.history().last() is Confirmed),
    {
        let states = self.history@;
        assert(within_budget(states, self.max_retries) == states);
        lemma_first_terminal(states);
        if states.len() > 0 && states.last().spec_is_terminal() {
            lemma_first_terminal_at(states, states.len() - 1);
        } else {
            let t = first_terminal(states);
            if t < states.len() {
                if t < states.len() - 1 {
                    assert(!states[t].spec_is_terminal());
                }
            }
        }
    }

    /// Decides what the driver does next. The poller finishes with success
    /// exactly when the last recorded state is `Confirmed`; it finishes
    /// without success on `Failed`, on `Expired`, and when the budget is
    /// spent; otherwise it asks for another query. When it finishes, its
    /// verdict is the one that the recorded run amounts to.
    pub fn next_action(&self) -> (action: PollerAction)
        requires
            self.wf(),
        ensures
            action == self.spec_next_action(),
            action matches PollerAction::Finish(confirmed) ==> confirmed == confirmed_within(
                self.history(),
                self.max_retries(),
            ),
    {
        proof {
            self.lemma_history();
        }
        if self.polls > 0 && self.last.is_terminal() {
            PollerAction::Finish(self.last == BundleState::Confirmed)
        } else if self.polls >= self.max_retries {
            PollerAction::Finish(false)
        } else {
            PollerAction::Query
        }
    }

    /// Records what a query brought back. Returns whether the driver pauses
    /// before it asks for the next action: it does after every state that is
    /// not terminal.
    pub fn record(&mut self, state: BundleState) -> (pause: bool)
        requires
            old(self).wf(),
            old(self).spec_next_action() is Query,
        ensures
            final(self).wf(),
            final(self).history() == old(self).history().push(state),
            final(self).max_retries() == old(self).max_retries(),
            pause == !state.spec_is_terminal(),
    {
        proof {
            self.lemma_history();
        }
        self.polls = self.polls + 1;
        self.last = state;
        self.history = Ghost(self.history@.push(state));
        !state.is_terminal()
    }
}

} // verus!

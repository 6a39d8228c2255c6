//! The decisions of the device flow. The host performs each request, sleep
//! and display itself and hands every outcome to a [`PollSession`], which
//! answers with the next [`Step`]: poll again after a wait, succeed with an
//! identity to bind, or fail.
use vstd::prelude::*;

use crate::claims::{preferred_username, preferred_username_of};
use crate::reply::{
    is_grant, json_text_member, outcome_class, reply_class, terminal_error, DeviceAuthorization,
    FlowError, PollOutcome, ReplyClass, TokenResponse,
};
use crate::text::{has_char, same_text};

verus! {

/// The verdict on a proven remote identity. With a local account already
/// named, the two must match exactly and nothing is bound; with none, the
/// remote name is bound, unless it holds a NUL, which no account name can.
pub open spec fn reconciled(existing: Option<Seq<char>>, remote: Seq<char>) -> Result<
    Option<Seq<char>>,
    FlowError,
> {
    match existing {
        Some(user) => if user == remote {
            Ok(None)
        } else {
            Err(FlowError::IdentityMismatch)
        },
        None => if remote.contains('\0') {
            Err(FlowError::InvalidUsername)
        } else {
            Ok(Some(remote))
        },
    }
}

/// The verdict once a token with identity token `id_token` was granted.
pub open spec fn granted_outcome(existing: Option<Seq<char>>, id_token: Seq<char>) -> Result<
    Option<Seq<char>>,
    FlowError,
> {
    match preferred_username_of(id_token) {
        None => Err(FlowError::MalformedToken),
        Some(remote) => reconciled(existing, remote),
    }
}

/// A verdict with its names seen as character sequences.
pub open spec fn resolution_view(r: Result<Option<String>, FlowError>) -> Result<
    Option<Seq<char>>,
    FlowError,
> {
    match r {
        Ok(bind) => Ok(bind.deep_view()),
        Err(e) => Err(e),
    }
}

/// Checks a proven remote identity against the local account, if one is
/// named. `Ok(Some(name))` asks the host to bind `name`; `Ok(None)` means
/// the named account is confirmed as it is.
pub fn reconcile(existing: &Option<String>, remote: String) -> (r: Result<Option<String>, FlowError>)
    ensures
        resolution_view(r) == reconciled(existing.deep_view(), remote@),
{
    match existing {
        Some(user) => if same_text(user.as_str(), remote.as_str()) {
            Ok(None)
        } else {
            Err(FlowError::IdentityMismatch)
        },
        None => if has_char(remote.as_str(), '\0') {
            Err(FlowError::InvalidUsername)
        } else {
            Ok(Some(remote))
        },
    }
}

/// The verdict on a granted token: its username, checked against the local
/// account.
pub fn conclude(existing: &Option<String>, token: &TokenResponse) -> (r: Result<Option<String>, FlowError>)
    ensures
        resolution_view(r) == granted_outcome(existing.deep_view(), token.id_token@),
{
    match preferred_username(token.id_token.as_str()) {
        Ok(remote) => reconcile(existing, remote),
        Err(e) => Err(e),
    }
}

/// What the host does next.
pub enum Step {
    /// Wait this many seconds, then send one more token poll.
    Poll { wait_secs: u64 },
    /// The login succeeded; bind this name if one is given.
    Succeed { bind_user: Option<String> },
    /// The login failed.
    Fail(FlowError),
}

/// `s` ends the flow with verdict `o`.
pub open spec fn finishes_with(s: Step, o: Result<Option<Seq<char>>, FlowError>) -> bool {
    match s {
        Step::Succeed { bind_user } => o == Ok::<Option<Seq<char>>, FlowError>(bind_user.deep_view()),
        Step::Fail(e) => o == Err::<Option<Seq<char>>, FlowError>(e),
        Step::Poll { .. } => false,
    }
}

/// After `done` replies, a reply of class `c` leads to one more poll.
pub open spec fn continues(budget: nat, done: nat, c: ReplyClass) -> bool {
    c is Retryable && done < budget
}

/// The polling state of one login attempt.
pub struct PollSession {
    /// Seconds to wait before each poll after the first.
    pub interval: u64,
    /// How many polls may be sent in all: `expires_in / interval`.
    pub budget: u64,
    /// How many replies have come back so far.
    pub attempts: u64,
    /// The local account being authenticated, if the host named one.
    pub existing_user: Option<String>,
}

impl PollSession {
    /// No more replies have been taken than polls were allowed.
    pub open spec fn wf(&self) -> bool {
        self.attempts <= self.budget
    }

    /// Opens the polling phase for a device authorization. The budget is
    /// `expires_in / interval` polls; an interval of zero allows none and is
    /// refused as a protocol violation. The first poll goes out at once.
    pub fn start(auth: &DeviceAuthorization, existing_user: Option<String>) -> (r: (PollSession, Step))
        ensures
            r.0.wf(),
            r.0.attempts == 0,
            r.0.interval == auth.interval,
            auth.interval > 0 ==> r.0.budget == auth.expires_in / auth.interval,
            auth.interval == 0 ==> r.0.budget == 0,
            r.0.existing_user.deep_view() == existing_user.deep_view(),
            auth.interval == 0 ==> (r.1 matches Step::Fail(e) && e == FlowError::ZeroInterval),
            auth.interval > 0 && r.0.budget == 0 ==> (r.1 matches Step::Fail(e) && e == FlowError::TimedOut),
            r.0.budget > 0 ==> (r.1 matches Step::Poll { wait_secs } && wait_secs == 0),
    {
        let budget: u64 = if auth.interval == 0 {
            0
        } else {
            auth.expires_in / auth.interval
        };
        let session = PollSession { interval: auth.interval, budget, attempts: 0, existing_user };
        let step = if auth.interval == 0 {
            Step::Fail(FlowError::ZeroInterval)
        } else if budget == 0 {
            Step::Fail(FlowError::TimedOut)
        } else {
            Step::Poll { wait_secs: 0 }
        };
        (session, step)
    }

    /// Takes the outcome of the poll that was last sent. A grant ends the
    /// flow with the verdict on its identity; a terminal error ends it at
    /// once; any other error, or no readable reply, leads to another poll
    /// after exactly `interval` seconds while the budget lasts, and to a
    /// timeout when it is spent.
    pub fn on_poll_reply(&mut self, outcome: PollOutcome) -> (r: Step)
        requires
            old(self).attempts < old(self).budget,
        ensures
            final(self).wf(),
            final(self).attempts == old(self).attempts + 1,
            final(self).budget == old(self).budget,
            final(self).interval == old(self).interval,
            final(self).existing_user.deep_view() == old(self).existing_user.deep_view(),
            r is Poll <==> continues(
                old(self).budget as nat,
                (old(self).attempts + 1) as nat,
                outcome_class(outcome),
            ),
            outcome matches PollOutcome::Granted(t) ==> finishes_with(
                r,
                granted_outcome(old(self).existing_user.deep_view(), t.id_token@),
            ),
            outcome is Refused ==> (r matches Step::Fail(e) && e == FlowError::ProviderRefused),
            outcome_class(outcome) is Retryable && old(self).attempts + 1 < old(self).budget
                ==> (r matches Step::Poll { wait_secs } && wait_secs == old(self).interval),
            outcome_class(outcome) is Retryable && old(self).attempts + 1 == old(self).budget
                ==> (r matches Step::Fail(e) && e == FlowError::TimedOut),
    {
        self.attempts = self.attempts + 1;
        match outcome {
            PollOutcome::Granted(token) => match conclude(&self.existing_user, &token) {
                Ok(bind_user) => Step::Succeed { bind_user },
                Err(e) => Step::Fail(e),
            },
            PollOutcome::Refused(_) => Step::Fail(FlowError::ProviderRefused),
            PollOutcome::Pending(_) | PollOutcome::Unreadable => if self.attempts < self.budget {
                Step::Poll { wait_secs: self.interval }
            } else {
                Step::Fail(FlowError::TimedOut)
            },
        }
    }
}

/// Polls that a session with `budget` sends after `done` replies were
/// handled, when the replies that follow are of classes `classes`, one per
/// poll, in order.
pub open spec fn polls_after(budget: nat, done: nat, classes: Seq<ReplyClass>) -> nat
    decreases classes.len(),
{
    if classes.len() == 0 || !continues(budget, done + 1, classes[0]) {
        0
    } else {
        1 + polls_after(budget, done + 1, classes.drop_first())
    }
}

/// All polls that a session with `budget` sends when its replies are of
/// classes `classes`: the first goes out at the start if the budget allows
/// any, and each further one answers a reply.
pub open spec fn polls_sent(budget: nat, classes: Seq<ReplyClass>) -> nat {
    if budget == 0 {
        0
    } else {
        1 + polls_after(budget, 0, classes)
    }
}

proof fn lemma_polls_after_bounded(budget: nat, done: nat, classes: Seq<ReplyClass>)
    requires
        done + 1 <= budget,
    ensures
        polls_after(budget, done, classes) + done + 1 <= budget,
    decreases classes.len(),
{
    if classes.len() > 0 && continues(budget, done + 1, classes[0]) {
        lemma_polls_after_bounded(budget, done + 1, classes.drop_first());
    }
}

/// Whatever the provider answers, a session never sends more polls than its
/// budget, `expires_in / interval`.
pub proof fn lemma_polls_within_budget(budget: nat, classes: Seq<ReplyClass>)
    ensures
        polls_sent(budget, classes) <= budget,
{
    if budget > 0 {
        lemma_polls_after_bounded(budget, 0, classes);
    }
}

proof fn lemma_retries_fill_budget(budget: nat, done: nat, classes: Seq<ReplyClass>)
    requires
        done + 1 <= budget,
        classes.len() + done + 1 >= budget,
        forall|i: int| 0 <= i < classes.len() ==> #[trigger] classes[i] is Retryable,
    ensures
        polls_after(budget, done, classes) + done + 1 == budget,
    decreases classes.len(),
{
    if done + 1 < budget {
        let rest = classes.drop_first();
        assert forall|i: int| 0 <= i < rest.len() implies #[trigger] rest[i] is Retryable by {
            assert(rest[i] == classes[i + 1]);
        }
        lemma_retries_fill_budget(budget, done + 1, rest);
    }
}

/// When every reply asks to retry, the session sends exactly its budget of
/// polls: the bound `expires_in / interval` is reached, not only respected.
pub proof fn lemma_retries_use_whole_budget(budget: nat, classes: Seq<ReplyClass>)
    requires
        classes.len() + 1 >= budget,
        forall|i: int| 0 <= i < classes.len() ==> #[trigger] classes[i] is Retryable,
    ensures
        polls_sent(budget, classes) == budget,
{
    if budget > 0 {
        lemma_retries_fill_budget(budget, 0, classes);
    }
}

proof fn lemma_refusal_ends_polls_after(budget: nat, done: nat, classes: Seq<ReplyClass>, k: int)
    requires
        0 <= k < classes.len(),
        classes[k] is Refused,
    ensures
        polls_after(budget, done, classes) <= k,
    decreases classes.len(),
{
    if k > 0 && continues(budget, done + 1, classes[0]) {
        assert(classes.drop_first()[k - 1] == classes[k]);
        lemma_refusal_ends_polls_after(budget, done + 1, classes.drop_first(), k - 1);
    }
}

/// A terminal error ends polling on its first occurrence: when the reply to
/// poll `k + 1` is refused, no poll follows it, so at most `k + 1` are sent.
pub proof fn lemma_refusal_stops_polling(budget: nat, classes: Seq<ReplyClass>, k: int)
    requires
        0 <= k < classes.len(),
        classes[k] is Refused,
    ensures
        polls_sent(budget, classes) <= k + 1,
{
    lemma_refusal_ends_polls_after(budget, 0, classes, k);
}

/// A reply whose `error` member is in the terminal set ends the flow on its
/// first occurrence: after it, whatever the budget and the count so far, no
/// further poll is sent. A body that also carries both tokens is a grant and
/// is read as one.
pub proof fn lemma_terminal_error_ends_polling(doc: Seq<u8>, budget: nat, done: nat)
    requires
        !is_grant(doc),
        json_text_member(doc, "error"@) is Some,
        terminal_error(json_text_member(doc, "error"@)->0),
    ensures
        reply_class(doc) is Refused,
        !continues(budget, done, reply_class(doc)),
{
}

/// A reply whose `error` member is outside the terminal set leads to another
/// poll exactly while the budget lasts.
pub proof fn lemma_other_error_polls_again(doc: Seq<u8>, budget: nat, done: nat)
    requires
        !is_grant(doc),
        json_text_member(doc, "error"@) is Some,
        !terminal_error(json_text_member(doc, "error"@)->0),
    ensures
        reply_class(doc) is Retryable,
        continues(budget, done, reply_class(doc)) <==> done < budget,
{
}

} // verus!

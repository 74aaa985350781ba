//! Asking again for a secret that was turned down, a bounded number of times.

use vstd::prelude::*;
use crate::erase::erase;
use crate::error::PasswordError;

verus! {

/// How many times `ask_password` asks before it gives up.
pub const MAX_ATTEMPTS: u32 = 3;

/// What one attempt came to.
#[derive(Debug, PartialEq, Eq)]
pub enum RetryOutcome<T> {
    /// The validator accepted the secret and produced this value.
    Accepted(T),
    /// The secret could not be read, or the validator asked for another
    /// attempt.
    RejectedRetryable,
    /// The validator failed for good.
    FailedTerminal(PasswordError),
}

/// What is to be done next.
#[derive(Debug, PartialEq, Eq)]
pub enum Next<T> {
    /// Render the prompt and read another secret.
    Prompt,
    /// Stop and hand this result to the caller.
    Finish(Result<T, PasswordError>),
}

/// The outcome that a validator's verdict stands for: `PermissionDenied` asks
/// for another attempt, every other verdict is final.
pub open spec fn spec_classify<T>(verdict: Result<T, PasswordError>) -> RetryOutcome<T> {
    match verdict {
        Ok(value) => RetryOutcome::Accepted(value),
        Err(PasswordError::PermissionDenied) => RetryOutcome::RejectedRetryable,
        Err(error) => RetryOutcome::FailedTerminal(error),
    }
}

/// The outcome that a validator's verdict stands for.
#[verifier::when_used_as_spec(spec_classify)]
pub fn classify<T>(verdict: Result<T, PasswordError>) -> (outcome: RetryOutcome<T>)
    ensures
        outcome == spec_classify(verdict),
{
    match verdict {
        Ok(value) => RetryOutcome::Accepted(value),
        Err(PasswordError::PermissionDenied) => RetryOutcome::RejectedRetryable,
        Err(error) => RetryOutcome::FailedTerminal(error),
    }
}

/// The decision after one attempt, where `remaining` attempts were left
/// before it: a final outcome ends the run with its result, and a rejection
/// ends it with `PermissionDenied` if the attempt was the last.
pub open spec fn decide<T>(outcome: RetryOutcome<T>, remaining: nat) -> Next<T> {
    if remaining == 0 {
        Next::Finish(Err(PasswordError::PermissionDenied))
    } else {
        match outcome {
            RetryOutcome::Accepted(value) => Next::Finish(Ok(value)),
            RetryOutcome::FailedTerminal(error) => Next::Finish(Err(error)),
            RetryOutcome::RejectedRetryable => if remaining == 1 {
                Next::Finish(Err(PasswordError::PermissionDenied))
            } else {
                Next::Prompt
            },
        }
    }
}

/// The decision after the attempts in `outcomes`, in order, where `limit`
/// attempts are allowed. Before any attempt it is a prompt, unless the limit
/// is zero; after that, each attempt decides whether the run goes on.
pub open spec fn run<T>(outcomes: Seq<RetryOutcome<T>>, limit: nat) -> Next<T>
    decreases outcomes.len(),
{
    if outcomes.len() == 0 {
        if limit == 0 {
            Next::Finish(Err(PasswordError::PermissionDenied))
        } else {
            Next::Prompt
        }
    } else {
        match decide(outcomes[0], limit) {
            Next::Prompt => run(outcomes.drop_first(), (limit - 1) as nat),
            finish => finish,
        }
    }
}

/// The number of prompts that have been called for once the decision
/// `run(outcomes, limit)` is taken, that decision included.
pub open spec fn prompts<T>(outcomes: Seq<RetryOutcome<T>>, limit: nat) -> nat
    decreases outcomes.len(),
{
    if limit == 0 {
        0
    } else if outcomes.len() == 0 {
        1
    } else {
        match decide(outcomes[0], limit) {
            Next::Prompt => 1 + prompts(outcomes.drop_first(), (limit - 1) as nat),
            _ => 1,
        }
    }
}

/// Counts the attempts that are left and decides after each one.
#[derive(Debug)]
pub struct RetryController {
    remaining: u32,
}

impl RetryController {
    /// The number of attempts that may still be made.
    pub closed spec fn remaining(&self) -> nat {
        self.remaining as nat
    }

    /// A controller that allows `max_attempts` attempts.
    pub fn new(max_attempts: u32) -> (controller: Self)
        ensures
            controller.remaining() == max_attempts,
    {
        RetryController { remaining: max_attempts }
    }

    /// The first decision, before any attempt was made: a prompt, unless no
    /// attempt is allowed.
    pub fn begin<T>(&self) -> (next: Next<T>)
        ensures
            next == run(Seq::<RetryOutcome<T>>::empty(), self.remaining()),
            next == if self.remaining() == 0 {
                Next::<T>::Finish(Err(PasswordError::PermissionDenied))
            } else {
                Next::<T>::Prompt
            },
    {
        if self.remaining == 0 {
            Next::Finish(Err(PasswordError::PermissionDenied))
        } else {
            Next::Prompt
        }
    }

    /// Takes note of one attempt's outcome and decides what follows.
    pub fn record<T>(&mut self, outcome: RetryOutcome<T>) -> (next: Next<T>)
        ensures
            next == decide(outcome, old(self).remaining()),
            final(self).remaining() == if old(self).remaining() == 0 {
                0
            } else {
                old(self).remaining() - 1
            },
    {
        if self.remaining == 0 {
            return Next::Finish(Err(PasswordError::PermissionDenied));
        }
        self.remaining = self.remaining - 1;
        match outcome {
            RetryOutcome::Accepted(value) => Next::Finish(Ok(value)),
            RetryOutcome::FailedTerminal(error) => Next::Finish(Err(error)),
            RetryOutcome::RejectedRetryable => {
                if self.remaining == 0 {
                    Next::Finish(Err(PasswordError::PermissionDenied))
                } else {
                    Next::Prompt
                }
            },
        }
    }
}

/// Whether `outcome` is what an attempt can come to once reading has ended
/// in `line`: a failed read counts as a rejection, and a secret that was read
/// counts as whatever `consume` says of it.
pub open spec fn line_yields<F, T>(
    consume: F,
    line: Result<String, PasswordError>,
    outcome: RetryOutcome<T>,
) -> bool where F: Fn(&str) -> Result<T, PasswordError> {
    match line {
        Err(_) => outcome == RetryOutcome::<T>::RejectedRetryable,
        Ok(secret) => exists|shown: &str, verdict: Result<T, PasswordError>|
            shown@ == secret@ && call_ensures(consume, (shown,), verdict) && outcome == classify(
                verdict,
            ),
    }
}

/// Whether `outcome` is what one attempt can come to, with `read` to render
/// `prompt` and read a secret and `consume` to validate it.
pub open spec fn attempt_yields<R, F, T>(
    read: R,
    consume: F,
    prompt: &str,
    outcome: RetryOutcome<T>,
) -> bool where
    R: Fn(&str) -> Result<String, PasswordError>,
    F: Fn(&str) -> Result<T, PasswordError>,
 {
    exists|line: Result<String, PasswordError>|
        call_ensures(read, (prompt,), line) && line_yields(consume, line, outcome)
}

/// Shows the secret to the validator and erases it as soon as the validator
/// has returned, whatever its verdict.
pub fn validate<F, T>(secret: &mut String, consume: &F) -> (verdict: Result<T, PasswordError>) where
    F: Fn(&str) -> Result<T, PasswordError>,

    requires
        forall|shown: &str| call_requires(*consume, (shown,)),
    ensures
        exists|shown: &str| shown@ == old(secret)@ && call_ensures(*consume, (shown,), verdict),
        final(secret)@ == Seq::<char>::empty(),
{
    let verdict = consume(secret.as_str());
    erase(secret);
    verdict
}

/// Brings one attempt to its outcome: validates the secret if one was read,
/// and erases it.
pub fn attempt<F, T>(line: Result<String, PasswordError>, consume: &F) -> (outcome: RetryOutcome<
    T,
>) where F: Fn(&str) -> Result<T, PasswordError>
    requires
        forall|shown: &str| call_requires(*consume, (shown,)),
    ensures
        line_yields(*consume, line, outcome),
{
    match line {
        Err(_) => RetryOutcome::RejectedRetryable,
        Ok(secret) => {
            let mut secret = secret;
            classify(validate(&mut secret, consume))
        },
    }
}

/// After rejections only, the decision rests with the attempt that follows
/// them and with the attempts that the rejections have left.
pub proof fn lemma_run_after_rejections<T>(
    rejected: Seq<RetryOutcome<T>>,
    outcome: RetryOutcome<T>,
    limit: nat,
)
    requires
        rejected.len() < limit,
        forall|i: int| 0 <= i < rejected.len() ==> rejected[i] is RejectedRetryable,
    ensures
        run(rejected, limit) == Next::<T>::Prompt,
        prompts(rejected, limit) == rejected.len() + 1,
        run(rejected.push(outcome), limit) == decide(outcome, (limit - rejected.len()) as nat),
        prompts(rejected.push(outcome), limit) == rejected.len() + if decide(
            outcome,
            (limit - rejected.len()) as nat,
        ) is Prompt {
            2nat
        } else {
            1nat
        },
    decreases rejected.len(),
{
    let attempts = rejected.push(outcome);
    if rejected.len() == 0 {
        let none = Seq::<RetryOutcome<T>>::empty();
        assert(attempts[0] == outcome);
        assert(attempts.drop_first() =~= none);
        assert(run(none, (limit - 1) as nat) == if limit == 1 {
            Next::<T>::Finish(Err(PasswordError::PermissionDenied))
        } else {
            Next::<T>::Prompt
        });
        assert(prompts(none, (limit - 1) as nat) == if limit == 1 {
            0nat
        } else {
            1nat
        });
    } else {
        let rest = rejected.drop_first();
        lemma_run_after_rejections(rest, outcome, (limit - 1) as nat);
        assert(attempts.drop_first() =~= rest.push(outcome));
        assert(attempts[0] == rejected[0]);
    }
}

/// Rejections up to the limit: as long as an attempt is left the next move
/// is another prompt, and with the last attempt used up the run ends in
/// `PermissionDenied`, after as many prompts as the limit allows.
pub proof fn lemma_run_of_rejections<T>(rejected: Seq<RetryOutcome<T>>, limit: nat)
    requires
        rejected.len() <= limit,
        forall|i: int| 0 <= i < rejected.len() ==> rejected[i] is RejectedRetryable,
    ensures
        rejected.len() < limit ==> run(rejected, limit) == Next::<T>::Prompt,
        rejected.len() == limit ==> run(rejected, limit) == Next::<T>::Finish(
            Err(PasswordError::PermissionDenied),
        ) && prompts(rejected, limit) == limit,
    decreases rejected.len(),
{
    if rejected.len() > 0 && limit > 0 {
        lemma_run_of_rejections(rejected.drop_first(), (limit - 1) as nat);
    }
}

/// A final outcome after rejections only, within the limit, ends the run
/// with its own result, and the prompts rendered are one for each attempt.
pub proof fn lemma_run_ends_at_final_outcome<T>(
    rejected: Seq<RetryOutcome<T>>,
    outcome: RetryOutcome<T>,
    limit: nat,
)
    requires
        rejected.len() < limit,
        forall|i: int| 0 <= i < rejected.len() ==> rejected[i] is RejectedRetryable,
        !(outcome is RejectedRetryable),
    ensures
        run(rejected.push(outcome), limit) == match outcome {
            RetryOutcome::Accepted(value) => Next::Finish(Ok(value)),
            RetryOutcome::FailedTerminal(error) => Next::Finish(Err(error)),
            RetryOutcome::RejectedRetryable => Next::Prompt,
        },
        prompts(rejected.push(outcome), limit) == rejected.len() + 1,
{
    lemma_run_after_rejections(rejected, outcome, limit);
}

/// With a validator that never gives another verdict than
/// `PermissionDenied`, every attempt is a rejection: a run that has ended
/// made as many attempts as the limit allows and ended in
/// `PermissionDenied`.
pub proof fn lemma_validator_always_rejects<R, F, T>(
    read: R,
    consume: F,
    prompt: &str,
    outcomes: Seq<RetryOutcome<T>>,
    limit: nat,
    result: Result<T, PasswordError>,
) where R: Fn(&str) -> Result<String, PasswordError>, F: Fn(&str) -> Result<T, PasswordError>
    requires
        forall|shown: &str, verdict: Result<T, PasswordError>|
            call_ensures(consume, (shown,), verdict) ==> verdict == Err::<T, PasswordError>(
                PasswordError::PermissionDenied,
            ),
        forall|i: int|
            0 <= i < outcomes.len() ==> attempt_yields(read, consume, prompt, outcomes[i]),
        outcomes.len() == prompts(outcomes, limit),
        run(outcomes, limit) == Next::Finish(result),
    ensures
        result == Err::<T, PasswordError>(PasswordError::PermissionDenied),
        outcomes.len() == limit,
{
    assert forall|i: int| 0 <= i < outcomes.len() implies outcomes[i] is RejectedRetryable by {
        assert(attempt_yields(read, consume, prompt, outcomes[i]));
    }
    lemma_prompts_within_limit(outcomes, limit);
    lemma_run_of_rejections(outcomes, limit);
}

/// No more prompts are rendered than the limit allows.
pub proof fn lemma_prompts_within_limit<T>(outcomes: Seq<RetryOutcome<T>>, limit: nat)
    ensures
        prompts(outcomes, limit) <= limit,
    decreases outcomes.len(),
{
    if limit > 0 && outcomes.len() > 0 {
        lemma_prompts_within_limit(outcomes.drop_first(), (limit - 1) as nat);
    }
}

/// Asks for a secret until the validator gives a final answer, at most
/// `MAX_ATTEMPTS` times.
///
/// Each attempt calls `read` with `prompt`, which renders the prompt and
/// reads one secret, and then `consume` with the secret, which is erased as
/// soon as `consume` has returned. A failed read and the verdict
/// `PermissionDenied` lead to the next attempt; every other verdict is
/// returned at once. When no attempt is left the result is
/// `PermissionDenied`.
pub fn ask_password<R, F, T>(prompt: &str, read: R, consume: F) -> (result: Result<
    T,
    PasswordError,
>) where R: Fn(&str) -> Result<String, PasswordError>, F: Fn(&str) -> Result<T, PasswordError>
    requires
        call_requires(read, (prompt,)),
        forall|shown: &str| call_requires(consume, (shown,)),
    ensures
        exists|outcomes: Seq<RetryOutcome<T>>|
            {
                &&& forall|i: int|
                    0 <= i < outcomes.len() ==> attempt_yields(read, consume, prompt, outcomes[i])
                &&& outcomes.len() == prompts(outcomes, MAX_ATTEMPTS as nat)
                &&& run(outcomes, MAX_ATTEMPTS as nat) == Next::Finish(result)
            },
{
    let mut controller = RetryController::new(MAX_ATTEMPTS);
    let mut next: Next<T> = controller.begin();
    let ghost mut outcomes: Seq<RetryOutcome<T>> = Seq::empty();
    loop
        invariant
            call_requires(read, (prompt,)),
            forall|shown: &str| call_requires(consume, (shown,)),
            forall|i: int|
                0 <= i < outcomes.len() ==> attempt_yields(read, consume, prompt, outcomes[i]),
            next is Prompt ==> {
                &&& controller.remaining() > 0
                &&& controller.remaining() + outcomes.len() == MAX_ATTEMPTS
                &&& forall|i: int| 0 <= i < outcomes.len() ==> outcomes[i] is RejectedRetryable
            },
            next is Finish ==> {
                &&& outcomes.len() == prompts(outcomes, MAX_ATTEMPTS as nat)
                &&& run(outcomes, MAX_ATTEMPTS as nat) == next
            },
        decreases
            if next is Prompt { controller.remaining() + 1 } else { 0 },
    {
        match next {
            Next::Finish(result) => {
                return result;
            },
            Next::Prompt => {
                let line = read(prompt);
                let outcome = attempt(line, &consume);
                proof {
                    lemma_run_after_rejections(outcomes, outcome, MAX_ATTEMPTS as nat);
                    outcomes = outcomes.push(outcome);
                }
                next = controller.record(outcome);
            },
        }
    }
}

} // verus!

//! Retrying an operation a bounded number of times with a fixed pause.
//! The caller performs the operation and the pause; this module counts
//! and decides.

use vstd::prelude::*;

verus! {

/// How often an operation may be attempted and how long to pause between
/// two attempts.
#[derive(Clone, Copy, Debug, PartialEq, Eq, Structural)]
pub struct RetryPolicy {
    pub max_attempts: u32,
    pub delay_millis: u64,
}

/// What to do after a failed attempt.
#[derive(Clone, Copy, Debug, PartialEq, Eq, Structural)]
pub enum RetryDecision {
    /// Pause for the given time, then attempt again.
    Retry { delay_millis: u64 },
    /// The attempts are used up: report the failure.
    GiveUp,
}

/// The attempts made so far under a policy.
#[derive(Clone, Copy, Debug, PartialEq, Eq, Structural)]
pub struct Attempts {
    pub policy: RetryPolicy,
    pub made: u32,
}

impl RetryPolicy {
    /// The policy for acquiring the clipboard: three attempts, one second
    /// apart.
    pub open spec fn clipboard_spec() -> RetryPolicy {
        RetryPolicy { max_attempts: 3, delay_millis: 1000 }
    }

    /// The policy for creating the directory of an image: three attempts,
    /// a tenth of a second apart.
    pub open spec fn image_directory_spec() -> RetryPolicy {
        RetryPolicy { max_attempts: 3, delay_millis: 100 }
    }

    /// The policy for creating the directory of a text note: one attempt.
    pub open spec fn text_directory_spec() -> RetryPolicy {
        RetryPolicy { max_attempts: 1, delay_millis: 0 }
    }

    #[verifier::when_used_as_spec(clipboard_spec)]
    pub fn clipboard() -> (policy: RetryPolicy)
        ensures
            policy == Self::clipboard_spec(),
    {
        RetryPolicy { max_attempts: 3, delay_millis: 1000 }
    }

    #[verifier::when_used_as_spec(image_directory_spec)]
    pub fn image_directory() -> (policy: RetryPolicy)
        ensures
            policy == Self::image_directory_spec(),
    {
        RetryPolicy { max_attempts: 3, delay_millis: 100 }
    }

    #[verifier::when_used_as_spec(text_directory_spec)]
    pub fn text_directory() -> (policy: RetryPolicy)
        ensures
            policy == Self::text_directory_spec(),
    {
        RetryPolicy { max_attempts: 1, delay_millis: 0 }
    }
}

impl Attempts {
    /// No more attempts were made than the policy allows.
    pub open spec fn within_limit(self) -> bool {
        self.made <= self.policy.max_attempts
    }

    /// No further attempt is allowed.
    pub open spec fn is_exhausted(self) -> bool {
        self.made >= self.policy.max_attempts
    }

    /// The state after one more attempt: the count grows by one unless
    /// the attempts were used up before.
    pub open spec fn after_attempt(self) -> Attempts {
        if self.made < self.policy.max_attempts {
            Attempts { policy: self.policy, made: (self.made + 1) as u32 }
        } else {
            self
        }
    }

    /// The decision after one more attempt that failed.
    pub open spec fn decision_after_failure(self) -> RetryDecision {
        if self.after_attempt().is_exhausted() {
            RetryDecision::GiveUp
        } else {
            RetryDecision::Retry { delay_millis: self.policy.delay_millis }
        }
    }

    /// The state after `n` more attempts.
    pub open spec fn after_attempts(self, n: nat) -> Attempts
        decreases n,
    {
        if n == 0 {
            self
        } else {
            self.after_attempt().after_attempts((n - 1) as nat)
        }
    }

    /// Starts counting under `policy`.
    pub fn new(policy: RetryPolicy) -> (attempts: Attempts)
        ensures
            attempts == (Attempts { policy, made: 0 }),
            attempts.within_limit(),
    {
        Attempts { policy, made: 0 }
    }

    /// Tells whether the attempts are used up.
    pub fn exhausted(&self) -> (used_up: bool)
        ensures
            used_up == self.is_exhausted(),
    {
        self.made >= self.policy.max_attempts
    }

    /// Records an attempt that succeeded.
    pub fn succeeded(&mut self)
        ensures
            *final(self) == old(self).after_attempt(),
            old(self).within_limit() ==> final(self).within_limit(),
    {
        if self.made < self.policy.max_attempts {
            self.made = self.made + 1;
        }
    }

    /// Records an attempt that failed and decides whether to try again:
    /// the failure that uses up the attempts gives up, every earlier one
    /// asks for the policy's pause and another attempt.
    pub fn failed(&mut self) -> (decision: RetryDecision)
        ensures
            *final(self) == old(self).after_attempt(),
            decision == old(self).decision_after_failure(),
            old(self).within_limit() ==> final(self).within_limit(),
    {
        if self.made < self.policy.max_attempts {
            self.made = self.made + 1;
        }
        if self.made >= self.policy.max_attempts {
            RetryDecision::GiveUp
        } else {
            RetryDecision::Retry { delay_millis: self.policy.delay_millis }
        }
    }
}

/// However many attempts are recorded, the count never passes the limit
/// of the policy and never passes the number of attempts recorded.
pub proof fn law_attempts_stay_within_limit(start: Attempts, n: nat)
    requires
        start.within_limit(),
    ensures
        start.after_attempts(n).within_limit(),
        start.after_attempts(n).policy == start.policy,
        start.after_attempts(n).made <= start.made + n,
    decreases n,
{
    if n > 0 {
        law_attempts_stay_within_limit(start.after_attempt(), (n - 1) as nat);
    }
}

/// Counting from zero under a policy of `max` attempts, the `k`-th
/// failure gives up exactly when `k` reaches `max`: every earlier one
/// asks for another attempt after the policy's pause.
pub proof fn law_gives_up_at_the_limit(policy: RetryPolicy, k: nat)
    requires
        1 <= k <= policy.max_attempts,
    ensures
        (Attempts { policy, made: 0 }).after_attempts((k - 1) as nat).made == k - 1,
        (Attempts { policy, made: 0 }).after_attempts((k - 1) as nat).decision_after_failure() == (
        if k == policy.max_attempts {
            RetryDecision::GiveUp
        } else {
            RetryDecision::Retry { delay_millis: policy.delay_millis }
        }),
{
    lemma_counts_up(Attempts { policy, made: 0 }, (k - 1) as nat);
}

proof fn lemma_counts_up(start: Attempts, n: nat)
    requires
        start.made + n <= start.policy.max_attempts,
    ensures
        start.after_attempts(n).made == start.made + n,
        start.after_attempts(n).policy == start.policy,
    decreases n,
{
    if n > 0 {
        lemma_counts_up(start.after_attempt(), (n - 1) as nat);
    }
}

} // verus!

//! Funding Coordinator: the decisions of the request-then-poll protocol.
//!
//! The caller reads the balance, starts a [`FundingPoll`], requests the
//! funds, and then alternates between reading the balance and asking
//! [`FundingPoll::poll`] what to do next: stop, or sleep for the returned
//! number of time units and read again.

use vstd::prelude::*;

verus! {

/// `2^n`, written as repeated doubling.
pub open spec fn doubling(n: nat) -> nat
    decreases n,
{
    if n == 0 {
        1
    } else {
        2 * doubling((n - 1) as nat)
    }
}

/// The sleep that follows the `n`-th unsuccessful poll (counting from 0):
/// `2^n` time units, held at `u64::MAX` once `2^n` no longer fits.
pub open spec fn backoff_delay(n: nat) -> nat {
    if doubling(n) <= u64::MAX {
        doubling(n)
    } else {
        u64::MAX as nat
    }
}

/// What the polling loop does after one balance observation.
#[derive(PartialEq, Eq, Structural, Clone, Copy, Debug)]
pub enum FundingAction {
    /// The balance has reached the target: funding is complete.
    Done,
    /// The balance is still short: sleep this many time units, then poll again.
    Sleep(u64),
}

/// Abstract state of a funding wait.
pub struct FundingView {
    /// Absolute balance that must be observed.
    pub target: nat,
    /// Number of polls so far that found the balance short.
    pub polls: nat,
}

/// State of a funding wait: the absolute target and the next backoff.
pub struct FundingPoll {
    target: u64,
    delay: u64,
    polls: Ghost<nat>,
}

/// One step of the polling protocol on the abstract state.
pub open spec fn poll_step(v: FundingView, observed: u64) -> (FundingView, FundingAction) {
    if observed >= v.target {
        (v, FundingAction::Done)
    } else {
        (
            FundingView { target: v.target, polls: v.polls + 1 },
            FundingAction::Sleep(backoff_delay(v.polls) as u64),
        )
    }
}

/// The sleeps that a wait in state `v` performs when the successive
/// balance observations are `obs`, up to the first one that reaches the
/// target (or until `obs` runs out).
pub open spec fn sleep_schedule(v: FundingView, obs: Seq<u64>) -> Seq<u64>
    decreases obs.len(),
{
    if obs.len() == 0 {
        seq![]
    } else {
        let (next, action) = poll_step(v, obs[0]);
        match action {
            FundingAction::Done => seq![],
            FundingAction::Sleep(d) => seq![d] + sleep_schedule(next, obs.subrange(1, obs.len() as int)),
        }
    }
}

impl View for FundingPoll {
    type V = FundingView;

    closed spec fn view(&self) -> FundingView {
        FundingView { target: self.target as nat, polls: self.polls@ }
    }
}

impl FundingPoll {
    /// Well-formedness: the stored delay is the backoff for the polls made.
    pub closed spec fn wf(&self) -> bool {
        self.delay as nat == backoff_delay(self.polls@)
    }

    /// Starts a wait for `amount` on top of the balance `balance_before`
    /// read before the funding request. `None` when the absolute target
    /// `balance_before + amount` does not fit in a `u64`.
    pub fn new(balance_before: u64, amount: u64) -> (r: Option<FundingPoll>)
        ensures
            r is None <==> balance_before + amount > u64::MAX,
            r matches Some(p) ==> p.wf() && p@.target == balance_before + amount && p@.polls == 0,
    {
        match balance_before.checked_add(amount) {
            None => None,
            Some(target) => {
                proof {
                    reveal_with_fuel(doubling, 1);
                }
                Some(FundingPoll { target, delay: 1, polls: Ghost(0) })
            },
        }
    }

    /// The absolute balance that ends the wait.
    pub fn target(&self) -> (r: u64)
        ensures
            r == self@.target,
    {
        self.target
    }

    /// Feeds one balance observation: `Done` exactly when it has reached
    /// the target, otherwise `Sleep(2^n)` for the `n`-th short observation
    /// (held at `u64::MAX` past the range of `u64`).
    pub fn poll(&mut self, observed: u64) -> (r: FundingAction)
        requires
            old(self).wf(),
        ensures
            final(self).wf(),
            (final(self)@, r) == poll_step(old(self)@, observed),
    {
        if observed >= self.target {
            FundingAction::Done
        } else {
            let d = self.delay;
            proof {
                reveal_with_fuel(doubling, 2);
            }
            self.delay = if d <= u64::MAX / 2 {
                d * 2
            } else {
                u64::MAX
            };
            self.polls = Ghost(self.polls@ + 1);
            FundingAction::Sleep(d)
        }
    }
}

proof fn lemma_doubling_monotone(m: nat, n: nat)
    requires
        m <= n,
    ensures
        doubling(m) <= doubling(n),
    decreases n,
{
    if m < n {
        lemma_doubling_monotone(m, (n - 1) as nat);
    }
}

proof fn lemma_doubling_bound(n: nat)
    requires
        n <= 63,
    ensures
        doubling(n) <= 0x8000_0000_0000_0000,
{
    lemma_doubling_monotone(n, 63);
    reveal_with_fuel(doubling, 64);
}

proof fn lemma_schedule_from(v: FundingView, obs: Seq<u64>)
    ensures
        sleep_schedule(v, obs).len() <= obs.len(),
        forall|i: int|
            0 <= i < sleep_schedule(v, obs).len() ==> sleep_schedule(v, obs)[i] == backoff_delay(
                v.polls + i as nat,
            ) && obs[i] < v.target,
        sleep_schedule(v, obs).len() < obs.len() ==> obs[sleep_schedule(v, obs).len() as int]
            >= v.target,
    decreases obs.len(),
{
    if obs.len() > 0 && obs[0] < v.target {
        let next = FundingView { target: v.target, polls: v.polls + 1 };
        let rest = obs.subrange(1, obs.len() as int);
        lemma_schedule_from(next, rest);
        let s = sleep_schedule(v, obs);
        let t = sleep_schedule(next, rest);
        assert(poll_step(v, obs[0]) == (next, FundingAction::Sleep(backoff_delay(v.polls) as u64)));
        assert(s == seq![backoff_delay(v.polls) as u64] + t);
        assert(s.len() == t.len() + 1);
        assert forall|i: int| 0 <= i < s.len() implies s[i] == backoff_delay(v.polls + i as nat)
            && obs[i] < v.target by {
            if i > 0 {
                assert(s[i] == t[i - 1]);
                assert(obs[i] == rest[i - 1]);
                assert(v.polls + i as nat == next.polls + (i - 1) as nat);
            }
        }
        if s.len() < obs.len() {
            assert(obs[s.len() as int] == rest[t.len() as int]);
        }
    }
}

/// Backoff shape: a wait started by [`FundingPoll::new`] and fed the
/// balance observations `obs` sleeps 1, 2, 4, 8, ... time units (`2^i`
/// before the `i+1`-th poll, for as long as `2^i` fits in a `u64`), sleeps
/// only after observations below the target, and stops at the first
/// observation that reaches it.
pub proof fn backoff_shape(target: nat, obs: Seq<u64>)
    ensures
        ({
            let s = sleep_schedule(FundingView { target, polls: 0 }, obs);
            &&& s.len() <= obs.len()
            &&& forall|i: int| 0 <= i < s.len() ==> obs[i] < target
            &&& forall|i: int| 0 <= i < s.len() ==> s[i] == backoff_delay(i as nat)
            &&& forall|i: int| 0 <= i < s.len() && i < 64 ==> s[i] == doubling(i as nat)
            &&& s.len() < obs.len() ==> obs[s.len() as int] >= target
        }),
{
    let v = FundingView { target, polls: 0 };
    lemma_schedule_from(v, obs);
    let s = sleep_schedule(v, obs);
    assert forall|i: int| 0 <= i < s.len() implies s[i] == backoff_delay(i as nat) by {
        assert(sleep_schedule(v, obs)[i] == backoff_delay(v.polls + i as nat));
        assert(v.polls + i as nat == i as nat);
    }
    assert forall|i: int| 0 <= i < s.len() implies obs[i] < target by {
        assert(sleep_schedule(v, obs)[i] == backoff_delay(v.polls + i as nat));
    }
    assert forall|i: int| 0 <= i < s.len() && i < 64 implies s[i] == doubling(i as nat) by {
        lemma_doubling_bound(i as nat);
        assert(v.polls + i as nat == i as nat);
    }
}

} // verus!

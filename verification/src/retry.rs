//! Trying an upload again until it succeeds, with growing pauses.

use vstd::prelude::*;

verus! {

/// The longest pause between two attempts, in seconds.
pub const MAX_DELAY_SECS: u64 = 610;

/// The Fibonacci numbers from 1, 2 on.
pub open spec fn fibonacci(n: nat) -> nat
    decreases n,
{
    if n == 0 {
        1
    } else if n == 1 {
        2
    } else {
        fibonacci((n - 2) as nat) + fibonacci((n - 1) as nat)
    }
}

/// The pause after an attempt failed that `n` failed attempts came before, in seconds.
pub open spec fn delay(n: nat) -> nat {
    if fibonacci(n) < MAX_DELAY_SECS {
        fibonacci(n)
    } else {
        MAX_DELAY_SECS as nat
    }
}

/// What the upload fails with when the connection is gone after a pause.
pub open spec fn connection_lost_text() -> Seq<char> {
    "Connection lost during pre-key upload retry"@
}

/// Something that happened between attempts.
pub enum RetryEvent<E> {
    /// An attempt ended.
    Attempted(Result<(), E>),
    /// A pause is over, and the client is still logged in or not.
    Slept { logged_in: bool },
}

/// What to do next.
#[derive(Debug, PartialEq, Eq)]
pub enum RetryAction {
    /// Try again.
    Attempt,
    /// Pause for so many seconds.
    Sleep(u64),
    /// Be done, with this result.
    Return(Result<(), String>),
}

/// A [`RetryAction`] in contracts.
pub enum RetryActionView {
    Attempt,
    Sleep(nat),
    Return(Result<(), Seq<char>>),
}

/// What an upload that is tried until it succeeds waits for.
pub enum RetryPhase {
    /// The end of an attempt.
    Attempting,
    /// The end of a pause.
    Sleeping,
    /// Nothing any more.
    Done,
}

/// An upload that is tried until it succeeds.
pub struct UploadRetry {
    delay_a: u64,
    delay_b: u64,
    phase: RetryPhase,
    failures: Ghost<nat>,
}

/// Where an upload that is tried until it succeeds stands.
pub struct RetryView {
    /// How many attempts failed and were slept on.
    pub failures: nat,
    pub phase: RetryPhase,
}

impl View for RetryAction {
    type V = RetryActionView;

    open spec fn view(&self) -> RetryActionView {
        match self {
            RetryAction::Attempt => RetryActionView::Attempt,
            RetryAction::Sleep(secs) => RetryActionView::Sleep(*secs as nat),
            RetryAction::Return(Ok(())) => RetryActionView::Return(Ok(())),
            RetryAction::Return(Err(text)) => RetryActionView::Return(Err(text@)),
        }
    }
}

impl View for UploadRetry {
    type V = RetryView;

    closed spec fn view(&self) -> RetryView {
        RetryView { failures: self.failures@, phase: self.phase }
    }
}

impl RetryView {
    /// Before the first attempt.
    pub open spec fn fresh() -> RetryView {
        RetryView { failures: 0, phase: RetryPhase::Attempting }
    }

    /// Whether the event is one that is waited for.
    pub open spec fn awaits<E>(self, event: RetryEvent<E>) -> bool {
        match event {
            RetryEvent::Attempted(_) => self.phase is Attempting,
            RetryEvent::Slept { .. } => self.phase is Sleeping,
        }
    }

    /// The same upload, waiting for something else.
    pub open spec fn at(self, phase: RetryPhase) -> RetryView {
        RetryView { failures: self.failures, phase }
    }

    /// What an event leads to.
    pub open spec fn step<E>(self, event: RetryEvent<E>) -> (RetryView, RetryActionView) {
        match event {
            RetryEvent::Attempted(Ok(())) => (
                self.at(RetryPhase::Done),
                RetryActionView::Return(Ok(())),
            ),
            RetryEvent::Attempted(Err(_)) => (
                self.at(RetryPhase::Sleeping),
                RetryActionView::Sleep(delay(self.failures)),
            ),
            RetryEvent::Slept { logged_in: false } => (
                self.at(RetryPhase::Done),
                RetryActionView::Return(Err(connection_lost_text())),
            ),
            RetryEvent::Slept { logged_in: true } => (
                RetryView { failures: self.failures + 1, phase: RetryPhase::Attempting },
                RetryActionView::Attempt,
            ),
        }
    }
}

proof fn lemma_delay_recurrence(n: nat)
    ensures
        delay(0) == 1,
        delay(1) == 2,
        delay(n + 2) == (if delay(n) + delay(n + 1) < MAX_DELAY_SECS {
            delay(n) + delay(n + 1)
        } else {
            MAX_DELAY_SECS as nat
        }),
{
    assert(fibonacci(n + 2) == fibonacci(n) + fibonacci(n + 1));
}

impl UploadRetry {
    /// That the two pauses at hand are the next ones of the schedule.
    pub closed spec fn valid(&self) -> bool {
        &&& self.delay_a == delay(self.failures@)
        &&& self.delay_b == delay(self.failures@ + 1)
    }

    /// Before the first attempt.
    pub fn new() -> (retry: UploadRetry)
        ensures
            retry@ == RetryView::fresh(),
            retry.valid(),
    {
        proof {
            lemma_delay_recurrence(0);
        }
        UploadRetry {
            delay_a: 1,
            delay_b: 2,
            phase: RetryPhase::Attempting,
            failures: Ghost(0),
        }
    }

    /// Takes the event, and says what to do next.
    ///
    /// A failed attempt is followed by a pause, each as long as the two before it together, up to
    /// the longest one; and a pause by another attempt, unless the client was logged out
    /// meanwhile. After an attempt that succeeded nothing follows.
    pub fn step<E>(&mut self, event: RetryEvent<E>) -> (action: RetryAction)
        requires
            old(self).valid(),
            old(self)@.awaits(event),
        ensures
            final(self).valid(),
            (final(self)@, action@) == old(self)@.step(event),
    {
        match event {
            RetryEvent::Attempted(Ok(())) => {
                self.phase = RetryPhase::Done;
                RetryAction::Return(Ok(()))
            },
            RetryEvent::Attempted(Err(_)) => {
                self.phase = RetryPhase::Sleeping;
                RetryAction::Sleep(self.delay_a)
            },
            RetryEvent::Slept { logged_in } => {
                if !logged_in {
                    self.phase = RetryPhase::Done;
                    return RetryAction::Return(
                        Err("Connection lost during pre-key upload retry".to_string()),
                    );
                }
                proof {
                    lemma_delay_recurrence(self.failures@);
                }
                let sum: u64 = self.delay_a + self.delay_b;
                self.delay_a = self.delay_b;
                self.delay_b = if sum < MAX_DELAY_SECS {
                    sum
                } else {
                    MAX_DELAY_SECS
                };
                self.failures = Ghost(self.failures@ + 1);
                self.phase = RetryPhase::Attempting;
                RetryAction::Attempt
            },
        }
    }
}

proof fn lemma_fibonacci_grows(n: nat)
    ensures
        1 <= fibonacci(n) < fibonacci(n + 1),
    decreases n,
{
    if n > 0 {
        lemma_fibonacci_grows((n - 1) as nat);
        assert(fibonacci(n + 1) == fibonacci((n - 1) as nat) + fibonacci(n));
    }
}

proof fn lemma_fibonacci_monotonic(m: nat, n: nat)
    requires
        m <= n,
    ensures
        fibonacci(m) <= fibonacci(n),
    decreases n - m,
{
    if m < n {
        lemma_fibonacci_grows(m);
        lemma_fibonacci_monotonic(m + 1, n);
    }
}

/// The schedule: pauses of 1, 2, 3, 5, 8, 13, 21, ... seconds, each the sum of the two before it,
/// up to the fourteenth, which is the longest; all later ones are as long.
pub proof fn law_delay_schedule(n: nat)
    ensures
        delay(0) == 1,
        delay(1) == 2,
        n < 12 ==> delay(n + 2) == delay(n) + delay(n + 1),
        n >= 13 <==> delay(n) == MAX_DELAY_SECS,
        1 <= delay(n) <= delay(n + 1) <= MAX_DELAY_SECS,
{
    assert(fibonacci(12) == 377 && fibonacci(13) == 610) by {
        reveal_with_fuel(fibonacci, 14);
    }
    lemma_fibonacci_grows(n);
    if n < 12 {
        lemma_fibonacci_monotonic(n + 2, 13);
        lemma_fibonacci_monotonic(n + 1, 12);
        lemma_fibonacci_monotonic(n, 12);
    } else if n == 12 {
    } else {
        lemma_fibonacci_monotonic(13, n);
    }
}

/// Where an upload stands after attempts that failed with these errors, each slept on while logged
/// in.
pub open spec fn after_failures<E>(errors: Seq<E>) -> RetryView
    decreases errors.len(),
{
    if errors.len() == 0 {
        RetryView::fresh()
    } else {
        let slept = after_failures(errors.drop_last()).step(
            RetryEvent::Attempted(Err(errors.last())),
        ).0;
        slept.step(RetryEvent::<E>::Slept { logged_in: true }).0
    }
}

/// However many attempts have failed, the next is made once its pause is over, as long as the
/// client is logged in; and the pause after it, should it fail too, is the next of the schedule.
/// It succeeds as soon as an attempt does, and fails only where the client was logged out.
pub proof fn law_retries_until_success<E>(errors: Seq<E>, error: E)
    ensures
        after_failures(errors) == (RetryView {
            failures: errors.len(),
            phase: RetryPhase::Attempting,
        }),
        after_failures(errors).step(RetryEvent::<E>::Attempted(Ok(()))).1
            == RetryActionView::Return(Ok(())),
        after_failures(errors).step(RetryEvent::Attempted(Err(error))).1
            == RetryActionView::Sleep(delay(errors.len())),
        after_failures(errors).step(RetryEvent::Attempted(Err(error))).0.step(
            RetryEvent::<E>::Slept { logged_in: false },
        ).1 == RetryActionView::Return(Err("Connection lost during pre-key upload retry"@)),
        after_failures(errors).step(RetryEvent::Attempted(Err(error))).0.step(
            RetryEvent::<E>::Slept { logged_in: true },
        ).1 is Attempt,
    decreases errors.len(),
{
    if errors.len() > 0 {
        law_retries_until_success(errors.drop_last(), errors.last());
    }
}

/// Once it has returned, nothing follows, and no attempt in particular: it waits for nothing any
/// more. Until then it does wait for something.
pub proof fn law_nothing_follows_the_result<E>(
    retry: RetryView,
    event: RetryEvent<E>,
    later: RetryEvent<E>,
)
    requires
        retry.awaits(event),
    ensures
        retry.step(event).1 is Return <==> retry.step(event).0.phase is Done,
        retry.step(event).1 is Return ==> !retry.step(event).0.awaits(later),
        retry.step(event).1 is Sleep ==> retry.step(event).0.awaits(
            RetryEvent::<E>::Slept { logged_in: true },
        ),
        retry.step(event).1 is Attempt ==> retry.step(event).0.awaits(
            RetryEvent::<E>::Attempted(Ok(())),
        ),
{
}

/// What is waited for is what the last action can lead to, whatever comes of that: every end of an
/// attempt, and every end of a pause.
pub proof fn law_retry_waits_for_every_answer<E>(retry: RetryView, event: RetryEvent<E>)
    ensures
        RetryView::fresh().phase is Attempting,
        retry.phase is Attempting ==> (retry.awaits(event) <==> event is Attempted),
        retry.phase is Sleeping ==> (retry.awaits(event) <==> event is Slept),
        retry.phase is Done ==> !retry.awaits(event),
{
}

} // verus!

//! Draining one response from a socket that gives no end-of-message signal.
//!
//! The socket itself is not touched here. A driver polls it and reports each
//! poll to a [`ResponseDrainer`], which keeps the bytes in arrival order and
//! answers with what to do next. A response counts as complete once enough
//! consecutive polls came back empty after at least one chunk was seen, or,
//! where the policy says so, once its body has the length that it declares;
//! a bound on the number of polls ends a drain that would otherwise never
//! stop.

use crate::error::TransportError;
use crate::length::{has_declared_length, is_length_complete};
use vstd::prelude::*;

verus! {

/// How a drain tells that a response is complete.
#[derive(Clone, Copy, Debug, PartialEq, Eq, Structural)]
pub enum CompletionStrategy {
    /// By quiescence alone: the headers are not looked at. This is for
    /// servers whose headers cannot be relied on.
    Quiescence,
    /// By the length that the response declares, as soon as its body is that
    /// long, and by quiescence where it declares none or stays short of it.
    DeclaredLength,
}

/// The knobs of a drain.
#[derive(Clone, Copy, Debug, PartialEq, Eq, Structural)]
pub struct DrainPolicy {
    /// How a response is told to be complete.
    pub strategy: CompletionStrategy,
    /// How many consecutive empty polls, after the first chunk, end the drain.
    pub quiescence_threshold: u32,
    /// How long the driver sleeps after an empty poll, in milliseconds.
    pub poll_interval_ms: u32,
    /// The absolute bound: no drain takes more polls than this.
    pub max_polls: u64,
}

/// Where a drain stands.
#[derive(Clone, Copy, Debug, PartialEq, Eq, Structural)]
pub enum DrainStatus {
    Draining,
    Complete,
    TimedOut,
}

/// What the driver is to do after reporting a poll.
#[derive(Clone, Copy, Debug, PartialEq, Eq, Structural)]
pub enum DrainAction {
    /// Poll again at once.
    Poll,
    /// Sleep for this many milliseconds, then poll again.
    Wait(u32),
    /// Stop polling: the response is complete.
    Deliver,
    /// Stop polling: the drain has timed out.
    GiveUp,
}

/// The mathematical state of a drain.
#[verifier::ext_equal]
pub struct DrainModel {
    pub policy: DrainPolicy,
    /// Every byte received so far, in arrival order.
    pub buffer: Seq<u8>,
    /// Whether a chunk has been seen.
    pub seen: bool,
    /// Consecutive empty polls since the last chunk, or since the start.
    pub quiet: nat,
    /// Polls reported so far.
    pub polls: nat,
    pub status: DrainStatus,
}

/// The state before the first poll.
pub open spec fn start(policy: DrainPolicy) -> DrainModel {
    DrainModel {
        policy,
        buffer: Seq::empty(),
        seen: false,
        quiet: 0,
        polls: 0,
        status: if policy.max_polls == 0 {
            DrainStatus::TimedOut
        } else {
            DrainStatus::Draining
        },
    }
}

/// The buffer is complete by the length that it declares, under a policy
/// that goes by that length.
pub open spec fn complete_by_length(policy: DrainPolicy, buffer: Seq<u8>) -> bool {
    policy.strategy == CompletionStrategy::DeclaredLength && has_declared_length(buffer)
}

/// The state after one more poll that read `read` (empty where nothing was
/// available). A finished drain no longer changes.
pub open spec fn next(m: DrainModel, read: Seq<u8>) -> DrainModel {
    if m.status != DrainStatus::Draining {
        m
    } else if read.len() > 0 {
        DrainModel {
            buffer: m.buffer + read,
            seen: true,
            quiet: 0,
            polls: m.polls + 1,
            status: if complete_by_length(m.policy, m.buffer + read) {
                DrainStatus::Complete
            } else if m.polls + 1 >= m.policy.max_polls {
                DrainStatus::TimedOut
            } else {
                DrainStatus::Draining
            },
            ..m
        }
    } else {
        DrainModel {
            quiet: m.quiet + 1,
            polls: m.polls + 1,
            status: if m.seen && m.quiet + 1 >= m.policy.quiescence_threshold {
                DrainStatus::Complete
            } else if m.polls + 1 >= m.policy.max_polls {
                DrainStatus::TimedOut
            } else {
                DrainStatus::Draining
            },
            ..m
        }
    }
}

/// What the driver is told after a poll that read `read` led to state `m`.
pub open spec fn action_for(m: DrainModel, read: Seq<u8>) -> DrainAction {
    match m.status {
        DrainStatus::Complete => DrainAction::Deliver,
        DrainStatus::TimedOut => DrainAction::GiveUp,
        DrainStatus::Draining => if read.len() > 0 {
            DrainAction::Poll
        } else {
            DrainAction::Wait(m.policy.poll_interval_ms)
        },
    }
}

/// The state after the polls `reads`, reported in that order.
pub open spec fn run(m: DrainModel, reads: Seq<Seq<u8>>) -> DrainModel
    decreases reads.len(),
{
    if reads.len() == 0 {
        m
    } else {
        next(run(m, reads.drop_last()), reads.last())
    }
}

/// All the reads joined in order.
pub open spec fn concat_all(reads: Seq<Seq<u8>>) -> Seq<u8>
    decreases reads.len(),
{
    if reads.len() == 0 {
        Seq::empty()
    } else {
        concat_all(reads.drop_last()) + reads.last()
    }
}

/// `n` polls that found nothing.
pub open spec fn silence(n: nat) -> Seq<Seq<u8>> {
    Seq::new(n, |i: int| Seq::<u8>::empty())
}

/// How many sleeps the driver has been told to take since the last chunk (or
/// since the start): one for every empty poll that left the drain going.
pub open spec fn waits_since_last_chunk(m: DrainModel) -> nat {
    if m.status == DrainStatus::Draining || m.quiet == 0 {
        m.quiet
    } else {
        (m.quiet - 1) as nat
    }
}

/// The time slept since the last chunk, in milliseconds.
pub open spec fn idle_ms(m: DrainModel) -> nat {
    waits_since_last_chunk(m) * (m.policy.poll_interval_ms as nat)
}

/// A finished drain ignores whatever is reported to it.
pub proof fn lemma_finished_stays(m: DrainModel, reads: Seq<Seq<u8>>)
    requires
        m.status != DrainStatus::Draining,
    ensures
        run(m, reads) == m,
    decreases reads.len(),
{
    if reads.len() > 0 {
        lemma_finished_stays(m, reads.drop_last());
    }
}

/// Reporting `a` and then `b` is reporting `a + b`.
pub proof fn lemma_run_concat(m: DrainModel, a: Seq<Seq<u8>>, b: Seq<Seq<u8>>)
    ensures
        run(m, a + b) == run(run(m, a), b),
    decreases b.len(),
{
    if b.len() == 0 {
        assert(a + b =~= a);
    } else {
        assert((a + b).drop_last() =~= a + b.drop_last());
        assert((a + b).last() == b.last());
        lemma_run_concat(m, a, b.drop_last());
    }
}

/// A drain that is still going after some polls was going after every
/// shorter run of them, and holds exactly the bytes read, in arrival order.
/// The same holds of the poll that ends a drain.
pub proof fn lemma_buffer_in_arrival_order(policy: DrainPolicy, reads: Seq<Seq<u8>>)
    requires
        reads.len() > 0 ==> run(start(policy), reads.drop_last()).status == DrainStatus::Draining,
    ensures
        run(start(policy), reads).buffer == concat_all(reads),
    decreases reads.len(),
{
    if reads.len() > 0 {
        let shorter = reads.drop_last();
        if shorter.len() > 0 {
            if run(start(policy), shorter.drop_last()).status != DrainStatus::Draining {
                lemma_finished_stays(
                    run(start(policy), shorter.drop_last()),
                    seq![shorter.last()],
                );
                assert(run(run(start(policy), shorter.drop_last()), seq![shorter.last()]) == next(
                    run(run(start(policy), shorter.drop_last()), seq![shorter.last()].drop_last()),
                    shorter.last(),
                ));
            }
        }
        lemma_buffer_in_arrival_order(policy, shorter);
        assert(run(start(policy), reads).buffer =~= concat_all(reads));
    }
}

/// No drain goes on for ever: one that is still going has made as many
/// polls as were reported and has polls left, so after `max_polls` polls,
/// whatever they read, every drain has ended.
pub proof fn lemma_drain_is_bounded(policy: DrainPolicy, reads: Seq<Seq<u8>>)
    ensures
        run(start(policy), reads).policy == policy,
        run(start(policy), reads).status == DrainStatus::Draining ==> run(
            start(policy),
            reads,
        ).polls == reads.len() && reads.len() < policy.max_polls,
        reads.len() >= policy.max_polls ==> run(start(policy), reads).status
            != DrainStatus::Draining,
    decreases reads.len(),
{
    if reads.len() > 0 {
        lemma_drain_is_bounded(policy, reads.drop_last());
    }
}

/// A socket that never delivers anything: the drain goes on for exactly
/// `max_polls` empty polls, then times out. It never completes and never
/// holds data.
pub proof fn lemma_silence_times_out(policy: DrainPolicy, k: nat)
    ensures
        run(start(policy), silence(k)).buffer == Seq::<u8>::empty(),
        !run(start(policy), silence(k)).seen,
        run(start(policy), silence(k)).policy == policy,
        k <= policy.max_polls ==> run(start(policy), silence(k)).polls == k,
        k < policy.max_polls ==> run(start(policy), silence(k)).status == DrainStatus::Draining,
        k >= policy.max_polls ==> run(start(policy), silence(k)).status == DrainStatus::TimedOut,
    decreases k,
{
    if k > 0 {
        assert(silence(k).drop_last() =~= silence((k - 1) as nat));
        assert(silence(k).last() =~= Seq::<u8>::empty());
        lemma_silence_times_out(policy, (k - 1) as nat);
    }
}

/// Silence after a chunk: the drain goes on while fewer than
/// `quiescence_threshold` polls have come back empty, and completes at the
/// poll that makes the threshold, with the buffer as the chunk left it. By
/// then the driver has slept less than `quiescence_threshold` poll intervals.
pub proof fn lemma_quiescence_completes(m: DrainModel, k: nat)
    requires
        m.status == DrainStatus::Draining,
        m.seen,
        m.quiet == 0,
        m.policy.quiescence_threshold >= 1,
        m.polls + m.policy.quiescence_threshold <= m.policy.max_polls,
        k <= m.policy.quiescence_threshold,
    ensures
        run(m, silence(k)).buffer == m.buffer,
        run(m, silence(k)).quiet == k,
        run(m, silence(k)).polls == m.polls + k,
        run(m, silence(k)).seen,
        run(m, silence(k)).policy == m.policy,
        k < m.policy.quiescence_threshold ==> run(m, silence(k)).status == DrainStatus::Draining,
        k == m.policy.quiescence_threshold ==> run(m, silence(k)).status == DrainStatus::Complete
            && idle_ms(run(m, silence(k))) <= m.policy.quiescence_threshold
            * m.policy.poll_interval_ms,
    decreases k,
{
    if k > 0 {
        assert(silence(k).drop_last() =~= silence((k - 1) as nat));
        assert(silence(k).last() =~= Seq::<u8>::empty());
        lemma_quiescence_completes(m, (k - 1) as nat);
        if k == m.policy.quiescence_threshold {
            let t = m.policy.quiescence_threshold as nat;
            let i = m.policy.poll_interval_ms as nat;
            assert((t - 1) * i <= t * i) by (nonlinear_arith)
                requires
                    t >= 1,
            ;
        }
    }
}

/// Silence after a chunk ends the drain, whatever the policy: by the
/// `quiescence_threshold`-th empty poll the drain has completed or timed
/// out, its buffer is as the chunk left it, and the driver has slept no
/// more than `quiescence_threshold` poll intervals since the chunk.
pub proof fn lemma_silence_ends_the_drain(m: DrainModel, k: nat)
    requires
        m.status == DrainStatus::Draining,
        m.seen,
        m.quiet == 0,
        m.policy.quiescence_threshold >= 1,
        k <= m.policy.quiescence_threshold,
    ensures
        run(m, silence(k)).buffer == m.buffer,
        run(m, silence(k)).policy == m.policy,
        run(m, silence(k)).seen,
        run(m, silence(k)).quiet <= k,
        run(m, silence(k)).status == DrainStatus::Draining ==> run(m, silence(k)).quiet == k,
        k == m.policy.quiescence_threshold ==> run(m, silence(k)).status != DrainStatus::Draining,
        idle_ms(run(m, silence(k))) <= m.policy.quiescence_threshold * m.policy.poll_interval_ms,
    decreases k,
{
    if k > 0 {
        assert(silence(k).drop_last() =~= silence((k - 1) as nat));
        assert(silence(k).last() =~= Seq::<u8>::empty());
        lemma_silence_ends_the_drain(m, (k - 1) as nat);
    }
    let t = m.policy.quiescence_threshold as nat;
    let i = m.policy.poll_interval_ms as nat;
    let w = waits_since_last_chunk(run(m, silence(k)));
    assert(w * i <= t * i) by (nonlinear_arith)
        requires
            w <= t,
    ;
}

/// A socket that delivers one or more chunks and then falls silent: by the
/// `quiescence_threshold`-th empty poll after the last chunk the drain has
/// ended, for any number of chunks and under any policy.
pub proof fn lemma_chunks_then_silence_end_the_drain(policy: DrainPolicy, chunks: Seq<Seq<u8>>)
    requires
        chunks.len() >= 1,
        chunks.last().len() > 0,
        policy.quiescence_threshold >= 1,
    ensures
        run(start(policy), chunks + silence(policy.quiescence_threshold as nat)).status
            != DrainStatus::Draining,
{
    let k = policy.quiescence_threshold as nat;
    let m = run(start(policy), chunks);
    lemma_run_concat(start(policy), chunks, silence(k));
    lemma_drain_is_bounded(policy, chunks);
    if m.status == DrainStatus::Draining {
        lemma_silence_ends_the_drain(m, k);
    } else {
        lemma_finished_stays(m, silence(k));
    }
}

/// Under quiescence, chunks arriving back to back leave the drain going,
/// with the chunks joined in arrival order.
pub proof fn lemma_chunks_accumulate(policy: DrainPolicy, chunks: Seq<Seq<u8>>)
    requires
        policy.strategy == CompletionStrategy::Quiescence,
        forall|i: int| 0 <= i < chunks.len() ==> (#[trigger] chunks[i]).len() > 0,
        chunks.len() < policy.max_polls,
    ensures
        run(start(policy), chunks).status == DrainStatus::Draining,
        run(start(policy), chunks).buffer == concat_all(chunks),
        run(start(policy), chunks).polls == chunks.len(),
        run(start(policy), chunks).policy == policy,
        chunks.len() > 0 ==> run(start(policy), chunks).seen && run(start(policy), chunks).quiet
            == 0,
    decreases chunks.len(),
{
    if chunks.len() > 0 {
        lemma_chunks_accumulate(policy, chunks.drop_last());
        assert(chunks.last() == chunks[chunks.len() - 1]);
    }
}

/// A socket that delivers one or more chunks and then falls silent, drained
/// under quiescence: the drain completes at the `quiescence_threshold`-th
/// empty poll after the last chunk and not before, it holds the chunks
/// joined in arrival order, and the driver has slept no more than
/// `quiescence_threshold` poll intervals since the last chunk. This holds
/// for any number of chunks that leaves room for the quiet polls within
/// `max_polls`.
pub proof fn lemma_chunks_then_silence(policy: DrainPolicy, chunks: Seq<Seq<u8>>, k: nat)
    requires
        policy.strategy == CompletionStrategy::Quiescence,
        chunks.len() >= 1,
        forall|i: int| 0 <= i < chunks.len() ==> (#[trigger] chunks[i]).len() > 0,
        policy.quiescence_threshold >= 1,
        chunks.len() + policy.quiescence_threshold <= policy.max_polls,
        k <= policy.quiescence_threshold,
    ensures
        run(start(policy), chunks + silence(k)).buffer == concat_all(chunks),
        k < policy.quiescence_threshold ==> run(start(policy), chunks + silence(k)).status
            == DrainStatus::Draining,
        k == policy.quiescence_threshold ==> run(start(policy), chunks + silence(k)).status
            == DrainStatus::Complete && idle_ms(run(start(policy), chunks + silence(k)))
            <= policy.quiescence_threshold * policy.poll_interval_ms,
{
    lemma_chunks_accumulate(policy, chunks);
    lemma_run_concat(start(policy), chunks, silence(k));
    lemma_quiescence_completes(run(start(policy), chunks), k);
}


/// The drain of one response.
pub struct ResponseDrainer {
    policy: DrainPolicy,
    buffer: Vec<u8>,
    seen: bool,
    quiet: u64,
    polls: u64,
    status: DrainStatus,
}

impl View for ResponseDrainer {
    type V = DrainModel;

    closed spec fn view(&self) -> DrainModel {
        DrainModel {
            policy: self.policy,
            buffer: self.buffer@,
            seen: self.seen,
            quiet: self.quiet as nat,
            polls: self.polls as nat,
            status: self.status,
        }
    }
}

impl DrainPolicy {
    /// Quiescence alone decides: three quiet polls ten milliseconds apart
    /// end a drain, and no drain takes more than three thousand polls.
    pub fn standard() -> (r: Self)
        ensures
            r == (DrainPolicy {
                strategy: CompletionStrategy::Quiescence,
                quiescence_threshold: 3,
                poll_interval_ms: 10,
                max_polls: 3000,
            }),
    {
        DrainPolicy {
            strategy: CompletionStrategy::Quiescence,
            quiescence_threshold: 3,
            poll_interval_ms: 10,
            max_polls: 3000,
        }
    }
}

impl ResponseDrainer {
    /// The counters are consistent: a drain that is still going has polls
    /// left, and no more polls were quiet than were made.
    pub closed spec fn wf(&self) -> bool {
        &&& self.quiet <= self.polls
        &&& self.status == DrainStatus::Draining ==> self.polls < self.policy.max_polls
    }

    /// A drain that has not polled yet.
    pub fn new(policy: DrainPolicy) -> (r: Self)
        ensures
            r.wf(),
            r@ == start(policy),
    {
        let status = if policy.max_polls == 0 {
            DrainStatus::TimedOut
        } else {
            DrainStatus::Draining
        };
        ResponseDrainer { policy, buffer: Vec::new(), seen: false, quiet: 0, polls: 0, status }
    }

    /// Where the drain stands.
    pub fn status(&self) -> (r: DrainStatus)
        ensures
            r == self@.status,
    {
        self.status
    }

    /// The bytes received so far.
    pub fn received(&self) -> (r: &Vec<u8>)
        ensures
            r@ == self@.buffer,
    {
        &self.buffer
    }

    /// Reports one poll of the socket: `read` holds what it returned, and is
    /// empty where nothing was available. A non-empty read is appended to the
    /// buffer; an empty one counts towards quiescence once a chunk was seen.
    /// The answer says what the driver does next.
    pub fn step(&mut self, read: &[u8]) -> (action: DrainAction)
        requires
            old(self).wf(),
        ensures
            final(self).wf(),
            final(self)@ =~= next(old(self)@, read@),
            action == action_for(final(self)@, read@),
    {
        if self.status != DrainStatus::Draining {
            return match self.status {
                DrainStatus::Complete => DrainAction::Deliver,
                _ => DrainAction::GiveUp,
            };
        }
        if read.len() > 0 {
            self.buffer.extend_from_slice(read);
            assert(self.buffer@ =~= old(self)@.buffer + read@);
            self.seen = true;
            self.quiet = 0;
            let by_length = match self.policy.strategy {
                CompletionStrategy::DeclaredLength => is_length_complete(self.buffer.as_slice()),
                CompletionStrategy::Quiescence => false,
            };
            if by_length {
                self.status = DrainStatus::Complete;
                self.polls = self.polls + 1;
                DrainAction::Deliver
            } else if self.polls + 1 >= self.policy.max_polls {
                self.status = DrainStatus::TimedOut;
                self.polls = self.polls + 1;
                DrainAction::GiveUp
            } else {
                self.polls = self.polls + 1;
                DrainAction::Poll
            }
        } else {
            let quiet = self.quiet + 1;
            if self.seen && quiet >= self.policy.quiescence_threshold as u64 {
                self.status = DrainStatus::Complete;
                self.polls = self.polls + 1;
                self.quiet = quiet;
                DrainAction::Deliver
            } else if self.polls + 1 >= self.policy.max_polls {
                self.status = DrainStatus::TimedOut;
                self.polls = self.polls + 1;
                self.quiet = quiet;
                DrainAction::GiveUp
            } else {
                self.polls = self.polls + 1;
                self.quiet = quiet;
                DrainAction::Wait(self.policy.poll_interval_ms)
            }
        }
    }

    /// Ends the cycle's drain. Only a complete response is handed out; a
    /// drain that timed out, or that is given up while still going, yields
    /// `DrainTimeout` and no data.
    pub fn finish(self) -> (r: Result<Vec<u8>, TransportError>)
        ensures
            match r {
                Ok(bytes) => self@.status == DrainStatus::Complete && bytes@ == self@.buffer,
                Err(e) => self@.status != DrainStatus::Complete && e
                    == TransportError::DrainTimeout,
            },
    {
        match self.status {
            DrainStatus::Complete => Ok(self.buffer),
            _ => Err(TransportError::DrainTimeout),
        }
    }
}

} // verus!

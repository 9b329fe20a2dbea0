//! The polling loop of a broker consumer: it asks for messages from a
//! running offset, hands each non-empty batch on to be processed, and moves
//! the offset past it, so that no message is handed on twice or skipped.
//!
//! [`PollCursor`] decides; the caller polls the broker, waits and processes
//! messages as each [`PollDecision`] says.
use vstd::prelude::*;

verus! {

/// What a consumer does when a poll fails.
#[derive(PartialEq, Eq, Structural, Debug, Clone, Copy)]
pub enum OnPollError {
    /// Wait and poll the same offset again.
    Retry,
    /// Stop consuming and report the failure.
    Stop,
}

/// What the caller does after a poll.
#[derive(PartialEq, Eq, Structural, Debug, Clone, Copy)]
pub enum PollDecision {
    /// Nothing to process: wait one interval, then poll again.
    Wait,
    /// Stop consuming; the poll's error is the result.
    Stop,
    /// Process the `count` polled messages, which start at `first_offset`,
    /// then wait one interval and poll again.
    Handle { first_offset: u64, count: usize },
}

/// The decision for a poll at `offset` with outcome `polled` (`None` for a
/// failed poll, else the number of messages received).
pub open spec fn decide(on_error: OnPollError, offset: u64, polled: Option<usize>) -> PollDecision {
    match polled {
        None => if on_error == OnPollError::Retry {
            PollDecision::Wait
        } else {
            PollDecision::Stop
        },
        Some(n) => if n == 0 {
            PollDecision::Wait
        } else {
            PollDecision::Handle { first_offset: offset, count: n }
        },
    }
}

/// The offset after a poll at `offset` with outcome `polled`.
pub open spec fn advance(offset: nat, polled: Option<usize>) -> nat {
    match polled {
        None => offset,
        Some(n) => offset + n as nat,
    }
}

/// A consumer's position in a partition.
pub struct PollCursor {
    offset: u64,
    messages_per_batch: u32,
    on_error: OnPollError,
}

impl PollCursor {
    /// Offset of the next message to ask for.
    pub closed spec fn next_offset(&self) -> u64 {
        self.offset
    }

    /// Number of messages asked for in one poll.
    pub closed spec fn batch(&self) -> u32 {
        self.messages_per_batch
    }

    /// What a failed poll leads to.
    pub closed spec fn error_policy(&self) -> OnPollError {
        self.on_error
    }

    /// A cursor at the start of the partition (offset 0).
    pub fn new(messages_per_batch: u32, on_error: OnPollError) -> (c: PollCursor)
        ensures
            c.next_offset() == 0,
            c.batch() == messages_per_batch,
            c.error_policy() == on_error,
    {
        PollCursor { offset: 0, messages_per_batch, on_error }
    }

    /// Offset from which the next poll asks for messages.
    pub fn offset(&self) -> (o: u64)
        ensures
            o == self.next_offset(),
    {
        self.offset
    }

    /// Number of messages that the next poll asks for.
    pub fn messages_per_batch(&self) -> (n: u32)
        ensures
            n == self.batch(),
    {
        self.messages_per_batch
    }

    /// Takes the outcome of a poll at [`PollCursor::offset`]: `None` when it
    /// failed, else the number of messages received. The offset moves past
    /// the messages received.
    pub fn on_polled(&mut self, polled: Option<usize>) -> (d: PollDecision)
        requires
            polled matches Some(n) ==> old(self).next_offset() + n <= u64::MAX,
        ensures
            d == decide(old(self).error_policy(), old(self).next_offset(), polled),
            final(self).next_offset() as nat == advance(old(self).next_offset() as nat, polled),
            final(self).batch() == old(self).batch(),
            final(self).error_policy() == old(self).error_policy(),
            polled matches Some(n) ==> (n > 0 ==> d == PollDecision::Handle {
                first_offset: old(self).next_offset(),
                count: n,
            }),
            polled == Some(0usize) ==> d == PollDecision::Wait,
            polled is None && old(self).error_policy() == OnPollError::Retry ==> d
                == PollDecision::Wait,
            polled is None && old(self).error_policy() == OnPollError::Stop ==> d
                == PollDecision::Stop,
            polled is None ==> final(self).next_offset() == old(self).next_offset(),
    {
        match polled {
            None => match self.on_error {
                OnPollError::Retry => PollDecision::Wait,
                OnPollError::Stop => PollDecision::Stop,
            },
            Some(n) => {
                if n == 0 {
                    PollDecision::Wait
                } else {
                    let first_offset = self.offset;
                    self.offset = self.offset + n as u64;
                    PollDecision::Handle { first_offset, count: n }
                }
            },
        }
    }
}

/// Offset after a run of polls from `start`.
pub open spec fn offset_after(start: nat, polls: Seq<Option<usize>>) -> nat
    decreases polls.len(),
{
    if polls.len() == 0 {
        start
    } else {
        advance(offset_after(start, polls.drop_last()), polls.last())
    }
}

/// The message ranges (first offset, count) handed on during a run of polls
/// from `start`, in order.
pub open spec fn handled_ranges(start: nat, polls: Seq<Option<usize>>) -> Seq<(nat, nat)>
    decreases polls.len(),
{
    if polls.len() == 0 {
        Seq::empty()
    } else {
        let before = handled_ranges(start, polls.drop_last());
        let at = offset_after(start, polls.drop_last());
        match polls.last() {
            Some(n) => if n > 0 {
                before.push((at, n as nat))
            } else {
                before
            },
            None => before,
        }
    }
}

/// A poll that returns messages hands on exactly those messages, from the
/// offset the poll was made at; a poll that returns none waits; a failed
/// poll waits under the retry policy and stops under the stop policy. All of
/// this at every offset.
pub proof fn lemma_poll_decisions(on_error: OnPollError, offset: u64, n: usize)
    ensures
        n > 0 ==> decide(on_error, offset, Some(n)) == (PollDecision::Handle {
            first_offset: offset,
            count: n,
        }),
        n > 0 ==> advance(offset as nat, Some(n)) == offset + n,
        decide(on_error, offset, Some(0usize)) == PollDecision::Wait,
        advance(offset as nat, Some(0usize)) == offset,
        on_error == OnPollError::Retry ==> decide(on_error, offset, None) == PollDecision::Wait,
        on_error == OnPollError::Stop ==> decide(on_error, offset, None) == PollDecision::Stop,
        advance(offset as nat, None) == offset,
{
}

/// The ranges (first offset, count) of the `Handle` decisions taken during a
/// run of polls from `start`, in order.
pub open spec fn handle_decisions(on_error: OnPollError, start: nat, polls: Seq<Option<usize>>) -> Seq<
    (nat, nat),
>
    decreases polls.len(),
{
    if polls.len() == 0 {
        Seq::empty()
    } else {
        let before = handle_decisions(on_error, start, polls.drop_last());
        let at = offset_after(start, polls.drop_last());
        match decide(on_error, at as u64, polls.last()) {
            PollDecision::Handle { first_offset, count } => before.push(
                (first_offset as nat, count as nat),
            ),
            _ => before,
        }
    }
}

/// The offset never moves back during a run of polls.
pub proof fn lemma_offset_grows(start: nat, polls: Seq<Option<usize>>, k: int)
    requires
        0 <= k <= polls.len(),
    ensures
        start <= offset_after(start, polls.take(k)) <= offset_after(start, polls),
    decreases polls.len(),
{
    if polls.len() > 0 {
        if k == polls.len() {
            assert(polls.take(k) =~= polls);
            lemma_offset_grows(start, polls.drop_last(), k - 1);
            assert(polls.drop_last().take(k - 1) =~= polls.drop_last());
        } else {
            lemma_offset_grows(start, polls.drop_last(), k);
            assert(polls.drop_last().take(k) =~= polls.take(k));
        }
    } else {
        assert(polls.take(k) =~= polls);
    }
}

/// Over any run of polls (whose offsets fit in 64 bits), the batches the
/// cursor hands on are exactly the message ranges that the offset moves
/// past: every message that the offset passes is handed on, once, and
/// nothing else is.
pub proof fn lemma_every_passed_message_is_handled(
    on_error: OnPollError,
    start: nat,
    polls: Seq<Option<usize>>,
)
    requires
        offset_after(start, polls) <= u64::MAX,
    ensures
        handle_decisions(on_error, start, polls) == handled_ranges(start, polls),
    decreases polls.len(),
{
    if polls.len() > 0 {
        lemma_offset_grows(start, polls, polls.len() - 1);
        assert(polls.take(polls.len() - 1) =~= polls.drop_last());
        lemma_every_passed_message_is_handled(on_error, start, polls.drop_last());
        let at = offset_after(start, polls.drop_last());
        assert(at <= u64::MAX);
        assert((at as u64) as nat == at);
    }
}

/// The batches handed on during a run of polls tile the partition from the
/// starting offset: each starts where the one before ended, the first at the
/// start, and the cursor ends where the last one ends. So no message is
/// handed on twice and none is skipped.
pub proof fn lemma_batches_are_contiguous(start: nat, polls: Seq<Option<usize>>)
    ensures
        ({
            let r = handled_ranges(start, polls);
            &&& r.len() > 0 ==> r[0].0 == start
            &&& forall|i: int| 0 <= i < r.len() - 1 ==> #[trigger] r[i].0 + r[i].1 == r[i + 1].0
            &&& r.len() > 0 ==> r.last().0 + r.last().1 == offset_after(start, polls)
            &&& r.len() == 0 ==> offset_after(start, polls) == start
            &&& forall|i: int| 0 <= i < r.len() ==> (#[trigger] r[i]).1 > 0
        }),
    decreases polls.len(),
{
    if polls.len() > 0 {
        lemma_batches_are_contiguous(start, polls.drop_last());
        let before = handled_ranges(start, polls.drop_last());
        let r = handled_ranges(start, polls);
        if r.len() > before.len() {
            assert(r.drop_last() == before);
            assert forall|i: int| 0 <= i < r.len() - 1 implies #[trigger] r[i].0 + r[i].1 == r[i
                + 1].0 by {
                if i < before.len() - 1 {
                    assert(r[i] == before[i] && r[i + 1] == before[i + 1]);
                }
            }
            assert forall|i: int| 0 <= i < r.len() implies (#[trigger] r[i]).1 > 0 by {
                if i < before.len() {
                    assert(r[i] == before[i]);
                }
            }
        }
    }
}

} // verus!

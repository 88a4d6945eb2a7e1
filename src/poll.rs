//! Completion pollers. A wait repeats one status query until the device
//! reports that it is done, pausing between polls.
//!
//! The caller drives a `Poller`: it sends `query_text`, hands the reply to
//! `on_reply`, and sleeps, stops or fails as the returned step says. A reply
//! outside the documented set ends the wait with `ProtocolViolation`. With no
//! bound the wait lasts as long as the device keeps reporting progress; a
//! bound on the total pause turns a long wait into `Timeout`.
use vstd::prelude::*;
use crate::error::MauiError;
use crate::fields::{field, nth_field};
use crate::text::{same_text, text_of};

verus! {

/// Which completion a poller waits for.
#[derive(Debug, Clone, Copy, PartialEq, Eq, Structural)]
pub enum PollKind {
    /// Completion of pending operations, asked with `*OPC?`.
    OperationComplete,
    /// The end of an autosave in fill mode, asked with `STST?`.
    FillComplete,
}

/// How the device's reply to one poll is read.
#[derive(Debug, Clone, Copy, PartialEq, Eq, Structural)]
pub enum Status {
    InProgress,
    Finished,
    Invalid,
}

/// What the caller does after a poll.
#[derive(Debug, Clone, Copy, PartialEq, Eq, Structural)]
pub enum PollStep {
    /// Pause for this many microseconds, then poll again.
    Sleep(u64),
    /// The device is done.
    Done,
    /// The wait ends with this error.
    Fail(MauiError),
}

/// The state of one wait.
#[derive(Debug, Clone, Copy, PartialEq, Eq, Structural)]
pub struct Poller {
    pub kind: PollKind,
    /// Upper bound on the total pause in microseconds; `None` waits without end.
    pub max_wait_us: Option<u64>,
    /// Pause between two polls in microseconds.
    pub interval_us: u64,
    /// Total pause so far in microseconds; kept only for a bounded wait.
    pub waited_us: u64,
}

/// Pause between operation-complete polls.
pub const OPC_INTERVAL_US: u64 = 10;

/// Pause between fill-complete polls.
pub const FILL_INTERVAL_US: u64 = 50_000;

/// Index of the autosave mode in the reply to `STST?`.
pub const FILL_MODE_FIELD: usize = 3;

pub open spec fn opc_query() -> Seq<char> {
    seq!['*', 'O', 'P', 'C', '?']
}

pub open spec fn fill_query() -> Seq<char> {
    seq!['S', 'T', 'S', 'T', '?']
}

/// The status query of each kind of wait.
pub open spec fn query_of(kind: PollKind) -> Seq<char> {
    match kind {
        PollKind::OperationComplete => opc_query(),
        PollKind::FillComplete => fill_query(),
    }
}

/// How a reply reads: `*OPC?` answers `0` while busy and `1` when done;
/// `STST?` answers a comma-separated list whose fourth field is `OFF` once
/// the fill has ended.
pub open spec fn status_of(kind: PollKind, reply: Seq<char>) -> Status {
    match kind {
        PollKind::OperationComplete => {
            if reply == seq!['1'] {
                Status::Finished
            } else if reply == seq!['0'] {
                Status::InProgress
            } else {
                Status::Invalid
            }
        },
        PollKind::FillComplete => match field(reply, ',', FILL_MODE_FIELD as nat) {
            Some(mode) => if mode == seq!['O', 'F', 'F'] {
                Status::Finished
            } else {
                Status::InProgress
            },
            None => Status::Invalid,
        },
    }
}

/// The poller after one reply, and what the caller does next.
pub open spec fn poll_after(p: Poller, reply: Seq<char>) -> (Poller, PollStep) {
    match status_of(p.kind, reply) {
        Status::Finished => (p, PollStep::Done),
        Status::Invalid => (p, PollStep::Fail(MauiError::ProtocolViolation)),
        Status::InProgress => match p.max_wait_us {
            None => (p, PollStep::Sleep(p.interval_us)),
            Some(m) => if p.waited_us <= m && p.interval_us <= m - p.waited_us {
                (Poller { waited_us: (p.waited_us + p.interval_us) as u64, ..p }, PollStep::Sleep(p.interval_us))
            } else {
                (p, PollStep::Fail(MauiError::Timeout))
            },
        },
    }
}

/// Runs a wait against a list of replies: the number of queries sent and the
/// step that ended the wait, or `None` when the replies ran out first.
pub open spec fn run(p: Poller, replies: Seq<Seq<char>>) -> (nat, Option<PollStep>)
    decreases replies.len(),
{
    if replies.len() == 0 {
        (0, None)
    } else {
        let (q, step) = poll_after(p, replies[0]);
        match step {
            PollStep::Sleep(_) => {
                let (n, end) = run(q, replies.drop_first());
                (n + 1, end)
            },
            _ => (1, Some(step)),
        }
    }
}

impl PollKind {
    /// The pause between polls that this kind of wait uses by default.
    pub fn default_interval_us(&self) -> (r: u64)
        ensures
            *self == PollKind::OperationComplete ==> r == OPC_INTERVAL_US,
            *self == PollKind::FillComplete ==> r == FILL_INTERVAL_US,
    {
        match self {
            PollKind::OperationComplete => OPC_INTERVAL_US,
            PollKind::FillComplete => FILL_INTERVAL_US,
        }
    }
}

/// Reads one reply.
pub fn reply_status(kind: PollKind, reply: &str) -> (r: Status)
    ensures
        r == status_of(kind, reply@),
{
    match kind {
        PollKind::OperationComplete => {
            proof {
                reveal_strlit("1");
                reveal_strlit("0");
                assert("1"@ =~= seq!['1']);
                assert("0"@ =~= seq!['0']);
            }
            if same_text(reply, "1") {
                Status::Finished
            } else if same_text(reply, "0") {
                Status::InProgress
            } else {
                Status::Invalid
            }
        },
        PollKind::FillComplete => {
            proof {
                reveal_strlit("OFF");
                assert("OFF"@ =~= seq!['O', 'F', 'F']);
            }
            match nth_field(reply, ',', FILL_MODE_FIELD) {
                Some(mode) => if same_text(mode.as_str(), "OFF") {
                    Status::Finished
                } else {
                    Status::InProgress
                },
                None => Status::Invalid,
            }
        },
    }
}

impl Poller {
    /// A wait of the given kind with the given pause and optional bound.
    pub fn new(kind: PollKind, interval_us: u64, max_wait_us: Option<u64>) -> (r: Poller)
        ensures
            r == (Poller { kind, max_wait_us, interval_us, waited_us: 0 }),
    {
        Poller { kind, max_wait_us, interval_us, waited_us: 0 }
    }

    /// An unbounded wait with the kind's default pause.
    pub fn unbounded(kind: PollKind) -> (r: Poller)
        ensures
            r.kind == kind,
            r.max_wait_us is None,
            kind == PollKind::OperationComplete ==> r.interval_us == OPC_INTERVAL_US,
            kind == PollKind::FillComplete ==> r.interval_us == FILL_INTERVAL_US,
            r.waited_us == 0,
    {
        Poller { kind, max_wait_us: None, interval_us: kind.default_interval_us(), waited_us: 0 }
    }

    /// The status query to send for the next poll.
    pub fn query_text(&self) -> (r: String)
        ensures
            r@ == query_of(self.kind),
    {
        proof {
            reveal_strlit("*OPC?");
            reveal_strlit("STST?");
        }
        match self.kind {
            PollKind::OperationComplete => text_of("*OPC?"),
            PollKind::FillComplete => text_of("STST?"),
        }
    }

    /// Takes the device's reply to the last poll and says what to do next.
    pub fn on_reply(&mut self, reply: &str) -> (r: PollStep)
        ensures
            (*final(self), r) == poll_after(*old(self), reply@),
    {
        match reply_status(self.kind, reply) {
            Status::Finished => PollStep::Done,
            Status::Invalid => PollStep::Fail(MauiError::ProtocolViolation),
            Status::InProgress => match self.max_wait_us {
                None => PollStep::Sleep(self.interval_us),
                Some(m) => if self.waited_us <= m && self.interval_us <= m - self.waited_us {
                    self.waited_us = self.waited_us + self.interval_us;
                    PollStep::Sleep(self.interval_us)
                } else {
                    PollStep::Fail(MauiError::Timeout)
                },
            },
        }
    }
}

/// `n` replies that say the operation is still running.
pub open spec fn busy_replies(n: nat) -> Seq<Seq<char>> {
    Seq::new(n, |i: int| seq!['0'])
}

/// An unbounded operation-complete wait that sees `n` busy replies and then
/// the done reply sends exactly `n + 1` queries and ends in success, whatever
/// replies would have followed.
pub proof fn lemma_opc_terminates(p: Poller, n: nat, later: Seq<Seq<char>>)
    requires
        p.kind == PollKind::OperationComplete,
        p.max_wait_us is None,
    ensures
        run(p, busy_replies(n) + seq![seq!['1']] + later) == (n + 1, Some(PollStep::Done)),
    decreases n,
{
    let replies = busy_replies(n) + seq![seq!['1']] + later;
    if n == 0 {
        assert(replies[0] == seq!['1']);
    } else {
        assert(replies[0] == seq!['0']);
        assert(replies.drop_first() =~= busy_replies((n - 1) as nat) + seq![seq!['1']] + later);
        lemma_opc_terminates(p, (n - 1) as nat, later);
    }
}

/// An unbounded operation-complete wait that sees `n` busy replies and then
/// a reply outside the documented set fails with `ProtocolViolation` after
/// exactly `n + 1` queries, whatever replies would have followed.
pub proof fn lemma_invalid_reply_fails(p: Poller, n: nat, bad: Seq<char>, later: Seq<Seq<char>>)
    requires
        p.kind == PollKind::OperationComplete,
        p.max_wait_us is None,
        status_of(p.kind, bad) == Status::Invalid,
    ensures
        run(p, busy_replies(n) + seq![bad] + later) == (n + 1, Some(PollStep::Fail(MauiError::ProtocolViolation))),
    decreases n,
{
    let replies = busy_replies(n) + seq![bad] + later;
    if n == 0 {
        assert(replies[0] == bad);
    } else {
        assert(replies[0] == seq!['0']);
        assert(replies.drop_first() =~= busy_replies((n - 1) as nat) + seq![bad] + later);
        lemma_invalid_reply_fails(p, (n - 1) as nat, bad, later);
    }
}

/// A bounded wait never pauses longer in total than its bound.
pub proof fn lemma_bounded_wait(p: Poller, reply: Seq<char>)
    requires
        p.max_wait_us is Some,
        p.waited_us <= p.max_wait_us->Some_0,
    ensures
        poll_after(p, reply).0.waited_us <= p.max_wait_us->Some_0,
{
}

} // verus!

//! Navigation history and current-load state for one session.
//!
//! The controller owns the back/forward stack (`entries`, `cursor`) and the
//! in-flight load, identified by a monotonically increasing sequence number.
//! Each command validates against the current state and, when legal, hands
//! back a [`LoadCommand`] describing what the external loading engine should
//! do; the controller itself never performs I/O.

use vstd::prelude::*;

verus! {

use crate::errors::NavError;

/// The stack after discarding every entry past the cursor: all forward
/// entries abandoned by going back are dropped before a new visit is
/// recorded (standard browser semantics).
pub open spec fn truncated(urls: Seq<Seq<char>>, cursor: int) -> Seq<Seq<char>> {
    if urls.len() == 0 {
        Seq::<Seq<char>>::empty()
    } else {
        urls.take(cursor + 1)
    }
}

/// The stack after a `navigate` to `url` from a state with the given stack
/// and cursor: forward entries are discarded, then `url` is appended.
pub open spec fn navigated(urls: Seq<Seq<char>>, cursor: int, url: Seq<char>) -> Seq<Seq<char>> {
    truncated(urls, cursor).push(url)
}

/// Everything a `navigate` to `url` does: forward entries are discarded and
/// `url` becomes the new current (last) entry, and a fresh load for it is
/// issued, cancelling any pending one.
pub open spec fn navigated_to(
    pre: NavigationController,
    post: NavigationController,
    url: Seq<char>,
    cmd: LoadCommand,
) -> bool {
    &&& post.urls() == navigated(pre.urls(), pre.cursor as int, url)
    &&& post.cursor as int == post.urls().len() - 1
    &&& post.urls()[post.cursor as int] == url
    &&& post.next_seq == pre.next_seq + 1
    &&& post.phase == LoadPhase::Loading(cmd.seq)
    &&& cmd.seq == pre.next_seq
    &&& cmd.url@ == url
    &&& cmd.cancelled == pre.spec_pending()
}

/// Everything a successful `go_back` does: the stack is untouched, the
/// cursor moves one entry back, and a fresh load for the new current entry
/// is issued, cancelling any pending one.
pub open spec fn went_back(pre: NavigationController, post: NavigationController, cmd: LoadCommand) -> bool {
    &&& post.entries == pre.entries
    &&& post.cursor == pre.cursor - 1
    &&& post.next_seq == pre.next_seq + 1
    &&& post.phase == LoadPhase::Loading(cmd.seq)
    &&& cmd.seq == pre.next_seq
    &&& cmd.url == pre.entries@[pre.cursor - 1]
    &&& cmd.cancelled == pre.spec_pending()
}

/// Everything a successful `go_forward` does, symmetric to [`went_back`].
pub open spec fn went_forward(pre: NavigationController, post: NavigationController, cmd: LoadCommand) -> bool {
    &&& post.entries == pre.entries
    &&& post.cursor == pre.cursor + 1
    &&& post.next_seq == pre.next_seq + 1
    &&& post.phase == LoadPhase::Loading(cmd.seq)
    &&& cmd.seq == pre.next_seq
    &&& cmd.url == pre.entries@[pre.cursor + 1]
    &&& cmd.cancelled == pre.spec_pending()
}

/// Everything a successful `reload` does: stack and cursor are untouched,
/// and a fresh load for the current entry is issued, cancelling any pending
/// one.
pub open spec fn reloaded(pre: NavigationController, post: NavigationController, cmd: LoadCommand) -> bool {
    &&& post.entries == pre.entries
    &&& post.cursor == pre.cursor
    &&& post.next_seq == pre.next_seq + 1
    &&& post.phase == LoadPhase::Loading(cmd.seq)
    &&& cmd.seq == pre.next_seq
    &&& cmd.url == pre.entries@[pre.cursor as int]
    &&& cmd.cancelled == pre.spec_pending()
}

/// Current-load state of the controller.
#[derive(Debug, Clone, Copy, PartialEq, Eq, Structural)]
pub enum LoadPhase {
    /// No load in flight; the last honored load (if any) succeeded.
    Idle,
    /// A load with the given sequence number is in flight.
    Loading(u64),
    /// The last honored load completed with a failure; history is intact.
    Failed,
}

/// Outcome reported by the external loading engine for a completed load.
#[derive(Debug, Clone, Copy, PartialEq, Eq, Structural)]
pub enum LoadOutcome {
    /// The document loaded and rendered.
    Success,
    /// The load failed; the session may retry or navigate elsewhere.
    Failure,
}

/// Instruction for the external loading engine, produced by a successful
/// navigation command: cancel `cancelled` (if any) and start loading `url`
/// under sequence number `seq`.
#[derive(Debug, Clone, PartialEq, Eq)]
pub struct LoadCommand {
    /// Sequence number identifying the new load.
    pub seq: u64,
    /// Location to load.
    pub url: String,
    /// Sequence number of the superseded in-flight load, to be abandoned.
    pub cancelled: Option<u64>,
}

/// Back/forward stack and current-load state for one session.
pub struct NavigationController {
    /// Visited locations, in visit order.
    pub entries: Vec<String>,
    /// Index of the current location; meaningful only when `entries` is
    /// non-empty, pinned to 0 otherwise.
    pub cursor: usize,
    /// Sequence number the next issued load will carry.
    pub next_seq: u64,
    /// Current-load state; `Loading(s)` is the single pending load.
    pub phase: LoadPhase,
}

impl NavigationController {
    /// The history stack as a sequence of character sequences.
    pub open spec fn urls(&self) -> Seq<Seq<char>> {
        Seq::new(self.entries@.len(), |i: int| self.entries@[i]@)
    }

    /// Sequence number of the pending load, if one is in flight.
    pub open spec fn spec_pending(&self) -> Option<u64> {
        match self.phase {
            LoadPhase::Loading(s) => Some(s),
            _ => None,
        }
    }

    /// Structural invariant: the cursor stays inside the stack, and every
    /// sequence number ever issued is below `next_seq`.
    pub open spec fn wf(&self) -> bool {
        &&& self.entries@.len() == 0 ==> self.cursor == 0
        &&& self.entries@.len() > 0 ==> (self.cursor as int) < self.entries@.len()
        &&& self.next_seq >= 1
        &&& match self.phase {
            LoadPhase::Loading(s) => s < self.next_seq,
            _ => true,
        }
    }

    /// An empty history: no entries, no pending load.
    pub fn new() -> (c: NavigationController)
        ensures
            c.wf(),
            c.urls() =~= Seq::<Seq<char>>::empty(),
            c.cursor == 0,
            c.next_seq == 1,
            c.phase == LoadPhase::Idle,
    {
        NavigationController {
            entries: Vec::new(),
            cursor: 0,
            next_seq: 1,
            phase: LoadPhase::Idle,
        }
    }

    /// Visit `url`: cancel any pending load, discard forward entries, append
    /// `url` as the new current entry, and start a load for it under a fresh
    /// sequence number. Always legal.
    pub fn navigate(&mut self, url: &str) -> (cmd: LoadCommand)
        requires
            old(self).wf(),
            old(self).next_seq < u64::MAX,
        ensures
            final(self).wf(),
            navigated_to(*old(self), *final(self), url@, cmd),
    {
        let ghost pre = *self;
        let cancelled = match self.phase {
            LoadPhase::Loading(s) => Some(s),
            _ => None,
        };
        let seq = self.next_seq;
        self.next_seq = seq + 1;
        if self.entries.len() > 0 {
            self.entries.truncate(self.cursor + 1);
        }
        self.entries.push(url.to_owned());
        self.cursor = self.entries.len() - 1;
        self.phase = LoadPhase::Loading(seq);
        proof {
            assert(self.urls() =~= navigated(pre.urls(), pre.cursor as int, url@));
        }
        LoadCommand { seq, url: url.to_owned(), cancelled }
    }

    /// Whether `go_back` is legal: an entry exists before the cursor.
    pub open spec fn can_go_back(&self) -> bool {
        self.cursor > 0
    }

    /// Whether `go_forward` is legal: an entry exists after the cursor.
    pub open spec fn can_go_forward(&self) -> bool {
        self.entries@.len() > 0 && (self.cursor as int) < self.entries@.len() - 1
    }

    /// Whether `reload` is legal: the history is non-empty.
    pub open spec fn can_reload(&self) -> bool {
        self.entries@.len() > 0
    }

    /// Move the cursor one entry back and load that entry, cancelling any
    /// pending load. Fails with `NoHistory`, changing nothing, when no entry
    /// precedes the cursor.
    pub fn go_back(&mut self) -> (r: Result<LoadCommand, NavError>)
        requires
            old(self).wf(),
            old(self).next_seq < u64::MAX,
        ensures
            final(self).wf(),
            !old(self).can_go_back() ==> r == Err::<LoadCommand, NavError>(NavError::NoHistory)
                && *final(self) == *old(self),
            old(self).can_go_back() ==> (r matches Ok(cmd) && went_back(
                *old(self),
                *final(self),
                cmd,
            )),
    {
        if self.cursor == 0 {
            return Err(NavError::NoHistory);
        }
        let cancelled = match self.phase {
            LoadPhase::Loading(s) => Some(s),
            _ => None,
        };
        let seq = self.next_seq;
        self.next_seq = seq + 1;
        self.cursor = self.cursor - 1;
        let url = self.entries[self.cursor].clone();
        self.phase = LoadPhase::Loading(seq);
        Ok(LoadCommand { seq, url, cancelled })
    }

    /// Move the cursor one entry forward and load that entry, cancelling any
    /// pending load. Fails with `NoHistory`, changing nothing, when no entry
    /// follows the cursor.
    pub fn go_forward(&mut self) -> (r: Result<LoadCommand, NavError>)
        requires
            old(self).wf(),
            old(self).next_seq < u64::MAX,
        ensures
            final(self).wf(),
            !old(self).can_go_forward() ==> r == Err::<LoadCommand, NavError>(NavError::NoHistory)
                && *final(self) == *old(self),
            old(self).can_go_forward() ==> (r matches Ok(cmd) && went_forward(
                *old(self),
                *final(self),
                cmd,
            )),
    {
        if self.entries.len() == 0 || self.cursor + 1 >= self.entries.len() {
            return Err(NavError::NoHistory);
        }
        let cancelled = match self.phase {
            LoadPhase::Loading(s) => Some(s),
            _ => None,
        };
        let seq = self.next_seq;
        self.next_seq = seq + 1;
        self.cursor = self.cursor + 1;
        let url = self.entries[self.cursor].clone();
        self.phase = LoadPhase::Loading(seq);
        Ok(LoadCommand { seq, url, cancelled })
    }

    /// Re-issue a load for the current entry without touching the stack,
    /// cancelling any pending load. Fails with `NoHistory`, changing
    /// nothing, when the history is empty.
    pub fn reload(&mut self) -> (r: Result<LoadCommand, NavError>)
        requires
            old(self).wf(),
            old(self).next_seq < u64::MAX,
        ensures
            final(self).wf(),
            !old(self).can_reload() ==> r == Err::<LoadCommand, NavError>(NavError::NoHistory)
                && *final(self) == *old(self),
            old(self).can_reload() ==> (r matches Ok(cmd) && reloaded(
                *old(self),
                *final(self),
                cmd,
            )),
    {
        if self.entries.len() == 0 {
            return Err(NavError::NoHistory);
        }
        let cancelled = match self.phase {
            LoadPhase::Loading(s) => Some(s),
            _ => None,
        };
        let seq = self.next_seq;
        self.next_seq = seq + 1;
        let url = self.entries[self.cursor].clone();
        self.phase = LoadPhase::Loading(seq);
        Ok(LoadCommand { seq, url, cancelled })
    }

    /// Cancel the pending load, if any, and return its sequence number;
    /// otherwise change nothing. Never fails.
    pub fn stop(&mut self) -> (cancelled: Option<u64>)
        requires
            old(self).wf(),
        ensures
            final(self).wf(),
            cancelled == old(self).spec_pending(),
            (old(self).spec_pending() is Some) ==> *final(self) == (NavigationController {
                phase: LoadPhase::Idle,
                ..*old(self)
            }),
            (old(self).spec_pending() is None) ==> *final(self) == *old(self),
    {
        match self.phase {
            LoadPhase::Loading(s) => {
                self.phase = LoadPhase::Idle;
                Some(s)
            },
            _ => None,
        }
    }

    /// Apply a completion `(seq, outcome)` reported by the external loading
    /// engine. It is honored only when `seq` identifies the pending load;
    /// a completion bearing a stale sequence number is silently dropped, so
    /// at most one outcome is ever observed per issued load.
    pub fn complete_load(&mut self, seq: u64, outcome: LoadOutcome) -> (honored: bool)
        requires
            old(self).wf(),
        ensures
            final(self).wf(),
            honored == (old(self).spec_pending() == Some(seq)),
            !honored ==> *final(self) == *old(self),
            honored ==> *final(self) == (NavigationController {
                phase: match outcome {
                    LoadOutcome::Success => LoadPhase::Idle,
                    LoadOutcome::Failure => LoadPhase::Failed,
                },
                ..*old(self)
            }),
    {
        let honored = match self.phase {
            LoadPhase::Loading(s) => s == seq,
            _ => false,
        };
        if honored {
            self.phase = match outcome {
                LoadOutcome::Success => LoadPhase::Idle,
                LoadOutcome::Failure => LoadPhase::Failed,
            };
        }
        honored
    }
}

/// The stack that results from navigating, in order, to each location of
/// `us`, starting from an empty history. After every `navigate` the cursor
/// sits on the last entry, so each step truncates nothing and appends one
/// entry.
pub open spec fn entries_after(us: Seq<Seq<char>>) -> Seq<Seq<char>>
    decreases us.len(),
{
    if us.len() == 0 {
        Seq::<Seq<char>>::empty()
    } else {
        let prev = entries_after(us.drop_last());
        navigated(prev, prev.len() - 1, us.last())
    }
}

/// Law: navigating `u1 .. uk` in order from an empty history visits exactly
/// `u1 .. uk` — the stack equals the visited sequence in order, and the
/// cursor (pinned to the last index by every `navigate`) points at the most
/// recently visited entry.
pub proof fn lemma_navigation_preserves_visit_order(us: Seq<Seq<char>>)
    ensures
        entries_after(us) == us,
    decreases us.len(),
{
    if us.len() == 0 {
        assert(entries_after(us) =~= us);
    } else {
        lemma_navigation_preserves_visit_order(us.drop_last());
        assert(entries_after(us) =~= us);
    }
}

/// Law: `go_back` followed immediately by `go_forward`, with no command in
/// between, restores the cursor and the current entry exactly; moreover the
/// forward move cannot fail after a successful back.
pub proof fn lemma_back_forward_round_trip(
    s0: NavigationController,
    s1: NavigationController,
    s2: NavigationController,
    cmd1: LoadCommand,
    cmd2: LoadCommand,
)
    requires
        s0.wf(),
        s0.can_go_back(),
        went_back(s0, s1, cmd1),
        went_forward(s1, s2, cmd2),
    ensures
        s1.can_go_forward(),
        s2.cursor == s0.cursor,
        s2.entries == s0.entries,
        s2.urls()[s2.cursor as int] == s0.urls()[s0.cursor as int],
        cmd2.url == s0.entries@[s0.cursor as int],
{
}

/// Law: a `navigate` issued while the cursor is not on the last entry
/// discards every entry past the cursor — the new stack holds exactly the
/// first `cursor + 1` old entries followed by the new one.
pub proof fn lemma_navigate_discards_forward_entries(
    s0: NavigationController,
    s1: NavigationController,
    url: Seq<char>,
    cmd: LoadCommand,
)
    requires
        s0.wf(),
        s0.entries@.len() > 0,
        (s0.cursor as int) < s0.entries@.len() - 1,
        navigated_to(s0, s1, url, cmd),
    ensures
        s1.urls().len() == s0.cursor + 2,
        forall|i: int| 0 <= i <= s0.cursor ==> s1.urls()[i] == s0.urls()[i],
        s1.urls()[s0.cursor + 1] == url,
{
}

/// Law: discarding the entries past the cursor is idempotent — truncating
/// an already-truncated stack at the same cursor changes nothing.
pub proof fn lemma_truncation_idempotent(urls: Seq<Seq<char>>, cursor: int)
    requires
        urls.len() == 0 || 0 <= cursor < urls.len(),
    ensures
        truncated(truncated(urls, cursor), cursor) == truncated(urls, cursor),
{
    assert(truncated(truncated(urls, cursor), cursor) =~= truncated(urls, cursor));
}

/// Law: a navigation command supersedes the pending load — the fresh
/// sequence number differs from the cancelled one, so a completion bearing
/// the stale number arriving afterwards is dropped by `complete_load`, and
/// only the new load's outcome is ever observable.
pub proof fn lemma_stale_completion_ignored(
    s0: NavigationController,
    s1: NavigationController,
    url: Seq<char>,
    cmd: LoadCommand,
    old_seq: u64,
)
    requires
        s0.wf(),
        s0.spec_pending() == Some(old_seq),
        navigated_to(s0, s1, url, cmd),
    ensures
        cmd.cancelled == Some(old_seq),
        s1.spec_pending() == Some(cmd.seq),
        cmd.seq != old_seq,
        s1.spec_pending() != Some(old_seq),
{
}

} // verus!

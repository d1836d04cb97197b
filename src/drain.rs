//! The shutdown drain: a three-state machine that, after the entry function
//! returns, rescans the thread registry until no sibling thread of the
//! application is left. The caller performs each action the machine asks for
//! (enumerate, sleep) and hands back what came of it.
use vstd::prelude::*;

use crate::thread::{is_service_name, is_service_name_spec, Snapshot, ThreadDescriptor, ThreadHandle};

verus! {

/// How long a `Waiting` drain sleeps before it scans again, in milliseconds.
pub const POLL_INTERVAL_MS: u32 = 10;

#[derive(Clone, Copy, Debug, PartialEq, Eq, Structural)]
pub enum DrainState {
    /// About to enumerate the registry and look for a sibling.
    Scanning,
    /// A sibling was seen; about to sleep before the next pass.
    Waiting,
    /// A full pass found no sibling; the drain is over.
    Done,
}

/// What the caller of a drain has to do next.
#[derive(Clone, Copy, Debug, PartialEq, Eq, Structural)]
pub enum DrainAction {
    /// Enumerate the live threads and hand the snapshot to `on_snapshot`.
    Enumerate,
    /// Sleep for `ms` milliseconds, then call `on_slept`.
    Sleep { ms: u32 },
    /// Nothing is left to wait for.
    Finish,
}

pub open spec fn action_for(state: DrainState) -> DrainAction {
    match state {
        DrainState::Scanning => DrainAction::Enumerate,
        DrainState::Waiting => DrainAction::Sleep { ms: POLL_INTERVAL_MS },
        DrainState::Done => DrainAction::Finish,
    }
}

/// A thread still to be waited for: not the caller itself, of the caller's
/// application, and not a system service.
pub open spec fn qualifies(self_handle: ThreadHandle, app_tag: Seq<u8>, d: ThreadDescriptor) -> bool {
    &&& d.handle != self_handle
    &&& d.app_tag@ == app_tag
    &&& !is_service_name_spec(d.name@)
}

pub open spec fn has_sibling(
    self_handle: ThreadHandle,
    app_tag: Seq<u8>,
    threads: Seq<ThreadDescriptor>,
) -> bool {
    exists|i: int| 0 <= i < threads.len() && qualifies(self_handle, app_tag, #[trigger] threads[i])
}

/// The state that a scan of `threads` leads to.
pub open spec fn state_after_scan(
    self_handle: ThreadHandle,
    app_tag: Seq<u8>,
    threads: Seq<ThreadDescriptor>,
) -> DrainState {
    if has_sibling(self_handle, app_tag, threads) {
        DrainState::Waiting
    } else {
        DrainState::Done
    }
}

/// The number of sleeps a drain makes when its passes see `passes` in turn,
/// or `None` when no pass among them ends the drain.
pub open spec fn waits_until_done(
    self_handle: ThreadHandle,
    app_tag: Seq<u8>,
    passes: Seq<Seq<ThreadDescriptor>>,
) -> Option<nat>
    decreases passes.len(),
{
    if passes.len() == 0 {
        None
    } else if state_after_scan(self_handle, app_tag, passes[0]) == DrainState::Done {
        Some(0)
    } else {
        match waits_until_done(self_handle, app_tag, passes.drop_first()) {
            Some(n) => Some(n + 1),
            None => None,
        }
    }
}

/// Whether two byte strings are equal.
fn bytes_equal(a: &[u8], b: &[u8]) -> (r: bool)
    ensures
        r == (a@ == b@),
{
    if a.len() != b.len() {
        return false;
    }
    let mut i: usize = 0;
    while i < a.len()
        invariant
            a@.len() == b@.len(),
            i <= a@.len(),
            forall|j: int| 0 <= j < i ==> a@[j] == b@[j],
        decreases a@.len() - i,
    {
        if a[i] != b[i] {
            return false;
        }
        i = i + 1;
    }
    assert(a@ =~= b@);
    true
}

/// The drain of one application: who the caller is, which application it
/// belongs to, and where the drain stands.
pub struct Drainer {
    self_handle: ThreadHandle,
    app_tag: Vec<u8>,
    state: DrainState,
}

impl Drainer {
    pub closed spec fn self_handle_spec(&self) -> ThreadHandle {
        self.self_handle
    }

    pub closed spec fn app_tag_spec(&self) -> Seq<u8> {
        self.app_tag@
    }

    pub closed spec fn state_spec(&self) -> DrainState {
        self.state
    }

    /// A drain for the thread `self_handle` of the application tagged
    /// `app_tag`; it starts by scanning.
    pub fn new(self_handle: ThreadHandle, app_tag: Vec<u8>) -> (r: Drainer)
        ensures
            r.self_handle_spec() == self_handle,
            r.app_tag_spec() == app_tag@,
            r.state_spec() == DrainState::Scanning,
    {
        Drainer { self_handle, app_tag, state: DrainState::Scanning }
    }

    pub fn state(&self) -> (r: DrainState)
        ensures
            r == self.state_spec(),
    {
        self.state
    }

    pub fn self_handle(&self) -> (r: ThreadHandle)
        ensures
            r == self.self_handle_spec(),
    {
        self.self_handle
    }

    pub fn app_tag(&self) -> (r: &[u8])
        ensures
            r@ == self.app_tag_spec(),
    {
        self.app_tag.as_slice()
    }

    /// What the caller has to do next.
    pub fn next_action(&self) -> (r: DrainAction)
        ensures
            r == action_for(self.state_spec()),
    {
        match self.state {
            DrainState::Scanning => DrainAction::Enumerate,
            DrainState::Waiting => DrainAction::Sleep { ms: POLL_INTERVAL_MS },
            DrainState::Done => DrainAction::Finish,
        }
    }

    /// Whether `d` is a thread that the drain has to wait for.
    pub fn qualifies(&self, d: &ThreadDescriptor) -> (r: bool)
        ensures
            r == qualifies(self.self_handle_spec(), self.app_tag_spec(), *d),
    {
        if d.handle == self.self_handle {
            return false;
        }
        if !bytes_equal(d.app_tag.as_slice(), self.app_tag.as_slice()) {
            return false;
        }
        !is_service_name(d.name.as_slice())
    }

    /// The position of the first thread of `snap` to wait for, if any.
    pub fn find_sibling(&self, snap: &Snapshot) -> (r: Option<usize>)
        ensures
            match r {
                Some(i) => {
                    &&& i < snap@.len()
                    &&& qualifies(self.self_handle_spec(), self.app_tag_spec(), snap@[i as int])
                    &&& forall|j: int|
                        0 <= j < i ==> !qualifies(
                            self.self_handle_spec(),
                            self.app_tag_spec(),
                            #[trigger] snap@[j],
                        )
                },
                None => !has_sibling(self.self_handle_spec(), self.app_tag_spec(), snap@),
            },
    {
        let n = snap.len();
        let mut i: usize = 0;
        while i < n
            invariant
                n == snap@.len(),
                i <= n,
                forall|j: int|
                    0 <= j < i ==> !qualifies(
                        self.self_handle_spec(),
                        self.app_tag_spec(),
                        #[trigger] snap@[j],
                    ),
            decreases n - i,
        {
            if self.qualifies(snap.get(i)) {
                return Some(i);
            }
            i = i + 1;
        }
        None
    }

    /// Ends a scan: a snapshot with a sibling in it leads to `Waiting`, one
    /// without to `Done`.
    pub fn on_snapshot(&mut self, snap: &Snapshot) -> (r: DrainAction)
        requires
            old(self).state_spec() == DrainState::Scanning,
        ensures
            final(self).self_handle_spec() == old(self).self_handle_spec(),
            final(self).app_tag_spec() == old(self).app_tag_spec(),
            final(self).state_spec() == state_after_scan(
                old(self).self_handle_spec(),
                old(self).app_tag_spec(),
                snap@,
            ),
            r == action_for(final(self).state_spec()),
    {
        match self.find_sibling(snap) {
            Some(_) => {
                self.state = DrainState::Waiting;
                DrainAction::Sleep { ms: POLL_INTERVAL_MS }
            },
            None => {
                self.state = DrainState::Done;
                DrainAction::Finish
            },
        }
    }

    /// Ends a sleep: the next pass scans afresh.
    pub fn on_slept(&mut self) -> (r: DrainAction)
        requires
            old(self).state_spec() == DrainState::Waiting,
        ensures
            final(self).self_handle_spec() == old(self).self_handle_spec(),
            final(self).app_tag_spec() == old(self).app_tag_spec(),
            final(self).state_spec() == DrainState::Scanning,
            r == DrainAction::Enumerate,
    {
        self.state = DrainState::Scanning;
        DrainAction::Enumerate
    }
}

/// A pass whose snapshot holds no thread to wait for ends the drain at once:
/// one scan, no sleep.
pub proof fn lemma_clear_pass_finishes(
    self_handle: ThreadHandle,
    app_tag: Seq<u8>,
    passes: Seq<Seq<ThreadDescriptor>>,
)
    requires
        passes.len() > 0,
        forall|i: int|
            0 <= i < passes[0].len() ==> !qualifies(self_handle, app_tag, #[trigger] passes[0][i]),
    ensures
        state_after_scan(self_handle, app_tag, passes[0]) == DrainState::Done,
        waits_until_done(self_handle, app_tag, passes) == Some(0nat),
{
}

/// When the only thread to wait for is `t`, present in the first pass, the
/// drain sleeps at least once and ends on the first pass that no longer lists
/// `t`, provided no other sibling appears meanwhile.
pub proof fn lemma_single_sibling_drains(
    self_handle: ThreadHandle,
    app_tag: Seq<u8>,
    passes: Seq<Seq<ThreadDescriptor>>,
    t: ThreadHandle,
    k: int,
)
    requires
        0 < k < passes.len(),
        forall|j: int, i: int|
            0 <= j <= k && 0 <= i < passes[j].len() && qualifies(
                self_handle,
                app_tag,
                #[trigger] passes[j][i],
            ) ==> passes[j][i].handle == t,
        forall|j: int| 0 <= j < k ==> has_sibling(self_handle, app_tag, #[trigger] passes[j]),
        forall|i: int| 0 <= i < passes[k].len() ==> (#[trigger] passes[k][i]).handle != t,
    ensures
        state_after_scan(self_handle, app_tag, passes[0]) == DrainState::Waiting,
        waits_until_done(self_handle, app_tag, passes) == Some(k as nat),
    decreases k,
{
    assert(!has_sibling(self_handle, app_tag, passes[k])) by {
        assert forall|i: int| 0 <= i < passes[k].len() implies !qualifies(
            self_handle,
            app_tag,
            #[trigger] passes[k][i],
        ) by {
            assert(passes[k][i].handle != t);
        }
    }
    let rest = passes.drop_first();
    if k > 1 {
        assert forall|j: int, i: int|
            0 <= j <= k - 1 && 0 <= i < rest[j].len() && qualifies(
                self_handle,
                app_tag,
                #[trigger] rest[j][i],
            ) implies rest[j][i].handle == t by {
            assert(rest[j] == passes[j + 1]);
        }
        assert forall|j: int| 0 <= j < k - 1 implies has_sibling(
            self_handle,
            app_tag,
            #[trigger] rest[j],
        ) by {
            assert(rest[j] == passes[j + 1]);
        }
        assert(rest[k - 1] == passes[k]);
        lemma_single_sibling_drains(self_handle, app_tag, rest, t, k - 1);
    } else {
        assert(rest[0] == passes[1]);
    }
}

/// Adding a thread that does not qualify to a snapshot, anywhere in it,
/// leaves the outcome of the scan unchanged.
proof fn lemma_insert_unqualified(
    self_handle: ThreadHandle,
    app_tag: Seq<u8>,
    threads: Seq<ThreadDescriptor>,
    i: int,
    d: ThreadDescriptor,
)
    requires
        0 <= i <= threads.len(),
        !qualifies(self_handle, app_tag, d),
    ensures
        state_after_scan(self_handle, app_tag, threads.insert(i, d)) == state_after_scan(
            self_handle,
            app_tag,
            threads,
        ),
{
    let s = threads.insert(i, d);
    if has_sibling(self_handle, app_tag, s) {
        let j = choose|j: int| 0 <= j < s.len() && qualifies(self_handle, app_tag, #[trigger] s[j]);
        if j < i {
            assert(s[j] == threads[j]);
        } else {
            assert(j != i);
            assert(s[j] == threads[j - 1]);
        }
    }
    if has_sibling(self_handle, app_tag, threads) {
        let j = choose|j: int|
            0 <= j < threads.len() && qualifies(self_handle, app_tag, #[trigger] threads[j]);
        if j < i {
            assert(s[j] == threads[j]);
        } else {
            assert(s[j + 1] == threads[j]);
        }
    }
}

/// A thread whose name ends in `Srv` is never waited for, whatever its tag,
/// and whatever else the snapshot holds.
pub proof fn lemma_service_thread_ignored(
    self_handle: ThreadHandle,
    app_tag: Seq<u8>,
    threads: Seq<ThreadDescriptor>,
    i: int,
    d: ThreadDescriptor,
)
    requires
        0 <= i <= threads.len(),
        is_service_name_spec(d.name@),
    ensures
        !qualifies(self_handle, app_tag, d),
        state_after_scan(self_handle, app_tag, threads.insert(i, d)) == state_after_scan(
            self_handle,
            app_tag,
            threads,
        ),
{
    lemma_insert_unqualified(self_handle, app_tag, threads, i, d);
}

/// The caller's own thread is never waited for, whatever its tag and name,
/// and whatever else the snapshot holds.
pub proof fn lemma_own_thread_ignored(
    self_handle: ThreadHandle,
    app_tag: Seq<u8>,
    threads: Seq<ThreadDescriptor>,
    i: int,
    d: ThreadDescriptor,
)
    requires
        0 <= i <= threads.len(),
        d.handle == self_handle,
    ensures
        !qualifies(self_handle, app_tag, d),
        state_after_scan(self_handle, app_tag, threads.insert(i, d)) == state_after_scan(
            self_handle,
            app_tag,
            threads,
        ),
{
    lemma_insert_unqualified(self_handle, app_tag, threads, i, d);
}

} // verus!

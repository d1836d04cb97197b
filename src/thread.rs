//! What the drain knows of one live thread.
use vstd::prelude::*;

verus! {

/// Identifies a live thread, as the thread registry reports it.
#[derive(Clone, Copy, Debug, PartialEq, Eq, Structural)]
pub struct ThreadHandle {
    pub id: usize,
}

/// The last three bytes of a service thread's name.
pub open spec fn service_suffix() -> Seq<u8> {
    seq![83u8, 114u8, 118u8]
}

/// A name that ends in `Srv` marks a thread that the system itself runs.
pub open spec fn is_service_name_spec(name: Seq<u8>) -> bool {
    name.len() >= 3 && name.subrange(name.len() - 3, name.len() as int) == service_suffix()
}

/// Whether `name` ends in `Srv`.
pub fn is_service_name(name: &[u8]) -> (r: bool)
    ensures
        r == is_service_name_spec(name@),
{
    let n = name.len();
    if n < 3 {
        return false;
    }
    let r = name[n - 3] == 83u8 && name[n - 2] == 114u8 && name[n - 1] == 118u8;
    proof {
        let tail = name@.subrange(n - 3, n as int);
        if r {
            assert(tail =~= service_suffix());
        } else {
            assert(tail[0] != 83u8 || tail[1] != 114u8 || tail[2] != 118u8);
        }
    }
    r
}

} // verus!

verus! {

/// The number of handles that one enumeration of the registry can hold.
pub const MAX_THREADS: usize = 32;

/// One live thread as a single enumeration saw it: its handle, the tag of the
/// application it belongs to and its name.
pub struct ThreadDescriptor {
    pub handle: ThreadHandle,
    pub app_tag: Vec<u8>,
    pub name: Vec<u8>,
}

impl ThreadDescriptor {
    pub fn new(handle: ThreadHandle, app_tag: Vec<u8>, name: Vec<u8>) -> (r: ThreadDescriptor)
        ensures
            r.handle == handle,
            r.app_tag@ == app_tag@,
            r.name@ == name@,
    {
        ThreadDescriptor { handle, app_tag, name }
    }
}

/// The threads of one enumeration, at most `MAX_THREADS` of them, in the order
/// the registry listed them, with the number of threads the registry counted.
/// Threads listed past the capacity are dropped, not detected: a pass over a
/// truncated snapshot does not see them.
pub struct Snapshot {
    threads: Vec<ThreadDescriptor>,
    live_count: usize,
}

impl View for Snapshot {
    type V = Seq<ThreadDescriptor>;

    closed spec fn view(&self) -> Seq<ThreadDescriptor> {
        self.threads@
    }
}

impl Snapshot {
    pub closed spec fn wf(&self) -> bool {
        self.threads@.len() <= MAX_THREADS
    }

    /// The number of live threads that the registry reported.
    pub closed spec fn live_count_spec(&self) -> nat {
        self.live_count as nat
    }

    /// Keeps the first `MAX_THREADS` of `listed`, in order.
    pub fn new(listed: Vec<ThreadDescriptor>, live_count: usize) -> (r: Snapshot)
        ensures
            r.wf(),
            listed@.len() <= MAX_THREADS ==> r@ == listed@,
            listed@.len() > MAX_THREADS ==> r@ == listed@.take(MAX_THREADS as int),
            r.live_count_spec() == live_count,
    {
        let mut threads = listed;
        threads.truncate(MAX_THREADS);
        Snapshot { threads, live_count }
    }

    pub fn len(&self) -> (r: usize)
        ensures
            r == self@.len(),
    {
        self.threads.len()
    }

    pub fn get(&self, i: usize) -> (r: &ThreadDescriptor)
        requires
            i < self@.len(),
        ensures
            *r == self@[i as int],
    {
        &self.threads[i]
    }

    pub fn live_count(&self) -> (r: usize)
        ensures
            r == self.live_count_spec(),
    {
        self.live_count
    }

    /// Whether the registry counted more threads than this snapshot holds.
    pub fn is_truncated(&self) -> (r: bool)
        ensures
            r == (self.live_count_spec() > self@.len()),
    {
        self.live_count > self.threads.len()
    }

    /// The number of counted threads that this snapshot does not hold.
    pub fn hidden_count(&self) -> (r: usize)
        ensures
            self.live_count_spec() > self@.len() ==> r == self.live_count_spec() - self@.len(),
            self.live_count_spec() <= self@.len() ==> r == 0,
    {
        if self.live_count > self.threads.len() {
            self.live_count - self.threads.len()
        } else {
            0
        }
    }
}

} // verus!

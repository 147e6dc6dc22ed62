//! Decisions of the server front end: how many cores and workers to run, and the
//! pinning of threads to cores, and the answer of the schema introspection endpoint.
use vstd::prelude::*;
use crate::text::{parse_unsigned, parse_usize, to_owned_string};
use crate::auth::SparrowError;

verus! {

/// Options of the server front end.
pub struct GatewayOpts {}

impl GatewayOpts {
    /// The number of worker threads per core unless configured otherwise.
    pub const DEFAULT_WORKERS_PER_CORE: usize = 4;
}

/// The cores a thread can be pinned to are numbered below this. The bound is the
/// smallest of the platforms `core_affinity::set_for_current` supports: on Windows it
/// builds a 64-bit mask with `1 << id`; on Linux and FreeBSD it marks a `cpu_set_t`
/// (`libc::CPU_SET`, 128 bits with older musl, 1024 with glibc). A larger number would
/// overflow the shift or the set.
pub const PINNABLE_CORES: usize = 64;

/// Calls `core_affinity::set_for_current` on the core numbered `id`, which pins the
/// calling thread to it and tells whether that succeeded. Nothing is stated of the
/// result: it depends on the system.
#[verifier::external_body]
fn pin_to_core(id: usize) -> (r: bool)
    requires
        id < PINNABLE_CORES,
{
    core_affinity::set_for_current(core_affinity::CoreId { id })
}

/// Pins the calling thread to the core numbered `id` (as `set_current` hands it out).
/// A core numbered `PINNABLE_CORES` or more is never pinned to (`false`); otherwise the
/// answer is the system's, which is not stated.
pub fn pin_current_thread(id: usize) -> (r: bool)
    ensures
        id >= PINNABLE_CORES ==> !r,
{
    if id < PINNABLE_CORES {
        pin_to_core(id)
    } else {
        false
    }
}

/// Hands out cores to threads: the first `threads_per_core` threads get the first core,
/// the next ones the second, and so on. Cores are held by their numbers (the `id` of
/// `core_affinity::CoreId`).
pub struct CoreSetter {
    pub cores: Vec<usize>,
    pub threads_per_core: usize,
    /// How many threads asked for a core so far.
    pub incrementing_index: usize,
}

impl CoreSetter {
    /// A setter that has handed out no core yet. Any core numbers are admitted; one
    /// numbered `PINNABLE_CORES` or more is handed out but never pinned to (see
    /// `pin_current_thread`).
    pub fn new(cores: Vec<usize>, threads_per_core: usize) -> (r: CoreSetter)
        ensures
            r.cores@ == cores@,
            r.threads_per_core == threads_per_core,
            r.incrementing_index == 0,
    {
        CoreSetter { cores, threads_per_core, incrementing_index: 0 }
    }

    /// The number of threads the setter can place: cores times threads per core.
    pub fn num_threads(&self) -> (r: usize)
        requires
            self.cores@.len() * self.threads_per_core <= usize::MAX,
        ensures
            r == self.cores@.len() * self.threads_per_core,
    {
        self.cores.len() * self.threads_per_core
    }

    /// The core for the next thread that asks: `None` once every core has its threads.
    pub fn next_core(&mut self) -> (r: Option<usize>)
        requires
            old(self).threads_per_core > 0,
        ensures
            final(self).cores@ == old(self).cores@,
            final(self).threads_per_core == old(self).threads_per_core,
            final(self).incrementing_index == (if old(self).incrementing_index == usize::MAX {
                0
            } else {
                old(self).incrementing_index + 1
            }),
            ({
                let slot = old(self).incrementing_index / old(self).threads_per_core;
                &&& slot < old(self).cores@.len() ==> r == Some(slot)
                &&& slot >= old(self).cores@.len() ==> r is None
            }),
    {
        let idx = self.incrementing_index;
        self.incrementing_index = if idx == usize::MAX {
            0
        } else {
            idx + 1
        };
        let slot = idx / self.threads_per_core;
        if slot < self.cores.len() {
            Some(slot)
        } else {
            None
        }
    }

    /// Counts the calling thread and hands out its core: the core at the thread's place
    /// in the count divided by `threads_per_core`. The answer is that core's index and
    /// number, to pin the thread to (see `pin_current_thread`), or `None` when no core is
    /// left for the thread.
    pub fn set_current(&mut self) -> (r: Option<(usize, usize)>)
        requires
            old(self).threads_per_core > 0,
        ensures
            final(self).cores@ == old(self).cores@,
            final(self).threads_per_core == old(self).threads_per_core,
            final(self).incrementing_index == (if old(self).incrementing_index == usize::MAX {
                0
            } else {
                old(self).incrementing_index + 1
            }),
            ({
                let slot = old(self).incrementing_index / old(self).threads_per_core;
                &&& slot < old(self).cores@.len() ==> r == Some((slot as usize, old(self).cores@[slot as int]))
                &&& slot >= old(self).cores@.len() ==> r is None
            }),
    {
        match self.next_core() {
            Some(i) => Some((i, self.cores[i])),
            None => None,
        }
    }
}

/// The number of cores to run on: all available ones, or the number given by
/// `SPARROW_CORES_OVERRIDE` when it is no larger. `None` when the override is no number.
pub fn cores_to_use(available: usize, override_var: Option<&str>) -> (r: Option<usize>)
    ensures
        override_var is None ==> r == Some(available),
        override_var matches Some(v) ==> match parse_unsigned(v@, usize::MAX as nat) {
            None => r is None,
            Some(n) => r == Some(if n > available {
                available
            } else {
                n as usize
            }),
        },
{
    match override_var {
        None => Some(available),
        Some(v) => match parse_usize(v) {
            None => None,
            Some(n) => Some(if n > available {
                available
            } else {
                n
            }),
        },
    }
}

/// Why a worker count was refused.
#[derive(Debug, Clone, Copy, PartialEq, Eq, Structural)]
pub enum WorkerCountError {
    /// Fewer than two workers: the workers' parity acts as a select.
    TooFew,
    /// An odd number of workers would be unfair.
    Odd,
}

/// Checks the number of workers of a pool: at least two, and even.
pub fn check_worker_count(n: usize) -> (r: Result<(), WorkerCountError>)
    ensures
        n < 2 ==> r == Err::<(), WorkerCountError>(WorkerCountError::TooFew),
        n >= 2 && n % 2 != 0 ==> r == Err::<(), WorkerCountError>(WorkerCountError::Odd),
        n >= 2 && n % 2 == 0 ==> r is Ok,
{
    if n < 2 {
        Err(WorkerCountError::TooFew)
    } else if n % 2 != 0 {
        Err(WorkerCountError::Odd)
    } else {
        Ok(())
    }
}

/// Whether the `i`-th worker of a pool favours requests over continuations: the even ones do.
pub fn worker_prefers_requests(i: usize) -> (r: bool)
    ensures
        r == (i % 2 == 0),
{
    i % 2 == 0
}


/// The answer of the schema introspection endpoint: while tokens exist the request's key
/// must be valid (`key_valid`); then the schema's JSON with status 200, or status 500
/// and `Could not find schema` when the server has none.
pub fn introspect_answer(auth_required: bool, key_valid: bool, schema_json: &Option<String>) -> (r: Result<
    (u16, String),
    SparrowError,
>)
    ensures
        auth_required && !key_valid ==> (r matches Err(e) && e is InvalidApiKey),
        !(auth_required && !key_valid) ==> (r matches Ok((status, body)) && match schema_json {
            Some(data) => status == 200 && body@ == data@,
            None => status == 500 && body@ == "Could not find schema"@,
        }),
{
    if auth_required && !key_valid {
        return Err(SparrowError::InvalidApiKey);
    }
    match schema_json {
        Some(data) => Ok((200, data.clone())),
        None => Ok((500, to_owned_string("Could not find schema"))),
    }
}

} // verus!

//! Control requests on an open input device, and the policy that decides,
//! after each attempt of one, whether to retry it, stop with its result, or
//! fail.
use vstd::prelude::*;

verus! {

/// The control requests of a probe.
#[derive(Clone, Copy, Debug, PartialEq, Eq, Structural)]
pub enum Request {
    GetId,
    GetVersion,
    GetBits,
    GetKeyBits,
}

/// The numeric identifier of each request.
pub open spec fn request_code(r: Request) -> u64 {
    match r {
        Request::GetId => 0x80084502u64,
        Request::GetVersion => 0x80044501u64,
        Request::GetBits => 0x80084520u64,
        Request::GetKeyBits => 0x80604521u64,
    }
}

/// The size in bytes of the buffer each request fills.
pub open spec fn request_buffer_len(r: Request) -> usize {
    match r {
        Request::GetId => 8usize,
        Request::GetVersion => 4usize,
        Request::GetBits => 8usize,
        Request::GetKeyBits => 96usize,
    }
}

impl Request {
    /// The numeric identifier of the request.
    pub fn code(&self) -> (r: u64)
        ensures
            r == request_code(*self),
    {
        match self {
            Request::GetId => 0x80084502,
            Request::GetVersion => 0x80044501,
            Request::GetBits => 0x80084520,
            Request::GetKeyBits => 0x80604521,
        }
    }

    /// The size in bytes of the buffer the request fills.
    pub fn buffer_len(&self) -> (r: usize)
        ensures
            r == request_buffer_len(*self),
    {
        match self {
            Request::GetId => 8,
            Request::GetVersion => 4,
            Request::GetBits => 8,
            Request::GetKeyBits => 96,
        }
    }
}

/// Why a probe stopped.
#[derive(Clone, Copy, Debug, PartialEq, Eq, Structural)]
pub enum ProbeError {
    /// The device could not be opened.
    OpenFailed,
    /// A control request failed for a reason other than a transient one; it
    /// carries the error number.
    ControlFailed(i32),
}

/// What to do after one attempt of a control request.
#[derive(Clone, Copy, Debug, PartialEq, Eq, Structural)]
pub enum Step {
    /// Issue the identical request again.
    Retry,
    /// The request succeeded with this result.
    Done(i32),
    /// The request failed for good.
    Failed(ProbeError),
}

/// Error number of an interrupted call.
pub open spec fn interrupted_code() -> i32 {
    4i32
}

/// Error number of a resource that is transiently unavailable.
pub open spec fn unavailable_code() -> i32 {
    11i32
}

/// Relies on libc::EINTR: the error number of an interrupted call, 4 on Linux.
#[verifier::external_body]
fn interrupted() -> (r: i32)
    ensures
        r == interrupted_code(),
{
    libc::EINTR
}

/// Relies on libc::EAGAIN: the error number of a resource that is
/// transiently unavailable, 11 on Linux.
#[verifier::external_body]
fn unavailable() -> (r: i32)
    ensures
        r == unavailable_code(),
{
    libc::EAGAIN
}

/// An error number that calls for a retry.
pub open spec fn is_transient(err: i32) -> bool {
    err == interrupted_code() || err == unavailable_code()
}

/// The decision after an attempt that returned `ret` with error number `err`.
pub open spec fn step_of(ret: i32, err: i32) -> Step {
    if ret == -1 && is_transient(err) {
        Step::Retry
    } else if ret < 0 {
        Step::Failed(ProbeError::ControlFailed(err))
    } else {
        Step::Done(ret)
    }
}

/// Whether `err` is one of the two transient error numbers.
pub fn transient(err: i32) -> (r: bool)
    ensures
        r == is_transient(err),
{
    err == interrupted() || err == unavailable()
}

/// Decides what follows an attempt that returned `ret` with error number
/// `err` (read only where `ret` is negative).
pub fn classify(ret: i32, err: i32) -> (r: Step)
    ensures
        r == step_of(ret, err),
{
    if ret == -1 && transient(err) {
        Step::Retry
    } else if ret < 0 {
        Step::Failed(ProbeError::ControlFailed(err))
    } else {
        Step::Done(ret)
    }
}

/// One control request in progress: how often it has been retried, and
/// whether it has finished.
pub struct ControlChannel {
    pub request: Request,
    pub retries: u64,
    pub finished: bool,
}

impl ControlChannel {
    /// A request not yet attempted.
    pub fn new(request: Request) -> (r: ControlChannel)
        ensures
            r.request == request,
            r.retries == 0,
            !r.finished,
    {
        ControlChannel { request, retries: 0, finished: false }
    }

    /// Records the outcome of one attempt and says what to do next: a
    /// transient failure asks for a retry, anything else ends the request.
    pub fn record(&mut self, ret: i32, err: i32) -> (r: Step)
        requires
            !old(self).finished,
            old(self).retries < u64::MAX,
        ensures
            r == step_of(ret, err),
            final(self).request == old(self).request,
            final(self).retries == old(self).retries + if r == Step::Retry { 1int } else { 0int },
            final(self).finished == (r != Step::Retry),
    {
        let step = classify(ret, err);
        match step {
            Step::Retry => {
                self.retries = self.retries + 1;
            },
            _ => {
                self.finished = true;
            },
        }
        step
    }
}

} // verus!

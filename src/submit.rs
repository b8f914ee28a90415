//! The decisions around the kernel's enter and register calls.
use vstd::prelude::*;
use crate::error::Error;
use crate::params::SETUP_SQPOLL;
use crate::squeue::SubmissionQueue;

verus! {

/// Enter flag: wait for completions.
pub const ENTER_GETEVENTS: u32 = 1;
/// Enter flag: wake the kernel's polling thread.
pub const ENTER_SQ_WAKEUP: u32 = 2;

/// Register opcodes.
pub const REGISTER_BUFFERS: u32 = 0;
pub const UNREGISTER_BUFFERS: u32 = 1;
pub const REGISTER_FILES: u32 = 2;
pub const UNREGISTER_FILES: u32 = 3;
pub const REGISTER_EVENTFD: u32 = 4;
pub const UNREGISTER_EVENTFD: u32 = 5;

/// What to do to hand the published submissions to the kernel.
#[derive(Clone, Copy, Debug, PartialEq, Eq, Structural)]
pub enum Enter {
    /// No call is needed: the kernel's polling thread is awake; this many are pending.
    Skip(u32),
    /// Make the enter call with these arguments.
    Call { to_submit: u32, min_complete: u32, flags: u32 },
}

/// The enter call for `pending` published submissions and `want` awaited completions.
pub open spec fn enter_plan(setup_flags: u32, need_wakeup: bool, pending: u32, want: u32) -> Enter {
    let wait_flag: u32 = if want > 0 { ENTER_GETEVENTS } else { 0 };
    if setup_flags & SETUP_SQPOLL != 0 {
        if need_wakeup {
            Enter::Call { to_submit: pending, min_complete: want, flags: wait_flag | ENTER_SQ_WAKEUP }
        } else if want == 0 {
            Enter::Skip(pending)
        } else {
            Enter::Call { to_submit: pending, min_complete: want, flags: wait_flag }
        }
    } else {
        Enter::Call { to_submit: pending, min_complete: want, flags: wait_flag }
    }
}

/// A buffer for the kernel to use directly: its address and length.
#[derive(Clone, Copy, Debug, PartialEq, Eq, Structural)]
pub struct IoVec {
    pub base: u64,
    pub len: u64,
}

/// What to register with the kernel.
pub enum RegisterTarget {
    Buffers(Vec<IoVec>),
    Files(Vec<i32>),
    EventFd(i32),
}

/// What to unregister.
#[derive(Clone, Copy, Debug, PartialEq, Eq, Structural)]
pub enum UnregisterTarget {
    Buffers,
    Files,
    EventFd,
}

/// The arguments of one register call; the argument array is the target's.
#[derive(Clone, Copy, Debug, PartialEq, Eq, Structural)]
pub struct RegisterCall {
    pub fd: i32,
    pub opcode: u32,
    pub nr_args: u32,
}

/// The register call on the ring `fd` for `target`.
pub open spec fn register_call(fd: i32, target: RegisterTarget) -> Result<RegisterCall, Error> {
    match target {
        RegisterTarget::Buffers(v) => if v@.len() <= u32::MAX {
            Ok(RegisterCall { fd, opcode: REGISTER_BUFFERS, nr_args: v@.len() as u32 })
        } else {
            Err(Error::InvalidParams)
        },
        RegisterTarget::Files(v) => if v@.len() <= u32::MAX {
            Ok(RegisterCall { fd, opcode: REGISTER_FILES, nr_args: v@.len() as u32 })
        } else {
            Err(Error::InvalidParams)
        },
        RegisterTarget::EventFd(_) => Ok(RegisterCall { fd, opcode: REGISTER_EVENTFD, nr_args: 1 }),
    }
}

/// The unregister call on the ring `fd` for `target`.
pub open spec fn unregister_call(fd: i32, target: UnregisterTarget) -> RegisterCall {
    let opcode = match target {
        UnregisterTarget::Buffers => UNREGISTER_BUFFERS,
        UnregisterTarget::Files => UNREGISTER_FILES,
        UnregisterTarget::EventFd => UNREGISTER_EVENTFD,
    };
    RegisterCall { fd, opcode, nr_args: 0 }
}

/// A cheap, stateless handle for making the kernel calls of one ring.
#[derive(Clone, Copy, Debug, PartialEq, Eq, Structural)]
pub struct Submitter {
    fd: i32,
    flags: u32,
}

impl Submitter {
    pub fn new(fd: i32, flags: u32) -> (r: Submitter)
        ensures
            r.fd_spec() == fd,
            r.flags_spec() == flags,
    {
        Submitter { fd, flags }
    }

    pub closed spec fn fd_spec(&self) -> i32 {
        self.fd
    }

    pub closed spec fn flags_spec(&self) -> u32 {
        self.flags
    }

    /// The ring's descriptor.
    pub fn fd(&self) -> (r: i32)
        ensures
            r == self.fd_spec(),
    {
        self.fd
    }

    /// Publishes the pushed submissions and says how to hand them to the kernel.
    pub fn submit(&self, sq: &mut SubmissionQueue) -> (r: Enter)
        requires
            old(sq).wf(),
        ensures
            final(sq).wf(),
            final(sq).pending() == old(sq).pending(),
            final(sq).published() == old(sq).pending().len(),
            final(sq).capacity_spec() == old(sq).capacity_spec(),
            final(sq).flags_spec() == old(sq).flags_spec(),
            final(sq).dropped_spec() == old(sq).dropped_spec(),
            r == enter_plan(
                self.flags_spec(),
                old(sq).flags_spec() & crate::squeue::SQ_NEED_WAKEUP != 0,
                old(sq).pending().len() as u32,
                0,
            ),
    {
        self.submit_and_wait(sq, 0)
    }

    /// As `submit`, and waits for `want` completions.
    pub fn submit_and_wait(&self, sq: &mut SubmissionQueue, want: u32) -> (r: Enter)
        requires
            old(sq).wf(),
        ensures
            final(sq).wf(),
            final(sq).pending() == old(sq).pending(),
            final(sq).published() == old(sq).pending().len(),
            final(sq).capacity_spec() == old(sq).capacity_spec(),
            final(sq).flags_spec() == old(sq).flags_spec(),
            final(sq).dropped_spec() == old(sq).dropped_spec(),
            r == enter_plan(
                self.flags_spec(),
                old(sq).flags_spec() & crate::squeue::SQ_NEED_WAKEUP != 0,
                old(sq).pending().len() as u32,
                want,
            ),
    {
        sq.sync();
        let pending = sq.len();
        let need_wakeup = sq.need_wakeup();
        let wait_flag: u32 = if want > 0 { ENTER_GETEVENTS } else { 0 };
        if self.flags & SETUP_SQPOLL != 0 {
            if need_wakeup {
                Enter::Call { to_submit: pending, min_complete: want, flags: wait_flag | ENTER_SQ_WAKEUP }
            } else if want == 0 {
                Enter::Skip(pending)
            } else {
                Enter::Call { to_submit: pending, min_complete: want, flags: wait_flag }
            }
        } else {
            Enter::Call { to_submit: pending, min_complete: want, flags: wait_flag }
        }
    }

    /// The register call for `target`; the target must count its items in a `u32`.
    pub fn register(&self, target: &RegisterTarget) -> (r: Result<RegisterCall, Error>)
        ensures
            r == register_call(self.fd_spec(), *target),
    {
        match target {
            RegisterTarget::Buffers(v) => {
                if v.len() > u32::MAX as usize {
                    Err(Error::InvalidParams)
                } else {
                    Ok(RegisterCall { fd: self.fd, opcode: REGISTER_BUFFERS, nr_args: v.len() as u32 })
                }
            },
            RegisterTarget::Files(v) => {
                if v.len() > u32::MAX as usize {
                    Err(Error::InvalidParams)
                } else {
                    Ok(RegisterCall { fd: self.fd, opcode: REGISTER_FILES, nr_args: v.len() as u32 })
                }
            },
            RegisterTarget::EventFd(_) => Ok(RegisterCall { fd: self.fd, opcode: REGISTER_EVENTFD, nr_args: 1 }),
        }
    }

    /// The unregister call for `target`.
    pub fn unregister(&self, target: UnregisterTarget) -> (r: RegisterCall)
        ensures
            r == unregister_call(self.fd_spec(), target),
    {
        let opcode = match target {
            UnregisterTarget::Buffers => UNREGISTER_BUFFERS,
            UnregisterTarget::Files => UNREGISTER_FILES,
            UnregisterTarget::EventFd => UNREGISTER_EVENTFD,
        };
        RegisterCall { fd: self.fd, opcode, nr_args: 0 }
    }
}

/// The outcome of an enter call that returned `ret`, with `errno` set when it failed.
pub fn enter_result(ret: i32, errno: i32) -> (r: Result<u32, Error>)
    ensures
        ret >= 0 ==> r == Ok::<u32, Error>(ret as u32),
        ret < 0 ==> r == Err::<u32, Error>(Error::Os(errno)),
{
    if ret >= 0 {
        Ok(ret as u32)
    } else {
        Err(Error::Os(errno))
    }
}

/// The outcome of a register call that returned `ret`, with `errno` set when it failed.
pub fn register_result(ret: i32, errno: i32) -> (r: Result<(), Error>)
    ensures
        ret >= 0 ==> r == Ok::<(), Error>(()),
        ret < 0 ==> r == Err::<(), Error>(Error::Os(errno)),
{
    if ret >= 0 {
        Ok(())
    } else {
        Err(Error::Os(errno))
    }
}

} // verus!

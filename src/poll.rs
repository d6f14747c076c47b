use vstd::prelude::*;
use crate::ffi::Event;

verus! {

/// The kernel's readiness-multiplexing handle, through which descriptors
/// are added to the watch set.
pub struct Registry {
    raw_fd: i32,
}

/// What a system call that answers with a count or a descriptor means: a
/// negative answer is a failure, whose cause the caller reads from the OS.
pub fn syscall_result(res: i32) -> (r: Option<usize>)
    ensures
        r == if res < 0 {
            None::<usize>
        } else {
            Some(res as usize)
        },
{
    if res < 0 {
        None
    } else {
        Some(res as usize)
    }
}

impl Registry {
    /// The descriptor of the kernel handle.
    pub closed spec fn fd(&self) -> i32 {
        self.raw_fd
    }

    /// The descriptor of the kernel handle, for the system calls on it.
    pub fn raw_fd(&self) -> (r: i32)
        ensures
            r == self.fd(),
    {
        self.raw_fd
    }

    /// The record handed to the kernel when the descriptor under `token` is
    /// added to the watch set with the condition bits `interests`.
    pub fn interest(&self, token: usize, interests: i32) -> (r: Event)
        ensures
            r.events == interests as u32,
            r.epoll_data == token,
    {
        Event::new(interests as u32, token)
    }
}

/// Owner of one readiness-multiplexing handle.
pub struct Poll {
    registry: Registry,
}

impl Poll {
    /// The handle's registry.
    pub closed spec fn spec_registry(&self) -> Registry {
        self.registry
    }

    /// Takes over the handle that creating a port answered with: a negative
    /// answer means the OS refused to create one.
    pub fn from_created(res: i32) -> (r: Option<Poll>)
        ensures
            res < 0 ==> r is None,
            res >= 0 ==> r is Some && r->0.spec_registry().fd() == res,
    {
        if res < 0 {
            None
        } else {
            Some(Poll { registry: Registry { raw_fd: res } })
        }
    }

    /// The registry through which descriptors are added.
    pub fn registry(&self) -> (r: &Registry)
        ensures
            *r == self.spec_registry(),
    {
        &self.registry
    }

    /// The arguments of one wait on this port: the handle, how many records
    /// a buffer of `capacity` can take (as many as the call can report), and
    /// the timeout in milliseconds, where none means to block until a
    /// descriptor is ready.
    pub fn wait_args(&self, capacity: usize, timeout: Option<i32>) -> (r: (i32, i32, i32))
        ensures
            r.0 == self.spec_registry().fd(),
            r.1 == if capacity > i32::MAX {
                i32::MAX as int
            } else {
                capacity as int
            },
            r.2 == match timeout {
                Some(t) => t as int,
                None => -1,
            },
    {
        let max_events: i32 = if capacity > i32::MAX as usize {
            i32::MAX
        } else {
            capacity as i32
        };
        let t: i32 = match timeout {
            Some(t) => t,
            None => -1,
        };
        (self.registry.raw_fd, max_events, t)
    }
}

} // verus!

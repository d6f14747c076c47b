use vstd::prelude::*;

verus! {

/// `epoll_ctl` operation that adds a descriptor to the watch set.
pub const EPOLL_CTL_ADD: i32 = 1;

/// Interest in the descriptor becoming readable.
pub const EPOLLIN: i32 = 0x1;

/// Edge-triggered notification: the port reports a transition to ready
/// once, rather than for as long as the descriptor stays ready.
pub const EPOLLET: i32 = 1 << 31;

/// A readiness record as the kernel lays it out: the ready conditions and
/// the token the descriptor was registered under.
#[derive(Debug)]
pub struct Event {
    pub events: u32,
    pub epoll_data: usize,
}

impl Event {
    /// A record of the conditions `events` for the descriptor under `token`.
    pub fn new(events: u32, token: usize) -> (r: Event)
        ensures
            r.events == events,
            r.epoll_data == token,
    {
        Event { events, epoll_data: token }
    }

    /// The token that correlates this record with its connection.
    pub fn token(&self) -> (r: usize)
        ensures
            r == self.epoll_data,
    {
        self.epoll_data
    }
}

} // verus!

use vstd::prelude::*;

verus! {

/// The identifier recorded before any worker connection has completed.
pub const UNSET_PID: i32 = -1;

/// The one shared worker identifier. Callers that share it between threads
/// put it behind a lock, so that every `read` and `write` is whole.
pub struct PidCell {
    value: i32,
}

impl View for PidCell {
    type V = i32;

    closed spec fn view(&self) -> i32 {
        self.value
    }
}

impl PidCell {
    /// A cell that holds the unset identifier.
    pub fn new() -> (r: PidCell)
        ensures
            r@ == UNSET_PID,
    {
        PidCell { value: UNSET_PID }
    }

    /// The identifier currently recorded.
    pub fn read(&self) -> (r: i32)
        ensures
            r == self@,
    {
        self.value
    }

    /// Records `pid`, replacing whatever was there: the last write wins.
    pub fn write(&mut self, pid: i32)
        ensures
            final(self)@ == pid,
    {
        self.value = pid;
    }
}

} // verus!

//! A control plane and a worker plane that share one worker identifier.
//!
//! The worker listener records an identifier each time a connection comes in
//! and its command has been launched; the control listener answers every
//! connection with one line that reports the identifier currently recorded.
//! The decisions of both listeners are made here, over plain values; the
//! sockets, the subprocess and the lock around the shared cell belong to the
//! program that drives them.

mod cell;
mod laws;
mod listener;
mod reply;

pub use cell::{PidCell, UNSET_PID};
pub use laws::{
    after_writes, connections, last_write, lemma_connections_then_control, lemma_contended_writes,
    lemma_control_keeps_serving, lemma_failed_is_final, lemma_last_write_wins,
    lemma_unset_until_written, run_phase, run_pid,
};
pub use listener::{
    next_action, next_phase, next_pid, step_write, Action, ActionModel, Event, Listener, Phase, Role,
    CONTROL_PORT, WORKER_PID, WORKER_PORT,
};
pub use reply::{control_reply, decimal, digits, reply_line, reply_prefix};

//! An event-loop core for ownership-transferring finite state machines.
//!
//! Many independent machines are multiplexed over one readiness poller.
//! Each machine owns its state; the loop delivers events — readiness,
//! timer fire, wakeup, spawn completion — by consuming the machine value
//! and receiving a successor value back.  The poller, the timer wheel
//! and the wakeup channel stay behind the [`loop_api::LoopApi`] trait,
//! so the dispatch logic itself is verified: every deadline stored in a
//! cell is matched by an armed timer ticket, spurious events are
//! dropped without effect, and a spawn chain runs to completion before
//! the next event.

use vstd::prelude::*;

pub mod asynch;
pub mod buffer_util;
pub mod compose;
pub mod config;
pub mod context;
pub mod creator;
pub mod error;
pub mod handler;
pub mod loop_api;
pub mod loop_time;
pub mod machine;
pub mod notify;
pub mod response;
pub mod scope;
pub mod slab;
pub mod test_util;

pub use asynch::Async;
pub use compose::{Compose2, Compose2Seed};
pub use config::Config;
pub use creator::{LoopCreator, LoopInstance};
pub use error::{Diagnostic, SpawnError};
pub use handler::{create_handler, Handler, Notify, Timeo};
pub use loop_api::{EventSet, IoError, LoopApi, PollOpt, TimerError, Timeout, Token};
pub use loop_time::{estimate_system_time, make_time, mio_timeout_ms, Duration, Time};
pub use machine::Machine;
pub use notify::{Notifier, WakeupError};
pub use scope::{early_scope, scope, EarlyScope, GenericScope, Scope};

verus! {

/// The response of a state machine to an event.
///
/// This value is returned by every method of the [`machine::Machine`]
/// trait; the loop consumes it atomically with the slot mutation.
pub struct Response<M, N>(pub response::ResponseImpl<M, N>);

} // verus!

//! Normalisation of POSIX permission bits: owner and group get read and
//! write, others get read, and directories get execute for everyone. Bits are
//! only ever added.

mod mode;
mod outcome;
mod batch;
pub mod laws;

pub use mode::{is_in_scope, plan_update, FileKind, Permission, Protection, Subject};
pub use mode::{grants, in_scope, kind_of, meets_policy, normalized, permission_bit, planned_mode, protection_in, required_bits};
pub use outcome::{read_step, write_outcome};
pub use outcome::{after_read, after_write, should_log_io_error, IoFailure, Outcome, Step, WriteFailure};
pub use batch::{Action, Batch, BatchModel, Event};

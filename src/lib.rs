//! Core of a group-messaging client: the operation protocol that keeps local
//! state synchronized before and after every group operation, the decision
//! taken when an identity is bootstrapped, and the selection of groups and
//! messages that listing operations return.

pub mod bootstrap;
pub mod error;
pub mod listing;
pub mod protocol;

pub use bootstrap::{bootstrap_outcome, Bootstrap};
pub use error::XmtpError;
pub use listing::{select_groups, select_messages, Group, GroupMember, Message, MessageKind, StoredMessage};
pub use protocol::{error_of_step, plan_of, Action, Operation, Run, RunState, Step};

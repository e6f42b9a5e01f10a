//! Verified core of a network-namespace wrapper: it plans the ordered
//! sequence of OS actions that bind a listening socket in the current
//! network namespace, expose its descriptor across `exec`, prepare the
//! socket-activation environment, switch the process into a target
//! network namespace, and replace the process image with a target
//! command. The unverified binary executes the planned actions.

pub mod activation;
pub mod config;
pub mod error;
pub mod pipeline;
pub mod text;

//! Development task dispatcher for the HarborShield project.
//!
//! Each subcommand becomes a plan: lines to show and external calls to make,
//! every call rooted at the project root ([`plan`]). A [`session::Session`]
//! hands out the plan one step at a time and stops at the first call that
//! fails under its execution mode ([`exec`]). The SSH setup instead decides
//! whether a host entry must be appended to the user's SSH configuration
//! ([`ssh`]). Running programs and touching files is left to the caller.

pub mod exec;
pub mod plan;
pub mod root;
pub mod session;
pub mod ssh;

//! Helpers for pull-request and commit workflows, built around a verified
//! engine that describes, drains and collects the output of external commands.

pub mod args;
pub mod authors;
pub mod branch;
pub mod checkout;
pub mod cmd;
pub mod commit;
pub mod metadata;
pub mod review;
pub mod text;

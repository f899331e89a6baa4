//! Decision logic of a `commit-msg` hook that prepends the ticket id found in
//! the branch name to the commit message.

pub mod hooks;
pub mod lemmas;
pub mod pattern;
pub mod text;
pub mod ticket;

//! Controlled process execution for an interactive learning environment:
//! a whitelist-gated one-shot command executor, interactive terminal
//! sessions with a bounded output buffer fed by a reader pump, and the
//! bookkeeping around them (statistics, course checks, ticket scoring).

pub mod buffer;
pub mod commands;
pub mod course;
pub mod exec;
pub mod hardware;
pub mod ids;
pub mod policy;
pub mod session;
pub mod stats;
pub mod text;
pub mod ticket;

//! Pipeline execution core of an interactive Unix shell: job classification,
//! redirection binding, the short-circuit driver, process-group bookkeeping and
//! the segment waiter, each stated over a mathematical model.
pub mod classify;
pub mod driver;
pub mod group;
pub mod job;
pub mod redirect;
pub mod status;

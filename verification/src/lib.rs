//! Protection of secret memory, and the instruments that watch it.
//!
//! * [`policy`]: what protections a caller asks for, and what an owner reports.
//! * [`probe`]: an observer of one allocation at a time. It injects a failure
//!   into a chosen protection control and records what the memory backend does.
//! * [`setup`]: what setting an owner up comes to, given what the system answers.
//! * [`mapped`]: owners of page-mapped secrets, set up one control after the
//!   other and cleaned up in full whenever a step fails. The pages are a slice
//!   that the caller supplies.
//! * [`oracle`]: the decisions behind asking a forked child whether a memory
//!   range is absent from its address space.
//! * [`pages`]: arithmetic on whole pages.
//! * [`trace`]: runs of calls on one observation.
//! * [`policy_laws`], [`probe_laws`], [`owner_laws`], [`oracle_laws`]: what each
//!   call does, in terms of its arguments and its result alone.
//! * [`laws`]: what holds of these together.
//!
//! The library makes no system call: it maps, locks and unmaps no memory.
pub mod laws;
pub mod mapped;
pub mod oracle;
pub mod oracle_laws;
pub mod owner_laws;
pub mod pages;
pub mod policy;
pub mod policy_laws;
pub mod probe;
pub mod probe_laws;
pub mod setup;
pub mod trace;

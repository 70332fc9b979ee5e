//! Launch a long-running helper process fully detached from the caller.
//!
//! The library builds and checks the launch request: which program is run,
//! with which argument, where its standard streams go, and how it is cut
//! loose from the caller's session or process group. Executing the request
//! is an operating-system call and is left to the embedding application,
//! which hands the outcome back to [`launch::complete_launch`].

pub mod error;
pub mod launch;
pub mod plan;

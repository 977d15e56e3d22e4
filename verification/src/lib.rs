//! Campaign orchestration for repeated HTTP load tests.
//!
//! The library decides; the program around it performs. Every function here is a
//! verified function from plain values to plain values: which files a campaign
//! writes, what its simulated clients request, what is uploaded afterwards, and in
//! which order the steps of a campaign follow each other.
//!
//! - [`paths`]: the log directory and the names of the artifacts in it.
//! - [`scenario`]: the transport setup and the workloads of the simulated clients.
//! - [`request`]: the parameters of a run and the engine configuration of a campaign.
//! - [`upload`]: what is copied to durable storage after a campaign.
//! - [`campaign`]: the campaigns of one compression mode, as a state machine.
//! - [`driver`]: a whole run, first without and then with compression.
//! - [`history`], [`run_history`]: what holds of all that a sequence or a run asks
//!   for, whatever is reported to it.
//! - [`decimal`]: decimal numerals.

pub mod campaign;
pub mod decimal;
pub mod driver;
pub mod history;
pub mod paths;
pub mod request;
pub mod run_history;
pub mod scenario;
pub mod upload;

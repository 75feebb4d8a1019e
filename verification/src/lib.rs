//! Intake of mailing-list subscribers, verified.
//!
//! The library decides; its caller performs. A request body goes in, and what
//! comes out is either a rejection or the one row to insert; the outcome of
//! the insert goes in, and the answer to the client comes out. Setting up a
//! database for a test run works the same way, step by step.
//!
//! - [`validation`]: the rules for a submitted email and name.
//! - [`form`]: the two fields of a form-encoded body.
//! - [`routes`]: the handlers of the two endpoints.
//! - [`subscriber`]: the row that is stored.
//! - [`gateway`]: the statement that stores it, and what its outcome means.
//! - [`telemetry`]: the attributes of a request span and the failure line.
//! - [`provision`]: a fresh, migrated database per test run.
//! - [`identifier`], [`clock`]: identifiers and time, drawn from outside.
//! - [`response`]: status and body of an answer.

pub mod clock;
pub mod form;
pub mod gateway;
pub mod identifier;
pub mod provision;
pub mod response;
pub mod routes;
pub mod subscriber;
pub mod telemetry;
pub mod validation;

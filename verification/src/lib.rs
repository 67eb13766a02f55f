//! Deployment logic for AWS CloudFormation stacks.
//!
//! The library decides and the caller acts: nothing here talks to the
//! service. An operation is run by a [`deploy::Driver`], which is told what
//! the service answered and says what to ask next; around it stand
//!
//! - [`status`]: the statuses of stacks and resources, and how they read;
//! - [`events`]: stack events, and the poller that makes one ascending
//!   stream of the pages that the service returns;
//! - [`change_set`]: plans, and what becomes of a change set once the service
//!   has described it;
//! - [`stack_status`]: where an operation finds its stack;
//! - [`reason`]: what the free text of a status reason says;
//! - [`outcome`]: the verdict on an operation, and its exit code;
//! - [`runs`]: what holds of every run of a driver;
//! - [`report`]: hints, lists and reports for the operator;
//! - [`input`], [`args`]: what an operation is given, and how it is typed on
//!   a command line;
//! - [`package`]: which properties of a template may point at local files;
//! - [`text`]: the character-level helpers under all of these.

pub mod args;
pub mod change_set;
pub mod deploy;
pub mod events;
pub mod input;
pub mod outcome;
pub mod package;
pub mod reason;
pub mod report;
pub mod runs;
pub mod stack_status;
pub mod status;
pub mod text;

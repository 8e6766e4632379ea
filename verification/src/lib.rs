//! Progress and event reporting through interchangeable sinks.
//!
//! A producer of work hands progress events and log lines to a [`Reporter`].
//! Two sinks are provided: [`HumanReporter`] drives a terminal progress bar,
//! [`JsonReporter`] writes one structured record per progress event to a
//! byte medium.

pub mod bar;
pub mod event;
pub mod human;
pub mod json;
pub mod medium;
pub mod progress;
pub mod record;
pub mod sink;
pub mod stream;

pub use event::{MyEvents, MyProgressEvents, ReportError};
pub use human::{HumanReporter, Phase};
pub use json::JsonReporter;
pub use medium::Medium;
pub use progress::Progress;
pub use record::message;
pub use sink::Reporter;

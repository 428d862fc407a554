//! A process-lifecycle sensor core: raw process-creation payloads from an OS
//! instrumentation layer are decoded into typed records, their command lines
//! are cleaned of the redundant executable-path prefix, and the records are
//! handed to consumers over a bounded, non-blocking delivery channel.

pub mod channel;
pub mod decode;
pub mod monitor;
pub mod raw;
pub mod record;

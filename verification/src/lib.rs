//! Verified core of a progress-reporting upload pipeline.
//!
//! A local file is streamed, chunk by chunk, as the body of an outbound HTTP
//! PUT request while a running `(bytes_transferred, total_bytes)` pair is
//! reported to an observer after every chunk.  The modules here hold the
//! logic of that pipeline: the error taxonomy, the progress accounting, the
//! assembly of the outgoing request, the decoding of the response body, and
//! the state machine that one upload job steps through.  The host that drives
//! the actual file and socket I/O feeds results of those operations in as
//! events and performs the actions the machine hands back.

pub mod error;
pub mod progress;
pub mod request;
pub mod response;
pub mod machine;

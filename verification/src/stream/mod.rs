pub mod sse;
pub mod framing;
pub mod numbering;
pub mod closing;
pub mod usage;

//! A safe, verified wrapper layer around the shape surface of a native
//! inference library's C interface: an owned handle with deterministic,
//! exactly-once release, status codes translated into typed errors at the
//! boundary, and native-owned geometry exposed as bounds-checked views.
//!
//! The native entry points themselves are unsafe foreign calls and live
//! outside this crate; every decision about their arguments and results —
//! the caller contract on dimension counts, the status translation, the
//! validity of populated handles, and the release post-condition — stands
//! here, verified.

mod error;
mod shape;

pub use error::check_status;
pub use error::InferenceError;
pub use shape::dimension_count_representable;
pub use shape::lemma_reads_idempotent;
pub use shape::lemma_wf_geometry;
pub use shape::Shape;
pub use shape::ShapeHandle;

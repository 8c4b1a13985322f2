//! Volume rendering pipeline: a 3D scalar volume (raw 12-bit scan
//! intensities) is normalized into an 8-bit texel stream, bounded by a unit
//! cube whose triangulation indexes a fixed vertex list, and drawn each frame
//! by a shader program whose build protocol and variant selection are decided
//! here. GPU calls, file reads and floating-point matrix math live in the
//! surrounding host; this crate holds the data model and the decisions, each
//! with a proved contract.

pub mod frame;
pub mod shader;
pub mod volume;

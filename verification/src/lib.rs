//! CPU-side core of an instanced primitive renderer and its off-screen
//! capture path.
//!
//! The crate batches drawing primitives into fixed-layout instance
//! records, orders them so that opaque faces are drawn before blended
//! primitives, plans the draw calls and buffer growth for a frame, and
//! converts between the row-padded layout of a staging buffer and a
//! tightly packed RGBA image. Every function is verified against the
//! mathematical model stated in its contract.

pub mod backend;
pub mod capture;
pub mod compare;
pub mod instance;
pub mod partition;
pub mod plotting;
pub mod primitives;
pub mod text;

//! Input handling for an orbit camera: which motion a tick performs, whether
//! it zooms and re-aims, and how scroll input is scaled. The geometry that
//! carries a plan out lives with the host.
pub mod control;
pub mod scroll;

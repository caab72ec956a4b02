//! Verified core of a small real-time rendering engine.
//!
//! The engine's per-frame decisions live here: which registered script files
//! must be re-executed after an edit, which interpreter dialect owns a file,
//! how the frame loop reacts to platform events, how uniform uploads and
//! resource formats are chosen, and how sounds and log entries are managed.
//! Platform work (windowing, OpenGL, audio output, file reads) stays outside;
//! the embedded interpreters are driven through a small trusted layer.

pub mod bridge;
pub mod dialect;
pub mod frame;
pub mod js;
pub mod logging;
pub mod lua;
pub mod model;
pub mod native;
pub mod objects;
pub mod shader;
pub mod sound;
pub mod script;
pub mod texture;
pub mod threed;
pub mod window;

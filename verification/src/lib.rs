//! A minimal image-sequence viewer core: a loader that decodes the files
//! `0.jpg`, `1.jpg`, ... of a directory until the first gap, and a playback
//! driver that steps through the loaded frames at a configurable speed on a
//! fixed-rate redraw tick. Windowing, UI and GPU rendering are outside
//! collaborators driven by the surrounding application.

pub mod imgloader;
pub mod playback;

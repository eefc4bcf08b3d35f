//! Discovery of an attached e-reader and of the books stored on it: metadata
//! extraction, library scanning, device detection and the session state machine.
pub mod book;
pub mod scan;
pub mod session;
pub mod device;

//! What a front end decides: sound buffering, picture conversion, key mapping,
//! save files, and the protocol of a headless session.

pub mod archive;
pub mod audio;
pub mod harness;
pub mod input;
pub mod inspect;
pub mod protocol;
pub mod savefile;
pub mod video;

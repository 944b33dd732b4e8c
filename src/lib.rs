//! Inline images for terminals that speak the `1337;File=` escape protocol.
//!
//! The library decides where an image comes from (a network URL, a local
//! file or standard input), names it, and builds the exact escape sequence a
//! terminal must receive to draw it. Fetching and printing are left to the
//! caller.
pub mod protocol;
pub mod source;
pub mod text;

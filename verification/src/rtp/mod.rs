//! RTP payload formats.

pub mod ohb;

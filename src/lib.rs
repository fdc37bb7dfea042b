//! Session protocol of a two-role music quiz: the framed wire format, the
//! host's registry of connected listeners, and the host and listener state
//! machines that turn keyboard and network events into wire traffic and
//! local playback actions.
pub mod codec;
pub mod registry;
pub mod host;
pub mod listener;

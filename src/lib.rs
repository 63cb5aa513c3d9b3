//! Per-session playback queues for a voice chat bot, with a dice roller.
//!
//! Each voice session owns a [`PlaybackSession`]: an ordered queue of
//! [`Track`]s, the track that is currently playing and its playback state.
//! A [`SessionRegistry`] maps session identifiers to sessions and performs
//! one command per call. Talking to the chat gateway, resolving a track and
//! driving the voice connection are left to the caller.
pub mod track;
pub mod session;
pub mod registry;
pub mod laws;
pub mod dice;

pub use track::{Track, TrackModel};
pub use dice::{roll, tally, RollError, RollOutcome};
pub use registry::{Enqueued, SessionRegistry};
pub use session::{PlaybackSession, PlaybackState, QueueError, SessionModel, Snapshot, SnapshotModel};

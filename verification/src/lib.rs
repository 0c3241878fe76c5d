//! Decides, from periodic snapshots of a music player, when a play is reported
//! to a listen-tracking service, and assembles what is reported.
//!
//! - [`playback`]: what the player answers, and the snapshot taken from it.
//! - [`decision`]: whether a snapshot is reported, and as what.
//! - [`submission`]: the listen that is sent, the lookup of its identifiers,
//!   and the reading of the service's answer.
//! - [`service`]: the polling cycle as a machine that is driven from outside.
//! - [`listenbrainz_models`], [`error`]: the values that go out.
//!
//! The library does no input or output. A driver polls the player, fetches and
//! posts, and sleeps; it hands each outcome to [`service::Service::step`] and
//! is told what to do next.
mod clock;
pub mod decision;
pub mod error;
pub mod listenbrainz_models;
pub mod playback;
pub mod service;
pub mod submission;

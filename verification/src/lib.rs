//! Spatial-audio synchronization engine.
//!
//! The crate decodes pull-based sample sources into immutable, optionally
//! looping sample buffers, models the live playback voices of an external
//! ambisonic renderer, and drives the per-frame reconciliation that keeps
//! every voice's position and velocity aligned with its entity's world
//! transform, expressed relative to an optional listener entity.
//!
//! Samples and coordinates are carried as the bit patterns of 32-bit
//! floating-point numbers; the surrounding (unverified) host shell converts
//! at the boundary and performs the actual engine calls.

mod sample;
mod system;
mod transform;
mod voice;

pub use sample::index_after;
pub use sample::lemma_decode_caps;
pub use sample::lemma_nonrepeating_cursor;
pub use sample::lemma_repeating_cursor;
pub use sample::norm_bits_of;
pub use sample::nth_read;
pub use sample::read_at;
pub use sample::AmbisonicSample;
pub use sample::SampleStream;
pub use sample::SourceFormat;
pub use sample::SAMPLE_CAP;
pub use system::ambisonic_update_system;
pub use system::find_asset;
pub use system::lemma_removal_stops_voice_once;
pub use system::lemma_update_keeps_voices_live;
pub use system::lemma_restart_starts_fresh_voice;
pub use system::scene_counter;
pub use system::spec_sync_entity;
pub use system::spec_update_all;
pub use system::stopped_voice;
pub use system::vel_of;
pub use system::AmbisonicSource;
pub use system::AssetEntry;
pub use system::SampleAssets;
pub use system::SpatialEntity;
pub use system::SyncAction;
pub use transform::chosen_listener;
pub use transform::identity_cols;
pub use transform::identity_transform;
pub use transform::listener_cols;
pub use transform::rel_of;
pub use transform::resolve_listener;
pub use transform::AmbisonicCenter;
pub use transform::ListenerEntry;
pub use transform::Vec3Bits;
pub use transform::Velocity;
pub use transform::WorldTransform;
pub use voice::ambisonic_startup_system;
pub use voice::amibsonic_shutdown_system;
pub use voice::AmbisonicResource;
pub use voice::AudioScene;
pub use voice::VoiceHandle;

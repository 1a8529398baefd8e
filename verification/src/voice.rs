//! Live playback voices and the renderer resource.
//!
//! A [`VoiceHandle`] stands for one live instantiation of a sample buffer
//! inside the external renderer: it records the voice's identity and the
//! position and velocity last pushed into it, and whether it has been
//! stopped.  The host shell owns the real engine controllers, keyed by the
//! voice identity, and mirrors every mutation recorded here into them.

use crate::transform::Vec3Bits;
use vstd::prelude::*;

verus! {

/// One live, currently-playing voice of the external renderer.
#[derive(Clone, Copy)]
pub struct VoiceHandle {
    /// Identity of the voice: no two voices started by one scene share it.
    pub id: u64,
    /// Position last pushed into the renderer, as floating-point bit patterns.
    pub position: Vec3Bits,
    /// Velocity last pushed into the renderer, if any was ever pushed.
    pub velocity: Option<Vec3Bits>,
    /// Whether the voice has been stopped; a stopped voice is unusable.
    pub stopped: bool,
}

impl VoiceHandle {
    /// Push a new position into the voice.
    pub fn set_position(&mut self, position: Vec3Bits)
        requires
            !old(self).stopped,
        ensures
            *final(self) == (VoiceHandle { position, ..*old(self) }),
    {
        self.position = position;
    }

    /// Push a new velocity into the voice.
    pub fn set_velocity(&mut self, velocity: Vec3Bits)
        requires
            !old(self).stopped,
        ensures
            *final(self) == (VoiceHandle { velocity: Some(velocity), ..*old(self) }),
    {
        self.velocity = Some(velocity);
    }

    /// Stop the voice.  A voice is stopped at most once; afterwards it is
    /// only dropped.
    pub fn stop(&mut self)
        requires
            !old(self).stopped,
        ensures
            *final(self) == (VoiceHandle { stopped: true, ..*old(self) }),
    {
        self.stopped = true;
    }
}

/// The live renderer scene: hands out voices with fresh identities.
#[derive(Clone, Copy)]
pub struct AudioScene {
    /// Identity the next started voice receives.
    pub next_voice_id: u64,
}

impl AudioScene {
    /// Start a new voice at a position.  The voice's identity is fresh:
    /// strictly larger than that of every voice this scene started before.
    pub fn play_at(&mut self, position: Vec3Bits) -> (v: VoiceHandle)
        requires
            old(self).next_voice_id < u64::MAX,
        ensures
            v == (VoiceHandle {
                id: old(self).next_voice_id,
                position,
                velocity: None::<Vec3Bits>,
                stopped: false,
            }),
            final(self).next_voice_id == old(self).next_voice_id + 1,
    {
        let v = VoiceHandle { id: self.next_voice_id, position, velocity: None, stopped: false };
        self.next_voice_id = self.next_voice_id + 1;
        v
    }
}

/// The renderer resource: holds the live scene once the renderer is up.
/// While it is absent, voices cannot be started and entities wait.
pub struct AmbisonicResource {
    pub audio_scene: Option<AudioScene>,
}

impl Default for AmbisonicResource {
    /// A resource with no scene: the renderer is not up yet.
    fn default() -> (r: Self)
        ensures
            r.audio_scene is None,
    {
        AmbisonicResource { audio_scene: None }
    }
}

/// Bring the renderer scene up.  The host shell builds the real engine
/// alongside; a failed engine build leaves the resource in its default
/// state instead, and every entity simply stays unstarted.
pub fn ambisonic_startup_system(ambisonic_res: &mut AmbisonicResource)
    ensures
        final(ambisonic_res).audio_scene == Some(AudioScene { next_voice_id: 0 }),
{
    ambisonic_res.audio_scene = Some(AudioScene { next_voice_id: 0 });
}

/// Tear the renderer scene down; voices can no longer be started.
pub fn amibsonic_shutdown_system(ambisonic_res: &mut AmbisonicResource)
    ensures
        final(ambisonic_res).audio_scene is None,
{
    ambisonic_res.audio_scene = None;
}

} // verus!

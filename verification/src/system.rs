//! The per-frame synchronization system.
//!
//! Every frame, each entity with spatial audio state is reconciled with
//! the renderer: an entity whose voice is already live gets its position
//! (and, when present, velocity) pushed into that voice; an entity without
//! a voice gets one started as soon as its sample asset has loaded and the
//! renderer scene is up, and waits otherwise.  Positions are expressed in
//! the listener's local frame; velocities pass through in world space.
//!
//! The system itself only decides and records: the returned actions tell
//! the host shell, one entry per entity, which engine call to mirror.

use crate::sample::AmbisonicSample;
use crate::transform::ListenerEntry;
use crate::transform::Vec3Bits;
use crate::transform::Velocity;
use crate::transform::WorldTransform;
use crate::transform::listener_cols;
use crate::transform::rel_of;
use crate::transform::relative_translation;
use crate::transform::resolve_listener;
use crate::voice::AmbisonicResource;
use crate::voice::AudioScene;
use crate::voice::VoiceHandle;
use vstd::prelude::*;

verus! {

/// Per-entity spatial audio state: which sample asset to play, and the
/// live voice once playback has started.
#[derive(Clone, Copy)]
pub struct AmbisonicSource {
    /// The live voice, present once playback has started.
    pub controller: Option<VoiceHandle>,
    /// Identifier of the sample asset to play.
    pub handle: u64,
}

/// What a removal or restart hands back for stopping: the prior voice,
/// now marked stopped.
pub open spec fn stopped_voice(prior: Option<VoiceHandle>) -> Option<VoiceHandle> {
    match prior {
        Some(v) => Some(VoiceHandle { stopped: true, ..v }),
        None => None,
    }
}

impl AmbisonicSource {
    /// A held voice is live: it has not been stopped.
    pub open spec fn wf(self) -> bool {
        match self.controller {
            Some(v) => !v.stopped,
            None => true,
        }
    }

    /// Spatial state for the asset `handle`, not yet playing.
    pub fn new(handle: u64) -> (s: Self)
        ensures
            s == (AmbisonicSource { controller: None::<VoiceHandle>, handle }),
    {
        AmbisonicSource { controller: None, handle }
    }

    /// Return the entity to the unstarted state: stop the live voice, if
    /// any, exactly once, and hand it back so the caller can release the
    /// engine side of it.  The next synchronization pass starts afresh.
    pub fn restart(&mut self) -> (stopped: Option<VoiceHandle>)
        requires
            old(self).wf(),
        ensures
            final(self).handle == old(self).handle,
            final(self).controller is None,
            stopped == stopped_voice(old(self).controller),
    {
        match self.controller {
            Some(mut v) => {
                v.stop();
                self.controller = None;
                Some(v)
            },
            None => None,
        }
    }
}

/// One loaded sample asset under its identifier.
pub struct AssetEntry {
    pub id: u64,
    pub sample: AmbisonicSample,
}

/// The first asset under `id`, in insertion order.
pub open spec fn find_asset(s: Seq<AssetEntry>, id: u64) -> Option<AmbisonicSample>
    decreases s.len(),
{
    if s.len() == 0 {
        None
    } else if s[0].id == id {
        Some(s[0].sample)
    } else {
        find_asset(s.drop_first(), id)
    }
}

/// The asset table the synchronization system resolves sample handles
/// against.  An entity whose handle is not here simply waits: this models
/// assets that are still loading.
pub struct SampleAssets {
    pub entries: Vec<AssetEntry>,
}

impl SampleAssets {
    /// An empty table.
    pub fn new() -> (a: Self)
        ensures
            a.entries@ == Seq::<AssetEntry>::empty(),
    {
        SampleAssets { entries: Vec::new() }
    }

    /// Add a sample under an identifier.
    pub fn insert(&mut self, id: u64, sample: AmbisonicSample)
        ensures
            final(self).entries@ == old(self).entries@.push(AssetEntry { id, sample }),
    {
        self.entries.push(AssetEntry { id, sample });
    }

    /// Look an asset up by identifier.
    pub fn get(&self, id: u64) -> (r: Option<&AmbisonicSample>)
        ensures
            match r {
                Some(s) => find_asset(self.entries@, id) == Some(*s),
                None => find_asset(self.entries@, id) is None,
            },
    {
        let mut i: usize = 0;
        proof {
            assert(self.entries@.skip(0) =~= self.entries@);
        }
        while i < self.entries.len()
            invariant
                i <= self.entries@.len(),
                find_asset(self.entries@.skip(i as int), id) == find_asset(self.entries@, id),
            decreases self.entries@.len() - i,
        {
            proof {
                assert(self.entries@.skip(i as int)[0] == self.entries@[i as int]);
                assert(self.entries@.skip(i as int).drop_first() =~= self.entries@.skip(i + 1));
            }
            if self.entries[i].id == id {
                return Some(&self.entries[i].sample);
            }
            i = i + 1;
        }
        None
    }
}

/// One entity as the synchronization pass sees it: its world transform,
/// its spatial audio state, and its optional world-space velocity.
#[derive(Clone, Copy)]
pub struct SpatialEntity {
    pub transform: WorldTransform,
    pub source: AmbisonicSource,
    pub velocity: Option<Velocity>,
}

/// The engine call the host shell mirrors for one entity after a
/// synchronization pass.
#[derive(Clone, Copy)]
pub enum SyncAction {
    /// Start a voice for the asset at the position, then push the
    /// velocity if one is given.
    Start { voice: u64, asset: u64, position: Vec3Bits, velocity: Option<Vec3Bits> },
    /// Push the position into the live voice, then the velocity if one is
    /// given; an absent velocity leaves the voice's prior one standing.
    Update { voice: u64, position: Vec3Bits, velocity: Option<Vec3Bits> },
}

/// The velocity an entity carries, if any.
pub open spec fn vel_of(e: SpatialEntity) -> Option<Vec3Bits> {
    match e.velocity {
        Some(Velocity(w)) => Some(w),
        None => None,
    }
}

/// The scene's voice counter, when the renderer is up.
pub open spec fn scene_counter(r: AmbisonicResource) -> Option<u64> {
    match r.audio_scene {
        Some(s) => Some(s.next_voice_id),
        None => None,
    }
}

/// One entity's synchronization step.  `center` is the listener frame's
/// world matrix, `asset_loaded` whether the entity's sample asset
/// resolves, `scene` the voice counter when the renderer is up.  Yields
/// the entity's new state, the engine call to mirror, and the counter.
pub open spec fn spec_sync_entity(
    e: SpatialEntity,
    center: Seq<u32>,
    asset_loaded: bool,
    scene: Option<u64>,
) -> (SpatialEntity, Option<SyncAction>, Option<u64>) {
    let rel = rel_of(center, e.transform.cols@);
    let pos = Vec3Bits { x: rel[0], y: rel[1], z: rel[2] };
    match e.source.controller {
        Some(v) => {
            let moved = VoiceHandle {
                position: pos,
                velocity: match vel_of(e) {
                    Some(w) => Some(w),
                    None => v.velocity,
                },
                ..v
            };
            (
                SpatialEntity {
                    source: AmbisonicSource { controller: Some(moved), ..e.source },
                    ..e
                },
                Some(SyncAction::Update { voice: v.id, position: pos, velocity: vel_of(e) }),
                scene,
            )
        },
        None => {
            if asset_loaded && scene is Some {
                let id = scene.unwrap();
                let started = VoiceHandle {
                    id,
                    position: pos,
                    velocity: vel_of(e),
                    stopped: false,
                };
                (
                    SpatialEntity {
                        source: AmbisonicSource { controller: Some(started), ..e.source },
                        ..e
                    },
                    Some(
                        SyncAction::Start {
                            voice: id,
                            asset: e.source.handle,
                            position: pos,
                            velocity: vel_of(e),
                        },
                    ),
                    Some((id + 1) as u64),
                )
            } else {
                (e, None, scene)
            }
        },
    }
}

/// A whole synchronization pass over the entities, in order, threading
/// the scene's voice counter through the started voices.
pub open spec fn spec_update_all(
    assets: Seq<AssetEntry>,
    center: Seq<u32>,
    scene: Option<u64>,
    entities: Seq<SpatialEntity>,
) -> (Seq<SpatialEntity>, Seq<Option<SyncAction>>, Option<u64>)
    decreases entities.len(),
{
    if entities.len() == 0 {
        (Seq::empty(), Seq::empty(), scene)
    } else {
        let prior = spec_update_all(assets, center, scene, entities.drop_last());
        let last = entities.last();
        let step = spec_sync_entity(
            last,
            center,
            find_asset(assets, last.source.handle) is Some,
            prior.2,
        );
        (prior.0.push(step.0), prior.1.push(step.1), step.2)
    }
}

/// One synchronization pass, run once per frame.
///
/// For every entity, in order: a live voice gets the entity's
/// listener-relative position pushed, and its velocity when one is
/// present (an absent one leaves the voice's prior velocity standing);
/// an entity without a voice gets one started at that position as soon as
/// its asset resolves and the renderer scene is up, and stays unstarted
/// otherwise — no error is raised, the entity retries next frame.
///
/// Returns, aligned with the entities, the engine calls for the host
/// shell to mirror.
pub fn ambisonic_update_system(
    sources: &SampleAssets,
    scene: &mut AmbisonicResource,
    listeners: &Vec<ListenerEntry>,
    entities: &mut Vec<SpatialEntity>,
) -> (actions: Vec<Option<SyncAction>>)
    requires
        forall|j: int| 0 <= j < old(entities)@.len() ==> old(entities)@[j].source.wf(),
        (scene_counter(*old(scene)) matches Some(c) ==> c + old(entities)@.len() <= u64::MAX),
    ensures
        ({
            let full = spec_update_all(
                sources.entries@,
                listener_cols(listeners@),
                scene_counter(*old(scene)),
                old(entities)@,
            );
            &&& final(entities)@ == full.0
            &&& actions@ == full.1
            &&& scene_counter(*final(scene)) == full.2
        }),
{
    let center = resolve_listener(listeners);
    let mut out: Vec<SpatialEntity> = Vec::new();
    let mut actions: Vec<Option<SyncAction>> = Vec::new();
    let mut i: usize = 0;
    proof {
        assert(entities@.take(0) =~= Seq::<SpatialEntity>::empty());
    }
    while i < entities.len()
        invariant
            i <= entities@.len(),
            entities@ == old(entities)@,
            center.cols@ == listener_cols(listeners@),
            forall|j: int| 0 <= j < entities@.len() ==> entities@[j].source.wf(),
            (scene_counter(*old(scene)) matches Some(c) ==> c + entities@.len() <= u64::MAX),
            ({
                let pre = spec_update_all(
                    sources.entries@,
                    listener_cols(listeners@),
                    scene_counter(*old(scene)),
                    entities@.take(i as int),
                );
                &&& out@ == pre.0
                &&& actions@ == pre.1
                &&& scene_counter(*scene) == pre.2
            }),
            (scene_counter(*scene) matches Some(c) ==> scene_counter(*old(scene)) matches Some(c0)
                && c0 <= c <= c0 + i),
            (scene_counter(*scene) is None ==> scene_counter(*old(scene)) is None),
        decreases entities@.len() - i,
    {
        proof {
            assert(entities@.take(i + 1).drop_last() =~= entities@.take(i as int));
            assert(entities@.take(i + 1).last() == entities@[i as int]);
        }
        let e = entities[i];
        let rel = relative_translation(&center, &e.transform);
        proof {
            let rs = rel_of(listener_cols(listeners@), e.transform.cols@);
            assert(rel == (Vec3Bits { x: rs[0], y: rs[1], z: rs[2] })) by {
                assert(rel.as_seq() == rs);
                assert(rel.as_seq()[0] == rel.x);
                assert(rel.as_seq()[1] == rel.y);
                assert(rel.as_seq()[2] == rel.z);
            }
        }
        let entity_velocity: Option<Vec3Bits> = match e.velocity {
            Some(Velocity(w)) => Some(w),
            None => None,
        };
        match e.source.controller {
            Some(mut v) => {
                v.set_position(rel);
                if let Some(w) = entity_velocity {
                    v.set_velocity(w);
                }
                out.push(
                    SpatialEntity {
                        transform: e.transform,
                        source: AmbisonicSource { controller: Some(v), handle: e.source.handle },
                        velocity: e.velocity,
                    },
                );
                actions.push(
                    Some(
                        SyncAction::Update {
                            voice: v.id,
                            position: rel,
                            velocity: entity_velocity,
                        },
                    ),
                );
            },
            None => {
                let loaded = sources.get(e.source.handle).is_some();
                let mut started: Option<VoiceHandle> = None;
                if loaded {
                    match &mut scene.audio_scene {
                        Some(sc) => {
                            let mut v = sc.play_at(rel);
                            if let Some(w) = entity_velocity {
                                v.set_velocity(w);
                            }
                            started = Some(v);
                        },
                        None => {},
                    }
                }
                match started {
                    Some(v) => {
                        out.push(
                            SpatialEntity {
                                transform: e.transform,
                                source: AmbisonicSource {
                                    controller: Some(v),
                                    handle: e.source.handle,
                                },
                                velocity: e.velocity,
                            },
                        );
                        actions.push(
                            Some(
                                SyncAction::Start {
                                    voice: v.id,
                                    asset: e.source.handle,
                                    position: rel,
                                    velocity: entity_velocity,
                                },
                            ),
                        );
                    },
                    None => {
                        out.push(e);
                        actions.push(None);
                    },
                }
            },
        }
        i = i + 1;
    }
    proof {
        assert(entities@.take(entities@.len() as int) =~= entities@);
    }
    *entities = out;
    actions
}

/// Law: a synchronization pass touches every entity exactly once — the
/// new states and the actions align one-to-one with the entities — and
/// every voice still held afterwards is live: the pass never stops one.
pub proof fn lemma_update_keeps_voices_live(
    assets: Seq<AssetEntry>,
    center: Seq<u32>,
    scene: Option<u64>,
    entities: Seq<SpatialEntity>,
)
    requires
        forall|i: int| 0 <= i < entities.len() ==> entities[i].source.wf(),
    ensures
        ({
            let r = spec_update_all(assets, center, scene, entities);
            &&& r.0.len() == entities.len()
            &&& r.1.len() == entities.len()
            &&& forall|i: int| 0 <= i < entities.len() ==> r.0[i].source.wf()
        }),
    decreases entities.len(),
{
    if entities.len() > 0 {
        lemma_update_keeps_voices_live(assets, center, scene, entities.drop_last());
        let prior = spec_update_all(assets, center, scene, entities.drop_last());
        let last = entities.last();
        let step = spec_sync_entity(
            last,
            center,
            find_asset(assets, last.source.handle) is Some,
            prior.2,
        );
        assert(last.source.wf());
        assert(step.0.source.wf());
        let r = spec_update_all(assets, center, scene, entities);
        assert forall|i: int| 0 <= i < entities.len() implies r.0[i].source.wf() by {
            if i < entities.len() - 1 {
                assert(r.0[i] == prior.0[i]);
            } else {
                assert(r.0[i] == step.0);
            }
        }
    }
}

/// Law: removing or restarting a playing entity stops its live voice
/// exactly once before the state is gone: the handle handed back for
/// release is the held one — same identity — live until this very step
/// and stopped from it on, and the entity keeps no voice behind.
pub proof fn lemma_removal_stops_voice_once(s: AmbisonicSource)
    requires
        s.wf(),
        s.controller is Some,
    ensures
        !s.controller.unwrap().stopped,
        stopped_voice(s.controller).unwrap().stopped,
        stopped_voice(s.controller).unwrap().id == s.controller.unwrap().id,
{
}

/// Law: restarting a playing entity stops its prior voice exactly once
/// and returns the entity to the unstarted state, and the next
/// synchronization step over a resolvable asset and a live scene starts
/// a brand-new voice — one whose identity differs from the stopped
/// voice's, so the old voice is never reused.
///
/// `next_id` is the scene's voice counter; every voice the scene handed
/// out before carries an identity below it.
pub proof fn lemma_restart_starts_fresh_voice(e: SpatialEntity, center: Seq<u32>, next_id: u64)
    requires
        e.source.wf(),
        e.source.controller is Some,
        e.source.controller.unwrap().id < next_id,
        next_id < u64::MAX,
    ensures
        stopped_voice(e.source.controller).unwrap().stopped,
        stopped_voice(e.source.controller).unwrap().id == e.source.controller.unwrap().id,
        ({
            let cleared = SpatialEntity {
                source: AmbisonicSource { controller: None::<VoiceHandle>, ..e.source },
                ..e
            };
            let step = spec_sync_entity(cleared, center, true, Some(next_id));
            &&& step.1 matches Some(SyncAction::Start { voice, .. }) && voice == next_id
            &&& step.0.source.controller matches Some(v)
                && !v.stopped
                && v.id == next_id
                && v.id != e.source.controller.unwrap().id
        }),
{
}

} // verus!

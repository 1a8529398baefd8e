use bevy_ambisonic::ambisonic_startup_system;
use bevy_ambisonic::ambisonic_update_system;
use bevy_ambisonic::amibsonic_shutdown_system;
use bevy_ambisonic::AmbisonicResource;
use bevy_ambisonic::AmbisonicSample;
use bevy_ambisonic::AmbisonicSource;
use bevy_ambisonic::ListenerEntry;
use bevy_ambisonic::SampleAssets;
use bevy_ambisonic::SampleStream;
use bevy_ambisonic::SourceFormat;
use bevy_ambisonic::SpatialEntity;
use bevy_ambisonic::SyncAction;
use bevy_ambisonic::Vec3Bits;
use bevy_ambisonic::Velocity;
use bevy_ambisonic::WorldTransform;

fn translation_transform(x: f32, y: f32, z: f32) -> WorldTransform {
    let m: [f32; 16] = [
        1.0, 0.0, 0.0, 0.0, //
        0.0, 1.0, 0.0, 0.0, //
        0.0, 0.0, 1.0, 0.0, //
        x, y, z, 1.0,
    ];
    let mut cols = [0u32; 16];
    for (c, v) in cols.iter_mut().zip(m.iter()) {
        *c = v.to_bits();
    }
    WorldTransform { cols }
}

fn vec3(x: f32, y: f32, z: f32) -> Vec3Bits {
    Vec3Bits { x: x.to_bits(), y: y.to_bits(), z: z.to_bits() }
}

fn as_floats(v: Vec3Bits) -> (f32, f32, f32) {
    (f32::from_bits(v.x), f32::from_bits(v.y), f32::from_bits(v.z))
}

fn test_sample() -> AmbisonicSample {
    let fmt = SourceFormat {
        current_frame_len: None,
        sample_rate: 44100,
        total_duration_micros: None,
    };
    AmbisonicSample::from_source_f32(
        SampleStream::Finite(vec![0.5f32.to_bits(); 8]),
        fmt,
        true,
    )
}

fn ready_world() -> (SampleAssets, AmbisonicResource) {
    let mut assets = SampleAssets::new();
    assets.insert(5, test_sample());
    let mut res = AmbisonicResource::default();
    ambisonic_startup_system(&mut res);
    (assets, res)
}

#[test]
fn identity_listener_passes_world_position_through() {
    let (assets, mut res) = ready_world();
    let listeners: Vec<ListenerEntry> = Vec::new();
    let mut entities = vec![SpatialEntity {
        transform: translation_transform(10.0, 0.0, 0.0),
        source: AmbisonicSource::new(5),
        velocity: None,
    }];
    let actions = ambisonic_update_system(&assets, &mut res, &listeners, &mut entities);
    assert_eq!(actions.len(), 1);
    match actions[0] {
        Some(SyncAction::Start { voice, asset, position, velocity }) => {
            assert_eq!(voice, 0);
            assert_eq!(asset, 5);
            assert_eq!(as_floats(position), (10.0, 0.0, 0.0));
            assert_eq!(velocity, None);
        }
        other => panic!("expected a start action, got {:?}", other.is_some()),
    }
    let voice = entities[0].source.controller.expect("voice should be live");
    assert_eq!(voice.id, 0);
    assert!(!voice.stopped);
    assert_eq!(as_floats(voice.position), (10.0, 0.0, 0.0));
}

#[test]
fn translated_listener_shifts_the_relative_position() {
    let (assets, mut res) = ready_world();
    let listeners = vec![ListenerEntry { entity: 1, transform: translation_transform(5.0, 0.0, 0.0) }];
    let mut entities = vec![SpatialEntity {
        transform: translation_transform(10.0, 0.0, 0.0),
        source: AmbisonicSource::new(5),
        velocity: None,
    }];
    let _ = ambisonic_update_system(&assets, &mut res, &listeners, &mut entities);
    let voice = entities[0].source.controller.expect("voice should be live");
    assert_eq!(as_floats(voice.position), (5.0, 0.0, 0.0));
}

#[test]
fn ambiguous_listeners_resolve_to_the_lowest_entity() {
    let (assets, mut res) = ready_world();
    let listeners = vec![
        ListenerEntry { entity: 7, transform: translation_transform(5.0, 0.0, 0.0) },
        ListenerEntry { entity: 3, transform: translation_transform(2.0, 0.0, 0.0) },
    ];
    let mut entities = vec![SpatialEntity {
        transform: translation_transform(10.0, 0.0, 0.0),
        source: AmbisonicSource::new(5),
        velocity: None,
    }];
    let _ = ambisonic_update_system(&assets, &mut res, &listeners, &mut entities);
    let voice = entities[0].source.controller.expect("voice should be live");
    assert_eq!(as_floats(voice.position), (8.0, 0.0, 0.0));
}

#[test]
fn unresolved_asset_keeps_the_entity_unstarted() {
    let assets = SampleAssets::new();
    let mut res = AmbisonicResource::default();
    ambisonic_startup_system(&mut res);
    let listeners: Vec<ListenerEntry> = Vec::new();
    let mut entities = vec![SpatialEntity {
        transform: translation_transform(1.0, 2.0, 3.0),
        source: AmbisonicSource::new(5),
        velocity: None,
    }];
    let actions = ambisonic_update_system(&assets, &mut res, &listeners, &mut entities);
    assert!(actions[0].is_none());
    assert!(entities[0].source.controller.is_none());

    // The asset loads later; the entity retries every frame and now starts.
    let mut assets = assets;
    assets.insert(5, test_sample());
    let actions = ambisonic_update_system(&assets, &mut res, &listeners, &mut entities);
    assert!(actions[0].is_some());
    assert!(entities[0].source.controller.is_some());
}

#[test]
fn absent_scene_keeps_every_entity_unstarted() {
    let mut assets = SampleAssets::new();
    assets.insert(5, test_sample());
    let mut res = AmbisonicResource::default();
    ambisonic_startup_system(&mut res);
    amibsonic_shutdown_system(&mut res);
    let listeners: Vec<ListenerEntry> = Vec::new();
    let mut entities = vec![SpatialEntity {
        transform: translation_transform(1.0, 0.0, 0.0),
        source: AmbisonicSource::new(5),
        velocity: None,
    }];
    let actions = ambisonic_update_system(&assets, &mut res, &listeners, &mut entities);
    assert!(actions[0].is_none());
    assert!(entities[0].source.controller.is_none());
}

#[test]
fn velocity_is_applied_on_start_and_kept_when_absent() {
    let (assets, mut res) = ready_world();
    let listeners: Vec<ListenerEntry> = Vec::new();
    let mut entities = vec![SpatialEntity {
        transform: translation_transform(0.0, 0.0, 0.0),
        source: AmbisonicSource::new(5),
        velocity: Some(Velocity(vec3(20.0, 0.0, 5.0))),
    }];
    let _ = ambisonic_update_system(&assets, &mut res, &listeners, &mut entities);
    let voice = entities[0].source.controller.expect("voice should be live");
    assert_eq!(voice.velocity.map(as_floats), Some((20.0, 0.0, 5.0)));

    // A frame without a velocity leaves the voice's prior one standing.
    entities[0].velocity = None;
    let actions = ambisonic_update_system(&assets, &mut res, &listeners, &mut entities);
    match actions[0] {
        Some(SyncAction::Update { velocity, .. }) => assert_eq!(velocity, None),
        _ => panic!("expected an update action"),
    }
    let voice = entities[0].source.controller.expect("voice should be live");
    assert_eq!(voice.velocity.map(as_floats), Some((20.0, 0.0, 5.0)));

    // A frame with a new velocity replaces it.
    entities[0].velocity = Some(Velocity(vec3(0.0, 1.0, 0.0)));
    let _ = ambisonic_update_system(&assets, &mut res, &listeners, &mut entities);
    let voice = entities[0].source.controller.expect("voice should be live");
    assert_eq!(voice.velocity.map(as_floats), Some((0.0, 1.0, 0.0)));
}

#[test]
fn playing_entities_get_position_updates() {
    let (assets, mut res) = ready_world();
    let listeners: Vec<ListenerEntry> = Vec::new();
    let mut entities = vec![SpatialEntity {
        transform: translation_transform(1.0, 0.0, 0.0),
        source: AmbisonicSource::new(5),
        velocity: None,
    }];
    let _ = ambisonic_update_system(&assets, &mut res, &listeners, &mut entities);
    // The entity moves; the next pass must push the new position into the
    // same voice instead of starting a second one.
    entities[0].transform = translation_transform(2.0, 3.0, 4.0);
    let actions = ambisonic_update_system(&assets, &mut res, &listeners, &mut entities);
    match actions[0] {
        Some(SyncAction::Update { voice, position, .. }) => {
            assert_eq!(voice, 0);
            assert_eq!(as_floats(position), (2.0, 3.0, 4.0));
        }
        _ => panic!("expected an update action"),
    }
    let voice = entities[0].source.controller.expect("voice should be live");
    assert_eq!(voice.id, 0);
    assert_eq!(as_floats(voice.position), (2.0, 3.0, 4.0));
}

#[test]
fn removal_stops_the_live_voice_exactly_once() {
    let (assets, mut res) = ready_world();
    let listeners: Vec<ListenerEntry> = Vec::new();
    let mut entities = vec![SpatialEntity {
        transform: translation_transform(0.0, 0.0, 0.0),
        source: AmbisonicSource::new(5),
        velocity: None,
    }];
    let _ = ambisonic_update_system(&assets, &mut res, &listeners, &mut entities);
    let live = entities[0].source.controller.expect("voice should be live");
    assert!(!live.stopped);

    // Removing the spatial state hands the voice back, stopped, so the
    // host can release the engine side before dropping the entity.
    let stopped = entities[0].source.restart().expect("a live voice must come back");
    assert!(stopped.stopped);
    assert_eq!(stopped.id, live.id);
    assert!(entities[0].source.controller.is_none());
}

#[test]
fn restart_returns_to_unstarted_and_a_fresh_voice_is_started() {
    let (assets, mut res) = ready_world();
    let listeners: Vec<ListenerEntry> = Vec::new();
    let mut entities = vec![SpatialEntity {
        transform: translation_transform(0.0, 0.0, 0.0),
        source: AmbisonicSource::new(5),
        velocity: None,
    }];
    let _ = ambisonic_update_system(&assets, &mut res, &listeners, &mut entities);
    let first = entities[0].source.controller.expect("voice should be live");

    let stopped = entities[0].source.restart().expect("a live voice must come back");
    assert!(stopped.stopped);
    assert_eq!(stopped.id, first.id);
    assert!(entities[0].source.controller.is_none());

    // Restarting twice is harmless: there is no voice left to stop.
    assert!(entities[0].source.restart().is_none());

    let actions = ambisonic_update_system(&assets, &mut res, &listeners, &mut entities);
    match actions[0] {
        Some(SyncAction::Start { voice, .. }) => assert_ne!(voice, first.id),
        _ => panic!("expected a fresh start action"),
    }
    let second = entities[0].source.controller.expect("voice should be live again");
    assert_ne!(second.id, first.id);
    assert!(!second.stopped);
}

#[test]
fn duplicate_asset_identifiers_resolve_to_the_first_insertion() {
    let mut assets = SampleAssets::new();
    let fmt = SourceFormat {
        current_frame_len: None,
        sample_rate: 44100,
        total_duration_micros: None,
    };
    assets.insert(1, AmbisonicSample::from_source_f32(
        SampleStream::Finite(vec![0u32; 3]),
        fmt,
        false,
    ));
    assets.insert(1, AmbisonicSample::from_source_f32(
        SampleStream::Finite(vec![0u32; 9]),
        fmt,
        false,
    ));
    let found = assets.get(1).expect("the asset is present");
    assert_eq!(found.len(), 3);
    assert!(assets.get(2).is_none());
}

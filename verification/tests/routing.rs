use voice_assistant::discord::{find_channel_from_user, ChannelMembers, SharedState, SpeakerPacket};
use voice_assistant::resampler::ListenerEvent;

#[test]
fn new_state_routes_nothing() {
    let state = SharedState::new();
    assert_eq!(state.session_count(), 0);
    assert_eq!(state.route(1), None);
    assert!(state.route_packet(1, vec![1, 2]).is_none());
}

#[test]
fn first_sight_of_a_source_spawns_a_session() {
    let mut state = SharedState::new();
    assert_eq!(state.speaking_state_update(100, 7), Some(0));
    assert_eq!(state.session_count(), 1);
    assert_eq!(state.route(100), Some(0));
}

#[test]
fn known_source_spawns_nothing() {
    let mut state = SharedState::new();
    assert_eq!(state.speaking_state_update(100, 7), Some(0));
    assert_eq!(state.speaking_state_update(100, 7), None);
    assert_eq!(state.speaking_state_update(100, 8), None);
    assert_eq!(state.session_count(), 1);
    assert_eq!(state.route(100), Some(0));
}

#[test]
fn every_source_gets_its_own_session() {
    let mut state = SharedState::new();
    assert_eq!(state.speaking_state_update(100, 7), Some(0));
    assert_eq!(state.speaking_state_update(200, 8), Some(1));
    assert_eq!(state.speaking_state_update(300, 9), Some(2));
    assert_eq!(state.route(100), Some(0));
    assert_eq!(state.route(200), Some(1));
    assert_eq!(state.route(300), Some(2));
    assert_eq!(state.session_count(), 3);
}

#[test]
fn packets_go_to_the_session_of_their_source() {
    let mut state = SharedState::new();
    state.speaking_state_update(100, 7);
    state.speaking_state_update(200, 8);
    let delivery = state.route_packet(200, vec![5, 6, 7]).unwrap();
    assert_eq!(delivery.session, 1);
    match delivery.event {
        ListenerEvent::AudioPacket(samples) => assert_eq!(samples, vec![5i16, 6, 7]),
        ListenerEvent::Disconnect => panic!("expected a packet"),
    }
}

#[test]
fn packets_of_unknown_sources_are_dropped() {
    let mut state = SharedState::new();
    state.speaking_state_update(100, 7);
    assert!(state.route_packet(101, vec![5, 6, 7]).is_none());
}

#[test]
fn disconnect_reaches_the_session_and_removes_the_route() {
    let mut state = SharedState::new();
    state.speaking_state_update(100, 7);
    state.speaking_state_update(200, 8);
    let delivery = state.client_disconnect(7).unwrap();
    assert_eq!(delivery.session, 0);
    assert!(matches!(delivery.event, ListenerEvent::Disconnect));
    assert_eq!(state.route(100), None);
    assert_eq!(state.route(200), Some(1));
    assert_eq!(state.session_count(), 1);
    assert!(state.route_packet(100, vec![1]).is_none());
}

#[test]
fn disconnect_of_an_unknown_user_changes_nothing() {
    let mut state = SharedState::new();
    state.speaking_state_update(100, 7);
    assert!(state.client_disconnect(8).is_none());
    assert_eq!(state.route(100), Some(0));
}

#[test]
fn second_disconnect_finds_nothing() {
    let mut state = SharedState::new();
    state.speaking_state_update(100, 7);
    assert!(state.client_disconnect(7).is_some());
    assert!(state.client_disconnect(7).is_none());
}

#[test]
fn reused_source_id_gets_a_fresh_session() {
    let mut state = SharedState::new();
    assert_eq!(state.speaking_state_update(100, 7), Some(0));
    assert!(state.client_disconnect(7).is_some());
    assert_eq!(state.speaking_state_update(100, 9), Some(1));
    let delivery = state.route_packet(100, vec![1]).unwrap();
    assert_eq!(delivery.session, 1);
}

#[test]
fn user_under_a_new_source_keeps_the_old_session_routed() {
    let mut state = SharedState::new();
    assert_eq!(state.speaking_state_update(100, 7), Some(0));
    assert_eq!(state.speaking_state_update(101, 7), Some(1));
    let delivery = state.client_disconnect(7).unwrap();
    assert_eq!(delivery.session, 1);
    assert_eq!(state.route(100), Some(0));
    assert_eq!(state.route(101), None);
}

#[test]
fn tick_is_routed_in_order_and_unknown_sources_are_dropped() {
    let mut state = SharedState::new();
    state.speaking_state_update(100, 7);
    state.speaking_state_update(200, 8);
    let deliveries = state.route_tick(vec![
        SpeakerPacket { ssrc: 200, samples: vec![1, 2] },
        SpeakerPacket { ssrc: 300, samples: vec![3, 4] },
        SpeakerPacket { ssrc: 100, samples: vec![5] },
        SpeakerPacket { ssrc: 200, samples: vec![] },
    ]);
    let seen: Vec<(u64, Vec<i16>)> = deliveries
        .into_iter()
        .map(|d| match d.event {
            ListenerEvent::AudioPacket(samples) => (d.session, samples),
            ListenerEvent::Disconnect => panic!("expected a packet"),
        })
        .collect();
    assert_eq!(seen, vec![(1, vec![1i16, 2]), (0, vec![5i16]), (1, vec![])]);
}

#[test]
fn empty_tick_delivers_nothing() {
    let mut state = SharedState::new();
    state.speaking_state_update(100, 7);
    assert!(state.route_tick(Vec::new()).is_empty());
}

#[test]
fn tick_after_disconnect_reaches_nobody() {
    let mut state = SharedState::new();
    state.speaking_state_update(100, 7);
    state.client_disconnect(7);
    let deliveries = state.route_tick(vec![SpeakerPacket { ssrc: 100, samples: vec![1, 2] }]);
    assert!(deliveries.is_empty());
}

#[test]
fn channel_of_a_user_is_the_first_that_holds_them() {
    let channels = vec![
        ChannelMembers { channel: 10, members: vec![1, 2] },
        ChannelMembers { channel: 20, members: vec![3, 4] },
        ChannelMembers { channel: 30, members: vec![4, 5] },
    ];
    assert_eq!(find_channel_from_user(1, &channels), Some(10));
    assert_eq!(find_channel_from_user(4, &channels), Some(20));
    assert_eq!(find_channel_from_user(5, &channels), Some(30));
    assert_eq!(find_channel_from_user(6, &channels), None);
    assert_eq!(find_channel_from_user(1, &Vec::new()), None);
}

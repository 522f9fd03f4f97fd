use libp2p::Multiaddr;
use libp2p_identity::Keypair;
use strata_p2p::p2p::events::{GossipEvent, ReceivedGossipMessage};
use strata_p2p::p2p::swarm::dial_manager::DialManager;
use strata_p2p::p2p::swarm::errors::SetupError;
use strata_p2p::p2p::swarm::filtering::AllowList;
use strata_p2p::p2p::swarm::message::SignedMessage;
use strata_p2p::p2p::swarm::node::{
    connected_app_keys, connection_established, gossip_verdict, is_quic, order_quic_first,
    outgoing_connection_failed, request_response_verdict, setup_event_action, start_dialing,
    ConnectionProgress, DecodedMessage, DialAttempts, EnvelopeClock, envelope_age_verdict, DialFailure, DialStart, InboundVerdict,
    NodeOptions, NodeSettings, RejectReason, SetupAction, request_route, RequestRoute,
};
use strata_p2p::p2p::swarm::setup::behavior::SetupBehaviour;
use strata_p2p::p2p::swarm::setup::events::{SetupBehaviourEvent, SetupHandlerEvent};

fn addr(s: &str) -> Vec<u8> {
    s.parse::<Multiaddr>().unwrap().to_vec()
}

#[test]
fn quic_addresses_are_recognised() {
    assert!(is_quic(&addr("/ip4/127.0.0.1/udp/4001/quic-v1")));
    assert!(!is_quic(&addr("/ip4/127.0.0.1/tcp/4001")));
    assert!(!is_quic(&[0xff, 0xff, 0xff]));
}

#[test]
fn quic_addresses_come_first_in_stable_order() {
    let t1 = addr("/ip4/10.0.0.1/tcp/1");
    let q1 = addr("/ip4/10.0.0.2/udp/2/quic-v1");
    let t2 = addr("/ip4/10.0.0.3/tcp/3");
    let q2 = addr("/ip4/10.0.0.4/udp/4/quic-v1");
    let ordered = order_quic_first(vec![t1.clone(), q1.clone(), t2.clone(), q2.clone()]);
    assert_eq!(ordered, vec![q1, q2, t1, t2]);
}

#[test]
fn start_dialing_queues_the_rest() {
    let mut dials = DialManager::new();
    let key = vec![1, 2, 3];
    assert_eq!(start_dialing(&mut dials, key.clone(), vec![]), DialStart::NoAddresses);
    assert!(!dials.has_app_public_key(&key));
    let t = addr("/ip4/10.0.0.1/tcp/1");
    let q = addr("/ip4/10.0.0.2/udp/2/quic-v1");
    assert_eq!(
        start_dialing(&mut dials, key.clone(), vec![t.clone(), q.clone()]),
        DialStart::Dial { address: q.clone() }
    );
    assert!(dials.has_app_public_key(&key));
    assert_eq!(
        start_dialing(&mut dials, key.clone(), vec![t.clone()]),
        DialStart::AlreadyDialing
    );
    assert_eq!(dials.pop_next_addr(&key), Some(t));
    assert_eq!(dials.pop_next_addr(&key), None);
}

#[test]
fn failed_dials_retry_then_give_up() {
    let mut dials = DialManager::new();
    let key = vec![9];
    let a1 = addr("/ip4/10.0.0.1/tcp/1");
    let a2 = addr("/ip4/10.0.0.2/tcp/2");
    let first = start_dialing(&mut dials, key.clone(), vec![a1.clone(), a2.clone()]);
    assert_eq!(first, DialStart::Dial { address: a1 });
    dials.map_connid(7, key.clone());
    assert_eq!(outgoing_connection_failed(&mut dials, 99), DialFailure::Untracked);
    assert_eq!(
        outgoing_connection_failed(&mut dials, 7),
        DialFailure::Retry { app_public_key: key.clone(), address: a2 }
    );
    assert_eq!(dials.get_app_public_key_by_connection_id(&7), None);
    dials.map_connid(8, key.clone());
    assert_eq!(
        outgoing_connection_failed(&mut dials, 8),
        DialFailure::Exhausted { app_public_key: key.clone() }
    );
    assert!(!dials.has_app_public_key(&key));
}

#[test]
fn established_connection_ends_dialing() {
    let mut dials = DialManager::new();
    let key = vec![4, 4];
    let a1 = addr("/ip4/10.0.0.1/tcp/1");
    let a2 = addr("/ip4/10.0.0.2/tcp/2");
    start_dialing(&mut dials, key.clone(), vec![a1, a2]);
    dials.map_connid(3, key.clone());
    assert_eq!(connection_established(&mut dials, 4), None);
    assert!(dials.has_app_public_key(&key));
    assert_eq!(connection_established(&mut dials, 3), Some(key.clone()));
    assert!(!dials.has_app_public_key(&key));
    assert_eq!(dials.get_app_public_key_by_connection_id(&3), None);
}

#[test]
fn setup_events_keep_only_allowed_unbanned_peers() {
    let allowed = vec![1u8, 1];
    let list = AllowList::new(vec![allowed.clone()]);
    let received = |k: Vec<u8>| SetupBehaviourEvent::AppKeyReceived {
        transport_id: vec![5],
        app_public_key: k,
        conn_id: 0,
    };
    assert_eq!(setup_event_action(&received(allowed.clone()), false, &list), SetupAction::Keep);
    assert_eq!(
        setup_event_action(&received(allowed.clone()), true, &list),
        SetupAction::Disconnect { transport_id: vec![5] }
    );
    assert_eq!(
        setup_event_action(&received(vec![2, 2]), false, &list),
        SetupAction::Disconnect { transport_id: vec![5] }
    );
    let failed = SetupBehaviourEvent::NegotiationFailed { transport_id: vec![6], conn_id: 1 };
    assert_eq!(
        setup_event_action(&failed, false, &list),
        SetupAction::Disconnect { transport_id: vec![6] }
    );
    let error = SetupBehaviourEvent::ErrorDuringSetupHandshake {
        transport_id: vec![7],
        conn_id: 2,
        error: SetupError::SignatureVerificationFailed,
    };
    assert_eq!(
        setup_event_action(&error, false, &list),
        SetupAction::Disconnect { transport_id: vec![7] }
    );
}

fn signed_by(kp: &Keypair, content: &[u8]) -> SignedMessage {
    let sig = kp.sign(content).unwrap();
    let mut signature = [0u8; 64];
    signature.copy_from_slice(&sig);
    SignedMessage { message: content.to_vec(), signature }
}

const NOW: u64 = 1_000_000;

fn clock() -> EnvelopeClock {
    EnvelopeClock { now_secs: NOW, max_age_secs: 300, max_clock_skew_secs: 5 }
}

fn decoded_by(kp: &Keypair, date: u64) -> DecodedMessage {
    DecodedMessage {
        signed: signed_by(kp, b"content"),
        app_public_key: kp.public().encode_protobuf(),
        date,
        payload: b"payload".to_vec(),
    }
}

#[test]
fn gossip_verdicts_follow_the_checks_in_order() {
    let kp = Keypair::generate_ed25519();
    let key = kp.public().encode_protobuf();
    let list = AllowList::new(vec![key.clone()]);
    let good = decoded_by(&kp, NOW);
    let peer = Some(vec![8u8]);
    let c = clock();
    assert_eq!(gossip_verdict(None, false, Some(good.clone()), &c, &list), InboundVerdict::UnknownPeer);
    assert_eq!(gossip_verdict(peer.clone(), true, Some(good.clone()), &c, &list), InboundVerdict::Muted);
    assert_eq!(
        gossip_verdict(peer.clone(), false, None, &c, &list),
        InboundVerdict::Rejected(RejectReason::Undecodable)
    );
    let mut bad_key = good.clone();
    bad_key.app_public_key = vec![1, 2, 3];
    assert_eq!(
        gossip_verdict(peer.clone(), false, Some(bad_key), &c, &list),
        InboundVerdict::Rejected(RejectReason::KeyUndecodable)
    );
    let mut tampered = good.clone();
    tampered.signed.message = b"other".to_vec();
    assert_eq!(
        gossip_verdict(peer.clone(), false, Some(tampered), &c, &list),
        InboundVerdict::Rejected(RejectReason::BadSignature)
    );
    assert_eq!(
        gossip_verdict(peer.clone(), false, Some(decoded_by(&kp, NOW - 301)), &c, &list),
        InboundVerdict::Rejected(RejectReason::StaleMessage)
    );
    assert_eq!(
        gossip_verdict(peer.clone(), false, Some(decoded_by(&kp, NOW + 6)), &c, &list),
        InboundVerdict::Rejected(RejectReason::FutureMessage)
    );
    assert!(matches!(
        gossip_verdict(peer.clone(), false, Some(decoded_by(&kp, NOW - 300)), &c, &list),
        InboundVerdict::Accepted { .. }
    ));
    assert!(matches!(
        gossip_verdict(peer.clone(), false, Some(decoded_by(&kp, NOW + 5)), &c, &list),
        InboundVerdict::Accepted { .. }
    ));
    let other = Keypair::generate_ed25519();
    assert_eq!(
        gossip_verdict(peer.clone(), false, Some(decoded_by(&other, NOW)), &c, &list),
        InboundVerdict::Rejected(RejectReason::NotAllowed)
    );
    let accepted = gossip_verdict(peer.clone(), false, Some(good), &c, &list);
    assert_eq!(
        accepted,
        InboundVerdict::Accepted { sender: key.clone(), message: b"payload".to_vec() }
    );
    assert_eq!(
        GossipEvent::from_verdict(accepted),
        Some(GossipEvent::ReceivedMessage(ReceivedGossipMessage {
            sender: key,
            data: b"payload".to_vec()
        }))
    );
    assert_eq!(GossipEvent::from_verdict(InboundVerdict::Muted), None);
}

#[test]
fn requests_must_be_signed_by_the_peer_they_come_from() {
    let peer_kp = Keypair::generate_ed25519();
    let peer_key = peer_kp.public().encode_protobuf();
    let other = Keypair::generate_ed25519();
    let c = clock();
    assert_eq!(
        request_response_verdict(Some(peer_key.clone()), false, Some(decoded_by(&other, NOW)), &c),
        InboundVerdict::Rejected(RejectReason::SenderMismatch)
    );
    assert_eq!(
        request_response_verdict(Some(peer_key.clone()), false, Some(decoded_by(&peer_kp, NOW)), &c),
        InboundVerdict::Accepted { sender: peer_key.clone(), message: b"payload".to_vec() }
    );
    assert_eq!(
        request_response_verdict(Some(peer_key.clone()), false, Some(decoded_by(&peer_kp, NOW - 1000)), &c),
        InboundVerdict::Rejected(RejectReason::StaleMessage)
    );
    assert_eq!(
        request_response_verdict(Some(peer_key), true, Some(decoded_by(&peer_kp, NOW)), &c),
        InboundVerdict::Muted
    );
}

#[test]
fn envelope_age_limits() {
    let c = clock();
    assert_eq!(envelope_age_verdict(NOW, &c), None);
    assert_eq!(envelope_age_verdict(NOW - 300, &c), None);
    assert_eq!(envelope_age_verdict(NOW - 301, &c), Some(RejectReason::StaleMessage));
    assert_eq!(envelope_age_verdict(NOW + 5, &c), None);
    assert_eq!(envelope_age_verdict(NOW + 6, &c), Some(RejectReason::FutureMessage));
    let s = NodeSettings::resolve(&NodeOptions::default());
    assert_eq!(s.envelope_clock(7), EnvelopeClock { now_secs: 7, max_age_secs: 300, max_clock_skew_secs: 0 });
}

#[test]
fn node_settings_fill_in_defaults() {
    let s = NodeSettings::resolve(&NodeOptions::default());
    assert_eq!(s.max_retries, 3);
    assert_eq!(s.dial_timeout_ms, 250);
    assert_eq!(s.general_timeout_ms, 250);
    assert_eq!(s.connection_check_interval_ms, 500);
    assert_eq!(s.channel_timeout_ms, 5000);
    assert_eq!(s.command_buffer_size, 64);
    assert_eq!(s.gossip_event_buffer_size, 256);
    assert_eq!(s.gossip_command_buffer_size, 64);
    assert_eq!(s.req_resp_event_buffer_size, 64);
    let o = NodeOptions {
        max_retries: Some(5),
        gossip_event_buffer_size: Some(10),
        gossip_channel_size: Some(20),
        ..NodeOptions::default()
    };
    let s = NodeSettings::resolve(&o);
    assert_eq!(s.max_retries, 5);
    assert_eq!(s.gossip_event_buffer_size, 20);
    let o = NodeOptions { gossip_event_buffer_size: Some(10), ..NodeOptions::default() };
    assert_eq!(NodeSettings::resolve(&o).gossip_event_buffer_size, 10);
}

#[test]
fn dial_attempts_allow_max_retries_plus_one() {
    let mut a = DialAttempts::new(2);
    assert!(a.record_failure());
    assert!(a.record_failure());
    assert!(!a.record_failure());
    assert_eq!(a.failures, 3);
    let mut z = DialAttempts::new(0);
    assert!(!z.record_failure());
}

#[test]
fn connection_progress_completes_when_all_reached() {
    let a = addr("/ip4/10.0.0.1/tcp/1");
    let b = addr("/ip4/10.0.0.2/tcp/2");
    let mut p = ConnectionProgress::new(&vec![a.clone(), b.clone()]);
    assert!(!p.is_complete());
    p.on_dialer_connected(&a);
    assert!(!p.is_complete());
    p.on_subscribed();
    assert_eq!(p.subscriptions(), 1);
    p.on_dialer_connected(&b);
    assert!(p.is_complete());
    assert!(ConnectionProgress::new(&vec![]).is_complete());
}

#[test]
fn connected_app_keys_skip_peers_without_setup() {
    let mut setup = SetupBehaviour::new(vec![0], vec![0], 60, 10);
    setup.on_connection_handler_event(
        vec![1],
        0,
        SetupHandlerEvent::AppKeyReceived { app_public_key: vec![11] },
    );
    setup.on_connection_handler_event(
        vec![3],
        1,
        SetupHandlerEvent::AppKeyReceived { app_public_key: vec![33] },
    );
    let keys = connected_app_keys(&setup, &vec![vec![1], vec![2], vec![3]]);
    assert_eq!(keys, vec![vec![11], vec![33]]);
}

#[test]
fn setup_tables_stay_a_bimap_when_keys_change() {
    let mut setup = SetupBehaviour::new(vec![0], vec![0], 60, 10);
    let got = |s: &mut SetupBehaviour, peer: u8, key: u8| {
        s.on_connection_handler_event(
            vec![peer],
            0,
            SetupHandlerEvent::AppKeyReceived { app_public_key: vec![key] },
        )
    };
    got(&mut setup, 1, 11);
    got(&mut setup, 1, 12);
    assert_eq!(setup.get_app_public_key_by_transport_id(&[1]), Some(vec![12]));
    assert_eq!(setup.get_transport_id_by_application_key(&[12]), Some(vec![1]));
    assert_eq!(setup.get_transport_id_by_application_key(&[11]), None);
    got(&mut setup, 2, 12);
    assert_eq!(setup.get_transport_id_by_application_key(&[12]), Some(vec![2]));
    assert_eq!(setup.get_app_public_key_by_transport_id(&[2]), Some(vec![12]));
    assert_eq!(setup.get_app_public_key_by_transport_id(&[1]), None);
}

#[test]
fn requests_go_only_to_connected_peers_after_setup() {
    let mut setup = SetupBehaviour::new(vec![0], vec![0], 60, 10);
    setup.on_connection_handler_event(
        vec![1],
        0,
        SetupHandlerEvent::AppKeyReceived { app_public_key: vec![11] },
    );
    assert_eq!(
        request_route(&setup, &[11], &vec![vec![5], vec![1]]),
        RequestRoute::Send { transport_id: vec![1] }
    );
    assert_eq!(
        request_route(&setup, &[11], &vec![vec![5]]),
        RequestRoute::NotConnected { transport_id: vec![1] }
    );
    assert_eq!(request_route(&setup, &[22], &vec![vec![1]]), RequestRoute::NoSetup);
}

use bytes::BytesMut;
use libp2p_identity::{ed25519, Keypair, PeerId, PublicKey};
use strata_p2p::db::operator::OperatorPubkey;
use strata_p2p::p2p::operator_pubkey::P2POperatorPubKey;
use strata_p2p::p2p::signer::TransportKeypairSigner;
use strata_p2p::p2p::swarm::codec::CodecLimits;
use strata_p2p::p2p::swarm::dht_record::{validate_dht_record, RecordData, SignedRecordData};
use strata_p2p::p2p::swarm::dto;
use strata_p2p::p2p::swarm::errors::{SetupError, SetupUpgradeError};
use strata_p2p::p2p::swarm::filtering::{AllowList, BanList, Filtering};
use strata_p2p::p2p::swarm::handle::ErrDroppedMsgs;
use strata_p2p::p2p::swarm::hasher::Sha256Hasher;
use strata_p2p::p2p::swarm::kad_republish::{
    IntervalKind, KadRepublishState, PollStep, WhyThisIsPolled,
};
use strata_p2p::p2p::swarm::message::{ProtocolId, ProtocolVersion, SignedMessage};
use strata_p2p::p2p::swarm::setup::flexbuffers_codec::{FlexbuffersCodec, FrameError};
use strata_p2p::p2p::swarm::setup::handler::check_inbound_setup;
use strata_p2p::p2p::swarm::setup::upgrade::{InboundSetupUpgrade, OutboundSetupUpgrade};
use strata_p2p::p2p::swarm::signed_data::SignedData;
use strata_p2p::p2p::text::to_decimal;
use strata_p2p::p2p::swarm::setup::flexbuffers_codec::buffer_len;

#[test]
fn allow_and_ban_lists_track_respect() {
    let mut allow = AllowList::new(vec![vec![1], vec![2]]);
    assert!(allow.is_app_pk_respected_enough_to_connect(&[1]));
    assert!(!allow.is_app_pk_respected_enough_to_connect(&[3]));
    allow.respect_app_pk_to_allow_connection(vec![3]);
    assert!(allow.is_app_pk_respected_enough_to_connect(&[3]));
    allow.disrespect_app_pk_to_disallow_connection(vec![1]);
    assert!(!allow.is_app_pk_respected_enough_to_connect(&[1]));
    assert!(allow.is_app_pk_respected_enough_to_connect(&[2]));

    let mut ban = BanList::new(vec![vec![7]]);
    assert!(!ban.is_app_pk_respected_enough_to_connect(&[7]));
    assert!(ban.is_app_pk_respected_enough_to_connect(&[8]));
    ban.disrespect_app_pk_to_disallow_connection(vec![8]);
    assert!(!ban.is_app_pk_respected_enough_to_connect(&[8]));
    ban.respect_app_pk_to_allow_connection(vec![7]);
    assert!(ban.is_app_pk_respected_enough_to_connect(&[7]));
}

#[test]
fn kad_republish_republishes_once_on_first_routing_update() {
    let mut s = KadRepublishState::new();
    assert_eq!(s.poll_step(), PollStep::RegisterWaker);
    assert!(s.send_event(WhyThisIsPolled::RoutingUpdated));
    assert_eq!(s.poll_step(), PollStep::Republish);
    assert!(!s.is_routing_updated_first_time());
    assert!(!s.send_event(WhyThisIsPolled::RoutingUpdated));
    assert_eq!(s.poll_step(), PollStep::Wait);
    assert!(s.send_event(WhyThisIsPolled::PutRecordOk));
    assert_eq!(s.poll_step(), PollStep::StartIntervalAndPoll(IntervalKind::AfterSuccess));
    assert_eq!(s.poll_step(), PollStep::PollInterval);
    assert!(s.send_event(WhyThisIsPolled::PutRecordError));
    assert_eq!(s.poll_step(), PollStep::StartIntervalAndPoll(IntervalKind::AfterFailure));
    assert!(!s.send_event(WhyThisIsPolled::FirstTime));
}

#[test]
fn inbound_setup_checks_in_order() {
    let me = vec![1u8];
    let them = vec![2u8];
    assert_eq!(
        check_inbound_setup(false, &them, &me, 100, &me, &them, 100, 60, 10),
        Err(SetupError::SignatureVerificationFailed)
    );
    assert_eq!(
        check_inbound_setup(true, &me, &them, 100, &me, &them, 100, 60, 10),
        Err(SetupError::TransportIdMismatch)
    );
    assert_eq!(
        check_inbound_setup(true, &them, &me, 30, &me, &them, 100, 60, 10),
        Err(SetupError::StaleMessage)
    );
    assert_eq!(
        check_inbound_setup(true, &them, &me, 111, &me, &them, 100, 60, 10),
        Err(SetupError::FutureMessage)
    );
    assert_eq!(check_inbound_setup(true, &them, &me, 40, &me, &them, 100, 60, 10), Ok(()));
    assert_eq!(check_inbound_setup(true, &them, &me, 110, &me, &them, 100, 60, 10), Ok(()));
}

#[test]
fn frames_roundtrip_and_oversized_frames_are_refused() {
    let mut codec: FlexbuffersCodec<()> = FlexbuffersCodec::new();
    let mut buf = BytesMut::new();
    codec.encode_frame(b"abc", &mut buf);
    assert_eq!(&buf[..], &[0, 0, 0, 3, b'a', b'b', b'c']);
    let mut partial = BytesMut::from(&buf[..5]);
    assert_eq!(codec.take_frame(&mut partial), Ok(None));
    assert_eq!(partial.len(), 5);
    assert_eq!(codec.take_frame(&mut buf), Ok(Some(b"abc".to_vec())));
    codec.consume_payload(&mut buf, 3);
    assert!(buf.is_empty());
    let mut huge = BytesMut::from(&[0x00u8, 0x10, 0x00, 0x01][..]);
    assert_eq!(
        codec.take_frame(&mut huge),
        Err(FrameError::FrameTooLarge { length: 0x0010_0001 })
    );
}

#[test]
fn topic_hash_is_sha256_hex() {
    let h = Sha256Hasher::hash("bitvm2");
    assert_eq!(h.len(), 64);
    assert_ne!(h, "bitvm2");
    assert_eq!(h, <bitcoin::hashes::sha256::Hash as bitcoin::hashes::Hash>::hash(b"bitvm2").to_string());
    assert_eq!(
        Sha256Hasher::hash(""),
        "e3b0c44298fc1c149afbf4c8996fb92427ae41e4649b934ca495991b7852b855"
    );
}

#[test]
fn dropped_messages_text() {
    assert_eq!(ErrDroppedMsgs(5).to_display_string(), "GossipHandle dropped 5 messages");
    assert_eq!(ErrDroppedMsgs(0).to_display_string(), "GossipHandle dropped 0 messages");
    assert_eq!(to_decimal(1234567890), "1234567890");
}

#[test]
fn protocol_numbers_roundtrip() {
    assert_eq!(ProtocolVersion::V1.to_u8(), 1);
    assert_eq!(ProtocolVersion::default_version(), ProtocolVersion::V2);
    assert_eq!(ProtocolVersion::try_from_u8(2), Ok(ProtocolVersion::V2));
    assert!(ProtocolVersion::try_from_u8(3).is_err());
    for p in [ProtocolId::Setup, ProtocolId::Gossip, ProtocolId::RequestResponse] {
        assert_eq!(ProtocolId::try_from_u8(p.to_u8()), Ok(p));
    }
    assert_eq!(ProtocolId::try_from_u8(0), Err("Invalid protocol ID"));
    for p in [dto::ProtocolId::Setup, dto::ProtocolId::Gossip, dto::ProtocolId::RequestResponse] {
        assert_eq!(dto::ProtocolId::try_from_u8(p.to_u8()), Ok(p));
    }
    assert_eq!(dto::ProtocolId::RequestResponse.to_u8(), 3);
    assert_eq!(dto::ProtocolId::try_from_u8(4), Err("Invalid protocol ID"));
    assert!(dto::get_timestamp() > 1_600_000_000);
}

#[test]
fn signed_wrappers_verify_with_the_named_key() {
    let kp = Keypair::generate_ed25519();
    let key = kp.public().encode_protobuf();
    let signer = TransportKeypairSigner::new(kp);
    let m = SignedMessage::new(b"content".to_vec(), &signer).unwrap();
    assert_eq!(m.verify_signature(&key), Ok(true));
    assert!(matches!(m.verify_signature(&[1, 2]), Err(SetupError::AppPublicKeyInvalid(_))));
    let d = SignedData::new(b"raw".to_vec(), &signer).unwrap();
    assert_eq!(d.verify_signature(&key), Ok(true));
    let other = Keypair::generate_ed25519().public().encode_protobuf();
    assert_eq!(d.verify_signature(&other), Ok(false));

    let msg = dto::gossipsub::GossipMessage::new(key.clone(), b"hi".to_vec());
    let serialized = b"serialized-gossip".to_vec();
    let signed = dto::signed::SignedMessage::new(msg, &serialized, &signer).unwrap();
    assert_eq!(signed.verify(&serialized), Ok(true));
    assert_eq!(signed.verify(b"something else"), Ok(false));
}

#[test]
fn dht_records_are_kept_only_when_signed_by_their_key() {
    let kp = Keypair::generate_ed25519();
    let key = kp.public().encode_protobuf();
    let signer = TransportKeypairSigner::new(kp);
    let record = RecordData::new(key.clone(), vec![1, 2], vec![vec![3]]);
    assert_eq!(record.version, 0);
    assert_eq!(record.protocol, 0);
    let signed = SignedData::new(b"record-json".to_vec(), &signer).unwrap();
    assert_eq!(validate_dht_record(&signed, Some(record.clone())), Some(record.clone()));
    assert_eq!(validate_dht_record(&signed, None), None);
    let mut foreign = record.clone();
    foreign.app_public_key = Keypair::generate_ed25519().public().encode_protobuf();
    assert_eq!(validate_dht_record(&signed, Some(foreign)), None);
    let sr = SignedRecordData::new(b"rec".to_vec(), &signer).unwrap();
    assert!(sr.verify_signature(&key));
    assert!(!sr.verify_signature(&[0, 1]));
}

#[test]
fn setup_upgrades_speak_the_handshake_protocol() {
    assert_eq!(InboundSetupUpgrade::new().protocol_info(), "/handshake/1.0.0");
    let kp = Keypair::generate_ed25519();
    let key = kp.public().encode_protobuf();
    let up = OutboundSetupUpgrade::new(key.clone(), vec![1], vec![2], TransportKeypairSigner::new(kp));
    assert_eq!(up.protocol_info(), "/handshake/1.0.0");
    let m = up.setup_message();
    assert_eq!(m.app_public_key, key);
    assert_eq!(m.local_transport_id, vec![1]);
    assert_eq!(m.remote_transport_id, vec![2]);
    let signed = up.sign_setup(b"json".to_vec()).unwrap();
    assert_eq!(signed.verify_signature(&key), Ok(true));
    assert_eq!(
        InboundSetupUpgrade::upgrade_result(None).map(|_| ()),
        Err(SetupUpgradeError::UnexpectedStreamClose)
    );
    assert_eq!(
        InboundSetupUpgrade::upgrade_result(Some(Err("bad json".to_string()))).map(|_| ()),
        Err(SetupUpgradeError::JsonCodec("bad json".to_string()))
    );
    let ok = InboundSetupUpgrade::upgrade_result(Some(Ok(signed.clone()))).unwrap();
    assert_eq!(ok.message, signed.message);
}

#[test]
fn codec_limits_default_and_update() {
    let mut l = CodecLimits::new();
    assert_eq!(l.request_max, 1024 * 1024);
    assert_eq!(l.response_max, 10 * 1024 * 1024);
    l.set_request_max_bytes(7);
    l.set_response_max_bytes(9);
    assert_eq!((l.request_max, l.response_max), (7, 9));
}

#[test]
fn operator_keys_hex_verify_and_peer_id() {
    assert_eq!(OperatorPubkey::from(vec![0x00, 0xab, 0x10]).to_hex(), "00ab10");
    let kp = ed25519::Keypair::generate();
    let raw = kp.public().to_bytes().to_vec();
    let op = P2POperatorPubKey::from(raw.clone());
    assert_eq!(op.to_hex(), hex::encode(&raw));
    assert!(op.is_valid());
    let sig = kp.sign(b"msg");
    assert!(op.verify(b"msg", &sig));
    assert!(!op.verify(b"other", &sig));
    let expected = PeerId::from_public_key(&PublicKey::from(kp.public())).to_bytes();
    assert_eq!(op.peer_id(), expected);
    assert_eq!(op.try_peer_id(), Some(expected));
    let bad = P2POperatorPubKey::from(vec![1, 2, 3]);
    assert!(!bad.is_valid());
    assert_eq!(bad.try_peer_id(), None);
    assert!(!bad.verify(b"msg", &sig));
}

#[test]
fn protocol_errors_name_the_problem() {
    assert_eq!(ProtocolVersion::try_from_u8(9), Err("Invalid protocol version"));
    assert_eq!(ProtocolId::try_from_u8(9), Err("Invalid protocol ID"));
}

#[test]
fn buffer_length_and_codec_default() {
    let mut codec: FlexbuffersCodec<()> = Default::default();
    let mut buf = BytesMut::new();
    assert_eq!(buffer_len(&buf), 0);
    codec.encode_frame(b"xy", &mut buf);
    assert_eq!(buffer_len(&buf), 6);
    buf.extend_from_slice(b"rest");
    assert_eq!(codec.take_frame(&mut buf), Ok(Some(b"xy".to_vec())));
    codec.consume_payload(&mut buf, 2);
    assert_eq!(&buf[..], b"rest");
}

#[test]
fn kad_polls_before_first_update_only_wait() {
    let mut s = KadRepublishState::new();
    assert_eq!(s.poll_step(), PollStep::RegisterWaker);
    assert_eq!(s.poll_step(), PollStep::RegisterWaker);
    assert!(s.send_event(WhyThisIsPolled::RoutingUpdated));
    assert!(s.send_event(WhyThisIsPolled::RoutingUpdated));
    assert_eq!(s.poll_step(), PollStep::Republish);
    assert!(!s.send_event(WhyThisIsPolled::RoutingUpdated));
    assert_eq!(s.poll_step(), PollStep::Wait);
    assert_eq!(s.poll_step(), PollStep::Wait);
}

#[test]
fn transport_signer_signs_under_its_public_key() {
    let kp = Keypair::generate_ed25519();
    let key = kp.public().encode_protobuf();
    let signer = TransportKeypairSigner::new(kp.clone());
    assert_eq!(signer.public_key(), key.as_slice());
    let sig = strata_p2p::p2p::signer::ApplicationSigner::sign(&signer, b"payload").unwrap();
    assert_eq!(sig.to_vec(), kp.sign(b"payload").unwrap());
    assert!(kp.public().verify(b"payload", &sig));
    let copy = signer.duplicate();
    assert_eq!(copy.public_key(), key.as_slice());
}

#[test]
fn ed25519_keys_and_signatures_of_other_lengths_fail() {
    let kp = ed25519::Keypair::generate();
    let raw = kp.public().to_bytes().to_vec();
    let sig = kp.sign(b"msg");
    let op = P2POperatorPubKey::from(raw.clone());
    assert!(!op.verify(b"msg", &sig[..63]));
    let mut long = raw.clone();
    long.push(0);
    assert!(!P2POperatorPubKey::from(long).is_valid());
}

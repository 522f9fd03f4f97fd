use libp2p_identity::Keypair;
use strata_p2p::p2p::message::{
    Message, MessageDecodeError, P2PMessage, SetupMessage, SetupMessageError, PROTOCOL_VERSION,
    SETUP_PROTOCOL_ID,
};
use strata_p2p::p2p::signer::{signature_to_array, ApplicationSigner, TransportKeypairSigner};

fn ids() -> (Keypair, Vec<u8>, Vec<u8>, Vec<u8>) {
    let app = Keypair::generate_ed25519();
    let app_pk = app.public().encode_protobuf();
    let local = Keypair::generate_ed25519().public().to_peer_id().to_bytes();
    let remote = Keypair::generate_ed25519().public().to_peer_id().to_bytes();
    (app, app_pk, local, remote)
}

fn fixed_message() -> SetupMessage {
    SetupMessage {
        version: 2,
        protocol: 1,
        app_public_key: vec![0xAA, 0xBB],
        local_transport_id: vec![0x01],
        remote_transport_id: vec![0x02, 0x03, 0x04],
        date: 0x0102030405060708,
        signature: vec![0x55; 3],
    }
}

#[test]
fn setup_message_content_layout_is_exact() {
    let m = fixed_message();
    let bytes = m.to_bytes();
    let expected: Vec<u8> = vec![
        2, 1, 0, 0, 0, 2, 0xAA, 0xBB, 0, 0, 0, 1, 0x01, 0, 0, 0, 3, 0x02, 0x03, 0x04, 1, 2, 3, 4,
        5, 6, 7, 8,
    ];
    assert_eq!(bytes, expected);
    let mut with_sig = expected.clone();
    with_sig.extend_from_slice(&[0, 0, 0, 3, 0x55, 0x55, 0x55]);
    assert_eq!(m.to_bytes_with_signature(), with_sig);
}

#[test]
fn setup_message_wire_roundtrip() {
    let m = fixed_message();
    let wire = m.to_bytes_with_signature();
    let back = SetupMessage::from_bytes(&wire).unwrap();
    assert_eq!(back, m);
    let (msg, sig) = Message::from_bytes(&wire).unwrap();
    assert_eq!(sig, m.signature);
    match msg {
        Message::Setup(s) => {
            assert_eq!(s.app_public_key, m.app_public_key);
            assert_eq!(s.date, m.date);
        }
    }
}

#[test]
fn setup_message_decode_errors() {
    let wire = fixed_message().to_bytes_with_signature();
    assert_eq!(SetupMessage::from_bytes(&[]), Err(MessageDecodeError::VersionMissing));
    assert_eq!(SetupMessage::from_bytes(&[2]), Err(MessageDecodeError::ProtocolMissing));
    assert_eq!(
        SetupMessage::from_bytes(&wire[..4]),
        Err(MessageDecodeError::AppPublicKeyLengthMissing)
    );
    assert_eq!(SetupMessage::from_bytes(&wire[..7]), Err(MessageDecodeError::AppPublicKeyTruncated));
    assert_eq!(
        SetupMessage::from_bytes(&wire[..9]),
        Err(MessageDecodeError::LocalTransportIdLengthMissing)
    );
    assert_eq!(
        SetupMessage::from_bytes(&wire[..12]),
        Err(MessageDecodeError::LocalTransportIdTruncated)
    );
    assert_eq!(
        SetupMessage::from_bytes(&wire[..14]),
        Err(MessageDecodeError::RemoteTransportIdLengthMissing)
    );
    assert_eq!(
        SetupMessage::from_bytes(&wire[..18]),
        Err(MessageDecodeError::RemoteTransportIdTruncated)
    );
    assert_eq!(SetupMessage::from_bytes(&wire[..25]), Err(MessageDecodeError::DateMissing));
    assert_eq!(
        SetupMessage::from_bytes(&wire[..30]),
        Err(MessageDecodeError::SignatureLengthMissing)
    );
    assert_eq!(SetupMessage::from_bytes(&wire[..33]), Err(MessageDecodeError::SignatureTruncated));
    assert_eq!(Message::from_bytes(&[2]).map(|_| ()), Err(MessageDecodeError::DataTooShort));
    assert_eq!(Message::from_bytes(&[2, 9, 0]).map(|_| ()), Err(MessageDecodeError::UnknownProtocolId));
}

#[test]
fn new_setup_message_signs_verifies_and_validates() {
    let (app, app_pk, local, remote) = ids();
    let signer = TransportKeypairSigner::new(app);
    let (m, sig) =
        Message::setup_signed(app_pk.clone(), local.clone(), remote.clone(), &signer).unwrap();
    assert_eq!(sig.len(), 64);
    assert_eq!(m.verify_signature(&sig), Ok(true));
    match m {
        Message::Setup(mut s) => {
            assert_eq!(s.version, PROTOCOL_VERSION);
            assert_eq!(s.protocol, SETUP_PROTOCOL_ID);
            assert_eq!(s.validate(), Ok(()));
            assert_eq!(s.get_app_public_key(), Ok(app_pk.clone()));
            assert_eq!(s.get_local_peer_id(), Ok(local.clone()));
            assert_eq!(s.get_remote_peer_id(), Ok(remote.clone()));
            assert_eq!(s.verify_signature(), Ok(false));
            s.signature = sig.clone();
            assert_eq!(s.verify_signature(), Ok(true));
            let wire = s.to_bytes_with_signature();
            let (back, back_sig) = Message::from_bytes(&wire).unwrap();
            assert_eq!(back_sig, sig);
            assert_eq!(back.verify_signature(&back_sig), Ok(true));
            let mut bad = back_sig.clone();
            bad[0] ^= 1;
            assert_eq!(back.verify_signature(&bad), Ok(false));
        }
    }
}

#[test]
fn setup_message_validation_errors() {
    let (_, app_pk, local, remote) = ids();
    let mut m = SetupMessage::new(app_pk.clone(), local.clone(), remote.clone());
    m.version = 7;
    assert_eq!(m.validate(), Err(SetupMessageError::InvalidVersion(7)));
    let mut m = SetupMessage::new(app_pk.clone(), local.clone(), remote.clone());
    m.protocol = 3;
    assert_eq!(m.validate(), Err(SetupMessageError::InvalidProtocol(3)));
    let m = SetupMessage::new(vec![], local.clone(), remote.clone());
    assert_eq!(m.validate(), Err(SetupMessageError::EmptyAppPublicKey));
    let m = SetupMessage::new(app_pk.clone(), vec![], remote.clone());
    assert_eq!(m.validate(), Err(SetupMessageError::EmptyLocalTransportId));
    let m = SetupMessage::new(app_pk.clone(), local.clone(), vec![]);
    assert_eq!(m.validate(), Err(SetupMessageError::EmptyRemoteTransportId));
    let m = SetupMessage::new(vec![1, 2, 3], local.clone(), remote.clone());
    assert!(matches!(m.get_app_public_key(), Err(SetupMessageError::AppPublicKeyInvalid(_))));
    assert!(matches!(m.verify_signature(), Err(SetupMessageError::AppPublicKeyInvalid(_))));
    let m = SetupMessage::new(app_pk.clone(), vec![9, 9], remote.clone());
    assert!(matches!(m.get_local_peer_id(), Err(SetupMessageError::LocalPeerIdInvalid(_))));
    let m = SetupMessage::new(app_pk, local, vec![9, 9]);
    assert!(matches!(m.get_remote_peer_id(), Err(SetupMessageError::RemotePeerIdInvalid(_))));
}

#[test]
fn signature_to_array_checks_length() {
    assert_eq!(signature_to_array(&[7u8; 64]), Ok([7u8; 64]));
    assert_eq!(
        signature_to_array(&[7u8; 63]),
        Err("Signature length is not 64 bytes".to_string())
    );
}

#[test]
fn transport_signer_signature_verifies_with_libp2p() {
    let kp = Keypair::generate_ed25519();
    let public = kp.public();
    let signer = TransportKeypairSigner::new(kp);
    let sig = signer.sign(b"hello").unwrap();
    assert!(public.verify(b"hello", &sig));
    let copy = signer.duplicate();
    assert!(public.verify(b"again", &copy.sign(b"again").unwrap()));
}

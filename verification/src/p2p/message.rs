//! Message types for P2P protocol communication.
//!
//! The setup message of the handshake travels in a hand-written binary
//! format:
//! `[version][protocol][app_public_key][local_transport_id][remote_transport_id][date][signature]`
//! where the one-byte version and protocol come first, each key or id is a
//! big-endian `u32` length followed by its bytes, the date is a big-endian
//! `u64`, and the signature, a length-prefixed field too, closes the frame.
//! The signed content is everything but the signature.

use crate::p2p::wire::{
    copy_range, lemma_u32_be_roundtrip, lemma_u64_be_roundtrip, push_field, push_u64_be,
    read_u32_be, read_u64_be, spec_field, spec_u32_be, spec_u32_from_be, spec_u64_be,
    spec_u64_from_be,
};
use crate::p2p::clock::{clock_reading, unix_timestamp};
use crate::p2p::identity::{
    check_peer_id, decode_protobuf_key, spec_peer_id_parses, spec_protobuf_key_decodes,
    spec_protobuf_key_verifies, verify_with_protobuf_key,
};
use crate::p2p::signer::ApplicationSigner;
use vstd::prelude::*;

verus! {

/// Protocol version for all messages.
pub const PROTOCOL_VERSION: u8 = 2;

/// Protocol identifier for setup messages.
pub const SETUP_PROTOCOL_ID: u8 = 1;

/// Why bytes could not be read as a message.
#[derive(Debug, Clone, Copy, PartialEq, Eq)]
pub enum MessageDecodeError {
    /// Fewer than two bytes: no version and protocol to dispatch on.
    DataTooShort,
    /// The protocol byte names no known message.
    UnknownProtocolId,
    /// No byte for the version.
    VersionMissing,
    /// No byte for the protocol.
    ProtocolMissing,
    /// Fewer than four bytes left for the application key's length.
    AppPublicKeyLengthMissing,
    /// Fewer bytes left than the application key's length announces.
    AppPublicKeyTruncated,
    /// Fewer than four bytes left for the local transport id's length.
    LocalTransportIdLengthMissing,
    /// Fewer bytes left than the local transport id's length announces.
    LocalTransportIdTruncated,
    /// Fewer than four bytes left for the remote transport id's length.
    RemoteTransportIdLengthMissing,
    /// Fewer bytes left than the remote transport id's length announces.
    RemoteTransportIdTruncated,
    /// Fewer than eight bytes left for the date.
    DateMissing,
    /// Fewer than four bytes left for the signature's length.
    SignatureLengthMissing,
    /// Fewer bytes left than the signature's length announces.
    SignatureTruncated,
}

/// Why a setup message, or one of its parts, was refused.
#[derive(Debug, Clone, PartialEq, Eq)]
pub enum SetupMessageError {
    /// The application public key does not decode; the decoder's message.
    AppPublicKeyInvalid(String),
    /// The local peer id does not parse; the parser's message.
    LocalPeerIdInvalid(String),
    /// The remote peer id does not parse; the parser's message.
    RemotePeerIdInvalid(String),
    /// The version byte is not [`PROTOCOL_VERSION`].
    InvalidVersion(u8),
    /// The protocol byte is not [`SETUP_PROTOCOL_ID`].
    InvalidProtocol(u8),
    /// The application public key is empty.
    EmptyAppPublicKey,
    /// The local transport id is empty.
    EmptyLocalTransportId,
    /// The remote transport id is empty.
    EmptyRemoteTransportId,
    /// The signer failed; its message.
    SigningFailed(String),
}

/// Setup message structure for the handshake protocol.
#[derive(Debug, Clone, PartialEq)]
pub struct SetupMessage {
    /// Protocol version.
    pub version: u8,
    /// Protocol identifier (setup).
    pub protocol: u8,
    /// The application public key, in libp2p's protobuf encoding.
    pub app_public_key: Vec<u8>,
    /// My transport id (peer id bytes).
    pub local_transport_id: Vec<u8>,
    /// Their transport id (peer id bytes).
    pub remote_transport_id: Vec<u8>,
    /// Creation time, seconds since the Unix epoch.
    pub date: u64,
    /// Signature of the message content.
    pub signature: Vec<u8>,
}

/// The content of a [`SetupMessage`], as values.
pub struct SetupMessageModel {
    pub version: u8,
    pub protocol: u8,
    pub app_public_key: Seq<u8>,
    pub local_transport_id: Seq<u8>,
    pub remote_transport_id: Seq<u8>,
    pub date: u64,
    pub signature: Seq<u8>,
}

impl View for SetupMessage {
    type V = SetupMessageModel;

    open spec fn view(&self) -> SetupMessageModel {
        SetupMessageModel {
            version: self.version,
            protocol: self.protocol,
            app_public_key: self.app_public_key@,
            local_transport_id: self.local_transport_id@,
            remote_transport_id: self.remote_transport_id@,
            date: self.date,
            signature: self.signature@,
        }
    }
}

impl SetupMessageModel {
    /// The signed content: everything but the signature.
    pub open spec fn content(self) -> Seq<u8> {
        seq![self.version, self.protocol] + spec_field(self.app_public_key) + spec_field(
            self.local_transport_id,
        ) + spec_field(self.remote_transport_id) + spec_u64_be(self.date)
    }

    /// The bytes sent over the wire: the content, then the signature field.
    pub open spec fn wire(self) -> Seq<u8> {
        self.content() + spec_field(self.signature)
    }

    /// Every length-prefixed field's length fits in its `u32` prefix.
    pub open spec fn fields_fit(self) -> bool {
        &&& self.app_public_key.len() <= u32::MAX
        &&& self.local_transport_id.len() <= u32::MAX
        &&& self.remote_transport_id.len() <= u32::MAX
        &&& self.signature.len() <= u32::MAX
    }

    /// What [`SetupMessage::validate`] decides.
    pub open spec fn validation(self) -> Result<(), SetupMessageError> {
        if self.version != PROTOCOL_VERSION {
            Err(SetupMessageError::InvalidVersion(self.version))
        } else if self.protocol != SETUP_PROTOCOL_ID {
            Err(SetupMessageError::InvalidProtocol(self.protocol))
        } else if self.app_public_key.len() == 0 {
            Err(SetupMessageError::EmptyAppPublicKey)
        } else if self.local_transport_id.len() == 0 {
            Err(SetupMessageError::EmptyLocalTransportId)
        } else if self.remote_transport_id.len() == 0 {
            Err(SetupMessageError::EmptyRemoteTransportId)
        } else {
            Ok(())
        }
    }
}

/// The big-endian `u32` length stored at `d[p..p + 4]`.
pub open spec fn spec_len_at(d: Seq<u8>, p: int) -> int {
    spec_u32_from_be(d.subrange(p, p + 4)) as int
}

/// Reading a length-prefixed field at `p`: the error when the length or the
/// bytes are missing, otherwise the field's bytes and the position after it.
pub open spec fn spec_read_field(
    d: Seq<u8>,
    p: int,
    no_len: MessageDecodeError,
    short: MessageDecodeError,
) -> Result<(Seq<u8>, int), MessageDecodeError> {
    if d.len() < p + 4 {
        Err(no_len)
    } else {
        let n = spec_len_at(d, p);
        if d.len() < p + 4 + n {
            Err(short)
        } else {
            Ok((d.subrange(p + 4, p + 4 + n), p + 4 + n))
        }
    }
}

/// The setup message that `d` starts with, or the first part of it that is
/// missing. Bytes after the signature are ignored.
pub open spec fn spec_parse_setup(d: Seq<u8>) -> Result<SetupMessageModel, MessageDecodeError> {
    if d.len() < 1 {
        Err(MessageDecodeError::VersionMissing)
    } else if d.len() < 2 {
        Err(MessageDecodeError::ProtocolMissing)
    } else {
        match spec_read_field(
            d,
            2,
            MessageDecodeError::AppPublicKeyLengthMissing,
            MessageDecodeError::AppPublicKeyTruncated,
        ) {
            Err(e) => Err(e),
            Ok((key, p1)) => match spec_read_field(
                d,
                p1,
                MessageDecodeError::LocalTransportIdLengthMissing,
                MessageDecodeError::LocalTransportIdTruncated,
            ) {
                Err(e) => Err(e),
                Ok((local, p2)) => match spec_read_field(
                    d,
                    p2,
                    MessageDecodeError::RemoteTransportIdLengthMissing,
                    MessageDecodeError::RemoteTransportIdTruncated,
                ) {
                    Err(e) => Err(e),
                    Ok((remote, p3)) => if d.len() < p3 + 8 {
                        Err(MessageDecodeError::DateMissing)
                    } else {
                        match spec_read_field(
                            d,
                            p3 + 8,
                            MessageDecodeError::SignatureLengthMissing,
                            MessageDecodeError::SignatureTruncated,
                        ) {
                            Err(e) => Err(e),
                            Ok((sig, _p4)) => Ok(
                                SetupMessageModel {
                                    version: d[0],
                                    protocol: d[1],
                                    app_public_key: key,
                                    local_transport_id: local,
                                    remote_transport_id: remote,
                                    date: spec_u64_from_be(d.subrange(p3, p3 + 8)),
                                    signature: sig,
                                },
                            ),
                        }
                    },
                },
            },
        }
    }
}

/// Where a length-prefixed field at `p` ends: after its 4-byte length and
/// the bytes it announces, or at `p + 4` when the length is not all there.
pub open spec fn spec_field_end(d: Seq<u8>, p: int) -> int {
    if d.len() < p + 4 {
        p + 4
    } else {
        p + 4 + spec_len_at(d, p)
    }
}

/// How many bytes the setup message at the start of `d` takes, by the
/// lengths it announces: version, protocol, three fields, the date and the
/// signature field.
pub open spec fn spec_setup_extent(d: Seq<u8>) -> int {
    spec_field_end(d, spec_field_end(d, spec_field_end(d, spec_field_end(d, 2))) + 8)
}

/// Law: a setup message decodes exactly when the bytes hold everything its
/// announced lengths call for, and bytes after it change nothing.
pub proof fn lemma_setup_parse_extent(d: Seq<u8>, extra: Seq<u8>)
    ensures
        spec_parse_setup(d) is Ok <==> d.len() >= spec_setup_extent(d),
        spec_parse_setup(d) is Ok ==> spec_parse_setup(d + extra) == spec_parse_setup(d),
{
    let e = d + extra;
    let p1 = spec_field_end(d, 2);
    let p2 = spec_field_end(d, p1);
    let p3 = spec_field_end(d, p2);
    let p4 = spec_field_end(d, p3 + 8);
    assert(spec_len_at(d, 2) >= 0);
    if spec_parse_setup(d) is Ok {
        assert(d.len() >= p4);
        assert(e.subrange(2, 6) =~= d.subrange(2, 6));
        assert(e.subrange(p1, p1 + 4) =~= d.subrange(p1, p1 + 4));
        assert(e.subrange(p2, p2 + 4) =~= d.subrange(p2, p2 + 4));
        assert(e.subrange(p3 + 8, p3 + 12) =~= d.subrange(p3 + 8, p3 + 12));
        assert(e.subrange(6, p1) =~= d.subrange(6, p1));
        assert(e.subrange(p1 + 4, p2) =~= d.subrange(p1 + 4, p2));
        assert(e.subrange(p2 + 4, p3) =~= d.subrange(p2 + 4, p3));
        assert(e.subrange(p3, p3 + 8) =~= d.subrange(p3, p3 + 8));
        assert(e.subrange(p3 + 12, p4) =~= d.subrange(p3 + 12, p4));
        assert(e[0] == d[0] && e[1] == d[1]);
    }
}

/// What [`Message::from_bytes`] gives for `d`.
pub open spec fn spec_parse_message(d: Seq<u8>) -> Result<
    (SetupMessageModel, Seq<u8>),
    MessageDecodeError,
> {
    if d.len() < 2 {
        Err(MessageDecodeError::DataTooShort)
    } else if d[1] != SETUP_PROTOCOL_ID {
        Err(MessageDecodeError::UnknownProtocolId)
    } else {
        match spec_parse_setup(d) {
            Ok(m) => Ok((m, m.signature)),
            Err(e) => Err(e),
        }
    }
}

/// Reads a length-prefixed field at `cursor`, as [`spec_read_field`] says.
fn read_field(
    data: &[u8],
    cursor: usize,
    no_len: MessageDecodeError,
    short: MessageDecodeError,
) -> (r: Result<(Vec<u8>, usize), MessageDecodeError>)
    requires
        cursor <= data@.len(),
    ensures
        match (r, spec_read_field(data@, cursor as int, no_len, short)) {
            (Ok((v, p)), Ok((s, q))) => v@ == s && p == q && p <= data@.len(),
            (Err(e), Err(f)) => e == f,
            _ => false,
        },
{
    if data.len() - cursor < 4 {
        return Err(no_len);
    }
    let len = read_u32_be(data, cursor) as usize;
    let start = cursor + 4;
    if data.len() - start < len {
        return Err(short);
    }
    let field = copy_range(data, start, start + len);
    Ok((field, start + len))
}

/// Trait for all P2P messages that can be signed and verified.
pub trait P2PMessage: Sized {
    /// The protocol identifier of this message type.
    fn protocol(&self) -> u8;

    /// The protocol version.
    fn version(&self) -> u8;

    /// The message as bytes, without its signature.
    fn to_bytes(&self) -> Vec<u8>;

    /// Reads a message from bytes.
    fn from_bytes(data: &[u8]) -> Result<Self, MessageDecodeError>;
}

impl P2PMessage for SetupMessage {
    fn protocol(&self) -> (p: u8)
        ensures
            p == self.protocol,
    {
        self.protocol
    }

    fn version(&self) -> (v: u8)
        ensures
            v == self.version,
    {
        self.version
    }

    /// The signed content: version, protocol, the three length-prefixed
    /// keys and ids, and the date.
    fn to_bytes(&self) -> (bytes: Vec<u8>)
        ensures
            bytes@ == self@.content(),
    {
        let mut bytes: Vec<u8> = Vec::new();
        bytes.push(self.version);
        bytes.push(self.protocol);
        push_field(&mut bytes, self.app_public_key.as_slice());
        push_field(&mut bytes, self.local_transport_id.as_slice());
        push_field(&mut bytes, self.remote_transport_id.as_slice());
        push_u64_be(&mut bytes, self.date);
        assert(bytes@ =~= self@.content());
        bytes
    }

    /// Reads a whole setup message, signature included, from the front of
    /// `data`; the error names the first part that is missing.
    fn from_bytes(data: &[u8]) -> (r: Result<SetupMessage, MessageDecodeError>)
        ensures
            match (r, spec_parse_setup(data@)) {
                (Ok(m), Ok(s)) => m@ == s,
                (Err(e), Err(f)) => e == f,
                _ => false,
            },
    {
        if data.len() < 1 {
            return Err(MessageDecodeError::VersionMissing);
        }
        let version = data[0];
        if data.len() < 2 {
            return Err(MessageDecodeError::ProtocolMissing);
        }
        let protocol = data[1];
        let (app_public_key, c1) = match read_field(
            data,
            2,
            MessageDecodeError::AppPublicKeyLengthMissing,
            MessageDecodeError::AppPublicKeyTruncated,
        ) {
            Ok(x) => x,
            Err(e) => return Err(e),
        };
        let (local_transport_id, c2) = match read_field(
            data,
            c1,
            MessageDecodeError::LocalTransportIdLengthMissing,
            MessageDecodeError::LocalTransportIdTruncated,
        ) {
            Ok(x) => x,
            Err(e) => return Err(e),
        };
        let (remote_transport_id, c3) = match read_field(
            data,
            c2,
            MessageDecodeError::RemoteTransportIdLengthMissing,
            MessageDecodeError::RemoteTransportIdTruncated,
        ) {
            Ok(x) => x,
            Err(e) => return Err(e),
        };
        if data.len() - c3 < 8 {
            return Err(MessageDecodeError::DateMissing);
        }
        let date = read_u64_be(data, c3);
        let (signature, _c4) = match read_field(
            data,
            c3 + 8,
            MessageDecodeError::SignatureLengthMissing,
            MessageDecodeError::SignatureTruncated,
        ) {
            Ok(x) => x,
            Err(e) => return Err(e),
        };
        Ok(
            SetupMessage {
                version,
                protocol,
                app_public_key,
                local_transport_id,
                remote_transport_id,
                date,
                signature,
            },
        )
    }
}

impl SetupMessage {
    /// Creates a new, unsigned setup message stamped with the current time.
    /// `app_public_key` is the protobuf encoding of the application key and
    /// the two ids are peer id bytes.
    pub fn new(
        app_public_key: Vec<u8>,
        local_peer_id: Vec<u8>,
        remote_peer_id: Vec<u8>,
    ) -> (m: SetupMessage)
        ensures
            m.version == PROTOCOL_VERSION,
            m.protocol == SETUP_PROTOCOL_ID,
            m.app_public_key@ == app_public_key@,
            m.local_transport_id@ == local_peer_id@,
            m.remote_transport_id@ == remote_peer_id@,
            m.signature@ == Seq::<u8>::empty(),
            clock_reading(m.date),
    {
        let timestamp = unix_timestamp();
        SetupMessage {
            version: PROTOCOL_VERSION,
            protocol: SETUP_PROTOCOL_ID,
            app_public_key,
            local_transport_id: local_peer_id,
            remote_transport_id: remote_peer_id,
            date: timestamp,
            signature: Vec::new(),
        }
    }

    /// The application public key, when it decodes as a libp2p public key.
    pub fn get_app_public_key(&self) -> (r: Result<Vec<u8>, SetupMessageError>)
        ensures
            r is Ok <==> spec_protobuf_key_decodes(self.app_public_key@),
            r matches Ok(k) ==> k@ == self.app_public_key@,
            r matches Err(e) ==> e is AppPublicKeyInvalid,
    {
        match decode_protobuf_key(self.app_public_key.as_slice()) {
            Ok(()) => Ok(self.app_public_key.clone()),
            Err(e) => Err(SetupMessageError::AppPublicKeyInvalid(e)),
        }
    }

    /// The local peer id, when it parses as one.
    pub fn get_local_peer_id(&self) -> (r: Result<Vec<u8>, SetupMessageError>)
        ensures
            r is Ok <==> spec_peer_id_parses(self.local_transport_id@),
            r matches Ok(k) ==> k@ == self.local_transport_id@,
            r matches Err(e) ==> e is LocalPeerIdInvalid,
    {
        match check_peer_id(self.local_transport_id.as_slice()) {
            Ok(()) => Ok(self.local_transport_id.clone()),
            Err(e) => Err(SetupMessageError::LocalPeerIdInvalid(e)),
        }
    }

    /// The remote peer id, when it parses as one.
    pub fn get_remote_peer_id(&self) -> (r: Result<Vec<u8>, SetupMessageError>)
        ensures
            r is Ok <==> spec_peer_id_parses(self.remote_transport_id@),
            r matches Ok(k) ==> k@ == self.remote_transport_id@,
            r matches Err(e) ==> e is RemotePeerIdInvalid,
    {
        match check_peer_id(self.remote_transport_id.as_slice()) {
            Ok(()) => Ok(self.remote_transport_id.clone()),
            Err(e) => Err(SetupMessageError::RemotePeerIdInvalid(e)),
        }
    }

    /// Checks the signature against the content, with the embedded
    /// application public key.
    pub fn verify_signature(&self) -> (r: Result<bool, SetupMessageError>)
        ensures
            r is Ok <==> spec_protobuf_key_decodes(self.app_public_key@),
            r matches Ok(b) ==> b == spec_protobuf_key_verifies(
                self.app_public_key@,
                self@.content(),
                self.signature@,
            ),
            r matches Err(e) ==> e is AppPublicKeyInvalid,
    {
        let content = self.to_bytes();
        match verify_with_protobuf_key(
            self.app_public_key.as_slice(),
            content.as_slice(),
            self.signature.as_slice(),
        ) {
            Ok(b) => Ok(b),
            Err(e) => Err(SetupMessageError::AppPublicKeyInvalid(e)),
        }
    }

    /// The bytes for the wire: the content, then the signature's length as a
    /// big-endian `u32` and the signature.
    pub fn to_bytes_with_signature(&self) -> (bytes: Vec<u8>)
        ensures
            bytes@ == self@.wire(),
    {
        let mut bytes = self.to_bytes();
        push_field(&mut bytes, self.signature.as_slice());
        bytes
    }

    /// Checks version, protocol and that keys and ids are not empty, in that
    /// order.
    pub fn validate(&self) -> (r: Result<(), SetupMessageError>)
        ensures
            r == self@.validation(),
    {
        if self.version != PROTOCOL_VERSION {
            return Err(SetupMessageError::InvalidVersion(self.version));
        }
        if self.protocol != SETUP_PROTOCOL_ID {
            return Err(SetupMessageError::InvalidProtocol(self.protocol));
        }
        if self.app_public_key.len() == 0 {
            return Err(SetupMessageError::EmptyAppPublicKey);
        }
        if self.local_transport_id.len() == 0 {
            return Err(SetupMessageError::EmptyLocalTransportId);
        }
        if self.remote_transport_id.len() == 0 {
            return Err(SetupMessageError::EmptyRemoteTransportId);
        }
        Ok(())
    }
}

/// Enum representing different message types in the P2P protocol.
#[derive(Debug, Clone)]
pub enum Message {
    /// Setup message for handshake protocol.
    Setup(SetupMessage),
}

impl Message {
    /// Creates a new, unsigned setup message.
    pub fn setup(app_public_key: Vec<u8>, local_peer_id: Vec<u8>, remote_peer_id: Vec<u8>) -> (m:
        Message)
        ensures
            m matches Message::Setup(s) && {
                &&& s.version == PROTOCOL_VERSION
                &&& s.protocol == SETUP_PROTOCOL_ID
                &&& s.app_public_key@ == app_public_key@
                &&& s.local_transport_id@ == local_peer_id@
                &&& s.remote_transport_id@ == remote_peer_id@
                &&& s.signature@ == Seq::<u8>::empty()
            },
    {
        Message::Setup(SetupMessage::new(app_public_key, local_peer_id, remote_peer_id))
    }

    /// Creates a setup message and signs its content with `signer`; the
    /// message itself carries no signature, which is returned beside it: the
    /// signer's signature over the message content.
    pub fn setup_signed<S: ApplicationSigner>(
        app_public_key: Vec<u8>,
        local_peer_id: Vec<u8>,
        remote_peer_id: Vec<u8>,
        signer: &S,
    ) -> (r: Result<(Message, Vec<u8>), SetupMessageError>)
        ensures
            r matches Ok((m, sig)) ==> m matches Message::Setup(s) && {
                &&& s.version == PROTOCOL_VERSION
                &&& s.protocol == SETUP_PROTOCOL_ID
                &&& s.app_public_key@ == app_public_key@
                &&& s.local_transport_id@ == local_peer_id@
                &&& s.remote_transport_id@ == remote_peer_id@
                &&& s.signature@ == Seq::<u8>::empty()
                &&& sig@.len() == 64
                &&& signer.signs(s@.content(), sig@)
            },
            r matches Err(e) ==> e is SigningFailed,
    {
        let setup_message = SetupMessage::new(app_public_key, local_peer_id, remote_peer_id);
        let message_bytes = setup_message.to_bytes();
        match signer.sign(message_bytes.as_slice()) {
            Ok(signature) => {
                let mut sig: Vec<u8> = Vec::new();
                crate::p2p::wire::push_all(&mut sig, &signature);
                assert(sig@ =~= signature@);
                Ok((Message::Setup(setup_message), sig))
            },
            Err(e) => Err(SetupMessageError::SigningFailed(e)),
        }
    }

    /// Checks `signature` against the message content, with the key the
    /// message carries.
    pub fn verify_signature(&self, signature: &[u8]) -> (r: Result<bool, SetupMessageError>)
        ensures
            match self {
                Message::Setup(s) => {
                    &&& r is Ok <==> spec_protobuf_key_decodes(s.app_public_key@)
                    &&& r matches Ok(b) ==> b == spec_protobuf_key_verifies(
                        s.app_public_key@,
                        s@.content(),
                        signature@,
                    )
                    &&& r matches Err(e) ==> e is AppPublicKeyInvalid
                },
            },
    {
        match self {
            Message::Setup(setup_msg) => {
                let message_bytes = setup_msg.to_bytes();
                match verify_with_protobuf_key(
                    setup_msg.app_public_key.as_slice(),
                    message_bytes.as_slice(),
                    signature,
                ) {
                    Ok(b) => Ok(b),
                    Err(e) => Err(SetupMessageError::AppPublicKeyInvalid(e)),
                }
            },
        }
    }

    /// The message content, without signature.
    pub fn to_bytes(&self) -> (bytes: Vec<u8>)
        ensures
            match self {
                Message::Setup(s) => bytes@ == s@.content(),
            },
    {
        match self {
            Message::Setup(setup_msg) => setup_msg.to_bytes(),
        }
    }

    /// Reads a message and its signature. The second byte names the
    /// protocol; only the setup protocol is known.
    pub fn from_bytes(data: &[u8]) -> (r: Result<(Message, Vec<u8>), MessageDecodeError>)
        ensures
            match (r, spec_parse_message(data@)) {
                (Ok((Message::Setup(m), sig)), Ok((s, t))) => m@ == s && sig@ == t,
                (Err(e), Err(f)) => e == f,
                _ => false,
            },
    {
        if data.len() < 2 {
            return Err(MessageDecodeError::DataTooShort);
        }
        let protocol_id = data[1];
        if protocol_id == SETUP_PROTOCOL_ID {
            match SetupMessage::from_bytes(data) {
                Ok(setup_msg) => {
                    let signature = setup_msg.signature.clone();
                    assert(signature@ =~= setup_msg.signature@);
                    Ok((Message::Setup(setup_msg), signature))
                },
                Err(e) => Err(e),
            }
        } else {
            Err(MessageDecodeError::UnknownProtocolId)
        }
    }
}

/// Law: the wire form of a setup message reads back as the same message,
/// whenever its keys, ids and signature are short enough for their `u32`
/// length prefixes.
pub proof fn lemma_setup_wire_roundtrip(m: SetupMessageModel)
    requires
        m.fields_fit(),
    ensures
        spec_parse_setup(m.wire()) == Ok::<SetupMessageModel, MessageDecodeError>(m),
{
    let d = m.wire();
    let k = m.app_public_key;
    let l = m.local_transport_id;
    let r = m.remote_transport_id;
    let s = m.signature;
    lemma_u32_be_roundtrip(k.len() as u32);
    lemma_u32_be_roundtrip(l.len() as u32);
    lemma_u32_be_roundtrip(r.len() as u32);
    lemma_u32_be_roundtrip(s.len() as u32);
    lemma_u64_be_roundtrip(m.date);
    let p1: int = 6 + k.len() as int;
    let p2: int = p1 + 4 + l.len();
    let p3: int = p2 + 4 + r.len();
    let p4: int = p3 + 8;
    assert(d.len() == p4 + 4 + s.len());
    assert(d[0] == m.version);
    assert(d[1] == m.protocol);
    assert(d.subrange(2, 6) =~= spec_u32_be(k.len() as u32));
    assert(d.subrange(6, p1) =~= k);
    assert(d.subrange(p1, p1 + 4) =~= spec_u32_be(l.len() as u32));
    assert(d.subrange(p1 + 4, p2) =~= l);
    assert(d.subrange(p2, p2 + 4) =~= spec_u32_be(r.len() as u32));
    assert(d.subrange(p2 + 4, p3) =~= r);
    assert(d.subrange(p3, p4) =~= spec_u64_be(m.date));
    assert(d.subrange(p4, p4 + 4) =~= spec_u32_be(s.len() as u32));
    assert(d.subrange(p4 + 4, p4 + 4 + s.len()) =~= s);
}

/// Law: [`Message::from_bytes`] reads back what
/// [`SetupMessage::to_bytes_with_signature`] wrote for a setup message,
/// together with its signature.
pub proof fn lemma_message_wire_roundtrip(m: SetupMessageModel)
    requires
        m.fields_fit(),
        m.protocol == SETUP_PROTOCOL_ID,
    ensures
        spec_parse_message(m.wire()) == Ok::<(SetupMessageModel, Seq<u8>), MessageDecodeError>(
            (m, m.signature),
        ),
{
    lemma_setup_wire_roundtrip(m);
    assert(m.wire()[1] == m.protocol);
}

/// Law: a freshly created setup message validates exactly when its key and
/// both ids are non-empty.
pub proof fn lemma_new_message_validates(m: SetupMessageModel)
    requires
        m.version == PROTOCOL_VERSION,
        m.protocol == SETUP_PROTOCOL_ID,
    ensures
        (m.validation() is Ok) <==> (m.app_public_key.len() > 0 && m.local_transport_id.len() > 0
            && m.remote_transport_id.len() > 0),
{
}

/// Law: the signed content is a prefix of the wire bytes, so a receiver
/// recovers exactly what was signed.
pub proof fn lemma_content_prefix_of_wire(m: SetupMessageModel)
    ensures
        m.wire().subrange(0, m.content().len() as int) == m.content(),
{
    assert(m.wire().subrange(0, m.content().len() as int) =~= m.content());
}

} // verus!

//! The protocol entities and their binary codecs: network addresses and
//! secured message envelopes.
//!
//! Each entity has a ghost model, a specification-level encoder and decoder
//! over byte sequences, and executable functions proved to agree with them.
//! The decoders work over a [`ByteCursor`], consume exactly the bytes of one
//! frame, and never read past the end of the buffer.

use vstd::prelude::*;

use crate::error::PpaassError;
use crate::wire::{
    push_bytes, push_u16_be, push_u64_be, spec_u16_from_be_bytes, spec_u16_to_be_bytes,
    spec_u64_from_be_bytes, spec_u64_to_be_bytes, lemma_u16_be_round_trip,
    lemma_u64_be_round_trip, ByteCursor,
};

verus! {

/// The address type of an address frame.
#[derive(Clone, Copy, Debug, PartialEq, Eq, Structural)]
pub enum PpaassAddressType {
    IpV4,
    IpV6,
    Domain,
}

impl PpaassAddressType {
    /// The wire tag byte of this address type.
    pub open spec fn spec_tag(self) -> u8 {
        match self {
            PpaassAddressType::IpV4 => 1u8,
            PpaassAddressType::IpV6 => 2u8,
            PpaassAddressType::Domain => 3u8,
        }
    }

    /// The address type named by a wire tag byte, or the invalid-kind error.
    pub open spec fn spec_from_byte(value: u8) -> Result<PpaassAddressType, PpaassError> {
        if value == 1 {
            Ok(PpaassAddressType::IpV4)
        } else if value == 2 {
            Ok(PpaassAddressType::IpV6)
        } else if value == 3 {
            Ok(PpaassAddressType::Domain)
        } else {
            Err(PpaassError::FailToParsePpaassAddressType(value))
        }
    }

    /// Validated constructor from a wire tag byte.
    pub fn from_byte(value: u8) -> (r: Result<PpaassAddressType, PpaassError>)
        ensures
            r == Self::spec_from_byte(value),
    {
        match value {
            1 => Ok(PpaassAddressType::IpV4),
            2 => Ok(PpaassAddressType::IpV6),
            3 => Ok(PpaassAddressType::Domain),
            _ => Err(PpaassError::FailToParsePpaassAddressType(value)),
        }
    }

    /// The wire tag byte of this address type.
    pub fn to_byte(self) -> (r: u8)
        ensures
            r == self.spec_tag(),
    {
        match self {
            PpaassAddressType::IpV4 => 1,
            PpaassAddressType::IpV6 => 2,
            PpaassAddressType::Domain => 3,
        }
    }
}

/// The mathematical model of an address.
#[verifier::ext_equal]
pub ghost struct AddressSpec {
    pub host: Seq<u8>,
    pub port: u16,
    pub address_type: PpaassAddressType,
}

/// A network endpoint address.
#[derive(Debug)]
pub struct PpaassAddress {
    pub host: Vec<u8>,
    pub port: u16,
    pub address_type: PpaassAddressType,
}

impl View for PpaassAddress {
    type V = AddressSpec;

    open spec fn view(&self) -> AddressSpec {
        AddressSpec { host: self.host@, port: self.port, address_type: self.address_type }
    }
}

/// The shape invariant of an address: the host length matches the kind.
/// A domain host may have any length the wire can declare.
pub open spec fn address_wf(a: AddressSpec) -> bool {
    match a.address_type {
        PpaassAddressType::IpV4 => a.host.len() == 4,
        PpaassAddressType::IpV6 => a.host.len() == 16,
        PpaassAddressType::Domain => a.host.len() <= u64::MAX,
    }
}

/// The address frame: a kind tag byte; for a domain the host length as eight
/// big-endian bytes; the host bytes; and the port as two big-endian bytes.
pub open spec fn spec_encode_address(a: AddressSpec) -> Seq<u8> {
    match a.address_type {
        PpaassAddressType::IpV4 => seq![1u8] + a.host + spec_u16_to_be_bytes(a.port),
        PpaassAddressType::IpV6 => seq![2u8] + a.host + spec_u16_to_be_bytes(a.port),
        PpaassAddressType::Domain => seq![3u8] + spec_u64_to_be_bytes(a.host.len() as u64)
            + a.host + spec_u16_to_be_bytes(a.port),
    }
}

/// Decodes one address frame from the front of `s`.
///
/// Returns the outcome together with how many bytes the decode consumed —
/// also on failure, where the count says how far the cursor advanced before
/// the failing step.
pub open spec fn spec_decode_address(s: Seq<u8>) -> (Result<AddressSpec, PpaassError>, int) {
    if s.len() < 1 {
        (Err(PpaassError::BufferUnderflow), 0int)
    } else {
        let tag = s[0];
        if tag == 1 {
            if s.len() < 5 {
                (Err(PpaassError::BufferUnderflow), 1int)
            } else if s.len() < 7 {
                (Err(PpaassError::BufferUnderflow), 5int)
            } else {
                (
                    Ok(
                        AddressSpec {
                            host: s.subrange(1, 5),
                            port: spec_u16_from_be_bytes(s.subrange(5, 7)),
                            address_type: PpaassAddressType::IpV4,
                        },
                    ),
                    7int,
                )
            }
        } else if tag == 2 {
            if s.len() < 17 {
                (Err(PpaassError::BufferUnderflow), 1int)
            } else if s.len() < 19 {
                (Err(PpaassError::BufferUnderflow), 17int)
            } else {
                (
                    Ok(
                        AddressSpec {
                            host: s.subrange(1, 17),
                            port: spec_u16_from_be_bytes(s.subrange(17, 19)),
                            address_type: PpaassAddressType::IpV6,
                        },
                    ),
                    19int,
                )
            }
        } else if tag == 3 {
            if s.len() < 9 {
                (Err(PpaassError::BufferUnderflow), 1int)
            } else {
                let n = spec_u64_from_be_bytes(s.subrange(1, 9)) as int;
                if s.len() - 9 < n {
                    (Err(PpaassError::BufferUnderflow), 9int)
                } else if s.len() - 9 - n < 2 {
                    (Err(PpaassError::BufferUnderflow), 9 + n)
                } else {
                    (
                        Ok(
                            AddressSpec {
                                host: s.subrange(9, 9 + n),
                                port: spec_u16_from_be_bytes(s.subrange(9 + n, 11 + n)),
                                address_type: PpaassAddressType::Domain,
                            },
                        ),
                        11 + n,
                    )
                }
            }
        } else {
            (Err(PpaassError::FailToParsePpaassAddressType(tag)), 1int)
        }
    }
}

impl PpaassAddress {
    /// Create a new address.
    pub fn new(host: Vec<u8>, port: u16, address_type: PpaassAddressType) -> (r: Self)
        ensures
            r@ == (AddressSpec { host: host@, port: port, address_type: address_type }),
    {
        Self { host, port, address_type }
    }

    /// Encodes this address as one address frame.
    pub fn encode(&self) -> (r: Vec<u8>)
        requires
            address_wf(self@),
        ensures
            r@ == spec_encode_address(self@),
    {
        let mut out: Vec<u8> = Vec::new();
        out.push(self.address_type.to_byte());
        match self.address_type {
            PpaassAddressType::IpV4 => {},
            PpaassAddressType::IpV6 => {},
            PpaassAddressType::Domain => {
                push_u64_be(&mut out, self.host.len() as u64);
            },
        }
        push_bytes(&mut out, self.host.as_slice());
        push_u16_be(&mut out, self.port);
        proof {
            assert(out@ =~= spec_encode_address(self@));
        }
        out
    }

    /// Decodes one address frame at the cursor, leaving the cursor positioned
    /// immediately after it, so that successive addresses can be decoded from
    /// a shared buffer.
    ///
    /// The outcome and the cursor movement are exactly those of
    /// [`spec_decode_address`] on the unconsumed bytes: on success the frame's
    /// address with a well-formed host; on an unrecognized tag the
    /// invalid-kind error carrying that tag, with nothing past the tag byte
    /// consumed; on a short buffer the underflow error.
    pub fn decode(cur: &mut ByteCursor) -> (r: Result<PpaassAddress, PpaassError>)
        requires
            old(cur).wf(),
        ensures
            final(cur).wf(),
            final(cur).spec_data() == old(cur).spec_data(),
            final(cur).spec_pos() == old(cur).spec_pos() + spec_decode_address(
                old(cur).remaining_bytes(),
            ).1,
            match r {
                Ok(a) => spec_decode_address(old(cur).remaining_bytes()).0 == Ok::<
                    AddressSpec,
                    PpaassError,
                >(a@) && address_wf(a@),
                Err(e) => spec_decode_address(old(cur).remaining_bytes()).0 == Err::<
                    AddressSpec,
                    PpaassError,
                >(e),
            },
    {
        let ghost s = old(cur).remaining_bytes();
        let tag = cur.read_u8()?;
        let address_type = PpaassAddressType::from_byte(tag)?;
        match address_type {
            PpaassAddressType::IpV4 => {
                proof {
                    assert(cur.remaining_bytes() =~= s.subrange(1, s.len() as int));
                }
                let host = cur.read_bytes(4)?;
                let port = cur.read_u16_be()?;
                proof {
                    assert(host@ =~= s.subrange(1, 5));
                    assert(s.subrange(1, s.len() as int).subrange(4, s.len() - 1).subrange(0, 2)
                        =~= s.subrange(5, 7));
                }
                Ok(PpaassAddress { host, port, address_type: PpaassAddressType::IpV4 })
            },
            PpaassAddressType::IpV6 => {
                proof {
                    assert(cur.remaining_bytes() =~= s.subrange(1, s.len() as int));
                }
                let host = cur.read_bytes(16)?;
                let port = cur.read_u16_be()?;
                proof {
                    assert(host@ =~= s.subrange(1, 17));
                    assert(s.subrange(1, s.len() as int).subrange(16, s.len() - 1).subrange(0, 2)
                        =~= s.subrange(17, 19));
                }
                Ok(PpaassAddress { host, port, address_type: PpaassAddressType::IpV6 })
            },
            PpaassAddressType::Domain => {
                proof {
                    assert(cur.remaining_bytes() =~= s.subrange(1, s.len() as int));
                }
                let host_length = cur.read_u64_be()?;
                proof {
                    assert(s.subrange(1, s.len() as int).subrange(0, 8) =~= s.subrange(1, 9));
                }
                let rem = cur.remaining();
                if (rem as u64) < host_length {
                    return Err(PpaassError::BufferUnderflow);
                }
                let n = host_length as usize;
                let ghost nn = n as int;
                let host = cur.read_bytes(n)?;
                let port = cur.read_u16_be()?;
                proof {
                    assert(host@ =~= s.subrange(9, 9 + nn));
                    assert(s.subrange(1, s.len() as int).subrange(8 + nn, s.len() - 1).subrange(
                        0,
                        2,
                    ) =~= s.subrange(9 + nn, 11 + nn));
                }
                Ok(PpaassAddress { host, port, address_type: PpaassAddressType::Domain })
            },
        }
    }
}

/// Round-trip law: decoding an encoded address — also with arbitrary bytes
/// following the frame in the buffer — yields the address back and consumes
/// exactly the frame.
pub proof fn lemma_address_round_trip(a: AddressSpec, tail: Seq<u8>)
    requires
        address_wf(a),
    ensures
        spec_decode_address(spec_encode_address(a) + tail).0 == Ok::<AddressSpec, PpaassError>(a),
        spec_decode_address(spec_encode_address(a) + tail).1 == spec_encode_address(a).len(),
{
    let enc = spec_encode_address(a);
    let s = enc + tail;
    lemma_u16_be_round_trip(a.port);
    match a.address_type {
        PpaassAddressType::IpV4 => {
            assert(s.subrange(1, 5) =~= a.host);
            assert(s.subrange(5, 7) =~= spec_u16_to_be_bytes(a.port));
            assert(spec_decode_address(s).0 == Ok::<AddressSpec, PpaassError>(a));
        },
        PpaassAddressType::IpV6 => {
            assert(s.subrange(1, 17) =~= a.host);
            assert(s.subrange(17, 19) =~= spec_u16_to_be_bytes(a.port));
            assert(spec_decode_address(s).0 == Ok::<AddressSpec, PpaassError>(a));
        },
        PpaassAddressType::Domain => {
            let n = a.host.len() as int;
            lemma_u64_be_round_trip(a.host.len() as u64);
            assert(s.subrange(1, 9) =~= spec_u64_to_be_bytes(a.host.len() as u64));
            assert(spec_u64_from_be_bytes(s.subrange(1, 9)) as int == n);
            assert(s.subrange(9, 9 + n) =~= a.host);
            assert(s.subrange(9 + n, 11 + n) =~= spec_u16_to_be_bytes(a.port));
            assert(spec_decode_address(s).0 == Ok::<AddressSpec, PpaassError>(a));
        },
    }
}

/// An unrecognized address kind tag fails with that tag in the error, and the
/// decode consumes no input past the tag byte.
pub proof fn lemma_address_invalid_tag(s: Seq<u8>)
    requires
        s.len() >= 1,
        s[0] != 1,
        s[0] != 2,
        s[0] != 3,
    ensures
        spec_decode_address(s).0 == Err::<AddressSpec, PpaassError>(
            PpaassError::FailToParsePpaassAddressType(s[0]),
        ),
        spec_decode_address(s).1 == 1,
{
}

/// Truncation law: decoding any strict prefix of an address frame fails with
/// the underflow error — a declared length never reads past the end.
pub proof fn lemma_address_truncated(a: AddressSpec, k: int)
    requires
        address_wf(a),
        0 <= k < spec_encode_address(a).len(),
    ensures
        spec_decode_address(spec_encode_address(a).subrange(0, k)).0 == Err::<
            AddressSpec,
            PpaassError,
        >(PpaassError::BufferUnderflow),
{
    let enc = spec_encode_address(a);
    let p = enc.subrange(0, k);
    if k >= 1 {
        assert(p[0] == enc[0]);
        match a.address_type {
            PpaassAddressType::IpV4 => {
            },
            PpaassAddressType::IpV6 => {
            },
            PpaassAddressType::Domain => {
                let n = a.host.len() as int;
                lemma_u64_be_round_trip(a.host.len() as u64);
                if k >= 9 {
                    assert(p.subrange(1, 9) =~= spec_u64_to_be_bytes(a.host.len() as u64));
                    assert(spec_u64_from_be_bytes(p.subrange(1, 9)) as int == n);
                }
            },
        }
    }
}

/// The payload encryption type of an envelope frame.
#[derive(Clone, Copy, Debug, PartialEq, Eq, Structural)]
pub enum PpaassMessagePayloadEncryptionType {
    Plain,
    Blowfish,
    AES,
}

impl PpaassMessagePayloadEncryptionType {
    /// The wire tag byte of this encryption type.
    pub open spec fn spec_tag(self) -> u8 {
        match self {
            PpaassMessagePayloadEncryptionType::Plain => 0u8,
            PpaassMessagePayloadEncryptionType::Blowfish => 1u8,
            PpaassMessagePayloadEncryptionType::AES => 2u8,
        }
    }

    /// The encryption type named by a wire tag byte, or the invalid-kind
    /// error.
    pub open spec fn spec_from_byte(value: u8) -> Result<
        PpaassMessagePayloadEncryptionType,
        PpaassError,
    > {
        if value == 0 {
            Ok(PpaassMessagePayloadEncryptionType::Plain)
        } else if value == 1 {
            Ok(PpaassMessagePayloadEncryptionType::Blowfish)
        } else if value == 2 {
            Ok(PpaassMessagePayloadEncryptionType::AES)
        } else {
            Err(PpaassError::FailToParsePpaassMessagePayloadEncryptionType(value))
        }
    }

    /// Validated constructor from a wire tag byte.
    pub fn from_byte(value: u8) -> (r: Result<PpaassMessagePayloadEncryptionType, PpaassError>)
        ensures
            r == Self::spec_from_byte(value),
    {
        match value {
            0 => Ok(PpaassMessagePayloadEncryptionType::Plain),
            1 => Ok(PpaassMessagePayloadEncryptionType::Blowfish),
            2 => Ok(PpaassMessagePayloadEncryptionType::AES),
            _ => Err(PpaassError::FailToParsePpaassMessagePayloadEncryptionType(value)),
        }
    }

    /// The wire tag byte of this encryption type.
    pub fn to_byte(self) -> (r: u8)
        ensures
            r == self.spec_tag(),
    {
        match self {
            PpaassMessagePayloadEncryptionType::Plain => 0,
            PpaassMessagePayloadEncryptionType::Blowfish => 1,
            PpaassMessagePayloadEncryptionType::AES => 2,
        }
    }
}

/// The mathematical model of a secured message envelope.
#[verifier::ext_equal]
pub ghost struct MessageSpec {
    pub id: Seq<u8>,
    pub payload_encryption_token: Seq<u8>,
    pub payload_encryption_type: PpaassMessagePayloadEncryptionType,
    pub encrypted_payload: Seq<u8>,
}

/// A secured message envelope.
///
/// The three byte-sequence fields are arbitrary-length, including empty. The
/// encrypted payload is opaque to the codec: it passes through unexamined,
/// and no cryptography happens here.
#[derive(Debug)]
pub struct PpaassMessage {
    /// The message id.
    pub id: Vec<u8>,
    /// The payload encryption token.
    pub payload_encryption_token: Vec<u8>,
    /// The payload encryption type.
    pub payload_encryption_type: PpaassMessagePayloadEncryptionType,
    /// The encrypted payload.
    pub encrypted_payload: Vec<u8>,
}

impl View for PpaassMessage {
    type V = MessageSpec;

    open spec fn view(&self) -> MessageSpec {
        MessageSpec {
            id: self.id@,
            payload_encryption_token: self.payload_encryption_token@,
            payload_encryption_type: self.payload_encryption_type,
            encrypted_payload: self.encrypted_payload@,
        }
    }
}

/// Each variable-length field of an envelope must be declarable in an
/// eight-byte length prefix.
pub open spec fn message_wf(m: MessageSpec) -> bool {
    m.id.len() <= u64::MAX && m.payload_encryption_token.len() <= u64::MAX
        && m.encrypted_payload.len() <= u64::MAX
}

/// The envelope frame: length-prefixed id, length-prefixed encryption token,
/// encryption tag byte, length-prefixed payload. Every length prefix is the
/// byte count of the immediately following field, as eight big-endian bytes.
pub open spec fn spec_encode_message(m: MessageSpec) -> Seq<u8> {
    spec_u64_to_be_bytes(m.id.len() as u64) + m.id + spec_u64_to_be_bytes(
        m.payload_encryption_token.len() as u64,
    ) + m.payload_encryption_token + seq![m.payload_encryption_type.spec_tag()]
        + spec_u64_to_be_bytes(m.encrypted_payload.len() as u64) + m.encrypted_payload
}

/// Decodes one envelope frame from the front of `s`.
///
/// Returns the outcome together with how many bytes the decode consumed —
/// also on failure, where the count says how far the cursor advanced before
/// the failing step.
pub open spec fn spec_decode_message(s: Seq<u8>) -> (Result<MessageSpec, PpaassError>, int) {
    if s.len() < 8 {
        (Err(PpaassError::BufferUnderflow), 0int)
    } else {
        let id_len = spec_u64_from_be_bytes(s.subrange(0, 8)) as int;
        if s.len() - 8 < id_len {
            (Err(PpaassError::BufferUnderflow), 8int)
        } else {
            let p1 = 8 + id_len;
            if s.len() - p1 < 8 {
                (Err(PpaassError::BufferUnderflow), p1)
            } else {
                let token_len = spec_u64_from_be_bytes(s.subrange(p1, p1 + 8)) as int;
                if s.len() - (p1 + 8) < token_len {
                    (Err(PpaassError::BufferUnderflow), p1 + 8)
                } else {
                    let p2 = p1 + 8 + token_len;
                    if s.len() - p2 < 1 {
                        (Err(PpaassError::BufferUnderflow), p2)
                    } else if s[p2] != 0 && s[p2] != 1 && s[p2] != 2 {
                        (
                            Err(
                                PpaassError::FailToParsePpaassMessagePayloadEncryptionType(s[p2]),
                            ),
                            p2 + 1,
                        )
                    } else {
                        let p3 = p2 + 1;
                        if s.len() - p3 < 8 {
                            (Err(PpaassError::BufferUnderflow), p3)
                        } else {
                            let payload_len = spec_u64_from_be_bytes(
                                s.subrange(p3, p3 + 8),
                            ) as int;
                            if s.len() - (p3 + 8) < payload_len {
                                (Err(PpaassError::BufferUnderflow), p3 + 8)
                            } else {
                                (
                                    Ok(
                                        MessageSpec {
                                            id: s.subrange(8, 8 + id_len),
                                            payload_encryption_token: s.subrange(
                                                p1 + 8,
                                                p1 + 8 + token_len,
                                            ),
                                            payload_encryption_type: (
                                            if s[p2] == 0 {
                                                PpaassMessagePayloadEncryptionType::Plain
                                            } else if s[p2] == 1 {
                                                PpaassMessagePayloadEncryptionType::Blowfish
                                            } else {
                                                PpaassMessagePayloadEncryptionType::AES
                                            }),
                                            encrypted_payload: s.subrange(
                                                p3 + 8,
                                                p3 + 8 + payload_len,
                                            ),
                                        },
                                    ),
                                    p3 + 8 + payload_len,
                                )
                            }
                        }
                    }
                }
            }
        }
    }
}

impl PpaassMessage {
    /// Encodes this envelope as one envelope frame.
    pub fn encode(&self) -> (r: Vec<u8>)
        ensures
            r@ == spec_encode_message(self@),
    {
        let mut out: Vec<u8> = Vec::new();
        push_u64_be(&mut out, self.id.len() as u64);
        push_bytes(&mut out, self.id.as_slice());
        push_u64_be(&mut out, self.payload_encryption_token.len() as u64);
        push_bytes(&mut out, self.payload_encryption_token.as_slice());
        out.push(self.payload_encryption_type.to_byte());
        push_u64_be(&mut out, self.encrypted_payload.len() as u64);
        push_bytes(&mut out, self.encrypted_payload.as_slice());
        proof {
            assert(out@ =~= spec_encode_message(self@));
        }
        out
    }

    /// Decodes one envelope frame at the cursor, leaving the cursor
    /// positioned immediately after it.
    ///
    /// The outcome and the cursor movement are exactly those of
    /// [`spec_decode_message`] on the unconsumed bytes: on success the
    /// frame's envelope; on an unrecognized encryption tag the invalid-kind
    /// error carrying that tag, with nothing past the tag byte consumed; on
    /// a declared length that exceeds the remaining bytes the underflow
    /// error.
    pub fn decode(cur: &mut ByteCursor) -> (r: Result<PpaassMessage, PpaassError>)
        requires
            old(cur).wf(),
        ensures
            final(cur).wf(),
            final(cur).spec_data() == old(cur).spec_data(),
            final(cur).spec_pos() == old(cur).spec_pos() + spec_decode_message(
                old(cur).remaining_bytes(),
            ).1,
            match r {
                Ok(m) => spec_decode_message(old(cur).remaining_bytes()).0 == Ok::<
                    MessageSpec,
                    PpaassError,
                >(m@),
                Err(e) => spec_decode_message(old(cur).remaining_bytes()).0 == Err::<
                    MessageSpec,
                    PpaassError,
                >(e),
            },
    {
        let ghost s = old(cur).remaining_bytes();
        let id_len = cur.read_u64_be()?;
        if (cur.remaining() as u64) < id_len {
            return Err(PpaassError::BufferUnderflow);
        }
        let ghost n1 = id_len as int;
        proof {
            assert(cur.remaining_bytes() =~= s.subrange(8, s.len() as int));
        }
        let id = cur.read_bytes(id_len as usize)?;
        let ghost p1 = 8 + n1;
        proof {
            assert(id@ =~= s.subrange(8, p1));
            assert(cur.remaining_bytes() =~= s.subrange(p1, s.len() as int));
        }
        let token_len = cur.read_u64_be()?;
        if (cur.remaining() as u64) < token_len {
            proof {
                assert(s.subrange(p1, s.len() as int).subrange(0, 8) =~= s.subrange(p1, p1 + 8));
            }
            return Err(PpaassError::BufferUnderflow);
        }
        let ghost n2 = token_len as int;
        proof {
            assert(s.subrange(p1, s.len() as int).subrange(0, 8) =~= s.subrange(p1, p1 + 8));
            assert(cur.remaining_bytes() =~= s.subrange(p1 + 8, s.len() as int));
        }
        let payload_encryption_token = cur.read_bytes(token_len as usize)?;
        let ghost p2 = p1 + 8 + n2;
        proof {
            assert(payload_encryption_token@ =~= s.subrange(p1 + 8, p2));
            assert(cur.remaining_bytes() =~= s.subrange(p2, s.len() as int));
        }
        let tag = cur.read_u8()?;
        let payload_encryption_type = PpaassMessagePayloadEncryptionType::from_byte(tag)?;
        let ghost p3 = p2 + 1;
        proof {
            assert(tag == s[p2]);
            assert(cur.remaining_bytes() =~= s.subrange(p3, s.len() as int));
        }
        let payload_len = cur.read_u64_be()?;
        if (cur.remaining() as u64) < payload_len {
            proof {
                assert(s.subrange(p3, s.len() as int).subrange(0, 8) =~= s.subrange(p3, p3 + 8));
            }
            return Err(PpaassError::BufferUnderflow);
        }
        let ghost n3 = payload_len as int;
        proof {
            assert(s.subrange(p3, s.len() as int).subrange(0, 8) =~= s.subrange(p3, p3 + 8));
            assert(cur.remaining_bytes() =~= s.subrange(p3 + 8, s.len() as int));
        }
        let encrypted_payload = cur.read_bytes(payload_len as usize)?;
        proof {
            assert(encrypted_payload@ =~= s.subrange(p3 + 8, p3 + 8 + n3));
        }
        Ok(
            PpaassMessage {
                id,
                payload_encryption_type,
                payload_encryption_token,
                encrypted_payload,
            },
        )
    }
}

/// Round-trip law: decoding an encoded envelope — with any encryption type
/// and any field lengths, including empty fields, and also with arbitrary
/// bytes following the frame — yields the envelope back and consumes exactly
/// the frame.
pub proof fn lemma_message_round_trip(m: MessageSpec, tail: Seq<u8>)
    requires
        message_wf(m),
    ensures
        spec_decode_message(spec_encode_message(m) + tail).0 == Ok::<MessageSpec, PpaassError>(m),
        spec_decode_message(spec_encode_message(m) + tail).1 == spec_encode_message(m).len(),
{
    let enc = spec_encode_message(m);
    let s = enc + tail;
    let n1 = m.id.len() as int;
    let n2 = m.payload_encryption_token.len() as int;
    let n3 = m.encrypted_payload.len() as int;
    let p1 = 8 + n1;
    let p2 = p1 + 8 + n2;
    let p3 = p2 + 1;
    lemma_u64_be_round_trip(m.id.len() as u64);
    lemma_u64_be_round_trip(m.payload_encryption_token.len() as u64);
    lemma_u64_be_round_trip(m.encrypted_payload.len() as u64);
    assert(s.subrange(0, 8) =~= spec_u64_to_be_bytes(m.id.len() as u64));
    assert(s.subrange(8, p1) =~= m.id);
    assert(s.subrange(p1, p1 + 8) =~= spec_u64_to_be_bytes(m.payload_encryption_token.len() as u64));
    assert(s.subrange(p1 + 8, p2) =~= m.payload_encryption_token);
    assert(s[p2] == m.payload_encryption_type.spec_tag());
    assert(s.subrange(p3, p3 + 8) =~= spec_u64_to_be_bytes(m.encrypted_payload.len() as u64));
    assert(s.subrange(p3 + 8, p3 + 8 + n3) =~= m.encrypted_payload);
    assert(spec_decode_message(s).0 == Ok::<MessageSpec, PpaassError>(m));
}

/// An unrecognized encryption tag fails with that tag in the error, and the
/// decode consumes no input past the tag byte: corrupting the tag of any
/// well-formed envelope frame yields exactly the invalid-kind error.
pub proof fn lemma_message_invalid_tag(m: MessageSpec, bad: u8)
    requires
        message_wf(m),
        bad != 0,
        bad != 1,
        bad != 2,
    ensures
        ({
            let p2 = 16 + m.id.len() + m.payload_encryption_token.len();
            let s = spec_encode_message(m).update(p2 as int, bad);
            spec_decode_message(s).0 == Err::<MessageSpec, PpaassError>(
                PpaassError::FailToParsePpaassMessagePayloadEncryptionType(bad),
            ) && spec_decode_message(s).1 == p2 + 1
        }),
{
    let enc = spec_encode_message(m);
    let n1 = m.id.len() as int;
    let n2 = m.payload_encryption_token.len() as int;
    let p1 = 8 + n1;
    let p2 = p1 + 8 + n2;
    let s = enc.update(p2, bad);
    lemma_u64_be_round_trip(m.id.len() as u64);
    lemma_u64_be_round_trip(m.payload_encryption_token.len() as u64);
    assert(s.subrange(0, 8) =~= spec_u64_to_be_bytes(m.id.len() as u64));
    assert(s.subrange(p1, p1 + 8) =~= spec_u64_to_be_bytes(m.payload_encryption_token.len() as u64));
    assert(s[p2] == bad);
}

/// Truncation law: decoding any strict prefix of an envelope frame fails
/// with the underflow error — a declared length never reads past the end.
pub proof fn lemma_message_truncated(m: MessageSpec, k: int)
    requires
        message_wf(m),
        0 <= k < spec_encode_message(m).len(),
    ensures
        spec_decode_message(spec_encode_message(m).subrange(0, k)).0 == Err::<
            MessageSpec,
            PpaassError,
        >(PpaassError::BufferUnderflow),
{
    let enc = spec_encode_message(m);
    let p = enc.subrange(0, k);
    let n1 = m.id.len() as int;
    let n2 = m.payload_encryption_token.len() as int;
    let n3 = m.encrypted_payload.len() as int;
    let p1 = 8 + n1;
    let p2 = p1 + 8 + n2;
    let p3 = p2 + 1;
    lemma_u64_be_round_trip(m.id.len() as u64);
    lemma_u64_be_round_trip(m.payload_encryption_token.len() as u64);
    lemma_u64_be_round_trip(m.encrypted_payload.len() as u64);
    assert(enc.len() == p3 + 8 + n3);
    if k >= 8 {
        assert(p.subrange(0, 8) =~= spec_u64_to_be_bytes(m.id.len() as u64));
        if k >= p1 + 8 {
            assert(p.subrange(p1, p1 + 8) =~= spec_u64_to_be_bytes(
                m.payload_encryption_token.len() as u64,
            ));
            if k > p2 {
                assert(p[p2] == m.payload_encryption_type.spec_tag());
                if k >= p3 + 8 {
                    assert(p.subrange(p3, p3 + 8) =~= spec_u64_to_be_bytes(
                        m.encrypted_payload.len() as u64,
                    ));
                }
            }
        }
    }
}

} // verus!

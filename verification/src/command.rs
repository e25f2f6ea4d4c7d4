//! Command, response and status-word codecs for the PC/SC pseudo-APDU
//! convention.
//!
//! A command frame is `CLA(0xFF) INS P1 P2 LEN payload?`; a response frame is
//! `payload? SW1 SW2`. The wire layout of each is written down once, as a
//! spec function over byte sequences, and the executable encoders and
//! decoders are proved to follow it exactly.

use vstd::prelude::*;

verus! {

/// Errors returned by the command and response codecs. They indicate
/// malformed input and are never retryable.
#[derive(Debug, Clone, Copy, PartialEq, Eq, Structural)]
pub enum PcscCodecError {
    /// The input has fewer bytes than the frame requires.
    TooShort,
    /// The input has more bytes than the frame admits.
    TooLong,
    /// The class byte of a command frame is not 0xFF.
    WrongClass,
    /// The instruction code byte matches none of the known instructions.
    UnknownInstruction,
}

/// Key type carried by a general-authenticate command. The set is open:
/// bytes other than the two Mifare codes pass through unchanged.
#[derive(Debug, Clone, Copy, PartialEq, Eq, Structural)]
pub enum KeyType {
    Unknown(u8),
    MifareA,
    MifareB,
}

impl KeyType {
    /// The wire byte of a key type.
    pub open spec fn spec_byte(self) -> u8 {
        match self {
            KeyType::Unknown(o) => o,
            KeyType::MifareA => 0x60,
            KeyType::MifareB => 0x61,
        }
    }

    /// The key type a wire byte stands for.
    pub open spec fn spec_from_byte(value: u8) -> KeyType {
        if value == 0x60 {
            KeyType::MifareA
        } else if value == 0x61 {
            KeyType::MifareB
        } else {
            KeyType::Unknown(value)
        }
    }

    /// A key type is canonical when an unrecognized byte really is one of
    /// the bytes outside the named codes; only canonical values survive an
    /// encode/decode round trip unchanged.
    pub open spec fn is_canonical(self) -> bool {
        match self {
            KeyType::Unknown(o) => o != 0x60 && o != 0x61,
            KeyType::MifareA => true,
            KeyType::MifareB => true,
        }
    }

    /// Decode a key-type byte. Never fails: the value set is open.
    pub fn from_byte(value: u8) -> (r: KeyType)
        ensures
            r == KeyType::spec_from_byte(value),
    {
        match value {
            0x60 => KeyType::MifareA,
            0x61 => KeyType::MifareB,
            o => KeyType::Unknown(o),
        }
    }

    /// Encode a key type as its wire byte.
    pub fn to_byte(self) -> (r: u8)
        ensures
            r == self.spec_byte(),
    {
        match self {
            KeyType::Unknown(o) => o,
            KeyType::MifareA => 0x60,
            KeyType::MifareB => 0x61,
        }
    }
}

/// Round trip for key types: decoding the wire byte of a canonical key type
/// gives the key type back.
pub proof fn lemma_key_type_round_trip(k: KeyType)
    requires
        k.is_canonical(),
    ensures
        KeyType::spec_from_byte(k.spec_byte()) == k,
{
}

/// A typed instruction request. Each variant carries only the fields it
/// needs; its instruction code byte is determined by the variant tag and
/// never stored.
#[derive(Debug, Clone, PartialEq)]
pub enum PcscInstruction {
    GetData { le: u8 },
    LoadKeys { data: Vec<u8> },
    GeneralAuthenticate { address: u16, key_type: KeyType, key_id: u8 },
    Verify { data: Vec<u8> },
    ReadBinary { le: u8 },
    UpdateBinary { data: Vec<u8> },
}

/// Mathematical model of an instruction request: the same shape with byte
/// sequences in place of byte vectors.
#[verifier::ext_equal]
pub enum InstructionModel {
    GetData { le: u8 },
    LoadKeys { data: Seq<u8> },
    GeneralAuthenticate { address: u16, key_type: KeyType, key_id: u8 },
    Verify { data: Seq<u8> },
    ReadBinary { le: u8 },
    UpdateBinary { data: Seq<u8> },
}

impl View for PcscInstruction {
    type V = InstructionModel;

    open spec fn view(&self) -> InstructionModel {
        match self {
            PcscInstruction::GetData { le } => InstructionModel::GetData { le: *le },
            PcscInstruction::LoadKeys { data } => InstructionModel::LoadKeys { data: data@ },
            PcscInstruction::GeneralAuthenticate { address, key_type, key_id } => {
                InstructionModel::GeneralAuthenticate {
                    address: *address,
                    key_type: *key_type,
                    key_id: *key_id,
                }
            },
            PcscInstruction::Verify { data } => InstructionModel::Verify { data: data@ },
            PcscInstruction::ReadBinary { le } => InstructionModel::ReadBinary { le: *le },
            PcscInstruction::UpdateBinary { data } => InstructionModel::UpdateBinary {
                data: data@,
            },
        }
    }
}

/// A full command: instruction request plus the two parameter bytes. The
/// class byte is the codec-level constant 0xFF and is not stored.
#[derive(Debug, Clone, PartialEq)]
pub struct PcscCommand {
    pub ins: PcscInstruction,
    pub p1: u8,
    pub p2: u8,
}

/// Mathematical model of a command.
#[verifier::ext_equal]
pub struct CommandModel {
    pub ins: InstructionModel,
    pub p1: u8,
    pub p2: u8,
}

impl View for PcscCommand {
    type V = CommandModel;

    open spec fn view(&self) -> CommandModel {
        CommandModel { ins: self.ins@, p1: self.p1, p2: self.p2 }
    }
}

/// The instruction code byte of each instruction variant.
pub open spec fn spec_ins_code(ins: InstructionModel) -> u8 {
    match ins {
        InstructionModel::GetData { .. } => 0xCA,
        InstructionModel::LoadKeys { .. } => 0x82,
        InstructionModel::GeneralAuthenticate { .. } => 0x86,
        InstructionModel::Verify { .. } => 0x20,
        InstructionModel::ReadBinary { .. } => 0xB0,
        InstructionModel::UpdateBinary { .. } => 0xD6,
    }
}

/// A command fits on the wire when its variable-length payload, if any, fits
/// in the one-byte length field.
pub open spec fn encode_fits(c: CommandModel) -> bool {
    match c.ins {
        InstructionModel::LoadKeys { data } => data.len() <= 255,
        InstructionModel::Verify { data } => data.len() <= 255,
        InstructionModel::UpdateBinary { data } => data.len() <= 255,
        _ => true,
    }
}

/// The exact wire frame of a command that fits: `0xFF INS P1 P2 LEN payload?`.
/// Read-style instructions put the expected response length in LEN; write
/// style instructions put the payload length there, followed by the payload;
/// general authenticate is a fixed ten-byte frame holding the protocol
/// version, a big-endian block address, the key-type byte and the key slot.
pub open spec fn spec_encode(c: CommandModel) -> Seq<u8> {
    match c.ins {
        InstructionModel::GetData { le } => seq![0xFFu8, 0xCAu8, c.p1, c.p2, le],
        InstructionModel::ReadBinary { le } => seq![0xFFu8, 0xB0u8, c.p1, c.p2, le],
        InstructionModel::LoadKeys { data } => seq![
            0xFFu8,
            0x82u8,
            c.p1,
            c.p2,
            data.len() as u8,
        ] + data,
        InstructionModel::Verify { data } => seq![
            0xFFu8,
            0x20u8,
            c.p1,
            c.p2,
            data.len() as u8,
        ] + data,
        InstructionModel::UpdateBinary { data } => seq![
            0xFFu8,
            0xD6u8,
            c.p1,
            c.p2,
            data.len() as u8,
        ] + data,
        InstructionModel::GeneralAuthenticate { address, key_type, key_id } => seq![
            0xFFu8,
            0x86u8,
            c.p1,
            c.p2,
            0x05u8,
            0x01u8,
            (address / 256) as u8,
            (address % 256) as u8,
            key_type.spec_byte(),
            key_id,
        ],
    }
}

/// The exact result of decoding a command frame, for every byte sequence.
/// The frame-size envelope and the class byte are checked first; then the
/// instruction code selects the variant, each variant checking that the
/// frame length agrees with its length field.
pub open spec fn spec_decode(bytes: Seq<u8>) -> Result<CommandModel, PcscCodecError> {
    if bytes.len() < 5 {
        Err(PcscCodecError::TooShort)
    } else if bytes.len() > 260 {
        Err(PcscCodecError::TooLong)
    } else if bytes[0] != 0xFF {
        Err(PcscCodecError::WrongClass)
    } else if bytes[1] == 0xCA || bytes[1] == 0xB0 {
        if bytes.len() > 5 {
            Err(PcscCodecError::TooLong)
        } else if bytes[1] == 0xCA {
            Ok(
                CommandModel {
                    ins: InstructionModel::GetData { le: bytes[4] },
                    p1: bytes[2],
                    p2: bytes[3],
                },
            )
        } else {
            Ok(
                CommandModel {
                    ins: InstructionModel::ReadBinary { le: bytes[4] },
                    p1: bytes[2],
                    p2: bytes[3],
                },
            )
        }
    } else if bytes[1] == 0x82 || bytes[1] == 0x20 || bytes[1] == 0xD6 {
        if bytes.len() < 5 + bytes[4] {
            Err(PcscCodecError::TooShort)
        } else if bytes.len() > 5 + bytes[4] {
            Err(PcscCodecError::TooLong)
        } else {
            let data = bytes.subrange(5, bytes.len() as int);
            let ins = if bytes[1] == 0x82 {
                InstructionModel::LoadKeys { data }
            } else if bytes[1] == 0x20 {
                InstructionModel::Verify { data }
            } else {
                InstructionModel::UpdateBinary { data }
            };
            Ok(CommandModel { ins, p1: bytes[2], p2: bytes[3] })
        }
    } else if bytes[1] == 0x86 {
        if bytes.len() < 10 {
            Err(PcscCodecError::TooShort)
        } else if bytes.len() > 10 {
            Err(PcscCodecError::TooLong)
        } else {
            Ok(
                CommandModel {
                    ins: InstructionModel::GeneralAuthenticate {
                        address: (bytes[6] * 256 + bytes[7]) as u16,
                        key_type: KeyType::spec_from_byte(bytes[8]),
                        key_id: bytes[9],
                    },
                    p1: bytes[2],
                    p2: bytes[3],
                },
            )
        }
    } else {
        Err(PcscCodecError::UnknownInstruction)
    }
}

impl PcscCommand {
    /// Build a command from an instruction request and the two parameter
    /// bytes.
    pub fn new(ins: PcscInstruction, p1: u8, p2: u8) -> (r: PcscCommand)
        ensures
            r.ins == ins,
            r.p1 == p1,
            r.p2 == p2,
    {
        PcscCommand { ins, p1, p2 }
    }

    /// The instruction code byte of this command's variant.
    pub fn ins_code(&self) -> (r: u8)
        ensures
            r == spec_ins_code(self@.ins),
    {
        match self.ins {
            PcscInstruction::GetData { .. } => 0xCA,
            PcscInstruction::LoadKeys { .. } => 0x82,
            PcscInstruction::GeneralAuthenticate { .. } => 0x86,
            PcscInstruction::Verify { .. } => 0x20,
            PcscInstruction::ReadBinary { .. } => 0xB0,
            PcscInstruction::UpdateBinary { .. } => 0xD6,
        }
    }

    /// How many response bytes to expect after transmitting this command:
    /// read-style instructions expect their `le` plus the two status bytes,
    /// with `le == 0` meaning the protocol maximum of 257; every other
    /// instruction expects the two status bytes alone.
    pub fn expected_response_len(&self) -> (r: usize)
        ensures
            self@.ins matches InstructionModel::GetData { le } ==> r == (
            if le == 0 {
                257int
            } else {
                le + 2
            }),
            self@.ins matches InstructionModel::ReadBinary { le } ==> r == (
            if le == 0 {
                257int
            } else {
                le + 2
            }),
            !(self@.ins is GetData) && !(self@.ins is ReadBinary) ==> r == 2,
    {
        match &self.ins {
            PcscInstruction::GetData { le } | PcscInstruction::ReadBinary { le } => {
                if *le == 0 {
                    257
                } else {
                    *le as usize + 2
                }
            },
            PcscInstruction::LoadKeys { .. }
            | PcscInstruction::GeneralAuthenticate { .. }
            | PcscInstruction::Verify { .. }
            | PcscInstruction::UpdateBinary { .. } => 2,
        }
    }

    /// Encode this command into its wire frame. Fails with `TooLong` exactly
    /// when the variable-length payload does not fit in the one-byte length
    /// field, that is, when it is longer than 255 bytes.
    pub fn encode(&self) -> (r: Result<Vec<u8>, PcscCodecError>)
        ensures
            r is Ok <==> encode_fits(self@),
            r matches Ok(v) ==> v@ == spec_encode(self@),
            r matches Err(e) ==> e == PcscCodecError::TooLong,
    {
        match &self.ins {
            PcscInstruction::GetData { le } => {
                let v = encode_header(0xCA, self.p1, self.p2, *le);
                assert(v@ =~= spec_encode(self@));
                Ok(v)
            },
            PcscInstruction::ReadBinary { le } => {
                let v = encode_header(0xB0, self.p1, self.p2, *le);
                assert(v@ =~= spec_encode(self@));
                Ok(v)
            },
            PcscInstruction::LoadKeys { data } => {
                if data.len() > 255 {
                    return Err(PcscCodecError::TooLong);
                }
                Ok(encode_with_payload(0x82, self.p1, self.p2, data))
            },
            PcscInstruction::Verify { data } => {
                if data.len() > 255 {
                    return Err(PcscCodecError::TooLong);
                }
                Ok(encode_with_payload(0x20, self.p1, self.p2, data))
            },
            PcscInstruction::UpdateBinary { data } => {
                if data.len() > 255 {
                    return Err(PcscCodecError::TooLong);
                }
                Ok(encode_with_payload(0xD6, self.p1, self.p2, data))
            },
            PcscInstruction::GeneralAuthenticate { address, key_type, key_id } => {
                let mut v = encode_header(0x86, self.p1, self.p2, 0x05);
                v.push(0x01);
                v.push((*address / 256) as u8);
                v.push((*address % 256) as u8);
                v.push(key_type.to_byte());
                v.push(*key_id);
                assert(v@ =~= spec_encode(self@));
                Ok(v)
            },
        }
    }

    /// Decode a wire frame into a command. The result is exactly what the
    /// decoding spec gives for these bytes, success and error alike.
    pub fn decode(bytes: &[u8]) -> (r: Result<PcscCommand, PcscCodecError>)
        ensures
            r matches Ok(c) ==> spec_decode(bytes@) == Ok::<CommandModel, PcscCodecError>(c@),
            r matches Err(e) ==> spec_decode(bytes@) == Err::<CommandModel, PcscCodecError>(e),
    {
        let len = bytes.len();
        if len < 5 {
            return Err(PcscCodecError::TooShort);
        }
        if len > 260 {
            return Err(PcscCodecError::TooLong);
        }
        if bytes[0] != 0xFF {
            return Err(PcscCodecError::WrongClass);
        }
        let ins_byte = bytes[1];
        let p1 = bytes[2];
        let p2 = bytes[3];
        if ins_byte == 0xCA || ins_byte == 0xB0 {
            if len > 5 {
                return Err(PcscCodecError::TooLong);
            }
            let le = bytes[4];
            let ins = if ins_byte == 0xCA {
                PcscInstruction::GetData { le }
            } else {
                PcscInstruction::ReadBinary { le }
            };
            Ok(PcscCommand { ins, p1, p2 })
        } else if ins_byte == 0x82 || ins_byte == 0x20 || ins_byte == 0xD6 {
            let lc = bytes[4] as usize;
            if len < 5 + lc {
                return Err(PcscCodecError::TooShort);
            }
            if len > 5 + lc {
                return Err(PcscCodecError::TooLong);
            }
            let data = vstd::slice::slice_to_vec(vstd::slice::slice_subrange(bytes, 5, len));
            let ins = if ins_byte == 0x82 {
                PcscInstruction::LoadKeys { data }
            } else if ins_byte == 0x20 {
                PcscInstruction::Verify { data }
            } else {
                PcscInstruction::UpdateBinary { data }
            };
            Ok(PcscCommand { ins, p1, p2 })
        } else if ins_byte == 0x86 {
            if len < 10 {
                return Err(PcscCodecError::TooShort);
            }
            if len > 10 {
                return Err(PcscCodecError::TooLong);
            }
            let address = (bytes[6] as u16) * 256 + (bytes[7] as u16);
            let key_type = KeyType::from_byte(bytes[8]);
            let key_id = bytes[9];
            Ok(
                PcscCommand {
                    ins: PcscInstruction::GeneralAuthenticate { address, key_type, key_id },
                    p1,
                    p2,
                },
            )
        } else {
            Err(PcscCodecError::UnknownInstruction)
        }
    }
}

/// Build the fixed five-byte frame head `0xFF INS P1 P2 LEN`.
fn encode_header(ins_byte: u8, p1: u8, p2: u8, len_byte: u8) -> (r: Vec<u8>)
    ensures
        r@ == seq![0xFFu8, ins_byte, p1, p2, len_byte],
{
    let mut v: Vec<u8> = Vec::new();
    v.push(0xFF);
    v.push(ins_byte);
    v.push(p1);
    v.push(p2);
    v.push(len_byte);
    proof {
        assert(v@ =~= seq![0xFFu8, ins_byte, p1, p2, len_byte]);
    }
    v
}

/// Build a write-style frame: the five-byte head whose length field is the
/// payload length, followed by the payload itself.
fn encode_with_payload(ins_byte: u8, p1: u8, p2: u8, data: &Vec<u8>) -> (r: Vec<u8>)
    requires
        data@.len() <= 255,
    ensures
        r@ == seq![0xFFu8, ins_byte, p1, p2, data@.len() as u8] + data@,
{
    let lc = data.len() as u8;
    let mut v = encode_header(ins_byte, p1, p2, lc);
    let ghost head = v@;
    let mut i: usize = 0;
    while i < data.len()
        invariant
            i <= data@.len(),
            v@ == head + data@.subrange(0, i as int),
        decreases data@.len() - i,
    {
        v.push(data[i]);
        i = i + 1;
        proof {
            assert(v@ =~= head + data@.subrange(0, i as int));
        }
    }
    proof {
        assert(data@.subrange(0, data@.len() as int) =~= data@);
    }
    v
}

/// A command is canonical when the key type it carries, if any, is; only
/// canonical commands survive an encode/decode round trip unchanged, since
/// an unrecognized key-type byte equal to a named code decodes to the named
/// key type.
pub open spec fn cmd_canonical(c: CommandModel) -> bool {
    match c.ins {
        InstructionModel::GeneralAuthenticate { key_type, .. } => key_type.is_canonical(),
        _ => true,
    }
}

/// Round trip for commands: decoding the wire frame of a canonical command
/// that fits gives the command back.
pub proof fn lemma_command_round_trip(c: CommandModel)
    requires
        encode_fits(c),
        cmd_canonical(c),
    ensures
        spec_decode(spec_encode(c)) == Ok::<CommandModel, PcscCodecError>(c),
{
    let b = spec_encode(c);
    match c.ins {
        InstructionModel::GetData { le } => {
            assert(b.len() == 5);
        },
        InstructionModel::ReadBinary { le } => {
            assert(b.len() == 5);
        },
        InstructionModel::LoadKeys { data } => {
            assert(b.len() == 5 + data.len());
            assert(b[4] == data.len() as u8);
            assert(b.subrange(5, b.len() as int) =~= data);
            assert(spec_decode(b) matches Ok(d) && d =~~= c);
        },
        InstructionModel::Verify { data } => {
            assert(b.len() == 5 + data.len());
            assert(b.subrange(5, b.len() as int) =~= data);
            assert(spec_decode(b) matches Ok(d) && d =~~= c);
        },
        InstructionModel::UpdateBinary { data } => {
            assert(b.len() == 5 + data.len());
            assert(b.subrange(5, b.len() as int) =~= data);
            assert(spec_decode(b) matches Ok(d) && d =~~= c);
        },
        InstructionModel::GeneralAuthenticate { address, key_type, key_id } => {
            assert(b.len() == 10);
            assert(address / 256 * 256 + address % 256 == address) by {
                vstd::arithmetic::div_mod::lemma_fundamental_div_mod(address as int, 256);
            }
            lemma_key_type_round_trip(key_type);
            assert(spec_decode(b) matches Ok(d) && d =~~= c);
        },
    }
}

/// Round trip for frames: a wire frame produced by the encoder decodes to a
/// command that encodes to the same frame again.
pub proof fn lemma_command_bytes_round_trip(bytes: Seq<u8>, c: CommandModel)
    requires
        encode_fits(c),
        cmd_canonical(c),
        bytes == spec_encode(c),
    ensures
        spec_decode(bytes) matches Ok(d) && encode_fits(d) && spec_encode(d) == bytes,
{
    lemma_command_round_trip(c);
}

/// The tagged status word of a response, mirroring the ISO 7816-4 SW1
/// families. Families with sub-codes carry their SW2 byte; families without
/// carry nothing and re-encode SW2 as 0x00.
#[derive(Debug, Clone, Copy, PartialEq, Eq, Structural)]
pub enum PcscStatusWords {
    Warning(u8),
    AllowedRetries(u8),
    MemoryFailure(u8),
    WrongLength,
    WrongClassByte,
    CommandImpossible(u8),
    CommandError(u8),
    WrongParameter,
    WrongLengthLe(u8),
    Success,
    Unknown { sw1: u8, sw2: u8 },
}

/// Whether an SW1 byte selects one of the known status families.
pub open spec fn is_known_sw1(sw1: u8) -> bool {
    sw1 == 0x62 || sw1 == 0x63 || sw1 == 0x65 || sw1 == 0x67 || sw1 == 0x68 || sw1 == 0x69 || sw1
        == 0x6A || sw1 == 0x6B || sw1 == 0x6C || sw1 == 0x90
}

/// The status value the two wire status bytes stand for.
pub open spec fn spec_status_decode(sw1: u8, sw2: u8) -> PcscStatusWords {
    if sw1 == 0x62 {
        PcscStatusWords::Warning(sw2)
    } else if sw1 == 0x63 {
        PcscStatusWords::AllowedRetries(sw2)
    } else if sw1 == 0x65 {
        PcscStatusWords::MemoryFailure(sw2)
    } else if sw1 == 0x67 {
        PcscStatusWords::WrongLength
    } else if sw1 == 0x68 {
        PcscStatusWords::WrongClassByte
    } else if sw1 == 0x69 {
        PcscStatusWords::CommandImpossible(sw2)
    } else if sw1 == 0x6A {
        PcscStatusWords::CommandError(sw2)
    } else if sw1 == 0x6B {
        PcscStatusWords::WrongParameter
    } else if sw1 == 0x6C {
        PcscStatusWords::WrongLengthLe(sw2)
    } else if sw1 == 0x90 {
        PcscStatusWords::Success
    } else {
        PcscStatusWords::Unknown { sw1, sw2 }
    }
}

/// The two wire bytes of a status value, with the canonical SW2 of 0x00 for
/// the families that carry no sub-code.
pub open spec fn spec_status_encode(sw: PcscStatusWords) -> Seq<u8> {
    match sw {
        PcscStatusWords::Warning(sw2) => seq![0x62u8, sw2],
        PcscStatusWords::AllowedRetries(sw2) => seq![0x63u8, sw2],
        PcscStatusWords::MemoryFailure(sw2) => seq![0x65u8, sw2],
        PcscStatusWords::WrongLength => seq![0x67u8, 0x00u8],
        PcscStatusWords::WrongClassByte => seq![0x68u8, 0x00u8],
        PcscStatusWords::CommandImpossible(sw2) => seq![0x69u8, sw2],
        PcscStatusWords::CommandError(sw2) => seq![0x6Au8, sw2],
        PcscStatusWords::WrongParameter => seq![0x6Bu8, 0x00u8],
        PcscStatusWords::WrongLengthLe(sw2) => seq![0x6Cu8, sw2],
        PcscStatusWords::Success => seq![0x90u8, 0x00u8],
        PcscStatusWords::Unknown { sw1, sw2 } => seq![sw1, sw2],
    }
}

impl PcscStatusWords {
    /// A status value is canonical when an unknown SW1 byte really lies
    /// outside the known families; only canonical values survive an
    /// encode/decode round trip unchanged.
    pub open spec fn is_canonical(self) -> bool {
        match self {
            PcscStatusWords::Unknown { sw1, .. } => !is_known_sw1(sw1),
            _ => true,
        }
    }
}

/// Round trip for status words: decoding the two wire bytes of a canonical
/// status value gives the status value back.
pub proof fn lemma_status_round_trip(sw: PcscStatusWords)
    requires
        sw.is_canonical(),
    ensures
        spec_status_encode(sw).len() == 2,
        spec_status_decode(spec_status_encode(sw)[0], spec_status_encode(sw)[1]) == sw,
{
}

/// A decoded response: the payload bytes and the status word that followed
/// them on the wire.
#[derive(Debug, Clone, PartialEq)]
pub struct PcscResponse {
    pub data: Vec<u8>,
    pub sw: PcscStatusWords,
}

/// Mathematical model of a response.
#[verifier::ext_equal]
pub struct ResponseModel {
    pub data: Seq<u8>,
    pub sw: PcscStatusWords,
}

impl View for PcscResponse {
    type V = ResponseModel;

    open spec fn view(&self) -> ResponseModel {
        ResponseModel { data: self.data@, sw: self.sw }
    }
}

/// The exact result of decoding a response frame, for every byte sequence:
/// everything up to the final two bytes is the payload, and the final two
/// bytes are the status word.
pub open spec fn spec_decode_response(bytes: Seq<u8>) -> Result<ResponseModel, PcscCodecError> {
    if bytes.len() < 2 {
        Err(PcscCodecError::TooShort)
    } else {
        Ok(
            ResponseModel {
                data: bytes.subrange(0, bytes.len() - 2),
                sw: spec_status_decode(bytes[bytes.len() - 2], bytes[bytes.len() - 1]),
            },
        )
    }
}

/// The wire frame of a response: its payload followed by its two status
/// bytes.
pub open spec fn spec_encode_response(r: ResponseModel) -> Seq<u8> {
    r.data + spec_status_encode(r.sw)
}

impl PcscResponse {
    /// Decode a response frame. Fails with `TooShort` exactly when fewer
    /// than the two status bytes are present; otherwise splits the frame
    /// into payload and status word.
    pub fn decode(bytes: &[u8]) -> (r: Result<PcscResponse, PcscCodecError>)
        ensures
            r matches Ok(resp) ==> spec_decode_response(bytes@) == Ok::<
                ResponseModel,
                PcscCodecError,
            >(resp@),
            r matches Err(e) ==> spec_decode_response(bytes@) == Err::<
                ResponseModel,
                PcscCodecError,
            >(e),
    {
        let len = bytes.len();
        if len < 2 {
            return Err(PcscCodecError::TooShort);
        }
        let data = vstd::slice::slice_to_vec(vstd::slice::slice_subrange(bytes, 0, len - 2));
        let sw1 = bytes[len - 2];
        let sw2 = bytes[len - 1];
        let sw = if sw1 == 0x62 {
            PcscStatusWords::Warning(sw2)
        } else if sw1 == 0x63 {
            PcscStatusWords::AllowedRetries(sw2)
        } else if sw1 == 0x65 {
            PcscStatusWords::MemoryFailure(sw2)
        } else if sw1 == 0x67 {
            PcscStatusWords::WrongLength
        } else if sw1 == 0x68 {
            PcscStatusWords::WrongClassByte
        } else if sw1 == 0x69 {
            PcscStatusWords::CommandImpossible(sw2)
        } else if sw1 == 0x6A {
            PcscStatusWords::CommandError(sw2)
        } else if sw1 == 0x6B {
            PcscStatusWords::WrongParameter
        } else if sw1 == 0x6C {
            PcscStatusWords::WrongLengthLe(sw2)
        } else if sw1 == 0x90 {
            PcscStatusWords::Success
        } else {
            PcscStatusWords::Unknown { sw1, sw2 }
        };
        Ok(PcscResponse { data, sw })
    }

    /// Encode this response into its wire frame: the payload followed by the
    /// two status bytes, canonical SW2 included.
    pub fn encode(&self) -> (r: Vec<u8>)
        ensures
            r@ == spec_encode_response(self@),
    {
        let mut v: Vec<u8> = Vec::new();
        let mut i: usize = 0;
        while i < self.data.len()
            invariant
                i <= self.data@.len(),
                v@ == self.data@.subrange(0, i as int),
            decreases self.data@.len() - i,
        {
            v.push(self.data[i]);
            i = i + 1;
            proof {
                assert(v@ =~= self.data@.subrange(0, i as int));
            }
        }
        proof {
            assert(self.data@.subrange(0, self.data@.len() as int) =~= self.data@);
        }
        let (sw1, sw2): (u8, u8) = match self.sw {
            PcscStatusWords::Warning(sw2) => (0x62, sw2),
            PcscStatusWords::AllowedRetries(sw2) => (0x63, sw2),
            PcscStatusWords::MemoryFailure(sw2) => (0x65, sw2),
            PcscStatusWords::WrongLength => (0x67, 0x00),
            PcscStatusWords::WrongClassByte => (0x68, 0x00),
            PcscStatusWords::CommandImpossible(sw2) => (0x69, sw2),
            PcscStatusWords::CommandError(sw2) => (0x6A, sw2),
            PcscStatusWords::WrongParameter => (0x6B, 0x00),
            PcscStatusWords::WrongLengthLe(sw2) => (0x6C, sw2),
            PcscStatusWords::Success => (0x90, 0x00),
            PcscStatusWords::Unknown { sw1, sw2 } => (sw1, sw2),
        };
        v.push(sw1);
        v.push(sw2);
        proof {
            assert(v@ =~= spec_encode_response(self@));
        }
        v
    }
}

/// Round trip for responses: decoding the wire frame of a response whose
/// status value is canonical gives the response back, payload and status
/// word alike.
pub proof fn lemma_response_round_trip(r: ResponseModel)
    requires
        r.sw.is_canonical(),
    ensures
        spec_decode_response(spec_encode_response(r)) == Ok::<ResponseModel, PcscCodecError>(r),
{
    let b = spec_encode_response(r);
    lemma_status_round_trip(r.sw);
    assert(b.len() == r.data.len() + 2);
    assert(b.subrange(0, b.len() - 2) =~= r.data);
    assert(b[b.len() - 2] == spec_status_encode(r.sw)[0]);
    assert(b[b.len() - 1] == spec_status_encode(r.sw)[1]);
    assert(spec_decode_response(b) matches Ok(d) && d =~~= r);
}

/// Human-meaningful diagnostic conditions derived from a status word and the
/// instruction that provoked it. Purely advisory: absence of a mapping is
/// never an error.
#[derive(Debug, Clone, Copy, PartialEq, Eq, Structural)]
pub enum PcscErrorCodeInfo {
    ResponseCorrupted,
    UnexpectedEndOfData,
    AddressDoesNotExit,
    WritingFailed,
    CommandIncompatible,
    CardKeyNotSupported,
    ReaderKeyNotSupported,
    PlainTransmissionNotSupported,
    SecuredTransmissionNotSupported,
    VolatileMemoryUnavailable,
    NonVolatileMemoryUnavailable,
    KeyNumberNotValid,
    KeyLengthIncorrect,
    SecurityStatusUnsatisfied,
    ReferenceKeyUnusable,
    UnknownKeyType,
    CommandNotAllowed,
    FunctionNotSupported,
    FileNotFound,
    ReferenceDataNotFound,
}

/// The diagnostic table: keyed by SW2 alone for the warning, memory-failure
/// and command-error families, and by the originating instruction code
/// together with SW2 for the command-impossible family, whose SW2 meanings
/// are instruction-specific. Every combination outside the table is `None`.
pub open spec fn spec_extra_info(sw: PcscStatusWords, ins: u8) -> Option<PcscErrorCodeInfo> {
    match sw {
        PcscStatusWords::Warning(sw2) => if sw2 == 0x81 {
            Some(PcscErrorCodeInfo::ResponseCorrupted)
        } else if sw2 == 0x82 {
            Some(PcscErrorCodeInfo::UnexpectedEndOfData)
        } else {
            None
        },
        PcscStatusWords::MemoryFailure(sw2) => if sw2 == 0x81 && (ins == 0xCA || ins == 0x86) {
            Some(PcscErrorCodeInfo::AddressDoesNotExit)
        } else if sw2 == 0x81 && (ins == 0x20 || ins == 0xD6) {
            Some(PcscErrorCodeInfo::WritingFailed)
        } else {
            None
        },
        PcscStatusWords::CommandImpossible(sw2) => if ins == 0x82 {
            if sw2 == 0x82 {
                Some(PcscErrorCodeInfo::CardKeyNotSupported)
            } else if sw2 == 0x83 {
                Some(PcscErrorCodeInfo::ReaderKeyNotSupported)
            } else if sw2 == 0x84 {
                Some(PcscErrorCodeInfo::PlainTransmissionNotSupported)
            } else if sw2 == 0x85 {
                Some(PcscErrorCodeInfo::SecuredTransmissionNotSupported)
            } else if sw2 == 0x86 {
                Some(PcscErrorCodeInfo::VolatileMemoryUnavailable)
            } else if sw2 == 0x87 {
                Some(PcscErrorCodeInfo::NonVolatileMemoryUnavailable)
            } else if sw2 == 0x88 {
                Some(PcscErrorCodeInfo::KeyNumberNotValid)
            } else if sw2 == 0x89 {
                Some(PcscErrorCodeInfo::KeyLengthIncorrect)
            } else {
                None
            }
        } else if ins == 0x86 {
            if sw2 == 0x82 {
                Some(PcscErrorCodeInfo::SecurityStatusUnsatisfied)
            } else if sw2 == 0x83 {
                Some(PcscErrorCodeInfo::CommandNotAllowed)
            } else if sw2 == 0x84 {
                Some(PcscErrorCodeInfo::ReferenceKeyUnusable)
            } else if sw2 == 0x86 {
                Some(PcscErrorCodeInfo::UnknownKeyType)
            } else if sw2 == 0x88 {
                Some(PcscErrorCodeInfo::KeyNumberNotValid)
            } else {
                None
            }
        } else if ins == 0x20 {
            if sw2 == 0x82 {
                Some(PcscErrorCodeInfo::SecurityStatusUnsatisfied)
            } else if sw2 == 0x83 {
                Some(PcscErrorCodeInfo::CommandNotAllowed)
            } else if sw2 == 0x84 {
                Some(PcscErrorCodeInfo::ReferenceKeyUnusable)
            } else {
                None
            }
        } else if ins == 0xB0 || ins == 0xD6 {
            if sw2 == 0x81 {
                Some(PcscErrorCodeInfo::CommandIncompatible)
            } else if sw2 == 0x82 {
                Some(PcscErrorCodeInfo::SecurityStatusUnsatisfied)
            } else if sw2 == 0x86 {
                Some(PcscErrorCodeInfo::CommandNotAllowed)
            } else {
                None
            }
        } else {
            None
        },
        PcscStatusWords::CommandError(sw2) => if sw2 == 0x81 {
            Some(PcscErrorCodeInfo::FunctionNotSupported)
        } else if sw2 == 0x82 {
            Some(PcscErrorCodeInfo::FileNotFound)
        } else if sw2 == 0x88 {
            Some(PcscErrorCodeInfo::ReferenceDataNotFound)
        } else {
            None
        },
        _ => None,
    }
}

impl PcscStatusWords {
    /// Look up the advisory diagnostic meaning of this status word under the
    /// instruction code that provoked it. Returns `None` for every
    /// combination absent from the table.
    pub fn extra_info(&self, ins: u8) -> (r: Option<PcscErrorCodeInfo>)
        ensures
            r == spec_extra_info(*self, ins),
    {
        match self {
            PcscStatusWords::Warning(sw2) => match sw2 {
                0x81 => Some(PcscErrorCodeInfo::ResponseCorrupted),
                0x82 => Some(PcscErrorCodeInfo::UnexpectedEndOfData),
                _ => None,
            },
            PcscStatusWords::MemoryFailure(sw2) => match (ins, sw2) {
                (0xCA, 0x81) => Some(PcscErrorCodeInfo::AddressDoesNotExit),
                (0x86, 0x81) => Some(PcscErrorCodeInfo::AddressDoesNotExit),
                (0x20, 0x81) => Some(PcscErrorCodeInfo::WritingFailed),
                (0xD6, 0x81) => Some(PcscErrorCodeInfo::WritingFailed),
                _ => None,
            },
            PcscStatusWords::CommandImpossible(sw2) => match (ins, sw2) {
                (0x82, 0x82) => Some(PcscErrorCodeInfo::CardKeyNotSupported),
                (0x82, 0x83) => Some(PcscErrorCodeInfo::ReaderKeyNotSupported),
                (0x82, 0x84) => Some(PcscErrorCodeInfo::PlainTransmissionNotSupported),
                (0x82, 0x85) => Some(PcscErrorCodeInfo::SecuredTransmissionNotSupported),
                (0x82, 0x86) => Some(PcscErrorCodeInfo::VolatileMemoryUnavailable),
                (0x82, 0x87) => Some(PcscErrorCodeInfo::NonVolatileMemoryUnavailable),
                (0x82, 0x88) => Some(PcscErrorCodeInfo::KeyNumberNotValid),
                (0x82, 0x89) => Some(PcscErrorCodeInfo::KeyLengthIncorrect),
                (0x86, 0x82) => Some(PcscErrorCodeInfo::SecurityStatusUnsatisfied),
                (0x86, 0x83) => Some(PcscErrorCodeInfo::CommandNotAllowed),
                (0x86, 0x84) => Some(PcscErrorCodeInfo::ReferenceKeyUnusable),
                (0x86, 0x86) => Some(PcscErrorCodeInfo::UnknownKeyType),
                (0x86, 0x88) => Some(PcscErrorCodeInfo::KeyNumberNotValid),
                (0x20, 0x82) => Some(PcscErrorCodeInfo::SecurityStatusUnsatisfied),
                (0x20, 0x83) => Some(PcscErrorCodeInfo::CommandNotAllowed),
                (0x20, 0x84) => Some(PcscErrorCodeInfo::ReferenceKeyUnusable),
                (0xB0, 0x81) => Some(PcscErrorCodeInfo::CommandIncompatible),
                (0xB0, 0x82) => Some(PcscErrorCodeInfo::SecurityStatusUnsatisfied),
                (0xB0, 0x86) => Some(PcscErrorCodeInfo::CommandNotAllowed),
                (0xD6, 0x81) => Some(PcscErrorCodeInfo::CommandIncompatible),
                (0xD6, 0x82) => Some(PcscErrorCodeInfo::SecurityStatusUnsatisfied),
                (0xD6, 0x86) => Some(PcscErrorCodeInfo::CommandNotAllowed),
                _ => None,
            },
            PcscStatusWords::CommandError(sw2) => match sw2 {
                0x81 => Some(PcscErrorCodeInfo::FunctionNotSupported),
                0x82 => Some(PcscErrorCodeInfo::FileNotFound),
                0x88 => Some(PcscErrorCodeInfo::ReferenceDataNotFound),
                _ => None,
            },
            PcscStatusWords::AllowedRetries(_)
            | PcscStatusWords::WrongLength
            | PcscStatusWords::WrongClassByte
            | PcscStatusWords::WrongParameter
            | PcscStatusWords::WrongLengthLe(_)
            | PcscStatusWords::Success
            | PcscStatusWords::Unknown { .. } => None,
        }
    }
}

} // verus!

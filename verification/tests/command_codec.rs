use nfc_pcsc::command::{KeyType, PcscCodecError, PcscCommand, PcscInstruction};

fn get_data() -> [u8; 5] {
    [0xff, 0xca, 0x00, 0x00, 0x00]
}

fn load_authentication_keys(key_number: u8, key: [u8; 6]) -> [u8; 11] {
    [
        0xff, 0x82, 0x00, key_number, 0x06, key[0], key[1], key[2], key[3], key[4], key[5],
    ]
}

#[test]
fn test_get_data_from_u8() {
    let expected = PcscCommand {
        ins: PcscInstruction::GetData { le: 0 },
        p1: 0,
        p2: 0,
    };
    let get_data = get_data();
    let command = PcscCommand::decode(&get_data[..]).unwrap();
    assert_eq!(command, expected);
}

#[test]
fn test_u8_from_get_data() {
    let expected = get_data().to_vec();
    let input = PcscCommand {
        ins: PcscInstruction::GetData { le: 0 },
        p1: 0,
        p2: 0,
    };
    let bytes: Vec<u8> = input.encode().unwrap();
    assert_eq!(bytes, expected);
}

#[test]
fn load_keys_from_u8() {
    let expected = PcscCommand {
        ins: PcscInstruction::LoadKeys {
            data: vec![0, 1, 2, 3, 4, 5],
        },
        p1: 0,
        p2: 1,
    };
    let load_keys = load_authentication_keys(1, [0, 1, 2, 3, 4, 5]);
    let command = PcscCommand::decode(&load_keys[..]).unwrap();
    assert_eq!(command, expected);
}

#[test]
fn load_keys_to_u8_example() {
    let input = PcscCommand::new(
        PcscInstruction::LoadKeys {
            data: vec![0, 1, 2, 3, 4, 5],
        },
        0x00,
        0x01,
    );
    let bytes = input.encode().unwrap();
    assert_eq!(
        bytes,
        vec![0xFF, 0x82, 0x00, 0x01, 0x06, 0x00, 0x01, 0x02, 0x03, 0x04, 0x05]
    );
}

#[test]
fn general_authenticate_encodes_ten_bytes() {
    let input = PcscCommand::new(
        PcscInstruction::GeneralAuthenticate {
            address: 0x1234,
            key_type: KeyType::MifareA,
            key_id: 2,
        },
        0x00,
        0x00,
    );
    let bytes = input.encode().unwrap();
    assert_eq!(
        bytes,
        vec![0xFF, 0x86, 0x00, 0x00, 0x05, 0x01, 0x12, 0x34, 0x60, 2]
    );
}

#[test]
fn round_trip_every_variant() {
    let commands = vec![
        PcscCommand::new(PcscInstruction::GetData { le: 7 }, 1, 2),
        PcscCommand::new(PcscInstruction::ReadBinary { le: 0 }, 0x12, 0x34),
        PcscCommand::new(
            PcscInstruction::LoadKeys {
                data: vec![9, 8, 7],
            },
            0,
            0x20,
        ),
        PcscCommand::new(PcscInstruction::Verify { data: vec![] }, 0, 0),
        PcscCommand::new(
            PcscInstruction::UpdateBinary {
                data: vec![0xAA; 16],
            },
            0,
            4,
        ),
        PcscCommand::new(
            PcscInstruction::GeneralAuthenticate {
                address: 0xFFFF,
                key_type: KeyType::MifareB,
                key_id: 0,
            },
            0,
            0,
        ),
        PcscCommand::new(
            PcscInstruction::GeneralAuthenticate {
                address: 0,
                key_type: KeyType::Unknown(0x7F),
                key_id: 0xFF,
            },
            0xFF,
            0xFF,
        ),
    ];
    for command in commands {
        let bytes = command.clone().encode().unwrap();
        let decoded = PcscCommand::decode(&bytes[..]).unwrap();
        assert_eq!(decoded, command);
        let reencoded = decoded.encode().unwrap();
        assert_eq!(reencoded, bytes);
    }
}

#[test]
fn payload_of_255_encodes_and_256_is_too_long() {
    let fits = PcscCommand::new(
        PcscInstruction::LoadKeys {
            data: vec![0x55; 255],
        },
        0,
        0,
    );
    let bytes = fits.encode().unwrap();
    assert_eq!(bytes.len(), 260);
    assert_eq!(PcscCommand::decode(&bytes[..]).unwrap(), fits);

    let too_long = PcscCommand::new(
        PcscInstruction::Verify {
            data: vec![0x55; 256],
        },
        0,
        0,
    );
    assert_eq!(too_long.encode(), Err(PcscCodecError::TooLong));
    let also_too_long = PcscCommand::new(
        PcscInstruction::UpdateBinary {
            data: vec![0x55; 256],
        },
        0,
        0,
    );
    assert_eq!(also_too_long.encode(), Err(PcscCodecError::TooLong));
    let keys_too_long = PcscCommand::new(
        PcscInstruction::LoadKeys {
            data: vec![0x55; 256],
        },
        0,
        0,
    );
    assert_eq!(keys_too_long.encode(), Err(PcscCodecError::TooLong));
}

#[test]
fn decode_rejects_frames_outside_the_envelope() {
    assert_eq!(PcscCommand::decode(&[]), Err(PcscCodecError::TooShort));
    assert_eq!(
        PcscCommand::decode(&[0xFF, 0xCA, 0x00, 0x00]),
        Err(PcscCodecError::TooShort)
    );
    let oversized = vec![0xFF; 261];
    assert_eq!(
        PcscCommand::decode(&oversized[..]),
        Err(PcscCodecError::TooLong)
    );
}

#[test]
fn decode_rejects_wrong_class_regardless_of_other_bytes() {
    assert_eq!(
        PcscCommand::decode(&[0x00, 0xCA, 0x00, 0x00, 0x00]),
        Err(PcscCodecError::WrongClass)
    );
    assert_eq!(
        PcscCommand::decode(&[0xFE, 0x99, 0x12, 0x34, 0x56, 0x78]),
        Err(PcscCodecError::WrongClass)
    );
}

#[test]
fn decode_rejects_unknown_instruction() {
    assert_eq!(
        PcscCommand::decode(&[0xFF, 0x99, 0x00, 0x00, 0x00]),
        Err(PcscCodecError::UnknownInstruction)
    );
}

#[test]
fn decode_checks_declared_payload_length() {
    // Declared length 3 but only 2 payload bytes follow.
    assert_eq!(
        PcscCommand::decode(&[0xFF, 0x82, 0x00, 0x00, 0x03, 0x01, 0x02]),
        Err(PcscCodecError::TooShort)
    );
    // Declared length 1 but 2 payload bytes follow.
    assert_eq!(
        PcscCommand::decode(&[0xFF, 0x20, 0x00, 0x00, 0x01, 0x01, 0x02]),
        Err(PcscCodecError::TooLong)
    );
}

#[test]
fn decode_checks_fixed_frame_lengths() {
    // Read-style frames are exactly five bytes.
    assert_eq!(
        PcscCommand::decode(&[0xFF, 0xCA, 0x00, 0x00, 0x00, 0x09]),
        Err(PcscCodecError::TooLong)
    );
    // General authenticate is exactly ten bytes.
    assert_eq!(
        PcscCommand::decode(&[0xFF, 0x86, 0x00, 0x00, 0x05, 0x01, 0x00, 0x01, 0x60]),
        Err(PcscCodecError::TooShort)
    );
    assert_eq!(
        PcscCommand::decode(&[0xFF, 0x86, 0x00, 0x00, 0x05, 0x01, 0x00, 0x01, 0x60, 0x00, 0x00]),
        Err(PcscCodecError::TooLong)
    );
}

#[test]
fn decode_maps_key_type_bytes() {
    let frame = |key_byte: u8| [0xFF, 0x86, 0x00, 0x00, 0x05, 0x01, 0x00, 0x04, key_byte, 0x01];
    let key_type_of = |bytes: [u8; 10]| match PcscCommand::decode(&bytes[..]).unwrap().ins {
        PcscInstruction::GeneralAuthenticate { key_type, .. } => key_type,
        other => panic!("decoded to {:?}", other),
    };
    assert_eq!(key_type_of(frame(0x60)), KeyType::MifareA);
    assert_eq!(key_type_of(frame(0x61)), KeyType::MifareB);
    assert_eq!(key_type_of(frame(0x7F)), KeyType::Unknown(0x7F));
}

#[test]
fn instruction_codes() {
    assert_eq!(
        PcscCommand::new(PcscInstruction::GetData { le: 0 }, 0, 0).ins_code(),
        0xCA
    );
    assert_eq!(
        PcscCommand::new(PcscInstruction::LoadKeys { data: vec![] }, 0, 0).ins_code(),
        0x82
    );
    assert_eq!(
        PcscCommand::new(
            PcscInstruction::GeneralAuthenticate {
                address: 0,
                key_type: KeyType::MifareA,
                key_id: 0,
            },
            0,
            0,
        )
        .ins_code(),
        0x86
    );
    assert_eq!(
        PcscCommand::new(PcscInstruction::Verify { data: vec![] }, 0, 0).ins_code(),
        0x20
    );
    assert_eq!(
        PcscCommand::new(PcscInstruction::ReadBinary { le: 0 }, 0, 0).ins_code(),
        0xB0
    );
    assert_eq!(
        PcscCommand::new(PcscInstruction::UpdateBinary { data: vec![] }, 0, 0).ins_code(),
        0xD6
    );
}

#[test]
fn expected_response_lengths() {
    let read_all = PcscCommand::new(PcscInstruction::GetData { le: 0 }, 0, 0);
    assert_eq!(read_all.expected_response_len(), 257);
    let read_some = PcscCommand::new(PcscInstruction::ReadBinary { le: 5 }, 0, 0);
    assert_eq!(read_some.expected_response_len(), 7);
    let write = PcscCommand::new(PcscInstruction::UpdateBinary { data: vec![1] }, 0, 0);
    assert_eq!(write.expected_response_len(), 2);
}

use nfc_pcsc::command::{PcscCodecError, PcscErrorCodeInfo, PcscResponse, PcscStatusWords};

#[test]
fn success_with_empty_payload() {
    let response = PcscResponse::decode(&[0x90, 0x00]).unwrap();
    assert_eq!(response.data, Vec::<u8>::new());
    assert_eq!(response.sw, PcscStatusWords::Success);
}

#[test]
fn command_error_with_payload() {
    let response = PcscResponse::decode(&[0x01, 0x02, 0x6A, 0x82]).unwrap();
    assert_eq!(response.data, vec![0x01, 0x02]);
    assert_eq!(response.sw, PcscStatusWords::CommandError(0x82));
    assert_eq!(
        response.sw.extra_info(0xB0),
        Some(PcscErrorCodeInfo::FileNotFound)
    );
    assert_eq!(
        response.sw.extra_info(0xCA),
        Some(PcscErrorCodeInfo::FileNotFound)
    );
}

#[test]
fn decode_rejects_short_frames() {
    assert_eq!(PcscResponse::decode(&[]), Err(PcscCodecError::TooShort));
    assert_eq!(PcscResponse::decode(&[0x90]), Err(PcscCodecError::TooShort));
}

#[test]
fn every_status_family_decodes() {
    let sw_of = |bytes: &[u8]| PcscResponse::decode(bytes).unwrap().sw;
    assert_eq!(sw_of(&[0x62, 0x81]), PcscStatusWords::Warning(0x81));
    assert_eq!(sw_of(&[0x63, 0x05]), PcscStatusWords::AllowedRetries(0x05));
    assert_eq!(sw_of(&[0x65, 0x81]), PcscStatusWords::MemoryFailure(0x81));
    assert_eq!(sw_of(&[0x67, 0x11]), PcscStatusWords::WrongLength);
    assert_eq!(sw_of(&[0x68, 0x22]), PcscStatusWords::WrongClassByte);
    assert_eq!(
        sw_of(&[0x69, 0x83]),
        PcscStatusWords::CommandImpossible(0x83)
    );
    assert_eq!(sw_of(&[0x6A, 0x88]), PcscStatusWords::CommandError(0x88));
    assert_eq!(sw_of(&[0x6B, 0x33]), PcscStatusWords::WrongParameter);
    assert_eq!(sw_of(&[0x6C, 0x10]), PcscStatusWords::WrongLengthLe(0x10));
    assert_eq!(sw_of(&[0x90, 0x00]), PcscStatusWords::Success);
    assert_eq!(
        sw_of(&[0x42, 0x07]),
        PcscStatusWords::Unknown {
            sw1: 0x42,
            sw2: 0x07
        }
    );
}

#[test]
fn encode_normalizes_sub_code_less_families() {
    let wrong_length = PcscResponse {
        data: vec![],
        sw: PcscStatusWords::WrongLength,
    };
    assert_eq!(wrong_length.encode(), vec![0x67, 0x00]);
    let wrong_parameter = PcscResponse {
        data: vec![0xAB],
        sw: PcscStatusWords::WrongParameter,
    };
    assert_eq!(wrong_parameter.encode(), vec![0xAB, 0x6B, 0x00]);
}

#[test]
fn response_round_trips() {
    let responses = vec![
        PcscResponse {
            data: vec![],
            sw: PcscStatusWords::Success,
        },
        PcscResponse {
            data: vec![1, 2, 3],
            sw: PcscStatusWords::AllowedRetries(2),
        },
        PcscResponse {
            data: vec![0xFF; 255],
            sw: PcscStatusWords::Warning(0x81),
        },
        PcscResponse {
            data: vec![9],
            sw: PcscStatusWords::Unknown {
                sw1: 0x42,
                sw2: 0x07,
            },
        },
    ];
    for response in responses {
        let bytes = response.encode();
        assert_eq!(bytes.len(), response.data.len() + 2);
        let decoded = PcscResponse::decode(&bytes[..]).unwrap();
        assert_eq!(decoded, response);
    }
}

#[test]
fn diagnostics_match_the_table() {
    assert_eq!(
        PcscStatusWords::Warning(0x81).extra_info(0x00),
        Some(PcscErrorCodeInfo::ResponseCorrupted)
    );
    assert_eq!(
        PcscStatusWords::Warning(0x82).extra_info(0x00),
        Some(PcscErrorCodeInfo::UnexpectedEndOfData)
    );
    assert_eq!(
        PcscStatusWords::MemoryFailure(0x81).extra_info(0xCA),
        Some(PcscErrorCodeInfo::AddressDoesNotExit)
    );
    assert_eq!(
        PcscStatusWords::MemoryFailure(0x81).extra_info(0xD6),
        Some(PcscErrorCodeInfo::WritingFailed)
    );
    assert_eq!(
        PcscStatusWords::CommandImpossible(0x82).extra_info(0x82),
        Some(PcscErrorCodeInfo::CardKeyNotSupported)
    );
    assert_eq!(
        PcscStatusWords::CommandImpossible(0x82).extra_info(0x86),
        Some(PcscErrorCodeInfo::SecurityStatusUnsatisfied)
    );
    assert_eq!(
        PcscStatusWords::CommandImpossible(0x89).extra_info(0x82),
        Some(PcscErrorCodeInfo::KeyLengthIncorrect)
    );
    assert_eq!(
        PcscStatusWords::CommandImpossible(0x81).extra_info(0xB0),
        Some(PcscErrorCodeInfo::CommandIncompatible)
    );
    assert_eq!(
        PcscStatusWords::CommandError(0x81).extra_info(0x00),
        Some(PcscErrorCodeInfo::FunctionNotSupported)
    );
    assert_eq!(
        PcscStatusWords::CommandError(0x88).extra_info(0x00),
        Some(PcscErrorCodeInfo::ReferenceDataNotFound)
    );
}

#[test]
fn diagnostics_absent_from_the_table_are_none() {
    assert_eq!(PcscStatusWords::Warning(0x99).extra_info(0xB0), None);
    assert_eq!(PcscStatusWords::MemoryFailure(0x81).extra_info(0x82), None);
    assert_eq!(
        PcscStatusWords::CommandImpossible(0x82).extra_info(0xCA),
        None
    );
    assert_eq!(PcscStatusWords::CommandImpossible(0x85).extra_info(0x86), None);
    assert_eq!(PcscStatusWords::Success.extra_info(0xCA), None);
    assert_eq!(PcscStatusWords::AllowedRetries(0x81).extra_info(0x20), None);
    assert_eq!(PcscStatusWords::WrongLength.extra_info(0x20), None);
    assert_eq!(
        PcscStatusWords::Unknown {
            sw1: 0x11,
            sw2: 0x81
        }
        .extra_info(0x20),
        None
    );
}

//! Classification of raw Answer-To-Reset (ATR) byte strings.
//!
//! The classifier reads fixed offsets of the ATR opportunistically: shorter
//! inputs yield fewer classified fields, and unknown standard or chip-model
//! codes degrade to `None` rather than failing, so cards newer than the
//! lookup tables never cause a hard error. The standard and chip-model
//! enumerations are deliberately open.

use vstd::prelude::*;

verus! {

/// Marker error for a byte value outside a lookup table.
#[derive(Debug, Clone, Copy, PartialEq, Eq, Structural)]
pub struct Unknown;

/// Known NFC tag families based on their ATR.
#[derive(Debug, Clone, Copy, PartialEq, Eq, Structural)]
#[non_exhaustive]
pub enum TagType {
    StorageCard,
    Iso14443_4,
}

/// The standard a storage card follows, keyed by a single ATR byte.
#[derive(Debug, Clone, Copy, PartialEq, Eq, Structural)]
#[non_exhaustive]
pub enum Standard {
    NoInformation,
    Iso14443APart1,
    Iso14443APart2,
    Iso14443APart3,
    Iso14443BPart1,
    Iso14443BPart2,
    Iso14443BPart3,
    Iso15693Part1,
    Iso15693Part2,
    Iso15693Part3,
    Iso15693Part4,
    Iso7816_10I2c,
    Iso7816_10I2cExtended,
    Iso7816_10_2Wbp,
    Iso7816_10_3Wbp,
    FeliCa,
    LowFrequencyContactless,
}

impl Standard {
    /// The standard an ATR byte stands for, or `None` for a code outside the
    /// table.
    pub open spec fn spec_from_byte(value: u8) -> Option<Standard> {
        if value == 0x00 {
            Some(Standard::NoInformation)
        } else if value == 0x01 {
            Some(Standard::Iso14443APart1)
        } else if value == 0x02 {
            Some(Standard::Iso14443APart2)
        } else if value == 0x03 {
            Some(Standard::Iso14443APart3)
        } else if value == 0x05 {
            Some(Standard::Iso14443BPart1)
        } else if value == 0x06 {
            Some(Standard::Iso14443BPart2)
        } else if value == 0x07 {
            Some(Standard::Iso14443BPart3)
        } else if value == 0x09 {
            Some(Standard::Iso15693Part1)
        } else if value == 0x0A {
            Some(Standard::Iso15693Part2)
        } else if value == 0x0B {
            Some(Standard::Iso15693Part3)
        } else if value == 0x0C {
            Some(Standard::Iso15693Part4)
        } else if value == 0x0D {
            Some(Standard::Iso7816_10I2c)
        } else if value == 0x0E {
            Some(Standard::Iso7816_10I2cExtended)
        } else if value == 0x0F {
            Some(Standard::Iso7816_10_2Wbp)
        } else if value == 0x10 {
            Some(Standard::Iso7816_10_3Wbp)
        } else if value == 0x11 {
            Some(Standard::FeliCa)
        } else if value == 0x40 {
            Some(Standard::LowFrequencyContactless)
        } else {
            None
        }
    }

    /// Decode a standard byte; a code outside the table is `Unknown`.
    pub fn try_from(value: u8) -> (r: Result<Standard, Unknown>)
        ensures
            r matches Ok(s) ==> Standard::spec_from_byte(value) == Some(s),
            r is Err ==> Standard::spec_from_byte(value) is None,
    {
        match value {
            0x00 => Ok(Standard::NoInformation),
            0x01 => Ok(Standard::Iso14443APart1),
            0x02 => Ok(Standard::Iso14443APart2),
            0x03 => Ok(Standard::Iso14443APart3),
            0x05 => Ok(Standard::Iso14443BPart1),
            0x06 => Ok(Standard::Iso14443BPart2),
            0x07 => Ok(Standard::Iso14443BPart3),
            0x09 => Ok(Standard::Iso15693Part1),
            0x0A => Ok(Standard::Iso15693Part2),
            0x0B => Ok(Standard::Iso15693Part3),
            0x0C => Ok(Standard::Iso15693Part4),
            0x0D => Ok(Standard::Iso7816_10I2c),
            0x0E => Ok(Standard::Iso7816_10I2cExtended),
            0x0F => Ok(Standard::Iso7816_10_2Wbp),
            0x10 => Ok(Standard::Iso7816_10_3Wbp),
            0x11 => Ok(Standard::FeliCa),
            0x40 => Ok(Standard::LowFrequencyContactless),
            _ => Err(Unknown),
        }
    }
}

/// The chip model of a storage card, keyed by a 16-bit ATR field.
#[derive(Debug, Clone, Copy, PartialEq, Eq, Structural)]
#[non_exhaustive]
pub enum CardName {
    NoInformation,
    MifareStandard1K,
    MifareStandard4K,
    MifareUltraLight,
    Sle55R,
    Sr176,
    SriX4K,
    At88Rr020,
    At88Sc0204Crf,
    At88Sc0808Crf,
    At88Sc1616Crf,
    At88Sc3216Crf,
    At88Sc6416Crf,
    Srf55V10P,
    Srf55V02P,
    Srf55V10S,
    Srf55V02S,
    TagIt,
    Lri512,
    ICodeSli,
    TempSens,
    ICode1,
    PicoPass2K,
    PicoPass2KS,
    PicoPass16K,
    PicoPass16Ks,
    PicoPass16K8x2,
    PicoPass16Ks8x2,
    PicoPass32Ks16plus16,
    PicoPass32Ks16plus8x2,
    PicoPass32Ks8x2plus16,
    PicoPass32Ks8x2plus8x2,
    Lri64,
    ICodeUid,
    ICodeEpc,
    Lri12,
    Lri128,
    MifareMini,
    MyDMove,
    MyDNfc,
    MyDProximity2,
    MyDProximityEnhanced,
    MyDLight,
    PjmStackTag,
    PjmItemTag,
    PjmLight,
    JewelTag,
    TopazNfcTag,
    At88Sc0104Crf,
    At88Sc0404Crf,
    At88Rf01C,
    At88Rf04C,
    ICodeSl2,
    MifarePlusSl1_2K,
    MifarePlusSl1_4K,
    MifarePlusSl2_2K,
    MifarePlusSl2_4K,
    MifareUltralightC,
    FeliCa,
    MelexisSensorTag,
    MifareUltralightEv1,
}

impl CardName {
    /// The chip model a 16-bit ATR code stands for, or `None` for a code
    /// outside the table.
    pub open spec fn spec_from_code(code: u16) -> Option<CardName> {
        if code == 0x0000 {
            Some(CardName::NoInformation)
        } else if code == 0x0001 {
            Some(CardName::MifareStandard1K)
        } else if code == 0x0002 {
            Some(CardName::MifareStandard4K)
        } else if code == 0x0003 {
            Some(CardName::MifareUltraLight)
        } else if code == 0x0004 {
            Some(CardName::Sle55R)
        } else if code == 0x0006 {
            Some(CardName::Sr176)
        } else if code == 0x0007 {
            Some(CardName::SriX4K)
        } else if code == 0x0008 {
            Some(CardName::At88Rr020)
        } else if code == 0x0009 {
            Some(CardName::At88Sc0204Crf)
        } else if code == 0x000A {
            Some(CardName::At88Sc0808Crf)
        } else if code == 0x000B {
            Some(CardName::At88Sc1616Crf)
        } else if code == 0x000C {
            Some(CardName::At88Sc3216Crf)
        } else if code == 0x000D {
            Some(CardName::At88Sc6416Crf)
        } else if code == 0x000E {
            Some(CardName::Srf55V10P)
        } else if code == 0x000F {
            Some(CardName::Srf55V02P)
        } else if code == 0x0010 {
            Some(CardName::Srf55V10S)
        } else if code == 0x0011 {
            Some(CardName::Srf55V02S)
        } else if code == 0x0012 {
            Some(CardName::TagIt)
        } else if code == 0x0013 {
            Some(CardName::Lri512)
        } else if code == 0x0014 {
            Some(CardName::ICodeSli)
        } else if code == 0x0015 {
            Some(CardName::TempSens)
        } else if code == 0x0016 {
            Some(CardName::ICode1)
        } else if code == 0x0017 {
            Some(CardName::PicoPass2K)
        } else if code == 0x0018 {
            Some(CardName::PicoPass2KS)
        } else if code == 0x0019 {
            Some(CardName::PicoPass16K)
        } else if code == 0x001A {
            Some(CardName::PicoPass16Ks)
        } else if code == 0x001B {
            Some(CardName::PicoPass16K8x2)
        } else if code == 0x001C {
            Some(CardName::PicoPass16Ks8x2)
        } else if code == 0x001D {
            Some(CardName::PicoPass32Ks16plus16)
        } else if code == 0x001E {
            Some(CardName::PicoPass32Ks16plus8x2)
        } else if code == 0x001F {
            Some(CardName::PicoPass32Ks8x2plus16)
        } else if code == 0x0020 {
            Some(CardName::PicoPass32Ks8x2plus8x2)
        } else if code == 0x0021 {
            Some(CardName::Lri64)
        } else if code == 0x0022 {
            Some(CardName::ICodeUid)
        } else if code == 0x0023 {
            Some(CardName::ICodeEpc)
        } else if code == 0x0024 {
            Some(CardName::Lri12)
        } else if code == 0x0025 {
            Some(CardName::Lri128)
        } else if code == 0x0026 {
            Some(CardName::MifareMini)
        } else if code == 0x0027 {
            Some(CardName::MyDMove)
        } else if code == 0x0028 {
            Some(CardName::MyDNfc)
        } else if code == 0x0029 {
            Some(CardName::MyDProximity2)
        } else if code == 0x002A {
            Some(CardName::MyDProximityEnhanced)
        } else if code == 0x002B {
            Some(CardName::MyDLight)
        } else if code == 0x002C {
            Some(CardName::PjmStackTag)
        } else if code == 0x002D {
            Some(CardName::PjmItemTag)
        } else if code == 0x002E {
            Some(CardName::PjmLight)
        } else if code == 0x002F {
            Some(CardName::JewelTag)
        } else if code == 0x0030 {
            Some(CardName::TopazNfcTag)
        } else if code == 0x0031 {
            Some(CardName::At88Sc0104Crf)
        } else if code == 0x0032 {
            Some(CardName::At88Sc0404Crf)
        } else if code == 0x0033 {
            Some(CardName::At88Rf01C)
        } else if code == 0x0034 {
            Some(CardName::At88Rf04C)
        } else if code == 0x0035 {
            Some(CardName::ICodeSl2)
        } else if code == 0x0036 {
            Some(CardName::MifarePlusSl1_2K)
        } else if code == 0x0037 {
            Some(CardName::MifarePlusSl1_4K)
        } else if code == 0x0038 {
            Some(CardName::MifarePlusSl2_2K)
        } else if code == 0x0039 {
            Some(CardName::MifarePlusSl2_4K)
        } else if code == 0x003A {
            Some(CardName::MifareUltralightC)
        } else if code == 0x003B {
            Some(CardName::FeliCa)
        } else if code == 0x003C {
            Some(CardName::MelexisSensorTag)
        } else if code == 0x003D {
            Some(CardName::MifareUltralightEv1)
        } else {
            None
        }
    }

    /// Decode a 16-bit chip-model code; a code outside the table is
    /// `Unknown`.
    pub fn try_from(value: u16) -> (r: Result<CardName, Unknown>)
        ensures
            r matches Ok(n) ==> CardName::spec_from_code(value) == Some(n),
            r is Err ==> CardName::spec_from_code(value) is None,
    {
        match value {
            0x0000 => Ok(CardName::NoInformation),
            0x0001 => Ok(CardName::MifareStandard1K),
            0x0002 => Ok(CardName::MifareStandard4K),
            0x0003 => Ok(CardName::MifareUltraLight),
            0x0004 => Ok(CardName::Sle55R),
            0x0006 => Ok(CardName::Sr176),
            0x0007 => Ok(CardName::SriX4K),
            0x0008 => Ok(CardName::At88Rr020),
            0x0009 => Ok(CardName::At88Sc0204Crf),
            0x000A => Ok(CardName::At88Sc0808Crf),
            0x000B => Ok(CardName::At88Sc1616Crf),
            0x000C => Ok(CardName::At88Sc3216Crf),
            0x000D => Ok(CardName::At88Sc6416Crf),
            0x000E => Ok(CardName::Srf55V10P),
            0x000F => Ok(CardName::Srf55V02P),
            0x0010 => Ok(CardName::Srf55V10S),
            0x0011 => Ok(CardName::Srf55V02S),
            0x0012 => Ok(CardName::TagIt),
            0x0013 => Ok(CardName::Lri512),
            0x0014 => Ok(CardName::ICodeSli),
            0x0015 => Ok(CardName::TempSens),
            0x0016 => Ok(CardName::ICode1),
            0x0017 => Ok(CardName::PicoPass2K),
            0x0018 => Ok(CardName::PicoPass2KS),
            0x0019 => Ok(CardName::PicoPass16K),
            0x001A => Ok(CardName::PicoPass16Ks),
            0x001B => Ok(CardName::PicoPass16K8x2),
            0x001C => Ok(CardName::PicoPass16Ks8x2),
            0x001D => Ok(CardName::PicoPass32Ks16plus16),
            0x001E => Ok(CardName::PicoPass32Ks16plus8x2),
            0x001F => Ok(CardName::PicoPass32Ks8x2plus16),
            0x0020 => Ok(CardName::PicoPass32Ks8x2plus8x2),
            0x0021 => Ok(CardName::Lri64),
            0x0022 => Ok(CardName::ICodeUid),
            0x0023 => Ok(CardName::ICodeEpc),
            0x0024 => Ok(CardName::Lri12),
            0x0025 => Ok(CardName::Lri128),
            0x0026 => Ok(CardName::MifareMini),
            0x0027 => Ok(CardName::MyDMove),
            0x0028 => Ok(CardName::MyDNfc),
            0x0029 => Ok(CardName::MyDProximity2),
            0x002A => Ok(CardName::MyDProximityEnhanced),
            0x002B => Ok(CardName::MyDLight),
            0x002C => Ok(CardName::PjmStackTag),
            0x002D => Ok(CardName::PjmItemTag),
            0x002E => Ok(CardName::PjmLight),
            0x002F => Ok(CardName::JewelTag),
            0x0030 => Ok(CardName::TopazNfcTag),
            0x0031 => Ok(CardName::At88Sc0104Crf),
            0x0032 => Ok(CardName::At88Sc0404Crf),
            0x0033 => Ok(CardName::At88Rf01C),
            0x0034 => Ok(CardName::At88Rf04C),
            0x0035 => Ok(CardName::ICodeSl2),
            0x0036 => Ok(CardName::MifarePlusSl1_2K),
            0x0037 => Ok(CardName::MifarePlusSl1_4K),
            0x0038 => Ok(CardName::MifarePlusSl2_2K),
            0x0039 => Ok(CardName::MifarePlusSl2_4K),
            0x003A => Ok(CardName::MifareUltralightC),
            0x003B => Ok(CardName::FeliCa),
            0x003C => Ok(CardName::MelexisSensorTag),
            0x003D => Ok(CardName::MifareUltralightEv1),
            _ => Err(Unknown),
        }
    }
}

/// Whether the five-byte ATR head marks a PC/SC pseudo-ATR: `0x3B`, any
/// length byte, then `0x80 0x01`.
pub open spec fn atr_head_matches(atr: Seq<u8>) -> bool {
    atr.len() >= 5 && atr[0] == 0x3B && atr[2] == 0x80 && atr[3] == 0x01
}

/// Whether bytes 7 to 11 hold the registered application identifier of the
/// PC/SC workgroup for storage cards.
pub open spec fn storage_rid_matches(atr: Seq<u8>) -> bool {
    atr.len() >= 12 && atr[7] == 0xA0 && atr[8] == 0x00 && atr[9] == 0x00 && atr[10] == 0x03
        && atr[11] == 0x06
}

/// The exact classification of an ATR, for every byte sequence. The head is
/// matched positionally; under a storage-card head, byte 5 selects the
/// single-application form (whose registered identifier, standard byte and
/// big-endian chip-model field are then read at fixed offsets, each degrading
/// to `None` when absent or unknown) or the multi-application form; a head
/// whose fifth byte differs marks a protocol-capable ISO 14443-4 card.
pub open spec fn spec_classify_atr(atr: Seq<u8>) -> (
    Option<TagType>,
    Option<Standard>,
    Option<CardName>,
) {
    if atr_head_matches(atr) {
        if atr[4] == 0x80 {
            if atr.len() >= 6 && atr[5] == 0x4F {
                if storage_rid_matches(atr) {
                    let standard = if atr.len() >= 14 {
                        Standard::spec_from_byte(atr[13])
                    } else {
                        None
                    };
                    let card_name = if atr.len() >= 16 {
                        CardName::spec_from_code((atr[14] * 256 + atr[15]) as u16)
                    } else {
                        None
                    };
                    (Some(TagType::StorageCard), standard, card_name)
                } else {
                    (Some(TagType::StorageCard), None, None)
                }
            } else if atr.len() >= 6 && atr[1] == 0x81 && atr[5] == 0x80 {
                (Some(TagType::StorageCard), None, None)
            } else {
                (None, None, None)
            }
        } else {
            (Some(TagType::Iso14443_4), None, None)
        }
    } else {
        (None, None, None)
    }
}

/// Classify a raw ATR into tag family, standard and chip model, each
/// optional. Pure and total: every byte sequence classifies, and unknown
/// codes degrade to `None` per field rather than failing.
pub fn parse_atr(atr: &[u8]) -> (r: (Option<TagType>, Option<Standard>, Option<CardName>))
    ensures
        r == spec_classify_atr(atr@),
{
    if !(atr.len() >= 5 && atr[0] == 0x3B && atr[2] == 0x80 && atr[3] == 0x01) {
        return (None, None, None);
    }
    if atr[4] != 0x80 {
        return (Some(TagType::Iso14443_4), None, None);
    }
    if atr.len() >= 6 && atr[5] == 0x4F {
        if atr.len() >= 12 && atr[7] == 0xA0 && atr[8] == 0x00 && atr[9] == 0x00 && atr[10] == 0x03
            && atr[11] == 0x06 {
            let standard = if atr.len() >= 14 {
                match Standard::try_from(atr[13]) {
                    Ok(s) => Some(s),
                    Err(_) => None,
                }
            } else {
                None
            };
            let card_name = if atr.len() >= 16 {
                let code = (atr[14] as u16) * 256 + (atr[15] as u16);
                match CardName::try_from(code) {
                    Ok(n) => Some(n),
                    Err(_) => None,
                }
            } else {
                None
            };
            (Some(TagType::StorageCard), standard, card_name)
        } else {
            (Some(TagType::StorageCard), None, None)
        }
    } else if atr.len() >= 6 && atr[1] == 0x81 && atr[5] == 0x80 {
        (Some(TagType::StorageCard), None, None)
    } else {
        (None, None, None)
    }
}

} // verus!

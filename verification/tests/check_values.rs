//! Catalogue check values through the custom-parameter entry point.

use crc_fast::{checksum_with_params, CrcAlgorithm, CrcParams};

#[test]
fn test_check_values_crc16() {
    let test_cases: &[(&str, CrcAlgorithm, u64)] = &[
        ("CRC-16/ARC", CrcAlgorithm::Crc16Arc, 0xBB3D),
        ("CRC-16/CDMA2000", CrcAlgorithm::Crc16Cdma2000, 0x4C06),
        ("CRC-16/CMS", CrcAlgorithm::Crc16Cms, 0xAEE7),
        ("CRC-16/DDS-110", CrcAlgorithm::Crc16Dds110, 0x9ECF),
        ("CRC-16/DECT-R", CrcAlgorithm::Crc16DectR, 0x007E),
        ("CRC-16/DECT-X", CrcAlgorithm::Crc16DectX, 0x007F),
        ("CRC-16/DNP", CrcAlgorithm::Crc16Dnp, 0xEA82),
        ("CRC-16/EN-13757", CrcAlgorithm::Crc16En13757, 0xC2B7),
        ("CRC-16/GENIBUS", CrcAlgorithm::Crc16Genibus, 0xD64E),
        ("CRC-16/GSM", CrcAlgorithm::Crc16Gsm, 0xCE3C),
        ("CRC-16/IBM-3740", CrcAlgorithm::Crc16Ibm3740, 0x29B1),
        ("CRC-16/IBM-SDLC", CrcAlgorithm::Crc16IbmSdlc, 0x906E),
        (
            "CRC-16/ISO-IEC-14443-3-A",
            CrcAlgorithm::Crc16IsoIec144433A,
            0xBF05,
        ),
        ("CRC-16/KERMIT", CrcAlgorithm::Crc16Kermit, 0x2189),
        ("CRC-16/LJ1200", CrcAlgorithm::Crc16Lj1200, 0xBDF4),
        ("CRC-16/M17", CrcAlgorithm::Crc16M17, 0x772B),
        ("CRC-16/MAXIM-DOW", CrcAlgorithm::Crc16MaximDow, 0x44C2),
        ("CRC-16/MCRF4XX", CrcAlgorithm::Crc16Mcrf4xx, 0x6F91),
        ("CRC-16/MODBUS", CrcAlgorithm::Crc16Modbus, 0x4B37),
        ("CRC-16/NRSC-5", CrcAlgorithm::Crc16Nrsc5, 0xA066),
        ("CRC-16/OPENSAFETY-A", CrcAlgorithm::Crc16OpensafetyA, 0x5D38),
        ("CRC-16/OPENSAFETY-B", CrcAlgorithm::Crc16OpensafetyB, 0x20FE),
        ("CRC-16/PROFIBUS", CrcAlgorithm::Crc16Profibus, 0xA819),
        ("CRC-16/RIELLO", CrcAlgorithm::Crc16Riello, 0x63D0),
        ("CRC-16/SPI-FUJITSU", CrcAlgorithm::Crc16SpiFujitsu, 0xE5CC),
        ("CRC-16/T10-DIF", CrcAlgorithm::Crc16T10Dif, 0xD0DB),
        ("CRC-16/TELEDISK", CrcAlgorithm::Crc16Teledisk, 0x0FB3),
        ("CRC-16/TMS37157", CrcAlgorithm::Crc16Tms37157, 0x26B1),
        ("CRC-16/UMTS", CrcAlgorithm::Crc16Umts, 0xFEE8),
        ("CRC-16/USB", CrcAlgorithm::Crc16Usb, 0xB4C8),
        ("CRC-16/XMODEM", CrcAlgorithm::Crc16Xmodem, 0x31C3),
    ];

    for (name, algorithm, expected_check) in test_cases {
        let params = CrcParams::from_algorithm(*algorithm);
        let result = checksum_with_params(params, b"123456789");
        assert_eq!(
            result, *expected_check,
            "{} check value mismatch: got 0x{:04X}, expected 0x{:04X}",
            name, result, expected_check
        );
    }
}

#[test]
fn test_check_values_crc32() {
    let test_cases: &[(&str, CrcAlgorithm, u64)] = &[
        ("CRC-32/AIXM", CrcAlgorithm::Crc32Aixm, 0x3010BF7F),
        ("CRC-32/AUTOSAR", CrcAlgorithm::Crc32Autosar, 0x1697D06A),
        ("CRC-32/BASE91-D", CrcAlgorithm::Crc32Base91D, 0x87315576),
        ("CRC-32/BZIP2", CrcAlgorithm::Crc32Bzip2, 0xFC891918),
        ("CRC-32/CD-ROM-EDC", CrcAlgorithm::Crc32CdRomEdc, 0x6EC2EDC4),
        ("CRC-32/CKSUM", CrcAlgorithm::Crc32Cksum, 0x765E7680),
        ("CRC-32/ISCSI", CrcAlgorithm::Crc32Iscsi, 0xE3069283),
        ("CRC-32/ISO-HDLC", CrcAlgorithm::Crc32IsoHdlc, 0xCBF43926),
        ("CRC-32/JAMCRC", CrcAlgorithm::Crc32Jamcrc, 0x340BC6D9),
        ("CRC-32/MEF", CrcAlgorithm::Crc32Mef, 0xD2C22F51),
        ("CRC-32/MPEG-2", CrcAlgorithm::Crc32Mpeg2, 0x0376E6E7),
        ("CRC-32/XFER", CrcAlgorithm::Crc32Xfer, 0xBD0BE338),
    ];

    for (name, algorithm, expected_check) in test_cases {
        let params = CrcParams::from_algorithm(*algorithm);
        let result = checksum_with_params(params, b"123456789");
        assert_eq!(
            result, *expected_check,
            "{} check value mismatch: got 0x{:08X}, expected 0x{:08X}",
            name, result, expected_check
        );
    }
}

#[test]
fn test_check_values_crc64() {
    let test_cases: &[(&str, CrcAlgorithm, u64)] = &[
        ("CRC-64/ECMA-182", CrcAlgorithm::Crc64Ecma182, 0x6C40DF5F0B497347),
        ("CRC-64/GO-ISO", CrcAlgorithm::Crc64GoIso, 0xB90956C775A41001),
        ("CRC-64/MS", CrcAlgorithm::Crc64Ms, 0x75D4B74F024ECEEA),
        ("CRC-64/NVME", CrcAlgorithm::Crc64Nvme, 0xAE8B14860A799888),
        ("CRC-64/REDIS", CrcAlgorithm::Crc64Redis, 0xE9C6D914C4B8D9CA),
        ("CRC-64/WE", CrcAlgorithm::Crc64We, 0x62EC59E3F1A4F00A),
        ("CRC-64/XZ", CrcAlgorithm::Crc64Xz, 0x995DC9BBDF1939FA),
    ];

    for (name, algorithm, expected_check) in test_cases {
        let params = CrcParams::from_algorithm(*algorithm);
        let result = checksum_with_params(params, b"123456789");
        assert_eq!(
            result, *expected_check,
            "{} check value mismatch: got 0x{:016X}, expected 0x{:016X}",
            name, result, expected_check
        );
    }
}

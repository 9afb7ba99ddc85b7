//! Engine tests: catalogue check values, published vectors, and equivalence
//! with an independent table-driven reference implementation across sizes.

use crc_fast::arch::update;
use crc_fast::{CrcAlgorithm, CrcParams};
use rand::RngExt;

fn all_algorithms() -> Vec<CrcAlgorithm> {
    vec![
        CrcAlgorithm::Crc16Arc,
        CrcAlgorithm::Crc16Cdma2000,
        CrcAlgorithm::Crc16Cms,
        CrcAlgorithm::Crc16Dds110,
        CrcAlgorithm::Crc16DectR,
        CrcAlgorithm::Crc16DectX,
        CrcAlgorithm::Crc16Dnp,
        CrcAlgorithm::Crc16En13757,
        CrcAlgorithm::Crc16Genibus,
        CrcAlgorithm::Crc16Gsm,
        CrcAlgorithm::Crc16Ibm3740,
        CrcAlgorithm::Crc16IbmSdlc,
        CrcAlgorithm::Crc16IsoIec144433A,
        CrcAlgorithm::Crc16Kermit,
        CrcAlgorithm::Crc16Lj1200,
        CrcAlgorithm::Crc16M17,
        CrcAlgorithm::Crc16MaximDow,
        CrcAlgorithm::Crc16Mcrf4xx,
        CrcAlgorithm::Crc16Modbus,
        CrcAlgorithm::Crc16Nrsc5,
        CrcAlgorithm::Crc16OpensafetyA,
        CrcAlgorithm::Crc16OpensafetyB,
        CrcAlgorithm::Crc16Profibus,
        CrcAlgorithm::Crc16Riello,
        CrcAlgorithm::Crc16SpiFujitsu,
        CrcAlgorithm::Crc16T10Dif,
        CrcAlgorithm::Crc16Teledisk,
        CrcAlgorithm::Crc16Tms37157,
        CrcAlgorithm::Crc16Umts,
        CrcAlgorithm::Crc16Usb,
        CrcAlgorithm::Crc16Xmodem,
        CrcAlgorithm::Crc32Aixm,
        CrcAlgorithm::Crc32Autosar,
        CrcAlgorithm::Crc32Base91D,
        CrcAlgorithm::Crc32Bzip2,
        CrcAlgorithm::Crc32CdRomEdc,
        CrcAlgorithm::Crc32Cksum,
        CrcAlgorithm::Crc32Iscsi,
        CrcAlgorithm::Crc32IsoHdlc,
        CrcAlgorithm::Crc32Jamcrc,
        CrcAlgorithm::Crc32Mef,
        CrcAlgorithm::Crc32Mpeg2,
        CrcAlgorithm::Crc32Xfer,
        CrcAlgorithm::Crc64Ecma182,
        CrcAlgorithm::Crc64GoIso,
        CrcAlgorithm::Crc64Ms,
        CrcAlgorithm::Crc64Nvme,
        CrcAlgorithm::Crc64Redis,
        CrcAlgorithm::Crc64We,
        CrcAlgorithm::Crc64Xz,
    ]
}

/// CRC-64/NVME parameters for the reference implementation; the `crc` crate
/// does not ship this variant.
fn nvme_reference() -> &'static crc::Algorithm<u64> {
    Box::leak(Box::new(crc::Algorithm {
        width: 64,
        poly: 0xad93d23594c93659,
        init: 0xffffffffffffffff,
        refin: true,
        refout: true,
        xorout: 0xffffffffffffffff,
        check: 0xae8b14860a799888,
        residue: 0xf310303b2b6f6e42,
    }))
}

/// An independent table-driven checksum of `data` for the same variant.
fn reference_checksum(algorithm: CrcAlgorithm, data: &[u8]) -> u64 {
    type C16 = crc::Crc<u16, crc::Table<16>>;
    type C32 = crc::Crc<u32, crc::Table<16>>;
    type C64 = crc::Crc<u64, crc::Table<16>>;
    match algorithm {
        CrcAlgorithm::Crc16Arc => C16::new(&crc::CRC_16_ARC).checksum(data) as u64,
        CrcAlgorithm::Crc16Cdma2000 => C16::new(&crc::CRC_16_CDMA2000).checksum(data) as u64,
        CrcAlgorithm::Crc16Cms => C16::new(&crc::CRC_16_CMS).checksum(data) as u64,
        CrcAlgorithm::Crc16Dds110 => C16::new(&crc::CRC_16_DDS_110).checksum(data) as u64,
        CrcAlgorithm::Crc16DectR => C16::new(&crc::CRC_16_DECT_R).checksum(data) as u64,
        CrcAlgorithm::Crc16DectX => C16::new(&crc::CRC_16_DECT_X).checksum(data) as u64,
        CrcAlgorithm::Crc16Dnp => C16::new(&crc::CRC_16_DNP).checksum(data) as u64,
        CrcAlgorithm::Crc16En13757 => C16::new(&crc::CRC_16_EN_13757).checksum(data) as u64,
        CrcAlgorithm::Crc16Genibus => C16::new(&crc::CRC_16_GENIBUS).checksum(data) as u64,
        CrcAlgorithm::Crc16Gsm => C16::new(&crc::CRC_16_GSM).checksum(data) as u64,
        CrcAlgorithm::Crc16Ibm3740 => C16::new(&crc::CRC_16_IBM_3740).checksum(data) as u64,
        CrcAlgorithm::Crc16IbmSdlc => C16::new(&crc::CRC_16_IBM_SDLC).checksum(data) as u64,
        CrcAlgorithm::Crc16IsoIec144433A => {
            C16::new(&crc::CRC_16_ISO_IEC_14443_3_A).checksum(data) as u64
        }
        CrcAlgorithm::Crc16Kermit => C16::new(&crc::CRC_16_KERMIT).checksum(data) as u64,
        CrcAlgorithm::Crc16Lj1200 => C16::new(&crc::CRC_16_LJ1200).checksum(data) as u64,
        CrcAlgorithm::Crc16M17 => C16::new(&crc::CRC_16_M17).checksum(data) as u64,
        CrcAlgorithm::Crc16MaximDow => C16::new(&crc::CRC_16_MAXIM_DOW).checksum(data) as u64,
        CrcAlgorithm::Crc16Mcrf4xx => C16::new(&crc::CRC_16_MCRF4XX).checksum(data) as u64,
        CrcAlgorithm::Crc16Modbus => C16::new(&crc::CRC_16_MODBUS).checksum(data) as u64,
        CrcAlgorithm::Crc16Nrsc5 => C16::new(&crc::CRC_16_NRSC_5).checksum(data) as u64,
        CrcAlgorithm::Crc16OpensafetyA => C16::new(&crc::CRC_16_OPENSAFETY_A).checksum(data) as u64,
        CrcAlgorithm::Crc16OpensafetyB => C16::new(&crc::CRC_16_OPENSAFETY_B).checksum(data) as u64,
        CrcAlgorithm::Crc16Profibus => C16::new(&crc::CRC_16_PROFIBUS).checksum(data) as u64,
        CrcAlgorithm::Crc16Riello => C16::new(&crc::CRC_16_RIELLO).checksum(data) as u64,
        CrcAlgorithm::Crc16SpiFujitsu => C16::new(&crc::CRC_16_SPI_FUJITSU).checksum(data) as u64,
        CrcAlgorithm::Crc16T10Dif => C16::new(&crc::CRC_16_T10_DIF).checksum(data) as u64,
        CrcAlgorithm::Crc16Teledisk => C16::new(&crc::CRC_16_TELEDISK).checksum(data) as u64,
        CrcAlgorithm::Crc16Tms37157 => C16::new(&crc::CRC_16_TMS37157).checksum(data) as u64,
        CrcAlgorithm::Crc16Umts => C16::new(&crc::CRC_16_UMTS).checksum(data) as u64,
        CrcAlgorithm::Crc16Usb => C16::new(&crc::CRC_16_USB).checksum(data) as u64,
        CrcAlgorithm::Crc16Xmodem => C16::new(&crc::CRC_16_XMODEM).checksum(data) as u64,
        CrcAlgorithm::Crc32Aixm => C32::new(&crc::CRC_32_AIXM).checksum(data) as u64,
        CrcAlgorithm::Crc32Autosar => C32::new(&crc::CRC_32_AUTOSAR).checksum(data) as u64,
        CrcAlgorithm::Crc32Base91D => C32::new(&crc::CRC_32_BASE91_D).checksum(data) as u64,
        CrcAlgorithm::Crc32Bzip2 => C32::new(&crc::CRC_32_BZIP2).checksum(data) as u64,
        CrcAlgorithm::Crc32CdRomEdc => C32::new(&crc::CRC_32_CD_ROM_EDC).checksum(data) as u64,
        CrcAlgorithm::Crc32Cksum => C32::new(&crc::CRC_32_CKSUM).checksum(data) as u64,
        CrcAlgorithm::Crc32Iscsi => C32::new(&crc::CRC_32_ISCSI).checksum(data) as u64,
        CrcAlgorithm::Crc32IsoHdlc => C32::new(&crc::CRC_32_ISO_HDLC).checksum(data) as u64,
        CrcAlgorithm::Crc32Jamcrc => C32::new(&crc::CRC_32_JAMCRC).checksum(data) as u64,
        CrcAlgorithm::Crc32Mef => C32::new(&crc::CRC_32_MEF).checksum(data) as u64,
        CrcAlgorithm::Crc32Mpeg2 => C32::new(&crc::CRC_32_MPEG_2).checksum(data) as u64,
        CrcAlgorithm::Crc32Xfer => C32::new(&crc::CRC_32_XFER).checksum(data) as u64,
        CrcAlgorithm::Crc64Ecma182 => C64::new(&crc::CRC_64_ECMA_182).checksum(data),
        CrcAlgorithm::Crc64GoIso => C64::new(&crc::CRC_64_GO_ISO).checksum(data),
        CrcAlgorithm::Crc64Ms => C64::new(&crc::CRC_64_MS).checksum(data),
        CrcAlgorithm::Crc64Nvme => C64::new(nvme_reference()).checksum(data),
        CrcAlgorithm::Crc64Redis => C64::new(&crc::CRC_64_REDIS).checksum(data),
        CrcAlgorithm::Crc64We => C64::new(&crc::CRC_64_WE).checksum(data),
        CrcAlgorithm::Crc64Xz => C64::new(&crc::CRC_64_XZ).checksum(data),
        _ => panic!("no reference for custom algorithms"),
    }
}

#[test]
fn test_check_value() {
    for algorithm in all_algorithms() {
        let params = CrcParams::from_algorithm(algorithm);
        // direct update() call, which needs XOROUT applied
        let actual = update(params.init_algorithm, b"123456789", params) ^ params.xorout;

        assert_eq!(
            actual,
            params.check,
            "Mismatch CRC, {}, expected {:#x}, got {:#x}",
            algorithm.name(),
            params.check,
            actual
        );
    }
}

// CRC-64/NVME is a special flower in that Rust's crc library doesn't support
// it yet, so we have tested values to check against.
#[test]
fn test_crc64_nvme_standard_vectors() {
    let params = CrcParams::from_algorithm(CrcAlgorithm::Crc64Nvme);
    let test_256_bytes: &[u8] = b"1234567890123456789012345678901234567890123456789012345678901234567890123456789012345678901234567890123456789012345678901234567890123456789012345678901234567890123456789012345678901234567890123456789012345678901234567890123456789012345678901234567890123456";
    let zeroes_4096 = vec![0u8; 4096];
    let ff_4096 = vec![0xFFu8; 4096];
    let zeroes_32 = vec![0u8; 32];
    let ff_32 = vec![0xFFu8; 32];
    let zeroes_1024 = vec![0u8; 1024];
    let cases: Vec<(&[u8], u64)> = vec![
        (b"123456789", 0xae8b14860a799888),
        (&zeroes_4096, 0x6482d367eb22b64e),
        (&ff_4096, 0xc0ddba7302eca3ac),
        (test_256_bytes, 0xabdb9e6c30937916),
        (b"", 0),
        (b"@", 0x2808afa9582aa47),
        (b"1\x97", 0xb4af0ae0feb08e0f),
        (b"M\"\xdf", 0x85d7cd041a2a8a5d),
        (b"l\xcd\x13\xd7", 0x1860820ea79b0fa3),
        (&zeroes_32, 0xcf3473434d4ecf3b),
        (&ff_32, 0xa0a06974c34d63c4),
        (
            b"\x00\x01\x02\x03\x04\x05\x06\x07\x08\x09\x0A\x0B\x0C\x0D\x0E\x0F\x10\x11\x12\x13\x14\x15\x16\x17\x18\x19\x1A\x1B\x1C\x1D\x1E\x1F",
            0xb9d9d4a8492cbd7f,
        ),
        (&zeroes_1024, 0x691bb2b09be5498a),
        (b"hello, world!", 0xf8046e40c403f1d0),
    ];

    for (input, expected) in cases {
        let actual = update(params.init_algorithm, input, params) ^ params.xorout;

        assert_eq!(
            actual, expected,
            "Mismatch CRC, expected {:#x}, got {:#x}, input: {:?}",
            expected, actual, input
        );
    }
}

/// Test the "crc32" variant used in PHP's hash() function, which is different
/// from the crc32() function. It's really just CRC-32/BZIP2 with the output
/// byte-reversed to little endian.
#[test]
fn test_crc32_php_standard_vectors() {
    let params = CrcParams::from_algorithm(CrcAlgorithm::Crc32Bzip2);
    let zeroes_4096 = vec![0u8; 4096];
    let ff_4096 = vec![0xFFu8; 4096];
    let cases: Vec<(&[u8], u64)> = vec![
        (b"123456789", 0x181989fc),
        (&zeroes_4096, 0xe3380088),
        (&ff_4096, 0x8f2ae650),
        (b"hello, world!", 0x5eacce7),
    ];

    for (input, expected) in cases {
        let bzip2_crc = (update(params.init_algorithm, input, params) ^ params.xorout) as u32;

        // PHP reverses the byte order of the CRC for some reason
        let actual = bzip2_crc.swap_bytes();

        assert_eq!(
            actual, expected as u32,
            "Mismatch CRC, expected {:#x}, got {:#x}, input: {:?}",
            expected, actual, input
        );
    }
}

#[test]
fn test_small_lengths_all() {
    let mut rng = rand::rng();

    // Test each variant
    for algorithm in all_algorithms() {
        let params = CrcParams::from_algorithm(algorithm);
        // Test each length from 0 to 255
        for len in 0..=255usize {
            // Generate random data for this length
            let mut data = vec![0u8; len];
            rng.fill(&mut data[..]);

            // Calculate expected CRC using the reference implementation
            let expected = reference_checksum(algorithm, &data);

            // direct update() call, which needs XOROUT applied
            let actual = update(params.init_algorithm, &data, params) ^ params.xorout;

            assert_eq!(
                actual,
                expected,
                "\nFailed for {} with length {}\nGot: {:016x}\nExpected: {:016x}",
                algorithm.name(),
                len,
                actual,
                expected
            );
        }
    }
}

#[test]
fn test_medium_lengths() {
    let mut rng = rand::rng();

    // Test each variant
    for algorithm in all_algorithms() {
        let params = CrcParams::from_algorithm(algorithm);
        // Test each length from 256 to 1024, which should fold and include
        // handling remainders
        for len in 256..=1024usize {
            // Generate random data for this length
            let mut data = vec![0u8; len];
            rng.fill(&mut data[..]);

            // Calculate expected CRC using the reference implementation
            let expected = reference_checksum(algorithm, &data);

            // direct update() call, which needs XOROUT applied
            let actual = update(params.init_algorithm, &data, params) ^ params.xorout;

            assert_eq!(
                actual,
                expected,
                "\nFailed for {} with length {}\nGot: {:016x}\nExpected: {:016x}",
                algorithm.name(),
                len,
                actual,
                expected
            );
        }
    }
}

#[test]
fn test_large_lengths() {
    let mut rng = rand::rng();

    // Test each variant
    for algorithm in all_algorithms() {
        let params = CrcParams::from_algorithm(algorithm);
        // Test ~1 MiB just before, at, and just after the folding boundaries
        for len in 1048575..=1048577usize {
            // Generate random data for this length
            let mut data = vec![0u8; len];
            rng.fill(&mut data[..]);

            // Calculate expected CRC using the reference implementation
            let expected = reference_checksum(algorithm, &data);

            // direct update() call, which needs XOROUT applied
            let actual = update(params.init_algorithm, &data, params) ^ params.xorout;

            assert_eq!(
                actual,
                expected,
                "\nFailed for {} with length {}\nGot: {:016x}\nExpected: {:016x}",
                algorithm.name(),
                len,
                actual,
                expected
            );
        }
    }
}

#[test]
fn test_boundary_lengths() {
    let mut rng = rand::rng();

    for algorithm in all_algorithms() {
        let params = CrcParams::from_algorithm(algorithm);
        for len in [0usize, 1, 15, 16, 17, 31, 32, 255, 256, 257] {
            let mut data = vec![0u8; len];
            rng.fill(&mut data[..]);

            let expected = reference_checksum(algorithm, &data);
            let actual = update(params.init_algorithm, &data, params) ^ params.xorout;

            assert_eq!(
                actual,
                expected,
                "\nFailed for {} with length {}\nGot: {:016x}\nExpected: {:016x}",
                algorithm.name(),
                len,
                actual,
                expected
            );
        }
    }
}

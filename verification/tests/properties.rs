//! Behavioural properties: incremental updates, checksum combination,
//! custom parameters, generated keys and the small API surface.

use core::str::FromStr;

use crc_fast::arch::get_target;
use crc_fast::{
    checksum, checksum_combine, checksum_combine_with_params, checksum_with_params,
    get_calculator_target, CrcAlgorithm, CrcFastAlgorithm, CrcFastParams, CrcParams,
    DataChunkProcessor, Digest,
};

/// Deterministic pseudo-random bytes for property runs.
fn patterned_data(len: usize, seed: u64) -> Vec<u8> {
    let mut state = seed.wrapping_mul(0x9E3779B97F4A7C15).wrapping_add(1);
    let mut out = Vec::with_capacity(len);
    for _ in 0..len {
        state = state
            .wrapping_mul(6364136223846793005)
            .wrapping_add(1442695040888963407);
        out.push((state >> 33) as u8);
    }
    out
}

#[test]
fn test_incremental_update_matches_one_shot() {
    let algorithms = [
        CrcAlgorithm::Crc16IbmSdlc,
        CrcAlgorithm::Crc16T10Dif,
        CrcAlgorithm::Crc32IsoHdlc,
        CrcAlgorithm::Crc32Bzip2,
        CrcAlgorithm::Crc64Nvme,
        CrcAlgorithm::Crc64Ecma182,
    ];
    let data = patterned_data(1024, 7);
    for algorithm in algorithms {
        let single = checksum(algorithm, &data);
        for split in [0usize, 1, 15, 16, 17, 255, 512, 1023, 1024] {
            let (part1, part2) = data.split_at(split);
            let mut digest = Digest::new(algorithm);
            digest.update(part1);
            digest.update(part2);
            assert_eq!(
                digest.finalize(),
                single,
                "incremental mismatch for {} at split {}",
                algorithm.name(),
                split
            );
        }
        // many small chunks
        let mut digest = Digest::new(algorithm);
        for chunk in data.chunks(37) {
            digest.update(chunk);
        }
        assert_eq!(digest.finalize(), single);
        assert_eq!(digest.get_amount(), data.len() as u64);
    }
}

#[test]
fn test_checksum_combine_roundtrip() {
    let algorithms = [
        CrcAlgorithm::Crc16IbmSdlc,
        CrcAlgorithm::Crc16T10Dif,
        CrcAlgorithm::Crc32IsoHdlc,
        CrcAlgorithm::Crc32Bzip2,
        CrcAlgorithm::Crc64Xz,
        CrcAlgorithm::Crc64Ecma182,
    ];
    for algorithm in algorithms {
        for (len_a, len_b) in [(0usize, 0usize), (0, 37), (37, 0), (9, 512), (511, 513), (256, 1)]
        {
            let data_a = patterned_data(len_a, 11);
            let data_b = patterned_data(len_b, 23);
            let checksum_a = checksum(algorithm, &data_a);
            let checksum_b = checksum(algorithm, &data_b);
            let combined =
                checksum_combine(algorithm, checksum_a, checksum_b, data_b.len() as u64);

            let mut concatenated = data_a.clone();
            concatenated.extend(&data_b);
            let expected = checksum(algorithm, &concatenated);

            assert_eq!(
                combined,
                expected,
                "combine mismatch for {} with lengths {} and {}",
                algorithm.name(),
                len_a,
                len_b
            );
        }
    }
}

#[test]
fn test_checksum_combine_with_params_roundtrip() {
    let params = CrcParams::from_algorithm(CrcAlgorithm::Crc16IbmSdlc);
    let data_a = patterned_data(300, 3);
    let data_b = patterned_data(77, 5);
    let checksum_a = checksum_with_params(params, &data_a);
    let checksum_b = checksum_with_params(params, &data_b);
    let combined =
        checksum_combine_with_params(params, checksum_a, checksum_b, data_b.len() as u64);

    let mut concatenated = data_a.clone();
    concatenated.extend(&data_b);
    assert_eq!(combined, checksum_with_params(params, &concatenated));
}

#[test]
fn test_digest_combine_roundtrip() {
    for algorithm in [
        CrcAlgorithm::Crc16Arc,
        CrcAlgorithm::Crc32IsoHdlc,
        CrcAlgorithm::Crc64Nvme,
    ] {
        let data_a = patterned_data(500, 31);
        let data_b = patterned_data(271, 41);
        let mut digest_a = Digest::new(algorithm);
        digest_a.update(&data_a);
        let mut digest_b = Digest::new(algorithm);
        digest_b.update(&data_b);
        digest_a.combine(&digest_b);

        let mut concatenated = data_a.clone();
        concatenated.extend(&data_b);
        assert_eq!(digest_a.finalize(), checksum(algorithm, &concatenated));
        assert_eq!(digest_a.get_amount(), concatenated.len() as u64);
    }
}

#[test]
fn test_combine_of_empty_checksums_is_empty_checksum() {
    for algorithm in [
        CrcAlgorithm::Crc16Arc,
        CrcAlgorithm::Crc32IsoHdlc,
        CrcAlgorithm::Crc64Xz,
    ] {
        let empty = checksum(algorithm, b"");
        assert_eq!(checksum_combine(algorithm, empty, empty, 0), empty);
    }
}

#[test]
fn test_custom_params_match_catalogue() {
    // Custom CRC-16 parameters equivalent to CRC-16/IBM-SDLC (reflected)
    let custom_sdlc = CrcParams::new("CRC-16/CUSTOM-REFLECTED", 16, 0x1021, 0xFFFF, true, 0xFFFF, 0x906E);
    // Custom CRC-16 parameters equivalent to CRC-16/T10-DIF (forward)
    let custom_t10 = CrcParams::new("CRC-16/CUSTOM-FORWARD", 16, 0x8BB7, 0x0000, false, 0x0000, 0xD0DB);
    // Custom CRC-32 parameters equivalent to CRC-32/ISCSI
    let custom_iscsi = CrcParams::new(
        "CRC-32/CUSTOM-ISCSI",
        32,
        0x1EDC6F41,
        0xFFFFFFFF,
        true,
        0xFFFFFFFF,
        0xE3069283,
    );
    // Custom CRC-64 parameters equivalent to CRC-64/NVME
    let custom_nvme = CrcParams::new(
        "CRC-64/CUSTOM-NVME",
        64,
        0xAD93D23594C93659,
        0xFFFFFFFFFFFFFFFF,
        true,
        0xFFFFFFFFFFFFFFFF,
        0xAE8B14860A799888,
    );
    let pairs = [
        (custom_sdlc, CrcAlgorithm::Crc16IbmSdlc),
        (custom_t10, CrcAlgorithm::Crc16T10Dif),
        (custom_iscsi, CrcAlgorithm::Crc32Iscsi),
        (custom_nvme, CrcAlgorithm::Crc64Nvme),
    ];
    for (custom, algorithm) in pairs {
        for len in [0usize, 1, 9, 15, 16, 17, 31, 32, 255, 256, 257, 1000] {
            let data = patterned_data(len, len as u64 + 1);
            assert_eq!(
                checksum_with_params(custom, &data),
                checksum(algorithm, &data),
                "custom parameters diverge from {} at length {}",
                algorithm.name(),
                len
            );
        }
    }
}

#[test]
fn test_generated_keys_match_known_constants() {
    // the published folding keys for the CRC-16/T10-DIF polynomial (forward)
    let keys_8bb7_forward: [u64; 23] = [
        0x0000000000000000,
        0x2d56000000000000,
        0x06df000000000000,
        0x9d9d000000000000,
        0x7cf5000000000000,
        0x2d56000000000000,
        0x1368000000000000,
        0x00000001f65a57f8,
        0x000000018bb70000,
        0xceae000000000000,
        0xbfd6000000000000,
        0x1e16000000000000,
        0x713c000000000000,
        0xf7f9000000000000,
        0x80a6000000000000,
        0x044c000000000000,
        0xe658000000000000,
        0xad18000000000000,
        0xa497000000000000,
        0x6ee3000000000000,
        0xe7b5000000000000,
        0xdccf000000000000,
        0x4b0b000000000000,
    ];
    let params = CrcParams::new("CRC-16/T10-DIF", 16, 0x8bb7, 0x0000, false, 0x0000, 0xd0db);
    assert_eq!(params.key_count(), 23);
    for (i, expected) in keys_8bb7_forward.iter().enumerate() {
        assert_eq!(
            params.get_key(i),
            *expected,
            "forward key {} mismatch: got {:#018x}, expected {:#018x}",
            i,
            params.get_key(i),
            expected
        );
    }

    // the published folding keys for the CCITT polynomial, reflected
    let keys_1021_reflected: [u64; 23] = [
        0x0000000000000000,
        0x00000000000189ae,
        0x0000000000008e10,
        0x00000000000160be,
        0x000000000001bed8,
        0x00000000000189ae,
        0x00000000000114aa,
        0x000000011c581911,
        0x0000000000010811,
        0x000000000001ce5e,
        0x000000000001c584,
        0x000000000001db50,
        0x000000000000b8f2,
        0x0000000000000842,
        0x000000000000b072,
        0x0000000000014ff2,
        0x0000000000019a3c,
        0x0000000000000e3a,
        0x0000000000004d7a,
        0x0000000000005b44,
        0x0000000000007762,
        0x0000000000019208,
        0x0000000000002df8,
    ];
    let params = CrcParams::new("CRC-16/IBM-SDLC", 16, 0x1021, 0xffff, true, 0xffff, 0x906e);
    for (i, expected) in keys_1021_reflected.iter().enumerate() {
        assert_eq!(
            params.get_key(i),
            *expected,
            "reflected key {} mismatch: got {:#018x}, expected {:#018x}",
            i,
            params.get_key(i),
            expected
        );
    }
}

#[test]
fn test_get_key_checked_bounds() {
    let params = CrcParams::from_algorithm(CrcAlgorithm::Crc32IsoHdlc);
    assert_eq!(params.get_key_checked(0), Some(params.get_key(0)));
    assert_eq!(params.get_key_checked(22), Some(params.get_key(22)));
    assert_eq!(params.get_key_checked(23), None);
    assert_eq!(params.get_key(23), 0);
    assert_eq!(params.key_count(), 23);
}

#[test]
fn test_digest_finalize_reset() {
    let mut digest = Digest::new(CrcAlgorithm::Crc32IsoHdlc);
    digest.update(b"123456789");
    assert_eq!(digest.finalize_reset(), 0xCBF43926);
    assert_eq!(digest.get_amount(), 0);
    digest.update(b"123456789");
    assert_eq!(digest.finalize(), 0xCBF43926);

    digest.reset();
    assert_eq!(digest.get_amount(), 0);
    digest.update(b"123456789");
    assert_eq!(digest.finalize(), 0xCBF43926);
}

#[test]
fn test_digest_finalize_does_not_consume_state() {
    let mut digest = Digest::new(CrcAlgorithm::Crc64Xz);
    digest.update(b"12345");
    let _ = digest.finalize();
    digest.update(b"6789");
    assert_eq!(digest.finalize(), 0x995DC9BBDF1939FA);
}

#[test]
fn test_concrete_scenarios() {
    assert_eq!(checksum(CrcAlgorithm::Crc32IsoHdlc, b"123456789"), 0xCBF43926);
    assert_eq!(
        checksum(CrcAlgorithm::Crc64Nvme, &vec![0u8; 4096]),
        0x6482d367eb22b64e
    );
    let bzip2 = checksum(CrcAlgorithm::Crc32Bzip2, &vec![0xFFu8; 4096]) as u32;
    assert_eq!(bzip2.swap_bytes(), 0x8f2ae650);
}

#[test]
fn test_data_chunk_processor_for_length() {
    assert!(matches!(
        DataChunkProcessor::for_length(0),
        DataChunkProcessor::From0To15
    ));
    assert!(matches!(
        DataChunkProcessor::for_length(15),
        DataChunkProcessor::From0To15
    ));
    assert!(matches!(
        DataChunkProcessor::for_length(16),
        DataChunkProcessor::From16
    ));
    assert!(matches!(
        DataChunkProcessor::for_length(17),
        DataChunkProcessor::From17To31
    ));
    assert!(matches!(
        DataChunkProcessor::for_length(31),
        DataChunkProcessor::From17To31
    ));
    assert!(matches!(
        DataChunkProcessor::for_length(32),
        DataChunkProcessor::From32To255
    ));
    assert!(matches!(
        DataChunkProcessor::for_length(255),
        DataChunkProcessor::From32To255
    ));
}

#[test]
fn test_algorithm_names_round_trip() {
    assert_eq!(
        CrcAlgorithm::from_str("CRC-32/ISO-HDLC"),
        Ok(CrcAlgorithm::Crc32IsoHdlc)
    );
    assert_eq!(
        CrcAlgorithm::from_str("CRC-16/ARC"),
        Ok(CrcAlgorithm::Crc16Arc)
    );
    assert_eq!(
        CrcAlgorithm::from_str("CRC-64/NVME"),
        Ok(CrcAlgorithm::Crc64Nvme)
    );
    assert_eq!(CrcAlgorithm::from_str("CRC-99/UNKNOWN"), Err(()));
    assert_eq!(CrcAlgorithm::Crc32IsoHdlc.name(), "CRC-32/ISO-HDLC");
}

#[test]
fn test_calculator_target_reports_engine() {
    assert!(!get_target().is_empty());
    assert_eq!(
        get_calculator_target(CrcAlgorithm::Crc32IsoHdlc),
        get_target()
    );
}

#[test]
fn test_ffi_params_conversion() {
    let native = CrcParams::from_algorithm(CrcAlgorithm::Crc64Xz);
    let ffi = CrcFastParams {
        algorithm: CrcFastAlgorithm::Crc64Xz,
        width: native.width,
        poly: native.poly,
        init: native.init,
        refin: native.refin,
        refout: native.refout,
        xorout: native.xorout,
        check: native.check,
        keys: native.keys.to_keys_array_23(),
    };
    let converted = CrcParams::from(ffi);
    let data = patterned_data(300, 9);
    assert_eq!(
        checksum_with_params(converted, &data),
        checksum(CrcAlgorithm::Crc64Xz, &data)
    );
    assert_eq!(
        CrcAlgorithm::from(CrcFastAlgorithm::Crc32IsoHdlc),
        CrcAlgorithm::Crc32IsoHdlc
    );
}

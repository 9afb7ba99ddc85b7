//! The built-in catalogue: parameters for every supported variant.

use vstd::prelude::*;

use crate::consts::{
    NAME_CRC16_ARC, NAME_CRC16_CDMA2000, NAME_CRC16_CMS, NAME_CRC16_DDS_110, NAME_CRC16_DECT_R,
    NAME_CRC16_DECT_X, NAME_CRC16_DNP, NAME_CRC16_EN_13757, NAME_CRC16_GENIBUS, NAME_CRC16_GSM,
    NAME_CRC16_IBM_3740, NAME_CRC16_IBM_SDLC, NAME_CRC16_ISO_IEC_14443_3_A, NAME_CRC16_KERMIT,
    NAME_CRC16_LJ1200, NAME_CRC16_M17, NAME_CRC16_MAXIM_DOW, NAME_CRC16_MCRF4XX, NAME_CRC16_MODBUS,
    NAME_CRC16_NRSC_5, NAME_CRC16_OPENSAFETY_A, NAME_CRC16_OPENSAFETY_B, NAME_CRC16_PROFIBUS,
    NAME_CRC16_RIELLO, NAME_CRC16_SPI_FUJITSU, NAME_CRC16_T10_DIF, NAME_CRC16_TELEDISK,
    NAME_CRC16_TMS37157, NAME_CRC16_UMTS, NAME_CRC16_USB, NAME_CRC16_XMODEM, NAME_CRC32_AIXM,
    NAME_CRC32_AUTOSAR, NAME_CRC32_BASE91_D, NAME_CRC32_BZIP2, NAME_CRC32_CD_ROM_EDC,
    NAME_CRC32_CKSUM, NAME_CRC32_ISCSI, NAME_CRC32_ISO_HDLC, NAME_CRC32_JAMCRC, NAME_CRC32_MEF,
    NAME_CRC32_MPEG_2, NAME_CRC32_XFER, NAME_CRC64_ECMA_182, NAME_CRC64_GO_ISO, NAME_CRC64_MS,
    NAME_CRC64_NVME, NAME_CRC64_REDIS, NAME_CRC64_WE, NAME_CRC64_XZ,
};
use crate::enums::CrcAlgorithm;
use crate::structs::CrcParams;

verus! {

/// The catalogue data of a variant, as
/// `(width, poly, init, reflected, xorout, check)`.  The custom sentinels
/// carry no catalogue data and map to zeroes.
pub open spec fn spec_alg_data(algorithm: CrcAlgorithm) -> (u8, u64, u64, bool, u64, u64) {
    match algorithm {
        CrcAlgorithm::Crc16Arc => (16, 0x8005, 0x0000, true, 0x0000, 0xbb3d),
        CrcAlgorithm::Crc16Cdma2000 => (16, 0xc867, 0xffff, false, 0x0000, 0x4c06),
        CrcAlgorithm::Crc16Cms => (16, 0x8005, 0xffff, false, 0x0000, 0xaee7),
        CrcAlgorithm::Crc16Dds110 => (16, 0x8005, 0x800d, false, 0x0000, 0x9ecf),
        CrcAlgorithm::Crc16DectR => (16, 0x0589, 0x0000, false, 0x0001, 0x007e),
        CrcAlgorithm::Crc16DectX => (16, 0x0589, 0x0000, false, 0x0000, 0x007f),
        CrcAlgorithm::Crc16Dnp => (16, 0x3d65, 0x0000, true, 0xffff, 0xea82),
        CrcAlgorithm::Crc16En13757 => (16, 0x3d65, 0x0000, false, 0xffff, 0xc2b7),
        CrcAlgorithm::Crc16Genibus => (16, 0x1021, 0xffff, false, 0xffff, 0xd64e),
        CrcAlgorithm::Crc16Gsm => (16, 0x1021, 0x0000, false, 0xffff, 0xce3c),
        CrcAlgorithm::Crc16Ibm3740 => (16, 0x1021, 0xffff, false, 0x0000, 0x29b1),
        CrcAlgorithm::Crc16IbmSdlc => (16, 0x1021, 0xffff, true, 0xffff, 0x906e),
        CrcAlgorithm::Crc16IsoIec144433A => (16, 0x1021, 0xc6c6, true, 0x0000, 0xbf05),
        CrcAlgorithm::Crc16Kermit => (16, 0x1021, 0x0000, true, 0x0000, 0x2189),
        CrcAlgorithm::Crc16Lj1200 => (16, 0x6f63, 0x0000, false, 0x0000, 0xbdf4),
        CrcAlgorithm::Crc16M17 => (16, 0x5935, 0xffff, false, 0x0000, 0x772b),
        CrcAlgorithm::Crc16MaximDow => (16, 0x8005, 0x0000, true, 0xffff, 0x44c2),
        CrcAlgorithm::Crc16Mcrf4xx => (16, 0x1021, 0xffff, true, 0x0000, 0x6f91),
        CrcAlgorithm::Crc16Modbus => (16, 0x8005, 0xffff, true, 0x0000, 0x4b37),
        CrcAlgorithm::Crc16Nrsc5 => (16, 0x080b, 0xffff, true, 0x0000, 0xa066),
        CrcAlgorithm::Crc16OpensafetyA => (16, 0x5935, 0x0000, false, 0x0000, 0x5d38),
        CrcAlgorithm::Crc16OpensafetyB => (16, 0x755b, 0x0000, false, 0x0000, 0x20fe),
        CrcAlgorithm::Crc16Profibus => (16, 0x1dcf, 0xffff, false, 0xffff, 0xa819),
        CrcAlgorithm::Crc16Riello => (16, 0x1021, 0xb2aa, true, 0x0000, 0x63d0),
        CrcAlgorithm::Crc16SpiFujitsu => (16, 0x1021, 0x1d0f, false, 0x0000, 0xe5cc),
        CrcAlgorithm::Crc16T10Dif => (16, 0x8bb7, 0x0000, false, 0x0000, 0xd0db),
        CrcAlgorithm::Crc16Teledisk => (16, 0xa097, 0x0000, false, 0x0000, 0x0fb3),
        CrcAlgorithm::Crc16Tms37157 => (16, 0x1021, 0x89ec, true, 0x0000, 0x26b1),
        CrcAlgorithm::Crc16Umts => (16, 0x8005, 0x0000, false, 0x0000, 0xfee8),
        CrcAlgorithm::Crc16Usb => (16, 0x8005, 0xffff, true, 0xffff, 0xb4c8),
        CrcAlgorithm::Crc16Xmodem => (16, 0x1021, 0x0000, false, 0x0000, 0x31c3),
        CrcAlgorithm::Crc32Aixm => (32, 0x814141ab, 0x00000000, false, 0x00000000, 0x3010bf7f),
        CrcAlgorithm::Crc32Autosar => (32, 0xf4acfb13, 0xffffffff, true, 0xffffffff, 0x1697d06a),
        CrcAlgorithm::Crc32Base91D => (32, 0xa833982b, 0xffffffff, true, 0xffffffff, 0x87315576),
        CrcAlgorithm::Crc32Bzip2 => (32, 0x04c11db7, 0xffffffff, false, 0xffffffff, 0xfc891918),
        CrcAlgorithm::Crc32CdRomEdc => (32, 0x8001801b, 0x00000000, true, 0x00000000, 0x6ec2edc4),
        CrcAlgorithm::Crc32Cksum => (32, 0x04c11db7, 0x00000000, false, 0xffffffff, 0x765e7680),
        CrcAlgorithm::Crc32Iscsi => (32, 0x1edc6f41, 0xffffffff, true, 0xffffffff, 0xe3069283),
        CrcAlgorithm::Crc32IsoHdlc => (32, 0x04c11db7, 0xffffffff, true, 0xffffffff, 0xcbf43926),
        CrcAlgorithm::Crc32Jamcrc => (32, 0x04c11db7, 0xffffffff, true, 0x00000000, 0x340bc6d9),
        CrcAlgorithm::Crc32Mef => (32, 0x741b8cd7, 0xffffffff, true, 0x00000000, 0xd2c22f51),
        CrcAlgorithm::Crc32Mpeg2 => (32, 0x04c11db7, 0xffffffff, false, 0x00000000, 0x0376e6e7),
        CrcAlgorithm::Crc32Xfer => (32, 0x000000af, 0x00000000, false, 0x00000000, 0xbd0be338),
        CrcAlgorithm::Crc64Ecma182 => (64, 0x42f0e1eba9ea3693, 0x0000000000000000, false, 0x0000000000000000, 0x6c40df5f0b497347),
        CrcAlgorithm::Crc64GoIso => (64, 0x000000000000001b, 0xffffffffffffffff, true, 0xffffffffffffffff, 0xb90956c775a41001),
        CrcAlgorithm::Crc64Ms => (64, 0x259c84cba6426349, 0xffffffffffffffff, true, 0x0000000000000000, 0x75d4b74f024eceea),
        CrcAlgorithm::Crc64Nvme => (64, 0xad93d23594c93659, 0xffffffffffffffff, true, 0xffffffffffffffff, 0xae8b14860a799888),
        CrcAlgorithm::Crc64Redis => (64, 0xad93d23594c935a9, 0x0000000000000000, true, 0x0000000000000000, 0xe9c6d914c4b8d9ca),
        CrcAlgorithm::Crc64We => (64, 0x42f0e1eba9ea3693, 0xffffffffffffffff, false, 0xffffffffffffffff, 0x62ec59e3f1a4f00a),
        CrcAlgorithm::Crc64Xz => (64, 0x42f0e1eba9ea3693, 0xffffffffffffffff, true, 0xffffffffffffffff, 0x995dc9bbdf1939fa),
        CrcAlgorithm::Crc32Custom => (0, 0, 0, false, 0, 0),
        CrcAlgorithm::Crc64Custom => (0, 0, 0, false, 0, 0),
        CrcAlgorithm::CrcCustom => (0, 0, 0, false, 0, 0),
    }
}

/// Builds one catalogue entry: the given parameters with freshly generated
/// reduction constants.
fn build(
    algorithm: CrcAlgorithm,
    name: &'static str,
    width: u8,
    poly: u64,
    init: u64,
    reflected: bool,
    xorout: u64,
    check: u64,
) -> (r: CrcParams)
    requires
        width == 16 || width == 32 || width == 64,
    ensures
        r.algorithm == algorithm,
        r.width == width,
        r.poly == poly,
        r.init == init,
        r.init_algorithm == CrcParams::spec_init_algorithm(width, init, reflected),
        r.refin == reflected,
        r.refout == reflected,
        r.xorout == xorout,
        r.check == check,
        r.spec_well_formed(),
        r.spec_keys_consistent(),
{
    let mut params = CrcParams::new(name, width, poly, init, reflected, xorout, check);
    params.algorithm = algorithm;
    params
}

impl CrcParams {
    /// The parameters of a catalogue variant, with their reduction constants.
    pub fn from_algorithm(algorithm: CrcAlgorithm) -> (r: CrcParams)
        requires
            !algorithm.spec_is_custom(),
        ensures
            r.algorithm == algorithm,
            r.spec_well_formed(),
            r.spec_keys_consistent(),
            ({
                let d = spec_alg_data(algorithm);
                r.width == d.0 && r.poly == d.1 && r.init == d.2 && r.refin == d.3 && r.refout
                    == d.3 && r.xorout == d.4 && r.check == d.5
            }),
            r.init_algorithm == CrcParams::spec_init_algorithm(
                spec_alg_data(algorithm).0,
                spec_alg_data(algorithm).2,
                spec_alg_data(algorithm).3,
            ),
    {
        match algorithm {
            CrcAlgorithm::Crc16Arc => build(
                algorithm,
                NAME_CRC16_ARC,
                16,
                0x8005,
                0x0000,
                true,
                0x0000,
                0xbb3d,
            ),
            CrcAlgorithm::Crc16Cdma2000 => build(
                algorithm,
                NAME_CRC16_CDMA2000,
                16,
                0xc867,
                0xffff,
                false,
                0x0000,
                0x4c06,
            ),
            CrcAlgorithm::Crc16Cms => build(
                algorithm,
                NAME_CRC16_CMS,
                16,
                0x8005,
                0xffff,
                false,
                0x0000,
                0xaee7,
            ),
            CrcAlgorithm::Crc16Dds110 => build(
                algorithm,
                NAME_CRC16_DDS_110,
                16,
                0x8005,
                0x800d,
                false,
                0x0000,
                0x9ecf,
            ),
            CrcAlgorithm::Crc16DectR => build(
                algorithm,
                NAME_CRC16_DECT_R,
                16,
                0x0589,
                0x0000,
                false,
                0x0001,
                0x007e,
            ),
            CrcAlgorithm::Crc16DectX => build(
                algorithm,
                NAME_CRC16_DECT_X,
                16,
                0x0589,
                0x0000,
                false,
                0x0000,
                0x007f,
            ),
            CrcAlgorithm::Crc16Dnp => build(
                algorithm,
                NAME_CRC16_DNP,
                16,
                0x3d65,
                0x0000,
                true,
                0xffff,
                0xea82,
            ),
            CrcAlgorithm::Crc16En13757 => build(
                algorithm,
                NAME_CRC16_EN_13757,
                16,
                0x3d65,
                0x0000,
                false,
                0xffff,
                0xc2b7,
            ),
            CrcAlgorithm::Crc16Genibus => build(
                algorithm,
                NAME_CRC16_GENIBUS,
                16,
                0x1021,
                0xffff,
                false,
                0xffff,
                0xd64e,
            ),
            CrcAlgorithm::Crc16Gsm => build(
                algorithm,
                NAME_CRC16_GSM,
                16,
                0x1021,
                0x0000,
                false,
                0xffff,
                0xce3c,
            ),
            CrcAlgorithm::Crc16Ibm3740 => build(
                algorithm,
                NAME_CRC16_IBM_3740,
                16,
                0x1021,
                0xffff,
                false,
                0x0000,
                0x29b1,
            ),
            CrcAlgorithm::Crc16IbmSdlc => build(
                algorithm,
                NAME_CRC16_IBM_SDLC,
                16,
                0x1021,
                0xffff,
                true,
                0xffff,
                0x906e,
            ),
            CrcAlgorithm::Crc16IsoIec144433A => build(
                algorithm,
                NAME_CRC16_ISO_IEC_14443_3_A,
                16,
                0x1021,
                0xc6c6,
                true,
                0x0000,
                0xbf05,
            ),
            CrcAlgorithm::Crc16Kermit => build(
                algorithm,
                NAME_CRC16_KERMIT,
                16,
                0x1021,
                0x0000,
                true,
                0x0000,
                0x2189,
            ),
            CrcAlgorithm::Crc16Lj1200 => build(
                algorithm,
                NAME_CRC16_LJ1200,
                16,
                0x6f63,
                0x0000,
                false,
                0x0000,
                0xbdf4,
            ),
            CrcAlgorithm::Crc16M17 => build(
                algorithm,
                NAME_CRC16_M17,
                16,
                0x5935,
                0xffff,
                false,
                0x0000,
                0x772b,
            ),
            CrcAlgorithm::Crc16MaximDow => build(
                algorithm,
                NAME_CRC16_MAXIM_DOW,
                16,
                0x8005,
                0x0000,
                true,
                0xffff,
                0x44c2,
            ),
            CrcAlgorithm::Crc16Mcrf4xx => build(
                algorithm,
                NAME_CRC16_MCRF4XX,
                16,
                0x1021,
                0xffff,
                true,
                0x0000,
                0x6f91,
            ),
            CrcAlgorithm::Crc16Modbus => build(
                algorithm,
                NAME_CRC16_MODBUS,
                16,
                0x8005,
                0xffff,
                true,
                0x0000,
                0x4b37,
            ),
            CrcAlgorithm::Crc16Nrsc5 => build(
                algorithm,
                NAME_CRC16_NRSC_5,
                16,
                0x080b,
                0xffff,
                true,
                0x0000,
                0xa066,
            ),
            CrcAlgorithm::Crc16OpensafetyA => build(
                algorithm,
                NAME_CRC16_OPENSAFETY_A,
                16,
                0x5935,
                0x0000,
                false,
                0x0000,
                0x5d38,
            ),
            CrcAlgorithm::Crc16OpensafetyB => build(
                algorithm,
                NAME_CRC16_OPENSAFETY_B,
                16,
                0x755b,
                0x0000,
                false,
                0x0000,
                0x20fe,
            ),
            CrcAlgorithm::Crc16Profibus => build(
                algorithm,
                NAME_CRC16_PROFIBUS,
                16,
                0x1dcf,
                0xffff,
                false,
                0xffff,
                0xa819,
            ),
            CrcAlgorithm::Crc16Riello => build(
                algorithm,
                NAME_CRC16_RIELLO,
                16,
                0x1021,
                0xb2aa,
                true,
                0x0000,
                0x63d0,
            ),
            CrcAlgorithm::Crc16SpiFujitsu => build(
                algorithm,
                NAME_CRC16_SPI_FUJITSU,
                16,
                0x1021,
                0x1d0f,
                false,
                0x0000,
                0xe5cc,
            ),
            CrcAlgorithm::Crc16T10Dif => build(
                algorithm,
                NAME_CRC16_T10_DIF,
                16,
                0x8bb7,
                0x0000,
                false,
                0x0000,
                0xd0db,
            ),
            CrcAlgorithm::Crc16Teledisk => build(
                algorithm,
                NAME_CRC16_TELEDISK,
                16,
                0xa097,
                0x0000,
                false,
                0x0000,
                0x0fb3,
            ),
            CrcAlgorithm::Crc16Tms37157 => build(
                algorithm,
                NAME_CRC16_TMS37157,
                16,
                0x1021,
                0x89ec,
                true,
                0x0000,
                0x26b1,
            ),
            CrcAlgorithm::Crc16Umts => build(
                algorithm,
                NAME_CRC16_UMTS,
                16,
                0x8005,
                0x0000,
                false,
                0x0000,
                0xfee8,
            ),
            CrcAlgorithm::Crc16Usb => build(
                algorithm,
                NAME_CRC16_USB,
                16,
                0x8005,
                0xffff,
                true,
                0xffff,
                0xb4c8,
            ),
            CrcAlgorithm::Crc16Xmodem => build(
                algorithm,
                NAME_CRC16_XMODEM,
                16,
                0x1021,
                0x0000,
                false,
                0x0000,
                0x31c3,
            ),
            CrcAlgorithm::Crc32Aixm => build(
                algorithm,
                NAME_CRC32_AIXM,
                32,
                0x814141ab,
                0x00000000,
                false,
                0x00000000,
                0x3010bf7f,
            ),
            CrcAlgorithm::Crc32Autosar => build(
                algorithm,
                NAME_CRC32_AUTOSAR,
                32,
                0xf4acfb13,
                0xffffffff,
                true,
                0xffffffff,
                0x1697d06a,
            ),
            CrcAlgorithm::Crc32Base91D => build(
                algorithm,
                NAME_CRC32_BASE91_D,
                32,
                0xa833982b,
                0xffffffff,
                true,
                0xffffffff,
                0x87315576,
            ),
            CrcAlgorithm::Crc32Bzip2 => build(
                algorithm,
                NAME_CRC32_BZIP2,
                32,
                0x04c11db7,
                0xffffffff,
                false,
                0xffffffff,
                0xfc891918,
            ),
            CrcAlgorithm::Crc32CdRomEdc => build(
                algorithm,
                NAME_CRC32_CD_ROM_EDC,
                32,
                0x8001801b,
                0x00000000,
                true,
                0x00000000,
                0x6ec2edc4,
            ),
            CrcAlgorithm::Crc32Cksum => build(
                algorithm,
                NAME_CRC32_CKSUM,
                32,
                0x04c11db7,
                0x00000000,
                false,
                0xffffffff,
                0x765e7680,
            ),
            CrcAlgorithm::Crc32Iscsi => build(
                algorithm,
                NAME_CRC32_ISCSI,
                32,
                0x1edc6f41,
                0xffffffff,
                true,
                0xffffffff,
                0xe3069283,
            ),
            CrcAlgorithm::Crc32IsoHdlc => build(
                algorithm,
                NAME_CRC32_ISO_HDLC,
                32,
                0x04c11db7,
                0xffffffff,
                true,
                0xffffffff,
                0xcbf43926,
            ),
            CrcAlgorithm::Crc32Jamcrc => build(
                algorithm,
                NAME_CRC32_JAMCRC,
                32,
                0x04c11db7,
                0xffffffff,
                true,
                0x00000000,
                0x340bc6d9,
            ),
            CrcAlgorithm::Crc32Mef => build(
                algorithm,
                NAME_CRC32_MEF,
                32,
                0x741b8cd7,
                0xffffffff,
                true,
                0x00000000,
                0xd2c22f51,
            ),
            CrcAlgorithm::Crc32Mpeg2 => build(
                algorithm,
                NAME_CRC32_MPEG_2,
                32,
                0x04c11db7,
                0xffffffff,
                false,
                0x00000000,
                0x0376e6e7,
            ),
            CrcAlgorithm::Crc32Xfer => build(
                algorithm,
                NAME_CRC32_XFER,
                32,
                0x000000af,
                0x00000000,
                false,
                0x00000000,
                0xbd0be338,
            ),
            CrcAlgorithm::Crc64Ecma182 => build(
                algorithm,
                NAME_CRC64_ECMA_182,
                64,
                0x42f0e1eba9ea3693,
                0x0000000000000000,
                false,
                0x0000000000000000,
                0x6c40df5f0b497347,
            ),
            CrcAlgorithm::Crc64GoIso => build(
                algorithm,
                NAME_CRC64_GO_ISO,
                64,
                0x000000000000001b,
                0xffffffffffffffff,
                true,
                0xffffffffffffffff,
                0xb90956c775a41001,
            ),
            CrcAlgorithm::Crc64Ms => build(
                algorithm,
                NAME_CRC64_MS,
                64,
                0x259c84cba6426349,
                0xffffffffffffffff,
                true,
                0x0000000000000000,
                0x75d4b74f024eceea,
            ),
            CrcAlgorithm::Crc64Nvme => build(
                algorithm,
                NAME_CRC64_NVME,
                64,
                0xad93d23594c93659,
                0xffffffffffffffff,
                true,
                0xffffffffffffffff,
                0xae8b14860a799888,
            ),
            CrcAlgorithm::Crc64Redis => build(
                algorithm,
                NAME_CRC64_REDIS,
                64,
                0xad93d23594c935a9,
                0x0000000000000000,
                true,
                0x0000000000000000,
                0xe9c6d914c4b8d9ca,
            ),
            CrcAlgorithm::Crc64We => build(
                algorithm,
                NAME_CRC64_WE,
                64,
                0x42f0e1eba9ea3693,
                0xffffffffffffffff,
                false,
                0xffffffffffffffff,
                0x62ec59e3f1a4f00a,
            ),
            CrcAlgorithm::Crc64Xz => build(
                algorithm,
                NAME_CRC64_XZ,
                64,
                0x42f0e1eba9ea3693,
                0xffffffffffffffff,
                true,
                0xffffffffffffffff,
                0x995dc9bbdf1939fa,
            ),
            // the custom sentinels are excluded by the precondition; these
            // arms only keep the match exhaustive
            CrcAlgorithm::Crc32Custom => build(algorithm, NAME_CRC32_AIXM, 32, 0, 0, false, 0, 0),
            CrcAlgorithm::Crc64Custom => build(algorithm, NAME_CRC64_XZ, 64, 0, 0, false, 0, 0),
            CrcAlgorithm::CrcCustom => build(algorithm, NAME_CRC32_AIXM, 32, 0, 0, false, 0, 0),
        }
    }
}

} // verus!

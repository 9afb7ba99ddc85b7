//! Names of the supported catalogue variants.

use vstd::prelude::*;

verus! {

pub const NAME_CRC16_ARC: &'static str = "CRC-16/ARC";

pub const NAME_CRC16_CDMA2000: &'static str = "CRC-16/CDMA2000";

pub const NAME_CRC16_CMS: &'static str = "CRC-16/CMS";

pub const NAME_CRC16_DDS_110: &'static str = "CRC-16/DDS-110";

pub const NAME_CRC16_DECT_R: &'static str = "CRC-16/DECT-R";

pub const NAME_CRC16_DECT_X: &'static str = "CRC-16/DECT-X";

pub const NAME_CRC16_DNP: &'static str = "CRC-16/DNP";

pub const NAME_CRC16_EN_13757: &'static str = "CRC-16/EN-13757";

pub const NAME_CRC16_GENIBUS: &'static str = "CRC-16/GENIBUS";

pub const NAME_CRC16_GSM: &'static str = "CRC-16/GSM";

pub const NAME_CRC16_IBM_3740: &'static str = "CRC-16/IBM-3740";

pub const NAME_CRC16_IBM_SDLC: &'static str = "CRC-16/IBM-SDLC";

pub const NAME_CRC16_ISO_IEC_14443_3_A: &'static str = "CRC-16/ISO-IEC-14443-3-A";

pub const NAME_CRC16_KERMIT: &'static str = "CRC-16/KERMIT";

pub const NAME_CRC16_LJ1200: &'static str = "CRC-16/LJ1200";

pub const NAME_CRC16_M17: &'static str = "CRC-16/M17";

pub const NAME_CRC16_MAXIM_DOW: &'static str = "CRC-16/MAXIM-DOW";

pub const NAME_CRC16_MCRF4XX: &'static str = "CRC-16/MCRF4XX";

pub const NAME_CRC16_MODBUS: &'static str = "CRC-16/MODBUS";

pub const NAME_CRC16_NRSC_5: &'static str = "CRC-16/NRSC-5";

pub const NAME_CRC16_OPENSAFETY_A: &'static str = "CRC-16/OPENSAFETY-A";

pub const NAME_CRC16_OPENSAFETY_B: &'static str = "CRC-16/OPENSAFETY-B";

pub const NAME_CRC16_PROFIBUS: &'static str = "CRC-16/PROFIBUS";

pub const NAME_CRC16_RIELLO: &'static str = "CRC-16/RIELLO";

pub const NAME_CRC16_SPI_FUJITSU: &'static str = "CRC-16/SPI-FUJITSU";

pub const NAME_CRC16_T10_DIF: &'static str = "CRC-16/T10-DIF";

pub const NAME_CRC16_TELEDISK: &'static str = "CRC-16/TELEDISK";

pub const NAME_CRC16_TMS37157: &'static str = "CRC-16/TMS37157";

pub const NAME_CRC16_UMTS: &'static str = "CRC-16/UMTS";

pub const NAME_CRC16_USB: &'static str = "CRC-16/USB";

pub const NAME_CRC16_X25: &'static str = "CRC-16/X-25";

pub const NAME_CRC16_XMODEM: &'static str = "CRC-16/XMODEM";

pub const NAME_CRC32_AIXM: &'static str = "CRC-32/AIXM";

pub const NAME_CRC32_AUTOSAR: &'static str = "CRC-32/AUTOSAR";

pub const NAME_CRC32_BASE91_D: &'static str = "CRC-32/BASE91-D";

pub const NAME_CRC32_BZIP2: &'static str = "CRC-32/BZIP2";

pub const NAME_CRC32_CD_ROM_EDC: &'static str = "CRC-32/CD-ROM-EDC";

pub const NAME_CRC32_CKSUM: &'static str = "CRC-32/CKSUM";

pub const NAME_CRC32_ISCSI: &'static str = "CRC-32/ISCSI";

pub const NAME_CRC32_ISO_HDLC: &'static str = "CRC-32/ISO-HDLC";

pub const NAME_CRC32_JAMCRC: &'static str = "CRC-32/JAMCRC";

pub const NAME_CRC32_MEF: &'static str = "CRC-32/MEF";

pub const NAME_CRC32_MPEG_2: &'static str = "CRC-32/MPEG-2";

pub const NAME_CRC32_XFER: &'static str = "CRC-32/XFER";

pub const NAME_CRC64_ECMA_182: &'static str = "CRC-64/ECMA-182";

pub const NAME_CRC64_GO_ISO: &'static str = "CRC-64/GO-ISO";

pub const NAME_CRC64_MS: &'static str = "CRC-64/MS";

pub const NAME_CRC64_NVME: &'static str = "CRC-64/NVME";

pub const NAME_CRC64_REDIS: &'static str = "CRC-64/REDIS";

pub const NAME_CRC64_WE: &'static str = "CRC-64/WE";

pub const NAME_CRC64_XZ: &'static str = "CRC-64/XZ";

} // verus!

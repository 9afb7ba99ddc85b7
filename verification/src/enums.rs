//! The closed enumeration of supported CRC variants, and the engine's
//! input-size classification.

use vstd::prelude::*;

use core::str::FromStr;

use vstd::string::StringSliceAdditionalSpecFns;

use crate::consts::{
    NAME_CRC16_ARC, NAME_CRC16_CDMA2000, NAME_CRC16_CMS, NAME_CRC16_DDS_110, NAME_CRC16_DECT_R,
    NAME_CRC16_DECT_X, NAME_CRC16_DNP, NAME_CRC16_EN_13757, NAME_CRC16_GENIBUS, NAME_CRC16_GSM,
    NAME_CRC16_IBM_3740, NAME_CRC16_IBM_SDLC, NAME_CRC16_ISO_IEC_14443_3_A, NAME_CRC16_KERMIT,
    NAME_CRC16_LJ1200, NAME_CRC16_M17, NAME_CRC16_MAXIM_DOW, NAME_CRC16_MCRF4XX, NAME_CRC16_MODBUS,
    NAME_CRC16_NRSC_5, NAME_CRC16_OPENSAFETY_A, NAME_CRC16_OPENSAFETY_B, NAME_CRC16_PROFIBUS,
    NAME_CRC16_RIELLO, NAME_CRC16_SPI_FUJITSU, NAME_CRC16_T10_DIF, NAME_CRC16_TELEDISK,
    NAME_CRC16_TMS37157, NAME_CRC16_UMTS, NAME_CRC16_USB, NAME_CRC16_XMODEM, NAME_CRC32_AIXM,
    NAME_CRC32_AUTOSAR, NAME_CRC32_BASE91_D, NAME_CRC32_BZIP2, NAME_CRC32_CD_ROM_EDC,
    NAME_CRC32_CKSUM, NAME_CRC32_ISCSI, NAME_CRC32_ISO_HDLC, NAME_CRC32_JAMCRC, NAME_CRC32_MEF,
    NAME_CRC32_MPEG_2, NAME_CRC32_XFER, NAME_CRC64_ECMA_182, NAME_CRC64_GO_ISO, NAME_CRC64_MS,
    NAME_CRC64_NVME, NAME_CRC64_REDIS, NAME_CRC64_WE, NAME_CRC64_XZ,
};

verus! {

/// The supported CRC algorithms: every catalogue variant the library knows,
/// plus sentinel variants for runtime-supplied parameters.
#[derive(Clone, Copy, Debug, PartialEq, Eq, Structural)]
pub enum CrcAlgorithm {
    Crc16Arc,
    Crc16Cdma2000,
    Crc16Cms,
    Crc16Dds110,
    Crc16DectR,
    Crc16DectX,
    Crc16Dnp,
    Crc16En13757,
    Crc16Genibus,
    Crc16Gsm,
    Crc16Ibm3740,
    Crc16IbmSdlc,
    Crc16IsoIec144433A,
    Crc16Kermit,
    Crc16Lj1200,
    Crc16M17,
    Crc16MaximDow,
    Crc16Mcrf4xx,
    Crc16Modbus,
    Crc16Nrsc5,
    Crc16OpensafetyA,
    Crc16OpensafetyB,
    Crc16Profibus,
    Crc16Riello,
    Crc16SpiFujitsu,
    Crc16T10Dif,
    Crc16Teledisk,
    Crc16Tms37157,
    Crc16Umts,
    Crc16Usb,
    Crc16Xmodem,
    Crc32Aixm,
    Crc32Autosar,
    Crc32Base91D,
    Crc32Bzip2,
    Crc32CdRomEdc,
    Crc32Cksum,
    Crc32Custom,
    Crc32Iscsi,
    Crc32IsoHdlc,
    Crc32Jamcrc,
    Crc32Mef,
    Crc32Mpeg2,
    Crc32Xfer,
    Crc64Custom,
    Crc64Ecma182,
    Crc64GoIso,
    Crc64Ms,
    Crc64Nvme,
    Crc64Redis,
    Crc64We,
    Crc64Xz,
    CrcCustom,
}

impl CrcAlgorithm {
    /// The sentinel variants that stand for runtime-supplied parameters and
    /// have no catalogue entry of their own.
    pub open spec fn spec_is_custom(self) -> bool {
        self == CrcAlgorithm::CrcCustom || self == CrcAlgorithm::Crc32Custom || self
            == CrcAlgorithm::Crc64Custom
    }

    /// The catalogue name of this variant (the custom sentinels report a
    /// fixed placeholder).
    pub fn name(&self) -> &'static str {
        match self {
            CrcAlgorithm::Crc16Arc => NAME_CRC16_ARC,
            CrcAlgorithm::Crc16Cdma2000 => NAME_CRC16_CDMA2000,
            CrcAlgorithm::Crc16Cms => NAME_CRC16_CMS,
            CrcAlgorithm::Crc16Dds110 => NAME_CRC16_DDS_110,
            CrcAlgorithm::Crc16DectR => NAME_CRC16_DECT_R,
            CrcAlgorithm::Crc16DectX => NAME_CRC16_DECT_X,
            CrcAlgorithm::Crc16Dnp => NAME_CRC16_DNP,
            CrcAlgorithm::Crc16En13757 => NAME_CRC16_EN_13757,
            CrcAlgorithm::Crc16Genibus => NAME_CRC16_GENIBUS,
            CrcAlgorithm::Crc16Gsm => NAME_CRC16_GSM,
            CrcAlgorithm::Crc16Ibm3740 => NAME_CRC16_IBM_3740,
            CrcAlgorithm::Crc16IbmSdlc => NAME_CRC16_IBM_SDLC,
            CrcAlgorithm::Crc16IsoIec144433A => NAME_CRC16_ISO_IEC_14443_3_A,
            CrcAlgorithm::Crc16Kermit => NAME_CRC16_KERMIT,
            CrcAlgorithm::Crc16Lj1200 => NAME_CRC16_LJ1200,
            CrcAlgorithm::Crc16M17 => NAME_CRC16_M17,
            CrcAlgorithm::Crc16MaximDow => NAME_CRC16_MAXIM_DOW,
            CrcAlgorithm::Crc16Mcrf4xx => NAME_CRC16_MCRF4XX,
            CrcAlgorithm::Crc16Modbus => NAME_CRC16_MODBUS,
            CrcAlgorithm::Crc16Nrsc5 => NAME_CRC16_NRSC_5,
            CrcAlgorithm::Crc16OpensafetyA => NAME_CRC16_OPENSAFETY_A,
            CrcAlgorithm::Crc16OpensafetyB => NAME_CRC16_OPENSAFETY_B,
            CrcAlgorithm::Crc16Profibus => NAME_CRC16_PROFIBUS,
            CrcAlgorithm::Crc16Riello => NAME_CRC16_RIELLO,
            CrcAlgorithm::Crc16SpiFujitsu => NAME_CRC16_SPI_FUJITSU,
            CrcAlgorithm::Crc16T10Dif => NAME_CRC16_T10_DIF,
            CrcAlgorithm::Crc16Teledisk => NAME_CRC16_TELEDISK,
            CrcAlgorithm::Crc16Tms37157 => NAME_CRC16_TMS37157,
            CrcAlgorithm::Crc16Umts => NAME_CRC16_UMTS,
            CrcAlgorithm::Crc16Usb => NAME_CRC16_USB,
            CrcAlgorithm::Crc16Xmodem => NAME_CRC16_XMODEM,
            CrcAlgorithm::Crc32Aixm => NAME_CRC32_AIXM,
            CrcAlgorithm::Crc32Autosar => NAME_CRC32_AUTOSAR,
            CrcAlgorithm::Crc32Base91D => NAME_CRC32_BASE91_D,
            CrcAlgorithm::Crc32Bzip2 => NAME_CRC32_BZIP2,
            CrcAlgorithm::Crc32CdRomEdc => NAME_CRC32_CD_ROM_EDC,
            CrcAlgorithm::Crc32Cksum => NAME_CRC32_CKSUM,
            CrcAlgorithm::Crc32Custom => "CRC-32/CUSTOM",
            CrcAlgorithm::Crc32Iscsi => NAME_CRC32_ISCSI,
            CrcAlgorithm::Crc32IsoHdlc => NAME_CRC32_ISO_HDLC,
            CrcAlgorithm::Crc32Jamcrc => NAME_CRC32_JAMCRC,
            CrcAlgorithm::Crc32Mef => NAME_CRC32_MEF,
            CrcAlgorithm::Crc32Mpeg2 => NAME_CRC32_MPEG_2,
            CrcAlgorithm::Crc32Xfer => NAME_CRC32_XFER,
            CrcAlgorithm::Crc64Custom => "CRC-64/CUSTOM",
            CrcAlgorithm::Crc64Ecma182 => NAME_CRC64_ECMA_182,
            CrcAlgorithm::Crc64GoIso => NAME_CRC64_GO_ISO,
            CrcAlgorithm::Crc64Ms => NAME_CRC64_MS,
            CrcAlgorithm::Crc64Nvme => NAME_CRC64_NVME,
            CrcAlgorithm::Crc64Redis => NAME_CRC64_REDIS,
            CrcAlgorithm::Crc64We => NAME_CRC64_WE,
            CrcAlgorithm::Crc64Xz => NAME_CRC64_XZ,
            CrcAlgorithm::CrcCustom => "CRC/CUSTOM",
        }
    }
}

/// Byte-wise string comparison.
fn str_eq(a: &str, b: &str) -> (r: bool)
    ensures
        r == (a.spec_bytes() == b.spec_bytes()),
{
    let ab = a.as_bytes();
    let bb = b.as_bytes();
    if ab.len() != bb.len() {
        return false;
    }
    let mut i: usize = 0;
    while i < ab.len()
        invariant
            i <= ab@.len() == bb@.len(),
            ab@ == a.spec_bytes(),
            bb@ == b.spec_bytes(),
            forall|j: int| 0 <= j < i ==> ab@[j] == bb@[j],
        decreases ab@.len() - i,
    {
        if ab[i] != bb[i] {
            return false;
        }
        i = i + 1;
    }
    proof {
        assert(ab@ =~= bb@);
    }
    true
}

impl FromStr for CrcAlgorithm {
    type Err = ();

    /// Looks a variant up by its catalogue name.
    fn from_str(s: &str) -> Result<Self, Self::Err> {
        if str_eq(s, NAME_CRC16_ARC) {
            Ok(CrcAlgorithm::Crc16Arc)
        } else if str_eq(s, NAME_CRC16_CDMA2000) {
            Ok(CrcAlgorithm::Crc16Cdma2000)
        } else if str_eq(s, NAME_CRC16_CMS) {
            Ok(CrcAlgorithm::Crc16Cms)
        } else if str_eq(s, NAME_CRC16_DDS_110) {
            Ok(CrcAlgorithm::Crc16Dds110)
        } else if str_eq(s, NAME_CRC16_DECT_R) {
            Ok(CrcAlgorithm::Crc16DectR)
        } else if str_eq(s, NAME_CRC16_DECT_X) {
            Ok(CrcAlgorithm::Crc16DectX)
        } else if str_eq(s, NAME_CRC16_DNP) {
            Ok(CrcAlgorithm::Crc16Dnp)
        } else if str_eq(s, NAME_CRC16_EN_13757) {
            Ok(CrcAlgorithm::Crc16En13757)
        } else if str_eq(s, NAME_CRC16_GENIBUS) {
            Ok(CrcAlgorithm::Crc16Genibus)
        } else if str_eq(s, NAME_CRC16_GSM) {
            Ok(CrcAlgorithm::Crc16Gsm)
        } else if str_eq(s, NAME_CRC16_IBM_3740) {
            Ok(CrcAlgorithm::Crc16Ibm3740)
        } else if str_eq(s, NAME_CRC16_IBM_SDLC) {
            Ok(CrcAlgorithm::Crc16IbmSdlc)
        } else if str_eq(s, NAME_CRC16_ISO_IEC_14443_3_A) {
            Ok(CrcAlgorithm::Crc16IsoIec144433A)
        } else if str_eq(s, NAME_CRC16_KERMIT) {
            Ok(CrcAlgorithm::Crc16Kermit)
        } else if str_eq(s, NAME_CRC16_LJ1200) {
            Ok(CrcAlgorithm::Crc16Lj1200)
        } else if str_eq(s, NAME_CRC16_M17) {
            Ok(CrcAlgorithm::Crc16M17)
        } else if str_eq(s, NAME_CRC16_MAXIM_DOW) {
            Ok(CrcAlgorithm::Crc16MaximDow)
        } else if str_eq(s, NAME_CRC16_MCRF4XX) {
            Ok(CrcAlgorithm::Crc16Mcrf4xx)
        } else if str_eq(s, NAME_CRC16_MODBUS) {
            Ok(CrcAlgorithm::Crc16Modbus)
        } else if str_eq(s, NAME_CRC16_NRSC_5) {
            Ok(CrcAlgorithm::Crc16Nrsc5)
        } else if str_eq(s, NAME_CRC16_OPENSAFETY_A) {
            Ok(CrcAlgorithm::Crc16OpensafetyA)
        } else if str_eq(s, NAME_CRC16_OPENSAFETY_B) {
            Ok(CrcAlgorithm::Crc16OpensafetyB)
        } else if str_eq(s, NAME_CRC16_PROFIBUS) {
            Ok(CrcAlgorithm::Crc16Profibus)
        } else if str_eq(s, NAME_CRC16_RIELLO) {
            Ok(CrcAlgorithm::Crc16Riello)
        } else if str_eq(s, NAME_CRC16_SPI_FUJITSU) {
            Ok(CrcAlgorithm::Crc16SpiFujitsu)
        } else if str_eq(s, NAME_CRC16_T10_DIF) {
            Ok(CrcAlgorithm::Crc16T10Dif)
        } else if str_eq(s, NAME_CRC16_TELEDISK) {
            Ok(CrcAlgorithm::Crc16Teledisk)
        } else if str_eq(s, NAME_CRC16_TMS37157) {
            Ok(CrcAlgorithm::Crc16Tms37157)
        } else if str_eq(s, NAME_CRC16_UMTS) {
            Ok(CrcAlgorithm::Crc16Umts)
        } else if str_eq(s, NAME_CRC16_USB) {
            Ok(CrcAlgorithm::Crc16Usb)
        } else if str_eq(s, NAME_CRC16_XMODEM) {
            Ok(CrcAlgorithm::Crc16Xmodem)
        } else if str_eq(s, NAME_CRC32_AIXM) {
            Ok(CrcAlgorithm::Crc32Aixm)
        } else if str_eq(s, NAME_CRC32_AUTOSAR) {
            Ok(CrcAlgorithm::Crc32Autosar)
        } else if str_eq(s, NAME_CRC32_BASE91_D) {
            Ok(CrcAlgorithm::Crc32Base91D)
        } else if str_eq(s, NAME_CRC32_BZIP2) {
            Ok(CrcAlgorithm::Crc32Bzip2)
        } else if str_eq(s, NAME_CRC32_CD_ROM_EDC) {
            Ok(CrcAlgorithm::Crc32CdRomEdc)
        } else if str_eq(s, NAME_CRC32_CKSUM) {
            Ok(CrcAlgorithm::Crc32Cksum)
        } else if str_eq(s, NAME_CRC32_ISCSI) {
            Ok(CrcAlgorithm::Crc32Iscsi)
        } else if str_eq(s, NAME_CRC32_ISO_HDLC) {
            Ok(CrcAlgorithm::Crc32IsoHdlc)
        } else if str_eq(s, NAME_CRC32_JAMCRC) {
            Ok(CrcAlgorithm::Crc32Jamcrc)
        } else if str_eq(s, NAME_CRC32_MEF) {
            Ok(CrcAlgorithm::Crc32Mef)
        } else if str_eq(s, NAME_CRC32_MPEG_2) {
            Ok(CrcAlgorithm::Crc32Mpeg2)
        } else if str_eq(s, NAME_CRC32_XFER) {
            Ok(CrcAlgorithm::Crc32Xfer)
        } else if str_eq(s, NAME_CRC64_GO_ISO) {
            Ok(CrcAlgorithm::Crc64GoIso)
        } else if str_eq(s, NAME_CRC64_MS) {
            Ok(CrcAlgorithm::Crc64Ms)
        } else if str_eq(s, NAME_CRC64_NVME) {
            Ok(CrcAlgorithm::Crc64Nvme)
        } else if str_eq(s, NAME_CRC64_REDIS) {
            Ok(CrcAlgorithm::Crc64Redis)
        } else if str_eq(s, NAME_CRC64_XZ) {
            Ok(CrcAlgorithm::Crc64Xz)
        } else if str_eq(s, NAME_CRC64_ECMA_182) {
            Ok(CrcAlgorithm::Crc64Ecma182)
        } else if str_eq(s, NAME_CRC64_WE) {
            Ok(CrcAlgorithm::Crc64We)
        } else {
            Err(())
        }
    }
}

/// Different processing strategies based on data length.
pub enum DataChunkProcessor {
    From0To15,
    From16,
    From17To31,
    From32To255,
}

impl DataChunkProcessor {
    /// Selects the appropriate processor for a small input's length.
    pub fn for_length(len: usize) -> (r: Self)
        requires
            len <= 255,
        ensures
            len <= 15 ==> r is From0To15,
            len == 16 ==> r is From16,
            17 <= len <= 31 ==> r is From17To31,
            32 <= len <= 255 ==> r is From32To255,
    {
        if len <= 15 {
            Self::From0To15
        } else if len == 16 {
            Self::From16
        } else if len <= 31 {
            Self::From17To31
        } else {
            Self::From32To255
        }
    }
}

} // verus!

//! The AMD firmware flash on-disk format: enum tags, packed bitfield words,
//! the EFS header record, directory headers and entries, and the
//! address-mode engine that turns a raw 64-bit entry source into a
//! `ValueOrLocation` and back.
//!
//! Packed words travel as little-endian bytes; in memory each record keeps
//! plain fields, and `marshal` moves them across the byte boundary.

use crate::marshal::spec_u16_le;
use crate::marshal::spec_u32_le;
use crate::marshal::spec_u64_le;
use crate::marshal::read_u32_le;
use crate::marshal::read_u64_le;
use crate::marshal::push_u32_le;
use crate::marshal::push_u64_le;
use crate::marshal::u16_byte;
use crate::marshal::u32_byte;
use crate::marshal::u64_byte;
use crate::marshal::u32_le_bytes;
use crate::marshal::u64_le_bytes;
use crate::marshal::lemma_u32_le_round_trip;
use crate::marshal::lemma_u64_le_round_trip;
use crate::flash::Location;
use crate::types::Error;
use crate::types::Result;
use vstd::prelude::*;

verus! {

/// The ordered list of offsets at which the boot ROM probes for an EFS.
/// The first is recommended by AMD; the last is what is always used in
/// practice.
pub open spec fn spec_efh_positions() -> Seq<u32> {
    seq![0xFA_0000u32, 0xF2_0000u32, 0xE2_0000u32, 0xC2_0000u32, 0x82_0000u32, 0x2_0000u32]
}

pub fn efh_positions() -> (r: Vec<Location>)
    ensures
        r@ == spec_efh_positions(),
{
    let mut r: Vec<Location> = Vec::new();
    r.push(0xFA_0000);
    r.push(0xF2_0000);
    r.push(0xE2_0000);
    r.push(0xC2_0000);
    r.push(0x82_0000);
    r.push(0x2_0000);
    proof {
        assert(r@ =~= spec_efh_positions());
    }
    r
}

#[derive(Debug, PartialEq, Eq, Clone, Copy, Structural)]
pub enum ProcessorGeneration {
    Naples,
    Rome,
    Milan,
    Genoa,
    Turin,
}

/// SPI read mode; digits name the line counts for command, address and data.
#[derive(Debug, PartialEq, Eq, Clone, Copy, Structural)]
#[non_exhaustive]
pub enum SpiReadMode {
    Normal33_33MHz,
    Dual112,
    Quad114,
    Dual122,
    Quad144,
    Normal66_66MHz,
    Fast,
}

impl SpiReadMode {
    pub open spec fn spec_to_u8(self) -> u8 {
        match self {
            Self::Normal33_33MHz => 0x00,
            Self::Dual112 => 0x02,
            Self::Quad114 => 0x03,
            Self::Dual122 => 0x04,
            Self::Quad144 => 0x05,
            Self::Normal66_66MHz => 0x06,
            Self::Fast => 0x07,
        }
    }

    pub open spec fn spec_from_u8(v: u8) -> Option<Self> {
        if v == 0x00 {
            Some(Self::Normal33_33MHz)
        } else if v == 0x02 {
            Some(Self::Dual112)
        } else if v == 0x03 {
            Some(Self::Quad114)
        } else if v == 0x04 {
            Some(Self::Dual122)
        } else if v == 0x05 {
            Some(Self::Quad144)
        } else if v == 0x06 {
            Some(Self::Normal66_66MHz)
        } else if v == 0x07 {
            Some(Self::Fast)
        } else {
            None
        }
    }

    pub fn to_u8(self) -> (r: u8)
        ensures
            r == self.spec_to_u8(),
    {
        match self {
            Self::Normal33_33MHz => 0x00,
            Self::Dual112 => 0x02,
            Self::Quad114 => 0x03,
            Self::Dual122 => 0x04,
            Self::Quad144 => 0x05,
            Self::Normal66_66MHz => 0x06,
            Self::Fast => 0x07,
        }
    }

    pub fn from_u8(v: u8) -> (r: Option<Self>)
        ensures
            r == Self::spec_from_u8(v),
    {
        match v {
            0x00 => Some(Self::Normal33_33MHz),
            0x02 => Some(Self::Dual112),
            0x03 => Some(Self::Quad114),
            0x04 => Some(Self::Dual122),
            0x05 => Some(Self::Quad144),
            0x06 => Some(Self::Normal66_66MHz),
            0x07 => Some(Self::Fast),
            _ => None,
        }
    }
}

#[derive(Debug, PartialEq, Eq, Clone, Copy, Structural)]
#[non_exhaustive]
pub enum SpiFastSpeedNew {
    _66_66MHz,
    _33_33MHz,
    _22_22MHz,
    _16_66MHz,
    _100MHz,
    _800kHz,
}

impl SpiFastSpeedNew {
    pub open spec fn spec_to_u8(self) -> u8 {
        match self {
            Self::_66_66MHz => 0x00,
            Self::_33_33MHz => 0x01,
            Self::_22_22MHz => 0x02,
            Self::_16_66MHz => 0x03,
            Self::_100MHz => 0x04,
            Self::_800kHz => 0x05,
        }
    }

    pub open spec fn spec_from_u8(v: u8) -> Option<Self> {
        if v == 0x00 {
            Some(Self::_66_66MHz)
        } else if v == 0x01 {
            Some(Self::_33_33MHz)
        } else if v == 0x02 {
            Some(Self::_22_22MHz)
        } else if v == 0x03 {
            Some(Self::_16_66MHz)
        } else if v == 0x04 {
            Some(Self::_100MHz)
        } else if v == 0x05 {
            Some(Self::_800kHz)
        } else {
            None
        }
    }

    pub fn to_u8(self) -> (r: u8)
        ensures
            r == self.spec_to_u8(),
    {
        match self {
            Self::_66_66MHz => 0x00,
            Self::_33_33MHz => 0x01,
            Self::_22_22MHz => 0x02,
            Self::_16_66MHz => 0x03,
            Self::_100MHz => 0x04,
            Self::_800kHz => 0x05,
        }
    }

    pub fn from_u8(v: u8) -> (r: Option<Self>)
        ensures
            r == Self::spec_from_u8(v),
    {
        match v {
            0x00 => Some(Self::_66_66MHz),
            0x01 => Some(Self::_33_33MHz),
            0x02 => Some(Self::_22_22MHz),
            0x03 => Some(Self::_16_66MHz),
            0x04 => Some(Self::_100MHz),
            0x05 => Some(Self::_800kHz),
            _ => None,
        }
    }
}

#[derive(Debug, PartialEq, Eq, Clone, Copy, Structural)]
#[non_exhaustive]
pub enum SpiNaplesMicronMode {
    DummyCycle,
}

impl SpiNaplesMicronMode {
    pub open spec fn spec_to_u8(self) -> u8 {
        match self {
            Self::DummyCycle => 0x0a,
        }
    }

    pub open spec fn spec_from_u8(v: u8) -> Option<Self> {
        if v == 0x0a {
            Some(Self::DummyCycle)
        } else {
            None
        }
    }

    pub fn to_u8(self) -> (r: u8)
        ensures
            r == self.spec_to_u8(),
    {
        match self {
            Self::DummyCycle => 0x0a,
        }
    }

    pub fn from_u8(v: u8) -> (r: Option<Self>)
        ensures
            r == Self::spec_from_u8(v),
    {
        match v {
            0x0a => Some(Self::DummyCycle),
            _ => None,
        }
    }
}

#[derive(Debug, PartialEq, Eq, Clone, Copy, Structural)]
#[non_exhaustive]
pub enum SpiRomeMicronMode {
    SupportMicron,
    ForceMicron,
}

impl SpiRomeMicronMode {
    pub open spec fn spec_to_u8(self) -> u8 {
        match self {
            Self::SupportMicron => 0x55,
            Self::ForceMicron => 0xaa,
        }
    }

    pub open spec fn spec_from_u8(v: u8) -> Option<Self> {
        if v == 0x55 {
            Some(Self::SupportMicron)
        } else if v == 0xaa {
            Some(Self::ForceMicron)
        } else {
            None
        }
    }

    pub fn to_u8(self) -> (r: u8)
        ensures
            r == self.spec_to_u8(),
    {
        match self {
            Self::SupportMicron => 0x55,
            Self::ForceMicron => 0xaa,
        }
    }

    pub fn from_u8(v: u8) -> (r: Option<Self>)
        ensures
            r == Self::spec_from_u8(v),
    {
        match v {
            0x55 => Some(Self::SupportMicron),
            0xaa => Some(Self::ForceMicron),
            _ => None,
        }
    }
}

/// The payload kinds a PSP directory entry can carry.
#[derive(Debug, PartialEq, Eq, Clone, Copy, Structural)]
#[non_exhaustive]
pub enum PspDirectoryEntryType {
    AmdPublicKey,
    PspBootloader,
    PspOs,
    PspRecoveryBootloader,
    PspNvdata,
    SmuOffChipFirmware8,
    AmdSecureDebugKey,
    AblPublicKey,
    PspSoftFuseChain,
    PspTrustlets,
    PspTrustletPublicKey,
    SmuOffChipFirmware12,
    PspEarlySecureUnlockDebugImage,
    TeeIpKeyManagerDriver,
    TeeSevDriver,
    TeeBootDriver,
    TeeSocDriver,
    TeeDebugDriver,
    TeeInterfaceDriver,
    DiscoveryBinary,
    WrappedIkek,
    PspTokenUnlockData,
    SecurityPolicyBinary,
    Mp2Firmware,
    Mp2Firmware2,
    UserModeUnitTests,
    PspSystemDriverEntryPoints,
    KvmImage,
    Mp5Firmware,
    EfsPhysAddr,
    TeeWriteOnceNvram,
    ExternalChipsetPspBootLoader2d,
    ExternalChipsetMp0Dxio,
    ExternalChipsetMp1Firmware,
    Abl0,
    Abl1,
    Abl2,
    Abl3,
    Abl4,
    Abl5,
    Abl6,
    Abl7,
    SevData,
    SevCode,
    PpinWhiteListBinary,
    SerdesPhyMicrocode,
    VbiosPreload,
    WlanUmac,
    WlanImac,
    WlanBluetooth,
    SecondLevelDirectory,
    ExternalChipsetMp0Bootloader,
    DxioPhySramFirmware,
    DxioPhySramPublicKey,
    UsbUnifiedPhyFirmware,
    TosSecurityPolicyBinary,
    ExternalChipsetPspBootloader46,
    DrtmTa,
    SecondLevelAPspDirectory,
    SecondLevelBhdDirectory,
    SecondLevelBPspDirectory,
    ExternalChipsetSecurityPolicyBinary,
    ExternalChipsetSecureDebugUnlockBinary,
    PmuPublicKey,
    UmcFirmware,
    PspBootloaderPublicKeysTable,
    PspTosPublicKeysTable,
    PspBootloaderUserApplication,
    PspBootloaderUserApplicationPublicKey,
    PspRpmcNvram,
    BootloaderSplTable,
    TosSplTable,
    PspBootloaderCvipConfigurationTable,
    DmcuEram,
    DmcuIsr,
    Msmu0,
    Msmu1,
    MpioOffchipFirmware,
    RasDriver,
    RasTrustedApplication,
    TeeFhpDriver,
    TeeSpdmDriver,
    PspStage2Bootloader,
    RegisterInitializationBinary,
    OemSysTa,
    OemSysTaPublicKey,
    OemIkek,
    OemSplTable,
    OemTkek,
    AmfFirmwarePart1,
    AmfFirmwarePart2,
    MpmFactoryProvisioningData,
    MpmWlanFirmware,
    MpmSecurityDriver,
    MpdmaTigerfishFirmware,
    Gmi3PhyFirmware,
    MpdmaPageMigrationFirmware,
    AspSramFirmwareExtension,
    RegisterAccessWhitelist,
    S3Image,
}

impl PspDirectoryEntryType {
    pub open spec fn spec_to_u8(self) -> u8 {
        match self {
            Self::AmdPublicKey => 0x00,
            Self::PspBootloader => 0x01,
            Self::PspOs => 0x02,
            Self::PspRecoveryBootloader => 0x03,
            Self::PspNvdata => 0x04,
            Self::SmuOffChipFirmware8 => 0x08,
            Self::AmdSecureDebugKey => 0x09,
            Self::AblPublicKey => 0x0a,
            Self::PspSoftFuseChain => 0x0b,
            Self::PspTrustlets => 0x0c,
            Self::PspTrustletPublicKey => 0x0d,
            Self::SmuOffChipFirmware12 => 0x12,
            Self::PspEarlySecureUnlockDebugImage => 0x13,
            Self::TeeIpKeyManagerDriver => 0x15,
            Self::TeeSevDriver => 0x1a,
            Self::TeeBootDriver => 0x1b,
            Self::TeeSocDriver => 0x1c,
            Self::TeeDebugDriver => 0x1d,
            Self::TeeInterfaceDriver => 0x1f,
            Self::DiscoveryBinary => 0x20,
            Self::WrappedIkek => 0x21,
            Self::PspTokenUnlockData => 0x22,
            Self::SecurityPolicyBinary => 0x24,
            Self::Mp2Firmware => 0x25,
            Self::Mp2Firmware2 => 0x26,
            Self::UserModeUnitTests => 0x27,
            Self::PspSystemDriverEntryPoints => 0x28,
            Self::KvmImage => 0x29,
            Self::Mp5Firmware => 0x2a,
            Self::EfsPhysAddr => 0x2b,
            Self::TeeWriteOnceNvram => 0x2c,
            Self::ExternalChipsetPspBootLoader2d => 0x2d,
            Self::ExternalChipsetMp0Dxio => 0x2e,
            Self::ExternalChipsetMp1Firmware => 0x2f,
            Self::Abl0 => 0x30,
            Self::Abl1 => 0x31,
            Self::Abl2 => 0x32,
            Self::Abl3 => 0x33,
            Self::Abl4 => 0x34,
            Self::Abl5 => 0x35,
            Self::Abl6 => 0x36,
            Self::Abl7 => 0x37,
            Self::SevData => 0x38,
            Self::SevCode => 0x39,
            Self::PpinWhiteListBinary => 0x3a,
            Self::SerdesPhyMicrocode => 0x3b,
            Self::VbiosPreload => 0x3c,
            Self::WlanUmac => 0x3d,
            Self::WlanImac => 0x3e,
            Self::WlanBluetooth => 0x3f,
            Self::SecondLevelDirectory => 0x40,
            Self::ExternalChipsetMp0Bootloader => 0x41,
            Self::DxioPhySramFirmware => 0x42,
            Self::DxioPhySramPublicKey => 0x43,
            Self::UsbUnifiedPhyFirmware => 0x44,
            Self::TosSecurityPolicyBinary => 0x45,
            Self::ExternalChipsetPspBootloader46 => 0x46,
            Self::DrtmTa => 0x47,
            Self::SecondLevelAPspDirectory => 0x48,
            Self::SecondLevelBhdDirectory => 0x49,
            Self::SecondLevelBPspDirectory => 0x4a,
            Self::ExternalChipsetSecurityPolicyBinary => 0x4c,
            Self::ExternalChipsetSecureDebugUnlockBinary => 0x4d,
            Self::PmuPublicKey => 0x4e,
            Self::UmcFirmware => 0x4f,
            Self::PspBootloaderPublicKeysTable => 0x50,
            Self::PspTosPublicKeysTable => 0x51,
            Self::PspBootloaderUserApplication => 0x52,
            Self::PspBootloaderUserApplicationPublicKey => 0x53,
            Self::PspRpmcNvram => 0x54,
            Self::BootloaderSplTable => 0x55,
            Self::TosSplTable => 0x56,
            Self::PspBootloaderCvipConfigurationTable => 0x57,
            Self::DmcuEram => 0x58,
            Self::DmcuIsr => 0x59,
            Self::Msmu0 => 0x5a,
            Self::Msmu1 => 0x5b,
            Self::MpioOffchipFirmware => 0x5d,
            Self::RasDriver => 0x64,
            Self::RasTrustedApplication => 0x65,
            Self::TeeFhpDriver => 0x67,
            Self::TeeSpdmDriver => 0x68,
            Self::PspStage2Bootloader => 0x73,
            Self::RegisterInitializationBinary => 0x76,
            Self::OemSysTa => 0x80,
            Self::OemSysTaPublicKey => 0x81,
            Self::OemIkek => 0x82,
            Self::OemSplTable => 0x83,
            Self::OemTkek => 0x84,
            Self::AmfFirmwarePart1 => 0x85,
            Self::AmfFirmwarePart2 => 0x86,
            Self::MpmFactoryProvisioningData => 0x87,
            Self::MpmWlanFirmware => 0x88,
            Self::MpmSecurityDriver => 0x89,
            Self::MpdmaTigerfishFirmware => 0x8c,
            Self::Gmi3PhyFirmware => 0x91,
            Self::MpdmaPageMigrationFirmware => 0x92,
            Self::AspSramFirmwareExtension => 0x9d,
            Self::RegisterAccessWhitelist => 0x9f,
            Self::S3Image => 0xa0,
        }
    }

    pub open spec fn spec_from_u8(v: u8) -> Option<Self> {
        if v == 0x00 {
            Some(Self::AmdPublicKey)
        } else if v == 0x01 {
            Some(Self::PspBootloader)
        } else if v == 0x02 {
            Some(Self::PspOs)
        } else if v == 0x03 {
            Some(Self::PspRecoveryBootloader)
        } else if v == 0x04 {
            Some(Self::PspNvdata)
        } else if v == 0x08 {
            Some(Self::SmuOffChipFirmware8)
        } else if v == 0x09 {
            Some(Self::AmdSecureDebugKey)
        } else if v == 0x0a {
            Some(Self::AblPublicKey)
        } else if v == 0x0b {
            Some(Self::PspSoftFuseChain)
        } else if v == 0x0c {
            Some(Self::PspTrustlets)
        } else if v == 0x0d {
            Some(Self::PspTrustletPublicKey)
        } else if v == 0x12 {
            Some(Self::SmuOffChipFirmware12)
        } else if v == 0x13 {
            Some(Self::PspEarlySecureUnlockDebugImage)
        } else if v == 0x15 {
            Some(Self::TeeIpKeyManagerDriver)
        } else if v == 0x1a {
            Some(Self::TeeSevDriver)
        } else if v == 0x1b {
            Some(Self::TeeBootDriver)
        } else if v == 0x1c {
            Some(Self::TeeSocDriver)
        } else if v == 0x1d {
            Some(Self::TeeDebugDriver)
        } else if v == 0x1f {
            Some(Self::TeeInterfaceDriver)
        } else if v == 0x20 {
            Some(Self::DiscoveryBinary)
        } else if v == 0x21 {
            Some(Self::WrappedIkek)
        } else if v == 0x22 {
            Some(Self::PspTokenUnlockData)
        } else if v == 0x24 {
            Some(Self::SecurityPolicyBinary)
        } else if v == 0x25 {
            Some(Self::Mp2Firmware)
        } else if v == 0x26 {
            Some(Self::Mp2Firmware2)
        } else if v == 0x27 {
            Some(Self::UserModeUnitTests)
        } else if v == 0x28 {
            Some(Self::PspSystemDriverEntryPoints)
        } else if v == 0x29 {
            Some(Self::KvmImage)
        } else if v == 0x2a {
            Some(Self::Mp5Firmware)
        } else if v == 0x2b {
            Some(Self::EfsPhysAddr)
        } else if v == 0x2c {
            Some(Self::TeeWriteOnceNvram)
        } else if v == 0x2d {
            Some(Self::ExternalChipsetPspBootLoader2d)
        } else if v == 0x2e {
            Some(Self::ExternalChipsetMp0Dxio)
        } else if v == 0x2f {
            Some(Self::ExternalChipsetMp1Firmware)
        } else if v == 0x30 {
            Some(Self::Abl0)
        } else if v == 0x31 {
            Some(Self::Abl1)
        } else if v == 0x32 {
            Some(Self::Abl2)
        } else if v == 0x33 {
            Some(Self::Abl3)
        } else if v == 0x34 {
            Some(Self::Abl4)
        } else if v == 0x35 {
            Some(Self::Abl5)
        } else if v == 0x36 {
            Some(Self::Abl6)
        } else if v == 0x37 {
            Some(Self::Abl7)
        } else if v == 0x38 {
            Some(Self::SevData)
        } else if v == 0x39 {
            Some(Self::SevCode)
        } else if v == 0x3a {
            Some(Self::PpinWhiteListBinary)
        } else if v == 0x3b {
            Some(Self::SerdesPhyMicrocode)
        } else if v == 0x3c {
            Some(Self::VbiosPreload)
        } else if v == 0x3d {
            Some(Self::WlanUmac)
        } else if v == 0x3e {
            Some(Self::WlanImac)
        } else if v == 0x3f {
            Some(Self::WlanBluetooth)
        } else if v == 0x40 {
            Some(Self::SecondLevelDirectory)
        } else if v == 0x41 {
            Some(Self::ExternalChipsetMp0Bootloader)
        } else if v == 0x42 {
            Some(Self::DxioPhySramFirmware)
        } else if v == 0x43 {
            Some(Self::DxioPhySramPublicKey)
        } else if v == 0x44 {
            Some(Self::UsbUnifiedPhyFirmware)
        } else if v == 0x45 {
            Some(Self::TosSecurityPolicyBinary)
        } else if v == 0x46 {
            Some(Self::ExternalChipsetPspBootloader46)
        } else if v == 0x47 {
            Some(Self::DrtmTa)
        } else if v == 0x48 {
            Some(Self::SecondLevelAPspDirectory)
        } else if v == 0x49 {
            Some(Self::SecondLevelBhdDirectory)
        } else if v == 0x4a {
            Some(Self::SecondLevelBPspDirectory)
        } else if v == 0x4c {
            Some(Self::ExternalChipsetSecurityPolicyBinary)
        } else if v == 0x4d {
            Some(Self::ExternalChipsetSecureDebugUnlockBinary)
        } else if v == 0x4e {
            Some(Self::PmuPublicKey)
        } else if v == 0x4f {
            Some(Self::UmcFirmware)
        } else if v == 0x50 {
            Some(Self::PspBootloaderPublicKeysTable)
        } else if v == 0x51 {
            Some(Self::PspTosPublicKeysTable)
        } else if v == 0x52 {
            Some(Self::PspBootloaderUserApplication)
        } else if v == 0x53 {
            Some(Self::PspBootloaderUserApplicationPublicKey)
        } else if v == 0x54 {
            Some(Self::PspRpmcNvram)
        } else if v == 0x55 {
            Some(Self::BootloaderSplTable)
        } else if v == 0x56 {
            Some(Self::TosSplTable)
        } else if v == 0x57 {
            Some(Self::PspBootloaderCvipConfigurationTable)
        } else if v == 0x58 {
            Some(Self::DmcuEram)
        } else if v == 0x59 {
            Some(Self::DmcuIsr)
        } else if v == 0x5a {
            Some(Self::Msmu0)
        } else if v == 0x5b {
            Some(Self::Msmu1)
        } else if v == 0x5d {
            Some(Self::MpioOffchipFirmware)
        } else if v == 0x64 {
            Some(Self::RasDriver)
        } else if v == 0x65 {
            Some(Self::RasTrustedApplication)
        } else if v == 0x67 {
            Some(Self::TeeFhpDriver)
        } else if v == 0x68 {
            Some(Self::TeeSpdmDriver)
        } else if v == 0x73 {
            Some(Self::PspStage2Bootloader)
        } else if v == 0x76 {
            Some(Self::RegisterInitializationBinary)
        } else if v == 0x80 {
            Some(Self::OemSysTa)
        } else if v == 0x81 {
            Some(Self::OemSysTaPublicKey)
        } else if v == 0x82 {
            Some(Self::OemIkek)
        } else if v == 0x83 {
            Some(Self::OemSplTable)
        } else if v == 0x84 {
            Some(Self::OemTkek)
        } else if v == 0x85 {
            Some(Self::AmfFirmwarePart1)
        } else if v == 0x86 {
            Some(Self::AmfFirmwarePart2)
        } else if v == 0x87 {
            Some(Self::MpmFactoryProvisioningData)
        } else if v == 0x88 {
            Some(Self::MpmWlanFirmware)
        } else if v == 0x89 {
            Some(Self::MpmSecurityDriver)
        } else if v == 0x8c {
            Some(Self::MpdmaTigerfishFirmware)
        } else if v == 0x91 {
            Some(Self::Gmi3PhyFirmware)
        } else if v == 0x92 {
            Some(Self::MpdmaPageMigrationFirmware)
        } else if v == 0x9d {
            Some(Self::AspSramFirmwareExtension)
        } else if v == 0x9f {
            Some(Self::RegisterAccessWhitelist)
        } else if v == 0xa0 {
            Some(Self::S3Image)
        } else {
            None
        }
    }

    pub fn to_u8(self) -> (r: u8)
        ensures
            r == self.spec_to_u8(),
    {
        match self {
            Self::AmdPublicKey => 0x00,
            Self::PspBootloader => 0x01,
            Self::PspOs => 0x02,
            Self::PspRecoveryBootloader => 0x03,
            Self::PspNvdata => 0x04,
            Self::SmuOffChipFirmware8 => 0x08,
            Self::AmdSecureDebugKey => 0x09,
            Self::AblPublicKey => 0x0a,
            Self::PspSoftFuseChain => 0x0b,
            Self::PspTrustlets => 0x0c,
            Self::PspTrustletPublicKey => 0x0d,
            Self::SmuOffChipFirmware12 => 0x12,
            Self::PspEarlySecureUnlockDebugImage => 0x13,
            Self::TeeIpKeyManagerDriver => 0x15,
            Self::TeeSevDriver => 0x1a,
            Self::TeeBootDriver => 0x1b,
            Self::TeeSocDriver => 0x1c,
            Self::TeeDebugDriver => 0x1d,
            Self::TeeInterfaceDriver => 0x1f,
            Self::DiscoveryBinary => 0x20,
            Self::WrappedIkek => 0x21,
            Self::PspTokenUnlockData => 0x22,
            Self::SecurityPolicyBinary => 0x24,
            Self::Mp2Firmware => 0x25,
            Self::Mp2Firmware2 => 0x26,
            Self::UserModeUnitTests => 0x27,
            Self::PspSystemDriverEntryPoints => 0x28,
            Self::KvmImage => 0x29,
            Self::Mp5Firmware => 0x2a,
            Self::EfsPhysAddr => 0x2b,
            Self::TeeWriteOnceNvram => 0x2c,
            Self::ExternalChipsetPspBootLoader2d => 0x2d,
            Self::ExternalChipsetMp0Dxio => 0x2e,
            Self::ExternalChipsetMp1Firmware => 0x2f,
            Self::Abl0 => 0x30,
            Self::Abl1 => 0x31,
            Self::Abl2 => 0x32,
            Self::Abl3 => 0x33,
            Self::Abl4 => 0x34,
            Self::Abl5 => 0x35,
            Self::Abl6 => 0x36,
            Self::Abl7 => 0x37,
            Self::SevData => 0x38,
            Self::SevCode => 0x39,
            Self::PpinWhiteListBinary => 0x3a,
            Self::SerdesPhyMicrocode => 0x3b,
            Self::VbiosPreload => 0x3c,
            Self::WlanUmac => 0x3d,
            Self::WlanImac => 0x3e,
            Self::WlanBluetooth => 0x3f,
            Self::SecondLevelDirectory => 0x40,
            Self::ExternalChipsetMp0Bootloader => 0x41,
            Self::DxioPhySramFirmware => 0x42,
            Self::DxioPhySramPublicKey => 0x43,
            Self::UsbUnifiedPhyFirmware => 0x44,
            Self::TosSecurityPolicyBinary => 0x45,
            Self::ExternalChipsetPspBootloader46 => 0x46,
            Self::DrtmTa => 0x47,
            Self::SecondLevelAPspDirectory => 0x48,
            Self::SecondLevelBhdDirectory => 0x49,
            Self::SecondLevelBPspDirectory => 0x4a,
            Self::ExternalChipsetSecurityPolicyBinary => 0x4c,
            Self::ExternalChipsetSecureDebugUnlockBinary => 0x4d,
            Self::PmuPublicKey => 0x4e,
            Self::UmcFirmware => 0x4f,
            Self::PspBootloaderPublicKeysTable => 0x50,
            Self::PspTosPublicKeysTable => 0x51,
            Self::PspBootloaderUserApplication => 0x52,
            Self::PspBootloaderUserApplicationPublicKey => 0x53,
            Self::PspRpmcNvram => 0x54,
            Self::BootloaderSplTable => 0x55,
            Self::TosSplTable => 0x56,
            Self::PspBootloaderCvipConfigurationTable => 0x57,
            Self::DmcuEram => 0x58,
            Self::DmcuIsr => 0x59,
            Self::Msmu0 => 0x5a,
            Self::Msmu1 => 0x5b,
            Self::MpioOffchipFirmware => 0x5d,
            Self::RasDriver => 0x64,
            Self::RasTrustedApplication => 0x65,
            Self::TeeFhpDriver => 0x67,
            Self::TeeSpdmDriver => 0x68,
            Self::PspStage2Bootloader => 0x73,
            Self::RegisterInitializationBinary => 0x76,
            Self::OemSysTa => 0x80,
            Self::OemSysTaPublicKey => 0x81,
            Self::OemIkek => 0x82,
            Self::OemSplTable => 0x83,
            Self::OemTkek => 0x84,
            Self::AmfFirmwarePart1 => 0x85,
            Self::AmfFirmwarePart2 => 0x86,
            Self::MpmFactoryProvisioningData => 0x87,
            Self::MpmWlanFirmware => 0x88,
            Self::MpmSecurityDriver => 0x89,
            Self::MpdmaTigerfishFirmware => 0x8c,
            Self::Gmi3PhyFirmware => 0x91,
            Self::MpdmaPageMigrationFirmware => 0x92,
            Self::AspSramFirmwareExtension => 0x9d,
            Self::RegisterAccessWhitelist => 0x9f,
            Self::S3Image => 0xa0,
        }
    }

    pub fn from_u8(v: u8) -> (r: Option<Self>)
        ensures
            r == Self::spec_from_u8(v),
    {
        match v {
            0x00 => Some(Self::AmdPublicKey),
            0x01 => Some(Self::PspBootloader),
            0x02 => Some(Self::PspOs),
            0x03 => Some(Self::PspRecoveryBootloader),
            0x04 => Some(Self::PspNvdata),
            0x08 => Some(Self::SmuOffChipFirmware8),
            0x09 => Some(Self::AmdSecureDebugKey),
            0x0a => Some(Self::AblPublicKey),
            0x0b => Some(Self::PspSoftFuseChain),
            0x0c => Some(Self::PspTrustlets),
            0x0d => Some(Self::PspTrustletPublicKey),
            0x12 => Some(Self::SmuOffChipFirmware12),
            0x13 => Some(Self::PspEarlySecureUnlockDebugImage),
            0x15 => Some(Self::TeeIpKeyManagerDriver),
            0x1a => Some(Self::TeeSevDriver),
            0x1b => Some(Self::TeeBootDriver),
            0x1c => Some(Self::TeeSocDriver),
            0x1d => Some(Self::TeeDebugDriver),
            0x1f => Some(Self::TeeInterfaceDriver),
            0x20 => Some(Self::DiscoveryBinary),
            0x21 => Some(Self::WrappedIkek),
            0x22 => Some(Self::PspTokenUnlockData),
            0x24 => Some(Self::SecurityPolicyBinary),
            0x25 => Some(Self::Mp2Firmware),
            0x26 => Some(Self::Mp2Firmware2),
            0x27 => Some(Self::UserModeUnitTests),
            0x28 => Some(Self::PspSystemDriverEntryPoints),
            0x29 => Some(Self::KvmImage),
            0x2a => Some(Self::Mp5Firmware),
            0x2b => Some(Self::EfsPhysAddr),
            0x2c => Some(Self::TeeWriteOnceNvram),
            0x2d => Some(Self::ExternalChipsetPspBootLoader2d),
            0x2e => Some(Self::ExternalChipsetMp0Dxio),
            0x2f => Some(Self::ExternalChipsetMp1Firmware),
            0x30 => Some(Self::Abl0),
            0x31 => Some(Self::Abl1),
            0x32 => Some(Self::Abl2),
            0x33 => Some(Self::Abl3),
            0x34 => Some(Self::Abl4),
            0x35 => Some(Self::Abl5),
            0x36 => Some(Self::Abl6),
            0x37 => Some(Self::Abl7),
            0x38 => Some(Self::SevData),
            0x39 => Some(Self::SevCode),
            0x3a => Some(Self::PpinWhiteListBinary),
            0x3b => Some(Self::SerdesPhyMicrocode),
            0x3c => Some(Self::VbiosPreload),
            0x3d => Some(Self::WlanUmac),
            0x3e => Some(Self::WlanImac),
            0x3f => Some(Self::WlanBluetooth),
            0x40 => Some(Self::SecondLevelDirectory),
            0x41 => Some(Self::ExternalChipsetMp0Bootloader),
            0x42 => Some(Self::DxioPhySramFirmware),
            0x43 => Some(Self::DxioPhySramPublicKey),
            0x44 => Some(Self::UsbUnifiedPhyFirmware),
            0x45 => Some(Self::TosSecurityPolicyBinary),
            0x46 => Some(Self::ExternalChipsetPspBootloader46),
            0x47 => Some(Self::DrtmTa),
            0x48 => Some(Self::SecondLevelAPspDirectory),
            0x49 => Some(Self::SecondLevelBhdDirectory),
            0x4a => Some(Self::SecondLevelBPspDirectory),
            0x4c => Some(Self::ExternalChipsetSecurityPolicyBinary),
            0x4d => Some(Self::ExternalChipsetSecureDebugUnlockBinary),
            0x4e => Some(Self::PmuPublicKey),
            0x4f => Some(Self::UmcFirmware),
            0x50 => Some(Self::PspBootloaderPublicKeysTable),
            0x51 => Some(Self::PspTosPublicKeysTable),
            0x52 => Some(Self::PspBootloaderUserApplication),
            0x53 => Some(Self::PspBootloaderUserApplicationPublicKey),
            0x54 => Some(Self::PspRpmcNvram),
            0x55 => Some(Self::BootloaderSplTable),
            0x56 => Some(Self::TosSplTable),
            0x57 => Some(Self::PspBootloaderCvipConfigurationTable),
            0x58 => Some(Self::DmcuEram),
            0x59 => Some(Self::DmcuIsr),
            0x5a => Some(Self::Msmu0),
            0x5b => Some(Self::Msmu1),
            0x5d => Some(Self::MpioOffchipFirmware),
            0x64 => Some(Self::RasDriver),
            0x65 => Some(Self::RasTrustedApplication),
            0x67 => Some(Self::TeeFhpDriver),
            0x68 => Some(Self::TeeSpdmDriver),
            0x73 => Some(Self::PspStage2Bootloader),
            0x76 => Some(Self::RegisterInitializationBinary),
            0x80 => Some(Self::OemSysTa),
            0x81 => Some(Self::OemSysTaPublicKey),
            0x82 => Some(Self::OemIkek),
            0x83 => Some(Self::OemSplTable),
            0x84 => Some(Self::OemTkek),
            0x85 => Some(Self::AmfFirmwarePart1),
            0x86 => Some(Self::AmfFirmwarePart2),
            0x87 => Some(Self::MpmFactoryProvisioningData),
            0x88 => Some(Self::MpmWlanFirmware),
            0x89 => Some(Self::MpmSecurityDriver),
            0x8c => Some(Self::MpdmaTigerfishFirmware),
            0x91 => Some(Self::Gmi3PhyFirmware),
            0x92 => Some(Self::MpdmaPageMigrationFirmware),
            0x9d => Some(Self::AspSramFirmwareExtension),
            0x9f => Some(Self::RegisterAccessWhitelist),
            0xa0 => Some(Self::S3Image),
            _ => None,
        }
    }
}

/// The payload kinds a BHD directory entry can carry.
#[derive(Debug, PartialEq, Eq, Clone, Copy, Structural)]
#[non_exhaustive]
pub enum BhdDirectoryEntryType {
    OemPublicKey,
    CryptographicSignature,
    Apcb,
    Apob,
    Bios,
    ApobNvCopy,
    PmuFirmwareInstructions,
    PmuFirmwareData,
    MicrocodePatch,
    MceData,
    ApcbBackup,
    VgaInterpreter,
    Mp2FirmwareConfiguration,
    CorebootVbootWorkbuffer,
    MpmConfiguration,
    SecondLevelDirectory,
}

impl BhdDirectoryEntryType {
    pub open spec fn spec_to_u8(self) -> u8 {
        match self {
            Self::OemPublicKey => 0x05,
            Self::CryptographicSignature => 0x07,
            Self::Apcb => 0x60,
            Self::Apob => 0x61,
            Self::Bios => 0x62,
            Self::ApobNvCopy => 0x63,
            Self::PmuFirmwareInstructions => 0x64,
            Self::PmuFirmwareData => 0x65,
            Self::MicrocodePatch => 0x66,
            Self::MceData => 0x67,
            Self::ApcbBackup => 0x68,
            Self::VgaInterpreter => 0x69,
            Self::Mp2FirmwareConfiguration => 0x6a,
            Self::CorebootVbootWorkbuffer => 0x6b,
            Self::MpmConfiguration => 0x6c,
            Self::SecondLevelDirectory => 0x70,
        }
    }

    pub open spec fn spec_from_u8(v: u8) -> Option<Self> {
        if v == 0x05 {
            Some(Self::OemPublicKey)
        } else if v == 0x07 {
            Some(Self::CryptographicSignature)
        } else if v == 0x60 {
            Some(Self::Apcb)
        } else if v == 0x61 {
            Some(Self::Apob)
        } else if v == 0x62 {
            Some(Self::Bios)
        } else if v == 0x63 {
            Some(Self::ApobNvCopy)
        } else if v == 0x64 {
            Some(Self::PmuFirmwareInstructions)
        } else if v == 0x65 {
            Some(Self::PmuFirmwareData)
        } else if v == 0x66 {
            Some(Self::MicrocodePatch)
        } else if v == 0x67 {
            Some(Self::MceData)
        } else if v == 0x68 {
            Some(Self::ApcbBackup)
        } else if v == 0x69 {
            Some(Self::VgaInterpreter)
        } else if v == 0x6a {
            Some(Self::Mp2FirmwareConfiguration)
        } else if v == 0x6b {
            Some(Self::CorebootVbootWorkbuffer)
        } else if v == 0x6c {
            Some(Self::MpmConfiguration)
        } else if v == 0x70 {
            Some(Self::SecondLevelDirectory)
        } else {
            None
        }
    }

    pub fn to_u8(self) -> (r: u8)
        ensures
            r == self.spec_to_u8(),
    {
        match self {
            Self::OemPublicKey => 0x05,
            Self::CryptographicSignature => 0x07,
            Self::Apcb => 0x60,
            Self::Apob => 0x61,
            Self::Bios => 0x62,
            Self::ApobNvCopy => 0x63,
            Self::PmuFirmwareInstructions => 0x64,
            Self::PmuFirmwareData => 0x65,
            Self::MicrocodePatch => 0x66,
            Self::MceData => 0x67,
            Self::ApcbBackup => 0x68,
            Self::VgaInterpreter => 0x69,
            Self::Mp2FirmwareConfiguration => 0x6a,
            Self::CorebootVbootWorkbuffer => 0x6b,
            Self::MpmConfiguration => 0x6c,
            Self::SecondLevelDirectory => 0x70,
        }
    }

    pub fn from_u8(v: u8) -> (r: Option<Self>)
        ensures
            r == Self::spec_from_u8(v),
    {
        match v {
            0x05 => Some(Self::OemPublicKey),
            0x07 => Some(Self::CryptographicSignature),
            0x60 => Some(Self::Apcb),
            0x61 => Some(Self::Apob),
            0x62 => Some(Self::Bios),
            0x63 => Some(Self::ApobNvCopy),
            0x64 => Some(Self::PmuFirmwareInstructions),
            0x65 => Some(Self::PmuFirmwareData),
            0x66 => Some(Self::MicrocodePatch),
            0x67 => Some(Self::MceData),
            0x68 => Some(Self::ApcbBackup),
            0x69 => Some(Self::VgaInterpreter),
            0x6a => Some(Self::Mp2FirmwareConfiguration),
            0x6b => Some(Self::CorebootVbootWorkbuffer),
            0x6c => Some(Self::MpmConfiguration),
            0x70 => Some(Self::SecondLevelDirectory),
            _ => None,
        }
    }
}

#[derive(Debug, PartialEq, Eq, Clone, Copy, Structural)]
#[non_exhaustive]
pub enum BhdDirectoryEntryRegionType {
    Normal,
    Ta1,
    Ta2,
}

impl BhdDirectoryEntryRegionType {
    pub open spec fn spec_to_u8(self) -> u8 {
        match self {
            Self::Normal => 0x00,
            Self::Ta1 => 0x01,
            Self::Ta2 => 0x02,
        }
    }

    pub open spec fn spec_from_u8(v: u8) -> Option<Self> {
        if v == 0x00 {
            Some(Self::Normal)
        } else if v == 0x01 {
            Some(Self::Ta1)
        } else if v == 0x02 {
            Some(Self::Ta2)
        } else {
            None
        }
    }

    pub fn to_u8(self) -> (r: u8)
        ensures
            r == self.spec_to_u8(),
    {
        match self {
            Self::Normal => 0x00,
            Self::Ta1 => 0x01,
            Self::Ta2 => 0x02,
        }
    }

    pub fn from_u8(v: u8) -> (r: Option<Self>)
        ensures
            r == Self::spec_from_u8(v),
    {
        match v {
            0x00 => Some(Self::Normal),
            0x01 => Some(Self::Ta1),
            0x02 => Some(Self::Ta2),
            _ => None,
        }
    }
}

#[derive(Debug, PartialEq, Eq, Clone, Copy, Structural)]
#[non_exhaustive]
pub enum PspDirectoryRomId {
    SpiCs1,
    SpiCs2,
}

impl PspDirectoryRomId {
    pub open spec fn spec_to_u8(self) -> u8 {
        match self {
            Self::SpiCs1 => 0x00,
            Self::SpiCs2 => 0x01,
        }
    }

    pub open spec fn spec_from_u8(v: u8) -> Option<Self> {
        if v == 0x00 {
            Some(Self::SpiCs1)
        } else if v == 0x01 {
            Some(Self::SpiCs2)
        } else {
            None
        }
    }

    pub fn to_u8(self) -> (r: u8)
        ensures
            r == self.spec_to_u8(),
    {
        match self {
            Self::SpiCs1 => 0x00,
            Self::SpiCs2 => 0x01,
        }
    }

    pub fn from_u8(v: u8) -> (r: Option<Self>)
        ensures
            r == Self::spec_from_u8(v),
    {
        match v {
            0x00 => Some(Self::SpiCs1),
            0x01 => Some(Self::SpiCs2),
            _ => None,
        }
    }
}

#[derive(Debug, PartialEq, Eq, Clone, Copy, Structural)]
#[non_exhaustive]
pub enum BhdDirectoryRomId {
    SpiCs1,
    SpiCs2,
}

impl BhdDirectoryRomId {
    pub open spec fn spec_to_u8(self) -> u8 {
        match self {
            Self::SpiCs1 => 0x00,
            Self::SpiCs2 => 0x01,
        }
    }

    pub open spec fn spec_from_u8(v: u8) -> Option<Self> {
        if v == 0x00 {
            Some(Self::SpiCs1)
        } else if v == 0x01 {
            Some(Self::SpiCs2)
        } else {
            None
        }
    }

    pub fn to_u8(self) -> (r: u8)
        ensures
            r == self.spec_to_u8(),
    {
        match self {
            Self::SpiCs1 => 0x00,
            Self::SpiCs2 => 0x01,
        }
    }

    pub fn from_u8(v: u8) -> (r: Option<Self>)
        ensures
            r == Self::spec_from_u8(v),
    {
        match v {
            0x00 => Some(Self::SpiCs1),
            0x01 => Some(Self::SpiCs2),
            _ => None,
        }
    }
}

/// For 32 MiB SPI flash: which half to map to MMIO 0xff00_0000.
#[derive(Debug, PartialEq, Eq, Clone, Copy, Structural)]
#[non_exhaustive]
pub enum PspSoftFuseChain32MiBSpiDecoding {
    LowerHalf,
    UpperHalf,
}

impl PspSoftFuseChain32MiBSpiDecoding {
    pub open spec fn spec_to_u8(self) -> u8 {
        match self {
            Self::LowerHalf => 0x00,
            Self::UpperHalf => 0x01,
        }
    }

    pub open spec fn spec_from_u8(v: u8) -> Option<Self> {
        if v == 0x00 {
            Some(Self::LowerHalf)
        } else if v == 0x01 {
            Some(Self::UpperHalf)
        } else {
            None
        }
    }

    pub fn to_u8(self) -> (r: u8)
        ensures
            r == self.spec_to_u8(),
    {
        match self {
            Self::LowerHalf => 0x00,
            Self::UpperHalf => 0x01,
        }
    }

    pub fn from_u8(v: u8) -> (r: Option<Self>)
        ensures
            r == Self::spec_from_u8(v),
    {
        match v {
            0x00 => Some(Self::LowerHalf),
            0x01 => Some(Self::UpperHalf),
            _ => None,
        }
    }
}

#[derive(Debug, PartialEq, Eq, Clone, Copy, Structural)]
#[non_exhaustive]
pub enum PspSoftFuseChainPostCodeDecoding {
    Lpc,
    Espi,
}

impl PspSoftFuseChainPostCodeDecoding {
    pub open spec fn spec_to_u8(self) -> u8 {
        match self {
            Self::Lpc => 0x00,
            Self::Espi => 0x01,
        }
    }

    pub open spec fn spec_from_u8(v: u8) -> Option<Self> {
        if v == 0x00 {
            Some(Self::Lpc)
        } else if v == 0x01 {
            Some(Self::Espi)
        } else {
            None
        }
    }

    pub fn to_u8(self) -> (r: u8)
        ensures
            r == self.spec_to_u8(),
    {
        match self {
            Self::Lpc => 0x00,
            Self::Espi => 0x01,
        }
    }

    pub fn from_u8(v: u8) -> (r: Option<Self>)
        ensures
            r == Self::spec_from_u8(v),
    {
        match v {
            0x00 => Some(Self::Lpc),
            0x01 => Some(Self::Espi),
            _ => None,
        }
    }
}

#[derive(Debug, PartialEq, Eq, Clone, Copy, Structural)]
#[non_exhaustive]
pub enum ComboDirectoryLookupMode {
    BruteForce,
    MatchId,
}

impl ComboDirectoryLookupMode {
    pub open spec fn spec_to_u8(self) -> u8 {
        match self {
            Self::BruteForce => 0x00,
            Self::MatchId => 0x01,
        }
    }

    pub open spec fn spec_from_u8(v: u8) -> Option<Self> {
        if v == 0x00 {
            Some(Self::BruteForce)
        } else if v == 0x01 {
            Some(Self::MatchId)
        } else {
            None
        }
    }

    pub fn to_u8(self) -> (r: u8)
        ensures
            r == self.spec_to_u8(),
    {
        match self {
            Self::BruteForce => 0x00,
            Self::MatchId => 0x01,
        }
    }

    pub fn from_u8(v: u8) -> (r: Option<Self>)
        ensures
            r == Self::spec_from_u8(v),
    {
        match v {
            0x00 => Some(Self::BruteForce),
            0x01 => Some(Self::MatchId),
            _ => None,
        }
    }
}
/// How a pointer inside a directory entry is interpreted.
#[derive(Debug, PartialEq, Eq, Clone, Copy, Structural)]
pub enum AddressMode {
    /// Right-justified in the 4 GiB address space; only for images of at
    /// most 16 MiB, and only really used in families older than Rome.
    PhysicalAddress,
    EfsRelativeOffset,
    DirectoryRelativeOffset,
    OtherDirectoryRelativeOffset,
}

impl AddressMode {
    pub open spec fn spec_to_u8(self) -> u8 {
        match self {
            Self::PhysicalAddress => 0,
            Self::EfsRelativeOffset => 1,
            Self::DirectoryRelativeOffset => 2,
            Self::OtherDirectoryRelativeOffset => 3,
        }
    }

    pub open spec fn spec_from_bits(b: int) -> Self {
        if b == 0 {
            Self::PhysicalAddress
        } else if b == 1 {
            Self::EfsRelativeOffset
        } else if b == 2 {
            Self::DirectoryRelativeOffset
        } else {
            Self::OtherDirectoryRelativeOffset
        }
    }

    pub fn to_u8(self) -> (r: u8)
        ensures
            r == self.spec_to_u8(),
    {
        match self {
            Self::PhysicalAddress => 0,
            Self::EfsRelativeOffset => 1,
            Self::DirectoryRelativeOffset => 2,
            Self::OtherDirectoryRelativeOffset => 3,
        }
    }

    pub fn from_bits(b: u8) -> (r: Self)
        ensures
            r == Self::spec_from_bits(b as int),
    {
        if b == 0 {
            Self::PhysicalAddress
        } else if b == 1 {
            Self::EfsRelativeOffset
        } else if b == 2 {
            Self::DirectoryRelativeOffset
        } else {
            Self::OtherDirectoryRelativeOffset
        }
    }
}

impl Default for AddressMode {
    fn default() -> (r: Self)
        ensures
            r == Self::EfsRelativeOffset,
    {
        Self::EfsRelativeOffset
    }
}

/// A directory entry's source field, decoded: either an immediate value or
/// a pointer in one of the four address modes.
#[derive(Debug, PartialEq, Eq, Clone, Copy, Structural)]
pub enum ValueOrLocation {
    Value(u64),
    PhysicalAddress(u32),
    EfsRelativeOffset(u32),
    DirectoryRelativeOffset(u32),
    OtherDirectoryRelativeOffset(u32),
}

/// Offset of the first byte of the MMIO window that aliases the flash:
/// the flash's last byte sits at the top of the 32-bit address space.
pub open spec fn spec_mmio_window_base(mmio_size: u32) -> int
    recommends
        mmio_size >= 1,
{
    0x1_0000_0000 - mmio_size
}

/// The flash offset that physical address `value` aliases, if any.
pub open spec fn spec_mmio_decode(value: u32, mmio_size: u32) -> Option<u32> {
    if mmio_size == 0 {
        None
    } else if value >= spec_mmio_window_base(mmio_size) {
        Some((value - spec_mmio_window_base(mmio_size)) as u32)
    } else {
        None
    }
}

/// Convert a possibly-MMIO address `value` to a flash offset: decode it
/// against the window if one is known, also accepting a plain offset below
/// the window (older Zen models did that); without a window, accept only a
/// value that looks like a flash offset.
pub open spec fn spec_de_mmio(value: u32, amd_physical_mode_mmio_size: Option<u32>) -> Option<u32> {
    if spec_is_invalid_directory_table_location(value) {
        None
    } else if amd_physical_mode_mmio_size is Some {
        let mmio_size = amd_physical_mode_mmio_size.unwrap();
        match spec_mmio_decode(value, mmio_size) {
            Some(v) => Some(v),
            None => if mmio_size != 0 && value < mmio_size {
                Some(value)
            } else {
                None
            },
        }
    } else if spec_is_likely_location(value) {
        Some(value)
    } else {
        None
    }
}

/// `0` and `0xFFFF_FFFF` mark an absent directory pointer.
pub open spec fn spec_is_invalid_directory_table_location(beginning: u32) -> bool {
    beginning == 0xffff_ffffu32 || beginning == 0
}

/// Whether `v` is likely a flash offset (under 16 MiB) rather than an MMIO
/// address or garbage.
pub open spec fn spec_is_likely_location(v: u32) -> bool {
    v < 0x100_0000
}

/// Encode flash offset `value` as a physical address in the MMIO window.
pub fn mmio_encode(value: Location, amd_physical_mode_mmio_size: Option<u32>) -> (r: Result<u32>)
    ensures
        match r {
            Ok(encoded) => {
                &&& amd_physical_mode_mmio_size matches Some(s) && s != 0
                &&& encoded == value + spec_mmio_window_base(
                    amd_physical_mode_mmio_size.unwrap(),
                )
            },
            Err(e) => {
                &&& e == Error::DirectoryTypeMismatch
                &&& match amd_physical_mode_mmio_size {
                    None => true,
                    Some(s) => s == 0 || value + spec_mmio_window_base(s) > u32::MAX,
                }
            },
        },
{
    let mmio_address_lower: u32 = match amd_physical_mode_mmio_size {
        None => {
            return Err(Error::DirectoryTypeMismatch);
        },
        Some(x) => {
            if x == 0 {
                return Err(Error::DirectoryTypeMismatch);
            }
            1 + (0xFFFF_FFFFu32 - x)
        },
    };
    match value.checked_add(mmio_address_lower) {
        Some(v) => Ok(v),
        None => Err(Error::DirectoryTypeMismatch),
    }
}

/// Decode physical address `value` back to a flash offset.
pub fn mmio_decode(value: u32, amd_physical_mode_mmio_size: u32) -> (r: Result<u32>)
    ensures
        match r {
            Ok(decoded) => spec_mmio_decode(value, amd_physical_mode_mmio_size) == Some(decoded),
            Err(e) => {
                &&& e == Error::DirectoryTypeMismatch
                &&& spec_mmio_decode(value, amd_physical_mode_mmio_size) is None
            },
        },
{
    let mmio_address_lower: u32 = match amd_physical_mode_mmio_size {
        0 => {
            return Err(Error::DirectoryTypeMismatch);
        },
        x => 1 + (0xFFFF_FFFFu32 - x),
    };
    if value >= mmio_address_lower {
        Ok(value - mmio_address_lower)
    } else {
        Err(Error::DirectoryTypeMismatch)
    }
}

/// Convert a possibly-MMIO address to a flash offset; see `spec_de_mmio`.
pub fn de_mmio(v: u32, amd_physical_mode_mmio_size: Option<u32>) -> (r: Option<Location>)
    ensures
        r == spec_de_mmio(v, amd_physical_mode_mmio_size),
{
    if is_invalid_directory_table_location(v) {
        None
    } else if let Some(mmio_size) = amd_physical_mode_mmio_size {
        match mmio_decode(v, mmio_size) {
            Ok(decoded) => Some(decoded),
            Err(_) => {
                if mmio_size != 0 && v < mmio_size {
                    Some(v)
                } else {
                    None
                }
            },
        }
    } else if is_likely_location(v) {
        Some(v)
    } else {
        None
    }
}

/// Whether `v` is likely a flash offset from the beginning of the flash;
/// anything at 16 MiB or above is more likely an MMIO address or garbage.
pub fn is_likely_location(v: u32) -> (r: bool)
    ensures
        r == spec_is_likely_location(v),
{
    proof {
        assert((v & 0xff00_0000) == 0 <==> v < 0x100_0000) by (bit_vector);
    }
    v & 0xff00_0000 == 0
}

pub fn is_invalid_directory_table_location(beginning: u32) -> (r: bool)
    ensures
        r == spec_is_invalid_directory_table_location(beginning),
{
    beginning == 0xffff_ffff || beginning == 0
}

/// The top two bits of a raw entry source: a per-entry address-mode
/// override.
pub open spec fn spec_entry_mode_bits(source: u64) -> int {
    source as int / 0x4000_0000_0000_0000
}

/// The low 62 bits of a raw entry source: the pointer value.
pub open spec fn spec_source_low(source: u64) -> int {
    source as int % 0x4000_0000_0000_0000
}

/// The directory's address mode decides, unless it is the weak mode
/// (`DirectoryRelativeOffset`), which lets the entry decide.
pub open spec fn spec_effective_address_mode(
    directory_address_mode: AddressMode,
    entry_address_mode: AddressMode,
) -> AddressMode {
    if directory_address_mode == AddressMode::DirectoryRelativeOffset {
        entry_address_mode
    } else {
        directory_address_mode
    }
}

pub open spec fn spec_is_entry_address_mode_effective(
    directory_address_mode: AddressMode,
    entry_address_mode: AddressMode,
) -> bool {
    spec_effective_address_mode(directory_address_mode, entry_address_mode) == entry_address_mode
}

/// Decoding a raw location source under a directory address mode:
/// the effective mode picks the variant; the low 62 bits are the value,
/// which must fit in 32 bits.
pub open spec fn spec_location_of_raw(
    directory_address_mode: AddressMode,
    source: u64,
) -> Option<ValueOrLocation> {
    let entry_mode = AddressMode::spec_from_bits(spec_entry_mode_bits(source));
    let low = spec_source_low(source);
    if low > u32::MAX {
        None
    } else {
        let value = low as u32;
        Some(
            match spec_effective_address_mode(directory_address_mode, entry_mode) {
                AddressMode::PhysicalAddress => ValueOrLocation::PhysicalAddress(value),
                AddressMode::EfsRelativeOffset => ValueOrLocation::EfsRelativeOffset(value),
                AddressMode::DirectoryRelativeOffset => ValueOrLocation::DirectoryRelativeOffset(
                    value,
                ),
                AddressMode::OtherDirectoryRelativeOffset => ValueOrLocation::OtherDirectoryRelativeOffset(
                    value,
                ),
            },
        )
    }
}

/// Encoding a `ValueOrLocation` as a raw source under a directory address
/// mode: refused unless the variant's mode is effective under the
/// directory's; the top two bits carry the entry mode where the directory
/// mode is weak.
pub open spec fn spec_raw_of_location(
    directory_address_mode: AddressMode,
    v: ValueOrLocation,
) -> Option<u64> {
    match v {
        ValueOrLocation::Value(_) => None,
        ValueOrLocation::PhysicalAddress(x) => if spec_is_entry_address_mode_effective(
            directory_address_mode,
            AddressMode::PhysicalAddress,
        ) {
            Some(x as u64)
        } else {
            None
        },
        ValueOrLocation::EfsRelativeOffset(x) => if spec_is_entry_address_mode_effective(
            directory_address_mode,
            AddressMode::EfsRelativeOffset,
        ) {
            if directory_address_mode == AddressMode::DirectoryRelativeOffset
                || directory_address_mode == AddressMode::OtherDirectoryRelativeOffset {
                Some((x + 0x4000_0000_0000_0000u64) as u64)
            } else {
                Some(x as u64)
            }
        } else {
            None
        },
        ValueOrLocation::DirectoryRelativeOffset(x) => if spec_is_entry_address_mode_effective(
            directory_address_mode,
            AddressMode::DirectoryRelativeOffset,
        ) {
            Some((x + 0x8000_0000_0000_0000u64) as u64)
        } else {
            None
        },
        ValueOrLocation::OtherDirectoryRelativeOffset(x) => if spec_is_entry_address_mode_effective(
            directory_address_mode,
            AddressMode::OtherDirectoryRelativeOffset,
        ) {
            Some((x + 0xC000_0000_0000_0000u64) as u64)
        } else {
            None
        },
    }
}

impl ValueOrLocation {
    pub fn effective_address_mode(
        directory_address_mode: AddressMode,
        entry_address_mode: AddressMode,
    ) -> (r: AddressMode)
        ensures
            r == spec_effective_address_mode(directory_address_mode, entry_address_mode),
    {
        if directory_address_mode == AddressMode::DirectoryRelativeOffset {
            entry_address_mode
        } else {
            directory_address_mode
        }
    }

    pub fn is_entry_address_mode_effective(
        directory_address_mode: AddressMode,
        entry_address_mode: AddressMode,
    ) -> (r: bool)
        ensures
            r == spec_is_entry_address_mode_effective(directory_address_mode, entry_address_mode),
    {
        Self::effective_address_mode(directory_address_mode, entry_address_mode)
            == entry_address_mode
    }

    /// Decode a raw 64-bit source field that holds a location.
    pub fn new_from_raw_location(directory_address_mode: AddressMode, source: u64) -> (r: Result<
        Self,
    >)
        ensures
            match r {
                Ok(v) => spec_location_of_raw(directory_address_mode, source) == Some(v),
                Err(e) => {
                    &&& e == Error::DirectoryPayloadRangeCheck
                    &&& spec_location_of_raw(directory_address_mode, source) is None
                },
            },
    {
        let entry_address_mode = AddressMode::from_bits((source / 0x4000_0000_0000_0000) as u8);
        let low = source % 0x4000_0000_0000_0000;
        if low > 0xffff_ffff {
            return Err(Error::DirectoryPayloadRangeCheck);
        }
        let value = low as u32;
        let address_mode = Self::effective_address_mode(
            directory_address_mode,
            entry_address_mode,
        );
        Ok(
            match address_mode {
                AddressMode::PhysicalAddress => Self::PhysicalAddress(value),
                AddressMode::EfsRelativeOffset => Self::EfsRelativeOffset(value),
                AddressMode::DirectoryRelativeOffset => Self::DirectoryRelativeOffset(value),
                AddressMode::OtherDirectoryRelativeOffset => Self::OtherDirectoryRelativeOffset(
                    value,
                ),
            },
        )
    }

    /// Encode this location as a raw 64-bit source field.
    pub fn try_into_raw_location(&self, directory_address_mode: AddressMode) -> (r: Result<u64>)
        ensures
            match r {
                Ok(raw) => spec_raw_of_location(directory_address_mode, *self) == Some(raw),
                Err(e) => {
                    &&& e == Error::EntryTypeMismatch
                    &&& spec_raw_of_location(directory_address_mode, *self) is None
                },
            },
    {
        match self {
            ValueOrLocation::Value(_) => Err(Error::EntryTypeMismatch),
            ValueOrLocation::PhysicalAddress(x) => {
                if Self::is_entry_address_mode_effective(
                    directory_address_mode,
                    AddressMode::PhysicalAddress,
                ) {
                    // The top two bits were only retrofitted as flags in
                    // Milan; in Rome a physical address could use all 32
                    // bits, so they pass through unchanged here.
                    Ok(*x as u64)
                } else {
                    Err(Error::EntryTypeMismatch)
                }
            },
            ValueOrLocation::EfsRelativeOffset(x) => {
                if Self::is_entry_address_mode_effective(
                    directory_address_mode,
                    AddressMode::EfsRelativeOffset,
                ) {
                    let v = if directory_address_mode == AddressMode::DirectoryRelativeOffset
                        || directory_address_mode == AddressMode::OtherDirectoryRelativeOffset {
                        (*x as u64) + 0x4000_0000_0000_0000u64
                    } else {
                        *x as u64
                    };
                    Ok(v)
                } else {
                    Err(Error::EntryTypeMismatch)
                }
            },
            ValueOrLocation::DirectoryRelativeOffset(x) => {
                if Self::is_entry_address_mode_effective(
                    directory_address_mode,
                    AddressMode::DirectoryRelativeOffset,
                ) {
                    Ok((*x as u64) + 0x8000_0000_0000_0000u64)
                } else {
                    Err(Error::EntryTypeMismatch)
                }
            },
            ValueOrLocation::OtherDirectoryRelativeOffset(x) => {
                if Self::is_entry_address_mode_effective(
                    directory_address_mode,
                    AddressMode::OtherDirectoryRelativeOffset,
                ) {
                    Ok((*x as u64) + 0xC000_0000_0000_0000u64)
                } else {
                    Err(Error::EntryTypeMismatch)
                }
            },
        }
    }
}

/// Decoding an encoded location gives it back: for every location variant
/// `v` whose address mode is effective under directory mode `m`, encoding
/// under `m` and decoding under `m` returns exactly `v`.
pub proof fn lemma_location_encode_decode_round_trip(m: AddressMode, v: ValueOrLocation)
    requires
        !(v is Value),
        spec_raw_of_location(m, v) is Some,
    ensures
        spec_location_of_raw(m, spec_raw_of_location(m, v).unwrap()) == Some(v),
{
    let raw = spec_raw_of_location(m, v).unwrap();
    assert(spec_entry_mode_bits(raw) == raw as int / 0x4000_0000_0000_0000);
    match v {
        ValueOrLocation::Value(_) => {},
        ValueOrLocation::PhysicalAddress(x) => {
            assert(raw == x as u64);
            assert(spec_entry_mode_bits(raw) == 0 && spec_source_low(raw) == x) by {
                assert(x as int / 0x4000_0000_0000_0000 == 0);
                assert(x as int % 0x4000_0000_0000_0000 == x as int);
            };
        },
        ValueOrLocation::EfsRelativeOffset(x) => {
            if m == AddressMode::DirectoryRelativeOffset
                || m == AddressMode::OtherDirectoryRelativeOffset {
                assert(raw == x + 0x4000_0000_0000_0000);
                assert(spec_entry_mode_bits(raw) == 1 && spec_source_low(raw) == x) by {
                    vstd::arithmetic::div_mod::lemma_div_multiples_vanish_fancy(
                        1,
                        x as int,
                        0x4000_0000_0000_0000,
                    );
                    vstd::arithmetic::div_mod::lemma_mod_multiples_vanish(
                        1,
                        x as int,
                        0x4000_0000_0000_0000,
                    );
                    vstd::arithmetic::div_mod::lemma_small_mod(
                        x as nat,
                        0x4000_0000_0000_0000,
                    );
                };
            } else {
                assert(raw == x as u64);
                assert(spec_entry_mode_bits(raw) == 0 && spec_source_low(raw) == x) by {
                    assert(x as int / 0x4000_0000_0000_0000 == 0);
                    assert(x as int % 0x4000_0000_0000_0000 == x as int);
                };
            }
        },
        ValueOrLocation::DirectoryRelativeOffset(x) => {
            assert(raw == x + 0x8000_0000_0000_0000);
            assert(spec_entry_mode_bits(raw) == 2 && spec_source_low(raw) == x) by {
                vstd::arithmetic::div_mod::lemma_div_multiples_vanish_fancy(
                    2,
                    x as int,
                    0x4000_0000_0000_0000,
                );
                vstd::arithmetic::div_mod::lemma_mod_multiples_vanish(
                    2,
                    x as int,
                    0x4000_0000_0000_0000,
                );
                vstd::arithmetic::div_mod::lemma_small_mod(x as nat, 0x4000_0000_0000_0000);
            };
        },
        ValueOrLocation::OtherDirectoryRelativeOffset(x) => {
            assert(raw == x + 0xC000_0000_0000_0000);
            assert(spec_entry_mode_bits(raw) == 3 && spec_source_low(raw) == x) by {
                vstd::arithmetic::div_mod::lemma_div_multiples_vanish_fancy(
                    3,
                    x as int,
                    0x4000_0000_0000_0000,
                );
                vstd::arithmetic::div_mod::lemma_mod_multiples_vanish(
                    3,
                    x as int,
                    0x4000_0000_0000_0000,
                );
                vstd::arithmetic::div_mod::lemma_small_mod(x as nat, 0x4000_0000_0000_0000);
            };
        },
    }
}

/// The packed 32-bit `additional_info` word of a PSP or BHD directory
/// header, unpacked into its fields. Units of `max_size`, `spi_block_size`
/// and `base_address` are 4 kiB; a stored `spi_block_size` of 0 means
/// 64 kiB.
#[derive(Debug, PartialEq, Eq, Clone, Copy, Structural)]
pub struct DirectoryAdditionalInfo {
    pub max_size: u16,
    pub spi_block_size: u8,
    pub base_address: u16,
    pub address_mode: AddressMode,
    pub reserved_0: bool,
}

impl DirectoryAdditionalInfo {
    /// The unit of the three size/address fields, in bytes.
    pub const UNIT: usize = 4096;

    pub open spec fn wf(&self) -> bool {
        &&& self.max_size < 0x400
        &&& self.spi_block_size < 0x10
        &&& self.base_address < 0x8000
    }

    pub open spec fn spec_to_u32(self) -> u32 {
        ((self.max_size as int % 0x400) + (self.spi_block_size as int % 0x10) * 0x400 + (
        self.base_address as int % 0x8000) * 0x4000 + (self.address_mode.spec_to_u8() as int)
            * 0x2000_0000 + (if self.reserved_0 {
            1int
        } else {
            0int
        }) * 0x8000_0000) as u32
    }

    pub open spec fn spec_from_u32(v: u32) -> Self {
        DirectoryAdditionalInfo {
            max_size: (v as int % 0x400) as u16,
            spi_block_size: (v as int / 0x400 % 0x10) as u8,
            base_address: (v as int / 0x4000 % 0x8000) as u16,
            address_mode: AddressMode::spec_from_bits(v as int / 0x2000_0000 % 4),
            reserved_0: v as int / 0x8000_0000 % 2 == 1,
        }
    }

    pub fn new() -> (r: Self)
        ensures
            r == Self::spec_from_u32(0),
            r.wf(),
    {
        Self {
            max_size: 0,
            spi_block_size: 0,
            base_address: 0,
            address_mode: AddressMode::PhysicalAddress,
            reserved_0: false,
        }
    }

    pub fn to_u32(self) -> (r: u32)
        ensures
            r == self.spec_to_u32(),
    {
        (self.max_size % 0x400) as u32 + (self.spi_block_size % 0x10) as u32 * 0x400 + (
        self.base_address % 0x8000) as u32 * 0x4000 + self.address_mode.to_u8() as u32
            * 0x2000_0000 + (if self.reserved_0 {
            1u32
        } else {
            0u32
        }) * 0x8000_0000
    }

    pub fn from_u32(v: u32) -> (r: Self)
        ensures
            r == Self::spec_from_u32(v),
            r.wf(),
    {
        Self {
            max_size: (v % 0x400) as u16,
            spi_block_size: (v / 0x400 % 0x10) as u8,
            base_address: (v / 0x4000 % 0x8000) as u16,
            address_mode: AddressMode::from_bits((v / 0x2000_0000 % 4) as u8),
            reserved_0: v / 0x8000_0000 % 2 == 1,
        }
    }

    pub fn max_size(&self) -> (r: u16)
        ensures
            r == self.max_size,
    {
        self.max_size
    }

    pub fn set_max_size(&mut self, value: u16)
        requires
            value < 0x400,
        ensures
            *final(self) == (DirectoryAdditionalInfo { max_size: value, ..*old(self) }),
    {
        self.max_size = value;
    }

    pub fn with_max_size_checked(&self, value: u16) -> (r: Option<Self>)
        ensures
            match r {
                Some(info) => value < 0x400 && info == (DirectoryAdditionalInfo {
                    max_size: value,
                    ..*self
                }),
                None => value >= 0x400,
            },
    {
        if value < 0x400 {
            Some(Self { max_size: value, ..*self })
        } else {
            None
        }
    }

    /// The stored raw value, with 0 read as 0x10 (64 kiB).
    pub open spec fn spec_spi_block_size(&self) -> u16 {
        if self.spi_block_size == 0 {
            0x10u16
        } else {
            self.spi_block_size as u16
        }
    }

    pub fn spi_block_size_or_err(&self) -> (r: Result<u16>)
        ensures
            r == Ok::<u16, Error>(self.spec_spi_block_size()),
    {
        if self.spi_block_size == 0 {
            Ok(0x10)
        } else {
            Ok(self.spi_block_size as u16)
        }
    }

    pub fn spi_block_size(&self) -> (r: u16)
        ensures
            r == self.spec_spi_block_size(),
    {
        if self.spi_block_size == 0 {
            0x10
        } else {
            self.spi_block_size as u16
        }
    }

    pub fn set_spi_block_size_checked(&mut self, value: u16) -> (r: Option<()>)
        ensures
            match r {
                Some(_) => {
                    &&& 1 <= value <= 0x10
                    &&& *final(self) == (DirectoryAdditionalInfo {
                        spi_block_size: if value == 0x10 {
                            0u8
                        } else {
                            value as u8
                        },
                        ..*old(self)
                    })
                },
                None => {
                    &&& (value == 0 || value > 0x10)
                    &&& *final(self) == *old(self)
                },
            },
    {
        if value > 0 && value <= 15 {
            self.spi_block_size = value as u8;
            Some(())
        } else if value == 0x10 {
            // 64 kiB is stored as 0.
            self.spi_block_size = 0;
            Some(())
        } else {
            None
        }
    }

    pub fn with_spi_block_size_checked(&self, value: u16) -> (r: Option<Self>)
        ensures
            match r {
                Some(info) => {
                    &&& 1 <= value <= 0x10
                    &&& info == (DirectoryAdditionalInfo {
                        spi_block_size: if value == 0x10 {
                            0u8
                        } else {
                            value as u8
                        },
                        ..*self
                    })
                },
                None => value == 0 || value > 0x10,
            },
    {
        let mut result = *self;
        match result.set_spi_block_size_checked(value) {
            Some(_) => Some(result),
            None => None,
        }
    }

    pub fn set_spi_block_size(&mut self, value: u16)
        requires
            1 <= value <= 0x10,
        ensures
            *final(self) == (DirectoryAdditionalInfo {
                spi_block_size: if value == 0x10 {
                    0u8
                } else {
                    value as u8
                },
                ..*old(self)
            }),
    {
        if value == 0x10 {
            // 64 kiB is stored as 0.
            self.spi_block_size = 0;
        } else {
            self.spi_block_size = value as u8;
        }
    }

    pub fn base_address(&self) -> (r: u16)
        ensures
            r == self.base_address,
    {
        self.base_address
    }

    pub fn set_base_address(&mut self, value: u16)
        requires
            value < 0x8000,
        ensures
            *final(self) == (DirectoryAdditionalInfo { base_address: value, ..*old(self) }),
    {
        self.base_address = value;
    }

    pub fn with_base_address(&self, value: u16) -> (r: Self)
        requires
            value < 0x8000,
        ensures
            r == (DirectoryAdditionalInfo { base_address: value, ..*self }),
    {
        Self { base_address: value, ..*self }
    }

    pub fn address_mode(&self) -> (r: AddressMode)
        ensures
            r == self.address_mode,
    {
        self.address_mode
    }

    pub fn set_address_mode(&mut self, value: AddressMode)
        ensures
            *final(self) == (DirectoryAdditionalInfo { address_mode: value, ..*old(self) }),
    {
        self.address_mode = value;
    }

    pub fn with_address_mode(&self, value: AddressMode) -> (r: Self)
        ensures
            r == (DirectoryAdditionalInfo { address_mode: value, ..*self }),
    {
        Self { address_mode: value, ..*self }
    }

    /// Express `value` bytes in 4-kiB units, if it is a whole number of them
    /// that fits the field width.
    pub fn try_into_unit(value: usize) -> (r: Option<u16>)
        ensures
            match r {
                Some(units) => value as int == units as int * 4096,
                None => value as int % 4096 != 0 || value as int / 4096 > u16::MAX,
            },
    {
        if value % Self::UNIT == 0 {
            let units = value / Self::UNIT;
            if units <= 0xffff {
                proof {
                    vstd::arithmetic::div_mod::lemma_fundamental_div_mod(value as int, 4096);
                }
                Some(units as u16)
            } else {
                None
            }
        } else {
            None
        }
    }

    /// The byte count of `value` 4-kiB units, where it fits a `usize`.
    pub fn try_from_unit(value: u16) -> (r: Option<usize>)
        ensures
            match r {
                Some(bytes) => bytes as int == value as int * 4096,
                None => value as int * 4096 > usize::MAX,
            },
    {
        if usize::BITS >= 32 {
            Some((value as usize) * 4096)
        } else {
            None
        }
    }
}

impl Default for DirectoryAdditionalInfo {
    fn default() -> (r: Self)
        ensures
            r == Self::spec_from_u32(0),
            r.wf(),
    {
        Self::new()
    }
}

impl From<u32> for DirectoryAdditionalInfo {
    fn from(v: u32) -> (r: Self) {
        Self::from_u32(v)
    }
}

impl vstd::std_specs::convert::FromSpecImpl<u32> for DirectoryAdditionalInfo {
    open spec fn obeys_from_spec() -> bool {
        true
    }

    open spec fn from_spec(v: u32) -> Self {
        Self::spec_from_u32(v)
    }
}

impl From<DirectoryAdditionalInfo> for u32 {
    fn from(v: DirectoryAdditionalInfo) -> (r: u32) {
        v.to_u32()
    }
}

impl vstd::std_specs::convert::FromSpecImpl<DirectoryAdditionalInfo> for u32 {
    open spec fn obeys_from_spec() -> bool {
        true
    }

    open spec fn from_spec(v: DirectoryAdditionalInfo) -> u32 {
        v.spec_to_u32()
    }
}

/// Unpacking any 32-bit word and packing it again gives the word back:
/// the fields cover all 32 bits.
pub proof fn lemma_additional_info_unpack_pack(v: u32)
    ensures
        DirectoryAdditionalInfo::spec_from_u32(v).spec_to_u32() == v,
{
    let info = DirectoryAdditionalInfo::spec_from_u32(v);
    let a = v as int / 0x2000_0000 % 4;
    assert(info.address_mode.spec_to_u8() as int == a);
    let r = v as int / 0x8000_0000 % 2;
    assert((if info.reserved_0 {
        1int
    } else {
        0int
    }) == r);
    assert(v as int % 0x400 % 0x400 + (v as int / 0x400 % 0x10 % 0x10) * 0x400 + (v as int / 0x4000
        % 0x8000 % 0x8000) * 0x4000 + (v as int / 0x2000_0000 % 4) * 0x2000_0000 + (v as int
        / 0x8000_0000 % 2) * 0x8000_0000 == v) by (bit_vector);
}

/// Packing well-formed fields and unpacking the word recovers the fields.
pub proof fn lemma_additional_info_pack_unpack(info: DirectoryAdditionalInfo)
    requires
        info.wf(),
    ensures
        DirectoryAdditionalInfo::spec_from_u32(info.spec_to_u32()) == info,
{
    let m = info.max_size;
    let s = info.spi_block_size;
    let b = info.base_address;
    let a = info.address_mode.spec_to_u8();
    let r: u8 = if info.reserved_0 {
        1
    } else {
        0
    };
    let x = info.spec_to_u32();
    assert(m < 0x400 && s < 0x10 && b < 0x8000 && a < 4 && r < 2 && (x == m + s * 0x400 + b * 0x4000
        + a * 0x2000_0000 + r * 0x8000_0000) ==> ({
        &&& x as int % 0x400 == m
        &&& x as int / 0x400 % 0x10 == s
        &&& x as int / 0x4000 % 0x8000 == b
        &&& x as int / 0x2000_0000 % 4 == a
        &&& x as int / 0x8000_0000 % 2 == r
    })) by (bit_vector);
    assert(x == m + s * 0x400 + b * 0x4000 + a * 0x2000_0000 + r * 0x8000_0000);
}
/// An eSPI controller configuration byte of the EFS. Bit 0 is the
/// "invalid" flag and is handled by the EFS accessors; the other bits are
/// the configuration proper.
#[derive(Debug, PartialEq, Eq, Clone, Copy, Structural)]
pub struct EfhEspiConfiguration {
    pub enable_port_0x80: bool,
    pub alert_pin: u8,
    pub data_bus: u8,
    pub clock: u8,
    pub respond_port_0x80: bool,
    pub reserved_1: u8,
    pub reserved_2: u8,
}

impl EfhEspiConfiguration {
    pub open spec fn wf(&self) -> bool {
        &&& self.alert_pin < 2
        &&& self.data_bus < 2
        &&& self.clock < 2
        &&& self.reserved_1 < 2
        &&& self.reserved_2 < 2
    }

    /// The stored byte, with the "invalid" bit clear.
    pub open spec fn spec_to_u8(self) -> u8 {
        ((if self.enable_port_0x80 {
            2int
        } else {
            0int
        }) + (self.alert_pin as int % 2) * 4 + (self.data_bus as int % 2) * 8 + (self.clock as int
            % 2) * 16 + (if self.respond_port_0x80 {
            32int
        } else {
            0int
        }) + (self.reserved_1 as int % 2) * 64 + (self.reserved_2 as int % 2) * 128) as u8
    }

    /// The configuration encoded in a byte; the "invalid" bit is ignored.
    pub open spec fn spec_from_u8(v: u8) -> Self {
        EfhEspiConfiguration {
            enable_port_0x80: v as int / 2 % 2 == 1,
            alert_pin: (v as int / 4 % 2) as u8,
            data_bus: (v as int / 8 % 2) as u8,
            clock: (v as int / 16 % 2) as u8,
            respond_port_0x80: v as int / 32 % 2 == 1,
            reserved_1: (v as int / 64 % 2) as u8,
            reserved_2: (v as int / 128 % 2) as u8,
        }
    }

    pub fn new() -> (r: Self)
        ensures
            r == Self::spec_from_u8(0),
            r.wf(),
    {
        Self {
            enable_port_0x80: false,
            alert_pin: 0,
            data_bus: 0,
            clock: 0,
            respond_port_0x80: false,
            reserved_1: 0,
            reserved_2: 0,
        }
    }

    pub fn to_u8(self) -> (r: u8)
        ensures
            r == self.spec_to_u8(),
    {
        (if self.enable_port_0x80 {
            2u8
        } else {
            0u8
        }) + (self.alert_pin % 2) * 4 + (self.data_bus % 2) * 8 + (self.clock % 2) * 16 + (
        if self.respond_port_0x80 {
            32u8
        } else {
            0u8
        }) + (self.reserved_1 % 2) * 64 + (self.reserved_2 % 2) * 128
    }

    pub fn from_u8(v: u8) -> (r: Self)
        ensures
            r == Self::spec_from_u8(v),
            r.wf(),
    {
        Self {
            enable_port_0x80: v / 2 % 2 == 1,
            alert_pin: v / 4 % 2,
            data_bus: v / 8 % 2,
            clock: v / 16 % 2,
            respond_port_0x80: v / 32 % 2 == 1,
            reserved_1: v / 64 % 2,
            reserved_2: v / 128 % 2,
        }
    }

    /// A configuration held in this type is always a valid one.
    pub fn invalid(&self) -> (r: bool)
        ensures
            r == false,
    {
        false
    }

    pub fn set_invalid(&mut self, value: bool)
        requires
            !value,
        ensures
            *final(self) == *old(self),
    {
    }
}

/// Well-formed eSPI fields survive the trip through the packed byte, and
/// the packed byte always has the "invalid" bit clear.
pub proof fn lemma_espi_pack_unpack(cfg: EfhEspiConfiguration)
    requires
        cfg.wf(),
    ensures
        EfhEspiConfiguration::spec_from_u8(cfg.spec_to_u8()) == cfg,
        cfg.spec_to_u8() as int % 2 == 0,
{
    let e: u8 = if cfg.enable_port_0x80 {
        1
    } else {
        0
    };
    let a = cfg.alert_pin;
    let d = cfg.data_bus;
    let c = cfg.clock;
    let p: u8 = if cfg.respond_port_0x80 {
        1
    } else {
        0
    };
    let r1 = cfg.reserved_1;
    let r2 = cfg.reserved_2;
    let x = cfg.spec_to_u8();
    assert(e < 2 && a < 2 && d < 2 && c < 2 && p < 2 && r1 < 2 && r2 < 2 && (x == e * 2 + a * 4 + d
        * 8 + c * 16 + p * 32 + r1 * 64 + r2 * 128) ==> ({
        &&& x as int % 2 == 0
        &&& x as int / 2 % 2 == e
        &&& x as int / 4 % 2 == a
        &&& x as int / 8 % 2 == d
        &&& x as int / 16 % 2 == c
        &&& x as int / 32 % 2 == p
        &&& x as int / 64 % 2 == r1
        &&& x as int / 128 % 2 == r2
    })) by (bit_vector);
    assert(x == e * 2 + a * 4 + d * 8 + c * 16 + p * 32 + r1 * 64 + r2 * 128);
}

/// A byte with the "invalid" bit clear survives the trip through the
/// unpacked fields.
pub proof fn lemma_espi_unpack_pack(v: u8)
    requires
        v as int % 2 == 0,
    ensures
        EfhEspiConfiguration::spec_from_u8(v).spec_to_u8() == v,
{
    let cfg = EfhEspiConfiguration::spec_from_u8(v);
    let e: u8 = if cfg.enable_port_0x80 {
        1
    } else {
        0
    };
    let p: u8 = if cfg.respond_port_0x80 {
        1
    } else {
        0
    };
    assert(e == v as int / 2 % 2 && p == v as int / 32 % 2);
    assert((v as int % 2 == 0 && e == v as int / 2 % 2 && p == v as int / 32 % 2) ==> (v as int / 2
        % 2 % 2 * 0 + e * 2 + (v as int / 4 % 2 % 2) * 4 + (v as int / 8 % 2 % 2) * 8 + (v as int
        / 16 % 2 % 2) * 16 + p * 32 + (v as int / 64 % 2 % 2) * 64 + (v as int / 128 % 2 % 2) * 128
        == v)) by (bit_vector);
}

/// The 64-bit "soft fuse chain" value entry, unpacked into its fields.
#[derive(Debug, PartialEq, Eq, Clone, Copy, Structural)]
pub struct PspSoftFuseChain {
    pub secure_debug_unlock: bool,
    pub reserved_0: bool,
    pub early_secure_debug_unlock: bool,
    pub unlock_token_in_nvram: bool,
    pub force_security_policy_loading_even_if_insecure: bool,
    pub load_diagnostic_bootloader: bool,
    pub disable_psp_debug_prints: bool,
    pub reserved_1: u8,
    pub spi_decoding: PspSoftFuseChain32MiBSpiDecoding,
    pub postcode_decoding: PspSoftFuseChainPostCodeDecoding,
    pub reserved_2: u16,
    pub reserved_3: bool,
    pub skip_mp2_firmware_loading: bool,
    pub postcode_output_control_1byte: bool,
    pub force_recovery_booting: bool,
    pub reserved_4: u32,
}

pub open spec fn spec_bool_bit(b: bool) -> int {
    if b {
        1int
    } else {
        0int
    }
}

impl PspSoftFuseChain {
    pub open spec fn wf(&self) -> bool {
        &&& self.reserved_1 < 0x80
        &&& self.reserved_2 < 0x1000
    }

    /// Bits 0 through 15 of the packed word.
    pub open spec fn spec_low_word(self) -> int {
        spec_bool_bit(self.secure_debug_unlock) + spec_bool_bit(self.reserved_0) * 0x2
            + spec_bool_bit(self.early_secure_debug_unlock) * 0x4 + spec_bool_bit(
            self.unlock_token_in_nvram,
        ) * 0x8 + spec_bool_bit(self.force_security_policy_loading_even_if_insecure) * 0x10
            + spec_bool_bit(self.load_diagnostic_bootloader) * 0x20 + spec_bool_bit(
            self.disable_psp_debug_prints,
        ) * 0x40 + (self.reserved_1 as int % 0x80) * 0x80 + (self.spi_decoding.spec_to_u8() as int
            % 2) * 0x4000 + (self.postcode_decoding.spec_to_u8() as int % 2) * 0x8000
    }

    /// Bits 16 through 31 of the packed word.
    pub open spec fn spec_high_word(self) -> int {
        (self.reserved_2 as int % 0x1000) + spec_bool_bit(self.reserved_3) * 0x1000
            + spec_bool_bit(self.skip_mp2_firmware_loading) * 0x2000 + spec_bool_bit(
            self.postcode_output_control_1byte,
        ) * 0x4000 + spec_bool_bit(self.force_recovery_booting) * 0x8000
    }

    pub open spec fn spec_to_u64(self) -> u64 {
        (self.spec_low_word() + self.spec_high_word() * 0x1_0000 + self.reserved_4 as int
            * 0x1_0000_0000) as u64
    }

    pub open spec fn spec_from_u64(v: u64) -> Self {
        PspSoftFuseChain {
            secure_debug_unlock: v as int % 2 == 1,
            reserved_0: v as int / 0x2 % 2 == 1,
            early_secure_debug_unlock: v as int / 0x4 % 2 == 1,
            unlock_token_in_nvram: v as int / 0x8 % 2 == 1,
            force_security_policy_loading_even_if_insecure: v as int / 0x10 % 2 == 1,
            load_diagnostic_bootloader: v as int / 0x20 % 2 == 1,
            disable_psp_debug_prints: v as int / 0x40 % 2 == 1,
            reserved_1: (v as int / 0x80 % 0x80) as u8,
            spi_decoding: if v as int / 0x4000 % 2 == 1 {
                PspSoftFuseChain32MiBSpiDecoding::UpperHalf
            } else {
                PspSoftFuseChain32MiBSpiDecoding::LowerHalf
            },
            postcode_decoding: if v as int / 0x8000 % 2 == 1 {
                PspSoftFuseChainPostCodeDecoding::Espi
            } else {
                PspSoftFuseChainPostCodeDecoding::Lpc
            },
            reserved_2: (v as int / 0x1_0000 % 0x1000) as u16,
            reserved_3: v as int / 0x1000_0000 % 2 == 1,
            skip_mp2_firmware_loading: v as int / 0x2000_0000 % 2 == 1,
            postcode_output_control_1byte: v as int / 0x4000_0000 % 2 == 1,
            force_recovery_booting: v as int / 0x8000_0000 % 2 == 1,
            reserved_4: (v as int / 0x1_0000_0000) as u32,
        }
    }

    pub fn new() -> (r: Self)
        ensures
            r == Self::spec_from_u64(0),
            r.wf(),
    {
        Self {
            secure_debug_unlock: false,
            reserved_0: false,
            early_secure_debug_unlock: false,
            unlock_token_in_nvram: false,
            force_security_policy_loading_even_if_insecure: false,
            load_diagnostic_bootloader: false,
            disable_psp_debug_prints: false,
            reserved_1: 0,
            spi_decoding: PspSoftFuseChain32MiBSpiDecoding::LowerHalf,
            postcode_decoding: PspSoftFuseChainPostCodeDecoding::Lpc,
            reserved_2: 0,
            reserved_3: false,
            skip_mp2_firmware_loading: false,
            postcode_output_control_1byte: false,
            force_recovery_booting: false,
            reserved_4: 0,
        }
    }

    #[verifier::rlimit(100)]
    fn low_word(&self) -> (r: u16)
        ensures
            r as int == self.spec_low_word(),
    {
        let b0: u16 = if self.secure_debug_unlock {
            1
        } else {
            0
        };
        let b1: u16 = if self.reserved_0 {
            1
        } else {
            0
        };
        let b2: u16 = if self.early_secure_debug_unlock {
            1
        } else {
            0
        };
        let b3: u16 = if self.unlock_token_in_nvram {
            1
        } else {
            0
        };
        let b4: u16 = if self.force_security_policy_loading_even_if_insecure {
            1
        } else {
            0
        };
        let b5: u16 = if self.load_diagnostic_bootloader {
            1
        } else {
            0
        };
        let b6: u16 = if self.disable_psp_debug_prints {
            1
        } else {
            0
        };
        b0 + b1 * 0x2 + b2 * 0x4 + b3 * 0x8 + b4 * 0x10 + b5 * 0x20 + b6 * 0x40 + (self.reserved_1
            % 0x80) as u16 * 0x80 + (self.spi_decoding.to_u8() % 2) as u16 * 0x4000 + (
        self.postcode_decoding.to_u8() % 2) as u16 * 0x8000
    }

    #[verifier::rlimit(100)]
    fn high_word(&self) -> (r: u16)
        ensures
            r as int == self.spec_high_word(),
    {
        let b28: u16 = if self.reserved_3 {
            1
        } else {
            0
        };
        let b29: u16 = if self.skip_mp2_firmware_loading {
            1
        } else {
            0
        };
        let b30: u16 = if self.postcode_output_control_1byte {
            1
        } else {
            0
        };
        let b31: u16 = if self.force_recovery_booting {
            1
        } else {
            0
        };
        (self.reserved_2 % 0x1000) as u16 + b28 * 0x1000 + b29 * 0x2000 + b30 * 0x4000 + b31
            * 0x8000
    }

    pub fn to_u64(self) -> (r: u64)
        ensures
            r == self.spec_to_u64(),
    {
        self.low_word() as u64 + self.high_word() as u64 * 0x1_0000 + self.reserved_4 as u64
            * 0x1_0000_0000
    }

    pub fn from_u64(v: u64) -> (r: Self)
        ensures
            r == Self::spec_from_u64(v),
            r.wf(),
    {
        Self {
            secure_debug_unlock: v % 2 == 1,
            reserved_0: v / 0x2 % 2 == 1,
            early_secure_debug_unlock: v / 0x4 % 2 == 1,
            unlock_token_in_nvram: v / 0x8 % 2 == 1,
            force_security_policy_loading_even_if_insecure: v / 0x10 % 2 == 1,
            load_diagnostic_bootloader: v / 0x20 % 2 == 1,
            disable_psp_debug_prints: v / 0x40 % 2 == 1,
            reserved_1: (v / 0x80 % 0x80) as u8,
            spi_decoding: if v / 0x4000 % 2 == 1 {
                PspSoftFuseChain32MiBSpiDecoding::UpperHalf
            } else {
                PspSoftFuseChain32MiBSpiDecoding::LowerHalf
            },
            postcode_decoding: if v / 0x8000 % 2 == 1 {
                PspSoftFuseChainPostCodeDecoding::Espi
            } else {
                PspSoftFuseChainPostCodeDecoding::Lpc
            },
            reserved_2: (v / 0x1_0000 % 0x1000) as u16,
            reserved_3: v / 0x1000_0000 % 2 == 1,
            skip_mp2_firmware_loading: v / 0x2000_0000 % 2 == 1,
            postcode_output_control_1byte: v / 0x4000_0000 % 2 == 1,
            force_recovery_booting: v / 0x8000_0000 % 2 == 1,
            reserved_4: (v / 0x1_0000_0000) as u32,
        }
    }
}

impl Default for PspSoftFuseChain {
    fn default() -> (r: Self)
        ensures
            r == Self::spec_from_u64(0),
            r.wf(),
    {
        Self::new()
    }
}

impl From<u64> for PspSoftFuseChain {
    fn from(v: u64) -> (r: Self) {
        Self::from_u64(v)
    }
}

impl vstd::std_specs::convert::FromSpecImpl<u64> for PspSoftFuseChain {
    open spec fn obeys_from_spec() -> bool {
        true
    }

    open spec fn from_spec(v: u64) -> Self {
        Self::spec_from_u64(v)
    }
}

impl From<PspSoftFuseChain> for u64 {
    fn from(v: PspSoftFuseChain) -> (r: u64) {
        v.to_u64()
    }
}

impl vstd::std_specs::convert::FromSpecImpl<PspSoftFuseChain> for u64 {
    open spec fn obeys_from_spec() -> bool {
        true
    }

    open spec fn from_spec(v: PspSoftFuseChain) -> u64 {
        v.spec_to_u64()
    }
}

/// Bits 0 through 15 of the packed soft-fuse word decompose into its
/// low-word fields.
proof fn lemma_soft_fuse_bits_low(
    x: u64,
    b0: u8,
    b1: u8,
    b2: u8,
    b3: u8,
    b4: u8,
    b5: u8,
    b6: u8,
    r1: u8,
    sd: u8,
    pd: u8,
    high: u64,
)
    by (bit_vector)
    requires
        b0 < 2,
        b1 < 2,
        b2 < 2,
        b3 < 2,
        b4 < 2,
        b5 < 2,
        b6 < 2,
        r1 < 0x80,
        sd < 2,
        pd < 2,
        high < 0x1_0000_0000_0000,
        x == b0 + b1 * 0x2 + b2 * 0x4 + b3 * 0x8 + b4 * 0x10 + b5 * 0x20 + b6 * 0x40 + r1 * 0x80
            + sd * 0x4000 + pd * 0x8000 + high * 0x1_0000,
    ensures
        x as int % 2 == b0,
        x as int / 0x2 % 2 == b1,
        x as int / 0x4 % 2 == b2,
        x as int / 0x8 % 2 == b3,
        x as int / 0x10 % 2 == b4,
        x as int / 0x20 % 2 == b5,
        x as int / 0x40 % 2 == b6,
        x as int / 0x80 % 0x80 == r1,
        x as int / 0x4000 % 2 == sd,
        x as int / 0x8000 % 2 == pd,
        x as int / 0x1_0000 == high,
{
}

/// Bits 16 and up of the packed soft-fuse word decompose into its
/// high-word and top fields.
proof fn lemma_soft_fuse_bits_high(
    y: u64,
    r2: u16,
    b28: u8,
    b29: u8,
    b30: u8,
    b31: u8,
    r4: u32,
)
    by (bit_vector)
    requires
        r2 < 0x1000,
        b28 < 2,
        b29 < 2,
        b30 < 2,
        b31 < 2,
        y == r2 + b28 * 0x1000 + b29 * 0x2000 + b30 * 0x4000 + b31 * 0x8000 + r4 * 0x1_0000,
    ensures
        y as int % 0x1000 == r2,
        y as int / 0x1000 % 2 == b28,
        y as int / 0x2000 % 2 == b29,
        y as int / 0x4000 % 2 == b30,
        y as int / 0x8000 % 2 == b31,
        y as int / 0x1_0000 == r4,
{
}

/// Well-formed soft-fuse fields survive the trip through the packed word.
#[verifier::rlimit(100)]
pub proof fn lemma_soft_fuse_pack_unpack(f: PspSoftFuseChain)
    requires
        f.wf(),
    ensures
        PspSoftFuseChain::spec_from_u64(f.spec_to_u64()) == f,
{
    let b0: u8 = if f.secure_debug_unlock { 1 } else { 0 };
    let b1: u8 = if f.reserved_0 { 1 } else { 0 };
    let b2: u8 = if f.early_secure_debug_unlock { 1 } else { 0 };
    let b3: u8 = if f.unlock_token_in_nvram { 1 } else { 0 };
    let b4: u8 = if f.force_security_policy_loading_even_if_insecure { 1 } else { 0 };
    let b5: u8 = if f.load_diagnostic_bootloader { 1 } else { 0 };
    let b6: u8 = if f.disable_psp_debug_prints { 1 } else { 0 };
    let r1 = f.reserved_1;
    let sd = f.spi_decoding.spec_to_u8();
    let pd = f.postcode_decoding.spec_to_u8();
    let r2 = f.reserved_2;
    let b28: u8 = if f.reserved_3 { 1 } else { 0 };
    let b29: u8 = if f.skip_mp2_firmware_loading { 1 } else { 0 };
    let b30: u8 = if f.postcode_output_control_1byte { 1 } else { 0 };
    let b31: u8 = if f.force_recovery_booting { 1 } else { 0 };
    let r4 = f.reserved_4;
    let x = f.spec_to_u64();
    let high: u64 = (r2 + b28 * 0x1000 + b29 * 0x2000 + b30 * 0x4000 + b31 * 0x8000 + r4
        * 0x1_0000) as u64;
    assert(f.spec_low_word() == b0 + b1 * 0x2 + b2 * 0x4 + b3 * 0x8 + b4 * 0x10 + b5 * 0x20 + b6
        * 0x40 + r1 * 0x80 + sd * 0x4000 + pd * 0x8000);
    assert(f.spec_high_word() == r2 + b28 * 0x1000 + b29 * 0x2000 + b30 * 0x4000 + b31 * 0x8000);
    assert(x == b0 + b1 * 0x2 + b2 * 0x4 + b3 * 0x8 + b4 * 0x10 + b5 * 0x20 + b6 * 0x40 + r1 * 0x80
        + sd * 0x4000 + pd * 0x8000 + high * 0x1_0000);
    lemma_soft_fuse_bits_low(x, b0, b1, b2, b3, b4, b5, b6, r1, sd, pd, high);
    lemma_soft_fuse_bits_high(high, r2, b28, b29, b30, b31, r4);
    assert(x as int / 0x1_0000 % 0x1000 == r2) by {
        assert(x as int / 0x1_0000 == high);
    };
    assert(x as int / 0x1000_0000 % 2 == b28) by {
        assert(high as int / 0x1000 % 2 == b28);
        assert(x as int / 0x1000_0000 == high as int / 0x1000) by (bit_vector)
            requires
                x as int / 0x1_0000 == high,
        ;
    };
    assert(x as int / 0x2000_0000 % 2 == b29) by {
        assert(high as int / 0x2000 % 2 == b29);
        assert(x as int / 0x2000_0000 == high as int / 0x2000) by (bit_vector)
            requires
                x as int / 0x1_0000 == high,
        ;
    };
    assert(x as int / 0x4000_0000 % 2 == b30) by {
        assert(high as int / 0x4000 % 2 == b30);
        assert(x as int / 0x4000_0000 == high as int / 0x4000) by (bit_vector)
            requires
                x as int / 0x1_0000 == high,
        ;
    };
    assert(x as int / 0x8000_0000 % 2 == b31) by {
        assert(high as int / 0x8000 % 2 == b31);
        assert(x as int / 0x8000_0000 == high as int / 0x8000) by (bit_vector)
            requires
                x as int / 0x1_0000 == high,
        ;
    };
    assert(x as int / 0x1_0000_0000 == r4) by {
        assert(high as int / 0x1_0000 == r4);
        assert(x as int / 0x1_0000_0000 == high as int / 0x1_0000) by (bit_vector)
            requires
                x as int / 0x1_0000 == high,
        ;
    };
}

/// The packed 32-bit attribute word of a PSP directory entry, unpacked.
/// `type_` and `rom_id` are kept raw: the stored byte may name a kind this
/// library does not know.
#[derive(Debug, PartialEq, Eq, Clone, Copy, Structural)]
pub struct PspDirectoryEntryAttrs {
    pub type_: u8,
    pub sub_program: u8,
    pub rom_id: u8,
    pub writable: bool,
    pub instance: u8,
    pub reserved_0: u16,
}

impl PspDirectoryEntryAttrs {
    pub open spec fn wf(&self) -> bool {
        &&& self.rom_id < 4
        &&& self.instance < 0x10
        &&& self.reserved_0 < 0x200
    }

    pub open spec fn spec_to_u32(self) -> u32 {
        (self.type_ as int + self.sub_program as int * 0x100 + (self.rom_id as int % 4) * 0x1_0000
            + spec_bool_bit(self.writable) * 0x4_0000 + (self.instance as int % 0x10) * 0x8_0000 + (
        self.reserved_0 as int % 0x200) * 0x80_0000) as u32
    }

    pub open spec fn spec_from_u32(v: u32) -> Self {
        PspDirectoryEntryAttrs {
            type_: (v as int % 0x100) as u8,
            sub_program: (v as int / 0x100 % 0x100) as u8,
            rom_id: (v as int / 0x1_0000 % 4) as u8,
            writable: v as int / 0x4_0000 % 2 == 1,
            instance: (v as int / 0x8_0000 % 0x10) as u8,
            reserved_0: (v as int / 0x80_0000) as u16,
        }
    }

    pub fn new() -> (r: Self)
        ensures
            r == Self::spec_from_u32(0),
            r.wf(),
    {
        Self { type_: 0, sub_program: 0, rom_id: 0, writable: false, instance: 0, reserved_0: 0 }
    }

    pub fn to_u32(self) -> (r: u32)
        ensures
            r == self.spec_to_u32(),
    {
        self.type_ as u32 + self.sub_program as u32 * 0x100 + (self.rom_id % 4) as u32 * 0x1_0000
            + (if self.writable {
            0x4_0000u32
        } else {
            0u32
        }) + (self.instance % 0x10) as u32 * 0x8_0000 + (self.reserved_0 % 0x200) as u32 * 0x80_0000
    }

    pub fn from_u32(v: u32) -> (r: Self)
        ensures
            r == Self::spec_from_u32(v),
            r.wf(),
    {
        Self {
            type_: (v % 0x100) as u8,
            sub_program: (v / 0x100 % 0x100) as u8,
            rom_id: (v / 0x1_0000 % 4) as u8,
            writable: v / 0x4_0000 % 2 == 1,
            instance: (v / 0x8_0000 % 0x10) as u8,
            reserved_0: (v / 0x80_0000) as u16,
        }
    }
}

/// Well-formed PSP entry attributes survive the trip through the packed
/// word.
pub proof fn lemma_psp_attrs_pack_unpack(a: PspDirectoryEntryAttrs)
    requires
        a.wf(),
    ensures
        PspDirectoryEntryAttrs::spec_from_u32(a.spec_to_u32()) == a,
{
    let t = a.type_;
    let s = a.sub_program;
    let rm = a.rom_id;
    let w: u8 = if a.writable {
        1
    } else {
        0
    };
    let i = a.instance;
    let rs = a.reserved_0;
    let x = a.spec_to_u32();
    assert(rm < 4 && w < 2 && i < 0x10 && rs < 0x200 && (x == t + s * 0x100 + rm * 0x1_0000 + w
        * 0x4_0000 + i * 0x8_0000 + rs * 0x80_0000) ==> ({
        &&& x as int % 0x100 == t
        &&& x as int / 0x100 % 0x100 == s
        &&& x as int / 0x1_0000 % 4 == rm
        &&& x as int / 0x4_0000 % 2 == w
        &&& x as int / 0x8_0000 % 0x10 == i
        &&& x as int / 0x80_0000 == rs
    })) by (bit_vector);
    assert(x == t + s * 0x100 + rm * 0x1_0000 + w * 0x4_0000 + i * 0x8_0000 + rs * 0x80_0000);
}

/// Any packed PSP entry attribute word survives unpacking and repacking.
pub proof fn lemma_psp_attrs_unpack_pack(v: u32)
    ensures
        PspDirectoryEntryAttrs::spec_from_u32(v).spec_to_u32() == v,
        PspDirectoryEntryAttrs::spec_from_u32(v).wf(),
{
    let a = PspDirectoryEntryAttrs::spec_from_u32(v);
    let w: int = spec_bool_bit(a.writable);
    assert(w == v as int / 0x4_0000 % 2);
    assert(v as int % 0x100 % 0x100 + (v as int / 0x100 % 0x100) * 0x100 + (v as int / 0x1_0000 % 4
        % 4) * 0x1_0000 + (v as int / 0x4_0000 % 2) * 0x4_0000 + (v as int / 0x8_0000 % 0x10 % 0x10)
        * 0x8_0000 + (v as int / 0x80_0000 % 0x200) * 0x80_0000 == v) by (bit_vector);
    assert(v as int / 0x80_0000 < 0x200) by (bit_vector);
}

/// The packed 32-bit attribute word of a BHD directory entry, unpacked.
#[derive(Debug, PartialEq, Eq, Clone, Copy, Structural)]
pub struct BhdDirectoryEntryAttrs {
    pub type_: u8,
    pub region_type: u8,
    pub reset_image: bool,
    pub copy_image: bool,
    /// Only useful for region types other than the normal one.
    pub read_only: bool,
    pub compressed: bool,
    pub instance: u8,
    /// A function of AMD family and model; only useful for PMU firmware
    /// and APCB binaries.
    pub sub_program: u8,
    pub rom_id: u8,
    pub reserved_0: u8,
}

impl BhdDirectoryEntryAttrs {
    pub open spec fn wf(&self) -> bool {
        &&& self.instance < 0x10
        &&& self.sub_program < 8
        &&& self.rom_id < 4
        &&& self.reserved_0 < 8
    }

    pub open spec fn spec_to_u32(self) -> u32 {
        (self.type_ as int + self.region_type as int * 0x100 + spec_bool_bit(self.reset_image)
            * 0x1_0000 + spec_bool_bit(self.copy_image) * 0x2_0000 + spec_bool_bit(self.read_only)
            * 0x4_0000 + spec_bool_bit(self.compressed) * 0x8_0000 + (self.instance as int % 0x10)
            * 0x10_0000 + (self.sub_program as int % 8) * 0x100_0000 + (self.rom_id as int % 4)
            * 0x800_0000 + (self.reserved_0 as int % 8) * 0x2000_0000) as u32
    }

    pub open spec fn spec_from_u32(v: u32) -> Self {
        BhdDirectoryEntryAttrs {
            type_: (v as int % 0x100) as u8,
            region_type: (v as int / 0x100 % 0x100) as u8,
            reset_image: v as int / 0x1_0000 % 2 == 1,
            copy_image: v as int / 0x2_0000 % 2 == 1,
            read_only: v as int / 0x4_0000 % 2 == 1,
            compressed: v as int / 0x8_0000 % 2 == 1,
            instance: (v as int / 0x10_0000 % 0x10) as u8,
            sub_program: (v as int / 0x100_0000 % 8) as u8,
            rom_id: (v as int / 0x800_0000 % 4) as u8,
            reserved_0: (v as int / 0x2000_0000) as u8,
        }
    }

    pub fn new() -> (r: Self)
        ensures
            r == Self::spec_from_u32(0),
            r.wf(),
    {
        Self {
            type_: 0,
            region_type: 0,
            reset_image: false,
            copy_image: false,
            read_only: false,
            compressed: false,
            instance: 0,
            sub_program: 0,
            rom_id: 0,
            reserved_0: 0,
        }
    }

    pub fn to_u32(self) -> (r: u32)
        ensures
            r == self.spec_to_u32(),
    {
        self.type_ as u32 + self.region_type as u32 * 0x100 + (if self.reset_image {
            0x1_0000u32
        } else {
            0u32
        }) + (if self.copy_image {
            0x2_0000u32
        } else {
            0u32
        }) + (if self.read_only {
            0x4_0000u32
        } else {
            0u32
        }) + (if self.compressed {
            0x8_0000u32
        } else {
            0u32
        }) + (self.instance % 0x10) as u32 * 0x10_0000 + (self.sub_program % 8) as u32 * 0x100_0000
            + (self.rom_id % 4) as u32 * 0x800_0000 + (self.reserved_0 % 8) as u32 * 0x2000_0000
    }

    pub fn from_u32(v: u32) -> (r: Self)
        ensures
            r == Self::spec_from_u32(v),
            r.wf(),
    {
        Self {
            type_: (v % 0x100) as u8,
            region_type: (v / 0x100 % 0x100) as u8,
            reset_image: v / 0x1_0000 % 2 == 1,
            copy_image: v / 0x2_0000 % 2 == 1,
            read_only: v / 0x4_0000 % 2 == 1,
            compressed: v / 0x8_0000 % 2 == 1,
            instance: (v / 0x10_0000 % 0x10) as u8,
            sub_program: (v / 0x100_0000 % 8) as u8,
            rom_id: (v / 0x800_0000 % 4) as u8,
            reserved_0: (v / 0x2000_0000) as u8,
        }
    }
}

/// Well-formed BHD entry attributes survive the trip through the packed
/// word.
pub proof fn lemma_bhd_attrs_pack_unpack(a: BhdDirectoryEntryAttrs)
    requires
        a.wf(),
    ensures
        BhdDirectoryEntryAttrs::spec_from_u32(a.spec_to_u32()) == a,
{
    let t = a.type_;
    let g = a.region_type;
    let ri: u8 = if a.reset_image {
        1
    } else {
        0
    };
    let ci: u8 = if a.copy_image {
        1
    } else {
        0
    };
    let ro: u8 = if a.read_only {
        1
    } else {
        0
    };
    let cp: u8 = if a.compressed {
        1
    } else {
        0
    };
    let i = a.instance;
    let s = a.sub_program;
    let rm = a.rom_id;
    let rs = a.reserved_0;
    let x = a.spec_to_u32();
    assert(ri < 2 && ci < 2 && ro < 2 && cp < 2 && i < 0x10 && s < 8 && rm < 4 && rs < 8 && (x == t
        + g * 0x100 + ri * 0x1_0000 + ci * 0x2_0000 + ro * 0x4_0000 + cp * 0x8_0000 + i * 0x10_0000
        + s * 0x100_0000 + rm * 0x800_0000 + rs * 0x2000_0000) ==> ({
        &&& x as int % 0x100 == t
        &&& x as int / 0x100 % 0x100 == g
        &&& x as int / 0x1_0000 % 2 == ri
        &&& x as int / 0x2_0000 % 2 == ci
        &&& x as int / 0x4_0000 % 2 == ro
        &&& x as int / 0x8_0000 % 2 == cp
        &&& x as int / 0x10_0000 % 0x10 == i
        &&& x as int / 0x100_0000 % 8 == s
        &&& x as int / 0x800_0000 % 4 == rm
        &&& x as int / 0x2000_0000 == rs
    })) by (bit_vector);
    assert(x == t + g * 0x100 + ri * 0x1_0000 + ci * 0x2_0000 + ro * 0x4_0000 + cp * 0x8_0000 + i
        * 0x10_0000 + s * 0x100_0000 + rm * 0x800_0000 + rs * 0x2000_0000);
}

/// Any packed BHD entry attribute word survives unpacking and repacking.
pub proof fn lemma_bhd_attrs_unpack_pack(v: u32)
    ensures
        BhdDirectoryEntryAttrs::spec_from_u32(v).spec_to_u32() == v,
        BhdDirectoryEntryAttrs::spec_from_u32(v).wf(),
{
    let a = BhdDirectoryEntryAttrs::spec_from_u32(v);
    assert(spec_bool_bit(a.reset_image) == v as int / 0x1_0000 % 2);
    assert(spec_bool_bit(a.copy_image) == v as int / 0x2_0000 % 2);
    assert(spec_bool_bit(a.read_only) == v as int / 0x4_0000 % 2);
    assert(spec_bool_bit(a.compressed) == v as int / 0x8_0000 % 2);
    assert(v as int % 0x100 + (v as int / 0x100 % 0x100) * 0x100 + (v as int / 0x1_0000 % 2)
        * 0x1_0000 + (v as int / 0x2_0000 % 2) * 0x2_0000 + (v as int / 0x4_0000 % 2) * 0x4_0000 + (
    v as int / 0x8_0000 % 2) * 0x8_0000 + (v as int / 0x10_0000 % 0x10 % 0x10) * 0x10_0000 + (
    v as int / 0x100_0000 % 8 % 8) * 0x100_0000 + (v as int / 0x800_0000 % 4 % 4) * 0x800_0000 + (
    v as int / 0x2000_0000 % 8) * 0x2000_0000 == v) by (bit_vector);
    assert(v as int / 0x2000_0000 < 8) by (bit_vector);
}

/// An entry's `internal_size` of `0xFFFF_FFFF` marks the source field as an
/// immediate value rather than a location.
pub const SIZE_VALUE_MARKER: u32 = 0xffff_ffff;

/// A BHD entry's `internal_destination_location` of all ones means: none.
pub const DESTINATION_NONE_MARKER: u64 = 0xffff_ffff_ffff_ffff;

pub const PSP_DIRECTORY_HEADER_SIZE: usize = 16;

pub const PSP_DIRECTORY_ENTRY_SIZE: usize = 16;

pub const BHD_DIRECTORY_HEADER_SIZE: usize = 16;

pub const BHD_DIRECTORY_ENTRY_SIZE: usize = 24;

pub const COMBO_DIRECTORY_HEADER_SIZE: usize = 32;

pub const COMBO_DIRECTORY_ENTRY_SIZE: usize = 16;

pub const EFH_SIZE: usize = 0x52;

/// Compare two four-byte cookies.
pub fn cookie_eq(a: &[u8; 4], b: &[u8; 4]) -> (r: bool)
    ensures
        r == (*a == *b),
{
    let r = a[0] == b[0] && a[1] == b[1] && a[2] == b[2] && a[3] == b[3];
    proof {
        if r {
            assert(*a =~= *b);
        } else {
            if *a == *b {
                assert(a@[0] == b@[0] && a@[1] == b@[1] && a@[2] == b@[2] && a@[3] == b@[3]);
            }
        }
    }
    r
}

/// The header of a first- or second-level PSP directory.
#[derive(Debug, Clone, Copy)]
pub struct PspDirectoryHeader {
    /// b"$PSP" or b"$PL2".
    pub cookie: [u8; 4],
    /// Fletcher-32 over everything after this field, entries included.
    pub checksum: u32,
    pub total_entries: u32,
    pub additional_info: u32,
}

pub open spec fn spec_psp_cookie() -> [u8; 4] {
    [0x24u8, 0x50u8, 0x53u8, 0x50u8]
}

pub open spec fn spec_pl2_cookie() -> [u8; 4] {
    [0x24u8, 0x50u8, 0x4cu8, 0x32u8]
}

pub open spec fn spec_bhd_cookie() -> [u8; 4] {
    [0x24u8, 0x42u8, 0x48u8, 0x44u8]
}

pub open spec fn spec_bl2_cookie() -> [u8; 4] {
    [0x24u8, 0x42u8, 0x4cu8, 0x32u8]
}

pub open spec fn spec_combo_psp_cookie() -> [u8; 4] {
    [0x32u8, 0x50u8, 0x53u8, 0x50u8]
}

pub open spec fn spec_combo_bhd_cookie() -> [u8; 4] {
    [0x32u8, 0x42u8, 0x48u8, 0x44u8]
}

/// A 16-byte directory header layout shared by PSP and BHD directories:
/// cookie, checksum, total_entries, additional_info.
pub open spec fn spec_dir_header_byte(
    cookie: [u8; 4],
    checksum: u32,
    total_entries: u32,
    additional_info: u32,
    i: int,
) -> u8 {
    if i < 4 {
        cookie@[i]
    } else if i < 8 {
        u32_byte(checksum, i - 4)
    } else if i < 12 {
        u32_byte(total_entries, i - 8)
    } else {
        u32_byte(additional_info, i - 12)
    }
}

impl PspDirectoryHeader {
    pub fn first_level_cookie() -> (r: [u8; 4])
        ensures
            r == spec_psp_cookie(),
    {
        [0x24, 0x50, 0x53, 0x50]
    }

    pub fn second_level_cookie() -> (r: [u8; 4])
        ensures
            r == spec_pl2_cookie(),
    {
        [0x24, 0x50, 0x4c, 0x32]
    }

    pub open spec fn spec_cookie_allowed(cookie: [u8; 4]) -> bool {
        cookie == spec_psp_cookie() || cookie == spec_pl2_cookie()
    }

    pub fn cookie_allowed(cookie: &[u8; 4]) -> (r: bool)
        ensures
            r == Self::spec_cookie_allowed(*cookie),
    {
        let psp = Self::first_level_cookie();
        let pl2 = Self::second_level_cookie();
        cookie_eq(cookie, &psp) || cookie_eq(cookie, &pl2)
    }

    pub open spec fn spec_parse(s: Seq<u8>) -> Self {
        PspDirectoryHeader {
            cookie: [s[0], s[1], s[2], s[3]],
            checksum: spec_u32_le(s, 4),
            total_entries: spec_u32_le(s, 8),
            additional_info: spec_u32_le(s, 12),
        }
    }

    pub open spec fn spec_bytes(self) -> Seq<u8> {
        Seq::new(
            16,
            |i: int|
                spec_dir_header_byte(
                    self.cookie,
                    self.checksum,
                    self.total_entries,
                    self.additional_info,
                    i,
                ),
        )
    }

    pub fn parse(buf: &[u8]) -> (r: Self)
        requires
            buf@.len() >= 16,
        ensures
            r == Self::spec_parse(buf@),
    {
        Self {
            cookie: [buf[0], buf[1], buf[2], buf[3]],
            checksum: read_u32_le(buf, 4),
            total_entries: read_u32_le(buf, 8),
            additional_info: read_u32_le(buf, 12),
        }
    }

    pub fn append_bytes(&self, out: &mut Vec<u8>)
        ensures
            final(out)@ == old(out)@ + self.spec_bytes(),
    {
        out.push(self.cookie[0]);
        out.push(self.cookie[1]);
        out.push(self.cookie[2]);
        out.push(self.cookie[3]);
        push_u32_le(out, self.checksum);
        push_u32_le(out, self.total_entries);
        push_u32_le(out, self.additional_info);
        proof {
            assert(final(out)@ =~= old(out)@ + self.spec_bytes());
        }
    }

    pub fn cookie(&self) -> (r: [u8; 4])
        ensures
            r == self.cookie,
    {
        self.cookie
    }

    pub fn set_cookie(&mut self, value: [u8; 4])
        ensures
            *final(self) == (PspDirectoryHeader { cookie: value, ..*old(self) }),
    {
        self.cookie = value;
    }

    pub fn additional_info(&self) -> (r: DirectoryAdditionalInfo)
        ensures
            r == DirectoryAdditionalInfo::spec_from_u32(self.additional_info),
    {
        DirectoryAdditionalInfo::from_u32(self.additional_info)
    }

    pub fn set_additional_info(&mut self, value: DirectoryAdditionalInfo)
        ensures
            *final(self) == (PspDirectoryHeader {
                additional_info: value.spec_to_u32(),
                ..*old(self)
            }),
    {
        self.additional_info = value.to_u32();
    }

    pub fn total_entries(&self) -> (r: u32)
        ensures
            r == self.total_entries,
    {
        self.total_entries
    }

    pub fn set_total_entries(&mut self, value: u32)
        ensures
            *final(self) == (PspDirectoryHeader { total_entries: value, ..*old(self) }),
    {
        self.total_entries = value;
    }

    pub fn checksum(&self) -> (r: u32)
        ensures
            r == self.checksum,
    {
        self.checksum
    }

    pub fn set_checksum(&mut self, value: u32)
        ensures
            *final(self) == (PspDirectoryHeader { checksum: value, ..*old(self) }),
    {
        self.checksum = value;
    }
}

impl Default for PspDirectoryHeader {
    /// The all-invalid header: blank cookie, zero checksum, no entries,
    /// all-ones additional info.
    fn default() -> (r: Self)
        ensures
            r == (PspDirectoryHeader {
                cookie: [0x20u8, 0x20u8, 0x20u8, 0x20u8],
                checksum: 0,
                total_entries: 0,
                additional_info: 0xffff_ffff,
            }),
    {
        Self {
            cookie: [0x20, 0x20, 0x20, 0x20],
            checksum: 0,
            total_entries: 0,
            additional_info: 0xffff_ffff,
        }
    }
}

/// Parsing a serialized PSP directory header gives the header back.
pub proof fn lemma_psp_directory_header_round_trip(h: PspDirectoryHeader)
    ensures
        PspDirectoryHeader::spec_parse(h.spec_bytes()) == h,
{
    let s = h.spec_bytes();
    assert([s[0], s[1], s[2], s[3]] =~= h.cookie);
    lemma_u32_le_round_trip(h.checksum);
    lemma_u32_le_round_trip(h.total_entries);
    lemma_u32_le_round_trip(h.additional_info);
    assert(spec_u32_le(s, 4) == h.checksum) by {
        assert(s.subrange(4, 8) =~= u32_le_bytes(h.checksum));
    };
    assert(spec_u32_le(s, 8) == h.total_entries) by {
        assert(s.subrange(8, 12) =~= u32_le_bytes(h.total_entries));
    };
    assert(spec_u32_le(s, 12) == h.additional_info) by {
        assert(s.subrange(12, 16) =~= u32_le_bytes(h.additional_info));
    };
}

/// The header of a first- or second-level BHD directory.
#[derive(Debug, Clone, Copy)]
pub struct BhdDirectoryHeader {
    /// b"$BHD" or b"$BL2".
    pub cookie: [u8; 4],
    /// Fletcher-32 over everything after this field, entries included.
    pub checksum: u32,
    pub total_entries: u32,
    pub additional_info: u32,
}

impl BhdDirectoryHeader {
    pub fn first_level_cookie() -> (r: [u8; 4])
        ensures
            r == spec_bhd_cookie(),
    {
        [0x24, 0x42, 0x48, 0x44]
    }

    pub fn second_level_cookie() -> (r: [u8; 4])
        ensures
            r == spec_bl2_cookie(),
    {
        [0x24, 0x42, 0x4c, 0x32]
    }

    pub open spec fn spec_cookie_allowed(cookie: [u8; 4]) -> bool {
        cookie == spec_bhd_cookie() || cookie == spec_bl2_cookie()
    }

    pub fn cookie_allowed(cookie: &[u8; 4]) -> (r: bool)
        ensures
            r == Self::spec_cookie_allowed(*cookie),
    {
        let bhd = Self::first_level_cookie();
        let bl2 = Self::second_level_cookie();
        cookie_eq(cookie, &bhd) || cookie_eq(cookie, &bl2)
    }

    pub open spec fn spec_parse(s: Seq<u8>) -> Self {
        BhdDirectoryHeader {
            cookie: [s[0], s[1], s[2], s[3]],
            checksum: spec_u32_le(s, 4),
            total_entries: spec_u32_le(s, 8),
            additional_info: spec_u32_le(s, 12),
        }
    }

    pub open spec fn spec_bytes(self) -> Seq<u8> {
        Seq::new(
            16,
            |i: int|
                spec_dir_header_byte(
                    self.cookie,
                    self.checksum,
                    self.total_entries,
                    self.additional_info,
                    i,
                ),
        )
    }

    pub fn parse(buf: &[u8]) -> (r: Self)
        requires
            buf@.len() >= 16,
        ensures
            r == Self::spec_parse(buf@),
    {
        Self {
            cookie: [buf[0], buf[1], buf[2], buf[3]],
            checksum: read_u32_le(buf, 4),
            total_entries: read_u32_le(buf, 8),
            additional_info: read_u32_le(buf, 12),
        }
    }

    pub fn append_bytes(&self, out: &mut Vec<u8>)
        ensures
            final(out)@ == old(out)@ + self.spec_bytes(),
    {
        out.push(self.cookie[0]);
        out.push(self.cookie[1]);
        out.push(self.cookie[2]);
        out.push(self.cookie[3]);
        push_u32_le(out, self.checksum);
        push_u32_le(out, self.total_entries);
        push_u32_le(out, self.additional_info);
        proof {
            assert(final(out)@ =~= old(out)@ + self.spec_bytes());
        }
    }

    pub fn cookie(&self) -> (r: [u8; 4])
        ensures
            r == self.cookie,
    {
        self.cookie
    }

    pub fn set_cookie(&mut self, value: [u8; 4])
        ensures
            *final(self) == (BhdDirectoryHeader { cookie: value, ..*old(self) }),
    {
        self.cookie = value;
    }

    pub fn additional_info(&self) -> (r: DirectoryAdditionalInfo)
        ensures
            r == DirectoryAdditionalInfo::spec_from_u32(self.additional_info),
    {
        DirectoryAdditionalInfo::from_u32(self.additional_info)
    }

    pub fn set_additional_info(&mut self, value: DirectoryAdditionalInfo)
        ensures
            *final(self) == (BhdDirectoryHeader {
                additional_info: value.spec_to_u32(),
                ..*old(self)
            }),
    {
        self.additional_info = value.to_u32();
    }

    pub fn total_entries(&self) -> (r: u32)
        ensures
            r == self.total_entries,
    {
        self.total_entries
    }

    pub fn set_total_entries(&mut self, value: u32)
        ensures
            *final(self) == (BhdDirectoryHeader { total_entries: value, ..*old(self) }),
    {
        self.total_entries = value;
    }

    pub fn checksum(&self) -> (r: u32)
        ensures
            r == self.checksum,
    {
        self.checksum
    }

    pub fn set_checksum(&mut self, value: u32)
        ensures
            *final(self) == (BhdDirectoryHeader { checksum: value, ..*old(self) }),
    {
        self.checksum = value;
    }
}

impl Default for BhdDirectoryHeader {
    /// The all-invalid header: blank cookie, zero checksum, no entries,
    /// all-ones additional info.
    fn default() -> (r: Self)
        ensures
            r == (BhdDirectoryHeader {
                cookie: [0x20u8, 0x20u8, 0x20u8, 0x20u8],
                checksum: 0,
                total_entries: 0,
                additional_info: 0xffff_ffff,
            }),
    {
        Self {
            cookie: [0x20, 0x20, 0x20, 0x20],
            checksum: 0,
            total_entries: 0,
            additional_info: 0xffff_ffff,
        }
    }
}

/// Parsing a serialized BHD directory header gives the header back.
pub proof fn lemma_bhd_directory_header_round_trip(h: BhdDirectoryHeader)
    ensures
        BhdDirectoryHeader::spec_parse(h.spec_bytes()) == h,
{
    let s = h.spec_bytes();
    assert([s[0], s[1], s[2], s[3]] =~= h.cookie);
    lemma_u32_le_round_trip(h.checksum);
    lemma_u32_le_round_trip(h.total_entries);
    lemma_u32_le_round_trip(h.additional_info);
    assert(spec_u32_le(s, 4) == h.checksum) by {
        assert(s.subrange(4, 8) =~= u32_le_bytes(h.checksum));
    };
    assert(spec_u32_le(s, 8) == h.total_entries) by {
        assert(s.subrange(8, 12) =~= u32_le_bytes(h.total_entries));
    };
    assert(spec_u32_le(s, 12) == h.additional_info) by {
        assert(s.subrange(12, 16) =~= u32_le_bytes(h.additional_info));
    };
}

/// One 16-byte PSP directory entry: attributes, size, source.
/// A size of `SIZE_VALUE_MARKER` makes the source an immediate value.
#[derive(Debug, PartialEq, Eq, Clone, Copy, Structural)]
pub struct PspDirectoryEntry {
    pub attrs: PspDirectoryEntryAttrs,
    pub internal_size: u32,
    /// Value iff size is the marker, otherwise a raw location whose top two
    /// bits may carry a per-entry address mode.
    pub internal_source: u64,
}

impl PspDirectoryEntry {
    pub open spec fn wf(&self) -> bool {
        self.attrs.wf()
    }

    pub open spec fn spec_parse(s: Seq<u8>) -> Self {
        PspDirectoryEntry {
            attrs: PspDirectoryEntryAttrs::spec_from_u32(spec_u32_le(s, 0)),
            internal_size: spec_u32_le(s, 4),
            internal_source: spec_u64_le(s, 8),
        }
    }

    pub open spec fn spec_bytes(self) -> Seq<u8> {
        Seq::new(
            16,
            |i: int|
                if i < 4 {
                    u32_byte(self.attrs.spec_to_u32(), i)
                } else if i < 8 {
                    u32_byte(self.internal_size, i - 4)
                } else {
                    u64_byte(self.internal_source, i - 8)
                },
        )
    }

    pub fn parse(buf: &[u8]) -> (r: Self)
        requires
            buf@.len() >= 16,
        ensures
            r == Self::spec_parse(buf@),
            r.wf(),
    {
        Self {
            attrs: PspDirectoryEntryAttrs::from_u32(read_u32_le(buf, 0)),
            internal_size: read_u32_le(buf, 4),
            internal_source: read_u64_le(buf, 8),
        }
    }

    /// Parse one entry from a slice that holds exactly one entry.
    pub fn from_slice(source: &[u8]) -> (r: Option<Self>)
        ensures
            match r {
                Some(e) => source@.len() == 16 && e == Self::spec_parse(source@) && e.wf(),
                None => source@.len() != 16,
            },
    {
        if source.len() == 16 {
            Some(Self::parse(source))
        } else {
            None
        }
    }

    pub fn append_bytes(&self, out: &mut Vec<u8>)
        ensures
            final(out)@ == old(out)@ + self.spec_bytes(),
    {
        push_u32_le(out, self.attrs.to_u32());
        push_u32_le(out, self.internal_size);
        push_u64_le(out, self.internal_source);
        proof {
            assert(final(out)@ =~= old(out)@ + self.spec_bytes());
        }
    }

    pub fn to_bytes(&self) -> (r: Vec<u8>)
        ensures
            r@ == self.spec_bytes(),
    {
        let mut out: Vec<u8> = Vec::new();
        self.append_bytes(&mut out);
        proof {
            assert(out@ =~= self.spec_bytes());
        }
        out
    }

    pub fn new() -> (r: Self)
        ensures
            r == (PspDirectoryEntry {
                attrs: PspDirectoryEntryAttrs::spec_from_u32(0),
                internal_size: 0,
                internal_source: 0,
            }),
            r.wf(),
    {
        Self { attrs: PspDirectoryEntryAttrs::new(), internal_size: 0, internal_source: 0 }
    }

    /// A value entry of the given kind: the size marker is set and the
    /// source holds `value` verbatim.
    pub fn new_value(type_: PspDirectoryEntryType, value: u64) -> (r: Result<Self>)
        ensures
            match r {
                Ok(e) => {
                    &&& e.attrs == (PspDirectoryEntryAttrs {
                        type_: type_.spec_to_u8(),
                        ..PspDirectoryEntryAttrs::spec_from_u32(0)
                    })
                    &&& e.internal_size == SIZE_VALUE_MARKER
                    &&& e.internal_source == value
                    &&& e.wf()
                },
                Err(_) => false,
            },
    {
        let mut result = Self::new().with_typ(type_);
        result.internal_size = SIZE_VALUE_MARKER;
        result.internal_source = value;
        Ok(result)
    }

    /// The immediate value of a value entry.
    pub fn value(&self) -> (r: Result<u64>)
        ensures
            r == if self.internal_size == SIZE_VALUE_MARKER {
                Ok::<u64, Error>(self.internal_source)
            } else {
                Err::<u64, Error>(Error::EntryTypeMismatch)
            },
    {
        if self.internal_size == SIZE_VALUE_MARKER {
            Ok(self.internal_source)
        } else {
            Err(Error::EntryTypeMismatch)
        }
    }

    /// A payload entry of the given kind, size and source.
    /// The other attributes can be adjusted afterwards with the `with_`
    /// accessors.
    pub fn new_payload(
        directory_address_mode: AddressMode,
        type_: PspDirectoryEntryType,
        size: Option<u32>,
        source: Option<ValueOrLocation>,
    ) -> (r: Result<Self>)
        requires
            size != Some(SIZE_VALUE_MARKER),
        ensures
            match r {
                Ok(e) => {
                    &&& e.attrs == (PspDirectoryEntryAttrs {
                        type_: type_.spec_to_u8(),
                        ..PspDirectoryEntryAttrs::spec_from_u32(0)
                    })
                    &&& e.wf()
                    &&& match source {
                        None => e.internal_source == 0 && e.internal_size == (match size {
                            None => SIZE_VALUE_MARKER,
                            Some(x) => x,
                        }),
                        Some(v) => {
                            &&& spec_set_source_ok(
                                directory_address_mode,
                                (match size {
                                    None => SIZE_VALUE_MARKER,
                                    Some(x) => x,
                                }),
                                v,
                            ) == Some(e.internal_source)
                            &&& e.internal_size == (if v is Value {
                                SIZE_VALUE_MARKER
                            } else {
                                match size {
                                    None => SIZE_VALUE_MARKER,
                                    Some(x) => x,
                                }
                            })
                        },
                    }
                },
                Err(e) => {
                    &&& e == Error::EntryTypeMismatch
                    &&& source matches Some(v) && spec_set_source_ok(
                        directory_address_mode,
                        (match size {
                            None => SIZE_VALUE_MARKER,
                            Some(x) => x,
                        }),
                        v,
                    ) is None
                },
            },
    {
        let mut result = Self::new().with_typ(type_);
        result.set_size(size);
        if let Some(x) = source {
            match result.set_source(directory_address_mode, x) {
                Ok(()) => {},
                Err(e) => {
                    return Err(e);
                },
            }
        }
        Ok(result)
    }

    /// Decode the source field under the given directory address mode.
    pub fn source(&self, directory_address_mode: AddressMode) -> (r: Result<ValueOrLocation>)
        ensures
            match r {
                Ok(v) => spec_entry_source(directory_address_mode, self.internal_size, self.internal_source)
                    == Some(v),
                Err(e) => {
                    &&& e == Error::DirectoryPayloadRangeCheck
                    &&& spec_entry_source(
                        directory_address_mode,
                        self.internal_size,
                        self.internal_source,
                    ) is None
                },
            },
    {
        let source = self.internal_source;
        let size = self.internal_size;
        if size == SIZE_VALUE_MARKER {
            Ok(ValueOrLocation::Value(source))
        } else {
            ValueOrLocation::new_from_raw_location(directory_address_mode, source)
        }
    }

    /// Encode `value` into the source field. Note: storing a `Value` also
    /// sets the size to the value marker.
    pub fn set_source(&mut self, directory_address_mode: AddressMode, value: ValueOrLocation) -> (r:
        Result<()>)
        ensures
            match r {
                Ok(_) => {
                    &&& spec_set_source_ok(
                        directory_address_mode,
                        old(self).internal_size,
                        value,
                    ) == Some(final(self).internal_source)
                    &&& final(self).internal_size == (if value is Value {
                        SIZE_VALUE_MARKER
                    } else {
                        old(self).internal_size
                    })
                    &&& final(self).attrs == old(self).attrs
                },
                Err(e) => {
                    &&& e == Error::EntryTypeMismatch
                    &&& *final(self) == *old(self)
                    &&& spec_set_source_ok(
                        directory_address_mode,
                        old(self).internal_size,
                        value,
                    ) is None
                },
            },
    {
        match value {
            ValueOrLocation::Value(v) => {
                self.internal_size = SIZE_VALUE_MARKER;
                self.internal_source = v;
                Ok(())
            },
            x => {
                match x.try_into_raw_location(directory_address_mode) {
                    Ok(v) => {
                        self.internal_source = v;
                        Ok(())
                    },
                    Err(e) => Err(e),
                }
            },
        }
    }

    pub fn size(&self) -> (r: Option<u32>)
        ensures
            r == (if self.internal_size == SIZE_VALUE_MARKER {
                Option::<u32>::None
            } else {
                Some(self.internal_size)
            }),
    {
        if self.internal_size == SIZE_VALUE_MARKER {
            None
        } else {
            Some(self.internal_size)
        }
    }

    pub fn set_size(&mut self, value: Option<u32>)
        requires
            value != Some(SIZE_VALUE_MARKER),
        ensures
            *final(self) == (PspDirectoryEntry {
                internal_size: (match value {
                    None => SIZE_VALUE_MARKER,
                    Some(x) => x,
                }),
                ..*old(self)
            }),
    {
        self.internal_size = match value {
            None => SIZE_VALUE_MARKER,
            Some(x) => x,
        };
    }

    pub fn typ_or_err(&self) -> (r: Result<PspDirectoryEntryType>)
        ensures
            r == (match PspDirectoryEntryType::spec_from_u8(self.attrs.type_) {
                Some(t) => Ok::<PspDirectoryEntryType, Error>(t),
                None => Err::<PspDirectoryEntryType, Error>(Error::EntryTypeMismatch),
            }),
    {
        match PspDirectoryEntryType::from_u8(self.attrs.type_) {
            Some(t) => Ok(t),
            None => Err(Error::EntryTypeMismatch),
        }
    }

    pub fn set_typ(&mut self, value: PspDirectoryEntryType)
        ensures
            final(self).attrs == (PspDirectoryEntryAttrs {
                type_: value.spec_to_u8(),
                ..old(self).attrs
            }),
            final(self).internal_size == old(self).internal_size,
            final(self).internal_source == old(self).internal_source,
    {
        self.attrs.type_ = value.to_u8();
    }

    pub fn with_typ(self, value: PspDirectoryEntryType) -> (r: Self)
        ensures
            r == (PspDirectoryEntry {
                attrs: PspDirectoryEntryAttrs { type_: value.spec_to_u8(), ..self.attrs },
                ..self
            }),
    {
        let mut result = self;
        result.set_typ(value);
        result
    }

    pub fn sub_program(&self) -> (r: u8)
        ensures
            r == self.attrs.sub_program,
    {
        self.attrs.sub_program
    }

    pub fn set_sub_program(&mut self, value: u8)
        ensures
            final(self).attrs == (PspDirectoryEntryAttrs { sub_program: value, ..old(self).attrs }),
            final(self).internal_size == old(self).internal_size,
            final(self).internal_source == old(self).internal_source,
    {
        self.attrs.sub_program = value;
    }

    pub fn with_sub_program(self, value: u8) -> (r: Self)
        ensures
            r == (PspDirectoryEntry {
                attrs: PspDirectoryEntryAttrs { sub_program: value, ..self.attrs },
                ..self
            }),
    {
        let mut result = self;
        result.set_sub_program(value);
        result
    }

    pub fn instance(&self) -> (r: u8)
        ensures
            r == self.attrs.instance,
    {
        self.attrs.instance
    }

    pub fn set_instance(&mut self, value: u8)
        requires
            value < 0x10,
        ensures
            final(self).attrs == (PspDirectoryEntryAttrs { instance: value, ..old(self).attrs }),
            final(self).internal_size == old(self).internal_size,
            final(self).internal_source == old(self).internal_source,
    {
        self.attrs.instance = value;
    }

    pub fn with_instance(self, value: u8) -> (r: Self)
        requires
            value < 0x10,
        ensures
            r == (PspDirectoryEntry {
                attrs: PspDirectoryEntryAttrs { instance: value, ..self.attrs },
                ..self
            }),
    {
        let mut result = self;
        result.set_instance(value);
        result
    }

    pub fn writable(&self) -> (r: bool)
        ensures
            r == self.attrs.writable,
    {
        self.attrs.writable
    }

    pub fn set_writable(&mut self, value: bool)
        ensures
            final(self).attrs == (PspDirectoryEntryAttrs { writable: value, ..old(self).attrs }),
            final(self).internal_size == old(self).internal_size,
            final(self).internal_source == old(self).internal_source,
    {
        self.attrs.writable = value;
    }

    pub fn rom_id_or_err(&self) -> (r: Result<PspDirectoryRomId>)
        ensures
            r == (match PspDirectoryRomId::spec_from_u8(self.attrs.rom_id) {
                Some(t) => Ok::<PspDirectoryRomId, Error>(t),
                None => Err::<PspDirectoryRomId, Error>(Error::EntryTypeMismatch),
            }),
    {
        match PspDirectoryRomId::from_u8(self.attrs.rom_id) {
            Some(t) => Ok(t),
            None => Err(Error::EntryTypeMismatch),
        }
    }

    pub fn set_rom_id(&mut self, value: PspDirectoryRomId)
        ensures
            final(self).attrs == (PspDirectoryEntryAttrs {
                rom_id: value.spec_to_u8(),
                ..old(self).attrs
            }),
            final(self).internal_size == old(self).internal_size,
            final(self).internal_source == old(self).internal_source,
    {
        self.attrs.rom_id = value.to_u8();
    }
}

impl Default for PspDirectoryEntry {
    fn default() -> (r: Self)
        ensures
            r == (PspDirectoryEntry {
                attrs: PspDirectoryEntryAttrs::spec_from_u32(0),
                internal_size: 0,
                internal_source: 0,
            }),
            r.wf(),
    {
        Self::new()
    }
}

/// What an entry's source field decodes to: an immediate value where the
/// size holds the marker, otherwise a location under the directory's
/// address mode.
pub open spec fn spec_entry_source(
    directory_address_mode: AddressMode,
    internal_size: u32,
    internal_source: u64,
) -> Option<ValueOrLocation> {
    if internal_size == SIZE_VALUE_MARKER {
        Some(ValueOrLocation::Value(internal_source))
    } else {
        spec_location_of_raw(directory_address_mode, internal_source)
    }
}

/// The raw source word that storing `value` leaves in an entry, if storing
/// succeeds.
pub open spec fn spec_set_source_ok(
    directory_address_mode: AddressMode,
    internal_size: u32,
    value: ValueOrLocation,
) -> Option<u64> {
    match value {
        ValueOrLocation::Value(v) => Some(v),
        _ => spec_raw_of_location(directory_address_mode, value),
    }
}

/// Parsing a serialized PSP directory entry gives the entry back, for
/// well-formed attribute fields.
pub proof fn lemma_psp_directory_entry_round_trip(e: PspDirectoryEntry)
    requires
        e.wf(),
    ensures
        PspDirectoryEntry::spec_parse(e.spec_bytes()) == e,
{
    let s = e.spec_bytes();
    lemma_u32_le_round_trip(e.attrs.spec_to_u32());
    lemma_u32_le_round_trip(e.internal_size);
    lemma_u64_le_round_trip(e.internal_source);
    lemma_psp_attrs_pack_unpack(e.attrs);
    assert(spec_u32_le(s, 0) == e.attrs.spec_to_u32()) by {
        assert(s.subrange(0, 4) =~= u32_le_bytes(e.attrs.spec_to_u32()));
    };
    assert(spec_u32_le(s, 4) == e.internal_size) by {
        assert(s.subrange(4, 8) =~= u32_le_bytes(e.internal_size));
    };
    assert(spec_u64_le(s, 8) == e.internal_source) by {
        assert(s.subrange(8, 16) =~= u64_le_bytes(e.internal_source));
    };
}

/// One 24-byte BHD directory entry: attributes, size, source, and an
/// optional destination address in main memory.
#[derive(Debug, PartialEq, Eq, Clone, Copy, Structural)]
pub struct BhdDirectoryEntry {
    pub attrs: BhdDirectoryEntryAttrs,
    pub internal_size: u32,
    /// Value (or nothing) iff size is the marker, otherwise a raw location
    /// whose top two bits may carry a per-entry address mode.
    pub internal_source: u64,
    /// All ones: none.
    pub internal_destination_location: u64,
}

impl BhdDirectoryEntry {
    pub open spec fn wf(&self) -> bool {
        self.attrs.wf()
    }

    pub open spec fn spec_parse(s: Seq<u8>) -> Self {
        BhdDirectoryEntry {
            attrs: BhdDirectoryEntryAttrs::spec_from_u32(spec_u32_le(s, 0)),
            internal_size: spec_u32_le(s, 4),
            internal_source: spec_u64_le(s, 8),
            internal_destination_location: spec_u64_le(s, 16),
        }
    }

    pub open spec fn spec_bytes(self) -> Seq<u8> {
        Seq::new(
            24,
            |i: int|
                if i < 4 {
                    u32_byte(self.attrs.spec_to_u32(), i)
                } else if i < 8 {
                    u32_byte(self.internal_size, i - 4)
                } else if i < 16 {
                    u64_byte(self.internal_source, i - 8)
                } else {
                    u64_byte(self.internal_destination_location, i - 16)
                },
        )
    }

    pub fn parse(buf: &[u8]) -> (r: Self)
        requires
            buf@.len() >= 24,
        ensures
            r == Self::spec_parse(buf@),
            r.wf(),
    {
        Self {
            attrs: BhdDirectoryEntryAttrs::from_u32(read_u32_le(buf, 0)),
            internal_size: read_u32_le(buf, 4),
            internal_source: read_u64_le(buf, 8),
            internal_destination_location: read_u64_le(buf, 16),
        }
    }

    /// Parse one entry from a slice that holds exactly one entry.
    pub fn from_slice(source: &[u8]) -> (r: Option<Self>)
        ensures
            match r {
                Some(e) => source@.len() == 24 && e == Self::spec_parse(source@) && e.wf(),
                None => source@.len() != 24,
            },
    {
        if source.len() == 24 {
            Some(Self::parse(source))
        } else {
            None
        }
    }

    pub fn append_bytes(&self, out: &mut Vec<u8>)
        ensures
            final(out)@ == old(out)@ + self.spec_bytes(),
    {
        push_u32_le(out, self.attrs.to_u32());
        push_u32_le(out, self.internal_size);
        push_u64_le(out, self.internal_source);
        push_u64_le(out, self.internal_destination_location);
        proof {
            assert(final(out)@ =~= old(out)@ + self.spec_bytes());
        }
    }

    pub fn to_bytes(&self) -> (r: Vec<u8>)
        ensures
            r@ == self.spec_bytes(),
    {
        let mut out: Vec<u8> = Vec::new();
        self.append_bytes(&mut out);
        proof {
            assert(out@ =~= self.spec_bytes());
        }
        out
    }

    pub fn new() -> (r: Self)
        ensures
            r == (BhdDirectoryEntry {
                attrs: BhdDirectoryEntryAttrs::spec_from_u32(0),
                internal_size: 0,
                internal_source: 0,
                internal_destination_location: DESTINATION_NONE_MARKER,
            }),
            r.wf(),
    {
        Self {
            attrs: BhdDirectoryEntryAttrs::new(),
            internal_size: 0,
            internal_source: 0,
            internal_destination_location: DESTINATION_NONE_MARKER,
        }
    }

    pub fn destination_location(&self) -> (r: Option<u64>)
        ensures
            r == (if self.internal_destination_location == DESTINATION_NONE_MARKER {
                Option::<u64>::None
            } else {
                Some(self.internal_destination_location)
            }),
    {
        if self.internal_destination_location == DESTINATION_NONE_MARKER {
            None
        } else {
            Some(self.internal_destination_location)
        }
    }

    pub(crate) fn with_internal_destination_location(self, value: u64) -> (r: Self)
        ensures
            r == (BhdDirectoryEntry { internal_destination_location: value, ..self }),
    {
        let mut result = self;
        result.internal_destination_location = value;
        result
    }

    /// A payload entry of the given kind, size, source and destination.
    /// A given source of `None` leaves the entry a value entry.
    pub fn new_payload(
        directory_address_mode: AddressMode,
        type_: BhdDirectoryEntryType,
        size: Option<u32>,
        source: Option<ValueOrLocation>,
        destination_location: Option<u64>,
    ) -> (r: Result<Self>)
        requires
            size != Some(SIZE_VALUE_MARKER),
        ensures
            match r {
                Ok(e) => {
                    &&& e.attrs == (BhdDirectoryEntryAttrs {
                        type_: type_.spec_to_u8(),
                        ..BhdDirectoryEntryAttrs::spec_from_u32(0)
                    })
                    &&& e.wf()
                    &&& destination_location matches Some(d) ==> d != DESTINATION_NONE_MARKER
                        && e.internal_destination_location == d
                    &&& destination_location is None ==> e.internal_destination_location
                        == DESTINATION_NONE_MARKER
                    &&& match source {
                        None => e.internal_size == SIZE_VALUE_MARKER && e.internal_source == 0,
                        Some(v) => {
                            &&& spec_set_source_ok(
                                directory_address_mode,
                                (match size {
                                    None => SIZE_VALUE_MARKER,
                                    Some(x) => x,
                                }),
                                v,
                            ) == Some(e.internal_source)
                            &&& e.internal_size == (match size {
                                None => SIZE_VALUE_MARKER,
                                Some(x) => x,
                            })
                        },
                    }
                },
                Err(err) => {
                    &&& err == Error::EntryTypeMismatch
                    &&& ({
                        ||| destination_location == Some(DESTINATION_NONE_MARKER)
                        ||| (source matches Some(v) && spec_set_source_ok(
                            directory_address_mode,
                            (match size {
                                None => SIZE_VALUE_MARKER,
                                Some(x) => x,
                            }),
                            v,
                        ) is None)
                        ||| (source matches Some(v) && v is Value && size is Some)
                    })
                },
            },
    {
        let dest: u64 = match destination_location {
            None => DESTINATION_NONE_MARKER,
            Some(x) => {
                if x == DESTINATION_NONE_MARKER {
                    return Err(Error::EntryTypeMismatch);
                }
                x
            },
        };
        let mut result = Self::new().with_typ(type_).with_internal_destination_location(dest);
        result.set_size(size);
        if let Some(x) = source {
            match result.set_source(directory_address_mode, x) {
                Ok(()) => {},
                Err(e) => {
                    return Err(e);
                },
            }
        } else {
            result.set_size(None);
        }
        Ok(result)
    }

    /// Decode the source field under the given directory address mode.
    pub fn source(&self, directory_address_mode: AddressMode) -> (r: Result<ValueOrLocation>)
        ensures
            match r {
                Ok(v) => spec_entry_source(directory_address_mode, self.internal_size, self.internal_source)
                    == Some(v),
                Err(e) => {
                    &&& e == Error::DirectoryPayloadRangeCheck
                    &&& spec_entry_source(
                        directory_address_mode,
                        self.internal_size,
                        self.internal_source,
                    ) is None
                },
            },
    {
        let size = self.internal_size;
        let source = self.internal_source;
        if size == SIZE_VALUE_MARKER {
            Ok(ValueOrLocation::Value(source))
        } else {
            ValueOrLocation::new_from_raw_location(directory_address_mode, source)
        }
    }

    /// Encode `value` into the source field. A `Value` is only accepted
    /// where the entry already is a value entry.
    pub fn set_source(&mut self, directory_address_mode: AddressMode, value: ValueOrLocation) -> (r:
        Result<()>)
        ensures
            match r {
                Ok(_) => {
                    &&& (value is Value ==> old(self).internal_size == SIZE_VALUE_MARKER)
                    &&& spec_set_source_ok(
                        directory_address_mode,
                        old(self).internal_size,
                        value,
                    ) == Some(final(self).internal_source)
                    &&& final(self).internal_size == old(self).internal_size
                    &&& final(self).attrs == old(self).attrs
                    &&& final(self).internal_destination_location == old(
                        self,
                    ).internal_destination_location
                },
                Err(e) => {
                    &&& e == Error::EntryTypeMismatch
                    &&& *final(self) == *old(self)
                    &&& ({
                        ||| (value is Value && old(self).internal_size != SIZE_VALUE_MARKER)
                        ||| spec_set_source_ok(
                            directory_address_mode,
                            old(self).internal_size,
                            value,
                        ) is None
                    })
                },
            },
    {
        match value {
            ValueOrLocation::Value(v) => {
                if self.internal_size == SIZE_VALUE_MARKER {
                    self.internal_source = v;
                    Ok(())
                } else {
                    Err(Error::EntryTypeMismatch)
                }
            },
            x => {
                match x.try_into_raw_location(directory_address_mode) {
                    Ok(v) => {
                        self.internal_source = v;
                        Ok(())
                    },
                    Err(e) => Err(e),
                }
            },
        }
    }

    pub fn size(&self) -> (r: Option<u32>)
        ensures
            r == (if self.internal_size == SIZE_VALUE_MARKER {
                Option::<u32>::None
            } else {
                Some(self.internal_size)
            }),
    {
        if self.internal_size == SIZE_VALUE_MARKER {
            None
        } else {
            Some(self.internal_size)
        }
    }

    pub fn set_size(&mut self, value: Option<u32>)
        requires
            value != Some(SIZE_VALUE_MARKER),
        ensures
            *final(self) == (BhdDirectoryEntry {
                internal_size: (match value {
                    None => SIZE_VALUE_MARKER,
                    Some(x) => x,
                }),
                ..*old(self)
            }),
    {
        self.internal_size = match value {
            None => SIZE_VALUE_MARKER,
            Some(x) => x,
        };
    }

    pub fn typ_or_err(&self) -> (r: Result<BhdDirectoryEntryType>)
        ensures
            r == (match BhdDirectoryEntryType::spec_from_u8(self.attrs.type_) {
                Some(t) => Ok::<BhdDirectoryEntryType, Error>(t),
                None => Err::<BhdDirectoryEntryType, Error>(Error::EntryTypeMismatch),
            }),
    {
        match BhdDirectoryEntryType::from_u8(self.attrs.type_) {
            Some(t) => Ok(t),
            None => Err(Error::EntryTypeMismatch),
        }
    }

    pub fn set_typ(&mut self, value: BhdDirectoryEntryType)
        ensures
            *final(self) == (BhdDirectoryEntry {
                attrs: BhdDirectoryEntryAttrs { type_: value.spec_to_u8(), ..old(self).attrs },
                ..*old(self)
            }),
    {
        self.attrs.type_ = value.to_u8();
    }

    pub fn with_typ(self, value: BhdDirectoryEntryType) -> (r: Self)
        ensures
            r == (BhdDirectoryEntry {
                attrs: BhdDirectoryEntryAttrs { type_: value.spec_to_u8(), ..self.attrs },
                ..self
            }),
    {
        let mut result = self;
        result.set_typ(value);
        result
    }

    pub fn region_type_or_err(&self) -> (r: Result<BhdDirectoryEntryRegionType>)
        ensures
            r == (match BhdDirectoryEntryRegionType::spec_from_u8(self.attrs.region_type) {
                Some(t) => Ok::<BhdDirectoryEntryRegionType, Error>(t),
                None => Err::<BhdDirectoryEntryRegionType, Error>(Error::EntryTypeMismatch),
            }),
    {
        match BhdDirectoryEntryRegionType::from_u8(self.attrs.region_type) {
            Some(t) => Ok(t),
            None => Err(Error::EntryTypeMismatch),
        }
    }

    pub fn set_region_type(&mut self, value: BhdDirectoryEntryRegionType)
        ensures
            *final(self) == (BhdDirectoryEntry {
                attrs: BhdDirectoryEntryAttrs {
                    region_type: value.spec_to_u8(),
                    ..old(self).attrs
                },
                ..*old(self)
            }),
    {
        self.attrs.region_type = value.to_u8();
    }

    pub fn reset_image(&self) -> (r: bool)
        ensures
            r == self.attrs.reset_image,
    {
        self.attrs.reset_image
    }

    pub fn set_reset_image(&mut self, value: bool)
        ensures
            *final(self) == (BhdDirectoryEntry {
                attrs: BhdDirectoryEntryAttrs { reset_image: value, ..old(self).attrs },
                ..*old(self)
            }),
    {
        self.attrs.reset_image = value;
    }

    pub fn with_reset_image(self, value: bool) -> (r: Self)
        ensures
            r == (BhdDirectoryEntry {
                attrs: BhdDirectoryEntryAttrs { reset_image: value, ..self.attrs },
                ..self
            }),
    {
        let mut result = self;
        result.set_reset_image(value);
        result
    }

    pub fn copy_image(&self) -> (r: bool)
        ensures
            r == self.attrs.copy_image,
    {
        self.attrs.copy_image
    }

    pub fn set_copy_image(&mut self, value: bool)
        ensures
            *final(self) == (BhdDirectoryEntry {
                attrs: BhdDirectoryEntryAttrs { copy_image: value, ..old(self).attrs },
                ..*old(self)
            }),
    {
        self.attrs.copy_image = value;
    }

    pub fn with_copy_image(self, value: bool) -> (r: Self)
        ensures
            r == (BhdDirectoryEntry {
                attrs: BhdDirectoryEntryAttrs { copy_image: value, ..self.attrs },
                ..self
            }),
    {
        let mut result = self;
        result.set_copy_image(value);
        result
    }

    pub fn read_only(&self) -> (r: bool)
        ensures
            r == self.attrs.read_only,
    {
        self.attrs.read_only
    }

    pub fn set_read_only(&mut self, value: bool)
        ensures
            *final(self) == (BhdDirectoryEntry {
                attrs: BhdDirectoryEntryAttrs { read_only: value, ..old(self).attrs },
                ..*old(self)
            }),
    {
        self.attrs.read_only = value;
    }

    pub fn compressed(&self) -> (r: bool)
        ensures
            r == self.attrs.compressed,
    {
        self.attrs.compressed
    }

    pub fn set_compressed(&mut self, value: bool)
        ensures
            *final(self) == (BhdDirectoryEntry {
                attrs: BhdDirectoryEntryAttrs { compressed: value, ..old(self).attrs },
                ..*old(self)
            }),
    {
        self.attrs.compressed = value;
    }

    pub fn instance(&self) -> (r: u8)
        ensures
            r == self.attrs.instance,
    {
        self.attrs.instance
    }

    pub fn set_instance(&mut self, value: u8)
        requires
            value < 0x10,
        ensures
            *final(self) == (BhdDirectoryEntry {
                attrs: BhdDirectoryEntryAttrs { instance: value, ..old(self).attrs },
                ..*old(self)
            }),
    {
        self.attrs.instance = value;
    }

    pub fn with_instance(self, value: u8) -> (r: Self)
        requires
            value < 0x10,
        ensures
            r == (BhdDirectoryEntry {
                attrs: BhdDirectoryEntryAttrs { instance: value, ..self.attrs },
                ..self
            }),
    {
        let mut result = self;
        result.set_instance(value);
        result
    }

    pub fn sub_program(&self) -> (r: u8)
        ensures
            r == self.attrs.sub_program,
    {
        self.attrs.sub_program
    }

    pub fn set_sub_program(&mut self, value: u8)
        requires
            value < 8,
        ensures
            *final(self) == (BhdDirectoryEntry {
                attrs: BhdDirectoryEntryAttrs { sub_program: value, ..old(self).attrs },
                ..*old(self)
            }),
    {
        self.attrs.sub_program = value;
    }

    pub fn rom_id_or_err(&self) -> (r: Result<BhdDirectoryRomId>)
        ensures
            r == (match BhdDirectoryRomId::spec_from_u8(self.attrs.rom_id) {
                Some(t) => Ok::<BhdDirectoryRomId, Error>(t),
                None => Err::<BhdDirectoryRomId, Error>(Error::EntryTypeMismatch),
            }),
    {
        match BhdDirectoryRomId::from_u8(self.attrs.rom_id) {
            Some(t) => Ok(t),
            None => Err(Error::EntryTypeMismatch),
        }
    }

    pub fn set_rom_id(&mut self, value: BhdDirectoryRomId)
        ensures
            *final(self) == (BhdDirectoryEntry {
                attrs: BhdDirectoryEntryAttrs { rom_id: value.spec_to_u8(), ..old(self).attrs },
                ..*old(self)
            }),
    {
        self.attrs.rom_id = value.to_u8();
    }
}

impl Default for BhdDirectoryEntry {
    fn default() -> (r: Self)
        ensures
            r == (BhdDirectoryEntry {
                attrs: BhdDirectoryEntryAttrs::spec_from_u32(0),
                internal_size: 0,
                internal_source: 0,
                internal_destination_location: DESTINATION_NONE_MARKER,
            }),
            r.wf(),
    {
        Self::new()
    }
}

/// Parsing a serialized BHD directory entry gives the entry back, for
/// well-formed attribute fields.
pub proof fn lemma_bhd_directory_entry_round_trip(e: BhdDirectoryEntry)
    requires
        e.wf(),
    ensures
        BhdDirectoryEntry::spec_parse(e.spec_bytes()) == e,
{
    let s = e.spec_bytes();
    lemma_u32_le_round_trip(e.attrs.spec_to_u32());
    lemma_u32_le_round_trip(e.internal_size);
    lemma_u64_le_round_trip(e.internal_source);
    lemma_u64_le_round_trip(e.internal_destination_location);
    lemma_bhd_attrs_pack_unpack(e.attrs);
    assert(spec_u32_le(s, 0) == e.attrs.spec_to_u32()) by {
        assert(s.subrange(0, 4) =~= u32_le_bytes(e.attrs.spec_to_u32()));
    };
    assert(spec_u32_le(s, 4) == e.internal_size) by {
        assert(s.subrange(4, 8) =~= u32_le_bytes(e.internal_size));
    };
    assert(spec_u64_le(s, 8) == e.internal_source) by {
        assert(s.subrange(8, 16) =~= u64_le_bytes(e.internal_source));
    };
    assert(spec_u64_le(s, 16) == e.internal_destination_location) by {
        assert(s.subrange(16, 24) =~= u64_le_bytes(e.internal_destination_location));
    };
}

/// The selector of a combo directory entry: match by PSP id or by chip
/// family id.
#[derive(Debug, PartialEq, Eq, Clone, Copy, Structural)]
#[non_exhaustive]
pub enum ComboDirectoryEntryFilter {
    PspId(u32),
    ChipFamilyId(u32),
}

/// One 16-byte combo directory entry: a filter key/value pair and the
/// location of the directory it selects.
#[derive(Debug, PartialEq, Eq, Clone, Copy, Structural)]
pub struct ComboDirectoryEntry {
    /// 0: PSP id; 1: chip family id.
    pub internal_key: u32,
    pub internal_value: u32,
    pub internal_source: u64,
}

impl ComboDirectoryEntry {
    pub open spec fn spec_parse(s: Seq<u8>) -> Self {
        ComboDirectoryEntry {
            internal_key: spec_u32_le(s, 0),
            internal_value: spec_u32_le(s, 4),
            internal_source: spec_u64_le(s, 8),
        }
    }

    pub open spec fn spec_bytes(self) -> Seq<u8> {
        Seq::new(
            16,
            |i: int|
                if i < 4 {
                    u32_byte(self.internal_key, i)
                } else if i < 8 {
                    u32_byte(self.internal_value, i - 4)
                } else {
                    u64_byte(self.internal_source, i - 8)
                },
        )
    }

    pub fn parse(buf: &[u8]) -> (r: Self)
        requires
            buf@.len() >= 16,
        ensures
            r == Self::spec_parse(buf@),
    {
        Self {
            internal_key: read_u32_le(buf, 0),
            internal_value: read_u32_le(buf, 4),
            internal_source: read_u64_le(buf, 8),
        }
    }

    /// Parse one entry from a slice that holds exactly one entry.
    pub fn from_slice(source: &[u8]) -> (r: Option<Self>)
        ensures
            match r {
                Some(e) => source@.len() == 16 && e == Self::spec_parse(source@),
                None => source@.len() != 16,
            },
    {
        if source.len() == 16 {
            Some(Self::parse(source))
        } else {
            None
        }
    }

    pub fn append_bytes(&self, out: &mut Vec<u8>)
        ensures
            final(out)@ == old(out)@ + self.spec_bytes(),
    {
        push_u32_le(out, self.internal_key);
        push_u32_le(out, self.internal_value);
        push_u64_le(out, self.internal_source);
        proof {
            assert(final(out)@ =~= old(out)@ + self.spec_bytes());
        }
    }

    pub fn to_bytes(&self) -> (r: Vec<u8>)
        ensures
            r@ == self.spec_bytes(),
    {
        let mut out: Vec<u8> = Vec::new();
        self.append_bytes(&mut out);
        proof {
            assert(out@ =~= self.spec_bytes());
        }
        out
    }

    pub fn new() -> (r: Self)
        ensures
            r == (ComboDirectoryEntry { internal_key: 0, internal_value: 0, internal_source: 0 }),
    {
        Self { internal_key: 0, internal_value: 0, internal_source: 0 }
    }

    /// Decode the source field under the given directory address mode.
    /// Combo entries never hold immediate values.
    pub fn source(&self, directory_address_mode: AddressMode) -> (r: Result<ValueOrLocation>)
        ensures
            match r {
                Ok(v) => spec_location_of_raw(directory_address_mode, self.internal_source)
                    == Some(v),
                Err(e) => {
                    &&& e == Error::DirectoryPayloadRangeCheck
                    &&& spec_location_of_raw(directory_address_mode, self.internal_source) is None
                },
            },
    {
        ValueOrLocation::new_from_raw_location(directory_address_mode, self.internal_source)
    }

    pub fn set_source(&mut self, directory_address_mode: AddressMode, value: ValueOrLocation) -> (r:
        Result<()>)
        ensures
            match r {
                Ok(_) => {
                    &&& !(value is Value)
                    &&& spec_raw_of_location(directory_address_mode, value) == Some(
                        final(self).internal_source,
                    )
                    &&& final(self).internal_key == old(self).internal_key
                    &&& final(self).internal_value == old(self).internal_value
                },
                Err(e) => {
                    &&& e == Error::EntryTypeMismatch
                    &&& *final(self) == *old(self)
                    &&& (value is Value || spec_raw_of_location(
                        directory_address_mode,
                        value,
                    ) is None)
                },
            },
    {
        match value {
            ValueOrLocation::Value(_) => Err(Error::EntryTypeMismatch),
            x => {
                match x.try_into_raw_location(directory_address_mode) {
                    Ok(v) => {
                        self.internal_source = v;
                        Ok(())
                    },
                    Err(e) => Err(e),
                }
            },
        }
    }

    /// Combo directory entries carry no size.
    pub fn size(&self) -> (r: Option<u32>)
        ensures
            r is None,
    {
        None
    }

    pub fn filter(&self) -> (r: Result<ComboDirectoryEntryFilter>)
        ensures
            r == (if self.internal_key == 0 {
                Ok::<ComboDirectoryEntryFilter, Error>(
                    ComboDirectoryEntryFilter::PspId(self.internal_value),
                )
            } else if self.internal_key == 1 {
                Ok::<ComboDirectoryEntryFilter, Error>(
                    ComboDirectoryEntryFilter::ChipFamilyId(self.internal_value),
                )
            } else {
                Err::<ComboDirectoryEntryFilter, Error>(Error::DirectoryTypeMismatch)
            }),
    {
        let key = self.internal_key;
        let value = self.internal_value;
        match key {
            0 => Ok(ComboDirectoryEntryFilter::PspId(value)),
            1 => Ok(ComboDirectoryEntryFilter::ChipFamilyId(value)),
            _ => Err(Error::DirectoryTypeMismatch),
        }
    }

    pub fn set_filter(&mut self, value: ComboDirectoryEntryFilter)
        ensures
            final(self).internal_source == old(self).internal_source,
            match value {
                ComboDirectoryEntryFilter::PspId(v) => final(self).internal_key == 0 && final(
                    self
                ).internal_value == v,
                ComboDirectoryEntryFilter::ChipFamilyId(v) => final(self).internal_key == 1
                    && final(self).internal_value == v,
            },
    {
        match value {
            ComboDirectoryEntryFilter::PspId(value) => {
                self.internal_key = 0;
                self.internal_value = value;
            },
            ComboDirectoryEntryFilter::ChipFamilyId(value) => {
                self.internal_key = 1;
                self.internal_value = value;
            },
        }
    }
}

impl Default for ComboDirectoryEntry {
    fn default() -> (r: Self)
        ensures
            r == (ComboDirectoryEntry { internal_key: 0, internal_value: 0, internal_source: 0 }),
    {
        Self::new()
    }
}

/// Setting a filter and reading it back gives the filter: the two filter
/// kinds are stored under distinct keys.
pub proof fn lemma_combo_filter_round_trip(e: ComboDirectoryEntry, f: ComboDirectoryEntryFilter)
    ensures
        ({
            let key = match f {
                ComboDirectoryEntryFilter::PspId(_) => 0u32,
                ComboDirectoryEntryFilter::ChipFamilyId(_) => 1u32,
            };
            let value = match f {
                ComboDirectoryEntryFilter::PspId(v) => v,
                ComboDirectoryEntryFilter::ChipFamilyId(v) => v,
            };
            let stored = ComboDirectoryEntry { internal_key: key, internal_value: value, ..e };
            (stored.internal_key == 0 ==> f == ComboDirectoryEntryFilter::PspId(
                stored.internal_value,
            )) && (stored.internal_key == 1 ==> f == ComboDirectoryEntryFilter::ChipFamilyId(
                stored.internal_value,
            ))
        }),
{
}

/// Parsing a serialized combo directory entry gives the entry back.
pub proof fn lemma_combo_directory_entry_round_trip(e: ComboDirectoryEntry)
    ensures
        ComboDirectoryEntry::spec_parse(e.spec_bytes()) == e,
{
    let s = e.spec_bytes();
    lemma_u32_le_round_trip(e.internal_key);
    lemma_u32_le_round_trip(e.internal_value);
    lemma_u64_le_round_trip(e.internal_source);
    assert(spec_u32_le(s, 0) == e.internal_key) by {
        assert(s.subrange(0, 4) =~= u32_le_bytes(e.internal_key));
    };
    assert(spec_u32_le(s, 4) == e.internal_value) by {
        assert(s.subrange(4, 8) =~= u32_le_bytes(e.internal_value));
    };
    assert(spec_u64_le(s, 8) == e.internal_source) by {
        assert(s.subrange(8, 16) =~= u64_le_bytes(e.internal_source));
    };
}

/// The 32-byte header of a combo directory.
#[derive(Debug, Clone, Copy)]
pub struct ComboDirectoryHeader {
    /// b"2PSP" or b"2BHD".
    pub cookie: [u8; 4],
    /// Fletcher-32 over everything after this field, entries included.
    pub checksum: u32,
    pub total_entries: u32,
    pub lookup_mode: u32,
    pub reserved: [u8; 16],
}

impl ComboDirectoryHeader {
    pub fn psp_cookie() -> (r: [u8; 4])
        ensures
            r == spec_combo_psp_cookie(),
    {
        [0x32, 0x50, 0x53, 0x50]
    }

    pub fn bhd_cookie() -> (r: [u8; 4])
        ensures
            r == spec_combo_bhd_cookie(),
    {
        [0x32, 0x42, 0x48, 0x44]
    }

    pub open spec fn spec_cookie_allowed(cookie: [u8; 4]) -> bool {
        cookie == spec_combo_psp_cookie() || cookie == spec_combo_bhd_cookie()
    }

    pub fn cookie_allowed(cookie: &[u8; 4]) -> (r: bool)
        ensures
            r == Self::spec_cookie_allowed(*cookie),
    {
        let psp = Self::psp_cookie();
        let bhd = Self::bhd_cookie();
        cookie_eq(cookie, &psp) || cookie_eq(cookie, &bhd)
    }

    pub open spec fn spec_parse(s: Seq<u8>) -> Self {
        ComboDirectoryHeader {
            cookie: [s[0], s[1], s[2], s[3]],
            checksum: spec_u32_le(s, 4),
            total_entries: spec_u32_le(s, 8),
            lookup_mode: spec_u32_le(s, 12),
            reserved: [
                s[16],
                s[17],
                s[18],
                s[19],
                s[20],
                s[21],
                s[22],
                s[23],
                s[24],
                s[25],
                s[26],
                s[27],
                s[28],
                s[29],
                s[30],
                s[31],
            ],
        }
    }

    pub open spec fn spec_bytes(self) -> Seq<u8> {
        Seq::new(
            32,
            |i: int|
                if i < 4 {
                    self.cookie@[i]
                } else if i < 8 {
                    u32_byte(self.checksum, i - 4)
                } else if i < 12 {
                    u32_byte(self.total_entries, i - 8)
                } else if i < 16 {
                    u32_byte(self.lookup_mode, i - 12)
                } else {
                    self.reserved@[i - 16]
                },
        )
    }

    pub fn parse(buf: &[u8]) -> (r: Self)
        requires
            buf@.len() >= 32,
        ensures
            r == Self::spec_parse(buf@),
    {
        Self {
            cookie: [buf[0], buf[1], buf[2], buf[3]],
            checksum: read_u32_le(buf, 4),
            total_entries: read_u32_le(buf, 8),
            lookup_mode: read_u32_le(buf, 12),
            reserved: [
                buf[16],
                buf[17],
                buf[18],
                buf[19],
                buf[20],
                buf[21],
                buf[22],
                buf[23],
                buf[24],
                buf[25],
                buf[26],
                buf[27],
                buf[28],
                buf[29],
                buf[30],
                buf[31],
            ],
        }
    }

    pub fn append_bytes(&self, out: &mut Vec<u8>)
        ensures
            final(out)@ == old(out)@ + self.spec_bytes(),
    {
        out.push(self.cookie[0]);
        out.push(self.cookie[1]);
        out.push(self.cookie[2]);
        out.push(self.cookie[3]);
        push_u32_le(out, self.checksum);
        push_u32_le(out, self.total_entries);
        push_u32_le(out, self.lookup_mode);
        let mut i: usize = 0;
        while i < 16
            invariant
                i <= 16,
                out@ == old(out)@ + self.spec_bytes().take(16 + i as int),
            decreases 16 - i,
        {
            out.push(self.reserved[i]);
            proof {
                assert(out@ =~= old(out)@ + self.spec_bytes().take(16 + i as int + 1));
            }
            i = i + 1;
        }
        proof {
            assert(final(out)@ =~= old(out)@ + self.spec_bytes());
        }
    }

    pub fn new(cookie: [u8; 4]) -> (r: Result<Self>)
        ensures
            match r {
                Ok(h) => {
                    &&& Self::spec_cookie_allowed(cookie)
                    &&& h.cookie == cookie
                    &&& h.checksum == 0
                    &&& h.total_entries == 0
                    &&& h.lookup_mode == 0
                    &&& h.reserved@ =~= Seq::new(16, |i: int| 0u8)
                },
                Err(e) => {
                    &&& e == Error::DirectoryTypeMismatch
                    &&& !Self::spec_cookie_allowed(cookie)
                },
            },
    {
        if Self::cookie_allowed(&cookie) {
            Ok(
                Self {
                    cookie,
                    checksum: 0,
                    total_entries: 0,
                    lookup_mode: 0,
                    reserved: [0, 0, 0, 0, 0, 0, 0, 0, 0, 0, 0, 0, 0, 0, 0, 0],
                },
            )
        } else {
            Err(Error::DirectoryTypeMismatch)
        }
    }

    pub fn cookie(&self) -> (r: [u8; 4])
        ensures
            r == self.cookie,
    {
        self.cookie
    }

    pub fn set_cookie(&mut self, value: [u8; 4])
        ensures
            *final(self) == (ComboDirectoryHeader { cookie: value, ..*old(self) }),
    {
        self.cookie = value;
    }

    /// Combo directories carry no additional-info word.
    pub fn additional_info(&self) -> (r: DirectoryAdditionalInfo)
        ensures
            r == DirectoryAdditionalInfo::spec_from_u32(0),
    {
        DirectoryAdditionalInfo::from_u32(0)
    }

    pub fn set_additional_info(&mut self, value: DirectoryAdditionalInfo)
        ensures
            *final(self) == *old(self),
    {
    }

    pub fn lookup_mode(&self) -> (r: Result<ComboDirectoryLookupMode>)
        ensures
            r == (if self.lookup_mode == 0 {
                Ok::<ComboDirectoryLookupMode, Error>(ComboDirectoryLookupMode::BruteForce)
            } else if self.lookup_mode == 1 {
                Ok::<ComboDirectoryLookupMode, Error>(ComboDirectoryLookupMode::MatchId)
            } else {
                Err::<ComboDirectoryLookupMode, Error>(Error::Marshal)
            }),
    {
        if self.lookup_mode == 0 {
            Ok(ComboDirectoryLookupMode::BruteForce)
        } else if self.lookup_mode == 1 {
            Ok(ComboDirectoryLookupMode::MatchId)
        } else {
            Err(Error::Marshal)
        }
    }

    pub fn set_lookup_mode(&mut self, value: ComboDirectoryLookupMode)
        ensures
            *final(self) == (ComboDirectoryHeader {
                lookup_mode: (match value {
                    ComboDirectoryLookupMode::BruteForce => 0u32,
                    ComboDirectoryLookupMode::MatchId => 1u32,
                }),
                ..*old(self)
            }),
    {
        self.lookup_mode = match value {
            ComboDirectoryLookupMode::BruteForce => 0,
            ComboDirectoryLookupMode::MatchId => 1,
        };
    }

    pub fn total_entries(&self) -> (r: u32)
        ensures
            r == self.total_entries,
    {
        self.total_entries
    }

    pub fn set_total_entries(&mut self, value: u32)
        ensures
            *final(self) == (ComboDirectoryHeader { total_entries: value, ..*old(self) }),
    {
        self.total_entries = value;
    }

    pub fn checksum(&self) -> (r: u32)
        ensures
            r == self.checksum,
    {
        self.checksum
    }

    pub fn set_checksum(&mut self, value: u32)
        ensures
            *final(self) == (ComboDirectoryHeader { checksum: value, ..*old(self) }),
    {
        self.checksum = value;
    }
}

impl Default for ComboDirectoryHeader {
    /// The all-invalid header, with a placeholder cookie.
    fn default() -> (r: Self)
        ensures
            r.cookie == [0x46u8, 0x49u8, 0x58u8, 0x4du8],
            r.checksum == 0,
            r.total_entries == 0,
            r.lookup_mode == 0,
            r.reserved@ =~= Seq::new(16, |i: int| 0u8),
    {
        Self {
            cookie: [0x46, 0x49, 0x58, 0x4d],
            checksum: 0,
            total_entries: 0,
            lookup_mode: 0,
            reserved: [0, 0, 0, 0, 0, 0, 0, 0, 0, 0, 0, 0, 0, 0, 0, 0],
        }
    }
}

/// Parsing a serialized combo directory header gives the header back.
pub proof fn lemma_combo_directory_header_round_trip(h: ComboDirectoryHeader)
    ensures
        ComboDirectoryHeader::spec_parse(h.spec_bytes()) == h,
{
    let s = h.spec_bytes();
    assert([s[0], s[1], s[2], s[3]] =~= h.cookie);
    lemma_u32_le_round_trip(h.checksum);
    lemma_u32_le_round_trip(h.total_entries);
    lemma_u32_le_round_trip(h.lookup_mode);
    assert(spec_u32_le(s, 4) == h.checksum) by {
        assert(s.subrange(4, 8) =~= u32_le_bytes(h.checksum));
    };
    assert(spec_u32_le(s, 8) == h.total_entries) by {
        assert(s.subrange(8, 12) =~= u32_le_bytes(h.total_entries));
    };
    assert(spec_u32_le(s, 12) == h.lookup_mode) by {
        assert(s.subrange(12, 16) =~= u32_le_bytes(h.lookup_mode));
    };
    assert(ComboDirectoryHeader::spec_parse(s).reserved =~= h.reserved);
}

/// A three-byte SPI mode slot of the EFS: read mode, fast speed, and a
/// vendor-specific mode byte. `0xFF` in every byte means: unset.
#[derive(Debug, PartialEq, Eq, Clone, Copy, Structural)]
pub struct EfhSpiModeBytes {
    pub read_mode: u8,
    pub fast_speed: u8,
    pub micron_mode: u8,
}

impl EfhSpiModeBytes {
    pub open spec fn spec_all_unset(self) -> bool {
        self.read_mode == 0xff && self.fast_speed == 0xff && self.micron_mode == 0xff
    }

    pub fn all_unset(&self) -> (r: bool)
        ensures
            r == self.spec_all_unset(),
    {
        self.read_mode == 0xff && self.fast_speed == 0xff && self.micron_mode == 0xff
    }

    pub fn unset() -> (r: Self)
        ensures
            r == (EfhSpiModeBytes { read_mode: 0xffu8, fast_speed: 0xffu8, micron_mode: 0xffu8 }),
    {
        Self { read_mode: 0xff, fast_speed: 0xff, micron_mode: 0xff }
    }
}

#[derive(Debug, PartialEq, Eq, Clone, Copy, Structural)]
pub struct EfhBulldozerSpiMode {
    pub read_mode: SpiReadMode,
    pub fast_speed_new: SpiFastSpeedNew,
}

#[derive(Debug, PartialEq, Eq, Clone, Copy, Structural)]
pub struct EfhNaplesSpiMode {
    pub read_mode: SpiReadMode,
    pub fast_speed_new: SpiFastSpeedNew,
    pub micron_mode: SpiNaplesMicronMode,
}

#[derive(Debug, PartialEq, Eq, Clone, Copy, Structural)]
pub struct EfhRomeSpiMode {
    pub read_mode: SpiReadMode,
    pub fast_speed_new: SpiFastSpeedNew,
    pub micron_mode: SpiRomeMicronMode,
}

/// The `efs_generations` mask a freshly created EFS carries for a
/// processor generation. Bit 0 set also means: all pointers are MMIO
/// addresses (the pre-Rome convention).
pub open spec fn spec_efs_generations_for(generation: ProcessorGeneration) -> u32 {
    match generation {
        ProcessorGeneration::Naples => 0xffff_ffffu32,
        ProcessorGeneration::Rome => 0xffff_fffeu32,
        ProcessorGeneration::Milan => 0xffff_fffcu32,
        ProcessorGeneration::Genoa => 0xffff_fffeu32,
        ProcessorGeneration::Turin => 0xffff_ffe3u32,
    }
}

/// Whether an EFS with the given `efs_generations` mask serves the given
/// processor generation.
pub open spec fn spec_compatible_with_generation(
    generations: u32,
    generation: ProcessorGeneration,
) -> bool {
    match generation {
        // Naples had no generation flags and no plain offsets: all bits set.
        ProcessorGeneration::Naples => generations == 0xffff_ffffu32,
        // Rome had no generation flags either; bit 0 clear marks the
        // second-generation EFS.
        ProcessorGeneration::Rome => generations == 0xffff_fffeu32,
        ProcessorGeneration::Milan | ProcessorGeneration::Genoa => generations % 2 == 0,
        ProcessorGeneration::Turin => generations as int / 8 % 2 == 0,
    }
}

/// Bit 0 clear: the EFS uses plain flash offsets rather than MMIO
/// addresses.
pub open spec fn spec_second_gen_efs(generations: u32) -> bool {
    generations % 2 == 0
}

/// Whether the EFS stores MMIO addresses in its pointer slots. Newer
/// family masks (Turin) do not clear bit 0 yet still expect offsets.
pub open spec fn spec_physical_address_mode(generations: u32) -> bool {
    if generations == spec_efs_generations_for(ProcessorGeneration::Turin) {
        false
    } else {
        generations % 2 == 1
    }
}

/// The Embedded Firmware Structure: the root record the boot ROM finds by
/// probing fixed offsets. All pointer fields are little-endian 32-bit
/// words on the flash.
#[derive(Debug, Clone, Copy)]
pub struct Efh {
    /// Must be 0x55AA55AA.
    pub signature: u32,
    pub imc_fw_location: u32,
    pub gbe_fw_location: u32,
    pub xhci_fw_location: u32,
    pub psp_directory_table_location_naples: u32,
    pub psp_directory_table_location_zen: u32,
    /// BHD pointer for models whose high nibble is 0 (Naples).
    pub bhd_directory_table_naples: u32,
    /// BHD pointer for models whose high nibble is 1 (Raven Ridge).
    pub bhd_directory_table_raven_ridge: u32,
    /// BHD pointer for models whose high nibble is 3 (Rome).
    pub bhd_directory_table_rome: u32,
    /// Bit k clear: compatible with generation k. Bit 0 also tells MMIO
    /// pointers (set) from plain offsets (clear).
    pub efs_generations: u32,
    /// BHD (or combo BHD) pointer for Milan and newer.
    pub bhd_directory_table_milan: u32,
    pub padding: u32,
    pub promontory_firmware_location: u32,
    pub low_power_promontory_firmware_location: u32,
    pub padding2_0: u32,
    pub padding2_1: u32,
    /// Excavator, Merlin Falcon.
    pub spi_mode_bulldozer: EfhSpiModeBytes,
    /// Naples and Raven Ridge.
    pub spi_mode_zen_naples: EfhSpiModeBytes,
    pub reserved1: u8,
    pub spi_mode_zen_rome: EfhSpiModeBytes,
    pub reserved2: u8,
    pub reserved3: u8,
    pub vendor_id: u16,
    pub vendor_board_id: u16,
    /// Bit 0 set: invalid/absent.
    pub espi0_configuration: u8,
    /// Bit 0 set: invalid/absent.
    pub espi1_configuration: u8,
}

pub open spec fn spec_parse_efh(s: Seq<u8>) -> Efh {
    Efh {
        signature: spec_u32_le(s, 0x00),
        imc_fw_location: spec_u32_le(s, 0x04),
        gbe_fw_location: spec_u32_le(s, 0x08),
        xhci_fw_location: spec_u32_le(s, 0x0c),
        psp_directory_table_location_naples: spec_u32_le(s, 0x10),
        psp_directory_table_location_zen: spec_u32_le(s, 0x14),
        bhd_directory_table_naples: spec_u32_le(s, 0x18),
        bhd_directory_table_raven_ridge: spec_u32_le(s, 0x1c),
        bhd_directory_table_rome: spec_u32_le(s, 0x20),
        efs_generations: spec_u32_le(s, 0x24),
        bhd_directory_table_milan: spec_u32_le(s, 0x28),
        padding: spec_u32_le(s, 0x2c),
        promontory_firmware_location: spec_u32_le(s, 0x30),
        low_power_promontory_firmware_location: spec_u32_le(s, 0x34),
        padding2_0: spec_u32_le(s, 0x38),
        padding2_1: spec_u32_le(s, 0x3c),
        spi_mode_bulldozer: EfhSpiModeBytes {
            read_mode: s[0x40],
            fast_speed: s[0x41],
            micron_mode: s[0x42],
        },
        spi_mode_zen_naples: EfhSpiModeBytes {
            read_mode: s[0x43],
            fast_speed: s[0x44],
            micron_mode: s[0x45],
        },
        reserved1: s[0x46],
        spi_mode_zen_rome: EfhSpiModeBytes {
            read_mode: s[0x47],
            fast_speed: s[0x48],
            micron_mode: s[0x49],
        },
        reserved2: s[0x4a],
        reserved3: s[0x4b],
        vendor_id: spec_u16_le(s, 0x4c),
        vendor_board_id: spec_u16_le(s, 0x4e),
        espi0_configuration: s[0x50],
        espi1_configuration: s[0x51],
    }
}

pub open spec fn spec_efh_byte(e: Efh, i: int) -> u8 {
    if i < 0x04 {
        u32_byte(e.signature, i)
    } else if i < 0x08 {
        u32_byte(e.imc_fw_location, i - 0x04)
    } else if i < 0x0c {
        u32_byte(e.gbe_fw_location, i - 0x08)
    } else if i < 0x10 {
        u32_byte(e.xhci_fw_location, i - 0x0c)
    } else if i < 0x14 {
        u32_byte(e.psp_directory_table_location_naples, i - 0x10)
    } else if i < 0x18 {
        u32_byte(e.psp_directory_table_location_zen, i - 0x14)
    } else if i < 0x1c {
        u32_byte(e.bhd_directory_table_naples, i - 0x18)
    } else if i < 0x20 {
        u32_byte(e.bhd_directory_table_raven_ridge, i - 0x1c)
    } else if i < 0x24 {
        u32_byte(e.bhd_directory_table_rome, i - 0x20)
    } else if i < 0x28 {
        u32_byte(e.efs_generations, i - 0x24)
    } else if i < 0x2c {
        u32_byte(e.bhd_directory_table_milan, i - 0x28)
    } else if i < 0x30 {
        u32_byte(e.padding, i - 0x2c)
    } else if i < 0x34 {
        u32_byte(e.promontory_firmware_location, i - 0x30)
    } else if i < 0x38 {
        u32_byte(e.low_power_promontory_firmware_location, i - 0x34)
    } else if i < 0x3c {
        u32_byte(e.padding2_0, i - 0x38)
    } else if i < 0x40 {
        u32_byte(e.padding2_1, i - 0x3c)
    } else if i == 0x40 {
        e.spi_mode_bulldozer.read_mode
    } else if i == 0x41 {
        e.spi_mode_bulldozer.fast_speed
    } else if i == 0x42 {
        e.spi_mode_bulldozer.micron_mode
    } else if i == 0x43 {
        e.spi_mode_zen_naples.read_mode
    } else if i == 0x44 {
        e.spi_mode_zen_naples.fast_speed
    } else if i == 0x45 {
        e.spi_mode_zen_naples.micron_mode
    } else if i == 0x46 {
        e.reserved1
    } else if i == 0x47 {
        e.spi_mode_zen_rome.read_mode
    } else if i == 0x48 {
        e.spi_mode_zen_rome.fast_speed
    } else if i == 0x49 {
        e.spi_mode_zen_rome.micron_mode
    } else if i == 0x4a {
        e.reserved2
    } else if i == 0x4b {
        e.reserved3
    } else if i < 0x4e {
        u16_byte(e.vendor_id, i - 0x4c)
    } else if i < 0x50 {
        u16_byte(e.vendor_board_id, i - 0x4e)
    } else if i == 0x50 {
        e.espi0_configuration
    } else {
        e.espi1_configuration
    }
}

pub open spec fn spec_efh_bytes(e: Efh) -> Seq<u8> {
    Seq::new(0x52, |i: int| spec_efh_byte(e, i))
}

impl Efh {
    pub fn parse(buf: &[u8]) -> (r: Self)
        requires
            buf@.len() >= 0x52,
        ensures
            r == spec_parse_efh(buf@),
    {
        Self {
            signature: read_u32_le(buf, 0x00),
            imc_fw_location: read_u32_le(buf, 0x04),
            gbe_fw_location: read_u32_le(buf, 0x08),
            xhci_fw_location: read_u32_le(buf, 0x0c),
            psp_directory_table_location_naples: read_u32_le(buf, 0x10),
            psp_directory_table_location_zen: read_u32_le(buf, 0x14),
            bhd_directory_table_naples: read_u32_le(buf, 0x18),
            bhd_directory_table_raven_ridge: read_u32_le(buf, 0x1c),
            bhd_directory_table_rome: read_u32_le(buf, 0x20),
            efs_generations: read_u32_le(buf, 0x24),
            bhd_directory_table_milan: read_u32_le(buf, 0x28),
            padding: read_u32_le(buf, 0x2c),
            promontory_firmware_location: read_u32_le(buf, 0x30),
            low_power_promontory_firmware_location: read_u32_le(buf, 0x34),
            padding2_0: read_u32_le(buf, 0x38),
            padding2_1: read_u32_le(buf, 0x3c),
            spi_mode_bulldozer: EfhSpiModeBytes {
                read_mode: buf[0x40],
                fast_speed: buf[0x41],
                micron_mode: buf[0x42],
            },
            spi_mode_zen_naples: EfhSpiModeBytes {
                read_mode: buf[0x43],
                fast_speed: buf[0x44],
                micron_mode: buf[0x45],
            },
            reserved1: buf[0x46],
            spi_mode_zen_rome: EfhSpiModeBytes {
                read_mode: buf[0x47],
                fast_speed: buf[0x48],
                micron_mode: buf[0x49],
            },
            reserved2: buf[0x4a],
            reserved3: buf[0x4b],
            vendor_id: crate::marshal::read_u16_le(buf, 0x4c),
            vendor_board_id: crate::marshal::read_u16_le(buf, 0x4e),
            espi0_configuration: buf[0x50],
            espi1_configuration: buf[0x51],
        }
    }

    #[verifier::rlimit(100)]
    pub fn append_bytes(&self, out: &mut Vec<u8>)
        ensures
            final(out)@ == old(out)@ + spec_efh_bytes(*self),
    {
        push_u32_le(out, self.signature);
        push_u32_le(out, self.imc_fw_location);
        push_u32_le(out, self.gbe_fw_location);
        push_u32_le(out, self.xhci_fw_location);
        push_u32_le(out, self.psp_directory_table_location_naples);
        push_u32_le(out, self.psp_directory_table_location_zen);
        push_u32_le(out, self.bhd_directory_table_naples);
        push_u32_le(out, self.bhd_directory_table_raven_ridge);
        push_u32_le(out, self.bhd_directory_table_rome);
        push_u32_le(out, self.efs_generations);
        push_u32_le(out, self.bhd_directory_table_milan);
        push_u32_le(out, self.padding);
        push_u32_le(out, self.promontory_firmware_location);
        push_u32_le(out, self.low_power_promontory_firmware_location);
        push_u32_le(out, self.padding2_0);
        push_u32_le(out, self.padding2_1);
        out.push(self.spi_mode_bulldozer.read_mode);
        out.push(self.spi_mode_bulldozer.fast_speed);
        out.push(self.spi_mode_bulldozer.micron_mode);
        out.push(self.spi_mode_zen_naples.read_mode);
        out.push(self.spi_mode_zen_naples.fast_speed);
        out.push(self.spi_mode_zen_naples.micron_mode);
        out.push(self.reserved1);
        out.push(self.spi_mode_zen_rome.read_mode);
        out.push(self.spi_mode_zen_rome.fast_speed);
        out.push(self.spi_mode_zen_rome.micron_mode);
        out.push(self.reserved2);
        out.push(self.reserved3);
        crate::marshal::push_u16_le(out, self.vendor_id);
        crate::marshal::push_u16_le(out, self.vendor_board_id);
        out.push(self.espi0_configuration);
        out.push(self.espi1_configuration);
        proof {
            assert(final(out)@ =~= old(out)@ + spec_efh_bytes(*self));
        }
    }

    pub fn to_bytes(&self) -> (r: Vec<u8>)
        ensures
            r@ == spec_efh_bytes(*self),
    {
        let mut out: Vec<u8> = Vec::new();
        self.append_bytes(&mut out);
        proof {
            assert(out@ =~= spec_efh_bytes(*self));
        }
        out
    }

    pub fn signature(&self) -> (r: Result<u32>)
        ensures
            r == Ok::<u32, Error>(self.signature),
    {
        Ok(self.signature)
    }

    pub fn psp_directory_table_location_naples(&self) -> (r: Result<u32>)
        ensures
            r == Ok::<u32, Error>(self.psp_directory_table_location_naples),
    {
        Ok(self.psp_directory_table_location_naples)
    }

    pub fn psp_directory_table_location_zen(&self) -> (r: Result<u32>)
        ensures
            r == Ok::<u32, Error>(self.psp_directory_table_location_zen),
    {
        Ok(self.psp_directory_table_location_zen)
    }

    pub fn set_psp_directory_table_location_zen(&mut self, value: u32)
        ensures
            *final(self) == (Efh { psp_directory_table_location_zen: value, ..*old(self) }),
    {
        self.psp_directory_table_location_zen = value;
    }

    pub fn bhd_directory_table_milan(&self) -> (r: Result<u32>)
        ensures
            r == Ok::<u32, Error>(self.bhd_directory_table_milan),
    {
        Ok(self.bhd_directory_table_milan)
    }

    pub fn set_bhd_directory_table_milan(&mut self, value: u32)
        ensures
            *final(self) == (Efh { bhd_directory_table_milan: value, ..*old(self) }),
    {
        self.bhd_directory_table_milan = value;
    }

    pub fn set_bhd_directory_table_rome(&mut self, value: u32)
        ensures
            *final(self) == (Efh { bhd_directory_table_rome: value, ..*old(self) }),
    {
        self.bhd_directory_table_rome = value;
    }

    /// Old (pre-Rome) boards had MMIO addresses instead of offsets in the
    /// slots; bit 0 of `efs_generations` clear marks the newer convention.
    /// Precondition in spirit: the signature must be valid, otherwise this
    /// reads garbage.
    pub fn second_gen_efs(&self) -> (r: bool)
        ensures
            r == spec_second_gen_efs(self.efs_generations),
    {
        self.efs_generations % 2 == 0
    }

    /// Whether the EFS pointer slots hold MMIO addresses.
    pub fn physical_address_mode(&self) -> (r: bool)
        ensures
            r == spec_physical_address_mode(self.efs_generations),
    {
        // Family 1Ah models do not clear bit 0 but expect offsets anyway.
        if self.efs_generations == Self::efs_generations_for_processor_generation(
            ProcessorGeneration::Turin,
        ) {
            return false;
        }
        !self.second_gen_efs()
    }

    pub fn de_mmio(v: u32, amd_physical_mode_mmio_size: Option<u32>) -> (r: Option<Location>)
        ensures
            r == spec_de_mmio(v, amd_physical_mode_mmio_size),
    {
        de_mmio(v, amd_physical_mode_mmio_size)
    }

    pub fn is_invalid_directory_table_location(beginning: u32) -> (r: bool)
        ensures
            r == spec_is_invalid_directory_table_location(beginning),
    {
        is_invalid_directory_table_location(beginning)
    }

    pub fn compatible_with_processor_generation(&self, generation: ProcessorGeneration) -> (r:
        bool)
        ensures
            r == spec_compatible_with_generation(self.efs_generations, generation),
    {
        match generation {
            ProcessorGeneration::Naples => self.efs_generations == 0xffff_ffff,
            ProcessorGeneration::Rome => self.efs_generations == 0xffff_fffe,
            ProcessorGeneration::Milan | ProcessorGeneration::Genoa => self.efs_generations % 2
                == 0,
            ProcessorGeneration::Turin => self.efs_generations / 8 % 2 == 0,
        }
    }

    pub fn efs_generations_for_processor_generation(generation: ProcessorGeneration) -> (r: u32)
        ensures
            r == spec_efs_generations_for(generation),
    {
        match generation {
            ProcessorGeneration::Naples => 0xffff_ffff,
            ProcessorGeneration::Rome => 0xffff_fffe,
            ProcessorGeneration::Milan => 0xffff_fffc,
            ProcessorGeneration::Genoa => 0xffff_fffe,
            ProcessorGeneration::Turin => 0xffff_ffe3,
        }
    }

    pub fn spi_mode_bulldozer(&self) -> (r: Result<Option<EfhBulldozerSpiMode>>)
        ensures
            match r {
                Ok(None) => self.spi_mode_bulldozer.spec_all_unset(),
                Ok(Some(m)) => {
                    &&& !self.spi_mode_bulldozer.spec_all_unset()
                    &&& SpiReadMode::spec_from_u8(self.spi_mode_bulldozer.read_mode) == Some(
                        m.read_mode,
                    )
                    &&& SpiFastSpeedNew::spec_from_u8(self.spi_mode_bulldozer.fast_speed) == Some(
                        m.fast_speed_new,
                    )
                },
                Err(e) => {
                    &&& e == Error::Marshal
                    &&& !self.spi_mode_bulldozer.spec_all_unset()
                    &&& (SpiReadMode::spec_from_u8(self.spi_mode_bulldozer.read_mode) is None
                        || SpiFastSpeedNew::spec_from_u8(
                        self.spi_mode_bulldozer.fast_speed,
                    ) is None)
                },
            },
    {
        if self.spi_mode_bulldozer.all_unset() {
            Ok(None)
        } else {
            let read_mode = match SpiReadMode::from_u8(self.spi_mode_bulldozer.read_mode) {
                Some(m) => m,
                None => {
                    return Err(Error::Marshal);
                },
            };
            let fast_speed_new = match SpiFastSpeedNew::from_u8(
                self.spi_mode_bulldozer.fast_speed,
            ) {
                Some(m) => m,
                None => {
                    return Err(Error::Marshal);
                },
            };
            Ok(Some(EfhBulldozerSpiMode { read_mode, fast_speed_new }))
        }
    }

    pub fn set_spi_mode_bulldozer(&mut self, value: Option<EfhBulldozerSpiMode>)
        ensures
            *final(self) == (Efh {
                spi_mode_bulldozer: (match value {
                    None => EfhSpiModeBytes {
                        read_mode: 0xffu8,
                        fast_speed: 0xffu8,
                        micron_mode: 0xffu8,
                    },
                    Some(x) => EfhSpiModeBytes {
                        read_mode: x.read_mode.spec_to_u8(),
                        fast_speed: x.fast_speed_new.spec_to_u8(),
                        micron_mode: 0xffu8,
                    },
                }),
                ..*old(self)
            }),
    {
        self.spi_mode_bulldozer = match value {
            None => EfhSpiModeBytes::unset(),
            Some(x) => EfhSpiModeBytes {
                read_mode: x.read_mode.to_u8(),
                fast_speed: x.fast_speed_new.to_u8(),
                micron_mode: 0xff,
            },
        };
    }

    pub fn spi_mode_zen_naples(&self) -> (r: Result<Option<EfhNaplesSpiMode>>)
        ensures
            match r {
                Ok(None) => !spec_compatible_with_generation(
                    self.efs_generations,
                    ProcessorGeneration::Naples,
                ) || self.spi_mode_zen_naples.spec_all_unset(),
                Ok(Some(m)) => {
                    &&& spec_compatible_with_generation(
                        self.efs_generations,
                        ProcessorGeneration::Naples,
                    )
                    &&& !self.spi_mode_zen_naples.spec_all_unset()
                    &&& SpiReadMode::spec_from_u8(self.spi_mode_zen_naples.read_mode) == Some(
                        m.read_mode,
                    )
                    &&& SpiFastSpeedNew::spec_from_u8(self.spi_mode_zen_naples.fast_speed) == Some(
                        m.fast_speed_new,
                    )
                    &&& SpiNaplesMicronMode::spec_from_u8(self.spi_mode_zen_naples.micron_mode)
                        == Some(m.micron_mode)
                },
                Err(e) => {
                    &&& e == Error::Marshal
                    &&& spec_compatible_with_generation(
                        self.efs_generations,
                        ProcessorGeneration::Naples,
                    )
                    &&& !self.spi_mode_zen_naples.spec_all_unset()
                },
            },
    {
        if !self.compatible_with_processor_generation(ProcessorGeneration::Naples)
            || self.spi_mode_zen_naples.all_unset() {
            Ok(None)
        } else {
            let read_mode = match SpiReadMode::from_u8(self.spi_mode_zen_naples.read_mode) {
                Some(m) => m,
                None => {
                    return Err(Error::Marshal);
                },
            };
            let fast_speed_new = match SpiFastSpeedNew::from_u8(
                self.spi_mode_zen_naples.fast_speed,
            ) {
                Some(m) => m,
                None => {
                    return Err(Error::Marshal);
                },
            };
            let micron_mode = match SpiNaplesMicronMode::from_u8(
                self.spi_mode_zen_naples.micron_mode,
            ) {
                Some(m) => m,
                None => {
                    return Err(Error::Marshal);
                },
            };
            Ok(Some(EfhNaplesSpiMode { read_mode, fast_speed_new, micron_mode }))
        }
    }

    pub fn set_spi_mode_zen_naples(&mut self, value: Option<EfhNaplesSpiMode>)
        ensures
            *final(self) == (Efh {
                spi_mode_zen_naples: (match value {
                    None => EfhSpiModeBytes {
                        read_mode: 0xffu8,
                        fast_speed: 0xffu8,
                        micron_mode: 0xffu8,
                    },
                    Some(x) => EfhSpiModeBytes {
                        read_mode: x.read_mode.spec_to_u8(),
                        fast_speed: x.fast_speed_new.spec_to_u8(),
                        micron_mode: x.micron_mode.spec_to_u8(),
                    },
                }),
                ..*old(self)
            }),
    {
        self.spi_mode_zen_naples = match value {
            None => EfhSpiModeBytes::unset(),
            Some(x) => EfhSpiModeBytes {
                read_mode: x.read_mode.to_u8(),
                fast_speed: x.fast_speed_new.to_u8(),
                micron_mode: x.micron_mode.to_u8(),
            },
        };
    }

    pub fn spi_mode_zen_rome(&self) -> (r: Result<Option<EfhRomeSpiMode>>)
        ensures
            match r {
                Ok(None) => self.spi_mode_zen_rome.spec_all_unset(),
                Ok(Some(m)) => {
                    &&& !self.spi_mode_zen_rome.spec_all_unset()
                    &&& SpiReadMode::spec_from_u8(self.spi_mode_zen_rome.read_mode) == Some(
                        m.read_mode,
                    )
                    &&& SpiFastSpeedNew::spec_from_u8(self.spi_mode_zen_rome.fast_speed) == Some(
                        m.fast_speed_new,
                    )
                    &&& SpiRomeMicronMode::spec_from_u8(self.spi_mode_zen_rome.micron_mode) == Some(
                        m.micron_mode,
                    )
                },
                Err(e) => {
                    &&& e == Error::Marshal
                    &&& !self.spi_mode_zen_rome.spec_all_unset()
                },
            },
    {
        if self.spi_mode_zen_rome.all_unset() {
            Ok(None)
        } else {
            let read_mode = match SpiReadMode::from_u8(self.spi_mode_zen_rome.read_mode) {
                Some(m) => m,
                None => {
                    return Err(Error::Marshal);
                },
            };
            let fast_speed_new = match SpiFastSpeedNew::from_u8(self.spi_mode_zen_rome.fast_speed) {
                Some(m) => m,
                None => {
                    return Err(Error::Marshal);
                },
            };
            let micron_mode = match SpiRomeMicronMode::from_u8(self.spi_mode_zen_rome.micron_mode) {
                Some(m) => m,
                None => {
                    return Err(Error::Marshal);
                },
            };
            Ok(Some(EfhRomeSpiMode { read_mode, fast_speed_new, micron_mode }))
        }
    }

    pub fn set_spi_mode_zen_rome(&mut self, value: Option<EfhRomeSpiMode>)
        ensures
            *final(self) == (Efh {
                spi_mode_zen_rome: (match value {
                    None => EfhSpiModeBytes {
                        read_mode: 0xffu8,
                        fast_speed: 0xffu8,
                        micron_mode: 0xffu8,
                    },
                    Some(x) => EfhSpiModeBytes {
                        read_mode: x.read_mode.spec_to_u8(),
                        fast_speed: x.fast_speed_new.spec_to_u8(),
                        micron_mode: x.micron_mode.spec_to_u8(),
                    },
                }),
                ..*old(self)
            }),
    {
        self.spi_mode_zen_rome = match value {
            None => EfhSpiModeBytes::unset(),
            Some(x) => EfhSpiModeBytes {
                read_mode: x.read_mode.to_u8(),
                fast_speed: x.fast_speed_new.to_u8(),
                micron_mode: x.micron_mode.to_u8(),
            },
        };
    }

    pub fn espi0_configuration(&self) -> (r: Result<Option<EfhEspiConfiguration>>)
        ensures
            r == (if self.espi0_configuration % 2 == 1 {
                Ok::<Option<EfhEspiConfiguration>, Error>(None)
            } else {
                Ok::<Option<EfhEspiConfiguration>, Error>(
                    Some(EfhEspiConfiguration::spec_from_u8(self.espi0_configuration)),
                )
            }),
    {
        if self.espi0_configuration % 2 == 1 {
            Ok(None)
        } else {
            Ok(Some(EfhEspiConfiguration::from_u8(self.espi0_configuration)))
        }
    }

    pub fn set_espi0_configuration(&mut self, value: Option<EfhEspiConfiguration>)
        ensures
            *final(self) == (Efh {
                espi0_configuration: (match value {
                    None => 0xffu8,
                    Some(x) => x.spec_to_u8(),
                }),
                ..*old(self)
            }),
    {
        self.espi0_configuration = match value {
            None => 0xff,
            Some(x) => x.to_u8(),
        };
    }

    pub fn espi1_configuration(&self) -> (r: Result<Option<EfhEspiConfiguration>>)
        ensures
            r == (if self.espi1_configuration % 2 == 1 {
                Ok::<Option<EfhEspiConfiguration>, Error>(None)
            } else {
                Ok::<Option<EfhEspiConfiguration>, Error>(
                    Some(EfhEspiConfiguration::spec_from_u8(self.espi1_configuration)),
                )
            }),
    {
        if self.espi1_configuration % 2 == 1 {
            Ok(None)
        } else {
            Ok(Some(EfhEspiConfiguration::from_u8(self.espi1_configuration)))
        }
    }

    pub fn set_espi1_configuration(&mut self, value: Option<EfhEspiConfiguration>)
        ensures
            *final(self) == (Efh {
                espi1_configuration: (match value {
                    None => 0xffu8,
                    Some(x) => x.spec_to_u8(),
                }),
                ..*old(self)
            }),
    {
        self.espi1_configuration = match value {
            None => 0xff,
            Some(x) => x.to_u8(),
        };
    }
}

/// The EFS of a freshly created image: valid signature, no pointers,
/// second-generation (Rome) mask, everything else unset.
pub open spec fn spec_efh_default() -> Efh {
    Efh {
        signature: 0x55aa_55aau32,
        imc_fw_location: 0,
        gbe_fw_location: 0,
        xhci_fw_location: 0,
        psp_directory_table_location_naples: 0,
        psp_directory_table_location_zen: 0,
        bhd_directory_table_naples: 0,
        bhd_directory_table_raven_ridge: 0,
        bhd_directory_table_rome: 0,
        efs_generations: 0xffff_fffeu32,
        bhd_directory_table_milan: 0xffff_ffffu32,
        padding: 0,
        promontory_firmware_location: 0,
        low_power_promontory_firmware_location: 0,
        padding2_0: 0,
        padding2_1: 0,
        spi_mode_bulldozer: EfhSpiModeBytes {
            read_mode: 0xffu8,
            fast_speed: 0xffu8,
            micron_mode: 0xffu8,
        },
        spi_mode_zen_naples: EfhSpiModeBytes {
            read_mode: 0xffu8,
            fast_speed: 0xffu8,
            micron_mode: 0xffu8,
        },
        reserved1: 0xffu8,
        spi_mode_zen_rome: EfhSpiModeBytes {
            read_mode: 0xffu8,
            fast_speed: 0xffu8,
            micron_mode: 0xffu8,
        },
        reserved2: 0xffu8,
        reserved3: 0xffu8,
        vendor_id: 0xffffu16,
        vendor_board_id: 0xffffu16,
        espi0_configuration: 0xffu8,
        espi1_configuration: 0xffu8,
    }
}

impl Default for Efh {
    fn default() -> (r: Self)
        ensures
            r == spec_efh_default(),
    {
        Self {
            signature: 0x55aa_55aa,
            imc_fw_location: 0,
            gbe_fw_location: 0,
            xhci_fw_location: 0,
            psp_directory_table_location_naples: 0,
            psp_directory_table_location_zen: 0,
            bhd_directory_table_naples: 0,
            bhd_directory_table_raven_ridge: 0,
            bhd_directory_table_rome: 0,
            efs_generations: 0xffff_fffe,
            bhd_directory_table_milan: 0xffff_ffff,
            padding: 0,
            promontory_firmware_location: 0,
            low_power_promontory_firmware_location: 0,
            padding2_0: 0,
            padding2_1: 0,
            spi_mode_bulldozer: EfhSpiModeBytes::unset(),
            spi_mode_zen_naples: EfhSpiModeBytes::unset(),
            reserved1: 0xff,
            spi_mode_zen_rome: EfhSpiModeBytes::unset(),
            reserved2: 0xff,
            reserved3: 0xff,
            vendor_id: 0xffff,
            vendor_board_id: 0xffff,
            espi0_configuration: 0xff,
            espi1_configuration: 0xff,
        }
    }
}

/// Parsing a serialized EFS record gives the record back.
#[verifier::rlimit(100)]
pub proof fn lemma_efh_round_trip(e: Efh)
    ensures
        spec_parse_efh(spec_efh_bytes(e)) == e,
{
    let s = spec_efh_bytes(e);
    lemma_u32_le_round_trip(e.signature);
    lemma_u32_le_round_trip(e.imc_fw_location);
    lemma_u32_le_round_trip(e.gbe_fw_location);
    lemma_u32_le_round_trip(e.xhci_fw_location);
    lemma_u32_le_round_trip(e.psp_directory_table_location_naples);
    lemma_u32_le_round_trip(e.psp_directory_table_location_zen);
    lemma_u32_le_round_trip(e.bhd_directory_table_naples);
    lemma_u32_le_round_trip(e.bhd_directory_table_raven_ridge);
    lemma_u32_le_round_trip(e.bhd_directory_table_rome);
    lemma_u32_le_round_trip(e.efs_generations);
    lemma_u32_le_round_trip(e.bhd_directory_table_milan);
    lemma_u32_le_round_trip(e.padding);
    lemma_u32_le_round_trip(e.promontory_firmware_location);
    lemma_u32_le_round_trip(e.low_power_promontory_firmware_location);
    lemma_u32_le_round_trip(e.padding2_0);
    lemma_u32_le_round_trip(e.padding2_1);
    crate::marshal::lemma_u16_le_round_trip(e.vendor_id);
    crate::marshal::lemma_u16_le_round_trip(e.vendor_board_id);
    assert(spec_u32_le(s, 0x00) == e.signature) by {
        assert(s.subrange(0x00, 0x04) =~= u32_le_bytes(e.signature));
    };
    assert(spec_u32_le(s, 0x04) == e.imc_fw_location) by {
        assert(s.subrange(0x04, 0x08) =~= u32_le_bytes(e.imc_fw_location));
    };
    assert(spec_u32_le(s, 0x08) == e.gbe_fw_location) by {
        assert(s.subrange(0x08, 0x0c) =~= u32_le_bytes(e.gbe_fw_location));
    };
    assert(spec_u32_le(s, 0x0c) == e.xhci_fw_location) by {
        assert(s.subrange(0x0c, 0x10) =~= u32_le_bytes(e.xhci_fw_location));
    };
    assert(spec_u32_le(s, 0x10) == e.psp_directory_table_location_naples) by {
        assert(s.subrange(0x10, 0x14) =~= u32_le_bytes(e.psp_directory_table_location_naples));
    };
    assert(spec_u32_le(s, 0x14) == e.psp_directory_table_location_zen) by {
        assert(s.subrange(0x14, 0x18) =~= u32_le_bytes(e.psp_directory_table_location_zen));
    };
    assert(spec_u32_le(s, 0x18) == e.bhd_directory_table_naples) by {
        assert(s.subrange(0x18, 0x1c) =~= u32_le_bytes(e.bhd_directory_table_naples));
    };
    assert(spec_u32_le(s, 0x1c) == e.bhd_directory_table_raven_ridge) by {
        assert(s.subrange(0x1c, 0x20) =~= u32_le_bytes(e.bhd_directory_table_raven_ridge));
    };
    assert(spec_u32_le(s, 0x20) == e.bhd_directory_table_rome) by {
        assert(s.subrange(0x20, 0x24) =~= u32_le_bytes(e.bhd_directory_table_rome));
    };
    assert(spec_u32_le(s, 0x24) == e.efs_generations) by {
        assert(s.subrange(0x24, 0x28) =~= u32_le_bytes(e.efs_generations));
    };
    assert(spec_u32_le(s, 0x28) == e.bhd_directory_table_milan) by {
        assert(s.subrange(0x28, 0x2c) =~= u32_le_bytes(e.bhd_directory_table_milan));
    };
    assert(spec_u32_le(s, 0x2c) == e.padding) by {
        assert(s.subrange(0x2c, 0x30) =~= u32_le_bytes(e.padding));
    };
    assert(spec_u32_le(s, 0x30) == e.promontory_firmware_location) by {
        assert(s.subrange(0x30, 0x34) =~= u32_le_bytes(e.promontory_firmware_location));
    };
    assert(spec_u32_le(s, 0x34) == e.low_power_promontory_firmware_location) by {
        assert(s.subrange(0x34, 0x38) =~= u32_le_bytes(e.low_power_promontory_firmware_location));
    };
    assert(spec_u32_le(s, 0x38) == e.padding2_0) by {
        assert(s.subrange(0x38, 0x3c) =~= u32_le_bytes(e.padding2_0));
    };
    assert(spec_u32_le(s, 0x3c) == e.padding2_1) by {
        assert(s.subrange(0x3c, 0x40) =~= u32_le_bytes(e.padding2_1));
    };
    assert(spec_u16_le(s, 0x4c) == e.vendor_id) by {
        assert(s.subrange(0x4c, 0x4e) =~= crate::marshal::u16_le_bytes(e.vendor_id));
    };
    assert(spec_u16_le(s, 0x4e) == e.vendor_board_id) by {
        assert(s.subrange(0x4e, 0x50) =~= crate::marshal::u16_le_bytes(e.vendor_board_id));
    };
}

} // verus!

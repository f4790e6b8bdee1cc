//! Reading, validating and writing the AMD Embedded Firmware Structure
//! (EFS) and its PSP and BHD directory hierarchies, as laid out on an SPI
//! flash image consumed by AMD Zen-family boot ROMs.

pub mod adapters;
pub mod amdfletcher32;
pub mod efs;
pub mod flash;
pub mod marshal;
pub mod ondisk;
pub mod types;

pub use crate::adapters::Upper16MiBFlashAdapter;
pub use crate::amdfletcher32::AmdFletcher32;
pub use crate::amdfletcher32::Wu32;
pub use crate::efs::BhdDirectory;
pub use crate::efs::ComboDirectory;
pub use crate::efs::Efs;
pub use crate::efs::MAX_DIRECTORY_ENTRIES;
pub use crate::efs::PspDirectory;
pub use crate::efs::preferred_efh_location;
pub use crate::ondisk::AddressMode;
pub use crate::ondisk::BhdDirectoryEntry;
pub use crate::ondisk::BhdDirectoryEntryAttrs;
pub use crate::ondisk::BhdDirectoryEntryRegionType;
pub use crate::ondisk::BhdDirectoryEntryType;
pub use crate::ondisk::BhdDirectoryHeader;
pub use crate::ondisk::BhdDirectoryRomId;
pub use crate::ondisk::ComboDirectoryEntry;
pub use crate::ondisk::ComboDirectoryEntryFilter;
pub use crate::ondisk::ComboDirectoryHeader;
pub use crate::ondisk::ComboDirectoryLookupMode;
pub use crate::ondisk::DirectoryAdditionalInfo;
pub use crate::ondisk::Efh;
pub use crate::ondisk::EfhBulldozerSpiMode;
pub use crate::ondisk::EfhEspiConfiguration;
pub use crate::ondisk::EfhNaplesSpiMode;
pub use crate::ondisk::EfhRomeSpiMode;
pub use crate::ondisk::EfhSpiModeBytes;
pub use crate::ondisk::ProcessorGeneration;
pub use crate::ondisk::PspDirectoryEntry;
pub use crate::ondisk::PspDirectoryEntryAttrs;
pub use crate::ondisk::PspDirectoryEntryType;
pub use crate::ondisk::PspDirectoryHeader;
pub use crate::ondisk::PspDirectoryRomId;
pub use crate::ondisk::PspSoftFuseChain;
pub use crate::ondisk::PspSoftFuseChain32MiBSpiDecoding;
pub use crate::ondisk::PspSoftFuseChainPostCodeDecoding;
pub use crate::ondisk::SpiFastSpeedNew;
pub use crate::ondisk::SpiNaplesMicronMode;
pub use crate::ondisk::SpiReadMode;
pub use crate::ondisk::SpiRomeMicronMode;
pub use crate::ondisk::ValueOrLocation;
pub use crate::types::Error;
pub use crate::types::Result;

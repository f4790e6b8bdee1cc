use amd_efs::AddressMode;
use amd_efs::ComboDirectoryEntry;
use amd_efs::ComboDirectoryEntryFilter;
use amd_efs::DirectoryAdditionalInfo;
use amd_efs::Efh;
use amd_efs::EfhEspiConfiguration;
use amd_efs::Error;
use amd_efs::PspDirectoryEntry;
use amd_efs::PspDirectoryEntryType;
use amd_efs::PspSoftFuseChain;
use amd_efs::ValueOrLocation;

#[test]
fn test_struct_sizes() {
    assert!(amd_efs::ondisk::EFH_SIZE < 0x100);
    assert!(amd_efs::ondisk::PSP_DIRECTORY_HEADER_SIZE == 16);
    assert!(amd_efs::ondisk::PSP_DIRECTORY_ENTRY_SIZE == 16);
    assert!(amd_efs::ondisk::BHD_DIRECTORY_HEADER_SIZE == 16);
    assert!(amd_efs::ondisk::BHD_DIRECTORY_ENTRY_SIZE == 24);
    assert!(amd_efs::ondisk::COMBO_DIRECTORY_HEADER_SIZE == 32);
    assert!(amd_efs::ondisk::COMBO_DIRECTORY_ENTRY_SIZE == 16);
    assert_eq!(Efh::default().to_bytes().len(), amd_efs::ondisk::EFH_SIZE);
    assert_eq!(PspDirectoryEntry::new().to_bytes().len(), 16);
    assert_eq!(amd_efs::BhdDirectoryEntry::new().to_bytes().len(), 24);
    assert_eq!(ComboDirectoryEntry::new().to_bytes().len(), 16);
}

#[test]
fn test_spi_mode_offsets() {
    // The SPI mode slots sit at their documented offsets of the record.
    let mut efh = Efh::default();
    efh.psp_directory_table_location_naples = 0x11223344;
    efh.psp_directory_table_location_zen = 0x55667788;
    efh.spi_mode_bulldozer.read_mode = 0xA1;
    efh.spi_mode_zen_naples.read_mode = 0xA2;
    efh.spi_mode_zen_rome.read_mode = 0xA3;
    let bytes = efh.to_bytes();
    assert_eq!(&bytes[0x10..0x14], &[0x44, 0x33, 0x22, 0x11]);
    assert_eq!(&bytes[0x14..0x18], &[0x88, 0x77, 0x66, 0x55]);
    assert_eq!(bytes[0x40], 0xA1);
    assert_eq!(bytes[0x43], 0xA2);
    assert_eq!(bytes[0x47], 0xA3);
}

#[test]
fn test_directory_additional_info() {
    let info = DirectoryAdditionalInfo::new()
        .with_spi_block_size_checked(DirectoryAdditionalInfo::try_into_unit(0x1_0000).unwrap())
        .unwrap();
    assert_eq!(u32::from(info), 0);

    let info = DirectoryAdditionalInfo::new()
        .with_spi_block_size_checked(DirectoryAdditionalInfo::try_into_unit(0x1000).unwrap())
        .unwrap();
    assert_eq!(u32::from(info), 1 << 10);

    let info = DirectoryAdditionalInfo::new()
        .with_spi_block_size_checked(DirectoryAdditionalInfo::try_into_unit(0x2000).unwrap())
        .unwrap();
    assert_eq!(u32::from(info), 2 << 10);

    let info = DirectoryAdditionalInfo::new()
        .with_spi_block_size_checked(DirectoryAdditionalInfo::try_into_unit(0xf000).unwrap())
        .unwrap();
    assert_eq!(u32::from(info), 0xf << 10);
}

#[test]
#[should_panic]
fn test_directory_additional_info_invalid() {
    let _info = DirectoryAdditionalInfo::new().with_spi_block_size_checked(0).unwrap();
}

#[test]
fn additional_info_word_round_trip() {
    let word: u32 = 0x2084_0410;
    let info = DirectoryAdditionalInfo::from(word);
    assert_eq!(info.max_size(), 0x10);
    assert_eq!(info.spi_block_size(), 1);
    assert_eq!(info.base_address(), 0x210);
    assert_eq!(info.address_mode(), AddressMode::EfsRelativeOffset);
    assert_eq!(u32::from(info), word);
    // A stored block size of 0 reads as 0x10 units (64 kiB).
    let info = DirectoryAdditionalInfo::from(0u32);
    assert_eq!(info.spi_block_size(), 0x10);
}

#[test]
fn location_encode_decode_round_trip() {
    // decode(encode(v, m), m) == v for compatible mode m.
    let cases = [
        (ValueOrLocation::PhysicalAddress(0x1234), AddressMode::PhysicalAddress),
        (ValueOrLocation::PhysicalAddress(0x1234), AddressMode::DirectoryRelativeOffset),
        (ValueOrLocation::EfsRelativeOffset(0x21_0000), AddressMode::EfsRelativeOffset),
        (ValueOrLocation::EfsRelativeOffset(0x21_0000), AddressMode::DirectoryRelativeOffset),
        (
            ValueOrLocation::DirectoryRelativeOffset(0x40),
            AddressMode::DirectoryRelativeOffset,
        ),
        (
            ValueOrLocation::OtherDirectoryRelativeOffset(0x80),
            AddressMode::DirectoryRelativeOffset,
        ),
    ];
    for (v, m) in cases {
        let raw = v.try_into_raw_location(m).unwrap();
        let back = ValueOrLocation::new_from_raw_location(m, raw).unwrap();
        assert_eq!(back, v);
    }
}

#[test]
fn location_encode_rejects_incompatible_mode() {
    // Under a strong directory mode the entry cannot carry another mode.
    let v = ValueOrLocation::DirectoryRelativeOffset(0x40);
    match v.try_into_raw_location(AddressMode::EfsRelativeOffset) {
        Err(Error::EntryTypeMismatch) => {},
        _ => panic!("expected an entry type mismatch"),
    }
    let v = ValueOrLocation::Value(5);
    match v.try_into_raw_location(AddressMode::DirectoryRelativeOffset) {
        Err(Error::EntryTypeMismatch) => {},
        _ => panic!("expected an entry type mismatch"),
    }
}

#[test]
fn location_decode_rejects_wide_value() {
    // A raw location whose low 62 bits exceed 32 bits is out of range.
    match ValueOrLocation::new_from_raw_location(
        AddressMode::EfsRelativeOffset,
        0x0000_0001_0000_0000,
    ) {
        Err(Error::DirectoryPayloadRangeCheck) => {},
        _ => panic!("expected a payload range check"),
    }
}

#[test]
fn value_entry_is_no_location() {
    // size == 0xFFFF_FFFF marks a value entry; resolving it as a payload
    // location is a type mismatch.
    let entry =
        PspDirectoryEntry::new_value(PspDirectoryEntryType::PspSoftFuseChain, 0x77).unwrap();
    assert_eq!(entry.internal_size, 0xFFFF_FFFF);
    assert_eq!(entry.size(), None);
    assert_eq!(entry.value().unwrap(), 0x77);
    match entry.source(AddressMode::DirectoryRelativeOffset).unwrap() {
        ValueOrLocation::Value(v) => assert_eq!(v, 0x77),
        _ => panic!("expected a value"),
    }
}

#[test]
fn non_value_entry_has_no_value() {
    let entry = PspDirectoryEntry::new_payload(
        AddressMode::EfsRelativeOffset,
        PspDirectoryEntryType::AmdPublicKey,
        Some(0x800),
        Some(ValueOrLocation::EfsRelativeOffset(0x1000)),
    )
    .unwrap();
    match entry.value() {
        Err(Error::EntryTypeMismatch) => {},
        _ => panic!("expected an entry type mismatch"),
    }
}

#[test]
fn psp_entry_bytes_round_trip() {
    let mut entry = PspDirectoryEntry::new_payload(
        AddressMode::EfsRelativeOffset,
        PspDirectoryEntryType::PspBootloader,
        Some(0x1234),
        Some(ValueOrLocation::EfsRelativeOffset(0x20_0000)),
    )
    .unwrap();
    entry.set_sub_program(3);
    entry.set_instance(7);
    entry.set_writable(true);
    let bytes = entry.to_bytes();
    let back = PspDirectoryEntry::from_slice(&bytes).unwrap();
    assert_eq!(back, entry);
    assert_eq!(back.sub_program(), 3);
    assert_eq!(back.instance(), 7);
    assert!(back.writable());
    assert_eq!(back.typ_or_err().unwrap(), PspDirectoryEntryType::PspBootloader);
}

#[test]
fn bhd_entry_bytes_round_trip() {
    let mut entry = amd_efs::BhdDirectoryEntry::new_payload(
        AddressMode::EfsRelativeOffset,
        amd_efs::BhdDirectoryEntryType::Bios,
        Some(0x10000),
        Some(ValueOrLocation::EfsRelativeOffset(0x30_0000)),
        Some(0x7600_0000),
    )
    .unwrap();
    entry.set_reset_image(true);
    entry.set_copy_image(true);
    let bytes = entry.to_bytes();
    assert_eq!(bytes.len(), 24);
    let back = amd_efs::BhdDirectoryEntry::from_slice(&bytes).unwrap();
    assert_eq!(back, entry);
    assert_eq!(back.destination_location(), Some(0x7600_0000));
    assert_eq!(back.typ_or_err().unwrap(), amd_efs::BhdDirectoryEntryType::Bios);
}

#[test]
fn combo_entry_filter_round_trip() {
    let mut entry = ComboDirectoryEntry::new();
    entry.set_filter(ComboDirectoryEntryFilter::ChipFamilyId(0x00A0_0F00));
    assert_eq!(
        entry.filter().unwrap(),
        ComboDirectoryEntryFilter::ChipFamilyId(0x00A0_0F00)
    );
    entry.set_filter(ComboDirectoryEntryFilter::PspId(0xBC0A_0000));
    assert_eq!(entry.filter().unwrap(), ComboDirectoryEntryFilter::PspId(0xBC0A_0000));
}

#[test]
fn soft_fuse_chain_word_round_trip() {
    let mut chain = PspSoftFuseChain::new();
    chain.secure_debug_unlock = true;
    chain.skip_mp2_firmware_loading = true;
    let word = u64::from(chain);
    assert_eq!(word, 0x2000_0001);
    let back = PspSoftFuseChain::from(word);
    assert_eq!(back, chain);
}

#[test]
fn espi_configuration_round_trip() {
    let mut efh = Efh::default();
    assert!(efh.espi0_configuration().unwrap().is_none());
    let mut cfg = EfhEspiConfiguration::new();
    cfg.enable_port_0x80 = true;
    cfg.clock = 1;
    efh.set_espi0_configuration(Some(cfg));
    let back = efh.espi0_configuration().unwrap().unwrap();
    assert_eq!(back, cfg);
    assert!(!back.invalid());
    efh.set_espi0_configuration(None);
    assert!(efh.espi0_configuration().unwrap().is_none());
}

#[test]
fn spi_mode_with_unknown_byte_is_a_marshal_error() {
    let mut efh = Efh::default();
    // 0b001 names no SPI read mode.
    efh.spi_mode_bulldozer.read_mode = 0x01;
    efh.spi_mode_bulldozer.fast_speed = 0x00;
    efh.spi_mode_bulldozer.micron_mode = 0xFF;
    match efh.spi_mode_bulldozer() {
        Err(Error::Marshal) => {},
        _ => panic!("expected a marshal error"),
    }
}

#[test]
fn efh_bytes_round_trip() {
    let mut efh = Efh::default();
    efh.psp_directory_table_location_zen = 0x20_0000;
    efh.bhd_directory_table_milan = 0x30_0000;
    let bytes = efh.to_bytes();
    assert_eq!(bytes.len(), 0x52);
    assert_eq!(&bytes[0..4], &[0xAA, 0x55, 0xAA, 0x55]);
}

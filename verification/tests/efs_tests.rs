use std::cell::RefCell;
use std::rc::Rc;

use amd_efs::flash::ErasableLocation;
use amd_efs::flash::FlashAlign;
use amd_efs::flash::FlashRead;
use amd_efs::flash::FlashWrite;
use amd_efs::flash::IoError;
use amd_efs::flash::Location;

#[derive(Clone)]
struct FlashImage {
    buf: Rc<RefCell<Vec<u8>>>,
    erasable_block_size: usize,
}

impl FlashImage {
    fn new(size: usize, erasable_block_size: usize) -> Self {
        Self { buf: Rc::new(RefCell::new(vec![0xFFu8; size])), erasable_block_size }
    }

    fn poke(&self, at: usize, bytes: &[u8]) {
        let mut buf = self.buf.borrow_mut();
        buf[at..at + bytes.len()].copy_from_slice(bytes);
    }

    fn peek(&self, at: usize, len: usize) -> Vec<u8> {
        self.buf.borrow()[at..at + len].to_vec()
    }
}

impl FlashRead for FlashImage {
    fn contents(&self) -> vstd::seq::Seq<u8> {
        unreachable!()
    }

    fn read_exact(&self, beginning: Location, length: usize) -> amd_efs::flash::Result<Vec<u8>> {
        let buf = self.buf.borrow();
        let start = beginning as usize;
        match start.checked_add(length) {
            Some(end) if end <= buf.len() => Ok(buf[start..end].to_vec()),
            _ => Err(amd_efs::flash::Error::Io(IoError::Read { start: beginning, size: length })),
        }
    }
}

impl FlashAlign for FlashImage {
    fn spec_block_size(&self) -> usize {
        self.erasable_block_size
    }

    fn erasable_block_size(&self) -> usize {
        self.erasable_block_size
    }
}

impl FlashWrite for FlashImage {
    fn erase_block(&mut self, location: ErasableLocation) -> amd_efs::flash::Result<()> {
        let bs = self.erasable_block_size;
        let start = location.location_value() as usize;
        let mut buf = self.buf.borrow_mut();
        if location.erasable_block_size() != bs || start + bs > buf.len() {
            return Err(amd_efs::flash::Error::Io(IoError::Erase {
                start: location.location_value(),
                size: bs,
            }));
        }
        buf[start..start + bs].fill(0xFF);
        Ok(())
    }

    fn erase_and_write_block(
        &mut self,
        location: ErasableLocation,
        buffer: &[u8],
    ) -> amd_efs::flash::Result<()> {
        let bs = self.erasable_block_size;
        let start = location.location_value() as usize;
        let mut buf = self.buf.borrow_mut();
        if location.erasable_block_size() != bs || start + bs > buf.len() || buffer.len() > bs {
            return Err(amd_efs::flash::Error::Io(IoError::Write {
                start: location.location_value(),
                size: buffer.len(),
            }));
        }
        buf[start..start + bs].fill(0xFF);
        buf[start..start + buffer.len()].copy_from_slice(buffer);
        Ok(())
    }
}

use amd_efs::AddressMode;
use amd_efs::Efh;
use amd_efs::Efs;
use amd_efs::Error;
use amd_efs::ProcessorGeneration;
use amd_efs::PspDirectoryEntry;
use amd_efs::PspDirectoryEntryType;
use amd_efs::SpiFastSpeedNew;
use amd_efs::SpiNaplesMicronMode;
use amd_efs::SpiReadMode;
use amd_efs::SpiRomeMicronMode;
use amd_efs::EfhBulldozerSpiMode;
use amd_efs::EfhNaplesSpiMode;
use amd_efs::EfhRomeSpiMode;
use amd_efs::ValueOrLocation;
use amd_efs::flash::ErasableRange;

const MIB_16: usize = 0x100_0000;
const BLOCK_4K: usize = 0x1000;

fn setup_efs_test(generation: ProcessorGeneration) -> Efs<FlashImage> {
    let image = FlashImage::new(MIB_16, BLOCK_4K);
    Efs::create(
        image,
        generation,
        amd_efs::preferred_efh_location(generation),
        None,
    )
    .unwrap()
}

#[test]
fn test_spi_mode_all_off() {
    let mut setup = setup_efs_test(ProcessorGeneration::Rome);
    assert!(setup.spi_mode_bulldozer().unwrap().is_none());
    assert!(setup.spi_mode_zen_naples().unwrap().is_none());
    assert!(setup.spi_mode_zen_rome().unwrap().is_none());
    setup.set_spi_mode_bulldozer(None);
    setup.set_spi_mode_zen_naples(None);
    setup.set_spi_mode_zen_rome(None);
    assert!(setup.spi_mode_bulldozer().unwrap().is_none());
    assert!(setup.spi_mode_zen_naples().unwrap().is_none());
    assert!(setup.spi_mode_zen_rome().unwrap().is_none());
}

#[test]
fn test_spi_mode_bulldozer() -> Result<(), Error> {
    let mut setup = setup_efs_test(ProcessorGeneration::Rome);
    let spi_mode = EfhBulldozerSpiMode {
        read_mode: SpiReadMode::Dual112,
        fast_speed_new: SpiFastSpeedNew::_33_33MHz,
    };
    setup.set_spi_mode_bulldozer(Some(spi_mode));
    assert!(setup.spi_mode_bulldozer()?.unwrap().read_mode == SpiReadMode::Dual112);
    assert!(setup.spi_mode_zen_naples()?.is_none());
    assert!(setup.spi_mode_zen_rome()?.is_none());
    Ok(())
}

#[test]
fn test_spi_mode_zen_naples() -> Result<(), Error> {
    // Naples compatibility: every generation bit of the EFS is set.
    let mut setup = setup_efs_test(ProcessorGeneration::Naples);
    let spi_mode = EfhNaplesSpiMode {
        read_mode: SpiReadMode::Dual112,
        fast_speed_new: SpiFastSpeedNew::_33_33MHz,
        micron_mode: SpiNaplesMicronMode::DummyCycle,
    };
    setup.set_spi_mode_zen_naples(Some(spi_mode));
    assert!(setup.spi_mode_bulldozer()?.is_none());
    assert!(setup.spi_mode_zen_naples()?.unwrap().read_mode == SpiReadMode::Dual112);
    assert!(setup.spi_mode_zen_rome()?.is_none());
    Ok(())
}

#[test]
fn test_spi_mode_zen_rome() -> Result<(), Error> {
    let mut setup = setup_efs_test(ProcessorGeneration::Rome);
    let spi_mode = EfhRomeSpiMode {
        read_mode: SpiReadMode::Dual112,
        fast_speed_new: SpiFastSpeedNew::_33_33MHz,
        micron_mode: SpiRomeMicronMode::SupportMicron,
    };
    setup.set_spi_mode_zen_rome(Some(spi_mode));
    assert!(setup.spi_mode_bulldozer()?.is_none());
    assert!(setup.spi_mode_zen_naples()?.is_none());
    assert!(setup.spi_mode_zen_rome()?.unwrap().read_mode == SpiReadMode::Dual112);
    Ok(())
}

#[test]
fn efs_discoverable_at_each_candidate() {
    // An EFS at each of the six candidate offsets is found.
    for position in [0xFA_0000usize, 0xF2_0000, 0xE2_0000, 0xC2_0000, 0x82_0000, 0x2_0000] {
        let image = FlashImage::new(MIB_16, BLOCK_4K);
        let efh = Efh::default();
        image.poke(position, &efh.to_bytes());
        let efs = Efs::load(image.clone(), None, None).unwrap();
        assert!(efs.compatible_with_processor_generation(ProcessorGeneration::Rome));
    }
}

#[test]
fn efs_probe_prefers_earlier_candidate_and_falls_forward() {
    // Milan-masked EFS at the most preferred offset, Rome-masked EFS at the
    // next one: the first is found; wiping its signature uncovers the second.
    let image = FlashImage::new(MIB_16, BLOCK_4K);
    let mut milan = Efh::default();
    milan.efs_generations = 0xffff_fffc;
    image.poke(0xFA_0000, &milan.to_bytes());
    let mut rome = Efh::default();
    rome.efs_generations = 0xffff_fffe;
    image.poke(0xF2_0000, &rome.to_bytes());

    let efs = Efs::load(image.clone(), None, None).unwrap();
    assert!(!efs.compatible_with_processor_generation(ProcessorGeneration::Rome));
    assert!(efs.compatible_with_processor_generation(ProcessorGeneration::Milan));

    image.poke(0xFA_0000, &[0u8; 4]);
    let efs = Efs::load(image.clone(), None, None).unwrap();
    assert!(efs.compatible_with_processor_generation(ProcessorGeneration::Rome));
}

#[test]
fn efs_with_wrong_signature_is_rejected() {
    let image = FlashImage::new(MIB_16, BLOCK_4K);
    let mut efh = Efh::default();
    efh.signature = 0x1234_5678;
    image.poke(0xFA_0000, &efh.to_bytes());
    match Efs::load(image, None, None) {
        Err(Error::EfsHeaderNotFound) => {},
        _ => panic!("expected the EFS to be rejected"),
    }
}

#[test]
fn efs_create_rejects_unpreferred_offset() {
    let image = FlashImage::new(MIB_16, BLOCK_4K);
    // 0xF2_0000 is a probe candidate but not Milan's preferred offset.
    match Efs::create(image, ProcessorGeneration::Milan, 0xF2_0000, None) {
        Err(Error::EfsRangeCheck) => {},
        _ => panic!("expected a range check failure"),
    }
}

#[test]
fn efs_create_rejects_misaligned_block() {
    // With 1-MiB erase blocks the preferred Naples offset is not aligned.
    let image = FlashImage::new(MIB_16, 0x10_0000);
    match Efs::create(image, ProcessorGeneration::Naples, 0x2_0000, None) {
        Err(Error::Misaligned) => {},
        _ => panic!("expected a misalignment failure"),
    }
}

#[test]
fn psp_directory_pointer_sentinel_is_reported() {
    let setup = setup_efs_test(ProcessorGeneration::Rome);
    match setup.psp_directory() {
        Err(Error::PspDirectoryHeaderNotFound) => {},
        _ => panic!("expected no PSP directory"),
    }
}

#[test]
fn bhd_directory_without_candidates_is_reported() {
    let setup = setup_efs_test(ProcessorGeneration::Milan);
    match setup.bhd_directory(Some(ProcessorGeneration::Milan)) {
        Err(Error::BhdDirectoryHeaderNotFound) => {},
        _ => panic!("expected no BHD directory"),
    }
}

fn checksum_of(total_entries: u32, additional_info: u32, entry_bytes: &[u8]) -> u32 {
    let mut words: Vec<u16> = vec![
        (total_entries % 0x10000) as u16,
        (total_entries / 0x10000) as u16,
        (additional_info % 0x10000) as u16,
        (additional_info / 0x10000) as u16,
    ];
    for pair in entry_bytes.chunks(2) {
        words.push(pair[0] as u16 + pair[1] as u16 * 0x100);
    }
    amd_efs::amdfletcher32::calc_fletcher32(&words)
}

#[test]
fn empty_psp_directory_round_trip() {
    // Build and read back an empty PSP directory at 0x20_0000 on a 16-MiB
    // flash with 4-kiB blocks, target Milan.
    let image = FlashImage::new(MIB_16, BLOCK_4K);
    let mut efs = Efs::create(image.clone(), ProcessorGeneration::Milan, 0xFA_0000, None).unwrap();
    let beginning = image.erasable_location(0x20_0000).unwrap();
    let end = image.erasable_location(0x21_0000).unwrap();
    let mut directory = efs
        .create_psp_directory(
            *b"$PSP",
            beginning,
            end,
            AddressMode::EfsRelativeOffset,
            &vec![],
        )
        .unwrap();
    let range = ErasableRange::new(beginning, end);
    let payloads_beginning = image.erasable_location(0x21_0000).unwrap();
    let bytes = directory.save(BLOCK_4K, &range, payloads_beginning).unwrap();
    {
        let mut writer = image.clone();
        amd_efs::flash::erase_and_write_blocks(&mut writer, beginning, &bytes).unwrap();
    }
    efs.set_main_psp_directory(&directory).unwrap();

    let efs = Efs::load(image.clone(), Some(ProcessorGeneration::Milan), None).unwrap();
    let directory = efs.psp_directory().unwrap();
    assert_eq!(directory.header().cookie, *b"$PSP");
    assert_eq!(directory.header().total_entries, 0);
    let additional_info = directory.header().additional_info;
    assert_eq!(additional_info, 0x2084_0410);
    assert_eq!(directory.header().checksum, checksum_of(0, additional_info, &[]));
    assert_eq!(directory.header().checksum, 0x28A4_2494);
}

#[test]
fn psp_directory_value_entry_round_trip() {
    // Add a soft-fuse-chain value entry with value 1.
    let image = FlashImage::new(MIB_16, BLOCK_4K);
    let mut efs = Efs::create(image.clone(), ProcessorGeneration::Milan, 0xFA_0000, None).unwrap();
    let beginning = image.erasable_location(0x20_0000).unwrap();
    let end = image.erasable_location(0x21_0000).unwrap();
    let mut directory = efs
        .create_psp_directory(
            *b"$PSP",
            beginning,
            end,
            AddressMode::EfsRelativeOffset,
            &vec![],
        )
        .unwrap();
    let entry = PspDirectoryEntry::new_value(
        PspDirectoryEntryType::PspSoftFuseChain,
        0x0000_0000_0000_0001,
    )
    .unwrap();
    directory.add_value_entry(&entry).unwrap();
    let range = ErasableRange::new(beginning, end);
    let bytes = directory
        .save(BLOCK_4K, &range, image.erasable_location(0x21_0000).unwrap())
        .unwrap();
    {
        let mut writer = image.clone();
        amd_efs::flash::erase_and_write_blocks(&mut writer, beginning, &bytes).unwrap();
    }
    efs.set_main_psp_directory(&directory).unwrap();

    let efs = Efs::load(image.clone(), Some(ProcessorGeneration::Milan), None).unwrap();
    let directory = efs.psp_directory().unwrap();
    assert_eq!(directory.header().total_entries, 1);
    let entries = directory.entries();
    assert_eq!(entries[0].value().unwrap(), 0x1);
    assert_eq!(entries[0].internal_size, 0xFFFF_FFFF);
    assert!(entries[0].size().is_none());
    let mut entry_bytes: Vec<u8> = Vec::new();
    for e in &entries {
        entry_bytes.extend_from_slice(&e.to_bytes());
    }
    assert_eq!(
        directory.header().checksum,
        checksum_of(1, directory.header().additional_info, &entry_bytes)
    );
}

#[test]
fn psp_directory_blob_entry_round_trip() {
    // Add a blob entry of size 0x800 at payload offset 0x21_0000.
    let image = FlashImage::new(MIB_16, BLOCK_4K);
    let mut efs = Efs::create(image.clone(), ProcessorGeneration::Milan, 0xFA_0000, None).unwrap();
    let beginning = image.erasable_location(0x20_0000).unwrap();
    let end = image.erasable_location(0x21_0000).unwrap();
    let entry = PspDirectoryEntry::new_payload(
        AddressMode::EfsRelativeOffset,
        PspDirectoryEntryType::AmdPublicKey,
        Some(0x800),
        Some(ValueOrLocation::EfsRelativeOffset(0x21_0000)),
    )
    .unwrap();
    let mut directory = efs
        .create_psp_directory(
            *b"$PSP",
            beginning,
            end,
            AddressMode::EfsRelativeOffset,
            &vec![entry],
        )
        .unwrap();
    let range = ErasableRange::new(beginning, end);
    let bytes = directory
        .save(BLOCK_4K, &range, image.erasable_location(0x21_0000).unwrap())
        .unwrap();
    {
        let mut writer = image.clone();
        amd_efs::flash::erase_and_write_blocks(&mut writer, beginning, &bytes).unwrap();
    }
    efs.set_main_psp_directory(&directory).unwrap();

    let efs = Efs::load(image.clone(), Some(ProcessorGeneration::Milan), None).unwrap();
    let directory = efs.psp_directory().unwrap();
    let entries = directory.entries();
    assert_eq!(entries.len(), 1);
    assert_eq!(entries[0].size(), Some(0x800));
    assert_eq!(directory.payload_beginning(&entries[0]).unwrap(), 0x21_0000);
}

#[test]
fn naples_physical_psp_pointer_resolves_to_offset_zero() {
    // On a physical-address EFS with a 16-MiB MMIO window, the PSP pointer
    // 0xFF00_0000 aliases flash offset 0.
    let image = FlashImage::new(MIB_16, BLOCK_4K);
    let mut efs = Efs::create(
        image.clone(),
        ProcessorGeneration::Naples,
        0x2_0000,
        Some(0x0100_0000),
    )
    .unwrap();
    let dir_bytes_begin = image.erasable_location(0).unwrap();
    let dir_end = image.erasable_location(0x1000).unwrap();
    let mut scratch = efs
        .create_psp_directory(
            *b"$PSP",
            dir_bytes_begin,
            dir_end,
            AddressMode::PhysicalAddress,
            &vec![],
        )
        .unwrap();
    let range = ErasableRange::new(dir_bytes_begin, dir_end);
    let bytes = scratch
        .save(BLOCK_4K, &range, image.erasable_location(0x1000).unwrap())
        .unwrap();
    {
        let mut writer = image.clone();
        amd_efs::flash::erase_and_write_blocks(&mut writer, dir_bytes_begin, &bytes).unwrap();
    }
    let pointer_holder = efs
        .create_psp_directory(
            *b"$PSP",
            image.erasable_location(0xFF00_0000).unwrap(),
            image.erasable_location(0xFF00_0000).unwrap(),
            AddressMode::PhysicalAddress,
            &vec![],
        )
        .unwrap();
    efs.set_main_psp_directory(&pointer_holder).unwrap();

    let efs = Efs::load(image.clone(), Some(ProcessorGeneration::Naples), Some(0x0100_0000))
        .unwrap();
    assert!(efs.physical_address_mode());
    let directory = efs.psp_directory().unwrap();
    assert_eq!(directory.beginning(), 0);
}

#[test]
fn psp_directory_with_unknown_cookie_is_rejected() {
    // A directory whose cookie reads "XXXX" does not load.
    let image = FlashImage::new(MIB_16, BLOCK_4K);
    image.poke(0x20_0000, b"XXXX");
    image.poke(0x20_0004, &[0u8; 12]);
    match amd_efs::PspDirectory::load(&image, 0x20_0000, 0x20_0000, None) {
        Err(Error::DirectoryTypeMismatch) => {},
        _ => panic!("expected a directory type mismatch"),
    }
}

#[test]
fn psp_directory_declared_other_directory_relative_fails_to_load() {
    // additional_info with address mode 3 (other-directory-relative) is
    // unsupported by AMD's PSP boot loader.
    let image = FlashImage::new(MIB_16, BLOCK_4K);
    image.poke(0x20_0000, b"$PSP");
    image.poke(0x20_0004, &[0u8; 4]);
    image.poke(0x20_0008, &[0u8; 4]);
    image.poke(0x20_000c, &(3u32 << 29).to_le_bytes());
    match amd_efs::PspDirectory::load(&image, 0x20_0000, 0x20_0000, None) {
        Err(Error::DirectoryTypeMismatch) => {},
        _ => panic!("expected a directory type mismatch"),
    }
}

#[test]
fn psp_directory_with_too_many_entries_is_rejected() {
    let image = FlashImage::new(MIB_16, BLOCK_4K);
    image.poke(0x20_0000, b"$PSP");
    image.poke(0x20_0004, &[0u8; 4]);
    image.poke(0x20_0008, &65u32.to_le_bytes());
    image.poke(0x20_000c, &(1u32 << 29).to_le_bytes());
    match amd_efs::PspDirectory::load(&image, 0x20_0000, 0x20_0000, None) {
        Err(Error::DirectoryRangeCheck) => {},
        _ => panic!("expected a directory range check"),
    }
}

#[test]
fn psp_subdirectory_absent_is_reported() {
    let image = FlashImage::new(MIB_16, BLOCK_4K);
    let mut efs = Efs::create(image.clone(), ProcessorGeneration::Milan, 0xFA_0000, None).unwrap();
    let beginning = image.erasable_location(0x20_0000).unwrap();
    let end = image.erasable_location(0x21_0000).unwrap();
    let directory = efs
        .create_psp_directory(
            *b"$PSP",
            beginning,
            end,
            AddressMode::EfsRelativeOffset,
            &vec![],
        )
        .unwrap();
    match efs.psp_subdirectory(&directory) {
        Err(Error::EntryNotFound) => {},
        _ => panic!("expected no subdirectory"),
    }
}

#[test]
fn flash_read_past_end_is_an_io_error() {
    let image = FlashImage::new(0x1000, 0x1000);
    match image.read_exact(0x800, 0x1000) {
        Err(amd_efs::flash::Error::Io(_)) => {},
        _ => panic!("expected a read failure"),
    }
}

#[test]
fn save_with_unaligned_payload_base_is_rejected() {
    // A payload base that is not a whole number of 4-kiB units cannot be
    // stored in the additional-info word.
    let image = FlashImage::new(MIB_16, BLOCK_4K);
    let mut efs = Efs::create(image.clone(), ProcessorGeneration::Milan, 0xFA_0000, None).unwrap();
    let beginning = image.erasable_location(0x20_0000).unwrap();
    let end = image.erasable_location(0x21_0000).unwrap();
    let mut directory = efs
        .create_psp_directory(
            *b"$PSP",
            beginning,
            end,
            AddressMode::EfsRelativeOffset,
            &vec![],
        )
        .unwrap();
    let range = ErasableRange::new(beginning, end);
    let small_block_image = FlashImage::new(MIB_16, 0x800);
    let payloads_beginning = small_block_image.erasable_location(0x800).unwrap();
    match directory.save(BLOCK_4K, &range, payloads_beginning) {
        Err(Error::DirectoryPayloadMisaligned) => {},
        _ => panic!("expected a payload misalignment failure"),
    }
}

#[test]
fn payload_beginning_of_value_entry_is_a_type_mismatch() {
    let image = FlashImage::new(MIB_16, BLOCK_4K);
    let mut efs = Efs::create(image.clone(), ProcessorGeneration::Milan, 0xFA_0000, None).unwrap();
    let beginning = image.erasable_location(0x20_0000).unwrap();
    let end = image.erasable_location(0x21_0000).unwrap();
    let mut directory = efs
        .create_psp_directory(
            *b"$PSP",
            beginning,
            end,
            AddressMode::EfsRelativeOffset,
            &vec![],
        )
        .unwrap();
    let entry = PspDirectoryEntry::new_value(PspDirectoryEntryType::PspSoftFuseChain, 1).unwrap();
    directory.add_value_entry(&entry).unwrap();
    match directory.payload_beginning(&directory.entries()[0]) {
        Err(Error::DirectoryTypeMismatch) => {},
        _ => panic!("expected a directory type mismatch"),
    }
}

#[test]
fn directory_relative_payload_overflow_is_reported() {
    let image = FlashImage::new(MIB_16, BLOCK_4K);
    let mut efs = Efs::create(image.clone(), ProcessorGeneration::Milan, 0xFA_0000, None).unwrap();
    let beginning = image.erasable_location(0xFFF0_0000).unwrap();
    let entry = PspDirectoryEntry::new_payload(
        AddressMode::DirectoryRelativeOffset,
        PspDirectoryEntryType::AmdPublicKey,
        Some(0x800),
        Some(ValueOrLocation::DirectoryRelativeOffset(0xFFF0_0000)),
    )
    .unwrap();
    let directory = efs
        .create_psp_directory(
            *b"$PSP",
            beginning,
            beginning,
            AddressMode::DirectoryRelativeOffset,
            &vec![entry],
        )
        .unwrap();
    match directory.payload_beginning(&directory.entries()[0]) {
        Err(Error::DirectoryPayloadRangeCheck) => {},
        _ => panic!("expected a payload range check"),
    }
}

#[test]
fn overlapping_bhd_directory_is_rejected() {
    // Creating a second BHD directory whose range intersects the first
    // one's allocation fails with an overlap error; a disjoint range is
    // accepted.
    let image = FlashImage::new(MIB_16, BLOCK_4K);
    let mut efs = Efs::create(image.clone(), ProcessorGeneration::Milan, 0xFA_0000, None).unwrap();
    let beginning = image.erasable_location(0x30_0000).unwrap();
    let end = image.erasable_location(0x31_0000).unwrap();
    let mut directory = efs
        .create_bhd_directory(
            *b"$BHD",
            beginning,
            end,
            AddressMode::EfsRelativeOffset,
            &vec![],
        )
        .unwrap();
    let range = ErasableRange::new(beginning, end);
    let bytes = directory
        .save(BLOCK_4K, &range, image.erasable_location(0x31_0000).unwrap())
        .unwrap();
    {
        let mut writer = image.clone();
        amd_efs::flash::erase_and_write_blocks(&mut writer, beginning, &bytes).unwrap();
    }
    efs.set_main_bhd_directory(&directory).unwrap();

    let b2 = image.erasable_location(0x30_8000).unwrap();
    let e2 = image.erasable_location(0x32_0000).unwrap();
    match efs.create_bhd_directory(*b"$BHD", b2, e2, AddressMode::EfsRelativeOffset, &vec![]) {
        Err(Error::Overlap) => {},
        _ => panic!("expected an overlap failure"),
    }

    let b3 = image.erasable_location(0x32_0000).unwrap();
    let e3 = image.erasable_location(0x33_0000).unwrap();
    assert!(
        efs.create_bhd_directory(*b"$BHD", b3, e3, AddressMode::EfsRelativeOffset, &vec![])
            .is_ok()
    );
}

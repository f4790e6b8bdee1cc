//! The directory engine and the EFS engine: loading, building and saving
//! PSP, BHD and combo directories, and finding and driving the Embedded
//! Firmware Structure on a flash image.

use crate::amdfletcher32::AmdFletcher32;
use crate::amdfletcher32::fletcher32_value;
use crate::flash;
use crate::flash::ErasableLocation;
use crate::flash::ErasableRange;
use crate::flash::FlashRead;
use crate::flash::FlashWrite;
use crate::flash::Location;
use crate::marshal::spec_u16_le;
use crate::ondisk::AddressMode;
use crate::ondisk::BhdDirectoryEntry;
use crate::ondisk::BhdDirectoryEntryType;
use crate::ondisk::BhdDirectoryHeader;
use crate::ondisk::ComboDirectoryEntry;
use crate::ondisk::ComboDirectoryHeader;
use crate::ondisk::DirectoryAdditionalInfo;
use crate::ondisk::Efh;
use crate::ondisk::EfhBulldozerSpiMode;
use crate::ondisk::EfhEspiConfiguration;
use crate::ondisk::EfhNaplesSpiMode;
use crate::ondisk::EfhRomeSpiMode;
use crate::ondisk::PspDirectoryEntry;
use crate::ondisk::PspDirectoryEntryType;
use crate::ondisk::PspDirectoryHeader;
use crate::ondisk::ProcessorGeneration;
use crate::ondisk::SpiFastSpeedNew;
use crate::ondisk::SpiReadMode;
use crate::ondisk::ValueOrLocation;
use crate::ondisk::efh_positions;
use crate::ondisk::spec_de_mmio;
use crate::ondisk::spec_efh_positions;
use crate::ondisk::spec_entry_source;
use crate::ondisk::spec_location_of_raw;
use crate::ondisk::spec_mmio_decode;
use crate::ondisk::spec_parse_efh;
use crate::ondisk::spec_physical_address_mode;
use crate::ondisk::spec_second_gen_efs;
use crate::ondisk::spec_compatible_with_generation;
use crate::ondisk::spec_is_invalid_directory_table_location;
use crate::ondisk::spec_is_likely_location;
use crate::ondisk::mmio_decode;
use crate::ondisk::is_invalid_directory_table_location;
use crate::ondisk::is_likely_location;
use crate::types::Error;
use crate::types::Result;
use vstd::prelude::*;

verus! {

/// The implementation limit on materialised directory entries; AMD
/// documents no ceiling.
pub const MAX_DIRECTORY_ENTRIES: usize = 64;

/// The u16 word stream of a byte sequence of even length.
pub open spec fn spec_words_of_bytes(b: Seq<u8>) -> Seq<u16>
    recommends
        b.len() % 2 == 0,
{
    Seq::new(b.len() / 2, |i: int| spec_u16_le(b, 2 * i))
}

/// Word streams concatenate along even byte boundaries.
pub proof fn lemma_words_of_bytes_append(a: Seq<u8>, b: Seq<u8>)
    requires
        a.len() % 2 == 0,
        b.len() % 2 == 0,
    ensures
        spec_words_of_bytes(a + b) == spec_words_of_bytes(a) + spec_words_of_bytes(b),
{
    assert(spec_words_of_bytes(a + b) =~= spec_words_of_bytes(a) + spec_words_of_bytes(b)) by {
        assert forall|i: int| 0 <= i < (a.len() + b.len()) / 2 implies spec_words_of_bytes(a + b)[i]
            == (spec_words_of_bytes(a) + spec_words_of_bytes(b))[i] by {
            if i < a.len() / 2 {
                assert(spec_u16_le(a + b, 2 * i) == spec_u16_le(a, 2 * i));
            } else {
                assert((a + b)[2 * i] == b[2 * i - a.len()]);
                assert((a + b)[2 * i + 1] == b[2 * i - a.len() + 1]);
                assert(spec_u16_le(a + b, 2 * i) == spec_u16_le(b, 2 * (i - a.len() / 2)));
            }
        };
    };
}

/// The two little-endian u16 words of a 32-bit word.
pub open spec fn spec_u32_words(v: u32) -> Seq<u16> {
    seq![(v as int % 0x10000) as u16, (v as int / 0x10000) as u16]
}

/// The word stream the directory checksum covers: `total_entries`,
/// `additional_info`, then every entry byte as little-endian u16 pairs.
/// The cookie and the checksum field itself are excluded.
pub open spec fn spec_directory_checksum_words(
    total_entries: u32,
    additional_info: u32,
    entry_bytes: Seq<u8>,
) -> Seq<u16>
    recommends
        entry_bytes.len() % 2 == 0,
{
    spec_u32_words(total_entries) + spec_u32_words(additional_info) + spec_words_of_bytes(
        entry_bytes,
    )
}

/// Push the two words of a 32-bit value.
fn push_u32_words(out: &mut Vec<u16>, v: u32)
    ensures
        final(out)@ == old(out)@ + spec_u32_words(v),
{
    out.push((v % 0x10000) as u16);
    out.push((v / 0x10000) as u16);
    proof {
        assert(final(out)@ =~= old(out)@ + spec_u32_words(v));
    }
}

/// Push the u16 words of an even-length byte sequence.
fn push_words_of_bytes(out: &mut Vec<u16>, bytes: &Vec<u8>)
    requires
        bytes@.len() % 2 == 0,
    ensures
        final(out)@ == old(out)@ + spec_words_of_bytes(bytes@),
{
    let mut i: usize = 0;
    proof {
        assert(out@ =~= old(out)@ + spec_words_of_bytes(bytes@).take(0));
    }
    while i + 1 < bytes.len()
        invariant
            bytes@.len() % 2 == 0,
            i % 2 == 0,
            i <= bytes@.len(),
            out@ == old(out)@ + spec_words_of_bytes(bytes@).take(i as int / 2),
        decreases bytes@.len() - i,
    {
        let w: u16 = crate::marshal::read_u16_le(bytes.as_slice(), i);
        out.push(w);
        proof {
            assert(out@ =~= old(out)@ + spec_words_of_bytes(bytes@).take(i as int / 2 + 1));
        }
        i = i + 2;
    }
    proof {
        assert(spec_words_of_bytes(bytes@).take(bytes@.len() as int / 2) =~= spec_words_of_bytes(bytes@));
    }
}

/// The concatenated on-disk bytes of a sequence of PSP directory entries.
pub open spec fn spec_psp_entries_bytes(entries: Seq<PspDirectoryEntry>) -> Seq<u8>
    decreases entries.len(),
{
    if entries.len() == 0 {
        Seq::empty()
    } else {
        spec_psp_entries_bytes(entries.drop_last()) + entries.last().spec_bytes()
    }
}

pub proof fn lemma_psp_entries_bytes_len(entries: Seq<PspDirectoryEntry>)
    ensures
        spec_psp_entries_bytes(entries).len() == 16 * entries.len(),
    decreases entries.len(),
{
    if entries.len() > 0 {
        lemma_psp_entries_bytes_len(entries.drop_last());
    }
}

/// Entry `i` occupies bytes `16 i .. 16 i + 16` of the concatenation.
pub proof fn lemma_psp_entries_bytes_index(entries: Seq<PspDirectoryEntry>, i: int)
    requires
        0 <= i < entries.len(),
    ensures
        spec_psp_entries_bytes(entries).subrange(16 * i, 16 * i + 16) == entries[i].spec_bytes(),
    decreases entries.len(),
{
    lemma_psp_entries_bytes_len(entries);
    lemma_psp_entries_bytes_len(entries.drop_last());
    if i == entries.len() - 1 {
        assert(spec_psp_entries_bytes(entries).subrange(16 * i, 16 * i + 16) =~= entries[i].spec_bytes());
    } else {
        lemma_psp_entries_bytes_index(entries.drop_last(), i);
        assert(spec_psp_entries_bytes(entries).subrange(16 * i, 16 * i + 16) =~= spec_psp_entries_bytes(
            entries.drop_last(),
        ).subrange(16 * i, 16 * i + 16));
    }
}

/// A first- or second-level PSP directory, materialised in memory.
#[derive(Debug, Clone)]
pub struct PspDirectory {
    /// The base that `OtherDirectoryRelativeOffset` pointers are resolved
    /// against: the beginning of the directory that introduced this one,
    /// or 0.
    mode3_base: Location,
    beginning: Location,
    directory_address_mode: AddressMode,
    header: PspDirectoryHeader,
    /// How many bytes of the address space below 4 GiB are memory-mapped
    /// to flash, where the image stores `PhysicalAddress` pointers.
    amd_physical_mode_mmio_size: Option<u32>,
    entries: Vec<PspDirectoryEntry>,
}

impl PspDirectory {
    pub closed spec fn spec_header(&self) -> PspDirectoryHeader {
        self.header
    }

    pub closed spec fn spec_beginning(&self) -> Location {
        self.beginning
    }

    pub closed spec fn spec_mode3_base(&self) -> Location {
        self.mode3_base
    }

    pub closed spec fn spec_directory_address_mode(&self) -> AddressMode {
        self.directory_address_mode
    }

    pub closed spec fn spec_mmio_size(&self) -> Option<u32> {
        self.amd_physical_mode_mmio_size
    }

    pub closed spec fn spec_entries(&self) -> Seq<PspDirectoryEntry> {
        self.entries@
    }

    pub open spec fn wf(&self) -> bool {
        &&& self.spec_entries().len() == self.spec_header().total_entries
        &&& self.spec_entries().len() <= MAX_DIRECTORY_ENTRIES
        &&& forall|i: int| 0 <= i < self.spec_entries().len() ==> #[trigger] self.spec_entries()[i].wf()
    }

    pub fn header(&self) -> (r: PspDirectoryHeader)
        ensures
            r == self.spec_header(),
    {
        self.header
    }

    pub fn beginning(&self) -> (r: Location)
        ensures
            r == self.spec_beginning(),
    {
        self.beginning
    }

    pub fn directory_address_mode(&self) -> (r: AddressMode)
        ensures
            r == self.spec_directory_address_mode(),
    {
        self.directory_address_mode
    }

    /// The size in bytes of a directory with the given number of entries:
    /// one header plus `total_entries` entries.
    pub fn minimal_directory_size(total_entries: usize) -> (r: Result<usize>)
        ensures
            match r {
                Ok(v) => v == 16 + 16 * total_entries && 16 + 16 * total_entries <= usize::MAX,
                Err(e) => e == Error::DirectoryRangeCheck && 16 + 16 * total_entries > usize::MAX,
            },
    {
        match total_entries.checked_mul(16) {
            Some(entries_size) => match entries_size.checked_add(16) {
                Some(v) => Ok(v),
                None => Err(Error::DirectoryRangeCheck),
            },
            None => Err(Error::DirectoryRangeCheck),
        }
    }

    /// What a successful load says of the result: the header was parsed at
    /// `beginning`, its cookie and address mode accepted, and every entry
    /// parsed from its slot after the header.
    pub open spec fn spec_loaded(
        d: PspDirectory,
        contents: Seq<u8>,
        beginning: Location,
        mode3_base: Location,
        amd_physical_mode_mmio_size: Option<u32>,
    ) -> bool {
        let h = PspDirectoryHeader::spec_parse(
            contents.subrange(beginning as int, beginning as int + 16),
        );
        &&& beginning + 16 <= contents.len()
        &&& d.spec_header() == h
        &&& PspDirectoryHeader::spec_cookie_allowed(h.cookie)
        &&& d.spec_directory_address_mode() == DirectoryAdditionalInfo::spec_from_u32(
            h.additional_info,
        ).address_mode
        &&& d.spec_directory_address_mode() != AddressMode::OtherDirectoryRelativeOffset
        &&& h.total_entries <= MAX_DIRECTORY_ENTRIES
        &&& beginning + 16 + 16 * h.total_entries <= contents.len()
        &&& d.spec_entries().len() == h.total_entries
        &&& forall|i: int|
            0 <= i < d.spec_entries().len() ==> #[trigger] d.spec_entries()[i]
                == PspDirectoryEntry::spec_parse(
                contents.subrange(beginning + 16 + 16 * i, beginning + 32 + 16 * i),
            )
        &&& d.spec_beginning() == beginning
        &&& d.spec_mode3_base() == mode3_base
        &&& d.spec_mmio_size() == amd_physical_mode_mmio_size
        &&& d.wf()
    }

    /// Load a directory from flash. The caller checks afterwards whether
    /// the cookie is the expected one; the friendlier accessors on `Efs`
    /// do that already.
    pub fn load<T: FlashRead>(
        storage: &T,
        beginning: Location,
        mode3_base: Location,
        amd_physical_mode_mmio_size: Option<u32>,
    ) -> (r: Result<Self>)
        ensures
            match r {
                Ok(d) => Self::spec_loaded(
                    d,
                    storage.contents(),
                    beginning,
                    mode3_base,
                    amd_physical_mode_mmio_size,
                ),
                Err(e) => {
                    let h = PspDirectoryHeader::spec_parse(
                        storage.contents().subrange(beginning as int, beginning as int + 16),
                    );
                    ||| e matches Error::Io(_)
                    ||| (e == Error::DirectoryTypeMismatch && beginning + 16
                        <= storage.contents().len() && (!PspDirectoryHeader::spec_cookie_allowed(
                        h.cookie,
                    ) || DirectoryAdditionalInfo::spec_from_u32(h.additional_info).address_mode
                        == AddressMode::OtherDirectoryRelativeOffset))
                    ||| (e == Error::DirectoryRangeCheck && beginning + 16
                        <= storage.contents().len() && PspDirectoryHeader::spec_cookie_allowed(h.cookie)
                        && DirectoryAdditionalInfo::spec_from_u32(h.additional_info).address_mode
                        != AddressMode::OtherDirectoryRelativeOffset
                        && (h.total_entries > MAX_DIRECTORY_ENTRIES
                        || beginning + 16 + 16 * h.total_entries > u32::MAX))
                },
            },
    {
        let buf = match storage.read_exact(beginning, 16) {
            Ok(b) => b,
            Err(e) => {
                return Err(Error::Io(e));
            },
        };
        let header = PspDirectoryHeader::parse(buf.as_slice());
        if !PspDirectoryHeader::cookie_allowed(&header.cookie()) {
            return Err(Error::DirectoryTypeMismatch);
        }
        let directory_address_mode = header.additional_info().address_mode();
        let directory_type_matches = match directory_address_mode {
            AddressMode::PhysicalAddress => true,
            AddressMode::EfsRelativeOffset => true,
            AddressMode::DirectoryRelativeOffset => true,
            AddressMode::OtherDirectoryRelativeOffset => false,
        };
        if !directory_type_matches {
            return Err(Error::DirectoryTypeMismatch);
        }
        let total_entries = header.total_entries();
        if total_entries > MAX_DIRECTORY_ENTRIES as u32 {
            return Err(Error::DirectoryRangeCheck);
        }
        let total = total_entries as usize;
        let mut entries: Vec<PspDirectoryEntry> = Vec::new();
        let mut i: usize = 0;
        while i < total
            invariant
                i <= total,
                total <= MAX_DIRECTORY_ENTRIES,
                entries@.len() == i,
                beginning + 16 <= storage.contents().len(),
                i > 0 ==> beginning + 16 + 16 * i <= storage.contents().len(),
                total == PspDirectoryHeader::spec_parse(
                    storage.contents().subrange(beginning as int, beginning as int + 16),
                ).total_entries,
                PspDirectoryHeader::spec_cookie_allowed(
                    PspDirectoryHeader::spec_parse(
                        storage.contents().subrange(beginning as int, beginning as int + 16),
                    ).cookie,
                ),
                DirectoryAdditionalInfo::spec_from_u32(
                    PspDirectoryHeader::spec_parse(
                        storage.contents().subrange(beginning as int, beginning as int + 16),
                    ).additional_info,
                ).address_mode != AddressMode::OtherDirectoryRelativeOffset,
                forall|j: int|
                    0 <= j < i ==> ({
                        &&& beginning + 32 + 16 * j <= storage.contents().len()
                        &&& #[trigger] entries@[j] == PspDirectoryEntry::spec_parse(
                            storage.contents().subrange(
                                beginning + 16 + 16 * j,
                                beginning + 32 + 16 * j,
                            ),
                        )
                        &&& entries@[j].wf()
                    }),
            decreases total - i,
        {
            let offset: u32 = 16 + 16 * (i as u32);
            let cursor: u32 = match beginning.checked_add(offset) {
                Some(c) => c,
                None => {
                    return Err(Error::DirectoryRangeCheck);
                },
            };
            let buf = match storage.read_exact(cursor, 16) {
                Ok(b) => b,
                Err(e) => {
                    return Err(Error::Io(e));
                },
            };
            let entry = PspDirectoryEntry::parse(buf.as_slice());
            entries.push(entry);
            i = i + 1;
        }
        proof {
            if total > 0 {
                assert(entries@[total - 1] == PspDirectoryEntry::spec_parse(
                    storage.contents().subrange(
                        beginning + 16 + 16 * (total - 1),
                        beginning + 32 + 16 * (total - 1),
                    ),
                ));
            }
        }
        Ok(
            Self {
                beginning,
                mode3_base,
                directory_address_mode,
                header,
                amd_physical_mode_mmio_size,
                entries,
            },
        )
    }

    /// Build a directory in memory. The weak mode's inverse,
    /// `OtherDirectoryRelativeOffset`, is unsupported by AMD's PSP boot
    /// loader and refused.
    pub(crate) fn create(
        beginning: Location,
        mode3_base: Location,
        directory_address_mode: AddressMode,
        cookie: [u8; 4],
        amd_physical_mode_mmio_size: Option<u32>,
        entries: &Vec<PspDirectoryEntry>,
    ) -> (r: Result<Self>)
        requires
            forall|i: int| 0 <= i < entries@.len() ==> #[trigger] entries@[i].wf(),
        ensures
            match r {
                Ok(d) => {
                    &&& directory_address_mode != AddressMode::OtherDirectoryRelativeOffset
                    &&& entries@.len() <= MAX_DIRECTORY_ENTRIES
                    &&& d.spec_header() == (PspDirectoryHeader {
                        cookie,
                        checksum: 0,
                        total_entries: entries@.len() as u32,
                        additional_info: 0xffff_ffffu32,
                    })
                    &&& d.spec_entries() == entries@
                    &&& d.spec_beginning() == beginning
                    &&& d.spec_mode3_base() == mode3_base
                    &&& d.spec_directory_address_mode() == directory_address_mode
                    &&& d.spec_mmio_size() == amd_physical_mode_mmio_size
                    &&& d.wf()
                },
                Err(e) => {
                    ||| (e == Error::DirectoryTypeMismatch && directory_address_mode
                        == AddressMode::OtherDirectoryRelativeOffset)
                    ||| (e == Error::DirectoryRangeCheck && entries@.len()
                        > MAX_DIRECTORY_ENTRIES)
                },
            },
    {
        if directory_address_mode == AddressMode::OtherDirectoryRelativeOffset {
            return Err(Error::DirectoryTypeMismatch);
        }
        let mut header = PspDirectoryHeader::default();
        header.set_cookie(cookie);
        let mut result = Self {
            beginning,
            mode3_base,
            directory_address_mode,
            header,
            amd_physical_mode_mmio_size,
            entries: Vec::new(),
        };
        let mut i: usize = 0;
        while i < entries.len()
            invariant
                i <= entries@.len(),
                i <= MAX_DIRECTORY_ENTRIES,
                forall|j: int| 0 <= j < entries@.len() ==> #[trigger] entries@[j].wf(),
                result.wf(),
                result.spec_entries() == entries@.take(i as int),
                result.spec_header() == (PspDirectoryHeader {
                    cookie,
                    checksum: 0,
                    total_entries: i as u32,
                    additional_info: 0xffff_ffffu32,
                }),
                result.spec_beginning() == beginning,
                result.spec_mode3_base() == mode3_base,
                result.spec_directory_address_mode() == directory_address_mode,
                result.spec_mmio_size() == amd_physical_mode_mmio_size,
            decreases entries@.len() - i,
        {
            let entry = entries[i];
            match result.add_entry_direct(&entry) {
                Ok(()) => {},
                Err(e) => {
                    return Err(e);
                },
            }
            proof {
                assert(result.spec_entries() =~= entries@.take(i as int + 1));
            }
            i = i + 1;
        }
        proof {
            assert(entries@.take(entries@.len() as int) =~= entries@);
        }
        Ok(result)
    }

    /// Append one entry and count it in the header.
    pub(crate) fn add_entry_direct(&mut self, entry: &PspDirectoryEntry) -> (r: Result<()>)
        requires
            old(self).wf(),
            entry.wf(),
        ensures
            final(self).wf(),
            final(self).spec_beginning() == old(self).spec_beginning(),
            final(self).spec_mode3_base() == old(self).spec_mode3_base(),
            final(self).spec_directory_address_mode() == old(self).spec_directory_address_mode(),
            final(self).spec_mmio_size() == old(self).spec_mmio_size(),
            match r {
                Ok(_) => {
                    &&& old(self).spec_entries().len() < MAX_DIRECTORY_ENTRIES
                    &&& final(self).spec_entries() == old(self).spec_entries().push(*entry)
                    &&& final(self).spec_header() == (PspDirectoryHeader {
                        total_entries: (old(self).spec_header().total_entries + 1) as u32,
                        ..old(self).spec_header()
                    })
                },
                Err(e) => {
                    &&& e == Error::DirectoryRangeCheck
                    &&& old(self).spec_entries().len() >= MAX_DIRECTORY_ENTRIES
                    &&& *final(self) == *old(self)
                },
            },
    {
        if self.entries.len() >= MAX_DIRECTORY_ENTRIES {
            return Err(Error::DirectoryRangeCheck);
        }
        let total_entries = self.header.total_entries() + 1;
        self.entries.push(*entry);
        self.header.set_total_entries(total_entries);
        Ok(())
    }

    /// Append a value entry (one whose source is an immediate value).
    pub fn add_value_entry(&mut self, entry: &PspDirectoryEntry) -> (r: Result<()>)
        requires
            old(self).wf(),
            entry.wf(),
        ensures
            final(self).wf(),
            final(self).spec_beginning() == old(self).spec_beginning(),
            final(self).spec_directory_address_mode() == old(self).spec_directory_address_mode(),
            match r {
                Ok(_) => {
                    &&& entry.internal_size == crate::ondisk::SIZE_VALUE_MARKER
                    &&& old(self).spec_entries().len() < MAX_DIRECTORY_ENTRIES
                    &&& final(self).spec_entries() == old(self).spec_entries().push(*entry)
                    &&& final(self).spec_header() == (PspDirectoryHeader {
                        total_entries: (old(self).spec_header().total_entries + 1) as u32,
                        ..old(self).spec_header()
                    })
                },
                Err(e) => {
                    ||| (e == Error::EntryTypeMismatch && entry.internal_size
                        != crate::ondisk::SIZE_VALUE_MARKER && spec_location_of_raw(
                        AddressMode::DirectoryRelativeOffset,
                        entry.internal_source,
                    ) is Some && *final(self) == *old(self))
                    ||| (e == Error::DirectoryPayloadRangeCheck && entry.internal_size
                        != crate::ondisk::SIZE_VALUE_MARKER && spec_location_of_raw(
                        AddressMode::DirectoryRelativeOffset,
                        entry.internal_source,
                    ) is None && *final(self) == *old(self))
                    ||| (e == Error::DirectoryRangeCheck && entry.internal_size
                        == crate::ondisk::SIZE_VALUE_MARKER && old(self).spec_entries().len()
                        >= MAX_DIRECTORY_ENTRIES && *final(self) == *old(self))
                },
            },
    {
        // The weak mode lets the entry itself decide, so any stored source
        // decodes; a value entry is recognised by its size marker.
        match entry.source(AddressMode::DirectoryRelativeOffset) {
            Ok(ValueOrLocation::Value(_)) => {
                proof {
                    // A decoded raw location is never an immediate value,
                    // so a Value here means the size marker was set.
                    if entry.internal_size != crate::ondisk::SIZE_VALUE_MARKER {
                        let decoded = spec_location_of_raw(
                            AddressMode::DirectoryRelativeOffset,
                            entry.internal_source,
                        );
                        assert(!(decoded.unwrap() is Value));
                    }
                }
                self.add_entry_direct(entry)
            },
            Ok(_) => Err(Error::EntryTypeMismatch),
            Err(e) => Err(e),
        }
    }

    /// The stored entries, in order; only the first `total_entries` are
    /// meaningful and only those are returned.
    pub fn entries(&self) -> (r: Vec<PspDirectoryEntry>)
        ensures
            r@ == self.spec_entries(),
    {
        let mut out: Vec<PspDirectoryEntry> = Vec::new();
        let mut i: usize = 0;
        while i < self.entries.len()
            invariant
                i <= self.spec_entries().len(),
                out@ == self.spec_entries().take(i as int),
            decreases self.spec_entries().len() - i,
        {
            out.push(self.entries[i]);
            proof {
                assert(out@ =~= self.spec_entries().take(i as int + 1));
            }
            i = i + 1;
        }
        proof {
            assert(out@ =~= self.spec_entries());
        }
        out
    }

    /// How a decoded source resolves to a flash offset; see
    /// `spec_location_of_source`.
    pub fn location_of_source(&self, source: ValueOrLocation, entry_base_location: Location) -> (r:
        Result<Location>)
        ensures
            match r {
                Ok(loc) => spec_location_of_source(
                    source,
                    self.spec_beginning(),
                    entry_base_location,
                    self.spec_mmio_size(),
                ) == Ok::<Location, Error>(loc),
                Err(e) => spec_location_of_source(
                    source,
                    self.spec_beginning(),
                    entry_base_location,
                    self.spec_mmio_size(),
                ) == Err::<Location, Error>(e),
            },
    {
        location_of_source_impl(
            source,
            self.beginning,
            entry_base_location,
            self.amd_physical_mode_mmio_size,
        )
    }

    /// The flash offset of an entry's payload.
    pub fn payload_beginning(&self, entry: &PspDirectoryEntry) -> (r: Result<Location>)
        ensures
            match spec_entry_source(
                self.spec_directory_address_mode(),
                entry.internal_size,
                entry.internal_source,
            ) {
                Some(v) => r == spec_location_of_source(
                    v,
                    self.spec_beginning(),
                    self.spec_mode3_base(),
                    self.spec_mmio_size(),
                ),
                None => r == Err::<Location, Error>(Error::DirectoryPayloadRangeCheck),
            },
    {
        let source = match entry.source(self.directory_address_mode) {
            Ok(s) => s,
            Err(e) => {
                return Err(e);
            },
        };
        self.location_of_source(source, self.mode3_base)
    }

    /// Recompute the checksum over `total_entries`, `additional_info` and
    /// all entries, and store it in the header.
    fn update_main_header(&mut self, total_entries: u32) -> (r: Result<()>)
        requires
            old(self).wf(),
            total_entries == old(self).spec_header().total_entries,
        ensures
            r is Ok,
            final(self).wf(),
            final(self).spec_entries() == old(self).spec_entries(),
            final(self).spec_beginning() == old(self).spec_beginning(),
            final(self).spec_mode3_base() == old(self).spec_mode3_base(),
            final(self).spec_directory_address_mode() == old(self).spec_directory_address_mode(),
            final(self).spec_mmio_size() == old(self).spec_mmio_size(),
            final(self).spec_header() == (PspDirectoryHeader {
                checksum: fletcher32_value(
                    spec_directory_checksum_words(
                        total_entries,
                        old(self).spec_header().additional_info,
                        spec_psp_entries_bytes(old(self).spec_entries()),
                    ),
                ) as u32,
                ..old(self).spec_header()
            }),
    {
        let mut words: Vec<u16> = Vec::new();
        push_u32_words(&mut words, total_entries);
        push_u32_words(&mut words, self.header.additional_info().to_u32());
        proof {
            crate::ondisk::lemma_additional_info_unpack_pack(self.header.additional_info);
            assert(words@ =~= spec_u32_words(total_entries) + spec_u32_words(
                self.spec_header().additional_info,
            ) + spec_words_of_bytes(spec_psp_entries_bytes(self.spec_entries().take(0))));
        }
        let mut i: usize = 0;
        while i < self.entries.len()
            invariant
                self.wf(),
                i <= self.spec_entries().len(),
                spec_psp_entries_bytes(self.spec_entries().take(i as int)).len() % 2 == 0,
                words@ == spec_u32_words(self.spec_header().total_entries)
                    + spec_u32_words(self.spec_header().additional_info)
                    + spec_words_of_bytes(
                    spec_psp_entries_bytes(self.spec_entries().take(i as int)),
                ),
                total_entries == self.spec_header().total_entries,
            decreases self.spec_entries().len() - i,
        {
            let entry_bytes = self.entries[i].to_bytes();
            proof {
                lemma_psp_entries_bytes_len(self.spec_entries().take(i as int));
                lemma_psp_entries_bytes_len(self.spec_entries().take(i as int + 1));
                assert(self.spec_entries().take(i as int + 1).drop_last() =~= self.spec_entries().take(
                    i as int,
                ));
                lemma_words_of_bytes_append(
                    spec_psp_entries_bytes(self.spec_entries().take(i as int)),
                    entry_bytes@,
                );
            }
            push_words_of_bytes(&mut words, &entry_bytes);
            i = i + 1;
        }
        proof {
            assert(self.spec_entries().take(self.spec_entries().len() as int) =~= self.spec_entries());
            lemma_psp_entries_bytes_len(self.spec_entries());
        }
        let mut checksummer = AmdFletcher32::new();
        checksummer.update(words.as_slice());
        proof {
            assert(Seq::<u16>::empty() + words@ =~= words@);
        }
        let checksum: u32 = checksummer.value().value();
        self.header.set_checksum(checksum);
        Ok(())
    }

    /// Fill in `additional_info` from the allocation, recompute the
    /// checksum, and serialise the directory: the header followed by all
    /// entries. The caller writes the bytes to flash with
    /// `erase_and_write_blocks` at the range's beginning.
    pub fn save(
        &mut self,
        erasable_block_size: usize,
        range: &ErasableRange,
        payloads_beginning: ErasableLocation,
    ) -> (r: Result<Vec<u8>>)
        requires
            old(self).wf(),
            payloads_beginning.spec_location() < 0x8000 * 4096,
        ensures
            final(self).wf(),
            final(self).spec_entries() == old(self).spec_entries(),
            final(self).spec_beginning() == old(self).spec_beginning(),
            final(self).spec_mode3_base() == old(self).spec_mode3_base(),
            final(self).spec_directory_address_mode() == old(self).spec_directory_address_mode(),
            final(self).spec_mmio_size() == old(self).spec_mmio_size(),
            match r {
                Ok(bytes) => {
                    let info = spec_save_additional_info(
                        range,
                        erasable_block_size,
                        payloads_beginning,
                    );
                    &&& PspDirectoryHeader::spec_cookie_allowed(old(self).spec_header().cookie)
                    &&& info is Ok
                    &&& final(self).spec_header() == (PspDirectoryHeader {
                        additional_info: info.unwrap().spec_to_u32(),
                        checksum: fletcher32_value(
                            spec_directory_checksum_words(
                                old(self).spec_header().total_entries,
                                info.unwrap().spec_to_u32(),
                                spec_psp_entries_bytes(old(self).spec_entries()),
                            ),
                        ) as u32,
                        ..old(self).spec_header()
                    })
                    &&& bytes@ == final(self).spec_header().spec_bytes() + spec_psp_entries_bytes(
                        final(self).spec_entries(),
                    )
                },
                Err(e) => {
                    ||| (e == Error::DirectoryTypeMismatch
                        && !PspDirectoryHeader::spec_cookie_allowed(old(self).spec_header().cookie)
                        && *final(self) == *old(self))
                    ||| (Err::<DirectoryAdditionalInfo, Error>(e) == spec_save_additional_info(
                        range,
                        erasable_block_size,
                        payloads_beginning,
                    ) && *final(self) == *old(self))
                },
            },
    {
        if !PspDirectoryHeader::cookie_allowed(&self.header.cookie()) {
            return Err(Error::DirectoryTypeMismatch);
        }
        let total_entries = self.header.total_entries();
        let additional_info = match save_additional_info(
            range,
            erasable_block_size,
            payloads_beginning,
        ) {
            Ok(info) => info,
            Err(e) => {
                return Err(e);
            },
        };
        self.header.set_additional_info(additional_info);
        proof {
            crate::ondisk::lemma_additional_info_pack_unpack(additional_info);
        }
        match self.update_main_header(total_entries) {
            Ok(()) => {},
            Err(e) => {
                return Err(e);
            },
        }
        let mut result: Vec<u8> = Vec::new();
        self.header.append_bytes(&mut result);
        let mut i: usize = 0;
        while i < self.entries.len()
            invariant
                self.wf(),
                i <= self.spec_entries().len(),
                result@ == self.spec_header().spec_bytes() + spec_psp_entries_bytes(
                    self.spec_entries().take(i as int),
                ),
            decreases self.spec_entries().len() - i,
        {
            let entry = self.entries[i];
            entry.append_bytes(&mut result);
            proof {
                assert(self.spec_entries().take(i as int + 1).drop_last() =~= self.spec_entries().take(
                    i as int,
                ));
                assert(result@ =~= self.spec_header().spec_bytes() + spec_psp_entries_bytes(
                    self.spec_entries().take(i as int + 1),
                ));
            }
            i = i + 1;
        }
        proof {
            assert(self.spec_entries().take(self.spec_entries().len() as int) =~= self.spec_entries());
        }
        Ok(result)
    }
}

/// The concatenated on-disk bytes of a sequence of combo directory entries.
pub open spec fn spec_combo_entries_bytes(entries: Seq<ComboDirectoryEntry>) -> Seq<u8>
    decreases entries.len(),
{
    if entries.len() == 0 {
        Seq::empty()
    } else {
        spec_combo_entries_bytes(entries.drop_last()) + entries.last().spec_bytes()
    }
}

pub proof fn lemma_combo_entries_bytes_len(entries: Seq<ComboDirectoryEntry>)
    ensures
        spec_combo_entries_bytes(entries).len() == 16 * entries.len(),
    decreases entries.len(),
{
    if entries.len() > 0 {
        lemma_combo_entries_bytes_len(entries.drop_last());
    }
}

/// Entry `i` occupies bytes `16 i .. 16 i + 16` of the concatenation.
pub proof fn lemma_combo_entries_bytes_index(entries: Seq<ComboDirectoryEntry>, i: int)
    requires
        0 <= i < entries.len(),
    ensures
        spec_combo_entries_bytes(entries).subrange(16 * i, 16 * i + 16) == entries[i].spec_bytes(),
    decreases entries.len(),
{
    lemma_combo_entries_bytes_len(entries);
    lemma_combo_entries_bytes_len(entries.drop_last());
    if i == entries.len() - 1 {
        assert(spec_combo_entries_bytes(entries).subrange(16 * i, 16 * i + 16) =~= entries[i].spec_bytes());
    } else {
        lemma_combo_entries_bytes_index(entries.drop_last(), i);
        assert(spec_combo_entries_bytes(entries).subrange(16 * i, 16 * i + 16) =~= spec_combo_entries_bytes(
            entries.drop_last(),
        ).subrange(16 * i, 16 * i + 16));
    }
}

/// A combo directory, whose entries select sub-directories by
/// processor or family id, materialised in memory.
#[derive(Debug, Clone)]
pub struct ComboDirectory {
    /// The base that `OtherDirectoryRelativeOffset` pointers are resolved
    /// against: the beginning of the directory that introduced this one,
    /// or 0.
    mode3_base: Location,
    beginning: Location,
    directory_address_mode: AddressMode,
    header: ComboDirectoryHeader,
    /// How many bytes of the address space below 4 GiB are memory-mapped
    /// to flash, where the image stores `PhysicalAddress` pointers.
    amd_physical_mode_mmio_size: Option<u32>,
    entries: Vec<ComboDirectoryEntry>,
}

impl ComboDirectory {
    pub closed spec fn spec_header(&self) -> ComboDirectoryHeader {
        self.header
    }

    pub closed spec fn spec_beginning(&self) -> Location {
        self.beginning
    }

    pub closed spec fn spec_mode3_base(&self) -> Location {
        self.mode3_base
    }

    pub closed spec fn spec_directory_address_mode(&self) -> AddressMode {
        self.directory_address_mode
    }

    pub closed spec fn spec_mmio_size(&self) -> Option<u32> {
        self.amd_physical_mode_mmio_size
    }

    pub closed spec fn spec_entries(&self) -> Seq<ComboDirectoryEntry> {
        self.entries@
    }

    pub open spec fn wf(&self) -> bool {
        &&& self.spec_entries().len() == self.spec_header().total_entries
        &&& self.spec_entries().len() <= MAX_DIRECTORY_ENTRIES
    }

    pub fn header(&self) -> (r: ComboDirectoryHeader)
        ensures
            r == self.spec_header(),
    {
        self.header
    }

    pub fn beginning(&self) -> (r: Location)
        ensures
            r == self.spec_beginning(),
    {
        self.beginning
    }

    pub fn directory_address_mode(&self) -> (r: AddressMode)
        ensures
            r == self.spec_directory_address_mode(),
    {
        self.directory_address_mode
    }

    /// The size in bytes of a directory with the given number of entries:
    /// one header plus `total_entries` entries.
    pub fn minimal_directory_size(total_entries: usize) -> (r: Result<usize>)
        ensures
            match r {
                Ok(v) => v == 32 + 16 * total_entries && 32 + 16 * total_entries <= usize::MAX,
                Err(e) => e == Error::DirectoryRangeCheck && 32 + 16 * total_entries > usize::MAX,
            },
    {
        match total_entries.checked_mul(16) {
            Some(entries_size) => match entries_size.checked_add(32) {
                Some(v) => Ok(v),
                None => Err(Error::DirectoryRangeCheck),
            },
            None => Err(Error::DirectoryRangeCheck),
        }
    }

    /// What a successful load says of the result: the header was parsed at
    /// `beginning`, its cookie and address mode accepted, and every entry
    /// parsed from its slot after the header.
    pub open spec fn spec_loaded(
        d: ComboDirectory,
        contents: Seq<u8>,
        beginning: Location,
        mode3_base: Location,
        amd_physical_mode_mmio_size: Option<u32>,
    ) -> bool {
        let h = ComboDirectoryHeader::spec_parse(
            contents.subrange(beginning as int, beginning as int + 32),
        );
        &&& beginning + 32 <= contents.len()
        &&& d.spec_header() == h
        &&& ComboDirectoryHeader::spec_cookie_allowed(h.cookie)
        &&& d.spec_directory_address_mode() == AddressMode::PhysicalAddress
        &&& d.spec_directory_address_mode() != AddressMode::OtherDirectoryRelativeOffset
        &&& h.total_entries <= MAX_DIRECTORY_ENTRIES
        &&& beginning + 32 + 16 * h.total_entries <= contents.len()
        &&& d.spec_entries().len() == h.total_entries
        &&& forall|i: int|
            0 <= i < d.spec_entries().len() ==> #[trigger] d.spec_entries()[i]
                == ComboDirectoryEntry::spec_parse(
                contents.subrange(beginning + 32 + 16 * i, beginning + 48 + 16 * i),
            )
        &&& d.spec_beginning() == beginning
        &&& d.spec_mode3_base() == mode3_base
        &&& d.spec_mmio_size() == amd_physical_mode_mmio_size
        &&& d.wf()
    }

    /// Load a directory from flash. The caller checks afterwards whether
    /// the cookie is the expected one; the friendlier accessors on `Efs`
    /// do that already.
    pub fn load<T: FlashRead>(
        storage: &T,
        beginning: Location,
        mode3_base: Location,
        amd_physical_mode_mmio_size: Option<u32>,
    ) -> (r: Result<Self>)
        ensures
            match r {
                Ok(d) => Self::spec_loaded(
                    d,
                    storage.contents(),
                    beginning,
                    mode3_base,
                    amd_physical_mode_mmio_size,
                ),
                Err(e) => {
                    let h = ComboDirectoryHeader::spec_parse(
                        storage.contents().subrange(beginning as int, beginning as int + 32),
                    );
                    ||| e matches Error::Io(_)
                    ||| (e == Error::DirectoryTypeMismatch && beginning + 32
                        <= storage.contents().len() && !ComboDirectoryHeader::spec_cookie_allowed(
                        h.cookie,
                    ))
                    ||| (e == Error::DirectoryRangeCheck && beginning + 32
                        <= storage.contents().len() && ComboDirectoryHeader::spec_cookie_allowed(h.cookie)
                        && (h.total_entries > MAX_DIRECTORY_ENTRIES
                        || beginning + 32 + 16 * h.total_entries > u32::MAX))
                },
            },
    {
        let buf = match storage.read_exact(beginning, 32) {
            Ok(b) => b,
            Err(e) => {
                return Err(Error::Io(e));
            },
        };
        let header = ComboDirectoryHeader::parse(buf.as_slice());
        if !ComboDirectoryHeader::cookie_allowed(&header.cookie()) {
            return Err(Error::DirectoryTypeMismatch);
        }
        let directory_address_mode = header.additional_info().address_mode();
        let directory_type_matches = match directory_address_mode {
            AddressMode::PhysicalAddress => true,
            AddressMode::EfsRelativeOffset => true,
            AddressMode::DirectoryRelativeOffset => true,
            AddressMode::OtherDirectoryRelativeOffset => false,
        };
        if !directory_type_matches {
            return Err(Error::DirectoryTypeMismatch);
        }
        let total_entries = header.total_entries();
        if total_entries > MAX_DIRECTORY_ENTRIES as u32 {
            return Err(Error::DirectoryRangeCheck);
        }
        let total = total_entries as usize;
        let mut entries: Vec<ComboDirectoryEntry> = Vec::new();
        let mut i: usize = 0;
        while i < total
            invariant
                i <= total,
                total <= MAX_DIRECTORY_ENTRIES,
                entries@.len() == i,
                beginning + 32 <= storage.contents().len(),
                i > 0 ==> beginning + 32 + 16 * i <= storage.contents().len(),
                total == ComboDirectoryHeader::spec_parse(
                    storage.contents().subrange(beginning as int, beginning as int + 32),
                ).total_entries,
                ComboDirectoryHeader::spec_cookie_allowed(
                    ComboDirectoryHeader::spec_parse(
                        storage.contents().subrange(beginning as int, beginning as int + 32),
                    ).cookie,
                ),
                forall|j: int|
                    0 <= j < i ==> ({
                        &&& beginning + 48 + 16 * j <= storage.contents().len()
                        &&& #[trigger] entries@[j] == ComboDirectoryEntry::spec_parse(
                            storage.contents().subrange(
                                beginning + 32 + 16 * j,
                                beginning + 48 + 16 * j,
                            ),
                        )
                    }),
            decreases total - i,
        {
            let offset: u32 = 32 + 16 * (i as u32);
            let cursor: u32 = match beginning.checked_add(offset) {
                Some(c) => c,
                None => {
                    return Err(Error::DirectoryRangeCheck);
                },
            };
            let buf = match storage.read_exact(cursor, 16) {
                Ok(b) => b,
                Err(e) => {
                    return Err(Error::Io(e));
                },
            };
            let entry = ComboDirectoryEntry::parse(buf.as_slice());
            entries.push(entry);
            i = i + 1;
        }
        proof {
            if total > 0 {
                assert(entries@[total - 1] == ComboDirectoryEntry::spec_parse(
                    storage.contents().subrange(
                        beginning + 32 + 16 * (total - 1),
                        beginning + 48 + 16 * (total - 1),
                    ),
                ));
            }
        }
        Ok(
            Self {
                beginning,
                mode3_base,
                directory_address_mode,
                header,
                amd_physical_mode_mmio_size,
                entries,
            },
        )
    }

    /// Build a directory in memory. The weak mode's inverse,
    /// `OtherDirectoryRelativeOffset`, is unsupported by AMD's PSP boot
    /// loader and refused.
    pub(crate) fn create(
        beginning: Location,
        mode3_base: Location,
        directory_address_mode: AddressMode,
        cookie: [u8; 4],
        amd_physical_mode_mmio_size: Option<u32>,
        entries: &Vec<ComboDirectoryEntry>,
    ) -> (r: Result<Self>)
        ensures
            match r {
                Ok(d) => {
                    &&& directory_address_mode != AddressMode::OtherDirectoryRelativeOffset
                    &&& entries@.len() <= MAX_DIRECTORY_ENTRIES
                    &&& d.spec_header().cookie == cookie
                    &&& d.spec_header().checksum == 0
                    &&& d.spec_header().total_entries == entries@.len()
                    &&& d.spec_header().lookup_mode == 0
                    &&& d.spec_entries() == entries@
                    &&& d.spec_beginning() == beginning
                    &&& d.spec_mode3_base() == mode3_base
                    &&& d.spec_directory_address_mode() == directory_address_mode
                    &&& d.spec_mmio_size() == amd_physical_mode_mmio_size
                    &&& d.wf()
                },
                Err(e) => {
                    ||| (e == Error::DirectoryTypeMismatch && directory_address_mode
                        == AddressMode::OtherDirectoryRelativeOffset)
                    ||| (e == Error::DirectoryRangeCheck && entries@.len()
                        > MAX_DIRECTORY_ENTRIES)
                },
            },
    {
        if directory_address_mode == AddressMode::OtherDirectoryRelativeOffset {
            return Err(Error::DirectoryTypeMismatch);
        }
        let mut header = ComboDirectoryHeader::default();
        header.set_cookie(cookie);
        let mut result = Self {
            beginning,
            mode3_base,
            directory_address_mode,
            header,
            amd_physical_mode_mmio_size,
            entries: Vec::new(),
        };
        let mut i: usize = 0;
        while i < entries.len()
            invariant
                i <= entries@.len(),
                i <= MAX_DIRECTORY_ENTRIES,
                result.wf(),
                result.spec_entries() == entries@.take(i as int),
                result.spec_header().cookie == cookie,
                result.spec_header().checksum == 0,
                result.spec_header().total_entries == i,
                result.spec_header().lookup_mode == 0,
                result.spec_beginning() == beginning,
                result.spec_mode3_base() == mode3_base,
                result.spec_directory_address_mode() == directory_address_mode,
                result.spec_mmio_size() == amd_physical_mode_mmio_size,
            decreases entries@.len() - i,
        {
            let entry = entries[i];
            match result.add_entry_direct(&entry) {
                Ok(()) => {},
                Err(e) => {
                    return Err(e);
                },
            }
            proof {
                assert(result.spec_entries() =~= entries@.take(i as int + 1));
            }
            i = i + 1;
        }
        proof {
            assert(entries@.take(entries@.len() as int) =~= entries@);
        }
        Ok(result)
    }

    /// Append one entry and count it in the header.
    pub(crate) fn add_entry_direct(&mut self, entry: &ComboDirectoryEntry) -> (r: Result<()>)
        requires
            old(self).wf(),
        ensures
            final(self).wf(),
            final(self).spec_beginning() == old(self).spec_beginning(),
            final(self).spec_mode3_base() == old(self).spec_mode3_base(),
            final(self).spec_directory_address_mode() == old(self).spec_directory_address_mode(),
            final(self).spec_mmio_size() == old(self).spec_mmio_size(),
            match r {
                Ok(_) => {
                    &&& old(self).spec_entries().len() < MAX_DIRECTORY_ENTRIES
                    &&& final(self).spec_entries() == old(self).spec_entries().push(*entry)
                    &&& final(self).spec_header() == (ComboDirectoryHeader {
                        total_entries: (old(self).spec_header().total_entries + 1) as u32,
                        ..old(self).spec_header()
                    })
                },
                Err(e) => {
                    &&& e == Error::DirectoryRangeCheck
                    &&& old(self).spec_entries().len() >= MAX_DIRECTORY_ENTRIES
                    &&& *final(self) == *old(self)
                },
            },
    {
        if self.entries.len() >= MAX_DIRECTORY_ENTRIES {
            return Err(Error::DirectoryRangeCheck);
        }
        let total_entries = self.header.total_entries() + 1;
        self.entries.push(*entry);
        self.header.set_total_entries(total_entries);
        Ok(())
    }

    /// The stored entries, in order; only the first `total_entries` are
    /// meaningful and only those are returned.
    pub fn entries(&self) -> (r: Vec<ComboDirectoryEntry>)
        ensures
            r@ == self.spec_entries(),
    {
        let mut out: Vec<ComboDirectoryEntry> = Vec::new();
        let mut i: usize = 0;
        while i < self.entries.len()
            invariant
                i <= self.spec_entries().len(),
                out@ == self.spec_entries().take(i as int),
            decreases self.spec_entries().len() - i,
        {
            out.push(self.entries[i]);
            proof {
                assert(out@ =~= self.spec_entries().take(i as int + 1));
            }
            i = i + 1;
        }
        proof {
            assert(out@ =~= self.spec_entries());
        }
        out
    }

    /// How a decoded source resolves to a flash offset; see
    /// `spec_location_of_source`.
    pub fn location_of_source(&self, source: ValueOrLocation, entry_base_location: Location) -> (r:
        Result<Location>)
        ensures
            match r {
                Ok(loc) => spec_location_of_source(
                    source,
                    self.spec_beginning(),
                    entry_base_location,
                    self.spec_mmio_size(),
                ) == Ok::<Location, Error>(loc),
                Err(e) => spec_location_of_source(
                    source,
                    self.spec_beginning(),
                    entry_base_location,
                    self.spec_mmio_size(),
                ) == Err::<Location, Error>(e),
            },
    {
        location_of_source_impl(
            source,
            self.beginning,
            entry_base_location,
            self.amd_physical_mode_mmio_size,
        )
    }

    /// The flash offset of an entry's payload.
    pub fn payload_beginning(&self, entry: &ComboDirectoryEntry) -> (r: Result<Location>)
        ensures
            match spec_location_of_raw(
                self.spec_directory_address_mode(),
                entry.internal_source,
            ) {
                Some(v) => r == spec_location_of_source(
                    v,
                    self.spec_beginning(),
                    self.spec_mode3_base(),
                    self.spec_mmio_size(),
                ),
                None => r == Err::<Location, Error>(Error::DirectoryPayloadRangeCheck),
            },
    {
        let source = match entry.source(self.directory_address_mode) {
            Ok(s) => s,
            Err(e) => {
                return Err(e);
            },
        };
        self.location_of_source(source, self.mode3_base)
    }

    /// Recompute the checksum over `total_entries`, `additional_info` and
    /// all entries, and store it in the header.
    fn update_main_header(&mut self, total_entries: u32) -> (r: Result<()>)
        requires
            old(self).wf(),
            total_entries == old(self).spec_header().total_entries,
        ensures
            r is Ok,
            final(self).wf(),
            final(self).spec_entries() == old(self).spec_entries(),
            final(self).spec_beginning() == old(self).spec_beginning(),
            final(self).spec_mode3_base() == old(self).spec_mode3_base(),
            final(self).spec_directory_address_mode() == old(self).spec_directory_address_mode(),
            final(self).spec_mmio_size() == old(self).spec_mmio_size(),
            final(self).spec_header() == (ComboDirectoryHeader {
                checksum: fletcher32_value(
                    spec_directory_checksum_words(
                        total_entries,
                        0,
                        spec_combo_entries_bytes(old(self).spec_entries()),
                    ),
                ) as u32,
                ..old(self).spec_header()
            }),
    {
        let mut words: Vec<u16> = Vec::new();
        push_u32_words(&mut words, total_entries);
        push_u32_words(&mut words, self.header.additional_info().to_u32());
        proof {
            crate::ondisk::lemma_additional_info_unpack_pack(0);
            assert(words@ =~= spec_u32_words(total_entries) + spec_u32_words(0)
                + spec_words_of_bytes(spec_combo_entries_bytes(self.spec_entries().take(0))));
        }
        let mut i: usize = 0;
        while i < self.entries.len()
            invariant
                self.wf(),
                i <= self.spec_entries().len(),
                spec_combo_entries_bytes(self.spec_entries().take(i as int)).len() % 2 == 0,
                words@ == spec_u32_words(self.spec_header().total_entries)
                    + spec_u32_words(0)
                    + spec_words_of_bytes(
                    spec_combo_entries_bytes(self.spec_entries().take(i as int)),
                ),
                total_entries == self.spec_header().total_entries,
            decreases self.spec_entries().len() - i,
        {
            let entry_bytes = self.entries[i].to_bytes();
            proof {
                lemma_combo_entries_bytes_len(self.spec_entries().take(i as int));
                lemma_combo_entries_bytes_len(self.spec_entries().take(i as int + 1));
                assert(self.spec_entries().take(i as int + 1).drop_last() =~= self.spec_entries().take(
                    i as int,
                ));
                lemma_words_of_bytes_append(
                    spec_combo_entries_bytes(self.spec_entries().take(i as int)),
                    entry_bytes@,
                );
            }
            push_words_of_bytes(&mut words, &entry_bytes);
            i = i + 1;
        }
        proof {
            assert(self.spec_entries().take(self.spec_entries().len() as int) =~= self.spec_entries());
            lemma_combo_entries_bytes_len(self.spec_entries());
        }
        let mut checksummer = AmdFletcher32::new();
        checksummer.update(words.as_slice());
        proof {
            assert(Seq::<u16>::empty() + words@ =~= words@);
        }
        let checksum: u32 = checksummer.value().value();
        self.header.set_checksum(checksum);
        Ok(())
    }

    /// Fill in `additional_info` from the allocation, recompute the
    /// checksum, and serialise the directory: the header followed by all
    /// entries. The caller writes the bytes to flash with
    /// `erase_and_write_blocks` at the range's beginning.
    pub fn save(
        &mut self,
        erasable_block_size: usize,
        range: &ErasableRange,
        payloads_beginning: ErasableLocation,
    ) -> (r: Result<Vec<u8>>)
        requires
            old(self).wf(),
            payloads_beginning.spec_location() < 0x8000 * 4096,
        ensures
            final(self).wf(),
            final(self).spec_entries() == old(self).spec_entries(),
            final(self).spec_beginning() == old(self).spec_beginning(),
            final(self).spec_mode3_base() == old(self).spec_mode3_base(),
            final(self).spec_directory_address_mode() == old(self).spec_directory_address_mode(),
            final(self).spec_mmio_size() == old(self).spec_mmio_size(),
            match r {
                Ok(bytes) => {
                    let info = spec_save_additional_info(
                        range,
                        erasable_block_size,
                        payloads_beginning,
                    );
                    &&& ComboDirectoryHeader::spec_cookie_allowed(old(self).spec_header().cookie)
                    &&& info is Ok
                    &&& final(self).spec_header() == (ComboDirectoryHeader {
                        checksum: fletcher32_value(
                            spec_directory_checksum_words(
                                old(self).spec_header().total_entries,
                                0,
                                spec_combo_entries_bytes(old(self).spec_entries()),
                            ),
                        ) as u32,
                        ..old(self).spec_header()
                    })
                    &&& bytes@ == final(self).spec_header().spec_bytes() + spec_combo_entries_bytes(
                        final(self).spec_entries(),
                    )
                },
                Err(e) => {
                    ||| (e == Error::DirectoryTypeMismatch
                        && !ComboDirectoryHeader::spec_cookie_allowed(old(self).spec_header().cookie)
                        && *final(self) == *old(self))
                    ||| (Err::<DirectoryAdditionalInfo, Error>(e) == spec_save_additional_info(
                        range,
                        erasable_block_size,
                        payloads_beginning,
                    ) && *final(self) == *old(self))
                },
            },
    {
        if !ComboDirectoryHeader::cookie_allowed(&self.header.cookie()) {
            return Err(Error::DirectoryTypeMismatch);
        }
        let total_entries = self.header.total_entries();
        let additional_info = match save_additional_info(
            range,
            erasable_block_size,
            payloads_beginning,
        ) {
            Ok(info) => info,
            Err(e) => {
                return Err(e);
            },
        };
        self.header.set_additional_info(additional_info);
        match self.update_main_header(total_entries) {
            Ok(()) => {},
            Err(e) => {
                return Err(e);
            },
        }
        let mut result: Vec<u8> = Vec::new();
        self.header.append_bytes(&mut result);
        let mut i: usize = 0;
        while i < self.entries.len()
            invariant
                self.wf(),
                i <= self.spec_entries().len(),
                result@ == self.spec_header().spec_bytes() + spec_combo_entries_bytes(
                    self.spec_entries().take(i as int),
                ),
            decreases self.spec_entries().len() - i,
        {
            let entry = self.entries[i];
            entry.append_bytes(&mut result);
            proof {
                assert(self.spec_entries().take(i as int + 1).drop_last() =~= self.spec_entries().take(
                    i as int,
                ));
                assert(result@ =~= self.spec_header().spec_bytes() + spec_combo_entries_bytes(
                    self.spec_entries().take(i as int + 1),
                ));
            }
            i = i + 1;
        }
        proof {
            assert(self.spec_entries().take(self.spec_entries().len() as int) =~= self.spec_entries());
        }
        Ok(result)
    }
}

/// The concatenated on-disk bytes of a sequence of BHD directory entries.
pub open spec fn spec_bhd_entries_bytes(entries: Seq<BhdDirectoryEntry>) -> Seq<u8>
    decreases entries.len(),
{
    if entries.len() == 0 {
        Seq::empty()
    } else {
        spec_bhd_entries_bytes(entries.drop_last()) + entries.last().spec_bytes()
    }
}

pub proof fn lemma_bhd_entries_bytes_len(entries: Seq<BhdDirectoryEntry>)
    ensures
        spec_bhd_entries_bytes(entries).len() == 24 * entries.len(),
    decreases entries.len(),
{
    if entries.len() > 0 {
        lemma_bhd_entries_bytes_len(entries.drop_last());
    }
}

/// Entry `i` occupies bytes `24 i .. 24 i + 24` of the concatenation.
pub proof fn lemma_bhd_entries_bytes_index(entries: Seq<BhdDirectoryEntry>, i: int)
    requires
        0 <= i < entries.len(),
    ensures
        spec_bhd_entries_bytes(entries).subrange(24 * i, 24 * i + 24) == entries[i].spec_bytes(),
    decreases entries.len(),
{
    lemma_bhd_entries_bytes_len(entries);
    lemma_bhd_entries_bytes_len(entries.drop_last());
    if i == entries.len() - 1 {
        assert(spec_bhd_entries_bytes(entries).subrange(24 * i, 24 * i + 24) =~= entries[i].spec_bytes());
    } else {
        lemma_bhd_entries_bytes_index(entries.drop_last(), i);
        assert(spec_bhd_entries_bytes(entries).subrange(24 * i, 24 * i + 24) =~= spec_bhd_entries_bytes(
            entries.drop_last(),
        ).subrange(24 * i, 24 * i + 24));
    }
}

/// A first- or second-level BHD directory, materialised in memory.
#[derive(Debug, Clone)]
pub struct BhdDirectory {
    /// The base that `OtherDirectoryRelativeOffset` pointers are resolved
    /// against: the beginning of the directory that introduced this one,
    /// or 0.
    mode3_base: Location,
    beginning: Location,
    directory_address_mode: AddressMode,
    header: BhdDirectoryHeader,
    /// How many bytes of the address space below 4 GiB are memory-mapped
    /// to flash, where the image stores `PhysicalAddress` pointers.
    amd_physical_mode_mmio_size: Option<u32>,
    entries: Vec<BhdDirectoryEntry>,
}

impl BhdDirectory {
    pub closed spec fn spec_header(&self) -> BhdDirectoryHeader {
        self.header
    }

    pub closed spec fn spec_beginning(&self) -> Location {
        self.beginning
    }

    pub closed spec fn spec_mode3_base(&self) -> Location {
        self.mode3_base
    }

    pub closed spec fn spec_directory_address_mode(&self) -> AddressMode {
        self.directory_address_mode
    }

    pub closed spec fn spec_mmio_size(&self) -> Option<u32> {
        self.amd_physical_mode_mmio_size
    }

    pub closed spec fn spec_entries(&self) -> Seq<BhdDirectoryEntry> {
        self.entries@
    }

    pub open spec fn wf(&self) -> bool {
        &&& self.spec_entries().len() == self.spec_header().total_entries
        &&& self.spec_entries().len() <= MAX_DIRECTORY_ENTRIES
        &&& forall|i: int| 0 <= i < self.spec_entries().len() ==> #[trigger] self.spec_entries()[i].wf()
    }

    pub fn header(&self) -> (r: BhdDirectoryHeader)
        ensures
            r == self.spec_header(),
    {
        self.header
    }

    pub fn beginning(&self) -> (r: Location)
        ensures
            r == self.spec_beginning(),
    {
        self.beginning
    }

    pub fn directory_address_mode(&self) -> (r: AddressMode)
        ensures
            r == self.spec_directory_address_mode(),
    {
        self.directory_address_mode
    }

    /// The size in bytes of a directory with the given number of entries:
    /// one header plus `total_entries` entries.
    pub fn minimal_directory_size(total_entries: usize) -> (r: Result<usize>)
        ensures
            match r {
                Ok(v) => v == 16 + 24 * total_entries && 16 + 24 * total_entries <= usize::MAX,
                Err(e) => e == Error::DirectoryRangeCheck && 16 + 24 * total_entries > usize::MAX,
            },
    {
        match total_entries.checked_mul(24) {
            Some(entries_size) => match entries_size.checked_add(16) {
                Some(v) => Ok(v),
                None => Err(Error::DirectoryRangeCheck),
            },
            None => Err(Error::DirectoryRangeCheck),
        }
    }

    /// What a successful load says of the result: the header was parsed at
    /// `beginning`, its cookie and address mode accepted, and every entry
    /// parsed from its slot after the header.
    pub open spec fn spec_loaded(
        d: BhdDirectory,
        contents: Seq<u8>,
        beginning: Location,
        mode3_base: Location,
        amd_physical_mode_mmio_size: Option<u32>,
    ) -> bool {
        let h = BhdDirectoryHeader::spec_parse(
            contents.subrange(beginning as int, beginning as int + 16),
        );
        &&& beginning + 16 <= contents.len()
        &&& d.spec_header() == h
        &&& BhdDirectoryHeader::spec_cookie_allowed(h.cookie)
        &&& d.spec_directory_address_mode() == DirectoryAdditionalInfo::spec_from_u32(
            h.additional_info,
        ).address_mode
        &&& d.spec_directory_address_mode() != AddressMode::OtherDirectoryRelativeOffset
        &&& h.total_entries <= MAX_DIRECTORY_ENTRIES
        &&& beginning + 16 + 24 * h.total_entries <= contents.len()
        &&& d.spec_entries().len() == h.total_entries
        &&& forall|i: int|
            0 <= i < d.spec_entries().len() ==> #[trigger] d.spec_entries()[i]
                == BhdDirectoryEntry::spec_parse(
                contents.subrange(beginning + 16 + 24 * i, beginning + 40 + 24 * i),
            )
        &&& d.spec_beginning() == beginning
        &&& d.spec_mode3_base() == mode3_base
        &&& d.spec_mmio_size() == amd_physical_mode_mmio_size
        &&& d.wf()
    }

    /// Load a directory from flash. The caller checks afterwards whether
    /// the cookie is the expected one; the friendlier accessors on `Efs`
    /// do that already.
    pub fn load<T: FlashRead>(
        storage: &T,
        beginning: Location,
        mode3_base: Location,
        amd_physical_mode_mmio_size: Option<u32>,
    ) -> (r: Result<Self>)
        ensures
            match r {
                Ok(d) => Self::spec_loaded(
                    d,
                    storage.contents(),
                    beginning,
                    mode3_base,
                    amd_physical_mode_mmio_size,
                ),
                Err(e) => {
                    let h = BhdDirectoryHeader::spec_parse(
                        storage.contents().subrange(beginning as int, beginning as int + 16),
                    );
                    ||| e matches Error::Io(_)
                    ||| (e == Error::DirectoryTypeMismatch && beginning + 16
                        <= storage.contents().len() && (!BhdDirectoryHeader::spec_cookie_allowed(
                        h.cookie,
                    ) || DirectoryAdditionalInfo::spec_from_u32(h.additional_info).address_mode
                        == AddressMode::OtherDirectoryRelativeOffset))
                    ||| (e == Error::DirectoryRangeCheck && beginning + 16
                        <= storage.contents().len() && BhdDirectoryHeader::spec_cookie_allowed(h.cookie)
                        && DirectoryAdditionalInfo::spec_from_u32(h.additional_info).address_mode
                        != AddressMode::OtherDirectoryRelativeOffset
                        && (h.total_entries > MAX_DIRECTORY_ENTRIES
                        || beginning + 16 + 24 * h.total_entries > u32::MAX))
                },
            },
    {
        let buf = match storage.read_exact(beginning, 16) {
            Ok(b) => b,
            Err(e) => {
                return Err(Error::Io(e));
            },
        };
        let header = BhdDirectoryHeader::parse(buf.as_slice());
        if !BhdDirectoryHeader::cookie_allowed(&header.cookie()) {
            return Err(Error::DirectoryTypeMismatch);
        }
        let directory_address_mode = header.additional_info().address_mode();
        let directory_type_matches = match directory_address_mode {
            AddressMode::PhysicalAddress => true,
            AddressMode::EfsRelativeOffset => true,
            AddressMode::DirectoryRelativeOffset => true,
            AddressMode::OtherDirectoryRelativeOffset => false,
        };
        if !directory_type_matches {
            return Err(Error::DirectoryTypeMismatch);
        }
        let total_entries = header.total_entries();
        if total_entries > MAX_DIRECTORY_ENTRIES as u32 {
            return Err(Error::DirectoryRangeCheck);
        }
        let total = total_entries as usize;
        let mut entries: Vec<BhdDirectoryEntry> = Vec::new();
        let mut i: usize = 0;
        while i < total
            invariant
                i <= total,
                total <= MAX_DIRECTORY_ENTRIES,
                entries@.len() == i,
                beginning + 16 <= storage.contents().len(),
                i > 0 ==> beginning + 16 + 24 * i <= storage.contents().len(),
                total == BhdDirectoryHeader::spec_parse(
                    storage.contents().subrange(beginning as int, beginning as int + 16),
                ).total_entries,
                BhdDirectoryHeader::spec_cookie_allowed(
                    BhdDirectoryHeader::spec_parse(
                        storage.contents().subrange(beginning as int, beginning as int + 16),
                    ).cookie,
                ),
                DirectoryAdditionalInfo::spec_from_u32(
                    BhdDirectoryHeader::spec_parse(
                        storage.contents().subrange(beginning as int, beginning as int + 16),
                    ).additional_info,
                ).address_mode != AddressMode::OtherDirectoryRelativeOffset,
                forall|j: int|
                    0 <= j < i ==> ({
                        &&& beginning + 40 + 24 * j <= storage.contents().len()
                        &&& #[trigger] entries@[j] == BhdDirectoryEntry::spec_parse(
                            storage.contents().subrange(
                                beginning + 16 + 24 * j,
                                beginning + 40 + 24 * j,
                            ),
                        )
                        &&& entries@[j].wf()
                    }),
            decreases total - i,
        {
            let offset: u32 = 16 + 24 * (i as u32);
            let cursor: u32 = match beginning.checked_add(offset) {
                Some(c) => c,
                None => {
                    return Err(Error::DirectoryRangeCheck);
                },
            };
            let buf = match storage.read_exact(cursor, 24) {
                Ok(b) => b,
                Err(e) => {
                    return Err(Error::Io(e));
                },
            };
            let entry = BhdDirectoryEntry::parse(buf.as_slice());
            entries.push(entry);
            i = i + 1;
        }
        proof {
            if total > 0 {
                assert(entries@[total - 1] == BhdDirectoryEntry::spec_parse(
                    storage.contents().subrange(
                        beginning + 16 + 24 * (total - 1),
                        beginning + 40 + 24 * (total - 1),
                    ),
                ));
            }
        }
        Ok(
            Self {
                beginning,
                mode3_base,
                directory_address_mode,
                header,
                amd_physical_mode_mmio_size,
                entries,
            },
        )
    }

    /// Build a directory in memory. The weak mode's inverse,
    /// `OtherDirectoryRelativeOffset`, is unsupported by AMD's PSP boot
    /// loader and refused.
    pub(crate) fn create(
        beginning: Location,
        mode3_base: Location,
        directory_address_mode: AddressMode,
        cookie: [u8; 4],
        amd_physical_mode_mmio_size: Option<u32>,
        entries: &Vec<BhdDirectoryEntry>,
    ) -> (r: Result<Self>)
        requires
            forall|i: int| 0 <= i < entries@.len() ==> #[trigger] entries@[i].wf(),
        ensures
            match r {
                Ok(d) => {
                    &&& directory_address_mode != AddressMode::OtherDirectoryRelativeOffset
                    &&& entries@.len() <= MAX_DIRECTORY_ENTRIES
                    &&& d.spec_header() == (BhdDirectoryHeader {
                        cookie,
                        checksum: 0,
                        total_entries: entries@.len() as u32,
                        additional_info: 0xffff_ffffu32,
                    })
                    &&& d.spec_entries() == entries@
                    &&& d.spec_beginning() == beginning
                    &&& d.spec_mode3_base() == mode3_base
                    &&& d.spec_directory_address_mode() == directory_address_mode
                    &&& d.spec_mmio_size() == amd_physical_mode_mmio_size
                    &&& d.wf()
                },
                Err(e) => {
                    ||| (e == Error::DirectoryTypeMismatch && directory_address_mode
                        == AddressMode::OtherDirectoryRelativeOffset)
                    ||| (e == Error::DirectoryRangeCheck && entries@.len()
                        > MAX_DIRECTORY_ENTRIES)
                },
            },
    {
        if directory_address_mode == AddressMode::OtherDirectoryRelativeOffset {
            return Err(Error::DirectoryTypeMismatch);
        }
        let mut header = BhdDirectoryHeader::default();
        header.set_cookie(cookie);
        let mut result = Self {
            beginning,
            mode3_base,
            directory_address_mode,
            header,
            amd_physical_mode_mmio_size,
            entries: Vec::new(),
        };
        let mut i: usize = 0;
        while i < entries.len()
            invariant
                i <= entries@.len(),
                i <= MAX_DIRECTORY_ENTRIES,
                forall|j: int| 0 <= j < entries@.len() ==> #[trigger] entries@[j].wf(),
                result.wf(),
                result.spec_entries() == entries@.take(i as int),
                result.spec_header() == (BhdDirectoryHeader {
                    cookie,
                    checksum: 0,
                    total_entries: i as u32,
                    additional_info: 0xffff_ffffu32,
                }),
                result.spec_beginning() == beginning,
                result.spec_mode3_base() == mode3_base,
                result.spec_directory_address_mode() == directory_address_mode,
                result.spec_mmio_size() == amd_physical_mode_mmio_size,
            decreases entries@.len() - i,
        {
            let entry = entries[i];
            match result.add_entry_direct(&entry) {
                Ok(()) => {},
                Err(e) => {
                    return Err(e);
                },
            }
            proof {
                assert(result.spec_entries() =~= entries@.take(i as int + 1));
            }
            i = i + 1;
        }
        proof {
            assert(entries@.take(entries@.len() as int) =~= entries@);
        }
        Ok(result)
    }

    /// Append one entry and count it in the header.
    pub(crate) fn add_entry_direct(&mut self, entry: &BhdDirectoryEntry) -> (r: Result<()>)
        requires
            old(self).wf(),
            entry.wf(),
        ensures
            final(self).wf(),
            final(self).spec_beginning() == old(self).spec_beginning(),
            final(self).spec_mode3_base() == old(self).spec_mode3_base(),
            final(self).spec_directory_address_mode() == old(self).spec_directory_address_mode(),
            final(self).spec_mmio_size() == old(self).spec_mmio_size(),
            match r {
                Ok(_) => {
                    &&& old(self).spec_entries().len() < MAX_DIRECTORY_ENTRIES
                    &&& final(self).spec_entries() == old(self).spec_entries().push(*entry)
                    &&& final(self).spec_header() == (BhdDirectoryHeader {
                        total_entries: (old(self).spec_header().total_entries + 1) as u32,
                        ..old(self).spec_header()
                    })
                },
                Err(e) => {
                    &&& e == Error::DirectoryRangeCheck
                    &&& old(self).spec_entries().len() >= MAX_DIRECTORY_ENTRIES
                    &&& *final(self) == *old(self)
                },
            },
    {
        if self.entries.len() >= MAX_DIRECTORY_ENTRIES {
            return Err(Error::DirectoryRangeCheck);
        }
        let total_entries = self.header.total_entries() + 1;
        self.entries.push(*entry);
        self.header.set_total_entries(total_entries);
        Ok(())
    }

    /// The stored entries, in order; only the first `total_entries` are
    /// meaningful and only those are returned.
    pub fn entries(&self) -> (r: Vec<BhdDirectoryEntry>)
        ensures
            r@ == self.spec_entries(),
    {
        let mut out: Vec<BhdDirectoryEntry> = Vec::new();
        let mut i: usize = 0;
        while i < self.entries.len()
            invariant
                i <= self.spec_entries().len(),
                out@ == self.spec_entries().take(i as int),
            decreases self.spec_entries().len() - i,
        {
            out.push(self.entries[i]);
            proof {
                assert(out@ =~= self.spec_entries().take(i as int + 1));
            }
            i = i + 1;
        }
        proof {
            assert(out@ =~= self.spec_entries());
        }
        out
    }

    /// How a decoded source resolves to a flash offset; see
    /// `spec_location_of_source`.
    pub fn location_of_source(&self, source: ValueOrLocation, entry_base_location: Location) -> (r:
        Result<Location>)
        ensures
            match r {
                Ok(loc) => spec_location_of_source(
                    source,
                    self.spec_beginning(),
                    entry_base_location,
                    self.spec_mmio_size(),
                ) == Ok::<Location, Error>(loc),
                Err(e) => spec_location_of_source(
                    source,
                    self.spec_beginning(),
                    entry_base_location,
                    self.spec_mmio_size(),
                ) == Err::<Location, Error>(e),
            },
    {
        location_of_source_impl(
            source,
            self.beginning,
            entry_base_location,
            self.amd_physical_mode_mmio_size,
        )
    }

    /// The flash offset of an entry's payload.
    pub fn payload_beginning(&self, entry: &BhdDirectoryEntry) -> (r: Result<Location>)
        ensures
            match spec_entry_source(
                self.spec_directory_address_mode(),
                entry.internal_size,
                entry.internal_source,
            ) {
                Some(v) => r == spec_location_of_source(
                    v,
                    self.spec_beginning(),
                    self.spec_mode3_base(),
                    self.spec_mmio_size(),
                ),
                None => r == Err::<Location, Error>(Error::DirectoryPayloadRangeCheck),
            },
    {
        let source = match entry.source(self.directory_address_mode) {
            Ok(s) => s,
            Err(e) => {
                return Err(e);
            },
        };
        self.location_of_source(source, self.mode3_base)
    }

    /// Recompute the checksum over `total_entries`, `additional_info` and
    /// all entries, and store it in the header.
    fn update_main_header(&mut self, total_entries: u32) -> (r: Result<()>)
        requires
            old(self).wf(),
            total_entries == old(self).spec_header().total_entries,
        ensures
            r is Ok,
            final(self).wf(),
            final(self).spec_entries() == old(self).spec_entries(),
            final(self).spec_beginning() == old(self).spec_beginning(),
            final(self).spec_mode3_base() == old(self).spec_mode3_base(),
            final(self).spec_directory_address_mode() == old(self).spec_directory_address_mode(),
            final(self).spec_mmio_size() == old(self).spec_mmio_size(),
            final(self).spec_header() == (BhdDirectoryHeader {
                checksum: fletcher32_value(
                    spec_directory_checksum_words(
                        total_entries,
                        old(self).spec_header().additional_info,
                        spec_bhd_entries_bytes(old(self).spec_entries()),
                    ),
                ) as u32,
                ..old(self).spec_header()
            }),
    {
        let mut words: Vec<u16> = Vec::new();
        push_u32_words(&mut words, total_entries);
        push_u32_words(&mut words, self.header.additional_info().to_u32());
        proof {
            crate::ondisk::lemma_additional_info_unpack_pack(self.header.additional_info);
            assert(words@ =~= spec_u32_words(total_entries) + spec_u32_words(
                self.spec_header().additional_info,
            ) + spec_words_of_bytes(spec_bhd_entries_bytes(self.spec_entries().take(0))));
        }
        let mut i: usize = 0;
        while i < self.entries.len()
            invariant
                self.wf(),
                i <= self.spec_entries().len(),
                spec_bhd_entries_bytes(self.spec_entries().take(i as int)).len() % 2 == 0,
                words@ == spec_u32_words(self.spec_header().total_entries)
                    + spec_u32_words(self.spec_header().additional_info)
                    + spec_words_of_bytes(
                    spec_bhd_entries_bytes(self.spec_entries().take(i as int)),
                ),
                total_entries == self.spec_header().total_entries,
            decreases self.spec_entries().len() - i,
        {
            let entry_bytes = self.entries[i].to_bytes();
            proof {
                lemma_bhd_entries_bytes_len(self.spec_entries().take(i as int));
                lemma_bhd_entries_bytes_len(self.spec_entries().take(i as int + 1));
                assert(self.spec_entries().take(i as int + 1).drop_last() =~= self.spec_entries().take(
                    i as int,
                ));
                lemma_words_of_bytes_append(
                    spec_bhd_entries_bytes(self.spec_entries().take(i as int)),
                    entry_bytes@,
                );
            }
            push_words_of_bytes(&mut words, &entry_bytes);
            i = i + 1;
        }
        proof {
            assert(self.spec_entries().take(self.spec_entries().len() as int) =~= self.spec_entries());
            lemma_bhd_entries_bytes_len(self.spec_entries());
        }
        let mut checksummer = AmdFletcher32::new();
        checksummer.update(words.as_slice());
        proof {
            assert(Seq::<u16>::empty() + words@ =~= words@);
        }
        let checksum: u32 = checksummer.value().value();
        self.header.set_checksum(checksum);
        Ok(())
    }

    /// Fill in `additional_info` from the allocation, recompute the
    /// checksum, and serialise the directory: the header followed by all
    /// entries. The caller writes the bytes to flash with
    /// `erase_and_write_blocks` at the range's beginning.
    pub fn save(
        &mut self,
        erasable_block_size: usize,
        range: &ErasableRange,
        payloads_beginning: ErasableLocation,
    ) -> (r: Result<Vec<u8>>)
        requires
            old(self).wf(),
            payloads_beginning.spec_location() < 0x8000 * 4096,
        ensures
            final(self).wf(),
            final(self).spec_entries() == old(self).spec_entries(),
            final(self).spec_beginning() == old(self).spec_beginning(),
            final(self).spec_mode3_base() == old(self).spec_mode3_base(),
            final(self).spec_directory_address_mode() == old(self).spec_directory_address_mode(),
            final(self).spec_mmio_size() == old(self).spec_mmio_size(),
            match r {
                Ok(bytes) => {
                    let info = spec_save_additional_info(
                        range,
                        erasable_block_size,
                        payloads_beginning,
                    );
                    &&& BhdDirectoryHeader::spec_cookie_allowed(old(self).spec_header().cookie)
                    &&& info is Ok
                    &&& final(self).spec_header() == (BhdDirectoryHeader {
                        additional_info: info.unwrap().spec_to_u32(),
                        checksum: fletcher32_value(
                            spec_directory_checksum_words(
                                old(self).spec_header().total_entries,
                                info.unwrap().spec_to_u32(),
                                spec_bhd_entries_bytes(old(self).spec_entries()),
                            ),
                        ) as u32,
                        ..old(self).spec_header()
                    })
                    &&& bytes@ == final(self).spec_header().spec_bytes() + spec_bhd_entries_bytes(
                        final(self).spec_entries(),
                    )
                },
                Err(e) => {
                    ||| (e == Error::DirectoryTypeMismatch
                        && !BhdDirectoryHeader::spec_cookie_allowed(old(self).spec_header().cookie)
                        && *final(self) == *old(self))
                    ||| (Err::<DirectoryAdditionalInfo, Error>(e) == spec_save_additional_info(
                        range,
                        erasable_block_size,
                        payloads_beginning,
                    ) && *final(self) == *old(self))
                },
            },
    {
        if !BhdDirectoryHeader::cookie_allowed(&self.header.cookie()) {
            return Err(Error::DirectoryTypeMismatch);
        }
        let total_entries = self.header.total_entries();
        let additional_info = match save_additional_info(
            range,
            erasable_block_size,
            payloads_beginning,
        ) {
            Ok(info) => info,
            Err(e) => {
                return Err(e);
            },
        };
        self.header.set_additional_info(additional_info);
        proof {
            crate::ondisk::lemma_additional_info_pack_unpack(additional_info);
        }
        match self.update_main_header(total_entries) {
            Ok(()) => {},
            Err(e) => {
                return Err(e);
            },
        }
        let mut result: Vec<u8> = Vec::new();
        self.header.append_bytes(&mut result);
        let mut i: usize = 0;
        while i < self.entries.len()
            invariant
                self.wf(),
                i <= self.spec_entries().len(),
                result@ == self.spec_header().spec_bytes() + spec_bhd_entries_bytes(
                    self.spec_entries().take(i as int),
                ),
            decreases self.spec_entries().len() - i,
        {
            let entry = self.entries[i];
            entry.append_bytes(&mut result);
            proof {
                assert(self.spec_entries().take(i as int + 1).drop_last() =~= self.spec_entries().take(
                    i as int,
                ));
                assert(result@ =~= self.spec_header().spec_bytes() + spec_bhd_entries_bytes(
                    self.spec_entries().take(i as int + 1),
                ));
            }
            i = i + 1;
        }
        proof {
            assert(self.spec_entries().take(self.spec_entries().len() as int) =~= self.spec_entries());
        }
        Ok(result)
    }
}

/// The `additional_info` word a save stores: the range's capacity as
/// `max_size`, the erase-block size, the payload base, and the
/// EFS-relative address mode.
pub open spec fn spec_save_additional_info(
    range: &ErasableRange,
    erasable_block_size: usize,
    payloads_beginning: ErasableLocation,
) -> core::result::Result<DirectoryAdditionalInfo, Error> {
    let capacity: int = if range.beginning.spec_location() <= range.end.spec_location() {
        range.end.spec_location() - range.beginning.spec_location()
    } else {
        0
    };
    if !(capacity % 4096 == 0 && capacity / 4096 < 0x400) {
        Err(Error::DirectoryRangeCheck)
    } else if !(erasable_block_size as int % 4096 == 0 && 1 <= erasable_block_size as int / 4096
        <= 0x10) {
        Err(Error::DirectoryRangeCheck)
    } else if !(payloads_beginning.spec_location() as int % 4096 == 0) {
        Err(Error::DirectoryPayloadMisaligned)
    } else {
        Ok(
            DirectoryAdditionalInfo {
                max_size: (capacity / 4096) as u16,
                spi_block_size: if erasable_block_size as int / 4096 == 0x10 {
                    0u8
                } else {
                    (erasable_block_size as int / 4096) as u8
                },
                base_address: (payloads_beginning.spec_location() as int / 4096) as u16,
                address_mode: AddressMode::EfsRelativeOffset,
                reserved_0: false,
            },
        )
    }
}

/// Build the `additional_info` word for a save; see
/// `spec_save_additional_info`.
fn save_additional_info(
    range: &ErasableRange,
    erasable_block_size: usize,
    payloads_beginning: ErasableLocation,
) -> (r: Result<DirectoryAdditionalInfo>)
    requires
        payloads_beginning.spec_location() < 0x8000 * 4096,
    ensures
        r == spec_save_additional_info(range, erasable_block_size, payloads_beginning),
        r matches Ok(info) ==> info.wf(),
{
    let capacity = range.capacity();
    let max_size_units = match DirectoryAdditionalInfo::try_into_unit(capacity) {
        Some(u) => u,
        None => {
            return Err(Error::DirectoryRangeCheck);
        },
    };
    let info = DirectoryAdditionalInfo::new();
    let info = match info.with_max_size_checked(max_size_units) {
        Some(i) => i,
        None => {
            return Err(Error::DirectoryRangeCheck);
        },
    };
    let bs_units = match DirectoryAdditionalInfo::try_into_unit(erasable_block_size) {
        Some(u) => u,
        None => {
            return Err(Error::DirectoryRangeCheck);
        },
    };
    let info = match info.with_spi_block_size_checked(bs_units) {
        Some(i) => i,
        None => {
            return Err(Error::DirectoryRangeCheck);
        },
    };
    let base_units = match DirectoryAdditionalInfo::try_into_unit(
        payloads_beginning.location_value() as usize,
    ) {
        Some(u) => u,
        None => {
            // The payload flash location is likely not aligned to 4 kiB.
            return Err(Error::DirectoryPayloadMisaligned);
        },
    };
    let info = info.with_base_address(base_units);
    let info = info.with_address_mode(AddressMode::EfsRelativeOffset);
    Ok(info)
}

/// Resolving a decoded source to a flash offset:
/// an immediate value is no location; a physical address is decoded
/// against the MMIO window (older Zen models also stored a plain offset
/// there, which is accepted below the window); the offset modes add their
/// base.
pub open spec fn spec_location_of_source(
    source: ValueOrLocation,
    beginning: Location,
    entry_base_location: Location,
    amd_physical_mode_mmio_size: Option<u32>,
) -> core::result::Result<Location, Error> {
    match source {
        ValueOrLocation::Value(_) => Err(Error::DirectoryTypeMismatch),
        ValueOrLocation::PhysicalAddress(y) => match amd_physical_mode_mmio_size {
            None => Err(Error::EntryTypeMismatch),
            Some(size) => match spec_mmio_decode(y, size) {
                Some(v) => Ok(v),
                None => if y < size {
                    Ok(y)
                } else {
                    Err(Error::EntryTypeMismatch)
                },
            },
        },
        ValueOrLocation::EfsRelativeOffset(x) => Ok(x),
        ValueOrLocation::DirectoryRelativeOffset(y) => if beginning + y <= u32::MAX {
            Ok((beginning + y) as u32)
        } else {
            Err(Error::DirectoryPayloadRangeCheck)
        },
        ValueOrLocation::OtherDirectoryRelativeOffset(y) => if y + entry_base_location
            <= u32::MAX {
            Ok((y + entry_base_location) as u32)
        } else {
            Err(Error::DirectoryPayloadRangeCheck)
        },
    }
}

fn location_of_source_impl(
    source: ValueOrLocation,
    beginning: Location,
    entry_base_location: Location,
    amd_physical_mode_mmio_size: Option<u32>,
) -> (r: Result<Location>)
    ensures
        r == spec_location_of_source(
            source,
            beginning,
            entry_base_location,
            amd_physical_mode_mmio_size,
        ),
{
    match source {
        ValueOrLocation::Value(_) => Err(Error::DirectoryTypeMismatch),
        ValueOrLocation::PhysicalAddress(y) => {
            match amd_physical_mode_mmio_size {
                None => Err(Error::EntryTypeMismatch),
                Some(size) => {
                    match mmio_decode(y, size) {
                        Ok(v) => Ok(v),
                        Err(_) => {
                            // Older Zen models also allowed a plain flash
                            // offset here, so allow that as well.
                            if y < size {
                                Ok(y)
                            } else {
                                Err(Error::EntryTypeMismatch)
                            }
                        },
                    }
                },
            }
        },
        ValueOrLocation::EfsRelativeOffset(x) => Ok(x),
        ValueOrLocation::DirectoryRelativeOffset(y) => {
            match beginning.checked_add(y) {
                Some(v) => Ok(v),
                None => Err(Error::DirectoryPayloadRangeCheck),
            }
        },
        ValueOrLocation::OtherDirectoryRelativeOffset(y) => {
            match y.checked_add(entry_base_location) {
                Some(v) => Ok(v),
                None => Err(Error::DirectoryPayloadRangeCheck),
            }
        },
    }
}

/// A saved PSP directory loads back as itself: the byte image that `save`
/// emits — the header, checksum included, followed by the entries — parses
/// back to exactly the header and entries that were saved.
pub proof fn lemma_psp_directory_save_load_round_trip(
    h: PspDirectoryHeader,
    entries: Seq<PspDirectoryEntry>,
)
    requires
        forall|i: int| 0 <= i < entries.len() ==> #[trigger] entries[i].wf(),
    ensures
        ({
            let bytes = h.spec_bytes() + spec_psp_entries_bytes(entries);
            &&& PspDirectoryHeader::spec_parse(bytes.subrange(0, 16)) == h
            &&& forall|i: int|
                0 <= i < entries.len() ==> #[trigger] PspDirectoryEntry::spec_parse(
                    bytes.subrange(16 + 16 * i, 32 + 16 * i),
                ) == entries[i]
        }),
{
    let bytes = h.spec_bytes() + spec_psp_entries_bytes(entries);
    lemma_psp_entries_bytes_len(entries);
    assert(bytes.subrange(0, 16) =~= h.spec_bytes());
    crate::ondisk::lemma_psp_directory_header_round_trip(h);
    assert(PspDirectoryHeader::spec_parse(h.spec_bytes()) == h);
    assert forall|i: int| 0 <= i < entries.len() implies #[trigger] PspDirectoryEntry::spec_parse(
        bytes.subrange(16 + 16 * i, 32 + 16 * i),
    ) == entries[i] by {
        lemma_psp_entries_bytes_index(entries, i);
        assert(bytes.subrange(16 + 16 * i, 32 + 16 * i) =~= spec_psp_entries_bytes(
            entries,
        ).subrange(16 * i, 16 * i + 16));
        crate::ondisk::lemma_psp_directory_entry_round_trip(entries[i]);
    };
}

/// A saved BHD directory loads back as itself; see the PSP counterpart.
pub proof fn lemma_bhd_directory_save_load_round_trip(
    h: BhdDirectoryHeader,
    entries: Seq<BhdDirectoryEntry>,
)
    requires
        forall|i: int| 0 <= i < entries.len() ==> #[trigger] entries[i].wf(),
    ensures
        ({
            let bytes = h.spec_bytes() + spec_bhd_entries_bytes(entries);
            &&& BhdDirectoryHeader::spec_parse(bytes.subrange(0, 16)) == h
            &&& forall|i: int|
                0 <= i < entries.len() ==> #[trigger] BhdDirectoryEntry::spec_parse(
                    bytes.subrange(16 + 24 * i, 40 + 24 * i),
                ) == entries[i]
        }),
{
    let bytes = h.spec_bytes() + spec_bhd_entries_bytes(entries);
    lemma_bhd_entries_bytes_len(entries);
    assert(bytes.subrange(0, 16) =~= h.spec_bytes());
    crate::ondisk::lemma_bhd_directory_header_round_trip(h);
    assert(BhdDirectoryHeader::spec_parse(h.spec_bytes()) == h);
    assert forall|i: int| 0 <= i < entries.len() implies #[trigger] BhdDirectoryEntry::spec_parse(
        bytes.subrange(16 + 24 * i, 40 + 24 * i),
    ) == entries[i] by {
        lemma_bhd_entries_bytes_index(entries, i);
        assert(bytes.subrange(16 + 24 * i, 40 + 24 * i) =~= spec_bhd_entries_bytes(
            entries,
        ).subrange(24 * i, 24 * i + 24));
        crate::ondisk::lemma_bhd_directory_entry_round_trip(entries[i]);
    };
}

/// A saved combo directory loads back as itself; see the PSP counterpart.
pub proof fn lemma_combo_directory_save_load_round_trip(
    h: ComboDirectoryHeader,
    entries: Seq<ComboDirectoryEntry>,
)
    ensures
        ({
            let bytes = h.spec_bytes() + spec_combo_entries_bytes(entries);
            &&& ComboDirectoryHeader::spec_parse(bytes.subrange(0, 32)) == h
            &&& forall|i: int|
                0 <= i < entries.len() ==> #[trigger] ComboDirectoryEntry::spec_parse(
                    bytes.subrange(32 + 16 * i, 48 + 16 * i),
                ) == entries[i]
        }),
{
    let bytes = h.spec_bytes() + spec_combo_entries_bytes(entries);
    lemma_combo_entries_bytes_len(entries);
    assert(bytes.subrange(0, 32) =~= h.spec_bytes());
    crate::ondisk::lemma_combo_directory_header_round_trip(h);
    assert(ComboDirectoryHeader::spec_parse(h.spec_bytes()) == h);
    assert forall|i: int| 0 <= i < entries.len() implies #[trigger] ComboDirectoryEntry::spec_parse(
        bytes.subrange(32 + 16 * i, 48 + 16 * i),
    ) == entries[i] by {
        lemma_combo_entries_bytes_index(entries, i);
        assert(bytes.subrange(32 + 16 * i, 48 + 16 * i) =~= spec_combo_entries_bytes(
            entries,
        ).subrange(16 * i, 16 * i + 16));
        crate::ondisk::lemma_combo_directory_entry_round_trip(entries[i]);
    };
}

/// Where an EFS should be created for a processor generation.
pub fn preferred_efh_location(processor_generation: ProcessorGeneration) -> (r: Location)
    ensures
        r == spec_preferred_efh_location(processor_generation),
{
    match processor_generation {
        ProcessorGeneration::Naples | ProcessorGeneration::Genoa | ProcessorGeneration::Turin =>
            0x2_0000,
        ProcessorGeneration::Rome | ProcessorGeneration::Milan => 0xFA_0000,
    }
}

pub open spec fn spec_preferred_efh_location(processor_generation: ProcessorGeneration) -> Location {
    match processor_generation {
        ProcessorGeneration::Naples | ProcessorGeneration::Genoa | ProcessorGeneration::Turin =>
            0x2_0000u32,
        ProcessorGeneration::Rome | ProcessorGeneration::Milan => 0xFA_0000u32,
    }
}

/// The candidate offsets probed for the given generation: starting with
/// Genoa only one EFS offset is allowed.
pub open spec fn spec_efh_positions_for(processor_generation: Option<ProcessorGeneration>) -> Seq<
    u32,
> {
    if processor_generation == Some(ProcessorGeneration::Genoa) || processor_generation == Some(
        ProcessorGeneration::Turin,
    ) {
        seq![0x2_0000u32]
    } else {
        spec_efh_positions()
    }
}

/// The strict test of the probe's first pass: a valid signature, plain
/// offsets rather than MMIO pointers, and compatibility with the requested
/// generation.
pub open spec fn spec_efh_strict_ok(
    contents: Seq<u8>,
    position: u32,
    processor_generation: Option<ProcessorGeneration>,
) -> bool {
    let e = spec_parse_efh(contents.subrange(position as int, position as int + 0x52));
    &&& position + 0x52 <= contents.len()
    &&& e.signature == 0x55aa_55aau32
    &&& !spec_physical_address_mode(e.efs_generations)
    &&& match processor_generation {
        Some(g) => spec_compatible_with_generation(e.efs_generations, g),
        None => true,
    }
}

/// The fallback test of the probe's second pass: an old (MMIO-pointer)
/// firmware header is better than none, accepted when no generation or
/// Naples was asked for.
pub open spec fn spec_efh_fallback_ok(
    contents: Seq<u8>,
    position: u32,
    processor_generation: Option<ProcessorGeneration>,
) -> bool {
    let e = spec_parse_efh(contents.subrange(position as int, position as int + 0x52));
    &&& position + 0x52 <= contents.len()
    &&& e.signature == 0x55aa_55aau32
    &&& !spec_second_gen_efs(e.efs_generations)
    &&& (processor_generation is None || processor_generation == Some(ProcessorGeneration::Naples))
}

/// The first position in `positions` that passes the chosen test.
pub open spec fn spec_efh_first_hit(
    contents: Seq<u8>,
    positions: Seq<u32>,
    processor_generation: Option<ProcessorGeneration>,
    fallback: bool,
) -> Option<u32>
    decreases positions.len(),
{
    if positions.len() == 0 {
        None
    } else if (if fallback {
        spec_efh_fallback_ok(contents, positions[0], processor_generation)
    } else {
        spec_efh_strict_ok(contents, positions[0], processor_generation)
    }) {
        Some(positions[0])
    } else {
        spec_efh_first_hit(contents, positions.skip(1), processor_generation, fallback)
    }
}

/// Where the probe finds the EFS: the first candidate that passes the
/// strict test, else the first that passes the fallback test, else none.
pub open spec fn spec_efh_probe_result(
    contents: Seq<u8>,
    processor_generation: Option<ProcessorGeneration>,
) -> Option<u32> {
    let positions = spec_efh_positions_for(processor_generation);
    match spec_efh_first_hit(contents, positions, processor_generation, false) {
        Some(p) => Some(p),
        None => spec_efh_first_hit(contents, positions, processor_generation, true),
    }
}

/// If the first `i` positions fail the test, the first hit among all of
/// them is the first hit among the rest.
proof fn lemma_efh_first_hit_skip(
    contents: Seq<u8>,
    positions: Seq<u32>,
    processor_generation: Option<ProcessorGeneration>,
    fallback: bool,
    i: int,
)
    requires
        0 <= i <= positions.len(),
        forall|j: int|
            0 <= j < i ==> !(if fallback {
                spec_efh_fallback_ok(contents, #[trigger] positions[j], processor_generation)
            } else {
                spec_efh_strict_ok(contents, positions[j], processor_generation)
            }),
    ensures
        spec_efh_first_hit(contents, positions, processor_generation, fallback)
            == spec_efh_first_hit(contents, positions.skip(i), processor_generation, fallback),
    decreases i,
{
    if i == 0 {
        assert(positions.skip(0) =~= positions);
    } else {
        lemma_efh_first_hit_skip(contents, positions, processor_generation, fallback, i - 1);
        assert(positions.skip(i - 1)[0] == positions[i - 1]);
        assert(positions.skip(i - 1).skip(1) =~= positions.skip(i));
    }
}

/// A hit of the probe passes its test and is one of the candidates.
proof fn lemma_efh_first_hit_is_hit(
    contents: Seq<u8>,
    positions: Seq<u32>,
    processor_generation: Option<ProcessorGeneration>,
    fallback: bool,
)
    requires
        spec_efh_first_hit(contents, positions, processor_generation, fallback) is Some,
    ensures
        ({
            let p = spec_efh_first_hit(contents, positions, processor_generation, fallback).unwrap();
            &&& positions.contains(p)
            &&& if fallback {
                spec_efh_fallback_ok(contents, p, processor_generation)
            } else {
                spec_efh_strict_ok(contents, p, processor_generation)
            }
        }),
    decreases positions.len(),
{
    let p = spec_efh_first_hit(contents, positions, processor_generation, fallback).unwrap();
    let hit0 = if fallback {
        spec_efh_fallback_ok(contents, positions[0], processor_generation)
    } else {
        spec_efh_strict_ok(contents, positions[0], processor_generation)
    };
    if hit0 {
        assert(positions.contains(p)) by {
            assert(positions[0] == p);
        };
    } else {
        lemma_efh_first_hit_is_hit(contents, positions.skip(1), processor_generation, fallback);
        assert(positions.contains(p)) by {
            let j = choose|j: int| 0 <= j < positions.skip(1).len() && positions.skip(1)[j] == p;
            assert(positions[j + 1] == p);
        };
    }
}

/// Every candidate offset lies at or below the highest probe position.
proof fn lemma_efh_positions_bounded(processor_generation: Option<ProcessorGeneration>, p: u32)
    requires
        spec_efh_positions_for(processor_generation).contains(p),
    ensures
        0x2_0000 <= p <= 0xFA_0000,
{
    let positions = spec_efh_positions_for(processor_generation);
    let j = choose|j: int| 0 <= j < positions.len() && positions[j] == p;
    if processor_generation == Some(ProcessorGeneration::Genoa) || processor_generation == Some(
        ProcessorGeneration::Turin,
    ) {
        assert(positions[0] == 0x2_0000u32);
    } else {
        assert(spec_efh_positions()[0] == 0xFA_0000u32);
        assert(spec_efh_positions()[1] == 0xF2_0000u32);
        assert(spec_efh_positions()[2] == 0xE2_0000u32);
        assert(spec_efh_positions()[3] == 0xC2_0000u32);
        assert(spec_efh_positions()[4] == 0x82_0000u32);
        assert(spec_efh_positions()[5] == 0x2_0000u32);
    }
}


/// A candidate where the only generation-matching EFS lives is found:
/// when exactly one candidate passes the strict test and none passes the
/// fallback test elsewhere, the probe returns exactly that candidate.
pub proof fn lemma_probe_finds_lone_candidate(
    contents: Seq<u8>,
    processor_generation: Option<ProcessorGeneration>,
    o: u32,
)
    requires
        spec_efh_positions_for(processor_generation).contains(o),
        spec_efh_strict_ok(contents, o, processor_generation),
        forall|q: u32| #[trigger]
            spec_efh_positions_for(processor_generation).contains(q) && q != o
                ==> !spec_efh_strict_ok(contents, q, processor_generation),
    ensures
        spec_efh_probe_result(contents, processor_generation) == Some(o),
{
    lemma_first_hit_lone(
        contents,
        spec_efh_positions_for(processor_generation),
        spec_efh_positions_for(processor_generation),
        processor_generation,
        o,
    );
}

/// Among positions drawn from `all`, where only `o` passes the strict
/// test, the first hit is `o`.
proof fn lemma_first_hit_lone(
    contents: Seq<u8>,
    all: Seq<u32>,
    positions: Seq<u32>,
    processor_generation: Option<ProcessorGeneration>,
    o: u32,
)
    requires
        positions.contains(o),
        spec_efh_strict_ok(contents, o, processor_generation),
        forall|j: int|
            0 <= j < positions.len() ==> all.contains(#[trigger] positions[j]),
        forall|q: u32| #[trigger]
            all.contains(q) && q != o ==> !spec_efh_strict_ok(
                contents,
                q,
                processor_generation,
            ),
    ensures
        spec_efh_first_hit(contents, positions, processor_generation, false) == Some(o),
    decreases positions.len(),
{
    if positions[0] == o {
    } else {
        assert(all.contains(positions[0]));
        assert(!spec_efh_strict_ok(contents, positions[0], processor_generation));
        let j = choose|j: int| 0 <= j < positions.len() && positions[j] == o;
        assert(positions.skip(1)[j - 1] == o);
        assert(positions.skip(1).contains(o));
        assert forall|k: int| 0 <= k < positions.skip(1).len() implies all.contains(
            #[trigger] positions.skip(1)[k],
        ) by {
            assert(positions.skip(1)[k] == positions[k + 1]);
        };
        lemma_first_hit_lone(contents, all, positions.skip(1), processor_generation, o);
    }
}

/// Removing the EFS the probe found uncovers the next-preferred valid one:
/// on an image whose candidates test as before except at the found
/// position `p`, which now fails both tests, the probe never returns `p`,
/// and whatever it returns is a candidate that was already valid on the
/// earlier image — by the probe's own contract, the first such one in
/// probe order.
pub proof fn lemma_probe_after_invalidation(
    c1: Seq<u8>,
    c2: Seq<u8>,
    processor_generation: Option<ProcessorGeneration>,
    p: u32,
)
    requires
        spec_efh_probe_result(c1, processor_generation) == Some(p),
        !spec_efh_strict_ok(c2, p, processor_generation),
        !spec_efh_fallback_ok(c2, p, processor_generation),
        forall|q: u32| #[trigger]
            spec_efh_positions_for(processor_generation).contains(q) && q != p ==> (
            spec_efh_strict_ok(c2, q, processor_generation) == spec_efh_strict_ok(
                c1,
                q,
                processor_generation,
            ) && spec_efh_fallback_ok(c2, q, processor_generation) == spec_efh_fallback_ok(
                c1,
                q,
                processor_generation,
            )),
    ensures
        spec_efh_probe_result(c2, processor_generation) != Some(p),
        spec_efh_probe_result(c2, processor_generation) matches Some(q) ==> (q != p
            && spec_efh_positions_for(processor_generation).contains(q) && (spec_efh_strict_ok(
            c1,
            q,
            processor_generation,
        ) || spec_efh_fallback_ok(c1, q, processor_generation))),
{
    let positions = spec_efh_positions_for(processor_generation);
    if spec_efh_probe_result(c2, processor_generation) is Some {
        if spec_efh_first_hit(c2, positions, processor_generation, false) is Some {
            lemma_efh_first_hit_is_hit(c2, positions, processor_generation, false);
        } else {
            lemma_efh_first_hit_is_hit(c2, positions, processor_generation, true);
        }
    }
}

/// The Embedded Firmware Structure of a flash image, together with the
/// flash it lives on. Read accessors work on the copy parsed at load;
/// mutators update the copy and `write_efh` flushes it.
pub struct Efs<T: FlashRead + FlashWrite> {
    storage: T,
    efh_beginning: ErasableLocation,
    efh: Efh,
    /// How many bytes of the address space below 4 GiB are memory-mapped
    /// to flash, needed to resolve `PhysicalAddress` pointers.
    amd_physical_mode_mmio_size: Option<u32>,
}

impl<T: FlashRead + FlashWrite> Efs<T> {
    pub closed spec fn spec_storage(&self) -> T {
        self.storage
    }

    pub closed spec fn spec_efh(&self) -> Efh {
        self.efh
    }

    pub closed spec fn spec_efh_beginning(&self) -> ErasableLocation {
        self.efh_beginning
    }

    pub closed spec fn spec_mmio_size(&self) -> Option<u32> {
        self.amd_physical_mode_mmio_size
    }

    pub open spec fn wf(&self) -> bool {
        &&& self.spec_efh_beginning().wf()
        &&& 1 <= self.spec_efh_beginning().spec_block_size() <= 0x100_0000
        &&& self.spec_efh_beginning().spec_block_size() == self.spec_storage().spec_block_size()
        &&& self.spec_efh_beginning().spec_location() <= 0xFA_0000
    }

    /// The backing flash, for reading around the EFS.
    pub fn storage(&self) -> (r: &T)
        ensures
            r == self.spec_storage(),
    {
        &self.storage
    }

    /// Give the backing flash back, consuming the handle.
    pub fn into_storage(self) -> (r: T)
        ensures
            r == self.spec_storage(),
    {
        self.storage
    }

    pub fn compatible_with_processor_generation(
        &self,
        processor_generation: ProcessorGeneration,
    ) -> (r: bool)
        ensures
            r == spec_compatible_with_generation(
                self.spec_efh().efs_generations,
                processor_generation,
            ),
    {
        self.efh.compatible_with_processor_generation(processor_generation)
    }

    pub fn physical_address_mode(&self) -> (r: bool)
        ensures
            r == spec_physical_address_mode(self.spec_efh().efs_generations),
    {
        self.efh.physical_address_mode()
    }

    /// Probe the candidate offsets, in order, for an EFS serving the given
    /// generation: first for one using plain offsets, then — old firmware
    /// header is better than no firmware header — for one still using MMIO
    /// pointers, if Naples (or nothing) was asked for.
    pub(crate) fn efh_beginning(
        storage: &T,
        processor_generation: Option<ProcessorGeneration>,
    ) -> (r: Result<ErasableLocation>)
        requires
            1 <= storage.spec_block_size() <= 0xffff_ffffusize,
        ensures
            match r {
                Ok(loc) => {
                    &&& spec_efh_probe_result(storage.contents(), processor_generation) == Some(
                        loc.spec_location(),
                    )
                    &&& loc.spec_block_size() == storage.spec_block_size()
                    &&& loc.wf()
                    &&& 0x2_0000 <= loc.spec_location() <= 0xFA_0000
                },
                Err(e) => {
                    ||| e matches Error::Io(_)
                    ||| (e == Error::Misaligned && (spec_efh_probe_result(
                        storage.contents(),
                        processor_generation,
                    ) matches Some(p) && p as int % storage.spec_block_size() as int != 0))
                    ||| (e == Error::EfsHeaderNotFound && spec_efh_probe_result(
                        storage.contents(),
                        processor_generation,
                    ) is None)
                },
            },
    {
        let positions: Vec<Location> = match processor_generation {
            Some(ProcessorGeneration::Genoa) | Some(ProcessorGeneration::Turin) => {
                // Starting with Genoa, only one EFS offset is allowed.
                let mut v: Vec<Location> = Vec::new();
                v.push(0x2_0000);
                proof {
                    assert(v@ =~= spec_efh_positions_for(processor_generation));
                }
                v
            },
            _ => {
                let v = efh_positions();
                proof {
                    assert(v@ =~= spec_efh_positions_for(processor_generation));
                }
                v
            },
        };
        let ghost contents = storage.contents();
        let mut i: usize = 0;
        while i < positions.len()
            invariant
                positions@ == spec_efh_positions_for(processor_generation),
                contents == storage.contents(),
                1 <= storage.spec_block_size() <= 0xffff_ffffusize,
                i <= positions@.len(),
                forall|j: int|
                    0 <= j < i ==> !spec_efh_strict_ok(
                        contents,
                        #[trigger] positions@[j],
                        processor_generation,
                    ),
            decreases positions@.len() - i,
        {
            let position = positions[i];
            let xbuf = match storage.read_exact(position, 0x52) {
                Ok(b) => b,
                Err(e) => {
                    return Err(Error::Io(e));
                },
            };
            let item = Efh::parse(xbuf.as_slice());
            proof {
                assert(xbuf@ =~= contents.subrange(position as int, position as int + 0x52));
            }
            let signature_ok = match item.signature() {
                Ok(s) => s == 0x55aa_55aa,
                Err(_) => false,
            };
            // Note: only one EFS in plain-offset mode is allowed per flash.
            if signature_ok && !item.physical_address_mode() && (match processor_generation {
                Some(x) => item.compatible_with_processor_generation(x),
                None => true,
            }) {
                proof {
                    lemma_efh_first_hit_skip(
                        contents,
                        positions@,
                        processor_generation,
                        false,
                        i as int,
                    );
                }
                return match storage.erasable_location(position) {
                    Ok(loc) => Ok(loc),
                    Err(_) => Err(Error::Misaligned),
                };
            }
            i = i + 1;
        }
        proof {
            lemma_efh_first_hit_skip(
                contents,
                positions@,
                processor_generation,
                false,
                positions@.len() as int,
            );
            assert(positions@.skip(positions@.len() as int) =~= Seq::<u32>::empty());
        }
        let mut i: usize = 0;
        while i < positions.len()
            invariant
                positions@ == spec_efh_positions_for(processor_generation),
                contents == storage.contents(),
                1 <= storage.spec_block_size() <= 0xffff_ffffusize,
                spec_efh_first_hit(contents, positions@, processor_generation, false) is None,
                i <= positions@.len(),
                forall|j: int|
                    0 <= j < i ==> !spec_efh_fallback_ok(
                        contents,
                        #[trigger] positions@[j],
                        processor_generation,
                    ),
            decreases positions@.len() - i,
        {
            let position = positions[i];
            let xbuf = match storage.read_exact(position, 0x52) {
                Ok(b) => b,
                Err(e) => {
                    return Err(Error::Io(e));
                },
            };
            let item = Efh::parse(xbuf.as_slice());
            proof {
                assert(xbuf@ =~= contents.subrange(position as int, position as int + 0x52));
            }
            let signature_ok = match item.signature() {
                Ok(s) => s == 0x55aa_55aa,
                Err(_) => false,
            };
            if signature_ok && !item.second_gen_efs() && (match processor_generation {
                None => true,
                Some(ProcessorGeneration::Naples) => true,
                _ => false,
            }) {
                proof {
                    lemma_efh_first_hit_skip(
                        contents,
                        positions@,
                        processor_generation,
                        true,
                        i as int,
                    );
                }
                return match storage.erasable_location(position) {
                    Ok(loc) => Ok(loc),
                    Err(_) => Err(Error::Misaligned),
                };
            }
            i = i + 1;
        }
        proof {
            lemma_efh_first_hit_skip(
                contents,
                positions@,
                processor_generation,
                true,
                positions@.len() as int,
            );
            assert(positions@.skip(positions@.len() as int) =~= Seq::<u32>::empty());
        }
        Err(Error::EfsHeaderNotFound)
    }

    /// What a successful load says of the handle: the probe found the EFS
    /// at the handle's beginning and the handle holds its parsed record.
    pub open spec fn spec_efs_loaded(
        efs: Efs<T>,
        storage: T,
        processor_generation: Option<ProcessorGeneration>,
        amd_physical_mode_mmio_size: Option<u32>,
    ) -> bool {
        &&& efs.spec_storage() == storage
        &&& spec_efh_probe_result(storage.contents(), processor_generation) == Some(
            efs.spec_efh_beginning().spec_location(),
        )
        &&& efs.spec_efh() == spec_parse_efh(
            storage.contents().subrange(
                efs.spec_efh_beginning().spec_location() as int,
                efs.spec_efh_beginning().spec_location() as int + 0x52,
            ),
        )
        &&& efs.spec_efh().signature == 0x55aa_55aau32
        &&& efs.spec_mmio_size() == amd_physical_mode_mmio_size
        &&& efs.wf()
    }

    /// Load the Embedded Firmware Structure from `storage`. Should the EFS
    /// be old enough to still use physical MMIO addresses for its flash
    /// pointers, `amd_physical_mode_mmio_size` is required; otherwise it
    /// may be `None`.
    pub fn load(
        storage: T,
        processor_generation: Option<ProcessorGeneration>,
        amd_physical_mode_mmio_size: Option<u32>,
    ) -> (r: Result<Self>)
        requires
            1 <= storage.spec_block_size() <= 0x100_0000,
        ensures
            match r {
                Ok(efs) => Self::spec_efs_loaded(
                    efs,
                    storage,
                    processor_generation,
                    amd_physical_mode_mmio_size,
                ),
                Err(e) => {
                    ||| e matches Error::Io(_)
                    ||| (e == Error::Misaligned && (spec_efh_probe_result(
                        storage.contents(),
                        processor_generation,
                    ) matches Some(p) && p as int % storage.spec_block_size() as int != 0))
                    ||| (e == Error::EfsHeaderNotFound && spec_efh_probe_result(
                        storage.contents(),
                        processor_generation,
                    ) is None)
                },
            },
    {
        let efh_beginning = match Self::efh_beginning(&storage, processor_generation) {
            Ok(loc) => loc,
            Err(e) => {
                return Err(e);
            },
        };
        let ghost probe = spec_efh_probe_result(storage.contents(), processor_generation);
        let xbuf = match storage.read_exact(efh_beginning.location_value(), 0x52) {
            Ok(b) => b,
            Err(e) => {
                return Err(Error::Io(e));
            },
        };
        let efh = Efh::parse(xbuf.as_slice());
        proof {
            assert(xbuf@ =~= storage.contents().subrange(
                efh_beginning.spec_location() as int,
                efh_beginning.spec_location() as int + 0x52,
            ));
            // The probe only returns positions whose parsed record carries
            // the signature.
            let positions = spec_efh_positions_for(processor_generation);
            if spec_efh_first_hit(storage.contents(), positions, processor_generation, false)
                is Some {
                lemma_efh_first_hit_is_hit(
                    storage.contents(),
                    positions,
                    processor_generation,
                    false,
                );
            } else {
                lemma_efh_first_hit_is_hit(
                    storage.contents(),
                    positions,
                    processor_generation,
                    true,
                );
            }
            lemma_efh_positions_bounded(
                processor_generation,
                efh_beginning.spec_location(),
            );
        }
        let signature_ok = match efh.signature() {
            Ok(s) => s == 0x55aa_55aa,
            Err(_) => false,
        };
        if !signature_ok {
            return Err(Error::EfsHeaderNotFound);
        }
        Ok(Self { storage, efh_beginning, efh, amd_physical_mode_mmio_size })
    }

    /// Create a fresh EFS for the generation at its preferred offset —
    /// creating elsewhere is refused — and write its erase block.
    pub fn create(
        storage: T,
        processor_generation: ProcessorGeneration,
        efh_beginning: Location,
        amd_physical_mode_mmio_size: Option<u32>,
    ) -> (r: Result<Self>)
        requires
            1 <= storage.spec_block_size() <= 0x100_0000,
        ensures
            match r {
                Ok(efs) => {
                    &&& spec_efh_positions_for(None).contains(efh_beginning)
                    &&& efh_beginning == spec_preferred_efh_location(processor_generation)
                    &&& efs.wf()
                    &&& efs.spec_mmio_size() == amd_physical_mode_mmio_size
                    &&& efs.spec_efh().signature == 0x55aa_55aau32
                    &&& Self::spec_efs_loaded(
                        efs,
                        efs.spec_storage(),
                        Some(processor_generation),
                        amd_physical_mode_mmio_size,
                    )
                    &&& efs.spec_storage().contents() == flash::write_bytes(
                        storage.contents(),
                        efh_beginning as int,
                        flash::padded_to_blocks(
                            crate::ondisk::spec_efh_bytes(
                                Efh {
                                    efs_generations: crate::ondisk::spec_efs_generations_for(
                                        processor_generation,
                                    ),
                                    ..crate::ondisk::spec_efh_default()
                                },
                            ),
                            storage.spec_block_size() as int,
                        ),
                    )
                },
                Err(e) => {
                    let good_position = spec_efh_positions_for(None).contains(efh_beginning)
                        && efh_beginning == spec_preferred_efh_location(processor_generation);
                    let written = flash::write_bytes(
                        storage.contents(),
                        efh_beginning as int,
                        flash::padded_to_blocks(
                            crate::ondisk::spec_efh_bytes(
                                Efh {
                                    efs_generations: crate::ondisk::spec_efs_generations_for(
                                        processor_generation,
                                    ),
                                    ..crate::ondisk::spec_efh_default()
                                },
                            ),
                            storage.spec_block_size() as int,
                        ),
                    );
                    ||| (e == Error::EfsRangeCheck && !good_position)
                    ||| (good_position && e == Error::Misaligned && (efh_beginning as int
                        % storage.spec_block_size() as int != 0 || (spec_efh_probe_result(
                        written,
                        Some(processor_generation),
                    ) matches Some(p) && p as int % storage.spec_block_size() as int != 0)))
                    ||| (good_position && e matches Error::Io(_))
                    ||| (good_position && e == Error::EfsHeaderNotFound && spec_efh_probe_result(
                        written,
                        Some(processor_generation),
                    ) is None)
                },
            },
    {
        let positions = efh_positions();
        let mut contained = false;
        let mut i: usize = 0;
        while i < positions.len()
            invariant
                positions@ == spec_efh_positions(),
                i <= positions@.len(),
                contained == exists|j: int| 0 <= j < i && positions@[j] == efh_beginning,
            decreases positions@.len() - i,
        {
            if positions[i] == efh_beginning {
                contained = true;
            }
            i = i + 1;
        }
        proof {
            if contained {
                assert(spec_efh_positions().contains(efh_beginning));
            } else {
                if spec_efh_positions().contains(efh_beginning) {
                    let j = choose|j: int|
                        0 <= j < spec_efh_positions().len() && spec_efh_positions()[j]
                            == efh_beginning;
                    assert(false);
                }
            }
            assert(spec_efh_positions_for(None) == spec_efh_positions());
        }
        if !contained || preferred_efh_location(processor_generation) != efh_beginning {
            return Err(Error::EfsRangeCheck);
        }
        let mut efh: Efh = Efh::default();
        efh.efs_generations = Efh::efs_generations_for_processor_generation(processor_generation);
        let buf = efh.to_bytes();
        let mut storage = storage;
        let location = match storage.erasable_location(efh_beginning) {
            Ok(loc) => loc,
            Err(_) => {
                return Err(Error::Misaligned);
            },
        };
        proof {
            lemma_efh_positions_bounded(None, efh_beginning);
            flash::lemma_round_up_to_block_smallest(
                buf@.len() as int,
                storage.spec_block_size() as int,
            );
        }
        match flash::erase_and_write_blocks(&mut storage, location, buf.as_slice()) {
            Ok(()) => {},
            Err(e) => {
                return Err(Error::Io(flash::Error::Io(flash::IoError::Write {
                    start: efh_beginning,
                    size: 0x52,
                })));
            },
        }
        Self::load(storage, Some(processor_generation), amd_physical_mode_mmio_size)
    }

    /// Write the in-memory EFS record back into its erase block.
    fn write_efh(&mut self) -> (r: Result<()>)
        requires
            old(self).wf(),
        ensures
            final(self).wf(),
            final(self).spec_efh() == old(self).spec_efh(),
            final(self).spec_efh_beginning() == old(self).spec_efh_beginning(),
            final(self).spec_mmio_size() == old(self).spec_mmio_size(),
            final(self).spec_storage().spec_block_size() == old(
                self,
            ).spec_storage().spec_block_size(),
            final(self).spec_storage().contents().len() == old(
                self,
            ).spec_storage().contents().len(),
            r is Ok ==> final(self).spec_storage().contents() == flash::write_bytes(
                old(self).spec_storage().contents(),
                old(self).spec_efh_beginning().spec_location() as int,
                flash::padded_to_blocks(
                    crate::ondisk::spec_efh_bytes(old(self).spec_efh()),
                    old(self).spec_storage().spec_block_size() as int,
                ),
            ),
    {
        let buf = self.efh.to_bytes();
        proof {
            flash::lemma_round_up_to_block_smallest(
                buf@.len() as int,
                self.storage.spec_block_size() as int,
            );
        }
        match flash::erase_and_write_blocks(&mut self.storage, self.efh_beginning, buf.as_slice()) {
            Ok(()) => Ok(()),
            Err(e) => Err(Error::Io(e)),
        }
    }
}

/// Where the EFS points for the PSP directory: the Zen slot, decoded
/// against the MMIO window in physical-address mode.
pub open spec fn spec_psp_directory_pointer(efh: Efh, amd_physical_mode_mmio_size: Option<u32>) -> core::result::Result<
    u32,
    Error,
> {
    let ptr = efh.psp_directory_table_location_zen;
    if spec_is_invalid_directory_table_location(ptr) {
        Err(Error::PspDirectoryHeaderNotFound)
    } else if spec_physical_address_mode(efh.efs_generations) {
        match spec_de_mmio(ptr, amd_physical_mode_mmio_size) {
            Some(v) => Ok(v),
            None => Err(Error::Marshal),
        }
    } else {
        Ok(ptr)
    }
}

/// The ordered BHD directory candidates for a generation: the Milan slot
/// for Milan and newer, the per-model slots (decoded against the MMIO
/// window) for Rome and Naples, and all of them for no generation; the
/// sentinels 0 and all-ones are skipped.
pub open spec fn spec_bhd_directory_candidates(
    efh: Efh,
    processor_generation: Option<ProcessorGeneration>,
    amd_physical_mode_mmio_size: Option<u32>,
) -> Seq<u32> {
    match processor_generation {
        Some(ProcessorGeneration::Milan) | Some(ProcessorGeneration::Genoa) | Some(
            ProcessorGeneration::Turin,
        ) => spec_opt_seq(spec_valid_location(efh.bhd_directory_table_milan)),
        Some(ProcessorGeneration::Rome) => spec_opt_seq(
            spec_de_mmio(efh.bhd_directory_table_rome, amd_physical_mode_mmio_size),
        ),
        Some(ProcessorGeneration::Naples) => spec_opt_seq(
            spec_de_mmio(efh.bhd_directory_table_naples, amd_physical_mode_mmio_size),
        ),
        None => spec_opt_seq(spec_valid_location(efh.bhd_directory_table_milan)) + spec_opt_seq(
            spec_de_mmio(efh.bhd_directory_table_rome, amd_physical_mode_mmio_size),
        ) + spec_opt_seq(
            spec_de_mmio(efh.bhd_directory_table_raven_ridge, amd_physical_mode_mmio_size),
        ) + spec_opt_seq(
            spec_de_mmio(efh.bhd_directory_table_naples, amd_physical_mode_mmio_size),
        ),
    }
}

pub open spec fn spec_opt_seq(v: Option<u32>) -> Seq<u32> {
    match v {
        None => Seq::empty(),
        Some(x) => seq![x],
    }
}

pub open spec fn spec_valid_location(v: u32) -> Option<u32> {
    if spec_is_invalid_directory_table_location(v) {
        None
    } else {
        Some(v)
    }
}

/// Whether a PSP entry names a second-level PSP directory.
pub open spec fn spec_is_psp_second_level(e: PspDirectoryEntry) -> bool {
    PspDirectoryEntryType::spec_from_u8(e.attrs.type_) == Some(
        PspDirectoryEntryType::SecondLevelDirectory,
    )
}

/// Whether a PSP entry names a second-level BHD directory.
pub open spec fn spec_is_psp_second_level_bhd(e: PspDirectoryEntry) -> bool {
    PspDirectoryEntryType::spec_from_u8(e.attrs.type_) == Some(
        PspDirectoryEntryType::SecondLevelBhdDirectory,
    )
}

/// Whether a BHD entry names a second-level BHD directory.
pub open spec fn spec_is_bhd_second_level(e: BhdDirectoryEntry) -> bool {
    BhdDirectoryEntryType::spec_from_u8(e.attrs.type_) == Some(
        BhdDirectoryEntryType::SecondLevelDirectory,
    )
}

impl<T: FlashRead + FlashWrite> Efs<T> {
    /// The first-level PSP directory the EFS points at. Either this or
    /// `psp_combo_directory` succeeds, never both.
    pub fn psp_directory(&self) -> (r: Result<PspDirectory>)
        requires
            self.wf(),
            spec_physical_address_mode(self.spec_efh().efs_generations)
                ==> spec_is_invalid_directory_table_location(
                self.spec_efh().psp_directory_table_location_naples,
            ),
            (!spec_physical_address_mode(self.spec_efh().efs_generations)
                && !spec_is_invalid_directory_table_location(
                self.spec_efh().psp_directory_table_location_zen,
            )) ==> spec_is_likely_location(self.spec_efh().psp_directory_table_location_zen),
        ensures
            match r {
                Ok(d) => {
                    &&& spec_psp_directory_pointer(self.spec_efh(), self.spec_mmio_size())
                        matches Ok(loc) && PspDirectory::spec_loaded(
                        d,
                        self.spec_storage().contents(),
                        loc,
                        loc,
                        self.spec_mmio_size(),
                    )
                    &&& d.spec_header().cookie == crate::ondisk::spec_psp_cookie()
                },
                Err(e) => {
                    ||| (e matches Error::Io(_) && spec_psp_directory_pointer(
                        self.spec_efh(),
                        self.spec_mmio_size(),
                    ) is Ok)
                    ||| Err::<u32, Error>(e) == spec_psp_directory_pointer(
                        self.spec_efh(),
                        self.spec_mmio_size(),
                    )
                    ||| ((e == Error::DirectoryTypeMismatch || e == Error::DirectoryRangeCheck)
                        && spec_psp_directory_pointer(
                        self.spec_efh(),
                        self.spec_mmio_size(),
                    ) is Ok)
                },
            },
    {
        let psp_directory_table_location = match self.efh.psp_directory_table_location_zen() {
            Ok(v) => v,
            Err(_) => 0xffff_ffff,
        };
        if is_invalid_directory_table_location(psp_directory_table_location) {
            // We could also follow the Naples slot, but not even a newer
            // Naples did that.
            return Err(Error::PspDirectoryHeaderNotFound);
        }
        let psp_directory_table_location = if self.physical_address_mode() {
            match Efh::de_mmio(psp_directory_table_location, self.amd_physical_mode_mmio_size) {
                Some(v) => v,
                None => {
                    return Err(Error::Marshal);
                },
            }
        } else {
            psp_directory_table_location
        };
        let directory = match PspDirectory::load(
            &self.storage,
            psp_directory_table_location,
            psp_directory_table_location,
            self.amd_physical_mode_mmio_size,
        ) {
            Ok(d) => d,
            Err(e) => {
                return Err(e);
            },
        };
        let first = PspDirectoryHeader::first_level_cookie();
        if !crate::ondisk::cookie_eq(&directory.header().cookie(), &first) {
            return Err(Error::DirectoryTypeMismatch);
        }
        Ok(directory)
    }

    /// The first-level PSP combo directory the EFS points at. Either this
    /// or `psp_directory` succeeds, never both.
    pub fn psp_combo_directory(&self) -> (r: Result<ComboDirectory>)
        requires
            self.wf(),
            spec_physical_address_mode(self.spec_efh().efs_generations)
                ==> spec_is_invalid_directory_table_location(
                self.spec_efh().psp_directory_table_location_naples,
            ),
            (!spec_physical_address_mode(self.spec_efh().efs_generations)
                && !spec_is_invalid_directory_table_location(
                self.spec_efh().psp_directory_table_location_zen,
            )) ==> spec_is_likely_location(self.spec_efh().psp_directory_table_location_zen),
        ensures
            match r {
                Ok(d) => {
                    &&& spec_psp_directory_pointer(self.spec_efh(), self.spec_mmio_size())
                        matches Ok(loc) && ComboDirectory::spec_loaded(
                        d,
                        self.spec_storage().contents(),
                        loc,
                        0,
                        self.spec_mmio_size(),
                    )
                    &&& d.spec_header().cookie == crate::ondisk::spec_combo_psp_cookie()
                },
                Err(e) => {
                    ||| (e matches Error::Io(_) && spec_psp_directory_pointer(
                        self.spec_efh(),
                        self.spec_mmio_size(),
                    ) is Ok)
                    ||| Err::<u32, Error>(e) == spec_psp_directory_pointer(
                        self.spec_efh(),
                        self.spec_mmio_size(),
                    )
                    ||| ((e == Error::DirectoryTypeMismatch || e == Error::DirectoryRangeCheck)
                        && spec_psp_directory_pointer(
                        self.spec_efh(),
                        self.spec_mmio_size(),
                    ) is Ok)
                },
            },
    {
        let psp_directory_table_location = match self.efh.psp_directory_table_location_zen() {
            Ok(v) => v,
            Err(_) => 0xffff_ffff,
        };
        if is_invalid_directory_table_location(psp_directory_table_location) {
            return Err(Error::PspDirectoryHeaderNotFound);
        }
        let psp_directory_table_location = if self.physical_address_mode() {
            match Efh::de_mmio(psp_directory_table_location, self.amd_physical_mode_mmio_size) {
                Some(v) => v,
                None => {
                    return Err(Error::Marshal);
                },
            }
        } else {
            psp_directory_table_location
        };
        let directory = match ComboDirectory::load(
            &self.storage,
            psp_directory_table_location,
            0,
            self.amd_physical_mode_mmio_size,
        ) {
            Ok(d) => d,
            Err(e) => {
                return Err(e);
            },
        };
        let expected = ComboDirectoryHeader::psp_cookie();
        if !crate::ondisk::cookie_eq(&directory.header().cookie(), &expected) {
            return Err(Error::DirectoryTypeMismatch);
        }
        Ok(directory)
    }

    /// The candidate locations of level-1 BHD directories for the given
    /// generation, most preferred first; each may hold a BHD directory or
    /// a combo directory of BHD directories.
    pub fn bhd_directories(&self, processor_generation: Option<ProcessorGeneration>) -> (r: Result<
        Vec<Location>,
    >)
        ensures
            match r {
                Ok(v) => v@ == spec_bhd_directory_candidates(
                    self.spec_efh(),
                    processor_generation,
                    self.spec_mmio_size(),
                ),
                Err(_) => false,
            },
    {
        let mut out: Vec<Location> = Vec::new();
        match processor_generation {
            Some(ProcessorGeneration::Milan) | Some(ProcessorGeneration::Genoa) | Some(
                ProcessorGeneration::Turin,
            ) => {
                let milan = self.efh.bhd_directory_table_milan;
                if !is_invalid_directory_table_location(milan) {
                    out.push(milan);
                }
            },
            Some(ProcessorGeneration::Rome) => {
                match Efh::de_mmio(
                    self.efh.bhd_directory_table_rome,
                    self.amd_physical_mode_mmio_size,
                ) {
                    Some(v) => {
                        out.push(v);
                    },
                    None => {},
                }
            },
            Some(ProcessorGeneration::Naples) => {
                match Efh::de_mmio(
                    self.efh.bhd_directory_table_naples,
                    self.amd_physical_mode_mmio_size,
                ) {
                    Some(v) => {
                        out.push(v);
                    },
                    None => {},
                }
            },
            None => {
                // Allow all; used for example for overlap checking.
                let milan = self.efh.bhd_directory_table_milan;
                if !is_invalid_directory_table_location(milan) {
                    out.push(milan);
                }
                match Efh::de_mmio(
                    self.efh.bhd_directory_table_rome,
                    self.amd_physical_mode_mmio_size,
                ) {
                    Some(v) => {
                        out.push(v);
                    },
                    None => {},
                }
                match Efh::de_mmio(
                    self.efh.bhd_directory_table_raven_ridge,
                    self.amd_physical_mode_mmio_size,
                ) {
                    Some(v) => {
                        out.push(v);
                    },
                    None => {},
                }
                match Efh::de_mmio(
                    self.efh.bhd_directory_table_naples,
                    self.amd_physical_mode_mmio_size,
                ) {
                    Some(v) => {
                        out.push(v);
                    },
                    None => {},
                }
            },
        }
        proof {
            assert(out@ =~= spec_bhd_directory_candidates(
                self.spec_efh(),
                processor_generation,
                self.spec_mmio_size(),
            ));
        }
        Ok(out)
    }

    /// The first-level BHD directory matching the generation, or any if
    /// `None` is given. Either this or `bhd_combo_directory` succeeds,
    /// never both.
    pub fn bhd_directory(&self, processor_generation: Option<ProcessorGeneration>) -> (r: Result<
        BhdDirectory,
    >)
        ensures
            ({
                let candidates = spec_bhd_directory_candidates(
                    self.spec_efh(),
                    processor_generation,
                    self.spec_mmio_size(),
                );
                match r {
                    Ok(d) => {
                        &&& candidates.len() > 0
                        &&& BhdDirectory::spec_loaded(
                            d,
                            self.spec_storage().contents(),
                            candidates[0],
                            0,
                            self.spec_mmio_size(),
                        )
                        &&& d.spec_header().cookie == crate::ondisk::spec_bhd_cookie()
                    },
                    Err(e) => {
                        ||| (e == Error::BhdDirectoryHeaderNotFound && candidates.len() == 0)
                        ||| (candidates.len() > 0 && (e matches Error::Io(_) || e
                            == Error::DirectoryTypeMismatch || e == Error::DirectoryRangeCheck))
                    },
                }
            }),
    {
        let candidates = match self.bhd_directories(processor_generation) {
            Ok(v) => v,
            Err(e) => {
                return Err(e);
            },
        };
        if candidates.len() == 0 {
            return Err(Error::BhdDirectoryHeaderNotFound);
        }
        let bhd_directory_table_location = candidates[0];
        let directory = match BhdDirectory::load(
            &self.storage,
            bhd_directory_table_location,
            0,
            self.amd_physical_mode_mmio_size,
        ) {
            Ok(d) => d,
            Err(e) => {
                return Err(e);
            },
        };
        let first = BhdDirectoryHeader::first_level_cookie();
        if !crate::ondisk::cookie_eq(&directory.header().cookie(), &first) {
            return Err(Error::DirectoryTypeMismatch);
        }
        Ok(directory)
    }

    /// The first-level BHD combo directory matching the generation, or any
    /// if `None` is given. Either this or `bhd_directory` succeeds, never
    /// both.
    pub fn bhd_combo_directory(
        &self,
        processor_generation: Option<ProcessorGeneration>,
    ) -> (r: Result<ComboDirectory>)
        ensures
            ({
                let candidates = spec_bhd_directory_candidates(
                    self.spec_efh(),
                    processor_generation,
                    self.spec_mmio_size(),
                );
                match r {
                    Ok(d) => {
                        &&& candidates.len() > 0
                        &&& ComboDirectory::spec_loaded(
                            d,
                            self.spec_storage().contents(),
                            candidates[0],
                            0,
                            self.spec_mmio_size(),
                        )
                        &&& d.spec_header().cookie == crate::ondisk::spec_combo_bhd_cookie()
                    },
                    Err(e) => {
                        ||| (e == Error::BhdDirectoryHeaderNotFound && candidates.len() == 0)
                        ||| (candidates.len() > 0 && (e matches Error::Io(_) || e
                            == Error::DirectoryTypeMismatch || e == Error::DirectoryRangeCheck))
                    },
                }
            }),
    {
        let candidates = match self.bhd_directories(processor_generation) {
            Ok(v) => v,
            Err(e) => {
                return Err(e);
            },
        };
        if candidates.len() == 0 {
            return Err(Error::BhdDirectoryHeaderNotFound);
        }
        let bhd_directory_table_location = candidates[0];
        let directory = match ComboDirectory::load(
            &self.storage,
            bhd_directory_table_location,
            0,
            self.amd_physical_mode_mmio_size,
        ) {
            Ok(d) => d,
            Err(e) => {
                return Err(e);
            },
        };
        let expected = ComboDirectoryHeader::bhd_cookie();
        if !crate::ondisk::cookie_eq(&directory.header().cookie(), &expected) {
            return Err(Error::DirectoryTypeMismatch);
        }
        Ok(directory)
    }

    pub fn spi_mode_bulldozer(&self) -> (r: Result<Option<EfhBulldozerSpiMode>>)
        ensures
            match r {
                Ok(None) => self.spec_efh().spi_mode_bulldozer.spec_all_unset(),
                Ok(Some(m)) => {
                    &&& !self.spec_efh().spi_mode_bulldozer.spec_all_unset()
                    &&& SpiReadMode::spec_from_u8(self.spec_efh().spi_mode_bulldozer.read_mode)
                        == Some(m.read_mode)
                    &&& SpiFastSpeedNew::spec_from_u8(
                        self.spec_efh().spi_mode_bulldozer.fast_speed,
                    ) == Some(m.fast_speed_new)
                },
                Err(e) => {
                    &&& e == Error::Marshal
                    &&& !self.spec_efh().spi_mode_bulldozer.spec_all_unset()
                    &&& (SpiReadMode::spec_from_u8(
                        self.spec_efh().spi_mode_bulldozer.read_mode,
                    ) is None || SpiFastSpeedNew::spec_from_u8(
                        self.spec_efh().spi_mode_bulldozer.fast_speed,
                    ) is None)
                },
            },
    {
        self.efh.spi_mode_bulldozer()
    }

    pub fn set_spi_mode_bulldozer(&mut self, value: Option<EfhBulldozerSpiMode>)
        ensures
            final(self).spec_efh() == (Efh {
                spi_mode_bulldozer: (match value {
                    None => crate::ondisk::EfhSpiModeBytes {
                        read_mode: 0xffu8,
                        fast_speed: 0xffu8,
                        micron_mode: 0xffu8,
                    },
                    Some(x) => crate::ondisk::EfhSpiModeBytes {
                        read_mode: x.read_mode.spec_to_u8(),
                        fast_speed: x.fast_speed_new.spec_to_u8(),
                        micron_mode: 0xffu8,
                    },
                }),
                ..old(self).spec_efh()
            }),
            final(self).spec_storage() == old(self).spec_storage(),
            final(self).spec_efh_beginning() == old(self).spec_efh_beginning(),
            final(self).spec_mmio_size() == old(self).spec_mmio_size(),
    {
        self.efh.set_spi_mode_bulldozer(value)
    }

    pub fn spi_mode_zen_naples(&self) -> (r: Result<Option<EfhNaplesSpiMode>>)
        ensures
            match r {
                Ok(None) => !spec_compatible_with_generation(
                    self.spec_efh().efs_generations,
                    ProcessorGeneration::Naples,
                ) || self.spec_efh().spi_mode_zen_naples.spec_all_unset(),
                Ok(Some(m)) => {
                    &&& spec_compatible_with_generation(
                        self.spec_efh().efs_generations,
                        ProcessorGeneration::Naples,
                    )
                    &&& !self.spec_efh().spi_mode_zen_naples.spec_all_unset()
                    &&& SpiReadMode::spec_from_u8(self.spec_efh().spi_mode_zen_naples.read_mode)
                        == Some(m.read_mode)
                    &&& SpiFastSpeedNew::spec_from_u8(
                        self.spec_efh().spi_mode_zen_naples.fast_speed,
                    ) == Some(m.fast_speed_new)
                    &&& crate::ondisk::SpiNaplesMicronMode::spec_from_u8(
                        self.spec_efh().spi_mode_zen_naples.micron_mode,
                    ) == Some(m.micron_mode)
                },
                Err(e) => {
                    &&& e == Error::Marshal
                    &&& spec_compatible_with_generation(
                        self.spec_efh().efs_generations,
                        ProcessorGeneration::Naples,
                    )
                    &&& !self.spec_efh().spi_mode_zen_naples.spec_all_unset()
                },
            },
    {
        self.efh.spi_mode_zen_naples()
    }

    pub fn set_spi_mode_zen_naples(&mut self, value: Option<EfhNaplesSpiMode>)
        ensures
            final(self).spec_efh() == (Efh {
                spi_mode_zen_naples: (match value {
                    None => crate::ondisk::EfhSpiModeBytes {
                        read_mode: 0xffu8,
                        fast_speed: 0xffu8,
                        micron_mode: 0xffu8,
                    },
                    Some(x) => crate::ondisk::EfhSpiModeBytes {
                        read_mode: x.read_mode.spec_to_u8(),
                        fast_speed: x.fast_speed_new.spec_to_u8(),
                        micron_mode: x.micron_mode.spec_to_u8(),
                    },
                }),
                ..old(self).spec_efh()
            }),
            final(self).spec_storage() == old(self).spec_storage(),
            final(self).spec_efh_beginning() == old(self).spec_efh_beginning(),
            final(self).spec_mmio_size() == old(self).spec_mmio_size(),
    {
        self.efh.set_spi_mode_zen_naples(value)
    }

    pub fn spi_mode_zen_rome(&self) -> (r: Result<Option<EfhRomeSpiMode>>)
        ensures
            match r {
                Ok(None) => self.spec_efh().spi_mode_zen_rome.spec_all_unset(),
                Ok(Some(m)) => {
                    &&& !self.spec_efh().spi_mode_zen_rome.spec_all_unset()
                    &&& SpiReadMode::spec_from_u8(self.spec_efh().spi_mode_zen_rome.read_mode)
                        == Some(m.read_mode)
                    &&& SpiFastSpeedNew::spec_from_u8(
                        self.spec_efh().spi_mode_zen_rome.fast_speed,
                    ) == Some(m.fast_speed_new)
                    &&& crate::ondisk::SpiRomeMicronMode::spec_from_u8(
                        self.spec_efh().spi_mode_zen_rome.micron_mode,
                    ) == Some(m.micron_mode)
                },
                Err(e) => {
                    &&& e == Error::Marshal
                    &&& !self.spec_efh().spi_mode_zen_rome.spec_all_unset()
                },
            },
    {
        self.efh.spi_mode_zen_rome()
    }

    pub fn set_spi_mode_zen_rome(&mut self, value: Option<EfhRomeSpiMode>)
        ensures
            final(self).spec_efh() == (Efh {
                spi_mode_zen_rome: (match value {
                    None => crate::ondisk::EfhSpiModeBytes {
                        read_mode: 0xffu8,
                        fast_speed: 0xffu8,
                        micron_mode: 0xffu8,
                    },
                    Some(x) => crate::ondisk::EfhSpiModeBytes {
                        read_mode: x.read_mode.spec_to_u8(),
                        fast_speed: x.fast_speed_new.spec_to_u8(),
                        micron_mode: x.micron_mode.spec_to_u8(),
                    },
                }),
                ..old(self).spec_efh()
            }),
            final(self).spec_storage() == old(self).spec_storage(),
            final(self).spec_efh_beginning() == old(self).spec_efh_beginning(),
            final(self).spec_mmio_size() == old(self).spec_mmio_size(),
    {
        self.efh.set_spi_mode_zen_rome(value)
    }

    pub fn espi0_configuration(&self) -> (r: Result<Option<EfhEspiConfiguration>>)
        ensures
            r == (if self.spec_efh().espi0_configuration % 2 == 1 {
                Ok::<Option<EfhEspiConfiguration>, Error>(None)
            } else {
                Ok::<Option<EfhEspiConfiguration>, Error>(
                    Some(EfhEspiConfiguration::spec_from_u8(self.spec_efh().espi0_configuration)),
                )
            }),
    {
        self.efh.espi0_configuration()
    }

    pub fn set_espi0_configuration(&mut self, value: Option<EfhEspiConfiguration>)
        ensures
            final(self).spec_efh() == (Efh {
                espi0_configuration: (match value {
                    None => 0xffu8,
                    Some(x) => x.spec_to_u8(),
                }),
                ..old(self).spec_efh()
            }),
            final(self).spec_storage() == old(self).spec_storage(),
            final(self).spec_efh_beginning() == old(self).spec_efh_beginning(),
            final(self).spec_mmio_size() == old(self).spec_mmio_size(),
    {
        self.efh.set_espi0_configuration(value)
    }

    pub fn espi1_configuration(&self) -> (r: Result<Option<EfhEspiConfiguration>>)
        ensures
            r == (if self.spec_efh().espi1_configuration % 2 == 1 {
                Ok::<Option<EfhEspiConfiguration>, Error>(None)
            } else {
                Ok::<Option<EfhEspiConfiguration>, Error>(
                    Some(EfhEspiConfiguration::spec_from_u8(self.spec_efh().espi1_configuration)),
                )
            }),
    {
        self.efh.espi1_configuration()
    }

    pub fn set_espi1_configuration(&mut self, value: Option<EfhEspiConfiguration>)
        ensures
            final(self).spec_efh() == (Efh {
                espi1_configuration: (match value {
                    None => 0xffu8,
                    Some(x) => x.spec_to_u8(),
                }),
                ..old(self).spec_efh()
            }),
            final(self).spec_storage() == old(self).spec_storage(),
            final(self).spec_efh_beginning() == old(self).spec_efh_beginning(),
            final(self).spec_mmio_size() == old(self).spec_mmio_size(),
    {
        self.efh.set_espi1_configuration(value)
    }
}


/// Where a combo directory entry's payload lies: the raw source decoded
/// under the directory's address mode, then resolved against the
/// directory's bases and MMIO window.
pub open spec fn spec_combo_entry_location(
    directory: &ComboDirectory,
    entry: &ComboDirectoryEntry,
) -> core::result::Result<Location, Error> {
    match spec_location_of_raw(
        directory.spec_directory_address_mode(),
        entry.internal_source,
    ) {
        None => Err(Error::DirectoryPayloadRangeCheck),
        Some(src) => spec_location_of_source(
            src,
            directory.spec_beginning(),
            directory.spec_mode3_base(),
            directory.spec_mmio_size(),
        ),
    }
}

/// The first entry of a PSP directory that names a second-level PSP
/// directory.
pub open spec fn spec_first_psp_second_level(entries: Seq<PspDirectoryEntry>) -> Option<
    PspDirectoryEntry,
>
    decreases entries.len(),
{
    if entries.len() == 0 {
        None
    } else if spec_is_psp_second_level(entries[0]) {
        Some(entries[0])
    } else {
        spec_first_psp_second_level(entries.skip(1))
    }
}

/// The first entry of a PSP directory that names a second-level BHD
/// directory.
pub open spec fn spec_first_psp_second_level_bhd(entries: Seq<PspDirectoryEntry>) -> Option<
    PspDirectoryEntry,
>
    decreases entries.len(),
{
    if entries.len() == 0 {
        None
    } else if spec_is_psp_second_level_bhd(entries[0]) {
        Some(entries[0])
    } else {
        spec_first_psp_second_level_bhd(entries.skip(1))
    }
}

/// The first entry of a BHD directory that names a second-level BHD
/// directory.
pub open spec fn spec_first_bhd_second_level(entries: Seq<BhdDirectoryEntry>) -> Option<
    BhdDirectoryEntry,
>
    decreases entries.len(),
{
    if entries.len() == 0 {
        None
    } else if spec_is_bhd_second_level(entries[0]) {
        Some(entries[0])
    } else {
        spec_first_bhd_second_level(entries.skip(1))
    }
}

proof fn lemma_first_psp_second_level_skip(entries: Seq<PspDirectoryEntry>, i: int)
    requires
        0 <= i <= entries.len(),
        forall|j: int| 0 <= j < i ==> !spec_is_psp_second_level(#[trigger] entries[j]),
    ensures
        spec_first_psp_second_level(entries) == spec_first_psp_second_level(entries.skip(i)),
    decreases i,
{
    if i == 0 {
        assert(entries.skip(0) =~= entries);
    } else {
        lemma_first_psp_second_level_skip(entries, i - 1);
        assert(entries.skip(i - 1)[0] == entries[i - 1]);
        assert(entries.skip(i - 1).skip(1) =~= entries.skip(i));
    }
}

proof fn lemma_first_psp_second_level_bhd_skip(entries: Seq<PspDirectoryEntry>, i: int)
    requires
        0 <= i <= entries.len(),
        forall|j: int| 0 <= j < i ==> !spec_is_psp_second_level_bhd(#[trigger] entries[j]),
    ensures
        spec_first_psp_second_level_bhd(entries) == spec_first_psp_second_level_bhd(
            entries.skip(i),
        ),
    decreases i,
{
    if i == 0 {
        assert(entries.skip(0) =~= entries);
    } else {
        lemma_first_psp_second_level_bhd_skip(entries, i - 1);
        assert(entries.skip(i - 1)[0] == entries[i - 1]);
        assert(entries.skip(i - 1).skip(1) =~= entries.skip(i));
    }
}

proof fn lemma_first_bhd_second_level_skip(entries: Seq<BhdDirectoryEntry>, i: int)
    requires
        0 <= i <= entries.len(),
        forall|j: int| 0 <= j < i ==> !spec_is_bhd_second_level(#[trigger] entries[j]),
    ensures
        spec_first_bhd_second_level(entries) == spec_first_bhd_second_level(entries.skip(i)),
    decreases i,
{
    if i == 0 {
        assert(entries.skip(0) =~= entries);
    } else {
        lemma_first_bhd_second_level_skip(entries, i - 1);
        assert(entries.skip(i - 1)[0] == entries[i - 1]);
        assert(entries.skip(i - 1).skip(1) =~= entries.skip(i));
    }
}



/// Two half-open byte ranges intersect.
pub open spec fn spec_ranges_intersect(b: int, e: int, c: int, ce: int) -> bool {
    b < e && c < ce && b < ce && c < e
}

/// A loadable BHD directory sits at candidate offset `c` of the image.
pub open spec fn spec_bhd_directory_present(contents: Seq<u8>, c: u32) -> bool {
    let h = BhdDirectoryHeader::spec_parse(contents.subrange(c as int, c as int + 16));
    &&& c + 16 <= contents.len()
    &&& BhdDirectoryHeader::spec_cookie_allowed(h.cookie)
    &&& DirectoryAdditionalInfo::spec_from_u32(h.additional_info).address_mode
        != AddressMode::OtherDirectoryRelativeOffset
    &&& h.total_entries <= MAX_DIRECTORY_ENTRIES
    &&& c + 16 + 24 * h.total_entries <= contents.len()
    &&& c + 16 + 24 * h.total_entries <= u32::MAX
}

/// Where the allocation of the BHD directory at `c` ends: its
/// `additional_info.max_size`, in 4-kiB units, past its beginning.
pub open spec fn spec_bhd_allocated_end(contents: Seq<u8>, c: u32) -> int {
    let h = BhdDirectoryHeader::spec_parse(contents.subrange(c as int, c as int + 16));
    c + DirectoryAdditionalInfo::spec_from_u32(h.additional_info).max_size * 4096
}

/// Whether `[b, e)` intersects the allocated range of some BHD directory
/// that the EFS points at (any generation slot).
pub open spec fn spec_bhd_overlap_exists(
    contents: Seq<u8>,
    efh: Efh,
    amd_physical_mode_mmio_size: Option<u32>,
    b: int,
    e: int,
) -> bool {
    let cands = spec_bhd_directory_candidates(efh, None, amd_physical_mode_mmio_size);
    exists|j: int|
        0 <= j < cands.len() && #[trigger] spec_bhd_directory_present(contents, cands[j])
            && spec_ranges_intersect(b, e, cands[j] as int, spec_bhd_allocated_end(
            contents,
            cands[j],
        ))
}

/// What appending the second-level pointer entry leaves in the first-level
/// directory: one more entry, of kind `SecondLevelDirectory`, whose size is
/// the extent of `[beginning, end)` and whose source encodes
/// `EfsRelativeOffset(beginning)` under the parent's address mode.
pub open spec fn spec_subdir_parent_appended(
    parent: PspDirectory,
    appended: PspDirectory,
    beginning: ErasableLocation,
    end: ErasableLocation,
) -> bool {
    let extent: u32 = if beginning.spec_location() <= end.spec_location() {
        (end.spec_location() - beginning.spec_location()) as u32
    } else {
        0u32
    };
    &&& appended.spec_entries().len() == parent.spec_entries().len() + 1
    &&& appended.spec_entries().take(parent.spec_entries().len() as int)
        == parent.spec_entries()
    &&& ({
        let e = appended.spec_entries().last();
        &&& e.attrs == (crate::ondisk::PspDirectoryEntryAttrs {
            type_: PspDirectoryEntryType::SecondLevelDirectory.spec_to_u8(),
            ..crate::ondisk::PspDirectoryEntryAttrs::spec_from_u32(0)
        })
        &&& e.internal_size == extent
        &&& crate::ondisk::spec_raw_of_location(
            parent.spec_directory_address_mode(),
            ValueOrLocation::EfsRelativeOffset(beginning.spec_location()),
        ) == Some(e.internal_source)
    })
    &&& appended.spec_header() == (PspDirectoryHeader {
        total_entries: (parent.spec_header().total_entries + 1) as u32,
        ..parent.spec_header()
    })
    &&& appended.spec_beginning() == parent.spec_beginning()
    &&& appended.spec_mode3_base() == parent.spec_mode3_base()
    &&& appended.spec_directory_address_mode() == parent.spec_directory_address_mode()
    &&& appended.spec_mmio_size() == parent.spec_mmio_size()
}

impl<T: FlashRead + FlashWrite> Efs<T> {
    /// Build a BHD directory in memory, without setting it as the main
    /// one; also used for second-level directories. The default entry
    /// address mode must agree with the EFS's pointer convention.
    pub fn create_bhd_directory(
        &mut self,
        cookie: [u8; 4],
        beginning: ErasableLocation,
        end: ErasableLocation,
        default_entry_address_mode: AddressMode,
        entries: &Vec<BhdDirectoryEntry>,
    ) -> (r: Result<BhdDirectory>)
        requires
            beginning.spec_block_size() == end.spec_block_size(),
            forall|i: int| 0 <= i < entries@.len() ==> #[trigger] entries@[i].wf(),
        ensures
            *final(self) == *old(self),
            ({
                let overlap = spec_bhd_overlap_exists(
                    old(self).spec_storage().contents(),
                    old(self).spec_efh(),
                    old(self).spec_mmio_size(),
                    beginning.spec_location() as int,
                    end.spec_location() as int,
                );
                let agrees = spec_address_mode_agrees(
                    default_entry_address_mode,
                    spec_physical_address_mode(old(self).spec_efh().efs_generations),
                );
                match r {
                    Ok(d) => {
                        &&& agrees
                        &&& !overlap
                        &&& d.spec_beginning() == beginning.spec_location()
                        &&& d.spec_mode3_base() == 0
                        &&& d.spec_directory_address_mode() == default_entry_address_mode
                        &&& d.spec_header().cookie == cookie
                        &&& d.spec_header().total_entries == entries@.len()
                        &&& d.spec_entries() == entries@
                        &&& d.spec_mmio_size() == old(self).spec_mmio_size()
                        &&& d.wf()
                    },
                    Err(e) => {
                        ||| (e == Error::DirectoryTypeMismatch && (!agrees
                            || default_entry_address_mode
                            == AddressMode::OtherDirectoryRelativeOffset))
                        ||| (e == Error::Overlap && agrees && overlap)
                        ||| (e matches Error::Io(_) && agrees)
                        ||| (e == Error::DirectoryRangeCheck && agrees && !overlap
                            && entries@.len() > MAX_DIRECTORY_ENTRIES)
                    },
                }
            }),
    {
        match default_entry_address_mode {
            AddressMode::PhysicalAddress => {
                if !self.physical_address_mode() {
                    return Err(Error::DirectoryTypeMismatch);
                }
            },
            AddressMode::EfsRelativeOffset | AddressMode::DirectoryRelativeOffset => {
                if self.physical_address_mode() {
                    return Err(Error::DirectoryTypeMismatch);
                }
            },
            _ => {
                return Err(Error::DirectoryTypeMismatch);
            },
        }
        // Refuse a range that intersects a BHD directory the EFS already
        // points at.
        let ghost contents = self.spec_storage().contents();
        let ghost cands = spec_bhd_directory_candidates(
            self.spec_efh(),
            None,
            self.spec_mmio_size(),
        );
        let begin_v: u32 = beginning.location_value();
        let end_v: u32 = end.location_value();
        let candidates = match self.bhd_directories(None) {
            Ok(v) => v,
            Err(e) => {
                return Err(e);
            },
        };
        let mut i: usize = 0;
        while i < candidates.len()
            invariant
                *self == *old(self),
                candidates@ == cands,
                contents == self.spec_storage().contents(),
                spec_address_mode_agrees(
                    default_entry_address_mode,
                    spec_physical_address_mode(self.spec_efh().efs_generations),
                ),
                cands == spec_bhd_directory_candidates(
                    self.spec_efh(),
                    None,
                    self.spec_mmio_size(),
                ),
                begin_v == beginning.spec_location(),
                end_v == end.spec_location(),
                i <= cands.len(),
                forall|j: int|
                    0 <= j < i ==> !(#[trigger] spec_bhd_directory_present(contents, cands[j])
                        && spec_ranges_intersect(
                        begin_v as int,
                        end_v as int,
                        cands[j] as int,
                        spec_bhd_allocated_end(contents, cands[j]),
                    )),
            decreases cands.len() - i,
        {
            let c = candidates[i];
            match BhdDirectory::load(&self.storage, c, 0, self.amd_physical_mode_mmio_size) {
                Ok(d) => {
                    let total = d.header().total_entries();
                    if (c as u64) + 16 + 24 * (total as u64) <= u32::MAX as u64 {
                        let info = d.header().additional_info();
                        let alloc_end: u64 = c as u64 + (info.max_size() as u64) * 4096;
                        let intersects = (begin_v as u64) < (end_v as u64) && (c as u64)
                            < alloc_end && (begin_v as u64) < alloc_end && (c as u64) < (
                        end_v as u64);
                        if intersects {
                            proof {
                                assert(spec_bhd_directory_present(contents, cands[i as int]));
                                assert(spec_ranges_intersect(
                                    begin_v as int,
                                    end_v as int,
                                    cands[i as int] as int,
                                    spec_bhd_allocated_end(contents, cands[i as int]),
                                ));
                                assert(spec_bhd_overlap_exists(
                                    contents,
                                    self.spec_efh(),
                                    self.spec_mmio_size(),
                                    begin_v as int,
                                    end_v as int,
                                ));
                            }
                            return Err(Error::Overlap);
                        }
                        proof {
                            assert(spec_bhd_directory_present(contents, cands[i as int]));
                            assert(!spec_ranges_intersect(
                                begin_v as int,
                                end_v as int,
                                cands[i as int] as int,
                                spec_bhd_allocated_end(contents, cands[i as int]),
                            ));
                        }
                    } else {
                        proof {
                            assert(!spec_bhd_directory_present(contents, cands[i as int]));
                        }
                    }
                },
                Err(e1) => {
                    match e1 {
                        Error::Io(io) => {
                            return Err(Error::Io(io));
                        },
                        _ => {
                            proof {
                                assert(!spec_bhd_directory_present(contents, cands[i as int]));
                            }
                        },
                    }
                },
            }
            i = i + 1;
        }
        proof {
            assert(!spec_bhd_overlap_exists(
                contents,
                self.spec_efh(),
                self.spec_mmio_size(),
                begin_v as int,
                end_v as int,
            ));
        }
        BhdDirectory::create(
            beginning.location_value(),
            0,
            default_entry_address_mode,
            cookie,
            self.amd_physical_mode_mmio_size,
            entries,
        )
    }

    /// Store the directory's beginning into the BHD slot matching the
    /// EFS's generation, and flush the EFS.
    pub fn set_main_bhd_directory(&mut self, directory: &BhdDirectory) -> (r: Result<()>)
        requires
            old(self).wf(),
        ensures
            final(self).wf(),
            final(self).spec_efh_beginning() == old(self).spec_efh_beginning(),
            final(self).spec_mmio_size() == old(self).spec_mmio_size(),
            ({
                let updated = if spec_compatible_with_generation(
                    old(self).spec_efh().efs_generations,
                    ProcessorGeneration::Milan,
                ) || spec_compatible_with_generation(
                    old(self).spec_efh().efs_generations,
                    ProcessorGeneration::Genoa,
                ) || spec_compatible_with_generation(
                    old(self).spec_efh().efs_generations,
                    ProcessorGeneration::Turin,
                ) {
                    Efh {
                        bhd_directory_table_milan: directory.spec_beginning(),
                        ..old(self).spec_efh()
                    }
                } else {
                    Efh {
                        bhd_directory_table_rome: directory.spec_beginning(),
                        ..old(self).spec_efh()
                    }
                };
                &&& final(self).spec_efh() == updated
                &&& r is Ok ==> final(self).spec_storage().contents() == flash::write_bytes(
                    old(self).spec_storage().contents(),
                    old(self).spec_efh_beginning().spec_location() as int,
                    flash::padded_to_blocks(
                        crate::ondisk::spec_efh_bytes(updated),
                        old(self).spec_storage().spec_block_size() as int,
                    ),
                )
            }),
    {
        let beginning = directory.beginning();
        if self.efh.compatible_with_processor_generation(ProcessorGeneration::Milan)
            || self.efh.compatible_with_processor_generation(ProcessorGeneration::Genoa)
            || self.efh.compatible_with_processor_generation(ProcessorGeneration::Turin) {
            self.efh.set_bhd_directory_table_milan(beginning);
        } else {
            self.efh.set_bhd_directory_table_rome(beginning);
        }
        self.write_efh()
    }

    /// Build a PSP directory in memory, without setting it as the main
    /// one. The default entry address mode must agree with the EFS's
    /// pointer convention.
    pub fn create_psp_directory(
        &mut self,
        cookie: [u8; 4],
        beginning: ErasableLocation,
        end: ErasableLocation,
        default_entry_address_mode: AddressMode,
        entries: &Vec<PspDirectoryEntry>,
    ) -> (r: Result<PspDirectory>)
        requires
            beginning.spec_block_size() == end.spec_block_size(),
            forall|i: int| 0 <= i < entries@.len() ==> #[trigger] entries@[i].wf(),
        ensures
            *final(self) == *old(self),
            match r {
                Ok(d) => {
                    &&& spec_address_mode_agrees(
                        default_entry_address_mode,
                        spec_physical_address_mode(old(self).spec_efh().efs_generations),
                    )
                    &&& d.spec_beginning() == beginning.spec_location()
                    &&& d.spec_mode3_base() == beginning.spec_location()
                    &&& d.spec_directory_address_mode() == default_entry_address_mode
                    &&& d.spec_header().cookie == cookie
                    &&& d.spec_header().total_entries == entries@.len()
                    &&& d.spec_entries() == entries@
                    &&& d.spec_mmio_size() == old(self).spec_mmio_size()
                    &&& d.wf()
                },
                Err(e) => {
                    ||| (e == Error::DirectoryTypeMismatch && (!spec_address_mode_agrees(
                        default_entry_address_mode,
                        spec_physical_address_mode(old(self).spec_efh().efs_generations),
                    ) || default_entry_address_mode
                        == AddressMode::OtherDirectoryRelativeOffset))
                    ||| (e == Error::DirectoryRangeCheck && entries@.len()
                        > MAX_DIRECTORY_ENTRIES)
                },
            },
    {
        match default_entry_address_mode {
            AddressMode::PhysicalAddress => {
                if !self.physical_address_mode() {
                    return Err(Error::DirectoryTypeMismatch);
                }
            },
            AddressMode::EfsRelativeOffset | AddressMode::DirectoryRelativeOffset => {
                if self.physical_address_mode() {
                    return Err(Error::DirectoryTypeMismatch);
                }
            },
            _ => {
                return Err(Error::DirectoryTypeMismatch);
            },
        }
        PspDirectory::create(
            beginning.location_value(),
            beginning.location_value(),
            default_entry_address_mode,
            cookie,
            self.amd_physical_mode_mmio_size,
            entries,
        )
    }

    /// Store the directory's beginning into the Zen PSP slot and flush the
    /// EFS.
    pub fn set_main_psp_directory(&mut self, directory: &PspDirectory) -> (r: Result<()>)
        requires
            old(self).wf(),
        ensures
            final(self).wf(),
            final(self).spec_efh_beginning() == old(self).spec_efh_beginning(),
            final(self).spec_mmio_size() == old(self).spec_mmio_size(),
            final(self).spec_efh() == (Efh {
                psp_directory_table_location_zen: directory.spec_beginning(),
                ..old(self).spec_efh()
            }),
            r is Ok ==> final(self).spec_storage().contents() == flash::write_bytes(
                old(self).spec_storage().contents(),
                old(self).spec_efh_beginning().spec_location() as int,
                flash::padded_to_blocks(
                    crate::ondisk::spec_efh_bytes(final(self).spec_efh()),
                    old(self).spec_storage().spec_block_size() as int,
                ),
            ),
    {
        let beginning = directory.beginning();
        self.efh.set_psp_directory_table_location_zen(beginning);
        self.write_efh()
    }

    /// Load the PSP directory a combo directory entry selects.
    pub fn psp_combo_subdirectory(
        &self,
        directory: &ComboDirectory,
        entry: &ComboDirectoryEntry,
    ) -> (r: Result<PspDirectory>)
        ensures
            ({
                let resolved = spec_combo_entry_location(directory, entry);
                match r {
                    Ok(d) => resolved matches Ok(loc) && PspDirectory::spec_loaded(
                        d,
                        self.spec_storage().contents(),
                        loc,
                        directory.spec_beginning(),
                        self.spec_mmio_size(),
                    ),
                    Err(e) => {
                        ||| Err::<Location, Error>(e) == resolved
                        ||| (resolved is Ok && (e matches Error::Io(_) || e
                            == Error::DirectoryTypeMismatch || e == Error::DirectoryRangeCheck))
                    },
                }
            }),
    {
        let beginning = match directory.payload_beginning(entry) {
            Ok(b) => b,
            Err(e) => {
                return Err(e);
            },
        };
        let d = match PspDirectory::load(
            &self.storage,
            beginning,
            directory.beginning(),
            self.amd_physical_mode_mmio_size,
        ) {
            Ok(d) => d,
            Err(e) => {
                return Err(e);
            },
        };
        proof {
            assert(PspDirectory::spec_loaded(
                d,
                self.spec_storage().contents(),
                beginning,
                directory.spec_beginning(),
                self.spec_mmio_size(),
            ));
        }
        Ok(d)
    }

    /// Load the BHD directory a combo directory entry selects.
    pub fn bhd_combo_subdirectory(
        &self,
        directory: &ComboDirectory,
        entry: &ComboDirectoryEntry,
    ) -> (r: Result<BhdDirectory>)
        ensures
            ({
                let resolved = spec_combo_entry_location(directory, entry);
                match r {
                    Ok(d) => resolved matches Ok(loc) && BhdDirectory::spec_loaded(
                        d,
                        self.spec_storage().contents(),
                        loc,
                        directory.spec_beginning(),
                        self.spec_mmio_size(),
                    ),
                    Err(e) => {
                        ||| Err::<Location, Error>(e) == resolved
                        ||| (resolved is Ok && (e matches Error::Io(_) || e
                            == Error::DirectoryTypeMismatch || e == Error::DirectoryRangeCheck))
                    },
                }
            }),
    {
        let beginning = match directory.payload_beginning(entry) {
            Ok(b) => b,
            Err(e) => {
                return Err(e);
            },
        };
        let d = match BhdDirectory::load(
            &self.storage,
            beginning,
            directory.beginning(),
            self.amd_physical_mode_mmio_size,
        ) {
            Ok(d) => d,
            Err(e) => {
                return Err(e);
            },
        };
        proof {
            assert(BhdDirectory::spec_loaded(
                d,
                self.spec_storage().contents(),
                beginning,
                directory.spec_beginning(),
                self.spec_mmio_size(),
            ));
        }
        Ok(d)
    }

    /// Find and load the second-level PSP directory that the given
    /// directory's first `SecondLevelDirectory` entry points at.
    pub fn psp_subdirectory(&self, directory: &PspDirectory) -> (r: Result<PspDirectory>)
        ensures
            match r {
                Ok(d) => {
                    &&& spec_first_psp_second_level(directory.spec_entries()) is Some
                    &&& spec_first_psp_second_level(directory.spec_entries()) matches Some(e)
                        && (spec_entry_source(
                        directory.spec_directory_address_mode(),
                        e.internal_size,
                        e.internal_source,
                    ) matches Some(src) && (spec_location_of_source(
                        src,
                        directory.spec_beginning(),
                        directory.spec_mode3_base(),
                        directory.spec_mmio_size(),
                    ) matches Ok(loc) && PspDirectory::spec_loaded(
                        d,
                        self.spec_storage().contents(),
                        loc,
                        loc,
                        self.spec_mmio_size(),
                    )))
                },
                Err(e) => {
                    ||| (e == Error::EntryNotFound && spec_first_psp_second_level(
                        directory.spec_entries(),
                    ) is None)
                    ||| (e != Error::EntryNotFound && spec_first_psp_second_level(
                        directory.spec_entries(),
                    ) is Some)
                },
            },
    {
        let entries = directory.entries();
        let mut i: usize = 0;
        while i < entries.len()
            invariant
                entries@ == directory.spec_entries(),
                i <= entries@.len(),
                forall|j: int|
                    0 <= j < i ==> !spec_is_psp_second_level(#[trigger] entries@[j]),
            decreases entries@.len() - i,
        {
            let entry = entries[i];
            let is_hit = match entry.typ_or_err() {
                Ok(PspDirectoryEntryType::SecondLevelDirectory) => true,
                _ => false,
            };
            if is_hit {
                proof {
                    lemma_first_psp_second_level_skip(entries@, i as int);
                    assert(entries@.skip(i as int)[0] == entries@[i as int]);
                    assert(spec_is_psp_second_level(entries@[i as int]));
                    assert(spec_first_psp_second_level(directory.spec_entries()) == Some(entry));
                }
                let beginning = match directory.payload_beginning(&entry) {
                    Ok(b) => b,
                    Err(e) => {
                        return Err(e);
                    },
                };
                let d = match PspDirectory::load(
                    &self.storage,
                    beginning,
                    beginning,
                    self.amd_physical_mode_mmio_size,
                ) {
                    Ok(d) => d,
                    Err(e) => {
                        return Err(e);
                    },
                };
                proof {
                    assert(PspDirectory::spec_loaded(
                        d,
                        self.spec_storage().contents(),
                        beginning,
                        beginning,
                        self.spec_mmio_size(),
                    ));
                }
                return Ok(d);
            }
            i = i + 1;
        }
        proof {
            lemma_first_psp_second_level_skip(entries@, entries@.len() as int);
            assert(entries@.skip(entries@.len() as int) =~= Seq::<PspDirectoryEntry>::empty());
        }
        Err(Error::EntryNotFound)
    }

    /// Find and load the second-level BHD directory that the given
    /// directory's first `SecondLevelDirectory` entry points at.
    pub fn bhd_subdirectory(&self, directory: &BhdDirectory) -> (r: Result<BhdDirectory>)
        ensures
            match r {
                Ok(d) => {
                    &&& spec_first_bhd_second_level(directory.spec_entries()) is Some
                    &&& spec_first_bhd_second_level(directory.spec_entries()) matches Some(e)
                        && (spec_entry_source(
                        directory.spec_directory_address_mode(),
                        e.internal_size,
                        e.internal_source,
                    ) matches Some(src) && (spec_location_of_source(
                        src,
                        directory.spec_beginning(),
                        directory.spec_mode3_base(),
                        directory.spec_mmio_size(),
                    ) matches Ok(loc) && BhdDirectory::spec_loaded(
                        d,
                        self.spec_storage().contents(),
                        loc,
                        loc,
                        self.spec_mmio_size(),
                    )))
                },
                Err(e) => {
                    ||| (e == Error::EntryNotFound && spec_first_bhd_second_level(
                        directory.spec_entries(),
                    ) is None)
                    ||| (e != Error::EntryNotFound && spec_first_bhd_second_level(
                        directory.spec_entries(),
                    ) is Some)
                },
            },
    {
        let entries = directory.entries();
        let mut i: usize = 0;
        while i < entries.len()
            invariant
                entries@ == directory.spec_entries(),
                i <= entries@.len(),
                forall|j: int|
                    0 <= j < i ==> !spec_is_bhd_second_level(#[trigger] entries@[j]),
            decreases entries@.len() - i,
        {
            let entry = entries[i];
            let is_hit = match entry.typ_or_err() {
                Ok(BhdDirectoryEntryType::SecondLevelDirectory) => true,
                _ => false,
            };
            if is_hit {
                proof {
                    lemma_first_bhd_second_level_skip(entries@, i as int);
                    assert(entries@.skip(i as int)[0] == entries@[i as int]);
                    assert(spec_is_bhd_second_level(entries@[i as int]));
                    assert(spec_first_bhd_second_level(directory.spec_entries()) == Some(entry));
                }
                let beginning = match directory.payload_beginning(&entry) {
                    Ok(b) => b,
                    Err(e) => {
                        return Err(e);
                    },
                };
                let d = match BhdDirectory::load(
                    &self.storage,
                    beginning,
                    beginning,
                    self.amd_physical_mode_mmio_size,
                ) {
                    Ok(d) => d,
                    Err(e) => {
                        return Err(e);
                    },
                };
                proof {
                    assert(BhdDirectory::spec_loaded(
                        d,
                        self.spec_storage().contents(),
                        beginning,
                        beginning,
                        self.spec_mmio_size(),
                    ));
                }
                return Ok(d);
            }
            i = i + 1;
        }
        proof {
            lemma_first_bhd_second_level_skip(entries@, entries@.len() as int);
            assert(entries@.skip(entries@.len() as int) =~= Seq::<BhdDirectoryEntry>::empty());
        }
        Err(Error::EntryNotFound)
    }

    /// Given a PSP directory, find the second-level BHD directory that is
    /// a payload of it (if any) and load that.
    pub fn psp_ab_bhd_subdirectory(&self, directory: &PspDirectory) -> (r: Result<BhdDirectory>)
        ensures
            match r {
                Ok(d) => {
                    &&& spec_first_psp_second_level_bhd(directory.spec_entries()) is Some
                    &&& spec_first_psp_second_level_bhd(directory.spec_entries()) matches Some(e)
                        && (spec_entry_source(
                        directory.spec_directory_address_mode(),
                        e.internal_size,
                        e.internal_source,
                    ) matches Some(src) && (spec_location_of_source(
                        src,
                        directory.spec_beginning(),
                        directory.spec_mode3_base(),
                        directory.spec_mmio_size(),
                    ) matches Ok(loc) && BhdDirectory::spec_loaded(
                        d,
                        self.spec_storage().contents(),
                        loc,
                        directory.spec_beginning(),
                        self.spec_mmio_size(),
                    )))
                },
                Err(e) => {
                    ||| (e == Error::EntryNotFound && spec_first_psp_second_level_bhd(
                        directory.spec_entries(),
                    ) is None)
                    ||| (e != Error::EntryNotFound && spec_first_psp_second_level_bhd(
                        directory.spec_entries(),
                    ) is Some)
                },
            },
    {
        let entries = directory.entries();
        let mut i: usize = 0;
        while i < entries.len()
            invariant
                entries@ == directory.spec_entries(),
                i <= entries@.len(),
                forall|j: int|
                    0 <= j < i ==> !spec_is_psp_second_level_bhd(#[trigger] entries@[j]),
            decreases entries@.len() - i,
        {
            let entry = entries[i];
            let is_hit = match entry.typ_or_err() {
                Ok(PspDirectoryEntryType::SecondLevelBhdDirectory) => true,
                _ => false,
            };
            if is_hit {
                proof {
                    lemma_first_psp_second_level_bhd_skip(entries@, i as int);
                    assert(entries@.skip(i as int)[0] == entries@[i as int]);
                    assert(spec_is_psp_second_level_bhd(entries@[i as int]));
                    assert(spec_first_psp_second_level_bhd(directory.spec_entries()) == Some(entry));
                }
                let beginning = match directory.payload_beginning(&entry) {
                    Ok(b) => b,
                    Err(e) => {
                        return Err(e);
                    },
                };
                let d = match BhdDirectory::load(
                    &self.storage,
                    beginning,
                    directory.beginning(),
                    self.amd_physical_mode_mmio_size,
                ) {
                    Ok(d) => d,
                    Err(e) => {
                        return Err(e);
                    },
                };
                proof {
                    assert(BhdDirectory::spec_loaded(
                        d,
                        self.spec_storage().contents(),
                        beginning,
                        directory.spec_beginning(),
                        self.spec_mmio_size(),
                    ));
                }
                return Ok(d);
            }
            i = i + 1;
        }
        proof {
            lemma_first_psp_second_level_bhd_skip(entries@, entries@.len() as int);
            assert(entries@.skip(entries@.len() as int) =~= Seq::<PspDirectoryEntry>::empty());
        }
        Err(Error::EntryNotFound)
    }

    /// Append a `SecondLevelDirectory` entry to the given first-level PSP
    /// directory and build the second-level directory it points at.
    pub fn create_psp_subdirectory(
        &self,
        directory: &mut PspDirectory,
        beginning: ErasableLocation,
        end: ErasableLocation,
        amd_physical_mode_mmio_size: Option<u32>,
        entries: &Vec<PspDirectoryEntry>,
    ) -> (r: Result<PspDirectory>)
        requires
            old(directory).wf(),
            forall|i: int| 0 <= i < entries@.len() ==> #[trigger] entries@[i].wf(),
            beginning.spec_location() <= end.spec_location() ==> end.spec_location()
                - beginning.spec_location() != crate::ondisk::SIZE_VALUE_MARKER,
        ensures
            match r {
                Ok(d) => {
                    &&& old(directory).spec_header().cookie == crate::ondisk::spec_psp_cookie()
                    &&& spec_subdir_parent_appended(*old(directory), *final(directory), beginning, end)
                    &&& d.spec_beginning() == beginning.spec_location()
                    &&& d.spec_mode3_base() == beginning.spec_location()
                    &&& d.spec_directory_address_mode() == old(
                        directory,
                    ).spec_directory_address_mode()
                    &&& d.spec_mmio_size() == amd_physical_mode_mmio_size
                    &&& d.spec_header() == (PspDirectoryHeader {
                        cookie: crate::ondisk::spec_pl2_cookie(),
                        checksum: 0,
                        total_entries: entries@.len() as u32,
                        additional_info: 0xffff_ffffu32,
                    })
                    &&& d.spec_entries() == entries@
                    &&& d.wf()
                },
                Err(e) => {
                    ||| (e == Error::DirectoryTypeMismatch && old(directory).spec_header().cookie
                        != crate::ondisk::spec_psp_cookie() && *final(directory) == *old(
                        directory,
                    ))
                    ||| (e == Error::EntryTypeMismatch && old(directory).spec_header().cookie
                        == crate::ondisk::spec_psp_cookie() && crate::ondisk::spec_raw_of_location(
                        old(directory).spec_directory_address_mode(),
                        ValueOrLocation::EfsRelativeOffset(beginning.spec_location()),
                    ) is None && *final(directory) == *old(directory))
                    ||| (e == Error::DirectoryRangeCheck && old(directory).spec_header().cookie
                        == crate::ondisk::spec_psp_cookie() && ({
                        ||| (old(directory).spec_entries().len() >= MAX_DIRECTORY_ENTRIES
                            && *final(directory) == *old(directory))
                        ||| (entries@.len() > MAX_DIRECTORY_ENTRIES
                            && spec_subdir_parent_appended(
                            *old(directory),
                            *final(directory),
                            beginning,
                            end,
                        ))
                    }))
                },
            },
    {
        let first = PspDirectoryHeader::first_level_cookie();
        if !crate::ondisk::cookie_eq(&directory.header().cookie(), &first) {
            return Err(Error::DirectoryTypeMismatch);
        }
        let size = ErasableLocation::extent(beginning, end);
        let entry = match PspDirectoryEntry::new_payload(
            directory.directory_address_mode(),
            PspDirectoryEntryType::SecondLevelDirectory,
            Some(size),
            Some(ValueOrLocation::EfsRelativeOffset(beginning.location_value())),
        ) {
            Ok(e) => e,
            Err(e) => {
                return Err(e);
            },
        };
        match directory.add_entry_direct(&entry) {
            Ok(()) => {},
            Err(e) => {
                return Err(e);
            },
        }
        proof {
            assert(final(directory).spec_entries().take(
                old(directory).spec_entries().len() as int,
            ) =~= old(directory).spec_entries());
        }
        PspDirectory::create(
            beginning.location_value(),
            beginning.location_value(),
            directory.directory_address_mode(),
            PspDirectoryHeader::second_level_cookie(),
            amd_physical_mode_mmio_size,
            entries,
        )
    }

    /// Load the first-level PSP directory, append a `SecondLevelDirectory`
    /// entry to it, and build the second-level directory.
    pub fn create_second_level_psp_directory(
        &self,
        beginning: ErasableLocation,
        end: ErasableLocation,
        entries: &Vec<PspDirectoryEntry>,
    ) -> (r: Result<PspDirectory>)
        requires
            self.wf(),
            forall|i: int| 0 <= i < entries@.len() ==> #[trigger] entries@[i].wf(),
            beginning.spec_location() <= end.spec_location() ==> end.spec_location()
                - beginning.spec_location() != crate::ondisk::SIZE_VALUE_MARKER,
            spec_physical_address_mode(self.spec_efh().efs_generations)
                ==> spec_is_invalid_directory_table_location(
                self.spec_efh().psp_directory_table_location_naples,
            ),
            (!spec_physical_address_mode(self.spec_efh().efs_generations)
                && !spec_is_invalid_directory_table_location(
                self.spec_efh().psp_directory_table_location_zen,
            )) ==> spec_is_likely_location(self.spec_efh().psp_directory_table_location_zen),
        ensures
            match r {
                Ok(d) => {
                    &&& spec_psp_directory_pointer(self.spec_efh(), self.spec_mmio_size())
                        matches Ok(loc) && ({
                        let h = PspDirectoryHeader::spec_parse(
                            self.spec_storage().contents().subrange(loc as int, loc as int + 16),
                        );
                        &&& h.cookie == crate::ondisk::spec_psp_cookie()
                        &&& d.spec_directory_address_mode()
                            == DirectoryAdditionalInfo::spec_from_u32(
                            h.additional_info,
                        ).address_mode
                    })
                    &&& d.spec_beginning() == beginning.spec_location()
                    &&& d.spec_mode3_base() == beginning.spec_location()
                    &&& d.spec_mmio_size() == self.spec_mmio_size()
                    &&& d.spec_header() == (PspDirectoryHeader {
                        cookie: crate::ondisk::spec_pl2_cookie(),
                        checksum: 0,
                        total_entries: entries@.len() as u32,
                        additional_info: 0xffff_ffffu32,
                    })
                    &&& d.spec_entries() == entries@
                    &&& d.wf()
                },
                Err(e) => {
                    ||| (e matches Error::Io(_) && spec_psp_directory_pointer(
                        self.spec_efh(),
                        self.spec_mmio_size(),
                    ) is Ok)
                    ||| Err::<u32, Error>(e) == spec_psp_directory_pointer(
                        self.spec_efh(),
                        self.spec_mmio_size(),
                    )
                    ||| ((e == Error::DirectoryTypeMismatch || e == Error::DirectoryRangeCheck
                        || e == Error::EntryTypeMismatch) && spec_psp_directory_pointer(
                        self.spec_efh(),
                        self.spec_mmio_size(),
                    ) is Ok)
                },
            },
    {
        let mut psp_directory = match self.psp_directory() {
            Ok(d) => d,
            Err(e) => {
                return Err(e);
            },
        };
        self.create_psp_subdirectory(
            &mut psp_directory,
            beginning,
            end,
            self.amd_physical_mode_mmio_size,
            entries,
        )
    }
}

/// Whether a directory's default entry address mode agrees with the EFS's
/// pointer convention: physical addresses only on a physical-mode EFS,
/// plain offsets only on an offset-mode one, and the
/// other-directory-relative mode never.
pub open spec fn spec_address_mode_agrees(mode: AddressMode, physical: bool) -> bool {
    match mode {
        AddressMode::PhysicalAddress => physical,
        AddressMode::EfsRelativeOffset | AddressMode::DirectoryRelativeOffset => !physical,
        AddressMode::OtherDirectoryRelativeOffset => false,
    }
}

} // verus!

//! A flash adapter that simulates what AMD does when using the upper half
//! of a 32 MiB flash chip: every access at offset `o` lands at
//! `(o + 16 MiB) mod 32 MiB` on the underlying flash, so locations with
//! bit 24 set refer to the lower half again.

use crate::flash;
use crate::flash::ErasableLocation;
use crate::flash::FlashAlign;
use crate::flash::FlashRead;
use crate::flash::FlashWrite;
use crate::flash::Location;
use vstd::prelude::*;

verus! {

/// 16 MiB.
pub const UPPER_HALF_OFFSET: u32 = 0x100_0000;

/// 32 MiB.
pub const UPPER_HALF_MODULUS: u32 = 0x200_0000;

/// The adapter; it requires (and keeps) a 32-MiB underlying flash.
pub struct Upper16MiBFlashAdapter<T: FlashRead + FlashWrite> {
    underlying: T,
}

impl<T: FlashRead + FlashWrite> Upper16MiBFlashAdapter<T> {
    pub closed spec fn spec_underlying(&self) -> T {
        self.underlying
    }

    pub fn new(underlying: T) -> (r: Self)
        requires
            underlying.contents().len() == UPPER_HALF_MODULUS,
            1 <= underlying.spec_block_size() <= 0xffff_ffffusize,
        ensures
            r.spec_underlying() == underlying,
    {
        Self { underlying }
    }

    /// Give the underlying flash back.
    pub fn into_inner(self) -> (r: T)
        ensures
            r == self.spec_underlying(),
    {
        self.underlying
    }

}

/// Where offset `o` of the adapter lands on the underlying flash.
pub open spec fn spec_upper16_remap(o: int) -> int {
    (o + UPPER_HALF_OFFSET) % (UPPER_HALF_MODULUS as int)
}

/// Every read of the adapter reads the underlying flash at the remapped
/// offset: byte `o` of the adapter is byte `(o + 0x100_0000) % 0x200_0000`
/// of the underlying medium.
pub proof fn lemma_upper16_remap<T: FlashRead + FlashWrite>(
    adapter: &Upper16MiBFlashAdapter<T>,
    o: int,
)
    requires
        adapter.spec_underlying().contents().len() == UPPER_HALF_MODULUS,
        0 <= o < UPPER_HALF_MODULUS,
    ensures
        adapter.contents().len() == UPPER_HALF_MODULUS,
        adapter.contents()[o] == adapter.spec_underlying().contents()[spec_upper16_remap(o)],
{
}

impl<T: FlashRead + FlashWrite> FlashRead for Upper16MiBFlashAdapter<T> {
    open spec fn contents(&self) -> Seq<u8> {
        Seq::new(
            UPPER_HALF_MODULUS as nat,
            |i: int|
                if spec_upper16_remap(i) < self.spec_underlying().contents().len() {
                    self.spec_underlying().contents()[spec_upper16_remap(i)]
                } else {
                    0u8
                },
        )
    }

    fn read_exact(&self, beginning: Location, length: usize) -> (r: flash::Result<Vec<u8>>) {
        if length > UPPER_HALF_MODULUS as usize {
            return Err(
                flash::Error::Io(flash::IoError::Read { start: beginning, size: length }),
            );
        }
        if beginning as u64 + length as u64 > UPPER_HALF_MODULUS as u64 {
            return Err(
                flash::Error::Io(flash::IoError::Read { start: beginning, size: length }),
            );
        }
        let offset: u32 = (((beginning as u64) + (UPPER_HALF_OFFSET as u64)) % (
        UPPER_HALF_MODULUS as u64)) as u32;
        if (offset as u64) + (length as u64) > UPPER_HALF_MODULUS as u64 {
            // The access would wrap around the fold point; the bytes there
            // are not contiguous on the underlying medium.
            return Err(
                flash::Error::Io(flash::IoError::Read { start: beginning, size: length }),
            );
        }
        let data = match self.underlying.read_exact(offset, length) {
            Ok(d) => d,
            Err(e) => {
                return Err(e);
            },
        };
        proof {
            lemma_remapped_range(beginning as int, length as int);
            assert(data@ =~= self.contents().subrange(
                beginning as int,
                beginning as int + length as int,
            ));
        }
        Ok(data)
    }
}

/// For a non-wrapping access, remapping commutes with stepping through the
/// range.
proof fn lemma_remapped_range(beginning: int, length: int)
    requires
        0 <= beginning,
        0 <= length,
        beginning + length <= UPPER_HALF_MODULUS,
        spec_upper16_remap(beginning) + length
            <= UPPER_HALF_MODULUS,
    ensures
        forall|k: int|
            0 <= k < length ==> #[trigger] spec_upper16_remap(beginning + k)
                == spec_upper16_remap(beginning) + k,
{
    let m = UPPER_HALF_MODULUS as int;
    let base = spec_upper16_remap(beginning);
    assert forall|k: int| 0 <= k < length implies #[trigger] spec_upper16_remap(beginning + k)
        == base + k by {
        vstd::arithmetic::div_mod::lemma_add_mod_noop(beginning + UPPER_HALF_OFFSET, k, m);
        vstd::arithmetic::div_mod::lemma_small_mod(k as nat, m as nat);
        vstd::arithmetic::div_mod::lemma_small_mod((base + k) as nat, m as nat);
    };
}

impl<T: FlashRead + FlashWrite> FlashAlign for Upper16MiBFlashAdapter<T> {
    open spec fn spec_block_size(&self) -> usize {
        self.spec_underlying().spec_block_size()
    }

    fn erasable_block_size(&self) -> (r: usize) {
        self.underlying.erasable_block_size()
    }
}

impl<T: FlashRead + FlashWrite> FlashWrite for Upper16MiBFlashAdapter<T> {
    fn erase_block(&mut self, location: ErasableLocation) -> (r: flash::Result<()>) {
        let offset = match self.location(location) {
            Ok(o) => o,
            Err(e) => {
                return Err(e);
            },
        };
        let bs = self.underlying.erasable_block_size();
        if bs == 0 || (bs as u64) > 0xffff_ffffu64 {
            return Err(flash::Error::Io(flash::IoError::Erase { start: offset, size: bs }));
        }
        if (offset as u64) + (bs as u64) > UPPER_HALF_MODULUS as u64 {
            return Err(flash::Error::Io(flash::IoError::Erase { start: offset, size: bs }));
        }
        let remapped: u32 = (((offset as u64) + (UPPER_HALF_OFFSET as u64)) % (
        UPPER_HALF_MODULUS as u64)) as u32;
        if (remapped as u64) + (bs as u64) > UPPER_HALF_MODULUS as u64 {
            return Err(flash::Error::Io(flash::IoError::Erase { start: offset, size: bs }));
        }
        let target = match self.underlying.erasable_location(remapped) {
            Ok(l) => l,
            Err(e) => {
                return Err(e);
            },
        };
        let ghost pre = self.underlying.contents();
        let r = self.underlying.erase_block(target);
        match r {
            Ok(()) => {
                proof {
                    let m = UPPER_HALF_MODULUS as int;
                    let patch = Seq::new(bs as nat, |i: int| 0xffu8);
                    lemma_remapped_range(offset as int, bs as int);
                    flash::lemma_write_bytes(pre, remapped as int, patch);
                    flash::lemma_write_bytes(old(self).contents(), offset as int, patch);
                    assert forall|i: int| 0 <= i < m implies #[trigger] self.contents()[i]
                        == flash::write_bytes(old(self).contents(), offset as int, patch)[i] by {
                        if offset <= i < offset + bs {
                            assert(spec_upper16_remap(offset + (i - offset)) == remapped + (i
                                - offset));
                        } else {
                            lemma_remap_outside_range(offset as int, bs as int, i);
                        }
                    };
                    assert(self.contents() =~= flash::write_bytes(
                        old(self).contents(),
                        offset as int,
                        patch,
                    ));
                }
                Ok(())
            },
            Err(e) => Err(e),
        }
    }

    fn erase_and_write_block(&mut self, location: ErasableLocation, buffer: &[u8]) -> (r:
        flash::Result<()>) {
        let offset = match self.location(location) {
            Ok(o) => o,
            Err(e) => {
                return Err(e);
            },
        };
        let bs = self.underlying.erasable_block_size();
        if bs == 0 || (bs as u64) > 0xffff_ffffu64 {
            return Err(
                flash::Error::Io(flash::IoError::Write { start: offset, size: buffer.len() }),
            );
        }
        if (offset as u64) + (bs as u64) > UPPER_HALF_MODULUS as u64 {
            return Err(
                flash::Error::Io(flash::IoError::Write { start: offset, size: buffer.len() }),
            );
        }
        let remapped: u32 = (((offset as u64) + (UPPER_HALF_OFFSET as u64)) % (
        UPPER_HALF_MODULUS as u64)) as u32;
        if (remapped as u64) + (bs as u64) > UPPER_HALF_MODULUS as u64 {
            return Err(
                flash::Error::Io(flash::IoError::Write { start: offset, size: buffer.len() }),
            );
        }
        let target = match self.underlying.erasable_location(remapped) {
            Ok(l) => l,
            Err(e) => {
                return Err(e);
            },
        };
        let ghost pre = self.underlying.contents();
        let r = self.underlying.erase_and_write_block(target, buffer);
        match r {
            Ok(()) => {
                proof {
                    let m = UPPER_HALF_MODULUS as int;
                    let patch = buffer@ + Seq::new((bs - buffer@.len()) as nat, |i: int| 0xffu8);
                    lemma_remapped_range(offset as int, bs as int);
                    flash::lemma_write_bytes(pre, remapped as int, patch);
                    flash::lemma_write_bytes(old(self).contents(), offset as int, patch);
                    assert forall|i: int| 0 <= i < m implies #[trigger] self.contents()[i]
                        == flash::write_bytes(old(self).contents(), offset as int, patch)[i] by {
                        if offset <= i < offset + bs {
                            assert(spec_upper16_remap(offset + (i - offset)) == remapped + (i
                                - offset));
                        } else {
                            lemma_remap_outside_range(offset as int, bs as int, i);
                        }
                    };
                    assert(self.contents() =~= flash::write_bytes(
                        old(self).contents(),
                        offset as int,
                        patch,
                    ));
                }
                Ok(())
            },
            Err(e) => Err(e),
        }
    }
}

/// An offset outside the written range also remaps outside the remapped
/// written range.
proof fn lemma_remap_outside_range(offset: int, bs: int, i: int)
    requires
        0 <= offset,
        0 <= bs,
        offset + bs <= UPPER_HALF_MODULUS,
        spec_upper16_remap(offset) + bs <= UPPER_HALF_MODULUS,
        0 <= i < UPPER_HALF_MODULUS,
        !(offset <= i < offset + bs),
    ensures
        !(spec_upper16_remap(offset) <= spec_upper16_remap(i) < spec_upper16_remap(offset) + bs),
{
    let m = UPPER_HALF_MODULUS as int;
    let base = spec_upper16_remap(offset);
    let ri = spec_upper16_remap(i);
    if base <= ri < base + bs {
        // Then i and offset + (ri - base) remap to the same place, and both
        // lie below the modulus, so they are equal: contradiction.
        let k = ri - base;
        vstd::arithmetic::div_mod::lemma_add_mod_noop(offset + UPPER_HALF_OFFSET, k, m);
        vstd::arithmetic::div_mod::lemma_small_mod(k as nat, m as nat);
        vstd::arithmetic::div_mod::lemma_small_mod((base + k) as nat, m as nat);
        assert(spec_upper16_remap(offset + k) == ri);
        // Two offsets below the modulus with equal remainders differ by a
        // multiple of the modulus, so they are the same offset.
        vstd::arithmetic::div_mod::lemma_sub_mod_noop(
            i + UPPER_HALF_OFFSET,
            offset + k + UPPER_HALF_OFFSET,
            m,
        );
        vstd::arithmetic::div_mod::lemma_small_mod(0nat, m as nat);
        if i > offset + k {
            vstd::arithmetic::div_mod::lemma_small_mod((i - offset - k) as nat, m as nat);
        }
        if i < offset + k {
            vstd::arithmetic::div_mod::lemma_small_mod((offset + k - i) as nat, m as nat);
        }
        assert(i == offset + k);
    }
}

} // verus!

//! Flash abstraction: byte offsets, erase-block-aligned locations and ranges,
//! and the traits through which the library reads and programs an SPI flash.
//!
//! The medium is modelled as a byte sequence (`contents`); an erase block is
//! the smallest region an erase affects, and every write first erases the
//! whole block and leaves bytes past the supplied buffer at `0xFF`.

use vstd::prelude::*;

verus! {

/// Any byte offset on the flash chip.
pub type Location = u32;

#[derive(Clone, Copy, Debug, PartialEq, Eq, Structural)]
pub enum IoError {
    Open,
    Read { start: Location, size: usize },
    Write { start: Location, size: usize },
    Erase { start: Location, size: usize },
    Flush,
}

#[derive(Clone, Copy, Debug, PartialEq, Eq, Structural)]
pub enum Error {
    Io(IoError),
    Alignment { erasable_block_size: usize, intra_block_offset: usize },
    Size,
}

pub type Result<Q> = core::result::Result<Q, Error>;

/// The smallest multiple of `bs` that is at least `amount`.
pub open spec fn round_up_to_block(amount: int, bs: int) -> int
    recommends
        bs >= 1,
{
    if amount % bs == 0 {
        amount
    } else {
        amount + (bs - amount % bs)
    }
}

/// `round_up_to_block` really is the least multiple of the block size
/// that `amount` fits in: it is a multiple, it is at least `amount`, and
/// every other such multiple is at least as large.
pub proof fn lemma_round_up_to_block_smallest(amount: int, bs: int)
    requires
        bs >= 1,
        amount >= 0,
    ensures
        round_up_to_block(amount, bs) % bs == 0,
        round_up_to_block(amount, bs) >= amount,
        round_up_to_block(amount, bs) < amount + bs,
        forall|m: int| #[trigger] (m % bs) == 0 && m >= amount ==> m >= round_up_to_block(amount, bs),
{
    let r = round_up_to_block(amount, bs);
    vstd::arithmetic::div_mod::lemma_mod_division_less_than_divisor(amount, bs);
    vstd::arithmetic::div_mod::lemma_fundamental_div_mod(amount, bs);
    let q = amount / bs;
    if amount % bs != 0 {
        assert(r == (q + 1) * bs + 0) by {
            vstd::arithmetic::mul::lemma_mul_is_distributive_add_other_way(bs, q, 1);
        };
        vstd::arithmetic::div_mod::lemma_fundamental_div_mod_converse_mod(r, bs, q + 1, 0);
    }
    assert forall|m: int| #[trigger] (m % bs) == 0 && m >= amount implies m >= r by {
        if m < r {
            // m and r are multiples of bs with amount <= m < r < amount + bs,
            // so r - m is a positive multiple of bs smaller than bs: impossible.
            vstd::arithmetic::div_mod::lemma_sub_mod_noop(r, m, bs);
            vstd::arithmetic::div_mod::lemma_small_mod(0nat, bs as nat);
            vstd::arithmetic::div_mod::lemma_small_mod((r - m) as nat, bs as nat);
        }
    };
}

/// `s` with the bytes starting at `at` replaced by `data`.
pub open spec fn write_bytes(s: Seq<u8>, at: int, data: Seq<u8>) -> Seq<u8>
    recommends
        0 <= at,
        at + data.len() <= s.len(),
{
    s.take(at) + data + s.skip(at + data.len())
}

pub proof fn lemma_write_bytes(s: Seq<u8>, at: int, data: Seq<u8>)
    requires
        0 <= at,
        at + data.len() <= s.len(),
    ensures
        write_bytes(s, at, data).len() == s.len(),
        forall|i: int|
            0 <= i < s.len() ==> write_bytes(s, at, data)[i] == (if at <= i < at + data.len() {
                data[i - at]
            } else {
                s[i]
            }),
{
}

/// A `Location` that is aligned on an erase block boundary.
#[derive(Clone, Copy, Debug, PartialEq, Eq, Structural)]
pub struct ErasableLocation {
    location: Location,
    erasable_block_size: usize,
}

impl ErasableLocation {
    pub closed spec fn spec_location(&self) -> Location {
        self.location
    }

    pub closed spec fn spec_block_size(&self) -> usize {
        self.erasable_block_size
    }

    pub open spec fn wf(&self) -> bool {
        &&& 1 <= self.spec_block_size() <= 0xffff_ffffusize
        &&& self.spec_location() as int % self.spec_block_size() as int == 0
    }

    /// Make an aligned location directly from its parts.
    pub fn compose(location: Location, erasable_block_size: usize) -> (r: Self)
        requires
            1 <= erasable_block_size <= 0xffff_ffffusize,
            location as int % erasable_block_size as int == 0,
        ensures
            r.spec_location() == location,
            r.spec_block_size() == erasable_block_size,
            r.wf(),
    {
        Self { location, erasable_block_size }
    }

    pub fn erasable_block_size(&self) -> (r: usize)
        ensures
            r == self.spec_block_size(),
    {
        self.erasable_block_size
    }

    pub fn erasable_block_mask(&self) -> (r: u32)
        requires
            1 <= self.spec_block_size() <= 0xffff_ffffusize,
        ensures
            r == self.spec_block_size() - 1,
    {
        (self.erasable_block_size as u32) - 1
    }

    /// Distance in bytes from `beginning` to `end`; 0 if `end` lies before `beginning`.
    pub fn extent(beginning: Self, end: Self) -> (r: u32)
        ensures
            r == (if beginning.spec_location() <= end.spec_location() {
                end.spec_location() - beginning.spec_location()
            } else {
                0
            }),
    {
        let beginning: u32 = beginning.location;
        let end: u32 = end.location;
        if end >= beginning {
            end - beginning
        } else {
            0
        }
    }

    /// Move forward by `amount` bytes, which must be a whole number of blocks.
    pub fn advance(&self, amount: usize) -> (r: Result<Self>)
        requires
            self.wf(),
            amount as int % self.spec_block_size() as int == 0 ==> self.spec_location()
                + amount <= u32::MAX,
        ensures
            match r {
                Ok(l) => {
                    &&& amount as int % self.spec_block_size() as int == 0
                    &&& l.spec_location() == self.spec_location() + amount
                    &&& l.spec_block_size() == self.spec_block_size()
                    &&& l.wf()
                },
                Err(e) => {
                    &&& amount as int % self.spec_block_size() as int != 0
                    &&& e == (Error::Alignment {
                        erasable_block_size: self.spec_block_size(),
                        intra_block_offset: (amount as int % self.spec_block_size() as int) as usize,
                    })
                },
            },
        no_unwind
    {
        let intra = amount % self.erasable_block_size;
        if intra != 0 {
            return Err(
                Error::Alignment {
                    erasable_block_size: self.erasable_block_size,
                    intra_block_offset: intra,
                },
            );
        }
        let pos: u32 = self.location + (amount as u32);
        proof {
            vstd::arithmetic::div_mod::lemma_mod_adds(
                self.location as int,
                amount as int,
                self.erasable_block_size as int,
            );
        }
        Ok(Self { location: pos, erasable_block_size: self.erasable_block_size })
    }

    /// Round `amount` up to a whole number of blocks, then move forward by it.
    /// The distance moved is thus the smallest block multiple that is at least
    /// `amount`.
    pub fn advance_at_least(&self, amount: usize) -> (r: Result<Self>)
        requires
            self.wf(),
            self.spec_location() + round_up_to_block(
                amount as int,
                self.spec_block_size() as int,
            ) <= u32::MAX,
        ensures
            match r {
                Ok(l) => {
                    &&& l.spec_location() == self.spec_location() + round_up_to_block(
                        amount as int,
                        self.spec_block_size() as int,
                    )
                    &&& l.spec_block_size() == self.spec_block_size()
                    &&& l.wf()
                },
                Err(e) => false,
            },
    {
        let bs = self.erasable_block_size;
        let rem = amount % bs;
        let diff: usize = if rem == 0 {
            0
        } else {
            bs - rem
        };
        proof {
            lemma_round_up_to_block_smallest(amount as int, bs as int);
        }
        let rounded: usize = amount + diff;
        proof {
            assert(rounded as int == round_up_to_block(amount as int, bs as int));
        }
        self.advance(rounded)
    }
}

impl From<ErasableLocation> for Location {
    fn from(source: ErasableLocation) -> (r: Location) {
        source.location
    }
}

impl vstd::std_specs::convert::FromSpecImpl<ErasableLocation> for Location {
    open spec fn obeys_from_spec() -> bool {
        true
    }

    open spec fn from_spec(source: ErasableLocation) -> Location {
        source.spec_location()
    }
}

/// An aligned half-open interval `[beginning, end)` of the flash.
/// Both ends carry the same erase-block size.
#[derive(Clone, Copy, Debug, PartialEq, Eq, Structural)]
pub struct ErasableRange {
    pub beginning: ErasableLocation,
    pub end: ErasableLocation,
}

impl ErasableRange {
    pub open spec fn wf(&self) -> bool {
        &&& self.beginning.wf()
        &&& self.end.wf()
        &&& self.beginning.spec_block_size() == self.end.spec_block_size()
        &&& self.beginning.spec_location() <= self.end.spec_location()
    }

    pub fn new(beginning: ErasableLocation, end: ErasableLocation) -> (r: Self)
        requires
            beginning.spec_location() <= end.spec_location(),
        ensures
            r.beginning == beginning,
            r.end == end,
    {
        Self { beginning, end }
    }

    /// Split off a prefix at least `size` bytes long, rounded up to whole
    /// blocks, if the range is large enough. The prefix is returned and the
    /// suffix retained.
    pub fn take_at_least(&mut self, size: usize) -> (r: Option<Self>)
        requires
            old(self).wf(),
            old(self).beginning.spec_location() + round_up_to_block(
                size as int,
                old(self).beginning.spec_block_size() as int,
            ) <= u32::MAX,
        ensures
            final(self).wf(),
            final(self).end == old(self).end,
            match r {
                Some(taken) => {
                    &&& taken.wf()
                    &&& taken.beginning == old(self).beginning
                    &&& taken.end.spec_location() == old(self).beginning.spec_location()
                        + round_up_to_block(
                        size as int,
                        old(self).beginning.spec_block_size() as int,
                    )
                    &&& taken.end.spec_location() <= old(self).end.spec_location()
                    &&& final(self).beginning == taken.end
                },
                None => {
                    &&& *final(self) == *old(self)
                    &&& old(self).beginning.spec_location() + round_up_to_block(
                        size as int,
                        old(self).beginning.spec_block_size() as int,
                    ) > old(self).end.spec_location()
                },
            },
    {
        let x_beginning = self.beginning;
        let x_end = match self.beginning.advance_at_least(size) {
            Ok(l) => l,
            Err(_) => {
                return None;
            },
        };
        if x_end.location_value() <= self.end.location_value() {
            *self = Self::new(x_end, self.end);
            Some(Self::new(x_beginning, x_end))
        } else {
            None
        }
    }

    /// In bytes.
    pub fn capacity(&self) -> (r: usize)
        ensures
            r == (if self.beginning.spec_location() <= self.end.spec_location() {
                self.end.spec_location() - self.beginning.spec_location()
            } else {
                0
            }),
    {
        ErasableLocation::extent(self.beginning, self.end) as usize
    }
}

impl ErasableLocation {
    /// The plain byte offset of this aligned location.
    pub fn location_value(&self) -> (r: Location)
        ensures
            r == self.spec_location(),
    {
        self.location
    }
}

/// Read access to a flash medium, modelled as a byte sequence.
pub trait FlashRead: Sized {
    /// The bytes currently on the medium.
    spec fn contents(&self) -> Seq<u8>;

    /// Read exactly `length` bytes starting at `beginning`.
    /// A successful read returns exactly the bytes of the medium there.
    fn read_exact(&self, beginning: Location, length: usize) -> (r: Result<Vec<u8>>)
        ensures
            match r {
                Ok(data) => {
                    &&& data@.len() == length
                    &&& beginning + length <= self.contents().len()
                    &&& data@ == self.contents().subrange(
                        beginning as int,
                        beginning as int + length as int,
                    )
                },
                Err(e) => e matches Error::Io(_),
            },
    ;
}

/// Knowledge of the medium's erase-block size, and alignment helpers.
///
/// The block size is assumed constant for the lifetime of the instance.
pub trait FlashAlign: Sized {
    /// The erase-block size of the medium.
    spec fn spec_block_size(&self) -> usize;

    fn erasable_block_size(&self) -> (r: usize)
        ensures
            r == self.spec_block_size(),
    ;

    fn erasable_block_mask(&self) -> (r: u32)
        requires
            1 <= self.spec_block_size() <= 0xffff_ffffusize,
        ensures
            r == self.spec_block_size() - 1,
    {
        (self.erasable_block_size() as u32) - 1
    }

    fn is_aligned(&self, location: Location) -> (r: bool)
        requires
            1 <= self.spec_block_size() <= 0xffff_ffffusize,
        ensures
            r == (location as int % self.spec_block_size() as int == 0),
    {
        location % (self.erasable_block_size() as u32) == 0
    }

    /// Determine an erasable location, given a location, if possible.
    fn erasable_location(&self, location: Location) -> (r: Result<ErasableLocation>)
        requires
            1 <= self.spec_block_size() <= 0xffff_ffffusize,
        ensures
            match r {
                Ok(l) => {
                    &&& location as int % self.spec_block_size() as int == 0
                    &&& l.spec_location() == location
                    &&& l.spec_block_size() == self.spec_block_size()
                    &&& l.wf()
                },
                Err(e) => {
                    &&& location as int % self.spec_block_size() as int != 0
                    &&& e == (Error::Alignment {
                        erasable_block_size: self.spec_block_size(),
                        intra_block_offset: (location as int % self.spec_block_size() as int)
                            as usize,
                    })
                },
            },
    {
        let erasable_block_size = self.erasable_block_size();
        if self.is_aligned(location) {
            Ok(ErasableLocation::compose(location, erasable_block_size))
        } else {
            Err(
                Error::Alignment {
                    erasable_block_size,
                    intra_block_offset: (location % (erasable_block_size as u32)) as usize,
                },
            )
        }
    }

    /// The plain location of an erasable location, if the latter is
    /// compatible with this instance's block size.
    fn location(&self, erasable_location: ErasableLocation) -> (r: Result<Location>)
        ensures
            match r {
                Ok(l) => {
                    &&& erasable_location.spec_block_size() == self.spec_block_size()
                    &&& l == erasable_location.spec_location()
                },
                Err(e) => {
                    &&& erasable_location.spec_block_size() != self.spec_block_size()
                    &&& e == (Error::Alignment {
                        erasable_block_size: self.spec_block_size(),
                        intra_block_offset: erasable_location.spec_block_size(),
                    })
                },
            },
    {
        if erasable_location.erasable_block_size() == self.erasable_block_size() {
            Ok(erasable_location.location_value())
        } else {
            Err(
                Error::Alignment {
                    erasable_block_size: self.erasable_block_size(),
                    intra_block_offset: erasable_location.erasable_block_size(),
                },
            )
        }
    }
}

/// Write access to a flash medium. An erase fills a whole block with `0xFF`;
/// a write first erases the block, then programs the given bytes from the
/// block's beginning, leaving the rest of the block at `0xFF`.
pub trait FlashWrite: FlashRead + FlashAlign {
    fn erase_block(&mut self, location: ErasableLocation) -> (r: Result<()>)
        ensures
            final(self).spec_block_size() == old(self).spec_block_size(),
            final(self).contents().len() == old(self).contents().len(),
            r is Ok ==> ({
                &&& location.spec_block_size() == old(self).spec_block_size()
                &&& location.spec_location() + location.spec_block_size() <= old(
                    self,
                ).contents().len()
                &&& final(self).contents() == write_bytes(
                    old(self).contents(),
                    location.spec_location() as int,
                    Seq::new(location.spec_block_size() as nat, |i: int| 0xffu8),
                )
            }),
    ;

    /// Note: `buffer` may be shorter than a block; the remainder of the block
    /// is erased to `0xFF` anyway.
    fn erase_and_write_block(&mut self, location: ErasableLocation, buffer: &[u8]) -> (r: Result<
        (),
    >)
        ensures
            final(self).spec_block_size() == old(self).spec_block_size(),
            final(self).contents().len() == old(self).contents().len(),
            r is Ok ==> ({
                &&& location.spec_block_size() == old(self).spec_block_size()
                &&& buffer@.len() <= location.spec_block_size()
                &&& location.spec_location() + location.spec_block_size() <= old(
                    self,
                ).contents().len()
                &&& final(self).contents() == write_bytes(
                    old(self).contents(),
                    location.spec_location() as int,
                    buffer@ + Seq::new(
                        (location.spec_block_size() - buffer@.len()) as nat,
                        |i: int| 0xffu8,
                    ),
                )
            }),
    ;
}

/// What a multi-block erase-then-write leaves on the medium: the buffer,
/// padded with `0xFF` to a whole number of blocks.
pub open spec fn padded_to_blocks(data: Seq<u8>, bs: int) -> Seq<u8>
    recommends
        bs >= 1,
{
    data + Seq::new((round_up_to_block(data.len() as int, bs) - data.len()) as nat, |i: int| 0xffu8)
}

/// Chunk `buf` into block-sized writes, advancing the location each time;
/// the last chunk may be short. On success the medium holds `buf`, padded
/// with `0xFF` up to the end of the last touched block.
pub fn erase_and_write_blocks<T: FlashWrite>(
    storage: &mut T,
    location: ErasableLocation,
    buf: &[u8],
) -> (r: Result<()>)
    requires
        location.wf(),
        location.spec_block_size() == old(storage).spec_block_size(),
        location.spec_location() + round_up_to_block(
            buf@.len() as int,
            location.spec_block_size() as int,
        ) <= u32::MAX,
    ensures
        final(storage).spec_block_size() == old(storage).spec_block_size(),
        final(storage).contents().len() == old(storage).contents().len(),
        r is Ok ==> ({
            ||| buf@.len() == 0 && final(storage).contents() == old(storage).contents()
            ||| ({
                &&& location.spec_location() + round_up_to_block(
                    buf@.len() as int,
                    location.spec_block_size() as int,
                ) <= old(storage).contents().len()
                &&& final(storage).contents() == write_bytes(
                    old(storage).contents(),
                    location.spec_location() as int,
                    padded_to_blocks(buf@, location.spec_block_size() as int),
                )
            })
        }),
{
    let ghost orig = old(storage).contents();
    let ghost bs_int = location.spec_block_size() as int;
    let erasable_block_size = location.erasable_block_size();
    let mut cursor = location;
    let mut offset: usize = 0;
    proof {
        lemma_round_up_to_block_smallest(buf@.len() as int, bs_int);
    }
    if buf.len() == 0 {
        return Ok(());
    }
    loop
        invariant
            orig == old(storage).contents(),
            storage.spec_block_size() == old(storage).spec_block_size(),
            storage.contents().len() == orig.len(),
            location.wf(),
            cursor.wf(),
            cursor.spec_block_size() == location.spec_block_size(),
            erasable_block_size == location.spec_block_size(),
            bs_int == location.spec_block_size() as int,
            location.spec_block_size() == old(storage).spec_block_size(),
            offset as int % bs_int == 0,
            cursor.spec_location() == location.spec_location() + offset,
            offset < buf@.len(),
            location.spec_location() + round_up_to_block(buf@.len() as int, bs_int) <= u32::MAX,
            round_up_to_block(buf@.len() as int, bs_int) < buf@.len() + bs_int,
            offset > 0 ==> ({
                &&& location.spec_location() + offset <= orig.len()
                &&& storage.contents() == write_bytes(
                    orig,
                    location.spec_location() as int,
                    buf@.take(offset as int),
                )
            }),
            offset == 0 ==> storage.contents() == orig,
        decreases buf@.len() - offset,
    {
        let ghost pre = storage.contents();
        let remaining = buf.len() - offset;
        if remaining <= erasable_block_size {
            // Last chunk; it may be short, in which case the rest of the
            // block is erased to 0xFF.
            let chunk = slice_range(buf, offset, buf.len());
            let r = storage.erase_and_write_block(cursor, chunk.as_slice());
            match r {
                Ok(()) => {
                    proof {
                        lemma_last_chunk(
                            orig,
                            pre,
                            storage.contents(),
                            buf@,
                            location.spec_location() as int,
                            offset as int,
                            bs_int,
                        );
                    }
                    return Ok(());
                },
                Err(e) => {
                    return Err(e);
                },
            }
        } else {
            let chunk = slice_range(buf, offset, offset + erasable_block_size);
            let r = storage.erase_and_write_block(cursor, chunk.as_slice());
            match r {
                Ok(()) => {},
                Err(e) => {
                    return Err(e);
                },
            }
            proof {
                lemma_middle_chunk(
                    orig,
                    pre,
                    storage.contents(),
                    buf@,
                    location.spec_location() as int,
                    offset as int,
                    bs_int,
                );
            }
            proof {
                vstd::arithmetic::div_mod::lemma_mod_add_multiples_vanish(offset as int, bs_int);
            }
            cursor = match cursor.advance(erasable_block_size) {
                Ok(l) => l,
                Err(_) => {
                    proof {
                        assert(false);
                    }
                    return Err(Error::Size);
                },
            };
            offset = offset + erasable_block_size;
        }
    }
}

/// Copy `buf[from..to]` into a fresh vector.
fn slice_range(buf: &[u8], from: usize, to: usize) -> (r: Vec<u8>)
    requires
        from <= to <= buf@.len(),
    ensures
        r@ == buf@.subrange(from as int, to as int),
{
    let mut out: Vec<u8> = Vec::new();
    let mut i = from;
    while i < to
        invariant
            from <= i <= to <= buf@.len(),
            out@ == buf@.subrange(from as int, i as int),
        decreases to - i,
    {
        let b = buf[i];
        out.push(b);
        proof {
            assert(out@ =~= buf@.subrange(from as int, i as int + 1));
        }
        i = i + 1;
    }
    out
}

proof fn lemma_middle_chunk(
    orig: Seq<u8>,
    pre: Seq<u8>,
    post: Seq<u8>,
    buf: Seq<u8>,
    base: int,
    offset: int,
    bs: int,
)
    requires
        bs >= 1,
        0 <= base,
        0 <= offset,
        offset % bs == 0,
        offset + bs < buf.len(),
        pre.len() == orig.len(),
        post.len() == orig.len(),
        base + offset + bs <= pre.len(),
        offset > 0 ==> base + offset <= orig.len() && pre == write_bytes(orig, base, buf.take(offset)),
        offset == 0 ==> pre == orig,
        post == write_bytes(pre, base + offset, buf.subrange(offset, offset + bs)),
    ensures
        base + offset + bs <= orig.len(),
        post == write_bytes(orig, base, buf.take(offset + bs)),
{
    lemma_write_bytes(pre, base + offset, buf.subrange(offset, offset + bs));
    if offset > 0 {
        lemma_write_bytes(orig, base, buf.take(offset));
    }
    lemma_write_bytes(orig, base, buf.take(offset + bs));
    assert(post =~= write_bytes(orig, base, buf.take(offset + bs)));
}

proof fn lemma_last_chunk(
    orig: Seq<u8>,
    pre: Seq<u8>,
    post: Seq<u8>,
    buf: Seq<u8>,
    base: int,
    offset: int,
    bs: int,
)
    requires
        bs >= 1,
        0 <= base,
        0 <= offset,
        offset % bs == 0,
        offset < buf.len(),
        buf.len() <= offset + bs,
        pre.len() == orig.len(),
        post.len() == orig.len(),
        base + offset + bs <= pre.len(),
        offset > 0 ==> base + offset <= orig.len() && pre == write_bytes(orig, base, buf.take(offset)),
        offset == 0 ==> pre == orig,
        post == write_bytes(
            pre,
            base + offset,
            buf.subrange(offset, buf.len() as int) + Seq::new(
                (bs - (buf.len() - offset)) as nat,
                |i: int| 0xffu8,
            ),
        ),
    ensures
        base + round_up_to_block(buf.len() as int, bs) <= orig.len(),
        post == write_bytes(orig, base, padded_to_blocks(buf, bs)),
{
    lemma_round_up_to_block_smallest(buf.len() as int, bs);
    let chunk = buf.subrange(offset, buf.len() as int) + Seq::new(
        (bs - (buf.len() - offset)) as nat,
        |i: int| 0xffu8,
    );
    lemma_write_bytes(pre, base + offset, chunk);
    if offset > 0 {
        lemma_write_bytes(orig, base, buf.take(offset));
    }
    // round_up is offset + bs, except when the buffer ends exactly on the
    // block boundary, in which case it is buf.len() == offset + bs... both
    // cases give a padded length of offset + bs.
    assert(round_up_to_block(buf.len() as int, bs) == offset + bs) by {
        let r = round_up_to_block(buf.len() as int, bs);
        assert((offset + bs) % bs == 0) by {
            vstd::arithmetic::div_mod::lemma_mod_add_multiples_vanish(offset, bs);
        };
        assert(r >= buf.len());
        assert(r < buf.len() + bs);
        assert(r % bs == 0);
        if r > offset + bs {
            vstd::arithmetic::div_mod::lemma_sub_mod_noop(r, offset + bs, bs);
            vstd::arithmetic::div_mod::lemma_small_mod(0nat, bs as nat);
            vstd::arithmetic::div_mod::lemma_small_mod((r - offset - bs) as nat, bs as nat);
        }
        if r < offset + bs {
            vstd::arithmetic::div_mod::lemma_sub_mod_noop(offset + bs, r, bs);
            vstd::arithmetic::div_mod::lemma_small_mod(0nat, bs as nat);
            vstd::arithmetic::div_mod::lemma_small_mod((offset + bs - r) as nat, bs as nat);
        }
    };
    lemma_write_bytes(orig, base, padded_to_blocks(buf, bs));
    assert(post =~= write_bytes(orig, base, padded_to_blocks(buf, bs)));
}

/// Read one whole erase block at `location`.
pub fn read_erasable_block<T: FlashWrite>(storage: &T, location: ErasableLocation) -> (r: Result<
    Vec<u8>,
>)
    ensures
        match r {
            Ok(data) => {
                &&& location.spec_block_size() == storage.spec_block_size()
                &&& data@.len() == storage.spec_block_size()
                &&& location.spec_location() + data@.len() <= storage.contents().len()
                &&& data@ == storage.contents().subrange(
                    location.spec_location() as int,
                    location.spec_location() as int + storage.spec_block_size() as int,
                )
            },
            Err(_) => true,
        },
{
    let loc = match storage.location(location) {
        Ok(l) => l,
        Err(e) => {
            return Err(e);
        },
    };
    storage.read_exact(loc, storage.erasable_block_size())
}

} // verus!

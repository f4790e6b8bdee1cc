use std::cell::RefCell;
use std::rc::Rc;

use amd_efs::flash::ErasableLocation;
use amd_efs::flash::FlashAlign;
use amd_efs::flash::FlashRead;
use amd_efs::flash::FlashWrite;
use amd_efs::flash::IoError;
use amd_efs::flash::Location;

#[derive(Clone)]
struct FlashImage {
    buf: Rc<RefCell<Vec<u8>>>,
    erasable_block_size: usize,
}

impl FlashImage {
    fn new(size: usize, erasable_block_size: usize) -> Self {
        Self { buf: Rc::new(RefCell::new(vec![0xFFu8; size])), erasable_block_size }
    }

    fn poke(&self, at: usize, bytes: &[u8]) {
        let mut buf = self.buf.borrow_mut();
        buf[at..at + bytes.len()].copy_from_slice(bytes);
    }

    fn peek(&self, at: usize, len: usize) -> Vec<u8> {
        self.buf.borrow()[at..at + len].to_vec()
    }
}

impl FlashRead for FlashImage {
    fn contents(&self) -> vstd::seq::Seq<u8> {
        unreachable!()
    }

    fn read_exact(&self, beginning: Location, length: usize) -> amd_efs::flash::Result<Vec<u8>> {
        let buf = self.buf.borrow();
        let start = beginning as usize;
        match start.checked_add(length) {
            Some(end) if end <= buf.len() => Ok(buf[start..end].to_vec()),
            _ => Err(amd_efs::flash::Error::Io(IoError::Read { start: beginning, size: length })),
        }
    }
}

impl FlashAlign for FlashImage {
    fn spec_block_size(&self) -> usize {
        self.erasable_block_size
    }

    fn erasable_block_size(&self) -> usize {
        self.erasable_block_size
    }
}

impl FlashWrite for FlashImage {
    fn erase_block(&mut self, location: ErasableLocation) -> amd_efs::flash::Result<()> {
        let bs = self.erasable_block_size;
        let start = location.location_value() as usize;
        let mut buf = self.buf.borrow_mut();
        if location.erasable_block_size() != bs || start + bs > buf.len() {
            return Err(amd_efs::flash::Error::Io(IoError::Erase {
                start: location.location_value(),
                size: bs,
            }));
        }
        buf[start..start + bs].fill(0xFF);
        Ok(())
    }

    fn erase_and_write_block(
        &mut self,
        location: ErasableLocation,
        buffer: &[u8],
    ) -> amd_efs::flash::Result<()> {
        let bs = self.erasable_block_size;
        let start = location.location_value() as usize;
        let mut buf = self.buf.borrow_mut();
        if location.erasable_block_size() != bs || start + bs > buf.len() || buffer.len() > bs {
            return Err(amd_efs::flash::Error::Io(IoError::Write {
                start: location.location_value(),
                size: buffer.len(),
            }));
        }
        buf[start..start + bs].fill(0xFF);
        buf[start..start + buffer.len()].copy_from_slice(buffer);
        Ok(())
    }
}

const KIB: usize = 1024;
const ERASABLE_BLOCK_SIZE: usize = 128 * KIB;

#[test]
fn flash_image_usage() -> amd_efs::flash::Result<()> {
    let mut flash_image = FlashImage::new(256 * KIB, ERASABLE_BLOCK_SIZE);
    let beginning_1 = flash_image.erasable_location(0).unwrap();
    flash_image.erase_and_write_block(beginning_1, &[1u8; ERASABLE_BLOCK_SIZE])?;
    let beginning_2 = flash_image.erasable_location(ERASABLE_BLOCK_SIZE as u32).unwrap();
    flash_image.erase_and_write_block(beginning_2, &[2u8; ERASABLE_BLOCK_SIZE])?;
    let buf = flash_image.read_exact(0, ERASABLE_BLOCK_SIZE)?;
    assert_eq!(buf, vec![1u8; ERASABLE_BLOCK_SIZE]);
    let buf = flash_image.read_exact(ERASABLE_BLOCK_SIZE as u32, ERASABLE_BLOCK_SIZE)?;
    assert_eq!(buf, vec![2u8; ERASABLE_BLOCK_SIZE]);
    Ok(())
}

#[test]
fn flash_image_aligned_advancement() {
    let flash_image = FlashImage::new(256 * KIB, ERASABLE_BLOCK_SIZE);
    let beginning_1 = flash_image.erasable_location(0).unwrap();
    beginning_1.advance_at_least(1).unwrap();
}

#[test]
fn advance_at_least_rounds_to_smallest_block_multiple() {
    // The distance moved is the least block multiple at least the request.
    let flash_image = FlashImage::new(256 * KIB, 0x1000);
    let start = flash_image.erasable_location(0x2000).unwrap();
    assert_eq!(start.advance_at_least(0).unwrap().location_value(), 0x2000);
    assert_eq!(start.advance_at_least(1).unwrap().location_value(), 0x3000);
    assert_eq!(start.advance_at_least(0x1000).unwrap().location_value(), 0x3000);
    assert_eq!(start.advance_at_least(0x1001).unwrap().location_value(), 0x4000);
}

#[test]
fn advance_rejects_partial_blocks() {
    let flash_image = FlashImage::new(256 * KIB, 0x1000);
    let start = flash_image.erasable_location(0).unwrap();
    match start.advance(0x800) {
        Err(amd_efs::flash::Error::Alignment { .. }) => {},
        _ => panic!("expected an alignment failure"),
    }
    assert_eq!(start.advance(0x2000).unwrap().location_value(), 0x2000);
}

#[test]
fn erasable_location_requires_alignment() {
    let flash_image = FlashImage::new(256 * KIB, 0x1000);
    match flash_image.erasable_location(1) {
        Err(amd_efs::flash::Error::Alignment { .. }) => {},
        _ => panic!("expected an alignment failure"),
    }
}

#[test]
fn take_at_least_splits_range() {
    let flash_image = FlashImage::new(256 * KIB, 0x1000);
    let beginning = flash_image.erasable_location(0).unwrap();
    let end = flash_image.erasable_location(0x4000).unwrap();
    let mut range = amd_efs::flash::ErasableRange::new(beginning, end);
    let taken = range.take_at_least(0x1800).unwrap();
    assert_eq!(taken.beginning.location_value(), 0);
    assert_eq!(taken.end.location_value(), 0x2000);
    assert_eq!(range.beginning.location_value(), 0x2000);
    assert_eq!(range.capacity(), 0x2000);
    assert!(range.take_at_least(0x4000).is_none());
}

#[test]
fn multi_block_write_pads_the_last_block() {
    let mut flash_image = FlashImage::new(256 * KIB, 0x1000);
    let beginning = flash_image.erasable_location(0x1000).unwrap();
    let data = vec![0x5Au8; 0x1800];
    amd_efs::flash::erase_and_write_blocks(&mut flash_image, beginning, &data).unwrap();
    assert_eq!(flash_image.peek(0x1000, 0x1800), data);
    assert_eq!(flash_image.peek(0x2800, 0x800), vec![0xFFu8; 0x800]);
}

use std::cell::RefCell;
use std::rc::Rc;

use amd_efs::flash::ErasableLocation;
use amd_efs::flash::FlashAlign;
use amd_efs::flash::FlashRead;
use amd_efs::flash::FlashWrite;
use amd_efs::flash::IoError;
use amd_efs::flash::Location;

#[derive(Clone)]
struct FlashImage {
    buf: Rc<RefCell<Vec<u8>>>,
    erasable_block_size: usize,
}

impl FlashImage {
    fn new(size: usize, erasable_block_size: usize) -> Self {
        Self { buf: Rc::new(RefCell::new(vec![0xFFu8; size])), erasable_block_size }
    }

    fn poke(&self, at: usize, bytes: &[u8]) {
        let mut buf = self.buf.borrow_mut();
        buf[at..at + bytes.len()].copy_from_slice(bytes);
    }

    fn peek(&self, at: usize, len: usize) -> Vec<u8> {
        self.buf.borrow()[at..at + len].to_vec()
    }
}

impl FlashRead for FlashImage {
    fn contents(&self) -> vstd::seq::Seq<u8> {
        unreachable!()
    }

    fn read_exact(&self, beginning: Location, length: usize) -> amd_efs::flash::Result<Vec<u8>> {
        let buf = self.buf.borrow();
        let start = beginning as usize;
        match start.checked_add(length) {
            Some(end) if end <= buf.len() => Ok(buf[start..end].to_vec()),
            _ => Err(amd_efs::flash::Error::Io(IoError::Read { start: beginning, size: length })),
        }
    }
}

impl FlashAlign for FlashImage {
    fn spec_block_size(&self) -> usize {
        self.erasable_block_size
    }

    fn erasable_block_size(&self) -> usize {
        self.erasable_block_size
    }
}

impl FlashWrite for FlashImage {
    fn erase_block(&mut self, location: ErasableLocation) -> amd_efs::flash::Result<()> {
        let bs = self.erasable_block_size;
        let start = location.location_value() as usize;
        let mut buf = self.buf.borrow_mut();
        if location.erasable_block_size() != bs || start + bs > buf.len() {
            return Err(amd_efs::flash::Error::Io(IoError::Erase {
                start: location.location_value(),
                size: bs,
            }));
        }
        buf[start..start + bs].fill(0xFF);
        Ok(())
    }

    fn erase_and_write_block(
        &mut self,
        location: ErasableLocation,
        buffer: &[u8],
    ) -> amd_efs::flash::Result<()> {
        let bs = self.erasable_block_size;
        let start = location.location_value() as usize;
        let mut buf = self.buf.borrow_mut();
        if location.erasable_block_size() != bs || start + bs > buf.len() || buffer.len() > bs {
            return Err(amd_efs::flash::Error::Io(IoError::Write {
                start: location.location_value(),
                size: buffer.len(),
            }));
        }
        buf[start..start + bs].fill(0xFF);
        buf[start..start + buffer.len()].copy_from_slice(buffer);
        Ok(())
    }
}

use amd_efs::Upper16MiBFlashAdapter;

const MIB: usize = 0x10_0000;
const BLOCK_4K: usize = 0x1000;

#[test]
fn upper16_adapter_remaps_writes_and_reads() {
    // Writing a block at 0 in the adapter writes 0x100_0000 underneath;
    // reading at 0x180_0000 reads 0x80_0000 underneath.
    let image = FlashImage::new(32 * MIB, BLOCK_4K);
    image.poke(0x80_0000, &[0x77u8; 0x1000]);
    let mut adapter = Upper16MiBFlashAdapter::new(image.clone());
    let zero = image.erasable_location(0).unwrap();
    adapter.erase_and_write_block(zero, &[0xABu8; 0x1000]).unwrap();
    assert_eq!(image.peek(0x100_0000, 0x1000), vec![0xABu8; 0x1000]);
    let data = adapter.read_exact(0x180_0000, 0x1000).unwrap();
    assert_eq!(data, vec![0x77u8; 0x1000]);
    let data = adapter.read_exact(0, 0x1000).unwrap();
    assert_eq!(data, vec![0xABu8; 0x1000]);
}

#[test]
fn upper16_adapter_folds_high_bit_back() {
    // An access with bit 24 set refers to the lower half of the underlying
    // flash again.
    let image = FlashImage::new(32 * MIB, BLOCK_4K);
    image.poke(0x12_3000, &[0x42u8; 16]);
    let adapter = Upper16MiBFlashAdapter::new(image.clone());
    let data = adapter.read_exact(0x112_3000, 16).unwrap();
    assert_eq!(data, vec![0x42u8; 16]);
}

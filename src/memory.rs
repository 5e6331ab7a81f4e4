use vstd::prelude::*;

use crate::util::{join_spec, join_u8};

verus! {

/// Number of addressable 16-bit cells.
pub const MEMORY_SIZE: usize = 65536;

/// An access outside the address space.
#[derive(Debug, Clone, Copy, PartialEq, Eq, Structural)]
pub enum MemoryError {
    OutOfBoundsWrite(usize),
    OutOfBoundsRead(usize),
}

/// The machine's address space: `MEMORY_SIZE` words, all zero at first.
pub struct Memory {
    data: Vec<u16>,
}

/// The address at which an image asks to be loaded: its first two bytes.
pub open spec fn image_origin(image: Seq<u8>) -> int {
    join_spec(image[0], image[1]) as int
}

/// Whether loading `image` writes cell `addr`: the image's words go to
/// consecutive cells from its origin, up to the cell before the last one.
pub open spec fn image_covers(image: Seq<u8>, addr: int) -> bool {
    &&& image.len() >= 2
    &&& image_origin(image) <= addr < MEMORY_SIZE - 1
    &&& 2 * (addr - image_origin(image)) + 4 <= image.len()
}

/// The word that loading `image` writes at `addr` (where it covers `addr`).
pub open spec fn image_word(image: Seq<u8>, addr: int) -> u16 {
    let k = 2 + 2 * (addr - image_origin(image));
    join_spec(image[k], image[k + 1])
}

/// Cells `mem` after loading `image` over them.
pub open spec fn load_spec(mem: Seq<u16>, image: Seq<u8>) -> Seq<u16> {
    Seq::new(
        mem.len(),
        |a: int|
            if image_covers(image, a) {
                image_word(image, a)
            } else {
                mem[a]
            },
    )
}

impl View for Memory {
    type V = Seq<u16>;

    closed spec fn view(&self) -> Seq<u16> {
        self.data@
    }
}

impl Memory {
    /// The memory holds exactly one cell per address.
    pub open spec fn wf(&self) -> bool {
        self@.len() == MEMORY_SIZE
    }

    /// A memory whose cells are all zero.
    pub fn new() -> (r: Memory)
        ensures
            r.wf(),
            r@ == Seq::new(MEMORY_SIZE as nat, |a: int| 0u16),
    {
        let r = Memory { data: vec![0u16; MEMORY_SIZE] };
        assert(r@ == Seq::new(MEMORY_SIZE as nat, |a: int| 0u16));
        r
    }

    /// Stores `val` at `addr`, or reports an address outside the space.
    pub fn write(&mut self, addr: usize, val: u16) -> (r: Result<(), MemoryError>)
        requires
            old(self).wf(),
        ensures
            final(self).wf(),
            addr < MEMORY_SIZE ==> r is Ok && final(self)@ == old(self)@.update(addr as int, val),
            addr >= MEMORY_SIZE ==> r == Err::<(), MemoryError>(MemoryError::OutOfBoundsWrite(addr))
                && final(self)@ == old(self)@,
    {
        if addr < self.data.len() {
            self.data.set(addr, val);
            Ok(())
        } else {
            Err(MemoryError::OutOfBoundsWrite(addr))
        }
    }

    /// The word at `addr`, or an error for an address outside the space.
    pub fn read(&self, addr: usize) -> (r: Result<u16, MemoryError>)
        requires
            self.wf(),
        ensures
            addr < MEMORY_SIZE ==> r == Ok::<u16, MemoryError>(self@[addr as int]),
            addr >= MEMORY_SIZE ==> r == Err::<u16, MemoryError>(MemoryError::OutOfBoundsRead(addr)),
    {
        if addr < self.data.len() {
            Ok(self.data[addr])
        } else {
            Err(MemoryError::OutOfBoundsRead(addr))
        }
    }

    /// Loads a program image: two bytes of origin, then big-endian words
    /// placed from the origin on. Loading ends with the image (a lone last
    /// byte is ignored) or before the last cell of memory. An image shorter
    /// than its origin loads nothing.
    pub fn load_bulk(&mut self, buff: &[u8])
        requires
            old(self).wf(),
        ensures
            final(self).wf(),
            final(self)@ == load_spec(old(self)@, buff@),
    {
        if buff.len() < 2 {
            assert(self@ =~= load_spec(self@, buff@));
            return;
        }
        let origin = join_u8(buff[0], buff[1]) as usize;
        let mut mem_i: usize = origin;
        let mut buff_i: usize = 2;
        while mem_i < MEMORY_SIZE - 1 && buff_i + 1 < buff.len()
            invariant
                self.wf(),
                old(self)@.len() == MEMORY_SIZE,
                buff@.len() >= 2,
                buff_i <= buff@.len(),
                origin == image_origin(buff@),
                origin <= mem_i < MEMORY_SIZE,
                buff_i == 2 + 2 * (mem_i - origin),
                forall|a: int|
                    0 <= a < MEMORY_SIZE ==> #[trigger] self@[a] == (if origin <= a < mem_i {
                        image_word(buff@, a)
                    } else {
                        old(self)@[a]
                    }),
            decreases MEMORY_SIZE - mem_i,
        {
            let word = join_u8(buff[buff_i], buff[buff_i + 1]);
            self.data.set(mem_i, word);
            mem_i += 1;
            buff_i += 2;
        }
        assert forall|a: int| 0 <= a < MEMORY_SIZE implies (origin <= a < mem_i) == image_covers(
            buff@,
            a,
        ) by {}
        assert(self@ =~= load_spec(old(self)@, buff@));
    }
}

} // verus!

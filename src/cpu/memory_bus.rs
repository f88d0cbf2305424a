use vstd::prelude::*;
use crate::gpu::{GPU, VRAM_BEGIN, VRAM_END, VRAM_SIZE};

verus! {

/// A fault of the memory bus.
#[derive(Clone, Copy, Debug, PartialEq, Eq, Structural)]
pub enum BusError {
    /// The address lies in no region that a device owns.
    UnmappedAddress(u16),
}

/// Whether a bus address lies in the video-memory window.
pub open spec fn in_vram(addr: u16) -> bool {
    VRAM_BEGIN <= addr <= VRAM_END
}

/// Reading address `addr` of a bus whose video memory holds `vram`.
pub open spec fn bus_read(vram: Seq<u8>, addr: u16) -> Result<u8, BusError> {
    if in_vram(addr) {
        Ok(vram[addr - VRAM_BEGIN])
    } else {
        Err(BusError::UnmappedAddress(addr))
    }
}

/// The video memory after writing `byte` to address `addr`.
pub open spec fn bus_write(vram: Seq<u8>, addr: u16, byte: u8) -> Result<Seq<u8>, BusError> {
    if in_vram(addr) {
        Ok(vram.update(addr - VRAM_BEGIN, byte))
    } else {
        Err(BusError::UnmappedAddress(addr))
    }
}

/// The 16-bit address space; the video device owns 0x8000..=0x9FFF.
#[derive(Clone, Debug)]
pub struct MemoryBus {
    pub gpu: GPU,
}

impl View for MemoryBus {
    type V = Seq<u8>;

    /// The bytes of video memory.
    open spec fn view(&self) -> Seq<u8> {
        self.gpu@
    }
}

impl MemoryBus {
    /// The video device is well formed.
    pub open spec fn wf(&self) -> bool {
        self.gpu.wf()
    }

    /// A bus with zeroed video memory.
    pub fn new() -> (r: Self)
        ensures
            r.wf(),
            r@ == Seq::new(VRAM_SIZE as nat, |i: int| 0u8),
    {
        MemoryBus { gpu: GPU::new() }
    }

    /// Whether a device owns the address.
    pub fn is_mapped(addr: u16) -> (r: bool)
        ensures
            r == in_vram(addr),
    {
        VRAM_BEGIN <= addr as usize && addr as usize <= VRAM_END
    }

    /// Reads a byte; an address outside every device region is a fault.
    pub fn read_byte(&self, addr: u16) -> (r: Result<u8, BusError>)
        requires
            self.wf(),
        ensures
            r == bus_read(self@, addr),
    {
        let a = addr as usize;
        if VRAM_BEGIN <= a && a <= VRAM_END {
            Ok(self.gpu.read_vram(a - VRAM_BEGIN))
        } else {
            Err(BusError::UnmappedAddress(addr))
        }
    }

    /// Writes a byte; an address outside every device region is a fault, and then
    /// nothing changes.
    pub fn write_byte(&mut self, addr: u16, byte: u8) -> (r: Result<(), BusError>)
        requires
            old(self).wf(),
        ensures
            final(self).wf(),
            match bus_write(old(self)@, addr, byte) {
                Ok(m) => r == Ok::<(), BusError>(()) && final(self)@ == m,
                Err(e) => r == Err::<(), BusError>(e) && *final(self) == *old(self),
            },
    {
        let a = addr as usize;
        if VRAM_BEGIN <= a && a <= VRAM_END {
            self.gpu.write_vram(a - VRAM_BEGIN, byte);
            Ok(())
        } else {
            Err(BusError::UnmappedAddress(addr))
        }
    }
}

} // verus!

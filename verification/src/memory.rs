//! The address bus: 64 KiB of byte-addressable memory with little-endian word
//! access, an optional read-only window, and the I/O-port surface (an input
//! latch per device and an output mailbox).

use vstd::prelude::*;
use crate::bits::{word, hi8, lo8, lemma_word_split};

verus! {

/// Start and end addresses (inclusive) of the read-only window.
pub struct ROMSpace {
    pub start: u16,
    pub end: u16,
}

/// The bus state as the contracts see it.
#[verifier::ext_equal]
pub ghost struct BusView {
    /// The 65,536 memory bytes.
    pub mem: Seq<u8>,
    /// The read-only window, when one is set.
    pub rom: Option<ROMSpace>,
    /// The 256 input-port latches sampled by IN.
    pub pin: Seq<u8>,
    /// The output mailbox: device and value of the latest unconsumed OUT.
    pub pout: Option<(u8, u8)>,
}

/// Whether the address lies inside the read-only window.
pub open spec fn in_rom(rom: Option<ROMSpace>, addr: u16) -> bool {
    match rom {
        Some(r) => r.start <= addr && addr <= r.end,
        None => false,
    }
}

impl BusView {
    /// The bus always holds 65,536 memory bytes and 256 port latches.
    pub open spec fn wf(self) -> bool {
        self.mem.len() == 0x10000 && self.pin.len() == 0x100
    }

    /// The byte read at an address.
    pub open spec fn read8(self, addr: u16) -> u8 {
        self.mem[addr as int]
    }

    /// The little-endian word read at an address; the second address wraps.
    pub open spec fn read16(self, addr: u16) -> u16 {
        word(self.read8(addr.wrapping_add(1)), self.read8(addr))
    }

    /// The bus after a byte write: unchanged when the address is in the
    /// read-only window.
    pub open spec fn write8(self, addr: u16, data: u8) -> BusView {
        if in_rom(self.rom, addr) {
            self
        } else {
            BusView { mem: self.mem.update(addr as int, data), ..self }
        }
    }

    /// The bus after a little-endian word write: unchanged when either of the
    /// two addresses is in the read-only window.
    pub open spec fn write16(self, addr: u16, data: u16) -> BusView {
        if in_rom(self.rom, addr) || in_rom(self.rom, addr.wrapping_add(1)) {
            self
        } else {
            BusView {
                mem: self.mem.update(addr as int, lo8(data)).update(
                    addr.wrapping_add(1) as int,
                    hi8(data),
                ),
                ..self
            }
        }
    }
}

/// The 8080 memory map and I/O-port surface.
pub struct Bus {
    address_space: Vec<u8>,
    /// Write operations are dropped in this address range when it is set.
    pub rom_space: Option<ROMSpace>,
    port_in: Vec<u8>,
    port_out: Option<(u8, u8)>,
}

impl View for Bus {
    type V = BusView;

    closed spec fn view(&self) -> BusView {
        BusView {
            mem: self.address_space@,
            rom: self.rom_space,
            pin: self.port_in@,
            pout: self.port_out,
        }
    }
}

impl Bus {
    /// A bus with memory and port latches all zero, no read-only window and
    /// an empty mailbox.
    pub fn new() -> (r: Bus)
        ensures
            r@.wf(),
            r@.mem == Seq::new(0x10000, |i: int| 0u8),
            r@.rom is None,
            r@.pin == Seq::new(0x100, |i: int| 0u8),
            r@.pout is None,
    {
        let r = Bus {
            address_space: vec![0u8; 0x10000],
            rom_space: None,
            port_in: vec![0u8; 0x100],
            port_out: None,
        };
        proof {
            assert(r@.mem =~= Seq::new(0x10000, |i: int| 0u8));
            assert(r@.pin =~= Seq::new(0x100, |i: int| 0u8));
        }
        r
    }

    /// Sets the read-only window. Writes in this inclusive address range are
    /// dropped.
    pub fn set_romspace(&mut self, start: u16, end: u16)
        ensures
            final(self)@ == (BusView { rom: Some(ROMSpace { start, end }), ..old(self)@ }),
    {
        self.rom_space = Some(ROMSpace { start, end });
    }

    /// Reads a byte from memory.
    pub fn read_byte(&self, address: u16) -> (r: u8)
        requires
            self@.wf(),
        ensures
            r == self@.read8(address),
    {
        self.address_space[address as usize]
    }

    /// Writes a byte to memory; dropped when the address is inside the
    /// read-only window.
    pub fn write_byte(&mut self, address: u16, data: u8)
        requires
            old(self)@.wf(),
        ensures
            final(self)@ == old(self)@.write8(address, data),
            final(self)@.wf(),
    {
        if let Some(r) = &self.rom_space {
            if address >= r.start && address <= r.end {
                return ;
            }
        }
        self.address_space.set(address as usize, data);
    }

    /// Reads the little-endian word stored at an address; the address of the
    /// high byte wraps at the top of memory.
    pub fn read_word(&self, address: u16) -> (r: u16)
        requires
            self@.wf(),
        ensures
            r == self@.read16(address),
            r == self@.read8(address) + self@.read8(address.wrapping_add(1)) * 0x100,
    {
        let lo = self.address_space[address as usize];
        let hi = self.address_space[address.wrapping_add(1) as usize];
        (hi as u16) * 256 + (lo as u16)
    }

    /// Reads the little-endian word stored at an address and returns it with
    /// its bytes swapped.
    pub fn read_le_word(&self, address: u16) -> (r: u16)
        requires
            self@.wf(),
        ensures
            r == word(self@.read8(address), self@.read8(address.wrapping_add(1))),
    {
        let lo = self.address_space[address as usize];
        let hi = self.address_space[address.wrapping_add(1) as usize];
        (lo as u16) * 256 + (hi as u16)
    }

    /// Host side of the port surface: presets the latch that IN samples for
    /// a device.
    pub fn set_port_in(&mut self, device: u8, data: u8)
        requires
            old(self)@.wf(),
        ensures
            final(self)@ == (BusView {
                pin: old(self)@.pin.update(device as int, data),
                ..old(self)@
            }),
            final(self)@.wf(),
    {
        self.port_in.set(device as usize, data);
    }

    /// The latch IN samples for a device.
    pub fn get_port_in(&self, device: u8) -> (r: u8)
        requires
            self@.wf(),
        ensures
            r == self@.pin[device as int],
    {
        self.port_in[device as usize]
    }

    /// OUT publishes the device and value into the mailbox.
    pub fn set_port_out(&mut self, device: u8, data: u8)
        ensures
            final(self)@ == (BusView { pout: Some((device, data)), ..old(self)@ }),
    {
        self.port_out = Some((device, data));
    }

    /// Host side of the mailbox: the device and value of the latest OUT, if
    /// one is waiting.
    pub fn get_port_out(&self) -> (r: Option<(u8, u8)>)
        ensures
            r == self@.pout,
    {
        self.port_out
    }

    /// Host side of the mailbox: marks the OUT consumed.
    pub fn clear_port_out(&mut self)
        ensures
            final(self)@ == (BusView { pout: None, ..old(self)@ }),
    {
        self.port_out = None;
    }

    /// Writes a word to memory in little-endian byte order; dropped whole
    /// when either byte would land inside the read-only window.
    pub fn write_word(&mut self, address: u16, data: u16)
        requires
            old(self)@.wf(),
        ensures
            final(self)@ == old(self)@.write16(address, data),
            final(self)@.wf(),
    {
        let hi_addr = address.wrapping_add(1);
        if let Some(r) = &self.rom_space {
            if (address >= r.start && address <= r.end) || (hi_addr >= r.start && hi_addr
                <= r.end) {
                return ;
            }
        }
        self.address_space.set(address as usize, (data % 256) as u8);
        self.address_space.set(hi_addr as usize, (data / 256) as u8);
    }
}

/// Why an image could not be loaded.
#[derive(PartialEq, Eq, Structural, Clone, Copy, Debug)]
pub enum LoadError {
    /// The image would run past the top of the address space.
    ImageTooLarge,
}

impl Bus {
    /// Copies a flat binary image into memory starting at the origin; the
    /// read-only window does not apply. Fails, changing nothing, only when
    /// origin plus length overflows the address space.
    pub fn load_image(&mut self, data: &Vec<u8>, org: u16) -> (r: Result<(), LoadError>)
        requires
            old(self)@.wf(),
        ensures
            r is Ok <==> org + data@.len() <= 0x10000,
            r is Ok ==> final(self)@ == (BusView {
                mem: old(self)@.mem.subrange(0, org as int) + data@ + old(self)@.mem.subrange(
                    org + data@.len(),
                    0x10000,
                ),
                ..old(self)@
            }),
            r is Err ==> final(self)@ == old(self)@,
            final(self)@.wf(),
    {
        if data.len() > 0x10000 - (org as usize) {
            return Err(LoadError::ImageTooLarge);
        }
        let ghost m0 = self@.mem;
        let mut i: usize = 0;
        while i < data.len()
            invariant
                i <= data@.len(),
                org + data@.len() <= 0x10000,
                self@.wf(),
                forall|k: int| 0 <= k < 0x10000 && !(org <= k < org + i) ==> self@.mem[k] == m0[k],
                forall|k: int| org <= k < org + i ==> self@.mem[k] == data@[k - org],
                self@.rom == old(self)@.rom,
                self@.pin == old(self)@.pin,
                self@.pout == old(self)@.pout,
                m0 == old(self)@.mem,
            decreases data@.len() - i,
        {
            self.address_space.set(org as usize + i, data[i]);
            i += 1;
        }
        proof {
            assert(self@.mem =~= m0.subrange(0, org as int) + data@ + m0.subrange(
                org + data@.len(),
                0x10000,
            ));
        }
        Ok(())
    }
}

/// A word written outside the read-only window is read back unchanged, and a
/// word write with either byte inside the window leaves every read unchanged.
pub proof fn lemma_word_roundtrip(b: BusView, addr: u16, v: u16)
    requires
        b.wf(),
    ensures
        !in_rom(b.rom, addr) && !in_rom(b.rom, addr.wrapping_add(1)) ==> b.write16(
            addr,
            v,
        ).read16(addr) == v,
        in_rom(b.rom, addr) || in_rom(b.rom, addr.wrapping_add(1)) ==> b.write16(addr, v) == b,
{
    if !in_rom(b.rom, addr) && !in_rom(b.rom, addr.wrapping_add(1)) {
        assert(addr != addr.wrapping_add(1));
        lemma_word_split(v);
    }
}

} // verus!

use vstd::prelude::*;
use crate::bits::{le_byte, le_word, lemma_mask_bound, make_le_word, take_le_byte};
use crate::error::EmulatorError;
use crate::memory::{
    read_byte, write_byte, write_byte_result, Memory, MemoryModel,
};

verus! {

/// A memory-mapped device with 32-bit word hooks. A device is a deterministic state
/// machine over its model: what a read returns and how a read or a write changes the
/// device are functions of the model and the arguments.
pub trait BusDevice {
    type Model;

    spec fn model(&self) -> Self::Model;

    /// The word a read at `addr` returns.
    spec fn read_value(m: Self::Model, addr: u32) -> u32;

    /// The device after a read at `addr`.
    spec fn after_read(m: Self::Model, addr: u32) -> Self::Model;

    /// The device after `value` was written at `addr`.
    spec fn after_write(m: Self::Model, addr: u32, value: u32) -> Self::Model;

    fn read_u32(&mut self, addr: u32) -> (value: u32)
        ensures
            value == Self::read_value(old(self).model(), addr),
            final(self).model() == Self::after_read(old(self).model(), addr),
    ;

    fn write_u32(&mut self, addr: u32, value: u32)
        ensures
            final(self).model() == Self::after_write(old(self).model(), addr, value),
    ;
}

/// Outcome of a bus operation: what it returned and the bus afterwards.
pub struct Access<T, M> {
    pub result: Result<T, EmulatorError>,
    pub bus: M,
}

/// Byte and word access to a physical address space. A bus is a deterministic state
/// machine over its model.
pub trait Bus {
    type Model;

    spec fn model(&self) -> Self::Model;

    /// What a checked byte read at `addr` returns.
    spec fn read_outcome(m: Self::Model, addr: u32) -> Result<u8, EmulatorError>;

    /// The bus after a byte read at `addr` was attempted.
    spec fn after_read(m: Self::Model, addr: u32) -> Self::Model;

    /// What a checked byte write at `addr` returns.
    spec fn write_outcome(m: Self::Model, addr: u32, value: u8) -> Result<(), EmulatorError>;

    /// The bus after a byte write at `addr` was attempted.
    spec fn after_write(m: Self::Model, addr: u32, value: u8) -> Self::Model;

    fn read_u8_checked(&mut self, addr: u32) -> (result: Result<u8, EmulatorError>)
        ensures
            result == Self::read_outcome(old(self).model(), addr),
            final(self).model() == Self::after_read(old(self).model(), addr),
    ;

    fn write_u8_checked(&mut self, addr: u32, value: u8) -> (result: Result<(), EmulatorError>)
        ensures
            result == Self::write_outcome(old(self).model(), addr, value),
            final(self).model() == Self::after_write(old(self).model(), addr, value),
    ;

    /// Tolerant byte read: zero where the checked read fails.
    fn read_u8(&mut self, addr: u32) -> (value: u8)
        ensures
            value == match Self::read_outcome(old(self).model(), addr) {
                Ok(b) => b,
                Err(_) => 0u8,
            },
            final(self).model() == Self::after_read(old(self).model(), addr),
    {
        match self.read_u8_checked(addr) {
            Ok(value) => value,
            Err(_) => 0,
        }
    }

    /// Tolerant byte write: a failure is swallowed.
    fn write_u8(&mut self, addr: u32, value: u8)
        ensures
            final(self).model() == Self::after_write(old(self).model(), addr, value),
    {
        let _ = self.write_u8_checked(addr, value);
    }

    fn read_u32_checked(&mut self, addr: u32) -> (result: Result<u32, EmulatorError>) where
        Self: Sized,

        ensures
            ({
                let m = old(self).model();
                let m1 = Self::after_read(m, addr);
                let m2 = Self::after_read(m1, addr.wrapping_add(1));
                let m3 = Self::after_read(m2, addr.wrapping_add(2));
                let m4 = Self::after_read(m3, addr.wrapping_add(3));
                Access { result, bus: final(self).model() } == (match Self::read_outcome(m, addr) {
                    Err(e) => Access { result: Err(e), bus: m1 },
                    Ok(b0) => match Self::read_outcome(m1, addr.wrapping_add(1)) {
                        Err(e) => Access { result: Err(e), bus: m2 },
                        Ok(b1) => match Self::read_outcome(m2, addr.wrapping_add(2)) {
                            Err(e) => Access { result: Err(e), bus: m3 },
                            Ok(b2) => match Self::read_outcome(m3, addr.wrapping_add(3)) {
                                Err(e) => Access { result: Err(e), bus: m4 },
                                Ok(b3) => Access { result: Ok(le_word(b0, b1, b2, b3)), bus: m4 },
                            },
                        },
                    },
                })
            }),
    {
        let b0 = match self.read_u8_checked(addr) {
            Ok(b) => b,
            Err(e) => return Err(e),
        };
        let b1 = match self.read_u8_checked(addr.wrapping_add(1)) {
            Ok(b) => b,
            Err(e) => return Err(e),
        };
        let b2 = match self.read_u8_checked(addr.wrapping_add(2)) {
            Ok(b) => b,
            Err(e) => return Err(e),
        };
        let b3 = match self.read_u8_checked(addr.wrapping_add(3)) {
            Ok(b) => b,
            Err(e) => return Err(e),
        };
        Ok(make_le_word(b0, b1, b2, b3))
    }

    fn write_u32_checked(&mut self, addr: u32, value: u32) -> (result: Result<
        (),
        EmulatorError,
    >) where Self: Sized
        ensures
            ({
                let m = old(self).model();
                let a1 = addr.wrapping_add(1);
                let a2 = addr.wrapping_add(2);
                let a3 = addr.wrapping_add(3);
                let m1 = Self::after_write(m, addr, le_byte(value, 0));
                let m2 = Self::after_write(m1, a1, le_byte(value, 1));
                let m3 = Self::after_write(m2, a2, le_byte(value, 2));
                let m4 = Self::after_write(m3, a3, le_byte(value, 3));
                Access { result, bus: final(self).model() } == (match Self::write_outcome(
                    m,
                    addr,
                    le_byte(value, 0),
                ) {
                    Err(e) => Access { result: Err(e), bus: m1 },
                    Ok(_) => match Self::write_outcome(m1, a1, le_byte(value, 1)) {
                        Err(e) => Access { result: Err(e), bus: m2 },
                        Ok(_) => match Self::write_outcome(m2, a2, le_byte(value, 2)) {
                            Err(e) => Access { result: Err(e), bus: m3 },
                            Ok(_) => Access {
                                result: Self::write_outcome(m3, a3, le_byte(value, 3)),
                                bus: m4,
                            },
                        },
                    },
                })
            }),
    {
        match self.write_u8_checked(addr, take_le_byte(value, 0)) {
            Ok(_) => {},
            Err(e) => return Err(e),
        }
        match self.write_u8_checked(addr.wrapping_add(1), take_le_byte(value, 1)) {
            Ok(_) => {},
            Err(e) => return Err(e),
        }
        match self.write_u8_checked(addr.wrapping_add(2), take_le_byte(value, 2)) {
            Ok(_) => {},
            Err(e) => return Err(e),
        }
        self.write_u8_checked(addr.wrapping_add(3), take_le_byte(value, 3))
    }
}

/// Model of a checked word read on any bus: four byte reads at wrapping addresses,
/// stopping at the first that fails.
pub open spec fn bus_read_word<B: Bus>(m: B::Model, addr: u32) -> Access<u32, B::Model> {
    let m1 = B::after_read(m, addr);
    let m2 = B::after_read(m1, addr.wrapping_add(1));
    let m3 = B::after_read(m2, addr.wrapping_add(2));
    let m4 = B::after_read(m3, addr.wrapping_add(3));
    match B::read_outcome(m, addr) {
        Err(e) => Access { result: Err(e), bus: m1 },
        Ok(b0) => match B::read_outcome(m1, addr.wrapping_add(1)) {
            Err(e) => Access { result: Err(e), bus: m2 },
            Ok(b1) => match B::read_outcome(m2, addr.wrapping_add(2)) {
                Err(e) => Access { result: Err(e), bus: m3 },
                Ok(b2) => match B::read_outcome(m3, addr.wrapping_add(3)) {
                    Err(e) => Access { result: Err(e), bus: m4 },
                    Ok(b3) => Access { result: Ok(le_word(b0, b1, b2, b3)), bus: m4 },
                },
            },
        },
    }
}

/// Model of a checked word write on any bus: four byte writes at wrapping addresses,
/// stopping at the first that fails.
pub open spec fn bus_write_word<B: Bus>(m: B::Model, addr: u32, value: u32) -> Access<
    (),
    B::Model,
> {
    let a1 = addr.wrapping_add(1);
    let a2 = addr.wrapping_add(2);
    let a3 = addr.wrapping_add(3);
    let m1 = B::after_write(m, addr, le_byte(value, 0));
    let m2 = B::after_write(m1, a1, le_byte(value, 1));
    let m3 = B::after_write(m2, a2, le_byte(value, 2));
    let m4 = B::after_write(m3, a3, le_byte(value, 3));
    match B::write_outcome(m, addr, le_byte(value, 0)) {
        Err(e) => Access { result: Err(e), bus: m1 },
        Ok(_) => match B::write_outcome(m1, a1, le_byte(value, 1)) {
            Err(e) => Access { result: Err(e), bus: m2 },
            Ok(_) => match B::write_outcome(m2, a2, le_byte(value, 2)) {
                Err(e) => Access { result: Err(e), bus: m3 },
                Ok(_) => Access { result: B::write_outcome(m3, a3, le_byte(value, 3)), bus: m4 },
            },
        },
    }
}

/// Tolerant word read on any bus: zero where the checked read fails.
pub fn bus_read_u32<B: Bus>(bus: &mut B, addr: u32) -> (value: u32)
    ensures
        value == match bus_read_word::<B>(old(bus).model(), addr).result {
            Ok(w) => w,
            Err(_) => 0u32,
        },
        final(bus).model() == bus_read_word::<B>(old(bus).model(), addr).bus,
{
    match bus.read_u32_checked(addr) {
        Ok(value) => value,
        Err(_) => 0,
    }
}

/// Tolerant word write on any bus: a failure is swallowed.
pub fn bus_write_u32<B: Bus>(bus: &mut B, addr: u32, value: u32)
    ensures
        final(bus).model() == bus_write_word::<B>(old(bus).model(), addr, value).bus,
{
    let _ = bus.write_u32_checked(addr, value);
}

impl Bus for Memory {
    type Model = MemoryModel;

    open spec fn model(&self) -> MemoryModel {
        self@
    }

    open spec fn read_outcome(m: MemoryModel, addr: u32) -> Result<u8, EmulatorError> {
        read_byte(m, addr)
    }

    open spec fn after_read(m: MemoryModel, addr: u32) -> MemoryModel {
        m
    }

    open spec fn write_outcome(m: MemoryModel, addr: u32, value: u8) -> Result<(), EmulatorError> {
        write_byte_result(m, addr)
    }

    open spec fn after_write(m: MemoryModel, addr: u32, value: u8) -> MemoryModel {
        write_byte(m, addr, value)
    }

    fn read_u8_checked(&mut self, addr: u32) -> (result: Result<u8, EmulatorError>) {
        Memory::read_u8_checked(self, addr)
    }

    fn write_u8_checked(&mut self, addr: u32, value: u8) -> (result: Result<(), EmulatorError>) {
        let result = Memory::write_u8_checked(self, addr, value);
        assert(result == Self::write_outcome(old(self).model(), addr, value));
        result
    }
}

/// On plain memory the generic word read is the memory's own word read and leaves
/// the memory unchanged.
pub proof fn lemma_memory_bus_read_word(m: MemoryModel, addr: u32)
    ensures
        bus_read_word::<Memory>(m, addr).result == crate::memory::read_word(m, addr),
        bus_read_word::<Memory>(m, addr).bus == m,
{
}

/// A device registered on the system bus, with the page base it answers at.
pub struct MmioSlot<D> {
    pub base: u32,
    pub device: D,
}

/// Model of a registered device.
pub struct MmioSlotModel<M> {
    pub base: u32,
    pub device: M,
}

/// Model of the system bus: plain memory plus the registered devices.
pub struct SystemBusModel<M> {
    pub memory: MemoryModel,
    pub mmio: Seq<MmioSlotModel<M>>,
}

/// Base of the 4 KiB page that contains `addr`.
pub open spec fn page_base(addr: u32) -> u32 {
    addr & !0xFFFu32
}

/// Address of the aligned word that contains `addr`.
pub open spec fn word_base(addr: u32) -> u32 {
    addr & !3u32
}

/// Byte lane of `addr` inside its aligned word.
pub open spec fn byte_lane(addr: u32) -> u32 {
    addr & 3
}

/// `word` with byte lane `lane` replaced by `value`.
pub open spec fn merge_lane(word: u32, lane: u32, value: u8) -> u32 {
    (word & !(0xFFu32 << (lane * 8) as u32)) | ((value as u32) << (lane * 8) as u32)
}

/// Index of the first device at or after `from` registered at `base`.
pub open spec fn find_device_from<M>(slots: Seq<MmioSlotModel<M>>, base: u32, from: int) -> Option<
    int,
>
    decreases slots.len() - from,
{
    if from < 0 || from >= slots.len() {
        None
    } else if slots[from].base == base {
        Some(from)
    } else {
        find_device_from(slots, base, from + 1)
    }
}

/// Index of the device registered at `base`.
pub open spec fn find_device<M>(slots: Seq<MmioSlotModel<M>>, base: u32) -> Option<int> {
    find_device_from(slots, base, 0)
}

/// The registered devices after one more was registered at `base`: it takes the place
/// of a device registered there before, else it is added.
pub open spec fn with_device<M>(slots: Seq<MmioSlotModel<M>>, base: u32, device: M) -> Seq<
    MmioSlotModel<M>,
> {
    match find_device(slots, base) {
        Some(i) => slots.update(i, MmioSlotModel { base, device }),
        None => slots.push(MmioSlotModel { base, device }),
    }
}

/// Physical bus that dispatches accesses inside a registered 4 KiB page to the page's
/// device and everything else to plain memory.
pub struct SystemBus<D: BusDevice> {
    memory: Memory,
    mmio: Vec<MmioSlot<D>>,
}

impl<D: BusDevice> SystemBus<D> {
    pub closed spec fn view(&self) -> SystemBusModel<D::Model> {
        SystemBusModel {
            memory: self.memory@,
            mmio: Seq::new(
                self.mmio@.len(),
                |i: int| MmioSlotModel { base: self.mmio@[i].base, device: self.mmio@[i].device.model() },
            ),
        }
    }

    /// A system bus over freshly mapped memory with no device registered.
    pub fn new() -> (bus: Self)
        ensures
            bus@.memory == crate::memory::initial_layout(),
            bus@.mmio == Seq::<MmioSlotModel<D::Model>>::empty(),
    {
        let bus = SystemBus { memory: Memory::new(), mmio: Vec::new() };
        assert(bus@.mmio =~= Seq::<MmioSlotModel<D::Model>>::empty());
        bus
    }

    pub fn memory(&self) -> (memory: &Memory)
        ensures
            memory@ == self@.memory,
    {
        &self.memory
    }

    pub fn memory_mut(&mut self) -> (memory: &mut Memory)
        ensures
            memory@ == old(self)@.memory,
            final(self)@.memory == final(memory)@,
            final(self)@.mmio == old(self)@.mmio,
    {
        &mut self.memory
    }

    fn find_device_index(&self, base: u32) -> (index: Option<usize>)
        ensures
            match index {
                Some(i) => find_device(self@.mmio, base) == Some(i as int) && i < self@.mmio.len()
                    && self@.mmio[i as int].base == base,
                None => find_device(self@.mmio, base) is None,
            },
    {
        let mut i: usize = 0;
        while i < self.mmio.len()
            invariant
                i <= self.mmio@.len(),
                find_device(self@.mmio, base) == find_device_from(self@.mmio, base, i as int),
            decreases self.mmio@.len() - i,
        {
            if self.mmio[i].base == base {
                return Some(i);
            }
            i += 1;
        }
        None
    }

    /// Registers `device` for the 4 KiB page at `base`.
    pub fn map_mmio_device(&mut self, base: u32, device: D)
        ensures
            final(self)@.memory == old(self)@.memory,
            final(self)@.mmio == with_device(old(self)@.mmio, base, device.model()),
    {
        match self.find_device_index(base) {
            Some(i) => {
                self.mmio[i] = MmioSlot { base, device };
            },
            None => {
                self.mmio.push(MmioSlot { base, device });
            },
        }
        assert(self@.mmio =~= with_device(old(self)@.mmio, base, device.model()));
    }

    pub fn mmio_base(addr: u32) -> (base: u32)
        ensures
            base == page_base(addr),
    {
        addr & !0xFFFu32
    }
}

impl<D: BusDevice> Bus for SystemBus<D> {
    type Model = SystemBusModel<D::Model>;

    open spec fn model(&self) -> SystemBusModel<D::Model> {
        self@
    }

    open spec fn read_outcome(m: SystemBusModel<D::Model>, addr: u32) -> Result<u8, EmulatorError> {
        match find_device(m.mmio, page_base(addr)) {
            Some(i) => Ok(
                le_byte(D::read_value(m.mmio[i].device, word_base(addr)), byte_lane(addr)),
            ),
            None => read_byte(m.memory, addr),
        }
    }

    open spec fn after_read(m: SystemBusModel<D::Model>, addr: u32) -> SystemBusModel<D::Model> {
        match find_device(m.mmio, page_base(addr)) {
            Some(i) => SystemBusModel {
                mmio: m.mmio.update(
                    i,
                    MmioSlotModel {
                        base: m.mmio[i].base,
                        device: D::after_read(m.mmio[i].device, word_base(addr)),
                    },
                ),
                ..m
            },
            None => m,
        }
    }

    open spec fn write_outcome(m: SystemBusModel<D::Model>, addr: u32, value: u8) -> Result<
        (),
        EmulatorError,
    > {
        match find_device(m.mmio, page_base(addr)) {
            Some(i) => Ok(()),
            None => write_byte_result(m.memory, addr),
        }
    }

    open spec fn after_write(m: SystemBusModel<D::Model>, addr: u32, value: u8) -> SystemBusModel<
        D::Model,
    > {
        match find_device(m.mmio, page_base(addr)) {
            Some(i) => SystemBusModel {
                mmio: m.mmio.update(
                    i,
                    MmioSlotModel {
                        base: m.mmio[i].base,
                        device: D::after_write(
                            D::after_read(m.mmio[i].device, word_base(addr)),
                            word_base(addr),
                            merge_lane(
                                D::read_value(m.mmio[i].device, word_base(addr)),
                                byte_lane(addr),
                                value,
                            ),
                        ),
                    },
                ),
                ..m
            },
            None => SystemBusModel { memory: write_byte(m.memory, addr, value), ..m },
        }
    }

    /// A byte inside a device page is the addressed lane of the device's aligned word.
    fn read_u8_checked(&mut self, addr: u32) -> (result: Result<u8, EmulatorError>) {
        match self.find_device_index(Self::mmio_base(addr)) {
            Some(i) => {
                let lane = addr & 3;
                proof {
                    lemma_mask_bound(addr, 3);
                }
                let word = self.mmio[i].device.read_u32(addr & !3u32);
                assert(self@.mmio =~= Self::after_read(old(self)@, addr).mmio);
                Ok(take_le_byte(word, lane))
            },
            None => self.memory.read_u8_checked(addr),
        }
    }

    /// A byte written inside a device page is merged into the device's aligned word:
    /// the word is read, the lane replaced, and the word written back.
    fn write_u8_checked(&mut self, addr: u32, value: u8) -> (result: Result<(), EmulatorError>) {
        match self.find_device_index(Self::mmio_base(addr)) {
            Some(i) => {
                let aligned = addr & !3u32;
                let lane = addr & 3;
                proof {
                    lemma_mask_bound(addr, 3);
                }
                let shift = lane * 8;
                let mut word = self.mmio[i].device.read_u32(aligned);
                word = (word & !(0xFFu32 << shift)) | ((value as u32) << shift);
                self.mmio[i].device.write_u32(aligned, word);
                assert(self@.mmio =~= Self::after_write(old(self)@, addr, value).mmio);
                let result: Result<(), EmulatorError> = Ok(());
                assert(result == Self::write_outcome(old(self)@, addr, value));
                result
            },
            None => {
                let result = self.memory.write_u8_checked(addr, value);
                assert(result == write_byte_result(old(self)@.memory, addr));
                result
            },
        }
    }
}

} // verus!

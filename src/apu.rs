//! The audio unit, as register storage: the guest can write and read back
//! its registers and wave RAM; no sound is produced.
use vstd::prelude::*;

verus! {

/// Samples per channel buffer: one frame of sound at 44100 Hz.
pub const SAMPLE_SIZE: usize = 735;

/// First audio register.
pub const AUDIO_START: u16 = 0xFF10;

/// Last byte of wave RAM.
pub const AUDIO_END: u16 = 0xFF3F;

/// Whether an address in 0xFF10..=0xFF3F holds an audio register: the
/// four channels' registers, the three control registers and wave RAM.
pub open spec fn audio_mapped(addr: u16) -> bool {
    (0xFF10 <= addr <= 0xFF14) || (0xFF16 <= addr <= 0xFF1E) || (0xFF20 <= addr <= 0xFF26) || (
    0xFF30 <= addr <= 0xFF3F)
}

pub struct APU {
    regs: Vec<u8>,
    channel_1_buffer: Vec<u8>,
    channel_2_buffer: Vec<u8>,
    channel_3_buffer: Vec<u8>,
    channel_4_buffer: Vec<u8>,
}

impl APU {
    pub closed spec fn wf(&self) -> bool {
        &&& self.regs@.len() == 0x30
        &&& self.channel_1_buffer@.len() == SAMPLE_SIZE
        &&& self.channel_2_buffer@.len() == SAMPLE_SIZE
        &&& self.channel_3_buffer@.len() == SAMPLE_SIZE
        &&& self.channel_4_buffer@.len() == SAMPLE_SIZE
    }

    /// The value stored for an audio address.
    pub closed spec fn stored(&self, addr: u16) -> u8 {
        self.regs@[addr - AUDIO_START]
    }

    /// What a read of `addr` returns: the stored value where a register is
    /// mapped, 0xFF elsewhere.
    pub open spec fn value(&self, addr: u16) -> u8 {
        if audio_mapped(addr) {
            self.stored(addr)
        } else {
            0xFF
        }
    }

    pub fn new() -> (r: Self)
        ensures
            r.wf(),
            forall|a: u16| AUDIO_START <= a <= AUDIO_END ==> r.stored(a) == 0,
    {
        Self {
            regs: vec![0u8; 0x30],
            channel_1_buffer: vec![0u8; SAMPLE_SIZE],
            channel_2_buffer: vec![0u8; SAMPLE_SIZE],
            channel_3_buffer: vec![0u8; SAMPLE_SIZE],
            channel_4_buffer: vec![0u8; SAMPLE_SIZE],
        }
    }

    /// Stores `value` at a mapped audio address; other addresses are left
    /// alone.
    pub fn write(&mut self, addr: u16, value: u8)
        requires
            old(self).wf(),
        ensures
            final(self).wf(),
            forall|a: u16|
                AUDIO_START <= a <= AUDIO_END ==> final(self).stored(a) == (if a == addr
                    && audio_mapped(addr) {
                    value
                } else {
                    old(self).stored(a)
                }),
    {
        if (0xFF10 <= addr && addr <= 0xFF14) || (0xFF16 <= addr && addr <= 0xFF1E) || (0xFF20
            <= addr && addr <= 0xFF26) || (0xFF30 <= addr && addr <= 0xFF3F) {
            self.regs.set((addr - AUDIO_START) as usize, value);
        }
    }

    pub fn read(&self, addr: u16) -> (r: u8)
        requires
            self.wf(),
        ensures
            r == self.value(addr),
    {
        if (0xFF10 <= addr && addr <= 0xFF14) || (0xFF16 <= addr && addr <= 0xFF1E) || (0xFF20
            <= addr && addr <= 0xFF26) || (0xFF30 <= addr && addr <= 0xFF3F) {
            self.regs[(addr - AUDIO_START) as usize]
        } else {
            0xFF
        }
    }

    /// The four channels' sample buffers.
    pub fn get_shared_buffer(&self) -> (r: [&Vec<u8>; 4])
        requires
            self.wf(),
        ensures
            r[0]@.len() == SAMPLE_SIZE,
            r[1]@.len() == SAMPLE_SIZE,
            r[2]@.len() == SAMPLE_SIZE,
            r[3]@.len() == SAMPLE_SIZE,
    {
        [
            &self.channel_1_buffer,
            &self.channel_2_buffer,
            &self.channel_3_buffer,
            &self.channel_4_buffer,
        ]
    }

    /// Advances the audio unit; register storage does not change with time.
    pub fn tick(&mut self)
        ensures
            *final(self) == *old(self),
    {
    }
}

} // verus!

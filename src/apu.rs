//! Audio processing unit.
//!
//! The sound hardware is not emulated: every register reads as zero and
//! accepts writes without effect. A real synthesiser can later replace this
//! type behind the same register surface.

use vstd::prelude::*;

verus! {

/// Register-level stand-in for the audio unit; it holds no state.
pub struct Apu {}

impl Apu {
    pub fn new() -> (r: Apu)
        ensures
            r == (Apu {}),
    {
        Apu {}
    }

    pub fn read_square_ch1_control1(&self) -> (r: u8)
        ensures
            r == 0,
    {
        0
    }

    pub fn read_square_ch1_control2(&self) -> (r: u8)
        ensures
            r == 0,
    {
        0
    }

    pub fn read_square_ch1_freq1(&self) -> (r: u8)
        ensures
            r == 0,
    {
        0
    }

    pub fn read_square_ch1_freq2(&self) -> (r: u8)
        ensures
            r == 0,
    {
        0
    }

    pub fn read_square_ch2_control1(&self) -> (r: u8)
        ensures
            r == 0,
    {
        0
    }

    pub fn read_square_ch2_control2(&self) -> (r: u8)
        ensures
            r == 0,
    {
        0
    }

    pub fn read_square_ch2_freq1(&self) -> (r: u8)
        ensures
            r == 0,
    {
        0
    }

    pub fn read_square_ch2_freq2(&self) -> (r: u8)
        ensures
            r == 0,
    {
        0
    }

    pub fn read_sign_control(&self) -> (r: u8)
        ensures
            r == 0,
    {
        0
    }

    pub fn read_sign_freq1(&self) -> (r: u8)
        ensures
            r == 0,
    {
        0
    }

    pub fn read_sign_freq2(&self) -> (r: u8)
        ensures
            r == 0,
    {
        0
    }

    pub fn read_noise_control(&self) -> (r: u8)
        ensures
            r == 0,
    {
        0
    }

    pub fn read_noise_rand(&self) -> (r: u8)
        ensures
            r == 0,
    {
        0
    }

    pub fn read_noise_duration(&self) -> (r: u8)
        ensures
            r == 0,
    {
        0
    }

    pub fn read_dpcm_control1(&self) -> (r: u8)
        ensures
            r == 0,
    {
        0
    }

    pub fn read_dpcm_control2(&self) -> (r: u8)
        ensures
            r == 0,
    {
        0
    }

    pub fn read_dpcm_control3(&self) -> (r: u8)
        ensures
            r == 0,
    {
        0
    }

    pub fn read_dpcm_control4(&self) -> (r: u8)
        ensures
            r == 0,
    {
        0
    }

    pub fn read_voice_control(&self) -> (r: u8)
        ensures
            r == 0,
    {
        0
    }

    pub fn write_square_ch1_control1(&mut self, data: u8)
        ensures
            *final(self) == *old(self),
    {
    }

    pub fn write_square_ch1_control2(&mut self, data: u8)
        ensures
            *final(self) == *old(self),
    {
    }

    pub fn write_square_ch1_freq1(&mut self, data: u8)
        ensures
            *final(self) == *old(self),
    {
    }

    pub fn write_square_ch1_freq2(&mut self, data: u8)
        ensures
            *final(self) == *old(self),
    {
    }

    pub fn write_square_ch2_control1(&mut self, data: u8)
        ensures
            *final(self) == *old(self),
    {
    }

    pub fn write_square_ch2_control2(&mut self, data: u8)
        ensures
            *final(self) == *old(self),
    {
    }

    pub fn write_square_ch2_freq1(&mut self, data: u8)
        ensures
            *final(self) == *old(self),
    {
    }

    pub fn write_square_ch2_freq2(&mut self, data: u8)
        ensures
            *final(self) == *old(self),
    {
    }

    pub fn write_sign_control(&mut self, data: u8)
        ensures
            *final(self) == *old(self),
    {
    }

    pub fn write_sign_freq1(&mut self, data: u8)
        ensures
            *final(self) == *old(self),
    {
    }

    pub fn write_sign_freq2(&mut self, data: u8)
        ensures
            *final(self) == *old(self),
    {
    }

    pub fn write_noise_control(&mut self, data: u8)
        ensures
            *final(self) == *old(self),
    {
    }

    pub fn write_noise_rand(&mut self, data: u8)
        ensures
            *final(self) == *old(self),
    {
    }

    pub fn write_noise_duration(&mut self, data: u8)
        ensures
            *final(self) == *old(self),
    {
    }

    pub fn write_dpcm_control1(&mut self, data: u8)
        ensures
            *final(self) == *old(self),
    {
    }

    pub fn write_dpcm_control2(&mut self, data: u8)
        ensures
            *final(self) == *old(self),
    {
    }

    pub fn write_dpcm_control3(&mut self, data: u8)
        ensures
            *final(self) == *old(self),
    {
    }

    pub fn write_dpcm_control4(&mut self, data: u8)
        ensures
            *final(self) == *old(self),
    {
    }

    pub fn write_voice_control(&mut self, data: u8)
        ensures
            *final(self) == *old(self),
    {
    }
}

} // verus!

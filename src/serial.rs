//! The serial port, as a stub: a transfer started with the internal clock emits
//! the data byte to an outbound stream and completes at once.
use vstd::prelude::*;

verus! {

pub struct Serial {
    pub data: u8,
    pub control: u8,
    /// Bytes sent out and not yet collected by the host.
    pub out: Vec<u8>,
}

impl Serial {
    pub open spec fn spec_read(&self, addr: u16) -> u8 {
        if addr == 0xFF01 {
            self.data
        } else if addr == 0xFF02 {
            self.control | 0x7E
        } else {
            0xFF
        }
    }

    pub fn new() -> (r: Self)
        ensures
            r.data == 0 && r.control == 0 && r.out@.len() == 0,
    {
        Serial { data: 0, control: 0, out: Vec::new() }
    }

    pub fn read(&self, addr: u16) -> (r: u8)
        ensures
            r == self.spec_read(addr),
    {
        if addr == 0xFF01 {
            self.data
        } else if addr == 0xFF02 {
            self.control | 0x7E
        } else {
            0xFF
        }
    }

    /// Writing 0x81 to SC sends SB: the byte joins the outbound stream and the
    /// transfer-busy bit drops at once.
    pub fn write(&mut self, addr: u16, value: u8)
        ensures
            addr == 0xFF01 ==> final(self).data == value && final(self).control == old(self).control
                && final(self).out@ == old(self).out@,
            addr == 0xFF02 && value == 0x81 ==> final(self).data == old(self).data && final(self).control
                == 0x01 && final(self).out@ == old(self).out@.push(old(self).data),
            addr == 0xFF02 && value != 0x81 ==> final(self).data == old(self).data && final(self).control
                == value && final(self).out@ == old(self).out@,
            addr != 0xFF01 && addr != 0xFF02 ==> *final(self) == *old(self),
    {
        if addr == 0xFF01 {
            self.data = value;
        } else if addr == 0xFF02 {
            if value == 0x81 {
                self.out.push(self.data);
                self.control = 0x01;
            } else {
                self.control = value;
            }
        }
    }

    /// Hands the outbound bytes to the host and empties the stream.
    pub fn take_output(&mut self) -> (r: Vec<u8>)
        ensures
            r@ == old(self).out@,
            final(self).out@.len() == 0,
            final(self).data == old(self).data,
            final(self).control == old(self).control,
    {
        let mut r: Vec<u8> = Vec::new();
        std::mem::swap(&mut r, &mut self.out);
        r
    }
}

} // verus!

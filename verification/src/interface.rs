//! Framing of what goes over the bus.
//!
//! The device is written in one bus transfer: the pointer of the register,
//! then the bytes for it. This module builds that transfer; sending it is
//! left to the bus driver.

use vstd::prelude::*;
use crate::registers::Register;

verus! {

/// The bytes of the transfer that writes `bytes` to `register`: the register
/// pointer, followed by `bytes` as they are.
pub open spec fn framed(register: Register, bytes: Seq<u8>) -> Seq<u8> {
    seq![register.pointer() as u8] + bytes
}

/// Builds the transfer that writes `bytes` to `register`.
pub fn write_payload(register: Register, bytes: &[u8]) -> (payload: Vec<u8>)
    ensures
        payload@ == framed(register, bytes@),
{
    let mut payload: Vec<u8> = Vec::new();
    payload.push(register.address());
    let mut i: usize = 0;
    while i < bytes.len()
        invariant
            i <= bytes.len(),
            payload@ == framed(register, bytes@.take(i as int)),
        decreases bytes.len() - i,
    {
        payload.push(bytes[i]);
        assert(bytes@.take(i + 1) == bytes@.take(i as int).push(bytes@[i as int]));
        i = i + 1;
    }
    assert(bytes@.take(bytes@.len() as int) == bytes@);
    payload
}

} // verus!

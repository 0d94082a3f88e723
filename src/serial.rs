//! Diagnostic serial output and the monotonic millisecond timer.
use vstd::prelude::*;
use vstd::string::StringSliceAdditionalSpecFns;

verus! {

/// The data-register words that send `data` over the serial port, one word
/// per byte, in order.
pub fn usart_send_string(data: &str) -> (r: Vec<u32>)
    ensures
        r@.len() == data.spec_bytes().len(),
        forall|i: int| 0 <= i < r@.len() ==> r@[i] == data.spec_bytes()[i] as u32,
{
    let bytes = data.as_bytes();
    let mut words: Vec<u32> = Vec::new();
    let mut i: usize = 0;
    while i < bytes.len()
        invariant
            bytes@ == data.spec_bytes(),
            i <= bytes@.len(),
            words@.len() == i,
            forall|k: int| 0 <= k < i ==> words@[k] == bytes@[k] as u32,
        decreases bytes@.len() - i,
    {
        words.push(bytes[i] as u32);
        i = i + 1;
    }
    words
}

/// The 32-bit timer count from the two 16-bit halves of the counter register.
pub fn timer_time(high: u16, low: u16) -> (r: u32)
    ensures
        r == high as u32 * 65536 + low as u32,
{
    let h: u32 = high as u32;
    let l: u32 = low as u32;
    assert((h << 16u32) | l == h * 65536 + l) by (bit_vector)
        requires
            h < 65536,
            l < 65536,
    ;
    (h << 16u32) | l
}

} // verus!

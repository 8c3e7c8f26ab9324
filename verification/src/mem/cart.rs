//! A loaded cartridge: the bytes of its image, and the header read from them.

pub mod types;

use crate::mem::cart::types::CartHeader;
use vstd::prelude::*;

verus! {

/// The graphic that every cartridge header shows at power-on.
pub const NINTENDO_GRAPHIC: [u8; 48] = [
    0xCE, 0xED, 0x66, 0x66, 0xCC, 0x0D, 0x00, 0x0B,
    0x03, 0x73, 0x00, 0x83, 0x00, 0x0C, 0x00, 0x0D,
    0x00, 0x08, 0x11, 0x1F, 0x88, 0x89, 0x00, 0x0E,
    0xDC, 0xCC, 0x6E, 0xE6, 0xDD, 0xDD, 0xD9, 0x99,
    0xBB, 0xBB, 0x67, 0x63, 0x6E, 0x0E, 0xEC, 0xCC,
    0xDD, 0xDC, 0x99, 0x9F, 0xBB, 0xB9, 0x33, 0x3E,
];

/// A cartridge: the bytes of its image, how many they are, and its header.
pub struct Cart {
    pub data: Vec<u8>,
    pub data_len: usize,
    pub header: CartHeader,
}

impl Cart {
    /// The cartridge whose image is `data`.
    pub fn new(data: Vec<u8>) -> (r: Cart)
        requires
            CartHeader::valid_image(data@),
        ensures
            r.data == data,
            r.data_len == data@.len(),
            r.header.describes(data@),
    {
        let data_len = data.len();
        let header = CartHeader::new(data.as_slice());
        Cart { data, data_len, header }
    }
}

} // verus!

//! The cartridge header: sixteen fields at fixed places of the image, from
//! 0x0100 to 0x014F.

use crate::mem::cart::NINTENDO_GRAPHIC;
use crate::word::make_word;
use crate::word::word;
use vstd::prelude::*;
use vstd::std_specs::convert::FromSpecImpl;

verus! {

/// Whether the cartridge was made for the colour console.
#[derive(Clone, Copy, Debug, PartialEq, Eq, Structural)]
pub enum CartColorType {
    GameBoyColor,
    Other,
}

impl CartColorType {
    /// The colour type that the byte `value` stands for: 0x80 marks a colour
    /// cartridge, every other byte does not.
    pub open spec fn parse(value: u8) -> CartColorType {
        if value == 0x80 {
            CartColorType::GameBoyColor
        } else {
            CartColorType::Other
        }
    }
}

impl From<u8> for CartColorType {
    fn from(value: u8) -> (r: CartColorType) {
        if value == 0x80 {
            CartColorType::GameBoyColor
        } else {
            CartColorType::Other
        }
    }
}

impl FromSpecImpl<u8> for CartColorType {
    open spec fn obeys_from_spec() -> bool {
        true
    }

    open spec fn from_spec(value: u8) -> CartColorType {
        CartColorType::parse(value)
    }
}

/// The console functions that the cartridge asks for.
#[derive(Clone, Copy, Debug, PartialEq, Eq, Structural)]
pub enum ConsoleIndicator {
    GameBoy,
    SuperGameBoy,
}

impl ConsoleIndicator {
    /// The indicator that the byte `value` stands for, if it stands for one.
    pub open spec fn parse(value: u8) -> Option<ConsoleIndicator> {
        if value == 0x00 {
            Some(ConsoleIndicator::GameBoy)
        } else if value == 0x03 {
            Some(ConsoleIndicator::SuperGameBoy)
        } else {
            None
        }
    }

    /// Reads the byte `value`, or finds that it stands for no value.
    pub fn try_from_u8(value: u8) -> (r: Option<ConsoleIndicator>)
        ensures
            r == ConsoleIndicator::parse(value),
    {
        match value {
            0x00 => Some(ConsoleIndicator::GameBoy),
            0x03 => Some(ConsoleIndicator::SuperGameBoy),
            _ => None,
        }
    }

    /// Reads the byte `value`, which stands for a value.
    pub fn from_u8(value: u8) -> (r: ConsoleIndicator)
        requires
            ConsoleIndicator::parse(value) is Some,
        ensures
            ConsoleIndicator::parse(value) == Some(r),
    {
        if value == 0x00 {
            ConsoleIndicator::GameBoy
        } else {
            ConsoleIndicator::SuperGameBoy
        }
    }
}

/// What the cartridge holds besides its first ROM bank: a bank controller,
/// RAM, a battery, a clock.
#[derive(Clone, Copy, Debug, PartialEq, Eq, Structural)]
pub enum CartType {
    RomOnly,
    RomMbc1,
    RomMbc1Ram,
    RomMbc1RamBatt,
    RomMbc2,
    RomMbc2Batt,
    RomRam,
    RomRamBatt,
    RomMmmo1,
    RomMmmo1Sram,
    RomMmmo1SramBatt,
    RomMbc3TimerBatt,
    RomMbc3TimerRamBatt,
    RomMbc3,
    RomMbc3Ram,
    RomMbc3RamBatt,
    RomMbc5,
    RomMbc5Ram,
    RomMbc5RamBatt,
    RomMbc5Rumble,
    RomMbc5RumbleSram,
    RomMbc5RumbleSramBatt,
    PocketCamera,
    BandaiTama5,
    HudsonHuC3,
    HudsonHuC1,
}

impl CartType {
    /// The cartridge type that the byte `value` stands for, if it stands for
    /// one. Twenty-two bytes do.
    pub open spec fn parse(value: u8) -> Option<CartType> {
        match value {
            0x01 => Some(CartType::RomOnly),
            0x02 => Some(CartType::RomMbc1),
            0x03 => Some(CartType::RomMbc1Ram),
            0x05 => Some(CartType::RomMbc1RamBatt),
            0x06 => Some(CartType::RomMbc2),
            0x08 => Some(CartType::RomMbc2Batt),
            0x09 => Some(CartType::RomRam),
            0x0B => Some(CartType::RomRamBatt),
            0x0C => Some(CartType::RomMmmo1),
            0x0D => Some(CartType::RomMmmo1Sram),
            0x0F => Some(CartType::RomMmmo1SramBatt),
            0x10 => Some(CartType::RomMbc3TimerBatt),
            0x11 => Some(CartType::RomMbc3TimerRamBatt),
            0x12 => Some(CartType::RomMbc3),
            0x13 => Some(CartType::RomMbc3Ram),
            0x19 => Some(CartType::RomMbc3RamBatt),
            0x1A => Some(CartType::RomMbc5),
            0x1B => Some(CartType::RomMbc5Ram),
            0x1C => Some(CartType::RomMbc5RamBatt),
            0x1D => Some(CartType::RomMbc5Rumble),
            0x1E => Some(CartType::RomMbc5RumbleSram),
            0x1F => Some(CartType::RomMbc5RumbleSramBatt),
            _ => None,
        }
    }

    /// Reads the byte `value`, or finds that it stands for no value.
    pub fn try_from_u8(value: u8) -> (r: Option<CartType>)
        ensures
            r == CartType::parse(value),
    {
        match value {
            0x01 => Some(CartType::RomOnly),
            0x02 => Some(CartType::RomMbc1),
            0x03 => Some(CartType::RomMbc1Ram),
            0x05 => Some(CartType::RomMbc1RamBatt),
            0x06 => Some(CartType::RomMbc2),
            0x08 => Some(CartType::RomMbc2Batt),
            0x09 => Some(CartType::RomRam),
            0x0B => Some(CartType::RomRamBatt),
            0x0C => Some(CartType::RomMmmo1),
            0x0D => Some(CartType::RomMmmo1Sram),
            0x0F => Some(CartType::RomMmmo1SramBatt),
            0x10 => Some(CartType::RomMbc3TimerBatt),
            0x11 => Some(CartType::RomMbc3TimerRamBatt),
            0x12 => Some(CartType::RomMbc3),
            0x13 => Some(CartType::RomMbc3Ram),
            0x19 => Some(CartType::RomMbc3RamBatt),
            0x1A => Some(CartType::RomMbc5),
            0x1B => Some(CartType::RomMbc5Ram),
            0x1C => Some(CartType::RomMbc5RamBatt),
            0x1D => Some(CartType::RomMbc5Rumble),
            0x1E => Some(CartType::RomMbc5RumbleSram),
            0x1F => Some(CartType::RomMbc5RumbleSramBatt),
            _ => None,
        }
    }

    /// Reads the byte `value`, which stands for a value.
    pub fn from_u8(value: u8) -> (r: CartType)
        requires
            CartType::parse(value) is Some,
        ensures
            CartType::parse(value) == Some(r),
    {
        let parsed = CartType::try_from_u8(value);
        parsed.unwrap()
    }
}

/// The size of the cartridge's ROM, in units of 1024 bytes.
#[derive(Clone, Copy, Debug, PartialEq, Eq, Structural)]
pub struct RomSize(pub u32);

impl RomSize {
    /// The size that the byte `value` stands for, if it stands for one: 32
    /// units for 0, and twice as much with each step up to 6.
    pub open spec fn parse(value: u8) -> Option<RomSize> {
        match value {
            0 => Some(RomSize(32)),
            1 => Some(RomSize(64)),
            2 => Some(RomSize(128)),
            3 => Some(RomSize(256)),
            4 => Some(RomSize(512)),
            5 => Some(RomSize(1024)),
            6 => Some(RomSize(2048)),
            _ => None,
        }
    }

    /// Reads the byte `value`, or finds that it stands for no value.
    pub fn try_from_u8(value: u8) -> (r: Option<RomSize>)
        ensures
            r == RomSize::parse(value),
    {
        if value <= 6 {
            Some(RomSize::from_u8(value))
        } else {
            None
        }
    }

    /// Reads the byte `value`, which stands for a value.
    pub fn from_u8(value: u8) -> (r: RomSize)
        requires
            RomSize::parse(value) is Some,
        ensures
            RomSize::parse(value) == Some(r),
    {
        let shift: u32 = 5 + value as u32;
        assert(value <= 6 ==> 1u32 << (5 + value as u32) == (if value == 0 {
            32u32
        } else if value == 1 {
            64u32
        } else if value == 2 {
            128u32
        } else if value == 3 {
            256u32
        } else if value == 4 {
            512u32
        } else if value == 5 {
            1024u32
        } else {
            2048u32
        })) by (bit_vector);
        RomSize(1u32 << shift)
    }
}

/// The size of the cartridge's RAM, in units of 1024 bytes.
#[derive(Clone, Copy, Debug, PartialEq, Eq, Structural)]
pub struct RamSize(pub u32);

impl RamSize {
    /// The size that the byte `value` stands for, if it stands for one.
    pub open spec fn parse(value: u8) -> Option<RamSize> {
        match value {
            0 => Some(RamSize(0)),
            1 => Some(RamSize(2)),
            2 => Some(RamSize(8)),
            3 => Some(RamSize(32)),
            4 => Some(RamSize(128)),
            _ => None,
        }
    }

    /// Reads the byte `value`, or finds that it stands for no value.
    pub fn try_from_u8(value: u8) -> (r: Option<RamSize>)
        ensures
            r == RamSize::parse(value),
    {
        match value {
            0 => Some(RamSize(0)),
            1 => Some(RamSize(2)),
            2 => Some(RamSize(8)),
            3 => Some(RamSize(32)),
            4 => Some(RamSize(128)),
            _ => None,
        }
    }

    /// Reads the byte `value`, which stands for a value.
    pub fn from_u8(value: u8) -> (r: RamSize)
        requires
            RamSize::parse(value) is Some,
        ensures
            RamSize::parse(value) == Some(r),
    {
        let parsed = RamSize::try_from_u8(value);
        parsed.unwrap()
    }
}

/// Where the cartridge was sold.
#[derive(Clone, Copy, Debug, PartialEq, Eq, Structural)]
pub enum DestinationCode {
    Japanese,
    NonJapanese,
}

impl DestinationCode {
    /// The destination that the byte `value` stands for, if it stands for one.
    pub open spec fn parse(value: u8) -> Option<DestinationCode> {
        if value == 0 {
            Some(DestinationCode::Japanese)
        } else if value == 1 {
            Some(DestinationCode::NonJapanese)
        } else {
            None
        }
    }

    /// Reads the byte `value`, or finds that it stands for no value.
    pub fn try_from_u8(value: u8) -> (r: Option<DestinationCode>)
        ensures
            r == DestinationCode::parse(value),
    {
        match value {
            0 => Some(DestinationCode::Japanese),
            1 => Some(DestinationCode::NonJapanese),
            _ => None,
        }
    }

    /// Reads the byte `value`, which stands for a value.
    pub fn from_u8(value: u8) -> (r: DestinationCode)
        requires
            DestinationCode::parse(value) is Some,
        ensures
            DestinationCode::parse(value) == Some(r),
    {
        if value == 0 {
            DestinationCode::Japanese
        } else {
            DestinationCode::NonJapanese
        }
    }
}

/// The licensee, in the header's older one-byte form.
#[derive(Clone, Copy, Debug, PartialEq, Eq, Structural)]
pub enum OldLicenseeCode {
    CheckLicenseeCode,
    Accolade,
    Konami,
}

impl OldLicenseeCode {
    /// The licensee that the byte `value` stands for, if it stands for one.
    pub open spec fn parse(value: u8) -> Option<OldLicenseeCode> {
        if value == 0x33 {
            Some(OldLicenseeCode::CheckLicenseeCode)
        } else if value == 0x79 {
            Some(OldLicenseeCode::Accolade)
        } else if value == 0xA4 {
            Some(OldLicenseeCode::Konami)
        } else {
            None
        }
    }

    /// Reads the byte `value`, or finds that it stands for no value.
    pub fn try_from_u8(value: u8) -> (r: Option<OldLicenseeCode>)
        ensures
            r == OldLicenseeCode::parse(value),
    {
        match value {
            0x33 => Some(OldLicenseeCode::CheckLicenseeCode),
            0x79 => Some(OldLicenseeCode::Accolade),
            0xA4 => Some(OldLicenseeCode::Konami),
            _ => None,
        }
    }

    /// Reads the byte `value`, which stands for a value.
    pub fn from_u8(value: u8) -> (r: OldLicenseeCode)
        requires
            OldLicenseeCode::parse(value) is Some,
        ensures
            OldLicenseeCode::parse(value) == Some(r),
    {
        let parsed = OldLicenseeCode::try_from_u8(value);
        parsed.unwrap()
    }
}

/// The header of a cartridge image, field by field.
#[derive(Clone, Copy, Debug)]
pub struct CartHeader {
    pub entry_point: [u8; 4],
    pub nintendo_graphic: [u8; 48],
    pub title: [u8; 16],
    pub color_type: CartColorType,
    pub licensee: u16,
    pub console_indicator: ConsoleIndicator,
    pub cart_type: CartType,
    pub rom_size: RomSize,
    pub ram_size: RamSize,
    pub destination_code: DestinationCode,
    pub old_licensee_code: OldLicenseeCode,
    pub mask_rom_version: u8,
    pub compliment_check: u8,
    pub checksum: u16,
}

impl CartHeader {
    /// Whether `data` is long enough to hold a header and each coded field of
    /// that header holds a byte that stands for a value.
    pub open spec fn valid_image(data: Seq<u8>) -> bool {
        &&& data.len() >= 0x150
        &&& ConsoleIndicator::parse(data[0x146]) is Some
        &&& CartType::parse(data[0x147]) is Some
        &&& RomSize::parse(data[0x148]) is Some
        &&& RamSize::parse(data[0x149]) is Some
        &&& DestinationCode::parse(data[0x14A]) is Some
        &&& OldLicenseeCode::parse(data[0x14B]) is Some
    }

    /// Whether this header is the one that the image `data` holds, field by
    /// field. The two 16-bit fields are stored upper byte first.
    pub open spec fn describes(self, data: Seq<u8>) -> bool {
        &&& self.entry_point@ == data.subrange(0x100, 0x104)
        &&& self.nintendo_graphic@ == NINTENDO_GRAPHIC@
        &&& self.title@ == data.subrange(0x134, 0x144)
        &&& self.color_type == CartColorType::parse(data[0x143])
        &&& self.licensee == word(data[0x144], data[0x145])
        &&& Some(self.console_indicator) == ConsoleIndicator::parse(data[0x146])
        &&& Some(self.cart_type) == CartType::parse(data[0x147])
        &&& Some(self.rom_size) == RomSize::parse(data[0x148])
        &&& Some(self.ram_size) == RamSize::parse(data[0x149])
        &&& Some(self.destination_code) == DestinationCode::parse(data[0x14A])
        &&& Some(self.old_licensee_code) == OldLicenseeCode::parse(data[0x14B])
        &&& self.mask_rom_version == data[0x14C]
        &&& self.compliment_check == data[0x14D]
        &&& self.checksum == word(data[0x14E], data[0x14F])
    }

    /// Reads the header of the image `data`, or finds that it holds none.
    pub fn parse(data: &[u8]) -> (r: Option<CartHeader>)
        ensures
            r is Some <==> CartHeader::valid_image(data@),
            r is Some ==> r.unwrap().describes(data@),
    {
        if data.len() < 0x150 {
            return None;
        }
        let console_indicator = match ConsoleIndicator::try_from_u8(data[0x146]) {
            Some(v) => v,
            None => {
                return None;
            },
        };
        let cart_type = match CartType::try_from_u8(data[0x147]) {
            Some(v) => v,
            None => {
                return None;
            },
        };
        let rom_size = match RomSize::try_from_u8(data[0x148]) {
            Some(v) => v,
            None => {
                return None;
            },
        };
        let ram_size = match RamSize::try_from_u8(data[0x149]) {
            Some(v) => v,
            None => {
                return None;
            },
        };
        let destination_code = match DestinationCode::try_from_u8(data[0x14A]) {
            Some(v) => v,
            None => {
                return None;
            },
        };
        let old_licensee_code = match OldLicenseeCode::try_from_u8(data[0x14B]) {
            Some(v) => v,
            None => {
                return None;
            },
        };
        let mut entry_point: [u8; 4] = [0u8; 4];
        let mut i: usize = 0;
        while i < 4
            invariant
                data@.len() >= 0x150,
                i <= 4,
                forall|k: int| 0 <= k < i ==> entry_point@[k] == data@[0x100 + k],
            decreases 4 - i,
        {
            entry_point[i] = data[0x100 + i];
            i += 1;
        }
        let mut title: [u8; 16] = [0u8; 16];
        let mut j: usize = 0;
        while j < 16
            invariant
                data@.len() >= 0x150,
                j <= 16,
                forall|k: int| 0 <= k < j ==> title@[k] == data@[0x134 + k],
            decreases 16 - j,
        {
            title[j] = data[0x134 + j];
            j += 1;
        }
        let header = CartHeader {
            entry_point,
            nintendo_graphic: NINTENDO_GRAPHIC,
            title,
            color_type: CartColorType::from(data[0x143]),
            licensee: make_word(data[0x144], data[0x145]),
            console_indicator,
            cart_type,
            rom_size,
            ram_size,
            destination_code,
            old_licensee_code,
            mask_rom_version: data[0x14C],
            compliment_check: data[0x14D],
            checksum: make_word(data[0x14E], data[0x14F]),
        };
        assert(header.entry_point@ =~= data@.subrange(0x100, 0x104));
        assert(header.title@ =~= data@.subrange(0x134, 0x144));
        Some(header)
    }

    /// Reads the header of the image `data`.
    pub fn new(data: &[u8]) -> (r: CartHeader)
        requires
            CartHeader::valid_image(data@),
        ensures
            r.describes(data@),
    {
        let parsed = CartHeader::parse(data);
        parsed.unwrap()
    }
}

} // verus!

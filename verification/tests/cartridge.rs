use gbcore::mem::cart::types::CartColorType;
use gbcore::mem::cart::types::CartHeader;
use gbcore::mem::cart::types::CartType;
use gbcore::mem::cart::types::ConsoleIndicator;
use gbcore::mem::cart::types::DestinationCode;
use gbcore::mem::cart::types::OldLicenseeCode;
use gbcore::mem::cart::types::RamSize;
use gbcore::mem::cart::types::RomSize;
use gbcore::mem::cart::Cart;
use gbcore::mem::cart::NINTENDO_GRAPHIC;
use gbcore::mem::controller::Controller;

fn image() -> Vec<u8> {
    let mut data = vec![0u8; 0x8000];
    for i in 0..0x50 {
        data[0x100 + i] = i as u8 + 1;
    }
    data[0x143] = 0x80;
    data[0x144] = 0x30;
    data[0x145] = 0x31;
    data[0x146] = 0x03;
    data[0x147] = 0x02;
    data[0x148] = 0x03;
    data[0x149] = 0x02;
    data[0x14A] = 0x01;
    data[0x14B] = 0x79;
    data[0x14C] = 0x07;
    data[0x14D] = 0xE7;
    data[0x14E] = 0xBE;
    data[0x14F] = 0xEF;
    data
}

#[test]
fn header_fields_come_from_their_places() {
    let data = image();
    let header = CartHeader::new(&data);
    assert_eq!(header.entry_point, [0x01, 0x02, 0x03, 0x04]);
    assert_eq!(header.nintendo_graphic, NINTENDO_GRAPHIC);
    let mut title = [0u8; 16];
    title.copy_from_slice(&data[0x134..0x144]);
    assert_eq!(header.title, title);
    assert_eq!(header.title[0], 0x35);
    assert_eq!(header.title[15], 0x80);
    assert_eq!(header.color_type, CartColorType::GameBoyColor);
    assert_eq!(header.licensee, 0x3031);
    assert_eq!(header.console_indicator, ConsoleIndicator::SuperGameBoy);
    assert_eq!(header.cart_type, CartType::RomMbc1);
    assert_eq!(header.rom_size, RomSize(256));
    assert_eq!(header.ram_size, RamSize(8));
    assert_eq!(header.destination_code, DestinationCode::NonJapanese);
    assert_eq!(header.old_licensee_code, OldLicenseeCode::Accolade);
    assert_eq!(header.mask_rom_version, 0x07);
    assert_eq!(header.compliment_check, 0xE7);
    assert_eq!(header.checksum, 0xBEEF);
}

#[test]
fn parse_accepts_what_new_accepts() {
    let data = image();
    let parsed = CartHeader::parse(&data);
    assert!(parsed.is_some());
    let parsed = parsed.unwrap();
    let header = CartHeader::new(&data);
    assert_eq!(parsed.licensee, header.licensee);
    assert_eq!(parsed.cart_type, header.cart_type);
    assert_eq!(parsed.checksum, header.checksum);
}

#[test]
fn parse_rejects_a_short_image() {
    let data = image();
    assert!(CartHeader::parse(&data[..0x14F]).is_none());
    assert!(CartHeader::parse(&data[..0x150]).is_some());
    assert!(CartHeader::parse(&[]).is_none());
}

#[test]
fn parse_rejects_each_bad_field() {
    for (place, bad) in [
        (0x146usize, 0x01u8),
        (0x147, 0x00),
        (0x147, 0xFD),
        (0x148, 0x07),
        (0x148, 0x52),
        (0x149, 0x05),
        (0x14A, 0x02),
        (0x14B, 0x00),
    ] {
        let mut data = image();
        data[place] = bad;
        assert!(CartHeader::parse(&data).is_none());
    }
}

#[test]
fn colour_type_is_total() {
    assert_eq!(CartColorType::from(0x80), CartColorType::GameBoyColor);
    assert_eq!(CartColorType::from(0x00), CartColorType::Other);
    assert_eq!(CartColorType::from(0xC0), CartColorType::Other);
    assert_eq!(CartColorType::from(0xFF), CartColorType::Other);
}

#[test]
fn console_indicator_codes() {
    assert_eq!(ConsoleIndicator::try_from_u8(0x00), Some(ConsoleIndicator::GameBoy));
    assert_eq!(ConsoleIndicator::try_from_u8(0x03), Some(ConsoleIndicator::SuperGameBoy));
    assert_eq!(ConsoleIndicator::try_from_u8(0x01), None);
    assert_eq!(ConsoleIndicator::try_from_u8(0xFF), None);
    assert_eq!(ConsoleIndicator::from_u8(0x00), ConsoleIndicator::GameBoy);
    assert_eq!(ConsoleIndicator::from_u8(0x03), ConsoleIndicator::SuperGameBoy);
}

#[test]
fn cart_type_codes() {
    let table = [
        (0x01u8, CartType::RomOnly),
        (0x02, CartType::RomMbc1),
        (0x03, CartType::RomMbc1Ram),
        (0x05, CartType::RomMbc1RamBatt),
        (0x06, CartType::RomMbc2),
        (0x08, CartType::RomMbc2Batt),
        (0x09, CartType::RomRam),
        (0x0B, CartType::RomRamBatt),
        (0x0C, CartType::RomMmmo1),
        (0x0D, CartType::RomMmmo1Sram),
        (0x0F, CartType::RomMmmo1SramBatt),
        (0x10, CartType::RomMbc3TimerBatt),
        (0x11, CartType::RomMbc3TimerRamBatt),
        (0x12, CartType::RomMbc3),
        (0x13, CartType::RomMbc3Ram),
        (0x19, CartType::RomMbc3RamBatt),
        (0x1A, CartType::RomMbc5),
        (0x1B, CartType::RomMbc5Ram),
        (0x1C, CartType::RomMbc5RamBatt),
        (0x1D, CartType::RomMbc5Rumble),
        (0x1E, CartType::RomMbc5RumbleSram),
        (0x1F, CartType::RomMbc5RumbleSramBatt),
    ];
    let mut known = 0;
    for value in 0u8..=255 {
        let found = table.iter().find(|(code, _)| *code == value).map(|(_, t)| *t);
        assert_eq!(CartType::try_from_u8(value), found);
        if let Some(t) = found {
            assert_eq!(CartType::from_u8(value), t);
            known += 1;
        }
    }
    assert_eq!(known, 22);
}

#[test]
fn rom_size_doubles_with_each_code() {
    let sizes = [32u32, 64, 128, 256, 512, 1024, 2048];
    for (code, size) in sizes.iter().enumerate() {
        assert_eq!(RomSize::from_u8(code as u8), RomSize(*size));
        assert_eq!(RomSize::try_from_u8(code as u8), Some(RomSize(*size)));
    }
    for code in [7u8, 0x52, 0x53, 0x54, 0xFF] {
        assert_eq!(RomSize::try_from_u8(code), None);
    }
}

#[test]
fn ram_size_codes() {
    let sizes = [0u32, 2, 8, 32, 128];
    for (code, size) in sizes.iter().enumerate() {
        assert_eq!(RamSize::from_u8(code as u8), RamSize(*size));
        assert_eq!(RamSize::try_from_u8(code as u8), Some(RamSize(*size)));
    }
    assert_eq!(RamSize::try_from_u8(5), None);
    assert_eq!(RamSize::try_from_u8(0xFF), None);
}

#[test]
fn destination_codes() {
    assert_eq!(DestinationCode::from_u8(0), DestinationCode::Japanese);
    assert_eq!(DestinationCode::from_u8(1), DestinationCode::NonJapanese);
    assert_eq!(DestinationCode::try_from_u8(0), Some(DestinationCode::Japanese));
    assert_eq!(DestinationCode::try_from_u8(1), Some(DestinationCode::NonJapanese));
    assert_eq!(DestinationCode::try_from_u8(2), None);
}

#[test]
fn old_licensee_codes() {
    assert_eq!(OldLicenseeCode::from_u8(0x33), OldLicenseeCode::CheckLicenseeCode);
    assert_eq!(OldLicenseeCode::from_u8(0x79), OldLicenseeCode::Accolade);
    assert_eq!(OldLicenseeCode::from_u8(0xA4), OldLicenseeCode::Konami);
    assert_eq!(OldLicenseeCode::try_from_u8(0x33), Some(OldLicenseeCode::CheckLicenseeCode));
    assert_eq!(OldLicenseeCode::try_from_u8(0x00), None);
    assert_eq!(OldLicenseeCode::try_from_u8(0x34), None);
}

#[test]
fn cart_keeps_its_image() {
    let data = image();
    let cart = Cart::new(data.clone());
    assert_eq!(cart.data, data);
    assert_eq!(cart.data_len, 0x8000);
    assert_eq!(cart.header.cart_type, CartType::RomMbc1);
    assert_eq!(cart.header.checksum, 0xBEEF);
}

#[test]
fn controller_of_the_first_kind_only() {
    for t in [CartType::RomMbc1, CartType::RomMbc1Ram, CartType::RomMbc1RamBatt] {
        assert_eq!(Controller::try_from_cart_type(t), Some(Controller::MBC1));
        assert_eq!(Controller::from_cart_type(t), Controller::MBC1);
    }
    for t in [
        CartType::RomOnly,
        CartType::RomMbc2,
        CartType::RomRam,
        CartType::RomMbc3,
        CartType::RomMbc5,
        CartType::PocketCamera,
        CartType::HudsonHuC1,
    ] {
        assert_eq!(Controller::try_from_cart_type(t), None);
    }
}

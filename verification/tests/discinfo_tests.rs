use netdump_client::discinfo::{
    decode_disc_info, decode_disc_type, trim_trailing_nuls, DecodeError, DiscTypes, DISC_INFO_LEN,
    GAME_NAME_LEN, INTERNAL_NAME_LEN,
};

fn payload(disc_type: u8, game_name: &[u8], internal_name: &[u8]) -> Vec<u8> {
    assert!(game_name.len() <= GAME_NAME_LEN);
    assert!(internal_name.len() <= INTERNAL_NAME_LEN);
    let mut p = vec![disc_type];
    p.extend_from_slice(game_name);
    p.resize(1 + GAME_NAME_LEN, 0);
    p.extend_from_slice(internal_name);
    p.resize(DISC_INFO_LEN, 0);
    p
}

#[test]
fn disc_type_bytes_map_in_order() {
    assert_eq!(decode_disc_type(0x00), Ok(DiscTypes::GC));
    assert_eq!(decode_disc_type(0x01), Ok(DiscTypes::WiiSingleSided));
    assert_eq!(decode_disc_type(0x02), Ok(DiscTypes::WiiDoubleSided));
    assert_eq!(decode_disc_type(0x03), Err(DecodeError::OutOfRangeDiscType));
    assert_eq!(decode_disc_type(0xFF), Err(DecodeError::OutOfRangeDiscType));
}

#[test]
fn name_field_drops_only_trailing_nuls() {
    // a 32-byte field "MARIO" + 27 NUL bytes decodes to exactly "MARIO"
    let p = payload(0, b"MARIO", b"");
    let info = decode_disc_info(&p).unwrap();
    assert_eq!(info.game_name, "MARIO");
    assert_eq!(info.internal_name, "");
    assert_eq!(info.disc_type, DiscTypes::GC);
}

#[test]
fn embedded_nuls_are_preserved() {
    let p = payload(1, b"MA\0RIO", b"disc\0one");
    let info = decode_disc_info(&p).unwrap();
    assert_eq!(info.game_name, "MA\0RIO");
    assert_eq!(info.internal_name, "disc\0one");
    assert_eq!(info.disc_type, DiscTypes::WiiSingleSided);
}

#[test]
fn out_of_range_type_byte_is_a_decode_error() {
    let p = payload(3, b"MARIO", b"x");
    assert_eq!(decode_disc_info(&p).unwrap_err(), DecodeError::OutOfRangeDiscType);
}

#[test]
fn invalid_utf8_is_a_decode_error() {
    // 0xFF is never valid UTF-8
    let p = payload(0, &[0x4d, 0xff, 0x4d], b"ok");
    assert_eq!(decode_disc_info(&p).unwrap_err(), DecodeError::InvalidText);

    let p = payload(0, b"ok", &[0xc3, 0x28]);
    assert_eq!(decode_disc_info(&p).unwrap_err(), DecodeError::InvalidText);
}

#[test]
fn type_byte_is_checked_before_the_names() {
    let p = payload(9, &[0xff], &[0xff]);
    assert_eq!(decode_disc_info(&p).unwrap_err(), DecodeError::OutOfRangeDiscType);
}

#[test]
fn multibyte_utf8_names_decode() {
    let p = payload(2, "PokéPark".as_bytes(), "ポケパーク".as_bytes());
    let info = decode_disc_info(&p).unwrap();
    assert_eq!(info.game_name, "PokéPark");
    assert_eq!(info.internal_name, "ポケパーク");
    assert_eq!(info.disc_type, DiscTypes::WiiDoubleSided);
}

#[test]
fn trim_keeps_everything_before_the_last_non_nul() {
    assert_eq!(trim_trailing_nuls(&vec![1, 0, 2, 0, 0]), vec![1, 0, 2]);
    assert_eq!(trim_trailing_nuls(&vec![0, 0, 0]), Vec::<u8>::new());
    assert_eq!(trim_trailing_nuls(&Vec::new()), Vec::<u8>::new());
    assert_eq!(trim_trailing_nuls(&vec![5]), vec![5]);
}

#[test]
fn disc_type_labels() {
    assert_eq!(DiscTypes::GC.label(), "GameCube");
    assert_eq!(DiscTypes::WiiSingleSided.label(), "Wii Single-Sided");
    assert_eq!(DiscTypes::WiiDoubleSided.label(), "Wii Double-Sided");
}

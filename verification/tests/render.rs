use romulan::render::{hexdump, u16_decimal};

#[test]
fn decimal_rendering() {
    assert_eq!(u16_decimal(0), "0");
    assert_eq!(u16_decimal(7), "7");
    assert_eq!(u16_decimal(10), "10");
    assert_eq!(u16_decimal(409), "409");
    assert_eq!(u16_decimal(65535), "65535");
}

#[test]
fn hexdump_empty() {
    assert_eq!(hexdump(&[]), "");
}

#[test]
fn hexdump_one_line() {
    assert_eq!(hexdump(&[0x00, 0xAB, 0x5F]), "00 AB 5F\n");
}

#[test]
fn hexdump_chunks_of_sixteen() {
    let data: Vec<u8> = (0u8..17).collect();
    assert_eq!(
        hexdump(&data),
        "00 01 02 03 04 05 06 07 08 09 0A 0B 0C 0D 0E 0F\n10\n",
    );
}

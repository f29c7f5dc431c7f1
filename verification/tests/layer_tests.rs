use rusty_pew_pew::layer::decode_layer_data;
use rusty_pew_pew::layer::extract_tile_bytes;
use rusty_pew_pew::layer::parse_color;

/// A zlib stream holding `data` in one stored (uncompressed) deflate block.
fn zlib_stored(data: &[u8]) -> Vec<u8> {
    let mut out = vec![0x78, 0x01];
    let len = data.len() as u16;
    out.push(0x01);
    out.push((len & 0xff) as u8);
    out.push((len >> 8) as u8);
    out.push(!(len & 0xff) as u8 & 0xff);
    out.push((!(len >> 8) & 0xff) as u8);
    out.extend_from_slice(data);
    let mut a: u32 = 1;
    let mut b: u32 = 0;
    for byte in data {
        a = (a + *byte as u32) % 65521;
        b = (b + a) % 65521;
    }
    let adler = (b << 16) | a;
    out.push((adler >> 24) as u8);
    out.push((adler >> 16) as u8);
    out.push((adler >> 8) as u8);
    out.push(adler as u8);
    out
}

#[test]
fn test_decode_layer_data_reads_the_low_byte_of_each_tile_id() {
    //two little-endian 32-bit tile ids: 3 and 260 (low byte 4)
    let raw = [3u8, 0, 0, 0, 4, 1, 0, 0];
    let text = base64::encode(zlib_stored(&raw));

    let tiles = decode_layer_data(&text).unwrap();

    assert_eq!(tiles, vec![3, 4]);
}

#[test]
fn test_decode_layer_data_rejects_bad_base64_and_bad_zlib() {
    assert_eq!(decode_layer_data("not valid base64!!!"), None);
    //valid base64 of bytes that are no zlib stream
    let text = base64::encode([1u8, 2, 3, 4]);
    assert_eq!(decode_layer_data(&text), None);
}

#[test]
fn test_extract_tile_bytes_keeps_every_fourth_byte() {
    assert_eq!(extract_tile_bytes(&vec![]), Vec::<u8>::new());
    assert_eq!(extract_tile_bytes(&vec![7, 0, 0, 0]), vec![7]);
    assert_eq!(extract_tile_bytes(&vec![7, 0, 0, 0, 9, 1]), vec![7, 9]);
    assert_eq!(
        extract_tile_bytes(&vec![1, 2, 3, 4, 5, 6, 7, 8, 9]),
        vec![1, 5, 9]
    );
}

#[test]
fn test_parse_color_reads_rgb_bytes() {
    assert_eq!(parse_color("#022D9B"), Some((2, 45, 155)));
    assert_eq!(parse_color("#ffffff"), Some((255, 255, 255)));
    assert_eq!(parse_color("#000000"), Some((0, 0, 0)));
}

#[test]
fn test_parse_color_rejects_malformed_text() {
    assert_eq!(parse_color(""), None);
    assert_eq!(parse_color("022D9B"), None);
    assert_eq!(parse_color("#022D9"), None);
    assert_eq!(parse_color("#022D9BB"), None);
    assert_eq!(parse_color("#02zD9B"), None);
}

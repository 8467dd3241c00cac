use ha_bus_node::crc::{CRC8Autosar, CRC, CRC8_AUTOSAR_INIT};

fn crc8_of(data: &[u8]) -> u8 {
    let mut c = CRC8Autosar::new();
    c.update(data);
    c.finalize()
}

#[test]
fn crc8_autosar_check_value() {
    assert_eq!(crc8_of(b"123456789"), 0xdf);
}

#[test]
fn crc8_autosar_empty_input() {
    assert_eq!(crc8_of(&[]), CRC8_AUTOSAR_INIT ^ 0xff);
    assert_eq!(crc8_of(&[]), 0x00);
}

#[test]
fn crc8_finalize_is_repeatable() {
    let mut c = CRC8Autosar::new();
    c.update(&[0xaa, 0x55, 0x01]);
    let first = c.finalize();
    let second = c.finalize();
    assert_eq!(first, second);
    assert_eq!(c.crc ^ 0xff, first);
}

#[test]
fn crc8_update_chunking() {
    let mut one = CRC8Autosar::new();
    one.update(&[0x12, 0x34, 0x56]);
    let mut three = CRC8Autosar::new();
    three.update(&[0x12]);
    three.update(&[0x34]);
    three.update(&[0x56]);
    assert_eq!(one.finalize(), three.finalize());
    let mut split = CRC8Autosar::new();
    split.update(b"1234");
    split.update(b"56789");
    assert_eq!(split.finalize(), 0xdf);
}

#[test]
fn crc8_reset_restores_initial_state() {
    let mut c = CRC8Autosar::new();
    c.update(b"noise");
    c.reset();
    assert_eq!(c.crc, CRC8_AUTOSAR_INIT);
    c.update(b"123456789");
    assert_eq!(c.finalize(), 0xdf);
}

#[test]
fn crc8_detects_every_single_bit_flip() {
    let msg: Vec<u8> = (0u8..20).map(|i| i.wrapping_mul(37)).collect();
    let good = crc8_of(&msg);
    for i in 0..msg.len() {
        for bit in 0..8 {
            let mut bad = msg.clone();
            bad[i] ^= 1 << bit;
            assert_ne!(crc8_of(&bad), good);
        }
    }
}

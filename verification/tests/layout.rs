use farmer_core::states::{encode_config, Identity, ProgramConfig, CONFIG_RECORD_SIZE};

fn record(paused: bool, n_mints: usize) -> ProgramConfig {
    ProgramConfig {
        admin: Identity::filled(1),
        logistics_wallet: Identity::filled(2),
        paused,
        allowed_mints: (0..n_mints).map(|i| Identity::filled(200 + (i as u8))).collect(),
    }
}

#[test]
fn record_size_is_constant_for_0_1_and_50_entries() {
    assert_eq!(CONFIG_RECORD_SIZE, 1677);
    for n in [0, 1, 50] {
        assert_eq!(encode_config(&record(false, n)).len(), CONFIG_RECORD_SIZE);
    }
}

#[test]
fn encoding_lays_fields_out_in_order() {
    let bytes = encode_config(&record(true, 2));
    assert_eq!(&bytes[0..8], &[196, 210, 90, 231, 144, 149, 140, 63]);
    assert_eq!(&bytes[8..40], &[1u8; 32]);
    assert_eq!(&bytes[40..72], &[2u8; 32]);
    assert_eq!(bytes[72], 1);
    assert_eq!(&bytes[73..77], &[2, 0, 0, 0]);
    assert_eq!(&bytes[77..109], &[200u8; 32]);
    assert_eq!(&bytes[109..141], &[201u8; 32]);
    assert!(bytes[141..].iter().all(|&b| b == 0));
}

#[test]
fn paused_flag_is_one_byte() {
    let bytes = encode_config(&record(false, 0));
    assert_eq!(bytes[72], 0);
    assert!(bytes[73..].iter().all(|&b| b == 0));
}

#[test]
fn length_prefix_is_little_endian() {
    let bytes = encode_config(&record(false, 50));
    assert_eq!(&bytes[73..77], &[50, 0, 0, 0]);
}

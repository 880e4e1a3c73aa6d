use framecore::storage::{
    _get_appkey, decode_rotation, homescreen_accepted, is_initialized_entry, is_valid_rotation,
    label_accepted, passphrase_enable_writes, storagedevice_storage_get_bool,
    storagedevice_storage_get_u16, storagedevice_storage_get_u8, storagedevice_storage_set_bool,
    storagedevice_storage_set_u16, storagedevice_storage_set_u8,
};

#[test]
fn get_appkey() {
    let result = _get_appkey(0x11, false);
    assert_eq!(result, 0x0111);
}

#[test]
fn get_appkey_public() {
    let result = _get_appkey(0x11, true);
    assert_eq!(result, 0x8111);
}

#[test]
fn get_bool_reads_single_true_byte() {
    assert!(storagedevice_storage_get_bool(&vec![0x01]));
    assert!(!storagedevice_storage_get_bool(&vec![0x00]));
    assert!(!storagedevice_storage_get_bool(&vec![]));
    assert!(!storagedevice_storage_get_bool(&vec![0x01, 0x01]));
    assert!(!storagedevice_storage_get_bool(&vec![0x02]));
}

#[test]
fn get_u16_reads_two_big_endian_bytes() {
    assert_eq!(storagedevice_storage_get_u16(&vec![0x12, 0x34]), Some(0x1234));
    assert_eq!(storagedevice_storage_get_u16(&vec![]), None);
    assert_eq!(storagedevice_storage_get_u16(&vec![0x12]), None);
    assert_eq!(storagedevice_storage_get_u16(&vec![0x12, 0x34, 0x56]), None);
}

#[test]
fn get_u8_reads_one_byte() {
    assert_eq!(storagedevice_storage_get_u8(&vec![0x7F]), Some(0x7F));
    assert_eq!(storagedevice_storage_get_u8(&vec![]), None);
    assert_eq!(storagedevice_storage_get_u8(&vec![0x01, 0x02]), None);
}

#[test]
fn set_bool_encodes_one_byte() {
    assert_eq!(storagedevice_storage_set_bool(true), vec![0x01]);
    assert_eq!(storagedevice_storage_set_bool(false), vec![0x00]);
}

#[test]
fn set_u8_encodes_one_byte() {
    assert_eq!(storagedevice_storage_set_u8(0xAB), vec![0xAB]);
}

#[test]
fn set_u16_encodes_big_endian() {
    assert_eq!(storagedevice_storage_set_u16(0x1234), vec![0x12, 0x34]);
    assert_eq!(storagedevice_storage_set_u16(90), vec![0x00, 90]);
}

#[test]
fn bool_survives_storage_round_trip() {
    for val in [false, true] {
        let stored = storagedevice_storage_set_bool(val);
        assert_eq!(storagedevice_storage_get_bool(&stored), val);
    }
}

#[test]
fn u16_survives_storage_round_trip() {
    for val in [0u16, 1, 90, 270, 0xFFFF] {
        let stored = storagedevice_storage_set_u16(val);
        assert_eq!(storagedevice_storage_get_u16(&stored), Some(val));
    }
}

#[test]
fn rotation_decoding_and_validity() {
    assert_eq!(decode_rotation(&vec![]), 0);
    assert_eq!(decode_rotation(&vec![0x00, 90]), 90);
    assert_eq!(decode_rotation(&vec![0x01, 0x0E]), 270);
    assert!(is_valid_rotation(0));
    assert!(is_valid_rotation(90));
    assert!(is_valid_rotation(180));
    assert!(is_valid_rotation(270));
    assert!(!is_valid_rotation(45));
    assert!(!is_valid_rotation(360));
}

#[test]
fn label_and_homescreen_bounds() {
    assert!(label_accepted(0));
    assert!(label_accepted(32));
    assert!(!label_accepted(33));
    assert!(homescreen_accepted(16384));
    assert!(!homescreen_accepted(16385));
}

#[test]
fn disabling_the_passphrase_clears_always_on_device() {
    let on = passphrase_enable_writes(true);
    assert_eq!(on, vec![(0x0105, vec![0x01])]);
    let off = passphrase_enable_writes(false);
    assert_eq!(off, vec![(0x0105, vec![0x00]), (0x010A, vec![0x00])]);
}

#[test]
fn initialized_entry_is_any_nonempty_value() {
    assert!(!is_initialized_entry(&vec![]));
    assert!(is_initialized_entry(&vec![0x00]));
    assert!(is_initialized_entry(&vec![0x01, 0x02]));
}

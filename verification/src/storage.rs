//! Encoding and decoding of device-storage entries.
//!
//! The secure key-value store itself is hardware behind the library's
//! boundary: callers fetch and store raw bytes. These functions compute
//! the keys and translate between typed values and the stored bytes, and
//! carry the validity rules for the entries with bounded sizes.

use vstd::prelude::*;

verus! {

/// Key space of the device application.
const APP_DEVICE: u8 = 0x01;

/// Set on the app byte of keys that are readable without unlocking.
const FLAG_PUBLIC: u8 = 0x80;

/// Longest ordinary entry in storage; the homescreen has its own bound.
pub const MAX_LEN: usize = 300;

pub const HOMESCREEN_MAXSIZE: usize = 16384;

pub const LABEL_MAXLENGTH: u16 = 32;

const FALSE_BYTE: u8 = 0x00;

const TRUE_BYTE: u8 = 0x01;

/// Builds the 16-bit storage key of an app-level field: the app byte —
/// with the public flag when asked for — in the high half, the field key
/// in the low half.
pub fn _get_appkey(key: u8, is_public: bool) -> (r: u16)
    ensures
        r == (if is_public {
            0x8100int
        } else {
            0x0100int
        }) + key,
{
    let app: u8 = if is_public {
        APP_DEVICE | FLAG_PUBLIC
    } else {
        APP_DEVICE
    };
    proof {
        assert(APP_DEVICE | FLAG_PUBLIC == 0x81u8) by (bit_vector);
    }
    (app as u16) * 256 + (key as u16)
}

/// Reads a stored boolean: true exactly when the fetched entry is the
/// single true byte.
pub fn storagedevice_storage_get_bool(fetched: &Vec<u8>) -> (r: bool)
    ensures
        r == (fetched@.len() == 1 && fetched@[0] == 1),
{
    fetched.len() == 1 && fetched[0] == TRUE_BYTE
}

/// Reads a stored 16-bit value: two big-endian bytes, anything else is
/// absent.
pub fn storagedevice_storage_get_u16(fetched: &Vec<u8>) -> (r: Option<u16>)
    ensures
        r.is_some() <==> fetched@.len() == 2,
        r.is_some() ==> r.unwrap() == fetched@[0] * 256 + fetched@[1],
{
    if fetched.len() == 2 {
        Some((fetched[0] as u16) * 256 + (fetched[1] as u16))
    } else {
        None
    }
}

/// Reads a stored 8-bit value: one byte, anything else is absent.
pub fn storagedevice_storage_get_u8(fetched: &Vec<u8>) -> (r: Option<u8>)
    ensures
        r.is_some() <==> fetched@.len() == 1,
        r.is_some() ==> r.unwrap() == fetched@[0],
{
    if fetched.len() == 1 {
        Some(fetched[0])
    } else {
        None
    }
}

/// Encodes a boolean as its single stored byte.
pub fn storagedevice_storage_set_bool(val: bool) -> (r: Vec<u8>)
    ensures
        r@.len() == 1,
        r@[0] == (if val {
            1u8
        } else {
            0u8
        }),
{
    let mut v: Vec<u8> = Vec::new();
    if val {
        v.push(TRUE_BYTE);
    } else {
        v.push(FALSE_BYTE);
    }
    v
}

/// Encodes an 8-bit value as its single stored byte.
pub fn storagedevice_storage_set_u8(val: u8) -> (r: Vec<u8>)
    ensures
        r@.len() == 1,
        r@[0] == val,
{
    let mut v: Vec<u8> = Vec::new();
    v.push(val);
    v
}

/// Encodes a 16-bit value as its two stored bytes, big end first.
pub fn storagedevice_storage_set_u16(val: u16) -> (r: Vec<u8>)
    ensures
        r@.len() == 2,
        r@[0] == val / 256,
        r@[1] == val % 256,
    {
    let mut v: Vec<u8> = Vec::new();
    v.push((val / 256) as u8);
    v.push((val % 256) as u8);
    v
}

/// Reads the stored display rotation: unset means upright, otherwise the
/// two stored big-endian bytes. An entry of a single byte is corrupt and
/// excluded.
pub fn decode_rotation(fetched: &Vec<u8>) -> (r: u16)
    requires
        fetched@.len() == 0 || fetched@.len() >= 2,
    ensures
        fetched@.len() == 0 ==> r == 0,
        fetched@.len() >= 2 ==> r == fetched@[0] * 256 + fetched@[1],
{
    if fetched.len() == 0 {
        0
    } else {
        (fetched[0] as u16) * 256 + (fetched[1] as u16)
    }
}

/// The display rotations the device accepts.
pub fn is_valid_rotation(rotation: u16) -> (r: bool)
    ensures
        r == (rotation == 0 || rotation == 90 || rotation == 180 || rotation == 270),
{
    rotation == 0 || rotation == 90 || rotation == 180 || rotation == 270
}

/// Whether a device label of the given length may be stored.
pub fn label_accepted(len: u16) -> (r: bool)
    ensures
        r == (len <= LABEL_MAXLENGTH),
{
    len <= LABEL_MAXLENGTH
}

/// Whether a homescreen image of the given size may be stored.
pub fn homescreen_accepted(len: usize) -> (r: bool)
    ensures
        r == (len <= HOMESCREEN_MAXSIZE),
{
    len <= HOMESCREEN_MAXSIZE
}

/// Whether a fetched entry marks the device as initialized: any non-empty
/// entry under the initialized key counts.
pub fn is_initialized_entry(fetched: &Vec<u8>) -> (r: bool)
    ensures
        r == (fetched@.len() > 0),
{
    fetched.len() > 0
}

/// Field key of the passphrase switch.
pub const KEY_USE_PASSPHRASE: u8 = 0x05;

/// Field key of the passphrase-always-on-device switch.
pub const KEY_PASSPHRASE_ALWAYS_ON_DEVICE: u8 = 0x0A;

/// The stored writes that switching the passphrase performs: the switch
/// itself, and — when the passphrase is being disabled — the
/// always-on-device switch is cleared along with it.
pub fn passphrase_enable_writes(enable: bool) -> (w: Vec<(u16, Vec<u8>)>)
    ensures
        w@.len() == (if enable {
            1int
        } else {
            2int
        }),
        w@[0].0 == 0x0100 + KEY_USE_PASSPHRASE,
        w@[0].1@.len() == 1,
        w@[0].1@[0] == (if enable {
            1u8
        } else {
            0u8
        }),
        !enable ==> w@[1].0 == 0x0100 + KEY_PASSPHRASE_ALWAYS_ON_DEVICE && w@[1].1@.len() == 1
            && w@[1].1@[0] == 0,
{
    let mut writes: Vec<(u16, Vec<u8>)> = Vec::new();
    let key = _get_appkey(KEY_USE_PASSPHRASE, false);
    writes.push((key, storagedevice_storage_set_bool(enable)));
    if !enable {
        let off_key = _get_appkey(KEY_PASSPHRASE_ALWAYS_ON_DEVICE, false);
        writes.push((off_key, storagedevice_storage_set_bool(false)));
    }
    writes
}

} // verus!

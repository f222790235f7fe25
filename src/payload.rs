//! Decoding of raw heart-rate bytes, as delivered by a GATT notification or
//! carried in the manufacturer data of an advertisement.

use vstd::prelude::*;

verus! {

/// The exclusive lower bound of a plausible heart rate.
pub const MIN_BPM_EXCLUSIVE: u32 = 0;

/// The exclusive upper bound of a plausible heart rate.
pub const MAX_BPM_EXCLUSIVE: u32 = 300;

/// A heart rate is accepted when it lies strictly between 0 and 300.
pub open spec fn is_valid_bpm(v: int) -> bool {
    0 < v < 300
}

/// The raw value of a heart-rate measurement: bit 0 of the flags byte selects
/// a little-endian 16-bit value at bytes 1-2, else an 8-bit value at byte 1.
/// `None` where the buffer is too short for the selected encoding.
pub open spec fn measurement_raw_value(data: Seq<u8>) -> Option<int> {
    if data.len() == 0 {
        None
    } else if data[0] & 1u8 != 0 {
        if data.len() >= 3 {
            Some(data[1] as int + 256 * data[2] as int)
        } else {
            None
        }
    } else if data.len() >= 2 {
        Some(data[1] as int)
    } else {
        None
    }
}

/// The heart rate that a measurement payload reports, if it decodes to a
/// valid value.
pub open spec fn measurement_bpm(data: Seq<u8>) -> Option<u32> {
    match measurement_raw_value(data) {
        Some(v) => if is_valid_bpm(v) {
            Some(v as u32)
        } else {
            None
        },
        None => None,
    }
}

/// Decodes a heart-rate measurement notification.
pub fn parse_heart_rate_data(data: &[u8]) -> (r: Option<u32>)
    ensures
        r == measurement_bpm(data@),
{
    if data.len() == 0 {
        return None;
    }
    let flags = data[0];
    let heart_rate: u32 = if flags & 0x01 != 0 {
        if data.len() >= 3 {
            data[1] as u32 + data[2] as u32 * 256
        } else {
            return None;
        }
    } else {
        if data.len() >= 2 {
            data[1] as u32
        } else {
            return None;
        }
    };
    if heart_rate > MIN_BPM_EXCLUSIVE && heart_rate < MAX_BPM_EXCLUSIVE {
        Some(heart_rate)
    } else {
        None
    }
}

/// One manufacturer-specific data entry of an advertisement.
pub struct ManufacturerEntry {
    pub company_id: u16,
    pub data: Vec<u8>,
}

/// An entry carries a heart rate when it has at least four bytes and its
/// byte 3 is a valid heart rate.
pub open spec fn entry_bpm(e: ManufacturerEntry) -> Option<u32> {
    if e.data@.len() >= 4 && is_valid_bpm(e.data@[3] as int) {
        Some(e.data@[3] as u32)
    } else {
        None
    }
}

/// The heart rate of the first entry, from index `i` on, that carries one.
pub open spec fn advertised_bpm_from(entries: Seq<ManufacturerEntry>, i: int) -> Option<u32>
    decreases entries.len() - i,
{
    if i < 0 || i >= entries.len() {
        None
    } else {
        match entry_bpm(entries[i]) {
            Some(v) => Some(v),
            None => advertised_bpm_from(entries, i + 1),
        }
    }
}

/// The heart rate that an advertisement carries: that of its first entry
/// that qualifies. Entries that are too short are skipped.
pub open spec fn advertised_bpm(entries: Seq<ManufacturerEntry>) -> Option<u32> {
    advertised_bpm_from(entries, 0)
}

/// Extracts the heart rate from the manufacturer data of an advertisement.
pub fn parse_manufacturer_data(entries: &Vec<ManufacturerEntry>) -> (r: Option<u32>)
    ensures
        r == advertised_bpm(entries@),
{
    let mut i: usize = 0;
    while i < entries.len()
        invariant
            i <= entries@.len(),
            advertised_bpm_from(entries@, 0) == advertised_bpm_from(entries@, i as int),
        decreases entries@.len() - i,
    {
        let data = &entries[i].data;
        if data.len() >= 4 {
            let v = data[3] as u32;
            if v > MIN_BPM_EXCLUSIVE && v < MAX_BPM_EXCLUSIVE {
                return Some(v);
            }
        }
        i = i + 1;
    }
    None
}

/// An 8-bit payload `[0x00, v]` yields `v` exactly when `v` is a valid heart
/// rate, and nothing otherwise.
pub proof fn lemma_eight_bit_payload(v: u8)
    ensures
        is_valid_bpm(v as int) ==> measurement_bpm(seq![0u8, v]) == Some(v as u32),
        !is_valid_bpm(v as int) ==> measurement_bpm(seq![0u8, v]) is None,
{
    assert(0u8 & 1u8 == 0u8) by (bit_vector);
}

/// A 16-bit payload `[0x01, lo, hi]` yields its little-endian value when that
/// value is a valid heart rate; a buffer shorter than three bytes whose
/// flags select the 16-bit encoding yields nothing.
pub proof fn lemma_sixteen_bit_payload(lo: u8, hi: u8, truncated: Seq<u8>)
    requires
        truncated.len() < 3,
        truncated.len() >= 1 ==> truncated[0] & 1u8 != 0,
    ensures
        is_valid_bpm(lo as int + 256 * hi as int) ==> measurement_bpm(seq![1u8, lo, hi])
            == Some((lo as int + 256 * hi as int) as u32),
        !is_valid_bpm(lo as int + 256 * hi as int) ==> measurement_bpm(seq![1u8, lo, hi]) is None,
        measurement_bpm(truncated) is None,
{
    assert(1u8 & 1u8 == 1u8) by (bit_vector);
}

} // verus!

//! The custom-icon volume attribute: a fixed-size Finder-info payload with a
//! single flag byte set, attached to the mounted volume under a fixed
//! attribute name.

use vstd::prelude::*;

verus! {

/// Number of bytes in the Finder-info extended-attribute payload.
pub const FINDER_INFO_LEN: usize = 32;

/// Offset of the byte that marks the volume as having a custom icon.
pub const CUSTOM_ICON_FLAG_OFFSET: usize = 8;

/// Value written at [`CUSTOM_ICON_FLAG_OFFSET`].
pub const CUSTOM_ICON_FLAG: u8 = 4;

/// Name of the extended attribute that carries the Finder-info payload.
pub fn finder_info_attr_name() -> (r: &'static str)
    ensures
        r@ == "com.apple.FinderInfo"@,
{
    "com.apple.FinderInfo"
}

/// The Finder-info payload that marks a volume as having a custom icon:
/// 32 bytes, all zero except the flag byte.
pub fn finder_info_payload() -> (r: Vec<u8>)
    ensures
        r@.len() == FINDER_INFO_LEN,
        r@[CUSTOM_ICON_FLAG_OFFSET as int] == CUSTOM_ICON_FLAG,
        forall|i: int|
            0 <= i < FINDER_INFO_LEN && i != CUSTOM_ICON_FLAG_OFFSET ==> r@[i] == 0u8,
{
    let mut v: Vec<u8> = Vec::new();
    let mut i: usize = 0;
    while i < FINDER_INFO_LEN
        invariant
            i <= FINDER_INFO_LEN,
            v@.len() == i,
            i > CUSTOM_ICON_FLAG_OFFSET ==> v@[CUSTOM_ICON_FLAG_OFFSET as int] == CUSTOM_ICON_FLAG,
            forall|j: int| 0 <= j < i && j != CUSTOM_ICON_FLAG_OFFSET ==> v@[j] == 0u8,
        decreases FINDER_INFO_LEN - i,
    {
        if i == CUSTOM_ICON_FLAG_OFFSET {
            v.push(CUSTOM_ICON_FLAG);
        } else {
            v.push(0);
        }
        i = i + 1;
    }
    v
}

} // verus!

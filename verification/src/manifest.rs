//! The copy manifest: which sources land where inside the produced image.

use vstd::prelude::*;

verus! {

/// One (source, destination) pair: where a file or directory of the bundle
/// should land inside the produced image. Ordering is significant only for
/// deterministic copy sequencing; duplicate destinations are not
/// deduplicated, the last write wins.
pub struct ManifestEntry {
    /// Path relative to the bundle source directory.
    pub source: String,
    /// Path relative to the mounted volume root.
    pub dest: String,
}

/// Destination of the bundle itself: the volume root.
pub fn volume_root_dest() -> (r: &'static str)
    ensures
        r@ == "/"@,
{
    "/"
}

/// Destination name reserved at the volume root for the icon file.
pub fn volume_icon_dest() -> (r: &'static str)
    ensures
        r@ == ".VolumeIcon.icns"@,
{
    ".VolumeIcon.icns"
}

/// Build the copy manifest: the bundle mapped to the volume root and, if an
/// icon is supplied, the icon mapped to its reserved destination name.
pub fn build_file_list(bundle_file_name: &str, volicon: Option<&str>) -> (r: Vec<ManifestEntry>)
    ensures
        r@.len() == (if volicon is Some {
            2int
        } else {
            1int
        }),
        r@[0].source@ == bundle_file_name@,
        r@[0].dest@ == "/"@,
        volicon matches Some(icon) ==> r@[1].source@ == icon@ && r@[1].dest@
            == ".VolumeIcon.icns"@,
{
    let mut v: Vec<ManifestEntry> = Vec::new();
    v.push(ManifestEntry { source: bundle_file_name.to_owned(), dest: volume_root_dest().to_owned() });
    match volicon {
        Some(icon) => {
            v.push(ManifestEntry { source: icon.to_owned(), dest: volume_icon_dest().to_owned() });
        },
        None => {},
    }
    v
}

} // verus!

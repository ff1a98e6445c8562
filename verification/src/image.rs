//! The parameters of one image build: output path, volume label, derived
//! capacity, and the deterministically named working image and scratch mount
//! point.

use vstd::prelude::*;
use vstd::string::StringExecFns;

verus! {

/// The parameters of one image build. The capacity is derived by the size
/// estimator, never user-supplied; the working image and mount point are
/// named deterministically from the bundle file name.
pub struct ImageSpec {
    /// Final destination of the finished image.
    pub output_path: String,
    /// Human-readable name embedded in the filesystem's metadata.
    pub volume_label: String,
    /// Image capacity in whole megabytes.
    pub capacity_mb: u64,
    /// Name of the raw image file while it is being built.
    pub working_path: String,
    /// Name of the scratch directory the image is mounted at.
    pub mount_point: String,
}

/// Name of the working image file, derived from the bundle file name.
pub fn working_image_name(bundle_file_name: &str) -> (r: String)
    ensures
        r@ == bundle_file_name@ + ".dmg"@,
{
    let mut s = bundle_file_name.to_owned();
    s.append(".dmg");
    s
}

/// Name of the scratch mount point, derived from the working image name.
pub fn mount_point_name(working_image: &str) -> (r: String)
    ensures
        r@ == working_image@ + "_tmp"@,
{
    let mut s = working_image.to_owned();
    s.append("_tmp");
    s
}

impl ImageSpec {
    /// Assemble the spec for one build, deriving the working and mount-point
    /// names from the bundle file name.
    pub fn derive(
        output_path: String,
        volume_label: String,
        capacity_mb: u64,
        bundle_file_name: &str,
    ) -> (r: ImageSpec)
        ensures
            r.output_path@ == output_path@,
            r.volume_label@ == volume_label@,
            r.capacity_mb == capacity_mb,
            r.working_path@ == bundle_file_name@ + ".dmg"@,
            r.mount_point@ == bundle_file_name@ + ".dmg"@ + "_tmp"@,
    {
        let working_path = working_image_name(bundle_file_name);
        let mount_point = mount_point_name(working_path.as_str());
        ImageSpec { output_path, volume_label, capacity_mb, working_path, mount_point }
    }
}

} // verus!

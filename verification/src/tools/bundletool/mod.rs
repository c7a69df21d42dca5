//! Wrappers of `bundletool` and of the Java tools used around it.
pub mod extract_apks;
pub mod get_device_spec;
pub mod get_size_total;
pub mod install_apks;
pub mod jarsigner;

use vstd::prelude::*;
use crate::tools::bundletool::extract_apks::ExtractApks;
use crate::tools::bundletool::get_size_total::GetSizeTotal;

verus! {

/// Entry point to the `bundletool` commands.
#[derive(Clone, Copy)]
pub struct Bundletool;

impl Bundletool {
    /// Measures the download size of the APK set `apks`.
    pub fn get_size_total(self, apks: &str) -> (r: GetSizeTotal)
        ensures
            r.apks@ == apks@,
            r.device_spec is None,
            r.dimensions is None,
            !r.instant,
            r.modules is None,
    {
        GetSizeTotal::new(apks)
    }

    /// Extracts from the APK set `apks` into `output_dir` the APKs that match `device_spec`.
    pub fn extract_apks(self, apks: &str, output_dir: &str, device_spec: &str) -> (r: ExtractApks)
        ensures
            r.apks@ == apks@,
            r.device_spec matches Some(v) && v@ == device_spec@,
            r.output_dir matches Some(v) && v@ == output_dir@,
            r.bundletool_path is None,
    {
        let mut e = ExtractApks::new(apks);
        e.output_dir(output_dir).device_spec(device_spec);
        e
    }
}

} // verus!

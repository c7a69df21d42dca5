//! `bundletool extract-apks`.
use vstd::prelude::*;
use crate::argv::{ToolCommand, opt_view, prefixed_arg, push_arg, push_prefixed, push_string, group_args_passed};

verus! {

/// `bundletool extract-apks`: extracts from an APK set the APKs that match a device spec.
pub struct ExtractApks {
    /// (Required) The APK set.
    pub apks: String,
    /// Specifies the path to the device spec file (from get-device-spec or constructed
    /// manually) to use for matching.
    pub device_spec: Option<String>,
    /// Directory in which the extracted APKs are written.
    pub output_dir: Option<String>,
    /// Specifies the path for bundletool.
    pub bundletool_path: Option<String>,
}

/// The arguments of `bundletool` for `e`: the subcommand, then each option
/// written as `--name=value`; the output folder goes under `--dimensions=`.
pub open spec fn extract_apks_args(e: ExtractApks) -> Seq<Seq<char>> {
    seq!["extract-apks"@, "--apks="@ + e.apks@] +
        prefixed_arg("--device-spec="@, opt_view(e.device_spec)) +
        prefixed_arg("--dimensions="@, opt_view(e.output_dir))
}

impl ExtractApks {
    /// Extracts from the APK set `apks`.
    pub fn new(apks: &str) -> (r: Self)
        ensures
            r.apks@ == apks@,
            r.device_spec is None,
            r.output_dir is None,
            r.bundletool_path is None,
    {
        ExtractApks {
            apks: apks.to_owned(),
            device_spec: None,
            output_dir: None,
            bundletool_path: None,
        }
    }

    pub fn device_spec(&mut self, device_spec: &str) -> (ret: &mut Self)
        ensures
            ret.device_spec matches Some(v) && v@ == device_spec@,
            *ret == (ExtractApks { device_spec: ret.device_spec, ..*old(self) }),
            *final(self) == *final(ret),
    {
        self.device_spec = Some(device_spec.to_owned());
        self
    }

    pub fn output_dir(&mut self, output_dir: &str) -> (ret: &mut Self)
        ensures
            ret.output_dir matches Some(v) && v@ == output_dir@,
            *ret == (ExtractApks { output_dir: ret.output_dir, ..*old(self) }),
            *final(self) == *final(ret),
    {
        self.output_dir = Some(output_dir.to_owned());
        self
    }

    pub fn bundletool_path(&mut self, bundletool_path: &str) -> (ret: &mut Self)
        ensures
            ret.bundletool_path matches Some(v) && v@ == bundletool_path@,
            *ret == (ExtractApks { bundletool_path: ret.bundletool_path, ..*old(self) }),
            *final(self) == *final(ret),
    {
        self.bundletool_path = Some(bundletool_path.to_owned());
        self
    }

    /// The `bundletool extract-apks` command line.
    pub fn command(&self) -> (c: ToolCommand)
        ensures
            c.program@ == "bundletool"@,
            c.args.deep_view() == extract_apks_args(*self),
    {
        let mut c = ToolCommand::new("bundletool");
        push_arg(&mut c.args, "extract-apks");
        let mut apks = "--apks=".to_owned();
        apks.append(self.apks.as_str());
        push_string(&mut c.args, apks);
        push_prefixed(&mut c.args, "--device-spec=", &self.device_spec);
        push_prefixed(&mut c.args, "--dimensions=", &self.output_dir);
        c
    }
}


/// Every switch of `bundletool extract-apks` that is set is passed, and every option that has
/// a value is passed with it.
pub proof fn lemma_extract_apks_passes_every_option(e: ExtractApks)
    ensures
        e.device_spec is Some ==> extract_apks_args(e).contains("--device-spec="@ + e.device_spec->0@),
        e.output_dir is Some ==> extract_apks_args(e).contains("--dimensions="@ + e.output_dir->0@),
{
    broadcast use group_args_passed;
}

} // verus!

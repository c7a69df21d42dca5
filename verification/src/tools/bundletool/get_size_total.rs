//! `bundletool get-size total`.
use vstd::prelude::*;
use crate::argv::{ToolCommand, flag_arg, opt_view, prefixed_arg, push_arg, push_flag, push_prefixed, push_string, group_args_passed};

verus! {

/// To measure the estimated download sizes of APKs in an APK set as they would be served
/// compressed over-the-wire, use the get-size total command:
/// `bundletool get-size total --apks=/MyApp/my_app.apks`.
pub struct GetSizeTotal {
    /// (Required) Specifies the path to the existing APK set file whose download size is measured.
    pub apks: String,
    /// Specifies the path to the device spec file to use for matching.
    pub device_spec: Option<String>,
    /// Specifies the dimensions used when computing the size estimates.
    pub dimensions: Option<String>,
    /// Measures the download size of the instant-enabled APKs instead of the installable APKs.
    pub instant: bool,
    /// Specifies a comma-separated list of modules in the APK set to consider in the measurement.
    pub modules: Option<String>,
}

/// The arguments of `bundletool` for `g`: the command `get-size total`, then
/// each option written as `--name=value`.
pub open spec fn get_size_total_args(g: GetSizeTotal) -> Seq<Seq<char>> {
    seq!["get-size"@, "total"@, "--apks="@ + g.apks@] +
        prefixed_arg("--device-spec="@, opt_view(g.device_spec)) +
        prefixed_arg("--dimensions="@, opt_view(g.dimensions)) +
        flag_arg(g.instant, "--instant"@) +
        prefixed_arg("--modules="@, opt_view(g.modules))
}

impl GetSizeTotal {
    /// Measures the APK set `apks`.
    pub fn new(apks: &str) -> (r: Self)
        ensures
            r.apks@ == apks@,
            r.device_spec is None,
            r.dimensions is None,
            !r.instant,
            r.modules is None,
    {
        GetSizeTotal {
            apks: apks.to_owned(),
            device_spec: None,
            dimensions: None,
            instant: false,
            modules: None,
        }
    }

    pub fn device_spec(&mut self, device_spec: &str) -> (ret: &mut Self)
        ensures
            ret.device_spec matches Some(v) && v@ == device_spec@,
            *ret == (GetSizeTotal { device_spec: ret.device_spec, ..*old(self) }),
            *final(self) == *final(ret),
    {
        self.device_spec = Some(device_spec.to_owned());
        self
    }

    pub fn dimensions(&mut self, dimensions: &str) -> (ret: &mut Self)
        ensures
            ret.dimensions matches Some(v) && v@ == dimensions@,
            *ret == (GetSizeTotal { dimensions: ret.dimensions, ..*old(self) }),
            *final(self) == *final(ret),
    {
        self.dimensions = Some(dimensions.to_owned());
        self
    }

    pub fn instant(&mut self, instant: bool) -> (ret: &mut Self)
        ensures
            *ret == (GetSizeTotal { instant: instant, ..*old(self) }),
            *final(self) == *final(ret),
    {
        self.instant = instant;
        self
    }

    pub fn modules(&mut self, modules: &str) -> (ret: &mut Self)
        ensures
            ret.modules matches Some(v) && v@ == modules@,
            *ret == (GetSizeTotal { modules: ret.modules, ..*old(self) }),
            *final(self) == *final(ret),
    {
        self.modules = Some(modules.to_owned());
        self
    }

    /// The `bundletool get-size total` command line.
    pub fn command(&self) -> (c: ToolCommand)
        ensures
            c.program@ == "bundletool"@,
            c.args.deep_view() == get_size_total_args(*self),
    {
        let mut c = ToolCommand::new("bundletool");
        push_arg(&mut c.args, "get-size");
        push_arg(&mut c.args, "total");
        let mut apks = "--apks=".to_owned();
        apks.append(self.apks.as_str());
        push_string(&mut c.args, apks);
        push_prefixed(&mut c.args, "--device-spec=", &self.device_spec);
        push_prefixed(&mut c.args, "--dimensions=", &self.dimensions);
        push_flag(&mut c.args, self.instant, "--instant");
        push_prefixed(&mut c.args, "--modules=", &self.modules);
        c
    }
}


/// Every switch of `bundletool get-size total` that is set is passed, and every option that has
/// a value is passed with it.
pub proof fn lemma_get_size_total_passes_every_option(g: GetSizeTotal)
    ensures
        g.instant ==> get_size_total_args(g).contains("--instant"@),
        g.device_spec is Some ==> get_size_total_args(g).contains("--device-spec="@ + g.device_spec->0@),
        g.dimensions is Some ==> get_size_total_args(g).contains("--dimensions="@ + g.dimensions->0@),
        g.modules is Some ==> get_size_total_args(g).contains("--modules="@ + g.modules->0@),
{
    broadcast use group_args_passed;
}

} // verus!

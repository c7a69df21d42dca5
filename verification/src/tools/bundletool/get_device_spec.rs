//! `bundletool get-device-spec`.
use vstd::prelude::*;
use crate::argv::{push_arg, ToolCommand};
use crate::error::{AndroidError, Error};

verus! {

/// Bundletool is capable of generating an APK set that targets a device configuration
/// specified by a JSON file. This command writes that JSON file for the connected device.
#[derive(Debug, PartialEq, PartialOrd)]
pub struct GetDeviceSpec {
    /// Where the device spec is written.
    pub output: String,
}

/// The arguments of `java` that run `get-device-spec` from the bundletool jar `bundletool`.
pub open spec fn get_device_spec_args(g: GetDeviceSpec, bundletool: Seq<char>) -> Seq<Seq<char>> {
    seq!["-jar"@, bundletool, "get-device-spec"@, "--output"@, g.output@]
}

impl GetDeviceSpec {
    /// Writes the device spec to `output`.
    pub fn new(output: &str) -> (r: Self)
        ensures r.output@ == output@,
    {
        GetDeviceSpec { output: output.to_owned() }
    }

    /// The `java -jar <bundletool> get-device-spec` command line, where `bundletool_path`
    /// is the value of `BUNDLETOOL_PATH`; without it the bundletool is not found.
    pub fn command(&self, bundletool_path: Option<String>) -> (r: Result<ToolCommand, Error>)
        ensures
            bundletool_path is None <==> r == Err::<ToolCommand, Error>(Error::Android(AndroidError::BundletoolNotFound)),
            bundletool_path is Some <==> r is Ok,
            r matches Ok(c) ==> c.program@ == "java"@
                && c.args.deep_view() == get_device_spec_args(*self, bundletool_path->Some_0@),
    {
        match bundletool_path {
            Some(path) => {
                let mut c = ToolCommand::new("java");
                push_arg(&mut c.args, "-jar");
                push_arg(&mut c.args, path.as_str());
                push_arg(&mut c.args, "get-device-spec");
                push_arg(&mut c.args, "--output");
                push_arg(&mut c.args, self.output.as_str());
                Ok(c)
            },
            None => Err(Error::Android(AndroidError::BundletoolNotFound)),
        }
    }
}

} // verus!

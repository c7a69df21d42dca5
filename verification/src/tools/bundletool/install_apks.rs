//! `bundletool install-apks`.
use vstd::prelude::*;
use crate::argv::{flag_arg, opt_arg, opt_view, push_arg, push_flag, push_opt, ToolCommand, group_args_passed, has_option};
use crate::error::{AndroidError, Error};

verus! {

/// ## Deploy APKs to a connected device
/// After you generate a set of APKs, bundletool can deploy the right combination of APKs
/// from that set to a connected device. If you have multiple devices connected, specify a
/// target device with `--device-id=serial-id`.
#[derive(Debug, Default)]
pub struct InstallApks {
    /// The APK set to install.
    pub apks: String,
    /// Install for local testing.
    pub local_testing: bool,
    /// The device to install on.
    pub device_id: Option<String>,
}

/// The arguments of `java` that run `install-apks` from the bundletool jar `bundletool`.
pub open spec fn install_apks_args(i: InstallApks, bundletool: Seq<char>) -> Seq<Seq<char>> {
    seq!["-jar"@, bundletool, "install-apks"@, "--apks"@, i.apks@] +
        flag_arg(i.local_testing, "--local-testing"@) +
        opt_arg("--device-id"@, opt_view(i.device_id))
}

impl InstallApks {
    /// Specifies path to set of apks
    pub fn new(apks: &str) -> (r: Self)
        ensures r.apks@ == apks@, !r.local_testing, r.device_id is None,
    {
        InstallApks { apks: apks.to_owned(), local_testing: false, device_id: None }
    }

    /// If you're using the --local-testing flag with the build-apks command, for local
    /// testing to work correctly, you need to use install-apks to install your APKs
    pub fn local_testing(&mut self, local_testing: bool) -> (ret: &mut Self)
        ensures
            *ret == (InstallApks { local_testing, ..*old(self) }),
            *final(self) == *final(ret),
    {
        self.local_testing = local_testing;
        self
    }

    /// If you have multiple devices connected, specify a target device by adding the
    /// --device-id=serial-id flag
    pub fn device_id(&mut self, device_id: String) -> (ret: &mut Self)
        ensures
            *ret == (InstallApks { device_id: Some(device_id), ..*old(self) }),
            *final(self) == *final(ret),
    {
        self.device_id = Some(device_id);
        self
    }

    /// The `java -jar <bundletool> install-apks` command line, where `bundletool_path`
    /// is the value of `BUNDLETOOL_PATH`; without it the bundletool is not found.
    pub fn command(&self, bundletool_path: Option<String>) -> (r: Result<ToolCommand, Error>)
        ensures
            bundletool_path is None <==> r == Err::<ToolCommand, Error>(Error::Android(AndroidError::BundletoolNotFound)),
            bundletool_path is Some <==> r is Ok,
            r matches Ok(c) ==> c.program@ == "java"@
                && c.args.deep_view() == install_apks_args(*self, bundletool_path->Some_0@),
    {
        match bundletool_path {
            Some(path) => {
                let mut c = ToolCommand::new("java");
                push_arg(&mut c.args, "-jar");
                push_arg(&mut c.args, path.as_str());
                push_arg(&mut c.args, "install-apks");
                push_arg(&mut c.args, "--apks");
                push_arg(&mut c.args, self.apks.as_str());
                push_flag(&mut c.args, self.local_testing, "--local-testing");
                push_opt(&mut c.args, "--device-id", &self.device_id);
                Ok(c)
            },
            None => Err(Error::Android(AndroidError::BundletoolNotFound)),
        }
    }
}

/// Every switch of `bundletool install-apks` that is set is passed, and every option that has
/// a value is passed with it.
pub proof fn lemma_install_apks_passes_every_option(i: InstallApks, bundletool: Seq<char>)
    ensures
        i.local_testing ==> install_apks_args(i, bundletool).contains("--local-testing"@),
        i.device_id is Some ==> has_option(install_apks_args(i, bundletool), "--device-id"@, i.device_id->0@),
{
    broadcast use group_args_passed;
}

} // verus!

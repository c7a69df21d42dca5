//! The `run` command: build, deploy and launch, on Android or iOS.
use vstd::prelude::*;
use crate::argv::opt_view;
use crate::cli::build_command::{
    AndroidBuildCommand, IosBuildCommand, android_check, android_fields, android_from, ios_check, ios_fields,
    ios_from, reject,
};
use crate::cli::choices::{IosTarget, host_simulator_of};
use crate::cli::grammar::{failure, ErrorKind, Failure, Occ, Occurrence, ParseError, occs_view};
use crate::cli::values::{first, first_of, given, is_given};

verus! {

/// The options of `run android`.
#[derive(Debug, Clone)]
pub struct AndroidRunCommand {
    pub build_command: AndroidBuildCommand,
    /// Attach the logger after the run
    pub log: bool,
}

/// The options of `run ios`.
#[derive(Debug, Clone)]
pub struct IosRunCommand {
    pub build_command: IosBuildCommand,
    /// Simulator name or UDID
    pub simulator: Option<String>,
    /// Do not open Simulator.app
    pub no_open: bool,
    /// Return after launching instead of attaching to the application console
    pub detach: bool,
    /// Start the debugger when running on a connected device
    pub debug: bool,
    /// Install and launch on the connected device
    pub device: bool,
    /// Connected device id
    pub device_id: Option<String>,
}

/// The `run` subcommands.
#[derive(Debug, Clone)]
pub enum RunCommand {
    /// Builds, deploys and launches the application on an Android device or emulator
    Android(AndroidRunCommand),
    /// Builds, deploys and launches the application on an iOS device or Simulator
    Ios(IosRunCommand),
}

/// What an accepted `run android` level says.
pub open spec fn android_run_fields(acc: Seq<Occ>, c: AndroidRunCommand) -> bool {
    android_fields(acc, c.build_command) && c.log == given(acc, 15)
}

/// Reads the options of `run android`, given its occurrences.
pub fn android_run_from(acc: &Vec<Occurrence>) -> (r: Result<AndroidRunCommand, ParseError>)
    ensures
        match r {
            Ok(c) => android_check(occs_view(acc@), true) is Ok && android_run_fields(occs_view(acc@), c),
            Err(e) => android_check(occs_view(acc@), true) == Err::<(), Failure>(e@),
        },
{
    let build_command = android_from(acc, true)?;
    Ok(AndroidRunCommand { build_command, log: is_given(acc, 15) })
}

/// Whether a `run ios` level is accepted: its build options are, the
/// Simulator options (`--simulator`, `--no-open`, `--detach`) are not given
/// with `--device`, `--debug` and `--device-id` only with `--device`, and
/// `--device` neither with `--target` nor without `--signing-identity`.
pub open spec fn ios_run_check(acc: Seq<Occ>) -> Result<(), Failure> {
    let device = given(acc, 15);
    if ios_check(acc, true) is Err {
        ios_check(acc, true)
    } else if given(acc, 11) && device {
        Err(failure(ErrorKind::ArgumentConflict, "--simulator"@))
    } else if given(acc, 12) && device {
        Err(failure(ErrorKind::ArgumentConflict, "--no-open"@))
    } else if given(acc, 13) && device {
        Err(failure(ErrorKind::ArgumentConflict, "--detach"@))
    } else if given(acc, 14) && !device {
        Err(failure(ErrorKind::MissingRequiredArgument, "--device"@))
    } else if device && given(acc, 7) {
        Err(failure(ErrorKind::ArgumentConflict, "--device"@))
    } else if device && !given(acc, 10) {
        Err(failure(ErrorKind::MissingRequiredArgument, "--signing-identity"@))
    } else if given(acc, 16) && !device {
        Err(failure(ErrorKind::MissingRequiredArgument, "--device"@))
    } else {
        Ok(())
    }
}

/// A run on a device excludes the Simulator options: a `run ios` level that
/// gives `--device` together with `--simulator`, `--no-open` or `--detach` is
/// rejected.
pub proof fn lemma_device_excludes_simulator_options(acc: Seq<Occ>)
    requires
        given(acc, 15),
        given(acc, 11) || given(acc, 12) || given(acc, 13),
    ensures ios_run_check(acc) is Err,
{
}

/// `--debug` and `--device-id` are accepted only with `--device`.
pub proof fn lemma_device_options_need_device(acc: Seq<Occ>)
    requires
        !given(acc, 15),
        given(acc, 14) || given(acc, 16),
    ensures ios_run_check(acc) is Err,
{
}

/// A run on a device needs a signing identity.
pub proof fn lemma_device_needs_signing_identity(acc: Seq<Occ>)
    requires
        given(acc, 15),
        !given(acc, 10),
    ensures ios_run_check(acc) is Err,
{
}

/// What an accepted `run ios` level says.
pub open spec fn ios_run_fields(acc: Seq<Occ>, c: IosRunCommand) -> bool {
    &&& ios_fields(acc, c.build_command)
    &&& opt_view(c.simulator) == first_of(acc, 11)
    &&& c.no_open == given(acc, 12)
    &&& c.detach == given(acc, 13)
    &&& c.debug == given(acc, 14)
    &&& c.device == given(acc, 15)
    &&& opt_view(c.device_id) == first_of(acc, 16)
}

/// Reads the options of `run ios`, given its occurrences.
pub fn ios_run_from(acc: &Vec<Occurrence>) -> (r: Result<IosRunCommand, ParseError>)
    ensures
        match r {
            Ok(c) => ios_run_check(occs_view(acc@)) is Ok && ios_run_fields(occs_view(acc@), c),
            Err(e) => ios_run_check(occs_view(acc@)) == Err::<(), Failure>(e@),
        },
{
    let build_command = ios_from(acc, true)?;
    let simulator = first(acc, 11);
    let no_open = is_given(acc, 12);
    let detach = is_given(acc, 13);
    let debug = is_given(acc, 14);
    let device = is_given(acc, 15);
    let device_id = first(acc, 16);
    if simulator.is_some() && device {
        return Err(reject(ErrorKind::ArgumentConflict, "--simulator"));
    }
    if no_open && device {
        return Err(reject(ErrorKind::ArgumentConflict, "--no-open"));
    }
    if detach && device {
        return Err(reject(ErrorKind::ArgumentConflict, "--detach"));
    }
    if debug && !device {
        return Err(reject(ErrorKind::MissingRequiredArgument, "--device"));
    }
    if device && is_given(acc, 7) {
        return Err(reject(ErrorKind::ArgumentConflict, "--device"));
    }
    if device && build_command.signing_identity.is_none() {
        return Err(reject(ErrorKind::MissingRequiredArgument, "--signing-identity"));
    }
    if device_id.is_some() && !device {
        return Err(reject(ErrorKind::MissingRequiredArgument, "--device"));
    }
    Ok(IosRunCommand { build_command, simulator, no_open, detach, debug, device, device_id })
}

/// The target a run prefers: the device target for a device, else the host's Simulator.
pub open spec fn preferred_target(device: bool, host_is_aarch64: bool) -> IosTarget {
    if device { IosTarget::Aarch64Device } else { host_simulator_of(host_is_aarch64) }
}

/// The first index at `k` or later whose target is `t`.
pub open spec fn index_of_target_from(paths: Seq<(IosTarget, String)>, t: IosTarget, k: nat) -> Option<nat>
    decreases paths.len() - k,
{
    if k >= paths.len() {
        None
    } else if paths[k as int].0 == t {
        Some(k)
    } else {
        index_of_target_from(paths, t, k + 1)
    }
}

/// The first index at `k` or later whose target runs in the Simulator.
pub open spec fn index_of_simulator_from(paths: Seq<(IosTarget, String)>, k: nat) -> Option<nat>
    decreases paths.len() - k,
{
    if k >= paths.len() {
        None
    } else if paths[k as int].0 != IosTarget::Aarch64Device {
        Some(k)
    } else {
        index_of_simulator_from(paths, k + 1)
    }
}

/// Which built application a run launches: the first of the preferred target;
/// failing that, for the Simulator, the first Simulator build.
pub open spec fn app_index(paths: Seq<(IosTarget, String)>, device: bool, host_is_aarch64: bool) -> Option<nat> {
    match index_of_target_from(paths, preferred_target(device, host_is_aarch64), 0) {
        Some(k) => Some(k),
        None => if device { None } else { index_of_simulator_from(paths, 0) },
    }
}

/// The message when no built application can be launched.
pub open spec fn missing_app_message(device: bool) -> Seq<char> {
    "the build did not produce a runnable iOS "@ + (if device { "device"@ } else { "Simulator"@ }) + " artifact"@
}

fn find_target(paths: &Vec<(IosTarget, String)>, t: IosTarget) -> (r: Option<usize>)
    ensures
        match r {
            Some(k) => index_of_target_from(paths@, t, 0) == Some(k as nat) && k < paths.len(),
            None => index_of_target_from(paths@, t, 0) is None,
        },
{
    let mut k: usize = 0;
    while k < paths.len()
        invariant
            k <= paths.len(),
            index_of_target_from(paths@, t, 0) == index_of_target_from(paths@, t, k as nat),
        decreases paths.len() - k,
    {
        if paths[k].0 == t {
            return Some(k);
        }
        k = k + 1;
    }
    None
}

fn find_simulator(paths: &Vec<(IosTarget, String)>) -> (r: Option<usize>)
    ensures
        match r {
            Some(k) => index_of_simulator_from(paths@, 0) == Some(k as nat) && k < paths.len(),
            None => index_of_simulator_from(paths@, 0) is None,
        },
{
    let mut k: usize = 0;
    while k < paths.len()
        invariant
            k <= paths.len(),
            index_of_simulator_from(paths@, 0) == index_of_simulator_from(paths@, k as nat),
        decreases paths.len() - k,
    {
        if paths[k].0.is_simulator() {
            return Some(k);
        }
        k = k + 1;
    }
    None
}

impl IosRunCommand {
    /// The targets to build: those asked for; when none is, the device target
    /// for a device run and the host's Simulator otherwise.
    pub fn run_targets(&self, host_is_aarch64: bool) -> (r: Vec<IosTarget>)
        ensures
            r@ == (if self.build_command.target@.len() == 0 {
                seq![preferred_target(self.device, host_is_aarch64)]
            } else {
                self.build_command.target@
            }),
    {
        let mut targets = self.build_command.target.clone();
        assert(targets@ == self.build_command.target@);
        if targets.len() == 0 {
            let t = if self.device { IosTarget::Aarch64Device } else { IosTarget::host_simulator(host_is_aarch64) };
            targets.push(t);
            assert(targets@ =~= seq![preferred_target(self.device, host_is_aarch64)]);
        }
        targets
    }

    /// The application to launch among those built; the error is the message
    /// to report when none fits.
    pub fn get_app_path(&self, app_paths: &Vec<(IosTarget, String)>, host_is_aarch64: bool) -> (r: Result<String, String>)
        ensures
            match app_index(app_paths@, self.device, host_is_aarch64) {
                Some(k) => r matches Ok(p) && p@ == app_paths@[k as int].1@,
                None => r matches Err(m) && m@ == missing_app_message(self.device),
            },
    {
        let preferred = if self.device { IosTarget::Aarch64Device } else { IosTarget::host_simulator(host_is_aarch64) };
        let found = match find_target(app_paths, preferred) {
            Some(k) => Some(k),
            None => if self.device { None } else { find_simulator(app_paths) },
        };
        match found {
            Some(k) => Ok(app_paths[k].1.clone()),
            None => {
                let mut m = "the build did not produce a runnable iOS ".to_owned();
                if self.device {
                    m.append("device");
                } else {
                    m.append("Simulator");
                }
                m.append(" artifact");
                Err(m)
            },
        }
    }
}

} // verus!

//! The `install` command: bundletool, the Android command line tools and
//! packages of the Android SDK.
use vstd::prelude::*;
use crate::argv::{group_args_passed, lemma_concat_contains, lemma_flag_arg_contains, lemma_index_contains, lemma_prefixed_arg_contains, 
    flag_arg, opt_decimal, opt_view, prefixed_arg, push_arg, push_flag, push_prefixed, push_prefixed_u32, push_string,
};
use crate::cli::grammar::{failure, 
    ArgDef, ArgKind, ArgSpec, ErrorKind, Failure, Occ, Occurrence, ParseError, ScanOutcome, Scanned, defs_view, level,
    occs_view, scan_level,
};
use crate::cli::table::{arg_spec, help_spec, names, push_def, push_help};
use crate::cli::values::{
    check_repeats, first, first_of, given, is_given, parse_u32, repetition_check, u32_of_text,
};

verus! {

/// Where bundletool releases are downloaded from.
pub const BUNDLETOOL_JAR_FILE_DOWNLOAD_URL: &'static str = "https://github.com/google/bundletool/releases/download";

/// Where the Android command line tools are downloaded from.
pub const COMMAND_LINE_TOOLS_DOWNLOAD_URL: &'static str = "https://dl.google.com/android/repository/";

/// The bundletool version installed when none is named.
pub const DEFAULT_BUNDLETOOL_VERSION: &'static str = "1.18.3";

/// The options of `install bundletool`.
#[derive(Debug, Clone, Default)]
pub struct BundletoolInstallCommand {
    /// Version of bundletool to download
    pub version: String,
    /// Path to install bundletool to; by default the home directory
    pub path: Option<String>,
    /// Force install bundletool even if found
    pub force: bool,
}

impl BundletoolInstallCommand {
    /// The name of the bundletool jar file of this version.
    pub fn file_name(&self) -> (r: String)
        ensures r@ == "bundletool-all-"@ + self.version@ + ".jar"@,
    {
        let mut s = "bundletool-all-".to_owned();
        s.append(self.version.as_str());
        s.append(".jar");
        s
    }

    /// The address the jar file of this version is downloaded from.
    pub fn download_url(&self) -> (r: String)
        ensures r@ == BUNDLETOOL_JAR_FILE_DOWNLOAD_URL@ + "/"@ + self.version@ + "/"@ + "bundletool-all-"@ + self.version@ + ".jar"@,
    {
        let mut s = BUNDLETOOL_JAR_FILE_DOWNLOAD_URL.to_owned();
        s.append("/");
        s.append(self.version.as_str());
        s.append("/");
        let name = self.file_name();
        s.append(name.as_str());
        assert(s@ =~= BUNDLETOOL_JAR_FILE_DOWNLOAD_URL@ + "/"@ + self.version@ + "/"@ + "bundletool-all-"@ + self.version@ + ".jar"@);
        s
    }
}

/// The options of `install command-line-tools`.
#[derive(Debug, Clone, Default)]
pub struct CommandLineToolsInstallCommand {
    /// Path to install the command line tools to
    pub install_path: Option<String>,
    /// Force install command line tools even if found or corrupted
    pub force: bool,
}

/// The name of the operating system in the command line tools archive names.
pub open spec fn os_tag_of(os: Seq<char>, aarch64: bool) -> Option<Seq<char>> {
    if os == "windows"@ {
        Some("win"@)
    } else if os == "macos"@ {
        Some(if aarch64 { "mac_arm64"@ } else { "mac_x86_64"@ })
    } else if os == "linux"@ {
        Some("linux"@)
    } else {
        None
    }
}

/// The name of the operating system `os` (as `std::env::consts::OS` writes it)
/// in the archive names; for macOS it depends on whether the machine is ARM.
pub fn os_tag(os: &str, aarch64: bool) -> (r: Option<&'static str>)
    ensures
        match r {
            Some(t) => os_tag_of(os@, aarch64) == Some(t@),
            None => os_tag_of(os@, aarch64) is None,
        },
{
    if crate::text::str_eq(os, "windows") {
        Some("win")
    } else if crate::text::str_eq(os, "macos") {
        if aarch64 { Some("mac_arm64") } else { Some("mac_x86_64") }
    } else if crate::text::str_eq(os, "linux") {
        Some("linux")
    } else {
        None
    }
}

impl CommandLineToolsInstallCommand {
    /// The name of the command line tools archive for the operating system `os_tag`.
    pub fn file_name(&self, os_tag: &str) -> (r: String)
        ensures r@ == "commandlinetools-"@ + os_tag@ + "-15859902_latest.zip"@,
    {
        let mut s = "commandlinetools-".to_owned();
        s.append(os_tag);
        s.append("-15859902_latest.zip");
        s
    }

    /// The address the archive for the operating system `os_tag` is downloaded from.
    pub fn download_url(&self, os_tag: &str) -> (r: String)
        ensures r@ == COMMAND_LINE_TOOLS_DOWNLOAD_URL@ + "commandlinetools-"@ + os_tag@ + "-15859902_latest.zip"@,
    {
        let mut s = COMMAND_LINE_TOOLS_DOWNLOAD_URL.to_owned();
        let name = self.file_name(os_tag);
        s.append(name.as_str());
        assert(s@ =~= COMMAND_LINE_TOOLS_DOWNLOAD_URL@ + "commandlinetools-"@ + os_tag@ + "-15859902_latest.zip"@);
        s
    }
}

/// The options of `install sdkmanager`, the Android SDK's package manager.
#[derive(Debug, Clone)]
pub struct SdkManagerInstallCommand {
    /// Install all preferred tools for correct crossbundle work
    pub preferred_tools: bool,
    /// List installed and available packages
    pub list: bool,
    /// Install package
    pub install: Option<String>,
    /// Android package that needs to be uninstalled
    pub uninstall: Option<String>,
    /// Update all installed packages
    pub update: bool,
    /// Use the specified SDK path instead of the SDK containing this tool
    pub sdk_root: Option<String>,
    /// Include packages in channels up to and including this one
    pub channel: Option<u32>,
    /// Include obsolete packages in the package listing or package updates
    pub include_obsolete: bool,
    /// Force all connections to use HTTP rather than HTTPS
    pub no_https: bool,
    /// Verbose output mode
    pub verbose: bool,
    /// Connect via a proxy of the given type (http or socks)
    pub proxy: Option<String>,
    /// IP or DNS address of the proxy to use
    pub proxy_host: Option<String>,
    /// Proxy port number to connect to
    pub proxy_port: Option<String>,
}

/// The empty set of options.
pub open spec fn sdkmanager_empty(c: SdkManagerInstallCommand) -> bool {
    &&& !c.preferred_tools && !c.list && c.install is None && c.uninstall is None && !c.update
    &&& c.sdk_root is None && c.channel is None && !c.include_obsolete && !c.no_https && !c.verbose
    &&& c.proxy is None && c.proxy_host is None && c.proxy_port is None
}

impl Default for SdkManagerInstallCommand {
    fn default() -> (r: Self)
        ensures sdkmanager_empty(r),
    {
        SdkManagerInstallCommand {
            preferred_tools: false,
            list: false,
            install: None,
            uninstall: None,
            update: false,
            sdk_root: None,
            channel: None,
            include_obsolete: false,
            no_https: false,
            verbose: false,
            proxy: None,
            proxy_host: None,
            proxy_port: None,
        }
    }
}

/// The packages installed with `--preferred-tools`.
pub open spec fn preferred_packages() -> Seq<Seq<char>> {
    seq!["build-tools;29.0.0"@, "ndk;23.1.7779620"@, "platforms;android-30"@]
}

/// The arguments `sdkmanager` is run with that choose the SDK and the
/// packages; `default_root` is the SDK root used when none is named.
pub open spec fn sdkmanager_package_args(c: SdkManagerInstallCommand, default_root: Seq<char>) -> Seq<Seq<char>> {
    let root = match opt_view(c.sdk_root) {
        Some(r) => r,
        None => default_root,
    };
    seq!["--sdk_root="@ + root]
        + (match opt_view(c.install) { Some(p) => seq![p], None => Seq::empty() })
        + (match opt_view(c.uninstall) { Some(p) => seq!["--uninstall"@, p], None => Seq::empty() })
        + flag_arg(c.update, "--update"@)
        + flag_arg(c.list, "--list"@)
        + (if c.preferred_tools { preferred_packages() } else { Seq::empty() })
}

/// The arguments `sdkmanager` is run with that set how it works.
pub open spec fn sdkmanager_setting_args(c: SdkManagerInstallCommand) -> Seq<Seq<char>> {
    prefixed_arg("--channel="@, opt_decimal(c.channel))
        + flag_arg(c.include_obsolete, "--include_obsolete"@)
        + flag_arg(c.no_https, "--no_https"@)
        + flag_arg(c.verbose, "--verbose"@)
        + prefixed_arg("--proxy="@, opt_view(c.proxy))
        + prefixed_arg("--proxy_host="@, opt_view(c.proxy_host))
        + prefixed_arg("--proxy_port="@, opt_view(c.proxy_port))
}

/// The arguments `sdkmanager` is run with; `default_root` is the SDK root used
/// when none is named.
pub open spec fn sdkmanager_args(c: SdkManagerInstallCommand, default_root: Seq<char>) -> Seq<Seq<char>> {
    sdkmanager_package_args(c, default_root) + sdkmanager_setting_args(c)
}

proof fn lemma_package_args_parts(c: SdkManagerInstallCommand, default_root: Seq<char>)
    ensures
        sdkmanager_package_args(c, default_root).len() >= 1,
        sdkmanager_package_args(c, default_root)[0]
            == "--sdk_root="@ + (if c.sdk_root is Some { c.sdk_root->0@ } else { default_root }),
        c.install is Some ==> sdkmanager_package_args(c, default_root).len() >= 2
            && sdkmanager_package_args(c, default_root)[1] == c.install->0@,
        c.uninstall is Some ==> {
            let at: int = if c.install is Some { 2 } else { 1 };
            &&& sdkmanager_package_args(c, default_root).len() >= at + 2
            &&& sdkmanager_package_args(c, default_root)[at] == "--uninstall"@
            &&& sdkmanager_package_args(c, default_root)[at + 1] == c.uninstall->0@
        },
        c.update ==> sdkmanager_package_args(c, default_root).contains("--update"@),
        c.list ==> sdkmanager_package_args(c, default_root).contains("--list"@),
        c.preferred_tools ==> sdkmanager_package_args(c, default_root).contains("ndk;23.1.7779620"@),
{
    reveal(flag_arg);
    let root = match opt_view(c.sdk_root) { Some(r) => r, None => default_root };
    let p0 = seq!["--sdk_root="@ + root];
    let p1 = p0 + (match opt_view(c.install) { Some(p) => seq![p], None => Seq::empty() });
    let p2 = p1 + (match opt_view(c.uninstall) { Some(p) => seq!["--uninstall"@, p], None => Seq::empty() });
    let p3 = p2 + flag_arg(c.update, "--update"@);
    let p4 = p3 + flag_arg(c.list, "--list"@);
    let tail = if c.preferred_tools { preferred_packages() } else { Seq::empty() };
    let pk = p4 + tail;
    assert(sdkmanager_package_args(c, default_root) == pk);
    if c.update {
        lemma_index_contains(p3, p3.len() - 1);
        lemma_concat_contains(p3, flag_arg(c.list, "--list"@), "--update"@);
        lemma_concat_contains(p4, tail, "--update"@);
    }
    if c.list {
        lemma_index_contains(p4, p4.len() - 1);
        lemma_concat_contains(p4, tail, "--list"@);
    }
    if c.preferred_tools {
        lemma_index_contains(pk, p4.len() + 1int);
    }
}

proof fn lemma_setting_args_parts(c: SdkManagerInstallCommand)
    ensures
        c.include_obsolete ==> sdkmanager_setting_args(c).contains("--include_obsolete"@),
        c.no_https ==> sdkmanager_setting_args(c).contains("--no_https"@),
        c.verbose ==> sdkmanager_setting_args(c).contains("--verbose"@),
        c.proxy is Some ==> sdkmanager_setting_args(c).contains("--proxy="@ + c.proxy->0@),
        c.proxy_host is Some ==> sdkmanager_setting_args(c).contains("--proxy_host="@ + c.proxy_host->0@),
        c.proxy_port is Some ==> sdkmanager_setting_args(c).contains("--proxy_port="@ + c.proxy_port->0@),
{
    let s0 = prefixed_arg("--channel="@, opt_decimal(c.channel));
    let t1 = flag_arg(c.include_obsolete, "--include_obsolete"@);
    let t2 = flag_arg(c.no_https, "--no_https"@);
    let t3 = flag_arg(c.verbose, "--verbose"@);
    let t4 = prefixed_arg("--proxy="@, opt_view(c.proxy));
    let t5 = prefixed_arg("--proxy_host="@, opt_view(c.proxy_host));
    let t6 = prefixed_arg("--proxy_port="@, opt_view(c.proxy_port));
    let u1 = s0 + t1;
    let u2 = u1 + t2;
    let u3 = u2 + t3;
    let u4 = u3 + t4;
    let u5 = u4 + t5;
    let u6 = u5 + t6;
    assert(sdkmanager_setting_args(c) == u6);
    lemma_flag_arg_contains(c.include_obsolete, "--include_obsolete"@);
    lemma_flag_arg_contains(c.no_https, "--no_https"@);
    lemma_flag_arg_contains(c.verbose, "--verbose"@);
    lemma_prefixed_arg_contains("--proxy="@, opt_view(c.proxy));
    lemma_prefixed_arg_contains("--proxy_host="@, opt_view(c.proxy_host));
    lemma_prefixed_arg_contains("--proxy_port="@, opt_view(c.proxy_port));
    let x1 = "--include_obsolete"@;
    let x2 = "--no_https"@;
    let x3 = "--verbose"@;
    let x4 = "--proxy="@ + opt_view(c.proxy)->0;
    let x5 = "--proxy_host="@ + opt_view(c.proxy_host)->0;
    let x6 = "--proxy_port="@ + opt_view(c.proxy_port)->0;
    lemma_concat_contains(s0, t1, x1);
    lemma_concat_contains(u1, t2, x1);
    lemma_concat_contains(u1, t2, x2);
    lemma_concat_contains(u2, t3, x1);
    lemma_concat_contains(u2, t3, x2);
    lemma_concat_contains(u2, t3, x3);
    lemma_concat_contains(u3, t4, x1);
    lemma_concat_contains(u3, t4, x2);
    lemma_concat_contains(u3, t4, x3);
    lemma_concat_contains(u3, t4, x4);
    lemma_concat_contains(u4, t5, x1);
    lemma_concat_contains(u4, t5, x2);
    lemma_concat_contains(u4, t5, x3);
    lemma_concat_contains(u4, t5, x4);
    lemma_concat_contains(u4, t5, x5);
    lemma_concat_contains(u5, t6, x1);
    lemma_concat_contains(u5, t6, x2);
    lemma_concat_contains(u5, t6, x3);
    lemma_concat_contains(u5, t6, x4);
    lemma_concat_contains(u5, t6, x5);
    lemma_concat_contains(u5, t6, x6);
}

/// The arguments of `sdkmanager` start with the SDK root (the one named, else
/// the default); a package to install comes right after it, then the package
/// to uninstall after `--uninstall`; and each switch that is set is passed.
pub proof fn lemma_sdkmanager_args_name_the_packages(c: SdkManagerInstallCommand, default_root: Seq<char>)
    ensures
        sdkmanager_args(c, default_root).len() >= 1,
        sdkmanager_args(c, default_root)[0]
            == "--sdk_root="@ + (if c.sdk_root is Some { c.sdk_root->0@ } else { default_root }),
        c.install is Some ==> sdkmanager_args(c, default_root).len() >= 2
            && sdkmanager_args(c, default_root)[1] == c.install->0@,
        c.uninstall is Some ==> {
            let at: int = if c.install is Some { 2 } else { 1 };
            &&& sdkmanager_args(c, default_root).len() >= at + 2
            &&& sdkmanager_args(c, default_root)[at] == "--uninstall"@
            &&& sdkmanager_args(c, default_root)[at + 1] == c.uninstall->0@
        },
        c.update ==> sdkmanager_args(c, default_root).contains("--update"@),
        c.list ==> sdkmanager_args(c, default_root).contains("--list"@),
        c.preferred_tools ==> sdkmanager_args(c, default_root).contains("ndk;23.1.7779620"@),
        c.include_obsolete ==> sdkmanager_args(c, default_root).contains("--include_obsolete"@),
        c.no_https ==> sdkmanager_args(c, default_root).contains("--no_https"@),
        c.verbose ==> sdkmanager_args(c, default_root).contains("--verbose"@),
        c.proxy is Some ==> sdkmanager_args(c, default_root).contains("--proxy="@ + c.proxy->0@),
        c.proxy_host is Some ==> sdkmanager_args(c, default_root).contains("--proxy_host="@ + c.proxy_host->0@),
        c.proxy_port is Some ==> sdkmanager_args(c, default_root).contains("--proxy_port="@ + c.proxy_port->0@),
{
    let pk = sdkmanager_package_args(c, default_root);
    let st = sdkmanager_setting_args(c);
    lemma_package_args_parts(c, default_root);
    lemma_setting_args_parts(c);
    if c.update { lemma_concat_contains(pk, st, "--update"@); }
    if c.list { lemma_concat_contains(pk, st, "--list"@); }
    if c.preferred_tools { lemma_concat_contains(pk, st, "ndk;23.1.7779620"@); }
    if c.include_obsolete { lemma_concat_contains(pk, st, "--include_obsolete"@); }
    if c.no_https { lemma_concat_contains(pk, st, "--no_https"@); }
    if c.verbose { lemma_concat_contains(pk, st, "--verbose"@); }
    if c.proxy is Some { lemma_concat_contains(pk, st, "--proxy="@ + c.proxy->0@); }
    if c.proxy_host is Some { lemma_concat_contains(pk, st, "--proxy_host="@ + c.proxy_host->0@); }
    if c.proxy_port is Some { lemma_concat_contains(pk, st, "--proxy_port="@ + c.proxy_port->0@); }
}

impl SdkManagerInstallCommand {
    /// Creates a new empty instance.
    pub fn new(&self) -> (r: Self)
        ensures sdkmanager_empty(r),
    {
        Self::default()
    }

    /// List installed and available packages
    pub fn list(&mut self, list: bool) -> (ret: &mut Self)
        ensures *ret == (SdkManagerInstallCommand { list, ..*old(self) }), *final(self) == *final(ret),
    {
        self.list = list;
        self
    }

    /// Install package. To see all available packages use --list.
    pub fn install(&mut self, install: String) -> (ret: &mut Self)
        ensures *ret == (SdkManagerInstallCommand { install: Some(install), ..*old(self) }), *final(self) == *final(ret),
    {
        self.install = Some(install);
        self
    }

    /// Android package that needs to be uninstalled
    pub fn uninstall(&mut self, uninstall: String) -> (ret: &mut Self)
        ensures *ret == (SdkManagerInstallCommand { uninstall: Some(uninstall), ..*old(self) }), *final(self) == *final(ret),
    {
        self.uninstall = Some(uninstall);
        self
    }

    /// Update all installed packages
    pub fn update(&mut self, update: bool) -> (ret: &mut Self)
        ensures *ret == (SdkManagerInstallCommand { update, ..*old(self) }), *final(self) == *final(ret),
    {
        self.update = update;
        self
    }

    /// Install all required tools for correct crossbundle work
    pub fn preferred_tools(&mut self, preferred_tools: bool) -> (ret: &mut Self)
        ensures *ret == (SdkManagerInstallCommand { preferred_tools, ..*old(self) }), *final(self) == *final(ret),
    {
        self.preferred_tools = preferred_tools;
        self
    }

    /// Use the specified SDK path instead of the SDK containing this tool
    pub fn sdk_root(&mut self, sdk_root: String) -> (ret: &mut Self)
        ensures *ret == (SdkManagerInstallCommand { sdk_root: Some(sdk_root), ..*old(self) }), *final(self) == *final(ret),
    {
        self.sdk_root = Some(sdk_root);
        self
    }

    /// Include packages in channels up to and including channel_id: 0 (Stable),
    /// 1 (Beta), 2 (Dev), and 3 (Canary)
    pub fn channel(&mut self, channel: u32) -> (ret: &mut Self)
        ensures *ret == (SdkManagerInstallCommand { channel: Some(channel), ..*old(self) }), *final(self) == *final(ret),
    {
        self.channel = Some(channel);
        self
    }

    /// Include obsolete packages in the package listing or package updates
    pub fn include_obsolete(&mut self, include_obsolete: bool) -> (ret: &mut Self)
        ensures *ret == (SdkManagerInstallCommand { include_obsolete, ..*old(self) }), *final(self) == *final(ret),
    {
        self.include_obsolete = include_obsolete;
        self
    }

    /// Force all connections to use HTTP rather than HTTPS
    pub fn no_https(&mut self, no_https: bool) -> (ret: &mut Self)
        ensures *ret == (SdkManagerInstallCommand { no_https, ..*old(self) }), *final(self) == *final(ret),
    {
        self.no_https = no_https;
        self
    }

    /// Verbose output mode
    pub fn verbose(&mut self, verbose: bool) -> (ret: &mut Self)
        ensures *ret == (SdkManagerInstallCommand { verbose, ..*old(self) }), *final(self) == *final(ret),
    {
        self.verbose = verbose;
        self
    }

    /// Connect via a proxy of the given type: http or socks
    pub fn proxy(&mut self, proxy: String) -> (ret: &mut Self)
        ensures *ret == (SdkManagerInstallCommand { proxy: Some(proxy), ..*old(self) }), *final(self) == *final(ret),
    {
        self.proxy = Some(proxy);
        self
    }

    /// IP or DNS address of the proxy to use
    pub fn proxy_host(&mut self, proxy_host: String) -> (ret: &mut Self)
        ensures *ret == (SdkManagerInstallCommand { proxy_host: Some(proxy_host), ..*old(self) }), *final(self) == *final(ret),
    {
        self.proxy_host = Some(proxy_host);
        self
    }

    /// Proxy port number to connect to
    pub fn proxy_port(&mut self, proxy_port: String) -> (ret: &mut Self)
        ensures *ret == (SdkManagerInstallCommand { proxy_port: Some(proxy_port), ..*old(self) }), *final(self) == *final(ret),
    {
        self.proxy_port = Some(proxy_port);
        self
    }

    fn package_args(&self, default_root: &str) -> (r: Vec<String>)
        ensures r.deep_view() == sdkmanager_package_args(*self, default_root@),
    {
        let mut args: Vec<String> = Vec::new();
        let mut root = "--sdk_root=".to_owned();
        match &self.sdk_root {
            Some(s) => root.append(s.as_str()),
            None => root.append(default_root),
        }
        push_string(&mut args, root);
        let ghost a0 = args.deep_view();
        match &self.install {
            Some(p) => push_arg(&mut args, p.as_str()),
            None => {},
        }
        let ghost a1 = args.deep_view();
        match &self.uninstall {
            Some(p) => {
                push_arg(&mut args, "--uninstall");
                push_arg(&mut args, p.as_str());
            },
            None => {},
        }
        let ghost a2 = args.deep_view();
        push_flag(&mut args, self.update, "--update");
        push_flag(&mut args, self.list, "--list");
        let ghost a3 = args.deep_view();
        if self.preferred_tools {
            push_arg(&mut args, "build-tools;29.0.0");
            push_arg(&mut args, "ndk;23.1.7779620");
            push_arg(&mut args, "platforms;android-30");
        }
        assert(a1 =~= a0 + (match opt_view(self.install) { Some(p) => seq![p], None => Seq::<Seq<char>>::empty() }));
        assert(a2 =~= a1 + (match opt_view(self.uninstall) { Some(p) => seq!["--uninstall"@, p], None => Seq::<Seq<char>>::empty() }));
        assert(args.deep_view() =~= a3 + (if self.preferred_tools { preferred_packages() } else { Seq::<Seq<char>>::empty() }));
        assert(args.deep_view() =~= sdkmanager_package_args(*self, default_root@));
        args
    }

    fn push_setting_args(&self, args: &mut Vec<String>)
        ensures final(args).deep_view() == old(args).deep_view() + sdkmanager_setting_args(*self),
    {
        let ghost start = args.deep_view();
        push_prefixed_u32(args, "--channel=", self.channel);
        push_flag(args, self.include_obsolete, "--include_obsolete");
        push_flag(args, self.no_https, "--no_https");
        push_flag(args, self.verbose, "--verbose");
        push_prefixed(args, "--proxy=", &self.proxy);
        push_prefixed(args, "--proxy_host=", &self.proxy_host);
        push_prefixed(args, "--proxy_port=", &self.proxy_port);
        assert(args.deep_view() =~= start + sdkmanager_setting_args(*self));
    }

    /// The arguments `sdkmanager` is run with, where `default_root` is the SDK
    /// root used when none is named.
    pub fn args(&self, default_root: &str) -> (r: Vec<String>)
        ensures r.deep_view() == sdkmanager_args(*self, default_root@),
    {
        let mut args = self.package_args(default_root);
        self.push_setting_args(&mut args);
        args
    }
}

/// Installation of an Android NDK through `sdkmanager`.
#[derive(Debug, Clone, Default)]
pub struct NdkInstallCommand {
    /// List installed and available packages
    pub list: bool,
    /// The NDK version to install; 22.0.7026061 when none is named
    pub ndk: Option<String>,
    /// The NDK version to uninstall
    pub uninstall: Option<String>,
    /// Update all installed packages
    pub update: bool,
    /// Install all required tools for correct crossbundle work
    pub required_tools: bool,
}

/// The packages installed with `--required-tools`.
pub open spec fn required_packages() -> Seq<Seq<char>> {
    seq![
        "build-tools;30.0.0"@,
        "cmdline-tools;latest"@,
        "extras;google;usb_driver"@,
        "extras;google;Android_Emulator_Hypervisor_Driver"@,
        "ndk;22.0.7026061"@,
        "platforms;android-30"@,
        "sources;android-30"@,
    ]
}

/// The NDK version installed when none is named.
pub const DEFAULT_NDK_VERSION: &'static str = "22.0.7026061";

/// The NDK version to install: the one named, or the default.
pub open spec fn ndk_version(named: Option<Seq<char>>) -> Seq<char> {
    match named {
        Some(v) => v,
        None => DEFAULT_NDK_VERSION@,
    }
}

/// The arguments `sdkmanager` is run with to install an NDK into `sdk_root`.
pub open spec fn ndk_args(c: NdkInstallCommand, sdk_root: Seq<char>) -> Seq<Seq<char>> {
    seq!["--sdk_root="@ + sdk_root, "ndk;"@ + ndk_version(opt_view(c.ndk))]
        + (match opt_view(c.uninstall) { Some(p) => seq!["--uninstall"@, p], None => Seq::empty() })
        + flag_arg(c.update, "--update"@)
        + flag_arg(c.list, "--list"@)
        + (if c.required_tools { required_packages() } else { Seq::empty() })
}

/// `sdkmanager` installs into the SDK root the NDK of the version named
/// (22.0.7026061 when none is), the package to uninstall follows
/// `--uninstall`, and each switch that is set is passed.
pub proof fn lemma_ndk_args_name_the_packages(c: NdkInstallCommand, sdk_root: Seq<char>)
    ensures
        ndk_args(c, sdk_root).len() >= 2,
        ndk_args(c, sdk_root)[0] == "--sdk_root="@ + sdk_root,
        ndk_args(c, sdk_root)[1] == "ndk;"@ + (if c.ndk is Some { c.ndk->0@ } else { "22.0.7026061"@ }),
        c.uninstall is Some ==> ndk_args(c, sdk_root).len() >= 4 && ndk_args(c, sdk_root)[2] == "--uninstall"@
            && ndk_args(c, sdk_root)[3] == c.uninstall->0@,
        c.update ==> ndk_args(c, sdk_root).contains("--update"@),
        c.list ==> ndk_args(c, sdk_root).contains("--list"@),
{
    broadcast use group_args_passed;
}

impl NdkInstallCommand {
    /// The arguments `sdkmanager` is run with, for the SDK at `sdk_root`.
    pub fn args(&self, sdk_root: &str) -> (r: Vec<String>)
        ensures r.deep_view() == ndk_args(*self, sdk_root@),
    {
        let mut args: Vec<String> = Vec::new();
        let mut root = "--sdk_root=".to_owned();
        root.append(sdk_root);
        push_string(&mut args, root);
        let mut package = "ndk;".to_owned();
        match &self.ndk {
            Some(v) => package.append(v.as_str()),
            None => package.append(DEFAULT_NDK_VERSION),
        }
        push_string(&mut args, package);
        let ghost a1 = args.deep_view();
        match &self.uninstall {
            Some(p) => {
                push_arg(&mut args, "--uninstall");
                push_arg(&mut args, p.as_str());
            },
            None => {},
        }
        let ghost a2 = args.deep_view();
        push_flag(&mut args, self.update, "--update");
        push_flag(&mut args, self.list, "--list");
        let ghost a3 = args.deep_view();
        if self.required_tools {
            push_arg(&mut args, "build-tools;30.0.0");
            push_arg(&mut args, "cmdline-tools;latest");
            push_arg(&mut args, "extras;google;usb_driver");
            push_arg(&mut args, "extras;google;Android_Emulator_Hypervisor_Driver");
            push_arg(&mut args, "ndk;22.0.7026061");
            push_arg(&mut args, "platforms;android-30");
            push_arg(&mut args, "sources;android-30");
        }
        assert(a2 =~= a1 + (match opt_view(self.uninstall) { Some(p) => seq!["--uninstall"@, p], None => Seq::<Seq<char>>::empty() }));
        assert(args.deep_view() =~= a3 + (if self.required_tools { required_packages() } else { Seq::<Seq<char>>::empty() }));
        assert(args.deep_view() =~= ndk_args(*self, sdk_root@));
        args
    }
}

/// The `install` subcommands.
#[derive(Debug, Clone)]
pub enum InstallCommandSubcommand {
    /// Install bundletool
    Bundletool(BundletoolInstallCommand),
    /// Download the basic Android command line tools
    CommandLineTools(CommandLineToolsInstallCommand),
    /// View, install, update, and uninstall packages of the Android SDK
    Sdkmanager(SdkManagerInstallCommand),
}

/// The options of `install`.
#[derive(Debug, Clone)]
pub struct InstallCommand {
    /// Install all necessary tools, sdk and ndk; takes precedence over the subcommand
    pub preferred: bool,
    pub subcommand: Option<InstallCommandSubcommand>,
}

/// The options of `install`.
pub open spec fn install_table() -> Seq<ArgSpec> {
    seq![arg_spec("preferred"@, None, ArgKind::Flag), help_spec()]
}

/// The subcommands of `install`.
pub open spec fn install_subs() -> Seq<Seq<char>> {
    seq!["bundletool"@, "command-line-tools"@, "sdkmanager"@, "help"@]
}

/// The options of `install bundletool`.
pub open spec fn bundletool_table() -> Seq<ArgSpec> {
    seq![
        arg_spec("version"@, Some('v'), ArgKind::Single),
        arg_spec("path"@, Some('p'), ArgKind::Single),
        arg_spec("force"@, Some('f'), ArgKind::Flag),
        help_spec(),
    ]
}

/// The options of `install command-line-tools`.
pub open spec fn command_line_tools_table() -> Seq<ArgSpec> {
    seq![
        arg_spec("install-path"@, Some('i'), ArgKind::Single),
        arg_spec("force"@, Some('f'), ArgKind::Flag),
        help_spec(),
    ]
}

/// The options of `install sdkmanager`.
pub open spec fn sdkmanager_table() -> Seq<ArgSpec> {
    seq![
        arg_spec("preferred-tools"@, Some('p'), ArgKind::Flag),
        arg_spec("list"@, Some('l'), ArgKind::Flag),
        arg_spec("install"@, Some('i'), ArgKind::Single),
        arg_spec("uninstall"@, None, ArgKind::Single),
        arg_spec("update"@, None, ArgKind::Flag),
        arg_spec("sdk-root"@, Some('s'), ArgKind::Single),
        arg_spec("channel"@, Some('c'), ArgKind::Single),
        arg_spec("include-obsolete"@, None, ArgKind::Flag),
        arg_spec("no-https"@, Some('n'), ArgKind::Flag),
        arg_spec("verbose"@, Some('v'), ArgKind::Flag),
        arg_spec("proxy"@, None, ArgKind::Single),
        arg_spec("proxy-host"@, None, ArgKind::Single),
        arg_spec("proxy-port"@, None, ArgKind::Single),
        help_spec(),
    ]
}

/// The option table of `install`.
pub fn install_defs() -> (r: Vec<ArgDef>)
    ensures defs_view(r@) == install_table(),
{
    let mut defs: Vec<ArgDef> = Vec::new();
    push_def(&mut defs, "preferred", None, ArgKind::Flag);
    push_help(&mut defs);
    assert(defs_view(defs@) =~= install_table());
    defs
}

/// The subcommand names of `install`.
pub fn install_sub_names() -> (r: Vec<&'static str>)
    ensures r.deep_view() == install_subs(),
{
    let r = names(&["bundletool", "command-line-tools", "sdkmanager", "help"]);
    assert(r.deep_view() =~= install_subs());
    r
}

/// The option table of `install bundletool`.
pub fn bundletool_defs() -> (r: Vec<ArgDef>)
    ensures defs_view(r@) == bundletool_table(),
{
    let mut defs: Vec<ArgDef> = Vec::new();
    push_def(&mut defs, "version", Some('v'), ArgKind::Single);
    push_def(&mut defs, "path", Some('p'), ArgKind::Single);
    push_def(&mut defs, "force", Some('f'), ArgKind::Flag);
    push_help(&mut defs);
    assert(defs_view(defs@) =~= bundletool_table());
    defs
}

/// The option table of `install command-line-tools`.
pub fn command_line_tools_defs() -> (r: Vec<ArgDef>)
    ensures defs_view(r@) == command_line_tools_table(),
{
    let mut defs: Vec<ArgDef> = Vec::new();
    push_def(&mut defs, "install-path", Some('i'), ArgKind::Single);
    push_def(&mut defs, "force", Some('f'), ArgKind::Flag);
    push_help(&mut defs);
    assert(defs_view(defs@) =~= command_line_tools_table());
    defs
}

/// The option table of `install sdkmanager`.
pub fn sdkmanager_defs() -> (r: Vec<ArgDef>)
    ensures defs_view(r@) == sdkmanager_table(),
{
    let mut defs: Vec<ArgDef> = Vec::new();
    push_def(&mut defs, "preferred-tools", Some('p'), ArgKind::Flag);
    push_def(&mut defs, "list", Some('l'), ArgKind::Flag);
    push_def(&mut defs, "install", Some('i'), ArgKind::Single);
    push_def(&mut defs, "uninstall", None, ArgKind::Single);
    push_def(&mut defs, "update", None, ArgKind::Flag);
    push_def(&mut defs, "sdk-root", Some('s'), ArgKind::Single);
    push_def(&mut defs, "channel", Some('c'), ArgKind::Single);
    push_def(&mut defs, "include-obsolete", None, ArgKind::Flag);
    push_def(&mut defs, "no-https", Some('n'), ArgKind::Flag);
    push_def(&mut defs, "verbose", Some('v'), ArgKind::Flag);
    push_def(&mut defs, "proxy", None, ArgKind::Single);
    push_def(&mut defs, "proxy-host", None, ArgKind::Single);
    push_def(&mut defs, "proxy-port", None, ArgKind::Single);
    push_help(&mut defs);
    assert(defs_view(defs@) =~= sdkmanager_table());
    defs
}

/// The version of an accepted `install bundletool` level: the one named, or the default.
pub open spec fn version_or_default(named: Option<Seq<char>>) -> Seq<char> {
    match named {
        Some(v) => v,
        None => DEFAULT_BUNDLETOOL_VERSION@,
    }
}

/// What an accepted `install bundletool` level says.
pub open spec fn bundletool_fields(acc: Seq<Occ>, c: BundletoolInstallCommand) -> bool {
    &&& c.version@ == version_or_default(first_of(acc, 0))
    &&& opt_view(c.path) == first_of(acc, 1)
    &&& c.force == given(acc, 2)
}

/// What an accepted `install command-line-tools` level says.
pub open spec fn command_line_tools_fields(acc: Seq<Occ>, c: CommandLineToolsInstallCommand) -> bool {
    opt_view(c.install_path) == first_of(acc, 0) && c.force == given(acc, 1)
}

/// Whether an `install sdkmanager` level is accepted: no option repeated that
/// may be given once, and the channel a number.
pub open spec fn sdkmanager_check(acc: Seq<Occ>) -> Result<(), Failure> {
    let channel = first_of(acc, 6);
    if repetition_check(sdkmanager_table(), acc) is Err {
        repetition_check(sdkmanager_table(), acc)
    } else if channel is Some && u32_of_text(channel->0) is None {
        Err(failure(ErrorKind::ValueValidation, channel->0))
    } else {
        Ok(())
    }
}

/// The channel of an accepted level.
pub open spec fn channel_of(named: Option<Seq<char>>) -> Option<u32> {
    match named {
        Some(t) => u32_of_text(t),
        None => None,
    }
}

/// What an accepted `install sdkmanager` level says.
pub open spec fn sdkmanager_fields(acc: Seq<Occ>, c: SdkManagerInstallCommand) -> bool {
    &&& c.preferred_tools == given(acc, 0)
    &&& c.list == given(acc, 1)
    &&& opt_view(c.install) == first_of(acc, 2)
    &&& opt_view(c.uninstall) == first_of(acc, 3)
    &&& c.update == given(acc, 4)
    &&& opt_view(c.sdk_root) == first_of(acc, 5)
    &&& c.channel == channel_of(first_of(acc, 6))
    &&& c.include_obsolete == given(acc, 7)
    &&& c.no_https == given(acc, 8)
    &&& c.verbose == given(acc, 9)
    &&& opt_view(c.proxy) == first_of(acc, 10)
    &&& opt_view(c.proxy_host) == first_of(acc, 11)
    &&& opt_view(c.proxy_port) == first_of(acc, 12)
}

/// A level without subcommands, read from token `start`: its rejection, if any.
pub open spec fn leaf_scan_check(s: Scanned) -> Result<Seq<Occ>, Failure> {
    match s {
        Scanned::Failed(f) => Err(f),
        Scanned::Done(acc) => Ok(acc),
        Scanned::Sub(_, _, _) => Err(failure(ErrorKind::UnknownArgument, Seq::empty())),
    }
}

/// The occurrences of a level without subcommands.
pub fn leaf_occurrences(defs: &Vec<ArgDef>, toks: &[&str], start: usize) -> (r: Result<Vec<Occurrence>, ParseError>)
    ensures
        match r {
            Ok(acc) => leaf_scan_check(level(defs_view(defs@), Seq::empty(), toks.deep_view(), start as nat))
                == Ok::<Seq<Occ>, Failure>(occs_view(acc@)),
            Err(e) => leaf_scan_check(level(defs_view(defs@), Seq::empty(), toks.deep_view(), start as nat))
                == Err::<Seq<Occ>, Failure>(e@),
        },
{
    let subs: Vec<&'static str> = Vec::new();
    assert(subs.deep_view() =~= Seq::<Seq<char>>::empty());
    match scan_level(defs, &subs, toks, start) {
        ScanOutcome::Done(acc) => Ok(acc),
        ScanOutcome::Sub(_, _, _) => Err(ParseError::bare(ErrorKind::UnknownArgument)),
        ScanOutcome::Failed(e) => Err(e),
    }
}

/// Whether the level of `install bundletool` at `start` is accepted.
pub open spec fn bundletool_level_check(toks: Seq<Seq<char>>, start: nat) -> Result<(), Failure> {
    match leaf_scan_check(level(bundletool_table(), Seq::empty(), toks, start)) {
        Err(f) => Err(f),
        Ok(acc) => repetition_check(bundletool_table(), acc),
    }
}

/// Whether the level of `install command-line-tools` at `start` is accepted.
pub open spec fn command_line_tools_level_check(toks: Seq<Seq<char>>, start: nat) -> Result<(), Failure> {
    match leaf_scan_check(level(command_line_tools_table(), Seq::empty(), toks, start)) {
        Err(f) => Err(f),
        Ok(acc) => repetition_check(command_line_tools_table(), acc),
    }
}

/// Whether the level of `install sdkmanager` at `start` is accepted.
pub open spec fn sdkmanager_level_check(toks: Seq<Seq<char>>, start: nat) -> Result<(), Failure> {
    match leaf_scan_check(level(sdkmanager_table(), Seq::empty(), toks, start)) {
        Err(f) => Err(f),
        Ok(acc) => sdkmanager_check(acc),
    }
}

/// Whether the level of `install` at `start`, with the level of its
/// subcommand, is accepted.
pub open spec fn install_check(toks: Seq<Seq<char>>, start: nat) -> Result<(), Failure> {
    match level(install_table(), install_subs(), toks, start) {
        Scanned::Failed(f) => Err(f),
        Scanned::Done(acc) => repetition_check(install_table(), acc),
        Scanned::Sub(acc, k, next) => {
            if repetition_check(install_table(), acc) is Err {
                repetition_check(install_table(), acc)
            } else if k == 0 {
                bundletool_level_check(toks, next)
            } else if k == 1 {
                command_line_tools_level_check(toks, next)
            } else if k == 2 {
                sdkmanager_level_check(toks, next)
            } else {
                Err(failure(ErrorKind::DisplayHelp, "help"@))
            }
        },
    }
}

/// What an accepted `install` level at `start` says.
pub open spec fn install_fields(toks: Seq<Seq<char>>, start: nat, c: InstallCommand) -> bool {
    match level(install_table(), install_subs(), toks, start) {
        Scanned::Done(acc) => c.preferred == given(acc, 0) && c.subcommand is None,
        Scanned::Sub(acc, k, next) => {
            &&& c.preferred == given(acc, 0)
            &&& match c.subcommand {
                Some(InstallCommandSubcommand::Bundletool(b)) => k == 0 && bundletool_fields(
                    leaf_scan_check(level(bundletool_table(), Seq::empty(), toks, next))->Ok_0,
                    b,
                ),
                Some(InstallCommandSubcommand::CommandLineTools(b)) => k == 1 && command_line_tools_fields(
                    leaf_scan_check(level(command_line_tools_table(), Seq::empty(), toks, next))->Ok_0,
                    b,
                ),
                Some(InstallCommandSubcommand::Sdkmanager(b)) => k == 2 && sdkmanager_fields(
                    leaf_scan_check(level(sdkmanager_table(), Seq::empty(), toks, next))->Ok_0,
                    b,
                ),
                None => false,
            }
        },
        Scanned::Failed(_) => false,
    }
}

/// Reads `install bundletool` from token `start`.
pub fn parse_bundletool(toks: &[&str], start: usize) -> (r: Result<BundletoolInstallCommand, ParseError>)
    ensures
        match r {
            Ok(c) => bundletool_level_check(toks.deep_view(), start as nat) is Ok && bundletool_fields(
                leaf_scan_check(level(bundletool_table(), Seq::empty(), toks.deep_view(), start as nat))->Ok_0,
                c,
            ),
            Err(e) => bundletool_level_check(toks.deep_view(), start as nat) == Err::<(), Failure>(e@),
        },
{
    let defs = bundletool_defs();
    let acc = leaf_occurrences(&defs, toks, start)?;
    check_repeats(&defs, &acc)?;
    let version = match first(&acc, 0) {
        Some(v) => v,
        None => DEFAULT_BUNDLETOOL_VERSION.to_owned(),
    };
    Ok(BundletoolInstallCommand { version, path: first(&acc, 1), force: is_given(&acc, 2) })
}

/// Reads `install command-line-tools` from token `start`.
pub fn parse_command_line_tools(toks: &[&str], start: usize) -> (r: Result<CommandLineToolsInstallCommand, ParseError>)
    ensures
        match r {
            Ok(c) => command_line_tools_level_check(toks.deep_view(), start as nat) is Ok && command_line_tools_fields(
                leaf_scan_check(level(command_line_tools_table(), Seq::empty(), toks.deep_view(), start as nat))->Ok_0,
                c,
            ),
            Err(e) => command_line_tools_level_check(toks.deep_view(), start as nat) == Err::<(), Failure>(e@),
        },
{
    let defs = command_line_tools_defs();
    let acc = leaf_occurrences(&defs, toks, start)?;
    check_repeats(&defs, &acc)?;
    Ok(CommandLineToolsInstallCommand { install_path: first(&acc, 0), force: is_given(&acc, 1) })
}

/// Reads `install sdkmanager` from token `start`.
pub fn parse_sdkmanager(toks: &[&str], start: usize) -> (r: Result<SdkManagerInstallCommand, ParseError>)
    ensures
        match r {
            Ok(c) => sdkmanager_level_check(toks.deep_view(), start as nat) is Ok && sdkmanager_fields(
                leaf_scan_check(level(sdkmanager_table(), Seq::empty(), toks.deep_view(), start as nat))->Ok_0,
                c,
            ),
            Err(e) => sdkmanager_level_check(toks.deep_view(), start as nat) == Err::<(), Failure>(e@),
        },
{
    let defs = sdkmanager_defs();
    let acc = leaf_occurrences(&defs, toks, start)?;
    check_repeats(&defs, &acc)?;
    let channel = match first(&acc, 6) {
        Some(t) => match parse_u32(t.as_str()) {
            Some(n) => Some(n),
            None => { return Err(ParseError { kind: ErrorKind::ValueValidation, argument: t }); },
        },
        None => None,
    };
    Ok(SdkManagerInstallCommand {
        preferred_tools: is_given(&acc, 0),
        list: is_given(&acc, 1),
        install: first(&acc, 2),
        uninstall: first(&acc, 3),
        update: is_given(&acc, 4),
        sdk_root: first(&acc, 5),
        channel,
        include_obsolete: is_given(&acc, 7),
        no_https: is_given(&acc, 8),
        verbose: is_given(&acc, 9),
        proxy: first(&acc, 10),
        proxy_host: first(&acc, 11),
        proxy_port: first(&acc, 12),
    })
}

/// Reads `install` and its subcommand from token `start`.
pub fn parse_install(toks: &[&str], start: usize) -> (r: Result<InstallCommand, ParseError>)
    ensures
        match r {
            Ok(c) => install_check(toks.deep_view(), start as nat) is Ok && install_fields(toks.deep_view(), start as nat, c),
            Err(e) => install_check(toks.deep_view(), start as nat) == Err::<(), Failure>(e@),
        },
{
    let defs = install_defs();
    let subs = install_sub_names();
    match scan_level(&defs, &subs, toks, start) {
        ScanOutcome::Failed(e) => Err(e),
        ScanOutcome::Done(acc) => {
            check_repeats(&defs, &acc)?;
            Ok(InstallCommand { preferred: is_given(&acc, 0), subcommand: None })
        },
        ScanOutcome::Sub(acc, k, next) => {
            check_repeats(&defs, &acc)?;
            let preferred = is_given(&acc, 0);
            if k == 0 {
                let b = parse_bundletool(toks, next)?;
                Ok(InstallCommand { preferred, subcommand: Some(InstallCommandSubcommand::Bundletool(b)) })
            } else if k == 1 {
                let b = parse_command_line_tools(toks, next)?;
                Ok(InstallCommand { preferred, subcommand: Some(InstallCommandSubcommand::CommandLineTools(b)) })
            } else if k == 2 {
                let b = parse_sdkmanager(toks, next)?;
                Ok(InstallCommand { preferred, subcommand: Some(InstallCommandSubcommand::Sdkmanager(b)) })
            } else {
                Err(ParseError::new(ErrorKind::DisplayHelp, "help"))
            }
        },
    }
}

} // verus!

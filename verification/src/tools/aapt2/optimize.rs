//! `aapt2 optimize`.
use vstd::prelude::*;
use crate::argv::{ToolCommand, flag_arg, opt_arg, opt_view, push_arg, push_flag, push_opt, group_args_passed, has_option};

verus! {

/// `aapt2 optimize`: performs resource optimizations on an apk.
pub struct Aapt2Optimize {
    /// Path to the output APK.
    pub o: String,
    /// Path to the output directory (for splits).
    pub d: String,
    /// Path to XML configuration file.
    pub x: String,
    /// Print the multi APK artifacts and exit.
    pub p: bool,
    /// Comma separated list of the screen densities that the APK will be optimized for.
    pub target_densities: Option<String>,
    /// Path to the resources.cfg file containing the list of resources and directives.
    pub resources_config_path: Option<String>,
    /// Comma separated list of configurations to include.
    pub c: Option<String>,
    /// Split resources matching a set of configs out to a Split APK.
    pub split: Option<String>,
    /// Comma separated list of artifacts to keep.
    pub keep_artifacts: Option<String>,
    /// Enables encoding sparse entries using a binary search tree.
    pub enable_sparse_encoding: bool,
    /// Collapses resource names to a single value in the key string pool.
    pub collapse_resource_name: bool,
    /// Shortens the paths of resources inside the APK.
    pub shorten_resource_paths: bool,
    /// Path to output the map of old resource paths to shortened paths.
    pub resource_path_shortening_map: Option<String>,
    /// Enables verbose logging.
    pub v: bool,
    /// Displays this help menu.
    pub h: bool,
}

/// The arguments of `aapt2 optimize` for `o`.
pub open spec fn optimize_args(o: Aapt2Optimize) -> Seq<Seq<char>> {
    seq!["optimize"@] +
        seq!["-o"@, o.o@] +
        seq!["-d"@, o.d@] +
        seq!["-x"@, o.x@] +
        flag_arg(o.p, "-p"@) +
        opt_arg("--target_densities"@, opt_view(o.target_densities)) +
        opt_arg("--resources_config_path"@, opt_view(o.resources_config_path)) +
        opt_arg("-c"@, opt_view(o.c)) +
        opt_arg("--split"@, opt_view(o.split)) +
        opt_arg("--keep_artifacts"@, opt_view(o.keep_artifacts)) +
        flag_arg(o.enable_sparse_encoding, "--enable_sparse_encoding"@) +
        flag_arg(o.collapse_resource_name, "--collapse_resource_name"@) +
        flag_arg(o.shorten_resource_paths, "--shorten_resource_paths"@) +
        opt_arg("--resource_path_shortening_map"@, opt_view(o.resource_path_shortening_map)) +
        flag_arg(o.v, "-v"@) +
        flag_arg(o.h, "-h"@)
}

impl Aapt2Optimize {
    /// Optimizes into `o`, splits into `d`, configured by `x`.
    pub fn new(o: &str, d: &str, x: &str) -> (r: Self)
        ensures
            r.o@ == o@,
            r.d@ == d@,
            r.x@ == x@,
            !r.p,
            r.target_densities is None,
            r.resources_config_path is None,
            r.c is None,
            r.split is None,
            r.keep_artifacts is None,
            !r.enable_sparse_encoding,
            !r.collapse_resource_name,
            !r.shorten_resource_paths,
            r.resource_path_shortening_map is None,
            !r.v,
            !r.h,
    {
        Aapt2Optimize {
            o: o.to_owned(),
            d: d.to_owned(),
            x: x.to_owned(),
            p: false,
            target_densities: None,
            resources_config_path: None,
            c: None,
            split: None,
            keep_artifacts: None,
            enable_sparse_encoding: false,
            collapse_resource_name: false,
            shorten_resource_paths: false,
            resource_path_shortening_map: None,
            v: false,
            h: false,
        }
    }

    pub fn p(&mut self, p: bool) -> (ret: &mut Self)
        ensures
            *ret == (Aapt2Optimize { p: p, ..*old(self) }),
            *final(self) == *final(ret),
    {
        self.p = p;
        self
    }

    pub fn target_densities(&mut self, target_densities: &str) -> (ret: &mut Self)
        ensures
            ret.target_densities matches Some(v) && v@ == target_densities@,
            *ret == (Aapt2Optimize { target_densities: ret.target_densities, ..*old(self) }),
            *final(self) == *final(ret),
    {
        self.target_densities = Some(target_densities.to_owned());
        self
    }

    pub fn c(&mut self, c: &str) -> (ret: &mut Self)
        ensures
            ret.c matches Some(v) && v@ == c@,
            *ret == (Aapt2Optimize { c: ret.c, ..*old(self) }),
            *final(self) == *final(ret),
    {
        self.c = Some(c.to_owned());
        self
    }

    pub fn split(&mut self, split: &str) -> (ret: &mut Self)
        ensures
            ret.split matches Some(v) && v@ == split@,
            *ret == (Aapt2Optimize { split: ret.split, ..*old(self) }),
            *final(self) == *final(ret),
    {
        self.split = Some(split.to_owned());
        self
    }

    pub fn keep_artifacts(&mut self, keep_artifacts: &str) -> (ret: &mut Self)
        ensures
            ret.keep_artifacts matches Some(v) && v@ == keep_artifacts@,
            *ret == (Aapt2Optimize { keep_artifacts: ret.keep_artifacts, ..*old(self) }),
            *final(self) == *final(ret),
    {
        self.keep_artifacts = Some(keep_artifacts.to_owned());
        self
    }

    pub fn enable_sparse_encoding(&mut self, enable_sparse_encoding: bool) -> (ret: &mut Self)
        ensures
            *ret == (Aapt2Optimize { enable_sparse_encoding: enable_sparse_encoding, ..*old(self) }),
            *final(self) == *final(ret),
    {
        self.enable_sparse_encoding = enable_sparse_encoding;
        self
    }

    pub fn collapse_resource_name(&mut self, collapse_resource_name: bool) -> (ret: &mut Self)
        ensures
            *ret == (Aapt2Optimize { collapse_resource_name: collapse_resource_name, ..*old(self) }),
            *final(self) == *final(ret),
    {
        self.collapse_resource_name = collapse_resource_name;
        self
    }

    pub fn shorten_resource_paths(&mut self, shorten_resource_paths: bool) -> (ret: &mut Self)
        ensures
            *ret == (Aapt2Optimize { shorten_resource_paths: shorten_resource_paths, ..*old(self) }),
            *final(self) == *final(ret),
    {
        self.shorten_resource_paths = shorten_resource_paths;
        self
    }

    pub fn resource_path_shortening_map(&mut self, resource_path_shortening_map: &str) -> (ret: &mut Self)
        ensures
            ret.resource_path_shortening_map matches Some(v) && v@ == resource_path_shortening_map@,
            *ret == (Aapt2Optimize { resource_path_shortening_map: ret.resource_path_shortening_map, ..*old(self) }),
            *final(self) == *final(ret),
    {
        self.resource_path_shortening_map = Some(resource_path_shortening_map.to_owned());
        self
    }

    pub fn v(&mut self, v: bool) -> (ret: &mut Self)
        ensures
            *ret == (Aapt2Optimize { v: v, ..*old(self) }),
            *final(self) == *final(ret),
    {
        self.v = v;
        self
    }

    pub fn h(&mut self, h: bool) -> (ret: &mut Self)
        ensures
            *ret == (Aapt2Optimize { h: h, ..*old(self) }),
            *final(self) == *final(ret),
    {
        self.h = h;
        self
    }

    /// The `aapt2 optimize` command line.
    pub fn command(&self) -> (c: ToolCommand)
        ensures
            c.program@ == "aapt2"@,
            c.args.deep_view() == optimize_args(*self),
    {
        let mut c = ToolCommand::new("aapt2");
        push_arg(&mut c.args, "optimize");
        push_arg(&mut c.args, "-o");
        push_arg(&mut c.args, self.o.as_str());
        push_arg(&mut c.args, "-d");
        push_arg(&mut c.args, self.d.as_str());
        push_arg(&mut c.args, "-x");
        push_arg(&mut c.args, self.x.as_str());
        push_flag(&mut c.args, self.p, "-p");
        push_opt(&mut c.args, "--target_densities", &self.target_densities);
        push_opt(&mut c.args, "--resources_config_path", &self.resources_config_path);
        push_opt(&mut c.args, "-c", &self.c);
        push_opt(&mut c.args, "--split", &self.split);
        push_opt(&mut c.args, "--keep_artifacts", &self.keep_artifacts);
        push_flag(&mut c.args, self.enable_sparse_encoding, "--enable_sparse_encoding");
        push_flag(&mut c.args, self.collapse_resource_name, "--collapse_resource_name");
        push_flag(&mut c.args, self.shorten_resource_paths, "--shorten_resource_paths");
        push_opt(&mut c.args, "--resource_path_shortening_map", &self.resource_path_shortening_map);
        push_flag(&mut c.args, self.v, "-v");
        push_flag(&mut c.args, self.h, "-h");
        c
    }
}


/// Every switch of `aapt2 optimize` that is set is passed, and every option that has
/// a value is passed with it.
pub proof fn lemma_optimize_passes_every_option(o: Aapt2Optimize)
    ensures
        optimize_args(o).len() >= 7,
        optimize_args(o)[0] == "optimize"@,
        optimize_args(o)[1] == "-o"@ && optimize_args(o)[2] == o.o@,
        optimize_args(o)[3] == "-d"@ && optimize_args(o)[4] == o.d@,
        optimize_args(o)[5] == "-x"@ && optimize_args(o)[6] == o.x@,
        o.p ==> optimize_args(o).contains("-p"@),
        o.enable_sparse_encoding ==> optimize_args(o).contains("--enable_sparse_encoding"@),
        o.collapse_resource_name ==> optimize_args(o).contains("--collapse_resource_name"@),
        o.shorten_resource_paths ==> optimize_args(o).contains("--shorten_resource_paths"@),
        o.v ==> optimize_args(o).contains("-v"@),
        o.h ==> optimize_args(o).contains("-h"@),
        o.target_densities is Some ==> has_option(optimize_args(o), "--target_densities"@, o.target_densities->0@),
        o.resources_config_path is Some ==> has_option(optimize_args(o), "--resources_config_path"@, o.resources_config_path->0@),
        o.c is Some ==> has_option(optimize_args(o), "-c"@, o.c->0@),
        o.split is Some ==> has_option(optimize_args(o), "--split"@, o.split->0@),
        o.keep_artifacts is Some ==> has_option(optimize_args(o), "--keep_artifacts"@, o.keep_artifacts->0@),
        o.resource_path_shortening_map is Some ==> has_option(optimize_args(o), "--resource_path_shortening_map"@, o.resource_path_shortening_map->0@),
{
    broadcast use group_args_passed;
}

} // verus!

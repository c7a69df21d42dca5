//! Android Asset Packaging Tool 2.0 (AAPT2).
//!
//! AAPT2 divides the 'package' step into two: 'compile' and 'link'. If only one file
//! changes, only that file needs recompiling before all intermediate files are linked
//! again with the 'link' command.
pub mod compile;
pub mod convert;
pub mod diff;
pub mod dump;
pub mod gen_apk_aapt2;
pub mod gen_unaligned_apk_aapt2;
pub mod link;
pub mod optimize;
pub mod version;

use vstd::prelude::*;
use crate::tools::aapt2::compile::{Aapt2Compile, Visibility};
use crate::tools::aapt2::convert::{Aapt2Convert, OutputFormat};
use crate::tools::aapt2::diff::Aapt2Diff;
use crate::tools::aapt2::dump::{Aapt2Dump, SubCommand};
use crate::tools::aapt2::link::Aapt2Link;
use crate::tools::aapt2::optimize::Aapt2Optimize;
use crate::tools::aapt2::version::Aapt2Version;

verus! {

/// Entry point to the `aapt2` sub-commands.
pub struct Aapt2;

impl Aapt2 {
    /// Compiles resources to be linked into an apk: the files under `o` into `manifest`,
    /// with the given visibility.
    pub fn compile(self, o: &str, manifest: &str, visibility: Visibility) -> (r: Aapt2Compile)
        ensures
            r.res_path matches Some(v) && v@ == o@,
            r.compiled_res@ == manifest@,
            r.res_dir is None,
            r.res_zip is None,
            r.output_text_symbols is None,
            !r.pseudo_localize,
            !r.no_crunch,
            !r.legacy,
            !r.preserve_visibility_of_styleables,
            r.visibility == Some(visibility),
            !r.verbose,
            r.trace_folder is None,
            !r.help,
    {
        let mut c = Aapt2Compile::new(o, manifest);
        c.visibility(visibility);
        c
    }

    /// Links resources into an apk.
    pub fn link(self, inputs: &[String], o: &str, manifest: &str) -> (r: Aapt2Link)
        ensures
            r.inputs@ == inputs@,
            r.output_apk@ == o@,
            r.manifest@ == manifest@,
            r.i is None,
            r.assets is None,
            r.r is None,
            r.package_id is None,
            !r.allow_reserved_package_id,
            r.java is None,
            r.proguard_options is None,
            r.proguard_main_dex is None,
            !r.proguard_conditional_keep_rules,
            !r.proguard_minimal_keep_rules,
            !r.no_auto_version,
            !r.no_version_vectors,
            !r.no_version_transitions,
            !r.no_resource_deduping,
            !r.no_resource_removal,
            !r.enable_sparse_encoding,
            !r.x,
            !r.z,
            r.config@.len() == 0,
            r.preferred_density is None,
            r.product is None,
            !r.output_to_dir,
            !r.no_xml_namespaces,
            r.min_sdk_version is None,
            r.target_sdk_version is None,
            r.version_code is None,
            r.version_code_major is None,
            r.version_name is None,
            !r.replace_version,
            r.compile_sdk_version_code is None,
            r.compile_sdk_version_name is None,
            !r.shared_lib,
            !r.static_lib,
            !r.proto_format,
            !r.no_static_lib_packages,
            !r.non_final_ids,
            !r.no_proguard_location_reference,
            r.emit_ids is None,
            r.stable_ids is None,
            r.private_symbols is None,
            r.custom_package is None,
            r.extra_packages is None,
            r.add_javadoc_annotation is None,
            r.output_text_symbols is None,
            !r.auto_add_overlay,
            !r.override_styles_instead_of_overlaying,
            r.rename_manifest_package is None,
            r.rename_resources_package is None,
            r.rename_instrumentation_target_package is None,
            r.extensions@.len() == 0,
            !r.no_compress,
            !r.keep_raw_values,
            r.no_compress_regex is None,
            !r.warn_manifest_validation,
            r.split is None,
            !r.strict_visibility,
            !r.exclude_sources,
            r.trace_folder is None,
            !r.merge_only,
            !r.v,
            !r.h,
    {
        Aapt2Link::new(inputs, o.to_owned(), manifest)
    }

    /// Used for printing information about the APK you generated using the link command.
    pub fn dump(self, subcommand: SubCommand, filename_apk: &str) -> (r: Aapt2Dump)
        ensures
            r.subcommand == subcommand,
            r.filename_apk@ == filename_apk@,
            !r.no_values,
            r.file is None,
            !r.v,
            !r.h,
    {
        Aapt2Dump::new(subcommand, filename_apk)
    }

    /// Prints the differences in resources of two apks.
    pub fn diff(self, file: &[String]) -> (r: Aapt2Diff)
        ensures
            r.input_apks@ == file@,
            !r.help,
    {
        Aapt2Diff::new(file)
    }

    /// Preforms resource optimizations on an apk.
    pub fn optimize(self, o: &str, d: &str, x: &str) -> (r: Aapt2Optimize)
        ensures
            r.o@ == o@,
            r.d@ == d@,
            r.x@ == x@,
            !r.p,
            r.target_densities is None,
            r.resources_config_path is None,
            r.c is None,
            r.split is None,
            r.keep_artifacts is None,
            !r.enable_sparse_encoding,
            !r.collapse_resource_name,
            !r.shorten_resource_paths,
            r.resource_path_shortening_map is None,
            !r.v,
            !r.h,
    {
        Aapt2Optimize::new(o, d, x)
    }

    /// Converts an apk between binary and proto formats.
    pub fn convert(self, o: &str, output_format: OutputFormat) -> (r: Aapt2Convert)
        ensures
            r.output_path@ == o@,
            r.output_format == Some(output_format),
            !r.enable_sparse_encoding,
            !r.keep_raw_values,
            !r.verbose,
            !r.help,
    {
        let c = Aapt2Convert::new(o);
        Aapt2Convert { output_format: Some(output_format), ..c }
    }

    /// Prints the version of aapt.
    pub fn version(self, version: String) -> (r: Aapt2Version)
        ensures
            r.version == version,
            !r.help,
    {
        Aapt2Version::new(version)
    }
}

} // verus!

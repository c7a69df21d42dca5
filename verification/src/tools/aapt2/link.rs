//! `aapt2 link`: links compiled resources into an apk.
use vstd::prelude::*;
use crate::text::{decimal, signed_decimal};
use crate::argv::{ToolCommand, clone_strings, each_arg, group_args_passed, has_option, join, lemma_each_arg_passed, flag_arg, joined_arg, opt_arg, opt_int_arg, opt_num_arg, opt_view, push_all, push_arg, push_each, push_flag, push_joined, push_opt, push_opt_i32, push_opt_u32};

verus! {

/// ## Link
/// In the link phase, AAPT2 merges all the intermediate files generated from the
/// compilation phase such as resource tables, binary XML files, and processed
/// PNG files and packages them into a single APK. The general syntax is
/// `aapt2 link path-to-input-files [options] -o outputdirectory/outputfilename.apk --manifest AndroidManifest.xml`.
#[derive(Debug, PartialEq)]
pub struct Aapt2Link {
    pub inputs: Vec<String>,
    /// Specifies the output path for the linked resource APK.
    pub output_apk: String,
    /// Specifies the path to the Android manifest file to build.
    pub manifest: String,
    /// Provides the path to the platform's android.jar or other APKs like
    /// framework-res.apk  which might be useful while building features. This flag is
    /// required if you are using attributes with android namespace (for example,
    /// android:id) in your resource files.
    pub i: Option<String>,
    /// Specifies an assets directory to be included in the APK.
    pub assets: Option<String>,
    /// Pass individual .flat file to link, using `overlay` semantics without using the
    /// `<add-resource>` tag.
    pub r: Option<String>,
    /// Specifies the package ID to use for your app.
    pub package_id: Option<String>,
    /// Allows the use of a reserved package ID.
    pub allow_reserved_package_id: bool,
    /// Specifies the directory in which to generate R.java.
    pub java: Option<String>,
    /// Generates output file for ProGuard rules.
    pub proguard_options: Option<String>,
    /// Generates output file for ProGuard rules for the main dex.
    pub proguard_main_dex: Option<String>,
    /// Output file for generated Proguard rules for the main dex.
    pub proguard_conditional_keep_rules: bool,
    /// Generate a minimal set of Proguard keep rules.
    pub proguard_minimal_keep_rules: bool,
    /// Disables automatic style and layout SDK versioning.
    pub no_auto_version: bool,
    /// Disables automatic versioning of vector drawables. Use this only when building
    /// your APK with the Vector Drawable Library.
    pub no_version_vectors: bool,
    /// Disables automatic versioning of transition resources. Use this only when building
    /// your APK with Transition Support library.
    pub no_version_transitions: bool,
    /// Disables automatic de-duplication of resources with identical values across
    /// compatible configurations.
    pub no_resource_deduping: bool,
    /// Disables automatic removal of resources without
    pub no_resource_removal: bool,
    /// Enables encoding of sparse entries using a binary search tree. This is useful for
    /// optimization of APK size, but at the cost of resource retrieval performance.
    pub enable_sparse_encoding: bool,
    /// Legacy flag that specifies to use the package identifier 0x01.
    pub x: bool,
    /// Requires localization of strings marked 'suggested'.
    pub z: bool,
    /// Provides a list of configurations separated by commas.
    pub config: Vec<String>,
    /// Allows AAPT2 to select the closest matching density and strip out all others.
    pub preferred_density: Option<i32>,
    /// Comma separated list of product names to keep
    pub product: Option<String>,
    /// Outputs the APK contents to a directory specified by -o.
    pub output_to_dir: bool,
    /// Removes XML namespace prefix and URI information
    pub no_xml_namespaces: bool,
    /// Sets the default minimum SDK version to use for `AndroidManifest.xml`.
    pub min_sdk_version: Option<u32>,
    /// Sets the default target SDK version to use for `AndroidManifest.xml`.
    pub target_sdk_version: Option<u32>,
    /// Specifies the version code (integer) to inject into the AndroidManifest.xml if
    /// none is present.
    pub version_code: Option<u32>,
    /// Version code major (integer) to inject into the AndroidManifest.xml if none is
    /// present.
    pub version_code_major: Option<u32>,
    /// Version name to inject into the AndroidManifest.xml if none is present.
    pub version_name: Option<String>,
    /// If --version-code and/or --version-name are specified, these values will replace
    /// any value already in the manifest. By default, nothing is changed if the manifest
    /// already defines these attributes.
    pub replace_version: bool,
    /// Version code (integer) to inject into the AndroidManifest.xml if none is present.
    pub compile_sdk_version_code: Option<u32>,
    /// Specifies the version name to inject into the AndroidManifest.xml if none is
    /// present.
    pub compile_sdk_version_name: Option<String>,
    /// Generates a shared Android runtime library.
    pub shared_lib: bool,
    /// Generate a static Android library.
    pub static_lib: bool,
    /// Generates compiled resources in Protobuf format.
    /// Suitable as input to the [`bundle tool`] for generating an Android App Bundle.
    pub proto_format: bool,
    /// Merge all library resources under the app's package.
    pub no_static_lib_packages: bool,
    /// Generates `R.java` with non-final resource IDs (references to the IDs from app’s
    /// code will not get inlined during kotlinc/javac compilation).
    pub non_final_ids: bool,
    /// Keep proguard rules files from having a reference to the source file
    pub no_proguard_location_reference: bool,
    /// Emits a file at the given path with a list of names of resource types and their ID
    /// mappings. It is suitable to use with --stable-ids.
    pub emit_ids: Option<String>,
    /// Consumes the file generated with --emit-ids containing the list of names of
    /// resource types and their assigned IDs.
    pub stable_ids: Option<String>,
    /// Package name to use when generating R.java for private symbols. If not specified,
    /// public and private symbols will use the application's package name.
    pub private_symbols: Option<String>,
    /// Specifies custom Java package under which to generate R.java.
    pub custom_package: Option<String>,
    /// Generates the same R.java file but with different package names.
    pub extra_packages: Option<String>,
    /// Adds a JavaDoc annotation to all generated Java classes.
    pub add_javadoc_annotation: Option<String>,
    /// Generates a text file containing the resource symbols of the R class in the
    /// specified file.
    pub output_text_symbols: Option<String>,
    /// Allows the addition of new resources in overlays without using the <add-resource>
    /// tag.
    pub auto_add_overlay: bool,
    /// Causes styles defined in -R resources to replace previous definitions instead of
    /// merging into them
    pub override_styles_instead_of_overlaying: bool,
    /// Renames the package in AndroidManifest.xml.
    pub rename_manifest_package: Option<String>,
    /// Renames the package in resources table
    pub rename_resources_package: Option<String>,
    /// Changes the name of the target package for [`instrumentation`].
    pub rename_instrumentation_target_package: Option<String>,
    /// Specifies the extensions of files that you do not want to compress.
    pub extensions: Vec<String>,
    /// Do not compress any resources.
    pub no_compress: bool,
    /// Preserve raw attribute values in xml files.
    pub keep_raw_values: bool,
    /// Do not compress extensions matching the regular expression. Remember to use the
    /// '$' symbol for end of line. Uses a case-sensitive ECMAScriptregular expression
    /// grammar.
    pub no_compress_regex: Option<String>,
    /// Treat manifest validation errors as warnings.
    pub warn_manifest_validation: bool,
    /// Splits resources based on a set of configurations to generate a different version
    /// of the APK.
    pub split: Option<String>,
    /// Do not allow overlays with different visibility levels.
    pub strict_visibility: bool,
    /// Do not serialize source file information when generating resources in Protobuf
    /// format.
    pub exclude_sources: bool,
    /// Generate systrace json trace fragment to specified folder.
    pub trace_folder: Option<String>,
    /// Only merge the resources, without verifying resource references. This flag should
    /// only be used together with the --static-lib flag.
    pub merge_only: bool,
    /// Enables increased verbosity of the output.
    pub v: bool,
    /// Displays this help menu
    pub h: bool,
}

/// The arguments of `aapt2 link` for `l`.
pub open spec fn link_args(l: Aapt2Link) -> Seq<Seq<char>> {
    let part1 = seq!["link"@] +
        l.inputs.deep_view() +
        seq!["-o"@, l.output_apk@] +
        seq!["--manifest"@, l.manifest@] +
        opt_arg("-I"@, opt_view(l.i)) +
        opt_arg("-A"@, opt_view(l.assets)) +
        opt_arg("-R"@, opt_view(l.r)) +
        opt_arg("--package-id"@, opt_view(l.package_id)) +
        flag_arg(l.allow_reserved_package_id, "--allow-reserved-package-id"@) +
        opt_arg("--java"@, opt_view(l.java)) +
        opt_arg("--proguard"@, opt_view(l.proguard_options)) +
        flag_arg(l.proguard_conditional_keep_rules, "--proguard-conditional-keep-rules"@) +
        flag_arg(l.no_auto_version, "--no-auto-version"@) +
        flag_arg(l.no_version_vectors, "--no-version-vectors"@) +
        flag_arg(l.no_version_transitions, "--no-version-transitions"@) +
        flag_arg(l.no_resource_deduping, "--no-resource-deduping"@);
    let part2 = part1 +
        flag_arg(l.enable_sparse_encoding, "--enable-sparse-encoding"@) +
        flag_arg(l.z, "-z"@) +
        joined_arg("-c"@, l.config.deep_view(), ","@) +
        opt_int_arg("--preferred-density"@, l.preferred_density) +
        flag_arg(l.output_to_dir, "--output-to-dir"@) +
        opt_num_arg("--min-sdk-version"@, l.min_sdk_version) +
        opt_num_arg("--target-sdk-version"@, l.target_sdk_version) +
        opt_num_arg("--version-code"@, l.version_code) +
        opt_arg("--compile-sdk-version-name"@, opt_view(l.compile_sdk_version_name)) +
        flag_arg(l.proto_format, "--proto-format"@) +
        flag_arg(l.non_final_ids, "--non-final-ids"@) +
        opt_arg("--emit-ids"@, opt_view(l.emit_ids)) +
        opt_arg("--stable-ids"@, opt_view(l.stable_ids)) +
        opt_arg("--custom-package"@, opt_view(l.custom_package)) +
        opt_arg("--extra-packages"@, opt_view(l.extra_packages)) +
        opt_arg("--add-javadoc-annotation"@, opt_view(l.add_javadoc_annotation));
    let part3 = part2 +
        opt_arg("--output-text-symbols"@, opt_view(l.output_text_symbols)) +
        flag_arg(l.auto_add_overlay, "--auto-add-overlay"@) +
        opt_arg("--rename-manifest-package"@, opt_view(l.rename_manifest_package)) +
        opt_arg("--rename-instrumentation-target-package"@, opt_view(l.rename_instrumentation_target_package)) +
        each_arg("-0"@, l.extensions.deep_view()) +
        opt_arg("--split"@, opt_view(l.split)) +
        flag_arg(l.v, "-v"@) +
        flag_arg(l.h, "-h"@) +
        opt_arg("--proguard-main-dex"@, opt_view(l.proguard_main_dex)) +
        flag_arg(l.proguard_minimal_keep_rules, "--proguard-minimal-keep-rules"@) +
        flag_arg(l.no_resource_removal, "--no-resource-removal"@) +
        flag_arg(l.x, "-x"@) +
        opt_arg("--product"@, opt_view(l.product)) +
        flag_arg(l.no_xml_namespaces, "--no-xml-namespaces"@) +
        opt_num_arg("--version-code-major"@, l.version_code_major) +
        opt_arg("--version-name"@, opt_view(l.version_name));
    let part4 = part3 +
        flag_arg(l.replace_version, "--replace-version"@) +
        opt_num_arg("--compile-sdk-version-code"@, l.compile_sdk_version_code) +
        flag_arg(l.shared_lib, "--shared-lib"@) +
        flag_arg(l.static_lib, "--static-lib"@) +
        flag_arg(l.no_static_lib_packages, "--no-static-lib-packages"@) +
        flag_arg(l.no_proguard_location_reference, "--no-proguard-location-reference"@) +
        opt_arg("--private-symbols"@, opt_view(l.private_symbols)) +
        flag_arg(l.override_styles_instead_of_overlaying, "--override-styles-instead-of-overlaying"@) +
        opt_arg("--rename-resources-package"@, opt_view(l.rename_resources_package)) +
        flag_arg(l.no_compress, "--no-compress"@) +
        flag_arg(l.keep_raw_values, "--keep-raw-values"@) +
        opt_arg("--no-compress-regex"@, opt_view(l.no_compress_regex)) +
        flag_arg(l.warn_manifest_validation, "--warn-manifest-validation"@) +
        flag_arg(l.strict_visibility, "--strict-visibility"@) +
        flag_arg(l.exclude_sources, "--exclude-sources"@) +
        opt_arg("--trace-folder"@, opt_view(l.trace_folder));
    part4 +
        flag_arg(l.merge_only, "--merge-only"@)
}


/// Setting verbose output twice keeps the last setting: the builder is then
/// what a single setting to the second value makes of it, and no other
/// option changes.
pub proof fn lemma_verbose_last_setting_wins(l: Aapt2Link, a: bool, b: bool)
    ensures
        (Aapt2Link { v: b, ..(Aapt2Link { v: a, ..l }) }) == (Aapt2Link { v: b, ..l }),
{
}

/// Every switch that is set is passed to `aapt2 link`.
#[verifier::rlimit(100)]
pub proof fn lemma_link_passes_every_switch(l: Aapt2Link)
    ensures
        l.allow_reserved_package_id ==> link_args(l).contains("--allow-reserved-package-id"@),
        l.proguard_conditional_keep_rules ==> link_args(l).contains("--proguard-conditional-keep-rules"@),
        l.no_auto_version ==> link_args(l).contains("--no-auto-version"@),
        l.no_version_vectors ==> link_args(l).contains("--no-version-vectors"@),
        l.no_version_transitions ==> link_args(l).contains("--no-version-transitions"@),
        l.no_resource_deduping ==> link_args(l).contains("--no-resource-deduping"@),
        l.enable_sparse_encoding ==> link_args(l).contains("--enable-sparse-encoding"@),
        l.z ==> link_args(l).contains("-z"@),
        l.output_to_dir ==> link_args(l).contains("--output-to-dir"@),
        l.proto_format ==> link_args(l).contains("--proto-format"@),
        l.non_final_ids ==> link_args(l).contains("--non-final-ids"@),
        l.auto_add_overlay ==> link_args(l).contains("--auto-add-overlay"@),
        l.v ==> link_args(l).contains("-v"@),
        l.h ==> link_args(l).contains("-h"@),
        l.proguard_minimal_keep_rules ==> link_args(l).contains("--proguard-minimal-keep-rules"@),
        l.no_resource_removal ==> link_args(l).contains("--no-resource-removal"@),
        l.x ==> link_args(l).contains("-x"@),
        l.no_xml_namespaces ==> link_args(l).contains("--no-xml-namespaces"@),
        l.replace_version ==> link_args(l).contains("--replace-version"@),
        l.shared_lib ==> link_args(l).contains("--shared-lib"@),
        l.static_lib ==> link_args(l).contains("--static-lib"@),
        l.no_static_lib_packages ==> link_args(l).contains("--no-static-lib-packages"@),
        l.no_proguard_location_reference ==> link_args(l).contains("--no-proguard-location-reference"@),
        l.override_styles_instead_of_overlaying ==> link_args(l).contains("--override-styles-instead-of-overlaying"@),
        l.no_compress ==> link_args(l).contains("--no-compress"@),
        l.keep_raw_values ==> link_args(l).contains("--keep-raw-values"@),
        l.warn_manifest_validation ==> link_args(l).contains("--warn-manifest-validation"@),
        l.strict_visibility ==> link_args(l).contains("--strict-visibility"@),
        l.exclude_sources ==> link_args(l).contains("--exclude-sources"@),
        l.merge_only ==> link_args(l).contains("--merge-only"@),
{
    broadcast use group_args_passed;
}

/// Every option that has a value is passed to `aapt2 link` immediately
/// followed by that value.
#[verifier::rlimit(100)]
pub proof fn lemma_link_passes_every_value(l: Aapt2Link)
    ensures
        l.i is Some ==> has_option(link_args(l), "-I"@, l.i->0@),
        l.assets is Some ==> has_option(link_args(l), "-A"@, l.assets->0@),
        l.r is Some ==> has_option(link_args(l), "-R"@, l.r->0@),
        l.package_id is Some ==> has_option(link_args(l), "--package-id"@, l.package_id->0@),
        l.java is Some ==> has_option(link_args(l), "--java"@, l.java->0@),
        l.proguard_options is Some ==> has_option(link_args(l), "--proguard"@, l.proguard_options->0@),
        l.compile_sdk_version_name is Some ==> has_option(link_args(l), "--compile-sdk-version-name"@, l.compile_sdk_version_name->0@),
        l.emit_ids is Some ==> has_option(link_args(l), "--emit-ids"@, l.emit_ids->0@),
        l.stable_ids is Some ==> has_option(link_args(l), "--stable-ids"@, l.stable_ids->0@),
        l.custom_package is Some ==> has_option(link_args(l), "--custom-package"@, l.custom_package->0@),
        l.extra_packages is Some ==> has_option(link_args(l), "--extra-packages"@, l.extra_packages->0@),
        l.add_javadoc_annotation is Some ==> has_option(link_args(l), "--add-javadoc-annotation"@, l.add_javadoc_annotation->0@),
        l.output_text_symbols is Some ==> has_option(link_args(l), "--output-text-symbols"@, l.output_text_symbols->0@),
        l.rename_manifest_package is Some ==> has_option(link_args(l), "--rename-manifest-package"@, l.rename_manifest_package->0@),
        l.rename_instrumentation_target_package is Some ==> has_option(link_args(l), "--rename-instrumentation-target-package"@, l.rename_instrumentation_target_package->0@),
        l.split is Some ==> has_option(link_args(l), "--split"@, l.split->0@),
        l.proguard_main_dex is Some ==> has_option(link_args(l), "--proguard-main-dex"@, l.proguard_main_dex->0@),
        l.product is Some ==> has_option(link_args(l), "--product"@, l.product->0@),
        l.version_name is Some ==> has_option(link_args(l), "--version-name"@, l.version_name->0@),
        l.private_symbols is Some ==> has_option(link_args(l), "--private-symbols"@, l.private_symbols->0@),
        l.rename_resources_package is Some ==> has_option(link_args(l), "--rename-resources-package"@, l.rename_resources_package->0@),
        l.no_compress_regex is Some ==> has_option(link_args(l), "--no-compress-regex"@, l.no_compress_regex->0@),
        l.trace_folder is Some ==> has_option(link_args(l), "--trace-folder"@, l.trace_folder->0@),
{
    broadcast use group_args_passed;
}

/// `aapt2 link` is given its inputs right after the subcommand, then `-o` and
/// the output, `--manifest` and the manifest; every number option is followed
/// by the number's decimal text, the configurations by their comma-separated
/// list, and each extension not to compress by `-0` before it.
#[verifier::rlimit(100)]
pub proof fn lemma_link_passes_inputs_and_numbers(l: Aapt2Link)
    ensures
        link_args(l)[0] == "link"@,
        link_args(l).len() >= l.inputs.len() + 5,
        link_args(l).subrange(1, l.inputs.len() + 1) == l.inputs.deep_view(),
        link_args(l)[l.inputs.len() + 1] == "-o"@,
        link_args(l)[l.inputs.len() + 2] == l.output_apk@,
        link_args(l)[l.inputs.len() + 3] == "--manifest"@,
        link_args(l)[l.inputs.len() + 4] == l.manifest@,
        l.min_sdk_version is Some ==> has_option(link_args(l), "--min-sdk-version"@, decimal(l.min_sdk_version->0 as nat)),
        l.target_sdk_version is Some ==> has_option(link_args(l), "--target-sdk-version"@, decimal(l.target_sdk_version->0 as nat)),
        l.version_code is Some ==> has_option(link_args(l), "--version-code"@, decimal(l.version_code->0 as nat)),
        l.version_code_major is Some ==> has_option(link_args(l), "--version-code-major"@, decimal(l.version_code_major->0 as nat)),
        l.compile_sdk_version_code is Some ==> has_option(link_args(l), "--compile-sdk-version-code"@, decimal(l.compile_sdk_version_code->0 as nat)),
        l.preferred_density is Some
            ==> has_option(link_args(l), "--preferred-density"@, signed_decimal(l.preferred_density->0 as int)),
        l.config.len() > 0 ==> has_option(link_args(l), "-c"@, join(l.config.deep_view(), ","@)),
        forall|k: int| 0 <= k < l.extensions.len() ==> has_option(link_args(l), "-0"@, #[trigger] l.extensions.deep_view()[k]),
{
    broadcast use group_args_passed;
    lemma_each_arg_passed("-0"@, l.extensions.deep_view());
}

impl Aapt2Link {
    /// Links `inputs` into `output_apk` with the manifest `manifest`.
    pub fn new(inputs: &[String], output_apk: String, manifest: &str) -> (r: Self)
        ensures
            r.inputs@ == inputs@,
            r.output_apk == output_apk,
            r.manifest@ == manifest@,
            r.i is None,
            r.assets is None,
            r.r is None,
            r.package_id is None,
            !r.allow_reserved_package_id,
            r.java is None,
            r.proguard_options is None,
            r.proguard_main_dex is None,
            !r.proguard_conditional_keep_rules,
            !r.proguard_minimal_keep_rules,
            !r.no_auto_version,
            !r.no_version_vectors,
            !r.no_version_transitions,
            !r.no_resource_deduping,
            !r.no_resource_removal,
            !r.enable_sparse_encoding,
            !r.x,
            !r.z,
            r.config@.len() == 0,
            r.preferred_density is None,
            r.product is None,
            !r.output_to_dir,
            !r.no_xml_namespaces,
            r.min_sdk_version is None,
            r.target_sdk_version is None,
            r.version_code is None,
            r.version_code_major is None,
            r.version_name is None,
            !r.replace_version,
            r.compile_sdk_version_code is None,
            r.compile_sdk_version_name is None,
            !r.shared_lib,
            !r.static_lib,
            !r.proto_format,
            !r.no_static_lib_packages,
            !r.non_final_ids,
            !r.no_proguard_location_reference,
            r.emit_ids is None,
            r.stable_ids is None,
            r.private_symbols is None,
            r.custom_package is None,
            r.extra_packages is None,
            r.add_javadoc_annotation is None,
            r.output_text_symbols is None,
            !r.auto_add_overlay,
            !r.override_styles_instead_of_overlaying,
            r.rename_manifest_package is None,
            r.rename_resources_package is None,
            r.rename_instrumentation_target_package is None,
            r.extensions@.len() == 0,
            !r.no_compress,
            !r.keep_raw_values,
            r.no_compress_regex is None,
            !r.warn_manifest_validation,
            r.split is None,
            !r.strict_visibility,
            !r.exclude_sources,
            r.trace_folder is None,
            !r.merge_only,
            !r.v,
            !r.h,
    {
        Aapt2Link {
            inputs: clone_strings(inputs),
            output_apk: output_apk,
            manifest: manifest.to_owned(),
            i: None,
            assets: None,
            r: None,
            package_id: None,
            allow_reserved_package_id: false,
            java: None,
            proguard_options: None,
            proguard_main_dex: None,
            proguard_conditional_keep_rules: false,
            proguard_minimal_keep_rules: false,
            no_auto_version: false,
            no_version_vectors: false,
            no_version_transitions: false,
            no_resource_deduping: false,
            no_resource_removal: false,
            enable_sparse_encoding: false,
            x: false,
            z: false,
            config: Vec::new(),
            preferred_density: None,
            product: None,
            output_to_dir: false,
            no_xml_namespaces: false,
            min_sdk_version: None,
            target_sdk_version: None,
            version_code: None,
            version_code_major: None,
            version_name: None,
            replace_version: false,
            compile_sdk_version_code: None,
            compile_sdk_version_name: None,
            shared_lib: false,
            static_lib: false,
            proto_format: false,
            no_static_lib_packages: false,
            non_final_ids: false,
            no_proguard_location_reference: false,
            emit_ids: None,
            stable_ids: None,
            private_symbols: None,
            custom_package: None,
            extra_packages: None,
            add_javadoc_annotation: None,
            output_text_symbols: None,
            auto_add_overlay: false,
            override_styles_instead_of_overlaying: false,
            rename_manifest_package: None,
            rename_resources_package: None,
            rename_instrumentation_target_package: None,
            extensions: Vec::new(),
            no_compress: false,
            keep_raw_values: false,
            no_compress_regex: None,
            warn_manifest_validation: false,
            split: None,
            strict_visibility: false,
            exclude_sources: false,
            trace_folder: None,
            merge_only: false,
            v: false,
            h: false,
        }
    }

    pub fn proguard_main_dex(&mut self, proguard_main_dex: String) -> (ret: &mut Self)
        ensures
            *ret == (Aapt2Link { proguard_main_dex: Some(proguard_main_dex), ..*old(self) }),
            *final(self) == *final(ret),
    {
        self.proguard_main_dex = Some(proguard_main_dex);
        self
    }

    pub fn proguard_minimal_keep_rules(&mut self, proguard_minimal_keep_rules: bool) -> (ret: &mut Self)
        ensures
            *ret == (Aapt2Link { proguard_minimal_keep_rules: proguard_minimal_keep_rules, ..*old(self) }),
            *final(self) == *final(ret),
    {
        self.proguard_minimal_keep_rules = proguard_minimal_keep_rules;
        self
    }

    pub fn no_resource_removal(&mut self, no_resource_removal: bool) -> (ret: &mut Self)
        ensures
            *ret == (Aapt2Link { no_resource_removal: no_resource_removal, ..*old(self) }),
            *final(self) == *final(ret),
    {
        self.no_resource_removal = no_resource_removal;
        self
    }

    pub fn x(&mut self, x: bool) -> (ret: &mut Self)
        ensures
            *ret == (Aapt2Link { x: x, ..*old(self) }),
            *final(self) == *final(ret),
    {
        self.x = x;
        self
    }

    pub fn product(&mut self, product: String) -> (ret: &mut Self)
        ensures
            *ret == (Aapt2Link { product: Some(product), ..*old(self) }),
            *final(self) == *final(ret),
    {
        self.product = Some(product);
        self
    }

    pub fn no_xml_namespaces(&mut self, no_xml_namespaces: bool) -> (ret: &mut Self)
        ensures
            *ret == (Aapt2Link { no_xml_namespaces: no_xml_namespaces, ..*old(self) }),
            *final(self) == *final(ret),
    {
        self.no_xml_namespaces = no_xml_namespaces;
        self
    }

    pub fn version_code_major(&mut self, version_code_major: u32) -> (ret: &mut Self)
        ensures
            *ret == (Aapt2Link { version_code_major: Some(version_code_major), ..*old(self) }),
            *final(self) == *final(ret),
    {
        self.version_code_major = Some(version_code_major);
        self
    }

    pub fn version_name(&mut self, version_name: String) -> (ret: &mut Self)
        ensures
            *ret == (Aapt2Link { version_name: Some(version_name), ..*old(self) }),
            *final(self) == *final(ret),
    {
        self.version_name = Some(version_name);
        self
    }

    pub fn replace_version(&mut self, replace_version: bool) -> (ret: &mut Self)
        ensures
            *ret == (Aapt2Link { replace_version: replace_version, ..*old(self) }),
            *final(self) == *final(ret),
    {
        self.replace_version = replace_version;
        self
    }

    pub fn compile_sdk_version_code(&mut self, compile_sdk_version_code: u32) -> (ret: &mut Self)
        ensures
            *ret == (Aapt2Link { compile_sdk_version_code: Some(compile_sdk_version_code), ..*old(self) }),
            *final(self) == *final(ret),
    {
        self.compile_sdk_version_code = Some(compile_sdk_version_code);
        self
    }

    pub fn shared_lib(&mut self, shared_lib: bool) -> (ret: &mut Self)
        ensures
            *ret == (Aapt2Link { shared_lib: shared_lib, ..*old(self) }),
            *final(self) == *final(ret),
    {
        self.shared_lib = shared_lib;
        self
    }

    pub fn static_lib(&mut self, static_lib: bool) -> (ret: &mut Self)
        ensures
            *ret == (Aapt2Link { static_lib: static_lib, ..*old(self) }),
            *final(self) == *final(ret),
    {
        self.static_lib = static_lib;
        self
    }

    pub fn no_static_lib_packages(&mut self, no_static_lib_packages: bool) -> (ret: &mut Self)
        ensures
            *ret == (Aapt2Link { no_static_lib_packages: no_static_lib_packages, ..*old(self) }),
            *final(self) == *final(ret),
    {
        self.no_static_lib_packages = no_static_lib_packages;
        self
    }

    pub fn no_proguard_location_reference(&mut self, no_proguard_location_reference: bool) -> (ret: &mut Self)
        ensures
            *ret == (Aapt2Link { no_proguard_location_reference: no_proguard_location_reference, ..*old(self) }),
            *final(self) == *final(ret),
    {
        self.no_proguard_location_reference = no_proguard_location_reference;
        self
    }

    pub fn private_symbols(&mut self, private_symbols: String) -> (ret: &mut Self)
        ensures
            *ret == (Aapt2Link { private_symbols: Some(private_symbols), ..*old(self) }),
            *final(self) == *final(ret),
    {
        self.private_symbols = Some(private_symbols);
        self
    }

    pub fn override_styles_instead_of_overlaying(&mut self, override_styles_instead_of_overlaying: bool) -> (ret: &mut Self)
        ensures
            *ret == (Aapt2Link { override_styles_instead_of_overlaying: override_styles_instead_of_overlaying, ..*old(self) }),
            *final(self) == *final(ret),
    {
        self.override_styles_instead_of_overlaying = override_styles_instead_of_overlaying;
        self
    }

    pub fn rename_resources_package(&mut self, rename_resources_package: String) -> (ret: &mut Self)
        ensures
            *ret == (Aapt2Link { rename_resources_package: Some(rename_resources_package), ..*old(self) }),
            *final(self) == *final(ret),
    {
        self.rename_resources_package = Some(rename_resources_package);
        self
    }

    pub fn i(&mut self, i: String) -> (ret: &mut Self)
        ensures
            *ret == (Aapt2Link { i: Some(i), ..*old(self) }),
            *final(self) == *final(ret),
    {
        self.i = Some(i);
        self
    }

    pub fn assets(&mut self, assets: String) -> (ret: &mut Self)
        ensures
            *ret == (Aapt2Link { assets: Some(assets), ..*old(self) }),
            *final(self) == *final(ret),
    {
        self.assets = Some(assets);
        self
    }

    pub fn r(&mut self, r: String) -> (ret: &mut Self)
        ensures
            *ret == (Aapt2Link { r: Some(r), ..*old(self) }),
            *final(self) == *final(ret),
    {
        self.r = Some(r);
        self
    }

    pub fn package_id(&mut self, package_id: String) -> (ret: &mut Self)
        ensures
            *ret == (Aapt2Link { package_id: Some(package_id), ..*old(self) }),
            *final(self) == *final(ret),
    {
        self.package_id = Some(package_id);
        self
    }

    pub fn allow_reserved_package_id(&mut self, allow_reserved_package_id: bool) -> (ret: &mut Self)
        ensures
            *ret == (Aapt2Link { allow_reserved_package_id: allow_reserved_package_id, ..*old(self) }),
            *final(self) == *final(ret),
    {
        self.allow_reserved_package_id = allow_reserved_package_id;
        self
    }

    pub fn java(&mut self, java: String) -> (ret: &mut Self)
        ensures
            *ret == (Aapt2Link { java: Some(java), ..*old(self) }),
            *final(self) == *final(ret),
    {
        self.java = Some(java);
        self
    }

    pub fn proguard_options(&mut self, proguard_options: String) -> (ret: &mut Self)
        ensures
            *ret == (Aapt2Link { proguard_options: Some(proguard_options), ..*old(self) }),
            *final(self) == *final(ret),
    {
        self.proguard_options = Some(proguard_options);
        self
    }

    pub fn proguard_conditional_keep_rules(&mut self, proguard_conditional_keep_rules: bool) -> (ret: &mut Self)
        ensures
            *ret == (Aapt2Link { proguard_conditional_keep_rules: proguard_conditional_keep_rules, ..*old(self) }),
            *final(self) == *final(ret),
    {
        self.proguard_conditional_keep_rules = proguard_conditional_keep_rules;
        self
    }

    pub fn no_auto_version(&mut self, no_auto_version: bool) -> (ret: &mut Self)
        ensures
            *ret == (Aapt2Link { no_auto_version: no_auto_version, ..*old(self) }),
            *final(self) == *final(ret),
    {
        self.no_auto_version = no_auto_version;
        self
    }

    pub fn no_version_vectors(&mut self, no_version_vectors: bool) -> (ret: &mut Self)
        ensures
            *ret == (Aapt2Link { no_version_vectors: no_version_vectors, ..*old(self) }),
            *final(self) == *final(ret),
    {
        self.no_version_vectors = no_version_vectors;
        self
    }

    pub fn no_version_transitions(&mut self, no_version_transitions: bool) -> (ret: &mut Self)
        ensures
            *ret == (Aapt2Link { no_version_transitions: no_version_transitions, ..*old(self) }),
            *final(self) == *final(ret),
    {
        self.no_version_transitions = no_version_transitions;
        self
    }

    pub fn no_resource_deduping(&mut self, no_resource_deduping: bool) -> (ret: &mut Self)
        ensures
            *ret == (Aapt2Link { no_resource_deduping: no_resource_deduping, ..*old(self) }),
            *final(self) == *final(ret),
    {
        self.no_resource_deduping = no_resource_deduping;
        self
    }

    pub fn enable_sparse_encoding(&mut self, enable_sparse_encoding: bool) -> (ret: &mut Self)
        ensures
            *ret == (Aapt2Link { enable_sparse_encoding: enable_sparse_encoding, ..*old(self) }),
            *final(self) == *final(ret),
    {
        self.enable_sparse_encoding = enable_sparse_encoding;
        self
    }

    pub fn z(&mut self, z: bool) -> (ret: &mut Self)
        ensures
            *ret == (Aapt2Link { z: z, ..*old(self) }),
            *final(self) == *final(ret),
    {
        self.z = z;
        self
    }

    pub fn config(&mut self, config: String) -> (ret: &mut Self)
        ensures
            ret.config@ == old(self).config@.push(config),
            *ret == (Aapt2Link { config: ret.config, ..*old(self) }),
            *final(self) == *final(ret),
    {
        self.config.push(config);
        self
    }

    pub fn preferred_density(&mut self, preferred_density: i32) -> (ret: &mut Self)
        ensures
            *ret == (Aapt2Link { preferred_density: Some(preferred_density), ..*old(self) }),
            *final(self) == *final(ret),
    {
        self.preferred_density = Some(preferred_density);
        self
    }

    pub fn output_to_dir(&mut self, output_to_dir: bool) -> (ret: &mut Self)
        ensures
            *ret == (Aapt2Link { output_to_dir: output_to_dir, ..*old(self) }),
            *final(self) == *final(ret),
    {
        self.output_to_dir = output_to_dir;
        self
    }

    pub fn min_sdk_version(&mut self, min_sdk_version: u32) -> (ret: &mut Self)
        ensures
            *ret == (Aapt2Link { min_sdk_version: Some(min_sdk_version), ..*old(self) }),
            *final(self) == *final(ret),
    {
        self.min_sdk_version = Some(min_sdk_version);
        self
    }

    pub fn target_sdk_version(&mut self, target_sdk_version: u32) -> (ret: &mut Self)
        ensures
            *ret == (Aapt2Link { target_sdk_version: Some(target_sdk_version), ..*old(self) }),
            *final(self) == *final(ret),
    {
        self.target_sdk_version = Some(target_sdk_version);
        self
    }

    pub fn version_code(&mut self, version_code: u32) -> (ret: &mut Self)
        ensures
            *ret == (Aapt2Link { version_code: Some(version_code), ..*old(self) }),
            *final(self) == *final(ret),
    {
        self.version_code = Some(version_code);
        self
    }

    pub fn compile_sdk_version_name(&mut self, compile_sdk_version_name: String) -> (ret: &mut Self)
        ensures
            *ret == (Aapt2Link { compile_sdk_version_name: Some(compile_sdk_version_name), ..*old(self) }),
            *final(self) == *final(ret),
    {
        self.compile_sdk_version_name = Some(compile_sdk_version_name);
        self
    }

    pub fn proto_format(&mut self, proto_format: bool) -> (ret: &mut Self)
        ensures
            *ret == (Aapt2Link { proto_format: proto_format, ..*old(self) }),
            *final(self) == *final(ret),
    {
        self.proto_format = proto_format;
        self
    }

    pub fn non_final_ids(&mut self, non_final_ids: bool) -> (ret: &mut Self)
        ensures
            *ret == (Aapt2Link { non_final_ids: non_final_ids, ..*old(self) }),
            *final(self) == *final(ret),
    {
        self.non_final_ids = non_final_ids;
        self
    }

    pub fn emit_ids(&mut self, emit_ids: String) -> (ret: &mut Self)
        ensures
            *ret == (Aapt2Link { emit_ids: Some(emit_ids), ..*old(self) }),
            *final(self) == *final(ret),
    {
        self.emit_ids = Some(emit_ids);
        self
    }

    pub fn stable_ids(&mut self, stable_ids: String) -> (ret: &mut Self)
        ensures
            *ret == (Aapt2Link { stable_ids: Some(stable_ids), ..*old(self) }),
            *final(self) == *final(ret),
    {
        self.stable_ids = Some(stable_ids);
        self
    }

    pub fn custom_package(&mut self, custom_package: String) -> (ret: &mut Self)
        ensures
            *ret == (Aapt2Link { custom_package: Some(custom_package), ..*old(self) }),
            *final(self) == *final(ret),
    {
        self.custom_package = Some(custom_package);
        self
    }

    pub fn extra_packages(&mut self, extra_packages: String) -> (ret: &mut Self)
        ensures
            *ret == (Aapt2Link { extra_packages: Some(extra_packages), ..*old(self) }),
            *final(self) == *final(ret),
    {
        self.extra_packages = Some(extra_packages);
        self
    }

    pub fn add_javadoc_annotation(&mut self, add_javadoc_annotation: String) -> (ret: &mut Self)
        ensures
            *ret == (Aapt2Link { add_javadoc_annotation: Some(add_javadoc_annotation), ..*old(self) }),
            *final(self) == *final(ret),
    {
        self.add_javadoc_annotation = Some(add_javadoc_annotation);
        self
    }

    pub fn output_text_symbols(&mut self, output_text_symbols: String) -> (ret: &mut Self)
        ensures
            *ret == (Aapt2Link { output_text_symbols: Some(output_text_symbols), ..*old(self) }),
            *final(self) == *final(ret),
    {
        self.output_text_symbols = Some(output_text_symbols);
        self
    }

    pub fn auto_add_overlay(&mut self, auto_add_overlay: bool) -> (ret: &mut Self)
        ensures
            *ret == (Aapt2Link { auto_add_overlay: auto_add_overlay, ..*old(self) }),
            *final(self) == *final(ret),
    {
        self.auto_add_overlay = auto_add_overlay;
        self
    }

    pub fn rename_manifest_package(&mut self, rename_manifest_package: String) -> (ret: &mut Self)
        ensures
            *ret == (Aapt2Link { rename_manifest_package: Some(rename_manifest_package), ..*old(self) }),
            *final(self) == *final(ret),
    {
        self.rename_manifest_package = Some(rename_manifest_package);
        self
    }

    pub fn rename_instrumentation_target_package(&mut self, rename_instrumentation_target_package: String) -> (ret: &mut Self)
        ensures
            *ret == (Aapt2Link { rename_instrumentation_target_package: Some(rename_instrumentation_target_package), ..*old(self) }),
            *final(self) == *final(ret),
    {
        self.rename_instrumentation_target_package = Some(rename_instrumentation_target_package);
        self
    }

    pub fn no_compress(&mut self, no_compress: bool) -> (ret: &mut Self)
        ensures
            *ret == (Aapt2Link { no_compress: no_compress, ..*old(self) }),
            *final(self) == *final(ret),
    {
        self.no_compress = no_compress;
        self
    }

    pub fn keep_raw_values(&mut self, keep_raw_values: bool) -> (ret: &mut Self)
        ensures
            *ret == (Aapt2Link { keep_raw_values: keep_raw_values, ..*old(self) }),
            *final(self) == *final(ret),
    {
        self.keep_raw_values = keep_raw_values;
        self
    }

    pub fn extension(&mut self, extension: String) -> (ret: &mut Self)
        ensures
            ret.extensions@ == old(self).extensions@.push(extension),
            *ret == (Aapt2Link { extensions: ret.extensions, ..*old(self) }),
            *final(self) == *final(ret),
    {
        self.extensions.push(extension);
        self
    }

    pub fn no_compress_regex(&mut self, no_compress_regex: String) -> (ret: &mut Self)
        ensures
            *ret == (Aapt2Link { no_compress_regex: Some(no_compress_regex), ..*old(self) }),
            *final(self) == *final(ret),
    {
        self.no_compress_regex = Some(no_compress_regex);
        self
    }

    pub fn warn_manifest_validation(&mut self, warn_manifest_validation: bool) -> (ret: &mut Self)
        ensures
            *ret == (Aapt2Link { warn_manifest_validation: warn_manifest_validation, ..*old(self) }),
            *final(self) == *final(ret),
    {
        self.warn_manifest_validation = warn_manifest_validation;
        self
    }

    pub fn split(&mut self, split: String) -> (ret: &mut Self)
        ensures
            *ret == (Aapt2Link { split: Some(split), ..*old(self) }),
            *final(self) == *final(ret),
    {
        self.split = Some(split);
        self
    }

    pub fn strict_visibility(&mut self, strict_visibility: bool) -> (ret: &mut Self)
        ensures
            *ret == (Aapt2Link { strict_visibility: strict_visibility, ..*old(self) }),
            *final(self) == *final(ret),
    {
        self.strict_visibility = strict_visibility;
        self
    }

    pub fn trace_folder(&mut self, trace_folder: String) -> (ret: &mut Self)
        ensures
            *ret == (Aapt2Link { trace_folder: Some(trace_folder), ..*old(self) }),
            *final(self) == *final(ret),
    {
        self.trace_folder = Some(trace_folder);
        self
    }

    pub fn exclude_sources(&mut self, exclude_sources: bool) -> (ret: &mut Self)
        ensures
            *ret == (Aapt2Link { exclude_sources: exclude_sources, ..*old(self) }),
            *final(self) == *final(ret),
    {
        self.exclude_sources = exclude_sources;
        self
    }

    pub fn merge_only(&mut self, merge_only: bool) -> (ret: &mut Self)
        ensures
            *ret == (Aapt2Link { merge_only: merge_only, ..*old(self) }),
            *final(self) == *final(ret),
    {
        self.merge_only = merge_only;
        self
    }

    pub fn v(&mut self, v: bool) -> (ret: &mut Self)
        ensures
            *ret == (Aapt2Link { v: v, ..*old(self) }),
            *final(self) == *final(ret),
    {
        self.v = v;
        self
    }

    pub fn h(&mut self, h: bool) -> (ret: &mut Self)
        ensures
            *ret == (Aapt2Link { h: h, ..*old(self) }),
            *final(self) == *final(ret),
    {
        self.h = h;
        self
    }

    fn push_args_1(&self, args: &mut Vec<String>)
        ensures
            final(args).deep_view() == old(args).deep_view() +
                seq!["link"@] +
                self.inputs.deep_view() +
                seq!["-o"@, self.output_apk@] +
                seq!["--manifest"@, self.manifest@] +
                opt_arg("-I"@, opt_view(self.i)) +
                opt_arg("-A"@, opt_view(self.assets)) +
                opt_arg("-R"@, opt_view(self.r)) +
                opt_arg("--package-id"@, opt_view(self.package_id)) +
                flag_arg(self.allow_reserved_package_id, "--allow-reserved-package-id"@) +
                opt_arg("--java"@, opt_view(self.java)) +
                opt_arg("--proguard"@, opt_view(self.proguard_options)) +
                flag_arg(self.proguard_conditional_keep_rules, "--proguard-conditional-keep-rules"@) +
                flag_arg(self.no_auto_version, "--no-auto-version"@) +
                flag_arg(self.no_version_vectors, "--no-version-vectors"@) +
                flag_arg(self.no_version_transitions, "--no-version-transitions"@) +
                flag_arg(self.no_resource_deduping, "--no-resource-deduping"@),
    {
        push_arg(args, "link");
        push_all(args, &self.inputs);
        push_arg(args, "-o");
        push_arg(args, self.output_apk.as_str());
        push_arg(args, "--manifest");
        push_arg(args, self.manifest.as_str());
        push_opt(args, "-I", &self.i);
        push_opt(args, "-A", &self.assets);
        push_opt(args, "-R", &self.r);
        push_opt(args, "--package-id", &self.package_id);
        push_flag(args, self.allow_reserved_package_id, "--allow-reserved-package-id");
        push_opt(args, "--java", &self.java);
        push_opt(args, "--proguard", &self.proguard_options);
        push_flag(args, self.proguard_conditional_keep_rules, "--proguard-conditional-keep-rules");
        push_flag(args, self.no_auto_version, "--no-auto-version");
        push_flag(args, self.no_version_vectors, "--no-version-vectors");
        push_flag(args, self.no_version_transitions, "--no-version-transitions");
        push_flag(args, self.no_resource_deduping, "--no-resource-deduping");
    }

    fn push_args_2(&self, args: &mut Vec<String>)
        ensures
            final(args).deep_view() == old(args).deep_view() +
                flag_arg(self.enable_sparse_encoding, "--enable-sparse-encoding"@) +
                flag_arg(self.z, "-z"@) +
                joined_arg("-c"@, self.config.deep_view(), ","@) +
                opt_int_arg("--preferred-density"@, self.preferred_density) +
                flag_arg(self.output_to_dir, "--output-to-dir"@) +
                opt_num_arg("--min-sdk-version"@, self.min_sdk_version) +
                opt_num_arg("--target-sdk-version"@, self.target_sdk_version) +
                opt_num_arg("--version-code"@, self.version_code) +
                opt_arg("--compile-sdk-version-name"@, opt_view(self.compile_sdk_version_name)) +
                flag_arg(self.proto_format, "--proto-format"@) +
                flag_arg(self.non_final_ids, "--non-final-ids"@) +
                opt_arg("--emit-ids"@, opt_view(self.emit_ids)) +
                opt_arg("--stable-ids"@, opt_view(self.stable_ids)) +
                opt_arg("--custom-package"@, opt_view(self.custom_package)) +
                opt_arg("--extra-packages"@, opt_view(self.extra_packages)) +
                opt_arg("--add-javadoc-annotation"@, opt_view(self.add_javadoc_annotation)),
    {
        push_flag(args, self.enable_sparse_encoding, "--enable-sparse-encoding");
        push_flag(args, self.z, "-z");
        push_joined(args, "-c", &self.config, ",");
        push_opt_i32(args, "--preferred-density", self.preferred_density);
        push_flag(args, self.output_to_dir, "--output-to-dir");
        push_opt_u32(args, "--min-sdk-version", self.min_sdk_version);
        push_opt_u32(args, "--target-sdk-version", self.target_sdk_version);
        push_opt_u32(args, "--version-code", self.version_code);
        push_opt(args, "--compile-sdk-version-name", &self.compile_sdk_version_name);
        push_flag(args, self.proto_format, "--proto-format");
        push_flag(args, self.non_final_ids, "--non-final-ids");
        push_opt(args, "--emit-ids", &self.emit_ids);
        push_opt(args, "--stable-ids", &self.stable_ids);
        push_opt(args, "--custom-package", &self.custom_package);
        push_opt(args, "--extra-packages", &self.extra_packages);
        push_opt(args, "--add-javadoc-annotation", &self.add_javadoc_annotation);
    }

    fn push_args_3(&self, args: &mut Vec<String>)
        ensures
            final(args).deep_view() == old(args).deep_view() +
                opt_arg("--output-text-symbols"@, opt_view(self.output_text_symbols)) +
                flag_arg(self.auto_add_overlay, "--auto-add-overlay"@) +
                opt_arg("--rename-manifest-package"@, opt_view(self.rename_manifest_package)) +
                opt_arg("--rename-instrumentation-target-package"@, opt_view(self.rename_instrumentation_target_package)) +
                each_arg("-0"@, self.extensions.deep_view()) +
                opt_arg("--split"@, opt_view(self.split)) +
                flag_arg(self.v, "-v"@) +
                flag_arg(self.h, "-h"@) +
                opt_arg("--proguard-main-dex"@, opt_view(self.proguard_main_dex)) +
                flag_arg(self.proguard_minimal_keep_rules, "--proguard-minimal-keep-rules"@) +
                flag_arg(self.no_resource_removal, "--no-resource-removal"@) +
                flag_arg(self.x, "-x"@) +
                opt_arg("--product"@, opt_view(self.product)) +
                flag_arg(self.no_xml_namespaces, "--no-xml-namespaces"@) +
                opt_num_arg("--version-code-major"@, self.version_code_major) +
                opt_arg("--version-name"@, opt_view(self.version_name)),
    {
        push_opt(args, "--output-text-symbols", &self.output_text_symbols);
        push_flag(args, self.auto_add_overlay, "--auto-add-overlay");
        push_opt(args, "--rename-manifest-package", &self.rename_manifest_package);
        push_opt(args, "--rename-instrumentation-target-package", &self.rename_instrumentation_target_package);
        push_each(args, "-0", &self.extensions);
        push_opt(args, "--split", &self.split);
        push_flag(args, self.v, "-v");
        push_flag(args, self.h, "-h");
        push_opt(args, "--proguard-main-dex", &self.proguard_main_dex);
        push_flag(args, self.proguard_minimal_keep_rules, "--proguard-minimal-keep-rules");
        push_flag(args, self.no_resource_removal, "--no-resource-removal");
        push_flag(args, self.x, "-x");
        push_opt(args, "--product", &self.product);
        push_flag(args, self.no_xml_namespaces, "--no-xml-namespaces");
        push_opt_u32(args, "--version-code-major", self.version_code_major);
        push_opt(args, "--version-name", &self.version_name);
    }

    fn push_args_4(&self, args: &mut Vec<String>)
        ensures
            final(args).deep_view() == old(args).deep_view() +
                flag_arg(self.replace_version, "--replace-version"@) +
                opt_num_arg("--compile-sdk-version-code"@, self.compile_sdk_version_code) +
                flag_arg(self.shared_lib, "--shared-lib"@) +
                flag_arg(self.static_lib, "--static-lib"@) +
                flag_arg(self.no_static_lib_packages, "--no-static-lib-packages"@) +
                flag_arg(self.no_proguard_location_reference, "--no-proguard-location-reference"@) +
                opt_arg("--private-symbols"@, opt_view(self.private_symbols)) +
                flag_arg(self.override_styles_instead_of_overlaying, "--override-styles-instead-of-overlaying"@) +
                opt_arg("--rename-resources-package"@, opt_view(self.rename_resources_package)) +
                flag_arg(self.no_compress, "--no-compress"@) +
                flag_arg(self.keep_raw_values, "--keep-raw-values"@) +
                opt_arg("--no-compress-regex"@, opt_view(self.no_compress_regex)) +
                flag_arg(self.warn_manifest_validation, "--warn-manifest-validation"@) +
                flag_arg(self.strict_visibility, "--strict-visibility"@) +
                flag_arg(self.exclude_sources, "--exclude-sources"@) +
                opt_arg("--trace-folder"@, opt_view(self.trace_folder)),
    {
        push_flag(args, self.replace_version, "--replace-version");
        push_opt_u32(args, "--compile-sdk-version-code", self.compile_sdk_version_code);
        push_flag(args, self.shared_lib, "--shared-lib");
        push_flag(args, self.static_lib, "--static-lib");
        push_flag(args, self.no_static_lib_packages, "--no-static-lib-packages");
        push_flag(args, self.no_proguard_location_reference, "--no-proguard-location-reference");
        push_opt(args, "--private-symbols", &self.private_symbols);
        push_flag(args, self.override_styles_instead_of_overlaying, "--override-styles-instead-of-overlaying");
        push_opt(args, "--rename-resources-package", &self.rename_resources_package);
        push_flag(args, self.no_compress, "--no-compress");
        push_flag(args, self.keep_raw_values, "--keep-raw-values");
        push_opt(args, "--no-compress-regex", &self.no_compress_regex);
        push_flag(args, self.warn_manifest_validation, "--warn-manifest-validation");
        push_flag(args, self.strict_visibility, "--strict-visibility");
        push_flag(args, self.exclude_sources, "--exclude-sources");
        push_opt(args, "--trace-folder", &self.trace_folder);
    }

    fn push_args_5(&self, args: &mut Vec<String>)
        ensures
            final(args).deep_view() == old(args).deep_view() +
                flag_arg(self.merge_only, "--merge-only"@),
    {
        push_flag(args, self.merge_only, "--merge-only");
    }

    /// The `aapt2 link` command line.
    pub fn command(&self) -> (c: ToolCommand)
        ensures
            c.program@ == "aapt2"@,
            c.args.deep_view() == link_args(*self),
    {
        let mut c = ToolCommand::new("aapt2");
        self.push_args_1(&mut c.args);
        self.push_args_2(&mut c.args);
        self.push_args_3(&mut c.args);
        self.push_args_4(&mut c.args);
        self.push_args_5(&mut c.args);
        c
    }
}


} // verus!

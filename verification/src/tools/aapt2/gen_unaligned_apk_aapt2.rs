//! Generating an unaligned apk from compiled resources.
use vstd::prelude::*;
use crate::tools::aapt2::link::Aapt2Link;

verus! {

/// Generates the unaligned apk `o_link` from the compiled resources `inputs_link` and the
/// manifest, against the platform jar `android_jar`.
///
/// Resources are compiled again only where they changed since the last run; no change is
/// tracked, so only the link step is returned.
pub fn gen_aapt2_apk(
    inputs_compile: &[String],
    o_compile: &str,
    android_jar: &str,
    inputs_link: &[String],
    o_link: &str,
    manifest: &str,
) -> (r: Aapt2Link)
    ensures
        r.inputs@ == inputs_link@,
        r.output_apk@ == o_link@,
        r.manifest@ == manifest@,
        r.i matches Some(j) && j@ == android_jar@,
        r.assets is None,
        r.r is None,
        r.package_id is None,
        !r.allow_reserved_package_id,
        r.java is None,
        r.proguard_options is None,
        r.proguard_main_dex is None,
        !r.proguard_conditional_keep_rules,
        !r.proguard_minimal_keep_rules,
        !r.no_auto_version,
        !r.no_version_vectors,
        !r.no_version_transitions,
        !r.no_resource_deduping,
        !r.no_resource_removal,
        !r.enable_sparse_encoding,
        !r.x,
        !r.z,
        r.config@.len() == 0,
        r.preferred_density is None,
        r.product is None,
        !r.output_to_dir,
        !r.no_xml_namespaces,
        r.min_sdk_version is None,
        r.target_sdk_version is None,
        r.version_code is None,
        r.version_code_major is None,
        r.version_name is None,
        !r.replace_version,
        r.compile_sdk_version_code is None,
        r.compile_sdk_version_name is None,
        !r.shared_lib,
        !r.static_lib,
        !r.proto_format,
        !r.no_static_lib_packages,
        !r.non_final_ids,
        !r.no_proguard_location_reference,
        r.emit_ids is None,
        r.stable_ids is None,
        r.private_symbols is None,
        r.custom_package is None,
        r.extra_packages is None,
        r.add_javadoc_annotation is None,
        r.output_text_symbols is None,
        !r.auto_add_overlay,
        !r.override_styles_instead_of_overlaying,
        r.rename_manifest_package is None,
        r.rename_resources_package is None,
        r.rename_instrumentation_target_package is None,
        r.extensions@.len() == 0,
        !r.no_compress,
        !r.keep_raw_values,
        r.no_compress_regex is None,
        !r.warn_manifest_validation,
        r.split is None,
        !r.strict_visibility,
        !r.exclude_sources,
        r.trace_folder is None,
        !r.merge_only,
        !r.v,
        !r.h,
{
    let mut l = Aapt2Link::new(inputs_link, o_link.to_owned(), manifest);
    l.i(android_jar.to_owned());
    l
}

} // verus!

//! The Info.plist of the macOS framework bundle that packages the library.
use vstd::prelude::*;
use vstd::string::StringExecFns;

verus! {

/// The property list of a bundle, one field per key.
#[derive(Debug)]
pub struct InfoPlist {
    pub cf_bundle_development_region: String,
    pub cf_bundle_executable: String,
    pub cf_bundle_identifier: String,
    pub cf_bundle_info_dictionary_version: String,
    pub cf_bundle_name: String,
    pub cf_bundle_package_type: String,
    pub cf_bundle_signature: String,
    pub cf_bundle_version: String,
    pub cf_bundle_short_version_string: String,
    pub ls_environment: Vec<(String, String)>,
    pub ls_file_quarantine_enabled: bool,
    pub ls_minimum_system_version: String,
    pub ls_ui_element: Option<String>,
}

impl InfoPlist {
    /// The property list of the framework bundle whose executable is
    /// `lib_name`. Helper bundles are marked as UI elements (no Dock icon).
    pub fn framework(lib_name: &str, is_helper: bool) -> (r: InfoPlist)
        ensures
            r.cf_bundle_executable@ == lib_name@,
            r.cf_bundle_development_region@ == "en"@,
            r.cf_bundle_identifier@ == "me.delton.gdcef.libgdcef"@,
            r.cf_bundle_info_dictionary_version@ == "6.0"@,
            r.cf_bundle_name@ == "gdcef"@,
            r.cf_bundle_package_type@ == "FMWK"@,
            r.cf_bundle_signature@ == "????"@,
            r.cf_bundle_version@ == "1.0.0"@,
            r.cf_bundle_short_version_string@ == "1.0"@,
            r.ls_environment@.len() == 1,
            r.ls_environment@[0].0@ == "MallocNanoZone"@,
            r.ls_environment@[0].1@ == "0"@,
            r.ls_file_quarantine_enabled,
            r.ls_minimum_system_version@ == "11.0"@,
            is_helper ==> (r.ls_ui_element matches Some(s) && s@ == "1"@),
            !is_helper ==> r.ls_ui_element is None,
    {
        let mut env: Vec<(String, String)> = Vec::new();
        env.push((String::from_str("MallocNanoZone"), String::from_str("0")));
        InfoPlist {
            cf_bundle_development_region: String::from_str("en"),
            cf_bundle_executable: String::from_str(lib_name),
            cf_bundle_identifier: String::from_str("me.delton.gdcef.libgdcef"),
            cf_bundle_info_dictionary_version: String::from_str("6.0"),
            cf_bundle_name: String::from_str("gdcef"),
            cf_bundle_package_type: String::from_str("FMWK"),
            cf_bundle_signature: String::from_str("????"),
            cf_bundle_version: String::from_str("1.0.0"),
            cf_bundle_short_version_string: String::from_str("1.0"),
            ls_environment: env,
            ls_file_quarantine_enabled: true,
            ls_minimum_system_version: String::from_str("11.0"),
            ls_ui_element: if is_helper {
                Some(String::from_str("1"))
            } else {
                None
            },
        }
    }
}

} // verus!

use vcv::detect::{
    build_vs_info, detect_sdk, detect_ucrt, detect_vs, list_vs_versions, sdk_include_dir, sdk_marker,
    tools_dir, tools_ver_markers, ucrt_lib_dir, ucrt_marker, version_year, year_prefix, VsWhereEntry,
};
use vcv::disk::Disk;

fn entry(path: &str, version: &str) -> VsWhereEntry {
    VsWhereEntry { installation_path: path.to_string(), installation_version: version.to_string() }
}

/// A disk on which the installation at `path` declares toolset `tv` through
/// its pinned marker and holds that toolset directory.
fn add_install(disk: &mut Disk, path: &str, tv: &str) {
    let (primary, _) = tools_ver_markers(path);
    disk.add_text(primary, tv.to_string());
    disk.add_path(tools_dir(path, tv));
}

#[test]
fn marker_paths_follow_the_layout() {
    let (p, f) = tools_ver_markers("C:\\VS");
    assert_eq!(p, "C:\\VS\\VC\\Auxiliary\\Build\\Microsoft.VCToolsVersion.v143.default.txt");
    assert_eq!(f, "C:\\VS\\VC\\Auxiliary\\Build\\Microsoft.VCToolsVersion.default.txt");
    assert_eq!(tools_dir("C:\\VS", "14.38.33130"), "C:\\VS\\VC\\Tools\\MSVC\\14.38.33130");
}

#[test]
fn year_prefixes() {
    assert_eq!(year_prefix(2017), Some("15."));
    assert_eq!(year_prefix(2019), Some("16."));
    assert_eq!(year_prefix(2022), Some("17."));
    assert_eq!(year_prefix(2020), None);
    assert_eq!(version_year("17.8.34330.188"), Some(2022));
    assert_eq!(version_year("16.11.0"), Some(2019));
    assert_eq!(version_year("15.9.1"), Some(2017));
    assert_eq!(version_year("14.0"), None);
    assert_eq!(version_year(""), None);
}

#[test]
fn build_vs_info_prefers_the_pinned_marker() {
    let mut disk = Disk::new();
    let (primary, fallback) = tools_ver_markers("C:\\VS");
    disk.add_text(primary, "14.38.33130".to_string());
    disk.add_text(fallback, "14.30.0".to_string());
    disk.add_path(tools_dir("C:\\VS", "14.38.33130"));
    let info = build_vs_info(&entry("C:\\VS", "17.8.1"), &disk).unwrap();
    assert_eq!(info.install, "C:\\VS");
    assert_eq!(info.version, "17.8.1");
    assert_eq!(info.vc, "C:\\VS\\VC");
    assert_eq!(info.tools_ver, "14.38.33130");
    assert_eq!(info.tools, "C:\\VS\\VC\\Tools\\MSVC\\14.38.33130");
}

#[test]
fn build_vs_info_falls_back_to_the_generic_marker() {
    let mut disk = Disk::new();
    let (_, fallback) = tools_ver_markers("C:\\VS");
    disk.add_text(fallback, "14.29.30133".to_string());
    disk.add_path(tools_dir("C:\\VS", "14.29.30133"));
    let info = build_vs_info(&entry("C:\\VS", "16.11.5"), &disk).unwrap();
    assert_eq!(info.tools_ver, "14.29.30133");
}

#[test]
fn build_vs_info_needs_marker_and_toolset_dir() {
    let mut disk = Disk::new();
    assert!(build_vs_info(&entry("C:\\VS", "17.0"), &disk).is_none());
    let (primary, _) = tools_ver_markers("C:\\VS");
    disk.add_text(primary, "14.38.33130".to_string());
    assert!(build_vs_info(&entry("C:\\VS", "17.0"), &disk).is_none());
}

#[test]
fn detect_vs_picks_the_greatest_version() {
    let mut disk = Disk::new();
    add_install(&mut disk, "C:\\A", "14.29.1");
    add_install(&mut disk, "C:\\B", "14.38.1");
    add_install(&mut disk, "C:\\C", "14.16.1");
    let entries = vec![entry("C:\\A", "16.11.5"), entry("C:\\B", "17.8.1"), entry("C:\\C", "15.9.2")];
    let info = detect_vs(&entries, None, &disk).unwrap();
    assert_eq!(info.install, "C:\\B");
    assert_eq!(info.version, "17.8.1");
}

#[test]
fn detect_vs_skips_an_invalid_newest_candidate() {
    let mut disk = Disk::new();
    add_install(&mut disk, "C:\\A", "14.29.1");
    let entries = vec![entry("C:\\B", "17.8.1"), entry("C:\\A", "16.11.5")];
    let info = detect_vs(&entries, None, &disk).unwrap();
    assert_eq!(info.install, "C:\\A");
}

#[test]
fn detect_vs_is_independent_of_listing_order() {
    let mut disk = Disk::new();
    add_install(&mut disk, "C:\\A", "14.29.1");
    add_install(&mut disk, "C:\\B", "14.38.1");
    let a = vec![entry("C:\\A", "16.11.5"), entry("C:\\B", "17.8.1"), entry("C:\\X", "17.9.0")];
    let b = vec![entry("C:\\X", "17.9.0"), entry("C:\\B", "17.8.1"), entry("C:\\A", "16.11.5")];
    let ra = detect_vs(&a, None, &disk).unwrap();
    let rb = detect_vs(&b, None, &disk).unwrap();
    assert_eq!(ra.version, "17.8.1");
    assert_eq!(rb.version, "17.8.1");
    assert_eq!(ra.install, rb.install);
}

#[test]
fn detect_vs_breaks_ties_by_listing_order() {
    let mut disk = Disk::new();
    add_install(&mut disk, "C:\\A", "14.38.1");
    add_install(&mut disk, "C:\\B", "14.38.2");
    let entries = vec![entry("C:\\A", "17.8.1"), entry("C:\\B", "17.8.1")];
    assert_eq!(detect_vs(&entries, None, &disk).unwrap().install, "C:\\A");
    let entries = vec![entry("C:\\B", "17.8.1"), entry("C:\\A", "17.8.1")];
    assert_eq!(detect_vs(&entries, None, &disk).unwrap().install, "C:\\B");
}

#[test]
fn detect_vs_honours_the_year() {
    let mut disk = Disk::new();
    add_install(&mut disk, "C:\\A", "14.29.1");
    add_install(&mut disk, "C:\\B", "14.38.1");
    let entries = vec![entry("C:\\A", "16.11.5"), entry("C:\\B", "17.8.1")];
    assert_eq!(detect_vs(&entries, Some(2019), &disk).unwrap().install, "C:\\A");
    assert_eq!(detect_vs(&entries, Some(2022), &disk).unwrap().install, "C:\\B");
    assert!(detect_vs(&entries, Some(2017), &disk).is_none());
    assert!(detect_vs(&entries, Some(2020), &disk).is_none());
}

#[test]
fn detect_vs_with_no_candidates() {
    let disk = Disk::new();
    assert!(detect_vs(&Vec::new(), None, &disk).is_none());
    assert!(detect_vs(&Vec::new(), Some(2022), &disk).is_none());
}

#[test]
fn round_trip_with_year_constraint() {
    let mut disk = Disk::new();
    add_install(&mut disk, "C:\\VS\\2022", "14.38.33130");
    let entries = vec![entry("C:\\VS\\2022", "17.8.34330.188")];
    let info = detect_vs(&entries, Some(2022), &disk).unwrap();
    assert_eq!(info.install, "C:\\VS\\2022");
    assert_eq!(info.version, "17.8.34330.188");
    assert!(detect_vs(&entries, Some(2019), &disk).is_none());
    assert_eq!(list_vs_versions(&entries), vec![(2022u16, "17.8.34330.188".to_string())]);
}

#[test]
fn list_vs_versions_labels_known_majors() {
    let entries = vec![entry("a", "15.9.1"), entry("b", "14.0"), entry("c", "16.1"), entry("d", "17.2"), entry("e", "")];
    assert_eq!(
        list_vs_versions(&entries),
        vec![(2017u16, "15.9.1".to_string()), (2019u16, "16.1".to_string()), (2022u16, "17.2".to_string())]
    );
}

#[test]
fn sdk_paths() {
    assert_eq!(sdk_include_dir("C:\\Kits\\10\\"), "C:\\Kits\\10\\include");
    assert_eq!(sdk_marker("C:\\Kits\\10", "10.0.22000.0"), "C:\\Kits\\10\\include\\10.0.22000.0\\um\\winsdkver.h");
    assert_eq!(ucrt_lib_dir("C:\\Kits\\10"), "C:\\Kits\\10\\Lib");
    assert_eq!(ucrt_marker("C:\\Kits\\10", "10.0.1"), "C:\\Kits\\10\\Lib\\10.0.1\\ucrt\\x64\\ucrt.lib");
}

#[test]
fn sdk_picks_the_marked_version() {
    let root = "C:\\Kits\\10";
    let mut disk = Disk::new();
    disk.add_path(sdk_include_dir(root));
    disk.add_path(sdk_marker(root, "10.0.22000.0"));
    let names = vec!["10.0.19041.0".to_string(), "10.0.22000.0".to_string()];
    let sdk = detect_sdk(Some(root.to_string()), &names, &disk).unwrap();
    assert_eq!(sdk.path, root);
    assert_eq!(sdk.version, "10.0.22000.0");
}

#[test]
fn sdk_picks_the_newest_of_several_marked() {
    let root = "C:\\Kits\\10";
    let mut disk = Disk::new();
    disk.add_path(sdk_include_dir(root));
    for n in ["10.0.19041.0", "10.0.22621.0", "10.0.22000.0", "11.0.1.0", "wdf"] {
        disk.add_path(sdk_marker(root, n));
    }
    let names: Vec<String> =
        ["10.0.19041.0", "10.0.22621.0", "10.0.22000.0", "11.0.1.0", "wdf"].iter().map(|s| s.to_string()).collect();
    assert_eq!(detect_sdk(Some(root.to_string()), &names, &disk).unwrap().version, "10.0.22621.0");
}

#[test]
fn sdk_absent_cases() {
    let root = "C:\\Kits\\10";
    let names = vec!["10.0.22000.0".to_string()];
    let mut disk = Disk::new();
    disk.add_path(sdk_marker(root, "10.0.22000.0"));
    assert!(detect_sdk(None, &names, &disk).is_none());
    assert!(detect_sdk(Some(root.to_string()), &names, &disk).is_none());
    let mut disk = Disk::new();
    disk.add_path(sdk_include_dir(root));
    assert!(detect_sdk(Some(root.to_string()), &names, &disk).is_none());
}

#[test]
fn ucrt_checks_the_x64_marker() {
    let root = "C:\\Kits\\10";
    let mut disk = Disk::new();
    disk.add_path(ucrt_lib_dir(root));
    disk.add_path(ucrt_marker(root, "10.0.19041.0"));
    disk.add_path("C:\\Kits\\10\\Lib\\10.0.22000.0\\ucrt\\arm64\\ucrt.lib".to_string());
    let names = vec!["10.0.22000.0".to_string(), "10.0.19041.0".to_string()];
    let u = detect_ucrt(Some(root.to_string()), &names, &disk).unwrap();
    assert_eq!(u.path, root);
    assert_eq!(u.version, "10.0.19041.0");
    assert!(detect_ucrt(None, &names, &disk).is_none());
}

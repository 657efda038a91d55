use vcv::arch::Arch;
use vcv::detect::{SdkInfo, VsInfo};
use vcv::disk::Disk;
use vcv::env::{build_env, env_candidates, Env};
use vcv::format::{drive_path, fmt_cmd, fmt_ps, fmt_sh, join_strs, win_to_unix};
use vcv::registry::{reg_probes, Hive};
use vcv::text::{join, starts_with, str_lt};

const T: &str = "C:\\VS\\VC\\Tools\\MSVC\\14.38";

fn vs() -> VsInfo {
    VsInfo {
        install: "C:\\VS".to_string(),
        version: "17.8.1".to_string(),
        vc: "C:\\VS\\VC".to_string(),
        tools_ver: "14.38".to_string(),
        tools: T.to_string(),
    }
}

fn kit(version: &str) -> SdkInfo {
    SdkInfo { path: "C:\\Kits\\10".to_string(), version: version.to_string() }
}

fn s(v: &[&str]) -> Vec<String> {
    v.iter().map(|x| x.to_string()).collect()
}

fn disk_with_all(vs: &VsInfo, sdk: Option<&SdkInfo>, ucrt: Option<&SdkInfo>, host: Arch, target: Arch) -> Disk {
    let mut disk = Disk::new();
    for p in env_candidates(vs, sdk, ucrt, host, target) {
        disk.add_path(p);
    }
    disk
}

fn var_names(env: &Env) -> Vec<String> {
    env.vars.iter().map(|(k, _)| k.clone()).collect()
}

#[test]
fn arch_names() {
    assert_eq!(Arch::X64.as_str(), "x64");
    assert_eq!(Arch::X86.as_str(), "x86");
    assert_eq!(Arch::Arm64.as_str(), "arm64");
    assert_eq!(Arch::X64.host_dir(), "Hostx64");
    assert_eq!(Arch::X86.host_dir(), "Hostx86");
    assert_eq!(Arch::Arm64.host_dir(), "Hostarm64");
}

#[test]
fn path_joining() {
    assert_eq!(join("C:\\VS", "VC"), "C:\\VS\\VC");
    assert_eq!(join("C:\\VS\\", "VC"), "C:\\VS\\VC");
    assert_eq!(join("C:/VS/", "VC"), "C:/VS/VC");
    assert_eq!(join("", "VC"), "VC");
}

#[test]
fn string_order_and_prefix() {
    assert!(str_lt("16.11.5", "17.0"));
    assert!(!str_lt("17.0", "16.11.5"));
    assert!(str_lt("17.0", "17.0.1"));
    assert!(!str_lt("17.0", "17.0"));
    assert!(str_lt("10.0.19041.0", "10.0.22000.0"));
    assert!(starts_with("17.8.1", "17."));
    assert!(!starts_with("1", "17."));
    assert!(starts_with("abc", ""));
}

#[test]
fn disk_records() {
    let mut d = Disk::new();
    assert!(!d.contains(&"a".to_string()));
    assert!(d.read(&"f".to_string()).is_none());
    d.add_path("a".to_string());
    d.add_text("f".to_string(), "one".to_string());
    d.add_text("f".to_string(), "two".to_string());
    assert!(d.contains(&"a".to_string()));
    assert!(d.contains(&"f".to_string()));
    assert!(!d.contains(&"b".to_string()));
    assert_eq!(d.read(&"f".to_string()), Some("two".to_string()));
}

#[test]
fn cross_build_without_sdk_or_runtime() {
    let vs = vs();
    let disk = disk_with_all(&vs, None, None, Arch::X64, Arch::Arm64);
    let env = build_env(&vs, None, None, Arch::X64, Arch::Arm64, &disk);
    assert_eq!(env.path, s(&[&format!("{T}\\bin\\Hostx64\\arm64"), &format!("{T}\\bin\\Hostx64\\x64")]));
    assert_eq!(env.includes, s(&[&format!("{T}\\include"), &format!("{T}\\ATLMFC\\include")]));
    assert_eq!(env.lib, s(&[&format!("{T}\\lib\\arm64"), &format!("{T}\\ATLMFC\\lib\\arm64")]));
    assert_eq!(env.libpath, env.lib);
    assert_eq!(
        env.vars,
        vec![
            ("Platform".to_string(), "arm64".to_string()),
            ("VCINSTALLDIR".to_string(), "C:\\VS\\VC\\".to_string()),
            ("VCToolsInstallDir".to_string(), format!("{T}\\")),
            ("VCToolsVersion".to_string(), "14.38".to_string()),
            ("VSINSTALLDIR".to_string(), "C:\\VS\\".to_string()),
            ("VisualStudioVersion".to_string(), "17.0".to_string()),
        ]
    );
}

#[test]
fn native_build_has_one_compiler_dir() {
    let vs = vs();
    let disk = disk_with_all(&vs, None, None, Arch::X86, Arch::X86);
    let env = build_env(&vs, None, None, Arch::X86, Arch::X86, &disk);
    assert_eq!(env.path, s(&[&format!("{T}\\bin\\Hostx86\\x86")]));
}

#[test]
fn full_build_with_sdk_and_runtime() {
    let vs = vs();
    let sdk = kit("10.0.22000.0");
    let ucrt = kit("10.0.22000.0");
    let disk = disk_with_all(&vs, Some(&sdk), Some(&ucrt), Arch::X64, Arch::X64);
    let env = build_env(&vs, Some(&sdk), Some(&ucrt), Arch::X64, Arch::X64, &disk);
    let k = "C:\\Kits\\10";
    let v = "10.0.22000.0";
    assert_eq!(env.path, s(&[&format!("{T}\\bin\\Hostx64\\x64"), &format!("{k}\\bin\\{v}\\x64")]));
    assert_eq!(
        env.includes,
        s(&[
            &format!("{T}\\include"),
            &format!("{T}\\ATLMFC\\include"),
            &format!("{k}\\include\\{v}\\um"),
            &format!("{k}\\include\\{v}\\shared"),
            &format!("{k}\\include\\{v}\\winrt"),
            &format!("{k}\\include\\{v}\\cppwinrt"),
            &format!("{k}\\include\\{v}\\ucrt"),
        ])
    );
    assert_eq!(
        env.lib,
        s(&[
            &format!("{T}\\lib\\x64"),
            &format!("{T}\\ATLMFC\\lib\\x64"),
            &format!("{k}\\lib\\{v}\\um\\x64"),
            &format!("{k}\\lib\\{v}\\ucrt\\x64"),
        ])
    );
    assert_eq!(
        env.libpath,
        s(&[
            &format!("{T}\\lib\\x64"),
            &format!("{T}\\ATLMFC\\lib\\x64"),
            &format!("{k}\\UnionMetadata\\{v}"),
            &format!("{k}\\References\\{v}"),
        ])
    );
    assert_eq!(
        var_names(&env),
        s(&[
            "Platform",
            "UCRTVersion",
            "UniversalCRTSdkDir",
            "VCINSTALLDIR",
            "VCToolsInstallDir",
            "VCToolsVersion",
            "VSINSTALLDIR",
            "VisualStudioVersion",
            "WindowsSDKVersion",
            "WindowsSdkDir",
        ])
    );
    let mut sorted = var_names(&env);
    sorted.sort();
    assert_eq!(sorted, var_names(&env));
    assert_eq!(env.vars[1].1, v);
    assert_eq!(env.vars[2].1, "C:\\Kits\\10\\");
    assert_eq!(env.vars[8].1, "10.0.22000.0\\");
    assert_eq!(env.vars[9].1, "C:\\Kits\\10\\");
}

#[test]
fn missing_paths_are_left_out() {
    let vs = vs();
    let sdk = kit("10.0.22000.0");
    let mut disk = Disk::new();
    disk.add_path(format!("{T}\\include"));
    disk.add_path(format!("{T}\\lib\\x64"));
    let env = build_env(&vs, Some(&sdk), None, Arch::X64, Arch::X64, &disk);
    assert!(env.path.is_empty());
    assert_eq!(env.includes, s(&[&format!("{T}\\include")]));
    assert_eq!(env.lib, s(&[&format!("{T}\\lib\\x64")]));
    assert_eq!(env.libpath, s(&[&format!("{T}\\lib\\x64")]));
    for p in env.path.iter().chain(&env.includes).chain(&env.lib).chain(&env.libpath) {
        assert!(disk.contains(p));
    }
    let again = build_env(&vs, Some(&sdk), None, Arch::X64, Arch::X64, &disk);
    assert_eq!(again.includes, env.includes);
    assert_eq!(again.vars, env.vars);
    assert_eq!(env.vars.len(), 8);
}

#[test]
fn candidate_list_covers_all_lists() {
    let vs = vs();
    let sdk = kit("10.0.1");
    let ucrt = kit("10.0.1");
    assert_eq!(env_candidates(&vs, Some(&sdk), Some(&ucrt), Arch::X86, Arch::Arm64).len(), 3 + 7 + 4 + 4);
    assert_eq!(env_candidates(&vs, None, None, Arch::X64, Arch::X64).len(), 1 + 2 + 2 + 2);
}

fn small_env() -> Env {
    Env {
        path: s(&["C:\\a", "D:\\b"]),
        includes: s(&["C:\\i"]),
        lib: Vec::new(),
        libpath: Vec::new(),
        vars: vec![("K".to_string(), "v".to_string())],
    }
}

#[test]
fn cmd_script() {
    assert_eq!(fmt_cmd(&small_env()), "set \"PATH=C:\\a;D:\\b;%PATH%\"\nset \"INCLUDE=C:\\i;%INCLUDE%\"\nset \"K=v\"");
}

#[test]
fn powershell_script() {
    assert_eq!(
        fmt_ps(&small_env()),
        "$env:PATH = \"C:\\a;D:\\b;$env:PATH\"\n$env:INCLUDE = \"C:\\i;$env:INCLUDE\"\n$env:K = \"v\""
    );
}

#[test]
fn posix_script_converts_only_the_path() {
    assert_eq!(fmt_sh(&small_env()), "export PATH=\"/c/a:/d/b:$PATH\"\nexport INCLUDE=\"C:\\i;$INCLUDE\"\nexport K=\"v\"");
}

#[test]
fn empty_environment_renders_nothing() {
    let env = Env { path: Vec::new(), includes: Vec::new(), lib: Vec::new(), libpath: Vec::new(), vars: Vec::new() };
    assert_eq!(fmt_cmd(&env), "");
    assert_eq!(fmt_ps(&env), "");
    assert_eq!(fmt_sh(&env), "");
}

#[test]
fn windows_to_posix_paths() {
    assert_eq!(win_to_unix("C:\\Program Files\\x"), "/c/Program Files/x");
    assert_eq!(win_to_unix("d:\\y"), "/d/y");
    assert_eq!(win_to_unix("\\\\server\\share"), "//server/share");
    assert_eq!(win_to_unix("rel\\dir"), "rel/dir");
    assert_eq!(win_to_unix("C:"), "/c");
    assert_eq!(drive_path("q", "Q:\\a\\b"), "/q/a/b");
}

#[test]
fn joining_strings() {
    assert_eq!(join_strs(&Vec::new(), ";"), "");
    assert_eq!(join_strs(&s(&["a"]), ";"), "a");
    assert_eq!(join_strs(&s(&["a", "b", "c"]), "; "), "a; b; c");
}

#[test]
fn registry_probe_order() {
    let p = reg_probes("Microsoft\\Windows Kits\\Installed Roots");
    assert_eq!(
        p,
        vec![
            (Hive::LocalMachine, "SOFTWARE\\Wow6432Node\\Microsoft\\Windows Kits\\Installed Roots".to_string()),
            (Hive::LocalMachine, "SOFTWARE\\Microsoft\\Windows Kits\\Installed Roots".to_string()),
            (Hive::CurrentUser, "SOFTWARE\\Wow6432Node\\Microsoft\\Windows Kits\\Installed Roots".to_string()),
            (Hive::CurrentUser, "SOFTWARE\\Microsoft\\Windows Kits\\Installed Roots".to_string()),
        ]
    );
}

//! Assembling the search paths and variables of the build environment.

use vstd::prelude::*;
use crate::arch::{arch_name, host_dir_name, Arch};
use crate::detect::{SdkInfo, VsInfo};
use crate::disk::Disk;
use crate::text::{join, lemma_lex_lt_at, lex_lt, path_join, views};

verus! {

/// The assembled environment: four ordered search-path lists and the named
/// variables, sorted by name.
#[derive(Debug, Clone)]
pub struct Env {
    pub path: Vec<String>,
    pub includes: Vec<String>,
    pub lib: Vec<String>,
    pub libpath: Vec<String>,
    pub vars: Vec<(String, String)>,
}

/// The paths of `s` that exist on disk, in order.
pub open spec fn keep(s: Seq<Seq<char>>, disk: Disk) -> Seq<Seq<char>>
    decreases s.len(),
{
    if s.len() == 0 {
        Seq::empty()
    } else {
        let rest = keep(s.drop_last(), disk);
        if disk.has(s.last()) {
            rest.push(s.last())
        } else {
            rest
        }
    }
}

/// `a` joined with `b`, then `c`.
pub open spec fn j2(a: Seq<char>, b: Seq<char>, c: Seq<char>) -> Seq<char> {
    path_join(path_join(a, b), c)
}

/// `a` joined with `b`, `c`, then `d`.
pub open spec fn j3(a: Seq<char>, b: Seq<char>, c: Seq<char>, d: Seq<char>) -> Seq<char> {
    path_join(j2(a, b, c), d)
}

/// `a` joined with `b`, `c`, `d`, then `e`.
pub open spec fn j4(a: Seq<char>, b: Seq<char>, c: Seq<char>, d: Seq<char>, e: Seq<char>) -> Seq<char> {
    path_join(j3(a, b, c, d), e)
}

/// The compiler directory for building on `host` for `target`.
pub open spec fn cross_bin_of(tools: Seq<char>, host: Arch, target: Arch) -> Seq<char> {
    j3(tools, "bin"@, host_dir_name(host), arch_name(target))
}

/// The compiler directory for building on `host` for `host`.
pub open spec fn native_bin_of(tools: Seq<char>, host: Arch) -> Seq<char> {
    j3(tools, "bin"@, host_dir_name(host), arch_name(host))
}

/// Executable search path before the existence filter.
pub open spec fn path_layout(tools: Seq<char>, sdk: Option<SdkInfo>, host: Arch, target: Arch) -> Seq<Seq<char>> {
    let vc = if host == target {
        seq![cross_bin_of(tools, host, target)]
    } else {
        seq![cross_bin_of(tools, host, target), native_bin_of(tools, host)]
    };
    match sdk {
        Some(s) => vc.push(j3(s.path@, "bin"@, s.version@, arch_name(host))),
        None => vc,
    }
}

/// Header search paths before the existence filter.
pub open spec fn include_layout(tools: Seq<char>, sdk: Option<SdkInfo>, ucrt: Option<SdkInfo>) -> Seq<Seq<char>> {
    let vc = seq![path_join(tools, "include"@), j2(tools, "ATLMFC"@, "include"@)];
    let with_sdk = match sdk {
        Some(s) => vc + seq![
            j3(s.path@, "include"@, s.version@, "um"@),
            j3(s.path@, "include"@, s.version@, "shared"@),
            j3(s.path@, "include"@, s.version@, "winrt"@),
            j3(s.path@, "include"@, s.version@, "cppwinrt"@),
        ],
        None => vc,
    };
    match ucrt {
        Some(u) => with_sdk.push(j3(u.path@, "include"@, u.version@, "ucrt"@)),
        None => with_sdk,
    }
}

/// The toolset's own library directories for `target`.
pub open spec fn vc_lib_layout(tools: Seq<char>, target: Arch) -> Seq<Seq<char>> {
    seq![j2(tools, "lib"@, arch_name(target)), j3(tools, "ATLMFC"@, "lib"@, arch_name(target))]
}

/// Library search paths before the existence filter.
pub open spec fn lib_layout(tools: Seq<char>, sdk: Option<SdkInfo>, ucrt: Option<SdkInfo>, target: Arch) -> Seq<Seq<char>> {
    let vc = vc_lib_layout(tools, target);
    let with_sdk = match sdk {
        Some(s) => vc.push(j4(s.path@, "lib"@, s.version@, "um"@, arch_name(target))),
        None => vc,
    };
    match ucrt {
        Some(u) => with_sdk.push(j4(u.path@, "lib"@, u.version@, "ucrt"@, arch_name(target))),
        None => with_sdk,
    }
}

/// Reference (metadata) search paths before the existence filter.
pub open spec fn libpath_layout(tools: Seq<char>, sdk: Option<SdkInfo>, target: Arch) -> Seq<Seq<char>> {
    let vc = vc_lib_layout(tools, target);
    match sdk {
        Some(s) => vc + seq![path_join(path_join(s.path@, "UnionMetadata"@), s.version@),
            path_join(path_join(s.path@, "References"@), s.version@)],
        None => vc,
    }
}

/// A directory-valued variable: the directory with a trailing backslash.
pub open spec fn dir_value(p: Seq<char>) -> Seq<char> {
    p + seq!['\\']
}

/// The named variables, in sorted order of their names.
pub open spec fn vars_of(vs: VsInfo, sdk: Option<SdkInfo>, ucrt: Option<SdkInfo>, target: Arch) -> Seq<(Seq<char>, Seq<char>)> {
    let head = seq![("Platform"@, arch_name(target))];
    let with_ucrt = match ucrt {
        Some(u) => head + seq![("UCRTVersion"@, u.version@), ("UniversalCRTSdkDir"@, dir_value(u.path@))],
        None => head,
    };
    let with_vs = with_ucrt + seq![
        ("VCINSTALLDIR"@, dir_value(vs.vc@)),
        ("VCToolsInstallDir"@, dir_value(vs.tools@)),
        ("VCToolsVersion"@, vs.tools_ver@),
        ("VSINSTALLDIR"@, dir_value(vs.install@)),
        ("VisualStudioVersion"@, "17.0"@),
    ];
    match sdk {
        Some(s) => with_vs + seq![("WindowsSDKVersion"@, dir_value(s.version@)), ("WindowsSdkDir"@, dir_value(s.path@))],
        None => with_vs,
    }
}

/// The character sequences of a list of name/value pairs.
pub open spec fn pair_views(v: Seq<(String, String)>) -> Seq<(Seq<char>, Seq<char>)> {
    v.map_values(|p: (String, String)| (p.0@, p.1@))
}

/// `env` is the environment assembled from these components on this disk.
pub open spec fn assembled(env: Env, vs: VsInfo, sdk: Option<SdkInfo>, ucrt: Option<SdkInfo>, host: Arch, target: Arch, disk: Disk) -> bool {
    &&& views(env.path@) == keep(path_layout(vs.tools@, sdk, host, target), disk)
    &&& views(env.includes@) == keep(include_layout(vs.tools@, sdk, ucrt), disk)
    &&& views(env.lib@) == keep(lib_layout(vs.tools@, sdk, ucrt, target), disk)
    &&& views(env.libpath@) == keep(libpath_layout(vs.tools@, sdk, target), disk)
    &&& pair_views(env.vars@) == vars_of(vs, sdk, ucrt, target)
}

/// The component behind an optional reference.
pub open spec fn opt(o: Option<&SdkInfo>) -> Option<SdkInfo> {
    match o {
        Some(s) => Some(*s),
        None => None,
    }
}

impl Env {
    /// Appends to `lst` those of `paths` that exist on disk, in order.
    pub fn add_if_exists(lst: &mut Vec<String>, paths: &Vec<String>, disk: &Disk)
        ensures
            views(final(lst)@) == views(old(lst)@) + keep(views(paths@), *disk),
    {
        let ghost start = views(lst@);
        let mut i: usize = 0;
        while i < paths.len()
            invariant
                i <= paths@.len(),
                views(lst@) == start + keep(views(paths@.take(i as int)), *disk),
            decreases paths@.len() - i,
        {
            assert(views(paths@.take(i + 1)).drop_last() =~= views(paths@.take(i as int)));
            assert(views(paths@.take(i + 1)).last() == paths@[i as int]@);
            if disk.contains(&paths[i]) {
                let p = paths[i].clone();
                let ghost prev = lst@;
                lst.push(p);
                assert(views(lst@) =~= views(prev).push(paths@[i as int]@));
                assert(keep(views(paths@.take(i + 1)), *disk)
                    == keep(views(paths@.take(i as int)), *disk).push(paths@[i as int]@));
                assert(views(lst@) =~= start + keep(views(paths@.take(i + 1)), *disk));
            } else {
                assert(views(lst@) =~= start + keep(views(paths@.take(i + 1)), *disk));
            }
            i = i + 1;
        }
        assert(paths@.take(i as int) =~= paths@);
    }
}

fn push_view(v: &mut Vec<String>, s: String)
    ensures
        views(final(v)@) == views(old(v)@).push(s@),
{
    v.push(s);
    assert(views(v@) =~= views(old(v)@).push(s@));
}

/// Executable search path candidates.
pub fn path_candidates(tools: &String, sdk: Option<&SdkInfo>, host: Arch, target: Arch) -> (r: Vec<String>)
    ensures
        views(r@) == path_layout(tools@, opt(sdk), host, target),
{
    let mut r: Vec<String> = Vec::new();
    let bin = join(tools, "bin");
    let hd = join(&bin, host.host_dir());
    push_view(&mut r, join(&hd, target.as_str()));
    if host != target {
        push_view(&mut r, join(&hd, host.as_str()));
    }
    if let Some(s) = sdk {
        push_view(&mut r, join(&join(&join(&s.path, "bin"), &s.version), host.as_str()));
    }
    assert(views(r@) =~= path_layout(tools@, opt(sdk), host, target));
    r
}

/// Header search path candidates.
pub fn include_candidates(tools: &String, sdk: Option<&SdkInfo>, ucrt: Option<&SdkInfo>) -> (r: Vec<String>)
    ensures
        views(r@) == include_layout(tools@, opt(sdk), opt(ucrt)),
{
    let mut r: Vec<String> = Vec::new();
    push_view(&mut r, join(tools, "include"));
    push_view(&mut r, join(&join(tools, "ATLMFC"), "include"));
    if let Some(s) = sdk {
        let base = join(&join(&s.path, "include"), &s.version);
        push_view(&mut r, join(&base, "um"));
        push_view(&mut r, join(&base, "shared"));
        push_view(&mut r, join(&base, "winrt"));
        push_view(&mut r, join(&base, "cppwinrt"));
    }
    if let Some(u) = ucrt {
        push_view(&mut r, join(&join(&join(&u.path, "include"), &u.version), "ucrt"));
    }
    assert(views(r@) =~= include_layout(tools@, opt(sdk), opt(ucrt)));
    r
}

fn vc_lib_candidates(tools: &String, target: Arch) -> (r: Vec<String>)
    ensures
        views(r@) == vc_lib_layout(tools@, target),
{
    let mut r: Vec<String> = Vec::new();
    push_view(&mut r, join(&join(tools, "lib"), target.as_str()));
    push_view(&mut r, join(&join(&join(tools, "ATLMFC"), "lib"), target.as_str()));
    assert(views(r@) =~= vc_lib_layout(tools@, target));
    r
}

/// Library search path candidates.
pub fn lib_candidates(tools: &String, sdk: Option<&SdkInfo>, ucrt: Option<&SdkInfo>, target: Arch) -> (r: Vec<String>)
    ensures
        views(r@) == lib_layout(tools@, opt(sdk), opt(ucrt), target),
{
    let mut r = vc_lib_candidates(tools, target);
    if let Some(s) = sdk {
        push_view(&mut r, join(&join(&join(&join(&s.path, "lib"), &s.version), "um"), target.as_str()));
    }
    if let Some(u) = ucrt {
        push_view(&mut r, join(&join(&join(&join(&u.path, "lib"), &u.version), "ucrt"), target.as_str()));
    }
    r
}

/// Reference search path candidates.
pub fn libpath_candidates(tools: &String, sdk: Option<&SdkInfo>, target: Arch) -> (r: Vec<String>)
    ensures
        views(r@) == libpath_layout(tools@, opt(sdk), target),
{
    let mut r = vc_lib_candidates(tools, target);
    if let Some(s) = sdk {
        push_view(&mut r, join(&join(&s.path, "UnionMetadata"), &s.version));
        push_view(&mut r, join(&join(&s.path, "References"), &s.version));
        assert(views(r@) =~= libpath_layout(tools@, opt(sdk), target));
    }
    r
}

fn dir_var(p: &String) -> (r: String)
    ensures
        r@ == dir_value(p@),
{
    let mut r = p.clone();
    proof { reveal_strlit("\\"); }
    r.append("\\");
    r
}

fn push_var(v: &mut Vec<(String, String)>, name: &str, value: String)
    ensures
        pair_views(final(v)@) == pair_views(old(v)@).push((name@, value@)),
{
    v.push((String::from_str(name), value));
    assert(pair_views(v@) =~= pair_views(old(v)@).push((name@, value@)));
}

/// The named variables, sorted by name.
pub fn env_vars(vs: &VsInfo, sdk: Option<&SdkInfo>, ucrt: Option<&SdkInfo>, target: Arch) -> (r: Vec<(String, String)>)
    ensures
        pair_views(r@) == vars_of(*vs, opt(sdk), opt(ucrt), target),
{
    let mut r: Vec<(String, String)> = Vec::new();
    push_var(&mut r, "Platform", String::from_str(target.as_str()));
    if let Some(u) = ucrt {
        push_var(&mut r, "UCRTVersion", u.version.clone());
        push_var(&mut r, "UniversalCRTSdkDir", dir_var(&u.path));
    }
    push_var(&mut r, "VCINSTALLDIR", dir_var(&vs.vc));
    push_var(&mut r, "VCToolsInstallDir", dir_var(&vs.tools));
    push_var(&mut r, "VCToolsVersion", vs.tools_ver.clone());
    push_var(&mut r, "VSINSTALLDIR", dir_var(&vs.install));
    push_var(&mut r, "VisualStudioVersion", String::from_str("17.0"));
    if let Some(s) = sdk {
        push_var(&mut r, "WindowsSDKVersion", dir_var(&s.version));
        push_var(&mut r, "WindowsSdkDir", dir_var(&s.path));
    }
    assert(pair_views(r@) =~= vars_of(*vs, opt(sdk), opt(ucrt), target));
    r
}

/// Every path that assembly may consider, before the existence filter: the
/// paths a caller has to look up on disk.
pub fn env_candidates(vs: &VsInfo, sdk: Option<&SdkInfo>, ucrt: Option<&SdkInfo>, host: Arch, target: Arch) -> (r: Vec<String>)
    ensures
        views(r@) == path_layout(vs.tools@, opt(sdk), host, target)
            + include_layout(vs.tools@, opt(sdk), opt(ucrt))
            + lib_layout(vs.tools@, opt(sdk), opt(ucrt), target)
            + libpath_layout(vs.tools@, opt(sdk), target),
{
    let mut r = path_candidates(&vs.tools, sdk, host, target);
    let mut a = include_candidates(&vs.tools, sdk, ucrt);
    let mut b = lib_candidates(&vs.tools, sdk, ucrt, target);
    let mut c = libpath_candidates(&vs.tools, sdk, target);
    let ghost (r0, a0, b0, c0) = (r@, a@, b@, c@);
    r.append(&mut a);
    r.append(&mut b);
    r.append(&mut c);
    assert(r@ == r0 + a0 + b0 + c0);
    assert(views(r@) =~= views(r0) + views(a0) + views(b0) + views(c0));
    r
}

/// Assembles the environment from the resolved toolchain, the optional
/// platform SDK and runtime, and the host and target architectures; a
/// constructed path that does not exist on disk is left out.
pub fn build_env(vs: &VsInfo, sdk: Option<&SdkInfo>, ucrt: Option<&SdkInfo>, host: Arch, target: Arch, disk: &Disk) -> (env: Env)
    ensures
        assembled(env, *vs, opt(sdk), opt(ucrt), host, target, *disk),
{
    let mut env = Env {
        path: Vec::new(),
        includes: Vec::new(),
        lib: Vec::new(),
        libpath: Vec::new(),
        vars: env_vars(vs, sdk, ucrt, target),
    };
    assert(views(env.path@) =~= Seq::<Seq<char>>::empty());
    assert(views(env.includes@) =~= Seq::<Seq<char>>::empty());
    assert(views(env.lib@) =~= Seq::<Seq<char>>::empty());
    assert(views(env.libpath@) =~= Seq::<Seq<char>>::empty());
    Env::add_if_exists(&mut env.path, &path_candidates(&vs.tools, sdk, host, target), disk);
    Env::add_if_exists(&mut env.includes, &include_candidates(&vs.tools, sdk, ucrt), disk);
    Env::add_if_exists(&mut env.lib, &lib_candidates(&vs.tools, sdk, ucrt, target), disk);
    Env::add_if_exists(&mut env.libpath, &libpath_candidates(&vs.tools, sdk, target), disk);
    assert(views(env.path@) =~= keep(path_layout(vs.tools@, opt(sdk), host, target), *disk));
    assert(views(env.includes@) =~= keep(include_layout(vs.tools@, opt(sdk), opt(ucrt)), *disk));
    assert(views(env.lib@) =~= keep(lib_layout(vs.tools@, opt(sdk), opt(ucrt), target), *disk));
    assert(views(env.libpath@) =~= keep(libpath_layout(vs.tools@, opt(sdk), target), *disk));
    env
}

/// Only paths that exist survive the filter.
pub proof fn lemma_keep_exists(s: Seq<Seq<char>>, disk: Disk)
    ensures
        forall|k: int| 0 <= k < keep(s, disk).len() ==> disk.has(#[trigger] keep(s, disk)[k]),
    decreases s.len(),
{
    if s.len() > 0 {
        lemma_keep_exists(s.drop_last(), disk);
        let rest = keep(s.drop_last(), disk);
        assert forall|k: int| 0 <= k < keep(s, disk).len() implies disk.has(#[trigger] keep(s, disk)[k]) by {
            if k < rest.len() {
                assert(keep(s, disk)[k] == rest[k]);
            }
        }
    }
}

/// No list of an assembled environment holds a path that does not exist on disk.
pub proof fn lemma_assembled_paths_exist(env: Env, vs: VsInfo, sdk: Option<SdkInfo>, ucrt: Option<SdkInfo>, host: Arch, target: Arch, disk: Disk)
    requires
        assembled(env, vs, sdk, ucrt, host, target, disk),
    ensures
        forall|k: int| 0 <= k < env.path@.len() ==> disk.has(#[trigger] env.path@[k]@),
        forall|k: int| 0 <= k < env.includes@.len() ==> disk.has(#[trigger] env.includes@[k]@),
        forall|k: int| 0 <= k < env.lib@.len() ==> disk.has(#[trigger] env.lib@[k]@),
        forall|k: int| 0 <= k < env.libpath@.len() ==> disk.has(#[trigger] env.libpath@[k]@),
{
    lemma_keep_exists(path_layout(vs.tools@, sdk, host, target), disk);
    lemma_keep_exists(include_layout(vs.tools@, sdk, ucrt), disk);
    lemma_keep_exists(lib_layout(vs.tools@, sdk, ucrt, target), disk);
    lemma_keep_exists(libpath_layout(vs.tools@, sdk, target), disk);
    assert forall|k: int| 0 <= k < env.path@.len() implies disk.has(#[trigger] env.path@[k]@) by {
        assert(views(env.path@)[k] == env.path@[k]@);
    }
    assert forall|k: int| 0 <= k < env.includes@.len() implies disk.has(#[trigger] env.includes@[k]@) by {
        assert(views(env.includes@)[k] == env.includes@[k]@);
    }
    assert forall|k: int| 0 <= k < env.lib@.len() implies disk.has(#[trigger] env.lib@[k]@) by {
        assert(views(env.lib@)[k] == env.lib@[k]@);
    }
    assert forall|k: int| 0 <= k < env.libpath@.len() implies disk.has(#[trigger] env.libpath@[k]@) by {
        assert(views(env.libpath@)[k] == env.libpath@[k]@);
    }
}

/// Assembling twice from the same components against the same disk gives
/// the same lists and variables.
pub proof fn lemma_assembly_repeatable(e1: Env, e2: Env, vs: VsInfo, sdk: Option<SdkInfo>, ucrt: Option<SdkInfo>, host: Arch, target: Arch, disk: Disk)
    requires
        assembled(e1, vs, sdk, ucrt, host, target, disk),
        assembled(e2, vs, sdk, ucrt, host, target, disk),
    ensures
        views(e1.path@) == views(e2.path@),
        views(e1.includes@) == views(e2.includes@),
        views(e1.lib@) == views(e2.lib@),
        views(e1.libpath@) == views(e2.libpath@),
        pair_views(e1.vars@) == pair_views(e2.vars@),
{
}

/// Without a platform SDK, and with the compiler directories present, the
/// executable search path is the one native compiler directory when host and
/// target agree, and the cross compiler directory followed by the native one
/// when they differ.
pub proof fn lemma_compiler_dirs(env: Env, vs: VsInfo, ucrt: Option<SdkInfo>, host: Arch, target: Arch, disk: Disk)
    requires
        assembled(env, vs, None, ucrt, host, target, disk),
        disk.has(cross_bin_of(vs.tools@, host, target)),
        disk.has(native_bin_of(vs.tools@, host)),
    ensures
        host == target ==> views(env.path@) == seq![native_bin_of(vs.tools@, host)],
        host != target ==> views(env.path@) == seq![cross_bin_of(vs.tools@, host, target), native_bin_of(vs.tools@, host)],
{
    let t = vs.tools@;
    let l = path_layout(t, None, host, target);
    if host == target {
        assert(l.drop_last() =~= Seq::<Seq<char>>::empty());
        assert(keep(l.drop_last(), disk) =~= Seq::<Seq<char>>::empty());
        assert(l.last() == native_bin_of(t, host));
        assert(keep(l, disk) =~= seq![native_bin_of(t, host)]);
    } else {
        assert(l.drop_last() =~= seq![cross_bin_of(t, host, target)]);
        assert(l.drop_last().drop_last() =~= Seq::<Seq<char>>::empty());
        assert(keep(l.drop_last().drop_last(), disk) =~= Seq::<Seq<char>>::empty());
        assert(keep(l.drop_last(), disk) =~= seq![cross_bin_of(t, host, target)]);
        assert(keep(l, disk) =~= seq![cross_bin_of(t, host, target), native_bin_of(t, host)]);
    }
}

/// Each variable name sorts strictly before the next, so the table holds
/// each name once and lists them in sorted order.
pub proof fn lemma_vars_sorted(vs: VsInfo, sdk: Option<SdkInfo>, ucrt: Option<SdkInfo>, target: Arch)
    ensures
        forall|k: int| 0 <= k < vars_of(vs, sdk, ucrt, target).len() - 1
            ==> lex_lt(#[trigger] vars_of(vs, sdk, ucrt, target)[k].0, vars_of(vs, sdk, ucrt, target)[k + 1].0),
{
    reveal_strlit("Platform");
    reveal_strlit("UCRTVersion");
    reveal_strlit("UniversalCRTSdkDir");
    reveal_strlit("VCINSTALLDIR");
    reveal_strlit("VCToolsInstallDir");
    reveal_strlit("VCToolsVersion");
    reveal_strlit("VSINSTALLDIR");
    reveal_strlit("VisualStudioVersion");
    reveal_strlit("WindowsSDKVersion");
    reveal_strlit("WindowsSdkDir");
    let p = "Platform"@;
    let u1 = "UCRTVersion"@;
    let u2 = "UniversalCRTSdkDir"@;
    let v1 = "VCINSTALLDIR"@;
    let v2 = "VCToolsInstallDir"@;
    let v3 = "VCToolsVersion"@;
    let v4 = "VSINSTALLDIR"@;
    let v5 = "VisualStudioVersion"@;
    let w1 = "WindowsSDKVersion"@;
    let w2 = "WindowsSdkDir"@;
    assert(p.subrange(0, 0) =~= u1.subrange(0, 0));
    lemma_lex_lt_at(p, u1, 0);
    assert(p.subrange(0, 0) =~= v1.subrange(0, 0));
    lemma_lex_lt_at(p, v1, 0);
    assert(u1.subrange(0, 1) =~= u2.subrange(0, 1));
    lemma_lex_lt_at(u1, u2, 1);
    assert(u2.subrange(0, 0) =~= v1.subrange(0, 0));
    lemma_lex_lt_at(u2, v1, 0);
    assert(v1.subrange(0, 2) =~= v2.subrange(0, 2));
    lemma_lex_lt_at(v1, v2, 2);
    assert(v2.subrange(0, 7) =~= v3.subrange(0, 7));
    lemma_lex_lt_at(v2, v3, 7);
    assert(v3.subrange(0, 1) =~= v4.subrange(0, 1));
    lemma_lex_lt_at(v3, v4, 1);
    assert(v4.subrange(0, 1) =~= v5.subrange(0, 1));
    lemma_lex_lt_at(v4, v5, 1);
    assert(v5.subrange(0, 0) =~= w1.subrange(0, 0));
    lemma_lex_lt_at(v5, w1, 0);
    assert(w1.subrange(0, 8) =~= w2.subrange(0, 8));
    lemma_lex_lt_at(w1, w2, 8);
}

} // verus!

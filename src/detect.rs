//! Choosing the toolchain installation, the platform SDK and the C runtime.
//!
//! The caller enumerates the installations and lists directories; these
//! functions decide which candidate wins, reading the filesystem only through
//! a `Disk` snapshot.

use vstd::prelude::*;
use crate::disk::Disk;
use crate::text::{has_prefix, join, lex_lt, path_join, starts_with, str_lt};
use crate::text::{lemma_lex_lt_irreflexive, lemma_lex_lt_total, lemma_lex_lt_transitive};

verus! {

/// One installation as the installer query reports it.
#[derive(Debug, Clone)]
pub struct VsWhereEntry {
    pub installation_path: String,
    pub installation_version: String,
}

/// A resolved toolchain installation.
#[derive(Debug, Clone)]
pub struct VsInfo {
    pub install: String,
    pub version: String,
    pub vc: String,
    pub tools_ver: String,
    pub tools: String,
}

/// A resolved platform SDK or C runtime: its root and version directory name.
#[derive(Debug, Clone)]
pub struct SdkInfo {
    pub path: String,
    pub version: String,
}

/// The installation's `VC` directory.
pub open spec fn vc_of(install: Seq<char>) -> Seq<char> {
    path_join(install, "VC"@)
}

/// The directory holding the toolset version markers.
pub open spec fn aux_of(install: Seq<char>) -> Seq<char> {
    path_join(path_join(vc_of(install), "Auxiliary"@), "Build"@)
}

/// The channel-pinned toolset version marker.
pub open spec fn primary_marker_of(install: Seq<char>) -> Seq<char> {
    path_join(aux_of(install), "Microsoft.VCToolsVersion.v143.default.txt"@)
}

/// The generic toolset version marker.
pub open spec fn fallback_marker_of(install: Seq<char>) -> Seq<char> {
    path_join(aux_of(install), "Microsoft.VCToolsVersion.default.txt"@)
}

/// The toolset directory for a toolset version.
pub open spec fn tools_of(install: Seq<char>, tools_ver: Seq<char>) -> Seq<char> {
    path_join(path_join(path_join(vc_of(install), "Tools"@), "MSVC"@), tools_ver)
}

/// The toolset version an installation declares: the pinned marker first,
/// then the generic one.
pub open spec fn tools_ver_of(install: Seq<char>, disk: Disk) -> Option<Seq<char>> {
    match disk.text(primary_marker_of(install)) {
        Some(t) => Some(t),
        None => disk.text(fallback_marker_of(install)),
    }
}

/// An installation whose toolset version is declared and whose toolset directory exists.
pub open spec fn is_valid_install(e: VsWhereEntry, disk: Disk) -> bool {
    match tools_ver_of(e.installation_path@, disk) {
        Some(t) => disk.has(tools_of(e.installation_path@, t)),
        None => false,
    }
}

/// `info` is the toolchain described by installation `e` with toolset version `t`.
pub open spec fn describes(info: VsInfo, e: VsWhereEntry, t: Seq<char>) -> bool {
    &&& info.install@ == e.installation_path@
    &&& info.version@ == e.installation_version@
    &&& info.vc@ == vc_of(e.installation_path@)
    &&& info.tools_ver@ == t
    &&& info.tools@ == tools_of(e.installation_path@, t)
}

/// The major-version prefix of a product year.
pub open spec fn year_major(year: u16) -> Option<Seq<char>> {
    if year == 2017 {
        Some("15."@)
    } else if year == 2019 {
        Some("16."@)
    } else if year == 2022 {
        Some("17."@)
    } else {
        None
    }
}

/// A year constraint that is absent or names a known product year.
pub open spec fn known_year(year: Option<u16>) -> bool {
    match year {
        Some(y) => year_major(y) is Some,
        None => true,
    }
}

/// A version string that the year constraint admits.
pub open spec fn admits(year: Option<u16>, v: Seq<char>) -> bool {
    match year {
        Some(y) => match year_major(y) {
            Some(p) => has_prefix(v, p),
            None => false,
        },
        None => true,
    }
}

/// An installation that the year constraint admits and whose layout is complete.
pub open spec fn eligible(e: VsWhereEntry, year: Option<u16>, disk: Disk) -> bool {
    admits(year, e.installation_version@) && is_valid_install(e, disk)
}

/// Entry `i` is the one resolution picks: eligible, with no eligible entry of
/// a greater version, and no eligible entry of the same version before it
/// (a stable sort by descending version, then the first valid entry).
pub open spec fn is_selected(entries: Seq<VsWhereEntry>, year: Option<u16>, disk: Disk, i: int) -> bool {
    &&& 0 <= i < entries.len()
    &&& eligible(entries[i], year, disk)
    &&& forall|j: int| 0 <= j < entries.len() && eligible(entries[j], year, disk)
        ==> !lex_lt(entries[i].installation_version@, #[trigger] entries[j].installation_version@)
    &&& forall|j: int| 0 <= j < i && eligible(entries[j], year, disk)
        ==> #[trigger] entries[j].installation_version@ != entries[i].installation_version@
}

/// The year label of an installation version, by its major-version prefix.
pub open spec fn year_of(v: Seq<char>) -> Option<u16> {
    if has_prefix(v, "17."@) {
        Some(2022u16)
    } else if has_prefix(v, "16."@) {
        Some(2019u16)
    } else if has_prefix(v, "15."@) {
        Some(2017u16)
    } else {
        None
    }
}

/// The diagnostic listing: each entry of a known major version with its year, in order.
pub open spec fn listing(entries: Seq<VsWhereEntry>) -> Seq<(u16, Seq<char>)>
    decreases entries.len(),
{
    if entries.len() == 0 {
        Seq::empty()
    } else {
        let rest = listing(entries.drop_last());
        let v = entries.last().installation_version@;
        match year_of(v) {
            Some(y) => rest.push((y, v)),
            None => rest,
        }
    }
}

/// The major-version prefix for a product year, or `None` for an unknown year.
pub fn year_prefix(year: u16) -> (r: Option<&'static str>)
    ensures
        match r {
            Some(p) => year_major(year) == Some(p@),
            None => year_major(year) is None,
        },
{
    if year == 2017 {
        Some("15.")
    } else if year == 2019 {
        Some("16.")
    } else if year == 2022 {
        Some("17.")
    } else {
        None
    }
}

/// The year label of a version string.
pub fn version_year(v: &str) -> (r: Option<u16>)
    ensures
        r == year_of(v@),
{
    if starts_with(v, "17.") {
        Some(2022)
    } else if starts_with(v, "16.") {
        Some(2019)
    } else if starts_with(v, "15.") {
        Some(2017)
    } else {
        None
    }
}

/// Paths of the two toolset version markers of an installation, pinned one first.
pub fn tools_ver_markers(install: &str) -> (r: (String, String))
    ensures
        r.0@ == primary_marker_of(install@),
        r.1@ == fallback_marker_of(install@),
{
    let vc = join(install, "VC");
    let aux = join(&join(&vc, "Auxiliary"), "Build");
    (join(&aux, "Microsoft.VCToolsVersion.v143.default.txt"), join(&aux, "Microsoft.VCToolsVersion.default.txt"))
}

/// The toolset directory of an installation for a toolset version.
pub fn tools_dir(install: &str, tools_ver: &str) -> (r: String)
    ensures
        r@ == tools_of(install@, tools_ver@),
{
    let vc = join(install, "VC");
    join(&join(&join(&vc, "Tools"), "MSVC"), tools_ver)
}

/// Builds the toolchain description of one installation, or `None` where its
/// toolset version is not declared or its toolset directory is missing.
pub fn build_vs_info(vs: &VsWhereEntry, disk: &Disk) -> (r: Option<VsInfo>)
    ensures
        r is Some == is_valid_install(*vs, *disk),
        r matches Some(info) ==> (tools_ver_of(vs.installation_path@, *disk) == Some(info.tools_ver@)
            && describes(info, *vs, info.tools_ver@)),
{
    let install = vs.installation_path.clone();
    let vc = join(&install, "VC");
    let (primary, fallback) = tools_ver_markers(&install);
    let tools_ver = match disk.read(&primary) {
        Some(t) => t,
        None => match disk.read(&fallback) {
            Some(t) => t,
            None => {
                return None;
            },
        },
    };
    let tools = tools_dir(&install, &tools_ver);
    if !disk.contains(&tools) {
        return None;
    }
    Some(VsInfo { install, version: vs.installation_version.clone(), vc, tools_ver, tools })
}

/// Index of the installation that resolution picks, if any.
pub fn select_vs(entries: &Vec<VsWhereEntry>, vs_year: Option<u16>, disk: &Disk) -> (r: Option<usize>)
    requires
        known_year(vs_year),
    ensures
        match r {
            Some(i) => is_selected(entries@, vs_year, *disk, i as int),
            None => forall|j: int| 0 <= j < entries@.len() ==> !eligible(#[trigger] entries@[j], vs_year, *disk),
        },
{
    let prefix: Option<&str> = match vs_year {
        Some(y) => year_prefix(y),
        None => None,
    };
    let mut best: Option<usize> = None;
    let mut i: usize = 0;
    while i < entries.len()
        invariant
            i <= entries@.len(),
            known_year(vs_year),
            vs_year is Some ==> (prefix matches Some(p) && year_major(vs_year->0) == Some(p@)),
            vs_year is None ==> prefix is None,
            match best {
                Some(b) => b < i && eligible(entries@[b as int], vs_year, *disk)
                    && (forall|j: int| 0 <= j < i && eligible(entries@[j], vs_year, *disk)
                        ==> !lex_lt(entries@[b as int].installation_version@, #[trigger] entries@[j].installation_version@))
                    && (forall|j: int| 0 <= j < b && eligible(entries@[j], vs_year, *disk)
                        ==> #[trigger] entries@[j].installation_version@ != entries@[b as int].installation_version@),
                None => forall|j: int| 0 <= j < i ==> !eligible(#[trigger] entries@[j], vs_year, *disk),
            },
        decreases entries@.len() - i,
    {
        let e = &entries[i];
        let admitted = match prefix {
            Some(p) => starts_with(&e.installation_version, p),
            None => true,
        };
        let valid = admitted && build_vs_info(e, disk).is_some();
        if valid {
            let better = match best {
                Some(b) => str_lt(&entries[b].installation_version, &e.installation_version),
                None => true,
            };
            if better {
                proof {
                    let v = e.installation_version@;
                    lemma_lex_lt_irreflexive(v);
                    if let Some(b) = best {
                        let bv = entries@[b as int].installation_version@;
                        assert forall|j: int| 0 <= j < i + 1 && eligible(entries@[j], vs_year, *disk)
                            implies !lex_lt(v, #[trigger] entries@[j].installation_version@) by {
                            if j < i && lex_lt(v, entries@[j].installation_version@) {
                                lemma_lex_lt_transitive(bv, v, entries@[j].installation_version@);
                            }
                        }
                        assert forall|j: int| 0 <= j < i && eligible(entries@[j], vs_year, *disk)
                            implies #[trigger] entries@[j].installation_version@ != v by {
                            lemma_lex_lt_irreflexive(bv);
                        }
                    }
                }
                best = Some(i);
            } else {
                proof {
                    let b = best->0;
                    let bv = entries@[b as int].installation_version@;
                    let v = e.installation_version@;
                    assert(!lex_lt(bv, v));
                }
            }
        }
        i = i + 1;
    }
    best
}

/// Resolves the toolchain: among the installations that the year constraint
/// admits and whose layout is complete, the one with the greatest version.
pub fn detect_vs(entries: &Vec<VsWhereEntry>, vs_year: Option<u16>, disk: &Disk) -> (r: Option<VsInfo>)
    ensures
        r is Some <==> known_year(vs_year)
            && exists|j: int| 0 <= j < entries@.len() && eligible(#[trigger] entries@[j], vs_year, *disk),
        r matches Some(info) ==> (exists|i: int| is_selected(entries@, vs_year, *disk, i)
            && #[trigger] describes(info, entries@[i], info.tools_ver@)
            && tools_ver_of(entries@[i].installation_path@, *disk) == Some(info.tools_ver@)),
        r matches Some(info) ==> (vs_year matches Some(y) ==> (year_major(y) matches Some(p)
            && has_prefix(info.version@, p))),
{
    if let Some(y) = vs_year {
        if year_prefix(y).is_none() {
            return None;
        }
    }
    match select_vs(entries, vs_year, disk) {
        Some(i) => {
            let r = build_vs_info(&entries[i], disk);
            proof {
                assert(describes(r->0, entries@[i as int], r->0.tools_ver@));
            }
            r
        },
        None => None,
    }
}

/// Every installation of a known major version, labelled with its year, for diagnostics.
pub fn list_vs_versions(entries: &Vec<VsWhereEntry>) -> (r: Vec<(u16, String)>)
    ensures
        r@.len() == listing(entries@).len(),
        forall|k: int| 0 <= k < r@.len() ==> (#[trigger] r@[k]).0 == listing(entries@)[k].0
            && r@[k].1@ == listing(entries@)[k].1,
{
    let mut r: Vec<(u16, String)> = Vec::new();
    let mut i: usize = 0;
    while i < entries.len()
        invariant
            i <= entries@.len(),
            r@.len() == listing(entries@.subrange(0, i as int)).len(),
            forall|k: int| 0 <= k < r@.len() ==> (#[trigger] r@[k]).0 == listing(entries@.subrange(0, i as int))[k].0
                && r@[k].1@ == listing(entries@.subrange(0, i as int))[k].1,
        decreases entries@.len() - i,
    {
        assert(entries@.subrange(0, i + 1).drop_last() =~= entries@.subrange(0, i as int));
        let v = &entries[i].installation_version;
        if let Some(y) = version_year(v) {
            r.push((y, v.clone()));
        }
        i = i + 1;
    }
    assert(entries@.subrange(0, i as int) =~= entries@);
    r
}

/// The platform SDK's include directory, whose subdirectories are its versions.
pub open spec fn sdk_include_of(root: Seq<char>) -> Seq<char> {
    path_join(root, "include"@)
}

/// The header whose presence marks a complete platform-SDK version directory.
pub open spec fn sdk_marker_of(root: Seq<char>, name: Seq<char>) -> Seq<char> {
    path_join(path_join(path_join(sdk_include_of(root), name), "um"@), "winsdkver.h"@)
}

/// The runtime's library directory, whose subdirectories are its versions.
pub open spec fn ucrt_lib_of(root: Seq<char>) -> Seq<char> {
    path_join(root, "Lib"@)
}

/// The library whose presence marks a complete runtime version directory
/// (always the 64-bit one, whatever the target).
pub open spec fn ucrt_marker_of(root: Seq<char>, name: Seq<char>) -> Seq<char> {
    path_join(path_join(path_join(path_join(ucrt_lib_of(root), name), "ucrt"@), "x64"@), "ucrt.lib"@)
}

/// A platform-SDK version directory worth selecting.
pub open spec fn sdk_dir_ok(root: Seq<char>, name: Seq<char>, disk: Disk) -> bool {
    has_prefix(name, "10."@) && disk.has(sdk_marker_of(root, name))
}

/// A runtime version directory worth selecting.
pub open spec fn ucrt_dir_ok(root: Seq<char>, name: Seq<char>, disk: Disk) -> bool {
    has_prefix(name, "10."@) && disk.has(ucrt_marker_of(root, name))
}

/// `names[i]` is marked, and no marked name sorts after it.
pub open spec fn is_newest(names: Seq<String>, marked: Seq<bool>, i: int) -> bool {
    &&& 0 <= i < names.len()
    &&& marked[i]
    &&& forall|j: int| 0 <= j < names.len() && marked[j] ==> !lex_lt(names[i]@, #[trigger] names[j]@)
}

/// For each name, whether it is a platform-SDK version worth selecting.
pub open spec fn sdk_marks(root: Seq<char>, names: Seq<String>, disk: Disk) -> Seq<bool> {
    Seq::new(names.len(), |j: int| sdk_dir_ok(root, names[j]@, disk))
}

/// For each name, whether it is a runtime version worth selecting.
pub open spec fn ucrt_marks(root: Seq<char>, names: Seq<String>, disk: Disk) -> Seq<bool> {
    Seq::new(names.len(), |j: int| ucrt_dir_ok(root, names[j]@, disk))
}

/// `r` is what a component resolver returns for root `root`, top directory
/// `top`, subdirectory names `names` and their marks.
pub open spec fn component_result(
    r: Option<SdkInfo>,
    root: Option<String>,
    top: Seq<char>,
    names: Seq<String>,
    marked: Seq<bool>,
    disk: Disk,
) -> bool {
    &&& r is Some <==> (root is Some && disk.has(top)
        && exists|j: int| 0 <= j < names.len() && #[trigger] marked[j])
    &&& r matches Some(info) ==> (info.path@ == root->0@
        && exists|i: int| is_newest(names, marked, i) && #[trigger] names[i]@ == info.version@)
}

/// Index of the greatest marked name, if any name is marked.
fn newest_marked(names: &Vec<String>, marked: &Vec<bool>) -> (r: Option<usize>)
    requires
        marked@.len() == names@.len(),
    ensures
        match r {
            Some(i) => is_newest(names@, marked@, i as int),
            None => forall|j: int| 0 <= j < names@.len() ==> !(#[trigger] marked@[j]),
        },
{
    let mut best: Option<usize> = None;
    let mut i: usize = 0;
    while i < names.len()
        invariant
            i <= names@.len(),
            marked@.len() == names@.len(),
            match best {
                Some(b) => b < i && marked@[b as int] && forall|j: int| 0 <= j < i && marked@[j]
                    ==> !lex_lt(names@[b as int]@, #[trigger] names@[j]@),
                None => forall|j: int| 0 <= j < i ==> !(#[trigger] marked@[j]),
            },
        decreases names@.len() - i,
    {
        if marked[i] {
            let better = match best {
                Some(b) => str_lt(&names[b], &names[i]),
                None => true,
            };
            if better {
                proof {
                    let v = names@[i as int]@;
                    lemma_lex_lt_irreflexive(v);
                    if let Some(b) = best {
                        let bv = names@[b as int]@;
                        assert forall|j: int| 0 <= j < i + 1 && marked@[j]
                            implies !lex_lt(v, #[trigger] names@[j]@) by {
                            if j < i && lex_lt(v, names@[j]@) {
                                lemma_lex_lt_transitive(bv, v, names@[j]@);
                            }
                        }
                    }
                }
                best = Some(i);
            }
        }
        i = i + 1;
    }
    best
}

/// The platform SDK's include directory, whose subdirectories are its versions.
pub fn sdk_include_dir(root: &str) -> (r: String)
    ensures
        r@ == sdk_include_of(root@),
{
    join(root, "include")
}

/// Path of the marker header of a platform-SDK version directory.
pub fn sdk_marker(root: &str, name: &str) -> (r: String)
    ensures
        r@ == sdk_marker_of(root@, name@),
{
    join(&join(&join(&sdk_include_dir(root), name), "um"), "winsdkver.h")
}

/// The runtime's library directory, whose subdirectories are its versions.
pub fn ucrt_lib_dir(root: &str) -> (r: String)
    ensures
        r@ == ucrt_lib_of(root@),
{
    join(root, "Lib")
}

/// Path of the marker library of a runtime version directory.
pub fn ucrt_marker(root: &str, name: &str) -> (r: String)
    ensures
        r@ == ucrt_marker_of(root@, name@),
{
    join(&join(&join(&join(&ucrt_lib_dir(root), name), "ucrt"), "x64"), "ucrt.lib")
}

/// Resolves the platform SDK from the root the configuration store gave (if
/// any) and the names of the subdirectories of its include directory: the
/// greatest "10." name whose marker header exists.
pub fn detect_sdk(root: Option<String>, names: &Vec<String>, disk: &Disk) -> (r: Option<SdkInfo>)
    ensures
        component_result(r, root, match root { Some(p) => sdk_include_of(p@), None => Seq::empty() },
            names@, sdk_marks(match root { Some(p) => p@, None => Seq::empty() }, names@, *disk), *disk),
        r matches Some(info) ==> (has_prefix(info.version@, "10."@)
            && disk.has(sdk_marker_of(info.path@, info.version@))),
{
    let root = match root {
        Some(p) => p,
        None => {
            return None;
        },
    };
    if !disk.contains(&sdk_include_dir(&root)) {
        return None;
    }
    let ghost marks = sdk_marks(root@, names@, *disk);
    let mut marked: Vec<bool> = Vec::new();
    let mut i: usize = 0;
    while i < names.len()
        invariant
            i <= names@.len(),
            marks == sdk_marks(root@, names@, *disk),
            marked@ == marks.take(i as int),
        decreases names@.len() - i,
    {
        let ok = starts_with(&names[i], "10.") && disk.contains(&sdk_marker(&root, &names[i]));
        marked.push(ok);
        assert(marked@ =~= marks.take(i + 1));
        i = i + 1;
    }
    assert(marked@ =~= marks);
    match newest_marked(names, &marked) {
        Some(k) => Some(SdkInfo { path: root, version: names[k].clone() }),
        None => None,
    }
}

/// Resolves the C runtime from the root the configuration store gave (if any)
/// and the names of the subdirectories of its library directory: the greatest
/// "10." name whose 64-bit marker library exists.
pub fn detect_ucrt(root: Option<String>, names: &Vec<String>, disk: &Disk) -> (r: Option<SdkInfo>)
    ensures
        component_result(r, root, match root { Some(p) => ucrt_lib_of(p@), None => Seq::empty() },
            names@, ucrt_marks(match root { Some(p) => p@, None => Seq::empty() }, names@, *disk), *disk),
        r matches Some(info) ==> (has_prefix(info.version@, "10."@)
            && disk.has(ucrt_marker_of(info.path@, info.version@))),
{
    let root = match root {
        Some(p) => p,
        None => {
            return None;
        },
    };
    if !disk.contains(&ucrt_lib_dir(&root)) {
        return None;
    }
    let ghost marks = ucrt_marks(root@, names@, *disk);
    let mut marked: Vec<bool> = Vec::new();
    let mut i: usize = 0;
    while i < names.len()
        invariant
            i <= names@.len(),
            marks == ucrt_marks(root@, names@, *disk),
            marked@ == marks.take(i as int),
        decreases names@.len() - i,
    {
        let ok = starts_with(&names[i], "10.") && disk.contains(&ucrt_marker(&root, &names[i]));
        marked.push(ok);
        assert(marked@ =~= marks.take(i + 1));
        i = i + 1;
    }
    assert(marked@ =~= marks);
    match newest_marked(names, &marked) {
        Some(k) => Some(SdkInfo { path: root, version: names[k].clone() }),
        None => None,
    }
}

/// The installation picked does not depend on the order in which the query
/// listed the candidates: any two lists of the same entries yield the same
/// version.
pub proof fn lemma_selection_order_independent(
    e1: Seq<VsWhereEntry>,
    e2: Seq<VsWhereEntry>,
    year: Option<u16>,
    disk: Disk,
    i1: int,
    i2: int,
)
    requires
        forall|x: VsWhereEntry| e1.contains(x) <==> e2.contains(x),
        is_selected(e1, year, disk, i1),
        is_selected(e2, year, disk, i2),
    ensures
        e1[i1].installation_version@ == e2[i2].installation_version@,
{
    let v1 = e1[i1].installation_version@;
    let v2 = e2[i2].installation_version@;
    assert(e1.contains(e1[i1]));
    let k2 = choose|k: int| 0 <= k < e2.len() && e2[k] == e1[i1];
    assert(!lex_lt(v2, e2[k2].installation_version@));
    assert(e2.contains(e2[i2]));
    let k1 = choose|k: int| 0 <= k < e1.len() && e1[k] == e2[i2];
    assert(!lex_lt(v1, e1[k1].installation_version@));
    if v1 != v2 {
        lemma_lex_lt_total(v1, v2);
    }
}

/// At most one entry is selected.
pub proof fn lemma_selection_unique(entries: Seq<VsWhereEntry>, year: Option<u16>, disk: Disk, i: int, k: int)
    requires
        is_selected(entries, year, disk, i),
        is_selected(entries, year, disk, k),
    ensures
        i == k,
{
    let vi = entries[i].installation_version@;
    let vk = entries[k].installation_version@;
    assert(!lex_lt(vi, vk));
    assert(!lex_lt(vk, vi));
    if vi != vk {
        lemma_lex_lt_total(vi, vk);
    }
}

} // verus!

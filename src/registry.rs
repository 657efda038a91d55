//! The order in which the configuration store is probed for a value.

use vstd::prelude::*;
use crate::text::path_join;

verus! {

/// A root authority of the configuration store.
#[derive(Debug, Clone, Copy, PartialEq, Eq, Structural)]
pub enum Hive {
    /// Machine-wide settings.
    LocalMachine,
    /// Settings of the current user.
    CurrentUser,
}

/// The 32-bit compatibility prefix.
pub open spec fn wow_prefix() -> Seq<char> {
    "SOFTWARE\\Wow6432Node"@
}

/// The native prefix.
pub open spec fn native_prefix() -> Seq<char> {
    "SOFTWARE"@
}

/// The four probes for `path`, in priority order: the machine-wide
/// authority before the user's, and within each the 32-bit compatibility
/// prefix before the native one.
pub open spec fn probes_of(path: Seq<char>) -> Seq<(Hive, Seq<char>)> {
    seq![
        (Hive::LocalMachine, path_join(wow_prefix(), path)),
        (Hive::LocalMachine, path_join(native_prefix(), path)),
        (Hive::CurrentUser, path_join(wow_prefix(), path)),
        (Hive::CurrentUser, path_join(native_prefix(), path)),
    ]
}

/// The keys to try, in order, for a value under `path`; a lookup takes the
/// first that holds the value.
pub fn reg_probes(path: &str) -> (r: Vec<(Hive, String)>)
    ensures
        r@.len() == 4,
        forall|k: int| 0 <= k < 4 ==> (#[trigger] r@[k]).0 == probes_of(path@)[k].0
            && r@[k].1@ == probes_of(path@)[k].1,
{
    let mut r: Vec<(Hive, String)> = Vec::new();
    let hives = [Hive::LocalMachine, Hive::CurrentUser];
    let mut h: usize = 0;
    while h < 2
        invariant
            h <= 2,
            hives@ == seq![Hive::LocalMachine, Hive::CurrentUser],
            r@.len() == 2 * h,
            forall|k: int| 0 <= k < 2 * h ==> (#[trigger] r@[k]).0 == probes_of(path@)[k].0
                && r@[k].1@ == probes_of(path@)[k].1,
        decreases 2 - h,
    {
        r.push((hives[h], crate::text::join("SOFTWARE\\Wow6432Node", path)));
        r.push((hives[h], crate::text::join("SOFTWARE", path)));
        h = h + 1;
    }
    r
}

} // verus!

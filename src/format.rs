//! Rendering an assembled environment as shell text.

use vstd::prelude::*;
use crate::env::{pair_views, Env};
use crate::text::views;

verus! {

/// `items` separated by `sep`.
pub open spec fn join_with(items: Seq<Seq<char>>, sep: Seq<char>) -> Seq<char>
    decreases items.len(),
{
    if items.len() == 0 {
        Seq::empty()
    } else if items.len() == 1 {
        items[0]
    } else {
        join_with(items.drop_last(), sep) + sep + items.last()
    }
}

/// The line that prepends a non-empty list to a variable; no line for an empty list.
pub open spec fn list_line(pre: Seq<char>, items: Seq<Seq<char>>, sep: Seq<char>, post: Seq<char>) -> Seq<Seq<char>> {
    if items.len() == 0 {
        Seq::empty()
    } else {
        seq![pre + join_with(items, sep) + post]
    }
}

/// One assignment line per variable.
pub open spec fn var_lines(vars: Seq<(Seq<char>, Seq<char>)>, pre: Seq<char>, mid: Seq<char>, post: Seq<char>) -> Seq<Seq<char>> {
    vars.map_values(|kv: (Seq<char>, Seq<char>)| pre + kv.0 + mid + kv.1 + post)
}

/// The lines of the cmd.exe script.
pub open spec fn cmd_lines(env: Env) -> Seq<Seq<char>> {
    list_line("set \"PATH="@, views(env.path@), ";"@, ";%PATH%\""@)
        + list_line("set \"INCLUDE="@, views(env.includes@), ";"@, ";%INCLUDE%\""@)
        + list_line("set \"LIB="@, views(env.lib@), ";"@, ";%LIB%\""@)
        + list_line("set \"LIBPATH="@, views(env.libpath@), ";"@, ";%LIBPATH%\""@)
        + var_lines(pair_views(env.vars@), "set \""@, "="@, "\""@)
}

/// The lines of the PowerShell script.
pub open spec fn ps_lines(env: Env) -> Seq<Seq<char>> {
    list_line("$env:PATH = \""@, views(env.path@), ";"@, ";$env:PATH\""@)
        + list_line("$env:INCLUDE = \""@, views(env.includes@), ";"@, ";$env:INCLUDE\""@)
        + list_line("$env:LIB = \""@, views(env.lib@), ";"@, ";$env:LIB\""@)
        + list_line("$env:LIBPATH = \""@, views(env.libpath@), ";"@, ";$env:LIBPATH\""@)
        + var_lines(pair_views(env.vars@), "$env:"@, " = \""@, "\""@)
}

/// The lines of the POSIX shell script.
pub open spec fn sh_lines(env: Env) -> Seq<Seq<char>> {
    list_line("export PATH=\""@, views(env.path@).map_values(|p: Seq<char>| unix_form(p)), ":"@, ":$PATH\""@)
        + list_line("export INCLUDE=\""@, views(env.includes@), ";"@, ";$INCLUDE\""@)
        + list_line("export LIB=\""@, views(env.lib@), ";"@, ";$LIB\""@)
        + list_line("export LIBPATH=\""@, views(env.libpath@), ";"@, ";$LIBPATH\""@)
        + var_lines(pair_views(env.vars@), "export "@, "=\""@, "\""@)
}

/// Backslashes turned into forward slashes.
pub open spec fn slashes(s: Seq<char>) -> Seq<char> {
    s.map_values(|c: char| if c == '\\' { '/' } else { c })
}

/// The lowercase form of a character, as std's `char::to_lowercase` gives it.
pub uninterp spec fn lower_of(c: char) -> Seq<char>;

/// A path with a drive letter, `X:rest`, in POSIX form `/x` + rest, given
/// the lowercased drive letter `drive`.
pub open spec fn drive_form(drive: Seq<char>, s: Seq<char>) -> Seq<char> {
    seq!['/'] + drive + slashes(s.subrange(2, s.len() as int))
}

/// A Windows path in POSIX form.
pub open spec fn unix_form(s: Seq<char>) -> Seq<char> {
    if s.len() >= 2 && s[1] == ':' {
        drive_form(lower_of(s[0]), s)
    } else {
        slashes(s)
    }
}

/// Relies on `char::to_lowercase`: the lowercase form depends on the character alone.
#[verifier::external_body]
fn lowercase_char(c: char) -> (r: String)
    ensures
        r@ == lower_of(c),
{
    c.to_lowercase().to_string()
}

/// Appends `s` from character `from` on, with backslashes turned into slashes.
fn append_slashed(r: &mut String, s: &str, from: usize)
    requires
        from <= s@.len(),
    ensures
        final(r)@ == old(r)@ + slashes(s@.subrange(from as int, s@.len() as int)),
{
    let n = s.unicode_len();
    let mut i: usize = from;
    proof { reveal_strlit("/"); }
    while i < n
        invariant
            n == s@.len(),
            from <= i <= n,
            r@ == old(r)@ + slashes(s@.subrange(from as int, i as int)),
        decreases n - i,
    {
        let c = s.get_char(i);
        if c == '\\' {
            proof { reveal_strlit("/"); }
            r.append("/");
        } else {
            let one = s.substring_char(i, i + 1);
            assert(one@ =~= seq![c]);
            r.append(one);
        }
        assert(slashes(s@.subrange(from as int, i + 1)) =~= slashes(s@.subrange(from as int, i as int)).push(
            if c == '\\' { '/' } else { c }));
        i = i + 1;
    }
}

/// The POSIX form of a path with a drive letter, from its lowercased drive letter.
pub fn drive_path(drive: &str, p: &str) -> (r: String)
    requires
        p@.len() >= 2,
    ensures
        r@ == drive_form(drive@, p@),
{
    proof { reveal_strlit("/"); }
    let mut r = String::from_str("/");
    r.append(drive);
    append_slashed(&mut r, p, 2);
    r
}

/// Converts a Windows path to POSIX form: a drive letter `C:` becomes `/c`,
/// and backslashes become forward slashes.
pub fn win_to_unix(p: &str) -> (r: String)
    ensures
        r@ == unix_form(p@),
{
    let n = p.unicode_len();
    if n >= 2 && p.get_char(1) == ':' {
        let drive = lowercase_char(p.get_char(0));
        drive_path(&drive, p)
    } else {
        let mut r = String::new();
        append_slashed(&mut r, p, 0);
        assert(p@.subrange(0, n as int) =~= p@);
        r
    }
}

/// `items` separated by `sep`.
pub fn join_strs(items: &Vec<String>, sep: &str) -> (r: String)
    ensures
        r@ == join_with(views(items@), sep@),
{
    let mut r = String::new();
    let mut i: usize = 0;
    while i < items.len()
        invariant
            i <= items@.len(),
            r@ == join_with(views(items@.take(i as int)), sep@),
        decreases items@.len() - i,
    {
        assert(views(items@.take(i + 1)).drop_last() =~= views(items@.take(i as int)));
        if i > 0 {
            r.append(sep);
        } else {
            assert(views(items@.take(1)) =~= seq![items@[0]@]);
        }
        r.append(items[i].as_str());
        i = i + 1;
    }
    assert(items@.take(i as int) =~= items@);
    r
}

fn push_line(lines: &mut Vec<String>, line: String)
    ensures
        views(final(lines)@) == views(old(lines)@).push(line@),
{
    lines.push(line);
    assert(views(lines@) =~= views(old(lines)@).push(line@));
}

fn push_list_line(lines: &mut Vec<String>, pre: &str, items: &Vec<String>, sep: &str, post: &str)
    ensures
        views(final(lines)@) == views(old(lines)@) + list_line(pre@, views(items@), sep@, post@),
{
    if items.len() == 0 {
        assert(views(lines@) =~= views(lines@) + list_line(pre@, views(items@), sep@, post@));
        return;
    }
    let mut l = String::from_str(pre);
    l.append(join_strs(items, sep).as_str());
    l.append(post);
    push_line(lines, l);
    assert(views(lines@) =~= views(old(lines)@) + list_line(pre@, views(items@), sep@, post@));
}

fn push_var_lines(lines: &mut Vec<String>, vars: &Vec<(String, String)>, pre: &str, mid: &str, post: &str)
    ensures
        views(final(lines)@) == views(old(lines)@) + var_lines(pair_views(vars@), pre@, mid@, post@),
{
    let mut i: usize = 0;
    while i < vars.len()
        invariant
            i <= vars@.len(),
            views(lines@) == views(old(lines)@) + var_lines(pair_views(vars@.take(i as int)), pre@, mid@, post@),
        decreases vars@.len() - i,
    {
        let mut l = String::from_str(pre);
        l.append(vars[i].0.as_str());
        l.append(mid);
        l.append(vars[i].1.as_str());
        l.append(post);
        push_line(lines, l);
        assert(var_lines(pair_views(vars@.take(i + 1)), pre@, mid@, post@) =~= var_lines(
            pair_views(vars@.take(i as int)), pre@, mid@, post@).push(pre@ + vars@[i as int].0@ + mid@ + vars@[i as int].1@ + post@));
        i = i + 1;
    }
    assert(vars@.take(i as int) =~= vars@);
}

/// Script for cmd.exe.
pub fn fmt_cmd(env: &Env) -> (r: String)
    ensures
        r@ == join_with(cmd_lines(*env), "\n"@),
{
    let mut lines: Vec<String> = Vec::new();
    assert(views(lines@) =~= Seq::<Seq<char>>::empty());
    push_list_line(&mut lines, "set \"PATH=", &env.path, ";", ";%PATH%\"");
    push_list_line(&mut lines, "set \"INCLUDE=", &env.includes, ";", ";%INCLUDE%\"");
    push_list_line(&mut lines, "set \"LIB=", &env.lib, ";", ";%LIB%\"");
    push_list_line(&mut lines, "set \"LIBPATH=", &env.libpath, ";", ";%LIBPATH%\"");
    push_var_lines(&mut lines, &env.vars, "set \"", "=", "\"");
    assert(views(lines@) =~= cmd_lines(*env));
    join_strs(&lines, "\n")
}

/// Script for PowerShell.
pub fn fmt_ps(env: &Env) -> (r: String)
    ensures
        r@ == join_with(ps_lines(*env), "\n"@),
{
    let mut lines: Vec<String> = Vec::new();
    assert(views(lines@) =~= Seq::<Seq<char>>::empty());
    push_list_line(&mut lines, "$env:PATH = \"", &env.path, ";", ";$env:PATH\"");
    push_list_line(&mut lines, "$env:INCLUDE = \"", &env.includes, ";", ";$env:INCLUDE\"");
    push_list_line(&mut lines, "$env:LIB = \"", &env.lib, ";", ";$env:LIB\"");
    push_list_line(&mut lines, "$env:LIBPATH = \"", &env.libpath, ";", ";$env:LIBPATH\"");
    push_var_lines(&mut lines, &env.vars, "$env:", " = \"", "\"");
    assert(views(lines@) =~= ps_lines(*env));
    join_strs(&lines, "\n")
}

/// Script for a POSIX shell: the executable search path in POSIX form,
/// the other lists with their native separators.
pub fn fmt_sh(env: &Env) -> (r: String)
    ensures
        r@ == join_with(sh_lines(*env), "\n"@),
{
    let mut unix: Vec<String> = Vec::new();
    let mut i: usize = 0;
    while i < env.path.len()
        invariant
            i <= env.path@.len(),
            views(unix@) == views(env.path@.take(i as int)).map_values(|p: Seq<char>| unix_form(p)),
        decreases env.path@.len() - i,
    {
        let u = win_to_unix(env.path[i].as_str());
        push_line(&mut unix, u);
        assert(views(env.path@.take(i + 1)).map_values(|p: Seq<char>| unix_form(p)) =~= views(
            env.path@.take(i as int)).map_values(|p: Seq<char>| unix_form(p)).push(unix_form(env.path@[i as int]@)));
        i = i + 1;
    }
    assert(env.path@.take(i as int) =~= env.path@);
    let mut lines: Vec<String> = Vec::new();
    assert(views(lines@) =~= Seq::<Seq<char>>::empty());
    push_list_line(&mut lines, "export PATH=\"", &unix, ":", ":$PATH\"");
    push_list_line(&mut lines, "export INCLUDE=\"", &env.includes, ";", ";$INCLUDE\"");
    push_list_line(&mut lines, "export LIB=\"", &env.lib, ";", ";$LIB\"");
    push_list_line(&mut lines, "export LIBPATH=\"", &env.libpath, ";", ";$LIBPATH\"");
    push_var_lines(&mut lines, &env.vars, "export ", "=\"", "\"");
    assert(views(lines@) =~= sh_lines(*env));
    join_strs(&lines, "\n")
}

} // verus!

//! The environment as a JSON document.

use vstd::prelude::*;
use crate::env::{pair_views, Env};
use crate::text::views;

verus! {

/// The text `serde_json::to_string_pretty` gives for an object that has, in
/// order of insertion, a string-array member for each of `lists` and then a
/// string member for each of `texts`.
pub uninterp spec fn json_text(lists: Seq<(Seq<char>, Seq<Seq<char>>)>, texts: Seq<(Seq<char>, Seq<char>)>) -> Seq<char>;

/// The character sequences of named string lists.
pub open spec fn list_views(v: Seq<(String, Vec<String>)>) -> Seq<(Seq<char>, Seq<Seq<char>>)> {
    v.map_values(|p: (String, Vec<String>)| (p.0@, views(p.1@)))
}

/// The array members of the document: each path list under its variable name.
pub open spec fn lists_of(env: Env) -> Seq<(Seq<char>, Seq<Seq<char>>)> {
    seq![
        ("PATH"@, views(env.path@)),
        ("INCLUDE"@, views(env.includes@)),
        ("LIB"@, views(env.lib@)),
        ("LIBPATH"@, views(env.libpath@)),
    ]
}

fn copy_list(items: &Vec<String>) -> (r: Vec<String>)
    ensures
        views(r@) == views(items@),
{
    let mut r: Vec<String> = Vec::new();
    let mut i: usize = 0;
    while i < items.len()
        invariant
            i <= items@.len(),
            views(r@) == views(items@.take(i as int)),
        decreases items@.len() - i,
    {
        let ghost before = r@;
        r.push(items[i].clone());
        assert(views(r@) =~= views(before).push(items@[i as int]@));
        assert(views(items@.take(i + 1)) =~= views(items@.take(i as int)).push(items@[i as int]@));
        i = i + 1;
    }
    assert(items@.take(i as int) =~= items@);
    r
}

fn push_list(v: &mut Vec<(String, Vec<String>)>, name: &str, items: &Vec<String>)
    ensures
        list_views(final(v)@) == list_views(old(v)@).push((name@, views(items@))),
{
    v.push((String::from_str(name), copy_list(items)));
    assert(list_views(v@) =~= list_views(old(v)@).push((name@, views(items@))));
}

/// The array members of the JSON document for `env`, in order.
pub fn json_lists(env: &Env) -> (r: Vec<(String, Vec<String>)>)
    ensures
        list_views(r@) == lists_of(*env),
{
    let mut r: Vec<(String, Vec<String>)> = Vec::new();
    push_list(&mut r, "PATH", &env.path);
    push_list(&mut r, "INCLUDE", &env.includes);
    push_list(&mut r, "LIB", &env.lib);
    push_list(&mut r, "LIBPATH", &env.libpath);
    assert(list_views(r@) =~= lists_of(*env));
    r
}

/// Relies on `serde_json::to_string_pretty` of a `serde_json::Value::Object`
/// built with `serde_json::Map::new` and `insert`: the text is a function of
/// the members alone. Writing a `Value` into memory does not fail.
#[verifier::external_body]
fn json_document(lists: &Vec<(String, Vec<String>)>, texts: &Vec<(String, String)>) -> (r: String)
    ensures
        r@ == json_text(list_views(lists@), pair_views(texts@)),
{
    let mut m = serde_json::Map::new();
    for (k, items) in lists {
        let arr = items.iter().map(|s| serde_json::Value::String(s.clone())).collect();
        m.insert(k.clone(), serde_json::Value::Array(arr));
    }
    for (k, t) in texts {
        m.insert(k.clone(), serde_json::Value::String(t.clone()));
    }
    serde_json::to_string_pretty(&serde_json::Value::Object(m)).unwrap_or_default()
}

/// The environment as a JSON object: each path list as an array of
/// strings, then each variable as a string member.
pub fn fmt_json(env: &Env) -> (r: String)
    ensures
        r@ == json_text(lists_of(*env), pair_views(env.vars@)),
{
    let lists = json_lists(env);
    json_document(&lists, &env.vars)
}

} // verus!

use vstd::prelude::*;

use crate::text::str_eq;

verus! {

/// The extension of an extension's Lua script.
pub const LUA_EXT: &'static str = "lua";

/// The extension of an extension's YAML manifest.
pub const YAML_EXT: &'static str = "yaml";

/// The index of the last `.` in `s`, or -1 where there is none.
pub open spec fn last_dot(s: Seq<char>) -> int
    decreases s.len(),
{
    if s.len() == 0 {
        -1
    } else if s.last() == '.' {
        s.len() - 1
    } else {
        last_dot(s.drop_last())
    }
}

/// Whether `name` is the parent-directory name `..`.
pub open spec fn is_parent_name(name: Seq<char>) -> bool {
    name == seq!['.', '.']
}

/// The extension of a file name, as a path's `extension` reads it: what
/// follows the last `.`, unless that `.` opens the name or the name is `..`.
pub open spec fn file_extension_spec(name: Seq<char>) -> Option<Seq<char>> {
    let d = last_dot(name);
    if is_parent_name(name) || d <= 0 {
        None
    } else {
        Some(name.subrange(d + 1, name.len() as int))
    }
}

/// The stem of a file name, as a path's `file_stem` reads it: what comes
/// before the last `.`, or the whole name where the name has no extension.
pub open spec fn file_stem_spec(name: Seq<char>) -> Seq<char> {
    let d = last_dot(name);
    if is_parent_name(name) || d <= 0 {
        name
    } else {
        name.subrange(0, d)
    }
}

/// The name of the file with stem `name` and extension `ext`.
pub open spec fn extension_file_name_spec(name: Seq<char>, ext: Seq<char>) -> Seq<char> {
    name + seq!['.'] + ext
}

proof fn lemma_last_dot_bound(s: Seq<char>)
    ensures
        -1 <= last_dot(s) < s.len(),
        last_dot(s) >= 0 ==> s[last_dot(s)] == '.',
        forall|j: int| last_dot(s) < j < s.len() ==> s[j] != '.',
    decreases s.len(),
{
    if s.len() > 0 && s.last() != '.' {
        let t = s.drop_last();
        lemma_last_dot_bound(t);
        assert forall|j: int| last_dot(s) < j < s.len() implies s[j] != '.' by {
            if j < t.len() {
                assert(s[j] == t[j]);
            }
        }
    }
}

/// Finds the index of the last `.` in `name`.
fn find_last_dot(name: &str) -> (res: Option<usize>)
    ensures
        match res {
            Some(i) => i == last_dot(name@) && i < name@.len(),
            None => last_dot(name@) == -1,
        },
{
    proof {
        lemma_last_dot_bound(name@);
    }
    let n = name.unicode_len();
    let mut i = n;
    assert(name@.subrange(0, n as int) =~= name@);
    while i > 0
        invariant
            n == name@.len(),
            i <= n,
            last_dot(name@) == last_dot(name@.subrange(0, i as int)),
        decreases i,
    {
        let ghost pre = name@.subrange(0, i as int);
        assert(pre.drop_last() =~= name@.subrange(0, i - 1));
        if name.get_char(i - 1) == '.' {
            return Some(i - 1);
        }
        i = i - 1;
    }
    assert(name@.subrange(0, 0) =~= Seq::<char>::empty());
    None
}

fn is_parent(name: &str) -> (res: bool)
    ensures
        res == is_parent_name(name@),
{
    proof {
        reveal_strlit("..");
    }
    assert(".."@ =~= seq!['.', '.']);
    let r = str_eq(name, "..");
    assert(r == (name@ =~= seq!['.', '.']));
    r
}

/// The extension of a file name; see [`file_extension_spec`].
pub fn file_extension(name: &str) -> (res: Option<&str>)
    ensures
        match (res, file_extension_spec(name@)) {
            (Some(r), Some(e)) => r@ == e,
            (None, None) => true,
            _ => false,
        },
{
    if is_parent(name) {
        return None;
    }
    let n = name.unicode_len();
    match find_last_dot(name) {
        Some(d) => {
            if d == 0 {
                None
            } else {
                Some(name.substring_char(d + 1, n))
            }
        },
        None => None,
    }
}

/// The stem of a file name; see [`file_stem_spec`].
pub fn file_stem(name: &str) -> (res: &str)
    ensures
        res@ == file_stem_spec(name@),
{
    if is_parent(name) {
        return name;
    }
    match find_last_dot(name) {
        Some(d) => {
            if d == 0 {
                name
            } else {
                name.substring_char(0, d)
            }
        },
        None => name,
    }
}

/// The name of the file with stem `name` and extension `ext`, as
/// `format!("{}.{}", name, ext)` writes it.
pub fn extension_file_name(name: &str, ext: &str) -> (res: String)
    ensures
        res@ == extension_file_name_spec(name@, ext@),
{
    let mut res = String::from_str(name);
    res.append(".");
    res.append(ext);
    proof {
        reveal_strlit(".");
    }
    res
}

/// Whether `name` is the file name of a Lua script.
pub open spec fn is_lua_file(name: Seq<char>) -> bool {
    file_extension_spec(name) == Some(LUA_EXT@)
}

/// Whether `name` is the file name of a part of an extension: a Lua script
/// or a YAML manifest.
pub open spec fn is_extension_file_spec(name: Seq<char>) -> bool {
    file_extension_spec(name) == Some(LUA_EXT@) || file_extension_spec(name) == Some(YAML_EXT@)
}

/// The stems of the Lua scripts among `names`, in their order.
pub open spec fn lua_stems_spec(names: Seq<Seq<char>>) -> Seq<Seq<char>>
    decreases names.len(),
{
    if names.len() == 0 {
        Seq::empty()
    } else {
        let rest = lua_stems_spec(names.drop_last());
        if is_lua_file(names.last()) {
            rest.push(file_stem_spec(names.last()))
        } else {
            rest
        }
    }
}

/// The characters of each string.
pub open spec fn views(v: Seq<String>) -> Seq<Seq<char>> {
    v.map_values(|s: String| s@)
}

fn has_extension(name: &str, ext: &str) -> (res: bool)
    ensures
        res == (file_extension_spec(name@) == Some(ext@)),
{
    match file_extension(name) {
        Some(e) => str_eq(e, ext),
        None => false,
    }
}

/// The stems of the Lua scripts among the file names of a directory, in the
/// order of the listing.
pub fn lua_stems(names: &Vec<String>) -> (res: Vec<String>)
    ensures
        views(res@) == lua_stems_spec(views(names@)),
{
    let mut res: Vec<String> = Vec::new();
    let n = names.len();
    let mut i: usize = 0;
    while i < n
        invariant
            n == names@.len(),
            i <= n,
            views(res@) == lua_stems_spec(views(names@).subrange(0, i as int)),
        decreases n - i,
    {
        let name = names[i].as_str();
        let ghost pre = views(names@).subrange(0, i + 1);
        assert(pre.drop_last() =~= views(names@).subrange(0, i as int));
        assert(pre.last() == names@[i as int]@);
        if has_extension(name, LUA_EXT) {
            let stem = String::from_str(file_stem(name));
            res.push(stem);
            assert(views(res@) =~= lua_stems_spec(pre));
        }
        i = i + 1;
    }
    assert(views(names@).subrange(0, n as int) =~= views(names@));
    res
}

/// The positions, in increasing order, of the names among `names` that are
/// parts of an extension (see [`is_extension_file_spec`]).
pub fn select_extension_files(names: &Vec<String>) -> (res: Vec<usize>)
    ensures
        forall|k: int| 0 <= k < res@.len() ==> res@[k] < names@.len(),
        forall|k: int, l: int| 0 <= k < l < res@.len() ==> res@[k] < res@[l],
        forall|i: int|
            0 <= i < names@.len() ==> (is_extension_file_spec(names@[i]@) <==> res@.contains(
                i as usize,
            )),
{
    let mut res: Vec<usize> = Vec::new();
    let n = names.len();
    let mut i: usize = 0;
    while i < n
        invariant
            n == names@.len(),
            i <= n,
            forall|k: int| 0 <= k < res@.len() ==> res@[k] < i,
            forall|k: int, l: int| 0 <= k < l < res@.len() ==> res@[k] < res@[l],
            forall|j: int|
                0 <= j < i ==> (is_extension_file_spec(names@[j]@) <==> res@.contains(j as usize)),
        decreases n - i,
    {
        let name = names[i].as_str();
        let keep = has_extension(name, LUA_EXT) || has_extension(name, YAML_EXT);
        let ghost before = res@;
        if keep {
            res.push(i);
            assert(res@[res@.len() - 1] == i);
        }
        assert forall|j: int| 0 <= j <= i implies (is_extension_file_spec(names@[j]@)
            <==> res@.contains(j as usize)) by {
            if j < i {
                if before.contains(j as usize) {
                    let k = choose|k: int| 0 <= k < before.len() && before[k] == j as usize;
                    assert(res@[k] == j as usize);
                }
                if res@.contains(j as usize) {
                    let k = choose|k: int| 0 <= k < res@.len() && res@[k] == j as usize;
                    if k < before.len() {
                        assert(before[k] == j as usize);
                    }
                }
            } else {
                if res@.contains(j as usize) {
                    let k = choose|k: int| 0 <= k < res@.len() && res@[k] == j as usize;
                    if k < before.len() {
                        assert(before[k] < i);
                    }
                }
                if keep {
                    assert(res@[res@.len() - 1] == j as usize);
                }
            }
        }
        i = i + 1;
    }
    res
}

proof fn lemma_last_dot_after_dotless(prefix: Seq<char>, tail: Seq<char>)
    requires
        !tail.contains('.'),
    ensures
        last_dot(prefix + tail) == last_dot(prefix),
    decreases tail.len(),
{
    if tail.len() > 0 {
        let t = tail.drop_last();
        assert(!t.contains('.')) by {
            if t.contains('.') {
                let k = choose|k: int| 0 <= k < t.len() && t[k] == '.';
                assert(tail[k] == '.');
            }
        }
        assert(tail.last() != '.') by {
            if tail.last() == '.' {
                assert(tail[tail.len() - 1] == '.');
            }
        }
        assert((prefix + tail).drop_last() =~= prefix + t);
        lemma_last_dot_after_dotless(prefix, t);
    } else {
        assert(prefix + tail =~= prefix);
    }
}

/// Law: naming a file by a stem and an extension is undone by reading its
/// stem and its extension back, for every non-empty stem and every non-empty
/// extension without a `.`.
pub proof fn lemma_extension_file_name_round_trip(name: Seq<char>, ext: Seq<char>)
    requires
        name.len() > 0,
        ext.len() > 0,
        !ext.contains('.'),
    ensures
        file_extension_spec(extension_file_name_spec(name, ext)) == Some(ext),
        file_stem_spec(extension_file_name_spec(name, ext)) == name,
{
    let dotted = name + seq!['.'];
    let full = extension_file_name_spec(name, ext);
    assert(full =~= dotted + ext);
    lemma_last_dot_after_dotless(dotted, ext);
    assert(dotted.drop_last() =~= name);
    assert(last_dot(dotted) == name.len());
    assert(!is_parent_name(full)) by {
        assert(full.len() >= 3);
    }
    assert(full.subrange(name.len() + 1int, full.len() as int) =~= ext);
    assert(full.subrange(0, name.len() as int) =~= name);
}

proof fn lemma_extensions_are_dotless()
    ensures
        !LUA_EXT@.contains('.'),
        !YAML_EXT@.contains('.'),
        LUA_EXT@.len() > 0,
        YAML_EXT@.len() > 0,
        LUA_EXT@ != YAML_EXT@,
{
    reveal_strlit("lua");
    reveal_strlit("yaml");
    assert(LUA_EXT@ =~= seq!['l', 'u', 'a']);
    assert(YAML_EXT@ =~= seq!['y', 'a', 'm', 'l']);
}

/// Law: the two files of an extension named `name` (non-empty) are parts of
/// an extension, and only the script is a Lua script; its stem is the name.
pub proof fn lemma_extension_files_are_recognised(name: Seq<char>)
    requires
        name.len() > 0,
    ensures
        is_extension_file_spec(extension_file_name_spec(name, LUA_EXT@)),
        is_extension_file_spec(extension_file_name_spec(name, YAML_EXT@)),
        is_lua_file(extension_file_name_spec(name, LUA_EXT@)),
        !is_lua_file(extension_file_name_spec(name, YAML_EXT@)),
        file_stem_spec(extension_file_name_spec(name, LUA_EXT@)) == name,
{
    lemma_extensions_are_dotless();
    lemma_extension_file_name_round_trip(name, LUA_EXT@);
    lemma_extension_file_name_round_trip(name, YAML_EXT@);
}

/// Law: where a listing holds the Lua script of the extension `name`
/// (non-empty), the stems that bootstrapping considers include `name`.
pub proof fn lemma_listed_script_is_found(names: Seq<Seq<char>>, name: Seq<char>)
    requires
        name.len() > 0,
        names.contains(extension_file_name_spec(name, LUA_EXT@)),
    ensures
        lua_stems_spec(names).contains(name),
    decreases names.len(),
{
    lemma_extension_files_are_recognised(name);
    let file = extension_file_name_spec(name, LUA_EXT@);
    let rest = names.drop_last();
    if names.last() == file {
        assert(lua_stems_spec(names).last() == name);
        assert(lua_stems_spec(names)[lua_stems_spec(names).len() - 1] == name);
    } else {
        let k = choose|k: int| 0 <= k < names.len() && names[k] == file;
        assert(rest[k] == file);
        lemma_listed_script_is_found(rest, name);
        let r = lua_stems_spec(rest);
        let j = choose|j: int| 0 <= j < r.len() && r[j] == name;
        if is_lua_file(names.last()) {
            assert(lua_stems_spec(names)[j] == name);
        }
    }
}

} // verus!

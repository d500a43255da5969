//! Paths as text.
//!
//! A path is a text whose parts are separated by `/`. Separators and `.`
//! segments at the end of a path do not count: `a/b/` and `a/b/.` are the
//! path `a/b`. The file name of a path is then what follows its last `/`;
//! the root, and a path that ends in `..`, name no file. Joining a path to a
//! directory puts one `/` between them, unless the path starts at the root,
//! in which case it stands alone.

use vstd::prelude::*;
use vstd::string::*;
use crate::text::{
    append_chars, chars_of, ends_with_sub, find_from, find_sub, lemma_find_sub_first, slice_of,
    string_of,
};

verus! {

/// The position of the last `c` in `s`, or -1 where there is none.
pub open spec fn last_index_of(s: Seq<char>, c: char) -> int
    decreases s.len(),
{
    if s.len() == 0 {
        -1
    } else if s.last() == c {
        s.len() - 1
    } else {
        last_index_of(s.drop_last(), c)
    }
}

/// What follows the last `/` of `path`.
pub open spec fn last_segment(path: Seq<char>) -> Seq<char> {
    path.skip(last_index_of(path, '/') + 1)
}

/// `path` without the separators and `.` segments at its end: `a/b/`,
/// `a/b//` and `a/b/.` are all `a/b`. The root stays the root.
pub open spec fn trimmed(path: Seq<char>) -> Seq<char>
    decreases path.len(),
{
    if path.len() >= 2 && (path.last() == '/' || (path.last() == '.' && path[path.len() - 2]
        == '/')) {
        trimmed(path.drop_last())
    } else {
        path
    }
}

/// The last segment of a path that has nothing to trim at its end, unless
/// that segment is empty, `.` or `..`.
pub open spec fn plain_file_name(path: Seq<char>) -> Option<Seq<char>> {
    let name = last_segment(path);
    if name.len() == 0 || name == seq!['.'] || name == seq!['.', '.'] {
        None
    } else {
        Some(name)
    }
}

/// The file name of `path`: the last segment of the path, separators and
/// `.` segments at its end apart, unless that segment is `..` or there is
/// none.
pub open spec fn file_name_of(path: Seq<char>) -> Option<Seq<char>> {
    plain_file_name(trimmed(path))
}

/// The extension of `path`: what follows the last `.` of its file name. A
/// name without a `.`, and a name whose only `.` is its first character, has
/// none.
pub open spec fn extension_of(path: Seq<char>) -> Option<Seq<char>> {
    match file_name_of(path) {
        None => None,
        Some(name) => {
            let dot = last_index_of(name, '.');
            if dot <= 0 {
                None
            } else {
                Some(name.skip(dot + 1))
            }
        },
    }
}

/// What stands before the last `/` of a path that has nothing to trim at
/// its end: the root for a path directly under it, and nothing for a single
/// segment.
pub open spec fn plain_parent(path: Seq<char>) -> Seq<char> {
    let slash = last_index_of(path, '/');
    if slash < 0 {
        Seq::<char>::empty()
    } else if slash == 0 {
        seq!['/']
    } else {
        path.take(slash)
    }
}

/// The directory that holds `path`: the path without its last segment and
/// the separators before it, the root for a path directly under it, and
/// nothing for a single segment.
pub open spec fn parent_of(path: Seq<char>) -> Seq<char> {
    trimmed(plain_parent(trimmed(path)))
}

/// `path` with the extension of its file name replaced by `ext`: what stood
/// after the file name goes, the old extension and its `.` go, and `.` and
/// `ext` come, unless `ext` is empty. A path without a file name stays as it
/// is.
pub open spec fn with_extension_of(path: Seq<char>, ext: Seq<char>) -> Seq<char> {
    match file_name_of(path) {
        None => path,
        Some(name) => {
            let dot = last_index_of(name, '.');
            let stem = if dot <= 0 {
                name.len() as int
            } else {
                dot
            };
            let whole = trimmed(path);
            let base = whole.take(whole.len() - name.len() + stem);
            if ext.len() == 0 {
                base
            } else {
                base + seq!['.'] + ext
            }
        },
    }
}

/// `tail` under the directory `base`.
pub open spec fn joined(base: Seq<char>, tail: Seq<char>) -> Seq<char> {
    if tail.len() > 0 && tail[0] == '/' {
        tail
    } else if base.len() == 0 || base.last() == '/' {
        base + tail
    } else {
        base + seq!['/'] + tail
    }
}

/// The segments of `parts` joined one after another under `base`.
pub open spec fn joined_all(base: Seq<char>, parts: Seq<Seq<char>>) -> Seq<char>
    decreases parts.len(),
{
    if parts.len() == 0 {
        base
    } else {
        joined(joined_all(base, parts.drop_last()), parts.last())
    }
}

/// `path` with a backslash added where it ends in a colon, as a bare drive
/// letter does.
pub open spec fn colon_closed(path: Seq<char>) -> Seq<char> {
    if path.len() > 0 && path.last() == ':' {
        path.push('\\')
    } else {
        path
    }
}

/// The position of the last `c` lies within the text, or is -1.
pub proof fn lemma_last_index_bounds(s: Seq<char>, c: char)
    ensures
        -1 <= last_index_of(s, c) < s.len(),
        last_index_of(s, c) >= 0 ==> s[last_index_of(s, c)] == c,
    decreases s.len(),
{
    if s.len() > 0 && s.last() != c {
        lemma_last_index_bounds(s.drop_last(), c);
    }
}

/// The position of the last `c` in `v`.
pub fn rfind_char(v: &Vec<char>, c: char) -> (r: Option<usize>)
    ensures
        match r {
            Some(i) => last_index_of(v@, c) == i && i < v.len(),
            None => last_index_of(v@, c) == -1,
        },
{
    let mut i: usize = v.len();
    proof {
        assert(v@.take(v.len() as int) =~= v@);
    }
    while i > 0
        invariant
            i <= v.len(),
            last_index_of(v@, c) == last_index_of(v@.take(i as int), c),
        decreases i,
    {
        proof {
            assert(v@.take(i as int).drop_last() =~= v@.take(i - 1));
            assert(v@.take(i as int).last() == v@[i - 1]);
        }
        if v[i - 1] == c {
            return Some(i - 1);
        }
        i -= 1;
    }
    None
}

/// The characters of the last segment of a path.
fn last_segment_chars(v: &Vec<char>) -> (r: Vec<char>)
    ensures
        r@ == last_segment(v@),
{
    let from: usize = match rfind_char(v, '/') {
        Some(i) => i + 1,
        None => 0,
    };
    let r = slice_of(v, from, v.len());
    assert(v@.subrange(from as int, v.len() as int) =~= v@.skip(from as int));
    r
}

/// The characters of a path without the separators and `.` segments at its
/// end.
pub fn trim_chars(v: &Vec<char>) -> (r: Vec<char>)
    ensures
        r@ == trimmed(v@),
{
    let mut n: usize = v.len();
    proof {
        assert(v@.take(v.len() as int) =~= v@);
    }
    while n >= 2 && (v[n - 1] == '/' || (v[n - 1] == '.' && v[n - 2] == '/'))
        invariant
            n <= v.len(),
            trimmed(v@) == trimmed(v@.take(n as int)),
        decreases n,
    {
        proof {
            assert(v@.take(n as int).drop_last() =~= v@.take(n - 1));
        }
        n -= 1;
    }
    let r = slice_of(v, 0, n);
    assert(v@.subrange(0, n as int) =~= v@.take(n as int));
    r
}

/// The characters of the file name of a path that has nothing to trim at
/// its end.
fn plain_file_name_chars(v: &Vec<char>) -> (r: Option<Vec<char>>)
    ensures
        match r {
            Some(name) => plain_file_name(v@) == Some(name@) && name@ == last_segment(v@)
                && name.len() > 0,
            None => plain_file_name(v@) is None,
        },
{
    let name = last_segment_chars(v);
    if name.len() == 0 {
        return None;
    }
    if name.len() == 1 && name[0] == '.' {
        assert(name@ =~= seq!['.']);
        return None;
    }
    if name.len() == 2 && name[0] == '.' && name[1] == '.' {
        assert(name@ =~= seq!['.', '.']);
        return None;
    }
    proof {
        if name@ == seq!['.'] {
            assert(name@.len() == 1 && name@[0] == '.');
        }
        if name@ == seq!['.', '.'] {
            assert(name@.len() == 2 && name@[0] == '.' && name@[1] == '.');
        }
    }
    Some(name)
}

/// The characters of the file name of a path.
fn file_name_chars(v: &Vec<char>) -> (r: Option<Vec<char>>)
    ensures
        match r {
            Some(name) => file_name_of(v@) == Some(name@) && name.len() > 0,
            None => file_name_of(v@) is None,
        },
{
    let whole = trim_chars(v);
    plain_file_name_chars(&whole)
}

/// The file name of `path`.
pub fn file_name(path: &str) -> (r: Option<String>)
    ensures
        r.deep_view() == file_name_of(path@),
{
    let v = chars_of(path);
    match file_name_chars(&v) {
        Some(name) => Some(string_of(&name)),
        None => None,
    }
}

/// The extension of `path`.
pub fn extension(path: &str) -> (r: Option<String>)
    ensures
        r.deep_view() == extension_of(path@),
{
    let v = chars_of(path);
    let name = match file_name_chars(&v) {
        Some(name) => name,
        None => {
            return None;
        },
    };
    match rfind_char(&name, '.') {
        None => None,
        Some(dot) => {
            if dot == 0 {
                None
            } else {
                let ext = slice_of(&name, dot + 1, name.len());
                assert(name@.subrange(dot + 1, name.len() as int) =~= name@.skip(dot + 1));
                Some(string_of(&ext))
            }
        },
    }
}

/// `path` with the extension of its file name replaced by `ext`.
pub fn with_extension(path: &str, ext: &str) -> (r: String)
    ensures
        r@ == with_extension_of(path@, ext@),
{
    let v = chars_of(path);
    let whole = trim_chars(&v);
    let name = match plain_file_name_chars(&whole) {
        Some(name) => name,
        None => {
            return String::from_str(path);
        },
    };
    let stem: usize = match rfind_char(&name, '.') {
        Some(dot) => if dot == 0 {
            name.len()
        } else {
            dot
        },
        None => name.len(),
    };
    proof {
        lemma_last_index_bounds(whole@, '/');
        assert(name@ == last_segment(whole@));
    }
    let keep: usize = whole.len() - name.len() + stem;
    let mut r = slice_of(&whole, 0, keep);
    assert(whole@.subrange(0, keep as int) =~= whole@.take(keep as int));
    let extension = chars_of(ext);
    if extension.len() > 0 {
        r.push('.');
        append_chars(&mut r, &extension);
    }
    assert(r@ =~= with_extension_of(path@, ext@));
    string_of(&r)
}

/// The directory that holds `path`.
pub fn parent(path: &str) -> (r: String)
    ensures
        r@ == parent_of(path@),
{
    let v = chars_of(path);
    let whole = trim_chars(&v);
    match rfind_char(&whole, '/') {
        None => {
            assert(trimmed(Seq::<char>::empty()) == Seq::<char>::empty());
            String::new()
        },
        Some(slash) => {
            if slash == 0 {
                let root: Vec<char> = vec!['/'];
                assert(root@ =~= seq!['/']);
                assert(trimmed(seq!['/']) == seq!['/']);
                string_of(&root)
            } else {
                let head = slice_of(&whole, 0, slash);
                assert(whole@.subrange(0, slash as int) =~= whole@.take(slash as int));
                string_of(&trim_chars(&head))
            }
        },
    }
}

/// Joins the characters of `tail` to those of `base`.
pub fn join_chars(base: &Vec<char>, tail: &Vec<char>) -> (r: Vec<char>)
    ensures
        r@ == joined(base@, tail@),
{
    if tail.len() > 0 && tail[0] == '/' {
        return slice_clone(tail);
    }
    let mut r = slice_clone(base);
    if base.len() > 0 && base[base.len() - 1] != '/' {
        r.push('/');
    }
    append_chars(&mut r, tail);
    assert(r@ =~= joined(base@, tail@));
    r
}

/// A copy of `v`.
fn slice_clone(v: &Vec<char>) -> (r: Vec<char>)
    ensures
        r@ == v@,
{
    let r = slice_of(v, 0, v.len());
    assert(v@.subrange(0, v.len() as int) =~= v@);
    r
}

/// The path of `folder` under the directory `root`.
pub fn full_path(root: &str, folder: &str) -> (r: String)
    ensures
        r@ == joined(root@, folder@),
{
    let joined_chars = join_chars(&chars_of(root), &chars_of(folder));
    string_of(&joined_chars)
}

/// The path made of `base` and the segments of `parts` under it, one after another.
pub fn join_all(base: &str, parts: &Vec<String>) -> (r: String)
    ensures
        r@ == joined_all(base@, parts.deep_view()),
{
    let mut current = chars_of(base);
    let mut i: usize = 0;
    proof {
        assert(parts.deep_view().take(0) =~= Seq::<Seq<char>>::empty());
    }
    while i < parts.len()
        invariant
            i <= parts.len(),
            current@ == joined_all(base@, parts.deep_view().take(i as int)),
        decreases parts.len() - i,
    {
        let segment = chars_of(parts[i].as_str());
        proof {
            let so_far = parts.deep_view().take(i as int);
            let next = parts.deep_view().take(i + 1);
            assert(next.drop_last() =~= so_far);
            assert(next.last() == parts[i as int]@);
        }
        current = join_chars(&current, &segment);
        i += 1;
    }
    proof {
        assert(parts.deep_view().take(parts.len() as int) =~= parts.deep_view());
    }
    string_of(&current)
}

/// Adds a backslash to a path that ends in a colon.
pub fn handle_colon_end(path: String) -> (r: String)
    ensures
        r@ == colon_closed(path@),
{
    let mut v = chars_of(path.as_str());
    if v.len() > 0 && v[v.len() - 1] == ':' {
        v.push('\\');
        string_of(&v)
    } else {
        path
    }
}

/// Whether `expanded` may be `path` with the home directory put for a
/// leading `~`: a path without a leading `~` is its own expansion, and any
/// other expands to a text that ends with what followed its `~`.
pub open spec fn is_expansion(path: Seq<char>, expanded: Seq<char>) -> bool {
    if path.len() > 0 && path[0] == '~' {
        ends_with_sub(expanded, path.skip(1))
    } else {
        expanded == path
    }
}

/// Whether `expanded` holds an expansion of each of `paths`, in their order.
pub open spec fn are_expansions(paths: Seq<Seq<char>>, expanded: Seq<Seq<char>>) -> bool {
    &&& expanded.len() == paths.len()
    &&& forall|i: int| 0 <= i < paths.len() ==> is_expansion(paths[i], #[trigger] expanded[i])
}

/// Puts the home directory for a leading `~`, with `shellexpand::tilde`. What
/// the home directory is depends on the machine and the user, so the contract
/// states only what holds whatever it is: a path that does not begin with `~`
/// comes back unchanged, and any other comes back ending with what followed
/// its `~`.
#[verifier::external_body]
pub fn expand_path(path: &str) -> (r: String)
    ensures
        path@.len() == 0 || path@[0] != '~' ==> r@ == path@,
        path@.len() > 0 && path@[0] == '~' ==> ends_with_sub(r@, path@.skip(1)),
{
    shellexpand::tilde(path).into_owned()
}

/// Expands a leading `~` and closes a trailing colon.
pub fn process_path(path: &str) -> (r: String)
    ensures
        path@.len() == 0 || path@[0] != '~' ==> r@ == colon_closed(path@),
        exists|expanded: Seq<char>|
            r@ == colon_closed(expanded) && (path@.len() > 0 && path@[0] == '~' ==> ends_with_sub(
                expanded,
                path@.skip(1),
            )),
{
    let p = expand_path(path);
    let ghost expanded = p@;
    let r = handle_colon_end(p);
    assert(r@ == colon_closed(expanded));
    r
}

/// The path made of segments that were expanded: each with its trailing
/// colon closed, and joined to the ones before it.
pub open spec fn processed_path(expanded: Seq<Seq<char>>) -> Seq<char> {
    joined_all(Seq::<char>::empty(), expanded.map_values(|s: Seq<char>| colon_closed(s)))
}

/// The path made of the given segments, each processed by [`process_path`]
/// and joined to the ones before it. Where a segment begins with `~`, the
/// path is stated for whatever the home directory is.
pub fn process_strings_to_paths(strings: Vec<String>) -> (r: String)
    ensures
        exists|expanded: Seq<Seq<char>>|
            are_expansions(strings.deep_view(), expanded) && r@ == #[trigger] processed_path(
                expanded,
            ),
        no_home(strings.deep_view()) ==> r@ == processed_path(strings.deep_view()),
{
    let mut processed: Vec<String> = Vec::new();
    let ghost mut expanded: Seq<Seq<char>> = Seq::empty();
    let mut i: usize = 0;
    while i < strings.len()
        invariant
            i <= strings.len(),
            processed.len() == i,
            expanded.len() == i,
            forall|k: int|
                0 <= k < i ==> is_expansion(strings[k]@, #[trigger] expanded[k]) && processed[k]@
                    == colon_closed(expanded[k]),
        decreases strings.len() - i,
    {
        let p = expand_path(strings[i].as_str());
        proof {
            expanded = expanded.push(p@);
        }
        processed.push(handle_colon_end(p));
        i += 1;
    }
    let r = join_all("", &processed);
    proof {
        reveal_strlit("");
        assert(""@ =~= Seq::<char>::empty());
        assert(processed.deep_view() =~= expanded.map_values(|s: Seq<char>| colon_closed(s)));
        assert(are_expansions(strings.deep_view(), expanded)) by {
            assert forall|k: int| 0 <= k < strings.len() implies is_expansion(
                strings.deep_view()[k],
                #[trigger] expanded[k],
            ) by {
                assert(strings.deep_view()[k] == strings[k]@);
            }
        }
        assert(r@ == processed_path(expanded));
        if no_home(strings.deep_view()) {
            assert(expanded =~= strings.deep_view()) by {
                assert forall|k: int| 0 <= k < strings.len() implies expanded[k]
                    == strings.deep_view()[k] by {
                    assert(is_expansion(strings[k]@, expanded[k]));
                    assert(strings.deep_view()[k] == strings[k]@);
                }
            }
        }
    }
    r
}

/// The segments of `path` from position `from` on: what stands between its
/// separators, in order. An empty path has one segment, which is empty.
pub open spec fn segments_from(path: Seq<char>, from: int) -> Seq<Seq<char>>
    decreases path.len() - from,
{
    if from < 0 || from > path.len() {
        Seq::empty()
    } else {
        match find_sub(path, seq!['/'], from) {
            None => seq![path.subrange(from, path.len() as int)],
            Some(slash) => if from <= slash < path.len() {
                seq![path.subrange(from, slash)] + segments_from(path, slash + 1)
            } else {
                Seq::empty()
            },
        }
    }
}

/// Whether a segment is written out when a path is saved: not an empty one,
/// and not a lone backslash.
pub open spec fn is_saved(segment: Seq<char>) -> bool {
    segment.len() > 0 && segment != seq!['\\']
}

/// A segment as it is saved: a drive letter gets a `/` after its colon.
pub open spec fn saved_form(segment: Seq<char>) -> Seq<char> {
    if segment.len() > 0 && segment.last() == ':' {
        segment.push('/')
    } else {
        segment
    }
}

/// The segments of a path as they are saved.
pub open spec fn saved_segments(path: Seq<char>) -> Seq<Seq<char>> {
    segments_from(path, 0).filter(|s: Seq<char>| is_saved(s)).map_values(
        |s: Seq<char>| saved_form(s),
    )
}

/// Whether a file is hidden: its name begins with a `.`.
pub open spec fn is_hidden(path: Seq<char>) -> bool {
    match file_name_of(path) {
        Some(name) => name[0] == '.',
        None => false,
    }
}

/// A path with one more segment of a configuration: `.` stands for the
/// current directory, `..` goes to the directory above, and any other
/// segment is joined to the path.
pub open spec fn with_segment(path: Seq<char>, segment: Seq<char>, current_dir: Seq<char>) -> Seq<
    char,
> {
    if segment == seq!['.'] {
        joined(path, current_dir)
    } else if segment == seq!['.', '.'] {
        parent_of(path)
    } else {
        joined(path, segment)
    }
}

/// A path with one more segment of a configuration, of which `expanded` is
/// an expansion: a segment that begins with `~` is joined to the path as it
/// was expanded, with a trailing colon closed; any other segment is added as
/// [`with_segment`] says.
pub open spec fn with_expanded_segment(
    path: Seq<char>,
    segment: Seq<char>,
    expanded: Seq<char>,
    current_dir: Seq<char>,
) -> Seq<char> {
    if segment.len() > 0 && segment[0] == '~' {
        joined(path, colon_closed(expanded))
    } else {
        with_segment(path, segment, current_dir)
    }
}

/// The path that segments of a configuration spell, where `expanded` holds
/// an expansion of each: every segment is added to the path of those before
/// it.
pub open spec fn path_of_expanded(
    segments: Seq<Seq<char>>,
    expanded: Seq<Seq<char>>,
    current_dir: Seq<char>,
) -> Seq<char>
    decreases segments.len(),
{
    if segments.len() == 0 || expanded.len() != segments.len() {
        Seq::empty()
    } else {
        with_expanded_segment(
            path_of_expanded(segments.drop_last(), expanded.drop_last(), current_dir),
            segments.last(),
            expanded.last(),
            current_dir,
        )
    }
}

/// Whether `path` is what the segments spell, whatever the home directory
/// is: what they spell for some expansion of each of them.
pub open spec fn spells(segments: Seq<Seq<char>>, current_dir: Seq<char>, path: Seq<char>) -> bool {
    exists|expanded: Seq<Seq<char>>|
        are_expansions(segments, expanded) && path == #[trigger] path_of_expanded(
            segments,
            expanded,
            current_dir,
        )
}

/// The segments of a path, in order.
pub fn split_segments(path: &str) -> (r: Vec<Vec<char>>)
    ensures
        r.deep_view() == segments_from(path@, 0),
{
    let text = chars_of(path);
    let slash: Vec<char> = vec!['/'];
    assert(slash@ =~= seq!['/']);
    let mut parts: Vec<Vec<char>> = Vec::new();
    let mut from: usize = 0;
    proof {
        assert(parts.deep_view() + segments_from(text@, 0) =~= segments_from(text@, 0));
    }
    loop
        invariant
            from <= text.len(),
            text@ == path@,
            slash@ == seq!['/'],
            segments_from(text@, 0) == parts.deep_view() + segments_from(text@, from as int),
        decreases text.len() - from,
    {
        let found = find_from(&text, &slash, from);
        proof {
            lemma_find_sub_first(text@, slash@, from as int);
        }
        let to: usize = match found {
            Some(i) => i,
            None => text.len(),
        };
        let part = slice_of(&text, from, to);
        let ghost before = parts.deep_view();
        parts.push(part);
        proof {
            assert(part.deep_view() =~= part@);
            assert(parts.deep_view() =~= before.push(part@));
        }
        match found {
            None => {
                assert(parts.deep_view() =~= before + segments_from(text@, from as int));
                return parts;
            },
            Some(i) => {
                assert(before + segments_from(text@, from as int) =~= parts.deep_view()
                    + segments_from(text@, i + 1));
                from = i + 1;
            },
        }
    }
}

/// The segments of a path as a configuration lists them when it is saved:
/// empty segments and lone backslashes are left out, and a drive letter gets
/// a `/` after its colon.
pub fn process_pathbuf(path: &str) -> (r: Vec<String>)
    ensures
        r.deep_view() == saved_segments(path@),
{
    let parts = split_segments(path);
    let ghost all = segments_from(path@, 0);
    let ghost keep = |s: Seq<char>| is_saved(s);
    let ghost form = |s: Seq<char>| saved_form(s);
    let mut out: Vec<String> = Vec::new();
    let mut i: usize = 0;
    proof {
        assert(all.take(0) =~= Seq::<Seq<char>>::empty());
        assert(out.deep_view() =~= Seq::<Seq<char>>::empty());
        assert(all.take(0).filter(keep) =~= Seq::<Seq<char>>::empty());
    }
    while i < parts.len()
        invariant
            i <= parts.len(),
            all == parts.deep_view(),
            keep == (|s: Seq<char>| is_saved(s)),
            form == (|s: Seq<char>| saved_form(s)),
            out.deep_view() == all.take(i as int).filter(keep).map_values(form),
        decreases parts.len() - i,
    {
        let part = &parts[i];
        proof {
            assert(all[i as int] =~= part@);
            let so_far = all.take(i as int);
            let next = all.take(i + 1);
            assert(next =~= so_far.push(all[i as int]));
            assert(next.drop_last() =~= so_far);
            reveal(Seq::filter);
        }
        let saved = part.len() > 0 && !(part.len() == 1 && part[0] == '\\');
        proof {
            if part@ == seq!['\\'] {
                assert(part@.len() == 1 && part@[0] == '\\');
            }
            if part.len() == 1 && part[0] == '\\' {
                assert(part@ =~= seq!['\\']);
            }
            assert(saved == is_saved(all[i as int]));
        }
        if saved {
            let mut segment = slice_clone(part);
            if part[part.len() - 1] == ':' {
                segment.push('/');
            }
            let ghost before = out.deep_view();
            out.push(string_of(&segment));
            proof {
                assert(segment@ =~= saved_form(part@));
                assert(out.deep_view() =~= before.push(saved_form(all[i as int])));
                assert(all.take(i + 1).filter(keep) =~= all.take(i as int).filter(keep).push(
                    all[i as int],
                ));
                assert(all.take(i + 1).filter(keep).map_values(form) =~= before.push(
                    saved_form(all[i as int]),
                ));
            }
        }
        i += 1;
    }
    proof {
        assert(all.take(parts.len() as int) =~= all);
    }
    out
}

/// Whether a file is hidden: whether its name begins with a `.`.
pub fn is_hidden_file(path: &str) -> (r: bool)
    ensures
        r == is_hidden(path@),
{
    let v = chars_of(path);
    match file_name_chars(&v) {
        Some(name) => name[0] == '.',
        None => false,
    }
}

/// Adds a segment of a configuration to a path. A segment that begins with
/// `~` is joined with the home directory put for the `~`; `.` stands for
/// `current_dir`; `..` goes to the directory above; any other segment is
/// joined as it is.
pub fn add_segment_to_path(segment: &str, path: &mut String, current_dir: &str)
    ensures
        segment@.len() == 0 || segment@[0] != '~' ==> final(path)@ == with_segment(
            old(path)@,
            segment@,
            current_dir@,
        ),
        exists|expanded: Seq<char>|
            is_expansion(segment@, expanded) && final(path)@ == #[trigger] with_expanded_segment(
                old(path)@,
                segment@,
                expanded,
                current_dir@,
            ),
{
    let s = chars_of(segment);
    if s.len() > 0 && s[0] == '~' {
        let p = expand_path(segment);
        let ghost home = p@;
        let processed = handle_colon_end(p);
        *path = full_path(path.as_str(), processed.as_str());
        assert(is_expansion(segment@, home));
        assert(path@ == with_expanded_segment(old(path)@, segment@, home, current_dir@));
        return ;
    } else if s.len() == 1 && s[0] == '.' {
        assert(s@ =~= seq!['.']);
        *path = full_path(path.as_str(), current_dir);
    } else if s.len() == 2 && s[0] == '.' && s[1] == '.' {
        assert(s@ =~= seq!['.', '.']);
        *path = parent(path.as_str());
    } else {
        proof {
            if s@ == seq!['.'] {
                assert(s@.len() == 1 && s@[0] == '.');
            }
            if s@ == seq!['.', '.'] {
                assert(s@.len() == 2 && s@[0] == '.' && s@[1] == '.');
            }
        }
        *path = full_path(path.as_str(), segment);
    }
    assert(is_expansion(segment@, segment@));
    assert(path@ == with_expanded_segment(old(path)@, segment@, segment@, current_dir@));
}

/// The path that segments of a configuration spell, none of which begins
/// with `~`: each segment is added to the path of those before it.
pub open spec fn path_of_segments(segments: Seq<Seq<char>>, current_dir: Seq<char>) -> Seq<char>
    decreases segments.len(),
{
    if segments.len() == 0 {
        Seq::empty()
    } else {
        with_segment(
            path_of_segments(segments.drop_last(), current_dir),
            segments.last(),
            current_dir,
        )
    }
}

/// No segment begins with `~`.
pub open spec fn no_home(segments: Seq<Seq<char>>) -> bool {
    forall|i: int| 0 <= i < segments.len() ==> (#[trigger] segments[i]).len() == 0
        || segments[i][0] != '~'
}

/// The path that a list of segments of a configuration spells, each segment
/// added to the path of those before it by [`add_segment_to_path`]. Where a
/// segment begins with `~`, the path depends on the home directory, and is
/// stated for whatever that is.
pub fn deserialize_from_array_to_pathbuf(segments: &Vec<String>, current_dir: &str) -> (r: String)
    ensures
        spells(segments.deep_view(), current_dir@, r@),
        no_home(segments.deep_view()) ==> r@ == path_of_segments(
            segments.deep_view(),
            current_dir@,
        ),
{
    let mut path = String::new();
    let mut i: usize = 0;
    let ghost all = segments.deep_view();
    let ghost mut expanded: Seq<Seq<char>> = Seq::empty();
    proof {
        assert(all.take(0) =~= Seq::<Seq<char>>::empty());
    }
    while i < segments.len()
        invariant
            i <= segments.len(),
            all == segments.deep_view(),
            are_expansions(all.take(i as int), expanded),
            path@ == path_of_expanded(all.take(i as int), expanded, current_dir@),
            no_home(all) ==> path@ == path_of_segments(all.take(i as int), current_dir@),
        decreases segments.len() - i,
    {
        proof {
            assert(all[i as int] == segments[i as int]@);
            assert(all.take(i + 1).drop_last() =~= all.take(i as int));
            assert(all.take(i + 1).last() == all[i as int]);
        }
        let ghost before = path@;
        add_segment_to_path(segments[i].as_str(), &mut path, current_dir);
        proof {
            let e = choose|e: Seq<char>|
                is_expansion(all[i as int], e) && path@ == #[trigger] with_expanded_segment(
                    before,
                    all[i as int],
                    e,
                    current_dir@,
                );
            let next = expanded.push(e);
            assert(next.drop_last() =~= expanded);
            assert(next.last() == e);
            assert(are_expansions(all.take(i + 1), next)) by {
                assert forall|k: int| 0 <= k < i + 1 implies is_expansion(
                    all.take(i + 1)[k],
                    #[trigger] next[k],
                ) by {
                    if k < i {
                        assert(all.take(i + 1)[k] == all.take(i as int)[k]);
                        assert(next[k] == expanded[k]);
                    }
                }
            }
            expanded = next;
        }
        i += 1;
    }
    proof {
        assert(all.take(segments.len() as int) =~= all);
    }
    path
}

/// A path as a configuration may write it: as one text, or as a list of
/// segments.
#[derive(Debug)]
pub enum PathValue {
    /// The path itself.
    Text(String),
    /// The segments of the path.
    Segments(Vec<String>),
}

/// The path that an optional value of a configuration spells: a text is the
/// path as it stands, and a list of segments is read by
/// [`deserialize_from_array_to_pathbuf`].
pub fn deserialize_from_array_to_optional_pathbuf(value: Option<PathValue>, current_dir: &str) -> (r:
    Option<String>)
    ensures
        match value {
            None => r is None,
            Some(PathValue::Text(text)) => r is Some && r->Some_0@ == text@,
            Some(PathValue::Segments(segments)) => r is Some && spells(
                segments.deep_view(),
                current_dir@,
                r->Some_0@,
            ) && (no_home(segments.deep_view()) ==> r->Some_0@ == path_of_segments(
                segments.deep_view(),
                current_dir@,
            )),
        },
{
    match value {
        None => None,
        Some(PathValue::Text(text)) => Some(text),
        Some(PathValue::Segments(segments)) => Some(
            deserialize_from_array_to_pathbuf(&segments, current_dir),
        ),
    }
}

/// The paths that lists of segments of a configuration spell, one path for
/// each list, in their order.
pub fn deserialize_from_arrays_to_pathbuf_vec(lists: &Vec<Vec<String>>, current_dir: &str) -> (r:
    Vec<String>)
    ensures
        r.len() == lists.len(),
        forall|i: int|
            0 <= i < lists.len() ==> spells(lists[i].deep_view(), current_dir@, (#[trigger] r[i])@),
        forall|i: int|
            0 <= i < lists.len() && no_home(lists[i].deep_view()) ==> (#[trigger] r[i])@
                == path_of_segments(lists[i].deep_view(), current_dir@),
{
    let mut paths: Vec<String> = Vec::new();
    let mut i: usize = 0;
    while i < lists.len()
        invariant
            i <= lists.len(),
            paths.len() == i,
            forall|k: int|
                0 <= k < i ==> spells(lists[k].deep_view(), current_dir@, (#[trigger] paths[k])@),
            forall|k: int|
                0 <= k < i && no_home(lists[k].deep_view()) ==> (#[trigger] paths[k])@
                    == path_of_segments(lists[k].deep_view(), current_dir@),
        decreases lists.len() - i,
    {
        paths.push(deserialize_from_array_to_pathbuf(&lists[i], current_dir));
        i += 1;
    }
    paths
}

/// The segments of a path as a configuration lists them: those that
/// [`process_pathbuf`] keeps.
pub fn serialize_pathbuf_to_array(path: &str) -> (r: Vec<String>)
    ensures
        r.deep_view() == saved_segments(path@),
{
    process_pathbuf(path)
}

/// The segments of a path as a configuration lists them, where there is a path.
pub fn serialize_optional_pathbuf_to_array(path: &Option<String>) -> (r: Option<Vec<String>>)
    ensures
        match path {
            Some(p) => r is Some && r->Some_0.deep_view() == saved_segments(p@),
            None => r is None,
        },
{
    match path {
        Some(p) => Some(process_pathbuf(p.as_str())),
        None => None,
    }
}

/// The segments of each of `paths` as a configuration lists them, in the
/// order of the paths.
pub fn serialize_pathbuf_vec_to_arrays(paths: &Vec<String>) -> (r: Vec<Vec<String>>)
    ensures
        r.len() == paths.len(),
        forall|i: int|
            0 <= i < paths.len() ==> (#[trigger] r[i]).deep_view() == saved_segments(paths[i]@),
{
    let mut lists: Vec<Vec<String>> = Vec::new();
    let mut i: usize = 0;
    while i < paths.len()
        invariant
            i <= paths.len(),
            lists.len() == i,
            forall|k: int|
                0 <= k < i ==> (#[trigger] lists[k]).deep_view() == saved_segments(paths[k]@),
        decreases paths.len() - i,
    {
        lists.push(process_pathbuf(paths[i].as_str()));
        i += 1;
    }
    lists
}

} // verus!

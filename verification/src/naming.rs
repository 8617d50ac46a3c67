//! Output names: from the path of an input image to the name and place of the
//! WebP file written for it.
//!
//! A path is a sequence of characters whose components are separated by `/`.
//! Trailing separators and trailing `.` components do not count, so the file
//! name of `shots/photo.jpg/.` is `photo.jpg`. A path that ends in `..`, and a
//! path with no component at all (the empty path, `/`, `.`), has no file name.
use vstd::prelude::*;
use vstd::string::*;

verus! {

/// The name used for the output when the input path has no file name.
pub open spec fn default_name() -> Seq<char> {
    seq!['d', 'e', 'f', 'a', 'u', 'l', 't']
}

/// The extension of every output file, with its dot.
pub open spec fn webp_suffix() -> Seq<char> {
    seq!['.', 'w', 'e', 'b', 'p']
}

/// The index of the last occurrence of `c` in `s`, or -1 if there is none.
pub open spec fn last_index_of(s: Seq<char>, c: char) -> int
    decreases s.len(),
{
    if s.len() == 0 {
        -1
    } else if s.last() == c {
        s.len() - 1
    } else {
        last_index_of(s.drop_last(), c)
    }
}

/// `path` without its trailing separators and trailing `.` components.
pub open spec fn trim_trailing(path: Seq<char>) -> Seq<char>
    decreases path.len(),
{
    if path.len() >= 1 && path.last() == '/' {
        trim_trailing(path.drop_last())
    } else if path.len() >= 2 && path.last() == '.' && path[path.len() - 2] == '/' {
        trim_trailing(path.drop_last())
    } else {
        path
    }
}

/// What follows the last separator of `path` (all of it, if it has none).
pub open spec fn last_component(path: Seq<char>) -> Seq<char> {
    path.subrange(last_index_of(path, '/') + 1, path.len() as int)
}

/// The file name of `path`: its last component once trailing separators and
/// `.` components are set aside, unless that component is empty, `.` or `..`.
pub open spec fn file_name(path: Seq<char>) -> Option<Seq<char>> {
    let name = last_component(trim_trailing(path));
    if name.len() == 0 || name == seq!['.'] || name == seq!['.', '.'] {
        None
    } else {
        Some(name)
    }
}

/// The name under which a file is reported: its file name, or the default
/// name where it has none.
pub open spec fn display_name(path: Seq<char>) -> Seq<char> {
    match file_name(path) {
        Some(name) => name,
        None => default_name(),
    }
}

/// `name` without its extension: what stands before its last dot, or all of
/// `name` if it has no dot or only a leading one.
pub open spec fn file_stem(name: Seq<char>) -> Seq<char> {
    let dot = last_index_of(name, '.');
    if dot <= 0 {
        name
    } else {
        name.subrange(0, dot)
    }
}

/// The name of the WebP file written for the input at `path`.
pub open spec fn output_name(path: Seq<char>) -> Seq<char> {
    file_stem(display_name(path)) + webp_suffix()
}

/// `name` placed in the directory `dir`.
pub open spec fn join(dir: Seq<char>, name: Seq<char>) -> Seq<char> {
    if dir.len() == 0 || dir.last() == '/' {
        dir + name
    } else {
        dir + seq!['/'] + name
    }
}

/// The path of the WebP file written into `dir` for the input at `path`.
pub open spec fn output_path(dir: Seq<char>, path: Seq<char>) -> Seq<char> {
    join(dir, output_name(path))
}

/// `last_index_of` is the position of an occurrence after which there is no
/// other, and -1 exactly when there is none.
pub proof fn lemma_last_index_of(s: Seq<char>, c: char)
    ensures
        -1 <= last_index_of(s, c) < s.len(),
        last_index_of(s, c) >= 0 ==> s[last_index_of(s, c)] == c,
        forall|i: int| last_index_of(s, c) < i < s.len() ==> s[i] != c,
    decreases s.len(),
{
    if s.len() > 0 && s.last() != c {
        let head = s.drop_last();
        lemma_last_index_of(head, c);
        assert forall|i: int| last_index_of(s, c) < i < s.len() implies s[i] != c by {
            if i < head.len() {
                assert(head[i] == s[i]);
            }
        }
    }
}

/// An occurrence of `c` at `at` with none after it is the last one.
pub proof fn lemma_last_index_of_found(s: Seq<char>, c: char, at: int)
    requires
        -1 <= at < s.len(),
        at >= 0 ==> s[at] == c,
        forall|i: int| at < i < s.len() ==> s[i] != c,
    ensures
        last_index_of(s, c) == at,
    decreases s.len(),
{
    if s.len() > 0 && s.last() != c {
        lemma_last_index_of_found(s.drop_last(), c, at);
    }
}

/// A name that can stand as a component of a path: it is not empty, holds
/// no separator, and is neither `.` nor `..`.
pub open spec fn is_plain_name(name: Seq<char>) -> bool {
    &&& name.len() > 0
    &&& !name.contains('/')
    &&& name != seq!['.']
    &&& name != seq!['.', '.']
}

/// A plain name is the file name of every path that ends in it, whatever
/// directories stand before it.
pub proof fn lemma_file_name_of_plain_name(parent: Seq<char>, name: Seq<char>)
    requires
        parent.len() == 0 || parent.last() == '/',
        is_plain_name(name),
    ensures
        file_name(parent + name) == Some(name),
{
    let path = parent + name;
    assert forall|i: int| parent.len() <= i < path.len() implies path[i] != '/' by {
        assert(path[i] == name[i - parent.len()]);
        assert(name.contains(name[i - parent.len()]));
    }
    assert(path.last() == name.last());
    if name.len() >= 2 {
        assert(path[path.len() - 2] == name[name.len() - 2]);
    } else {
        assert(name =~= seq![name[0]]);
    }
    lemma_trim_stops(path);
    lemma_last_index_of_found(path, '/', parent.len() - 1);
    assert(last_component(path) == name);
}

/// Trailing separators and trailing `.` components have no part in the file
/// name.
pub proof fn lemma_trailing_ignored(path: Seq<char>)
    ensures
        file_name(path.push('/')) == file_name(path),
        file_name(path.push('/').push('.')) == file_name(path),
{
    let slashed = path.push('/');
    assert(slashed.drop_last() == path);
    assert(trim_trailing(slashed) == trim_trailing(path));
    let dotted = slashed.push('.');
    assert(dotted.drop_last() == slashed);
    assert(dotted[dotted.len() - 2] == '/');
    assert(trim_trailing(dotted) == trim_trailing(slashed));
}

/// The extension is replaced, whatever it is: a file name made of a stem, a
/// dot and an extension gives the stem followed by `.webp`. The stem may hold
/// dots of its own; neither the directory before the name nor the letters of
/// the extension, in either case, have any part in the result.
pub proof fn lemma_extension_replaced(parent: Seq<char>, stem: Seq<char>, extension: Seq<char>)
    requires
        parent.len() == 0 || parent.last() == '/',
        stem.len() > 0,
        !stem.contains('/'),
        !extension.contains('/'),
        !extension.contains('.'),
        stem + seq!['.'] + extension != seq!['.', '.'],
    ensures
        file_name(parent + stem + seq!['.'] + extension) == Some(stem + seq!['.'] + extension),
        output_name(parent + stem + seq!['.'] + extension) == stem + webp_suffix(),
{
    let name = stem + seq!['.'] + extension;
    assert(parent + stem + seq!['.'] + extension == parent + name);
    assert forall|i: int| 0 <= i < name.len() implies name[i] != '/' by {
        if i < stem.len() {
            assert(stem.contains(name[i]));
        } else if i > stem.len() {
            assert(extension[i - stem.len() - 1] == name[i]);
            assert(extension.contains(name[i]));
        }
    }
    lemma_file_name_of_plain_name(parent, name);
    assert(name[stem.len() as int] == '.');
    assert forall|i: int| stem.len() < i < name.len() implies name[i] != '.' by {
        assert(extension[i - stem.len() - 1] == name[i]);
        assert(extension.contains(name[i]));
    }
    lemma_last_index_of_found(name, '.', stem.len() as int);
    assert(name.subrange(0, stem.len() as int) == stem);
}

/// The output name is a plain file name: it is not empty, holds no separator
/// and ends in `.webp`, so the output file lies directly in the output
/// directory.
pub proof fn lemma_output_name_is_plain(path: Seq<char>)
    ensures
        output_name(path).len() > webp_suffix().len(),
        !output_name(path).contains('/'),
        output_name(path).subrange(
            output_name(path).len() - webp_suffix().len(),
            output_name(path).len() as int,
        ) == webp_suffix(),
{
    let shown = display_name(path);
    let stem = file_stem(shown);
    assert(shown.len() > 0 && !shown.contains('/')) by {
        match file_name(path) {
            Some(name) => {
                let trimmed = trim_trailing(path);
                lemma_last_index_of(trimmed, '/');
                assert forall|i: int| 0 <= i < name.len() implies name[i] != '/' by {
                    assert(name[i] == trimmed[last_index_of(trimmed, '/') + 1 + i]);
                }
            },
            None => {},
        }
    }
    lemma_last_index_of(shown, '.');
    assert(stem.len() > 0);
    assert forall|i: int| 0 <= i < stem.len() implies stem[i] != '/' by {
        assert(stem[i] == shown[i]);
        assert(shown.contains(shown[i]));
    }
    let out = output_name(path);
    assert forall|i: int| 0 <= i < out.len() implies out[i] != '/' by {
        if i >= stem.len() {
            assert(out[i] == webp_suffix()[i - stem.len()]);
        }
    }
    assert(out.subrange(out.len() - webp_suffix().len(), out.len() as int) == webp_suffix());
}

/// The output file lies directly in the output directory, under the output
/// name: that name is the file name of the output path.
pub proof fn lemma_output_lies_in_directory(dir: Seq<char>, path: Seq<char>)
    ensures
        is_plain_name(output_name(path)),
        file_name(output_path(dir, path)) == Some(output_name(path)),
{
    let name = output_name(path);
    lemma_output_name_is_plain(path);
    if dir.len() == 0 || dir.last() == '/' {
        lemma_file_name_of_plain_name(dir, name);
    } else {
        lemma_file_name_of_plain_name(dir + seq!['/'], name);
    }
}

/// A component that is not `.` and is not followed by a separator is what
/// trimming leaves in place.
proof fn lemma_trim_stops(path: Seq<char>)
    requires
        path.len() == 0 || (path.last() != '/' && !(path.len() >= 2 && path.last() == '.'
            && path[path.len() - 2] == '/')),
    ensures
        trim_trailing(path) == path,
{
}

/// Position in `path` where its trimmed form ends.
fn trimmed_len(path: &str) -> (end: usize)
    ensures
        end <= path@.len(),
        trim_trailing(path@) == path@.subrange(0, end as int),
{
    let mut end: usize = path.unicode_len();
    assert(path@.subrange(0, end as int) == path@);
    loop
        invariant
            end <= path@.len(),
            trim_trailing(path@) == trim_trailing(path@.subrange(0, end as int)),
        ensures
            trim_trailing(path@) == path@.subrange(0, end as int),
        decreases end,
    {
        let ghost head = path@.subrange(0, end as int);
        if end == 0 {
            break ;
        }
        let last = path.get_char(end - 1);
        let trailing_dot = last == '.' && end >= 2 && path.get_char(end - 2) == '/';
        if last != '/' && !trailing_dot {
            proof {
                lemma_trim_stops(head);
            }
            break ;
        }
        proof {
            assert(head.drop_last() == path@.subrange(0, end - 1));
        }
        end = end - 1;
    }
    end
}

/// Position in `path`, before `end`, where the component that ends at `end`
/// begins.
fn component_start(path: &str, end: usize) -> (start: usize)
    requires
        end <= path@.len(),
    ensures
        start <= end,
        start == last_index_of(path@.subrange(0, end as int), '/') + 1,
{
    let ghost head = path@.subrange(0, end as int);
    let mut start: usize = end;
    while start > 0 && path.get_char(start - 1) != '/'
        invariant
            start <= end <= path@.len(),
            head == path@.subrange(0, end as int),
            forall|i: int| start <= i < end ==> head[i] != '/',
        decreases start,
    {
        start = start - 1;
    }
    proof {
        lemma_last_index_of_found(head, '/', start - 1);
    }
    start
}

/// The file name of `path`, if it has one.
pub fn file_name_of(path: &str) -> (name: Option<String>)
    ensures
        match name {
            Some(n) => file_name(path@) == Some(n@),
            None => file_name(path@) is None,
        },
{
    let end = trimmed_len(path);
    let start = component_start(path, end);
    let ghost trimmed = path@.subrange(0, end as int);
    let ghost name = last_component(trimmed);
    assert(name == path@.subrange(start as int, end as int));
    let len = end - start;
    if len == 0 {
        return None;
    }
    let first = path.get_char(start);
    assert(first == name[0]);
    if len == 1 && first == '.' {
        assert(name == seq!['.']);
        return None;
    }
    if len == 2 && first == '.' && path.get_char(start + 1) == '.' {
        assert(name[1] == '.');
        assert(name == seq!['.', '.']);
        return None;
    }
    proof {
        if name == seq!['.'] {
            assert(name.len() == 1 && name[0] == '.');
        }
        if name == seq!['.', '.'] {
            assert(name.len() == 2 && name[0] == '.' && name[1] == '.');
        }
    }
    Some(String::from_str(path.substring_char(start, end)))
}

/// Whether `path` has a file name of its own, so that no default stands in
/// for it.
pub fn has_file_name(path: &str) -> (named: bool)
    ensures
        named == file_name(path@).is_some(),
{
    file_name_of(path).is_some()
}

/// The name under which the file at `path` is reported: its file name, or
/// `default` where it has none.
pub fn display_name_of(path: &str) -> (name: String)
    ensures
        name@ == display_name(path@),
{
    match file_name_of(path) {
        Some(name) => name,
        None => {
            proof {
                reveal_strlit("default");
            }
            assert("default"@ == default_name());
            String::from_str("default")
        },
    }
}

/// `name` without its extension.
pub fn file_stem_of(name: &str) -> (stem: String)
    ensures
        stem@ == file_stem(name@),
{
    let len = name.unicode_len();
    let mut dot: usize = len;
    while dot > 0 && name.get_char(dot - 1) != '.'
        invariant
            dot <= len == name@.len(),
            forall|i: int| dot <= i < len ==> name@[i] != '.',
        decreases dot,
    {
        dot = dot - 1;
    }
    proof {
        lemma_last_index_of_found(name@, '.', dot - 1);
    }
    if dot <= 1 {
        String::from_str(name)
    } else {
        String::from_str(name.substring_char(0, dot - 1))
    }
}

/// The name of the WebP file written for the input at `path`: the stem of its
/// file name, or of `default` where it has none, followed by `.webp`. Never
/// fails.
pub fn derive_output_name(path: &str) -> (name: String)
    ensures
        name@ == output_name(path@),
{
    let shown = display_name_of(path);
    let mut name = file_stem_of(shown.as_str());
    proof {
        reveal_strlit(".webp");
    }
    assert(".webp"@ == webp_suffix());
    name.append(".webp");
    name
}

/// `name` placed in the directory `dir`: a separator is put between the two
/// unless `dir` is empty or already ends in one.
pub fn join_path(dir: &str, name: &str) -> (path: String)
    ensures
        path@ == join(dir@, name@),
{
    let mut path = String::from_str(dir);
    let len = dir.unicode_len();
    if len > 0 && dir.get_char(len - 1) != '/' {
        proof {
            reveal_strlit("/");
        }
        assert("/"@ == seq!['/']);
        path.append("/");
    }
    path.append(name);
    path
}

/// The path of the WebP file written into `output_dir` for the input at
/// `input_path`.
pub fn output_path_for(output_dir: &str, input_path: &str) -> (path: String)
    ensures
        path@ == output_path(output_dir@, input_path@),
{
    let name = derive_output_name(input_path);
    join_path(output_dir, name.as_str())
}

} // verus!

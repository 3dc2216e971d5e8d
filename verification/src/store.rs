//! The page store: a flat directory with one file for each program. This
//! module holds its naming rules and what follows from the state in which
//! the directory is found.

use vstd::prelude::*;
use vstd::string::StringExecFns;
use crate::error::{ErrorModel, ShortcutError, PAGES_BASE_DIR};
use crate::render::{render, rendered_page};
use crate::text::{ascii_lower, collect, decode, to_ascii_lower};

verus! {

/// The extension of a page file.
pub const PAGES_FILE_EXT: &'static str = "md";

/// Whether the page directory can be used: it has to exist, to be a
/// directory, and to hold at least one entry.
pub open spec fn store_verdict(present: bool, is_dir: bool, has_entries: bool) -> Result<
    (),
    ErrorModel,
> {
    if !present || !is_dir {
        Err(ErrorModel::StoreMissing)
    } else if !has_entries {
        Err(ErrorModel::StoreEmpty)
    } else {
        Ok(())
    }
}

/// Judges the state in which the page directory was found.
pub fn store_check(present: bool, is_dir: bool, has_entries: bool) -> (r: Result<
    (),
    ShortcutError,
>)
    ensures
        match store_verdict(present, is_dir, has_entries) {
            Ok(_) => r is Ok,
            Err(error) => r is Err && r->Err_0@ == error,
        },
{
    if !present || !is_dir {
        Err(ShortcutError::StoreMissing)
    } else if !has_entries {
        Err(ShortcutError::StoreEmpty)
    } else {
        Ok(())
    }
}

/// Where the last segment of the first `end` characters of a path starts:
/// behind the last `/` among them, or at 0.
pub open spec fn segment_start(path: Seq<char>, end: int) -> int
    decreases end,
{
    if end <= 0 {
        0
    } else if path[end - 1] == '/' {
        end
    } else {
        segment_start(path, end - 1)
    }
}

/// The final component of the first `end` characters of a path: its last
/// segment that is neither empty nor `.`, unless there is none or it is
/// `..`.
pub open spec fn final_component(path: Seq<char>, end: int) -> Option<Seq<char>>
    decreases end,
{
    if end <= 0 {
        None
    } else if path[end - 1] == '/' {
        final_component(path, end - 1)
    } else {
        let segment = path.subrange(segment_start(path, end), end);
        if segment == seq!['.'] {
            final_component(path, end - 1)
        } else if segment == seq!['.', '.'] {
            None
        } else {
            Some(segment)
        }
    }
}

/// The position of the last `.` among the first `n` characters of a name,
/// or -1.
pub open spec fn last_dot(name: Seq<char>, n: int) -> int
    decreases n,
{
    if n <= 0 {
        -1
    } else if name[n - 1] == '.' {
        n - 1
    } else {
        last_dot(name, n - 1)
    }
}

/// A file name without its extension: what stands before the last `.`,
/// unless that `.` opens the name. The name `..` has no extension.
pub open spec fn file_stem(name: Seq<char>) -> Seq<char> {
    let dot = last_dot(name, name.len() as int);
    if dot <= 0 || name == seq!['.', '.'] {
        name
    } else {
        name.take(dot)
    }
}

/// A text with its ASCII capital letters in lower case.
pub open spec fn lowered(s: Seq<char>) -> Seq<char> {
    Seq::new(s.len(), |k: int| ascii_lower(s[k]))
}

/// The name of the file that holds the page of a program: the final
/// component of the program name in lower case, with its extension replaced
/// by the extension of page files. A program name without a final component
/// stands for no page.
pub open spec fn page_file_name_of(program_name: Seq<char>) -> Option<Seq<char>> {
    match final_component(program_name, program_name.len() as int) {
        Some(component) => Some(file_stem(lowered(component)) + seq!['.'] + PAGES_FILE_EXT@),
        None => None,
    }
}

/// The last segment of a path starts within the path and holds no `/`.
pub proof fn lemma_segment_holds_no_separator(path: Seq<char>, end: int)
    requires
        0 <= end <= path.len(),
    ensures
        0 <= segment_start(path, end) <= end,
        forall|k: int| segment_start(path, end) <= k < end ==> path[k] != '/',
    decreases end,
{
    if end > 0 && path[end - 1] != '/' {
        lemma_segment_holds_no_separator(path, end - 1);
    }
}

/// A final component is a name: it is not empty, holds no `/`, and is
/// neither `.` nor `..`.
pub proof fn lemma_final_component_is_a_name(path: Seq<char>, end: int)
    requires
        end <= path.len(),
    ensures
        final_component(path, end) matches Some(component) ==> {
            &&& component.len() > 0
            &&& !component.contains('/')
            &&& component != seq!['.']
            &&& component != seq!['.', '.']
        },
    decreases end,
{
    if end > 0 {
        lemma_final_component_is_a_name(path, end - 1);
        if path[end - 1] != '/' {
            lemma_segment_holds_no_separator(path, end);
            lemma_segment_holds_no_separator(path, end - 1);
            let start = segment_start(path, end);
            let segment = path.subrange(start, end);
            assert forall|k: int| 0 <= k < segment.len() implies segment[k] != '/' by {
                assert(segment[k] == path[start + k]);
            }
        }
    }
}

/// The stem of a file name is a prefix of the name.
pub proof fn lemma_file_stem_is_prefix(name: Seq<char>)
    ensures
        file_stem(name).is_prefix_of(name),
{
    lemma_last_dot_is_below(name, name.len() as int);
}

proof fn lemma_last_dot_is_below(name: Seq<char>, n: int)
    requires
        0 <= n,
    ensures
        -1 <= last_dot(name, n) < n,
    decreases n,
{
    if n > 0 && name[n - 1] != '.' {
        lemma_last_dot_is_below(name, n - 1);
    }
}

/// The file of a page is an entry of the page directory itself: its name
/// holds no `/`, whatever the program name is. No program name leads out of
/// the directory.
pub proof fn lemma_page_file_is_flat(program_name: Seq<char>)
    ensures
        page_file_name_of(program_name) matches Some(name) ==> !name.contains('/'),
{
    if let Some(component) = final_component(program_name, program_name.len() as int) {
        lemma_final_component_is_a_name(program_name, program_name.len() as int);
        reveal_strlit("md");
        let lower = lowered(component);
        let stem = file_stem(lower);
        let name = stem + seq!['.'] + PAGES_FILE_EXT@;
        lemma_file_stem_is_prefix(lower);
        assert forall|k: int| 0 <= k < name.len() implies name[k] != '/' by {
            if k < stem.len() {
                assert(name[k] == lower[k]);
                assert(component.contains(component[k]));
            }
        }
    }
}

/// Finds the final component of a path, as the positions at which it starts
/// and ends.
fn final_component_range(path: &Vec<char>) -> (r: Option<(usize, usize)>)
    ensures
        match r {
            Some((start, end)) => start < end <= path@.len() && final_component(
                path@,
                path@.len() as int,
            ) == Some(path@.subrange(start as int, end as int)),
            None => final_component(path@, path@.len() as int) is None,
        },
{
    let mut end: usize = path.len();
    while end > 0
        invariant
            end <= path@.len(),
            final_component(path@, path@.len() as int) == final_component(path@, end as int),
        decreases end,
    {
        if path[end - 1] == '/' {
            end -= 1;
        } else {
            let mut start: usize = end - 1;
            while start > 0 && path[start - 1] != '/'
                invariant
                    start < end <= path@.len(),
                    segment_start(path@, end as int) == segment_start(path@, start as int),
                decreases start,
            {
                start -= 1;
            }
            let ghost segment = path@.subrange(start as int, end as int);
            if end - start == 1 && path[start] == '.' {
                assert(segment =~= seq!['.']);
                end -= 1;
            } else if end - start == 2 && path[start] == '.' && path[start + 1] == '.' {
                assert(segment =~= seq!['.', '.']);
                return None;
            } else {
                assert(segment != seq!['.']) by {
                    if segment.len() == 1 {
                        assert(segment[0] != '.');
                    }
                }
                assert(segment != seq!['.', '.']) by {
                    if segment.len() == 2 {
                        assert(segment[0] != '.' || segment[1] != '.');
                    }
                }
                return Some((start, end));
            }
        }
    }
    None
}

/// Finds the length of the stem of a file name.
fn stem_len(name: &Vec<char>) -> (len: usize)
    ensures
        len <= name@.len(),
        name@.take(len as int) == file_stem(name@),
{
    let n = name.len();
    let mut k: usize = n;
    while k > 0 && name[k - 1] != '.'
        invariant
            k <= n == name@.len(),
            last_dot(name@, n as int) == last_dot(name@, k as int),
        decreases k,
    {
        k -= 1;
    }
    if k <= 1 || (n == 2 && name[0] == '.' && name[1] == '.') {
        proof {
            if n == 2 && name@[0] == '.' && name@[1] == '.' {
                assert(name@ =~= seq!['.', '.']);
            }
            assert(name@.take(n as int) =~= name@);
        }
        n
    } else {
        assert(name@ != seq!['.', '.']) by {
            if name@.len() == 2 {
                assert(name@[0] != '.' || name@[1] != '.');
            }
        }
        k - 1
    }
}

/// The name of the file that holds the page of a program, or the error for
/// a program name that has no final component.
pub fn page_file_name(program_name: &str) -> (r: Result<String, ShortcutError>)
    ensures
        match page_file_name_of(program_name@) {
            Some(name) => r is Ok && r->Ok_0@ == name,
            None => r is Err && r->Err_0@ == ErrorModel::InvalidName(program_name@),
        },
{
    let path = decode(program_name);
    match final_component_range(&path) {
        Some((start, end)) => {
            let mut name: Vec<char> = Vec::new();
            let mut k: usize = start;
            while k < end
                invariant
                    start <= k <= end <= path@.len(),
                    name@ == lowered(path@.subrange(start as int, k as int)),
                decreases end - k,
            {
                name.push(to_ascii_lower(path[k]));
                assert(name@ =~= lowered(path@.subrange(start as int, k + 1)));
                k += 1;
            }
            let mut file_name = collect(&name, 0, stem_len(&name));
            file_name.push('.');
            file_name.append(PAGES_FILE_EXT);
            Ok(file_name)
        },
        None => Err(ShortcutError::InvalidName(program_name.to_owned())),
    }
}

/// The path of the file that holds the page of a program.
pub fn page_path(program_name: &str) -> (r: Result<String, ShortcutError>)
    ensures
        match page_file_name_of(program_name@) {
            Some(name) => r is Ok && r->Ok_0@ == PAGES_BASE_DIR@ + name,
            None => r is Err && r->Err_0@ == ErrorModel::InvalidName(program_name@),
        },
{
    match page_file_name(program_name) {
        Ok(name) => {
            let mut path = String::from_str(PAGES_BASE_DIR);
            path.append(name.as_str());
            Ok(path)
        },
        Err(error) => Err(error),
    }
}

/// The name under which a page file is listed: the file name without its
/// extension.
pub fn listed_name(file_name: &str) -> (name: String)
    ensures
        name@ == file_stem(file_name@),
{
    let chars = decode(file_name);
    let len = stem_len(&chars);
    let name = collect(&chars, 0, len);
    assert(chars@.subrange(0, len as int) =~= chars@.take(len as int));
    name
}

/// The names under which the files of the page directory are listed, in the
/// order of the files.
pub open spec fn listed_names_of(file_names: Seq<Seq<char>>) -> Seq<Seq<char>> {
    Seq::new(file_names.len(), |k: int| file_stem(file_names[k]))
}

/// The listing of the page directory: the names of its pages, or the error
/// that says why there is none.
pub fn list_shortcuts(present: bool, is_dir: bool, file_names: &Vec<String>) -> (r: Result<
    Vec<String>,
    ShortcutError,
>)
    ensures
        match store_verdict(present, is_dir, file_names@.len() > 0) {
            Ok(_) => r is Ok && r->Ok_0.deep_view() == listed_names_of(file_names.deep_view()),
            Err(error) => r is Err && r->Err_0@ == error,
        },
{
    match store_check(present, is_dir, file_names.len() > 0) {
        Ok(_) => {
            let mut names: Vec<String> = Vec::new();
            let mut k: usize = 0;
            while k < file_names.len()
                invariant
                    k <= file_names.len(),
                    names.deep_view() == listed_names_of(file_names.deep_view().take(k as int)),
                decreases file_names.len() - k,
            {
                let name = listed_name(file_names[k].as_str());
                let ghost before = names.deep_view();
                names.push(name);
                proof {
                    let files = file_names.deep_view();
                    assert(files.take(k + 1)[k as int] == file_names[k as int]@);
                    assert(names.deep_view() =~= before.push(name@));
                    assert(names.deep_view() =~= listed_names_of(files.take(k + 1)));
                }
                k += 1;
            }
            assert(file_names.deep_view().take(file_names.len() as int)
                =~= file_names.deep_view());
            Ok(names)
        },
        Err(error) => Err(error),
    }
}

/// What the request for a page gives: the rendered page where its file
/// could be read, else the error that names the program.
pub fn get_shortcut_page(program_name: &str, page: Option<Vec<String>>, colour: bool) -> (r:
    Result<String, ShortcutError>)
    ensures
        match page {
            Some(lines) => r is Ok && r->Ok_0@ == rendered_page(lines.deep_view(), colour),
            None => r is Err && r->Err_0@ == ErrorModel::PageNotFound(program_name@),
        },
{
    match page {
        Some(lines) => Ok(render(&lines, colour)),
        None => Err(ShortcutError::PageNotFound(program_name.to_owned())),
    }
}

} // verus!

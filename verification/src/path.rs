//! Where the configuration file lies when no flag says so: beside the
//! executable.
use vstd::prelude::*;

verus! {

/// Whether `at` is the last place at which `c` stands in `s`.
pub open spec fn is_last(s: Seq<char>, c: char, at: int) -> bool {
    &&& 0 <= at < s.len()
    &&& s[at] == c
    &&& forall|j: int| at < j < s.len() ==> s[j] != c
}

/// Whether `at` is the first place at which `c` stands in `s`.
pub open spec fn is_first(s: Seq<char>, c: char, at: int) -> bool {
    &&& 0 <= at < s.len()
    &&& s[at] == c
    &&& forall|j: int| 0 <= j < at ==> s[j] != c
}

/// The last place at which `c` stands in `s`, if it stands in it at all.
pub open spec fn last_position(s: Seq<char>, c: char) -> Option<int> {
    if exists|at: int| is_last(s, c, at) {
        Some(choose|at: int| is_last(s, c, at))
    } else {
        None
    }
}

/// The first place at which `c` stands in `s`, if it stands in it at all.
pub open spec fn first_position(s: Seq<char>, c: char) -> Option<int> {
    if exists|at: int| is_first(s, c, at) {
        Some(choose|at: int| is_first(s, c, at))
    } else {
        None
    }
}

/// What stands in `s` before the first `c`: all of `s` where there is none.
pub open spec fn before_first(s: Seq<char>, c: char) -> Seq<char> {
    match first_position(s, c) {
        Some(at) => s.subrange(0, at),
        None => s,
    }
}

/// What stands in `s` after the first `c`: nothing where there is none.
pub open spec fn after_first(s: Seq<char>, c: char) -> Seq<char> {
    match first_position(s, c) {
        Some(at) => s.subrange(at + 1, s.len() as int),
        None => Seq::empty(),
    }
}

/// The directory of a path: what stands before its last slash, and the root,
/// `/`, where that slash is the first character.
pub open spec fn directory_of(path: Seq<char>) -> Seq<char> {
    match last_position(path, '/') {
        Some(at) => if at == 0 {
            "/"@
        } else {
            path.subrange(0, at)
        },
        None => path,
    }
}

/// The place of a file beside the executable: the directory, and the file's
/// name in two parts.
#[derive(Debug, PartialEq, Eq)]
pub struct SiblingFile {
    /// The directory that holds the executable; `/` for the root.
    pub dir: String,
    /// The file's name up to its first dot.
    pub stem: String,
    /// What follows that dot, up to the next one.
    pub extension: String,
}

/// The path of the executable names no directory.
#[derive(Debug, PartialEq, Eq)]
pub struct NoDirectory;

fn find_last(text: &str, c: char) -> (found: Option<usize>)
    ensures
        match found {
            Some(at) => last_position(text@, c) == Some(at as int) && is_last(text@, c, at as int),
            None => last_position(text@, c) is None,
        },
{
    let mut found: Option<usize> = None;
    let mut i: usize = 0;
    let len = text.unicode_len();
    for ch in it: text.chars()
        invariant
            i == it.index(),
            it.seq() == text@,
            len == text@.len(),
            match found {
                Some(at) => at < i && text@[at as int] == c && forall|j: int|
                    at < j < i ==> text@[j] != c,
                None => forall|j: int| 0 <= j < i ==> text@[j] != c,
            },
    {
        if ch == c {
            found = Some(i);
        }
        i = i + 1;
    }
    proof {
        match found {
            Some(at) => {
                assert(is_last(text@, c, at as int));
            },
            None => {
                assert forall|at: int| !is_last(text@, c, at) by {}
            },
        }
    }
    found
}

fn find_first(text: &str, c: char) -> (found: Option<usize>)
    ensures
        match found {
            Some(at) => first_position(text@, c) == Some(at as int) && is_first(
                text@,
                c,
                at as int,
            ),
            None => first_position(text@, c) is None,
        },
{
    let mut found: Option<usize> = None;
    let mut i: usize = 0;
    let len = text.unicode_len();
    for ch in it: text.chars()
        invariant
            i == it.index(),
            it.seq() == text@,
            len == text@.len(),
            match found {
                Some(at) => is_first(text@, c, at as int),
                None => forall|j: int| 0 <= j < i ==> text@[j] != c,
            },
    {
        if found.is_none() && ch == c {
            found = Some(i);
        }
        i = i + 1;
    }
    proof {
        if found is None {
            assert forall|at: int| !is_first(text@, c, at) by {}
        }
    }
    found
}

/// Cuts `text` at the first `c`: what stands before it, and what stands after.
fn cut_at_first(text: &str, c: char) -> (parts: (String, String))
    ensures
        parts.0@ == before_first(text@, c),
        parts.1@ == after_first(text@, c),
{
    let len = text.unicode_len();
    match find_first(text, c) {
        Some(at) => (
            text.substring_char(0, at).to_owned(),
            text.substring_char(at + 1, len).to_owned(),
        ),
        None => (text.to_owned(), String::new()),
    }
}

/// Places the file named `file_name` beside the executable at `exe`: in the
/// directory that `exe` names before its last slash (the root for an
/// executable directly under it), under the name's first part, with its second
/// part as the extension. Fails where `exe` has no slash.
pub fn bin_dir_file(exe: &str, file_name: &str) -> (place: Result<SiblingFile, NoDirectory>)
    requires
        exe@.contains('/') ==> file_name@.contains('.'),
    ensures
        match place {
            Ok(file) => {
                &&& exe@.contains('/')
                &&& file.dir@ == directory_of(exe@)
                &&& file.stem@ == before_first(file_name@, '.')
                &&& file.extension@ == before_first(after_first(file_name@, '.'), '.')
            },
            Err(_) => !exe@.contains('/'),
        },
{
    match find_last(exe, '/') {
        Some(at) => {
            let dir = if at == 0 {
                String::from_str("/")
            } else {
                exe.substring_char(0, at).to_owned()
            };
            let (stem, rest) = cut_at_first(file_name, '.');
            let (extension, _) = cut_at_first(rest.as_str(), '.');
            Ok(SiblingFile { dir, stem, extension })
        },
        None => {
            assert forall|i: int| 0 <= i < exe@.len() implies exe@[i] != '/' by {
                if exe@[i] == '/' {
                    lemma_has_last(exe@, '/', i);
                }
            }
            Err(NoDirectory)
        },
    }
}

/// Where `c` stands in `s`, it stands somewhere for the last time.
proof fn lemma_has_last(s: Seq<char>, c: char, at: int)
    requires
        0 <= at < s.len(),
        s[at] == c,
    ensures
        exists|last: int| is_last(s, c, last),
    decreases s.len() - at,
{
    if forall|j: int| at < j < s.len() ==> s[j] != c {
        assert(is_last(s, c, at));
    } else {
        let next = choose|j: int| at < j < s.len() && s[j] == c;
        lemma_has_last(s, c, next);
    }
}

} // verus!

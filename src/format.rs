//! Choosing the encoding of an annotation file from its name.

use vstd::prelude::*;
use crate::text::{chars_of, matches_at, push_range};

verus! {

/// The two encodings of a project file.
#[derive(Debug, Clone, Copy, PartialEq, Eq, Structural)]
pub enum FileFormat {
    Json,
    Yaml,
}

/// Why a file name was not accepted.
#[derive(Debug, Clone, Copy, PartialEq, Eq, Structural)]
pub enum FormatError {
    /// The extension is neither `json` nor `yaml`/`yml`, or there is none.
    UnsupportedExtension,
}

/// Index of the last `c` in `s`, or -1 when there is none.
pub open spec fn last_index_of(s: Seq<char>, c: char) -> int
    decreases s.len(),
{
    if s.len() == 0 {
        -1
    } else if s.last() == c {
        s.len() - 1
    } else {
        last_index_of(s.drop_last(), c)
    }
}

/// The final component of a `/`-separated path.
pub open spec fn file_name(path: Seq<char>) -> Seq<char> {
    path.skip(last_index_of(path, '/') + 1)
}

/// The text after the last `.` of the file name, unless that `.` opens the name.
pub open spec fn extension_of(path: Seq<char>) -> Option<Seq<char>> {
    let name = file_name(path);
    let d = last_index_of(name, '.');
    if d > 0 {
        Some(name.skip(d + 1))
    } else {
        None
    }
}

/// The encoding a path names by its extension, if any.
pub open spec fn format_of(path: Seq<char>) -> Option<FileFormat> {
    match extension_of(path) {
        Some(x) => if x == seq!['j', 's', 'o', 'n'] {
            Some(FileFormat::Json)
        } else if x == seq!['y', 'a', 'm', 'l'] || x == seq!['y', 'm', 'l'] {
            Some(FileFormat::Yaml)
        } else {
            None
        },
        None => None,
    }
}

proof fn lemma_last_index_of(s: Seq<char>, c: char, k: int)
    requires
        -1 <= k < s.len(),
        k >= 0 ==> s[k] == c,
        forall|t: int| k < t < s.len() ==> s[t] != c,
    ensures
        last_index_of(s, c) == k,
    decreases s.len(),
{
    if s.len() > 0 && s.last() != c {
        assert forall|t: int| k < t < s.drop_last().len() implies s.drop_last()[t] != c by {
            assert(s.drop_last()[t] == s[t]);
        }
        if k >= 0 {
            assert(s.drop_last()[k] == s[k]);
        }
        lemma_last_index_of(s.drop_last(), c, k);
    } else if s.len() > 0 {
        assert(k == s.len() - 1);
    }
}

/// Index of the last `c` in `s[from..]`, or `None`.
fn find_last(s: &Vec<char>, from: usize, c: char) -> (r: Option<usize>)
    requires
        from <= s@.len(),
    ensures
        r is None ==> last_index_of(s@.skip(from as int), c) == -1,
        r matches Some(i) ==> from <= i < s@.len() && i - from == last_index_of(
            s@.skip(from as int),
            c,
        ),
{
    let ghost tail = s@.skip(from as int);
    let mut i = s.len();
    while i > from
        invariant
            from <= i <= s@.len(),
            tail == s@.skip(from as int),
            forall|t: int| i <= t < s@.len() ==> s@[t] != c,
        decreases i,
    {
        if s[i - 1] == c {
            proof {
                assert forall|t: int| i - 1 - from < t < tail.len() implies tail[t] != c by {
                    assert(tail[t] == s@[from + t]);
                }
                lemma_last_index_of(tail, c, i - 1 - from);
            }
            return Some(i - 1);
        }
        i -= 1;
    }
    proof {
        assert forall|t: int| -1 < t < tail.len() implies tail[t] != c by {
            assert(tail[t] == s@[from + t]);
        }
        lemma_last_index_of(tail, c, -1);
    }
    None
}

fn same_chars(a: &Vec<char>, key: &Vec<char>) -> (r: bool)
    ensures
        r == (a@ == key@),
{
    if a.len() != key.len() {
        return false;
    }
    let ok = matches_at(a, 0, key);
    assert(a@.subrange(0, key@.len() as int) =~= a@);
    ok
}

/// The encoding named by the extension of `path`: `json`, or `yaml`/`yml`.
/// Any other extension, or none, is an error.
pub fn format_for_path(path: &str) -> (r: Result<FileFormat, FormatError>)
    ensures
        match format_of(path@) {
            Some(f) => r == Ok::<FileFormat, FormatError>(f),
            None => r == Err::<FileFormat, FormatError>(FormatError::UnsupportedExtension),
        },
{
    let chars = chars_of(path);
    let n = chars.len();
    let start = match find_last(&chars, 0, '/') {
        Some(i) => i + 1,
        None => 0,
    };
    assert(chars@.skip(0) =~= chars@);
    let ghost name = file_name(path@);
    assert(name =~= chars@.skip(start as int));
    let dot = find_last(&chars, start, '.');
    match dot {
        Some(d) => {
            if d == start {
                return Err(FormatError::UnsupportedExtension);
            }
            let mut ext: Vec<char> = Vec::new();
            push_range(&mut ext, &chars, d + 1, n);
            assert(ext@ =~= name.skip(d - start + 1));
            let json: Vec<char> = vec!['j', 's', 'o', 'n'];
            let yaml: Vec<char> = vec!['y', 'a', 'm', 'l'];
            let yml: Vec<char> = vec!['y', 'm', 'l'];
            if same_chars(&ext, &json) {
                Ok(FileFormat::Json)
            } else if same_chars(&ext, &yaml) || same_chars(&ext, &yml) {
                Ok(FileFormat::Yaml)
            } else {
                Err(FormatError::UnsupportedExtension)
            }
        },
        None => Err(FormatError::UnsupportedExtension),
    }
}

} // verus!

//! Reading a layer's environment modifications from the files of its
//! environment directory: one file per variable and operation, named
//! `<variable>.<operation>`, holding the value; a `<variable>.delim` file
//! holds the delimiter of that variable's prepends and appends.
use vstd::prelude::*;
use vstd::string::StrSliceExecFns;

use crate::compose::LayerEnv;
use crate::env::{EnvModification, ModificationView, Operation, Scope};

verus! {

/// One file of an environment directory, its name split at the last `.`.
#[derive(Debug, Clone, PartialEq, Eq)]
pub struct EnvFile {
    pub variable: String,
    pub suffix: String,
    pub content: String,
}

pub struct EnvFileView {
    pub variable: Seq<char>,
    pub suffix: Seq<char>,
    pub content: Seq<char>,
}

impl View for EnvFile {
    type V = EnvFileView;

    open spec fn view(&self) -> EnvFileView {
        EnvFileView { variable: self.variable@, suffix: self.suffix@, content: self.content@ }
    }
}

pub open spec fn files_view(files: Seq<EnvFile>) -> Seq<EnvFileView> {
    files.map_values(|f: EnvFile| f@)
}

/// The position of the last `.` in `s`, or -1 where there is none.
pub open spec fn last_dot(s: Seq<char>) -> int
    decreases s.len(),
{
    if s.len() == 0 {
        -1
    } else if s.last() == '.' {
        s.len() - 1
    } else {
        last_dot(s.drop_last())
    }
}

/// The variable and suffix of a file name: the parts before and after its
/// last `.`; a name without `.` is all variable, with an empty suffix.
pub open spec fn split_name_spec(s: Seq<char>) -> (Seq<char>, Seq<char>) {
    if last_dot(s) < 0 {
        (s, Seq::empty())
    } else {
        (s.subrange(0, last_dot(s)), s.subrange(last_dot(s) + 1, s.len() as int))
    }
}

proof fn lemma_last_dot_bounds(s: Seq<char>)
    ensures
        -1 <= last_dot(s) < s.len(),
        last_dot(s) >= 0 ==> s[last_dot(s)] == '.',
    decreases s.len(),
{
    if s.len() > 0 {
        lemma_last_dot_bounds(s.drop_last());
    }
}

/// Splits the name of a file of an environment directory into variable and
/// suffix.
pub fn split_env_file_name(name: &str) -> (r: (String, String))
    ensures
        (r.0@, r.1@) == split_name_spec(name@),
{
    let n = name.unicode_len();
    let mut dot: Option<usize> = None;
    let mut i: usize = 0;
    while i < n
        invariant
            0 <= i <= n,
            n == name@.len(),
            match dot {
                Some(d) => d < i && last_dot(name@.subrange(0, i as int)) == d,
                None => last_dot(name@.subrange(0, i as int)) == -1,
            },
        decreases n - i,
    {
        assert(name@.subrange(0, i + 1).drop_last() =~= name@.subrange(0, i as int));
        if name.get_char(i) == '.' {
            dot = Some(i);
        }
        i = i + 1;
    }
    assert(name@.subrange(0, n as int) =~= name@);
    proof {
        lemma_last_dot_bounds(name@);
    }
    match dot {
        None => (name.to_owned(), String::new()),
        Some(d) => (name.substring_char(0, d).to_owned(), name.substring_char(d + 1, n).to_owned()),
    }
}

/// What a file of an environment directory declares.
#[derive(Clone, Copy, Debug, PartialEq, Eq, Structural)]
pub enum EnvFileKind {
    Modification(Operation),
    Delimiter,
}

/// A file whose suffix names no known operation.
#[derive(Debug, Clone, PartialEq, Eq)]
pub enum EnvFileError {
    UnknownOperation { variable: String, suffix: String },
}

/// The kind that a suffix names, if any.
pub open spec fn kind_of(suffix: Seq<char>) -> Option<EnvFileKind> {
    if suffix == "override"@ {
        Some(EnvFileKind::Modification(Operation::Override))
    } else if suffix == "prepend"@ {
        Some(EnvFileKind::Modification(Operation::Prepend))
    } else if suffix == "append"@ {
        Some(EnvFileKind::Modification(Operation::Append))
    } else if suffix == "default"@ {
        Some(EnvFileKind::Modification(Operation::Default))
    } else if suffix == "delim"@ {
        Some(EnvFileKind::Delimiter)
    } else {
        None
    }
}

/// The kind of file that `suffix` names; the set of suffixes is closed.
pub fn env_file_kind(suffix: &String) -> (r: Option<EnvFileKind>)
    ensures
        r == kind_of(suffix@),
{
    if *suffix == "override".to_owned() {
        Some(EnvFileKind::Modification(Operation::Override))
    } else if *suffix == "prepend".to_owned() {
        Some(EnvFileKind::Modification(Operation::Prepend))
    } else if *suffix == "append".to_owned() {
        Some(EnvFileKind::Modification(Operation::Append))
    } else if *suffix == "default".to_owned() {
        Some(EnvFileKind::Modification(Operation::Default))
    } else if *suffix == "delim".to_owned() {
        Some(EnvFileKind::Delimiter)
    } else {
        None
    }
}

/// The delimiter that the files declare for `variable`: the content of the
/// last of its delimiter files, if there is one.
pub open spec fn delimiter_in(files: Seq<EnvFileView>, variable: Seq<char>) -> Option<Seq<char>>
    decreases files.len(),
{
    if files.len() == 0 {
        None
    } else if files.last().variable == variable && kind_of(files.last().suffix) == Some(
        EnvFileKind::Delimiter,
    ) {
        Some(files.last().content)
    } else {
        delimiter_in(files.drop_last(), variable)
    }
}

/// The modifications that the first files declare, in file order, each
/// with the delimiter that `all` declares for its variable.
pub open spec fn modifications_in(files: Seq<EnvFileView>, all: Seq<EnvFileView>, scope: Scope) -> Seq<ModificationView>
    decreases files.len(),
{
    if files.len() == 0 {
        Seq::empty()
    } else {
        let prev = modifications_in(files.drop_last(), all, scope);
        let f = files.last();
        match kind_of(f.suffix) {
            Some(EnvFileKind::Modification(op)) => prev.push(
                ModificationView {
                    variable: f.variable,
                    operation: op,
                    delimiter: delimiter_in(all, f.variable),
                    value: f.content,
                    scope,
                },
            ),
            _ => prev,
        }
    }
}

/// Whether every file has a known suffix.
pub open spec fn all_known(files: Seq<EnvFileView>) -> bool {
    forall|i: int| 0 <= i < files.len() ==> (#[trigger] kind_of(files[i].suffix)) is Some
}

/// The delimiter that `files` declare for `variable`.
fn find_delimiter(files: &Vec<EnvFile>, variable: &String) -> (r: Option<String>)
    ensures
        match r {
            Some(d) => delimiter_in(files_view(files@), variable@) == Some(d@),
            None => delimiter_in(files_view(files@), variable@) is None,
        },
{
    let ghost fv = files_view(files@);
    let mut found: Option<String> = None;
    let mut i: usize = 0;
    while i < files.len()
        invariant
            0 <= i <= files.len(),
            fv == files_view(files@),
            match found {
                Some(d) => delimiter_in(fv.subrange(0, i as int), variable@) == Some(d@),
                None => delimiter_in(fv.subrange(0, i as int), variable@) is None,
            },
        decreases files.len() - i,
    {
        let f = &files[i];
        assert(fv.subrange(0, i + 1).drop_last() =~= fv.subrange(0, i as int));
        assert(fv.subrange(0, i + 1).last() == f@);
        if f.variable == *variable {
            match env_file_kind(&f.suffix) {
                Some(EnvFileKind::Delimiter) => {
                    found = Some(f.content.clone());
                },
                _ => {},
            }
        }
        i = i + 1;
    }
    assert(fv.subrange(0, i as int) =~= fv);
    found
}

/// The environment modifications of one layer for `scope`, from the files
/// of its environment directory. A file with an unknown suffix is refused:
/// the first such file is named in the error.
pub fn layer_env_from_files(files: &Vec<EnvFile>, scope: Scope) -> (r: Result<LayerEnv, EnvFileError>)
    ensures
        r is Ok <==> all_known(files_view(files@)),
        match r {
            Ok(l) => l@ == modifications_in(files_view(files@), files_view(files@), scope),
            Err(EnvFileError::UnknownOperation { variable, suffix }) => exists|i: int|
                0 <= i < files@.len() && (#[trigger] files@[i]).variable@ == variable@
                    && files@[i].suffix@ == suffix@ && kind_of(suffix@) is None && all_known(
                    files_view(files@).subrange(0, i),
                ),
        },
{
    let ghost fv = files_view(files@);
    let mut out = LayerEnv::new();
    let mut i: usize = 0;
    while i < files.len()
        invariant
            0 <= i <= files.len(),
            fv == files_view(files@),
            all_known(fv.subrange(0, i as int)),
            out@ == modifications_in(fv.subrange(0, i as int), fv, scope),
        decreases files.len() - i,
    {
        let f = &files[i];
        assert(fv.subrange(0, i + 1).drop_last() =~= fv.subrange(0, i as int));
        assert(fv.subrange(0, i + 1).last() == f@);
        match env_file_kind(&f.suffix) {
            None => {
                proof {
                    assert(fv[i as int] == f@);
                    assert(kind_of(fv[i as int].suffix) is None);
                    assert(files@[i as int].variable@ == f.variable@);
                    assert(files_view(files@).subrange(0, i as int) == fv.subrange(0, i as int));
                }
                return Err(
                    EnvFileError::UnknownOperation {
                        variable: f.variable.clone(),
                        suffix: f.suffix.clone(),
                    },
                );
            },
            Some(EnvFileKind::Delimiter) => {},
            Some(EnvFileKind::Modification(op)) => {
                let delimiter = find_delimiter(files, &f.variable);
                out.push(
                    EnvModification {
                        variable: f.variable.clone(),
                        operation: op,
                        delimiter,
                        value: f.content.clone(),
                        scope,
                    },
                );
            },
        }
        assert forall|j: int| 0 <= j < i + 1 implies (#[trigger] kind_of(fv.subrange(0, i + 1)[j].suffix)) is Some by {
            if j < i {
                assert(fv.subrange(0, i + 1)[j] == fv.subrange(0, i as int)[j]);
            }
        }
        i = i + 1;
    }
    assert(fv.subrange(0, i as int) =~= fv);
    Ok(out)
}

} // verus!

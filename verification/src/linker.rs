//! Choosing the file an import names among the files found under the linker
//! paths.
use vstd::prelude::*;
use vstd::string::StrSliceExecFns;

verus! {

/// Whether `s` ends with `suffix`.
pub open spec fn ends_with(s: Seq<char>, suffix: Seq<char>) -> bool {
    suffix.len() <= s.len() && s.subrange(s.len() - suffix.len(), s.len() as int) == suffix
}

/// The outcome of choosing an import's file.
#[derive(Debug)]
pub enum ImportChoice {
    Found(String),
    /// More than one file fits the import.
    Ambiguous,
    /// No file fits the import.
    NotFound,
}

pub enum ImportChoiceV {
    Found(Seq<char>),
    Ambiguous,
    NotFound,
}

impl View for ImportChoice {
    type V = ImportChoiceV;

    open spec fn view(&self) -> ImportChoiceV {
        match self {
            ImportChoice::Found(s) => ImportChoiceV::Found(s@),
            ImportChoice::Ambiguous => ImportChoiceV::Ambiguous,
            ImportChoice::NotFound => ImportChoiceV::NotFound,
        }
    }
}

/// The choice after looking at `paths[i..]` with `acc` chosen so far (empty
/// for none): a path that ends with the import is taken when nothing is
/// chosen yet, and makes the import ambiguous otherwise.
pub open spec fn choose_from(import: Seq<char>, acc: Seq<char>, paths: Seq<Seq<char>>, i: int) -> ImportChoiceV
    decreases paths.len() - i,
{
    if i < 0 || i >= paths.len() {
        if acc.len() == 0 { ImportChoiceV::NotFound } else { ImportChoiceV::Found(acc) }
    } else if ends_with(paths[i], import) {
        if acc.len() == 0 {
            choose_from(import, paths[i], paths, i + 1)
        } else {
            ImportChoiceV::Ambiguous
        }
    } else {
        choose_from(import, acc, paths, i + 1)
    }
}

/// The file an import names: the import itself when it is an existing path
/// (`direct`), else the one path under the linker paths that ends with it.
pub open spec fn choose_import_v(import: Seq<char>, direct: bool, paths: Seq<Seq<char>>) -> ImportChoiceV {
    choose_from(import, if direct { import } else { Seq::empty() }, paths, 0)
}

/// Whether `s` ends with `suffix`, as `ends_with` says.
pub fn str_ends_with(s: &str, suffix: &str) -> (r: bool)
    ensures
        r == ends_with(s@, suffix@),
{
    let n = s.unicode_len();
    let m = suffix.unicode_len();
    if m > n {
        return false;
    }
    let off = n - m;
    let mut i: usize = 0;
    while i < m
        invariant
            i <= m,
            m == suffix@.len(),
            n == s@.len(),
            off + m == n,
            forall|j: int| 0 <= j < i ==> s@[off + j] == suffix@[j],
        decreases m - i,
    {
        if s.get_char(off + i) != suffix.get_char(i) {
            assert(s@.subrange(off as int, n as int)[i as int] != suffix@[i as int]);
            return false;
        }
        i = i + 1;
    }
    assert(s@.subrange(off as int, n as int) =~= suffix@);
    true
}

/// Chooses the file an import names, as `choose_import_v` says.
pub fn choose_import(import: &String, direct: bool, paths: &Vec<String>) -> (r: ImportChoice)
    ensures
        r@ == choose_import_v(import@, direct, paths@.map_values(|p: String| p@)),
{
    let ghost ps = paths@.map_values(|p: String| p@);
    let mut acc: String = if direct { import.clone() } else { String::new() };
    let mut i: usize = 0;
    while i < paths.len()
        invariant
            i <= paths@.len(),
            ps == paths@.map_values(|p: String| p@),
            choose_from(import@, acc@, ps, i as int) == choose_import_v(import@, direct, ps),
        decreases paths@.len() - i,
    {
        if str_ends_with(paths[i].as_str(), import.as_str()) {
            if acc.as_str().unicode_len() == 0 {
                acc = paths[i].clone();
            } else {
                return ImportChoice::Ambiguous;
            }
        }
        i = i + 1;
    }
    if acc.as_str().unicode_len() == 0 {
        ImportChoice::NotFound
    } else {
        ImportChoice::Found(acc)
    }
}

} // verus!

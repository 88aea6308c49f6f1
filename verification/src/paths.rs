//! Joining paths, and where the editor's tree-sitter queries are found.
use vstd::prelude::*;

verus! {

/// `part` adjoined to `base` on a Unix system: an absolute `part` replaces
/// `base`; otherwise a `/` separates the two unless `base` is empty or
/// already ends with one.
pub open spec fn joined_path(base: Seq<char>, part: Seq<char>) -> Seq<char> {
    if part.len() > 0 && part[0] == '/' {
        part
    } else if base.len() == 0 || base.last() == '/' {
        base + part
    } else {
        base + seq!['/'] + part
    }
}

/// `camino::Utf8Path::join`, turned back into a `String`. Camino adjoins as
/// `std::path::PathBuf::push` does; the contract states what that does on
/// Unix, where the library runs.
#[verifier::external_body]
pub(crate) fn join_path(base: &str, part: &str) -> (res: String)
    ensures
        res@ == joined_path(base@, part@),
{
    camino::Utf8Path::new(base).join(part).into_string()
}

/// The directory, below the home directory, where the editor's plugin
/// manager keeps the tree-sitter queries.
pub open spec fn nvim_queries_dir() -> Seq<char> {
    ".local/share/nvim/lazy/nvim-treesitter/queries/"@
}

/// The path of the query file `file` of language `lang`, below `home`.
pub open spec fn nvim_treesitter_path(home: Seq<char>, lang: Seq<char>, file: Seq<char>) -> Seq<
    char,
> {
    joined_path(joined_path(joined_path(home, nvim_queries_dir()), lang), file)
}

/// The file that reading the query file `file` of language `lang` reads:
/// its path below `home`. This function decides the path only; reading the
/// file is I/O, which the caller does with the path it returns.
pub fn read_nvim_treesitter_file(home: &str, lang: &str, file: &str) -> (res: String)
    ensures
        res@ == nvim_treesitter_path(home@, lang@, file@),
{
    let dir = join_path(home, ".local/share/nvim/lazy/nvim-treesitter/queries/");
    let lang_dir = join_path(dir.as_str(), lang);
    join_path(lang_dir.as_str(), file)
}

/// The file that reading the highlights query of `lang` reads: its path below
/// `home`, which the caller then reads.
pub fn read_nvim_treesitter_highlights(home: &str, lang: &str) -> (res: String)
    ensures
        res@ == nvim_treesitter_path(home@, lang@, "highlights.scm"@),
{
    read_nvim_treesitter_file(home, lang, "highlights.scm")
}

/// The file that reading the injections query of `lang` reads: its path below
/// `home`, which the caller then reads.
pub fn read_nvim_treesitter_injections(home: &str, lang: &str) -> (res: String)
    ensures
        res@ == nvim_treesitter_path(home@, lang@, "injections.scm"@),
{
    read_nvim_treesitter_file(home, lang, "injections.scm")
}

/// The file that reading the locals query of `lang` reads: its path below
/// `home`, which the caller then reads.
pub fn read_nvim_treesitter_locals(home: &str, lang: &str) -> (res: String)
    ensures
        res@ == nvim_treesitter_path(home@, lang@, "locals.scm"@),
{
    read_nvim_treesitter_file(home, lang, "locals.scm")
}

} // verus!

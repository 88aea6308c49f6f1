//! Checks of a generated page: that it declares its document type, that no
//! link reference was left unresolved in it, and that the pages, fragments
//! and images it links to exist.
use crate::patterns::chars_at;
use crate::text::{chars_of, same_chars};
use vstd::prelude::*;

verus! {

/// Where a link of a generated page leads.
#[derive(Debug, Clone)]
pub enum LinkTarget {
    /// A page of the site, written to `output_file`; `fragment` is the part
    /// after the `#`, without it.
    Internal { href: String, output_file: String, fragment: Option<String> },
    /// A fragment of the page itself, with its `#`.
    Fragment(String),
    /// Another site.
    External,
}

/// Where an image of a generated page is loaded from.
#[derive(Debug, Clone)]
pub enum ImgTarget {
    /// A file of the site; `exists` tells whether its output file exists.
    Internal { href: String, exists: bool },
    /// Another site.
    External,
}

/// A generated page: its path, its text, and its links, images and
/// fragments, the links and images in the order they are checked.
#[derive(Debug, Clone)]
pub struct GeneratedFile {
    pub path: String,
    pub content: String,
    pub links: Vec<LinkTarget>,
    pub imgs: Vec<ImgTarget>,
    pub fragments: Vec<String>,
}

/// What is wrong with a generated page.
#[derive(Debug, Clone, PartialEq, Eq)]
pub enum GeneratedFileError {
    /// The page does not start with `<!DOCTYPE html>`.
    MissingDocType,
    /// A link reference that was left as text.
    BrokenLink(String),
    /// A link to a page that was not generated, by its href.
    UrlNotFound(String),
    /// An image whose file does not exist, by its href.
    LocalImgNotFound(String),
    /// A link to a fragment the page itself lacks.
    LocalFragmentNotFound(String),
    /// A link to a fragment that the page it leads to, by its path, lacks.
    OtherFragmentNotFound(String, String),
}

/// A `GeneratedFileError` with its texts as character sequences.
pub enum SpecFileError {
    MissingDocType,
    BrokenLink(Seq<char>),
    UrlNotFound(Seq<char>),
    LocalImgNotFound(Seq<char>),
    LocalFragmentNotFound(Seq<char>),
    OtherFragmentNotFound(Seq<char>, Seq<char>),
}

impl View for GeneratedFileError {
    type V = SpecFileError;

    open spec fn view(&self) -> SpecFileError {
        match self {
            GeneratedFileError::MissingDocType => SpecFileError::MissingDocType,
            GeneratedFileError::BrokenLink(s) => SpecFileError::BrokenLink(s@),
            GeneratedFileError::UrlNotFound(s) => SpecFileError::UrlNotFound(s@),
            GeneratedFileError::LocalImgNotFound(s) => SpecFileError::LocalImgNotFound(s@),
            GeneratedFileError::LocalFragmentNotFound(s) => SpecFileError::LocalFragmentNotFound(
                s@,
            ),
            GeneratedFileError::OtherFragmentNotFound(f, p) => SpecFileError::OtherFragmentNotFound(
                f@,
                p@,
            ),
        }
    }
}

pub open spec fn errors_view(errors: Seq<GeneratedFileError>) -> Seq<SpecFileError> {
    errors.map_values(|e: GeneratedFileError| e@)
}

/// The pattern of a link reference left unresolved in a page: `[text][label]`.
pub const BROKEN_LINK: &'static str = r"\[[^[\]]]+]\[[^[\]]]*]";

/// The texts of the successive non-overlapping matches, leftmost first, of
/// the regular expression `pattern` in `haystack`, as the `regex` crate finds
/// them; `None` where the crate does not compile the pattern.
pub uninterp spec fn regex_find_all(pattern: Seq<char>, haystack: Seq<char>) -> Option<
    Seq<Seq<char>>,
>;

/// `regex::Regex::new` on `pattern`, then the text of each match that
/// `Regex::find_iter` yields in `haystack`, in order: `None` where the
/// pattern does not compile. Both are named by `regex_find_all`.
#[verifier::external_body]
fn find_all(pattern: &str, haystack: &str) -> (res: Option<Vec<String>>)
    ensures
        match regex_find_all(pattern@, haystack@) {
            Some(found) => res matches Some(v) && v@.map_values(|s: String| s@) == found,
            None => res is None,
        },
{
    let re = regex::Regex::new(pattern).ok()?;
    let mut res = Vec::new();
    for m in re.find_iter(haystack) {
        res.push(m.as_str().to_string());
    }
    Some(res)
}

/// Whether the page text starts with the document type.
pub open spec fn has_doc_type(content: Seq<char>) -> bool {
    "<!DOCTYPE html>"@.is_prefix_of(content)
}

/// The first page at or after position `from` of `files` whose path is `path`.
pub open spec fn find_file(files: Seq<GeneratedFile>, path: Seq<char>, from: int) -> Option<int>
    decreases files.len() - from,
{
    if from < 0 || from >= files.len() {
        None
    } else if files[from].path@ == path {
        Some(from)
    } else {
        find_file(files, path, from + 1)
    }
}

/// Whether one of `fragments` is `f`.
pub open spec fn has_fragment(fragments: Seq<String>, f: Seq<char>) -> bool {
    exists|k: int| 0 <= k < fragments.len() && #[trigger] fragments[k]@ == f
}

/// The errors of one link of page `file`, the pages of the site being `files`.
pub open spec fn link_error(
    file: GeneratedFile,
    files: Seq<GeneratedFile>,
    link: LinkTarget,
) -> Seq<SpecFileError> {
    match link {
        LinkTarget::Internal { href, output_file, fragment } => match find_file(
            files,
            output_file@,
            0,
        ) {
            None => seq![SpecFileError::UrlNotFound(href@)],
            Some(i) => match fragment {
                Some(f) => if has_fragment(files[i].fragments@, "#"@ + f@) {
                    seq![]
                } else {
                    seq![SpecFileError::OtherFragmentNotFound("#"@ + f@, files[i].path@)]
                },
                None => seq![],
            },
        },
        LinkTarget::Fragment(f) => if has_fragment(file.fragments@, f@) {
            seq![]
        } else {
            seq![SpecFileError::LocalFragmentNotFound(f@)]
        },
        LinkTarget::External => seq![],
    }
}

/// The errors of the links `links` of page `file`, link by link.
pub open spec fn link_errors(
    file: GeneratedFile,
    files: Seq<GeneratedFile>,
    links: Seq<LinkTarget>,
) -> Seq<SpecFileError>
    decreases links.len(),
{
    if links.len() == 0 {
        seq![]
    } else {
        link_errors(file, files, links.drop_last()) + link_error(file, files, links.last())
    }
}

/// The error of one image: an internal one whose file does not exist.
pub open spec fn img_error(img: ImgTarget) -> Seq<SpecFileError> {
    match img {
        ImgTarget::Internal { href, exists } => if exists {
            seq![]
        } else {
            seq![SpecFileError::LocalImgNotFound(href@)]
        },
        ImgTarget::External => seq![],
    }
}

/// The errors of the images `imgs`, image by image.
pub open spec fn img_errors(imgs: Seq<ImgTarget>) -> Seq<SpecFileError>
    decreases imgs.len(),
{
    if imgs.len() == 0 {
        seq![]
    } else {
        img_errors(imgs.drop_last()) + img_error(imgs.last())
    }
}

/// The errors of page `file`, given the pages of the site `files` and the
/// unresolved link references `broken` found in it (none where the pattern
/// could not be used): the missing document type, then each unresolved link
/// reference, then the errors of the links and then of the images.
pub open spec fn file_errors(
    file: GeneratedFile,
    files: Seq<GeneratedFile>,
    broken: Option<Seq<Seq<char>>>,
) -> Seq<SpecFileError> {
    (if has_doc_type(file.content@) {
        seq![]
    } else {
        seq![SpecFileError::MissingDocType]
    }) + match broken {
        Some(b) => b.map_values(|m: Seq<char>| SpecFileError::BrokenLink(m)),
        None => seq![],
    } + link_errors(file, files, file.links@) + img_errors(file.imgs@)
}

/// A copy of `s`.
fn copy_string(s: &String) -> (res: String)
    ensures
        res@ == s@,
{
    s.as_str().to_owned()
}

/// Whether one of `fragments` is `f`.
fn contains_fragment(fragments: &Vec<String>, f: &str) -> (res: bool)
    ensures
        res == has_fragment(fragments@, f@),
{
    let wanted = chars_of(f);
    for k in 0..fragments.len()
        invariant
            wanted@ == f@,
            forall|j: int| 0 <= j < k ==> #[trigger] fragments@[j]@ != f@,
    {
        let have = chars_of(fragments[k].as_str());
        if same_chars(have.as_slice(), wanted.as_slice()) {
            assert(fragments@[k as int]@ == f@);
            return true;
        }
    }
    false
}

/// The first page of `files` whose path is `path`.
fn position_of(files: &[GeneratedFile], path: &str) -> (res: Option<usize>)
    ensures
        match res {
            Some(i) => i < files@.len() && find_file(files@, path@, 0) == Some(i as int),
            None => find_file(files@, path@, 0) is None,
        },
{
    let wanted = chars_of(path);
    let mut i: usize = 0;
    while i < files.len()
        invariant
            wanted@ == path@,
            i <= files@.len(),
            find_file(files@, path@, 0) == find_file(files@, path@, i as int),
        decreases files.len() - i,
    {
        let have = chars_of(files[i].path.as_str());
        if same_chars(have.as_slice(), wanted.as_slice()) {
            return Some(i);
        }
        i = i + 1;
    }
    None
}

/// Checks page `file` of the site whose pages are `files`: it starts with
/// `<!DOCTYPE html>`, holds no unresolved link reference (`BROKEN_LINK`),
/// each internal link leads to a page of `files` that has the fragment the
/// link names, each fragment link to a fragment of the page, and each
/// internal image exists. The errors come in that order, links and images in
/// the order given.
pub fn check_file(file: &GeneratedFile, files: &[GeneratedFile]) -> (res: Vec<GeneratedFileError>)
    ensures
        errors_view(res@) == file_errors(
            *file,
            files@,
            regex_find_all(BROKEN_LINK@, file.content@),
        ),
{
    let mut errors: Vec<GeneratedFileError> = Vec::new();
    let content = chars_of(file.content.as_str());
    let doc_type = chars_of("<!DOCTYPE html>");
    let has_type = chars_at(content.as_slice(), 0, doc_type.as_slice());
    assert(has_type == has_doc_type(file.content@)) by {
        if has_type {
            assert(file.content@.subrange(0, doc_type@.len() as int) == doc_type@);
        } else if has_doc_type(file.content@) {
            assert(file.content@.subrange(0, doc_type@.len() as int) =~= doc_type@);
        }
    }
    if !has_type {
        errors.push(GeneratedFileError::MissingDocType);
    }
    let ghost head = errors_view(errors@);
    match find_all(BROKEN_LINK, file.content.as_str()) {
        Some(found) => {
            for k in 0..found.len()
                invariant
                    errors_view(errors@) == head + found@.take(k as int).map_values(
                        |s: String| SpecFileError::BrokenLink(s@),
                    ),
            {
                let ghost before = errors_view(errors@);
                errors.push(GeneratedFileError::BrokenLink(copy_string(&found[k])));
                assert(errors_view(errors@) =~= before.push(
                    SpecFileError::BrokenLink(found@[k as int]@),
                ));
                assert(found@.take(k + 1) =~= found@.take(k as int).push(found@[k as int]));
                assert(errors_view(errors@) =~= head + found@.take(k + 1).map_values(
                    |s: String| SpecFileError::BrokenLink(s@),
                ));
            }
            assert(found@.take(found@.len() as int) =~= found@);
            assert(found@.map_values(|s: String| SpecFileError::BrokenLink(s@)) =~= found@.map_values(
                |s: String| s@,
            ).map_values(|m: Seq<char>| SpecFileError::BrokenLink(m)));
        },
        None => {},
    }
    let ghost head = errors_view(errors@);
    for k in 0..file.links.len()
        invariant
            errors_view(errors@) == head + link_errors(*file, files@, file.links@.take(k as int)),
    {
        let ghost before = errors_view(errors@);
        assert(file.links@.take(k + 1).drop_last() =~= file.links@.take(k as int));
        match &file.links[k] {
            LinkTarget::Internal { href, output_file, fragment } => {
                match position_of(files, output_file.as_str()) {
                    None => {
                        errors.push(GeneratedFileError::UrlNotFound(copy_string(href)));
                    },
                    Some(i) => {
                        match fragment {
                            Some(f) => {
                                let mut wanted = String::new();
                                wanted.append("#");
                                wanted.append(f.as_str());
                                if !contains_fragment(&files[i].fragments, wanted.as_str()) {
                                    errors.push(
                                        GeneratedFileError::OtherFragmentNotFound(
                                            wanted,
                                            copy_string(&files[i].path),
                                        ),
                                    );
                                }
                            },
                            None => {},
                        }
                    },
                }
            },
            LinkTarget::Fragment(f) => {
                if !contains_fragment(&file.fragments, f.as_str()) {
                    errors.push(GeneratedFileError::LocalFragmentNotFound(copy_string(f)));
                }
            },
            LinkTarget::External => {},
        }
        assert(errors_view(errors@) =~= before + link_error(*file, files@, file.links@[k as int]));
    }
    assert(file.links@.take(file.links@.len() as int) =~= file.links@);
    let ghost head = errors_view(errors@);
    for k in 0..file.imgs.len()
        invariant
            errors_view(errors@) == head + img_errors(file.imgs@.take(k as int)),
    {
        let ghost before = errors_view(errors@);
        assert(file.imgs@.take(k + 1).drop_last() =~= file.imgs@.take(k as int));
        match &file.imgs[k] {
            ImgTarget::Internal { href, exists } => {
                if !*exists {
                    errors.push(GeneratedFileError::LocalImgNotFound(copy_string(href)));
                }
            },
            ImgTarget::External => {},
        }
        assert(errors_view(errors@) =~= before + img_error(file.imgs@[k as int]));
    }
    assert(file.imgs@.take(file.imgs@.len() as int) =~= file.imgs@);
    errors
}

} // verus!

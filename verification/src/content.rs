//! The content of the site as the completion engine reads it: posts,
//! standalone pages, series, tags, the projects page and the images.
//!
//! A post is referred to by its index in `Site::posts`.
use crate::markup::MarkupLookup;
use vstd::prelude::*;

verus! {

/// A tag that posts carry.
#[derive(Debug, Clone)]
pub struct Tag {
    pub id: String,
    pub name: String,
    pub url: String,
}

/// A blog post.
#[derive(Debug)]
pub struct PostItem {
    pub title: String,
    /// The path of the post's markup file in the input directory.
    pub path: String,
    /// The creation date, `YYYY-MM-DD`.
    pub created: String,
    pub url: String,
    pub tags: Vec<Tag>,
    /// The id of the series the post belongs to.
    pub series: Option<String>,
    pub is_draft: bool,
    pub markup_lookup: Option<MarkupLookup>,
}

/// A page outside the blog, such as `/404`.
#[derive(Debug, Clone)]
pub struct StandaloneItem {
    pub title: String,
    pub url: String,
    pub path: String,
}

/// A series of posts.
#[derive(Debug, Clone)]
pub struct SeriesItem {
    pub id: String,
    pub title: String,
    pub url: String,
    pub path: String,
    /// The posts of the series, as indices into `Site::posts`.
    pub posts: Vec<usize>,
}

/// A tag with the posts that carry it.
#[derive(Debug, Clone)]
pub struct TagPosts {
    pub tag: Tag,
    /// Indices into `Site::posts`.
    pub posts: Vec<usize>,
}

/// The projects page.
#[derive(Debug, Clone)]
pub struct ProjectsItem {
    pub title: String,
    pub url: String,
}

/// A path relative to a directory of the site.
#[derive(Debug, Clone, PartialEq, Eq)]
pub struct RelPath(pub String);

/// The site.
#[derive(Debug)]
pub struct Site {
    pub posts: Vec<PostItem>,
    pub standalones: Vec<StandaloneItem>,
    pub series: Vec<SeriesItem>,
    pub tags: Vec<TagPosts>,
    pub projects: ProjectsItem,
    /// The files of the images directory.
    pub images: Vec<RelPath>,
}

/// Every index in `refs` names a post of a site with `n` posts.
pub open spec fn refs_valid(refs: Seq<usize>, n: nat) -> bool {
    forall|i: int| 0 <= i < refs.len() ==> #[trigger] refs[i] < n
}

impl Site {
    /// The series and tags of the site refer to posts it has.
    pub open spec fn wf(&self) -> bool {
        &&& forall|i: int|
            0 <= i < self.series@.len() ==> refs_valid(
                #[trigger] self.series@[i].posts@,
                self.posts@.len(),
            )
        &&& forall|i: int|
            0 <= i < self.tags@.len() ==> refs_valid(
                #[trigger] self.tags@[i].posts@,
                self.posts@.len(),
            )
    }
}

} // verus!

//! Messages exchanged with the editor and the browser, and the completion
//! items sent to the editor.
//!
//! Each data type has a view in which every `String` is its sequence of
//! characters; the contracts of the library speak of those views.
use crate::content::{PostItem, SeriesItem, Site, StandaloneItem, Tag, refs_valid};
use crate::markup::{BrokenLink, Heading, LinkDef};
use vstd::prelude::*;

verus! {

/// An event pushed to the browser that shows the site.
#[derive(Debug, Clone, PartialEq, Eq)]
pub enum WebEvent {
    RefreshAll,
    RefreshPage { path: String },
    PositionPage { path: String, linenum: u32, linecount: u32 },
}

/// An event received from the editor.
#[derive(Debug, Clone, PartialEq, Eq)]
pub enum NeovimEvent {
    CursorMoved { linenum: u32, linecount: u32, column: u32, path: String },
    ListTags { message_id: u64 },
    ListSeries { message_id: u64 },
    ListUrls { message_id: u64 },
    ListLinkDefs { message_id: u64, path: String },
    ListHeadings { message_id: u64, path: String },
    GotoDef { message_id: u64, linenum: usize, column: usize, path: String },
}

/// A post as the editor sees it.
#[derive(Debug, Clone, PartialEq, Eq)]
pub struct PostInfo {
    pub title: String,
    pub path: String,
    pub created: String,
    pub url: String,
    pub tags: Vec<String>,
    pub series: Option<String>,
}

pub struct SpecPostInfo {
    pub title: Seq<char>,
    pub path: Seq<char>,
    pub created: Seq<char>,
    pub url: Seq<char>,
    pub tags: Seq<Seq<char>>,
    pub series: Option<Seq<char>>,
}

impl View for PostInfo {
    type V = SpecPostInfo;

    open spec fn view(&self) -> SpecPostInfo {
        SpecPostInfo {
            title: self.title@,
            path: self.path@,
            created: self.created@,
            url: self.url@,
            tags: self.tags.deep_view(),
            series: self.series.deep_view(),
        }
    }
}

/// The views of a list of posts.
pub open spec fn post_infos_view(posts: Seq<PostInfo>) -> Seq<SpecPostInfo> {
    posts.map_values(|p: PostInfo| p@)
}

/// A tag, with the posts that carry it.
#[derive(Debug, Clone, PartialEq, Eq)]
pub struct TagInfo {
    pub id: String,
    pub name: String,
    pub url: String,
    pub posts: Vec<PostInfo>,
}

pub struct SpecTagInfo {
    pub id: Seq<char>,
    pub name: Seq<char>,
    pub url: Seq<char>,
    pub posts: Seq<SpecPostInfo>,
}

impl View for TagInfo {
    type V = SpecTagInfo;

    open spec fn view(&self) -> SpecTagInfo {
        SpecTagInfo {
            id: self.id@,
            name: self.name@,
            url: self.url@,
            posts: post_infos_view(self.posts@),
        }
    }
}

/// A series, with its posts.
#[derive(Debug, Clone, PartialEq, Eq)]
pub struct SeriesInfo {
    pub id: String,
    pub title: String,
    pub url: String,
    pub path: String,
    pub posts: Vec<PostInfo>,
}

pub struct SpecSeriesInfo {
    pub id: Seq<char>,
    pub title: Seq<char>,
    pub url: Seq<char>,
    pub path: Seq<char>,
    pub posts: Seq<SpecPostInfo>,
}

impl View for SeriesInfo {
    type V = SpecSeriesInfo;

    open spec fn view(&self) -> SpecSeriesInfo {
        SpecSeriesInfo {
            id: self.id@,
            title: self.title@,
            url: self.url@,
            path: self.path@,
            posts: post_infos_view(self.posts@),
        }
    }
}

/// A page of the site with its title.
#[derive(Debug, Clone, PartialEq, Eq)]
pub struct UrlInfo {
    pub title: String,
    pub url: String,
}

/// A link definition `[label]: url` of a markup file, with the rows it spans.
#[derive(Debug, Clone, PartialEq, Eq)]
pub struct LinkDefInfo {
    pub label: String,
    pub url: String,
    pub start_row: usize,
    pub end_row: usize,
}

pub struct SpecLinkDefInfo {
    pub label: Seq<char>,
    pub url: Seq<char>,
    pub start_row: usize,
    pub end_row: usize,
}

impl View for LinkDefInfo {
    type V = SpecLinkDefInfo;

    open spec fn view(&self) -> SpecLinkDefInfo {
        SpecLinkDefInfo {
            label: self.label@,
            url: self.url@,
            start_row: self.start_row,
            end_row: self.end_row,
        }
    }
}

/// Where a heading was found, relative to the file being edited.
#[derive(Debug, Clone, PartialEq, Eq)]
pub enum HeadingContext {
    SameFile { start_row: usize, end_row: usize },
    OtherFile { path: String, url: String, start_row: usize, end_row: usize },
}

pub enum SpecHeadingContext {
    SameFile { start_row: usize, end_row: usize },
    OtherFile { path: Seq<char>, url: Seq<char>, start_row: usize, end_row: usize },
}

impl View for HeadingContext {
    type V = SpecHeadingContext;

    open spec fn view(&self) -> SpecHeadingContext {
        match self {
            HeadingContext::SameFile { start_row, end_row } => SpecHeadingContext::SameFile {
                start_row: *start_row,
                end_row: *end_row,
            },
            HeadingContext::OtherFile { path, url, start_row, end_row } =>
                SpecHeadingContext::OtherFile {
                path: path@,
                url: url@,
                start_row: *start_row,
                end_row: *end_row,
            },
        }
    }
}

/// A heading of a markup file.
#[derive(Debug, Clone, PartialEq, Eq)]
pub struct HeadingInfo {
    pub id: String,
    pub content: String,
    pub level: u16,
    pub context: HeadingContext,
}

pub struct SpecHeadingInfo {
    pub id: Seq<char>,
    pub content: Seq<char>,
    pub level: u16,
    pub context: SpecHeadingContext,
}

impl View for HeadingInfo {
    type V = SpecHeadingInfo;

    open spec fn view(&self) -> SpecHeadingInfo {
        SpecHeadingInfo {
            id: self.id@,
            content: self.content@,
            level: self.level,
            context: self.context@,
        }
    }
}

/// A standalone page.
#[derive(Debug, Clone, PartialEq, Eq)]
pub struct StandaloneInfo {
    pub title: String,
    pub url: String,
    pub path: String,
}

pub struct SpecStandaloneInfo {
    pub title: Seq<char>,
    pub url: Seq<char>,
    pub path: Seq<char>,
}

impl View for StandaloneInfo {
    type V = SpecStandaloneInfo;

    open spec fn view(&self) -> SpecStandaloneInfo {
        SpecStandaloneInfo { title: self.title@, url: self.url@, path: self.path@ }
    }
}

/// A fixed page of the site, such as the projects page.
#[derive(Debug, Clone, PartialEq, Eq)]
pub struct ConstantInfo {
    pub title: String,
    pub url: String,
}

pub struct SpecConstantInfo {
    pub title: Seq<char>,
    pub url: Seq<char>,
}

impl View for ConstantInfo {
    type V = SpecConstantInfo;

    open spec fn view(&self) -> SpecConstantInfo {
        SpecConstantInfo { title: self.title@, url: self.url@ }
    }
}

/// An image of the site.
#[derive(Debug, Clone, PartialEq, Eq)]
pub struct ImgInfo {
    pub url: String,
}

pub struct SpecImgInfo {
    pub url: Seq<char>,
}

impl View for ImgInfo {
    type V = SpecImgInfo;

    open spec fn view(&self) -> SpecImgInfo {
        SpecImgInfo { url: self.url@ }
    }
}

/// A link tag used in a markup file that has no definition, with its row.
#[derive(Debug, Clone, PartialEq, Eq)]
pub struct BrokenLinkInfo {
    pub tag: String,
    pub row: usize,
}

pub struct SpecBrokenLinkInfo {
    pub tag: Seq<char>,
    pub row: usize,
}

impl View for BrokenLinkInfo {
    type V = SpecBrokenLinkInfo;

    open spec fn view(&self) -> SpecBrokenLinkInfo {
        SpecBrokenLinkInfo { tag: self.tag@, row: self.row }
    }
}

/// What a completion item stands for.
#[derive(Debug, Clone, PartialEq, Eq)]
pub enum ExtraCompletionInfo {
    Img(ImgInfo),
    Post(PostInfo),
    Standalone(StandaloneInfo),
    Constant(ConstantInfo),
    Series(SeriesInfo),
    Tag(TagInfo),
    BrokenLink(BrokenLinkInfo),
    Heading(HeadingInfo),
    LinkDef(LinkDefInfo),
}

pub enum SpecExtraCompletionInfo {
    Img(SpecImgInfo),
    Post(SpecPostInfo),
    Standalone(SpecStandaloneInfo),
    Constant(SpecConstantInfo),
    Series(SpecSeriesInfo),
    Tag(SpecTagInfo),
    BrokenLink(SpecBrokenLinkInfo),
    Heading(SpecHeadingInfo),
    LinkDef(SpecLinkDefInfo),
}

impl View for ExtraCompletionInfo {
    type V = SpecExtraCompletionInfo;

    open spec fn view(&self) -> SpecExtraCompletionInfo {
        match self {
            ExtraCompletionInfo::Img(i) => SpecExtraCompletionInfo::Img(i@),
            ExtraCompletionInfo::Post(i) => SpecExtraCompletionInfo::Post(i@),
            ExtraCompletionInfo::Standalone(i) => SpecExtraCompletionInfo::Standalone(i@),
            ExtraCompletionInfo::Constant(i) => SpecExtraCompletionInfo::Constant(i@),
            ExtraCompletionInfo::Series(i) => SpecExtraCompletionInfo::Series(i@),
            ExtraCompletionInfo::Tag(i) => SpecExtraCompletionInfo::Tag(i@),
            ExtraCompletionInfo::BrokenLink(i) => SpecExtraCompletionInfo::BrokenLink(i@),
            ExtraCompletionInfo::Heading(i) => SpecExtraCompletionInfo::Heading(i@),
            ExtraCompletionInfo::LinkDef(i) => SpecExtraCompletionInfo::LinkDef(i@),
        }
    }
}

/// The kinds of completion items of the language server protocol.
#[derive(Debug, Clone, Copy, PartialEq, Eq, Structural)]
pub enum CompletionItemKind {
    Text,
    Method,
    Function,
    Constructor,
    Field,
    Variable,
    Class,
    Interface,
    Module,
    Property,
    Unit,
    Value,
    Enum,
    Keyword,
    Snippet,
    Color,
    File,
    Reference,
    Folder,
    EnumMember,
    Constant,
    Struct,
    Event,
    Operator,
    TypeParameter,
}

impl Default for CompletionItemKind {
    fn default() -> (k: Self)
        ensures
            k == CompletionItemKind::Text,
    {
        CompletionItemKind::Text
    }
}

/// One completion offered to the editor.
#[derive(Debug, Clone, PartialEq, Eq)]
pub struct CompletionItem {
    pub label: String,
    pub insert_text: Option<String>,
    pub filter_text: Option<String>,
    pub kind: CompletionItemKind,
    pub info: Option<ExtraCompletionInfo>,
}

pub struct SpecCompletionItem {
    pub label: Seq<char>,
    pub insert_text: Option<Seq<char>>,
    pub filter_text: Option<Seq<char>>,
    pub kind: CompletionItemKind,
    pub info: Option<SpecExtraCompletionInfo>,
}

impl View for CompletionItem {
    type V = SpecCompletionItem;

    open spec fn view(&self) -> SpecCompletionItem {
        SpecCompletionItem {
            label: self.label@,
            insert_text: self.insert_text.deep_view(),
            filter_text: self.filter_text.deep_view(),
            kind: self.kind,
            info: match self.info {
                Some(i) => Some(i@),
                None => None,
            },
        }
    }
}

/// The views of a list of completion items.
pub open spec fn items_view(items: Seq<CompletionItem>) -> Seq<SpecCompletionItem> {
    items.map_values(|i: CompletionItem| i@)
}

/// An answer to the editor.
#[derive(Debug, Clone, PartialEq, Eq)]
pub enum NeovimResponse {
    ListTags { message_id: u64, tags: Vec<TagInfo> },
    ListSeries { message_id: u64, series: Vec<SeriesInfo> },
    ListUrls { message_id: u64, urls: Vec<UrlInfo> },
    ListLinkDefs { message_id: u64, defs: Vec<LinkDefInfo> },
    ListHeadings { message_id: u64, headings: Vec<HeadingInfo> },
    GotoDef {
        message_id: u64,
        linenum: Option<usize>,
        column: Option<usize>,
        path: Option<String>,
    },
}

/// What the editor is told of a post.
pub open spec fn post_info_of(p: PostItem) -> SpecPostInfo {
    SpecPostInfo {
        title: p.title@,
        path: p.path@,
        created: p.created@,
        url: p.url@,
        tags: p.tags@.map_values(|t: Tag| t.name@),
        series: p.series.deep_view(),
    }
}

/// What the editor is told of the posts `refs` of `site`.
pub open spec fn post_infos_of(refs: Seq<usize>, site: Site) -> Seq<SpecPostInfo> {
    refs.map_values(|i: usize| post_info_of(site.posts@[i as int]))
}

/// What the editor is told of a tag carried by the posts `refs`.
pub open spec fn tag_info_of(tag: Tag, refs: Seq<usize>, site: Site) -> SpecTagInfo {
    SpecTagInfo { id: tag.id@, name: tag.name@, url: tag.url@, posts: post_infos_of(refs, site) }
}

/// What the editor is told of a series.
pub open spec fn series_info_of(item: SeriesItem, site: Site) -> SpecSeriesInfo {
    SpecSeriesInfo {
        id: item.id@,
        title: item.title@,
        url: item.url@,
        path: item.path@,
        posts: post_infos_of(item.posts@, site),
    }
}

/// What the editor is told of a standalone page.
pub open spec fn standalone_info_of(item: StandaloneItem) -> SpecStandaloneInfo {
    SpecStandaloneInfo { title: item.title@, url: item.url@, path: item.path@ }
}

/// The names of `tags`, in order.
fn tag_names(tags: &Vec<Tag>) -> (res: Vec<String>)
    ensures
        res.deep_view() == tags@.map_values(|t: Tag| t.name@),
{
    let mut res: Vec<String> = Vec::new();
    for i in 0..tags.len()
        invariant
            res.deep_view() == tags@.take(i as int).map_values(|t: Tag| t.name@),
    {
        let ghost before = res.deep_view();
        res.push(tags[i].name.clone());
        assert(res.deep_view() =~= before.push(tags@[i as int].name@));
        assert(tags@.take(i + 1).map_values(|t: Tag| t.name@) =~= tags@.take(i as int).map_values(
            |t: Tag| t.name@,
        ).push(tags@[i as int].name@));
    }
    assert(tags@.take(tags@.len() as int) =~= tags@);
    res
}

/// The posts `refs` of `site`, as the editor sees them.
fn post_infos(refs: &[usize], site: &Site) -> (res: Vec<PostInfo>)
    requires
        refs_valid(refs@, site.posts@.len()),
    ensures
        post_infos_view(res@) == post_infos_of(refs@, *site),
{
    let mut res: Vec<PostInfo> = Vec::new();
    for i in 0..refs.len()
        invariant
            refs_valid(refs@, site.posts@.len()),
            post_infos_view(res@) == post_infos_of(refs@.take(i as int), *site),
    {
        let idx = refs[i];
        let ghost before = res@;
        res.push(PostInfo::from_post(&site.posts[idx]));
        assert(post_infos_view(res@) =~= post_infos_view(before).push(
            post_info_of(site.posts@[idx as int]),
        ));
        assert(post_infos_of(refs@.take(i + 1), *site) =~= post_infos_of(
            refs@.take(i as int),
            *site,
        ).push(post_info_of(site.posts@[idx as int])));
    }
    assert(refs@.take(refs@.len() as int) =~= refs@);
    res
}

impl PostInfo {
    /// What the editor is told of `post`.
    pub fn from_post(post: &PostItem) -> (res: PostInfo)
        ensures
            res@ == post_info_of(*post),
    {
        PostInfo {
            title: post.title.clone(),
            path: post.path.clone(),
            created: post.created.clone(),
            url: post.url.clone(),
            tags: tag_names(&post.tags),
            series: match &post.series {
                Some(id) => Some(id.clone()),
                None => None,
            },
        }
    }
}

impl TagInfo {
    /// What the editor is told of `tag`, carried by the posts `posts` of `site`.
    pub fn from_tag(tag: &Tag, posts: &[usize], site: &Site) -> (res: TagInfo)
        requires
            refs_valid(posts@, site.posts@.len()),
        ensures
            res@ == tag_info_of(*tag, posts@, *site),
    {
        TagInfo {
            id: tag.id.clone(),
            name: tag.name.clone(),
            url: tag.url.clone(),
            posts: post_infos(posts, site),
        }
    }
}

impl SeriesInfo {
    /// What the editor is told of the series `item` of `site`.
    pub fn from_series(item: &SeriesItem, site: &Site) -> (res: SeriesInfo)
        requires
            refs_valid(item.posts@, site.posts@.len()),
        ensures
            res@ == series_info_of(*item, *site),
    {
        SeriesInfo {
            id: item.id.clone(),
            title: item.title.clone(),
            url: item.url.clone(),
            path: item.path.clone(),
            posts: post_infos(item.posts.as_slice(), site),
        }
    }
}

impl StandaloneInfo {
    /// What the editor is told of the standalone page `item`.
    pub fn from_standalone(item: &StandaloneItem) -> (res: StandaloneInfo)
        ensures
            res@ == standalone_info_of(*item),
    {
        StandaloneInfo { title: item.title.clone(), url: item.url.clone(), path: item.path.clone() }
    }
}

impl LinkDefInfo {
    /// What the editor is told of `def`, which spans rows `start_row` to `end_row`.
    pub fn from_link_def(def: &LinkDef, start_row: usize, end_row: usize) -> (res: LinkDefInfo)
        ensures
            res@ == (SpecLinkDefInfo { label: def.label@, url: def.url@, start_row, end_row }),
    {
        LinkDefInfo { label: def.label.clone(), url: def.url.clone(), start_row, end_row }
    }
}

impl HeadingInfo {
    /// What the editor is told of `heading`, found in `context`.
    pub fn from_heading(heading: &Heading, context: HeadingContext) -> (res: HeadingInfo)
        ensures
            res@ == (SpecHeadingInfo {
                id: heading.id@,
                content: heading.content@,
                level: heading.level,
                context: context@,
            }),
    {
        HeadingInfo {
            id: heading.id.clone(),
            content: heading.content.clone(),
            level: heading.level,
            context,
        }
    }
}

impl BrokenLinkInfo {
    /// What the editor is told of the broken `link`, found on `row`.
    pub fn from_link(link: &BrokenLink, row: usize) -> (res: BrokenLinkInfo)
        ensures
            res@ == (SpecBrokenLinkInfo { tag: link.tag@, row }),
    {
        BrokenLinkInfo { tag: link.tag.clone(), row }
    }
}

} // verus!

//! Completions for the editor: what is offered depends on the text before the
//! cursor, on whether the cursor is in the front matter, and on the site.
use crate::content::{PostItem, RelPath, SeriesItem, Site, StandaloneItem, Tag, TagPosts, refs_valid};
use crate::markup::{BrokenLink, Heading, LinkDef, MarkupLookup, row_of};
use crate::messages::{
    BrokenLinkInfo, CompletionItem, CompletionItemKind, ConstantInfo, ExtraCompletionInfo,
    HeadingContext, HeadingInfo, ImgInfo, LinkDefInfo, PostInfo, SeriesInfo, SpecBrokenLinkInfo,
    SpecCompletionItem, SpecConstantInfo, SpecExtraCompletionInfo, SpecHeadingContext,
    SpecHeadingInfo, SpecImgInfo, SpecLinkDefInfo, SpecPostInfo, SpecSeriesInfo,
    SpecStandaloneInfo, SpecTagInfo, StandaloneInfo, TagInfo, items_view, post_info_of,
    series_info_of, standalone_info_of, tag_info_of,
};
use crate::paths::{join_path, joined_path};
use crate::patterns::{
    frontmatter_series, frontmatter_tag, full_link_tag, img_link, inline_header_ref,
    inline_rel_link, inline_rel_link_start, is_frontmatter_series, is_frontmatter_tag,
    is_full_link_tag, is_img_link, is_inline_header_ref, is_link_def_header_ref, link_def_header_ref,
    link_def_rel_link, link_def_rel_link_start, open_bracket, open_bracket_start,
};
use crate::patterns::chars_at;
use crate::text::{same_chars, chars_of, pipe_join, pipe_joined, push_char, push_chars, repeat_char};
use vstd::prelude::*;

verus! {

/// Whether a completion inserts a url or an id.
#[derive(Debug, Clone, Copy, PartialEq, Eq, Structural)]
pub enum CompletionType {
    Url,
    Id,
}

/// A completion item before it is laid out for the editor.
#[derive(Debug)]
pub enum CompletionItemBuilder {
    Post(PostInfo),
    Standalone(StandaloneInfo),
    Constant(ConstantInfo),
    Img(ImgInfo),
    Series(CompletionType, SeriesInfo),
    Tag(CompletionType, TagInfo),
    BrokenLink(BrokenLinkInfo),
    Heading(HeadingInfo),
    LinkDefInfo(LinkDefInfo),
}

/// The label of a heading: one `#` per level, a space, then its content.
pub open spec fn heading_label(level: u16, content: Seq<char>) -> Seq<char> {
    Seq::new(level as nat, |_i: int| '#') + seq![' '] + content
}

pub open spec fn img_item(info: SpecImgInfo) -> SpecCompletionItem {
    SpecCompletionItem {
        label: info.url,
        insert_text: None,
        filter_text: None,
        kind: CompletionItemKind::File,
        info: Some(SpecExtraCompletionInfo::Img(info)),
    }
}

pub open spec fn post_item(info: SpecPostInfo) -> SpecCompletionItem {
    SpecCompletionItem {
        label: info.title,
        insert_text: Some(info.url),
        filter_text: Some(pipe_joined(info.url, info.title)),
        kind: CompletionItemKind::File,
        info: Some(SpecExtraCompletionInfo::Post(info)),
    }
}

pub open spec fn standalone_item(info: SpecStandaloneInfo) -> SpecCompletionItem {
    SpecCompletionItem {
        label: info.title,
        insert_text: Some(info.url),
        filter_text: Some(pipe_joined(info.url, info.title)),
        kind: CompletionItemKind::File,
        info: Some(SpecExtraCompletionInfo::Standalone(info)),
    }
}

pub open spec fn constant_item(info: SpecConstantInfo) -> SpecCompletionItem {
    SpecCompletionItem {
        label: info.title,
        insert_text: Some(info.url),
        filter_text: Some(pipe_joined(info.url, info.title)),
        kind: CompletionItemKind::Constant,
        info: Some(SpecExtraCompletionInfo::Constant(info)),
    }
}

pub open spec fn series_item(t: CompletionType, info: SpecSeriesInfo) -> SpecCompletionItem {
    SpecCompletionItem {
        label: info.title,
        insert_text: Some(
            match t {
                CompletionType::Url => info.url,
                CompletionType::Id => info.id,
            },
        ),
        filter_text: Some(pipe_joined(info.url, info.title)),
        kind: CompletionItemKind::Module,
        info: Some(SpecExtraCompletionInfo::Series(info)),
    }
}

pub open spec fn tag_item(t: CompletionType, info: SpecTagInfo) -> SpecCompletionItem {
    SpecCompletionItem {
        label: info.name,
        insert_text: Some(
            match t {
                CompletionType::Url => info.url,
                CompletionType::Id => info.name,
            },
        ),
        filter_text: Some(pipe_joined(info.url, info.name)),
        kind: CompletionItemKind::Folder,
        info: Some(SpecExtraCompletionInfo::Tag(info)),
    }
}

pub open spec fn heading_item(info: SpecHeadingInfo) -> SpecCompletionItem {
    SpecCompletionItem {
        label: heading_label(info.level, info.content),
        insert_text: Some(info.id),
        filter_text: Some(info.content),
        kind: CompletionItemKind::Class,
        info: Some(SpecExtraCompletionInfo::Heading(info)),
    }
}

pub open spec fn link_def_item(info: SpecLinkDefInfo) -> SpecCompletionItem {
    SpecCompletionItem {
        label: info.label,
        insert_text: Some(info.label),
        filter_text: Some(pipe_joined(info.url, info.label)),
        kind: CompletionItemKind::Reference,
        info: Some(SpecExtraCompletionInfo::LinkDef(info)),
    }
}

pub open spec fn broken_link_item(info: SpecBrokenLinkInfo) -> SpecCompletionItem {
    SpecCompletionItem {
        label: info.tag,
        insert_text: None,
        filter_text: None,
        kind: CompletionItemKind::Field,
        info: Some(SpecExtraCompletionInfo::BrokenLink(info)),
    }
}

/// The completion item that `b` lays out.
pub open spec fn builder_item(b: CompletionItemBuilder) -> SpecCompletionItem {
    match b {
        CompletionItemBuilder::Post(i) => post_item(i@),
        CompletionItemBuilder::Standalone(i) => standalone_item(i@),
        CompletionItemBuilder::Constant(i) => constant_item(i@),
        CompletionItemBuilder::Img(i) => img_item(i@),
        CompletionItemBuilder::Series(t, i) => series_item(t, i@),
        CompletionItemBuilder::Tag(t, i) => tag_item(t, i@),
        CompletionItemBuilder::BrokenLink(i) => broken_link_item(i@),
        CompletionItemBuilder::Heading(i) => heading_item(i@),
        CompletionItemBuilder::LinkDefInfo(i) => link_def_item(i@),
    }
}

/// The url of an image of the site.
pub open spec fn img_url(path: RelPath) -> Seq<char> {
    joined_path("/images/"@, path.0@)
}

impl CompletionItemBuilder {
    /// An image, found at `path` in the images directory.
    pub fn new_img(path: RelPath) -> (res: Self)
        ensures
            res matches CompletionItemBuilder::Img(info) && info@ == (SpecImgInfo {
                url: img_url(path),
            }),
    {
        CompletionItemBuilder::Img(ImgInfo { url: join_path("/images/", path.0.as_str()) })
    }

    pub fn new_post(item: &PostItem) -> (res: Self)
        ensures
            res matches CompletionItemBuilder::Post(info) && info@ == post_info_of(*item),
    {
        CompletionItemBuilder::Post(PostInfo::from_post(item))
    }

    pub fn new_standalone(item: &StandaloneItem) -> (res: Self)
        ensures
            res matches CompletionItemBuilder::Standalone(info) && info@ == standalone_info_of(
                *item,
            ),
    {
        CompletionItemBuilder::Standalone(StandaloneInfo::from_standalone(item))
    }

    pub fn new_constant(title: &str, url: &str) -> (res: Self)
        ensures
            res matches CompletionItemBuilder::Constant(info) && info@ == (SpecConstantInfo {
                title: title@,
                url: url@,
            }),
    {
        CompletionItemBuilder::Constant(ConstantInfo { title: title.to_owned(), url: url.to_owned() })
    }

    pub fn new_series(t: CompletionType, item: &SeriesItem, site: &Site) -> (res: Self)
        requires
            refs_valid(item.posts@, site.posts@.len()),
        ensures
            res matches CompletionItemBuilder::Series(t2, info) && t2 == t && info@
                == series_info_of(*item, *site),
    {
        CompletionItemBuilder::Series(t, SeriesInfo::from_series(item, site))
    }

    pub fn new_tag(t: CompletionType, tag: &Tag, posts: &[usize], site: &Site) -> (res: Self)
        requires
            refs_valid(posts@, site.posts@.len()),
        ensures
            res matches CompletionItemBuilder::Tag(t2, info) && t2 == t && info@ == tag_info_of(
                *tag,
                posts@,
                *site,
            ),
    {
        CompletionItemBuilder::Tag(t, TagInfo::from_tag(tag, posts, site))
    }

    /// The completion item laid out for the editor.
    pub fn into(self) -> (res: CompletionItem)
        ensures
            res@ == builder_item(self),
    {
        match self {
            CompletionItemBuilder::Img(info) => CompletionItem {
                label: info.url.clone(),
                insert_text: None,
                filter_text: None,
                kind: CompletionItemKind::File,
                info: Some(ExtraCompletionInfo::Img(info)),
            },
            CompletionItemBuilder::Post(info) => CompletionItem {
                filter_text: Some(pipe_join(info.url.as_str(), info.title.as_str())),
                label: info.title.clone(),
                insert_text: Some(info.url.clone()),
                kind: CompletionItemKind::File,
                info: Some(ExtraCompletionInfo::Post(info)),
            },
            CompletionItemBuilder::Standalone(info) => CompletionItem {
                filter_text: Some(pipe_join(info.url.as_str(), info.title.as_str())),
                label: info.title.clone(),
                insert_text: Some(info.url.clone()),
                kind: CompletionItemKind::File,
                info: Some(ExtraCompletionInfo::Standalone(info)),
            },
            CompletionItemBuilder::Constant(info) => CompletionItem {
                filter_text: Some(pipe_join(info.url.as_str(), info.title.as_str())),
                label: info.title.clone(),
                insert_text: Some(info.url.clone()),
                kind: CompletionItemKind::Constant,
                info: Some(ExtraCompletionInfo::Constant(info)),
            },
            CompletionItemBuilder::Series(t, info) => CompletionItem {
                filter_text: Some(pipe_join(info.url.as_str(), info.title.as_str())),
                label: info.title.clone(),
                insert_text: match t {
                    CompletionType::Url => Some(info.url.clone()),
                    CompletionType::Id => Some(info.id.clone()),
                },
                kind: CompletionItemKind::Module,
                info: Some(ExtraCompletionInfo::Series(info)),
            },
            CompletionItemBuilder::Tag(t, info) => CompletionItem {
                filter_text: Some(pipe_join(info.url.as_str(), info.name.as_str())),
                label: info.name.clone(),
                insert_text: match t {
                    CompletionType::Url => Some(info.url.clone()),
                    CompletionType::Id => Some(info.name.clone()),
                },
                kind: CompletionItemKind::Folder,
                info: Some(ExtraCompletionInfo::Tag(info)),
            },
            CompletionItemBuilder::Heading(info) => {
                let mut label = repeat_char('#', info.level as usize);
                push_char(&mut label, ' ');
                label.append(info.content.as_str());
                assert(label@ =~= heading_label(info.level, info.content@));
                CompletionItem {
                    label,
                    filter_text: Some(info.content.clone()),
                    insert_text: Some(info.id.clone()),
                    kind: CompletionItemKind::Class,
                    info: Some(ExtraCompletionInfo::Heading(info)),
                }
            },
            CompletionItemBuilder::LinkDefInfo(info) => CompletionItem {
                filter_text: Some(pipe_join(info.url.as_str(), info.label.as_str())),
                label: info.label.clone(),
                insert_text: Some(info.label.clone()),
                kind: CompletionItemKind::Reference,
                info: Some(ExtraCompletionInfo::LinkDef(info)),
            },
            CompletionItemBuilder::BrokenLink(info) => CompletionItem {
                label: info.tag.clone(),
                insert_text: None,
                filter_text: None,
                kind: CompletionItemKind::Field,
                info: Some(ExtraCompletionInfo::BrokenLink(info)),
            },
        }
    }
}

/// The images of the site, offered as links.
#[verifier::opaque]
pub open spec fn img_items(site: Site) -> Seq<SpecCompletionItem> {
    site.images@.map_values(|p: RelPath| img_item(SpecImgInfo { url: img_url(p) }))
}

/// The posts, drafts left out, in order.
pub open spec fn published_post_items(posts: Seq<PostItem>) -> Seq<SpecCompletionItem>
    decreases posts.len(),
{
    if posts.len() == 0 {
        seq![]
    } else {
        let rest = published_post_items(posts.drop_last());
        if posts.last().is_draft {
            rest
        } else {
            rest.push(post_item(post_info_of(posts.last())))
        }
    }
}

#[verifier::opaque]
pub open spec fn standalone_items(site: Site) -> Seq<SpecCompletionItem> {
    site.standalones@.map_values(|s: StandaloneItem| standalone_item(standalone_info_of(s)))
}

#[verifier::opaque]
pub open spec fn series_items(t: CompletionType, site: Site) -> Seq<SpecCompletionItem> {
    site.series@.map_values(|s: SeriesItem| series_item(t, series_info_of(s, site)))
}

#[verifier::opaque]
pub open spec fn tag_items(t: CompletionType, site: Site) -> Seq<SpecCompletionItem> {
    site.tags@.map_values(|e: TagPosts| tag_item(t, tag_info_of(e.tag, e.posts@, site)))
}

/// Every page a link may point to: the published posts, the standalone
/// pages, the series, the tags and the projects page.
#[verifier::opaque]
pub open spec fn url_items(site: Site) -> Seq<SpecCompletionItem> {
    published_post_items(site.posts@) + standalone_items(site) + series_items(
        CompletionType::Url,
        site,
    ) + tag_items(CompletionType::Url, site) + seq![
        constant_item(SpecConstantInfo { title: site.projects.title@, url: site.projects.url@ }),
    ]
}

/// Where a heading is found: in the file being edited (`None`), or in the
/// post at `path` with url `url`.
pub open spec fn heading_context_of(
    lookup: MarkupLookup,
    h: Heading,
    other: Option<(Seq<char>, Seq<char>)>,
) -> SpecHeadingContext {
    let start_row = row_of(lookup.markup@, h.range.start as int) as usize;
    let end_row = row_of(lookup.markup@, h.range.end as int) as usize;
    match other {
        None => SpecHeadingContext::SameFile { start_row, end_row },
        Some(o) => SpecHeadingContext::OtherFile { path: o.0, url: o.1, start_row, end_row },
    }
}

/// The headings of `lookup`.
#[verifier::opaque]
pub open spec fn heading_items(lookup: MarkupLookup, other: Option<(Seq<char>, Seq<char>)>) -> Seq<
    SpecCompletionItem,
> {
    lookup.headings@.map_values(
        |h: Heading|
            heading_item(
                SpecHeadingInfo {
                    id: h.id@,
                    content: h.content@,
                    level: h.level,
                    context: heading_context_of(lookup, h, other),
                },
            ),
    )
}

/// The link definitions of `lookup`.
#[verifier::opaque]
pub open spec fn link_def_items(lookup: MarkupLookup) -> Seq<SpecCompletionItem> {
    lookup.link_defs@.map_values(
        |d: LinkDef|
            link_def_item(
                SpecLinkDefInfo {
                    label: d.label@,
                    url: d.url@,
                    start_row: row_of(lookup.markup@, d.range.start as int) as usize,
                    end_row: row_of(lookup.markup@, d.range.end as int) as usize,
                },
            ),
    )
}

/// The broken links of `lookup`.
#[verifier::opaque]
pub open spec fn broken_link_items(lookup: MarkupLookup) -> Seq<SpecCompletionItem> {
    lookup.broken_links@.map_values(
        |b: BrokenLink|
            broken_link_item(
                SpecBrokenLinkInfo {
                    tag: b.tag@,
                    row: row_of(lookup.markup@, b.range.start as int) as usize,
                },
            ),
    )
}

/// The first position of `c` in `s`.
pub open spec fn first_index(s: Seq<char>, c: char) -> Option<int> {
    if exists|i: int| 0 <= i < s.len() && s[i] == c {
        Some(
            choose|i: int|
                0 <= i < s.len() && s[i] == c && forall|k: int| 0 <= k < i ==> s[k] != c,
        )
    } else {
        None
    }
}

/// The first post whose url is `url`.
pub open spec fn post_index_by_url(posts: Seq<PostItem>, url: Seq<char>) -> Option<int> {
    if exists|i: int| 0 <= i < posts.len() && posts[i].url@ == url {
        Some(
            choose|i: int|
                0 <= i < posts.len() && posts[i].url@ == url && forall|k: int|
                    0 <= k < i ==> posts[k].url@ != url,
        )
    } else {
        None
    }
}

/// Whether `path` is the file `file`, or ends with `/` and then `file`.
pub open spec fn names_file(path: Seq<char>, file: Seq<char>) -> bool {
    ||| path == file
    ||| path.len() > file.len() && path.skip(path.len() - file.len()) == file && path[path.len()
        - file.len() - 1] == '/'
}

/// The first post whose path names `file`.
pub open spec fn post_index_by_file(posts: Seq<PostItem>, file: Seq<char>) -> Option<int> {
    if exists|i: int| 0 <= i < posts.len() && names_file(posts[i].path@, file) {
        Some(
            choose|i: int|
                0 <= i < posts.len() && names_file(posts[i].path@, file) && forall|k: int|
                    0 <= k < i ==> !names_file(posts[k].path@, file),
        )
    } else {
        None
    }
}

/// The post whose headings a link target `target` (`/url#heading`) names,
/// with its url: a `#` must follow the url, and the post must be known and
/// parsed.
pub open spec fn heading_target(target: Seq<char>, site: Site) -> Option<(int, Seq<char>)> {
    match first_index(target, '#') {
        None => None,
        Some(h) => match post_index_by_url(site.posts@, target.take(h)) {
            None => None,
            Some(p) => if site.posts@[p].markup_lookup is Some {
                Some((p, target.take(h)))
            } else {
                None
            },
        },
    }
}

/// What a link target completes to: the headings of the post it names after
/// a `#`, else every page of the site.
pub open spec fn link_target_items(target: Seq<char>, site: Site) -> Seq<SpecCompletionItem> {
    match heading_target(target, site) {
        None => url_items(site),
        Some(t) => heading_items(
            site.posts@[t.0].markup_lookup->0,
            Some((site.posts@[t.0].path@, t.1)),
        ),
    }
}

/// The completions for the text `line` before the cursor in the parsed
/// markup file `lookup` of `site`, in or out of its front matter.
pub open spec fn lookup_items(
    line: Seq<char>,
    in_frontmatter: bool,
    lookup: MarkupLookup,
    site: Site,
) -> Seq<SpecCompletionItem> {
    if in_frontmatter {
        if is_frontmatter_tag(line) {
            tag_items(CompletionType::Id, site)
        } else if is_frontmatter_series(line) {
            series_items(CompletionType::Id, site)
        } else {
            seq![]
        }
    } else if is_img_link(line) {
        img_items(site)
    } else if inline_rel_link_start(line) is Some {
        link_target_items(line.skip(inline_rel_link_start(line)->0 + 2), site)
    } else if is_inline_header_ref(line) {
        heading_items(lookup, None)
    } else if link_def_rel_link_start(line) is Some {
        link_target_items(line.skip(link_def_rel_link_start(line)->0), site)
    } else if is_link_def_header_ref(line) {
        heading_items(lookup, None)
    } else if is_full_link_tag(line) {
        link_def_items(lookup)
    } else {
        match open_bracket_start(line) {
            None => seq![],
            Some(b) => if b == 0 {
                link_def_items(lookup) + broken_link_items(lookup)
            } else {
                link_def_items(lookup)
            },
        }
    }
}

/// The completions for the text `line` before the cursor, on `row` of the
/// file `path`, of the site `site`.
pub open spec fn completion_items(line: Seq<char>, row: usize, path: Seq<char>, site: Site) -> Seq<
    SpecCompletionItem,
> {
    match post_index_by_file(site.posts@, path) {
        None => seq![],
        Some(p) => match site.posts@[p].markup_lookup {
            None => seq![],
            Some(lookup) => lookup_items(
                line,
                row < lookup.markup_meta_line_count,
                lookup,
                site,
            ),
        },
    }
}

proof fn lemma_push_view(items: Seq<CompletionItem>, x: CompletionItem)
    ensures
        items_view(items.push(x)) =~= items_view(items).push(x@),
{
}

/// The images of the site.
fn img_completions(site: &Site) -> (res: Vec<CompletionItem>)
    ensures
        items_view(res@) == img_items(*site),
{
    let mut res: Vec<CompletionItem> = Vec::new();
    for i in 0..site.images.len()
        invariant
            items_view(res@) == site.images@.take(i as int).map_values(
                |p: RelPath| img_item(SpecImgInfo { url: img_url(p) }),
            ),
    {
        let img = RelPath(site.images[i].0.clone());
        let item = CompletionItemBuilder::new_img(img).into();
        proof {
            lemma_push_view(res@, item);
        }
        res.push(item);
        assert(site.images@.take(i + 1) =~= site.images@.take(i as int).push(site.images@[i as int]));
    }
    assert(site.images@.take(site.images@.len() as int) =~= site.images@);
    reveal(img_items);
    res
}

/// Appends the series of the site.
fn append_series(t: CompletionType, site: &Site, res: &mut Vec<CompletionItem>)
    requires
        site.wf(),
    ensures
        items_view(final(res)@) == items_view(old(res)@) + series_items(t, *site),
{
    let ghost start = items_view(res@);
    for i in 0..site.series.len()
        invariant
            site.wf(),
            items_view(res@) == start + site.series@.take(i as int).map_values(
                |s: SeriesItem| series_item(t, series_info_of(s, *site)),
            ),
    {
        assert(refs_valid(site.series@[i as int].posts@, site.posts@.len()));
        let item = CompletionItemBuilder::new_series(t, &site.series[i], site).into();
        proof {
            lemma_push_view(res@, item);
        }
        res.push(item);
        assert(site.series@.take(i + 1) =~= site.series@.take(i as int).push(site.series@[i as int]));
    }
    assert(site.series@.take(site.series@.len() as int) =~= site.series@);
    reveal(series_items);
}

/// Appends the tags of the site.
fn append_tags(t: CompletionType, site: &Site, res: &mut Vec<CompletionItem>)
    requires
        site.wf(),
    ensures
        items_view(final(res)@) == items_view(old(res)@) + tag_items(t, *site),
{
    let ghost start = items_view(res@);
    for i in 0..site.tags.len()
        invariant
            site.wf(),
            items_view(res@) == start + site.tags@.take(i as int).map_values(
                |e: TagPosts| tag_item(t, tag_info_of(e.tag, e.posts@, *site)),
            ),
    {
        assert(refs_valid(site.tags@[i as int].posts@, site.posts@.len()));
        let entry = &site.tags[i];
        let item = CompletionItemBuilder::new_tag(t, &entry.tag, entry.posts.as_slice(), site).into();
        proof {
            lemma_push_view(res@, item);
        }
        res.push(item);
        assert(site.tags@.take(i + 1) =~= site.tags@.take(i as int).push(site.tags@[i as int]));
    }
    assert(site.tags@.take(site.tags@.len() as int) =~= site.tags@);
    reveal(tag_items);
}

/// The tags, completed by name.
fn tags_completions(site: &Site) -> (res: Vec<CompletionItem>)
    requires
        site.wf(),
    ensures
        items_view(res@) == tag_items(CompletionType::Id, *site),
{
    let mut res = Vec::new();
    append_tags(CompletionType::Id, site, &mut res);
    assert(items_view(res@) =~= seq![] + tag_items(CompletionType::Id, *site));
    res
}

/// The series, completed by id.
fn series_completions(site: &Site) -> (res: Vec<CompletionItem>)
    requires
        site.wf(),
    ensures
        items_view(res@) == series_items(CompletionType::Id, *site),
{
    let mut res = Vec::new();
    append_series(CompletionType::Id, site, &mut res);
    assert(items_view(res@) =~= seq![] + series_items(CompletionType::Id, *site));
    res
}

/// Every page a link may point to.
fn url_completions(site: &Site) -> (res: Vec<CompletionItem>)
    requires
        site.wf(),
    ensures
        items_view(res@) == url_items(*site),
{
    let mut res: Vec<CompletionItem> = Vec::new();
    for i in 0..site.posts.len()
        invariant
            items_view(res@) == published_post_items(site.posts@.take(i as int)),
    {
        assert(site.posts@.take(i + 1).drop_last() =~= site.posts@.take(i as int));
        if !site.posts[i].is_draft {
            let item = CompletionItemBuilder::new_post(&site.posts[i]).into();
            proof {
                lemma_push_view(res@, item);
            }
            res.push(item);
        }
    }
    assert(site.posts@.take(site.posts@.len() as int) =~= site.posts@);
    let ghost posts_part = items_view(res@);
    for i in 0..site.standalones.len()
        invariant
            items_view(res@) == posts_part + site.standalones@.take(i as int).map_values(
                |s: StandaloneItem| standalone_item(standalone_info_of(s)),
            ),
    {
        let item = CompletionItemBuilder::new_standalone(&site.standalones[i]).into();
        proof {
            lemma_push_view(res@, item);
        }
        res.push(item);
        assert(site.standalones@.take(i + 1) =~= site.standalones@.take(i as int).push(
            site.standalones@[i as int],
        ));
    }
    assert(site.standalones@.take(site.standalones@.len() as int) =~= site.standalones@);
    reveal(standalone_items);
    append_series(CompletionType::Url, site, &mut res);
    append_tags(CompletionType::Url, site, &mut res);
    let item = CompletionItemBuilder::new_constant(
        site.projects.title.as_str(),
        site.projects.url.as_str(),
    ).into();
    proof {
        lemma_push_view(res@, item);
    }
    res.push(item);
    reveal(url_items);
    res
}

/// Where the headings of a completion are found.
enum HeadingSource<'a> {
    SameFile,
    OtherFile { url: &'a str, path: &'a str },
}

spec fn source_view(source: HeadingSource) -> Option<(Seq<char>, Seq<char>)> {
    match source {
        HeadingSource::SameFile => None,
        HeadingSource::OtherFile { url, path } => Some((path@, url@)),
    }
}

/// The headings of `lookup`.
fn heading_completions(lookup: &MarkupLookup, source: HeadingSource) -> (res: Vec<CompletionItem>)
    ensures
        items_view(res@) == heading_items(*lookup, source_view(source)),
{
    let ghost other = source_view(source);
    let mut res: Vec<CompletionItem> = Vec::new();
    for i in 0..lookup.headings.len()
        invariant
            other == source_view(source),
            items_view(res@) == lookup.headings@.take(i as int).map_values(
                |h: Heading|
                    heading_item(
                        SpecHeadingInfo {
                            id: h.id@,
                            content: h.content@,
                            level: h.level,
                            context: heading_context_of(*lookup, h, other),
                        },
                    ),
            ),
    {
        let heading = &lookup.headings[i];
        let (start_row, _) = lookup.char_pos_to_row_col(heading.range.start);
        let (end_row, _) = lookup.char_pos_to_row_col(heading.range.end);
        let context = match source {
            HeadingSource::SameFile => HeadingContext::SameFile { start_row, end_row },
            HeadingSource::OtherFile { path, url } => HeadingContext::OtherFile {
                path: path.to_owned(),
                url: url.to_owned(),
                start_row,
                end_row,
            },
        };
        let item = CompletionItemBuilder::Heading(HeadingInfo::from_heading(heading, context)).into();
        proof {
            lemma_push_view(res@, item);
        }
        res.push(item);
        assert(lookup.headings@.take(i + 1) =~= lookup.headings@.take(i as int).push(
            lookup.headings@[i as int],
        ));
    }
    assert(lookup.headings@.take(lookup.headings@.len() as int) =~= lookup.headings@);
    reveal(heading_items);
    res
}

/// The link definitions of `lookup`.
fn link_tag_completions(lookup: &MarkupLookup) -> (res: Vec<CompletionItem>)
    ensures
        items_view(res@) == link_def_items(*lookup),
{
    let mut res: Vec<CompletionItem> = Vec::new();
    for i in 0..lookup.link_defs.len()
        invariant
            items_view(res@) == lookup.link_defs@.take(i as int).map_values(
                |d: LinkDef|
                    link_def_item(
                        SpecLinkDefInfo {
                            label: d.label@,
                            url: d.url@,
                            start_row: row_of(lookup.markup@, d.range.start as int) as usize,
                            end_row: row_of(lookup.markup@, d.range.end as int) as usize,
                        },
                    ),
            ),
    {
        let def = &lookup.link_defs[i];
        let (start_row, _) = lookup.char_pos_to_row_col(def.range.start);
        let (end_row, _) = lookup.char_pos_to_row_col(def.range.end);
        let item = CompletionItemBuilder::LinkDefInfo(
            LinkDefInfo::from_link_def(def, start_row, end_row),
        ).into();
        proof {
            lemma_push_view(res@, item);
        }
        res.push(item);
        assert(lookup.link_defs@.take(i + 1) =~= lookup.link_defs@.take(i as int).push(
            lookup.link_defs@[i as int],
        ));
    }
    assert(lookup.link_defs@.take(lookup.link_defs@.len() as int) =~= lookup.link_defs@);
    reveal(link_def_items);
    res
}

/// Appends the broken links of `lookup`.
fn append_broken_link_completions(lookup: &MarkupLookup, res: &mut Vec<CompletionItem>)
    ensures
        items_view(final(res)@) == items_view(old(res)@) + broken_link_items(*lookup),
{
    let ghost start = items_view(res@);
    for i in 0..lookup.broken_links.len()
        invariant
            items_view(res@) == start + lookup.broken_links@.take(i as int).map_values(
                |b: BrokenLink|
                    broken_link_item(
                        SpecBrokenLinkInfo {
                            tag: b.tag@,
                            row: row_of(lookup.markup@, b.range.start as int) as usize,
                        },
                    ),
            ),
    {
        let link = &lookup.broken_links[i];
        let (row, _) = lookup.char_pos_to_row_col(link.range.start);
        let item = CompletionItemBuilder::BrokenLink(BrokenLinkInfo::from_link(link, row)).into();
        proof {
            lemma_push_view(res@, item);
        }
        res.push(item);
        assert(lookup.broken_links@.take(i + 1) =~= lookup.broken_links@.take(i as int).push(
            lookup.broken_links@[i as int],
        ));
    }
    assert(lookup.broken_links@.take(lookup.broken_links@.len() as int) =~= lookup.broken_links@);
    reveal(broken_link_items);
}

/// The first position of `c` in `s`.
fn find_char(s: &[char], c: char) -> (res: Option<usize>)
    ensures
        match first_index(s@, c) {
            Some(i) => res matches Some(r) && r == i,
            None => res is None,
        },
        res matches Some(i) ==> i < s@.len(),
{
    let mut i: usize = 0;
    while i < s.len()
        invariant
            forall|k: int| 0 <= k < i ==> s@[k] != c,
        decreases s@.len() - i,
    {
        if s[i] == c {
            let ghost w = choose|w: int|
                0 <= w < s@.len() && s@[w] == c && forall|k: int| 0 <= k < w ==> s@[k] != c;
            assert(w == i) by {
                if w > i {
                    assert(s@[i as int] == c);
                }
            }
            return Some(i);
        }
        i = i + 1;
    }
    None
}

/// The first post whose url is `url`.
fn find_post_by_url(site: &Site, url: &[char]) -> (res: Option<usize>)
    ensures
        match post_index_by_url(site.posts@, url@) {
            Some(i) => res matches Some(r) && r == i,
            None => res is None,
        },
        res matches Some(i) ==> i < site.posts@.len(),
{
    let mut i: usize = 0;
    while i < site.posts.len()
        invariant
            forall|k: int| 0 <= k < i ==> site.posts@[k].url@ != url@,
        decreases site.posts@.len() - i,
    {
        let post_url = chars_of(site.posts[i].url.as_str());
        if same_chars(post_url.as_slice(), url) {
            let ghost w = choose|w: int|
                0 <= w < site.posts@.len() && site.posts@[w].url@ == url@ && forall|k: int|
                    0 <= k < w ==> site.posts@[k].url@ != url@;
            assert(w == i) by {
                if w > i {
                    assert(site.posts@[i as int].url@ == url@);
                }
            }
            return Some(i);
        }
        i = i + 1;
    }
    None
}

/// Whether `path` names `file`.
fn path_names_file(path: &[char], file: &[char]) -> (res: bool)
    ensures
        res == names_file(path@, file@),
{
    if same_chars(path, file) {
        return true;
    }
    if path.len() <= file.len() {
        return false;
    }
    let start = path.len() - file.len();
    let tail = chars_at(path, start, file);
    assert(tail == (path@.skip(start as int) == file@)) by {
        assert(path@.skip(start as int) =~= path@.subrange(start as int, start + file@.len()));
    }
    tail && path[start - 1] == '/'
}

/// The first post whose path names `file`.
fn find_post_by_file(site: &Site, file: &[char]) -> (res: Option<usize>)
    ensures
        match post_index_by_file(site.posts@, file@) {
            Some(i) => res matches Some(r) && r == i,
            None => res is None,
        },
        res matches Some(i) ==> i < site.posts@.len(),
{
    let mut i: usize = 0;
    while i < site.posts.len()
        invariant
            forall|k: int| 0 <= k < i ==> !names_file(site.posts@[k].path@, file@),
        decreases site.posts@.len() - i,
    {
        let path = chars_of(site.posts[i].path.as_str());
        if path_names_file(path.as_slice(), file) {
            let ghost w = choose|w: int|
                0 <= w < site.posts@.len() && names_file(site.posts@[w].path@, file@) && forall|
                    k: int,
                | 0 <= k < w ==> !names_file(site.posts@[k].path@, file@);
            assert(w == i) by {
                if w > i {
                    assert(names_file(site.posts@[i as int].path@, file@));
                }
            }
            return Some(i);
        }
        i = i + 1;
    }
    None
}

/// The headings of the post a link target names after its `#`, if that post
/// is known and parsed.
fn split_heading_completions(target: &[char], site: &Site) -> (res: Option<Vec<CompletionItem>>)
    ensures
        match heading_target(target@, *site) {
            Some(t) => res matches Some(items) && items_view(items@) == heading_items(
                site.posts@[t.0].markup_lookup->0,
                Some((site.posts@[t.0].path@, t.1)),
            ),
            None => res is None,
        },
{
    if let Some(h) = find_char(target, '#') {
        let url = target.split_at(h).0;
        assert(url@ =~= target@.take(h as int));
        if let Some(p) = find_post_by_url(site, url) {
            let post = &site.posts[p];
            assert(first_index(target@, '#') == Some(h as int));
            assert(post_index_by_url(site.posts@, target@.take(h as int)) == Some(p as int));
            if let Some(lookup) = &post.markup_lookup {
                let mut url_str = String::new();
                push_chars(&mut url_str, url);
                assert(url_str@ =~= url@);
                return Some(
                    heading_completions(
                        lookup,
                        HeadingSource::OtherFile { path: post.path.as_str(), url: url_str.as_str() },
                    ),
                );
            }
        }
    }
    None
}

/// What a link target completes to.
fn link_target_completions(target: &[char], site: &Site) -> (res: Vec<CompletionItem>)
    requires
        site.wf(),
    ensures
        items_view(res@) == link_target_items(target@, *site),
{
    match split_heading_completions(target, site) {
        Some(res) => res,
        None => url_completions(site),
    }
}

/// The completions for the text `cursor_before_line` before the cursor, on
/// `row` of the markup file `path`, of `site`. Nothing is offered for a file
/// the site does not know or has not parsed. In the front matter, a `tags`
/// line completes tags and a `series` line series. Elsewhere, by the first
/// shape the line ends in: an image link completes images; a relative link
/// completes pages, or the headings of the linked post after a `#`; a
/// heading reference completes the file's headings; a full reference link
/// completes its link definitions, and so does an open `[`, which at the
/// start of the line also completes its broken links.
pub fn complete(cursor_before_line: &str, _col: usize, row: usize, path: &str, site: &Site) -> (res:
    Vec<CompletionItem>)
    requires
        site.wf(),
    ensures
        items_view(res@) == completion_items(cursor_before_line@, row, path@, *site),
{
    let file = chars_of(path);
    let p = match find_post_by_file(site, file.as_slice()) {
        Some(p) => p,
        None => return Vec::new(),
    };
    assert(post_index_by_file(site.posts@, path@) == Some(p as int));
    let lookup = match &site.posts[p].markup_lookup {
        Some(lookup) => lookup,
        None => return Vec::new(),
    };
    assert(site.posts@[p as int].markup_lookup == Some(*lookup));
    let line = chars_of(cursor_before_line);
    lookup_completions(line.as_slice(), lookup.in_frontmatter(row), lookup, site)
}

/// The completions for the text `line` before the cursor in the parsed file
/// `lookup` of `site`.
fn lookup_completions(line: &[char], in_frontmatter: bool, lookup: &MarkupLookup, site: &Site) -> (res:
    Vec<CompletionItem>)
    requires
        site.wf(),
    ensures
        items_view(res@) == lookup_items(line@, in_frontmatter, *lookup, *site),
{
    if in_frontmatter {
        if frontmatter_tag(line) {
            return tags_completions(site);
        }
        if frontmatter_series(line) {
            return series_completions(site);
        }
    } else {
        if img_link(line) {
            return img_completions(site);
        }
        if let Some(start) = inline_rel_link(line) {
            let target = line.split_at(start).1;
            assert(target@ =~= line@.skip(start as int));
            return link_target_completions(target, site);
        }
        if inline_header_ref(line) {
            return heading_completions(lookup, HeadingSource::SameFile);
        }
        if let Some(start) = link_def_rel_link(line) {
            let target = line.split_at(start).1;
            assert(target@ =~= line@.skip(start as int));
            return link_target_completions(target, site);
        }
        if link_def_header_ref(line) {
            return heading_completions(lookup, HeadingSource::SameFile);
        }
        if full_link_tag(line) {
            return link_tag_completions(lookup);
        }
        if let Some(open) = open_bracket(line) {
            let mut res = link_tag_completions(lookup);
            if open == 0 {
                append_broken_link_completions(lookup, &mut res);
            }
            return res;
        }
    }
    Vec::new()
}

} // verus!

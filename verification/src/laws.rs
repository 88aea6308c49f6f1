//! Properties of the library that relate several inputs, calls or steps.
use crate::auto_figures::{
    SpecEvent, SpecTag, Step, attr_value, attrs_of, escaped, events_html, figure_html, figure_of, auto_figure_step, image_end, is_end_image, is_end_paragraph,
    is_start_image, is_start_paragraph, transformed_from,
};
use crate::complete::{
    CompletionType, completion_items, constant_item, img_items, heading_items, link_target_items,
    post_index_by_file, post_item, series_item, tag_item,
    published_post_items, series_items, standalone_items, tag_items, url_items,
};
use crate::content::{PostItem, SeriesItem, Site, Tag};
use crate::generated::{GeneratedFile, LinkTarget, SpecFileError, find_file, link_error};
use crate::highlight::all_highlight_names;
use crate::messages::{
    SpecConstantInfo, SpecExtraCompletionInfo, post_info_of, series_info_of, tag_info_of,
};
use crate::patterns::{
    img_link_at, inline_header_ref_at, inline_rel_link_at, inline_rel_link_start,
    is_frontmatter_series, is_frontmatter_tag, is_img_link, is_inline_header_ref,
    is_link_def_header_ref, lacks, link_def_head, link_def_header_ref_at, link_def_rel_link_at,
    link_def_rel_link_start, link_def_target_at, matches_at, space_end,
};
use vstd::prelude::*;

verus! {

/// A label that a link definition may carry in the laws below: not empty,
/// and free of brackets, parentheses and line feeds.
pub open spec fn plain_label(label: Seq<char>) -> bool {
    &&& label.len() > 0
    &&& forall|i: int|
        0 <= i < label.len() ==> label[i] != '[' && label[i] != ']' && label[i] != '(' && label[i]
            != ')' && label[i] != '\n'
}

/// A link target that the laws below speak of: free of `)`, `]` and line
/// feeds.
pub open spec fn plain_target(t: Seq<char>) -> bool {
    forall|i: int| 0 <= i < t.len() ==> t[i] != ')' && t[i] != ']' && t[i] != '\n'
}

/// `](` then `target`: the end of an inline link.
pub open spec fn inline_link_line(target: Seq<char>) -> Seq<char> {
    seq![']', '('] + target
}

/// `[label]: ` then `target`: a link definition.
pub open spec fn link_def_line(label: Seq<char>, target: Seq<char>) -> Seq<char> {
    seq!['['] + label + seq![']', ':', ' '] + target
}

/// Where no `](` starts at or after `from`, no link shape matches there.
proof fn lemma_no_link_from(l: Seq<char>, from: int)
    requires
        0 <= from,
        forall|i: int| from <= i < l.len() - 1 ==> !(#[trigger] l[i] == ']' && l[i + 1] == '('),
    ensures
        forall|i: int| from <= i ==> !inline_rel_link_at(l, i),
        forall|i: int| from <= i ==> !inline_header_ref_at(l, i),
        forall|i: int| from <= i + 2 ==> !img_link_at(l, i),
{
    assert forall|i: int| from <= i implies !inline_rel_link_at(l, i) by {
        if inline_rel_link_at(l, i) {
            assert(l.subrange(i, i + 3)[0] == l[i]);
            assert(l.subrange(i, i + 3)[1] == l[i + 1]);
        }
    }
    assert forall|i: int| from <= i implies !inline_header_ref_at(l, i) by {
        if inline_header_ref_at(l, i) {
            assert(l.subrange(i, i + 3)[0] == l[i]);
            assert(l.subrange(i, i + 3)[1] == l[i + 1]);
        }
    }
    assert forall|i: int| from <= i + 2 implies !img_link_at(l, i) by {
        if img_link_at(l, i) {
            assert(l.subrange(i, i + 4)[2] == l[i + 2]);
            assert(l.subrange(i, i + 4)[3] == l[i + 3]);
        }
    }
}

/// A line that starts with neither `t` nor `s` is no front matter line.
proof fn lemma_not_frontmatter(l: Seq<char>)
    requires
        l.len() > 0,
        l[0] != 't',
        l[0] != 's',
    ensures
        !is_frontmatter_tag(l),
        !is_frontmatter_series(l),
{
    assert(!matches_at(l, 0, seq!['t', 'a', 'g', 's', ':', ' '])) by {
        if l.len() >= 6 {
            assert(l.subrange(0, 6)[0] == l[0]);
        }
    }
    assert(!matches_at(l, 0, seq!['t', 'a', 'g', 's', ' ', '=', ' '])) by {
        if l.len() >= 7 {
            assert(l.subrange(0, 7)[0] == l[0]);
        }
    }
    assert(!matches_at(l, 0, seq!['s', 'e', 'r', 'i', 'e', 's', ':', ' '])) by {
        if l.len() >= 8 {
            assert(l.subrange(0, 8)[0] == l[0]);
        }
    }
    assert(!matches_at(l, 0, seq!['s', 'e', 'r', 'i', 'e', 's', ' ', '=', ' '])) by {
        if l.len() >= 9 {
            assert(l.subrange(0, 9)[0] == l[0]);
        }
    }
}

proof fn lemma_inline_line_shapes(target: Seq<char>)
    requires
        target.len() > 0,
        plain_target(target),
    ensures
        !is_img_link(inline_link_line(target)),
        target[0] == '/' ==> inline_rel_link_start(inline_link_line(target)) == Some(0int),
        target[0] == '#' ==> inline_rel_link_start(inline_link_line(target)) is None,
        target[0] == '#' ==> is_inline_header_ref(inline_link_line(target)),
        !is_frontmatter_tag(inline_link_line(target)),
        !is_frontmatter_series(inline_link_line(target)),
{
    let l = inline_link_line(target);
    assert(l[0] == ']' && l[1] == '(');
    assert forall|i: int| 2 <= i < l.len() implies l[i] == target[i - 2] by {}
    assert forall|i: int| 1 <= i < l.len() - 1 implies !(#[trigger] l[i] == ']' && l[i + 1] == '(') by {
        if i >= 2 {
            assert(l[i] == target[i - 2]);
        }
    }
    lemma_no_link_from(l, 1);
    lemma_not_frontmatter(l);
    reveal(is_img_link);
    assert forall|i: int| !img_link_at(l, i) by {
        if i < 0 {
            assert(!matches_at(l, i, seq!['!', '[', ']', '(']));
        }
    }
    reveal(inline_rel_link_start);
    reveal(is_inline_header_ref);
    assert(lacks(l, 3, l.len() as int, ')')) by {
        assert forall|j: int| 3 <= j < l.len() implies l[j] != ')' by {
            assert(l[j] == target[j - 2]);
        }
    }
    if target[0] == '/' {
        assert(l.subrange(0, 3) =~= seq![']', '(', '/']);
        assert(inline_rel_link_at(l, 0));
    }
    if target[0] == '#' {
        assert(!inline_rel_link_at(l, 0)) by {
            assert(l.subrange(0, 3)[2] == l[2]);
        }
        assert(l.subrange(0, 3) =~= seq![']', '(', '#']);
        assert(inline_header_ref_at(l, 0));
        assert forall|i: int| !inline_rel_link_at(l, i) by {
            if i < 0 {
                assert(!matches_at(l, i, seq![']', '(', '/']));
            }
        }
    }
}

proof fn lemma_link_def_line_layout(label: Seq<char>, target: Seq<char>)
    requires
        plain_label(label),
        plain_target(target),
    ensures
        ({
            let l = link_def_line(label, target);
            let n = label.len() as int;
            &&& l.len() == n + 4 + target.len()
            &&& l[0] == '['
            &&& l[n + 1] == ']'
            &&& l[n + 2] == ':'
            &&& l[n + 3] == ' '
            &&& forall|i: int| 0 <= i < l.len() && l[i] == ']' ==> i == n + 1
            &&& lacks(l, 1, n + 1, '\n')
            &&& lacks(l, n + 4, l.len() as int, '\n')
            &&& forall|i: int| n + 4 <= i < l.len() ==> l[i] == target[i - n - 4]
            &&& l.skip(n + 4) == target
        }),
{
    let l = link_def_line(label, target);
    let n = label.len() as int;
    assert forall|i: int| 1 <= i <= n implies l[i] == label[i - 1] by {}
    assert forall|i: int| n + 4 <= i < l.len() implies l[i] == target[i - n - 4] by {}
    assert forall|i: int| 0 <= i < l.len() && l[i] == ']' implies i == n + 1 by {
        if 1 <= i <= n {
            assert(l[i] == label[i - 1]);
        } else if n + 4 <= i {
            assert(l[i] == target[i - n - 4]);
        }
    }
    assert forall|j: int| 1 <= j < n + 1 implies l[j] != '\n' by {
        assert(l[j] == label[j - 1]);
    }
    assert forall|j: int| n + 4 <= j < l.len() implies l[j] != '\n' by {
        assert(l[j] == target[j - n - 4]);
    }
    assert(l.skip(n + 4) =~= target);
}

proof fn lemma_link_def_head_unique(l: Seq<char>, n: int)
    requires
        forall|i: int| 0 <= i < l.len() && l[i] == ']' ==> i == n,
    ensures
        forall|k: int, after: char, to_end: bool|
            k != n ==> !link_def_target_at(l, k, after, to_end),
{
    assert forall|k: int, after: char, to_end: bool|
        k != n implies !link_def_target_at(l, k, after, to_end) by {
        if link_def_head(l, k) {
            assert(l.subrange(k, k + 2)[0] == l[k]);
        }
    }
}

#[verifier::spinoff_prover]
#[verifier::rlimit(30)]
proof fn lemma_link_def_line_shapes(label: Seq<char>, target: Seq<char>)
    requires
        plain_label(label),
        target.len() > 0,
        plain_target(target),
        target[0] == '/' || target[0] == '#',
    ensures
        !is_img_link(link_def_line(label, target)),
        inline_rel_link_start(link_def_line(label, target)) is None,
        !is_inline_header_ref(link_def_line(label, target)),
        target[0] == '/' ==> link_def_rel_link_start(link_def_line(label, target)) == Some(
            label.len() + 4int,
        ),
        target[0] == '#' ==> link_def_rel_link_start(link_def_line(label, target)) is None,
        target[0] == '#' ==> is_link_def_header_ref(link_def_line(label, target)),
        link_def_line(label, target).skip(label.len() + 4int) == target,
        !is_frontmatter_tag(link_def_line(label, target)),
        !is_frontmatter_series(link_def_line(label, target)),
{
    let l = link_def_line(label, target);
    let n = label.len() as int;
    lemma_link_def_line_layout(label, target);
    assert forall|i: int| 0 <= i < l.len() - 1 implies !(#[trigger] l[i] == ']' && l[i + 1] == '(') by {}
    lemma_no_link_from(l, 0);
    lemma_not_frontmatter(l);
    reveal(is_img_link);
    assert forall|i: int| !img_link_at(l, i) by {
        if i < -2 {
            assert(!matches_at(l, i, seq!['!', '[', ']', '(']));
        }
    }
    reveal(inline_rel_link_start);
    reveal(is_inline_header_ref);
    assert forall|i: int| !inline_rel_link_at(l, i) && !inline_header_ref_at(l, i) by {
        if i < 0 {
            assert(!matches_at(l, i, seq![']', '(', '/']));
            assert(!matches_at(l, i, seq![']', '(', '#']));
        }
    }
    lemma_link_def_head_unique(l, n + 1);
    // The definition head stands at `n + 1`.
    assert(space_end(l, n + 4) == n + 4);
    assert(space_end(l, n + 3) == n + 4);
    assert(l.subrange(n + 1, n + 3) =~= seq![']', ':']);
    assert(link_def_head(l, n + 1));
    assert(lacks(l, n + 5, l.len() as int, '\n'));
    reveal(link_def_rel_link_start);
    reveal(is_link_def_header_ref);
    if target[0] == '/' {
        assert(link_def_rel_link_at(l, n + 1));
    } else {
        assert(!link_def_rel_link_at(l, n + 1));
        assert(link_def_header_ref_at(l, n + 1));
    }
}

/// A link definition `[label]: /target` completes as the inline link
/// `](/target` does, for plain labels and targets: both complete the pages
/// of the site, or the headings of the post the target names after a `#`.
pub proof fn lemma_link_def_completes_like_inline_link(
    label: Seq<char>,
    target: Seq<char>,
    row: usize,
    path: Seq<char>,
    site: Site,
)
    requires
        plain_label(label),
        target.len() > 0,
        target[0] == '/',
        plain_target(target),
    ensures
        completion_items(link_def_line(label, target), row, path, site) == completion_items(
            inline_link_line(target),
            row,
            path,
            site,
        ),
        completion_items(inline_link_line(target), row, path, site) == (match post_index_by_file(site.posts@, path) {
            Some(p) => match site.posts@[p].markup_lookup {
                Some(lookup) => if row < lookup.markup_meta_line_count {
                    seq![]
                } else {
                    link_target_items(target, site)
                },
                None => seq![],
            },
            None => seq![],
        }),
{
    lemma_inline_line_shapes(target);
    lemma_link_def_line_shapes(label, target);
    assert(inline_link_line(target).skip(2) =~= target);
}

/// A link definition `[label]: #heading` completes as the inline heading
/// reference `](#heading` does: both complete the headings of the file being
/// edited.
pub proof fn lemma_link_def_heading_ref_completes_like_inline_ref(
    label: Seq<char>,
    target: Seq<char>,
    row: usize,
    path: Seq<char>,
    site: Site,
)
    requires
        plain_label(label),
        target.len() > 0,
        target[0] == '#',
        plain_target(target),
    ensures
        completion_items(link_def_line(label, target), row, path, site) == completion_items(
            inline_link_line(target),
            row,
            path,
            site,
        ),
        completion_items(inline_link_line(target), row, path, site) == (match post_index_by_file(site.posts@, path) {
            Some(p) => match site.posts@[p].markup_lookup {
                Some(lookup) => if row < lookup.markup_meta_line_count {
                    seq![]
                } else {
                    heading_items(lookup, None)
                },
                None => seq![],
            },
            None => seq![],
        }),
{
    lemma_inline_line_shapes(target);
    lemma_link_def_line_shapes(label, target);
}

proof fn lemma_published_posts(posts: Seq<PostItem>, i: int)
    requires
        0 <= i < published_post_items(posts).len(),
    ensures
        exists|j: int|
            0 <= j < posts.len() && !posts[j].is_draft && published_post_items(posts)[i]
                == post_item(post_info_of(#[trigger] posts[j])),
    decreases posts.len(),
{
    let rest = published_post_items(posts.drop_last());
    if i < rest.len() {
        lemma_published_posts(posts.drop_last(), i);
        let j = choose|j: int|
            0 <= j < posts.drop_last().len() && !posts.drop_last()[j].is_draft && rest[i]
                == post_item(post_info_of(#[trigger] posts.drop_last()[j]));
        assert(posts[j] == posts.drop_last()[j]);
    } else {
        assert(posts[posts.len() - 1] == posts.last());
    }
}

/// Every post offered as a link target is a published post of the site: no
/// draft is ever offered.
pub proof fn lemma_drafts_are_never_offered(site: Site, i: int)
    requires
        0 <= i < url_items(site).len(),
        url_items(site)[i].info matches Some(SpecExtraCompletionInfo::Post(_)),
    ensures
        exists|j: int|
            0 <= j < site.posts@.len() && !site.posts@[j].is_draft && url_items(site)[i] == post_item(
                post_info_of(#[trigger] site.posts@[j]),
            ),
{
    reveal(url_items);
    reveal(standalone_items);
    reveal(series_items);
    reveal(tag_items);
    let a = published_post_items(site.posts@);
    let b = standalone_items(site);
    let c = series_items(CompletionType::Url, site);
    let d = tag_items(CompletionType::Url, site);
    if i < a.len() {
        assert(url_items(site)[i] == a[i]);
        lemma_published_posts(site.posts@, i);
    } else if i < a.len() + b.len() {
        assert(url_items(site)[i] == b[i - a.len()]);
    } else if i < a.len() + b.len() + c.len() {
        assert(url_items(site)[i] == c[i - a.len() - b.len()]);
    } else if i < a.len() + b.len() + c.len() + d.len() {
        assert(url_items(site)[i] == d[i - a.len() - b.len() - c.len()]);
    } else {
        assert(url_items(site)[i] == constant_item(
            SpecConstantInfo {
                title: site.projects.title@,
                url: site.projects.url@,
            },
        ));
    }
}

/// Only a paragraph that an image starts becomes something else: a step
/// yields an event other than the one it starts at only there, and then
/// yields an HTML figure and moves just past the end of that paragraph.
pub proof fn lemma_only_image_paragraphs_become_figures(ev: Seq<SpecEvent>, p: int)
    requires
        0 <= p < ev.len(),
        auto_figure_step(ev, p) matches Step::Emit(e, _) && e != ev[p],
    ensures
        is_start_paragraph(ev[p]),
        p + 1 < ev.len() && is_start_image(ev[p + 1]),
        auto_figure_step(ev, p) matches Step::Emit(e, np) && e is Html && p + 3 < np + 1 <= ev.len()
            + 1 && np <= ev.len() && is_end_paragraph(ev[np - 1]),
{
    if exists|e: int| p + 2 <= e < ev.len() && is_end_image(ev[e]) {
        let e = choose|e: int| p + 2 <= e < ev.len() && is_end_image(ev[e]);
        lemma_first_image_end(ev, p + 2, e);
    }
}

proof fn lemma_first_image_end(ev: Seq<SpecEvent>, from: int, e: int)
    requires
        from <= e < ev.len(),
        is_end_image(ev[e]),
    ensures
        image_end(ev, from) matches Some(f) && from <= f < ev.len() && is_end_image(ev[f])
            && forall|k: int| from <= k < f ==> !is_end_image(ev[k]),
    decreases e - from,
{
    if exists|k: int| from <= k < e && is_end_image(ev[k]) {
        let k = choose|k: int| from <= k < e && is_end_image(ev[k]);
        lemma_first_image_end(ev, from, k);
    } else {
        assert(from <= e < ev.len() && is_end_image(ev[e]) && forall|k: int|
            from <= k < e ==> !is_end_image(ev[k]));
    }
}

/// Whether the paragraph that starts at `p` has the shape of a figure: an
/// image starts it and, after the image's first end, the paragraph ends, or
/// an attribute block and then the paragraph's end follow.
pub open spec fn figure_paragraph_at(ev: Seq<SpecEvent>, p: int) -> bool {
    &&& is_start_paragraph(ev[p])
    &&& p + 1 < ev.len()
    &&& is_start_image(ev[p + 1])
    &&& image_end(ev, p + 2) matches Some(e) && {
        ||| e + 1 < ev.len() && is_end_paragraph(ev[e + 1])
        ||| e + 2 < ev.len() && is_end_paragraph(ev[e + 2]) && (ev[e + 1] matches SpecEvent::Text(
            t,
        ) && attrs_of(t) is Some)
    }
}

/// Whether every paragraph of the events ends, and an image that starts a
/// paragraph ends before the paragraph does.
pub open spec fn paragraphs_closed(ev: Seq<SpecEvent>) -> bool {
    forall|p: int|
        0 <= p < ev.len() && #[trigger] is_start_paragraph(ev[p]) ==> exists|q: int|
            p < q < ev.len() && #[trigger] is_end_paragraph(ev[q]) && (is_start_image(ev[p + 1])
                ==> exists|e: int| p + 2 <= e < q && #[trigger] is_end_image(ev[e]))
}

proof fn lemma_step_passes_event(ev: Seq<SpecEvent>, p: int)
    requires
        0 <= p < ev.len(),
        paragraphs_closed(ev),
        !figure_paragraph_at(ev, p),
    ensures
        auto_figure_step(ev, p) == Step::Emit(ev[p], p + 1),
{
    if is_start_paragraph(ev[p]) {
        let q = choose|q: int|
            p < q < ev.len() && #[trigger] is_end_paragraph(ev[q]) && (is_start_image(ev[p + 1])
                ==> exists|e: int| p + 2 <= e < q && #[trigger] is_end_image(ev[e]));
        if is_start_image(ev[p + 1]) {
            let e = choose|e: int| p + 2 <= e < q && #[trigger] is_end_image(ev[e]);
            lemma_first_image_end(ev, p + 2, e);
            let f = image_end(ev, p + 2)->0;
            assert(f <= e) by {
                if f > e {
                    assert(!is_end_image(ev[e]));
                }
            }
            if ev[f + 1] is Text {
                assert(f + 1 != q);
            }
        }
    }
}

proof fn lemma_transformed_suffix(ev: Seq<SpecEvent>, p: int)
    requires
        0 <= p <= ev.len(),
        paragraphs_closed(ev),
        forall|k: int| 0 <= k < ev.len() ==> !#[trigger] figure_paragraph_at(ev, k),
    ensures
        transformed_from(ev, p) == ev.subrange(p, ev.len() as int),
    decreases ev.len() - p,
{
    if p < ev.len() {
        assert(!figure_paragraph_at(ev, p));
        lemma_step_passes_event(ev, p);
        lemma_transformed_suffix(ev, p + 1);
        assert(ev.subrange(p, ev.len() as int) =~= seq![ev[p]] + ev.subrange(
            p + 1,
            ev.len() as int,
        ));
    } else {
        assert(ev.subrange(p, ev.len() as int) =~= Seq::<SpecEvent>::empty());
    }
}

/// Events in which every paragraph ends, an image that starts a paragraph
/// ending within it, and no paragraph has the shape of a figure, pass the
/// transformation unchanged: collecting it gives the same events in the same
/// order.
pub proof fn lemma_events_without_figures_pass_unchanged(ev: Seq<SpecEvent>)
    requires
        paragraphs_closed(ev),
        forall|k: int| 0 <= k < ev.len() ==> !#[trigger] figure_paragraph_at(ev, k),
    ensures
        transformed_from(ev, 0) == ev,
{
    lemma_transformed_suffix(ev, 0);
    assert(ev.subrange(0, ev.len() as int) =~= ev);
}

/// The highlight names every configuration is configured with, in index
/// order: a highlight of index `i` is rendered with the `i`-th of these.
#[verifier::rlimit(50)]
pub proof fn lemma_highlight_names_in_order()
    ensures
        all_highlight_names() == seq![
            "attribute"@, "boolean"@, "character"@, "comment"@, "comment.documentation"@,
            "constant"@, "constant.builtin"@, "define"@, "exception"@, "fold"@, "function"@,
            "function.builtin"@, "function.call"@, "function.macro"@, "indent.align"@,
            "indent.auto"@, "indent.begin"@, "indent.branch"@, "indent.dedent"@, "indent.end"@,
            "indent.ignore"@, "indent.zero"@, "injection.content"@, "injection.language"@,
            "keyword"@, "keyword.conditional"@, "keyword.conditional.ternary"@,
            "keyword.coroutine"@, "keyword.debug"@, "keyword.directive"@,
            "keyword.directive.define"@, "keyword.exception"@, "keyword.function"@,
            "keyword.import"@, "keyword.operator"@, "keyword.repeat"@, "keyword.return"@,
            "keyword.storage"@, "label"@, "local.definition"@, "local.definition.field"@,
            "local.definition.function"@, "local.definition.import"@,
            "local.definition.macro"@, "local.definition.method"@,
            "local.definition.namespace"@, "local.definition.parameter"@,
            "local.definition.type"@, "local.definition.var"@, "local.reference"@,
            "local.scope"@, "markup"@, "markup.caption"@, "markup.delete"@, "markup.fixme"@,
            "markup.footnote"@, "markup.footnote.definition"@, "markup.footnote.reference"@,
            "markup.heading.1"@, "markup.heading.2"@, "markup.heading.3"@, "markup.heading.4"@,
            "markup.heading.5"@, "markup.heading.6"@, "markup.highlighted"@, "markup.insert"@,
            "markup.italic"@, "markup.link.definition"@, "markup.link.label"@,
            "markup.link.reference"@, "markup.link.url"@, "markup.list"@,
            "markup.list.checked"@, "markup.list.unchecked"@, "markup.math"@, "markup.note"@,
            "markup.quote"@, "markup.raw"@, "markup.strong"@, "markup.subscript"@,
            "markup.superscript"@, "markup.symbol"@, "markup.todo"@, "module"@, "nospell"@,
            "number"@, "number.float"@, "operator"@, "property"@, "punctuation"@,
            "punctuation.bracket"@, "punctuation.delimiter"@, "punctuation.special"@, "spell"@,
            "string"@, "string.escape"@, "string.special"@, "tag"@, "tag.attribute"@,
            "tag.delimiter"@, "text.title"@, "type"@, "type.builtin"@, "type.definition"@,
            "type.qualifier"@, "variable"@, "variable.builtin"@, "variable.member"@,
            "variable.parameter"@
        ],
{
    assert(all_highlight_names() =~= seq![
            "attribute"@, "boolean"@, "character"@, "comment"@, "comment.documentation"@,
            "constant"@, "constant.builtin"@, "define"@, "exception"@, "fold"@, "function"@,
            "function.builtin"@, "function.call"@, "function.macro"@, "indent.align"@,
            "indent.auto"@, "indent.begin"@, "indent.branch"@, "indent.dedent"@, "indent.end"@,
            "indent.ignore"@, "indent.zero"@, "injection.content"@, "injection.language"@,
            "keyword"@, "keyword.conditional"@, "keyword.conditional.ternary"@,
            "keyword.coroutine"@, "keyword.debug"@, "keyword.directive"@,
            "keyword.directive.define"@, "keyword.exception"@, "keyword.function"@,
            "keyword.import"@, "keyword.operator"@, "keyword.repeat"@, "keyword.return"@,
            "keyword.storage"@, "label"@, "local.definition"@, "local.definition.field"@,
            "local.definition.function"@, "local.definition.import"@,
            "local.definition.macro"@, "local.definition.method"@,
            "local.definition.namespace"@, "local.definition.parameter"@,
            "local.definition.type"@, "local.definition.var"@, "local.reference"@,
            "local.scope"@, "markup"@, "markup.caption"@, "markup.delete"@, "markup.fixme"@,
            "markup.footnote"@, "markup.footnote.definition"@, "markup.footnote.reference"@,
            "markup.heading.1"@, "markup.heading.2"@, "markup.heading.3"@, "markup.heading.4"@,
            "markup.heading.5"@, "markup.heading.6"@, "markup.highlighted"@, "markup.insert"@,
            "markup.italic"@, "markup.link.definition"@, "markup.link.label"@,
            "markup.link.reference"@, "markup.link.url"@, "markup.list"@,
            "markup.list.checked"@, "markup.list.unchecked"@, "markup.math"@, "markup.note"@,
            "markup.quote"@, "markup.raw"@, "markup.strong"@, "markup.subscript"@,
            "markup.superscript"@, "markup.symbol"@, "markup.todo"@, "module"@, "nospell"@,
            "number"@, "number.float"@, "operator"@, "property"@, "punctuation"@,
            "punctuation.bracket"@, "punctuation.delimiter"@, "punctuation.special"@, "spell"@,
            "string"@, "string.escape"@, "string.special"@, "tag"@, "tag.attribute"@,
            "tag.delimiter"@, "text.title"@, "type"@, "type.builtin"@, "type.definition"@,
            "type.qualifier"@, "variable"@, "variable.builtin"@, "variable.member"@,
            "variable.parameter"@
    ]);
}

/// Out of the front matter, a line whose text ends in an image link
/// `![](...` completes exactly the images of the site, whatever other shape
/// (such as a relative link `](/`) the line also has.
pub proof fn lemma_image_links_complete_images(
    line: Seq<char>,
    row: usize,
    path: Seq<char>,
    site: Site,
)
    requires
        is_img_link(line),
        post_index_by_file(site.posts@, path) matches Some(p) && site.posts@[p].markup_lookup matches Some(
            lookup,
        ) && row >= lookup.markup_meta_line_count,
    ensures
        completion_items(line, row, path, site) == img_items(site),
{
}

/// The posts that the info of a tag carried by the posts `refs` lists are
/// those posts, in order: the `i`-th is the site's post `refs[i]`.
pub proof fn lemma_tag_info_lists_the_posts_carrying_it(tag: Tag, refs: Seq<usize>, site: Site)
    ensures
        tag_info_of(tag, refs, site).posts.len() == refs.len(),
        forall|i: int|
            0 <= i < refs.len() ==> #[trigger] tag_info_of(tag, refs, site).posts[i] == post_info_of(
                site.posts@[refs[i] as int],
            ),
{
}

/// The posts that the info of a series lists are the posts of the series,
/// in order: the `i`-th is the site's post `item.posts[i]`.
pub proof fn lemma_series_info_lists_its_posts(item: SeriesItem, site: Site)
    ensures
        series_info_of(item, site).posts.len() == item.posts@.len(),
        forall|i: int|
            0 <= i < item.posts@.len() ==> #[trigger] series_info_of(item, site).posts[i]
                == post_info_of(site.posts@[item.posts@[i] as int]),
{
}

/// A link to a fragment of the page itself is an error exactly where none
/// of the page's fragments is that very fragment; the error names it.
pub proof fn lemma_fragment_links_need_that_fragment(
    file: GeneratedFile,
    files: Seq<GeneratedFile>,
    f: String,
)
    ensures
        link_error(file, files, LinkTarget::Fragment(f)) == if exists|k: int|
            0 <= k < file.fragments@.len() && #[trigger] file.fragments@[k]@ == f@ {
            Seq::<SpecFileError>::empty()
        } else {
            seq![SpecFileError::LocalFragmentNotFound(f@)]
        },
{
}

/// A link to a fragment `fragment` of another page, found among `files` at
/// `i`, is an error exactly where none of that page's fragments is `#`
/// followed by `fragment`; the error names that and the page's path.
pub proof fn lemma_links_into_pages_need_that_fragment(
    file: GeneratedFile,
    files: Seq<GeneratedFile>,
    href: String,
    output_file: String,
    fragment: String,
    i: int,
)
    requires
        find_file(files, output_file@, 0) == Some(i),
    ensures
        link_error(
            file,
            files,
            LinkTarget::Internal { href, output_file, fragment: Some(fragment) },
        ) == if exists|k: int|
            0 <= k < files[i].fragments@.len() && #[trigger] files[i].fragments@[k]@ == "#"@
                + fragment@ {
            Seq::<SpecFileError>::empty()
        } else {
            seq![SpecFileError::OtherFragmentNotFound("#"@ + fragment@, files[i].path@)]
        },
{
}

/// An image paragraph whose caption is text and then inline code becomes a
/// figure whose caption is the text, escaped, then the code, escaped, inside
/// a `<code>` element.
pub proof fn lemma_code_in_a_caption_stays_code(
    dest: Seq<char>,
    title: Seq<char>,
    text: Seq<char>,
    code: Seq<char>,
)
    ensures
        ({
            let img = SpecTag::Image { dest, title };
            let ev = seq![
                SpecEvent::Start(SpecTag::Paragraph),
                SpecEvent::Start(img),
                SpecEvent::Text(text),
                SpecEvent::Code(code),
                SpecEvent::End(img),
                SpecEvent::End(SpecTag::Paragraph),
            ];
            auto_figure_step(ev, 0) == Step::Emit(
                SpecEvent::Html(
                    figure_html(
                        dest,
                        title,
                        None,
                        None,
                        escaped(text) + "<code>"@ + escaped(code) + "</code>"@,
                    ),
                ),
                6,
            )
        }),
{
    let img = SpecTag::Image { dest, title };
    let ev = seq![
        SpecEvent::Start(SpecTag::Paragraph),
        SpecEvent::Start(img),
        SpecEvent::Text(text),
        SpecEvent::Code(code),
        SpecEvent::End(img),
        SpecEvent::End(SpecTag::Paragraph),
    ];
    lemma_first_image_end(ev, 2, 4);
    assert(image_end(ev, 2) == Some(4int)) by {
        let f = image_end(ev, 2)->0;
        assert(!is_end_image(ev[2]));
        assert(!is_end_image(ev[3]));
        if f > 4 {
            assert(!is_end_image(ev[4]));
        }
    }
    let caption = ev.subrange(2, 4);
    let first = seq![SpecEvent::Text(text)];
    assert(caption.drop_last() =~= first);
    assert(first.drop_last() =~= Seq::<SpecEvent>::empty());
    assert(events_html(Seq::<SpecEvent>::empty()) =~= Seq::<char>::empty());
    assert(first.last() == SpecEvent::Text(text));
    assert(events_html(first) =~= escaped(text));
    assert(events_html(caption) =~= escaped(text) + "<code>"@ + escaped(code) + "</code>"@);
    assert(attr_value(seq![], "width"@) is None);
    assert(attr_value(seq![], "height"@) is None);
    assert(is_end_paragraph(ev[5]));
    assert(figure_of(ev, 0, 4, seq![]) == SpecEvent::Html(
        figure_html(dest, title, None, None, events_html(caption)),
    ));
}

/// The tag items list the tags of the site in order, each with the posts
/// that carry it.
pub proof fn lemma_tag_items_follow_the_tags(t: CompletionType, site: Site)
    ensures
        tag_items(t, site).len() == site.tags@.len(),
        forall|k: int|
            0 <= k < site.tags@.len() ==> #[trigger] tag_items(t, site)[k] == tag_item(
                t,
                tag_info_of(site.tags@[k].tag, site.tags@[k].posts@, site),
            ),
{
    reveal(tag_items);
}

/// The series items list the series of the site in order, each with its
/// own posts.
pub proof fn lemma_series_items_follow_the_series(t: CompletionType, site: Site)
    ensures
        series_items(t, site).len() == site.series@.len(),
        forall|k: int|
            0 <= k < site.series@.len() ==> #[trigger] series_items(t, site)[k] == series_item(
                t,
                series_info_of(site.series@[k], site),
            ),
{
    reveal(series_items);
}

/// The page a link leads to is the first of the pages whose path is exactly
/// the link's output file; there is none where no page has that path.
pub proof fn lemma_linked_page_has_that_path(files: Seq<GeneratedFile>, path: Seq<char>, from: int)
    requires
        0 <= from,
    ensures
        match find_file(files, path, from) {
            Some(i) => from <= i < files.len() && files[i].path@ == path && forall|j: int|
                from <= j < i ==> #[trigger] files[j].path@ != path,
            None => forall|j: int| from <= j < files.len() ==> #[trigger] files[j].path@ != path,
        },
    decreases files.len() - from,
{
    if from < files.len() && files[from].path@ != path {
        lemma_linked_page_has_that_path(files, path, from + 1);
    }
}

/// The HTML that one event makes in a caption: text and code escaped, code
/// inside `<code>`, emphasis and strong text inside their elements, a soft
/// break as a line feed, a hard break as `<br />` and a line feed, HTML as it
/// is, a paragraph inside `<p>`, and nothing for an image start.
pub open spec fn caption_event_html(e: SpecEvent) -> Seq<char> {
    match e {
        SpecEvent::Text(t) => escaped(t),
        SpecEvent::Code(c) => "<code>"@ + escaped(c) + "</code>"@,
        SpecEvent::Html(h) => h,
        SpecEvent::SoftBreak => "\n"@,
        SpecEvent::HardBreak => "<br />\n"@,
        SpecEvent::Start(SpecTag::Emphasis) => "<em>"@,
        SpecEvent::End(SpecTag::Emphasis) => "</em>"@,
        SpecEvent::Start(SpecTag::Strong) => "<strong>"@,
        SpecEvent::End(SpecTag::Strong) => "</strong>"@,
        SpecEvent::Start(SpecTag::Paragraph) => "<p>"@,
        SpecEvent::End(SpecTag::Paragraph) => "</p>\n"@,
        _ => seq![],
    }
}

/// An image paragraph whose caption is one event becomes a figure whose
/// caption is that event's HTML (`caption_event_html`).
pub proof fn lemma_caption_of_one_event(dest: Seq<char>, title: Seq<char>, e: SpecEvent)
    requires
        !is_end_image(e),
    ensures
        ({
            let img = SpecTag::Image { dest, title };
            let ev = seq![
                SpecEvent::Start(SpecTag::Paragraph),
                SpecEvent::Start(img),
                e,
                SpecEvent::End(img),
                SpecEvent::End(SpecTag::Paragraph),
            ];
            auto_figure_step(ev, 0) == Step::Emit(
                SpecEvent::Html(figure_html(dest, title, None, None, caption_event_html(e))),
                5,
            )
        }),
{
    let img = SpecTag::Image { dest, title };
    let ev = seq![
        SpecEvent::Start(SpecTag::Paragraph),
        SpecEvent::Start(img),
        e,
        SpecEvent::End(img),
        SpecEvent::End(SpecTag::Paragraph),
    ];
    lemma_first_image_end(ev, 2, 3);
    assert(image_end(ev, 2) == Some(3int)) by {
        let f = image_end(ev, 2)->0;
        assert(!is_end_image(ev[2]));
        if f > 3 {
            assert(!is_end_image(ev[3]));
        }
    }
    let caption = ev.subrange(2, 3);
    assert(caption.drop_last() =~= Seq::<SpecEvent>::empty());
    assert(events_html(Seq::<SpecEvent>::empty()) =~= Seq::<char>::empty());
    assert(caption.last() == e);
    assert(events_html(caption) =~= caption_event_html(e)) by {
        reveal_strlit("\n");
        reveal_strlit("<br />\n");
    }
    assert(attr_value(seq![], "width"@) is None);
    assert(attr_value(seq![], "height"@) is None);
    assert(is_end_paragraph(ev[4]));
}

} // verus!

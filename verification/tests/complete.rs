use jonashietala::complete::{complete, CompletionItemBuilder, CompletionType};
use jonashietala::content::{
    PostItem, ProjectsItem, RelPath, SeriesItem, Site, StandaloneItem, Tag, TagPosts,
};
use jonashietala::markup::{BrokenLink, Heading, LinkDef, MarkupLookup};
use jonashietala::messages::{
    BrokenLinkInfo, CompletionItem, CompletionItemKind, ConstantInfo, ExtraCompletionInfo,
    HeadingContext, HeadingInfo, ImgInfo, LinkDefInfo, PostInfo, StandaloneInfo,
};

/// A site shaped like the one the completion tests run against.
struct TestSite {
    site: Site,
}

impl TestSite {
    fn input_path(&self, rel: &str) -> String {
        format!("/test-site/input/{rel}")
    }
}

struct TestSiteBuilder {
    include_drafts: bool,
    generate_markup_lookup: bool,
}

fn tag(name: &str) -> Tag {
    Tag {
        id: name.to_string(),
        name: name.to_string(),
        url: format!("/blog/tags/{}", name.to_lowercase()),
    }
}

/// Text whose row `n` starts at character `n` (each of the first rows is empty).
fn rows(n: usize, rest: &str) -> String {
    let mut s = "\n".repeat(n);
    s.push_str(rest);
    s
}

impl TestSiteBuilder {
    fn build(self) -> Result<TestSite, String> {
        let input = |rel: &str| format!("/test-site/input/{rel}");

        // The post being edited: front matter of 5 rows, two headings, a
        // link definition and a broken link.
        let test_text = rows(40, "");
        let mut test_lookup = MarkupLookup::new(&test_text, 5);
        test_lookup.headings.push(Heading {
            id: "First".into(),
            content: "First".into(),
            level: 1,
            range: 10..11,
        });
        test_lookup.headings.push(Heading {
            id: "Second-level-header".into(),
            content: "Second level header".into(),
            level: 2,
            range: 30..31,
        });
        test_lookup.link_defs.push(LinkDef {
            label: "tag1".into(),
            url: "/uses".into(),
            range: 34..34,
        });
        test_lookup.broken_links.push(BrokenLink { tag: "broken_tag".into(), range: 32..33 });

        let feb_text = rows(20, "");
        let mut feb_lookup = MarkupLookup::new(&feb_text, 5);
        feb_lookup.headings.push(Heading {
            id: "heading-with-text".into(),
            content: "heading with text".into(),
            level: 1,
            range: 17..18,
        });

        let mut posts = vec![
            PostItem {
                title: "Test post".into(),
                path: input("posts/2022-01-31-test_post.dj"),
                created: "2022-01-31".into(),
                url: "/blog/2022/01/31/test_post".into(),
                tags: vec![tag("One"), tag("Two")],
                series: Some("myseries".into()),
                is_draft: false,
                markup_lookup: if self.generate_markup_lookup { Some(test_lookup) } else { None },
            },
            PostItem {
                title: "Feb post 1".into(),
                path: input("posts/2022-02-01-feb_post.dj"),
                created: "2022-02-01".into(),
                url: "/blog/2022/02/01/feb_post".into(),
                tags: vec![tag("One")],
                series: Some("myseries".into()),
                is_draft: false,
                markup_lookup: if self.generate_markup_lookup { Some(feb_lookup) } else { None },
            },
            PostItem {
                title: "Feb post 2".into(),
                path: input("posts/2022-02-02-feb_post2.dj"),
                created: "2022-02-02".into(),
                url: "/blog/2022/02/02/feb_post2".into(),
                tags: vec![tag("One"), tag("<Three>")],
                series: None,
                is_draft: false,
                markup_lookup: None,
            },
        ];
        if self.include_drafts {
            posts.push(PostItem {
                title: "Draft".into(),
                path: input("drafts/draft.dj"),
                created: "2022-03-01".into(),
                url: "/drafts/draft".into(),
                tags: vec![],
                series: None,
                is_draft: true,
                markup_lookup: None,
            });
        }
        let site = Site {
            posts,
            standalones: vec![StandaloneItem {
                title: "404".into(),
                url: "/404".into(),
                path: input("static/404.markdown"),
            }],
            series: vec![SeriesItem {
                id: "myseries".into(),
                title: "My series".into(),
                url: "/series/myseries".into(),
                path: input("series/myseries.markdown"),
                posts: vec![0, 1],
            }],
            tags: vec![
                TagPosts { tag: tag("One"), posts: vec![0, 1, 2] },
                TagPosts { tag: tag("Two"), posts: vec![0] },
                TagPosts { tag: tag("<Three>"), posts: vec![2] },
            ],
            projects: ProjectsItem { title: "Projects".into(), url: "/projects".into() },
            images: vec![RelPath("img.png".into()), RelPath("sub/pic.jpg".into())],
        };
        Ok(TestSite { site })
    }
}

fn find_insert_text<'a>(text: &str, items: &'a [CompletionItem]) -> Option<&'a CompletionItem> {
    items.iter().find(|item| item.insert_text.as_deref() == Some(text))
}

fn find_label<'a>(text: &str, items: &'a [CompletionItem]) -> Option<&'a CompletionItem> {
    items.iter().find(|item| item.label == text)
}

#[test]
fn test_rel_link_completion() -> Result<(), String> {
    let test_site = TestSiteBuilder { include_drafts: false, generate_markup_lookup: true }.build()?;

    let items = complete("](/", 0, 6, "posts/2022-01-31-test_post.dj", &test_site.site);

    assert_eq!(
        find_insert_text("/blog/2022/02/01/feb_post", &items),
        Some(&CompletionItem {
            label: "Feb post 1".into(),
            insert_text: Some("/blog/2022/02/01/feb_post".into()),
            filter_text: Some("/blog/2022/02/01/feb_post|Feb post 1".into()),
            kind: CompletionItemKind::File,
            info: Some(ExtraCompletionInfo::Post(PostInfo {
                title: "Feb post 1".into(),
                path: test_site.input_path("posts/2022-02-01-feb_post.dj").to_string(),
                created: "2022-02-01".to_string(),
                url: "/blog/2022/02/01/feb_post".to_string(),
                tags: vec!["One".to_string()],
                series: Some("myseries".to_string())
            }))
        })
    );

    let myseries = find_insert_text("/series/myseries", &items).expect("Should find `myseries`");
    assert_eq!(myseries.label, "My series");
    assert_eq!(myseries.insert_text, Some("/series/myseries".to_string()));
    assert_eq!(myseries.filter_text, Some("/series/myseries|My series".into()));
    assert_eq!(myseries.kind, CompletionItemKind::Module);
    let series_info = if let Some(ExtraCompletionInfo::Series(ref x)) = myseries.info {
        x
    } else {
        panic!("Wrong series info");
    };
    assert_eq!(series_info.id, "myseries");
    assert_eq!(series_info.title, "My series");
    assert_eq!(series_info.url, "/series/myseries");
    assert_eq!(series_info.path, test_site.input_path("series/myseries.markdown").as_str());
    assert_eq!(series_info.posts.len(), 2);

    let one = find_insert_text("/blog/tags/one", &items).expect("Should find tag `One`");
    assert_eq!(one.label, "One");
    assert_eq!(one.insert_text, Some("/blog/tags/one".to_string()));
    assert_eq!(one.filter_text, Some("/blog/tags/one|One".into()));
    assert_eq!(one.kind, CompletionItemKind::Folder);
    let one_info = if let Some(ExtraCompletionInfo::Tag(ref tag)) = one.info {
        tag
    } else {
        panic!("Wrong tag info");
    };
    assert_eq!(one_info.id, "One");
    assert_eq!(one_info.name, "One");
    assert_eq!(one_info.url, "/blog/tags/one");
    assert_eq!(one_info.posts.len(), 3);

    assert_eq!(
        find_insert_text("/404", &items),
        Some(&CompletionItem {
            label: "404".into(),
            insert_text: Some("/404".into()),
            filter_text: Some("/404|404".into()),
            kind: CompletionItemKind::File,
            info: Some(ExtraCompletionInfo::Standalone(StandaloneInfo {
                title: "404".into(),
                url: "/404".into(),
                path: test_site.input_path("static/404.markdown").to_string()
            }))
        })
    );

    assert_eq!(
        find_insert_text("/projects", &items),
        Some(&CompletionItem {
            label: "Projects".into(),
            insert_text: Some("/projects".into()),
            filter_text: Some("/projects|Projects".into()),
            kind: CompletionItemKind::Constant,
            info: Some(ExtraCompletionInfo::Constant(ConstantInfo {
                title: "Projects".into(),
                url: "/projects".into(),
            }))
        })
    );

    let def_items = complete("[tag]: /", 0, 6, "posts/2022-01-31-test_post.dj", &test_site.site);
    assert_eq!(items, def_items);

    let heading_items = complete(
        "](/blog/2022/02/01/feb_post#",
        0,
        6,
        "posts/2022-01-31-test_post.dj",
        &test_site.site,
    );

    assert_eq!(heading_items.len(), 1);

    assert_eq!(
        find_insert_text("heading-with-text", &heading_items),
        Some(&CompletionItem {
            label: "# heading with text".into(),
            insert_text: Some("heading-with-text".into()),
            filter_text: Some("heading with text".into()),
            kind: CompletionItemKind::Class,
            info: Some(ExtraCompletionInfo::Heading(HeadingInfo {
                id: "heading-with-text".into(),
                content: "heading with text".into(),
                level: 1,
                context: HeadingContext::OtherFile {
                    path: test_site.input_path("posts/2022-02-01-feb_post.dj").to_string(),
                    url: "/blog/2022/02/01/feb_post".into(),
                    start_row: 17,
                    end_row: 18
                }
            }))
        })
    );

    let def_heading_items = complete(
        "[tag]: /blog/2022/02/01/feb_post#",
        0,
        6,
        "posts/2022-01-31-test_post.dj",
        &test_site.site,
    );
    assert_eq!(heading_items, def_heading_items);

    Ok(())
}

#[test]
fn test_header_ref_completion() -> Result<(), String> {
    let test_site = TestSiteBuilder { include_drafts: false, generate_markup_lookup: true }.build()?;

    let items = complete("](#", 0, 6, "posts/2022-01-31-test_post.dj", &test_site.site);

    assert_eq!(items.len(), 2);

    assert_eq!(
        find_insert_text("Second-level-header", &items),
        Some(&CompletionItem {
            label: "## Second level header".into(),
            insert_text: Some("Second-level-header".into()),
            filter_text: Some("Second level header".into()),
            kind: CompletionItemKind::Class,
            info: Some(ExtraCompletionInfo::Heading(HeadingInfo {
                id: "Second-level-header".into(),
                content: "Second level header".into(),
                level: 2,
                context: HeadingContext::SameFile { start_row: 30, end_row: 31 }
            }))
        })
    );

    let def_items = complete("[tag]: #", 0, 6, "posts/2022-01-31-test_post.dj", &test_site.site);
    assert_eq!(items, def_items);

    Ok(())
}

#[test]
fn test_full_link_tag_completion() -> Result<(), String> {
    let test_site = TestSiteBuilder { include_drafts: false, generate_markup_lookup: true }.build()?;

    let items = complete("[some text][", 0, 6, "posts/2022-01-31-test_post.dj", &test_site.site);

    assert_eq!(items.len(), 1);

    let def = items.first().unwrap();
    assert_eq!(
        def,
        &CompletionItem {
            label: "tag1".into(),
            insert_text: Some("tag1".to_string()),
            filter_text: Some("/uses|tag1".into()),
            kind: CompletionItemKind::Reference,
            info: Some(ExtraCompletionInfo::LinkDef(LinkDefInfo {
                label: "tag1".into(),
                url: "/uses".into(),
                start_row: 34,
                end_row: 34
            }))
        }
    );

    Ok(())
}

#[test]
fn test_short_link_tag_completion() -> Result<(), String> {
    let test_site = TestSiteBuilder { include_drafts: false, generate_markup_lookup: true }.build()?;

    let items = complete(
        // Not the first in line, to only complete link def tags.
        "x [",
        0,
        6,
        "posts/2022-01-31-test_post.dj",
        &test_site.site,
    );

    assert_eq!(items.len(), 1);

    assert_eq!(
        find_insert_text("tag1", &items),
        Some(&CompletionItem {
            label: "tag1".into(),
            insert_text: Some("tag1".into()),
            filter_text: Some("/uses|tag1".into()),
            kind: CompletionItemKind::Reference,
            info: Some(ExtraCompletionInfo::LinkDef(LinkDefInfo {
                label: "tag1".into(),
                url: "/uses".into(),
                start_row: 34,
                end_row: 34
            }))
        })
    );

    // First in line, so we should complete broken link tags as well.
    let items = complete("[", 0, 6, "posts/2022-01-31-test_post.dj", &test_site.site);

    assert_eq!(items.len(), 2);

    assert_eq!(
        find_label("broken_tag", &items),
        Some(&CompletionItem {
            label: "broken_tag".into(),
            insert_text: None,
            filter_text: None,
            kind: CompletionItemKind::Field,
            info: Some(ExtraCompletionInfo::BrokenLink(BrokenLinkInfo {
                tag: "broken_tag".into(),
                row: 32
            }))
        })
    );

    Ok(())
}

#[test]
fn test_frontmatter_completion() -> Result<(), String> {
    let test_site = TestSiteBuilder { include_drafts: false, generate_markup_lookup: true }.build()?;

    let tags = complete("tags = ", 0, 0, "posts/2022-01-31-test_post.dj", &test_site.site);

    assert_eq!(tags.len(), 3);

    let one = find_insert_text("One", &tags).expect("Should find tag `One`");
    assert_eq!(one.label, "One");
    assert_eq!(one.insert_text, Some("One".to_string()));
    assert_eq!(one.filter_text, Some("/blog/tags/one|One".into()));
    assert_eq!(one.kind, CompletionItemKind::Folder);
    let one_info = if let Some(ExtraCompletionInfo::Tag(ref tag)) = one.info {
        tag
    } else {
        panic!("Wrong tag info");
    };
    assert_eq!(one_info.id, "One");
    assert_eq!(one_info.name, "One");
    assert_eq!(one_info.url, "/blog/tags/one");
    assert_eq!(one_info.posts.len(), 3);

    let series = complete("series = ", 0, 0, "posts/2022-01-31-test_post.dj", &test_site.site);

    assert_eq!(series.len(), 1);

    let myseries = find_insert_text("myseries", &series).expect("Should find `myseries`");
    assert_eq!(myseries.label, "My series");
    assert_eq!(myseries.insert_text, Some("myseries".to_string()));
    assert_eq!(myseries.filter_text, Some("/series/myseries|My series".into()));
    assert_eq!(myseries.kind, CompletionItemKind::Module);
    let series_info = if let Some(ExtraCompletionInfo::Series(ref x)) = myseries.info {
        x
    } else {
        panic!("Wrong series info");
    };
    assert_eq!(series_info.id, "myseries");
    assert_eq!(series_info.title, "My series");
    assert_eq!(series_info.url, "/series/myseries");
    assert_eq!(series_info.path, test_site.input_path("series/myseries.markdown").as_str());
    assert_eq!(series_info.posts.len(), 2);

    Ok(())
}

#[test]
fn frontmatter_other_lines_complete_nothing() {
    let test_site = TestSiteBuilder { include_drafts: false, generate_markup_lookup: true }
        .build()
        .unwrap();
    let items = complete("title = ", 0, 1, "posts/2022-01-31-test_post.dj", &test_site.site);
    assert!(items.is_empty());
    // The same shapes out of the front matter complete something else.
    let items = complete("[", 0, 1, "posts/2022-01-31-test_post.dj", &test_site.site);
    assert!(items.is_empty());
    let items = complete("tags: ", 0, 3, "posts/2022-01-31-test_post.dj", &test_site.site);
    assert_eq!(items.len(), 3);
}

#[test]
fn unknown_or_unparsed_files_complete_nothing() {
    let test_site = TestSiteBuilder { include_drafts: false, generate_markup_lookup: true }
        .build()
        .unwrap();
    assert!(complete("](/", 0, 6, "posts/unknown.dj", &test_site.site).is_empty());
    // A post without a parsed markup file.
    assert!(complete("](/", 0, 6, "posts/2022-02-02-feb_post2.dj", &test_site.site).is_empty());
    let unparsed = TestSiteBuilder { include_drafts: false, generate_markup_lookup: false }
        .build()
        .unwrap();
    assert!(complete("](/", 0, 6, "posts/2022-01-31-test_post.dj", &unparsed.site).is_empty());
}

#[test]
fn image_links_complete_images() {
    let test_site = TestSiteBuilder { include_drafts: false, generate_markup_lookup: true }
        .build()
        .unwrap();
    let items = complete("see ![](", 0, 6, "posts/2022-01-31-test_post.dj", &test_site.site);
    assert_eq!(
        items,
        vec![
            CompletionItem {
                label: "/images/img.png".into(),
                insert_text: None,
                filter_text: None,
                kind: CompletionItemKind::File,
                info: Some(ExtraCompletionInfo::Img(ImgInfo { url: "/images/img.png".into() })),
            },
            CompletionItem {
                label: "/images/sub/pic.jpg".into(),
                insert_text: None,
                filter_text: None,
                kind: CompletionItemKind::File,
                info: Some(ExtraCompletionInfo::Img(ImgInfo {
                    url: "/images/sub/pic.jpg".into()
                })),
            },
        ]
    );
    // A closed image link is no longer completed.
    let items = complete("![](/x.png) and ", 0, 6, "posts/2022-01-31-test_post.dj", &test_site.site);
    assert!(items.is_empty());
}

#[test]
fn drafts_are_never_offered() {
    let test_site = TestSiteBuilder { include_drafts: true, generate_markup_lookup: true }
        .build()
        .unwrap();
    let items = complete("](/", 0, 6, "posts/2022-01-31-test_post.dj", &test_site.site);
    assert!(find_insert_text("/drafts/draft", &items).is_none());
    // 3 posts, 1 standalone, 1 series, 3 tags and the projects page.
    assert_eq!(items.len(), 9);
    assert_eq!(items[0].label, "Test post");
    assert_eq!(items[8].label, "Projects");
}

#[test]
fn unknown_heading_target_completes_urls() {
    let test_site = TestSiteBuilder { include_drafts: false, generate_markup_lookup: true }
        .build()
        .unwrap();
    let all = complete("](/", 0, 6, "posts/2022-01-31-test_post.dj", &test_site.site);
    // No such post.
    let items = complete("](/nowhere#", 0, 6, "posts/2022-01-31-test_post.dj", &test_site.site);
    assert_eq!(items, all);
    // A known post that was not parsed.
    let items = complete(
        "[x]: /blog/2022/02/02/feb_post2#h",
        0,
        6,
        "posts/2022-01-31-test_post.dj",
        &test_site.site,
    );
    assert_eq!(items, all);
}

#[test]
fn builder_lays_out_tags_by_completion_type() {
    let test_site = TestSiteBuilder { include_drafts: false, generate_markup_lookup: true }
        .build()
        .unwrap();
    let site = &test_site.site;
    let t = &site.tags[2];
    let by_id = CompletionItemBuilder::new_tag(CompletionType::Id, &t.tag, &t.posts, site).into();
    let by_url = CompletionItemBuilder::new_tag(CompletionType::Url, &t.tag, &t.posts, site).into();
    assert_eq!(by_id.insert_text.as_deref(), Some("<Three>"));
    assert_eq!(by_url.insert_text.as_deref(), Some("/blog/tags/<three>"));
    assert_eq!(by_id.filter_text, by_url.filter_text);
    assert_eq!(by_id.filter_text.as_deref(), Some("/blog/tags/<three>|<Three>"));
    assert_eq!(by_id.kind, CompletionItemKind::Folder);
}

#[test]
fn heading_labels_repeat_the_level() {
    let info = HeadingInfo {
        id: "x".into(),
        content: "Deep".into(),
        level: 4,
        context: HeadingContext::SameFile { start_row: 1, end_row: 1 },
    };
    let item = CompletionItemBuilder::Heading(info).into();
    assert_eq!(item.label, "#### Deep");
    assert_eq!(item.filter_text.as_deref(), Some("Deep"));
    assert_eq!(item.insert_text.as_deref(), Some("x"));
}

#[test]
fn image_paths_join_like_paths() {
    let b = CompletionItemBuilder::new_img(RelPath("a/b.png".into())).into();
    assert_eq!(b.label, "/images/a/b.png");
    let b = CompletionItemBuilder::new_img(RelPath("/abs.png".into())).into();
    assert_eq!(b.label, "/abs.png");
}

#[test]
fn completion_item_kind_defaults_to_text() {
    assert_eq!(CompletionItemKind::default(), CompletionItemKind::Text);
}

use jonashietala::generated::{
    check_file, GeneratedFile, GeneratedFileError, ImgTarget, LinkTarget,
};

fn page(path: &str, content: &str, fragments: &[&str]) -> GeneratedFile {
    GeneratedFile {
        path: path.into(),
        content: content.into(),
        links: vec![],
        imgs: vec![],
        fragments: fragments.iter().map(|f| f.to_string()).collect(),
    }
}

#[test]
fn a_sound_page_has_no_errors() {
    let mut about = page("out/about/index.html", "<!DOCTYPE html><h2 id=\"me\">", &["#me"]);
    about.links = vec![
        LinkTarget::Internal {
            href: "/about#me".into(),
            output_file: "out/about/index.html".into(),
            fragment: Some("me".into()),
        },
        LinkTarget::Fragment("#me".into()),
        LinkTarget::External,
    ];
    about.imgs = vec![
        ImgTarget::Internal { href: "/images/a.png".into(), exists: true },
        ImgTarget::External,
    ];
    let files = vec![about.clone()];
    assert_eq!(check_file(&about, &files), vec![]);
}

#[test]
fn errors_come_in_order() {
    let other = page("out/other/index.html", "<!DOCTYPE html>", &["#there"]);
    let mut file = page(
        "out/index.html",
        "<html><p>[a link][ref] and [x][] but not [y] or [][z]</p>",
        &["#here"],
    );
    file.links = vec![
        LinkTarget::Fragment("#nowhere".into()),
        LinkTarget::Internal {
            href: "/missing".into(),
            output_file: "out/missing/index.html".into(),
            fragment: None,
        },
        LinkTarget::Internal {
            href: "/other#gone".into(),
            output_file: "out/other/index.html".into(),
            fragment: Some("gone".into()),
        },
        LinkTarget::Internal {
            href: "/other#there".into(),
            output_file: "out/other/index.html".into(),
            fragment: Some("there".into()),
        },
        LinkTarget::Fragment("#here".into()),
    ];
    file.imgs = vec![
        ImgTarget::Internal { href: "/images/gone.png".into(), exists: false },
        ImgTarget::Internal { href: "/images/here.png".into(), exists: true },
    ];
    let files = vec![file.clone(), other];
    assert_eq!(
        check_file(&file, &files),
        vec![
            GeneratedFileError::MissingDocType,
            GeneratedFileError::BrokenLink("[a link][ref]".into()),
            GeneratedFileError::BrokenLink("[x][]".into()),
            GeneratedFileError::LocalFragmentNotFound("#nowhere".into()),
            GeneratedFileError::UrlNotFound("/missing".into()),
            GeneratedFileError::OtherFragmentNotFound(
                "#gone".into(),
                "out/other/index.html".into()
            ),
            GeneratedFileError::LocalImgNotFound("/images/gone.png".into()),
        ]
    );
}

#[test]
fn the_doc_type_must_come_first() {
    let file = page("a.html", " <!DOCTYPE html>", &[]);
    assert_eq!(check_file(&file, &[]), vec![GeneratedFileError::MissingDocType]);
    let file = page("a.html", "<!DOCTYPE html", &[]);
    assert_eq!(check_file(&file, &[]), vec![GeneratedFileError::MissingDocType]);
    let file = page("a.html", "", &[]);
    assert_eq!(check_file(&file, &[]), vec![GeneratedFileError::MissingDocType]);
}

use paperoni::{get_header_level_toc_vec, Heading, HeadingLevel};

fn heading(level: HeadingLevel, text: &str, id: Option<&str>) -> Heading {
    Heading {
        level,
        text: text.to_string(),
        id: id.map(|s| s.to_string()),
    }
}

#[test]
fn test_get_header_level_toc_vec() {
    // A document with no headings yields an empty forest.
    let mut headings: Vec<Heading> = Vec::new();
    let toc_vec = get_header_level_toc_vec("index.xhtml", &mut headings);
    assert_eq!(0, toc_vec.len());

    // Levels 1, 2, 3, 1: the descents nest, the final level-1 heading
    // starts a second root.
    let mut headings = vec![
        heading(HeadingLevel::H1, "Heading 1", Some("heading-1")),
        heading(HeadingLevel::H2, "Heading 2", Some("heading-2")),
        heading(HeadingLevel::H3, "Subheading 3", Some("subheading-3")),
        heading(HeadingLevel::H1, "Second Heading 1", Some("heading-2")),
    ];
    let toc_vec = get_header_level_toc_vec("index.xhtml", &mut headings);
    assert_eq!(2, toc_vec.len());

    let first_h1_toc = toc_vec.first().unwrap();
    assert_eq!("Heading 1", first_h1_toc.title);
    assert_eq!(1, first_h1_toc.children.len());

    let h2_toc = first_h1_toc.children.first().unwrap();
    assert_eq!("Heading 2", h2_toc.title);
    assert_eq!(1, h2_toc.children.len());

    let h3_toc = h2_toc.children.first().unwrap();
    assert_eq!("Subheading 3", h3_toc.title);
    assert_eq!(0, h3_toc.children.len());

    let last_h1_toc = toc_vec.last().unwrap();
    assert_eq!("Second Heading 1", last_h1_toc.title);
    assert_eq!(0, last_h1_toc.children.len());

    // Levels 1, 2, 3, 2, 4, 2: one root with three children; only the
    // first child keeps a nested subheading.
    let mut headings = vec![
        heading(HeadingLevel::H1, "Heading 1", Some("heading-1")),
        heading(HeadingLevel::H2, "Heading 2", Some("heading-2")),
        heading(HeadingLevel::H3, "Subheading 3", Some("subheading-3")),
        heading(HeadingLevel::H2, "Heading 2", Some("heading-2")),
        heading(HeadingLevel::H4, "Subheading 4", Some("subheading-4")),
        heading(HeadingLevel::H2, "Conclusion", Some("conclusion")),
    ];
    let toc_vec = get_header_level_toc_vec("index.xhtml", &mut headings);
    assert_eq!(1, toc_vec.len());

    let h1_toc = toc_vec.first().unwrap();
    assert_eq!("Heading 1", h1_toc.title);
    assert_eq!(3, h1_toc.children.len());

    let first_h2_toc = h1_toc.children.first().unwrap();
    assert_eq!("Heading 2", first_h2_toc.title);
    assert_eq!(1, first_h2_toc.children.len());

    let h3_toc = first_h2_toc.children.first().unwrap();
    assert_eq!("Subheading 3", h3_toc.title);
    assert_eq!(0, h3_toc.children.len());
}

#[test]
fn test_toc_forest_distinct_texts() {
    // Levels 1, 2, 3, 1 with distinct texts: two roots; a chain of single
    // children under the first; nothing under the second.
    let mut headings = vec![
        heading(HeadingLevel::H1, "One", Some("a")),
        heading(HeadingLevel::H2, "Two", Some("b")),
        heading(HeadingLevel::H3, "Three", Some("c")),
        heading(HeadingLevel::H1, "Four", Some("d")),
    ];
    let toc_vec = get_header_level_toc_vec("index.xhtml", &mut headings);
    assert_eq!(2, toc_vec.len());
    assert_eq!(1, toc_vec[0].children.len());
    assert_eq!(1, toc_vec[0].children[0].children.len());
    assert_eq!(0, toc_vec[0].children[0].children[0].children.len());
    assert_eq!(0, toc_vec[1].children.len());
    assert_eq!("index.xhtml#a", toc_vec[0].url);
    assert_eq!("index.xhtml#c", toc_vec[0].children[0].children[0].url);
}

#[test]
fn test_toc_forest_ratchets_one_level() {
    // Levels 1, 2, 2, 4, 2: one root with exactly three children; the
    // level-4 heading nests under the second child, not deeper.
    let mut headings = vec![
        heading(HeadingLevel::H1, "A", Some("a")),
        heading(HeadingLevel::H2, "B", Some("b")),
        heading(HeadingLevel::H2, "C", Some("c")),
        heading(HeadingLevel::H4, "D", Some("d")),
        heading(HeadingLevel::H2, "E", Some("e")),
    ];
    let toc_vec = get_header_level_toc_vec("index.xhtml", &mut headings);
    assert_eq!(1, toc_vec.len());
    let root = &toc_vec[0];
    assert_eq!(3, root.children.len());
    assert_eq!("B", root.children[0].title);
    assert_eq!("C", root.children[1].title);
    assert_eq!("E", root.children[2].title);
    assert_eq!(1, root.children[1].children.len());
    assert_eq!("D", root.children[1].children[0].title);
}

#[test]
fn test_toc_assigns_missing_anchor_ids() {
    let mut headings = vec![heading(HeadingLevel::H1, "Heading 1", None)];
    let toc_vec = get_header_level_toc_vec("index.xhtml", &mut headings);
    assert_eq!(1, toc_vec.len());
    let expected = format!("index.xhtml#_{:x}", md5::compute("Heading 1"));
    assert_eq!(expected, toc_vec[0].url);
    assert_eq!(
        headings[0].id.as_deref(),
        Some(format!("_{:x}", md5::compute("Heading 1")).as_str())
    );
}

#[test]
fn test_toc_titles_are_escaped() {
    let mut headings = vec![heading(HeadingLevel::H1, "Q & A < B", Some("q"))];
    let toc_vec = get_header_level_toc_vec("index.xhtml", &mut headings);
    assert_eq!("Q &amp; A &lt; B", toc_vec[0].title);
}

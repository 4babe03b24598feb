use paperoni::{generate_header_ids, Heading, HeadingLevel};

fn heading(level: HeadingLevel, text: &str, id: Option<&str>) -> Heading {
    Heading {
        level,
        text: text.to_string(),
        id: id.map(|s| s.to_string()),
    }
}

#[test]
fn test_generate_header_ids() {
    let mut headings = vec![
        heading(HeadingLevel::H1, "Heading 1", None),
        heading(HeadingLevel::H2, "Heading 2", Some("heading-2")),
        heading(HeadingLevel::H2, "Heading 2 again", Some("heading-2-again")),
        heading(HeadingLevel::H4, "Heading 4", None),
        heading(HeadingLevel::H1, "Heading 1 again", None),
        heading(HeadingLevel::H3, "Heading 3", None),
    ];
    generate_header_ids(&mut headings);

    let all_headers_have_ids = headings.iter().all(|h| match &h.id {
        Some(id) => !id.trim().is_empty(),
        None => false,
    });
    assert_eq!(true, all_headers_have_ids);

    let expected = format!("_{:x}", md5::compute("Heading 1"));
    assert_eq!(true, headings[0].id.as_deref() == Some(expected.as_str()));

    let expected = format!("_{:x}", md5::compute("Heading 1 again"));
    assert_eq!(true, headings[4].id.as_deref() == Some(expected.as_str()));

    assert_eq!(true, headings[2].id.as_deref() == Some("heading-2-again"));
}

#[test]
fn test_pretagged_headings_untouched() {
    let mut headings = vec![
        heading(HeadingLevel::H1, "Tagged", Some("my-anchor")),
        heading(HeadingLevel::H2, "Untagged", None),
    ];
    generate_header_ids(&mut headings);
    assert_eq!(headings[0].id.as_deref(), Some("my-anchor"));
    assert!(headings[1].id.is_some());
    assert_ne!(headings[1].id.as_deref(), Some("my-anchor"));
}

#[test]
fn test_identical_text_identical_ids() {
    let mut headings = vec![
        heading(HeadingLevel::H1, "Same text", None),
        heading(HeadingLevel::H3, "Same text", None),
    ];
    generate_header_ids(&mut headings);
    assert!(headings[0].id.is_some());
    assert_eq!(headings[0].id, headings[1].id);
}

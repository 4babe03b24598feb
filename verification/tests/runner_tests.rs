use paperoni::{
    generate_epubs, run_merged, run_merged_with, run_standalone, AppConfig, Article, Container,
    DocumentBody, ErrorKind, Heading, HeadingLevel, ImageRef,
};

fn rendered_article(url: &str, title: &str) -> Article {
    Article {
        url: url.to_string(),
        title: title.to_string(),
        byline: Some("An Author".to_string()),
        headings: vec![Heading {
            level: HeadingLevel::H1,
            text: "Heading 1".to_string(),
            id: None,
        }],
        body: DocumentBody::Rendered(
            b"<html><body><h1>Heading 1</h1><p>Hello</p></body></html>".to_vec(),
        ),
        images: Vec::new(),
    }
}

fn failing_article(url: &str, title: &str) -> Article {
    Article {
        url: url.to_string(),
        title: title.to_string(),
        byline: None,
        headings: Vec::new(),
        body: DocumentBody::RenderFailed,
        images: Vec::new(),
    }
}

#[test]
fn test_standalone_isolates_failing_article() {
    let articles = vec![
        rendered_article("https://site.example/good", "Good Article"),
        failing_article("https://site.example/bad", "Bad Article"),
    ];
    let report = run_standalone(&articles);
    assert_eq!(1, report.outputs.len());
    assert_eq!("Good Article.epub", report.outputs[0].name);
    assert!(!report.outputs[0].bytes.is_empty());
    assert_eq!(1, report.errors.len());
    assert_eq!("https://site.example/bad", report.errors[0].source);
    assert!(report.errors[0].kind == ErrorKind::ContentSerialization);
    assert_eq!(vec!["Good Article".to_string()], report.successes);
    assert!(!report.is_success());
}

#[test]
fn test_merged_container_init_failure() {
    let articles = vec![
        rendered_article("https://site.example/1", "One"),
        rendered_article("https://site.example/2", "Two"),
    ];
    let report = run_merged_with(Option::<Container>::None, &articles, "merged.epub");
    assert_eq!(0, report.outputs.len());
    assert_eq!(0, report.successes.len());
    assert_eq!(1, report.errors.len());
    assert_eq!("merged.epub", report.errors[0].source);
    assert!(report.errors[0].kind == ErrorKind::ContainerInit);
}

#[test]
fn test_merged_happy_path() {
    let articles = vec![
        rendered_article("https://site.example/1", "One"),
        rendered_article("https://site.example/2", "Two"),
    ];
    let report = run_merged(&articles, "all-articles.epub");
    assert_eq!(1, report.outputs.len());
    assert_eq!("all-articles.epub", report.outputs[0].name);
    assert!(!report.outputs[0].bytes.is_empty());
    assert_eq!(0, report.errors.len());
    assert_eq!(
        vec!["One".to_string(), "Two".to_string()],
        report.successes
    );
    assert!(report.is_success());
}

#[test]
fn test_merged_records_failing_article_and_continues() {
    let articles = vec![
        failing_article("https://site.example/bad", "Bad"),
        rendered_article("https://site.example/good", "Good"),
    ];
    let report = run_merged(&articles, "all.epub");
    assert_eq!(1, report.outputs.len());
    assert_eq!(1, report.errors.len());
    assert_eq!("https://site.example/bad", report.errors[0].source);
    assert!(report.errors[0].kind == ErrorKind::ContentSerialization);
    assert_eq!(vec!["Good".to_string()], report.successes);
}

#[test]
fn test_standalone_missing_image_is_recorded() {
    let mut a = rendered_article("https://site.example/img", "With Image");
    a.images.push(ImageRef {
        filename: "pic.png".to_string(),
        mime: Some("image/png".to_string()),
        bytes: None,
    });
    let report = run_standalone(&vec![a]);
    assert_eq!(0, report.outputs.len());
    assert_eq!(1, report.errors.len());
    assert!(report.errors[0].kind == ErrorKind::MissingImageResource);
    assert_eq!("https://site.example/img", report.errors[0].source);
}

#[test]
fn test_standalone_embeds_present_image() {
    let mut a = rendered_article("https://site.example/img", "With Image");
    a.images.push(ImageRef {
        filename: "pic.png".to_string(),
        mime: Some("image/png".to_string()),
        bytes: Some(vec![0x89u8, 0x50, 0x4e, 0x47]),
    });
    let report = run_standalone(&vec![a]);
    assert_eq!(1, report.outputs.len());
    assert!(report.is_success());
}

#[test]
fn test_output_name_sanitizes_path_separators() {
    let a = rendered_article("https://site.example/s", "a/b\\c");
    let report = run_standalone(&vec![a]);
    assert_eq!(1, report.outputs.len());
    assert_eq!("a b c.epub", report.outputs[0].name);
}

#[test]
fn test_generate_epubs_selects_mode() {
    let articles = vec![rendered_article("https://site.example/1", "Solo")];
    let standalone_config = AppConfig {
        merged: None,
        can_disable_progress_bar: true,
    };
    let report = generate_epubs(&articles, &standalone_config);
    assert_eq!(1, report.outputs.len());
    assert_eq!("Solo.epub", report.outputs[0].name);

    let merged_config = AppConfig {
        merged: Some("book.epub".to_string()),
        can_disable_progress_bar: true,
    };
    let report = generate_epubs(&articles, &merged_config);
    assert_eq!(1, report.outputs.len());
    assert_eq!("book.epub", report.outputs[0].name);
}

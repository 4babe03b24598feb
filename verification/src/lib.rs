mod appendix;
mod article;
mod decimal;
mod epub;
mod errors;
mod escape;
mod heading;
mod runner;
mod toc;

pub use appendix::{appendix_link, appendix_links, appendix_spec, generate_appendix};
pub use article::{article_ref_views, image_present, Article, ArticleView, DocumentBody, ImageRef,
    ImageView};
pub use errors::{error_views, has_error, ErrorKind, ErrorRecord, ErrorRecordView};
pub use escape::{escape_char, escape_text, lemma_escape_clean_identity,
    replace_escaped_characters};
pub use epub::Container;
pub use heading::{anchor_id_of, generate_header_ids, heading_views,
    lemma_assignment_idempotent, lemma_identical_text_identical_ids, level_int, md5_hex_of,
    with_assigned_id, Heading, HeadingLevel, HeadingView};
pub use runner::{assemble_standalone_one, generate_epubs, is_article_title, is_article_url,
    is_output_name, run_merged, run_merged_with, run_standalone, sanitize_char, spec_output_name,
    AppConfig, OutputFile, RunReport};
pub use toc::{forest_views, get_header_level_toc_vec, lemma_build_toc_wf, spec_attach,
    spec_build_toc, spec_toc_node, spec_toc_step, toc_view, toc_wf, TocNode, TocState, TocView};

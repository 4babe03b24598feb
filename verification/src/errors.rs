use vstd::prelude::*;

verus! {

/// The kinds of failure the generation phase distinguishes.
#[derive(Clone, Copy, PartialEq, Eq, Structural, Debug)]
pub enum ErrorKind {
    /// The archive container could not be set up; fatal for the affected
    /// job, and for the whole run in merged mode.
    ContainerInit,
    /// The article's document tree could not be serialized; the article is
    /// skipped and the run continues.
    ContentSerialization,
    /// The container refused a metadata entry; the article is skipped.
    Metadata,
    /// An image expected from the earlier download phase is absent; the
    /// article is skipped and the failure recorded, so one bad image does
    /// not end the batch.
    MissingImageResource,
    /// The container failed while the archive was being written out; fatal
    /// for that archive.
    Finalize,
}

/// One recorded failure, tagged with the article URL or the merged archive
/// name it originated from. Records are only ever appended to the run's
/// error list.
pub struct ErrorRecord {
    pub source: String,
    pub kind: ErrorKind,
}

pub ghost struct ErrorRecordView {
    pub source: Seq<char>,
    pub kind: ErrorKind,
}

impl View for ErrorRecord {
    type V = ErrorRecordView;

    open spec fn view(&self) -> ErrorRecordView {
        ErrorRecordView { source: self.source@, kind: self.kind }
    }
}

pub open spec fn error_views(s: Seq<ErrorRecord>) -> Seq<ErrorRecordView> {
    s.map_values(|e: ErrorRecord| e@)
}

/// The error list holds a record with the given source and kind.
pub open spec fn has_error(errs: Seq<ErrorRecordView>, source: Seq<char>, kind: ErrorKind) -> bool {
    exists|j: int| 0 <= j < errs.len() && errs[j].source == source && errs[j].kind == kind
}

} // verus!

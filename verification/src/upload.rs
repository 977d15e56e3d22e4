//! What is copied to durable storage after a campaign.

use crate::paths::{
    artifact_file_name, artifact_path, artifact_suffix, file_name, log_path, suffix_of,
    ArtifactKind,
};
use vstd::prelude::*;
use vstd::string::StringExecFns;

verus! {

/// One file to copy: where it lies, and how the stored object is named and typed.
#[derive(Clone, Debug, PartialEq, Eq)]
pub struct UploadItem {
    /// The local file that is read in full.
    pub local_path: String,
    /// The name of the stored object: the file's own name.
    pub object_name: String,
    /// The content type that the object is tagged with.
    pub content_type: String,
}

/// The mathematical value of an [`UploadItem`].
pub struct UploadItemView {
    pub local_path: Seq<char>,
    pub object_name: Seq<char>,
    pub content_type: Seq<char>,
}

impl View for UploadItem {
    type V = UploadItemView;

    open spec fn view(&self) -> UploadItemView {
        UploadItemView {
            local_path: self.local_path@,
            object_name: self.object_name@,
            content_type: self.content_type@,
        }
    }
}

impl DeepView for UploadItem {
    type V = UploadItemView;

    open spec fn deep_view(&self) -> UploadItemView {
        self@
    }
}

/// Whether a bucket is configured: it is named, and the name is not empty.
pub open spec fn has_bucket(bucket: Option<Seq<char>>) -> bool {
    match bucket {
        Some(name) => name.len() > 0,
        None => false,
    }
}

/// The content type of an artifact.
pub open spec fn content_type_of(kind: ArtifactKind) -> Seq<char> {
    match kind {
        ArtifactKind::Report => "text/html"@,
        ArtifactKind::RequestLog => "text/csv"@,
    }
}

/// The upload of one artifact: its path, its file name as the object's name, and
/// its content type.
pub open spec fn upload_item_of(
    log_dir: Option<Seq<char>>,
    report_name: Option<Seq<char>>,
    iteration: nat,
    kind: ArtifactKind,
    compressed: bool,
) -> UploadItemView {
    UploadItemView {
        local_path: artifact_path(log_dir, report_name, iteration, kind, compressed),
        object_name: file_name(iteration, suffix_of(kind, compressed)),
        content_type: content_type_of(kind),
    }
}

/// The uploads that follow one campaign, in order: none without a bucket, else
/// the report and then the request log.
pub open spec fn upload_plan_of(
    bucket: Option<Seq<char>>,
    log_dir: Option<Seq<char>>,
    report_name: Option<Seq<char>>,
    iteration: nat,
    compressed: bool,
) -> Seq<UploadItemView> {
    if has_bucket(bucket) {
        seq![
            upload_item_of(log_dir, report_name, iteration, ArtifactKind::Report, compressed),
            upload_item_of(log_dir, report_name, iteration, ArtifactKind::RequestLog, compressed),
        ]
    } else {
        Seq::empty()
    }
}

/// The artifact that is uploaded after `kind`, if any.
pub open spec fn upload_after(kind: ArtifactKind) -> Option<ArtifactKind> {
    match kind {
        ArtifactKind::Report => Some(ArtifactKind::RequestLog),
        ArtifactKind::RequestLog => None,
    }
}

/// Whether a bucket is configured.
pub fn uploads_enabled(bucket: &Option<String>) -> (enabled: bool)
    ensures
        enabled == has_bucket(bucket.deep_view()),
{
    match bucket {
        Some(name) => !name.as_str().is_empty(),
        None => false,
    }
}

/// The content type of an artifact.
pub fn content_type(kind: ArtifactKind) -> (text: &'static str)
    ensures
        text@ == content_type_of(kind),
{
    match kind {
        ArtifactKind::Report => "text/html",
        ArtifactKind::RequestLog => "text/csv",
    }
}

/// The artifact that is uploaded after `kind`, if any.
pub fn next_upload(kind: ArtifactKind) -> (next: Option<ArtifactKind>)
    ensures
        next == upload_after(kind),
{
    match kind {
        ArtifactKind::Report => Some(ArtifactKind::RequestLog),
        ArtifactKind::RequestLog => None,
    }
}

/// The upload of one artifact.
pub fn upload_item(
    maybe_log_dir: &Option<String>,
    maybe_report_name: &Option<String>,
    iteration: usize,
    kind: ArtifactKind,
    compressed: bool,
) -> (item: UploadItem)
    ensures
        item@ == upload_item_of(
            maybe_log_dir.deep_view(),
            maybe_report_name.deep_view(),
            iteration as nat,
            kind,
            compressed,
        ),
{
    let suffix = artifact_suffix(kind, compressed);
    UploadItem {
        local_path: log_path(maybe_log_dir, maybe_report_name, iteration, suffix),
        object_name: artifact_file_name(iteration, suffix),
        content_type: String::from_str(content_type(kind)),
    }
}

/// The uploads that follow one campaign. The plan is empty exactly where no
/// bucket is configured.
pub fn upload_plan(
    maybe_bucket_name: &Option<String>,
    maybe_report_name: &Option<String>,
    maybe_log_dir: &Option<String>,
    iteration: usize,
    compressed: bool,
) -> (plan: Vec<UploadItem>)
    ensures
        plan.deep_view() == upload_plan_of(
            maybe_bucket_name.deep_view(),
            maybe_log_dir.deep_view(),
            maybe_report_name.deep_view(),
            iteration as nat,
            compressed,
        ),
        plan.len() == 0 <==> !has_bucket(maybe_bucket_name.deep_view()),
{
    let mut plan: Vec<UploadItem> = Vec::new();
    if uploads_enabled(maybe_bucket_name) {
        plan.push(
            upload_item(
                maybe_log_dir,
                maybe_report_name,
                iteration,
                ArtifactKind::Report,
                compressed,
            ),
        );
        plan.push(
            upload_item(
                maybe_log_dir,
                maybe_report_name,
                iteration,
                ArtifactKind::RequestLog,
                compressed,
            ),
        );
    }
    assert(plan.deep_view() =~= upload_plan_of(
        maybe_bucket_name.deep_view(),
        maybe_log_dir.deep_view(),
        maybe_report_name.deep_view(),
        iteration as nat,
        compressed,
    ));
    plan
}

} // verus!

//! Where a campaign keeps its artifacts.
//!
//! A path is a text whose segments are separated by `/`. All artifacts of a run
//! live in one log directory; each is named by its iteration, its kind and the
//! compression mode of the campaign that produced it.

use crate::decimal::{
    decimal, decimal_string, is_digit, lemma_decimal_digits, lemma_decimal_injective,
};
use vstd::prelude::*;
use vstd::string::{StrSliceExecFns, StringExecFns};

verus! {

/// The two files that one campaign leaves behind.
#[derive(Clone, Copy, Debug, PartialEq, Eq, Structural)]
pub enum ArtifactKind {
    /// The rendered report.
    Report,
    /// The log of every request that was sent.
    RequestLog,
}

/// The directory that is used where none is configured.
pub open spec fn default_log_dir() -> Seq<char> {
    "/tmp"@
}

/// The fixed ending of an artifact's file name.
pub open spec fn suffix_of(kind: ArtifactKind, compressed: bool) -> Seq<char> {
    match kind {
        ArtifactKind::Report => if compressed {
            "compressed-report.html"@
        } else {
            "report.html"@
        },
        ArtifactKind::RequestLog => if compressed {
            "compressed-requests.csv"@
        } else {
            "requests.csv"@
        },
    }
}

/// A separator is put behind a directory unless it is empty or already ends in one.
pub open spec fn needs_separator(base: Seq<char>) -> bool {
    base.len() > 0 && base.last() != '/'
}

/// `base` as a prefix to which a segment can be appended directly.
pub open spec fn as_prefix(base: Seq<char>) -> Seq<char> {
    if needs_separator(base) {
        base.push('/')
    } else {
        base
    }
}

/// `segment` below `base`: whatever the segment holds, it is appended to the
/// directory, behind a separator where `base` needs one. The directory is never
/// replaced.
pub open spec fn join(base: Seq<char>, segment: Seq<char>) -> Seq<char> {
    as_prefix(base) + segment
}

/// The directory from which a run starts: the configured one, or the default.
pub open spec fn base_dir(log_dir: Option<Seq<char>>) -> Seq<char> {
    match log_dir {
        Some(dir) => dir,
        None => default_log_dir(),
    }
}

/// The log directory: the configured one, or the default, and below it the
/// report name where there is one.
pub open spec fn logs_dir(log_dir: Option<Seq<char>>, report_name: Option<Seq<char>>) -> Seq<char> {
    match report_name {
        Some(name) => join(base_dir(log_dir), name),
        None => base_dir(log_dir),
    }
}

/// The name of an artifact's file: the iteration in decimal, a hyphen, the suffix.
pub open spec fn file_name(iteration: nat, suffix: Seq<char>) -> Seq<char> {
    decimal(iteration).push('-') + suffix
}

/// The path of the file with the given suffix for one iteration.
pub open spec fn suffixed_path(
    log_dir: Option<Seq<char>>,
    report_name: Option<Seq<char>>,
    iteration: nat,
    suffix: Seq<char>,
) -> Seq<char> {
    join(logs_dir(log_dir, report_name), file_name(iteration, suffix))
}

/// The path of one artifact.
pub open spec fn artifact_path(
    log_dir: Option<Seq<char>>,
    report_name: Option<Seq<char>>,
    iteration: nat,
    kind: ArtifactKind,
    compressed: bool,
) -> Seq<char> {
    suffixed_path(log_dir, report_name, iteration, suffix_of(kind, compressed))
}

/// The part of `path` behind its last separator; all of it where it has none.
pub open spec fn final_segment(path: Seq<char>) -> Seq<char>
    decreases path.len(),
{
    if path.len() == 0 {
        path
    } else if path.last() == '/' {
        Seq::empty()
    } else {
        final_segment(path.drop_last()).push(path.last())
    }
}

/// Whether no character of `text` is a separator.
pub open spec fn is_plain_segment(text: Seq<char>) -> bool {
    forall|i: int| 0 <= i < text.len() ==> #[trigger] text[i] != '/'
}

/// The four suffixes differ from each other: the suffix tells the kind and the mode.
pub proof fn lemma_suffixes_distinct(k1: ArtifactKind, c1: bool, k2: ArtifactKind, c2: bool)
    requires
        suffix_of(k1, c1) == suffix_of(k2, c2),
    ensures
        k1 == k2,
        c1 == c2,
{
    reveal_strlit("report.html");
    reveal_strlit("compressed-report.html");
    reveal_strlit("requests.csv");
    reveal_strlit("compressed-requests.csv");
    assert("report.html"@.len() == 11);
    assert("compressed-report.html"@.len() == 22);
    assert("requests.csv"@.len() == 12);
    assert("compressed-requests.csv"@.len() == 23);
}

/// No suffix holds a separator.
pub proof fn lemma_suffix_is_plain(kind: ArtifactKind, compressed: bool)
    ensures
        is_plain_segment(suffix_of(kind, compressed)),
{
    reveal_strlit("report.html");
    reveal_strlit("compressed-report.html");
    reveal_strlit("requests.csv");
    reveal_strlit("compressed-requests.csv");
}

/// A file name tells its iteration and its suffix: two file names are equal only
/// where both are.
pub proof fn lemma_file_name_injective(i1: nat, s1: Seq<char>, i2: nat, s2: Seq<char>)
    requires
        file_name(i1, s1) == file_name(i2, s2),
    ensures
        i1 == i2,
        s1 == s2,
{
    let a = decimal(i1);
    let b = decimal(i2);
    let left = file_name(i1, s1);
    let right = file_name(i2, s2);
    lemma_decimal_digits(i1);
    lemma_decimal_digits(i2);
    assert(left[a.len() as int] == '-');
    assert(right[b.len() as int] == '-');
    if a.len() < b.len() {
        assert(right[a.len() as int] == b[a.len() as int]);
        assert(is_digit(b[a.len() as int]));
    } else if b.len() < a.len() {
        assert(left[b.len() as int] == a[b.len() as int]);
        assert(is_digit(a[b.len() as int]));
    } else {
        let n = a.len() as int;
        assert(a =~= left.subrange(0, n));
        assert(b =~= right.subrange(0, n));
        lemma_decimal_injective(i1, i2);
        assert(s1 =~= left.subrange(n + 1, left.len() as int));
        assert(s2 =~= right.subrange(n + 1, right.len() as int));
    }
}

/// A file name is a single segment where its suffix is one.
pub proof fn lemma_file_name_is_plain(iteration: nat, suffix: Seq<char>)
    requires
        is_plain_segment(suffix),
    ensures
        is_plain_segment(file_name(iteration, suffix)),
{
    let digits = decimal(iteration);
    let name = file_name(iteration, suffix);
    lemma_decimal_digits(iteration);
    assert forall|i: int| 0 <= i < name.len() implies #[trigger] name[i] != '/' by {
        if i < digits.len() {
            assert(name[i] == digits[i]);
            assert(is_digit(digits[i]));
        } else if i == digits.len() {
            assert(name[i] == '-');
        } else {
            assert(name[i] == suffix[i - digits.len() - 1]);
        }
    }
}

/// What is joined to a directory lies below it: the directory is a prefix of the
/// result, whatever the segment holds.
pub proof fn lemma_join_keeps_base(base: Seq<char>, segment: Seq<char>)
    ensures
        base.is_prefix_of(join(base, segment)),
{
    assert(join(base, segment).subrange(0, base.len() as int) =~= base);
}

/// The log directory lies below the configured directory, or below the default
/// where none is configured, whatever the report name holds.
pub proof fn lemma_logs_dir_keeps_base(log_dir: Option<Seq<char>>, report_name: Option<Seq<char>>)
    ensures
        base_dir(log_dir).is_prefix_of(logs_dir(log_dir, report_name)),
        report_name is Some ==> logs_dir(log_dir, report_name) == as_prefix(base_dir(log_dir))
            + report_name.unwrap(),
{
    let base = base_dir(log_dir);
    match report_name {
        Some(name) => {
            lemma_join_keeps_base(base, name);
        },
        None => {
            assert(base.subrange(0, base.len() as int) =~= base);
        },
    }
}

/// Every artifact lies below the log directory, and so below the configured
/// directory.
pub proof fn lemma_artifact_path_keeps_dir(
    log_dir: Option<Seq<char>>,
    report_name: Option<Seq<char>>,
    iteration: nat,
    kind: ArtifactKind,
    compressed: bool,
)
    ensures
        logs_dir(log_dir, report_name).is_prefix_of(
            artifact_path(log_dir, report_name, iteration, kind, compressed),
        ),
        base_dir(log_dir).is_prefix_of(
            artifact_path(log_dir, report_name, iteration, kind, compressed),
        ),
{
    let dir = logs_dir(log_dir, report_name);
    let path = artifact_path(log_dir, report_name, iteration, kind, compressed);
    let base = base_dir(log_dir);
    lemma_join_keeps_base(dir, file_name(iteration, suffix_of(kind, compressed)));
    lemma_logs_dir_keeps_base(log_dir, report_name);
    assert(path.subrange(0, base.len() as int) =~= dir.subrange(0, base.len() as int));
}

/// Below one directory, two segments lead to the same path only where they are
/// the same segment.
pub proof fn lemma_join_injective(base: Seq<char>, x: Seq<char>, y: Seq<char>)
    requires
        join(base, x) == join(base, y),
    ensures
        x == y,
{
    let prefix = as_prefix(base);
    let n = prefix.len() as int;
    assert(x =~= (prefix + x).subrange(n, n + x.len()));
    assert(y =~= (prefix + y).subrange(n, n + y.len()));
    assert((prefix + x).len() == (prefix + y).len());
}

/// The final segment of a path that was made by joining a single segment to a
/// directory is that segment.
pub proof fn lemma_final_segment_of_join(base: Seq<char>, segment: Seq<char>)
    requires
        is_plain_segment(segment),
    ensures
        final_segment(join(base, segment)) == segment,
    decreases segment.len(),
{
    let prefix = as_prefix(base);
    if segment.len() == 0 {
        assert(prefix + segment =~= prefix);
        if prefix.len() > 0 {
            assert(prefix.last() == '/');
        }
        assert(final_segment(prefix) =~= segment);
    } else {
        let shorter = segment.drop_last();
        assert(segment[0] != '/');
        assert(segment[segment.len() - 1] != '/');
        assert forall|i: int| 0 <= i < shorter.len() implies #[trigger] shorter[i] != '/' by {
            assert(shorter[i] == segment[i]);
        }
        lemma_final_segment_of_join(base, shorter);
        assert((prefix + segment).drop_last() =~= prefix + shorter);
        assert((prefix + segment).last() == segment.last());
        assert(join(base, shorter) == prefix + shorter);
        assert(shorter.push(segment.last()) =~= segment);
    }
}

/// Under one log directory and report name, an artifact's path tells its
/// iteration, its kind and its compression mode: no two artifacts share a path.
pub proof fn lemma_artifact_path_injective(
    log_dir: Option<Seq<char>>,
    report_name: Option<Seq<char>>,
    i1: nat,
    k1: ArtifactKind,
    c1: bool,
    i2: nat,
    k2: ArtifactKind,
    c2: bool,
)
    requires
        artifact_path(log_dir, report_name, i1, k1, c1) == artifact_path(
            log_dir,
            report_name,
            i2,
            k2,
            c2,
        ),
    ensures
        i1 == i2,
        k1 == k2,
        c1 == c2,
{
    let dir = logs_dir(log_dir, report_name);
    let n1 = file_name(i1, suffix_of(k1, c1));
    let n2 = file_name(i2, suffix_of(k2, c2));
    lemma_join_injective(dir, n1, n2);
    lemma_file_name_injective(i1, suffix_of(k1, c1), i2, suffix_of(k2, c2));
    lemma_suffixes_distinct(k1, c1, k2, c2);
}

/// Campaigns with and without compression never write to the same file, whatever
/// their iterations and whichever artifacts are compared.
pub proof fn lemma_modes_never_collide(
    log_dir: Option<Seq<char>>,
    report_name: Option<Seq<char>>,
    i1: nat,
    k1: ArtifactKind,
    i2: nat,
    k2: ArtifactKind,
)
    ensures
        artifact_path(log_dir, report_name, i1, k1, false) != artifact_path(
            log_dir,
            report_name,
            i2,
            k2,
            true,
        ),
{
    if artifact_path(log_dir, report_name, i1, k1, false) == artifact_path(
        log_dir,
        report_name,
        i2,
        k2,
        true,
    ) {
        lemma_artifact_path_injective(log_dir, report_name, i1, k1, false, i2, k2, true);
    }
}

/// The final segment of an artifact's path is its file name.
pub proof fn lemma_artifact_file_name(
    log_dir: Option<Seq<char>>,
    report_name: Option<Seq<char>>,
    iteration: nat,
    kind: ArtifactKind,
    compressed: bool,
)
    ensures
        final_segment(artifact_path(log_dir, report_name, iteration, kind, compressed))
            == file_name(iteration, suffix_of(kind, compressed)),
{
    lemma_suffix_is_plain(kind, compressed);
    lemma_file_name_is_plain(iteration, suffix_of(kind, compressed));
    lemma_final_segment_of_join(
        logs_dir(log_dir, report_name),
        file_name(iteration, suffix_of(kind, compressed)),
    );
}

/// The file-name ending for an artifact kind and a compression mode.
pub fn artifact_suffix(kind: ArtifactKind, compressed: bool) -> (suffix: &'static str)
    ensures
        suffix@ == suffix_of(kind, compressed),
{
    match kind {
        ArtifactKind::Report => if compressed {
            "compressed-report.html"
        } else {
            "report.html"
        },
        ArtifactKind::RequestLog => if compressed {
            "compressed-requests.csv"
        } else {
            "requests.csv"
        },
    }
}

/// Puts `segment` below `base`.
pub fn join_path(base: &str, segment: &str) -> (path: String)
    ensures
        path@ == join(base@, segment@),
{
    let base_len: usize = base.unicode_len();
    let mut path = String::from_str(base);
    if base_len > 0 && base.get_char(base_len - 1) != '/' {
        proof {
            reveal_strlit("/");
        }
        path.append("/");
        assert(path@ =~= base@.push('/'));
    }
    path.append(segment);
    path
}

/// The directory in which a run keeps its artifacts.
pub fn compute_logs_path(maybe_log_dir: &Option<String>, maybe_report_name: &Option<String>) -> (path:
    String)
    ensures
        path@ == logs_dir(maybe_log_dir.deep_view(), maybe_report_name.deep_view()),
{
    let base = match maybe_log_dir {
        Some(dir) => dir.as_str(),
        None => "/tmp",
    };
    match maybe_report_name {
        Some(report_name) => join_path(base, report_name.as_str()),
        None => String::from_str(base),
    }
}

/// The name of the file with the given suffix for one iteration.
pub fn artifact_file_name(iteration: usize, suffix: &str) -> (name: String)
    ensures
        name@ == file_name(iteration as nat, suffix@),
{
    let mut name = decimal_string(iteration);
    proof {
        reveal_strlit("-");
    }
    name.append("-");
    assert(name@ =~= decimal(iteration as nat).push('-'));
    name.append(suffix);
    name
}

/// The path of the file with the given suffix for one iteration.
pub fn log_path(
    maybe_log_dir: &Option<String>,
    maybe_report_name: &Option<String>,
    iteration: usize,
    suffix: &str,
) -> (path: String)
    ensures
        path@ == suffixed_path(
            maybe_log_dir.deep_view(),
            maybe_report_name.deep_view(),
            iteration as nat,
            suffix@,
        ),
{
    let dir = compute_logs_path(maybe_log_dir, maybe_report_name);
    let name = artifact_file_name(iteration, suffix);
    join_path(dir.as_str(), name.as_str())
}

/// The path of the report of one iteration.
pub fn report_log_path(
    maybe_log_dir: &Option<String>,
    maybe_report_name: &Option<String>,
    iteration: usize,
    compressed: bool,
) -> (path: String)
    ensures
        path@ == artifact_path(
            maybe_log_dir.deep_view(),
            maybe_report_name.deep_view(),
            iteration as nat,
            ArtifactKind::Report,
            compressed,
        ),
{
    let suffix = artifact_suffix(ArtifactKind::Report, compressed);
    log_path(maybe_log_dir, maybe_report_name, iteration, suffix)
}

/// The path of the request log of one iteration.
pub fn request_log_path(
    maybe_log_dir: &Option<String>,
    maybe_report_name: &Option<String>,
    iteration: usize,
    compressed: bool,
) -> (path: String)
    ensures
        path@ == artifact_path(
            maybe_log_dir.deep_view(),
            maybe_report_name.deep_view(),
            iteration as nat,
            ArtifactKind::RequestLog,
            compressed,
        ),
{
    let suffix = artifact_suffix(ArtifactKind::RequestLog, compressed);
    log_path(maybe_log_dir, maybe_report_name, iteration, suffix)
}

} // verus!

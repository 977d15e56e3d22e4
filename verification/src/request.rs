//! What a run is asked to do, and the engine configuration of one campaign.

use crate::paths::{artifact_path, report_log_path, request_log_path, ArtifactKind};
use vstd::prelude::*;

verus! {

/// How many campaigns run per compression mode where no count is given.
pub const DEFAULT_ITERATIONS: usize = 1;

/// The parameters of a run. They are fixed once and never change while it lasts.
#[derive(Clone, Debug, PartialEq, Eq)]
pub struct RunRequest {
    /// The host under test.
    pub host: String,
    /// How many clients are simulated.
    pub users: usize,
    /// The time over which the clients are started, as the engine reads it.
    pub start_time: String,
    /// The time for which all clients run, as the engine reads it.
    pub run_time: String,
    /// How many campaigns run per compression mode.
    pub iterations: usize,
    /// Whether compression was asked for.
    pub compress: bool,
    /// The directory for the artifacts; the default directory where absent.
    pub log_dir: Option<String>,
    /// A directory below the log directory that sets this run apart.
    pub report_name: Option<String>,
    /// The bucket that takes the artifacts; nothing is uploaded where it is
    /// absent or empty.
    pub bucket: Option<String>,
}

/// The mathematical value of a [`RunRequest`].
pub struct RunRequestView {
    pub host: Seq<char>,
    pub users: usize,
    pub start_time: Seq<char>,
    pub run_time: Seq<char>,
    pub iterations: usize,
    pub compress: bool,
    pub log_dir: Option<Seq<char>>,
    pub report_name: Option<Seq<char>>,
    pub bucket: Option<Seq<char>>,
}

impl View for RunRequest {
    type V = RunRequestView;

    open spec fn view(&self) -> RunRequestView {
        RunRequestView {
            host: self.host@,
            users: self.users,
            start_time: self.start_time@,
            run_time: self.run_time@,
            iterations: self.iterations,
            compress: self.compress,
            log_dir: self.log_dir.deep_view(),
            report_name: self.report_name.deep_view(),
            bucket: self.bucket.deep_view(),
        }
    }
}

/// The formats in which the engine writes its request log.
#[derive(Clone, Copy, Debug, PartialEq, Eq, Structural)]
pub enum LogFormat {
    Csv,
    Json,
    Raw,
    Pretty,
}

/// The configuration that the engine is handed for one campaign.
#[derive(Clone, Debug, PartialEq, Eq)]
pub struct CampaignConfig {
    /// The host under test.
    pub host: String,
    /// How many clients are simulated.
    pub users: usize,
    /// The time over which the clients are started.
    pub startup_time: String,
    /// The time for which all clients run.
    pub run_time: String,
    /// Where the engine writes its report.
    pub report_file: String,
    /// Where the engine writes its request log.
    pub request_log: String,
    /// The format of the request log.
    pub request_format: LogFormat,
}

/// The mathematical value of a [`CampaignConfig`].
pub struct CampaignConfigView {
    pub host: Seq<char>,
    pub users: nat,
    pub startup_time: Seq<char>,
    pub run_time: Seq<char>,
    pub report_file: Seq<char>,
    pub request_log: Seq<char>,
    pub request_format: LogFormat,
}

impl View for CampaignConfig {
    type V = CampaignConfigView;

    open spec fn view(&self) -> CampaignConfigView {
        CampaignConfigView {
            host: self.host@,
            users: self.users as nat,
            startup_time: self.startup_time@,
            run_time: self.run_time@,
            report_file: self.report_file@,
            request_log: self.request_log@,
            request_format: self.request_format,
        }
    }
}

/// The iteration count that a run uses: the given one, or the default.
pub open spec fn iterations_of(given: Option<usize>) -> usize {
    match given {
        Some(count) => count,
        None => DEFAULT_ITERATIONS,
    }
}

/// The engine configuration of one campaign: host, client count and timing come
/// from the request, both output files are the artifacts of this iteration and
/// mode, and the request log is written as CSV.
pub open spec fn config_of(request: RunRequestView, iteration: nat, compressed: bool) -> CampaignConfigView {
    CampaignConfigView {
        host: request.host,
        users: request.users as nat,
        startup_time: request.start_time,
        run_time: request.run_time,
        report_file: artifact_path(
            request.log_dir,
            request.report_name,
            iteration,
            ArtifactKind::Report,
            compressed,
        ),
        request_log: artifact_path(
            request.log_dir,
            request.report_name,
            iteration,
            ArtifactKind::RequestLog,
            compressed,
        ),
        request_format: LogFormat::Csv,
    }
}

/// The iteration count that a run uses: the given one, or the default.
pub fn iterations_or_default(given: Option<usize>) -> (count: usize)
    ensures
        count == iterations_of(given),
{
    match given {
        Some(count) => count,
        None => DEFAULT_ITERATIONS,
    }
}

impl RunRequest {
    /// A request from the values of a command line. A missing iteration count
    /// means the default, a missing compression flag means none.
    pub fn new(
        host: String,
        users: usize,
        start_time: String,
        run_time: String,
        bucket: Option<String>,
        report_name: Option<String>,
        log_dir: Option<String>,
        iterations: Option<usize>,
        compress: Option<bool>,
    ) -> (request: RunRequest)
        ensures
            request@ == (RunRequestView {
                host: host@,
                users,
                start_time: start_time@,
                run_time: run_time@,
                iterations: iterations_of(iterations),
                compress: compress == Some(true),
                log_dir: log_dir.deep_view(),
                report_name: report_name.deep_view(),
                bucket: bucket.deep_view(),
            }),
    {
        let compress = match compress {
            Some(flag) => flag,
            None => false,
        };
        RunRequest {
            host,
            users,
            start_time,
            run_time,
            iterations: iterations_or_default(iterations),
            compress,
            log_dir,
            report_name,
            bucket,
        }
    }
}

/// The engine configuration of one campaign, built afresh for its iteration.
pub fn campaign_config(request: &RunRequest, iteration: usize, compressed: bool) -> (config:
    CampaignConfig)
    ensures
        config@ == config_of(request@, iteration as nat, compressed),
{
    CampaignConfig {
        host: request.host.clone(),
        users: request.users,
        startup_time: request.start_time.clone(),
        run_time: request.run_time.clone(),
        report_file: report_log_path(&request.log_dir, &request.report_name, iteration, compressed),
        request_log: request_log_path(
            &request.log_dir,
            &request.report_name,
            iteration,
            compressed,
        ),
        request_format: LogFormat::Csv,
    }
}

} // verus!

//! What the index page answers, decided from what reading the data file gave.

use crate::config::Configuration;
use crate::config::ConfigurationView;
use crate::context::build_context;
use crate::context::context_of;
use crate::context::RenderContext;
use crate::snapshot::bytes_view;
use crate::snapshot::snapshot_outcome;
use crate::snapshot::snapshot_result_view;
use crate::snapshot::take_snapshot;
use crate::snapshot::time_outcome;
use crate::snapshot::utc_date_text;
use crate::snapshot::FileTime;
use crate::snapshot::Snapshot;
use crate::snapshot::SnapshotError;
use crate::snapshot::SnapshotView;
use vstd::prelude::*;
use vstd::utf8::decode_utf8;
use vstd::utf8::valid_utf8;

verus! {

/// The status of a page that was served.
pub const STATUS_OK: u16 = 200;

/// The status of a request that failed on the server's side.
pub const STATUS_INTERNAL_ERROR: u16 = 500;

/// What a request for the index page is answered with.
#[derive(Debug)]
pub enum PageOutcome {
    /// The named template is to be rendered with the context, and its markup
    /// sent with status 200.
    Render { template: &'static str, context: RenderContext },
    /// The request failed and is answered with the status alone; the service
    /// goes on.
    Failure { status: u16, cause: SnapshotError },
}

/// The mathematical value of a [`PageOutcome`].
pub enum PageOutcomeView {
    Render { template: Seq<char>, context: Map<Seq<char>, Seq<char>> },
    Failure { status: int, cause: SnapshotError },
}

impl View for PageOutcome {
    type V = PageOutcomeView;

    open spec fn view(&self) -> PageOutcomeView {
        match *self {
            PageOutcome::Render { template, context } => PageOutcomeView::Render {
                template: template@,
                context: context@,
            },
            PageOutcome::Failure { status, cause } => PageOutcomeView::Failure {
                status: status as int,
                cause,
            },
        }
    }
}

/// The answer that follows from a snapshot, or from the failure to take one.
pub open spec fn outcome_of_snapshot(
    cfg: ConfigurationView,
    snap: Result<SnapshotView, SnapshotError>,
) -> PageOutcomeView {
    match snap {
        Ok(s) => PageOutcomeView::Render { template: "index"@, context: context_of(cfg, s) },
        Err(e) => PageOutcomeView::Failure { status: 500, cause: e },
    }
}

/// The answer to one request for the index page: a function of the
/// configuration and of what reading the data file gave, and of nothing else.
pub open spec fn index_outcome(
    cfg: ConfigurationView,
    contents: Option<Seq<u8>>,
    modified: Option<FileTime>,
) -> PageOutcomeView {
    outcome_of_snapshot(cfg, snapshot_outcome(contents, modified))
}

impl PageOutcome {
    /// The HTTP status that the outcome is sent with.
    pub fn status(&self) -> (code: u16)
        ensures
            code == match *self {
                PageOutcome::Render { .. } => 200u16,
                PageOutcome::Failure { status, .. } => status,
            },
    {
        match self {
            PageOutcome::Render { .. } => STATUS_OK,
            PageOutcome::Failure { status, .. } => *status,
        }
    }
}

/// Decides the answer from a snapshot of the data file, or from the failure
/// to take one. A snapshot gives the page, under the template `index`; any
/// failure gives status 500.
pub fn outcome_for(cfg: &Configuration, snap: Result<Snapshot, SnapshotError>) -> (out: PageOutcome)
    ensures
        out@ == outcome_of_snapshot(cfg@, snapshot_result_view(snap)),
{
    match snap {
        Ok(s) => PageOutcome::Render { template: "index", context: build_context(cfg, s) },
        Err(e) => PageOutcome::Failure { status: STATUS_INTERNAL_ERROR, cause: e },
    }
}

/// Answers one request for the index page.
///
/// `contents` holds the data file's bytes and `modified` its modification
/// time, both as read for this request; each is `None` where the file system
/// refused. Nothing is kept between calls.
pub fn index_page(cfg: &Configuration, contents: Option<Vec<u8>>, modified: Option<FileTime>) -> (out:
    PageOutcome)
    ensures
        out@ == index_outcome(cfg@, bytes_view(contents), modified),
{
    outcome_for(cfg, take_snapshot(contents, modified))
}

/// A readable file of valid text, modified on a day within the calendar, is
/// answered with the page: status 200 in place of a failure, the template
/// `index`, and a context that holds the two coordinates as configured, the
/// exact text of the file and the UTC day of its modification.
pub proof fn lemma_readable_file_is_served(cfg: ConfigurationView, bytes: Seq<u8>, time: FileTime)
    requires
        valid_utf8(bytes),
        time_outcome(time) is Ok,
    ensures
        index_outcome(cfg, Some(bytes), Some(time)) == (PageOutcomeView::Render {
            template: "index"@,
            context: map![
                "latitude"@ => cfg.latitude,
                "longitude"@ => cfg.longitude,
                "data"@ => decode_utf8(bytes),
                "time"@ => time_outcome(time).unwrap(),
            ],
        }),
{
}

/// On every page that is served, `time` is the UTC day of the second in
/// which the file was last modified. It follows from that second alone, so
/// the time zone of the machine has no part in it.
pub proof fn lemma_time_is_day_of_modification(
    cfg: ConfigurationView,
    contents: Option<Seq<u8>>,
    time: FileTime,
)
    requires
        index_outcome(cfg, contents, Some(time)) is Render,
    ensures
        i64::MIN <= time.epoch_seconds() <= i64::MAX,
        utc_date_text(time.epoch_seconds()) is Some,
        index_outcome(cfg, contents, Some(time)) matches PageOutcomeView::Render { context, .. }
            && context.contains_key("time"@) && context["time"@] == utc_date_text(
            time.epoch_seconds(),
        ).unwrap(),
{
}

/// A file that cannot be read, or whose metadata cannot be had, is answered
/// with status 500, and that failure leaves no trace: the same configuration
/// serves the page again as soon as the file can be read.
pub proof fn lemma_failure_does_not_outlast_its_request(
    cfg: ConfigurationView,
    contents: Option<Seq<u8>>,
    modified: Option<FileTime>,
    bytes: Seq<u8>,
    time: FileTime,
)
    requires
        contents is None || modified is None,
        valid_utf8(bytes),
        time_outcome(time) is Ok,
    ensures
        index_outcome(cfg, contents, modified) matches PageOutcomeView::Failure { status, cause }
            && status == 500 && (cause == SnapshotError::Unreadable || cause
            == SnapshotError::TimeOutOfRange),
        index_outcome(cfg, Some(bytes), Some(time)) is Render,
{
}

/// Two requests that see the same configuration and the same file are
/// answered alike.
pub proof fn lemma_same_file_same_answer(
    cfg_a: Configuration,
    contents_a: Option<Vec<u8>>,
    modified_a: Option<FileTime>,
    cfg_b: Configuration,
    contents_b: Option<Vec<u8>>,
    modified_b: Option<FileTime>,
)
    requires
        cfg_a@ == cfg_b@,
        bytes_view(contents_a) == bytes_view(contents_b),
        modified_a == modified_b,
    ensures
        index_outcome(cfg_a@, bytes_view(contents_a), modified_a) == index_outcome(
            cfg_b@,
            bytes_view(contents_b),
            modified_b,
        ),
{
}

} // verus!

//! A printer service that keeps its jobs in a bounded cache and hands each
//! document to a sink.
use crate::attribute::{
    attribute_views, found, taken, with_attributes, AttributeView, GroupView, IppAttribute,
    IppAttributeGroup, IppAttributes,
};
use crate::error::{IppError, IppErrorView};
use crate::model::{DelimiterTag, IppVersion, JobState, Operation, WhichJob};
use crate::request::{
    add_basic_attributes, basic_group, charset_attribute, language_attribute,
    lemma_with_basic_again, message_view, plain_response, IppPayload, IppRequestResponse,
    MessageView,
};
use crate::service::common::{
    answer, build_error_response, error_response, handled_response, operation_not_supported,
    reply_for, DocumentTask, DocumentTicket, IppReply, IppResult, IppService, ReplyView,
    ServiceError, ServiceErrorView, TaskView, TicketView,
};
use crate::service::info::{contains_string, optional_view, strings_view, PrinterInfoView};
use crate::service::job::{
    job_attribute_list, job_attributes, job_path, job_template, lemma_found_after_template,
    lemma_lite_names_distinct, lemma_template_after_taken, lite_job_attributes, lite_job_list,
    DocumentView, JobAttributesView, JobInfo, JobInfoView,
};
use crate::service::printer::{
    make_url, printer_attribute_list, printer_attributes, security, security_of, url,
};
use crate::service::store::{
    cache_entries, cache_get, cache_insert, cache_limits, cached_jobs, held_within, job_cache,
};
use crate::status::StatusCode;
use crate::text::{append_decimal, str_eq};
use crate::utils::{
    decommpress_payload, decompressed, get_requested_attributes, lemma_found_after_taken,
    requested_names, take_ipp_attribute, take_requesting_user_name, user_name, NameSet,
};
use crate::value::{IppValue, IppValueView};
use vstd::prelude::*;

pub use crate::service::info::{PrinterInfo, PrinterInfoBuilder};
pub use crate::service::job::{SimpleIppDocument, SimpleIppJobAttributes};

verus! {

/// What the service reads of the HTTP request that carried an IPP request:
/// the scheme of its URI, and the time at which it came, in whole seconds
/// since the server started.
#[derive(Debug, Clone, PartialEq, Eq)]
pub struct RequestHead {
    pub scheme: Option<String>,
    pub uptime: u64,
}

/// What a [`RequestHead`] stands for.
pub struct HeadView {
    pub scheme: Option<Seq<char>>,
    pub uptime: u64,
}

impl View for RequestHead {
    type V = HeadView;

    open spec fn view(&self) -> HeadView {
        HeadView { scheme: optional_view(self.scheme), uptime: self.uptime }
    }
}

/// The number of jobs that the cache holds at most.
pub const JOB_CACHE_CAPACITY: u64 = 1000;

/// The time that the cache keeps a job after it was put in: fifteen minutes, in seconds.
pub const JOB_TIME_TO_LIVE: u64 = 900;

/// The id of the first job of a server.
pub const FIRST_JOB_ID: i32 = 1000;

/// The printer service: the printer's configuration, where the server is
/// found, the id of the next job, and the cache of jobs.
pub struct SimpleIppService {
    job_id: i32,
    job_snapshot: moka::sync::Cache<i32, JobInfo>,
    host: String,
    basepath: String,
    info: PrinterInfo,
}

/// What a [`SimpleIppService`] stands for. `jobs` holds each job that the
/// cache may still give out, under its id.
pub struct ServiceView {
    pub next_job_id: i32,
    pub jobs: Map<i32, JobInfoView>,
    pub job_capacity: u64,
    pub job_time_to_live: u64,
    pub host: Seq<char>,
    pub basepath: Seq<char>,
    pub info: PrinterInfoView,
}

impl View for SimpleIppService {
    type V = ServiceView;

    closed spec fn view(&self) -> ServiceView {
        ServiceView {
            next_job_id: self.job_id,
            jobs: cached_jobs(self.job_snapshot),
            job_capacity: cache_limits(self.job_snapshot).0,
            job_time_to_live: cache_limits(self.job_snapshot).1,
            host: self.host@,
            basepath: self.basepath@,
            info: self.info@,
        }
    }
}

/// The id after `id`. Ids are counted in thirty-two bits, and the count
/// starts over below zero after the largest.
pub open spec fn next_id(id: i32) -> i32 {
    if id == i32::MAX {
        i32::MIN
    } else {
        (id + 1) as i32
    }
}

impl ServiceView {
    /// The URL of the printer, as a request that came by `h` sees it.
    pub open spec fn printer_uri(self, h: HeadView) -> Seq<char> {
        url(h.scheme, self.host, self.basepath, "/"@)
    }

    /// The URL of the job `id`, as a request that came by `h` sees it.
    pub open spec fn job_uri(self, h: HeadView, id: i32) -> Seq<char> {
        url(h.scheme, self.host, self.basepath, job_path(id))
    }

    /// The service with other jobs and another next id, and all else the same.
    pub open spec fn with_jobs(self, next_job_id: i32, jobs: Map<i32, JobInfoView>) -> ServiceView {
        ServiceView { next_job_id, jobs, ..self }
    }

    /// The two services differ in nothing but, maybe, the jobs they hold,
    /// and each job of `self` is a job of `before` or the job `job`.
    pub open spec fn holds_after(self, before: ServiceView, next_job_id: i32, job: JobInfoView) -> bool {
        &&& self == before.with_jobs(next_job_id, self.jobs)
        &&& held_within(self.jobs, before.jobs.insert(job.id, job))
    }

    /// Every job has an id of at least 1000 that was given out already, and
    /// is kept under its id.
    pub open spec fn ids_valid(self) -> bool {
        &&& self.next_job_id >= FIRST_JOB_ID
        &&& forall|k: i32| #[trigger]
            self.jobs.contains_key(k) ==> FIRST_JOB_ID <= k < self.next_job_id && self.jobs[k].id
                == k
    }

    /// No time of any job is out of order, nor later than `now`.
    pub open spec fn timed_until(self, now: u64) -> bool {
        forall|k: i32| #[trigger]
            self.jobs.contains_key(k) ==> self.jobs[k].timed() && self.jobs[k].latest() <= now
    }
}

/// The job that a request creates: the next id, the print options of the
/// request, and the time of the request as the time of its creation and of
/// the start of its processing.
pub open spec fn new_job(
    s: ServiceView,
    h: HeadView,
    groups: Seq<GroupView>,
    state: JobState,
    message: Seq<char>,
) -> JobInfoView {
    JobInfoView {
        id: s.next_job_id,
        state,
        state_message: message,
        state_reasons: IppValueView::Keyword("none"@),
        attributes: job_template(s.info, user_name(groups), groups),
        created_at: h.uptime,
        processing_at: Some(h.uptime),
        completed_at: None,
    }
}

/// The job that a request names: the integer in `job-id`.
pub open spec fn requested_job_id(groups: Seq<GroupView>) -> Option<i32> {
    match found(groups, DelimiterTag::OperationAttributes, "job-id"@) {
        Some(IppValueView::Integer(id)) => Some(id),
        _ => None,
    }
}

/// The format that a request gives its document: the media type in `document-format`.
pub open spec fn document_format(groups: Seq<GroupView>) -> Option<Seq<char>> {
    match found(groups, DelimiterTag::OperationAttributes, "document-format"@) {
        Some(IppValueView::MimeMediaType(f)) => Some(f),
        _ => None,
    }
}

/// The compression that a request names: the keyword in `compression`.
pub open spec fn compression(groups: Seq<GroupView>) -> Option<Seq<char>> {
    match found(groups, DelimiterTag::OperationAttributes, "compression"@) {
        Some(IppValueView::Keyword(k)) => Some(k),
        _ => None,
    }
}

/// The format of a request's document, or the error for a format that the
/// printer does not take.
pub open spec fn checked_format(info: PrinterInfoView, groups: Seq<GroupView>) -> Result<
    Option<Seq<char>>,
    IppErrorView,
> {
    match document_format(groups) {
        Some(f) => if info.document_format_supported.contains(f) {
            Ok(Some(f))
        } else {
            Err(IppError::of_status(StatusCode::ClientErrorDocumentFormatNotSupported))
        },
        None => Ok(None),
    }
}

/// The document that a request brings for a job with the options
/// `template`, or the error for a format or a compression that is not taken.
/// The format is looked at first.
pub open spec fn document_for<P>(
    info: PrinterInfoView,
    groups: Seq<GroupView>,
    template: JobAttributesView,
    payload: IppPayload<P>,
) -> Result<DocumentView<P>, IppErrorView> {
    match checked_format(info, groups) {
        Ok(format) => match decompressed(payload, compression(groups)) {
            Ok(p) => Ok(DocumentView { format, job_attributes: template, payload: p }),
            Err(e) => Err(e),
        },
        Err(e) => Err(e),
    }
}

/// The task that a request with a document gives for `job`, or its failure.
pub open spec fn document_reply<P>(info: PrinterInfoView, req: MessageView<P>, job: JobInfoView)
    -> Result<ReplyView<P>, ServiceErrorView> {
    match document_for(info, req.attributes, job.attributes, req.payload) {
        Ok(document) => Ok(
            ReplyView::Document(
                TaskView {
                    ticket: TicketView {
                        version: req.header.version,
                        request_id: req.header.request_id,
                        job,
                    },
                    document,
                },
            ),
        ),
        Err(e) => Err(ServiceErrorView::Ipp(e)),
    }
}

/// `base` with one more group, of job attributes.
pub open spec fn with_job_group<P>(base: MessageView<P>, attributes: Seq<AttributeView>)
    -> MessageView<P> {
    MessageView {
        attributes: base.attributes.push(
            GroupView { tag: DelimiterTag::JobAttributes, attributes },
        ),
        ..base
    }
}

/// The job as it is once a document for it has come: processing, since
/// `now` where it was not already.
pub open spec fn processing(job: JobInfoView, now: u64) -> JobInfoView {
    if job.state == JobState::Processing {
        job
    } else {
        JobInfoView {
            state: JobState::Processing,
            state_message: "Processing"@,
            processing_at: Some(now),
            ..job
        }
    }
}

/// The job as it is once the sink is done with its document: completed, or
/// aborted with the words of the sink's failure, at `now`.
pub open spec fn finished(job: JobInfoView, outcome: Result<(), ServiceError>, now: u64)
    -> JobInfoView {
    match outcome {
        Ok(_) => JobInfoView {
            state: JobState::Completed,
            state_message: "Completed"@,
            completed_at: Some(now),
            ..job
        },
        Err(e) => JobInfoView {
            state: JobState::Aborted,
            state_message: "Aborted: "@ + e.text(),
            completed_at: Some(now),
            ..job
        },
    }
}

/// The error for a job that is not there.
pub open spec fn not_found() -> IppErrorView {
    IppError::of_status(StatusCode::ClientErrorNotFound)
}

/// Which jobs a request asks for: the completed ones where `which-jobs` is
/// `completed`, else those that are not.
pub open spec fn which_jobs(groups: Seq<GroupView>) -> WhichJob {
    match found(groups, DelimiterTag::OperationAttributes, "which-jobs"@) {
        Some(IppValueView::Keyword(k)) => if k == "completed"@ {
            WhichJob::Completed
        } else {
            WhichJob::NotCompleted
        },
        _ => WhichJob::NotCompleted,
    }
}

/// How many jobs a request asks for at most: the integer in `limit`.
pub open spec fn limit(groups: Seq<GroupView>) -> Option<i32> {
    match found(groups, DelimiterTag::OperationAttributes, "limit"@) {
        Some(IppValueView::Integer(n)) => Some(n),
        _ => None,
    }
}

/// Whether a job is of the class `which`.
pub open spec fn of_class(which: WhichJob) -> spec_fn(JobInfoView) -> bool {
    |j: JobInfoView| WhichJob::of_state(j.state) == which
}

/// The number of jobs that a limit lets through at most: as many as it
/// says, and none where it is zero. A limit below zero, which no client
/// should send, lets none through either.
pub open spec fn most(limit: i32) -> int {
    if limit < 0 {
        0
    } else {
        limit as int
    }
}

/// The jobs of `entries` that are listed: those of the class `which`, in
/// their order, and where there is a limit, the first of them up to the limit.
pub open spec fn listed_jobs(entries: Seq<JobInfoView>, which: WhichJob, limit: Option<i32>) -> Seq<
    JobInfoView,
> {
    let matching = entries.filter(of_class(which));
    match limit {
        Some(n) => if matching.len() <= most(n) {
            matching
        } else {
            matching.take(most(n))
        },
        None => matching,
    }
}

/// The names that the operations read differ from one another where it matters.
pub proof fn lemma_request_names_differ()
    ensures
        "requesting-user-name"@ != "media"@,
        "requesting-user-name"@ != "orientation-requested"@,
        "requesting-user-name"@ != "sides"@,
        "requesting-user-name"@ != "print-color-mode"@,
        "requesting-user-name"@ != "printer-resolution"@,
        "requesting-user-name"@ != "document-format"@,
        "requesting-user-name"@ != "compression"@,
        "document-format"@ != "media"@,
        "document-format"@ != "orientation-requested"@,
        "document-format"@ != "sides"@,
        "document-format"@ != "print-color-mode"@,
        "document-format"@ != "printer-resolution"@,
        "document-format"@ != "compression"@,
        "compression"@ != "media"@,
        "compression"@ != "orientation-requested"@,
        "compression"@ != "sides"@,
        "compression"@ != "print-color-mode"@,
        "compression"@ != "printer-resolution"@,
        "limit"@ != "which-jobs"@,
        "limit"@ != "requested-attributes"@,
        "which-jobs"@ != "requested-attributes"@,
{
    reveal_strlit("requesting-user-name");
    reveal_strlit("media");
    reveal_strlit("orientation-requested");
    reveal_strlit("sides");
    reveal_strlit("print-color-mode");
    reveal_strlit("printer-resolution");
    reveal_strlit("document-format");
    reveal_strlit("compression");
    reveal_strlit("limit");
    reveal_strlit("which-jobs");
    reveal_strlit("requested-attributes");
    assert("requesting-user-name"@.len() == 20);
    assert("media"@.len() == 5);
    assert("orientation-requested"@.len() == 21);
    assert("sides"@.len() == 5);
    assert("print-color-mode"@.len() == 16);
    assert("printer-resolution"@.len() == 18);
    assert("document-format"@.len() == 15);
    assert("compression"@.len() == 11);
    assert("limit"@.len() == 5);
    assert("which-jobs"@.len() == 10);
    assert("requested-attributes"@.len() == 20);
}

/// The scheme of a request's URI, as a string slice.
fn scheme_of(head: &RequestHead) -> (r: Option<&str>)
    ensures
        match r {
            Some(s) => head@.scheme == Some(s@),
            None => head@.scheme is None,
        },
{
    match &head.scheme {
        Some(s) => Some(s.as_str()),
        None => None,
    }
}

/// The jobs of `entries` that are of the class `which`, up to `limit`. The
/// walk stops as soon as the limit is reached: no job is taken beyond it.
pub fn select_jobs(entries: Vec<JobInfo>, which: WhichJob, limit: Option<i32>) -> (r: Vec<JobInfo>)
    ensures
        job_views(r@) == listed_jobs(job_views(entries@), which, limit),
{
    let ghost all = job_views(entries@);
    let ghost p = of_class(which);
    let bounded = limit.is_some();
    let bound: usize = match limit {
        Some(n) => if n < 0 {
            0
        } else {
            n as usize
        },
        None => 0,
    };
    let mut out: Vec<JobInfo> = Vec::new();
    let mut i: usize = 0;
    proof {
        reveal(Seq::filter);
        assert(all.take(0) =~= Seq::<JobInfoView>::empty());
        assert(job_views(out@) =~= all.take(0).filter(p));
    }
    while i < entries.len() && !(bounded && out.len() >= bound)
        invariant
            i <= entries.len(),
            all == job_views(entries@),
            p == of_class(which),
            bounded == limit is Some,
            limit matches Some(n) ==> bound == most(n),
            job_views(out@) == all.take(i as int).filter(p),
            bounded ==> out.len() <= bound,
        decreases entries.len() - i,
    {
        proof {
            reveal(Seq::filter);
            assert(all.take(i as int + 1).drop_last() =~= all.take(i as int));
            assert(all.take(i as int + 1).last() == entries@[i as int]@);
        }
        if WhichJob::of(entries[i].state) == which {
            let job = entries[i].clone();
            let ghost before = out@;
            out.push(job);
            assert(job_views(out@) =~= job_views(before).push(job@));
        }
        i += 1;
    }
    proof {
        let kept = all.take(i as int);
        let rest = all.skip(i as int);
        assert(kept + rest =~= all);
        Seq::filter_distributes_over_add(kept, rest, p);
        let matching = all.filter(p);
        if bounded && out.len() >= bound {
            assert(matching.take(bound as int) =~= job_views(out@));
        } else {
            assert(rest =~= Seq::<JobInfoView>::empty());
            assert(rest.filter(p) =~= Seq::<JobInfoView>::empty());
            assert(matching =~= job_views(out@));
        }
    }
    out
}

/// The views of a sequence of jobs, one for one.
pub open spec fn job_views(jobs: Seq<JobInfo>) -> Seq<JobInfoView> {
    jobs.map_values(|j: JobInfo| j@)
}

/// One group of job attributes for each job of `jobs`: those of its
/// attributes that are asked for.
pub open spec fn job_groups(
    s: ServiceView,
    h: HeadView,
    jobs: Seq<JobInfoView>,
    requested: Set<Seq<char>>,
) -> Seq<GroupView> {
    jobs.map_values(
        |j: JobInfoView|
            GroupView {
                tag: DelimiterTag::JobAttributes,
                attributes: with_attributes(
                    Seq::empty(),
                    job_attributes(j, s.job_uri(h, j.id), s.printer_uri(h), h.uptime, requested),
                ),
            },
    )
}

/// The answer to Create-Job: success, and the attributes that confirm the new job.
pub open spec fn create_job_reply<P>(s: ServiceView, h: HeadView, req: MessageView<P>)
    -> MessageView<P> {
    let job = new_job(s, h, req.attributes, JobState::Pending, "Pending"@);
    with_job_group(
        plain_response::<P>(req.header.version, StatusCode::SuccessfulOk, req.header.request_id),
        lite_job_attributes(job, s.job_uri(h, job.id)),
    )
}

/// The answer to Send-Document for the job that the lookup gave: the task
/// for its document, or the failure of the lookup, of the format or of the
/// compression.
pub open spec fn send_document_reply<P>(
    s: ServiceView,
    h: HeadView,
    req: MessageView<P>,
    lookup: Result<JobInfoView, IppErrorView>,
) -> Result<ReplyView<P>, ServiceErrorView> {
    match lookup {
        Ok(job) => document_reply(s.info, req, processing(job, h.uptime)),
        Err(e) => Err(ServiceErrorView::Ipp(e)),
    }
}

/// The answer to a request once the sink is done with its document: success
/// or the report of the sink's failure, and the attributes that confirm the job.
pub open spec fn handled_reply<P>(
    s: ServiceView,
    h: HeadView,
    ticket: TicketView,
    outcome: Result<(), ServiceError>,
) -> MessageView<P> {
    let job = finished(ticket.job, outcome, h.uptime);
    with_job_group(
        handled_response::<P>(ticket.version, ticket.request_id, outcome),
        lite_job_attributes(job, s.job_uri(h, job.id)),
    )
}

/// The answer to Get-Job-Attributes for the job that the lookup gave.
pub open spec fn job_attributes_reply<P>(
    s: ServiceView,
    h: HeadView,
    req: MessageView<P>,
    lookup: Result<JobInfoView, IppErrorView>,
) -> Result<ReplyView<P>, ServiceErrorView> {
    match lookup {
        Ok(job) => Ok(
            ReplyView::Response(
                with_job_group(
                    plain_response::<P>(
                        req.header.version,
                        StatusCode::SuccessfulOk,
                        req.header.request_id,
                    ),
                    with_attributes(
                        Seq::empty(),
                        job_attributes(
                            job,
                            s.job_uri(h, job.id),
                            s.printer_uri(h),
                            h.uptime,
                            requested_names(req.attributes),
                        ),
                    ),
                ),
            ),
        ),
        Err(e) => Err(ServiceErrorView::Ipp(e)),
    }
}

/// The answer to Get-Jobs where the cache gave `entries`: success, and one
/// group for each job that is listed.
pub open spec fn jobs_reply<P>(
    s: ServiceView,
    h: HeadView,
    req: MessageView<P>,
    entries: Seq<JobInfoView>,
) -> MessageView<P> {
    let plain = plain_response::<P>(
        req.header.version,
        StatusCode::SuccessfulOk,
        req.header.request_id,
    );
    MessageView {
        attributes: plain.attributes + job_groups(
            s,
            h,
            listed_jobs(entries, which_jobs(req.attributes), limit(req.attributes)),
            requested_names(req.attributes),
        ),
        ..plain
    }
}

/// The answer to Get-Printer-Attributes: success, and a group with the
/// printer attributes that are asked for.
pub open spec fn printer_attributes_reply<P>(s: ServiceView, h: HeadView, req: MessageView<P>)
    -> MessageView<P> {
    let plain = plain_response::<P>(
        req.header.version,
        StatusCode::SuccessfulOk,
        req.header.request_id,
    );
    MessageView {
        attributes: plain.attributes.push(
            GroupView {
                tag: DelimiterTag::PrinterAttributes,
                attributes: with_attributes(
                    Seq::empty(),
                    printer_attributes(
                        s.info,
                        s.printer_uri(h),
                        security(h.scheme),
                        h.uptime,
                        requested_names(req.attributes),
                    ),
                ),
            },
        ),
        ..plain
    }
}

/// Whether `lookup` is what the cache may give for the job that a request
/// names: a job that it may give out under the id in `job-id`, or that the
/// job was not found.
pub open spec fn looked_up(
    s: ServiceView,
    groups: Seq<GroupView>,
    lookup: Result<JobInfoView, IppErrorView>,
) -> bool {
    match lookup {
        Ok(j) => match requested_job_id(groups) {
            Some(id) => s.jobs.contains_key(id) && s.jobs[id] == j,
            None => false,
        },
        Err(e) => e == not_found(),
    }
}

/// What the service is after Send-Document for the job that the lookup
/// gave: as before, but for the job where its processing has begun.
pub open spec fn after_send_document(
    s: ServiceView,
    after: ServiceView,
    lookup: Result<JobInfoView, IppErrorView>,
    now: u64,
) -> bool {
    match lookup {
        Ok(j) => if j.state == JobState::Processing {
            after == s
        } else {
            after.holds_after(s, s.next_job_id, processing(j, now))
        },
        Err(_) => after == s,
    }
}

/// Whether `walk` is a walk of the cache: ids with their jobs, each a job
/// that the cache may give out under that id, and no id twice.
pub open spec fn walk_of(s: ServiceView, walk: Seq<(i32, JobInfoView)>) -> bool {
    &&& forall|i: int|
        0 <= i < walk.len() ==> s.jobs.contains_key((#[trigger] walk[i]).0) && s.jobs[walk[i].0]
            == walk[i].1
    &&& forall|i: int, j: int|
        0 <= i < j < walk.len() ==> (#[trigger] walk[i]).0 != (#[trigger] walk[j]).0
}

/// The jobs of a walk of the cache, in the order of the walk.
pub open spec fn walked_jobs(walk: Seq<(i32, JobInfoView)>) -> Seq<JobInfoView> {
    walk.map_values(|e: (i32, JobInfoView)| e.1)
}

/// Whether an operation gave what it is expected to give.
pub open spec fn gives<P>(r: IppResult<P>, expected: Result<ReplyView<P>, ServiceErrorView>) -> bool {
    match expected {
        Ok(reply) => r is Ok && r->Ok_0@ == reply,
        Err(e) => r is Err && r->Err_0@ == e,
    }
}

/// What the dispatcher answers with after an operation: what the operation
/// gave, or the response that reports its failure.
pub open spec fn answer_to<P>(
    version: IppVersion,
    id: u32,
    result: Result<ReplyView<P>, ServiceErrorView>,
) -> ReplyView<P> {
    match result {
        Ok(reply) => reply,
        Err(e) => ReplyView::Response(error_response::<P>(version, id, e.reported())),
    }
}

/// The answer that reports the error of the status `status`.
pub open spec fn refusal<P>(version: IppVersion, id: u32, status: StatusCode) -> ReplyView<P> {
    ReplyView::Response(error_response::<P>(version, id, IppError::of_status(status)))
}

/// The answer that reports success and no more.
pub open spec fn acknowledgement<P>(version: IppVersion, id: u32) -> ReplyView<P> {
    ReplyView::Response(plain_response::<P>(version, StatusCode::SuccessfulOk, id))
}

/// How the service answers a request: `reply` is its answer to `req`, which
/// came by `h`, and `after` is what the service is then.
///
/// A version above 2 is refused. An operation that the service does not
/// offer is refused, and so is a request whose code names no operation.
/// Validate-Job and Cancel-Job are acknowledged. Print-Job and Create-Job
/// create a job. Send-Document and Get-Job-Attributes go by what the cache
/// gives for the job that the request names, and Get-Jobs by a walk of the
/// cache, in which no job comes twice. Get-Printer-Attributes reports the
/// printer.
pub open spec fn answers<P>(
    s: ServiceView,
    h: HeadView,
    req: MessageView<P>,
    reply: ReplyView<P>,
    after: ServiceView,
) -> bool {
    let version = req.header.version;
    let id = req.header.request_id;
    if version.major > 2 {
        &&& reply == refusal::<P>(
            IppVersion::of(2, 0),
            id,
            StatusCode::ServerErrorVersionNotSupported,
        )
        &&& after == s
    } else {
        match Operation::of_code(req.header.operation_or_status) {
            Some(Operation::PrintJob) => {
                let job = new_job(s, h, req.attributes, JobState::Processing, "Processing"@);
                &&& reply == answer_to(version, id, document_reply(s.info, req, job))
                &&& after.holds_after(s, next_id(s.next_job_id), job)
            },
            Some(Operation::ValidateJob) => {
                &&& reply == acknowledgement::<P>(version, id)
                &&& after == s
            },
            Some(Operation::CreateJob) => {
                let job = new_job(s, h, req.attributes, JobState::Pending, "Pending"@);
                &&& reply == ReplyView::Response(create_job_reply(s, h, req))
                &&& after.holds_after(s, next_id(s.next_job_id), job)
            },
            Some(Operation::SendDocument) => exists|lookup: Result<JobInfoView, IppErrorView>|
                {
                    &&& #[trigger] looked_up(s, req.attributes, lookup)
                    &&& reply == answer_to(version, id, send_document_reply(s, h, req, lookup))
                    &&& after_send_document(s, after, lookup, h.uptime)
                },
            Some(Operation::CancelJob) => {
                &&& reply == acknowledgement::<P>(version, id)
                &&& after == s
            },
            Some(Operation::GetJobAttributes) => {
                &&& after == s
                &&& exists|lookup: Result<JobInfoView, IppErrorView>|
                    {
                        &&& #[trigger] looked_up(s, req.attributes, lookup)
                        &&& reply == answer_to(
                            version,
                            id,
                            job_attributes_reply(s, h, req, lookup),
                        )
                    }
            },
            Some(Operation::GetJobs) => {
                &&& after == s
                &&& exists|walk: Seq<(i32, JobInfoView)>|
                    {
                        &&& #[trigger] walk_of(s, walk)
                        &&& reply == ReplyView::Response(
                            jobs_reply(s, h, req, walked_jobs(walk)),
                        )
                    }
            },
            Some(Operation::GetPrinterAttributes) => {
                &&& reply == ReplyView::Response(printer_attributes_reply(s, h, req))
                &&& after == s
            },
            _ => {
                &&& reply == refusal::<P>(
                    version,
                    id,
                    StatusCode::ServerErrorOperationNotSupported,
                )
                &&& after == s
            },
        }
    }
}

/// What the lookup of a job gave, as the contracts see it.
pub open spec fn lookup_view(lookup: Result<JobInfo, IppError>) -> Result<
    JobInfoView,
    IppErrorView,
> {
    match lookup {
        Ok(j) => Ok(j@),
        Err(e) => Err(e@),
    }
}

/// What the lookup of a job gives: the job, or the error for a job that is not there.
pub fn found_job(lookup: Option<JobInfo>) -> (r: Result<JobInfo, IppError>)
    ensures
        match lookup {
            Some(job) => r == Ok::<JobInfo, IppError>(job),
            None => r is Err && r->Err_0@ == not_found(),
        },
{
    match lookup {
        Some(job) => Ok(job),
        None => Err(IppError::from_status(StatusCode::ClientErrorNotFound)),
    }
}

impl SimpleIppService {
    /// A service for the printer `info`, found at `defaulthost:631` under
    /// `/`, with no jobs. Its first job will have the id 1000. Its cache
    /// holds a thousand jobs at most, and each for fifteen minutes.
    pub fn new(info: PrinterInfo) -> (r: Self)
        ensures
            r@ == (ServiceView {
                next_job_id: FIRST_JOB_ID,
                jobs: Map::empty(),
                job_capacity: JOB_CACHE_CAPACITY,
                job_time_to_live: JOB_TIME_TO_LIVE,
                host: "defaulthost:631"@,
                basepath: "/"@,
                info: info@,
            }),
    {
        SimpleIppService {
            job_id: FIRST_JOB_ID,
            job_snapshot: job_cache(JOB_CACHE_CAPACITY, JOB_TIME_TO_LIVE),
            host: "defaulthost:631".to_owned(),
            basepath: "/".to_owned(),
            info,
        }
    }

    /// Sets the host, and the port with it, that the service's URLs name.
    pub fn set_host(&mut self, host: &str)
        ensures
            final(self)@ == (ServiceView { host: host@, ..old(self)@ }),
    {
        self.host = host.to_owned();
    }

    /// Sets the path below which the service's URLs lie.
    pub fn set_basepath(&mut self, basepath: &str)
        ensures
            final(self)@ == (ServiceView { basepath: basepath@, ..old(self)@ }),
    {
        self.basepath = basepath.to_owned();
    }

    /// Sets the printer's configuration.
    pub fn set_info(&mut self, info: PrinterInfo)
        ensures
            final(self)@ == (ServiceView { info: info@, ..old(self)@ }),
    {
        self.info = info;
    }

    /// Sets the document formats that the printer takes, and the one that
    /// it assumes, which must be among them.
    pub fn set_document_format(&mut self, supported: Vec<String>, default: String)
        requires
            strings_view(supported@).contains(default@),
        ensures
            final(self)@ == (ServiceView {
                info: PrinterInfoView {
                    document_format_supported: strings_view(supported@),
                    document_format_default: default@,
                    ..old(self)@.info
                },
                ..old(self)@
            }),
    {
        self.info.set_document_format(supported, default);
    }

    /// The URL of `path` on this server, for a request that came by `scheme`.
    pub fn make_url(&self, scheme: Option<&str>, path: &str) -> (r: String)
        ensures
            r@ == url(
                match scheme {
                    Some(s) => Some(s@),
                    None => None,
                },
                self@.host,
                self@.basepath,
                path@,
            ),
    {
        make_url(scheme, self.host.as_str(), self.basepath.as_str(), path)
    }

    /// The URL of the job `id`, for a request that came by `head`.
    pub fn job_url(&self, head: &RequestHead, id: i32) -> (r: String)
        ensures
            r@ == self@.job_uri(head@, id),
    {
        let mut path = "job/".to_owned();
        append_decimal(&mut path, id);
        self.make_url(scheme_of(head), path.as_str())
    }

    /// The printer attributes that `requested` asks for.
    pub fn printer_attributes(&self, head: &RequestHead, requested: &NameSet) -> (r: Vec<
        IppAttribute,
    >)
        ensures
            attribute_views(r@) == printer_attributes(
                self@.info,
                self@.printer_uri(head@),
                security(head@.scheme),
                head@.uptime,
                requested@,
            ),
    {
        printer_attribute_list(
            &self.info,
            self.make_url(scheme_of(head), "/"),
            security_of(scheme_of(head)),
            head.uptime,
            requested,
        )
    }

    /// The attributes that confirm `job`.
    pub fn lite_job_attributes_for(&self, head: &RequestHead, job: &JobInfo) -> (r: Vec<
        IppAttribute,
    >)
        ensures
            attribute_views(r@) == lite_job_attributes(job@, self@.job_uri(head@, job.id)),
    {
        lite_job_list(job, self.job_url(head, job.id))
    }

    /// The attributes of `job` that `requested` asks for.
    pub fn job_attributes_for(&self, head: &RequestHead, job: &JobInfo, requested: &NameSet) -> (r:
        Vec<IppAttribute>)
        ensures
            attribute_views(r@) == job_attributes(
                job@,
                self@.job_uri(head@, job.id),
                self@.printer_uri(head@),
                head@.uptime,
                requested@,
            ),
    {
        job_attribute_list(
            job,
            self.job_url(head, job.id),
            self.make_url(scheme_of(head), "/"),
            head.uptime,
            requested,
        )
    }

    /// Gives the next id to a new job and puts the job into the cache. The
    /// job is created, and its processing has begun, at `created_at`.
    pub fn alloc_job(
        &mut self,
        state: JobState,
        state_message: &str,
        attributes: SimpleIppJobAttributes,
        created_at: u64,
    ) -> (job: JobInfo)
        ensures
            job@ == (JobInfoView {
                id: old(self)@.next_job_id,
                state,
                state_message: state_message@,
                state_reasons: IppValueView::Keyword("none"@),
                attributes: attributes@,
                created_at,
                processing_at: Some(created_at),
                completed_at: None,
            }),
            final(self)@.holds_after(old(self)@, next_id(old(self)@.next_job_id), job@),
    {
        let id = self.job_id;
        self.job_id = if id == i32::MAX {
            i32::MIN
        } else {
            id + 1
        };
        let job = JobInfo {
            id,
            state,
            state_message: state_message.to_owned(),
            state_reasons: IppValue::Keyword("none".to_owned()),
            attributes,
            created_at,
            processing_at: Some(created_at),
            completed_at: None,
        };
        cache_insert(&mut self.job_snapshot, id, job.clone());
        job
    }

    /// Looks the job up that the request names in `job-id`. The job is one
    /// that the cache may give out under that id. The lookup fails with
    /// `client-error-not-found` where the request names no job, and where
    /// the cache has none under the id, or has it no longer.
    pub fn find_job(&self, r: &IppAttributes) -> (job: Result<JobInfo, IppError>)
        ensures
            match job {
                Ok(j) => requested_job_id(r@) is Some && self@.jobs.contains_key(
                    requested_job_id(r@).unwrap(),
                ) && self@.jobs[requested_job_id(r@).unwrap()] == j@,
                Err(e) => e@ == not_found(),
            },
    {
        let id = match r.find(DelimiterTag::OperationAttributes, "job-id") {
            Some(v) => v.as_integer(),
            None => None,
        };
        match id {
            Some(id) => found_job(cache_get(&self.job_snapshot, id)),
            None => found_job(None),
        }
    }

    /// Takes `document-format` out of the request. A format that the
    /// printer does not take fails with
    /// `client-error-document-format-not-supported`.
    pub fn take_document_format(&self, r: &mut IppAttributes) -> (format: Result<
        Option<String>,
        IppError,
    >)
        ensures
            final(r)@ == taken(old(r)@, DelimiterTag::OperationAttributes, "document-format"@),
            match checked_format(self@.info, old(r)@) {
                Ok(f) => format is Ok && optional_view(format->Ok_0) == f,
                Err(e) => format is Err && format->Err_0@ == e,
            },
    {
        let format = match take_ipp_attribute(
            r,
            DelimiterTag::OperationAttributes,
            "document-format",
        ) {
            Some(IppValue::MimeMediaType(f)) => Some(f),
            _ => None,
        };
        match format {
            Some(f) => {
                if contains_string(self.info.document_format_supported(), f.as_str()) {
                    Ok(Some(f))
                } else {
                    Err(
                        IppError::from_status(
                            StatusCode::ClientErrorDocumentFormatNotSupported,
                        ),
                    )
                }
            },
            None => Ok(None),
        }
    }
}

/// The keyword in `v`, where it is one.
fn keyword_in(v: Option<IppValue>) -> (r: Option<String>)
    ensures
        match v {
            Some(x) => match x@ {
                IppValueView::Keyword(k) => r.is_some() && r.unwrap()@ == k,
                _ => r.is_none(),
            },
            None => r.is_none(),
        },
{
    match v {
        Some(IppValue::Keyword(k)) => Some(k),
        _ => None,
    }
}

/// Adds a group with the job attributes `list` at the end of `resp`, after
/// putting the charset and the language into its operation attributes.
fn add_job_group<P>(resp: &mut IppRequestResponse<P>, list: Vec<IppAttribute>)
    requires
        old(resp)@.attributes.len() > 0,
        old(resp)@.attributes[0].tag == DelimiterTag::OperationAttributes,
        old(resp)@.attributes[0].attributes.len() >= 2,
        old(resp)@.attributes[0].attributes[0] == charset_attribute(),
        old(resp)@.attributes[0].attributes[1] == language_attribute(),
    ensures
        final(resp)@ == with_job_group(
            old(resp)@,
            with_attributes(Seq::empty(), attribute_views(list@)),
        ),
{
    proof {
        lemma_with_basic_again(resp@.attributes);
    }
    add_basic_attributes(&mut resp.attributes);
    let mut group = IppAttributeGroup::new(DelimiterTag::JobAttributes);
    group.extend(list);
    resp.attributes.push_group(group);
}

impl SimpleIppService {
    /// The task for the document of a request whose job is `job`: the
    /// document with its format and with its payload as the request's
    /// compression asks, or the failure of the format or of the compression.
    /// `attributes` are the request's attributes, without the user name and
    /// the job template where these were taken out before.
    fn document_task<P>(
        &self,
        version: IppVersion,
        req_id: u32,
        attributes: IppAttributes,
        payload: IppPayload<P>,
        job: JobInfo,
    ) -> (r: IppResult<P>)
        ensures
            match document_for(self@.info, attributes@, job@.attributes, payload) {
                Ok(document) => r is Ok && r->Ok_0@ == ReplyView::<P>::Document(
                    TaskView {
                        ticket: TicketView { version, request_id: req_id, job: job@ },
                        document,
                    },
                ),
                Err(e) => r is Err && r->Err_0@ == ServiceErrorView::Ipp(e),
            },
    {
        let mut attributes = attributes;
        let ghost g0 = attributes@;
        let format = match self.take_document_format(&mut attributes) {
            Ok(f) => f,
            Err(e) => {
                return Err(ServiceError::Ipp(e));
            },
        };
        proof {
            lemma_request_names_differ();
            lemma_found_after_taken(
                g0,
                DelimiterTag::OperationAttributes,
                "document-format"@,
                DelimiterTag::OperationAttributes,
                "compression"@,
            );
        }
        let word = keyword_in(
            take_ipp_attribute(&mut attributes, DelimiterTag::OperationAttributes, "compression"),
        );
        let payload = match decommpress_payload(
            payload,
            match &word {
                Some(k) => Some(k.as_str()),
                None => None,
            },
        ) {
            Ok(p) => p,
            Err(e) => {
                return Err(ServiceError::Ipp(e));
            },
        };
        let job_attributes = job.attributes.clone();
        Ok(
            IppReply::Document(
                DocumentTask {
                    ticket: DocumentTicket { version, request_id: req_id, job },
                    document: SimpleIppDocument { format, job_attributes, payload },
                },
            ),
        )
    }

    /// Takes the user name and the job template out of a request, and
    /// creates the job that the request asks for, in the state `state`.
    fn create<P>(
        &mut self,
        head: &RequestHead,
        attributes: &mut IppAttributes,
        state: JobState,
        state_message: &str,
    ) -> (job: JobInfo)
        ensures
            job@ == new_job(old(self)@, head@, old(attributes)@, state, state_message@),
            final(self)@.holds_after(old(self)@, next_id(old(self)@.next_job_id), job@),
            found(final(attributes)@, DelimiterTag::OperationAttributes, "document-format"@)
                == found(old(attributes)@, DelimiterTag::OperationAttributes, "document-format"@),
            found(final(attributes)@, DelimiterTag::OperationAttributes, "compression"@) == found(
                old(attributes)@,
                DelimiterTag::OperationAttributes,
                "compression"@,
            ),
    {
        let ghost g0 = attributes@;
        let user = take_requesting_user_name(attributes);
        let ghost g1 = attributes@;
        let template = SimpleIppJobAttributes::take_ipp_attributes(&self.info, user, attributes);
        proof {
            let op = DelimiterTag::OperationAttributes;
            lemma_request_names_differ();
            lemma_template_after_taken(self.info@, user@, g0, op, "requesting-user-name"@);
            lemma_found_after_taken(g0, op, "requesting-user-name"@, op, "document-format"@);
            lemma_found_after_taken(g0, op, "requesting-user-name"@, op, "compression"@);
            lemma_found_after_template(g1, op, "document-format"@);
            lemma_found_after_template(g1, op, "compression"@);
        }
        self.alloc_job(state, state_message, template, head.uptime)
    }

    /// Send-Document for the job that the lookup gave. A job that is not
    /// processing yet begins to be processed, which the cache is told. The
    /// result is the task for the document, or the failure of the lookup, of
    /// the format or of the compression.
    ///
    /// The cache is told by putting the job in again under its id. That
    /// starts the job's time to live anew, and it puts the job back into the
    /// cache where the cache has dropped it since the lookup.
    pub fn send_document_with<P>(
        &mut self,
        head: &RequestHead,
        req: IppRequestResponse<P>,
        lookup: Result<JobInfo, IppError>,
    ) -> (r: IppResult<P>)
        ensures
            match send_document_reply(
                old(self)@,
                head@,
                req@,
                lookup_view(lookup),
            ) {
                Ok(reply) => r is Ok && r->Ok_0@ == reply,
                Err(e) => r is Err && r->Err_0@ == e,
            },
            match lookup {
                Ok(j) => if j.state == JobState::Processing {
                    final(self)@ == old(self)@
                } else {
                    final(self)@.holds_after(
                        old(self)@,
                        old(self)@.next_job_id,
                        processing(j@, head.uptime),
                    )
                },
                Err(_) => final(self)@ == old(self)@,
            },
    {
        let mut job = match lookup {
            Ok(j) => j,
            Err(e) => {
                return Err(ServiceError::Ipp(e));
            },
        };
        if job.state != JobState::Processing {
            job.state = JobState::Processing;
            job.state_message = "Processing".to_owned();
            job.processing_at = Some(head.uptime);
            cache_insert(&mut self.job_snapshot, job.id, job.clone());
        }
        let IppRequestResponse { header, attributes, payload } = req;
        self.document_task(header.version, header.request_id, attributes, payload, job)
    }

    /// The answer to a request once the sink is done with the document of
    /// `ticket`. The job is completed, or aborted with the words of the
    /// sink's failure, at the time of `head`, which the cache is told. The
    /// response reports success or the sink's failure, and confirms the job.
    ///
    /// The cache is told by putting the job of the ticket in again under
    /// its id. That starts the job's time to live anew, and it puts the job
    /// back into the cache where the cache has dropped it while the sink
    /// was at work.
    pub fn finish_document<P>(
        &mut self,
        head: &RequestHead,
        ticket: DocumentTicket,
        outcome: Result<(), ServiceError>,
    ) -> (r: IppRequestResponse<P>)
        ensures
            r@ == handled_reply::<P>(old(self)@, head@, ticket@, outcome),
            final(self)@.holds_after(
                old(self)@,
                old(self)@.next_job_id,
                finished(ticket.job@, outcome, head.uptime),
            ),
    {
        let DocumentTicket { version, request_id, job } = ticket;
        let mut job = job;
        let mut resp = match outcome {
            Ok(_) => {
                job.state = JobState::Completed;
                job.state_message = "Completed".to_owned();
                IppRequestResponse::new_response(version, StatusCode::SuccessfulOk, request_id)
            },
            Err(error) => {
                job.state = JobState::Aborted;
                let mut message = "Aborted: ".to_owned();
                message.append(error.to_text().as_str());
                job.state_message = message;
                build_error_response(version, request_id, error)
            },
        };
        job.completed_at = Some(head.uptime);
        cache_insert(&mut self.job_snapshot, job.id, job.clone());
        proof {
            lemma_lite_names_distinct(job@, self@.job_uri(head@, job.id));
        }
        add_job_group(&mut resp, self.lite_job_attributes_for(head, &job));
        resp
    }

    /// Get-Job-Attributes for the job that the lookup gave: success and the
    /// attributes of the job that are asked for, or the failure of the lookup.
    pub fn get_job_attributes_with<P>(
        &self,
        head: &RequestHead,
        req: IppRequestResponse<P>,
        lookup: Result<JobInfo, IppError>,
    ) -> (r: IppResult<P>)
        ensures
            match job_attributes_reply(
                self@,
                head@,
                req@,
                lookup_view(lookup),
            ) {
                Ok(reply) => r is Ok && r->Ok_0@ == reply,
                Err(e) => r is Err && r->Err_0@ == e,
            },
    {
        let job = match lookup {
            Ok(j) => j,
            Err(e) => {
                return Err(ServiceError::Ipp(e));
            },
        };
        let requested = get_requested_attributes(&req.attributes);
        let mut resp = IppRequestResponse::new_response(
            req.header.version,
            StatusCode::SuccessfulOk,
            req.header.request_id,
        );
        add_job_group(&mut resp, self.job_attributes_for(head, &job, &requested));
        Ok(IppReply::Response(resp))
    }

    /// Get-Jobs where the cache gave `entries`: success, and one group for
    /// each job of the class that `which-jobs` names, in the order of
    /// `entries`, up to `limit`, with the attributes that are asked for.
    pub fn get_jobs_with<P>(
        &self,
        head: &RequestHead,
        req: IppRequestResponse<P>,
        entries: Vec<JobInfo>,
    ) -> (r: IppRequestResponse<P>)
        ensures
            r@ == jobs_reply(self@, head@, req@, job_views(entries@)),
    {
        let mut req = req;
        let ghost g0 = req.attributes@;
        let op = DelimiterTag::OperationAttributes;
        let limit = match take_ipp_attribute(&mut req.attributes, op, "limit") {
            Some(IppValue::Integer(n)) => Some(n),
            _ => None,
        };
        let ghost g1 = req.attributes@;
        let which = match keyword_in(take_ipp_attribute(&mut req.attributes, op, "which-jobs")) {
            Some(k) => {
                if str_eq(k.as_str(), "completed") {
                    WhichJob::Completed
                } else {
                    WhichJob::NotCompleted
                }
            },
            None => WhichJob::NotCompleted,
        };
        proof {
            lemma_request_names_differ();
            lemma_found_after_taken(g0, op, "limit"@, op, "which-jobs"@);
            lemma_found_after_taken(g0, op, "limit"@, op, "requested-attributes"@);
            lemma_found_after_taken(g1, op, "which-jobs"@, op, "requested-attributes"@);
        }
        let requested = get_requested_attributes(&req.attributes);
        let mut resp = IppRequestResponse::new_response(
            req.header.version,
            StatusCode::SuccessfulOk,
            req.header.request_id,
        );
        add_basic_attributes(&mut resp.attributes);
        proof {
            lemma_with_basic_again(seq![basic_group()]);
        }
        let jobs = select_jobs(entries, which, limit);
        let ghost plain = resp@;
        let mut i: usize = 0;
        assert(resp@.attributes =~= plain.attributes + job_groups(
            self@,
            head@,
            job_views(jobs@).take(0),
            requested@,
        ));
        while i < jobs.len()
            invariant
                i <= jobs.len(),
                resp@.header == plain.header,
                resp@.payload == plain.payload,
                resp@.attributes == plain.attributes + job_groups(
                    self@,
                    head@,
                    job_views(jobs@).take(i as int),
                    requested@,
                ),
            decreases jobs.len() - i,
        {
            let mut group = IppAttributeGroup::new(DelimiterTag::JobAttributes);
            group.extend(self.job_attributes_for(head, &jobs[i], &requested));
            resp.attributes.push_group(group);
            assert(job_groups(self@, head@, job_views(jobs@).take(i as int + 1), requested@)
                =~= job_groups(self@, head@, job_views(jobs@).take(i as int), requested@).push(
                group@,
            ));
            assert(resp@.attributes =~= plain.attributes + job_groups(
                self@,
                head@,
                job_views(jobs@).take(i as int + 1),
                requested@,
            ));
            i += 1;
        }
        assert(job_views(jobs@).take(jobs.len() as int) =~= job_views(jobs@));
        resp
    }
}

/// The jobs of the entries of a cache, without their ids.
fn jobs_of(entries: Vec<(i32, JobInfo)>) -> (r: Vec<JobInfo>)
    ensures
        r@.len() == entries@.len(),
        forall|i: int| 0 <= i < r@.len() ==> (#[trigger] r@[i]) == entries@[i].1,
{
    let mut entries = entries;
    let ghost given = entries@;
    let mut back: Vec<JobInfo> = Vec::new();
    while entries.len() > 0
        invariant
            entries@.len() + back@.len() == given.len(),
            forall|i: int| 0 <= i < entries@.len() ==> (#[trigger] entries@[i]) == given[i],
            forall|i: int|
                0 <= i < back@.len() ==> (#[trigger] back@[i]) == given[given.len() - 1 - i].1,
        decreases entries.len(),
    {
        let e = entries.pop().unwrap();
        back.push(e.1);
    }
    let mut r: Vec<JobInfo> = Vec::new();
    while back.len() > 0
        invariant
            r@.len() + back@.len() == given.len(),
            forall|i: int|
                0 <= i < back@.len() ==> (#[trigger] back@[i]) == given[given.len() - 1 - i].1,
            forall|i: int| 0 <= i < r@.len() ==> (#[trigger] r@[i]) == given[i].1,
        decreases back.len(),
    {
        let j = back.pop().unwrap();
        r.push(j);
    }
    r
}

impl<P> IppService<P> for SimpleIppService {
    open spec fn supported_version(&self) -> IppVersion {
        IppVersion::of(2, 0)
    }

    open spec fn offers(&self, op: Operation) -> bool {
        op == Operation::PrintJob || op == Operation::ValidateJob || op == Operation::CreateJob
            || op == Operation::SendDocument || op == Operation::CancelJob || op
            == Operation::GetJobAttributes || op == Operation::GetJobs || op
            == Operation::GetPrinterAttributes
    }

    fn version(&self) -> (v: IppVersion) {
        IppVersion::v2_0()
    }

    /// Print-Job: creates a job that is being processed, and gives the task
    /// for its document. The job is created and kept also where the format
    /// or the compression of the document is then refused.
    fn print_job(&mut self, head: &RequestHead, req: IppRequestResponse<P>) -> (r: IppResult<P>)
        ensures
            gives(
                r,
                document_reply(
                    old(self)@.info,
                    req@,
                    new_job(old(self)@, head@, req@.attributes, JobState::Processing, "Processing"@),
                ),
            ),
            final(self)@.holds_after(
                old(self)@,
                next_id(old(self)@.next_job_id),
                new_job(old(self)@, head@, req@.attributes, JobState::Processing, "Processing"@),
            ),
    {
        let IppRequestResponse { header, attributes, payload } = req;
        let mut attributes = attributes;
        let job = self.create::<P>(head, &mut attributes, JobState::Processing, "Processing");
        self.document_task(header.version, header.request_id, attributes, payload, job)
    }

    /// Validate-Job: success.
    fn validate_job(&mut self, head: &RequestHead, req: IppRequestResponse<P>) -> (r: IppResult<P>)
        ensures
            r is Ok,
            r->Ok_0@ == acknowledgement::<P>(req.header.version, req.header.request_id),
            final(self)@ == old(self)@,
    {
        let mut resp = IppRequestResponse::new_response(
            req.header.version,
            StatusCode::SuccessfulOk,
            req.header.request_id,
        );
        proof {
            lemma_with_basic_again(resp@.attributes);
        }
        add_basic_attributes(&mut resp.attributes);
        Ok(IppReply::Response(resp))
    }

    /// Create-Job: creates a pending job and confirms it.
    fn create_job(&mut self, head: &RequestHead, req: IppRequestResponse<P>) -> (r: IppResult<P>)
        ensures
            r is Ok,
            r->Ok_0@ == ReplyView::Response(create_job_reply(old(self)@, head@, req@)),
            final(self)@.holds_after(
                old(self)@,
                next_id(old(self)@.next_job_id),
                new_job(old(self)@, head@, req@.attributes, JobState::Pending, "Pending"@),
            ),
    {
        let mut req = req;
        let mut attributes = req.attributes.take();
        let job = self.create::<P>(head, &mut attributes, JobState::Pending, "Pending");
        let mut resp = IppRequestResponse::new_response(
            req.header.version,
            StatusCode::SuccessfulOk,
            req.header.request_id,
        );
        proof {
            lemma_lite_names_distinct(job@, self@.job_uri(head@, job.id));
        }
        add_job_group(&mut resp, self.lite_job_attributes_for(head, &job));
        Ok(IppReply::Response(resp))
    }

    /// Send-Document: looks the job up that the request names, and goes on
    /// as [`SimpleIppService::send_document_with`] says for what the lookup
    /// gave. A job that the lookup gave is one that the cache may give out
    /// under the id that the request names.
    fn send_document(&mut self, head: &RequestHead, req: IppRequestResponse<P>) -> (r: IppResult<
        P,
    >)
        ensures
            exists|lookup: Result<JobInfoView, IppErrorView>|
                {
                    &&& #[trigger] looked_up(old(self)@, req@.attributes, lookup)
                    &&& gives(r, send_document_reply(old(self)@, head@, req@, lookup))
                    &&& after_send_document(old(self)@, final(self)@, lookup, head.uptime)
                },
    {
        let lookup = self.find_job(&req.attributes);
        let ghost seen = lookup_view(lookup);
        let r = self.send_document_with(head, req, lookup);
        assert(looked_up(old(self)@, req@.attributes, seen));
        r
    }

    /// Cancel-Job: success. The job is left as it is.
    fn cancel_job(&mut self, head: &RequestHead, req: IppRequestResponse<P>) -> (r: IppResult<P>)
        ensures
            r is Ok,
            r->Ok_0@ == acknowledgement::<P>(req.header.version, req.header.request_id),
            final(self)@ == old(self)@,
    {
        let mut resp = IppRequestResponse::new_response(
            req.header.version,
            StatusCode::SuccessfulOk,
            req.header.request_id,
        );
        proof {
            lemma_with_basic_again(resp@.attributes);
        }
        add_basic_attributes(&mut resp.attributes);
        Ok(IppReply::Response(resp))
    }

    /// Get-Job-Attributes: looks the job up that the request names, and
    /// answers as [`SimpleIppService::get_job_attributes_with`] says for what
    /// the lookup gave.
    fn get_job_attributes(&mut self, head: &RequestHead, req: IppRequestResponse<P>) -> (r:
        IppResult<P>)
        ensures
            final(self)@ == old(self)@,
            exists|lookup: Result<JobInfoView, IppErrorView>|
                {
                    &&& #[trigger] looked_up(old(self)@, req@.attributes, lookup)
                    &&& gives(r, job_attributes_reply(old(self)@, head@, req@, lookup))
                },
    {
        let lookup = self.find_job(&req.attributes);
        let ghost seen = lookup_view(lookup);
        let r = self.get_job_attributes_with(head, req, lookup);
        assert(looked_up(old(self)@, req@.attributes, seen));
        r
    }

    /// Get-Jobs: walks the cache, and answers as
    /// [`SimpleIppService::get_jobs_with`] says for the jobs that the walk
    /// gave. Each of them is a job that the cache may give out, and none
    /// comes twice; their order is the cache's. No job is changed.
    fn get_jobs(&mut self, head: &RequestHead, req: IppRequestResponse<P>) -> (r: IppResult<P>)
        ensures
            final(self)@ == old(self)@,
            r is Ok,
            exists|walk: Seq<(i32, JobInfoView)>|
                {
                    &&& #[trigger] walk_of(old(self)@, walk)
                    &&& r->Ok_0@ == ReplyView::Response(
                        jobs_reply(old(self)@, head@, req@, walked_jobs(walk)),
                    )
                },
    {
        let found = cache_entries(&self.job_snapshot);
        let ghost walk = found@.map_values(|e: (i32, JobInfo)| (e.0, e.1@));
        let entries = jobs_of(found);
        proof {
            assert(job_views(entries@) =~= walked_jobs(walk));
            assert(walk_of(old(self)@, walk));
        }
        let resp = self.get_jobs_with(head, req, entries);
        Ok(IppReply::Response(resp))
    }

    /// Get-Printer-Attributes: success, and the printer attributes that are asked for.
    fn get_printer_attributes(&mut self, head: &RequestHead, req: IppRequestResponse<P>) -> (r:
        IppResult<P>)
        ensures
            r is Ok,
            r->Ok_0@ == ReplyView::Response(printer_attributes_reply(old(self)@, head@, req@)),
            final(self)@ == old(self)@,
    {
        let mut resp = IppRequestResponse::new_response(
            req.header.version,
            StatusCode::SuccessfulOk,
            req.header.request_id,
        );
        proof {
            lemma_with_basic_again(resp@.attributes);
        }
        add_basic_attributes(&mut resp.attributes);
        let requested = get_requested_attributes(&req.attributes);
        let list = self.printer_attributes(head, &requested);
        let mut group = IppAttributeGroup::new(DelimiterTag::PrinterAttributes);
        group.extend(list);
        resp.attributes.push_group(group);
        Ok(IppReply::Response(resp))
    }

    /// The sink is done with the document of `ticket`: see
    /// [`SimpleIppService::finish_document`].
    fn document_handled(
        &mut self,
        head: &RequestHead,
        ticket: DocumentTicket,
        outcome: Result<(), ServiceError>,
    ) -> (r: IppRequestResponse<P>)
        ensures
            message_view::<P>(r) == handled_reply::<P>(old(self)@, head@, ticket@, outcome),
            final(self)@.holds_after(
                old(self)@,
                old(self)@.next_job_id,
                finished(ticket.job@, outcome, head.uptime),
            ),
    {
        self.finish_document::<P>(head, ticket, outcome)
    }

    /// Answers a request, as [`answers`] says.
    fn handle_request(&mut self, head: &RequestHead, req: IppRequestResponse<P>) -> (reply:
        IppReply<P>)
        ensures
            answers(old(self)@, head@, req@, reply@, final(self)@),
    {
        let req_id = req.header.request_id;
        let version = req.header.version;
        if version.major > 2 {
            return IppReply::Response(
                build_error_response(
                    IppVersion::v2_0(),
                    req_id,
                    ServiceError::Ipp(
                        IppError::from_status(StatusCode::ServerErrorVersionNotSupported),
                    ),
                ),
            );
        }
        let ghost before = self@;
        let ghost request = req@;
        let result = match Operation::from_u16(req.header.operation_or_status) {
            Some(op) => match op {
                Operation::PrintJob => self.print_job(head, req),
                Operation::PrintUri => self.print_uri(head, req),
                Operation::ValidateJob => self.validate_job(head, req),
                Operation::CreateJob => self.create_job(head, req),
                Operation::SendDocument => {
                    let r = self.send_document(head, req);
                    proof {
                        let lookup = choose|lookup: Result<JobInfoView, IppErrorView>|
                            {
                                &&& #[trigger] looked_up(before, request.attributes, lookup)
                                &&& gives(r, send_document_reply(before, head@, request, lookup))
                                &&& after_send_document(before, self@, lookup, head.uptime)
                            };
                        assert(reply_for(version, req_id, r) == answer_to(
                            version,
                            req_id,
                            send_document_reply(before, head@, request, lookup),
                        ));
                    }
                    r
                },
                Operation::SendUri => self.send_uri(head, req),
                Operation::CancelJob => self.cancel_job(head, req),
                Operation::GetJobAttributes => {
                    let r = self.get_job_attributes(head, req);
                    proof {
                        let lookup = choose|lookup: Result<JobInfoView, IppErrorView>|
                            {
                                &&& #[trigger] looked_up(before, request.attributes, lookup)
                                &&& gives(r, job_attributes_reply(before, head@, request, lookup))
                            };
                        assert(reply_for(version, req_id, r) == answer_to(
                            version,
                            req_id,
                            job_attributes_reply(before, head@, request, lookup),
                        ));
                    }
                    r
                },
                Operation::GetJobs => self.get_jobs(head, req),
                Operation::GetPrinterAttributes => self.get_printer_attributes(head, req),
                Operation::HoldJob => self.hold_job(head, req),
                Operation::ReleaseJob => self.release_job(head, req),
                Operation::RestartJob => self.restart_job(head, req),
                Operation::PausePrinter => self.pause_printer(head, req),
                Operation::ResumePrinter => self.resume_printer(head, req),
                Operation::PurgeJobs => self.purge_jobs(head, req),
            },
            None => Err(operation_not_supported()),
        };
        let reply = answer(version, req_id, result);
        assert(reply@ == reply_for(version, req_id, result));
        reply
    }
}

} // verus!

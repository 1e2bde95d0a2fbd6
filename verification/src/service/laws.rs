//! What holds of the service whatever it is asked: of the ids and the times
//! of its jobs, of the attributes that open its responses, and that its
//! responses can be written on the wire.
use crate::attribute::{
    distinct_names, groups_wf, lemma_first_index_is, lemma_with_attributes_distinct, lookup, named,
    GroupView,
};
use crate::error::{IppError, IppErrorView};
use crate::model::{DelimiterTag, IppVersion, JobState, Operation, WhichJob};
use crate::request::{
    basic_group, charset_attribute, language_attribute, lemma_basic_names_differ, plain_response,
    MessageView,
};
use crate::service::common::{
    error_response, lemma_status_message_name, status_message, ReplyView, ServiceError,
    TicketView,
};
use crate::service::job::{job_attributes, lemma_lite_names_distinct, JobInfoView};
use crate::service::printer::{printer_attributes, security};
use crate::service::simple::{
    after_send_document, answer_to, answers, create_job_reply, document_reply, finished,
    handled_reply, job_attributes_reply, job_groups, jobs_reply, limit, listed_jobs, looked_up,
    new_job, next_id, of_class, printer_attributes_reply, processing, requested_job_id,
    send_document_reply, walk_of, walked_jobs, which_jobs, HeadView, ServiceView, FIRST_JOB_ID,
};
use crate::utils::requested_names;
use crate::service::store::no_jobs;
use crate::service::writable::{
    all_ok, failure_short, info_writable, job_writable, lemma_basic_group_ok, lemma_error_group_ok,
    lemma_finished_writable, lemma_holds_after_writable, lemma_job_attributes_ok, lemma_lite_ok,
    lemma_new_job_writable, lemma_printer_attributes_ok, lemma_processing_writable,
    lemma_state_words, lemma_status_text_short, request_short, short, store_writable, urls_short,
};
use crate::status::StatusCode;
use crate::value::IppValueView;
use crate::wire::{encodable, group_ok, value_ok};
use vstd::prelude::*;

verus! {

/// The first group of `groups` holds the operation attributes, and these
/// open with `attributes-charset = "utf-8"`, then
/// `attributes-natural-language = "en"`.
pub open spec fn opens_with_basic(groups: Seq<GroupView>) -> bool {
    &&& groups.len() > 0
    &&& groups[0].tag == DelimiterTag::OperationAttributes
    &&& groups[0].attributes.len() >= 2
    &&& groups[0].attributes[0] == charset_attribute()
    &&& groups[0].attributes[1] == language_attribute()
}

/// Every response that the service makes, of success or of failure, opens
/// with the charset and then the language.
pub proof fn lemma_responses_open_with_basic<P>(
    s: ServiceView,
    h: HeadView,
    req: MessageView<P>,
    ticket: TicketView,
    outcome: Result<(), ServiceError>,
    job: JobInfoView,
    entries: Seq<JobInfoView>,
    e: IppErrorView,
)
    ensures
        opens_with_basic(
            plain_response::<P>(
                req.header.version,
                StatusCode::SuccessfulOk,
                req.header.request_id,
            ).attributes,
        ),
        opens_with_basic(error_response::<P>(req.header.version, req.header.request_id, e).attributes),
        opens_with_basic(create_job_reply(s, h, req).attributes),
        opens_with_basic(printer_attributes_reply(s, h, req).attributes),
        opens_with_basic(jobs_reply(s, h, req, entries).attributes),
        opens_with_basic(handled_reply::<P>(s, h, ticket, outcome).attributes),
        job_attributes_reply(s, h, req, Ok(job)) matches Ok(
            crate::service::common::ReplyView::Response(r),
        ) && opens_with_basic(r.attributes),
{
}

/// Every response that the service makes is well formed: no group of it
/// holds two attributes of one name. That each can be written as well, where
/// the strings in it are short, is [`lemma_responses_can_be_written`].
pub proof fn lemma_responses_well_formed<P>(
    s: ServiceView,
    h: HeadView,
    req: MessageView<P>,
    ticket: TicketView,
    outcome: Result<(), ServiceError>,
    job: JobInfoView,
    entries: Seq<JobInfoView>,
    e: IppErrorView,
)
    ensures
        groups_wf(
            plain_response::<P>(
                req.header.version,
                StatusCode::SuccessfulOk,
                req.header.request_id,
            ).attributes,
        ),
        groups_wf(error_response::<P>(req.header.version, req.header.request_id, e).attributes),
        groups_wf(create_job_reply(s, h, req).attributes),
        groups_wf(printer_attributes_reply(s, h, req).attributes),
        groups_wf(jobs_reply(s, h, req, entries).attributes),
        groups_wf(handled_reply::<P>(s, h, ticket, outcome).attributes),
        job_attributes_reply(s, h, req, Ok(job)) matches Ok(
            crate::service::common::ReplyView::Response(r),
        ) && groups_wf(r.attributes),
{
    lemma_basic_names_differ();
    lemma_status_message_name();
    assert(distinct_names(basic_group().attributes));
    let failed = error_response::<P>(req.header.version, req.header.request_id, e);
    assert(distinct_names(failed.attributes[0].attributes));
    // The group that confirms a job.
    let created = new_job(s, h, req.attributes, JobState::Pending, "Pending"@);
    lemma_lite_names_distinct(created, s.job_uri(h, created.id));
    let done = finished(ticket.job, outcome, h.uptime);
    lemma_lite_names_distinct(done, s.job_uri(h, done.id));
    match outcome {
        Ok(_) => {},
        Err(error) => {
            let report = error_response::<P>(ticket.version, ticket.request_id, error@.reported());
            assert(distinct_names(report.attributes[0].attributes));
        },
    }
    // The group of printer attributes.
    let requested = requested_names(req.attributes);
    lemma_with_attributes_distinct(
        Seq::empty(),
        printer_attributes(s.info, s.printer_uri(h), security(h.scheme), h.uptime, requested),
    );
    // The groups of job attributes.
    lemma_with_attributes_distinct(
        Seq::empty(),
        job_attributes(job, s.job_uri(h, job.id), s.printer_uri(h), h.uptime, requested),
    );
    let listed = listed_jobs(entries, which_jobs(req.attributes), limit(req.attributes));
    let groups = job_groups(s, h, listed, requested);
    assert forall|i: int| 0 <= i < groups.len() implies distinct_names(
        (#[trigger] groups[i]).attributes,
    ) by {
        lemma_with_attributes_distinct(
            Seq::empty(),
            job_attributes(
                listed[i],
                s.job_uri(h, listed[i].id),
                s.printer_uri(h),
                h.uptime,
                requested,
            ),
        );
    }
    let all = jobs_reply(s, h, req, entries).attributes;
    assert forall|i: int| 0 <= i < all.len() implies distinct_names(
        (#[trigger] all[i]).attributes,
    ) by {
        if i >= 1 {
            assert(all[i] == groups[i - 1]);
        }
    }
}

/// The response that reports success and no more can be written.
pub proof fn lemma_plain_is_written<P>(version: IppVersion, status: StatusCode, id: u32)
    ensures
        encodable(plain_response::<P>(version, status, id).attributes),
{
    lemma_basic_group_ok();
}

/// The response that reports an error can be written, where the message is short.
pub proof fn lemma_error_is_written<P>(version: IppVersion, id: u32, e: IppErrorView)
    requires
        short(e.msg),
    ensures
        encodable(error_response::<P>(version, id, e).attributes),
{
    lemma_error_group_ok(e.msg);
}

/// The answer to Create-Job can be written, where the URL of the job is short.
pub proof fn lemma_create_job_is_written<P>(s: ServiceView, h: HeadView, req: MessageView<P>)
    requires
        urls_short(s, h),
    ensures
        encodable(create_job_reply(s, h, req).attributes),
{
    reveal(all_ok);
    lemma_basic_group_ok();
    lemma_state_words();
    let created = new_job(s, h, req.attributes, JobState::Pending, "Pending"@);
    assert(short(s.job_uri(h, created.id)));
    lemma_lite_ok(created, s.job_uri(h, created.id));
    let all = create_job_reply(s, h, req).attributes;
    assert(group_ok(all[0]));
    assert(group_ok(all[1]));
}

/// The answer once the sink is done with a document can be written, where
/// the URL of the job and the words of the sink's failure are short and the
/// reasons for the job's state can be written.
pub proof fn lemma_handled_is_written<P>(
    s: ServiceView,
    h: HeadView,
    ticket: TicketView,
    outcome: Result<(), ServiceError>,
)
    requires
        urls_short(s, h),
        value_ok(ticket.job.state_reasons),
        failure_short(outcome),
    ensures
        encodable(handled_reply::<P>(s, h, ticket, outcome).attributes),
{
    reveal(all_ok);
    lemma_basic_group_ok();
    lemma_state_words();
    let done = finished(ticket.job, outcome, h.uptime);
    assert(short(s.job_uri(h, done.id)));
    lemma_lite_ok(done, s.job_uri(h, done.id));
    match outcome {
        Ok(_) => {},
        Err(error) => {
            lemma_error_group_ok(error@.reported().msg);
        },
    }
    let handled = handled_reply::<P>(s, h, ticket, outcome).attributes;
    assert(group_ok(handled[0]));
    assert(group_ok(handled[1]));
}

/// The answer to Get-Printer-Attributes can be written, where the printer's
/// strings and its URL are short.
pub proof fn lemma_printer_attributes_are_written<P>(
    s: ServiceView,
    h: HeadView,
    req: MessageView<P>,
)
    requires
        info_writable(s.info),
        urls_short(s, h),
    ensures
        encodable(printer_attributes_reply(s, h, req).attributes),
{
    reveal(all_ok);
    lemma_basic_group_ok();
    lemma_printer_attributes_ok(
        s.info,
        s.printer_uri(h),
        h.scheme,
        h.uptime,
        requested_names(req.attributes),
    );
    let reported = printer_attributes_reply(s, h, req).attributes;
    assert(group_ok(reported[0]));
    assert(group_ok(reported[1]));
}

/// The answer to Get-Job-Attributes for a job that is found can be written,
/// where the strings of the job and the URLs are short.
pub proof fn lemma_job_attributes_are_written<P>(
    s: ServiceView,
    h: HeadView,
    req: MessageView<P>,
    job: JobInfoView,
)
    requires
        urls_short(s, h),
        job_writable(job),
    ensures
        job_attributes_reply(s, h, req, Ok(job)) matches Ok(ReplyView::Response(r)) && encodable(
            r.attributes,
        ),
{
    reveal(all_ok);
    lemma_basic_group_ok();
    assert(short(s.job_uri(h, job.id)));
    lemma_job_attributes_ok(
        job,
        s.job_uri(h, job.id),
        s.printer_uri(h),
        h.uptime,
        requested_names(req.attributes),
    );
    let r = job_attributes_reply(s, h, req, Ok(job))->Ok_0->Response_0;
    assert(group_ok(r.attributes[0]));
    assert(group_ok(r.attributes[1]));
}

/// The answer to Get-Jobs can be written, where the strings of the jobs
/// that the cache gave and the URLs are short.
pub proof fn lemma_jobs_are_written<P>(
    s: ServiceView,
    h: HeadView,
    req: MessageView<P>,
    entries: Seq<JobInfoView>,
)
    requires
        urls_short(s, h),
        forall|i: int| 0 <= i < entries.len() ==> job_writable(#[trigger] entries[i]),
    ensures
        encodable(jobs_reply(s, h, req, entries).attributes),
{
    reveal(all_ok);
    lemma_basic_group_ok();
    let requested = requested_names(req.attributes);
    let which = which_jobs(req.attributes);
    let listed = listed_jobs(entries, which, limit(req.attributes));
    let places = lemma_filter_places(entries, of_class(which));
    let groups = job_groups(s, h, listed, requested);
    assert forall|i: int| 0 <= i < groups.len() implies group_ok(#[trigger] groups[i]) by {
        assert(short(s.job_uri(h, listed[i].id)));
        assert(job_writable(listed[i])) by {
            let matching = entries.filter(of_class(which));
            assert(listed[i] == matching[i]);
            assert(matching[i] == entries[places[i]]);
        }
        lemma_job_attributes_ok(
            listed[i],
            s.job_uri(h, listed[i].id),
            s.printer_uri(h),
            h.uptime,
            requested,
        );
    }
    let all = jobs_reply(s, h, req, entries).attributes;
    assert forall|i: int| 0 <= i < all.len() implies group_ok(#[trigger] all[i]) by {
        if i >= 1 {
            assert(all[i] == groups[i - 1]);
        }
    }
}

/// Every response that the service makes can be written on the wire, where
/// the strings that the printer was configured with, the URLs that the
/// service makes, the strings of the jobs and the words of the failures
/// are short enough for their length to be stated.
pub proof fn lemma_responses_can_be_written<P>(
    s: ServiceView,
    h: HeadView,
    req: MessageView<P>,
    ticket: TicketView,
    outcome: Result<(), ServiceError>,
    job: JobInfoView,
    entries: Seq<JobInfoView>,
    e: IppErrorView,
)
    requires
        info_writable(s.info),
        urls_short(s, h),
        short(e.msg),
        value_ok(ticket.job.state_reasons),
        failure_short(outcome),
        job_writable(job),
        forall|i: int| 0 <= i < entries.len() ==> job_writable(#[trigger] entries[i]),
    ensures
        encodable(
            plain_response::<P>(
                req.header.version,
                StatusCode::SuccessfulOk,
                req.header.request_id,
            ).attributes,
        ),
        encodable(error_response::<P>(req.header.version, req.header.request_id, e).attributes),
        encodable(create_job_reply(s, h, req).attributes),
        encodable(printer_attributes_reply(s, h, req).attributes),
        encodable(jobs_reply(s, h, req, entries).attributes),
        encodable(handled_reply::<P>(s, h, ticket, outcome).attributes),
        job_attributes_reply(s, h, req, Ok(job)) matches Ok(ReplyView::Response(r)) && encodable(
            r.attributes,
        ),
{
    lemma_plain_is_written::<P>(
        req.header.version,
        StatusCode::SuccessfulOk,
        req.header.request_id,
    );
    lemma_error_is_written::<P>(req.header.version, req.header.request_id, e);
    lemma_create_job_is_written(s, h, req);
    lemma_printer_attributes_are_written(s, h, req);
    lemma_jobs_are_written(s, h, req, entries);
    lemma_handled_is_written::<P>(s, h, ticket, outcome);
    lemma_job_attributes_are_written(s, h, req, job);
}

/// Whatever the service answers a request with can be written on the wire,
/// where the printer's strings, the URLs and the jobs that the service holds
/// are short enough. Where what the request brings for a new job is short
/// enough too, the service holds only such jobs afterwards, and hands only
/// such a job on with a document.
#[verifier::rlimit(40)]
pub proof fn lemma_answer_can_be_written<P>(
    s: ServiceView,
    h: HeadView,
    req: MessageView<P>,
    reply: ReplyView<P>,
    after: ServiceView,
)
    requires
        answers(s, h, req, reply, after),
        info_writable(s.info),
        urls_short(s, h),
        store_writable(s),
    ensures
        reply matches ReplyView::Response(r) ==> encodable(r.attributes),
        request_short(req.attributes) ==> {
            &&& after.info == s.info
            &&& store_writable(after)
            &&& (reply matches ReplyView::Document(task) ==> job_writable(task.ticket.job))
        },
{
    let version = req.header.version;
    let id = req.header.request_id;
    lemma_state_words();
    lemma_status_text_short(StatusCode::ServerErrorVersionNotSupported);
    lemma_status_text_short(StatusCode::ServerErrorOperationNotSupported);
    lemma_status_text_short(StatusCode::ClientErrorDocumentFormatNotSupported);
    lemma_status_text_short(StatusCode::ClientErrorCompressionNotSupported);
    lemma_status_text_short(StatusCode::ClientErrorNotFound);
    if version.major > 2 {
        let e = IppError::of_status(StatusCode::ServerErrorVersionNotSupported);
        lemma_error_is_written::<P>(IppVersion::of(2, 0), id, e);
    } else {
        let unsupported = IppError::of_status(StatusCode::ServerErrorOperationNotSupported);
        lemma_error_is_written::<P>(version, id, unsupported);
        lemma_plain_is_written::<P>(version, StatusCode::SuccessfulOk, id);
        match Operation::of_code(req.header.operation_or_status) {
            Some(Operation::PrintJob) => {
                let job = new_job(s, h, req.attributes, JobState::Processing, "Processing"@);
                match document_reply(s.info, req, job) {
                    Ok(_) => {},
                    Err(e) => {
                        lemma_error_is_written::<P>(version, id, e.reported());
                    },
                }
                if request_short(req.attributes) {
                    lemma_new_job_writable(
                        s,
                        h,
                        req.attributes,
                        JobState::Processing,
                        "Processing"@,
                    );
                    lemma_holds_after_writable(s, after, next_id(s.next_job_id), job);
                }
            },
            Some(Operation::CreateJob) => {
                let job = new_job(s, h, req.attributes, JobState::Pending, "Pending"@);
                lemma_create_job_is_written(s, h, req);
                if request_short(req.attributes) {
                    lemma_new_job_writable(s, h, req.attributes, JobState::Pending, "Pending"@);
                    lemma_holds_after_writable(s, after, next_id(s.next_job_id), job);
                }
            },
            Some(Operation::SendDocument) => {
                let given = choose|lookup: Result<JobInfoView, IppErrorView>|
                    {
                        &&& #[trigger] looked_up(s, req.attributes, lookup)
                        &&& reply == answer_to(
                            version,
                            id,
                            send_document_reply(s, h, req, lookup),
                        )
                        &&& after_send_document(s, after, lookup, h.uptime)
                    };
                match given {
                    Ok(j) => {
                        let k = requested_job_id(req.attributes)->Some_0;
                        assert(s.jobs.contains_key(k));
                        lemma_processing_writable(j, h.uptime);
                        match document_reply(s.info, req, processing(j, h.uptime)) {
                            Ok(_) => {},
                            Err(e) => {
                                lemma_error_is_written::<P>(version, id, e.reported());
                            },
                        }
                        if j.state != JobState::Processing {
                            lemma_holds_after_writable(
                                s,
                                after,
                                s.next_job_id,
                                processing(j, h.uptime),
                            );
                        }
                    },
                    Err(e) => {
                        lemma_error_is_written::<P>(version, id, e);
                    },
                }
            },
            Some(Operation::GetJobAttributes) => {
                let given = choose|lookup: Result<JobInfoView, IppErrorView>|
                    {
                        &&& #[trigger] looked_up(s, req.attributes, lookup)
                        &&& reply == answer_to(
                            version,
                            id,
                            job_attributes_reply(s, h, req, lookup),
                        )
                    };
                match given {
                    Ok(j) => {
                        let k = requested_job_id(req.attributes)->Some_0;
                        assert(s.jobs.contains_key(k));
                        lemma_job_attributes_are_written(s, h, req, j);
                    },
                    Err(e) => {
                        lemma_error_is_written::<P>(version, id, e);
                    },
                }
            },
            Some(Operation::GetJobs) => {
                let walk = choose|walk: Seq<(i32, JobInfoView)>|
                    {
                        &&& #[trigger] walk_of(s, walk)
                        &&& reply == ReplyView::Response(jobs_reply(s, h, req, walked_jobs(walk)))
                    };
                let entries = walked_jobs(walk);
                assert forall|i: int| 0 <= i < entries.len() implies job_writable(
                    #[trigger] entries[i],
                ) by {
                    assert(s.jobs.contains_key(walk[i].0));
                }
                lemma_jobs_are_written(s, h, req, entries);
            },
            Some(Operation::GetPrinterAttributes) => {
                lemma_printer_attributes_are_written(s, h, req);
            },
            _ => {},
        }
    }
}

/// What the service answers with once the sink is done with a document can
/// be written, and the service holds only jobs that can be written
/// afterwards, where it did before, the job of the ticket is such a job,
/// and the words of the sink's failure are short.
pub proof fn lemma_document_handled_can_be_written<P>(
    s: ServiceView,
    h: HeadView,
    after: ServiceView,
    ticket: TicketView,
    outcome: Result<(), ServiceError>,
)
    requires
        urls_short(s, h),
        store_writable(s),
        job_writable(ticket.job),
        failure_short(outcome),
        after.holds_after(s, s.next_job_id, finished(ticket.job, outcome, h.uptime)),
    ensures
        encodable(handled_reply::<P>(s, h, ticket, outcome).attributes),
        store_writable(after),
{
    lemma_handled_is_written::<P>(s, h, ticket, outcome);
    lemma_finished_writable(ticket.job, outcome, h.uptime);
    lemma_holds_after_writable(
        s,
        after,
        s.next_job_id,
        finished(ticket.job, outcome, h.uptime),
    );
}

/// Every error response holds `status-message`, with the words of the error.
pub proof fn lemma_error_response_has_message<P>(version: IppVersion, id: u32, e: IppErrorView)
    ensures
        error_response::<P>(version, id, e).header.operation_or_status == e.code.code(),
        error_response::<P>(version, id, e).header.request_id == id,
        lookup(error_response::<P>(version, id, e).attributes[0].attributes, "status-message"@)
            == Some(status_message(e.msg)),
        status_message(e.msg).value == IppValueView::TextWithoutLanguage(e.msg),
{
    lemma_status_message_name();
    lemma_basic_names_differ();
    lemma_first_index_is(
        error_response::<P>(version, id, e).attributes[0].attributes,
        named("status-message"@),
        2,
    );
}

/// The response after a failure of the sink is an error response too: it
/// holds `status-message`.
pub proof fn lemma_failed_document_has_message<P>(
    s: ServiceView,
    h: HeadView,
    ticket: TicketView,
    error: ServiceError,
)
    ensures
        lookup(
            handled_reply::<P>(s, h, ticket, Err(error)).attributes[0].attributes,
            "status-message"@,
        ) == Some(status_message(error@.reported().msg)),
{
    lemma_error_response_has_message::<P>(ticket.version, ticket.request_id, error@.reported());
}

/// The id of the `n`-th job after the one with the id `first`.
pub open spec fn nth_id(first: i32, n: nat) -> i32
    decreases n,
{
    if n == 0 {
        first
    } else {
        next_id(nth_id(first, (n - 1) as nat))
    }
}

/// As long as the count of ids has not started over, the `n`-th id after
/// `first` is `first + n`.
pub proof fn lemma_nth_id(first: i32, n: nat)
    requires
        first + n <= i32::MAX,
    ensures
        nth_id(first, n) == first + n,
    decreases n,
{
    if n > 0 {
        lemma_nth_id(first, (n - 1) as nat);
    }
}

/// The ids that one server gives out are at least 1000, and no two of them
/// are the same, as long as the count of ids has not started over.
pub proof fn lemma_job_ids_distinct(i: nat, j: nat)
    requires
        i < j,
        FIRST_JOB_ID + j <= i32::MAX,
    ensures
        nth_id(FIRST_JOB_ID, i) >= FIRST_JOB_ID,
        nth_id(FIRST_JOB_ID, j) >= FIRST_JOB_ID,
        nth_id(FIRST_JOB_ID, i) != nth_id(FIRST_JOB_ID, j),
{
    lemma_nth_id(FIRST_JOB_ID, i);
    lemma_nth_id(FIRST_JOB_ID, j);
}

/// A new service holds no jobs: the ids and the times of its jobs are in order.
pub proof fn lemma_new_service_in_order(s: ServiceView, now: u64)
    requires
        s.next_job_id == FIRST_JOB_ID,
        s.jobs == no_jobs(),
    ensures
        s.ids_valid(),
        s.timed_until(now),
{
}

/// Creating a job keeps the ids in order, as long as the count of ids does
/// not start over: every job still has an id of at least 1000, below the
/// next id, and is kept under it.
pub proof fn lemma_create_keeps_ids(before: ServiceView, after: ServiceView, job: JobInfoView)
    requires
        before.ids_valid(),
        before.next_job_id < i32::MAX,
        job.id == before.next_job_id,
        after.holds_after(before, next_id(before.next_job_id), job),
    ensures
        after.ids_valid(),
        after.next_job_id == before.next_job_id + 1,
{
    assert forall|k: i32| #[trigger] after.jobs.contains_key(k) implies FIRST_JOB_ID <= k
        < after.next_job_id && after.jobs[k].id == k by {
        assert(before.jobs.insert(job.id, job).contains_key(k));
    }
}

/// Changing a job that has an id of its server keeps the ids in order.
pub proof fn lemma_update_keeps_ids(before: ServiceView, after: ServiceView, job: JobInfoView)
    requires
        before.ids_valid(),
        FIRST_JOB_ID <= job.id < before.next_job_id,
        after.holds_after(before, before.next_job_id, job),
    ensures
        after.ids_valid(),
{
    assert forall|k: i32| #[trigger] after.jobs.contains_key(k) implies FIRST_JOB_ID <= k
        < after.next_job_id && after.jobs[k].id == k by {
        assert(before.jobs.insert(job.id, job).contains_key(k));
    }
}

/// A job is created with its times in order.
pub proof fn lemma_new_job_timed(
    s: ServiceView,
    h: HeadView,
    groups: Seq<GroupView>,
    state: JobState,
    message: Seq<char>,
)
    ensures
        new_job(s, h, groups, state, message).timed(),
        new_job(s, h, groups, state, message).latest() == h.uptime,
        new_job(s, h, groups, state, message).id == s.next_job_id,
{
}

/// A job that was not completed before has its times in order once its
/// processing has begun, where the clock has not gone back.
pub proof fn lemma_processing_timed(job: JobInfoView, now: u64)
    requires
        job.timed(),
        job.latest() <= now,
        job.completed_at is None,
    ensures
        processing(job, now).timed(),
        processing(job, now).latest() <= now,
        processing(job, now).id == job.id,
{
}

/// A job has its times in order once the sink is done with its document,
/// where the clock has not gone back: it is completed or aborted, and the
/// time of that is set and is the latest of its times.
pub proof fn lemma_finished_timed(job: JobInfoView, outcome: Result<(), ServiceError>, now: u64)
    requires
        match job.processing_at {
            Some(p) => job.created_at <= p && p <= now,
            None => job.created_at <= now,
        },
    ensures
        finished(job, outcome, now).timed(),
        finished(job, outcome, now).completed_at == Some(now),
        finished(job, outcome, now).latest() == now,
        finished(job, outcome, now).id == job.id,
        finished(job, outcome, now).state == JobState::Completed || finished(
            job,
            outcome,
            now,
        ).state == JobState::Aborted,
{
}

/// Putting a job with its times in order into the service keeps the times
/// of all jobs in order.
pub proof fn lemma_holds_after_timed(
    before: ServiceView,
    after: ServiceView,
    next_job_id: i32,
    job: JobInfoView,
    now: u64,
)
    requires
        before.timed_until(now),
        job.timed(),
        job.latest() <= now,
        after.holds_after(before, next_job_id, job),
    ensures
        after.timed_until(now),
{
    assert forall|k: i32| #[trigger] after.jobs.contains_key(k) implies after.jobs[k].timed()
        && after.jobs[k].latest() <= now by {
        assert(before.jobs.insert(job.id, job).contains_key(k));
    }
}

/// Times that are in order stay in order as the clock goes on.
pub proof fn lemma_timed_later(s: ServiceView, now: u64, later: u64)
    requires
        s.timed_until(now),
        now <= later,
    ensures
        s.timed_until(later),
{
}

/// Every answer of the service answers the request it was given: a
/// response carries the id of the request, and so does the ticket of a
/// document that is to be handled first.
pub proof fn lemma_answer_carries_request_id<P>(
    s: ServiceView,
    h: HeadView,
    req: MessageView<P>,
    reply: ReplyView<P>,
    after: ServiceView,
)
    requires
        answers(s, h, req, reply, after),
    ensures
        reply.request_id() == req.header.request_id,
{
}

/// Every response that the service answers a request with opens with the
/// charset and then the language, and where it does not report success, it
/// holds `status-message`.
pub proof fn lemma_answer_is_well_formed<P>(
    s: ServiceView,
    h: HeadView,
    req: MessageView<P>,
    reply: ReplyView<P>,
    after: ServiceView,
)
    requires
        answers(s, h, req, reply, after),
        reply is Response,
    ensures
        opens_with_basic(reply->Response_0.attributes),
        reply->Response_0.header.operation_or_status == StatusCode::SuccessfulOk.code() || lookup(
            reply->Response_0.attributes[0].attributes,
            "status-message"@,
        ) is Some,
{
    let r = reply->Response_0;
    if r.header.operation_or_status != StatusCode::SuccessfulOk.code() {
        // A response that reports a failure was made as an error response.
        let e = choose|e: IppErrorView|
            r == error_response::<P>(r.header.version, r.header.request_id, e);
        assert(exists|e: IppErrorView|
            r == #[trigger] error_response::<P>(r.header.version, r.header.request_id, e)) by {
            lemma_failure_is_error_response(s, h, req, reply, after);
        }
        lemma_error_response_has_message::<P>(r.header.version, r.header.request_id, e);
    }
}

/// A response of the service that does not report success is an error response.
pub proof fn lemma_failure_is_error_response<P>(
    s: ServiceView,
    h: HeadView,
    req: MessageView<P>,
    reply: ReplyView<P>,
    after: ServiceView,
)
    requires
        answers(s, h, req, reply, after),
        reply is Response,
    ensures
        opens_with_basic(reply->Response_0.attributes),
        reply->Response_0.header.operation_or_status != StatusCode::SuccessfulOk.code()
            ==> exists|e: IppErrorView|
            reply->Response_0 == #[trigger] error_response::<P>(
                reply->Response_0.header.version,
                reply->Response_0.header.request_id,
                e,
            ),
{
    let r = reply->Response_0;
    let version = req.header.version;
    let id = req.header.request_id;
    if version.major > 2 {
        let e = IppError::of_status(StatusCode::ServerErrorVersionNotSupported);
        assert(r == error_response::<P>(r.header.version, r.header.request_id, e));
    } else {
        match Operation::of_code(req.header.operation_or_status) {
            Some(Operation::PrintJob) => {
                let job = new_job(s, h, req.attributes, JobState::Processing, "Processing"@);
                match document_reply(s.info, req, job) {
                    Ok(_) => {},
                    Err(e) => {
                        assert(r == error_response::<P>(
                            r.header.version,
                            r.header.request_id,
                            e.reported(),
                        ));
                    },
                }
            },
            Some(Operation::ValidateJob) => {},
            Some(Operation::CreateJob) => {},
            Some(Operation::SendDocument) => {
                let given = choose|lookup: Result<JobInfoView, IppErrorView>|
                    {
                        &&& #[trigger] looked_up(s, req.attributes, lookup)
                        &&& reply == answer_to(
                            version,
                            id,
                            send_document_reply(s, h, req, lookup),
                        )
                        &&& after_send_document(s, after, lookup, h.uptime)
                    };
                match send_document_reply(s, h, req, given) {
                    Ok(_) => {},
                    Err(e) => {
                        assert(r == error_response::<P>(
                            r.header.version,
                            r.header.request_id,
                            e.reported(),
                        ));
                    },
                }
            },
            Some(Operation::CancelJob) => {},
            Some(Operation::GetJobAttributes) => {
                let given = choose|lookup: Result<JobInfoView, IppErrorView>|
                    {
                        &&& #[trigger] looked_up(s, req.attributes, lookup)
                        &&& reply == answer_to(
                            version,
                            id,
                            job_attributes_reply(s, h, req, lookup),
                        )
                    };
                match job_attributes_reply(s, h, req, given) {
                    Ok(_) => {},
                    Err(e) => {
                        assert(r == error_response::<P>(
                            r.header.version,
                            r.header.request_id,
                            e.reported(),
                        ));
                    },
                }
            },
            Some(Operation::GetJobs) => {},
            Some(Operation::GetPrinterAttributes) => {},
            _ => {
                let e = IppError::of_status(StatusCode::ServerErrorOperationNotSupported);
                assert(r == error_response::<P>(r.header.version, r.header.request_id, e));
            },
        }
    }
}

/// The jobs of the service are in order: their ids are, and their times
/// are and are not later than `now`.
pub open spec fn in_order(s: ServiceView, now: u64) -> bool {
    s.ids_valid() && s.timed_until(now)
}

/// Whether a request asks to send a document for a job that was completed
/// before. Such a job begins to be processed again, after the time of its
/// completion, and so has its times out of order until the sink is done
/// with the new document.
pub open spec fn reopens<P>(s: ServiceView, req: MessageView<P>) -> bool {
    &&& Operation::of_code(req.header.operation_or_status) == Some(Operation::SendDocument)
    &&& requested_job_id(req.attributes) matches Some(id) && s.jobs.contains_key(id)
        && s.jobs[id].completed_at is Some
}

/// Answering a request keeps the jobs of the service in order, as long as
/// the clock has not gone back, the count of ids does not start over, and
/// the request does not reopen a job that was completed.
pub proof fn lemma_answer_keeps_order<P>(
    s: ServiceView,
    h: HeadView,
    req: MessageView<P>,
    reply: ReplyView<P>,
    after: ServiceView,
)
    requires
        answers(s, h, req, reply, after),
        in_order(s, h.uptime),
        s.next_job_id < i32::MAX,
        !reopens(s, req),
    ensures
        in_order(after, h.uptime),
        reply matches ReplyView::Document(task) ==> {
            &&& FIRST_JOB_ID <= task.ticket.job.id < after.next_job_id
            &&& task.ticket.job.timed()
            &&& task.ticket.job.latest() <= h.uptime
            &&& task.ticket.job.completed_at is None
        },
{
    let version = req.header.version;
    let id = req.header.request_id;
    if version.major <= 2 {
        match Operation::of_code(req.header.operation_or_status) {
            Some(Operation::PrintJob) => {
                let job = new_job(s, h, req.attributes, JobState::Processing, "Processing"@);
                lemma_create_keeps_ids(s, after, job);
                lemma_holds_after_timed(s, after, next_id(s.next_job_id), job, h.uptime);
            },
            Some(Operation::CreateJob) => {
                let job = new_job(s, h, req.attributes, JobState::Pending, "Pending"@);
                lemma_create_keeps_ids(s, after, job);
                lemma_holds_after_timed(s, after, next_id(s.next_job_id), job, h.uptime);
            },
            Some(Operation::SendDocument) => {
                let given = choose|lookup: Result<JobInfoView, IppErrorView>|
                    {
                        &&& #[trigger] looked_up(s, req.attributes, lookup)
                        &&& reply == answer_to(
                            version,
                            id,
                            send_document_reply(s, h, req, lookup),
                        )
                        &&& after_send_document(s, after, lookup, h.uptime)
                    };
                match given {
                    Ok(j) => {
                        let k = requested_job_id(req.attributes)->Some_0;
                        assert(s.jobs.contains_key(k));
                        lemma_processing_timed(j, h.uptime);
                        if j.state != JobState::Processing {
                            lemma_update_keeps_ids(s, after, processing(j, h.uptime));
                            lemma_holds_after_timed(
                                s,
                                after,
                                s.next_job_id,
                                processing(j, h.uptime),
                                h.uptime,
                            );
                        }
                    },
                    Err(_) => {},
                }
            },
            _ => {},
        }
    }
}

/// Answering once the sink is done with a document keeps the jobs of the
/// service in order, as long as the clock has not gone back: the job of the
/// ticket is completed or aborted at the time of the answer.
pub proof fn lemma_document_handled_keeps_order(
    s: ServiceView,
    after: ServiceView,
    ticket: TicketView,
    outcome: Result<(), ServiceError>,
    now: u64,
)
    requires
        in_order(s, now),
        FIRST_JOB_ID <= ticket.job.id < s.next_job_id,
        ticket.job.timed(),
        ticket.job.latest() <= now,
        after.holds_after(s, s.next_job_id, finished(ticket.job, outcome, now)),
    ensures
        in_order(after, now),
{
    let done = finished(ticket.job, outcome, now);
    lemma_finished_timed(ticket.job, outcome, now);
    lemma_update_keeps_ids(s, after, done);
    lemma_holds_after_timed(s, after, s.next_job_id, done, now);
}

/// The places, in order, of the members of `s` that `p` holds of: the
/// members of `s.filter(p)` stand at these places of `s`, one after the other.
pub proof fn lemma_filter_places<A>(s: Seq<A>, p: spec_fn(A) -> bool) -> (places: Seq<int>)
    ensures
        places.len() == s.filter(p).len(),
        forall|k: int|
            0 <= k < places.len() ==> 0 <= #[trigger] places[k] < s.len() && s[places[k]]
                == s.filter(p)[k] && p(s[places[k]]),
        forall|k: int, l: int|
            0 <= k < l < places.len() ==> (#[trigger] places[k]) < (#[trigger] places[l]),
    decreases s.len(),
{
    reveal(Seq::filter);
    if s.len() == 0 {
        Seq::empty()
    } else {
        let before = lemma_filter_places(s.drop_last(), p);
        assert forall|k: int| 0 <= k < before.len() implies s[#[trigger] before[k]]
            == s.drop_last()[before[k]] by {}
        if p(s.last()) {
            before.push(s.len() - 1)
        } else {
            before
        }
    }
}

/// Get-Jobs lists as many jobs as the limit lets through, and no more than
/// there are: with a limit of `n`, not below zero, the first `n` of the
/// jobs of the class that is asked for, or all of them where they are fewer;
/// with a limit below zero, none; without a limit, all of them.
pub proof fn lemma_listed_jobs_count(entries: Seq<JobInfoView>, which: WhichJob, limit: Option<i32>)
    ensures
        match limit {
            Some(n) => if n >= 0 {
                listed_jobs(entries, which, limit).len() == if entries.filter(of_class(which)).len()
                    <= n {
                    entries.filter(of_class(which)).len() as int
                } else {
                    n as int
                }
            } else {
                listed_jobs(entries, which, limit).len() == 0
            },
            None => listed_jobs(entries, which, limit) == entries.filter(of_class(which)),
        },
{
}

/// The answer to Get-Jobs holds the opening group and then one group of
/// job attributes for each job that is listed.
pub proof fn lemma_jobs_reply_groups<P>(
    s: ServiceView,
    h: HeadView,
    req: MessageView<P>,
    entries: Seq<JobInfoView>,
)
    ensures
        jobs_reply(s, h, req, entries).attributes.len() == 1 + listed_jobs(
            entries,
            which_jobs(req.attributes),
            limit(req.attributes),
        ).len(),
        jobs_reply(s, h, req, entries).attributes[0] == basic_group(),
        forall|i: int|
            1 <= i < jobs_reply(s, h, req, entries).attributes.len() ==> (#[trigger] jobs_reply(
                s,
                h,
                req,
                entries,
            ).attributes[i]).tag == DelimiterTag::JobAttributes,
{
}

/// Each job that Get-Jobs lists is another job of the cache, and is of the
/// class that is asked for: the jobs that are listed of a walk of the cache
/// stand in the cache under ids of which no two are the same.
pub proof fn lemma_listed_jobs_differ(
    s: ServiceView,
    walk: Seq<(i32, JobInfoView)>,
    which: WhichJob,
    limit: Option<i32>,
) -> (ids: Seq<i32>)
    requires
        walk_of(s, walk),
    ensures
        ids.len() == listed_jobs(walked_jobs(walk), which, limit).len(),
        forall|k: int|
            0 <= k < ids.len() ==> s.jobs.contains_key(#[trigger] ids[k]) && s.jobs[ids[k]]
                == listed_jobs(walked_jobs(walk), which, limit)[k] && WhichJob::of_state(
                s.jobs[ids[k]].state,
            ) == which,
        forall|k: int, l: int| 0 <= k < l < ids.len() ==> (#[trigger] ids[k]) != (#[trigger] ids[l]),
{
    let jobs = walked_jobs(walk);
    let matching = jobs.filter(of_class(which));
    let listed = listed_jobs(jobs, which, limit);
    let places = lemma_filter_places(jobs, of_class(which));
    let ids = Seq::new(listed.len(), |k: int| walk[places[k]].0);
    assert forall|k: int| 0 <= k < ids.len() implies s.jobs.contains_key(#[trigger] ids[k])
        && s.jobs[ids[k]] == listed[k] && WhichJob::of_state(s.jobs[ids[k]].state) == which by {
        assert(listed[k] == matching[k]);
        assert(jobs[places[k]] == walk[places[k]].1);
        assert(of_class(which)(jobs[places[k]]));
    }
    assert forall|k: int, l: int| 0 <= k < l < ids.len() implies (#[trigger] ids[k]) != (
    #[trigger] ids[l]) by {
        assert(places[k] < places[l]);
    }
    ids
}

} // verus!

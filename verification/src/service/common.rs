//! The dispatcher: it checks a request's version, finds its operation, and
//! answers with what the operation gives or with an error response.
use crate::attribute::{
    lemma_first_index_is, lemma_first_index_none, named, tagged, with_attribute, AttributeView,
    GroupView, IppAttribute,
};
use crate::error::{IppError, IppErrorView};
use crate::model::{DelimiterTag, IppHeader, IppVersion, Operation};
use crate::request::{
    basic_group, charset_attribute, language_attribute, plain_response, IppPayload,
    IppRequestResponse, MessageView,
};
use crate::service::job::{DocumentView, JobInfo, JobInfoView, SimpleIppDocument};
use crate::service::simple::RequestHead;
use crate::status::StatusCode;
use crate::value::{IppValue, IppValueView};
use vstd::prelude::*;

verus! {

/// What an operation can fail with: an error of the protocol, with its
/// status, or anything else, of which only the words are kept.
#[derive(Debug, Clone, PartialEq, Eq)]
pub enum ServiceError {
    Ipp(IppError),
    Other(String),
}

/// What a [`ServiceError`] stands for.
pub enum ServiceErrorView {
    Ipp(IppErrorView),
    Other(Seq<char>),
}

impl View for ServiceError {
    type V = ServiceErrorView;

    open spec fn view(&self) -> ServiceErrorView {
        match self {
            ServiceError::Ipp(e) => ServiceErrorView::Ipp(e@),
            ServiceError::Other(m) => ServiceErrorView::Other(m@),
        }
    }
}

impl ServiceErrorView {
    /// The error that a response reports: the protocol error itself, or an
    /// internal error with the words of the failure.
    pub open spec fn reported(self) -> IppErrorView {
        match self {
            ServiceErrorView::Ipp(e) => e,
            ServiceErrorView::Other(m) => IppErrorView {
                code: StatusCode::ServerErrorInternalError,
                msg: m,
            },
        }
    }
}

impl ServiceError {
    /// The words of the failure.
    pub open spec fn text(self) -> Seq<char> {
        match self {
            ServiceError::Ipp(e) => e.text(),
            ServiceError::Other(m) => m@,
        }
    }

    /// The words of the failure.
    pub fn to_text(&self) -> (r: String)
        ensures
            r@ == self.text(),
    {
        match self {
            ServiceError::Ipp(e) => e.to_text(),
            ServiceError::Other(m) => m.clone(),
        }
    }

    /// The error that a response reports: the protocol error itself, or an
    /// internal error with the words of the failure.
    pub fn into_reported(self) -> (r: IppError)
        ensures
            r@ == self@.reported(),
    {
        match self {
            ServiceError::Ipp(e) => e,
            ServiceError::Other(m) => IppError {
                code: StatusCode::ServerErrorInternalError,
                msg: m,
            },
        }
    }
}

/// What the service needs to answer a request once its document is handled.
#[derive(Debug, PartialEq, Eq)]
pub struct DocumentTicket {
    pub version: IppVersion,
    pub request_id: u32,
    pub job: JobInfo,
}

/// What a [`DocumentTicket`] stands for.
pub struct TicketView {
    pub version: IppVersion,
    pub request_id: u32,
    pub job: JobInfoView,
}

impl View for DocumentTicket {
    type V = TicketView;

    open spec fn view(&self) -> TicketView {
        TicketView { version: self.version, request_id: self.request_id, job: self.job@ }
    }
}

/// A document to hand to the sink, and the ticket to come back with.
#[derive(Debug, PartialEq, Eq)]
pub struct DocumentTask<P> {
    pub ticket: DocumentTicket,
    pub document: SimpleIppDocument<P>,
}

/// What a [`DocumentTask`] stands for.
pub struct TaskView<P> {
    pub ticket: TicketView,
    pub document: DocumentView<P>,
}

impl<P> View for DocumentTask<P> {
    type V = TaskView<P>;

    open spec fn view(&self) -> TaskView<P> {
        TaskView { ticket: self.ticket@, document: self.document@ }
    }
}

/// What an operation gives: the response, or a document that the sink has to
/// take before the response can be made.
#[derive(Debug, PartialEq, Eq)]
pub enum IppReply<P> {
    Response(IppRequestResponse<P>),
    Document(DocumentTask<P>),
}

/// What an [`IppReply`] stands for.
pub enum ReplyView<P> {
    Response(MessageView<P>),
    Document(TaskView<P>),
}

impl<P> View for IppReply<P> {
    type V = ReplyView<P>;

    open spec fn view(&self) -> ReplyView<P> {
        match self {
            IppReply::Response(r) => ReplyView::Response(r@),
            IppReply::Document(t) => ReplyView::Document(t@),
        }
    }
}

impl<P> ReplyView<P> {
    /// The id of the request that the reply answers.
    pub open spec fn request_id(self) -> u32 {
        match self {
            ReplyView::Response(r) => r.header.request_id,
            ReplyView::Document(t) => t.ticket.request_id,
        }
    }
}

/// What an operation returns.
pub type IppResult<P> = Result<IppReply<P>, ServiceError>;

/// `status-message` with the words `msg`.
pub open spec fn status_message(msg: Seq<char>) -> AttributeView {
    AttributeView { name: "status-message"@, value: IppValueView::TextWithoutLanguage(msg) }
}

/// The response that reports the error `e` to request `id`: the status of
/// the error, and in the operation attributes the charset, the language and
/// the message.
pub open spec fn error_response<P>(version: IppVersion, id: u32, e: IppErrorView) -> MessageView<
    P,
> {
    MessageView {
        header: IppHeader { version, operation_or_status: e.code.code(), request_id: id },
        attributes: seq![
            GroupView {
                tag: DelimiterTag::OperationAttributes,
                attributes: seq![charset_attribute(), language_attribute(), status_message(e.msg)],
            },
        ],
        payload: IppPayload::Empty,
    }
}

/// The failure of an operation that the service does not offer.
pub open spec fn unsupported() -> ServiceErrorView {
    ServiceErrorView::Ipp(IppError::of_status(StatusCode::ServerErrorOperationNotSupported))
}

/// The failure of an operation that the service does not offer.
pub fn operation_not_supported() -> (r: ServiceError)
    ensures
        r@ == unsupported(),
{
    ServiceError::Ipp(IppError::from_status(StatusCode::ServerErrorOperationNotSupported))
}

/// The name `status-message` differs from the names of the two opening attributes.
pub proof fn lemma_status_message_name()
    ensures
        "status-message"@ != "attributes-charset"@,
        "status-message"@ != "attributes-natural-language"@,
{
    reveal_strlit("status-message");
    reveal_strlit("attributes-charset");
    reveal_strlit("attributes-natural-language");
    assert("status-message"@.len() == 14);
    assert("attributes-charset"@.len() == 18);
    assert("attributes-natural-language"@.len() == 27);
}

/// The response that reports `error` to request `req_id`. A failure that is
/// no protocol error is reported as an internal error with its words.
pub fn build_error_response<P>(version: IppVersion, req_id: u32, error: ServiceError) -> (r:
    IppRequestResponse<P>)
    ensures
        r@ == error_response::<P>(version, req_id, error@.reported()),
        r.attributes.wf(),
{
    let ipp_error = error.into_reported();
    let mut resp = IppRequestResponse::new_response(version, ipp_error.code, req_id);
    proof {
        lemma_status_message_name();
        lemma_first_index_is(resp.attributes@, tagged(DelimiterTag::OperationAttributes), 0);
        lemma_first_index_none(basic_group().attributes, named("status-message"@));
    }
    resp.attributes.add(
        DelimiterTag::OperationAttributes,
        IppAttribute::new("status-message", IppValue::TextWithoutLanguage(ipp_error.msg)),
    );
    assert(resp@.attributes =~= error_response::<P>(
        version,
        req_id,
        error@.reported(),
    ).attributes) by {
        assert(with_attribute(basic_group().attributes, status_message(ipp_error.msg@)) =~= seq![
            charset_attribute(),
            language_attribute(),
            status_message(ipp_error.msg@),
        ]);
    }
    resp
}

/// What the dispatcher answers with after an operation: what the operation
/// gave, or the response that reports its failure.
pub open spec fn reply_for<P>(version: IppVersion, id: u32, result: IppResult<P>) -> ReplyView<P> {
    match result {
        Ok(reply) => reply@,
        Err(e) => ReplyView::Response(error_response::<P>(version, id, e@.reported())),
    }
}

/// Turns the result of an operation into the dispatcher's answer: what the
/// operation gave, or the error response for its failure.
pub fn answer<P>(version: IppVersion, req_id: u32, result: IppResult<P>) -> (reply: IppReply<P>)
    ensures
        reply@ == reply_for(version, req_id, result),
{
    match result {
        Ok(reply) => reply,
        Err(e) => IppReply::Response(build_error_response(version, req_id, e)),
    }
}

/// The response to request `id` after its document was handled, where the
/// service keeps no jobs: success, or the report of the sink's failure.
pub open spec fn handled_response<P>(version: IppVersion, id: u32, outcome: Result<
    (),
    ServiceError,
>) -> MessageView<P> {
    match outcome {
        Ok(_) => plain_response::<P>(version, StatusCode::SuccessfulOk, id),
        Err(e) => error_response::<P>(version, id, e@.reported()),
    }
}

/// An IPP service: one method for each operation, and the dispatcher that
/// finds the method for a request. An operation that a service does not
/// define fails with `server-error-operation-not-supported`, and a service
/// says that it offers each operation that it does define.
///
/// An operation answers the request it was given: what it returns carries
/// that request's id.
pub trait IppService<P>: Sized {
    /// The newest protocol version that the service speaks: 1.1, unless
    /// the service says otherwise.
    open spec fn supported_version(&self) -> IppVersion {
        IppVersion::of(1, 1)
    }

    /// Whether the service offers the operation `op`: none, unless the
    /// service says otherwise. An operation that it does not offer fails as
    /// one that is not supported, and changes nothing.
    open spec fn offers(&self, op: Operation) -> bool {
        false
    }

    /// The newest protocol version that the service speaks.
    fn version(&self) -> (v: IppVersion)
        ensures
            v == self.supported_version(),
    ;

    /// Print-Job.
    fn print_job(&mut self, head: &RequestHead, req: IppRequestResponse<P>) -> (r: IppResult<P>)
        ensures
            r matches Ok(reply) ==> reply@.request_id() == req@.header.request_id,
            !old(self).offers(Operation::PrintJob) ==> r is Err && r->Err_0@ == unsupported()
                && *final(self) == *old(self),
        default_ensures
            r is Err && r->Err_0@ == unsupported(),
            *final(self) == *old(self),
    {
        Err(operation_not_supported())
    }

    /// Print-URI.
    fn print_uri(&mut self, head: &RequestHead, req: IppRequestResponse<P>) -> (r: IppResult<P>)
        ensures
            r matches Ok(reply) ==> reply@.request_id() == req@.header.request_id,
            !old(self).offers(Operation::PrintUri) ==> r is Err && r->Err_0@ == unsupported()
                && *final(self) == *old(self),
        default_ensures
            r is Err && r->Err_0@ == unsupported(),
            *final(self) == *old(self),
    {
        Err(operation_not_supported())
    }

    /// Validate-Job.
    fn validate_job(&mut self, head: &RequestHead, req: IppRequestResponse<P>) -> (r: IppResult<P>)
        ensures
            r matches Ok(reply) ==> reply@.request_id() == req@.header.request_id,
            !old(self).offers(Operation::ValidateJob) ==> r is Err && r->Err_0@ == unsupported()
                && *final(self) == *old(self),
        default_ensures
            r is Err && r->Err_0@ == unsupported(),
            *final(self) == *old(self),
    {
        Err(operation_not_supported())
    }

    /// Create-Job.
    fn create_job(&mut self, head: &RequestHead, req: IppRequestResponse<P>) -> (r: IppResult<P>)
        ensures
            r matches Ok(reply) ==> reply@.request_id() == req@.header.request_id,
            !old(self).offers(Operation::CreateJob) ==> r is Err && r->Err_0@ == unsupported()
                && *final(self) == *old(self),
        default_ensures
            r is Err && r->Err_0@ == unsupported(),
            *final(self) == *old(self),
    {
        Err(operation_not_supported())
    }

    /// Send-Document.
    fn send_document(&mut self, head: &RequestHead, req: IppRequestResponse<P>) -> (r: IppResult<P>)
        ensures
            r matches Ok(reply) ==> reply@.request_id() == req@.header.request_id,
            !old(self).offers(Operation::SendDocument) ==> r is Err && r->Err_0@ == unsupported()
                && *final(self) == *old(self),
        default_ensures
            r is Err && r->Err_0@ == unsupported(),
            *final(self) == *old(self),
    {
        Err(operation_not_supported())
    }

    /// Send-URI.
    fn send_uri(&mut self, head: &RequestHead, req: IppRequestResponse<P>) -> (r: IppResult<P>)
        ensures
            r matches Ok(reply) ==> reply@.request_id() == req@.header.request_id,
            !old(self).offers(Operation::SendUri) ==> r is Err && r->Err_0@ == unsupported()
                && *final(self) == *old(self),
        default_ensures
            r is Err && r->Err_0@ == unsupported(),
            *final(self) == *old(self),
    {
        Err(operation_not_supported())
    }

    /// Cancel-Job.
    fn cancel_job(&mut self, head: &RequestHead, req: IppRequestResponse<P>) -> (r: IppResult<P>)
        ensures
            r matches Ok(reply) ==> reply@.request_id() == req@.header.request_id,
            !old(self).offers(Operation::CancelJob) ==> r is Err && r->Err_0@ == unsupported()
                && *final(self) == *old(self),
        default_ensures
            r is Err && r->Err_0@ == unsupported(),
            *final(self) == *old(self),
    {
        Err(operation_not_supported())
    }

    /// Get-Job-Attributes.
    fn get_job_attributes(&mut self, head: &RequestHead, req: IppRequestResponse<P>) -> (r: IppResult<P>)
        ensures
            r matches Ok(reply) ==> reply@.request_id() == req@.header.request_id,
            !old(self).offers(Operation::GetJobAttributes) ==> r is Err && r->Err_0@ == unsupported()
                && *final(self) == *old(self),
        default_ensures
            r is Err && r->Err_0@ == unsupported(),
            *final(self) == *old(self),
    {
        Err(operation_not_supported())
    }

    /// Get-Jobs.
    fn get_jobs(&mut self, head: &RequestHead, req: IppRequestResponse<P>) -> (r: IppResult<P>)
        ensures
            r matches Ok(reply) ==> reply@.request_id() == req@.header.request_id,
            !old(self).offers(Operation::GetJobs) ==> r is Err && r->Err_0@ == unsupported()
                && *final(self) == *old(self),
        default_ensures
            r is Err && r->Err_0@ == unsupported(),
            *final(self) == *old(self),
    {
        Err(operation_not_supported())
    }

    /// Get-Printer-Attributes.
    fn get_printer_attributes(&mut self, head: &RequestHead, req: IppRequestResponse<P>) -> (r:
        IppResult<P>)
        ensures
            r matches Ok(reply) ==> reply@.request_id() == req@.header.request_id,
            !old(self).offers(Operation::GetPrinterAttributes) ==> r is Err && r->Err_0@ == unsupported()
                && *final(self) == *old(self),
        default_ensures
            r is Err && r->Err_0@ == unsupported(),
            *final(self) == *old(self),
    {
        Err(operation_not_supported())
    }

    /// Hold-Job.
    fn hold_job(&mut self, head: &RequestHead, req: IppRequestResponse<P>) -> (r: IppResult<P>)
        ensures
            r matches Ok(reply) ==> reply@.request_id() == req@.header.request_id,
            !old(self).offers(Operation::HoldJob) ==> r is Err && r->Err_0@ == unsupported()
                && *final(self) == *old(self),
        default_ensures
            r is Err && r->Err_0@ == unsupported(),
            *final(self) == *old(self),
    {
        Err(operation_not_supported())
    }

    /// Release-Job.
    fn release_job(&mut self, head: &RequestHead, req: IppRequestResponse<P>) -> (r: IppResult<P>)
        ensures
            r matches Ok(reply) ==> reply@.request_id() == req@.header.request_id,
            !old(self).offers(Operation::ReleaseJob) ==> r is Err && r->Err_0@ == unsupported()
                && *final(self) == *old(self),
        default_ensures
            r is Err && r->Err_0@ == unsupported(),
            *final(self) == *old(self),
    {
        Err(operation_not_supported())
    }

    /// Restart-Job.
    fn restart_job(&mut self, head: &RequestHead, req: IppRequestResponse<P>) -> (r: IppResult<P>)
        ensures
            r matches Ok(reply) ==> reply@.request_id() == req@.header.request_id,
            !old(self).offers(Operation::RestartJob) ==> r is Err && r->Err_0@ == unsupported()
                && *final(self) == *old(self),
        default_ensures
            r is Err && r->Err_0@ == unsupported(),
            *final(self) == *old(self),
    {
        Err(operation_not_supported())
    }

    /// Pause-Printer.
    fn pause_printer(&mut self, head: &RequestHead, req: IppRequestResponse<P>) -> (r: IppResult<P>)
        ensures
            r matches Ok(reply) ==> reply@.request_id() == req@.header.request_id,
            !old(self).offers(Operation::PausePrinter) ==> r is Err && r->Err_0@ == unsupported()
                && *final(self) == *old(self),
        default_ensures
            r is Err && r->Err_0@ == unsupported(),
            *final(self) == *old(self),
    {
        Err(operation_not_supported())
    }

    /// Resume-Printer.
    fn resume_printer(&mut self, head: &RequestHead, req: IppRequestResponse<P>) -> (r: IppResult<P>)
        ensures
            r matches Ok(reply) ==> reply@.request_id() == req@.header.request_id,
            !old(self).offers(Operation::ResumePrinter) ==> r is Err && r->Err_0@ == unsupported()
                && *final(self) == *old(self),
        default_ensures
            r is Err && r->Err_0@ == unsupported(),
            *final(self) == *old(self),
    {
        Err(operation_not_supported())
    }

    /// Purge-Jobs.
    fn purge_jobs(&mut self, head: &RequestHead, req: IppRequestResponse<P>) -> (r: IppResult<P>)
        ensures
            r matches Ok(reply) ==> reply@.request_id() == req@.header.request_id,
            !old(self).offers(Operation::PurgeJobs) ==> r is Err && r->Err_0@ == unsupported()
                && *final(self) == *old(self),
        default_ensures
            r is Err && r->Err_0@ == unsupported(),
            *final(self) == *old(self),
    {
        Err(operation_not_supported())
    }

    /// The sink is done with the document of `ticket`: the response to the
    /// request that brought the document.
    fn document_handled(
        &mut self,
        head: &RequestHead,
        ticket: DocumentTicket,
        outcome: Result<(), ServiceError>,
    ) -> (r: IppRequestResponse<P>)
        ensures
            r@.header.request_id == ticket.request_id,
        default_ensures
            r@ == handled_response::<P>(ticket.version, ticket.request_id, outcome),
            *final(self) == *old(self),
    {
        match outcome {
            Ok(_) => IppRequestResponse::new_response(
                ticket.version,
                StatusCode::SuccessfulOk,
                ticket.request_id,
            ),
            Err(e) => build_error_response(ticket.version, ticket.request_id, e),
        }
    }

    /// Whether the service speaks the version of `req`: its major version
    /// is not above the service's.
    fn check_version(&self, req: &IppRequestResponse<P>) -> (r: bool)
        ensures
            r == (req.header.version.major <= self.supported_version().major),
    {
        req.header.version.major <= self.version().major
    }

    /// The response that reports `error` to request `req_id`.
    fn build_error_response(&self, version: IppVersion, req_id: u32, error: ServiceError) -> (r:
        IppRequestResponse<P>)
        ensures
            r@ == error_response::<P>(version, req_id, error@.reported()),
    {
        build_error_response(version, req_id, error)
    }

    /// Answers a request. A request of a major version above the service's
    /// is answered with `server-error-version-not-supported`, in the
    /// service's own version. A request for an operation that the dispatcher
    /// does not know, or that the service does not offer, is answered with
    /// `server-error-operation-not-supported`.
    /// Any other is handed to the method of its operation, and to no other:
    /// the answer is what that method gives, or the error response for its
    /// failure, and carries the request's id in either case. What the method
    /// makes of the service is what the service is afterwards.
    ///
    /// In the last clause `m` is the service as the method has it, the
    /// same before and after as the dispatcher's own, and `result` is what
    /// the method gave: all that the method ensures holds of the two.
    fn handle_request(&mut self, head: &RequestHead, req: IppRequestResponse<P>) -> (reply:
        IppReply<P>)
        ensures
            reply@.request_id() == req@.header.request_id,
            req.header.version.major > old(self).supported_version().major ==> {
                &&& reply@ == ReplyView::Response(
                    error_response::<P>(
                        old(self).supported_version(),
                        req.header.request_id,
                        IppError::of_status(StatusCode::ServerErrorVersionNotSupported),
                    ),
                )
                &&& *final(self) == *old(self)
            },
            req.header.version.major <= old(self).supported_version().major && Operation::of_code(
                req.header.operation_or_status,
            ) is None ==> {
                &&& reply@ == ReplyView::Response(
                    error_response::<P>(
                        req.header.version,
                        req.header.request_id,
                        IppError::of_status(StatusCode::ServerErrorOperationNotSupported),
                    ),
                )
                &&& *final(self) == *old(self)
            },
            req.header.version.major <= old(self).supported_version().major && (Operation::of_code(
                req.header.operation_or_status,
            ) matches Some(op) && !old(self).offers(op)) ==> {
                &&& reply@ == ReplyView::Response(
                    error_response::<P>(
                        req.header.version,
                        req.header.request_id,
                        IppError::of_status(StatusCode::ServerErrorOperationNotSupported),
                    ),
                )
                &&& *final(self) == *old(self)
            },
            req.header.version.major <= old(self).supported_version().major && Operation::of_code(
                req.header.operation_or_status,
            ) is Some ==> exists|m: &mut Self, result: IppResult<P>|
                #![trigger call_ensures(Self::print_job, (m, head, req), result)]
                #![trigger call_ensures(Self::print_uri, (m, head, req), result)]
                #![trigger call_ensures(Self::validate_job, (m, head, req), result)]
                #![trigger call_ensures(Self::create_job, (m, head, req), result)]
                #![trigger call_ensures(Self::send_document, (m, head, req), result)]
                #![trigger call_ensures(Self::send_uri, (m, head, req), result)]
                #![trigger call_ensures(Self::cancel_job, (m, head, req), result)]
                #![trigger call_ensures(Self::get_job_attributes, (m, head, req), result)]
                #![trigger call_ensures(Self::get_jobs, (m, head, req), result)]
                #![trigger call_ensures(Self::get_printer_attributes, (m, head, req), result)]
                #![trigger call_ensures(Self::hold_job, (m, head, req), result)]
                #![trigger call_ensures(Self::release_job, (m, head, req), result)]
                #![trigger call_ensures(Self::restart_job, (m, head, req), result)]
                #![trigger call_ensures(Self::pause_printer, (m, head, req), result)]
                #![trigger call_ensures(Self::resume_printer, (m, head, req), result)]
                #![trigger call_ensures(Self::purge_jobs, (m, head, req), result)]
                {
                    &&& mut_ref_current(m) == *old(self)
                    &&& mut_ref_future(m) == *final(self)
                    &&& match Operation::of_code(req.header.operation_or_status) {
                        Some(Operation::PrintJob) => call_ensures(
                            Self::print_job,
                            (m, head, req),
                            result,
                        ),
                        Some(Operation::PrintUri) => call_ensures(
                            Self::print_uri,
                            (m, head, req),
                            result,
                        ),
                        Some(Operation::ValidateJob) => call_ensures(
                            Self::validate_job,
                            (m, head, req),
                            result,
                        ),
                        Some(Operation::CreateJob) => call_ensures(
                            Self::create_job,
                            (m, head, req),
                            result,
                        ),
                        Some(Operation::SendDocument) => call_ensures(
                            Self::send_document,
                            (m, head, req),
                            result,
                        ),
                        Some(Operation::SendUri) => call_ensures(
                            Self::send_uri,
                            (m, head, req),
                            result,
                        ),
                        Some(Operation::CancelJob) => call_ensures(
                            Self::cancel_job,
                            (m, head, req),
                            result,
                        ),
                        Some(Operation::GetJobAttributes) => call_ensures(
                            Self::get_job_attributes,
                            (m, head, req),
                            result,
                        ),
                        Some(Operation::GetJobs) => call_ensures(
                            Self::get_jobs,
                            (m, head, req),
                            result,
                        ),
                        Some(Operation::GetPrinterAttributes) => call_ensures(
                            Self::get_printer_attributes,
                            (m, head, req),
                            result,
                        ),
                        Some(Operation::HoldJob) => call_ensures(
                            Self::hold_job,
                            (m, head, req),
                            result,
                        ),
                        Some(Operation::ReleaseJob) => call_ensures(
                            Self::release_job,
                            (m, head, req),
                            result,
                        ),
                        Some(Operation::RestartJob) => call_ensures(
                            Self::restart_job,
                            (m, head, req),
                            result,
                        ),
                        Some(Operation::PausePrinter) => call_ensures(
                            Self::pause_printer,
                            (m, head, req),
                            result,
                        ),
                        Some(Operation::ResumePrinter) => call_ensures(
                            Self::resume_printer,
                            (m, head, req),
                            result,
                        ),
                        Some(Operation::PurgeJobs) => call_ensures(
                            Self::purge_jobs,
                            (m, head, req),
                            result,
                        ),
                        None => false,
                    }
                    &&& result matches Ok(r) ==> r@.request_id() == req@.header.request_id
                    &&& reply@ == reply_for(req.header.version, req.header.request_id, result)
                },
    {
        let req_id = req.header.request_id;
        if !self.check_version(&req) {
            return IppReply::Response(
                self.build_error_response(
                    self.version(),
                    req_id,
                    ServiceError::Ipp(
                        IppError::from_status(StatusCode::ServerErrorVersionNotSupported),
                    ),
                ),
            );
        }
        let version = req.header.version;
        let result = match Operation::from_u16(req.header.operation_or_status) {
            Some(op) => match op {
                Operation::PrintJob => self.print_job(head, req),
                Operation::PrintUri => self.print_uri(head, req),
                Operation::ValidateJob => self.validate_job(head, req),
                Operation::CreateJob => self.create_job(head, req),
                Operation::SendDocument => self.send_document(head, req),
                Operation::SendUri => self.send_uri(head, req),
                Operation::CancelJob => self.cancel_job(head, req),
                Operation::GetJobAttributes => self.get_job_attributes(head, req),
                Operation::GetJobs => self.get_jobs(head, req),
                Operation::GetPrinterAttributes => self.get_printer_attributes(head, req),
                Operation::HoldJob => self.hold_job(head, req),
                Operation::ReleaseJob => self.release_job(head, req),
                Operation::RestartJob => self.restart_job(head, req),
                Operation::PausePrinter => self.pause_printer(head, req),
                Operation::ResumePrinter => self.resume_printer(head, req),
                Operation::PurgeJobs => self.purge_jobs(head, req),
            },
            None => {
                return IppReply::Response(
                    self.build_error_response(version, req_id, operation_not_supported()),
                );
            },
        };
        let reply = answer(version, req_id, result);
        assert(reply@ == reply_for(version, req_id, result));
        reply
    }
}

} // verus!

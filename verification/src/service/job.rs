//! Jobs: the template a client gave, the record the server keeps, and the
//! attributes that report a job.
use crate::attribute::{
    attribute_views, distinct_names, found, lemma_with_attributes_of_distinct, taken,
    with_attributes, AttributeView, GroupView, IppAttribute, IppAttributes,
};
use crate::model::{DelimiterTag, JobState, PageOrientation, Resolution};
use crate::request::IppPayload;
use crate::service::info::{optional_view, PrinterInfo, PrinterInfoView};
use crate::service::printer::{
    append_attributes, attr, lemma_retained_whole, lemma_retained_within, optional_resolution,
    push_attribute, push_optional, retain_requested, retained, seconds_value, seconds_view,
    with_optional,
};
use crate::text::{append_decimal, decimal_text};
use crate::utils::{lemma_found_after_taken, take_ipp_attribute, NameSet};
use crate::value::{IppValue, IppValueView};
use vstd::prelude::*;

verus! {

/// The print options of a job: those the client gave, the printer's defaults
/// for the rest.
#[derive(Debug, PartialEq, Eq)]
pub struct SimpleIppJobAttributes {
    pub originating_user_name: String,
    pub media: String,
    pub orientation: Option<PageOrientation>,
    pub sides: String,
    pub print_color_mode: String,
    pub printer_resolution: Option<Resolution>,
}

/// What a [`SimpleIppJobAttributes`] stands for.
pub struct JobAttributesView {
    pub originating_user_name: Seq<char>,
    pub media: Seq<char>,
    pub orientation: Option<PageOrientation>,
    pub sides: Seq<char>,
    pub print_color_mode: Seq<char>,
    pub printer_resolution: Option<Resolution>,
}

impl View for SimpleIppJobAttributes {
    type V = JobAttributesView;

    open spec fn view(&self) -> JobAttributesView {
        JobAttributesView {
            originating_user_name: self.originating_user_name@,
            media: self.media@,
            orientation: self.orientation,
            sides: self.sides@,
            print_color_mode: self.print_color_mode@,
            printer_resolution: self.printer_resolution,
        }
    }
}

impl Clone for SimpleIppJobAttributes {
    fn clone(&self) -> (r: Self)
        ensures
            r@ == self@,
    {
        SimpleIppJobAttributes {
            originating_user_name: self.originating_user_name.clone(),
            media: self.media.clone(),
            orientation: self.orientation,
            sides: self.sides.clone(),
            print_color_mode: self.print_color_mode.clone(),
            printer_resolution: self.printer_resolution,
        }
    }
}

/// The keyword in `v`, or `default` where `v` is absent or no keyword.
pub open spec fn keyword_or(v: Option<IppValueView>, default: Seq<char>) -> Seq<char> {
    match v {
        Some(IppValueView::Keyword(k)) => k,
        _ => default,
    }
}

/// The orientation that `v` names, or `default` where `v` is absent or names none.
pub open spec fn orientation_or(v: Option<IppValueView>, default: Option<PageOrientation>) -> Option<
    PageOrientation,
> {
    match v {
        Some(x) => match PageOrientation::of_value(x) {
            Some(o) => Some(o),
            None => default,
        },
        None => default,
    }
}

/// The resolution in `v`, or `default` where `v` is absent or no resolution.
pub open spec fn resolution_or(v: Option<IppValueView>, default: Option<Resolution>) -> Option<
    Resolution,
> {
    match v {
        Some(x) => match Resolution::of_value(x) {
            Some(r) => Some(r),
            None => default,
        },
        None => default,
    }
}

/// The job template of a request: each option from the request's job
/// attributes, or the printer's default where the request has none of the
/// right type.
pub open spec fn job_template(info: PrinterInfoView, user: Seq<char>, groups: Seq<GroupView>)
    -> JobAttributesView {
    let tag = DelimiterTag::JobAttributes;
    JobAttributesView {
        originating_user_name: user,
        media: keyword_or(found(groups, tag, "media"@), info.media_default),
        orientation: orientation_or(
            found(groups, tag, "orientation-requested"@),
            info.orientation_default,
        ),
        sides: keyword_or(found(groups, tag, "sides"@), info.sides_default),
        print_color_mode: keyword_or(
            found(groups, tag, "print-color-mode"@),
            info.print_color_mode_default,
        ),
        printer_resolution: resolution_or(
            found(groups, tag, "printer-resolution"@),
            info.printer_resolution_default,
        ),
    }
}

/// `groups` without the five attributes of the job template.
pub open spec fn without_job_template(groups: Seq<GroupView>) -> Seq<GroupView> {
    let tag = DelimiterTag::JobAttributes;
    taken(
        taken(
            taken(
                taken(taken(groups, tag, "media"@), tag, "orientation-requested"@),
                tag,
                "sides"@,
            ),
            tag,
            "print-color-mode"@,
        ),
        tag,
        "printer-resolution"@,
    )
}

/// The names of the five job template attributes differ from one another.
pub proof fn lemma_template_names_differ()
    ensures
        "media"@ != "orientation-requested"@,
        "media"@ != "sides"@,
        "media"@ != "print-color-mode"@,
        "media"@ != "printer-resolution"@,
        "orientation-requested"@ != "sides"@,
        "orientation-requested"@ != "print-color-mode"@,
        "orientation-requested"@ != "printer-resolution"@,
        "sides"@ != "print-color-mode"@,
        "sides"@ != "printer-resolution"@,
        "print-color-mode"@ != "printer-resolution"@,
{
    reveal_strlit("media");
    reveal_strlit("orientation-requested");
    reveal_strlit("sides");
    reveal_strlit("print-color-mode");
    reveal_strlit("printer-resolution");
    assert("media"@.len() == 5);
    assert("orientation-requested"@.len() == 21);
    assert("sides"@.len() == 5);
    assert("print-color-mode"@.len() == 16);
    assert("printer-resolution"@.len() == 18);
    assert("media"@[0] != "sides"@[0]);
}

/// Looking for an attribute that is none of the job template finds the same
/// after the job template was taken out.
pub proof fn lemma_found_after_template(groups: Seq<GroupView>, tag: DelimiterTag, name: Seq<char>)
    requires
        name != "media"@,
        name != "orientation-requested"@,
        name != "sides"@,
        name != "print-color-mode"@,
        name != "printer-resolution"@,
    ensures
        found(without_job_template(groups), tag, name) == found(groups, tag, name),
{
    let job = DelimiterTag::JobAttributes;
    let g1 = taken(groups, job, "media"@);
    let g2 = taken(g1, job, "orientation-requested"@);
    let g3 = taken(g2, job, "sides"@);
    let g4 = taken(g3, job, "print-color-mode"@);
    lemma_found_after_taken(groups, job, "media"@, tag, name);
    lemma_found_after_taken(g1, job, "orientation-requested"@, tag, name);
    lemma_found_after_taken(g2, job, "sides"@, tag, name);
    lemma_found_after_taken(g3, job, "print-color-mode"@, tag, name);
    lemma_found_after_taken(g4, job, "printer-resolution"@, tag, name);
}

/// The job template is the same after an attribute that is none of it was taken out.
pub proof fn lemma_template_after_taken(
    info: PrinterInfoView,
    user: Seq<char>,
    groups: Seq<GroupView>,
    tag: DelimiterTag,
    gone: Seq<char>,
)
    requires
        gone != "media"@,
        gone != "orientation-requested"@,
        gone != "sides"@,
        gone != "print-color-mode"@,
        gone != "printer-resolution"@,
    ensures
        job_template(info, user, taken(groups, tag, gone)) == job_template(info, user, groups),
{
    let job = DelimiterTag::JobAttributes;
    lemma_found_after_taken(groups, tag, gone, job, "media"@);
    lemma_found_after_taken(groups, tag, gone, job, "orientation-requested"@);
    lemma_found_after_taken(groups, tag, gone, job, "sides"@);
    lemma_found_after_taken(groups, tag, gone, job, "print-color-mode"@);
    lemma_found_after_taken(groups, tag, gone, job, "printer-resolution"@);
}

impl SimpleIppJobAttributes {
    /// Takes the job template out of the request's job attributes. An option
    /// that the request does not give, or gives with a value of another type,
    /// falls back to the printer's default.
    pub fn take_ipp_attributes(
        info: &PrinterInfo,
        originating_user_name: String,
        attributes: &mut IppAttributes,
    ) -> (r: Self)
        ensures
            r@ == job_template(info@, originating_user_name@, old(attributes)@),
            final(attributes)@ == without_job_template(old(attributes)@),
            old(attributes).wf() ==> final(attributes).wf(),
    {
        let tag = DelimiterTag::JobAttributes;
        let ghost g0 = attributes@;
        let media = match take_ipp_attribute(attributes, tag, "media") {
            Some(IppValue::Keyword(k)) => k,
            _ => info.media_default().clone(),
        };
        let ghost g1 = attributes@;
        let orientation = match take_ipp_attribute(attributes, tag, "orientation-requested") {
            Some(v) => match PageOrientation::from_value(v) {
                Ok(o) => Some(o),
                Err(_) => info.orientation_default(),
            },
            None => info.orientation_default(),
        };
        let ghost g2 = attributes@;
        let sides = match take_ipp_attribute(attributes, tag, "sides") {
            Some(IppValue::Keyword(k)) => k,
            _ => info.sides_default().clone(),
        };
        let ghost g3 = attributes@;
        let print_color_mode = match take_ipp_attribute(attributes, tag, "print-color-mode") {
            Some(IppValue::Keyword(k)) => k,
            _ => info.print_color_mode_default().clone(),
        };
        let ghost g4 = attributes@;
        let printer_resolution = match take_ipp_attribute(attributes, tag, "printer-resolution") {
            Some(v) => match Resolution::from_value(v) {
                Ok(r) => Some(r),
                Err(_) => info.printer_resolution_default(),
            },
            None => info.printer_resolution_default(),
        };
        proof {
            lemma_template_names_differ();
            lemma_found_after_taken(g0, tag, "media"@, tag, "orientation-requested"@);
            lemma_found_after_taken(g0, tag, "media"@, tag, "sides"@);
            lemma_found_after_taken(g1, tag, "orientation-requested"@, tag, "sides"@);
            lemma_found_after_taken(g0, tag, "media"@, tag, "print-color-mode"@);
            lemma_found_after_taken(g1, tag, "orientation-requested"@, tag, "print-color-mode"@);
            lemma_found_after_taken(g2, tag, "sides"@, tag, "print-color-mode"@);
            lemma_found_after_taken(g0, tag, "media"@, tag, "printer-resolution"@);
            lemma_found_after_taken(g1, tag, "orientation-requested"@, tag, "printer-resolution"@);
            lemma_found_after_taken(g2, tag, "sides"@, tag, "printer-resolution"@);
            lemma_found_after_taken(g3, tag, "print-color-mode"@, tag, "printer-resolution"@);
        }
        SimpleIppJobAttributes {
            originating_user_name,
            media,
            orientation,
            sides,
            print_color_mode,
            printer_resolution,
        }
    }
}

/// A document for the sink: its format where the client named one, the
/// print options of its job, and its octets.
#[derive(Debug, PartialEq, Eq)]
pub struct SimpleIppDocument<P> {
    pub format: Option<String>,
    pub job_attributes: SimpleIppJobAttributes,
    pub payload: IppPayload<P>,
}

/// What a [`SimpleIppDocument`] stands for.
pub struct DocumentView<P> {
    pub format: Option<Seq<char>>,
    pub job_attributes: JobAttributesView,
    pub payload: IppPayload<P>,
}

impl<P> View for SimpleIppDocument<P> {
    type V = DocumentView<P>;

    open spec fn view(&self) -> DocumentView<P> {
        DocumentView {
            format: optional_view(self.format),
            job_attributes: self.job_attributes@,
            payload: self.payload,
        }
    }
}

/// The record of a job. Times are whole seconds since the server started.
#[derive(Debug, PartialEq, Eq)]
pub struct JobInfo {
    pub id: i32,
    pub state: JobState,
    pub state_message: String,
    pub state_reasons: IppValue,
    pub attributes: SimpleIppJobAttributes,
    pub created_at: u64,
    pub processing_at: Option<u64>,
    pub completed_at: Option<u64>,
}

/// What a [`JobInfo`] stands for.
pub struct JobInfoView {
    pub id: i32,
    pub state: JobState,
    pub state_message: Seq<char>,
    pub state_reasons: IppValueView,
    pub attributes: JobAttributesView,
    pub created_at: u64,
    pub processing_at: Option<u64>,
    pub completed_at: Option<u64>,
}

impl JobInfoView {
    /// The job was not processed before it was created, nor completed before
    /// it was processed.
    pub open spec fn timed(self) -> bool {
        &&& match self.processing_at {
            Some(p) => self.created_at <= p,
            None => true,
        }
        &&& match self.completed_at {
            Some(c) => match self.processing_at {
                Some(p) => p <= c,
                None => self.created_at <= c,
            },
            None => true,
        }
    }

    /// The latest of the job's times.
    pub open spec fn latest(self) -> u64 {
        let a = self.created_at;
        let b = match self.processing_at {
            Some(p) => if p > a {
                p
            } else {
                a
            },
            None => a,
        };
        match self.completed_at {
            Some(c) => if c > b {
                c
            } else {
                b
            },
            None => b,
        }
    }
}

impl View for JobInfo {
    type V = JobInfoView;

    open spec fn view(&self) -> JobInfoView {
        JobInfoView {
            id: self.id,
            state: self.state,
            state_message: self.state_message@,
            state_reasons: self.state_reasons@,
            attributes: self.attributes@,
            created_at: self.created_at,
            processing_at: self.processing_at,
            completed_at: self.completed_at,
        }
    }
}

impl Clone for JobInfo {
    fn clone(&self) -> (r: Self)
        ensures
            r@ == self@,
    {
        JobInfo {
            id: self.id,
            state: self.state,
            state_message: self.state_message.clone(),
            state_reasons: self.state_reasons.clone(),
            attributes: self.attributes.clone(),
            created_at: self.created_at,
            processing_at: self.processing_at,
            completed_at: self.completed_at,
        }
    }
}

/// The attributes that confirm a job: where it is, which it is, and its state.
pub open spec fn lite_job_attributes(job: JobInfoView, job_uri: Seq<char>) -> Seq<AttributeView> {
    seq![
        attr("job-uri"@, IppValueView::Uri(job_uri)),
        attr("job-id"@, IppValueView::Integer(job.id)),
        attr("job-state"@, IppValueView::Enum(job.state.code())),
        attr("job-state-message"@, IppValueView::TextWithoutLanguage(job.state_message)),
        attr("job-state-reasons"@, job.state_reasons),
    ]
}

/// The name that a job goes by: `Job #` and its id.
pub open spec fn job_name(id: i32) -> Seq<char> {
    "Job #"@ + decimal_text(id as int)
}

/// The path of a job below the server's base path: `job/` and its id.
pub open spec fn job_path(id: i32) -> Seq<char> {
    "job/"@ + decimal_text(id as int)
}

/// The value that reports a time that may not have come yet.
pub open spec fn time_view(t: Option<u64>) -> IppValueView {
    match t {
        Some(secs) => seconds_view(secs),
        None => IppValueView::NoValue,
    }
}

/// What `job-description` stands for: the confirming attributes, then who
/// sent the job, where, and when.
pub open spec fn job_description_attributes(
    job: JobInfoView,
    job_uri: Seq<char>,
    printer_uri: Seq<char>,
    uptime: u64,
) -> Seq<AttributeView> {
    lite_job_attributes(job, job_uri) + seq![
        attr("job-printer-uri"@, IppValueView::Uri(printer_uri)),
        attr("job-name"@, IppValueView::NameWithoutLanguage(job_name(job.id))),
        attr(
            "job-originating-user-name"@,
            IppValueView::NameWithoutLanguage(job.attributes.originating_user_name),
        ),
        attr("time-at-creation"@, seconds_view(job.created_at)),
        attr("time-at-processing"@, time_view(job.processing_at)),
        attr("time-at-completed"@, time_view(job.completed_at)),
        attr("job-printer-up-time"@, seconds_view(uptime)),
    ]
}

/// What `job-template` stands for: the print options of the job.
/// `printer-resolution` is left out where the job has none.
pub open spec fn job_template_attributes(job: JobInfoView) -> Seq<AttributeView> {
    with_optional(
        seq![
            attr("media"@, IppValueView::Keyword(job.attributes.media)),
            attr(
                "orientation-requested"@,
                match job.attributes.orientation {
                    Some(o) => IppValueView::Enum(o.code()),
                    None => IppValueView::NoValue,
                },
            ),
            attr("sides"@, IppValueView::Keyword(job.attributes.sides)),
            attr("print-color-mode"@, IppValueView::Keyword(job.attributes.print_color_mode)),
        ],
        "printer-resolution"@,
        match job.attributes.printer_resolution {
            Some(r) => Some(r.to_value()),
            None => None,
        },
    )
}

/// The attributes of a job that are asked for. `all` asks for every one,
/// `job-description` and `job-template` each for theirs.
pub open spec fn job_attributes(
    job: JobInfoView,
    job_uri: Seq<char>,
    printer_uri: Seq<char>,
    uptime: u64,
    requested: Set<Seq<char>>,
) -> Seq<AttributeView> {
    let all = requested.contains("all"@);
    retained(
        job_description_attributes(job, job_uri, printer_uri, uptime),
        requested,
        all || requested.contains("job-description"@),
    ) + retained(
        job_template_attributes(job),
        requested,
        all || requested.contains("job-template"@),
    )
}

/// The attributes that confirm `job`, which is found at `job_uri`.
pub fn lite_job_list(job: &JobInfo, job_uri: String) -> (r: Vec<IppAttribute>)
    ensures
        attribute_views(r@) == lite_job_attributes(job@, job_uri@),
{
    let mut r: Vec<IppAttribute> = Vec::new();
    assert(attribute_views(r@) =~= Seq::<AttributeView>::empty());
    push_attribute(&mut r, "job-uri", IppValue::Uri(job_uri));
    push_attribute(&mut r, "job-id", IppValue::Integer(job.id));
    push_attribute(&mut r, "job-state", IppValue::Enum(job.state.to_i32()));
    push_attribute(
        &mut r,
        "job-state-message",
        IppValue::TextWithoutLanguage(job.state_message.clone()),
    );
    push_attribute(&mut r, "job-state-reasons", job.state_reasons.clone());
    r
}

/// The value that reports a time that may not have come yet.
fn time_value(t: Option<u64>) -> (r: IppValue)
    ensures
        r@ == time_view(t),
{
    match t {
        Some(secs) => seconds_value(secs),
        None => IppValue::NoValue,
    }
}

/// The attributes that `job-description` stands for.
pub fn job_description_list(job: &JobInfo, job_uri: String, printer_uri: String, uptime: u64) -> (r:
    Vec<IppAttribute>)
    ensures
        attribute_views(r@) == job_description_attributes(job@, job_uri@, printer_uri@, uptime),
{
    let mut r = lite_job_list(job, job_uri);
    let ghost lite = attribute_views(r@);
    push_attribute(&mut r, "job-printer-uri", IppValue::Uri(printer_uri));
    let mut name = "Job #".to_owned();
    append_decimal(&mut name, job.id);
    push_attribute(&mut r, "job-name", IppValue::NameWithoutLanguage(name));
    push_attribute(
        &mut r,
        "job-originating-user-name",
        IppValue::NameWithoutLanguage(job.attributes.originating_user_name.clone()),
    );
    push_attribute(&mut r, "time-at-creation", seconds_value(job.created_at));
    push_attribute(&mut r, "time-at-processing", time_value(job.processing_at));
    push_attribute(&mut r, "time-at-completed", time_value(job.completed_at));
    push_attribute(&mut r, "job-printer-up-time", seconds_value(uptime));
    assert(attribute_views(r@) =~= job_description_attributes(
        job@,
        job_uri@,
        printer_uri@,
        uptime,
    ));
    r
}

/// The attributes that `job-template` stands for.
pub fn job_template_list(job: &JobInfo) -> (r: Vec<IppAttribute>)
    ensures
        attribute_views(r@) == job_template_attributes(job@),
{
    let mut r: Vec<IppAttribute> = Vec::new();
    assert(attribute_views(r@) =~= Seq::<AttributeView>::empty());
    push_attribute(&mut r, "media", IppValue::Keyword(job.attributes.media.clone()));
    push_attribute(
        &mut r,
        "orientation-requested",
        match job.attributes.orientation {
            Some(o) => o.into_value(),
            None => IppValue::NoValue,
        },
    );
    push_attribute(&mut r, "sides", IppValue::Keyword(job.attributes.sides.clone()));
    push_attribute(
        &mut r,
        "print-color-mode",
        IppValue::Keyword(job.attributes.print_color_mode.clone()),
    );
    push_optional(
        &mut r,
        "printer-resolution",
        optional_resolution(job.attributes.printer_resolution),
    );
    r
}

/// The attributes of `job` that `requested` asks for.
pub fn job_attribute_list(
    job: &JobInfo,
    job_uri: String,
    printer_uri: String,
    uptime: u64,
    requested: &NameSet,
) -> (r: Vec<IppAttribute>)
    ensures
        attribute_views(r@) == job_attributes(job@, job_uri@, printer_uri@, uptime, requested@),
{
    let all = requested.contains("all");
    let description = all || requested.contains("job-description");
    let template = all || requested.contains("job-template");
    let mut r = retain_requested(
        job_description_list(job, job_uri, printer_uri, uptime),
        requested,
        description,
    );
    append_attributes(&mut r, retain_requested(job_template_list(job), requested, template));
    r
}

/// Asking for `all` job attributes gives a superset of what any other
/// request gives: every attribute that some `requested` is answered with is
/// among those that `all` is answered with, with the same value.
pub proof fn lemma_all_is_superset_of_job_attributes(
    job: JobInfoView,
    job_uri: Seq<char>,
    printer_uri: Seq<char>,
    uptime: u64,
    requested: Set<Seq<char>>,
    everything: Set<Seq<char>>,
)
    requires
        everything.contains("all"@),
    ensures
        job_attributes(job, job_uri, printer_uri, uptime, everything)
            == job_description_attributes(job, job_uri, printer_uri, uptime)
            + job_template_attributes(job),
        forall|i: int|
            0 <= i < job_attributes(job, job_uri, printer_uri, uptime, requested).len()
                ==> job_attributes(job, job_uri, printer_uri, uptime, everything).contains(
                #[trigger] job_attributes(job, job_uri, printer_uri, uptime, requested)[i],
            ),
{
    let description = job_description_attributes(job, job_uri, printer_uri, uptime);
    let template = job_template_attributes(job);
    lemma_retained_whole(description, everything);
    lemma_retained_whole(template, everything);
    let all = requested.contains("all"@);
    let d = all || requested.contains("job-description"@);
    let t = all || requested.contains("job-template"@);
    lemma_retained_within(description, requested, d);
    lemma_retained_within(template, requested, t);
    let some = job_attributes(job, job_uri, printer_uri, uptime, requested);
    let whole = description + template;
    assert forall|i: int| 0 <= i < some.len() implies whole.contains(#[trigger] some[i]) by {
        let kept_d = retained(description, requested, d);
        let kept_t = retained(template, requested, t);
        if i < kept_d.len() {
            assert(some[i] == kept_d[i]);
            let k = choose|k: int| 0 <= k < description.len() && description[k] == kept_d[i];
            assert(whole[k] == some[i]);
        } else {
            assert(some[i] == kept_t[i - kept_d.len()]);
            let k = choose|k: int|
                0 <= k < template.len() && template[k] == kept_t[i - kept_d.len()];
            assert(whole[description.len() + k] == some[i]);
        }
    }
}

/// The five attributes that confirm a job have five names.
pub proof fn lemma_lite_names_distinct(job: JobInfoView, job_uri: Seq<char>)
    ensures
        distinct_names(lite_job_attributes(job, job_uri)),
        with_attributes(Seq::empty(), lite_job_attributes(job, job_uri)) == lite_job_attributes(
            job,
            job_uri,
        ),
{
    reveal_strlit("job-uri");
    reveal_strlit("job-id");
    reveal_strlit("job-state");
    reveal_strlit("job-state-message");
    reveal_strlit("job-state-reasons");
    assert("job-uri"@.len() == 7);
    assert("job-id"@.len() == 6);
    assert("job-state"@.len() == 9);
    assert("job-state-message"@.len() == 17);
    assert("job-state-reasons"@.len() == 17);
    assert("job-state-message"@[10] != "job-state-reasons"@[10]);
    lemma_with_attributes_of_distinct(lite_job_attributes(job, job_uri));
}

} // verus!

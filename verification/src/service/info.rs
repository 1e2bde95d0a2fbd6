//! The printer's configuration, and the values that report it.
use crate::model::{PageOrientation, Resolution};
use crate::value::{lemma_array_view, views_of, IppValue, IppValueView};
use vstd::prelude::*;

verus! {

/// The views of a sequence of strings, one for one.
pub open spec fn strings_view(list: Seq<String>) -> Seq<Seq<char>> {
    list.map_values(|s: String| s@)
}

/// What the printer is and can do. Built once, then only read.
#[derive(Debug, Clone)]
pub struct PrinterInfo {
    pub(crate) name: String,
    pub(crate) info: Option<String>,
    pub(crate) make_and_model: Option<String>,
    pub(crate) uuid: Option<[u8; 16]>,
    pub(crate) document_format_supported: Vec<String>,
    pub(crate) document_format_default: String,
    pub(crate) document_format_preferred: Option<String>,
    pub(crate) media_supported: Vec<String>,
    pub(crate) media_default: String,
    pub(crate) orientation_supported: Vec<PageOrientation>,
    pub(crate) orientation_default: Option<PageOrientation>,
    pub(crate) sides_supported: Vec<String>,
    pub(crate) sides_default: String,
    pub(crate) print_color_mode_supported: Vec<String>,
    pub(crate) print_color_mode_default: String,
    pub(crate) printer_resolution_supported: Vec<Resolution>,
    pub(crate) printer_resolution_default: Option<Resolution>,
    pub(crate) pdf_versions_supported: Vec<String>,
    pub(crate) urf_supported: Vec<String>,
    pub(crate) pwg_raster_document_type_supported: Vec<String>,
    pub(crate) pwg_raster_document_resolution_supported: Vec<Resolution>,
    pub(crate) pwg_raster_document_sheet_back: Option<String>,
}

/// What a [`PrinterInfo`] stands for.
pub struct PrinterInfoView {
    pub name: Seq<char>,
    pub info: Option<Seq<char>>,
    pub make_and_model: Option<Seq<char>>,
    pub uuid: Option<Seq<u8>>,
    pub document_format_supported: Seq<Seq<char>>,
    pub document_format_default: Seq<char>,
    pub document_format_preferred: Option<Seq<char>>,
    pub media_supported: Seq<Seq<char>>,
    pub media_default: Seq<char>,
    pub orientation_supported: Seq<PageOrientation>,
    pub orientation_default: Option<PageOrientation>,
    pub sides_supported: Seq<Seq<char>>,
    pub sides_default: Seq<char>,
    pub print_color_mode_supported: Seq<Seq<char>>,
    pub print_color_mode_default: Seq<char>,
    pub printer_resolution_supported: Seq<Resolution>,
    pub printer_resolution_default: Option<Resolution>,
    pub pdf_versions_supported: Seq<Seq<char>>,
    pub urf_supported: Seq<Seq<char>>,
    pub pwg_raster_document_type_supported: Seq<Seq<char>>,
    pub pwg_raster_document_resolution_supported: Seq<Resolution>,
    pub pwg_raster_document_sheet_back: Option<Seq<char>>,
}

/// The view of a string that may be absent.
pub open spec fn optional_view(s: Option<String>) -> Option<Seq<char>> {
    match s {
        Some(s) => Some(s@),
        None => None,
    }
}

impl View for PrinterInfo {
    type V = PrinterInfoView;

    closed spec fn view(&self) -> PrinterInfoView {
        PrinterInfoView {
            name: self.name@,
            info: optional_view(self.info),
            make_and_model: optional_view(self.make_and_model),
            uuid: match self.uuid {
                Some(u) => Some(u@),
                None => None,
            },
            document_format_supported: strings_view(self.document_format_supported@),
            document_format_default: self.document_format_default@,
            document_format_preferred: optional_view(self.document_format_preferred),
            media_supported: strings_view(self.media_supported@),
            media_default: self.media_default@,
            orientation_supported: self.orientation_supported@,
            orientation_default: self.orientation_default,
            sides_supported: strings_view(self.sides_supported@),
            sides_default: self.sides_default@,
            print_color_mode_supported: strings_view(self.print_color_mode_supported@),
            print_color_mode_default: self.print_color_mode_default@,
            printer_resolution_supported: self.printer_resolution_supported@,
            printer_resolution_default: self.printer_resolution_default,
            pdf_versions_supported: strings_view(self.pdf_versions_supported@),
            urf_supported: strings_view(self.urf_supported@),
            pwg_raster_document_type_supported: strings_view(
                self.pwg_raster_document_type_supported@,
            ),
            pwg_raster_document_resolution_supported: self.pwg_raster_document_resolution_supported@,
            pwg_raster_document_sheet_back: optional_view(self.pwg_raster_document_sheet_back),
        }
    }
}

impl PrinterInfo {
    /// Sets the document formats that the printer takes, and the one that
    /// it assumes, which must be among them.
    pub fn set_document_format(&mut self, supported: Vec<String>, default: String)
        requires
            strings_view(supported@).contains(default@),
        ensures
            final(self)@ == (PrinterInfoView {
                document_format_supported: strings_view(supported@),
                document_format_default: default@,
                ..old(self)@
            }),
    {
        self.document_format_supported = supported;
        self.document_format_default = default;
    }

    /// The printer's name.
    pub fn name(&self) -> (r: &String)
        ensures
            r@ == self@.name,
    {
        &self.name
    }

    /// A description of the printer.
    pub fn info(&self) -> (r: &Option<String>)
        ensures
            optional_view(*r) == self@.info,
    {
        &self.info
    }

    /// The printer's make and model.
    pub fn make_and_model(&self) -> (r: &Option<String>)
        ensures
            optional_view(*r) == self@.make_and_model,
    {
        &self.make_and_model
    }

    /// The sixteen octets of the printer's UUID.
    pub fn uuid(&self) -> (r: &Option<[u8; 16]>)
        ensures
            match *r {
                Some(u) => self@.uuid == Some(u@),
                None => self@.uuid is None,
            },
    {
        &self.uuid
    }

    /// The document formats that the printer takes.
    pub fn document_format_supported(&self) -> (r: &Vec<String>)
        ensures
            strings_view(r@) == self@.document_format_supported,
    {
        &self.document_format_supported
    }

    /// The document format that the printer assumes.
    pub fn document_format_default(&self) -> (r: &String)
        ensures
            r@ == self@.document_format_default,
    {
        &self.document_format_default
    }

    /// The document format that the printer likes best.
    pub fn document_format_preferred(&self) -> (r: &Option<String>)
        ensures
            optional_view(*r) == self@.document_format_preferred,
    {
        &self.document_format_preferred
    }

    /// The media that the printer takes.
    pub fn media_supported(&self) -> (r: &Vec<String>)
        ensures
            strings_view(r@) == self@.media_supported,
    {
        &self.media_supported
    }

    /// The medium of a job that names none.
    pub fn media_default(&self) -> (r: &String)
        ensures
            r@ == self@.media_default,
    {
        &self.media_default
    }

    /// The orientations that the printer takes.
    pub fn orientation_supported(&self) -> (r: &Vec<PageOrientation>)
        ensures
            r@ == self@.orientation_supported,
    {
        &self.orientation_supported
    }

    /// The orientation of a job that names none.
    pub fn orientation_default(&self) -> (r: Option<PageOrientation>)
        ensures
            r == self@.orientation_default,
    {
        self.orientation_default
    }

    /// The values of `sides` that the printer takes.
    pub fn sides_supported(&self) -> (r: &Vec<String>)
        ensures
            strings_view(r@) == self@.sides_supported,
    {
        &self.sides_supported
    }

    /// The `sides` of a job that names none.
    pub fn sides_default(&self) -> (r: &String)
        ensures
            r@ == self@.sides_default,
    {
        &self.sides_default
    }

    /// The colour modes that the printer takes.
    pub fn print_color_mode_supported(&self) -> (r: &Vec<String>)
        ensures
            strings_view(r@) == self@.print_color_mode_supported,
    {
        &self.print_color_mode_supported
    }

    /// The colour mode of a job that names none.
    pub fn print_color_mode_default(&self) -> (r: &String)
        ensures
            r@ == self@.print_color_mode_default,
    {
        &self.print_color_mode_default
    }

    /// The resolutions that the printer takes.
    pub fn printer_resolution_supported(&self) -> (r: &Vec<Resolution>)
        ensures
            r@ == self@.printer_resolution_supported,
    {
        &self.printer_resolution_supported
    }

    /// The resolution of a job that names none.
    pub fn printer_resolution_default(&self) -> (r: Option<Resolution>)
        ensures
            r == self@.printer_resolution_default,
    {
        self.printer_resolution_default
    }

    /// The PDF versions that the printer takes.
    pub fn pdf_versions_supported(&self) -> (r: &Vec<String>)
        ensures
            strings_view(r@) == self@.pdf_versions_supported,
    {
        &self.pdf_versions_supported
    }

    /// The URF capabilities of the printer.
    pub fn urf_supported(&self) -> (r: &Vec<String>)
        ensures
            strings_view(r@) == self@.urf_supported,
    {
        &self.urf_supported
    }

    /// The PWG raster document types that the printer takes.
    pub fn pwg_raster_document_type_supported(&self) -> (r: &Vec<String>)
        ensures
            strings_view(r@) == self@.pwg_raster_document_type_supported,
    {
        &self.pwg_raster_document_type_supported
    }

    /// The PWG raster resolutions that the printer takes.
    pub fn pwg_raster_document_resolution_supported(&self) -> (r: &Vec<Resolution>)
        ensures
            r@ == self@.pwg_raster_document_resolution_supported,
    {
        &self.pwg_raster_document_resolution_supported
    }

    /// How the printer wants the back of a PWG raster sheet.
    pub fn pwg_raster_document_sheet_back(&self) -> (r: &Option<String>)
        ensures
            optional_view(*r) == self@.pwg_raster_document_sheet_back,
    {
        &self.pwg_raster_document_sheet_back
    }
}

/// The printer whose configuration says nothing but the defaults: it is
/// called `IppServer`, takes PDF on A4, one-sided, in black or in colour.
pub open spec fn default_info() -> PrinterInfoView {
    PrinterInfoView {
        name: "IppServer"@,
        info: Some("IppServer by ippper"@),
        make_and_model: Some("IppServer by ippper"@),
        uuid: None,
        document_format_supported: seq!["application/pdf"@],
        document_format_default: "application/pdf"@,
        document_format_preferred: Some("application/pdf"@),
        media_supported: seq!["iso_a4_210x297mm"@],
        media_default: "iso_a4_210x297mm"@,
        orientation_supported: seq![PageOrientation::Portrait],
        orientation_default: None,
        sides_supported: seq!["one-sided"@],
        sides_default: "one-sided"@,
        print_color_mode_supported: seq!["monochrome"@, "color"@],
        print_color_mode_default: "monochrome"@,
        printer_resolution_supported: Seq::empty(),
        printer_resolution_default: None,
        pdf_versions_supported: seq![
            "adobe-1.2"@,
            "adobe-1.3"@,
            "adobe-1.4"@,
            "adobe-1.5"@,
            "adobe-1.6"@,
            "adobe-1.7"@,
            "iso-19005-1_2005"@,
            "iso-32000-1_2008"@,
            "pwg-5102.3"@,
        ],
        urf_supported: Seq::empty(),
        pwg_raster_document_type_supported: Seq::empty(),
        pwg_raster_document_resolution_supported: Seq::empty(),
        pwg_raster_document_sheet_back: None,
    }
}

/// Owned copies of the strings `list`.
fn owned_strings(list: &[&str]) -> (r: Vec<String>)
    ensures
        strings_view(r@) == list@.map_values(|s: &str| s@),
{
    let mut r: Vec<String> = Vec::new();
    let mut i: usize = 0;
    while i < list.len()
        invariant
            i <= list.len(),
            r.len() == i,
            forall|j: int| 0 <= j < i ==> r@[j]@ == list@[j]@,
        decreases list.len() - i,
    {
        r.push(list[i].to_owned());
        i += 1;
    }
    assert(strings_view(r@) =~= list@.map_values(|s: &str| s@));
    r
}

/// Builds a [`PrinterInfo`] from the defaults and what is set on it.
#[derive(Debug, Clone)]
pub struct PrinterInfoBuilder {
    info: PrinterInfo,
}

impl View for PrinterInfoBuilder {
    type V = PrinterInfoView;

    closed spec fn view(&self) -> PrinterInfoView {
        self.info@
    }
}

impl Default for PrinterInfoBuilder {
    /// A builder with nothing set: it builds the default printer.
    fn default() -> (r: Self)
        ensures
            r@ == default_info(),
    {
        let document_format_supported = owned_strings(&["application/pdf"]);
        assert(strings_view(document_format_supported@) =~= seq!["application/pdf"@]);
        let media_supported = owned_strings(&["iso_a4_210x297mm"]);
        assert(strings_view(media_supported@) =~= seq!["iso_a4_210x297mm"@]);
        let mut orientation_supported: Vec<PageOrientation> = Vec::new();
        orientation_supported.push(PageOrientation::Portrait);
        assert(orientation_supported@ =~= seq![PageOrientation::Portrait]);
        let sides_supported = owned_strings(&["one-sided"]);
        assert(strings_view(sides_supported@) =~= seq!["one-sided"@]);
        let print_color_mode_supported = owned_strings(&["monochrome", "color"]);
        assert(strings_view(print_color_mode_supported@) =~= seq!["monochrome"@, "color"@]);
        let printer_resolution_supported: Vec<Resolution> = Vec::new();
        assert(printer_resolution_supported@ =~= Seq::<Resolution>::empty());
        let pdf_versions_supported = owned_strings(
            &[
                "adobe-1.2",
                "adobe-1.3",
                "adobe-1.4",
                "adobe-1.5",
                "adobe-1.6",
                "adobe-1.7",
                "iso-19005-1_2005",
                "iso-32000-1_2008",
                "pwg-5102.3",
            ],
        );
        assert(strings_view(pdf_versions_supported@) =~= default_info().pdf_versions_supported);
        let urf_supported: Vec<String> = Vec::new();
        assert(strings_view(urf_supported@) =~= Seq::<Seq<char>>::empty());
        let pwg_raster_document_type_supported: Vec<String> = Vec::new();
        assert(strings_view(pwg_raster_document_type_supported@) =~= Seq::<Seq<char>>::empty());
        let pwg_raster_document_resolution_supported: Vec<Resolution> = Vec::new();
        assert(pwg_raster_document_resolution_supported@ =~= Seq::<Resolution>::empty());
        PrinterInfoBuilder {
            info: PrinterInfo {
                name: "IppServer".to_owned(),
                info: Some("IppServer by ippper".to_owned()),
                make_and_model: Some("IppServer by ippper".to_owned()),
                uuid: None,
                document_format_supported,
                document_format_default: "application/pdf".to_owned(),
                document_format_preferred: Some("application/pdf".to_owned()),
                media_supported,
                media_default: "iso_a4_210x297mm".to_owned(),
                orientation_supported,
                orientation_default: None,
                sides_supported,
                sides_default: "one-sided".to_owned(),
                print_color_mode_supported,
                print_color_mode_default: "monochrome".to_owned(),
                printer_resolution_supported,
                printer_resolution_default: None,
                pdf_versions_supported,
                urf_supported,
                pwg_raster_document_type_supported,
                pwg_raster_document_resolution_supported,
                pwg_raster_document_sheet_back: None,
            },
        }
    }
}

impl PrinterInfoBuilder {
    /// The printer's name.
    pub fn name(self, value: String) -> (r: Self)
        ensures
            r@ == (PrinterInfoView {
                name: value@,
                ..self@
            }),
    {
        let mut info = self.info;
        info.name = value;
        PrinterInfoBuilder { info }
    }

    /// A description of the printer.
    pub fn info(self, value: Option<String>) -> (r: Self)
        ensures
            r@ == (PrinterInfoView {
                info: optional_view(value),
                ..self@
            }),
    {
        let mut info = self.info;
        info.info = value;
        PrinterInfoBuilder { info }
    }

    /// The printer's make and model.
    pub fn make_and_model(self, value: Option<String>) -> (r: Self)
        ensures
            r@ == (PrinterInfoView {
                make_and_model: optional_view(value),
                ..self@
            }),
    {
        let mut info = self.info;
        info.make_and_model = value;
        PrinterInfoBuilder { info }
    }

    /// The sixteen octets of the printer's UUID.
    pub fn uuid(self, value: Option<[u8; 16]>) -> (r: Self)
        ensures
            r@ == (PrinterInfoView {
                uuid: match value {
                    Some(u) => Some(u@),
                    None => None,
                },
                ..self@
            }),
    {
        let mut info = self.info;
        info.uuid = value;
        PrinterInfoBuilder { info }
    }

    /// The document formats that the printer takes.
    pub fn document_format_supported(self, value: Vec<String>) -> (r: Self)
        ensures
            r@ == (PrinterInfoView {
                document_format_supported: strings_view(value@),
                ..self@
            }),
    {
        let mut info = self.info;
        info.document_format_supported = value;
        PrinterInfoBuilder { info }
    }

    /// The document format that the printer assumes.
    pub fn document_format_default(self, value: String) -> (r: Self)
        ensures
            r@ == (PrinterInfoView {
                document_format_default: value@,
                ..self@
            }),
    {
        let mut info = self.info;
        info.document_format_default = value;
        PrinterInfoBuilder { info }
    }

    /// The document format that the printer likes best.
    pub fn document_format_preferred(self, value: Option<String>) -> (r: Self)
        ensures
            r@ == (PrinterInfoView {
                document_format_preferred: optional_view(value),
                ..self@
            }),
    {
        let mut info = self.info;
        info.document_format_preferred = value;
        PrinterInfoBuilder { info }
    }

    /// The media that the printer takes.
    pub fn media_supported(self, value: Vec<String>) -> (r: Self)
        ensures
            r@ == (PrinterInfoView {
                media_supported: strings_view(value@),
                ..self@
            }),
    {
        let mut info = self.info;
        info.media_supported = value;
        PrinterInfoBuilder { info }
    }

    /// The medium of a job that names none.
    pub fn media_default(self, value: String) -> (r: Self)
        ensures
            r@ == (PrinterInfoView {
                media_default: value@,
                ..self@
            }),
    {
        let mut info = self.info;
        info.media_default = value;
        PrinterInfoBuilder { info }
    }

    /// The orientations that the printer takes.
    pub fn orientation_supported(self, value: Vec<PageOrientation>) -> (r: Self)
        ensures
            r@ == (PrinterInfoView {
                orientation_supported: value@,
                ..self@
            }),
    {
        let mut info = self.info;
        info.orientation_supported = value;
        PrinterInfoBuilder { info }
    }

    /// The orientation of a job that names none.
    pub fn orientation_default(self, value: Option<PageOrientation>) -> (r: Self)
        ensures
            r@ == (PrinterInfoView {
                orientation_default: value,
                ..self@
            }),
    {
        let mut info = self.info;
        info.orientation_default = value;
        PrinterInfoBuilder { info }
    }

    /// The values of `sides` that the printer takes.
    pub fn sides_supported(self, value: Vec<String>) -> (r: Self)
        ensures
            r@ == (PrinterInfoView {
                sides_supported: strings_view(value@),
                ..self@
            }),
    {
        let mut info = self.info;
        info.sides_supported = value;
        PrinterInfoBuilder { info }
    }

    /// The `sides` of a job that names none.
    pub fn sides_default(self, value: String) -> (r: Self)
        ensures
            r@ == (PrinterInfoView {
                sides_default: value@,
                ..self@
            }),
    {
        let mut info = self.info;
        info.sides_default = value;
        PrinterInfoBuilder { info }
    }

    /// The colour modes that the printer takes.
    pub fn print_color_mode_supported(self, value: Vec<String>) -> (r: Self)
        ensures
            r@ == (PrinterInfoView {
                print_color_mode_supported: strings_view(value@),
                ..self@
            }),
    {
        let mut info = self.info;
        info.print_color_mode_supported = value;
        PrinterInfoBuilder { info }
    }

    /// The colour mode of a job that names none.
    pub fn print_color_mode_default(self, value: String) -> (r: Self)
        ensures
            r@ == (PrinterInfoView {
                print_color_mode_default: value@,
                ..self@
            }),
    {
        let mut info = self.info;
        info.print_color_mode_default = value;
        PrinterInfoBuilder { info }
    }

    /// The resolutions that the printer takes.
    pub fn printer_resolution_supported(self, value: Vec<Resolution>) -> (r: Self)
        ensures
            r@ == (PrinterInfoView {
                printer_resolution_supported: value@,
                ..self@
            }),
    {
        let mut info = self.info;
        info.printer_resolution_supported = value;
        PrinterInfoBuilder { info }
    }

    /// The resolution of a job that names none.
    pub fn printer_resolution_default(self, value: Option<Resolution>) -> (r: Self)
        ensures
            r@ == (PrinterInfoView {
                printer_resolution_default: value,
                ..self@
            }),
    {
        let mut info = self.info;
        info.printer_resolution_default = value;
        PrinterInfoBuilder { info }
    }

    /// The PDF versions that the printer takes.
    pub fn pdf_versions_supported(self, value: Vec<String>) -> (r: Self)
        ensures
            r@ == (PrinterInfoView {
                pdf_versions_supported: strings_view(value@),
                ..self@
            }),
    {
        let mut info = self.info;
        info.pdf_versions_supported = value;
        PrinterInfoBuilder { info }
    }

    /// The URF capabilities of the printer.
    pub fn urf_supported(self, value: Vec<String>) -> (r: Self)
        ensures
            r@ == (PrinterInfoView {
                urf_supported: strings_view(value@),
                ..self@
            }),
    {
        let mut info = self.info;
        info.urf_supported = value;
        PrinterInfoBuilder { info }
    }

    /// The PWG raster document types that the printer takes.
    pub fn pwg_raster_document_type_supported(self, value: Vec<String>) -> (r: Self)
        ensures
            r@ == (PrinterInfoView {
                pwg_raster_document_type_supported: strings_view(value@),
                ..self@
            }),
    {
        let mut info = self.info;
        info.pwg_raster_document_type_supported = value;
        PrinterInfoBuilder { info }
    }

    /// The PWG raster resolutions that the printer takes.
    pub fn pwg_raster_document_resolution_supported(self, value: Vec<Resolution>) -> (r: Self)
        ensures
            r@ == (PrinterInfoView {
                pwg_raster_document_resolution_supported: value@,
                ..self@
            }),
    {
        let mut info = self.info;
        info.pwg_raster_document_resolution_supported = value;
        PrinterInfoBuilder { info }
    }

    /// How the printer wants the back of a PWG raster sheet.
    pub fn pwg_raster_document_sheet_back(self, value: Option<String>) -> (r: Self)
        ensures
            r@ == (PrinterInfoView {
                pwg_raster_document_sheet_back: optional_view(value),
                ..self@
            }),
    {
        let mut info = self.info;
        info.pwg_raster_document_sheet_back = value;
        PrinterInfoBuilder { info }
    }

    /// The printer as configured. A builder always builds.
    pub fn build(self) -> (r: Result<PrinterInfo, String>)
        ensures
            r is Ok,
            r->Ok_0@ == self@,
    {
        Ok(self.info)
    }
}

/// The array of the keywords `list`.
pub open spec fn keyword_array(list: Seq<Seq<char>>) -> IppValueView {
    IppValueView::Array(list.map_values(|s: Seq<char>| IppValueView::Keyword(s)))
}

/// The array of the media types `list`.
pub open spec fn mime_array(list: Seq<Seq<char>>) -> IppValueView {
    IppValueView::Array(list.map_values(|s: Seq<char>| IppValueView::MimeMediaType(s)))
}

/// The array of the enum values of the orientations `list`.
pub open spec fn orientation_array(list: Seq<PageOrientation>) -> IppValueView {
    IppValueView::Array(list.map_values(|o: PageOrientation| IppValueView::Enum(o.code())))
}

/// The array of the resolutions `list`.
pub open spec fn resolution_array(list: Seq<Resolution>) -> IppValueView {
    IppValueView::Array(list.map_values(|r: Resolution| r.to_value()))
}

/// The array of the enum values `list`.
pub open spec fn enum_array(list: Seq<i32>) -> IppValueView {
    IppValueView::Array(list.map_values(|v: i32| IppValueView::Enum(v)))
}

/// An array value with the keywords of `list` as its members.
pub fn keywords(list: &Vec<String>) -> (r: IppValue)
    ensures
        r@ == keyword_array(strings_view(list@)),
{
    let mut out: Vec<IppValue> = Vec::new();
    let mut i: usize = 0;
    while i < list.len()
        invariant
            i <= list.len(),
            out.len() == i,
            forall|j: int| 0 <= j < i ==> out@[j]@ == IppValueView::Keyword(list@[j]@),
        decreases list.len() - i,
    {
        out.push(IppValue::Keyword(list[i].clone()));
        i += 1;
    }
    proof {
        lemma_array_view(out);
        assert(views_of(out@) =~= strings_view(list@).map_values(
            |s: Seq<char>| IppValueView::Keyword(s),
        ));
    }
    IppValue::Array(out)
}

/// An array value with the keywords `list` as its members.
pub fn keyword_list(list: &[&str]) -> (r: IppValue)
    ensures
        r@ == keyword_array(list@.map_values(|s: &str| s@)),
{
    let mut out: Vec<IppValue> = Vec::new();
    let mut i: usize = 0;
    while i < list.len()
        invariant
            i <= list.len(),
            out.len() == i,
            forall|j: int| 0 <= j < i ==> out@[j]@ == IppValueView::Keyword(list@[j]@),
        decreases list.len() - i,
    {
        out.push(IppValue::Keyword(list[i].to_owned()));
        i += 1;
    }
    proof {
        lemma_array_view(out);
        assert(views_of(out@) =~= list@.map_values(|s: &str| s@).map_values(
            |s: Seq<char>| IppValueView::Keyword(s),
        ));
    }
    IppValue::Array(out)
}

/// An array value with the media types of `list` as its members.
pub fn mime_types(list: &Vec<String>) -> (r: IppValue)
    ensures
        r@ == mime_array(strings_view(list@)),
{
    let mut out: Vec<IppValue> = Vec::new();
    let mut i: usize = 0;
    while i < list.len()
        invariant
            i <= list.len(),
            out.len() == i,
            forall|j: int| 0 <= j < i ==> out@[j]@ == IppValueView::MimeMediaType(list@[j]@),
        decreases list.len() - i,
    {
        out.push(IppValue::MimeMediaType(list[i].clone()));
        i += 1;
    }
    proof {
        lemma_array_view(out);
        assert(views_of(out@) =~= strings_view(list@).map_values(
            |s: Seq<char>| IppValueView::MimeMediaType(s),
        ));
    }
    IppValue::Array(out)
}

/// An array value with the enum values of the orientations `list` as its members.
pub fn orientations(list: &Vec<PageOrientation>) -> (r: IppValue)
    ensures
        r@ == orientation_array(list@),
{
    let mut out: Vec<IppValue> = Vec::new();
    let mut i: usize = 0;
    while i < list.len()
        invariant
            i <= list.len(),
            out.len() == i,
            forall|j: int| 0 <= j < i ==> out@[j]@ == IppValueView::Enum(list@[j].code()),
        decreases list.len() - i,
    {
        out.push(list[i].into_value());
        i += 1;
    }
    proof {
        lemma_array_view(out);
        assert(views_of(out@) =~= list@.map_values(
            |o: PageOrientation| IppValueView::Enum(o.code()),
        ));
    }
    IppValue::Array(out)
}

/// An array value with the resolutions `list` as its members.
pub fn resolutions(list: &Vec<Resolution>) -> (r: IppValue)
    ensures
        r@ == resolution_array(list@),
{
    let mut out: Vec<IppValue> = Vec::new();
    let mut i: usize = 0;
    while i < list.len()
        invariant
            i <= list.len(),
            out.len() == i,
            forall|j: int| 0 <= j < i ==> out@[j]@ == list@[j].to_value(),
        decreases list.len() - i,
    {
        out.push(list[i].into_value());
        i += 1;
    }
    proof {
        lemma_array_view(out);
        assert(views_of(out@) =~= list@.map_values(|r: Resolution| r.to_value()));
    }
    IppValue::Array(out)
}

/// An array value with the enum values `list` as its members.
pub fn enums(list: &[i32]) -> (r: IppValue)
    ensures
        r@ == enum_array(list@),
{
    let mut out: Vec<IppValue> = Vec::new();
    let mut i: usize = 0;
    while i < list.len()
        invariant
            i <= list.len(),
            out.len() == i,
            forall|j: int| 0 <= j < i ==> out@[j]@ == IppValueView::Enum(list@[j]),
        decreases list.len() - i,
    {
        out.push(IppValue::Enum(list[i]));
        i += 1;
    }
    proof {
        lemma_array_view(out);
        assert(views_of(out@) =~= list@.map_values(|v: i32| IppValueView::Enum(v)));
    }
    IppValue::Array(out)
}

/// Whether `list` holds a string with the characters of `s`.
pub fn contains_string(list: &Vec<String>, s: &str) -> (r: bool)
    ensures
        r == strings_view(list@).contains(s@),
{
    let mut i: usize = 0;
    while i < list.len()
        invariant
            i <= list.len(),
            forall|j: int| 0 <= j < i ==> list@[j]@ != s@,
        decreases list.len() - i,
    {
        if crate::text::str_eq(list[i].as_str(), s) {
            assert(strings_view(list@)[i as int] == s@);
            return true;
        }
        i += 1;
    }
    assert forall|j: int| 0 <= j < strings_view(list@).len() implies strings_view(list@)[j]
        != s@ by {}
    false
}

} // verus!

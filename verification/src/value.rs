//! Attribute values, as the IPP encoding (RFC 8010) knows them.
use vstd::prelude::*;

verus! {

/// One attribute value. `Array` is a value with several members (a 1setOf);
/// `Other` keeps the octets of a value whose tag this library does not interpret.
#[derive(Debug, PartialEq, Eq)]
pub enum IppValue {
    Integer(i32),
    Enum(i32),
    OctetString(Vec<u8>),
    TextWithoutLanguage(String),
    NameWithoutLanguage(String),
    TextWithLanguage { language: String, text: String },
    NameWithLanguage { language: String, name: String },
    Charset(String),
    NaturalLanguage(String),
    Uri(String),
    UriScheme(String),
    RangeOfInteger { min: i32, max: i32 },
    Boolean(bool),
    Keyword(String),
    Array(Vec<IppValue>),
    MimeMediaType(String),
    DateTime {
        year: u16,
        month: u8,
        day: u8,
        hour: u8,
        minutes: u8,
        seconds: u8,
        deci_seconds: u8,
        utc_dir: u8,
        utc_hours: u8,
        utc_mins: u8,
    },
    MemberAttrName(String),
    Resolution { cross_feed: i32, feed: i32, units: i8 },
    NoValue,
    Other { tag: u8, data: Vec<u8> },
}

/// The mathematical value that an [`IppValue`] stands for.
pub enum IppValueView {
    Integer(i32),
    Enum(i32),
    OctetString(Seq<u8>),
    TextWithoutLanguage(Seq<char>),
    NameWithoutLanguage(Seq<char>),
    TextWithLanguage { language: Seq<char>, text: Seq<char> },
    NameWithLanguage { language: Seq<char>, name: Seq<char> },
    Charset(Seq<char>),
    NaturalLanguage(Seq<char>),
    Uri(Seq<char>),
    UriScheme(Seq<char>),
    RangeOfInteger { min: i32, max: i32 },
    Boolean(bool),
    Keyword(Seq<char>),
    Array(Seq<IppValueView>),
    MimeMediaType(Seq<char>),
    DateTime {
        year: u16,
        month: u8,
        day: u8,
        hour: u8,
        minutes: u8,
        seconds: u8,
        deci_seconds: u8,
        utc_dir: u8,
        utc_hours: u8,
        utc_mins: u8,
    },
    MemberAttrName(Seq<char>),
    Resolution { cross_feed: i32, feed: i32, units: i8 },
    NoValue,
    Other { tag: u8, data: Seq<u8> },
}

/// The value that `v` stands for; the members of an array are taken one by one.
pub open spec fn value_view(v: &IppValue) -> IppValueView
    decreases v,
{
    match v {
            IppValue::Integer(v) => IppValueView::Integer(*v),
            IppValue::Enum(v) => IppValueView::Enum(*v),
            IppValue::OctetString(d) => IppValueView::OctetString(d@),
            IppValue::TextWithoutLanguage(s) => IppValueView::TextWithoutLanguage(s@),
            IppValue::NameWithoutLanguage(s) => IppValueView::NameWithoutLanguage(s@),
            IppValue::TextWithLanguage { language, text } => IppValueView::TextWithLanguage {
                language: language@,
                text: text@,
            },
            IppValue::NameWithLanguage { language, name } => IppValueView::NameWithLanguage {
                language: language@,
                name: name@,
            },
            IppValue::Charset(s) => IppValueView::Charset(s@),
            IppValue::NaturalLanguage(s) => IppValueView::NaturalLanguage(s@),
            IppValue::Uri(s) => IppValueView::Uri(s@),
            IppValue::UriScheme(s) => IppValueView::UriScheme(s@),
            IppValue::RangeOfInteger { min, max } => IppValueView::RangeOfInteger {
                min: *min,
                max: *max,
            },
            IppValue::Boolean(b) => IppValueView::Boolean(*b),
            IppValue::Keyword(s) => IppValueView::Keyword(s@),
            IppValue::Array(items) => IppValueView::Array(
                Seq::new(
                    items@.len(),
                    |i: int|
                        if 0 <= i < items@.len() {
                            value_view(&items@[i])
                        } else {
                            IppValueView::NoValue
                        },
                ),
            ),
            IppValue::MimeMediaType(s) => IppValueView::MimeMediaType(s@),
            IppValue::DateTime {
                year,
                month,
                day,
                hour,
                minutes,
                seconds,
                deci_seconds,
                utc_dir,
                utc_hours,
                utc_mins,
            } => IppValueView::DateTime {
                year: *year,
                month: *month,
                day: *day,
                hour: *hour,
                minutes: *minutes,
                seconds: *seconds,
                deci_seconds: *deci_seconds,
                utc_dir: *utc_dir,
                utc_hours: *utc_hours,
                utc_mins: *utc_mins,
            },
            IppValue::MemberAttrName(s) => IppValueView::MemberAttrName(s@),
            IppValue::Resolution { cross_feed, feed, units } => IppValueView::Resolution {
                cross_feed: *cross_feed,
                feed: *feed,
                units: *units,
            },
            IppValue::NoValue => IppValueView::NoValue,
            IppValue::Other { tag, data } => IppValueView::Other { tag: *tag, data: data@ },
        }
}

impl View for IppValue {
    type V = IppValueView;

    open spec fn view(&self) -> IppValueView {
        value_view(self)
    }
}

/// The views of a sequence of values, one for one.
pub open spec fn views_of(items: Seq<IppValue>) -> Seq<IppValueView> {
    items.map_values(|v: IppValue| v@)
}

/// An array's view holds the views of its members, in their order.
pub proof fn lemma_array_view(items: Vec<IppValue>)
    ensures
        IppValue::Array(items)@ == IppValueView::Array(views_of(items@)),
{
    assert(IppValue::Array(items)@->Array_0 =~= views_of(items@));
}

fn clone_bytes(data: &Vec<u8>) -> (r: Vec<u8>)
    ensures
        r@ == data@,
{
    let mut out: Vec<u8> = Vec::new();
    let mut i: usize = 0;
    while i < data.len()
        invariant
            i <= data.len(),
            out@ == data@.take(i as int),
        decreases data.len() - i,
    {
        out.push(data[i]);
        assert(data@.take(i as int + 1) =~= data@.take(i as int).push(data@[i as int]));
        i += 1;
    }
    assert(data@.take(data.len() as int) =~= data@);
    out
}

impl Clone for IppValue {
    fn clone(&self) -> (r: Self)
        ensures
            r@ == self@,
        decreases self,
    {
        match self {
            IppValue::Integer(v) => IppValue::Integer(*v),
            IppValue::Enum(v) => IppValue::Enum(*v),
            IppValue::OctetString(d) => IppValue::OctetString(clone_bytes(d)),
            IppValue::TextWithoutLanguage(s) => IppValue::TextWithoutLanguage(s.clone()),
            IppValue::NameWithoutLanguage(s) => IppValue::NameWithoutLanguage(s.clone()),
            IppValue::TextWithLanguage { language, text } => IppValue::TextWithLanguage {
                language: language.clone(),
                text: text.clone(),
            },
            IppValue::NameWithLanguage { language, name } => IppValue::NameWithLanguage {
                language: language.clone(),
                name: name.clone(),
            },
            IppValue::Charset(s) => IppValue::Charset(s.clone()),
            IppValue::NaturalLanguage(s) => IppValue::NaturalLanguage(s.clone()),
            IppValue::Uri(s) => IppValue::Uri(s.clone()),
            IppValue::UriScheme(s) => IppValue::UriScheme(s.clone()),
            IppValue::RangeOfInteger { min, max } => IppValue::RangeOfInteger {
                min: *min,
                max: *max,
            },
            IppValue::Boolean(b) => IppValue::Boolean(*b),
            IppValue::Keyword(s) => IppValue::Keyword(s.clone()),
            IppValue::Array(items) => {
                let mut out: Vec<IppValue> = Vec::new();
                let mut i: usize = 0;
                while i < items.len()
                    invariant
                        i <= items.len(),
                        out.len() == i,
                        *self == IppValue::Array(*items),
                        forall|j: int| 0 <= j < i ==> out@[j]@ == items@[j]@,
                    decreases items.len() - i,
                {
                    proof {
                        vstd::std_specs::vec::axiom_vec_index_decreases(*items, i as int);
                        assert(self->Array_0 == *items);
                        assert(decreases_to!(*self => self->Array_0));
                        assert(decreases_to!(*self => items@[i as int]));
                    }
                    let c = items[i].clone();
                    out.push(c);
                    i += 1;
                }
                let r = IppValue::Array(out);
                assert(r@->Array_0 =~= self@->Array_0);
                r
            },
            IppValue::MimeMediaType(s) => IppValue::MimeMediaType(s.clone()),
            IppValue::DateTime {
                year,
                month,
                day,
                hour,
                minutes,
                seconds,
                deci_seconds,
                utc_dir,
                utc_hours,
                utc_mins,
            } => IppValue::DateTime {
                year: *year,
                month: *month,
                day: *day,
                hour: *hour,
                minutes: *minutes,
                seconds: *seconds,
                deci_seconds: *deci_seconds,
                utc_dir: *utc_dir,
                utc_hours: *utc_hours,
                utc_mins: *utc_mins,
            },
            IppValue::MemberAttrName(s) => IppValue::MemberAttrName(s.clone()),
            IppValue::Resolution { cross_feed, feed, units } => IppValue::Resolution {
                cross_feed: *cross_feed,
                feed: *feed,
                units: *units,
            },
            IppValue::NoValue => IppValue::NoValue,
            IppValue::Other { tag, data } => IppValue::Other { tag: *tag, data: clone_bytes(data) },
        }
    }
}

impl IppValue {
    /// The keyword, if this value is one.
    pub fn as_keyword(&self) -> (r: Option<&String>)
        ensures
            match self@ {
                IppValueView::Keyword(s) => r.is_some() && r.unwrap()@ == s,
                _ => r.is_none(),
            },
    {
        match self {
            IppValue::Keyword(s) => Some(s),
            _ => None,
        }
    }

    /// The keyword, if this value is one; else the value itself, untouched.
    pub fn into_keyword(self) -> (r: Result<String, IppValue>)
        ensures
            match self@ {
                IppValueView::Keyword(s) => r.is_ok() && r.unwrap()@ == s,
                _ => r == Err::<String, IppValue>(self),
            },
    {
        match self {
            IppValue::Keyword(s) => Ok(s),
            other => Err(other),
        }
    }

    /// The integer, if this value is one.
    pub fn as_integer(&self) -> (r: Option<i32>)
        ensures
            match self@ {
                IppValueView::Integer(v) => r == Some(v),
                _ => r.is_none(),
            },
    {
        match self {
            IppValue::Integer(v) => Some(*v),
            _ => None,
        }
    }

    /// The integer, if this value is one; else the value itself, untouched.
    pub fn into_integer(self) -> (r: Result<i32, IppValue>)
        ensures
            match self@ {
                IppValueView::Integer(v) => r == Ok::<i32, IppValue>(v),
                _ => r == Err::<i32, IppValue>(self),
            },
    {
        match self {
            IppValue::Integer(v) => Ok(v),
            other => Err(other),
        }
    }

    /// The media type, if this value is one; else the value itself, untouched.
    pub fn into_mime_media_type(self) -> (r: Result<String, IppValue>)
        ensures
            match self@ {
                IppValueView::MimeMediaType(s) => r.is_ok() && r.unwrap()@ == s,
                _ => r == Err::<String, IppValue>(self),
            },
    {
        match self {
            IppValue::MimeMediaType(s) => Ok(s),
            other => Err(other),
        }
    }
}

} // verus!

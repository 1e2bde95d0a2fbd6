//! The protocol's small vocabularies: versions, operations, status codes,
//! delimiter tags, job states, and the job template types.
use crate::value::{IppValue, IppValueView};
use vstd::prelude::*;
use vstd::std_specs::convert::{FromSpecImpl, TryFromSpecImpl};

verus! {

/// A protocol version, major and minor.
#[derive(Debug, Clone, Copy, PartialEq, Eq, Structural)]
pub struct IppVersion {
    pub major: u8,
    pub minor: u8,
}

impl IppVersion {
    /// The version `major`.`minor`.
    pub open spec fn of(major: u8, minor: u8) -> IppVersion {
        IppVersion { major, minor }
    }

    /// IPP version 1.0
    pub fn v1_0() -> (r: Self)
        ensures
            r == Self::of(1, 0),
    {
        IppVersion { major: 1, minor: 0 }
    }

    /// IPP version 1.1
    pub fn v1_1() -> (r: Self)
        ensures
            r == Self::of(1, 1),
    {
        IppVersion { major: 1, minor: 1 }
    }

    /// IPP version 2.0
    pub fn v2_0() -> (r: Self)
        ensures
            r == Self::of(2, 0),
    {
        IppVersion { major: 2, minor: 0 }
    }

    /// IPP version 2.1
    pub fn v2_1() -> (r: Self)
        ensures
            r == Self::of(2, 1),
    {
        IppVersion { major: 2, minor: 1 }
    }

    /// IPP version 2.2
    pub fn v2_2() -> (r: Self)
        ensures
            r == Self::of(2, 2),
    {
        IppVersion { major: 2, minor: 2 }
    }
}

/// The first eight octets of every message. `operation_or_status` is the
/// operation code of a request and the status code of a response.
#[derive(Debug, Clone, Copy, PartialEq, Eq, Structural)]
pub struct IppHeader {
    pub version: IppVersion,
    pub operation_or_status: u16,
    pub request_id: u32,
}

impl IppHeader {
    /// The header with these three.
    pub fn new(version: IppVersion, operation_or_status: u16, request_id: u32) -> (r: Self)
        ensures
            r == (IppHeader { version, operation_or_status, request_id }),
    {
        IppHeader { version, operation_or_status, request_id }
    }
}

/// The tag that opens an attribute group, or closes the attribute section.
#[derive(Debug, Clone, Copy, PartialEq, Eq, Hash, Structural)]
pub enum DelimiterTag {
    OperationAttributes,
    JobAttributes,
    EndOfAttributes,
    PrinterAttributes,
    UnsupportedAttributes,
}

impl DelimiterTag {
    /// The octet that stands for this tag on the wire.
    pub open spec fn code(self) -> u8 {
        match self {
            DelimiterTag::OperationAttributes => 0x01,
            DelimiterTag::JobAttributes => 0x02,
            DelimiterTag::EndOfAttributes => 0x03,
            DelimiterTag::PrinterAttributes => 0x04,
            DelimiterTag::UnsupportedAttributes => 0x05,
        }
    }

    /// The tag that `code` stands for, if it is a delimiter.
    pub open spec fn of_code(code: u8) -> Option<DelimiterTag> {
        if code == 0x01 {
            Some(DelimiterTag::OperationAttributes)
        } else if code == 0x02 {
            Some(DelimiterTag::JobAttributes)
        } else if code == 0x03 {
            Some(DelimiterTag::EndOfAttributes)
        } else if code == 0x04 {
            Some(DelimiterTag::PrinterAttributes)
        } else if code == 0x05 {
            Some(DelimiterTag::UnsupportedAttributes)
        } else {
            None
        }
    }

    /// The octet that stands for this tag on the wire.
    pub fn to_u8(self) -> (r: u8)
        ensures
            r == self.code(),
    {
        match self {
            DelimiterTag::OperationAttributes => 0x01,
            DelimiterTag::JobAttributes => 0x02,
            DelimiterTag::EndOfAttributes => 0x03,
            DelimiterTag::PrinterAttributes => 0x04,
            DelimiterTag::UnsupportedAttributes => 0x05,
        }
    }

    /// The tag that `code` stands for, if it is a delimiter.
    pub fn from_u8(code: u8) -> (r: Option<DelimiterTag>)
        ensures
            r == Self::of_code(code),
    {
        if code == 0x01 {
            Some(DelimiterTag::OperationAttributes)
        } else if code == 0x02 {
            Some(DelimiterTag::JobAttributes)
        } else if code == 0x03 {
            Some(DelimiterTag::EndOfAttributes)
        } else if code == 0x04 {
            Some(DelimiterTag::PrinterAttributes)
        } else if code == 0x05 {
            Some(DelimiterTag::UnsupportedAttributes)
        } else {
            None
        }
    }
}

/// The operations that the dispatcher knows.
#[derive(Debug, Clone, Copy, PartialEq, Eq, Structural)]
pub enum Operation {
    PrintJob,
    PrintUri,
    ValidateJob,
    CreateJob,
    SendDocument,
    SendUri,
    CancelJob,
    GetJobAttributes,
    GetJobs,
    GetPrinterAttributes,
    HoldJob,
    ReleaseJob,
    RestartJob,
    PausePrinter,
    ResumePrinter,
    PurgeJobs,
}

impl Operation {
    /// The operation's code in a request header.
    pub open spec fn code(self) -> u16 {
        match self {
            Operation::PrintJob => 0x0002,
            Operation::PrintUri => 0x0003,
            Operation::ValidateJob => 0x0004,
            Operation::CreateJob => 0x0005,
            Operation::SendDocument => 0x0006,
            Operation::SendUri => 0x0007,
            Operation::CancelJob => 0x0008,
            Operation::GetJobAttributes => 0x0009,
            Operation::GetJobs => 0x000A,
            Operation::GetPrinterAttributes => 0x000B,
            Operation::HoldJob => 0x000C,
            Operation::ReleaseJob => 0x000D,
            Operation::RestartJob => 0x000E,
            Operation::PausePrinter => 0x0010,
            Operation::ResumePrinter => 0x0011,
            Operation::PurgeJobs => 0x0012,
        }
    }

    /// The operation that `code` names, if the dispatcher knows one.
    pub open spec fn of_code(code: u16) -> Option<Operation> {
        if code == 0x0002 {
            Some(Operation::PrintJob)
        } else if code == 0x0003 {
            Some(Operation::PrintUri)
        } else if code == 0x0004 {
            Some(Operation::ValidateJob)
        } else if code == 0x0005 {
            Some(Operation::CreateJob)
        } else if code == 0x0006 {
            Some(Operation::SendDocument)
        } else if code == 0x0007 {
            Some(Operation::SendUri)
        } else if code == 0x0008 {
            Some(Operation::CancelJob)
        } else if code == 0x0009 {
            Some(Operation::GetJobAttributes)
        } else if code == 0x000A {
            Some(Operation::GetJobs)
        } else if code == 0x000B {
            Some(Operation::GetPrinterAttributes)
        } else if code == 0x000C {
            Some(Operation::HoldJob)
        } else if code == 0x000D {
            Some(Operation::ReleaseJob)
        } else if code == 0x000E {
            Some(Operation::RestartJob)
        } else if code == 0x0010 {
            Some(Operation::PausePrinter)
        } else if code == 0x0011 {
            Some(Operation::ResumePrinter)
        } else if code == 0x0012 {
            Some(Operation::PurgeJobs)
        } else {
            None
        }
    }

    /// The operation's code in a request header.
    pub fn to_u16(self) -> (r: u16)
        ensures
            r == self.code(),
    {
        match self {
            Operation::PrintJob => 0x0002,
            Operation::PrintUri => 0x0003,
            Operation::ValidateJob => 0x0004,
            Operation::CreateJob => 0x0005,
            Operation::SendDocument => 0x0006,
            Operation::SendUri => 0x0007,
            Operation::CancelJob => 0x0008,
            Operation::GetJobAttributes => 0x0009,
            Operation::GetJobs => 0x000A,
            Operation::GetPrinterAttributes => 0x000B,
            Operation::HoldJob => 0x000C,
            Operation::ReleaseJob => 0x000D,
            Operation::RestartJob => 0x000E,
            Operation::PausePrinter => 0x0010,
            Operation::ResumePrinter => 0x0011,
            Operation::PurgeJobs => 0x0012,
        }
    }

    /// The operation that `code` names, if the dispatcher knows one.
    pub fn from_u16(code: u16) -> (r: Option<Operation>)
        ensures
            r == Self::of_code(code),
    {
        if code == 0x0002 {
            Some(Operation::PrintJob)
        } else if code == 0x0003 {
            Some(Operation::PrintUri)
        } else if code == 0x0004 {
            Some(Operation::ValidateJob)
        } else if code == 0x0005 {
            Some(Operation::CreateJob)
        } else if code == 0x0006 {
            Some(Operation::SendDocument)
        } else if code == 0x0007 {
            Some(Operation::SendUri)
        } else if code == 0x0008 {
            Some(Operation::CancelJob)
        } else if code == 0x0009 {
            Some(Operation::GetJobAttributes)
        } else if code == 0x000A {
            Some(Operation::GetJobs)
        } else if code == 0x000B {
            Some(Operation::GetPrinterAttributes)
        } else if code == 0x000C {
            Some(Operation::HoldJob)
        } else if code == 0x000D {
            Some(Operation::ReleaseJob)
        } else if code == 0x000E {
            Some(Operation::RestartJob)
        } else if code == 0x0010 {
            Some(Operation::PausePrinter)
        } else if code == 0x0011 {
            Some(Operation::ResumePrinter)
        } else if code == 0x0012 {
            Some(Operation::PurgeJobs)
        } else {
            None
        }
    }
}

/// The state of a job.
#[derive(Debug, Clone, Copy, PartialEq, Eq, Structural)]
pub enum JobState {
    Pending,
    PendingHeld,
    Processing,
    ProcessingStopped,
    Canceled,
    Aborted,
    Completed,
}

impl JobState {
    /// The enum value that reports this state in `job-state`.
    pub open spec fn code(self) -> i32 {
        match self {
            JobState::Pending => 3,
            JobState::PendingHeld => 4,
            JobState::Processing => 5,
            JobState::ProcessingStopped => 6,
            JobState::Canceled => 7,
            JobState::Aborted => 8,
            JobState::Completed => 9,
        }
    }

    /// The enum value that reports this state in `job-state`.
    pub fn to_i32(self) -> (r: i32)
        ensures
            r == self.code(),
    {
        match self {
            JobState::Pending => 3,
            JobState::PendingHeld => 4,
            JobState::Processing => 5,
            JobState::ProcessingStopped => 6,
            JobState::Canceled => 7,
            JobState::Aborted => 8,
            JobState::Completed => 9,
        }
    }
}

/// The state of the printer.
#[derive(Debug, Clone, Copy, PartialEq, Eq, Structural)]
pub enum PrinterState {
    Idle,
    Processing,
    Stopped,
}

impl PrinterState {
    /// The enum value that reports this state in `printer-state`.
    pub open spec fn code(self) -> i32 {
        match self {
            PrinterState::Idle => 3,
            PrinterState::Processing => 4,
            PrinterState::Stopped => 5,
        }
    }

    /// The enum value that reports this state in `printer-state`.
    pub fn to_i32(self) -> (r: i32)
        ensures
            r == self.code(),
    {
        match self {
            PrinterState::Idle => 3,
            PrinterState::Processing => 4,
            PrinterState::Stopped => 5,
        }
    }
}

/// The two classes of jobs that `which-jobs` selects.
#[derive(Debug, Clone, Copy, PartialEq, Eq, Structural)]
pub enum WhichJob {
    Completed,
    NotCompleted,
}

impl WhichJob {
    /// A job that was completed, canceled or aborted counts as completed;
    /// any other does not.
    pub open spec fn of_state(state: JobState) -> WhichJob {
        match state {
            JobState::Completed | JobState::Canceled | JobState::Aborted => WhichJob::Completed,
            _ => WhichJob::NotCompleted,
        }
    }
}

impl WhichJob {
    /// The class of a job in the state `state`.
    pub fn of(state: JobState) -> (r: WhichJob)
        ensures
            r == WhichJob::of_state(state),
    {
        match state {
            JobState::Completed | JobState::Canceled | JobState::Aborted => WhichJob::Completed,
            _ => WhichJob::NotCompleted,
        }
    }
}

impl From<JobState> for WhichJob {
    fn from(state: JobState) -> (r: WhichJob) {
        WhichJob::of(state)
    }
}

impl FromSpecImpl<JobState> for WhichJob {
    open spec fn obeys_from_spec() -> bool {
        true
    }

    open spec fn from_spec(state: JobState) -> WhichJob {
        WhichJob::of_state(state)
    }
}

/// How the page is turned.
#[derive(Debug, Clone, Copy, PartialEq, Eq, Hash, Structural)]
pub enum PageOrientation {
    Portrait,
    Landscape,
    ReversePortrait,
    ReverseLandscape,
}

impl PageOrientation {
    /// The enum value that stands for this orientation.
    pub open spec fn code(self) -> i32 {
        match self {
            PageOrientation::Portrait => 3,
            PageOrientation::Landscape => 4,
            PageOrientation::ReversePortrait => 5,
            PageOrientation::ReverseLandscape => 6,
        }
    }

    /// The orientation that `code` stands for, if there is one.
    pub open spec fn of_code(code: i32) -> Option<PageOrientation> {
        if code == 3 {
            Some(PageOrientation::Portrait)
        } else if code == 4 {
            Some(PageOrientation::Landscape)
        } else if code == 5 {
            Some(PageOrientation::ReversePortrait)
        } else if code == 6 {
            Some(PageOrientation::ReverseLandscape)
        } else {
            None
        }
    }

    /// The orientation that an `Enum` value names, if `value` is one and names one.
    pub open spec fn of_value(value: IppValueView) -> Option<PageOrientation> {
        match value {
            IppValueView::Enum(code) => Self::of_code(code),
            _ => None,
        }
    }
}

impl PageOrientation {
    /// The orientation that `code` stands for, if there is one.
    pub fn from_i32(code: i32) -> (r: Option<PageOrientation>)
        ensures
            r == Self::of_code(code),
    {
        if code == 3 {
            Some(PageOrientation::Portrait)
        } else if code == 4 {
            Some(PageOrientation::Landscape)
        } else if code == 5 {
            Some(PageOrientation::ReversePortrait)
        } else if code == 6 {
            Some(PageOrientation::ReverseLandscape)
        } else {
            None
        }
    }

    /// The enum value that stands for this orientation.
    pub fn to_i32(self) -> (r: i32)
        ensures
            r == self.code(),
    {
        match self {
            PageOrientation::Portrait => 3,
            PageOrientation::Landscape => 4,
            PageOrientation::ReversePortrait => 5,
            PageOrientation::ReverseLandscape => 6,
        }
    }

    /// The orientation that `value` names, if it is an `Enum` that names
    /// one; else the value itself, untouched.
    pub fn from_value(value: IppValue) -> (r: Result<PageOrientation, IppValue>)
        ensures
            match Self::of_value(value@) {
                Some(o) => r == Ok::<PageOrientation, IppValue>(o),
                None => r == Err::<PageOrientation, IppValue>(value),
            },
    {
        match value {
            IppValue::Enum(v) => match Self::from_i32(v) {
                Some(o) => Ok(o),
                None => Err(IppValue::Enum(v)),
            },
            other => Err(other),
        }
    }

    /// The `Enum` value that names this orientation.
    pub fn into_value(self) -> (r: IppValue)
        ensures
            r == IppValue::Enum(self.code()),
    {
        IppValue::Enum(self.to_i32())
    }
}

impl TryFrom<i32> for PageOrientation {
    type Error = i32;

    fn try_from(value: i32) -> (r: Result<Self, i32>) {
        match PageOrientation::from_i32(value) {
            Some(o) => Ok(o),
            None => Err(value),
        }
    }
}

impl TryFromSpecImpl<i32> for PageOrientation {
    open spec fn obeys_try_from_spec() -> bool {
        true
    }

    open spec fn try_from_spec(value: i32) -> Result<Self, i32> {
        match PageOrientation::of_code(value) {
            Some(o) => Ok(o),
            None => Err(value),
        }
    }
}

impl From<PageOrientation> for i32 {
    fn from(value: PageOrientation) -> (r: i32) {
        value.to_i32()
    }
}

impl FromSpecImpl<PageOrientation> for i32 {
    open spec fn obeys_from_spec() -> bool {
        true
    }

    open spec fn from_spec(value: PageOrientation) -> i32 {
        value.code()
    }
}

impl TryFrom<IppValue> for PageOrientation {
    type Error = IppValue;

    fn try_from(value: IppValue) -> (r: Result<Self, IppValue>) {
        PageOrientation::from_value(value)
    }
}

impl TryFromSpecImpl<IppValue> for PageOrientation {
    open spec fn obeys_try_from_spec() -> bool {
        true
    }

    open spec fn try_from_spec(value: IppValue) -> Result<Self, IppValue> {
        match PageOrientation::of_value(value@) {
            Some(o) => Ok(o),
            None => Err(value),
        }
    }
}

impl From<PageOrientation> for IppValue {
    fn from(value: PageOrientation) -> (r: IppValue) {
        value.into_value()
    }
}

impl FromSpecImpl<PageOrientation> for IppValue {
    open spec fn obeys_from_spec() -> bool {
        true
    }

    open spec fn from_spec(value: PageOrientation) -> IppValue {
        IppValue::Enum(value.code())
    }
}

/// Print resolution: a cross-feed and a feed value, and their unit
/// (3 for dots per inch, 4 for dots per centimetre).
#[derive(Debug, Clone, Copy, PartialEq, Eq, Hash, Structural)]
pub struct Resolution {
    pub cross_feed: i32,
    pub feed: i32,
    pub units: i8,
}

impl Resolution {
    /// A resolution in dots per inch.
    pub fn new_dpi(cross_feed: i32, feed: i32) -> (r: Self)
        ensures
            r == (Resolution { cross_feed, feed, units: 3 }),
    {
        Resolution { cross_feed, feed, units: 3 }
    }

    /// A resolution in dots per centimetre.
    pub fn new_dpcm(cross_feed: i32, feed: i32) -> (r: Self)
        ensures
            r == (Resolution { cross_feed, feed, units: 4 }),
    {
        Resolution { cross_feed, feed, units: 4 }
    }

    /// The resolution that a `Resolution` value holds, if `value` is one.
    pub open spec fn of_value(value: IppValueView) -> Option<Resolution> {
        match value {
            IppValueView::Resolution { cross_feed, feed, units } => Some(
                Resolution { cross_feed, feed, units },
            ),
            _ => None,
        }
    }

    /// The value that reports this resolution.
    pub open spec fn to_value(self) -> IppValueView {
        IppValueView::Resolution {
            cross_feed: self.cross_feed,
            feed: self.feed,
            units: self.units,
        }
    }
}

impl Resolution {
    /// The resolution that `value` holds, if it is a `Resolution`; else the
    /// value itself, untouched.
    pub fn from_value(value: IppValue) -> (r: Result<Resolution, IppValue>)
        ensures
            match Self::of_value(value@) {
                Some(x) => r == Ok::<Resolution, IppValue>(x),
                None => r == Err::<Resolution, IppValue>(value),
            },
    {
        match value {
            IppValue::Resolution { cross_feed, feed, units } => Ok(
                Resolution { cross_feed, feed, units },
            ),
            other => Err(other),
        }
    }

    /// The value that reports this resolution.
    pub fn into_value(self) -> (r: IppValue)
        ensures
            r@ == self.to_value(),
            r == (IppValue::Resolution {
                cross_feed: self.cross_feed,
                feed: self.feed,
                units: self.units,
            }),
    {
        IppValue::Resolution { cross_feed: self.cross_feed, feed: self.feed, units: self.units }
    }
}

impl TryFrom<IppValue> for Resolution {
    type Error = IppValue;

    fn try_from(value: IppValue) -> (r: Result<Self, IppValue>) {
        Resolution::from_value(value)
    }
}

impl TryFromSpecImpl<IppValue> for Resolution {
    open spec fn obeys_try_from_spec() -> bool {
        true
    }

    open spec fn try_from_spec(value: IppValue) -> Result<Self, IppValue> {
        match Resolution::of_value(value@) {
            Some(r) => Ok(r),
            None => Err(value),
        }
    }
}

impl From<Resolution> for IppValue {
    fn from(value: Resolution) -> (r: IppValue) {
        value.into_value()
    }
}

impl FromSpecImpl<Resolution> for IppValue {
    open spec fn obeys_from_spec() -> bool {
        true
    }

    open spec fn from_spec(value: Resolution) -> IppValue {
        IppValue::Resolution {
            cross_feed: value.cross_feed,
            feed: value.feed,
            units: value.units,
        }
    }
}

} // verus!

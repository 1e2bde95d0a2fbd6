//! The error that an operation reports: a status code and a message.
use crate::status::StatusCode;
use vstd::prelude::*;

verus! {

/// A failure that is answered with the status `code` and the message `msg`.
#[derive(Debug, Clone, PartialEq, Eq)]
pub struct IppError {
    pub code: StatusCode,
    pub msg: String,
}

/// What an [`IppError`] stands for.
pub struct IppErrorView {
    pub code: StatusCode,
    pub msg: Seq<char>,
}

impl View for IppError {
    type V = IppErrorView;

    open spec fn view(&self) -> IppErrorView {
        IppErrorView { code: self.code, msg: self.msg@ }
    }
}

/// The text that `{:?}` gives for a string with the characters `s`: the
/// string between double quotes, with the escapes that Rust writes.
pub uninterp spec fn quoted_text(s: Seq<char>) -> Seq<char>;

/// `format!("{:?}", s)`: the string as Rust's debug format writes it.
#[verifier::external_body]
fn quoted(s: &str) -> (r: String)
    ensures
        r@ == quoted_text(s@),
{
    format!("{:?}", s)
}

impl IppError {
    /// The error whose message is the text of its status.
    pub open spec fn of_status(code: StatusCode) -> IppErrorView {
        IppErrorView { code, msg: code.text() }
    }

    /// The error's text: the words of its status, a space, and its message in quotes.
    pub open spec fn text(self) -> Seq<char> {
        self.code.text() + seq![' '] + quoted_text(self.msg@)
    }

    /// The error that reports `code` with the words of that status as its message.
    pub fn from_status(code: StatusCode) -> (r: IppError)
        ensures
            r@ == Self::of_status(code),
    {
        IppError { code, msg: code.to_text() }
    }

    /// The error's text: the words of its status, a space, and its message in quotes.
    pub fn to_text(&self) -> (r: String)
        ensures
            r@ == self.text(),
    {
        let mut out = self.code.to_text();
        proof {
            reveal_strlit(" ");
        }
        out.append(" ");
        let q = quoted(self.msg.as_str());
        out.append(q.as_str());
        assert(out@ =~= self.text());
        out
    }
}

} // verus!

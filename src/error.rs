//! Errors of the widget engine.

use vstd::prelude::*;

verus! {

/// What can go wrong while serving a widget.
#[derive(Debug, Clone)]
pub enum Error {
    /// The transport closed or a reply channel was dropped.
    WidgetDied,
    /// The widget answered one of our requests with an error.
    WidgetError(String),
    /// Capabilities were negotiated already.
    AlreadyLoaded,
    /// A frame or a capability token is not valid JSON of the expected shape.
    InvalidJSON(String),
    /// The widget answered with a response of another kind, or with none.
    UnexpectedResponse,
    /// A handler finished without replying.
    NoReply,
    /// The capabilities do not permit the operation.
    InvalidPermissions,
    /// Any other failure.
    Other,
}

impl Error {
    /// The display text of each error.
    pub open spec fn spec_title(&self) -> Seq<char> {
        match self {
            Error::WidgetDied => "Unexpected widget disconnect"@,
            Error::WidgetError(e) => "Widget error: "@ + e@,
            Error::AlreadyLoaded => "Capabilities has already been negotiated"@,
            Error::InvalidJSON(_) => "Invalid JSON"@,
            Error::UnexpectedResponse => "Unexpected response"@,
            Error::NoReply => "Handler did not send a reply"@,
            Error::InvalidPermissions => "Invalid permissions"@,
            Error::Other => "Failed to perform an operation"@,
        }
    }

    /// The display text followed by the detail, where there is one (so the
    /// message of `WidgetError` appears twice).
    pub open spec fn spec_description(&self) -> Seq<char> {
        match self {
            Error::WidgetError(e) => self.spec_title() + ": "@ + e@,
            Error::InvalidJSON(e) => self.spec_title() + ": "@ + e@,
            _ => self.spec_title(),
        }
    }

    /// The display text, but for the message of `WidgetError`.
    fn title(&self) -> (r: &'static str)
        ensures
            !(self is WidgetError) ==> r@ == self.spec_title(),
            self matches Error::WidgetError(e) ==> r@ + e@ == self.spec_title(),
    {
        match self {
            Error::WidgetDied => "Unexpected widget disconnect",
            Error::WidgetError(_) => "Widget error: ",
            Error::AlreadyLoaded => "Capabilities has already been negotiated",
            Error::InvalidJSON(_) => "Invalid JSON",
            Error::UnexpectedResponse => "Unexpected response",
            Error::NoReply => "Handler did not send a reply",
            Error::InvalidPermissions => "Invalid permissions",
            Error::Other => "Failed to perform an operation",
        }
    }

    pub fn to_description_string(&self) -> (r: String)
        ensures
            r@ == self.spec_description(),
    {
        let mut s = String::from_str(self.title());
        match self {
            Error::WidgetError(e) => {
                s.append(e.as_str());
                s.append(": ");
                s.append(e.as_str());
            },
            Error::InvalidJSON(e) => {
                s.append(": ");
                s.append(e.as_str());
            },
            _ => {},
        }
        s
    }
}

} // verus!

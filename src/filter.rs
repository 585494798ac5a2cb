//! The capability filter engine: decides whether a room event lies inside a
//! granted set of event filters. Sending, reading and live delivery all go
//! through [`allow`].

use vstd::prelude::*;

verus! {

/// The view of an optional string.
pub open spec fn opt_view(o: Option<String>) -> Option<Seq<char>> {
    match o {
        Some(s) => Some(s@),
        None => None,
    }
}

/// A copy of an optional string.
pub fn copy_opt_string(o: &Option<String>) -> (r: Option<String>)
    ensures
        r == *o,
{
    match o {
        Some(s) => Some(s.clone()),
        None => None,
    }
}

/// The event type of plain room messages, the only type whose content carries
/// a `msgtype`.
pub open spec fn room_message_type() -> Seq<char> {
    "m.room.message"@
}

/// What the filters look at in a candidate event.
pub struct FilterInput {
    pub event_type: String,
    /// Present exactly for state events.
    pub state_key: Option<String>,
    /// The `msgtype` field of the content, where it holds a string.
    pub msgtype: Option<String>,
}

impl FilterInput {
    pub open spec fn is_state_event(&self) -> bool {
        self.state_key is Some
    }
}

/// Allows non-state events of one type, optionally only those of one `msgtype`.
#[derive(Clone, Debug)]
pub struct TimelineFilter {
    pub event_type: String,
    pub msgtype: Option<String>,
}

impl TimelineFilter {
    pub open spec fn allows(&self, input: &FilterInput) -> bool {
        &&& input.event_type@ == self.event_type@
        &&& match self.msgtype {
            None => true,
            Some(m) => {
                &&& input.event_type@ == room_message_type()
                &&& opt_view(input.msgtype) == Some(m@)
            },
        }
    }

    pub fn allow(&self, input: &FilterInput) -> (r: bool)
        ensures
            r == self.allows(input),
    {
        if self.event_type != input.event_type {
            return false;
        }
        match &self.msgtype {
            None => true,
            Some(allowed) => {
                let message = String::from_str("m.room.message");
                if input.event_type != message {
                    return false;
                }
                match &input.msgtype {
                    Some(m) => *m == *allowed,
                    None => false,
                }
            },
        }
    }
}

/// Allows state events of one type, optionally only those of one state key.
/// A filter without a key allows every key of its type.
#[derive(Clone, Debug)]
pub struct StateFilter {
    pub event_type: String,
    pub state_key: Option<String>,
}

impl StateFilter {
    pub open spec fn allows(&self, input: &FilterInput) -> bool {
        &&& input.event_type@ == self.event_type@
        &&& input.is_state_event()
        &&& match self.state_key {
            None => true,
            Some(k) => opt_view(input.state_key) == Some(k@),
        }
    }

    pub fn allow(&self, input: &FilterInput) -> (r: bool)
        ensures
            r == self.allows(input),
    {
        if self.event_type != input.event_type {
            return false;
        }
        match &input.state_key {
            None => false,
            Some(passed) => match &self.state_key {
                None => true,
                Some(expected) => *expected == *passed,
            },
        }
    }
}

/// The mathematical value of a filter.
pub enum FilterView {
    Timeline { event_type: Seq<char>, msgtype: Option<Seq<char>> },
    State { event_type: Seq<char>, state_key: Option<Seq<char>> },
    AllowAllTimeline,
    AllowAllState,
}

impl FilterView {
    pub open spec fn is_state(self) -> bool {
        self is State || self is AllowAllState
    }
}

/// One granted event filter.
#[derive(Clone, Debug)]
pub enum Filter {
    Timeline(TimelineFilter),
    State(StateFilter),
    AllowAllTimeline,
    AllowAllState,
}

impl View for Filter {
    type V = FilterView;

    open spec fn view(&self) -> FilterView {
        match self {
            Filter::Timeline(f) => FilterView::Timeline {
                event_type: f.event_type@,
                msgtype: opt_view(f.msgtype),
            },
            Filter::State(f) => FilterView::State {
                event_type: f.event_type@,
                state_key: opt_view(f.state_key),
            },
            Filter::AllowAllTimeline => FilterView::AllowAllTimeline,
            Filter::AllowAllState => FilterView::AllowAllState,
        }
    }
}

/// The views of a sequence of filters.
pub open spec fn filters_view(fs: Seq<Filter>) -> Seq<FilterView> {
    fs.map_values(|f: Filter| f@)
}

impl Filter {
    pub open spec fn allows(&self, input: &FilterInput) -> bool {
        match self {
            Filter::Timeline(f) => f.allows(input),
            Filter::State(f) => f.allows(input),
            Filter::AllowAllTimeline => !input.is_state_event(),
            Filter::AllowAllState => input.is_state_event(),
        }
    }

    pub open spec fn spec_is_state_filter(&self) -> bool {
        self@.is_state()
    }

    pub fn allow(&self, input: &FilterInput) -> (r: bool)
        ensures
            r == self.allows(input),
    {
        match self {
            Filter::Timeline(f) => f.allow(input),
            Filter::State(f) => f.allow(input),
            Filter::AllowAllTimeline => input.state_key.is_none(),
            Filter::AllowAllState => input.state_key.is_some(),
        }
    }

    /// Whether the filter grants state events (as opposed to timeline events).
    pub fn is_state_filter(&self) -> (r: bool)
        ensures
            r == self.spec_is_state_filter(),
    {
        match self {
            Filter::Timeline(_) | Filter::AllowAllTimeline => false,
            Filter::State(_) | Filter::AllowAllState => true,
        }
    }
}

impl Filter {
    /// A copy of the filter.
    pub fn copy(&self) -> (r: Filter)
        ensures
            r@ == self@,
    {
        match self {
            Filter::Timeline(f) => Filter::Timeline(TimelineFilter {
                event_type: f.event_type.clone(),
                msgtype: copy_opt_string(&f.msgtype),
            }),
            Filter::State(f) => Filter::State(StateFilter {
                event_type: f.event_type.clone(),
                state_key: copy_opt_string(&f.state_key),
            }),
            Filter::AllowAllTimeline => Filter::AllowAllTimeline,
            Filter::AllowAllState => Filter::AllowAllState,
        }
    }
}

/// An event is allowed by a filter set when at least one filter allows it.
pub open spec fn allowed_by(filters: Seq<Filter>, input: &FilterInput) -> bool {
    exists|i: int| 0 <= i < filters.len() && #[trigger] filters[i].allows(input)
}

/// Evaluates a filter set against an event.
pub fn allow(filters: &Vec<Filter>, input: &FilterInput) -> (r: bool)
    ensures
        r == allowed_by(filters@, input),
{
    let mut i: usize = 0;
    while i < filters.len()
        invariant
            i <= filters@.len(),
            forall|j: int| 0 <= j < i ==> !(#[trigger] filters@[j]).allows(input),
        decreases filters@.len() - i,
    {
        if filters[i].allow(input) {
            return true;
        }
        i = i + 1;
    }
    false
}

} // verus!

//! Permission sets and their encoding as capability tokens: a base token,
//! optionally followed by `:` and a JSON object that narrows it to one event
//! type (and one `msgtype` or state key).

use vstd::prelude::*;
use crate::error::Error;
use crate::filter::{Filter, FilterView, StateFilter, TimelineFilter, filters_view};
use crate::json::{
    json_string_literal, json_string_object, opt_string_view, pairs_view, parse_string_object,
    quote_json_string,
};

verus! {

pub const SCREENSHOT: &'static str = "m.capability.screenshot";
pub const ALWAYS_ON_SCREEN: &'static str = "m.always_on_screen";
pub const REQUIRES_CLIENT: &'static str = "io.element.requires_client";
pub const SEND_EVENT: &'static str = "org.matrix.msc2762.m.send.event";
pub const READ_EVENT: &'static str = "org.matrix.msc2762.m.receive.event";
pub const SEND_STATE: &'static str = "org.matrix.msc2762.m.send.state_event";
pub const READ_STATE: &'static str = "org.matrix.msc2762.m.receive.state_event";

/// A permission set: what a widget asks for, or what it was granted.
#[derive(Clone, Debug)]
pub struct Options {
    pub send_filter: Vec<Filter>,
    pub read_filter: Vec<Filter>,
    pub screenshot: bool,
    pub always_on_screen: bool,
    pub requires_client: bool,
}

pub struct OptionsView {
    pub send: Seq<FilterView>,
    pub read: Seq<FilterView>,
    pub screenshot: bool,
    pub always_on_screen: bool,
    pub requires_client: bool,
}

impl View for Options {
    type V = OptionsView;

    open spec fn view(&self) -> OptionsView {
        OptionsView {
            send: filters_view(self.send_filter@),
            read: filters_view(self.read_filter@),
            screenshot: self.screenshot,
            always_on_screen: self.always_on_screen,
            requires_client: self.requires_client,
        }
    }
}

pub open spec fn empty_options() -> OptionsView {
    OptionsView {
        send: Seq::empty(),
        read: Seq::empty(),
        screenshot: false,
        always_on_screen: false,
        requires_client: false,
    }
}

/// The base token of a filter: sending or receiving, state or timeline events.
pub open spec fn base_token(send: bool, state: bool) -> Seq<char> {
    if send {
        if state { SEND_STATE@ } else { SEND_EVENT@ }
    } else {
        if state { READ_STATE@ } else { READ_EVENT@ }
    }
}

/// The JSON body of a filter narrowed to one event type.
pub open spec fn filter_body(event_type: Seq<char>, key_name: Seq<char>, key: Option<Seq<char>>) -> Seq<char> {
    match key {
        None => "{\"event_type\":"@ + json_string_literal(event_type) + "}"@,
        Some(k) => "{\"event_type\":"@ + json_string_literal(event_type) + ","@ + key_name + ":"@
            + json_string_literal(k) + "}"@,
    }
}

/// What follows the base token: nothing for an allow-all filter, else `:` and
/// the body.
pub open spec fn filter_extension(f: FilterView) -> Seq<char> {
    match f {
        FilterView::Timeline { event_type, msgtype } => ":"@ + filter_body(event_type, "\"msgtype\""@, msgtype),
        FilterView::State { event_type, state_key } => ":"@ + filter_body(event_type, "\"state_key\""@, state_key),
        _ => Seq::empty(),
    }
}

/// The tokens of a filter list, one per filter.
pub open spec fn filter_tokens(send: bool, fs: Seq<FilterView>) -> Seq<Seq<char>>
    decreases fs.len(),
{
    if fs.len() == 0 {
        Seq::empty()
    } else {
        let f = fs.last();
        filter_tokens(send, fs.drop_last()).push(base_token(send, f.is_state()) + filter_extension(f))
    }
}

/// Each filter gives exactly one token.
pub proof fn lemma_one_token_per_filter(send: bool, fs: Seq<FilterView>)
    ensures
        filter_tokens(send, fs).len() == fs.len(),
    decreases fs.len(),
{
    if fs.len() > 0 {
        lemma_one_token_per_filter(send, fs.drop_last());
    }
}

pub open spec fn flag_tokens(o: OptionsView) -> Seq<Seq<char>> {
    (if o.screenshot { seq![SCREENSHOT@] } else { Seq::empty() })
        + (if o.always_on_screen { seq![ALWAYS_ON_SCREEN@] } else { Seq::empty() })
        + (if o.requires_client { seq![REQUIRES_CLIENT@] } else { Seq::empty() })
}

/// The token list of a permission set: flags, then send filters, then read filters.
pub open spec fn encode_options(o: OptionsView) -> Seq<Seq<char>> {
    flag_tokens(o) + filter_tokens(true, o.send) + filter_tokens(false, o.read)
}

/// The value of the first member with the given key.
pub open spec fn lookup(pairs: Seq<(Seq<char>, Seq<char>)>, key: Seq<char>) -> Option<Seq<char>>
    decreases pairs.len(),
{
    if pairs.len() == 0 {
        None
    } else if pairs[0].0 == key {
        Some(pairs[0].1)
    } else {
        lookup(pairs.subrange(1, pairs.len() as int), key)
    }
}

/// A token made of the base and a body: `base:body`.
pub open spec fn has_body(t: Seq<char>, base: Seq<char>) -> bool {
    &&& t.len() > base.len()
    &&& t.subrange(0, base.len() as int) == base
    &&& t[base.len() as int] == ':'
}

pub open spec fn body_of(t: Seq<char>, base: Seq<char>) -> Seq<char> {
    t.subrange(base.len() + 1 as int, t.len() as int)
}

/// The filter a body describes: `None` unless it is an object of strings with
/// an `event_type`.
pub open spec fn parse_filter(body: Seq<char>, state: bool) -> Option<FilterView> {
    match json_string_object(body) {
        None => None,
        Some(p) => match lookup(p, "event_type"@) {
            None => None,
            Some(t) => Some(
                if state {
                    FilterView::State { event_type: t, state_key: lookup(p, "state_key"@) }
                } else {
                    FilterView::Timeline { event_type: t, msgtype: lookup(p, "msgtype"@) }
                },
            ),
        },
    }
}

pub open spec fn add_filter(o: OptionsView, send: bool, f: FilterView) -> OptionsView {
    if send {
        OptionsView { send: o.send.push(f), ..o }
    } else {
        OptionsView { read: o.read.push(f), ..o }
    }
}

/// One filter token of the given base, if the token has that base.
pub open spec fn apply_filter_token(
    o: OptionsView,
    t: Seq<char>,
    base: Seq<char>,
    send: bool,
    state: bool,
) -> Option<OptionsView> {
    if t == base {
        Some(
            add_filter(
                o,
                send,
                if state { FilterView::AllowAllState } else { FilterView::AllowAllTimeline },
            ),
        )
    } else {
        match parse_filter(body_of(t, base), state) {
            Some(f) => Some(add_filter(o, send, f)),
            None => None,
        }
    }
}

pub open spec fn matches_base(t: Seq<char>, base: Seq<char>) -> bool {
    t == base || has_body(t, base)
}

/// The effect of one token; `None` where its body is not valid. Unknown
/// tokens change nothing.
pub open spec fn apply_token(o: OptionsView, t: Seq<char>) -> Option<OptionsView> {
    if t == SCREENSHOT@ {
        Some(OptionsView { screenshot: true, ..o })
    } else if t == ALWAYS_ON_SCREEN@ {
        Some(OptionsView { always_on_screen: true, ..o })
    } else if t == REQUIRES_CLIENT@ {
        Some(OptionsView { requires_client: true, ..o })
    } else if matches_base(t, SEND_EVENT@) {
        apply_filter_token(o, t, SEND_EVENT@, true, false)
    } else if matches_base(t, READ_EVENT@) {
        apply_filter_token(o, t, READ_EVENT@, false, false)
    } else if matches_base(t, SEND_STATE@) {
        apply_filter_token(o, t, SEND_STATE@, true, true)
    } else if matches_base(t, READ_STATE@) {
        apply_filter_token(o, t, READ_STATE@, false, true)
    } else {
        Some(o)
    }
}

/// The permission set a token list describes, `None` where a token is invalid.
pub open spec fn decode_tokens(ts: Seq<Seq<char>>) -> Option<OptionsView>
    decreases ts.len(),
{
    if ts.len() == 0 {
        Some(empty_options())
    } else {
        match decode_tokens(ts.drop_last()) {
            None => None,
            Some(o) => apply_token(o, ts.last()),
        }
    }
}

pub open spec fn strings_view(v: Seq<String>) -> Seq<Seq<char>> {
    v.map_values(|s: String| s@)
}

/// The part of `t` after `base` and `:`, where `t` has that shape.
fn strip_base<'a>(t: &'a str, base: &str) -> (r: Option<&'a str>)
    ensures
        r is Some <==> has_body(t@, base@),
        r is Some ==> r->0@ == body_of(t@, base@),
{
    let n = t.unicode_len();
    let m = base.unicode_len();
    if n <= m {
        return None;
    }
    let mut i: usize = 0;
    while i < m
        invariant
            m == base@.len(),
            n == t@.len(),
            m < n,
            i <= m,
            forall|j: int| 0 <= j < i ==> t@[j] == base@[j],
        decreases m - i,
    {
        if t.get_char(i) != base.get_char(i) {
            assert(t@.subrange(0, m as int)[i as int] != base@[i as int]);
            return None;
        }
        i = i + 1;
    }
    assert(t@.subrange(0, m as int) =~= base@);
    if t.get_char(m) != ':' {
        return None;
    }
    Some(t.substring_char(m + 1, n))
}

/// The value of the first member with the given key.
fn lookup_member(pairs: &Vec<(String, String)>, key: &str) -> (r: Option<String>)
    ensures
        opt_string_view(r) == lookup(pairs_view(pairs@), key@),
{
    let ghost pv = pairs_view(pairs@);
    assert(pv.subrange(0, pv.len() as int) =~= pv);
    let mut i: usize = 0;
    while i < pairs.len()
        invariant
            i <= pairs@.len(),
            pv == pairs_view(pairs@),
            lookup(pv, key@) == lookup(pv.subrange(i as int, pv.len() as int), key@),
        decreases pairs@.len() - i,
    {
        let ghost rest = pv.subrange(i as int, pv.len() as int);
        assert(rest.subrange(1, rest.len() as int) =~= pv.subrange(i + 1, pv.len() as int));
        let k = String::from_str(key);
        if pairs[i].0 == k {
            return Some(pairs[i].1.clone());
        }
        i = i + 1;
    }
    assert(pv.subrange(i as int, pv.len() as int).len() == 0);
    None
}

/// The filter that a body describes.
fn parse_filter_body(body: &str, state: bool) -> (r: Option<Filter>)
    ensures
        match r {
            Some(f) => parse_filter(body@, state) == Some(f@),
            None => parse_filter(body@, state) is None,
        },
{
    let pairs = match parse_string_object(body) {
        Some(p) => p,
        None => return None,
    };
    let event_type = match lookup_member(&pairs, "event_type") {
        Some(t) => t,
        None => return None,
    };
    if state {
        let state_key = lookup_member(&pairs, "state_key");
        Some(Filter::State(StateFilter { event_type, state_key }))
    } else {
        let msgtype = lookup_member(&pairs, "msgtype");
        Some(Filter::Timeline(TimelineFilter { event_type, msgtype }))
    }
}

impl Options {
    pub fn new() -> (r: Options)
        ensures
            r@ == empty_options(),
    {
        let r = Options {
            send_filter: Vec::new(),
            read_filter: Vec::new(),
            screenshot: false,
            always_on_screen: false,
            requires_client: false,
        };
        assert(r@.send =~= Seq::<FilterView>::empty());
        assert(r@.read =~= Seq::<FilterView>::empty());
        r
    }

    fn push_filter(&mut self, send: bool, f: Filter)
        ensures
            final(self)@ == add_filter(old(self)@, send, f@),
    {
        if send {
            self.send_filter.push(f);
            assert(final(self)@.send =~= old(self)@.send.push(f@));
        } else {
            self.read_filter.push(f);
            assert(final(self)@.read =~= old(self)@.read.push(f@));
        }
    }

    /// Applies one filter token that has the given base.
    fn apply_filter_token(&mut self, t: &str, base: &str, send: bool, state: bool) -> (r: bool)
        requires
            matches_base(t@, base@),
        ensures
            match apply_filter_token(old(self)@, t@, base@, send, state) {
                Some(o) => r && final(self)@ == o,
                None => !r,
            },
    {
        match strip_base(t, base) {
            None => {
                let f = if state { Filter::AllowAllState } else { Filter::AllowAllTimeline };
                self.push_filter(send, f);
                true
            },
            Some(body) => {
                proof {
                    if t@ == base@ {
                        assert(t@.len() == base@.len());
                    }
                }
                match parse_filter_body(body, state) {
                    Some(f) => {
                        self.push_filter(send, f);
                        true
                    },
                    None => false,
                }
            },
        }
    }

    /// Applies one token; `false` where its body is invalid.
    fn apply_token(&mut self, t: &str) -> (r: bool)
        ensures
            match apply_token(old(self)@, t@) {
                Some(o) => r && final(self)@ == o,
                None => !r,
            },
    {
        if eq_str(t, SCREENSHOT) {
            self.screenshot = true;
            true
        } else if eq_str(t, ALWAYS_ON_SCREEN) {
            self.always_on_screen = true;
            true
        } else if eq_str(t, REQUIRES_CLIENT) {
            self.requires_client = true;
            true
        } else if has_base(t, SEND_EVENT) {
            self.apply_filter_token(t, SEND_EVENT, true, false)
        } else if has_base(t, READ_EVENT) {
            self.apply_filter_token(t, READ_EVENT, false, false)
        } else if has_base(t, SEND_STATE) {
            self.apply_filter_token(t, SEND_STATE, true, true)
        } else if has_base(t, READ_STATE) {
            self.apply_filter_token(t, READ_STATE, false, true)
        } else {
            true
        }
    }

    /// Decodes a token list. Unknown tokens are ignored; a filter token whose
    /// body is not a JSON object of strings with an `event_type` is an error.
    pub fn from_capability_list(tokens: &Vec<String>) -> (r: Result<Options, Error>)
        ensures
            match decode_tokens(strings_view(tokens@)) {
                Some(o) => r is Ok && r->Ok_0@ == o,
                None => r is Err && r->Err_0 is InvalidJSON,
            },
    {
        let mut o = Options::new();
        let mut i: usize = 0;
        while i < tokens.len()
            invariant
                i <= tokens@.len(),
                decode_tokens(strings_view(tokens@.subrange(0, i as int))) == Some(o@),
            decreases tokens@.len() - i,
        {
            let ghost before = o@;
            assert(strings_view(tokens@.subrange(0, i + 1)).drop_last() =~= strings_view(
                tokens@.subrange(0, i as int),
            ));
            if !o.apply_token(tokens[i].as_str()) {
                proof {
                    lemma_decode_stays_none(strings_view(tokens@), i as int + 1);
                    assert(strings_view(tokens@.subrange(0, i + 1)) =~= strings_view(
                        tokens@,
                    ).subrange(0, i + 1));
                }
                return Err(Error::InvalidJSON(tokens[i].clone()));
            }
            i = i + 1;
        }
        assert(tokens@.subrange(0, i as int) =~= tokens@);
        Ok(o)
    }

    /// Encodes the permission set as a token list.
    pub fn to_capability_list(&self) -> (r: Vec<String>)
        ensures
            strings_view(r@) == encode_options(self@),
            r@.len() == flag_tokens(self@).len() + self.send_filter@.len() + self.read_filter@.len(),
    {
        proof {
            lemma_one_token_per_filter(true, self@.send);
            lemma_one_token_per_filter(false, self@.read);
        }
        let mut r: Vec<String> = Vec::new();
        if self.screenshot {
            r.push(String::from_str(SCREENSHOT));
        }
        if self.always_on_screen {
            r.push(String::from_str(ALWAYS_ON_SCREEN));
        }
        if self.requires_client {
            r.push(String::from_str(REQUIRES_CLIENT));
        }
        assert(strings_view(r@) =~= flag_tokens(self@));
        let ghost flags = strings_view(r@);
        push_filter_tokens(&mut r, &self.send_filter, true);
        let ghost with_send = strings_view(r@);
        push_filter_tokens(&mut r, &self.read_filter, false);
        assert(strings_view(r@) =~= encode_options(self@));
        r
    }
}

proof fn lemma_decode_stays_none(ts: Seq<Seq<char>>, k: int)
    requires
        0 <= k <= ts.len(),
        decode_tokens(ts.subrange(0, k)) is None,
    ensures
        decode_tokens(ts) is None,
    decreases ts.len() - k,
{
    if k < ts.len() {
        assert(ts.subrange(0, k + 1).drop_last() =~= ts.subrange(0, k));
        lemma_decode_stays_none(ts, k + 1);
    } else {
        assert(ts.subrange(0, k) =~= ts);
    }
}

fn eq_str(a: &str, b: &str) -> (r: bool)
    ensures
        r == (a@ == b@),
{
    String::from_str(a) == String::from_str(b)
}

fn has_base(t: &str, base: &str) -> (r: bool)
    ensures
        r == matches_base(t@, base@),
{
    eq_str(t, base) || strip_base(t, base).is_some()
}

/// The body of a filter narrowed to one event type.
fn write_filter_body(event_type: &String, key_name: &str, key: &Option<String>) -> (r: String)
    ensures
        r@ == filter_body(event_type@, key_name@, opt_string_view(*key)),
{
    let t = quote_json_string(event_type.as_str());
    let mut b = String::from_str("{\"event_type\":");
    b.append(t.as_str());
    match key {
        None => {},
        Some(k) => {
            let q = quote_json_string(k.as_str());
            b.append(",");
            b.append(key_name);
            b.append(":");
            b.append(q.as_str());
        },
    }
    b.append("}");
    b
}

impl Filter {
    /// What follows the base token of this filter.
    pub fn capability_extension(&self) -> (r: String)
        ensures
            r@ == filter_extension(self@),
    {
        let body = match self {
            Filter::Timeline(f) => write_filter_body(&f.event_type, "\"msgtype\"", &f.msgtype),
            Filter::State(f) => write_filter_body(&f.event_type, "\"state_key\"", &f.state_key),
            Filter::AllowAllTimeline | Filter::AllowAllState => return String::new(),
        };
        let mut e = String::from_str(":");
        e.append(body.as_str());
        e
    }
}

/// Appends the tokens of a filter list.
fn push_filter_tokens(r: &mut Vec<String>, fs: &Vec<Filter>, send: bool)
    ensures
        strings_view(final(r)@) == strings_view(old(r)@) + filter_tokens(send, filters_view(fs@)),
{
    let mut i: usize = 0;
    while i < fs.len()
        invariant
            i <= fs@.len(),
            strings_view(r@) == strings_view(old(r)@) + filter_tokens(
                send,
                filters_view(fs@.subrange(0, i as int)),
            ),
        decreases fs@.len() - i,
    {
        let f = &fs[i];
        assert(filters_view(fs@.subrange(0, i + 1)).drop_last() =~= filters_view(
            fs@.subrange(0, i as int),
        ));
        assert(filters_view(fs@.subrange(0, i + 1)).last() == f@);
        let ghost prev = strings_view(r@);
        let e = f.capability_extension();
        let base = if send {
            if f.is_state_filter() { SEND_STATE } else { SEND_EVENT }
        } else {
            if f.is_state_filter() { READ_STATE } else { READ_EVENT }
        };
        let mut t = String::from_str(base);
        t.append(e.as_str());
        r.push(t);
        assert(strings_view(r@) =~= prev.push(t@));
        i = i + 1;
    }
    assert(fs@.subrange(0, i as int) =~= fs@);
}

} // verus!

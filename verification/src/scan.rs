//! Finding the header line and the field lines of a request text.

use crate::fields::{put_all, FieldMap};
use crate::grammar::{
    closes_line, field_at, fields_from, first_header, has_at, header_at, header_with, in_class, lead,
    line_end, line_start, run_end, version_end, CharClass, FieldToken, Header,
};
use crate::request::Method;
use crate::text::{collect, to_chars};
use vstd::prelude::*;

verus! {

fn class_holds(class: CharClass, c: char) -> (holds: bool)
    ensures
        holds == in_class(class, c),
{
    match class {
        CharClass::Digit => {
            let code: u32 = c as u32;
            0x30 <= code && code <= 0x39
        },
        CharClass::Name => c != ':' && c != '\r' && c != '\n',
        CharClass::Value => c != '\r' && c != '\n',
    }
}

fn run(chars: &Vec<char>, start: usize, class: CharClass) -> (end: usize)
    requires
        start <= chars.len(),
    ensures
        end == run_end(chars@, start as int, class),
        start <= end <= chars.len(),
{
    let mut i: usize = start;
    while i < chars.len() && class_holds(class, chars[i])
        invariant
            start <= i <= chars.len(),
            run_end(chars@, i as int, class) == run_end(chars@, start as int, class),
        decreases chars.len() - i,
    {
        i += 1;
    }
    i
}

fn starts_at(chars: &Vec<char>, at: usize, pattern: &Vec<char>) -> (found: bool)
    requires
        at <= chars.len(),
    ensures
        found == has_at(chars@, at as int, pattern@),
{
    if pattern.len() > chars.len() - at {
        return false;
    }
    let mut k: usize = 0;
    while k < pattern.len()
        invariant
            at + pattern.len() <= chars.len(),
            k <= pattern.len(),
            forall|j: int| 0 <= j < k ==> chars@[at + j] == pattern@[j],
        decreases pattern.len() - k,
    {
        if chars[at + k] != pattern[k] {
            assert(chars@.subrange(at as int, at + pattern.len())[k as int] != pattern@[k as int]);
            return false;
        }
        k += 1;
    }
    assert(chars@.subrange(at as int, at + pattern.len()) =~= pattern@);
    true
}

fn is_line_start(chars: &Vec<char>, at: usize) -> (yes: bool)
    requires
        at <= chars.len(),
    ensures
        yes == line_start(chars@, at as int),
{
    at == 0 || chars[at - 1] == '\n'
}

fn is_line_end(chars: &Vec<char>, at: usize) -> (yes: bool)
    requires
        at <= chars.len(),
    ensures
        yes == line_end(chars@, at as int),
{
    at == chars.len() || chars[at] == '\n'
}

fn closes(chars: &Vec<char>, at: usize) -> (yes: bool)
    requires
        at <= chars.len(),
    ensures
        yes == closes_line(chars@, at as int),
{
    is_line_end(chars, at) || (chars[at] == '\r' && is_line_end(chars, at + 1))
}

fn version_close(chars: &Vec<char>, v: usize) -> (end: Option<usize>)
    requires
        v <= chars.len(),
    ensures
        match end {
            Some(e) => version_end(chars@, v as int) == Some(e as int) && v <= e <= chars.len(),
            None => version_end(chars@, v as int) is None,
        },
{
    let dot = run(chars, v, CharClass::Digit);
    if dot == v || dot >= chars.len() || chars[dot] != '.' {
        return None;
    }
    let end = run(chars, dot + 1, CharClass::Digit);
    if end == dot + 1 || !closes(chars, end) {
        return None;
    }
    Some(end)
}

/// The three header leads, ready to be compared character by character.
struct Leads {
    get: Vec<char>,
    notify: Vec<char>,
    teach: Vec<char>,
}

impl Leads {
    spec fn ready(&self) -> bool {
        &&& self.get@ == lead(Method::Get)
        &&& self.notify@ == lead(Method::Notify)
        &&& self.teach@ == lead(Method::Teach)
    }

    fn new() -> (leads: Leads)
        ensures
            leads.ready(),
    {
        proof {
            reveal_strlit("GET");
            reveal_strlit("NOTIFY");
            reveal_strlit("TEACH");
            reveal_strlit(" SHIORI/");
            reveal_strlit("GET SHIORI/");
            reveal_strlit("NOTIFY SHIORI/");
            reveal_strlit("TEACH SHIORI/");
        }
        let leads = Leads {
            get: to_chars("GET SHIORI/"),
            notify: to_chars("NOTIFY SHIORI/"),
            teach: to_chars("TEACH SHIORI/"),
        };
        assert(leads.get@ =~= lead(Method::Get));
        assert(leads.notify@ =~= lead(Method::Notify));
        assert(leads.teach@ =~= lead(Method::Teach));
        leads
    }

    fn of(&self, method: Method) -> (chars: &Vec<char>)
        requires
            self.ready(),
        ensures
            chars@ == lead(method),
    {
        match method {
            Method::Get => &self.get,
            Method::Notify => &self.notify,
            Method::Teach => &self.teach,
        }
    }
}

/// Where in the text a header's version stands.
struct HeaderSpan {
    method: Method,
    from: usize,
    to: usize,
}

impl HeaderSpan {
    spec fn fits(&self, s: Seq<char>) -> bool {
        self.from <= self.to <= s.len()
    }

    spec fn header(&self, s: Seq<char>) -> Header {
        Header { method: self.method, version: s.subrange(self.from as int, self.to as int) }
    }
}

fn header_of(chars: &Vec<char>, at: usize, leads: &Leads, method: Method) -> (span: Option<
    HeaderSpan,
>)
    requires
        at <= chars.len(),
        leads.ready(),
    ensures
        match span {
            Some(h) => h.fits(chars@) && header_with(chars@, at as int, method) == Some(
                h.header(chars@),
            ),
            None => header_with(chars@, at as int, method) is None,
        },
{
    let pattern = leads.of(method);
    if !is_line_start(chars, at) || !starts_at(chars, at, pattern) {
        return None;
    }
    let v = at + pattern.len();
    match version_close(chars, v) {
        Some(end) => Some(HeaderSpan { method, from: v, to: end }),
        None => None,
    }
}

fn header_here(chars: &Vec<char>, at: usize, leads: &Leads) -> (span: Option<HeaderSpan>)
    requires
        at <= chars.len(),
        leads.ready(),
    ensures
        match span {
            Some(h) => h.fits(chars@) && header_at(chars@, at as int) == Some(h.header(chars@)),
            None => header_at(chars@, at as int) is None,
        },
{
    let get = header_of(chars, at, leads, Method::Get);
    if get.is_some() {
        return get;
    }
    let notify = header_of(chars, at, leads, Method::Notify);
    if notify.is_some() {
        return notify;
    }
    header_of(chars, at, leads, Method::Teach)
}

/// The method and the version of the first header in `chars`.
pub(crate) fn find_header(chars: &Vec<char>) -> (found: Option<(Method, String)>)
    ensures
        match found {
            Some((method, version)) => first_header(chars@, 0) == Some(
                Header { method, version: version@ },
            ),
            None => first_header(chars@, 0) is None,
        },
{
    let leads = Leads::new();
    let mut i: usize = 0;
    while i < chars.len()
        invariant
            i <= chars.len(),
            leads.ready(),
            first_header(chars@, i as int) == first_header(chars@, 0),
        decreases chars.len() - i,
    {
        match header_here(chars, i, &leads) {
            Some(h) => {
                let version = collect(chars, h.from, h.to);
                return Some((h.method, version));
            },
            None => {},
        }
        i += 1;
    }
    None
}

/// Where in the text the parts of a field line stand.
struct FieldSpan {
    colon: usize,
    stop: usize,
}

fn field_here(chars: &Vec<char>, at: usize) -> (span: Option<FieldSpan>)
    requires
        at < chars.len(),
    ensures
        match span {
            Some(f) => {
                &&& at < f.colon
                &&& f.colon + 2 <= f.stop <= chars.len()
                &&& field_at(chars@, at as int) == Some(
                    FieldToken {
                        name: chars@.subrange(at as int, f.colon as int),
                        value: chars@.subrange(f.colon + 2, f.stop as int),
                    },
                )
            },
            None => field_at(chars@, at as int) is None,
        },
{
    if !is_line_start(chars, at) {
        return None;
    }
    let colon = run(chars, at, CharClass::Name);
    if colon == at || colon >= chars.len() - 1 || chars[colon] != ':' || chars[colon + 1] != ' ' {
        return None;
    }
    let stop = run(chars, colon + 2, CharClass::Value);
    if !closes(chars, stop) {
        return None;
    }
    Some(FieldSpan { colon, stop })
}

/// The field table that the field lines of `chars` write, first to last.
pub(crate) fn find_fields(chars: &Vec<char>) -> (table: FieldMap)
    ensures
        table.pairs() == put_all(Seq::empty(), fields_from(chars@, 0)),
{
    let mut table = FieldMap::new();
    let mut i: usize = 0;
    while i < chars.len()
        invariant
            i <= chars.len(),
            put_all(table.pairs(), fields_from(chars@, i as int)) == put_all(
                Seq::empty(),
                fields_from(chars@, 0),
            ),
        decreases chars.len() - i,
    {
        match field_here(chars, i) {
            Some(f) => {
                let name = collect(chars, i, f.colon);
                let value = collect(chars, f.colon + 2, f.stop);
                proof {
                    let rest = fields_from(chars@, i + 1);
                    let all = fields_from(chars@, i as int);
                    assert(all == seq![(name@, value@)] + rest);
                    assert(all.drop_first() =~= rest);
                }
                table = table.insert(name, value);
            },
            None => {},
        }
        i += 1;
    }
    table
}

} // verus!

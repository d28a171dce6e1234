//! The request grammar.
//!
//! Two kinds of line are looked for in a request text, whatever stands
//! around them:
//!
//! * a header line: a method keyword, ` SHIORI/`, and a version written as
//!   digits, a dot and digits;
//! * a field line: a name (one or more characters, none of them a colon or
//!   a line break), `: `, and a value (any characters but line breaks).
//!
//! A line starts at the start of the text or just after a line feed. It
//! ends at the end of the text or just before a line feed; one carriage
//! return may stand before that point, and is no part of what the line
//! says.

use crate::fields::{holds, put, put_all};
use crate::request::Method;
use vstd::prelude::*;

verus! {

/// The sets of characters that a run may be made of.
#[derive(Copy, Clone, PartialEq, Eq, Structural)]
pub enum CharClass {
    /// `0` to `9`.
    Digit,
    /// Anything but a colon, a carriage return or a line feed.
    Name,
    /// Anything but a carriage return or a line feed.
    Value,
}

/// `c` belongs to `class`.
pub open spec fn in_class(class: CharClass, c: char) -> bool {
    match class {
        CharClass::Digit => 0x30 <= c as u32 && c as u32 <= 0x39,
        CharClass::Name => c != ':' && c != '\r' && c != '\n',
        CharClass::Value => c != '\r' && c != '\n',
    }
}

/// Where the run of `class` characters that starts at `i` stops: the first
/// index from `i` on whose character is outside the class, or the end.
pub open spec fn run_end(s: Seq<char>, i: int, class: CharClass) -> int
    decreases s.len() - i,
{
    if 0 <= i < s.len() && in_class(class, s[i]) {
        run_end(s, i + 1, class)
    } else {
        i
    }
}

/// `p` stands in `s` at index `i`.
pub open spec fn has_at(s: Seq<char>, i: int, p: Seq<char>) -> bool {
    0 <= i && i + p.len() <= s.len() && s.subrange(i, i + p.len()) == p
}

/// A line starts at index `i`: the text starts there, or a line feed
/// stands just before.
pub open spec fn line_start(s: Seq<char>, i: int) -> bool {
    i == 0 || (0 < i <= s.len() && s[i - 1] == '\n')
}

/// Index `i` is the end of the text or holds a line feed.
pub open spec fn line_end(s: Seq<char>, i: int) -> bool {
    i == s.len() || (0 <= i < s.len() && s[i] == '\n')
}

/// A line ends at `i`, directly or after one carriage return.
pub open spec fn closes_line(s: Seq<char>, i: int) -> bool {
    line_end(s, i) || (0 <= i < s.len() && s[i] == '\r' && line_end(s, i + 1))
}

/// The keyword of a method as it stands in a header.
pub open spec fn keyword(method: Method) -> Seq<char> {
    match method {
        Method::Get => "GET"@,
        Method::Notify => "NOTIFY"@,
        Method::Teach => "TEACH"@,
    }
}

/// What a header of `method` begins with.
pub open spec fn lead(method: Method) -> Seq<char> {
    keyword(method) + " SHIORI/"@
}

/// What a header says.
pub struct Header {
    pub method: Method,
    pub version: Seq<char>,
}

/// Where the version that starts at `v` ends, if a well-formed version
/// stands there and closes its line.
pub open spec fn version_end(s: Seq<char>, v: int) -> Option<int> {
    let dot = run_end(s, v, CharClass::Digit);
    let end = run_end(s, dot + 1, CharClass::Digit);
    if v < dot && dot < s.len() && s[dot] == '.' && dot + 1 < end && closes_line(s, end) {
        Some(end)
    } else {
        None
    }
}

/// The header of `method` that the line starting at `i` is, if it is one.
pub open spec fn header_with(s: Seq<char>, i: int, method: Method) -> Option<Header> {
    let v = i + lead(method).len();
    if line_start(s, i) && has_at(s, i, lead(method)) && version_end(s, v) is Some {
        Some(Header { method, version: s.subrange(v, version_end(s, v)->0) })
    } else {
        None
    }
}

/// The header that the line starting at `i` is, if it is one. There is
/// none where no line starts at `i`.
pub open spec fn header_at(s: Seq<char>, i: int) -> Option<Header> {
    if header_with(s, i, Method::Get) is Some {
        header_with(s, i, Method::Get)
    } else if header_with(s, i, Method::Notify) is Some {
        header_with(s, i, Method::Notify)
    } else {
        header_with(s, i, Method::Teach)
    }
}

/// The first header line that starts at `from` or later.
pub open spec fn first_header(s: Seq<char>, from: int) -> Option<Header>
    decreases s.len() - from,
{
    if from < 0 || from >= s.len() {
        None
    } else if header_at(s, from) is Some {
        header_at(s, from)
    } else {
        first_header(s, from + 1)
    }
}

/// What a field line says.
pub struct FieldToken {
    pub name: Seq<char>,
    pub value: Seq<char>,
}

/// The field that the line starting at `i` is, if it is one. There is none
/// where no line starts at `i`.
pub open spec fn field_at(s: Seq<char>, i: int) -> Option<FieldToken> {
    let colon = run_end(s, i, CharClass::Name);
    let stop = run_end(s, colon + 2, CharClass::Value);
    if line_start(s, i) && 0 <= i < colon && colon + 1 < s.len() && s[colon] == ':' && s[colon
        + 1] == ' ' && closes_line(s, stop) {
        Some(FieldToken { name: s.subrange(i, colon), value: s.subrange(colon + 2, stop) })
    } else {
        None
    }
}

/// What the field lines that start at `from` or later say, in order, each
/// as (name, value).
pub open spec fn fields_from(s: Seq<char>, from: int) -> Seq<(Seq<char>, Seq<char>)>
    decreases s.len() - from,
{
    if from < 0 || from >= s.len() {
        Seq::empty()
    } else {
        match field_at(s, from) {
            Some(token) => seq![(token.name, token.value)] + fields_from(s, from + 1),
            None => fields_from(s, from + 1),
        }
    }
}

/// A run never moves backwards nor past the end, holds only characters of
/// its class, and stops at a character outside it.
pub proof fn lemma_run_end(s: Seq<char>, i: int, class: CharClass)
    requires
        0 <= i <= s.len(),
    ensures
        i <= run_end(s, i, class) <= s.len(),
        forall|j: int| i <= j < run_end(s, i, class) ==> in_class(class, #[trigger] s[j]),
        run_end(s, i, class) < s.len() ==> !in_class(class, s[run_end(s, i, class)]),
    decreases s.len() - i,
{
    if i < s.len() && in_class(class, s[i]) {
        lemma_run_end(s, i + 1, class);
    }
}

/// A stretch of class characters that stops at a character outside the
/// class, or at the end, is the run from its start.
pub proof fn lemma_run_end_is(s: Seq<char>, i: int, end: int, class: CharClass)
    requires
        0 <= i <= end <= s.len(),
        forall|j: int| i <= j < end ==> in_class(class, #[trigger] s[j]),
        end < s.len() ==> !in_class(class, s[end]),
    ensures
        run_end(s, i, class) == end,
    decreases end - i,
{
    if i < end {
        lemma_run_end_is(s, i + 1, end, class);
    }
}

/// Where no line starts, no field line starts: a stretch without a line
/// start adds nothing to the fields found.
pub proof fn lemma_no_line_start(s: Seq<char>, i: int, j: int)
    requires
        0 <= i <= j <= s.len(),
        forall|k: int| i <= k < j ==> !line_start(s, k),
    ensures
        fields_from(s, i) == fields_from(s, j),
    decreases j - i,
{
    if i < j {
        assert(!line_start(s, i));
        lemma_no_line_start(s, i + 1, j);
    }
}

/// All characters of `s` belong to `class`.
pub open spec fn all_in(s: Seq<char>, class: CharClass) -> bool {
    forall|i: int| 0 <= i < s.len() ==> in_class(class, #[trigger] s[i])
}

/// A request of one header line and one field line, each closed by a
/// carriage return and a line feed, and a blank line after them.
pub open spec fn plain_request(
    method: Method,
    major: Seq<char>,
    minor: Seq<char>,
    name: Seq<char>,
    value: Seq<char>,
) -> Seq<char> {
    lead(method) + major + "."@ + minor + "\r\n"@ + name + ": "@ + value + "\r\n\r\n"@
}

/// The first header is a header, and no header starts before it.
pub proof fn law_first_header(s: Seq<char>, from: int)
    requires
        0 <= from,
    ensures
        match first_header(s, from) {
            Some(h) => exists|i: int|
                from <= i < s.len() && #[trigger] header_at(s, i) == Some(h) && forall|j: int|
                    from <= j < i ==> #[trigger] header_at(s, j) is None,
            None => forall|i: int| from <= i < s.len() ==> #[trigger] header_at(s, i) is None,
        },
    decreases s.len() - from,
{
    if from < s.len() {
        if header_at(s, from) is Some {
            assert(header_at(s, from) == first_header(s, from));
        } else {
            law_first_header(s, from + 1);
            match first_header(s, from + 1) {
                Some(h) => {
                    let i = choose|i: int|
                        from + 1 <= i < s.len() && #[trigger] header_at(s, i) == Some(h)
                            && forall|j: int|
                            from + 1 <= j < i ==> #[trigger] header_at(s, j) is None;
                    assert forall|j: int| from <= j < i implies #[trigger] header_at(s, j)
                        is None by {
                        if j > from {
                        }
                    }
                    assert(from <= i < s.len() && header_at(s, i) == Some(h));
                },
                None => {
                    assert forall|i: int| from <= i < s.len() implies #[trigger] header_at(s, i)
                        is None by {
                        if i > from {
                        }
                    }
                },
            }
        }
    }
}

/// A version is made of digits, a dot and digits, with at least one digit
/// on each side.
pub open spec fn is_version(version: Seq<char>) -> bool {
    exists|major: Seq<char>, minor: Seq<char>|
        #![trigger major + "."@ + minor]
        version == major + "."@ + minor && major.len() > 0 && minor.len() > 0 && all_in(
            major,
            CharClass::Digit,
        ) && all_in(minor, CharClass::Digit)
}

/// The version of every header is a version.
pub proof fn law_header_version(s: Seq<char>, i: int)
    requires
        header_at(s, i) is Some,
    ensures
        is_version(header_at(s, i)->0.version),
{
    reveal_strlit(".");
    let method = header_at(s, i)->0.method;
    assert(header_with(s, i, method) == header_at(s, i));
    let v = i + lead(method).len();
    let dot = run_end(s, v, CharClass::Digit);
    let end = run_end(s, dot + 1, CharClass::Digit);
    lemma_run_end(s, v, CharClass::Digit);
    lemma_run_end(s, dot + 1, CharClass::Digit);
    let major = s.subrange(v, dot);
    let minor = s.subrange(dot + 1, end);
    assert(s.subrange(v, end) =~= major + "."@ + minor);
    assert(all_in(major, CharClass::Digit)) by {
        assert forall|j: int| 0 <= j < major.len() implies in_class(
            CharClass::Digit,
            #[trigger] major[j],
        ) by {
            assert(major[j] == s[v + j]);
        }
    }
    assert(all_in(minor, CharClass::Digit)) by {
        assert forall|j: int| 0 <= j < minor.len() implies in_class(
            CharClass::Digit,
            #[trigger] minor[j],
        ) by {
            assert(minor[j] == s[dot + 1 + j]);
        }
    }
}

/// A field as the grammar has it: a name of at least one character, none
/// of them a colon or a line break, and a value without line breaks.
pub open spec fn is_field(field: (Seq<char>, Seq<char>)) -> bool {
    field.0.len() > 0 && all_in(field.0, CharClass::Name) && all_in(field.1, CharClass::Value)
}

/// Every field that is found is a field as the grammar has it.
pub proof fn law_fields_found(s: Seq<char>, from: int)
    requires
        0 <= from,
    ensures
        forall|k: int| 0 <= k < fields_from(s, from).len() ==> is_field(#[trigger] fields_from(s, from)[k]),
    decreases s.len() - from,
{
    if from < s.len() {
        match field_at(s, from) {
            Some(token) => {
                let colon = run_end(s, from, CharClass::Name);
                let stop = run_end(s, colon + 2, CharClass::Value);
                lemma_run_end(s, from, CharClass::Name);
                lemma_run_end(s, colon + 2, CharClass::Value);
                assert(is_field((token.name, token.value))) by {
                    assert forall|j: int| 0 <= j < token.name.len() implies in_class(
                        CharClass::Name,
                        #[trigger] token.name[j],
                    ) by {
                        assert(token.name[j] == s[from + j]);
                    }
                    assert forall|j: int| 0 <= j < token.value.len() implies in_class(
                        CharClass::Value,
                        #[trigger] token.value[j],
                    ) by {
                        assert(token.value[j] == s[colon + 2 + j]);
                    }
                }
                law_fields_found(s, from + 1);
                let rest = fields_from(s, from + 1);
                let all = fields_from(s, from);
                assert(all == seq![(token.name, token.value)] + rest);
                assert forall|k: int| 0 <= k < all.len() implies is_field(#[trigger] all[k]) by {
                    if k > 0 {
                        assert(all[k] == rest[k - 1]);
                    }
                }
            },
            None => {
                law_fields_found(s, from + 1);
                assert(fields_from(s, from) == fields_from(s, from + 1));
            },
        }
    } else {
        assert(fields_from(s, from).len() == 0);
    }
}

/// There is a header exactly where some line of the text is a header
/// line.
pub proof fn law_header_needs_line(s: Seq<char>)
    ensures
        first_header(s, 0) is Some <==> exists|i: int|
            line_start(s, i) && 0 <= i < s.len() && #[trigger] header_at(s, i) is Some,
{
    law_first_header(s, 0);
    if first_header(s, 0) is Some {
        let h = first_header(s, 0)->0;
        let i = choose|i: int| 0 <= i < s.len() && #[trigger] header_at(s, i) == Some(h);
        assert(header_with(s, i, h.method) == header_at(s, i));
        assert(line_start(s, i) && 0 <= i < s.len() && header_at(s, i) is Some);
    }
}

/// A text in which no line is a header line holds no header, whatever
/// else its lines hold.
pub proof fn law_no_header_line(s: Seq<char>)
    requires
        forall|i: int| line_start(s, i) ==> #[trigger] header_at(s, i) is None,
    ensures
        first_header(s, 0) is None,
{
    law_header_needs_line(s);
}

/// What stands inside a line, not at its start, makes no header and no
/// field, whatever it reads like.
pub proof fn law_header_starts_line(s: Seq<char>, i: int)
    requires
        !line_start(s, i),
    ensures
        header_at(s, i) is None,
        field_at(s, i) is None,
{
}

/// The parts of a plain request and where each stands in `text`.
spec fn laid_out(
    text: Seq<char>,
    method: Method,
    major: Seq<char>,
    minor: Seq<char>,
    name: Seq<char>,
    value: Seq<char>,
) -> bool {
    let l = lead(method).len() as int;
    let dot = l + major.len();
    let h = dot + 1 + minor.len();
    let colon = h + 2 + name.len();
    let stop = colon + 2 + value.len();
    &&& text.len() == stop + 4
    &&& text.subrange(0, l) == lead(method)
    &&& text.subrange(l, dot) == major
    &&& text[dot] == '.'
    &&& text.subrange(dot + 1, h) == minor
    &&& text[h] == '\r'
    &&& text[h + 1] == '\n'
    &&& text.subrange(h + 2, colon) == name
    &&& text[colon] == ':'
    &&& text[colon + 1] == ' '
    &&& text.subrange(colon + 2, stop) == value
    &&& text[stop] == '\r'
    &&& text[stop + 1] == '\n'
    &&& text[stop + 2] == '\r'
    &&& text[stop + 3] == '\n'
}

proof fn lemma_plain_layout(
    method: Method,
    major: Seq<char>,
    minor: Seq<char>,
    name: Seq<char>,
    value: Seq<char>,
)
    ensures
        laid_out(plain_request(method, major, minor, name, value), method, major, minor, name, value),
{
    reveal_strlit(".");
    reveal_strlit("\r\n");
    reveal_strlit(": ");
    reveal_strlit("\r\n\r\n");
    let text = plain_request(method, major, minor, name, value);
    let l = lead(method).len() as int;
    let dot = l + major.len();
    let h = dot + 1 + minor.len();
    let colon = h + 2 + name.len();
    let stop = colon + 2 + value.len();
    assert(text.len() == stop + 4);
    assert(text.subrange(0, l) =~= lead(method));
    assert(text.subrange(l, dot) =~= major);
    assert(text.subrange(dot + 1, h) =~= minor);
    assert(text.subrange(h + 2, colon) =~= name);
    assert(text.subrange(colon + 2, stop) =~= value);
}

/// The leads of the three methods: what they are made of and how they begin.
proof fn lemma_leads()
    ensures
        forall|method: Method| all_in(#[trigger] lead(method), CharClass::Name),
        lead(Method::Get)[0] == 'G',
        lead(Method::Notify)[0] == 'N',
        lead(Method::Teach)[0] == 'T',
        forall|method: Method| (#[trigger] lead(method)).len() >= 11,
{
    reveal_strlit("GET");
    reveal_strlit("NOTIFY");
    reveal_strlit("TEACH");
    reveal_strlit(" SHIORI/");
    assert forall|method: Method| all_in(#[trigger] lead(method), CharClass::Name) by {
        let k = keyword(method);
        let l = lead(method);
        assert forall|i: int| 0 <= i < l.len() implies in_class(CharClass::Name, #[trigger] l[i]) by {
            if i < k.len() {
                assert(l[i] == k[i]);
            } else {
                assert(l[i] == " SHIORI/"@[i - k.len()]);
            }
        }
    }
}

proof fn lemma_plain_header(
    text: Seq<char>,
    method: Method,
    major: Seq<char>,
    minor: Seq<char>,
    name: Seq<char>,
    value: Seq<char>,
)
    requires
        laid_out(text, method, major, minor, name, value),
        major.len() > 0,
        minor.len() > 0,
        all_in(major, CharClass::Digit),
        all_in(minor, CharClass::Digit),
    ensures
        first_header(text, 0) == Some(Header { method, version: major + "."@ + minor }),
{
    reveal_strlit(".");
    lemma_leads();
    let l = lead(method).len() as int;
    let dot = l + major.len();
    let h = dot + 1 + minor.len();
    assert forall|i: int| l <= i < dot implies in_class(CharClass::Digit, #[trigger] text[i]) by {
        assert(text.subrange(l, dot)[i - l] == text[i]);
    }
    lemma_run_end_is(text, l, dot, CharClass::Digit);
    assert forall|i: int| dot + 1 <= i < h implies in_class(
        CharClass::Digit,
        #[trigger] text[i],
    ) by {
        assert(text.subrange(dot + 1, h)[i - dot - 1] == text[i]);
    }
    lemma_run_end_is(text, dot + 1, h, CharClass::Digit);
    assert(closes_line(text, h));
    assert(version_end(text, l) == Some(h));
    assert(text.subrange(l, h) =~= major + "."@ + minor) by {
        assert forall|i: int| l <= i < h implies text[i] == (major + "."@ + minor)[i - l] by {
            if i < dot {
                assert(text.subrange(l, dot)[i - l] == text[i]);
            } else if i > dot {
                assert(text.subrange(dot + 1, h)[i - dot - 1] == text[i]);
            }
        }
    }
    assert(header_with(text, 0, method) == Some(
        Header { method, version: major + "."@ + minor },
    ));
    assert(text[0] == text.subrange(0, l)[0]);
    if method != Method::Get && has_at(text, 0, lead(Method::Get)) {
        assert(text.subrange(0, lead(Method::Get).len() as int)[0] == text[0]);
        assert(false);
    }
    if method == Method::Teach && has_at(text, 0, lead(Method::Notify)) {
        assert(text.subrange(0, lead(Method::Notify).len() as int)[0] == text[0]);
        assert(false);
    }
    assert(header_at(text, 0) == header_with(text, 0, method));
}

proof fn lemma_plain_fields(
    text: Seq<char>,
    method: Method,
    major: Seq<char>,
    minor: Seq<char>,
    name: Seq<char>,
    value: Seq<char>,
)
    requires
        laid_out(text, method, major, minor, name, value),
        name.len() > 0,
        all_in(major, CharClass::Digit),
        all_in(minor, CharClass::Digit),
        all_in(name, CharClass::Name),
        all_in(value, CharClass::Value),
    ensures
        fields_from(text, 0) == seq![(name, value)],
{
    lemma_leads();
    let l = lead(method).len() as int;
    let dot = l + major.len();
    let h = dot + 1 + minor.len();
    let n0 = h + 2;
    let colon = n0 + name.len();
    let stop = colon + 2 + value.len();
    // The header line is no field line, and no line starts inside it.
    assert forall|i: int| 0 <= i < h implies in_class(CharClass::Name, #[trigger] text[i]) by {
        if i < l {
            assert(text.subrange(0, l)[i] == text[i]);
        } else if i < dot {
            assert(text.subrange(l, dot)[i - l] == text[i]);
        } else if i > dot {
            assert(text.subrange(dot + 1, h)[i - dot - 1] == text[i]);
        }
    }
    lemma_run_end_is(text, 0, h, CharClass::Name);
    assert(field_at(text, 0) is None);
    assert forall|k: int| 1 <= k < n0 implies !line_start(text, k) by {
        if k - 1 < h {
            assert(in_class(CharClass::Name, text[k - 1]));
        }
    }
    lemma_no_line_start(text, 1, n0);
    // The field line.
    assert forall|i: int| n0 <= i < colon implies in_class(CharClass::Name, #[trigger] text[i]) by {
        assert(text.subrange(n0, colon)[i - n0] == text[i]);
    }
    lemma_run_end_is(text, n0, colon, CharClass::Name);
    assert forall|i: int| colon + 2 <= i < stop implies in_class(
        CharClass::Value,
        #[trigger] text[i],
    ) by {
        assert(text.subrange(colon + 2, stop)[i - colon - 2] == text[i]);
    }
    lemma_run_end_is(text, colon + 2, stop, CharClass::Value);
    assert(line_start(text, n0));
    assert(closes_line(text, stop));
    assert(field_at(text, n0) == Some(FieldToken { name, value }));
    // No line starts inside the field line, and the last line is blank.
    assert forall|k: int| n0 + 1 <= k < stop + 2 implies !line_start(text, k) by {
        if k - 1 < colon {
            assert(in_class(CharClass::Name, text[k - 1]));
        } else if colon + 2 <= k - 1 < stop {
            assert(in_class(CharClass::Value, text[k - 1]));
        }
    }
    lemma_no_line_start(text, n0 + 1, stop + 2);
    assert(field_at(text, stop + 2) is None);
    assert(!line_start(text, stop + 3));
    assert(fields_from(text, stop + 4) =~= Seq::empty());
    assert(fields_from(text, stop + 3) =~= Seq::empty());
    assert(fields_from(text, stop + 2) =~= Seq::empty());
    assert(fields_from(text, n0) =~= seq![(name, value)]);
    assert(fields_from(text, 0) == fields_from(text, 1));
}

/// A plain request reads back: its header gives the method and the version
/// as written, and its one field line is the one field found.
pub proof fn law_plain_request(
    method: Method,
    major: Seq<char>,
    minor: Seq<char>,
    name: Seq<char>,
    value: Seq<char>,
)
    requires
        major.len() > 0,
        minor.len() > 0,
        name.len() > 0,
        all_in(major, CharClass::Digit),
        all_in(minor, CharClass::Digit),
        all_in(name, CharClass::Name),
        all_in(value, CharClass::Value),
    ensures
        first_header(plain_request(method, major, minor, name, value), 0) == Some(
            Header { method, version: major + "."@ + minor },
        ),
        fields_from(plain_request(method, major, minor, name, value), 0) == seq![(name, value)],
        put_all(Seq::empty(), fields_from(plain_request(method, major, minor, name, value), 0))
            == seq![(name, value)],
{
    let text = plain_request(method, major, minor, name, value);
    lemma_plain_layout(method, major, minor, name, value);
    lemma_plain_header(text, method, major, minor, name, value);
    lemma_plain_fields(text, method, major, minor, name, value);
    let found = seq![(name, value)];
    let none = Seq::<(Seq<char>, Seq<char>)>::empty();
    assert(!holds(none, name));
    assert(put(none, name, value) =~= found);
    assert(found.drop_first() =~= none);
    assert(put_all(found, none) == found);
    assert(put_all(none, found) == put_all(put(none, found[0].0, found[0].1), found.drop_first()));
}

} // verus!

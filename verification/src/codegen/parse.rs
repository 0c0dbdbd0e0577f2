//! A deliberately narrow reader for `interface StreamerEvents`.
//!
//! It is not a TypeScript parser. What is not exactly of the shape that it knows is an error:
//! nothing is skipped and nothing is guessed, because a stream that silently failed to parse
//! would be a class of events that nobody ever sees.
use crate::codegen::scan::{
    alphanumeric, balanced, bared, byte_offset, collapsed, is_alphanumeric, is_quote,
    law_uncommented_keeps_positions, lemma_past_white, line_feeds, line_of, normalise, partner,
    past_white, positions, quotes, skip_string, skip_ws, split, split_top_level, string_end,
    strip_comments, trim_range, trim_unicode, trimmed, uncommented, white, Parts, Split,
};
use crate::text::{
    chars_of, concat, decimal_text, decimal_u64, find_char, holds, index_from, lemma_index_from,
    lemma_search_from, occurs_at, search, search_from, stands_at, str_eq, string_of,
};
use crate::utf8::{lemma_utf8_len, shortened, truncate, utf8_len, width};
use vstd::prelude::*;
use vstd::string::*;
use vstd::utf8::*;

verus! {

/// Everything that the interface declares.
#[derive(Debug, Clone, PartialEq, Eq)]
pub struct Catalog {
    /// The streams, in declaration order.
    pub streams: Vec<Stream>,
}

/// One stream.
#[derive(Debug, Clone, PartialEq, Eq)]
pub struct Stream {
    /// The name, as declared.
    pub name: String,
    /// The entries, in declaration order.
    pub events: Vec<Event>,
}

/// One entry of a stream.
#[derive(Debug, Clone, PartialEq, Eq)]
pub struct Event {
    /// The shape of the event names that this entry matches.
    pub key: KeyPattern,
    /// The source text of the key.
    pub key_source: String,
    /// What the arguments are.
    pub args: ArgsSpec,
}

/// The shape of an event name.
#[derive(Debug, Clone, PartialEq, Eq)]
pub enum KeyPattern {
    /// A fixed name.
    Literal(String),
    /// An id, a slash, then this suffix.
    Suffix(String),
    /// This prefix, a slash, then free text.
    Prefix(String),
    /// Any name.
    Any,
}

/// What the arguments of an entry are.
#[derive(Debug, Clone, PartialEq, Eq)]
pub struct ArgsSpec {
    /// The source text of the whole type, on one line.
    pub source: String,
    /// The tuple lengths, ascending and each once.
    pub arities: Vec<usize>,
    /// Whether an alternative is an unbounded array.
    pub variadic: bool,
}

/// A shape that the reader does not know.
#[derive(Debug, Clone, PartialEq, Eq)]
pub struct ParseError {
    /// The byte offset in the source.
    pub offset: usize,
    /// The line, counted from one.
    pub line: usize,
    /// What went wrong.
    pub message: String,
    /// The text in question, cut short.
    pub context: String,
}

impl ParseError {
    /// The error for a log line.
    pub fn to_text(&self) -> (r: String)
        ensures
            r@ == "streams.ts:"@ + decimal_text(self.line as int) + ": "@ + self.message@
                + " (at byte "@ + decimal_text(self.offset as int) + ")\n  --> "@ + self.context@,
    {
        let mut out = concat("streams.ts:", decimal_u64(self.line as u64).as_str());
        out.append(": ");
        out.append(self.message.as_str());
        out.append(" (at byte ");
        out.append(decimal_u64(self.offset as u64).as_str());
        out.append(")\n  --> ");
        out.append(self.context.as_str());
        out
    }
}

/// What a [`KeyPattern`] is.
pub enum KeyView {
    Literal(Seq<char>),
    Suffix(Seq<char>),
    Prefix(Seq<char>),
    Any,
}

/// What an [`ArgsSpec`] is.
pub struct ArgsView {
    pub source: Seq<char>,
    pub arities: Seq<nat>,
    pub variadic: bool,
}

/// What an [`Event`] is.
pub struct EventView {
    pub key: KeyView,
    pub key_source: Seq<char>,
    pub args: ArgsView,
}

/// What a [`Stream`] is.
pub struct StreamView {
    pub name: Seq<char>,
    pub events: Seq<EventView>,
}

/// Numbers as naturals.
pub open spec fn nats(list: Seq<usize>) -> Seq<nat> {
    Seq::new(list.len(), |i: int| list[i] as nat)
}

impl View for KeyPattern {
    type V = KeyView;

    open spec fn view(&self) -> KeyView {
        match *self {
            KeyPattern::Literal(s) => KeyView::Literal(s@),
            KeyPattern::Suffix(s) => KeyView::Suffix(s@),
            KeyPattern::Prefix(s) => KeyView::Prefix(s@),
            KeyPattern::Any => KeyView::Any,
        }
    }
}

impl View for ArgsSpec {
    type V = ArgsView;

    open spec fn view(&self) -> ArgsView {
        ArgsView { source: self.source@, arities: nats(self.arities@), variadic: self.variadic }
    }
}

impl View for Event {
    type V = EventView;

    open spec fn view(&self) -> EventView {
        EventView { key: self.key@, key_source: self.key_source@, args: self.args@ }
    }
}

impl View for Stream {
    type V = StreamView;

    open spec fn view(&self) -> StreamView {
        StreamView { name: self.name@, events: event_views(self.events@) }
    }
}

impl View for Catalog {
    type V = Seq<StreamView>;

    open spec fn view(&self) -> Seq<StreamView> {
        stream_views(self.streams@)
    }
}

/// What a list of entries is.
pub open spec fn event_views(list: Seq<Event>) -> Seq<EventView> {
    Seq::new(list.len(), |i: int| list[i]@)
}

/// What a list of streams is.
pub open spec fn stream_views(list: Seq<Stream>) -> Seq<StreamView> {
    Seq::new(list.len(), |i: int| list[i]@)
}

/// How many entries the first `n` streams have.
pub open spec fn events_in(streams: Seq<StreamView>, n: int) -> nat
    decreases n,
{
    if n <= 0 {
        0
    } else {
        events_in(streams, n - 1) + streams[n - 1].events.len()
    }
}

/// Position of the first stream with a name, or the number of streams.
pub open spec fn stream_index(streams: Seq<StreamView>, name: Seq<char>, from: int) -> int
    decreases streams.len() - from,
{
    if from < 0 || from >= streams.len() {
        streams.len() as int
    } else if streams[from].name == name {
        from
    } else {
        stream_index(streams, name, from + 1)
    }
}

proof fn lemma_events_grow(streams: Seq<StreamView>, a: int, b: int)
    requires
        0 <= a <= b,
    ensures
        events_in(streams, a) <= events_in(streams, b),
    decreases b,
{
    if a < b {
        lemma_events_grow(streams, a, b - 1);
    }
}

impl Catalog {
    /// How many entries there are, across all streams.
    pub fn event_count(&self) -> (r: usize)
        requires
            events_in(self@, self@.len() as int) <= usize::MAX,
        ensures
            r == events_in(self@, self@.len() as int),
    {
        let mut count: usize = 0;
        let mut i: usize = 0;
        while i < self.streams.len()
            invariant
                i <= self.streams@.len(),
                count == events_in(self@, i as int),
                events_in(self@, self@.len() as int) <= usize::MAX,
            decreases self.streams@.len() - i,
        {
            proof {
                lemma_events_grow(self@, i + 1, self@.len() as int);
                assert(self@[i as int] == self.streams@[i as int]@);
            }
            count = count + self.streams[i].events.len();
            i += 1;
        }
        count
    }

    /// The first stream with a name.
    pub fn stream(&self, name: &str) -> (r: Option<&Stream>)
        ensures
            match r {
                Some(s) => stream_index(self@, name@, 0) < self@.len() && s@
                    == self@[stream_index(self@, name@, 0)],
                None => stream_index(self@, name@, 0) == self@.len(),
            },
    {
        let mut i: usize = 0;
        while i < self.streams.len()
            invariant
                i <= self.streams@.len(),
                stream_index(self@, name@, 0) == stream_index(self@, name@, i as int),
            decreases self.streams@.len() - i,
        {
            proof {
                assert(self@[i as int] == self.streams@[i as int]@);
            }
            if str_eq(self.streams[i].name.as_str(), name) {
                return Some(&self.streams[i]);
            }
            i += 1;
        }
        None
    }
}

/// Where the source deviates from the known shape: the position, what went wrong, and the text
/// in question.
pub struct Fault {
    pub at: int,
    pub message: Seq<char>,
    pub context: Seq<char>,
}

/// Whether this is how a fault is reported.
pub open spec fn reports(e: ParseError, s: Seq<char>, fault: Fault) -> bool {
    &&& e.offset == utf8_len(s.subrange(0, fault.at))
    &&& e.line == line_feeds(s.subrange(0, fault.at)) + 1
    &&& e.message@ == fault.message
    &&& e.context@ == shortened(collapsed(fault.context), 120)
}

/// Whether a source is small enough to be measured in bytes.
pub open spec fn measurable(s: Seq<char>) -> bool {
    utf8_len(s) < usize::MAX && s.len() < usize::MAX
}

/// Reports a fault; the text in question is a stretch of the source.
fn err(src: &[char], at: usize, message: String, from: usize, to: usize) -> (r: ParseError)
    requires
        measurable(src@),
        at <= src@.len(),
        from <= to <= src@.len(),
    ensures
        reports(
            r,
            src@,
            Fault {
                at: at as int,
                message: message@,
                context: src@.subrange(from as int, to as int),
            },
        ),
{
    let context = normalise(src, from, to);
    ParseError {
        offset: byte_offset(src, at),
        line: line_of(src, at),
        message,
        context: truncate(&context, 120),
    }
}

/// Reports a fault; the text in question is given.
fn err_about(src: &[char], at: usize, message: &str, context: &str) -> (r: ParseError)
    requires
        measurable(src@),
        at <= src@.len(),
    ensures
        reports(r, src@, Fault { at: at as int, message: message@, context: context@ }),
{
    let chars = chars_of(context);
    let text = normalise(chars.as_slice(), 0, chars.len());
    proof {
        assert(context@.subrange(0, context@.len() as int) =~= context@);
    }
    ParseError {
        offset: byte_offset(src, at),
        line: line_of(src, at),
        message: message.to_owned(),
        context: truncate(&text, 120),
    }
}

/// The text between a pair of the same quotes, where no such quote stands within.
pub open spec fn unquoted(text: Seq<char>, quote: char) -> Option<Seq<char>> {
    if text.len() >= 2 && text[0] == quote && text.last() == quote {
        let inner = text.subrange(1, text.len() - 1);
        if inner.contains(quote) {
            None
        } else {
            Some(inner)
        }
    } else {
        None
    }
}

/// The placeholder of a template literal.
pub open spec fn hole() -> Seq<char> {
    "${string}"@
}

/// What a key that is a template literal stands for.
pub open spec fn template_key(inner: Seq<char>) -> Option<KeyView> {
    let n = hole().len() as int;
    let len = inner.len() as int;
    let suffix = inner.subrange(n + 1, len);
    let prefix = inner.subrange(0, len - n - 1);
    if inner == hole() {
        Some(KeyView::Any)
    } else if stands_at(inner, hole(), 0) && len > n + 1 && inner[n] == '/' && !holds(
        suffix,
        "${"@,
    ) {
        Some(KeyView::Suffix(suffix))
    } else if stands_at(inner, hole(), len - n) && len > n + 1 && inner[len - n - 1] == '/'
        && !holds(prefix, "${"@) {
        Some(KeyView::Prefix(prefix))
    } else {
        None
    }
}

/// What a key is, or what is wrong with it.
pub open spec fn key_of(s: Seq<char>, start: int, end: int) -> Result<KeyView, Fault> {
    let text = s.subrange(start, end);
    let plain = match unquoted(text, '\'') {
        Some(inner) => Some(inner),
        None => unquoted(text, '"'),
    };
    match plain {
        Some(inner) => if inner.contains('$') || inner.contains('\\') {
            Err(
                Fault {
                    at: start,
                    message: "quoted key is not a plain literal"@,
                    context: text,
                },
            )
        } else {
            Ok(KeyView::Literal(inner))
        },
        None => if text == "string"@ {
            Ok(KeyView::Any)
        } else {
            match unquoted(text, '`') {
                Some(inner) => match template_key(inner) {
                    Some(key) => Ok(key),
                    None => Err(
                        Fault {
                            at: start,
                            message:
                                "template-literal key is not one of `${string}`, `${string}/suffix`, `prefix/${string}`"@,
                            context: text,
                        },
                    ),
                },
                None => Err(
                    Fault {
                        at: start,
                        message:
                            "key is neither a string literal, a template literal, nor `string`"@,
                        context: text,
                    },
                ),
            }
        },
    }
}

/// Whether a character stands in a stretch.
fn holds_char(src: &[char], from: usize, to: usize, c: char) -> (r: bool)
    requires
        from <= to <= src@.len(),
    ensures
        r == src@.subrange(from as int, to as int).contains(c),
{
    let ghost text = src@.subrange(from as int, to as int);
    let mut i: usize = from;
    while i < to
        invariant
            from <= i <= to <= src@.len(),
            text == src@.subrange(from as int, to as int),
            forall|k: int| 0 <= k < i - from ==> text[k] != c,
        decreases to - i,
    {
        if src[i] == c {
            proof {
                assert(text[i - from] == c);
            }
            return true;
        }
        i += 1;
    }
    proof {
        if text.contains(c) {
            let k = choose|k: int| 0 <= k < text.len() && text[k] == c;
            assert(text[k] != c);
        }
    }
    false
}

/// Whether a stretch stands between a pair of the same quotes, with no such quote within.
fn strip_quotes(src: &[char], from: usize, to: usize, quote: char) -> (r: bool)
    requires
        from <= to <= src@.len(),
    ensures
        r == (unquoted(src@.subrange(from as int, to as int), quote) is Some),
        r ==> from + 2 <= to && unquoted(src@.subrange(from as int, to as int), quote) == Some(
            src@.subrange(from + 1, to - 1),
        ),
{
    let ghost text = src@.subrange(from as int, to as int);
    if to - from < 2 || src[from] != quote || src[to - 1] != quote {
        return false;
    }
    proof {
        assert(text.subrange(1, text.len() - 1) =~= src@.subrange(from + 1, to - 1));
    }
    !holds_char(src, from + 1, to - 1, quote)
}

/// The characters of a stretch.
fn copy_of(src: &[char], from: usize, to: usize) -> (r: Vec<char>)
    requires
        from <= to <= src@.len(),
    ensures
        r@ == src@.subrange(from as int, to as int),
{
    let mut out: Vec<char> = Vec::new();
    let mut i: usize = from;
    while i < to
        invariant
            from <= i <= to <= src@.len(),
            out@ == src@.subrange(from as int, i as int),
        decreases to - i,
    {
        out.push(src[i]);
        i += 1;
        proof {
            assert(out@ =~= src@.subrange(from as int, i as int));
        }
    }
    out
}

/// Whether a text holds another.
fn text_holds(text: &Vec<char>, needle: &str) -> (r: bool)
    ensures
        r == holds(text@, needle@),
{
    let b = chars_of(needle);
    proof {
        lemma_search_from(text@, needle@, 0);
    }
    match search(text.as_slice(), b.as_slice(), 0) {
        Some(at) => {
            assert(stands_at(text@, needle@, at as int));
            true
        },
        None => {
            assert forall|at: int| !stands_at(text@, needle@, at) by {}
            false
        },
    }
}

/// What a key that is a template literal stands for.
fn parse_template(inner: &Vec<char>) -> (r: Option<KeyPattern>)
    ensures
        match r {
            Some(key) => template_key(inner@) == Some(key@),
            None => template_key(inner@) is None,
        },
{
    let hole = chars_of("${string}");
    let n: usize = hole.len();
    let len: usize = inner.len();
    proof {
        reveal_strlit("${string}");
    }
    if len == n && occurs_at(inner.as_slice(), hole.as_slice(), 0) {
        proof {
            assert(inner@.subrange(0, n as int) =~= inner@);
        }
        return Some(KeyPattern::Any);
    }
    proof {
        if inner@ == hole@ {
            assert(inner@.subrange(0, n as int) =~= inner@);
        }
    }
    if len > n + 1 {
        if occurs_at(inner.as_slice(), hole.as_slice(), 0) && inner[n] == '/' {
            let suffix = copy_of(inner.as_slice(), n + 1, len);
            if !text_holds(&suffix, "${") {
                return Some(KeyPattern::Suffix(string_of(inner.as_slice(), n + 1, len)));
            }
        }
        if occurs_at(inner.as_slice(), hole.as_slice(), len - n) && inner[len - n - 1] == '/' {
            let prefix = copy_of(inner.as_slice(), 0, len - n - 1);
            if !text_holds(&prefix, "${") {
                return Some(KeyPattern::Prefix(string_of(inner.as_slice(), 0, len - n - 1)));
            }
        }
    }
    None
}

/// Whether a stretch is a text.
fn stretch_is(src: &[char], from: usize, to: usize, text: &str) -> (r: bool)
    requires
        from <= to <= src@.len(),
    ensures
        r == (src@.subrange(from as int, to as int) == text@),
{
    let t = chars_of(text);
    if t.len() != to - from {
        return false;
    }
    occurs_at(src, t.as_slice(), from)
}

/// Classifies the type of a key.
fn parse_key(src: &[char], start: usize, end: usize) -> (r: Result<KeyPattern, ParseError>)
    requires
        measurable(src@),
        start <= end <= src@.len(),
    ensures
        match key_of(src@, start as int, end as int) {
            Ok(key) => r is Ok && r->Ok_0@ == key,
            Err(fault) => r is Err && reports(r->Err_0, src@, fault),
        },
{
    if strip_quotes(src, start, end, '\'') || strip_quotes(src, start, end, '"') {
        if holds_char(src, start + 1, end - 1, '$') || holds_char(src, start + 1, end - 1, '\\') {
            return Err(
                err(src, start, "quoted key is not a plain literal".to_owned(), start, end),
            );
        }
        return Ok(KeyPattern::Literal(string_of(src, start + 1, end - 1)));
    }
    if stretch_is(src, start, end, "string") {
        return Ok(KeyPattern::Any);
    }
    if strip_quotes(src, start, end, '`') {
        let inner = copy_of(src, start + 1, end - 1);
        return match parse_template(&inner) {
            Some(key) => Ok(key),
            None => Err(
                err(
                    src,
                    start,
                    "template-literal key is not one of `${string}`, `${string}/suffix`, `prefix/${string}`".to_owned(),
                    start,
                    end,
                ),
            ),
        };
    }
    Err(
        err(
            src,
            start,
            "key is neither a string literal, a template literal, nor `string`".to_owned(),
            start,
            end,
        ),
    )
}

/// The parts of a stretch, or what is wrong with its delimiters.
pub open spec fn parts_of(
    s: Seq<char>,
    start: int,
    end: int,
    seps: Seq<char>,
) -> Result<Seq<(int, int)>, Fault> {
    match split(s, start, end, seps) {
        Split::Parts(parts) => Ok(parts),
        Split::Unopened(at) => Err(
            Fault {
                at,
                message: "unbalanced closing delimiter"@,
                context: s.subrange(start, end),
            },
        ),
        Split::Unclosed => Err(
            Fault {
                at: start,
                message: "unbalanced delimiter"@,
                context: s.subrange(start, end),
            },
        ),
    }
}

/// Splits a stretch at separators outside brackets.
fn parts_in(src: &[char], start: usize, end: usize, seps: &[char]) -> (r: Result<
    Vec<(usize, usize)>,
    ParseError,
>)
    requires
        measurable(src@),
        start <= end <= src@.len(),
    ensures
        match parts_of(src@, start as int, end as int, seps@) {
            Ok(parts) => r is Ok && positions(r->Ok_0@) == parts && r->Ok_0@.len() > 0 && forall|
                k: int,
            |
                0 <= k < r->Ok_0@.len() ==> start <= (#[trigger] r->Ok_0@[k]).0 <= r->Ok_0@[k].1
                    <= end,
            Err(fault) => r is Err && reports(r->Err_0, src@, fault),
        },
{
    match split_top_level(src, start, end, seps) {
        Parts::Found(parts) => {
            proof {
                assert forall|k: int| 0 <= k < parts@.len() implies start <= (
                #[trigger] parts@[k]).0 <= parts@[k].1 <= end by {
                    assert(positions(parts@)[k] == (parts@[k].0 as int, parts@[k].1 as int));
                }
            }
            Ok(parts)
        },
        Parts::Unopened(at) => Err(
            err(src, at, "unbalanced closing delimiter".to_owned(), start, end),
        ),
        Parts::Unclosed => Err(err(src, start, "unbalanced delimiter".to_owned(), start, end)),
    }
}

/// Where the first separator outside brackets stands, if any.
pub open spec fn first_separator(
    s: Seq<char>,
    start: int,
    end: int,
    seps: Seq<char>,
) -> Result<Option<int>, Fault> {
    match parts_of(s, start, end, seps) {
        Ok(parts) => Ok(
            if parts.len() > 1 {
                Some(parts[0].1)
            } else {
                None
            },
        ),
        Err(fault) => Err(fault),
    }
}

/// The position of the first separator outside brackets.
fn find_top_level(src: &[char], start: usize, end: usize, seps: &[char]) -> (r: Result<
    Option<usize>,
    ParseError,
>)
    requires
        measurable(src@),
        start <= end <= src@.len(),
    ensures
        match first_separator(src@, start as int, end as int, seps@) {
            Ok(Some(at)) => r is Ok && r->Ok_0 is Some && r->Ok_0->0 == at && start <= at < end,
            Ok(None) => r is Ok && r->Ok_0 is None,
            Err(fault) => r is Err && reports(r->Err_0, src@, fault),
        },
{
    match parts_in(src, start, end, seps) {
        Ok(parts) => {
            if parts.len() > 1 {
                proof {
                    assert(positions(parts@)[0] == (parts@[0].0 as int, parts@[0].1 as int));
                    crate::codegen::parse::lemma_first_part(
                        src@,
                        start as int,
                        end as int,
                        seps@,
                    );
                }
                Ok(Some(parts[0].1))
            } else {
                Ok(None)
            }
        },
        Err(e) => Err(e),
    }
}

/// The first of several parts ends before the stretch does.
pub proof fn lemma_first_part(s: Seq<char>, start: int, end: int, seps: Seq<char>)
    requires
        0 <= start <= end <= s.len(),
    ensures
        split(s, start, end, seps) matches Split::Parts(parts) ==> (parts.len() > 1 ==> parts[0].1
            < end),
{
    lemma_first_part_from(s, end, seps, start, start, 0, 0, ' ');
}

proof fn lemma_first_part_from(
    s: Seq<char>,
    end: int,
    seps: Seq<char>,
    from: int,
    i: int,
    depth: int,
    angle: int,
    prev: char,
)
    requires
        0 <= from <= i,
        i <= s.len(),
        end <= s.len(),
    ensures
        crate::codegen::scan::split_from(
            s,
            end,
            seps,
            from,
            i,
            depth,
            angle,
            prev,
        ) matches Split::Parts(parts) ==> (parts.len() > 1 ==> parts[0].1 < end),
    decreases s.len() - i,
{
    if i < end && i < s.len() {
        if quotes(s[i]) {
            crate::codegen::scan::lemma_string_from(s, s[i], i + 1);
            lemma_first_part_from(s, end, seps, from, string_end(s, i), depth, angle, '\'');
        } else {
            let c = s[i];
            let depth2 = crate::codegen::scan::depth_after(c, depth);
            let angle2 = if crate::codegen::scan::opens_angle(c, prev) {
                angle + 1
            } else if crate::codegen::scan::closes_angle(c, prev, angle) {
                angle - 1
            } else {
                angle
            };
            let prev2 = if white(c) {
                prev
            } else {
                c
            };
            if depth2 >= 0 && !crate::codegen::scan::separates(c, prev, depth, angle, seps) {
                lemma_first_part_from(s, end, seps, from, i + 1, depth2, angle2, prev2);
            }
        }
    }
}

/// Whether a tuple element is optional: its label, or the element where it has none, ends in a
/// question mark.
pub open spec fn element_optional(s: Seq<char>, from: int, to: int) -> Result<bool, Fault> {
    match first_separator(s, from, to, seq![':']) {
        Ok(colon) => {
            let end = match colon {
                Some(colon) => colon,
                None => to,
            };
            let last = trimmed(s, from, end).1;
            Ok(last > from && s[last - 1] == '?')
        },
        Err(fault) => Err(fault),
    }
}

/// Whether a tuple element is optional.
fn is_optional_element(src: &[char], from: usize, to: usize) -> (r: Result<bool, ParseError>)
    requires
        measurable(src@),
        from <= to <= src@.len(),
    ensures
        match element_optional(src@, from as int, to as int) {
            Ok(b) => r is Ok && r->Ok_0 == b,
            Err(fault) => r is Err && reports(r->Err_0, src@, fault),
        },
{
    let seps: [char; 1] = [':'];
    proof {
        assert(seps@ =~= seq![':']);
    }
    let end: usize = match find_top_level(src, from, to, &seps) {
        Ok(Some(colon)) => colon,
        Ok(None) => to,
        Err(e) => {
            return Err(e);
        },
    };
    let (_, last) = trim_range(src, from, end);
    Ok(last > from && src[last - 1] == '?')
}

/// How many elements the first `k` parts of a tuple have, and how many of them are required.
pub open spec fn tuple_counts(s: Seq<char>, parts: Seq<(int, int)>, k: int) -> Result<
    (nat, nat),
    Fault,
>
    decreases k,
{
    if k <= 0 {
        Ok((0, 0))
    } else {
        match tuple_counts(s, parts, k - 1) {
            Err(fault) => Err(fault),
            Ok((n, required)) => {
                let (from, to) = trimmed(s, parts[k - 1].0, parts[k - 1].1);
                if from == to {
                    Ok((n, required))
                } else if stands_at(s.subrange(from, to), "..."@, 0) {
                    Err(
                        Fault {
                            at: from,
                            message: "a rest element in an args tuple is not understood"@,
                            context: s.subrange(from, to),
                        },
                    )
                } else {
                    match element_optional(s, from, to) {
                        Err(fault) => Err(fault),
                        Ok(optional) => Ok(
                            (
                                n + 1,
                                if optional {
                                    required
                                } else {
                                    n + 1
                                },
                            ),
                        ),
                    }
                }
            },
        }
    }
}

/// Whether a stretch starts with three dots.
fn starts_rest(src: &[char], from: usize, to: usize) -> (r: bool)
    requires
        from <= to <= src@.len(),
    ensures
        r == stands_at(src@.subrange(from as int, to as int), "..."@, 0),
{
    let text = copy_of(src, from, to);
    let dots = chars_of("...");
    occurs_at(text.as_slice(), dots.as_slice(), 0)
}

/// Counts the elements of a tuple, and how many of them are required.
fn count_tuple(src: &[char], parts: &Vec<(usize, usize)>) -> (r: Result<(usize, usize), ParseError>)
    requires
        measurable(src@),
        parts@.len() <= src@.len() + 1,
        forall|k: int|
            0 <= k < parts@.len() ==> (#[trigger] parts@[k]).0 <= parts@[k].1 <= src@.len(),
    ensures
        match tuple_counts(src@, positions(parts@), parts@.len() as int) {
            Ok((n, required)) => r is Ok && r->Ok_0.0 == n && r->Ok_0.1 == required && required <= n
                <= parts@.len(),
            Err(fault) => r is Err && reports(r->Err_0, src@, fault),
        },
{
    let mut n: usize = 0;
    let mut required: usize = 0;
    let mut k: usize = 0;
    let ghost all = positions(parts@);
    while k < parts.len()
        invariant
            measurable(src@),
            all == positions(parts@),
            k <= parts@.len() <= src@.len() + 1,
            required <= n <= k,
            forall|j: int|
                0 <= j < parts@.len() ==> (#[trigger] parts@[j]).0 <= parts@[j].1 <= src@.len(),
            tuple_counts(src@, all, k as int) == Ok::<(nat, nat), Fault>(
                (n as nat, required as nat),
            ),
        decreases parts@.len() - k,
    {
        let (pf, pt) = parts[k];
        proof {
            assert(all[k as int] == (pf as int, pt as int));
        }
        let (from, to) = trim_range(src, pf, pt);
        if from != to {
            if starts_rest(src, from, to) {
                let e = err(
                    src,
                    from,
                    "a rest element in an args tuple is not understood".to_owned(),
                    from,
                    to,
                );
                proof {
                    lemma_counts_fail(src@, all, k + 1, parts@.len() as int);
                }
                return Err(e);
            }
            match is_optional_element(src, from, to) {
                Ok(optional) => {
                    n = n + 1;
                    if !optional {
                        required = n;
                    }
                },
                Err(e) => {
                    proof {
                        lemma_counts_fail(src@, all, k + 1, parts@.len() as int);
                    }
                    return Err(e);
                },
            }
        }
        k += 1;
    }
    Ok((n, required))
}

proof fn lemma_counts_fail(s: Seq<char>, parts: Seq<(int, int)>, k: int, n: int)
    requires
        k <= n,
        tuple_counts(s, parts, k) is Err,
    ensures
        tuple_counts(s, parts, n) == tuple_counts(s, parts, k),
    decreases n - k,
{
    if k < n {
        lemma_counts_fail(s, parts, k, n - 1);
    }
}

/// A list that ascends, with a number in its place; nothing where it is there.
pub open spec fn placed(list: Seq<nat>, x: nat) -> Seq<nat>
    decreases list.len(),
{
    if list.len() == 0 {
        seq![x]
    } else if list[0] == x {
        list
    } else if x < list[0] {
        seq![x] + list
    } else {
        seq![list[0]] + placed(list.subrange(1, list.len() as int), x)
    }
}

/// A list with every number from one bound to another, both included, in its place.
pub open spec fn placed_all(list: Seq<nat>, from: nat, to: nat) -> Seq<nat>
    decreases to + 1 - from,
{
    if from > to {
        list
    } else {
        placed_all(placed(list, from), from + 1, to)
    }
}

/// Whether a list ascends, so that no number occurs twice.
pub open spec fn climbs(list: Seq<nat>) -> bool {
    forall|i: int, j: int| 0 <= i < j < list.len() ==> list[i] < list[j]
}

/// Putting a number in its place keeps a list ascending, and adds that number only.
pub proof fn lemma_placed(list: Seq<nat>, x: nat)
    requires
        climbs(list),
    ensures
        climbs(placed(list, x)),
        forall|y: nat| #[trigger] placed(list, x).contains(y) <==> list.contains(y) || y == x,
    decreases list.len(),
{
    let out = placed(list, x);
    if list.len() > 0 {
        let rest = list.subrange(1, list.len() as int);
        assert(list =~= seq![list[0]] + rest);
        assert forall|y: nat| list.contains(y) <==> rest.contains(y) || y == list[0] by {
            if rest.contains(y) {
                let i = choose|i: int| 0 <= i < rest.len() && rest[i] == y;
                assert(list[i + 1] == y);
            }
            if list.contains(y) && y != list[0] {
                let i = choose|i: int| 0 <= i < list.len() && list[i] == y;
                assert(rest[i - 1] == y);
            }
        }
        if list[0] == x {
        } else if x < list[0] {
            assert forall|i: int, j: int| 0 <= i < j < out.len() implies out[i] < out[j] by {
                if i > 0 {
                    assert(list[i - 1] < list[j - 1]);
                } else if j > 1 {
                    assert(list[0] < list[j - 1]);
                }
            }
            assert forall|y: nat| #[trigger] out.contains(y) <==> list.contains(y) || y == x by {
                if list.contains(y) {
                    let i = choose|i: int| 0 <= i < list.len() && list[i] == y;
                    assert(out[i + 1] == y);
                }
                if y == x {
                    assert(out[0] == y);
                }
                if out.contains(y) && y != x {
                    let i = choose|i: int| 0 <= i < out.len() && out[i] == y;
                    assert(list[i - 1] == y);
                }
            }
        } else {
            assert(climbs(rest)) by {
                assert forall|i: int, j: int| 0 <= i < j < rest.len() implies rest[i] < rest[j] by {
                    assert(list[i + 1] < list[j + 1]);
                }
            }
            lemma_placed(rest, x);
            let tail = placed(rest, x);
            assert forall|y: nat| tail.contains(y) implies list[0] < y by {
                if rest.contains(y) {
                    let i = choose|i: int| 0 <= i < rest.len() && rest[i] == y;
                    assert(list[0] < list[i + 1]);
                }
            }
            assert forall|i: int, j: int| 0 <= i < j < out.len() implies out[i] < out[j] by {
                assert(tail.contains(tail[j - 1]));
                if i > 0 {
                    assert(tail[i - 1] < tail[j - 1]);
                }
            }
            assert forall|y: nat| #[trigger] out.contains(y) <==> list.contains(y) || y == x by {
                if tail.contains(y) {
                    let i = choose|i: int| 0 <= i < tail.len() && tail[i] == y;
                    assert(out[i + 1] == y);
                }
                if y == list[0] {
                    assert(out[0] == y);
                }
                if out.contains(y) && y != list[0] {
                    let i = choose|i: int| 0 <= i < out.len() && out[i] == y;
                    assert(tail[i - 1] == y);
                }
            }
        }
    } else {
        assert(out[0] == x);
    }
}

proof fn lemma_placed_at(list: Seq<nat>, x: nat, at: int)
    requires
        0 <= at <= list.len(),
        forall|i: int| 0 <= i < at ==> list[i] < x,
        at < list.len() ==> x <= list[at],
    ensures
        placed(list, x) == (if at < list.len() && list[at] == x {
            list
        } else {
            list.insert(at, x)
        }),
    decreases list.len(),
{
    if list.len() == 0 {
        assert(list.insert(0, x) =~= seq![x]);
    } else if at == 0 {
        assert(list.insert(0, x) =~= seq![x] + list);
    } else {
        let rest = list.subrange(1, list.len() as int);
        assert forall|i: int| 0 <= i < at - 1 implies rest[i] < x by {
            assert(list[i + 1] < x);
        }
        lemma_placed_at(rest, x, at - 1);
        if at < list.len() && list[at] == x {
            assert(seq![list[0]] + rest =~= list);
        } else {
            assert(seq![list[0]] + rest.insert(at - 1, x) =~= list.insert(at, x));
        }
    }
}

/// Puts a number in its place.
fn place(list: &mut Vec<usize>, x: usize)
    ensures
        nats(final(list)@) == placed(nats(old(list)@), x as nat),
{
    let mut i: usize = 0;
    while i < list.len() && list[i] < x
        invariant
            i <= list@.len(),
            list@ == old(list)@,
            forall|k: int| 0 <= k < i ==> list@[k] < x,
        decreases list@.len() - i,
    {
        i += 1;
    }
    proof {
        lemma_placed_at(nats(list@), x as nat, i as int);
    }
    if i < list.len() && list[i] == x {
        return;
    }
    list.insert(i, x);
    proof {
        assert(nats(list@) =~= nats(old(list)@).insert(i as int, x as nat));
    }
}

/// What the first `k` alternatives of a type amount to: the tuple lengths, and whether one is an
/// unbounded array.
pub open spec fn alternatives(s: Seq<char>, parts: Seq<(int, int)>, k: int) -> Result<
    (Seq<nat>, bool),
    Fault,
>
    decreases k,
{
    if k <= 0 {
        Ok((Seq::empty(), false))
    } else {
        match alternatives(s, parts, k - 1) {
            Err(fault) => Err(fault),
            Ok((arities, variadic)) => {
                let (from, to) = trimmed(s, parts[k - 1].0, parts[k - 1].1);
                let text = s.subrange(from, to);
                if from == to {
                    Ok((arities, variadic))
                } else if s[from] == '[' && s[to - 1] == ']' {
                    match partner(s, from, '[', ']') {
                        None => Err(
                            Fault {
                                at: from,
                                message: "unbalanced `[`"@,
                                context: s.subrange(from, s.len() as int),
                            },
                        ),
                        Some(close) => if close + 1 != to {
                            Err(
                                Fault {
                                    at: from,
                                    message: "trailing text after an args tuple"@,
                                    context: text,
                                },
                            )
                        } else {
                            match parts_of(s, from + 1, to - 1, seq![',']) {
                                Err(fault) => Err(fault),
                                Ok(elements) => match tuple_counts(
                                    s,
                                    elements,
                                    elements.len() as int,
                                ) {
                                    Err(fault) => Err(fault),
                                    Ok((n, required)) => Ok(
                                        (placed_all(arities, required, n), variadic),
                                    ),
                                },
                            }
                        },
                    }
                } else if to - from >= 2 && s[to - 2] == '[' && s[to - 1] == ']' {
                    Ok((arities, true))
                } else {
                    Err(
                        Fault {
                            at: from,
                            message: "args alternative is neither a tuple `[\u{2026}]` nor an array `T[]`"@,
                            context: text,
                        },
                    )
                }
            },
        }
    }
}

/// What an arguments type is, or what is wrong with it.
pub open spec fn args_of(s: Seq<char>, start: int, end: int) -> Result<ArgsView, Fault> {
    match parts_of(s, start, end, seq!['|']) {
        Err(fault) => Err(fault),
        Ok(parts) => match alternatives(s, parts, parts.len() as int) {
            Err(fault) => Err(fault),
            Ok((arities, variadic)) => if arities.len() == 0 && !variadic {
                Err(
                    Fault {
                        at: start,
                        message: "args type has no alternatives"@,
                        context: s.subrange(start, end),
                    },
                )
            } else {
                Ok(ArgsView { source: collapsed(s.subrange(start, end)), arities, variadic })
            },
        },
    }
}

proof fn lemma_alternatives_fail(s: Seq<char>, parts: Seq<(int, int)>, k: int, n: int)
    requires
        k <= n,
        alternatives(s, parts, k) is Err,
    ensures
        alternatives(s, parts, n) == alternatives(s, parts, k),
    decreases n - k,
{
    if k < n {
        lemma_alternatives_fail(s, parts, k, n - 1);
    }
}

/// The numbers of tuple lengths ascend, and none occurs twice.
pub proof fn law_arities_ascend(s: Seq<char>, start: int, end: int)
    ensures
        args_of(s, start, end) matches Ok(args) ==> climbs(args.arities),
{
    match parts_of(s, start, end, seq!['|']) {
        Ok(parts) => lemma_alternatives_climb(s, parts, parts.len() as int),
        Err(_) => {},
    }
}

proof fn lemma_placed_all(list: Seq<nat>, from: nat, to: nat)
    requires
        climbs(list),
    ensures
        climbs(placed_all(list, from, to)),
    decreases to + 1 - from,
{
    if from <= to {
        lemma_placed(list, from);
        lemma_placed_all(placed(list, from), from + 1, to);
    }
}

proof fn lemma_alternatives_climb(s: Seq<char>, parts: Seq<(int, int)>, k: int)
    ensures
        alternatives(s, parts, k) matches Ok((arities, _)) ==> climbs(arities),
    decreases k,
{
    if k > 0 {
        lemma_alternatives_climb(s, parts, k - 1);
        match alternatives(s, parts, k - 1) {
            Ok((arities, variadic)) => {
                let (from, to) = trimmed(s, parts[k - 1].0, parts[k - 1].1);
                match parts_of(s, from + 1, to - 1, seq![',']) {
                    Ok(elements) => match tuple_counts(s, elements, elements.len() as int) {
                        Ok((n, required)) => lemma_placed_all(arities, required, n),
                        Err(_) => {},
                    },
                    Err(_) => {},
                }
            },
            Err(_) => {},
        }
    }
}

/// Reads one tuple: how many elements it has, and how many of them are required.
fn parse_tuple(src: &[char], from: usize, to: usize) -> (r: Result<(usize, usize), ParseError>)
    requires
        measurable(src@),
        from + 2 <= to <= src@.len(),
        src@[from as int] == '[',
    ensures
        match partner(src@, from as int, '[', ']') {
            None => r is Err && reports(
                r->Err_0,
                src@,
                Fault {
                    at: from as int,
                    message: "unbalanced `[`"@,
                    context: src@.subrange(from as int, src@.len() as int),
                },
            ),
            Some(close) => if close + 1 != to {
                r is Err && reports(
                    r->Err_0,
                    src@,
                    Fault {
                        at: from as int,
                        message: "trailing text after an args tuple"@,
                        context: src@.subrange(from as int, to as int),
                    },
                )
            } else {
                match parts_of(src@, from + 1, to - 1, seq![',']) {
                    Err(fault) => r is Err && reports(r->Err_0, src@, fault),
                    Ok(elements) => match tuple_counts(src@, elements, elements.len() as int) {
                        Err(fault) => r is Err && reports(r->Err_0, src@, fault),
                        Ok((n, required)) => r is Ok && r->Ok_0.0 == n && r->Ok_0.1 == required
                            && required <= n <= elements.len(),
                    },
                }
            },
        },
        r is Ok ==> r->Ok_0.0 < usize::MAX,
{
    match balanced(src, from, '[', ']') {
        None => Err(err(src, from, "unbalanced `[`".to_owned(), from, src.len())),
        Some(close) => {
            if close + 1 != to {
                return Err(
                    err(src, from, "trailing text after an args tuple".to_owned(), from, to),
                );
            }
            let seps: [char; 1] = [','];
            proof {
                assert(seps@ =~= seq![',']);
            }
            match parts_in(src, from + 1, to - 1, &seps) {
                Ok(parts) => {
                    proof {
                        lemma_part_count(src@, from + 1, to - 1, seq![',']);
                    }
                    count_tuple(src, &parts)
                },
                Err(e) => Err(e),
            }
        },
    }
}

/// A stretch has at most one part more than characters.
pub proof fn lemma_part_count(s: Seq<char>, start: int, end: int, seps: Seq<char>)
    requires
        0 <= start <= end <= s.len(),
    ensures
        split(s, start, end, seps) matches Split::Parts(parts) ==> parts.len() <= end - start + 1,
{
    lemma_part_count_from(s, end, seps, start, start, 0, 0, ' ');
}

proof fn lemma_part_count_from(
    s: Seq<char>,
    end: int,
    seps: Seq<char>,
    from: int,
    i: int,
    depth: int,
    angle: int,
    prev: char,
)
    requires
        0 <= i <= s.len(),
        end <= s.len(),
    ensures
        crate::codegen::scan::split_from(
            s,
            end,
            seps,
            from,
            i,
            depth,
            angle,
            prev,
        ) matches Split::Parts(parts) ==> parts.len() <= (if i < end {
            end - i + 1
        } else {
            1
        }),
    decreases s.len() - i,
{
    if i < end && i < s.len() {
        if quotes(s[i]) {
            crate::codegen::scan::lemma_string_from(s, s[i], i + 1);
            lemma_part_count_from(s, end, seps, from, string_end(s, i), depth, angle, '\'');
        } else {
            let c = s[i];
            let depth2 = crate::codegen::scan::depth_after(c, depth);
            let angle2 = if crate::codegen::scan::opens_angle(c, prev) {
                angle + 1
            } else if crate::codegen::scan::closes_angle(c, prev, angle) {
                angle - 1
            } else {
                angle
            };
            let prev2 = if white(c) {
                prev
            } else {
                c
            };
            if depth2 >= 0 {
                if crate::codegen::scan::separates(c, prev, depth, angle, seps) {
                    lemma_part_count_from(s, end, seps, i + 1, i + 1, depth2, angle2, prev2);
                } else {
                    lemma_part_count_from(s, end, seps, from, i + 1, depth2, angle2, prev2);
                }
            }
        }
    }
}

/// Reads an arguments type.
fn parse_args(src: &[char], start: usize, end: usize) -> (r: Result<ArgsSpec, ParseError>)
    requires
        measurable(src@),
        start <= end <= src@.len(),
    ensures
        match args_of(src@, start as int, end as int) {
            Ok(args) => r is Ok && r->Ok_0@ == args,
            Err(fault) => r is Err && reports(r->Err_0, src@, fault),
        },
{
    let seps: [char; 1] = ['|'];
    proof {
        assert(seps@ =~= seq!['|']);
    }
    let parts = match parts_in(src, start, end, &seps) {
        Ok(parts) => parts,
        Err(e) => {
            return Err(e);
        },
    };
    let ghost all = positions(parts@);
    let mut arities: Vec<usize> = Vec::new();
    let mut variadic = false;
    let mut k: usize = 0;
    proof {
        assert(nats(arities@) =~= Seq::<nat>::empty());
    }
    while k < parts.len()
        invariant
            measurable(src@),
            start <= end <= src@.len(),
            all == positions(parts@),
            parts_of(src@, start as int, end as int, seq!['|']) == Ok::<Seq<(int, int)>, Fault>(
                all,
            ),
            k <= parts@.len(),
            forall|j: int|
                0 <= j < parts@.len() ==> start <= (#[trigger] parts@[j]).0 <= parts@[j].1 <= end,
            alternatives(src@, all, k as int) == Ok::<(Seq<nat>, bool), Fault>(
                (nats(arities@), variadic),
            ),
        decreases parts@.len() - k,
    {
        let (pf, pt) = parts[k];
        proof {
            assert(all[k as int] == (pf as int, pt as int));
        }
        let (from, to) = trim_range(src, pf, pt);
        if from != to {
            if src[from] == '[' && src[to - 1] == ']' {
                match parse_tuple(src, from, to) {
                    Ok((n, required)) => {
                        let ghost before = nats(arities@);
                        let mut a: usize = required;
                        while a <= n
                            invariant
                                required <= a <= n + 1,
                                n < usize::MAX,
                                placed_all(before, required as nat, n as nat) == placed_all(
                                    nats(arities@),
                                    a as nat,
                                    n as nat,
                                ),
                            decreases n + 1 - a,
                        {
                            place(&mut arities, a);
                            a += 1;
                        }
                    },
                    Err(e) => {
                        proof {
                            lemma_alternatives_fail(src@, all, k + 1, parts@.len() as int);
                        }
                        return Err(e);
                    },
                }
            } else if to - from >= 2 && src[to - 2] == '[' && src[to - 1] == ']' {
                variadic = true;
            } else {
                let e = err(
                    src,
                    from,
                    "args alternative is neither a tuple `[\u{2026}]` nor an array `T[]`".to_owned(),
                    from,
                    to,
                );
                proof {
                    lemma_alternatives_fail(src@, all, k + 1, parts@.len() as int);
                }
                return Err(e);
            }
        }
        k += 1;
    }
    if arities.len() == 0 && !variadic {
        return Err(err(src, start, "args type has no alternatives".to_owned(), start, end));
    }
    let source = normalise(src, start, end);
    proof {
        assert(source@.subrange(0, source@.len() as int) =~= source@);
    }
    Ok(
        ArgsSpec {
            source: string_of(source.as_slice(), 0, source.len()),
            arities,
            variadic,
        },
    )
}

/// What the members of an entry amount to so far.
pub struct EntryState {
    pub key: Option<(KeyView, Seq<char>)>,
    pub args: Option<ArgsView>,
}

/// What the first `k` members of an entry amount to.
pub open spec fn members(s: Seq<char>, parts: Seq<(int, int)>, k: int) -> Result<EntryState, Fault>
    decreases k,
{
    if k <= 0 {
        Ok(EntryState { key: None, args: None })
    } else {
        match members(s, parts, k - 1) {
            Err(fault) => Err(fault),
            Ok(state) => {
                let (from, to) = trimmed(s, parts[k - 1].0, parts[k - 1].1);
                let text = s.subrange(from, to);
                if from == to {
                    Ok(state)
                } else {
                    match first_separator(s, from, to, seq![':']) {
                        Err(fault) => Err(fault),
                        Ok(None) => Err(
                            Fault { at: from, message: "entry member has no `:`"@, context: text },
                        ),
                        Ok(Some(colon)) => member(s, state, from, to, colon),
                    }
                }
            },
        }
    }
}

/// What an entry amounts to after one more member.
pub open spec fn member(s: Seq<char>, state: EntryState, from: int, to: int, colon: int) -> Result<
    EntryState,
    Fault,
> {
    let text = s.subrange(from, to);
    let name = bared(s, from, colon);
    let (vf, vt) = trimmed(s, colon + 1, to);
    if name == "key"@ {
        if state.key is Some {
            Err(Fault { at: from, message: "duplicate `key` member"@, context: text })
        } else {
            match key_of(s, vf, vt) {
                Ok(key) => Ok(EntryState { key: Some((key, s.subrange(vf, vt))), ..state }),
                Err(fault) => Err(fault),
            }
        }
    } else if name == "args"@ {
        if state.args is Some {
            Err(Fault { at: from, message: "duplicate `args` member"@, context: text })
        } else {
            match args_of(s, vf, vt) {
                Ok(args) => Ok(EntryState { args: Some(args), ..state }),
                Err(fault) => Err(fault),
            }
        }
    } else {
        Err(
            Fault {
                at: from,
                message: "unexpected member `"@ + name
                    + "` \u{2014} only `key` and `args` are understood"@,
                context: text,
            },
        )
    }
}

/// What an entry is, or what is wrong with it.
pub open spec fn entry_of(s: Seq<char>, start: int, end: int) -> Result<EventView, Fault> {
    match parts_of(s, start, end, seq![';', ',']) {
        Err(fault) => Err(fault),
        Ok(parts) => match members(s, parts, parts.len() as int) {
            Err(fault) => Err(fault),
            Ok(state) => match state.key {
                None => Err(
                    Fault {
                        at: start,
                        message: "entry has no `key`"@,
                        context: s.subrange(start, end),
                    },
                ),
                Some((key, key_source)) => match state.args {
                    None => Err(
                        Fault {
                            at: start,
                            message: "entry has no `args`"@,
                            context: s.subrange(start, end),
                        },
                    ),
                    Some(args) => Ok(EventView { key, key_source, args }),
                },
            },
        },
    }
}

proof fn lemma_members_fail(s: Seq<char>, parts: Seq<(int, int)>, k: int, n: int)
    requires
        k <= n,
        members(s, parts, k) is Err,
    ensures
        members(s, parts, n) == members(s, parts, k),
    decreases n - k,
{
    if k < n {
        lemma_members_fail(s, parts, k, n - 1);
    }
}

/// What the members of an entry amount to so far.
struct Draft {
    key: Option<(KeyPattern, String)>,
    args: Option<ArgsSpec>,
}

impl Draft {
    spec fn state(&self) -> EntryState {
        EntryState {
            key: match self.key {
                Some((key, source)) => Some((key@, source@)),
                None => None,
            },
            args: match self.args {
                Some(args) => Some(args@),
                None => None,
            },
        }
    }
}

/// Reads one member of an entry.
fn parse_member(src: &[char], draft: Draft, from: usize, to: usize, colon: usize) -> (r: Result<
    Draft,
    ParseError,
>)
    requires
        measurable(src@),
        from <= colon < to <= src@.len(),
    ensures
        match member(src@, draft.state(), from as int, to as int, colon as int) {
            Ok(state) => r is Ok && r->Ok_0.state() == state,
            Err(fault) => r is Err && reports(r->Err_0, src@, fault),
        },
{
    let (nf, nt) = trim_unicode(src, from, colon);
    let (vf, vt) = trim_range(src, colon + 1, to);
    if stretch_is(src, nf, nt, "key") {
        if draft.key.is_some() {
            return Err(err(src, from, "duplicate `key` member".to_owned(), from, to));
        }
        match parse_key(src, vf, vt) {
            Ok(key) => Ok(
                Draft { key: Some((key, string_of(src, vf, vt))), args: draft.args },
            ),
            Err(e) => Err(e),
        }
    } else if stretch_is(src, nf, nt, "args") {
        if draft.args.is_some() {
            return Err(err(src, from, "duplicate `args` member".to_owned(), from, to));
        }
        match parse_args(src, vf, vt) {
            Ok(args) => Ok(Draft { key: draft.key, args: Some(args) }),
            Err(e) => Err(e),
        }
    } else {
        let mut message = concat("unexpected member `", string_of(src, nf, nt).as_str());
        message.append("` \u{2014} only `key` and `args` are understood");
        Err(err(src, from, message, from, to))
    }
}

/// Reads the members of one entry.
fn parse_entry(src: &[char], start: usize, end: usize) -> (r: Result<Event, ParseError>)
    requires
        measurable(src@),
        start <= end <= src@.len(),
    ensures
        match entry_of(src@, start as int, end as int) {
            Ok(event) => r is Ok && r->Ok_0@ == event,
            Err(fault) => r is Err && reports(r->Err_0, src@, fault),
        },
{
    let seps: [char; 2] = [';', ','];
    let colons: [char; 1] = [':'];
    proof {
        assert(seps@ =~= seq![';', ',']);
        assert(colons@ =~= seq![':']);
    }
    let parts = match parts_in(src, start, end, &seps) {
        Ok(parts) => parts,
        Err(e) => {
            return Err(e);
        },
    };
    let ghost all = positions(parts@);
    let mut draft = Draft { key: None, args: None };
    let mut k: usize = 0;
    while k < parts.len()
        invariant
            measurable(src@),
            start <= end <= src@.len(),
            colons@ == seq![':'],
            all == positions(parts@),
            parts_of(src@, start as int, end as int, seq![';', ',']) == Ok::<
                Seq<(int, int)>,
                Fault,
            >(all),
            k <= parts@.len(),
            forall|j: int|
                0 <= j < parts@.len() ==> start <= (#[trigger] parts@[j]).0 <= parts@[j].1 <= end,
            members(src@, all, k as int) == Ok::<EntryState, Fault>(draft.state()),
        decreases parts@.len() - k,
    {
        let (pf, pt) = parts[k];
        proof {
            assert(all[k as int] == (pf as int, pt as int));
        }
        let (from, to) = trim_range(src, pf, pt);
        if from != to {
            match find_top_level(src, from, to, &colons) {
                Ok(Some(colon)) => match parse_member(src, draft, from, to, colon) {
                    Ok(next) => {
                        draft = next;
                    },
                    Err(e) => {
                        proof {
                            lemma_members_fail(src@, all, k + 1, parts@.len() as int);
                        }
                        return Err(e);
                    },
                },
                Ok(None) => {
                    let e = err(src, from, "entry member has no `:`".to_owned(), from, to);
                    proof {
                        lemma_members_fail(src@, all, k + 1, parts@.len() as int);
                    }
                    return Err(e);
                },
                Err(e) => {
                    proof {
                        lemma_members_fail(src@, all, k + 1, parts@.len() as int);
                    }
                    return Err(e);
                },
            }
        }
        k += 1;
    }
    match draft.key {
        None => Err(err(src, start, "entry has no `key`".to_owned(), start, end)),
        Some((key, key_source)) => match draft.args {
            None => Err(err(src, start, "entry has no `args`".to_owned(), start, end)),
            Some(args) => Ok(Event { key, key_source, args }),
        },
    }
}

/// What the first `k` entries of a stream are.
pub open spec fn entries(s: Seq<char>, parts: Seq<(int, int)>, k: int) -> Result<
    Seq<EventView>,
    Fault,
>
    decreases k,
{
    if k <= 0 {
        Ok(Seq::empty())
    } else {
        match entries(s, parts, k - 1) {
            Err(fault) => Err(fault),
            Ok(list) => {
                let (from, to) = trimmed(s, parts[k - 1].0, parts[k - 1].1);
                if from == to {
                    Ok(list)
                } else if s[from] != '{' || s[to - 1] != '}' {
                    Err(
                        Fault {
                            at: from,
                            message: "expected an entry object `{ key: \u{2026}; args: \u{2026} }`"@,
                            context: s.subrange(from, to),
                        },
                    )
                } else {
                    match entry_of(s, from + 1, to - 1) {
                        Err(fault) => Err(fault),
                        Ok(event) => Ok(list.push(event)),
                    }
                }
            },
        }
    }
}

/// What the entries of a stream are, or what is wrong with them.
pub open spec fn entries_of(s: Seq<char>, start: int, end: int) -> Result<Seq<EventView>, Fault> {
    match parts_of(s, start, end, seq![',']) {
        Err(fault) => Err(fault),
        Ok(parts) => match entries(s, parts, parts.len() as int) {
            Err(fault) => Err(fault),
            Ok(list) => if list.len() == 0 {
                Err(
                    Fault {
                        at: start,
                        message: "a stream declared no events"@,
                        context: s.subrange(start, end),
                    },
                )
            } else {
                Ok(list)
            },
        },
    }
}

proof fn lemma_entries_fail(s: Seq<char>, parts: Seq<(int, int)>, k: int, n: int)
    requires
        k <= n,
        entries(s, parts, k) is Err,
    ensures
        entries(s, parts, n) == entries(s, parts, k),
    decreases n - k,
{
    if k < n {
        lemma_entries_fail(s, parts, k, n - 1);
    }
}

/// Reads the list of entries of a stream.
fn parse_entries(src: &[char], start: usize, end: usize) -> (r: Result<Vec<Event>, ParseError>)
    requires
        measurable(src@),
        start <= end <= src@.len(),
    ensures
        match entries_of(src@, start as int, end as int) {
            Ok(list) => r is Ok && event_views(r->Ok_0@) == list,
            Err(fault) => r is Err && reports(r->Err_0, src@, fault),
        },
{
    let seps: [char; 1] = [','];
    proof {
        assert(seps@ =~= seq![',']);
    }
    let parts = match parts_in(src, start, end, &seps) {
        Ok(parts) => parts,
        Err(e) => {
            return Err(e);
        },
    };
    let ghost all = positions(parts@);
    let mut events: Vec<Event> = Vec::new();
    let mut k: usize = 0;
    proof {
        assert(event_views(events@) =~= Seq::<EventView>::empty());
    }
    while k < parts.len()
        invariant
            measurable(src@),
            start <= end <= src@.len(),
            all == positions(parts@),
            parts_of(src@, start as int, end as int, seq![',']) == Ok::<Seq<(int, int)>, Fault>(
                all,
            ),
            k <= parts@.len(),
            forall|j: int|
                0 <= j < parts@.len() ==> start <= (#[trigger] parts@[j]).0 <= parts@[j].1 <= end,
            entries(src@, all, k as int) == Ok::<Seq<EventView>, Fault>(event_views(events@)),
        decreases parts@.len() - k,
    {
        let (pf, pt) = parts[k];
        proof {
            assert(all[k as int] == (pf as int, pt as int));
        }
        let (from, to) = trim_range(src, pf, pt);
        if from != to {
            if src[from] != '{' || src[to - 1] != '}' {
                let e = err(
                    src,
                    from,
                    "expected an entry object `{ key: \u{2026}; args: \u{2026} }`".to_owned(),
                    from,
                    to,
                );
                proof {
                    lemma_entries_fail(src@, all, k + 1, parts@.len() as int);
                }
                return Err(e);
            }
            match parse_entry(src, from + 1, to - 1) {
                Ok(event) => {
                    let ghost before = events@;
                    events.push(event);
                    proof {
                        assert(event_views(events@) =~= event_views(before).push(event@));
                    }
                },
                Err(e) => {
                    proof {
                        lemma_entries_fail(src@, all, k + 1, parts@.len() as int);
                    }
                    return Err(e);
                },
            }
        }
        k += 1;
    }
    if events.len() == 0 {
        return Err(err(src, start, "a stream declared no events".to_owned(), start, end));
    }
    Ok(events)
}

/// Whether a character may stand in a bare name.
pub open spec fn name_char(c: char) -> bool {
    alphanumeric(c) || c == '_' || c == '$'
}

/// Where a bare name ends.
pub open spec fn name_end(s: Seq<char>, i: int, end: int) -> int
    decreases end - i,
{
    if i < end && name_char(s[i]) {
        name_end(s, i + 1, end)
    } else {
        i
    }
}

/// The name that a stream is declared with and the position past it, or what is wrong with it.
pub open spec fn name_of(s: Seq<char>, start: int, end: int) -> Result<(Seq<char>, int), Fault> {
    let c = s[start];
    let text = s.subrange(start, end);
    if quotes(c) {
        let after = string_end(s, start);
        let inner = s.subrange(start + 1, after - 1);
        if c == '`' {
            Err(
                Fault { at: start, message: "a stream name must be a plain string"@, context: text },
            )
        } else if after > end || after < start + 2 {
            Err(Fault { at: start, message: "a stream name is not closed"@, context: text })
        } else if inner.contains('\\') {
            Err(
                Fault {
                    at: start,
                    message: "escapes in a stream name are not supported"@,
                    context: inner,
                },
            )
        } else {
            Ok((inner, after))
        }
    } else {
        let after = name_end(s, start, end);
        if after == start {
            Err(Fault { at: start, message: "expected a stream name"@, context: text })
        } else {
            Ok((s.subrange(start, after), after))
        }
    }
}

/// Reads the name that a stream is declared with: quoted, or a bare identifier.
fn property_name(src: &[char], start: usize, end: usize) -> (r: Result<
    (String, usize),
    ParseError,
>)
    requires
        measurable(src@),
        start < end <= src@.len(),
    ensures
        match name_of(src@, start as int, end as int) {
            Ok((name, after)) => r is Ok && r->Ok_0.0@ == name && r->Ok_0.1 == after && start
                < after <= end,
            Err(fault) => r is Err && reports(r->Err_0, src@, fault),
        },
{
    let c = src[start];
    if is_quote(c) {
        if c == '`' {
            return Err(
                err(src, start, "a stream name must be a plain string".to_owned(), start, end),
            );
        }
        let after: usize = skip_string(src, start);
        if after > end || after - start < 2 {
            return Err(err(src, start, "a stream name is not closed".to_owned(), start, end));
        }
        if holds_char(src, start + 1, after - 1, '\\') {
            return Err(
                err(
                    src,
                    start,
                    "escapes in a stream name are not supported".to_owned(),
                    start + 1,
                    after - 1,
                ),
            );
        }
        return Ok((string_of(src, start + 1, after - 1), after));
    }
    let mut i: usize = start;
    while i < end && (is_alphanumeric(src[i]) || src[i] == '_' || src[i] == '$')
        invariant
            start <= i <= end <= src@.len(),
            name_end(src@, start as int, end as int) == name_end(src@, i as int, end as int),
        decreases end - i,
    {
        i += 1;
    }
    if i == start {
        return Err(err(src, start, "expected a stream name".to_owned(), start, end));
    }
    Ok((string_of(src, start, i), i))
}

/// The position past white space and semicolons.
pub open spec fn past_semicolons(s: Seq<char>, pos: int, end: int) -> int
    decreases s.len() - pos,
    via past_semicolons_decreases
{
    let at = past_white(s, pos);
    if 0 <= pos <= at < end && at < s.len() && s[at] == ';' {
        past_semicolons(s, at + 1, end)
    } else {
        at
    }
}

#[via_fn]
proof fn past_semicolons_decreases(s: Seq<char>, pos: int, end: int) {
}

proof fn lemma_past_semicolons(s: Seq<char>, pos: int, end: int)
    requires
        0 <= pos <= end < s.len(),
        !white(s[end]),
    ensures
        pos <= past_semicolons(s, pos, end) <= end,
    decreases s.len() - pos,
{
    lemma_past_white(s, pos, end);
    let at = past_white(s, pos);
    if at < end && s[at] == ';' {
        lemma_past_semicolons(s, at + 1, end);
    }
}

/// Skips white space and semicolons.
fn skip_semicolons(src: &[char], pos: usize, end: usize) -> (r: usize)
    requires
        pos <= end < src@.len(),
        !white(src@[end as int]),
    ensures
        r == past_semicolons(src@, pos as int, end as int),
        pos <= r <= end,
{
    proof {
        lemma_past_semicolons(src@, pos as int, end as int);
        lemma_past_white(src@, pos as int, end as int);
    }
    let mut at: usize = skip_ws(src, pos);
    let ghost mut begin = pos as int;
    while at < end && src[at] == ';'
        invariant
            pos <= at <= end < src@.len(),
            !white(src@[end as int]),
            0 <= begin <= at,
            at == past_white(src@, begin),
            past_semicolons(src@, pos as int, end as int) == past_semicolons(
                src@,
                begin,
                end as int,
            ),
        decreases end - at,
    {
        proof {
            lemma_past_white(src@, at + 1, end as int);
            begin = at + 1;
        }
        at = skip_ws(src, at + 1);
    }
    at
}

/// The stream that is declared at a position and the position past it, or what is wrong with
/// it.
pub open spec fn stream_at(s: Seq<char>, start: int, end: int) -> Result<(StreamView, int), Fault> {
    match name_of(s, start, end) {
        Err(fault) => Err(fault),
        Ok((name, after)) => {
            let colon = past_white(s, after);
            let open = past_white(s, colon + 1);
            if colon >= end || s[colon] != ':' {
                Err(
                    Fault {
                        at: colon,
                        message: "expected `:` after a stream name"@,
                        context: s.subrange(colon, end),
                    },
                )
            } else if open >= end || s[open] != '[' {
                Err(
                    Fault {
                        at: open,
                        message: "expected a `[` \u{2014} every StreamerEvents value is an array of entries"@,
                        context: s.subrange(open, end),
                    },
                )
            } else {
                match partner(s, open, '[', ']') {
                    None => Err(
                        Fault {
                            at: open,
                            message: "unbalanced `[`"@,
                            context: s.subrange(open, s.len() as int),
                        },
                    ),
                    Some(close) => match entries_of(s, open + 1, close) {
                        Err(fault) => Err(fault),
                        Ok(events) => if close >= end {
                            Err(
                                Fault {
                                    at: open,
                                    message: "unbalanced `[`"@,
                                    context: s.subrange(open, end),
                                },
                            )
                        } else {
                            Ok((StreamView { name, events }, close + 1))
                        },
                    },
                }
            }
        },
    }
}

/// Reads the stream that is declared at a position.
fn parse_stream(src: &[char], start: usize, end: usize) -> (r: Result<(Stream, usize), ParseError>)
    requires
        measurable(src@),
        start < end < src@.len(),
        !white(src@[end as int]),
    ensures
        match stream_at(src@, start as int, end as int) {
            Ok((stream, after)) => r is Ok && r->Ok_0.0@ == stream && r->Ok_0.1 == after && start
                < after <= end,
            Err(fault) => r is Err && reports(r->Err_0, src@, fault),
        },
{
    let (name, after) = match property_name(src, start, end) {
        Ok(found) => found,
        Err(e) => {
            return Err(e);
        },
    };
    proof {
        lemma_past_white(src@, after as int, end as int);
    }
    let colon: usize = skip_ws(src, after);
    if colon >= end || src[colon] != ':' {
        return Err(
            err(src, colon, "expected `:` after a stream name".to_owned(), colon, end),
        );
    }
    proof {
        lemma_past_white(src@, colon + 1, end as int);
    }
    let open: usize = skip_ws(src, colon + 1);
    if open >= end || src[open] != '[' {
        return Err(
            err(
                src,
                open,
                "expected a `[` \u{2014} every StreamerEvents value is an array of entries".to_owned(),
                open,
                end,
            ),
        );
    }
    let close: usize = match balanced(src, open, '[', ']') {
        Some(close) => close,
        None => {
            return Err(err(src, open, "unbalanced `[`".to_owned(), open, src.len()));
        },
    };
    let events = match parse_entries(src, open + 1, close) {
        Ok(events) => events,
        Err(e) => {
            return Err(e);
        },
    };
    if close >= end {
        return Err(err(src, open, "unbalanced `[`".to_owned(), open, end));
    }
    Ok((Stream { name, events }, close + 1))
}

/// The streams that are declared from a position on, or what is wrong with them.
pub open spec fn streams_from(s: Seq<char>, pos: int, end: int) -> Result<Seq<StreamView>, Fault>
    decreases end - pos,
{
    let start = past_semicolons(s, pos, end);
    if start >= end {
        Ok(Seq::empty())
    } else {
        match stream_at(s, start, end) {
            Err(fault) => Err(fault),
            Ok((stream, after)) => if after <= pos || after > end {
                Err(
                    Fault {
                        at: start,
                        message: "unbalanced `[`"@,
                        context: s.subrange(start, end),
                    },
                )
            } else {
                match streams_from(s, after, end) {
                    Err(fault) => Err(fault),
                    Ok(rest) => Ok(seq![stream] + rest),
                }
            },
        }
    }
}

/// The text that opens the interface.
pub open spec fn heading() -> Seq<char> {
    "interface StreamerEvents"@
}

/// What a source without comments declares, or what is wrong with it.
pub open spec fn catalog_of(s: Seq<char>) -> Result<Seq<StreamView>, Fault> {
    let start = search_from(s, heading(), 0);
    let brace = index_from(s, '{', start);
    if start > s.len() {
        Err(
            Fault {
                at: 0,
                message: "`interface StreamerEvents` not found"@,
                context: ""@,
            },
        )
    } else if brace >= s.len() {
        Err(
            Fault {
                at: start,
                message: "no `{` after `interface StreamerEvents`"@,
                context: heading(),
            },
        )
    } else {
        match partner(s, brace, '{', '}') {
            None => Err(
                Fault {
                    at: brace,
                    message: "unbalanced `{`"@,
                    context: s.subrange(brace, s.len() as int),
                },
            ),
            Some(end) => match streams_from(s, brace + 1, end) {
                Err(fault) => Err(fault),
                Ok(streams) => if streams.len() == 0 {
                    Err(
                        Fault {
                            at: brace + 1,
                            message: "`StreamerEvents` parsed as empty"@,
                            context: ""@,
                        },
                    )
                } else {
                    Ok(streams)
                },
            },
        }
    }
}

/// Reads the streams that are declared from a position on.
fn parse_streams(src: &[char], begin: usize, end: usize) -> (r: Result<Vec<Stream>, ParseError>)
    requires
        measurable(src@),
        begin <= end < src@.len(),
        !white(src@[end as int]),
    ensures
        match streams_from(src@, begin as int, end as int) {
            Ok(streams) => r is Ok && stream_views(r->Ok_0@) == streams,
            Err(fault) => r is Err && reports(r->Err_0, src@, fault),
        },
{
    let mut streams: Vec<Stream> = Vec::new();
    let mut pos: usize = begin;
    proof {
        assert(stream_views(streams@) =~= Seq::<StreamView>::empty());
        lemma_front_empty(streams_from(src@, begin as int, end as int));
    }
    loop
        invariant
            measurable(src@),
            begin <= pos <= end < src@.len(),
            !white(src@[end as int]),
            streams_from(src@, begin as int, end as int) == front(
                stream_views(streams@),
                streams_from(src@, pos as int, end as int),
            ),
        decreases end - pos,
    {
        let start: usize = skip_semicolons(src, pos, end);
        if start >= end {
            proof {
                assert(stream_views(streams@) + Seq::<StreamView>::empty() =~= stream_views(
                    streams@,
                ));
            }
            return Ok(streams);
        }
        match parse_stream(src, start, end) {
            Ok((stream, after)) => {
                let ghost was = stream_views(streams@);
                let ghost rest = streams_from(src@, after as int, end as int);
                streams.push(stream);
                proof {
                    assert(stream_views(streams@) =~= was.push(stream@));
                    match rest {
                        Ok(list) => {
                            assert(was + (seq![stream@] + list) =~= was.push(stream@) + list);
                        },
                        Err(_) => {},
                    }
                }
                pos = after;
            },
            Err(e) => {
                return Err(e);
            },
        }
    }
}

/// A result with earlier streams in front.
pub open spec fn front(streams: Seq<StreamView>, rest: Result<Seq<StreamView>, Fault>) -> Result<
    Seq<StreamView>,
    Fault,
> {
    match rest {
        Ok(list) => Ok(streams + list),
        Err(fault) => Err(fault),
    }
}

proof fn lemma_front_empty(rest: Result<Seq<StreamView>, Fault>)
    ensures
        front(Seq::empty(), rest) == rest,
{
    match rest {
        Ok(list) => {
            assert(Seq::<StreamView>::empty() + list =~= list);
        },
        Err(_) => {},
    }
}

proof fn lemma_blanked_len(a: Seq<char>, b: Seq<char>)
    requires
        a.len() == b.len(),
        forall|k: int| 0 <= k < a.len() ==> width(#[trigger] a[k]) == width(b[k]),
    ensures
        utf8_len(a) == utf8_len(b),
    decreases a.len(),
{
    if a.len() > 0 {
        let x = a.subrange(1, a.len() as int);
        let y = b.subrange(1, b.len() as int);
        assert forall|k: int| 0 <= k < x.len() implies width(#[trigger] x[k]) == width(y[k]) by {
            assert(x[k] == a[k + 1]);
            assert(y[k] == b[k + 1]);
        }
        lemma_blanked_len(x, y);
        assert(width(a[0]) == width(b[0]));
    }
}

/// Taking the comments out keeps every byte offset.
pub proof fn law_uncommented_keeps_offsets(s: Seq<char>, at: int)
    requires
        0 <= at <= s.len(),
    ensures
        utf8_len(uncommented(s, 0).subrange(0, at)) == utf8_len(s.subrange(0, at)),
{
    law_uncommented_keeps_positions(s, 0);
    let t = uncommented(s, 0);
    let a = t.subrange(0, at);
    let b = s.subrange(0, at);
    assert forall|k: int| 0 <= k < a.len() implies width(#[trigger] a[k]) == width(b[k]) by {
        assert(t[k] == s[0 + k] || t[k] == crate::codegen::scan::blanked(s[0 + k]));
    }
    lemma_blanked_len(a, b);
}

/// Taking the comments out keeps every line number.
pub proof fn law_uncommented_keeps_lines(s: Seq<char>, at: int)
    requires
        0 <= at <= s.len(),
    ensures
        line_feeds(uncommented(s, 0).subrange(0, at)) == line_feeds(s.subrange(0, at)),
    decreases at,
{
    law_uncommented_keeps_positions(s, 0);
    let t = uncommented(s, 0);
    if at > 0 {
        law_uncommented_keeps_lines(s, at - 1);
        assert(t.subrange(0, at).drop_last() =~= t.subrange(0, at - 1));
        assert(s.subrange(0, at).drop_last() =~= s.subrange(0, at - 1));
        assert(t[at - 1] == s[0 + (at - 1)] || t[at - 1] == crate::codegen::scan::blanked(
            s[0 + (at - 1)],
        ));
    }
}

/// Reads the interface out of a source. The first deviation from the known shape is an error,
/// and its offset and line are those of the source as given, comments included.
pub fn parse(source: &str) -> (r: Result<Catalog, ParseError>)
    requires
        encode_utf8(source@).len() < usize::MAX,
    ensures
        match catalog_of(uncommented(source@, 0)) {
            Ok(streams) => r is Ok && r->Ok_0@ == streams,
            Err(fault) => r is Err && reports(r->Err_0, uncommented(source@, 0), fault),
        },
{
    let chars = chars_of(source);
    let stripped = strip_comments(chars.as_slice());
    let src = stripped.as_slice();
    proof {
        let s = source@;
        law_uncommented_keeps_positions(s, 0);
        law_uncommented_keeps_offsets(s, s.len() as int);
        assert(s.subrange(0, s.len() as int) =~= s);
        assert(src@.subrange(0, src@.len() as int) =~= src@);
        lemma_utf8_len(s);
        lemma_len_bytes(s);
        lemma_search_from(src@, heading(), 0);
    }
    let needle = chars_of("interface StreamerEvents");
    let start: usize = match search(src, needle.as_slice(), 0) {
        Some(start) => start,
        None => {
            return Err(err_about(src, 0, "`interface StreamerEvents` not found", ""));
        },
    };
    proof {
        lemma_index_from(src@, '{', start as int);
    }
    let brace: usize = find_char(src, '{', start);
    if brace >= src.len() {
        return Err(
            err_about(
                src,
                start,
                "no `{` after `interface StreamerEvents`",
                "interface StreamerEvents",
            ),
        );
    }
    let end: usize = match balanced(src, brace, '{', '}') {
        Some(end) => end,
        None => {
            return Err(err(src, brace, "unbalanced `{`".to_owned(), brace, src.len()));
        },
    };
    match parse_streams(src, brace + 1, end) {
        Ok(streams) => {
            if streams.len() == 0 {
                return Err(err_about(src, brace + 1, "`StreamerEvents` parsed as empty", ""));
            }
            Ok(Catalog { streams })
        },
        Err(e) => Err(e),
    }
}

proof fn lemma_len_bytes(s: Seq<char>)
    ensures
        s.len() <= utf8_len(s),
    decreases s.len(),
{
    if s.len() > 0 {
        lemma_len_bytes(s.subrange(1, s.len() as int));
    }
}

/// A key in plain quotes is that literal.
pub proof fn law_a_quoted_key_is_a_literal(s: Seq<char>, start: int, end: int, name: Seq<char>)
    requires
        0 <= start <= end <= s.len(),
        s.subrange(start, end) == seq!['\''] + name + seq!['\''] || s.subrange(start, end)
            == seq!['"'] + name + seq!['"'],
        !name.contains('\''),
        !name.contains('"'),
        !name.contains('$'),
        !name.contains('\\'),
    ensures
        key_of(s, start, end) == Ok::<KeyView, Fault>(KeyView::Literal(name)),
{
    let text = s.subrange(start, end);
    assert(text.subrange(1, text.len() - 1) =~= name);
}

/// A key that is any string is free, plainly or as a template.
pub proof fn law_any_string_is_a_free_key(s: Seq<char>, start: int, end: int)
    requires
        0 <= start <= end <= s.len(),
        s.subrange(start, end) == "string"@ || s.subrange(start, end) == seq!['`'] + "${string}"@
            + seq!['`'],
    ensures
        key_of(s, start, end) == Ok::<KeyView, Fault>(KeyView::Any),
{
    reveal_strlit("string");
    reveal_strlit("${string}");
    let text = s.subrange(start, end);
    if text != "string"@ {
        assert(text.subrange(1, text.len() - 1) =~= "${string}"@);
        assert(!"${string}"@.contains('`'));
    }
}

/// A template that begins with the free part and a stroke fixes what follows; one that ends with a
/// stroke and the free part fixes what comes before.
pub proof fn law_a_template_fixes_its_other_part(
    s: Seq<char>,
    start: int,
    end: int,
    fixed: Seq<char>,
)
    requires
        0 <= start <= end <= s.len(),
        fixed.len() > 0,
        !fixed.contains('`'),
        !holds(fixed, "${"@),
    ensures
        s.subrange(start, end) == seq!['`'] + ("${string}"@ + seq!['/'] + fixed) + seq!['`']
            ==> key_of(s, start, end) == Ok::<KeyView, Fault>(KeyView::Suffix(fixed)),
        s.subrange(start, end) == seq!['`'] + (fixed + seq!['/'] + "${string}"@) + seq!['`']
            ==> key_of(s, start, end) == Ok::<KeyView, Fault>(KeyView::Prefix(fixed)),
{
    reveal_strlit("string");
    reveal_strlit("${string}");
    reveal_strlit("${");
    let text = s.subrange(start, end);
    let hole = "${string}"@;
    let after = hole + seq!['/'] + fixed;
    let before = fixed + seq!['/'] + hole;
    if text == seq!['`'] + after + seq!['`'] {
        assert(text[0] == '`');
        assert(text.subrange(1, text.len() - 1) =~= after);
        assert(after.subrange(0, 9) =~= hole);
        assert(after[9] == '/');
        assert(after.subrange(10, after.len() as int) =~= fixed);
        assert(!after.contains('`')) by {
            assert forall|i: int| 0 <= i < after.len() implies #[trigger] after[i] != '`' by {
                if i >= 10 {
                    assert(after[i] == fixed[i - 10]);
                    assert(fixed.contains(fixed[i - 10]));
                }
            }
        }
        assert(template_key(after) == Some(KeyView::Suffix(fixed)));
    }
    if text == seq!['`'] + before + seq!['`'] {
        assert(text[0] == '`');
        assert(text.subrange(1, text.len() - 1) =~= before);
        let n = before.len() as int;
        assert(before.subrange(n - 9, n) =~= hole);
        assert(before[n - 10] == '/');
        assert(before.subrange(0, n - 10) =~= fixed);
        assert(!before.contains('`')) by {
            assert forall|i: int| 0 <= i < before.len() implies #[trigger] before[i] != '`' by {
                if i < fixed.len() {
                    assert(before[i] == fixed[i]);
                    assert(fixed.contains(fixed[i]));
                }
            }
        }
        if stands_at(before, hole, 0) {
            assert(before.subrange(0, 9) == hole);
            assert(before.subrange(0, 9)[0] == '$');
            assert(before.subrange(0, 9)[1] == '{');
            if fixed.len() == 1 {
                assert(before[1] == '/');
            } else {
                assert(fixed.subrange(0, 2) =~= "${"@);
                assert(stands_at(fixed, "${"@, 0));
            }
            assert(false);
        }
        assert(template_key(before) == Some(KeyView::Prefix(fixed)));
    }
}

/// A number joins the list once, at its place.
pub proof fn law_a_number_joins_a_list_once(list: Seq<nat>, x: nat, y: nat)
    ensures
        placed(list, x).contains(y) <==> list.contains(y) || y == x,
        list.contains(x) && climbs(list) ==> placed(list, x) == list,
    decreases list.len(),
{
    if list.len() == 0 {
        assert(placed(list, x) =~= seq![x]);
        assert(seq![x][0] == x);
    } else {
        let rest = list.subrange(1, list.len() as int);
        law_a_number_joins_a_list_once(rest, x, y);
        assert(list =~= seq![list[0]] + rest);
        assert(list.contains(y) <==> y == list[0] || rest.contains(y)) by {
            lemma_one_in_front(list[0], rest, y);
        }
        lemma_one_in_front(x, list, y);
        lemma_one_in_front(list[0], placed(rest, x), y);
        if list.contains(x) && climbs(list) && list[0] != x {
            lemma_one_in_front(list[0], rest, x);
            assert(rest.contains(x));
            assert(climbs(rest));
            let i = choose|i: int| 0 <= i < rest.len() && rest[i] == x;
            assert(list[i + 1] == x);
            assert(list[0] < x);
        }
    }
}

proof fn lemma_one_in_front(x: nat, list: Seq<nat>, y: nat)
    ensures
        (seq![x] + list).contains(y) <==> y == x || list.contains(y),
{
    let all = seq![x] + list;
    assert(all[0] == x);
    if list.contains(y) {
        let i = choose|i: int| 0 <= i < list.len() && list[i] == y;
        assert(all[i + 1] == y);
    }
    if all.contains(y) && y != x {
        let i = choose|i: int| 0 <= i < all.len() && all[i] == y;
        assert(list[i - 1] == y);
    }
}

/// A tuple takes every number of arguments from those that are required to all.
pub proof fn law_a_tuple_takes_every_number_between(list: Seq<nat>, from: nat, to: nat, y: nat)
    ensures
        placed_all(list, from, to).contains(y) <==> list.contains(y) || from <= y <= to,
    decreases to + 1 - from,
{
    if from <= to {
        law_a_tuple_takes_every_number_between(placed(list, from), from + 1, to, y);
        law_a_number_joins_a_list_once(list, from, y);
    }
}

/// The elements of a tuple, one more at a time: a blank one is none, an optional one may be left
/// out from there on, and any other makes all before it required.
pub proof fn law_how_the_elements_of_a_tuple_count(
    s: Seq<char>,
    parts: Seq<(int, int)>,
    k: int,
    n: nat,
    required: nat,
)
    requires
        0 <= k < parts.len(),
        tuple_counts(s, parts, k) == Ok::<(nat, nat), Fault>((n, required)),
    ensures
        tuple_counts(s, parts, 0) == Ok::<(nat, nat), Fault>((0, 0)),
        ({
            let (from, to) = trimmed(s, parts[k].0, parts[k].1);
            &&& from == to ==> tuple_counts(s, parts, k + 1) == Ok::<(nat, nat), Fault>(
                (n, required),
            )
            &&& from != to && !stands_at(s.subrange(from, to), "..."@, 0) && element_optional(
                s,
                from,
                to,
            ) == Ok::<bool, Fault>(true) ==> tuple_counts(s, parts, k + 1) == Ok::<
                (nat, nat),
                Fault,
            >((n + 1, required))
            &&& from != to && !stands_at(s.subrange(from, to), "..."@, 0) && element_optional(
                s,
                from,
                to,
            ) == Ok::<bool, Fault>(false) ==> tuple_counts(s, parts, k + 1) == Ok::<
                (nat, nat),
                Fault,
            >((n + 1, n + 1))
        }),
{
}

/// An element is optional where its name, or all of it where it has none, ends with a question
/// mark.
pub proof fn law_what_makes_an_element_optional(s: Seq<char>, from: int, to: int, colon: int)
    ensures
        first_separator(s, from, to, seq![':']) == Ok::<Option<int>, Fault>(Some(colon)) ==> (
        element_optional(s, from, to) == Ok::<bool, Fault>(
            trimmed(s, from, colon).1 > from && s[trimmed(s, from, colon).1 - 1] == '?',
        )),
        first_separator(s, from, to, seq![':']) == Ok::<Option<int>, Fault>(None) ==> (
        element_optional(s, from, to) == Ok::<bool, Fault>(
            trimmed(s, from, to).1 > from && s[trimmed(s, from, to).1 - 1] == '?',
        )),
{
}

/// A stream is found by its name, and the first of that name is.
pub proof fn law_a_stream_is_found_by_its_name(streams: Seq<StreamView>, name: Seq<char>, from: int)
    requires
        0 <= from <= streams.len(),
    ensures
        from <= stream_index(streams, name, from) <= streams.len(),
        stream_index(streams, name, from) < streams.len() ==> streams[stream_index(
            streams,
            name,
            from,
        )].name == name,
        forall|i: int|
            from <= i < stream_index(streams, name, from) ==> (#[trigger] streams[i]).name != name,
    decreases streams.len() - from,
{
    if from < streams.len() && streams[from].name != name {
        law_a_stream_is_found_by_its_name(streams, name, from + 1);
    }
}

/// The number of events is the sum over the streams.
pub proof fn law_events_are_summed(streams: Seq<StreamView>, n: int)
    requires
        0 <= n < streams.len(),
    ensures
        events_in(streams, 0) == 0,
        events_in(streams, n + 1) == events_in(streams, n) + streams[n].events.len(),
{
}

/// A fault is reported by its place in bytes, by its line, counted from one, and with what stands
/// there, on one line and cut to 120 bytes.
pub proof fn law_how_a_fault_is_reported(e: ParseError, s: Seq<char>, fault: Fault)
    requires
        reports(e, s, fault),
    ensures
        e.offset == utf8_len(s.subrange(0, fault.at)),
        e.line == line_feeds(s.subrange(0, fault.at)) + 1,
        e.message@ == fault.message,
        e.context@ == shortened(collapsed(fault.context), 120),
{
}

/// A key is modelled as the kind that it is.
pub proof fn law_keys_are_modelled_as_what_they_are(text: String)
    ensures
        KeyPattern::Literal(text)@ == KeyView::Literal(text@),
        KeyPattern::Suffix(text)@ == KeyView::Suffix(text@),
        KeyPattern::Prefix(text)@ == KeyView::Prefix(text@),
        KeyPattern::Any@ == KeyView::Any,
{
}

/// The alternatives of an argument type, one more at a time: an array takes any number of
/// arguments, a tuple every number from its required elements to all of them, and a blank is none.
pub proof fn law_how_alternatives_add_up(
    s: Seq<char>,
    parts: Seq<(int, int)>,
    k: int,
    arities: Seq<nat>,
    variadic: bool,
    elements: Seq<(int, int)>,
    n: nat,
    required: nat,
)
    requires
        0 <= k < parts.len(),
        alternatives(s, parts, k) == Ok::<(Seq<nat>, bool), Fault>((arities, variadic)),
    ensures
        alternatives(s, parts, 0) == Ok::<(Seq<nat>, bool), Fault>((Seq::empty(), false)),
        ({
            let (from, to) = trimmed(s, parts[k].0, parts[k].1);
            let next = alternatives(s, parts, k + 1);
            &&& from == to ==> next == Ok::<(Seq<nat>, bool), Fault>((arities, variadic))
            &&& from != to && s[from] != '[' && to - from >= 2 && s[to - 2] == '[' && s[to - 1]
                == ']' ==> next == Ok::<(Seq<nat>, bool), Fault>((arities, true))
            &&& from != to && s[from] == '[' && s[to - 1] == ']' && partner(s, from, '[', ']')
                == Some(to - 1) && parts_of(s, from + 1, to - 1, seq![',']) == Ok::<
                Seq<(int, int)>,
                Fault,
            >(elements) && tuple_counts(s, elements, elements.len() as int) == Ok::<
                (nat, nat),
                Fault,
            >((n, required)) ==> next == Ok::<(Seq<nat>, bool), Fault>(
                (placed_all(arities, required, n), variadic),
            )
        }),
{
}

/// The members of an entry: the one named `key` says the key and the one named `args` the
/// arguments, each once; there is no other.
pub proof fn law_what_the_members_of_an_entry_say(
    s: Seq<char>,
    state: EntryState,
    from: int,
    to: int,
    colon: int,
)
    ensures
        ({
            let (start, end) = trimmed(s, colon + 1, to);
            let name = bared(s, from, colon);
            let next = member(s, state, from, to, colon);
            &&& name == "key"@ && state.key is None && key_of(s, start, end) is Ok ==> next == Ok::<
                EntryState,
                Fault,
            >(
                EntryState {
                    key: Some((key_of(s, start, end)->Ok_0, s.subrange(start, end))),
                    args: state.args,
                },
            )
            &&& name == "args"@ && state.args is None && args_of(s, start, end) is Ok ==> next
                == Ok::<EntryState, Fault>(
                EntryState { key: state.key, args: Some(args_of(s, start, end)->Ok_0) },
            )
            &&& name == "key"@ && state.key is Some ==> next is Err
            &&& name == "args"@ && state.args is Some ==> next is Err
            &&& name != "key"@ && name != "args"@ ==> next is Err
        }),
{
    reveal_strlit("key");
    reveal_strlit("args");
    assert("key"@.len() == 3 && "args"@.len() == 4);
}

} // verus!

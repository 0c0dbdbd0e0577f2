//! Writing a catalog as source text, and putting it between the markers of a file.
use crate::codegen::parse::{events_in, nats, Catalog, Event, EventView, KeyPattern, KeyView};
use crate::codegen::parse::{Stream, StreamView};
use crate::text::{
    chars_of, concat, decimal_text, decimal_u64, holds, lemma_search_from, search, search_from,
    stands_at, string_of,
};
use vstd::prelude::*;
use vstd::string::*;

verus! {

/// The marker that opens the region which is written.
pub const BEGIN_MARKER: &'static str = "// ---------- GENERATED-BEGIN ----------";

/// The marker that closes the region which is written.
pub const END_MARKER: &'static str = "// ---------- GENERATED-END ----------";

/// The path of the declarations in the server's repository.
pub const UPSTREAM_PATH: &'static str = "packages/ddp-client/src/types/streams.ts";

/// The text that opens the module.
pub const HEAD_TEXT: &'static str = "\n/// The Rocket.Chat stream surface, read straight out of `packages/ddp-client/src/types/streams.ts`.\n///\n/// **Generated. Do not edit by hand** — run `cargo run -p rocketsocket-codegen`,\n/// which rewrites everything between the `GENERATED-BEGIN` and `GENERATED-END`\n/// markers and leaves the rest of this file alone.\n///\n/// This is an *index*, not a decoder. It answers \"does this workspace's server\n/// version declare this (stream, event) pair, and how many positional arguments\n/// does it promise?\" — which is what makes upstream drift visible: a test in\n/// this module asserts that every `(stream, event)` pair [`StreamEvent`] types is\n/// still declared here, so an event that disappears upstream fails the build\n/// instead of quietly becoming one the bot never receives again.\n///\n/// It is *not* the authority on what the server actually sends; see the module\n/// docs for where the declared types and the emit site disagree.\npub mod catalog {\n";

/// The text of the types.
pub const TYPES_TEXT: &'static str = "\n    /// One DDP stream. The wire name is this `name` with a `stream-` prefix.\n    #[derive(Debug, Clone, Copy, PartialEq, Eq)]\n    pub struct StreamSpec {\n        /// Stream name as declared upstream, without the `stream-` prefix.\n        pub name: &'static str,\n        /// Event entries, in declaration order.\n        pub events: &'static [EventSpec],\n    }\n\n    impl StreamSpec {\n        /// The entry matching a concrete `eventName`, in declaration order.\n        ///\n        /// Order is load-bearing: several streams declare a catch-all key after their\n        /// specific ones, and `room-messages` is exactly that case — `__my_messages__` is\n        /// declared before the free-form room-id key, so it must be tried first.\n        #[must_use]\n        pub fn event(&self, key: &str) -> Option<&'static EventSpec> {\n            self.events.iter().find(|event| event.key.matches(key))\n        }\n    }\n\n    /// One `{ key; args }` entry of a stream.\n    #[derive(Debug, Clone, Copy, PartialEq, Eq)]\n    pub struct EventSpec {\n        /// Shape of the `eventName` this entry matches.\n        pub key: KeyPattern,\n        /// Declared tuple lengths, ascending. More than one means the declared type is a\n        /// union of tuples of differing length.\n        ///\n        /// Treat these as a hint, never as a validation rule. Arity has changed across\n        /// server releases — `user-status` grew from 3 to 6 to 8 — and the emit site adds\n        /// elements the declared type does not show.\n        pub arities: &'static [usize],\n        /// Whether an alternative is an unbounded array rather than a fixed tuple.\n        pub variadic: bool,\n        /// The declared `args` type, verbatim, whitespace collapsed.\n        pub args: &'static str,\n    }\n\n    /// The shape of an event key.\n    ///\n    /// Rocket.Chat keys are frequently composite — `<rid>/user-activity`, `<uid>/message` —\n    /// which upstream expresses as a TypeScript template literal type.\n    #[derive(Debug, Clone, Copy, PartialEq, Eq)]\n    #[non_exhaustive]\n    pub enum KeyPattern {\n        /// A fixed key, matched exactly.\n        Literal(&'static str),\n        /// `` `${string}/suffix` `` — free text, a slash, then this suffix.\n        Suffix(&'static str),\n        /// `` `prefix/${string}` `` — this prefix, a slash, then free text.\n        Prefix(&'static str),\n        /// The whole key is free text, typically a room id or a uid.\n        Any,\n    }\n\n    impl KeyPattern {\n        /// Whether a concrete `eventName` matches this pattern.\n        ///\n        /// Composite keys are split on the **first** `/` only: a suffix such as\n        /// `e2e.keyRequest` contains no slash, but a room id never does either, and\n        /// splitting from the left is what the server itself does\n        /// (`const [rid, e] = eventName.split('/')`).\n        #[must_use]\n        pub fn matches(&self, key: &str) -> bool {\n            match *self {\n                Self::Literal(value) => key == value,\n                Self::Suffix(suffix) => {\n                    key.split_once('/').is_some_and(|(head, rest)| !head.is_empty() && rest == suffix)\n                }\n                Self::Prefix(prefix) => {\n                    key.split_once('/').is_some_and(|(head, rest)| head == prefix && !rest.is_empty())\n                }\n                Self::Any => true,\n            }\n        }\n    }\n";

/// The text up to the number of streams.
pub const COMMIT_TEXT: &'static str = "\n    /// Rocket.Chat commit the catalog was generated from.\n    pub const UPSTREAM_COMMIT: &str = \"ea163f56b53b1dd40d49af39e0406397cbd24939\";\n\n    /// `apps/meteor` version at [`UPSTREAM_COMMIT`].\n    pub const UPSTREAM_VERSION: &str = \"8.8.0-develop\";\n\n    /// Number of streams declared upstream.\n    pub const STREAM_COUNT: usize = ";

/// The text up to the number of events.
pub const EVENTS_TEXT: &'static str = ";\n\n    /// Number of `{ key; args }` entries declared upstream, across all streams.\n    pub const EVENT_COUNT: usize = ";

/// The text up to the first stream.
pub const STREAMS_TEXT: &'static str = ";\n\n    /// Every stream, in upstream declaration order.\n    pub const STREAMS: &[StreamSpec] = &[\n";

/// The text after the last stream.
pub const TAIL_TEXT: &'static str = "    ];\n\n    /// Looks up a stream by name, with or without the `stream-` prefix.\n    #[must_use]\n    pub fn stream(name: &str) -> Option<&'static StreamSpec> {\n        let name = name.strip_prefix(\"stream-\").unwrap_or(name);\n        STREAMS.iter().find(|spec| spec.name == name)\n    }\n\n    /// Looks up the entry a `(stream, eventName)` pair resolves to.\n    #[must_use]\n    pub fn event(stream_name: &str, key: &str) -> Option<&'static EventSpec> {\n        stream(stream_name)?.event(key)\n    }\n}\n";

/// The markers could not be found in the file.
#[derive(Debug, Clone, PartialEq, Eq)]
pub struct RenderError(String);

impl RenderError {
    /// What went wrong.
    pub closed spec fn text(&self) -> Seq<char> {
        self.0@
    }

    /// What went wrong.
    pub fn to_text(&self) -> (r: String)
        ensures
            r@ == self.text(),
    {
        self.0.clone()
    }
}

/// A file with the text between its markers replaced, or why it could not be.
pub open spec fn spliced(existing: Seq<char>, text: Seq<char>) -> Result<Seq<char>, Seq<char>> {
    let begin = search_from(existing, BEGIN_MARKER@, 0);
    let end = search_from(existing, END_MARKER@, 0);
    if begin > existing.len() {
        Err("target file has no `"@ + BEGIN_MARKER@ + "` marker"@)
    } else if end > existing.len() {
        Err("target file has no `"@ + END_MARKER@ + "` marker"@)
    } else if end < begin {
        Err("generated-region markers are in the wrong order"@)
    } else {
        Ok(
            existing.subrange(0, begin + BEGIN_MARKER@.len()) + "\n"@ + text + "\n"@
                + existing.subrange(end, existing.len() as int),
        )
    }
}

/// The error for a marker that is missing.
fn missing(marker: &str) -> (r: RenderError)
    ensures
        r.text() == "target file has no `"@ + marker@ + "` marker"@,
{
    let mut out = concat("target file has no `", marker);
    out.append("` marker");
    RenderError(out)
}

/// Replaces the text between the markers. A file that lacks a marker, or has them in the wrong
/// order, was restructured, and it is not guessed where the text belongs.
pub fn splice(existing: &str, generated: &str) -> (r: Result<String, RenderError>)
    ensures
        match spliced(existing@, generated@) {
            Ok(text) => r is Ok && r->Ok_0@ == text,
            Err(why) => r is Err && r->Err_0.text() == why,
        },
{
    let file = chars_of(existing);
    let open = chars_of(BEGIN_MARKER);
    let close = chars_of(END_MARKER);
    proof {
        lemma_search_from(existing@, BEGIN_MARKER@, 0);
        lemma_search_from(existing@, END_MARKER@, 0);
    }
    let begin: usize = match search(file.as_slice(), open.as_slice(), 0) {
        Some(at) => at,
        None => {
            return Err(missing(BEGIN_MARKER));
        },
    };
    let end: usize = match search(file.as_slice(), close.as_slice(), 0) {
        Some(at) => at,
        None => {
            return Err(missing(END_MARKER));
        },
    };
    if end < begin {
        return Err(RenderError("generated-region markers are in the wrong order".to_owned()));
    }
    let size: usize = file.len();
    proof {
        assert(stands_at(existing@, BEGIN_MARKER@, begin as int));
        assert(begin + open@.len() <= size);
    }
    let mut out = string_of(file.as_slice(), 0, begin + open.len());
    out.append("\n");
    out.append(generated);
    out.append("\n");
    out.append(string_of(file.as_slice(), end, file.len()).as_str());
    Ok(out)
}

/// The closing marker is one line.
proof fn lemma_closing_marker_is_one_line()
    ensures
        END_MARKER@.len() == 38,
        forall|k: int| 0 <= k < 38 ==> #[trigger] END_MARKER@[k] != '\n',
{
    reveal_strlit("// ---------- GENERATED-END ----------");
    assert(END_MARKER@.len() == 38);
    assert(END_MARKER@[0] == '/');
    assert(END_MARKER@[1] == '/');
    assert(END_MARKER@[2] == ' ');
    assert(END_MARKER@[3] == '-');
    assert(END_MARKER@[4] == '-');
    assert(END_MARKER@[5] == '-');
    assert(END_MARKER@[6] == '-');
    assert(END_MARKER@[7] == '-');
    assert(END_MARKER@[8] == '-');
    assert(END_MARKER@[9] == '-');
    assert(END_MARKER@[10] == '-');
    assert(END_MARKER@[11] == '-');
    assert(END_MARKER@[12] == '-');
    assert(END_MARKER@[13] == ' ');
    assert(END_MARKER@[14] == 'G');
    assert(END_MARKER@[15] == 'E');
    assert(END_MARKER@[16] == 'N');
    assert(END_MARKER@[17] == 'E');
    assert(END_MARKER@[18] == 'R');
    assert(END_MARKER@[19] == 'A');
    assert(END_MARKER@[20] == 'T');
    assert(END_MARKER@[21] == 'E');
    assert(END_MARKER@[22] == 'D');
    assert(END_MARKER@[23] == '-');
    assert(END_MARKER@[24] == 'E');
    assert(END_MARKER@[25] == 'N');
    assert(END_MARKER@[26] == 'D');
    assert(END_MARKER@[27] == ' ');
    assert(END_MARKER@[28] == '-');
    assert(END_MARKER@[29] == '-');
    assert(END_MARKER@[30] == '-');
    assert(END_MARKER@[31] == '-');
    assert(END_MARKER@[32] == '-');
    assert(END_MARKER@[33] == '-');
    assert(END_MARKER@[34] == '-');
    assert(END_MARKER@[35] == '-');
    assert(END_MARKER@[36] == '-');
    assert(END_MARKER@[37] == '-');
}

/// The opening marker has its slashes in front, and is not the closing one.
proof fn lemma_opening_marker()
    ensures
        BEGIN_MARKER@.len() == 40,
        forall|k: int| 2 <= k < 40 ==> #[trigger] BEGIN_MARKER@[k] != '/',
        END_MARKER@.len() == 38,
        END_MARKER@[0] == '/',
        END_MARKER@[1] == '/',
        BEGIN_MARKER@[24] != END_MARKER@[24],
{
    reveal_strlit("// ---------- GENERATED-BEGIN ----------");
    reveal_strlit("// ---------- GENERATED-END ----------");
    assert(BEGIN_MARKER@.len() == 40);
    assert(END_MARKER@.len() == 38);
    assert(END_MARKER@[0] == '/');
    assert(END_MARKER@[1] == '/');
    assert(END_MARKER@[24] == 'E');
    assert(BEGIN_MARKER@[0] == '/');
    assert(BEGIN_MARKER@[1] == '/');
    assert(BEGIN_MARKER@[2] == ' ');
    assert(BEGIN_MARKER@[3] == '-');
    assert(BEGIN_MARKER@[4] == '-');
    assert(BEGIN_MARKER@[5] == '-');
    assert(BEGIN_MARKER@[6] == '-');
    assert(BEGIN_MARKER@[7] == '-');
    assert(BEGIN_MARKER@[8] == '-');
    assert(BEGIN_MARKER@[9] == '-');
    assert(BEGIN_MARKER@[10] == '-');
    assert(BEGIN_MARKER@[11] == '-');
    assert(BEGIN_MARKER@[12] == '-');
    assert(BEGIN_MARKER@[13] == ' ');
    assert(BEGIN_MARKER@[14] == 'G');
    assert(BEGIN_MARKER@[15] == 'E');
    assert(BEGIN_MARKER@[16] == 'N');
    assert(BEGIN_MARKER@[17] == 'E');
    assert(BEGIN_MARKER@[18] == 'R');
    assert(BEGIN_MARKER@[19] == 'A');
    assert(BEGIN_MARKER@[20] == 'T');
    assert(BEGIN_MARKER@[21] == 'E');
    assert(BEGIN_MARKER@[22] == 'D');
    assert(BEGIN_MARKER@[23] == '-');
    assert(BEGIN_MARKER@[24] == 'B');
    assert(BEGIN_MARKER@[25] == 'E');
    assert(BEGIN_MARKER@[26] == 'G');
    assert(BEGIN_MARKER@[27] == 'I');
    assert(BEGIN_MARKER@[28] == 'N');
    assert(BEGIN_MARKER@[29] == ' ');
    assert(BEGIN_MARKER@[30] == '-');
    assert(BEGIN_MARKER@[31] == '-');
    assert(BEGIN_MARKER@[32] == '-');
    assert(BEGIN_MARKER@[33] == '-');
    assert(BEGIN_MARKER@[34] == '-');
    assert(BEGIN_MARKER@[35] == '-');
    assert(BEGIN_MARKER@[36] == '-');
    assert(BEGIN_MARKER@[37] == '-');
    assert(BEGIN_MARKER@[38] == '-');
    assert(BEGIN_MARKER@[39] == '-');
}

/// The closing marker that is found stands past the opening one.
proof fn lemma_markers_are_apart(existing: Seq<char>, begin: int, end: int)
    requires
        stands_at(existing, BEGIN_MARKER@, begin),
        stands_at(existing, END_MARKER@, end),
        begin <= end,
    ensures
        begin + BEGIN_MARKER@.len() <= end,
{
    lemma_opening_marker();
    if end < begin + BEGIN_MARKER@.len() {
        let d = end - begin;
        let opening = existing.subrange(begin, begin + BEGIN_MARKER@.len());
        let closing = existing.subrange(end, end + END_MARKER@.len());
        assert(closing[0] == opening[d]);
        if d == 0 {
            assert(closing[24] == opening[24]);
        } else if d == 1 {
            assert(closing[1] == opening[2]);
        }
    }
}

/// Splicing again replaces what the first splice put in, as long as that does not hold the
/// closing marker: only the last text counts. So a file that was just written is up to date.
pub proof fn law_the_last_splice_counts(existing: Seq<char>, text: Seq<char>, later: Seq<char>)
    requires
        spliced(existing, text) is Ok,
        !holds(text, END_MARKER@),
    ensures
        spliced(spliced(existing, text)->Ok_0, later) == spliced(existing, later),
{
    lemma_search_from(existing, BEGIN_MARKER@, 0);
    lemma_search_from(existing, END_MARKER@, 0);
    lemma_closing_marker_is_one_line();
    law_splice_keeps_the_rest(existing, text);
    reveal_strlit("\n");
    let out = spliced(existing, text)->Ok_0;
    let begin = search_from(existing, BEGIN_MARKER@, 0);
    let head = begin + BEGIN_MARKER@.len();
    let end = search_from(existing, END_MARKER@, 0);
    lemma_markers_are_apart(existing, begin, end);
    let place = head + text.len() + 2;
    assert(out[head] == '\n');
    assert(out[place - 1] == '\n');
    assert(out.subrange(head + 1, place - 1) =~= text);
    assert(stands_at(out, BEGIN_MARKER@, begin)) by {
        assert(out.subrange(begin, head) =~= existing.subrange(begin, head));
    }
    assert forall|i: int| 0 <= i < begin implies !stands_at(out, BEGIN_MARKER@, i) by {
        let n = BEGIN_MARKER@.len();
        assert(out.subrange(i, i + n) =~= existing.subrange(i, i + n));
        assert(!stands_at(existing, BEGIN_MARKER@, i));
    }
    lemma_search_from(out, BEGIN_MARKER@, 0);
    assert(search_from(out, BEGIN_MARKER@, 0) == begin);
    let n = END_MARKER@.len();
    assert(stands_at(out, END_MARKER@, place)) by {
        assert(out.subrange(place, place + n) =~= existing.subrange(end, end + n));
    }
    assert forall|i: int| 0 <= i < place implies !stands_at(out, END_MARKER@, i) by {
        if stands_at(out, END_MARKER@, i) {
            assert forall|k: int| 0 <= k < n implies out[i + k] == END_MARKER@[k] by {
                assert(out.subrange(i, i + n)[k] == END_MARKER@[k]);
            }
            if i + n <= head {
                assert(out.subrange(i, i + n) =~= existing.subrange(i, i + n));
                assert(!stands_at(existing, END_MARKER@, i));
            } else if i <= head {
                assert(out[i + (head - i)] == END_MARKER@[head - i]);
            } else if i + n <= place - 1 {
                let at = i - head - 1;
                assert(text.subrange(at, at + n) =~= out.subrange(i, i + n));
                assert(stands_at(text, END_MARKER@, at));
            } else {
                assert(out[i + (place - 1 - i)] == END_MARKER@[place - 1 - i]);
            }
        }
    }
    lemma_search_from(out, END_MARKER@, 0);
    assert(search_from(out, END_MARKER@, 0) == place);
    assert(out.subrange(0, head) =~= existing.subrange(0, head));
    assert(out.subrange(place, out.len() as int) =~= existing.subrange(
        end,
        existing.len() as int,
    ));
}

/// What is before the opening marker and from the closing marker on is kept, whatever text goes
/// between.
pub proof fn law_splice_keeps_the_rest(existing: Seq<char>, text: Seq<char>)
    requires
        spliced(existing, text) is Ok,
    ensures
        ({
            let out = spliced(existing, text)->Ok_0;
            let begin = search_from(existing, BEGIN_MARKER@, 0) + BEGIN_MARKER@.len();
            let end = search_from(existing, END_MARKER@, 0);
            let rest = existing.len() - end;
            &&& out.subrange(0, begin) == existing.subrange(0, begin)
            &&& out.subrange(out.len() - rest, out.len() as int) == existing.subrange(
                end,
                existing.len() as int,
            )
            &&& out.len() == begin + text.len() + 2 + rest
        }),
{
    lemma_search_from(existing, BEGIN_MARKER@, 0);
    lemma_search_from(existing, END_MARKER@, 0);
    reveal_strlit("\n");
    let out = spliced(existing, text)->Ok_0;
    let begin = search_from(existing, BEGIN_MARKER@, 0) + BEGIN_MARKER@.len();
    let end = search_from(existing, END_MARKER@, 0);
    let rest = existing.len() - end;
    assert(out.subrange(0, begin) =~= existing.subrange(0, begin));
    assert(out.subrange(out.len() - rest, out.len() as int) =~= existing.subrange(
        end,
        existing.len() as int,
    ));
}

/// A character within a string literal.
pub open spec fn escaped_char(c: char) -> Seq<char> {
    if c == '"' {
        seq!['\\', '"']
    } else if c == '\\' {
        seq!['\\', '\\']
    } else {
        seq![c]
    }
}

/// A text within a string literal.
pub open spec fn escaped(s: Seq<char>) -> Seq<char>
    decreases s.len(),
{
    if s.len() == 0 {
        Seq::empty()
    } else {
        escaped(s.drop_last()) + escaped_char(s.last())
    }
}

/// A string literal.
pub open spec fn quoted(s: Seq<char>) -> Seq<char> {
    seq!['"'] + escaped(s) + seq!['"']
}

/// Writes a string literal.
pub fn quote(value: &str) -> (r: String)
    ensures
        r@ == quoted(value@),
{
    let chars = chars_of(value);
    let mut out = String::new();
    out.push('"');
    let mut i: usize = 0;
    proof {
        assert(value@.subrange(0, 0) =~= Seq::<char>::empty());
        assert(out@ =~= seq!['"'] + escaped(value@.subrange(0, 0)));
    }
    while i < chars.len()
        invariant
            chars@ == value@,
            i <= value@.len(),
            out@ == seq!['"'] + escaped(value@.subrange(0, i as int)),
        decreases value@.len() - i,
    {
        let c = chars[i];
        let ghost before = out@;
        if c == '"' || c == '\\' {
            out.push('\\');
        }
        out.push(c);
        i += 1;
        proof {
            let part = value@.subrange(0, i as int);
            assert(part.drop_last() =~= value@.subrange(0, i - 1));
            assert(part.last() == c);
            assert(out@ =~= before + escaped_char(c));
            assert(out@ =~= seq!['"'] + escaped(part));
        }
    }
    out.push('"');
    proof {
        assert(value@.subrange(0, value@.len() as int) =~= value@);
        assert(out@ =~= quoted(value@));
    }
    out
}

/// Numbers in decimal, with a separator between.
pub open spec fn listed(numbers: Seq<nat>, separator: Seq<char>) -> Seq<char>
    decreases numbers.len(),
{
    if numbers.len() == 0 {
        Seq::empty()
    } else if numbers.len() == 1 {
        decimal_text(numbers[0] as int)
    } else {
        listed(numbers.drop_last(), separator) + separator + decimal_text(numbers.last() as int)
    }
}

/// Writes numbers in decimal, with a separator between.
pub(crate) fn list_numbers(numbers: &Vec<usize>, separator: &str) -> (r: String)
    ensures
        r@ == listed(nats(numbers@), separator@),
{
    let ghost all = nats(numbers@);
    let mut out = String::new();
    let mut i: usize = 0;
    proof {
        assert(out@ =~= listed(all.subrange(0, 0), separator@));
    }
    while i < numbers.len()
        invariant
            all == nats(numbers@),
            i <= numbers@.len(),
            out@ == listed(all.subrange(0, i as int), separator@),
        decreases numbers@.len() - i,
    {
        let ghost part = all.subrange(0, i + 1);
        proof {
            assert(part.drop_last() =~= all.subrange(0, i as int));
            assert(part.last() == numbers@[i as int]);
        }
        let ghost before = out@;
        if i > 0 {
            out.append(separator);
        }
        out.append(decimal_u64(numbers[i] as u64).as_str());
        proof {
            if i == 0 {
                assert(before =~= Seq::<char>::empty());
                assert(out@ =~= decimal_text(part[0] as int));
            }
        }
        i += 1;
    }
    proof {
        assert(all.subrange(0, all.len() as int) =~= all);
    }
    out
}

/// A key as source text.
pub open spec fn key_text(key: KeyView) -> Seq<char> {
    match key {
        KeyView::Literal(v) => "KeyPattern::Literal("@ + quoted(v) + ")"@,
        KeyView::Suffix(v) => "KeyPattern::Suffix("@ + quoted(v) + ")"@,
        KeyView::Prefix(v) => "KeyPattern::Prefix("@ + quoted(v) + ")"@,
        KeyView::Any => "KeyPattern::Any"@,
    }
}

/// Writes a key as source text.
fn write_key(key: &KeyPattern) -> (r: String)
    ensures
        r@ == key_text(key@),
{
    let (open, value) = match key {
        KeyPattern::Literal(v) => ("KeyPattern::Literal(", v),
        KeyPattern::Suffix(v) => ("KeyPattern::Suffix(", v),
        KeyPattern::Prefix(v) => ("KeyPattern::Prefix(", v),
        KeyPattern::Any => {
            return "KeyPattern::Any".to_owned();
        },
    };
    let mut out = concat(open, quote(value.as_str()).as_str());
    out.append(")");
    out
}

/// The source text of a key names the kind of the key, with its fixed part as a string literal.
pub proof fn law_a_key_is_rendered_as_its_kind(v: Seq<char>)
    ensures
        key_text(KeyView::Literal(v)) == "KeyPattern::Literal("@ + quoted(v) + ")"@,
        key_text(KeyView::Suffix(v)) == "KeyPattern::Suffix("@ + quoted(v) + ")"@,
        key_text(KeyView::Prefix(v)) == "KeyPattern::Prefix("@ + quoted(v) + ")"@,
        key_text(KeyView::Any) == "KeyPattern::Any"@,
{
}

/// A string literal stands in quotes. A quote or a backslash in it has a backslash before it, and
/// every other character stands for itself.
pub proof fn law_a_literal_is_quoted(a: Seq<char>, c: char)
    ensures
        quoted(Seq::empty()) == seq!['"', '"'],
        quoted(a).first() == '"',
        quoted(a).last() == '"',
        c == '"' || c == '\\' ==> quoted(a.push(c)) == quoted(a).drop_last() + seq!['\\', c, '"'],
        c != '"' && c != '\\' ==> quoted(a.push(c)) == quoted(a).drop_last() + seq![c, '"'],
{
    assert(a.push(c).drop_last() =~= a);
    assert(quoted(a).drop_last() =~= seq!['"'] + escaped(a));
    assert(escaped(Seq::<char>::empty()) =~= Seq::<char>::empty());
    assert(quoted(Seq::empty()) =~= seq!['"', '"']);
    if c == '"' || c == '\\' {
        assert(quoted(a.push(c)) =~= quoted(a).drop_last() + seq!['\\', c, '"']);
    } else {
        assert(quoted(a.push(c)) =~= quoted(a).drop_last() + seq![c, '"']);
    }
}

/// Numbers are listed in order, each in decimal, with the separator between two and nowhere else.
pub proof fn law_numbers_are_listed_in_order(numbers: Seq<nat>, n: nat, separator: Seq<char>)
    ensures
        listed(Seq::empty(), separator) == Seq::<char>::empty(),
        listed(seq![n], separator) == decimal_text(n as int),
        numbers.len() > 0 ==> listed(numbers.push(n), separator) == listed(numbers, separator)
            + separator + decimal_text(n as int),
{
    assert(numbers.push(n).drop_last() =~= numbers);
}

/// Whether something holds, as source text.
pub open spec fn bool_text(b: bool) -> Seq<char> {
    if b {
        "true"@
    } else {
        "false"@
    }
}

/// An entry as source text.
pub open spec fn event_text(e: EventView) -> Seq<char> {
    "                EventSpec {\n                    key: "@ + key_text(e.key)
        + ",\n                    arities: &["@ + listed(e.args.arities, ", "@)
        + "],\n                    variadic: "@ + bool_text(e.args.variadic)
        + ",\n                    args: "@ + quoted(e.args.source) + ",\n                },\n"@
}

/// Writes an entry as source text.
fn write_event(out: &mut String, event: &Event)
    ensures
        final(out)@ == old(out)@ + event_text(event@),
{
    out.append("                EventSpec {\n                    key: ");
    out.append(write_key(&event.key).as_str());
    out.append(",\n                    arities: &[");
    out.append(list_numbers(&event.args.arities, ", ").as_str());
    out.append("],\n                    variadic: ");
    out.append(
        if event.args.variadic {
            "true"
        } else {
            "false"
        },
    );
    out.append(",\n                    args: ");
    out.append(quote(event.args.source.as_str()).as_str());
    out.append(",\n                },\n");
    proof {
        assert(out@ =~= old(out)@ + event_text(event@));
    }
}

/// An entry is rendered with its key, how many arguments it takes, whether that is open, and the
/// declared type, each under the name of its field.
pub proof fn law_an_entry_is_rendered_in_full(e: EventView)
    ensures
        event_text(e) == "                EventSpec {\n                    key: "@ + key_text(e.key)
            + ",\n                    arities: &["@ + listed(e.args.arities, ", "@)
            + "],\n                    variadic: "@ + (if e.args.variadic {
            "true"@
        } else {
            "false"@
        }) + ",\n                    args: "@ + quoted(e.args.source)
            + ",\n                },\n"@,
{
}

/// The first `n` entries as source text.
pub open spec fn events_text(events: Seq<EventView>, n: int) -> Seq<char>
    decreases n,
{
    if n <= 0 {
        Seq::empty()
    } else {
        events_text(events, n - 1) + event_text(events[n - 1])
    }
}

/// A stream as source text.
pub open spec fn stream_text(s: StreamView) -> Seq<char> {
    "        StreamSpec {\n            name: "@ + quoted(s.name) + ",\n            events: &[\n"@
        + events_text(s.events, s.events.len() as int) + "            ],\n        },\n"@
}

/// Writes a stream as source text.
fn write_stream(out: &mut String, stream: &Stream)
    ensures
        final(out)@ == old(out)@ + stream_text(stream@),
{
    out.append("        StreamSpec {\n            name: ");
    out.append(quote(stream.name.as_str()).as_str());
    out.append(",\n            events: &[\n");
    let ghost before = out@;
    let ghost events = stream@.events;
    let mut i: usize = 0;
    proof {
        assert(out@ =~= before + events_text(events, 0));
    }
    while i < stream.events.len()
        invariant
            i <= stream.events@.len(),
            events == stream@.events,
            out@ == before + events_text(events, i as int),
        decreases stream.events@.len() - i,
    {
        let ghost was = out@;
        write_event(out, &stream.events[i]);
        proof {
            assert(events[i as int] == stream.events@[i as int]@);
            assert(out@ =~= before + events_text(events, i + 1));
        }
        i += 1;
    }
    out.append("            ],\n        },\n");
    proof {
        assert(out@ =~= old(out)@ + stream_text(stream@));
    }
}

/// The first `n` streams as source text.
pub open spec fn streams_text(streams: Seq<StreamView>, n: int) -> Seq<char>
    decreases n,
{
    if n <= 0 {
        Seq::empty()
    } else {
        streams_text(streams, n - 1) + stream_text(streams[n - 1])
    }
}

/// A catalog as source text.
pub open spec fn catalog_text(streams: Seq<StreamView>) -> Seq<char> {
    HEAD_TEXT@ + TYPES_TEXT@ + COMMIT_TEXT@ + decimal_text(streams.len() as int) + EVENTS_TEXT@
        + decimal_text(events_in(streams, streams.len() as int) as int) + STREAMS_TEXT@
        + streams_text(streams, streams.len() as int) + TAIL_TEXT@
}

/// Every stream is rendered under its name, with its entries in the order of the declaration.
pub proof fn law_a_stream_lists_its_entries_in_order(s: StreamView, e: EventView)
    ensures
        stream_text(StreamView { events: Seq::empty(), ..s })
            == "        StreamSpec {\n            name: "@ + quoted(s.name)
            + ",\n            events: &[\n"@ + "            ],\n        },\n"@,
        events_text(s.events.push(e), s.events.len() as int + 1) == events_text(
            s.events,
            s.events.len() as int,
        ) + event_text(e),
        stream_text(s) == "        StreamSpec {\n            name: "@ + quoted(s.name)
            + ",\n            events: &[\n"@ + events_text(s.events, s.events.len() as int)
            + "            ],\n        },\n"@,
{
    let none: Seq<EventView> = Seq::empty();
    assert(events_text(none, 0) =~= Seq::<char>::empty());
    assert(stream_text(StreamView { events: none, ..s })
        =~= "        StreamSpec {\n            name: "@ + quoted(s.name)
        + ",\n            events: &[\n"@ + "            ],\n        },\n"@);
    lemma_events_prefix(s.events, s.events.push(e), s.events.len() as int);
}

proof fn lemma_events_prefix(a: Seq<EventView>, b: Seq<EventView>, n: int)
    requires
        n <= a.len() <= b.len(),
        forall|i: int| 0 <= i < a.len() ==> #[trigger] a[i] == b[i],
    ensures
        events_text(a, n) == events_text(b, n),
    decreases n,
{
    if n > 0 {
        lemma_events_prefix(a, b, n - 1);
        assert(a[n - 1] == b[n - 1]);
    }
}

/// The catalog is rendered whole: how many streams and entries there are, and each stream, in the
/// order of the declaration.
pub proof fn law_the_catalog_lists_every_stream_in_order(streams: Seq<StreamView>, s: StreamView)
    ensures
        catalog_text(streams) == HEAD_TEXT@ + TYPES_TEXT@ + COMMIT_TEXT@ + decimal_text(
            streams.len() as int,
        ) + EVENTS_TEXT@ + decimal_text(events_in(streams, streams.len() as int) as int)
            + STREAMS_TEXT@ + streams_text(streams, streams.len() as int) + TAIL_TEXT@,
        streams_text(Seq::empty(), 0) == Seq::<char>::empty(),
        streams_text(streams.push(s), streams.len() as int + 1) == streams_text(
            streams,
            streams.len() as int,
        ) + stream_text(s),
        events_in(streams.push(s), streams.len() as int + 1) == events_in(streams, streams.len() as int)
            + s.events.len(),
{
    lemma_streams_prefix(streams, streams.push(s), streams.len() as int);
}

proof fn lemma_streams_prefix(a: Seq<StreamView>, b: Seq<StreamView>, n: int)
    requires
        n <= a.len() <= b.len(),
        forall|i: int| 0 <= i < a.len() ==> #[trigger] a[i] == b[i],
    ensures
        streams_text(a, n) == streams_text(b, n),
        events_in(a, n) == events_in(b, n),
    decreases n,
{
    if n > 0 {
        lemma_streams_prefix(a, b, n - 1);
        assert(a[n - 1] == b[n - 1]);
    }
}

/// Writes a catalog as source text.
pub fn render_catalog(catalog: &Catalog) -> (r: String)
    requires
        events_in(catalog@, catalog@.len() as int) <= usize::MAX,
    ensures
        r@ == catalog_text(catalog@),
{
    let mut out = concat(HEAD_TEXT, TYPES_TEXT);
    out.append(COMMIT_TEXT);
    out.append(decimal_u64(catalog.streams.len() as u64).as_str());
    out.append(EVENTS_TEXT);
    out.append(decimal_u64(catalog.event_count() as u64).as_str());
    out.append(STREAMS_TEXT);
    let ghost before = out@;
    let ghost streams = catalog@;
    let mut i: usize = 0;
    proof {
        assert(out@ =~= before + streams_text(streams, 0));
    }
    while i < catalog.streams.len()
        invariant
            i <= catalog.streams@.len(),
            streams == catalog@,
            out@ == before + streams_text(streams, i as int),
        decreases catalog.streams@.len() - i,
    {
        write_stream(&mut out, &catalog.streams[i]);
        proof {
            assert(streams[i as int] == catalog.streams@[i as int]@);
            assert(out@ =~= before + streams_text(streams, i + 1));
        }
        i += 1;
    }
    out.append(TAIL_TEXT);
    out
}

} // verus!

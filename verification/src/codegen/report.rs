//! What the generator is asked to do, and what it says it has read.
use crate::codegen::parse::{events_in, Catalog, Event, EventView, KeyPattern, KeyView, Stream};
use crate::codegen::parse::StreamView;
use crate::codegen::render::{listed, UPSTREAM_PATH};
use crate::model::catalog::{UPSTREAM_COMMIT, UPSTREAM_VERSION};
use crate::text::{chars_of, concat, decimal_text, decimal_u64, str_eq};
use vstd::prelude::*;
use vstd::string::*;
use vstd::utf8::*;

verus! {

/// What the generator is asked to do.
#[derive(Debug, Clone, Copy, PartialEq, Eq, Structural)]
pub struct Options {
    /// Fail where the file is out of date, and write nothing.
    pub check: bool,
    /// Only say what was read.
    pub report_only: bool,
}

/// Whether an argument is known.
pub open spec fn known_option(arg: Seq<char>) -> bool {
    arg == "--check"@ || arg == "--report-only"@
}

/// Whether an argument is given.
pub open spec fn given(args: Seq<String>, arg: Seq<char>) -> bool {
    exists|i: int| 0 <= i < args.len() && (#[trigger] args[i])@ == arg
}

/// Whether a text is the first argument that is not known.
pub open spec fn first_unknown(args: Seq<String>, arg: Seq<char>) -> bool {
    exists|i: int|
        0 <= i < args.len() && (#[trigger] args[i])@ == arg && !known_option(arg) && forall|k: int|
            0 <= k < i ==> known_option((#[trigger] args[k])@)
}

/// Whether every argument is known.
pub open spec fn all_known(args: Seq<String>) -> bool {
    forall|i: int| 0 <= i < args.len() ==> known_option((#[trigger] args[i])@)
}

/// Reads the arguments; the first that is not known is handed back.
pub fn parse_options(args: &Vec<String>) -> (r: Result<Options, String>)
    ensures
        match r {
            Ok(options) => all_known(args@) && options.check == given(args@, "--check"@)
                && options.report_only == given(args@, "--report-only"@),
            Err(bad) => first_unknown(args@, bad@),
        },
{
    let mut options = Options { check: false, report_only: false };
    let mut i: usize = 0;
    while i < args.len()
        invariant
            i <= args@.len(),
            forall|k: int| 0 <= k < i ==> known_option((#[trigger] args@[k])@),
            options.check == given(args@.subrange(0, i as int), "--check"@),
            options.report_only == given(args@.subrange(0, i as int), "--report-only"@),
        decreases args@.len() - i,
    {
        proof {
            lemma_given(args@, i as int, "--check"@);
            lemma_given(args@, i as int, "--report-only"@);
        }
        let check = str_eq(args[i].as_str(), "--check");
        let report_only = str_eq(args[i].as_str(), "--report-only");
        options.check = options.check || check;
        options.report_only = options.report_only || report_only;
        if !check && !report_only {
            let bad = args[i].clone();
            assert(args@[i as int]@ == bad@);
            assert(first_unknown(args@, bad@));
            return Err(bad);
        }
        i += 1;
    }
    proof {
        assert(args@.subrange(0, args@.len() as int) =~= args@);
    }
    Ok(options)
}

proof fn lemma_given(args: Seq<String>, i: int, arg: Seq<char>)
    requires
        0 <= i < args.len(),
    ensures
        given(args.subrange(0, i + 1), arg) <==> given(args.subrange(0, i), arg) || args[i]@ == arg,
{
    let part = args.subrange(0, i);
    let more = args.subrange(0, i + 1);
    if given(part, arg) {
        let k = choose|k: int| 0 <= k < part.len() && (#[trigger] part[k])@ == arg;
        assert(more[k]@ == arg);
    }
    if args[i]@ == arg {
        assert(more[i]@ == arg);
    }
    if given(more, arg) && args[i]@ != arg {
        let k = choose|k: int| 0 <= k < more.len() && (#[trigger] more[k])@ == arg;
        assert(part[k]@ == arg);
    }
}

/// What is done with a file.
#[derive(Debug, Clone, Copy, PartialEq, Eq, Structural)]
pub enum Verdict {
    /// It is up to date.
    Fresh,
    /// It is out of date, and must not be written.
    Stale,
    /// It is out of date, and is written.
    Write,
}

/// Decides what is done with a file, given its text and the text that it should have.
pub fn verdict(existing: &str, updated: &str, check: bool) -> (r: Verdict)
    ensures
        r == (if existing@ == updated@ {
            Verdict::Fresh
        } else if check {
            Verdict::Stale
        } else {
            Verdict::Write
        }),
{
    if str_eq(existing, updated) {
        Verdict::Fresh
    } else if check {
        Verdict::Stale
    } else {
        Verdict::Write
    }
}

/// A number of spaces.
pub open spec fn spaces(n: int) -> Seq<char>
    decreases n,
{
    if n <= 0 {
        Seq::empty()
    } else {
        spaces(n - 1).push(' ')
    }
}

/// Appends spaces.
fn push_spaces(out: &mut String, n: usize)
    ensures
        final(out)@ == old(out)@ + spaces(n as int),
{
    let mut i: usize = 0;
    proof {
        assert(out@ =~= old(out)@ + spaces(0));
    }
    while i < n
        invariant
            i <= n,
            out@ == old(out)@ + spaces(i as int),
        decreases n - i,
    {
        out.push(' ');
        i += 1;
        proof {
            assert(out@ =~= old(out)@ + spaces(i as int));
        }
    }
}

/// The widest of the first `n` names, in bytes.
pub open spec fn widest(streams: Seq<StreamView>, n: int) -> nat
    decreases n,
{
    if n <= 0 {
        0
    } else {
        let rest = widest(streams, n - 1);
        let own = encode_utf8(streams[n - 1].name).len();
        if own > rest {
            own
        } else {
            rest
        }
    }
}

/// How many of the first `n` entries have a key with a fixed part and a free one.
pub open spec fn composite(events: Seq<EventView>, n: int) -> nat
    decreases n,
{
    if n <= 0 {
        0
    } else {
        composite(events, n - 1) + (if events[n - 1].key is Suffix || events[n - 1].key is Prefix {
            1nat
        } else {
            0nat
        })
    }
}

/// How many of the first `n` entries have a key that is free altogether.
pub open spec fn free(events: Seq<EventView>, n: int) -> nat
    decreases n,
{
    if n <= 0 {
        0
    } else {
        free(events, n - 1) + (if events[n - 1].key is Any {
            1nat
        } else {
            0nat
        })
    }
}

/// The arity of an entry: a star where it is unbounded.
pub open spec fn arity_text(e: EventView) -> Seq<char> {
    if e.args.variadic {
        "*"@
    } else {
        listed(e.args.arities, "/"@)
    }
}

/// The arities of the first `n` entries.
pub open spec fn arities_text(events: Seq<EventView>, n: int) -> Seq<char>
    decreases n,
{
    if n <= 0 {
        Seq::empty()
    } else if n == 1 {
        arity_text(events[0])
    } else {
        arities_text(events, n - 1) + " "@ + arity_text(events[n - 1])
    }
}

/// The line of a stream.
pub open spec fn stream_line(s: StreamView, width: nat) -> Seq<char> {
    let count = decimal_text(s.events.len() as int);
    let n = s.events.len() as int;
    "  stream-"@ + s.name + spaces(width - s.name.len()) + "  "@ + spaces(2 - count.len()) + count
        + " events  ("@ + decimal_text(composite(s.events, n) as int) + " composite, "@
        + decimal_text(free(s.events, n) as int) + " free)  arity "@ + arities_text(s.events, n)
        + "\n"@
}

/// The lines of the first `n` streams.
pub open spec fn stream_lines(streams: Seq<StreamView>, width: nat, n: int) -> Seq<char>
    decreases n,
{
    if n <= 0 {
        Seq::empty()
    } else {
        stream_lines(streams, width, n - 1) + stream_line(streams[n - 1], width)
    }
}

/// What the generator says it has read.
pub open spec fn report_of(streams: Seq<StreamView>) -> Seq<char> {
    let n = streams.len() as int;
    "rocketsocket-codegen\n  source   "@ + UPSTREAM_PATH@ + "\n  pinned   "@ + UPSTREAM_COMMIT@
        + " ("@ + UPSTREAM_VERSION@ + ")\n  parsed   "@ + decimal_text(n) + " streams, "@
        + decimal_text(events_in(streams, n) as int) + " events\n\n"@ + stream_lines(
        streams,
        widest(streams, n),
        n,
    )
}

/// Writes the arities of a stream's entries.
fn write_arities(events: &Vec<Event>) -> (r: String)
    ensures
        r@ == arities_text(crate::codegen::parse::event_views(events@), events@.len() as int),
{
    let ghost all = crate::codegen::parse::event_views(events@);
    let mut out = String::new();
    let mut i: usize = 0;
    proof {
        assert(out@ =~= arities_text(all, 0));
    }
    while i < events.len()
        invariant
            all == crate::codegen::parse::event_views(events@),
            i <= events@.len(),
            out@ == arities_text(all, i as int),
        decreases events@.len() - i,
    {
        let ghost before = out@;
        proof {
            assert(all[i as int] == events@[i as int]@);
        }
        if i > 0 {
            out.append(" ");
        }
        if events[i].args.variadic {
            out.append("*");
        } else {
            out.append(
                crate::codegen::render::list_numbers(&events[i].args.arities, "/").as_str(),
            );
        }
        proof {
            if i == 0 {
                assert(before =~= Seq::<char>::empty());
                assert(out@ =~= arity_text(all[0]));
            }
        }
        i += 1;
    }
    out
}

/// Writes the line of a stream.
fn write_line(out: &mut String, stream: &Stream, width: usize)
    ensures
        final(out)@ == old(out)@ + stream_line(stream@, width as nat),
{
    let ghost events = stream@.events;
    let name = chars_of(stream.name.as_str());
    let count = decimal_u64(stream.events.len() as u64);
    let digits = chars_of(count.as_str());
    let mut mixed: u64 = 0;
    let mut open: u64 = 0;
    let mut i: usize = 0;
    while i < stream.events.len()
        invariant
            events == stream@.events,
            i <= stream.events@.len(),
            mixed <= i,
            open <= i,
            mixed == composite(events, i as int),
            open == free(events, i as int),
        decreases stream.events@.len() - i,
    {
        proof {
            assert(events[i as int] == stream.events@[i as int]@);
        }
        match &stream.events[i].key {
            KeyPattern::Suffix(_) => {
                mixed = mixed + 1;
            },
            KeyPattern::Prefix(_) => {
                mixed = mixed + 1;
            },
            KeyPattern::Any => {
                open = open + 1;
            },
            KeyPattern::Literal(_) => {},
        }
        i += 1;
    }
    out.append("  stream-");
    out.append(stream.name.as_str());
    push_spaces(
        out,
        if width > name.len() {
            width - name.len()
        } else {
            0
        },
    );
    out.append("  ");
    push_spaces(
        out,
        if digits.len() < 2 {
            2 - digits.len()
        } else {
            0
        },
    );
    out.append(count.as_str());
    out.append(" events  (");
    out.append(decimal_u64(mixed).as_str());
    out.append(" composite, ");
    out.append(decimal_u64(open).as_str());
    out.append(" free)  arity ");
    out.append(write_arities(&stream.events).as_str());
    out.append("\n");
    proof {
        assert(out@ =~= old(out)@ + stream_line(stream@, width as nat));
    }
}

/// What the generator says it has read, so that drift is visible in a build log.
pub fn report(catalog: &Catalog) -> (r: String)
    requires
        events_in(catalog@, catalog@.len() as int) <= usize::MAX,
    ensures
        r@ == report_of(catalog@),
{
    let ghost streams = catalog@;
    let mut width: usize = 0;
    let mut i: usize = 0;
    while i < catalog.streams.len()
        invariant
            streams == catalog@,
            i <= catalog.streams@.len(),
            width == widest(streams, i as int),
        decreases catalog.streams@.len() - i,
    {
        proof {
            assert(streams[i as int] == catalog.streams@[i as int]@);
        }
        let own: usize = catalog.streams[i].name.as_str().as_bytes().len();
        if own > width {
            width = own;
        }
        i += 1;
    }
    let mut out = concat("rocketsocket-codegen\n  source   ", UPSTREAM_PATH);
    out.append("\n  pinned   ");
    out.append(UPSTREAM_COMMIT);
    out.append(" (");
    out.append(UPSTREAM_VERSION);
    out.append(")\n  parsed   ");
    out.append(decimal_u64(catalog.streams.len() as u64).as_str());
    out.append(" streams, ");
    out.append(decimal_u64(catalog.event_count() as u64).as_str());
    out.append(" events\n\n");
    let ghost before = out@;
    let mut k: usize = 0;
    proof {
        assert(out@ =~= before + stream_lines(streams, width as nat, 0));
    }
    while k < catalog.streams.len()
        invariant
            streams == catalog@,
            k <= catalog.streams@.len(),
            out@ == before + stream_lines(streams, width as nat, k as int),
        decreases catalog.streams@.len() - k,
    {
        write_line(&mut out, &catalog.streams[k], width);
        proof {
            assert(streams[k as int] == catalog.streams@[k as int]@);
            assert(out@ =~= before + stream_lines(streams, width as nat, k + 1));
        }
        k += 1;
    }
    proof {
        assert(out@ =~= report_of(streams));
    }
    out
}

/// The program knows two options.
pub proof fn law_the_options(arg: Seq<char>)
    ensures
        known_option(arg) <==> arg == "--check"@ || arg == "--report-only"@,
{
}

/// Padding is that many spaces.
pub proof fn law_padding_is_spaces(n: int, i: int)
    ensures
        spaces(n).len() == (if n <= 0 {
            0
        } else {
            n
        }),
        0 <= i < n ==> spaces(n)[i] == ' ',
    decreases n,
{
    if n > 0 {
        law_padding_is_spaces(n - 1, i);
    }
}

/// The column is as wide as the widest name.
pub proof fn law_the_column_fits_every_name(streams: Seq<StreamView>, n: int, i: int)
    requires
        0 < n <= streams.len(),
    ensures
        0 <= i < n ==> encode_utf8(streams[i].name).len() <= widest(streams, n),
        exists|k: int|
            0 <= k < n && encode_utf8((#[trigger] streams[k]).name).len() == widest(streams, n),
    decreases n,
{
    if n == 1 {
        assert(widest(streams, 0) == 0);
        assert(encode_utf8(streams[0].name).len() == widest(streams, 1));
    } else {
        law_the_column_fits_every_name(streams, n - 1, i);
        let k = choose|k: int|
            0 <= k < n - 1 && encode_utf8((#[trigger] streams[k]).name).len() == widest(
                streams,
                n - 1,
            );
        assert(encode_utf8(streams[n - 1].name).len() == widest(streams, n) || encode_utf8(
            streams[k].name,
        ).len() == widest(streams, n));
    }
}

proof fn lemma_same_counts(events: Seq<EventView>, more: Seq<EventView>, n: int)
    requires
        0 <= n <= events.len() <= more.len(),
        forall|i: int| 0 <= i < events.len() ==> (#[trigger] more[i]) == events[i],
    ensures
        composite(more, n) == composite(events, n),
        free(more, n) == free(events, n),
        arities_text(more, n) == arities_text(events, n),
    decreases n,
{
    if n > 0 {
        lemma_same_counts(events, more, n - 1);
    }
}

/// A key with a fixed part and a free one is composite; a key that is free altogether is free; a
/// literal is neither.
pub proof fn law_what_is_counted(events: Seq<EventView>, e: EventView)
    ensures
        composite(events.push(e), (events.len() + 1) as int) == composite(
            events,
            events.len() as int,
        ) + (match e.key {
            KeyView::Suffix(_) => 1nat,
            KeyView::Prefix(_) => 1nat,
            KeyView::Any => 0nat,
            KeyView::Literal(_) => 0nat,
        }),
        free(events.push(e), (events.len() + 1) as int) == free(events, events.len() as int) + (
        match e.key {
            KeyView::Any => 1nat,
            KeyView::Suffix(_) => 0nat,
            KeyView::Prefix(_) => 0nat,
            KeyView::Literal(_) => 0nat,
        }),
        composite(events, 0) == 0,
        free(events, 0) == 0,
{
    lemma_same_counts(events, events.push(e), events.len() as int);
}

/// An event with any number of arguments shows a star, another its numbers with strokes between;
/// and the events of a stream follow one another with a space between.
pub proof fn law_how_arities_are_shown(events: Seq<EventView>, e: EventView)
    ensures
        e.args.variadic ==> arity_text(e) == "*"@,
        !e.args.variadic ==> arity_text(e) == listed(e.args.arities, "/"@),
        arities_text(seq![e], 1) == arity_text(e),
        events.len() > 0 ==> arities_text(events.push(e), (events.len() + 1) as int)
            == arities_text(events, events.len() as int) + " "@ + arity_text(e),
{
    lemma_same_counts(events, events.push(e), events.len() as int);
}

/// A line of the report names the stream and gives its numbers.
pub proof fn law_a_line_of_the_report(s: StreamView, width: nat)
    ensures
        stream_line(s, width) == "  stream-"@ + s.name + spaces(width - s.name.len()) + "  "@
            + spaces(2 - decimal_text(s.events.len() as int).len()) + decimal_text(
            s.events.len() as int,
        ) + " events  ("@ + decimal_text(composite(s.events, s.events.len() as int) as int)
            + " composite, "@ + decimal_text(free(s.events, s.events.len() as int) as int)
            + " free)  arity "@ + arities_text(s.events, s.events.len() as int) + "\n"@,
{
}

} // verus!

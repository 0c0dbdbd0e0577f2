//! The lexical layer of the declaration reader.
//!
//! Everything here works on the characters of a source. A position is the number of characters
//! before it.
use crate::text::{
    find_char, index_from, lemma_index_from, lemma_search_from, search, search_from,
};
use crate::utf8::{lemma_utf8_prefix, utf8_len, width_of};
use vstd::prelude::*;
use vstd::string::*;

verus! {

/// Whether a character is ASCII white space.
pub open spec fn white(c: char) -> bool {
    c == ' ' || c == '\t' || c == '\n' || c == '\x0c' || c == '\r'
}

/// Whether a character opens and closes a string.
pub open spec fn quotes(c: char) -> bool {
    c == '\'' || c == '"' || c == '`'
}

/// Whether a character is an ASCII letter or digit.
pub open spec fn alphanumeric(c: char) -> bool {
    'a' <= c <= 'z' || 'A' <= c <= 'Z' || '0' <= c <= '9'
}

/// Whether a character is ASCII white space.
pub fn is_white(c: char) -> (r: bool)
    ensures
        r == white(c),
{
    c == ' ' || c == '\t' || c == '\n' || c == '\x0c' || c == '\r'
}

/// Whether a character opens and closes a string.
pub fn is_quote(c: char) -> (r: bool)
    ensures
        r == quotes(c),
{
    c == '\'' || c == '"' || c == '`'
}

/// Whether a character is an ASCII letter or digit.
pub fn is_alphanumeric(c: char) -> (r: bool)
    ensures
        r == alphanumeric(c),
{
    ('a' <= c && c <= 'z') || ('A' <= c && c <= 'Z') || ('0' <= c && c <= '9')
}

/// Where a string ends that is closed by `quote`, scanned from `i`: just past the first
/// unescaped quote, or at the end of the source.
pub open spec fn string_from(s: Seq<char>, quote: char, i: int) -> int
    decreases s.len() - i,
{
    if i < 0 || i >= s.len() {
        s.len() as int
    } else if s[i] == '\\' {
        if i + 2 >= s.len() {
            s.len() as int
        } else {
            string_from(s, quote, i + 2)
        }
    } else if s[i] == quote {
        i + 1
    } else {
        string_from(s, quote, i + 1)
    }
}

/// The position just past the string that starts at `at`.
pub open spec fn string_end(s: Seq<char>, at: int) -> int {
    string_from(s, s[at], at + 1)
}

/// A string ends after it starts, and not past the source.
pub proof fn lemma_string_from(s: Seq<char>, quote: char, i: int)
    requires
        0 <= i <= s.len(),
    ensures
        i <= string_from(s, quote, i) <= s.len(),
    decreases s.len() - i,
{
    if i < s.len() {
        if s[i] == '\\' {
            if i + 2 < s.len() {
                lemma_string_from(s, quote, i + 2);
            }
        } else if s[i] != quote {
            lemma_string_from(s, quote, i + 1);
        }
    }
}

/// The position just past the string that starts at `at`. Never past the source, even for a
/// string that is not closed or a trailing backslash.
pub fn skip_string(src: &[char], at: usize) -> (r: usize)
    requires
        at < src@.len(),
    ensures
        r == string_end(src@, at as int),
        at < r <= src@.len(),
{
    let quote = src[at];
    let n: usize = src.len();
    let mut i: usize = at + 1;
    proof {
        lemma_string_from(src@, quote, at + 1);
    }
    while i < n
        invariant
            n == src@.len(),
            at < i <= n,
            string_end(src@, at as int) == string_from(src@, quote, i as int),
            quote == src@[at as int],
        decreases n - i,
    {
        let c = src[i];
        if c == '\\' {
            if n - i <= 2 {
                return n;
            }
            i = i + 2;
        } else if c == quote {
            return i + 1;
        } else {
            i = i + 1;
        }
    }
    n
}

/// What a character of a comment is replaced with: a space, or itself where it is a line feed or
/// not ASCII, so that positions and lines stay the same.
pub open spec fn blanked(c: char) -> char {
    if c == '\n' || c as u32 >= 0x80 {
        c
    } else {
        ' '
    }
}

/// A run of comment characters, each replaced.
pub open spec fn blanks(s: Seq<char>) -> Seq<char> {
    Seq::new(s.len(), |i: int| blanked(s[i]))
}

/// Where the comment or string that starts at `i` ends, or the next position.
pub open spec fn token_end(s: Seq<char>, i: int) -> int {
    if quotes(s[i]) {
        string_end(s, i)
    } else if s[i] == '/' && i + 1 < s.len() && s[i + 1] == '/' {
        index_from(s, '\n', i)
    } else if s[i] == '/' && i + 1 < s.len() && s[i + 1] == '*' {
        let close = search_from(s, seq!['*', '/'], i + 2);
        if close <= s.len() {
            close + 2
        } else {
            s.len() as int
        }
    } else {
        i + 1
    }
}

/// Whether a comment starts at a position.
pub open spec fn comment_at(s: Seq<char>, i: int) -> bool {
    s[i] == '/' && i + 1 < s.len() && (s[i + 1] == '/' || s[i + 1] == '*')
}

proof fn lemma_token_end(s: Seq<char>, i: int)
    requires
        0 <= i < s.len(),
    ensures
        i < token_end(s, i) <= s.len(),
{
    if quotes(s[i]) {
        lemma_string_from(s, s[i], i + 1);
    } else if comment_at(s, i) {
        if s[i + 1] == '/' {
            lemma_index_from(s, '\n', i);
            assert(index_from(s, '\n', i) == index_from(s, '\n', i + 1));
            lemma_index_from(s, '\n', i + 1);
        } else {
            lemma_search_from(s, seq!['*', '/'], i + 2);
        }
    }
}

/// The source from `i` on, without its comments.
pub open spec fn uncommented(s: Seq<char>, i: int) -> Seq<char>
    decreases s.len() - i,
    via uncommented_decreases
{
    if i < 0 || i >= s.len() {
        Seq::empty()
    } else {
        let end = token_end(s, i);
        (if comment_at(s, i) {
            blanks(s.subrange(i, end))
        } else {
            s.subrange(i, end)
        }) + uncommented(s, end)
    }
}

#[via_fn]
proof fn uncommented_decreases(s: Seq<char>, i: int) {
    if 0 <= i < s.len() {
        lemma_token_end(s, i);
    }
}

/// Taking the comments out keeps every position and every line: the result is as long as the
/// source, and each character is the same or a space in place of an ASCII character that is not
/// a line feed.
pub proof fn law_uncommented_keeps_positions(s: Seq<char>, i: int)
    requires
        0 <= i <= s.len(),
    ensures
        uncommented(s, i).len() == s.len() - i,
        forall|k: int|
            0 <= k < s.len() - i ==> #[trigger] uncommented(s, i)[k] == s[i + k] || uncommented(
                s,
                i,
            )[k] == blanked(s[i + k]),
    decreases s.len() - i,
{
    if i < s.len() {
        lemma_token_end(s, i);
        let end = token_end(s, i);
        law_uncommented_keeps_positions(s, end);
        let head = if comment_at(s, i) {
            blanks(s.subrange(i, end))
        } else {
            s.subrange(i, end)
        };
        assert forall|k: int| 0 <= k < s.len() - i implies #[trigger] uncommented(s, i)[k] == s[i
            + k] || uncommented(s, i)[k] == blanked(s[i + k]) by {
            if k < end - i {
                assert(uncommented(s, i)[k] == head[k]);
            } else {
                assert(uncommented(s, i)[k] == uncommented(s, end)[k - (end - i)]);
            }
        }
    }
}

/// Blanks out comments. ASCII comment characters become spaces and line feeds are kept, so that
/// positions and lines in the result are those of the source.
pub fn strip_comments(src: &[char]) -> (r: Vec<char>)
    ensures
        r@ == uncommented(src@, 0),
{
    let mut out: Vec<char> = Vec::new();
    let n: usize = src.len();
    let mut i: usize = 0;
    while i < n
        invariant
            n == src@.len(),
            i <= n,
            out@ + uncommented(src@, i as int) == uncommented(src@, 0),
        decreases n - i,
    {
        proof {
            lemma_token_end(src@, i as int);
        }
        let ghost start = i;
        let ghost before = out@;
        let c = src[i];
        if is_quote(c) {
            let after: usize = skip_string(src, i);
            while i < after
                invariant
                    n == src@.len(),
                    start <= i <= after <= n,
                    out@ == before + src@.subrange(start as int, i as int),
                decreases after - i,
            {
                out.push(src[i]);
                i += 1;
                proof {
                    assert(out@ =~= before + src@.subrange(start as int, i as int));
                }
            }
        } else if c == '/' && n - i >= 2 && (src[i + 1] == '/' || src[i + 1] == '*') {
            let end: usize = if src[i + 1] == '/' {
                find_char(src, '\n', i)
            } else {
                let mark: [char; 2] = ['*', '/'];
                proof {
                    assert(mark@ =~= seq!['*', '/']);
                }
                match search(src, &mark, i + 2) {
                    Some(close) => {
                        proof {
                            lemma_search_from(src@, seq!['*', '/'], i + 2);
                        }
                        close + 2
                    },
                    None => n,
                }
            };
            while i < end
                invariant
                    n == src@.len(),
                    start <= i <= end <= n,
                    out@ == before + blanks(src@.subrange(start as int, i as int)),
                decreases end - i,
            {
                let b = src[i];
                out.push(if b == '\n' || b as u32 >= 0x80 { b } else { ' ' });
                i += 1;
                proof {
                    assert(out@ =~= before + blanks(src@.subrange(start as int, i as int)));
                }
            }
        } else {
            out.push(c);
            i += 1;
            proof {
                assert(out@ =~= before + src@.subrange(start as int, i as int));
            }
        }
        proof {
            assert(i == token_end(src@, start as int));
            let head = if comment_at(src@, start as int) {
                blanks(src@.subrange(start as int, i as int))
            } else {
                src@.subrange(start as int, i as int)
            };
            assert(out@ =~= before + head);
            assert(uncommented(src@, start as int) == head + uncommented(src@, i as int));
            assert(out@ + uncommented(src@, i as int) =~= before + uncommented(
                src@,
                start as int,
            ));
        }
    }
    proof {
        assert(out@ + uncommented(src@, n as int) =~= out@);
    }
    out
}

/// Where the delimiter at some depth is closed, scanned from `i`, skipping strings.
pub open spec fn closing(s: Seq<char>, i: int, depth: int, open: char, close: char) -> Option<int>
    decreases s.len() - i,
    via closing_decreases
{
    if i < 0 || i >= s.len() {
        None
    } else if quotes(s[i]) {
        closing(s, string_end(s, i), depth, open, close)
    } else if s[i] == open {
        closing(s, i + 1, depth + 1, open, close)
    } else if s[i] == close {
        if depth == 1 {
            Some(i)
        } else {
            closing(s, i + 1, depth - 1, open, close)
        }
    } else {
        closing(s, i + 1, depth, open, close)
    }
}

#[via_fn]
proof fn closing_decreases(s: Seq<char>, i: int, depth: int, open: char, close: char) {
    if 0 <= i < s.len() && quotes(s[i]) {
        lemma_string_from(s, s[i], i + 1);
    }
}

/// The position of the delimiter that closes the one at `at`.
pub open spec fn partner(s: Seq<char>, at: int, open: char, close: char) -> Option<int> {
    closing(s, at, 0, open, close)
}

/// The position of the delimiter that closes the one at `at`, skipping strings and nesting.
pub fn balanced(src: &[char], at: usize, open: char, close: char) -> (r: Option<usize>)
    requires
        at < src@.len(),
        src@[at as int] == open,
        open != close,
        !quotes(open),
    ensures
        match r {
            Some(end) => partner(src@, at as int, open, close) == Some(end as int) && at < end
                < src@.len() && src@[end as int] == close,
            None => partner(src@, at as int, open, close) is None,
        },
{
    let n: usize = src.len();
    let mut depth: usize = 1;
    let mut i: usize = at + 1;
    while i < n
        invariant
            n == src@.len(),
            at < i <= n,
            1 <= depth <= i,
            open != close,
            partner(src@, at as int, open, close) == closing(
                src@,
                i as int,
                depth as int,
                open,
                close,
            ),
        decreases n - i,
    {
        let c = src[i];
        if is_quote(c) {
            i = skip_string(src, i);
        } else {
            if c == open {
                depth = depth + 1;
            } else if c == close {
                if depth == 1 {
                    return Some(i);
                }
                depth = depth - 1;
            }
            i = i + 1;
        }
    }
    None
}

/// How a stretch of the source falls into parts.
pub enum Split {
    /// The parts, each from its first position to the one past its last.
    Parts(Seq<(int, int)>),
    /// A delimiter is closed here that was not opened.
    Unopened(int),
    /// A delimiter is not closed.
    Unclosed,
}

/// The depth of brackets after a character.
pub open spec fn depth_after(c: char, depth: int) -> int {
    if c == '{' || c == '[' || c == '(' {
        depth + 1
    } else if c == '}' || c == ']' || c == ')' {
        depth - 1
    } else {
        depth
    }
}

/// Whether a character is a bracket.
pub open spec fn bracket(c: char) -> bool {
    c == '{' || c == '[' || c == '(' || c == '}' || c == ']' || c == ')'
}

/// Whether a `<` opens a list of type arguments: only after a type name.
pub open spec fn opens_angle(c: char, prev: char) -> bool {
    c == '<' && (alphanumeric(prev) || prev == '_' || prev == '>')
}

/// Whether a `>` closes a list of type arguments: not as part of an arrow.
pub open spec fn closes_angle(c: char, prev: char, angle: int) -> bool {
    c == '>' && angle > 0 && prev != '='
}

/// Whether a character separates parts.
pub open spec fn separates(c: char, prev: char, depth: int, angle: int, seps: Seq<char>) -> bool {
    !bracket(c) && !opens_angle(c, prev) && !closes_angle(c, prev, angle) && depth == 0 && angle
        == 0 && seps.contains(c)
}

/// How the stretch up to `end` falls into parts, scanned from `i`; the part in progress starts
/// at `from`, and `prev` is the last character that was not white space.
pub open spec fn split_from(
    s: Seq<char>,
    end: int,
    seps: Seq<char>,
    from: int,
    i: int,
    depth: int,
    angle: int,
    prev: char,
) -> Split
    decreases s.len() - i,
    via split_from_decreases
{
    if i < 0 || i >= end || i >= s.len() {
        if depth != 0 {
            Split::Unclosed
        } else {
            Split::Parts(seq![(from, end)])
        }
    } else if quotes(s[i]) {
        split_from(s, end, seps, from, string_end(s, i), depth, angle, '\'')
    } else {
        let c = s[i];
        let depth2 = depth_after(c, depth);
        let angle2 = if opens_angle(c, prev) {
            angle + 1
        } else if closes_angle(c, prev, angle) {
            angle - 1
        } else {
            angle
        };
        let prev2 = if white(c) {
            prev
        } else {
            c
        };
        if depth2 < 0 {
            Split::Unopened(i)
        } else if separates(c, prev, depth, angle, seps) {
            match split_from(s, end, seps, i + 1, i + 1, depth2, angle2, prev2) {
                Split::Parts(rest) => Split::Parts(seq![(from, i)] + rest),
                other => other,
            }
        } else {
            split_from(s, end, seps, from, i + 1, depth2, angle2, prev2)
        }
    }
}

#[via_fn]
proof fn split_from_decreases(
    s: Seq<char>,
    end: int,
    seps: Seq<char>,
    from: int,
    i: int,
    depth: int,
    angle: int,
    prev: char,
) {
    if 0 <= i < s.len() && quotes(s[i]) {
        lemma_string_from(s, s[i], i + 1);
    }
}

/// How a stretch of the source falls into parts at separators outside brackets.
pub open spec fn split(s: Seq<char>, start: int, end: int, seps: Seq<char>) -> Split {
    split_from(s, end, seps, start, start, 0, 0, ' ')
}

/// Whether parts follow one another within a stretch.
pub open spec fn parts_within(parts: Seq<(int, int)>, start: int, end: int) -> bool {
    &&& parts.len() > 0
    &&& forall|k: int|
        0 <= k < parts.len() ==> start <= (#[trigger] parts[k]).0 <= parts[k].1 <= end
}

/// The parts of a stretch lie within it.
pub proof fn lemma_split_within(
    s: Seq<char>,
    end: int,
    seps: Seq<char>,
    from: int,
    i: int,
    depth: int,
    angle: int,
    prev: char,
)
    requires
        0 <= from <= i,
        from <= end <= s.len(),
        i <= s.len(),
    ensures
        split_from(s, end, seps, from, i, depth, angle, prev) matches Split::Parts(parts)
            ==> parts_within(parts, from, end),
        split_from(s, end, seps, from, i, depth, angle, prev) matches Split::Unopened(at) ==> i
            <= at < end,
    decreases s.len() - i,
{
    if i < end && i < s.len() {
        if quotes(s[i]) {
            lemma_string_from(s, s[i], i + 1);
            lemma_split_within(s, end, seps, from, string_end(s, i), depth, angle, '\'');
        } else {
            let c = s[i];
            let depth2 = depth_after(c, depth);
            let angle2 = if opens_angle(c, prev) {
                angle + 1
            } else if closes_angle(c, prev, angle) {
                angle - 1
            } else {
                angle
            };
            let prev2 = if white(c) {
                prev
            } else {
                c
            };
            if depth2 >= 0 {
                if separates(c, prev, depth, angle, seps) {
                    lemma_split_within(s, end, seps, i + 1, i + 1, depth2, angle2, prev2);
                    match split_from(s, end, seps, i + 1, i + 1, depth2, angle2, prev2) {
                        Split::Parts(rest) => {
                            let parts = seq![(from, i)] + rest;
                            assert forall|k: int| 0 <= k < parts.len() implies from <= (
                            #[trigger] parts[k]).0 <= parts[k].1 <= end by {
                                if k > 0 {
                                    assert(parts[k] == rest[k - 1]);
                                }
                            }
                        },
                        _ => {},
                    }
                } else {
                    lemma_split_within(s, end, seps, from, i + 1, depth2, angle2, prev2);
                }
            }
        }
    }
}

/// The result of [`split_top_level`].
pub enum Parts {
    /// The parts.
    Found(Vec<(usize, usize)>),
    /// A delimiter is closed here that was not opened.
    Unopened(usize),
    /// A delimiter is not closed.
    Unclosed,
}

/// The positions of parts.
pub open spec fn positions(parts: Seq<(usize, usize)>) -> Seq<(int, int)> {
    Seq::new(parts.len(), |i: int| (parts[i].0 as int, parts[i].1 as int))
}

/// Whether a list of characters holds one.
fn listed(list: &[char], c: char) -> (r: bool)
    ensures
        r == list@.contains(c),
{
    let mut i: usize = 0;
    while i < list.len()
        invariant
            i <= list@.len(),
            forall|k: int| 0 <= k < i ==> list@[k] != c,
        decreases list@.len() - i,
    {
        if list[i] == c {
            return true;
        }
        i += 1;
    }
    false
}

/// Splits a stretch of the source at separators outside brackets, strings and type arguments.
pub fn split_top_level(src: &[char], start: usize, end: usize, seps: &[char]) -> (r: Parts)
    requires
        start <= end <= src@.len(),
    ensures
        match r {
            Parts::Found(parts) => split(src@, start as int, end as int, seps@) == Split::Parts(
                positions(parts@),
            ) && parts_within(positions(parts@), start as int, end as int),
            Parts::Unopened(at) => split(src@, start as int, end as int, seps@)
                == Split::Unopened(at as int) && start <= at < end,
            Parts::Unclosed => split(src@, start as int, end as int, seps@) == Split::Unclosed,
        },
{
    let mut parts: Vec<(usize, usize)> = Vec::new();
    let mut from: usize = start;
    let mut i: usize = start;
    let n: usize = src.len();
    let mut depth: usize = 0;
    let mut angle: usize = 0;
    let mut prev: char = ' ';
    proof {
        lemma_split_within(src@, end as int, seps@, start as int, start as int, 0, 0, ' ');
        assert(positions(parts@) =~= Seq::<(int, int)>::empty());
    }
    while i < end
        invariant
            n == src@.len(),
            start <= from <= i,
            from <= end <= n,
            i <= n,
            depth <= i,
            angle <= i,
            split(src@, start as int, end as int, seps@) == prefixed(
                positions(parts@),
                split_from(
                    src@,
                    end as int,
                    seps@,
                    from as int,
                    i as int,
                    depth as int,
                    angle as int,
                    prev,
                ),
            ),
            split(src@, start as int, end as int, seps@) matches Split::Parts(all)
                ==> parts_within(all, start as int, end as int),
            split(src@, start as int, end as int, seps@) matches Split::Unopened(at) ==> start
                <= at < end,
        decreases n - i,
    {
        let c = src[i];
        if is_quote(c) {
            i = skip_string(src, i);
            prev = '\'';
        } else {
            let ghost was = positions(parts@);
            let opens = c == '{' || c == '[' || c == '(';
            let closes = c == '}' || c == ']' || c == ')';
            let angle_opens = c == '<' && (is_alphanumeric(prev) || prev == '_' || prev == '>');
            let angle_closes = c == '>' && angle > 0 && prev != '=';
            if closes && depth == 0 {
                return Parts::Unopened(i);
            }
            let parted = !opens && !closes && !angle_opens && !angle_closes && depth == 0 && angle
                == 0 && listed(seps, c);
            if opens {
                depth = depth + 1;
            } else if closes {
                depth = depth - 1;
            } else if angle_opens {
                angle = angle + 1;
            } else if angle_closes {
                angle = angle - 1;
            } else if parted {
                parts.push((from, i));
                proof {
                    assert(positions(parts@) =~= was.push((from as int, i as int)));
                    let next = split_from(
                        src@,
                        end as int,
                        seps@,
                        i + 1,
                        i + 1,
                        depth as int,
                        angle as int,
                        if white(c) {
                            prev
                        } else {
                            c
                        },
                    );
                    lemma_prefixed(was, (from as int, i as int), next);
                }
                from = i + 1;
            }
            if !is_white(c) {
                prev = c;
            }
            i = i + 1;
        }
    }
    if depth != 0 {
        return Parts::Unclosed;
    }
    let ghost was = positions(parts@);
    parts.push((from, end));
    proof {
        assert(positions(parts@) =~= was + seq![(from as int, end as int)]);
    }
    Parts::Found(parts)
}

/// A split with earlier parts in front.
pub open spec fn prefixed(front: Seq<(int, int)>, rest: Split) -> Split {
    match rest {
        Split::Parts(parts) => Split::Parts(front + parts),
        other => other,
    }
}

proof fn lemma_prefixed(front: Seq<(int, int)>, part: (int, int), rest: Split)
    ensures
        prefixed(
            front,
            match rest {
                Split::Parts(parts) => Split::Parts(seq![part] + parts),
                other => other,
            },
        ) == prefixed(front.push(part), rest),
{
    match rest {
        Split::Parts(parts) => {
            assert(front + (seq![part] + parts) =~= front.push(part) + parts);
        },
        _ => {},
    }
}

/// The first position at or after `pos` that is not white space.
pub open spec fn past_white(s: Seq<char>, pos: int) -> int
    decreases s.len() - pos,
{
    if 0 <= pos < s.len() && white(s[pos]) {
        past_white(s, pos + 1)
    } else {
        pos
    }
}

/// What [`past_white`] finds.
pub proof fn lemma_past_white(s: Seq<char>, pos: int, stop: int)
    requires
        0 <= pos <= stop <= s.len(),
        stop < s.len() ==> !white(s[stop]),
    ensures
        pos <= past_white(s, pos) <= stop,
    decreases s.len() - pos,
{
    if pos < s.len() && white(s[pos]) {
        lemma_past_white(s, pos + 1, stop);
    }
}

/// The first position at or after `pos` that is not white space.
pub fn skip_ws(src: &[char], pos: usize) -> (r: usize)
    requires
        pos <= src@.len(),
    ensures
        r == past_white(src@, pos as int),
        pos <= r <= src@.len(),
{
    let mut i: usize = pos;
    while i < src.len() && is_white(src[i])
        invariant
            pos <= i <= src@.len(),
            past_white(src@, pos as int) == past_white(src@, i as int),
        decreases src@.len() - i,
    {
        i += 1;
    }
    i
}

/// The first position from `from` on, up to `to`, that is not white space.
pub open spec fn trim_front(s: Seq<char>, from: int, to: int) -> int
    decreases to - from,
{
    if from < to && white(s[from]) {
        trim_front(s, from + 1, to)
    } else {
        from
    }
}

/// The position past the last one from `from` on, before `to`, that is not white space.
pub open spec fn trim_back(s: Seq<char>, from: int, to: int) -> int
    decreases to - from,
{
    if to > from && white(s[to - 1]) {
        trim_back(s, from, to - 1)
    } else {
        to
    }
}

/// A stretch without the white space around it.
pub open spec fn trimmed(s: Seq<char>, from: int, to: int) -> (int, int) {
    let front = trim_front(s, from, to);
    (front, trim_back(s, front, to))
}

/// A stretch without the white space around it.
pub fn trim_range(src: &[char], from: usize, to: usize) -> (r: (usize, usize))
    requires
        from <= to <= src@.len(),
    ensures
        (r.0 as int, r.1 as int) == trimmed(src@, from as int, to as int),
        from <= r.0 <= r.1 <= to,
{
    let mut a: usize = from;
    while a < to && is_white(src[a])
        invariant
            from <= a <= to <= src@.len(),
            trim_front(src@, from as int, to as int) == trim_front(src@, a as int, to as int),
        decreases to - a,
    {
        a += 1;
    }
    let mut b: usize = to;
    while b > a && is_white(src[b - 1])
        invariant
            a <= b <= to <= src@.len(),
            trim_back(src@, a as int, to as int) == trim_back(src@, a as int, b as int),
        decreases b - a,
    {
        b -= 1;
    }
    (a, b)
}

/// The bytes before a position.
pub fn byte_offset(src: &[char], at: usize) -> (r: usize)
    requires
        at <= src@.len(),
        utf8_len(src@) <= usize::MAX,
    ensures
        r == utf8_len(src@.subrange(0, at as int)),
{
    let mut bytes: usize = 0;
    let mut i: usize = 0;
    proof {
        assert(src@.subrange(0, 0) =~= Seq::<char>::empty());
    }
    while i < at
        invariant
            i <= at <= src@.len(),
            utf8_len(src@) <= usize::MAX,
            bytes == utf8_len(src@.subrange(0, i as int)),
        decreases at - i,
    {
        proof {
            lemma_utf8_prefix(src@, i as int);
            lemma_utf8_prefix(src@, i + 1);
        }
        bytes = bytes + width_of(src[i]);
        i += 1;
    }
    bytes
}

/// How many line feeds a text has.
pub open spec fn line_feeds(s: Seq<char>) -> nat
    decreases s.len(),
{
    if s.len() == 0 {
        0
    } else {
        line_feeds(s.drop_last()) + (if s.last() == '\n' {
            1nat
        } else {
            0nat
        })
    }
}

/// The line that a position is on, counted from one.
pub fn line_of(src: &[char], at: usize) -> (r: usize)
    requires
        at <= src@.len(),
        src@.len() < usize::MAX,
    ensures
        r == line_feeds(src@.subrange(0, at as int)) + 1,
{
    let mut lines: usize = 1;
    let mut i: usize = 0;
    while i < at
        invariant
            i <= at <= src@.len(),
            src@.len() < usize::MAX,
            lines <= i + 1,
            lines == line_feeds(src@.subrange(0, i as int)) + 1,
        decreases at - i,
    {
        proof {
            assert(src@.subrange(0, i + 1).drop_last() =~= src@.subrange(0, i as int));
        }
        if src[i] == '\n' {
            lines = lines + 1;
        }
        i += 1;
    }
    lines
}

/// A text with each run of white space made one space, and none at the ends; and whether white
/// space stands at the end that a next character would turn into a space.
pub open spec fn collapsing(s: Seq<char>) -> (Seq<char>, bool)
    decreases s.len(),
{
    if s.len() == 0 {
        (Seq::empty(), false)
    } else {
        let (out, space) = collapsing(s.drop_last());
        let c = s.last();
        if white(c) {
            (out, out.len() > 0)
        } else if space {
            (out.push(' ').push(c), false)
        } else {
            (out.push(c), false)
        }
    }
}

/// A text with each run of white space made one space, and none at the ends.
pub open spec fn collapsed(s: Seq<char>) -> Seq<char> {
    collapsing(s).0
}

/// Makes each run of white space one space, so that a type over several lines reads as one.
pub fn normalise(src: &[char], from: usize, to: usize) -> (r: Vec<char>)
    requires
        from <= to <= src@.len(),
    ensures
        r@ == collapsed(src@.subrange(from as int, to as int)),
{
    let ghost text = src@.subrange(from as int, to as int);
    let mut out: Vec<char> = Vec::new();
    let mut space = false;
    let mut i: usize = from;
    while i < to
        invariant
            from <= i <= to <= src@.len(),
            text == src@.subrange(from as int, to as int),
            (out@, space) == collapsing(text.subrange(0, i - from)),
        decreases to - i,
    {
        let c = src[i];
        proof {
            let part = text.subrange(0, i - from + 1);
            assert(part.drop_last() =~= text.subrange(0, i - from));
            assert(part.last() == c);
        }
        if is_white(c) {
            space = out.len() > 0;
        } else {
            if space {
                out.push(' ');
            }
            space = false;
            out.push(c);
        }
        i += 1;
    }
    proof {
        assert(text.subrange(0, to - from) =~= text);
    }
    out
}

/// Whether a character is white space in Unicode.
pub open spec fn unicode_white(c: char) -> bool {
    let n = c as u32;
    0x9 <= n <= 0xd || n == 0x20 || n == 0x85 || n == 0xa0 || n == 0x1680 || 0x2000 <= n <= 0x200a
        || n == 0x2028 || n == 0x2029 || n == 0x202f || n == 0x205f || n == 0x3000
}

/// Whether a character is white space in Unicode.
fn is_unicode_white(c: char) -> (r: bool)
    ensures
        r == unicode_white(c),
{
    let n: u32 = c as u32;
    (0x9 <= n && n <= 0xd) || n == 0x20 || n == 0x85 || n == 0xa0 || n == 0x1680 || (0x2000 <= n && n
        <= 0x200a) || n == 0x2028 || n == 0x2029 || n == 0x202f || n == 0x205f || n == 0x3000
}

/// The position past the last one before `to` that is not Unicode white space.
pub open spec fn bare_back(s: Seq<char>, from: int, to: int) -> int
    decreases to - from,
{
    if to > from && unicode_white(s[to - 1]) {
        bare_back(s, from, to - 1)
    } else {
        to
    }
}

/// The first position from `from` on that is not Unicode white space.
pub open spec fn bare_front(s: Seq<char>, from: int, to: int) -> int
    decreases to - from,
{
    if from < to && unicode_white(s[from]) {
        bare_front(s, from + 1, to)
    } else {
        from
    }
}

/// A stretch without the Unicode white space around it.
pub open spec fn bared(s: Seq<char>, from: int, to: int) -> Seq<char> {
    let front = bare_front(s, from, to);
    s.subrange(front, bare_back(s, front, to))
}

/// A stretch without the Unicode white space around it.
pub fn trim_unicode(src: &[char], from: usize, to: usize) -> (r: (usize, usize))
    requires
        from <= to <= src@.len(),
    ensures
        from <= r.0 <= r.1 <= to,
        src@.subrange(r.0 as int, r.1 as int) == bared(src@, from as int, to as int),
{
    let mut a: usize = from;
    while a < to && is_unicode_white(src[a])
        invariant
            from <= a <= to <= src@.len(),
            bare_front(src@, from as int, to as int) == bare_front(src@, a as int, to as int),
        decreases to - a,
    {
        a += 1;
    }
    let mut b: usize = to;
    while b > a && is_unicode_white(src[b - 1])
        invariant
            a <= b <= to <= src@.len(),
            bare_back(src@, a as int, to as int) == bare_back(src@, a as int, b as int),
        decreases b - a,
    {
        b -= 1;
    }
    (a, b)
}

/// The blanks, the quotes and the characters of a name.
pub proof fn law_kinds_of_characters(c: char)
    ensures
        white(c) <==> (c as u32 == 0x20 || c as u32 == 0x09 || c as u32 == 0x0a || c as u32 == 0x0c
            || c as u32 == 0x0d),
        quotes(c) <==> (c as u32 == 0x22 || c as u32 == 0x27 || c as u32 == 0x60),
        alphanumeric(c) <==> (0x30 <= c as u32 <= 0x39 || 0x41 <= c as u32 <= 0x5a || 0x61 <= c
            as u32 <= 0x7a),
        blanked(c) == (if c as u32 == 0x0a || c as u32 >= 0x80 {
            c
        } else {
            ' '
        }),
{
}

proof fn lemma_trim_front(s: Seq<char>, from: int, to: int)
    requires
        0 <= from <= to <= s.len(),
    ensures
        from <= trim_front(s, from, to) <= to,
        trim_front(s, from, to) < to ==> !white(s[trim_front(s, from, to)]),
        forall|i: int| from <= i < trim_front(s, from, to) ==> white(#[trigger] s[i]),
    decreases to - from,
{
    if from < to && white(s[from]) {
        lemma_trim_front(s, from + 1, to);
    }
}

proof fn lemma_trim_back(s: Seq<char>, from: int, to: int)
    requires
        0 <= from <= to <= s.len(),
    ensures
        from <= trim_back(s, from, to) <= to,
        trim_back(s, from, to) > from ==> !white(s[trim_back(s, from, to) - 1]),
        forall|i: int| trim_back(s, from, to) <= i < to ==> white(#[trigger] s[i]),
    decreases to - from,
{
    if to > from && white(s[to - 1]) {
        lemma_trim_back(s, from, to - 1);
    }
}

/// Trimming takes off the blanks at both ends and nothing else.
pub proof fn law_trimming_takes_off_blanks_only(s: Seq<char>, from: int, to: int)
    requires
        0 <= from <= to <= s.len(),
    ensures
        ({
            let (front, back) = trimmed(s, from, to);
            &&& from <= front <= back <= to
            &&& front < back ==> !white(s[front]) && !white(s[back - 1])
            &&& forall|i: int| from <= i < front ==> white(#[trigger] s[i])
            &&& forall|i: int| back <= i < to ==> white(#[trigger] s[i])
        }),
{
    lemma_trim_front(s, from, to);
    lemma_trim_back(s, trim_front(s, from, to), to);
}

/// What is written on one line has its blanks at the ends dropped and every other run of them made
/// one space.
pub proof fn law_runs_of_blanks_become_one_space(s: Seq<char>, blank: char, c: char, d: char)
    requires
        white(blank),
        !white(c),
        !white(d),
    ensures
        collapsed(Seq::empty()) == Seq::<char>::empty(),
        collapsed(s.push(blank)) == collapsed(s),
        collapsed(s.push(c).push(d)) == collapsed(s.push(c)).push(d),
        collapsed(s.push(c).push(blank).push(d)) == collapsed(s.push(c)).push(' ').push(d),
        collapsed(s.push(c).push(blank).push(blank).push(d)) == collapsed(
            s.push(c).push(blank).push(d),
        ),
        collapsed(seq![blank].push(d)) == seq![d],
        collapsed(seq![c]) == seq![c],
{
    assert(s.push(blank).drop_last() =~= s);
    assert(s.push(c).drop_last() =~= s);
    assert(s.push(c).push(d).drop_last() =~= s.push(c));
    let e = s.push(c).push(blank);
    assert(e.drop_last() =~= s.push(c));
    assert(e.push(d).drop_last() =~= e);
    assert(e.push(blank).drop_last() =~= e);
    assert(e.push(blank).push(d).drop_last() =~= e.push(blank));
    let kept = collapsed(s.push(c));
    assert(collapsing(s.push(c)) == (kept, false));
    assert(kept.len() > 0);
    assert(collapsing(e) == (kept, true));
    assert(collapsing(e.push(blank)) == (kept, true));
    assert(collapsing(e.push(d)) == (kept.push(' ').push(d), false));
    assert(collapsing(e.push(blank).push(d)) == (kept.push(' ').push(d), false));
    let none = Seq::<char>::empty();
    assert(collapsing(none) == (none, false));
    assert(seq![blank].drop_last() =~= none);
    assert(collapsing(seq![blank]) == (none, false));
    assert(seq![blank].push(d).drop_last() =~= seq![blank]);
    assert(collapsed(seq![blank].push(d)) =~= seq![d]);
    assert(seq![c].drop_last() =~= none);
    assert(collapsed(seq![c]) =~= seq![c]);
}

/// Lines are counted by their line feeds.
pub proof fn law_lines_are_counted_by_their_feeds(s: Seq<char>, c: char)
    ensures
        line_feeds(Seq::empty()) == 0,
        line_feeds(s.push('\n')) == line_feeds(s) + 1,
        c != '\n' ==> line_feeds(s.push(c)) == line_feeds(s),
{
    assert(s.push('\n').drop_last() =~= s);
    assert(s.push(c).drop_last() =~= s);
}

/// A string goes on to the first quote of its kind that no backslash escapes, or to the end.
pub proof fn law_where_a_string_ends(s: Seq<char>, quote: char, i: int)
    requires
        0 <= i < s.len(),
        quote != '\\',
    ensures
        s[i] == quote ==> string_from(s, quote, i) == i + 1,
        s[i] == '\\' && i + 2 < s.len() ==> string_from(s, quote, i) == string_from(
            s,
            quote,
            i + 2,
        ),
        s[i] == '\\' && i + 2 >= s.len() ==> string_from(s, quote, i) == s.len(),
        s[i] != quote && s[i] != '\\' ==> string_from(s, quote, i) == string_from(s, quote, i + 1),
        string_from(s, quote, s.len() as int) == s.len(),
{
}

/// A bracket is closed by the bracket that brings the depth back, and what stands in quotes does
/// not count.
pub proof fn law_brackets_nest(s: Seq<char>, i: int, depth: int, open: char, close: char)
    requires
        0 <= i < s.len(),
        open != close,
        !quotes(open),
        !quotes(close),
        depth >= 0,
    ensures
        partner(s, i, open, close) == closing(s, i, 0, open, close),
        quotes(s[i]) ==> closing(s, i, depth, open, close) == closing(
            s,
            string_from(s, s[i], i + 1),
            depth,
            open,
            close,
        ),
        s[i] == open ==> closing(s, i, depth, open, close) == closing(
            s,
            i + 1,
            depth + 1,
            open,
            close,
        ),
        s[i] == close && depth == 1 ==> closing(s, i, depth, open, close) == Some(i),
        s[i] == close && depth > 1 ==> closing(s, i, depth, open, close) == closing(
            s,
            i + 1,
            depth - 1,
            open,
            close,
        ),
        !quotes(s[i]) && s[i] != open && s[i] != close ==> closing(s, i, depth, open, close)
            == closing(s, i + 1, depth, open, close),
        closing(s, s.len() as int, depth, open, close) is None,
{
}

/// A separator parts a text only outside all brackets and type arguments.
pub proof fn law_what_parts_a_text(c: char, prev: char, depth: int, angle: int, seps: Seq<char>)
    ensures
        separates(c, prev, depth, angle, seps) ==> seps.contains(c) && depth == 0 && angle == 0,
        seps.contains(c) && c != '<' && c != '>' && !bracket(c) && depth == 0 && angle == 0
            ==> separates(c, prev, depth, angle, seps),
        bracket(c) <==> c == '(' || c == ')' || c == '[' || c == ']' || c == '{' || c == '}',
        c == '(' || c == '[' || c == '{' ==> depth_after(c, depth) == depth + 1,
        c == ')' || c == ']' || c == '}' ==> depth_after(c, depth) == depth - 1,
        !bracket(c) ==> depth_after(c, depth) == depth,
        opens_angle(c, prev) <==> c == '<' && (alphanumeric(prev) || prev == '_' || prev == '>'),
        closes_angle(c, prev, angle) <==> c == '>' && prev != '=' && angle > 0,
{
}

/// A text without separators, brackets, quotes and angles is one part; a separator ends a part
/// and begins the next.
pub proof fn law_how_a_text_is_parted(
    s: Seq<char>,
    end: int,
    seps: Seq<char>,
    from: int,
    i: int,
    prev: char,
)
    requires
        0 <= from <= i <= end <= s.len(),
    ensures
        i == end ==> split_from(s, end, seps, from, i, 0, 0, prev) == Split::Parts(
            seq![(from, end)],
        ),
        i < end && seps.contains(s[i]) && !bracket(s[i]) && !quotes(s[i]) && s[i] != '<' && s[i]
            != '>' ==> (split_from(s, end, seps, from, i, 0, 0, prev) matches Split::Parts(parts)
            ==> parts.len() >= 1 && parts[0] == (from, i)),
{
}

} // verus!

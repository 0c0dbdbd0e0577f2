//! How many bytes a text takes.
use vstd::prelude::*;
use vstd::utf8::*;

verus! {

/// The bytes that a character takes in UTF-8.
pub open spec fn width(c: char) -> nat {
    if (c as u32) < 0x80 {
        1
    } else if (c as u32) < 0x800 {
        2
    } else if (c as u32) < 0x10000 {
        3
    } else {
        4
    }
}

/// The bytes that a text takes in UTF-8.
pub open spec fn utf8_len(s: Seq<char>) -> nat
    decreases s.len(),
{
    if s.len() == 0 {
        0
    } else {
        width(s[0]) + utf8_len(s.subrange(1, s.len() as int))
    }
}

/// The bytes that a text takes are those of its encoding.
pub proof fn lemma_utf8_len(s: Seq<char>)
    ensures
        utf8_len(s) == encode_utf8(s).len(),
    decreases s.len(),
{
    if s.len() > 0 {
        lemma_utf8_len(s.subrange(1, s.len() as int));
        assert(s.subrange(1, s.len() as int) =~= s.drop_first());
        char_is_scalar(s[0]);
        assert(encode_scalar(s[0] as u32).len() == width(s[0]));
        assert(encode_utf8(s) == encode_scalar(s[0] as u32) + encode_utf8(s.drop_first()));
    }
}

/// The bytes of two texts one after the other.
pub proof fn lemma_utf8_concat(a: Seq<char>, b: Seq<char>)
    ensures
        utf8_len(a + b) == utf8_len(a) + utf8_len(b),
    decreases a.len(),
{
    if a.len() == 0 {
        assert(a + b =~= b);
    } else {
        let rest = a.subrange(1, a.len() as int);
        lemma_utf8_concat(rest, b);
        assert((a + b).subrange(1, (a + b).len() as int) =~= rest + b);
    }
}

/// The bytes up to a position are those of the prefix, and never more than those of the text.
pub proof fn lemma_utf8_prefix(s: Seq<char>, i: int)
    requires
        0 <= i <= s.len(),
    ensures
        utf8_len(s.subrange(0, i)) <= utf8_len(s),
        i < s.len() ==> utf8_len(s.subrange(0, i + 1)) == utf8_len(s.subrange(0, i)) + width(s[i]),
{
    lemma_utf8_concat(s.subrange(0, i), s.subrange(i, s.len() as int));
    assert(s.subrange(0, i) + s.subrange(i, s.len() as int) =~= s);
    if i < s.len() {
        let one = seq![s[i]];
        lemma_utf8_concat(s.subrange(0, i), one);
        assert(s.subrange(0, i) + one =~= s.subrange(0, i + 1));
        assert(one.subrange(1, 1) =~= Seq::<char>::empty());
        assert(utf8_len(one.subrange(1, 1)) == 0);
        assert(utf8_len(one) == width(s[i]));
    }
}

/// The bytes that a character takes in UTF-8.
pub fn width_of(c: char) -> (r: usize)
    ensures
        r == width(c),
{
    let n: u32 = c as u32;
    if n < 0x80 {
        1
    } else if n < 0x800 {
        2
    } else if n < 0x10000 {
        3
    } else {
        4
    }
}

/// How many leading characters take at most `max` bytes.
pub open spec fn fitting(s: Seq<char>, max: int, i: int) -> int
    decreases s.len() - i,
{
    if 0 <= i < s.len() && utf8_len(s.subrange(0, i + 1)) <= max {
        fitting(s, max, i + 1)
    } else {
        i
    }
}

/// A text cut to at most `max` bytes, with an ellipsis where something was cut.
pub open spec fn shortened(s: Seq<char>, max: int) -> Seq<char> {
    if utf8_len(s) <= max {
        s
    } else {
        s.subrange(0, fitting(s, max, 0)).push('\u{2026}')
    }
}

/// Cuts a text to at most `max` bytes, at a character, with an ellipsis where something was cut.
pub fn truncate(text: &Vec<char>, max: usize) -> (r: String)
    requires
        max <= 0xffff,
    ensures
        r@ == shortened(text@, max as int),
{
    let mut out = String::new();
    let mut bytes: usize = 0;
    let mut i: usize = 0;
    proof {
        assert(text@.subrange(0, 0) =~= Seq::<char>::empty());
    }
    while i < text.len()
        invariant
            i <= text@.len(),
            max <= 0xffff,
            bytes == utf8_len(text@.subrange(0, i as int)),
            bytes <= max,
            out@ == text@.subrange(0, i as int),
            fitting(text@, max as int, 0) == fitting(text@, max as int, i as int),
        decreases text@.len() - i,
    {
        proof {
            lemma_utf8_prefix(text@, i as int);
            lemma_utf8_prefix(text@, i + 1);
        }
        let more: usize = bytes + width_of(text[i]);
        if more > max {
            out.push('\u{2026}');
            return out;
        }
        bytes = more;
        out.push(text[i]);
        i += 1;
        proof {
            assert(out@ =~= text@.subrange(0, i as int));
        }
    }
    proof {
        assert(text@.subrange(0, text@.len() as int) =~= text@);
    }
    out
}

/// A character takes one byte up to U+007F, two up to U+07FF, three up to U+FFFF, and four beyond.
pub proof fn law_how_wide_a_character_is(c: char)
    ensures
        width(c) == 1 <==> c as u32 <= 0x7f,
        width(c) == 2 <==> 0x80 <= c as u32 <= 0x7ff,
        width(c) == 3 <==> 0x800 <= c as u32 <= 0xffff,
        width(c) == 4 <==> 0x1_0000 <= c as u32,
{
}

/// A text takes the bytes of its characters.
pub proof fn law_a_text_takes_the_bytes_of_its_characters(s: Seq<char>, c: char)
    ensures
        utf8_len(Seq::empty()) == 0,
        utf8_len(s.push(c)) == utf8_len(s) + width(c),
{
    let t = s.push(c);
    lemma_utf8_prefix(t, s.len() as int);
    assert(t.subrange(0, s.len() as int) =~= s);
    assert(t.subrange(0, (s.len() + 1) as int) =~= t);
}

proof fn lemma_fitting(s: Seq<char>, max: int, i: int)
    requires
        0 <= i <= s.len(),
        utf8_len(s.subrange(0, i)) <= max,
    ensures
        i <= fitting(s, max, i) <= s.len(),
        utf8_len(s.subrange(0, fitting(s, max, i))) <= max,
        fitting(s, max, i) < s.len() ==> utf8_len(s.subrange(0, fitting(s, max, i) + 1)) > max,
    decreases s.len() - i,
{
    if i < s.len() && utf8_len(s.subrange(0, i + 1)) <= max {
        lemma_fitting(s, max, i + 1);
    }
}

/// A text that fits is not cut. One that does not is cut to its longest prefix that fits, and an
/// ellipsis follows it.
pub proof fn law_a_text_is_cut_where_it_no_longer_fits(s: Seq<char>, max: int)
    requires
        0 <= max,
    ensures
        utf8_len(s) <= max ==> shortened(s, max) == s,
        utf8_len(s) > max ==> ({
            let kept = shortened(s, max).len() - 1;
            &&& 0 <= kept < s.len()
            &&& shortened(s, max) == s.subrange(0, kept).push('\u{2026}')
            &&& utf8_len(s.subrange(0, kept)) <= max
            &&& utf8_len(s.subrange(0, kept + 1)) > max
        }),
{
    assert(s.subrange(0, 0) =~= Seq::<char>::empty());
    lemma_fitting(s, max, 0);
    assert(s.subrange(0, s.len() as int) =~= s);
}

} // verus!

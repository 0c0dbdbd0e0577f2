//! The member names that a JSON text spells out.
//!
//! A tree keeps one value per name. A typed document is stricter: a member of its own that occurs
//! twice makes it unreadable. What the text repeats shows only in the text.
use crate::codegen::scan::{
    lemma_string_from, past_white, skip_string, skip_ws, string_end,
};
use crate::model::json::{Json, JsonView};
use crate::model::text::{parse_json, text_value};
use crate::text::{chars_of, string_of};
use vstd::prelude::*;
use vstd::string::*;

verus! {

/// A member name of a document, or of a value right inside it.
#[derive(Debug, Clone, PartialEq, Eq)]
pub struct Member {
    /// Whether it belongs to a value inside the document.
    pub inner: bool,
    /// The name of the member whose value it belongs to.
    pub parent: String,
    /// How many values of the document come before that one.
    pub index: usize,
    /// The name.
    pub name: String,
}

/// What a [`Member`] is.
pub struct MemberModel {
    pub inner: bool,
    pub parent: Seq<char>,
    pub index: int,
    pub name: Seq<char>,
}

impl View for Member {
    type V = MemberModel;

    open spec fn view(&self) -> MemberModel {
        MemberModel {
            inner: self.inner,
            parent: self.parent@,
            index: self.index as int,
            name: self.name@,
        }
    }
}

/// The views of members.
pub open spec fn member_views(members: Seq<Member>) -> Seq<MemberModel> {
    members.map_values(|m: Member| m@)
}

/// The name that a quoted text spells.
pub open spec fn spelled(token: Seq<char>) -> Seq<char> {
    match text_value(token) {
        Some(JsonView::String(name)) => name,
        _ => token,
    }
}

/// Whether a string that ends at a position names a member: a colon follows.
pub open spec fn names_member(s: Seq<char>, end: int) -> bool {
    let at = past_white(s, end);
    0 <= at < s.len() && s[at] == ':'
}

/// The member names from a position on, where so many brackets are open and so many values of the
/// document are complete, the last name of its own being `parent`.
pub open spec fn members_from(
    s: Seq<char>,
    i: int,
    depth: int,
    parent: Seq<char>,
    index: int,
) -> Seq<MemberModel>
    decreases s.len() - i,
    via members_from_decreases
{
    if i < 0 || i >= s.len() {
        Seq::empty()
    } else if s[i] == '"' {
        let end = string_end(s, i);
        let name = spelled(s.subrange(i, end));
        if !names_member(s, end) {
            members_from(s, end, depth, parent, index)
        } else if depth == 1 {
            seq![MemberModel { inner: false, parent, index, name }] + members_from(
                s,
                end,
                depth,
                name,
                index,
            )
        } else if depth == 2 {
            seq![MemberModel { inner: true, parent, index, name }] + members_from(
                s,
                end,
                depth,
                parent,
                index,
            )
        } else {
            members_from(s, end, depth, parent, index)
        }
    } else if s[i] == '{' || s[i] == '[' {
        members_from(s, i + 1, depth + 1, parent, index)
    } else if s[i] == '}' || s[i] == ']' {
        members_from(s, i + 1, depth - 1, parent, index)
    } else if s[i] == ',' && depth == 1 {
        members_from(s, i + 1, depth, parent, index + 1)
    } else {
        members_from(s, i + 1, depth, parent, index)
    }
}

#[via_fn]
proof fn members_from_decreases(
    s: Seq<char>,
    i: int,
    depth: int,
    parent: Seq<char>,
    index: int,
) {
    if 0 <= i < s.len() && s[i] == '"' {
        lemma_string_from(s, s[i], i + 1);
    }
}

/// The member names of a document and of the values right inside it, in the order of the text.
pub open spec fn members_of(text: Seq<char>) -> Seq<MemberModel> {
    members_from(text, 0, 0, Seq::empty(), 0)
}

/// The name that a quoted text spells.
fn spell(token: &str) -> (r: String)
    ensures
        r@ == spelled(token@),
{
    match parse_json(token) {
        Some(Json::String(name)) => name,
        _ => token.to_owned(),
    }
}

/// The member names of a document and of the values right inside it, in the order of the text.
pub fn members(text: &str) -> (r: Vec<Member>)
    ensures
        member_views(r@) == members_of(text@),
{
    let chars = chars_of(text);
    let src = chars.as_slice();
    let n: usize = src.len();
    let mut out: Vec<Member> = Vec::new();
    let mut depth: i128 = 0;
    let mut parent: String = String::new();
    let mut index: usize = 0;
    let mut i: usize = 0;
    proof {
        assert(member_views(out@) =~= Seq::<MemberModel>::empty());
        assert(parent@ =~= Seq::<char>::empty());
        assert(Seq::<MemberModel>::empty() + members_of(text@) =~= members_of(text@));
    }
    while i < n
        invariant
            src@ == text@,
            n == src@.len(),
            i <= n,
            -i <= depth <= i,
            index <= i,
            members_of(text@) == member_views(out@) + members_from(
                text@,
                i as int,
                depth as int,
                parent@,
                index as int,
            ),
        decreases n - i,
    {
        let c = src[i];
        let ghost was = member_views(out@);
        if c == '"' {
            let end: usize = skip_string(src, i);
            let colon: usize = skip_ws(src, end);
            if colon < n && src[colon] == ':' && (depth == 1 || depth == 2) {
                let token = string_of(src, i, end);
                let name = spell(token.as_str());
                let ghost rest = members_from(
                    text@,
                    end as int,
                    depth as int,
                    if depth == 1 {
                        name@
                    } else {
                        parent@
                    },
                    index as int,
                );
                let member = Member {
                    inner: depth == 2,
                    parent: parent.clone(),
                    index,
                    name: name.clone(),
                };
                out.push(member);
                if depth == 1 {
                    parent = name;
                }
                proof {
                    assert(member_views(out@) =~= was.push(member@));
                    assert(was + (seq![member@] + rest) =~= was.push(member@) + rest);
                }
            }
            i = end;
        } else {
            if c == '{' || c == '[' {
                depth = depth + 1;
            } else if c == '}' || c == ']' {
                depth = depth - 1;
            } else if c == ',' && depth == 1 {
                index += 1;
            }
            i += 1;
        }
    }
    proof {
        assert(member_views(out@) + Seq::<MemberModel>::empty() =~= member_views(out@));
    }
    out
}

/// Which names are members: those of the outermost value and of the values directly in it, each
/// followed by a colon; the braces and brackets count the depth, and the commas of the outermost
/// value count its elements.
pub proof fn law_which_names_are_members(
    s: Seq<char>,
    i: int,
    depth: int,
    parent: Seq<char>,
    index: int,
)
    requires
        0 <= i < s.len(),
    ensures
        s[i] == '{' || s[i] == '[' ==> members_from(s, i, depth, parent, index) == members_from(
            s,
            i + 1,
            depth + 1,
            parent,
            index,
        ),
        s[i] == '}' || s[i] == ']' ==> members_from(s, i, depth, parent, index) == members_from(
            s,
            i + 1,
            depth - 1,
            parent,
            index,
        ),
        s[i] == ',' && depth == 1 ==> members_from(s, i, depth, parent, index) == members_from(
            s,
            i + 1,
            depth,
            parent,
            index + 1,
        ),
        s[i] == '"' && names_member(s, string_end(s, i)) && depth == 1 ==> members_from(
            s,
            i,
            depth,
            parent,
            index,
        ).len() > 0 && members_from(s, i, depth, parent, index)[0] == (MemberModel {
            inner: false,
            parent,
            index,
            name: spelled(s.subrange(i, string_end(s, i))),
        }),
        s[i] == '"' && names_member(s, string_end(s, i)) && depth == 2 ==> members_from(
            s,
            i,
            depth,
            parent,
            index,
        ).len() > 0 && members_from(s, i, depth, parent, index)[0] == (MemberModel {
            inner: true,
            parent,
            index,
            name: spelled(s.subrange(i, string_end(s, i))),
        }),
        s[i] == '"' && !(names_member(s, string_end(s, i)) && 1 <= depth <= 2) ==> members_from(
            s,
            i,
            depth,
            parent,
            index,
        ) == members_from(s, string_end(s, i), depth, parent, index),
{
}

} // verus!

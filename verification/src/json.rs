//! Flat JSON objects, and members read out of JSON texts.

use vstd::prelude::*;

verus! {

/// A JSON number as the serializer holds it.
#[verifier::external_type_specification]
#[verifier::external_body]
pub struct ExNumber(serde_json::Number);

/// `serde_json::Number` is cloned field by field, so the clone is the same
/// number.
pub assume_specification[ <serde_json::Number as Clone>::clone ](
    number: &serde_json::Number,
) -> (r: serde_json::Number)
    ensures
        r == *number,
;

/// A JSON value that holds no other.
#[derive(Debug, Clone, PartialEq, Eq)]
pub enum Scalar {
    Null,
    Bool(bool),
    Integer(i64),
    Number(serde_json::Number),
    Text(String),
}

/// What a [`Scalar`] stands for.
pub enum ScalarView {
    Null,
    Bool(bool),
    Integer(int),
    Number(serde_json::Number),
    Text(Seq<char>),
}

impl View for Scalar {
    type V = ScalarView;

    open spec fn view(&self) -> ScalarView {
        match self {
            Scalar::Null => ScalarView::Null,
            Scalar::Bool(b) => ScalarView::Bool(*b),
            Scalar::Integer(i) => ScalarView::Integer(*i as int),
            Scalar::Number(n) => ScalarView::Number(*n),
            Scalar::Text(s) => ScalarView::Text(s@),
        }
    }
}

/// A scalar, or an object whose members are scalars.
#[derive(Debug, Clone, PartialEq, Eq)]
pub enum JsonValue {
    Scalar(Scalar),
    Object(Vec<(String, Scalar)>),
}

/// What a [`JsonValue`] stands for.
pub enum JsonView {
    Scalar(ScalarView),
    Object(Seq<(Seq<char>, ScalarView)>),
}

/// The members of an object, in order.
pub open spec fn members_view(members: Seq<(String, Scalar)>) -> Seq<(Seq<char>, ScalarView)> {
    members.map_values(|member: (String, Scalar)| (member.0@, member.1@))
}

impl View for JsonValue {
    type V = JsonView;

    open spec fn view(&self) -> JsonView {
        match self {
            JsonValue::Scalar(scalar) => JsonView::Scalar(scalar@),
            JsonValue::Object(members) => JsonView::Object(members_view(members@)),
        }
    }
}

impl JsonValue {
    /// Whether this is an object.
    pub fn is_object(&self) -> (r: bool)
        ensures
            r == (self@ is Object),
    {
        match self {
            JsonValue::Scalar(_) => false,
            JsonValue::Object(_) => true,
        }
    }
}

/// Adds a member at the end of an object under construction.
pub fn push_member(members: &mut Vec<(String, Scalar)>, name: &str, value: Scalar)
    ensures
        members_view(final(members)@) == members_view(old(members)@).push((name@, value@)),
{
    members.push((name.to_owned(), value));
    proof {
        assert(members_view(members@) =~= members_view(old(members)@).push((name@, value@)));
    }
}

/// Whether a member is set to something other than null.
pub open spec fn is_present(member: (Seq<char>, ScalarView)) -> bool {
    !(member.1 is Null)
}

/// The members that are not null, in order.
pub open spec fn present_members(members: Seq<(Seq<char>, ScalarView)>) -> Seq<
    (Seq<char>, ScalarView),
>
    decreases members.len(),
{
    if members.len() == 0 {
        members
    } else if is_present(members.last()) {
        present_members(members.drop_last()).push(members.last())
    } else {
        present_members(members.drop_last())
    }
}

/// An object without its null members; any other value as it is.
pub open spec fn compact(value: JsonView) -> JsonView {
    match value {
        JsonView::Object(members) => JsonView::Object(present_members(members)),
        other => other,
    }
}

/// Drops the null members of an object.
pub fn compact_json(value: JsonValue) -> (r: JsonValue)
    ensures
        r@ == compact(value@),
{
    match value {
        JsonValue::Object(members) => {
            let mut kept: Vec<(String, Scalar)> = Vec::new();
            let mut i: usize = 0;
            let ghost all = members_view(members@);
            proof {
                assert(members_view(kept@) =~= present_members(all.take(0)));
            }
            while i < members.len()
                invariant
                    i <= members@.len(),
                    all == members_view(members@),
                    members_view(kept@) == present_members(all.take(i as int)),
                decreases members@.len() - i,
            {
                proof {
                    assert(all.take(i + 1).drop_last() =~= all.take(i as int));
                    assert(all.take(i + 1).last() == (members@[i as int].0@, members@[i as int].1@));
                }
                match &members[i].1 {
                    Scalar::Null => {},
                    Scalar::Bool(b) => push_member(
                        &mut kept,
                        members[i].0.as_str(),
                        Scalar::Bool(*b),
                    ),
                    Scalar::Integer(n) => push_member(
                        &mut kept,
                        members[i].0.as_str(),
                        Scalar::Integer(*n),
                    ),
                    Scalar::Number(n) => push_member(
                        &mut kept,
                        members[i].0.as_str(),
                        Scalar::Number(n.clone()),
                    ),
                    Scalar::Text(s) => push_member(
                        &mut kept,
                        members[i].0.as_str(),
                        Scalar::Text(s.clone()),
                    ),
                }
                i = i + 1;
            }
            proof {
                assert(all.take(i as int) =~= all);
            }
            JsonValue::Object(kept)
        },
        JsonValue::Scalar(scalar) => JsonValue::Scalar(scalar),
    }
}

/// Compacting keeps exactly the members that are not null.
pub proof fn law_compact_keeps_what_is_present(
    members: Seq<(Seq<char>, ScalarView)>,
    member: (Seq<char>, ScalarView),
)
    ensures
        present_members(members).contains(member) == (members.contains(member) && is_present(
            member,
        )),
    decreases members.len(),
{
    if members.len() > 0 {
        let rest = members.drop_last();
        law_compact_keeps_what_is_present(rest, member);
        let kept = present_members(rest);
        assert(members =~= rest.push(members.last()));
        vstd::seq_lib::lemma_seq_contains_after_push(rest, members.last(), member);
        vstd::seq_lib::lemma_seq_contains_after_push(kept, members.last(), member);
    }
}

/// What a member of a parsed text is.
#[derive(Debug, Clone, PartialEq, Eq)]
pub enum Member {
    Text(String),
    Bool(bool),
    /// A null, a number, an array or an object.
    Other,
}

/// What a [`Member`] stands for.
pub enum MemberView {
    Text(Seq<char>),
    Bool(bool),
    Other,
}

impl View for Member {
    type V = MemberView;

    open spec fn view(&self) -> MemberView {
        match self {
            Member::Text(s) => MemberView::Text(s@),
            Member::Bool(b) => MemberView::Bool(*b),
            Member::Other => MemberView::Other,
        }
    }
}

/// The members found, each where there is one.
pub open spec fn found_view(found: Seq<Option<Member>>) -> Seq<Option<MemberView>> {
    found.map_values(
        |member: Option<Member>|
            match member {
                Some(member) => Some(member@),
                None => None,
            },
    )
}

/// The characters of each text.
pub open spec fn texts_view(texts: Seq<&str>) -> Seq<Seq<char>> {
    texts.map_values(|text: &str| text@)
}

/// The name and value of each member of a nested object.
pub open spec fn nested_view(members: Seq<(String, JsonValue)>) -> Seq<(Seq<char>, JsonView)> {
    members.map_values(|member: (String, JsonValue)| (member.0@, member.1@))
}

/// What stands at each of these JSON pointers in the JSON text, or why the text
/// is not JSON.
pub uninterp spec fn json_members(text: Seq<char>, pointers: Seq<Seq<char>>) -> Result<
    Seq<Option<MemberView>>,
    Seq<char>,
>;

/// The compact JSON text of an object with these members.
pub uninterp spec fn json_object_text(members: Seq<(Seq<char>, JsonView)>) -> Seq<char>;

/// Calls `serde_json::from_str` and looks each pointer up with
/// `serde_json::Value::pointer`; an error is handed on as its text. Beside the
/// name of the result, the contract says that there is one answer for each
/// pointer.
#[verifier::external_body]
pub(crate) fn read_members(text: &str, pointers: &Vec<&str>) -> (r: Result<
    Vec<Option<Member>>,
    String,
>)
    ensures
        match r {
            Ok(found) => json_members(text@, texts_view(pointers@)) == Ok::<
                Seq<Option<MemberView>>,
                Seq<char>,
            >(found_view(found@)) && found@.len() == pointers@.len(),
            Err(message) => json_members(text@, texts_view(pointers@)) == Err::<
                Seq<Option<MemberView>>,
                Seq<char>,
            >(message@),
        },
{
    let value: serde_json::Value = serde_json::from_str(text).map_err(|e| e.to_string())?;
    let member = |found: &serde_json::Value| match found {
        serde_json::Value::String(s) => Member::Text(s.clone()),
        serde_json::Value::Bool(b) => Member::Bool(*b),
        serde_json::Value::Null => Member::Other,
        serde_json::Value::Number(_) => Member::Other,
        serde_json::Value::Array(_) => Member::Other,
        serde_json::Value::Object(_) => Member::Other,
    };
    Ok(pointers.iter().map(|pointer| value.pointer(pointer).map(member)).collect())
}

/// Whether `serde_json` keeps this name to itself: depending on its features, an
/// object that begins with such a name is read as something else.
pub open spec fn is_reserved_name(s: Seq<char>) -> bool {
    s == "$serde_json::private::RawValue"@ || s == "$serde_json::private::Number"@
}

/// Whether no member has a reserved name.
pub open spec fn names_are_plain(members: Seq<(Seq<char>, ScalarView)>) -> bool {
    forall|i: int| 0 <= i < members.len() ==> !is_reserved_name((#[trigger] members[i]).0)
}

/// Whether no member of the value has a reserved name.
pub open spec fn is_plain_value(value: JsonView) -> bool {
    match value {
        JsonView::Scalar(_) => true,
        JsonView::Object(members) => names_are_plain(members),
    }
}

/// Whether neither a member nor a member of a member has a reserved name.
pub open spec fn is_plain_object(members: Seq<(Seq<char>, JsonView)>) -> bool {
    forall|i: int|
        0 <= i < members.len() ==> !is_reserved_name((#[trigger] members[i]).0) && is_plain_value(
            members[i].1,
        )
}

/// A name shorter than the reserved ones is none of them.
pub proof fn lemma_short_name_is_plain(name: Seq<char>)
    requires
        name.len() < 28,
    ensures
        !is_reserved_name(name),
{
    reveal_strlit("$serde_json::private::RawValue");
    reveal_strlit("$serde_json::private::Number");
}

/// Names shorter than the reserved ones are none of them.
pub proof fn lemma_short_names_are_plain(members: Seq<(Seq<char>, ScalarView)>)
    requires
        forall|i: int| 0 <= i < members.len() ==> (#[trigger] members[i]).0.len() < 28,
    ensures
        names_are_plain(members),
{
    assert forall|i: int| 0 <= i < members.len() implies !is_reserved_name(
        (#[trigger] members[i]).0,
    ) by {
        lemma_short_name_is_plain(members[i].0);
    }
}

/// Dropping members brings in no reserved name.
pub proof fn lemma_compact_keeps_names_plain(members: Seq<(Seq<char>, ScalarView)>)
    requires
        names_are_plain(members),
    ensures
        names_are_plain(present_members(members)),
    decreases members.len(),
{
    if members.len() > 0 {
        assert forall|i: int| 0 <= i < members.drop_last().len() implies !is_reserved_name(
            (#[trigger] members.drop_last()[i]).0,
        ) by {
            assert(members.drop_last()[i] == members[i]);
        }
        lemma_compact_keeps_names_plain(members.drop_last());
    }
}

/// Whether `s` can be a JSON pointer's token as it stands.
pub open spec fn is_plain_token(s: Seq<char>) -> bool {
    !s.contains('/') && !s.contains('~')
}

/// Whether the member at `i` is a text under a name that no other member has.
pub open spec fn is_text_member(
    members: Seq<(Seq<char>, JsonView)>,
    i: int,
    value: Seq<char>,
) -> bool {
    &&& 0 <= i < members.len()
    &&& members[i].1 == JsonView::Scalar(ScalarView::Text(value))
    &&& is_plain_token(members[i].0)
    &&& forall|j: int| 0 <= j < members.len() && j != i ==> members[j].0 != members[i].0
}

/// Whether the JSON text holds the text `value` under `name`.
pub open spec fn holds_text(text: Seq<char>, name: Seq<char>, value: Seq<char>) -> bool {
    json_members(text, seq!["/"@ + name]) == Ok::<Seq<Option<MemberView>>, Seq<char>>(
        seq![Some(MemberView::Text(value))],
    )
}

/// Collects the members in a `serde_json::Value` and writes it out with its
/// `to_string`. Beside the name of the result, the contract says that it is an
/// object in braces on one line, and that, where no name in it is reserved, a
/// text among the members is read back by [`read_members`] under its name.
#[verifier::external_body]
pub(crate) fn object_text(members: Vec<(String, JsonValue)>) -> (r: String)
    ensures
        r@ == json_object_text(nested_view(members@)),
        r@.len() >= 2,
        r@[0] == '{',
        r@.last() == '}',
        !r@.contains('\n'),
        forall|i: int, value: Seq<char>| #[trigger]
            is_text_member(nested_view(members@), i, value) && is_plain_object(
                nested_view(members@),
            ) ==> holds_text(
                r@,
                nested_view(members@)[i].0,
                value,
            ),
{
    let scalar = |s: Scalar| match s {
        Scalar::Null => serde_json::Value::Null,
        Scalar::Bool(b) => b.into(),
        Scalar::Integer(n) => n.into(),
        Scalar::Number(n) => n.into(),
        Scalar::Text(t) => t.into(),
    };
    let value = |v: JsonValue| match v {
        JsonValue::Scalar(s) => scalar(s),
        JsonValue::Object(m) => m.into_iter().map(|(k, s)| (k, scalar(s))).collect(),
    };
    let all: serde_json::Value = members.into_iter().map(|(k, v)| (k, value(v))).collect();
    all.to_string()
}

/// Compacting goes member by member: it keeps the order of what it keeps, drops a
/// null and nothing else, and changes no name and no value. A value that is no
/// object stays as it is.
pub proof fn law_compact_goes_member_by_member(
    a: Seq<(Seq<char>, ScalarView)>,
    b: Seq<(Seq<char>, ScalarView)>,
    member: (Seq<char>, ScalarView),
    scalar: ScalarView,
)
    ensures
        present_members(a + b) == present_members(a) + present_members(b),
        member.1 is Null ==> present_members(seq![member]).len() == 0,
        !(member.1 is Null) ==> present_members(seq![member]) == seq![member],
        compact(JsonView::Object(a)) == JsonView::Object(present_members(a)),
        compact(JsonView::Scalar(scalar)) == JsonView::Scalar(scalar),
    decreases b.len(),
{
    reveal_with_fuel(present_members, 2);
    assert(seq![member].drop_last() =~= Seq::<(Seq<char>, ScalarView)>::empty());
    assert(!(member.1 is Null) ==> present_members(seq![member]) =~= seq![member]);
    if b.len() == 0 {
        assert(a + b =~= a);
        assert(present_members(a) + present_members(b) =~= present_members(a));
    } else {
        law_compact_goes_member_by_member(a, b.drop_last(), member, scalar);
        assert((a + b).drop_last() =~= a + b.drop_last());
        assert(present_members(a + b) =~= present_members(a) + present_members(b));
    }
}

/// The views show every member's name and value, in its place.
pub proof fn law_member_views_show_everything(
    members: Seq<(String, Scalar)>,
    nested: Seq<(String, JsonValue)>,
    found: Seq<Option<Member>>,
    i: int,
)
    ensures
        members_view(members).len() == members.len(),
        0 <= i < members.len() ==> members_view(members)[i] == (members[i].0@, members[i].1@),
        nested_view(nested).len() == nested.len(),
        0 <= i < nested.len() ==> nested_view(nested)[i] == (nested[i].0@, nested[i].1@),
        found_view(found).len() == found.len(),
        0 <= i < found.len() ==> found_view(found)[i] is Some == found[i] is Some,
        0 <= i < found.len() && found[i] is Some ==> found_view(found)[i]->0 == found[i]->0@,
{
}

/// The view of a value tells its kind and what it holds.
pub proof fn law_value_views_show_everything(
    flag: bool,
    integer: i64,
    number: serde_json::Number,
    text: String,
    members: Vec<(String, Scalar)>,
)
    ensures
        Scalar::Null@ == ScalarView::Null,
        Scalar::Bool(flag)@ == ScalarView::Bool(flag),
        Scalar::Integer(integer)@ == ScalarView::Integer(integer as int),
        Scalar::Number(number)@ == ScalarView::Number(number),
        Scalar::Text(text)@ == ScalarView::Text(text@),
        JsonValue::Scalar(Scalar::Text(text))@ == JsonView::Scalar(ScalarView::Text(text@)),
        JsonValue::Object(members)@ == JsonView::Object(members_view(members@)),
        Member::Text(text)@ == MemberView::Text(text@),
        Member::Bool(flag)@ == MemberView::Bool(flag),
        Member::Other@ == MemberView::Other,
{
}

} // verus!

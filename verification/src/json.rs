//! JSON values, and writing JSON text.

use vstd::prelude::*;
use crate::each::{find_first, map_each};
use crate::hex::hex_char;
use crate::list::{first_where, gathered, law_first_where, put};
use crate::number::{bool_text, bool_word};
use crate::outside::{json_of, json_outcome, json_quote, json_tree, read_json};
use crate::text::{cat3, cat4, ends, join, joined, same, step};

verus! {

broadcast use {vstd::seq::group_seq_axioms, vstd::string::group_string_axioms};

/// A character as it stands in a JSON string. One below the space that has no short
/// form is written by its number, in four small hexadecimal digits.
pub open spec fn json_escaped(c: char) -> Seq<char> {
    if c == '"' {
        seq!['\\', '"']
    } else if c == '\\' {
        seq!['\\', '\\']
    } else if c == '\u{8}' {
        seq!['\\', 'b']
    } else if c == '\t' {
        seq!['\\', 't']
    } else if c == '\n' {
        seq!['\\', 'n']
    } else if c == '\u{c}' {
        seq!['\\', 'f']
    } else if c == '\r' {
        seq!['\\', 'r']
    } else if (c as u32) < 32 {
        seq!['\\', 'u', '0', '0', hex_char(c as u32 as int / 16), hex_char(c as u32 as int % 16)]
    } else {
        seq![c]
    }
}

/// A text as a JSON string, quoted and escaped.
pub open spec fn json_quoted(text: Seq<char>) -> Seq<char> {
    seq!['"'] + gathered(text, |c: char| json_escaped(c)) + seq!['"']
}

proof fn lemma_escaped_stays_on_one_line(text: Seq<char>)
    ensures
        !gathered(text, |c: char| json_escaped(c)).contains('\n'),
    decreases text.len(),
{
    let all = gathered(text, |c: char| json_escaped(c));
    if text.len() > 0 {
        let rest = text.drop_last();
        lemma_escaped_stays_on_one_line(rest);
        let before = gathered(rest, |c: char| json_escaped(c));
        let last = json_escaped(text.last());
        assert(all == before + last);
        if all.contains('\n') {
            let k = choose|k: int| 0 <= k < all.len() && all[k] == '\n';
            if k < before.len() {
                assert(before[k] == '\n');
            } else {
                assert(last[k - before.len()] == '\n');
            }
        }
    }
}

/// A text that is quoted stays on one line.
pub proof fn law_quoted_text_stays_on_one_line(text: Seq<char>)
    ensures
        !json_quoted(text).contains('\n'),
{
    lemma_escaped_stays_on_one_line(text);
    let inner = gathered(text, |c: char| json_escaped(c));
    if json_quoted(text).contains('\n') {
        let k = choose|k: int| 0 <= k < json_quoted(text).len() && json_quoted(text)[k] == '\n';
        assert(inner[k - 1] == '\n');
    }
}

/// A JSON value.
#[derive(Debug)]
pub enum Json {
    Null,
    Bool(bool),
    /// A number, as it is printed.
    Number(String),
    Text(String),
    List(Vec<Json>),
    /// The members, each name once.
    Object(Vec<(String, Json)>),
}

/// View of [`Json`].
pub enum JsonView {
    Null,
    Bool(bool),
    Number(Seq<char>),
    Text(Seq<char>),
    List(Seq<JsonView>),
    Object(Seq<(Seq<char>, JsonView)>),
}

/// The view of a value.
pub open spec fn json_view(j: Json) -> JsonView
    decreases j,
{
    match j {
        Json::Null => JsonView::Null,
        Json::Bool(b) => JsonView::Bool(b),
        Json::Number(n) => JsonView::Number(n@),
        Json::Text(t) => JsonView::Text(t@),
        Json::List(items) => JsonView::List(
            Seq::new(
                items@.len(),
                |i: int|
                    if 0 <= i < items@.len() {
                        json_view(items@[i])
                    } else {
                        JsonView::Null
                    },
            ),
        ),
        Json::Object(members) => JsonView::Object(
            Seq::new(
                members@.len(),
                |i: int|
                    (
                        members@[i].0@,
                        if 0 <= i < members@.len() {
                            json_view(members@[i].1)
                        } else {
                            JsonView::Null
                        },
                    ),
            ),
        ),
    }
}

impl DeepView for Json {
    type V = JsonView;

    open spec fn deep_view(&self) -> JsonView {
        json_view(*self)
    }
}

/// What the view of a list and of an object is made of.
pub proof fn lemma_json_view(j: Json)
    ensures
        j.deep_view() == (match j {
            Json::Null => JsonView::Null,
            Json::Bool(b) => JsonView::Bool(b),
            Json::Number(n) => JsonView::Number(n@),
            Json::Text(t) => JsonView::Text(t@),
            Json::List(items) => JsonView::List(items.deep_view()),
            Json::Object(members) => JsonView::Object(members.deep_view()),
        }),
{
    match j {
        Json::List(items) => {
            assert(j.deep_view()->List_0 =~= items.deep_view());
        },
        Json::Object(members) => {
            assert(j.deep_view()->Object_0 =~= members.deep_view());
        },
        _ => {},
    }
}

/// What a text holds as JSON: a value, or the words of the error.
pub open spec fn json_read(text: Seq<char>) -> Result<JsonView, Seq<char>> {
    match json_outcome(text) {
        Ok(value) => Ok(json_tree(value)),
        Err(words) => Err(words),
    }
}

/// Reads JSON text.
pub fn parse_json(text: &str) -> (r: Result<Json, String>)
    ensures
        match json_read(text@) {
            Ok(value) => r is Ok && r->Ok_0.deep_view() == value,
            Err(words) => r is Err && r->Err_0@ == words,
        },
{
    match read_json(text) {
        Ok(value) => Ok(json_of(value)),
        Err(words) => Err(words),
    }
}

/// Whether a member has this name.
pub open spec fn has_name(name: Seq<char>) -> spec_fn((Seq<char>, JsonView)) -> bool {
    |m: (Seq<char>, JsonView)| m.0 == name
}

/// The member of an object with this name.
pub open spec fn member_of(j: JsonView, name: Seq<char>) -> Option<JsonView> {
    match j {
        JsonView::Object(members) => match first_where(members, has_name(name)) {
            Some(m) => Some(m.1),
            None => None,
        },
        _ => None,
    }
}

/// The member of an object with this name.
pub fn json_get<'a>(j: &'a Json, name: &str) -> (r: Option<&'a Json>)
    ensures
        r.deep_view() == member_of(j.deep_view(), name@),
{
    proof {
        lemma_json_view(*j);
    }
    match j {
        Json::Object(members) => match find_first(
            members,
            |m: &(String, Json)| -> (b: bool)
                ensures
                    b == (m.deep_view().0 == name@)
                { same(&m.0, name) },
            Ghost(has_name(name@)),
        ) {
            Some(m) => Some(&m.1),
            None => None,
        },
        _ => None,
    }
}

/// A text.
pub open spec fn text_in(j: JsonView) -> Option<Seq<char>> {
    match j {
        JsonView::Text(t) => Some(t),
        _ => None,
    }
}

/// A text.
pub fn json_text<'a>(j: &'a Json) -> (r: Option<&'a str>)
    ensures
        r.deep_view() == text_in(j.deep_view()),
{
    match j {
        Json::Text(t) => Some(t.as_str()),
        _ => None,
    }
}

/// The items of a list.
pub open spec fn items_in(j: JsonView) -> Option<Seq<JsonView>> {
    match j {
        JsonView::List(items) => Some(items),
        _ => None,
    }
}

/// The items of a list.
pub fn json_items<'a>(j: &'a Json) -> (r: Option<&'a Vec<Json>>)
    ensures
        r.deep_view() == items_in(j.deep_view()),
{
    proof {
        lemma_json_view(*j);
    }
    match j {
        Json::List(items) => Some(items),
        _ => None,
    }
}

/// The members of an object.
pub open spec fn members_in(j: JsonView) -> Option<Seq<(Seq<char>, JsonView)>> {
    match j {
        JsonView::Object(members) => Some(members),
        _ => None,
    }
}

/// The members of an object.
pub fn json_members<'a>(j: &'a Json) -> (r: Option<&'a Vec<(String, Json)>>)
    ensures
        r.deep_view() == members_in(j.deep_view()),
{
    proof {
        lemma_json_view(*j);
    }
    match j {
        Json::Object(members) => Some(members),
        _ => None,
    }
}

/// The list in a member.
pub open spec fn list_at(j: JsonView, name: Seq<char>) -> Option<Seq<JsonView>> {
    match member_of(j, name) {
        Some(v) => items_in(v),
        None => None,
    }
}

/// The list in a member.
pub fn json_list_at<'a>(j: &'a Json, name: &str) -> (r: Option<&'a Vec<Json>>)
    ensures
        r.deep_view() == list_at(j.deep_view(), name@),
{
    match json_get(j, name) {
        Some(v) => json_items(v),
        None => None,
    }
}

/// The text in a member.
pub open spec fn text_at(j: JsonView, name: Seq<char>) -> Option<Seq<char>> {
    match member_of(j, name) {
        Some(v) => text_in(v),
        None => None,
    }
}

/// The text in a member.
pub fn json_text_at<'a>(j: &'a Json, name: &str) -> (r: Option<&'a str>)
    ensures
        r.deep_view() == text_at(j.deep_view(), name@),
{
    match json_get(j, name) {
        Some(v) => json_text(v),
        None => None,
    }
}

/// A value as compact JSON text.
pub open spec fn json_printed(j: JsonView) -> Seq<char>
    decreases j,
{
    match j {
        JsonView::Null => "null"@,
        JsonView::Bool(b) => bool_word(b),
        JsonView::Number(n) => n,
        JsonView::Text(t) => json_quoted(t),
        JsonView::List(items) => json_array_spec(items_printed(items)),
        JsonView::Object(members) => json_object_spec(members_printed(members)),
    }
}

/// Values as compact JSON texts.
pub open spec fn items_printed(items: Seq<JsonView>) -> Seq<Seq<char>>
    decreases items,
{
    if items.len() == 0 {
        Seq::empty()
    } else {
        items_printed(items.drop_last()).push(json_printed(items.last()))
    }
}

/// Members as compact JSON texts.
pub open spec fn members_printed(members: Seq<(Seq<char>, JsonView)>) -> Seq<Seq<char>>
    decreases members,
{
    if members.len() == 0 {
        Seq::empty()
    } else {
        members_printed(members.drop_last()).push(
            json_quoted(members.last().0) + ":"@ + json_printed(members.last().1),
        )
    }
}

/// A value as compact JSON text.
pub fn print_json(j: &Json) -> (r: String)
    ensures
        r@ == json_printed(j.deep_view()),
    decreases *j,
{
    proof {
        lemma_json_view(*j);
    }
    match j {
        Json::Null => "null".to_string(),
        Json::Bool(b) => bool_text(*b).to_string(),
        Json::Number(n) => n.clone(),
        Json::Text(t) => json_quote(t),
        Json::List(items) => json_array(&print_items(items)),
        Json::Object(members) => json_object(&print_members(members)),
    }
}

/// Values as compact JSON texts.
fn print_items(items: &Vec<Json>) -> (r: Vec<String>)
    ensures
        r.deep_view() == items_printed(items.deep_view()),
    decreases *items,
{
    let ghost all = items.deep_view();
    let mut texts: Vec<String> = Vec::new();
    let mut i: usize = 0;
    proof {
        ends(all);
        assert(texts.deep_view() =~= Seq::<Seq<char>>::empty());
    }
    while i < items.len()
        invariant
            i <= items@.len(),
            all == items.deep_view(),
            texts.deep_view() == items_printed(all.take(i as int)),
        decreases items@.len() - i,
    {
        proof {
            step(all, i as int);
            assert(decreases_to!(*items => items@));
            assert(decreases_to!(items@ => items@[i as int]));
        }
        put(&mut texts, &print_json(&items[i]));
        i = i + 1;
    }
    proof {
        ends(all);
    }
    texts
}

/// Members as compact JSON texts.
fn print_members(members: &Vec<(String, Json)>) -> (r: Vec<String>)
    ensures
        r.deep_view() == members_printed(members.deep_view()),
    decreases *members,
{
    let ghost all = members.deep_view();
    let mut texts: Vec<String> = Vec::new();
    let mut i: usize = 0;
    proof {
        ends(all);
        assert(texts.deep_view() =~= Seq::<Seq<char>>::empty());
    }
    while i < members.len()
        invariant
            i <= members@.len(),
            all == members.deep_view(),
            texts.deep_view() == members_printed(all.take(i as int)),
        decreases members@.len() - i,
    {
        proof {
            step(all, i as int);
            assert(decreases_to!(*members => members@));
            assert(decreases_to!(members@ => members@[i as int]));
            assert(decreases_to!(members@[i as int] => members@[i as int].1));
        }
        put(
            &mut texts,
            &cat3(&json_quote(&members[i].0), ":", &print_json(&members[i].1)),
        );
        i = i + 1;
    }
    proof {
        ends(all);
    }
    texts
}

/// A member of an object. The name needs no escapes.
pub open spec fn json_member_spec(name: Seq<char>, value: Seq<char>) -> Seq<char> {
    "\""@ + name + "\":"@ + value
}

/// A member of an object.
pub fn json_member(name: &str, value: &str) -> (r: String)
    ensures
        r@ == json_member_spec(name@, value@),
{
    cat4("\"", name, "\":", value)
}

/// An object with these members, in this order.
pub open spec fn json_object_spec(members: Seq<Seq<char>>) -> Seq<char> {
    "{"@ + joined(members, ","@) + "}"@
}

/// An object with these members, in this order.
pub fn json_object(members: &Vec<String>) -> (r: String)
    ensures
        r@ == json_object_spec(members.deep_view()),
{
    cat3("{", &join(members, ","), "}")
}

/// An array of these values.
pub open spec fn json_array_spec(values: Seq<Seq<char>>) -> Seq<char> {
    "["@ + joined(values, ","@) + "]"@
}

/// An array of these values.
pub fn json_array(values: &Vec<String>) -> (r: String)
    ensures
        r@ == json_array_spec(values.deep_view()),
{
    cat3("[", &join(values, ","), "]")
}

/// A text, or `null`.
pub open spec fn json_optional_spec(text: Option<Seq<char>>) -> Seq<char> {
    match text {
        Some(t) => json_quoted(t),
        None => "null"@,
    }
}

/// A text, or `null`.
pub fn json_optional(text: Option<&str>) -> (r: String)
    ensures
        r@ == json_optional_spec(text.deep_view()),
{
    match text {
        Some(t) => json_quote(t),
        None => "null".to_string(),
    }
}

/// A flag, or `null`.
pub open spec fn json_flag_spec(flag: Option<bool>) -> Seq<char> {
    match flag {
        Some(b) => bool_word(b),
        None => "null"@,
    }
}

/// A flag, or `null`.
pub fn json_flag(flag: Option<bool>) -> (r: &'static str)
    ensures
        r@ == json_flag_spec(flag),
{
    match flag {
        Some(b) => bool_text(b),
        None => "null",
    }
}

/// An array of texts.
pub open spec fn json_texts_spec(texts: Seq<Seq<char>>) -> Seq<char> {
    json_array_spec(texts.map_values(|t: Seq<char>| json_quoted(t)))
}

/// An array of texts.
pub fn json_texts(texts: &Vec<String>) -> (r: String)
    ensures
        r@ == json_texts_spec(texts.deep_view()),
{
    json_array(
        &map_each(
            texts,
            |t: &String| -> (r: String)
                ensures
                    r.deep_view() == json_quoted(t@)
                { json_quote(t) },
            Ghost(|t: Seq<char>| json_quoted(t)),
        ),
    )
}

/// Quoting goes by the parts of a text, and quotes, backslashes and control characters never
/// stand in it as they are.
pub proof fn law_quoted_parts(a: Seq<char>, b: Seq<char>)
    ensures
        json_quoted(a + b) == json_quoted(a).drop_last() + json_quoted(b).skip(1),
        json_quoted(a)[0] == '"' && json_quoted(a).last() == '"',
        json_quoted(Seq::empty()) == seq!['"', '"'],
{
    let f = |c: char| json_escaped(c);
    lemma_gathered_parts(a, b, f);
    let x = gathered(a, f);
    let y = gathered(b, f);
    assert(json_quoted(a) =~= seq!['"'] + x + seq!['"']);
    assert(json_quoted(a).drop_last() =~= seq!['"'] + x);
    assert(json_quoted(b).skip(1) =~= y + seq!['"']);
    assert(json_quoted(a + b) =~= (seq!['"'] + x) + (y + seq!['"']));
    assert(gathered(Seq::<char>::empty(), f) =~= Seq::<char>::empty());
    assert(json_quoted(Seq::empty()) =~= seq!['"', '"']);
}

proof fn lemma_gathered_parts<A, B>(a: Seq<A>, b: Seq<A>, f: spec_fn(A) -> Seq<B>)
    ensures
        gathered(a + b, f) == gathered(a, f) + gathered(b, f),
    decreases b.len(),
{
    if b.len() > 0 {
        lemma_gathered_parts(a, b.drop_last(), f);
        assert((a + b).drop_last() =~= a + b.drop_last());
        assert((a + b).last() == b.last());
        assert(gathered(a + b, f) =~= gathered(a, f) + gathered(b, f));
    } else {
        assert(a + b =~= a);
        assert(gathered(a, f) + gathered(b, f) =~= gathered(a, f));
    }
}

/// What stands for a character in a quoted text: a quote or a backslash behind a backslash,
/// five control characters by a letter, the others by their number, and any other
/// character itself. No two characters are written alike.
pub proof fn law_escaped_characters(c: char, d: char)
    ensures
        c == '"' || c == '\\' ==> json_escaped(c) == seq!['\\', c],
        (c as u32) >= 32 && c != '"' && c != '\\' ==> json_escaped(c) == seq![c],
        (c as u32) < 32 ==> json_escaped(c).len() >= 2 && json_escaped(c)[0] == '\\',
        c == '\n' ==> json_escaped(c) == seq!['\\', 'n'],
        c == '\r' ==> json_escaped(c) == seq!['\\', 'r'],
        c == '\t' ==> json_escaped(c) == seq!['\\', 't'],
        json_escaped(c) == json_escaped(d) ==> c == d,
{
    if json_escaped(c) == json_escaped(d) && c != d {
        let x = json_escaped(c);
        if x.len() == 6 {
            assert(json_escaped(d).len() == 6);
            let m = c as u32 as int;
            let n = d as u32 as int;
            assert(x[4] == hex_char(m / 16) && x[5] == hex_char(m % 16));
            assert(json_escaped(d)[4] == hex_char(n / 16) && json_escaped(d)[5] == hex_char(
                n % 16,
            ));
            assert(0 <= m < 32 && 0 <= n < 32);
            lemma_hex_chars(m / 16, n / 16);
            lemma_hex_chars(m % 16, n % 16);
            assert(m == n);
        } else {
            assert(x[0] == json_escaped(d)[0]);
            if x.len() == 2 {
                assert(x[1] == json_escaped(d)[1]);
            }
        }
    }
}

proof fn lemma_hex_chars(m: int, n: int)
    requires
        0 <= m < 16,
        0 <= n < 16,
        hex_char(m) == hex_char(n),
    ensures
        m == n,
{
}

/// An object is its members between braces, a list its values between brackets, with commas
/// between them; a value that is missing is written as null.
pub proof fn law_written_json(
    name: Seq<char>,
    value: Seq<char>,
    other: Seq<char>,
    text: Seq<char>,
)
    ensures
        json_object_spec(seq![value, other]) == seq!['{'] + value + seq![','] + other + seq!['}'],
        json_array_spec(seq![value, other]) == seq!['['] + value + seq![','] + other + seq![']'],
        json_member_spec(name, value) == seq!['"'] + name + seq!['"', ':'] + value,
        json_optional_spec(Some(text)) == json_quoted(text),
        json_optional_spec(None) == "null"@,
        json_flag_spec(Some(true)) == "true"@,
        json_flag_spec(Some(false)) == "false"@,
        json_flag_spec(None) == "null"@,
{
    reveal_strlit("{");
    reveal_strlit("}");
    reveal_strlit("[");
    reveal_strlit("]");
    reveal_strlit(",");
    reveal_strlit("\"");
    reveal_strlit("\":");
    let both = seq![value, other];
    assert(both.drop_last() =~= seq![value]);
    assert(joined(seq![value], ","@) == value);
    assert(joined(both, ","@) == value + ","@ + other);
    assert(json_object_spec(both) =~= seq!['{'] + value + seq![','] + other + seq!['}']);
    assert(json_array_spec(both) =~= seq!['['] + value + seq![','] + other + seq![']']);
    assert(json_member_spec(name, value) =~= seq!['"'] + name + seq!['"', ':'] + value);
}

/// The member of an object under a name is the first of that name; nothing else has
/// members, items or a text but an object, a list and a text.
pub proof fn law_members(j: JsonView, name: Seq<char>)
    ensures
        match member_of(j, name) {
            Some(v) => j matches JsonView::Object(members) && exists|i: int|
                0 <= i < members.len() && match #[trigger] members[i] {
                    (n, w) => n == name && w == v,
                } && forall|k: int| 0 <= k < i ==> !has_name(name)(#[trigger] members[k]),
            None => j matches JsonView::Object(members) ==> forall|i: int|
                0 <= i < members.len() ==> !has_name(name)(#[trigger] members[i]),
        },
        text_at(j, name) is Some <==> member_of(j, name) is Some && member_of(j, name)->0 is Text,
        text_at(j, name) is Some ==> member_of(j, name) == Some(
            JsonView::Text(text_at(j, name)->0),
        ),
        list_at(j, name) is Some <==> member_of(j, name) is Some && member_of(j, name)->0 is List,
        list_at(j, name) is Some ==> member_of(j, name) == Some(
            JsonView::List(list_at(j, name)->0),
        ),
{
    if let JsonView::Object(members) = j {
        let p = has_name(name);
        law_first_where(members, p);
        if first_where(members, p) is Some {
            let i = choose|i: int|
                0 <= i < members.len() && #[trigger] members[i] == first_where(members, p)->0 && p(
                    members[i],
                ) && forall|k: int| 0 <= k < i ==> !p(#[trigger] members[k]);
            assert(p(members[i]));
        }
    }
}

} // verus!

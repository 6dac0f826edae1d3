//! The library's own JSON tree.
//!
//! Feed payloads arrive as text. An outside parser turns the text into this
//! tree once, at the boundary; every decoding rule of the library is then a
//! verified function over `Json` and its mathematical view `JVal`.
//!
//! Numbers are kept only as unsigned integers: that is all the feed's
//! payloads use (identifiers, counts, cursors); anything else is left as
//! `Num(None)`, which the decoders reject rather than coerce.

use vstd::prelude::*;

verus! {

broadcast use vstd::std_specs::vec::group_vec_axioms;

/// A JSON document as plain values. Object entries keep the order in which
/// the parser hands them out.
#[derive(Debug, PartialEq, Eq)]
pub enum Json {
    Null,
    Bool(bool),
    /// An unsigned integer, or `None` for any other number.
    Num(Option<u64>),
    Str(String),
    Arr(Vec<Json>),
    Obj(Vec<(String, Json)>),
}

/// The mathematical view of a `Json` tree.
pub enum JVal {
    Null,
    Bool(bool),
    Num(Option<u64>),
    Str(Seq<char>),
    Arr(Seq<JVal>),
    Obj(Seq<(Seq<char>, JVal)>),
}

/// The view of one node.
pub open spec fn jval_of(j: Json) -> JVal
    decreases j,
    via jval_of_dec
{
    match j {
        Json::Null => JVal::Null,
        Json::Bool(b) => JVal::Bool(b),
        Json::Num(n) => JVal::Num(n),
        Json::Str(s) => JVal::Str(s@),
        Json::Arr(items) => JVal::Arr(jval_of_seq(items@)),
        Json::Obj(entries) => JVal::Obj(jval_of_entries(entries@)),
    }
}

/// The views of the elements of an array, in order.
pub open spec fn jval_of_seq(items: Seq<Json>) -> Seq<JVal>
    decreases items,
{
    if items.len() == 0 {
        Seq::empty()
    } else {
        jval_of_seq(items.drop_last()).push(jval_of(items.last()))
    }
}

/// The views of the entries of an object, in order.
pub open spec fn jval_of_entries(entries: Seq<(String, Json)>) -> Seq<(Seq<char>, JVal)>
    decreases entries,
    via jval_of_entries_dec
{
    if entries.len() == 0 {
        Seq::empty()
    } else {
        jval_of_entries(entries.drop_last()).push(
            (entries.last().0@, jval_of(entries.last().1)),
        )
    }
}

#[via_fn]
proof fn jval_of_dec(j: Json) {
    match j {
        Json::Arr(items) => {
            assert(decreases_to!(j => items));
            assert(decreases_to!(items => items@));
        },
        Json::Obj(entries) => {
            assert(decreases_to!(j => entries));
            assert(decreases_to!(entries => entries@));
        },
        _ => {},
    }
}

#[via_fn]
proof fn jval_of_entries_dec(entries: Seq<(String, Json)>) {
    if entries.len() > 0 {
        assert(decreases_to!(entries => entries.last()));
        assert(decreases_to!(entries.last() => entries.last().1));
    }
}

impl View for Json {
    type V = JVal;

    open spec fn view(&self) -> JVal {
        jval_of(*self)
    }
}

pub proof fn lemma_jval_of_seq(items: Seq<Json>)
    ensures
        jval_of_seq(items).len() == items.len(),
        forall|i: int| 0 <= i < items.len() ==> jval_of_seq(items)[i] == jval_of(items[i]),
    decreases items.len(),
{
    if items.len() > 0 {
        lemma_jval_of_seq(items.drop_last());
    }
}

pub proof fn lemma_jval_of_entries(entries: Seq<(String, Json)>)
    ensures
        jval_of_entries(entries).len() == entries.len(),
        forall|i: int| 0 <= i < entries.len()
            ==> jval_of_entries(entries)[i] == (entries[i].0@, jval_of(entries[i].1)),
    decreases entries.len(),
{
    if entries.len() > 0 {
        lemma_jval_of_entries(entries.drop_last());
    }
}

/// The value under `key` in an entry list: the first entry that carries the
/// key, or `Null` when none does.
pub open spec fn obj_get(entries: Seq<(Seq<char>, JVal)>, key: Seq<char>) -> JVal
    decreases entries.len(),
{
    if entries.len() == 0 {
        JVal::Null
    } else if entries[0].0 == key {
        entries[0].1
    } else {
        obj_get(entries.drop_first(), key)
    }
}

/// Field lookup as the upstream payloads use it: `Null` stands both for an
/// absent key and for a value that is not an object, so "missing" and
/// "explicitly null" decode alike.
pub open spec fn jget(v: JVal, key: Seq<char>) -> JVal {
    match v {
        JVal::Obj(entries) => obj_get(entries, key),
        _ => JVal::Null,
    }
}

proof fn lemma_obj_get_step(entries: Seq<(Seq<char>, JVal)>, key: Seq<char>, i: int)
    requires
        0 <= i < entries.len(),
        entries[i].0 != key,
    ensures
        obj_get(entries.skip(i), key) == obj_get(entries.skip(i + 1), key),
{
    assert(entries.skip(i)[0] == entries[i]);
    assert(entries.skip(i).drop_first() =~= entries.skip(i + 1));
}

impl Json {
    /// Looks a key up in an object, as the view's `jget` does; `None` is
    /// handed back wherever no entry carries the key, which `jget` maps
    /// to `Null`.
    pub fn get<'a>(&'a self, key: &str) -> (r: Option<&'a Json>)
        ensures
            match r {
                Some(j) => j@ == jget(self@, key@),
                None => jget(self@, key@) == JVal::Null,
            },
    {
        match self {
            Json::Obj(entries) => {
                let ghost es = self@->Obj_0;
                proof {
                    assert(self@ is Obj);
                    lemma_jval_of_entries(entries@);
                    assert(es.skip(0) =~= es);
                }
                let n = entries.len();
                for i in 0..n
                    invariant
                        n == entries.len(),
                        self@ is Obj,
                        es == self@->Obj_0,
                        es == jval_of_entries(entries@),
                        es.len() == entries@.len(),
                        forall|j: int| 0 <= j < es.len()
                            ==> es[j] == (entries@[j].0@, jval_of(entries@[j].1)),
                        obj_get(es.skip(i as int), key@) == obj_get(es, key@),
                {
                    proof {
                        assert(es.skip(i as int)[0] == es[i as int]);
                    }
                    if crate::text::str_eq(entries[i].0.as_str(), key) {
                        proof {
                            assert(obj_get(es.skip(i as int), key@) == es[i as int].1);
                        }
                        return Some(&entries[i].1);
                    }
                    proof {
                        lemma_obj_get_step(es, key@, i as int);
                    }
                }
                proof {
                    assert(es.skip(n as int) =~= Seq::<(Seq<char>, JVal)>::empty());
                }
                None
            },
            _ => None,
        }
    }
}

#[verifier::external_type_specification]
#[verifier::external_body]
pub struct ExValue(serde_json::Value);

/// What the outside parser yields on a given text: the library's tree for a
/// document the parser accepts, `None` for one it rejects. Parsing is a pure
/// function of the text, so the outcome carries one name for all calls.
pub uninterp spec fn jval_of_text(s: Seq<char>) -> Option<JVal>;

/// Relies on serde_json::Value: the match covers its six variants one to
/// one, moving each payload into the library's own tree. A number keeps its
/// value only when it is an unsigned integer (`Number::as_u64`); object
/// entries come out in the order the map iterates them, which for the
/// parser's default map is sorted by key and so fixed for a given document.
#[verifier::external_body]
fn value_to_json(v: serde_json::Value) -> Json {
    match v {
        serde_json::Value::Null => Json::Null,
        serde_json::Value::Bool(b) => Json::Bool(b),
        serde_json::Value::Number(n) => Json::Num(n.as_u64()),
        serde_json::Value::String(s) => Json::Str(s),
        serde_json::Value::Array(a) => Json::Arr(a.into_iter().map(value_to_json).collect()),
        serde_json::Value::Object(m) => Json::Obj(
            m.into_iter().map(|(k, member)| (k, value_to_json(member))).collect(),
        ),
    }
}

/// Relies on serde_json::from_str: whether a text parses, and to what
/// document, depends on the text alone, so the result equals the named
/// parse outcome `jval_of_text` on every call.
#[verifier::external_body]
pub fn parse_json_text(s: &str) -> (r: Option<Json>)
    ensures
        match r {
            Some(j) => jval_of_text(s@) == Some(j@),
            None => jval_of_text(s@) is None,
        },
{
    serde_json::from_str::<serde_json::Value>(s).ok().map(value_to_json)
}

} // verus!

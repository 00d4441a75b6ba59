//! A small JSON-shaped value type.
//!
//! The remote completion API exchanges JSON documents; the pipeline reads a
//! handful of fields out of them and builds a few of its own.  `JsonValue`
//! holds such a document as plain data, and `Json` is its mathematical model,
//! used by every contract that speaks about a payload.

use vstd::prelude::*;

verus! {

/// A JSON-shaped document as executable data.
///
/// Numbers are held as signed machine integers: the fields the pipeline
/// reads (token counts, iteration counts) are integral, and a payload
/// carrying anything else is simply passed through untouched.
#[derive(Debug)]
pub enum JsonValue {
    Null,
    Bool(bool),
    Int(i64),
    Str(String),
    Arr(Vec<JsonValue>),
    Obj(Vec<(String, JsonValue)>),
}

/// The mathematical model of a [`JsonValue`].
#[verifier::ext_equal]
pub enum Json {
    Null,
    Bool(bool),
    Int(i64),
    Str(Seq<char>),
    Arr(Seq<Json>),
    Obj(Seq<(Seq<char>, Json)>),
}

/// The model of a value: the same tree with strings and vectors replaced
/// by their views.
pub open spec fn jmodel(v: JsonValue) -> Json
    decreases v,
{
    match v {
        JsonValue::Null => Json::Null,
        JsonValue::Bool(b) => Json::Bool(b),
        JsonValue::Int(i) => Json::Int(i),
        JsonValue::Str(s) => Json::Str(s@),
        JsonValue::Arr(a) => Json::Arr(jmodel_seq(a@)),
        JsonValue::Obj(o) => Json::Obj(jmodel_fields(o@)),
    }
}

pub open spec fn jmodel_seq(s: Seq<JsonValue>) -> Seq<Json>
    decreases s,
{
    if s.len() == 0 {
        Seq::empty()
    } else {
        seq![jmodel(s[0])] + jmodel_seq(s.drop_first())
    }
}

pub open spec fn jmodel_fields(s: Seq<(String, JsonValue)>) -> Seq<(Seq<char>, Json)>
    decreases s,
{
    if s.len() == 0 {
        Seq::empty()
    } else {
        seq![(s[0].0@, jmodel(s[0].1))] + jmodel_fields(s.drop_first())
    }
}

impl View for JsonValue {
    type V = Json;

    open spec fn view(&self) -> Json {
        jmodel(*self)
    }
}

/// The model of a sequence of values is the sequence of their models.
pub proof fn lemma_jmodel_seq(s: Seq<JsonValue>)
    ensures
        jmodel_seq(s).len() == s.len(),
        forall|i: int| 0 <= i < s.len() ==> jmodel_seq(s)[i] == jmodel(s[i]),
    decreases s,
{
    if s.len() > 0 {
        lemma_jmodel_seq(s.drop_first());
    }
}

/// The model of a field list is the list of the fields' models.
pub proof fn lemma_jmodel_fields(s: Seq<(String, JsonValue)>)
    ensures
        jmodel_fields(s).len() == s.len(),
        forall|i: int| 0 <= i < s.len() ==> jmodel_fields(s)[i] == (s[i].0@, jmodel(s[i].1)),
    decreases s,
{
    if s.len() > 0 {
        lemma_jmodel_fields(s.drop_first());
    }
}

/// The value of the first field named `key`, if any.
pub open spec fn obj_get(fields: Seq<(Seq<char>, Json)>, key: Seq<char>) -> Option<Json>
    decreases fields,
{
    if fields.len() == 0 {
        None
    } else if fields[0].0 == key {
        Some(fields[0].1)
    } else {
        obj_get(fields.drop_first(), key)
    }
}

/// Looking a key up in a value: the first matching field of an object,
/// nothing for any other shape.
pub open spec fn json_get(j: Json, key: Seq<char>) -> Option<Json> {
    match j {
        Json::Obj(fields) => obj_get(fields, key),
        _ => None,
    }
}

/// The characters of a string value, if the value is a string.
pub open spec fn json_str(j: Json) -> Option<Seq<char>> {
    match j {
        Json::Str(s) => Some(s),
        _ => None,
    }
}

/// The elements of an array value, if the value is an array.
pub open spec fn json_arr(j: Json) -> Option<Seq<Json>> {
    match j {
        Json::Arr(a) => Some(a),
        _ => None,
    }
}

/// The integer of a numeric value, if the value is a number.
pub open spec fn json_int(j: Json) -> Option<i64> {
    match j {
        Json::Int(i) => Some(i),
        _ => None,
    }
}

/// Looking `key` up under `j` and keeping the result only when it is a string.
pub open spec fn json_get_str(j: Json, key: Seq<char>) -> Option<Seq<char>> {
    match json_get(j, key) {
        Some(v) => json_str(v),
        None => None,
    }
}

/// Looking `key` up under `j` and keeping the result only when it is a
/// non-negative number, as the unsigned count it stands for.
pub open spec fn json_get_u64(j: Json, key: Seq<char>) -> Option<u64> {
    match json_get(j, key) {
        Some(Json::Int(i)) => if i >= 0 {
            Some(i as u64)
        } else {
            None
        },
        _ => None,
    }
}

impl JsonValue {
    /// The first field named `key`, when this value is an object that has one.
    pub fn get<'a>(&'a self, key: &str) -> (r: Option<&'a JsonValue>)
        ensures
            match r {
                Some(v) => json_get(self@, key@) == Some(v@),
                None => json_get(self@, key@) is None,
            },
    {
        match self {
            JsonValue::Obj(fields) => {
                let ghost gfields = fields@;
                let ghost gm = jmodel_fields(gfields);
                proof {
                    lemma_jmodel_fields(gfields);
                    assert(gm.skip(0) =~= gm);
                }
                for i in 0..fields.len()
                    invariant
                        *self == JsonValue::Obj(*fields),
                        gfields == fields@,
                        gm == jmodel_fields(gfields),
                        obj_get(gm, key@) == obj_get(gm.skip(i as int), key@),
                        gm.len() == gfields.len(),
                        forall|k: int|
                            0 <= k < gfields.len() ==> gm[k] == (
                            gfields[k].0@,
                            jmodel(gfields[k].1),
                            ),
                {
                    proof {
                        assert(gm.skip(i as int)[0] == gm[i as int]);
                        assert(gm.skip(i as int).drop_first() =~= gm.skip(i + 1));
                    }
                    if crate::text::str_eq(fields[i].0.as_str(), key) {
                        proof {
                            assert(obj_get(gm.skip(i as int), key@) == Some(
                                jmodel(gfields[i as int].1),
                            ));
                        }
                        return Some(&fields[i].1);
                    }
                }
                proof {
                    assert(gm.skip(gfields.len() as int) =~= Seq::empty());
                }
                None
            },
            _ => None,
        }
    }

    /// The characters of this value, when it is a string.
    pub fn as_str<'a>(&'a self) -> (r: Option<&'a str>)
        ensures
            match r {
                Some(s) => json_str(self@) == Some(s@),
                None => json_str(self@) is None,
            },
    {
        match self {
            JsonValue::Str(s) => Some(s.as_str()),
            _ => None,
        }
    }

    /// The elements of this value, when it is an array.
    pub fn as_arr<'a>(&'a self) -> (r: Option<&'a Vec<JsonValue>>)
        ensures
            match r {
                Some(a) => json_arr(self@) == Some(jmodel_seq(a@)),
                None => json_arr(self@) is None,
            },
    {
        match self {
            JsonValue::Arr(a) => Some(a),
            _ => None,
        }
    }

    /// The integer of this value, when it is a number.
    pub fn as_int(&self) -> (r: Option<i64>)
        ensures
            r == json_int(self@),
    {
        match self {
            JsonValue::Int(i) => Some(*i),
            _ => None,
        }
    }
}

impl Clone for JsonValue {
    /// A deep copy with the same model.
    fn clone(&self) -> (r: Self)
        ensures
            r@ == self@,
    {
        clone_value(self)
    }
}

/// A deep copy of a value, equal to it in the model.
fn clone_value(v: &JsonValue) -> (r: JsonValue)
    ensures
        r@ == v@,
    decreases v,
{
    match v {
        JsonValue::Null => JsonValue::Null,
        JsonValue::Bool(b) => JsonValue::Bool(*b),
        JsonValue::Int(i) => JsonValue::Int(*i),
        JsonValue::Str(s) => JsonValue::Str(s.clone()),
        JsonValue::Arr(a) => {
            let mut out: Vec<JsonValue> = Vec::new();
            let ghost ga = a@;
            for i in 0..a.len()
                invariant
                    *v == JsonValue::Arr(*a),
                    ga == a@,
                    out@.len() == i,
                    forall|k: int| 0 <= k < i ==> jmodel(#[trigger] out@[k]) == jmodel(ga[k]),
                decreases a@.len() - i,
            {
                proof {
                    assert(decreases_to!(*v => v->Arr_0));
                    assert(v->Arr_0 == *a);
                    assert(decreases_to!(*a => a@));
                    assert(decreases_to!(a@ => a@[i as int]));
                }
                out.push(clone_value(&a[i]));
            }
            proof {
                lemma_jmodel_seq(out@);
                lemma_jmodel_seq(ga);
                assert(jmodel_seq(out@) =~= jmodel_seq(ga));
            }
            JsonValue::Arr(out)
        },
        JsonValue::Obj(o) => {
            let mut out: Vec<(String, JsonValue)> = Vec::new();
            let ghost go = o@;
            for i in 0..o.len()
                invariant
                    *v == JsonValue::Obj(*o),
                    go == o@,
                    out@.len() == i,
                    forall|k: int|
                        0 <= k < i ==> (#[trigger] out@[k]).0@ == go[k].0@ && jmodel(out@[k].1)
                            == jmodel(go[k].1),
                decreases o@.len() - i,
            {
                proof {
                    assert(decreases_to!(*v => v->Obj_0));
                    assert(v->Obj_0 == *o);
                    assert(decreases_to!(*o => o@));
                    assert(decreases_to!(o@ => o@[i as int]));
                    assert(decreases_to!(o@[i as int] => o@[i as int].1));
                }
                let name = o[i].0.clone();
                let val = clone_value(&o[i].1);
                out.push((name, val));
            }
            proof {
                lemma_jmodel_fields(out@);
                lemma_jmodel_fields(go);
                assert(jmodel_fields(out@) =~= jmodel_fields(go));
            }
            JsonValue::Obj(out)
        },
    }
}

} // verus!

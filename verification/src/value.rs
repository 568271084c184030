//! Loosely typed values: what the vendor sends where no shape is fixed, and
//! what every answer is before it is read against the wire schema.

use vstd::prelude::*;
use vstd::string::StringExecFns;

verus! {

/// A loosely typed value: an open sum, matched on by tag.
///
/// A floating-point number is held by its binary64 bit pattern. The last
/// three variants are the structured documents; the fields of an object stay
/// in the order in which they came.
#[derive(Debug, PartialEq, Eq)]
pub enum Value {
    Integer(i64),
    Float(u64),
    Boolean(bool),
    Text(String),
    Null,
    Array(Vec<Value>),
    Object(Vec<(String, Value)>),
}

/// What a [`Value`] stands for.
pub enum ValueModel {
    Integer(i64),
    Float(u64),
    Boolean(bool),
    Text(Seq<char>),
    Null,
    Array(Seq<ValueModel>),
    Object(Seq<(Seq<char>, ValueModel)>),
}

/// What a value stands for, to any depth.
pub open spec fn value_model(value: Value) -> ValueModel
    decreases value,
{
    match value {
        Value::Integer(n) => ValueModel::Integer(n),
        Value::Float(bits) => ValueModel::Float(bits),
        Value::Boolean(b) => ValueModel::Boolean(b),
        Value::Text(s) => ValueModel::Text(s@),
        Value::Null => ValueModel::Null,
        Value::Array(items) => ValueModel::Array(
            Seq::new(
                items@.len(),
                |i: int|
                    if 0 <= i < items@.len() {
                        value_model(items@[i])
                    } else {
                        ValueModel::Null
                    },
            ),
        ),
        Value::Object(fields) => ValueModel::Object(
            Seq::new(
                fields@.len(),
                |i: int|
                    if 0 <= i < fields@.len() {
                        (fields@[i].0@, value_model(fields@[i].1))
                    } else {
                        (Seq::empty(), ValueModel::Null)
                    },
            ),
        ),
    }
}

impl View for Value {
    type V = ValueModel;

    open spec fn view(&self) -> ValueModel {
        value_model(*self)
    }
}

/// The models of the fields of an object, in order.
pub open spec fn field_models(fields: Seq<(String, Value)>) -> Seq<(Seq<char>, ValueModel)> {
    Seq::new(fields.len(), |i: int| (fields[i].0@, fields[i].1@))
}

/// The view of an array is the sequence of the views of its items, and the
/// view of an object the sequence of the views of its fields.
pub proof fn lemma_view_of_structured(value: Value)
    ensures
        value matches Value::Array(items) ==> value@ == ValueModel::Array(
            crate::model::models(items@),
        ),
        value matches Value::Object(fields) ==> value@ == ValueModel::Object(
            field_models(fields@),
        ),
{
    match value {
        Value::Array(items) => {
            assert(value@ is Array);
            assert(value@->Array_0.len() == items@.len());
            assert forall|i: int| 0 <= i < items@.len() implies value@->Array_0[i]
                == items@[i]@ by {}
            assert(value@->Array_0 =~= crate::model::models(items@));
        },
        Value::Object(fields) => {
            assert(value@ is Object);
            assert(value@->Object_0.len() == fields@.len());
            assert forall|i: int| 0 <= i < fields@.len() implies value@->Object_0[i] == (
                fields@[i].0@,
                fields@[i].1@,
            ) by {}
            assert(value@->Object_0 =~= field_models(fields@));
        },
        _ => {},
    }
}

/// The value of the first field of the given name, if there is one.
pub open spec fn lookup(fields: Seq<(Seq<char>, ValueModel)>, name: Seq<char>) -> Option<
    ValueModel,
>
    decreases fields.len(),
{
    if fields.len() == 0 {
        None
    } else if fields[0].0 == name {
        Some(fields[0].1)
    } else {
        lookup(fields.skip(1), name)
    }
}

/// What [`lookup`] finds is the value of a field of that name which no field
/// of that name precedes; it finds nothing only where no field has the name.
pub proof fn lemma_lookup(fields: Seq<(Seq<char>, ValueModel)>, name: Seq<char>)
    ensures
        match lookup(fields, name) {
            Some(value) => exists|i: int|
                {
                    &&& 0 <= i < fields.len()
                    &&& #[trigger] fields[i] == (name, value)
                    &&& forall|j: int| 0 <= j < i ==> fields[j].0 != name
                },
            None => forall|j: int| 0 <= j < fields.len() ==> fields[j].0 != name,
        },
    decreases fields.len(),
{
    if fields.len() != 0 && fields[0].0 != name {
        let rest = fields.skip(1);
        lemma_lookup(rest, name);
        match lookup(rest, name) {
            Some(value) => {
                let i = choose|i: int|
                    {
                        &&& 0 <= i < rest.len()
                        &&& #[trigger] rest[i] == (name, value)
                        &&& forall|j: int| 0 <= j < i ==> rest[j].0 != name
                    };
                assert(fields[i + 1] == rest[i]);
                assert forall|j: int| 0 <= j < i + 1 implies fields[j].0 != name by {
                    if j > 0 {
                        assert(fields[j] == rest[j - 1]);
                    }
                }
            },
            None => {
                assert forall|j: int| 0 <= j < fields.len() implies fields[j].0 != name by {
                    if j > 0 {
                        assert(fields[j] == rest[j - 1]);
                    }
                }
            },
        }
    } else if fields.len() != 0 {
        assert(fields[0] == (name, fields[0].1));
    }
}

/// Finds the value of the first field of the given name.
pub fn field<'a>(fields: &'a Vec<(String, Value)>, name: &str) -> (found: Option<&'a Value>)
    ensures
        match found {
            Some(value) => lookup(field_models(fields@), name@) == Some(value@),
            None => lookup(field_models(fields@), name@) is None,
        },
{
    let wanted = String::from_str(name);
    let ghost all = field_models(fields@);
    let mut i: usize = 0;
    assert(all.skip(0) == all);
    while i < fields.len()
        invariant
            i <= fields.len(),
            wanted@ == name@,
            all == field_models(fields@),
            lookup(all, name@) == lookup(all.skip(i as int), name@),
        decreases fields.len() - i,
    {
        let ghost rest = all.skip(i as int);
        assert(rest[0] == all[i as int]);
        assert(rest.skip(1) == all.skip(i + 1));
        if fields[i].0 == wanted {
            return Some(&fields[i].1);
        }
        i = i + 1;
    }
    assert(all.skip(i as int).len() == 0);
    None
}

/// Copies a value, to any depth.
pub fn clone_value(value: &Value) -> (copy: Value)
    ensures
        copy@ == value@,
    decreases value,
{
    match value {
        Value::Integer(n) => Value::Integer(*n),
        Value::Float(bits) => Value::Float(*bits),
        Value::Boolean(b) => Value::Boolean(*b),
        Value::Text(s) => Value::Text(s.clone()),
        Value::Null => Value::Null,
        Value::Array(items) => {
            let mut copies: Vec<Value> = Vec::new();
            let mut i: usize = 0;
            while i < items.len()
                invariant
                    i <= items.len(),
                    copies@.len() == i,
                    value is Array,
                    value->Array_0 == *items,
                    forall|j: int| 0 <= j < i ==> (#[trigger] copies@[j])@ == items@[j]@,
                decreases items.len() - i,
            {
                assert(decreases_to!(value => items[i as int]));
                let copy = clone_value(&items[i]);
                copies.push(copy);
                i = i + 1;
            }
            proof {
                lemma_view_of_structured(Value::Array(copies));
                lemma_view_of_structured(*value);
                assert(crate::model::models(copies@) =~= crate::model::models(items@));
            }
            Value::Array(copies)
        },
        Value::Object(fields) => {
            let mut copies: Vec<(String, Value)> = Vec::new();
            let mut i: usize = 0;
            while i < fields.len()
                invariant
                    i <= fields.len(),
                    copies@.len() == i,
                    value is Object,
                    value->Object_0 == *fields,
                    forall|j: int|
                        0 <= j < i ==> (#[trigger] copies@[j]).0@ == fields@[j].0@ && copies@[j].1@
                            == fields@[j].1@,
                decreases fields.len() - i,
            {
                assert(decreases_to!(value => fields[i as int].1));
                let copy = clone_value(&fields[i].1);
                copies.push((fields[i].0.clone(), copy));
                i = i + 1;
            }
            proof {
                lemma_view_of_structured(Value::Object(copies));
                lemma_view_of_structured(*value);
                assert(field_models(copies@) =~= field_models(fields@));
            }
            Value::Object(copies)
        },
    }
}

} // verus!

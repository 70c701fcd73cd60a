use vstd::prelude::*;
use crate::text::str_to_chars;

verus! {

/// Structured argument and result data: the library's model of a JSON
/// document. Numbers are carried as their decimal text and read by the
/// scalar codec only where a handler needs their value.
pub enum JsonData {
    Null,
    Bool(bool),
    Num(String),
    Str(String),
    Arr(Vec<JsonData>),
    Obj(Vec<(String, JsonData)>),
}

/// The mathematical shape of structured data.
pub enum JVal {
    Null,
    Bool(bool),
    Num(Seq<char>),
    Str(Seq<char>),
    Arr(Seq<JVal>),
    Obj(Seq<(Seq<char>, JVal)>),
}

impl JsonData {
    /// The shape of this document.
    pub open spec fn deep(self) -> JVal
        decreases self,
        via Self::deep_decreases
    {
        match self {
            JsonData::Null => JVal::Null,
            JsonData::Bool(b) => JVal::Bool(b),
            JsonData::Num(s) => JVal::Num(s@),
            JsonData::Str(s) => JVal::Str(s@),
            JsonData::Arr(items) => JVal::Arr(items_deep(items@)),
            JsonData::Obj(fields) => JVal::Obj(fields_deep(fields@)),
        }
    }

    #[via_fn]
    proof fn deep_decreases(self) {
        match self {
            JsonData::Arr(items) => {
                vstd::std_specs::vec::axiom_vec_decreases_to_view(items);
            },
            JsonData::Obj(fields) => {
                vstd::std_specs::vec::axiom_vec_decreases_to_view(fields);
            },
            _ => {},
        }
    }
}

/// The shapes of an array's items.
pub open spec fn items_deep(v: Seq<JsonData>) -> Seq<JVal>
    decreases v,
    via items_deep_decreases
{
    if v.len() == 0 {
        Seq::empty()
    } else {
        seq![v[0].deep()] + items_deep(v.drop_first())
    }
}

#[via_fn]
proof fn items_deep_decreases(v: Seq<JsonData>) {
    if v.len() > 0 {
        vstd::seq::axiom_seq_index_decreases(v, 0);
        assert(v.drop_first() == v.subrange(1, v.len() as int));
        vstd::seq::axiom_seq_subrange_decreases(v, 1, v.len() as int);
    }
}

/// The shapes of an object's fields.
pub open spec fn fields_deep(v: Seq<(String, JsonData)>) -> Seq<(Seq<char>, JVal)>
    decreases v,
    via fields_deep_decreases
{
    if v.len() == 0 {
        Seq::empty()
    } else {
        seq![(v[0].0@, v[0].1.deep())] + fields_deep(v.drop_first())
    }
}

#[via_fn]
proof fn fields_deep_decreases(v: Seq<(String, JsonData)>) {
    if v.len() > 0 {
        vstd::seq::axiom_seq_index_decreases(v, 0);
        assert(v.drop_first() == v.subrange(1, v.len() as int));
        vstd::seq::axiom_seq_subrange_decreases(v, 1, v.len() as int);
    }
}

/// Indexing into the shapes of items and fields.
pub proof fn lemma_items_deep(v: Seq<JsonData>)
    ensures
        items_deep(v).len() == v.len(),
        forall|i: int| 0 <= i < v.len() ==> #[trigger] items_deep(v)[i] == v[i].deep(),
    decreases v.len(),
{
    if v.len() > 0 {
        let t = v.drop_first();
        lemma_items_deep(t);
        assert forall|i: int| 0 <= i < v.len() implies #[trigger] items_deep(v)[i] == v[i].deep() by {
            if i > 0 {
                assert(items_deep(v)[i] == items_deep(t)[i - 1]);
                assert(t[i - 1] == v[i]);
            }
        }
    }
}

pub proof fn lemma_fields_deep(v: Seq<(String, JsonData)>)
    ensures
        fields_deep(v).len() == v.len(),
        forall|i: int|
            0 <= i < v.len() ==> #[trigger] fields_deep(v)[i] == (v[i].0@, v[i].1.deep()),
    decreases v.len(),
{
    if v.len() > 0 {
        let t = v.drop_first();
        lemma_fields_deep(t);
        assert forall|i: int|
            0 <= i < v.len() implies #[trigger] fields_deep(v)[i] == (v[i].0@, v[i].1.deep()) by {
            if i > 0 {
                assert(fields_deep(v)[i] == fields_deep(t)[i - 1]);
                assert(t[i - 1] == v[i]);
            }
        }
    }
}

/// First field of the given name, if any.
pub open spec fn lookup_field(fields: Seq<(Seq<char>, JVal)>, key: Seq<char>) -> Option<JVal>
    decreases fields.len(),
{
    if fields.len() == 0 {
        None
    } else if fields[0].0 == key {
        Some(fields[0].1)
    } else {
        lookup_field(fields.skip(1), key)
    }
}

/// Character-for-character string equality.
pub fn str_eq(a: &str, b: &str) -> (r: bool)
    ensures
        r == (a@ == b@),
{
    let va = str_to_chars(a);
    let vb = str_to_chars(b);
    if va.len() != vb.len() {
        return false;
    }
    let mut i: usize = 0;
    while i < va.len()
        invariant
            0 <= i <= va.len(),
            va.len() == vb.len(),
            va@ == a@,
            vb@ == b@,
            forall|k: int| 0 <= k < i ==> va@[k] == vb@[k],
        decreases va.len() - i,
    {
        if va[i] != vb[i] {
            return false;
        }
        i = i + 1;
    }
    proof {
        assert(a@ =~= b@);
    }
    true
}

/// First field of the given name in an object's field list.
pub fn obj_get<'a>(fields: &'a Vec<(String, JsonData)>, key: &str) -> (r: Option<&'a JsonData>)
    ensures
        match r {
            Some(j) => lookup_field(fields_deep(fields@), key@) == Some(j.deep()),
            None => lookup_field(fields_deep(fields@), key@) is None,
        },
{
    let ghost all = fields_deep(fields@);
    proof {
        lemma_fields_deep(fields@);
        assert(all.skip(0) =~= all);
    }
    let mut i: usize = 0;
    while i < fields.len()
        invariant
            0 <= i <= fields.len(),
            all == fields_deep(fields@),
            all.len() == fields.len(),
            forall|k: int| 0 <= k < all.len() ==> all[k] == (#[trigger] fields@[k].0@, fields@[k].1.deep()),
            lookup_field(all, key@) == lookup_field(all.skip(i as int), key@),
        decreases fields.len() - i,
    {
        if str_eq(fields[i].0.as_str(), key) {
            proof {
                assert(all.skip(i as int)[0] == all[i as int]);
            }
            return Some(&fields[i].1);
        }
        proof {
            assert(all.skip(i as int)[0] == all[i as int]);
            assert(all.skip(i as int).skip(1) =~= all.skip(i as int + 1));
        }
        i = i + 1;
    }
    proof {
        assert(all.skip(i as int).len() == 0);
    }
    None
}

#[verifier::external_type_specification]
#[verifier::external_body]
pub struct ExSerdeValue(serde_json::Value);

/// What serde_json's parser yields on the given text, shaped into the
/// library's structured data; `None` when the text is not valid JSON. The
/// result is a function of the text alone: parsing is deterministic, the
/// default feature set backs objects with an ordered map, and numbers keep
/// their canonical printed form.
pub uninterp spec fn json_of(s: Seq<char>) -> Option<JVal>;

/// Relies on serde_json::from_str::<serde_json::Value>: whether the text is
/// valid JSON, and the document it holds, depend on the text alone.
#[verifier::external_body]
pub fn parse_json_text(s: &str) -> (r: Option<JsonData>)
    ensures
        r is Some <==> json_of(s@) is Some,
        r matches Some(j) ==> json_of(s@) == Some(j.deep()),
{
    match serde_json::from_str::<serde_json::Value>(s) {
        Ok(v) => Some(value_to_data(&v)),
        Err(_) => None,
    }
}

/// Relies on serde_json::Value's variants (and Number's printed form): each
/// arm moves one variant's payload into the library's structured data.
#[verifier::external_body]
fn value_to_data(v: &serde_json::Value) -> JsonData {
    match v {
        serde_json::Value::Null => JsonData::Null,
        serde_json::Value::Bool(b) => JsonData::Bool(*b),
        serde_json::Value::Number(n) => JsonData::Num(n.to_string()),
        serde_json::Value::String(s) => JsonData::Str(s.clone()),
        serde_json::Value::Array(a) => JsonData::Arr(a.iter().map(value_to_data).collect()),
        serde_json::Value::Object(m) => JsonData::Obj(
            m.iter().map(|(k, x)| (k.clone(), value_to_data(x))).collect(),
        ),
    }
}

} // verus!

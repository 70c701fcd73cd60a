use vstd::prelude::*;
use crate::fixed::Fixed;
use crate::json::{JsonData, JVal, json_of, lookup_field, obj_get, parse_json_text};
use crate::numtext::{parse_fixed_spec, parse_number};
use crate::protocol::{ArgPayload, ArgPayloadV, view_opt_args};

verus! {

/// The structured data an argument payload stands for: data as it is, text
/// through the JSON reader; a missing or unreadable payload is an argument
/// error.
pub open spec fn args_data_spec(args: Option<ArgPayloadV>) -> Result<JVal, Seq<char>> {
    match args {
        None => Err("Missing arguments"@),
        Some(ArgPayloadV::Text(s)) => match json_of(s) {
            Some(j) => Ok(j),
            None => Err("Invalid JSON arguments"@),
        },
        Some(ArgPayloadV::Data(j)) => Ok(j),
    }
}

/// Resolve an argument payload to structured data.
pub fn args_data(args: Option<ArgPayload>) -> (r: Result<JsonData, String>)
    ensures
        match r {
            Ok(j) => args_data_spec(view_opt_args(args)) == Ok::<JVal, Seq<char>>(j.deep()),
            Err(m) => args_data_spec(view_opt_args(args)) == Err::<JVal, Seq<char>>(m@),
        },
{
    match args {
        None => Err(String::from_str("Missing arguments")),
        Some(ArgPayload::Text(s)) => match parse_json_text(s.as_str()) {
            Some(j) => Ok(j),
            None => Err(String::from_str("Invalid JSON arguments")),
        },
        Some(ArgPayload::Data(j)) => Ok(j),
    }
}

/// The scalar under a field name, if the field is there, is a number, and
/// its text reads as a scalar the domain can hold.
pub open spec fn get_num_field(j: JVal, key: Seq<char>) -> Option<Fixed> {
    match j {
        JVal::Obj(fields) => match lookup_field(fields, key) {
            Some(JVal::Num(t)) => parse_fixed_spec(t),
            _ => None,
        },
        _ => None,
    }
}

/// Read a named scalar field of an argument object.
pub fn num_field(j: &JsonData, key: &str) -> (r: Option<Fixed>)
    ensures
        r == get_num_field(j.deep(), key@),
        r matches Some(f) ==> f.wf(),
{
    match j {
        JsonData::Obj(fields) => {
            match obj_get(fields, key) {
                Some(v) => match v {
                    JsonData::Num(t) => parse_number(t.as_str()),
                    _ => None,
                },
                None => None,
            }
        },
        _ => None,
    }
}

/// Diagnostic for a missing or ill-typed argument field.
pub open spec fn missing_param_spec(key: Seq<char>) -> Seq<char> {
    "Missing or invalid parameter '"@ + key + "'"@
}

pub fn missing_param(key: &str) -> (r: String)
    ensures
        r@ == missing_param_spec(key@),
{
    String::from_str("Missing or invalid parameter '").concat(key).concat("'")
}

/// The scalar list under the `numbers` field: every item must be a number
/// whose text reads as a scalar.
pub open spec fn num_items_spec(items: Seq<JVal>) -> Option<Seq<Fixed>>
    decreases items.len(),
{
    if items.len() == 0 {
        Some(Seq::empty())
    } else {
        match items[0] {
            JVal::Num(t) => match (parse_fixed_spec(t), num_items_spec(items.skip(1))) {
                (Some(f), Some(rest)) => Some(seq![f] + rest),
                _ => None,
            },
            _ => None,
        }
    }
}

pub open spec fn all_wf(vals: Seq<Fixed>) -> bool {
    forall|i: int| 0 <= i < vals.len() ==> (#[trigger] vals[i]).wf()
}

/// The `numbers` argument of the statistics tools: the array of scalars, or
/// why it cannot be read.
pub open spec fn parse_numbers_spec(args: Option<ArgPayloadV>) -> Result<Seq<Fixed>, Seq<char>> {
    match args_data_spec(args) {
        Err(m) => Err(m),
        Ok(j) => match j {
            JVal::Obj(fields) => match lookup_field(fields, "numbers"@) {
                Some(JVal::Arr(items)) => match num_items_spec(items) {
                    Some(vals) => Ok(vals),
                    None => Err("Invalid number in array"@),
                },
                _ => Err(missing_param_spec("numbers"@)),
            },
            _ => Err(missing_param_spec("numbers"@)),
        },
    }
}

/// Read the scalar items of a `numbers` array.
#[verifier::loop_isolation(false)]
fn num_items(items: &Vec<JsonData>) -> (r: Option<Vec<Fixed>>)
    ensures
        match r {
            Some(vals) => num_items_spec(crate::json::items_deep(items@)) == Some(vals@) && all_wf(
                vals@,
            ),
            None => num_items_spec(crate::json::items_deep(items@)) is None,
        },
{
    let ghost all = crate::json::items_deep(items@);
    proof {
        crate::json::lemma_items_deep(items@);
        assert(all.skip(0) =~= all);
    }
    let mut vals: Vec<Fixed> = Vec::new();
    let mut i: usize = 0;
    while i < items.len()
        invariant
            0 <= i <= items.len(),
            all.len() == items.len(),
            forall|k: int| 0 <= k < all.len() ==> all[k] == #[trigger] items@[k].deep(),
            num_items_spec(all) is Some <==> num_items_spec(all.skip(i as int)) is Some,
            num_items_spec(all) is Some ==> num_items_spec(all) == Some(
                vals@ + num_items_spec(all.skip(i as int)).unwrap(),
            ),
            all_wf(vals@),
            vals@.len() == i,
        decreases items.len() - i,
    {
        proof {
            assert(all.skip(i as int)[0] == all[i as int]);
            assert(all.skip(i as int).skip(1) =~= all.skip(i as int + 1));
        }
        match &items[i] {
            JsonData::Num(t) => {
                proof {
                    assert(items@[i as int].deep() == JVal::Num(t@));
                    assert(all.skip(i as int)[0] == JVal::Num(t@));
                }
                match parse_number(t.as_str()) {
                    Some(f) => {
                        proof {
                            assert(parse_fixed_spec(t@) == Some(f));
                            if num_items_spec(all.skip(i as int + 1)) is Some {
                                let tl2 = num_items_spec(all.skip(i as int + 1)).unwrap();
                                assert(num_items_spec(all.skip(i as int)) == Some(
                                    seq![f] + tl2,
                                ));
                                assert(vals@ + (seq![f] + tl2) =~= (vals@ + seq![f]) + tl2);
                            }
                        }
                        let ghost old_vals = vals@;
                        vals.push(f);
                        assert(vals@ =~= old_vals + seq![f]);
                    },
                    None => {
                        assert(num_items_spec(all.skip(i as int)) is None);
                        return None;
                    },
                }
            },
            _ => {
                proof {
                    assert(!(all.skip(i as int)[0] is Num));
                }
                assert(num_items_spec(all.skip(i as int)) is None);
                return None;
            },
        }
        i = i + 1;
    }
    proof {
        assert(all.skip(i as int).len() == 0);
        assert(num_items_spec(all.skip(i as int)) == Some(Seq::<Fixed>::empty()));
        assert(vals@ + Seq::<Fixed>::empty() =~= vals@);
    }
    Some(vals)
}

/// Read the `numbers` argument of an array-of-scalars tool.
pub fn parse_numbers(args: Option<ArgPayload>) -> (r: Result<Vec<Fixed>, String>)
    ensures
        match r {
            Ok(vals) => parse_numbers_spec(view_opt_args(args)) == Ok::<Seq<Fixed>, Seq<char>>(
                vals@,
            ) && all_wf(vals@),
            Err(m) => parse_numbers_spec(view_opt_args(args)) == Err::<Seq<Fixed>, Seq<char>>(m@),
        },
{
    let data = match args_data(args) {
        Ok(j) => j,
        Err(m) => {
            return Err(m);
        },
    };
    match &data {
        JsonData::Obj(fields) => {
            match obj_get(fields, "numbers") {
                Some(v) => match v {
                    JsonData::Arr(items) => match num_items(items) {
                        Some(vals) => Ok(vals),
                        None => Err(String::from_str("Invalid number in array")),
                    },
                    _ => Err(missing_param("numbers")),
                },
                None => Err(missing_param("numbers")),
            }
        },
        _ => Err(missing_param("numbers")),
    }
}

} // verus!

use vstd::prelude::*;
use crate::fixed::{Fixed, SCALE, abs_of, f_add, f_sub, f_mul, f_div, f_sqrt, f_neg, fixed_of};
use crate::args::{args_data, args_data_spec, get_num_field, missing_param, missing_param_spec, num_field};
use crate::json::{JsonData, JVal, fields_deep, items_deep, lemma_fields_deep, lemma_items_deep, lookup_field, obj_get, str_eq};
use crate::numtext::{render_fixed_spec, render_number};
use crate::protocol::{ArgPayload, ArgPayloadV, view_opt_args};
use crate::stats_tools::count_fixed;
use crate::trig::{atan2, atan2_spec, cos_deg, cos_deg_spec, norm360, norm360_exec, rad_to_deg, rad_to_deg_exec, sin_deg, sin_deg_spec, whole, whole_exec};

verus! {

/// A latitude must lie in [-90, 90] degrees, a longitude in [-180, 180].
/// The scalar domain has no non-finite values, so no separate check for
/// them is needed.
pub open spec fn valid_lat(v: Fixed) -> bool {
    -90_000_000_000 <= v.val() <= 90_000_000_000
}

pub open spec fn valid_lon(v: Fixed) -> bool {
    -180_000_000_000 <= v.val() <= 180_000_000_000
}

/// The coordinate check shared by the geospatial tools: which diagnostic a
/// coordinate quadruple earns, if any.
pub open spec fn validate_coordinates_spec(
    lat1: Fixed,
    lon1: Fixed,
    lat2: Fixed,
    lon2: Fixed,
) -> Option<Seq<char>> {
    if !valid_lat(lat1) || !valid_lat(lat2) {
        Some("Latitude must be between -90 and 90 degrees"@)
    } else if !valid_lon(lon1) || !valid_lon(lon2) {
        Some("Longitude must be between -180 and 180 degrees"@)
    } else {
        None
    }
}

fn check_lat(v: Fixed) -> (r: bool)
    requires
        v.wf(),
    ensures
        r == valid_lat(v),
{
    v.mag <= 90_000_000_000
}

fn check_lon(v: Fixed) -> (r: bool)
    requires
        v.wf(),
    ensures
        r == valid_lon(v),
{
    v.mag <= 180_000_000_000
}

/// Check a coordinate quadruple.
pub fn validate_coordinates(lat1: Fixed, lon1: Fixed, lat2: Fixed, lon2: Fixed) -> (r: Option<
    String,
>)
    requires
        lat1.wf(),
        lon1.wf(),
        lat2.wf(),
        lon2.wf(),
    ensures
        match r {
            Some(m) => validate_coordinates_spec(lat1, lon1, lat2, lon2) == Some(m@),
            None => validate_coordinates_spec(lat1, lon1, lat2, lon2) is None,
        },
{
    if !check_lat(lat1) || !check_lat(lat2) {
        Some(String::from_str("Latitude must be between -90 and 90 degrees"))
    } else if !check_lon(lon1) || !check_lon(lon2) {
        Some(String::from_str("Longitude must be between -180 and 180 degrees"))
    } else {
        None
    }
}

/// The coordinate arguments `lat1`, `lon1`, `lat2`, `lon2`, in order.
pub open spec fn parse_coords_spec(args: Option<ArgPayloadV>) -> Result<
    (Fixed, Fixed, Fixed, Fixed),
    Seq<char>,
> {
    match args_data_spec(args) {
        Err(m) => Err(m),
        Ok(j) => match get_num_field(j, "lat1"@) {
            None => Err(missing_param_spec("lat1"@)),
            Some(lat1) => match get_num_field(j, "lon1"@) {
                None => Err(missing_param_spec("lon1"@)),
                Some(lon1) => match get_num_field(j, "lat2"@) {
                    None => Err(missing_param_spec("lat2"@)),
                    Some(lat2) => match get_num_field(j, "lon2"@) {
                        None => Err(missing_param_spec("lon2"@)),
                        Some(lon2) => Ok((lat1, lon1, lat2, lon2)),
                    },
                },
            },
        },
    }
}

pub fn parse_coords(args: Option<ArgPayload>) -> (r: Result<(Fixed, Fixed, Fixed, Fixed), String>)
    ensures
        match r {
            Ok(c) => parse_coords_spec(view_opt_args(args)) == Ok::<
                (Fixed, Fixed, Fixed, Fixed),
                Seq<char>,
            >(c) && c.0.wf() && c.1.wf() && c.2.wf() && c.3.wf(),
            Err(m) => parse_coords_spec(view_opt_args(args)) == Err::<
                (Fixed, Fixed, Fixed, Fixed),
                Seq<char>,
            >(m@),
        },
{
    let j = match args_data(args) {
        Ok(j) => j,
        Err(m) => {
            return Err(m);
        },
    };
    let lat1 = match num_field(&j, "lat1") {
        Some(v) => v,
        None => {
            return Err(missing_param("lat1"));
        },
    };
    let lon1 = match num_field(&j, "lon1") {
        Some(v) => v,
        None => {
            return Err(missing_param("lon1"));
        },
    };
    let lat2 = match num_field(&j, "lat2") {
        Some(v) => v,
        None => {
            return Err(missing_param("lat2"));
        },
    };
    let lon2 = match num_field(&j, "lon2") {
        Some(v) => v,
        None => {
            return Err(missing_param("lon2"));
        },
    };
    Ok((lat1, lon1, lat2, lon2))
}

/// Great-circle distance in kilometers by the haversine form, over the
/// scalar domain's circular functions, with the intermediate ratio clamped
/// into [0, 1].
pub open spec fn haversine_distance_spec(lat1: Fixed, lon1: Fixed, lat2: Fixed, lon2: Fixed) -> Fixed {
    let dlat = f_sub(lat2, lat1);
    let dlon = f_sub(lon2, lon1);
    let sh_lat = sin_deg_spec(f_div(dlat, whole(2)));
    let sh_lon = sin_deg_spec(f_div(dlon, whole(2)));
    let a = f_add(
        f_mul(sh_lat, sh_lat),
        f_mul(f_mul(cos_deg_spec(lat1), cos_deg_spec(lat2)), f_mul(sh_lon, sh_lon)),
    );
    let a2 = if a.val() < 0 {
        fixed_of(0)
    } else if a.val() > SCALE {
        whole(1)
    } else {
        a
    };
    let c = f_mul(whole(2), atan2_spec(f_sqrt(a2), f_sqrt(f_sub(whole(1), a2))));
    f_mul(whole(6371), c)
}

/// Great-circle distance in kilometers.
pub fn haversine_distance(lat1: Fixed, lon1: Fixed, lat2: Fixed, lon2: Fixed) -> (r: Fixed)
    requires
        lat1.wf(),
        lon1.wf(),
        lat2.wf(),
        lon2.wf(),
    ensures
        r.wf(),
        r == haversine_distance_spec(lat1, lon1, lat2, lon2),
{
    let two = whole_exec(2);
    let one = whole_exec(1);
    let dlat = lat2.sub(lat1);
    let dlon = lon2.sub(lon1);
    let sh_lat = sin_deg(dlat.div(two));
    let sh_lon = sin_deg(dlon.div(two));
    let a = sh_lat.mul(sh_lat).add(cos_deg(lat1).mul(cos_deg(lat2)).mul(sh_lon.mul(sh_lon)));
    let a2 = if a.neg {
        Fixed::zero()
    } else if a.mag > SCALE {
        one
    } else {
        a
    };
    proof {
        assert(a2 == if a.val() < 0 {
            fixed_of(0)
        } else if a.val() > SCALE {
            whole(1)
        } else {
            a
        });
        assert(a2.val() >= 0);
        assert(f_sub(whole(1), a2).val() >= 0);
    }
    let c = two.mul(atan2(a2.sqrt(), one.sub(a2).sqrt()));
    whole_exec(6371).mul(c)
}

/// Initial bearing in degrees, folded into [0, 360).
pub open spec fn calculate_bearing_spec(lat1: Fixed, lon1: Fixed, lat2: Fixed, lon2: Fixed) -> Fixed {
    let dlon = f_sub(lon2, lon1);
    let y = f_mul(sin_deg_spec(dlon), cos_deg_spec(lat2));
    let x = f_sub(
        f_mul(cos_deg_spec(lat1), sin_deg_spec(lat2)),
        f_mul(f_mul(sin_deg_spec(lat1), cos_deg_spec(lat2)), cos_deg_spec(dlon)),
    );
    fixed_of(norm360(rad_to_deg(atan2_spec(y, x)).val()))
}

/// Initial bearing in degrees.
pub fn calculate_bearing(lat1: Fixed, lon1: Fixed, lat2: Fixed, lon2: Fixed) -> (r: Fixed)
    requires
        lat1.wf(),
        lon1.wf(),
        lat2.wf(),
        lon2.wf(),
    ensures
        r.wf(),
        r == calculate_bearing_spec(lat1, lon1, lat2, lon2),
        0 <= r.val() < crate::trig::TURN_RAW,
{
    let dlon = lon2.sub(lon1);
    let y = sin_deg(dlon).mul(cos_deg(lat2));
    let x = cos_deg(lat1).mul(sin_deg(lat2)).sub(sin_deg(lat1).mul(cos_deg(lat2)).mul(cos_deg(dlon)));
    let n = norm360_exec(rad_to_deg_exec(atan2(y, x)));
    proof {
        assert(n == fixed_of(n.val()));
    }
    n
}

/// The compass rose index of a bearing in [0, 360) degrees: shifted by half
/// a sector of 22.5 degrees, then truncated.
pub open spec fn compass_index_spec(deg: Fixed) -> int {
    let q = f_div(f_add(deg, Fixed { neg: false, mag: 11_250_000_000 }), Fixed { neg: false, mag: 22_500_000_000 });
    (abs_of(q.val()) / SCALE as int) % 16
}

pub open spec fn compass_name_spec(idx: int) -> Seq<char> {
    if idx == 0 {
        "N"@
    } else if idx == 1 {
        "NNE"@
    } else if idx == 2 {
        "NE"@
    } else if idx == 3 {
        "ENE"@
    } else if idx == 4 {
        "E"@
    } else if idx == 5 {
        "ESE"@
    } else if idx == 6 {
        "SE"@
    } else if idx == 7 {
        "SSE"@
    } else if idx == 8 {
        "S"@
    } else if idx == 9 {
        "SSW"@
    } else if idx == 10 {
        "SW"@
    } else if idx == 11 {
        "WSW"@
    } else if idx == 12 {
        "W"@
    } else if idx == 13 {
        "WNW"@
    } else if idx == 14 {
        "NW"@
    } else {
        "NNW"@
    }
}

/// The compass direction of a bearing in degrees.
pub open spec fn degrees_to_compass_spec(deg: Fixed) -> Seq<char> {
    compass_name_spec(compass_index_spec(deg))
}

pub fn degrees_to_compass(deg: Fixed) -> (r: String)
    requires
        deg.wf(),
    ensures
        r@ == degrees_to_compass_spec(deg),
{
    let shifted = deg.add(Fixed { neg: false, mag: 11_250_000_000 });
    let q = shifted.div(Fixed { neg: false, mag: 22_500_000_000 });
    let idx = (q.mag / SCALE) % 16;
    let name = if idx == 0 {
        "N"
    } else if idx == 1 {
        "NNE"
    } else if idx == 2 {
        "NE"
    } else if idx == 3 {
        "ENE"
    } else if idx == 4 {
        "E"
    } else if idx == 5 {
        "ESE"
    } else if idx == 6 {
        "SE"
    } else if idx == 7 {
        "SSE"
    } else if idx == 8 {
        "S"
    } else if idx == 9 {
        "SSW"
    } else if idx == 10 {
        "SW"
    } else if idx == 11 {
        "WSW"
    } else if idx == 12 {
        "W"
    } else if idx == 13 {
        "WNW"
    } else if idx == 14 {
        "NW"
    } else {
        "NNW"
    };
    String::from_str(name)
}

// ----- lat/lon pair lists (polygon vertices, route waypoints) -----

pub open spec fn all_wf_pairs(v: Seq<(Fixed, Fixed)>) -> bool {
    forall|i: int|
        0 <= i < v.len() ==> (#[trigger] v[i]).0.wf() && v[i].1.wf()
}

/// Diagnostic for a missing or ill-typed member of a pair list.
pub open spec fn latlon_err_spec(label: Seq<char>, i: int, key: Seq<char>) -> Seq<char> {
    "Missing or invalid '"@ + label + "["@ + render_fixed_spec(count_fixed(i)) + "]."@ + key + "'"@
}

fn latlon_err(label: &str, i: usize, key: &str) -> (r: String)
    ensures
        r@ == latlon_err_spec(label@, i as int, key@),
{
    let idx = render_number(crate::stats_tools::count_of(i));
    let r = String::from_str("Missing or invalid '").concat(label).concat("[").concat(
        idx.as_str(),
    ).concat("].").concat(key).concat("'");
    proof {
        assert(r@ =~= latlon_err_spec(label@, i as int, key@));
    }
    r
}

/// The lat/lon pairs of an argument array, each member an object with
/// scalar `lat` and `lon` fields.
pub open spec fn latlon_items_spec(items: Seq<JVal>, label: Seq<char>, i0: int) -> Result<
    Seq<(Fixed, Fixed)>,
    Seq<char>,
>
    decreases items.len(),
{
    if items.len() == 0 {
        Ok(Seq::empty())
    } else {
        match get_num_field(items[0], "lat"@) {
            None => Err(latlon_err_spec(label, i0, "lat"@)),
            Some(lat) => match get_num_field(items[0], "lon"@) {
                None => Err(latlon_err_spec(label, i0, "lon"@)),
                Some(lon) => match latlon_items_spec(items.skip(1), label, i0 + 1) {
                    Err(m) => Err(m),
                    Ok(rest) => Ok(seq![(lat, lon)] + rest),
                },
            },
        }
    }
}

/// Read the lat/lon pairs of an argument array.
#[verifier::loop_isolation(false)]
pub fn latlon_items(items: &Vec<JsonData>, label: &str) -> (r: Result<Vec<(Fixed, Fixed)>, String>)
    ensures
        match r {
            Ok(pairs) => latlon_items_spec(items_deep(items@), label@, 0) == Ok::<
                Seq<(Fixed, Fixed)>,
                Seq<char>,
            >(pairs@) && all_wf_pairs(pairs@),
            Err(m) => latlon_items_spec(items_deep(items@), label@, 0) == Err::<
                Seq<(Fixed, Fixed)>,
                Seq<char>,
            >(m@),
        },
{
    let ghost all = items_deep(items@);
    proof {
        lemma_items_deep(items@);
        assert(all.skip(0) =~= all);
    }
    let mut pairs: Vec<(Fixed, Fixed)> = Vec::new();
    let mut i: usize = 0;
    while i < items.len()
        invariant
            0 <= i <= items.len(),
            all.len() == items.len(),
            forall|k: int| 0 <= k < all.len() ==> all[k] == #[trigger] items@[k].deep(),
            latlon_items_spec(all, label@, 0) == match latlon_items_spec(
                all.skip(i as int),
                label@,
                i as int,
            ) {
                Ok(tl) => Ok::<Seq<(Fixed, Fixed)>, Seq<char>>(pairs@ + tl),
                Err(m) => Err(m),
            },
            all_wf_pairs(pairs@),
            pairs@.len() == i,
        decreases items.len() - i,
    {
        proof {
            assert(all.skip(i as int)[0] == all[i as int]);
            assert(all.skip(i as int).skip(1) =~= all.skip(i as int + 1));
        }
        let lat = match num_field(&items[i], "lat") {
            Some(v) => v,
            None => {
                return Err(latlon_err(label, i, "lat"));
            },
        };
        let lon = match num_field(&items[i], "lon") {
            Some(v) => v,
            None => {
                return Err(latlon_err(label, i, "lon"));
            },
        };
        proof {
            if latlon_items_spec(all.skip(i as int + 1), label@, i as int + 1) is Ok {
                let tl2 = latlon_items_spec(all.skip(i as int + 1), label@, i as int + 1)->Ok_0;
                assert(latlon_items_spec(all.skip(i as int), label@, i as int) == Ok::<
                    Seq<(Fixed, Fixed)>,
                    Seq<char>,
                >(seq![(lat, lon)] + tl2));
                assert(pairs@ + (seq![(lat, lon)] + tl2) =~= (pairs@ + seq![(lat, lon)]) + tl2);
            }
        }
        let ghost old_pairs = pairs@;
        pairs.push((lat, lon));
        assert(pairs@ =~= old_pairs + seq![(lat, lon)]);
        i = i + 1;
    }
    proof {
        assert(all.skip(i as int).len() == 0);
        assert(pairs@ + Seq::<(Fixed, Fixed)>::empty() =~= pairs@);
    }
    Ok(pairs)
}

/// The `waypoints` argument of the route tool.
pub open spec fn parse_waypoints_spec(args: Option<ArgPayloadV>) -> Result<
    Seq<(Fixed, Fixed)>,
    Seq<char>,
> {
    match args_data_spec(args) {
        Err(m) => Err(m),
        Ok(j) => match j {
            JVal::Obj(fields) => match lookup_field(fields, "waypoints"@) {
                Some(JVal::Arr(items)) => latlon_items_spec(items, "waypoints"@, 0),
                _ => Err("Missing or invalid 'waypoints' parameter"@),
            },
            _ => Err("Missing or invalid 'waypoints' parameter"@),
        },
    }
}

pub fn parse_waypoints(args: Option<ArgPayload>) -> (r: Result<Vec<(Fixed, Fixed)>, String>)
    ensures
        match r {
            Ok(pairs) => parse_waypoints_spec(view_opt_args(args)) == Ok::<
                Seq<(Fixed, Fixed)>,
                Seq<char>,
            >(pairs@) && all_wf_pairs(pairs@),
            Err(m) => parse_waypoints_spec(view_opt_args(args)) == Err::<
                Seq<(Fixed, Fixed)>,
                Seq<char>,
            >(m@),
        },
{
    let data = match args_data(args) {
        Ok(j) => j,
        Err(m) => {
            return Err(m);
        },
    };
    match &data {
        JsonData::Obj(fields) => {
            match obj_get(fields, "waypoints") {
                Some(v) => match v {
                    JsonData::Arr(items) => latlon_items(items, "waypoints"),
                    _ => Err(String::from_str("Missing or invalid 'waypoints' parameter")),
                },
                None => Err(String::from_str("Missing or invalid 'waypoints' parameter")),
            }
        },
        _ => Err(String::from_str("Missing or invalid 'waypoints' parameter")),
    }
}

// ----- result records -----

pub open spec fn bool_text(b: bool) -> Seq<char> {
    if b {
        "true"@
    } else {
        "false"@
    }
}

/// The text of the distance tool's record.
pub open spec fn distance_record_text(km: Fixed, mi: Fixed, nm: Fixed) -> Seq<char> {
    "{\"distance_km\":"@ + render_fixed_spec(km) + ",\"distance_miles\":"@ + render_fixed_spec(mi)
        + ",\"distance_nautical_miles\":"@ + render_fixed_spec(nm)
        + ",\"formula\":\"Haversine\",\"accuracy\":\"99.8%\"}"@
}

/// The structured form of the distance tool's record.
pub open spec fn distance_record_data(km: Fixed, mi: Fixed, nm: Fixed) -> JVal {
    JVal::Obj(
        seq![
            ("distance_km"@, JVal::Num(render_fixed_spec(km))),
            ("distance_miles"@, JVal::Num(render_fixed_spec(mi))),
            ("distance_nautical_miles"@, JVal::Num(render_fixed_spec(nm))),
            ("formula"@, JVal::Str("Haversine"@)),
            ("accuracy"@, JVal::Str("99.8%"@)),
        ],
    )
}

fn build_distance_record(km: Fixed, mi: Fixed, nm: Fixed) -> (r: (String, JsonData))
    requires
        km.wf(),
        mi.wf(),
        nm.wf(),
    ensures
        r.0@ == distance_record_text(km, mi, nm),
        r.1.deep() == distance_record_data(km, mi, nm),
{
    let km_s = render_number(km);
    let mi_s = render_number(mi);
    let nm_s = render_number(nm);
    let text = String::from_str("{\"distance_km\":").concat(km_s.as_str()).concat(
        ",\"distance_miles\":",
    ).concat(mi_s.as_str()).concat(",\"distance_nautical_miles\":").concat(nm_s.as_str()).concat(
        ",\"formula\":\"Haversine\",\"accuracy\":\"99.8%\"}",
    );
    proof {
        assert(text@ =~= distance_record_text(km, mi, nm));
    }
    let mut fields: Vec<(String, JsonData)> = Vec::new();
    fields.push((String::from_str("distance_km"), JsonData::Num(km_s)));
    fields.push((String::from_str("distance_miles"), JsonData::Num(mi_s)));
    fields.push((String::from_str("distance_nautical_miles"), JsonData::Num(nm_s)));
    fields.push((String::from_str("formula"), JsonData::Str(String::from_str("Haversine"))));
    fields.push((String::from_str("accuracy"), JsonData::Str(String::from_str("99.8%"))));
    let data = JsonData::Obj(fields);
    proof {
        let gf = data->Obj_0@;
        lemma_fields_deep(gf);
        assert(gf.len() == 5);
        assert(gf[0].0@ == "distance_km"@);
        assert(gf[1].0@ == "distance_miles"@);
        assert(gf[2].0@ == "distance_nautical_miles"@);
        assert(gf[3].0@ == "formula"@);
        assert(gf[4].0@ == "accuracy"@);
        assert(gf[0].1.deep() == JVal::Num(km_s@));
        assert(gf[1].1.deep() == JVal::Num(mi_s@));
        assert(gf[2].1.deep() == JVal::Num(nm_s@));
        assert(gf[3].1.deep() == JVal::Str("Haversine"@));
        assert(gf[4].1.deep() == JVal::Str("99.8%"@));
        assert(fields_deep(gf) =~~= distance_record_data(km, mi, nm)->Obj_0);
    }
    (text, data)
}

/// The text of the bearing tool's record.
pub open spec fn bearing_record_text(deg: Fixed, rad: Fixed, compass: Seq<char>) -> Seq<char> {
    "{\"bearing_degrees\":"@ + render_fixed_spec(deg) + ",\"bearing_radians\":"@
        + render_fixed_spec(rad) + ",\"compass_direction\":\""@ + compass + "\"}"@
}

/// The structured form of the bearing tool's record.
pub open spec fn bearing_record_data(deg: Fixed, rad: Fixed, compass: Seq<char>) -> JVal {
    JVal::Obj(
        seq![
            ("bearing_degrees"@, JVal::Num(render_fixed_spec(deg))),
            ("bearing_radians"@, JVal::Num(render_fixed_spec(rad))),
            ("compass_direction"@, JVal::Str(compass)),
        ],
    )
}

fn build_bearing_record(deg: Fixed, rad: Fixed, compass: String) -> (r: (String, JsonData))
    requires
        deg.wf(),
        rad.wf(),
    ensures
        r.0@ == bearing_record_text(deg, rad, compass@),
        r.1.deep() == bearing_record_data(deg, rad, compass@),
{
    let deg_s = render_number(deg);
    let rad_s = render_number(rad);
    let text = String::from_str("{\"bearing_degrees\":").concat(deg_s.as_str()).concat(
        ",\"bearing_radians\":",
    ).concat(rad_s.as_str()).concat(",\"compass_direction\":\"").concat(compass.as_str()).concat(
        "\"}",
    );
    proof {
        assert(text@ =~= bearing_record_text(deg, rad, compass@));
    }
    let mut fields: Vec<(String, JsonData)> = Vec::new();
    fields.push((String::from_str("bearing_degrees"), JsonData::Num(deg_s)));
    fields.push((String::from_str("bearing_radians"), JsonData::Num(rad_s)));
    fields.push((String::from_str("compass_direction"), JsonData::Str(compass)));
    let data = JsonData::Obj(fields);
    proof {
        let gf = data->Obj_0@;
        lemma_fields_deep(gf);
        assert(gf.len() == 3);
        assert(gf[0].0@ == "bearing_degrees"@);
        assert(gf[1].0@ == "bearing_radians"@);
        assert(gf[2].0@ == "compass_direction"@);
        assert(gf[0].1.deep() == JVal::Num(deg_s@));
        assert(gf[1].1.deep() == JVal::Num(rad_s@));
        assert(gf[2].1.deep() == JVal::Str(compass@));
        assert(fields_deep(gf) =~~= bearing_record_data(deg, rad, compass@)->Obj_0);
    }
    (text, data)
}

// ----- the bearing tool -----

use crate::protocol::{
    CallToolRequest, CallToolResult, CallToolResultV, Tool, ToolV, error_result,
    error_result_spec, make_tool, success_result_structured, success_result_spec, tool_v,
    tools_deep,
};
use crate::trig::deg_to_rad;

/// What the `bearing` tool returns: the bearing record of validated
/// coordinates, or the argument error that stopped it.
pub open spec fn execute_bearing_spec(args: Option<ArgPayloadV>) -> CallToolResultV {
    match parse_coords_spec(args) {
        Err(m) => error_result_spec(m),
        Ok(c) => match validate_coordinates_spec(c.0, c.1, c.2, c.3) {
            Some(m) => error_result_spec(m),
            None => {
                let deg = calculate_bearing_spec(c.0, c.1, c.2, c.3);
                let rad = deg_to_rad(deg);
                let compass = degrees_to_compass_spec(deg);
                success_result_spec(
                    bearing_record_text(deg, rad, compass),
                    Some(bearing_record_data(deg, rad, compass)),
                )
            },
        },
    }
}

pub fn execute_bearing(args: Option<ArgPayload>) -> (r: CallToolResult)
    ensures
        r.deep() == execute_bearing_spec(view_opt_args(args)),
{
    let (lat1, lon1, lat2, lon2) = match parse_coords(args) {
        Ok(c) => c,
        Err(m) => {
            return error_result(m);
        },
    };
    if let Some(m) = validate_coordinates(lat1, lon1, lat2, lon2) {
        return error_result(m);
    }
    let deg = calculate_bearing(lat1, lon1, lat2, lon2);
    let rad = crate::trig::deg_to_rad_exec(deg);
    let compass = degrees_to_compass(deg);
    let (text, data) = build_bearing_record(deg, rad, compass);
    success_result_structured(text, data)
}

// ----- the haversine distance tool -----

/// Kilometers to miles and to nautical miles, at the scalar resolution.
pub open spec fn miles_factor() -> Fixed {
    Fixed { neg: false, mag: 621_371_000 }
}

pub open spec fn nautical_factor() -> Fixed {
    Fixed { neg: false, mag: 539_957_000 }
}

/// What the `distance` tool of the geospatial provider returns.
pub open spec fn execute_distance_spec(args: Option<ArgPayloadV>) -> CallToolResultV {
    match parse_coords_spec(args) {
        Err(m) => error_result_spec(m),
        Ok(c) => match validate_coordinates_spec(c.0, c.1, c.2, c.3) {
            Some(m) => error_result_spec(m),
            None => {
                let km = haversine_distance_spec(c.0, c.1, c.2, c.3);
                let mi = f_mul(km, miles_factor());
                let nm = f_mul(km, nautical_factor());
                success_result_spec(
                    distance_record_text(km, mi, nm),
                    Some(distance_record_data(km, mi, nm)),
                )
            },
        },
    }
}

pub fn execute_distance(args: Option<ArgPayload>) -> (r: CallToolResult)
    ensures
        r.deep() == execute_distance_spec(view_opt_args(args)),
{
    let (lat1, lon1, lat2, lon2) = match parse_coords(args) {
        Ok(c) => c,
        Err(m) => {
            return error_result(m);
        },
    };
    if let Some(m) = validate_coordinates(lat1, lon1, lat2, lon2) {
        return error_result(m);
    }
    let km = haversine_distance(lat1, lon1, lat2, lon2);
    let mi = km.mul(Fixed { neg: false, mag: 621_371_000 });
    let nm = km.mul(Fixed { neg: false, mag: 539_957_000 });
    let (text, data) = build_distance_record(km, mi, nm);
    success_result_structured(text, data)
}


// ----- the point-in-polygon tool -----

/// One edge-crossing test of the ray cast: the edge from vertex `j` to
/// vertex `i` (with `j` the predecessor of `i`, wrapping at zero) straddles
/// the point's latitude and the ray to the east crosses it.
pub open spec fn crossing_spec(pt: (Fixed, Fixed), poly: Seq<(Fixed, Fixed)>, i: int) -> bool {
    let n = poly.len() as int;
    let jj = if i == 0 {
        n - 1
    } else {
        i - 1
    };
    let y = pt.0;
    let x = pt.1;
    let yi = poly[i].0;
    let xi = poly[i].1;
    let yj = poly[jj].0;
    let xj = poly[jj].1;
    ((yi.val() > y.val()) != (yj.val() > y.val())) && x.val() < f_add(
        f_div(f_mul(f_sub(xj, xi), f_sub(y, yi)), f_sub(yj, yi)),
        xi,
    ).val()
}

/// Whether the first `k` edges leave the point inside.
pub open spec fn inside_upto(pt: (Fixed, Fixed), poly: Seq<(Fixed, Fixed)>, k: int) -> bool
    decreases k,
{
    if k <= 0 {
        false
    } else {
        inside_upto(pt, poly, k - 1) != crossing_spec(pt, poly, k - 1)
    }
}

/// The ray-casting containment test.
pub open spec fn ray_casting_spec(pt: (Fixed, Fixed), poly: Seq<(Fixed, Fixed)>) -> bool {
    if poly.len() < 3 {
        false
    } else {
        inside_upto(pt, poly, poly.len() as int)
    }
}

/// Cast a ray east of the point and count edge crossings.
#[verifier::loop_isolation(false)]
pub fn ray_casting_algorithm(pt: (Fixed, Fixed), poly: &Vec<(Fixed, Fixed)>) -> (r: bool)
    requires
        pt.0.wf(),
        pt.1.wf(),
        all_wf_pairs(poly@),
    ensures
        r == ray_casting_spec(pt, poly@),
{
    if poly.len() < 3 {
        return false;
    }
    let n = poly.len();
    let mut inside = false;
    let mut i: usize = 0;
    while i < n
        invariant
            0 <= i <= n,
            inside == inside_upto(pt, poly@, i as int),
        decreases n - i,
    {
        let j = if i == 0 {
            n - 1
        } else {
            i - 1
        };
        let yi = poly[i].0;
        let xi = poly[i].1;
        let yj = poly[j].0;
        let xj = poly[j].1;
        if (pt.0.lt(yi)) != (pt.0.lt(yj)) {
            proof {
                assert(yi.val() != yj.val());
                assert(f_sub(yj, yi).val() != 0);
            }
            let cross_x = xj.sub(xi).mul(pt.0.sub(yi)).div(yj.sub(yi)).add(xi);
            if pt.1.lt(cross_x) {
                inside = !inside;
            }
        }
        i = i + 1;
    }
    inside
}

/// One point-on-segment test: zero cross product and a dot product within
/// the segment's squared length. Collinearity is exact at the scalar
/// resolution, which is finer than the tolerance the test names.
pub open spec fn on_segment_spec(pt: (Fixed, Fixed), s: (Fixed, Fixed), e: (Fixed, Fixed)) -> bool {
    let cross = f_sub(
        f_mul(f_sub(pt.0, s.0), f_sub(e.1, s.1)),
        f_mul(f_sub(pt.1, s.1), f_sub(e.0, s.0)),
    );
    if cross.val() != 0 {
        false
    } else {
        let dot = f_add(
            f_mul(f_sub(pt.1, s.1), f_sub(e.1, s.1)),
            f_mul(f_sub(pt.0, s.0), f_sub(e.0, s.0)),
        );
        let sqlen = f_add(
            f_mul(f_sub(e.1, s.1), f_sub(e.1, s.1)),
            f_mul(f_sub(e.0, s.0), f_sub(e.0, s.0)),
        );
        dot.val() >= 0 && dot.val() <= sqlen.val()
    }
}

pub fn is_point_on_segment(pt: (Fixed, Fixed), s: (Fixed, Fixed), e: (Fixed, Fixed)) -> (r: bool)
    requires
        pt.0.wf(),
        pt.1.wf(),
        s.0.wf(),
        s.1.wf(),
        e.0.wf(),
        e.1.wf(),
    ensures
        r == on_segment_spec(pt, s, e),
{
    let cross = pt.0.sub(s.0).mul(e.1.sub(s.1)).sub(pt.1.sub(s.1).mul(e.0.sub(s.0)));
    if !cross.is_zero() {
        return false;
    }
    let dot = pt.1.sub(s.1).mul(e.1.sub(s.1)).add(pt.0.sub(s.0).mul(e.0.sub(s.0)));
    let sqlen = e.1.sub(s.1).mul(e.1.sub(s.1)).add(e.0.sub(s.0).mul(e.0.sub(s.0)));
    dot.is_nonneg() && dot.le(sqlen)
}

/// Whether the point lies on one of the first `k` boundary edges.
pub open spec fn boundary_upto(pt: (Fixed, Fixed), poly: Seq<(Fixed, Fixed)>, k: int) -> bool
    decreases k,
{
    if k <= 0 {
        false
    } else {
        boundary_upto(pt, poly, k - 1) || on_segment_spec(
            pt,
            poly[k - 1],
            poly[if k == poly.len() {
                0
            } else {
                k
            }],
        )
    }
}

pub open spec fn is_on_boundary_spec(pt: (Fixed, Fixed), poly: Seq<(Fixed, Fixed)>) -> bool {
    if poly.len() < 3 {
        false
    } else {
        boundary_upto(pt, poly, poly.len() as int)
    }
}

#[verifier::loop_isolation(false)]
pub fn is_on_boundary(pt: (Fixed, Fixed), poly: &Vec<(Fixed, Fixed)>) -> (r: bool)
    requires
        pt.0.wf(),
        pt.1.wf(),
        all_wf_pairs(poly@),
    ensures
        r == is_on_boundary_spec(pt, poly@),
{
    if poly.len() < 3 {
        return false;
    }
    let n = poly.len();
    let mut i: usize = 0;
    while i < n
        invariant
            0 <= i <= n,
            !boundary_upto(pt, poly@, i as int),
        decreases n - i,
    {
        let j = if i + 1 == n {
            0
        } else {
            i + 1
        };
        if is_point_on_segment(pt, poly[i], poly[j]) {
            proof {
                assert(boundary_upto(pt, poly@, i as int + 1));
                lemma_boundary_mono(pt, poly@, i as int + 1, poly@.len() as int);
            }
            return true;
        }
        i = i + 1;
    }
    false
}

proof fn lemma_boundary_mono(pt: (Fixed, Fixed), poly: Seq<(Fixed, Fixed)>, k1: int, k2: int)
    requires
        0 <= k1 <= k2,
        boundary_upto(pt, poly, k1),
    ensures
        boundary_upto(pt, poly, k2),
    decreases k2 - k1,
{
    if k1 < k2 {
        lemma_boundary_mono(pt, poly, k1 + 1, k2);
    }
}

/// The per-point range check of the containment tool, with the offending
/// value in the diagnostic.
pub open spec fn validate_point_spec(p: (Fixed, Fixed)) -> Option<Seq<char>> {
    if !valid_lat(p.0) {
        Some("Invalid latitude: "@ + render_fixed_spec(p.0) + ". Must be between -90 and 90"@)
    } else if !valid_lon(p.1) {
        Some("Invalid longitude: "@ + render_fixed_spec(p.1) + ". Must be between -180 and 180"@)
    } else {
        None
    }
}

pub fn validate_point(p: (Fixed, Fixed)) -> (r: Option<String>)
    requires
        p.0.wf(),
        p.1.wf(),
    ensures
        match r {
            Some(m) => validate_point_spec(p) == Some(m@),
            None => validate_point_spec(p) is None,
        },
{
    if !check_lat(p.0) {
        let m = String::from_str("Invalid latitude: ").concat(render_number(p.0).as_str()).concat(
            ". Must be between -90 and 90",
        );
        proof {
            assert(m@ =~= validate_point_spec(p)->Some_0);
        }
        Some(m)
    } else if !check_lon(p.1) {
        let m = String::from_str("Invalid longitude: ").concat(render_number(p.1).as_str()).concat(
            ". Must be between -180 and 180",
        );
        proof {
            assert(m@ =~= validate_point_spec(p)->Some_0);
        }
        Some(m)
    } else {
        None
    }
}

/// The first vertex the range check rejects, as its diagnostic.
pub open spec fn vertices_check_spec(poly: Seq<(Fixed, Fixed)>, i0: int) -> Option<Seq<char>>
    decreases poly.len(),
{
    if poly.len() == 0 {
        None
    } else {
        match validate_point_spec(poly[0]) {
            Some(m) => Some(
                "Polygon vertex "@ + render_fixed_spec(count_fixed(i0)) + ": "@ + m,
            ),
            None => vertices_check_spec(poly.skip(1), i0 + 1),
        }
    }
}

#[verifier::loop_isolation(false)]
fn vertices_check(poly: &Vec<(Fixed, Fixed)>) -> (r: Option<String>)
    requires
        all_wf_pairs(poly@),
    ensures
        match r {
            Some(m) => vertices_check_spec(poly@, 0) == Some(m@),
            None => vertices_check_spec(poly@, 0) is None,
        },
{
    proof {
        assert(poly@.skip(0) =~= poly@);
    }
    let mut i: usize = 0;
    while i < poly.len()
        invariant
            0 <= i <= poly.len(),
            vertices_check_spec(poly@, 0) == vertices_check_spec(poly@.skip(i as int), i as int),
        decreases poly.len() - i,
    {
        proof {
            assert(poly@.skip(i as int)[0] == poly@[i as int]);
            assert(poly@.skip(i as int).skip(1) =~= poly@.skip(i as int + 1));
        }
        if let Some(m) = validate_point(poly[i]) {
            let idx = render_number(crate::stats_tools::count_of(i));
            let out = String::from_str("Polygon vertex ").concat(idx.as_str()).concat(": ").concat(
                m.as_str(),
            );
            proof {
                assert(out@ =~= vertices_check_spec(poly@, 0)->Some_0);
            }
            return Some(out);
        }
        i = i + 1;
    }
    proof {
        assert(poly@.skip(i as int).len() == 0);
    }
    None
}

/// The text and structured forms of the containment tool's record.
pub open spec fn pip_record_text(inside: bool, boundary: bool) -> Seq<char> {
    "{\"is_inside\":"@ + bool_text(inside) + ",\"on_boundary\":"@ + bool_text(boundary)
        + ",\"algorithm_used\":\"ray_casting\"}"@
}

pub open spec fn pip_record_data(inside: bool, boundary: bool) -> JVal {
    JVal::Obj(
        seq![
            ("is_inside"@, JVal::Bool(inside)),
            ("on_boundary"@, JVal::Bool(boundary)),
            ("algorithm_used"@, JVal::Str("ray_casting"@)),
        ],
    )
}

fn bool_str(b: bool) -> (r: &'static str)
    ensures
        r@ == bool_text(b),
{
    if b {
        "true"
    } else {
        "false"
    }
}

fn build_pip_record(inside: bool, boundary: bool) -> (r: (String, JsonData))
    ensures
        r.0@ == pip_record_text(inside, boundary),
        r.1.deep() == pip_record_data(inside, boundary),
{
    let text = String::from_str("{\"is_inside\":").concat(bool_str(inside)).concat(
        ",\"on_boundary\":",
    ).concat(bool_str(boundary)).concat(",\"algorithm_used\":\"ray_casting\"}");
    proof {
        assert(text@ =~= pip_record_text(inside, boundary));
    }
    let mut fields: Vec<(String, JsonData)> = Vec::new();
    fields.push((String::from_str("is_inside"), JsonData::Bool(inside)));
    fields.push((String::from_str("on_boundary"), JsonData::Bool(boundary)));
    fields.push(
        (String::from_str("algorithm_used"), JsonData::Str(String::from_str("ray_casting"))),
    );
    let data = JsonData::Obj(fields);
    proof {
        let gf = data->Obj_0@;
        lemma_fields_deep(gf);
        assert(gf.len() == 3);
        assert(gf[0].0@ == "is_inside"@);
        assert(gf[1].0@ == "on_boundary"@);
        assert(gf[2].0@ == "algorithm_used"@);
        assert(gf[2].1.deep() == JVal::Str("ray_casting"@));
        assert(fields_deep(gf) =~~= pip_record_data(inside, boundary)->Obj_0);
    }
    (text, data)
}

/// The point and polygon arguments of the containment tool.
pub open spec fn parse_pip_args_spec(args: Option<ArgPayloadV>) -> Result<
    ((Fixed, Fixed), Seq<(Fixed, Fixed)>),
    Seq<char>,
> {
    match args_data_spec(args) {
        Err(m) => Err(m),
        Ok(j) => match j {
            JVal::Obj(fields) => match lookup_field(fields, "point"@) {
                None => Err("Missing 'point' parameter"@),
                Some(pj) => match get_num_field(pj, "lat"@) {
                    None => Err("Missing or invalid 'point.lat'"@),
                    Some(lat) => match get_num_field(pj, "lon"@) {
                        None => Err("Missing or invalid 'point.lon'"@),
                        Some(lon) => match lookup_field(fields, "polygon"@) {
                            Some(JVal::Arr(items)) => match latlon_items_spec(
                                items,
                                "polygon"@,
                                0,
                            ) {
                                Err(m) => Err(m),
                                Ok(poly) => Ok(((lat, lon), poly)),
                            },
                            _ => Err("Missing or invalid 'polygon' parameter"@),
                        },
                    },
                },
            },
            _ => Err("Missing 'point' parameter"@),
        },
    }
}

pub fn parse_point_in_polygon_args(args: Option<ArgPayload>) -> (r: Result<
    ((Fixed, Fixed), Vec<(Fixed, Fixed)>),
    String,
>)
    ensures
        match r {
            Ok(p) => parse_pip_args_spec(view_opt_args(args)) matches Ok(sp) && sp.0 == p.0
                && sp.1 == p.1@ && p.0.0.wf() && p.0.1.wf() && all_wf_pairs(p.1@),
            Err(m) => parse_pip_args_spec(view_opt_args(args)) == Err::<
                ((Fixed, Fixed), Seq<(Fixed, Fixed)>),
                Seq<char>,
            >(m@),
        },
{
    let data = match args_data(args) {
        Ok(j) => j,
        Err(m) => {
            return Err(m);
        },
    };
    match &data {
        JsonData::Obj(fields) => {
            let pj = match obj_get(fields, "point") {
                Some(v) => v,
                None => {
                    return Err(String::from_str("Missing 'point' parameter"));
                },
            };
            let lat = match num_field(pj, "lat") {
                Some(v) => v,
                None => {
                    return Err(String::from_str("Missing or invalid 'point.lat'"));
                },
            };
            let lon = match num_field(pj, "lon") {
                Some(v) => v,
                None => {
                    return Err(String::from_str("Missing or invalid 'point.lon'"));
                },
            };
            match obj_get(fields, "polygon") {
                Some(v) => match v {
                    JsonData::Arr(items) => match latlon_items(items, "polygon") {
                        Ok(poly) => Ok(((lat, lon), poly)),
                        Err(m) => Err(m),
                    },
                    _ => Err(String::from_str("Missing or invalid 'polygon' parameter")),
                },
                None => Err(String::from_str("Missing or invalid 'polygon' parameter")),
            }
        },
        _ => Err(String::from_str("Missing 'point' parameter")),
    }
}

/// What the `point_in_polygon` tool returns.
pub open spec fn execute_point_in_polygon_spec(args: Option<ArgPayloadV>) -> CallToolResultV {
    match parse_pip_args_spec(args) {
        Err(m) => error_result_spec(m),
        Ok(p) => {
            let pt = p.0;
            let poly = p.1;
            if poly.len() < 3 {
                error_result_spec("Polygon must have at least 3 vertices"@)
            } else {
                match validate_point_spec(pt) {
                    Some(m) => error_result_spec(m),
                    None => match vertices_check_spec(poly, 0) {
                        Some(m) => error_result_spec(m),
                        None => {
                            let boundary = is_on_boundary_spec(pt, poly);
                            let inside = ray_casting_spec(pt, poly);
                            success_result_spec(
                                pip_record_text(inside, boundary),
                                Some(pip_record_data(inside, boundary)),
                            )
                        },
                    },
                }
            }
        },
    }
}

pub fn execute_point_in_polygon(args: Option<ArgPayload>) -> (r: CallToolResult)
    ensures
        r.deep() == execute_point_in_polygon_spec(view_opt_args(args)),
{
    let (pt, poly) = match parse_point_in_polygon_args(args) {
        Ok(p) => p,
        Err(m) => {
            return error_result(m);
        },
    };
    if poly.len() < 3 {
        return error_result(String::from_str("Polygon must have at least 3 vertices"));
    }
    if let Some(m) = validate_point(pt) {
        return error_result(m);
    }
    if let Some(m) = vertices_check(&poly) {
        return error_result(m);
    }
    let boundary = is_on_boundary(pt, &poly);
    let inside = ray_casting_algorithm(pt, &poly);
    let (text, data) = build_pip_record(inside, boundary);
    success_result_structured(text, data)
}


// ----- tool declarations of the three geospatial providers -----

pub open spec fn geo_bearing_tools_spec() -> Seq<ToolV> {
    seq![
        tool_v(
            "bearing"@,
            "{\"type\":\"object\",\"properties\":{\"lat1\":{\"type\":\"number\"},\"lon1\":{\"type\":\"number\"},\"lat2\":{\"type\":\"number\"},\"lon2\":{\"type\":\"number\"}},\"required\":[\"lat1\",\"lon1\",\"lat2\",\"lon2\"]}"@,
            "GPS Bearing Calculator"@,
            "Calculate bearing from one GPS coordinate to another"@,
        ),
    ]
}

pub fn geo_bearing_tools_list() -> (v: Vec<Tool>)
    ensures
        tools_deep(v@) == geo_bearing_tools_spec(),
{
    let mut v: Vec<Tool> = Vec::new();
    v.push(
        make_tool(
            "bearing",
            "{\"type\":\"object\",\"properties\":{\"lat1\":{\"type\":\"number\"},\"lon1\":{\"type\":\"number\"},\"lat2\":{\"type\":\"number\"},\"lon2\":{\"type\":\"number\"}},\"required\":[\"lat1\",\"lon1\",\"lat2\",\"lon2\"]}",
            "GPS Bearing Calculator",
            "Calculate bearing from one GPS coordinate to another",
        ),
    );
    proof {
        assert(tools_deep(v@) =~= geo_bearing_tools_spec());
    }
    v
}

pub open spec fn geo_distance_tools_spec() -> Seq<ToolV> {
    seq![
        tool_v(
            "distance"@,
            "{\"type\":\"object\",\"properties\":{\"lat1\":{\"type\":\"number\"},\"lon1\":{\"type\":\"number\"},\"lat2\":{\"type\":\"number\"},\"lon2\":{\"type\":\"number\"}},\"required\":[\"lat1\",\"lon1\",\"lat2\",\"lon2\"]}"@,
            "GPS Distance Calculator"@,
            "Calculate great-circle distance between two GPS coordinates"@,
        ),
    ]
}

pub fn geo_distance_tools_list() -> (v: Vec<Tool>)
    ensures
        tools_deep(v@) == geo_distance_tools_spec(),
{
    let mut v: Vec<Tool> = Vec::new();
    v.push(
        make_tool(
            "distance",
            "{\"type\":\"object\",\"properties\":{\"lat1\":{\"type\":\"number\"},\"lon1\":{\"type\":\"number\"},\"lat2\":{\"type\":\"number\"},\"lon2\":{\"type\":\"number\"}},\"required\":[\"lat1\",\"lon1\",\"lat2\",\"lon2\"]}",
            "GPS Distance Calculator",
            "Calculate great-circle distance between two GPS coordinates",
        ),
    );
    proof {
        assert(tools_deep(v@) =~= geo_distance_tools_spec());
    }
    v
}

pub open spec fn geo_pip_tools_spec() -> Seq<ToolV> {
    seq![
        tool_v(
            "point_in_polygon"@,
            "{\"type\":\"object\",\"properties\":{\"point\":{\"type\":\"object\"},\"polygon\":{\"type\":\"array\"}},\"required\":[\"point\",\"polygon\"]}"@,
            "Point in Polygon Check"@,
            "Check whether a GPS point lies inside a polygon by ray casting"@,
        ),
    ]
}

pub fn geo_pip_tools_list() -> (v: Vec<Tool>)
    ensures
        tools_deep(v@) == geo_pip_tools_spec(),
{
    let mut v: Vec<Tool> = Vec::new();
    v.push(
        make_tool(
            "point_in_polygon",
            "{\"type\":\"object\",\"properties\":{\"point\":{\"type\":\"object\"},\"polygon\":{\"type\":\"array\"}},\"required\":[\"point\",\"polygon\"]}",
            "Point in Polygon Check",
            "Check whether a GPS point lies inside a polygon by ray casting",
        ),
    );
    proof {
        assert(tools_deep(v@) =~= geo_pip_tools_spec());
    }
    v
}

/// What each geospatial provider answers for a named tool call.
pub open spec fn geo_bearing_call_spec(name: Seq<char>, args: Option<ArgPayloadV>) -> Option<
    CallToolResultV,
> {
    if name == "bearing"@ {
        Some(execute_bearing_spec(args))
    } else {
        None
    }
}

pub fn geo_bearing_call_tool(request: CallToolRequest) -> (r: Option<CallToolResult>)
    ensures
        match r {
            Some(res) => geo_bearing_call_spec(request.name@, view_opt_args(request.arguments))
                == Some(res.deep()),
            None => geo_bearing_call_spec(request.name@, view_opt_args(request.arguments)) is None,
        },
{
    if str_eq(request.name.as_str(), "bearing") {
        Some(execute_bearing(request.arguments))
    } else {
        None
    }
}

pub open spec fn geo_distance_call_spec(name: Seq<char>, args: Option<ArgPayloadV>) -> Option<
    CallToolResultV,
> {
    if name == "distance"@ {
        Some(execute_distance_spec(args))
    } else {
        None
    }
}

pub fn geo_distance_call_tool(request: CallToolRequest) -> (r: Option<CallToolResult>)
    ensures
        match r {
            Some(res) => geo_distance_call_spec(request.name@, view_opt_args(request.arguments))
                == Some(res.deep()),
            None => geo_distance_call_spec(request.name@, view_opt_args(request.arguments)) is None,
        },
{
    if str_eq(request.name.as_str(), "distance") {
        Some(execute_distance(request.arguments))
    } else {
        None
    }
}

pub open spec fn geo_pip_call_spec(name: Seq<char>, args: Option<ArgPayloadV>) -> Option<
    CallToolResultV,
> {
    if name == "point_in_polygon"@ {
        Some(execute_point_in_polygon_spec(args))
    } else {
        None
    }
}

pub fn geo_pip_call_tool(request: CallToolRequest) -> (r: Option<CallToolResult>)
    ensures
        match r {
            Some(res) => geo_pip_call_spec(request.name@, view_opt_args(request.arguments)) == Some(
                res.deep(),
            ),
            None => geo_pip_call_spec(request.name@, view_opt_args(request.arguments)) is None,
        },
{
    if str_eq(request.name.as_str(), "point_in_polygon") {
        Some(execute_point_in_polygon(request.arguments))
    } else {
        None
    }
}


} // verus!

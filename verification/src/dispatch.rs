use vstd::prelude::*;
use crate::fixed::{Fixed, f_add, f_div, f_mul, f_sub, fixed_of};
use crate::args::{all_wf, parse_numbers, parse_numbers_spec};
use crate::json::{JsonData, JVal, fields_deep, items_deep, lemma_fields_deep, lemma_items_deep, str_eq};
use crate::numtext::{render_fixed_spec, render_number};
use crate::protocol::{
    ArgPayload, ArgPayloadV, CallToolRequest, CallToolRequestV, CallToolResult, CallToolResultV,
    ClientRequest, ClientRequestV, Context, ErrorCode, ErrorCodeV, ListToolsRequest,
    ListToolsResult, ListToolsResultV, RequestId, ServerResponse, ServerResponseV, Tool, ToolV,
    error_result, error_result_spec, extract_number_from_result, extract_number_spec, make_tool,
    outcome_deep, success_result, success_result_spec, tool_v, tools_deep, view_opt_args,
    view_opt_str,
};
use crate::math_tools::{math_call_spec, math_call_tool, math_tools_list, math_tools_spec, parse_pair_spec, parse_two_args};
use crate::stats_tools::{count_fixed, count_of, stats_call_spec, stats_call_tool, stats_tools_list, stats_tools_spec};
use crate::geo_tools::{
    geo_bearing_call_spec, geo_bearing_call_tool, geo_bearing_tools_list, geo_bearing_tools_spec,
    geo_distance_call_spec, geo_distance_call_tool, geo_distance_tools_list,
    geo_distance_tools_spec, geo_pip_call_spec, geo_pip_call_tool, geo_pip_tools_list,
    geo_pip_tools_spec,
};

verus! {

/// One handler of the pipeline: a middleware that owns one synthetic tool
/// and composes downstream calls, or a leaf provider answering a fixed tool
/// set directly. The chain is the ordered sequence of these; position
/// decides which tools a middleware can reach, since every nested call goes
/// strictly to the handlers after it.
#[derive(Clone, Copy, PartialEq, Eq, Structural, Debug)]
pub enum Handler {
    DistanceCalc,
    Pythagorean,
    RouteOptimizer,
    StdDev,
    Variance,
    MathTools,
    StatsTools,
    GeoBearing,
    GeoDistance,
    GeoPointInPolygon,
}

// ----- the tools each handler declares -----

pub open spec fn distance_calc_tools_spec() -> Seq<ToolV> {
    seq![
        tool_v(
            "distance"@,
            "{\"type\":\"object\",\"properties\":{\"x1\":{\"type\":\"number\"},\"y1\":{\"type\":\"number\"},\"x2\":{\"type\":\"number\"},\"y2\":{\"type\":\"number\"}},\"required\":[\"x1\",\"y1\",\"x2\",\"y2\"]}"@,
            "2D Distance Calculator"@,
            "Calculate Euclidean distance between two points"@,
        ),
    ]
}

pub open spec fn pythagorean_tools_spec() -> Seq<ToolV> {
    seq![
        tool_v(
            "pythagorean"@,
            "{\"type\":\"object\",\"properties\":{\"a\":{\"type\":\"number\"},\"b\":{\"type\":\"number\"}},\"required\":[\"a\",\"b\"]}"@,
            "Pythagorean Theorem"@,
            "Calculate the hypotenuse of a right triangle"@,
        ),
    ]
}

pub open spec fn route_tools_spec() -> Seq<ToolV> {
    seq![
        tool_v(
            "analyze_route"@,
            "{\"type\":\"object\",\"properties\":{\"waypoints\":{\"type\":\"array\",\"items\":{\"type\":\"object\"}}},\"required\":[\"waypoints\"]}"@,
            "Route Analyzer"@,
            "Analyze a route through multiple GPS waypoints"@,
        ),
    ]
}

pub open spec fn stddev_tools_spec() -> Seq<ToolV> {
    seq![
        tool_v(
            "standard_deviation"@,
            "{\"type\":\"object\",\"properties\":{\"numbers\":{\"type\":\"array\",\"items\":{\"type\":\"number\"}}},\"required\":[\"numbers\"]}"@,
            "Standard Deviation"@,
            "Calculate the standard deviation of an array of numbers"@,
        ),
        tool_v(
            "stddev"@,
            "{\"type\":\"object\",\"properties\":{\"numbers\":{\"type\":\"array\",\"items\":{\"type\":\"number\"}}},\"required\":[\"numbers\"]}"@,
            "StdDev (alias)"@,
            "Alias for standard_deviation"@,
        ),
    ]
}

pub open spec fn variance_tools_spec() -> Seq<ToolV> {
    seq![
        tool_v(
            "variance"@,
            "{\"type\":\"object\",\"properties\":{\"numbers\":{\"type\":\"array\",\"items\":{\"type\":\"number\"}}},\"required\":[\"numbers\"]}"@,
            "Variance"@,
            "Calculate the variance of an array of numbers"@,
        ),
    ]
}

/// Every tool a handler declares, in its own declaration order.
#[verifier::opaque]
pub open spec fn own_tools(h: Handler) -> Seq<ToolV> {
    match h {
        Handler::DistanceCalc => distance_calc_tools_spec(),
        Handler::Pythagorean => pythagorean_tools_spec(),
        Handler::RouteOptimizer => route_tools_spec(),
        Handler::StdDev => stddev_tools_spec(),
        Handler::Variance => variance_tools_spec(),
        Handler::MathTools => math_tools_spec(),
        Handler::StatsTools => stats_tools_spec(),
        Handler::GeoBearing => geo_bearing_tools_spec(),
        Handler::GeoDistance => geo_distance_tools_spec(),
        Handler::GeoPointInPolygon => geo_pip_tools_spec(),
    }
}

/// Declare a handler's own tools.
pub fn own_tools_list(h: Handler) -> (v: Vec<Tool>)
    ensures
        tools_deep(v@) == own_tools(h),
{
    proof {
        reveal(own_tools);
    }
    match h {
        Handler::DistanceCalc => {
            let mut v: Vec<Tool> = Vec::new();
            v.push(
                make_tool(
                    "distance",
                    "{\"type\":\"object\",\"properties\":{\"x1\":{\"type\":\"number\"},\"y1\":{\"type\":\"number\"},\"x2\":{\"type\":\"number\"},\"y2\":{\"type\":\"number\"}},\"required\":[\"x1\",\"y1\",\"x2\",\"y2\"]}",
                    "2D Distance Calculator",
                    "Calculate Euclidean distance between two points",
                ),
            );
            proof {
                assert(tools_deep(v@) =~= distance_calc_tools_spec());
            }
            v
        },
        Handler::Pythagorean => {
            let mut v: Vec<Tool> = Vec::new();
            v.push(
                make_tool(
                    "pythagorean",
                    "{\"type\":\"object\",\"properties\":{\"a\":{\"type\":\"number\"},\"b\":{\"type\":\"number\"}},\"required\":[\"a\",\"b\"]}",
                    "Pythagorean Theorem",
                    "Calculate the hypotenuse of a right triangle",
                ),
            );
            proof {
                assert(tools_deep(v@) =~= pythagorean_tools_spec());
            }
            v
        },
        Handler::RouteOptimizer => {
            let mut v: Vec<Tool> = Vec::new();
            v.push(
                make_tool(
                    "analyze_route",
                    "{\"type\":\"object\",\"properties\":{\"waypoints\":{\"type\":\"array\",\"items\":{\"type\":\"object\"}}},\"required\":[\"waypoints\"]}",
                    "Route Analyzer",
                    "Analyze a route through multiple GPS waypoints",
                ),
            );
            proof {
                assert(tools_deep(v@) =~= route_tools_spec());
            }
            v
        },
        Handler::StdDev => {
            let mut v: Vec<Tool> = Vec::new();
            v.push(
                make_tool(
                    "standard_deviation",
                    "{\"type\":\"object\",\"properties\":{\"numbers\":{\"type\":\"array\",\"items\":{\"type\":\"number\"}}},\"required\":[\"numbers\"]}",
                    "Standard Deviation",
                    "Calculate the standard deviation of an array of numbers",
                ),
            );
            v.push(
                make_tool(
                    "stddev",
                    "{\"type\":\"object\",\"properties\":{\"numbers\":{\"type\":\"array\",\"items\":{\"type\":\"number\"}}},\"required\":[\"numbers\"]}",
                    "StdDev (alias)",
                    "Alias for standard_deviation",
                ),
            );
            proof {
                assert(tools_deep(v@) =~= stddev_tools_spec());
            }
            v
        },
        Handler::Variance => {
            let mut v: Vec<Tool> = Vec::new();
            v.push(
                make_tool(
                    "variance",
                    "{\"type\":\"object\",\"properties\":{\"numbers\":{\"type\":\"array\",\"items\":{\"type\":\"number\"}}},\"required\":[\"numbers\"]}",
                    "Variance",
                    "Calculate the variance of an array of numbers",
                ),
            );
            proof {
                assert(tools_deep(v@) =~= variance_tools_spec());
            }
            v
        },
        Handler::MathTools => math_tools_list(),
        Handler::StatsTools => stats_tools_list(),
        Handler::GeoBearing => geo_bearing_tools_list(),
        Handler::GeoDistance => geo_distance_tools_list(),
        Handler::GeoPointInPolygon => geo_pip_tools_list(),
    }
}

// ----- structured arguments a middleware builds for its nested calls -----

pub open spec fn one_num_args(key: Seq<char>, v: Fixed) -> Option<ArgPayloadV> {
    Some(ArgPayloadV::Data(JVal::Obj(seq![(key, JVal::Num(render_fixed_spec(v)))])))
}

pub open spec fn two_num_args(k1: Seq<char>, v1: Fixed, k2: Seq<char>, v2: Fixed) -> Option<
    ArgPayloadV,
> {
    Some(
        ArgPayloadV::Data(
            JVal::Obj(
                seq![
                    (k1, JVal::Num(render_fixed_spec(v1))),
                    (k2, JVal::Num(render_fixed_spec(v2))),
                ],
            ),
        ),
    )
}

fn one_num_payload(key: &str, v: Fixed) -> (r: ArgPayload)
    requires
        v.wf(),
    ensures
        view_opt_args(Some(r)) == one_num_args(key@, v),
{
    let mut fields: Vec<(String, JsonData)> = Vec::new();
    fields.push((String::from_str(key), JsonData::Num(render_number(v))));
    let data = JsonData::Obj(fields);
    proof {
        lemma_fields_deep(data->Obj_0@);
        assert(fields_deep(data->Obj_0@) =~~= seq![(key@, JVal::Num(render_fixed_spec(v)))]);
    }
    ArgPayload::Data(data)
}

fn two_num_payload(k1: &str, v1: Fixed, k2: &str, v2: Fixed) -> (r: ArgPayload)
    requires
        v1.wf(),
        v2.wf(),
    ensures
        view_opt_args(Some(r)) == two_num_args(k1@, v1, k2@, v2),
{
    let mut fields: Vec<(String, JsonData)> = Vec::new();
    fields.push((String::from_str(k1), JsonData::Num(render_number(v1))));
    fields.push((String::from_str(k2), JsonData::Num(render_number(v2))));
    let data = JsonData::Obj(fields);
    proof {
        lemma_fields_deep(data->Obj_0@);
        assert(fields_deep(data->Obj_0@) =~~= seq![
            (k1@, JVal::Num(render_fixed_spec(v1))),
            (k2@, JVal::Num(render_fixed_spec(v2))),
        ]);
    }
    ArgPayload::Data(data)
}

/// The number list of a scalar sequence, each in its canonical text.
pub open spec fn nums_data(vals: Seq<Fixed>) -> Seq<JVal>
    decreases vals.len(),
{
    if vals.len() == 0 {
        Seq::empty()
    } else {
        seq![JVal::Num(render_fixed_spec(vals[0]))] + nums_data(vals.skip(1))
    }
}

pub open spec fn numbers_args(vals: Seq<Fixed>) -> Option<ArgPayloadV> {
    Some(ArgPayloadV::Data(JVal::Obj(seq![("numbers"@, JVal::Arr(nums_data(vals)))])))
}

#[verifier::loop_isolation(false)]
fn numbers_payload(vals: &Vec<Fixed>) -> (r: ArgPayload)
    requires
        all_wf(vals@),
    ensures
        view_opt_args(Some(r)) == numbers_args(vals@),
{
    let mut items: Vec<JsonData> = Vec::new();
    let mut i: usize = 0;
    proof {
        assert(vals@.skip(0) =~= vals@);
        assert(items_deep(items@) =~= Seq::<JVal>::empty());
        assert(Seq::<JVal>::empty() + nums_data(vals@) =~= nums_data(vals@));
    }
    while i < vals.len()
        invariant
            0 <= i <= vals.len(),
            items@.len() == i,
            nums_data(vals@) == items_deep(items@) + nums_data(vals@.skip(i as int)),
        decreases vals.len() - i,
    {
        let ghost before = items@;
        let jn = JsonData::Num(render_number(vals[i]));
        let ghost jv = jn.deep();
        proof {
            assert(jv == JVal::Num(render_fixed_spec(vals@[i as int])));
        }
        items.push(jn);
        proof {
            lemma_items_deep(before);
            lemma_items_deep(items@);
            assert(items@ =~= before.push(jn));
            assert(items_deep(items@) =~= items_deep(before) + seq![jv]);
            assert(vals@.skip(i as int)[0] == vals@[i as int]);
            assert(vals@.skip(i as int).skip(1) =~= vals@.skip(i as int + 1));
            assert(nums_data(vals@.skip(i as int)) == seq![jv] + nums_data(
                vals@.skip(i as int + 1),
            ));
            assert((items_deep(before) + seq![jv]) + nums_data(vals@.skip(i as int + 1)) =~=
                items_deep(before) + (seq![jv] + nums_data(vals@.skip(i as int + 1))));
        }
        i = i + 1;
    }
    proof {
        assert(vals@.skip(i as int).len() == 0);
        assert(nums_data(vals@.skip(i as int)) =~= Seq::<JVal>::empty());
        assert(items_deep(items@) + Seq::<JVal>::empty() =~= items_deep(items@));
        assert(items_deep(items@) == nums_data(vals@));
    }
    let mut fields: Vec<(String, JsonData)> = Vec::new();
    let ja = JsonData::Arr(items);
    fields.push((String::from_str("numbers"), ja));
    let data = JsonData::Obj(fields);
    proof {
        lemma_fields_deep(data->Obj_0@);
        assert(fields_deep(data->Obj_0@) =~~= seq![("numbers"@, JVal::Arr(nums_data(vals@)))]);
    }
    ArgPayload::Data(data)
}

// ----- the downstream call and its error classification -----

/// Diagnostic for a capability missing from the rest of the chain: it names
/// the tool and recommends the ordering fix.
pub open spec fn missing_tool_spec(name: Seq<char>) -> Seq<char> {
    "Tool '"@ + name + "' not found. A provider for it must come after this middleware in the chain."@
}

pub fn missing_tool_message(name: &str) -> (r: String)
    ensures
        r@ == missing_tool_spec(name@),
{
    let r = String::from_str("Tool '").concat(name).concat(
        "' not found. A provider for it must come after this middleware in the chain.",
    );
    proof {
        assert(r@ =~= missing_tool_spec(name@));
    }
    r
}

pub open spec fn call_error_spec(name: Seq<char>, m: Seq<char>) -> Seq<char> {
    "Error calling '"@ + name + "': "@ + m
}

fn call_error_message(name: &str, m: &str) -> (r: String)
    ensures
        r@ == call_error_spec(name@, m@),
{
    let r = String::from_str("Error calling '").concat(name).concat("': ").concat(m);
    proof {
        assert(r@ =~= call_error_spec(name@, m@));
    }
    r
}

/// What the terminal end of the chain answers: an empty tools list, and
/// method-not-found for everything else.
pub open spec fn terminal_response(req: ClientRequestV) -> Result<ServerResponseV, ErrorCodeV> {
    match req {
        ClientRequestV::ToolsList(_) => Ok(
            ServerResponseV::ToolsList(
                ListToolsResultV { tools: Seq::empty(), next_cursor: None, meta: None },
            ),
        ),
        ClientRequestV::ToolsCall(c) => Err(ErrorCodeV::MethodNotFound(c.name)),
        ClientRequestV::Other(kind) => Err(ErrorCodeV::MethodNotFound(kind)),
    }
}

// ----- the evaluator: what the chain from position `i` answers -----

/// The dispatch contract. The handler at `i` answers a tools-list by the
/// merge rule, answers a tools-call it owns by its own computation, and
/// delegates everything else verbatim to the chain at `i + 1`; past the end
/// the terminal rule answers.
#[verifier::opaque]
pub open spec fn spec_handle_request(chain: Seq<Handler>, i: int, req: ClientRequestV) -> Result<
    ServerResponseV,
    ErrorCodeV,
>
    decreases chain.len() - i, 1int, 0int,
        when 0 <= i <= chain.len()
{
    if i == chain.len() {
        terminal_response(req)
    } else {
        match req {
            ClientRequestV::ToolsList(cursor) => spec_tools_list(chain, i, cursor),
            ClientRequestV::ToolsCall(c) => match chain[i] {
                Handler::DistanceCalc => if c.name == "distance"@ {
                    spec_handle_distance_call(chain, i + 1, c.arguments)
                } else {
                    spec_handle_request(chain, i + 1, req)
                },
                Handler::Pythagorean => if c.name == "pythagorean"@ {
                    spec_handle_pythagorean_call(chain, i + 1, c.arguments)
                } else {
                    spec_handle_request(chain, i + 1, req)
                },
                Handler::RouteOptimizer => if c.name == "analyze_route"@ {
                    spec_handle_analyze_route(chain, i + 1, c.arguments)
                } else {
                    spec_handle_request(chain, i + 1, req)
                },
                Handler::StdDev => if c.name == "standard_deviation"@ || c.name == "stddev"@ {
                    spec_handle_stddev_call(chain, i + 1, c.arguments)
                } else {
                    spec_handle_request(chain, i + 1, req)
                },
                Handler::Variance => if c.name == "variance"@ {
                    spec_handle_variance_call(chain, i + 1, c.arguments)
                } else {
                    spec_handle_request(chain, i + 1, req)
                },
                Handler::MathTools => match math_call_spec(c.name, c.arguments) {
                    Some(res) => Ok(ServerResponseV::ToolsCall(res)),
                    None => spec_handle_request(chain, i + 1, req),
                },
                Handler::StatsTools => match stats_call_spec(c.name, c.arguments) {
                    Some(res) => Ok(ServerResponseV::ToolsCall(res)),
                    None => spec_handle_request(chain, i + 1, req),
                },
                Handler::GeoBearing => match geo_bearing_call_spec(c.name, c.arguments) {
                    Some(res) => Ok(ServerResponseV::ToolsCall(res)),
                    None => spec_handle_request(chain, i + 1, req),
                },
                Handler::GeoDistance => match geo_distance_call_spec(c.name, c.arguments) {
                    Some(res) => Ok(ServerResponseV::ToolsCall(res)),
                    None => spec_handle_request(chain, i + 1, req),
                },
                Handler::GeoPointInPolygon => match geo_pip_call_spec(c.name, c.arguments) {
                    Some(res) => Ok(ServerResponseV::ToolsCall(res)),
                    None => spec_handle_request(chain, i + 1, req),
                },
            },
            ClientRequestV::Other(_) => spec_handle_request(chain, i + 1, req),
        }
    }
}

/// The merge rule: the downstream list first, this handler's own tools
/// appended; a downstream that cannot list tools counts as having none, and
/// the merge itself never fails.
#[verifier::opaque]
pub open spec fn spec_tools_list(chain: Seq<Handler>, i: int, cursor: Option<Seq<char>>) -> Result<
    ServerResponseV,
    ErrorCodeV,
>
    decreases chain.len() - i, 0int, 0int,
        when 0 <= i < chain.len()
{
    let own = own_tools(chain[i]);
    let below = spec_handle_request(chain, i + 1, ClientRequestV::ToolsList(cursor));
    let tools = match below {
        Ok(ServerResponseV::ToolsList(res)) => res.tools + own,
        _ => own,
    };
    Ok(
        ServerResponseV::ToolsList(
            ListToolsResultV { tools, next_cursor: None, meta: None },
        ),
    )
}

/// Issue one nested tools-call into the chain at `i` and extract its scalar:
/// a missing capability or any downstream failure becomes a diagnostic for a
/// tool-level error, never a protocol error of the caller.
#[verifier::opaque]
pub open spec fn spec_call_downstream(
    chain: Seq<Handler>,
    i: int,
    name: Seq<char>,
    args: Option<ArgPayloadV>,
) -> Result<Fixed, Seq<char>>
    decreases chain.len() - i, 2int, 0int,
        when 0 <= i <= chain.len()
{
    match spec_handle_request(
        chain,
        i,
        ClientRequestV::ToolsCall(CallToolRequestV { name, arguments: args }),
    ) {
        Ok(ServerResponseV::ToolsCall(res)) => extract_number_spec(res),
        Ok(_) => Err("Unexpected response type when calling '"@ + name + "'"@),
        Err(ErrorCodeV::MethodNotFound(_)) => Err(missing_tool_spec(name)),
        Err(ErrorCodeV::Other(m)) => Err(call_error_spec(name, m)),
    }
}

/// As spec_call_downstream, but hand back the whole successful result
/// instead of a scalar.
#[verifier::opaque]
pub open spec fn spec_call_downstream_record(
    chain: Seq<Handler>,
    i: int,
    name: Seq<char>,
    args: Option<ArgPayloadV>,
) -> Result<CallToolResultV, Seq<char>>
    decreases chain.len() - i, 2int, 0int,
        when 0 <= i <= chain.len()
{
    match spec_handle_request(
        chain,
        i,
        ClientRequestV::ToolsCall(CallToolRequestV { name, arguments: args }),
    ) {
        Ok(ServerResponseV::ToolsCall(res)) => if res.is_error == Some(true) {
            Err("Tool '"@ + name + "' returned an error"@)
        } else {
            Ok(res)
        },
        Ok(_) => Err("Unexpected response type from '"@ + name + "'"@),
        Err(ErrorCodeV::MethodNotFound(_)) => Err(missing_tool_spec(name)),
        Err(ErrorCodeV::Other(m)) => Err(call_error_spec(name, m)),
    }
}

// ----- the synthetic tool computations -----

/// The planar coordinate arguments `x1`, `y1`, `x2`, `y2`, in order.
pub open spec fn parse_xy_spec(args: Option<ArgPayloadV>) -> Result<
    (Fixed, Fixed, Fixed, Fixed),
    Seq<char>,
> {
    match crate::args::args_data_spec(args) {
        Err(m) => Err(m),
        Ok(j) => match crate::args::get_num_field(j, "x1"@) {
            None => Err(crate::args::missing_param_spec("x1"@)),
            Some(x1) => match crate::args::get_num_field(j, "y1"@) {
                None => Err(crate::args::missing_param_spec("y1"@)),
                Some(y1) => match crate::args::get_num_field(j, "x2"@) {
                    None => Err(crate::args::missing_param_spec("x2"@)),
                    Some(x2) => match crate::args::get_num_field(j, "y2"@) {
                        None => Err(crate::args::missing_param_spec("y2"@)),
                        Some(y2) => Ok((x1, y1, x2, y2)),
                    },
                },
            },
        },
    }
}

pub fn parse_distance_args(args: Option<ArgPayload>) -> (r: Result<
    (Fixed, Fixed, Fixed, Fixed),
    String,
>)
    ensures
        match r {
            Ok(c) => parse_xy_spec(view_opt_args(args)) == Ok::<
                (Fixed, Fixed, Fixed, Fixed),
                Seq<char>,
            >(c) && c.0.wf() && c.1.wf() && c.2.wf() && c.3.wf(),
            Err(m) => parse_xy_spec(view_opt_args(args)) == Err::<
                (Fixed, Fixed, Fixed, Fixed),
                Seq<char>,
            >(m@),
        },
{
    let j = match crate::args::args_data(args) {
        Ok(j) => j,
        Err(m) => {
            return Err(m);
        },
    };
    let x1 = match crate::args::num_field(&j, "x1") {
        Some(v) => v,
        None => {
            return Err(crate::args::missing_param("x1"));
        },
    };
    let y1 = match crate::args::num_field(&j, "y1") {
        Some(v) => v,
        None => {
            return Err(crate::args::missing_param("y1"));
        },
    };
    let x2 = match crate::args::num_field(&j, "x2") {
        Some(v) => v,
        None => {
            return Err(crate::args::missing_param("x2"));
        },
    };
    let y2 = match crate::args::num_field(&j, "y2") {
        Some(v) => v,
        None => {
            return Err(crate::args::missing_param("y2"));
        },
    };
    Ok((x1, y1, x2, y2))
}

/// The planar distance middleware: the leg differences are computed
/// locally, their squares, sum and root are delegated downstream.
#[verifier::opaque]
pub open spec fn spec_handle_distance_call(
    chain: Seq<Handler>,
    i: int,
    args: Option<ArgPayloadV>,
) -> Result<ServerResponseV, ErrorCodeV>
    decreases chain.len() - i, 3int, 0int,
        when 0 <= i <= chain.len()
{
    match parse_xy_spec(args) {
        Err(m) => Ok(ServerResponseV::ToolsCall(error_result_spec(m))),
        Ok(c) => {
            let dx = f_sub(c.2, c.0);
            let dy = f_sub(c.3, c.1);
            match spec_call_downstream(chain, i, "square"@, one_num_args("x"@, dx)) {
                Err(e) => Ok(ServerResponseV::ToolsCall(error_result_spec(e))),
                Ok(dx2) => match spec_call_downstream(chain, i, "square"@, one_num_args("x"@, dy)) {
                    Err(e) => Ok(ServerResponseV::ToolsCall(error_result_spec(e))),
                    Ok(dy2) => match spec_call_downstream(
                        chain,
                        i,
                        "add"@,
                        two_num_args("a"@, dx2, "b"@, dy2),
                    ) {
                        Err(e) => Ok(ServerResponseV::ToolsCall(error_result_spec(e))),
                        Ok(sum) => match spec_call_downstream(
                            chain,
                            i,
                            "square_root"@,
                            one_num_args("x"@, sum),
                        ) {
                            Err(e) => Ok(ServerResponseV::ToolsCall(error_result_spec(e))),
                            Ok(dist) => Ok(
                                ServerResponseV::ToolsCall(
                                    success_result_spec(render_fixed_spec(dist), None),
                                ),
                            ),
                        },
                    },
                },
            }
        },
    }
}

/// The hypotenuse middleware: squares delegated, the sum local, the root
/// delegated.
#[verifier::opaque]
pub open spec fn spec_handle_pythagorean_call(
    chain: Seq<Handler>,
    i: int,
    args: Option<ArgPayloadV>,
) -> Result<ServerResponseV, ErrorCodeV>
    decreases chain.len() - i, 3int, 0int,
        when 0 <= i <= chain.len()
{
    match parse_pair_spec(args, "a"@, "b"@) {
        Err(m) => Ok(ServerResponseV::ToolsCall(error_result_spec(m))),
        Ok(p) => match spec_call_downstream(chain, i, "square"@, one_num_args("x"@, p.0)) {
            Err(e) => Ok(ServerResponseV::ToolsCall(error_result_spec(e))),
            Ok(a2) => match spec_call_downstream(chain, i, "square"@, one_num_args("x"@, p.1)) {
                Err(e) => Ok(ServerResponseV::ToolsCall(error_result_spec(e))),
                Ok(b2) => {
                    let sum = f_add(a2, b2);
                    match spec_call_downstream(chain, i, "square_root"@, one_num_args("x"@, sum)) {
                        Err(e) => Ok(ServerResponseV::ToolsCall(error_result_spec(e))),
                        Ok(hyp) => Ok(
                            ServerResponseV::ToolsCall(
                                success_result_spec(render_fixed_spec(hyp), None),
                            ),
                        ),
                    }
                },
            },
        },
    }
}

/// The standard-deviation middleware: the variance is delegated (itself a
/// middleware computation), then the root is delegated.
#[verifier::opaque]
pub open spec fn spec_handle_stddev_call(
    chain: Seq<Handler>,
    i: int,
    args: Option<ArgPayloadV>,
) -> Result<ServerResponseV, ErrorCodeV>
    decreases chain.len() - i, 3int, 0int,
        when 0 <= i <= chain.len()
{
    match spec_call_downstream(chain, i, "variance"@, args) {
        Err(e) => Ok(ServerResponseV::ToolsCall(error_result_spec(e))),
        Ok(variance) => match spec_call_downstream(
            chain,
            i,
            "square_root"@,
            one_num_args("x"@, variance),
        ) {
            Err(e) => Ok(ServerResponseV::ToolsCall(error_result_spec(e))),
            Ok(sd) => Ok(
                ServerResponseV::ToolsCall(success_result_spec(render_fixed_spec(sd), None)),
            ),
        },
    }
}

/// Running total of squared deviations from the mean, left to right.
pub open spec fn sq_dev_prefix(vals: Seq<Fixed>, mean: Fixed, i: int) -> Fixed
    decreases i,
{
    if i <= 0 {
        fixed_of(0)
    } else {
        let d = f_sub(vals[i - 1], mean);
        f_add(sq_dev_prefix(vals, mean, i - 1), f_mul(d, d))
    }
}

/// The variance of the list around the given mean: average squared
/// deviation.
pub open spec fn variance_of(vals: Seq<Fixed>, mean: Fixed) -> Fixed {
    f_div(sq_dev_prefix(vals, mean, vals.len() as int), count_fixed(vals.len() as int))
}

/// The variance middleware: the mean is delegated to the statistics
/// provider, the squared deviations and their average are local.
#[verifier::opaque]
pub open spec fn spec_handle_variance_call(
    chain: Seq<Handler>,
    i: int,
    args: Option<ArgPayloadV>,
) -> Result<ServerResponseV, ErrorCodeV>
    decreases chain.len() - i, 3int, 0int,
        when 0 <= i <= chain.len()
{
    match parse_numbers_spec(args) {
        Err(m) => Ok(ServerResponseV::ToolsCall(error_result_spec(m))),
        Ok(vals) => if vals.len() == 0 {
            Ok(
                ServerResponseV::ToolsCall(
                    error_result_spec("Error: Cannot calculate variance of empty array"@),
                ),
            )
        } else {
            match spec_call_downstream(chain, i, "mean"@, numbers_args(vals)) {
                Err(e) => Ok(ServerResponseV::ToolsCall(error_result_spec(e))),
                Ok(mean) => Ok(
                    ServerResponseV::ToolsCall(
                        success_result_spec(render_fixed_spec(variance_of(vals, mean)), None),
                    ),
                ),
            }
        },
    }
}


// ----- the route analysis middleware -----

/// The coordinate arguments a route segment's nested calls carry.
pub open spec fn coords_args(from: (Fixed, Fixed), to: (Fixed, Fixed)) -> Option<ArgPayloadV> {
    Some(
        ArgPayloadV::Data(
            JVal::Obj(
                seq![
                    ("lat1"@, JVal::Num(render_fixed_spec(from.0))),
                    ("lon1"@, JVal::Num(render_fixed_spec(from.1))),
                    ("lat2"@, JVal::Num(render_fixed_spec(to.0))),
                    ("lon2"@, JVal::Num(render_fixed_spec(to.1))),
                ],
            ),
        ),
    )
}

/// A scalar field of a nested result's structured record; zero when the
/// record or the field is not usable, mirroring the lenient reading the
/// route analysis applies to its collaborators' records.
pub open spec fn record_num_field(res: CallToolResultV, key: Seq<char>) -> Fixed {
    match res.structured_content {
        Some(JVal::Obj(fields)) => match crate::json::lookup_field(fields, key) {
            Some(JVal::Num(t)) => match crate::numtext::parse_fixed_spec(t) {
                Some(f) => f,
                None => fixed_of(0),
            },
            _ => fixed_of(0),
        },
        _ => fixed_of(0),
    }
}

/// A text field of a nested result's structured record, with a default.
pub open spec fn record_str_field(res: CallToolResultV, key: Seq<char>, dflt: Seq<char>) -> Seq<
    char,
> {
    match res.structured_content {
        Some(JVal::Obj(fields)) => match crate::json::lookup_field(fields, key) {
            Some(JVal::Str(s)) => s,
            _ => dflt,
        },
        _ => dflt,
    }
}

/// The text of one route segment record.
pub open spec fn seg_text(
    from: (Fixed, Fixed),
    to: (Fixed, Fixed),
    km: Fixed,
    mi: Fixed,
    deg: Fixed,
    compass: Seq<char>,
) -> Seq<char> {
    "{\"from\":{\"lat\":"@ + render_fixed_spec(from.0) + ",\"lon\":"@ + render_fixed_spec(from.1)
        + "},\"to\":{\"lat\":"@ + render_fixed_spec(to.0) + ",\"lon\":"@ + render_fixed_spec(to.1)
        + "},\"distance_km\":"@ + render_fixed_spec(km) + ",\"distance_miles\":"@
        + render_fixed_spec(mi) + ",\"bearing_degrees\":"@ + render_fixed_spec(deg)
        + ",\"compass_direction\":\""@ + compass + "\"}"@
}

/// The structured form of one route segment record.
pub open spec fn seg_data(
    from: (Fixed, Fixed),
    to: (Fixed, Fixed),
    km: Fixed,
    mi: Fixed,
    deg: Fixed,
    compass: Seq<char>,
) -> JVal {
    JVal::Obj(
        seq![
            (
                "from"@,
                JVal::Obj(
                    seq![
                        ("lat"@, JVal::Num(render_fixed_spec(from.0))),
                        ("lon"@, JVal::Num(render_fixed_spec(from.1))),
                    ],
                ),
            ),
            (
                "to"@,
                JVal::Obj(
                    seq![
                        ("lat"@, JVal::Num(render_fixed_spec(to.0))),
                        ("lon"@, JVal::Num(render_fixed_spec(to.1))),
                    ],
                ),
            ),
            ("distance_km"@, JVal::Num(render_fixed_spec(km))),
            ("distance_miles"@, JVal::Num(render_fixed_spec(mi))),
            ("bearing_degrees"@, JVal::Num(render_fixed_spec(deg))),
            ("compass_direction"@, JVal::Str(compass)),
        ],
    )
}

/// The segments from waypoint `k` on: each consecutive pair yields one
/// nested distance call and one nested bearing call, strictly in order, and
/// the running total of kilometers accumulates left to right. The first
/// failed nested call aborts the whole computation.
#[verifier::opaque]
pub open spec fn spec_route_segments(
    chain: Seq<Handler>,
    i: int,
    wps: Seq<(Fixed, Fixed)>,
    k: int,
    acc: Fixed,
) -> Result<(Seq<Seq<char>>, Seq<JVal>, Fixed), Seq<char>>
    decreases chain.len() - i, 2int, wps.len() - k,
        when 0 <= i <= chain.len() && 0 <= k
{
    if k + 1 >= wps.len() {
        Ok((Seq::empty(), Seq::empty(), acc))
    } else {
        let from = wps[k];
        let to = wps[k + 1];
        let args = coords_args(from, to);
        match spec_call_downstream_record(chain, i, "distance"@, args) {
            Err(m) => Err(m),
            Ok(dres) => match spec_call_downstream_record(chain, i, "bearing"@, args) {
                Err(m) => Err(m),
                Ok(bres) => {
                    let km = record_num_field(dres, "distance_km"@);
                    let mi = record_num_field(dres, "distance_miles"@);
                    let deg = record_num_field(bres, "bearing_degrees"@);
                    let compass = record_str_field(bres, "compass_direction"@, "N"@);
                    let acc2 = f_add(acc, km);
                    match spec_route_segments(chain, i, wps, k + 1, acc2) {
                        Err(m) => Err(m),
                        Ok(rest) => Ok(
                            (
                                seq![seg_text(from, to, km, mi, deg, compass)] + rest.0,
                                seq![seg_data(from, to, km, mi, deg, compass)] + rest.1,
                                rest.2,
                            ),
                        ),
                    }
                },
            },
        }
    }
}

/// Comma-joined texts of the first `i` segments.
pub open spec fn join_upto(texts: Seq<Seq<char>>, i: int) -> Seq<char>
    decreases i,
{
    if i <= 0 {
        Seq::empty()
    } else if i == 1 {
        texts[0]
    } else {
        join_upto(texts, i - 1) + ","@ + texts[i - 1]
    }
}

/// The text of the route analysis record.
pub open spec fn route_text(
    n: int,
    total_km: Fixed,
    total_mi: Fixed,
    seg_texts: Seq<Seq<char>>,
) -> Seq<char> {
    "{\"total_waypoints\":"@ + render_fixed_spec(count_fixed(n)) + ",\"total_distance_km\":"@
        + render_fixed_spec(total_km) + ",\"total_distance_miles\":"@ + render_fixed_spec(total_mi)
        + ",\"segments\":["@ + join_upto(seg_texts, seg_texts.len() as int) + "]}"@
}

/// The structured form of the route analysis record.
pub open spec fn route_data(n: int, total_km: Fixed, total_mi: Fixed, segs: Seq<JVal>) -> JVal {
    JVal::Obj(
        seq![
            ("total_waypoints"@, JVal::Num(render_fixed_spec(count_fixed(n)))),
            ("total_distance_km"@, JVal::Num(render_fixed_spec(total_km))),
            ("total_distance_miles"@, JVal::Num(render_fixed_spec(total_mi))),
            ("segments"@, JVal::Arr(segs)),
        ],
    )
}

/// The route middleware: per consecutive waypoint pair one distance and one
/// bearing record are fetched downstream; the totals and the composite
/// record are built locally.
#[verifier::opaque]
pub open spec fn spec_handle_analyze_route(
    chain: Seq<Handler>,
    i: int,
    args: Option<ArgPayloadV>,
) -> Result<ServerResponseV, ErrorCodeV>
    decreases chain.len() - i, 3int, 0int,
        when 0 <= i <= chain.len()
{
    match crate::geo_tools::parse_waypoints_spec(args) {
        Err(m) => Ok(ServerResponseV::ToolsCall(error_result_spec(m))),
        Ok(wps) => if wps.len() < 2 {
            Ok(
                ServerResponseV::ToolsCall(
                    error_result_spec("Route must have at least 2 waypoints"@),
                ),
            )
        } else {
            match spec_route_segments(chain, i, wps, 0, fixed_of(0)) {
                Err(m) => Ok(ServerResponseV::ToolsCall(error_result_spec(m))),
                Ok(r3) => {
                    let total_mi = f_mul(r3.2, crate::geo_tools::miles_factor());
                    Ok(
                        ServerResponseV::ToolsCall(
                            success_result_spec(
                                route_text(wps.len() as int, r3.2, total_mi, r3.0),
                                Some(route_data(wps.len() as int, r3.2, total_mi, r3.1)),
                            ),
                        ),
                    )
                },
            }
        },
    }
}


// ----- executable dispatch -----

/// Serve a request with the chain from position `i` on. The context and
/// the correlation token are passed unchanged through every delegation, and
/// the outcome is exactly what the dispatch contract assigns to the chain
/// tail and the request.
#[verifier::rlimit(100)]
#[verifier::spinoff_prover]
pub fn handle_request(
    chain: &Vec<Handler>,
    i: usize,
    ctx: &Context,
    req: ClientRequest,
    id: &RequestId,
) -> (r: Result<ServerResponse, ErrorCode>)
    requires
        i <= chain@.len(),
    ensures
        outcome_deep(r) == spec_handle_request(chain@, i as int, req.deep()),
    decreases chain@.len() - i, 1int, 0int,
{
    reveal(spec_handle_request);
    if i == chain.len() {
        return match req {
            ClientRequest::ToolsList(_) => {
                let empty: Vec<Tool> = Vec::new();
                proof {
                    assert(tools_deep(empty@) =~= Seq::<ToolV>::empty());
                }
                Ok(
                    ServerResponse::ToolsList(
                        ListToolsResult { tools: empty, next_cursor: None, meta: None },
                    ),
                )
            },
            ClientRequest::ToolsCall(c) => Err(ErrorCode::MethodNotFound(c.name)),
            ClientRequest::Other(kind) => Err(ErrorCode::MethodNotFound(kind)),
        };
    }
    let h = chain[i];
    match req {
        ClientRequest::ToolsList(lr) => handle_tools_list(chain, i, ctx, lr, id),
        ClientRequest::ToolsCall(c) => {
            match h {
                Handler::DistanceCalc => {
                    if str_eq(c.name.as_str(), "distance") {
                        handle_distance_call(chain, i + 1, ctx, c.arguments, id)
                    } else {
                        handle_request(chain, i + 1, ctx, ClientRequest::ToolsCall(c), id)
                    }
                },
                Handler::Pythagorean => {
                    if str_eq(c.name.as_str(), "pythagorean") {
                        handle_pythagorean_call(chain, i + 1, ctx, c.arguments, id)
                    } else {
                        handle_request(chain, i + 1, ctx, ClientRequest::ToolsCall(c), id)
                    }
                },
                Handler::RouteOptimizer => {
                    if str_eq(c.name.as_str(), "analyze_route") {
                        handle_analyze_route(chain, i + 1, ctx, c.arguments, id)
                    } else {
                        handle_request(chain, i + 1, ctx, ClientRequest::ToolsCall(c), id)
                    }
                },
                Handler::StdDev => {
                    if str_eq(c.name.as_str(), "standard_deviation") || str_eq(
                        c.name.as_str(),
                        "stddev",
                    ) {
                        handle_stddev_call(chain, i + 1, ctx, c.arguments, id)
                    } else {
                        handle_request(chain, i + 1, ctx, ClientRequest::ToolsCall(c), id)
                    }
                },
                Handler::Variance => {
                    if str_eq(c.name.as_str(), "variance") {
                        handle_variance_call(chain, i + 1, ctx, c.arguments, id)
                    } else {
                        handle_request(chain, i + 1, ctx, ClientRequest::ToolsCall(c), id)
                    }
                },
                Handler::MathTools => {
                    if crate::math_tools::math_owns_name(c.name.as_str()) {
                        match crate::math_tools::math_call_tool(c) {
                            Some(res) => Ok(ServerResponse::ToolsCall(res)),
                            None => {
                                proof {
                                    assert(false);
                                }
                                vstd::pervasive::unreached()
                            },
                        }
                    } else {
                        handle_request(chain, i + 1, ctx, ClientRequest::ToolsCall(c), id)
                    }
                },
                Handler::StatsTools => {
                    if crate::stats_tools::stats_owns_name(c.name.as_str()) {
                        match crate::stats_tools::stats_call_tool(c) {
                            Some(res) => Ok(ServerResponse::ToolsCall(res)),
                            None => {
                                proof {
                                    assert(false);
                                }
                                vstd::pervasive::unreached()
                            },
                        }
                    } else {
                        handle_request(chain, i + 1, ctx, ClientRequest::ToolsCall(c), id)
                    }
                },
                Handler::GeoBearing => {
                    if str_eq(c.name.as_str(), "bearing") {
                        match geo_bearing_call_tool(c) {
                            Some(res) => Ok(ServerResponse::ToolsCall(res)),
                            None => {
                                proof {
                                    assert(false);
                                }
                                vstd::pervasive::unreached()
                            },
                        }
                    } else {
                        handle_request(chain, i + 1, ctx, ClientRequest::ToolsCall(c), id)
                    }
                },
                Handler::GeoDistance => {
                    if str_eq(c.name.as_str(), "distance") {
                        match geo_distance_call_tool(c) {
                            Some(res) => Ok(ServerResponse::ToolsCall(res)),
                            None => {
                                proof {
                                    assert(false);
                                }
                                vstd::pervasive::unreached()
                            },
                        }
                    } else {
                        handle_request(chain, i + 1, ctx, ClientRequest::ToolsCall(c), id)
                    }
                },
                Handler::GeoPointInPolygon => {
                    if str_eq(c.name.as_str(), "point_in_polygon") {
                        match geo_pip_call_tool(c) {
                            Some(res) => Ok(ServerResponse::ToolsCall(res)),
                            None => {
                                proof {
                                    assert(false);
                                }
                                vstd::pervasive::unreached()
                            },
                        }
                    } else {
                        handle_request(chain, i + 1, ctx, ClientRequest::ToolsCall(c), id)
                    }
                },
            }
        },
        ClientRequest::Other(kind) => handle_request(
            chain,
            i + 1,
            ctx,
            ClientRequest::Other(kind),
            id,
        ),
    }
}

/// Serve a request at the head of the chain.
pub fn dispatch_request(
    chain: &Vec<Handler>,
    ctx: &Context,
    req: ClientRequest,
    id: &RequestId,
) -> (r: Result<ServerResponse, ErrorCode>)
    ensures
        outcome_deep(r) == spec_handle_request(chain@, 0, req.deep()),
{
    handle_request(chain, 0, ctx, req, id)
}

/// Merge the tools list: the downstream answer first, this handler's own
/// tools appended; a downstream without usable tools counts as empty.
#[verifier::rlimit(100)]
#[verifier::spinoff_prover]
pub fn handle_tools_list(
    chain: &Vec<Handler>,
    i: usize,
    ctx: &Context,
    req: ListToolsRequest,
    id: &RequestId,
) -> (r: Result<ServerResponse, ErrorCode>)
    requires
        i < chain@.len(),
    ensures
        outcome_deep(r) == spec_tools_list(chain@, i as int, view_opt_str(req.cursor)),
    decreases chain@.len() - i, 0int, 0int,
{
    reveal(spec_tools_list);
    let h = chain[i];
    let _n: usize = chain.len();
    let ghost cursor = view_opt_str(req.cursor);
    let below = handle_request(chain, i + 1, ctx, ClientRequest::ToolsList(req), id);
    let mut tools: Vec<Tool> = match below {
        Ok(ServerResponse::ToolsList(res)) => res.tools,
        _ => Vec::new(),
    };
    let ghost below_tools = tools@;
    let mut own = own_tools_list(h);
    let ghost own_seq = own@;
    tools.append(&mut own);
    proof {
        assert(tools_deep(tools@) =~= tools_deep(below_tools) + tools_deep(own_seq));
        assert(tools_deep(Seq::<Tool>::empty()) =~= Seq::<ToolV>::empty());
        assert(Seq::<ToolV>::empty() + tools_deep(own_seq) =~= tools_deep(own_seq));
    }
    Ok(ServerResponse::ToolsList(ListToolsResult { tools, next_cursor: None, meta: None }))
}

/// Issue one nested tools-call into the chain at `i` and extract its
/// scalar; classify a missing capability or any other downstream failure as
/// a diagnostic.
#[verifier::rlimit(100)]
#[verifier::spinoff_prover]
pub fn call_downstream_tool(
    chain: &Vec<Handler>,
    i: usize,
    ctx: &Context,
    name: &str,
    args: Option<ArgPayload>,
    id: &RequestId,
) -> (r: Result<Fixed, String>)
    requires
        i <= chain@.len(),
    ensures
        match r {
            Ok(f) => spec_call_downstream(chain@, i as int, name@, view_opt_args(args)) == Ok::<
                Fixed,
                Seq<char>,
            >(f) && f.wf(),
            Err(m) => spec_call_downstream(chain@, i as int, name@, view_opt_args(args)) == Err::<
                Fixed,
                Seq<char>,
            >(m@),
        },
    decreases chain@.len() - i, 2int, 0int,
{
    reveal(spec_call_downstream);
    let req = CallToolRequest { name: String::from_str(name), arguments: args };
    match handle_request(chain, i, ctx, ClientRequest::ToolsCall(req), id) {
        Ok(ServerResponse::ToolsCall(res)) => extract_number_from_result(&res),
        Ok(_) => {
            let m = String::from_str("Unexpected response type when calling '").concat(
                name,
            ).concat("'");
            proof {
                assert(m@ =~= "Unexpected response type when calling '"@ + name@ + "'"@);
            }
            Err(m)
        },
        Err(ErrorCode::MethodNotFound(_)) => Err(missing_tool_message(name)),
        Err(ErrorCode::Other(m)) => Err(call_error_message(name, m.as_str())),
    }
}

/// As call_downstream_tool, but hand back the whole successful result.
#[verifier::rlimit(100)]
#[verifier::spinoff_prover]
pub fn call_downstream_record(
    chain: &Vec<Handler>,
    i: usize,
    ctx: &Context,
    name: &str,
    args: Option<ArgPayload>,
    id: &RequestId,
) -> (r: Result<CallToolResult, String>)
    requires
        i <= chain@.len(),
    ensures
        match r {
            Ok(res) => spec_call_downstream_record(chain@, i as int, name@, view_opt_args(args))
                == Ok::<CallToolResultV, Seq<char>>(res.deep()),
            Err(m) => spec_call_downstream_record(chain@, i as int, name@, view_opt_args(args))
                == Err::<CallToolResultV, Seq<char>>(m@),
        },
    decreases chain@.len() - i, 2int, 0int,
{
    reveal(spec_call_downstream_record);
    let req = CallToolRequest { name: String::from_str(name), arguments: args };
    match handle_request(chain, i, ctx, ClientRequest::ToolsCall(req), id) {
        Ok(ServerResponse::ToolsCall(res)) => {
            let flagged = match res.is_error {
                Some(b) => b,
                None => false,
            };
            if flagged {
                let m = String::from_str("Tool '").concat(name).concat("' returned an error");
                proof {
                    assert(m@ =~= "Tool '"@ + name@ + "' returned an error"@);
                }
                Err(m)
            } else {
                Ok(res)
            }
        },
        Ok(_) => {
            let m = String::from_str("Unexpected response type from '").concat(name).concat("'");
            proof {
                assert(m@ =~= "Unexpected response type from '"@ + name@ + "'"@);
            }
            Err(m)
        },
        Err(ErrorCode::MethodNotFound(_)) => Err(missing_tool_message(name)),
        Err(ErrorCode::Other(m)) => Err(call_error_message(name, m.as_str())),
    }
}

/// The planar distance middleware's computation.
#[verifier::rlimit(100)]
#[verifier::spinoff_prover]
pub fn handle_distance_call(
    chain: &Vec<Handler>,
    i: usize,
    ctx: &Context,
    args: Option<ArgPayload>,
    id: &RequestId,
) -> (r: Result<ServerResponse, ErrorCode>)
    requires
        i <= chain@.len(),
    ensures
        outcome_deep(r) == spec_handle_distance_call(chain@, i as int, view_opt_args(args)),
    decreases chain@.len() - i, 4int, 0int,
{
    reveal(spec_handle_distance_call);
    let (x1, y1, x2, y2) = match parse_distance_args(args) {
        Ok(c) => c,
        Err(m) => {
            return Ok(ServerResponse::ToolsCall(error_result(m)));
        },
    };
    let dx = x2.sub(x1);
    let dy = y2.sub(y1);
    let dx2 = match call_downstream_tool(chain, i, ctx, "square", Some(one_num_payload("x", dx)), id) {
        Ok(v) => v,
        Err(e) => {
            return Ok(ServerResponse::ToolsCall(error_result(e)));
        },
    };
    let dy2 = match call_downstream_tool(chain, i, ctx, "square", Some(one_num_payload("x", dy)), id) {
        Ok(v) => v,
        Err(e) => {
            return Ok(ServerResponse::ToolsCall(error_result(e)));
        },
    };
    let sum = match call_downstream_tool(
        chain,
        i,
        ctx,
        "add",
        Some(two_num_payload("a", dx2, "b", dy2)),
        id,
    ) {
        Ok(v) => v,
        Err(e) => {
            return Ok(ServerResponse::ToolsCall(error_result(e)));
        },
    };
    let dist = match call_downstream_tool(
        chain,
        i,
        ctx,
        "square_root",
        Some(one_num_payload("x", sum)),
        id,
    ) {
        Ok(v) => v,
        Err(e) => {
            return Ok(ServerResponse::ToolsCall(error_result(e)));
        },
    };
    Ok(ServerResponse::ToolsCall(success_result(render_number(dist))))
}

/// The hypotenuse middleware's computation.
#[verifier::rlimit(100)]
#[verifier::spinoff_prover]
pub fn handle_pythagorean_call(
    chain: &Vec<Handler>,
    i: usize,
    ctx: &Context,
    args: Option<ArgPayload>,
    id: &RequestId,
) -> (r: Result<ServerResponse, ErrorCode>)
    requires
        i <= chain@.len(),
    ensures
        outcome_deep(r) == spec_handle_pythagorean_call(chain@, i as int, view_opt_args(args)),
    decreases chain@.len() - i, 4int, 0int,
{
    reveal(spec_handle_pythagorean_call);
    let (a, b) = match parse_two_args(args, "a", "b") {
        Ok(p) => p,
        Err(m) => {
            return Ok(ServerResponse::ToolsCall(error_result(m)));
        },
    };
    let a2 = match call_downstream_tool(chain, i, ctx, "square", Some(one_num_payload("x", a)), id) {
        Ok(v) => v,
        Err(e) => {
            return Ok(ServerResponse::ToolsCall(error_result(e)));
        },
    };
    let b2 = match call_downstream_tool(chain, i, ctx, "square", Some(one_num_payload("x", b)), id) {
        Ok(v) => v,
        Err(e) => {
            return Ok(ServerResponse::ToolsCall(error_result(e)));
        },
    };
    let sum = a2.add(b2);
    match call_downstream_tool(chain, i, ctx, "square_root", Some(one_num_payload("x", sum)), id) {
        Ok(hyp) => Ok(ServerResponse::ToolsCall(success_result(render_number(hyp)))),
        Err(e) => Ok(ServerResponse::ToolsCall(error_result(e))),
    }
}

/// Nested call of the variance tool, with the caller's own arguments.
pub fn call_variance_tool(
    chain: &Vec<Handler>,
    i: usize,
    ctx: &Context,
    args: Option<ArgPayload>,
    id: &RequestId,
) -> (r: Result<Fixed, String>)
    requires
        i <= chain@.len(),
    ensures
        match r {
            Ok(f) => spec_call_downstream(chain@, i as int, "variance"@, view_opt_args(args))
                == Ok::<Fixed, Seq<char>>(f) && f.wf(),
            Err(m) => spec_call_downstream(chain@, i as int, "variance"@, view_opt_args(args))
                == Err::<Fixed, Seq<char>>(m@),
        },
    decreases chain@.len() - i, 3int, 0int,
{
    call_downstream_tool(chain, i, ctx, "variance", args, id)
}

/// Nested call of the square-root tool on one scalar.
pub fn call_square_root_tool(
    chain: &Vec<Handler>,
    i: usize,
    ctx: &Context,
    value: Fixed,
    id: &RequestId,
) -> (r: Result<Fixed, String>)
    requires
        i <= chain@.len(),
        value.wf(),
    ensures
        match r {
            Ok(f) => spec_call_downstream(
                chain@,
                i as int,
                "square_root"@,
                one_num_args("x"@, value),
            ) == Ok::<Fixed, Seq<char>>(f) && f.wf(),
            Err(m) => spec_call_downstream(
                chain@,
                i as int,
                "square_root"@,
                one_num_args("x"@, value),
            ) == Err::<Fixed, Seq<char>>(m@),
        },
    decreases chain@.len() - i, 3int, 0int,
{
    call_downstream_tool(chain, i, ctx, "square_root", Some(one_num_payload("x", value)), id)
}

/// The standard-deviation middleware's computation: variance downstream,
/// then its square root downstream.
#[verifier::rlimit(100)]
#[verifier::spinoff_prover]
pub fn handle_stddev_call(
    chain: &Vec<Handler>,
    i: usize,
    ctx: &Context,
    args: Option<ArgPayload>,
    id: &RequestId,
) -> (r: Result<ServerResponse, ErrorCode>)
    requires
        i <= chain@.len(),
    ensures
        outcome_deep(r) == spec_handle_stddev_call(chain@, i as int, view_opt_args(args)),
    decreases chain@.len() - i, 4int, 0int,
{
    reveal(spec_handle_stddev_call);
    let variance = match call_variance_tool(chain, i, ctx, args, id) {
        Ok(v) => v,
        Err(e) => {
            return Ok(ServerResponse::ToolsCall(error_result(e)));
        },
    };
    match call_square_root_tool(chain, i, ctx, variance, id) {
        Ok(sd) => Ok(ServerResponse::ToolsCall(success_result(render_number(sd)))),
        Err(e) => Ok(ServerResponse::ToolsCall(error_result(e))),
    }
}

/// Nested call of the mean tool on a scalar list.
pub fn call_mean_tool(
    chain: &Vec<Handler>,
    i: usize,
    ctx: &Context,
    numbers: &Vec<Fixed>,
    id: &RequestId,
) -> (r: Result<Fixed, String>)
    requires
        i <= chain@.len(),
        all_wf(numbers@),
    ensures
        match r {
            Ok(f) => spec_call_downstream(chain@, i as int, "mean"@, numbers_args(numbers@))
                == Ok::<Fixed, Seq<char>>(f) && f.wf(),
            Err(m) => spec_call_downstream(chain@, i as int, "mean"@, numbers_args(numbers@))
                == Err::<Fixed, Seq<char>>(m@),
        },
    decreases chain@.len() - i, 3int, 0int,
{
    call_downstream_tool(chain, i, ctx, "mean", Some(numbers_payload(numbers)), id)
}

/// The variance middleware's computation: the mean from downstream, the
/// squared deviations and their average local.
#[verifier::rlimit(100)]
#[verifier::spinoff_prover]
pub fn handle_variance_call(
    chain: &Vec<Handler>,
    i: usize,
    ctx: &Context,
    args: Option<ArgPayload>,
    id: &RequestId,
) -> (r: Result<ServerResponse, ErrorCode>)
    requires
        i <= chain@.len(),
    ensures
        outcome_deep(r) == spec_handle_variance_call(chain@, i as int, view_opt_args(args)),
    decreases chain@.len() - i, 4int, 0int,
{
    reveal(spec_handle_variance_call);
    let vals = match parse_numbers(args) {
        Ok(v) => v,
        Err(m) => {
            return Ok(ServerResponse::ToolsCall(error_result(m)));
        },
    };
    if vals.len() == 0 {
        return Ok(
            ServerResponse::ToolsCall(
                error_result(String::from_str("Error: Cannot calculate variance of empty array")),
            ),
        );
    }
    let mean = match call_mean_tool(chain, i, ctx, &vals, id) {
        Ok(m) => m,
        Err(e) => {
            return Ok(ServerResponse::ToolsCall(error_result(e)));
        },
    };
    let mut acc = Fixed::zero();
    let mut k: usize = 0;
    while k < vals.len()
        invariant
            0 <= k <= vals@.len(),
            all_wf(vals@),
            mean.wf(),
            acc.wf(),
            acc == sq_dev_prefix(vals@, mean, k as int),
        decreases vals@.len() - k,
    {
        let d = vals[k].sub(mean);
        acc = acc.add(d.mul(d));
        k = k + 1;
    }
    let count = count_of(vals.len());
    proof {
        vstd::arithmetic::mul::lemma_mul_inequality(1, vals@.len() as int, crate::fixed::SCALE as int);
        assert(count.val() != 0);
    }
    let variance = acc.div(count);
    Ok(ServerResponse::ToolsCall(success_result(render_number(variance))))
}

/// Notifications are pure pass-through: no handler observes them, and the
/// terminal end discards them.
pub fn handle_notification(chain: &Vec<Handler>, i: usize, ctx: &Context, notification: String)
    requires
        i <= chain@.len(),
    decreases chain@.len() - i,
{
    if i < chain.len() {
        handle_notification(chain, i + 1, ctx, notification);
    }
}

/// Responses to outbound requests are pure pass-through as well.
pub fn handle_response(
    chain: &Vec<Handler>,
    i: usize,
    ctx: &Context,
    response: Result<ServerResponse, ErrorCode>,
)
    requires
        i <= chain@.len(),
    decreases chain@.len() - i,
{
    if i < chain.len() {
        handle_response(chain, i + 1, ctx, response);
    }
}


// ----- executable route analysis -----

/// The shapes of a list of strings.
pub open spec fn strs_deep(s: Seq<String>) -> Seq<Seq<char>> {
    s.map_values(|x: String| x@)
}

fn coords_payload(from: (Fixed, Fixed), to: (Fixed, Fixed)) -> (r: ArgPayload)
    requires
        from.0.wf(),
        from.1.wf(),
        to.0.wf(),
        to.1.wf(),
    ensures
        view_opt_args(Some(r)) == coords_args(from, to),
{
    let mut fields: Vec<(String, JsonData)> = Vec::new();
    fields.push((String::from_str("lat1"), JsonData::Num(render_number(from.0))));
    fields.push((String::from_str("lon1"), JsonData::Num(render_number(from.1))));
    fields.push((String::from_str("lat2"), JsonData::Num(render_number(to.0))));
    fields.push((String::from_str("lon2"), JsonData::Num(render_number(to.1))));
    let data = JsonData::Obj(fields);
    proof {
        lemma_fields_deep(data->Obj_0@);
        assert(fields_deep(data->Obj_0@) =~~= seq![
            ("lat1"@, JVal::Num(render_fixed_spec(from.0))),
            ("lon1"@, JVal::Num(render_fixed_spec(from.1))),
            ("lat2"@, JVal::Num(render_fixed_spec(to.0))),
            ("lon2"@, JVal::Num(render_fixed_spec(to.1))),
        ]);
    }
    ArgPayload::Data(data)
}

fn record_num_field_exec(res: &CallToolResult, key: &str) -> (f: Fixed)
    ensures
        f == record_num_field(res.deep(), key@),
        f.wf(),
{
    match &res.structured_content {
        Some(j) => match j {
            JsonData::Obj(fields) => match crate::json::obj_get(fields, key) {
                Some(v) => match v {
                    JsonData::Num(t) => match crate::numtext::parse_number(t.as_str()) {
                        Some(f) => f,
                        None => Fixed::zero(),
                    },
                    _ => Fixed::zero(),
                },
                None => Fixed::zero(),
            },
            _ => Fixed::zero(),
        },
        None => Fixed::zero(),
    }
}

fn record_str_field_exec(res: &CallToolResult, key: &str, dflt: &str) -> (r: String)
    ensures
        r@ == record_str_field(res.deep(), key@, dflt@),
{
    match &res.structured_content {
        Some(j) => match j {
            JsonData::Obj(fields) => match crate::json::obj_get(fields, key) {
                Some(v) => match v {
                    JsonData::Str(s) => s.clone(),
                    _ => String::from_str(dflt),
                },
                None => String::from_str(dflt),
            },
            _ => String::from_str(dflt),
        },
        None => String::from_str(dflt),
    }
}

fn build_segment(
    from: (Fixed, Fixed),
    to: (Fixed, Fixed),
    km: Fixed,
    mi: Fixed,
    deg: Fixed,
    compass: String,
) -> (r: (String, JsonData))
    requires
        from.0.wf(),
        from.1.wf(),
        to.0.wf(),
        to.1.wf(),
        km.wf(),
        mi.wf(),
        deg.wf(),
    ensures
        r.0@ == seg_text(from, to, km, mi, deg, compass@),
        r.1.deep() == seg_data(from, to, km, mi, deg, compass@),
{
    let flat = render_number(from.0);
    let flon = render_number(from.1);
    let tlat = render_number(to.0);
    let tlon = render_number(to.1);
    let km_s = render_number(km);
    let mi_s = render_number(mi);
    let deg_s = render_number(deg);
    let text = String::from_str("{\"from\":{\"lat\":").concat(flat.as_str()).concat(
        ",\"lon\":",
    ).concat(flon.as_str()).concat("},\"to\":{\"lat\":").concat(tlat.as_str()).concat(
        ",\"lon\":",
    ).concat(tlon.as_str()).concat("},\"distance_km\":").concat(km_s.as_str()).concat(
        ",\"distance_miles\":",
    ).concat(mi_s.as_str()).concat(",\"bearing_degrees\":").concat(deg_s.as_str()).concat(
        ",\"compass_direction\":\"",
    ).concat(compass.as_str()).concat("\"}");
    proof {
        assert(text@ =~= seg_text(from, to, km, mi, deg, compass@));
    }
    let mut ffields: Vec<(String, JsonData)> = Vec::new();
    ffields.push((String::from_str("lat"), JsonData::Num(flat)));
    ffields.push((String::from_str("lon"), JsonData::Num(flon)));
    let fobj = JsonData::Obj(ffields);
    proof {
        lemma_fields_deep(fobj->Obj_0@);
        assert(fields_deep(fobj->Obj_0@) =~~= seq![
            ("lat"@, JVal::Num(render_fixed_spec(from.0))),
            ("lon"@, JVal::Num(render_fixed_spec(from.1))),
        ]);
    }
    let mut tfields: Vec<(String, JsonData)> = Vec::new();
    tfields.push((String::from_str("lat"), JsonData::Num(tlat)));
    tfields.push((String::from_str("lon"), JsonData::Num(tlon)));
    let tobj = JsonData::Obj(tfields);
    proof {
        lemma_fields_deep(tobj->Obj_0@);
        assert(fields_deep(tobj->Obj_0@) =~~= seq![
            ("lat"@, JVal::Num(render_fixed_spec(to.0))),
            ("lon"@, JVal::Num(render_fixed_spec(to.1))),
        ]);
    }
    let ghost fobj_v = fobj.deep();
    let ghost tobj_v = tobj.deep();
    let mut fields: Vec<(String, JsonData)> = Vec::new();
    fields.push((String::from_str("from"), fobj));
    fields.push((String::from_str("to"), tobj));
    fields.push((String::from_str("distance_km"), JsonData::Num(km_s)));
    fields.push((String::from_str("distance_miles"), JsonData::Num(mi_s)));
    fields.push((String::from_str("bearing_degrees"), JsonData::Num(deg_s)));
    fields.push((String::from_str("compass_direction"), JsonData::Str(compass)));
    let data = JsonData::Obj(fields);
    proof {
        let gf = data->Obj_0@;
        lemma_fields_deep(gf);
        assert(gf.len() == 6);
        assert(gf[0].0@ == "from"@ && gf[0].1.deep() == fobj_v);
        assert(gf[1].0@ == "to"@ && gf[1].1.deep() == tobj_v);
        assert(gf[2].0@ == "distance_km"@ && gf[2].1.deep() == JVal::Num(km_s@));
        assert(gf[3].0@ == "distance_miles"@ && gf[3].1.deep() == JVal::Num(mi_s@));
        assert(gf[4].0@ == "bearing_degrees"@ && gf[4].1.deep() == JVal::Num(deg_s@));
        assert(gf[5].0@ == "compass_direction"@ && gf[5].1.deep() == JVal::Str(compass@));
        assert(fields_deep(gf) =~~= seg_data(from, to, km, mi, deg, compass@)->Obj_0);
    }
    (text, data)
}

#[verifier::loop_isolation(false)]
fn build_route_record(
    n: usize,
    total_km: Fixed,
    total_mi: Fixed,
    texts: &Vec<String>,
    datas: Vec<JsonData>,
) -> (r: (String, JsonData))
    requires
        total_km.wf(),
        total_mi.wf(),
    ensures
        r.0@ == route_text(n as int, total_km, total_mi, strs_deep(texts@)),
        r.1.deep() == route_data(n as int, total_km, total_mi, items_deep(datas@)),
{
    let mut joined = String::new();
    let mut q: usize = 0;
    while q < texts.len()
        invariant
            0 <= q <= texts@.len(),
            joined@ == join_upto(strs_deep(texts@), q as int),
        decreases texts@.len() - q,
    {
        if q > 0 {
            joined.append(",");
        }
        joined.append(texts[q].as_str());
        proof {
            assert(strs_deep(texts@)[q as int] == texts@[q as int]@);
        }
        q = q + 1;
    }
    let n_s = render_number(count_of(n));
    let km_s = render_number(total_km);
    let mi_s = render_number(total_mi);
    let text = String::from_str("{\"total_waypoints\":").concat(n_s.as_str()).concat(
        ",\"total_distance_km\":",
    ).concat(km_s.as_str()).concat(",\"total_distance_miles\":").concat(mi_s.as_str()).concat(
        ",\"segments\":[",
    ).concat(joined.as_str()).concat("]}");
    proof {
        assert(strs_deep(texts@).len() == texts@.len());
        assert(text@ =~= route_text(n as int, total_km, total_mi, strs_deep(texts@)));
    }
    let ghost datas_v = items_deep(datas@);
    let ja = JsonData::Arr(datas);
    proof {
        assert(ja.deep() == JVal::Arr(datas_v));
    }
    let mut fields: Vec<(String, JsonData)> = Vec::new();
    fields.push((String::from_str("total_waypoints"), JsonData::Num(n_s)));
    fields.push((String::from_str("total_distance_km"), JsonData::Num(km_s)));
    fields.push((String::from_str("total_distance_miles"), JsonData::Num(mi_s)));
    fields.push((String::from_str("segments"), ja));
    let data = JsonData::Obj(fields);
    proof {
        let gf = data->Obj_0@;
        lemma_fields_deep(gf);
        assert(gf.len() == 4);
        assert(gf[0].0@ == "total_waypoints"@ && gf[0].1.deep() == JVal::Num(n_s@));
        assert(gf[1].0@ == "total_distance_km"@ && gf[1].1.deep() == JVal::Num(km_s@));
        assert(gf[2].0@ == "total_distance_miles"@ && gf[2].1.deep() == JVal::Num(mi_s@));
        assert(gf[3].0@ == "segments"@ && gf[3].1.deep() == JVal::Arr(datas_v));
        assert(fields_deep(gf) =~~= route_data(n as int, total_km, total_mi, datas_v)->Obj_0);
    }
    (text, data)
}

/// The route middleware's computation.
#[verifier::loop_isolation(false)]
#[verifier::rlimit(100)]
#[verifier::spinoff_prover]
pub fn handle_analyze_route(
    chain: &Vec<Handler>,
    i: usize,
    ctx: &Context,
    args: Option<ArgPayload>,
    id: &RequestId,
) -> (r: Result<ServerResponse, ErrorCode>)
    requires
        i <= chain@.len(),
    ensures
        outcome_deep(r) == spec_handle_analyze_route(chain@, i as int, view_opt_args(args)),
    decreases chain@.len() - i, 4int, 0int,
{
    reveal(spec_handle_analyze_route);
    reveal(spec_route_segments);
    let wps = match crate::geo_tools::parse_waypoints(args) {
        Ok(w) => w,
        Err(m) => {
            return Ok(ServerResponse::ToolsCall(error_result(m)));
        },
    };
    if wps.len() < 2 {
        return Ok(
            ServerResponse::ToolsCall(
                error_result(String::from_str("Route must have at least 2 waypoints")),
            ),
        );
    }
    let mut texts: Vec<String> = Vec::new();
    let mut datas: Vec<JsonData> = Vec::new();
    let mut total = Fixed::zero();
    let mut k: usize = 0;
    proof {
        assert(strs_deep(texts@) =~= Seq::<Seq<char>>::empty());
        assert(items_deep(datas@) =~= Seq::<JVal>::empty());
        assert(total == fixed_of(0));
    }
    while k + 1 < wps.len()
        invariant
            0 <= k < wps@.len(),
            total.wf(),
            texts@.len() == datas@.len(),
            spec_route_segments(chain@, i as int, wps@, 0, fixed_of(0)) == match spec_route_segments(
                chain@,
                i as int,
                wps@,
                k as int,
                total,
            ) {
                Ok(rest) => Ok::<(Seq<Seq<char>>, Seq<JVal>, Fixed), Seq<char>>(
                    (strs_deep(texts@) + rest.0, items_deep(datas@) + rest.1, rest.2),
                ),
                Err(m) => Err(m),
            },
        decreases wps@.len() - k,
    {
        let from = wps[k];
        let to = wps[k + 1];
        let dres = match call_downstream_record(
            chain,
            i,
            ctx,
            "distance",
            Some(coords_payload(from, to)),
            id,
        ) {
            Ok(r) => r,
            Err(m) => {
                return Ok(ServerResponse::ToolsCall(error_result(m)));
            },
        };
        let bres = match call_downstream_record(
            chain,
            i,
            ctx,
            "bearing",
            Some(coords_payload(from, to)),
            id,
        ) {
            Ok(r) => r,
            Err(m) => {
                return Ok(ServerResponse::ToolsCall(error_result(m)));
            },
        };
        let km = record_num_field_exec(&dres, "distance_km");
        let mi = record_num_field_exec(&dres, "distance_miles");
        let deg = record_num_field_exec(&bres, "bearing_degrees");
        let compass = record_str_field_exec(&bres, "compass_direction", "N");
        let ghost st = seg_text(from, to, km, mi, deg, compass@);
        let ghost sd = seg_data(from, to, km, mi, deg, compass@);
        let (seg_t, seg_d) = build_segment(from, to, km, mi, deg, compass);
        proof {
            if spec_route_segments(chain@, i as int, wps@, k as int + 1, f_add(total, km)) is Ok {
                let rest = spec_route_segments(
                    chain@,
                    i as int,
                    wps@,
                    k as int + 1,
                    f_add(total, km),
                )->Ok_0;
                assert(spec_route_segments(chain@, i as int, wps@, k as int, total) == Ok::<
                    (Seq<Seq<char>>, Seq<JVal>, Fixed),
                    Seq<char>,
                >((seq![st] + rest.0, seq![sd] + rest.1, rest.2)));
                assert(strs_deep(texts@) + (seq![st] + rest.0) =~= (strs_deep(texts@) + seq![st])
                    + rest.0);
                assert(items_deep(datas@) + (seq![sd] + rest.1) =~= (items_deep(datas@) + seq![sd])
                    + rest.1);
            }
        }
        let ghost old_texts = texts@;
        let ghost old_datas = datas@;
        texts.push(seg_t);
        datas.push(seg_d);
        proof {
            assert(strs_deep(texts@) =~= strs_deep(old_texts) + seq![st]);
            crate::json::lemma_items_deep(old_datas);
            crate::json::lemma_items_deep(datas@);
            assert(datas@ =~= old_datas.push(seg_d));
            assert(items_deep(datas@) =~= items_deep(old_datas) + seq![sd]);
        }
        total = total.add(km);
        k = k + 1;
    }
    proof {
        assert(k as int + 1 >= wps@.len());
        assert(spec_route_segments(chain@, i as int, wps@, k as int, total) == Ok::<
            (Seq<Seq<char>>, Seq<JVal>, Fixed),
            Seq<char>,
        >((Seq::empty(), Seq::empty(), total)));
        assert(strs_deep(texts@) + Seq::<Seq<char>>::empty() =~= strs_deep(texts@));
        assert(items_deep(datas@) + Seq::<JVal>::empty() =~= items_deep(datas@));
    }
    let total_mi = total.mul(Fixed { neg: false, mag: 621_371_000 });
    proof {
        assert(Fixed { neg: false, mag: 621_371_000u128 } == crate::geo_tools::miles_factor());
    }
    let (text, data) = build_route_record(wps.len(), total, total_mi, &texts, datas);
    Ok(ServerResponse::ToolsCall(crate::protocol::success_result_structured(text, data)))
}


} // verus!

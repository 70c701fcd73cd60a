use vstd::prelude::*;
use crate::fixed::{
    Fixed, f_add, f_mul, f_sqrt, lemma_f_add_wf, lemma_f_div_wf, lemma_f_mul_wf,
    lemma_f_sqrt_wf, lemma_f_square_nonneg, lemma_f_sub_wf,
};
use crate::dispatch::{
    Handler, missing_tool_spec, numbers_args, one_num_args, own_tools, spec_call_downstream,
    spec_handle_pythagorean_call, spec_handle_request, spec_handle_stddev_call,
    spec_handle_variance_call, spec_handle_distance_call, two_num_args, variance_of, nums_data,
};
use crate::json::{JVal, lookup_field};
use crate::math_tools::math_owns;
use crate::stats_tools::{count_fixed, f_mean, f_sum, stats_owns};
use crate::numtext::{lemma_parse_render, render_fixed_spec};
use crate::protocol::{
    ArgPayloadV, CallToolRequestV, ClientRequestV, ContentBlockV, ErrorCodeV, ListToolsResultV,
    CallToolResultV, ServerResponseV, ToolV, extract_number_spec, success_result_spec,
};

verus! {

// ----- the tools-list merge law -----

/// The tools the chain from `i` on declares: the terminal end's tools come
/// first, each handler's own tools are appended on the way back to `i`.
pub open spec fn merged_tools(chain: Seq<Handler>, i: int) -> Seq<ToolV>
    decreases chain.len() - i,
        when 0 <= i <= chain.len()
{
    if i == chain.len() {
        Seq::empty()
    } else {
        merged_tools(chain, i + 1) + own_tools(chain[i])
    }
}

#[verifier::rlimit(100)]
#[verifier::spinoff_prover]
proof fn lemma_unfold_tools_list(chain: Seq<Handler>, i: int, cursor: Option<Seq<char>>)
    requires
        0 <= i <= chain.len(),
    ensures
        spec_handle_request(chain, i, ClientRequestV::ToolsList(cursor)) == if i == chain.len() {
            crate::dispatch::terminal_response(ClientRequestV::ToolsList(cursor))
        } else {
            crate::dispatch::spec_tools_list(chain, i, cursor)
        },
{
    reveal(spec_handle_request);
}

/// Tools-list law: a tools-list request never fails, whatever the chain,
/// and its answer is exactly the merged list — handlers nearest the
/// terminal end first, the entry point's own tools last.
#[verifier::rlimit(100)]
#[verifier::spinoff_prover]
pub proof fn lemma_tools_list_merge(chain: Seq<Handler>, i: int, cursor: Option<Seq<char>>)
    requires
        0 <= i <= chain.len(),
    ensures
        spec_handle_request(chain, i, ClientRequestV::ToolsList(cursor)) == Ok::<
            ServerResponseV,
            ErrorCodeV,
        >(
            ServerResponseV::ToolsList(
                ListToolsResultV { tools: merged_tools(chain, i), next_cursor: None, meta: None },
            ),
        ),
    decreases chain.len() - i,
{
    lemma_unfold_tools_list(chain, i, cursor);
    if i == chain.len() {
        assert(merged_tools(chain, i) =~= Seq::<ToolV>::empty());
    } else {
        lemma_tools_list_merge(chain, i + 1, cursor);
        assert(crate::dispatch::spec_tools_list(chain, i, cursor) == Ok::<
            ServerResponseV,
            ErrorCodeV,
        >(
            ServerResponseV::ToolsList(
                ListToolsResultV { tools: merged_tools(chain, i), next_cursor: None, meta: None },
            ),
        )) by {
            reveal(crate::dispatch::spec_tools_list);
        }
    }
}

// ----- the capability-resolution law -----

/// Which tool names a handler answers itself.
pub open spec fn handler_owns(h: Handler, name: Seq<char>) -> bool {
    match h {
        Handler::DistanceCalc => name == "distance"@,
        Handler::Pythagorean => name == "pythagorean"@,
        Handler::RouteOptimizer => name == "analyze_route"@,
        Handler::StdDev => name == "standard_deviation"@ || name == "stddev"@,
        Handler::Variance => name == "variance"@,
        Handler::MathTools => math_owns(name),
        Handler::StatsTools => stats_owns(name),
        Handler::GeoBearing => name == "bearing"@,
        Handler::GeoDistance => name == "distance"@,
        Handler::GeoPointInPolygon => name == "point_in_polygon"@,
    }
}

/// No handler from `i` on answers the name.
pub open spec fn no_provider(chain: Seq<Handler>, i: int, name: Seq<char>) -> bool {
    forall|k: int| i <= k < chain.len() ==> !handler_owns(#[trigger] chain[k], name)
}

/// Capability-resolution law: a tools-call whose name no handler in the
/// remaining chain owns is delegated all the way to the terminal end and
/// resolves to the method-not-found error carrying that name.
pub proof fn lemma_method_not_found(
    chain: Seq<Handler>,
    i: int,
    name: Seq<char>,
    args: Option<ArgPayloadV>,
)
    requires
        0 <= i <= chain.len(),
        no_provider(chain, i, name),
    ensures
        spec_handle_request(
            chain,
            i,
            ClientRequestV::ToolsCall(CallToolRequestV { name, arguments: args }),
        ) == Err::<ServerResponseV, ErrorCodeV>(ErrorCodeV::MethodNotFound(name)),
    decreases chain.len() - i,
{
    reveal(spec_handle_request);
    if i < chain.len() {
        assert(!handler_owns(chain[i], name));
        lemma_method_not_found(chain, i + 1, name, args);
    }
}

/// Missing-dependency law: a nested call for an absent capability never
/// crosses into a protocol failure of the synthetic computation; it comes
/// back as a diagnostic that names the missing tool and recommends moving a
/// provider after this middleware.
#[verifier::rlimit(100)]
#[verifier::spinoff_prover]
pub proof fn lemma_call_downstream_missing(
    chain: Seq<Handler>,
    i: int,
    name: Seq<char>,
    args: Option<ArgPayloadV>,
)
    requires
        0 <= i <= chain.len(),
        no_provider(chain, i, name),
    ensures
        spec_call_downstream(chain, i, name, args) == Err::<Fixed, Seq<char>>(
            missing_tool_spec(name),
        ),
{
    reveal(crate::dispatch::spec_call_downstream);
    lemma_method_not_found(chain, i, name, args);
}

// ----- the idempotence law -----

/// Idempotence law: dispatch is a function of the chain and the request
/// alone. Two outcomes of the same request against the same chain are the
/// same outcome — no hidden state survives a call.
pub proof fn lemma_dispatch_deterministic(
    chain: Seq<Handler>,
    i: int,
    req: ClientRequestV,
    r1: Result<ServerResponseV, ErrorCodeV>,
    r2: Result<ServerResponseV, ErrorCodeV>,
)
    requires
        r1 == spec_handle_request(chain, i, req),
        r2 == spec_handle_request(chain, i, req),
    ensures
        r1 == r2,
{
}

// ----- composition laws: chains compute the direct formulas -----

proof fn lemma_lookup_one(k: Seq<char>, v: JVal)
    ensures
        lookup_field(seq![(k, v)], k) == Some(v),
{
}

proof fn lemma_lookup_skip(fs: Seq<(Seq<char>, JVal)>, k: Seq<char>)
    requires
        fs.len() > 0,
        fs[0].0 != k,
    ensures
        lookup_field(fs, k) == lookup_field(fs.skip(1), k),
{
}

proof fn lemma_lookup_two(k1: Seq<char>, v1: JVal, k2: Seq<char>, v2: JVal)
    requires
        k1 != k2,
    ensures
        lookup_field(seq![(k1, v1), (k2, v2)], k1) == Some(v1),
        lookup_field(seq![(k1, v1), (k2, v2)], k2) == Some(v2),
{
    let fs = seq![(k1, v1), (k2, v2)];
    assert(fs.skip(1) =~= seq![(k2, v2)]);
    lemma_lookup_skip(fs, k2);
    lemma_lookup_one(k2, v2);
}

/// A scalar handed through a structured one-field argument object comes out
/// as itself: the codec round trip carries it exactly.
pub proof fn lemma_one_num_round_trip(key: Seq<char>, v: Fixed)
    requires
        v.wf(),
    ensures
        crate::math_tools::parse_single_spec(one_num_args(key, v), key) == Ok::<Fixed, Seq<char>>(
            v,
        ),
{
    lemma_parse_render(v);
    lemma_lookup_one(key, JVal::Num(render_fixed_spec(v)));
}

/// Two scalars handed through a structured two-field argument object come
/// out as themselves.
pub proof fn lemma_two_num_round_trip(k1: Seq<char>, v1: Fixed, k2: Seq<char>, v2: Fixed)
    requires
        k1 != k2,
        v1.wf(),
        v2.wf(),
    ensures
        crate::math_tools::parse_pair_spec(two_num_args(k1, v1, k2, v2), k1, k2) == Ok::<
            (Fixed, Fixed),
            Seq<char>,
        >((v1, v2)),
{
    lemma_parse_render(v1);
    lemma_parse_render(v2);
    lemma_lookup_two(k1, JVal::Num(render_fixed_spec(v1)), k2, JVal::Num(render_fixed_spec(v2)));
}

proof fn lemma_num_items_nums_data(vals: Seq<Fixed>)
    requires
        crate::args::all_wf(vals),
    ensures
        crate::args::num_items_spec(nums_data(vals)) == Some(vals),
    decreases vals.len(),
{
    if vals.len() == 0 {
        assert(nums_data(vals) =~= Seq::<JVal>::empty());
        assert(crate::args::num_items_spec(nums_data(vals)) == Some(Seq::<Fixed>::empty()));
        assert(vals =~= Seq::<Fixed>::empty());
    } else {
        let tail = vals.skip(1);
        assert(crate::args::all_wf(tail)) by {
            assert(forall|i: int| 0 <= i < tail.len() ==> #[trigger] tail[i] == vals[i + 1]);
        }
        lemma_num_items_nums_data(tail);
        let nd = nums_data(vals);
        assert(nd == seq![JVal::Num(render_fixed_spec(vals[0]))] + nums_data(tail));
        assert(nd[0] == JVal::Num(render_fixed_spec(vals[0])));
        assert(nd.skip(1) =~= nums_data(tail));
        assert(vals[0].wf());
        lemma_parse_render(vals[0]);
        assert(crate::args::num_items_spec(nd) == Some(seq![vals[0]] + tail));
        assert(seq![vals[0]] + tail =~= vals);
    }
}

/// A scalar list handed through the structured `numbers` argument comes out
/// as itself.
pub proof fn lemma_numbers_round_trip(vals: Seq<Fixed>)
    requires
        crate::args::all_wf(vals),
    ensures
        crate::args::parse_numbers_spec(numbers_args(vals)) == Ok::<Seq<Fixed>, Seq<char>>(vals),
{
    lemma_num_items_nums_data(vals);
    lemma_lookup_one("numbers"@, JVal::Arr(nums_data(vals)));
}

/// Extraction undoes result construction: the scalar a successful
/// single-text result stands for is the scalar it rendered.
pub proof fn lemma_extract_rendered(v: Fixed)
    requires
        v.wf(),
    ensures
        extract_number_spec(success_result_spec(render_fixed_spec(v), None)) == Ok::<
            Fixed,
            Seq<char>,
        >(v),
{
    lemma_parse_render(v);
    let r = success_result_spec(render_fixed_spec(v), None);
    assert(r.content[0] == ContentBlockV::Text(render_fixed_spec(v)));
}


/// The tool names the composition laws tell apart.
proof fn lemma_distinct_names()
    ensures
        "square"@ != "add"@,
        "square"@ != "subtract"@,
        "square"@ != "multiply"@,
        "square"@ != "divide"@,
        "square_root"@ != "add"@,
        "square_root"@ != "subtract"@,
        "square_root"@ != "multiply"@,
        "square_root"@ != "divide"@,
        "square_root"@ != "square"@,
        "square_root"@ != "variance"@,
        "square_root"@ != "mean"@,
        "square_root"@ != "sum"@,
        "square_root"@ != "count"@,
        "a"@ != "b"@,
        "x1"@ != "y1"@,
        "x1"@ != "x2"@,
        "x1"@ != "y2"@,
        "y1"@ != "x2"@,
        "y1"@ != "y2"@,
        "x2"@ != "y2"@,
{
    reveal_strlit("square");
    reveal_strlit("square_root");
    reveal_strlit("add");
    reveal_strlit("subtract");
    reveal_strlit("multiply");
    reveal_strlit("divide");
    reveal_strlit("variance");
    reveal_strlit("mean");
    reveal_strlit("sum");
    reveal_strlit("count");
    reveal_strlit("a");
    reveal_strlit("b");
    reveal_strlit("x1");
    reveal_strlit("y1");
    reveal_strlit("x2");
    reveal_strlit("y2");
    assert("square"@.len() == 6);
    assert("square_root"@.len() == 11);
    assert("square"@[0] == 's' && "square"@[1] == 'q');
    assert("square_root"@[0] == 's' && "square_root"@[1] == 'q');
    assert("add"@[0] == 'a');
    assert("subtract"@[0] == 's' && "subtract"@[1] == 'u');
    assert("multiply"@[0] == 'm');
    assert("divide"@[0] == 'd');
    assert("variance"@[0] == 'v');
    assert("mean"@[0] == 'm');
    assert("sum"@[0] == 's' && "sum"@[1] == 'u');
    assert("count"@[0] == 'c');
    assert("a"@[0] == 'a');
    assert("b"@[0] == 'b');
    assert("x1"@[0] == 'x' && "x1"@[1] == '1');
    assert("y1"@[0] == 'y' && "y1"@[1] == '1');
    assert("x2"@[0] == 'x' && "x2"@[1] == '2');
    assert("y2"@[0] == 'y' && "y2"@[1] == '2');
}

// -- single unfolding steps of the dispatch contract --


#[verifier::rlimit(100)]
#[verifier::spinoff_prover]
proof fn lemma_step_owned(chain: Seq<Handler>, i: int, c: CallToolRequestV)
    requires
        0 <= i < chain.len(),
    ensures
        chain[i] == Handler::Pythagorean && c.name == "pythagorean"@ ==> spec_handle_request(
            chain,
            i,
            ClientRequestV::ToolsCall(c),
        ) == spec_handle_pythagorean_call(chain, i + 1, c.arguments),
        chain[i] == Handler::DistanceCalc && c.name == "distance"@ ==> spec_handle_request(
            chain,
            i,
            ClientRequestV::ToolsCall(c),
        ) == spec_handle_distance_call(chain, i + 1, c.arguments),
        chain[i] == Handler::Variance && c.name == "variance"@ ==> spec_handle_request(
            chain,
            i,
            ClientRequestV::ToolsCall(c),
        ) == spec_handle_variance_call(chain, i + 1, c.arguments),
        chain[i] == Handler::StdDev && (c.name == "standard_deviation"@ || c.name == "stddev"@)
            ==> spec_handle_request(chain, i, ClientRequestV::ToolsCall(c))
            == spec_handle_stddev_call(chain, i + 1, c.arguments),
        chain[i] == Handler::MathTools && crate::math_tools::math_call_spec(c.name, c.arguments)
            is Some ==> spec_handle_request(chain, i, ClientRequestV::ToolsCall(c)) == Ok::<
            ServerResponseV,
            ErrorCodeV,
        >(
            ServerResponseV::ToolsCall(
                crate::math_tools::math_call_spec(c.name, c.arguments)->Some_0,
            ),
        ),
        chain[i] == Handler::StatsTools && crate::stats_tools::stats_call_spec(c.name, c.arguments)
            is Some ==> spec_handle_request(chain, i, ClientRequestV::ToolsCall(c)) == Ok::<
            ServerResponseV,
            ErrorCodeV,
        >(
            ServerResponseV::ToolsCall(
                crate::stats_tools::stats_call_spec(c.name, c.arguments)->Some_0,
            ),
        ),
        !handler_owns(chain[i], c.name) ==> spec_handle_request(
            chain,
            i,
            ClientRequestV::ToolsCall(c),
        ) == spec_handle_request(chain, i + 1, ClientRequestV::ToolsCall(c)),
{
    reveal(spec_handle_request);
}

#[verifier::rlimit(100)]
#[verifier::spinoff_prover]
proof fn lemma_call_downstream_ok(
    chain: Seq<Handler>,
    i: int,
    name: Seq<char>,
    args: Option<ArgPayloadV>,
    res: CallToolResultV,
)
    requires
        0 <= i <= chain.len(),
        spec_handle_request(
            chain,
            i,
            ClientRequestV::ToolsCall(CallToolRequestV { name, arguments: args }),
        ) == Ok::<ServerResponseV, ErrorCodeV>(ServerResponseV::ToolsCall(res)),
    ensures
        spec_call_downstream(chain, i, name, args) == extract_number_spec(res),
{
    reveal(crate::dispatch::spec_call_downstream);
}

// -- what the leaf providers answer to the nested calls --

/// A nested `square` call against an arithmetic provider at `i` yields
/// exactly the scalar square.
proof fn lemma_math_square(chain: Seq<Handler>, i: int, v: Fixed)
    requires
        0 <= i < chain.len(),
        chain[i] == Handler::MathTools,
        v.wf(),
    ensures
        spec_call_downstream(chain, i, "square"@, one_num_args("x"@, v)) == Ok::<Fixed, Seq<char>>(
            f_mul(v, v),
        ),
{
    lemma_distinct_names();
    let args = one_num_args("x"@, v);
    lemma_one_num_round_trip("x"@, v);
    assert(crate::math_tools::math_call_spec("square"@, args) == Some(
        crate::math_tools::execute_square_spec(args),
    ));
    assert(crate::math_tools::execute_square_spec(args) == success_result_spec(
        render_fixed_spec(f_mul(v, v)),
        None,
    ));
    lemma_step_owned(chain, i, CallToolRequestV { name: "square"@, arguments: args });
    lemma_call_downstream_ok(chain, i, "square"@, args, success_result_spec(
        render_fixed_spec(f_mul(v, v)),
        None,
    ));
    lemma_f_mul_wf(v, v);
    lemma_extract_rendered(f_mul(v, v));
}

/// A nested `add` call yields exactly the scalar sum.
proof fn lemma_math_add(chain: Seq<Handler>, i: int, a: Fixed, b: Fixed)
    requires
        0 <= i < chain.len(),
        chain[i] == Handler::MathTools,
        a.wf(),
        b.wf(),
    ensures
        spec_call_downstream(chain, i, "add"@, two_num_args("a"@, a, "b"@, b)) == Ok::<
            Fixed,
            Seq<char>,
        >(f_add(a, b)),
{
    lemma_distinct_names();
    let args = two_num_args("a"@, a, "b"@, b);
    lemma_two_num_round_trip("a"@, a, "b"@, b);
    assert(crate::math_tools::math_call_spec("add"@, args) == Some(
        crate::math_tools::execute_operation_spec(crate::math_tools::BinaryOp::Add, args),
    ));
    lemma_step_owned(chain, i, CallToolRequestV { name: "add"@, arguments: args });
    lemma_call_downstream_ok(chain, i, "add"@, args, success_result_spec(
        render_fixed_spec(f_add(a, b)),
        None,
    ));
    lemma_f_add_wf(a, b);
    lemma_extract_rendered(f_add(a, b));
}

/// A nested `square_root` call on a non-negative scalar yields exactly the
/// scalar root.
proof fn lemma_math_sqrt(chain: Seq<Handler>, i: int, v: Fixed)
    requires
        0 <= i < chain.len(),
        chain[i] == Handler::MathTools,
        v.wf(),
        v.val() >= 0,
    ensures
        spec_call_downstream(chain, i, "square_root"@, one_num_args("x"@, v)) == Ok::<
            Fixed,
            Seq<char>,
        >(f_sqrt(v)),
        spec_handle_request(
            chain,
            i,
            ClientRequestV::ToolsCall(
                CallToolRequestV { name: "square_root"@, arguments: one_num_args("x"@, v) },
            ),
        ) == Ok::<ServerResponseV, ErrorCodeV>(
            ServerResponseV::ToolsCall(success_result_spec(render_fixed_spec(f_sqrt(v)), None)),
        ),
{
    lemma_distinct_names();
    let args = one_num_args("x"@, v);
    lemma_one_num_round_trip("x"@, v);
    assert(crate::math_tools::math_call_spec("square_root"@, args) == Some(
        crate::math_tools::execute_square_root_spec(args),
    ));
    assert(crate::math_tools::execute_square_root_spec(args) == success_result_spec(
        render_fixed_spec(f_sqrt(v)),
        None,
    ));
    lemma_step_owned(chain, i, CallToolRequestV { name: "square_root"@, arguments: args });
    lemma_call_downstream_ok(chain, i, "square_root"@, args, success_result_spec(
        render_fixed_spec(f_sqrt(v)),
        None,
    ));
    lemma_f_sqrt_wf(v);
    lemma_extract_rendered(f_sqrt(v));
}

/// A nested `mean` call on a non-empty list against the statistics provider
/// yields exactly the scalar mean.
proof fn lemma_stats_mean(chain: Seq<Handler>, i: int, vals: Seq<Fixed>)
    requires
        0 <= i < chain.len(),
        chain[i] == Handler::StatsTools,
        crate::args::all_wf(vals),
        vals.len() >= 1,
    ensures
        spec_call_downstream(chain, i, "mean"@, numbers_args(vals)) == Ok::<Fixed, Seq<char>>(
            f_mean(vals),
        ),
{
    let args = numbers_args(vals);
    lemma_numbers_round_trip(vals);
    assert(crate::stats_tools::stats_call_spec("mean"@, args) == Some(
        crate::stats_tools::execute_mean_spec(args),
    ));
    assert(crate::stats_tools::execute_mean_spec(args) == success_result_spec(
        render_fixed_spec(f_mean(vals)),
        None,
    ));
    lemma_step_owned(chain, i, CallToolRequestV { name: "mean"@, arguments: args });
    lemma_call_downstream_ok(chain, i, "mean"@, args, success_result_spec(
        render_fixed_spec(f_mean(vals)),
        None,
    ));
    lemma_count_positive(vals.len() as int);
    lemma_f_div_wf(f_sum(vals), count_fixed(vals.len() as int));
    lemma_extract_rendered(f_mean(vals));
}

/// A count of at least one item is a positive scalar.
proof fn lemma_count_positive(n: int)
    requires
        n >= 1,
    ensures
        count_fixed(n).wf(),
        count_fixed(n).val() >= crate::fixed::SCALE,
{
    vstd::arithmetic::mul::lemma_mul_inequality(1, n, crate::fixed::SCALE as int);
}


// -- non-negativity and well-formedness of the local combinations --

proof fn lemma_sq_dev_nonneg(vals: Seq<Fixed>, mean: Fixed, k: int)
    ensures
        crate::dispatch::sq_dev_prefix(vals, mean, k).wf(),
        crate::dispatch::sq_dev_prefix(vals, mean, k).val() >= 0,
    decreases k,
{
    if k > 0 {
        lemma_sq_dev_nonneg(vals, mean, k - 1);
        let d = crate::fixed::f_sub(vals[k - 1], mean);
        lemma_f_square_nonneg(d);
        lemma_f_add_wf(crate::dispatch::sq_dev_prefix(vals, mean, k - 1), f_mul(d, d));
    }
}

/// The variance of a non-empty list is a well-formed, non-negative scalar.
proof fn lemma_variance_value(vals: Seq<Fixed>, mean: Fixed)
    requires
        vals.len() >= 1,
    ensures
        variance_of(vals, mean).wf(),
        variance_of(vals, mean).val() >= 0,
{
    lemma_sq_dev_nonneg(vals, mean, vals.len() as int);
    lemma_count_positive(vals.len() as int);
    lemma_f_div_wf(
        crate::dispatch::sq_dev_prefix(vals, mean, vals.len() as int),
        count_fixed(vals.len() as int),
    );
}

/// What the variance middleware computes once its statistics provider sits
/// at `i`: the average squared deviation around the delegated mean.
#[verifier::rlimit(100)]
#[verifier::spinoff_prover]
proof fn lemma_variance_call_value(chain: Seq<Handler>, i: int, vals: Seq<Fixed>)
    requires
        0 <= i < chain.len(),
        chain[i] == Handler::StatsTools,
        crate::args::all_wf(vals),
        vals.len() >= 1,
    ensures
        spec_handle_variance_call(chain, i, numbers_args(vals)) == Ok::<
            ServerResponseV,
            ErrorCodeV,
        >(
            ServerResponseV::ToolsCall(
                success_result_spec(
                    render_fixed_spec(variance_of(vals, f_mean(vals))),
                    None,
                ),
            ),
        ),
{
    reveal(spec_handle_variance_call);
    lemma_numbers_round_trip(vals);
    lemma_stats_mean(chain, i, vals);
}

// -- the composition theorems --

/// Composition law of the hypotenuse middleware: against an arithmetic
/// provider, the composed result is exactly the direct evaluation of
/// the formula — the root of the sum of the squares.
#[verifier::rlimit(100)]
#[verifier::spinoff_prover]
pub proof fn lemma_pythagorean_composition(a: Fixed, b: Fixed)
    requires
        a.wf(),
        b.wf(),
    ensures
        spec_handle_request(
            seq![Handler::Pythagorean, Handler::MathTools],
            0,
            ClientRequestV::ToolsCall(
                CallToolRequestV {
                    name: "pythagorean"@,
                    arguments: two_num_args("a"@, a, "b"@, b),
                },
            ),
        ) == Ok::<ServerResponseV, ErrorCodeV>(
            ServerResponseV::ToolsCall(
                success_result_spec(
                    render_fixed_spec(f_sqrt(f_add(f_mul(a, a), f_mul(b, b)))),
                    None,
                ),
            ),
        ),
{
    let chain = seq![Handler::Pythagorean, Handler::MathTools];
    let args = two_num_args("a"@, a, "b"@, b);
    lemma_distinct_names();
    lemma_step_owned(chain, 0, CallToolRequestV { name: "pythagorean"@, arguments: args });
    reveal(spec_handle_pythagorean_call);
    lemma_two_num_round_trip("a"@, a, "b"@, b);
    lemma_math_square(chain, 1, a);
    lemma_math_square(chain, 1, b);
    lemma_f_square_nonneg(a);
    lemma_f_square_nonneg(b);
    let sum = f_add(f_mul(a, a), f_mul(b, b));
    lemma_f_add_wf(f_mul(a, a), f_mul(b, b));
    lemma_math_sqrt(chain, 1, sum);
}

/// The structured arguments of the planar distance middleware.
pub open spec fn xy_args(x1: Fixed, y1: Fixed, x2: Fixed, y2: Fixed) -> Option<ArgPayloadV> {
    Some(
        ArgPayloadV::Data(
            JVal::Obj(
                seq![
                    ("x1"@, JVal::Num(render_fixed_spec(x1))),
                    ("y1"@, JVal::Num(render_fixed_spec(y1))),
                    ("x2"@, JVal::Num(render_fixed_spec(x2))),
                    ("y2"@, JVal::Num(render_fixed_spec(y2))),
                ],
            ),
        ),
    )
}

proof fn lemma_xy_round_trip(x1: Fixed, y1: Fixed, x2: Fixed, y2: Fixed)
    requires
        x1.wf(),
        y1.wf(),
        x2.wf(),
        y2.wf(),
    ensures
        crate::dispatch::parse_xy_spec(xy_args(x1, y1, x2, y2)) == Ok::<
            (Fixed, Fixed, Fixed, Fixed),
            Seq<char>,
        >((x1, y1, x2, y2)),
{
    lemma_distinct_names();
    lemma_parse_render(x1);
    lemma_parse_render(y1);
    lemma_parse_render(x2);
    lemma_parse_render(y2);
    let f1 = ("x1"@, JVal::Num(render_fixed_spec(x1)));
    let f2 = ("y1"@, JVal::Num(render_fixed_spec(y1)));
    let f3 = ("x2"@, JVal::Num(render_fixed_spec(x2)));
    let f4 = ("y2"@, JVal::Num(render_fixed_spec(y2)));
    let fs = seq![f1, f2, f3, f4];
    assert(fs.skip(1) =~= seq![f2, f3, f4]);
    assert(seq![f2, f3, f4].skip(1) =~= seq![f3, f4]);
    assert(seq![f3, f4].skip(1) =~= seq![f4]);
    lemma_lookup_skip(fs, "y1"@);
    lemma_lookup_skip(fs, "x2"@);
    lemma_lookup_skip(seq![f2, f3, f4], "x2"@);
    lemma_lookup_skip(fs, "y2"@);
    lemma_lookup_skip(seq![f2, f3, f4], "y2"@);
    lemma_lookup_skip(seq![f3, f4], "y2"@);
    lemma_lookup_one("y2"@, f4.1);
}

/// Composition law of the planar distance middleware: the composed result
/// equals the direct evaluation — the root of the sum of the squared leg
/// differences, the legs computed locally.
#[verifier::rlimit(100)]
#[verifier::spinoff_prover]
pub proof fn lemma_distance_composition(x1: Fixed, y1: Fixed, x2: Fixed, y2: Fixed)
    requires
        x1.wf(),
        y1.wf(),
        x2.wf(),
        y2.wf(),
    ensures
        ({
            let dx = crate::fixed::f_sub(x2, x1);
            let dy = crate::fixed::f_sub(y2, y1);
            spec_handle_request(
                seq![Handler::DistanceCalc, Handler::MathTools],
                0,
                ClientRequestV::ToolsCall(
                    CallToolRequestV {
                        name: "distance"@,
                        arguments: xy_args(x1, y1, x2, y2),
                    },
                ),
            ) == Ok::<ServerResponseV, ErrorCodeV>(
                ServerResponseV::ToolsCall(
                    success_result_spec(
                        render_fixed_spec(
                            f_sqrt(f_add(f_mul(dx, dx), f_mul(dy, dy))),
                        ),
                        None,
                    ),
                ),
            )
        }),
{
    let chain = seq![Handler::DistanceCalc, Handler::MathTools];
    let args = xy_args(x1, y1, x2, y2);
    lemma_distinct_names();
    lemma_step_owned(chain, 0, CallToolRequestV { name: "distance"@, arguments: args });
    reveal(spec_handle_distance_call);
    lemma_xy_round_trip(x1, y1, x2, y2);
    let dx = crate::fixed::f_sub(x2, x1);
    let dy = crate::fixed::f_sub(y2, y1);
    lemma_f_sub_wf(x2, x1);
    lemma_f_sub_wf(y2, y1);
    lemma_math_square(chain, 1, dx);
    lemma_math_square(chain, 1, dy);
    lemma_f_square_nonneg(dx);
    lemma_f_square_nonneg(dy);
    lemma_f_mul_wf(dx, dx);
    lemma_f_mul_wf(dy, dy);
    lemma_math_add(chain, 1, f_mul(dx, dx), f_mul(dy, dy));
    let sum = f_add(f_mul(dx, dx), f_mul(dy, dy));
    lemma_f_add_wf(f_mul(dx, dx), f_mul(dy, dy));
    lemma_math_sqrt(chain, 1, sum);
}

/// Composition law of the variance middleware: with the statistics provider
/// downstream, the composed result equals the direct evaluation — the
/// average squared deviation around the delegated mean.
#[verifier::rlimit(100)]
#[verifier::spinoff_prover]
pub proof fn lemma_variance_composition(vals: Seq<Fixed>)
    requires
        crate::args::all_wf(vals),
        vals.len() >= 1,
    ensures
        spec_handle_request(
            seq![Handler::Variance, Handler::StatsTools],
            0,
            ClientRequestV::ToolsCall(
                CallToolRequestV { name: "variance"@, arguments: numbers_args(vals) },
            ),
        ) == Ok::<ServerResponseV, ErrorCodeV>(
            ServerResponseV::ToolsCall(
                success_result_spec(
                    render_fixed_spec(variance_of(vals, f_mean(vals))),
                    None,
                ),
            ),
        ),
{
    let chain = seq![Handler::Variance, Handler::StatsTools];
    let args = numbers_args(vals);
    lemma_step_owned(chain, 0, CallToolRequestV { name: "variance"@, arguments: args });
    lemma_variance_call_value(chain, 1, vals);
}

/// Composition law of the standard-deviation middleware, under either of
/// its two names and through two levels of composition: the variance
/// middleware computes around the statistics provider's mean, and the
/// arithmetic provider takes the root — the whole chain computes exactly
/// the direct formula.
#[verifier::rlimit(100)]
#[verifier::spinoff_prover]
pub proof fn lemma_stddev_composition(vals: Seq<Fixed>, name: Seq<char>)
    requires
        crate::args::all_wf(vals),
        vals.len() >= 1,
        name == "standard_deviation"@ || name == "stddev"@,
    ensures
        spec_handle_request(
            seq![Handler::StdDev, Handler::Variance, Handler::StatsTools, Handler::MathTools],
            0,
            ClientRequestV::ToolsCall(
                CallToolRequestV { name, arguments: numbers_args(vals) },
            ),
        ) == Ok::<ServerResponseV, ErrorCodeV>(
            ServerResponseV::ToolsCall(
                success_result_spec(
                    render_fixed_spec(f_sqrt(variance_of(vals, f_mean(vals)))),
                    None,
                ),
            ),
        ),
{
    let chain = seq![
        Handler::StdDev,
        Handler::Variance,
        Handler::StatsTools,
        Handler::MathTools,
    ];
    let args = numbers_args(vals);
    lemma_distinct_names();
    lemma_step_owned(chain, 0, CallToolRequestV { name, arguments: args });
    reveal(spec_handle_stddev_call);
    // the variance leg
    let vreq = CallToolRequestV { name: "variance"@, arguments: args };
    lemma_step_owned(chain, 1, vreq);
    lemma_variance_call_value(chain, 2, vals);
    let varv = variance_of(vals, f_mean(vals));
    lemma_variance_value(vals, f_mean(vals));
    lemma_call_downstream_ok(
        chain,
        1,
        "variance"@,
        args,
        success_result_spec(render_fixed_spec(varv), None),
    );
    lemma_extract_rendered(varv);
    assert(spec_call_downstream(chain, 1, "variance"@, args) == Ok::<Fixed, Seq<char>>(varv));
    // the square-root leg, delegated past the two handlers that do not own it
    let sreq = CallToolRequestV { name: "square_root"@, arguments: one_num_args("x"@, varv) };
    assert(!handler_owns(chain[1], sreq.name));
    assert(!crate::stats_tools::stats_owns(sreq.name));
    assert(!handler_owns(chain[2], sreq.name));
    lemma_step_owned(chain, 1, sreq);
    lemma_step_owned(chain, 2, sreq);
    lemma_math_sqrt(chain, 3, varv);
    lemma_call_downstream_ok(
        chain,
        1,
        "square_root"@,
        one_num_args("x"@, varv),
        success_result_spec(render_fixed_spec(f_sqrt(varv)), None),
    );
    lemma_f_sqrt_wf(varv);
    lemma_extract_rendered(f_sqrt(varv));
}


} // verus!

use vstd::prelude::*;
use crate::fixed::{Fixed, SCALE, MAX_RAW, f_add, f_div, fixed_of, clamp_mag};
use crate::args::{all_wf, parse_numbers, parse_numbers_spec};
use crate::numtext::{render_fixed_spec, render_number};
use crate::protocol::{
    ArgPayload, ArgPayloadV, CallToolRequest, CallToolResult, CallToolResultV, Tool, ToolV,
    error_result, error_result_spec, make_tool, success_result, success_result_spec, tool_v,
    tools_deep, view_opt_args,
};
use crate::json::str_eq;

verus! {

/// Running total of the first `i` scalars, added left to right.
pub open spec fn f_sum_prefix(vals: Seq<Fixed>, i: int) -> Fixed
    decreases i,
{
    if i <= 0 {
        fixed_of(0)
    } else {
        f_add(f_sum_prefix(vals, i - 1), vals[i - 1])
    }
}

pub open spec fn f_sum(vals: Seq<Fixed>) -> Fixed {
    f_sum_prefix(vals, vals.len() as int)
}

/// The scalar standing for a count of `n` items.
pub open spec fn count_fixed(n: int) -> Fixed {
    fixed_of(clamp_mag(n * SCALE as int))
}

/// The mean of a non-empty scalar list: total divided by count.
pub open spec fn f_mean(vals: Seq<Fixed>) -> Fixed {
    f_div(f_sum(vals), count_fixed(vals.len() as int))
}

/// Total a scalar list left to right.
pub fn sum_values(vals: &Vec<Fixed>) -> (r: Fixed)
    requires
        all_wf(vals@),
    ensures
        r.wf(),
        r == f_sum(vals@),
{
    let mut acc = Fixed::zero();
    let mut i: usize = 0;
    while i < vals.len()
        invariant
            0 <= i <= vals.len(),
            all_wf(vals@),
            acc.wf(),
            acc == f_sum_prefix(vals@, i as int),
        decreases vals.len() - i,
    {
        acc = acc.add(vals[i]);
        i = i + 1;
    }
    acc
}

/// The scalar standing for this count of items.
pub fn count_of(n: usize) -> (r: Fixed)
    ensures
        r.wf(),
        r == count_fixed(n as int),
{
    let wide = n as u128;
    proof {
        assert(wide * SCALE <= 36_893_488_147_419_103_230_000_000_000u128) by (nonlinear_arith)
            requires
                wide <= 18_446_744_073_709_551_615u128,
                SCALE == 1_000_000_000u128,
        ;
    }
    let m = wide * SCALE;
    let m2 = if m > MAX_RAW {
        MAX_RAW
    } else {
        m
    };
    Fixed { neg: false, mag: m2 }
}

/// What the `mean` tool returns: an empty list is a tool-level error.
pub open spec fn execute_mean_spec(args: Option<ArgPayloadV>) -> CallToolResultV {
    match parse_numbers_spec(args) {
        Err(m) => error_result_spec(m),
        Ok(vals) => if vals.len() == 0 {
            error_result_spec("Error: Cannot calculate mean of empty array"@)
        } else {
            success_result_spec(render_fixed_spec(f_mean(vals)), None)
        },
    }
}

pub fn execute_mean(args: Option<ArgPayload>) -> (r: CallToolResult)
    ensures
        r.deep() == execute_mean_spec(view_opt_args(args)),
{
    match parse_numbers(args) {
        Err(m) => error_result(m),
        Ok(vals) => {
            if vals.len() == 0 {
                error_result(String::from_str("Error: Cannot calculate mean of empty array"))
            } else {
                let total = sum_values(&vals);
                let count = count_of(vals.len());
                proof {
                    assert(count.val() >= SCALE);
                }
                success_result(render_number(total.div(count)))
            }
        },
    }
}

/// What the `sum` tool returns.
pub open spec fn execute_sum_spec(args: Option<ArgPayloadV>) -> CallToolResultV {
    match parse_numbers_spec(args) {
        Err(m) => error_result_spec(m),
        Ok(vals) => success_result_spec(render_fixed_spec(f_sum(vals)), None),
    }
}

pub fn execute_sum(args: Option<ArgPayload>) -> (r: CallToolResult)
    ensures
        r.deep() == execute_sum_spec(view_opt_args(args)),
{
    match parse_numbers(args) {
        Err(m) => error_result(m),
        Ok(vals) => success_result(render_number(sum_values(&vals))),
    }
}

/// What the `count` tool returns.
pub open spec fn execute_count_spec(args: Option<ArgPayloadV>) -> CallToolResultV {
    match parse_numbers_spec(args) {
        Err(m) => error_result_spec(m),
        Ok(vals) => success_result_spec(render_fixed_spec(count_fixed(vals.len() as int)), None),
    }
}

pub fn execute_count(args: Option<ArgPayload>) -> (r: CallToolResult)
    ensures
        r.deep() == execute_count_spec(view_opt_args(args)),
{
    match parse_numbers(args) {
        Err(m) => error_result(m),
        Ok(vals) => success_result(render_number(count_of(vals.len()))),
    }
}

/// The tools the statistics provider declares, in order.
pub open spec fn stats_tools_spec() -> Seq<ToolV> {
    seq![
        tool_v(
            "mean"@,
            "{\"type\":\"object\",\"properties\":{\"numbers\":{\"type\":\"array\",\"items\":{\"type\":\"number\"}}},\"required\":[\"numbers\"]}"@,
            "Mean (Average)"@,
            "Calculate the mean (average) of an array of numbers"@,
        ),
        tool_v(
            "sum"@,
            "{\"type\":\"object\",\"properties\":{\"numbers\":{\"type\":\"array\",\"items\":{\"type\":\"number\"}}},\"required\":[\"numbers\"]}"@,
            "Sum"@,
            "Calculate the sum of an array of numbers"@,
        ),
        tool_v(
            "count"@,
            "{\"type\":\"object\",\"properties\":{\"numbers\":{\"type\":\"array\",\"items\":{\"type\":\"number\"}}},\"required\":[\"numbers\"]}"@,
            "Count"@,
            "Count the number of elements in an array"@,
        ),
    ]
}

/// Declare the statistics tools.
pub fn stats_tools_list() -> (v: Vec<Tool>)
    ensures
        tools_deep(v@) == stats_tools_spec(),
{
    let mut v: Vec<Tool> = Vec::new();
    v.push(
        make_tool(
            "mean",
            "{\"type\":\"object\",\"properties\":{\"numbers\":{\"type\":\"array\",\"items\":{\"type\":\"number\"}}},\"required\":[\"numbers\"]}",
            "Mean (Average)",
            "Calculate the mean (average) of an array of numbers",
        ),
    );
    v.push(
        make_tool(
            "sum",
            "{\"type\":\"object\",\"properties\":{\"numbers\":{\"type\":\"array\",\"items\":{\"type\":\"number\"}}},\"required\":[\"numbers\"]}",
            "Sum",
            "Calculate the sum of an array of numbers",
        ),
    );
    v.push(
        make_tool(
            "count",
            "{\"type\":\"object\",\"properties\":{\"numbers\":{\"type\":\"array\",\"items\":{\"type\":\"number\"}}},\"required\":[\"numbers\"]}",
            "Count",
            "Count the number of elements in an array",
        ),
    );
    proof {
        assert(tools_deep(v@) =~= stats_tools_spec());
    }
    v
}

/// Whether the statistics provider owns a tool name.
pub open spec fn stats_owns(name: Seq<char>) -> bool {
    name == "mean"@ || name == "sum"@ || name == "count"@
}

pub fn stats_owns_name(name: &str) -> (r: bool)
    ensures
        r == stats_owns(name@),
{
    str_eq(name, "mean") || str_eq(name, "sum") || str_eq(name, "count")
}

/// What the statistics provider answers for a named tool call.
pub open spec fn stats_call_spec(name: Seq<char>, args: Option<ArgPayloadV>) -> Option<
    CallToolResultV,
> {
    if name == "mean"@ {
        Some(execute_mean_spec(args))
    } else if name == "sum"@ {
        Some(execute_sum_spec(args))
    } else if name == "count"@ {
        Some(execute_count_spec(args))
    } else {
        None
    }
}

/// Answer a tool call if the name is one of the statistics tools.
pub fn stats_call_tool(request: CallToolRequest) -> (r: Option<CallToolResult>)
    ensures
        match r {
            Some(res) => stats_call_spec(request.name@, view_opt_args(request.arguments)) == Some(
                res.deep(),
            ),
            None => stats_call_spec(request.name@, view_opt_args(request.arguments)) is None,
        },
{
    let name = request.name;
    let args = request.arguments;
    if str_eq(name.as_str(), "mean") {
        Some(execute_mean(args))
    } else if str_eq(name.as_str(), "sum") {
        Some(execute_sum(args))
    } else if str_eq(name.as_str(), "count") {
        Some(execute_count(args))
    } else {
        None
    }
}

} // verus!

use vstd::prelude::*;
use crate::fixed::{Fixed, SCALE, f_add, f_sub, f_mul, f_div, f_sqrt, fixed_of};
use crate::args::{args_data, args_data_spec, get_num_field, missing_param, missing_param_spec, num_field};
use crate::json::JVal;
use crate::numtext::{render_fixed_spec, render_number};
use crate::protocol::{
    ArgPayload, ArgPayloadV, CallToolRequest, CallToolResult, CallToolResultV, Tool, ToolV,
    error_result, error_result_spec, make_tool, success_result, success_result_spec, tool_v,
    tools_deep, view_opt_args,
};
use crate::json::str_eq;

verus! {

/// A pair of named scalar arguments, or the argument error that stops them
/// from being read.
pub open spec fn parse_pair_spec(
    args: Option<ArgPayloadV>,
    k1: Seq<char>,
    k2: Seq<char>,
) -> Result<(Fixed, Fixed), Seq<char>> {
    match args_data_spec(args) {
        Err(m) => Err(m),
        Ok(j) => match get_num_field(j, k1) {
            None => Err(missing_param_spec(k1)),
            Some(a) => match get_num_field(j, k2) {
                None => Err(missing_param_spec(k2)),
                Some(b) => Ok((a, b)),
            },
        },
    }
}

/// A single named scalar argument.
pub open spec fn parse_single_spec(args: Option<ArgPayloadV>, k: Seq<char>) -> Result<
    Fixed,
    Seq<char>,
> {
    match args_data_spec(args) {
        Err(m) => Err(m),
        Ok(j) => match get_num_field(j, k) {
            None => Err(missing_param_spec(k)),
            Some(a) => Ok(a),
        },
    }
}

/// Read two named scalar arguments.
pub fn parse_two_args(args: Option<ArgPayload>, k1: &str, k2: &str) -> (r: Result<
    (Fixed, Fixed),
    String,
>)
    ensures
        match r {
            Ok(p) => parse_pair_spec(view_opt_args(args), k1@, k2@) == Ok::<
                (Fixed, Fixed),
                Seq<char>,
            >(p) && p.0.wf() && p.1.wf(),
            Err(m) => parse_pair_spec(view_opt_args(args), k1@, k2@) == Err::<
                (Fixed, Fixed),
                Seq<char>,
            >(m@),
        },
{
    let j = match args_data(args) {
        Ok(j) => j,
        Err(m) => {
            return Err(m);
        },
    };
    let a = match num_field(&j, k1) {
        Some(a) => a,
        None => {
            return Err(missing_param(k1));
        },
    };
    let b = match num_field(&j, k2) {
        Some(b) => b,
        None => {
            return Err(missing_param(k2));
        },
    };
    Ok((a, b))
}

/// Read the two-operand arguments `a` and `b`.
pub fn parse_args(args: Option<ArgPayload>) -> (r: Result<(Fixed, Fixed), String>)
    ensures
        match r {
            Ok(p) => parse_pair_spec(view_opt_args(args), "a"@, "b"@) == Ok::<
                (Fixed, Fixed),
                Seq<char>,
            >(p) && p.0.wf() && p.1.wf(),
            Err(m) => parse_pair_spec(view_opt_args(args), "a"@, "b"@) == Err::<
                (Fixed, Fixed),
                Seq<char>,
            >(m@),
        },
{
    parse_two_args(args, "a", "b")
}

/// Read the single operand argument of the given name.
pub fn parse_single_arg(args: Option<ArgPayload>, k: &str) -> (r: Result<Fixed, String>)
    ensures
        match r {
            Ok(a) => parse_single_spec(view_opt_args(args), k@) == Ok::<Fixed, Seq<char>>(a)
                && a.wf(),
            Err(m) => parse_single_spec(view_opt_args(args), k@) == Err::<Fixed, Seq<char>>(m@),
        },
{
    let j = match args_data(args) {
        Ok(j) => j,
        Err(m) => {
            return Err(m);
        },
    };
    match num_field(&j, k) {
        Some(a) => Ok(a),
        None => Err(missing_param(k)),
    }
}

/// The closed set of two-operand arithmetic tools.
pub enum BinaryOp {
    Add,
    Subtract,
    Multiply,
}

pub open spec fn apply_binary(op: BinaryOp, a: Fixed, b: Fixed) -> Fixed {
    match op {
        BinaryOp::Add => f_add(a, b),
        BinaryOp::Subtract => f_sub(a, b),
        BinaryOp::Multiply => f_mul(a, b),
    }
}

/// What a two-operand tool returns: the rendered combination, or an
/// argument error result.
pub open spec fn execute_operation_spec(op: BinaryOp, args: Option<ArgPayloadV>) -> CallToolResultV {
    match parse_pair_spec(args, "a"@, "b"@) {
        Err(m) => error_result_spec(m),
        Ok(p) => success_result_spec(render_fixed_spec(apply_binary(op, p.0, p.1)), None),
    }
}

/// Run one of the two-operand tools.
pub fn execute_operation(args: Option<ArgPayload>, op: BinaryOp) -> (r: CallToolResult)
    ensures
        r.deep() == execute_operation_spec(op, view_opt_args(args)),
{
    match parse_args(args) {
        Err(m) => error_result(m),
        Ok((a, b)) => {
            let v = match op {
                BinaryOp::Add => a.add(b),
                BinaryOp::Subtract => a.sub(b),
                BinaryOp::Multiply => a.mul(b),
            };
            success_result(render_number(v))
        },
    }
}

/// What the `divide` tool returns: a division by zero is a tool-level
/// error, never a protocol error.
pub open spec fn execute_divide_spec(args: Option<ArgPayloadV>) -> CallToolResultV {
    match parse_pair_spec(args, "a"@, "b"@) {
        Err(m) => error_result_spec(m),
        Ok(p) => if p.1.val() == 0 {
            error_result_spec("Error: Division by zero"@)
        } else {
            success_result_spec(render_fixed_spec(f_div(p.0, p.1)), None)
        },
    }
}

pub fn execute_divide(args: Option<ArgPayload>) -> (r: CallToolResult)
    ensures
        r.deep() == execute_divide_spec(view_opt_args(args)),
{
    match parse_args(args) {
        Err(m) => error_result(m),
        Ok((a, b)) => {
            if b.is_zero() {
                error_result(String::from_str("Error: Division by zero"))
            } else {
                success_result(render_number(a.div(b)))
            }
        },
    }
}

/// What the `square` tool returns.
pub open spec fn execute_square_spec(args: Option<ArgPayloadV>) -> CallToolResultV {
    match parse_single_spec(args, "x"@) {
        Err(m) => error_result_spec(m),
        Ok(x) => success_result_spec(render_fixed_spec(f_mul(x, x)), None),
    }
}

pub fn execute_square(args: Option<ArgPayload>) -> (r: CallToolResult)
    ensures
        r.deep() == execute_square_spec(view_opt_args(args)),
{
    match parse_single_arg(args, "x") {
        Err(m) => error_result(m),
        Ok(x) => success_result(render_number(x.mul(x))),
    }
}

/// What the `square_root` tool returns: a negative operand is a tool-level
/// error.
pub open spec fn execute_square_root_spec(args: Option<ArgPayloadV>) -> CallToolResultV {
    match parse_single_spec(args, "x"@) {
        Err(m) => error_result_spec(m),
        Ok(x) => if x.val() < 0 {
            error_result_spec("Error: Cannot take square root of negative number"@)
        } else {
            success_result_spec(render_fixed_spec(f_sqrt(x)), None)
        },
    }
}

pub fn execute_square_root(args: Option<ArgPayload>) -> (r: CallToolResult)
    ensures
        r.deep() == execute_square_root_spec(view_opt_args(args)),
{
    match parse_single_arg(args, "x") {
        Err(m) => error_result(m),
        Ok(x) => {
            if !x.is_nonneg() {
                error_result(
                    String::from_str("Error: Cannot take square root of negative number"),
                )
            } else {
                success_result(render_number(x.sqrt()))
            }
        },
    }
}

/// Iterated product: the base multiplied into one, `e` times, in order.
pub open spec fn f_powi(b: Fixed, e: nat) -> Fixed
    decreases e,
{
    if e == 0 {
        fixed_of(SCALE as int)
    } else {
        f_mul(f_powi(b, (e - 1) as nat), b)
    }
}

/// Largest accepted exponent magnitude of the `power` tool.
pub const MAX_EXPONENT: u128 = 10_000;

/// What the `power` tool returns. The exponent must be a whole number of
/// bounded magnitude; a negative exponent takes the reciprocal, which must
/// not divide by zero.
pub open spec fn execute_power_spec(args: Option<ArgPayloadV>) -> CallToolResultV {
    match parse_pair_spec(args, "base"@, "exponent"@) {
        Err(m) => error_result_spec(m),
        Ok(p) => {
            let b = p.0;
            let e = p.1;
            if e.mag % SCALE != 0 {
                error_result_spec("Error: exponent must be a whole number"@)
            } else if e.mag / SCALE > MAX_EXPONENT {
                error_result_spec("Error: exponent magnitude too large"@)
            } else {
                let pw = f_powi(b, (e.mag / SCALE) as nat);
                if !e.neg {
                    success_result_spec(render_fixed_spec(pw), None)
                } else if pw.val() == 0 {
                    error_result_spec("Error: Division by zero"@)
                } else {
                    success_result_spec(render_fixed_spec(f_div(fixed_of(SCALE as int), pw)), None)
                }
            }
        },
    }
}

pub fn execute_power(args: Option<ArgPayload>) -> (r: CallToolResult)
    ensures
        r.deep() == execute_power_spec(view_opt_args(args)),
{
    let (b, e) = match parse_two_args(args, "base", "exponent") {
        Ok(p) => p,
        Err(m) => {
            return error_result(m);
        },
    };
    if e.mag % SCALE != 0 {
        return error_result(String::from_str("Error: exponent must be a whole number"));
    }
    let units = e.mag / SCALE;
    if units > MAX_EXPONENT {
        return error_result(String::from_str("Error: exponent magnitude too large"));
    }
    let one = Fixed { neg: false, mag: SCALE };
    let mut pw = one;
    let mut k: u128 = 0;
    while k < units
        invariant
            0 <= k <= units,
            b.wf(),
            pw.wf(),
            pw == f_powi(b, k as nat),
        decreases units - k,
    {
        pw = pw.mul(b);
        k = k + 1;
    }
    if !e.neg {
        success_result(render_number(pw))
    } else if pw.is_zero() {
        error_result(String::from_str("Error: Division by zero"))
    } else {
        success_result(render_number(one.div(pw)))
    }
}

/// The tools the arithmetic provider declares, in order.
pub open spec fn math_tools_spec() -> Seq<ToolV> {
    seq![
        tool_v(
            "add"@,
            "{\"type\":\"object\",\"properties\":{\"a\":{\"type\":\"number\"},\"b\":{\"type\":\"number\"}},\"required\":[\"a\",\"b\"]}"@,
            "Add"@,
            "Add two numbers together"@,
        ),
        tool_v(
            "subtract"@,
            "{\"type\":\"object\",\"properties\":{\"a\":{\"type\":\"number\"},\"b\":{\"type\":\"number\"}},\"required\":[\"a\",\"b\"]}"@,
            "Subtract"@,
            "Subtract b from a"@,
        ),
        tool_v(
            "multiply"@,
            "{\"type\":\"object\",\"properties\":{\"a\":{\"type\":\"number\"},\"b\":{\"type\":\"number\"}},\"required\":[\"a\",\"b\"]}"@,
            "Multiply"@,
            "Multiply two numbers"@,
        ),
        tool_v(
            "divide"@,
            "{\"type\":\"object\",\"properties\":{\"a\":{\"type\":\"number\"},\"b\":{\"type\":\"number\"}},\"required\":[\"a\",\"b\"]}"@,
            "Divide"@,
            "Divide a by b"@,
        ),
        tool_v(
            "square"@,
            "{\"type\":\"object\",\"properties\":{\"x\":{\"type\":\"number\"}},\"required\":[\"x\"]}"@,
            "Square"@,
            "Calculate the square of a number"@,
        ),
        tool_v(
            "square_root"@,
            "{\"type\":\"object\",\"properties\":{\"x\":{\"type\":\"number\"}},\"required\":[\"x\"]}"@,
            "Square Root"@,
            "Calculate the square root of a number"@,
        ),
        tool_v(
            "power"@,
            "{\"type\":\"object\",\"properties\":{\"base\":{\"type\":\"number\"},\"exponent\":{\"type\":\"number\"}},\"required\":[\"base\",\"exponent\"]}"@,
            "Power"@,
            "Calculate base raised to a whole exponent"@,
        ),
    ]
}

/// Declare the arithmetic tools.
pub fn math_tools_list() -> (v: Vec<Tool>)
    ensures
        tools_deep(v@) == math_tools_spec(),
{
    let mut v: Vec<Tool> = Vec::new();
    v.push(
        make_tool(
            "add",
            "{\"type\":\"object\",\"properties\":{\"a\":{\"type\":\"number\"},\"b\":{\"type\":\"number\"}},\"required\":[\"a\",\"b\"]}",
            "Add",
            "Add two numbers together",
        ),
    );
    v.push(
        make_tool(
            "subtract",
            "{\"type\":\"object\",\"properties\":{\"a\":{\"type\":\"number\"},\"b\":{\"type\":\"number\"}},\"required\":[\"a\",\"b\"]}",
            "Subtract",
            "Subtract b from a",
        ),
    );
    v.push(
        make_tool(
            "multiply",
            "{\"type\":\"object\",\"properties\":{\"a\":{\"type\":\"number\"},\"b\":{\"type\":\"number\"}},\"required\":[\"a\",\"b\"]}",
            "Multiply",
            "Multiply two numbers",
        ),
    );
    v.push(
        make_tool(
            "divide",
            "{\"type\":\"object\",\"properties\":{\"a\":{\"type\":\"number\"},\"b\":{\"type\":\"number\"}},\"required\":[\"a\",\"b\"]}",
            "Divide",
            "Divide a by b",
        ),
    );
    v.push(
        make_tool(
            "square",
            "{\"type\":\"object\",\"properties\":{\"x\":{\"type\":\"number\"}},\"required\":[\"x\"]}",
            "Square",
            "Calculate the square of a number",
        ),
    );
    v.push(
        make_tool(
            "square_root",
            "{\"type\":\"object\",\"properties\":{\"x\":{\"type\":\"number\"}},\"required\":[\"x\"]}",
            "Square Root",
            "Calculate the square root of a number",
        ),
    );
    v.push(
        make_tool(
            "power",
            "{\"type\":\"object\",\"properties\":{\"base\":{\"type\":\"number\"},\"exponent\":{\"type\":\"number\"}},\"required\":[\"base\",\"exponent\"]}",
            "Power",
            "Calculate base raised to a whole exponent",
        ),
    );
    proof {
        assert(tools_deep(v@) =~= math_tools_spec());
    }
    v
}

/// Whether the arithmetic provider owns a tool name.
pub open spec fn math_owns(name: Seq<char>) -> bool {
    name == "add"@ || name == "subtract"@ || name == "multiply"@ || name == "divide"@ || name
        == "square"@ || name == "square_root"@ || name == "power"@
}

pub fn math_owns_name(name: &str) -> (r: bool)
    ensures
        r == math_owns(name@),
{
    str_eq(name, "add") || str_eq(name, "subtract") || str_eq(name, "multiply") || str_eq(
        name,
        "divide",
    ) || str_eq(name, "square") || str_eq(name, "square_root") || str_eq(name, "power")
}

/// What the arithmetic provider answers for a named tool call: one of its
/// tools' results, or nothing when the name is not its own.
pub open spec fn math_call_spec(name: Seq<char>, args: Option<ArgPayloadV>) -> Option<
    CallToolResultV,
> {
    if name == "add"@ {
        Some(execute_operation_spec(BinaryOp::Add, args))
    } else if name == "subtract"@ {
        Some(execute_operation_spec(BinaryOp::Subtract, args))
    } else if name == "multiply"@ {
        Some(execute_operation_spec(BinaryOp::Multiply, args))
    } else if name == "divide"@ {
        Some(execute_divide_spec(args))
    } else if name == "square"@ {
        Some(execute_square_spec(args))
    } else if name == "square_root"@ {
        Some(execute_square_root_spec(args))
    } else if name == "power"@ {
        Some(execute_power_spec(args))
    } else {
        None
    }
}

/// Answer a tool call if the name is one of the arithmetic tools.
pub fn math_call_tool(request: CallToolRequest) -> (r: Option<CallToolResult>)
    ensures
        match r {
            Some(res) => math_call_spec(request.name@, view_opt_args(request.arguments)) == Some(
                res.deep(),
            ),
            None => math_call_spec(request.name@, view_opt_args(request.arguments)) is None,
        },
{
    let name = request.name;
    let args = request.arguments;
    if str_eq(name.as_str(), "add") {
        Some(execute_operation(args, BinaryOp::Add))
    } else if str_eq(name.as_str(), "subtract") {
        Some(execute_operation(args, BinaryOp::Subtract))
    } else if str_eq(name.as_str(), "multiply") {
        Some(execute_operation(args, BinaryOp::Multiply))
    } else if str_eq(name.as_str(), "divide") {
        Some(execute_divide(args))
    } else if str_eq(name.as_str(), "square") {
        Some(execute_square(args))
    } else if str_eq(name.as_str(), "square_root") {
        Some(execute_square_root(args))
    } else if str_eq(name.as_str(), "power") {
        Some(execute_power(args))
    } else {
        None
    }
}

} // verus!

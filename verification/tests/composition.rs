use tool_pipeline::dispatch::{Handler, dispatch_request};
use tool_pipeline::json::JsonData;
use tool_pipeline::protocol::{
    ArgPayload, CallToolRequest, CallToolResult, ClientRequest, Context, ContentBlock, ErrorCode,
    ListToolsRequest, RequestId, ServerResponse,
};

fn ctx() -> Context {
    Context { session: 7 }
}

fn rid() -> RequestId {
    RequestId(42)
}

fn call_text(chain: &Vec<Handler>, name: &str, args_json: &str) -> CallToolResult {
    let req = ClientRequest::ToolsCall(CallToolRequest {
        name: name.to_string(),
        arguments: Some(ArgPayload::Text(args_json.to_string())),
    });
    match dispatch_request(chain, &ctx(), req, &rid()) {
        Ok(ServerResponse::ToolsCall(res)) => res,
        other => panic!("expected a tools-call result, got {:?}", describe(&other)),
    }
}

fn describe(r: &Result<ServerResponse, ErrorCode>) -> String {
    match r {
        Ok(ServerResponse::ToolsCall(_)) => "tools-call response".to_string(),
        Ok(ServerResponse::ToolsList(_)) => "tools-list response".to_string(),
        Err(ErrorCode::MethodNotFound(m)) => format!("method not found: {}", m),
        Err(ErrorCode::Other(m)) => format!("error: {}", m),
    }
}

fn first_text(res: &CallToolResult) -> String {
    match &res.content[0] {
        ContentBlock::Text(t) => t.clone(),
        ContentBlock::Stream(_) => panic!("streamed content where text was expected"),
    }
}

fn assert_success_text(res: &CallToolResult, expected: &str) {
    assert_ne!(res.is_error, Some(true), "unexpected error: {}", first_text(res));
    assert_eq!(first_text(res), expected);
}

fn structured_field<'a>(res: &'a CallToolResult, key: &str) -> &'a JsonData {
    match &res.structured_content {
        Some(JsonData::Obj(fields)) => {
            for (k, v) in fields {
                if k == key {
                    return v;
                }
            }
            panic!("field {} missing from structured content", key);
        }
        _ => panic!("no structured object in result"),
    }
}

fn num_text(j: &JsonData) -> &str {
    match j {
        JsonData::Num(t) => t.as_str(),
        _ => panic!("expected a number"),
    }
}

#[test]
fn distance_three_four_five() {
    let chain = vec![Handler::DistanceCalc, Handler::MathTools];
    let res = call_text(&chain, "distance", "{\"x1\": 0, \"y1\": 0, \"x2\": 3, \"y2\": 4}");
    assert_success_text(&res, "5");
}

#[test]
fn pythagorean_three_four_five() {
    let chain = vec![Handler::Pythagorean, Handler::MathTools];
    let res = call_text(&chain, "pythagorean", "{\"a\": 3, \"b\": 4}");
    assert_success_text(&res, "5");
}

#[test]
fn variance_then_stddev() {
    let chain = vec![
        Handler::StdDev,
        Handler::Variance,
        Handler::StatsTools,
        Handler::MathTools,
    ];
    let nums = "{\"numbers\": [2, 4, 4, 4, 5, 5, 7, 9]}";
    let var = call_text(&chain, "variance", nums);
    assert_success_text(&var, "4");
    let sd = call_text(&chain, "standard_deviation", nums);
    assert_success_text(&sd, "2");
    let alias = call_text(&chain, "stddev", nums);
    assert_success_text(&alias, "2");
}

#[test]
fn analyze_route_single_segment() {
    let chain = vec![Handler::RouteOptimizer, Handler::GeoDistance, Handler::GeoBearing];
    let res = call_text(
        &chain,
        "analyze_route",
        "{\"waypoints\": [{\"lat\": 0, \"lon\": 0}, {\"lat\": 0, \"lon\": 1}]}",
    );
    assert_ne!(res.is_error, Some(true), "route failed: {}", first_text(&res));
    let segments = match structured_field(&res, "segments") {
        JsonData::Arr(items) => items,
        _ => panic!("segments is not an array"),
    };
    assert_eq!(segments.len(), 1);
    let seg = match &segments[0] {
        JsonData::Obj(fields) => fields,
        _ => panic!("segment is not an object"),
    };
    let mut bearing = None;
    let mut seg_km = None;
    for (k, v) in seg {
        if k == "bearing_degrees" {
            bearing = Some(num_text(v).to_string());
        }
        if k == "distance_km" {
            seg_km = Some(num_text(v).to_string());
        }
    }
    assert_eq!(bearing.as_deref(), Some("90"));
    let seg_km = seg_km.expect("segment distance missing");
    let km: f64 = seg_km.parse().unwrap();
    assert!(km > 0.0, "distance should be positive, got {}", km);
    assert!((km - 111.19).abs() < 1.0, "unexpected segment length {}", km);
    let total = num_text(structured_field(&res, "total_distance_km"));
    assert_eq!(total, seg_km, "total must equal the single segment's distance");
}

#[test]
fn tools_list_merges_terminal_first() {
    let chain = vec![Handler::Pythagorean, Handler::Variance, Handler::GeoBearing];
    let req = ClientRequest::ToolsList(ListToolsRequest { cursor: None });
    let res = match dispatch_request(&chain, &ctx(), req, &rid()) {
        Ok(ServerResponse::ToolsList(r)) => r,
        other => panic!("expected a tools list, got {}", describe(&other)),
    };
    let names: Vec<&str> = res.tools.iter().map(|t| t.name.as_str()).collect();
    assert_eq!(names, vec!["bearing", "variance", "pythagorean"]);
}

#[test]
fn missing_dependency_is_a_tool_level_error() {
    let chain = vec![Handler::Pythagorean];
    let res = call_text(&chain, "pythagorean", "{\"a\": 3, \"b\": 4}");
    assert_eq!(res.is_error, Some(true));
    let text = first_text(&res);
    assert!(text.contains("square"), "diagnostic must name the missing tool: {}", text);
    assert!(text.contains("after"), "diagnostic must recommend the ordering fix: {}", text);
}

#[test]
fn unknown_tool_reaches_method_not_found() {
    let chain = vec![Handler::Pythagorean, Handler::MathTools];
    let req = ClientRequest::ToolsCall(CallToolRequest {
        name: "no_such_tool".to_string(),
        arguments: None,
    });
    match dispatch_request(&chain, &ctx(), req, &rid()) {
        Err(ErrorCode::MethodNotFound(name)) => assert_eq!(name, "no_such_tool"),
        other => panic!("expected method-not-found, got {}", describe(&other)),
    }
}

#[test]
fn other_request_kinds_pass_through_to_the_terminal() {
    let chain = vec![Handler::Pythagorean, Handler::MathTools];
    let req = ClientRequest::Other("resources/list".to_string());
    match dispatch_request(&chain, &ctx(), req, &rid()) {
        Err(ErrorCode::MethodNotFound(kind)) => assert_eq!(kind, "resources/list"),
        other => panic!("expected method-not-found, got {}", describe(&other)),
    }
}

#[test]
fn identical_calls_yield_identical_results() {
    let chain = vec![Handler::Pythagorean, Handler::MathTools];
    let first = call_text(&chain, "pythagorean", "{\"a\": 5, \"b\": 12}");
    let second = call_text(&chain, "pythagorean", "{\"a\": 5, \"b\": 12}");
    assert_eq!(first.is_error, second.is_error);
    assert_eq!(first_text(&first), first_text(&second));
    assert_eq!(first_text(&first), "13");
}

#[test]
fn argument_errors_are_tool_level() {
    let chain = vec![Handler::Pythagorean, Handler::MathTools];
    let missing = call_text(&chain, "pythagorean", "{\"a\": 3}");
    assert_eq!(missing.is_error, Some(true));
    assert_eq!(first_text(&missing), "Missing or invalid parameter 'b'");
    let bad_json = call_text(&chain, "pythagorean", "{not json");
    assert_eq!(bad_json.is_error, Some(true));
    assert_eq!(first_text(&bad_json), "Invalid JSON arguments");
    let none = dispatch_request(
        &chain,
        &ctx(),
        ClientRequest::ToolsCall(CallToolRequest {
            name: "pythagorean".to_string(),
            arguments: None,
        }),
        &rid(),
    );
    match none {
        Ok(ServerResponse::ToolsCall(res)) => {
            assert_eq!(res.is_error, Some(true));
            assert_eq!(first_text(&res), "Missing arguments");
        }
        other => panic!("expected a tools-call result, got {}", describe(&other)),
    }
}

#[test]
fn domain_errors_are_tool_level() {
    let chain = vec![Handler::MathTools, Handler::StatsTools];
    let div = call_text(&chain, "divide", "{\"a\": 1, \"b\": 0}");
    assert_eq!(div.is_error, Some(true));
    assert_eq!(first_text(&div), "Error: Division by zero");
    let root = call_text(&chain, "square_root", "{\"x\": -4}");
    assert_eq!(root.is_error, Some(true));
    assert_eq!(first_text(&root), "Error: Cannot take square root of negative number");
    let mean = call_text(&chain, "mean", "{\"numbers\": []}");
    assert_eq!(mean.is_error, Some(true));
    assert_eq!(first_text(&mean), "Error: Cannot calculate mean of empty array");
    let var_chain = vec![Handler::Variance, Handler::StatsTools];
    let var = call_text(&var_chain, "variance", "{\"numbers\": []}");
    assert_eq!(var.is_error, Some(true));
    assert_eq!(first_text(&var), "Error: Cannot calculate variance of empty array");
}

#[test]
fn math_and_stats_leaf_tools() {
    let chain = vec![Handler::MathTools, Handler::StatsTools];
    assert_success_text(&call_text(&chain, "add", "{\"a\": 2, \"b\": 2.5}"), "4.5");
    assert_success_text(&call_text(&chain, "subtract", "{\"a\": 2, \"b\": 5}"), "-3");
    assert_success_text(&call_text(&chain, "multiply", "{\"a\": 1.5, \"b\": 4}"), "6");
    assert_success_text(&call_text(&chain, "divide", "{\"a\": 7, \"b\": 2}"), "3.5");
    assert_success_text(&call_text(&chain, "square", "{\"x\": 9}"), "81");
    assert_success_text(&call_text(&chain, "square_root", "{\"x\": 16}"), "4");
    assert_success_text(&call_text(&chain, "power", "{\"base\": 2, \"exponent\": 10}"), "1024");
    assert_success_text(&call_text(&chain, "power", "{\"base\": 2, \"exponent\": -2}"), "0.25");
    let frac = call_text(&chain, "power", "{\"base\": 2, \"exponent\": 0.5}");
    assert_eq!(frac.is_error, Some(true));
    assert_eq!(first_text(&frac), "Error: exponent must be a whole number");
    assert_success_text(&call_text(&chain, "sum", "{\"numbers\": [1, 2, 3.5]}"), "6.5");
    assert_success_text(&call_text(&chain, "mean", "{\"numbers\": [2, 4, 9]}"), "5");
    assert_success_text(&call_text(&chain, "count", "{\"numbers\": [5, 5, 5, 5]}"), "4");
}

#[test]
fn bearing_due_east() {
    let chain = vec![Handler::GeoBearing];
    let res = call_text(
        &chain,
        "bearing",
        "{\"lat1\": 0, \"lon1\": 0, \"lat2\": 0, \"lon2\": 1}",
    );
    assert_ne!(res.is_error, Some(true), "bearing failed: {}", first_text(&res));
    assert_eq!(num_text(structured_field(&res, "bearing_degrees")), "90");
    match structured_field(&res, "compass_direction") {
        JsonData::Str(s) => assert_eq!(s, "E"),
        _ => panic!("compass direction is not text"),
    }
}

#[test]
fn coordinate_validation() {
    let chain = vec![Handler::GeoDistance];
    let res = call_text(
        &chain,
        "distance",
        "{\"lat1\": 91, \"lon1\": 0, \"lat2\": 0, \"lon2\": 0}",
    );
    assert_eq!(res.is_error, Some(true));
    assert_eq!(first_text(&res), "Latitude must be between -90 and 90 degrees");
    let res2 = call_text(
        &chain,
        "distance",
        "{\"lat1\": 0, \"lon1\": -181, \"lat2\": 0, \"lon2\": 0}",
    );
    assert_eq!(res2.is_error, Some(true));
    assert_eq!(first_text(&res2), "Longitude must be between -180 and 180 degrees");
}

#[test]
fn point_in_polygon_inside_and_outside() {
    let chain = vec![Handler::GeoPointInPolygon];
    let square = "\"polygon\": [{\"lat\": 0, \"lon\": 0}, {\"lat\": 0, \"lon\": 10}, \
                  {\"lat\": 10, \"lon\": 10}, {\"lat\": 10, \"lon\": 0}]";
    let inside = call_text(
        &chain,
        "point_in_polygon",
        &format!("{{\"point\": {{\"lat\": 5, \"lon\": 5}}, {}}}", square),
    );
    assert_ne!(inside.is_error, Some(true), "check failed: {}", first_text(&inside));
    match structured_field(&inside, "is_inside") {
        JsonData::Bool(b) => assert!(*b),
        _ => panic!("is_inside is not a boolean"),
    }
    let outside = call_text(
        &chain,
        "point_in_polygon",
        &format!("{{\"point\": {{\"lat\": 15, \"lon\": 5}}, {}}}", square),
    );
    match structured_field(&outside, "is_inside") {
        JsonData::Bool(b) => assert!(!*b),
        _ => panic!("is_inside is not a boolean"),
    }
    let boundary = call_text(
        &chain,
        "point_in_polygon",
        &format!("{{\"point\": {{\"lat\": 0, \"lon\": 5}}, {}}}", square),
    );
    match structured_field(&boundary, "on_boundary") {
        JsonData::Bool(b) => assert!(*b),
        _ => panic!("on_boundary is not a boolean"),
    }
    let degenerate = call_text(
        &chain,
        "point_in_polygon",
        "{\"point\": {\"lat\": 0, \"lon\": 0}, \"polygon\": [{\"lat\": 0, \"lon\": 0}]}",
    );
    assert_eq!(degenerate.is_error, Some(true));
    assert_eq!(first_text(&degenerate), "Polygon must have at least 3 vertices");
}

#[test]
fn structured_arguments_work_like_text() {
    let chain = vec![Handler::Pythagorean, Handler::MathTools];
    let args = JsonData::Obj(vec![
        ("a".to_string(), JsonData::Num("3".to_string())),
        ("b".to_string(), JsonData::Num("4".to_string())),
    ]);
    let req = ClientRequest::ToolsCall(CallToolRequest {
        name: "pythagorean".to_string(),
        arguments: Some(ArgPayload::Data(args)),
    });
    match dispatch_request(&chain, &ctx(), req, &rid()) {
        Ok(ServerResponse::ToolsCall(res)) => assert_success_text(&res, "5"),
        other => panic!("expected a tools-call result, got {}", describe(&other)),
    }
}

#[test]
fn route_missing_geo_tools_names_them() {
    let chain = vec![Handler::RouteOptimizer];
    let res = call_text(
        &chain,
        "analyze_route",
        "{\"waypoints\": [{\"lat\": 0, \"lon\": 0}, {\"lat\": 0, \"lon\": 1}]}",
    );
    assert_eq!(res.is_error, Some(true));
    assert!(first_text(&res).contains("distance"));
}

#[test]
fn route_needs_two_waypoints() {
    let chain = vec![Handler::RouteOptimizer, Handler::GeoDistance, Handler::GeoBearing];
    let res = call_text(&chain, "analyze_route", "{\"waypoints\": [{\"lat\": 0, \"lon\": 0}]}");
    assert_eq!(res.is_error, Some(true));
    assert_eq!(first_text(&res), "Route must have at least 2 waypoints");
}

#[test]
fn analyze_route_accumulates_segments() {
    let chain = vec![Handler::RouteOptimizer, Handler::GeoDistance, Handler::GeoBearing];
    let res = call_text(
        &chain,
        "analyze_route",
        "{\"waypoints\": [{\"lat\": 0, \"lon\": 0}, {\"lat\": 0, \"lon\": 1}, {\"lat\": 0, \"lon\": 2}]}",
    );
    assert_ne!(res.is_error, Some(true), "route failed: {}", first_text(&res));
    assert_eq!(num_text(structured_field(&res, "total_waypoints")), "3");
    let segments = match structured_field(&res, "segments") {
        JsonData::Arr(items) => items,
        _ => panic!("segments is not an array"),
    };
    assert_eq!(segments.len(), 2);
    let mut total = 0.0f64;
    for seg in segments {
        match seg {
            JsonData::Obj(fields) => {
                for (k, v) in fields {
                    if k == "distance_km" {
                        total += num_text(v).parse::<f64>().unwrap();
                    }
                }
            }
            _ => panic!("segment is not an object"),
        }
    }
    let reported: f64 = num_text(structured_field(&res, "total_distance_km")).parse().unwrap();
    assert!((reported - total).abs() < 1e-9);
    let text = first_text(&res);
    assert!(text.starts_with("{\"total_waypoints\":3,"));
    assert!(text.contains("\"segments\":["));
}

//! Tests of the graph builder, from JSON text to the typed graph.

use shader_graph::{parse_input, Edge, Node, Scalar, TypeName, TypedValue};

fn parse(text: &str) -> Result<shader_graph::Graph, String> {
    parse_input(String::from(text))
}

#[test]
fn simple_pipeline_parses() {
    let g = parse(
        r#"{"nodes":{"0":{"title":"Input","location":0,"type":"vec3"},"1":{"title":"Output","location":0,"type":"vec3"}},"edges":[{"from":0,"to":1,"input":0}]}"#,
    )
    .unwrap();
    assert_eq!(
        g.nodes,
        vec![
            Node::Input(0, TypeName::Vector(3, Scalar::Float(false))),
            Node::Output(0, TypeName::Vector(3, Scalar::Float(false))),
        ]
    );
    assert_eq!(g.edges, vec![Edge { from: 0, to: 1, input: 0 }]);
}

#[test]
fn operator_titles_parse() {
    let g = parse(
        r#"{"nodes":{"a":{"title":"Normalize"},"b":{"title":"Dot"},"c":{"title":"Clamp"},"d":{"title":"Multiply"}},"edges":[]}"#,
    )
    .unwrap();
    assert_eq!(g.nodes, vec![Node::Normalize, Node::Dot, Node::Clamp, Node::Multiply]);
    assert_eq!(g.edges, vec![]);
}

#[test]
fn constant_and_extract_nodes_parse() {
    let g = parse(
        r#"{"nodes":{"k":{"title":"Constant","type":"vec2","value":[0.5,1.5]},"e":{"title":"Extract","index":1},"c":{"title":"Construct","type":"vec4"}},"edges":[]}"#,
    )
    .unwrap();
    assert_eq!(
        g.nodes,
        vec![
            Node::Constant(TypedValue::Vec2(0.5f32.to_bits(), 1.5f32.to_bits())),
            Node::Extract(1),
            Node::Construct(TypeName::Vector(4, Scalar::Float(false))),
        ]
    );
}

#[test]
fn missing_input_type_is_reported() {
    let e = parse(
        r#"{"nodes":{"0":{"title":"Input","location":0},"1":{"title":"Output","location":0,"type":"vec3"}},"edges":[{"from":0,"to":1,"input":0}]}"#,
    )
    .unwrap_err();
    assert_eq!(e, "input.type is undefined");
}

#[test]
fn construct_missing_type_is_reported() {
    let e = parse(r#"{"nodes":{"0":{"title":"Construct"}},"edges":[]}"#).unwrap_err();
    assert_eq!(e, "construct.type is undefined");
}

#[test]
fn matrix_constant_is_unsupported() {
    let e = parse(
        r#"{"nodes":{"0":{"title":"Constant","type":"mat3","value":[1,2,3]}},"edges":[]}"#,
    )
    .unwrap_err();
    assert_eq!(e, "Unknown constant type \"mat3\"");
}

#[test]
fn unknown_title_is_reported() {
    let e = parse(r#"{"nodes":{"0":{"title":"Bloop"}},"edges":[]}"#).unwrap_err();
    assert_eq!(e, "Unimplemented node \"Bloop\"");
}

#[test]
fn unknown_type_names_are_reported_with_context() {
    let e = parse(
        r#"{"nodes":{"0":{"title":"Input","location":0,"type":"vec5"}},"edges":[]}"#,
    )
    .unwrap_err();
    assert_eq!(e, "Unknown input type \"vec5\"");

    let e = parse(
        r#"{"nodes":{"0":{"title":"Output","location":0,"type":"thing"}},"edges":[]}"#,
    )
    .unwrap_err();
    assert_eq!(e, "Unknown output type \"thing\"");
}

#[test]
fn undefined_edge_origin_is_reported() {
    let e = parse(
        r#"{"nodes":{"0":{"title":"Normalize"}},"edges":[{"from":9,"to":0,"input":0}]}"#,
    )
    .unwrap_err();
    assert_eq!(e, "edge origin node is undefined");
}

#[test]
fn undefined_edge_destination_is_reported() {
    let e = parse(
        r#"{"nodes":{"0":{"title":"Normalize"}},"edges":[{"from":0,"to":9,"input":0}]}"#,
    )
    .unwrap_err();
    assert_eq!(e, "edge destination node is undefined");
}

#[test]
fn distinct_keys_map_to_distinct_indices() {
    let g = parse(
        r#"{"nodes":{"7":{"title":"Sin"},"3":{"title":"Cos"},"11":{"title":"Tan"}},"edges":[{"from":7,"to":3,"input":0},{"from":3,"to":11,"input":0}]}"#,
    )
    .unwrap();
    // keys keep document order: "7" is node 0, "3" node 1, "11" node 2
    assert_eq!(g.nodes, vec![Node::Sin, Node::Cos, Node::Tan]);
    assert_eq!(
        g.edges,
        vec![Edge { from: 0, to: 1, input: 0 }, Edge { from: 1, to: 2, input: 0 }]
    );
}

#[test]
fn later_edge_to_the_same_slot_wins() {
    let g = parse(
        r#"{"nodes":{"0":{"title":"Sin"},"1":{"title":"Cos"},"2":{"title":"Tan"}},"edges":[{"from":0,"to":2,"input":0},{"from":1,"to":2,"input":0}]}"#,
    )
    .unwrap();
    assert_eq!(g.edges, vec![Edge { from: 1, to: 2, input: 0 }]);
}

#[test]
fn edges_to_distinct_slots_coexist() {
    let g = parse(
        r#"{"nodes":{"0":{"title":"Sin"},"1":{"title":"Cos"},"2":{"title":"Pow"}},"edges":[{"from":0,"to":2,"input":0},{"from":1,"to":2,"input":1}]}"#,
    )
    .unwrap();
    assert_eq!(
        g.edges,
        vec![Edge { from: 0, to: 2, input: 0 }, Edge { from: 1, to: 2, input: 1 }]
    );
}

#[test]
fn duplicate_node_keys_collapse_to_the_last() {
    // JSON object keys are unique after parsing: a repeated key keeps the
    // last value, so only one node comes out
    let g = parse(
        r#"{"nodes":{"0":{"title":"Sin"},"0":{"title":"Cos"}},"edges":[{"from":0,"to":0,"input":0}]}"#,
    )
    .unwrap();
    assert_eq!(g.nodes, vec![Node::Cos]);
    assert_eq!(g.edges, vec![Edge { from: 0, to: 0, input: 0 }]);
}

#[test]
fn malformed_json_is_reported() {
    let e = parse("{").unwrap_err();
    assert!(e.starts_with("JSON error: "), "{}", e);
}

#[test]
fn non_object_document_is_reported() {
    assert_eq!(parse("[]").unwrap_err(), "JSON input is not an object");
    assert_eq!(parse("3").unwrap_err(), "JSON input is not an object");
}

#[test]
fn missing_sections_are_reported() {
    assert_eq!(parse("{}").unwrap_err(), "data.nodes is undefined");
    assert_eq!(
        parse(r#"{"nodes":{}}"#).unwrap_err(),
        "data.edges is undefined"
    );
}

#[test]
fn wrong_section_shapes_are_reported() {
    assert_eq!(parse(r#"{"nodes":[]}"#).unwrap_err(), "nodes is not an object");
    assert_eq!(
        parse(r#"{"nodes":{},"edges":{}}"#).unwrap_err(),
        "edges is not an array"
    );
    assert_eq!(
        parse(r#"{"nodes":{"0":3},"edges":[]}"#).unwrap_err(),
        "node is not an object"
    );
    assert_eq!(
        parse(r#"{"nodes":{},"edges":[3]}"#).unwrap_err(),
        "edge is not an object"
    );
}

#[test]
fn node_faults_are_reported_in_order() {
    assert_eq!(
        parse(r#"{"nodes":{"0":{}},"edges":[]}"#).unwrap_err(),
        "node.title is undefined"
    );
    assert_eq!(
        parse(r#"{"nodes":{"0":{"title":3}},"edges":[]}"#).unwrap_err(),
        "node title is not a string"
    );
    assert_eq!(
        parse(r#"{"nodes":{"0":{"title":"Input"}},"edges":[]}"#).unwrap_err(),
        "input.location is undefined"
    );
    assert_eq!(
        parse(r#"{"nodes":{"0":{"title":"Input","location":"x"}},"edges":[]}"#).unwrap_err(),
        "input location is not an unsigned integer"
    );
    assert_eq!(
        parse(r#"{"nodes":{"0":{"title":"Extract"}},"edges":[]}"#).unwrap_err(),
        "extract.index is undefined"
    );
    assert_eq!(
        parse(r#"{"nodes":{"0":{"title":"Constant","type":"float"}},"edges":[]}"#).unwrap_err(),
        "constant.value is undefined"
    );
}

#[test]
fn edge_faults_are_reported_in_order() {
    assert_eq!(
        parse(r#"{"nodes":{},"edges":[{}]}"#).unwrap_err(),
        "edge.from is undefined"
    );
    assert_eq!(
        parse(r#"{"nodes":{},"edges":[{"from":"a"}]}"#).unwrap_err(),
        "edge origin is not a number"
    );
    assert_eq!(
        parse(r#"{"nodes":{},"edges":[{"from":0}]}"#).unwrap_err(),
        "edge.to is undefined"
    );
    assert_eq!(
        parse(r#"{"nodes":{},"edges":[{"from":0,"to":1}]}"#).unwrap_err(),
        "edge.input is undefined"
    );
    assert_eq!(
        parse(r#"{"nodes":{},"edges":[{"from":0,"to":1,"input":-1}]}"#).unwrap_err(),
        "edge input is not a number"
    );
}

#[test]
fn first_failing_node_aborts_the_parse() {
    // the second node is bad; the first parsed, but no graph comes back
    let e = parse(
        r#"{"nodes":{"0":{"title":"Sin"},"1":{"title":"Bloop"},"2":{"title":"Zap"}},"edges":[]}"#,
    )
    .unwrap_err();
    assert_eq!(e, "Unimplemented node \"Bloop\"");
}

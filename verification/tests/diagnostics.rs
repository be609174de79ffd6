use live_runtime::cx::{apply_error_line, empty_access, Cx};
use live_runtime::error::{DiagnosticKind, LiveError, LiveErrorOrigin, LiveErrorSpan};
use live_runtime::ids::{LiveFileId, LiveId, LivePtr, LiveTokenId, TextPos};
use live_runtime::node::{LiveDocument, LiveNode, LiveNodeOrigin};
use live_runtime::registry::LiveBody;
use live_runtime::token::{LiveToken, TokenWithSpan};
use live_runtime::value::{
    push_props, LiveEval, LiveProp, LivePropType, LiveValue, LiveVec2, LiveVec3, LiveVec4,
};
use std::cell::Cell;

fn diag_body(file: &str) -> LiveBody {
    LiveBody {
        file: file.to_string(),
        cargo_manifest_path: String::new(),
        module_name: "app::ui".to_string(),
        line: 1,
        column: 1,
        code: String::new(),
        live_type_infos: vec![],
    }
}

fn sourced(name: &str, value: LiveValue, token_index: usize) -> LiveNode {
    LiveNode {
        origin: LiveNodeOrigin::Source(LiveTokenId { file_id: LiveFileId(0), token_index }),
        id: LiveId::new(name),
        value,
    }
}

fn synthesized(name: &str, value: LiveValue) -> LiveNode {
    LiveNode { origin: LiveNodeOrigin::Synthesized, id: LiveId::new(name), value }
}

fn token_at(line: u32, column: u32) -> TokenWithSpan {
    TokenWithSpan { token: LiveToken::Ident(LiveId::new("t")), start: TextPos { line, column } }
}

/// A context with one file `ui.live` whose tokens start at 3:7 and 4:1.
fn diag_cx(nodes: Vec<LiveNode>) -> Cx {
    let mut cx = Cx::new();
    let doc = LiveDocument { nodes, tokens: vec![token_at(3, 7), token_at(4, 1)] };
    cx.register_live_body(diag_body("ui.live"), Ok(doc));
    cx
}

fn origin() -> LiveErrorOrigin {
    LiveErrorOrigin::new("widget.rs", 10)
}

fn id(name: &str) -> LiveId {
    LiveId::new(name)
}

fn last_text(cx: &Cx) -> String {
    cx.diagnostics[cx.diagnostics.len() - 1].text.clone()
}

fn last_kind(cx: &Cx) -> DiagnosticKind {
    cx.diagnostics[cx.diagnostics.len() - 1].kind
}

#[test]
fn apply_error_with_source_is_positioned() {
    let mut cx = diag_cx(vec![]);
    let nodes = vec![sourced("visible", LiveValue::Bool(true), 0)];
    cx.apply_error(origin(), 0, &nodes, "something went wrong".to_string());
    assert_eq!(cx.diagnostics.len(), 1);
    assert_eq!(last_kind(&cx), DiagnosticKind::StructuralApplyError);
    assert_eq!(last_text(&cx), "widget.rs:10: something went wrong at ui.live:3:7, value=Bool(true)");
}

#[test]
fn apply_error_without_source_is_degraded() {
    let mut cx = diag_cx(vec![]);
    let nodes = vec![sourced("a", LiveValue::Object, 0), synthesized("b", LiveValue::Close)];
    cx.apply_error(origin(), 1, &nodes, "something went wrong".to_string());
    assert_eq!(last_kind(&cx), DiagnosticKind::DegradedDiagnostic);
    assert_eq!(last_text(&cx), "something went wrong (no source) at index 1, origin=widget.rs:10");
}

#[test]
fn apply_error_with_unknown_token_or_index_is_degraded() {
    let mut cx = diag_cx(vec![]);
    let nodes = vec![sourced("a", LiveValue::Object, 2)];
    cx.apply_error(origin(), 0, &nodes, "m".to_string());
    assert_eq!(last_kind(&cx), DiagnosticKind::DegradedDiagnostic);
    assert_eq!(last_text(&cx), "m (no source) at index 0, origin=widget.rs:10");
    cx.apply_error(origin(), 5, &nodes, "m".to_string());
    assert_eq!(last_kind(&cx), DiagnosticKind::DegradedDiagnostic);
    assert_eq!(last_text(&cx), "m (no source) at index 5, origin=widget.rs:10");
    assert_eq!(cx.diagnostics.len(), 2);
}

#[test]
fn apply_error_line_does_not_touch_the_context() {
    let cx = diag_cx(vec![]);
    let nodes = vec![sourced("a", LiveValue::Array, 1)];
    let d = apply_error_line(&cx.live_registry, &origin(), 0, &nodes, "m");
    assert_eq!(d.kind, DiagnosticKind::StructuralApplyError);
    assert_eq!(d.text, "widget.rs:10: m at ui.live:4:1, value=Array");
    assert_eq!(cx.diagnostics.len(), 0);
}

#[test]
fn apply_error_eval_reports_the_place_of_the_span() {
    let mut cx = diag_cx(vec![]);
    cx.apply_error_eval(LiveError {
        origin: LiveErrorOrigin::new("eval.rs", 3),
        span: LiveErrorSpan::Token(LiveTokenId { file_id: LiveFileId(0), token_index: 1 }),
        message: "cannot add".to_string(),
    });
    assert_eq!(last_kind(&cx), DiagnosticKind::StructuralApplyError);
    assert_eq!(last_text(&cx), "eval.rs:3: cannot add at ui.live:4:1");
    cx.apply_error_eval(LiveError {
        origin: LiveErrorOrigin::new("eval.rs", 3),
        span: LiveErrorSpan::Text { file_id: LiveFileId(7), start: TextPos { line: 1, column: 1 } },
        message: "cannot add".to_string(),
    });
    assert_eq!(last_text(&cx), "eval.rs:3: cannot add");
}

#[test]
fn enum_error_messages() {
    let mut cx = diag_cx(vec![]);
    let nodes = vec![synthesized("flow", LiveValue::BareEnum(id("Down")))];
    cx.apply_error_tuple_enum_arg_not_found(origin(), 0, &nodes, &id("Flow"), &id("Down"), 3);
    assert_eq!(
        last_text(&cx),
        "tuple enum too many args for Flow::Down arg no 3 (no source) at index 0, origin=widget.rs:10"
    );
    cx.apply_error_named_enum_invalid_prop(origin(), 0, &nodes, &id("Flow"), &id("Down"), &id("gap"));
    assert_eq!(
        last_text(&cx),
        "named enum invalid property for Flow::Down prop: gap (no source) at index 0, origin=widget.rs:10"
    );
    cx.apply_error_wrong_enum_base(origin(), 0, &nodes, &id("Axis"), &id("Flow"));
    assert_eq!(
        last_text(&cx),
        "wrong enum base expected: Axis got: Flow (no source) at index 0, origin=widget.rs:10"
    );
    cx.apply_error_wrong_enum_variant(origin(), 0, &nodes, &id("Flow"), &id("Sideways"));
    assert_eq!(
        last_text(&cx),
        "wrong enum variant for enum: Flow got variant: Sideways (no source) at index 0, origin=widget.rs:10"
    );
    cx.apply_error_expected_enum(origin(), 0, &nodes);
    assert_eq!(
        last_text(&cx),
        "expected enum value type, but got flow BareEnum(Down) (no source) at index 0, origin=widget.rs:10"
    );
    assert_eq!(cx.diagnostics.len(), 5);
}

#[test]
fn struct_and_field_error_messages() {
    let mut cx = diag_cx(vec![]);
    let nodes = vec![
        sourced("size", LiveValue::Str("big".to_string()), 0),
        sourced("items", LiveValue::Int64 { value: -42, single: (-42.0f32).to_bits() }, 1),
    ];
    cx.apply_error_wrong_struct_name(origin(), 0, &nodes, &id("Size"), &id("Rect"));
    assert_eq!(
        last_text(&cx),
        "widget.rs:10: wrong struct name expected: Size got: Rect at ui.live:3:7, value=Str(\"big\")"
    );
    cx.apply_error_wrong_type_for_struct(origin(), 0, &nodes, &id("Size"));
    assert_eq!(
        last_text(&cx),
        "widget.rs:10: wrong type for struct: Size prop: size type:Str(\"big\") at ui.live:3:7, value=Str(\"big\")"
    );
    cx.apply_error_expected_array(origin(), 1, &nodes);
    assert_eq!(
        last_text(&cx),
        "widget.rs:10: expected array, but got items Int64(-42) at ui.live:4:1, value=Int64(-42)"
    );
    cx.apply_error_no_matching_field(origin(), 1, &nodes);
    assert_eq!(
        last_text(&cx),
        "widget.rs:10: no matching field: items at ui.live:4:1, value=Int64(-42)"
    );
    cx.apply_error_wrong_type_for_value(origin(), 0, &nodes);
    assert_eq!(
        last_text(&cx),
        "widget.rs:10: wrong type for value: size at ui.live:3:7, value=Str(\"big\")"
    );
    cx.apply_error_component_not_found(origin(), 0, &nodes, &id("Slider"));
    assert_eq!(
        last_text(&cx),
        "widget.rs:10: component not found: Slider at ui.live:3:7, value=Str(\"big\")"
    );
    cx.apply_error_cant_find_target(origin(), 0, &nodes, &id("panel"));
    assert_eq!(
        last_text(&cx),
        "widget.rs:10: cant find target: panel at ui.live:3:7, value=Str(\"big\")"
    );
    assert_eq!(last_kind(&cx), DiagnosticKind::StructuralApplyError);
}

#[test]
fn primitive_error_messages() {
    let mut cx = diag_cx(vec![]);
    let nodes = vec![synthesized("width", LiveValue::Bool(false))];
    cx.apply_error_wrong_value_type_for_primitive(origin(), 0, &nodes, "f32");
    assert_eq!(
        last_text(&cx),
        "wrong value type. Prop: width primitive: f32 value: Bool(false) (no source) at index 0, origin=widget.rs:10"
    );
    cx.apply_error_wrong_expression_type_for_primitive(
        origin(),
        0,
        &nodes,
        "f32",
        LiveEval::Vec2(LiveVec2 { x: 1.5f32.to_bits(), y: (-2.0f32).to_bits() }),
    );
    assert_eq!(
        last_text(&cx),
        "wrong expression return. Prop: width primitive: f32 value: Vec2(#1069547520, #3221225472) (no source) at index 0, origin=widget.rs:10"
    );
}

#[test]
fn animation_error_messages() {
    let mut cx = diag_cx(vec![]);
    let nodes = vec![synthesized("hover", LiveValue::Object)];
    let props = vec![
        LiveProp { id: id("state"), kind: LivePropType::Field },
        LiveProp { id: id("on"), kind: LivePropType::Instance },
    ];
    cx.apply_error_animation_missing_state(origin(), 0, &nodes, &id("hover"), &id("on"), &props);
    assert_eq!(
        last_text(&cx),
        "animation missing state: hover on [state, instance on] (no source) at index 0, origin=widget.rs:10"
    );
    cx.apply_error_wrong_animation_track_used(origin(), 0, &nodes, &id("color"), &id("hover"), &id("focus"));
    assert_eq!(
        last_text(&cx),
        "encountered value [color] with track [hover] whilst animating on track [focus] (no source) at index 0, origin=widget.rs:10"
    );
    cx.apply_error_animate_to_unknown_track(origin(), 0, &nodes, &id("hover"), &id("on"));
    assert_eq!(
        last_text(&cx),
        "unknown track hover in animate_to state_id on (no source) at index 0, origin=widget.rs:10"
    );
    cx.apply_key_frame_cannot_be_interpolated(
        origin(),
        0,
        &nodes,
        &LiveValue::Bool(true),
        &LiveValue::Float { single: 1.5f32.to_bits() },
    );
    assert_eq!(
        last_text(&cx),
        "key frame values cannot be interpolated Bool(true) Float(#1069547520) (no source) at index 0, origin=widget.rs:10"
    );
    cx.apply_animate_missing_apply_block(origin(), 0, &nodes);
    assert_eq!(
        last_text(&cx),
        "animate missing apply:{} block (no source) at index 0, origin=widget.rs:10"
    );
}

#[test]
fn resource_error_messages() {
    let mut cx = diag_cx(vec![]);
    let nodes = vec![synthesized("image", LiveValue::Dependency("crate://a.bmp".to_string()))];
    cx.apply_image_type_not_supported(origin(), 0, &nodes, "a.bmp");
    assert_eq!(
        last_text(&cx),
        "Image type not supported a.bmp (no source) at index 0, origin=widget.rs:10"
    );
    cx.apply_image_decoding_failed(origin(), 0, &nodes, "a.png", "bad header");
    assert_eq!(
        last_text(&cx),
        "Image decoding failed a.png bad header (no source) at index 0, origin=widget.rs:10"
    );
    cx.apply_resource_not_loaded(origin(), 0, &nodes, "a.png", "missing");
    assert_eq!(
        last_text(&cx),
        "Resource not loaded a.png missing (no source) at index 0, origin=widget.rs:10"
    );
    cx.apply_error_empty_object(origin(), 0, &nodes);
    assert_eq!(
        last_text(&cx),
        "Newed empty ClassName, forgot to call 'use' (no source) at index 0, origin=widget.rs:10"
    );
}

#[test]
fn reporting_changes_nothing_but_the_log() {
    let mut cx = diag_cx(vec![synthesized("a", LiveValue::Object)]);
    let before = cx.clone();
    let nodes = vec![synthesized("a", LiveValue::Object)];
    cx.apply_error_no_matching_field(origin(), 0, &nodes);
    assert_eq!(cx.live_registry, before.live_registry);
    assert_eq!(cx.dependencies, before.dependencies);
    assert_eq!(cx.draw_shaders, before.draw_shaders);
    assert_eq!(cx.diagnostics.len(), before.diagnostics.len() + 1);
}

#[test]
fn value_texts() {
    let text = |v: LiveValue| {
        let mut s = String::new();
        v.push_debug(&mut s);
        s
    };
    assert_eq!(text(LiveValue::Bool(true)), "Bool(true)");
    assert_eq!(text(LiveValue::Bool(false)), "Bool(false)");
    assert_eq!(text(LiveValue::Int64 { value: 0, single: 0 }), "Int64(0)");
    assert_eq!(
        text(LiveValue::Int64 { value: i64::MIN, single: (i64::MIN as f32).to_bits() }),
        "Int64(-9223372036854775808)"
    );
    assert_eq!(text(LiveValue::Float { single: 0 }), "Float(#0)");
    assert_eq!(text(LiveValue::Float { single: u32::MAX }), "Float(#4294967295)");
    assert_eq!(text(LiveValue::Vec2(LiveVec2 { x: 1, y: 2 })), "Vec2(#1, #2)");
    assert_eq!(text(LiveValue::Vec3(LiveVec3 { x: 1, y: 2, z: 3 })), "Vec3(#1, #2, #3)");
    assert_eq!(text(LiveValue::Vec4(LiveVec4 { x: 1, y: 2, z: 3, w: 4 })), "Vec4(#1, #2, #3, #4)");
    assert_eq!(text(LiveValue::Str("hi".to_string())), "Str(\"hi\")");
    assert_eq!(text(LiveValue::BareEnum(id("Down"))), "BareEnum(Down)");
    assert_eq!(text(LiveValue::NamedEnum(id("Fit"))), "NamedEnum(Fit)");
    assert_eq!(text(LiveValue::TupleEnum(id("Rgb"))), "TupleEnum(Rgb)");
    assert_eq!(text(LiveValue::Object), "Object");
    assert_eq!(text(LiveValue::Array), "Array");
    assert_eq!(text(LiveValue::Close), "Close");
    assert_eq!(text(LiveValue::Dependency("crate://a.png".to_string())), "Dependency(\"crate://a.png\")");
    assert_eq!(text(LiveValue::Expr(LiveEval::Void)), "Expr(Void)");
    assert_eq!(text(LiveValue::Expr(LiveEval::Bool(false))), "Expr(Bool(false))");
    assert_eq!(text(LiveValue::Expr(LiveEval::Int64 { value: 7, single: 7.0f32.to_bits() })), "Expr(Int64(7))");
    assert_eq!(text(LiveValue::Expr(LiveEval::Float { single: 5 })), "Expr(Float(#5))");
    assert_eq!(text(LiveValue::Expr(LiveEval::Vec3(LiveVec3 { x: 1, y: 2, z: 3 }))), "Expr(Vec3(#1, #2, #3))");
    assert_eq!(
        text(LiveValue::Expr(LiveEval::Vec4(LiveVec4 { x: 1, y: 2, z: 3, w: 4 }))),
        "Expr(Vec4(#1, #2, #3, #4))"
    );
}

#[test]
fn property_list_texts() {
    let mut s = String::from("ids=");
    push_props(&mut s, &[]);
    assert_eq!(s, "ids=[]");
    let mut s = String::new();
    push_props(&mut s, &[LiveProp { id: id("a"), kind: LivePropType::Instance }]);
    assert_eq!(s, "[instance a]");
    let mut s = String::new();
    push_props(
        &mut s,
        &[
            LiveProp { id: id("a"), kind: LivePropType::Field },
            LiveProp { id: id("b"), kind: LivePropType::Field },
            LiveProp { id: id("c"), kind: LivePropType::Instance },
        ],
    );
    assert_eq!(s, "[a, b, instance c]");
}

#[test]
fn empty_object_is_reported_for_a_source_root() {
    let mut cx = diag_cx(vec![
        sourced("root", LiveValue::Object, 0),
        sourced("root", LiveValue::Close, 1),
    ]);
    let ptr = LivePtr { file_id: LiveFileId(0), index: 0, generation: 1 };
    let seen = Cell::new(0usize);
    cx.get_nodes_from_live_ptr(ptr, |file_id, index, nodes: &Vec<LiveNode>| {
        assert_eq!(file_id, LiveFileId(0));
        assert_eq!(index, 0);
        seen.set(nodes.len());
        index + 2
    });
    assert_eq!(seen.get(), 2);
    assert_eq!(cx.diagnostics.len(), 1);
    assert_eq!(last_kind(&cx), DiagnosticKind::StructuralApplyError);
    assert_eq!(
        last_text(&cx),
        "get_nodes_from_live_ptr:0: Newed empty ClassName, forgot to call 'use' at ui.live:3:7, value=Object"
    );
}

#[test]
fn empty_object_is_reported_for_a_synthesized_root() {
    let mut cx = diag_cx(vec![
        synthesized("pad", LiveValue::Bool(true)),
        synthesized("root", LiveValue::Object),
        synthesized("root", LiveValue::Close),
    ]);
    let ptr = LivePtr { file_id: LiveFileId(0), index: 1, generation: 1 };
    cx.get_nodes_from_live_ptr(ptr, |_, index, _: &Vec<LiveNode>| index + 2);
    assert_eq!(cx.diagnostics.len(), 1);
    assert_eq!(last_kind(&cx), DiagnosticKind::DegradedDiagnostic);
    assert_eq!(
        last_text(&cx),
        "Newed empty ClassName, forgot to call 'use' (no source) at index 1, origin=get_nodes_from_live_ptr:0"
    );
}

#[test]
fn empty_object_is_reported_for_every_origin() {
    for (name, line) in [("a.rs", 1u32), ("b.rs", 77), ("", 0)] {
        let mut cx = diag_cx(vec![
            sourced("root", LiveValue::Object, 0),
            sourced("root", LiveValue::Close, 1),
        ]);
        let ptr = LivePtr { file_id: LiveFileId(0), index: 0, generation: 1 };
        cx.report_nodes_consumed(LiveErrorOrigin::new(name, line), ptr, 2);
        assert_eq!(cx.diagnostics.len(), 1);
        assert_eq!(
            last_text(&cx),
            format!(
                "{}:{}: Newed empty ClassName, forgot to call 'use' at ui.live:3:7, value=Object",
                name, line
            )
        );
    }
}

#[test]
fn filled_object_is_not_reported() {
    let mut cx = diag_cx(vec![
        sourced("root", LiveValue::Object, 0),
        sourced("x", LiveValue::Bool(true), 1),
        sourced("root", LiveValue::Close, 1),
    ]);
    let ptr = LivePtr { file_id: LiveFileId(0), index: 0, generation: 1 };
    let before = cx.clone();
    cx.get_nodes_from_live_ptr(ptr, |_, index, _: &Vec<LiveNode>| index + 3);
    assert_eq!(cx, before);
}

#[test]
fn stale_access_is_reported_and_the_consumer_is_not_called() {
    let mut cx = diag_cx(vec![
        sourced("root", LiveValue::Object, 0),
        sourced("root", LiveValue::Close, 1),
    ]);
    let ptr = LivePtr { file_id: LiveFileId(0), index: 0, generation: 2 };
    let called = Cell::new(false);
    cx.get_nodes_from_live_ptr(ptr, |_, index, _: &Vec<LiveNode>| {
        called.set(true);
        index + 5
    });
    assert!(!called.get());
    assert_eq!(cx.diagnostics.len(), 1);
    assert_eq!(last_kind(&cx), DiagnosticKind::StaleReference);
    assert_eq!(last_text(&cx), "Generation invalid in get_nodes_from_live_ptr");
}

#[test]
fn empty_access_threshold() {
    assert!(empty_access(0, 0));
    assert!(empty_access(0, 2));
    assert!(!empty_access(0, 3));
    assert!(empty_access(10, 12));
    assert!(!empty_access(10, 13));
    assert!(empty_access(10, 1));
    assert!(empty_access(usize::MAX, usize::MAX));
    assert!(empty_access(usize::MAX - 1, usize::MAX));
    assert!(!empty_access(usize::MAX - 3, usize::MAX));
}

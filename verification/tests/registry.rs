use live_runtime::cx::Cx;
use live_runtime::error::{
    DiagnosticKind, LiveError, LiveErrorOrigin, LiveErrorSpan, LiveFileError, LivePlace,
    LiveResolveError,
};
use live_runtime::ids::{LiveFileId, LiveId, LivePtr, LiveTokenId, TextPos};
use live_runtime::node::{LiveDocument, LiveNode, LiveNodeOrigin};
use live_runtime::registry::{LiveBody, LiveExpansion, LiveRegistry, LiveTypeInfo, FIRST_GENERATION};
use live_runtime::token::{LiveToken, TokenWithSpan};
use live_runtime::value::LiveValue;

fn reg_body(file: &str) -> LiveBody {
    LiveBody {
        file: file.to_string(),
        cargo_manifest_path: String::new(),
        module_name: "app::main".to_string(),
        line: 1,
        column: 1,
        code: "Root = {}".to_string(),
        live_type_infos: vec![LiveTypeInfo {
            name: LiveId::new("Root"),
            module_name: "app::main".to_string(),
        }],
    }
}

fn reg_node(name: &str, value: LiveValue) -> LiveNode {
    LiveNode { origin: LiveNodeOrigin::Synthesized, id: LiveId::new(name), value }
}

fn reg_doc(values: Vec<LiveValue>) -> LiveDocument {
    let mut doc = LiveDocument::new();
    for (i, v) in values.into_iter().enumerate() {
        doc.nodes.push(reg_node(&format!("n{}", i), v));
    }
    doc.tokens.push(TokenWithSpan {
        token: LiveToken::Ident(LiveId::new("Root")),
        start: TextPos { line: 2, column: 5 },
    });
    doc
}

#[test]
fn first_registration_appends_with_first_generation() {
    let mut registry = LiveRegistry::new();
    let id = registry
        .register_live_file(reg_body("a.live"), Ok(reg_doc(vec![LiveValue::Object, LiveValue::Close])))
        .unwrap();
    assert_eq!(id, LiveFileId(0));
    assert_eq!(registry.live_files.len(), 1);
    assert_eq!(registry.live_files[0].generation, FIRST_GENERATION);
    assert_eq!(FIRST_GENERATION, 1);
    let id2 = registry
        .register_live_file(reg_body("b.live"), Ok(reg_doc(vec![LiveValue::Array, LiveValue::Close])))
        .unwrap();
    assert_eq!(id2, LiveFileId(1));
    assert_eq!(registry.live_files.len(), 2);
    assert_eq!(registry.file_name_to_file_id("a.live"), Some(LiveFileId(0)));
    assert_eq!(registry.file_name_to_file_id("b.live"), Some(LiveFileId(1)));
    assert_eq!(registry.file_name_to_file_id("c.live"), None);
}

#[test]
fn registering_again_keeps_identity_and_bumps_generation() {
    let mut registry = LiveRegistry::new();
    registry
        .register_live_file(reg_body("a.live"), Ok(reg_doc(vec![LiveValue::Object, LiveValue::Close])))
        .unwrap();
    registry
        .register_live_file(reg_body("b.live"), Ok(reg_doc(vec![LiveValue::Array, LiveValue::Close])))
        .unwrap();
    let id = registry
        .register_live_file(reg_body("a.live"), Ok(reg_doc(vec![LiveValue::Bool(true)])))
        .unwrap();
    assert_eq!(id, LiveFileId(0));
    assert_eq!(registry.live_files.len(), 2);
    assert_eq!(registry.live_files[0].generation, 2);
    assert_eq!(registry.live_files[0].document.nodes.len(), 1);
    assert_eq!(registry.live_files[0].document.nodes[0].value, LiveValue::Bool(true));
    assert_eq!(registry.live_files[1].generation, 1);
    assert_eq!(registry.live_files[1].body.file, "b.live");
}

#[test]
fn parse_failure_is_handed_back_and_changes_nothing() {
    let mut registry = LiveRegistry::new();
    registry
        .register_live_file(reg_body("a.live"), Ok(reg_doc(vec![LiveValue::Object, LiveValue::Close])))
        .unwrap();
    let before = registry.clone();
    let err = LiveFileError {
        origin: LiveErrorOrigin::new("parser.rs", 1),
        message: "unexpected token".to_string(),
        place: None,
    };
    let result = registry.register_live_file(reg_body("a.live"), Err(err.clone()));
    assert_eq!(result, Err(err));
    assert_eq!(registry, before);
}

#[test]
fn stale_pointer_after_reregistration_is_refused() {
    let mut registry = LiveRegistry::new();
    let id = registry
        .register_live_file(reg_body("a.live"), Ok(reg_doc(vec![LiveValue::Object, LiveValue::Close])))
        .unwrap();
    let ptr = LivePtr { file_id: id, index: 0, generation: 1 };
    assert!(registry.generation_valid(ptr));
    assert_eq!(registry.ptr_to_node(ptr).map(|n| n.value.clone()), Ok(LiveValue::Object));
    registry
        .register_live_file(reg_body("a.live"), Ok(reg_doc(vec![LiveValue::Array, LiveValue::Close])))
        .unwrap();
    assert_eq!(registry.live_files[0].generation, 2);
    assert!(!registry.generation_valid(ptr));
    assert_eq!(registry.ptr_to_node(ptr), Err(LiveResolveError::StaleReference));
    assert_eq!(registry.ptr_to_doc(ptr), Err(LiveResolveError::StaleReference));
    let fresh = LivePtr { file_id: id, index: 0, generation: 2 };
    assert_eq!(registry.ptr_to_node(fresh).map(|n| n.value.clone()), Ok(LiveValue::Array));
}

#[test]
fn pointer_resolved_before_expansion_is_stale_after() {
    let mut registry = LiveRegistry::new();
    let id = registry
        .register_live_file(reg_body("a.live"), Ok(reg_doc(vec![LiveValue::Object, LiveValue::Close])))
        .unwrap();
    let ptr = LivePtr { file_id: id, index: 1, generation: 1 };
    assert_eq!(registry.ptr_to_node(ptr).map(|n| n.value.clone()), Ok(LiveValue::Close));
    let tokens_before = registry.live_files[0].document.tokens.clone();
    let errors = registry.expand_all_documents(vec![LiveExpansion {
        nodes: vec![
            reg_node("root", LiveValue::Object),
            reg_node("x", LiveValue::Bool(false)),
            reg_node("end", LiveValue::Close),
        ],
        errors: vec![],
    }]);
    assert!(errors.is_empty());
    assert_eq!(registry.live_files[0].generation, 2);
    assert_eq!(registry.live_files[0].document.nodes.len(), 3);
    assert_eq!(registry.live_files[0].document.tokens, tokens_before);
    assert_eq!(registry.live_files[0].body, reg_body("a.live"));
    assert_eq!(registry.ptr_to_node(ptr), Err(LiveResolveError::StaleReference));
}

#[test]
fn pointer_past_the_last_node_has_no_node() {
    let mut registry = LiveRegistry::new();
    let id = registry
        .register_live_file(reg_body("a.live"), Ok(reg_doc(vec![LiveValue::Object, LiveValue::Close])))
        .unwrap();
    let ptr = LivePtr { file_id: id, index: 2, generation: 1 };
    assert!(registry.generation_valid(ptr));
    assert_eq!(registry.ptr_to_node(ptr), Err(LiveResolveError::NoSuchNode));
    assert!(registry.ptr_to_doc(ptr).is_ok());
    let stale_and_past = LivePtr { file_id: id, index: 9, generation: 7 };
    assert_eq!(registry.ptr_to_node(stale_and_past), Err(LiveResolveError::StaleReference));
}

#[test]
fn pointer_into_unknown_file_is_stale() {
    let registry = LiveRegistry::new();
    let ptr = LivePtr { file_id: LiveFileId(3), index: 0, generation: 1 };
    assert!(!registry.generation_valid(ptr));
    assert_eq!(registry.ptr_to_node(ptr), Err(LiveResolveError::StaleReference));
}

#[test]
fn expansion_installs_per_file_and_collects_errors_in_order() {
    let mut registry = LiveRegistry::new();
    for name in ["a.live", "b.live", "c.live"] {
        registry
            .register_live_file(reg_body(name), Ok(reg_doc(vec![LiveValue::Object, LiveValue::Close])))
            .unwrap();
    }
    let err = |m: &str| LiveError {
        origin: LiveErrorOrigin::new("expand.rs", 3),
        span: LiveErrorSpan::Token(LiveTokenId { file_id: LiveFileId(0), token_index: 0 }),
        message: m.to_string(),
    };
    let errors = registry.expand_all_documents(vec![
        LiveExpansion { nodes: vec![reg_node("a", LiveValue::Bool(true))], errors: vec![err("one"), err("two")] },
        LiveExpansion { nodes: vec![], errors: vec![err("three")] },
    ]);
    assert_eq!(errors, vec![err("one"), err("two"), err("three")]);
    assert_eq!(registry.live_files[0].generation, 2);
    assert_eq!(registry.live_files[1].generation, 2);
    assert_eq!(registry.live_files[2].generation, 1);
    assert_eq!(registry.live_files[0].document.nodes.len(), 1);
    assert_eq!(registry.live_files[1].document.nodes.len(), 0);
    assert_eq!(registry.live_files[2].document.nodes.len(), 2);
}

#[test]
fn expansions_without_a_file_are_left_alone() {
    let mut registry = LiveRegistry::new();
    registry
        .register_live_file(reg_body("a.live"), Ok(reg_doc(vec![LiveValue::Object, LiveValue::Close])))
        .unwrap();
    let err = LiveError {
        origin: LiveErrorOrigin::new("expand.rs", 3),
        span: LiveErrorSpan::Text { file_id: LiveFileId(0), start: TextPos { line: 1, column: 1 } },
        message: "ignored".to_string(),
    };
    let errors = registry.expand_all_documents(vec![
        LiveExpansion { nodes: vec![], errors: vec![] },
        LiveExpansion { nodes: vec![reg_node("x", LiveValue::Close)], errors: vec![err] },
    ]);
    assert!(errors.is_empty());
    assert_eq!(registry.live_files.len(), 1);
    assert_eq!(registry.live_files[0].generation, 2);
}

#[test]
fn spans_map_to_file_name_and_position() {
    let mut registry = LiveRegistry::new();
    registry
        .register_live_file(reg_body("a.live"), Ok(reg_doc(vec![LiveValue::Object, LiveValue::Close])))
        .unwrap();
    let token = LiveErrorSpan::Token(LiveTokenId { file_id: LiveFileId(0), token_index: 0 });
    assert_eq!(
        registry.span_to_place(token),
        Some(LivePlace { file: "a.live".to_string(), pos: TextPos { line: 2, column: 5 } })
    );
    let past = LiveErrorSpan::Token(LiveTokenId { file_id: LiveFileId(0), token_index: 1 });
    assert_eq!(registry.span_to_place(past), None);
    let unknown = LiveErrorSpan::Token(LiveTokenId { file_id: LiveFileId(4), token_index: 0 });
    assert_eq!(registry.span_to_place(unknown), None);
    let text = LiveErrorSpan::Text { file_id: LiveFileId(0), start: TextPos { line: 9, column: 3 } };
    assert_eq!(
        registry.span_to_place(text),
        Some(LivePlace { file: "a.live".to_string(), pos: TextPos { line: 9, column: 3 } })
    );
    let text_unknown =
        LiveErrorSpan::Text { file_id: LiveFileId(1), start: TextPos { line: 9, column: 3 } };
    assert_eq!(registry.span_to_place(text_unknown), None);
    assert!(registry.token_id_to_token(LiveTokenId { file_id: LiveFileId(0), token_index: 0 }).is_some());
    assert!(registry.token_id_to_token(LiveTokenId { file_id: LiveFileId(0), token_index: 1 }).is_none());
}

#[test]
fn live_error_becomes_file_error() {
    let mut registry = LiveRegistry::new();
    registry
        .register_live_file(reg_body("a.live"), Ok(reg_doc(vec![LiveValue::Object, LiveValue::Close])))
        .unwrap();
    let err = LiveError {
        origin: LiveErrorOrigin::new("eval.rs", 12),
        span: LiveErrorSpan::Token(LiveTokenId { file_id: LiveFileId(0), token_index: 0 }),
        message: "division by zero".to_string(),
    };
    let file_error = registry.live_error_to_live_file_error(err);
    assert_eq!(file_error.to_text(), "eval.rs:12: division by zero at a.live:2:5");
    let nowhere = LiveError {
        origin: LiveErrorOrigin::new("eval.rs", 12),
        span: LiveErrorSpan::Token(LiveTokenId { file_id: LiveFileId(9), token_index: 0 }),
        message: "division by zero".to_string(),
    };
    let file_error = registry.live_error_to_live_file_error(nowhere);
    assert_eq!(file_error.place, None);
    assert_eq!(file_error.to_text(), "eval.rs:12: division by zero");
}

#[test]
fn register_live_body_reports_parse_failure() {
    let mut cx = Cx::new();
    let err = LiveFileError {
        origin: LiveErrorOrigin::new("parser.rs", 1),
        message: "unexpected token".to_string(),
        place: Some(LivePlace { file: "a.live".to_string(), pos: TextPos { line: 4, column: 2 } }),
    };
    cx.register_live_body(reg_body("a.live"), Err(err));
    assert_eq!(cx.live_registry.live_files.len(), 0);
    assert_eq!(cx.diagnostics.len(), 1);
    assert_eq!(cx.diagnostics[0].kind, DiagnosticKind::ParseFailure);
    assert_eq!(
        cx.diagnostics[0].text,
        "Error parsing live file parser.rs:1: unexpected token at a.live:4:2"
    );
    cx.register_live_body(reg_body("b.live"), Ok(reg_doc(vec![LiveValue::Object, LiveValue::Close])));
    assert_eq!(cx.live_registry.live_files.len(), 1);
    assert_eq!(cx.live_registry.live_files[0].body.file, "b.live");
    assert_eq!(cx.diagnostics.len(), 1);
}

#[test]
fn live_expand_reports_every_error_and_goes_on() {
    let mut cx = Cx::new();
    cx.register_live_body(reg_body("a.live"), Ok(reg_doc(vec![LiveValue::Object, LiveValue::Close])));
    cx.register_live_body(reg_body("b.live"), Ok(reg_doc(vec![LiveValue::Object, LiveValue::Close])));
    let ptr = LivePtr { file_id: LiveFileId(1), index: 0, generation: 1 };
    assert!(cx.live_registry.generation_valid(ptr));
    cx.live_expand(vec![
        LiveExpansion {
            nodes: vec![reg_node("a", LiveValue::Object), reg_node("a", LiveValue::Close)],
            errors: vec![LiveError {
                origin: LiveErrorOrigin::new("expand.rs", 7),
                span: LiveErrorSpan::Token(LiveTokenId { file_id: LiveFileId(0), token_index: 0 }),
                message: "bad thing".to_string(),
            }],
        },
        LiveExpansion {
            nodes: vec![reg_node("b", LiveValue::Array), reg_node("b", LiveValue::Close)],
            errors: vec![LiveError {
                origin: LiveErrorOrigin::new("expand.rs", 8),
                span: LiveErrorSpan::Token(LiveTokenId { file_id: LiveFileId(5), token_index: 0 }),
                message: "lost".to_string(),
            }],
        },
    ]);
    assert_eq!(cx.diagnostics.len(), 2);
    assert_eq!(cx.diagnostics[0].kind, DiagnosticKind::ExpansionFailure);
    assert_eq!(
        cx.diagnostics[0].text,
        "Error expanding live file expand.rs:7: bad thing at a.live:2:5"
    );
    assert_eq!(cx.diagnostics[1].kind, DiagnosticKind::ExpansionFailure);
    assert_eq!(cx.diagnostics[1].text, "Error expanding live file expand.rs:8: lost");
    assert_eq!(cx.live_registry.live_files[1].document.nodes[0].value, LiveValue::Array);
    assert!(!cx.live_registry.generation_valid(ptr));
    assert_eq!(cx.live_registry.ptr_to_node(ptr), Err(LiveResolveError::StaleReference));
}

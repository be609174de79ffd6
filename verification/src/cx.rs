//! The context that ties the runtime together: the registry, the dependency
//! table, the shader instances and the diagnostics that were reported.

use vstd::prelude::*;
use crate::dependency::{scanned_files, CxDependencies};
use crate::error::{
    diagnostics_view, file_error_text, push_diagnostic, Diagnostic, DiagnosticKind, DiagnosticView,
    LiveError, LiveErrorOrigin, LiveErrorSpan, LiveFileError,
};
use crate::ids::{LiveFileId, LiveId, LivePtr, LiveTokenId, TextPos};
use crate::node::{LiveDocument, LiveNode, LiveNodeOrigin};
use crate::registry::{
    can_expand, can_register, expanded_files, installed_errors, registered_files, LiveBody,
    LiveExpansion, LiveRegistry,
};
use crate::shader::{any_touched, CxDrawShaders};
use crate::text::{decimal, push_decimal, push_text};
use crate::value::{props_text, push_props, LiveEval, LiveProp, LiveValue};

verus! {

/// The state of the runtime.
#[derive(Clone, Debug, PartialEq, Eq)]
pub struct Cx {
    pub live_registry: LiveRegistry,
    pub dependencies: CxDependencies,
    pub draw_shaders: CxDrawShaders,
    /// Every diagnostic that was reported, oldest first.
    pub diagnostics: Vec<Diagnostic>,
}

/// The file name and position of the node at `index`, if there is such a
/// node, it comes from source, and its token can be found.
pub open spec fn node_place(registry: LiveRegistry, nodes: Seq<LiveNode>, index: int) -> Option<
    (Seq<char>, TextPos),
> {
    if 0 <= index < nodes.len() {
        match nodes[index].origin {
            LiveNodeOrigin::Source(token_id) => registry.spec_span_place(
                LiveErrorSpan::Token(token_id),
            ),
            LiveNodeOrigin::Synthesized => None,
        }
    } else {
        None
    }
}

/// The diagnostic for an apply error at node `index`, reported from the
/// call site whose text is `origin`.
///
/// Where the node has a place, it is a structural apply error that reads
/// `<origin>: <message> at <file>:<line>:<column>, value=<node value>`.
/// Where it has none, it is a degraded diagnostic that reads
/// `<message> (no source) at index <index>, origin=<origin>`.
pub open spec fn apply_error_diagnostic(
    registry: LiveRegistry,
    origin: Seq<char>,
    index: usize,
    nodes: Seq<LiveNode>,
    message: Seq<char>,
) -> DiagnosticView {
    match node_place(registry, nodes, index as int) {
        Some(place) => DiagnosticView {
            kind: DiagnosticKind::StructuralApplyError,
            text: file_error_text(origin, message, Some(place)) + ", value="@
                + nodes[index as int].value.debug_text(),
        },
        None => DiagnosticView {
            kind: DiagnosticKind::DegradedDiagnostic,
            text: message + " (no source) at index "@ + decimal(index as nat) + ", origin="@
                + origin,
        },
    }
}

/// The diagnostic for an error that evaluation or expansion met, with
/// `lead` in front of the line that reports the error.
pub open spec fn live_error_diagnostic(
    registry: LiveRegistry,
    kind: DiagnosticKind,
    lead: Seq<char>,
    err: LiveError,
) -> DiagnosticView {
    DiagnosticView {
        kind,
        text: lead + file_error_text(
            err.origin.text(),
            err.message@,
            registry.spec_span_place(err.span),
        ),
    }
}

/// The diagnostics for the first `n` errors of an expansion pass, in order.
pub open spec fn expansion_diagnostics(
    registry: LiveRegistry,
    errors: Seq<LiveError>,
    n: int,
) -> Seq<DiagnosticView>
    decreases n,
{
    if n <= 0 {
        Seq::<DiagnosticView>::empty()
    } else {
        expansion_diagnostics(registry, errors, n - 1).push(
            live_error_diagnostic(
                registry,
                DiagnosticKind::ExpansionFailure,
                "Error expanding live file "@,
                errors[n - 1],
            ),
        )
    }
}

/// The diagnostic for a file that could not be parsed.
pub open spec fn parse_failure_diagnostic(err: LiveFileError) -> DiagnosticView {
    DiagnosticView {
        kind: DiagnosticKind::ParseFailure,
        text: "Error parsing live file "@ + err.text(),
    }
}

/// The diagnostic for a stale pointer handed to the scoped node access.
pub open spec fn stale_access_diagnostic() -> DiagnosticView {
    DiagnosticView {
        kind: DiagnosticKind::StaleReference,
        text: "Generation invalid in get_nodes_from_live_ptr"@,
    }
}

/// What reports an object that was made and never filled.
pub open spec fn empty_object_message() -> Seq<char> {
    "Newed empty ClassName, forgot to call 'use'"@
}

/// Whether a consumer that started at node `index` and stopped before node
/// `next_index` saw an empty object: it took no more than the root and one
/// node after it.
pub open spec fn is_empty_access(index: usize, next_index: usize) -> bool {
    next_index <= index + 2
}

/// Builds the diagnostic for an apply error at node `index`.
pub fn apply_error_line(
    registry: &LiveRegistry,
    origin: &LiveErrorOrigin,
    index: usize,
    nodes: &[LiveNode],
    message: &str,
) -> (diagnostic: Diagnostic)
    ensures
        diagnostic@ == apply_error_diagnostic(*registry, origin.text(), index, nodes@, message@),
{
    let place = if index < nodes.len() {
        match nodes[index].origin.token_id() {
            Some(token_id) => registry.span_to_place(LiveErrorSpan::Token(token_id)),
            None => None,
        }
    } else {
        None
    };
    let mut text = String::new();
    match place {
        Some(p) => {
            origin.push_to(&mut text);
            push_text(&mut text, ": ");
            push_text(&mut text, message);
            push_text(&mut text, " at ");
            push_text(&mut text, p.file.as_str());
            push_text(&mut text, ":");
            push_decimal(&mut text, p.pos.line as u64);
            push_text(&mut text, ":");
            push_decimal(&mut text, p.pos.column as u64);
            push_text(&mut text, ", value=");
            nodes[index].value.push_debug(&mut text);
            assert(text@ =~= apply_error_diagnostic(
                *registry,
                origin.text(),
                index,
                nodes@,
                message@,
            ).text);
            Diagnostic { kind: DiagnosticKind::StructuralApplyError, text }
        },
        None => {
            push_text(&mut text, message);
            push_text(&mut text, " (no source) at index ");
            push_decimal(&mut text, index as u64);
            push_text(&mut text, ", origin=");
            origin.push_to(&mut text);
            assert(text@ =~= apply_error_diagnostic(
                *registry,
                origin.text(),
                index,
                nodes@,
                message@,
            ).text);
            Diagnostic { kind: DiagnosticKind::DegradedDiagnostic, text }
        },
    }
}

/// Whether a consumer that started at node `index` and stopped before node
/// `next_index` saw an empty object.
pub fn empty_access(index: usize, next_index: usize) -> (empty: bool)
    ensures
        empty == is_empty_access(index, next_index),
{
    next_index < 2 || next_index - 2 <= index
}

impl Cx {
    /// A context without files, dependencies, shaders or diagnostics.
    pub fn new() -> (cx: Cx)
        ensures
            cx.live_registry.live_files@.len() == 0,
            cx.dependencies@.len() == 0,
            cx.draw_shaders.shaders@.len() == 0,
            cx.draw_shaders.wf(),
            cx.diagnostics@.len() == 0,
    {
        Cx {
            live_registry: LiveRegistry::new(),
            dependencies: CxDependencies::new(),
            draw_shaders: CxDrawShaders::new(),
            diagnostics: Vec::new(),
        }
    }

    /// What was reported so far, as contracts speak of it.
    pub open spec fn log(&self) -> Seq<DiagnosticView> {
        diagnostics_view(self.diagnostics@)
    }

    /// `self` is `pre` with the diagnostics `entries` reported after those
    /// that were there, and nothing else changed.
    pub open spec fn reports_all(&self, pre: Cx, entries: Seq<DiagnosticView>) -> bool {
        &&& self.log() == pre.log() + entries
        &&& self.live_registry == pre.live_registry
        &&& self.dependencies == pre.dependencies
        &&& self.draw_shaders == pre.draw_shaders
    }

    /// `self` is `pre` with one more diagnostic reported, and nothing else
    /// changed.
    pub open spec fn reports(&self, pre: Cx, entry: DiagnosticView) -> bool {
        self.reports_all(pre, seq![entry])
    }

    /// Reports an apply error at node `index` of `nodes`. Reporting never
    /// fails: a node without a place, or an index past the last node, gives
    /// the degraded form of the diagnostic.
    pub fn apply_error(
        &mut self,
        origin: LiveErrorOrigin,
        index: usize,
        nodes: &[LiveNode],
        message: String,
    )
        ensures
            final(self).reports(
                *old(self),
                apply_error_diagnostic(
                    old(self).live_registry,
                    origin.text(),
                    index,
                    nodes@,
                    message@,
                ),
            ),
    {
        let diagnostic = apply_error_line(
            &self.live_registry,
            &origin,
            index,
            nodes,
            message.as_str(),
        );
        let ghost entry = diagnostic@;
        self.diagnostics.push(diagnostic);
        assert(self.log() =~= old(self).log() + seq![entry]);
    }

    /// Reports an error that evaluating an expression met, with the place
    /// that its span stands for where there is one.
    pub fn apply_error_eval(&mut self, err: LiveError)
        ensures
            final(self).reports(
                *old(self),
                live_error_diagnostic(
                    old(self).live_registry,
                    DiagnosticKind::StructuralApplyError,
                    Seq::<char>::empty(),
                    err,
                ),
            ),
    {
        let ghost entry = live_error_diagnostic(
            self.live_registry,
            DiagnosticKind::StructuralApplyError,
            Seq::<char>::empty(),
            err,
        );
        let file_error = self.live_registry.live_error_to_live_file_error(err);
        let text = file_error.to_text();
        assert(text@ =~= entry.text);
        self.diagnostics.push(Diagnostic { kind: DiagnosticKind::StructuralApplyError, text });
        assert(self.log() =~= old(self).log() + seq![entry]);
    }

    /// Reports an object that was made and never filled.
    pub fn apply_error_empty_object(
        &mut self,
        origin: LiveErrorOrigin,
        index: usize,
        nodes: &[LiveNode],
    )
        ensures
            final(self).reports(
                *old(self),
                apply_error_diagnostic(
                    old(self).live_registry,
                    origin.text(),
                    index,
                    nodes@,
                    empty_object_message(),
                ),
            ),
    {
        let message = String::from_str("Newed empty ClassName, forgot to call 'use'");
        self.apply_error(origin, index, nodes, message)
    }

    /// Installs what expanding the documents gave, one expansion per file in
    /// registration order, and reports every error of the installed
    /// expansions as an expansion failure, in order. An error never stops
    /// the pass.
    pub fn live_expand(&mut self, expansions: Vec<LiveExpansion>)
        requires
            can_expand(old(self).live_registry.live_files@, expansions@),
        ensures
            final(self).live_registry.live_files@ == expanded_files(
                old(self).live_registry.live_files@,
                expansions@,
            ),
            final(self).log() == old(self).log() + expansion_diagnostics(
                final(self).live_registry,
                installed_errors(old(self).live_registry.live_files@, expansions@),
                installed_errors(old(self).live_registry.live_files@, expansions@).len() as int,
            ),
            final(self).dependencies == old(self).dependencies,
            final(self).draw_shaders == old(self).draw_shaders,
    {
        let errors = self.live_registry.expand_all_documents(expansions);
        let ghost all = errors@;
        let ghost registry = self.live_registry;
        assert(self.log() =~= old(self).log() + expansion_diagnostics(registry, all, 0));
        for err in it: errors
            invariant
                it.seq() == all,
                self.live_registry == registry,
                self.dependencies == old(self).dependencies,
                self.draw_shaders == old(self).draw_shaders,
                self.log() == old(self).log() + expansion_diagnostics(
                    registry,
                    all,
                    it.index() as int,
                ),
        {
            let ghost entry = live_error_diagnostic(
                registry,
                DiagnosticKind::ExpansionFailure,
                "Error expanding live file "@,
                err,
            );
            let ghost before = self.log();
            let file_error = self.live_registry.live_error_to_live_file_error(err);
            let mut text = String::from_str("Error expanding live file ");
            file_error.push_to(&mut text);
            assert(text@ =~= entry.text);
            push_diagnostic(&mut self.diagnostics, DiagnosticKind::ExpansionFailure, text);
            assert(self.log() =~= old(self).log() + expansion_diagnostics(
                registry,
                all,
                it.index() + 1,
            ));
        }
    }

    /// Scans every node of every registered document and registers each
    /// dependency among them under its canonical path. A path that is new
    /// gets an empty slot; a path that is there keeps its slot and what was
    /// loaded into it.
    pub fn live_scan_dependencies(&mut self)
        ensures
            final(self).dependencies@ == scanned_files(
                old(self).dependencies@,
                old(self).live_registry.live_files@,
                old(self).live_registry.live_files@.len() as int,
            ),
            final(self).live_registry == old(self).live_registry,
            final(self).draw_shaders == old(self).draw_shaders,
            final(self).diagnostics == old(self).diagnostics,
    {
        let mut f: usize = 0;
        while f < self.live_registry.live_files.len()
            invariant
                f <= self.live_registry.live_files.len(),
                self.live_registry == old(self).live_registry,
                self.draw_shaders == old(self).draw_shaders,
                self.diagnostics == old(self).diagnostics,
                self.dependencies@ == scanned_files(
                    old(self).dependencies@,
                    old(self).live_registry.live_files@,
                    f as int,
                ),
            decreases self.live_registry.live_files.len() - f,
        {
            let file = &self.live_registry.live_files[f];
            self.dependencies.scan_nodes(
                file.body.cargo_manifest_path.as_str(),
                &file.document.nodes,
            );
            f += 1;
        }
    }

    /// Registers the document that the front end parsed from `live_body`.
    /// A parse failure is reported and leaves the registry as it was, so
    /// that other files can still be registered.
    pub fn register_live_body(
        &mut self,
        live_body: LiveBody,
        parsed: Result<LiveDocument, LiveFileError>,
    )
        requires
            can_register(old(self).live_registry.live_files@, live_body.file@),
        ensures
            match parsed {
                Ok(document) => {
                    &&& final(self).live_registry.live_files@ == registered_files(
                        old(self).live_registry.live_files@,
                        live_body,
                        document,
                    )
                    &&& final(self).diagnostics == old(self).diagnostics
                    &&& final(self).dependencies == old(self).dependencies
                    &&& final(self).draw_shaders == old(self).draw_shaders
                },
                Err(err) => final(self).reports(*old(self), parse_failure_diagnostic(err)),
            },
    {
        let result = self.live_registry.register_live_file(live_body, parsed);
        match result {
            Ok(_) => {},
            Err(err) => {
                let ghost entry = parse_failure_diagnostic(err);
                let mut text = String::from_str("Error parsing live file ");
                err.push_to(&mut text);
                assert(text@ =~= entry.text);
                self.diagnostics.push(Diagnostic { kind: DiagnosticKind::ParseFailure, text });
                assert(self.log() =~= old(self).log() + seq![entry]);
            },
        }
    }

    /// Reflects an edit in the buffers of every shader instance.
    ///
    /// In each instance, each changed pointer that an input is bound to
    /// rewrites the slots of that input, and each changed token that a
    /// constant was read from rewrites the slots of that constant; what
    /// cannot be resolved or converted is written as zeros. Bindings,
    /// offsets and buffer sizes stay. The result says whether any binding
    /// of any instance was hit.
    pub fn update_shader_tables_with_live_edit(
        &mut self,
        mutated_tokens: &[LiveTokenId],
        live_ptrs: &[LivePtr],
    ) -> (change: bool)
        requires
            old(self).draw_shaders.wf(),
        ensures
            final(self).draw_shaders.wf(),
            final(self).draw_shaders.shaders@.len() == old(self).draw_shaders.shaders@.len(),
            forall|s: int|
                0 <= s < old(self).draw_shaders.shaders@.len() ==> (#[trigger] final(self).draw_shaders.shaders@[s]).mapping.is_patch_of(
                    old(self).draw_shaders.shaders@[s].mapping,
                    old(self).live_registry,
                    mutated_tokens@,
                    live_ptrs@,
                ),
            change == any_touched(
                old(self).draw_shaders.shaders@,
                mutated_tokens@,
                live_ptrs@,
                old(self).draw_shaders.shaders@.len() as int,
            ),
            final(self).live_registry == old(self).live_registry,
            final(self).dependencies == old(self).dependencies,
            final(self).diagnostics == old(self).diagnostics,
    {
        let mut change = false;
        let mut s: usize = 0;
        while s < self.draw_shaders.shaders.len()
            invariant
                s <= self.draw_shaders.shaders.len(),
                self.draw_shaders.shaders@.len() == old(self).draw_shaders.shaders@.len(),
                self.live_registry == old(self).live_registry,
                self.dependencies == old(self).dependencies,
                self.diagnostics == old(self).diagnostics,
                old(self).draw_shaders.wf(),
                forall|k: int|
                    0 <= k < s ==> (#[trigger] self.draw_shaders.shaders@[k]).mapping.wf()
                        && self.draw_shaders.shaders@[k].mapping.is_patch_of(
                        old(self).draw_shaders.shaders@[k].mapping,
                        old(self).live_registry,
                        mutated_tokens@,
                        live_ptrs@,
                    ),
                forall|k: int|
                    s <= k < self.draw_shaders.shaders@.len()
                        ==> #[trigger] self.draw_shaders.shaders@[k] == old(self).draw_shaders.shaders@[k],
                change == any_touched(
                    old(self).draw_shaders.shaders@,
                    mutated_tokens@,
                    live_ptrs@,
                    s as int,
                ),
            decreases self.draw_shaders.shaders.len() - s,
        {
            assert(self.draw_shaders.shaders@[s as int] == old(self).draw_shaders.shaders@[s as int]);
            assert(old(self).draw_shaders.shaders@[s as int].mapping.wf());
            let hit = self.draw_shaders.shaders[s].mapping.update_with_live_edit(
                &self.live_registry,
                mutated_tokens,
                live_ptrs,
            );
            if hit {
                change = true;
            }
            s += 1;
        }
        change
    }

    /// `self` is `pre` after a consumer was given the nodes at `live_ptr`
    /// and stopped before node `next_index`: a stale pointer is reported as
    /// such; an access that saw an empty object is reported as an apply
    /// error at the root, whatever the origin; any other access changes
    /// nothing.
    pub open spec fn is_access_outcome(
        &self,
        pre: Cx,
        origin: Seq<char>,
        live_ptr: LivePtr,
        next_index: usize,
    ) -> bool {
        if !pre.live_registry.spec_generation_valid(live_ptr) {
            self.reports(pre, stale_access_diagnostic())
        } else if is_empty_access(live_ptr.index, next_index) {
            self.reports(
                pre,
                apply_error_diagnostic(
                    pre.live_registry,
                    origin,
                    live_ptr.index,
                    pre.live_registry.live_files@[live_ptr.file_id.0 as int].document.nodes@,
                    empty_object_message(),
                ),
            )
        } else {
            self.reports_all(pre, Seq::<DiagnosticView>::empty())
        }
    }

    /// Judges a scoped node access after the consumer is done: `next_index`
    /// is the index of the first node after the range that the consumer
    /// took, starting at the node that `live_ptr` points at.
    pub fn report_nodes_consumed(
        &mut self,
        origin: LiveErrorOrigin,
        live_ptr: LivePtr,
        next_index: usize,
    )
        ensures
            final(self).is_access_outcome(*old(self), origin.text(), live_ptr, next_index),
    {
        if !self.live_registry.generation_valid(live_ptr) {
            let text = String::from_str("Generation invalid in get_nodes_from_live_ptr");
            self.diagnostics.push(Diagnostic { kind: DiagnosticKind::StaleReference, text });
            assert(self.log() =~= old(self).log() + seq![stale_access_diagnostic()]);
        } else if empty_access(live_ptr.index, next_index) {
            let diagnostic = apply_error_line(
                &self.live_registry,
                &origin,
                live_ptr.index,
                self.live_registry.live_files[live_ptr.file_id.0].document.nodes.as_slice(),
                "Newed empty ClassName, forgot to call 'use'",
            );
            let ghost entry = diagnostic@;
            self.diagnostics.push(diagnostic);
            assert(self.log() =~= old(self).log() + seq![entry]);
        } else {
            assert(self.log() =~= old(self).log() + Seq::<DiagnosticView>::empty());
        }
    }

    /// The text of the origin under which the scoped node access reports.
    pub open spec fn nodes_access_origin_text() -> Seq<char> {
        "get_nodes_from_live_ptr"@ + ":"@ + decimal(0)
    }

    /// The origin under which the scoped node access reports.
    pub fn nodes_access_origin() -> (origin: LiveErrorOrigin)
        ensures
            origin.text() == Cx::nodes_access_origin_text(),
    {
        LiveErrorOrigin::new("get_nodes_from_live_ptr", 0)
    }

    /// Gives a consumer the nodes of the document that `live_ptr` points
    /// into, and judges what it took.
    ///
    /// A stale pointer is reported and the consumer is not called.
    /// Otherwise the consumer gets the file, the index of the root and the
    /// document's nodes, and hands back the index of the first node after
    /// the range that it took; an access that saw an empty object is then
    /// reported.
    pub fn get_nodes_from_live_ptr<CB>(&mut self, live_ptr: LivePtr, cb: CB) where
        CB: FnOnce(LiveFileId, usize, &Vec<LiveNode>) -> usize,

        requires
            old(self).live_registry.spec_generation_valid(live_ptr) ==> cb.requires(
                (
                    live_ptr.file_id,
                    live_ptr.index,
                    &old(self).live_registry.live_files@[live_ptr.file_id.0 as int].document.nodes,
                ),
            ),
        ensures
            !old(self).live_registry.spec_generation_valid(live_ptr) ==> final(self).reports(
                *old(self),
                stale_access_diagnostic(),
            ),
            old(self).live_registry.spec_generation_valid(live_ptr) ==> exists|next_index: usize|
                #![trigger final(self).is_access_outcome(
                    *old(self),
                    Cx::nodes_access_origin_text(),
                    live_ptr,
                    next_index,
                )]
                {
                    &&& cb.ensures(
                        (
                            live_ptr.file_id,
                            live_ptr.index,
                            &old(self).live_registry.live_files@[live_ptr.file_id.0 as int].document.nodes,
                        ),
                        next_index,
                    )
                    &&& final(self).is_access_outcome(
                        *old(self),
                        Cx::nodes_access_origin_text(),
                        live_ptr,
                        next_index,
                    )
                },
    {
        if !self.live_registry.generation_valid(live_ptr) {
            self.report_nodes_consumed(Cx::nodes_access_origin(), live_ptr, 0);
            return ;
        }
        let next_index = cb(
            live_ptr.file_id,
            live_ptr.index,
            &self.live_registry.live_files[live_ptr.file_id.0].document.nodes,
        );
        let origin = Cx::nodes_access_origin();
        self.report_nodes_consumed(origin, live_ptr, next_index);
    }
}

/// Empty-object detection: an access through a current pointer whose
/// consumer stopped no more than two nodes after the root, as it does at a
/// root that is followed at once by its own close marker, reports exactly
/// one diagnostic, the apply error for an empty object at the root. This
/// holds for every origin and for every root, with a source position or
/// without; nothing but the log changes.
pub proof fn law_empty_object_is_reported(
    pre: Cx,
    post: Cx,
    origin: Seq<char>,
    live_ptr: LivePtr,
    next_index: usize,
)
    requires
        pre.live_registry.spec_generation_valid(live_ptr),
        next_index <= live_ptr.index + 2,
        post.is_access_outcome(pre, origin, live_ptr, next_index),
    ensures
        post.log() == pre.log().push(
            apply_error_diagnostic(
                pre.live_registry,
                origin,
                live_ptr.index,
                pre.live_registry.live_files@[live_ptr.file_id.0 as int].document.nodes@,
                empty_object_message(),
            ),
        ),
        post.log().last().kind == DiagnosticKind::StructuralApplyError || post.log().last().kind
            == DiagnosticKind::DegradedDiagnostic,
        post.live_registry == pre.live_registry,
        post.dependencies == pre.dependencies,
        post.draw_shaders == pre.draw_shaders,
{
    let entry = apply_error_diagnostic(
        pre.live_registry,
        origin,
        live_ptr.index,
        pre.live_registry.live_files@[live_ptr.file_id.0 as int].document.nodes@,
        empty_object_message(),
    );
    assert(pre.log() + seq![entry] =~= pre.log().push(entry));
}

/// A stale pointer is never handed to a consumer's judgement as an empty
/// object: the access reports the stale reference and nothing else.
pub proof fn law_stale_access_is_refused(
    pre: Cx,
    post: Cx,
    origin: Seq<char>,
    live_ptr: LivePtr,
    next_index: usize,
)
    requires
        !pre.live_registry.spec_generation_valid(live_ptr),
        post.is_access_outcome(pre, origin, live_ptr, next_index),
    ensures
        post.log() == pre.log().push(stale_access_diagnostic()),
        post.live_registry == pre.live_registry,
{
    assert(pre.log() + seq![stale_access_diagnostic()] =~= pre.log().push(
        stale_access_diagnostic(),
    ));
}

} // verus!

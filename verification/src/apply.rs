//! The apply errors: one reporting function for each structural failure
//! that applying a document can meet. Each formats its message and reports
//! it through the one reporting path, which never fails.

use vstd::prelude::*;
use crate::cx::{apply_error_diagnostic, Cx};
use crate::error::LiveErrorOrigin;
use crate::ids::LiveId;
use crate::message::{
    animate_missing_block_message,
    animate_to_unknown_track_message,
    animation_missing_state_message,
    cant_find_target_message,
    component_not_found_message,
    expected_array_message,
    expected_enum_message,
    image_decoding_failed_message,
    image_type_not_supported_message,
    key_frame_cannot_be_interpolated_message,
    named_enum_invalid_prop_message,
    no_matching_field_message,
    resource_not_loaded_message,
    tuple_enum_arg_not_found_message,
    wrong_animation_track_used_message,
    wrong_enum_base_message,
    wrong_enum_variant_message,
    wrong_expression_type_for_primitive_message,
    wrong_struct_name_message,
    wrong_type_for_struct_message,
    wrong_type_for_value_message,
    wrong_value_type_for_primitive_message,
};
use crate::node::LiveNode;
use crate::text::{push_decimal, push_text};
use crate::value::{push_props, LiveEval, LiveProp, LiveValue};

verus! {

impl Cx {
    /// Reports a tuple enum that was given more arguments than it has.
    pub fn apply_error_tuple_enum_arg_not_found(
        &mut self,
        origin: LiveErrorOrigin,
        index: usize,
        nodes: &[LiveNode],
        enum_id: &LiveId,
        base: &LiveId,
        arg: usize,
    )
        ensures
            final(self).reports(
                *old(self),
                apply_error_diagnostic(
                    old(self).live_registry,
                    origin.text(),
                    index,
                    nodes@,
                    tuple_enum_arg_not_found_message(*enum_id, *base, arg),
                ),
            ),
    {
        let mut message = String::new();
        push_text(&mut message, "tuple enum too many args for ");
        push_text(&mut message, enum_id.name.as_str());
        push_text(&mut message, "::");
        push_text(&mut message, base.name.as_str());
        push_text(&mut message, " arg no ");
        push_decimal(&mut message, arg as u64);
        assert(message@ =~= tuple_enum_arg_not_found_message(*enum_id, *base, arg));
        self.apply_error(origin, index, nodes, message)
    }

    /// Reports a named enum that was given a property it does not have.
    pub fn apply_error_named_enum_invalid_prop(
        &mut self,
        origin: LiveErrorOrigin,
        index: usize,
        nodes: &[LiveNode],
        enum_id: &LiveId,
        base: &LiveId,
        prop: &LiveId,
    )
        ensures
            final(self).reports(
                *old(self),
                apply_error_diagnostic(
                    old(self).live_registry,
                    origin.text(),
                    index,
                    nodes@,
                    named_enum_invalid_prop_message(*enum_id, *base, *prop),
                ),
            ),
    {
        let mut message = String::new();
        push_text(&mut message, "named enum invalid property for ");
        push_text(&mut message, enum_id.name.as_str());
        push_text(&mut message, "::");
        push_text(&mut message, base.name.as_str());
        push_text(&mut message, " prop: ");
        push_text(&mut message, prop.name.as_str());
        assert(message@ =~= named_enum_invalid_prop_message(*enum_id, *base, *prop));
        self.apply_error(origin, index, nodes, message)
    }

    /// Reports an enum value of another enum than the one expected.
    pub fn apply_error_wrong_enum_base(
        &mut self,
        origin: LiveErrorOrigin,
        index: usize,
        nodes: &[LiveNode],
        enum_id: &LiveId,
        base: &LiveId,
    )
        ensures
            final(self).reports(
                *old(self),
                apply_error_diagnostic(
                    old(self).live_registry,
                    origin.text(),
                    index,
                    nodes@,
                    wrong_enum_base_message(*enum_id, *base),
                ),
            ),
    {
        let mut message = String::new();
        push_text(&mut message, "wrong enum base expected: ");
        push_text(&mut message, enum_id.name.as_str());
        push_text(&mut message, " got: ");
        push_text(&mut message, base.name.as_str());
        assert(message@ =~= wrong_enum_base_message(*enum_id, *base));
        self.apply_error(origin, index, nodes, message)
    }

    /// Reports a struct of another name than the one expected.
    pub fn apply_error_wrong_struct_name(
        &mut self,
        origin: LiveErrorOrigin,
        index: usize,
        nodes: &[LiveNode],
        struct_id: &LiveId,
        got_id: &LiveId,
    )
        ensures
            final(self).reports(
                *old(self),
                apply_error_diagnostic(
                    old(self).live_registry,
                    origin.text(),
                    index,
                    nodes@,
                    wrong_struct_name_message(*struct_id, *got_id),
                ),
            ),
    {
        let mut message = String::new();
        push_text(&mut message, "wrong struct name expected: ");
        push_text(&mut message, struct_id.name.as_str());
        push_text(&mut message, " got: ");
        push_text(&mut message, got_id.name.as_str());
        assert(message@ =~= wrong_struct_name_message(*struct_id, *got_id));
        self.apply_error(origin, index, nodes, message)
    }

    /// Reports a node whose value cannot fill the struct.
    /// The node at `index` is named in the message, so it has to be there.
    pub fn apply_error_wrong_type_for_struct(
        &mut self,
        origin: LiveErrorOrigin,
        index: usize,
        nodes: &[LiveNode],
        struct_id: &LiveId,
    )
        requires
            index < nodes@.len(),
        ensures
            final(self).reports(
                *old(self),
                apply_error_diagnostic(
                    old(self).live_registry,
                    origin.text(),
                    index,
                    nodes@,
                    wrong_type_for_struct_message(*struct_id, nodes@[index as int]),
                ),
            ),
    {
        let mut message = String::new();
        push_text(&mut message, "wrong type for struct: ");
        push_text(&mut message, struct_id.name.as_str());
        push_text(&mut message, " prop: ");
        push_text(&mut message, nodes[index].id.name.as_str());
        push_text(&mut message, " type:");
        nodes[index].value.push_debug(&mut message);
        assert(message@ =~= wrong_type_for_struct_message(*struct_id, nodes@[index as int]));
        self.apply_error(origin, index, nodes, message)
    }

    /// Reports a variant that the enum does not have.
    pub fn apply_error_wrong_enum_variant(
        &mut self,
        origin: LiveErrorOrigin,
        index: usize,
        nodes: &[LiveNode],
        enum_id: &LiveId,
        variant: &LiveId,
    )
        ensures
            final(self).reports(
                *old(self),
                apply_error_diagnostic(
                    old(self).live_registry,
                    origin.text(),
                    index,
                    nodes@,
                    wrong_enum_variant_message(*enum_id, *variant),
                ),
            ),
    {
        let mut message = String::new();
        push_text(&mut message, "wrong enum variant for enum: ");
        push_text(&mut message, enum_id.name.as_str());
        push_text(&mut message, " got variant: ");
        push_text(&mut message, variant.name.as_str());
        assert(message@ =~= wrong_enum_variant_message(*enum_id, *variant));
        self.apply_error(origin, index, nodes, message)
    }

    /// Reports a node that should hold an enum value and holds something else.
    /// The node at `index` is named in the message, so it has to be there.
    pub fn apply_error_expected_enum(
        &mut self,
        origin: LiveErrorOrigin,
        index: usize,
        nodes: &[LiveNode],
    )
        requires
            index < nodes@.len(),
        ensures
            final(self).reports(
                *old(self),
                apply_error_diagnostic(
                    old(self).live_registry,
                    origin.text(),
                    index,
                    nodes@,
                    expected_enum_message(nodes@[index as int]),
                ),
            ),
    {
        let mut message = String::new();
        push_text(&mut message, "expected enum value type, but got ");
        push_text(&mut message, nodes[index].id.name.as_str());
        push_text(&mut message, " ");
        nodes[index].value.push_debug(&mut message);
        assert(message@ =~= expected_enum_message(nodes@[index as int]));
        self.apply_error(origin, index, nodes, message)
    }

    /// Reports a node that should open an array and holds something else.
    /// The node at `index` is named in the message, so it has to be there.
    pub fn apply_error_expected_array(
        &mut self,
        origin: LiveErrorOrigin,
        index: usize,
        nodes: &[LiveNode],
    )
        requires
            index < nodes@.len(),
        ensures
            final(self).reports(
                *old(self),
                apply_error_diagnostic(
                    old(self).live_registry,
                    origin.text(),
                    index,
                    nodes@,
                    expected_array_message(nodes@[index as int]),
                ),
            ),
    {
        let mut message = String::new();
        push_text(&mut message, "expected array, but got ");
        push_text(&mut message, nodes[index].id.name.as_str());
        push_text(&mut message, " ");
        nodes[index].value.push_debug(&mut message);
        assert(message@ =~= expected_array_message(nodes@[index as int]));
        self.apply_error(origin, index, nodes, message)
    }

    /// Reports a property that the target has no field for.
    /// The node at `index` is named in the message, so it has to be there.
    pub fn apply_error_no_matching_field(
        &mut self,
        origin: LiveErrorOrigin,
        index: usize,
        nodes: &[LiveNode],
    )
        requires
            index < nodes@.len(),
        ensures
            final(self).reports(
                *old(self),
                apply_error_diagnostic(
                    old(self).live_registry,
                    origin.text(),
                    index,
                    nodes@,
                    no_matching_field_message(nodes@[index as int]),
                ),
            ),
    {
        let mut message = String::new();
        push_text(&mut message, "no matching field: ");
        push_text(&mut message, nodes[index].id.name.as_str());
        assert(message@ =~= no_matching_field_message(nodes@[index as int]));
        self.apply_error(origin, index, nodes, message)
    }

    /// Reports a property whose value has the wrong type.
    /// The node at `index` is named in the message, so it has to be there.
    pub fn apply_error_wrong_type_for_value(
        &mut self,
        origin: LiveErrorOrigin,
        index: usize,
        nodes: &[LiveNode],
    )
        requires
            index < nodes@.len(),
        ensures
            final(self).reports(
                *old(self),
                apply_error_diagnostic(
                    old(self).live_registry,
                    origin.text(),
                    index,
                    nodes@,
                    wrong_type_for_value_message(nodes@[index as int]),
                ),
            ),
    {
        let mut message = String::new();
        push_text(&mut message, "wrong type for value: ");
        push_text(&mut message, nodes[index].id.name.as_str());
        assert(message@ =~= wrong_type_for_value_message(nodes@[index as int]));
        self.apply_error(origin, index, nodes, message)
    }

    /// Reports a component that is not known.
    pub fn apply_error_component_not_found(
        &mut self,
        origin: LiveErrorOrigin,
        index: usize,
        nodes: &[LiveNode],
        id: &LiveId,
    )
        ensures
            final(self).reports(
                *old(self),
                apply_error_diagnostic(
                    old(self).live_registry,
                    origin.text(),
                    index,
                    nodes@,
                    component_not_found_message(*id),
                ),
            ),
    {
        let mut message = String::new();
        push_text(&mut message, "component not found: ");
        push_text(&mut message, id.name.as_str());
        assert(message@ =~= component_not_found_message(*id));
        self.apply_error(origin, index, nodes, message)
    }

    /// Reports a value that does not convert to the primitive.
    /// The node at `index` is named in the message, so it has to be there.
    pub fn apply_error_wrong_value_type_for_primitive(
        &mut self,
        origin: LiveErrorOrigin,
        index: usize,
        nodes: &[LiveNode],
        prim: &str,
    )
        requires
            index < nodes@.len(),
        ensures
            final(self).reports(
                *old(self),
                apply_error_diagnostic(
                    old(self).live_registry,
                    origin.text(),
                    index,
                    nodes@,
                    wrong_value_type_for_primitive_message(prim@, nodes@[index as int]),
                ),
            ),
    {
        let mut message = String::new();
        push_text(&mut message, "wrong value type. Prop: ");
        push_text(&mut message, nodes[index].id.name.as_str());
        push_text(&mut message, " primitive: ");
        push_text(&mut message, prim);
        push_text(&mut message, " value: ");
        nodes[index].value.push_debug(&mut message);
        assert(message@ =~= wrong_value_type_for_primitive_message(prim@, nodes@[index as int]));
        self.apply_error(origin, index, nodes, message)
    }

    /// Reports an expression whose result does not convert to the primitive.
    /// The node at `index` is named in the message, so it has to be there.
    pub fn apply_error_wrong_expression_type_for_primitive(
        &mut self,
        origin: LiveErrorOrigin,
        index: usize,
        nodes: &[LiveNode],
        prim: &str,
        b: LiveEval,
    )
        requires
            index < nodes@.len(),
        ensures
            final(self).reports(
                *old(self),
                apply_error_diagnostic(
                    old(self).live_registry,
                    origin.text(),
                    index,
                    nodes@,
                    wrong_expression_type_for_primitive_message(prim@, b, nodes@[index as int]),
                ),
            ),
    {
        let mut message = String::new();
        push_text(&mut message, "wrong expression return. Prop: ");
        push_text(&mut message, nodes[index].id.name.as_str());
        push_text(&mut message, " primitive: ");
        push_text(&mut message, prim);
        push_text(&mut message, " value: ");
        b.push_debug(&mut message);
        assert(message@ =~= wrong_expression_type_for_primitive_message(prim@, b, nodes@[index as int]));
        self.apply_error(origin, index, nodes, message)
    }

    /// Reports an animation that lacks a state.
    pub fn apply_error_animation_missing_state(
        &mut self,
        origin: LiveErrorOrigin,
        index: usize,
        nodes: &[LiveNode],
        track: &LiveId,
        state_id: &LiveId,
        ids: &[LiveProp],
    )
        ensures
            final(self).reports(
                *old(self),
                apply_error_diagnostic(
                    old(self).live_registry,
                    origin.text(),
                    index,
                    nodes@,
                    animation_missing_state_message(*track, *state_id, ids@),
                ),
            ),
    {
        let mut message = String::new();
        push_text(&mut message, "animation missing state: ");
        push_text(&mut message, track.name.as_str());
        push_text(&mut message, " ");
        push_text(&mut message, state_id.name.as_str());
        push_text(&mut message, " ");
        push_props(&mut message, ids);
        assert(message@ =~= animation_missing_state_message(*track, *state_id, ids@));
        self.apply_error(origin, index, nodes, message)
    }

    /// Reports a value that belongs to another animation track than the one that runs.
    pub fn apply_error_wrong_animation_track_used(
        &mut self,
        origin: LiveErrorOrigin,
        index: usize,
        nodes: &[LiveNode],
        id: &LiveId,
        expect: &LiveId,
        got: &LiveId,
    )
        ensures
            final(self).reports(
                *old(self),
                apply_error_diagnostic(
                    old(self).live_registry,
                    origin.text(),
                    index,
                    nodes@,
                    wrong_animation_track_used_message(*id, *expect, *got),
                ),
            ),
    {
        let mut message = String::new();
        push_text(&mut message, "encountered value [");
        push_text(&mut message, id.name.as_str());
        push_text(&mut message, "] with track [");
        push_text(&mut message, expect.name.as_str());
        push_text(&mut message, "] whilst animating on track [");
        push_text(&mut message, got.name.as_str());
        push_text(&mut message, "]");
        assert(message@ =~= wrong_animation_track_used_message(*id, *expect, *got));
        self.apply_error(origin, index, nodes, message)
    }

    /// Reports an animation towards a state on a track that is not known.
    pub fn apply_error_animate_to_unknown_track(
        &mut self,
        origin: LiveErrorOrigin,
        index: usize,
        nodes: &[LiveNode],
        id: &LiveId,
        state_id: &LiveId,
    )
        ensures
            final(self).reports(
                *old(self),
                apply_error_diagnostic(
                    old(self).live_registry,
                    origin.text(),
                    index,
                    nodes@,
                    animate_to_unknown_track_message(*id, *state_id),
                ),
            ),
    {
        let mut message = String::new();
        push_text(&mut message, "unknown track ");
        push_text(&mut message, id.name.as_str());
        push_text(&mut message, " in animate_to state_id ");
        push_text(&mut message, state_id.name.as_str());
        assert(message@ =~= animate_to_unknown_track_message(*id, *state_id));
        self.apply_error(origin, index, nodes, message)
    }

    /// Reports two key frame values that cannot be interpolated.
    pub fn apply_key_frame_cannot_be_interpolated(
        &mut self,
        origin: LiveErrorOrigin,
        index: usize,
        nodes: &[LiveNode],
        a: &LiveValue,
        b: &LiveValue,
    )
        ensures
            final(self).reports(
                *old(self),
                apply_error_diagnostic(
                    old(self).live_registry,
                    origin.text(),
                    index,
                    nodes@,
                    key_frame_cannot_be_interpolated_message(*a, *b),
                ),
            ),
    {
        let mut message = String::new();
        push_text(&mut message, "key frame values cannot be interpolated ");
        a.push_debug(&mut message);
        push_text(&mut message, " ");
        b.push_debug(&mut message);
        assert(message@ =~= key_frame_cannot_be_interpolated_message(*a, *b));
        self.apply_error(origin, index, nodes, message)
    }

    /// Reports an animation state without an apply block.
    pub fn apply_animate_missing_apply_block(
        &mut self,
        origin: LiveErrorOrigin,
        index: usize,
        nodes: &[LiveNode],
    )
        ensures
            final(self).reports(
                *old(self),
                apply_error_diagnostic(
                    old(self).live_registry,
                    origin.text(),
                    index,
                    nodes@,
                    animate_missing_block_message(),
                ),
            ),
    {
        let mut message = String::new();
        push_text(&mut message, "animate missing apply:{} block");
        assert(message@ =~= animate_missing_block_message());
        self.apply_error(origin, index, nodes, message)
    }

    /// Reports a target that cannot be found.
    pub fn apply_error_cant_find_target(
        &mut self,
        origin: LiveErrorOrigin,
        index: usize,
        nodes: &[LiveNode],
        id: &LiveId,
    )
        ensures
            final(self).reports(
                *old(self),
                apply_error_diagnostic(
                    old(self).live_registry,
                    origin.text(),
                    index,
                    nodes@,
                    cant_find_target_message(*id),
                ),
            ),
    {
        let mut message = String::new();
        push_text(&mut message, "cant find target: ");
        push_text(&mut message, id.name.as_str());
        assert(message@ =~= cant_find_target_message(*id));
        self.apply_error(origin, index, nodes, message)
    }

    /// Reports an image of a type that is not supported.
    pub fn apply_image_type_not_supported(
        &mut self,
        origin: LiveErrorOrigin,
        index: usize,
        nodes: &[LiveNode],
        path: &str,
    )
        ensures
            final(self).reports(
                *old(self),
                apply_error_diagnostic(
                    old(self).live_registry,
                    origin.text(),
                    index,
                    nodes@,
                    image_type_not_supported_message(path@),
                ),
            ),
    {
        let mut message = String::new();
        push_text(&mut message, "Image type not supported ");
        push_text(&mut message, path);
        assert(message@ =~= image_type_not_supported_message(path@));
        self.apply_error(origin, index, nodes, message)
    }

    /// Reports an image that could not be decoded.
    pub fn apply_image_decoding_failed(
        &mut self,
        origin: LiveErrorOrigin,
        index: usize,
        nodes: &[LiveNode],
        path: &str,
        msg: &str,
    )
        ensures
            final(self).reports(
                *old(self),
                apply_error_diagnostic(
                    old(self).live_registry,
                    origin.text(),
                    index,
                    nodes@,
                    image_decoding_failed_message(path@, msg@),
                ),
            ),
    {
        let mut message = String::new();
        push_text(&mut message, "Image decoding failed ");
        push_text(&mut message, path);
        push_text(&mut message, " ");
        push_text(&mut message, msg);
        assert(message@ =~= image_decoding_failed_message(path@, msg@));
        self.apply_error(origin, index, nodes, message)
    }

    /// Reports a resource that is not loaded.
    pub fn apply_resource_not_loaded(
        &mut self,
        origin: LiveErrorOrigin,
        index: usize,
        nodes: &[LiveNode],
        path: &str,
        msg: &str,
    )
        ensures
            final(self).reports(
                *old(self),
                apply_error_diagnostic(
                    old(self).live_registry,
                    origin.text(),
                    index,
                    nodes@,
                    resource_not_loaded_message(path@, msg@),
                ),
            ),
    {
        let mut message = String::new();
        push_text(&mut message, "Resource not loaded ");
        push_text(&mut message, path);
        push_text(&mut message, " ");
        push_text(&mut message, msg);
        assert(message@ =~= resource_not_loaded_message(path@, msg@));
        self.apply_error(origin, index, nodes, message)
    }
}

} // verus!

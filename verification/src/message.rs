//! The messages of the apply errors, as contracts speak of them.

use vstd::prelude::*;
use crate::ids::LiveId;
use crate::node::LiveNode;
use crate::text::decimal;
use crate::value::{props_text, LiveEval, LiveProp, LiveValue};

verus! {

/// What reports a tuple enum that was given more arguments than it has.
pub open spec fn tuple_enum_arg_not_found_message(enum_id: LiveId, base: LiveId, arg: usize) -> Seq<char> {
    "tuple enum too many args for "@
        + enum_id.name@
        + "::"@
        + base.name@
        + " arg no "@
        + decimal(arg as nat)
}

/// What reports a named enum that was given a property it does not have.
pub open spec fn named_enum_invalid_prop_message(enum_id: LiveId, base: LiveId, prop: LiveId) -> Seq<char> {
    "named enum invalid property for "@
        + enum_id.name@
        + "::"@
        + base.name@
        + " prop: "@
        + prop.name@
}

/// What reports an enum value of another enum than the one expected.
pub open spec fn wrong_enum_base_message(enum_id: LiveId, base: LiveId) -> Seq<char> {
    "wrong enum base expected: "@
        + enum_id.name@
        + " got: "@
        + base.name@
}

/// What reports a struct of another name than the one expected.
pub open spec fn wrong_struct_name_message(struct_id: LiveId, got_id: LiveId) -> Seq<char> {
    "wrong struct name expected: "@
        + struct_id.name@
        + " got: "@
        + got_id.name@
}

/// What reports a node whose value cannot fill the struct.
pub open spec fn wrong_type_for_struct_message(struct_id: LiveId, node: LiveNode) -> Seq<char> {
    "wrong type for struct: "@
        + struct_id.name@
        + " prop: "@
        + node.id.name@
        + " type:"@
        + node.value.debug_text()
}

/// What reports a variant that the enum does not have.
pub open spec fn wrong_enum_variant_message(enum_id: LiveId, variant: LiveId) -> Seq<char> {
    "wrong enum variant for enum: "@
        + enum_id.name@
        + " got variant: "@
        + variant.name@
}

/// What reports a node that should hold an enum value and holds something else.
pub open spec fn expected_enum_message(node: LiveNode) -> Seq<char> {
    "expected enum value type, but got "@
        + node.id.name@
        + " "@
        + node.value.debug_text()
}

/// What reports a node that should open an array and holds something else.
pub open spec fn expected_array_message(node: LiveNode) -> Seq<char> {
    "expected array, but got "@
        + node.id.name@
        + " "@
        + node.value.debug_text()
}

/// What reports a property that the target has no field for.
pub open spec fn no_matching_field_message(node: LiveNode) -> Seq<char> {
    "no matching field: "@
        + node.id.name@
}

/// What reports a property whose value has the wrong type.
pub open spec fn wrong_type_for_value_message(node: LiveNode) -> Seq<char> {
    "wrong type for value: "@
        + node.id.name@
}

/// What reports a component that is not known.
pub open spec fn component_not_found_message(id: LiveId) -> Seq<char> {
    "component not found: "@
        + id.name@
}

/// What reports a value that does not convert to the primitive.
pub open spec fn wrong_value_type_for_primitive_message(prim: Seq<char>, node: LiveNode) -> Seq<char> {
    "wrong value type. Prop: "@
        + node.id.name@
        + " primitive: "@
        + prim
        + " value: "@
        + node.value.debug_text()
}

/// What reports an expression whose result does not convert to the primitive.
pub open spec fn wrong_expression_type_for_primitive_message(prim: Seq<char>, b: LiveEval, node: LiveNode) -> Seq<char> {
    "wrong expression return. Prop: "@
        + node.id.name@
        + " primitive: "@
        + prim
        + " value: "@
        + b.debug_text()
}

/// What reports an animation that lacks a state.
pub open spec fn animation_missing_state_message(track: LiveId, state_id: LiveId, ids: Seq<LiveProp>) -> Seq<char> {
    "animation missing state: "@
        + track.name@
        + " "@
        + state_id.name@
        + " "@
        + props_text(ids)
}

/// What reports a value that belongs to another animation track than the one that runs.
pub open spec fn wrong_animation_track_used_message(id: LiveId, expect: LiveId, got: LiveId) -> Seq<char> {
    "encountered value ["@
        + id.name@
        + "] with track ["@
        + expect.name@
        + "] whilst animating on track ["@
        + got.name@
        + "]"@
}

/// What reports an animation towards a state on a track that is not known.
pub open spec fn animate_to_unknown_track_message(id: LiveId, state_id: LiveId) -> Seq<char> {
    "unknown track "@
        + id.name@
        + " in animate_to state_id "@
        + state_id.name@
}

/// What reports two key frame values that cannot be interpolated.
pub open spec fn key_frame_cannot_be_interpolated_message(a: LiveValue, b: LiveValue) -> Seq<char> {
    "key frame values cannot be interpolated "@
        + a.debug_text()
        + " "@
        + b.debug_text()
}

/// What reports an animation state without an apply block.
pub open spec fn animate_missing_block_message() -> Seq<char> {
    "animate missing apply:{} block"@
}

/// What reports a target that cannot be found.
pub open spec fn cant_find_target_message(id: LiveId) -> Seq<char> {
    "cant find target: "@
        + id.name@
}

/// What reports an image of a type that is not supported.
pub open spec fn image_type_not_supported_message(path: Seq<char>) -> Seq<char> {
    "Image type not supported "@
        + path
}

/// What reports an image that could not be decoded.
pub open spec fn image_decoding_failed_message(path: Seq<char>, msg: Seq<char>) -> Seq<char> {
    "Image decoding failed "@
        + path
        + " "@
        + msg
}

/// What reports a resource that is not loaded.
pub open spec fn resource_not_loaded_message(path: Seq<char>, msg: Seq<char>) -> Seq<char> {
    "Resource not loaded "@
        + path
        + " "@
        + msg
}

} // verus!

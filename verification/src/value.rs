//! Live values: the tagged union that document nodes carry, and the
//! conversions that buffer patching reads.
//!
//! Numbers that end up in runtime buffers are single-precision. A value holds
//! each such number as its IEEE-754 bit pattern, so that patching moves bits
//! and never rounds.

use vstd::prelude::*;
use crate::ids::LiveId;
use crate::text::{decimal, signed_decimal, push_decimal, push_signed_decimal, push_text};

verus! {

/// Two single-precision components, each as its bit pattern.
#[derive(Clone, Copy, Debug, PartialEq, Eq, Structural)]
pub struct LiveVec2 {
    pub x: u32,
    pub y: u32,
}

/// Three single-precision components, each as its bit pattern.
#[derive(Clone, Copy, Debug, PartialEq, Eq, Structural)]
pub struct LiveVec3 {
    pub x: u32,
    pub y: u32,
    pub z: u32,
}

/// Four single-precision components, each as its bit pattern.
#[derive(Clone, Copy, Debug, PartialEq, Eq, Structural)]
pub struct LiveVec4 {
    pub x: u32,
    pub y: u32,
    pub z: u32,
    pub w: u32,
}

/// What evaluating an expression gave.
#[derive(Clone, Debug, PartialEq, Eq)]
pub enum LiveEval {
    Void,
    Bool(bool),
    /// An integer, with the single-precision number that stands for it.
    Int64 { value: i64, single: u32 },
    Float { single: u32 },
    Vec2(LiveVec2),
    Vec3(LiveVec3),
    Vec4(LiveVec4),
}

/// The value of a document node.
#[derive(Clone, Debug, PartialEq, Eq)]
pub enum LiveValue {
    Bool(bool),
    /// An integer, with the single-precision number that stands for it.
    Int64 { value: i64, single: u32 },
    Float { single: u32 },
    Vec2(LiveVec2),
    Vec3(LiveVec3),
    Vec4(LiveVec4),
    Str(String),
    /// An enum value without a body.
    BareEnum(LiveId),
    /// Opens an enum value with named fields.
    NamedEnum(LiveId),
    /// Opens an enum value with positional arguments.
    TupleEnum(LiveId),
    /// Opens an object.
    Object,
    /// Opens an array.
    Array,
    /// Closes the innermost open object, array or enum.
    Close,
    /// A reference to an external resource, by its path as written.
    Dependency(String),
    /// The result of an expression.
    Expr(LiveEval),
}

/// How a property is bound to its owner.
#[derive(Clone, Copy, Debug, PartialEq, Eq, Structural)]
pub enum LivePropType {
    Field,
    Instance,
}

/// A property: its name and how it is bound.
#[derive(Clone, Debug, PartialEq, Eq)]
pub struct LiveProp {
    pub id: LiveId,
    pub kind: LivePropType,
}

/// The text that shows a single-precision bit pattern: `#` and the pattern
/// in decimal.
pub open spec fn single_text(bits: u32) -> Seq<char> {
    "#"@ + decimal(bits as nat)
}

/// Appends the text of a single-precision bit pattern.
pub fn push_single(out: &mut String, bits: u32)
    ensures
        final(out)@ == old(out)@ + single_text(bits),
{
    push_text(out, "#");
    push_decimal(out, bits as u64);
    assert(out@ =~= old(out)@ + single_text(bits));
}

/// The text of a boolean: `true` or `false`.
pub open spec fn bool_text(b: bool) -> Seq<char> {
    if b {
        "true"@
    } else {
        "false"@
    }
}

impl LiveVec2 {
    pub open spec fn debug_text(self) -> Seq<char> {
        "Vec2("@ + single_text(self.x) + ", "@ + single_text(self.y) + ")"@
    }

    /// Appends the diagnostic text of the vector.
    pub fn push_debug(&self, out: &mut String)
        ensures
            final(out)@ == old(out)@ + self.debug_text(),
    {
        push_text(out, "Vec2(");
        push_single(out, self.x);
        push_text(out, ", ");
        push_single(out, self.y);
        push_text(out, ")");
        assert(out@ =~= old(out)@ + self.debug_text());
    }
}

impl LiveVec3 {
    pub open spec fn debug_text(self) -> Seq<char> {
        "Vec3("@ + single_text(self.x) + ", "@ + single_text(self.y) + ", "@ + single_text(self.z)
            + ")"@
    }

    /// Appends the diagnostic text of the vector.
    pub fn push_debug(&self, out: &mut String)
        ensures
            final(out)@ == old(out)@ + self.debug_text(),
    {
        push_text(out, "Vec3(");
        push_single(out, self.x);
        push_text(out, ", ");
        push_single(out, self.y);
        push_text(out, ", ");
        push_single(out, self.z);
        push_text(out, ")");
        assert(out@ =~= old(out)@ + self.debug_text());
    }
}

impl LiveVec4 {
    pub open spec fn debug_text(self) -> Seq<char> {
        "Vec4("@ + single_text(self.x) + ", "@ + single_text(self.y) + ", "@ + single_text(self.z)
            + ", "@ + single_text(self.w) + ")"@
    }

    /// Appends the diagnostic text of the vector.
    pub fn push_debug(&self, out: &mut String)
        ensures
            final(out)@ == old(out)@ + self.debug_text(),
    {
        push_text(out, "Vec4(");
        push_single(out, self.x);
        push_text(out, ", ");
        push_single(out, self.y);
        push_text(out, ", ");
        push_single(out, self.z);
        push_text(out, ", ");
        push_single(out, self.w);
        push_text(out, ")");
        assert(out@ =~= old(out)@ + self.debug_text());
    }
}

impl LiveEval {
    /// The scalar that the result stands for, if it is a number.
    pub open spec fn spec_as_float(&self) -> Option<u32> {
        match *self {
            LiveEval::Float { single } => Some(single),
            LiveEval::Int64 { value, single } => Some(single),
            _ => None,
        }
    }

    pub open spec fn spec_as_vec2(&self) -> Option<LiveVec2> {
        match *self {
            LiveEval::Vec2(v) => Some(v),
            _ => None,
        }
    }

    pub open spec fn spec_as_vec3(&self) -> Option<LiveVec3> {
        match *self {
            LiveEval::Vec3(v) => Some(v),
            _ => None,
        }
    }

    pub open spec fn spec_as_vec4(&self) -> Option<LiveVec4> {
        match *self {
            LiveEval::Vec4(v) => Some(v),
            _ => None,
        }
    }

    /// The scalar that the result stands for: a float is itself, an integer
    /// is the single-precision number held beside it; nothing else converts.
    #[verifier::when_used_as_spec(spec_as_float)]
    pub fn as_float(&self) -> (r: Option<u32>)
        ensures
            r == self.spec_as_float(),
    {
        match self {
            LiveEval::Float { single } => Some(*single),
            LiveEval::Int64 { value: _, single } => Some(*single),
            _ => None,
        }
    }

    /// The two components, if the result is a 2-vector.
    #[verifier::when_used_as_spec(spec_as_vec2)]
    pub fn as_vec2(&self) -> (r: Option<LiveVec2>)
        ensures
            r == self.spec_as_vec2(),
    {
        match self {
            LiveEval::Vec2(v) => Some(*v),
            _ => None,
        }
    }

    /// The three components, if the result is a 3-vector.
    #[verifier::when_used_as_spec(spec_as_vec3)]
    pub fn as_vec3(&self) -> (r: Option<LiveVec3>)
        ensures
            r == self.spec_as_vec3(),
    {
        match self {
            LiveEval::Vec3(v) => Some(*v),
            _ => None,
        }
    }

    /// The four components, if the result is a 4-vector.
    #[verifier::when_used_as_spec(spec_as_vec4)]
    pub fn as_vec4(&self) -> (r: Option<LiveVec4>)
        ensures
            r == self.spec_as_vec4(),
    {
        match self {
            LiveEval::Vec4(v) => Some(*v),
            _ => None,
        }
    }

    /// The text that diagnostics show for the result.
    pub open spec fn debug_text(self) -> Seq<char> {
        match self {
            LiveEval::Void => "Void"@,
            LiveEval::Bool(b) => "Bool("@ + bool_text(b) + ")"@,
            LiveEval::Int64 { value, single } => "Int64("@ + signed_decimal(value as int) + ")"@,
            LiveEval::Float { single } => "Float("@ + single_text(single) + ")"@,
            LiveEval::Vec2(v) => v.debug_text(),
            LiveEval::Vec3(v) => v.debug_text(),
            LiveEval::Vec4(v) => v.debug_text(),
        }
    }

    /// Appends the diagnostic text of the result.
    pub fn push_debug(&self, out: &mut String)
        ensures
            final(out)@ == old(out)@ + self.debug_text(),
    {
        match self {
            LiveEval::Void => {
                push_text(out, "Void");
            },
            LiveEval::Bool(b) => {
                push_text(out, "Bool(");
                if *b {
                    push_text(out, "true");
                } else {
                    push_text(out, "false");
                }
                push_text(out, ")");
            },
            LiveEval::Int64 { value, single: _ } => {
                push_text(out, "Int64(");
                push_signed_decimal(out, *value);
                push_text(out, ")");
            },
            LiveEval::Float { single } => {
                push_text(out, "Float(");
                push_single(out, *single);
                push_text(out, ")");
            },
            LiveEval::Vec2(v) => {
                v.push_debug(out);
            },
            LiveEval::Vec3(v) => {
                v.push_debug(out);
            },
            LiveEval::Vec4(v) => {
                v.push_debug(out);
            },
        }
        assert(out@ =~= old(out)@ + self.debug_text());
    }
}

impl LiveValue {
    /// The scalar that the value stands for, if it is a number.
    pub open spec fn spec_as_float(&self) -> Option<u32> {
        match *self {
            LiveValue::Float { single } => Some(single),
            LiveValue::Int64 { value, single } => Some(single),
            LiveValue::Expr(e) => e.spec_as_float(),
            _ => None,
        }
    }

    pub open spec fn spec_as_vec2(&self) -> Option<LiveVec2> {
        match *self {
            LiveValue::Vec2(v) => Some(v),
            LiveValue::Expr(e) => e.spec_as_vec2(),
            _ => None,
        }
    }

    pub open spec fn spec_as_vec3(&self) -> Option<LiveVec3> {
        match *self {
            LiveValue::Vec3(v) => Some(v),
            LiveValue::Expr(e) => e.spec_as_vec3(),
            _ => None,
        }
    }

    pub open spec fn spec_as_vec4(&self) -> Option<LiveVec4> {
        match *self {
            LiveValue::Vec4(v) => Some(v),
            LiveValue::Expr(e) => e.spec_as_vec4(),
            _ => None,
        }
    }

    /// Whether the value is a reference to an external resource.
    pub open spec fn spec_is_dependency(&self) -> bool {
        *self is Dependency
    }

    /// The scalar that the value stands for: a float is itself, an integer
    /// is the single-precision number held beside it, an expression result
    /// converts as its result does; nothing else converts.
    #[verifier::when_used_as_spec(spec_as_float)]
    pub fn as_float(&self) -> (r: Option<u32>)
        ensures
            r == self.spec_as_float(),
    {
        match self {
            LiveValue::Float { single } => Some(*single),
            LiveValue::Int64 { value: _, single } => Some(*single),
            LiveValue::Expr(e) => e.as_float(),
            _ => None,
        }
    }

    /// The two components, if the value is a 2-vector or an expression
    /// result that is one.
    #[verifier::when_used_as_spec(spec_as_vec2)]
    pub fn as_vec2(&self) -> (r: Option<LiveVec2>)
        ensures
            r == self.spec_as_vec2(),
    {
        match self {
            LiveValue::Vec2(v) => Some(*v),
            LiveValue::Expr(e) => e.as_vec2(),
            _ => None,
        }
    }

    /// The three components, if the value is a 3-vector or an expression
    /// result that is one.
    #[verifier::when_used_as_spec(spec_as_vec3)]
    pub fn as_vec3(&self) -> (r: Option<LiveVec3>)
        ensures
            r == self.spec_as_vec3(),
    {
        match self {
            LiveValue::Vec3(v) => Some(*v),
            LiveValue::Expr(e) => e.as_vec3(),
            _ => None,
        }
    }

    /// The four components, if the value is a 4-vector or an expression
    /// result that is one.
    #[verifier::when_used_as_spec(spec_as_vec4)]
    pub fn as_vec4(&self) -> (r: Option<LiveVec4>)
        ensures
            r == self.spec_as_vec4(),
    {
        match self {
            LiveValue::Vec4(v) => Some(*v),
            LiveValue::Expr(e) => e.as_vec4(),
            _ => None,
        }
    }

    /// Whether the value is a reference to an external resource.
    #[verifier::when_used_as_spec(spec_is_dependency)]
    pub fn is_dependency(&self) -> (r: bool)
        ensures
            r == self.spec_is_dependency(),
    {
        match self {
            LiveValue::Dependency(_) => true,
            _ => false,
        }
    }

    /// The text that diagnostics show for the value.
    pub open spec fn debug_text(self) -> Seq<char> {
        match self {
            LiveValue::Bool(b) => "Bool("@ + bool_text(b) + ")"@,
            LiveValue::Int64 { value, single } => "Int64("@ + signed_decimal(value as int) + ")"@,
            LiveValue::Float { single } => "Float("@ + single_text(single) + ")"@,
            LiveValue::Vec2(v) => v.debug_text(),
            LiveValue::Vec3(v) => v.debug_text(),
            LiveValue::Vec4(v) => v.debug_text(),
            LiveValue::Str(s) => "Str(\""@ + s@ + "\")"@,
            LiveValue::BareEnum(id) => "BareEnum("@ + id.name@ + ")"@,
            LiveValue::NamedEnum(id) => "NamedEnum("@ + id.name@ + ")"@,
            LiveValue::TupleEnum(id) => "TupleEnum("@ + id.name@ + ")"@,
            LiveValue::Object => "Object"@,
            LiveValue::Array => "Array"@,
            LiveValue::Close => "Close"@,
            LiveValue::Dependency(path) => "Dependency(\""@ + path@ + "\")"@,
            LiveValue::Expr(e) => "Expr("@ + e.debug_text() + ")"@,
        }
    }

    /// Appends the diagnostic text of the value.
    pub fn push_debug(&self, out: &mut String)
        ensures
            final(out)@ == old(out)@ + self.debug_text(),
    {
        match self {
            LiveValue::Bool(b) => {
                push_text(out, "Bool(");
                if *b {
                    push_text(out, "true");
                } else {
                    push_text(out, "false");
                }
                push_text(out, ")");
            },
            LiveValue::Int64 { value, single: _ } => {
                push_text(out, "Int64(");
                push_signed_decimal(out, *value);
                push_text(out, ")");
            },
            LiveValue::Float { single } => {
                push_text(out, "Float(");
                push_single(out, *single);
                push_text(out, ")");
            },
            LiveValue::Vec2(v) => {
                v.push_debug(out);
            },
            LiveValue::Vec3(v) => {
                v.push_debug(out);
            },
            LiveValue::Vec4(v) => {
                v.push_debug(out);
            },
            LiveValue::Str(s) => {
                push_text(out, "Str(\"");
                push_text(out, s.as_str());
                push_text(out, "\")");
            },
            LiveValue::BareEnum(id) => {
                push_text(out, "BareEnum(");
                push_text(out, id.name.as_str());
                push_text(out, ")");
            },
            LiveValue::NamedEnum(id) => {
                push_text(out, "NamedEnum(");
                push_text(out, id.name.as_str());
                push_text(out, ")");
            },
            LiveValue::TupleEnum(id) => {
                push_text(out, "TupleEnum(");
                push_text(out, id.name.as_str());
                push_text(out, ")");
            },
            LiveValue::Object => {
                push_text(out, "Object");
            },
            LiveValue::Array => {
                push_text(out, "Array");
            },
            LiveValue::Close => {
                push_text(out, "Close");
            },
            LiveValue::Dependency(path) => {
                push_text(out, "Dependency(\"");
                push_text(out, path.as_str());
                push_text(out, "\")");
            },
            LiveValue::Expr(e) => {
                push_text(out, "Expr(");
                e.push_debug(out);
                push_text(out, ")");
            },
        }
        assert(out@ =~= old(out)@ + self.debug_text());
    }
}

impl LiveProp {
    /// The text that diagnostics show for the property: its name, with
    /// `instance ` in front when it is bound as an instance.
    pub open spec fn debug_text(self) -> Seq<char> {
        match self.kind {
            LivePropType::Field => self.id.name@,
            LivePropType::Instance => "instance "@ + self.id.name@,
        }
    }

    /// Appends the diagnostic text of the property.
    pub fn push_debug(&self, out: &mut String)
        ensures
            final(out)@ == old(out)@ + self.debug_text(),
    {
        match self.kind {
            LivePropType::Field => {},
            LivePropType::Instance => {
                push_text(out, "instance ");
            },
        }
        push_text(out, self.id.name.as_str());
        assert(out@ =~= old(out)@ + self.debug_text());
    }
}

/// The texts of the first `n` properties, each after the first with `, `
/// in front.
pub open spec fn props_joined(props: Seq<LiveProp>, n: int) -> Seq<char>
    decreases n,
{
    if n <= 0 {
        Seq::<char>::empty()
    } else if n == 1 {
        props[0].debug_text()
    } else {
        props_joined(props, n - 1) + ", "@ + props[n - 1].debug_text()
    }
}

/// The text that diagnostics show for a list of properties: the properties'
/// texts, separated by `, `, in square brackets.
pub open spec fn props_text(props: Seq<LiveProp>) -> Seq<char> {
    "["@ + props_joined(props, props.len() as int) + "]"@
}

/// Appends the diagnostic text of a list of properties.
pub fn push_props(out: &mut String, props: &[LiveProp])
    ensures
        final(out)@ == old(out)@ + props_text(props@),
{
    push_text(out, "[");
    let mut i: usize = 0;
    while i < props.len()
        invariant
            i <= props.len(),
            out@ == old(out)@ + "["@ + props_joined(props@, i as int),
        decreases props.len() - i,
    {
        if i > 0 {
            push_text(out, ", ");
        }
        props[i].push_debug(out);
        assert(out@ =~= old(out)@ + "["@ + props_joined(props@, i + 1));
        i += 1;
    }
    push_text(out, "]");
    assert(out@ =~= old(out)@ + props_text(props@));
}

} // verus!

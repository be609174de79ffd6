//! Shader instance state that live edits patch: the uniform inputs bound to
//! node pointers, the constant table bound to tokens, and the flat buffers
//! behind them.
//!
//! Offsets and arities are fixed when a shader is compiled. An edit changes
//! what the buffers hold and nothing else.

use vstd::prelude::*;
use crate::ids::{LivePtr, LiveTokenId};
use crate::registry::LiveRegistry;
use crate::token::LiveToken;
use crate::value::{LiveValue, LiveVec2, LiveVec3, LiveVec4};

verus! {

/// A uniform input: the node it is bound to, if any, the slot where its
/// first component lies in the uniform buffer, and its arity.
#[derive(Clone, Copy, Debug, PartialEq, Eq, Structural)]
pub struct DrawShaderInput {
    pub live_ptr: Option<LivePtr>,
    pub offset: usize,
    pub slots: usize,
}

/// The uniform inputs of a shader, in declaration order.
#[derive(Clone, Debug, PartialEq, Eq)]
pub struct DrawShaderInputs {
    pub inputs: Vec<DrawShaderInput>,
}

/// A constant: the token it was read from, the slot where its first
/// component lies in the constant table, and its arity.
#[derive(Clone, Copy, Debug, PartialEq, Eq, Structural)]
pub struct DrawShaderConstTableItem {
    pub token_id: LiveTokenId,
    pub offset: usize,
    pub slots: usize,
}

/// The constants of a shader: the flat table and the index into it.
#[derive(Clone, Debug, PartialEq, Eq)]
pub struct DrawShaderConstTable {
    pub table: Vec<u32>,
    pub table_index: Vec<DrawShaderConstTableItem>,
}

/// What binds one shader instance to live documents.
#[derive(Clone, Debug, PartialEq, Eq)]
pub struct CxDrawShaderMapping {
    pub live_uniforms: DrawShaderInputs,
    pub live_uniforms_buf: Vec<u32>,
    pub const_table: DrawShaderConstTable,
}

/// One shader instance.
#[derive(Clone, Debug, PartialEq, Eq)]
pub struct CxDrawShader {
    pub mapping: CxDrawShaderMapping,
}

/// All shader instances.
#[derive(Clone, Debug, PartialEq, Eq)]
pub struct CxDrawShaders {
    pub shaders: Vec<CxDrawShader>,
}

/// An arity that patching writes: one scalar or a vector of two, three or
/// four components.
pub open spec fn is_arity(slots: int) -> bool {
    1 <= slots <= 4
}

/// `slots` components at `offset` lie inside a buffer of `len` slots. An
/// arity that patching does not write fits anywhere.
pub open spec fn fits(offset: int, slots: int, len: int) -> bool {
    is_arity(slots) ==> offset + slots <= len
}

/// The scalar, or zero where there is none.
pub open spec fn scalar_or_zero(v: Option<u32>) -> u32 {
    match v {
        Some(x) => x,
        None => 0,
    }
}

/// The components of the 2-vector, or zeros where there is none.
pub open spec fn vec2_or_zero(v: Option<LiveVec2>) -> Seq<u32> {
    match v {
        Some(c) => seq![c.x, c.y],
        None => seq![0u32, 0u32],
    }
}

/// The components of the 3-vector, or zeros where there is none.
pub open spec fn vec3_or_zero(v: Option<LiveVec3>) -> Seq<u32> {
    match v {
        Some(c) => seq![c.x, c.y, c.z],
        None => seq![0u32, 0u32, 0u32],
    }
}

/// The components of the 4-vector, or zeros where there is none.
pub open spec fn vec4_or_zero(v: Option<LiveVec4>) -> Seq<u32> {
    match v {
        Some(c) => seq![c.x, c.y, c.z, c.w],
        None => seq![0u32, 0u32, 0u32, 0u32],
    }
}

/// `slots` zeros for an arity, nothing for any other count.
pub open spec fn zero_components(slots: int) -> Seq<u32> {
    if is_arity(slots) {
        Seq::new(slots as nat, |i: int| 0u32)
    } else {
        Seq::<u32>::empty()
    }
}

/// What a value gives for an input of arity `slots`: arity 1 takes the
/// value as a scalar, arities 2 to 4 take it as a vector of that size, and
/// a value that does not convert gives zeros. Any other count gives
/// nothing.
pub open spec fn value_components(slots: int, v: LiveValue) -> Seq<u32> {
    if slots == 1 {
        seq![scalar_or_zero(v.spec_as_float())]
    } else if slots == 2 {
        vec2_or_zero(v.spec_as_vec2())
    } else if slots == 3 {
        vec3_or_zero(v.spec_as_vec3())
    } else if slots == 4 {
        vec4_or_zero(v.spec_as_vec4())
    } else {
        Seq::<u32>::empty()
    }
}

/// What a token gives for a constant of arity `slots`: arity 1 takes the
/// literal as a scalar and arity 4 takes it as a color; no token is a
/// vector of two or three, so those arities give zeros, as does a token
/// that does not convert. Any other count gives nothing.
pub open spec fn token_components(slots: int, token: LiveToken) -> Seq<u32> {
    if slots == 1 {
        seq![scalar_or_zero(token.spec_as_float())]
    } else if slots == 4 {
        vec4_or_zero(token.spec_as_vec4())
    } else {
        zero_components(slots)
    }
}

/// The buffer with `components` written from slot `offset` on, and every
/// other slot as it was.
pub open spec fn write_components(buf: Seq<u32>, offset: int, components: Seq<u32>) -> Seq<u32> {
    Seq::new(
        buf.len(),
        |i: int|
            if offset <= i < offset + components.len() {
                components[i - offset]
            } else {
                buf[i]
            },
    )
}

/// Writes up to four components from slot `offset` on.
fn write_slots(output: &mut Vec<u32>, offset: usize, components: [u32; 4], count: usize)
    requires
        count <= 4,
        offset + count <= old(output)@.len(),
    ensures
        final(output)@ == write_components(
            old(output)@,
            offset as int,
            components@.subrange(0, count as int),
        ),
{
    let len: usize = output.len();
    let mut k: usize = 0;
    while k < count
        invariant
            k <= count <= 4,
            output@.len() == len,
            offset + count <= len,
            output@ == write_components(
                old(output)@,
                offset as int,
                components@.subrange(0, k as int),
            ),
        decreases count - k,
    {
        output[offset + k] = components[k];
        assert(output@ =~= write_components(
            old(output)@,
            offset as int,
            components@.subrange(0, k + 1),
        ));
        k += 1;
    }
}

/// Writes what `v` gives for arity `slots` into `output` from slot `offset`
/// on. Exactly `slots` slots are written for an arity from 1 to 4, and none
/// for any other count; no other slot changes.
pub fn update_buffer_from_live_value(
    slots: usize,
    output: &mut Vec<u32>,
    offset: usize,
    v: &LiveValue,
)
    requires
        fits(offset as int, slots as int, old(output)@.len() as int),
    ensures
        final(output)@ == write_components(
            old(output)@,
            offset as int,
            value_components(slots as int, *v),
        ),
{
    if slots == 1 {
        let x: u32 = match v.as_float() {
            Some(x) => x,
            None => 0,
        };
        let components: [u32; 4] = [x, 0, 0, 0];
        write_slots(output, offset, components, 1);
        assert(components@.subrange(0, 1) =~= value_components(1, *v));
    } else if slots == 2 {
        let c = match v.as_vec2() {
            Some(c) => c,
            None => LiveVec2 { x: 0, y: 0 },
        };
        let components: [u32; 4] = [c.x, c.y, 0, 0];
        write_slots(output, offset, components, 2);
        assert(components@.subrange(0, 2) =~= value_components(2, *v));
    } else if slots == 3 {
        let c = match v.as_vec3() {
            Some(c) => c,
            None => LiveVec3 { x: 0, y: 0, z: 0 },
        };
        let components: [u32; 4] = [c.x, c.y, c.z, 0];
        write_slots(output, offset, components, 3);
        assert(components@.subrange(0, 3) =~= value_components(3, *v));
    } else if slots == 4 {
        let c = match v.as_vec4() {
            Some(c) => c,
            None => LiveVec4 { x: 0, y: 0, z: 0, w: 0 },
        };
        let components: [u32; 4] = [c.x, c.y, c.z, c.w];
        write_slots(output, offset, components, 4);
        assert(components@.subrange(0, 4) =~= value_components(4, *v));
    } else {
        assert(output@ =~= write_components(
            old(output)@,
            offset as int,
            value_components(slots as int, *v),
        ));
    }
}

/// Writes what `v` gives for arity `slots` into `output` from slot `offset`
/// on. Exactly `slots` slots are written for an arity from 1 to 4, and none
/// for any other count; no other slot changes.
pub fn update_buffer_from_live_token(
    slots: usize,
    output: &mut Vec<u32>,
    offset: usize,
    v: &LiveToken,
)
    requires
        fits(offset as int, slots as int, old(output)@.len() as int),
    ensures
        final(output)@ == write_components(
            old(output)@,
            offset as int,
            token_components(slots as int, *v),
        ),
{
    if slots == 1 {
        let x: u32 = match v.as_float() {
            Some(x) => x,
            None => 0,
        };
        let components: [u32; 4] = [x, 0, 0, 0];
        write_slots(output, offset, components, 1);
        assert(components@.subrange(0, 1) =~= token_components(1, *v));
    } else if slots == 4 {
        let c = match v.as_vec4() {
            Some(c) => c,
            None => LiveVec4 { x: 0, y: 0, z: 0, w: 0 },
        };
        let components: [u32; 4] = [c.x, c.y, c.z, c.w];
        write_slots(output, offset, components, 4);
        assert(components@.subrange(0, 4) =~= token_components(4, *v));
    } else {
        clear_buffer_slots(slots, output, offset);
    }
}

/// Writes zeros for arity `slots` into `output` from slot `offset` on:
/// what patching writes where no value can be had.
pub fn clear_buffer_slots(slots: usize, output: &mut Vec<u32>, offset: usize)
    requires
        fits(offset as int, slots as int, old(output)@.len() as int),
    ensures
        final(output)@ == write_components(
            old(output)@,
            offset as int,
            zero_components(slots as int),
        ),
{
    if 1 <= slots && slots <= 4 {
        let components: [u32; 4] = [0, 0, 0, 0];
        write_slots(output, offset, components, slots);
        assert(components@.subrange(0, slots as int) =~= zero_components(slots as int));
    } else {
        assert(output@ =~= write_components(
            old(output)@,
            offset as int,
            zero_components(slots as int),
        ));
    }
}

/// Writing components sets exactly as many consecutive slots as there are
/// components, starting at the offset, to the components in order, and
/// leaves every other slot and the length of the buffer as they were.
pub proof fn law_write_is_arity_exact(buf: Seq<u32>, offset: int, components: Seq<u32>)
    requires
        0 <= offset,
        offset + components.len() <= buf.len(),
    ensures
        write_components(buf, offset, components).len() == buf.len(),
        forall|i: int|
            offset <= i < offset + components.len() ==> #[trigger] write_components(
                buf,
                offset,
                components,
            )[i] == components[i - offset],
        forall|i: int|
            0 <= i < buf.len() && !(offset <= i < offset + components.len())
                ==> #[trigger] write_components(buf, offset, components)[i] == buf[i],
{
}

/// For each arity from 1 to 4, a value and a token give exactly that many
/// components, and so does the default; any other count gives none.
pub proof fn law_components_match_arity(slots: int, v: LiveValue, token: LiveToken)
    ensures
        is_arity(slots) ==> value_components(slots, v).len() == slots,
        is_arity(slots) ==> token_components(slots, token).len() == slots,
        is_arity(slots) ==> zero_components(slots).len() == slots,
        !is_arity(slots) ==> value_components(slots, v).len() == 0,
        !is_arity(slots) ==> token_components(slots, token).len() == 0,
        !is_arity(slots) ==> zero_components(slots).len() == 0,
{
}

/// Arity-correct patching of uniforms and constants: for each arity from 1
/// to 4, patching from a value or from a token sets exactly that many
/// consecutive slots, from the declared offset on, to the components that
/// the value or token gives, and leaves every other slot and the length of
/// the buffer as they were.
pub proof fn law_arity_correct_patching(
    buf: Seq<u32>,
    offset: int,
    slots: int,
    v: LiveValue,
    token: LiveToken,
)
    requires
        is_arity(slots),
        0 <= offset,
        offset + slots <= buf.len(),
    ensures
        write_components(buf, offset, value_components(slots, v)).len() == buf.len(),
        write_components(buf, offset, token_components(slots, token)).len() == buf.len(),
        forall|i: int|
            offset <= i < offset + slots ==> #[trigger] write_components(
                buf,
                offset,
                value_components(slots, v),
            )[i] == value_components(slots, v)[i - offset],
        forall|i: int|
            offset <= i < offset + slots ==> #[trigger] write_components(
                buf,
                offset,
                token_components(slots, token),
            )[i] == token_components(slots, token)[i - offset],
        forall|i: int|
            0 <= i < buf.len() && !(offset <= i < offset + slots) ==> #[trigger] write_components(
                buf,
                offset,
                value_components(slots, v),
            )[i] == buf[i],
        forall|i: int|
            0 <= i < buf.len() && !(offset <= i < offset + slots) ==> #[trigger] write_components(
                buf,
                offset,
                token_components(slots, token),
            )[i] == buf[i],
{
    law_components_match_arity(slots, v, token);
    law_write_is_arity_exact(buf, offset, value_components(slots, v));
    law_write_is_arity_exact(buf, offset, token_components(slots, token));
}

/// The first input from index `from` on that is bound to `ptr`. Pointers
/// are compared by identity: file, index and generation.
pub open spec fn find_input(inputs: Seq<DrawShaderInput>, ptr: LivePtr, from: int) -> Option<int>
    decreases inputs.len() - from,
{
    if from < 0 || from >= inputs.len() {
        None
    } else if inputs[from].live_ptr == Some(ptr) {
        Some(from)
    } else {
        find_input(inputs, ptr, from + 1)
    }
}

/// The first constant from index `from` on that was read from `token_id`.
pub open spec fn find_const(
    index: Seq<DrawShaderConstTableItem>,
    token_id: LiveTokenId,
    from: int,
) -> Option<int>
    decreases index.len() - from,
{
    if from < 0 || from >= index.len() {
        None
    } else if index[from].token_id == token_id {
        Some(from)
    } else {
        find_const(index, token_id, from + 1)
    }
}

/// What the node behind `ptr` gives for arity `slots` now. A pointer that
/// does not resolve gives zeros.
pub open spec fn uniform_components(registry: LiveRegistry, ptr: LivePtr, slots: int) -> Seq<u32> {
    match registry.spec_ptr_to_node(ptr) {
        Ok(node) => value_components(slots, node.value),
        Err(_) => zero_components(slots),
    }
}

/// What the token `token_id` gives for arity `slots` now. A token that
/// cannot be found gives zeros.
pub open spec fn constant_components(
    registry: LiveRegistry,
    token_id: LiveTokenId,
    slots: int,
) -> Seq<u32> {
    match registry.spec_token(token_id) {
        Some(token) => token_components(slots, token.token),
        None => zero_components(slots),
    }
}

/// The uniform buffer after the first `n` changed pointers were applied in
/// order: each pointer that an input is bound to rewrites the slots of the
/// first such input.
pub open spec fn patched_uniforms(
    buf: Seq<u32>,
    inputs: Seq<DrawShaderInput>,
    registry: LiveRegistry,
    live_ptrs: Seq<LivePtr>,
    n: int,
) -> Seq<u32>
    decreases n,
{
    if n <= 0 {
        buf
    } else {
        let before = patched_uniforms(buf, inputs, registry, live_ptrs, n - 1);
        match find_input(inputs, live_ptrs[n - 1], 0) {
            Some(k) => write_components(
                before,
                inputs[k].offset as int,
                uniform_components(registry, live_ptrs[n - 1], inputs[k].slots as int),
            ),
            None => before,
        }
    }
}

/// The constant table after the first `n` changed tokens were applied in
/// order: each token that a constant was read from rewrites the slots of
/// the first such constant.
pub open spec fn patched_constants(
    table: Seq<u32>,
    index: Seq<DrawShaderConstTableItem>,
    registry: LiveRegistry,
    mutated_tokens: Seq<LiveTokenId>,
    n: int,
) -> Seq<u32>
    decreases n,
{
    if n <= 0 {
        table
    } else {
        let before = patched_constants(table, index, registry, mutated_tokens, n - 1);
        match find_const(index, mutated_tokens[n - 1], 0) {
            Some(k) => write_components(
                before,
                index[k].offset as int,
                constant_components(registry, mutated_tokens[n - 1], index[k].slots as int),
            ),
            None => before,
        }
    }
}

/// Some input is bound to one of the first `n` changed pointers.
pub open spec fn touches_uniforms(
    inputs: Seq<DrawShaderInput>,
    live_ptrs: Seq<LivePtr>,
    n: int,
) -> bool
    decreases n,
{
    n > 0 && (touches_uniforms(inputs, live_ptrs, n - 1) || find_input(
        inputs,
        live_ptrs[n - 1],
        0,
    ) is Some)
}

/// Some constant was read from one of the first `n` changed tokens.
pub open spec fn touches_constants(
    index: Seq<DrawShaderConstTableItem>,
    mutated_tokens: Seq<LiveTokenId>,
    n: int,
) -> bool
    decreases n,
{
    n > 0 && (touches_constants(index, mutated_tokens, n - 1) || find_const(
        index,
        mutated_tokens[n - 1],
        0,
    ) is Some)
}

/// What `find_input` finds lies inside the list and is bound to the pointer.
pub proof fn lemma_find_input_in_range(inputs: Seq<DrawShaderInput>, ptr: LivePtr, from: int)
    requires
        0 <= from,
    ensures
        match find_input(inputs, ptr, from) {
            Some(k) => from <= k < inputs.len() && inputs[k].live_ptr == Some(ptr),
            None => forall|j: int| from <= j < inputs.len() ==> inputs[j].live_ptr != Some(ptr),
        },
    decreases inputs.len() - from,
{
    if from < inputs.len() && inputs[from].live_ptr != Some(ptr) {
        lemma_find_input_in_range(inputs, ptr, from + 1);
    }
}

/// What `find_const` finds lies inside the index and was read from the token.
pub proof fn lemma_find_const_in_range(
    index: Seq<DrawShaderConstTableItem>,
    token_id: LiveTokenId,
    from: int,
)
    requires
        0 <= from,
    ensures
        match find_const(index, token_id, from) {
            Some(k) => from <= k < index.len() && index[k].token_id == token_id,
            None => forall|j: int| from <= j < index.len() ==> index[j].token_id != token_id,
        },
    decreases index.len() - from,
{
    if from < index.len() && index[from].token_id != token_id {
        lemma_find_const_in_range(index, token_id, from + 1);
    }
}

impl DrawShaderInputs {
    /// The first input that is bound to `ptr`.
    pub fn find(&self, ptr: LivePtr) -> (found: Option<usize>)
        ensures
            match found {
                Some(k) => find_input(self.inputs@, ptr, 0) == Some(k as int) && k
                    < self.inputs@.len(),
                None => find_input(self.inputs@, ptr, 0) is None,
            },
    {
        let mut i: usize = 0;
        while i < self.inputs.len()
            invariant
                i <= self.inputs.len(),
                find_input(self.inputs@, ptr, 0) == find_input(self.inputs@, ptr, i as int),
            decreases self.inputs.len() - i,
        {
            let bound = match self.inputs[i].live_ptr {
                Some(p) => p.same(&ptr),
                None => false,
            };
            if bound {
                return Some(i);
            }
            i += 1;
        }
        None
    }
}

impl DrawShaderConstTable {
    /// The first constant that was read from `token_id`.
    pub fn find(&self, token_id: LiveTokenId) -> (found: Option<usize>)
        ensures
            match found {
                Some(k) => find_const(self.table_index@, token_id, 0) == Some(k as int) && k
                    < self.table_index@.len(),
                None => find_const(self.table_index@, token_id, 0) is None,
            },
    {
        let mut i: usize = 0;
        while i < self.table_index.len()
            invariant
                i <= self.table_index.len(),
                find_const(self.table_index@, token_id, 0) == find_const(
                    self.table_index@,
                    token_id,
                    i as int,
                ),
            decreases self.table_index.len() - i,
        {
            if self.table_index[i].token_id.same(&token_id) {
                return Some(i);
            }
            i += 1;
        }
        None
    }
}

impl CxDrawShaderMapping {
    /// Every input of an arity from 1 to 4 lies inside the uniform buffer,
    /// and every such constant inside the constant table.
    pub open spec fn wf(&self) -> bool {
        &&& forall|i: int|
            0 <= i < self.live_uniforms.inputs@.len() ==> fits(
                (#[trigger] self.live_uniforms.inputs@[i]).offset as int,
                self.live_uniforms.inputs@[i].slots as int,
                self.live_uniforms_buf@.len() as int,
            )
        &&& forall|i: int|
            0 <= i < self.const_table.table_index@.len() ==> fits(
                (#[trigger] self.const_table.table_index@[i]).offset as int,
                self.const_table.table_index@[i].slots as int,
                self.const_table.table@.len() as int,
            )
    }

    /// `self` is `pre` after the edit: the bindings are the same and the
    /// buffers hold what patching the changed pointers and tokens gives.
    pub open spec fn is_patch_of(
        &self,
        pre: CxDrawShaderMapping,
        registry: LiveRegistry,
        mutated_tokens: Seq<LiveTokenId>,
        live_ptrs: Seq<LivePtr>,
    ) -> bool {
        &&& self.live_uniforms == pre.live_uniforms
        &&& self.const_table.table_index == pre.const_table.table_index
        &&& self.live_uniforms_buf@ == patched_uniforms(
            pre.live_uniforms_buf@,
            pre.live_uniforms.inputs@,
            registry,
            live_ptrs,
            live_ptrs.len() as int,
        )
        &&& self.const_table.table@ == patched_constants(
            pre.const_table.table@,
            pre.const_table.table_index@,
            registry,
            mutated_tokens,
            mutated_tokens.len() as int,
        )
    }

    /// Some input is bound to a changed pointer, or some constant was read
    /// from a changed token.
    pub open spec fn is_touched_by(
        &self,
        mutated_tokens: Seq<LiveTokenId>,
        live_ptrs: Seq<LivePtr>,
    ) -> bool {
        touches_uniforms(self.live_uniforms.inputs@, live_ptrs, live_ptrs.len() as int)
            || touches_constants(
            self.const_table.table_index@,
            mutated_tokens,
            mutated_tokens.len() as int,
        )
    }

    /// A mapping with buffers of the given sizes, filled with zeros, and
    /// nothing bound yet.
    pub fn new(uniform_slots: usize, const_slots: usize) -> (mapping: CxDrawShaderMapping)
        ensures
            mapping.wf(),
            mapping.live_uniforms.inputs@.len() == 0,
            mapping.const_table.table_index@.len() == 0,
            mapping.live_uniforms_buf@ == Seq::new(uniform_slots as nat, |i: int| 0u32),
            mapping.const_table.table@ == Seq::new(const_slots as nat, |i: int| 0u32),
    {
        let mapping = CxDrawShaderMapping {
            live_uniforms: DrawShaderInputs { inputs: Vec::new() },
            live_uniforms_buf: zeros(uniform_slots),
            const_table: DrawShaderConstTable { table: zeros(const_slots), table_index: Vec::new() },
        };
        assert(mapping.live_uniforms_buf@ =~= Seq::new(uniform_slots as nat, |i: int| 0u32));
        assert(mapping.const_table.table@ =~= Seq::new(const_slots as nat, |i: int| 0u32));
        mapping
    }

    /// Binds a uniform input to `live_ptr`, if its slots lie inside the
    /// uniform buffer; an input that does not fit is refused and nothing
    /// changes.
    pub fn bind_live_uniform(&mut self, live_ptr: LivePtr, offset: usize, slots: usize) -> (bound:
        bool)
        requires
            old(self).wf(),
        ensures
            final(self).wf(),
            bound == fits(
                offset as int,
                slots as int,
                old(self).live_uniforms_buf@.len() as int,
            ),
            final(self).live_uniforms_buf == old(self).live_uniforms_buf,
            final(self).const_table == old(self).const_table,
            final(self).live_uniforms.inputs@ == if bound {
                old(self).live_uniforms.inputs@.push(
                    DrawShaderInput { live_ptr: Some(live_ptr), offset, slots },
                )
            } else {
                old(self).live_uniforms.inputs@
            },
    {
        if slot_range_fits(offset, slots, self.live_uniforms_buf.len()) {
            self.live_uniforms.inputs.push(
                DrawShaderInput { live_ptr: Some(live_ptr), offset, slots },
            );
            true
        } else {
            false
        }
    }

    /// Binds a constant to `token_id`, if its slots lie inside the constant
    /// table; a constant that does not fit is refused and nothing changes.
    pub fn bind_const(&mut self, token_id: LiveTokenId, offset: usize, slots: usize) -> (bound:
        bool)
        requires
            old(self).wf(),
        ensures
            final(self).wf(),
            bound == fits(offset as int, slots as int, old(self).const_table.table@.len() as int),
            final(self).live_uniforms_buf == old(self).live_uniforms_buf,
            final(self).live_uniforms == old(self).live_uniforms,
            final(self).const_table.table == old(self).const_table.table,
            final(self).const_table.table_index@ == if bound {
                old(self).const_table.table_index@.push(
                    DrawShaderConstTableItem { token_id, offset, slots },
                )
            } else {
                old(self).const_table.table_index@
            },
    {
        if slot_range_fits(offset, slots, self.const_table.table.len()) {
            self.const_table.table_index.push(DrawShaderConstTableItem { token_id, offset, slots });
            true
        } else {
            false
        }
    }

    /// Whether every binding lies inside its buffer.
    pub fn is_wf(&self) -> (ok: bool)
        ensures
            ok == self.wf(),
    {
        let mut i: usize = 0;
        while i < self.live_uniforms.inputs.len()
            invariant
                i <= self.live_uniforms.inputs.len(),
                forall|j: int|
                    0 <= j < i ==> fits(
                        (#[trigger] self.live_uniforms.inputs@[j]).offset as int,
                        self.live_uniforms.inputs@[j].slots as int,
                        self.live_uniforms_buf@.len() as int,
                    ),
            decreases self.live_uniforms.inputs.len() - i,
        {
            let input = &self.live_uniforms.inputs[i];
            if !slot_range_fits(input.offset, input.slots, self.live_uniforms_buf.len()) {
                return false;
            }
            i += 1;
        }
        let mut k: usize = 0;
        while k < self.const_table.table_index.len()
            invariant
                k <= self.const_table.table_index.len(),
                forall|j: int|
                    0 <= j < self.live_uniforms.inputs@.len() ==> fits(
                        (#[trigger] self.live_uniforms.inputs@[j]).offset as int,
                        self.live_uniforms.inputs@[j].slots as int,
                        self.live_uniforms_buf@.len() as int,
                    ),
                forall|j: int|
                    0 <= j < k ==> fits(
                        (#[trigger] self.const_table.table_index@[j]).offset as int,
                        self.const_table.table_index@[j].slots as int,
                        self.const_table.table@.len() as int,
                    ),
            decreases self.const_table.table_index.len() - k,
        {
            let item = &self.const_table.table_index[k];
            if !slot_range_fits(item.offset, item.slots, self.const_table.table.len()) {
                return false;
            }
            k += 1;
        }
        true
    }

    /// Reflects an edit in the buffers of this mapping.
    ///
    /// Each changed pointer that an input is bound to rewrites the slots of
    /// the first such input with what the node behind the pointer gives
    /// now; each changed token that a constant was read from rewrites the
    /// slots of the first such constant with what the token gives now.
    /// What cannot be resolved or converted is written as zeros. The
    /// bindings stay. The result says whether any binding was hit.
    pub fn update_with_live_edit(
        &mut self,
        registry: &LiveRegistry,
        mutated_tokens: &[LiveTokenId],
        live_ptrs: &[LivePtr],
    ) -> (change: bool)
        requires
            old(self).wf(),
        ensures
            final(self).wf(),
            final(self).is_patch_of(*old(self), *registry, mutated_tokens@, live_ptrs@),
            change == old(self).is_touched_by(mutated_tokens@, live_ptrs@),
    {
        let mut change = false;
        let mut i: usize = 0;
        while i < live_ptrs.len()
            invariant
                i <= live_ptrs.len(),
                self.wf(),
                self.live_uniforms == old(self).live_uniforms,
                self.const_table == old(self).const_table,
                self.live_uniforms_buf@.len() == old(self).live_uniforms_buf@.len(),
                self.live_uniforms_buf@ == patched_uniforms(
                    old(self).live_uniforms_buf@,
                    old(self).live_uniforms.inputs@,
                    *registry,
                    live_ptrs@,
                    i as int,
                ),
                change == touches_uniforms(old(self).live_uniforms.inputs@, live_ptrs@, i as int),
            decreases live_ptrs.len() - i,
        {
            let live_ptr = live_ptrs[i];
            match self.live_uniforms.find(live_ptr) {
                Some(k) => {
                    let input = self.live_uniforms.inputs[k];
                    match registry.ptr_to_node(live_ptr) {
                        Ok(node) => {
                            update_buffer_from_live_value(
                                input.slots,
                                &mut self.live_uniforms_buf,
                                input.offset,
                                &node.value,
                            );
                        },
                        Err(_) => {
                            clear_buffer_slots(
                                input.slots,
                                &mut self.live_uniforms_buf,
                                input.offset,
                            );
                        },
                    }
                    change = true;
                },
                None => {},
            }
            i += 1;
        }
        let ghost uniforms_changed = change;
        let mut j: usize = 0;
        while j < mutated_tokens.len()
            invariant
                j <= mutated_tokens.len(),
                self.wf(),
                self.live_uniforms == old(self).live_uniforms,
                self.const_table.table_index == old(self).const_table.table_index,
                self.const_table.table@.len() == old(self).const_table.table@.len(),
                self.live_uniforms_buf@ == patched_uniforms(
                    old(self).live_uniforms_buf@,
                    old(self).live_uniforms.inputs@,
                    *registry,
                    live_ptrs@,
                    live_ptrs@.len() as int,
                ),
                self.const_table.table@ == patched_constants(
                    old(self).const_table.table@,
                    old(self).const_table.table_index@,
                    *registry,
                    mutated_tokens@,
                    j as int,
                ),
                change == (uniforms_changed || touches_constants(
                    old(self).const_table.table_index@,
                    mutated_tokens@,
                    j as int,
                )),
            decreases mutated_tokens.len() - j,
        {
            let token_id = mutated_tokens[j];
            match self.const_table.find(token_id) {
                Some(k) => {
                    let item = self.const_table.table_index[k];
                    match registry.token_id_to_token(token_id) {
                        Some(token) => {
                            update_buffer_from_live_token(
                                item.slots,
                                &mut self.const_table.table,
                                item.offset,
                                &token.token,
                            );
                        },
                        None => {
                            clear_buffer_slots(item.slots, &mut self.const_table.table, item.offset);
                        },
                    }
                    change = true;
                },
                None => {},
            }
            j += 1;
        }
        change
    }
}

/// Some mapping among the first `n` shaders has a binding that the edit hits.
pub open spec fn any_touched(
    shaders: Seq<CxDrawShader>,
    mutated_tokens: Seq<LiveTokenId>,
    live_ptrs: Seq<LivePtr>,
    n: int,
) -> bool
    decreases n,
{
    n > 0 && (any_touched(shaders, mutated_tokens, live_ptrs, n - 1)
        || shaders[n - 1].mapping.is_touched_by(mutated_tokens, live_ptrs))
}

impl CxDrawShaders {
    /// Every binding of every shader lies inside its buffer.
    pub open spec fn wf(&self) -> bool {
        forall|s: int| 0 <= s < self.shaders@.len() ==> (#[trigger] self.shaders@[s]).mapping.wf()
    }

    /// No shader instances.
    pub fn new() -> (shaders: CxDrawShaders)
        ensures
            shaders.wf(),
            shaders.shaders@.len() == 0,
    {
        CxDrawShaders { shaders: Vec::new() }
    }

    /// Whether every binding of every shader lies inside its buffer.
    pub fn is_wf(&self) -> (ok: bool)
        ensures
            ok == self.wf(),
    {
        let mut s: usize = 0;
        while s < self.shaders.len()
            invariant
                s <= self.shaders.len(),
                forall|k: int| 0 <= k < s ==> (#[trigger] self.shaders@[k]).mapping.wf(),
            decreases self.shaders.len() - s,
        {
            if !self.shaders[s].mapping.is_wf() {
                return false;
            }
            s += 1;
        }
        true
    }
}

/// No input is bound to a changed pointer, and no constant was read from a
/// changed token.
pub open spec fn is_disjoint_edit(
    mapping: CxDrawShaderMapping,
    mutated_tokens: Seq<LiveTokenId>,
    live_ptrs: Seq<LivePtr>,
) -> bool {
    &&& forall|i: int, j: int|
        0 <= i < mapping.live_uniforms.inputs@.len() && 0 <= j < live_ptrs.len() ==> (
        #[trigger] mapping.live_uniforms.inputs@[i]).live_ptr != Some(#[trigger] live_ptrs[j])
    &&& forall|i: int, j: int|
        0 <= i < mapping.const_table.table_index@.len() && 0 <= j < mutated_tokens.len() ==> (
        #[trigger] mapping.const_table.table_index@[i]).token_id
            != #[trigger] mutated_tokens[j]
}

/// Pointers that no input is bound to leave the uniform buffer as it is.
pub proof fn lemma_unbound_ptrs_patch_nothing(
    buf: Seq<u32>,
    inputs: Seq<DrawShaderInput>,
    registry: LiveRegistry,
    live_ptrs: Seq<LivePtr>,
    n: int,
)
    requires
        n <= live_ptrs.len(),
        forall|i: int, j: int|
            0 <= i < inputs.len() && 0 <= j < live_ptrs.len() ==> (#[trigger] inputs[i]).live_ptr
                != Some(#[trigger] live_ptrs[j]),
    ensures
        patched_uniforms(buf, inputs, registry, live_ptrs, n) == buf,
        !touches_uniforms(inputs, live_ptrs, n),
    decreases n,
{
    if n > 0 {
        lemma_unbound_ptrs_patch_nothing(buf, inputs, registry, live_ptrs, n - 1);
        lemma_find_input_in_range(inputs, live_ptrs[n - 1], 0);
    }
}

/// Tokens that no constant was read from leave the constant table as it is.
pub proof fn lemma_unbound_tokens_patch_nothing(
    table: Seq<u32>,
    index: Seq<DrawShaderConstTableItem>,
    registry: LiveRegistry,
    mutated_tokens: Seq<LiveTokenId>,
    n: int,
)
    requires
        n <= mutated_tokens.len(),
        forall|i: int, j: int|
            0 <= i < index.len() && 0 <= j < mutated_tokens.len() ==> (#[trigger] index[i]).token_id
                != #[trigger] mutated_tokens[j],
    ensures
        patched_constants(table, index, registry, mutated_tokens, n) == table,
        !touches_constants(index, mutated_tokens, n),
    decreases n,
{
    if n > 0 {
        lemma_unbound_tokens_patch_nothing(table, index, registry, mutated_tokens, n - 1);
        lemma_find_const_in_range(index, mutated_tokens[n - 1], 0);
    }
}

/// No-op detection: an edit whose changed pointers and tokens are bound in
/// no shader instance hits nothing, so the propagator answers `false`, and
/// it leaves every buffer and every binding of every instance as it was.
pub proof fn law_disjoint_edit_is_noop(
    pre: Seq<CxDrawShader>,
    post: Seq<CxDrawShader>,
    registry: LiveRegistry,
    mutated_tokens: Seq<LiveTokenId>,
    live_ptrs: Seq<LivePtr>,
)
    requires
        post.len() == pre.len(),
        forall|s: int|
            0 <= s < pre.len() ==> is_disjoint_edit(
                (#[trigger] pre[s]).mapping,
                mutated_tokens,
                live_ptrs,
            ),
        forall|s: int|
            0 <= s < pre.len() ==> (#[trigger] post[s]).mapping.is_patch_of(
                pre[s].mapping,
                registry,
                mutated_tokens,
                live_ptrs,
            ),
    ensures
        !any_touched(pre, mutated_tokens, live_ptrs, pre.len() as int),
        forall|s: int|
            0 <= s < pre.len() ==> {
                &&& (#[trigger] post[s]).mapping.live_uniforms_buf@
                    == pre[s].mapping.live_uniforms_buf@
                &&& post[s].mapping.const_table.table@ == pre[s].mapping.const_table.table@
                &&& post[s].mapping.live_uniforms == pre[s].mapping.live_uniforms
                &&& post[s].mapping.const_table.table_index
                    == pre[s].mapping.const_table.table_index
            },
{
    lemma_disjoint_edit_touches_nothing(pre, registry, mutated_tokens, live_ptrs, pre.len() as int);
    assert forall|s: int| 0 <= s < pre.len() implies {
        &&& (#[trigger] post[s]).mapping.live_uniforms_buf@ == pre[s].mapping.live_uniforms_buf@
        &&& post[s].mapping.const_table.table@ == pre[s].mapping.const_table.table@
        &&& post[s].mapping.live_uniforms == pre[s].mapping.live_uniforms
        &&& post[s].mapping.const_table.table_index == pre[s].mapping.const_table.table_index
    } by {
        let m = pre[s].mapping;
        assert(is_disjoint_edit(m, mutated_tokens, live_ptrs));
        lemma_unbound_ptrs_patch_nothing(
            m.live_uniforms_buf@,
            m.live_uniforms.inputs@,
            registry,
            live_ptrs,
            live_ptrs.len() as int,
        );
        lemma_unbound_tokens_patch_nothing(
            m.const_table.table@,
            m.const_table.table_index@,
            registry,
            mutated_tokens,
            mutated_tokens.len() as int,
        );
    }
}

/// An edit that is bound in none of the first `n` shaders hits none of them.
pub proof fn lemma_disjoint_edit_touches_nothing(
    shaders: Seq<CxDrawShader>,
    registry: LiveRegistry,
    mutated_tokens: Seq<LiveTokenId>,
    live_ptrs: Seq<LivePtr>,
    n: int,
)
    requires
        n <= shaders.len(),
        forall|s: int|
            0 <= s < shaders.len() ==> is_disjoint_edit(
                (#[trigger] shaders[s]).mapping,
                mutated_tokens,
                live_ptrs,
            ),
    ensures
        !any_touched(shaders, mutated_tokens, live_ptrs, n),
    decreases n,
{
    if n > 0 {
        lemma_disjoint_edit_touches_nothing(shaders, registry, mutated_tokens, live_ptrs, n - 1);
        let m = shaders[n - 1].mapping;
        assert(is_disjoint_edit(m, mutated_tokens, live_ptrs));
        lemma_unbound_ptrs_patch_nothing(
            m.live_uniforms_buf@,
            m.live_uniforms.inputs@,
            registry,
            live_ptrs,
            live_ptrs.len() as int,
        );
        lemma_unbound_tokens_patch_nothing(
            m.const_table.table@,
            m.const_table.table_index@,
            registry,
            mutated_tokens,
            mutated_tokens.len() as int,
        );
    }
}

/// Whether `slots` components at `offset` lie inside a buffer of `len`
/// slots; an arity that patching does not write fits anywhere.
pub fn slot_range_fits(offset: usize, slots: usize, len: usize) -> (ok: bool)
    ensures
        ok == fits(offset as int, slots as int, len as int),
{
    if 1 <= slots && slots <= 4 {
        slots <= len && offset <= len - slots
    } else {
        true
    }
}

/// A buffer of `n` zeros.
pub fn zeros(n: usize) -> (buf: Vec<u32>)
    ensures
        buf@ == Seq::new(n as nat, |i: int| 0u32),
{
    let mut buf: Vec<u32> = Vec::new();
    let mut i: usize = 0;
    while i < n
        invariant
            i <= n,
            buf@ == Seq::new(i as nat, |k: int| 0u32),
        decreases n - i,
    {
        buf.push(0);
        assert(buf@ =~= Seq::new((i + 1) as nat, |k: int| 0u32));
        i += 1;
    }
    buf
}

} // verus!

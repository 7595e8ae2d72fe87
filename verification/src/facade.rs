//! The context facade: the renderer's one-time setup plan and the
//! per-frame draw plan.
//!
//! The facade has two states: it starts uninitialized and becomes ready
//! exactly when setup has completed, after which it stays ready for the
//! life of the process. Every frame of a ready facade clears and then
//! issues exactly one indexed draw of the quad's six indices; a facade
//! that was never set up plans no draw call at all.

use vstd::prelude::*;

use crate::commands::GL_ARRAY_BUFFER;
use crate::commands::GL_ELEMENT_ARRAY_BUFFER;
use crate::commands::GL_FLOAT;
use crate::commands::GL_STATIC_DRAW;
use crate::commands::GL_TRIANGLES;
use crate::commands::GL_UNSIGNED_INT;
use crate::commands::GlCommand;
use crate::commands::draw_call_count;
use crate::commands::is_draw_call;
use crate::geometry::ATTRIBUTE_OFFSET;
use crate::geometry::COMPONENTS_PER_VERTEX;
use crate::geometry::INDEX_COUNT;
use crate::geometry::VERTEX_STRIDE;
use crate::geometry::index_bytes;
use crate::geometry::index_words;
use crate::geometry::vertex_bytes;
use crate::geometry::vertex_words;
use crate::geometry::words_to_bytes;
use crate::objects::Buffer;
use crate::objects::BufferType;
use crate::objects::ShaderProgram;
use crate::objects::VertexArray;
use crate::objects::buffer_data;

verus! {

/// Bit pattern of the background red component, one tenth.
pub const CLEAR_RED_BITS: u32 = 0x3DCC_CCCD;
/// Bit pattern of the background green component, one tenth.
pub const CLEAR_GREEN_BITS: u32 = 0x3DCC_CCCD;
/// Bit pattern of the background blue component, one tenth.
pub const CLEAR_BLUE_BITS: u32 = 0x3DCC_CCCD;
/// Bit pattern of the background alpha component, one.
pub const CLEAR_ALPHA_BITS: u32 = 0x3F80_0000;

/// The facade over the one active graphics context. `ready` records the
/// state machine: false until setup completes, true from then on.
#[derive(Debug)]
pub struct GL {
    pub ready: bool,
}

/// The fixed vertex-stage source compiled into the program: it forwards
/// the position attribute of slot zero unchanged.
pub fn vertex_shader_source() -> (s: &'static str)
    ensures
        s@ == ("#version 330 core\n        layout (location = 0) in vec3 pos;\n        void main() {\n            gl_Position = vec4(pos.x, pos.y, pos.z, 1.0);\n        }\n        ")@,
{
    "#version 330 core\n        layout (location = 0) in vec3 pos;\n        void main() {\n            gl_Position = vec4(pos.x, pos.y, pos.z, 1.0);\n        }\n        "
}

/// The fixed fragment-stage source compiled into the program: it paints
/// every covered pixel one opaque orange.
pub fn fragment_shader_source() -> (s: &'static str)
    ensures
        s@ == ("#version 330 core\n        out vec4 final_color;\n\n        void main() {\n            final_color = vec4(1.0, 0.5, 0.2, 1.0);\n        }\n")@,
{
    "#version 330 core\n        out vec4 final_color;\n\n        void main() {\n            final_color = vec4(1.0, 0.5, 0.2, 1.0);\n        }\n"
}

/// Law: a plan with no draw command among its elements draws nothing.
pub proof fn lemma_no_draw_calls(cs: Seq<GlCommand>)
    requires
        forall|i: int| 0 <= i < cs.len() ==> !is_draw_call(cs[i]),
    ensures
        draw_call_count(cs) == 0,
    decreases cs.len(),
{
    if cs.len() > 0 {
        lemma_no_draw_calls(cs.drop_last());
    }
}

impl GL {
    /// A fresh facade: setup has not run, nothing may be drawn yet.
    pub fn new() -> (g: GL)
        ensures
            !g.ready,
    {
        GL { ready: false }
    }

    /// Plans clearing the color and depth buffers.
    pub fn clear(&self) -> (c: GlCommand)
        ensures
            c is Clear,
    {
        GlCommand::Clear
    }

    /// Plans setting the background color; each component travels as the
    /// bit pattern of the normalized single-precision value.
    pub fn clear_color(&self, red_bits: u32, green_bits: u32, blue_bits: u32, alpha_bits: u32) -> (c:
        GlCommand)
        ensures
            c matches GlCommand::ClearColor { red_bits: r, green_bits: g, blue_bits: b, alpha_bits: a }
                && r == red_bits && g == green_bits && b == blue_bits && a == alpha_bits,
    {
        GlCommand::ClearColor { red_bits, green_bits, blue_bits, alpha_bits }
    }

    /// Plans the one-time setup up to the shader build: set the
    /// background color, bind the vertex array and both buffers, upload
    /// the index and vertex images, and describe and enable the position
    /// attribute. The host performs these in order, then builds the
    /// program through `ProgramBuilder` and reports it to `finish_setup`.
    pub fn setup_commands(&self, vao: &VertexArray, vbo: &Buffer, ebo: &Buffer) -> (cs: Vec<
        GlCommand,
    >)
        requires
            vbo.1 is Array,
            ebo.1 is ElementArray,
        ensures
            cs@.len() == 8,
            cs@[0] matches GlCommand::ClearColor { red_bits, green_bits, blue_bits, alpha_bits }
                && red_bits == CLEAR_RED_BITS && green_bits == CLEAR_GREEN_BITS
                && blue_bits == CLEAR_BLUE_BITS && alpha_bits == CLEAR_ALPHA_BITS,
            cs@[1] matches GlCommand::BindVertexArray(h) && h == vao.0,
            cs@[2] matches GlCommand::BindBuffer { target, buffer } && target == GL_ARRAY_BUFFER
                && buffer == vbo.0,
            cs@[3] matches GlCommand::BindBuffer { target, buffer }
                && target == GL_ELEMENT_ARRAY_BUFFER && buffer == ebo.0,
            cs@[4] matches GlCommand::BufferData { target, data, usage }
                && target == GL_ELEMENT_ARRAY_BUFFER && data@ == words_to_bytes(index_words())
                && usage == GL_STATIC_DRAW,
            cs@[5] matches GlCommand::BufferData { target, data, usage }
                && target == GL_ARRAY_BUFFER && data@ == words_to_bytes(vertex_words())
                && usage == GL_STATIC_DRAW,
            cs@[6] matches GlCommand::VertexAttribPointer {
                index,
                size,
                attr_type,
                normalized,
                stride,
                offset,
            } && index == 0 && size == COMPONENTS_PER_VERTEX && attr_type == GL_FLOAT
                && !normalized && stride == VERTEX_STRIDE && offset == ATTRIBUTE_OFFSET,
            cs@[7] matches GlCommand::EnableVertexAttribArray(slot) && slot == 0,
            draw_call_count(cs@) == 0,
    {
        let mut cs: Vec<GlCommand> = Vec::new();
        cs.push(self.clear_color(CLEAR_RED_BITS, CLEAR_GREEN_BITS, CLEAR_BLUE_BITS, CLEAR_ALPHA_BITS));
        cs.push(vao.bind());
        cs.push(vbo.bind());
        cs.push(ebo.bind());
        cs.push(buffer_data(BufferType::ElementArray, index_bytes(), GL_STATIC_DRAW));
        cs.push(buffer_data(BufferType::Array, vertex_bytes(), GL_STATIC_DRAW));
        cs.push(
            GlCommand::VertexAttribPointer {
                index: 0,
                size: COMPONENTS_PER_VERTEX,
                attr_type: GL_FLOAT,
                normalized: false,
                stride: VERTEX_STRIDE,
                offset: ATTRIBUTE_OFFSET,
            },
        );
        cs.push(GlCommand::EnableVertexAttribArray(0));
        proof {
            assert(forall|i: int| 0 <= i < cs@.len() ==> !is_draw_call(cs@[i]));
            lemma_no_draw_calls(cs@);
        }
        cs
    }

    /// Records that setup completed with a linked program and plans
    /// activating it; from here on the facade is ready and every frame
    /// draws the quad.
    pub fn finish_setup(&mut self, program: &ShaderProgram) -> (c: GlCommand)
        ensures
            final(self).ready,
            c matches GlCommand::UseProgram(h) && h == program.0,
    {
        self.ready = true;
        program.use_program()
    }

    /// Plans one frame. A ready facade clears and then issues exactly
    /// one indexed draw call, of the quad's six indices as unsigned
    /// 32-bit values from offset zero; a facade whose setup never
    /// completed plans nothing — in particular, no draw call occurs.
    pub fn draw_frame(&self) -> (cs: Vec<GlCommand>)
        ensures
            self.ready ==> cs@.len() == 2 && cs@[0] is Clear && (cs@[1]
                matches GlCommand::DrawElements { mode, count, index_type, offset }
                && mode == GL_TRIANGLES && count == INDEX_COUNT && index_type == GL_UNSIGNED_INT
                && offset == 0),
            !self.ready ==> cs@.len() == 0,
            draw_call_count(cs@) == (if self.ready {
                1nat
            } else {
                0nat
            }),
    {
        let mut cs: Vec<GlCommand> = Vec::new();
        if self.ready {
            cs.push(self.clear());
            cs.push(
                GlCommand::DrawElements {
                    mode: GL_TRIANGLES,
                    count: INDEX_COUNT,
                    index_type: GL_UNSIGNED_INT,
                    offset: 0,
                },
            );
            proof {
                let s = cs@;
                assert(!is_draw_call(s[0]) && is_draw_call(s[1]));
                assert(s.drop_last().last() == s[0]);
                assert(s.drop_last().drop_last() =~= Seq::<GlCommand>::empty());
                assert(draw_call_count(Seq::<GlCommand>::empty()) == 0);
                assert(draw_call_count(s.drop_last()) == 0);
                assert(draw_call_count(s) == 1);
            }
        }
        cs
    }
}

} // verus!

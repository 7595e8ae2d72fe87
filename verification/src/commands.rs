//! Driver commands the library plans for the host shell to perform.
//!
//! Every call the renderer makes into the graphics driver is described here
//! as a plain value. The host shell executes each command with the loaded
//! function table; the library proves what sequence of commands each
//! operation issues.

use vstd::prelude::*;

verus! {

/// Binding target of a buffer object holding vertex attributes.
pub const GL_ARRAY_BUFFER: u32 = 0x8892;
/// Binding target of a buffer object holding element indices.
pub const GL_ELEMENT_ARRAY_BUFFER: u32 = 0x8893;
/// Object kind of a vertex-stage shader.
pub const GL_VERTEX_SHADER: u32 = 0x8B31;
/// Object kind of a fragment-stage shader.
pub const GL_FRAGMENT_SHADER: u32 = 0x8B30;
/// Usage hint: the data is uploaded once and drawn many times.
pub const GL_STATIC_DRAW: u32 = 0x88E4;
/// Primitive mode: every three indices form one triangle.
pub const GL_TRIANGLES: u32 = 0x0004;
/// Index type: each index is an unsigned 32-bit integer.
pub const GL_UNSIGNED_INT: u32 = 0x1405;
/// Attribute component type: single-precision floating point.
pub const GL_FLOAT: u32 = 0x1406;

/// One driver call, with every argument as a plain value.
///
/// Color components travel as the bit patterns of the single-precision
/// values the driver receives, so the plan itself stays in integers.
#[derive(Debug)]
pub enum GlCommand {
    /// Set the color used by subsequent clears.
    ClearColor { red_bits: u32, green_bits: u32, blue_bits: u32, alpha_bits: u32 },
    /// Clear the color and depth buffers with the current clear state.
    Clear,
    /// Make the vertex array object the active one; zero clears the binding.
    BindVertexArray(u32),
    /// Make the buffer the active object of the target; zero clears it.
    BindBuffer { target: u32, buffer: u32 },
    /// Upload the bytes into the buffer bound to the target.
    BufferData { target: u32, data: Vec<u8>, usage: u32 },
    /// Describe how the bound array buffer feeds one attribute slot.
    VertexAttribPointer {
        index: u32,
        size: u32,
        attr_type: u32,
        normalized: bool,
        stride: u32,
        offset: u32,
    },
    /// Enable reads of the attribute slot during draws.
    EnableVertexAttribArray(u32),
    /// Associate a compiled shader with a program before linking.
    AttachShader { program: u32, shader: u32 },
    /// Link the shaders attached to the program.
    LinkProgram(u32),
    /// Mark a shader object for reclamation once detached everywhere.
    DeleteShader(u32),
    /// Mark a program object for reclamation once no longer in use.
    DeleteProgram(u32),
    /// Make the program the one used by subsequent draws.
    UseProgram(u32),
    /// Draw `count` indices of `index_type` starting at `offset` bytes
    /// into the bound element buffer, assembling primitives per `mode`.
    DrawElements { mode: u32, count: u32, index_type: u32, offset: u32 },
}

/// Whether a command rasterizes geometry.
pub open spec fn is_draw_call(c: GlCommand) -> bool {
    c is DrawElements
}

/// How many commands of a plan rasterize geometry.
pub open spec fn draw_call_count(cs: Seq<GlCommand>) -> nat
    decreases cs.len(),
{
    if cs.len() == 0 {
        0
    } else {
        draw_call_count(cs.drop_last()) + if is_draw_call(cs.last()) {
            1nat
        } else {
            0nat
        }
    }
}

} // verus!

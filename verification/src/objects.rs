//! Lifecycle wrappers around the driver's object handles.
//!
//! The driver hands out opaque non-zero integer handles; zero is its
//! allocation-failure sentinel. Each wrapper owns the handle it was built
//! from: constructors reject the zero sentinel, binding and deletion are
//! planned as commands for the host shell to perform, and `delete`
//! consumes the wrapper so a reclaimed handle can never be used again.

use vstd::prelude::*;

use crate::commands::GL_ARRAY_BUFFER;
use crate::commands::GL_ELEMENT_ARRAY_BUFFER;
use crate::commands::GL_FRAGMENT_SHADER;
use crate::commands::GL_VERTEX_SHADER;
use crate::commands::GlCommand;

verus! {

/// A handle to a vertex array object.
#[derive(Debug)]
pub struct VertexArray(pub u32);

impl VertexArray {
    /// Wraps the handle the driver allocated for a new vertex array
    /// object; the zero sentinel means the driver is out of resources.
    pub fn new(raw: u32) -> (r: Option<VertexArray>)
        ensures
            raw == 0 ==> r is None,
            raw != 0 ==> (r matches Some(v) && v.0 == raw),
    {
        if raw != 0 {
            Some(VertexArray(raw))
        } else {
            None
        }
    }

    /// Plans making this vertex array object the active one.
    pub fn bind(&self) -> (c: GlCommand)
        ensures
            c matches GlCommand::BindVertexArray(h) && h == self.0,
    {
        GlCommand::BindVertexArray(self.0)
    }

    /// Plans clearing the vertex array binding back to none.
    pub fn clear_binding() -> (c: GlCommand)
        ensures
            c matches GlCommand::BindVertexArray(h) && h == 0,
    {
        GlCommand::BindVertexArray(0)
    }
}

/// The binding targets a buffer object can serve.
#[derive(Clone, Copy, PartialEq, Eq, Structural, Debug)]
pub enum BufferType {
    /// Vertex attribute data.
    Array,
    /// Element index data.
    ElementArray,
}

impl BufferType {
    /// The driver's enumerant for this binding target.
    pub open spec fn target(self) -> u32 {
        match self {
            BufferType::Array => GL_ARRAY_BUFFER,
            BufferType::ElementArray => GL_ELEMENT_ARRAY_BUFFER,
        }
    }

    /// The driver's enumerant for this binding target.
    pub fn glenum(&self) -> (e: u32)
        ensures
            e == self.target(),
    {
        match self {
            BufferType::Array => GL_ARRAY_BUFFER,
            BufferType::ElementArray => GL_ELEMENT_ARRAY_BUFFER,
        }
    }
}

/// A handle to a buffer object, together with the target it serves.
#[derive(Debug)]
pub struct Buffer(pub u32, pub BufferType);

impl Buffer {
    /// Wraps the handle the driver allocated for a new buffer object;
    /// the zero sentinel means the driver is out of resources.
    pub fn new(raw: u32, buffer_type: BufferType) -> (r: Option<Buffer>)
        ensures
            raw == 0 ==> r is None,
            raw != 0 ==> (r matches Some(b) && b.0 == raw && b.1 == buffer_type),
    {
        if raw != 0 {
            Some(Buffer(raw, buffer_type))
        } else {
            None
        }
    }

    /// Plans making this buffer the active object of its target.
    pub fn bind(&self) -> (c: GlCommand)
        ensures
            c matches GlCommand::BindBuffer { target, buffer } && target == self.1.target()
                && buffer == self.0,
    {
        GlCommand::BindBuffer { target: self.1.glenum(), buffer: self.0 }
    }

    /// Plans clearing the target's buffer binding back to none.
    pub fn clear_binding(buffer_type: BufferType) -> (c: GlCommand)
        ensures
            c matches GlCommand::BindBuffer { target, buffer } && target == buffer_type.target()
                && buffer == 0,
    {
        GlCommand::BindBuffer { target: buffer_type.glenum(), buffer: 0 }
    }
}

/// Plans uploading bytes into the buffer bound to the target.
pub fn buffer_data(ty: BufferType, data: Vec<u8>, usage: u32) -> (c: GlCommand)
    ensures
        c matches GlCommand::BufferData { target, data: d, usage: u } && target == ty.target()
            && d@ == data@ && u == usage,
{
    GlCommand::BufferData { target: ty.glenum(), data, usage }
}

/// The stages a shader object can implement.
#[derive(Clone, Copy, PartialEq, Eq, Structural, Debug)]
pub enum ShaderType {
    /// Vertex shaders determine where geometry lands on the screen.
    Vertex,
    /// Fragment shaders determine the color of covered pixels.
    Fragment,
}

impl ShaderType {
    /// The driver's enumerant for this shader stage.
    pub open spec fn stage(self) -> u32 {
        match self {
            ShaderType::Vertex => GL_VERTEX_SHADER,
            ShaderType::Fragment => GL_FRAGMENT_SHADER,
        }
    }

    /// The driver's enumerant for this shader stage.
    pub fn glenum(&self) -> (e: u32)
        ensures
            e == self.stage(),
    {
        match self {
            ShaderType::Vertex => GL_VERTEX_SHADER,
            ShaderType::Fragment => GL_FRAGMENT_SHADER,
        }
    }
}

/// A handle to a shader object of one stage.
#[derive(Debug)]
pub struct Shader(pub u32);

impl Shader {
    /// Wraps the handle the driver allocated for a new shader object;
    /// the zero sentinel means the driver is out of resources.
    pub fn new(raw: u32) -> (r: Option<Shader>)
        ensures
            raw == 0 ==> r is None,
            raw != 0 ==> (r matches Some(s) && s.0 == raw),
    {
        if raw != 0 {
            Some(Shader(raw))
        } else {
            None
        }
    }

    /// Reads the driver's compile-status reply: any non-zero flag means
    /// the last compile of this shader succeeded.
    pub fn compile_success(&self, status: i32) -> (ok: bool)
        ensures
            ok == (status != 0),
    {
        status != 0
    }

    /// Consumes the wrapper and plans marking the shader object for
    /// reclamation; the handle can no longer be used through the library.
    pub fn delete(self) -> (c: GlCommand)
        ensures
            c matches GlCommand::DeleteShader(h) && h == self.0,
    {
        GlCommand::DeleteShader(self.0)
    }
}

/// A handle to a linked (or linking) program object.
#[derive(Debug)]
pub struct ShaderProgram(pub u32);

impl ShaderProgram {
    /// Wraps the handle the driver allocated for a new program object;
    /// the zero sentinel means the driver is out of resources.
    pub fn new(raw: u32) -> (r: Option<ShaderProgram>)
        ensures
            raw == 0 ==> r is None,
            raw != 0 ==> (r matches Some(p) && p.0 == raw),
    {
        if raw != 0 {
            Some(ShaderProgram(raw))
        } else {
            None
        }
    }

    /// Plans associating a compiled shader with this program.
    pub fn attach_shader(&self, shader: &Shader) -> (c: GlCommand)
        ensures
            c matches GlCommand::AttachShader { program, shader: s } && program == self.0
                && s == shader.0,
    {
        GlCommand::AttachShader { program: self.0, shader: shader.0 }
    }

    /// Plans linking the shaders attached to this program.
    pub fn link_program(&self) -> (c: GlCommand)
        ensures
            c matches GlCommand::LinkProgram(h) && h == self.0,
    {
        GlCommand::LinkProgram(self.0)
    }

    /// Reads the driver's link-status reply: any non-zero flag means the
    /// last link of this program succeeded.
    pub fn link_success(&self, status: i32) -> (ok: bool)
        ensures
            ok == (status != 0),
    {
        status != 0
    }

    /// Plans making this program the one used by subsequent draws.
    pub fn use_program(&self) -> (c: GlCommand)
        ensures
            c matches GlCommand::UseProgram(h) && h == self.0,
    {
        GlCommand::UseProgram(self.0)
    }

    /// Consumes the wrapper and plans marking the program object for
    /// reclamation; the handle can no longer be used through the library.
    pub fn delete(self) -> (c: GlCommand)
        ensures
            c matches GlCommand::DeleteProgram(h) && h == self.0,
    {
        GlCommand::DeleteProgram(self.0)
    }
}

} // verus!

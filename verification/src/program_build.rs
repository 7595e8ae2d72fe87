//! The staged construction of a shader program, with cleanup on failure.
//!
//! Building a program composes five fallible driver steps: allocate a
//! program object, compile the vertex shader, compile the fragment
//! shader, attach and link, and check the link status. The host shell
//! performs each driver call and reports its reply; the builder here
//! decides, for every reply, how the build proceeds, which objects are
//! reclaimed, and which error message carries the failure's provenance.

use vstd::prelude::*;
use vstd::string::StringExecFns;

use crate::commands::GlCommand;
use crate::objects::Shader;
use crate::objects::ShaderProgram;
use crate::objects::ShaderType;

verus! {

/// The driver's whole reply to building one shader from a source string.
///
/// The host allocates a shader object (`handle`; the zero sentinel means
/// allocation failed), assigns the source, compiles, and queries the
/// status flag (`ok`). After a failed compile the host reads the info
/// log into `log` and reclaims the half-built shader object before
/// reporting; after a success `log` is empty and the live object is
/// handed over with the reply.
#[derive(Debug)]
pub struct CompileResponse {
    pub handle: u32,
    pub ok: bool,
    pub log: String,
}

/// The driver's reply to linking a program: the status flag, and the
/// info log the host read after a failed link.
#[derive(Debug)]
pub struct LinkResponse {
    pub ok: bool,
    pub log: String,
}

/// Message reported when the driver cannot allocate a program object.
pub open spec fn alloc_program_message() -> Seq<char> {
    "Couldn't allocate a program"@
}

/// Message reported when the driver cannot allocate a shader object.
pub open spec fn alloc_shader_message() -> Seq<char> {
    "Couldn't allocate new shader"@
}

/// Provenance prefix of a failure in the vertex stage.
pub open spec fn vertex_error_prefix() -> Seq<char> {
    "Vertex Compile Error: "@
}

/// Provenance prefix of a failure in the fragment stage.
pub open spec fn fragment_error_prefix() -> Seq<char> {
    "Fragment Compile Error: "@
}

/// Provenance prefix of a failure at link time.
pub open spec fn link_error_prefix() -> Seq<char> {
    "Program Link Error: "@
}

/// The provenance prefix of the given shader stage.
pub open spec fn stage_error_prefix(ty: ShaderType) -> Seq<char> {
    match ty {
        ShaderType::Vertex => vertex_error_prefix(),
        ShaderType::Fragment => fragment_error_prefix(),
    }
}

/// What building one shader yields for a given driver reply: the live
/// handle, or the message of the first failure.
pub open spec fn from_source_outcome(resp: CompileResponse) -> Result<u32, Seq<char>> {
    if resp.handle == 0 {
        Err(alloc_shader_message())
    } else if resp.ok {
        Ok(resp.handle)
    } else {
        Err(resp.log@)
    }
}

/// The full error text of a failed shader stage: the stage's provenance
/// prefix followed by what building the shader reported.
pub open spec fn stage_failure_message(ty: ShaderType, resp: CompileResponse) -> Seq<char> {
    stage_error_prefix(ty) + (if resp.handle == 0 {
        alloc_shader_message()
    } else {
        resp.log@
    })
}

impl Shader {
    /// Decision core of building one shader from source: accepts the
    /// driver's reply and yields the live shader, or the message of the
    /// failure — allocation refused, or the compile log.
    pub fn from_source(resp: CompileResponse) -> (r: Result<Shader, String>)
        ensures
            r matches Ok(s) ==> (from_source_outcome(resp) matches Ok(h) && s.0 == h),
            r matches Err(m) ==> (from_source_outcome(resp) matches Err(e) && m@ == e),
            r is Ok <==> (resp.handle != 0 && resp.ok),
    {
        if resp.handle == 0 {
            Err(String::from_str("Couldn't allocate new shader"))
        } else if resp.ok {
            Ok(Shader(resp.handle))
        } else {
            Err(resp.log)
        }
    }
}

/// Where a staged build stands.
#[derive(Clone, Copy, PartialEq, Eq, Structural, Debug)]
pub enum BuildPhase {
    /// The program object exists; the vertex shader is owed next.
    WantVertex,
    /// The vertex shader compiled; the fragment shader is owed next.
    WantFragment,
    /// Both shaders compiled; attach, link and the link reply are owed.
    WantLink,
    /// A stage failed; the build is over.
    Failed,
}

/// The staged construction of one shader program.
///
/// The host drives it in order: `start` with the handle from program
/// allocation, `supply_vertex` and `supply_fragment` with each stage's
/// reply, then the commands of `link_commands` and `finish` with the
/// link reply. Each step's contract pins the exact error of a failure.
#[derive(Debug)]
pub struct ProgramBuilder {
    pub phase: BuildPhase,
    pub program: u32,
    pub vertex_shader: u32,
    pub fragment_shader: u32,
}

impl ProgramBuilder {
    /// The handles a builder holds are live (non-zero) for its phase.
    pub open spec fn wf(self) -> bool {
        &&& self.program != 0
        &&& (self.phase is WantFragment || self.phase is WantLink) ==> self.vertex_shader != 0
        &&& self.phase is WantLink ==> self.fragment_shader != 0
    }

    /// Begins a build with the handle the driver allocated for the
    /// program object; the zero sentinel fails the build at once.
    pub fn start(program_raw: u32) -> (r: Result<ProgramBuilder, String>)
        ensures
            program_raw == 0 ==> (r matches Err(m) && m@ == alloc_program_message()),
            program_raw != 0 ==> (r matches Ok(b) && b.wf() && b.phase is WantVertex
                && b.program == program_raw),
    {
        if program_raw == 0 {
            Err(String::from_str("Couldn't allocate a program"))
        } else {
            Ok(
                ProgramBuilder {
                    phase: BuildPhase::WantVertex,
                    program: program_raw,
                    vertex_shader: 0,
                    fragment_shader: 0,
                },
            )
        }
    }

    /// Accepts the driver's reply for the vertex stage. On success the
    /// builder takes ownership of the shader and awaits the fragment
    /// stage; on failure the build is over and the error carries the
    /// vertex provenance prefix.
    pub fn supply_vertex(&mut self, resp: CompileResponse) -> (r: Result<(), String>)
        requires
            old(self).wf(),
            old(self).phase is WantVertex,
        ensures
            final(self).wf(),
            final(self).program == old(self).program,
            resp.handle != 0 && resp.ok ==> (r is Ok && final(self).phase is WantFragment
                && final(self).vertex_shader == resp.handle),
            !(resp.handle != 0 && resp.ok) ==> (r matches Err(m) && final(self).phase is Failed
                && m@ == stage_failure_message(ShaderType::Vertex, resp)),
    {
        match Shader::from_source(resp) {
            Ok(shader) => {
                self.vertex_shader = shader.0;
                self.phase = BuildPhase::WantFragment;
                Ok(())
            },
            Err(e) => {
                self.phase = BuildPhase::Failed;
                let mut m = String::from_str("Vertex Compile Error: ");
                m.append(e.as_str());
                Err(m)
            },
        }
    }

    /// Accepts the driver's reply for the fragment stage. On success the
    /// builder takes ownership of the shader and awaits the link; on
    /// failure the build is over and the error carries the fragment
    /// provenance prefix.
    pub fn supply_fragment(&mut self, resp: CompileResponse) -> (r: Result<(), String>)
        requires
            old(self).wf(),
            old(self).phase is WantFragment,
        ensures
            final(self).wf(),
            final(self).program == old(self).program,
            final(self).vertex_shader == old(self).vertex_shader,
            resp.handle != 0 && resp.ok ==> (r is Ok && final(self).phase is WantLink
                && final(self).fragment_shader == resp.handle),
            !(resp.handle != 0 && resp.ok) ==> (r matches Err(m) && final(self).phase is Failed
                && m@ == stage_failure_message(ShaderType::Fragment, resp)),
    {
        match Shader::from_source(resp) {
            Ok(shader) => {
                self.fragment_shader = shader.0;
                self.phase = BuildPhase::WantLink;
                Ok(())
            },
            Err(e) => {
                self.phase = BuildPhase::Failed;
                let mut m = String::from_str("Fragment Compile Error: ");
                m.append(e.as_str());
                Err(m)
            },
        }
    }

    /// Plans the link: attach both shaders, link the program, and
    /// reclaim the shader objects, whose compiled state now persists by
    /// reference from the program.
    pub fn link_commands(&self) -> (cs: Vec<GlCommand>)
        requires
            self.wf(),
            self.phase is WantLink,
        ensures
            cs@.len() == 5,
            cs@[0] matches GlCommand::AttachShader { program, shader } && program == self.program
                && shader == self.vertex_shader,
            cs@[1] matches GlCommand::AttachShader { program, shader } && program == self.program
                && shader == self.fragment_shader,
            cs@[2] matches GlCommand::LinkProgram(p) && p == self.program,
            cs@[3] matches GlCommand::DeleteShader(s) && s == self.vertex_shader,
            cs@[4] matches GlCommand::DeleteShader(s) && s == self.fragment_shader,
    {
        let program = ShaderProgram(self.program);
        let vertex = Shader(self.vertex_shader);
        let fragment = Shader(self.fragment_shader);
        let mut cs: Vec<GlCommand> = Vec::new();
        cs.push(program.attach_shader(&vertex));
        cs.push(program.attach_shader(&fragment));
        cs.push(program.link_program());
        cs.push(vertex.delete());
        cs.push(fragment.delete());
        cs
    }

    /// Accepts the driver's link reply and ends the build: the linked
    /// program, or the link error with its provenance prefix together
    /// with the command reclaiming the failed program object.
    pub fn finish(self, resp: LinkResponse) -> (r: Result<ShaderProgram, (String, GlCommand)>)
        requires
            self.wf(),
            self.phase is WantLink,
        ensures
            resp.ok ==> (r matches Ok(p) && p.0 == self.program),
            !resp.ok ==> (r matches Err(e) && e.0@ == link_error_prefix() + resp.log@
                && (e.1 matches GlCommand::DeleteProgram(h) && h == self.program)),
    {
        let program = ShaderProgram(self.program);
        if resp.ok {
            Ok(program)
        } else {
            let mut m = String::from_str("Program Link Error: ");
            m.append(resp.log.as_str());
            Err((m, program.delete()))
        }
    }
}

/// What the whole staged build yields for a run of driver replies: the
/// program handle when every stage succeeds, else the message of the
/// first failure with its provenance prefix. A reply past the first
/// failing stage never influences the outcome.
pub open spec fn build_outcome(
    program_raw: u32,
    vert: CompileResponse,
    frag: CompileResponse,
    link: LinkResponse,
) -> Result<u32, Seq<char>> {
    if program_raw == 0 {
        Err(alloc_program_message())
    } else if vert.handle == 0 || !vert.ok {
        Err(stage_failure_message(ShaderType::Vertex, vert))
    } else if frag.handle == 0 || !frag.ok {
        Err(stage_failure_message(ShaderType::Fragment, frag))
    } else if !link.ok {
        Err(link_error_prefix() + link.log@)
    } else {
        Ok(program_raw)
    }
}

impl ShaderProgram {
    /// The decision composition of the staged build, proved against
    /// `build_outcome`: from the driver's replies to every stage it
    /// yields the program, or the first failure's message. The host
    /// shell drives the stages one by one through `ProgramBuilder` and
    /// never reaches a later stage's driver call once one fails; a reply
    /// passed here for a stage past the first failure is ignored.
    pub fn from_vert_frag(
        program_raw: u32,
        vert: CompileResponse,
        frag: CompileResponse,
        link: LinkResponse,
    ) -> (r: Result<ShaderProgram, String>)
        ensures
            r matches Ok(p) ==> (build_outcome(program_raw, vert, frag, link) matches Ok(h)
                && p.0 == h),
            r matches Err(m) ==> (build_outcome(program_raw, vert, frag, link) matches Err(e)
                && m@ == e),
            r is Ok <==> build_outcome(program_raw, vert, frag, link) is Ok,
    {
        let mut builder = match ProgramBuilder::start(program_raw) {
            Ok(b) => b,
            Err(m) => {
                return Err(m);
            },
        };
        match builder.supply_vertex(vert) {
            Ok(()) => (),
            Err(m) => {
                return Err(m);
            },
        }
        match builder.supply_fragment(frag) {
            Ok(()) => (),
            Err(m) => {
                return Err(m);
            },
        }
        match builder.finish(link) {
            Ok(p) => Ok(p),
            Err(e) => Err(e.0),
        }
    }
}

/// Law: when the driver allocates every object and reports every stage
/// successful, the build succeeds with the program's handle.
pub proof fn lemma_build_success(
    program_raw: u32,
    vert: CompileResponse,
    frag: CompileResponse,
    link: LinkResponse,
)
    requires
        program_raw != 0,
        vert.handle != 0,
        vert.ok,
        frag.handle != 0,
        frag.ok,
        link.ok,
    ensures
        build_outcome(program_raw, vert, frag, link) == Ok::<u32, Seq<char>>(program_raw),
{
}

/// Law: a failed vertex stage yields an error, and its text is non-empty
/// and begins with the vertex provenance prefix.
pub proof fn lemma_vertex_failure_provenance(
    program_raw: u32,
    vert: CompileResponse,
    frag: CompileResponse,
    link: LinkResponse,
)
    requires
        program_raw != 0,
        vert.handle == 0 || !vert.ok,
    ensures
        build_outcome(program_raw, vert, frag, link) matches Err(m)
            && m.subrange(0, vertex_error_prefix().len() as int) == vertex_error_prefix()
            && m.len() >= vertex_error_prefix().len() && m.len() > 0,
{
    reveal_strlit("Vertex Compile Error: ");
    let m = stage_failure_message(ShaderType::Vertex, vert);
    assert(m.subrange(0, vertex_error_prefix().len() as int) =~= vertex_error_prefix());
}

/// Law: a vertex stage that succeeds followed by a failed fragment stage
/// yields an error whose text begins with the fragment provenance prefix.
pub proof fn lemma_fragment_failure_provenance(
    program_raw: u32,
    vert: CompileResponse,
    frag: CompileResponse,
    link: LinkResponse,
)
    requires
        program_raw != 0,
        vert.handle != 0,
        vert.ok,
        frag.handle == 0 || !frag.ok,
    ensures
        build_outcome(program_raw, vert, frag, link) matches Err(m)
            && m.subrange(0, fragment_error_prefix().len() as int) == fragment_error_prefix()
            && m.len() >= fragment_error_prefix().len() && m.len() > 0,
{
    reveal_strlit("Fragment Compile Error: ");
    let m = stage_failure_message(ShaderType::Fragment, frag);
    assert(m.subrange(0, fragment_error_prefix().len() as int) =~= fragment_error_prefix());
}

} // verus!

use gl_quad::commands::{
    GlCommand, GL_ARRAY_BUFFER, GL_ELEMENT_ARRAY_BUFFER, GL_FLOAT, GL_FRAGMENT_SHADER,
    GL_STATIC_DRAW, GL_TRIANGLES, GL_UNSIGNED_INT, GL_VERTEX_SHADER,
};
use gl_quad::facade::{fragment_shader_source, vertex_shader_source, GL};
use gl_quad::geometry::{index_bytes, vertex_bytes};
use gl_quad::objects::{Buffer, BufferType, Shader, ShaderProgram, ShaderType, VertexArray};
use gl_quad::program_build::{CompileResponse, LinkResponse, ProgramBuilder};

fn accepted(handle: u32) -> CompileResponse {
    CompileResponse { handle, ok: true, log: String::new() }
}

fn rejected(handle: u32, log: &str) -> CompileResponse {
    CompileResponse { handle, ok: false, log: log.to_string() }
}

#[test]
fn zero_sentinel_means_allocation_failure() {
    assert!(VertexArray::new(0).is_none());
    assert!(Buffer::new(0, BufferType::Array).is_none());
    assert!(Shader::new(0).is_none());
    assert!(ShaderProgram::new(0).is_none());
    assert_eq!(VertexArray::new(7).unwrap().0, 7);
    let b = Buffer::new(8, BufferType::ElementArray).unwrap();
    assert_eq!(b.0, 8);
    assert!(matches!(b.1, BufferType::ElementArray));
}

#[test]
fn glenum_values_match_the_driver_enumerants() {
    assert_eq!(BufferType::Array.glenum(), GL_ARRAY_BUFFER);
    assert_eq!(BufferType::ElementArray.glenum(), GL_ELEMENT_ARRAY_BUFFER);
    assert_eq!(ShaderType::Vertex.glenum(), GL_VERTEX_SHADER);
    assert_eq!(ShaderType::Fragment.glenum(), GL_FRAGMENT_SHADER);
}

#[test]
fn delete_consumes_the_wrapper() {
    // Deletion takes the wrapper by value: after these calls the borrow
    // checker refuses every further use of `shader` and `program`, so a
    // reclaimed handle cannot be touched again through the library.
    let shader = Shader::new(5).unwrap();
    let cmd = shader.delete();
    assert!(matches!(cmd, GlCommand::DeleteShader(5)));
    let program = ShaderProgram::new(9).unwrap();
    let cmd = program.delete();
    assert!(matches!(cmd, GlCommand::DeleteProgram(9)));
}

#[test]
fn from_vert_frag_with_accepted_sources_links() {
    // A driver that accepts the fixed sources: every stage reports success.
    assert!(vertex_shader_source().contains("main"));
    assert!(fragment_shader_source().contains("main"));
    let r = ShaderProgram::from_vert_frag(
        3,
        accepted(1),
        accepted(2),
        LinkResponse { ok: true, log: String::new() },
    );
    let program = r.expect("all stages succeeded");
    assert_eq!(program.0, 3);
}

#[test]
fn malformed_vertex_source_reports_vertex_provenance() {
    // A vertex source missing `main` is rejected by the driver with a log.
    let log = "0:4(1): error: no function main declared";
    let r = ShaderProgram::from_vert_frag(
        3,
        rejected(1, log),
        accepted(2),
        LinkResponse { ok: true, log: String::new() },
    );
    let message = r.expect_err("the vertex stage failed");
    assert!(message.contains("Vertex Compile Error"));
    assert!(!message.is_empty());
    assert_eq!(message, format!("Vertex Compile Error: {}", log));
}

#[test]
fn malformed_fragment_source_reports_fragment_provenance() {
    let log = "0:5(2): error: syntax error, unexpected '}'";
    let r = ShaderProgram::from_vert_frag(
        3,
        accepted(1),
        rejected(2, log),
        LinkResponse { ok: true, log: String::new() },
    );
    let message = r.expect_err("the fragment stage failed");
    assert!(message.contains("Fragment Compile Error"));
    assert_eq!(message, format!("Fragment Compile Error: {}", log));
}

#[test]
fn link_failure_reports_link_provenance() {
    let r = ShaderProgram::from_vert_frag(
        3,
        accepted(1),
        accepted(2),
        LinkResponse { ok: false, log: "error: unresolved varying".to_string() },
    );
    let message = r.expect_err("the link failed");
    assert_eq!(message, "Program Link Error: error: unresolved varying");
}

#[test]
fn allocation_failures_report_their_messages() {
    let r = ShaderProgram::from_vert_frag(
        0,
        accepted(1),
        accepted(2),
        LinkResponse { ok: true, log: String::new() },
    );
    assert_eq!(r.expect_err("no program object"), "Couldn't allocate a program");

    let r = ShaderProgram::from_vert_frag(
        3,
        rejected(0, ""),
        accepted(2),
        LinkResponse { ok: true, log: String::new() },
    );
    assert_eq!(
        r.expect_err("no vertex shader object"),
        "Vertex Compile Error: Couldn't allocate new shader"
    );

    let r = ShaderProgram::from_vert_frag(
        3,
        accepted(1),
        rejected(0, ""),
        LinkResponse { ok: true, log: String::new() },
    );
    assert_eq!(
        r.expect_err("no fragment shader object"),
        "Fragment Compile Error: Couldn't allocate new shader"
    );
}

#[test]
fn staged_build_plans_link_and_reclaims_shaders() {
    let mut builder = ProgramBuilder::start(3).expect("program allocated");
    builder.supply_vertex(accepted(1)).expect("vertex compiled");
    builder.supply_fragment(accepted(2)).expect("fragment compiled");
    let cmds = builder.link_commands();
    assert!(matches!(cmds[0], GlCommand::AttachShader { program: 3, shader: 1 }));
    assert!(matches!(cmds[1], GlCommand::AttachShader { program: 3, shader: 2 }));
    assert!(matches!(cmds[2], GlCommand::LinkProgram(3)));
    assert!(matches!(cmds[3], GlCommand::DeleteShader(1)));
    assert!(matches!(cmds[4], GlCommand::DeleteShader(2)));
    assert_eq!(cmds.len(), 5);
    let program = builder
        .finish(LinkResponse { ok: true, log: String::new() })
        .expect("linked");
    assert_eq!(program.0, 3);
}

#[test]
fn failed_link_reclaims_the_program_object() {
    let mut builder = ProgramBuilder::start(3).expect("program allocated");
    builder.supply_vertex(accepted(1)).expect("vertex compiled");
    builder.supply_fragment(accepted(2)).expect("fragment compiled");
    let (message, cleanup) = builder
        .finish(LinkResponse { ok: false, log: "mismatch".to_string() })
        .expect_err("the link failed");
    assert_eq!(message, "Program Link Error: mismatch");
    assert!(matches!(cleanup, GlCommand::DeleteProgram(3)));
}

#[test]
fn setup_plans_the_uploads_and_the_attribute() {
    let gl = GL::new();
    let vao = VertexArray::new(1).unwrap();
    let vbo = Buffer::new(2, BufferType::Array).unwrap();
    let ebo = Buffer::new(3, BufferType::ElementArray).unwrap();
    let cs = gl.setup_commands(&vao, &vbo, &ebo);
    assert_eq!(cs.len(), 8);
    assert!(matches!(cs[0], GlCommand::ClearColor { .. }));
    assert!(matches!(cs[1], GlCommand::BindVertexArray(1)));
    assert!(matches!(
        cs[2],
        GlCommand::BindBuffer { target: GL_ARRAY_BUFFER, buffer: 2 }
    ));
    assert!(matches!(
        cs[3],
        GlCommand::BindBuffer { target: GL_ELEMENT_ARRAY_BUFFER, buffer: 3 }
    ));
    match &cs[4] {
        GlCommand::BufferData { target, data, usage } => {
            assert_eq!(*target, GL_ELEMENT_ARRAY_BUFFER);
            assert_eq!(data, &index_bytes());
            assert_eq!(*usage, GL_STATIC_DRAW);
        }
        _ => panic!("expected an index upload"),
    }
    match &cs[5] {
        GlCommand::BufferData { target, data, usage } => {
            assert_eq!(*target, GL_ARRAY_BUFFER);
            assert_eq!(data, &vertex_bytes());
            assert_eq!(*usage, GL_STATIC_DRAW);
        }
        _ => panic!("expected a vertex upload"),
    }
    assert!(matches!(
        cs[6],
        GlCommand::VertexAttribPointer {
            index: 0,
            size: 3,
            attr_type: GL_FLOAT,
            normalized: false,
            stride: 12,
            offset: 0,
        }
    ));
    assert!(matches!(cs[7], GlCommand::EnableVertexAttribArray(0)));
}

#[test]
fn clear_color_carries_the_component_bits() {
    let gl = GL::new();
    let c = gl.clear_color(
        0.1f32.to_bits(),
        0.2f32.to_bits(),
        0.3f32.to_bits(),
        1.0f32.to_bits(),
    );
    match c {
        GlCommand::ClearColor { red_bits, green_bits, blue_bits, alpha_bits } => {
            assert_eq!(f32::from_bits(red_bits), 0.1);
            assert_eq!(f32::from_bits(green_bits), 0.2);
            assert_eq!(f32::from_bits(blue_bits), 0.3);
            assert_eq!(f32::from_bits(alpha_bits), 1.0);
        }
        _ => panic!("expected a clear-color command"),
    }
}

#[test]
fn draw_frame_before_setup_draws_nothing() {
    let gl = GL::new();
    let cs = gl.draw_frame();
    assert!(cs.is_empty());
}

#[test]
fn draw_frame_after_setup_issues_one_indexed_draw_of_six() {
    let mut gl = GL::new();
    let program = ShaderProgram::new(3).unwrap();
    let activate = gl.finish_setup(&program);
    assert!(matches!(activate, GlCommand::UseProgram(3)));
    let cs = gl.draw_frame();
    assert_eq!(cs.len(), 2);
    assert!(matches!(cs[0], GlCommand::Clear));
    let draws = cs
        .iter()
        .filter(|c| matches!(c, GlCommand::DrawElements { .. }))
        .count();
    assert_eq!(draws, 1);
    assert!(matches!(
        cs[1],
        GlCommand::DrawElements {
            mode: GL_TRIANGLES,
            count: 6,
            index_type: GL_UNSIGNED_INT,
            offset: 0,
        }
    ));
}

#[test]
fn status_flags_follow_the_driver_reply() {
    let shader = Shader::new(4).unwrap();
    assert!(shader.compile_success(1));
    assert!(shader.compile_success(-7));
    assert!(!shader.compile_success(0));
    let program = ShaderProgram::new(6).unwrap();
    assert!(program.link_success(1));
    assert!(!program.link_success(0));
}

#[test]
fn from_source_returns_the_live_shader_or_the_log() {
    let shader = Shader::from_source(accepted(11)).expect("compiled");
    assert_eq!(shader.0, 11);
    let err = Shader::from_source(rejected(12, "bad token")).expect_err("rejected");
    assert_eq!(err, "bad token");
    let err = Shader::from_source(rejected(0, "")).expect_err("not allocated");
    assert_eq!(err, "Couldn't allocate new shader");
}

#[test]
fn clear_bindings_reset_to_the_zero_handle() {
    assert!(matches!(VertexArray::clear_binding(), GlCommand::BindVertexArray(0)));
    assert!(matches!(
        Buffer::clear_binding(BufferType::Array),
        GlCommand::BindBuffer { target: GL_ARRAY_BUFFER, buffer: 0 }
    ));
    assert!(matches!(
        Buffer::clear_binding(BufferType::ElementArray),
        GlCommand::BindBuffer { target: GL_ELEMENT_ARRAY_BUFFER, buffer: 0 }
    ));
}

#[test]
fn bind_and_attach_plan_the_owned_handles() {
    let vao = VertexArray::new(1).unwrap();
    assert!(matches!(vao.bind(), GlCommand::BindVertexArray(1)));
    let vbo = Buffer::new(2, BufferType::Array).unwrap();
    assert!(matches!(
        vbo.bind(),
        GlCommand::BindBuffer { target: GL_ARRAY_BUFFER, buffer: 2 }
    ));
    let program = ShaderProgram::new(3).unwrap();
    let shader = Shader::new(4).unwrap();
    assert!(matches!(
        program.attach_shader(&shader),
        GlCommand::AttachShader { program: 3, shader: 4 }
    ));
    assert!(matches!(program.link_program(), GlCommand::LinkProgram(3)));
    assert!(matches!(program.use_program(), GlCommand::UseProgram(3)));
    let gl = GL::new();
    assert!(matches!(gl.clear(), GlCommand::Clear));
}

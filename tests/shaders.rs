use gui_core_00::shaders::shader::{CompileStep, Shader, ShaderCompiler, SupportedShaderType};
use gui_core_00::shaders::shader_program::{LinkStep, ShaderProgram};
use gui_core_00::shaders::{
    create_gl_log_buffer, diagnostic_text, log_capacity, GlCall, GlReply, ShaderError,
};

/// Plays the driver: answers each call with the next scripted reply, and
/// records the calls.
fn run_compile(
    start: (ShaderCompiler, GlCall),
    replies: Vec<GlReply>,
) -> (Vec<GlCall>, Result<Shader, ShaderError>) {
    let (mut session, first) = start;
    let mut calls = vec![first];
    for reply in replies {
        assert!(session.accepts(&reply));
        match session.resume(reply) {
            CompileStep::Call(c) => calls.push(c),
            CompileStep::Done(outcome) => return (calls, outcome),
        }
    }
    panic!("session did not finish");
}

fn run_link(
    start: (gui_core_00::shaders::shader_program::ProgramLinker, GlCall),
    replies: Vec<GlReply>,
) -> (Vec<GlCall>, Result<ShaderProgram, ShaderError>) {
    let (mut session, first) = start;
    let mut calls = vec![first];
    for reply in replies {
        assert!(session.accepts(&reply));
        match session.resume(reply) {
            LinkStep::Call(c) => calls.push(c),
            LinkStep::Done(outcome) => return (calls, outcome),
        }
    }
    panic!("session did not finish");
}

fn compiled(kind: SupportedShaderType, id: u32) -> Shader {
    let (_, outcome) = run_compile(Shader::new(kind), vec![GlReply::Name(id), GlReply::Status(1)]);
    outcome.unwrap()
}

#[test]
fn gl_values_of_stages() {
    assert_eq!(SupportedShaderType::Vertex.gl_value(), 0x8B31);
    assert_eq!(SupportedShaderType::Fragment.gl_value(), 0x8B30);
}

#[test]
fn compile_success_returns_owned_handle() {
    let (calls, outcome) =
        run_compile(Shader::new_vert(), vec![GlReply::Name(5), GlReply::Status(1)]);
    assert_eq!(
        calls,
        vec![
            GlCall::CreateShader { kind: SupportedShaderType::Vertex },
            GlCall::CompileShader { shader: 5 },
        ]
    );
    let shader = outcome.unwrap();
    assert_eq!(shader.id(), 5);
    assert_eq!(shader.kind(), SupportedShaderType::Vertex);
    assert_eq!(shader.release(), GlCall::DeleteShader { shader: 5 });
}

#[test]
fn compile_failure_returns_driver_log_and_releases() {
    let mut log = b"0:1(1): error: syntax error, unexpected IDENTIFIER".to_vec();
    log.push(0);
    let len = log.len() as i32;
    let (calls, outcome) = run_compile(
        Shader::new_frag(),
        vec![
            GlReply::Name(9),
            GlReply::Status(0),
            GlReply::LogLength(len),
            GlReply::Log(log),
            GlReply::Done,
        ],
    );
    assert_eq!(
        calls,
        vec![
            GlCall::CreateShader { kind: SupportedShaderType::Fragment },
            GlCall::CompileShader { shader: 9 },
            GlCall::ShaderLogLength { shader: 9 },
            GlCall::ShaderLog { shader: 9, capacity: len as usize },
            GlCall::DeleteShader { shader: 9 },
        ]
    );
    match outcome {
        Err(ShaderError::CompileFailed(text)) => {
            assert_eq!(text, "0:1(1): error: syntax error, unexpected IDENTIFIER");
            assert!(text.contains("syntax error"));
        }
        _ => panic!("a failed compile must not yield a shader"),
    }
}

#[test]
fn compile_session_rejects_unexpected_reply() {
    let (session, _) = Shader::new(SupportedShaderType::Vertex);
    assert!(!session.accepts(&GlReply::Status(1)));
    assert!(session.accepts(&GlReply::Name(1)));
}

#[test]
fn link_success_detaches_and_activates() {
    let v = compiled(SupportedShaderType::Vertex, 1);
    let f = compiled(SupportedShaderType::Fragment, 2);
    let (calls, outcome) = run_link(
        ShaderProgram::new(&v, &f).unwrap(),
        vec![
            GlReply::Name(3),
            GlReply::Done,
            GlReply::Done,
            GlReply::Status(1),
            GlReply::Done,
            GlReply::Done,
        ],
    );
    assert_eq!(
        calls,
        vec![
            GlCall::CreateProgram,
            GlCall::AttachShader { program: 3, shader: 1 },
            GlCall::AttachShader { program: 3, shader: 2 },
            GlCall::LinkProgram { program: 3 },
            GlCall::DetachShader { program: 3, shader: 1 },
            GlCall::DetachShader { program: 3, shader: 2 },
        ]
    );
    let program = outcome.unwrap();
    assert_eq!(program.id(), 3);
    assert_eq!(program.set_used(), GlCall::UseProgram { program: 3 });
    assert_eq!(program.release(), GlCall::DeleteProgram { program: 3 });
    assert_eq!(v.id(), 1);
    assert_eq!(f.id(), 2);
}

#[test]
fn link_failure_reads_log_detaches_and_releases() {
    let v = compiled(SupportedShaderType::Vertex, 1);
    let f = compiled(SupportedShaderType::Fragment, 2);
    let mut log = b"error: vertex output not read".to_vec();
    log.push(0);
    let (calls, outcome) = run_link(
        ShaderProgram::new(&v, &f).unwrap(),
        vec![
            GlReply::Name(4),
            GlReply::Done,
            GlReply::Done,
            GlReply::Status(0),
            GlReply::LogLength(30),
            GlReply::Log(log),
            GlReply::Done,
            GlReply::Done,
            GlReply::Done,
        ],
    );
    assert_eq!(
        calls,
        vec![
            GlCall::CreateProgram,
            GlCall::AttachShader { program: 4, shader: 1 },
            GlCall::AttachShader { program: 4, shader: 2 },
            GlCall::LinkProgram { program: 4 },
            GlCall::ProgramLogLength { program: 4 },
            GlCall::ProgramLog { program: 4, capacity: 30 },
            GlCall::DetachShader { program: 4, shader: 1 },
            GlCall::DetachShader { program: 4, shader: 2 },
            GlCall::DeleteProgram { program: 4 },
        ]
    );
    match outcome {
        Err(ShaderError::LinkFailed(text)) => assert_eq!(text, "error: vertex output not read"),
        _ => panic!("a failed link must not yield a program"),
    }
}

#[test]
fn link_refuses_other_stage_pairings() {
    let v1 = compiled(SupportedShaderType::Vertex, 1);
    let v2 = compiled(SupportedShaderType::Vertex, 2);
    let f1 = compiled(SupportedShaderType::Fragment, 3);
    let f2 = compiled(SupportedShaderType::Fragment, 4);
    assert!(matches!(ShaderProgram::new(&v1, &v2), Err(ShaderError::UnsupportedPair)));
    assert!(matches!(ShaderProgram::new(&f1, &f2), Err(ShaderError::UnsupportedPair)));
    assert!(matches!(ShaderProgram::new(&f1, &v1), Err(ShaderError::UnsupportedPair)));
    assert!(ShaderProgram::new(&v1, &f1).is_ok());
}

#[test]
fn log_buffer_is_spaces_of_reported_length() {
    assert_eq!(create_gl_log_buffer(4), vec![b' '; 4]);
    assert!(create_gl_log_buffer(0).is_empty());
    assert_eq!(log_capacity(12), 12);
    assert_eq!(log_capacity(-3), 0);
}

#[test]
fn diagnostic_text_stops_at_nul_and_replaces_invalid_bytes() {
    assert_eq!(diagnostic_text(&b"bad token\0   ".to_vec()), "bad token");
    assert_eq!(diagnostic_text(&b"no terminator".to_vec()), "no terminator");
    assert_eq!(diagnostic_text(&vec![b'a', 0xFF, b'b', 0]), "a\u{FFFD}b");
    assert_eq!(diagnostic_text(&vec![0, b'x']), "");
}

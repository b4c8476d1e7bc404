use vstd::prelude::*;

use crate::shaders::{
    GlCall, GlReply, ShaderError, GL_COMPILE_FAILURE, diagnostic_text, log_capacity,
    log_capacity_of, log_text,
};

verus! {

/// The pipeline stage a shader belongs to.
#[derive(Debug, Clone, Copy, PartialEq, Eq, Structural)]
pub enum SupportedShaderType {
    Vertex,
    Fragment,
}

/// The OpenGL enum value of a stage.
pub open spec fn gl_value_of(kind: SupportedShaderType) -> u32 {
    match kind {
        SupportedShaderType::Vertex => 0x8B31,
        SupportedShaderType::Fragment => 0x8B30,
    }
}

/// Relies on `gl::VERTEX_SHADER`, generated from the Khronos registry
/// (khronos_api's gl.xml gives `GL_VERTEX_SHADER` the value 0x8B31).
#[verifier::external_body]
fn gl_vertex_shader() -> (r: u32)
    ensures
        r == 0x8B31,
{
    gl::VERTEX_SHADER
}

/// Relies on `gl::FRAGMENT_SHADER`, generated from the Khronos registry
/// (khronos_api's gl.xml gives `GL_FRAGMENT_SHADER` the value 0x8B30).
#[verifier::external_body]
fn gl_fragment_shader() -> (r: u32)
    ensures
        r == 0x8B30,
{
    gl::FRAGMENT_SHADER
}

impl SupportedShaderType {
    /// The enum value that names this stage to the driver.
    pub fn gl_value(&self) -> (r: u32)
        ensures
            r == gl_value_of(*self),
    {
        match self {
            SupportedShaderType::Vertex => gl_vertex_shader(),
            SupportedShaderType::Fragment => gl_fragment_shader(),
        }
    }
}

/// A compiled shader object, owned by whoever holds this value.
///
/// It is not `Clone`: `release` consumes it, so a handle is released at most
/// once.
#[derive(Debug)]
pub struct Shader {
    id: u32,
    kind: SupportedShaderType,
}

/// Where a compile session stands.
#[derive(Debug, Clone, Copy, PartialEq, Eq, Structural)]
pub enum CompilePhase {
    /// `CreateShader` was issued.
    AwaitName,
    /// `CompileShader` was issued.
    AwaitStatus { shader: u32 },
    /// The compile failed and `ShaderLogLength` was issued.
    AwaitLogLength { shader: u32 },
    /// `ShaderLog` was issued.
    AwaitLog { shader: u32 },
    /// The log was read and `DeleteShader` was issued.
    AwaitRelease { shader: u32 },
    /// The session has produced its outcome.
    Finished,
}

/// What a session asks for next.
#[derive(Debug)]
pub enum CompileStep {
    /// Perform this driver call and hand its reply to `resume`.
    Call(GlCall),
    /// The session is over.
    Done(Result<Shader, ShaderError>),
}

/// The compilation of one shader source: allocate a shader object, compile,
/// and on failure read the diagnostic log and release the object.
#[derive(Debug)]
pub struct ShaderCompiler {
    kind: SupportedShaderType,
    phase: CompilePhase,
    diagnostic: String,
}

/// Whether the session is past a compile that the driver reported as failed.
pub open spec fn after_failure(phase: CompilePhase) -> bool {
    phase is AwaitLogLength || phase is AwaitLog || phase is AwaitRelease
}

/// Whether `reply` is the kind of answer that `phase` waits for.
pub open spec fn compile_awaits(phase: CompilePhase, reply: GlReply) -> bool {
    match phase {
        CompilePhase::AwaitName => reply is Name,
        CompilePhase::AwaitStatus { .. } => reply is Status,
        CompilePhase::AwaitLogLength { .. } => reply is LogLength,
        CompilePhase::AwaitLog { .. } => reply is Log,
        CompilePhase::AwaitRelease { .. } => reply is Done,
        CompilePhase::Finished => false,
    }
}

impl Shader {
    pub closed spec fn spec_id(&self) -> u32 {
        self.id
    }

    pub closed spec fn spec_kind(&self) -> SupportedShaderType {
        self.kind
    }

    /// Starts compiling a shader of stage `kind`: returns the session and its
    /// first driver call.
    pub fn new(kind: SupportedShaderType) -> (r: (ShaderCompiler, GlCall))
        ensures
            r.0.kind() == kind,
            r.0.phase() == CompilePhase::AwaitName,
            r.1 == (GlCall::CreateShader { kind }),
    {
        let compiler = ShaderCompiler {
            kind,
            phase: CompilePhase::AwaitName,
            diagnostic: String::new(),
        };
        (compiler, GlCall::CreateShader { kind })
    }

    /// Starts compiling a vertex shader.
    pub fn new_vert() -> (r: (ShaderCompiler, GlCall))
        ensures
            r.0.kind() == SupportedShaderType::Vertex,
            r.0.phase() == CompilePhase::AwaitName,
            r.1 == (GlCall::CreateShader { kind: SupportedShaderType::Vertex }),
    {
        Shader::new(SupportedShaderType::Vertex)
    }

    /// Starts compiling a fragment shader.
    pub fn new_frag() -> (r: (ShaderCompiler, GlCall))
        ensures
            r.0.kind() == SupportedShaderType::Fragment,
            r.0.phase() == CompilePhase::AwaitName,
            r.1 == (GlCall::CreateShader { kind: SupportedShaderType::Fragment }),
    {
        Shader::new(SupportedShaderType::Fragment)
    }

    /// The driver's name for this shader object.
    pub fn id(&self) -> (r: u32)
        ensures
            r == self.spec_id(),
    {
        self.id
    }

    /// The stage this shader was compiled for.
    pub fn kind(&self) -> (r: SupportedShaderType)
        ensures
            r == self.spec_kind(),
    {
        self.kind
    }

    /// Gives up ownership: the returned call releases the shader object.
    pub fn release(self) -> (r: GlCall)
        ensures
            r == (GlCall::DeleteShader { shader: self.spec_id() }),
    {
        GlCall::DeleteShader { shader: self.id }
    }
}

impl ShaderCompiler {
    pub closed spec fn kind(&self) -> SupportedShaderType {
        self.kind
    }

    pub closed spec fn phase(&self) -> CompilePhase {
        self.phase
    }

    /// The log text read so far (empty until the log has been read).
    pub closed spec fn diagnostic(&self) -> Seq<char> {
        self.diagnostic@
    }

    /// Whether `reply` answers the call this session issued last.
    pub fn accepts(&self, reply: &GlReply) -> (r: bool)
        ensures
            r == compile_awaits(self.phase(), *reply),
    {
        match (self.phase, reply) {
            (CompilePhase::AwaitName, GlReply::Name(_)) => true,
            (CompilePhase::AwaitStatus { .. }, GlReply::Status(_)) => true,
            (CompilePhase::AwaitLogLength { .. }, GlReply::LogLength(_)) => true,
            (CompilePhase::AwaitLog { .. }, GlReply::Log(_)) => true,
            (CompilePhase::AwaitRelease { .. }, GlReply::Done) => true,
            _ => false,
        }
    }

    /// Consumes the driver's reply to the last call and says what comes next.
    ///
    /// A successful compile ends the session with the shader, owned by the
    /// caller. A failed one fetches the log (probing its length first),
    /// releases the shader object, and ends with the log text.
    pub fn resume(&mut self, reply: GlReply) -> (r: CompileStep)
        requires
            compile_awaits(old(self).phase(), reply),
        ensures
            final(self).kind() == old(self).kind(),
            reply matches GlReply::Status(s) && s == GL_COMPILE_FAILURE ==> after_failure(
                final(self).phase(),
            ),
            after_failure(old(self).phase()) ==> !(r matches CompileStep::Done(Ok(_))),
            after_failure(old(self).phase()) && r is Call ==> after_failure(final(self).phase()),
            match (old(self).phase(), reply) {
                (CompilePhase::AwaitName, GlReply::Name(id)) => {
                    &&& final(self).phase() == (CompilePhase::AwaitStatus { shader: id })
                    &&& r == CompileStep::Call(GlCall::CompileShader { shader: id })
                },
                (CompilePhase::AwaitStatus { shader }, GlReply::Status(status)) => {
                    if status != GL_COMPILE_FAILURE {
                        &&& final(self).phase() == CompilePhase::Finished
                        &&& r matches CompileStep::Done(Ok(s))
                        &&& s.spec_id() == shader
                        &&& s.spec_kind() == old(self).kind()
                    } else {
                        &&& final(self).phase() == (CompilePhase::AwaitLogLength { shader })
                        &&& r == CompileStep::Call(GlCall::ShaderLogLength { shader })
                    }
                },
                (CompilePhase::AwaitLogLength { shader }, GlReply::LogLength(len)) => {
                    &&& final(self).phase() == (CompilePhase::AwaitLog { shader })
                    &&& r matches CompileStep::Call(GlCall::ShaderLog { shader: s, capacity })
                    &&& s == shader
                    &&& capacity == log_capacity_of(len)
                },
                (CompilePhase::AwaitLog { shader }, GlReply::Log(buffer)) => {
                    &&& final(self).phase() == (CompilePhase::AwaitRelease { shader })
                    &&& final(self).diagnostic() == log_text(buffer@)
                    &&& r == CompileStep::Call(GlCall::DeleteShader { shader })
                },
                (CompilePhase::AwaitRelease { .. }, GlReply::Done) => {
                    &&& final(self).phase() == CompilePhase::Finished
                    &&& r matches CompileStep::Done(Err(ShaderError::CompileFailed(text)))
                    &&& text@ == old(self).diagnostic()
                },
                _ => false,
            },
    {
        match (self.phase, reply) {
            (CompilePhase::AwaitName, GlReply::Name(id)) => {
                self.phase = CompilePhase::AwaitStatus { shader: id };
                CompileStep::Call(GlCall::CompileShader { shader: id })
            },
            (CompilePhase::AwaitStatus { shader }, GlReply::Status(status)) => {
                if status != GL_COMPILE_FAILURE {
                    self.phase = CompilePhase::Finished;
                    CompileStep::Done(Ok(Shader { id: shader, kind: self.kind }))
                } else {
                    self.phase = CompilePhase::AwaitLogLength { shader };
                    CompileStep::Call(GlCall::ShaderLogLength { shader })
                }
            },
            (CompilePhase::AwaitLogLength { shader }, GlReply::LogLength(len)) => {
                self.phase = CompilePhase::AwaitLog { shader };
                CompileStep::Call(GlCall::ShaderLog { shader, capacity: log_capacity(len) })
            },
            (CompilePhase::AwaitLog { shader }, GlReply::Log(buffer)) => {
                self.diagnostic = diagnostic_text(&buffer);
                self.phase = CompilePhase::AwaitRelease { shader };
                CompileStep::Call(GlCall::DeleteShader { shader })
            },
            _ => {
                self.phase = CompilePhase::Finished;
                let text = self.diagnostic.clone();
                CompileStep::Done(Err(ShaderError::CompileFailed(text)))
            },
        }
    }
}

} // verus!

//! Shader compilation and program linking, expressed as sessions that issue
//! driver calls one at a time and consume the driver's replies.
use vstd::prelude::*;

pub mod shader;
pub mod shader_program;

use crate::shaders::shader::SupportedShaderType;

verus! {

/// The status the driver reports for a failed compile or link.
pub const GL_COMPILE_FAILURE: i32 = 0;

/// One request to the graphics driver.
#[derive(Debug, Clone, Copy, PartialEq, Eq, Structural)]
pub enum GlCall {
    /// Allocate a shader object of the given stage; answered by `Name`.
    CreateShader { kind: SupportedShaderType },
    /// Submit the source to the shader, compile it and query the compile
    /// status; answered by `Status`.
    CompileShader { shader: u32 },
    /// Query the length of the shader's diagnostic log; answered by `LogLength`.
    ShaderLogLength { shader: u32 },
    /// Fetch the shader's diagnostic log into a buffer from
    /// `create_gl_log_buffer(capacity)`; answered by `Log`.
    ShaderLog { shader: u32, capacity: usize },
    /// Release a shader object; answered by `Done`.
    DeleteShader { shader: u32 },
    /// Allocate a program object; answered by `Name`.
    CreateProgram,
    /// Attach a shader to a program; answered by `Done`.
    AttachShader { program: u32, shader: u32 },
    /// Link the program and query the link status; answered by `Status`.
    LinkProgram { program: u32 },
    /// Query the length of the program's diagnostic log; answered by `LogLength`.
    ProgramLogLength { program: u32 },
    /// Fetch the program's diagnostic log into a buffer from
    /// `create_gl_log_buffer(capacity)`; answered by `Log`.
    ProgramLog { program: u32, capacity: usize },
    /// Detach a shader from a program; answered by `Done`.
    DetachShader { program: u32, shader: u32 },
    /// Release a program object; answered by `Done`.
    DeleteProgram { program: u32 },
    /// Make the program the current rendering program; answered by `Done`.
    UseProgram { program: u32 },
}

/// The driver's answer to a `GlCall`.
#[derive(Debug)]
pub enum GlReply {
    /// A newly allocated object name.
    Name(u32),
    /// A compile or link status; `GL_COMPILE_FAILURE` means failure.
    Status(i32),
    /// The length of a diagnostic log, terminator included.
    LogLength(i32),
    /// The filled log buffer.
    Log(Vec<u8>),
    /// The call completed and returns nothing.
    Done,
}

/// Why a shader or program could not be built.
#[derive(Debug)]
pub enum ShaderError {
    /// The two shaders handed to the linker are not one vertex and one
    /// fragment shader.
    UnsupportedPair,
    /// The compiler rejected the source; carries the driver's log text.
    CompileFailed(String),
    /// The linker rejected the program; carries the driver's log text.
    LinkFailed(String),
}

/// The capacity of the buffer for a log whose reported length is `len`.
pub open spec fn log_capacity_of(len: i32) -> nat {
    if len < 0 { 0 } else { len as nat }
}

/// Buffer capacity for a diagnostic log: exactly the reported length, none
/// for a negative report.
pub fn log_capacity(len: i32) -> (r: usize)
    ensures
        r == log_capacity_of(len),
{
    if len < 0 { 0 } else { len as usize }
}

/// A buffer of `capacity` space bytes, for the driver to write a log into.
pub fn create_gl_log_buffer(capacity: usize) -> (r: Vec<u8>)
    ensures
        r@ == Seq::new(capacity as nat, |_i: int| 32u8),
{
    let mut buffer: Vec<u8> = Vec::with_capacity(capacity);
    while buffer.len() < capacity
        invariant
            buffer.len() <= capacity,
            forall|j: int| 0 <= j < buffer.len() ==> buffer@[j] == 32u8,
        decreases capacity - buffer.len(),
    {
        buffer.push(32u8);
    }
    assert(buffer@ =~= Seq::new(capacity as nat, |_i: int| 32u8));
    buffer
}

/// The number of bytes before the first NUL of `s` (all of `s` if it has none).
pub open spec fn text_end(s: Seq<u8>) -> nat
    decreases s.len(),
{
    if s.len() == 0 || s[0] == 0 {
        0
    } else {
        1 + text_end(s.drop_first())
    }
}

/// The text that the driver wrote into a log buffer: the bytes before the
/// terminating NUL.
pub open spec fn log_bytes(s: Seq<u8>) -> Seq<u8> {
    s.take(text_end(s) as int)
}

/// The characters of the driver's log text.
pub open spec fn log_text(s: Seq<u8>) -> Seq<char> {
    utf8_lossy(log_bytes(s))
}

proof fn lemma_text_end(s: Seq<u8>, n: int)
    requires
        0 <= n <= s.len(),
        forall|j: int| 0 <= j < n ==> s[j] != 0,
        n == s.len() || s[n] == 0,
    ensures
        text_end(s) == n,
    decreases n,
{
    if n > 0 {
        let t = s.drop_first();
        assert forall|j: int| 0 <= j < n - 1 implies t[j] != 0 by {
            assert(t[j] == s[j + 1]);
        }
        if n < s.len() {
            assert(t[n - 1] == s[n]);
        }
        lemma_text_end(t, n - 1);
    }
}

/// Every byte is below 128.
pub open spec fn ascii(b: Seq<u8>) -> bool {
    forall|i: int| 0 <= i < b.len() ==> b[i] < 128
}

/// `c` holds, one for one, the characters whose codes are the bytes of `b`.
pub open spec fn same_codes(c: Seq<char>, b: Seq<u8>) -> bool {
    c.len() == b.len() && forall|i: int| 0 <= i < b.len() ==> c[i] as u32 == b[i] as u32
}

/// What `String::from_utf8_lossy` makes of a byte sequence.
pub uninterp spec fn utf8_lossy(b: Seq<u8>) -> Seq<char>;

/// Relies on `String::from_utf8_lossy`: the result depends on the bytes alone,
/// and valid UTF-8 (so any ASCII text) decodes to the characters it encodes.
#[verifier::external_body]
fn decode_lossy(b: &[u8]) -> (r: String)
    ensures
        r@ == utf8_lossy(b@),
        ascii(b@) ==> same_codes(r@, b@),
{
    String::from_utf8_lossy(b).into_owned()
}

/// The driver's diagnostic text from a filled log buffer: the bytes before
/// the first NUL, decoded as UTF-8 with invalid sequences replaced.
pub fn diagnostic_text(buffer: &Vec<u8>) -> (r: String)
    ensures
        r@ == log_text(buffer@),
        ascii(log_bytes(buffer@)) ==> same_codes(r@, log_bytes(buffer@)),
{
    let mut n: usize = 0;
    while n < buffer.len() && buffer[n] != 0
        invariant
            n <= buffer.len(),
            forall|j: int| 0 <= j < n ==> buffer@[j] != 0,
        decreases buffer.len() - n,
    {
        n = n + 1;
    }
    proof {
        lemma_text_end(buffer@, n as int);
    }
    let mut text: Vec<u8> = Vec::with_capacity(n);
    let mut i: usize = 0;
    while i < n
        invariant
            i <= n <= buffer.len(),
            text@ =~= buffer@.take(i as int),
        decreases n - i,
    {
        text.push(buffer[i]);
        i = i + 1;
    }
    assert(text@ =~= log_bytes(buffer@));
    decode_lossy(text.as_slice())
}

} // verus!

use vstd::prelude::*;

verus! {

/// The pipeline stage a shader object belongs to.
#[derive(Clone, Copy, PartialEq, Eq, Structural, Debug)]
pub enum ShaderKind {
    Vertex,
    Fragment,
}

/// Number of bytes reserved for one driver diagnostic log.
pub const INFO_LOG_LEN: usize = 512;

/// A zero-filled diagnostic log buffer of the reserved length.
pub open spec fn spec_zero_log() -> Seq<u8> {
    Seq::new(INFO_LOG_LEN as nat, |i: int| 0u8)
}

/// A fresh zero-filled buffer for the driver to write a diagnostic
/// log into.
pub fn info_log_buffer() -> (v: Vec<u8>)
    ensures
        v@ == spec_zero_log(),
{
    let mut v: Vec<u8> = Vec::new();
    let mut i: usize = 0;
    while i < INFO_LOG_LEN
        invariant
            i <= INFO_LOG_LEN,
            v@ == Seq::new(i as nat, |j: int| 0u8),
        decreases INFO_LOG_LEN - i,
    {
        v.push(0u8);
        i = i + 1;
        proof {
            assert(v@ =~= Seq::new(i as nat, |j: int| 0u8));
        }
    }
    v
}

/// Whether a driver status flag reports success: the driver writes
/// zero on failure and a nonzero value on success.
pub open spec fn status_ok(status: i32) -> bool {
    status != 0
}

/// Decide the advisory diagnostic for one status query, the same rule
/// for compiling and linking: on failure the driver log is reported,
/// on success nothing is.
pub fn status_diagnostic(status: i32, info_log: Vec<u8>) -> (r: Option<Vec<u8>>)
    ensures
        status_ok(status) <==> r is None,
        r matches Some(l) ==> l@ == info_log@,
{
    if status == 0 {
        Some(info_log)
    } else {
        None
    }
}

/// What one compile attempt produced: the handle the driver allotted,
/// the stage it was compiled for, and a diagnostic, present exactly
/// when the driver reported failure.
#[derive(Clone, PartialEq, Eq, Debug)]
pub struct CompiledShader {
    pub handle: u32,
    pub kind: ShaderKind,
    pub diagnostic: Option<Vec<u8>>,
}

impl CompiledShader {
    /// The driver reported a successful compile.
    pub open spec fn compiled_ok(self) -> bool {
        self.diagnostic is None
    }
}

/// Record the outcome of compiling one shader from the driver's
/// status flag and log. The handle is kept whether or not compilation
/// succeeded: a failure is advisory only and never withholds the
/// handle from later use.
pub fn compile_outcome(handle: u32, kind: ShaderKind, status: i32, info_log: Vec<u8>) -> (s:
    CompiledShader)
    ensures
        s.handle == handle,
        s.kind == kind,
        s.compiled_ok() <==> status_ok(status),
        s.diagnostic matches Some(l) ==> l@ == info_log@,
{
    CompiledShader { handle, kind, diagnostic: status_diagnostic(status, info_log) }
}

/// What one link attempt produced: the program handle, the handles of
/// the two attached shaders, and a diagnostic, present exactly when
/// the driver reported failure.
#[derive(Clone, PartialEq, Eq, Debug)]
pub struct LinkedProgram {
    pub handle: u32,
    pub vertex_shader: u32,
    pub fragment_shader: u32,
    pub diagnostic: Option<Vec<u8>>,
}

impl LinkedProgram {
    /// The driver reported a successful link.
    pub open spec fn linked_ok(self) -> bool {
        self.diagnostic is None
    }
}

/// Record the outcome of linking one vertex and one fragment shader
/// into a program. As with compiling, the handle is kept even on
/// failure: the status check is advisory and the caller may go on to
/// activate the program regardless.
pub fn link_outcome(
    handle: u32,
    vertex: &CompiledShader,
    fragment: &CompiledShader,
    status: i32,
    info_log: Vec<u8>,
) -> (p: LinkedProgram)
    requires
        vertex.kind is Vertex,
        fragment.kind is Fragment,
    ensures
        p.handle == handle,
        p.vertex_shader == vertex.handle,
        p.fragment_shader == fragment.handle,
        p.linked_ok() <==> status_ok(status),
        p.diagnostic matches Some(l) ==> l@ == info_log@,
{
    LinkedProgram {
        handle,
        vertex_shader: vertex.handle,
        fragment_shader: fragment.handle,
        diagnostic: status_diagnostic(status, info_log),
    }
}

} // verus!

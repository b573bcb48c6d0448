//! The shader program: deciding whether it was built, and the commands that use it.
use crate::command::GlCommand;
use vstd::prelude::*;

verus! {

/// The status that the GPU reports for a stage that compiled or a program that linked.
pub const STATUS_OK: i32 = 1;

/// A stage of building the program.
#[derive(Debug, PartialEq, Eq, Structural, Clone, Copy)]
pub enum ShaderStage {
    Vertex,
    Fragment,
    Program,
}

/// Which status to ask the GPU for, for a stage.
#[derive(Debug, PartialEq, Eq, Structural, Clone, Copy)]
pub enum StatusQuery {
    CompileStatus,
    LinkStatus,
}

/// What went wrong in a stage, for its diagnostic.
#[derive(Debug, PartialEq, Eq, Structural, Clone, Copy)]
pub enum DiagnosticKind {
    ShaderCompilation,
    ProgramLinking,
}

/// Why no usable program came out of the build.
#[derive(Debug, PartialEq, Eq, Structural, Clone, Copy)]
pub enum ShaderError {
    VertexCompile,
    FragmentCompile,
    Link,
}

impl ShaderStage {
    /// Shader stages report a compile status; the program reports a link status.
    pub fn status_query(&self) -> (r: StatusQuery)
        ensures
            *self == ShaderStage::Program <==> r == StatusQuery::LinkStatus,
    {
        match self {
            ShaderStage::Program => StatusQuery::LinkStatus,
            _ => StatusQuery::CompileStatus,
        }
    }

    /// The stage's name in diagnostics.
    pub fn name(&self) -> (r: &'static str)
        ensures
            *self == ShaderStage::Vertex ==> r@ == "VERTEX"@,
            *self == ShaderStage::Fragment ==> r@ == "FRAGMENT"@,
            *self == ShaderStage::Program ==> r@ == "PROGRAM"@,
    {
        match self {
            ShaderStage::Vertex => "VERTEX",
            ShaderStage::Fragment => "FRAGMENT",
            ShaderStage::Program => "PROGRAM",
        }
    }
}

/// The diagnostic owed for a stage whose reported status is `status`: none when
/// it succeeded, else a compile error for a shader stage and a link error for
/// the program.
pub fn check_compile_errors(stage: ShaderStage, status: i32) -> (r: Option<DiagnosticKind>)
    ensures
        status == STATUS_OK <==> r is None,
        r is Some ==> (r->0 == DiagnosticKind::ProgramLinking <==> stage == ShaderStage::Program),
{
    if status == STATUS_OK {
        None
    } else {
        match stage {
            ShaderStage::Program => Some(DiagnosticKind::ProgramLinking),
            _ => Some(DiagnosticKind::ShaderCompilation),
        }
    }
}

/// Whether `c` sets the integer uniform `name` to `value`.
pub open spec fn sets_int(c: GlCommand, name: Seq<char>, value: i32) -> bool {
    c is UniformInt && c->UniformInt_0@ == name && c->UniformInt_1 == value
}

/// Whether `c` sets the two-component uniform `name` to `(x, y)`.
pub open spec fn sets_vec2(c: GlCommand, name: Seq<char>, x: i32, y: i32) -> bool {
    c is UniformVec2 && c->UniformVec2_0@ == name && c->UniformVec2_1 == x && c->UniformVec2_2 == y
}

/// A linked shader program.
#[derive(Debug, PartialEq, Eq, Structural, Clone, Copy)]
pub struct Shader {
    pub id: u32,
}

impl Shader {
    /// Accepts the program `id` when both stages compiled and the program
    /// linked; a failed stage is fatal, the first failure is reported.
    pub fn new(id: u32, vertex_status: i32, fragment_status: i32, link_status: i32) -> (r: Result<Shader, ShaderError>)
        ensures
            r is Ok <==> (vertex_status == STATUS_OK && fragment_status == STATUS_OK && link_status == STATUS_OK),
            r is Ok ==> r->Ok_0 == (Shader { id }),
            vertex_status != STATUS_OK ==> r == Err::<Shader, ShaderError>(ShaderError::VertexCompile),
            vertex_status == STATUS_OK && fragment_status != STATUS_OK ==> r == Err::<Shader, ShaderError>(ShaderError::FragmentCompile),
            vertex_status == STATUS_OK && fragment_status == STATUS_OK && link_status != STATUS_OK ==> r == Err::<Shader, ShaderError>(ShaderError::Link),
    {
        if check_compile_errors(ShaderStage::Vertex, vertex_status).is_some() {
            Err(ShaderError::VertexCompile)
        } else if check_compile_errors(ShaderStage::Fragment, fragment_status).is_some() {
            Err(ShaderError::FragmentCompile)
        } else if check_compile_errors(ShaderStage::Program, link_status).is_some() {
            Err(ShaderError::Link)
        } else {
            Ok(Shader { id })
        }
    }

    /// Makes the program current.
    pub fn use_program(&self) -> (r: GlCommand)
        ensures
            r == GlCommand::UseProgram(self.id),
    {
        GlCommand::UseProgram(self.id)
    }

    /// Sets a boolean uniform, as the integer 1 or 0.
    pub fn set_bool(&self, name: &str, value: bool) -> (r: GlCommand)
        ensures
            sets_int(r, name@, if value { 1 } else { 0 }),
    {
        GlCommand::UniformInt(name.to_owned(), if value { 1 } else { 0 })
    }

    pub fn set_int(&self, name: &str, value: i32) -> (r: GlCommand)
        ensures
            sets_int(r, name@, value),
    {
        GlCommand::UniformInt(name.to_owned(), value)
    }

    pub fn set_vec2(&self, name: &str, value: (i32, i32)) -> (r: GlCommand)
        ensures
            sets_vec2(r, name@, value.0, value.1),
    {
        GlCommand::UniformVec2(name.to_owned(), value.0, value.1)
    }

    /// The command that deletes the program.
    pub fn release(&self) -> (r: GlCommand)
        ensures
            r == GlCommand::DeleteProgram(self.id),
    {
        GlCommand::DeleteProgram(self.id)
    }
}

} // verus!

use screen_mirror::command::GlCommand;
use screen_mirror::shader::{check_compile_errors, DiagnosticKind, Shader, ShaderError, ShaderStage, StatusQuery, STATUS_OK};

#[test]
fn shader_new_accepts_linked_program() {
    assert_eq!(Shader::new(4, 1, 1, 1), Ok(Shader { id: 4 }));
}

#[test]
fn shader_new_reports_first_failure() {
    assert_eq!(Shader::new(4, 0, 0, 0), Err(ShaderError::VertexCompile));
    assert_eq!(Shader::new(4, 1, 0, 0), Err(ShaderError::FragmentCompile));
    assert_eq!(Shader::new(4, 1, 1, 0), Err(ShaderError::Link));
}

#[test]
fn shader_stage_queries_and_names() {
    assert_eq!(ShaderStage::Vertex.status_query(), StatusQuery::CompileStatus);
    assert_eq!(ShaderStage::Fragment.status_query(), StatusQuery::CompileStatus);
    assert_eq!(ShaderStage::Program.status_query(), StatusQuery::LinkStatus);
    assert_eq!(ShaderStage::Vertex.name(), "VERTEX");
    assert_eq!(ShaderStage::Fragment.name(), "FRAGMENT");
    assert_eq!(ShaderStage::Program.name(), "PROGRAM");
}

#[test]
fn shader_compile_diagnostics() {
    assert_eq!(check_compile_errors(ShaderStage::Vertex, STATUS_OK), None);
    assert_eq!(check_compile_errors(ShaderStage::Vertex, 0), Some(DiagnosticKind::ShaderCompilation));
    assert_eq!(check_compile_errors(ShaderStage::Fragment, 0), Some(DiagnosticKind::ShaderCompilation));
    assert_eq!(check_compile_errors(ShaderStage::Program, 0), Some(DiagnosticKind::ProgramLinking));
    assert_eq!(check_compile_errors(ShaderStage::Program, 1), None);
}

#[test]
fn shader_uniform_commands() {
    let s = Shader { id: 2 };
    assert_eq!(s.use_program(), GlCommand::UseProgram(2));
    assert_eq!(s.set_bool("flag", true), GlCommand::UniformInt("flag".to_string(), 1));
    assert_eq!(s.set_bool("flag", false), GlCommand::UniformInt("flag".to_string(), 0));
    assert_eq!(s.set_int("count", -5), GlCommand::UniformInt("count".to_string(), -5));
    assert_eq!(s.set_vec2("resolution", (1600, 900)), GlCommand::UniformVec2("resolution".to_string(), 1600, 900));
    assert_eq!(s.release(), GlCommand::DeleteProgram(2));
}

use screen_mirror::command::{GlCommand, VertexAttribute};
use screen_mirror::quad::{quad_indices, quad_vertices, vertex_layout, QuadRenderer};
use screen_mirror::resolution::Resolution;
use screen_mirror::shader::Shader;

#[test]
fn quad_geometry() {
    assert_eq!(quad_indices(), vec![0, 1, 3, 1, 2, 3]);
    let v = quad_vertices();
    assert_eq!(v.len(), 32);
    assert_eq!(&v[0..8], &[1, 1, 0, 1, 0, 0, 1, 1]);
    assert_eq!(&v[16..24], &[-1, -1, 0, 0, 0, 1, 0, 0]);
    let l = vertex_layout();
    assert_eq!(l[2], VertexAttribute { location: 2, components: 2, offset: 6, stride: 8 });
}

#[test]
fn quad_setup_commands() {
    let (q, cmds) = QuadRenderer::new(Shader { id: 1 }, 2, 3, 4);
    assert_eq!(q.shader(), Shader { id: 1 });
    assert_eq!(cmds.len(), 8);
    assert_eq!(cmds[0], GlCommand::BindVertexArray(2));
    assert_eq!(cmds[1], GlCommand::BindArrayBuffer(3));
    assert_eq!(cmds[2], GlCommand::ArrayBufferData(quad_vertices()));
    assert_eq!(cmds[3], GlCommand::BindElementBuffer(4));
    assert_eq!(cmds[4], GlCommand::ElementBufferData(quad_indices()));
    assert_eq!(cmds[5], GlCommand::EnableAttribute(VertexAttribute { location: 0, components: 3, offset: 0, stride: 8 }));
}

#[test]
fn quad_render_is_repeatable() {
    let (q, _) = QuadRenderer::new(Shader { id: 1 }, 2, 3, 4);
    let res = Resolution { width: 1600, height: 900 };
    let a = q.render(res);
    let b = q.render(res);
    assert_eq!(a, b);
    assert_eq!(
        a,
        vec![
            GlCommand::UseProgram(1),
            GlCommand::UniformVec2("resolution".to_string(), 1600, 900),
            GlCommand::BindVertexArray(2),
            GlCommand::DrawElements(6),
        ]
    );
}

#[test]
fn quad_release_order() {
    let (q, _) = QuadRenderer::new(Shader { id: 1 }, 2, 3, 4);
    assert_eq!(
        q.release(),
        vec![
            GlCommand::DeleteBuffer(4),
            GlCommand::DeleteBuffer(3),
            GlCommand::DeleteVertexArray(2),
            GlCommand::DeleteProgram(1),
        ]
    );
}

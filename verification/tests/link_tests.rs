use render_gl::context::ContextModel;
use render_gl::{Program, Shader, ShaderStageKind};

fn ready_pair(ctx: &mut ContextModel) -> Vec<Shader> {
    let vsrc =
        b"#version 330 core\nlayout (location = 0) in vec3 Position;\nvoid main(){ gl_Position = vec4(Position, 1); }\0"
            .to_vec();
    let fsrc = b"#version 330 core\nout vec4 Color;\nvoid main(){ Color = vec4(1, 1, 1, 1); }\0"
        .to_vec();
    let vert = Shader::from_vert_source(ctx, &vsrc, 1, 1, Vec::new()).unwrap();
    let frag = Shader::from_frag_source(ctx, &fsrc, 2, 1, Vec::new()).unwrap();
    vec![vert, frag]
}

#[test]
fn passthrough_pair_links_and_activates() {
    // A minimal pass-through vertex + fragment pair: the link succeeds, the
    // program can be made active, and nothing was released along the way.
    let mut ctx = ContextModel::new();
    let shaders = ready_pair(&mut ctx);
    let program = Program::from_shaders(&mut ctx, &shaders, 10, 1, Vec::new()).unwrap();
    assert_eq!(program.id(), 10);
    assert!(ctx.program_live(10));
    program.set_used(&mut ctx);
    assert_eq!(ctx.active(), Some(10));
    assert!(ctx.shader_live(1));
    assert!(ctx.shader_live(2));
}

#[test]
fn attach_and_detach_order_is_the_given_order() {
    let mut ctx = ContextModel::new();
    let shaders = ready_pair(&mut ctx);
    let ids = Program::shader_ids(&shaders);
    assert_eq!(ids, vec![1, 2]);
}

#[test]
fn single_stage_link_fails_with_diagnostic() {
    // Only a vertex stage, no fragment stage: the driver refuses to link and
    // the caller gets its text back; the abandoned program object stays dead.
    let mut ctx = ContextModel::new();
    let vsrc = b"#version 330 core\nvoid main(){ gl_Position = vec4(0, 0, 0, 1); }\0".to_vec();
    let vert = Shader::from_vert_source(&mut ctx, &vsrc, 1, 1, Vec::new()).unwrap();
    let shaders = vec![vert];
    let log = b"error: program lacks a fragment shader\0".to_vec();
    let r = Program::from_shaders(&mut ctx, &shaders, 10, 0, log);
    match r {
        Ok(_) => panic!("a zero link status must not yield a program"),
        Err(d) => {
            assert_eq!(d, "error: program lacks a fragment shader");
            assert!(!d.is_empty());
        }
    }
    assert!(!ctx.program_live(10));
    assert!(ctx.shader_live(1));
}

#[test]
fn detached_shaders_link_a_second_program() {
    // Detaching after a successful link leaves the shaders independently
    // usable: the same pair links a second program, and each shader is still
    // live and releasable exactly once afterwards.
    let mut ctx = ContextModel::new();
    let shaders = ready_pair(&mut ctx);
    let first = Program::from_shaders(&mut ctx, &shaders, 10, 1, Vec::new()).unwrap();
    let second = Program::from_shaders(&mut ctx, &shaders, 11, 1, Vec::new()).unwrap();
    assert_eq!(first.id(), 10);
    assert_eq!(second.id(), 11);
    assert!(ctx.program_live(10));
    assert!(ctx.program_live(11));
    assert!(ctx.shader_live(1));
    assert!(ctx.shader_live(2));
    assert!(ctx.release_shader(1));
    assert!(ctx.release_shader(2));
    assert!(!ctx.release_shader(1));
}

#[test]
fn failed_link_changes_nothing() {
    let mut ctx = ContextModel::new();
    let shaders = ready_pair(&mut ctx);
    let log = b"error: interface mismatch\0".to_vec();
    let r = Program::from_shaders(&mut ctx, &shaders, 12, 0, log);
    assert!(r.is_err());
    assert!(!ctx.program_live(12));
    assert!(ctx.shader_live(1));
    assert!(ctx.shader_live(2));
    assert_eq!(ctx.active(), None);
}

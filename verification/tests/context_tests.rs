use render_gl::context::ContextModel;

#[test]
fn new_context_is_empty() {
    let ctx = ContextModel::new();
    assert!(!ctx.shader_live(1));
    assert!(!ctx.program_live(1));
    assert_eq!(ctx.active(), None);
}

#[test]
fn release_happens_exactly_once() {
    // The first release of a live handle succeeds; after it the handle is no
    // longer live, so a second release finds nothing and changes nothing.
    let mut ctx = ContextModel::new();
    ctx.register_shader(4);
    assert!(ctx.shader_live(4));
    assert!(ctx.release_shader(4));
    assert!(!ctx.shader_live(4));
    assert!(!ctx.release_shader(4));
    assert!(!ctx.shader_live(4));
}

#[test]
fn program_release_happens_exactly_once() {
    let mut ctx = ContextModel::new();
    ctx.register_program(7);
    assert!(ctx.release_program(7));
    assert!(!ctx.release_program(7));
}

#[test]
fn releasing_one_handle_leaves_others_live() {
    let mut ctx = ContextModel::new();
    ctx.register_shader(1);
    ctx.register_shader(2);
    ctx.register_shader(3);
    assert!(ctx.release_shader(2));
    assert!(ctx.shader_live(1));
    assert!(!ctx.shader_live(2));
    assert!(ctx.shader_live(3));
}

#[test]
fn releasing_the_active_program_deactivates_it() {
    let mut ctx = ContextModel::new();
    ctx.register_program(9);
    ctx.activate(9);
    assert_eq!(ctx.active(), Some(9));
    assert!(ctx.release_program(9));
    assert_eq!(ctx.active(), None);
}

#[test]
fn releasing_another_program_keeps_the_active_one() {
    let mut ctx = ContextModel::new();
    ctx.register_program(9);
    ctx.register_program(10);
    ctx.activate(9);
    assert!(ctx.release_program(10));
    assert_eq!(ctx.active(), Some(9));
}

#[test]
fn shader_and_program_handles_are_tracked_apart() {
    let mut ctx = ContextModel::new();
    ctx.register_shader(5);
    ctx.register_program(5);
    assert!(ctx.release_shader(5));
    assert!(ctx.program_live(5));
    assert!(!ctx.shader_live(5));
}

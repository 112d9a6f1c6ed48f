use glfw_demo::command::{Command, Viewport};
use glfw_demo::context::{Context, ContextState};
use glfw_demo::event::{handle_window_event, WindowEvent};
use glfw_demo::vao::Vao;
use glfw_demo::vbo::Vbo;

#[test]
fn a_new_context_has_nothing_bound_and_nothing_pending() {
    let mut ctx = Context::new();
    assert_eq!(
        ctx.state(),
        ContextState {
            vertex_array: None,
            array_buffer: None,
            program: None,
            viewport: None,
            should_close: false,
        }
    );
    assert!(ctx.take_commands().is_empty());
}

#[test]
fn taking_the_commands_leaves_none_pending_and_the_state_as_it_is() {
    let mut ctx = Context::new();
    Vao::create(1).bind(&mut ctx);
    Vbo::create(2).bind(&mut ctx);
    handle_window_event(&mut ctx, WindowEvent::FramebufferSize(3, 4));
    let before = ctx.state();
    assert_eq!(
        ctx.take_commands(),
        vec![
            Command::BindVertexArray { array: 1 },
            Command::BindBuffer { buffer: 2 },
            Command::SetViewport { viewport: Viewport { x: 0, y: 0, width: 3, height: 4 } },
        ]
    );
    assert_eq!(ctx.state(), before);
    assert!(ctx.take_commands().is_empty());
    assert_eq!(ctx.state().vertex_array, Some(1));
    assert_eq!(ctx.state().array_buffer, Some(2));
}

#[test]
fn commands_come_out_oldest_first_and_only_once() {
    let mut ctx = Context::new();
    Vbo::create(1).bind(&mut ctx);
    Vbo::create(2).bind(&mut ctx);
    assert_eq!(
        ctx.take_commands(),
        vec![Command::BindBuffer { buffer: 1 }, Command::BindBuffer { buffer: 2 }]
    );
    Vbo::create(3).bind(&mut ctx);
    assert_eq!(ctx.take_commands(), vec![Command::BindBuffer { buffer: 3 }]);
}

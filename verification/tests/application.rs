use glfw_demo::app::{window_config, AppState, Application, WINDOW_SIZE, WINDOW_TITLE};
use glfw_demo::command::Command;
use glfw_demo::context::Context;
use glfw_demo::error::Error;
use glfw_demo::event::{handle_window_event, Action, Key, WindowEvent};
use glfw_demo::mesh::create_mesh;
use glfw_demo::shader::DriverReply;

fn running_with_triangle(ctx: &mut Context) -> Application {
    let build = create_mesh(ctx, 1, 2, 3);
    let build = build.reply(ctx, DriverReply::Accepted { handle: 11 });
    let build = build.reply(ctx, DriverReply::Accepted { handle: 12 });
    let build = build.reply(ctx, DriverReply::Accepted { handle: 4 });
    ctx.take_commands();
    let mut app = Application::new();
    assert_eq!(app.start(build.finish().unwrap().map(Some)), Ok(()));
    app
}

#[test]
fn the_window_is_300_by_300_and_titled_glfw_demo() {
    let config = window_config();
    assert_eq!(config.width, 300);
    assert_eq!(config.height, 300);
    assert_eq!(config.title, "GLFW Demo");
    assert!(config.windowed);
    assert_eq!(WINDOW_SIZE, 300);
    assert_eq!(WINDOW_TITLE, "GLFW Demo");
}

#[test]
fn the_window_reports_keys_and_framebuffer_sizes() {
    let config = window_config();
    assert!(config.key_polling);
    assert!(config.framebuffer_size_polling);
}

#[test]
fn an_application_begins_by_setting_itself_up() {
    let app = Application::new();
    assert_eq!(app.state(), AppState::Initializing);
    assert!(app.mesh().is_none());
}

#[test]
fn an_application_does_not_run_before_it_is_set_up() {
    let ctx = Context::new();
    let mut app = Application::new();
    assert!(!app.keep_running(&ctx, false));
    assert_eq!(app.state(), AppState::Initializing);
    assert!(!app.keep_running(&ctx, true));
    assert_eq!(app.state(), AppState::Initializing);
}

#[test]
fn a_built_mesh_lets_the_application_run() {
    let mut ctx = Context::new();
    let app = running_with_triangle(&mut ctx);
    assert_eq!(app.state(), AppState::Running);
    assert_eq!(app.mesh().unwrap().vertex_count(), 3);
    assert_eq!(app.mesh().unwrap().vao().handle(), 1);
}

#[test]
fn an_application_runs_without_a_mesh_too() {
    let mut app = Application::new();
    assert_eq!(app.start(Ok(None)), Ok(()));
    assert_eq!(app.state(), AppState::Running);
    assert!(app.mesh().is_none());
}

#[test]
fn a_compile_error_closes_the_application_and_is_handed_on() {
    let mut app = Application::new();
    let error = Error::CompileError(String::from("syntax error"));
    assert_eq!(app.start(Err(error)), Err(Error::CompileError(String::from("syntax error"))));
    assert_eq!(app.state(), AppState::Closing);
    assert!(app.mesh().is_none());
}

#[test]
fn a_link_error_closes_the_application_and_is_handed_on() {
    let mut app = Application::new();
    let error = Error::LinkError(String::from("mismatch"));
    assert_eq!(app.start(Err(error)), Err(Error::LinkError(String::from("mismatch"))));
    assert_eq!(app.state(), AppState::Closing);
}

#[test]
fn a_failed_application_draws_no_frame() {
    let mut ctx = Context::new();
    let mut app = Application::new();
    assert!(app.start(Err(Error::LinkError(String::from("mismatch")))).is_err());
    assert!(!app.keep_running(&ctx, false));
    app.frame(&mut ctx);
    assert!(ctx.take_commands().is_empty());
}

#[test]
fn setting_up_twice_changes_nothing() {
    let mut ctx = Context::new();
    let mut app = running_with_triangle(&mut ctx);
    assert_eq!(app.start(Ok(None)), Ok(()));
    assert_eq!(app.state(), AppState::Running);
    assert!(app.mesh().is_some());
    assert_eq!(
        app.start(Err(Error::CompileError(String::from("late")))),
        Err(Error::CompileError(String::from("late")))
    );
    assert_eq!(app.state(), AppState::Running);
    assert!(app.mesh().is_some());
}

#[test]
fn a_running_application_goes_on_while_nothing_asks_it_to_end() {
    let mut ctx = Context::new();
    let mut app = running_with_triangle(&mut ctx);
    assert!(app.keep_running(&ctx, false));
    assert!(app.keep_running(&ctx, false));
    assert_eq!(app.state(), AppState::Running);
}

#[test]
fn a_close_request_of_the_window_system_ends_the_loop() {
    let mut ctx = Context::new();
    let mut app = running_with_triangle(&mut ctx);
    assert!(!app.keep_running(&ctx, true));
    assert_eq!(app.state(), AppState::Closing);
}

#[test]
fn a_closing_application_stays_closing() {
    let mut ctx = Context::new();
    let mut app = running_with_triangle(&mut ctx);
    assert!(!app.keep_running(&ctx, true));
    assert!(!app.keep_running(&ctx, false));
    assert_eq!(app.state(), AppState::Closing);
    assert_eq!(app.start(Ok(None)), Ok(()));
    assert_eq!(app.state(), AppState::Closing);
    app.frame(&mut ctx);
    assert!(ctx.take_commands().is_empty());
}

#[test]
fn a_frame_clears_draws_presents_and_polls() {
    let mut ctx = Context::new();
    let mut app = running_with_triangle(&mut ctx);
    assert!(app.keep_running(&ctx, false));
    app.frame(&mut ctx);
    assert_eq!(
        ctx.take_commands(),
        vec![
            Command::Clear,
            Command::ClearColor {
                red: 0.0f32.to_bits(),
                green: 0.0f32.to_bits(),
                blue: 0.0f32.to_bits(),
                alpha: 1.0f32.to_bits(),
            },
            Command::UseProgram { program: 4 },
            Command::BindVertexArray { array: 1 },
            Command::DrawTriangles { count: 3 },
            Command::SwapBuffers,
            Command::PollEvents,
        ]
    );
}

#[test]
fn a_frame_without_a_mesh_clears_presents_and_polls() {
    let mut ctx = Context::new();
    let mut app = Application::new();
    assert_eq!(app.start(Ok(None)), Ok(()));
    app.frame(&mut ctx);
    assert_eq!(
        ctx.take_commands(),
        vec![
            Command::Clear,
            Command::ClearColor { red: 0, green: 0, blue: 0, alpha: 0x3F80_0000 },
            Command::SwapBuffers,
            Command::PollEvents,
        ]
    );
}

#[test]
fn no_frame_is_drawn_before_the_application_runs() {
    let mut ctx = Context::new();
    let app = Application::new();
    app.frame(&mut ctx);
    assert!(ctx.take_commands().is_empty());
}

#[test]
fn every_frame_is_the_same() {
    let mut ctx = Context::new();
    let app = running_with_triangle(&mut ctx);
    app.frame(&mut ctx);
    let first = ctx.take_commands();
    app.frame(&mut ctx);
    let second = ctx.take_commands();
    assert_eq!(first, second);
}

#[test]
fn the_loop_runs_until_escape_is_pressed() {
    let mut ctx = Context::new();
    let mut app = running_with_triangle(&mut ctx);
    let mut frames = 0;
    while app.keep_running(&ctx, false) {
        app.frame(&mut ctx);
        ctx.take_commands();
        frames += 1;
        if frames == 3 {
            handle_window_event(&mut ctx, WindowEvent::Key(Key::Escape, Action::Press));
        }
        assert!(frames <= 3);
    }
    assert_eq!(frames, 3);
    assert_eq!(app.state(), AppState::Closing);
}

#[test]
fn a_rejected_stage_closes_the_application_before_any_frame() {
    let mut ctx = Context::new();
    let build = create_mesh(&mut ctx, 1, 2, 3);
    let build = build.reply(
        &mut ctx,
        DriverReply::Rejected { handle: 11, log: String::from("syntax error") },
    );
    ctx.take_commands();
    let mut app = Application::new();
    assert_eq!(
        app.start(build.finish().unwrap().map(Some)),
        Err(Error::CompileError(String::from("syntax error")))
    );
    assert_eq!(app.state(), AppState::Closing);
    assert!(!app.keep_running(&ctx, false));
    app.frame(&mut ctx);
    assert!(ctx.take_commands().is_empty());
}

//! The life of the application: it sets itself up, draws frame after frame,
//! and ends when the window is to close.

use vstd::prelude::*;
use crate::command::{Command, CommandView};
use crate::context::{
    Context,
    ContextView,
    lemma_after_all_add,
    lemma_after_all_appends,
    lemma_after_all_short,
};
use crate::error::Error;
use crate::event::{WindowEvent, handled_all, lemma_escape_requests_close};
use crate::mesh::{Mesh, MeshView, ONE, ZERO};

verus! {

/// The window that the application opens.
#[derive(Debug, Clone, Copy, PartialEq, Eq)]
pub struct WindowConfig {
    /// The width of the window.
    pub width: u32,
    /// The height of the window.
    pub height: u32,
    /// The title of the window.
    pub title: &'static str,
    /// Whether the window is an ordinary window, not a whole screen.
    pub windowed: bool,
    /// Whether the window reports what happens to keys.
    pub key_polling: bool,
    /// Whether the window reports new sizes of its framebuffer.
    pub framebuffer_size_polling: bool,
}

/// The title of the application's window.
pub const WINDOW_TITLE: &'static str = "GLFW Demo";

/// The width and the height of the application's window.
pub const WINDOW_SIZE: u32 = 300;

/// The window that the application opens: 300 by 300, titled "GLFW Demo",
/// an ordinary window. Of all kinds of events it reports two, keys and new
/// sizes of the framebuffer.
pub fn window_config() -> (config: WindowConfig)
    ensures
        config == (WindowConfig {
            width: WINDOW_SIZE,
            height: WINDOW_SIZE,
            title: WINDOW_TITLE,
            windowed: true,
            key_polling: true,
            framebuffer_size_polling: true,
        }),
{
    WindowConfig {
        width: WINDOW_SIZE,
        height: WINDOW_SIZE,
        title: WINDOW_TITLE,
        windowed: true,
        key_polling: true,
        framebuffer_size_polling: true,
    }
}

/// Where the application stands.
#[derive(Debug, Clone, Copy, PartialEq, Eq)]
pub enum AppState {
    /// The window is opened and the mesh is built.
    Initializing,
    /// Frames are drawn.
    Running,
    /// The frame loop has ended.
    Closing,
}

/// The application: where it stands, and the mesh that it draws.
#[derive(Debug)]
pub struct Application {
    state: AppState,
    mesh: Option<Mesh>,
}

/// The state of an [`Application`].
pub struct ApplicationView {
    pub state: AppState,
    pub mesh: Option<MeshView>,
}

/// The calls that begin a frame: the framebuffer is cleared, and the colour
/// to clear with is set to opaque black.
pub open spec fn frame_start() -> Seq<CommandView> {
    seq![
        CommandView::Clear,
        CommandView::ClearColor { red: ZERO, green: ZERO, blue: ZERO, alpha: ONE },
    ]
}

/// The calls that end a frame: the frame is presented, and the events of
/// the window are collected.
pub open spec fn frame_end() -> Seq<CommandView> {
    seq![CommandView::SwapBuffers, CommandView::PollEvents]
}

impl ApplicationView {
    /// An application that has not set itself up yet.
    pub open spec fn initial() -> ApplicationView {
        ApplicationView { state: AppState::Initializing, mesh: None }
    }

    /// The application once setting up has ended with `built`: it runs,
    /// with the mesh if there is one to draw, or it closes on an error.
    /// An application that had set itself up before stays as it is.
    pub open spec fn started(self, built: Result<Option<MeshView>, Error>) -> ApplicationView {
        match (self.state, built) {
            (AppState::Initializing, Ok(mesh)) => ApplicationView {
                state: AppState::Running,
                mesh,
            },
            (AppState::Initializing, Err(_)) => ApplicationView {
                state: AppState::Closing,
                mesh: None,
            },
            _ => self,
        }
    }

    /// The application after the frame loop has looked whether to go on:
    /// a running application closes when the window is to close, and every
    /// other one stays as it is.
    pub open spec fn continued(self, should_close: bool) -> ApplicationView {
        if self.state == AppState::Running && should_close {
            ApplicationView { state: AppState::Closing, ..self }
        } else {
            self
        }
    }

    /// The calls of one frame: the framebuffer is cleared, the mesh is
    /// drawn if there is one, the frame is presented and the events are
    /// collected. Only a running application draws frames.
    pub open spec fn frame_calls(self) -> Seq<CommandView> {
        if self.state == AppState::Running {
            frame_start() + match self.mesh {
                Some(mesh) => mesh.draw_calls(),
                None => Seq::empty(),
            } + frame_end()
        } else {
            Seq::empty()
        }
    }
}

/// The view of a mesh that may not be there.
pub open spec fn mesh_view(mesh: Option<Mesh>) -> Option<MeshView> {
    match mesh {
        Some(mesh) => Some(mesh@),
        None => None,
    }
}

/// The outcome of setting up, with the mesh seen by its view.
pub open spec fn built_view(built: Result<Option<Mesh>, Error>) -> Result<Option<MeshView>, Error> {
    match built {
        Ok(mesh) => Ok(mesh_view(mesh)),
        Err(error) => Err(error),
    }
}

impl View for Application {
    type V = ApplicationView;

    closed spec fn view(&self) -> ApplicationView {
        ApplicationView { state: self.state, mesh: mesh_view(self.mesh) }
    }
}

impl Application {
    /// An application that has not set itself up yet.
    pub fn new() -> (app: Application)
        ensures
            app@ == ApplicationView::initial(),
    {
        Application { state: AppState::Initializing, mesh: None }
    }

    /// Where the application stands.
    pub fn state(&self) -> (state: AppState)
        ensures
            state == self@.state,
    {
        self.state
    }

    /// The mesh that the application draws, if it has one.
    pub fn mesh(&self) -> (mesh: Option<&Mesh>)
        ensures
            match mesh {
                Some(mesh) => self@.mesh == Some(mesh@),
                None => self@.mesh is None,
            },
    {
        self.mesh.as_ref()
    }

    /// Ends the setting up. With a mesh, or with nothing to draw, the
    /// application runs; with an error it closes and hands the error on.
    pub fn start(&mut self, built: Result<Option<Mesh>, Error>) -> (result: Result<(), Error>)
        ensures
            final(self)@ == old(self)@.started(built_view(built)),
            result == match built {
                Ok(_) => Ok::<(), Error>(()),
                Err(error) => Err::<(), Error>(error),
            },
    {
        match built {
            Ok(mesh) => {
                if matches!(self.state, AppState::Initializing) {
                    self.state = AppState::Running;
                    self.mesh = mesh;
                }
                Ok(())
            },
            Err(error) => {
                if matches!(self.state, AppState::Initializing) {
                    self.state = AppState::Closing;
                    self.mesh = None;
                }
                Err(error)
            },
        }
    }

    /// Looks whether the frame loop goes on. `close_requested` says whether
    /// the window system wants the window closed. A running application
    /// closes if it does, or if the renderer has asked for the end itself.
    /// The answer is whether the application is running after that.
    pub fn keep_running(&mut self, ctx: &Context, close_requested: bool) -> (running: bool)
        ensures
            final(self)@ == old(self)@.continued(ctx@.state.should_close || close_requested),
            running == (final(self)@.state == AppState::Running),
    {
        let should_close: bool = ctx.state().should_close || close_requested;
        match self.state {
            AppState::Running => {
                if should_close {
                    self.state = AppState::Closing;
                    false
                } else {
                    true
                }
            },
            _ => false,
        }
    }

    /// Records the calls of one frame, if the application is running.
    pub fn frame(&self, ctx: &mut Context)
        ensures
            final(ctx)@ == old(ctx)@.after_all(self@.frame_calls()),
            final(ctx)@.pending == old(ctx)@.pending + self@.frame_calls(),
    {
        proof {
            lemma_after_all_appends(ctx@, self@.frame_calls());
        }
        match self.state {
            AppState::Running => {
                let ghost start = ctx@;
                let ghost drawn = match self@.mesh {
                    Some(mesh) => mesh.draw_calls(),
                    None => Seq::empty(),
                };
                proof {
                    lemma_after_all_short(start, frame_start()[0], frame_start()[1]);
                    assert(frame_start() == seq![frame_start()[0], frame_start()[1]]);
                    lemma_after_all_add(start, frame_start(), drawn);
                    lemma_after_all_short(
                        start.after_all(frame_start() + drawn),
                        frame_end()[0],
                        frame_end()[1],
                    );
                    assert(frame_end() == seq![frame_end()[0], frame_end()[1]]);
                    lemma_after_all_add(start, frame_start() + drawn, frame_end());
                }
                ctx.record(Command::Clear);
                ctx.record(Command::ClearColor { red: ZERO, green: ZERO, blue: ZERO, alpha: ONE });
                match &self.mesh {
                    Some(mesh) => {
                        mesh.draw(ctx);
                    },
                    None => {},
                }
                ctx.record(Command::SwapBuffers);
                ctx.record(Command::PollEvents);
            },
            _ => {},
        }
    }
}

/// A running application whose events held a press of Escape is closing
/// after the next look of the frame loop, whatever the other events were
/// and whatever the window system wants.
pub proof fn lemma_escape_closes(
    app: ApplicationView,
    context: ContextView,
    events: Seq<WindowEvent>,
    i: int,
    close_requested: bool,
)
    requires
        app.state == AppState::Running,
        0 <= i < events.len(),
        events[i].is_escape_press(),
    ensures
        app.continued(handled_all(context, events).state.should_close || close_requested).state
            == AppState::Closing,
{
    lemma_escape_requests_close(context, events, i);
}

/// An application whose setting up ends in an error never runs: it closes,
/// the frame loop's first look finds it closing, and it draws no frame.
pub proof fn lemma_failed_setup_never_runs(app: ApplicationView, error: Error, should_close: bool)
    requires
        app.state == AppState::Initializing,
    ensures
        app.started(Err(error)).state == AppState::Closing,
        app.started(Err(error)).continued(should_close).state == AppState::Closing,
        app.started(Err(error)).frame_calls() == Seq::<CommandView>::empty(),
{
}

/// The frame loop ends for good: an application that is closing stays so,
/// whatever setting up or the frame loop's look would bring.
pub proof fn lemma_closing_is_final(
    app: ApplicationView,
    built: Result<Option<MeshView>, Error>,
    should_close: bool,
)
    requires
        app.state == AppState::Closing,
    ensures
        app.started(built) == app,
        app.continued(should_close) == app,
        app.frame_calls() == Seq::<CommandView>::empty(),
{
}

} // verus!

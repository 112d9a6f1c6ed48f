//! The window and its graphics context, as far as the renderer keeps track
//! of them.
//!
//! The graphics context has one vertex array, one vertex buffer and one
//! shader program in use at a time, and calls act on whichever is in use.
//! A [`Context`] records every call that the renderer asks for and keeps up
//! with what those calls leave bound, so that no call is recorded before the
//! objects it acts on are bound.

use vstd::prelude::*;
use crate::command::{Command, CommandView, Viewport, command_views};

verus! {

/// What is in use in the graphics context, and what was last asked of the
/// window.
#[derive(Debug, Clone, Copy, PartialEq, Eq)]
pub struct ContextState {
    /// The vertex array that is bound, if any.
    pub vertex_array: Option<u32>,
    /// The vertex buffer that is bound, if any.
    pub array_buffer: Option<u32>,
    /// The shader program that is active, if any.
    pub program: Option<u32>,
    /// The viewport that was last asked for, if any was.
    pub viewport: Option<Viewport>,
    /// Whether the frame loop has been asked to end.
    pub should_close: bool,
}

impl ContextState {
    /// Nothing bound, nothing asked for.
    pub open spec fn initial() -> ContextState {
        ContextState {
            vertex_array: None,
            array_buffer: None,
            program: None,
            viewport: None,
            should_close: false,
        }
    }

    /// The state that one call leaves behind.
    pub open spec fn apply(self, command: CommandView) -> ContextState {
        match command {
            CommandView::BindVertexArray { array } => ContextState {
                vertex_array: Some(array),
                ..self
            },
            CommandView::UnbindVertexArray => ContextState { vertex_array: None, ..self },
            CommandView::BindBuffer { buffer } => ContextState {
                array_buffer: Some(buffer),
                ..self
            },
            CommandView::UnbindBuffer => ContextState { array_buffer: None, ..self },
            CommandView::UseProgram { program } => ContextState { program: Some(program), ..self },
            CommandView::SetViewport { viewport } => ContextState {
                viewport: Some(viewport),
                ..self
            },
            CommandView::SetShouldClose { value } => ContextState { should_close: value, ..self },
            _ => self,
        }
    }

    /// Whether everything that a call acts on is bound: a vertex buffer for
    /// an upload; a vertex buffer and a vertex array for the description of
    /// an attribute; a vertex array and a program for a draw call. Any other
    /// call can be made at any time.
    pub open spec fn allows(self, command: CommandView) -> bool {
        match command {
            CommandView::UploadData { .. } => self.array_buffer is Some,
            CommandView::VertexAttrib { .. } => self.array_buffer is Some && self.vertex_array
                is Some,
            CommandView::DrawTriangles { .. } => self.vertex_array is Some && self.program
                is Some,
            _ => true,
        }
    }
}

/// The state that a run of calls leaves behind, starting with nothing bound.
pub open spec fn replay(commands: Seq<CommandView>) -> ContextState
    decreases commands.len(),
{
    if commands.len() == 0 {
        ContextState::initial()
    } else {
        replay(commands.drop_last()).apply(commands.last())
    }
}

/// Whether each call of a run comes only after the objects that it acts on
/// were bound by the calls before it.
pub open spec fn in_order(commands: Seq<CommandView>) -> bool {
    forall|i: int|
        0 <= i < commands.len() ==> replay(#[trigger] commands.take(i)).allows(commands[i])
}

/// What the renderer knows of the window and its graphics context.
pub struct Context {
    state: ContextState,
    commands: Vec<Command>,
    history: Ghost<Seq<CommandView>>,
}

/// The state of a [`Context`].
pub struct ContextView {
    /// What is in use now.
    pub state: ContextState,
    /// The calls recorded and not yet handed out, oldest first.
    pub pending: Seq<CommandView>,
    /// Every call recorded since the context was made, oldest first.
    pub history: Seq<CommandView>,
}

impl ContextView {
    /// A context in which nothing has happened yet.
    pub open spec fn initial() -> ContextView {
        ContextView {
            state: ContextState::initial(),
            pending: Seq::empty(),
            history: Seq::empty(),
        }
    }

    /// This context with one more call recorded.
    pub open spec fn after(self, command: CommandView) -> ContextView {
        ContextView {
            state: self.state.apply(command),
            pending: self.pending.push(command),
            history: self.history.push(command),
        }
    }

    /// This context with a run of calls recorded, one after the other.
    pub open spec fn after_all(self, commands: Seq<CommandView>) -> ContextView
        decreases commands.len(),
    {
        if commands.len() == 0 {
            self
        } else {
            self.after_all(commands.drop_last()).after(commands.last())
        }
    }

    /// Whether the state is the one that the recorded calls lead to, every
    /// call came in order, and the pending calls are the latest ones.
    pub open spec fn consistent(self) -> bool {
        &&& self.state == replay(self.history)
        &&& in_order(self.history)
        &&& self.pending.len() <= self.history.len()
        &&& self.pending == self.history.skip(self.history.len() - self.pending.len())
    }
}

/// Recording a call that the state allows keeps a context consistent.
pub proof fn lemma_after_consistent(context: ContextView, command: CommandView)
    requires
        context.consistent(),
        context.state.allows(command),
    ensures
        context.after(command).consistent(),
{
    let next = context.after(command);
    assert(next.history.drop_last() == context.history);
    assert forall|i: int| 0 <= i < next.history.len() implies replay(
        #[trigger] next.history.take(i),
    ).allows(next.history[i]) by {
        if i < context.history.len() {
            assert(next.history.take(i) == context.history.take(i));
        } else {
            assert(next.history.take(i) == context.history);
        }
    }
    assert(next.pending == next.history.skip(next.history.len() - next.pending.len()));
}

/// Recording a run of calls and then one more is recording the longer run.
pub proof fn lemma_after_all_push(
    context: ContextView,
    commands: Seq<CommandView>,
    command: CommandView,
)
    ensures
        context.after_all(commands.push(command)) == context.after_all(commands).after(command),
{
    assert(commands.push(command).drop_last() == commands);
}

/// Recording a run of one call is recording that call; recording a run of
/// two is recording the first and then the second.
pub proof fn lemma_after_all_short(context: ContextView, first: CommandView, second: CommandView)
    ensures
        context.after_all(seq![first]) == context.after(first),
        context.after_all(seq![first, second]) == context.after(first).after(second),
{
    lemma_after_all_push(context, Seq::empty(), first);
    assert(Seq::empty().push(first) == seq![first]);
    lemma_after_all_push(context, seq![first], second);
    assert(seq![first].push(second) == seq![first, second]);
}

/// Recording a run of calls appends the run to the pending calls and to the
/// history.
pub proof fn lemma_after_all_appends(context: ContextView, commands: Seq<CommandView>)
    ensures
        context.after_all(commands).pending == context.pending + commands,
        context.after_all(commands).history == context.history + commands,
    decreases commands.len(),
{
    if commands.len() == 0 {
        assert(context.pending + commands == context.pending);
        assert(context.history + commands == context.history);
    } else {
        lemma_after_all_appends(context, commands.drop_last());
        assert((context.pending + commands.drop_last()).push(commands.last()) == context.pending
            + commands);
        assert((context.history + commands.drop_last()).push(commands.last()) == context.history
            + commands);
    }
}

/// Recording one run of calls and then another is recording the two runs
/// joined.
pub proof fn lemma_after_all_add(
    context: ContextView,
    first: Seq<CommandView>,
    second: Seq<CommandView>,
)
    ensures
        context.after_all(first + second) == context.after_all(first).after_all(second),
    decreases second.len(),
{
    if second.len() == 0 {
        assert(first + second == first);
    } else {
        lemma_after_all_add(context, first, second.drop_last());
        assert((first + second).drop_last() == first + second.drop_last());
    }
}

impl View for Context {
    type V = ContextView;

    closed spec fn view(&self) -> ContextView {
        ContextView {
            state: self.state,
            pending: command_views(self.commands@),
            history: self.history@,
        }
    }
}

impl Context {
    #[verifier::type_invariant]
    spec fn consistent(self) -> bool {
        self@.consistent()
    }

    /// A context in which nothing is bound and nothing is recorded.
    pub fn new() -> (ctx: Context)
        ensures
            ctx@ == ContextView::initial(),
    {
        let state = ContextState {
            vertex_array: None,
            array_buffer: None,
            program: None,
            viewport: None,
            should_close: false,
        };
        let commands: Vec<Command> = Vec::new();
        proof {
            assert(command_views(commands@) =~= Seq::empty());
            assert(Seq::<CommandView>::empty().skip(0) =~= Seq::empty());
        }
        Context { state, commands, history: Ghost(Seq::empty()) }
    }

    /// What is in use now. It is what the calls recorded so far lead to, and
    /// each of those calls came in order.
    pub fn state(&self) -> (state: ContextState)
        ensures
            state == self@.state,
            self@.consistent(),
    {
        proof {
            use_type_invariant(self);
        }
        self.state
    }

    /// Hands out the pending calls, oldest first, and forgets them. What is
    /// bound stays as it is. Made after the calls handed out before, in
    /// their order, each call finds bound what it acts on.
    pub fn take_commands(&mut self) -> (taken: Vec<Command>)
        ensures
            command_views(taken@) == old(self)@.pending,
            final(self)@ == (ContextView { pending: Seq::empty(), ..old(self)@ }),
            old(self)@.consistent(),
    {
        let mut taken: Vec<Command> = Vec::new();
        proof {
            use_type_invariant(&*self);
            assert(command_views(taken@) =~= Seq::empty());
            assert(self.history@.skip(self.history@.len() as int) =~= Seq::empty());
        }
        std::mem::swap(&mut self.commands, &mut taken);
        taken
    }

    /// Records one call.
    pub(crate) fn record(&mut self, command: Command)
        requires
            old(self)@.state.allows(command@),
        ensures
            final(self)@ == old(self)@.after(command@),
    {
        proof {
            use_type_invariant(&*self);
            lemma_after_consistent(self@, command@);
            assert(command_views(self.commands@.push(command)) =~= command_views(
                self.commands@,
            ).push(command@));
            assert(command_views(Seq::<Command>::empty()) =~= Seq::empty());
            assert(self.history@.skip(self.history@.len() as int) =~= Seq::empty());
        }
        let state = next_state(self.state, &command);
        let ghost history = self.history@.push(command@);
        let mut commands: Vec<Command> = Vec::new();
        std::mem::swap(&mut self.commands, &mut commands);
        commands.push(command);
        *self = Context { state, commands, history: Ghost(history) };
    }
}

/// The state that one call leaves behind.
fn next_state(state: ContextState, command: &Command) -> (next: ContextState)
    ensures
        next == state.apply(command@),
{
    match command {
        Command::BindVertexArray { array } => ContextState { vertex_array: Some(*array), ..state },
        Command::UnbindVertexArray => ContextState { vertex_array: None, ..state },
        Command::BindBuffer { buffer } => ContextState { array_buffer: Some(*buffer), ..state },
        Command::UnbindBuffer => ContextState { array_buffer: None, ..state },
        Command::UseProgram { program } => ContextState { program: Some(*program), ..state },
        Command::SetViewport { viewport } => ContextState { viewport: Some(*viewport), ..state },
        Command::SetShouldClose { value } => ContextState { should_close: *value, ..state },
        _ => state,
    }
}

} // verus!

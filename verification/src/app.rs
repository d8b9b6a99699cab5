//! The dispatch loop, one action at a time.
//!
//! The loop is the single reader of the action queue and the only place where
//! the interface state changes. [`App::step`] decides what one action does: a
//! handful of lifecycle actions are handled here, every other action goes to
//! the interface state. The caller keeps the queue and the drivers, and carries
//! out the commands that come back, in order.

use crossterm::event::KeyEvent;
use tokio_util::sync::CancellationToken;
use vstd::prelude::*;
use crate::action::{action_views, Action, ActionView};
use crate::debounce::{Debouncer, DEBOUNCE_MILLIS};
use crate::home::{effect_views, Effect, EffectView, Home, HomeView};
use crate::input::{control_held, pressed};

verus! {

/// One thing for the caller of the loop to do.
#[derive(Debug)]
pub enum Command {
    /// Render the interface now.
    Draw,
    /// Start the render timer, of this many milliseconds; when it expires,
    /// enqueue what `render_due` returns.
    StartRenderTimer(u64),
    /// Put the action at the back of the queue. Where the queue is closed the
    /// loop ends in failure.
    Enqueue(Action),
    /// Carry out the effect.
    Perform(Effect),
    /// Stop the input and render drivers, wait for them to end, and start them
    /// afresh.
    Suspend,
    /// Stop the input and render drivers, wait for them to end, and leave the
    /// loop.
    Shutdown,
}

/// The mathematical value of a [`Command`].
pub ghost enum CommandView {
    Draw,
    StartRenderTimer(u64),
    Enqueue(ActionView),
    Perform(EffectView),
    Suspend,
    Shutdown,
}

impl View for Command {
    type V = CommandView;

    open spec fn view(&self) -> CommandView {
        match *self {
            Command::Draw => CommandView::Draw,
            Command::StartRenderTimer(millis) => CommandView::StartRenderTimer(millis),
            Command::Enqueue(action) => CommandView::Enqueue(action@),
            Command::Perform(effect) => CommandView::Perform(effect@),
            Command::Suspend => CommandView::Suspend,
            Command::Shutdown => CommandView::Shutdown,
        }
    }
}

/// The values of a list of commands.
pub open spec fn command_views(commands: Seq<Command>) -> Seq<CommandView> {
    commands.map_values(|c: Command| c@)
}

/// The commands that carry out `effects`, in order.
pub open spec fn performs(effects: Seq<EffectView>) -> Seq<CommandView> {
    effects.map_values(|e: EffectView| CommandView::Perform(e))
}

/// The commands that enqueue `actions`, in order.
pub open spec fn enqueues(actions: Seq<ActionView>) -> Seq<CommandView> {
    actions.map_values(|a: ActionView| CommandView::Enqueue(a))
}

/// The application: the interface state, the two lifecycle flags and the
/// render coalescer.
pub struct App {
    home: Home,
    should_quit: bool,
    should_suspend: bool,
    debouncer: Debouncer,
}

/// The mathematical value of an [`App`].
pub ghost struct AppView {
    pub home: HomeView,
    pub should_quit: bool,
    pub should_suspend: bool,
    pub render_scheduled: bool,
    /// The time that the render timer runs, in milliseconds.
    pub debounce_millis: u64,
}

impl AppView {
    /// The lifecycle commands that end the step that took `action`, in the
    /// state after it: a suspension in the step that takes `Suspend`, once;
    /// in any other step a shutdown where the quit flag is set.
    pub open spec fn lifecycle(self, action: ActionView) -> Seq<CommandView> {
        if action == ActionView::Suspend {
            seq![
                CommandView::Suspend,
                CommandView::Enqueue(ActionView::Resume),
                CommandView::Enqueue(ActionView::Render),
            ]
        } else if self.should_quit {
            seq![CommandView::Shutdown]
        } else {
            seq![]
        }
    }

    /// The state after `action` was taken off the queue, and the commands that
    /// it gives before the lifecycle commands. `token` is the stop signal made
    /// for the action where it starts a service operation.
    pub open spec fn handled(self, action: ActionView, token: CancellationToken) -> (
        AppView,
        Seq<CommandView>,
    ) {
        match action {
            ActionView::Render => (self, seq![CommandView::Draw]),
            ActionView::Resize(_, _) => (self, seq![CommandView::Draw]),
            ActionView::DebouncedRender => (
                AppView { render_scheduled: true, ..self },
                if self.render_scheduled {
                    seq![]
                } else {
                    seq![CommandView::StartRenderTimer(self.debounce_millis)]
                },
            ),
            ActionView::Noop => (self, seq![]),
            ActionView::Quit => (AppView { should_quit: true, ..self }, seq![]),
            ActionView::Suspend => (AppView { should_suspend: true, ..self }, seq![]),
            ActionView::Resume => (AppView { should_suspend: false, ..self }, seq![]),
            _ => {
                let (home, follow) = self.home.dispatched(action, token);
                (
                    AppView { home: HomeView { effects: Seq::empty(), ..home }, ..self },
                    performs(home.effects) + match follow {
                        Some(next) => seq![CommandView::Enqueue(next)],
                        None => seq![],
                    },
                )
            },
        }
    }

    /// The state after one turn of the loop on `action`, and its commands.
    /// `token` is the stop signal made for the action where it starts a service
    /// operation.
    pub open spec fn stepped(self, action: ActionView, token: CancellationToken) -> (
        AppView,
        Seq<CommandView>,
    ) {
        let (after, commands) = self.handled(action, token);
        (after, commands + after.lifecycle(action))
    }

    /// The state after a key press, and its commands: the work that the key
    /// press gave rise to, then its actions for the queue.
    pub open spec fn keyed(self, ctrl: bool, key: crate::input::Key, raw: KeyEvent) -> (
        AppView,
        Seq<CommandView>,
    ) {
        let (home, actions) = self.home.keyed(ctrl, key, raw);
        (
            AppView { home: HomeView { effects: Seq::empty(), ..home }, ..self },
            performs(home.effects) + enqueues(actions),
        )
    }
}

impl View for App {
    type V = AppView;

    closed spec fn view(&self) -> AppView {
        AppView {
            home: self.home@,
            should_quit: self.should_quit,
            should_suspend: self.should_suspend,
            render_scheduled: self.debouncer.scheduled(),
            debounce_millis: self.debouncer.delay(),
        }
    }
}

impl App {
    /// The invariant of the interface state holds.
    pub closed spec fn wf(&self) -> bool {
        self.home.wf()
    }

    /// The interface state.
    pub fn home(&self) -> (home: &Home)
        ensures
            home@ == self@.home,
            self.wf() ==> home.wf(),
    {
        &self.home
    }

    /// Whether the loop has been asked to end.
    pub fn should_quit(&self) -> (flag: bool)
        ensures
            flag == self@.should_quit,
    {
        self.should_quit
    }

    /// Whether the loop has been asked to suspend.
    pub fn should_suspend(&self) -> (flag: bool)
        ensures
            flag == self@.should_suspend,
    {
        self.should_suspend
    }

    /// An application at its start: the interface state as it is at start, no
    /// flag set, no render scheduled, and the default time on the render
    /// timer.
    pub fn new() -> (app: App)
        ensures
            app.wf(),
            app@.home.at_start(),
            !app@.should_quit,
            !app@.should_suspend,
            !app@.render_scheduled,
            app@.debounce_millis == DEBOUNCE_MILLIS,
    {
        Self::with_debounce(DEBOUNCE_MILLIS)
    }

    /// An application at its start whose render timer runs `debounce_millis`
    /// milliseconds.
    pub fn with_debounce(debounce_millis: u64) -> (app: App)
        ensures
            app.wf(),
            app@.home.at_start(),
            !app@.should_quit,
            !app@.should_suspend,
            !app@.render_scheduled,
            app@.debounce_millis == debounce_millis,
    {
        App {
            home: Home::new(),
            should_quit: false,
            should_suspend: false,
            debouncer: Debouncer::with_delay(debounce_millis),
        }
    }

    /// Adds to `commands` the work that the interface state has asked for, and
    /// leaves none behind.
    fn drain_effects(&mut self, commands: &mut Vec<Command>)
        requires
            old(self).wf(),
        ensures
            command_views(final(commands)@) == command_views(old(commands)@) + performs(
                old(self)@.home.effects,
            ),
            final(self)@ == (AppView {
                home: HomeView { effects: Seq::empty(), ..old(self)@.home },
                ..old(self)@
            }),
            final(self).wf(),
    {
        let mut effects = self.home.take_effects();
        let ghost all = command_views(commands@) + performs(effect_views(effects@));
        while effects.len() > 0
            invariant
                command_views(commands@) + performs(effect_views(effects@)) == all,
            decreases effects.len(),
        {
            let ghost done = command_views(commands@);
            let ghost left = effect_views(effects@);
            let effect = effects.remove(0);
            commands.push(Command::Perform(effect));
            assert(command_views(commands@) =~= done.push(CommandView::Perform(left[0])));
            assert(effect_views(effects@) =~= left.skip(1));
            assert(done.push(CommandView::Perform(left[0])) + performs(left.skip(1)) =~= done
                + performs(left));
        }
        assert(command_views(commands@) + performs(effect_views(effects@)) =~= command_views(
            commands@,
        ));
    }

    /// Handles `action` apart from the lifecycle commands that end a step.
    fn handle(&mut self, action: Action) -> (commands: Vec<Command>)
        requires
            old(self).wf(),
        ensures
            (final(self)@, command_views(commands@)) == old(self)@.handled(
                action@,
                final(self)@.home.kept_token(),
            ),
            final(self).wf(),
    {
        let mut commands: Vec<Command> = Vec::new();
        match action {
            Action::Render => {
                commands.push(Command::Draw);
            },
            Action::Resize(_, _) => {
                commands.push(Command::Draw);
            },
            Action::DebouncedRender => {
                if self.debouncer.request() {
                    commands.push(Command::StartRenderTimer(self.debouncer.delay_millis()));
                }
            },
            Action::Noop => {},
            Action::Quit => {
                self.should_quit = true;
            },
            Action::Suspend => {
                self.should_suspend = true;
            },
            Action::Resume => {
                self.should_suspend = false;
            },
            other => {
                let follow = self.home.dispatch(other);
                self.drain_effects(&mut commands);
                let ghost performed = command_views(commands@);
                if let Some(next) = follow {
                    commands.push(Command::Enqueue(next));
                    assert(command_views(commands@) =~= performed + seq![
                        CommandView::Enqueue(next@),
                    ]);
                } else {
                    assert(command_views(commands@) =~= performed + Seq::<CommandView>::empty());
                }
                return commands;
            },
        }
        assert(command_views(commands@) =~= old(self)@.handled(
            action@,
            self@.home.kept_token(),
        ).1);
        commands
    }

    /// Takes one turn of the loop on `action`, the next action of the queue,
    /// and returns what the caller has to do, in order.
    pub fn step(&mut self, action: Action) -> (commands: Vec<Command>)
        requires
            old(self).wf(),
        ensures
            (final(self)@, command_views(commands@)) == old(self)@.stepped(
                action@,
                final(self)@.home.kept_token(),
            ),
            final(self).wf(),
    {
        let suspends = match &action {
            Action::Suspend => true,
            _ => false,
        };
        let mut commands = self.handle(action);
        let ghost handled = command_views(commands@);
        if suspends {
            commands.push(Command::Suspend);
            commands.push(Command::Enqueue(Action::Resume));
            commands.push(Command::Enqueue(Action::Render));
        } else if self.should_quit {
            commands.push(Command::Shutdown);
        }
        assert(command_views(commands@) =~= handled + self@.lifecycle(action@));
        commands
    }

    /// The render timer has expired: returns the render that is due. The next
    /// debounced render request starts a new timer.
    pub fn render_due(&mut self) -> (render: Action)
        requires
            old(self).wf(),
        ensures
            render@ == ActionView::Render,
            final(self)@ == (AppView { render_scheduled: false, ..old(self)@ }),
            final(self).wf(),
    {
        self.debouncer.expire()
    }

    /// Hands a key press to the interface state and returns what the caller has
    /// to do: the work that the key press gave rise to, then its actions for
    /// the queue.
    pub fn key_pressed(&mut self, key: KeyEvent) -> (commands: Vec<Command>)
        requires
            old(self).wf(),
        ensures
            (final(self)@, command_views(commands@)) == old(self)@.keyed(
                control_held(key),
                pressed(key),
                key,
            ),
            final(self).wf(),
    {
        let mut actions = self.home.handle_key_events(key);
        let mut commands: Vec<Command> = Vec::new();
        self.drain_effects(&mut commands);
        let ghost all = command_views(commands@) + enqueues(action_views(actions@));
        while actions.len() > 0
            invariant
                command_views(commands@) + enqueues(action_views(actions@)) == all,
            decreases actions.len(),
        {
            let ghost done = command_views(commands@);
            let ghost left = action_views(actions@);
            let action = actions.remove(0);
            commands.push(Command::Enqueue(action));
            assert(command_views(commands@) =~= done.push(CommandView::Enqueue(left[0])));
            assert(action_views(actions@) =~= left.skip(1));
            assert(done.push(CommandView::Enqueue(left[0])) + enqueues(left.skip(1)) =~= done
                + enqueues(left));
        }
        assert(command_views(commands@) + enqueues(action_views(actions@)) =~= command_views(
            commands@,
        ));
        commands
    }
}

/// Debounced render requests coalesce in the loop: a request starts the render
/// timer where no render is scheduled, and gives no command at all where one
/// is; either way a render is scheduled afterwards and nothing else changes.
pub proof fn lemma_debounced_renders_coalesce(v: AppView, token: CancellationToken)
    ensures
        v.handled(ActionView::DebouncedRender, token).0 == (AppView {
            render_scheduled: true,
            ..v
        }),
        !v.render_scheduled ==> v.handled(ActionView::DebouncedRender, token).1 == seq![
            CommandView::StartRenderTimer(v.debounce_millis),
        ],
        v.render_scheduled ==> v.handled(ActionView::DebouncedRender, token).1
            == Seq::<CommandView>::empty(),
{
}

/// No command of what an action gives before the lifecycle commands is a
/// suspension or a shutdown.
proof fn lemma_handled_is_no_lifecycle(v: AppView, action: ActionView, token: CancellationToken)
    ensures
        forall|i: int|
            0 <= i < v.handled(action, token).1.len() ==> {
                &&& (#[trigger] v.handled(action, token).1[i]) != CommandView::Shutdown
                &&& v.handled(action, token).1[i] != CommandView::Suspend
            },
{
}

/// One suspension for each `Suspend`: the step that takes `Suspend` sets the
/// suspend flag and ends with the suspension, then `Resume` and `Render` for
/// the queue, and nothing else; no step on another action asks for a
/// suspension, whatever the flags are; and `Resume` clears the flag.
pub proof fn lemma_one_suspension_per_suspend(
    v: AppView,
    action: ActionView,
    token: CancellationToken,
)
    ensures
        v.stepped(ActionView::Suspend, token) == (
            AppView { should_suspend: true, ..v },
            seq![
                CommandView::Suspend,
                CommandView::Enqueue(ActionView::Resume),
                CommandView::Enqueue(ActionView::Render),
            ],
        ),
        !v.stepped(ActionView::Resume, token).0.should_suspend,
        action != ActionView::Suspend ==> forall|i: int|
            0 <= i < v.stepped(action, token).1.len() ==> (#[trigger] v.stepped(
                action,
                token,
            ).1[i]) != CommandView::Suspend,
{
    assert(v.stepped(ActionView::Suspend, token).1 =~= seq![
        CommandView::Suspend,
        CommandView::Enqueue(ActionView::Resume),
        CommandView::Enqueue(ActionView::Render),
    ]);
    lemma_handled_is_no_lifecycle(v, action, token);
    if action != ActionView::Suspend {
        let (after, commands) = v.stepped(action, token);
        let direct = v.handled(action, token).1;
        let tail = after.lifecycle(action);
        assert forall|i: int| 0 <= i < commands.len() implies commands[i]
            != CommandView::Suspend by {
            if i >= direct.len() {
                assert(commands[i] == tail[i - direct.len()]);
            } else {
                assert(commands[i] == direct[i]);
            }
        }
    }
}

/// The dispatch loop ends only on a request to quit: a step asks for a
/// shutdown exactly when the quit flag is set after the action and the action
/// is not a suspension.
pub proof fn lemma_shutdown_only_on_quit(v: AppView, action: ActionView, token: CancellationToken)
    ensures
        ({
            let (after, commands) = v.stepped(action, token);
            (exists|i: int| 0 <= i < commands.len() && commands[i] == CommandView::Shutdown) <==> (
            after.should_quit && action != ActionView::Suspend)
        }),
{
    let (after, commands) = v.stepped(action, token);
    let direct = v.handled(action, token).1;
    let tail = after.lifecycle(action);
    lemma_handled_is_no_lifecycle(v, action, token);
    if after.should_quit && action != ActionView::Suspend {
        assert(commands[direct.len() as int] == CommandView::Shutdown);
    } else {
        assert forall|i: int| 0 <= i < commands.len() implies commands[i]
            != CommandView::Shutdown by {
            if i >= direct.len() {
                assert(commands[i] == tail[i - direct.len()]);
            } else {
                assert(commands[i] == direct[i]);
            }
        }
    }
}

} // verus!

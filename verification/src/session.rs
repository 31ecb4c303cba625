//! The course of a run, as a state machine: from the phase a run is in and what
//! the last outside step gave, the next phase and the next outside step to take
//! (load, delete, prompt for or store the secret, wait for the launcher, send a
//! password). The caller performs each step and reports how it went.
use crate::config::XivOtpCommands;
use crate::generator::{is_token_text, totp_token, unix_time_now, OtpGenerator, OtpParams};
use crate::secret::{generator_from_text, generator_of_text};
use vstd::prelude::*;

verus! {

/// Where a run stands.
#[derive(Clone, Copy, Debug, PartialEq, Eq, Structural)]
pub enum Phase {
    /// Not started.
    Idle,
    /// Deleting the stored secret.
    Deleting,
    /// Asking for a secret that replaces the stored one.
    PromptingReplacement,
    /// Storing the replacing secret.
    StoringReplacement,
    /// Loading the stored secret.
    Loading,
    /// Asking for a secret, the store holding none.
    PromptingFirst,
    /// Storing the secret just entered, its generator made.
    StoringEntered,
    /// Asking for a secret after the stored or entered one gave no generator.
    PromptingFallback,
    /// Waiting for a listening launcher.
    Waiting,
    /// Sending a password.
    Sending,
    /// Done.
    Finished,
    /// Stopped on an error.
    Failed,
}

/// How the last outside step went.
pub enum Event {
    /// The run begins.
    Start,
    /// The store was read: the secret it holds, if any.
    SecretLoaded(Option<String>),
    /// The user entered a secret.
    SecretEntered(String),
    /// The step succeeded (delete, store, wait, send).
    Completed,
    /// The step failed.
    Failed,
}

/// An event as plain values.
pub enum EventView {
    Start,
    SecretLoaded(Option<Seq<char>>),
    SecretEntered(Seq<char>),
    Completed,
    Failed,
}

impl View for Event {
    type V = EventView;

    open spec fn view(&self) -> EventView {
        match self {
            Event::Start => EventView::Start,
            Event::SecretLoaded(Some(s)) => EventView::SecretLoaded(Some(s@)),
            Event::SecretLoaded(None) => EventView::SecretLoaded(None),
            Event::SecretEntered(s) => EventView::SecretEntered(s@),
            Event::Completed => EventView::Completed,
            Event::Failed => EventView::Failed,
        }
    }
}

/// Why a run stopped.
#[derive(Clone, Copy, Debug, PartialEq, Eq, Structural)]
pub enum SessionError {
    /// Deleting the stored secret failed.
    DeleteFailed,
    /// Asking for the secret failed.
    PromptFailed,
    /// Storing the secret failed.
    StoreFailed,
    /// Neither the store nor the user gave a secret that yields a generator.
    NoGenerator,
    /// Waiting for the launcher failed.
    ListenerNotFound,
    /// Sending the password failed.
    SendFailed,
    /// The system clock reads a time before the Unix epoch.
    ClockBeforeEpoch,
    /// An event came that the phase does not expect.
    UnexpectedEvent,
}

/// The next outside step.
#[derive(Debug)]
pub enum Action {
    /// Read the stored secret; report `SecretLoaded` or `Failed`.
    LoadSecret,
    /// Delete the stored secret; report `Completed` or `Failed`.
    DeleteSecret,
    /// Ask the user for the secret; report `SecretEntered` or `Failed`.
    PromptSecret,
    /// Store this secret; report `Completed` or `Failed`.
    StoreSecret(String),
    /// Wait until a launcher listens; report `Completed` or `Failed`.
    WaitForListener,
    /// Send this password to the launcher; report `Completed` or `Failed`.
    SendOtp(String),
    /// The run is over.
    Finish,
    /// The run stops with this error.
    Abort(SessionError),
}

/// An action as plain values.
pub enum ActionView {
    LoadSecret,
    DeleteSecret,
    PromptSecret,
    StoreSecret(Seq<char>),
    WaitForListener,
    SendOtp(Seq<char>),
    Finish,
    Abort(SessionError),
}

impl View for Action {
    type V = ActionView;

    open spec fn view(&self) -> ActionView {
        match self {
            Action::LoadSecret => ActionView::LoadSecret,
            Action::DeleteSecret => ActionView::DeleteSecret,
            Action::PromptSecret => ActionView::PromptSecret,
            Action::StoreSecret(s) => ActionView::StoreSecret(s@),
            Action::WaitForListener => ActionView::WaitForListener,
            Action::SendOtp(s) => ActionView::SendOtp(s@),
            Action::Finish => ActionView::Finish,
            Action::Abort(e) => ActionView::Abort(*e),
        }
    }
}

/// A run: its command, its phase, and the generator once one is made.
pub struct Session {
    command: XivOtpCommands,
    phase: Phase,
    generator: Option<OtpGenerator>,
}

/// A run as plain values.
pub struct SessionView {
    pub command: XivOtpCommands,
    pub phase: Phase,
    pub generator: Option<OtpParams>,
}

impl View for Session {
    type V = SessionView;

    closed spec fn view(&self) -> SessionView {
        SessionView {
            command: self.command,
            phase: self.phase,
            generator: match self.generator {
                Some(g) => Some(g@),
                None => None,
            },
        }
    }
}

/// The run goes to `phase`, keeps `generator` and asks for `act`.
pub open spec fn moves(
    pre: SessionView,
    post: SessionView,
    act: ActionView,
    phase: Phase,
    generator: Option<OtpParams>,
    next: ActionView,
) -> bool {
    &&& post == SessionView { command: pre.command, phase, generator }
    &&& act == next
}

/// The run stops with `err`, its generator dropped.
pub open spec fn halts(pre: SessionView, post: SessionView, act: ActionView, err: SessionError) -> bool {
    moves(pre, post, act, Phase::Failed, None, ActionView::Abort(err))
}

/// The run sends the password of generator `g` at `now` (seconds since the Unix
/// epoch, as the clock read), keeping `g` only when it monitors; or, the clock
/// reading a time before the epoch (`None`), stops.
pub open spec fn sends_token(
    pre: SessionView,
    g: OtpParams,
    now: Option<u64>,
    post: SessionView,
    act: ActionView,
) -> bool {
    match now {
        Some(time) => {
            &&& post == SessionView {
                command: pre.command,
                phase: Phase::Sending,
                generator: if pre.command is Monitor {
                    Some(g)
                } else {
                    None
                },
            }
            &&& act == ActionView::SendOtp(totp_token(g, time))
            &&& is_token_text(totp_token(g, time), g.digits)
        },
        None => halts(pre, post, act, SessionError::ClockBeforeEpoch),
    }
}

/// What the run does once it has generator `g`: wait for the launcher (monitoring,
/// or a one-shot that waits), or send a password at once (a one-shot that does not).
pub open spec fn with_generator(
    pre: SessionView,
    g: OtpParams,
    now: Option<u64>,
    post: SessionView,
    act: ActionView,
) -> bool {
    match pre.command {
        XivOtpCommands::Oneshot { wait } => if wait {
            moves(pre, post, act, Phase::Waiting, Some(g), ActionView::WaitForListener)
        } else {
            sends_token(pre, g, now, post, act)
        },
        XivOtpCommands::Monitor {  } => moves(
            pre,
            post,
            act,
            Phase::Waiting,
            Some(g),
            ActionView::WaitForListener,
        ),
        _ => halts(pre, post, act, SessionError::UnexpectedEvent),
    }
}

/// The steps of a run. Deleting: delete, then finish. Setting the secret: delete,
/// ask, store what was entered, finish. One-shot and monitoring: load the stored
/// secret; if it gives a generator use it, if the store holds none ask and store
/// what gives one, otherwise (load failed, or the secret gives no generator) ask
/// once more and use that without storing it, or stop; then wait and send, once or
/// forever. Any failure of a delete, store of a replacement, wait or send stops the
/// run; a failed store of an entered secret does not. A password sent is the
/// generator's at `now`, the clock's reading at this step.
pub open spec fn step_spec(
    pre: SessionView,
    ev: EventView,
    now: Option<u64>,
    post: SessionView,
    act: ActionView,
) -> bool {
    match pre.phase {
        Phase::Idle => match ev {
            EventView::Start => match pre.command {
                XivOtpCommands::Delete {  } | XivOtpCommands::SetSecret {  } => moves(
                    pre,
                    post,
                    act,
                    Phase::Deleting,
                    None,
                    ActionView::DeleteSecret,
                ),
                _ => moves(pre, post, act, Phase::Loading, None, ActionView::LoadSecret),
            },
            _ => halts(pre, post, act, SessionError::UnexpectedEvent),
        },
        Phase::Deleting => match ev {
            EventView::Completed => match pre.command {
                XivOtpCommands::SetSecret {  } => moves(
                    pre,
                    post,
                    act,
                    Phase::PromptingReplacement,
                    None,
                    ActionView::PromptSecret,
                ),
                _ => moves(pre, post, act, Phase::Finished, None, ActionView::Finish),
            },
            EventView::Failed => halts(pre, post, act, SessionError::DeleteFailed),
            _ => halts(pre, post, act, SessionError::UnexpectedEvent),
        },
        Phase::PromptingReplacement => match ev {
            EventView::SecretEntered(s) => moves(
                pre,
                post,
                act,
                Phase::StoringReplacement,
                None,
                ActionView::StoreSecret(s),
            ),
            EventView::Failed => halts(pre, post, act, SessionError::PromptFailed),
            _ => halts(pre, post, act, SessionError::UnexpectedEvent),
        },
        Phase::StoringReplacement => match ev {
            EventView::Completed => moves(pre, post, act, Phase::Finished, None, ActionView::Finish),
            EventView::Failed => halts(pre, post, act, SessionError::StoreFailed),
            _ => halts(pre, post, act, SessionError::UnexpectedEvent),
        },
        Phase::Loading => match ev {
            EventView::SecretLoaded(Some(s)) => match generator_of_text(s) {
                Some(g) => with_generator(pre, g, now, post, act),
                None => moves(pre, post, act, Phase::PromptingFallback, None, ActionView::PromptSecret),
            },
            EventView::SecretLoaded(None) => moves(
                pre,
                post,
                act,
                Phase::PromptingFirst,
                None,
                ActionView::PromptSecret,
            ),
            EventView::Failed => moves(
                pre,
                post,
                act,
                Phase::PromptingFallback,
                None,
                ActionView::PromptSecret,
            ),
            _ => halts(pre, post, act, SessionError::UnexpectedEvent),
        },
        Phase::PromptingFirst => match ev {
            EventView::SecretEntered(s) => match generator_of_text(s) {
                Some(g) => moves(
                    pre,
                    post,
                    act,
                    Phase::StoringEntered,
                    Some(g),
                    ActionView::StoreSecret(s),
                ),
                None => moves(pre, post, act, Phase::PromptingFallback, None, ActionView::PromptSecret),
            },
            EventView::Failed => moves(
                pre,
                post,
                act,
                Phase::PromptingFallback,
                None,
                ActionView::PromptSecret,
            ),
            _ => halts(pre, post, act, SessionError::UnexpectedEvent),
        },
        Phase::StoringEntered => match ev {
            EventView::Completed | EventView::Failed => match pre.generator {
                Some(g) => with_generator(pre, g, now, post, act),
                None => halts(pre, post, act, SessionError::UnexpectedEvent),
            },
            _ => halts(pre, post, act, SessionError::UnexpectedEvent),
        },
        Phase::PromptingFallback => match ev {
            EventView::SecretEntered(s) => match generator_of_text(s) {
                Some(g) => with_generator(pre, g, now, post, act),
                None => halts(pre, post, act, SessionError::NoGenerator),
            },
            EventView::Failed => halts(pre, post, act, SessionError::NoGenerator),
            _ => halts(pre, post, act, SessionError::UnexpectedEvent),
        },
        Phase::Waiting => match ev {
            EventView::Completed => match pre.generator {
                Some(g) => sends_token(pre, g, now, post, act),
                None => halts(pre, post, act, SessionError::UnexpectedEvent),
            },
            EventView::Failed => halts(pre, post, act, SessionError::ListenerNotFound),
            _ => halts(pre, post, act, SessionError::UnexpectedEvent),
        },
        Phase::Sending => match ev {
            EventView::Completed => match pre.command {
                XivOtpCommands::Monitor {  } => match pre.generator {
                    Some(g) => moves(
                        pre,
                        post,
                        act,
                        Phase::Waiting,
                        Some(g),
                        ActionView::WaitForListener,
                    ),
                    None => halts(pre, post, act, SessionError::UnexpectedEvent),
                },
                _ => moves(pre, post, act, Phase::Finished, None, ActionView::Finish),
            },
            EventView::Failed => halts(pre, post, act, SessionError::SendFailed),
            _ => halts(pre, post, act, SessionError::UnexpectedEvent),
        },
        Phase::Finished | Phase::Failed => halts(pre, post, act, SessionError::UnexpectedEvent),
    }
}

impl Session {
    /// A run of `command`, not started.
    pub fn new(command: XivOtpCommands) -> (r: Session)
        ensures
            r@ == (SessionView { command, phase: Phase::Idle, generator: None }),
            consistent(r@),
    {
        Session { command, phase: Phase::Idle, generator: None }
    }

    /// The phase the run is in.
    pub fn phase(&self) -> (r: Phase)
        ensures
            r == self@.phase,
    {
        self.phase
    }

    /// The command the run carries out.
    pub fn command(&self) -> (r: XivOtpCommands)
        ensures
            r == self@.command,
    {
        self.command
    }

    /// Drops the generator, wiping its secret.
    fn drop_generator(&mut self)
        ensures
            final(self)@ == (SessionView { generator: None, ..old(self)@ }),
    {
        let g = self.generator.take();
        match g {
            Some(x) => x.wipe(),
            None => {},
        }
    }

    /// Goes to `phase` without a generator and returns `act`.
    fn go(&mut self, phase: Phase, act: Action) -> (r: Action)
        ensures
            final(self)@ == (SessionView { command: old(self)@.command, phase, generator: None }),
            r == act,
    {
        self.drop_generator();
        self.phase = phase;
        act
    }

    /// Stops with `err`.
    fn halt(&mut self, err: SessionError) -> (r: Action)
        ensures
            halts(old(self)@, final(self)@, r@, err),
    {
        self.go(Phase::Failed, Action::Abort(err))
    }

    /// Sends the password of `g` at `now`.
    fn send_token(&mut self, g: OtpGenerator, now: Option<u64>) -> (r: Action)
        ensures
            sends_token(old(self)@, g@, now, final(self)@, r@),
    {
        self.drop_generator();
        match now {
            Some(time) => {
                let token = g.generate(time);
                self.phase = Phase::Sending;
                match self.command {
                    XivOtpCommands::Monitor {  } => {
                        self.generator = Some(g);
                    },
                    _ => {
                        g.wipe();
                    },
                }
                Action::SendOtp(token)
            },
            None => {
                g.wipe();
                self.halt(SessionError::ClockBeforeEpoch)
            },
        }
    }

    /// Proceeds with generator `g`.
    fn use_generator(&mut self, g: OtpGenerator, now: Option<u64>) -> (r: Action)
        ensures
            with_generator(old(self)@, g@, now, final(self)@, r@),
    {
        match self.command {
            XivOtpCommands::Oneshot { wait } => {
                if wait {
                    self.phase = Phase::Waiting;
                    self.generator = Some(g);
                    Action::WaitForListener
                } else {
                    self.send_token(g, now)
                }
            },
            XivOtpCommands::Monitor {  } => {
                self.phase = Phase::Waiting;
                self.generator = Some(g);
                Action::WaitForListener
            },
            _ => {
                g.wipe();
                self.halt(SessionError::UnexpectedEvent)
            },
        }
    }

    /// The next step of the run, from how the last one went, the system clock read
    /// for a password that is due.
    pub fn step(&mut self, event: Event) -> (r: Action)
        ensures
            exists|now: Option<u64>| step_spec(old(self)@, event@, now, final(self)@, r@),
    {
        let now = unix_time_now();
        self.step_at(event, now)
    }

    /// The next step of the run, from how the last one went; a password that is due
    /// is the generator's at `now` (seconds since the Unix epoch, `None` when the
    /// clock reads a time before it).
    pub fn step_at(&mut self, event: Event, now: Option<u64>) -> (r: Action)
        ensures
            step_spec(old(self)@, event@, now, final(self)@, r@),
    {
        match self.phase {
            Phase::Idle => match event {
                Event::Start => match self.command {
                    XivOtpCommands::Delete {  } | XivOtpCommands::SetSecret {  } => self.go(
                        Phase::Deleting,
                        Action::DeleteSecret,
                    ),
                    _ => self.go(Phase::Loading, Action::LoadSecret),
                },
                _ => self.halt(SessionError::UnexpectedEvent),
            },
            Phase::Deleting => match event {
                Event::Completed => match self.command {
                    XivOtpCommands::SetSecret {  } => self.go(
                        Phase::PromptingReplacement,
                        Action::PromptSecret,
                    ),
                    _ => self.go(Phase::Finished, Action::Finish),
                },
                Event::Failed => self.halt(SessionError::DeleteFailed),
                _ => self.halt(SessionError::UnexpectedEvent),
            },
            Phase::PromptingReplacement => match event {
                Event::SecretEntered(s) => self.go(
                    Phase::StoringReplacement,
                    Action::StoreSecret(s),
                ),
                Event::Failed => self.halt(SessionError::PromptFailed),
                _ => self.halt(SessionError::UnexpectedEvent),
            },
            Phase::StoringReplacement => match event {
                Event::Completed => self.go(Phase::Finished, Action::Finish),
                Event::Failed => self.halt(SessionError::StoreFailed),
                _ => self.halt(SessionError::UnexpectedEvent),
            },
            Phase::Loading => match event {
                Event::SecretLoaded(Some(s)) => match generator_from_text(s.as_str()) {
                    Some(g) => self.use_generator(g, now),
                    None => self.go(Phase::PromptingFallback, Action::PromptSecret),
                },
                Event::SecretLoaded(None) => self.go(Phase::PromptingFirst, Action::PromptSecret),
                Event::Failed => self.go(Phase::PromptingFallback, Action::PromptSecret),
                _ => self.halt(SessionError::UnexpectedEvent),
            },
            Phase::PromptingFirst => match event {
                Event::SecretEntered(s) => match generator_from_text(s.as_str()) {
                    Some(g) => {
                        self.drop_generator();
                        self.phase = Phase::StoringEntered;
                        self.generator = Some(g);
                        Action::StoreSecret(s)
                    },
                    None => self.go(Phase::PromptingFallback, Action::PromptSecret),
                },
                Event::Failed => self.go(Phase::PromptingFallback, Action::PromptSecret),
                _ => self.halt(SessionError::UnexpectedEvent),
            },
            Phase::StoringEntered => match event {
                Event::Completed | Event::Failed => {
                    let g = self.generator.take();
                    match g {
                        Some(x) => self.use_generator(x, now),
                        None => self.halt(SessionError::UnexpectedEvent),
                    }
                },
                _ => self.halt(SessionError::UnexpectedEvent),
            },
            Phase::PromptingFallback => match event {
                Event::SecretEntered(s) => match generator_from_text(s.as_str()) {
                    Some(g) => self.use_generator(g, now),
                    None => self.halt(SessionError::NoGenerator),
                },
                Event::Failed => self.halt(SessionError::NoGenerator),
                _ => self.halt(SessionError::UnexpectedEvent),
            },
            Phase::Waiting => match event {
                Event::Completed => {
                    let g = self.generator.take();
                    match g {
                        Some(x) => self.send_token(x, now),
                        None => self.halt(SessionError::UnexpectedEvent),
                    }
                },
                Event::Failed => self.halt(SessionError::ListenerNotFound),
                _ => self.halt(SessionError::UnexpectedEvent),
            },
            Phase::Sending => match event {
                Event::Completed => match self.command {
                    XivOtpCommands::Monitor {  } => {
                        if self.generator.is_some() {
                            self.phase = Phase::Waiting;
                            Action::WaitForListener
                        } else {
                            self.halt(SessionError::UnexpectedEvent)
                        }
                    },
                    _ => self.go(Phase::Finished, Action::Finish),
                },
                Event::Failed => self.halt(SessionError::SendFailed),
                _ => self.halt(SessionError::UnexpectedEvent),
            },
            Phase::Finished | Phase::Failed => self.halt(SessionError::UnexpectedEvent),
        }
    }
}

/// Whether a run is in a state that its steps can reach: each phase belongs to the
/// commands that pass through it, and a generator is held exactly where one is
/// needed next (storing an entered secret, waiting, and sending while monitoring).
pub open spec fn consistent(v: SessionView) -> bool {
    let uses_generator = v.command is Oneshot || v.command is Monitor;
    match v.phase {
        Phase::Idle | Phase::Finished | Phase::Failed => v.generator is None,
        Phase::Deleting => (v.command is Delete || v.command is SetSecret) && v.generator is None,
        Phase::PromptingReplacement | Phase::StoringReplacement => v.command is SetSecret
            && v.generator is None,
        Phase::Loading | Phase::PromptingFirst | Phase::PromptingFallback => uses_generator
            && v.generator is None,
        Phase::StoringEntered | Phase::Waiting => uses_generator && v.generator is Some,
        Phase::Sending => uses_generator && (v.command is Monitor <==> v.generator is Some),
    }
}

/// Every step keeps a run consistent: a new run is consistent (see `Session::new`),
/// so every run is.
pub proof fn lemma_step_keeps_consistent(
    pre: SessionView,
    ev: EventView,
    now: Option<u64>,
    post: SessionView,
    act: ActionView,
)
    requires
        consistent(pre),
        step_spec(pre, ev, now, post, act),
    ensures
        consistent(post),
{
}

/// A stored secret that yields a generator is used: loading it does not lead to
/// asking the user.
pub proof fn lemma_stored_secret_used(
    pre: SessionView,
    s: Seq<char>,
    now: Option<u64>,
    post: SessionView,
    act: ActionView,
)
    requires
        pre.phase == Phase::Loading,
        generator_of_text(s) is Some,
        step_spec(pre, EventView::SecretLoaded(Some(s)), now, post, act),
    ensures
        !(act is PromptSecret),
        !(act is StoreSecret),
{
}

/// A run that sends a password without waiting sends it as soon as it has a
/// generator: the generator's password at the time the clock reads.
pub proof fn lemma_oneshot_sends_at_once(
    pre: SessionView,
    g: OtpParams,
    now: Option<u64>,
    post: SessionView,
    act: ActionView,
)
    requires
        pre.command == (XivOtpCommands::Oneshot { wait: false }),
        with_generator(pre, g, now, post, act),
    ensures
        match now {
            Some(time) => act == ActionView::SendOtp(totp_token(g, time)),
            None => act == ActionView::Abort(SessionError::ClockBeforeEpoch),
        },
{
}

/// Monitoring never finishes: after each password sent it waits for the launcher
/// again, and no step of a monitoring run ends it successfully.
pub proof fn lemma_monitor_never_finishes(
    pre: SessionView,
    ev: EventView,
    now: Option<u64>,
    post: SessionView,
    act: ActionView,
)
    requires
        consistent(pre),
        pre.command == (XivOtpCommands::Monitor {  }),
        step_spec(pre, ev, now, post, act),
    ensures
        post.phase != Phase::Finished,
        !(act is Finish),
        pre.phase == Phase::Sending && ev == EventView::Completed && pre.generator is Some
            ==> post.phase == Phase::Waiting && act == ActionView::WaitForListener
            && post.generator == pre.generator,
{
}

/// Setting the secret stores exactly what the user entered, and only after the
/// stored secret was deleted.
pub proof fn lemma_set_secret_overwrites(
    pre: SessionView,
    ev: EventView,
    now: Option<u64>,
    post: SessionView,
    act: ActionView,
    t: Seq<char>,
)
    requires
        consistent(pre),
        pre.command == (XivOtpCommands::SetSecret {  }),
        step_spec(pre, ev, now, post, act),
        act == ActionView::StoreSecret(t),
    ensures
        pre.phase == Phase::PromptingReplacement,
        ev == EventView::SecretEntered(t),
{
}

/// A run reached only through a completed deletion asks for the replacing secret.
pub proof fn lemma_set_secret_prompts_after_delete(
    pre: SessionView,
    ev: EventView,
    now: Option<u64>,
    post: SessionView,
    act: ActionView,
)
    requires
        consistent(pre),
        pre.command == (XivOtpCommands::SetSecret {  }),
        step_spec(pre, ev, now, post, act),
        post.phase == Phase::PromptingReplacement,
    ensures
        pre.phase == Phase::Deleting,
        ev == EventView::Completed,
        act == ActionView::PromptSecret,
{
}

/// Deleting only deletes: no step of a deleting run asks for, stores or sends a
/// secret.
pub proof fn lemma_delete_only_deletes(
    pre: SessionView,
    ev: EventView,
    now: Option<u64>,
    post: SessionView,
    act: ActionView,
)
    requires
        consistent(pre),
        pre.command == (XivOtpCommands::Delete {  }),
        step_spec(pre, ev, now, post, act),
    ensures
        !(act is PromptSecret),
        !(act is StoreSecret),
        !(act is SendOtp),
        !(act is LoadSecret),
{
}

/// When a one-shot or monitoring run stores a secret, that secret yields the
/// generator the run goes on with.
pub proof fn lemma_stored_secret_is_usable(
    pre: SessionView,
    ev: EventView,
    now: Option<u64>,
    post: SessionView,
    act: ActionView,
    t: Seq<char>,
)
    requires
        consistent(pre),
        pre.command is Oneshot || pre.command is Monitor,
        step_spec(pre, ev, now, post, act),
        act == ActionView::StoreSecret(t),
    ensures
        generator_of_text(t) is Some,
        post.generator == generator_of_text(t),
{
}

/// Every password sent is the password of the run's generator at the time the clock
/// read: as many decimal digits as the generator has, and, when sent after waiting
/// for the launcher, of the generator the run held while waiting.
pub proof fn lemma_sent_password_is_token(
    pre: SessionView,
    ev: EventView,
    now: Option<u64>,
    post: SessionView,
    act: ActionView,
    t: Seq<char>,
)
    requires
        step_spec(pre, ev, now, post, act),
        act == ActionView::SendOtp(t),
    ensures
        now is Some,
        exists|g: OtpParams|
            #![trigger totp_token(g, now->0)]
            t == totp_token(g, now->0) && is_token_text(t, g.digits) && (pre.phase
                == Phase::Waiting ==> pre.generator == Some(g)),
{
}

/// A first secret entered and being stored is used whether storing it completes or
/// fails: a one-shot or monitoring run then waits for the launcher with the secret's
/// generator, or sends that generator's password at the clock's reading (a one-shot
/// that does not wait), or stops only because the clock reads before the epoch.
pub proof fn lemma_entered_secret_used_after_store(
    pre: SessionView,
    g: OtpParams,
    ev: EventView,
    now: Option<u64>,
    post: SessionView,
    act: ActionView,
)
    requires
        consistent(pre),
        pre.phase == Phase::StoringEntered,
        pre.generator == Some(g),
        ev == EventView::Completed || ev == EventView::Failed,
        step_spec(pre, ev, now, post, act),
    ensures
        pre.command is Monitor || pre.command == (XivOtpCommands::Oneshot { wait: true }) ==> act
            == ActionView::WaitForListener && post.phase == Phase::Waiting && post.generator == Some(
            g,
        ),
        pre.command == (XivOtpCommands::Oneshot { wait: false }) ==> match now {
            Some(t) => act == ActionView::SendOtp(totp_token(g, t)) && post.phase == Phase::Sending,
            None => act == ActionView::Abort(SessionError::ClockBeforeEpoch),
        },
{
}

} // verus!

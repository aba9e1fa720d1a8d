//! The bot that a session uses: how it is chosen, locked and given up.
use vstd::prelude::*;

use crate::api::TelegramActiveBot;
use crate::bots::{
    bot_views, checked_bots, config_error, find_bot, first_named, BotView, ConfigRead,
    TelegramBotConfig, TelegramError, TelegramErrorView,
};
use crate::paths::{home_dir, FilePath, FilePathView};
use crate::text::{concatenate, hex_encode, hex_encoded, same_text};

verus! {

/// The permissions of a lock file: for its owner alone.
pub const LOCK_FILE_MODE: u32 = 0o600;

/// The use of a bot, with the lock that keeps other sessions from it.
#[derive(Debug)]
pub struct TelegramLease<L> {
    pub config: TelegramBotConfig,
    pub lock: L,
}

/// What the choice of a bot changed.
#[derive(Debug, Clone, Copy, PartialEq, Eq, Structural)]
pub enum TelegramActivation {
    Activated,
    AlreadyActive,
}

/// The bot of a session. `L` is what holds the lock of a bot for as long as it lives.
#[derive(Debug)]
pub struct TelegramNotifier<L> {
    pub codex_home: String,
    pub active_lease: Option<TelegramLease<L>>,
}

/// The contents of a [`TelegramNotifier`]: the home directory and the bot in use.
#[verifier::ext_equal]
pub struct NotifierView {
    pub home: Seq<char>,
    pub active: Option<BotView>,
}

impl<L> View for TelegramNotifier<L> {
    type V = NotifierView;

    open spec fn view(&self) -> NotifierView {
        NotifierView {
            home: self.codex_home@,
            active: match self.active_lease {
                Some(lease) => Some(lease.config@),
                None => None,
            },
        }
    }
}

impl NotifierView {
    /// The name of the bot in use.
    pub open spec fn active_name(self) -> Option<Seq<char>> {
        match self.active {
            Some(bot) => Some(bot.name),
            None => None,
        }
    }

    /// The session once it has given up its bot.
    pub open spec fn without_bot(self) -> NotifierView {
        NotifierView { home: self.home, active: None }
    }

    /// The lock file that the session holds: that of the bot in use.
    pub open spec fn held_lock(self) -> Option<FilePathView> {
        match self.active {
            Some(bot) => Some(lock_path(self.home, bot.name)),
            None => None,
        }
    }
}

// ---------------------------------------------------------------------------
// Paths and locks
// ---------------------------------------------------------------------------

/// The configuration file.
pub open spec fn bots_path(home: Seq<char>) -> FilePathView {
    home_dir(home).join("telegram-bots.toml"@)
}

/// The directory of the lock files.
pub open spec fn lock_dir(home: Seq<char>) -> FilePathView {
    home_dir(home).join("telegram-bot-locks"@)
}

/// The name of the lock file of a bot: the bytes of its name in hexadecimal.
pub open spec fn lock_name(name: Seq<char>) -> Seq<char> {
    hex_encoded(vstd::utf8::encode_utf8(name)) + ".lock"@
}

/// The lock file of a bot.
pub open spec fn lock_path(home: Seq<char>, name: Seq<char>) -> FilePathView {
    lock_dir(home).join(lock_name(name))
}

/// The request for the lock of a bot: make the directory if it is not there, open the file,
/// which is made with the given permissions if it is not there, and lock it without waiting.
#[derive(Debug)]
pub struct LockRequest {
    pub bot: TelegramBotConfig,
    pub dir: FilePath,
    pub path: FilePath,
    pub mode: u32,
}

/// The contents of a [`LockRequest`].
#[verifier::ext_equal]
pub struct LockRequestView {
    pub bot: BotView,
    pub dir: FilePathView,
    pub path: FilePathView,
    pub mode: u32,
}

impl View for LockRequest {
    type V = LockRequestView;

    open spec fn view(&self) -> LockRequestView {
        LockRequestView {
            bot: self.bot@,
            dir: self.dir@,
            path: self.path@,
            mode: self.mode,
        }
    }
}

/// The request for the lock of a bot.
pub open spec fn lock_request_for(home: Seq<char>, bot: BotView) -> LockRequestView {
    LockRequestView {
        bot,
        dir: lock_dir(home),
        path: lock_path(home, bot.name),
        mode: LOCK_FILE_MODE,
    }
}

/// What came of the request for a lock.
#[derive(Debug)]
pub enum LockOutcome<L> {
    Locked { lock: L },
    WouldBlock,
    DirFailed { reason: String },
    OpenFailed { reason: String },
    LockFailed { reason: String },
}

/// Why the lock of a bot was not had.
pub open spec fn lock_error<L>(
    outcome: LockOutcome<L>,
    home: Seq<char>,
    name: Seq<char>,
) -> Option<TelegramErrorView> {
    match outcome {
        LockOutcome::Locked { .. } => None,
        LockOutcome::WouldBlock => Some(TelegramErrorView::BotInUse { name }),
        LockOutcome::DirFailed { reason } => Some(
            TelegramErrorView::CreateLockDir { path: lock_dir(home), reason: reason@ },
        ),
        LockOutcome::OpenFailed { reason } => Some(
            TelegramErrorView::OpenLockFile { path: lock_path(home, name), reason: reason@ },
        ),
        LockOutcome::LockFailed { reason } => Some(
            TelegramErrorView::LockBot { name, reason: reason@ },
        ),
    }
}

/// The directory of the lock files.
pub(crate) fn locks_dir_of(codex_home: &str) -> (r: FilePath)
    ensures
        r@ == lock_dir(codex_home@),
{
    FilePath::home(codex_home).join("telegram-bot-locks")
}

/// The lock file of a bot.
pub(crate) fn lock_path_of(codex_home: &str, name: &str) -> (r: FilePath)
    ensures
        r@ == lock_path(codex_home@, name@),
{
    locks_dir_of(codex_home).join(concatenate(hex_encode(name).as_str(), ".lock").as_str())
}

/// The request for the lock of a bot.
pub(crate) fn lock_request_of(codex_home: &str, bot: TelegramBotConfig) -> (r: LockRequest)
    ensures
        r@ == lock_request_for(codex_home@, bot@),
{
    LockRequest {
        dir: locks_dir_of(codex_home),
        path: lock_path_of(codex_home, bot.name.as_str()),
        mode: LOCK_FILE_MODE,
        bot,
    }
}

/// The lock of a bot, or why it was not had.
pub(crate) fn lock_of<L>(codex_home: &str, name: &str, outcome: LockOutcome<L>) -> (r: Result<
    L,
    TelegramError,
>)
    ensures
        match r {
            Ok(lock) => outcome == (LockOutcome::Locked { lock }),
            Err(error) => lock_error(outcome, codex_home@, name@) == Some(error@),
        },
{
    match outcome {
        LockOutcome::Locked { lock } => Ok(lock),
        LockOutcome::WouldBlock => Err(TelegramError::BotInUse { name: name.to_owned() }),
        LockOutcome::DirFailed { reason } => Err(
            TelegramError::CreateLockDir { path: locks_dir_of(codex_home), reason },
        ),
        LockOutcome::OpenFailed { reason } => Err(
            TelegramError::OpenLockFile { path: lock_path_of(codex_home, name), reason },
        ),
        LockOutcome::LockFailed { reason } => Err(
            TelegramError::LockBot { name: name.to_owned(), reason },
        ),
    }
}

// ---------------------------------------------------------------------------
// Choosing a bot
// ---------------------------------------------------------------------------

/// What happened while a bot is chosen.
#[derive(Debug)]
pub enum SelectEvent<L> {
    /// The user has named the bot.
    Start,
    /// The configuration file was read.
    Config { read: ConfigRead },
    /// The lock of the bot was asked for.
    Lock { bot: TelegramBotConfig, outcome: LockOutcome<L> },
}

/// What is to be done next while a bot is chosen.
#[derive(Debug)]
pub enum SelectStep {
    /// Read the configuration file.
    ReadConfig { path: FilePath },
    /// Ask for the lock of the bot.
    Lock { request: LockRequest },
    /// The choice has come to its end.
    Finish { result: Result<TelegramActivation, TelegramError> },
}

/// The contents of a [`SelectStep`].
#[verifier::ext_equal]
pub enum SelectStepView {
    ReadConfig { path: FilePathView },
    Lock { request: LockRequestView },
    Finish { result: Result<TelegramActivation, TelegramErrorView> },
}

impl View for SelectStep {
    type V = SelectStepView;

    open spec fn view(&self) -> SelectStepView {
        match self {
            SelectStep::ReadConfig { path } => SelectStepView::ReadConfig { path: path@ },
            SelectStep::Lock { request } => SelectStepView::Lock { request: request@ },
            SelectStep::Finish { result } => SelectStepView::Finish {
                result: match result {
                    Ok(activation) => Ok(*activation),
                    Err(error) => Err(error@),
                },
            },
        }
    }
}

/// The bot that a configuration has under a name.
pub open spec fn configured_bot(read: ConfigRead, name: Seq<char>) -> Option<BotView> {
    match read {
        ConfigRead::Parsed { file } => first_named(bot_views(file.bots@), name, 0),
        _ => None,
    }
}

/// Why the bot of a name cannot be chosen.
pub open spec fn selection_error(
    read: ConfigRead,
    path: FilePathView,
    name: Seq<char>,
) -> Option<TelegramErrorView> {
    if config_error(read, path) is Some {
        config_error(read, path)
    } else if configured_bot(read, name) is None {
        Some(TelegramErrorView::BotNotFound { path, name })
    } else {
        None
    }
}

/// The next step in the choice of a bot, and the state after it. A bot that is in use already
/// stays as it is. Else the configuration is read, the bot is looked up in it and its lock is
/// asked for. With the lock the bot takes the place of the one before; whatever else happens,
/// that one stays.
pub open spec fn select_step<L>(state: NotifierView, name: Seq<char>, event: SelectEvent<L>) -> (
    NotifierView,
    SelectStepView,
) {
    match event {
        SelectEvent::Start => if state.active_name() == Some(name) {
            (state, SelectStepView::Finish { result: Ok(TelegramActivation::AlreadyActive) })
        } else {
            (state, SelectStepView::ReadConfig { path: bots_path(state.home) })
        },
        SelectEvent::Config { read } => match selection_error(read, bots_path(state.home), name) {
            Some(error) => (state, SelectStepView::Finish { result: Err(error) }),
            None => (
                state,
                SelectStepView::Lock {
                    request: lock_request_for(state.home, configured_bot(read, name)->0),
                },
            ),
        },
        SelectEvent::Lock { bot, outcome } => match lock_error(outcome, state.home, bot@.name) {
            Some(error) => (state, SelectStepView::Finish { result: Err(error) }),
            None => (
                NotifierView { home: state.home, active: Some(bot@) },
                SelectStepView::Finish { result: Ok(TelegramActivation::Activated) },
            ),
        },
    }
}

impl<L> TelegramNotifier<L> {
    /// A session without a bot.
    pub fn new(codex_home: String) -> (r: TelegramNotifier<L>)
        ensures
            r@ == (NotifierView { home: codex_home@, active: None }),
    {
        TelegramNotifier { codex_home, active_lease: None }
    }

    /// The configuration file.
    pub fn config_path(&self) -> (r: FilePath)
        ensures
            r@ == bots_path(self@.home),
    {
        FilePath::home(self.codex_home.as_str()).join("telegram-bots.toml")
    }

    /// The directory of the lock files.
    pub fn locks_dir(&self) -> (r: FilePath)
        ensures
            r@ == lock_dir(self@.home),
    {
        locks_dir_of(self.codex_home.as_str())
    }

    /// The lock file of a bot.
    pub fn lock_path_for_name(&self, name: &str) -> (r: FilePath)
        ensures
            r@ == lock_path(self@.home, name@),
    {
        lock_path_of(self.codex_home.as_str(), name)
    }

    /// The name of the bot in use.
    pub fn active_name(&self) -> (r: Option<&str>)
        ensures
            match r {
                Some(name) => self@.active_name() == Some(name@),
                None => self@.active_name() is None,
            },
    {
        match &self.active_lease {
            Some(lease) => Some(lease.config.name.as_str()),
            None => None,
        }
    }

    /// The bot in use.
    pub fn active_bot(&self) -> (r: Option<TelegramActiveBot>)
        ensures
            match r {
                Some(bot) => self@.active == Some(bot@),
                None => self@.active is None,
            },
    {
        match &self.active_lease {
            Some(lease) => Some(
                TelegramActiveBot {
                    name: lease.config.name.clone(),
                    token: lease.config.token.clone(),
                    chat_id: lease.config.chat_id.clone(),
                },
            ),
            None => None,
        }
    }

    /// Gives up the bot in use and its lock, and says whether there was one.
    pub fn deactivate(&mut self) -> (r: bool)
        ensures
            r == (old(self)@.active is Some),
            final(self)@ == old(self)@.without_bot(),
            final(self).active_lease is None,
    {
        let lease = self.active_lease.take();
        lease.is_some()
    }

    /// The configured bots, or what is wrong with the configuration.
    pub fn load_bots(&self, read: ConfigRead) -> (r: Result<Vec<TelegramBotConfig>, TelegramError>)
        ensures
            match r {
                Ok(bots) => {
                    &&& config_error(read, bots_path(self@.home)) is None
                    &&& read matches ConfigRead::Parsed { file }
                    &&& bots == file.bots
                },
                Err(error) => config_error(read, bots_path(self@.home)) == Some(error@),
            },
    {
        checked_bots(read, self.config_path())
    }

    /// The request for the lock of a bot.
    pub fn lock_request(&self, bot: TelegramBotConfig) -> (r: LockRequest)
        ensures
            r@ == lock_request_for(self@.home, bot@),
    {
        lock_request_of(self.codex_home.as_str(), bot)
    }

    /// The lock of a bot, or why it was not had.
    pub fn try_lock_bot(&self, bot: &TelegramBotConfig, outcome: LockOutcome<L>) -> (r: Result<
        L,
        TelegramError,
    >)
        ensures
            match r {
                Ok(lock) => outcome == (LockOutcome::Locked { lock }),
                Err(error) => lock_error(outcome, self@.home, bot@.name) == Some(error@),
            },
    {
        lock_of(self.codex_home.as_str(), bot.name.as_str(), outcome)
    }

    /// The next step in the choice of a bot. The lock that comes with a bot is kept with it.
    pub fn select_bot(&mut self, name: &str, event: SelectEvent<L>) -> (r: SelectStep)
        ensures
            (final(self)@, r@) == select_step(old(self)@, name@, event),
            match event {
                SelectEvent::Lock { bot, outcome: LockOutcome::Locked { lock } } => {
                    final(self).active_lease == Some(TelegramLease { config: bot, lock })
                },
                _ => *final(self) == *old(self),
            },
    {
        match event {
            SelectEvent::Start => {
                let already_active = match self.active_name() {
                    Some(active) => same_text(active, name),
                    None => false,
                };
                if already_active {
                    SelectStep::Finish { result: Ok(TelegramActivation::AlreadyActive) }
                } else {
                    SelectStep::ReadConfig { path: self.config_path() }
                }
            },
            SelectEvent::Config { read } => {
                let bots = match self.load_bots(read) {
                    Ok(bots) => bots,
                    Err(error) => {
                        return SelectStep::Finish { result: Err(error) };
                    },
                };
                match find_bot(&bots, name) {
                    Some(bot) => SelectStep::Lock { request: self.lock_request(bot) },
                    None => SelectStep::Finish {
                        result: Err(
                            TelegramError::BotNotFound {
                                path: self.config_path(),
                                name: name.to_owned(),
                            },
                        ),
                    },
                }
            },
            SelectEvent::Lock { bot, outcome } => {
                match self.try_lock_bot(&bot, outcome) {
                    Ok(lock) => {
                        self.active_lease = Some(TelegramLease { config: bot, lock });
                        SelectStep::Finish { result: Ok(TelegramActivation::Activated) }
                    },
                    Err(error) => SelectStep::Finish { result: Err(error) },
                }
            },
        }
    }
}

} // verus!

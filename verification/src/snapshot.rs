//! The list of bots to choose from. Each bot that this session does not use is tried, one after
//! the other, to see whether another session uses it.
use std::collections::VecDeque;

use vstd::prelude::*;

use crate::bots::{
    bot_views, config_error, BotView, ConfigRead, TelegramBotConfig, TelegramError,
    TelegramErrorView,
};
use crate::input::opt_text;
use crate::notifier::{
    bots_path, lock_error, lock_of, lock_request_for, lock_request_of, LockOutcome, LockRequest,
    TelegramNotifier,
};
use crate::paths::{FilePath, FilePathView};
use crate::text::same_text;

verus! {

/// Whether a bot can be chosen.
#[derive(Debug, Clone, Copy, PartialEq, Eq, Structural)]
pub enum TelegramBotAvailability {
    Available,
    InUseByAnotherSession,
    ActiveInThisSession,
}

/// A bot to choose from.
#[derive(Debug, Clone, PartialEq, Eq)]
pub struct TelegramBotOption {
    pub name: String,
    pub availability: TelegramBotAvailability,
}

/// The contents of a [`TelegramBotOption`].
#[verifier::ext_equal]
pub struct OptionView {
    pub name: Seq<char>,
    pub availability: TelegramBotAvailability,
}

impl View for TelegramBotOption {
    type V = OptionView;

    open spec fn view(&self) -> OptionView {
        OptionView { name: self.name@, availability: self.availability }
    }
}

/// The contents of a list of bots to choose from.
pub open spec fn option_views(options: Seq<TelegramBotOption>) -> Seq<OptionView> {
    options.map_values(|option: TelegramBotOption| option@)
}

/// All bots to choose from.
#[derive(Debug, Clone, PartialEq, Eq)]
pub struct TelegramBotSelectionSnapshot {
    pub config_path: FilePath,
    pub options: Vec<TelegramBotOption>,
    pub active_name: Option<String>,
}

/// The contents of a [`TelegramBotSelectionSnapshot`].
#[verifier::ext_equal]
pub struct SnapshotView {
    pub config_path: FilePathView,
    pub options: Seq<OptionView>,
    pub active_name: Option<Seq<char>>,
}

impl View for TelegramBotSelectionSnapshot {
    type V = SnapshotView;

    open spec fn view(&self) -> SnapshotView {
        SnapshotView {
            config_path: self.config_path@,
            options: option_views(self.options@),
            active_name: opt_text(self.active_name),
        }
    }
}

/// A list in the making, while the lock of the bot `current` is tried.
#[derive(Debug)]
pub struct SnapshotScan {
    pub codex_home: String,
    pub config_path: FilePath,
    pub active_name: Option<String>,
    pub options: Vec<TelegramBotOption>,
    pub current: TelegramBotConfig,
    pub rest: VecDeque<TelegramBotConfig>,
}

/// The contents of a [`SnapshotScan`]: the snapshot as far as it has come, and the bots that are
/// still to be listed.
#[verifier::ext_equal]
pub struct ScanView {
    pub home: Seq<char>,
    pub listed: SnapshotView,
    pub current: BotView,
    pub rest: Seq<BotView>,
}

impl View for SnapshotScan {
    type V = ScanView;

    open spec fn view(&self) -> ScanView {
        ScanView {
            home: self.codex_home@,
            listed: SnapshotView {
                config_path: self.config_path@,
                options: option_views(self.options@),
                active_name: opt_text(self.active_name),
            },
            current: self.current@,
            rest: bot_views(self.rest@),
        }
    }
}

/// What is to be done next for the list.
#[derive(Debug)]
pub enum SnapshotStep {
    /// Ask for the lock of a bot, and let go of it at once.
    Probe { scan: SnapshotScan },
    /// The list is complete.
    Done { snapshot: TelegramBotSelectionSnapshot },
}

/// The contents of a [`SnapshotStep`].
#[verifier::ext_equal]
pub enum SnapshotStepView {
    Probe { scan: ScanView },
    Done { snapshot: SnapshotView },
}

impl View for SnapshotStep {
    type V = SnapshotStepView;

    open spec fn view(&self) -> SnapshotStepView {
        match self {
            SnapshotStep::Probe { scan } => SnapshotStepView::Probe { scan: scan@ },
            SnapshotStep::Done { snapshot } => SnapshotStepView::Done { snapshot: snapshot@ },
        }
    }
}

impl SnapshotView {
    /// The snapshot with one more bot.
    pub open spec fn with(
        self,
        name: Seq<char>,
        availability: TelegramBotAvailability,
    ) -> SnapshotView {
        SnapshotView { options: self.options.push(OptionView { name, availability }), ..self }
    }
}

/// The next step where some bots are listed and others are not. The bot of this session is
/// listed as such without being tried.
pub open spec fn next_probe(
    home: Seq<char>,
    listed: SnapshotView,
    rest: Seq<BotView>,
) -> SnapshotStepView
    decreases rest.len(),
{
    if rest.len() == 0 {
        SnapshotStepView::Done { snapshot: listed }
    } else if listed.active_name == Some(rest[0].name) {
        next_probe(
            home,
            listed.with(rest[0].name, TelegramBotAvailability::ActiveInThisSession),
            rest.drop_first(),
        )
    } else {
        SnapshotStepView::Probe {
            scan: ScanView { home, listed, current: rest[0], rest: rest.drop_first() },
        }
    }
}

/// The next step once the lock of the current bot was tried: the bot is listed as available or as
/// in use elsewhere, and a failure of another kind ends the listing.
pub open spec fn probed<L>(scan: ScanView, outcome: LockOutcome<L>) -> Result<
    SnapshotStepView,
    TelegramErrorView,
> {
    match outcome {
        LockOutcome::Locked { .. } => Ok(
            next_probe(
                scan.home,
                scan.listed.with(scan.current.name, TelegramBotAvailability::Available),
                scan.rest,
            ),
        ),
        LockOutcome::WouldBlock => Ok(
            next_probe(
                scan.home,
                scan.listed.with(scan.current.name, TelegramBotAvailability::InUseByAnotherSession),
                scan.rest,
            ),
        ),
        _ => Err(lock_error(outcome, scan.home, scan.current.name)->0),
    }
}

/// Lists the bots of this session up to the next one that has to be tried.
fn advance(
    codex_home: String,
    config_path: FilePath,
    active_name: Option<String>,
    listed: Vec<TelegramBotOption>,
    remaining: VecDeque<TelegramBotConfig>,
) -> (r: SnapshotStep)
    ensures
        r@ == next_probe(
            codex_home@,
            SnapshotView {
                config_path: config_path@,
                options: option_views(listed@),
                active_name: opt_text(active_name),
            },
            bot_views(remaining@),
        ),
{
    let ghost goal = next_probe(
        codex_home@,
        SnapshotView {
            config_path: config_path@,
            options: option_views(listed@),
            active_name: opt_text(active_name),
        },
        bot_views(remaining@),
    );
    let mut options = listed;
    let mut rest = remaining;
    loop
        invariant
            goal == next_probe(
                codex_home@,
                SnapshotView {
                    config_path: config_path@,
                    options: option_views(listed@),
                    active_name: opt_text(active_name),
                },
                bot_views(remaining@),
            ),
            goal == next_probe(
                codex_home@,
                SnapshotView {
                    config_path: config_path@,
                    options: option_views(options@),
                    active_name: opt_text(active_name),
                },
                bot_views(rest@),
            ),
        decreases rest@.len(),
    {
        let ghost before = bot_views(rest@);
        let ghost so_far = option_views(options@);
        let bot = match rest.pop_front() {
            Some(bot) => bot,
            None => {
                return SnapshotStep::Done {
                    snapshot: TelegramBotSelectionSnapshot { config_path, options, active_name },
                };
            },
        };
        assert(before[0] == bot@);
        assert(bot_views(rest@) =~= before.drop_first());
        let is_active = match &active_name {
            Some(name) => same_text(name.as_str(), bot.name.as_str()),
            None => false,
        };
        if !is_active {
            return SnapshotStep::Probe {
                scan: SnapshotScan {
                    codex_home,
                    config_path,
                    active_name,
                    options,
                    current: bot,
                    rest,
                },
            };
        }
        let option = TelegramBotOption {
            name: bot.name,
            availability: TelegramBotAvailability::ActiveInThisSession,
        };
        let ghost added = option@;
        options.push(option);
        assert(option_views(options@) =~= so_far.push(added));
    }
}

impl<L> TelegramNotifier<L> {
    /// The first step towards the list of bots to choose from, or what is wrong with the
    /// configuration.
    pub fn selection_snapshot(&self, read: ConfigRead) -> (r: Result<SnapshotStep, TelegramError>)
        ensures
            match r {
                Ok(step) => {
                    &&& config_error(read, bots_path(self@.home)) is None
                    &&& read matches ConfigRead::Parsed { file }
                    &&& step@ == next_probe(
                        self@.home,
                        SnapshotView {
                            config_path: bots_path(self@.home),
                            options: Seq::empty(),
                            active_name: self@.active_name(),
                        },
                        bot_views(file.bots@),
                    )
                },
                Err(error) => config_error(read, bots_path(self@.home)) == Some(error@),
            },
    {
        let bots = match self.load_bots(read) {
            Ok(bots) => bots,
            Err(error) => {
                return Err(error);
            },
        };
        let ghost all = bots@;
        let mut rest: VecDeque<TelegramBotConfig> = VecDeque::new();
        for bot in it: bots
            invariant
                it.seq() == all,
                rest@ == all.take(it.index() as int),
        {
            rest.push_back(bot);
        }
        assert(rest@ =~= all);
        let active_name = match self.active_name() {
            Some(name) => Some(name.to_owned()),
            None => None,
        };
        let options: Vec<TelegramBotOption> = Vec::new();
        assert(option_views(options@) =~= Seq::<OptionView>::empty());
        Ok(advance(self.codex_home.clone(), self.config_path(), active_name, options, rest))
    }
}

impl SnapshotScan {
    /// The request for the lock of the bot that is tried.
    pub fn lock_request(&self) -> (r: LockRequest)
        ensures
            r@ == lock_request_for(self@.home, self@.current),
    {
        lock_request_of(self.codex_home.as_str(), self.current.clone())
    }

    /// The next step once the lock was tried. A lock that was had is let go.
    pub fn resume<L>(self, outcome: LockOutcome<L>) -> (r: Result<SnapshotStep, TelegramError>)
        ensures
            match r {
                Ok(step) => probed(self@, outcome) == Ok::<SnapshotStepView, TelegramErrorView>(
                    step@,
                ),
                Err(error) => probed(self@, outcome) == Err::<SnapshotStepView, TelegramErrorView>(
                    error@,
                ),
            },
    {
        let ghost listed = option_views(self.options@);
        let availability = match lock_of(
            self.codex_home.as_str(),
            self.current.name.as_str(),
            outcome,
        ) {
            Ok(_) => TelegramBotAvailability::Available,
            Err(TelegramError::BotInUse { .. }) => TelegramBotAvailability::InUseByAnotherSession,
            Err(error) => {
                return Err(error);
            },
        };
        let option = TelegramBotOption { name: self.current.name, availability };
        let ghost added = option@;
        let mut options = self.options;
        options.push(option);
        assert(option_views(options@) =~= listed.push(added));
        Ok(advance(self.codex_home, self.config_path, self.active_name, options, self.rest))
    }
}

} // verus!

//! What callers see of the configuration, of the bot of a session and of the list of bots.
use vstd::prelude::*;

use super::files::{leads, lemma_leads};
use super::{
    completed, law_first_bad_entry_is_reported, law_snapshot_lists_every_bot,
    lemma_entries_are_good, lemma_first_named, listed_as,
};
use crate::api::TelegramActiveBot;
use crate::bots::{
    bot_views, entries_error, entry_error, find_bot, first_named, is_duplicate, BotView,
    ConfigRead, TelegramBotConfig, TelegramError,
};
use crate::input::opt_text;
use crate::notifier::{
    bots_path, lock_dir, lock_error, lock_name, lock_path, lock_request_for, LockOutcome,
    LockRequest, SelectEvent, SelectStep, TelegramActivation, TelegramLease, TelegramNotifier,
};
use crate::paths::FilePath;
use crate::snapshot::{
    next_probe, option_views, SnapshotScan, SnapshotStep, SnapshotStepView, SnapshotView,
    TelegramBotAvailability, TelegramBotSelectionSnapshot,
};
use crate::text::{hex_encode, is_blank, is_white_space};

verus! {

// ---------------------------------------------------------------------------
// The configuration
// ---------------------------------------------------------------------------

/// Whether a text has a character that is no white space.
pub open spec fn is_filled(text: Seq<char>) -> bool {
    exists|i: int| 0 <= i < text.len() && !is_white_space(#[trigger] text[i])
}

/// Whether an entry of a configuration is good: name, token and chat are filled, and no entry
/// before it has its name.
pub open spec fn is_good(bots: Seq<TelegramBotConfig>, i: int) -> bool {
    &&& is_filled(bots[i].name@)
    &&& is_filled(bots[i].token@)
    &&& is_filled(bots[i].chat_id@)
    &&& forall|j: int| 0 <= j < i ==> (#[trigger] bots[j]).name@ != bots[i].name@
}

/// Whether a path is that of the configuration file.
pub open spec fn is_config(path: FilePath, home: Seq<char>) -> bool {
    leads(path, home, seq!["telegram-bots.toml"@])
}

/// Whether an error says what is wrong with an entry: which of its fields is not filled, the first
/// of them, or else that its name stood before.
pub open spec fn complains(
    error: TelegramError,
    bots: Seq<TelegramBotConfig>,
    i: int,
    home: Seq<char>,
) -> bool {
    if !is_filled(bots[i].name@) {
        error matches TelegramError::EmptyField { index, field } && index == i && field@ == "name"@
    } else if !is_filled(bots[i].token@) {
        error matches TelegramError::EmptyField { index, field } && index == i && field@ == "token"@
    } else if !is_filled(bots[i].chat_id@) {
        error matches TelegramError::EmptyField { index, field } && index == i && field@
            == "chat_id"@
    } else {
        error matches TelegramError::DuplicateName { path, name } && is_config(path, home) && name@
            == bots[i].name@
    }
}

proof fn lemma_filled(text: Seq<char>)
    ensures
        is_filled(text) == !is_blank(text),
{
}

proof fn lemma_good(bots: Seq<TelegramBotConfig>, i: int, home: Seq<char>)
    requires
        0 <= i < bots.len(),
    ensures
        entry_error(bot_views(bots), i, bots_path(home)) is None == is_good(bots, i),
{
    let views = bot_views(bots);
    assert(forall|j: int| 0 <= j < bots.len() ==> #[trigger] views[j] == bots[j]@);
    lemma_filled(bots[i].name@);
    lemma_filled(bots[i].token@);
    lemma_filled(bots[i].chat_id@);
    if is_duplicate(views, i) {
        let j = choose|j: int| 0 <= j < i && #[trigger] views[j].name == views[i].name;
        assert(bots[j].name@ == bots[i].name@);
    } else {
        assert forall|j: int| 0 <= j < i implies (#[trigger] bots[j]).name@ != bots[i].name@ by {
            assert(views[j].name != views[i].name);
        }
    }
}

pub(super) proof fn lemma_config_path(path: FilePath, home: Seq<char>)
    ensures
        (path@ == bots_path(home)) == is_config(path, home),
{
    lemma_leads(path, home, seq!["telegram-bots.toml"@]);
    assert(bots_path(home).names =~= seq!["telegram-bots.toml"@]);
}

/// A configuration that cannot be read or parsed, or that has no bots, is reported as such. One
/// whose entries are all good gives its bots as they are. Of any other one the first entry that is
/// not good is reported.
pub proof fn law_configurations<L>(
    session: TelegramNotifier<L>,
    read: ConfigRead,
    r: Result<Vec<TelegramBotConfig>, TelegramError>,
)
    requires
        call_ensures(TelegramNotifier::<L>::load_bots, (&session, read), r),
    ensures
        ({
            let home = session.codex_home@;
            match read {
                ConfigRead::Missing => {
                    &&& r matches Err(TelegramError::MissingConfig { path })
                    &&& is_config(path, home)
                },
                ConfigRead::Unreadable { reason } => {
                    &&& r matches Err(TelegramError::ReadConfig { path, reason: told })
                    &&& is_config(path, home)
                    &&& told@ == reason@
                },
                ConfigRead::Malformed { reason } => {
                    &&& r matches Err(TelegramError::ParseConfig { path, reason: told })
                    &&& is_config(path, home)
                    &&& told@ == reason@
                },
                ConfigRead::Parsed { file } => {
                    let bots = file.bots@;
                    if bots.len() == 0 {
                        &&& r matches Err(TelegramError::EmptyConfig { path })
                        &&& is_config(path, home)
                    } else if forall|i: int| 0 <= i < bots.len() ==> #[trigger] is_good(bots, i) {
                        r == Ok::<_, TelegramError>(file.bots)
                    } else {
                        &&& r matches Err(error)
                        &&& exists|i: int|
                            {
                                &&& 0 <= i < bots.len()
                                &&& !is_good(bots, i)
                                &&& forall|j: int| 0 <= j < i ==> #[trigger] is_good(bots, j)
                                &&& #[trigger] complains(error, bots, i, home)
                            }
                    }
                },
            }
        }),
{
    let home = session.codex_home@;
    let expected = bots_path(home);
    match r {
        Ok(_) => {},
        Err(TelegramError::MissingConfig { path }) => lemma_config_path(path, home),
        Err(TelegramError::ReadConfig { path, .. }) => lemma_config_path(path, home),
        Err(TelegramError::ParseConfig { path, .. }) => lemma_config_path(path, home),
        Err(TelegramError::EmptyConfig { path }) => lemma_config_path(path, home),
        Err(TelegramError::DuplicateName { path, .. }) => lemma_config_path(path, home),
        Err(_) => {},
    }
    if let ConfigRead::Parsed { file } = read {
        let bots = file.bots@;
        let views = bot_views(bots);
        assert(views.len() == bots.len());
        assert(forall|j: int| 0 <= j < bots.len() ==> #[trigger] views[j] == bots[j]@);
        if bots.len() > 0 {
            if entries_error(views, 0, expected) is None {
                lemma_entries_are_good(views, 0, expected);
                assert forall|i: int| 0 <= i < bots.len() implies #[trigger] is_good(bots, i) by {
                    assert(entry_error(views, i, expected) is None);
                    lemma_good(bots, i, home);
                }
            } else {
                law_first_bad_entry_is_reported(views, 0, expected);
                let i = choose|i: int|
                    {
                        &&& 0 <= i < views.len()
                        &&& #[trigger] entry_error(views, i, expected) == entries_error(
                            views,
                            0,
                            expected,
                        )
                        &&& forall|j: int|
                            0 <= j < i ==> #[trigger] entry_error(views, j, expected) is None
                    };
                lemma_good(bots, i, home);
                assert forall|j: int| 0 <= j < i implies #[trigger] is_good(bots, j) by {
                    assert(entry_error(views, j, expected) is None);
                    lemma_good(bots, j, home);
                }
                lemma_filled(bots[i].name@);
                lemma_filled(bots[i].token@);
                lemma_filled(bots[i].chat_id@);
                assert(r is Err);
                assert(complains(r->Err_0, bots, i, home));
            }
        }
    }
}

/// Whether two profiles have the same name, token and chat.
pub open spec fn same_profile(a: TelegramBotConfig, b: TelegramBotConfig) -> bool {
    a.name@ == b.name@ && a.token@ == b.token@ && a.chat_id@ == b.chat_id@
}

/// A bot is found by its name, whole and in its case: the first one that has it.
pub proof fn law_bots_are_found_by_name(
    bots: Vec<TelegramBotConfig>,
    name: &str,
    r: Option<TelegramBotConfig>,
)
    requires
        call_ensures(find_bot, (&bots, name), r),
    ensures
        r is None == (forall|i: int| 0 <= i < bots@.len() ==> (#[trigger] bots@[i]).name@ != name@),
        r matches Some(bot) ==> bot.name@ == name@ && exists|i: int|
            {
                &&& 0 <= i < bots@.len()
                &&& same_profile(bot, #[trigger] bots@[i])
                &&& forall|j: int| 0 <= j < i ==> (#[trigger] bots@[j]).name@ != name@
            },
{
    let views = bot_views(bots@);
    assert(views.len() == bots@.len());
    assert(forall|j: int| 0 <= j < bots@.len() ==> #[trigger] views[j] == bots@[j]@);
    lemma_first_named(views, name@, 0);
    match r {
        Some(bot) => {
            lemma_first_is_first(views, name@, 0);
            let i = choose|i: int|
                {
                    &&& 0 <= i < views.len()
                    &&& #[trigger] views[i] == bot@
                    &&& forall|j: int| 0 <= j < i ==> (#[trigger] views[j]).name != name@
                };
            assert(same_profile(bot, bots@[i]));
            assert(bots@[i].name@ == name@);
            assert forall|j: int| 0 <= j < i implies (#[trigger] bots@[j]).name@ != name@ by {
                assert(views[j].name != name@);
            }
        },
        None => {
            assert forall|i: int| 0 <= i < bots@.len() implies (#[trigger] bots@[i]).name@
                != name@ by {
                assert(views[i].name != name@);
            }
        },
    }
}

proof fn lemma_first_is_first(bots: Seq<BotView>, name: Seq<char>, from: int)
    requires
        0 <= from,
        first_named(bots, name, from) is Some,
    ensures
        exists|i: int|
            {
                &&& from <= i < bots.len()
                &&& #[trigger] bots[i] == first_named(bots, name, from)->0
                &&& forall|j: int| from <= j < i ==> (#[trigger] bots[j]).name != name
            },
    decreases bots.len() - from,
{
    if bots[from].name == name {
        assert(bots[from] == first_named(bots, name, from)->0);
    } else {
        lemma_first_is_first(bots, name, from + 1);
        let i = choose|i: int|
            {
                &&& from + 1 <= i < bots.len()
                &&& #[trigger] bots[i] == first_named(bots, name, from + 1)->0
                &&& forall|j: int| from + 1 <= j < i ==> (#[trigger] bots[j]).name != name
            };
        assert(bots[i] == first_named(bots, name, from)->0);
    }
}

// ---------------------------------------------------------------------------
// The bot of a session
// ---------------------------------------------------------------------------

/// Whether a path is that of the lock file of a bot.
pub open spec fn is_lock(path: FilePath, home: Seq<char>, name: Seq<char>) -> bool {
    leads(path, home, seq!["telegram-bot-locks"@, lock_name(name)])
}

proof fn lemma_lock_paths(path: FilePath, home: Seq<char>, name: Seq<char>)
    ensures
        (path@ == lock_path(home, name)) == is_lock(path, home, name),
        (path@ == lock_dir(home)) == leads(path, home, seq!["telegram-bot-locks"@]),
{
    let names = seq!["telegram-bot-locks"@, lock_name(name)];
    lemma_leads(path, home, names);
    assert(lock_path(home, name).names =~= names);
    lemma_leads(path, home, seq!["telegram-bot-locks"@]);
    assert(lock_dir(home).names =~= seq!["telegram-bot-locks"@]);
}

/// The configuration and the locks have their places below the home directory, and the lock of a
/// bot is named by the hexadecimal form of the name of the bot.
pub proof fn law_session_paths<L>(
    session: TelegramNotifier<L>,
    name: &str,
    config: FilePath,
    locks: FilePath,
    lock: FilePath,
    encoded: String,
)
    requires
        call_ensures(TelegramNotifier::<L>::config_path, (&session,), config),
        call_ensures(TelegramNotifier::<L>::locks_dir, (&session,), locks),
        call_ensures(TelegramNotifier::<L>::lock_path_for_name, (&session, name), lock),
        call_ensures(hex_encode, (name,), encoded),
    ensures
        leads(config, session.codex_home@, seq!["telegram-bots.toml"@]),
        leads(locks, session.codex_home@, seq!["telegram-bot-locks"@]),
        leads(lock, session.codex_home@, seq!["telegram-bot-locks"@, encoded@ + ".lock"@]),
        is_lock(lock, session.codex_home@, name@),
{
    let home = session.codex_home@;
    lemma_config_path(config, home);
    lemma_lock_paths(locks, home, name@);
    lemma_lock_paths(lock, home, name@);
}

/// Whether a request asks for the lock of a bot: for its file in the directory of the locks, for
/// its owner alone.
pub open spec fn asks_for_lock(request: LockRequest, home: Seq<char>, bot: BotView) -> bool {
    &&& request.bot.name@ == bot.name
    &&& request.bot.token@ == bot.token
    &&& request.bot.chat_id@ == bot.chat_id
    &&& leads(request.dir, home, seq!["telegram-bot-locks"@])
    &&& is_lock(request.path, home, bot.name)
    &&& request.mode == 0o600
}

/// Whether a result is what came of the request for the lock of a bot: the lock itself, or the
/// error for just what went wrong.
pub open spec fn is_result_of<L>(
    result: Result<L, TelegramError>,
    outcome: LockOutcome<L>,
    home: Seq<char>,
    name: Seq<char>,
) -> bool {
    match outcome {
        LockOutcome::Locked { lock } => result == Ok::<L, TelegramError>(lock),
        LockOutcome::WouldBlock => {
            &&& result matches Err(TelegramError::BotInUse { name: told })
            &&& told@ == name
        },
        LockOutcome::DirFailed { reason } => {
            &&& result matches Err(TelegramError::CreateLockDir { path, reason: told })
            &&& leads(path, home, seq!["telegram-bot-locks"@])
            &&& told@ == reason@
        },
        LockOutcome::OpenFailed { reason } => {
            &&& result matches Err(TelegramError::OpenLockFile { path, reason: told })
            &&& is_lock(path, home, name)
            &&& told@ == reason@
        },
        LockOutcome::LockFailed { reason } => {
            &&& result matches Err(TelegramError::LockBot { name: bot, reason: told })
            &&& bot@ == name
            &&& told@ == reason@
        },
    }
}

proof fn lemma_result_of<L>(
    result: Result<L, TelegramError>,
    outcome: LockOutcome<L>,
    home: Seq<char>,
    name: Seq<char>,
)
    requires
        match result {
            Ok(lock) => outcome == (LockOutcome::Locked { lock }),
            Err(error) => lock_error(outcome, home, name) == Some(error@),
        },
    ensures
        is_result_of(result, outcome, home, name),
{
    if let Err(TelegramError::CreateLockDir { path, .. }) = result {
        lemma_lock_paths(path, home, name);
    }
    if let Err(TelegramError::OpenLockFile { path, .. }) = result {
        lemma_lock_paths(path, home, name);
    }
}

proof fn lemma_asks_for_lock(request: LockRequest, home: Seq<char>, bot: BotView)
    requires
        request@ == lock_request_for(home, bot),
    ensures
        asks_for_lock(request, home, bot),
{
    lemma_lock_paths(request.dir, home, bot.name);
    lemma_lock_paths(request.path, home, bot.name);
}

/// The lock of a bot is asked for in its place, and what comes of it is handed on: the lock, or
/// what went wrong.
pub proof fn law_locks_of_bots<L>(
    session: TelegramNotifier<L>,
    bot: TelegramBotConfig,
    request: LockRequest,
    outcome: LockOutcome<L>,
    r: Result<L, TelegramError>,
)
    requires
        call_ensures(TelegramNotifier::<L>::lock_request, (&session, bot), request),
        call_ensures(TelegramNotifier::<L>::try_lock_bot, (&session, &bot, outcome), r),
    ensures
        asks_for_lock(request, session.codex_home@, bot@),
        is_result_of(r, outcome, session.codex_home@, bot.name@),
{
    lemma_asks_for_lock(request, session.codex_home@, bot@);
    lemma_result_of(r, outcome, session.codex_home@, bot.name@);
}

/// A new session uses no bot. What a session says of its bot is what it holds, and when it gives
/// the bot up it holds none and says whether it did.
pub proof fn law_the_bot_of_a_session<L>(
    home: String,
    fresh: TelegramNotifier<L>,
    session: &mut TelegramNotifier<L>,
    name: Option<&str>,
    bot: Option<TelegramActiveBot>,
    given_up: bool,
)
    requires
        call_ensures(TelegramNotifier::<L>::new, (home,), fresh),
        call_ensures(TelegramNotifier::<L>::active_name, (&*old(session),), name),
        call_ensures(TelegramNotifier::<L>::active_bot, (&*old(session),), bot),
        call_ensures(TelegramNotifier::<L>::deactivate, (session,), given_up),
    ensures
        fresh.active_lease is None,
        fresh.codex_home@ == home@,
        match old(session).active_lease {
            Some(lease) => {
                &&& name matches Some(shown)
                &&& shown@ == lease.config.name@
                &&& bot matches Some(used)
                &&& used.name@ == lease.config.name@
                &&& used.token@ == lease.config.token@
                &&& used.chat_id@ == lease.config.chat_id@
            },
            None => name is None && bot is None,
        },
        given_up == old(session).active_lease is Some,
        final(session).active_lease is None,
        final(session).codex_home@ == old(session).codex_home@,
{
}

/// A bot that is in use already stays as it is, and the configuration is not even read. Any other
/// one is looked for in the configuration.
pub proof fn law_choosing_starts<L>(
    session: &mut TelegramNotifier<L>,
    name: &str,
    step: SelectStep,
)
    requires
        call_ensures(TelegramNotifier::<L>::select_bot, (session, name, SelectEvent::Start), step),
    ensures
        *final(session) == *old(session),
        if old(session).active_lease matches Some(lease) && lease.config.name@ == name@ {
            step matches SelectStep::Finish { result } && result == Ok::<_, TelegramError>(
                TelegramActivation::AlreadyActive,
            )
        } else {
            step matches SelectStep::ReadConfig { path } && is_config(
                path,
                old(session).codex_home@,
            )
        },
{
    if let SelectStep::ReadConfig { path } = step {
        lemma_config_path(path, old(session).codex_home@);
    }
}

/// With the configuration at hand, what is wrong with it ends the choice, and so does a name that
/// it does not have. Else the lock of the bot of that name is asked for. The session keeps its bot.
pub proof fn law_choosing_looks_up_the_name<L>(
    session: &mut TelegramNotifier<L>,
    name: &str,
    read: ConfigRead,
    loaded: Result<Vec<TelegramBotConfig>, TelegramError>,
    found: Option<TelegramBotConfig>,
    step: SelectStep,
)
    requires
        call_ensures(TelegramNotifier::<L>::load_bots, (&*old(session), read), loaded),
        loaded matches Ok(bots) ==> call_ensures(find_bot, (&bots, name), found),
        call_ensures(
            TelegramNotifier::<L>::select_bot,
            (session, name, SelectEvent::Config { read }),
            step,
        ),
    ensures
        *final(session) == *old(session),
        match (loaded, found) {
            (Err(error), _) => step matches SelectStep::Finish { result: Err(told) } && told@
                == error@,
            (Ok(_), None) => {
                &&& step matches SelectStep::Finish {
                    result: Err(TelegramError::BotNotFound { path, name: told }),
                }
                &&& is_config(path, old(session).codex_home@)
                &&& told@ == name@
            },
            (Ok(_), Some(bot)) => step matches SelectStep::Lock { request } && asks_for_lock(
                request,
                old(session).codex_home@,
                bot@,
            ),
        },
{
    let home = old(session).codex_home@;
    if let SelectStep::Lock { request } = step {
        if let Some(bot) = found {
            if loaded is Ok {
                lemma_asks_for_lock(request, home, bot@);
            }
        }
    }
    if let SelectStep::Finish { result: Err(TelegramError::BotNotFound { path, .. }) } = step {
        lemma_config_path(path, home);
    }
}

/// With the lock, the bot takes the place of the one before and is kept together with its lock.
/// Without, what went wrong is told and the session keeps the bot that it had.
pub proof fn law_choosing_ends_with_the_lock<L>(
    session: &mut TelegramNotifier<L>,
    name: &str,
    bot: TelegramBotConfig,
    outcome: LockOutcome<L>,
    step: SelectStep,
)
    requires
        call_ensures(
            TelegramNotifier::<L>::select_bot,
            (session, name, SelectEvent::Lock { bot, outcome }),
            step,
        ),
    ensures
        final(session).codex_home@ == old(session).codex_home@,
        step is Finish,
        match outcome {
            LockOutcome::Locked { lock } => {
                &&& final(session).active_lease == Some(TelegramLease { config: bot, lock })
                &&& step->result == Ok::<_, TelegramError>(TelegramActivation::Activated)
            },
            _ => {
                &&& *final(session) == *old(session)
                &&& step->result matches Err(error)
                &&& is_result_of(Err(error), outcome, old(session).codex_home@, bot.name@)
            },
        },
{
    let home = old(session).codex_home@;
    if let SelectStep::Finish { result: Err(error) } = step {
        if outcome !is Locked {
            lemma_result_of(Err(error), outcome, home, bot.name@);
        }
    }
}

// ---------------------------------------------------------------------------
// The list of bots
// ---------------------------------------------------------------------------

/// Whether a snapshot is the full list for a session: every bot of the configuration once and in
/// its order, the bot of the session as active, and every other one as available exactly if it is
/// free.
pub open spec fn lists(
    snapshot: TelegramBotSelectionSnapshot,
    bots: Seq<TelegramBotConfig>,
    home: Seq<char>,
    active_name: Option<Seq<char>>,
    free: spec_fn(Seq<char>) -> bool,
) -> bool {
    &&& is_config(snapshot.config_path, home)
    &&& match active_name {
        Some(name) => snapshot.active_name matches Some(told) && told@ == name,
        None => snapshot.active_name is None,
    }
    &&& snapshot.options@.len() == bots.len()
    &&& forall|i: int|
        0 <= i < bots.len() ==> {
            &&& (#[trigger] snapshot.options@[i]).name@ == bots[i].name@
            &&& snapshot.options@[i].availability == if active_name == Some(bots[i].name@) {
                TelegramBotAvailability::ActiveInThisSession
            } else if free(bots[i].name@) {
                TelegramBotAvailability::Available
            } else {
                TelegramBotAvailability::InUseByAnotherSession
            }
        }
}

/// The name of the bot that a session uses.
pub open spec fn name_in_use<L>(session: TelegramNotifier<L>) -> Option<Seq<char>> {
    match session.active_lease {
        Some(lease) => Some(lease.config.name@),
        None => None,
    }
}

/// Whether a step tries the next of some bots: the first one that this session does not use, with
/// those behind it left to be listed. Only where the session uses them all there is none to try.
pub open spec fn tries_next(
    step: SnapshotStep,
    home: Seq<char>,
    active_name: Option<Seq<char>>,
    bots: Seq<BotView>,
) -> bool {
    match step {
        SnapshotStep::Probe { scan } => {
            &&& scan.codex_home@ == home
            &&& active_name != Some(scan.current.name@)
            &&& exists|k: int|
                {
                    &&& 0 <= k < bots.len()
                    &&& scan.current@ == #[trigger] bots[k]
                    &&& bot_views(scan.rest@) == bots.skip(k + 1)
                    &&& forall|j: int|
                        0 <= j < k ==> active_name == Some((#[trigger] bots[j]).name)
                }
        },
        SnapshotStep::Done { .. } => forall|j: int|
            0 <= j < bots.len() ==> active_name == Some((#[trigger] bots[j]).name),
    }
}

proof fn lemma_tries_next(
    step: SnapshotStep,
    home: Seq<char>,
    listed: SnapshotView,
    bots: Seq<BotView>,
)
    requires
        step@ == next_probe(home, listed, bots),
    ensures
        tries_next(step, home, listed.active_name, bots),
    decreases bots.len(),
{
    if bots.len() > 0 {
        let fewer = bots.drop_first();
        if listed.active_name == Some(bots[0].name) {
            let more = listed.with(bots[0].name, TelegramBotAvailability::ActiveInThisSession);
            lemma_tries_next(step, home, more, fewer);
            if let SnapshotStep::Probe { scan } = step {
                let k = choose|k: int|
                    {
                        &&& 0 <= k < fewer.len()
                        &&& scan.current@ == #[trigger] fewer[k]
                        &&& bot_views(scan.rest@) == fewer.skip(k + 1)
                        &&& forall|j: int|
                            0 <= j < k ==> listed.active_name == Some((#[trigger] fewer[j]).name)
                    };
                assert(scan.current@ == bots[k + 1]);
                assert(fewer.skip(k + 1) =~= bots.skip(k + 2));
                assert forall|j: int| 0 <= j < k + 1 implies listed.active_name == Some(
                    (#[trigger] bots[j]).name,
                ) by {
                    if j > 0 {
                        assert(fewer[j - 1] == bots[j]);
                    }
                }
            } else {
                assert forall|j: int| 0 <= j < bots.len() implies listed.active_name == Some(
                    (#[trigger] bots[j]).name,
                ) by {
                    if j > 0 {
                        assert(fewer[j - 1] == bots[j]);
                    }
                }
            }
        } else if let SnapshotStep::Probe { scan } = step {
            assert(scan.current@ == bots[0]);
            assert(bots.skip(1) =~= fewer);
        }
    }
}

/// What is wrong with the configuration ends the listing. Else it starts with the first bot that
/// has to be tried, and once all bots are listed, as free as they were found to be, the list is
/// complete.
pub proof fn law_listing_starts<L>(
    session: TelegramNotifier<L>,
    read: ConfigRead,
    loaded: Result<Vec<TelegramBotConfig>, TelegramError>,
    r: Result<SnapshotStep, TelegramError>,
    free: spec_fn(Seq<char>) -> bool,
    snapshot: TelegramBotSelectionSnapshot,
)
    requires
        call_ensures(TelegramNotifier::<L>::load_bots, (&session, read), loaded),
        call_ensures(TelegramNotifier::<L>::selection_snapshot, (&session, read), r),
    ensures
        loaded matches Err(error) ==> r matches Err(told) && told@ == error@,
        loaded matches Ok(bots) ==> {
            let home = session.codex_home@;
            let active_name = name_in_use(session);
            &&& r matches Ok(step)
            &&& tries_next(step, home, active_name, bot_views(bots@))
            &&& snapshot@ == completed(step@, free) ==> lists(
                snapshot,
                bots@,
                home,
                active_name,
                free,
            )
        },
{
    if let Ok(bots) = loaded {
        let home = session.codex_home@;
        let views = bot_views(bots@);
        let listed = SnapshotView {
            config_path: bots_path(home),
            options: Seq::empty(),
            active_name: name_in_use(session),
        };
        law_snapshot_lists_every_bot(home, listed, views, free);
        if let Ok(step) = r {
            assert(step@ == next_probe(home, listed, views));
            lemma_tries_next(step, home, listed, views);
            if snapshot@ == completed(step@, free) {
                lemma_config_path(snapshot.config_path, home);
                let f = |bot: BotView| listed_as(bot, listed.active_name, free);
                assert(snapshot@.options == listed.options + views.map_values(f));
                assert(option_views(snapshot.options@).len() == snapshot.options@.len());
                assert(views.len() == bots@.len());
                assert forall|i: int| 0 <= i < bots@.len() implies {
                    &&& (#[trigger] snapshot.options@[i]).name@ == bots@[i].name@
                    &&& snapshot.options@[i].availability == listed_as(
                        bots@[i]@,
                        listed.active_name,
                        free,
                    ).availability
                } by {
                    assert(option_views(snapshot.options@)[i] == snapshot.options@[i]@);
                    assert(views[i] == bots@[i]@);
                    assert(snapshot@.options[i] == f(views[i]));
                }
            }
        }
    }
}

/// A bot is tried by its lock. Whether the lock is had or held elsewhere, the listing goes on
/// towards the same list, with the bot as it was found. Any other failure ends it.
pub proof fn law_listing_goes_on<L>(
    scan: SnapshotScan,
    request: LockRequest,
    outcome: LockOutcome<L>,
    r: Result<SnapshotStep, TelegramError>,
    free: spec_fn(Seq<char>) -> bool,
)
    requires
        call_ensures(SnapshotScan::lock_request, (&scan,), request),
        call_ensures(SnapshotScan::resume::<L>, (scan, outcome), r),
    ensures
        asks_for_lock(request, scan.codex_home@, scan.current@),
        ({
            let goal = completed(SnapshotStepView::Probe { scan: scan@ }, free);
            let home = scan.codex_home@;
            let active_name = opt_text(scan.active_name);
            match outcome {
                LockOutcome::Locked { .. } => {
                    &&& r matches Ok(step)
                    &&& tries_next(step, home, active_name, bot_views(scan.rest@))
                    &&& free(scan.current.name@) ==> completed(step@, free) == goal
                },
                LockOutcome::WouldBlock => {
                    &&& r matches Ok(step)
                    &&& tries_next(step, home, active_name, bot_views(scan.rest@))
                    &&& !free(scan.current.name@) ==> completed(step@, free) == goal
                },
                _ => {
                    &&& r matches Err(error)
                    &&& is_result_of(Err(error), outcome, home, scan.current.name@)
                },
            }
        }),
{
    lemma_asks_for_lock(request, scan.codex_home@, scan.current@);
    let name = scan@.current.name;
    let listed = scan@.listed;
    if let Ok(step) = r {
        if outcome is Locked {
            let more = listed.with(name, TelegramBotAvailability::Available);
            lemma_tries_next(step, scan@.home, more, scan@.rest);
        } else {
            let more = listed.with(name, TelegramBotAvailability::InUseByAnotherSession);
            lemma_tries_next(step, scan@.home, more, scan@.rest);
        }
    }
    if let Err(error) = r {
        if outcome !is Locked && outcome !is WouldBlock {
            lemma_result_of(Err(error), outcome, scan.codex_home@, scan.current.name@);
        }
    }
}

/// A list that is complete is handed over as it is.
pub proof fn law_listing_ends(step: SnapshotStep, free: spec_fn(Seq<char>) -> bool)
    ensures
        step matches SnapshotStep::Done { snapshot } ==> completed(step@, free) == snapshot@,
{
}

} // verus!

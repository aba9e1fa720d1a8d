//! Bot profiles: what the configuration file holds, and what can be wrong with it.
use vstd::hash_set::StringHashSet;
use vstd::prelude::*;

use crate::paths::{FilePath, FilePathView};
use crate::text::{is_blank, lemma_trimmed_empty, same_text, trim};

verus! {

/// A configured bot.
#[derive(Debug, PartialEq, Eq)]
pub struct TelegramBotConfig {
    pub name: String,
    pub token: String,
    pub chat_id: String,
}

/// The contents of a bot profile.
#[verifier::ext_equal]
pub struct BotView {
    pub name: Seq<char>,
    pub token: Seq<char>,
    pub chat_id: Seq<char>,
}

impl View for TelegramBotConfig {
    type V = BotView;

    open spec fn view(&self) -> BotView {
        BotView { name: self.name@, token: self.token@, chat_id: self.chat_id@ }
    }
}

impl Clone for TelegramBotConfig {
    fn clone(&self) -> (r: TelegramBotConfig)
        ensures
            r == *self,
    {
        TelegramBotConfig {
            name: self.name.clone(),
            token: self.token.clone(),
            chat_id: self.chat_id.clone(),
        }
    }
}

/// The contents of a list of bots.
pub open spec fn bot_views(bots: Seq<TelegramBotConfig>) -> Seq<BotView> {
    bots.map_values(|bot: TelegramBotConfig| bot@)
}

/// The configuration file.
#[derive(Debug, Clone)]
pub struct TelegramBotsToml {
    pub bots: Vec<TelegramBotConfig>,
}

/// What came of reading the configuration file.
#[derive(Debug)]
pub enum ConfigRead {
    Missing,
    Unreadable { reason: String },
    Malformed { reason: String },
    Parsed { file: TelegramBotsToml },
}

/// Why a bot cannot be listed or used.
#[derive(Debug, PartialEq, Eq)]
pub enum TelegramError {
    MissingConfig { path: FilePath },
    ReadConfig { path: FilePath, reason: String },
    ParseConfig { path: FilePath, reason: String },
    EmptyConfig { path: FilePath },
    EmptyField { index: usize, field: &'static str },
    DuplicateName { path: FilePath, name: String },
    BotNotFound { path: FilePath, name: String },
    BotInUse { name: String },
    CreateLockDir { path: FilePath, reason: String },
    OpenLockFile { path: FilePath, reason: String },
    LockBot { name: String, reason: String },
}

/// The contents of a [`TelegramError`].
#[verifier::ext_equal]
pub enum TelegramErrorView {
    MissingConfig { path: FilePathView },
    ReadConfig { path: FilePathView, reason: Seq<char> },
    ParseConfig { path: FilePathView, reason: Seq<char> },
    EmptyConfig { path: FilePathView },
    EmptyField { index: int, field: Seq<char> },
    DuplicateName { path: FilePathView, name: Seq<char> },
    BotNotFound { path: FilePathView, name: Seq<char> },
    BotInUse { name: Seq<char> },
    CreateLockDir { path: FilePathView, reason: Seq<char> },
    OpenLockFile { path: FilePathView, reason: Seq<char> },
    LockBot { name: Seq<char>, reason: Seq<char> },
}

impl View for TelegramError {
    type V = TelegramErrorView;

    open spec fn view(&self) -> TelegramErrorView {
        match self {
            TelegramError::MissingConfig { path } => TelegramErrorView::MissingConfig {
                path: path@,
            },
            TelegramError::ReadConfig { path, reason } => TelegramErrorView::ReadConfig {
                path: path@,
                reason: reason@,
            },
            TelegramError::ParseConfig { path, reason } => TelegramErrorView::ParseConfig {
                path: path@,
                reason: reason@,
            },
            TelegramError::EmptyConfig { path } => TelegramErrorView::EmptyConfig { path: path@ },
            TelegramError::EmptyField { index, field } => TelegramErrorView::EmptyField {
                index: *index as int,
                field: field@,
            },
            TelegramError::DuplicateName { path, name } => TelegramErrorView::DuplicateName {
                path: path@,
                name: name@,
            },
            TelegramError::BotNotFound { path, name } => TelegramErrorView::BotNotFound {
                path: path@,
                name: name@,
            },
            TelegramError::BotInUse { name } => TelegramErrorView::BotInUse { name: name@ },
            TelegramError::CreateLockDir { path, reason } => TelegramErrorView::CreateLockDir {
                path: path@,
                reason: reason@,
            },
            TelegramError::OpenLockFile { path, reason } => TelegramErrorView::OpenLockFile {
                path: path@,
                reason: reason@,
            },
            TelegramError::LockBot { name, reason } => TelegramErrorView::LockBot {
                name: name@,
                reason: reason@,
            },
        }
    }
}

/// Whether the name of an entry stands in an earlier entry.
pub open spec fn is_duplicate(bots: Seq<BotView>, i: int) -> bool {
    exists|j: int| 0 <= j < i && #[trigger] bots[j].name == bots[i].name
}

/// What is wrong with one entry: a blank name, token or chat, or the name of an earlier entry.
pub open spec fn entry_error(bots: Seq<BotView>, i: int, path: FilePathView) -> Option<
    TelegramErrorView,
> {
    if is_blank(bots[i].name) {
        Some(TelegramErrorView::EmptyField { index: i, field: "name"@ })
    } else if is_blank(bots[i].token) {
        Some(TelegramErrorView::EmptyField { index: i, field: "token"@ })
    } else if is_blank(bots[i].chat_id) {
        Some(TelegramErrorView::EmptyField { index: i, field: "chat_id"@ })
    } else if is_duplicate(bots, i) {
        Some(TelegramErrorView::DuplicateName { path, name: bots[i].name })
    } else {
        None
    }
}

/// What is wrong with the first bad entry from the index `from` on.
pub open spec fn entries_error(bots: Seq<BotView>, from: int, path: FilePathView) -> Option<
    TelegramErrorView,
>
    decreases bots.len() - from,
{
    if from >= bots.len() {
        None
    } else if entry_error(bots, from, path) is Some {
        entry_error(bots, from, path)
    } else {
        entries_error(bots, from + 1, path)
    }
}

/// Why a configuration cannot be used.
pub open spec fn config_error(read: ConfigRead, path: FilePathView) -> Option<TelegramErrorView> {
    match read {
        ConfigRead::Missing => Some(TelegramErrorView::MissingConfig { path }),
        ConfigRead::Unreadable { reason } => Some(
            TelegramErrorView::ReadConfig { path, reason: reason@ },
        ),
        ConfigRead::Malformed { reason } => Some(
            TelegramErrorView::ParseConfig { path, reason: reason@ },
        ),
        ConfigRead::Parsed { file } => if file.bots@.len() == 0 {
            Some(TelegramErrorView::EmptyConfig { path })
        } else {
            entries_error(bot_views(file.bots@), 0, path)
        },
    }
}

/// Whether a text is empty or white space alone.
fn blank(text: &str) -> (r: bool)
    ensures
        r == is_blank(text@),
{
    proof {
        lemma_trimmed_empty(text@);
    }
    trim(text).as_str().is_empty()
}

/// The names of the first `n` entries.
spec fn names_before(bots: Seq<BotView>, n: int) -> Set<Seq<char>> {
    Set::new(|name: Seq<char>| exists|j: int| 0 <= j < n && #[trigger] bots[j].name == name)
}

/// The bots of a configuration, or what is wrong with it.
pub fn checked_bots(read: ConfigRead, path: FilePath) -> (r: Result<
    Vec<TelegramBotConfig>,
    TelegramError,
>)
    ensures
        match r {
            Ok(bots) => {
                &&& config_error(read, path@) is None
                &&& read matches ConfigRead::Parsed { file }
                &&& bots == file.bots
            },
            Err(error) => config_error(read, path@) == Some(error@),
        },
{
    let file = match read {
        ConfigRead::Missing => {
            return Err(TelegramError::MissingConfig { path });
        },
        ConfigRead::Unreadable { reason } => {
            return Err(TelegramError::ReadConfig { path, reason });
        },
        ConfigRead::Malformed { reason } => {
            return Err(TelegramError::ParseConfig { path, reason });
        },
        ConfigRead::Parsed { file } => file,
    };
    let bots = file.bots;
    let ghost views = bot_views(bots@);
    if bots.len() == 0 {
        return Err(TelegramError::EmptyConfig { path });
    }
    let mut seen_names = StringHashSet::new();
    assert(seen_names@ =~= names_before(views, 0));
    for index in 0..bots.len()
        invariant
            views == bot_views(bots@),
            seen_names@ == names_before(views, index as int),
            entries_error(views, 0, path@) == entries_error(views, index as int, path@),
            bots@.len() > 0,
            read == (ConfigRead::Parsed { file: TelegramBotsToml { bots } }),
    {
        let bot = &bots[index];
        assert(views[index as int] == bot@);
        if blank(bot.name.as_str()) {
            return Err(TelegramError::EmptyField { index, field: "name" });
        }
        if blank(bot.token.as_str()) {
            return Err(TelegramError::EmptyField { index, field: "token" });
        }
        if blank(bot.chat_id.as_str()) {
            return Err(TelegramError::EmptyField { index, field: "chat_id" });
        }
        let ghost before = seen_names@;
        assert(before.contains(bot.name@) == is_duplicate(views, index as int));
        if !seen_names.insert(bot.name.clone()) {
            return Err(TelegramError::DuplicateName { path, name: bot.name.clone() });
        }
        assert(seen_names@ =~= names_before(views, index as int + 1)) by {
            assert forall|name: Seq<char>|
                names_before(views, index as int + 1).contains(name) implies seen_names@.contains(
                name,
            ) by {
                let j = choose|j: int| 0 <= j < index + 1 && #[trigger] views[j].name == name;
                if j < index {
                    assert(names_before(views, index as int).contains(name));
                }
            }
        }
    }
    Ok(bots)
}

/// The first entry with a name.
pub open spec fn first_named(bots: Seq<BotView>, name: Seq<char>, from: int) -> Option<BotView>
    decreases bots.len() - from,
{
    if from >= bots.len() {
        None
    } else if bots[from].name == name {
        Some(bots[from])
    } else {
        first_named(bots, name, from + 1)
    }
}

/// The first bot with a name.
pub fn find_bot(bots: &Vec<TelegramBotConfig>, name: &str) -> (r: Option<TelegramBotConfig>)
    ensures
        match r {
            Some(bot) => first_named(bot_views(bots@), name@, 0) == Some(bot@),
            None => first_named(bot_views(bots@), name@, 0) is None,
        },
{
    let ghost views = bot_views(bots@);
    for i in 0..bots.len()
        invariant
            views == bot_views(bots@),
            first_named(views, name@, 0) == first_named(views, name@, i as int),
    {
        assert(views[i as int] == bots@[i as int]@);
        if same_text(bots[i].name.as_str(), name) {
            return Some(bots[i].clone());
        }
    }
    None
}

} // verus!

//! The trade journal: one file of JSON lines per UTC day, rotated lazily
//! on write. The journal here decides where a record goes; writing it is
//! left to the caller.

use crate::clock::{day_key_of, utc_day_key};
use crate::text::{push_text, trim_chars, trimmed};
use vstd::prelude::*;
use vstd::string::StringExecFns;

verus! {

/// The name of the file that holds the records of a day.
pub open spec fn day_file(day_key: Seq<char>) -> Seq<char> {
    "trades-"@ + day_key + ".jsonl"@
}

/// The name of the file that holds the records of the day `day_key`.
pub fn day_file_name(day_key: &str) -> (name: String)
    ensures
        name@ == day_file(day_key@),
{
    let mut name = String::from_str("trades-");
    push_text(&mut name, day_key);
    push_text(&mut name, ".jsonl");
    name
}

/// Where a record goes.
#[derive(Debug)]
pub struct JournalWrite {
    /// The file to append to.
    pub file_name: String,
    /// The file is not the one that is open: open it first.
    pub reopen: bool,
}

/// The journal's place in the calendar: the day whose file is open.
#[derive(Debug)]
pub struct TradeJournal {
    day_key: String,
}

impl TradeJournal {
    /// The day whose file is open.
    pub closed spec fn day(&self) -> Seq<char> {
        self.day_key@
    }

    /// A journal whose open file is that of `today`.
    pub fn open(today: &str) -> (j: TradeJournal)
        ensures
            j.day() == today@,
    {
        TradeJournal { day_key: today.to_owned() }
    }

    /// The name of the file that is open.
    pub fn file_name(&self) -> (name: String)
        ensures
            name@ == day_file(self.day()),
    {
        day_file_name(self.day_key.as_str())
    }

    /// Moves on to the file of `today` if the day has changed, and says
    /// whether it did.
    pub fn rotate_if_needed(&mut self, today: &str) -> (rotated: bool)
        ensures
            final(self).day() == today@,
            rotated == (old(self).day() != today@),
    {
        if crate::text::same_text(self.day_key.as_str(), today) {
            false
        } else {
            self.day_key = today.to_owned();
            true
        }
    }

    /// Where a record written at `ts_ms` goes: the file of the UTC day of
    /// that moment. Where the moment has no calendar day the open file is
    /// kept.
    pub fn write_event(&mut self, ts_ms: i64) -> (w: JournalWrite)
        ensures
            match utc_day_key(ts_ms) {
                Some(today) => final(self).day() == today && w.file_name@ == day_file(today)
                    && w.reopen == (old(self).day() != today),
                None => final(self).day() == old(self).day() && w.file_name@ == day_file(
                    old(self).day(),
                ) && !w.reopen,
            },
    {
        match day_key_of(ts_ms) {
            Some(today) => {
                let reopen = self.rotate_if_needed(today.as_str());
                JournalWrite { file_name: self.file_name(), reopen }
            },
            None => JournalWrite { file_name: self.file_name(), reopen: false },
        }
    }
}

/// Where the journal directory is taken from, in order of precedence.
#[derive(Debug)]
pub enum TradesDir {
    /// The directory named by the environment, trimmed.
    Configured(String),
    /// The `TRADES` directory under the root of the repository.
    Repository(String),
    /// The `TRADES` directory under the working directory.
    Local,
}

/// The choice of the journal directory: the environment's value if it is
/// not blank, else the repository root if there is one, else the working
/// directory.
pub open spec fn trades_dir_choice(env_value: Option<Seq<char>>, repo_root: Option<Seq<char>>) -> (
    int,
    Seq<char>,
) {
    if env_value is Some && trimmed(env_value->0).len() > 0 {
        (0, trimmed(env_value->0))
    } else if repo_root is Some {
        (1, repo_root->0)
    } else {
        (2, Seq::empty())
    }
}

/// Chooses the journal directory.
pub fn resolve_trades_dir(env_value: Option<&str>, repo_root: Option<&str>) -> (dir: TradesDir)
    ensures
        match dir {
            TradesDir::Configured(path) => trades_dir_choice(
                match env_value {
                    Some(v) => Some(v@),
                    None => None,
                },
                match repo_root {
                    Some(v) => Some(v@),
                    None => None,
                },
            ) == (0int, path@),
            TradesDir::Repository(root) => trades_dir_choice(
                match env_value {
                    Some(v) => Some(v@),
                    None => None,
                },
                match repo_root {
                    Some(v) => Some(v@),
                    None => None,
                },
            ) == (1int, root@),
            TradesDir::Local => trades_dir_choice(
                match env_value {
                    Some(v) => Some(v@),
                    None => None,
                },
                match repo_root {
                    Some(v) => Some(v@),
                    None => None,
                },
            ).0 == 2,
        },
{
    match env_value {
        Some(raw) => {
            let t = trim_chars(&crate::text::chars_of(raw));
            if t.len() > 0 {
                return TradesDir::Configured(crate::text::string_of(&t));
            }
        },
        None => {},
    }
    match repo_root {
        Some(root) => TradesDir::Repository(root.to_owned()),
        None => TradesDir::Local,
    }
}

/// The directory of a bot as the components of its path: the configured
/// directory as it is; else the directory of the bot under `TRADES`,
/// under the root of the repository or under the working directory.
pub open spec fn dir_components(dir: TradesDir, bot: Seq<char>) -> Seq<Seq<char>> {
    match dir {
        TradesDir::Configured(path) => seq![path@],
        TradesDir::Repository(root) => seq![root@, "TRADES"@, bot],
        TradesDir::Local => seq!["TRADES"@, bot],
    }
}

impl TradesDir {
    /// The journal directory of the bot `bot`, as the components of its
    /// path from the outermost on.
    pub fn components(&self, bot: &str) -> (parts: Vec<String>)
        ensures
            crate::text::texts(parts@) == dir_components(*self, bot@),
    {
        let mut parts: Vec<String> = Vec::new();
        match self {
            TradesDir::Configured(path) => {
                parts.push(path.clone());
            },
            TradesDir::Repository(root) => {
                parts.push(root.clone());
                parts.push(String::from_str("TRADES"));
                parts.push(bot.to_owned());
            },
            TradesDir::Local => {
                parts.push(String::from_str("TRADES"));
                parts.push(bot.to_owned());
            },
        }
        assert(crate::text::texts(parts@) =~= dir_components(*self, bot@));
        parts
    }
}

/// Two different days have two different files.
pub proof fn lemma_day_files_differ(a: Seq<char>, b: Seq<char>)
    requires
        a != b,
    ensures
        day_file(a) != day_file(b),
{
    let head = "trades-"@;
    let tail = ".jsonl"@;
    if day_file(a) == day_file(b) {
        assert(day_file(a).len() == head.len() + a.len() + tail.len());
        assert(day_file(b).len() == head.len() + b.len() + tail.len());
        assert(a.len() == b.len());
        assert forall|i: int| 0 <= i < a.len() implies a[i] == b[i] by {
            assert(day_file(a)[head.len() + i] == a[i]);
            assert(day_file(b)[head.len() + i] == b[i]);
        }
        assert(a =~= b);
    }
}

} // verus!

//! Loading `config.json` at start-up: creating it on the first run, reading and
//! checking it, and putting a damaged file aside for a fresh default one.
//!
//! The file work (existence, reading, parsing, renaming, writing) is done by the
//! caller; these steps decide what comes next after each part of it.
use crate::config::{config_error, default_config, Config, ConfigError};
use vstd::prelude::*;

verus! {

/// What the caller does next while loading.
#[derive(Debug)]
pub enum LoadAction {
    /// Find out whether the file exists.
    CheckExists,
    /// Write the default configuration to the file.
    WriteDefault,
    /// Read the file's text.
    Read,
    /// Parse this text as a configuration.
    Parse(String),
    /// Move the damaged file aside to a backup path.
    BackUp,
    /// Loading is over: the configuration and whether it was just created, or the error.
    Finished(Result<(Config, bool), ConfigError>),
}

/// What the caller found while doing the last action.
#[derive(Debug)]
pub enum LoadEvent {
    /// Whether the file exists.
    Exists(bool),
    /// The outcome of writing the default configuration.
    Written(Result<(), ConfigError>),
    /// The file's text, or why it could not be read.
    Read(Result<String, std::io::Error>),
    /// The parsed configuration, or the parser's error.
    Parsed(Result<Config, serde_json::Error>),
    /// The backup path and the outcome of moving the file there.
    BackedUp(std::path::PathBuf, Result<(), std::io::Error>),
}

/// Where loading stands: the event it waits for.
#[derive(Debug)]
pub enum LoadStage {
    /// Waits to learn whether the file exists.
    Start,
    /// Waits for the default configuration of a first run to be written.
    Creating,
    /// Waits for the file's text.
    Reading,
    /// Waits for the parsed text.
    Parsing,
    /// The text was no configuration; waits for the file to be moved aside.
    BackingUp(serde_json::Error),
    /// The damaged file is at the backup path; waits for the default to be written.
    Replacing(serde_json::Error, std::path::PathBuf),
    /// Loading is over.
    Done,
}

/// Whether `event` answers the action that `stage` waits on.
pub open spec fn answers(stage: LoadStage, event: LoadEvent) -> bool {
    match stage {
        LoadStage::Start => event is Exists,
        LoadStage::Creating => event is Written,
        LoadStage::Reading => event is Read,
        LoadStage::Parsing => event is Parsed,
        LoadStage::BackingUp(_) => event is BackedUp,
        LoadStage::Replacing(_, _) => event is Written,
        LoadStage::Done => false,
    }
}

/// Whether `r` is the result of a loaded configuration `c`: itself, not just created,
/// when it is valid, else the complaint about it.
pub open spec fn checked_load(r: Result<(Config, bool), ConfigError>, c: Config) -> bool {
    match config_error(c@) {
        None => r == Ok::<(Config, bool), ConfigError>((c, false)),
        Some(m) => r matches Err(ConfigError::Invalid(msg)) && msg@ == m,
    }
}

/// Whether `(next, action)` follows `stage` on `event`: a missing file gets the
/// default, written and reported as created; an existing one is read, parsed and
/// checked; a file that does not parse is moved aside, replaced by the default, and
/// reported as damaged with the parser's error and the backup path; every failed file
/// operation ends loading with its error.
pub open spec fn load_follows(stage: LoadStage, event: LoadEvent, next: LoadStage, action: LoadAction) -> bool {
    match stage {
        LoadStage::Start => match event {
            LoadEvent::Exists(false) => next is Creating && action is WriteDefault,
            LoadEvent::Exists(true) => next is Reading && action is Read,
            _ => false,
        },
        LoadStage::Creating => next is Done && match event {
            LoadEvent::Written(Ok(())) => (action matches LoadAction::Finished(Ok((c, created)))
                && c@ == default_config() && created),
            LoadEvent::Written(Err(e)) => action == LoadAction::Finished(Err(e)),
            _ => false,
        },
        LoadStage::Reading => match event {
            LoadEvent::Read(Ok(text)) => next is Parsing && action == LoadAction::Parse(text),
            LoadEvent::Read(Err(e)) => next is Done && action == LoadAction::Finished(
                Err(ConfigError::Io(e)),
            ),
            _ => false,
        },
        LoadStage::Parsing => match event {
            LoadEvent::Parsed(Ok(c)) => next is Done && (action matches LoadAction::Finished(r)
                && checked_load(r, c)),
            LoadEvent::Parsed(Err(source)) => next == LoadStage::BackingUp(source) && action is BackUp,
            _ => false,
        },
        LoadStage::BackingUp(source) => match event {
            LoadEvent::BackedUp(backup, Ok(())) => next == LoadStage::Replacing(source, backup)
                && action is WriteDefault,
            LoadEvent::BackedUp(_, Err(e)) => next is Done && action == LoadAction::Finished(
                Err(ConfigError::Io(e)),
            ),
            _ => false,
        },
        LoadStage::Replacing(source, backup) => next is Done && match event {
            LoadEvent::Written(Ok(())) => action == LoadAction::Finished(
                Err(ConfigError::InvalidJson { source, backup }),
            ),
            LoadEvent::Written(Err(e)) => action == LoadAction::Finished(Err(e)),
            _ => false,
        },
        LoadStage::Done => false,
    }
}

/// The start of loading: find out whether the file exists.
pub fn load_begin() -> (res: (LoadStage, LoadAction))
    ensures
        res.0 is Start,
        res.1 is CheckExists,
{
    (LoadStage::Start, LoadAction::CheckExists)
}

/// The next stage and action after `event`.
pub fn load_step(stage: LoadStage, event: LoadEvent) -> (res: (LoadStage, LoadAction))
    requires
        answers(stage, event),
    ensures
        load_follows(stage, event, res.0, res.1),
{
    match stage {
        LoadStage::Start => match event {
            LoadEvent::Exists(exists) => if exists {
                (LoadStage::Reading, LoadAction::Read)
            } else {
                (LoadStage::Creating, LoadAction::WriteDefault)
            },
            _ => (LoadStage::Done, LoadAction::CheckExists),
        },
        LoadStage::Creating => match event {
            LoadEvent::Written(Ok(())) => (
                LoadStage::Done,
                LoadAction::Finished(Ok((Config::default(), true))),
            ),
            LoadEvent::Written(Err(e)) => (LoadStage::Done, LoadAction::Finished(Err(e))),
            _ => (LoadStage::Done, LoadAction::CheckExists),
        },
        LoadStage::Reading => match event {
            LoadEvent::Read(Ok(text)) => (LoadStage::Parsing, LoadAction::Parse(text)),
            LoadEvent::Read(Err(e)) => (
                LoadStage::Done,
                LoadAction::Finished(Err(ConfigError::Io(e))),
            ),
            _ => (LoadStage::Done, LoadAction::CheckExists),
        },
        LoadStage::Parsing => match event {
            LoadEvent::Parsed(Ok(config)) => {
                let checked = config.validate();
                let result = match checked {
                    Ok(()) => Ok((config, false)),
                    Err(error) => Err(error),
                };
                (LoadStage::Done, LoadAction::Finished(result))
            },
            LoadEvent::Parsed(Err(source)) => (LoadStage::BackingUp(source), LoadAction::BackUp),
            _ => (LoadStage::Done, LoadAction::CheckExists),
        },
        LoadStage::BackingUp(source) => match event {
            LoadEvent::BackedUp(backup, Ok(())) => (
                LoadStage::Replacing(source, backup),
                LoadAction::WriteDefault,
            ),
            LoadEvent::BackedUp(_, Err(e)) => (
                LoadStage::Done,
                LoadAction::Finished(Err(ConfigError::Io(e))),
            ),
            _ => (LoadStage::Done, LoadAction::CheckExists),
        },
        LoadStage::Replacing(source, backup) => match event {
            LoadEvent::Written(Ok(())) => (
                LoadStage::Done,
                LoadAction::Finished(Err(ConfigError::InvalidJson { source, backup })),
            ),
            LoadEvent::Written(Err(e)) => (LoadStage::Done, LoadAction::Finished(Err(e))),
            _ => (LoadStage::Done, LoadAction::CheckExists),
        },
        LoadStage::Done => (LoadStage::Done, LoadAction::CheckExists),
    }
}

/// Loading a file that exists and parses to a valid configuration reads it, hands its
/// text to the parser, and gives that configuration back as not just created; a valid
/// one is never replaced.
pub proof fn lemma_valid_file_loads_as_is(
    s1: LoadStage,
    a1: LoadAction,
    text: String,
    s2: LoadStage,
    a2: LoadAction,
    c: Config,
    s3: LoadStage,
    a3: LoadAction,
)
    requires
        load_follows(LoadStage::Start, LoadEvent::Exists(true), s1, a1),
        load_follows(s1, LoadEvent::Read(Ok(text)), s2, a2),
        load_follows(s2, LoadEvent::Parsed(Ok(c)), s3, a3),
        config_error(c@) is None,
    ensures
        a1 is Read,
        a2 == LoadAction::Parse(text),
        a3 == LoadAction::Finished(Ok((c, false))),
        s3 is Done,
{
}

/// A missing file is created with the default configuration, which is given back as
/// just created.
pub proof fn lemma_missing_file_gets_the_default(s1: LoadStage, a1: LoadAction, s2: LoadStage, a2: LoadAction)
    requires
        load_follows(LoadStage::Start, LoadEvent::Exists(false), s1, a1),
        load_follows(s1, LoadEvent::Written(Ok(())), s2, a2),
    ensures
        a1 is WriteDefault,
        a2 matches LoadAction::Finished(Ok((c, created))) && c@ == default_config() && created,
{
}

/// A file that does not parse is moved aside and replaced by the default, and loading
/// then reports it as damaged with the parser's own error and the path it was moved to.
pub proof fn lemma_damaged_file_is_reported_with_its_backup(
    source: serde_json::Error,
    backup: std::path::PathBuf,
    s1: LoadStage,
    a1: LoadAction,
    s2: LoadStage,
    a2: LoadAction,
    s3: LoadStage,
    a3: LoadAction,
)
    requires
        load_follows(LoadStage::Parsing, LoadEvent::Parsed(Err(source)), s1, a1),
        load_follows(s1, LoadEvent::BackedUp(backup, Ok(())), s2, a2),
        load_follows(s2, LoadEvent::Written(Ok(())), s3, a3),
    ensures
        a1 is BackUp,
        a2 is WriteDefault,
        a3 == LoadAction::Finished(Err(ConfigError::InvalidJson { source, backup })),
{
}

} // verus!

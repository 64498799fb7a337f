//! The logger task: one fixed record appended to one fixed file, as a chain
//! of storage operations that stops for good at the first failure.
//!
//! The logger only says which operation is next and takes in how it went.
//! It never touches the scheduler, so a storage fault cannot hold up any
//! other task.

use vstd::prelude::*;

verus! {

/// Index of the volume that holds the log: the first one.
pub const LOG_VOLUME: usize = 0;

/// How the log file is opened.
#[derive(Clone, Copy, Debug, PartialEq, Eq, Structural)]
pub enum OpenMode {
    /// Open for reading and writing; create the file if it is missing, and
    /// empty it if it is there.
    CreateOrTruncate,
}

/// The operations of the chain, in order.
#[derive(Clone, Copy, Debug, PartialEq, Eq, Structural)]
pub enum LogStage {
    OpenVolume,
    OpenRootDir,
    OpenFile,
    Append,
    Close,
}

/// Where the logger stands.
#[derive(Clone, Copy, Debug, PartialEq, Eq, Structural)]
pub enum LoggerState {
    /// The given operation is next.
    Next(LogStage),
    /// The record is written and the file closed, or there is no storage
    /// and so nothing to do.
    Done,
    /// The given operation failed. The logger has stopped and stays stopped.
    Halted(LogStage),
}

/// What the logger asks of the storage.
#[derive(Clone, Debug, PartialEq, Eq)]
pub enum LogAction {
    /// Open the volume with this index.
    OpenVolume(usize),
    /// Open the root directory of the open volume.
    OpenRootDir,
    /// Open the file of this name in the open directory.
    OpenFile(&'static str, OpenMode),
    /// Append these bytes to the open file.
    Append(Vec<u8>),
    /// Close the file.
    Close,
}

/// What a log action is.
pub enum LogActionView {
    OpenVolume(usize),
    OpenRootDir,
    OpenFile(Seq<char>, OpenMode),
    Append(Seq<u8>),
    Close,
}

impl View for LogAction {
    type V = LogActionView;

    open spec fn view(&self) -> LogActionView {
        match *self {
            LogAction::OpenVolume(index) => LogActionView::OpenVolume(index),
            LogAction::OpenRootDir => LogActionView::OpenRootDir,
            LogAction::OpenFile(name, mode) => LogActionView::OpenFile(name@, mode),
            LogAction::Append(bytes) => LogActionView::Append(bytes@),
            LogAction::Close => LogActionView::Close,
        }
    }
}

/// The name of the log file.
pub open spec fn log_file_name() -> Seq<char> {
    "log.txt"@
}

/// The record that is logged: the ASCII text `test log data`.
pub open spec fn log_record_bytes() -> Seq<u8> {
    seq![116u8, 101, 115, 116, 32, 108, 111, 103, 32, 100, 97, 116, 97]
}

/// The operation that follows `stage`, if `stage` is not the last.
pub open spec fn stage_after(stage: LogStage) -> Option<LogStage> {
    match stage {
        LogStage::OpenVolume => Some(LogStage::OpenRootDir),
        LogStage::OpenRootDir => Some(LogStage::OpenFile),
        LogStage::OpenFile => Some(LogStage::Append),
        LogStage::Append => Some(LogStage::Close),
        LogStage::Close => None,
    }
}

/// What is asked of the storage at `stage`.
pub open spec fn action_of(stage: LogStage) -> LogActionView {
    match stage {
        LogStage::OpenVolume => LogActionView::OpenVolume(LOG_VOLUME),
        LogStage::OpenRootDir => LogActionView::OpenRootDir,
        LogStage::OpenFile => LogActionView::OpenFile(log_file_name(), OpenMode::CreateOrTruncate),
        LogStage::Append => LogActionView::Append(log_record_bytes()),
        LogStage::Close => LogActionView::Close,
    }
}

/// The state after the operation at hand went well (`ok`) or failed. A
/// failure halts the logger; a logger that is done or halted stays so.
pub open spec fn advanced(state: LoggerState, ok: bool) -> LoggerState {
    match state {
        LoggerState::Next(stage) => if !ok {
            LoggerState::Halted(stage)
        } else {
            match stage_after(stage) {
                Some(next) => LoggerState::Next(next),
                None => LoggerState::Done,
            }
        },
        LoggerState::Done => LoggerState::Done,
        LoggerState::Halted(stage) => LoggerState::Halted(stage),
    }
}

/// The state after a run of outcomes, one after the other.
pub open spec fn advanced_through(state: LoggerState, outcomes: Seq<bool>) -> LoggerState
    decreases outcomes.len(),
{
    if outcomes.len() == 0 {
        state
    } else {
        advanced(advanced_through(state, outcomes.drop_last()), outcomes.last())
    }
}

/// The logger fails for itself alone and for good: once an operation has
/// failed, the logger is halted whatever is reported to it afterwards, and
/// a halted logger asks for nothing more.
pub proof fn lemma_halt_is_final(stage: LogStage, outcomes: Seq<bool>)
    ensures
        advanced_through(LoggerState::Halted(stage), outcomes) == LoggerState::Halted(stage),
    decreases outcomes.len(),
{
    if outcomes.len() > 0 {
        lemma_halt_is_final(stage, outcomes.drop_last());
    }
}

/// With a storage that never fails the logger opens the volume, the root
/// directory and the file, appends the record, closes the file, and is
/// done: five operations in this order.
pub proof fn lemma_chain_completes()
    ensures
        advanced_through(LoggerState::Next(LogStage::OpenVolume), seq![true, true, true, true, true])
            == LoggerState::Done,
        advanced(LoggerState::Next(LogStage::OpenVolume), true) == LoggerState::Next(
            LogStage::OpenRootDir,
        ),
        advanced(LoggerState::Next(LogStage::OpenRootDir), true) == LoggerState::Next(
            LogStage::OpenFile,
        ),
        advanced(LoggerState::Next(LogStage::OpenFile), true) == LoggerState::Next(
            LogStage::Append,
        ),
        advanced(LoggerState::Next(LogStage::Append), true) == LoggerState::Next(LogStage::Close),
        advanced(LoggerState::Next(LogStage::Close), true) == LoggerState::Done,
{
    let s5 = seq![true, true, true, true, true];
    let s4 = seq![true, true, true, true];
    let s3 = seq![true, true, true];
    let s2 = seq![true, true];
    let s1 = seq![true];
    let s0 = Seq::<bool>::empty();
    let start = LoggerState::Next(LogStage::OpenVolume);
    assert(s5.drop_last() =~= s4);
    assert(s4.drop_last() =~= s3);
    assert(s3.drop_last() =~= s2);
    assert(s2.drop_last() =~= s1);
    assert(s1.drop_last() =~= s0);
    assert(advanced_through(start, s0) == start);
    assert(advanced_through(start, s1) == LoggerState::Next(LogStage::OpenRootDir));
    assert(advanced_through(start, s2) == LoggerState::Next(LogStage::OpenFile));
    assert(advanced_through(start, s3) == LoggerState::Next(LogStage::Append));
    assert(advanced_through(start, s4) == LoggerState::Next(LogStage::Close));
}

/// The record that is logged.
pub fn log_record() -> (bytes: Vec<u8>)
    ensures
        bytes@ == log_record_bytes(),
{
    let mut bytes: Vec<u8> = Vec::new();
    bytes.push(116);
    bytes.push(101);
    bytes.push(115);
    bytes.push(116);
    bytes.push(32);
    bytes.push(108);
    bytes.push(111);
    bytes.push(103);
    bytes.push(32);
    bytes.push(100);
    bytes.push(97);
    bytes.push(116);
    bytes.push(97);
    assert(bytes@ =~= log_record_bytes());
    bytes
}

/// Starts the logger task. With storage present the first operation is to
/// open the volume; without it the task has nothing to do.
pub fn test_log(storage_present: bool) -> (state: LoggerState)
    ensures
        storage_present ==> state == LoggerState::Next(LogStage::OpenVolume),
        !storage_present ==> state == LoggerState::Done,
{
    if storage_present {
        LoggerState::Next(LogStage::OpenVolume)
    } else {
        LoggerState::Done
    }
}

impl LoggerState {
    /// What to ask of the storage now, or `None` where the logger is done or
    /// halted.
    pub fn action(&self) -> (action: Option<LogAction>)
        ensures
            match *self {
                LoggerState::Next(stage) => action is Some && action->Some_0@ == action_of(stage),
                LoggerState::Done => action is None,
                LoggerState::Halted(_) => action is None,
            },
    {
        match self {
            LoggerState::Next(stage) => Some(
                match stage {
                    LogStage::OpenVolume => LogAction::OpenVolume(LOG_VOLUME),
                    LogStage::OpenRootDir => LogAction::OpenRootDir,
                    LogStage::OpenFile => LogAction::OpenFile("log.txt", OpenMode::CreateOrTruncate),
                    LogStage::Append => LogAction::Append(log_record()),
                    LogStage::Close => LogAction::Close,
                },
            ),
            LoggerState::Done => None,
            LoggerState::Halted(_) => None,
        }
    }

    /// Takes in how the operation at hand went.
    pub fn advance(self, ok: bool) -> (next: LoggerState)
        ensures
            next == advanced(self, ok),
    {
        match self {
            LoggerState::Next(stage) => {
                if !ok {
                    LoggerState::Halted(stage)
                } else {
                    match stage {
                        LogStage::OpenVolume => LoggerState::Next(LogStage::OpenRootDir),
                        LogStage::OpenRootDir => LoggerState::Next(LogStage::OpenFile),
                        LogStage::OpenFile => LoggerState::Next(LogStage::Append),
                        LogStage::Append => LoggerState::Next(LogStage::Close),
                        LogStage::Close => LoggerState::Done,
                    }
                }
            },
            LoggerState::Done => LoggerState::Done,
            LoggerState::Halted(stage) => LoggerState::Halted(stage),
        }
    }

    /// Whether the logger has stopped on a failure.
    pub fn is_halted(&self) -> (halted: bool)
        ensures
            halted <==> *self is Halted,
    {
        match self {
            LoggerState::Halted(_) => true,
            _ => false,
        }
    }
}

/// A point in time as the file system stamps it on a file.
#[derive(Clone, Copy, Debug, PartialEq, Eq, Structural)]
pub struct Timestamp {
    /// Calendar year less 1970.
    pub year_since_1970: u8,
    /// Calendar month less one.
    pub zero_indexed_month: u8,
    /// Calendar day less one.
    pub zero_indexed_day: u8,
    /// Hours past midnight.
    pub hours: u8,
    /// Minutes past the hour.
    pub minutes: u8,
    /// Seconds past the minute.
    pub seconds: u8,
}

/// The first instant the file system can name: 1 January 1970, 00:00:00.
pub open spec fn epoch() -> Timestamp {
    Timestamp {
        year_since_1970: 0,
        zero_indexed_month: 0,
        zero_indexed_day: 0,
        hours: 0,
        minutes: 0,
        seconds: 0,
    }
}

/// A time source for a node without a clock: every file is stamped with the
/// epoch.
#[derive(Clone, Copy, Debug, PartialEq, Eq)]
pub struct DummyTimesource();

impl Default for DummyTimesource {
    fn default() -> (source: Self)
        ensures
            source == DummyTimesource(),
    {
        DummyTimesource()
    }
}

impl DummyTimesource {
    /// The time to stamp a file with: always the epoch.
    pub fn get_timestamp(&self) -> (stamp: Timestamp)
        ensures
            stamp == epoch(),
    {
        Timestamp {
            year_since_1970: 0,
            zero_indexed_month: 0,
            zero_indexed_day: 0,
            hours: 0,
            minutes: 0,
            seconds: 0,
        }
    }
}

} // verus!

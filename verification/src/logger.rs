//! The sink that accumulates log messages in arrival order.

use crate::level::{Level, LevelFilter};
use crate::message::{history_of, Message};
use vstd::prelude::*;

verus! {

/// The target under which this library's own records are emitted.
pub const TARGET: &'static str = "ratatui-simple-logger";

/// The view of [`TARGET`].
pub open spec fn own_target() -> Seq<char> {
    "ratatui-simple-logger"@
}

/// Why the sink could not be installed.
#[derive(Clone, Copy, Debug, PartialEq, Eq, Structural)]
pub enum InitError {
    /// Another backend is already registered with the logging facade.
    AlreadyInstalled,
}

/// An ordered, growing history of messages and the threshold that decides
/// which records are captured. Nothing is ever removed or reordered.
#[derive(Debug)]
pub struct Logger {
    messages: Vec<Message>,
    max_level: LevelFilter,
}

impl Logger {
    /// The stored messages, oldest first.
    pub closed spec fn history(&self) -> Seq<(Level, Seq<char>)> {
        history_of(self.messages@)
    }

    /// The most verbose severity that is captured.
    pub closed spec fn threshold(&self) -> LevelFilter {
        self.max_level
    }

    /// Whether a record from `target` with severity `level` is captured: it
    /// must come from this library's own target and pass the threshold.
    pub open spec fn accepts(&self, target: Seq<char>, level: Level) -> bool {
        target == own_target() && self.threshold().admits(level)
    }

    /// Whether `copy` holds the same messages as the sink, in the same order.
    pub open spec fn is_snapshot(&self, copy: Seq<Message>) -> bool {
        history_of(copy) == self.history()
    }

    /// An empty sink that captures nothing until a threshold is set.
    pub fn new() -> (r: Self)
        ensures
            r.history() == Seq::<(Level, Seq<char>)>::empty(),
            r.threshold() == LevelFilter::Off,
    {
        Logger { messages: Vec::new(), max_level: LevelFilter::Off }
    }

    /// An independent copy of the whole history as it stands now.
    pub fn messages(&self) -> (r: Vec<Message>)
        ensures
            self.is_snapshot(r@),
            r@.len() == self.history().len(),
    {
        let mut copy: Vec<Message> = Vec::new();
        let n: usize = self.messages.len();
        let mut i: usize = 0;
        while i < n
            invariant
                n == self.messages@.len(),
                i <= n,
                copy@.len() == i,
                history_of(copy@) == history_of(self.messages@).subrange(0, i as int),
            decreases n - i,
        {
            let item = self.messages[i].clone();
            copy.push(item);
            i += 1;
            assert(history_of(copy@) =~= history_of(self.messages@).subrange(0, i as int));
        }
        assert(history_of(self.messages@).subrange(0, n as int) =~= history_of(self.messages@));
        copy
    }

    /// Number of stored messages.
    pub fn len(&self) -> (r: usize)
        ensures
            r == self.history().len(),
    {
        self.messages.len()
    }

    /// The threshold in force.
    pub fn max_level(&self) -> (r: LevelFilter)
        ensures
            r == self.threshold(),
    {
        self.max_level
    }

    /// Replaces the threshold. The stored messages stay as they are.
    pub fn set_max_level(&mut self, level: LevelFilter)
        ensures
            final(self).threshold() == level,
            final(self).history() == old(self).history(),
    {
        self.max_level = level;
    }

    /// Decides whether a record from `target` with severity `level` is
    /// captured.
    pub fn enabled(&self, target: &str, level: Level) -> (r: bool)
        ensures
            r == self.accepts(target@, level),
    {
        str_equal(target, TARGET) && self.max_level.allows(level)
    }

    /// Stores one message of severity `level` with the text `message` if the
    /// severity passes the threshold, and drops it otherwise.
    pub fn log(&mut self, level: Level, message: String)
        ensures
            final(self).history() == if old(self).threshold().admits(level) {
                old(self).history().push((level, message@))
            } else {
                old(self).history()
            },
            final(self).threshold() == old(self).threshold(),
    {
        if self.max_level.allows(level) {
            let item = Message::new(level, message);
            self.messages.push(item);
            assert(history_of(self.messages@) =~= history_of(old(self).messages@).push(
                (level, message@),
            ));
        }
    }

    /// Captures the record if it comes from this library's own target and
    /// passes the threshold, and says whether it did.
    pub fn record(&mut self, target: &str, level: Level, message: String) -> (r: bool)
        ensures
            r == old(self).accepts(target@, level),
            final(self).history() == if r {
                old(self).history().push((level, message@))
            } else {
                old(self).history()
            },
            final(self).threshold() == old(self).threshold(),
    {
        if self.enabled(target, level) {
            self.log(level, message);
            true
        } else {
            false
        }
    }

    /// Nothing is buffered outside the history, so there is nothing to do.
    pub fn flush(&self) {
    }
}

impl Default for Logger {
    /// The same as [`Logger::new`].
    fn default() -> (r: Self)
        ensures
            r.history() == Seq::<(Level, Seq<char>)>::empty(),
            r.threshold() == LevelFilter::Off,
    {
        Logger::new()
    }
}

/// Whether two strings hold the same characters.
fn str_equal(a: &str, b: &str) -> (r: bool)
    ensures
        r == (a@ == b@),
{
    a.to_owned() == b.to_owned()
}

/// Calls `log::set_max_level`, which stores the filter in the logging
/// facade's process-wide setting. Nothing is claimed of it: the call returns
/// nothing and touches no value of this library.
#[verifier::external_body]
fn facade_set_max_level(level: LevelFilter) {
    log::set_max_level(
        match level {
            LevelFilter::Off => log::LevelFilter::Off,
            LevelFilter::Error => log::LevelFilter::Error,
            LevelFilter::Warn => log::LevelFilter::Warn,
            LevelFilter::Info => log::LevelFilter::Info,
            LevelFilter::Debug => log::LevelFilter::Debug,
            LevelFilter::Trace => log::LevelFilter::Trace,
        },
    );
}

/// Sets the threshold of `logger` and of the logging facade to `level`. It
/// holds for every later record and leaves the stored messages alone.
pub fn set_max_level(logger: &mut Logger, level: LevelFilter)
    ensures
        final(logger).threshold() == level,
        final(logger).history() == old(logger).history(),
{
    facade_set_max_level(level);
    logger.set_max_level(level);
}

/// Completes the installation of `logger` as the process's log backend.
/// `registered` says whether the logging facade took the sink; it refuses
/// when a backend is already in place. The threshold is set either way.
pub fn init(logger: &mut Logger, threshold: LevelFilter, registered: bool) -> (r: Result<
    (),
    InitError,
>)
    ensures
        final(logger).threshold() == threshold,
        final(logger).history() == old(logger).history(),
        r == if registered {
            Ok::<(), InitError>(())
        } else {
            Err::<(), InitError>(InitError::AlreadyInstalled)
        },
{
    set_max_level(logger, threshold);
    if registered {
        Ok(())
    } else {
        Err(InitError::AlreadyInstalled)
    }
}

/// The threshold used when the host names none: everything in a debug
/// build, warnings and errors otherwise.
pub fn default_max_level(debug_build: bool) -> (r: LevelFilter)
    ensures
        r == if debug_build {
            LevelFilter::Trace
        } else {
            LevelFilter::Warn
        },
{
    if debug_build {
        LevelFilter::Trace
    } else {
        LevelFilter::Warn
    }
}

/// The history after the entries of `batch` are emitted one by one under
/// `threshold`: what the earlier entries left, and behind it the last entry
/// if the threshold admits it.
pub open spec fn after_emits(
    history: Seq<(Level, Seq<char>)>,
    threshold: LevelFilter,
    batch: Seq<(Level, Seq<char>)>,
) -> Seq<(Level, Seq<char>)>
    decreases batch.len(),
{
    if batch.len() == 0 {
        history
    } else {
        let before = after_emits(history, threshold, batch.drop_last());
        if threshold.admits(batch.last().0) {
            before.push(batch.last())
        } else {
            before
        }
    }
}

/// Emitting a batch one entry at a time keeps the order of arrival: the
/// result is the old history followed by the admitted entries of the batch,
/// in the order of the batch. Nothing that was stored is lost or moved, no
/// entry is stored twice, and where every entry is admitted the whole batch
/// stands behind the old history.
pub proof fn lemma_emits_keep_arrival_order(
    history: Seq<(Level, Seq<char>)>,
    threshold: LevelFilter,
    batch: Seq<(Level, Seq<char>)>,
)
    ensures
        after_emits(history, threshold, batch) == history + batch.filter(
            |e: (Level, Seq<char>)| threshold.admits(e.0),
        ),
        history.len() <= after_emits(history, threshold, batch).len() <= history.len()
            + batch.len(),
        forall|i: int|
            0 <= i < history.len() ==> after_emits(history, threshold, batch)[i] == history[i],
        (forall|j: int| 0 <= j < batch.len() ==> threshold.admits(#[trigger] batch[j].0))
            ==> after_emits(history, threshold, batch) == history + batch,
    decreases batch.len(),
{
    reveal(Seq::filter);
    let admitted = |e: (Level, Seq<char>)| threshold.admits(e.0);
    if batch.len() == 0 {
        assert(history + batch.filter(admitted) =~= history);
        assert(history + batch =~= history);
    } else {
        let earlier = batch.drop_last();
        lemma_emits_keep_arrival_order(history, threshold, earlier);
        assert(after_emits(history, threshold, earlier) == history + earlier.filter(admitted));
        if threshold.admits(batch.last().0) {
            assert((history + earlier.filter(admitted)).push(batch.last()) =~= history
                + earlier.filter(admitted).push(batch.last()));
        }
        assert(after_emits(history, threshold, batch) == history + batch.filter(admitted));
        batch.lemma_filter_len(admitted);
        if forall|j: int| 0 <= j < batch.len() ==> threshold.admits(#[trigger] batch[j].0) {
            assert forall|j: int| 0 <= j < earlier.len() implies threshold.admits(
                #[trigger] earlier[j].0,
            ) by {
                assert(earlier[j] == batch[j]);
            }
            assert((history + earlier).push(batch.last()) =~= history + batch);
        }
    }
}

/// Two snapshots taken of one sink with nothing emitted in between are
/// equal element for element.
pub proof fn lemma_snapshots_agree(logger: Logger, first: Seq<Message>, second: Seq<Message>)
    requires
        logger.is_snapshot(first),
        logger.is_snapshot(second),
    ensures
        first.len() == second.len(),
        forall|i: int| 0 <= i < first.len() ==> first[i]@ == second[i]@,
{
    assert(history_of(first).len() == first.len());
    assert(history_of(second).len() == second.len());
    assert forall|i: int| 0 <= i < first.len() implies first[i]@ == second[i]@ by {
        assert(history_of(first)[i] == first[i]@);
        assert(history_of(second)[i] == second[i]@);
    }
}

/// A record from this library's own target is accepted exactly when its
/// severity is at or above the threshold, and a record from any other
/// target never is.
pub proof fn lemma_threshold_filters(logger: Logger, target: Seq<char>, level: Level)
    ensures
        logger.accepts(own_target(), level) <==> level.rank() <= logger.threshold().rank(),
        target != own_target() ==> !logger.accepts(target, level),
{
}

} // verus!

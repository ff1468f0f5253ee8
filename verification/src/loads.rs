//! Every document this window has asked for, and which answer may still count.
//!
//! Reading a document happens elsewhere and comes back as an answer labelled
//! with the request it belongs to. What is decided here is what that answer is
//! worth: only the newest request can reach the screen, and the one line the
//! window shows is about the request the user last made rather than whatever
//! finished most recently.
//!
//! The readings themselves (their threads, the tokens that stop them, the
//! relays they report through) belong to whoever runs the loop. This side says
//! when a reading starts and when every reading must be asked to stop.
use vstd::prelude::*;
use vstd::string::StringExecFns;

use crate::paths::{names_path, short_name};
use crate::words::{
    constraint_sentence, explained, optional_text, stored_words, text, words_text, ConstraintWords, StoredConstraint,
};

verus! {

/// Which request an answer belongs to.
///
/// Monotonic and never reused. Identifying a load by the document it reads
/// would not do: opening the same file twice would produce two answers that
/// cannot be told apart, and the older one would be as welcome as the newer.
#[derive(Debug, Clone, Copy, PartialEq, Eq, Structural, PartialOrd, Ord, Hash)]
pub struct LoadGeneration(pub u64);

/// A whole reading, in the units progress is counted in (ten-thousandths).
pub const WHOLE: u32 = 10000;

/// The smallest change of progress worth a frame: half a per cent.
pub const NOTICEABLE: u32 = 50;

/// What the window says about the document it is showing.
///
/// One sentence, about the request the user last made. A viewer that reported
/// the state of an abandoned reading would be describing a document nobody
/// asked for.
#[allow(inconsistent_fields)]
#[derive(Debug, Clone, PartialEq, Eq)]
pub enum Status {
    /// Nothing has been asked for. True only before the first request.
    Idle,
    /// Being read. Whatever was on screen before is still on screen.
    Loading {
        generation: LoadGeneration,
        file: String,
        /// How much of it is done, as far as anyone has said, in
        /// ten-thousandths of the whole.
        fraction: u32,
    },
    /// On screen.
    Ready { file: String },
    /// Could not be read. The previous model stays, and this says why.
    Failed { file: String, message: String },
}

/// What a [`Status`] says, for contracts.
#[allow(inconsistent_fields)]
pub enum StatusModel {
    Idle,
    Loading { generation: LoadGeneration, file: Seq<char>, fraction: u32 },
    Ready { file: Seq<char> },
    Failed { file: Seq<char>, message: Seq<char> },
}

impl View for Status {
    type V = StatusModel;

    open spec fn view(&self) -> StatusModel {
        match self {
            Status::Idle => StatusModel::Idle,
            Status::Loading { generation, file, fraction } => StatusModel::Loading {
                generation: *generation,
                file: file@,
                fraction: *fraction,
            },
            Status::Ready { file } => StatusModel::Ready { file: file@ },
            Status::Failed { file, message } => StatusModel::Failed {
                file: file@,
                message: message@,
            },
        }
    }
}

/// A fraction in whole per cent, rounded to the nearest and, between two,
/// to the even one.
pub open spec fn percent(fraction: u32) -> nat {
    let whole = fraction / 100;
    let rest = fraction % 100;
    if rest > 50 || (rest == 50 && whole % 2 == 1) {
        (whole + 1) as nat
    } else {
        whole as nat
    }
}

/// One decimal digit.
pub open spec fn digit_text(digit: nat) -> Seq<char> {
    if digit == 0 {
        "0"@
    } else if digit == 1 {
        "1"@
    } else if digit == 2 {
        "2"@
    } else if digit == 3 {
        "3"@
    } else if digit == 4 {
        "4"@
    } else if digit == 5 {
        "5"@
    } else if digit == 6 {
        "6"@
    } else if digit == 7 {
        "7"@
    } else if digit == 8 {
        "8"@
    } else {
        "9"@
    }
}

/// A number in decimal, with no leading zeros.
pub open spec fn decimal_text(n: nat) -> Seq<char>
    decreases n,
{
    if n < 10 {
        digit_text(n)
    } else {
        decimal_text(n / 10) + digit_text(n % 10)
    }
}

/// The line a status puts in front of the user.
pub open spec fn status_line(status: StatusModel) -> Seq<char> {
    match status {
        StatusModel::Idle => "No document"@,
        StatusModel::Loading { file, fraction, .. } => "Opening "@ + file + "… "@ + decimal_text(
            percent(fraction),
        ) + "%"@,
        StatusModel::Ready { file } => file,
        StatusModel::Failed { file, message } => file + ": "@ + message,
    }
}

/// How far the load in flight has got, if one is in flight.
pub open spec fn status_fraction(status: StatusModel) -> Option<u32> {
    match status {
        StatusModel::Loading { fraction, .. } => Some(fraction),
        _ => None,
    }
}

fn digit(d: u32) -> (said: &'static str)
    requires
        d < 10,
    ensures
        said@ == digit_text(d as nat),
{
    if d == 0 {
        "0"
    } else if d == 1 {
        "1"
    } else if d == 2 {
        "2"
    } else if d == 3 {
        "3"
    } else if d == 4 {
        "4"
    } else if d == 5 {
        "5"
    } else if d == 6 {
        "6"
    } else if d == 7 {
        "7"
    } else if d == 8 {
        "8"
    } else {
        "9"
    }
}

fn decimal(n: u32) -> (said: String)
    ensures
        said@ == decimal_text(n as nat),
    decreases n,
{
    if n < 10 {
        text(digit(n))
    } else {
        let mut said = decimal(n / 10);
        said.append(digit(n % 10));
        said
    }
}

fn rounded_percent(fraction: u32) -> (whole: u32)
    ensures
        whole as nat == percent(fraction),
{
    let whole = fraction / 100;
    let rest = fraction % 100;
    if rest > 50 || (rest == 50 && whole % 2 == 1) {
        whole + 1
    } else {
        whole
    }
}

impl Status {
    /// How far the load in flight has got, if one is in flight.
    ///
    /// `None` is not "nothing is happening at nought per cent": it is nothing
    /// happening at all, which is what tells a toolbar whether there is
    /// anything to offer to cancel.
    pub fn fraction(&self) -> (fraction: Option<u32>)
        ensures
            fraction == status_fraction(self@),
    {
        match self {
            Status::Loading { fraction, .. } => Some(*fraction),
            _ => None,
        }
    }

    /// The line to put in front of the user.
    pub fn line(&self) -> (line: String)
        ensures
            line@ == status_line(self@),
    {
        match self {
            Status::Idle => text("No document"),
            Status::Loading { file, fraction, .. } => {
                let mut line = text("Opening ");
                line.append(file.as_str());
                line.append("… ");
                let shown = decimal(rounded_percent(*fraction));
                line.append(shown.as_str());
                line.append("%");
                line
            },
            Status::Ready { file } => file.clone(),
            Status::Failed { file, message } => {
                let mut line = file.clone();
                line.append(": ");
                line.append(message.as_str());
                line
            },
        }
    }
}

/// What a refusal to open a document carried, when it carried a conflict:
/// the sketch whose constraints disagree, and the blamed constraints in the
/// order the document stores them.
#[derive(Debug, Clone, PartialEq, Eq)]
pub struct ConflictFacts {
    pub sketch: String,
    pub constraints: Vec<StoredConstraint>,
}

/// Why a reading failed: the sentence written for a person, and the facts of
/// a conflict when the failure was one.
#[derive(Debug, Clone, PartialEq, Eq)]
pub struct Refusal {
    pub message: String,
    pub conflict: Option<ConflictFacts>,
}

/// Why one attempt to open a document failed, in the words a person reads.
///
/// Owned by the application rather than by the picture: the model on screen
/// came from another file, which still opens, and this describes the one that
/// did not. Every string is made once, when the refusal arrives, from the
/// durable facts it carried.
#[derive(Debug, Clone, PartialEq, Eq)]
pub struct OpenConflict {
    /// The document that was being opened, named as the attempt named it.
    pub file: String,
    /// The sketch whose constraints disagree, as the document stores it.
    pub sketch: String,
    /// The blamed constraints, in the order the refusal carried them.
    pub constraints: Vec<ConstraintWords>,
}

/// What an [`OpenConflict`] says, for contracts.
pub struct ConflictModel {
    pub file: Seq<char>,
    pub sketch: Seq<char>,
    /// Each blamed constraint's identifier and sentence, in order.
    pub constraints: Seq<(Seq<char>, Seq<char>)>,
}

impl View for OpenConflict {
    type V = ConflictModel;

    open spec fn view(&self) -> ConflictModel {
        ConflictModel {
            file: self.file@,
            sketch: self.sketch@,
            constraints: self.constraints@.map_values(|w: ConstraintWords| words_text(w)),
        }
    }
}

/// The account of a conflict, for the attempt that opened `file`.
pub open spec fn conflict_account(facts: ConflictFacts, file: Seq<char>) -> ConflictModel {
    ConflictModel {
        file: file,
        sketch: facts.sketch@,
        constraints: facts.constraints@.map_values(|c: StoredConstraint| stored_words(c)),
    }
}

/// The account a refusal leaves behind: one only when it was a conflict.
pub open spec fn refusal_account(refusal: Refusal, file: Seq<char>) -> Option<ConflictModel> {
    match refusal.conflict {
        Some(facts) => Some(conflict_account(facts, file)),
        None => None,
    }
}

/// The view of an optional account.
pub open spec fn optional_account(conflict: Option<OpenConflict>) -> Option<ConflictModel> {
    match conflict {
        Some(c) => Some(c@),
        None => None,
    }
}

impl OpenConflict {
    /// The account behind a refusal, when the refusal is a conflict.
    ///
    /// A refusal that is not a conflict answers `None`, and the window shows
    /// the one line it always shows. The blamed constraints stay in the order
    /// the refusal carried them: nothing is sorted, folded or dropped.
    pub fn of(refusal: &Refusal, file: &str) -> (account: Option<OpenConflict>)
        ensures
            optional_account(account) == refusal_account(*refusal, file@),
    {
        match &refusal.conflict {
            Some(facts) => {
                let constraints = explained(&facts.constraints);
                let account = OpenConflict {
                    file: text(file),
                    sketch: facts.sketch.clone(),
                    constraints,
                };
                proof {
                    assert(account@.constraints =~= conflict_account(*facts, file@).constraints);
                }
                Some(account)
            },
            None => None,
        }
    }
}

/// What [`Loads`] holds, for contracts.
pub struct LoadsModel<R> {
    /// How many requests have been made: the newest generation's number.
    pub issued: u64,
    /// The request whose answer may still reach the screen.
    pub current: Option<LoadGeneration>,
    pub status: StatusModel,
    /// The document currently drawn, if any reading ever finished.
    pub shown: Option<Seq<char>>,
    /// Where the reading in flight reports how far it has got.
    pub progress: Option<(LoadGeneration, R)>,
    /// What the last attempt to open a document failed over, when it failed
    /// over something with parts.
    pub conflict: Option<ConflictModel>,
}

/// Every request this window has made, and what the window says about them.
///
/// `R` is where a reading reports its progress; it is kept beside the
/// generation it belongs to and handed back only for that generation.
pub struct Loads<R> {
    issued: u64,
    current: Option<LoadGeneration>,
    status: Status,
    shown: Option<String>,
    progress: Option<(LoadGeneration, R)>,
    conflict: Option<OpenConflict>,
}

impl<R> View for Loads<R> {
    type V = LoadsModel<R>;

    closed spec fn view(&self) -> LoadsModel<R> {
        LoadsModel {
            issued: self.issued,
            current: self.current,
            status: self.status@,
            shown: optional_text(self.shown),
            progress: self.progress,
            conflict: optional_account(self.conflict),
        }
    }
}

/// Nothing asked for yet.
pub open spec fn no_loads<R>() -> LoadsModel<R> {
    LoadsModel {
        issued: 0,
        current: None,
        status: StatusModel::Idle,
        shown: None,
        progress: None,
        conflict: None,
    }
}

/// Whether `generation` has been handed out already.
pub open spec fn issued_by(model_issued: u64, generation: LoadGeneration) -> bool {
    1 <= generation.0 <= model_issued
}

/// What holds of the requests between any two operations.
///
/// - The request that may still reach the screen is exactly the one the line
///   says is being read.
/// - Nothing is said about a failed attempt while another is being read.
/// - A line naming a document on screen names the one that is drawn, and a
///   window that never drew anything says so.
/// - Every generation mentioned has been handed out, and the reading in
///   flight reports through its own relay.
pub open spec fn loads_consistent<R>(m: LoadsModel<R>) -> bool {
    &&& match m.status {
        StatusModel::Loading { generation, .. } => {
            &&& m.current == Some(generation)
            &&& m.conflict is None
        },
        _ => m.current is None,
    }
    &&& match m.status {
        StatusModel::Ready { file } => m.shown == Some(file),
        StatusModel::Idle => m.shown is None,
        _ => true,
    }
    &&& match m.current {
        Some(generation) => {
            &&& issued_by(m.issued, generation)
            &&& m.progress matches Some((reporting, _)) && reporting == generation
        },
        None => true,
    }
    &&& match m.progress {
        Some((generation, _)) => issued_by(m.issued, generation),
        None => true,
    }
}

/// The next request, naming `chosen` (or a dialog closed without choosing).
pub open spec fn after_open<R>(m: LoadsModel<R>, chosen: Option<Seq<char>>, progress: R) -> (
    LoadsModel<R>,
    Option<LoadGeneration>,
) {
    match chosen {
        None => (m, None),
        Some(file) => {
            let generation = LoadGeneration((m.issued + 1) as u64);
            (
                LoadsModel {
                    issued: generation.0,
                    current: Some(generation),
                    status: StatusModel::Loading { generation, file, fraction: 0 },
                    shown: m.shown,
                    progress: Some((generation, progress)),
                    conflict: None,
                },
                Some(generation),
            )
        },
    }
}

/// A fraction no larger than a whole reading.
pub open spec fn at_most_whole(fraction: u32) -> u32 {
    if fraction > WHOLE {
        WHOLE
    } else {
        fraction
    }
}

/// Whether two fractions differ by enough to be seen.
pub open spec fn noticeably_different(now: u32, shown: u32) -> bool {
    if now >= shown {
        now - shown >= NOTICEABLE
    } else {
        shown - now >= NOTICEABLE
    }
}

/// The newest thing a generation has said about how far it has got.
pub open spec fn after_progressed<R>(m: LoadsModel<R>, generation: LoadGeneration, fraction: u32) -> (
    LoadsModel<R>,
    bool,
) {
    match m.status {
        StatusModel::Loading { generation: waiting, file, fraction: shown } => {
            let now = at_most_whole(fraction);
            if waiting == generation && noticeably_different(now, shown) {
                (
                    LoadsModel {
                        status: StatusModel::Loading { generation: waiting, file, fraction: now },
                        ..m
                    },
                    true,
                )
            } else {
                (m, false)
            }
        },
        _ => (m, false),
    }
}

/// What the line says when no reading is in flight: the document drawn.
pub open spec fn describing_what_is_drawn(shown: Option<Seq<char>>) -> StatusModel {
    match shown {
        Some(file) => StatusModel::Ready { file },
        None => StatusModel::Idle,
    }
}

/// The reading in flight given up on.
pub open spec fn after_cancel_current<R>(m: LoadsModel<R>) -> (LoadsModel<R>, bool) {
    if m.current is None {
        (m, false)
    } else {
        (
            LoadsModel {
                current: None,
                progress: None,
                status: describing_what_is_drawn(m.shown),
                ..m
            },
            true,
        )
    }
}

/// What a generation answered, noted.
///
/// Only the answer the line is waiting for changes anything: a document that
/// opened becomes what is drawn, and one that failed says why and leaves the
/// account of its failure. Whatever answered, a request that was current is
/// current no longer.
pub open spec fn after_answered<R>(
    m: LoadsModel<R>,
    generation: LoadGeneration,
    outcome: Result<(), Refusal>,
) -> (LoadsModel<R>, bool) {
    let current = if m.current == Some(generation) {
        None
    } else {
        m.current
    };
    match m.status {
        StatusModel::Loading { generation: waiting, file, .. } => {
            if waiting == generation {
                match outcome {
                    Ok(()) => (
                        LoadsModel {
                            current,
                            status: StatusModel::Ready { file },
                            shown: Some(file),
                            ..m
                        },
                        true,
                    ),
                    Err(refusal) => (
                        LoadsModel {
                            current,
                            status: StatusModel::Failed { file, message: refusal.message@ },
                            conflict: refusal_account(refusal, file),
                            ..m
                        },
                        true,
                    ),
                }
            } else {
                (LoadsModel { current, ..m }, false)
            }
        },
        _ => (LoadsModel { current, ..m }, false),
    }
}

/// Every reading stopped: none of their answers can reach the screen.
pub open spec fn after_stop_all<R>(m: LoadsModel<R>) -> LoadsModel<R> {
    LoadsModel { current: None, ..m }
}

/// The name an opened request shows, as the line came to read.
pub open spec fn loading_file(status: StatusModel) -> Seq<char> {
    match status {
        StatusModel::Loading { file, .. } => file,
        _ => Seq::empty(),
    }
}

impl<R> Default for Loads<R> {
    fn default() -> (loads: Self)
        ensures
            loads@ == no_loads::<R>(),
    {
        Loads {
            issued: 0,
            current: None,
            status: Status::Idle,
            shown: None,
            progress: None,
            conflict: None,
        }
    }
}

impl<R> Loads<R> {
    /// How many requests have been made.
    pub fn issued(&self) -> (issued: u64)
        ensures
            issued == self@.issued,
    {
        self.issued
    }

    /// Opens a document whose line name is `chosen`, if one was chosen.
    ///
    /// `None` is a dialog the user closed, and it does exactly nothing: no
    /// generation, and above all no change to what the window says about the
    /// document already on screen. Otherwise a new request takes the place of
    /// whatever was being read; whoever runs the readings stops every one of
    /// them and starts this one, labelled with the generation returned.
    ///
    /// Asking for a document is the end of the last attempt's account of
    /// itself: leaving it up beside `Opening…` would read as this file having
    /// already failed.
    pub fn open_named(&mut self, chosen: Option<String>, progress: R) -> (generation: Option<
        LoadGeneration,
    >)
        requires
            chosen is Some ==> old(self)@.issued < u64::MAX,
        ensures
            (final(self)@, generation) == after_open(old(self)@, optional_text(chosen), progress),
    {
        match chosen {
            None => None,
            Some(file) => {
                self.issued = self.issued + 1;
                let generation = LoadGeneration(self.issued);
                self.current = Some(generation);
                self.progress = Some((generation, progress));
                self.conflict = None;
                self.status = Status::Loading { generation, file, fraction: 0 };
                Some(generation)
            },
        }
    }

    /// Opens what the user chose, if they chose anything, naming it by the
    /// file's own name: the final component of the path (for a plain path,
    /// the run after its last `/`), or the whole path when it has none.
    pub fn open(&mut self, chosen: Option<&str>, progress: R) -> (generation: Option<
        LoadGeneration,
    >)
        requires
            chosen is Some ==> old(self)@.issued < u64::MAX,
        ensures
            (final(self)@, generation) == after_open(
                old(self)@,
                match chosen {
                    Some(_) => Some(loading_file(final(self)@.status)),
                    None => None,
                },
                progress,
            ),
            match chosen {
                Some(path) => names_path(path@, loading_file(final(self)@.status)),
                None => true,
            },
    {
        let named = match chosen {
            Some(path) => Some(short_name(path)),
            None => None,
        };
        self.open_named(named, progress)
    }

    /// Whether this answer is still the one that was asked for.
    pub fn accepts(&self, generation: LoadGeneration) -> (accepted: bool)
        ensures
            accepted == (self@.current == Some(generation)),
    {
        match self.current {
            Some(current) => current == generation,
            None => false,
        }
    }

    /// What the window should be saying.
    pub fn status(&self) -> (status: &Status)
        ensures
            status@ == self@.status,
    {
        &self.status
    }

    /// What the last attempt to open a document failed over, if it did.
    pub fn conflict(&self) -> (conflict: Option<&OpenConflict>)
        ensures
            match conflict {
                Some(c) => self@.conflict == Some(c@),
                None => self@.conflict is None,
            },
    {
        match &self.conflict {
            Some(c) => Some(c),
            None => None,
        }
    }

    /// The newest thing the load in flight has said about itself, in
    /// ten-thousandths of the whole.
    ///
    /// Reported for every generation and worth something for one, exactly as
    /// an answer is. Returns whether the line changed, and a change of less
    /// than half a per cent is not one: a frame for a difference nobody can
    /// see is a frame spent for nothing.
    pub fn progressed(&mut self, generation: LoadGeneration, fraction: u32) -> (changed: bool)
        ensures
            (final(self)@, changed) == after_progressed(old(self)@, generation, fraction),
    {
        let now = if fraction > WHOLE {
            WHOLE
        } else {
            fraction
        };
        let file = match &self.status {
            Status::Loading { generation: waiting, file, fraction: shown } => {
                let differs = if now >= *shown {
                    now - *shown >= NOTICEABLE
                } else {
                    *shown - now >= NOTICEABLE
                };
                if *waiting == generation && differs {
                    Some(file.clone())
                } else {
                    None
                }
            },
            _ => None,
        };
        match file {
            Some(file) => {
                self.status = Status::Loading { generation, file, fraction: now };
                true
            },
            None => false,
        }
    }

    /// Where to read the progress of the load in flight.
    pub fn relay(&self, generation: LoadGeneration) -> (relay: Option<&R>)
        ensures
            match self@.progress {
                Some((reporting, kept)) => if reporting == generation {
                    relay == Some(&kept)
                } else {
                    relay is None
                },
                None => relay is None,
            },
    {
        match &self.progress {
            Some((reporting, kept)) => {
                if *reporting == generation {
                    Some(kept)
                } else {
                    None
                }
            },
            None => None,
        }
    }

    /// Stops waiting for the reading in flight and goes back to describing
    /// what is drawn.
    ///
    /// Nothing on screen changes: the model the user was looking at is the
    /// one they keep. The abandoned reading will still answer, and by then it
    /// is no longer current, so its answer is discarded like any other stale
    /// one. Returns whether the line changed, which is also whether there was
    /// a reading to stop.
    pub fn cancel_current(&mut self) -> (changed: bool)
        ensures
            (final(self)@, changed) == after_cancel_current(old(self)@),
    {
        if self.current.is_none() {
            return false;
        }
        self.current = None;
        self.progress = None;
        self.status = match &self.shown {
            Some(file) => Status::Ready { file: file.clone() },
            None => Status::Idle,
        };
        true
    }

    /// Notes what a generation answered.
    ///
    /// Returns whether the line changed, because a line that changed is a
    /// reason to draw a frame and nothing else here is. The outcome is
    /// reported for every answer, current or not, and this decides what it is
    /// worth: asking callers to filter would put the rule in two places.
    pub fn answered(&mut self, generation: LoadGeneration, outcome: Result<(), Refusal>) -> (changed:
        bool)
        ensures
            (final(self)@, changed) == after_answered(old(self)@, generation, outcome),
    {
        let waiting_file = match &self.status {
            Status::Loading { generation: waiting, file, .. } => {
                if *waiting == generation {
                    Some(file.clone())
                } else {
                    None
                }
            },
            _ => None,
        };
        let changed = match waiting_file {
            Some(file) => {
                match outcome {
                    Ok(()) => {
                        // What the window shows from now on, which is what it
                        // goes back to saying if the next reading is given up.
                        self.shown = Some(file.clone());
                        self.status = Status::Ready { file };
                    },
                    Err(refusal) => {
                        // The one place an account of a failure is written,
                        // for the attempt that just failed.
                        self.conflict = OpenConflict::of(&refusal, file.as_str());
                        self.status = Status::Failed { file, message: refusal.message };
                    },
                }
                true
            },
            None => false,
        };
        match self.current {
            Some(current) => {
                if current == generation {
                    self.current = None;
                }
            },
            None => {},
        }
        changed
    }

    /// No answer counts any more: every reading is being stopped for good.
    ///
    /// The last thing that happens. Whoever runs the readings asks every one
    /// of them to stop, and only then waits for them all.
    pub fn stop_all(&mut self)
        ensures
            final(self)@ == after_stop_all(old(self)@),
    {
        self.current = None;
    }
}

/// What accepting or discarding an answer did at the application boundary.
#[derive(Debug, Clone, PartialEq, Eq)]
pub struct AnswerEffect {
    /// The line changed, which is a reason to draw a frame.
    pub status_changed: bool,
    /// The failure to report, present only for the current request's failure.
    pub error: Option<String>,
}

/// The failure an answer reports: only the current request's, and only when
/// it failed.
pub open spec fn reported_error(changed: bool, outcome: Result<(), Refusal>) -> Option<Seq<char>> {
    if changed {
        match outcome {
            Ok(()) => None,
            Err(refusal) => Some(refusal.message@),
        }
    } else {
        None
    }
}

/// Finishes an answer after its picture has either been committed or refused.
///
/// [`Loads::answered`] is the one generation check, and its answer controls
/// both things visible outside it: a frame, and an error in the diagnostic
/// stream. A stale error must not bypass it merely because the diagnostic
/// stream and the toolbar are two different places to report something.
pub fn finish_answer<R>(
    loads: &mut Loads<R>,
    generation: LoadGeneration,
    outcome: Result<(), Refusal>,
) -> (effect: AnswerEffect)
    ensures
        (final(loads)@, effect.status_changed) == after_answered(old(loads)@, generation, outcome),
        optional_text(effect.error) == reported_error(effect.status_changed, outcome),
{
    let error = match &outcome {
        Ok(()) => None,
        Err(refusal) => Some(refusal.message.clone()),
    };
    let status_changed = loads.answered(generation, outcome);
    AnswerEffect { status_changed, error: if status_changed {
        error
    } else {
        None
    } }
}

/// Before anything is asked for, the requests are consistent.
pub proof fn no_loads_are_consistent<R>()
    ensures
        loads_consistent(no_loads::<R>()),
{
}

/// Every operation keeps the requests consistent: what may still reach the
/// screen is what the line says is being read, the line names what is drawn,
/// and no account of a failure stands beside a reading in flight.
pub proof fn requests_stay_consistent<R>(
    m: LoadsModel<R>,
    chosen: Option<Seq<char>>,
    progress: R,
    generation: LoadGeneration,
    fraction: u32,
    outcome: Result<(), Refusal>,
)
    requires
        loads_consistent(m),
        m.issued < u64::MAX,
    ensures
        loads_consistent(after_open(m, chosen, progress).0),
        loads_consistent(after_progressed(m, generation, fraction).0),
        loads_consistent(after_cancel_current(m).0),
        loads_consistent(after_answered(m, generation, outcome).0),
{
}

/// Every request gets its own generation: larger than every generation handed
/// out before it, so a late answer is recognised as late rather than as
/// coincidentally equal to something started afterwards.
pub proof fn every_request_gets_its_own_generation<R>(
    m: LoadsModel<R>,
    first: Seq<char>,
    second: Seq<char>,
    first_relay: R,
    second_relay: R,
    earlier: LoadGeneration,
)
    requires
        m.issued < u64::MAX - 1,
    ensures
        ({
            let (after_first, a) = after_open(m, Some(first), first_relay);
            let (after_second, b) = after_open(after_first, Some(second), second_relay);
            &&& a is Some && b is Some
            &&& a.unwrap().0 < b.unwrap().0
            &&& issued_by(m.issued, earlier) ==> earlier.0 < a.unwrap().0
            &&& after_second.current == b
            &&& b != a
        }),
{
}

/// Only the newest request is accepted: once a second document is asked for,
/// the first one's answer is no longer the one that was asked for.
pub proof fn only_the_newest_request_is_accepted<R>(
    m: LoadsModel<R>,
    first: Seq<char>,
    second: Seq<char>,
    first_relay: R,
    second_relay: R,
)
    requires
        m.issued < u64::MAX - 1,
    ensures
        ({
            let (after_first, a) = after_open(m, Some(first), first_relay);
            let (after_second, b) = after_open(after_first, Some(second), second_relay);
            &&& after_second.current == b
            &&& after_second.current != a
        }),
{
}

/// A dialog closed without choosing changes nothing at all.
pub proof fn a_closed_dialog_changes_nothing<R>(m: LoadsModel<R>, progress: R)
    ensures
        after_open(m, None, progress).0 == m,
        after_open(m, None, progress).1 is None,
{
}

/// Asking for a document takes down the last attempt's account of its
/// failure, and the line at once names the document being opened.
pub proof fn asking_for_a_document_takes_down_the_last_account<R>(
    m: LoadsModel<R>,
    chosen: Seq<char>,
    progress: R,
)
    requires
        m.issued < u64::MAX,
    ensures
        after_open(m, Some(chosen), progress).0.conflict is None,
        after_open(m, Some(chosen), progress).0.shown == m.shown,
        loading_file(after_open(m, Some(chosen), progress).0.status) == chosen,
{
}

/// The answer to a request that is no longer current changes nothing: not
/// the line, not what is drawn, not the account of a failure, and it asks for
/// no frame.
pub proof fn a_stale_answer_changes_nothing<R>(
    m: LoadsModel<R>,
    generation: LoadGeneration,
    outcome: Result<(), Refusal>,
)
    requires
        loads_consistent(m),
        m.current != Some(generation),
    ensures
        after_answered(m, generation, outcome) == (m, false),
        reported_error(after_answered(m, generation, outcome).1, outcome) is None,
{
}

/// Progress from a reading nobody is waiting for is ignored.
pub proof fn stale_progress_is_ignored<R>(
    m: LoadsModel<R>,
    generation: LoadGeneration,
    fraction: u32,
)
    requires
        loads_consistent(m),
        m.current != Some(generation),
    ensures
        after_progressed(m, generation, fraction) == (m, false),
{
}

/// A change of progress is shown only when it can be seen, and never beyond
/// the whole.
pub proof fn progress_moves_only_by_what_can_be_seen<R>(
    m: LoadsModel<R>,
    generation: LoadGeneration,
    fraction: u32,
)
    ensures
        after_progressed(m, generation, fraction).1 ==> ({
            let now = status_fraction(after_progressed(m, generation, fraction).0.status);
            &&& now == Some(at_most_whole(fraction))
            &&& now->0 <= WHOLE
            &&& noticeably_different(now->0, status_fraction(m.status)->0)
        }),
        !after_progressed(m, generation, fraction).1 ==> after_progressed(
            m,
            generation,
            fraction,
        ).0 == m,
{
}

/// Giving up on a reading keeps what is on screen, goes back to naming it,
/// and the reading given up on can neither report progress nor answer.
pub proof fn giving_up_keeps_what_is_on_screen<R>(
    m: LoadsModel<R>,
    generation: LoadGeneration,
    fraction: u32,
    outcome: Result<(), Refusal>,
)
    requires
        loads_consistent(m),
        m.current == Some(generation),
    ensures
        ({
            let (given_up, changed) = after_cancel_current(m);
            &&& changed
            &&& given_up.shown == m.shown
            &&& given_up.status == describing_what_is_drawn(m.shown)
            &&& given_up.conflict == m.conflict
            &&& after_answered(given_up, generation, outcome) == (given_up, false)
            &&& after_progressed(given_up, generation, fraction) == (given_up, false)
            &&& after_cancel_current(given_up) == (given_up, false)
        }),
{
}

/// The current request's answer settles it: a document that opened is what
/// is drawn and leaves no account of an earlier failure; one that failed
/// says why, keeps what is drawn, and leaves the account of its own failure
/// under its own name.
pub proof fn an_answer_settles_its_request<R>(
    m: LoadsModel<R>,
    generation: LoadGeneration,
    refusal: Refusal,
)
    requires
        loads_consistent(m),
        m.current == Some(generation),
    ensures
        ({
            let file = loading_file(m.status);
            let (opened, opened_changed) = after_answered(m, generation, Ok(()));
            let (failed, failed_changed) = after_answered(m, generation, Err(refusal));
            &&& opened_changed && failed_changed
            &&& opened.status == StatusModel::Ready { file }
            &&& opened.shown == Some(file)
            &&& opened.conflict is None
            &&& opened.current is None
            &&& failed.status == StatusModel::Failed { file, message: refusal.message@ }
            &&& failed.shown == m.shown
            &&& failed.conflict == refusal_account(refusal, file)
            &&& failed.current is None
            &&& reported_error(failed_changed, Err(refusal)) == Some(refusal.message@)
        }),
{
}

/// What the toolbar is told is in flight: a fraction exactly when the status
/// is a reading in flight, and that reading's own fraction; nothing at all
/// when nothing was asked for, a document is on screen, or a reading failed.
pub proof fn only_a_reading_in_flight_has_a_fraction(status: StatusModel)
    ensures
        (status_fraction(status) is Some) <==> (status is Loading),
        match status {
            StatusModel::Loading { fraction, .. } => status_fraction(status) == Some(fraction),
            _ => status_fraction(status) is None,
        },
{
}

/// The account of a failed open keeps every blamed constraint, in the order
/// the refusal carried them: one entry per constraint, the i-th being that
/// constraint's identifier and its sentence; and there is an account exactly
/// when the refusal carried a conflict, naming the file and the sketch.
pub proof fn an_account_keeps_every_blamed_constraint_in_order(refusal: Refusal, file: Seq<char>)
    ensures
        (refusal_account(refusal, file) is Some) <==> (refusal.conflict is Some),
        refusal.conflict matches Some(facts) ==> ({
            let account = refusal_account(refusal, file)->0;
            &&& account.file == file
            &&& account.sketch == facts.sketch@
            &&& account.constraints.len() == facts.constraints@.len()
            &&& forall|i: int|
                0 <= i < facts.constraints@.len() ==> #[trigger] account.constraints[i] == (
                    facts.constraints@[i].id@,
                    constraint_sentence(facts.constraints@[i].rule),
                )
        }),
{
}

/// The per cent a line shows is within half a per cent of the fraction, and
/// a fraction of whole per cents shows exactly that many.
pub proof fn the_line_shows_the_nearest_per_cent(fraction: u32)
    ensures
        percent(fraction) * 100 <= fraction + 50,
        fraction <= percent(fraction) * 100 + 50,
        fraction % 100 == 0 ==> percent(fraction) * 100 == fraction,
{
}

/// Progress changes the line exactly when the generation is the one being
/// read and the fraction (capped at a whole reading, 10000) differs from the
/// one shown by at least half a per cent (50); then only the shown fraction
/// changes, to the capped one.
pub proof fn progress_changes_only_the_shown_fraction<R>(
    m: LoadsModel<R>,
    generation: LoadGeneration,
    fraction: u32,
)
    ensures
        ({
            let now: int = if fraction > 10000 { 10000 } else { fraction as int };
            let (after, changed) = after_progressed(m, generation, fraction);
            &&& changed <==> (m.status matches StatusModel::Loading {
                generation: waiting,
                fraction: shown,
                ..
            } && waiting == generation && (now - shown >= 50 || shown - now >= 50))
            &&& changed ==> (m.status matches StatusModel::Loading { file, .. }
                && after.status == StatusModel::Loading {
                generation,
                file,
                fraction: now as u32,
            })
            &&& changed ==> after.issued == m.issued && after.current == m.current && after.shown
                == m.shown && after.progress == m.progress && after.conflict == m.conflict
            &&& !changed ==> after == m
        }),
{
}

/// Giving up when nothing is being read changes nothing.
pub proof fn giving_up_on_nothing_changes_nothing<R>(m: LoadsModel<R>)
    requires
        m.current is None,
    ensures
        after_cancel_current(m) == (m, false),
{
}

/// What a line says: nothing asked for says "No document"; a document on
/// screen is named alone; a failure is the file, a colon and why; a reading
/// is "Opening", the file, and how far it has got.
pub proof fn what_a_line_says(status: StatusModel)
    ensures
        status is Idle ==> status_line(status) == "No document"@,
        status matches StatusModel::Ready { file } ==> status_line(status) == file,
        status matches StatusModel::Failed { file, message } ==> status_line(status) == file
            + ": "@ + message,
        status matches StatusModel::Loading { file, fraction, .. } ==> status_line(status)
            == "Opening "@ + file + "… "@ + decimal_text(percent(fraction)) + "%"@,
{
}

/// The value a text of decimal digits stands for.
pub open spec fn digits_value(digits: Seq<char>) -> int
    decreases digits.len(),
{
    if digits.len() == 0 {
        0
    } else {
        digits_value(digits.drop_last()) * 10 + (digits.last() as int - '0' as int)
    }
}

/// Whether every character of a text is a decimal digit.
pub open spec fn all_digits(digits: Seq<char>) -> bool {
    forall|i: int| 0 <= i < digits.len() ==> '0' <= #[trigger] digits[i] && digits[i] <= '9'
}

proof fn one_digit(d: nat)
    requires
        d < 10,
    ensures
        digit_text(d).len() == 1,
        digit_text(d)[0] as int - '0' as int == d,
        '0' <= digit_text(d)[0] && digit_text(d)[0] <= '9',
{
    reveal_strlit("0");
    reveal_strlit("1");
    reveal_strlit("2");
    reveal_strlit("3");
    reveal_strlit("4");
    reveal_strlit("5");
    reveal_strlit("6");
    reveal_strlit("7");
    reveal_strlit("8");
    reveal_strlit("9");
}

/// A number is written as decimal digits that stand for exactly that
/// number, with no leading zero.
pub proof fn a_number_is_written_as_its_digits(n: nat)
    ensures
        decimal_text(n).len() > 0,
        all_digits(decimal_text(n)),
        digits_value(decimal_text(n)) == n,
        n >= 10 ==> decimal_text(n)[0] != '0',
    decreases n,
{
    if n < 10 {
        one_digit(n);
        assert(decimal_text(n).drop_last() =~= Seq::<char>::empty());
        assert(decimal_text(n).last() == decimal_text(n)[0]);
        assert(digits_value(decimal_text(n).drop_last()) == 0);
    } else {
        a_number_is_written_as_its_digits(n / 10);
        one_digit(n % 10);
        let head = decimal_text(n / 10);
        let whole = decimal_text(n);
        assert(whole =~= head + digit_text(n % 10));
        assert(whole.drop_last() =~= head);
        assert(whole.last() == digit_text(n % 10)[0]);
        assert((n / 10) * 10 + n % 10 == n) by (nonlinear_arith);
        assert(digits_value(whole) == digits_value(head) * 10 + (whole.last() as int - '0' as int));
        if n / 10 >= 10 {
            assert(whole[0] == head[0]);
        } else {
            assert(n / 10 >= 1);
            one_digit(n / 10);
            assert(whole[0] == head[0]);
        }
        assert forall|i: int| 0 <= i < whole.len() implies '0' <= #[trigger] whole[i] && whole[i]
            <= '9' by {
            if i < head.len() {
                assert(whole[i] == head[i]);
            }
        }
    }
}

} // verus!

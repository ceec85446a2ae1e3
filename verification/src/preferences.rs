//! The preferences record, its fail-open loading rule and the text it is
//! stored as.

use vstd::prelude::*;
use vstd::string::*;
use crate::error::{step_result, ErrorKind, Failure};
use crate::text::{
    decimal, decimal_string, is_digit, lemma_decimal_digits, lemma_decimal_injective,
    lemma_digit_run_ends,
};

verus! {

/// How long to sit and how long to stand, in minutes. Any pair of values is
/// a valid record.
#[derive(Clone, Copy, Debug, PartialEq, Eq, Structural)]
pub struct Preferences {
    pub sit_time: u32,
    pub stand_time: u32,
}

/// The record used when none can be loaded: sit 25 minutes, stand 5.
pub open spec fn default_preferences() -> Preferences {
    Preferences { sit_time: 25, stand_time: 5 }
}

impl Default for Preferences {
    fn default() -> (p: Self)
        ensures
            p == default_preferences(),
    {
        Preferences { sit_time: 25, stand_time: 5 }
    }
}

/// Why a load fell back to the default record.
#[derive(Clone, Copy, Debug, PartialEq, Eq, Structural)]
pub enum DefaultReason {
    /// The file is absent or could not be read.
    Unreadable,
    /// The file was read but does not hold a preferences record.
    Malformed,
}

impl DefaultReason {
    /// The kind of error that a load masked by the default record.
    pub open spec fn masked(self) -> ErrorKind {
        match self {
            DefaultReason::Unreadable => ErrorKind::Io,
            DefaultReason::Malformed => ErrorKind::Serialization,
        }
    }

    /// The kind of error that a load masked by the default record: an I/O
    /// error for an unreadable file, a serialization error for a malformed one.
    pub fn kind(&self) -> (k: ErrorKind)
        ensures
            k == self.masked(),
    {
        match self {
            DefaultReason::Unreadable => ErrorKind::Io,
            DefaultReason::Malformed => ErrorKind::Serialization,
        }
    }
}

/// What a load found, before the reason for a fallback is dropped.
#[derive(Clone, Copy, Debug, PartialEq, Eq, Structural)]
pub enum LoadOutcome {
    Loaded(Preferences),
    DefaultedDueTo(DefaultReason),
}

impl LoadOutcome {
    /// The record that the caller of a load receives.
    pub open spec fn value(self) -> Preferences {
        match self {
            LoadOutcome::Loaded(p) => p,
            LoadOutcome::DefaultedDueTo(_) => default_preferences(),
        }
    }

    /// The record that the caller of a load receives: the loaded one, or the
    /// default whatever the reason.
    pub fn preferences(&self) -> (p: Preferences)
        ensures
            p == self.value(),
    {
        match self {
            LoadOutcome::Loaded(p) => *p,
            LoadOutcome::DefaultedDueTo(_) => Preferences::default(),
        }
    }
}

/// The outcome of a load, given what reading the file gave: `None` where
/// the file could not be read, `Some(None)` where its text holds no record,
/// `Some(Some(p))` where it holds the record `p`.
pub open spec fn outcome_of(read: Option<Option<Preferences>>) -> LoadOutcome {
    match read {
        None => LoadOutcome::DefaultedDueTo(DefaultReason::Unreadable),
        Some(None) => LoadOutcome::DefaultedDueTo(DefaultReason::Malformed),
        Some(Some(p)) => LoadOutcome::Loaded(p),
    }
}

/// Classifies what reading the file gave.
pub fn load_outcome(read: Option<Option<Preferences>>) -> (o: LoadOutcome)
    ensures
        o == outcome_of(read),
{
    match read {
        None => LoadOutcome::DefaultedDueTo(DefaultReason::Unreadable),
        Some(None) => LoadOutcome::DefaultedDueTo(DefaultReason::Malformed),
        Some(Some(p)) => LoadOutcome::Loaded(p),
    }
}

/// Loads fail-open: the stored record where there is one, the default record
/// where the file is missing, unreadable or malformed. Never an error.
pub fn load_preferences(read: Option<Option<Preferences>>) -> (p: Preferences)
    ensures
        p == outcome_of(read).value(),
        read matches Some(Some(stored)) ==> p == stored,
        !(read matches Some(Some(_))) ==> p == default_preferences(),
{
    load_outcome(read).preferences()
}

/// The text a record is stored as: a JSON object with the two fields in
/// this order, no white space, each value as a decimal numeral.
pub open spec fn stored_text(p: Preferences) -> Seq<char> {
    "{\"sit_time\":"@ + decimal(p.sit_time as nat) + ",\"stand_time\":"@ + decimal(
        p.stand_time as nat,
    ) + "}"@
}

impl Preferences {
    /// Writes the record as its stored text.
    pub fn to_json(&self) -> (s: String)
        ensures
            s@ == stored_text(*self),
    {
        let sit = decimal_string(self.sit_time);
        let stand = decimal_string(self.stand_time);
        let mut s = String::from_str("{\"sit_time\":");
        s.append(sit.as_str());
        s.append(",\"stand_time\":");
        s.append(stand.as_str());
        s.append("}");
        s
    }
}

/// A save that has its text ready and waits for the file to be written.
#[derive(Debug)]
pub struct PendingSave {
    /// The whole new content of the preferences file.
    pub contents: String,
}

/// Starts a save of the two values, whatever they are: the file is to be
/// replaced by the stored text of the record they make.
pub fn save_preferences(sit_time: u32, stand_time: u32) -> (save: PendingSave)
    ensures
        save.contents@ == stored_text(Preferences { sit_time, stand_time }),
{
    let record = Preferences { sit_time, stand_time };
    PendingSave { contents: record.to_json() }
}

impl PendingSave {
    /// Ends the save with what writing the file gave: success, or an I/O
    /// failure with the writer's message.
    pub fn written(self, outcome: Result<(), String>) -> (r: Result<(), Failure>)
        ensures
            outcome is Ok <==> r is Ok,
            outcome is Err ==> r->Err_0.kind == ErrorKind::Io && r->Err_0.message@
                == outcome->Err_0@,
    {
        step_result(ErrorKind::Io, outcome)
    }
}

/// The content of the preferences file after a successful save of `p`,
/// whatever it held before (`None` for no file).
pub open spec fn file_after_save(before: Option<Seq<char>>, p: Preferences) -> Option<Seq<char>> {
    Some(stored_text(p))
}

/// Saving the same record twice leaves the file as the first save left it.
pub proof fn lemma_save_idempotent(before: Option<Seq<char>>, p: Preferences)
    ensures
        file_after_save(file_after_save(before, p), p) == file_after_save(before, p),
{
}

/// Of two saves one after the other, the file holds the text of the second
/// alone: nothing of the first is left in it.
pub proof fn lemma_last_save_wins(before: Option<Seq<char>>, first: Preferences, second: Preferences)
    ensures
        file_after_save(file_after_save(before, first), second) == Some(stored_text(second)),
{
}

/// What reading the file gives, for a reader that finds in a text the
/// record `reads(text)`: nothing where there is no file, else what the
/// reader finds.
pub open spec fn read_with(
    reads: spec_fn(Seq<char>) -> Option<Preferences>,
    file: Option<Seq<char>>,
) -> Option<Option<Preferences>> {
    match file {
        None => None,
        Some(text) => Some(reads(text)),
    }
}

/// With a reader that finds in the stored text of `p` the record `p`, a load
/// after a successful save of `p` returns `p`, whatever the file held before.
pub proof fn lemma_load_after_save_with_reader(
    reads: spec_fn(Seq<char>) -> Option<Preferences>,
    before: Option<Seq<char>>,
    p: Preferences,
)
    requires
        reads(stored_text(p)) == Some(p),
    ensures
        outcome_of(read_with(reads, file_after_save(before, p))).value() == p,
{
}

/// The stored text tells the record: two records with the same stored text
/// are the same record. So the file that a save wrote stands for the values
/// that were saved and for no others.
pub proof fn lemma_stored_text_injective(p: Preferences, q: Preferences)
    requires
        stored_text(p) == stored_text(q),
    ensures
        p == q,
{
    reveal_strlit("{\"sit_time\":");
    reveal_strlit(",\"stand_time\":");
    reveal_strlit("}");
    let open = "{\"sit_time\":"@;
    let middle = ",\"stand_time\":"@;
    let close = "}"@;
    let (ps, pt) = (decimal(p.sit_time as nat), decimal(p.stand_time as nat));
    let (qs, qt) = (decimal(q.sit_time as nat), decimal(q.stand_time as nat));
    lemma_decimal_digits(p.sit_time as nat);
    lemma_decimal_digits(p.stand_time as nat);
    lemma_decimal_digits(q.sit_time as nat);
    lemma_decimal_digits(q.stand_time as nat);
    let p_rest = middle + pt + close;
    let q_rest = middle + qt + close;
    let n = open.len() as int;
    assert(ps + p_rest =~= stored_text(p).subrange(n, stored_text(p).len() as int));
    assert(qs + q_rest =~= stored_text(q).subrange(n, stored_text(q).len() as int));
    assert(p_rest[0] == ',' && q_rest[0] == ',');
    assert(!is_digit(','));
    lemma_digit_run_ends(ps, p_rest, qs, q_rest);
    let m = middle.len() as int;
    assert(pt + close =~= p_rest.subrange(m, p_rest.len() as int));
    assert(qt + close =~= q_rest.subrange(m, q_rest.len() as int));
    assert(close[0] == '}');
    assert(!is_digit('}'));
    lemma_digit_run_ends(pt, close, qt, close);
    lemma_decimal_injective(p.sit_time as nat, q.sit_time as nat);
    lemma_decimal_injective(p.stand_time as nat, q.stand_time as nat);
}

} // verus!

//! The state of the entry form, its two steps on the store, and what each
//! answer of the store does to it.
//!
//! The shell that draws the form calls [`Form::save`] and [`Form::fetch`];
//! they run the store, decide the next state and say what the shell does next.

use vstd::prelude::*;
use vstd::string::StringExecFns;
use crate::error::{Fault, StorageError};
use crate::record::{Record, RecordId, RecordView};
use crate::store::RecordStore;

verus! {

/// Whether a failed write or read ends the program or is shown and survived.
#[derive(Clone, Copy, Debug, PartialEq, Eq, Structural)]
pub enum FailurePolicy {
    /// Every storage failure ends the program with a diagnostic.
    Abort,
    /// A failed write or read is shown as a status line; the program goes on.
    Recover,
}

/// What the shell does after an outcome has been applied to the form.
#[derive(Clone, Copy, Debug, PartialEq, Eq, Structural)]
pub enum Reaction {
    /// Redraw the form and go on.
    Continue,
    /// Open the window that lists the entries of the form.
    ShowEntries,
    /// End the program, with the form's status line as the diagnostic.
    Abort,
}

/// A failure of kind `fault` ends the program under `policy`: always when the
/// database could not be opened or its schema created, and for a failed write
/// or read exactly under [`FailurePolicy::Abort`].
pub open spec fn is_fatal(policy: FailurePolicy, fault: Fault) -> bool {
    fault == Fault::Open || fault == Fault::Create || policy == FailurePolicy::Abort
}

/// What the shell does about a failure of kind `fault` under `policy`.
pub open spec fn reaction_to(policy: FailurePolicy, fault: Fault) -> Reaction {
    if is_fatal(policy, fault) {
        Reaction::Abort
    } else {
        Reaction::Continue
    }
}

/// What the shell does after a save that ended with `outcome`: go on after a
/// save, and after a failure what `policy` asks.
pub open spec fn save_reaction(outcome: Result<RecordId, StorageError>, policy: FailurePolicy) -> Reaction {
    match outcome {
        Ok(_) => Reaction::Continue,
        Err(e) => reaction_to(policy, e.kind),
    }
}

/// What the shell does after a fetch that ended with `outcome`: show the
/// entries after a fetch, and after a failure what `policy` asks.
pub open spec fn fetch_reaction(outcome: Result<Vec<Record>, StorageError>, policy: FailurePolicy) -> Reaction {
    match outcome {
        Ok(_) => Reaction::ShowEntries,
        Err(e) => reaction_to(policy, e.kind),
    }
}

/// The status line after a successful save.
pub open spec fn saved_text() -> Seq<char> {
    "Quark saved"@
}

/// Decides whether a failure of kind `fault` ends the program under `policy`.
pub fn fatal(policy: FailurePolicy, fault: Fault) -> (b: bool)
    ensures
        b == is_fatal(policy, fault),
{
    match fault {
        Fault::Open => true,
        Fault::Create => true,
        _ => match policy {
            FailurePolicy::Abort => true,
            FailurePolicy::Recover => false,
        },
    }
}

/// The entry form: the text being typed, the status line, and the entries
/// fetched last.
#[derive(Debug)]
pub struct Form {
    pub input_text: String,
    pub info_text: String,
    pub entries: Vec<Record>,
}

/// What a form is, in contracts.
pub ghost struct FormView {
    pub input_text: Seq<char>,
    pub info_text: Seq<char>,
    pub entries: Seq<RecordView>,
}

impl View for Form {
    type V = FormView;

    open spec fn view(&self) -> FormView {
        FormView {
            input_text: self.input_text@,
            info_text: self.info_text@,
            entries: Seq::new(self.entries@.len(), |i: int| self.entries@[i]@),
        }
    }
}

impl FormView {
    /// The form after a save ended with `outcome`: saved, the status line says
    /// so and the input is empty again; failed, the status line is the error's
    /// message and the input stays. The entries stay either way.
    pub open spec fn after_save(self, outcome: Result<RecordId, StorageError>) -> FormView {
        match outcome {
            Ok(_) => FormView { input_text: Seq::empty(), info_text: saved_text(), ..self },
            Err(e) => FormView { info_text: e.message_text(), ..self },
        }
    }

    /// The form after a fetch ended with `outcome`: fetched, the entries are
    /// the fetched records; failed, the status line is the error's message and
    /// the entries stay. The input stays either way.
    pub open spec fn after_fetch(self, outcome: Result<Vec<Record>, StorageError>) -> FormView {
        match outcome {
            Ok(records) => FormView {
                entries: Seq::new(records@.len(), |i: int| records@[i]@),
                ..self
            },
            Err(e) => FormView { info_text: e.message_text(), ..self },
        }
    }
}

impl Form {
    /// The form at startup: nothing typed, no status, no entries.
    pub fn new() -> (form: Form)
        ensures
            form@.input_text == Seq::<char>::empty(),
            form@.info_text == Seq::<char>::empty(),
            form@.entries == Seq::<RecordView>::empty(),
    {
        Form { input_text: String::new(), info_text: String::new(), entries: Vec::new() }
    }

    /// Saves the typed text: inserts it into `store` as it stands, created now,
    /// and then applies the outcome as [`Form::on_saved`] does. Whatever the
    /// store answered, the form and the reaction are those of that answer, and
    /// a failure is a write error.
    pub fn save(&mut self, store: &RecordStore, policy: FailurePolicy) -> (next: Reaction)
        ensures
            exists|outcome: Result<RecordId, StorageError>|
                final(self)@ == #[trigger] old(self)@.after_save(outcome)
                    && next == save_reaction(outcome, policy)
                    && (outcome matches Err(e) ==> e.kind == Fault::Write),
            final(self)@.entries == old(self)@.entries,
    {
        let outcome = store.insert(self.input_text.as_str());
        let ghost answered = outcome;
        let next = self.on_saved(outcome, policy);
        assert(final(self)@ == old(self)@.after_save(answered));
        next
    }

    /// Fetches the entries: lists all of `store` and then applies the outcome
    /// as [`Form::on_fetched`] does. Whatever the store answered, the form and
    /// the reaction are those of that answer, and a failure is a read error.
    pub fn fetch(&mut self, store: &RecordStore, policy: FailurePolicy) -> (next: Reaction)
        ensures
            exists|outcome: Result<Vec<Record>, StorageError>|
                final(self)@ == #[trigger] old(self)@.after_fetch(outcome)
                    && next == fetch_reaction(outcome, policy)
                    && (outcome matches Err(e) ==> e.kind == Fault::Read),
            final(self)@.input_text == old(self)@.input_text,
    {
        let outcome = store.list_all();
        let ghost answered = outcome;
        let next = self.on_fetched(outcome, policy);
        assert(final(self)@ == old(self)@.after_fetch(answered));
        next
    }

    /// Applies the outcome of saving the typed text, and says what the shell
    /// does next: go on after a save, and after a failure what `policy` asks.
    pub fn on_saved(&mut self, outcome: Result<RecordId, StorageError>, policy: FailurePolicy) -> (next: Reaction)
        ensures
            final(self)@ == old(self)@.after_save(outcome),
            final(self)@.entries == old(self)@.entries,
            outcome is Err ==> final(self)@.input_text == old(self)@.input_text,
            next == save_reaction(outcome, policy),
    {
        match outcome {
            Ok(_) => {
                self.info_text = String::from_str("Quark saved");
                self.input_text = String::new();
                Reaction::Continue
            },
            Err(e) => {
                self.info_text = e.message();
                if fatal(policy, e.kind) {
                    Reaction::Abort
                } else {
                    Reaction::Continue
                }
            },
        }
    }

    /// Applies the outcome of fetching the entries, and says what the shell
    /// does next: show them after a fetch, and after a failure what `policy`
    /// asks.
    pub fn on_fetched(&mut self, outcome: Result<Vec<Record>, StorageError>, policy: FailurePolicy) -> (next: Reaction)
        ensures
            final(self)@ == old(self)@.after_fetch(outcome),
            final(self)@.input_text == old(self)@.input_text,
            outcome is Err ==> final(self)@.entries == old(self)@.entries,
            next == fetch_reaction(outcome, policy),
    {
        match outcome {
            Ok(records) => {
                self.entries = records;
                Reaction::ShowEntries
            },
            Err(e) => {
                self.info_text = e.message();
                if fatal(policy, e.kind) {
                    Reaction::Abort
                } else {
                    Reaction::Continue
                }
            },
        }
    }
}

} // verus!

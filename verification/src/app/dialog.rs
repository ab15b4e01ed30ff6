//! The questions and reports laid over the screen, and the words of the notices
//! that follow them.
use crate::action::{AnswerWords, Answers};
use crate::data::{Effect, Write};
use crate::text::{count_text, decimal, joined, joined3, number_text, Text};
use vstd::prelude::*;

verus! {

/// The title a question about the frozen row carries. Fixed, so what a dialog is
/// stays legible when its text is the store's own and no browser word introduces
/// it.
pub const CONFIRM_TITLE: &'static str = " confirm ";

/// See [`CONFIRM_TITLE`].
pub const REFUSAL_TITLE: &'static str = " the store refused the change ";

/// See [`CONFIRM_TITLE`]. A conflict is a question rather than a report: the
/// entity moved on under the open buffer, and only the reader can say whether
/// what they wrote should replace what landed.
pub const CONFLICT_TITLE: &'static str = " the entity changed while you were editing ";

/// See [`CONFIRM_TITLE`].
pub const REQUIRED_TITLE: &'static str = " a required field is empty ";

/// See [`CONFIRM_TITLE`]. A value the *browser* will not send, as against one the
/// store refuses.
pub const REJECTED_TITLE: &'static str = " that value cannot be used ";

/// See [`CONFIRM_TITLE`]. An editor that will not run is the browser's failure to
/// report and not the store's.
pub const EDITOR_TITLE: &'static str = " the editor could not run ";

/// See [`CONFIRM_TITLE`]. A store that was opened and then could not be read in
/// part is reported and browsed on.
pub const UNREADABLE_TITLE: &'static str = " part of the store could not be read ";

/// What the field offering a cascade is called.
pub open spec fn cascade_question(open_descendants: nat) -> Text {
    if open_descendants == 1 {
        "also close 1 open descendant"@
    } else {
        "also close "@ + decimal(open_descendants) + " open descendants"@
    }
}

/// What the field offering a cascade is called: the question it asks, with the
/// number of nodes it would close in it.
///
/// The count is in the label rather than in a notice, because it is the whole of
/// what the reader is deciding about — and it is what the plan said when the
/// surface opened, which the store may recompute under the lock.
pub fn cascade_label(open_descendants: usize) -> (r: String)
    ensures
        r@ == cascade_question(open_descendants as nat),
{
    if open_descendants == 1 {
        "also close 1 open descendant".to_owned()
    } else {
        joined3("also close ", &count_text(open_descendants), " open descendants")
    }
}

/// What a notice says once the write it reports has run.
pub open spec fn report_of(done: Text, effect: Effect<Text>) -> Text {
    match effect {
        Effect::AsAsked => done,
        Effect::AlreadyListed(reference) => "blocker "@ + reference + " is already listed"@,
        Effect::AlsoClosed(count) => if count == 1 {
            done + ", and 1 descendant with it"@
        } else {
            done + ", and "@ + decimal(count as nat) + " descendants with it"@
        },
        Effect::Commented(id) => done + ", numbered "@ + decimal(id as nat),
        Effect::Created(reference) => done + " as "@ + reference,
    }
}

/// What a notice says once the write it reports has run: the words the surface
/// chose, finished with whatever only the store could say.
///
/// It names the row and how many went with it rather than every reference: the
/// strip holds one line, and the reloaded tree already shows which rows moved.
pub fn reported(done: String, effect: Effect) -> (r: String)
    ensures
        r@ == report_of(done@, effect@),
{
    match effect {
        Effect::AsAsked => done,
        Effect::AlreadyListed(reference) => joined3("blocker ", &reference, " is already listed"),
        Effect::AlsoClosed(count) => if count == 1 {
            joined(&done, ", and 1 descendant with it")
        } else {
            joined(&joined3(&done, ", and ", &count_text(count)), " descendants with it")
        },
        Effect::Commented(id) => joined3(&done, ", numbered ", &number_text(id)),
        Effect::Created(reference) => joined3(&done, " as ", &reference),
    }
}

/// What a dialog's affirmative answer performs.
///
/// Invariant: every consequence an answer can have is a variant here, so the one
/// place a dialog is answered performs whatever the dialog carried and names no
/// operation itself.
#[derive(Debug, PartialEq, Eq)]
#[verifier::ext_equal]
pub enum Performs<S = String> {
    /// A change to the store, with what the notice says once it is committed.
    Write {
        /// The change.
        write: Write<S>,
        /// What the notice says once it is committed.
        done: S,
    },
    /// Throw the open surface away, the text in it included. Nothing reaches the
    /// store.
    Discard,
}

impl View for Performs {
    type V = Performs<Text>;

    open spec fn view(&self) -> Performs<Text> {
        match self {
            Performs::Write { write, done } => Performs::Write { write: write@, done: done@ },
            Performs::Discard => Performs::Discard,
        }
    }
}

impl Clone for Performs {
    fn clone(&self) -> (r: Self)
        ensures
            r == *self,
    {
        match self {
            Performs::Write { write, done } => Performs::Write {
                write: write.clone(),
                done: done.clone(),
            },
            Performs::Discard => Performs::Discard,
        }
    }
}

/// A dialog's affirmative answer: what it is called, and what it performs.
///
/// The word travels with the answer because the answer set decides only which
/// keys are bound: the destructive letter removes a label on one dialog and
/// throws a buffer away on another.
#[derive(Debug, PartialEq, Eq)]
#[verifier::ext_equal]
pub struct Answer<S = String, T = &'static str> {
    /// What going ahead is called.
    pub word: T,
    /// What going ahead performs.
    pub performs: Performs<S>,
}

impl Clone for Answer {
    fn clone(&self) -> (r: Self)
        ensures
            r == *self,
    {
        Answer { word: self.word, performs: self.performs.clone() }
    }
}

impl View for Answer {
    type V = Answer<Text, Text>;

    open spec fn view(&self) -> Answer<Text, Text> {
        Answer { word: self.word@, performs: self.performs@ }
    }
}

/// What dismissing a dialog performs, over and above the dialog going away.
///
/// Invariant: dismissal is unconditional, so nothing here is a condition on getting
/// out; it is only where the reader lands once they have.
#[derive(Clone, Copy, Debug, PartialEq, Eq, Structural)]
pub enum OnDismissal {
    /// Land back in the field the dialog named.
    Focus(usize),
}

/// A dialog's way out: what it is called, and what the reader lands in.
#[derive(Debug, PartialEq, Eq)]
#[verifier::ext_equal]
pub struct Dismissal<T = &'static str> {
    /// What getting out is called.
    pub word: T,
    /// What dismissal performs besides closing the dialog, and `None` where
    /// landing back exactly where the reader was is the whole of it.
    pub performs: Option<OnDismissal>,
}

impl Clone for Dismissal {
    fn clone(&self) -> (r: Self)
        ensures
            r == *self,
    {
        Dismissal { word: self.word, performs: self.performs }
    }
}

impl View for Dismissal {
    type V = Dismissal<Text>;

    open spec fn view(&self) -> Dismissal<Text> {
        Dismissal { word: self.word@, performs: self.performs }
    }
}

/// A dialog: what it says, how it may be answered, what its answers are called,
/// and what each of them performs.
///
/// Invariant: it has an affirmative answer exactly where its answer set has an
/// intent that goes ahead, so a dialog can neither list a key it does not admit nor
/// be answered when it only reports.
#[derive(Debug, PartialEq, Eq)]
#[verifier::ext_equal]
pub struct Dialog<S = String, T = &'static str> {
    /// The fixed title that says what kind of dialog this is.
    pub title: T,
    /// What it asks or reports.
    pub message: S,
    /// The set of answers it admits.
    pub answers: Answers,
    /// The affirmative answer, and `None` for a dialog that only reports.
    pub affirmative: Option<Answer<S, T>>,
    /// The way out. Every dialog has one.
    pub dismissal: Dismissal<T>,
}

/// A dialog by what it says and carries.
pub type DialogModel = Dialog<Text, Text>;

impl Clone for Dialog {
    fn clone(&self) -> (r: Self)
        ensures
            r == *self,
    {
        Dialog {
            title: self.title,
            message: self.message.clone(),
            answers: self.answers,
            affirmative: match &self.affirmative {
                Some(answer) => Some(answer.clone()),
                None => None,
            },
            dismissal: self.dismissal.clone(),
        }
    }
}

impl View for Dialog {
    type V = DialogModel;

    open spec fn view(&self) -> DialogModel {
        Dialog {
            title: self.title@,
            message: self.message@,
            answers: self.answers,
            affirmative: match self.affirmative {
                Some(answer) => Some(answer@),
                None => None,
            },
            dismissal: self.dismissal@,
        }
    }
}

impl DialogModel {
    /// Whether it has an answer exactly where its set has an intent to give it by.
    pub open spec fn wf(self) -> bool {
        self.affirmative is Some <==> self.answers.goes_ahead() is Some
    }

    /// A destructive question.
    pub open spec fn asking(
        question: Text,
        word: Text,
        performs: Performs<Text>,
        dismissal: Text,
    ) -> DialogModel {
        Dialog {
            title: CONFIRM_TITLE@,
            message: question,
            answers: Answers::Destructive,
            affirmative: Some(Answer { word, performs }),
            dismissal: Dismissal { word: dismissal, performs: None },
        }
    }

    /// The warning the way out raises on a buffer with typing in it.
    pub open spec fn discarding(field: Text) -> DialogModel {
        DialogModel::asking(
            "Discard changes to "@ + field + "?"@,
            "discard"@,
            Performs::Discard,
            "keep editing"@,
        )
    }

    /// A report with nothing to answer.
    pub open spec fn reporting(
        title: Text,
        message: Text,
        dismissal: Dismissal<Text>,
    ) -> DialogModel {
        Dialog {
            title,
            message,
            answers: Answers::Acknowledge,
            affirmative: None,
            dismissal,
        }
    }

    /// The question a write refused for a stale precondition raises.
    pub open spec fn conflicting(reference: Text, write: Write<Text>, done: Text) -> DialogModel {
        Dialog {
            title: CONFLICT_TITLE@,
            message: reference
                + " changed since this buffer was opened. Writing now replaces that change; nothing has been written yet."@,
            answers: Answers::Conflict,
            affirmative: Some(
                Answer {
                    word: "overwrite anyway"@,
                    performs: Performs::Write { write: write.spec_overwriting(), done },
                },
            ),
            dismissal: Dismissal { word: "back to the buffer"@, performs: None },
        }
    }

    /// A refusal, in the store's own words.
    pub open spec fn refusing(message: Text) -> DialogModel {
        DialogModel::reporting(
            REFUSAL_TITLE@,
            message,
            Dismissal { word: "dismiss"@, performs: None },
        )
    }

    /// The warning about an empty required field.
    pub open spec fn requiring(field: Text, index: usize) -> DialogModel {
        DialogModel::reporting(
            REQUIRED_TITLE@,
            field + " is required."@,
            Dismissal { word: "back to the field"@, performs: Some(OnDismissal::Focus(index)) },
        )
    }

    /// The warning about a value the browser will not send.
    pub open spec fn rejecting(why: Text, index: usize) -> DialogModel {
        DialogModel::reporting(
            REJECTED_TITLE@,
            why,
            Dismissal { word: "back to the field"@, performs: Some(OnDismissal::Focus(index)) },
        )
    }

    /// The report that an external editor could not run.
    pub open spec fn without_an_editor(message: Text) -> DialogModel {
        DialogModel::reporting(
            EDITOR_TITLE@,
            message,
            Dismissal { word: "back to the field"@, performs: None },
        )
    }

    /// The report that a part of the store could not be read.
    pub open spec fn unreadable(message: Text) -> DialogModel {
        DialogModel::reporting(
            UNREADABLE_TITLE@,
            message,
            Dismissal { word: "dismiss"@, performs: None },
        )
    }

    /// What the dialog calls its own answers.
    pub open spec fn spec_words(self) -> AnswerWords<Text> {
        AnswerWords {
            affirmative: match self.affirmative {
                Some(answer) => Some(answer.word),
                None => None,
            },
            dismissal: self.dismissal.word,
        }
    }
}

impl Dialog {
    /// A destructive question: the word its answer goes by, what that answer
    /// performs, and the word for getting out instead.
    ///
    /// Every deletion is gated behind one of these, and so is throwing a buffer
    /// away: one rule a reader can predict beats a per-action judgement they have
    /// to remember.
    pub fn confirm(
        question: String,
        word: &'static str,
        performs: Performs,
        dismissal: &'static str,
    ) -> (r: Self)
        ensures
            r@ == DialogModel::asking(question@, word@, performs@, dismissal@),
            r@.wf(),
    {
        Dialog {
            title: CONFIRM_TITLE,
            message: question,
            answers: Answers::Destructive,
            affirmative: Some(Answer { word, performs }),
            dismissal: Dismissal { word: dismissal, performs: None },
        }
    }

    /// The warning the way out raises on a buffer with typing in it. It names the
    /// field, because the float covers the frozen row and a buffer carries no
    /// label near it.
    pub fn discard(field: &str) -> (r: Self)
        ensures
            r@ == DialogModel::discarding(field@),
            r@.wf(),
    {
        Dialog::confirm(
            joined3("Discard changes to ", field, "?"),
            "discard",
            Performs::Discard,
            "keep editing",
        )
    }

    /// A report with nothing to answer: the reader is being told, not asked, so
    /// the only way out is the way out, and it may carry where to land.
    pub fn report(title: &'static str, message: String, dismissal: Dismissal) -> (r: Self)
        ensures
            r@ == DialogModel::reporting(title@, message@, dismissal@),
            r@.wf(),
    {
        Dialog {
            title,
            message,
            answers: Answers::Acknowledge,
            affirmative: None,
            dismissal,
        }
    }

    /// The question a write refused for a stale precondition raises: the entity
    /// moved on since the buffer was opened, so writing now replaces whatever
    /// landed.
    ///
    /// Both answers lose something, so neither is a default — the way out keeps
    /// the buffer and decides nothing. It names the entity, because the buffer
    /// covers the pane and the frozen row is dim beside it. What going ahead writes
    /// is the write without the precondition it was refused for.
    pub fn conflict(reference: &str, write: Write, done: String) -> (r: Self)
        ensures
            r@ == DialogModel::conflicting(reference@, write@, done@),
            r@.wf(),
    {
        Dialog {
            title: CONFLICT_TITLE,
            message: joined(
                reference,
                " changed since this buffer was opened. Writing now replaces that change; nothing has been written yet.",
            ),
            answers: Answers::Conflict,
            affirmative: Some(
                Answer {
                    word: "overwrite anyway",
                    performs: Performs::Write { write: write.overwriting(), done },
                },
            ),
            dismissal: Dismissal { word: "back to the buffer", performs: None },
        }
    }

    /// A refusal, in the store's own words.
    pub fn refusal(message: String) -> (r: Self)
        ensures
            r@ == DialogModel::refusing(message@),
            r@.wf(),
    {
        Dialog::report(
            REFUSAL_TITLE,
            message,
            Dismissal { word: "dismiss", performs: None },
        )
    }

    /// The warning a surface accepted with an empty required field raises instead
    /// of writing. It names the field, and dismissing it lands there.
    pub fn required(field: &str, index: usize) -> (r: Self)
        ensures
            r@ == DialogModel::requiring(field@, index),
            r@.wf(),
    {
        Dialog::report(
            REQUIRED_TITLE,
            joined(field, " is required."),
            Dismissal { word: "back to the field", performs: Some(OnDismissal::Focus(index)) },
        )
    }

    /// The warning a surface accepted with a value the browser itself will not
    /// send raises instead of writing. It carries the browser's own rule in the
    /// browser's own words, under a title of its own, and dismissing it lands in
    /// the offending field.
    pub fn rejected(why: String, index: usize) -> (r: Self)
        ensures
            r@ == DialogModel::rejecting(why@, index),
            r@.wf(),
    {
        Dialog::report(
            REJECTED_TITLE,
            why,
            Dismissal { word: "back to the field", performs: Some(OnDismissal::Focus(index)) },
        )
    }

    /// The fixed title that says what kind of dialog this is, since the text in it
    /// may be the store's own and introduces itself with nothing.
    pub fn title(&self) -> (r: &str)
        ensures
            r@ == self@.title,
    {
        self.title
    }

    /// What the dialog asks or reports.
    pub fn message(&self) -> (r: &str)
        ensures
            r@ == self@.message,
    {
        &self.message
    }

    /// The set of answers it admits, which is also the set of keys it lists.
    pub fn answers(&self) -> (r: Answers)
        ensures
            r == self@.answers,
    {
        self.answers
    }

    /// What this dialog calls its own answers, for the key map to pair with the
    /// letters. The affirmative word is present exactly when there is an answer to
    /// word.
    pub fn words(&self) -> (r: AnswerWords)
        ensures
            r@ == self@.spec_words(),
    {
        AnswerWords {
            affirmative: match &self.affirmative {
                Some(answer) => Some(answer.word),
                None => None,
            },
            dismissal: self.dismissal.word,
        }
    }
}

/// An overlay that takes the keyboard while it is open.
///
/// One at a time, and nesting stops here: a dialog is always answer-or-dismiss and
/// can never itself raise another.
#[derive(Debug, PartialEq, Eq)]
#[verifier::ext_equal]
pub enum Modal<D = Box<Dialog>> {
    /// The key-binding overlay.
    Help,
    /// A dialog. One widget carries every question and every report.
    Dialog(D),
}

impl Clone for Modal {
    fn clone(&self) -> (r: Self)
        ensures
            r == *self,
    {
        match self {
            Modal::Help => Modal::Help,
            Modal::Dialog(dialog) => Modal::Dialog(Box::new((**dialog).clone())),
        }
    }
}

impl View for Modal {
    type V = Modal<DialogModel>;

    open spec fn view(&self) -> Modal<DialogModel> {
        match self {
            Modal::Help => Modal::Help,
            Modal::Dialog(dialog) => Modal::Dialog(dialog@),
        }
    }
}

/// A dialog words an affirmative answer exactly where its set admits one, so it can
/// never list a key it does not answer.
pub proof fn a_dialog_words_exactly_the_answers_it_admits(dialog: DialogModel)
    requires
        dialog.wf(),
    ensures
        dialog.spec_words().affirmative is Some <==> dialog.answers.goes_ahead() is Some,
{
}

/// What overwriting a conflict writes names no precondition, so the answer cannot
/// be refused for the reason the question was raised for; the target is the one
/// the refused write named.
pub proof fn an_overwrite_cannot_conflict(reference: Text, write: Write<Text>, done: Text)
    ensures
        DialogModel::conflicting(reference, write, done).affirmative matches Some(answer)
            && answer.performs matches Performs::Write { write: again, done: worded }
            && again.precondition() is None && again.spec_target() == write.spec_target()
            && worded == done,
{
}

/// The question of a cascade counts what it would close, one descendant as one.
pub proof fn a_cascade_is_asked_with_its_count(count: nat)
    ensures
        cascade_question(1) == "also close 1 open descendant"@,
        count != 1 ==> cascade_question(count) == "also close "@ + decimal(count)
            + " open descendants"@,
{
}

/// A notice says what the surface said, finished with what only the store could say: the
/// reference of what was created, the number of a comment, how many descendants went with
/// a close; and a blocker that was listed already is reported as that.
pub proof fn a_notice_is_finished_by_the_store(done: Text, reference: Text, count: usize, id: u64)
    ensures
        report_of(done, Effect::AsAsked) == done,
        report_of(done, Effect::Created(reference)) == done + " as "@ + reference,
        report_of(done, Effect::Commented(id)) == done + ", numbered "@ + decimal(id as nat),
        report_of(done, Effect::AlsoClosed(1)) == done + ", and 1 descendant with it"@,
        count != 1 ==> report_of(done, Effect::AlsoClosed(count)) == done + ", and "@ + decimal(
            count as nat,
        ) + " descendants with it"@,
        report_of(done, Effect::AlreadyListed(reference)) == "blocker "@ + reference
            + " is already listed"@,
{
}

/// Each question says what it asks, is answered by its own letter and performs what it
/// was raised for: a deletion the write it carries, leaving a buffer its discarding and
/// nothing else, a conflict the same write without its stamp.
pub proof fn each_question_performs_what_it_was_raised_for(
    question: Text,
    word: Text,
    performs: Performs<Text>,
    dismissal: Text,
    field: Text,
    reference: Text,
    write: Write<Text>,
    done: Text,
)
    ensures
        DialogModel::asking(question, word, performs, dismissal) == (Dialog {
            title: " confirm "@,
            message: question,
            answers: Answers::Destructive,
            affirmative: Some(Answer { word, performs }),
            dismissal: Dismissal { word: dismissal, performs: None },
        }),
        DialogModel::discarding(field) == (Dialog {
            title: " confirm "@,
            message: "Discard changes to "@ + field + "?"@,
            answers: Answers::Destructive,
            affirmative: Some(Answer { word: "discard"@, performs: Performs::Discard }),
            dismissal: Dismissal { word: "keep editing"@, performs: None },
        }),
        ({
            let asked = DialogModel::conflicting(reference, write, done);
            &&& asked.title == " the entity changed while you were editing "@
            &&& asked.message == reference
                + " changed since this buffer was opened. Writing now replaces that change; nothing has been written yet."@
            &&& asked.answers == Answers::Conflict
            &&& asked.dismissal == (Dismissal { word: "back to the buffer"@, performs: None })
            &&& asked.affirmative matches Some(answer) && {
                &&& answer.word == "overwrite anyway"@
                &&& answer.performs matches Performs::Write { write: again, done: said } && {
                    &&& said == done
                    &&& write matches Write::Replace { target, field, value, .. } ==> again
                        == (Write::Replace { target, field, value, expect: None })
                    &&& !(write is Replace) ==> again == write
                }
            }
        }),
{
}

/// Each report says what happened under its own title, has nothing to answer, and lands
/// the reader in the field it is about, where it is about one.
pub proof fn each_report_lands_where_it_is_about(message: Text, field: Text, index: usize)
    ensures
        ({
            let report = |title: Text, said: Text, word: Text, performs: Option<OnDismissal>|
                Dialog {
                    title,
                    message: said,
                    answers: Answers::Acknowledge,
                    affirmative: None::<Answer<Text, Text>>,
                    dismissal: Dismissal { word, performs },
                };
            &&& DialogModel::refusing(message) == report(
                " the store refused the change "@,
                message,
                "dismiss"@,
                None,
            )
            &&& DialogModel::requiring(field, index) == report(
                " a required field is empty "@,
                field + " is required."@,
                "back to the field"@,
                Some(OnDismissal::Focus(index)),
            )
            &&& DialogModel::rejecting(message, index) == report(
                " that value cannot be used "@,
                message,
                "back to the field"@,
                Some(OnDismissal::Focus(index)),
            )
            &&& DialogModel::without_an_editor(message) == report(
                " the editor could not run "@,
                message,
                "back to the field"@,
                None,
            )
            &&& DialogModel::unreadable(message) == report(
                " part of the store could not be read "@,
                message,
                "dismiss"@,
                None,
            )
        }),
{
}

/// A dialog's answers go by the words it gives them.
pub proof fn a_dialogs_answers_go_by_its_own_words(dialog: DialogModel)
    ensures
        dialog.spec_words().dismissal == dialog.dismissal.word,
        dialog.affirmative matches Some(answer) ==> dialog.spec_words().affirmative == Some(
            answer.word,
        ),
        dialog.affirmative is None ==> dialog.spec_words().affirmative is None,
{
}

/// A dialog is known by what it says and by what its answers carry.
pub proof fn a_dialog_is_known_by_what_it_says_and_carries(
    performs: &Performs,
    answer: &Answer,
    dismissal: &Dismissal,
    dialog: &Dialog,
    modal: &Modal,
)
    ensures
        performs@ == ({
            match performs {
                Performs::Write { write, done } => Performs::Write { write: write@, done: done@ },
                Performs::Discard => Performs::Discard,
            }
        }),
        answer@ == ({
            Answer { word: answer.word@, performs: answer.performs@ }
        }),
        dismissal@ == ({
            Dismissal { word: dismissal.word@, performs: dismissal.performs }
        }),
        dialog@ == ({
            Dialog {
                title: dialog.title@,
                message: dialog.message@,
                answers: dialog.answers,
                affirmative: match dialog.affirmative {
                    Some(answer) => Some(answer@),
                    None => None,
                },
                dismissal: dialog.dismissal@,
            }
        }),
        modal@ == ({
            match modal {
                Modal::Help => Modal::Help,
                Modal::Dialog(dialog) => Modal::Dialog(dialog@),
            }
        }),
{
}

} // verus!

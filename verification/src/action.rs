//! Every user intent the browser can carry out, named independently of the keys
//! that trigger it.
//!
//! Invariant: [`Action`] is the only vocabulary the application state
//! understands. Nothing here knows about key codes, and nothing in the state
//! machine matches on a key.
use crate::data::FreeForm;
use crate::text::Text;
use vstd::prelude::*;

verus! {

/// Which set of bindings is live, because one key may carry a different intent
/// in each mode.
///
/// Invariant: a mode is derived from the application state, never from a key.
#[derive(Clone, Copy, Debug, PartialEq, Eq, Structural)]
pub enum Mode {
    /// Browsing the store: the cursor moves and every browse binding is live.
    Browse,
    /// Editing mode, with the selection frozen on one row.
    Editing,
    /// An editing surface is open, and every key belongs to the field it holds.
    ///
    /// What the surface looks like to a key travels with the mode, because a key
    /// means different things by it — see [`Form`] — and a mode is the whole of
    /// what the key map is told.
    Surface(Form),
    /// A dialog is open, admitting the set of answers it lists and nothing else.
    Dialog(Answers),
}

/// How many fields an open surface holds, to the precision a key's meaning turns
/// on: whether there is another field to move to at all.
#[derive(Clone, Copy, Debug, PartialEq, Eq, Structural)]
pub enum Fields {
    /// Exactly one, so there is nowhere to move.
    One,
    /// More than one, so the fields are navigated and the reflex key moves
    /// between them.
    Several,
}

impl Fields {
    /// Every count a surface may have, so a surface that has to cover them all
    /// cannot then miss one.
    pub const ALL: [Fields; 2] = [Fields::One, Fields::Several];

    /// The count as a key map is told it.
    pub open spec fn counted(count: nat) -> Fields {
        if count < 2 {
            Fields::One
        } else {
            Fields::Several
        }
    }

    /// The shape a surface holding this many fields has. A surface with nothing
    /// to fill in is not a surface, so anything below two is the one-field shape.
    pub fn of(count: usize) -> (r: Self)
        ensures
            r == Fields::counted(count as nat),
    {
        if count < 2 {
            Fields::One
        } else {
            Fields::Several
        }
    }
}

/// How many lines a field of text holds, which is the axis deciding whether a
/// line break is content or a key doing something else.
///
/// Invariant: a one-line field never holds a line break, whichever door text
/// arrives through. A field that holds many keeps them, and is moved through by
/// line as well as by character.
#[derive(Clone, Copy, Debug, PartialEq, Eq, Structural)]
pub enum Lines {
    /// One line, so a line break is not content and there is no line to move to.
    One,
    /// As many as the reader writes, so a line break is a character like any
    /// other and the cursor moves between lines.
    Many,
}

impl Lines {
    /// Every kind a field of text may be.
    pub const ALL: [Lines; 2] = [Lines::One, Lines::Many];
}

/// An open surface of text: how many fields it holds, and how many lines the field
/// the keyboard is in holds.
///
/// Invariant: both halves are needed, because the reflex key's meaning turns on
/// both — it accepts a surface with one field, moves on through a form, and is a
/// newline in a field that holds many lines however many fields there are.
#[derive(Clone, Copy, Debug, PartialEq, Eq, Structural)]
pub struct Shape {
    /// How many fields the surface holds.
    pub fields: Fields,
    /// How many lines the focused field holds. The focused one, because a key is
    /// answered by the field it lands in and a surface may hold both kinds.
    pub lines: Lines,
}

impl Shape {
    /// Every shape a surface may have.
    pub open spec fn listed() -> Seq<Shape> {
        seq![
            Shape { fields: Fields::One, lines: Lines::One },
            Shape { fields: Fields::One, lines: Lines::Many },
            Shape { fields: Fields::Several, lines: Lines::One },
            Shape { fields: Fields::Several, lines: Lines::Many },
        ]
    }

    /// Every shape a surface may have: every field count against every field
    /// kind, so a surface covering them all cannot miss a combination.
    pub fn all() -> (r: [Shape; 4])
        ensures
            r@ == Shape::listed(),
    {
        [
            Shape { fields: Fields::One, lines: Lines::One },
            Shape { fields: Fields::One, lines: Lines::Many },
            Shape { fields: Fields::Several, lines: Lines::One },
            Shape { fields: Fields::Several, lines: Lines::Many },
        ]
    }
}

/// What kind of field the keyboard is in.
#[derive(Clone, Copy, Debug, PartialEq, Eq, Structural)]
pub enum FieldKind {
    /// Text holding one line.
    OneLine,
    /// Text holding as many lines as the reader writes.
    ManyLines,
    /// A list of values one of which is marked, so there is no text in it.
    Pick,
}

impl FieldKind {
    /// Every kind a field may be.
    pub const ALL: [FieldKind; 3] = [FieldKind::OneLine, FieldKind::ManyLines, FieldKind::Pick];

    /// The kind of a field of text holding this many lines.
    pub open spec fn of_text(lines: Lines) -> FieldKind {
        match lines {
            Lines::One => FieldKind::OneLine,
            Lines::Many => FieldKind::ManyLines,
        }
    }

    /// The kind of a field of text holding this many lines.
    pub fn text(lines: Lines) -> (r: Self)
        ensures
            r == FieldKind::of_text(lines),
    {
        match lines {
            Lines::One => FieldKind::OneLine,
            Lines::Many => FieldKind::ManyLines,
        }
    }
}

/// An open surface as the key map is told it: how many fields it holds, and what
/// kind of field the keyboard is in — a picker included, which a [`Shape`] has no
/// place for.
#[derive(Clone, Copy, Debug, PartialEq, Eq, Structural)]
pub struct Form {
    /// How many fields the surface holds.
    pub fields: Fields,
    /// What kind of field the focused one is.
    pub kind: FieldKind,
}

impl Form {
    /// A surface of text as the key map is told it.
    pub open spec fn of_text(shape: Shape) -> Form {
        Form { fields: shape.fields, kind: FieldKind::of_text(shape.lines) }
    }

    /// A surface of text as the key map is told it.
    pub fn text(shape: Shape) -> (r: Self)
        ensures
            r == Form::of_text(shape),
    {
        Form { fields: shape.fields, kind: FieldKind::text(shape.lines) }
    }
}

/// The answers a dialog admits, which are exactly the answers it lists.
///
/// Invariant: a dialog names the set it wants and the key map spells the letters,
/// so no dialog's own text names a key and no key is named outside that map.
#[derive(Clone, Copy, Debug, PartialEq, Eq, Structural)]
pub enum Answers {
    /// A destructive question, answered by the same letter that asks for the
    /// destruction, so no key a hurried reader presses by reflex can be what
    /// destroys something.
    Destructive,
    /// A question about text that moved on under the reader: going ahead throws
    /// away somebody else's change, getting out keeps the buffer and decides
    /// nothing.
    Conflict,
    /// Nothing is at stake — the dialog reports rather than asks — so it is
    /// dismissed rather than answered.
    Acknowledge,
}

impl Answers {
    /// Every set a dialog may ask for.
    pub const ALL: [Answers; 3] = [
        Answers::Destructive,
        Answers::Conflict,
        Answers::Acknowledge,
    ];

    /// The intent that goes ahead with this set's question.
    pub open spec fn goes_ahead(self) -> Option<Action> {
        match self {
            Answers::Destructive => Some(Action::Delete),
            Answers::Conflict => Some(Action::Overwrite),
            Answers::Acknowledge => None,
        }
    }

    /// The intent that goes ahead with this set's question, and `None` for a set
    /// that only reports — such a dialog has a way out and nothing to go ahead
    /// with, so nothing it was raised for can be performed by mistake.
    ///
    /// Invariant: a set and the intent that answers it meet here, so an
    /// affirmative answer belonging to one set can never answer another set's
    /// question.
    pub fn affirmative(self) -> (r: Option<Action>)
        ensures
            r == self.goes_ahead(),
    {
        match self {
            Answers::Destructive => Some(Action::Delete),
            Answers::Conflict => Some(Action::Overwrite),
            Answers::Acknowledge => None,
        }
    }
}

/// The words a dialog gives its own answers, one per answer its set admits.
///
/// Invariant: the answer set decides which keys are bound and the dialog decides
/// what they are called, because two dialogs share a key and mean different
/// things by it.
#[derive(Debug, PartialEq, Eq)]
#[verifier::ext_equal]
pub struct AnswerWords<T = &'static str> {
    /// What going ahead does, and `None` for a dialog that only reports: such a
    /// dialog has a way out and no answer, so there is nothing to word.
    pub affirmative: Option<T>,
    /// What getting out does. Every dialog has a way out, so this is never
    /// absent.
    pub dismissal: T,
}

impl Clone for AnswerWords {
    fn clone(&self) -> (r: Self)
        ensures
            r == *self,
    {
        *self
    }
}

impl Copy for AnswerWords {

}

impl View for AnswerWords {
    type V = AnswerWords<Text>;

    open spec fn view(&self) -> AnswerWords<Text> {
        AnswerWords {
            affirmative: match self.affirmative {
                Some(word) => Some(word@),
                None => None,
            },
            dismissal: self.dismissal@,
        }
    }
}

/// An editing action whose letter means the same thing on every row that answers
/// it.
///
/// Invariant: only actions the browser believes it can perform on the frozen row
/// are ever listed. What a row makes of one is a [`RowAction`].
#[derive(Clone, Copy, Debug, PartialEq, Eq, Structural)]
pub enum EditingAction {
    /// Add a member to the container the frozen row names.
    Add,
    /// Delete what the frozen row names, behind a confirmation.
    Delete,
    /// Edit the long-form text of what the frozen row names.
    Body,
}

impl EditingAction {
    /// Every editing action, so a surface covering all of them cannot miss one.
    pub const ALL: [EditingAction; 3] = [
        EditingAction::Add,
        EditingAction::Delete,
        EditingAction::Body,
    ];

    /// The intent a key carries for this action.
    pub open spec fn carried_by(self) -> Action {
        match self {
            EditingAction::Add => Action::Add,
            EditingAction::Delete => Action::Delete,
            EditingAction::Body => Action::Body,
        }
    }

    /// The intent a key carries for this action. The state machine reads an
    /// intent, so the two vocabularies meet here and nowhere else.
    pub fn intent(self) -> (r: Action)
        ensures
            r == self.carried_by(),
    {
        match self {
            EditingAction::Add => Action::Add,
            EditingAction::Delete => Action::Delete,
            EditingAction::Body => Action::Body,
        }
    }

    /// The editing action an intent asks for, or `None` for an intent that is not
    /// one: the action whose own intent it is.
    pub fn for_intent(intent: Action) -> (r: Option<Self>)
        ensures
            forall|action: EditingAction|
                r == Some(action) <==> #[trigger] action.carried_by() == intent,
    {
        assert(EditingAction::Add.carried_by() == Action::Add);
        assert(EditingAction::Delete.carried_by() == Action::Delete);
        assert(EditingAction::Body.carried_by() == Action::Body);
        match intent {
            Action::Add => Some(EditingAction::Add),
            Action::Delete => Some(EditingAction::Delete),
            Action::Body => Some(EditingAction::Body),
            _ => None,
        }
    }

    /// What a row is asked for by this action.
    pub open spec fn asks_a_row_for(self) -> RowAction {
        match self {
            EditingAction::Add => RowAction::Add,
            EditingAction::Delete => RowAction::Delete,
            EditingAction::Body => RowAction::Edit(FreeForm::Body),
        }
    }

    /// What a row is asked for by this action.
    pub fn row_action(self) -> (r: RowAction)
        ensures
            r == self.asks_a_row_for(),
    {
        match self {
            EditingAction::Add => RowAction::Add,
            EditingAction::Delete => RowAction::Delete,
            EditingAction::Body => RowAction::Edit(FreeForm::Body),
        }
    }
}

/// An action editing mode offers on the row it froze, as opposed to the keys the
/// mode itself answers — the way out, help and a reload.
///
/// Invariant: the row's own offer is what both lists a hint and answers the
/// letter, so the hint strip can never name a letter the row ignores, nor hide one
/// it answers.
#[derive(Clone, Copy, Debug, PartialEq, Eq, Structural)]
pub enum RowAction {
    /// Add a member to the container the frozen row names.
    Add,
    /// Delete what the frozen row names, behind a confirmation.
    Delete,
    /// Rewrite one of the fields of what the frozen row names.
    Edit(FreeForm),
    /// Put what the frozen row names into a state.
    SetState,
    /// Take the claim on what the frozen row names.
    TakeClaim,
    /// Give up the claim on what the frozen row names.
    ReleaseClaim,
}

impl RowAction {
    /// Every action a row may offer.
    pub open spec fn listed() -> Seq<RowAction> {
        seq![
            RowAction::Add,
            RowAction::Delete,
            RowAction::Edit(FreeForm::Name),
            RowAction::Edit(FreeForm::Summary),
            RowAction::Edit(FreeForm::Body),
            RowAction::SetState,
            RowAction::TakeClaim,
            RowAction::ReleaseClaim,
        ]
    }

    /// Every action a row may offer, so a surface covering all of them cannot
    /// miss one.
    pub fn all() -> (r: [RowAction; 8])
        ensures
            r@ == RowAction::listed(),
    {
        [
            RowAction::Add,
            RowAction::Delete,
            RowAction::Edit(FreeForm::Name),
            RowAction::Edit(FreeForm::Summary),
            RowAction::Edit(FreeForm::Body),
            RowAction::SetState,
            RowAction::TakeClaim,
            RowAction::ReleaseClaim,
        ]
    }

    /// The intent a key carries for this action.
    pub open spec fn carried_by(self) -> Action {
        match self {
            RowAction::Add => Action::Add,
            RowAction::Delete => Action::Delete,
            RowAction::Edit(field) => Action::Edit(field),
            RowAction::SetState => Action::SetState,
            RowAction::TakeClaim => Action::TakeClaim,
            RowAction::ReleaseClaim => Action::ReleaseClaim,
        }
    }

    /// The action an intent asks the frozen row for.
    pub open spec fn asked_by(intent: Action) -> Option<RowAction> {
        match intent {
            Action::Add => Some(RowAction::Add),
            Action::Delete => Some(RowAction::Delete),
            Action::Edit(field) => Some(RowAction::Edit(field)),
            Action::Body => Some(RowAction::Edit(FreeForm::Body)),
            Action::SetState => Some(RowAction::SetState),
            Action::TakeClaim => Some(RowAction::TakeClaim),
            Action::ReleaseClaim => Some(RowAction::ReleaseClaim),
            _ => None,
        }
    }

    /// The intent a key carries for this action.
    pub fn intent(self) -> (r: Action)
        ensures
            r == self.carried_by(),
    {
        match self {
            RowAction::Add => Action::Add,
            RowAction::Delete => Action::Delete,
            RowAction::Edit(field) => Action::Edit(field),
            RowAction::SetState => Action::SetState,
            RowAction::TakeClaim => Action::TakeClaim,
            RowAction::ReleaseClaim => Action::ReleaseClaim,
        }
    }

    /// The action an intent asks the frozen row for, or `None` for an intent that
    /// asks a row for nothing.
    pub fn for_intent(intent: Action) -> (r: Option<Self>)
        ensures
            r == RowAction::asked_by(intent),
    {
        match intent {
            Action::Add => Some(RowAction::Add),
            Action::Delete => Some(RowAction::Delete),
            Action::Edit(field) => Some(RowAction::Edit(field)),
            Action::Body => Some(RowAction::Edit(FreeForm::Body)),
            Action::SetState => Some(RowAction::SetState),
            Action::TakeClaim => Some(RowAction::TakeClaim),
            Action::ReleaseClaim => Some(RowAction::ReleaseClaim),
            _ => None,
        }
    }
}

/// A resolved user intent.
#[derive(Clone, Copy, Debug, PartialEq, Eq, Structural)]
pub enum Action {
    /// A key the map binds to nothing in the mode it was pressed in. It reaches
    /// the state machine all the same, and every layer answers it with silence.
    Unbound,
    /// Move the navigation cursor down one row.
    CursorDown,
    /// Move the navigation cursor up one row.
    CursorUp,
    /// Move the navigation cursor to the first row.
    CursorFirst,
    /// Move the navigation cursor to the last row.
    CursorLast,
    /// The wheel turned down, which browsing treats as a cursor motion and
    /// editing mode ignores rather than answering as it answers a key.
    WheelDown,
    /// The wheel turned up; see [`Action::WheelDown`].
    WheelUp,
    /// Enter the highlighted row's children.
    Descend,
    /// Leave the current level for its parent.
    Ascend,
    /// Back out of the innermost thing the reader is inside: an open overlay,
    /// then editing mode, then the level.
    ///
    /// Distinct from [`Action::Ascend`] because editing mode has to tell the way
    /// out from a level key.
    Unwind,
    /// Scroll the preview down half a screen.
    PreviewHalfDown,
    /// Scroll the preview up half a screen.
    PreviewHalfUp,
    /// Scroll the preview down a screen.
    PreviewPageDown,
    /// Scroll the preview up a screen.
    PreviewPageUp,
    /// Scroll the preview to the start.
    PreviewTop,
    /// Scroll the preview to the end.
    PreviewBottom,
    /// Give the navigation pane less width.
    ShrinkNav,
    /// Give the navigation pane more width.
    GrowNav,
    /// Restore the default split.
    ResetSplit,
    /// Toggle the preview filling the whole width.
    ToggleZoom,
    /// Re-read the store.
    Reload,
    /// Create an epic, from the epics list.
    CreateEpic,
    /// Enter editing mode on the highlighted row.
    EnterEditing,
    /// Add a member to the container editing mode is acting on, which opens a
    /// surface to fill in.
    Add,
    /// Delete the row editing mode is acting on, which asks first. On the dialog
    /// that asks, the same intent is the answer that goes ahead.
    Delete,
    /// Edit the long-form text of what editing mode is acting on.
    Body,
    /// Rewrite one of the fields of what editing mode is acting on.
    Edit(FreeForm),
    /// Put what editing mode is acting on into a state.
    SetState,
    /// Take the claim on what editing mode is acting on.
    TakeClaim,
    /// Give up the claim on what editing mode is acting on.
    ReleaseClaim,
    /// Write anyway, over a change that landed under the open buffer.
    Overwrite,
    /// Put a character into the open field, where the cursor is.
    ///
    /// A line break is a character like any other in a field that holds many
    /// lines, and is dropped by a field that holds one.
    Insert(char),
    /// Delete the character before the cursor.
    DeleteBefore,
    /// Delete the character under the cursor.
    DeleteAfter,
    /// Move the field cursor one character left.
    MoveLeft,
    /// Move the field cursor one character right.
    MoveRight,
    /// Move the field cursor to the start of the line it is on.
    MoveToStart,
    /// Move the field cursor to the end of the line it is on.
    MoveToEnd,
    /// Move the field cursor to the same column of the line above, or leave it
    /// where it is when there is no line above. In a picker, mark the value above.
    MoveUp,
    /// Move the field cursor to the same column of the line below, or leave it
    /// where it is when there is no line below. In a picker, mark the value below.
    MoveDown,
    /// Put the keyboard in the next field of the open surface.
    NextField,
    /// Put the keyboard in the previous field of the open surface.
    PreviousField,
    /// Accept the open surface: write what its fields hold.
    Accept,
    /// Hand the open field's content to the external editor and take the result
    /// back.
    ExternalEditor,
    /// Toggle the key-binding overlay.
    ToggleHelp,
    /// Leave the browser.
    Quit,
}

/// No two answer sets are answered by the same intent, so one dialog's answer can
/// never perform another's; and a set that only reports is answered by nothing.
pub proof fn no_two_answer_sets_share_an_answer(a: Answers, b: Answers)
    ensures
        a.goes_ahead() is Some && a.goes_ahead() == b.goes_ahead() ==> a == b,
        a.goes_ahead() is None <==> a == Answers::Acknowledge,
{
}

/// An editing action and the intent that asks for it are one mapping, and a row is
/// asked for the same thing whichever vocabulary the intent is read in.
pub proof fn an_editing_action_and_its_intent_are_one_mapping(a: EditingAction, b: EditingAction)
    ensures
        a.carried_by() == b.carried_by() ==> a == b,
        RowAction::asked_by(a.carried_by()) == Some(a.asks_a_row_for()),
{
}

/// The intent a row's action is carried by asks for that action.
pub proof fn a_row_action_is_asked_for_by_its_own_intent(a: RowAction)
    ensures
        RowAction::asked_by(a.carried_by()) == Some(a),
{
}

/// Every answer set, every editing action, every row's action, every field count,
/// every kind of line, every kind of field and every shape is in the list that
/// covers them.
pub proof fn every_listed_vocabulary_is_complete(
    answers: Answers,
    editing: EditingAction,
    row: RowAction,
    fields: Fields,
    lines: Lines,
    kind: FieldKind,
    shape: Shape,
)
    ensures
        Answers::ALL@.contains(answers),
        EditingAction::ALL@.contains(editing),
        RowAction::listed().contains(row),
        Fields::ALL@.contains(fields),
        Lines::ALL@.contains(lines),
        FieldKind::ALL@.contains(kind),
        Shape::listed().contains(shape),
{
    let a = Answers::ALL@;
    assert(a[0] == Answers::Destructive && a[1] == Answers::Conflict && a[2]
        == Answers::Acknowledge);
    let e = EditingAction::ALL@;
    assert(e[0] == EditingAction::Add && e[1] == EditingAction::Delete && e[2]
        == EditingAction::Body);
    let r = RowAction::listed();
    assert(r[0] == RowAction::Add && r[1] == RowAction::Delete && r[2] == RowAction::Edit(
        FreeForm::Name,
    ) && r[3] == RowAction::Edit(FreeForm::Summary) && r[4] == RowAction::Edit(FreeForm::Body)
        && r[5] == RowAction::SetState && r[6] == RowAction::TakeClaim && r[7]
        == RowAction::ReleaseClaim);
    let f = Fields::ALL@;
    assert(f[0] == Fields::One && f[1] == Fields::Several);
    let l = Lines::ALL@;
    assert(l[0] == Lines::One && l[1] == Lines::Many);
    let k = FieldKind::ALL@;
    assert(k[0] == FieldKind::OneLine && k[1] == FieldKind::ManyLines && k[2] == FieldKind::Pick);
    let s = Shape::listed();
    assert(s[0] == Shape { fields: Fields::One, lines: Lines::One });
    assert(s[1] == Shape { fields: Fields::One, lines: Lines::Many });
    assert(s[2] == Shape { fields: Fields::Several, lines: Lines::One });
    assert(s[3] == Shape { fields: Fields::Several, lines: Lines::Many });
}

/// Each vocabulary says the same thing in its own words: an editing action and a row's
/// action are carried by the intent of their name, the long-form text of a row being its
/// body, and no other intent asks a row for anything.
pub proof fn an_intent_asks_a_row_for_what_it_names(field: FreeForm, action: Action)
    ensures
        EditingAction::Add.carried_by() == Action::Add,
        EditingAction::Delete.carried_by() == Action::Delete,
        EditingAction::Body.carried_by() == Action::Body,
        EditingAction::Add.asks_a_row_for() == RowAction::Add,
        EditingAction::Delete.asks_a_row_for() == RowAction::Delete,
        EditingAction::Body.asks_a_row_for() == RowAction::Edit(FreeForm::Body),
        RowAction::Add.carried_by() == Action::Add,
        RowAction::Delete.carried_by() == Action::Delete,
        RowAction::Edit(field).carried_by() == Action::Edit(field),
        RowAction::SetState.carried_by() == Action::SetState,
        RowAction::TakeClaim.carried_by() == Action::TakeClaim,
        RowAction::ReleaseClaim.carried_by() == Action::ReleaseClaim,
        RowAction::asked_by(Action::Add) == Some(RowAction::Add),
        RowAction::asked_by(Action::Delete) == Some(RowAction::Delete),
        RowAction::asked_by(Action::Body) == Some(RowAction::Edit(FreeForm::Body)),
        RowAction::asked_by(Action::Edit(field)) == Some(RowAction::Edit(field)),
        RowAction::asked_by(Action::SetState) == Some(RowAction::SetState),
        RowAction::asked_by(Action::TakeClaim) == Some(RowAction::TakeClaim),
        RowAction::asked_by(Action::ReleaseClaim) == Some(RowAction::ReleaseClaim),
        RowAction::asked_by(action) is Some <==> action is Add || action is Delete || action is Body
            || action is Edit || action is SetState || action is TakeClaim || action
            is ReleaseClaim,
{
}

/// A destructive question is gone ahead with by deleting, a conflict by overwriting, and
/// a report by nothing.
pub proof fn each_question_has_its_own_answer()
    ensures
        Answers::Destructive.goes_ahead() == Some(Action::Delete),
        Answers::Conflict.goes_ahead() == Some(Action::Overwrite),
        Answers::Acknowledge.goes_ahead() is None,
{
}

/// A key map is told whether there is another field to move to, and what kind of field
/// the keyboard is in.
pub proof fn a_key_map_is_told_what_its_keys_turn_on(count: nat, fields: Fields)
    ensures
        Fields::counted(count) == Fields::Several <==> count >= 2,
        FieldKind::of_text(Lines::One) == FieldKind::OneLine,
        FieldKind::of_text(Lines::Many) == FieldKind::ManyLines,
        Form::of_text(Shape { fields, lines: Lines::One }) == (Form {
            fields,
            kind: FieldKind::OneLine,
        }),
        Form::of_text(Shape { fields, lines: Lines::Many }) == (Form {
            fields,
            kind: FieldKind::ManyLines,
        }),
{
}

/// A dialog's words are known as they are written.
pub proof fn words_are_known_as_they_are_written(
    worded: &AnswerWords,
)
    ensures
        worded@ == ({
            AnswerWords {
                affirmative: match worded.affirmative {
                    Some(word) => Some(word@),
                    None => None,
                },
                dismissal: worded.dismissal@,
            }
        }),
{
}

} // verus!

//! The browser: the position, the layout and the preview, and every intent carried
//! out on them.
//!
//! This module owns no terminal, draws nothing and reads no store. An intent that
//! needs something from outside answers with the [`Step`] to take, and what came of
//! it is handed back to the method the step names.
use crate::action::{Action, Answers, Mode, RowAction};
use crate::app::dialog::{
    report_of, reported, Dialog, DialogModel, Dismissal, Modal, OnDismissal, Performs, EDITOR_TITLE,
    UNREADABLE_TITLE,
};
use crate::app::preview::{pane_of, Pane};
use crate::app::surface::{Surface, SurfaceModel};
use crate::data::entity::{comment_read, fields_read, spoken, state_read};
use crate::data::row::rows_shown;
use crate::data::write::viewed;
use crate::data::{
    comment_target, edit_target, state_target, Collection, CommentsReading, Container, Effect,
    EntityReading, FreeForm, GateWords, Level, NodeRef, ReadOnly, Reading, Refusal, Replaceable,
    Row, RowKind, Selection, StateReading, Write,
};
use crate::nav::{Nav, NavModel};
use crate::text::{decimal, joined, joined3, number_text, Text};
use ratatui_markdown::viewer::MarkdownViewer;
use vstd::prelude::*;

verus! {

/// The default share of the width given to the navigation pane.
pub const DEFAULT_NAV_PERCENT: u16 = 30;

/// The narrowest and widest the navigation pane may get. Neither pane may be
/// resized away entirely.
pub const MIN_NAV_PERCENT: u16 = 15;

/// See [`MIN_NAV_PERCENT`].
pub const MAX_NAV_PERCENT: u16 = 70;

/// How much one resize keypress moves the divider.
pub const RESIZE_STEP: u16 = 5;

/// How long a flash stays up, in nanoseconds. A maximum rather than a minimum — any
/// key press retires it early.
pub const FLASH_LIFETIME: u64 = 5_000_000_000;

/// What a key editing mode does not admit says. It carries the way out itself,
/// because a notice covers the whole hint strip.
pub const NOT_AN_EDITING_ACTION: &'static str = "not an editing action — Esc to leave";

/// What entering editing mode says while the preview fills the width. It names the
/// remedy rather than the obstacle.
pub const EDITING_NEEDS_THE_NAV_PANE: &'static str =
    "editing needs the navigation pane — z brings it back";

/// What a reload that finds the store may no longer be written says, on the one
/// reload that finds it.
pub const EDITING_STOPPED_READ_ONLY: &'static str =
    "the store can no longer be written — editing stopped";

/// What the key that creates an epic says where an epic is not created from.
pub const EPICS_ARE_MADE_FROM_THE_EPICS_LIST: &'static str =
    "a new epic is made from the epics list, not from inside one";

/// What the key that ends a browsing session says while a buffer holds text the
/// store has never been given.
pub const NOT_A_WAY_OUT_OF_A_BUFFER: &'static str =
    "nothing is written yet — Esc leaves this buffer";

/// What entering a row with nothing below it says.
pub const NOTHING_TO_OPEN: &'static str = "nothing to open here";

/// What entering editing mode says where there is no row to act on.
pub const NOTHING_TO_EDIT: &'static str = "nothing to edit: this store has no epics";

/// What a reload that loses the frozen row says.
pub const THE_ROW_IS_GONE: &'static str = "the row you were editing is gone";

/// A transient one-line notice, holding the hint strip's line until its lifetime
/// has passed.
///
/// The lifetime is measured on a clock, not in wakeups: a notice raised just
/// before the browser hands the terminal to an external editor is simply expired
/// by the time the reader comes back.
#[derive(Debug, PartialEq, Eq)]
#[verifier::ext_equal]
pub struct Flash<S = String> {
    /// What it says.
    pub message: S,
    /// When it was raised, in nanoseconds on the session's clock.
    pub raised: u64,
}

impl View for Flash {
    type V = Flash<Text>;

    open spec fn view(&self) -> Flash<Text> {
        Flash { message: self.message@, raised: self.raised }
    }
}

impl Flash<Text> {
    /// Whether the notice is still up at an instant.
    pub open spec fn is_up(self, now: u64) -> bool {
        now < self.raised + FLASH_LIFETIME
    }
}

/// What a surface has to be told by the store before it can open.
///
/// Invariant: every one of these is read when the letter is pressed and never
/// earlier, because a surface must start from what the store holds now.
#[derive(Clone, Copy, Debug, PartialEq, Eq, Structural)]
pub enum Composed {
    /// One of an entity's whole fields, and the stamp it was read at.
    Field(FreeForm),
    /// One comment's text, and the stamp its container was read at.
    CommentText,
    /// The state the row is in, the states it may be put into, and how many of its
    /// descendants are still open.
    State,
}

/// What an editing action does on the frozen row: opens something to answer, opens
/// something to fill in, writes, or performs nothing and says why.
///
/// Invariant: this is the whole of what a letter does on a row, so the hint strip
/// and the key consult one answer — and only the ones that perform something are
/// hinted.
#[derive(Debug, PartialEq, Eq)]
#[verifier::ext_equal]
pub enum Offer<S = String, D = Dialog, F = Surface> {
    /// A question, answered where it stands.
    Ask(D),
    /// A surface to fill in and accept.
    Fill(F),
    /// A surface whose starting text is the entity's own field, so it cannot be
    /// built without reading the entity.
    Compose(Composed),
    /// A write with nothing to fill in and nothing to ask, because the row carries
    /// everything the write needs.
    Perform {
        /// The write.
        write: Write<S>,
        /// What the notice says once it is committed.
        done: S,
    },
    /// Nothing for the browser to do, and the notice that says so — naming the
    /// command line, where the job the browser does not do is done instead.
    Signpost(S),
}

/// An offer by what it opens and writes.
pub type OfferModel = Offer<Text, DialogModel, SurfaceModel>;

impl View for Offer {
    type V = OfferModel;

    open spec fn view(&self) -> OfferModel {
        match self {
            Offer::Ask(dialog) => Offer::Ask(dialog@),
            Offer::Fill(surface) => Offer::Fill(surface@),
            Offer::Compose(composed) => Offer::Compose(*composed),
            Offer::Perform { write, done } => Offer::Perform { write: write@, done: done@ },
            Offer::Signpost(notice) => Offer::Signpost(notice@),
        }
    }
}

/// What is left to do, outside the state machine, for an intent to be carried out.
#[derive(Debug, PartialEq, Eq)]
#[verifier::ext_equal]
pub enum Step<S = String> {
    /// Nothing.
    Stay,
    /// End the session.
    Quit,
    /// List a level, and hand its rows to [`App::descended`] — or report that it
    /// could not be listed through [`App::store_unreadable`].
    List(Level<S>),
    /// Re-read every level and ask whether the store may be written, and hand both
    /// to [`App::reloaded`].
    Reload,
    /// Have the store read a reference, and hand what it made of it to
    /// [`App::reference_read`].
    ReadReference(S),
    /// Read what a surface starts from, and hand it to [`App::compose_field`],
    /// [`App::compose_comment`] or [`App::compose_state`].
    Compose(Composed),
    /// Carry a write out, and hand what came of it to [`App::committed`].
    Commit {
        /// The write.
        write: Write<S>,
        /// What the notice says once it is committed.
        done: S,
    },
}

impl View for Step {
    type V = Step<Text>;

    open spec fn view(&self) -> Step<Text> {
        match self {
            Step::Stay => Step::Stay,
            Step::Quit => Step::Quit,
            Step::List(level) => Step::List(level@),
            Step::Reload => Step::Reload,
            Step::ReadReference(token) => Step::ReadReference(token@),
            Step::Compose(composed) => Step::Compose(*composed),
            Step::Commit { write, done } => Step::Commit { write: write@, done: done@ },
        }
    }
}

/// The browser.
pub struct App {
    /// The navigation position.
    pub nav: Nav,
    /// The widget the preview is drawn with.
    pub viewer: MarkdownViewer,
    /// The width the preview was last built for.
    pub preview_width: u16,
    /// The document identity currently rendered — [`Selection::document`], not the
    /// raw row selection.
    pub shown: Option<Selection>,
    /// The navigation pane's share of the width.
    pub nav_percent: u16,
    /// Whether the preview fills the width.
    pub zoomed: bool,
    /// The open overlay, if any.
    pub modal: Option<Modal>,
    /// The screen column the pane divider was last drawn at.
    pub divider_column: Option<u16>,
    /// Whether the divider is being dragged.
    pub dragging_divider: bool,
    /// Whether a frame is owed.
    pub redraw: bool,
    /// The live notice, if any.
    pub flash: Option<Flash>,
    /// Why the store may not be written, or `None` while it may be: the store's own
    /// answer, asked at startup and again on every reload.
    pub read_only: Option<ReadOnly>,
    /// The row editing mode was entered on, for as long as the mode is on.
    pub editing: Option<Selection>,
    /// The open editing surface, if any.
    pub surface: Option<Surface>,
    /// The text an external editor has been asked to take, until the loop that owns
    /// the terminal takes it.
    pub editor_handoff: Option<String>,
    /// The store's own words for why it may not be written.
    pub gate: GateWords,
}

/// The browser by what it shows and holds.
#[verifier::ext_equal]
pub struct AppModel {
    /// The navigation position.
    pub nav: NavModel,
    /// The pane the preview is read in.
    pub pane: Pane,
    /// The width the preview was last built for.
    pub preview_width: u16,
    /// The document identity currently rendered.
    pub shown: Option<Selection<Text>>,
    /// The navigation pane's share of the width.
    pub nav_percent: u16,
    /// Whether the preview fills the width.
    pub zoomed: bool,
    /// The open overlay, if any.
    pub modal: Option<Modal<DialogModel>>,
    /// The screen column the pane divider was last drawn at.
    pub divider_column: Option<u16>,
    /// Whether the divider is being dragged.
    pub dragging_divider: bool,
    /// Whether a frame is owed.
    pub redraw: bool,
    /// The live notice, if any.
    pub flash: Option<Flash<Text>>,
    /// Why the store may not be written.
    pub read_only: Option<ReadOnly>,
    /// The row editing mode is acting on.
    pub editing: Option<Selection<Text>>,
    /// The open editing surface, if any.
    pub surface: Option<SurfaceModel>,
    /// The text an external editor has been asked to take.
    pub editor_handoff: Option<Text>,
    /// The store's own words for why it may not be written.
    pub gate: GateWords,
}

/// What is known of a value that may be absent.
pub open spec fn seen<T: View>(held: Option<T>) -> Option<T::V> {
    match held {
        Some(value) => Some(value@),
        None => None,
    }
}

impl View for App {
    type V = AppModel;

    open spec fn view(&self) -> AppModel {
        AppModel {
            nav: self.nav@,
            pane: pane_of(self.viewer),
            preview_width: self.preview_width,
            shown: seen(self.shown),
            nav_percent: self.nav_percent,
            zoomed: self.zoomed,
            modal: seen(self.modal),
            divider_column: self.divider_column,
            dragging_divider: self.dragging_divider,
            redraw: self.redraw,
            flash: seen(self.flash),
            read_only: self.read_only,
            editing: seen(self.editing),
            surface: seen(self.surface),
            editor_handoff: seen(self.editor_handoff),
            gate: self.gate,
        }
    }
}

/// Who holds the claim a row shows, if it shows one.
pub open spec fn holder_on(row: Option<Row<Text>>) -> Option<Text> {
    match row {
        Some(row) => match row.kind {
            RowKind::Work { claimed_by, .. } => claimed_by,
            _ => None,
        },
        None => None,
    }
}

/// Whether a row is a live comment the human wrote.
pub open spec fn is_the_humans(row: Option<Row<Text>>) -> bool {
    row matches Some(row) && row.kind == (RowKind::<Text>::Comment { by_the_human: true })
}

/// The question in front of a deletion.
pub open spec fn deletion(
    question: Text,
    word: Text,
    write: Write<Text>,
    done: Text,
) -> Option<OfferModel> {
    Some(
        Offer::Ask(
            DialogModel::asking(question, word, Performs::Write { write, done }, "cancel"@),
        ),
    )
}

/// What adding to a row opens.
pub open spec fn addition_on(target: Selection<Text>) -> Option<OfferModel> {
    match target {
        Selection::Epic(_) => Some(Offer::Fill(SurfaceModel::creating_node(target))),
        Selection::Node(_) => Some(Offer::Fill(SurfaceModel::creating_node(target))),
        Selection::Collection(container, Collection::Labels) => Some(
            Offer::Fill(SurfaceModel::adding_label(target, container.spec_reference())),
        ),
        Selection::Collection(container, Collection::Comments) => Some(
            Offer::Fill(SurfaceModel::adding_comment(target, container.spec_reference())),
        ),
        Selection::Collection(container, Collection::BlockedBy) => if container is Node {
            Some(Offer::Fill(SurfaceModel::adding_blocker(target, container.spec_reference())))
        } else {
            None
        },
        Selection::Collection(container, Collection::Assets) => Some(
            Offer::Signpost(
                "loti "@ + container.spec_cli_noun() + " asset add "@ + container.spec_reference()
                    + " --file <path> — assets are attached from the command line"@,
            ),
        ),
        _ => None,
    }
}

/// What deleting a row asks.
pub open spec fn deletion_on(target: Selection<Text>, row: Option<Row<Text>>) -> Option<OfferModel> {
    match target {
        Selection::Label(_, label) => deletion(
            "Remove label "@ + label + "?"@,
            "remove"@,
            Write::RemoveLabel(target),
            "label "@ + label + " removed"@,
        ),
        Selection::Blocker(..) => deletion(
            "Remove blocker "@ + target.spec_reference() + "?"@,
            "remove"@,
            Write::RemoveBlocker(target),
            "blocker "@ + target.spec_reference() + " removed"@,
        ),
        Selection::Asset(_, name) => deletion(
            "Delete asset "@ + name + "?"@,
            "delete"@,
            Write::DeleteAsset(target),
            "asset "@ + name + " deleted"@,
        ),
        Selection::Comment(_, id) => if is_the_humans(row) {
            deletion(
                "Delete comment "@ + decimal(id as nat) + "?"@,
                "delete"@,
                Write::DeleteComment(target),
                "comment "@ + decimal(id as nat) + " deleted"@,
            )
        } else {
            None
        },
        _ => None,
    }
}

/// What an editing action opens on a row a store may be written for: `row` is the
/// highlighted row where that is the one the mode is acting on.
pub open spec fn offer_on(
    target: Selection<Text>,
    row: Option<Row<Text>>,
    action: RowAction,
) -> Option<OfferModel> {
    match action {
        RowAction::Add => addition_on(target),
        RowAction::Edit(field) => if target is Epic || target is Node {
            Some(Offer::Compose(Composed::Field(field)))
        } else if field == FreeForm::Body && target is Comment && is_the_humans(row) {
            Some(Offer::Compose(Composed::CommentText))
        } else {
            None
        },
        RowAction::SetState => if target is Epic || target is Node {
            Some(Offer::Compose(Composed::State))
        } else {
            None
        },
        RowAction::TakeClaim => if target is Node {
            Some(Offer::Fill(SurfaceModel::taking_claim(target)))
        } else {
            None
        },
        RowAction::ReleaseClaim => if target is Node {
            match holder_on(row) {
                Some(holder) => Some(
                    Offer::Perform {
                        write: Write::ReleaseClaim(target),
                        done: "claim on "@ + target.spec_reference() + " released by "@ + holder,
                    },
                ),
                None => None,
            }
        } else {
            None
        },
        RowAction::Delete => deletion_on(target, row),
    }
}

/// A share of the width brought back between the narrowest and the widest.
pub open spec fn clamped(percent: int) -> u16 {
    if percent < MIN_NAV_PERCENT {
        MIN_NAV_PERCENT
    } else if percent > MAX_NAV_PERCENT {
        MAX_NAV_PERCENT
    } else {
        percent as u16
    }
}

impl AppModel {
    /// The browser as it opens: at the first row of the roster, nothing over it, and
    /// the opening frame owed.
    pub open spec fn opened_on(
        rows: Seq<Row<Text>>,
        read_only: Option<ReadOnly>,
        gate: GateWords,
    ) -> AppModel {
        AppModel {
            nav: NavModel::at_the_roster(rows),
            pane: Pane::empty(),
            preview_width: 0,
            shown: None,
            nav_percent: DEFAULT_NAV_PERCENT,
            zoomed: false,
            modal: None,
            divider_column: None,
            dragging_divider: false,
            redraw: true,
            flash: None,
            read_only,
            editing: None,
            surface: None,
            editor_handoff: None,
            gate,
        }
    }

    /// Whether the position can be stood in, neither pane is resized away, and what
    /// is open is whole.
    pub open spec fn wf(self) -> bool {
        &&& self.nav.wf()
        &&& MIN_NAV_PERCENT <= self.nav_percent <= MAX_NAV_PERCENT
        &&& self.surface matches Some(surface) ==> surface.wf()
        &&& self.modal matches Some(Modal::Dialog(dialog)) ==> dialog.wf()
    }

    /// The browser with a notice raised, and the frame that shows it owed.
    pub open spec fn flashed(self, message: Text, now: u64) -> AppModel {
        AppModel { flash: Some(Flash { message, raised: now }), redraw: true, ..self }
    }

    /// The browser with the reader elsewhere in the document.
    pub open spec fn reading(self, pane: Pane) -> AppModel {
        AppModel { pane, ..self }
    }

    /// The browser with a dialog open.
    pub open spec fn asked(self, dialog: DialogModel) -> AppModel {
        AppModel { modal: Some(Modal::Dialog(dialog)), ..self }
    }

    /// Which set of bindings the keyboard is under.
    pub open spec fn mode(self) -> Mode {
        match (self.modal, self.surface) {
            (Some(Modal::Dialog(dialog)), _) => Mode::Dialog(dialog.answers),
            (_, Some(surface)) => Mode::Surface(surface.spec_shape()),
            _ => if self.editing is Some {
                Mode::Editing
            } else {
                Mode::Browse
            },
        }
    }

    /// The highlighted row, where it is the one a selection names.
    pub open spec fn row_of(self, target: Selection<Text>) -> Option<Row<Text>> {
        match self.nav.spec_frame().spec_current() {
            Some(row) => if row.selection == target {
                Some(row)
            } else {
                None
            },
            None => None,
        }
    }

    /// What an editing action opens on the frozen row.
    pub open spec fn offer(self, action: RowAction) -> Option<OfferModel> {
        match (self.read_only, self.editing) {
            (None, Some(target)) => offer_on(target, self.row_of(target), action),
            _ => None,
        }
    }

    /// Whether the frozen row offers an editing action that performs something.
    pub open spec fn offers(self, action: RowAction) -> bool {
        self.offer(action) matches Some(offer) && !(offer is Signpost)
    }

    /// Half of the last drawn width, never nothing.
    pub open spec fn half_page(self) -> u16 {
        if self.preview_width / 2 > 1 {
            self.preview_width / 2
        } else {
            1
        }
    }

    /// What ending the session comes to where the reader is standing.
    pub open spec fn quitting(self, now: u64) -> (AppModel, Step<Text>) {
        if self.modal matches Some(Modal::Dialog(_)) {
            (self, Step::Stay)
        } else if self.surface is Some {
            (self.flashed(NOT_A_WAY_OUT_OF_A_BUFFER@, now), Step::Stay)
        } else if self.editing is Some {
            (self.flashed(NOT_AN_EDITING_ACTION@, now), Step::Stay)
        } else {
            (self, Step::Quit)
        }
    }

    /// The browser with the open overlay got out of, the reader landed wherever it
    /// says.
    pub open spec fn dismissed(self) -> AppModel {
        let closed = AppModel { modal: None, ..self };
        match (self.modal, self.surface) {
            (Some(Modal::Dialog(dialog)), Some(surface)) => match dialog.dismissal.performs {
                Some(OnDismissal::Focus(field)) => AppModel {
                    surface: Some(
                        surface.focused_on(
                            if field < surface.fields.len() {
                                field as int
                            } else {
                                surface.fields.len() - 1
                            },
                        ),
                    ),
                    ..closed
                },
                None => closed,
            },
            _ => closed,
        }
    }

    /// What going ahead with a dialog's question comes to.
    pub open spec fn answered(self, dialog: DialogModel) -> (AppModel, Step<Text>) {
        match dialog.affirmative {
            None => (self, Step::Stay),
            Some(answer) => match answer.performs {
                Performs::Write { write, done } => (
                    AppModel { modal: None, ..self },
                    Step::Commit { write, done },
                ),
                Performs::Discard => (
                    AppModel { modal: None, surface: None, ..self },
                    Step::Stay,
                ),
            },
        }
    }

    /// What an intent comes to while an overlay is open.
    pub open spec fn over_a_modal(
        self,
        modal: Modal<DialogModel>,
        action: Action,
    ) -> (AppModel, Step<Text>) {
        match modal {
            Modal::Help => if action is ToggleHelp || action is Unwind || action is Ascend {
                (AppModel { modal: None, ..self }, Step::Stay)
            } else {
                (self, Step::Stay)
            },
            Modal::Dialog(dialog) => if dialog.answers.goes_ahead() == Some(action) {
                self.answered(dialog)
            } else if action is Unwind {
                (self.dismissed(), Step::Stay)
            } else {
                (self, Step::Stay)
            },
        }
    }

    /// What accepting the open surface comes to: a warning about the first required
    /// field left empty, then one about the first value the browser will not send,
    /// and otherwise the write — once the store has read the reference it names, if
    /// it names one.
    pub open spec fn accepted(self, surface: SurfaceModel) -> (AppModel, Step<Text>) {
        match (surface.spec_unfilled(), surface.spec_rejected()) {
            (Some(i), _) => (
                self.asked(DialogModel::requiring(surface.fields[i].label, i as usize)),
                Step::Stay,
            ),
            (None, Some(i)) => (
                self.asked(
                    DialogModel::rejecting(surface.fields[i].spec_rejected()->0, i as usize),
                ),
                Step::Stay,
            ),
            (None, None) => match surface.spec_token() {
                Some(token) => (self, Step::ReadReference(token)),
                None => {
                    let (write, done) = surface.spec_write(Err(Seq::empty()));
                    (self, Step::Commit { write, done })
                },
            },
        }
    }

    /// What an intent comes to while a surface is open.
    pub open spec fn in_a_surface(self, surface: SurfaceModel, action: Action) -> (
        AppModel,
        Step<Text>,
    ) {
        match action {
            Action::Unwind => match surface.spec_dirtied() {
                Some(i) => (
                    self.asked(DialogModel::discarding(surface.fields[i].label)),
                    Step::Stay,
                ),
                None => (AppModel { surface: None, ..self }, Step::Stay),
            },
            Action::Accept => self.accepted(surface),
            Action::ExternalEditor => match surface.fields[surface.spec_focus()].spec_text() {
                Some(text) => (AppModel { editor_handoff: Some(text), ..self }, Step::Stay),
                None => (self, Step::Stay),
            },
            Action::NextField => (
                AppModel { surface: Some(surface.focus_moved(true)), ..self },
                Step::Stay,
            ),
            Action::PreviousField => (
                AppModel { surface: Some(surface.focus_moved(false)), ..self },
                Step::Stay,
            ),
            Action::ToggleHelp => (AppModel { modal: Some(Modal::Help), ..self }, Step::Stay),
            _ => (AppModel { surface: Some(surface.applied(action)), ..self }, Step::Stay),
        }
    }

    /// What an intent comes to while editing mode is on.
    pub open spec fn in_editing(self, action: Action, now: u64) -> (AppModel, Step<Text>) {
        match action {
            Action::Unwind => (AppModel { editing: None, ..self }, Step::Stay),
            Action::ToggleHelp => (AppModel { modal: Some(Modal::Help), ..self }, Step::Stay),
            Action::Unbound => (self, Step::Stay),
            Action::Reload => (self, Step::Reload),
            Action::WheelDown => (self, Step::Stay),
            Action::WheelUp => (self, Step::Stay),
            _ => {
                let offer = match RowAction::asked_by(action) {
                    Some(asked) => self.offer(asked),
                    None => None,
                };
                match offer {
                    Some(Offer::Ask(dialog)) => (self.asked(dialog), Step::Stay),
                    Some(Offer::Fill(surface)) => (
                        AppModel { surface: Some(surface), ..self },
                        Step::Stay,
                    ),
                    Some(Offer::Compose(composed)) => (self, Step::Compose(composed)),
                    Some(Offer::Perform { write, done }) => (self, Step::Commit { write, done }),
                    Some(Offer::Signpost(notice)) => (self.flashed(notice, now), Step::Stay),
                    None => (self.flashed(NOT_AN_EDITING_ACTION@, now), Step::Stay),
                }
            },
        }
    }

    /// The browser with the divider elsewhere.
    pub open spec fn split_at(self, percent: int) -> AppModel {
        AppModel { nav_percent: clamped(percent), ..self }
    }

    /// What an intent comes to while the preview fills the width, where that differs:
    /// the motion keys scroll what is on screen, and no key moves a cursor the
    /// reader cannot see.
    pub open spec fn zoomed_in(self, action: Action, now: u64) -> Option<(AppModel, Step<Text>)> {
        match action {
            Action::CursorDown => Some((self.reading(self.pane.down(1)), Step::Stay)),
            Action::WheelDown => Some((self.reading(self.pane.down(1)), Step::Stay)),
            Action::CursorUp => Some((self.reading(self.pane.up(1)), Step::Stay)),
            Action::WheelUp => Some((self.reading(self.pane.up(1)), Step::Stay)),
            Action::CursorFirst => Some((self.reading(self.pane.top()), Step::Stay)),
            Action::CursorLast => Some((self.reading(self.pane.bottom()), Step::Stay)),
            Action::Descend => Some((self, Step::Stay)),
            Action::Ascend => Some((self, Step::Stay)),
            Action::Unwind => Some((self, Step::Stay)),
            Action::EnterEditing => Some(
                (self.flashed(EDITING_NEEDS_THE_NAV_PANE@, now), Step::Stay),
            ),
            _ => None,
        }
    }

    /// What an intent comes to while the navigation pane is there to move in.
    pub open spec fn browsed(self, action: Action, now: u64) -> (AppModel, Step<Text>) {
        match action {
            Action::ToggleHelp => (AppModel { modal: Some(Modal::Help), ..self }, Step::Stay),
            Action::CursorDown => (AppModel { nav: self.nav.down(), ..self }, Step::Stay),
            Action::WheelDown => (AppModel { nav: self.nav.down(), ..self }, Step::Stay),
            Action::CursorUp => (AppModel { nav: self.nav.up(), ..self }, Step::Stay),
            Action::WheelUp => (AppModel { nav: self.nav.up(), ..self }, Step::Stay),
            Action::CursorFirst => (AppModel { nav: self.nav.at(0), ..self }, Step::Stay),
            Action::CursorLast => (AppModel { nav: self.nav.bottom(), ..self }, Step::Stay),
            Action::Descend => match self.nav.spec_below() {
                Some(level) => (self, Step::List(level)),
                None => (self.flashed(NOTHING_TO_OPEN@, now), Step::Stay),
            },
            Action::Ascend => (AppModel { nav: self.nav.ascended(), ..self }, Step::Stay),
            Action::Unwind => (AppModel { nav: self.nav.ascended(), ..self }, Step::Stay),
            Action::CreateEpic => match self.read_only {
                Some(reason) => (
                    self.flashed(self.gate.worded(reason.stands_for()), now),
                    Step::Stay,
                ),
                None => if self.nav.frames.len() == 1 {
                    (
                        AppModel { surface: Some(SurfaceModel::creating_epic()), ..self },
                        Step::Stay,
                    )
                } else {
                    (self.flashed(EPICS_ARE_MADE_FROM_THE_EPICS_LIST@, now), Step::Stay)
                },
            },
            Action::EnterEditing => match (self.read_only, self.nav.selected()) {
                (Some(reason), _) => (
                    self.flashed(self.gate.worded(reason.stands_for()), now),
                    Step::Stay,
                ),
                (None, Some(selection)) => (
                    AppModel { editing: Some(selection), ..self },
                    Step::Stay,
                ),
                (None, None) => (self.flashed(NOTHING_TO_EDIT@, now), Step::Stay),
            },
            Action::PreviewHalfDown => (
                self.reading(self.pane.down(self.half_page())),
                Step::Stay,
            ),
            Action::PreviewHalfUp => (
                self.reading(self.pane.up(self.half_page())),
                Step::Stay,
            ),
            Action::PreviewPageDown => (
                self.reading(self.pane.down(self.pane.step())),
                Step::Stay,
            ),
            Action::PreviewPageUp => (
                self.reading(self.pane.up(self.pane.step())),
                Step::Stay,
            ),
            Action::PreviewTop => (self.reading(self.pane.top()), Step::Stay),
            Action::PreviewBottom => (self.reading(self.pane.bottom()), Step::Stay),
            Action::ShrinkNav => (
                self.split_at(self.nav_percent - RESIZE_STEP),
                Step::Stay,
            ),
            Action::GrowNav => (
                self.split_at(self.nav_percent + RESIZE_STEP),
                Step::Stay,
            ),
            Action::ResetSplit => (self.split_at(DEFAULT_NAV_PERCENT as int), Step::Stay),
            Action::ToggleZoom => (AppModel { zoomed: !self.zoomed, ..self }, Step::Stay),
            Action::Reload => (self, Step::Reload),
            _ => (self, Step::Stay),
        }
    }

    /// What an intent comes to: ending the session is decided for every layer at
    /// once, and every other intent belongs to the innermost layer open — an
    /// overlay, a surface, editing mode, and browsing under them all.
    pub open spec fn applied(self, action: Action, now: u64) -> (AppModel, Step<Text>) {
        if action is Quit {
            self.quitting(now)
        } else if self.modal is Some {
            self.over_a_modal(self.modal->0, action)
        } else if self.surface is Some {
            self.in_a_surface(self.surface->0, action)
        } else if self.editing is Some {
            self.in_editing(action, now)
        } else if self.zoomed && self.zoomed_in(action, now) is Some {
            self.zoomed_in(action, now)->0
        } else {
            self.browsed(action, now)
        }
    }

    /// The browser inside the level that was listed.
    pub open spec fn descended(self, rows: Seq<Row<Text>>) -> AppModel {
        AppModel { nav: self.nav.descended(rows), ..self }
    }

    /// The browser re-read: every level from its listing, and the store asked again
    /// whether it may be written. Editing ends where it may not.
    pub open spec fn refreshed(
        self,
        listings: Seq<Option<Vec<Row>>>,
        verdict: Option<ReadOnly>,
        now: u64,
    ) -> AppModel {
        let read = AppModel { nav: self.nav.reloaded(listings), read_only: verdict, ..self };
        if verdict is Some && self.editing is Some {
            (AppModel { editing: None, ..read }).flashed(EDITING_STOPPED_READ_ONLY@, now)
        } else {
            read
        }
    }

    /// The browser after a reload the reader asked for: re-read, and editing ended
    /// where the row it was on is gone.
    pub open spec fn reloaded(
        self,
        listings: Seq<Option<Vec<Row>>>,
        verdict: Option<ReadOnly>,
        now: u64,
    ) -> AppModel {
        let read = self.refreshed(listings, verdict, now);
        if read.editing is Some && read.nav.selected() != read.editing {
            (AppModel { editing: None, ..read }).flashed(THE_ROW_IS_GONE@, now)
        } else {
            read
        }
    }

    /// The browser after a write: re-read where the store changed, then the session
    /// ended with a notice where it succeeded, and a dialog over everything as it
    /// was where it was refused.
    pub open spec fn committed(
        self,
        write: Write<Text>,
        done: Text,
        outcome: Result<Effect<Text>, Refusal<Text>>,
        listings: Seq<Option<Vec<Row>>>,
        verdict: Option<ReadOnly>,
        now: u64,
    ) -> AppModel {
        match outcome {
            Ok(effect) => (AppModel {
                surface: None,
                editing: None,
                ..self.refreshed(listings, verdict, now)
            }).flashed(report_of(done, effect), now),
            Err(Refusal::Conflict) => self.asked(
                DialogModel::conflicting(write.spec_target().spec_reference(), write, done),
            ),
            Err(Refusal::Rule(words)) => (AppModel { read_only: verdict, ..self }).asked(
                DialogModel::refusing(words),
            ),
            Err(Refusal::Partial(words)) => self.refreshed(listings, verdict, now).asked(
                DialogModel::refusing(words),
            ),
        }
    }

    /// What accepting a surface that names a reference comes to, once the store has
    /// read it.
    pub open spec fn read_as(self, reading: Result<NodeRef<Text>, Text>) -> Step<Text> {
        match self.surface {
            Some(surface) => {
                let (write, done) = surface.spec_write(reading);
                Step::Commit { write, done }
            },
            None => Step::Stay,
        }
    }

    /// The browser with a surface opened on what was read, or the failure reported.
    pub open spec fn opened(self, surface: Result<SurfaceModel, Text>) -> AppModel {
        match surface {
            Ok(surface) => AppModel { surface: Some(surface), ..self },
            Err(words) => self.asked(DialogModel::unreadable(words)),
        }
    }

    /// Whether the pane is of another width, or shows another document.
    pub open spec fn stale(self, width: u16) -> bool {
        width != self.preview_width || self.document() != self.shown
    }

    /// What is to be loaded into a pane of some width, if anything.
    pub open spec fn unloaded(self, width: u16) -> Option<Option<Selection<Text>>> {
        if self.stale(width) {
            Some(self.nav.spec_preview_target())
        } else {
            None
        }
    }

    /// The browser with its pane brought in line: a new one where the width is
    /// another, and at its start where the document is.
    pub open spec fn synced(self, width: u16) -> AppModel {
        let pane = if width == self.preview_width {
            self.pane
        } else {
            Pane::empty().wrapped_to(
                if width > 1 {
                    width as usize
                } else {
                    1
                },
            )
        };
        AppModel {
            pane: if self.document() == self.shown {
                pane
            } else {
                pane.top()
            },
            preview_width: width,
            shown: self.document(),
            ..self
        }
    }

    /// The document the preview is to show.
    pub open spec fn document(self) -> Option<Selection<Text>> {
        match self.nav.spec_preview_target() {
            Some(target) => Some(target.spec_document()),
            None => None,
        }
    }
}

/// Whether two selections, either of which may be absent, are one.
fn same_selection(a: Option<&Selection>, b: Option<&Selection>) -> (r: bool)
    ensures
        r == (seen(a) == seen(b)),
{
    match (a, b) {
        (Some(a), Some(b)) => a.same(b),
        (None, None) => true,
        _ => false,
    }
}

impl App {
    /// Open the browser on a store's roster, positioned at its first epic. Whether
    /// the store may be written was asked before the first frame: a session that
    /// cannot write must not offer to.
    pub fn new(rows: Vec<Row>, read_only: Option<ReadOnly>, gate: GateWords) -> (r: Self)
        ensures
            r@.wf(),
            r@ == AppModel::opened_on(rows_shown(rows@), read_only, gate),
    {
        App {
            nav: Nav::new(rows),
            viewer: MarkdownViewer::new(),
            preview_width: 0,
            shown: None,
            nav_percent: DEFAULT_NAV_PERCENT,
            zoomed: false,
            modal: None,
            divider_column: None,
            dragging_divider: false,
            // The opening frame is owed: the browser paints before any input.
            redraw: true,
            flash: None,
            read_only,
            editing: None,
            surface: None,
            editor_handoff: None,
            gate,
        }
    }

    /// The navigation position.
    pub fn nav(&self) -> (r: &Nav)
        ensures
            r@ == self@.nav,
    {
        &self.nav
    }

    /// The open overlay, if any.
    pub fn modal(&self) -> (r: Option<&Modal>)
        ensures
            seen(r) == self@.modal,
    {
        self.modal.as_ref()
    }

    /// Whether the preview currently fills the width.
    pub fn zoomed(&self) -> (r: bool)
        ensures
            r == self@.zoomed,
    {
        self.zoomed
    }

    /// The navigation pane's share of the width.
    pub fn nav_percent(&self) -> (r: u16)
        ensures
            r == self@.nav_percent,
    {
        self.nav_percent
    }

    /// The row editing mode is acting on, or `None` while browsing.
    pub fn editing_target(&self) -> (r: Option<&Selection>)
        ensures
            seen(r) == self@.editing,
    {
        self.editing.as_ref()
    }

    /// Why the store may not be written, or `None` while it may be.
    pub fn read_only(&self) -> (r: Option<ReadOnly>)
        ensures
            r == self@.read_only,
    {
        self.read_only
    }

    /// The open editing surface, if any.
    pub fn surface(&self) -> (r: Option<&Surface>)
        ensures
            seen(r) == self@.surface,
    {
        self.surface.as_ref()
    }

    /// Which set of bindings the keyboard is under.
    ///
    /// A dialog is a mode of its own, because a question must admit its own
    /// answers and nothing else. The key overlay is not: it is a layer above
    /// whichever mode raised it. An open surface takes every key, so it outranks
    /// the mode that opened it.
    pub fn mode(&self) -> (r: Mode)
        ensures
            r == self@.mode(),
    {
        if let Some(Modal::Dialog(dialog)) = &self.modal {
            return Mode::Dialog(dialog.answers);
        }
        match &self.surface {
            Some(surface) => Mode::Surface(surface.shape()),
            None => if self.editing.is_some() {
                Mode::Editing
            } else {
                Mode::Browse
            },
        }
    }

    /// The hints editing mode's strip may drop: those of the actions the frozen row
    /// offers, in the order the key map lists them.
    ///
    /// One predicate decides both what is listed and what the key does — so the
    /// strip can never name a letter that performs nothing on the row, nor hide one
    /// that performs something.
    pub fn editing_hints(&self, table: &Vec<(RowAction, &'static str)>) -> (r: Vec<&'static str>)
        requires
            self@.wf(),
        ensures
            r@ == table@.filter(|entry: (RowAction, &'static str)| self@.offers(entry.0)).map_values(
                |entry: (RowAction, &'static str)| entry.1,
            ),
    {
        let mut out: Vec<&'static str> = Vec::new();
        let ghost offered = |entry: (RowAction, &'static str)| self@.offers(entry.0);
        let ghost hint = |entry: (RowAction, &'static str)| entry.1;
        let mut i: usize = 0;
        proof {
            assert(table@.take(0) =~= Seq::empty());
            reveal(Seq::filter);
        }
        while i < table.len()
            invariant
                i <= table.len(),
                self@.wf(),
                offered == (|entry: (RowAction, &'static str)| self@.offers(entry.0)),
                hint == (|entry: (RowAction, &'static str)| entry.1),
                out@ == table@.take(i as int).filter(offered).map_values(hint),
            decreases table.len() - i,
        {
            let (action, word) = table[i];
            proof {
                reveal(Seq::filter);
                assert(table@.take(i + 1).drop_last() =~= table@.take(i as int));
                assert(table@.take(i + 1).last() == table@[i as int]);
            }
            if self.offers(action) {
                proof {
                    let kept = table@.take(i as int).filter(offered);
                    assert(kept.push(table@[i as int]).map_values(hint) =~= kept.map_values(
                        hint,
                    ).push(hint(table@[i as int])));
                }
                out.push(word);
            }
            i += 1;
        }
        assert(table@.take(table.len() as int) =~= table@);
        out
    }

    /// Whether the frozen row offers an editing action, which is exactly when the
    /// strip lists its hint.
    ///
    /// A signpost is not an offer: it performs nothing, so a hint naming its letter
    /// would teach a key that writes nothing.
    pub fn offers(&self, action: RowAction) -> (r: bool)
        requires
            self@.wf(),
        ensures
            r == self@.offers(action),
    {
        match self.offer(action) {
            Some(Offer::Signpost(_)) => false,
            Some(_) => true,
            None => false,
        }
    }

    /// The highlighted row, where it is the one the mode is acting on: a holder or
    /// an author can never arrive from a row the mode is not on.
    fn frozen_row(&self, target: &Selection) -> (r: Option<&Row>)
        requires
            self@.wf(),
        ensures
            seen(r) == self@.row_of(target@),
    {
        match self.nav.frame().current() {
            Some(row) => if row.selection.same(target) {
                Some(row)
            } else {
                None
            },
            None => None,
        }
    }

    /// Who holds the claim on the frozen row, or `None` while nobody does — which
    /// includes a row that cannot be claimed at all.
    ///
    /// Taken off the row the mode froze, which is the same value the marker beside
    /// that row is drawn from, so an offer and the mark the reader is looking at
    /// cannot disagree.
    fn frozen_holder(&self, target: &Selection) -> (r: Option<&str>)
        requires
            self@.wf(),
        ensures
            seen(r) == holder_on(self@.row_of(target@)),
    {
        match self.frozen_row(target) {
            Some(row) => match &row.kind {
                RowKind::Work { claimed_by, .. } => match claimed_by {
                    Some(holder) => Some(holder.as_str()),
                    None => None,
                },
                _ => None,
            },
            None => None,
        }
    }

    /// Whether the frozen row is a live comment the human wrote, which is the whole
    /// of whether a comment may be rewritten or withdrawn from here.
    fn frozen_comment_is_the_humans(&self, target: &Selection) -> (r: bool)
        requires
            self@.wf(),
        ensures
            r == is_the_humans(self@.row_of(target@)),
    {
        match self.frozen_row(target) {
            Some(row) => match &row.kind {
                RowKind::Comment { by_the_human } => *by_the_human,
                _ => false,
            },
            None => false,
        }
    }

    /// What an editing action opens on the frozen row, or `None` where the row does
    /// not offer that action.
    ///
    /// Invariant: this is the whole of what a letter does on a row — both the hint
    /// strip and the key ask it. A store the format gate will not let this binary
    /// write offers no row anything.
    ///
    /// A question names the object, because the frozen row is dimmed and the
    /// members of a collection read alike. The notice names it for the same reason
    /// — by the time it is read the row is gone.
    pub fn offer(&self, action: RowAction) -> (r: Option<Offer>)
        requires
            self@.wf(),
        ensures
            seen(r) == self@.offer(action),
            r matches Some(Offer::Ask(dialog)) ==> dialog@.wf(),
            r matches Some(Offer::Fill(surface)) ==> surface@.wf(),
    {
        if self.read_only.is_some() {
            return None;
        }
        let target = match &self.editing {
            Some(target) => target,
            None => return None,
        };
        match action {
            RowAction::Add => self.offer_to_add(target),
            // Only an epic and a node have a name, a summary and a body of their
            // own. The letter that names a row's long-form text is the exception:
            // on a comment row it reaches the comment's own text, and only where
            // the human wrote it.
            RowAction::Edit(field) => match target {
                Selection::Epic(_) | Selection::Node(_) => Some(
                    Offer::Compose(Composed::Field(field)),
                ),
                Selection::Comment(..) => if matches!(field, FreeForm::Body)
                    && self.frozen_comment_is_the_humans(target) {
                    Some(Offer::Compose(Composed::CommentText))
                } else {
                    None
                },
                _ => None,
            },
            RowAction::SetState => match target {
                Selection::Epic(_) | Selection::Node(_) => Some(Offer::Compose(Composed::State)),
                _ => None,
            },
            // A claim is taken on a unit of work. Taking is reassigning, so a held
            // claim is offered the same letter as an unheld one.
            RowAction::TakeClaim => match target {
                Selection::Node(_) => Some(Offer::Fill(Surface::take_claim(target.clone()))),
                _ => None,
            },
            // Offered only while a claim is held: there is nothing to give up on a
            // row nobody is on.
            RowAction::ReleaseClaim => match target {
                Selection::Node(_) => match self.frozen_holder(target) {
                    Some(holder) => Some(
                        Offer::Perform {
                            write: Write::ReleaseClaim(target.clone()),
                            done: joined(
                                &joined3("claim on ", &target.reference(), " released by "),
                                holder,
                            ),
                        },
                    ),
                    None => None,
                },
                _ => None,
            },
            RowAction::Delete => self.offer_to_delete(target),
        }
    }

    /// What adding to the frozen row opens.
    ///
    /// Creation acts on the container row the cursor stands on: an epic's row makes
    /// a top-level ticket, a ticket's row a subticket, and a collection's row a
    /// member of it. A dependency list belongs to a node. Attaching a payload is
    /// the command line's, so an assets row performs nothing and names the command
    /// that does — the command first, because a notice is one line and clipping
    /// eats the tail.
    fn offer_to_add(&self, target: &Selection) -> (r: Option<Offer>)
        ensures
            seen(r) == addition_on(target@),
            r matches Some(Offer::Ask(dialog)) ==> dialog@.wf(),
            r matches Some(Offer::Fill(surface)) ==> surface@.wf(),
    {
        match target {
            Selection::Epic(_) | Selection::Node(_) => Some(
                Offer::Fill(Surface::create_node(target.clone())),
            ),
            Selection::Collection(container, Collection::Labels) => Some(
                Offer::Fill(Surface::add_label(target.clone(), &container.reference())),
            ),
            Selection::Collection(container, Collection::Comments) => Some(
                Offer::Fill(Surface::add_comment(target.clone(), &container.reference())),
            ),
            Selection::Collection(container, Collection::BlockedBy) => match container {
                Container::Node(_) => Some(
                    Offer::Fill(Surface::add_blocker(target.clone(), &container.reference())),
                ),
                Container::Epic(_) => None,
            },
            Selection::Collection(container, Collection::Assets) => Some(
                Offer::Signpost(
                    joined(
                        &joined3(
                            &joined("loti ", container.cli_noun()),
                            " asset add ",
                            &container.reference(),
                        ),
                        " --file <path> — assets are attached from the command line",
                    ),
                ),
            ),
            _ => None,
        }
    }

    /// What deleting the frozen row asks.
    ///
    /// A label set and a dependency list have no rename, so their members are only
    /// ever removed; an asset's deletion is hard; a comment is withdrawn rather
    /// than removed, and only its author may withdraw it.
    fn offer_to_delete(&self, target: &Selection) -> (r: Option<Offer>)
        requires
            self@.wf(),
        ensures
            seen(r) == deletion_on(target@, self@.row_of(target@)),
            r matches Some(Offer::Ask(dialog)) ==> dialog@.wf(),
            r matches Some(Offer::Fill(surface)) ==> surface@.wf(),
    {
        match target {
            Selection::Label(_, label) => Some(
                Offer::Ask(
                    Dialog::confirm(
                        joined3("Remove label ", label, "?"),
                        "remove",
                        Performs::Write {
                            write: Write::RemoveLabel(target.clone()),
                            done: joined3("label ", label, " removed"),
                        },
                        "cancel",
                    ),
                ),
            ),
            Selection::Blocker(..) => {
                let blocker = target.reference();
                Some(
                    Offer::Ask(
                        Dialog::confirm(
                            joined3("Remove blocker ", &blocker, "?"),
                            "remove",
                            Performs::Write {
                                write: Write::RemoveBlocker(target.clone()),
                                done: joined3("blocker ", &blocker, " removed"),
                            },
                            "cancel",
                        ),
                    ),
                )
            },
            Selection::Asset(_, name) => Some(
                Offer::Ask(
                    Dialog::confirm(
                        joined3("Delete asset ", name, "?"),
                        "delete",
                        Performs::Write {
                            write: Write::DeleteAsset(target.clone()),
                            done: joined3("asset ", name, " deleted"),
                        },
                        "cancel",
                    ),
                ),
            ),
            Selection::Comment(_, id) => if self.frozen_comment_is_the_humans(target) {
                Some(
                    Offer::Ask(
                        Dialog::confirm(
                            joined3("Delete comment ", &number_text(*id), "?"),
                            "delete",
                            Performs::Write {
                                write: Write::DeleteComment(target.clone()),
                                done: joined3("comment ", &number_text(*id), " deleted"),
                            },
                            "cancel",
                        ),
                    ),
                )
            } else {
                None
            },
            _ => None,
        }
    }

    /// Carry out an intent, answering with what is left to do for it.
    ///
    /// While an overlay is open it takes every key, so a keypress can never move
    /// an unseen cursor. An open surface is the layer under it, editing mode the
    /// layer under that, and unwinding takes one layer at a time. Ending the
    /// session is decided before any layer is consulted, because it is the one
    /// intent no layer may answer for itself.
    ///
    /// `now` is the session's clock, which a notice raised on the way is stamped
    /// with.
    pub fn apply(&mut self, action: Action, now: u64) -> (step: Step)
        requires
            old(self)@.wf(),
        ensures
            final(self)@ == old(self)@.applied(action, now).0,
            step@ == old(self)@.applied(action, now).1,
            final(self)@.wf(),
    {
        if matches!(action, Action::Quit) {
            return self.quit(now);
        }
        if self.modal.is_some() {
            return self.apply_to_modal(action);
        }
        if self.surface.is_some() {
            return self.apply_to_surface(action);
        }
        if self.editing.is_some() {
            return self.apply_editing(action, now);
        }
        self.apply_browsing(action, now)
    }

    /// Whether the session ends where the reader is standing, and the notice for
    /// where it does not.
    ///
    /// **Quitting never discards text the store has not been given.** Two layers
    /// can hold some — an open buffer, and editing mode — so while either stands
    /// the session stays and the notice names the way out of that layer. A dialog
    /// refuses it in silence: it must be answered rather than escaped past.
    fn quit(&mut self, now: u64) -> (step: Step)
        requires
            old(self)@.wf(),
        ensures
            final(self)@ == old(self)@.quitting(now).0,
            step@ == old(self)@.quitting(now).1,
            final(self)@.wf(),
    {
        if let Some(Modal::Dialog(_)) = &self.modal {
            return Step::Stay;
        }
        if self.surface.is_some() {
            self.flash(NOT_A_WAY_OUT_OF_A_BUFFER, now);
            return Step::Stay;
        }
        if self.editing.is_some() {
            self.flash(NOT_AN_EDITING_ACTION, now);
            return Step::Stay;
        }
        Step::Quit
    }

    /// Open a dialog over everything.
    fn ask(&mut self, dialog: Dialog)
        requires
            old(self)@.wf(),
            dialog@.wf(),
        ensures
            final(self)@ == old(self)@.asked(dialog@),
            final(self)@.wf(),
    {
        self.modal = Some(Modal::Dialog(Box::new(dialog)));
    }

    /// Carry out an intent while an overlay is open.
    ///
    /// The key overlay is closed by the way out of whichever mode raised it. A
    /// dialog admits the answers it lists and nothing else: which intent goes ahead
    /// is the open dialog's answer set to say, so one dialog's answer can never
    /// perform another's.
    fn apply_to_modal(&mut self, action: Action) -> (step: Step)
        requires
            old(self)@.wf(),
            old(self)@.modal is Some,
        ensures
            final(self)@ == old(self)@.over_a_modal(old(self)@.modal->0, action).0,
            step@ == old(self)@.over_a_modal(old(self)@.modal->0, action).1,
            final(self)@.wf(),
    {
        if let Some(Modal::Help) = &self.modal {
            match action {
                Action::ToggleHelp | Action::Unwind | Action::Ascend => {
                    self.modal = None;
                },
                _ => {},
            }
            return Step::Stay;
        }
        let affirmative: Option<Action> = match self.dialog_answers() {
            Some(answers) => answers.affirmative(),
            None => None,
        };
        if let Some(answer) = affirmative {
            if answer == action {
                return self.answer();
            }
        }
        if matches!(action, Action::Unwind) {
            self.dismiss();
        }
        Step::Stay
    }

    /// The answers the open dialog admits, or `None` when what is open is not a
    /// dialog.
    fn dialog_answers(&self) -> (r: Option<Answers>)
        ensures
            r == (match self@.modal {
                Some(Modal::Dialog(dialog)) => Some(dialog.answers),
                _ => None,
            }),
    {
        match &self.modal {
            Some(Modal::Dialog(dialog)) => Some(dialog.answers),
            _ => None,
        }
    }

    /// Get out of the open overlay, landing wherever it says the reader belongs.
    ///
    /// Dismissal is unconditional: the overlay always goes. A warning about an
    /// empty field puts the reader back in that field, so answering it is typing
    /// rather than hunting.
    fn dismiss(&mut self)
        requires
            old(self)@.wf(),
        ensures
            final(self)@ == old(self)@.dismissed(),
            final(self)@.wf(),
    {
        let performs: Option<OnDismissal> = match &self.modal {
            Some(Modal::Dialog(dialog)) => dialog.dismissal.performs,
            _ => None,
        };
        self.modal = None;
        if let Some(OnDismissal::Focus(field)) = performs {
            if let Some(mut surface) = self.surface.take() {
                let count: usize = surface.fields.len();
                surface.focus = if field < count {
                    field
                } else {
                    count - 1
                };
                self.surface = Some(surface);
            }
        }
    }

    /// Carry out what the open dialog's answer performs. A dialog that only reports
    /// has a way out and no answer: it stands until it is dismissed.
    fn answer(&mut self) -> (step: Step)
        requires
            old(self)@.wf(),
            old(self)@.modal matches Some(Modal::Dialog(_)),
        ensures
            old(self)@.modal matches Some(Modal::Dialog(dialog)) && final(self)@ == old(
                self,
            )@.answered(dialog).0 && step@ == old(self)@.answered(dialog).1,
            final(self)@.wf(),
    {
        let performs: Option<Performs> = match &self.modal {
            Some(Modal::Dialog(dialog)) => match &dialog.affirmative {
                Some(answer) => Some(answer.performs.clone()),
                None => None,
            },
            _ => None,
        };
        match performs {
            None => Step::Stay,
            Some(Performs::Write { write, done }) => {
                self.modal = None;
                Step::Commit { write, done }
            },
            // Nothing reaches the store, and the mode stays on its frozen row: the
            // surface is the layer that was asked about.
            Some(Performs::Discard) => {
                self.modal = None;
                self.surface = None;
                Step::Stay
            },
        }
    }

    /// Carry out an intent while a surface is open.
    ///
    /// Every key belongs to the field except the surface's own few: accept, the
    /// external editor, the keys that move between fields, help, and the way out —
    /// which asks first of a buffer with typing in it.
    fn apply_to_surface(&mut self, action: Action) -> (step: Step)
        requires
            old(self)@.wf(),
            old(self)@.surface is Some,
        ensures
            final(self)@ == old(self)@.in_a_surface(old(self)@.surface->0, action).0,
            step@ == old(self)@.in_a_surface(old(self)@.surface->0, action).1,
            final(self)@.wf(),
    {
        match action {
            Action::Unwind => {
                let warned: Option<Dialog> = match &self.surface {
                    Some(surface) => match surface.dirtied() {
                        Some(i) => Some(Dialog::discard(&surface.fields[i].label)),
                        None => None,
                    },
                    None => None,
                };
                match warned {
                    Some(dialog) => self.ask(dialog),
                    None => {
                        self.surface = None;
                    },
                }
                Step::Stay
            },
            Action::Accept => self.accept(),
            // Only a field made of text has anything to hand over.
            Action::ExternalEditor => {
                let handed: Option<String> = match &self.surface {
                    Some(surface) => {
                        let focus = surface.focus();
                        match surface.fields[focus].text() {
                            Some(text) => Some(text.to_owned()),
                            None => None,
                        }
                    },
                    None => None,
                };
                if handed.is_some() {
                    self.editor_handoff = handed;
                }
                Step::Stay
            },
            Action::NextField => {
                if let Some(mut surface) = self.surface.take() {
                    surface.move_focus(true);
                    self.surface = Some(surface);
                }
                Step::Stay
            },
            Action::PreviousField => {
                if let Some(mut surface) = self.surface.take() {
                    surface.move_focus(false);
                    self.surface = Some(surface);
                }
                Step::Stay
            },
            Action::ToggleHelp => {
                self.modal = Some(Modal::Help);
                Step::Stay
            },
            _ => {
                if let Some(mut surface) = self.surface.take() {
                    surface.apply(action);
                    self.surface = Some(surface);
                }
                Step::Stay
            },
        }
    }

    /// Accept the open surface: check the store has something to be given, then
    /// write.
    ///
    /// The check is not a store rule reimplemented: it is the browser refusing to
    /// send a field the reader never filled in, and saying which field that is.
    /// Emptiness first, then the shape of what is there.
    fn accept(&mut self) -> (step: Step)
        requires
            old(self)@.wf(),
            old(self)@.surface is Some,
        ensures
            final(self)@ == old(self)@.accepted(old(self)@.surface->0).0,
            step@ == old(self)@.accepted(old(self)@.surface->0).1,
            final(self)@.wf(),
    {
        let surface = match &self.surface {
            Some(surface) => surface,
            None => return Step::Stay,
        };
        if let Some(i) = surface.unfilled() {
            let dialog = Dialog::required(&surface.fields[i].label, i);
            self.ask(dialog);
            return Step::Stay;
        }
        if let Some((i, why)) = surface.rejected() {
            self.ask(Dialog::rejected(why, i));
            return Step::Stay;
        }
        match surface.token() {
            Some(token) => Step::ReadReference(token),
            None => {
                let reading: Reading = Err(String::new());
                let (write, done) = surface.write(&reading);
                Step::Commit { write, done }
            },
        }
    }

    /// What accepting the open surface comes to, once the store has read the
    /// reference it names.
    pub fn reference_read(&self, reading: &Reading) -> (step: Step)
        ensures
            step@ == self@.read_as(viewed(*reading)),
    {
        match &self.surface {
            Some(surface) => {
                let (write, done) = surface.write(reading);
                Step::Commit { write, done }
            },
            None => Step::Stay,
        }
    }

    /// Report what came of a write.
    ///
    /// A successful write ends the editing session, the surface with it, and says
    /// what it did. A refused one keeps everything: only a successful write ends
    /// the session.
    ///
    /// Invariant: every changed outcome is re-read before the result is shown, a
    /// cascade that closed descendants and then refused included. A refusal by rule
    /// can be the version gate itself, so the store's writability is what was asked
    /// of it again. A conflict is the one refusal the reader is asked about.
    ///
    /// `listings` is what was listed for each of [`Nav::levels`], and is looked at
    /// where the store changed; `verdict` is whether it may be written, and is
    /// looked at everywhere but on a conflict.
    pub fn committed(
        &mut self,
        write: &Write,
        done: String,
        outcome: Result<Effect, Refusal>,
        listings: &Vec<Option<Vec<Row>>>,
        verdict: Option<ReadOnly>,
        now: u64,
    )
        requires
            old(self)@.wf(),
        ensures
            final(self)@ == old(self)@.committed(
                write@,
                done@,
                viewed(outcome),
                listings@,
                verdict,
                now,
            ),
            final(self)@.wf(),
    {
        match outcome {
            Ok(effect) => {
                self.reload(listings, verdict, now);
                self.surface = None;
                self.editing = None;
                let notice = reported(done, effect);
                self.flash(&notice, now);
            },
            Err(Refusal::Conflict) => {
                let reference = write.target().reference();
                self.ask(Dialog::conflict(&reference, write.clone(), done));
            },
            Err(Refusal::Rule(message)) => {
                self.read_only = verdict;
                self.ask(Dialog::refusal(message));
            },
            Err(Refusal::Partial(message)) => {
                self.reload(listings, verdict, now);
                self.ask(Dialog::refusal(message));
            },
        }
    }

    /// The text an external editor has been asked to take, clearing the request.
    pub fn take_editor_handoff(&mut self) -> (r: Option<String>)
        ensures
            seen(r) == old(self)@.editor_handoff,
            final(self)@ == (AppModel { editor_handoff: None, ..old(self)@ }),
    {
        self.editor_handoff.take()
    }

    /// Take an external editor's result back into the field it came from. It counts
    /// as content the reader wrote.
    pub fn editor_returned(&mut self, text: &str)
        requires
            old(self)@.wf(),
        ensures
            final(self)@ == (match old(self)@.surface {
                Some(surface) => AppModel { surface: Some(surface.replaced(text@)), ..old(self)@ },
                None => old(self)@,
            }),
            final(self)@.wf(),
    {
        if let Some(mut surface) = self.surface.take() {
            surface.take_back(text);
            self.surface = Some(surface);
        }
    }

    /// Report that the external editor could not run, keeping the buffer.
    pub fn editor_failed(&mut self, message: String)
        requires
            old(self)@.wf(),
        ensures
            final(self)@ == old(self)@.asked(DialogModel::without_an_editor(message@)),
            final(self)@.wf(),
    {
        self.ask(
            Dialog::report(
                EDITOR_TITLE,
                message,
                Dismissal { word: "back to the field", performs: None },
            ),
        );
    }

    /// Carry out an intent while editing mode is on.
    ///
    /// The mode admits the actions the frozen row offers, the way out, help and a
    /// reload. A key bound to some other action is answered with a notice naming
    /// the way out: an unknown key is deliberately not an implicit exit. A key bound
    /// to nothing at all stays silent, and so does the wheel, which is not a key.
    fn apply_editing(&mut self, action: Action, now: u64) -> (step: Step)
        requires
            old(self)@.wf(),
        ensures
            final(self)@ == old(self)@.in_editing(action, now).0,
            step@ == old(self)@.in_editing(action, now).1,
            final(self)@.wf(),
    {
        match action {
            Action::Unwind => {
                self.editing = None;
                Step::Stay
            },
            Action::ToggleHelp => {
                self.modal = Some(Modal::Help);
                Step::Stay
            },
            Action::Unbound => Step::Stay,
            Action::Reload => Step::Reload,
            Action::WheelDown | Action::WheelUp => Step::Stay,
            _ => {
                let offer: Option<Offer> = match RowAction::for_intent(action) {
                    Some(asked) => self.offer(asked),
                    None => None,
                };
                match offer {
                    Some(Offer::Ask(dialog)) => {
                        self.ask(dialog);
                        Step::Stay
                    },
                    Some(Offer::Fill(surface)) => {
                        self.surface = Some(surface);
                        Step::Stay
                    },
                    Some(Offer::Compose(composed)) => Step::Compose(composed),
                    // Nothing to fill in and nothing to ask: the row carried the
                    // whole write, so the letter is the whole interaction.
                    Some(Offer::Perform { write, done }) => Step::Commit { write, done },
                    Some(Offer::Signpost(notice)) => {
                        self.flash(&notice, now);
                        Step::Stay
                    },
                    None => {
                        self.flash(NOT_AN_EDITING_ACTION, now);
                        Step::Stay
                    },
                }
            },
        }
    }

    /// Carry out an intent while nothing is open over the levels.
    ///
    /// Zoom hides the navigation pane, so the motion keys fall through to the
    /// preview: they must never move a cursor the reader cannot see. The wheel
    /// shares every arm with the key it stands in for here. The letters of editing
    /// mode's actions, and the keys of an open surface, are bound inside those
    /// layers only, so nothing carries them here.
    fn apply_browsing(&mut self, action: Action, now: u64) -> (step: Step)
        requires
            old(self)@.wf(),
        ensures
            ({
                let after = if old(self)@.zoomed && old(self)@.zoomed_in(action, now) is Some {
                    old(self)@.zoomed_in(action, now)->0
                } else {
                    old(self)@.browsed(action, now)
                };
                final(self)@ == after.0 && step@ == after.1
            }),
            final(self)@.wf(),
    {
        if self.zoomed {
            match action {
                Action::CursorDown | Action::WheelDown => {
                    self.viewer.scroll_down(1);
                    return Step::Stay;
                },
                Action::CursorUp | Action::WheelUp => {
                    self.viewer.scroll_up(1);
                    return Step::Stay;
                },
                Action::CursorFirst => {
                    self.viewer.scroll_to_top();
                    return Step::Stay;
                },
                Action::CursorLast => {
                    self.viewer.scroll_to_bottom();
                    return Step::Stay;
                },
                // Silent, deliberately: with the navigation pane hidden there is no
                // visible cursor for a reader to expect these to move.
                Action::Descend | Action::Ascend | Action::Unwind => return Step::Stay,
                // The same rule, said out loud because nothing on screen would say
                // it. The screen is the reader's, so the refusal leaves it as it is.
                Action::EnterEditing => {
                    self.flash(EDITING_NEEDS_THE_NAV_PANE, now);
                    return Step::Stay;
                },
                _ => {},
            }
        }
        match action {
            Action::ToggleHelp => {
                self.modal = Some(Modal::Help);
                Step::Stay
            },
            Action::CursorDown | Action::WheelDown => {
                self.nav.cursor_down();
                Step::Stay
            },
            Action::CursorUp | Action::WheelUp => {
                self.nav.cursor_up();
                Step::Stay
            },
            Action::CursorFirst => {
                self.nav.cursor_first();
                Step::Stay
            },
            Action::CursorLast => {
                self.nav.cursor_last();
                Step::Stay
            },
            Action::Descend => match self.nav.below() {
                Some(level) => Step::List(level),
                // Why nothing happened: the row has no level under it.
                None => {
                    self.flash(NOTHING_TO_OPEN, now);
                    Step::Stay
                },
            },
            // Nothing is open above the level, so unwinding is leaving it.
            Action::Ascend | Action::Unwind => {
                self.nav.ascend();
                Step::Stay
            },
            Action::CreateEpic => {
                self.create_epic(now);
                Step::Stay
            },
            Action::EnterEditing => {
                self.enter_editing(now);
                Step::Stay
            },
            Action::PreviewHalfDown => {
                let lines: u16 = self.half_page();
                self.viewer.scroll_down(lines);
                Step::Stay
            },
            Action::PreviewHalfUp => {
                let lines: u16 = self.half_page();
                self.viewer.scroll_up(lines);
                Step::Stay
            },
            Action::PreviewPageDown => {
                self.viewer.page_down();
                Step::Stay
            },
            Action::PreviewPageUp => {
                self.viewer.page_up();
                Step::Stay
            },
            Action::PreviewTop => {
                self.viewer.scroll_to_top();
                Step::Stay
            },
            Action::PreviewBottom => {
                self.viewer.scroll_to_bottom();
                Step::Stay
            },
            Action::ShrinkNav => {
                self.set_nav_percent(self.nav_percent - RESIZE_STEP);
                Step::Stay
            },
            Action::GrowNav => {
                self.set_nav_percent(self.nav_percent + RESIZE_STEP);
                Step::Stay
            },
            Action::ResetSplit => {
                self.set_nav_percent(DEFAULT_NAV_PERCENT);
                Step::Stay
            },
            Action::ToggleZoom => {
                self.zoomed = !self.zoomed;
                Step::Stay
            },
            Action::Reload => Step::Reload,
            _ => Step::Stay,
        }
    }

    /// Open the form that creates an epic, or say why it is not opened.
    ///
    /// An epic is created from the epics list and nowhere else: it has no container
    /// row to be added from. Being outside editing mode, this does not pass the
    /// offer table, so it asks the store's own state for itself.
    fn create_epic(&mut self, now: u64)
        requires
            old(self)@.wf(),
        ensures
            final(self)@ == old(self)@.browsed(Action::CreateEpic, now).0,
            final(self)@.wf(),
    {
        match self.read_only {
            Some(reason) => {
                let words = reason.refusal(&self.gate);
                self.flash(&words, now);
            },
            None => if self.nav.at_roster() {
                self.surface = Some(Surface::create_epic());
            } else {
                self.flash(EPICS_ARE_MADE_FROM_THE_EPICS_LIST, now);
            },
        }
    }

    /// Freeze the highlighted row, or say why there is nothing to freeze.
    ///
    /// A mode whose every action is unavailable is not entered at all, and the
    /// store's own words say why.
    fn enter_editing(&mut self, now: u64)
        requires
            old(self)@.wf(),
        ensures
            final(self)@ == old(self)@.browsed(Action::EnterEditing, now).0,
            final(self)@.wf(),
    {
        match self.read_only {
            Some(reason) => {
                let words = reason.refusal(&self.gate);
                self.flash(&words, now);
            },
            None => {
                let frozen: Option<Selection> = match self.nav.frame().current() {
                    Some(row) => Some(row.selection.clone()),
                    None => None,
                };
                match frozen {
                    Some(selection) => {
                        self.editing = Some(selection);
                    },
                    None => self.flash(NOTHING_TO_EDIT, now),
                }
            },
        }
    }

    /// Enter the level that was listed for [`Step::List`].
    pub fn descended(&mut self, rows: Vec<Row>)
        requires
            old(self)@.wf(),
        ensures
            final(self)@ == old(self)@.descended(rows_shown(rows@)),
            final(self)@.wf(),
    {
        self.nav.descend(rows);
    }

    /// Open a surface on one of the frozen row's fields as the store holds it.
    ///
    /// A read that fails leaves the mode standing and says what could not be read.
    pub fn compose_field(&mut self, field: FreeForm, reading: Result<EntityReading, String>)
        requires
            old(self)@.wf(),
        ensures
            final(self)@ == (match old(self)@.editing {
                Some(target) => old(self)@.opened(
                    match fields_read(target, spoken(reading)) {
                        Ok(read) => Ok(
                            SurfaceModel::replacing(
                                Replaceable::Field(field),
                                read.selection,
                                field.held_in(read),
                                read.stamp,
                            ),
                        ),
                        Err(words) => Err(words),
                    },
                ),
                None => old(self)@,
            }),
            final(self)@.wf(),
    {
        let read = match &self.editing {
            Some(target) => edit_target(target, reading),
            None => return ,
        };
        match read {
            Ok(read) => {
                let surface = Surface::replace(
                    Replaceable::Field(field),
                    read.selection.clone(),
                    field.of(&read),
                    read.stamp,
                );
                self.surface = Some(surface);
            },
            Err(words) => self.store_unreadable(words),
        }
    }

    /// Open a surface on the frozen comment's text as the store holds it.
    pub fn compose_comment(&mut self, reading: Result<CommentsReading, String>)
        requires
            old(self)@.wf(),
        ensures
            final(self)@ == (match old(self)@.editing {
                Some(target) => old(self)@.opened(
                    match comment_read(target, spoken(reading)) {
                        Ok(read) => Ok(
                            SurfaceModel::replacing(
                                Replaceable::CommentText,
                                read.selection,
                                read.text,
                                read.stamp,
                            ),
                        ),
                        Err(words) => Err(words),
                    },
                ),
                None => old(self)@,
            }),
            final(self)@.wf(),
    {
        let read = match &self.editing {
            Some(target) => comment_target(target, reading),
            None => return ,
        };
        match read {
            Ok(read) => {
                let surface = Surface::replace(
                    Replaceable::CommentText,
                    read.selection.clone(),
                    &read.text,
                    read.stamp,
                );
                self.surface = Some(surface);
            },
            Err(words) => self.store_unreadable(words),
        }
    }

    /// Open a picker on the frozen row's state as the store holds it.
    pub fn compose_state(&mut self, reading: Result<StateReading, String>)
        requires
            old(self)@.wf(),
        ensures
            final(self)@ == (match old(self)@.editing {
                Some(target) => old(self)@.opened(
                    match state_read(target, spoken(reading)) {
                        Ok(read) => Ok(SurfaceModel::setting_state(read)),
                        Err(words) => Err(words),
                    },
                ),
                None => old(self)@,
            }),
            final(self)@.wf(),
    {
        let read = match &self.editing {
            Some(target) => state_target(target, reading),
            None => return ,
        };
        match read {
            Ok(read) => {
                let surface = Surface::set_state(read);
                self.surface = Some(surface);
            },
            Err(words) => self.store_unreadable(words),
        }
    }

    /// Re-read every level, and take the store's answer whether it may be written.
    ///
    /// A reload that finds read-only entered ends the editing session, because
    /// nothing the mode could do is offered any more, and says so once.
    fn reload(&mut self, listings: &Vec<Option<Vec<Row>>>, verdict: Option<ReadOnly>, now: u64)
        requires
            old(self)@.wf(),
        ensures
            final(self)@ == old(self)@.refreshed(listings@, verdict, now),
            final(self)@.wf(),
    {
        self.nav.reload(listings);
        self.read_only = verdict;
        if self.read_only.is_some() && self.editing.is_some() {
            self.editing = None;
            self.flash(EDITING_STOPPED_READ_ONLY, now);
        }
    }

    /// Take what a reload read: what was listed for each of [`Nav::levels`], and
    /// whether the store may be written.
    ///
    /// The mode acts on one row, so a row that is gone ends it — unless the store's
    /// writability already did, and then the notice that said so stays.
    pub fn reloaded(
        &mut self,
        listings: &Vec<Option<Vec<Row>>>,
        verdict: Option<ReadOnly>,
        now: u64,
    )
        requires
            old(self)@.wf(),
        ensures
            final(self)@ == old(self)@.reloaded(listings@, verdict, now),
            final(self)@.wf(),
    {
        self.reload(listings, verdict, now);
        if self.editing.is_some() {
            let current: Option<&Selection> = match self.nav.frame().current() {
                Some(row) => Some(&row.selection),
                None => None,
            };
            if !same_selection(current, self.editing.as_ref()) {
                self.editing = None;
                self.flash(THE_ROW_IS_GONE, now);
            }
        }
    }

    /// Report a part of the store that could not be read, keeping the session.
    ///
    /// A dialog rather than the transient notice channel, because corruption is a
    /// thing the reader has to act on.
    pub fn store_unreadable(&mut self, message: String)
        requires
            old(self)@.wf(),
        ensures
            final(self)@ == old(self)@.asked(DialogModel::unreadable(message@)),
            final(self)@.wf(),
    {
        self.ask(
            Dialog::report(
                UNREADABLE_TITLE,
                message,
                Dismissal { word: "dismiss", performs: None },
            ),
        );
    }

    /// Set the divider, clamped so neither pane can be resized away.
    pub fn set_nav_percent(&mut self, percent: u16)
        ensures
            final(self)@ == old(self)@.split_at(percent as int),
            old(self)@.wf() ==> final(self)@.wf(),
    {
        self.nav_percent = if percent < MIN_NAV_PERCENT {
            MIN_NAV_PERCENT
        } else if percent > MAX_NAV_PERCENT {
            MAX_NAV_PERCENT
        } else {
            percent
        };
    }

    /// Record where the divider was drawn, so a drag can recognise it.
    pub fn set_divider_column(&mut self, column: Option<u16>)
        ensures
            final(self)@ == (AppModel { divider_column: column, ..old(self)@ }),
    {
        self.divider_column = column;
    }

    /// Begin a drag if the press landed on the divider. Returns whether the
    /// divider was grabbed. A one-column border is hard to hit exactly, so the
    /// column either side counts as the divider too.
    ///
    /// Refused only while a dialog is open: the split is neither what the mode has
    /// frozen nor what a question is waiting on, so the drag stays live through
    /// editing mode and through an open surface alike.
    pub fn press(&mut self, column: u16) -> (r: bool)
        ensures
            ({
                let grabbed = old(self)@.divider_column matches Some(d) && d - 1 <= column <= d + 1;
                if old(self)@.mode() is Dialog {
                    !r && final(self)@ == old(self)@
                } else {
                    r == grabbed && final(self)@ == (AppModel {
                        dragging_divider: grabbed,
                        ..old(self)@
                    })
                }
            }),
    {
        if let Mode::Dialog(_) = self.mode() {
            return false;
        }
        self.dragging_divider = match self.divider_column {
            Some(d) => column as u32 + 1 >= d as u32 && column as u32 <= d as u32 + 1,
            None => false,
        };
        self.dragging_divider
    }

    /// Continue a drag: move the divider to the pointer, as a share of the
    /// total width, clamped so neither pane can be resized away. Ignored unless a
    /// drag began on the divider.
    pub fn drag(&mut self, column: u16, total_width: u16)
        ensures
            final(self)@ == (if old(self)@.dragging_divider && total_width > 0 {
                old(self)@.split_at(column as int * 100 / total_width as int)
            } else {
                old(self)@
            }),
            old(self)@.wf() ==> final(self)@.wf(),
    {
        if !self.dragging_divider || total_width == 0 {
            return ;
        }
        let share: u32 = column as u32 * 100 / total_width as u32;
        self.set_nav_percent(
            if share < MAX_NAV_PERCENT as u32 {
                share as u16
            } else {
                MAX_NAV_PERCENT
            },
        );
    }

    /// End any drag in progress.
    pub fn release(&mut self)
        ensures
            final(self)@ == (AppModel { dragging_divider: false, ..old(self)@ }),
    {
        self.dragging_divider = false;
    }

    /// Ask for a frame. Requests coalesce: many between two wakeups draw once.
    pub fn request_redraw(&mut self)
        ensures
            final(self)@ == (AppModel { redraw: true, ..old(self)@ }),
    {
        self.redraw = true;
    }

    /// Whether a frame is owed, clearing the request: a request is honoured by
    /// exactly one frame.
    pub fn take_redraw_request(&mut self) -> (r: bool)
        ensures
            r == old(self)@.redraw,
            final(self)@ == (AppModel { redraw: false, ..old(self)@ }),
    {
        let owed = self.redraw;
        self.redraw = false;
        owed
    }

    /// Raise a notice on the hint strip's line, replacing any live one and
    /// restarting its clock, and ask for the frame that shows it.
    ///
    /// The channel carries warnings and non-critical notices only — why nothing
    /// happened, and what a write did.
    pub fn flash(&mut self, message: &str, now: u64)
        ensures
            final(self)@ == old(self)@.flashed(message@, now),
            old(self)@.wf() ==> final(self)@.wf(),
    {
        self.flash = Some(Flash { message: message.to_owned(), raised: now });
        self.request_redraw();
    }

    /// The notice that is up at an instant, or `None`. The lifetime is honoured
    /// here as well as swept between frames, so a frame drawn after it passed can
    /// never show an expired notice.
    pub fn flash_message(&self, now: u64) -> (r: Option<&str>)
        ensures
            seen(r) == (match self@.flash {
                Some(flash) => if flash.is_up(now) {
                    Some(flash.message)
                } else {
                    None
                },
                None => None,
            }),
    {
        match &self.flash {
            Some(flash) => if now < flash.raised || now - flash.raised < FLASH_LIFETIME {
                Some(flash.message.as_str())
            } else {
                None
            },
            None => None,
        }
    }

    /// Retire a notice early. Every key press does this before the key is
    /// dispatched, so a key that raises a notice of its own still leaves that one
    /// standing.
    pub fn clear_flash(&mut self)
        ensures
            final(self)@ == (AppModel { flash: None, ..old(self)@ }),
    {
        self.flash = None;
    }

    /// Drop a notice whose lifetime has passed, asking for the frame that takes
    /// it off the screen.
    pub fn expire_flash(&mut self, now: u64)
        ensures
            final(self)@ == (if old(self)@.flash matches Some(flash) && !flash.is_up(now) {
                AppModel { flash: None, redraw: true, ..old(self)@ }
            } else {
                old(self)@
            }),
    {
        if self.flash.is_some() && self.flash_message(now).is_none() {
            self.flash = None;
            self.request_redraw();
        }
    }

    /// Bring the preview in line with the highlighted row, answering with what is to
    /// be loaded into it: nothing, unless the document or the pane width changed, and
    /// what the row points at, or `None` on the roster of an empty store, where one
    /// of them did. Called once per frame, before the panes are drawn.
    ///
    /// The wrap width is fixed when a viewer is built, so a resized pane is given a
    /// new one. Whether to keep the scroll position is decided on document identity
    /// — [`Selection::document`] — not on the row's own selection: a cursor move
    /// between rows that share a document cannot change what is shown, so it must
    /// not move the reader either.
    pub fn sync_preview(&mut self, width: u16) -> (wanted: Option<Option<Selection>>)
        requires
            old(self)@.wf(),
        ensures
            final(self)@ == old(self)@.synced(width),
            final(self)@.wf(),
            (match wanted {
                Some(target) => Some(seen(target)),
                None => None,
            }) == old(self)@.unloaded(width),
    {
        let target = self.nav.preview_target();
        let document: Option<Selection> = match &target {
            Some(selection) => Some(selection.document()),
            None => None,
        };
        let width_changed = width != self.preview_width;
        let another = !same_selection(document.as_ref(), self.shown.as_ref());
        if !width_changed && !another {
            return None;
        }
        if width_changed {
            let wrap: usize = if width > 1 {
                width as usize
            } else {
                1
            };
            self.viewer = MarkdownViewer::new().with_max_width(wrap);
            self.preview_width = width;
        }
        if another {
            self.viewer.scroll_to_top();
            self.shown = document;
        }
        Some(target)
    }

    /// The preview widget, for loading a document into and for drawing.
    pub fn preview_viewer(&mut self) -> (viewer: &mut MarkdownViewer)
        ensures
            *viewer == old(self).viewer,
            *final(self) == (App { viewer: *final(viewer), ..*old(self) }),
    {
        &mut self.viewer
    }

    /// The title the preview carries: the reference of what it shows.
    pub fn preview_title(&self) -> (r: String)
        ensures
            r@ == (match self@.shown {
                Some(selection) => selection.spec_reference(),
                None => Seq::empty(),
            }),
    {
        match &self.shown {
            Some(selection) => selection.reference(),
            None => String::new(),
        }
    }

    /// Half a page of the preview: half of the last drawn width, which is close
    /// enough and needs no extra state.
    fn half_page(&self) -> (r: u16)
        ensures
            r == self@.half_page(),
    {
        if self.preview_width / 2 > 1 {
            self.preview_width / 2
        } else {
            1
        }
    }
}

/// What the pane shows for a target that could not be read.
pub open spec fn unavailable_page(failure: Text) -> Text {
    "# unavailable\n\n> "@ + failure + "\n"@
}

/// What the pane shows for a target that could not be read: one can vanish under a
/// browser that only reloads on request.
pub fn unavailable(failure: &str) -> (r: String)
    ensures
        r@ == unavailable_page(failure@),
{
    joined3("# unavailable\n\n> ", failure, "\n")
}

/// What the pane shows on the roster of an empty store.
pub fn no_epics() -> (r: String)
    ensures
        r@ == "# no epics\n\n> This store has no epics yet.\n"@,
{
    "# no epics\n\n> This store has no epics yet.\n".to_owned()
}

/// A browser is known by what it shows and holds, and what is asked of the outside by
/// what is asked.
pub proof fn a_browser_is_known_by_what_it_shows_and_holds(
    flash: &Flash,
    offer: &Offer,
    asked: &Step,
    app: &App,
    held: String,
)
    ensures
        flash@ == ({
            Flash { message: flash.message@, raised: flash.raised }
        }),
        offer@ == ({
            match offer {
                Offer::Ask(dialog) => Offer::Ask(dialog@),
                Offer::Fill(surface) => Offer::Fill(surface@),
                Offer::Compose(composed) => Offer::Compose(*composed),
                Offer::Perform { write, done } => Offer::Perform { write: write@, done: done@ },
                Offer::Signpost(notice) => Offer::Signpost(notice@),
            }
        }),
        asked@ == ({
            match asked {
                Step::Stay => Step::Stay,
                Step::Quit => Step::Quit,
                Step::List(level) => Step::List(level@),
                Step::Reload => Step::Reload,
                Step::ReadReference(token) => Step::ReadReference(token@),
                Step::Compose(composed) => Step::Compose(*composed),
                Step::Commit { write, done } => Step::Commit { write: write@, done: done@ },
            }
        }),
        app@ == ({
            AppModel {
                nav: app.nav@,
                pane: pane_of(app.viewer),
                preview_width: app.preview_width,
                shown: seen(app.shown),
                nav_percent: app.nav_percent,
                zoomed: app.zoomed,
                modal: seen(app.modal),
                divider_column: app.divider_column,
                dragging_divider: app.dragging_divider,
                redraw: app.redraw,
                flash: seen(app.flash),
                read_only: app.read_only,
                editing: seen(app.editing),
                surface: seen(app.surface),
                editor_handoff: seen(app.editor_handoff),
                gate: app.gate,
            }
        }),
        seen(Some(held)) == Some(held@),
        seen(None::<String>) is None,
{
}

} // verus!

//! What holds of the browser as a whole, whatever is pressed and whatever a store
//! answers.
use crate::action::{Action, Answers, Mode, RowAction};
use crate::app::dialog::{report_of, DialogModel, Modal, OnDismissal, Performs};
use crate::app::field::{Content, FieldModel};
use crate::app::preview::Pane;
use crate::app::state::{
    clamped, holder_on, is_the_humans, offer_on, unavailable_page,
    AppModel, Composed, Flash, Offer, OfferModel, Step, FLASH_LIFETIME, NOT_AN_EDITING_ACTION,
};
use crate::app::surface::{
    every_door_leaves_a_surface_settled, focusing_keeps_a_surface_settled, is_rejected,
    is_unfilled, the_first_field_is_of_its_kind, Surface, SurfaceModel,
};
use crate::data::{
    Collection, Container, Effect, FreeForm, GateWords, NodeRef, ReadOnly, Refusal, Row, RowKind,
    Selection, Write,
};
use crate::nav::NavModel;
use crate::text::{decimal, Text};
use vstd::prelude::*;

verus! {

/// Only the intent to leave ends a session, and it never discards text the store
/// has not been given: while a buffer or editing mode stands, or a question waits
/// for its answer, the session stays, and whatever is open stays open.
pub proof fn quitting_never_discards_anything(app: AppModel, action: Action, now: u64)
    ensures
        app.applied(action, now).1 is Quit ==> {
            &&& action is Quit
            &&& app.surface is None
            &&& app.editing is None
            &&& !(app.modal matches Some(Modal::Dialog(_)))
        },
        action is Quit ==> {
            &&& app.applied(action, now).0.surface == app.surface
            &&& app.applied(action, now).0.editing == app.editing
            &&& app.applied(action, now).0.modal == app.modal
        },
{
}

/// A dialog admits the answers it lists and nothing else: any other intent changes
/// nothing and writes nothing.
pub proof fn a_dialog_admits_only_its_answers(
    app: AppModel,
    dialog: DialogModel,
    action: Action,
    now: u64,
)
    requires
        app.modal == Some(Modal::Dialog(dialog)),
        dialog.answers.goes_ahead() != Some(action),
        !(action is Unwind),
    ensures
        app.applied(action, now) == (app, Step::<Text>::Stay),
{
}

/// A dialog can always be got out of, whatever it is about, and getting out of it
/// loses nothing: the text of every field is as it was.
pub proof fn a_dialog_can_always_be_got_out_of(app: AppModel, dialog: DialogModel, now: u64)
    requires
        app.modal == Some(Modal::Dialog(dialog)),
    ensures
        ({
            let (after, step) = app.applied(Action::Unwind, now);
            &&& step is Stay
            &&& after.modal is None
            &&& after.editing == app.editing
            &&& after.surface is Some <==> app.surface is Some
            &&& app.surface is Some ==> after.surface->0.fields == app.surface->0.fields
        }),
{
    assert(dialog.answers.goes_ahead() != Some(Action::Unwind));
}

/// Going ahead with a question performs exactly what the question carried.
pub proof fn an_answer_performs_what_its_question_carried(
    app: AppModel,
    dialog: DialogModel,
    action: Action,
    write: Write<Text>,
    done: Text,
    now: u64,
)
    requires
        app.modal == Some(Modal::Dialog(dialog)),
        dialog.answers.goes_ahead() == Some(action),
        dialog.affirmative matches Some(answer) && answer.performs == (Performs::Write {
            write,
            done,
        }),
    ensures
        app.applied(action, now) == (
            AppModel { modal: None, ..app },
            Step::Commit { write, done },
        ),
{
}

/// Nothing pressed moves the position while anything is open over it, while editing
/// mode has frozen it, or while zoom hides the pane it is drawn in.
pub proof fn a_position_nobody_is_moving_stays(app: AppModel, action: Action, now: u64)
    requires
        app.modal is Some || app.surface is Some || app.editing is Some || app.zoomed,
    ensures
        app.applied(action, now).0.nav == app.nav,
{
}

/// Whether the row editing mode is acting on is the highlighted row.
pub open spec fn is_frozen(app: AppModel) -> bool {
    app.editing is Some ==> app.nav.selected() == app.editing
}

/// The row editing mode acts on is the highlighted row, and no intent parts them.
pub proof fn the_frozen_row_is_the_highlighted_row(app: AppModel, action: Action, now: u64)
    requires
        is_frozen(app),
    ensures
        is_frozen(app.applied(action, now).0),
{
}

/// A reload that leaves the frozen row and the highlighted row apart ends the mode,
/// and so does one that finds the store may not be written: what is left standing
/// is a mode on the row under the cursor, in a store that may be.
pub proof fn a_reload_never_leaves_the_mode_on_another_row(
    app: AppModel,
    listings: Seq<Option<Vec<Row>>>,
    verdict: Option<ReadOnly>,
    now: u64,
)
    ensures
        ({
            let after = app.reloaded(listings, verdict, now);
            &&& is_frozen(after)
            &&& after.read_only == verdict
            &&& after.editing is Some ==> verdict is None && after.editing == app.editing
            &&& after.surface == app.surface
            &&& after.modal == app.modal
        }),
{
}

/// A store that may not be written offers no row anything: no letter opens, asks or
/// writes, and the mode that would offer them is not entered.
pub proof fn a_read_only_store_is_offered_no_write(app: AppModel, action: Action, now: u64)
    requires
        app.read_only is Some,
        app.modal is None,
        app.surface is None,
    ensures
        forall|asked: RowAction| #[trigger] app.offer(asked) is None,
        ({
            let (after, step) = app.applied(action, now);
            &&& !(step is Commit) && !(step is Compose) && !(step is ReadReference)
            &&& after.surface is None
            &&& !(after.modal matches Some(Modal::Dialog(_)))
            &&& app.editing is None ==> after.editing is None
        }),
{
    let asked = RowAction::asked_by(action);
    if asked is Some {
        assert(app.offer(asked->0) is None);
    }
}

/// Whether a letter performed something: it asked, opened, composed or wrote.
pub open spec fn performed_something(before: AppModel, after: AppModel, step: Step<Text>) -> bool {
    ||| before.modal is None && after.modal is Some
    ||| before.surface is None && after.surface is Some
    ||| step is Compose
    ||| step is Commit
}

/// The hint strip and the keys agree: a letter performs something on the frozen row
/// exactly where the row offers it, and where it does not it says why and leaves
/// everything else as it was.
pub proof fn a_letter_is_hinted_exactly_where_it_performs_something(
    app: AppModel,
    asked: RowAction,
    now: u64,
)
    requires
        app.modal is None,
        app.surface is None,
        app.editing is Some,
    ensures
        ({
            let (after, step) = app.applied(asked.carried_by(), now);
            &&& app.offers(asked) <==> performed_something(app, after, step)
            &&& !app.offers(asked) ==> {
                &&& step is Stay
                &&& after.flash matches Some(flash) && flash.raised == now
                &&& after == (AppModel { flash: after.flash, redraw: true, ..app })
                &&& app.offer(asked) is None ==> after.flash->0.message == NOT_AN_EDITING_ACTION@
            }
            &&& after.editing == app.editing
        }),
{
}

/// What a row offers acts on that row: a question's answer writes to it, a surface's
/// accept writes to it, and so does a letter that writes at once.
pub proof fn an_offer_acts_on_the_row_it_was_made_for(
    target: Selection<Text>,
    row: Option<Row<Text>>,
    asked: RowAction,
    reading: Result<NodeRef<Text>, Text>,
)
    ensures
        (match offer_on(target, row, asked) {
            Some(Offer::Ask(dialog)) => dialog.affirmative matches Some(answer)
                && answer.performs matches Performs::Write { write, .. } && write.spec_target()
                == target,
            Some(Offer::Fill(surface)) => surface.spec_write(reading).0.spec_target() == target,
            Some(Offer::Perform { write, .. }) => write.spec_target() == target,
            _ => true,
        }),
{
}

/// Everything destructive is gated behind a question: on a row, the letter that
/// deletes never writes by itself.
pub proof fn a_deletion_always_asks(target: Selection<Text>, row: Option<Row<Text>>)
    ensures
        offer_on(target, row, RowAction::Delete) matches Some(offer) ==> offer matches Offer::Ask(
            dialog,
        ) && dialog.answers == Answers::Destructive,
{
}

/// A comment is its author's alone to change: a row that is not a live comment the
/// human wrote offers neither its rewriting nor its withdrawal.
pub proof fn only_the_humans_own_comment_is_changed(
    target: Selection<Text>,
    row: Option<Row<Text>>,
    asked: RowAction,
)
    requires
        target is Comment,
        !is_the_humans(row),
    ensures
        offer_on(target, row, asked) is None,
{
}

/// Accepting a surface writes nothing while a required field is empty or a value is
/// one the browser will not send, and changes nothing of the surface either way.
pub proof fn nothing_is_sent_from_an_unfinished_surface(
    app: AppModel,
    surface: SurfaceModel,
    now: u64,
)
    requires
        app.modal is None,
        app.surface == Some(surface),
    ensures
        ({
            let (after, step) = app.applied(Action::Accept, now);
            let ready = forall|i: int|
                0 <= i < surface.fields.len() ==> !(#[trigger] surface.fields[i]).spec_unfilled()
                    && surface.fields[i].spec_rejected() is None;
            &&& (step is Commit || step is ReadReference) <==> ready
            &&& after.surface == app.surface
            &&& after.editing == app.editing
            &&& !ready ==> after.modal is Some
        }),
{
    the_first_field_is_of_its_kind(surface.fields, is_unfilled());
    the_first_field_is_of_its_kind(surface.fields, is_rejected());
    if surface.spec_unfilled() is Some {
        let i = surface.spec_unfilled()->0;
        assert(is_unfilled()(surface.fields[i]));
    } else if surface.spec_rejected() is Some {
        let i = surface.spec_rejected()->0;
        assert(is_rejected()(surface.fields[i]));
    } else {
        assert forall|i: int| 0 <= i < surface.fields.len() implies !(
        #[trigger] surface.fields[i]).spec_unfilled() && surface.fields[i].spec_rejected()
            is None by {
            assert(!is_unfilled()(surface.fields[i]));
            assert(!is_rejected()(surface.fields[i]));
        }
    }
}

/// The way out of a surface asks exactly where something has been typed into it, and
/// loses nothing until it is answered.
pub proof fn the_way_out_of_a_surface_asks_exactly_where_there_is_typing(
    app: AppModel,
    surface: SurfaceModel,
    now: u64,
)
    requires
        app.modal is None,
        app.surface == Some(surface),
    ensures
        ({
            let (after, step) = app.applied(Action::Unwind, now);
            let typing = exists|i: int|
                0 <= i < surface.fields.len() && (#[trigger] surface.fields[i]).dirty;
            &&& step is Stay
            &&& after.editing == app.editing
            &&& typing ==> after.modal is Some && after.surface == app.surface
            &&& !typing ==> after.modal is None && after.surface is None
        }),
{
    let kind = crate::app::surface::is_dirtied();
    the_first_field_is_of_its_kind(surface.fields, kind);
    if surface.spec_dirtied() is Some {
        assert(surface.fields[surface.spec_dirtied()->0].dirty);
    } else {
        assert forall|i: int| 0 <= i < surface.fields.len() implies !(
        #[trigger] surface.fields[i]).dirty by {
            assert(!kind(surface.fields[i]));
        }
    }
}

/// A successful write ends the editing session, surface and mode together, and says
/// what it did.
pub proof fn a_successful_write_ends_the_session(
    app: AppModel,
    write: Write<Text>,
    done: Text,
    effect: Effect<Text>,
    listings: Seq<Option<Vec<Row>>>,
    verdict: Option<ReadOnly>,
    now: u64,
)
    ensures
        ({
            let after = app.committed(write, done, Ok(effect), listings, verdict, now);
            &&& after.surface is None
            &&& after.editing is None
            &&& after.modal == app.modal
            &&& after.flash == Some(Flash { message: report_of(done, effect), raised: now })
            &&& after.nav == app.nav.reloaded(listings)
        }),
{
}

/// A refused write keeps everything the reader wrote: the surface stays open as it
/// was under a dialog about the refusal, and the mode stays on — unless a cascade
/// that stopped part of the way is re-read from a store that may no longer be
/// written.
pub proof fn a_refused_write_keeps_the_session(
    app: AppModel,
    write: Write<Text>,
    done: Text,
    refusal: Refusal<Text>,
    listings: Seq<Option<Vec<Row>>>,
    verdict: Option<ReadOnly>,
    now: u64,
)
    ensures
        ({
            let after = app.committed(write, done, Err(refusal), listings, verdict, now);
            &&& after.surface == app.surface
            &&& after.modal matches Some(Modal::Dialog(_))
            &&& !(refusal is Partial && verdict is Some) ==> after.editing == app.editing
            &&& !(refusal is Partial) ==> after.nav == app.nav
        }),
{
}

/// A conflict answered with overwriting writes the same thing again without its
/// precondition, from the buffer as it stands; getting out instead writes nothing.
pub proof fn a_conflict_is_the_readers_to_decide(
    app: AppModel,
    write: Write<Text>,
    done: Text,
    listings: Seq<Option<Vec<Row>>>,
    verdict: Option<ReadOnly>,
    now: u64,
    later: u64,
)
    ensures
        ({
            let asked = app.committed(write, done, Err(Refusal::Conflict), listings, verdict, now);
            let (over, writes) = asked.applied(Action::Overwrite, later);
            let (back, nothing) = asked.applied(Action::Unwind, later);
            &&& asked.mode() == Mode::Dialog(Answers::Conflict)
            &&& writes == (Step::Commit { write: write.spec_overwriting(), done })
            &&& over.surface == app.surface
            &&& nothing is Stay
            &&& back.surface == app.surface
        }),
{
}

/// Unwinding takes one layer at a time: an overlay before a surface, a surface before
/// editing mode, editing mode before the level, and never the session.
pub proof fn unwinding_takes_one_layer_at_a_time(app: AppModel, now: u64)
    ensures
        ({
            let (after, step) = app.applied(Action::Unwind, now);
            &&& step is Stay
            &&& app.modal is Some ==> after.editing == app.editing && after.nav == app.nav && (
            after.surface is Some <==> app.surface is Some)
            &&& app.modal is None && app.surface is Some ==> after.editing == app.editing
                && after.nav == app.nav
            &&& app.modal is None && app.surface is None && app.editing is Some ==> after.editing
                is None && after.nav == app.nav
            &&& app.modal is None && app.surface is None && app.editing is None && !app.zoomed
                ==> after.nav == app.nav.ascended()
        }),
{
    if let Some(Modal::Dialog(dialog)) = app.modal {
        assert(dialog.answers.goes_ahead() != Some(Action::Unwind));
    }
}

/// A key bound to nothing changes nothing and says nothing, wherever the reader is.
pub proof fn an_unbound_key_does_nothing(app: AppModel, now: u64)
    requires
        app.wf(),
        app.surface matches Some(surface) ==> surface.settled(),
    ensures
        app.applied(Action::Unbound, now) == (app, Step::<Text>::Stay),
{
    if let Some(surface) = app.surface {
        let at = surface.spec_focus();
        assert(surface.fields[at].applied(Action::Unbound) == surface.fields[at]);
        assert(surface.with_field(at, surface.fields[at]) =~= surface);
    }
}

/// A surface always holds exactly the fields its values want: it opens so, and no
/// intent leaves it otherwise.
pub proof fn an_open_surface_stays_settled(app: AppModel, action: Action, now: u64)
    requires
        app.wf(),
        app.surface matches Some(surface) ==> surface.settled() && surface.fields.len()
            <= usize::MAX,
    ensures
        app.applied(action, now).0.surface matches Some(surface) ==> surface.settled(),
{
    if let Some(surface) = app.surface {
        every_door_leaves_a_surface_settled(surface, action, true, Seq::empty());
        every_door_leaves_a_surface_settled(surface, action, false, Seq::empty());
        if let Some(Modal::Dialog(dialog)) = app.modal {
            if let Some(OnDismissal::Focus(field)) = dialog.dismissal.performs {
                focusing_keeps_a_surface_settled(
                    surface,
                    if field < surface.fields.len() {
                        field as int
                    } else {
                        surface.fields.len() - 1
                    },
                );
            }
        }
    }
}

/// A cursor move that cannot change the document leaves the reader where they were
/// in it, and has nothing loaded; one that does change it starts at the top.
pub proof fn only_another_document_moves_the_reader(app: AppModel, width: u16)
    requires
        width == app.preview_width,
    ensures
        app.document() == app.shown ==> app.synced(width) == app && app.unloaded(width) is None,
        app.document() != app.shown ==> {
            &&& app.synced(width).pane == app.pane.top()
            &&& app.unloaded(width) == Some(app.nav.spec_preview_target())
        },
{
}

/// A pane brought in line with the highlighted row shows that row's document, and
/// stays in line until something changes.
pub proof fn a_synced_preview_is_up_to_date(app: AppModel, width: u16)
    ensures
        app.synced(width).shown == app.document(),
        app.synced(width).unloaded(width) is None,
        app.synced(width).synced(width) == app.synced(width),
{
}

/// The keys that scroll the preview move the reader in the document and nothing
/// else.
pub proof fn scrolling_keys_move_only_the_reader(app: AppModel, action: Action, now: u64)
    requires
        app.modal is None,
        app.surface is None,
        app.editing is None,
        action is PreviewHalfDown || action is PreviewHalfUp || action is PreviewPageDown
            || action is PreviewPageUp || action is PreviewTop || action is PreviewBottom || (
        app.zoomed && (action is CursorDown || action is CursorUp || action is CursorFirst
            || action is CursorLast || action is WheelDown || action is WheelUp)),
    ensures
        ({
            let (after, step) = app.applied(action, now);
            &&& step is Stay
            &&& after == (AppModel { pane: after.pane, ..app })
            &&& after.pane == (Pane { scroll: after.pane.scroll, ..app.pane })
            &&& app.pane.scroll <= app.pane.limit() ==> after.pane.scroll <= after.pane.limit()
        }),
{
}

/// An epic's form opens from the roster of a store that may be written, and nowhere
/// else.
pub proof fn an_epic_is_made_from_the_roster_alone(app: AppModel, now: u64)
    requires
        app.modal is None,
        app.surface is None,
        app.editing is None,
    ensures
        app.applied(Action::CreateEpic, now).0.surface is Some <==> app.read_only is None
            && app.nav.frames.len() == 1,
        app.applied(Action::CreateEpic, now).1 is Stay,
{
}

/// A notice is up from the instant it is raised until its lifetime has passed, and a
/// later one takes its place.
pub proof fn a_notice_lives_exactly_its_lifetime(app: AppModel, message: Text, raised: u64, now: u64)
    ensures
        app.flashed(message, raised).flash == Some(Flash { message, raised }),
        app.flashed(message, raised).redraw,
        (Flash { message, raised }).is_up(raised),
        now >= raised ==> ((Flash { message, raised }).is_up(now) <==> now - raised
            < FLASH_LIFETIME),
{
}

/// Every outcome that changed the store is re-read before it is shown, and one that
/// did not leaves the levels as they were. A refusal by rule asks again whether the
/// store may be written; a conflict does not.
pub proof fn every_changed_outcome_is_reread(
    app: AppModel,
    write: Write<Text>,
    done: Text,
    outcome: Result<Effect<Text>, Refusal<Text>>,
    listings: Seq<Option<Vec<Row>>>,
    verdict: Option<ReadOnly>,
    now: u64,
)
    ensures
        ({
            let after = app.committed(write, done, outcome, listings, verdict, now);
            let changed = outcome is Ok || outcome->Err_0 is Partial;
            let conflict = outcome is Err && outcome->Err_0 is Conflict;
            &&& after.nav == (if changed {
                app.nav.reloaded(listings)
            } else {
                app.nav
            })
            &&& after.read_only == (if conflict {
                app.read_only
            } else {
                verdict
            })
        }),
{
}

/// Whether an open surface stands over the mode that opened it: every surface but
/// the form of a new epic is opened by a letter of editing mode.
pub open spec fn is_anchored(app: AppModel) -> bool {
    app.surface matches Some(surface) ==> surface.commit is CreateEpic || app.editing is Some
}

/// A surface is open only while the mode that opened it is on: no intent, no reading
/// and no write that was carried out or refused as a whole parts them. A cascade that
/// stopped part of the way, re-read from a store that may no longer be written, is
/// the one outcome that ends the mode under an open surface.
pub proof fn a_surface_is_open_only_over_its_mode(
    app: AppModel,
    action: Action,
    write: Write<Text>,
    done: Text,
    outcome: Result<Effect<Text>, Refusal<Text>>,
    listings: Seq<Option<Vec<Row>>>,
    verdict: Option<ReadOnly>,
    now: u64,
)
    requires
        is_anchored(app),
    ensures
        is_anchored(app.applied(action, now).0),
        app.editing matches Some(_) ==> forall|surface: Result<SurfaceModel, Text>|
            is_anchored(#[trigger] app.opened(surface)),
        !(outcome is Err && outcome->Err_0 is Partial && verdict is Some) ==> is_anchored(
            app.committed(write, done, outcome, listings, verdict, now),
        ),
        app.surface is None ==> is_anchored(app.reloaded(listings, verdict, now)),
{
}

/// The key overlay is a layer above whatever raised it: while it is up nothing under
/// it changes, and the keys that close it only close it.
pub proof fn the_key_overlay_changes_nothing_under_it(app: AppModel, action: Action, now: u64)
    requires
        app.modal == Some(Modal::<DialogModel>::Help),
        !(action is Quit),
    ensures
        ({
            let (after, step) = app.applied(action, now);
            &&& step is Stay
            &&& after == (AppModel { modal: after.modal, ..app })
            &&& after.modal is None <==> action is ToggleHelp || action is Unwind || action
                is Ascend
            &&& after.modal is Some ==> after.modal == app.modal
        }),
{
}

/// The wheel stands in for the cursor keys: outside editing mode and its surfaces the
/// two are never told apart.
pub proof fn the_wheel_is_the_key_it_stands_in_for(app: AppModel, now: u64)
    requires
        app.surface is None,
        app.editing is None,
    ensures
        app.applied(Action::WheelDown, now) == app.applied(Action::CursorDown, now),
        app.applied(Action::WheelUp, now) == app.applied(Action::CursorUp, now),
{
}

/// A claim belongs to a unit of work: only a ticket's row is offered one to take, and
/// only while it shows a holder one to give up.
pub proof fn a_claim_is_a_tickets_and_is_given_up_only_where_held(
    target: Selection<Text>,
    row: Option<Row<Text>>,
)
    ensures
        offer_on(target, row, RowAction::TakeClaim) is Some <==> target is Node,
        offer_on(target, row, RowAction::ReleaseClaim) is Some <==> target is Node && holder_on(
            row,
        ) is Some,
{
}

/// Only an epic and a ticket have fields and a state of their own: no other row
/// offers their letters, but for the text of a comment the human wrote.
pub proof fn only_an_entity_has_fields_and_a_state(
    target: Selection<Text>,
    row: Option<Row<Text>>,
    field: FreeForm,
)
    requires
        !(target is Epic),
        !(target is Node),
    ensures
        offer_on(target, row, RowAction::SetState) is None,
        offer_on(target, row, RowAction::Edit(field)) is Some <==> target is Comment && field
            == FreeForm::Body && is_the_humans(row),
{
}

/// What is asked of the outside is asked by the layer it belongs to: a level is
/// listed only from browsing and is the one below the highlighted row, a re-read is
/// asked for only where nothing is pending, a reading only by editing mode on a store
/// that may be written, and a write only by a question, a surface or the mode.
pub proof fn each_step_is_asked_for_by_its_own_layer(app: AppModel, action: Action, now: u64)
    ensures
        (match app.applied(action, now).1 {
            Step::Stay => true,
            Step::Quit => action is Quit,
            Step::List(level) => app.modal is None && app.surface is None && app.editing is None
                && !app.zoomed && app.nav.spec_below() == Some(level),
            Step::Reload => app.modal is None && app.surface is None && action is Reload,
            Step::ReadReference(token) => app.modal is None && app.surface is Some
                && app.surface->0.spec_token() == Some(token),
            Step::Compose(_) => app.modal is None && app.surface is None && app.editing is Some
                && app.read_only is None,
            Step::Commit { .. } => app.modal is Some || app.surface is Some || app.editing is Some,
        }),
{
}

/// What an intent comes to, put together: the browser after it and the step left to take.
pub open spec fn comes_to(
    app: AppModel,
    action: Action,
    now: u64,
    after: AppModel,
    step: Step<Text>,
) -> bool {
    app.applied(action, now) == (after, step)
}

/// The browser with a notice up, and the frame that shows it owed.
pub open spec fn noticed(app: AppModel, message: Text, now: u64) -> AppModel {
    AppModel { flash: Some(Flash { message, raised: now }), redraw: true, ..app }
}

/// A browser opens on the roster with nothing over it, nothing frozen, the default split,
/// and its first frame owed.
pub proof fn a_browser_opens_on_the_roster(
    rows: Seq<Row<Text>>,
    read_only: Option<ReadOnly>,
    gate: GateWords,
)
    ensures
        ({
            let app = AppModel::opened_on(rows, read_only, gate);
            &&& app.nav == NavModel::at_the_roster(rows)
            &&& app.nav_percent == 30
            &&& !app.zoomed
            &&& app.modal is None
            &&& app.editing is None
            &&& app.surface is None
            &&& app.flash is None
            &&& app.editor_handoff is None
            &&& app.shown is None
            &&& app.divider_column is None
            &&& !app.dragging_divider
            &&& app.redraw
            &&& app.read_only == read_only
            &&& app.gate == gate
            &&& app.pane == Pane::empty()
            &&& app.preview_width == 0
        }),
{
}

/// The external editor is handed the text of the field the keyboard is in, and nothing
/// where that field is a picker; nothing else changes.
pub proof fn the_editor_is_handed_the_field_in_focus(
    app: AppModel,
    surface: SurfaceModel,
    field: FieldModel,
    at: int,
    now: u64,
)
    requires
        app.modal is None,
        app.surface == Some(surface),
        surface.fields.len() > 0,
        at == (if surface.focus < surface.fields.len() {
            surface.focus as int
        } else {
            surface.fields.len() - 1
        }),
        field == surface.fields[at],
    ensures
        field.content matches Content::Text { value, .. } ==> comes_to(
            app,
            Action::ExternalEditor,
            now,
            AppModel { editor_handoff: Some(value), ..app },
            Step::Stay,
        ),
        field.content is Pick ==> comes_to(app, Action::ExternalEditor, now, app, Step::Stay),
{
}

/// What the editor is handed and hands back as it was leaves the text of every field as
/// it was.
pub proof fn handing_over_and_taking_back_changes_no_text(
    app: AppModel,
    surface: SurfaceModel,
    now: u64,
    i: int,
)
    requires
        app.wf(),
        app.modal is None,
        app.surface == Some(surface),
        0 <= i < surface.fields.len(),
        app.editor_handoff is None,
    ensures
        app.applied(Action::ExternalEditor, now).0.editor_handoff matches Some(text)
            ==> surface.replaced(text).fields[i].spec_text() == surface.fields[i].spec_text(),
{
    let at = surface.spec_focus();
    assert(surface.fields[at].wf());
    if surface.fields[at].spec_text() is Some {
        crate::app::field::an_editor_that_changes_nothing_changes_no_text(surface.fields[at]);
    }
}

/// The keys that move between fields move the keyboard and nothing else, help covers the
/// surface, and every other key a surface does not keep for itself is the field's.
pub proof fn a_surface_keeps_few_keys_for_itself(
    app: AppModel,
    surface: SurfaceModel,
    action: Action,
    now: u64,
)
    requires
        app.modal is None,
        app.surface == Some(surface),
        0 <= surface.focus < surface.fields.len() <= usize::MAX,
    ensures
        ({
            let n = surface.fields.len() as int;
            let on = |focus: int| Surface { focus: focus as usize, ..surface };
            let with = |surface: SurfaceModel| AppModel { surface: Some(surface), ..app };
            &&& comes_to(
                app,
                Action::NextField,
                now,
                with(
                    on(
                        if surface.focus + 1 < n {
                            surface.focus + 1
                        } else {
                            0
                        },
                    ),
                ),
                Step::Stay,
            )
            &&& comes_to(
                app,
                Action::PreviousField,
                now,
                with(
                    on(
                        if surface.focus > 0 {
                            surface.focus - 1
                        } else {
                            n - 1
                        },
                    ),
                ),
                Step::Stay,
            )
            &&& comes_to(
                app,
                Action::ToggleHelp,
                now,
                AppModel { modal: Some(Modal::Help), ..app },
                Step::Stay,
            )
            &&& !(action is Unwind) && !(action is Accept) && !(action is ExternalEditor) && !(
            action is NextField) && !(action is PreviousField) && !(action is ToggleHelp) && !(action
                is Quit) ==> comes_to(app, action, now, with(surface.applied(action)), Step::Stay)
        }),
{
}

/// A key typed into an open surface lands in the field the keyboard is in: that field is
/// what the key makes of it, and every other is as it was.
pub proof fn a_key_lands_in_the_field_in_focus(
    app: AppModel,
    surface: SurfaceModel,
    action: Action,
    now: u64,
    i: int,
)
    requires
        app.modal is None,
        app.surface == Some(surface),
        !(surface.commit is SetState),
        0 <= surface.focus < surface.fields.len(),
        0 <= i < surface.fields.len(),
        action is Insert || action is DeleteBefore || action is DeleteAfter || action is MoveLeft
            || action is MoveRight || action is MoveToStart || action is MoveToEnd || action is MoveUp
            || action is MoveDown,
    ensures
        ({
            let (after, step) = app.applied(action, now);
            &&& step is Stay
            &&& after == (AppModel { surface: after.surface, ..app })
            &&& after.surface matches Some(open) && {
                &&& open == (Surface { fields: open.fields, ..surface })
                &&& open.fields.len() == surface.fields.len()
                &&& i == surface.focus ==> open.fields[i] == surface.fields[i].applied(action)
                &&& i != surface.focus ==> open.fields[i] == surface.fields[i]
            }
        }),
{
}

/// The way out of a surface asks about the first field with typing in it, by its name, and
/// closes one without any.
pub proof fn the_way_out_names_the_first_field_with_typing(
    app: AppModel,
    surface: SurfaceModel,
    i: int,
    now: u64,
)
    requires
        app.modal is None,
        app.surface == Some(surface),
        0 <= i <= surface.fields.len(),
        forall|j: int| 0 <= j < i ==> !(#[trigger] surface.fields[j]).dirty,
        i < surface.fields.len() ==> surface.fields[i].dirty,
    ensures
        i < surface.fields.len() ==> comes_to(
            app,
            Action::Unwind,
            now,
            AppModel {
                modal: Some(Modal::Dialog(DialogModel::discarding(surface.fields[i].label))),
                ..app
            },
            Step::Stay,
        ),
        i == surface.fields.len() ==> comes_to(
            app,
            Action::Unwind,
            now,
            AppModel { surface: None, ..app },
            Step::Stay,
        ),
{
    crate::app::surface::a_warning_is_about_the_first_such_field(surface, i);
}

/// Accepting a surface warns about the first required field left empty, by its name, and
/// only then about the first value that will not be sent, with the reason; each warning
/// lands the reader in its field.
pub proof fn accepting_warns_about_the_first_field_in_the_way(
    app: AppModel,
    surface: SurfaceModel,
    i: int,
    now: u64,
)
    requires
        app.modal is None,
        app.surface == Some(surface),
        0 <= i < surface.fields.len() <= usize::MAX,
    ensures
        surface.fields[i].spec_unfilled() && (forall|j: int|
            0 <= j < i ==> !(#[trigger] surface.fields[j]).spec_unfilled()) ==> comes_to(
            app,
            Action::Accept,
            now,
            AppModel {
                modal: Some(
                    Modal::Dialog(DialogModel::requiring(surface.fields[i].label, i as usize)),
                ),
                ..app
            },
            Step::Stay,
        ),
        (forall|j: int|
            0 <= j < surface.fields.len() ==> !(#[trigger] surface.fields[j]).spec_unfilled()) && (
        forall|j: int| 0 <= j < i ==> (#[trigger] surface.fields[j]).spec_rejected() is None) ==> (
        surface.fields[i].spec_rejected() matches Some(why) ==> comes_to(
            app,
            Action::Accept,
            now,
            AppModel {
                modal: Some(Modal::Dialog(DialogModel::rejecting(why, i as usize))),
                ..app
            },
            Step::Stay,
        )),
{
    crate::app::surface::a_warning_is_about_the_first_such_field(surface, i);
    crate::app::surface::a_warning_is_about_the_first_such_field(
        surface,
        surface.fields.len() as int,
    );
}

/// Accepting a surface with nothing in the way writes what it holds, or has the store read
/// the reference it names first; what is written then is what it holds with that reading.
pub proof fn accepting_a_finished_surface_writes_it(
    app: AppModel,
    surface: SurfaceModel,
    reading: Result<NodeRef<Text>, Text>,
    now: u64,
)
    requires
        app.modal is None,
        app.surface == Some(surface),
        forall|j: int|
            0 <= j < surface.fields.len() ==> !(#[trigger] surface.fields[j]).spec_unfilled()
                && surface.fields[j].spec_rejected() is None,
    ensures
        ({
            let (write, done) = surface.spec_write(Err(Seq::empty()));
            &&& surface.spec_token() is None ==> comes_to(
                app,
                Action::Accept,
                now,
                app,
                Step::Commit { write, done },
            )
        }),
        surface.spec_token() matches Some(token) ==> comes_to(
            app,
            Action::Accept,
            now,
            app,
            Step::ReadReference(token),
        ),
        ({
            let (write, done) = surface.spec_write(reading);
            app.read_as(reading) == (Step::Commit { write, done })
        }),
{
    crate::app::surface::a_warning_is_about_the_first_such_field(
        surface,
        surface.fields.len() as int,
    );
}

/// A new ticket's form, filled in and accepted, writes that ticket: the name and the
/// summary as typed, in the container the form was opened on. So does a new epic's.
pub proof fn a_filled_form_is_written_as_typed(
    app: AppModel,
    surface: SurfaceModel,
    parent: Selection<Text>,
    id: Text,
    name: Text,
    summary: Text,
    now: u64,
)
    requires
        app.modal is None,
        app.surface == Some(surface),
        forall|j: int|
            0 <= j < surface.fields.len() ==> !(#[trigger] surface.fields[j]).spec_unfilled()
                && surface.fields[j].spec_rejected() is None,
    ensures
        surface.commit == crate::app::surface::Commit::CreateNode(parent) && surface.fields.len()
            == 2 && crate::app::surface::holds_text(surface.fields[0], name)
            && crate::app::surface::holds_text(surface.fields[1], summary) ==> (app.applied(
            Action::Accept,
            now,
        ).1 matches Step::Commit { write, .. } && write == (Write::CreateNode {
            parent,
            name,
            summary,
        })),
        surface.commit is CreateEpic && surface.fields.len() == 3
            && crate::app::surface::holds_text(surface.fields[0], id)
            && crate::app::surface::holds_text(surface.fields[1], name)
            && crate::app::surface::holds_text(surface.fields[2], summary) ==> (app.applied(
            Action::Accept,
            now,
        ).1 matches Step::Commit { write, .. } && write == (Write::CreateEpic {
            epic: Selection::Epic(id),
            name,
            summary,
        })),
{
    accepting_a_finished_surface_writes_it(app, surface, Err(Seq::empty()), now);
    crate::app::surface::a_creation_form_writes_what_its_fields_hold(
        surface,
        parent,
        id,
        name,
        summary,
        Err(Seq::empty()),
    );
}

/// With no surface open there is nothing for a reading to finish.
pub proof fn a_reading_finishes_only_an_open_surface(
    app: AppModel,
    reading: Result<NodeRef<Text>, Text>,
)
    requires
        app.surface is None,
    ensures
        app.read_as(reading) is Stay,
{
}

/// A dialog's own letter goes ahead: a write is left to be carried out with its notice, a
/// discarded surface goes, and the dialog goes with either; a dialog that carries no answer
/// stands.
pub proof fn going_ahead_performs_and_closes(
    app: AppModel,
    dialog: DialogModel,
    write: Write<Text>,
    done: Text,
    now: u64,
)
    requires
        app.modal == Some(Modal::Dialog(dialog)),
    ensures
        ({
            let letter = if dialog.answers == Answers::Conflict {
                Action::Overwrite
            } else {
                Action::Delete
            };
            let answered = !(dialog.answers == Answers::Acknowledge);
            &&& answered && (dialog.affirmative matches Some(answer) && answer.performs
                == (Performs::Write { write, done })) ==> comes_to(
                app,
                letter,
                now,
                AppModel { modal: None, ..app },
                Step::Commit { write, done },
            )
            &&& answered && (dialog.affirmative matches Some(answer) && answer.performs is Discard)
                ==> comes_to(
                app,
                letter,
                now,
                AppModel { modal: None, surface: None, ..app },
                Step::Stay,
            )
            &&& answered && dialog.affirmative is None ==> comes_to(
                app,
                letter,
                now,
                app,
                Step::Stay,
            )
        }),
{
}

/// Getting out of a dialog closes it and lands the reader in the field it names, where it
/// names one and a surface is open; nothing else changes.
pub proof fn getting_out_lands_in_the_named_field(
    app: AppModel,
    dialog: DialogModel,
    surface: SurfaceModel,
    field: usize,
    now: u64,
)
    requires
        app.modal == Some(Modal::Dialog(dialog)),
    ensures
        dialog.dismissal.performs is None || app.surface is None ==> comes_to(
            app,
            Action::Unwind,
            now,
            AppModel { modal: None, ..app },
            Step::Stay,
        ),
        dialog.dismissal.performs == Some(OnDismissal::Focus(field)) && app.surface == Some(surface)
            && 0 < surface.fields.len() <= usize::MAX ==> comes_to(
            app,
            Action::Unwind,
            now,
            AppModel {
                modal: None,
                surface: Some(
                    Surface {
                        focus: (if field < surface.fields.len() {
                            field as int
                        } else {
                            surface.fields.len() - 1
                        }) as usize,
                        ..surface
                    },
                ),
                ..app
            },
            Step::Stay,
        ),
{
    crate::action::each_question_has_its_own_answer();
    assert(dialog.answers.goes_ahead() != Some(Action::Unwind));
}

/// Help is raised over whatever the reader is in, outside of dialogs, and the keys that
/// raised it and leave a level put it away.
pub proof fn help_is_raised_and_put_away(app: AppModel, now: u64)
    ensures
        app.modal is None ==> comes_to(
            app,
            Action::ToggleHelp,
            now,
            AppModel { modal: Some(Modal::Help), ..app },
            Step::Stay,
        ),
        app.modal == Some(Modal::<DialogModel>::Help) ==> {
            &&& comes_to(app, Action::ToggleHelp, now, AppModel { modal: None, ..app }, Step::Stay)
            &&& comes_to(app, Action::Unwind, now, AppModel { modal: None, ..app }, Step::Stay)
            &&& comes_to(app, Action::Ascend, now, AppModel { modal: None, ..app }, Step::Stay)
            &&& comes_to(app, Action::CursorDown, now, app, Step::Stay)
        },
{
}

/// Leaving is refused in silence under a dialog, by naming the way out in a buffer and in
/// editing mode, and granted while browsing, help up or not.
pub proof fn leaving_is_told_the_way_out(app: AppModel, now: u64)
    ensures
        app.modal matches Some(Modal::Dialog(_)) ==> comes_to(app, Action::Quit, now, app, Step::Stay),
        !(app.modal matches Some(Modal::Dialog(_))) ==> {
            &&& app.surface is Some ==> comes_to(
                app,
                Action::Quit,
                now,
                noticed(app, "nothing is written yet — Esc leaves this buffer"@, now),
                Step::Stay,
            )
            &&& app.surface is None && app.editing is Some ==> comes_to(
                app,
                Action::Quit,
                now,
                noticed(app, "not an editing action — Esc to leave"@, now),
                Step::Stay,
            )
            &&& app.surface is None && app.editing is None ==> comes_to(
                app,
                Action::Quit,
                now,
                app,
                Step::Quit,
            )
        },
{
}

/// While browsing with the navigation pane on screen, the cursor keys and the wheel move
/// the cursor, entering asks for the level below or says there is none, and both ways out
/// leave the level.
pub proof fn browsing_keys_move_through_the_levels(app: AppModel, now: u64)
    requires
        app.modal is None,
        app.surface is None,
        app.editing is None,
        !app.zoomed,
    ensures
        ({
            let at = |nav: NavModel| AppModel { nav, ..app };
            &&& comes_to(app, Action::CursorDown, now, at(app.nav.down()), Step::Stay)
            &&& comes_to(app, Action::WheelDown, now, at(app.nav.down()), Step::Stay)
            &&& comes_to(app, Action::CursorUp, now, at(app.nav.up()), Step::Stay)
            &&& comes_to(app, Action::WheelUp, now, at(app.nav.up()), Step::Stay)
            &&& comes_to(app, Action::CursorFirst, now, at(app.nav.at(0)), Step::Stay)
            &&& comes_to(app, Action::CursorLast, now, at(app.nav.bottom()), Step::Stay)
            &&& comes_to(app, Action::Ascend, now, at(app.nav.ascended()), Step::Stay)
            &&& comes_to(app, Action::Unwind, now, at(app.nav.ascended()), Step::Stay)
            &&& app.nav.spec_below() matches Some(level) ==> comes_to(
                app,
                Action::Descend,
                now,
                app,
                Step::List(level),
            )
            &&& app.nav.spec_below() is None ==> comes_to(
                app,
                Action::Descend,
                now,
                noticed(app, "nothing to open here"@, now),
                Step::Stay,
            )
        }),
        forall|rows: Seq<Row<Text>>|
            #[trigger] app.descended(rows) == (AppModel { nav: app.nav.descended(rows), ..app }),
{
}

/// While the preview fills the width the motion keys scroll it by a line or to an end, the
/// level keys do nothing, and editing says how to bring the navigation pane back.
pub proof fn a_zoomed_preview_takes_the_motion_keys(app: AppModel, now: u64)
    requires
        app.modal is None,
        app.surface is None,
        app.editing is None,
        app.zoomed,
    ensures
        ({
            let at = |pane: Pane| AppModel { pane, ..app };
            &&& comes_to(app, Action::CursorDown, now, at(app.pane.down(1)), Step::Stay)
            &&& comes_to(app, Action::WheelDown, now, at(app.pane.down(1)), Step::Stay)
            &&& comes_to(app, Action::CursorUp, now, at(app.pane.up(1)), Step::Stay)
            &&& comes_to(app, Action::WheelUp, now, at(app.pane.up(1)), Step::Stay)
            &&& comes_to(app, Action::CursorFirst, now, at(app.pane.top()), Step::Stay)
            &&& comes_to(app, Action::CursorLast, now, at(app.pane.bottom()), Step::Stay)
            &&& comes_to(app, Action::Descend, now, app, Step::Stay)
            &&& comes_to(app, Action::Ascend, now, app, Step::Stay)
            &&& comes_to(app, Action::Unwind, now, app, Step::Stay)
            &&& comes_to(
                app,
                Action::EnterEditing,
                now,
                noticed(app, "editing needs the navigation pane — z brings it back"@, now),
                Step::Stay,
            )
        }),
{
}

/// While browsing, zoomed or not, the preview keys scroll by half a page, by a page or to
/// an end, the split is moved by five and reset to thirty between fifteen and seventy, zoom
/// is a switch, and a reload asks for the levels again.
pub proof fn browsing_keys_of_the_screen(app: AppModel, now: u64)
    requires
        app.modal is None,
        app.surface is None,
        app.editing is None,
        15 <= app.nav_percent <= 70,
    ensures
        ({
            let at = |pane: Pane| AppModel { pane, ..app };
            let split = |percent: int| AppModel { nav_percent: percent as u16, ..app };
            let half = (if app.preview_width < 4 {
                1
            } else {
                app.preview_width as int / 2
            }) as u16;
            &&& comes_to(app, Action::PreviewHalfDown, now, at(app.pane.down(half)), Step::Stay)
            &&& comes_to(app, Action::PreviewHalfUp, now, at(app.pane.up(half)), Step::Stay)
            &&& comes_to(
                app,
                Action::PreviewPageDown,
                now,
                at(app.pane.down(app.pane.step())),
                Step::Stay,
            )
            &&& comes_to(
                app,
                Action::PreviewPageUp,
                now,
                at(app.pane.up(app.pane.step())),
                Step::Stay,
            )
            &&& comes_to(app, Action::PreviewTop, now, at(app.pane.top()), Step::Stay)
            &&& comes_to(app, Action::PreviewBottom, now, at(app.pane.bottom()), Step::Stay)
            &&& comes_to(
                app,
                Action::ShrinkNav,
                now,
                split(
                    if app.nav_percent < 20 {
                        15
                    } else {
                        app.nav_percent - 5
                    },
                ),
                Step::Stay,
            )
            &&& comes_to(
                app,
                Action::GrowNav,
                now,
                split(
                    if app.nav_percent > 65 {
                        70
                    } else {
                        app.nav_percent + 5
                    },
                ),
                Step::Stay,
            )
            &&& comes_to(app, Action::ResetSplit, now, split(30), Step::Stay)
            &&& comes_to(
                app,
                Action::ToggleZoom,
                now,
                AppModel { zoomed: !app.zoomed, ..app },
                Step::Stay,
            )
            &&& comes_to(app, Action::Reload, now, app, Step::Reload)
        }),
{
}

/// Wherever it is moved from, the divider stays between fifteen and seventy and is exactly
/// where it was put inside them.
pub proof fn the_divider_stays_between_its_ends(app: AppModel, percent: int)
    ensures
        15 <= clamped(percent) <= 70,
        15 <= percent <= 70 ==> clamped(percent) == percent,
        percent < 15 ==> clamped(percent) == 15,
        percent > 70 ==> clamped(percent) == 70,
        app.split_at(percent) == (AppModel { nav_percent: clamped(percent), ..app }),
{
}

/// An epic's form and editing mode are entered from a store that may be written, the one
/// on the roster and the other on the highlighted row; where they are not, the reader is
/// told why, by a store that may not be written in its own words.
pub proof fn what_may_be_entered_from_browsing(
    app: AppModel,
    reason: ReadOnly,
    selection: Selection<Text>,
    now: u64,
)
    requires
        app.modal is None,
        app.surface is None,
        app.editing is None,
    ensures
        app.read_only == Some(reason) ==> {
            let told = noticed(app, app.gate.worded(reason.stands_for()), now);
            &&& comes_to(app, Action::CreateEpic, now, told, Step::Stay)
            &&& !app.zoomed ==> comes_to(app, Action::EnterEditing, now, told, Step::Stay)
        },
        app.read_only is None ==> {
            &&& app.nav.frames.len() == 1 ==> comes_to(
                app,
                Action::CreateEpic,
                now,
                AppModel { surface: Some(SurfaceModel::creating_epic()), ..app },
                Step::Stay,
            )
            &&& app.nav.frames.len() != 1 ==> comes_to(
                app,
                Action::CreateEpic,
                now,
                noticed(app, "a new epic is made from the epics list, not from inside one"@, now),
                Step::Stay,
            )
            &&& !app.zoomed && app.nav.selected() == Some(selection) ==> comes_to(
                app,
                Action::EnterEditing,
                now,
                AppModel { editing: Some(selection), ..app },
                Step::Stay,
            )
            &&& !app.zoomed && app.nav.selected() is None ==> comes_to(
                app,
                Action::EnterEditing,
                now,
                noticed(app, "nothing to edit: this store has no epics"@, now),
                Step::Stay,
            )
        },
{
}

/// The letters of editing mode and the keys of a surface do nothing while browsing.
pub proof fn browsing_answers_no_letter_of_another_layer(app: AppModel, action: Action, now: u64)
    requires
        app.modal is None,
        app.surface is None,
        app.editing is None,
        RowAction::asked_by(action) is Some || action is Overwrite || action is Insert || action
            is DeleteBefore || action is DeleteAfter || action is MoveLeft || action is MoveRight
            || action is MoveToStart || action is MoveToEnd || action is MoveUp || action is MoveDown
            || action is NextField || action is PreviousField || action is Accept || action
            is ExternalEditor || action is Unbound,
    ensures
        comes_to(app, action, now, app, Step::Stay),
{
}

/// Editing mode carries out what the frozen row offers for a letter: a question is asked, a
/// surface opened, a reading asked for, a write left to be carried out, a signpost said;
/// and a letter the row does not offer is told the way out. Its own keys are the way out,
/// help and a reload, and the wheel is silent.
pub proof fn editing_mode_carries_out_what_the_row_offers(
    app: AppModel,
    asked: RowAction,
    action: Action,
    now: u64,
)
    requires
        app.modal is None,
        app.surface is None,
        app.editing is Some,
    ensures
        RowAction::asked_by(action) == Some(asked) ==> (match app.offer(asked) {
            Some(Offer::Ask(dialog)) => comes_to(
                app,
                action,
                now,
                AppModel { modal: Some(Modal::Dialog(dialog)), ..app },
                Step::Stay,
            ),
            Some(Offer::Fill(surface)) => comes_to(
                app,
                action,
                now,
                AppModel { surface: Some(surface), ..app },
                Step::Stay,
            ),
            Some(Offer::Compose(composed)) => comes_to(
                app,
                action,
                now,
                app,
                Step::Compose(composed),
            ),
            Some(Offer::Perform { write, done }) => comes_to(
                app,
                action,
                now,
                app,
                Step::Commit { write, done },
            ),
            Some(Offer::Signpost(notice)) => comes_to(
                app,
                action,
                now,
                noticed(app, notice, now),
                Step::Stay,
            ),
            None => comes_to(
                app,
                action,
                now,
                noticed(app, "not an editing action — Esc to leave"@, now),
                Step::Stay,
            ),
        }),
        comes_to(app, Action::Unwind, now, AppModel { editing: None, ..app }, Step::Stay),
        comes_to(app, Action::Reload, now, app, Step::Reload),
        comes_to(app, Action::WheelDown, now, app, Step::Stay),
        comes_to(app, Action::WheelUp, now, app, Step::Stay),
        comes_to(app, Action::Unbound, now, app, Step::Stay),
        RowAction::asked_by(action) is None && !(action is Unwind) && !(action is Reload) && !(
        action is WheelDown) && !(action is WheelUp) && !(action is Unbound) && !(action
            is ToggleHelp) && !(action is Quit) ==> comes_to(
            app,
            action,
            now,
            noticed(app, "not an editing action — Esc to leave"@, now),
            Step::Stay,
        ),
{
}

/// What a row offers is asked of the row editing mode is on, with what the highlighted row
/// shows of it, and only of a store that may be written; a signpost is no offer.
pub proof fn an_offer_is_the_frozen_rows(app: AppModel, asked: RowAction, target: Selection<Text>)
    ensures
        app.read_only is Some || app.editing is None ==> app.offer(asked) is None,
        app.read_only is None && app.editing == Some(target) ==> app.offer(asked) == offer_on(
            target,
            app.row_of(target),
            asked,
        ),
        app.offers(asked) <==> app.offer(asked) is Some && !(app.offer(asked)->0 is Signpost),
        app.row_of(target) matches Some(row) ==> row.selection == target
            && app.nav.spec_frame().spec_current() == Some(row),
        app.nav.selected() == Some(target) ==> app.row_of(target)
            == app.nav.spec_frame().spec_current(),
{
}

/// Adding acts on the container the row is: a ticket on an epic, a subticket on a ticket, a
/// label, a comment or a node's blocker on their collections, each in a form of its own on
/// that row; an assets row names the command that attaches one, and nothing else is added
/// to.
pub proof fn adding_acts_on_the_container_the_row_is(
    target: Selection<Text>,
    row: Option<Row<Text>>,
    container: Container<Text>,
    kind: Collection,
)
    ensures
        ({
            let offer = offer_on(target, row, RowAction::Add);
            let place = container.spec_reference();
            let fill = |surface: SurfaceModel| Some(OfferModel::Fill(surface));
            &&& target is Epic || target is Node ==> offer == fill(
                SurfaceModel::creating_node(target),
            )
            &&& target == Selection::Collection(container, kind) ==> (match kind {
                Collection::Labels => offer == fill(SurfaceModel::adding_label(target, place)),
                Collection::Comments => offer == fill(SurfaceModel::adding_comment(target, place)),
                Collection::BlockedBy => if container is Node {
                    offer == fill(SurfaceModel::adding_blocker(target, place))
                } else {
                    offer is None
                },
                Collection::Assets => offer == Some(
                    OfferModel::Signpost(
                        "loti "@ + container.spec_cli_noun() + " asset add "@ + place
                            + " --file <path> — assets are attached from the command line"@,
                    ),
                ),
            })
            &&& target is Label || target is Comment || target is Asset || target is Blocker
                || target is UnremovableBlocker ==> offer is None
        }),
{
}

/// Deleting asks by name about exactly the row: a label and a blocker are removed, an asset
/// and a comment the human wrote are deleted, each by its own write and with its own
/// notice; no other row is deleted.
pub proof fn deleting_asks_about_exactly_the_row(
    target: Selection<Text>,
    row: Option<Row<Text>>,
    container: Container<Text>,
    node: NodeRef<Text>,
    word: Text,
    id: u64,
)
    ensures
        ({
            let offer = offer_on(target, row, RowAction::Delete);
            let asks = |question: Text, verb: Text, write: Write<Text>, done: Text|
                offer == Some(
                    OfferModel::Ask(
                        DialogModel::asking(
                            question,
                            verb,
                            Performs::Write { write, done },
                            "cancel"@,
                        ),
                    ),
                );
            let humans = row matches Some(shown) && shown.kind == (RowKind::<Text>::Comment {
                by_the_human: true,
            });
            let number = decimal(id as nat);
            &&& target == Selection::Label(container, word) ==> asks(
                "Remove label "@ + word + "?"@,
                "remove"@,
                Write::RemoveLabel(target),
                "label "@ + word + " removed"@,
            )
            &&& target == Selection::Blocker(container, node) ==> asks(
                "Remove blocker "@ + node.spec_shown() + "?"@,
                "remove"@,
                Write::RemoveBlocker(target),
                "blocker "@ + node.spec_shown() + " removed"@,
            )
            &&& target == Selection::Asset(container, word) ==> asks(
                "Delete asset "@ + word + "?"@,
                "delete"@,
                Write::DeleteAsset(target),
                "asset "@ + word + " deleted"@,
            )
            &&& target == Selection::<Text>::Comment(container, id) ==> if humans {
                asks(
                    "Delete comment "@ + number + "?"@,
                    "delete"@,
                    Write::DeleteComment(target),
                    "comment "@ + number + " deleted"@,
                )
            } else {
                offer is None
            }
            &&& target is Epic || target is Node || target is Collection || target
                is UnremovableBlocker ==> offer is None
        }),
{
}

/// Editing reads the field it names from the entity the row is, or the text of a comment
/// the human wrote; a state is read for an entity, a claim is filled in for a ticket, and a
/// held one is given up at once, naming its holder.
pub proof fn the_other_letters_act_on_the_row_they_are_pressed_on(
    target: Selection<Text>,
    row: Option<Row<Text>>,
    field: FreeForm,
    status: Text,
    holder: Text,
)
    ensures
        ({
            let entity = target is Epic || target is Node;
            let humans = row matches Some(shown) && shown.kind == (RowKind::<Text>::Comment {
                by_the_human: true,
            });
            let held = row matches Some(shown) && shown.kind == (RowKind::Work {
                status,
                claimed_by: Some(holder),
            });
            let free = row is None || (row matches Some(shown) && (!(shown.kind is Work)
                || shown.kind == (RowKind::Work { status, claimed_by: None })));
            let edit = offer_on(target, row, RowAction::Edit(field));
            let state = offer_on(target, row, RowAction::SetState);
            let take = offer_on(target, row, RowAction::TakeClaim);
            let release = offer_on(target, row, RowAction::ReleaseClaim);
            &&& entity ==> edit == Some(OfferModel::Compose(Composed::Field(field)))
            &&& entity ==> state == Some(OfferModel::Compose(Composed::State))
            &&& !entity ==> state is None
            &&& target is Comment && field == FreeForm::Body && humans ==> edit == Some(
                OfferModel::Compose(Composed::CommentText),
            )
            &&& !entity && !(target is Comment && field == FreeForm::Body && humans) ==> edit is None
            &&& target is Node ==> take == Some(OfferModel::Fill(SurfaceModel::taking_claim(target)))
            &&& !(target is Node) ==> take is None && release is None
            &&& target is Node && held ==> release == Some(
                OfferModel::Perform {
                    write: Write::ReleaseClaim(target),
                    done: "claim on "@ + target.spec_reference() + " released by "@ + holder,
                },
            )
            &&& target is Node && free ==> release is None
        }),
{
}

/// A reload takes what was listed and whether the store may be written, and changes nothing
/// else; editing ends, with a notice, where the store may not be written and where the row
/// it was on is no longer under the cursor.
pub proof fn a_reload_takes_what_was_read(
    app: AppModel,
    listings: Seq<Option<Vec<Row>>>,
    verdict: Option<ReadOnly>,
    now: u64,
)
    ensures
        ({
            let after = app.reloaded(listings, verdict, now);
            let read = AppModel {
                nav: app.nav.reloaded(listings),
                read_only: verdict,
                ..app
            };
            let stopped = AppModel { editing: None, ..read };
            let lost = app.editing is Some && read.nav.selected() != app.editing;
            &&& app.editing is None ==> after == read
            &&& app.editing is Some && verdict is Some ==> after == noticed(
                stopped,
                "the store can no longer be written — editing stopped"@,
                now,
            )
            &&& app.editing is Some && verdict is None && lost ==> after == noticed(
                stopped,
                "the row you were editing is gone"@,
                now,
            )
            &&& app.editing is Some && verdict is None && !lost ==> after == read
        }),
{
}

/// A write that was carried out ends the session on the re-read levels with its notice; a
/// conflict asks about the row the write was aimed at, a rule is reported in the store's
/// words, and a part done is re-read and reported.
pub proof fn what_came_of_a_write_is_shown(
    app: AppModel,
    write: Write<Text>,
    done: Text,
    effect: Effect<Text>,
    words: Text,
    listings: Seq<Option<Vec<Row>>>,
    verdict: Option<ReadOnly>,
    now: u64,
)
    ensures
        ({
            let came = |outcome: Result<Effect<Text>, Refusal<Text>>|
                app.committed(write, done, outcome, listings, verdict, now);
            let read = AppModel { nav: app.nav.reloaded(listings), read_only: verdict, ..app };
            let asking = |app: AppModel, dialog: DialogModel|
                AppModel { modal: Some(Modal::Dialog(dialog)), ..app };
            &&& came(Ok(effect)) == noticed(
                AppModel { surface: None, editing: None, ..read },
                report_of(done, effect),
                now,
            )
            &&& came(Err(Refusal::Conflict)) == asking(
                app,
                DialogModel::conflicting(write.spec_target().spec_reference(), write, done),
            )
            &&& came(Err(Refusal::Rule(words))) == asking(
                AppModel { read_only: verdict, ..app },
                DialogModel::refusing(words),
            )
            &&& verdict is None || app.editing is None ==> came(Err(Refusal::Partial(words)))
                == asking(read, DialogModel::refusing(words))
            &&& verdict is Some && app.editing is Some ==> came(Err(Refusal::Partial(words)))
                == asking(
                noticed(
                    AppModel { editing: None, ..read },
                    "the store can no longer be written — editing stopped"@,
                    now,
                ),
                DialogModel::refusing(words),
            )
        }),
{
}

/// A surface that was read opens, and one that could not be is reported; nothing else
/// changes.
pub proof fn what_was_read_opens_or_is_reported(app: AppModel, surface: SurfaceModel, words: Text)
    ensures
        app.opened(Ok(surface)) == (AppModel { surface: Some(surface), ..app }),
        app.opened(Err(words)) == (AppModel {
            modal: Some(Modal::Dialog(DialogModel::unreadable(words))),
            ..app
        }),
        unavailable_page(words) == "# unavailable\n\n> "@ + words + "\n"@,
{
}

/// The keyboard is under the innermost layer: a dialog's answers, a surface's fields,
/// editing mode, and browsing; help is above whichever it was raised over.
pub proof fn the_keyboard_is_under_the_innermost_layer(
    app: AppModel,
    dialog: DialogModel,
    surface: SurfaceModel,
)
    ensures
        app.modal == Some(Modal::Dialog(dialog)) ==> app.mode() == Mode::Dialog(dialog.answers),
        !(app.modal matches Some(Modal::Dialog(_))) ==> {
            &&& app.surface == Some(surface) ==> app.mode() == Mode::Surface(surface.spec_shape())
            &&& app.surface is None && app.editing is Some ==> app.mode() == Mode::Editing
            &&& app.surface is None && app.editing is None ==> app.mode() == Mode::Browse
        },
{
}

/// The preview follows the highlighted row's document: it is loaded again where the
/// document or the width is another, at its start where the document is, in a new pane
/// wrapped to the width where the width is, and nothing else of the browser changes.
pub proof fn the_preview_follows_the_highlighted_document(
    app: AppModel,
    target: Selection<Text>,
    width: u16,
)
    ensures
        app.nav.spec_preview_target() == Some(target) ==> app.document() == Some(
            target.spec_document(),
        ),
        app.nav.spec_preview_target() is None ==> app.document() is None,
        ({
            let after = app.synced(width);
            let another = app.document() != app.shown;
            let resized = width != app.preview_width;
            &&& after == (AppModel {
                pane: after.pane,
                preview_width: width,
                shown: app.document(),
                ..app
            })
            &&& !resized && !another ==> after.pane == app.pane
            &&& !resized && another ==> after.pane == (Pane { scroll: 0, ..app.pane })
            &&& resized ==> after.pane == (Pane {
                content: Seq::empty(),
                wrap: (if width == 0 {
                    1
                } else {
                    width as int
                }) as usize,
                height: 0,
                page: 0,
                scroll: 0,
            })
            &&& resized || another ==> app.unloaded(width) == Some(app.nav.spec_preview_target())
            &&& !resized && !another ==> app.unloaded(width) is None
        }),
{
}

/// A notice is up for five seconds from when it was raised.
pub proof fn a_notice_is_up_for_five_seconds(app: AppModel, message: Text, raised: u64, now: u64)
    ensures
        (Flash { message, raised }).is_up(now) <==> now < raised + 5_000_000_000,
        app.flashed(message, raised) == noticed(app, message, raised),
{
}

} // verus!

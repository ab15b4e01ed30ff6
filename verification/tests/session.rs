//! The browser's parts on their own — the position, a field, a surface, a dialog,
//! the preview — and what holds of a session whatever is pressed.
use loti_tui::action::{
    Action, Answers, EditingAction, FieldKind, Fields, Form, Lines, Mode, RowAction, Shape,
};
use loti_tui::app::{
    accepts, cascade_label, char_count, line_bounds, no_epics, reported, unavailable, App, Check,
    Choice, Composed, Dialog, Field, Modal, Offer, OnDismissal, Performs, Placement, Shown, Step,
    Surface, CONFLICT_TITLE, DEFAULT_NAV_PERCENT, EDITING_NEEDS_THE_NAV_PANE,
    EDITING_STOPPED_READ_ONLY, EDITOR_TITLE, EPICS_ARE_MADE_FROM_THE_EPICS_LIST, FLASH_LIFETIME,
    MAX_NAV_PERCENT, MIN_NAV_PERCENT, NOTHING_TO_EDIT, NOTHING_TO_OPEN, NOT_AN_EDITING_ACTION,
    NOT_A_WAY_OUT_OF_A_BUFFER, REFUSAL_TITLE, REJECTED_TITLE, REQUIRED_TITLE, THE_ROW_IS_GONE,
    UNREADABLE_TITLE,
};
use loti_tui::data::{
    Collection, CommentsReading, Container, Effect, EntityReading, FreeForm, GateWords,
    HeldComment, Level, NodeRef, NodeState, ReadOnly, Refusal, Replaceable, Row, RowKind,
    Selection, State, StateReading, StateTarget, Write,
};
use loti_tui::moment::Moment;
use loti_tui::nav::Nav;
use ratatui::backend::TestBackend;
use ratatui::Terminal;
use ratatui_markdown::theme::ThemeConfig;

const NOW: u64 = 1_000;

fn words() -> GateWords {
    GateWords::new(
        "run loti migrate".to_string(),
        "a migration is running".to_string(),
        "get a newer loti".to_string(),
        "no version".to_string(),
    )
    .expect("four different sentences")
}

fn work(selection: Selection, label: &str, name: &str, holder: Option<&str>) -> Row {
    Row {
        selection,
        kind: RowKind::Work {
            status: "to-do".to_string(),
            claimed_by: holder.map(str::to_string),
        },
        label: label.to_string(),
        name: name.to_string(),
        children: 0,
    }
}

fn epic(id: &str) -> Row {
    work(Selection::Epic(id.to_string()), id, "An epic", None)
}

fn node(number: u64) -> NodeRef {
    NodeRef::new("alpha", number)
}

fn ticket(number: u64, holder: Option<&str>) -> Row {
    work(Selection::Node(node(number)), &number.to_string(), "A ticket", holder)
}

fn collection(kind: Collection, children: usize) -> Row {
    Row {
        selection: Selection::Collection(Container::Node(node(7)), kind),
        kind: RowKind::Collection(kind),
        label: String::new(),
        name: kind.name().to_string(),
        children,
    }
}

fn member(selection: Selection, kind: RowKind) -> Row {
    Row {
        selection,
        kind,
        label: "member".to_string(),
        name: String::new(),
        children: 0,
    }
}

fn label(text: &str) -> Row {
    let on = Container::Node(node(7));
    member(Selection::Label(on, text.to_string()), RowKind::Member)
}

/// A browser on a roster of three epics.
fn browser() -> App {
    App::new(vec![epic("alpha"), epic("beta"), epic("gamma")], None, words())
}

/// A browser in editing mode on a row, one level down.
fn editing(row: Row) -> App {
    let mut app = browser();
    assert_eq!(app.apply(Action::Descend, NOW), Step::List(Level::Epic("alpha".to_string())));
    app.descended(vec![row]);
    assert_eq!(app.apply(Action::EnterEditing, NOW), Step::Stay);
    assert!(app.editing_target().is_some());
    app
}

fn typed(app: &mut App, text: &str) {
    for c in text.chars() {
        assert_eq!(app.apply(Action::Insert(c), NOW), Step::Stay);
    }
}

fn dialog(app: &App) -> &Dialog {
    match app.modal() {
        Some(Modal::Dialog(dialog)) => dialog,
        other => panic!("no dialog is open: {other:?}"),
    }
}

fn read(name: &str, body: &str) -> Result<EntityReading, String> {
    Ok(EntityReading {
        name: name.to_string(),
        summary: "A summary".to_string(),
        body: body.to_string(),
        updated: Moment::at(5).unwrap(),
    })
}

#[test]
fn the_cursor_stops_at_both_ends_of_a_level() {
    let mut nav = Nav::new(vec![epic("alpha"), epic("beta")]);
    nav.cursor_up();
    assert_eq!(nav.cursor(), 0);
    nav.cursor_down();
    nav.cursor_down();
    assert_eq!(nav.cursor(), 1);
    nav.cursor_first();
    assert_eq!(nav.cursor(), 0);
    nav.cursor_last();
    assert_eq!(nav.cursor(), 1);
    let mut empty = Nav::new(Vec::new());
    empty.cursor_down();
    empty.cursor_last();
    empty.cursor_up();
    assert_eq!((empty.cursor(), empty.rows().len()), (0, 0));
    assert!(empty.frame().current().is_none());
    assert!(!empty.can_descend());
    assert_eq!(empty.preview_target(), None);
}

#[test]
fn a_level_is_left_for_the_row_it_was_entered_from() {
    let mut nav = Nav::new(vec![epic("alpha"), epic("beta")]);
    nav.cursor_down();
    assert_eq!(nav.below(), Some(Level::Epic("beta".to_string())));
    nav.descend(vec![collection(Collection::Labels, 0), ticket(7, None)]);
    assert!(!nav.at_roster());
    assert!(!nav.can_descend());
    assert_eq!(nav.below(), None);
    // A row with nothing below it is not entered.
    nav.descend(vec![epic("gamma")]);
    assert_eq!(nav.levels().len(), 2);
    nav.cursor_down();
    nav.descend(vec![collection(Collection::Labels, 1)]);
    nav.descend(vec![label("urgent")]);
    assert!(nav.at_collection());
    assert_eq!(nav.crumbs(), vec!["epics", "beta", "7 A ticket", "labels"]);
    assert_eq!(nav.levels()[3], Level::Collection(Container::Node(node(7)), Collection::Labels));
    for _ in 0..5 {
        nav.ascend();
    }
    assert!(nav.at_roster());
    assert_eq!(nav.cursor(), 1);
}

#[test]
fn a_reload_follows_the_row_and_keeps_what_it_could_not_read() {
    let deep = || {
        let mut nav = Nav::new(vec![epic("alpha"), epic("beta")]);
        nav.descend(vec![ticket(7, None), ticket(8, None), ticket(9, None)]);
        nav.cursor_last();
        nav
    };
    let mut nav = deep();
    nav.reload(&vec![None, Some(vec![ticket(9, Some("me")), ticket(8, None)])]);
    assert_eq!(nav.cursor(), 0);
    assert_eq!(nav.rows()[0], ticket(9, Some("me")));
    nav.reload(&vec![None, Some(vec![ticket(8, None), ticket(10, None)])]);
    assert_eq!(nav.cursor(), 0);
    let mut nav = deep();
    nav.reload(&vec![None, Some(vec![ticket(7, None)])]);
    assert_eq!(nav.cursor(), 0);
    let mut nav = deep();
    nav.reload(&Vec::new());
    assert_eq!(nav, deep());
    nav.reload(&vec![None, Some(Vec::new())]);
    assert_eq!((nav.cursor(), nav.levels().len()), (0, 2));
    assert_eq!(nav.preview_target(), Some(Selection::Epic("alpha".to_string())));
}

#[test]
fn an_emptied_collection_is_left_and_a_renamed_level_is_called_by_its_new_name() {
    let mut nav = Nav::new(vec![epic("alpha")]);
    nav.descend(vec![ticket(7, None)]);
    nav.descend(vec![collection(Collection::Labels, 1)]);
    nav.descend(vec![label("urgent")]);
    let mut renamed = ticket(7, None);
    renamed.name = "Renamed".to_string();
    nav.reload(&vec![
        Some(vec![epic("alpha")]),
        Some(vec![renamed]),
        Some(vec![collection(Collection::Labels, 0)]),
        Some(Vec::new()),
    ]);
    assert_eq!(nav.crumbs(), vec!["epics", "alpha", "7 Renamed"]);
}

#[test]
fn a_line_is_found_wherever_in_it_the_cursor_is() {
    let text = "né\n\nlast";
    assert_eq!(char_count(text), 8);
    for (cursor, bounds) in [
        (0, (0, 2)),
        (2, (0, 2)),
        (3, (3, 3)),
        (4, (4, 8)),
        (8, (4, 8)),
        (99, (4, 8)),
    ] {
        assert_eq!(line_bounds(text, cursor), bounds, "{cursor}");
    }
    assert_eq!(line_bounds("", 3), (0, 0));
    assert!(accepts('\n', Lines::Many) && !accepts('\n', Lines::One));
    assert!(!accepts('\r', Lines::Many) && accepts('é', Lines::One));
}

/// What a field of text holds, and where its cursor is.
fn held(field: &Field) -> (String, usize) {
    match field.shown() {
        Shown::Text { value, cursor } => (value.to_string(), cursor),
        Shown::Pick { .. } => panic!("a picker holds no text"),
    }
}

#[test]
fn typing_lands_at_the_cursor_and_is_taken_back_from_it() {
    let mut field = Field::new("note", false, Lines::Many);
    for c in "né\nx".chars() {
        field.apply(Action::Insert(c));
    }
    assert_eq!(held(&field), ("né\nx".to_string(), 4));
    field.apply(Action::MoveLeft);
    field.apply(Action::DeleteBefore);
    assert_eq!(held(&field), ("néx".to_string(), 2));
    field.apply(Action::DeleteAfter);
    assert_eq!(held(&field), ("né".to_string(), 2));
    field.apply(Action::DeleteAfter);
    field.apply(Action::MoveToStart);
    field.apply(Action::DeleteBefore);
    assert_eq!(held(&field), ("né".to_string(), 0));
    field.apply(Action::MoveToEnd);
    field.apply(Action::MoveRight);
    assert_eq!(held(&field), ("né".to_string(), 2));
    field.apply(Action::Insert('\r'));
    assert_eq!(held(&field), ("né".to_string(), 2));
}

#[test]
fn moving_between_lines_keeps_the_column_a_line_has() {
    let mut field = Field::filled("note", false, Lines::Many, "long line\nab\r\nlonger");
    assert_eq!(held(&field).0, "long line\nab\nlonger");
    for _ in 0..5 {
        field.apply(Action::MoveRight);
    }
    field.apply(Action::MoveDown);
    assert_eq!(held(&field).1, 12);
    field.apply(Action::MoveDown);
    assert_eq!(held(&field).1, 15);
    field.apply(Action::MoveDown);
    assert_eq!(held(&field).1, 15);
    field.apply(Action::MoveUp);
    field.apply(Action::MoveUp);
    assert_eq!(held(&field).1, 2);
    field.apply(Action::MoveUp);
    assert_eq!(held(&field).1, 2);
    assert!(!field.is_dirty());
}

#[test]
fn dirt_is_what_was_pressed_and_never_what_differs() {
    for key in [Action::Insert('\n'), Action::DeleteBefore, Action::DeleteAfter] {
        let mut field = Field::new("line", true, Lines::One);
        field.apply(key);
        assert_eq!(held(&field), (String::new(), 0));
        assert!(field.is_dirty(), "{key:?}");
    }
    for key in [Action::MoveLeft, Action::MoveDown, Action::Unbound, Action::Accept] {
        let mut field = Field::new("line", true, Lines::One);
        field.apply(key);
        assert!(!field.is_dirty(), "{key:?}");
    }
    let mut field = Field::new("line", true, Lines::One);
    field.replace("two\nlines\r");
    assert_eq!(held(&field), ("twolines".to_string(), 8));
    assert!(field.is_dirty());
}

#[test]
fn a_picker_is_marked_where_it_is_asked_to_start_and_stops_at_both_ends() {
    let options = || {
        vec![
            Choice::State(State::EpicOpen),
            Choice::State(State::EpicClosed),
            Choice::Cascade(true),
        ]
    };
    let mut field = Field::pick("status", options(), Choice::State(State::EpicClosed));
    assert_eq!(field.kind(), FieldKind::Pick);
    assert_eq!(field.chosen(), Some(Choice::State(State::EpicClosed)));
    assert_eq!(field.text(), None);
    assert!(!field.accepts('a') && !field.unfilled());
    field.replace("text");
    field.apply(Action::Insert('a'));
    assert!(!field.is_dirty());
    field.apply(Action::MoveDown);
    assert!(field.is_dirty());
    field.apply(Action::MoveDown);
    assert_eq!(field.chosen(), Some(Choice::Cascade(true)));
    match field.shown() {
        Shown::Pick { options, at } => {
            assert_eq!((options, at), (vec!["open", "closed", "yes"], 2));
        }
        Shown::Text { .. } => panic!("a picker is drawn as its values"),
    }
    let mut first = Field::pick("status", options(), Choice::Cascade(false));
    assert_eq!(first.chosen(), Some(Choice::State(State::EpicOpen)));
    first.apply(Action::MoveUp);
    assert!(!first.is_dirty());
    assert_eq!(Choice::Cascade(false).word(), "no");
}

#[test]
fn a_required_field_wants_something_a_reader_can_see() {
    let mut field = Field::new("label", true, Lines::One);
    assert!(field.unfilled());
    field.apply(Action::Insert('\u{a0}'));
    assert!(field.unfilled());
    field.apply(Action::Insert('x'));
    assert!(!field.unfilled());
    assert!(!Field::new("summary", false, Lines::One).unfilled());
    assert_eq!(field.label(), "label");
}

#[test]
fn an_epic_id_is_one_plain_name() {
    let objection = "an epic id is one name: it cannot contain / and cannot be . or ..".to_string();
    for id in ["a/b", "/", ".", ".."] {
        assert_eq!(Check::EpicId.objection(id), Some(objection.clone()), "{id}");
        assert_eq!(Check::Store.objection(id), None);
    }
    for id in ["", "a", "...", ".a", "a b"] {
        assert_eq!(Check::EpicId.objection(id), None, "{id}");
    }
    let mut field = Field::checked("epic id", Check::EpicId);
    assert!(field.unfilled());
    assert_eq!(field.rejected(), None);
    field.replace("..");
    assert_eq!(field.rejected(), Some(objection));
}

fn state_of(current: NodeState, open_descendants: usize) -> Surface {
    Surface::set_state(StateTarget {
        selection: Selection::Node(node(7)),
        offered: vec![
            State::Work(NodeState::ToDo),
            State::Work(NodeState::InProgress),
            State::Work(NodeState::Blocked),
            State::Work(NodeState::Done),
            State::Work(NodeState::Closed),
        ],
        current: State::Work(current),
        open_descendants,
    })
}

fn labels(surface: &Surface) -> Vec<String> {
    surface.fields().iter().map(|field| field.label().to_string()).collect()
}

#[test]
fn a_state_surface_asks_for_exactly_what_its_state_wants() {
    let mut surface = state_of(NodeState::Done, 2);
    assert_eq!(surface.title(), " status of alpha/7 ");
    assert_eq!(labels(&surface), vec!["status"]);
    assert_eq!(surface.shape(), Form { fields: Fields::One, kind: FieldKind::Pick });
    surface.apply(Action::MoveDown);
    assert_eq!(labels(&surface), vec!["status", "reason", "also close 2 open descendants"]);
    surface.move_focus(true);
    surface.apply(Action::Insert('x'));
    assert_eq!(surface.shape().kind, FieldKind::OneLine);
    surface.move_focus(true);
    surface.apply(Action::MoveDown);
    let (write, done) = surface.write(&Err(String::new()));
    assert_eq!(
        write,
        Write::SetState {
            target: Selection::Node(node(7)),
            state: State::Work(NodeState::Closed),
            reason: "x".to_string(),
            cascade: true,
        }
    );
    assert_eq!(done, "alpha/7 is now closed");
    // Moving off the state takes its fields away, and coming back asks afresh.
    surface.move_focus(true);
    assert_eq!(surface.focus(), 0);
    surface.apply(Action::MoveUp);
    assert_eq!(labels(&surface), vec!["status"]);
    surface.apply(Action::MoveDown);
    assert_eq!(surface.fields()[1].text(), Some(""));
    assert_eq!(surface.fields()[2].chosen(), Some(Choice::Cascade(false)));
}

#[test]
fn a_reason_survives_a_pick_that_still_wants_one() {
    let mut surface = state_of(NodeState::Blocked, 0);
    assert_eq!(labels(&surface), vec!["status", "reason"]);
    surface.move_focus(false);
    assert_eq!(surface.focus(), 1);
    surface.apply(Action::Insert('x'));
    surface.move_focus(true);
    surface.apply(Action::MoveDown);
    assert_eq!(labels(&surface), vec!["status"]);
    surface.apply(Action::MoveUp);
    surface.move_focus(true);
    surface.take_back("why");
    let kept = surface.clone();
    assert_eq!(kept, surface);
    assert_eq!(surface.unfilled(), None);
    assert_eq!(surface.dirtied(), Some(0));
    let (write, _) = surface.write(&Err(String::new()));
    assert!(matches!(write, Write::SetState { reason, cascade: false, .. } if reason == "why"));
}

#[test]
fn each_surface_writes_what_it_is_titled_for() {
    let on = Selection::Collection(Container::Node(node(7)), Collection::BlockedBy);
    let mut surface = Surface::add_blocker(on.clone(), "alpha/7");
    surface.take_back(" beta/2 ");
    assert_eq!(surface.token(), Some("beta/2".to_string()));
    let (write, done) = surface.write(&Ok(NodeRef::new("beta", 2)));
    assert_eq!(write, Write::AddBlocker(on, " beta/2 ".to_string()));
    assert_eq!(done, "blocker beta/2 added");

    let mut surface = Surface::create_epic();
    assert_eq!(surface.token(), None);
    assert_eq!(labels(&surface), vec!["epic id", "name", "summary"]);
    surface.take_back("a/b");
    assert_eq!(surface.unfilled(), Some(1));
    surface.move_focus(true);
    surface.take_back("Name");
    assert_eq!(surface.unfilled(), None);
    assert_eq!(surface.rejected().map(|(at, _)| at), Some(0));

    let parent = Selection::Epic("alpha".to_string());
    let mut surface = Surface::create_node(parent.clone());
    assert_eq!(surface.title(), " new ticket on alpha ");
    surface.take_back("Name");
    let (write, done) = surface.write(&Err(String::new()));
    assert_eq!(
        write,
        Write::CreateNode { parent, name: "Name".to_string(), summary: String::new() }
    );
    assert_eq!(done, "ticket on alpha added");
    assert_eq!(Surface::create_node(Selection::Node(node(7))).title(), " new subticket on alpha/7 ");
    assert_eq!(Surface::take_claim(Selection::Node(node(7))).title(), " claim on alpha/7 ");
}

#[test]
fn the_keyboard_goes_round_the_fields_in_both_directions() {
    for mut surface in [
        Surface::create_epic(),
        Surface::add_label(Selection::Epic("alpha".to_string()), "alpha"),
    ] {
        let count = surface.fields().len();
        let start = surface.focus();
        for moves in 1..=3 * count {
            surface.move_focus(true);
            assert_eq!(surface.focus(), (start + moves) % count, "{moves}");
            surface.move_focus(false);
            assert_eq!(surface.focus(), (start + moves - 1) % count, "{moves}");
            surface.move_focus(true);
        }
        assert_eq!(surface.focus(), start);
    }
}

#[test]
fn a_dialog_carries_its_words_and_where_the_reader_lands() {
    let write = Write::Replace {
        target: Selection::Node(node(7)),
        field: Replaceable::Field(FreeForm::Name),
        value: "Name".to_string(),
        expect: None,
    };
    let conflict = Dialog::conflict("alpha/7", write.clone(), "saved".to_string());
    assert_eq!((conflict.title(), conflict.answers()), (CONFLICT_TITLE, Answers::Conflict));
    assert_eq!(conflict.words().affirmative, Some("overwrite anyway"));
    assert_eq!(
        conflict.affirmative.map(|answer| answer.performs),
        Some(Performs::Write { write, done: "saved".to_string() })
    );
    let required = Dialog::required("label", 2);
    assert_eq!((required.title(), required.message()), (REQUIRED_TITLE, "label is required."));
    assert_eq!(required.dismissal.performs, Some(OnDismissal::Focus(2)));
    assert_eq!(required.words().affirmative, None);
    let rejected = Dialog::rejected("no".to_string(), 1);
    assert_eq!((rejected.title(), rejected.message()), (REJECTED_TITLE, "no"));
    let refusal = Dialog::refusal("words".to_string());
    assert_eq!((refusal.title(), refusal.words().dismissal), (REFUSAL_TITLE, "dismiss"));
    assert_eq!(Dialog::discard("body").message(), "Discard changes to body?");
}

#[test]
fn a_notice_is_finished_with_what_only_the_store_could_say() {
    let done = || "done".to_string();
    assert_eq!(reported(done(), Effect::AsAsked), "done");
    assert_eq!(reported(done(), Effect::AlsoClosed(1)), "done, and 1 descendant with it");
    assert_eq!(reported(done(), Effect::AlsoClosed(12)), "done, and 12 descendants with it");
    assert_eq!(reported(done(), Effect::Commented(4)), "done, numbered 4");
    assert_eq!(reported(done(), Effect::Created("alpha/9".to_string())), "done as alpha/9");
    assert_eq!(
        reported(done(), Effect::AlreadyListed("beta/2".to_string())),
        "blocker beta/2 is already listed"
    );
    assert_eq!(cascade_label(1), "also close 1 open descendant");
    assert_eq!(cascade_label(10), "also close 10 open descendants");
}

#[test]
fn the_vocabulary_of_keys_is_one_mapping() {
    for action in RowAction::all() {
        assert_eq!(RowAction::for_intent(action.intent()), Some(action));
    }
    for action in EditingAction::ALL {
        assert_eq!(EditingAction::for_intent(action.intent()), Some(action));
        assert_eq!(RowAction::for_intent(action.intent()), Some(action.row_action()));
    }
    assert_eq!(RowAction::for_intent(Action::Accept), None);
    let answers: Vec<Option<Action>> =
        Answers::ALL.iter().map(|answers| answers.affirmative()).collect();
    assert_eq!(answers.iter().filter(|answer| answer.is_none()).count(), 1);
    assert_ne!(answers[0], answers[1]);
    assert_eq!(Fields::of(1), Fields::One);
    assert_eq!(Fields::of(3), Fields::Several);
    for shape in Shape::all() {
        assert_eq!(
            Form::text(shape),
            Form { fields: shape.fields, kind: FieldKind::text(shape.lines) }
        );
    }
    assert_eq!(Placement::ALL.len(), 2);
}

#[test]
fn a_session_ends_only_where_nothing_would_be_lost() {
    let mut app = browser();
    assert_eq!(app.apply(Action::Quit, NOW), Step::Quit);
    app.apply(Action::ToggleHelp, NOW);
    assert_eq!(app.apply(Action::Quit, NOW), Step::Quit);
    let mut app = editing(ticket(7, None));
    assert_eq!(app.apply(Action::Quit, NOW), Step::Stay);
    assert_eq!(app.flash_message(NOW), Some(NOT_AN_EDITING_ACTION));
    app.apply(Action::TakeClaim, NOW);
    assert_eq!(app.apply(Action::Quit, NOW), Step::Stay);
    assert_eq!(app.flash_message(NOW), Some(NOT_A_WAY_OUT_OF_A_BUFFER));
    app.clear_flash();
    app.apply(Action::Accept, NOW);
    assert_eq!(app.mode(), Mode::Dialog(Answers::Acknowledge));
    assert_eq!(app.apply(Action::Quit, NOW), Step::Stay);
    assert_eq!(app.flash_message(NOW), None);
    assert!(app.surface().is_some() && app.editing_target().is_some());
}

#[test]
fn unwinding_takes_one_layer_and_asks_where_there_is_typing() {
    let mut app = editing(ticket(7, None));
    app.apply(Action::TakeClaim, NOW);
    app.apply(Action::ToggleHelp, NOW);
    app.apply(Action::Unwind, NOW);
    assert!(app.modal().is_none() && app.surface().is_some());
    typed(&mut app, "me");
    app.apply(Action::Unwind, NOW);
    assert_eq!(dialog(&app).message(), "Discard changes to claim holder?");
    // Nothing but the listed answers does anything.
    for key in [Action::Overwrite, Action::Accept, Action::Insert('x'), Action::Unbound] {
        assert_eq!(app.apply(key, NOW), Step::Stay);
        assert!(app.modal().is_some());
    }
    app.apply(Action::Unwind, NOW);
    assert_eq!(app.surface().unwrap().fields()[0].text(), Some("me"));
    app.apply(Action::Unwind, NOW);
    app.apply(Action::Delete, NOW);
    assert!(app.modal().is_none() && app.surface().is_none());
    assert!(app.editing_target().is_some());
    app.apply(Action::Unwind, NOW);
    assert!(app.editing_target().is_none());
    app.apply(Action::Unwind, NOW);
    assert!(app.nav().at_roster());
    // An untouched surface goes at once.
    let mut app = editing(ticket(7, None));
    app.apply(Action::TakeClaim, NOW);
    app.apply(Action::Unwind, NOW);
    assert!(app.modal().is_none() && app.surface().is_none());
}

#[test]
fn a_frozen_row_and_a_hidden_cursor_do_not_move() {
    let motions = [
        Action::CursorDown,
        Action::CursorUp,
        Action::CursorFirst,
        Action::CursorLast,
        Action::WheelDown,
        Action::WheelUp,
        Action::Descend,
        Action::Ascend,
    ];
    let mut zoomed = browser();
    zoomed.apply(Action::CursorDown, NOW);
    zoomed.apply(Action::ToggleZoom, NOW);
    let mut frozen = browser();
    frozen.apply(Action::CursorDown, NOW);
    frozen.apply(Action::EnterEditing, NOW);
    for key in motions {
        assert_eq!(zoomed.apply(key, NOW), Step::Stay);
        assert_eq!(frozen.apply(key, NOW), Step::Stay);
        assert_eq!(zoomed.nav().cursor(), 1, "{key:?}");
        assert_eq!(frozen.nav().cursor(), 1, "{key:?}");
    }
    assert_eq!(zoomed.apply(Action::EnterEditing, NOW), Step::Stay);
    assert_eq!(zoomed.flash_message(NOW), Some(EDITING_NEEDS_THE_NAV_PANE));
    assert!(zoomed.zoomed() && zoomed.editing_target().is_none());
}

#[test]
fn a_store_that_may_not_be_written_offers_nothing() {
    for reason in ReadOnly::ALL {
        let mut app = App::new(vec![epic("alpha")], Some(reason), words());
        for key in [Action::EnterEditing, Action::CreateEpic] {
            app.clear_flash();
            assert_eq!(app.apply(key, NOW), Step::Stay);
            assert_eq!(app.flash_message(NOW), Some(reason.refusal(&words()).as_str()));
        }
        assert!(app.editing_target().is_none() && app.surface().is_none());
        assert!(RowAction::all().iter().all(|action| !app.offers(*action)));
    }
}

#[test]
fn each_row_offers_its_own_letters_and_no_others() {
    let on = Container::Node(node(7));
    let comment = |kind| member(Selection::Comment(on.clone(), 3), kind);
    let offered = |row: Row| -> Vec<RowAction> {
        let app = editing(row);
        RowAction::all().into_iter().filter(|action| app.offers(*action)).collect()
    };
    assert_eq!(offered(ticket(7, Some("me"))).len(), 7);
    assert!(!offered(ticket(7, None)).contains(&RowAction::ReleaseClaim));
    assert!(!offered(ticket(7, Some("me"))).contains(&RowAction::Delete));
    assert!(!offered(epic("alpha")).contains(&RowAction::TakeClaim));
    for kind in [Collection::Labels, Collection::Comments, Collection::BlockedBy] {
        assert_eq!(offered(collection(kind, 1)), vec![RowAction::Add]);
    }
    assert_eq!(offered(collection(Collection::Assets, 1)), Vec::new());
    assert_eq!(offered(label("urgent")), vec![RowAction::Delete]);
    assert_eq!(
        offered(comment(RowKind::Comment { by_the_human: true })),
        vec![RowAction::Delete, RowAction::Edit(FreeForm::Body)]
    );
    for kind in [RowKind::Comment { by_the_human: false }, RowKind::Withdrawn] {
        assert_eq!(offered(comment(kind)), Vec::new());
    }
    let raw = Selection::UnremovableBlocker(on.clone(), "garbage".to_string());
    assert_eq!(offered(member(raw, RowKind::Unreadable)), Vec::new());
}

#[test]
fn an_assets_row_names_the_command_that_does_the_job() {
    let mut app = editing(collection(Collection::Assets, 0));
    let said = "loti ticket asset add alpha/7 --file <path> — assets are attached from the command line";
    assert_eq!(app.offer(RowAction::Add), Some(Offer::Signpost(said.to_string())));
    assert_eq!(app.apply(Action::Add, NOW), Step::Stay);
    assert_eq!(app.flash_message(NOW), Some(said));
}

#[test]
fn the_strip_lists_what_the_frozen_row_offers_in_the_tables_order() {
    let app = editing(label("urgent"));
    let table = vec![
        (RowAction::Add, "a add"),
        (RowAction::Delete, "d delete"),
        (RowAction::SetState, "s status"),
    ];
    assert_eq!(app.editing_hints(&table), vec!["d delete"]);
    let app = editing(ticket(7, None));
    assert_eq!(app.editing_hints(&table), vec!["a add", "s status"]);
}

#[test]
fn a_deletion_asks_before_it_writes() {
    let target = Selection::Label(Container::Node(node(7)), "urgent".to_string());
    let mut app = editing(label("urgent"));
    assert_eq!(app.apply(Action::Delete, NOW), Step::Stay);
    assert_eq!(dialog(&app).message(), "Remove label urgent?");
    assert_eq!(app.mode(), Mode::Dialog(Answers::Destructive));
    assert_eq!(
        app.apply(Action::Delete, NOW),
        Step::Commit {
            write: Write::RemoveLabel(target),
            done: "label urgent removed".to_string()
        }
    );
    assert!(app.modal().is_none() && app.editing_target().is_some());
}

#[test]
fn a_held_claim_is_given_up_at_once() {
    let mut app = editing(ticket(7, Some("agent:bot")));
    assert_eq!(
        app.apply(Action::ReleaseClaim, NOW),
        Step::Commit {
            write: Write::ReleaseClaim(Selection::Node(node(7))),
            done: "claim on alpha/7 released by agent:bot".to_string()
        }
    );
    let mut app = editing(ticket(7, None));
    assert_eq!(app.apply(Action::ReleaseClaim, NOW), Step::Stay);
    assert_eq!(app.flash_message(NOW), Some(NOT_AN_EDITING_ACTION));
}

#[test]
fn nothing_is_sent_from_a_form_with_an_empty_or_unusable_field() {
    let mut app = browser();
    assert_eq!(app.apply(Action::CreateEpic, NOW), Step::Stay);
    assert_eq!(app.apply(Action::Accept, NOW), Step::Stay);
    assert_eq!(dialog(&app).message(), "epic id is required.");
    app.apply(Action::Unwind, NOW);
    typed(&mut app, "a/b");
    app.apply(Action::Accept, NOW);
    assert_eq!(dialog(&app).message(), "name is required.");
    app.apply(Action::Unwind, NOW);
    assert_eq!(app.surface().unwrap().focus(), 1);
    typed(&mut app, "Name");
    app.apply(Action::Accept, NOW);
    assert_eq!(dialog(&app).title(), REJECTED_TITLE);
    app.apply(Action::Unwind, NOW);
    assert_eq!(app.surface().unwrap().focus(), 0);
    for _ in 0..2 {
        app.apply(Action::DeleteBefore, NOW);
    }
    assert_eq!(
        app.apply(Action::Accept, NOW),
        Step::Commit {
            write: Write::CreateEpic {
                epic: Selection::Epic("a".to_string()),
                name: "Name".to_string(),
                summary: String::new()
            },
            done: "epic a created".to_string()
        }
    );
    let mut app = editing(ticket(7, None));
    app.apply(Action::Unwind, NOW);
    app.apply(Action::CreateEpic, NOW);
    assert_eq!(app.flash_message(NOW), Some(EPICS_ARE_MADE_FROM_THE_EPICS_LIST));
}

#[test]
fn a_typed_reference_is_read_before_the_write_that_names_it() {
    let list = Selection::Collection(Container::Node(node(7)), Collection::BlockedBy);
    let mut app = editing(collection(Collection::BlockedBy, 0));
    app.apply(Action::Add, NOW);
    typed(&mut app, " 9 ");
    assert_eq!(app.apply(Action::Accept, NOW), Step::ReadReference("9".to_string()));
    assert_eq!(
        app.reference_read(&Err("not a whole reference".to_string())),
        Step::Commit {
            write: Write::AddBlocker(list, " 9 ".to_string()),
            done: "blocker alpha/9 added".to_string()
        }
    );
    assert_eq!(browser().reference_read(&Err(String::new())), Step::Stay);
}

#[test]
fn a_buffer_opens_on_what_the_store_holds() {
    let mut app = editing(ticket(7, None));
    assert_eq!(
        app.apply(Action::Edit(FreeForm::Body), NOW),
        Step::Compose(Composed::Field(FreeForm::Body))
    );
    app.compose_field(FreeForm::Body, read("Name", "one\ntwo\n"));
    let surface = app.surface().unwrap();
    assert_eq!((surface.title(), surface.placement()), (" body of alpha/7 ", Placement::Pane));
    assert_eq!(surface.fields()[0].text(), Some("one\ntwo\n"));
    assert_eq!(surface.dirtied(), None);
    // A failed read leaves the mode standing under a report.
    let mut app = editing(ticket(7, None));
    assert_eq!(app.apply(Action::SetState, NOW), Step::Compose(Composed::State));
    app.compose_state(Err("ticket alpha/7 does not exist".to_string()));
    assert_eq!(dialog(&app).title(), UNREADABLE_TITLE);
    assert_eq!(dialog(&app).message(), "ticket alpha/7 does not exist");
    assert!(app.surface().is_none() && app.editing_target().is_some());
    app.apply(Action::Unwind, NOW);
    app.compose_state(Ok(StateReading::Node { status: NodeState::Closed, resolved: vec![false] }));
    assert_eq!(labels(app.surface().unwrap()).len(), 3);
    // Nothing is opened for a mode that is no longer on.
    let mut app = browser();
    app.compose_field(FreeForm::Name, read("Name", ""));
    app.compose_comment(Err(String::new()));
    assert!(app.surface().is_none() && app.modal().is_none());
}

#[test]
fn a_comment_the_human_wrote_is_rewritten_from_its_own_text() {
    let selection = Selection::Comment(Container::Node(node(7)), 3);
    let mut app = editing(member(selection.clone(), RowKind::Comment { by_the_human: true }));
    assert_eq!(
        app.apply(Action::Edit(FreeForm::Body), NOW),
        Step::Compose(Composed::CommentText)
    );
    app.compose_comment(Ok(CommentsReading {
        comments: vec![HeldComment { id: 3, deleted: false, text: "said".to_string() }],
        updated: Moment::at(9).unwrap(),
    }));
    typed(&mut app, "I ");
    match app.apply(Action::Accept, NOW) {
        Step::Commit { write: Write::Replace { target, field, value, expect }, done } => {
            assert_eq!((target, field), (selection, Replaceable::CommentText));
            assert_eq!(value, "I said");
            assert!(expect.is_some());
            assert_eq!(done, "text of alpha/7 comment 3 saved");
        }
        other => panic!("{other:?}"),
    }
}

/// A browser with a name typed over, and the write accepting it asks for.
fn renaming() -> (App, Write, String) {
    let mut app = editing(ticket(7, None));
    app.apply(Action::Edit(FreeForm::Name), NOW);
    app.compose_field(FreeForm::Name, read("Name", ""));
    typed(&mut app, "New ");
    match app.apply(Action::Accept, NOW) {
        Step::Commit { write, done } => (app, write, done),
        other => panic!("{other:?}"),
    }
}

#[test]
fn a_committed_write_ends_the_session_with_a_notice() {
    let (mut app, write, done) = renaming();
    let listings = vec![None, Some(vec![ticket(7, None), ticket(8, None)])];
    app.committed(&write, done, Ok(Effect::AsAsked), &listings, None, NOW);
    assert_eq!(app.flash_message(NOW), Some("name of alpha/7 saved"));
    assert!(app.surface().is_none() && app.editing_target().is_none());
    assert_eq!(app.nav().rows().len(), 2);
    assert!(app.take_redraw_request());
}

#[test]
fn a_conflict_is_overwritten_or_gone_back_from() {
    let (mut app, write, done) = renaming();
    app.committed(&write, done.clone(), Err(Refusal::Conflict), &Vec::new(), None, NOW);
    assert_eq!(dialog(&app).title(), CONFLICT_TITLE);
    assert_eq!(app.apply(Action::Delete, NOW), Step::Stay);
    assert_eq!(
        app.apply(Action::Overwrite, NOW),
        Step::Commit { write: write.overwriting(), done: done.clone() }
    );
    assert!(app.surface().is_some());
    app.committed(&write, done, Err(Refusal::Conflict), &Vec::new(), None, NOW);
    assert_eq!(app.apply(Action::Unwind, NOW), Step::Stay);
    assert_eq!(app.surface().unwrap().fields()[0].text(), Some("New Name"));
}

#[test]
fn a_refused_write_keeps_the_buffer_and_asks_again_whether_it_may_write() {
    let (mut app, write, done) = renaming();
    let verdict = Some(ReadOnly::MigrationInProgress);
    app.committed(&write, done, Err(Refusal::Rule("no".to_string())), &Vec::new(), verdict, NOW);
    assert_eq!((dialog(&app).title(), dialog(&app).message()), (REFUSAL_TITLE, "no"));
    assert_eq!(app.read_only(), verdict);
    assert!(app.surface().is_some() && app.editing_target().is_some());
}

#[test]
fn a_reload_ends_a_mode_whose_row_or_store_is_gone() {
    let mut app = editing(ticket(7, None));
    assert_eq!(app.apply(Action::Reload, NOW), Step::Reload);
    app.reloaded(&vec![None, Some(vec![ticket(8, None), ticket(7, None)])], None, NOW);
    assert!(app.editing_target().is_some());
    assert_eq!(app.nav().cursor(), 1);
    app.reloaded(&vec![None, Some(vec![ticket(8, None)])], None, NOW);
    assert_eq!(app.flash_message(NOW), Some(THE_ROW_IS_GONE));
    assert!(app.editing_target().is_none());
    let mut app = editing(ticket(7, None));
    app.reloaded(&vec![None, Some(Vec::new())], Some(ReadOnly::NeedsMigration), NOW);
    assert_eq!(app.flash_message(NOW), Some(EDITING_STOPPED_READ_ONLY));
    assert!(app.editing_target().is_none());
}

#[test]
fn where_nothing_happens_the_browser_says_why() {
    let mut app = App::new(Vec::new(), None, words());
    app.apply(Action::EnterEditing, NOW);
    assert_eq!(app.flash_message(NOW), Some(NOTHING_TO_EDIT));
    app.apply(Action::Descend, NOW);
    assert_eq!(app.flash_message(NOW), Some(NOTHING_TO_OPEN));
    let mut app = browser();
    app.take_redraw_request();
    for key in [Action::Unbound, Action::Accept, Action::Insert('x'), Action::Add] {
        assert_eq!(app.apply(key, NOW), Step::Stay);
    }
    assert_eq!(app.flash_message(NOW), None);
    assert!(!app.take_redraw_request());
}

#[test]
fn a_notice_is_up_for_its_lifetime_and_no_longer() {
    let mut app = browser();
    app.take_redraw_request();
    app.flash("first", NOW);
    app.flash("second", NOW + 1);
    assert!(app.take_redraw_request());
    let end = NOW + 1 + FLASH_LIFETIME;
    assert_eq!(app.flash_message(end - 1), Some("second"));
    app.expire_flash(end - 1);
    assert!(!app.take_redraw_request());
    assert_eq!(app.flash_message(end), None);
    app.expire_flash(end);
    assert!(app.take_redraw_request());
    assert_eq!(app.flash_message(NOW), None);
    app.flash("late", u64::MAX);
    assert_eq!(app.flash_message(u64::MAX), Some("late"));
}

#[test]
fn the_divider_is_grabbed_beside_itself_and_clamped() {
    let mut app = browser();
    assert!(!app.press(30));
    app.set_divider_column(Some(30));
    for (column, grabbed) in [(28, false), (29, true), (30, true), (31, true), (32, false)] {
        assert_eq!(app.press(column), grabbed, "{column}");
    }
    app.drag(50, 100);
    assert_eq!(app.nav_percent(), DEFAULT_NAV_PERCENT);
    assert!(app.press(30));
    app.drag(50, 0);
    assert_eq!(app.nav_percent(), DEFAULT_NAV_PERCENT);
    app.drag(33, 120);
    assert_eq!(app.nav_percent(), 27);
    app.drag(0, 100);
    assert_eq!(app.nav_percent(), MIN_NAV_PERCENT);
    app.drag(100, 100);
    assert_eq!(app.nav_percent(), MAX_NAV_PERCENT);
    // A pointer far to the right of a narrow pane is still only at the limit.
    for column in [656, 660, 1_311, u16::MAX] {
        app.drag(33, 120);
        assert_eq!(app.nav_percent(), 27);
        app.drag(column, 1);
        assert_eq!(app.nav_percent(), MAX_NAV_PERCENT, "{column}");
    }
    app.release();
    app.drag(33, 120);
    assert_eq!(app.nav_percent(), MAX_NAV_PERCENT);
    app.apply(Action::ResetSplit, NOW);
    app.apply(Action::GrowNav, NOW);
    assert_eq!(app.nav_percent(), DEFAULT_NAV_PERCENT + 5);
    app.apply(Action::ShrinkNav, NOW);
    app.apply(Action::ShrinkNav, NOW);
    assert_eq!(app.nav_percent(), DEFAULT_NAV_PERCENT - 5);
    app.set_divider_column(Some(u16::MAX));
    assert!(app.press(u16::MAX));
    app.store_unreadable("gone".to_string());
    assert!(!app.press(u16::MAX));
}

#[test]
fn an_external_editor_takes_a_field_and_gives_it_back() {
    let mut app = editing(ticket(7, None));
    app.apply(Action::Edit(FreeForm::Name), NOW);
    app.compose_field(FreeForm::Name, read("Name", ""));
    app.apply(Action::ExternalEditor, NOW);
    assert_eq!(app.take_editor_handoff(), Some("Name".to_string()));
    assert_eq!(app.take_editor_handoff(), None);
    app.editor_returned("Another\nname\n");
    let surface = app.surface().unwrap();
    assert_eq!(surface.fields()[0].text(), Some("Anothername"));
    assert_eq!(surface.dirtied(), Some(0));
    app.editor_failed("no such editor".to_string());
    assert_eq!((dialog(&app).title(), dialog(&app).message()), (EDITOR_TITLE, "no such editor"));
    app.apply(Action::Unwind, NOW);
    assert!(app.surface().is_some());
    // A picker has nothing to hand over.
    let mut app = editing(ticket(7, None));
    app.apply(Action::SetState, NOW);
    app.compose_state(Ok(StateReading::Node { status: NodeState::ToDo, resolved: Vec::new() }));
    app.apply(Action::ExternalEditor, NOW);
    assert_eq!(app.take_editor_handoff(), None);
}

/// What the pane shows, drawn without a terminal.
fn drawn(app: &mut App, width: u16, height: u16) -> Vec<String> {
    let mut terminal = Terminal::new(TestBackend::new(width, height)).unwrap();
    terminal
        .draw(|frame| {
            let area = frame.area();
            app.preview_viewer().render(frame, area, &ThemeConfig::default());
        })
        .unwrap();
    let buffer = terminal.backend().buffer();
    (1..height - 1)
        .map(|y| {
            let line: String = (2..width - 2).map(|x| buffer[(x, y)].symbol()).collect();
            line.trim().to_string()
        })
        .collect()
}

/// A browser previewing a document of many paragraphs, in a pane six lines tall.
fn reading() -> App {
    let mut app = browser();
    let wanted = app.sync_preview(24);
    assert_eq!(wanted, Some(Some(Selection::Epic("alpha".to_string()))));
    let text: String = (0..40).map(|n| format!("paragraph {n}\n\n")).collect();
    app.preview_viewer().set_content(&text, &ThemeConfig::default());
    assert_eq!(drawn(&mut app, 24, 8)[0], "paragraph 0");
    app
}

#[test]
fn the_scrolling_keys_move_the_reader_by_what_they_promise() {
    let mut app = reading();
    let mut page: Vec<String> = drawn(&mut app, 24, 8);
    let mut scroll = |app: &mut App, key: Action| -> Vec<String> {
        assert_eq!(app.apply(key, NOW), Step::Stay);
        page = drawn(app, 24, 8);
        page.clone()
    };
    // The pane is drawn with six lines, so a page is six.
    let first = scroll(&mut app, Action::PreviewTop);
    let second = scroll(&mut app, Action::PreviewPageDown);
    assert_ne!(first, second);
    app.apply(Action::ToggleZoom, NOW);
    scroll(&mut app, Action::PreviewTop);
    for _ in 0..6 {
        scroll(&mut app, Action::CursorDown);
    }
    assert_eq!(scroll(&mut app, Action::Unbound), second);
    for _ in 0..6 {
        scroll(&mut app, Action::WheelUp);
    }
    assert_eq!(scroll(&mut app, Action::Unbound), first);
    // Half a screen is half of the width it was last drawn for: twelve lines.
    let half = scroll(&mut app, Action::PreviewHalfDown);
    scroll(&mut app, Action::CursorFirst);
    scroll(&mut app, Action::PreviewPageDown);
    assert_eq!(scroll(&mut app, Action::PreviewPageDown), half);
    assert_eq!(scroll(&mut app, Action::PreviewHalfUp), first);
    assert_eq!(scroll(&mut app, Action::CursorUp), first);
    // The end is the last line on the last row, whichever key gets there.
    let last = scroll(&mut app, Action::PreviewBottom);
    assert!(last.iter().any(|line| line == "paragraph 39"), "{last:?}");
    assert_eq!(scroll(&mut app, Action::WheelDown), last);
    assert_eq!(scroll(&mut app, Action::CursorLast), last);
    scroll(&mut app, Action::PreviewPageUp);
    assert_ne!(scroll(&mut app, Action::Unbound), last);
    assert_eq!(scroll(&mut app, Action::PreviewPageDown), last);
}

#[test]
fn the_preview_is_loaded_when_the_document_or_the_width_changes_and_not_before() {
    let mut app = reading();
    assert_eq!(app.preview_title(), "alpha");
    app.apply(Action::PreviewPageDown, NOW);
    let page = drawn(&mut app, 24, 8);
    assert_eq!(app.sync_preview(24), None);
    assert_eq!(drawn(&mut app, 24, 8), page);
    // Another document starts at its top.
    app.apply(Action::CursorDown, NOW);
    let wanted = app.sync_preview(24);
    assert_eq!(wanted, Some(Some(Selection::Epic("beta".to_string()))));
    assert_eq!(app.preview_title(), "beta");
    assert_eq!(drawn(&mut app, 24, 8)[0], "paragraph 0");
    assert_eq!(app.sync_preview(24), None);
    // Another width is another pane, with nothing in it until it is loaded.
    let wanted = app.sync_preview(0);
    assert_eq!(wanted, Some(Some(Selection::Epic("beta".to_string()))));
    assert_eq!(drawn(&mut app, 24, 8)[0], "");
    let mut app = App::new(Vec::new(), None, words());
    assert_eq!(app.sync_preview(24), Some(None));
    assert_eq!(app.preview_title(), "");
    assert_eq!(no_epics(), "# no epics\n\n> This store has no epics yet.\n");
    assert_eq!(unavailable("gone"), "# unavailable\n\n> gone\n");
}

#[test]
fn rows_that_share_a_document_do_not_move_the_reader() {
    let mut app = browser();
    app.apply(Action::Descend, NOW);
    app.descended(vec![
        collection(Collection::Labels, 1),
        collection(Collection::Comments, 0),
        ticket(7, None),
    ]);
    assert!(app.sync_preview(24).is_some());
    for _ in 0..2 {
        app.apply(Action::CursorDown, NOW);
        assert_eq!(app.sync_preview(24), None);
    }
    assert_eq!(app.preview_title(), "alpha/7");
}

#[test]
fn the_key_list_is_a_layer_that_only_covers() {
    let mut app = editing(ticket(7, None));
    app.apply(Action::TakeClaim, NOW);
    typed(&mut app, "me");
    app.apply(Action::ToggleHelp, NOW);
    for key in [Action::Insert('x'), Action::Accept, Action::CursorDown, Action::Delete] {
        assert_eq!(app.apply(key, NOW), Step::Stay);
        assert_eq!(app.modal(), Some(&Modal::Help));
    }
    app.apply(Action::Ascend, NOW);
    assert!(app.modal().is_none());
    assert_eq!(app.surface().unwrap().fields()[0].text(), Some("me"));
}

#[test]
fn the_wheel_moves_the_cursor_as_its_key_does() {
    let mut keyed = browser();
    let mut wheeled = browser();
    for (key, wheel) in [
        (Action::CursorDown, Action::WheelDown),
        (Action::CursorDown, Action::WheelDown),
        (Action::CursorUp, Action::WheelUp),
    ] {
        keyed.apply(key, NOW);
        wheeled.apply(wheel, NOW);
        assert_eq!(keyed.nav(), wheeled.nav());
    }
    assert_eq!(wheeled.nav().cursor(), 1);
}

#[test]
fn a_cascade_that_stopped_part_of_the_way_is_reread_under_its_dialog() {
    let (mut app, write, done) = renaming();
    let listings = vec![None, Some(vec![ticket(7, None), ticket(8, None)])];
    let refusal = Refusal::Partial("stopped at alpha/8".to_string());
    app.committed(&write, done, Err(refusal), &listings, None, NOW);
    assert_eq!(dialog(&app).message(), "stopped at alpha/8");
    assert_eq!(app.nav().rows().len(), 2);
    assert!(app.surface().is_some() && app.editing_target().is_some());
    // Re-read from a store that may no longer be written, it ends the mode.
    let (mut app, write, done) = renaming();
    let refusal = Refusal::Partial("stopped at alpha/8".to_string());
    app.committed(&write, done, Err(refusal), &listings, Some(ReadOnly::NeedsMigration), NOW);
    assert!(app.surface().is_some() && app.editing_target().is_none());
}

#[test]
fn an_editor_that_hands_back_what_it_was_given_changes_no_text() {
    let mut field = Field::filled("body", false, Lines::Many, "one\ntwo\n");
    let given = field.text().unwrap().to_string();
    field.replace(&given);
    assert_eq!(held(&field), (given, 8));
    assert!(field.is_dirty());
}

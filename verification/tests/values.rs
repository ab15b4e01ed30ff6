//! The plain values underneath the browser: text, instants, sizes, references,
//! documents and the writes a store is asked for.
use jiff::Timestamp;
use loti_tui::data::{
    agent_picker, as_text, asset_document, blocker_name, child_rows, collection_rows,
    comment_document, comment_target, edit_target, entity_of, human_size, member_rows,
    misdirected, perform, performed, prepare_agent_launch, preview, read_only, refusal,
    resolve_blocker, roster_rows, rows, state_target, AgentChoice, AssetEntry, AssetReading, Author,
    BlockerReading, BlockingNode, ChildReading, Collection, CollectionCounts, CommentView,
    CommentsReading, Container, Document, Edits, Effect, EntityReading, FreeForm, GateWords,
    HeldComment, LaunchTarget, Level, Listing, Members, NodeRef, NodeState, NodeStatusChange,
    Operation, Origin, Outcome, ReadOnly, Refusal, Replaceable, Resolution, ResourceReading,
    RosterEntry, Row, RowKind, Selection, Stamp, State, StateReading, StoreFailure, VersionRefusal,
    Write,
};
use loti_tui::moment::{age, Moment, EARLIEST, LATEST};
use loti_tui::text::{
    blank, chars_of, count_text, holds, joined, joined3, number_text, parse_number, push_block,
    same_text, string_of, trim,
};

fn epic() -> Container {
    Container::Epic("alpha".to_string())
}

fn node() -> NodeRef {
    NodeRef::new("alpha", 7)
}

fn ticket() -> Container {
    Container::Node(node())
}

fn at(seconds: i64) -> Moment {
    Moment::at(i128::from(seconds) * 1_000_000_000).unwrap()
}

/// One selection of every kind, each on a ticket where it hangs off something.
fn every_selection() -> Vec<Selection> {
    vec![
        Selection::Epic("alpha".to_string()),
        Selection::Node(node()),
        Selection::Collection(ticket(), Collection::Labels),
        Selection::Collection(ticket(), Collection::Comments),
        Selection::Collection(ticket(), Collection::BlockedBy),
        Selection::Collection(ticket(), Collection::Assets),
        Selection::Label(ticket(), "urgent".to_string()),
        Selection::Comment(ticket(), 3),
        Selection::Asset(ticket(), "plan.txt".to_string()),
        Selection::Blocker(ticket(), NodeRef::new("beta", 2)),
        Selection::UnremovableBlocker(ticket(), "not a reference".to_string()),
    ]
}

fn stamp(updated: Moment) -> Stamp {
    let reading = EntityReading {
        name: "Alpha".to_string(),
        summary: String::new(),
        body: String::new(),
        updated,
    };
    edit_target(&Selection::Epic("alpha".to_string()), Ok(reading)).unwrap().stamp
}

fn unread() -> Result<NodeRef, String> {
    Err("invalid reference".to_string())
}

#[test]
fn text_is_put_together_and_taken_apart_by_characters() {
    assert_eq!(chars_of("a·c"), vec!['a', '·', 'c']);
    assert_eq!(string_of(&vec!['a', '·', 'c', 'd'], 1, 3), "·c");
    assert_eq!(string_of(&vec!['a'], 1, 1), "");
    assert_eq!(joined("a", "·"), "a·");
    assert_eq!(joined3("a", "/", "7"), "a/7");
    assert!(same_text("né", "né"));
    assert!(!same_text("ne", "né"));
    assert!(holds("a/b", '/'));
    assert!(!holds("ab", '/'));
}

#[test]
fn a_block_is_closed_by_one_line_break() {
    let mut doc = "head\n".to_string();
    push_block(&mut doc, "line");
    push_block(&mut doc, "closed\n");
    push_block(&mut doc, "");
    assert_eq!(doc, "head\nline\nclosed\n\n");
}

#[test]
fn numbers_are_written_in_decimal_and_read_back() {
    for n in [0, 1, 9, 10, 11, 99, 100, 65_535, 1_000_000, u64::MAX - 1, u64::MAX] {
        assert_eq!(number_text(n), n.to_string());
        assert_eq!(parse_number(&number_text(n)), Some(n));
    }
    assert_eq!(count_text(1048), "1048");
}

#[test]
fn a_numeral_is_read_as_the_standard_library_reads_one() {
    for text in [
        "", "+", "-", "0", "-0", "+0", "7", "+7", "++7", "007", "7 ", " 7", "7a", "0x7", "1_000",
        "18446744073709551615", "18446744073709551616", "+18446744073709551615",
        "99999999999999999999999999", "٣", "−1", "1.0",
    ] {
        assert_eq!(parse_number(text), text.parse::<u64>().ok(), "{text:?}");
    }
}

#[test]
fn blanks_are_exactly_what_the_standard_library_calls_white_space() {
    for c in '\0'..=char::MAX {
        assert_eq!(blank(c.encode_utf8(&mut [0; 4])), c.is_whitespace(), "{c:?}");
    }
    assert!(blank(""));
    assert!(!blank(" \t."));
}

#[test]
fn trimming_drops_what_surrounds_a_token_and_nothing_inside_it() {
    for text in ["", " ", "a", " a ", "\u{a0}a b\u{3000}\n", "\ta\u{2028}", "a \u{200b}", "  \r\n "] {
        assert_eq!(trim(text), text.trim(), "{text:?}");
        assert_eq!(blank(text), trim(text).is_empty(), "{text:?}");
    }
}

#[test]
fn an_instant_is_named_exactly_where_a_timestamp_is() {
    for nanos in [EARLIEST - 1, EARLIEST, -1, 0, 1, LATEST, LATEST + 1, i128::MAX, i128::MIN] {
        let named = Timestamp::from_nanosecond(nanos).ok();
        let moment = Moment::at(nanos);
        assert_eq!(moment.is_some(), named.is_some(), "{nanos}");
        if let (Some(moment), Some(named)) = (moment, named) {
            assert_eq!(moment.as_nanosecond(), named.as_nanosecond());
            assert_eq!(moment.shown(), named.to_string());
        }
    }
}

#[test]
fn an_instant_is_shown_to_the_nanosecond() {
    assert_eq!(Moment::at(1).unwrap().shown(), "1970-01-01T00:00:00.000000001Z");
}

#[test]
fn an_age_is_counted_in_the_largest_unit_it_has_reached() {
    let now = at(10_000_000);
    for (gone, shown) in [
        (0, "just now"),
        (59, "just now"),
        (60, "1m ago"),
        (119, "1m ago"),
        (3_599, "59m ago"),
        (3_600, "1h ago"),
        (86_399, "23h ago"),
        (86_400, "1d ago"),
        (604_799, "6d ago"),
        (604_800, "1w ago"),
        (6_048_000, "10w ago"),
        (-3_600, "just now"),
    ] {
        assert_eq!(age(at(10_000_000 - gone), now), shown, "{gone}");
    }
}

#[test]
fn an_age_is_rounded_down_to_the_nanosecond() {
    let nanos = |nanos: i128| Moment::at(nanos).unwrap();
    let hour = 3_600_000_000_000;
    // Four hours by whole seconds, and half a second short of them.
    assert_eq!(age(nanos(900_000_000), nanos(4 * hour + 400_000_000)), "3h ago");
    assert_eq!(age(nanos(900_000_000), nanos(4 * hour + 900_000_000)), "4h ago");
    assert_eq!(age(nanos(1), nanos(4 * hour)), "3h ago");
    assert_eq!(age(nanos(-1), nanos(4 * hour - 1)), "4h ago");
    assert_eq!(age(nanos(-500_000_000), nanos(59_499_999_999)), "just now");
    assert_eq!(age(nanos(-500_000_000), nanos(59_500_000_000)), "1m ago");
    assert_eq!(age(nanos(EARLIEST), nanos(LATEST)), "1043497w ago");
}

#[test]
fn a_size_reads_as_its_double_is_formatted() {
    let sizes: Vec<u64> = (0..64)
        .flat_map(|shift| {
            let power = 1u64 << shift;
            [power.wrapping_sub(1), power, power.wrapping_add(1), power.wrapping_mul(3), power.wrapping_mul(5)]
        })
        .chain((0..3_000).map(|n| n * 51))
        .chain([1_100, 1_280, 1_126, 1_177, 104_857, 1_153_434, 1_205_862, u64::MAX])
        .chain([9_007_199_254_740_993, 9_007_199_254_740_995, 36_028_797_018_963_970])
        .collect();
    for bytes in sizes {
        let size = bytes as f64;
        let shown = if size < 1024.0 {
            format!("{bytes} B")
        } else if size < 1024.0 * 1024.0 {
            format!("{:.1} KiB", size / 1024.0)
        } else {
            format!("{:.1} MiB", size / (1024.0 * 1024.0))
        };
        assert_eq!(human_size(bytes), shown, "{bytes}");
    }
    assert_eq!(human_size(1536), "1.5 KiB");
}

#[test]
fn bytes_are_text_exactly_where_every_character_can_be_shown() {
    for c in '\0'..=char::MAX {
        let text = c.to_string();
        let shown = !c.is_control() || c == '\t' || c == '\n' || c == '\r';
        assert_eq!(as_text(&text.clone().into_bytes()), shown.then_some(text), "{c:?}");
    }
    assert_eq!(as_text(&vec![0xff, 0xfe]), None);
    assert_eq!(as_text(&vec![0xe2, 0x82]), None);
    assert_eq!(as_text(&Vec::new()), Some(String::new()));
    assert_eq!(as_text(&"né\n".as_bytes().to_vec()), Some("né\n".to_string()));
}

#[test]
fn every_row_is_named_for_the_document_it_shows() {
    let named: Vec<String> = every_selection().iter().map(Selection::reference).collect();
    assert_eq!(
        named,
        vec![
            "alpha",
            "alpha/7",
            "alpha/7",
            "alpha/7",
            "alpha/7",
            "alpha/7",
            "alpha/7",
            "alpha/7 comment 3",
            "alpha/7 asset plan.txt",
            "beta/2",
            "alpha/7",
        ]
    );
    for selection in every_selection() {
        assert_eq!(selection.reference(), selection.document().reference());
        assert_eq!(selection.document().document(), selection.document());
        assert_eq!(preview(&selection), preview(&selection.document()));
    }
}

#[test]
fn a_level_is_opened_by_the_selection_it_calls_its_own() {
    let levels: Vec<Option<Level>> = every_selection().iter().map(Selection::level).collect();
    assert_eq!(levels[0], Some(Level::Epic("alpha".to_string())));
    assert_eq!(levels[1], Some(Level::Node(node())));
    assert_eq!(levels[2], Some(Level::Collection(ticket(), Collection::Labels)));
    assert!(levels[6..].iter().all(Option::is_none));
    for (level, selection) in levels.into_iter().zip(every_selection()) {
        if let Some(level) = level {
            assert_eq!(level.selection(), Some(selection));
        }
    }
    assert_eq!(Level::Epics.selection(), None);
}

#[test]
fn two_selections_are_one_exactly_where_every_part_of_them_is() {
    let all = every_selection();
    for (i, a) in all.iter().enumerate() {
        for (j, b) in all.iter().enumerate() {
            assert_eq!(a.same(b), i == j, "{a:?} {b:?}");
        }
    }
    assert!(!Selection::Label(epic(), "a".to_string()).same(&Selection::Label(ticket(), "a".to_string())));
    assert!(!epic().same(&ticket()));
    assert!(!node().same(&NodeRef::new("beta", 7)));
    assert!(!node().same(&NodeRef::new("alpha", 8)));
}

#[test]
fn a_container_names_itself_its_command_and_its_collections() {
    assert_eq!(epic().cli_noun(), "epic");
    assert_eq!(ticket().cli_noun(), "ticket");
    assert_eq!(epic().reference(), "alpha");
    assert_eq!(ticket().reference(), "alpha/7");
    assert_eq!(ticket().selection(), Selection::Node(node()));
    assert!(!epic().collections().contains(&Collection::BlockedBy));
    let names: Vec<&str> = ticket().collections().iter().map(|kind| kind.name()).collect();
    assert_eq!(names, vec!["labels", "comments", "blocked-by", "assets"]);
}

#[test]
fn each_field_is_read_from_and_written_to_its_own_slot() {
    let reading = EntityReading {
        name: "Name".to_string(),
        summary: "Summary".to_string(),
        body: "Body".to_string(),
        updated: at(5),
    };
    let target = edit_target(&Selection::Node(node()), Ok(reading)).unwrap();
    let held: Vec<&str> = FreeForm::ALL.iter().map(|field| field.of(&target)).collect();
    assert_eq!(held, vec!["Name", "Summary", "Body"]);
    let nouns: Vec<&str> = Replaceable::all().iter().map(|field| field.noun()).collect();
    assert_eq!(nouns, vec!["name", "summary", "body", "text"]);
    assert_eq!(
        FreeForm::Summary.edits("new"),
        Edits { name: None, summary: Some("new".to_string()), body: None }
    );
}

#[test]
fn only_an_entity_is_read_for_its_fields_and_its_state() {
    for selection in every_selection() {
        let fields = edit_target(
            &selection,
            Ok(EntityReading {
                name: String::new(),
                summary: String::new(),
                body: String::new(),
                updated: at(0),
            }),
        );
        let state = match entity_of(&selection) {
            Some(Container::Epic(_)) => StateReading::Epic { closed: true },
            _ => StateReading::Node { status: NodeState::Blocked, resolved: vec![true, false, false] },
        };
        let state = state_target(&selection, Ok(state));
        match entity_of(&selection) {
            Some(entity) => {
                assert_eq!(entity.selection(), selection);
                assert_eq!(fields.unwrap().selection, selection);
                assert_eq!(state.unwrap().selection, selection);
            }
            None => {
                let reference = selection.reference();
                assert_eq!(
                    fields.unwrap_err(),
                    format!("{reference} has no name, summary or body of its own")
                );
                assert_eq!(state.unwrap_err(), format!("{reference} has no state of its own"));
            }
        }
    }
}

#[test]
fn a_read_that_failed_is_reported_in_its_own_words() {
    let gone = || "ticket alpha/7 does not exist".to_string();
    let selection = Selection::Node(node());
    assert_eq!(edit_target(&selection, Err(gone())).unwrap_err(), gone());
    assert_eq!(state_target(&selection, Err(gone())).unwrap_err(), gone());
    let comment = Selection::Comment(ticket(), 3);
    assert_eq!(comment_target(&comment, Err(gone())).unwrap_err(), gone());
    // A reading of the other kind of entity is no reading of this row's state.
    assert_eq!(
        state_target(&selection, Ok(StateReading::Epic { closed: false })).unwrap_err(),
        "alpha/7 has no state of its own"
    );
}

#[test]
fn a_state_picker_offers_its_own_kinds_states_and_counts_what_is_open() {
    let epic = Selection::Epic("alpha".to_string());
    let open = state_target(&epic, Ok(StateReading::Epic { closed: false })).unwrap();
    assert_eq!(open.offered, vec![State::EpicOpen, State::EpicClosed]);
    assert_eq!((open.current, open.open_descendants), (State::EpicOpen, 0));
    let reading = StateReading::Node {
        status: NodeState::InProgress,
        resolved: vec![false, true, false, false, true],
    };
    let work = state_target(&Selection::Node(node()), Ok(reading)).unwrap();
    let words: Vec<&str> = work.offered.iter().map(|state| state.wire_name()).collect();
    assert_eq!(words, vec!["to-do", "in-progress", "blocked", "done", "closed"]);
    assert_eq!(work.current, State::Work(NodeState::InProgress));
    assert_eq!(work.open_descendants, 3);
    for state in work.offered.iter().chain(&open.offered) {
        assert_eq!(
            state.needs_reason(),
            matches!(
                state,
                State::Work(NodeState::Blocked | NodeState::Closed) | State::EpicClosed
            )
        );
        assert_eq!(state.cascades(), *state == State::Work(NodeState::Closed));
    }
}

#[test]
fn a_comment_is_read_for_editing_only_while_it_stands() {
    let held = |id, deleted, text: &str| HeldComment { id, deleted, text: text.to_string() };
    let reading = || {
        Ok(CommentsReading {
            comments: vec![held(1, false, "one"), held(3, true, "gone"), held(3, false, "three\n")],
            updated: at(9),
        })
    };
    let target = comment_target(&Selection::Comment(ticket(), 3), reading()).unwrap();
    assert_eq!(target.text, "three\n");
    assert_eq!(target.stamp, stamp(at(9)));
    assert_eq!(
        comment_target(&Selection::Comment(ticket(), 2), reading()).unwrap_err(),
        "alpha/7 comment 2 has no text to edit"
    );
    assert_eq!(
        comment_target(&Selection::Label(ticket(), "urgent".to_string()), reading()).unwrap_err(),
        "alpha/7 is not a comment"
    );
}

#[test]
fn a_stamp_is_its_instant_and_reaches_the_store_as_it() {
    assert_eq!(stamp(at(4)), stamp(at(4)));
    assert_ne!(stamp(at(4)), stamp(at(5)));
    let write = Write::Replace {
        target: Selection::Node(node()),
        field: Replaceable::Field(FreeForm::Name),
        value: "Renamed".to_string(),
        expect: Some(stamp(at(4))),
    };
    let edits = || FreeForm::Name.edits("Renamed");
    assert_eq!(
        perform(&write, &unread()).unwrap(),
        Operation::EditNode { node: node(), edits: edits(), expect: Some(at(4)) }
    );
    assert_eq!(
        perform(&write.overwriting(), &unread()).unwrap(),
        Operation::EditNode { node: node(), edits: edits(), expect: None }
    );
    assert_eq!(write.overwriting().target(), write.target());
    assert_eq!(write.overwriting().overwriting(), write.overwriting());
    let label = Write::RemoveLabel(Selection::Label(epic(), "urgent".to_string()));
    assert_eq!(label.overwriting(), label);
}

/// Every write, each aimed at the selection it is given.
fn every_write(target: &Selection) -> Vec<Write> {
    let value = || "value".to_string();
    let mut writes = vec![
        Write::CreateEpic { epic: target.clone(), name: value(), summary: value() },
        Write::CreateNode { parent: target.clone(), name: value(), summary: value() },
        Write::AddLabel(target.clone(), value()),
        Write::RemoveLabel(target.clone()),
        Write::AddBlocker(target.clone(), "9".to_string()),
        Write::RemoveBlocker(target.clone()),
        Write::DeleteAsset(target.clone()),
        Write::AddComment(target.clone(), value()),
        Write::DeleteComment(target.clone()),
        Write::TakeClaim(target.clone(), value()),
        Write::ReleaseClaim(target.clone()),
    ];
    for state in [State::Work(NodeState::Done), State::EpicClosed] {
        writes.push(Write::SetState {
            target: target.clone(),
            state,
            reason: value(),
            cascade: false,
        });
    }
    for field in Replaceable::all() {
        writes.push(Write::Replace { target: target.clone(), field, value: value(), expect: None });
    }
    writes
}

#[test]
fn a_write_aimed_at_the_wrong_row_is_refused_by_name() {
    let refused = |selection: &Selection| -> Vec<Option<String>> {
        every_write(selection)
            .iter()
            .map(|write| match perform(write, &unread()) {
                Ok(_) => None,
                Err(Refusal::Rule(words)) => Some(words),
                Err(other) => panic!("{other:?}"),
            })
            .collect()
    };
    let asset = Selection::Asset(epic(), "plan.txt".to_string());
    let reasons = [
        " is not an epic id",
        " holds no tickets",
        " is not a label set",
        " is not a label",
        " is not a dependency list",
        " is not a node's blocker",
        "",
        " is not a comment list",
        " is not a comment",
        " cannot be claimed",
        " has no claim of its own",
        " cannot be done",
        " cannot be closed",
        " has no name of its own",
        " has no summary of its own",
        " has no body of its own",
        " is not a comment",
    ];
    for (words, reason) in refused(&asset).into_iter().zip(reasons) {
        match reason {
            "" => assert_eq!(words, None),
            reason => assert_eq!(words, Some(format!("alpha asset plan.txt{reason}"))),
        }
    }
    // Each kind of row takes exactly its own writes.
    let taken: Vec<usize> = every_selection()
        .iter()
        .map(|selection| refused(selection).iter().filter(|words| words.is_none()).count())
        .collect();
    assert_eq!(taken, vec![6, 7, 1, 1, 1, 0, 1, 2, 1, 1, 0]);
    // A dependency list and an entry of one belong to a ticket, never to an epic.
    let list = Selection::Collection(epic(), Collection::BlockedBy);
    assert_eq!(
        perform(&Write::AddBlocker(list, "9".to_string()), &unread()),
        Err(misdirected("alpha is not a dependency list".to_string()))
    );
    let entry = Selection::Blocker(epic(), NodeRef::new("beta", 2));
    assert_eq!(
        perform(&Write::RemoveBlocker(entry), &unread()),
        Err(misdirected("beta/2 is not a node's blocker".to_string()))
    );
}

#[test]
fn a_write_comes_to_the_one_operation_it_names() {
    let value = || "value".to_string();
    let done = |write: &Write| perform(write, &unread()).unwrap();
    assert_eq!(
        done(&Write::CreateEpic {
            epic: Selection::Epic("new".to_string()),
            name: value(),
            summary: String::new()
        }),
        Operation::CreateEpic { epic_id: "new".to_string(), name: value(), summary: String::new() }
    );
    assert_eq!(
        done(&Write::CreateNode {
            parent: Selection::Node(node()),
            name: value(),
            summary: value()
        }),
        Operation::CreateNode {
            epic_id: "alpha".to_string(),
            parent: Some(node()),
            name: value(),
            summary: value()
        }
    );
    assert_eq!(
        done(&Write::CreateNode {
            parent: Selection::Epic("alpha".to_string()),
            name: value(),
            summary: value()
        }),
        Operation::CreateNode {
            epic_id: "alpha".to_string(),
            parent: None,
            name: value(),
            summary: value()
        }
    );
    assert_eq!(
        done(&Write::RemoveLabel(Selection::Label(epic(), value()))),
        Operation::RemoveLabel(epic(), value())
    );
    assert_eq!(
        done(&Write::RemoveBlocker(Selection::Blocker(ticket(), NodeRef::new("beta", 2)))),
        Operation::RemoveBlocker { node: node(), blocker: NodeRef::new("beta", 2) }
    );
    assert_eq!(
        done(&Write::DeleteAsset(Selection::Asset(ticket(), value()))),
        Operation::DeleteAsset(ticket(), value())
    );
    assert_eq!(
        done(&Write::AddComment(Selection::Collection(epic(), Collection::Comments), value())),
        Operation::AddComment(epic(), value())
    );
    assert_eq!(
        done(&Write::DeleteComment(Selection::Comment(epic(), 4))),
        Operation::DeleteComment(epic(), 4)
    );
    assert_eq!(
        done(&Write::TakeClaim(Selection::Node(node()), " me ".to_string())),
        Operation::TakeClaim(node(), " me ".to_string())
    );
    assert_eq!(
        done(&Write::ReleaseClaim(Selection::Node(node()))),
        Operation::ReleaseClaim(node())
    );
    assert_eq!(
        done(&Write::Replace {
            target: Selection::Comment(epic(), 4),
            field: Replaceable::CommentText,
            value: "text\n".to_string(),
            expect: Some(stamp(at(2)))
        }),
        Operation::EditComment {
            container: epic(),
            id: 4,
            text: "text\n".to_string(),
            expect: Some(at(2))
        }
    );
}

#[test]
fn a_state_carries_a_reason_exactly_where_it_says_why() {
    let change = |state, cascade| {
        let write = Write::SetState {
            target: Selection::Node(node()),
            state: State::Work(state),
            reason: "why".to_string(),
            cascade,
        };
        match perform(&write, &unread()).unwrap() {
            Operation::SetNodeStatus(at, change) => {
                assert_eq!(at, node());
                change
            }
            other => panic!("{other:?}"),
        }
    };
    let why = || Some("why".to_string());
    assert_eq!(change(NodeState::ToDo, true), NodeStatusChange::ToDo);
    assert_eq!(change(NodeState::InProgress, true), NodeStatusChange::InProgress);
    assert_eq!(change(NodeState::Blocked, true), NodeStatusChange::Blocked { reason: why() });
    assert_eq!(change(NodeState::Done, true), NodeStatusChange::Done);
    for cascade in [false, true] {
        assert_eq!(
            change(NodeState::Closed, cascade),
            NodeStatusChange::Closed { reason: why(), cascade }
        );
    }
    for (state, closed, reason) in [(State::EpicOpen, false, None), (State::EpicClosed, true, why())] {
        let write = Write::SetState {
            target: Selection::Epic("alpha".to_string()),
            state,
            reason: "why".to_string(),
            cascade: true,
        };
        assert_eq!(
            perform(&write, &unread()).unwrap(),
            Operation::SetEpicClosed { epic_id: "alpha".to_string(), closed, reason }
        );
    }
}

#[test]
fn a_blocker_is_a_sibling_by_number_and_anything_by_reference() {
    let list = Selection::Collection(ticket(), Collection::BlockedBy);
    assert_eq!(resolve_blocker("alpha", " 12\n", &unread()), Ok(NodeRef::new("alpha", 12)));
    assert_eq!(resolve_blocker("alpha", "+3", &unread()), Ok(NodeRef::new("alpha", 3)));
    let elsewhere = Ok(NodeRef::new("beta", 2));
    assert_eq!(resolve_blocker("alpha", " beta/2 ", &elsewhere), elsewhere);
    assert_eq!(resolve_blocker("alpha", "nonsense", &unread()), unread());
    assert_eq!(blocker_name(&list, " 12 ", &unread()), "alpha/12");
    assert_eq!(blocker_name(&list, "beta/2", &elsewhere), "beta/2");
    assert_eq!(blocker_name(&list, " nonsense ", &unread()), "nonsense");
    assert_eq!(blocker_name(&Selection::Node(node()), " 12 ", &unread()), "12");
    assert_eq!(
        perform(&Write::AddBlocker(list.clone(), "12".to_string()), &unread()),
        Ok(Operation::AddBlocker { node: node(), blocker: NodeRef::new("alpha", 12) })
    );
    assert_eq!(
        perform(&Write::AddBlocker(list, "nonsense".to_string()), &unread()),
        Err(Refusal::Rule("invalid reference".to_string()))
    );
}

#[test]
fn what_a_write_did_is_what_only_the_store_could_say() {
    let blocker = Operation::AddBlocker { node: node(), blocker: NodeRef::new("beta", 2) };
    let created = Operation::CreateNode {
        epic_id: "alpha".to_string(),
        parent: None,
        name: "Name".to_string(),
        summary: String::new(),
    };
    let closed = Operation::SetNodeStatus(node(), NodeStatusChange::Done);
    let listed = |held: &[&str]| {
        Ok(Outcome::ListedBefore(held.iter().map(|r| r.to_string()).collect()))
    };
    assert_eq!(performed(&blocker, listed(&["alpha/1", "beta/22"])), Ok(Effect::AsAsked));
    assert_eq!(
        performed(&blocker, listed(&["alpha/1", "beta/2"])),
        Ok(Effect::AlreadyListed("beta/2".to_string()))
    );
    assert_eq!(
        performed(&created, Ok(Outcome::Numbered(12))),
        Ok(Effect::Created("alpha/12".to_string()))
    );
    let comment = Operation::AddComment(epic(), "hello".to_string());
    assert_eq!(performed(&comment, Ok(Outcome::Numbered(4))), Ok(Effect::Commented(4)));
    assert_eq!(performed(&closed, Ok(Outcome::Cascaded(0))), Ok(Effect::AsAsked));
    assert_eq!(performed(&closed, Ok(Outcome::Cascaded(2))), Ok(Effect::AlsoClosed(2)));
    assert_eq!(performed(&Operation::ReleaseClaim(node()), Ok(Outcome::Done)), Ok(Effect::AsAsked));
    assert_eq!(performed(&closed, Err(StoreFailure::Conflict)), Err(Refusal::Conflict));
}

#[test]
fn only_a_cascade_that_committed_something_changed_the_store() {
    let words = || "stopped at alpha/9".to_string();
    let partial = |committed| StoreFailure::CascadePartial { committed, message: words() };
    assert_eq!(refusal(partial(true)), Refusal::Partial(words()));
    assert_eq!(refusal(partial(false)), Refusal::Rule(words()));
    assert_eq!(refusal(StoreFailure::Other { message: words() }), Refusal::Rule(words()));
    assert_eq!(refusal(StoreFailure::Conflict), Refusal::Conflict);
    assert!(refusal(partial(true)).changed());
    assert!(!refusal(partial(false)).changed());
    assert!(!Refusal::<String>::Conflict.changed());
}

fn author(name: &str, human: bool) -> Author {
    Author { name: name.to_string(), human }
}

fn thread() -> Vec<CommentView> {
    vec![
        CommentView::Live {
            id: 1,
            author: author("human", true),
            created: at(0),
            text: "first".to_string(),
        },
        CommentView::Tombstone { id: 2, author: author("agent:bot", false), created: at(60) },
        CommentView::Live {
            id: 3,
            author: author("agent:bot", false),
            created: at(120),
            text: "third\n".to_string(),
        },
    ]
}

#[test]
fn a_comment_is_composed_into_a_document_of_its_own() {
    let head = "| field | value |\n|---|---|\n";
    assert_eq!(
        comment_document(1, &thread()).unwrap(),
        format!("{head}| comment | 1 |\n| author | human |\n| written | 1970-01-01T00:00:00Z |\n\nfirst\n")
    );
    assert_eq!(
        comment_document(3, &thread()).unwrap(),
        format!("{head}| comment | 3 |\n| author | agent:bot |\n| written | 1970-01-01T00:02:00Z |\n\nthird\n")
    );
    assert_eq!(
        comment_document(2, &thread()).unwrap(),
        format!(
            "{head}| comment | 2 |\n| author | agent:bot |\n| written | 1970-01-01T00:01:00Z |\n\
             | state | withdrawn |\n\n_Withdrawn: the text is not shown. \
             The entry stays because a comment id is never reused._\n"
        )
    );
    assert_eq!(comment_document(9, &thread()).unwrap_err(), "comment 9 does not exist");
}

#[test]
fn an_asset_is_composed_into_a_document_of_its_own() {
    let entry = |name: &str, description: Option<&str>| AssetEntry {
        name: name.to_string(),
        description: description.map(str::to_string),
    };
    let index = vec![entry("other", Some("no")), entry("plan.txt", Some("the plan")), entry("raw", None)];
    assert_eq!(
        asset_document(&epic(), "plan.txt", &b"steps".to_vec(), &index),
        "| field | value |\n|---|---|\n| asset | plan.txt |\n| size | 5 B |\n| type | text |\n\
         | description | the plan |\n\n## Content\n\nsteps\n"
    );
    assert_eq!(
        asset_document(&ticket(), "raw", &vec![0, 1, 2], &index),
        "| field | value |\n|---|---|\n| asset | raw |\n| size | 3 B |\n| type | binary |\n\
         \n## Content\n\n_Not text, so it is not shown. Write the bytes out with_\n\n```\n\
         loti ticket asset show alpha/7 raw\n```\n"
    );
    assert!(!asset_document(&epic(), "absent", &Vec::new(), &index).contains("description"));
}

#[test]
fn a_preview_names_the_one_document_it_is_made_from() {
    let shown: Vec<Document> = every_selection().iter().map(preview).collect();
    assert_eq!(shown[0], Document::Entity(epic()));
    for i in [1, 2, 3, 4, 5, 6, 10] {
        assert_eq!(shown[i], Document::Entity(ticket()));
    }
    assert_eq!(shown[7], Document::Comment(ticket(), 3));
    assert_eq!(shown[8], Document::Asset(ticket(), "plan.txt".to_string()));
    assert_eq!(shown[9], Document::Entity(Container::Node(NodeRef::new("beta", 2))));
}

fn child(reference: Result<NodeRef, String>) -> ChildReading {
    ChildReading {
        reference,
        name: "Child".to_string(),
        status: "to-do".to_string(),
        claimed_by: Some("me".to_string()),
        children: 2,
    }
}

#[test]
fn a_level_of_work_lists_its_collections_before_its_children() {
    let counts = CollectionCounts { labels: 1, comments: 0, blocked_by: 3, assets: 2 };
    let listing = Listing::Entity(ticket(), counts, vec![child(Ok(NodeRef::new("alpha", 8)))]);
    let level = rows(&listing).unwrap();
    let names: Vec<&str> = level.iter().map(|row| row.name.as_str()).collect();
    assert_eq!(names, vec!["labels", "comments", "blocked-by", "assets", "Child"]);
    let below: Vec<(usize, bool)> = level.iter().map(|row| (row.children, row.enterable())).collect();
    assert_eq!(below, vec![(1, true), (0, false), (3, true), (2, true), (2, true)]);
    assert_eq!(level[4].label, "8");
    assert_eq!(
        level[4].kind,
        RowKind::Work { status: "to-do".to_string(), claimed_by: Some("me".to_string()) }
    );
    assert_eq!(collection_rows(&epic(), counts).len(), 3);
    for kind in ticket().collections() {
        let expected = match kind {
            Collection::Labels => 1,
            Collection::Comments => 0,
            Collection::BlockedBy => 3,
            Collection::Assets => 2,
        };
        assert_eq!(counts.for_collection(kind), expected);
    }
}

#[test]
fn a_child_whose_reference_cannot_be_read_fails_the_listing_in_its_own_words() {
    let bad = |words: &str| child(Err(words.to_string()));
    let listed = vec![child(Ok(node())), bad("first"), bad("second")];
    assert_eq!(child_rows(&listed).unwrap_err(), "first");
    let counts = CollectionCounts { labels: 0, comments: 0, blocked_by: 0, assets: 0 };
    assert_eq!(rows(&Listing::Entity(epic(), counts, listed)).unwrap_err(), "first");
}

#[test]
fn the_roster_lists_an_epic_it_could_not_read_where_it_stands() {
    let entries = vec![
        RosterEntry::Readable {
            id: "alpha".to_string(),
            name: "Alpha".to_string(),
            status: "open".to_string(),
            children: 4,
        },
        RosterEntry::Unreadable { id: "beta".to_string(), failure: "bad frontmatter".to_string() },
    ];
    let roster = roster_rows(&entries);
    assert_eq!(roster, rows(&Listing::Epics(entries)).unwrap());
    assert_eq!(
        roster[0],
        Row {
            selection: Selection::Epic("alpha".to_string()),
            kind: RowKind::Work { status: "open".to_string(), claimed_by: None },
            label: "alpha".to_string(),
            name: "Alpha".to_string(),
            children: 4,
        }
    );
    assert_eq!(roster[1].kind, RowKind::Unreadable);
    assert_eq!(roster[1].name, "unreadable · bad frontmatter");
    assert_eq!(roster[1].selection, Selection::Epic("beta".to_string()));
    assert!(roster[1].enterable());
}

#[test]
fn members_are_leaves_named_by_what_a_reader_scans_for() {
    let labels = member_rows(&epic(), &Members::Labels(vec!["a".to_string(), "b".to_string()]));
    assert_eq!(labels[1].selection, Selection::Label(epic(), "b".to_string()));
    assert_eq!((labels[1].label.as_str(), labels[1].name.as_str()), ("b", ""));

    let comments = member_rows(&ticket(), &Members::Comments(thread(), at(3_720)));
    let names: Vec<&str> = comments.iter().map(|row| row.name.as_str()).collect();
    assert_eq!(
        names,
        vec!["human · 1h ago", "deleted · agent:bot · 1h ago", "agent:bot · 1h ago"]
    );
    assert_eq!(comments[0].kind, RowKind::Comment { by_the_human: true });
    assert_eq!(comments[1].kind, RowKind::Withdrawn);
    assert_eq!(comments[2].kind, RowKind::Comment { by_the_human: false });

    let entry = |reference: &str, named, blocking| BlockerReading {
        reference: reference.to_string(),
        named,
        blocking,
    };
    let entries = || {
        Members::BlockedBy(vec![
            entry(
                "beta/2",
                Ok(NodeRef::new("beta", 2)),
                Ok(BlockingNode {
                    name: "Blocking".to_string(),
                    status: NodeState::InProgress,
                    claimed_by: None,
                }),
            ),
            entry("beta/3", Ok(NodeRef::new("beta", 3)), Err("ticket beta/3 does not exist".to_string())),
            entry("garbage", unread(), Err("never looked at".to_string())),
        ])
    };
    let blockers = member_rows(&ticket(), &entries());
    assert_eq!(blockers[0].name, "Blocking");
    assert_eq!(
        blockers[0].kind,
        RowKind::Work { status: "in-progress".to_string(), claimed_by: None }
    );
    assert_eq!(blockers[1].name, "unreadable · ticket beta/3 does not exist");
    assert_eq!(blockers[1].selection, Selection::Blocker(ticket(), NodeRef::new("beta", 3)));
    assert_eq!(blockers[2].name, "cannot be removed");
    assert_eq!(
        blockers[2].selection,
        Selection::UnremovableBlocker(ticket(), "garbage".to_string())
    );
    assert_eq!(member_rows(&epic(), &entries()), Vec::new());

    let asset = |name: &str, size| AssetReading { name: name.to_string(), size };
    let assets = member_rows(&epic(), &Members::Assets(vec![asset("a", Some(2_048)), asset("b", None)]));
    assert_eq!(assets[0].name, "2.0 KiB");
    assert_eq!(assets[1].name, "unreadable · indexed, but its bytes are missing");

    for row in labels.iter().chain(&comments).chain(&blockers).chain(&assets) {
        assert_eq!(row.children, 0);
        assert!(!row.enterable());
    }
}

#[test]
fn a_read_only_state_says_why_in_the_stores_words() {
    let words = GateWords::new(
        "run loti migrate".to_string(),
        "a migration is running".to_string(),
        "get a newer loti".to_string(),
        "no version".to_string(),
    )
    .expect("four different sentences");
    assert_eq!(read_only(Ok(())), None);
    let pairs = [
        (VersionRefusal::NeedsMigration, ReadOnly::NeedsMigration, "run loti migrate"),
        (VersionRefusal::MigrationInProgress, ReadOnly::MigrationInProgress, "a migration is running"),
        (VersionRefusal::StoreTooNew, ReadOnly::NeedsNewerLoti, "get a newer loti"),
        (VersionRefusal::Unreadable, ReadOnly::VersionUnreadable, "no version"),
    ];
    for (verdict, state, said) in pairs {
        assert_eq!(read_only(Err(verdict)), Some(state));
        assert_eq!(state.gate_refusal(), verdict);
        assert_eq!(state.refusal(&words), said);
        assert!(ReadOnly::ALL.contains(&state));
    }
}

#[test]
fn no_two_refusals_share_their_words() {
    let words = |texts: [&str; 4]| {
        let [a, b, c, d] = texts.map(str::to_string);
        GateWords::new(a, b, c, d)
    };
    for shared in 0..4 {
        for with in 0..4 {
            let mut texts = ["older", "moving", "newer", "unread"];
            texts[with] = texts[shared];
            assert_eq!(words(texts).is_some(), shared == with, "{shared} {with}");
        }
    }
    let words = words(["older", "moving", "newer", "unread"]).unwrap();
    for a in ReadOnly::ALL {
        for b in ReadOnly::ALL {
            assert_eq!(a.refusal(&words) == b.refusal(&words), a == b, "{a:?} {b:?}");
        }
    }
}

fn resource(id: &str, origin: Origin, valid: bool) -> ResourceReading {
    ResourceReading { id: id.to_string(), origin, valid }
}

#[test]
fn an_agent_picker_offers_exactly_what_a_launch_could_resolve() {
    let workflows = || {
        vec![
            resource("build", Origin::Local, true),
            resource("broken", Origin::Local, false),
            resource("review", Origin::Global, true),
        ]
    };
    let picker = agent_picker(
        &Selection::Node(node()),
        Ok("Name".to_string()),
        Ok(workflows()),
        Ok(vec![resource("scribe", Origin::Global, true)]),
    )
    .unwrap();
    assert_eq!(
        picker.target,
        LaunchTarget::Ticket { reference: node(), name: "Name".to_string() }
    );
    let shown: Vec<String> = picker.workflows.iter().map(AgentChoice::shown).collect();
    assert_eq!(shown, vec!["build (local)", "review (global)"]);
    assert!(picker.is_selectable());
    assert_eq!(picker.unavailable_reason(), "");

    let missing = |workflows: Vec<ResourceReading>, profiles: Vec<ResourceReading>| {
        let picker = agent_picker(
            &Selection::Epic("alpha".to_string()),
            Ok("Alpha".to_string()),
            Ok(workflows),
            Ok(profiles),
        )
        .unwrap();
        assert!(!picker.is_selectable());
        picker.unavailable_reason()
    };
    let invalid = || vec![resource("broken", Origin::Local, false)];
    assert_eq!(missing(invalid(), invalid()), "no valid workflows or agent profiles are available");
    assert_eq!(missing(invalid(), workflows()), "no valid workflows are available");
    assert_eq!(missing(workflows(), invalid()), "no valid agent profiles are available");
}

#[test]
fn an_agent_picker_reports_the_first_read_that_failed() {
    let words = |said: &str| Err::<Vec<ResourceReading>, String>(said.to_string());
    let on = |selection: &Selection, name: Result<String, String>| {
        agent_picker(selection, name, words("workflows"), words("profiles")).unwrap_err()
    };
    assert_eq!(on(&Selection::Node(node()), Err("gone".to_string())), "gone");
    assert_eq!(on(&Selection::Node(node()), Ok(String::new())), "workflows");
    assert_eq!(
        agent_picker(&Selection::Node(node()), Ok(String::new()), Ok(Vec::new()), words("profiles"))
            .unwrap_err(),
        "profiles"
    );
    assert_eq!(
        on(&Selection::Label(epic(), "urgent".to_string()), Ok(String::new())),
        "alpha is not an epic or ticket"
    );
}

#[test]
fn a_launch_is_prepared_only_while_what_was_picked_still_stands() {
    let prepared = |profile, workflow| prepare_agent_launch("build", "scribe", profile, workflow);
    assert_eq!(prepared(Ok(Resolution::Valid), Ok(Resolution::Valid)), Ok(()));
    for (profile, workflow, why) in [
        (Resolution::Missing, Resolution::Missing, "agent profile 'scribe' does not exist"),
        (Resolution::Invalid, Resolution::Valid, "agent profile 'scribe' is invalid"),
        (Resolution::Valid, Resolution::Missing, "workflow 'build' does not exist"),
        (Resolution::Valid, Resolution::Invalid, "workflow 'build' is invalid"),
    ] {
        assert_eq!(prepared(Ok(profile), Ok(workflow)), Err(why.to_string()));
    }
    let unreadable = || Err("no config".to_string());
    assert_eq!(prepared(unreadable(), Ok(Resolution::Valid)), Err("no config".to_string()));
    assert_eq!(prepared(Ok(Resolution::Valid), unreadable()), Err("no config".to_string()));
}

#[test]
fn an_epics_flag_takes_no_ticket_with_it() {
    let closing = |cascade| Write::SetState {
        target: Selection::Epic("alpha".to_string()),
        state: State::EpicClosed,
        reason: "done with".to_string(),
        cascade,
    };
    let operation = perform(&closing(true), &unread()).unwrap();
    assert_eq!(perform(&closing(false), &unread()).unwrap(), operation);
    assert_eq!(performed(&operation, Ok(Outcome::Cascaded(3))), Ok(Effect::AsAsked));
}

//! An open editing surface: the fields the reader fills in, and what accepting it
//! writes.
use crate::action::{Action, FieldKind, Fields, Form, Lines};
use crate::app::dialog::{cascade_label, cascade_question};
use crate::app::field::{Check, Choice, Content, Field, FieldModel};
use crate::data::write::{blocker_called, viewed};
use crate::data::{
    blocker_name, FreeForm, NodeRef, Reading, Replaceable, Selection, Stamp, State, StateTarget,
    Write,
};
use crate::text::{joined, joined3, trim, trimmed, Text};
use vstd::prelude::*;

verus! {

/// What a label field is called wherever it has to be named.
pub const LABEL_FIELD: &'static str = "label";

/// See [`LABEL_FIELD`]. A blocker is named by a reference rather than written out.
pub const BLOCKER_FIELD: &'static str = "blocker reference (number or epic/number)";

/// See [`LABEL_FIELD`]. The store's own word for the field a state is held in.
pub const STATE_FIELD: &'static str = "status";

/// See [`LABEL_FIELD`]. What a state that says why says it in.
pub const REASON_FIELD: &'static str = "reason";

/// See [`LABEL_FIELD`]. What a new comment is written into.
pub const COMMENT_FIELD: &'static str = "comment";

/// See [`LABEL_FIELD`]. A claim's holder is freeform text and is not attribution.
pub const CLAIM_FIELD: &'static str = "claim holder";

/// See [`LABEL_FIELD`]. The id a new epic is created under.
pub const EPIC_ID_FIELD: &'static str = "epic id";

/// Where an open surface renders.
///
/// Invariant: the surface says where, and the drawing obeys it.
#[derive(Clone, Copy, Debug, PartialEq, Eq, Structural)]
pub enum Placement {
    /// Centred over everything and as tall as its fields, covering the row it was
    /// opened from — which is why its title names that row.
    Float,
    /// In the preview pane, so the navigation pane keeps the frozen row visible
    /// beside it.
    Pane,
}

impl Placement {
    /// Everywhere a surface may render.
    pub const ALL: [Placement; 2] = [Placement::Float, Placement::Pane];
}

/// What accepting a surface writes.
///
/// Invariant: named when the surface opens and built from the fields at the moment
/// it is accepted, so the write and the notice that reports it are one decision.
#[derive(Debug, PartialEq, Eq)]
#[verifier::ext_equal]
pub enum Commit<S = String> {
    /// Create an epic under the id the first field holds.
    CreateEpic,
    /// Create a unit of work in the container the frozen row names.
    CreateNode(Selection<S>),
    /// Put the label the field holds on the set the frozen row names.
    AddLabel(Selection<S>),
    /// Put the node the field's reference names on the dependency list the frozen
    /// row names.
    AddBlocker(Selection<S>),
    /// Put the comment the field holds on the list the frozen row names.
    AddComment(Selection<S>),
    /// Take the claim on the node the frozen row names, for the holder the field
    /// holds.
    TakeClaim(Selection<S>),
    /// Put the epic or node the frozen row names into the state its picker holds,
    /// with the reason and the cascade the fields that state revealed hold.
    SetState {
        /// The epic or node whose state is set.
        target: Selection<S>,
        /// The state the row was in when the surface opened, which is what a
        /// surface that had lost its picker would write.
        current: State,
        /// How many of the row's descendants were still open when the surface
        /// opened, which is what the cascade field names and offers.
        open_descendants: usize,
    },
    /// Replace one whole field of what the frozen row names, guarded by the stamp
    /// that field's text was read at.
    Replace {
        /// The epic, node or comment the field belongs to.
        target: Selection<S>,
        /// Which of its fields the surface replaces.
        field: Replaceable,
        /// The stamp that field's text was read at.
        stamp: Stamp,
    },
}

impl View for Commit {
    type V = Commit<Text>;

    open spec fn view(&self) -> Commit<Text> {
        match self {
            Commit::CreateEpic => Commit::CreateEpic,
            Commit::CreateNode(parent) => Commit::CreateNode(parent@),
            Commit::AddLabel(set) => Commit::AddLabel(set@),
            Commit::AddBlocker(list) => Commit::AddBlocker(list@),
            Commit::AddComment(list) => Commit::AddComment(list@),
            Commit::TakeClaim(node) => Commit::TakeClaim(node@),
            Commit::SetState { target, current, open_descendants } => Commit::SetState {
                target: target@,
                current: *current,
                open_descendants: *open_descendants,
            },
            Commit::Replace { target, field, stamp } => Commit::Replace {
                target: target@,
                field: *field,
                stamp: *stamp,
            },
        }
    }
}

impl Clone for Commit {
    fn clone(&self) -> (r: Self)
        ensures
            r == *self,
    {
        match self {
            Commit::CreateEpic => Commit::CreateEpic,
            Commit::CreateNode(parent) => Commit::CreateNode(parent.clone()),
            Commit::AddLabel(set) => Commit::AddLabel(set.clone()),
            Commit::AddBlocker(list) => Commit::AddBlocker(list.clone()),
            Commit::AddComment(list) => Commit::AddComment(list.clone()),
            Commit::TakeClaim(node) => Commit::TakeClaim(node.clone()),
            Commit::SetState { target, current, open_descendants } => Commit::SetState {
                target: target.clone(),
                current: *current,
                open_descendants: *open_descendants,
            },
            Commit::Replace { target, field, stamp } => Commit::Replace {
                target: target.clone(),
                field: *field,
                stamp: *stamp,
            },
        }
    }
}

/// What a new member of a container is called.
pub open spec fn noun_on(parent: Selection<Text>) -> Text {
    match parent {
        Selection::Node(_) => "subticket"@,
        _ => "ticket"@,
    }
}

/// What a new member of a container is called: an epic's is a ticket, and a
/// ticket's is a subticket.
///
/// One answer, so the form's title and the notice its write raises cannot come to
/// call the same thing two things.
fn node_noun(parent: &Selection) -> (r: &'static str)
    ensures
        r@ == noun_on(parent@),
{
    match parent {
        Selection::Node(_) => "subticket",
        _ => "ticket",
    }
}

/// The pair of fields every creation form ends with.
pub open spec fn naming() -> Seq<FieldModel> {
    seq![
        FieldModel::empty("name"@, true, Lines::One),
        FieldModel::empty("summary"@, false, Lines::One),
    ]
}

/// What a list of fields holds.
pub open spec fn fields_shown(fields: Seq<Field>) -> Seq<FieldModel> {
    fields.map_values(|field: Field| field@)
}

/// The pair of fields every creation form ends with: what the new entity is
/// called, and its one-line summary.
///
/// Named by the store's own words for those fields, and required exactly as they
/// are there: a name is how every row addresses what it names, so there is no
/// creating something without one; a summary is a line a reader may leave for
/// later.
fn naming_fields() -> (r: Vec<Field>)
    ensures
        fields_shown(r@) == naming(),
{
    let mut fields: Vec<Field> = Vec::new();
    fields.push(Field::new(FreeForm::Name.noun(), true, Lines::One));
    fields.push(Field::new(FreeForm::Summary.noun(), false, Lines::One));
    assert(fields_shown(fields@) =~= naming());
    fields
}

/// An open editing surface: the fields the reader fills in, and what accepting it
/// writes.
///
/// Invariant: it holds at least one field, and each of them only what a field of
/// its kind may.
#[derive(Debug, PartialEq, Eq)]
#[verifier::ext_equal]
pub struct Surface<S = String, F = Vec<Field>> {
    /// What the surface is titled: the action and the row it acts on.
    pub title: S,
    /// Its fields, in the order they are filled in.
    pub fields: F,
    /// Which field the keyboard was last put in.
    pub focus: usize,
    /// Where it renders; see [`Placement`].
    pub placement: Placement,
    /// What accepting it writes.
    pub commit: Commit<S>,
}

/// A surface by what it holds.
pub type SurfaceModel = Surface<Text, Seq<FieldModel>>;

impl View for Surface {
    type V = SurfaceModel;

    open spec fn view(&self) -> SurfaceModel {
        Surface {
            title: self.title@,
            fields: fields_shown(self.fields@),
            focus: self.focus,
            placement: self.placement,
            commit: self.commit@,
        }
    }
}

impl Clone for Surface {
    fn clone(&self) -> (r: Self)
        ensures
            r@ == self@,
    {
        let mut fields: Vec<Field> = Vec::new();
        let mut i: usize = 0;
        assert(fields_shown(fields@) =~= self@.fields.take(0));
        while i < self.fields.len()
            invariant
                i <= self.fields.len(),
                fields_shown(fields@) == self@.fields.take(i as int),
            decreases self.fields.len() - i,
        {
            let field = self.fields[i].clone();
            proof {
                lemma_fields_push(fields@, field);
            }
            assert(self@.fields.take(i + 1) =~= self@.fields.take(i as int).push(field@));
            fields.push(field);
            i += 1;
        }
        assert(self@.fields.take(self.fields.len() as int) =~= self@.fields);
        Surface {
            title: self.title.clone(),
            fields,
            focus: self.focus,
            placement: self.placement,
            commit: self.commit.clone(),
        }
    }
}

/// The first field of a list that is of a kind.
pub open spec fn first_field(fields: Seq<FieldModel>, wanted: spec_fn(FieldModel) -> bool) -> Option<
    int,
>
    decreases fields.len(),
{
    if fields.len() == 0 {
        None
    } else if wanted(fields[0]) {
        Some(0)
    } else {
        match first_field(fields.drop_first(), wanted) {
            Some(i) => Some(i + 1),
            None => None,
        }
    }
}

/// A field none before which is of a kind is the first of it, and a list none of
/// which is has no first.
proof fn lemma_first_field(fields: Seq<FieldModel>, wanted: spec_fn(FieldModel) -> bool, i: int)
    requires
        0 <= i <= fields.len(),
        forall|j: int| 0 <= j < i ==> !wanted(#[trigger] fields[j]),
        i < fields.len() ==> wanted(fields[i]),
    ensures
        first_field(fields, wanted) == (if i < fields.len() {
            Some(i)
        } else {
            None
        }),
    decreases fields.len(),
{
    if i > 0 {
        assert(!wanted(fields[0]));
        let rest = fields.drop_first();
        assert forall|j: int| 0 <= j < i - 1 implies !wanted(#[trigger] rest[j]) by {
            assert(!wanted(fields[j + 1]));
        }
        lemma_first_field(rest, wanted, i - 1);
    }
}

/// The first field of a kind is one of the fields, and is of that kind.
pub proof fn the_first_field_is_of_its_kind(
    fields: Seq<FieldModel>,
    wanted: spec_fn(FieldModel) -> bool,
)
    ensures
        (match first_field(fields, wanted) {
            Some(i) => 0 <= i < fields.len() && wanted(fields[i]) && forall|j: int|
                0 <= j < i ==> !wanted(#[trigger] fields[j]),
            None => forall|j: int| 0 <= j < fields.len() ==> !wanted(#[trigger] fields[j]),
        }),
    decreases fields.len(),
{
    if fields.len() > 0 && !wanted(fields[0]) {
        let rest = fields.drop_first();
        the_first_field_is_of_its_kind(rest, wanted);
        let bound = match first_field(rest, wanted) {
            Some(i) => i,
            None => rest.len() as int,
        };
        assert forall|j: int| 0 <= j < bound + 1 implies !wanted(#[trigger] fields[j]) by {
            if j > 0 {
                assert(fields[j] == rest[j - 1]);
            }
        }
    }
}

/// Whether a field is made of text.
pub open spec fn is_text() -> spec_fn(FieldModel) -> bool {
    |field: FieldModel| field.spec_text() is Some
}

/// Whether a field is the question of a cascade.
pub open spec fn is_cascade() -> spec_fn(FieldModel) -> bool {
    |field: FieldModel| field.spec_chosen() matches Some(Choice::Cascade(_))
}

/// Whether a field is dirty.
pub open spec fn is_dirtied() -> spec_fn(FieldModel) -> bool {
    |field: FieldModel| field.dirty
}

/// Whether a field is required and left empty.
pub open spec fn is_unfilled() -> spec_fn(FieldModel) -> bool {
    |field: FieldModel| field.spec_unfilled()
}

/// Whether a field holds a value the browser will not send.
pub open spec fn is_rejected() -> spec_fn(FieldModel) -> bool {
    |field: FieldModel| field.spec_rejected() is Some
}

/// The field a state that says why is given its reason in, where none is carried
/// over.
pub open spec fn fresh_reason() -> FieldModel {
    FieldModel::empty(REASON_FIELD@, true, Lines::One)
}

/// The field a cascade is asked in, where none is carried over: no by default,
/// which is the store's own default.
pub open spec fn fresh_cascade(open_descendants: usize) -> FieldModel {
    FieldModel::picking(
        cascade_question(open_descendants as nat),
        seq![Choice::Cascade(false), Choice::Cascade(true)],
        Choice::Cascade(false),
    )
}

impl SurfaceModel {
    /// Whether it holds at least one field and each of them only what it may.
    pub open spec fn wf(self) -> bool {
        &&& self.fields.len() > 0
        &&& forall|i: int| 0 <= i < self.fields.len() ==> (#[trigger] self.fields[i]).wf()
    }

    /// The field the keyboard is in.
    pub open spec fn spec_focus(self) -> int {
        if self.focus < self.fields.len() {
            self.focus as int
        } else if self.fields.len() > 0 {
            self.fields.len() - 1
        } else {
            0
        }
    }

    /// What it looks like to a key.
    pub open spec fn spec_shape(self) -> Form {
        Form {
            fields: Fields::counted(self.fields.len()),
            kind: if self.fields.len() > 0 {
                self.fields[self.spec_focus()].spec_kind()
            } else {
                FieldKind::OneLine
            },
        }
    }

    /// The surface with the keyboard elsewhere.
    pub open spec fn focused_on(self, focus: int) -> SurfaceModel {
        Surface { focus: focus as usize, ..self }
    }

    /// The surface with the keyboard in the next or the previous field, wrapping
    /// round at either end.
    pub open spec fn focus_moved(self, forwards: bool) -> SurfaceModel {
        let last = self.fields.len() - 1;
        if last < 0 {
            self
        } else if forwards {
            self.focused_on(
                if self.focus >= last {
                    0
                } else {
                    self.focus + 1
                },
            )
        } else {
            self.focused_on(
                if self.focus == 0 {
                    last
                } else {
                    self.focus - 1
                },
            )
        }
    }

    /// The surface with one field changed.
    pub open spec fn with_field(self, index: int, field: FieldModel) -> SurfaceModel {
        Surface { fields: self.fields.update(index, field), ..self }
    }

    /// The first field with typing in it.
    pub open spec fn spec_dirtied(self) -> Option<int> {
        first_field(self.fields, is_dirtied())
    }

    /// The first required field left empty.
    pub open spec fn spec_unfilled(self) -> Option<int> {
        first_field(self.fields, is_unfilled())
    }

    /// The first field whose value the browser will not send.
    pub open spec fn spec_rejected(self) -> Option<int> {
        first_field(self.fields, is_rejected())
    }

    /// The state its picker holds, or the row's own where it has none.
    pub open spec fn spec_picked_state(self, current: State) -> State {
        if self.fields.len() > 0 {
            match self.fields[0].spec_chosen() {
                Some(Choice::State(state)) => state,
                _ => current,
            }
        } else {
            current
        }
    }

    /// Whether its cascade field says to close the row's open descendants too.
    pub open spec fn spec_cascading(self) -> bool {
        match first_field(self.fields, is_cascade()) {
            Some(i) => self.fields[i].spec_chosen() == Some(Choice::Cascade(true)),
            None => false,
        }
    }

    /// What its first field of text holds, and nothing where it has none.
    pub open spec fn spec_typed(self) -> Text {
        match first_field(self.fields, is_text()) {
            Some(i) => self.fields[i].spec_text()->0,
            None => Seq::empty(),
        }
    }

    /// What the field in a position holds, and nothing where there is no such field
    /// or it is not made of text.
    pub open spec fn spec_text_at(self, index: int) -> Text {
        if 0 <= index < self.fields.len() && self.fields[index].spec_text() is Some {
            self.fields[index].spec_text()->0
        } else {
            Seq::empty()
        }
    }

    /// Where the pair a creation form ends with starts.
    pub open spec fn naming_at(self) -> int {
        if self.fields.len() < 2 {
            0
        } else {
            self.fields.len() - 2
        }
    }

    /// The fields a state surface holds once its picker holds a state.
    pub open spec fn wanted(self, state: State, open_descendants: usize) -> Seq<FieldModel> {
        let picker = if self.fields.len() > 0 {
            self.fields.take(1)
        } else {
            self.fields
        };
        let explained = if state.says_why() {
            picker.push(
                match first_field(self.fields, is_text()) {
                    Some(i) => self.fields[i],
                    None => fresh_reason(),
                },
            )
        } else {
            picker
        };
        if state.takes_descendants() && open_descendants > 0 {
            explained.push(
                match first_field(self.fields, is_cascade()) {
                    Some(i) => self.fields[i],
                    None => fresh_cascade(open_descendants),
                },
            )
        } else {
            explained
        }
    }

    /// The surface with its fields in line with what its picker holds.
    pub open spec fn revised(self) -> SurfaceModel {
        match self.commit {
            Commit::SetState { current, open_descendants, .. } => {
                let revised = Surface {
                    fields: self.wanted(self.spec_picked_state(current), open_descendants),
                    ..self
                };
                revised.focused_on(revised.spec_focus())
            },
            _ => self,
        }
    }

    /// Whether it leads with its picker of states, where it is one that sets one.
    pub open spec fn leads_with_its_picker(self) -> bool {
        self.commit is SetState ==> {
            &&& self.fields.len() > 0
            &&& self.fields[0].content matches Content::Pick { options, .. } && forall|i: int|
                0 <= i < options.len() ==> (#[trigger] options[i]) is State
        }
    }

    /// Whether its fields are in line with what its picker holds: a surface holds
    /// exactly the fields on screen.
    pub open spec fn settled(self) -> bool {
        self.leads_with_its_picker() && self.revised() == self
    }

    /// The surface after a key that belongs to the field the keyboard is in.
    pub open spec fn applied(self, action: Action) -> SurfaceModel {
        self.with_field(self.spec_focus(), self.fields[self.spec_focus()].applied(action)).revised()
    }

    /// The surface with an external editor's result taken into the field the
    /// keyboard is in.
    pub open spec fn replaced(self, text: Text) -> SurfaceModel {
        self.with_field(self.spec_focus(), self.fields[self.spec_focus()].replaced(text))
    }

    /// The write accepting the surface performs, and what the notice says once it
    /// is committed.
    pub open spec fn spec_write(self, reading: Result<NodeRef<Text>, Text>) -> (Write<Text>, Text) {
        let name = self.spec_text_at(self.naming_at());
        let summary = self.spec_text_at(self.naming_at() + 1);
        match self.commit {
            Commit::CreateEpic => (
                Write::CreateEpic { epic: Selection::Epic(self.spec_text_at(0)), name, summary },
                "epic "@ + self.spec_text_at(0) + " created"@,
            ),
            Commit::CreateNode(parent) => (
                Write::CreateNode { parent, name, summary },
                noun_on(parent) + " on "@ + parent.spec_reference() + " added"@,
            ),
            Commit::AddLabel(set) => (
                Write::AddLabel(set, self.spec_typed()),
                "label "@ + self.spec_typed() + " added"@,
            ),
            Commit::AddBlocker(list) => (
                Write::AddBlocker(list, self.spec_typed()),
                "blocker "@ + blocker_called(list, self.spec_typed(), reading) + " added"@,
            ),
            Commit::AddComment(list) => (
                Write::AddComment(list, self.spec_typed()),
                "comment on "@ + list.spec_reference() + " added"@,
            ),
            Commit::TakeClaim(node) => (
                Write::TakeClaim(node, self.spec_typed()),
                "claim on "@ + node.spec_reference() + " taken by "@ + self.spec_typed(),
            ),
            Commit::SetState { target, current, .. } => (
                Write::SetState {
                    target,
                    state: self.spec_picked_state(current),
                    reason: self.spec_typed(),
                    cascade: self.spec_cascading(),
                },
                target.spec_reference() + " is now "@ + self.spec_picked_state(current).word(),
            ),
            Commit::Replace { target, field, stamp } => (
                Write::Replace { target, field, value: self.spec_typed(), expect: Some(stamp) },
                field.called() + " of "@ + target.spec_reference() + " saved"@,
            ),
        }
    }

    /// The token a store has to read before the surface can be accepted.
    pub open spec fn spec_token(self) -> Option<Text> {
        match self.commit {
            Commit::AddBlocker(_) => Some(trimmed(self.spec_typed())),
            _ => None,
        }
    }

    /// A surface with one field, nothing typed in it.
    pub open spec fn one_field(
        title: Text,
        field: FieldModel,
        placement: Placement,
        commit: Commit<Text>,
    ) -> SurfaceModel {
        Surface { title, fields: seq![field], focus: 0, placement, commit }
    }

    /// The surface that creates an epic.
    pub open spec fn creating_epic() -> SurfaceModel {
        Surface {
            title: " new epic "@,
            fields: seq![FieldModel::checking(EPIC_ID_FIELD@, Check::EpicId)] + naming(),
            focus: 0,
            placement: Placement::Float,
            commit: Commit::CreateEpic,
        }
    }

    /// The surface that creates a unit of work.
    pub open spec fn creating_node(parent: Selection<Text>) -> SurfaceModel {
        Surface {
            title: " new "@ + noun_on(parent) + " on "@ + parent.spec_reference() + " "@,
            fields: naming(),
            focus: 0,
            placement: Placement::Float,
            commit: Commit::CreateNode(parent),
        }
    }

    /// The surface that adds one label.
    pub open spec fn adding_label(set: Selection<Text>, container: Text) -> SurfaceModel {
        SurfaceModel::one_field(
            " new label on "@ + container + " "@,
            FieldModel::empty(LABEL_FIELD@, true, Lines::One),
            Placement::Float,
            Commit::AddLabel(set),
        )
    }

    /// The surface that adds one blocker.
    pub open spec fn adding_blocker(list: Selection<Text>, container: Text) -> SurfaceModel {
        SurfaceModel::one_field(
            " new blocker on "@ + container + " "@,
            FieldModel::empty(BLOCKER_FIELD@, true, Lines::One),
            Placement::Float,
            Commit::AddBlocker(list),
        )
    }

    /// The surface that adds one comment.
    pub open spec fn adding_comment(list: Selection<Text>, container: Text) -> SurfaceModel {
        SurfaceModel::one_field(
            " new comment on "@ + container + " "@,
            FieldModel::empty(COMMENT_FIELD@, true, Lines::Many),
            Placement::Pane,
            Commit::AddComment(list),
        )
    }

    /// The surface that takes a claim.
    pub open spec fn taking_claim(node: Selection<Text>) -> SurfaceModel {
        SurfaceModel::one_field(
            " claim on "@ + node.spec_reference() + " "@,
            FieldModel::empty(CLAIM_FIELD@, true, Lines::One),
            Placement::Float,
            Commit::TakeClaim(node),
        )
    }

    /// The surface that picks a row's state.
    pub open spec fn setting_state(target: StateTarget<Text, Seq<State>>) -> SurfaceModel {
        SurfaceModel::one_field(
            " status of "@ + target.selection.spec_reference() + " "@,
            FieldModel::picking(
                STATE_FIELD@,
                target.offered.map_values(|state: State| Choice::State(state)),
                Choice::State(target.current),
            ),
            Placement::Float,
            Commit::SetState {
                target: target.selection,
                current: target.current,
                open_descendants: target.open_descendants,
            },
        ).revised()
    }

    /// The surface that replaces one whole field.
    pub open spec fn replacing(
        field: Replaceable,
        target: Selection<Text>,
        value: Text,
        stamp: Stamp,
    ) -> SurfaceModel {
        SurfaceModel::one_field(
            " "@ + field.called() + " of "@ + target.spec_reference() + " "@,
            FieldModel::starting_from(field.called(), must_be_filled(field), lines_of(field), value),
            if lines_of(field) is Many {
                Placement::Pane
            } else {
                Placement::Float
            },
            Commit::Replace { target, field, stamp },
        )
    }
}

/// How many lines a replaceable field holds: the long-form text as many as the
/// reader writes, a name and a summary one.
pub open spec fn lines_of(field: Replaceable) -> Lines {
    if field == Replaceable::Field(FreeForm::Name) || field == Replaceable::Field(
        FreeForm::Summary,
    ) {
        Lines::One
    } else {
        Lines::Many
    }
}

/// Whether a replaceable field may not be emptied: a name is how every row
/// addresses what it names, and a comment's text is the whole of it.
pub open spec fn must_be_filled(field: Replaceable) -> bool {
    field == Replaceable::Field(FreeForm::Name) || field == Replaceable::CommentText
}

impl Surface {
    /// The surface that creates an epic: the id it will be addressed by, and the
    /// pair every creation form ends with.
    ///
    /// The id leads because everything else about the epic can be changed later and
    /// it cannot: it is the address.
    pub fn create_epic() -> (r: Self)
        ensures
            r@ == SurfaceModel::creating_epic(),
            r@.wf(),
    {
        let mut fields: Vec<Field> = Vec::new();
        fields.push(Field::checked(EPIC_ID_FIELD, Check::EpicId));
        let mut rest = naming_fields();
        let ghost pair = rest@;
        fields.append(&mut rest);
        let r = Surface {
            title: " new epic ".to_owned(),
            fields,
            focus: 0,
            placement: Placement::Float,
            commit: Commit::CreateEpic,
        };
        proof {
            assert(r@.fields =~= seq![FieldModel::checking(EPIC_ID_FIELD@, Check::EpicId)]
                + fields_shown(pair));
        }
        r
    }

    /// The surface that creates a unit of work in the container the frozen row
    /// names, which is a ticket on an epic's row and a subticket on a ticket's.
    pub fn create_node(parent: Selection) -> (r: Self)
        ensures
            r@ == SurfaceModel::creating_node(parent@),
            r@.wf(),
    {
        let title = joined(
            &joined3(&joined(" new ", node_noun(&parent)), " on ", &parent.reference()),
            " ",
        );
        Surface {
            title,
            fields: naming_fields(),
            focus: 0,
            placement: Placement::Float,
            commit: Commit::CreateNode(parent),
        }
    }

    /// A surface with one field.
    fn with_one(title: String, field: Field, placement: Placement, commit: Commit) -> (r: Self)
        requires
            field@.wf(),
        ensures
            r@ == SurfaceModel::one_field(title@, field@, placement, commit@),
            r@.wf(),
    {
        let mut fields: Vec<Field> = Vec::new();
        fields.push(field);
        let r = Surface { title, fields, focus: 0, placement, commit };
        assert(r@.fields =~= seq![field@]);
        r
    }

    /// The surface that adds one label: a single short line, so it is a float and
    /// not the preview pane.
    pub fn add_label(set: Selection, container: &str) -> (r: Self)
        ensures
            r@ == SurfaceModel::adding_label(set@, container@),
            r@.wf(),
    {
        Surface::with_one(
            joined3(" new label on ", container, " "),
            Field::new(LABEL_FIELD, true, Lines::One),
            Placement::Float,
            Commit::AddLabel(set),
        )
    }

    /// The surface that adds one blocker: one short field holding a reference.
    pub fn add_blocker(list: Selection, container: &str) -> (r: Self)
        ensures
            r@ == SurfaceModel::adding_blocker(list@, container@),
            r@.wf(),
    {
        Surface::with_one(
            joined3(" new blocker on ", container, " "),
            Field::new(BLOCKER_FIELD, true, Lines::One),
            Placement::Float,
            Commit::AddBlocker(list),
        )
    }

    /// The surface that adds one comment: a buffer in the preview pane, because a
    /// comment is prose and the row it is being written about should stay visible
    /// beside it. It starts empty and is required.
    pub fn add_comment(list: Selection, container: &str) -> (r: Self)
        ensures
            r@ == SurfaceModel::adding_comment(list@, container@),
            r@.wf(),
    {
        Surface::with_one(
            joined3(" new comment on ", container, " "),
            Field::new(COMMENT_FIELD, true, Lines::Many),
            Placement::Pane,
            Commit::AddComment(list),
        )
    }

    /// The surface that takes a claim: one short field holding the holder.
    ///
    /// It starts empty rather than from the holder already on the row: text the
    /// browser put there itself is text nobody chose.
    pub fn take_claim(node: Selection) -> (r: Self)
        ensures
            r@ == SurfaceModel::taking_claim(node@),
            r@.wf(),
    {
        Surface::with_one(
            joined3(" claim on ", &node.reference(), " "),
            Field::new(CLAIM_FIELD, true, Lines::One),
            Placement::Float,
            Commit::TakeClaim(node),
        )
    }

    /// The surface that picks a row's state: a picker, and after it whatever the
    /// picked state needs — a reason for a state that says why, and, on a unit of
    /// work being closed with open descendants below it, whether to close those too.
    ///
    /// The state the row is already in may itself be one that says why, so the
    /// surface opens with whatever that state asks for.
    pub fn set_state(target: StateTarget) -> (r: Self)
        ensures
            r@ == SurfaceModel::setting_state(target@),
            r@.wf(),
    {
        let mut options: Vec<Choice> = Vec::new();
        let mut i: usize = 0;
        while i < target.offered.len()
            invariant
                i <= target.offered.len(),
                options@ == target.offered@.take(i as int).map_values(
                    |state: State| Choice::State(state),
                ),
            decreases target.offered.len() - i,
        {
            assert(target.offered@.take(i + 1) =~= target.offered@.take(i as int).push(
                target.offered@[i as int],
            ));
            options.push(Choice::State(target.offered[i]));
            i += 1;
        }
        assert(target.offered@.take(target.offered.len() as int) =~= target.offered@);
        let title = joined3(" status of ", &target.selection.reference(), " ");
        let mut surface = Surface::with_one(
            title,
            Field::pick(STATE_FIELD, options, Choice::State(target.current)),
            Placement::Float,
            Commit::SetState {
                target: target.selection,
                current: target.current,
                open_descendants: target.open_descendants,
            },
        );
        surface.revise();
        surface
    }

    /// The surface that replaces one whole field: one field, starting from the text
    /// the read returned and carrying that read's stamp.
    ///
    /// One surface for every replaceable field, because everything but its shape is
    /// the same. The long-form text is many lines in the preview pane, so the
    /// frozen row stays visible beside the prose being rewritten, while a short
    /// line is a float. A name may not be emptied, nor may a comment.
    pub fn replace(field: Replaceable, target: Selection, value: &str, stamp: Stamp) -> (r: Self)
        ensures
            r@ == SurfaceModel::replacing(field, target@, value@, stamp),
            r@.wf(),
    {
        let (placement, lines, required) = match field {
            Replaceable::Field(FreeForm::Name) => (Placement::Float, Lines::One, true),
            Replaceable::Field(FreeForm::Summary) => (Placement::Float, Lines::One, false),
            Replaceable::Field(FreeForm::Body) => (Placement::Pane, Lines::Many, false),
            Replaceable::CommentText => (Placement::Pane, Lines::Many, true),
        };
        let title = joined(
            &joined3(&joined(" ", field.noun()), " of ", &target.reference()),
            " ",
        );
        Surface::with_one(
            title,
            Field::filled(field.noun(), required, lines, value),
            placement,
            Commit::Replace { target, field, stamp },
        )
    }

    /// What the surface is titled.
    pub fn title(&self) -> (r: &str)
        ensures
            r@ == self@.title,
    {
        &self.title
    }

    /// Where it renders, which is the surface's own say and not the drawing's.
    pub fn placement(&self) -> (r: Placement)
        ensures
            r == self@.placement,
    {
        self.placement
    }

    /// Its fields, in the order they are filled in.
    pub fn fields(&self) -> (r: &Vec<Field>)
        ensures
            fields_shown(r@) == self@.fields,
    {
        &self.fields
    }

    /// Which of them the keyboard is in.
    ///
    /// Invariant: always a field this surface actually holds. A conditional field
    /// that disappears can leave the stored index past the end of what is left, so
    /// the clamp lives here, where the focus is read.
    pub fn focus(&self) -> (r: usize)
        ensures
            r == self@.spec_focus(),
            self@.fields.len() > 0 ==> r < self@.fields.len(),
    {
        if self.focus < self.fields.len() {
            self.focus
        } else if self.fields.len() > 0 {
            self.fields.len() - 1
        } else {
            0
        }
    }

    /// Its shape, to the precision a key's meaning turns on: how many fields it
    /// holds, and what kind of field the focused one is.
    ///
    /// Recomputed on every ask rather than captured when the surface opens: the
    /// focus moves and a field may come and go. A surface with no fields is not a
    /// surface, and the one-line kind is the answer that holds no line break.
    pub fn shape(&self) -> (r: Form)
        ensures
            r == self@.spec_shape(),
    {
        let focus = self.focus();
        Form {
            fields: Fields::of(self.fields.len()),
            kind: if self.fields.len() > 0 {
                self.fields[focus].kind()
            } else {
                FieldKind::OneLine
            },
        }
    }

    /// Put the keyboard in the next or the previous field, wrapping round at
    /// either end.
    ///
    /// Wrapping because the forward key alone must reach every field: accepting is
    /// the save key's, so the end of the fields is not the end of filling them in.
    pub fn move_focus(&mut self, forwards: bool)
        ensures
            final(self)@ == old(self)@.focus_moved(forwards),
    {
        if self.fields.len() == 0 {
            return ;
        }
        let last: usize = self.fields.len() - 1;
        if forwards {
            if self.focus >= last {
                self.focus = 0;
            } else {
                self.focus = self.focus + 1;
            }
        } else {
            if self.focus == 0 {
                self.focus = last;
            } else {
                self.focus = self.focus - 1;
            }
        }
    }

    /// The field a warning about lost text names: the first one with typing in it,
    /// and `None` for a surface nothing has been typed into — which is what makes
    /// the way out ask on one and not on the other.
    pub fn dirtied(&self) -> (r: Option<usize>)
        ensures
            r matches Some(i) ==> i < self@.fields.len(),
            (match r {
                Some(i) => self@.spec_dirtied() == Some(i as int),
                None => self@.spec_dirtied() is None,
            }),
    {
        let mut i: usize = 0;
        while i < self.fields.len()
            invariant
                i <= self.fields.len(),
                forall|j: int| 0 <= j < i ==> !is_dirtied()(#[trigger] self@.fields[j]),
            decreases self.fields.len() - i,
        {
            if self.fields[i].dirty {
                proof {
                    lemma_first_field(self@.fields, is_dirtied(), i as int);
                }
                return Some(i);
            }
            i += 1;
        }
        proof {
            lemma_first_field(self@.fields, is_dirtied(), i as int);
        }
        None
    }

    /// The first required field left empty, which is the one an accept must warn
    /// about and land the reader back in.
    ///
    /// Every field is looked at, not only the one the keyboard is in: a form is
    /// accepted from wherever the reader happens to be standing.
    pub fn unfilled(&self) -> (r: Option<usize>)
        ensures
            r matches Some(i) ==> i < self@.fields.len(),
            (match r {
                Some(i) => self@.spec_unfilled() == Some(i as int),
                None => self@.spec_unfilled() is None,
            }),
    {
        let mut i: usize = 0;
        while i < self.fields.len()
            invariant
                i <= self.fields.len(),
                forall|j: int| 0 <= j < i ==> !is_unfilled()(#[trigger] self@.fields[j]),
            decreases self.fields.len() - i,
        {
            if self.fields[i].unfilled() {
                proof {
                    lemma_first_field(self@.fields, is_unfilled(), i as int);
                }
                return Some(i);
            }
            i += 1;
        }
        proof {
            lemma_first_field(self@.fields, is_unfilled(), i as int);
        }
        None
    }

    /// The first field whose value the browser itself will not send, and why; see
    /// [`Check`]. Every field, for the same reason every one is checked for being
    /// empty.
    pub fn rejected(&self) -> (r: Option<(usize, String)>)
        ensures
            (match r {
                Some((i, why)) => i < self@.fields.len() && self@.spec_rejected() == Some(i as int)
                    && self@.fields[i as int].spec_rejected() == Some(why@),
                None => self@.spec_rejected() is None,
            }),
    {
        let mut i: usize = 0;
        while i < self.fields.len()
            invariant
                i <= self.fields.len(),
                forall|j: int| 0 <= j < i ==> !is_rejected()(#[trigger] self@.fields[j]),
            decreases self.fields.len() - i,
        {
            if let Some(why) = self.fields[i].rejected() {
                proof {
                    lemma_first_field(self@.fields, is_rejected(), i as int);
                }
                return Some((i, why));
            }
            i += 1;
        }
        proof {
            lemma_first_field(self@.fields, is_rejected(), i as int);
        }
        None
    }

    /// Give the focused field a key's intent, and bring the field list back in line
    /// with what the fields now hold.
    ///
    /// The one door into a field: every key that belongs to a field arrives here, so
    /// a pick that reveals or hides a conditional field cannot land without the
    /// surface being revised for it.
    pub fn apply(&mut self, action: Action)
        requires
            old(self)@.wf(),
        ensures
            final(self)@ == old(self)@.applied(action),
            final(self)@.wf(),
    {
        let focus = self.focus();
        assert(self@.fields[focus as int].wf());
        let mut field = self.fields[focus].clone();
        field.apply(action);
        self.put(focus, field);
        self.revise();
    }

    /// Take an external editor's result into the focused field.
    pub fn take_back(&mut self, text: &str)
        requires
            old(self)@.wf(),
        ensures
            final(self)@ == old(self)@.replaced(text@),
            final(self)@.wf(),
    {
        let focus = self.focus();
        assert(self@.fields[focus as int].wf());
        let mut field = self.fields[focus].clone();
        field.replace(text);
        self.put(focus, field);
    }

    /// Put one field where another was.
    fn put(&mut self, index: usize, field: Field)
        requires
            old(self)@.wf(),
            index < old(self)@.fields.len(),
            field@.wf(),
        ensures
            final(self)@ == old(self)@.with_field(index as int, field@),
            final(self)@.wf(),
    {
        self.fields.set(index, field);
        assert(self@.fields =~= old(self)@.fields.update(index as int, field@));
    }

    /// The first field made of text, if there is one.
    fn text_field(&self) -> (r: Option<usize>)
        ensures
            (match r {
                Some(i) => i < self@.fields.len() && first_field(self@.fields, is_text()) == Some(
                    i as int,
                ) && self@.fields[i as int].spec_text() is Some,
                None => first_field(self@.fields, is_text()) is None,
            }),
    {
        let mut i: usize = 0;
        while i < self.fields.len()
            invariant
                i <= self.fields.len(),
                forall|j: int| 0 <= j < i ==> !is_text()(#[trigger] self@.fields[j]),
            decreases self.fields.len() - i,
        {
            if self.fields[i].text().is_some() {
                proof {
                    lemma_first_field(self@.fields, is_text(), i as int);
                }
                return Some(i);
            }
            i += 1;
        }
        proof {
            lemma_first_field(self@.fields, is_text(), i as int);
        }
        None
    }

    /// Its cascade field, if it has one; see [`Surface::revise`].
    fn cascade_field(&self) -> (r: Option<usize>)
        ensures
            (match r {
                Some(i) => i < self@.fields.len() && first_field(self@.fields, is_cascade())
                    == Some(i as int),
                None => first_field(self@.fields, is_cascade()) is None,
            }),
    {
        let mut i: usize = 0;
        while i < self.fields.len()
            invariant
                i <= self.fields.len(),
                forall|j: int| 0 <= j < i ==> !is_cascade()(#[trigger] self@.fields[j]),
            decreases self.fields.len() - i,
        {
            if let Some(Choice::Cascade(_)) = self.fields[i].chosen() {
                proof {
                    lemma_first_field(self@.fields, is_cascade(), i as int);
                }
                return Some(i);
            }
            i += 1;
        }
        proof {
            lemma_first_field(self@.fields, is_cascade(), i as int);
        }
        None
    }

    /// Bring the fields in line with what its picker now holds: a state that says
    /// why reveals a reason, and closing a unit of work that still has open
    /// descendants offers to close them too, naming how many.
    ///
    /// Invariant: a surface holds exactly the fields on screen. A field appears the
    /// moment the mark lands on a value that wants it and goes the moment the mark
    /// moves off, so it can never hold text the reader cannot see — coming back asks
    /// afresh. A field that is still wanted is carried over rather than rebuilt,
    /// because this runs after every keystroke.
    ///
    /// Only a state surface has anything to revise; every other surface's fields are
    /// fixed when it opens.
    pub fn revise(&mut self)
        requires
            old(self)@.wf(),
        ensures
            final(self)@ == old(self)@.revised(),
            final(self)@.wf(),
    {
        let (current, open_descendants) = match &self.commit {
            Commit::SetState { current, open_descendants, .. } => (*current, *open_descendants),
            _ => return ,
        };
        let ghost before = self@;
        let state = self.picked_state(current);
        let reason: Option<Field> = match self.text_field() {
            Some(i) => Some(self.fields[i].clone()),
            None => None,
        };
        let cascade: Option<Field> = match self.cascade_field() {
            Some(i) => Some(self.fields[i].clone()),
            None => None,
        };
        let mut fields: Vec<Field> = Vec::new();
        fields.push(self.fields[0].clone());
        assert(fields_shown(fields@) =~= before.fields.take(1));
        assert(before.fields[0].wf());
        if state.needs_reason() {
            let field = match reason {
                Some(field) => field,
                None => Field::new(REASON_FIELD, true, Lines::One),
            };
            proof {
                the_first_field_is_of_its_kind(before.fields, is_text());
                lemma_fields_push(fields@, field);
            }
            fields.push(field);
        }
        // Only where there is something for it to close: a leaf, or a row whose
        // descendants are all resolved already, is closed without a question.
        if state.cascades() && open_descendants > 0 {
            let field = match cascade {
                Some(field) => field,
                None => {
                    let mut options: Vec<Choice> = Vec::new();
                    options.push(Choice::Cascade(false));
                    options.push(Choice::Cascade(true));
                    assert(options@ =~= seq![Choice::Cascade(false), Choice::Cascade(true)]);
                    Field::pick(&cascade_label(open_descendants), options, Choice::Cascade(false))
                },
            };
            proof {
                the_first_field_is_of_its_kind(before.fields, is_cascade());
                lemma_fields_push(fields@, field);
            }
            fields.push(field);
        }
        self.fields = fields;
        // The list may be shorter than it was, so the stored focus is brought back
        // inside it here as well as clamped where it is read: a field that vanished
        // must not leave the keyboard pointing past the end, nor jump back to a
        // field that reappears later.
        let focus = self.focus();
        self.focus = focus;
    }

    /// The state its picker holds.
    ///
    /// Invariant: a state surface leads with its picker and keeps it there while the
    /// fields after it come and go. A surface that had lost its picker falls back to
    /// the state the row is already in, and any other kind of surface has no state
    /// at all.
    fn picked_state(&self, current: State) -> (r: State)
        ensures
            r == self@.spec_picked_state(current),
    {
        if self.fields.len() > 0 {
            match self.fields[0].chosen() {
                Some(Choice::State(state)) => state,
                _ => current,
            }
        } else {
            current
        }
    }

    /// Whether its cascade field says to close the row's open descendants too. No
    /// wherever the field is not revealed, which is the store's own default.
    fn cascading(&self) -> (r: bool)
        ensures
            r == self@.spec_cascading(),
    {
        match self.cascade_field() {
            Some(i) => matches!(self.fields[i].chosen(), Some(Choice::Cascade(true))),
            None => false,
        }
    }

    /// What its one field of text holds, and nothing where it has none revealed —
    /// which is what a state that says nothing about why sends as its reason.
    fn typed(&self) -> (r: String)
        ensures
            r@ == self@.spec_typed(),
    {
        match self.text_field() {
            Some(i) => match self.fields[i].text() {
                Some(text) => text.to_owned(),
                None => String::new(),
            },
            None => String::new(),
        }
    }

    /// What the field in this position holds, and nothing where the surface has no
    /// such field or that field is not made of text.
    fn text_at(&self, index: usize) -> (r: String)
        ensures
            r@ == self@.spec_text_at(index as int),
    {
        if index < self.fields.len() {
            match self.fields[index].text() {
                Some(text) => text.to_owned(),
                None => String::new(),
            }
        } else {
            String::new()
        }
    }

    /// The name and the summary a creation form ends with, whatever it asks for in
    /// front of them.
    ///
    /// Read from the end rather than from a position counted per form, so a form
    /// that leads with something of its own and one that does not read the same
    /// pair.
    fn named(&self) -> (r: (String, String))
        ensures
            r.0@ == self@.spec_text_at(self@.naming_at()),
            r.1@ == self@.spec_text_at(self@.naming_at() + 1),
    {
        let at: usize = if self.fields.len() < 2 {
            0
        } else {
            self.fields.len() - 2
        };
        (self.text_at(at), self.text_at(at + 1))
    }

    /// The token a store has to read before the surface can be accepted: the
    /// reference a blocker was typed as, without the blanks around it. `None` for a
    /// surface whose write needs nothing read.
    pub fn token(&self) -> (r: Option<String>)
        ensures
            crate::data::entity::text_in(r) == self@.spec_token(),
    {
        match &self.commit {
            Commit::AddBlocker(_) => Some(trim(&self.typed())),
            _ => None,
        }
    }

    /// The write accepting the surface performs, and what the notice says once it
    /// is committed.
    ///
    /// The notice names what the surface held, because by the time it is read the
    /// surface is gone: a label, a blocker as the store records it, a holder, the
    /// row and the state it is now in. `reading` is what the store makes of the
    /// surface's token, and is looked at only where it has one.
    pub fn write(&self, reading: &Reading) -> (r: (Write, String))
        ensures
            r.0@ == self@.spec_write(viewed(*reading)).0,
            r.1@ == self@.spec_write(viewed(*reading)).1,
    {
        match &self.commit {
            Commit::CreateEpic => {
                let id = self.text_at(0);
                let (name, summary) = self.named();
                let done = joined3("epic ", &id, " created");
                (Write::CreateEpic { epic: Selection::Epic(id), name, summary }, done)
            },
            Commit::CreateNode(parent) => {
                let (name, summary) = self.named();
                (
                    Write::CreateNode { parent: parent.clone(), name, summary },
                    joined(
                        &joined3(node_noun(parent), " on ", &parent.reference()),
                        " added",
                    ),
                )
            },
            Commit::AddLabel(set) => {
                let label = self.typed();
                let done = joined3("label ", &label, " added");
                (Write::AddLabel(set.clone(), label), done)
            },
            Commit::AddBlocker(list) => {
                let reference = self.typed();
                let done = joined3(
                    "blocker ",
                    &blocker_name(list, &reference, reading),
                    " added",
                );
                (Write::AddBlocker(list.clone(), reference), done)
            },
            Commit::AddComment(list) => (
                Write::AddComment(list.clone(), self.typed()),
                joined3("comment on ", &list.reference(), " added"),
            ),
            Commit::TakeClaim(node) => {
                let holder = self.typed();
                let done = joined(
                    &joined3("claim on ", &node.reference(), " taken by "),
                    &holder,
                );
                (Write::TakeClaim(node.clone(), holder), done)
            },
            Commit::SetState { target, current, .. } => {
                let state = self.picked_state(*current);
                (
                    Write::SetState {
                        target: target.clone(),
                        state,
                        reason: self.typed(),
                        cascade: self.cascading(),
                    },
                    joined3(&target.reference(), " is now ", state.wire_name()),
                )
            },
            Commit::Replace { target, field, stamp } => (
                Write::Replace {
                    target: target.clone(),
                    field: *field,
                    value: self.typed(),
                    expect: Some(*stamp),
                },
                joined(
                    &joined3(field.noun(), " of ", &target.reference()),
                    " saved",
                ),
            ),
        }
    }
}

/// Adding a field shows one field more.
proof fn lemma_fields_push(fields: Seq<Field>, field: Field)
    ensures
        fields_shown(fields.push(field)) == fields_shown(fields).push(field@),
{
    assert(fields_shown(fields.push(field)) =~= fields_shown(fields).push(field@));
}

/// The keyboard is always in a field the surface holds.
pub proof fn the_focus_names_a_held_field(surface: SurfaceModel)
    requires
        surface.wf(),
    ensures
        0 <= surface.spec_focus() < surface.fields.len(),
{
}

/// The surface after some forward moves between its fields.
pub open spec fn moved_forwards(surface: SurfaceModel, moves: nat) -> SurfaceModel
    decreases moves,
{
    if moves == 0 {
        surface
    } else {
        moved_forwards(surface, (moves - 1) as nat).focus_moved(true)
    }
}

/// The fields are a ring: after any number of forward moves the keyboard is that many
/// fields on, counted round, and nothing but the focus has changed. So the forward key
/// alone reaches every field, and as many moves as there are fields come back to the
/// one they started from.
pub proof fn the_fields_are_a_ring(surface: SurfaceModel, moves: nat)
    requires
        0 <= surface.focus < surface.fields.len() <= usize::MAX,
    ensures
        moved_forwards(surface, moves) == surface.focused_on(
            (surface.focus + moves) % surface.fields.len() as int,
        ),
    decreases moves,
{
    let count = surface.fields.len() as int;
    if moves > 0 {
        the_fields_are_a_ring(surface, (moves - 1) as nat);
        let before = (surface.focus + moves - 1) % count;
        vstd::arithmetic::div_mod::lemma_mod_bound(surface.focus + moves - 1, count);
        vstd::arithmetic::div_mod::lemma_add_mod_noop(surface.focus + moves - 1, 1, count);
        if count > 1 {
            vstd::arithmetic::div_mod::lemma_small_mod(1, count as nat);
        }
        if before + 1 < count {
            vstd::arithmetic::div_mod::lemma_small_mod((before + 1) as nat, count as nat);
        } else {
            vstd::arithmetic::div_mod::lemma_mod_self_0(count);
        }
    } else {
        vstd::arithmetic::div_mod::lemma_small_mod(surface.focus as nat, count as nat);
    }
}

/// The backward key undoes the forward one, and the forward key the backward one.
pub proof fn the_two_field_keys_undo_each_other(surface: SurfaceModel)
    requires
        0 <= surface.focus < surface.fields.len() <= usize::MAX,
    ensures
        surface.focus_moved(true).focus_moved(false) == surface,
        surface.focus_moved(false).focus_moved(true) == surface,
{
}

/// Every field is reached by the forward key alone.
pub proof fn the_forward_key_reaches_every_field(surface: SurfaceModel, field: int)
    requires
        0 <= surface.focus < surface.fields.len() <= usize::MAX,
        0 <= field < surface.fields.len(),
    ensures
        exists|moves: nat|
            moves < surface.fields.len() && #[trigger] moved_forwards(surface, moves)
                == surface.focused_on(field),
{
    let count = surface.fields.len() as int;
    let moves = (if field >= surface.focus {
        field - surface.focus
    } else {
        field + count - surface.focus
    }) as nat;
    the_fields_are_a_ring(surface, moves);
    if field >= surface.focus {
        vstd::arithmetic::div_mod::lemma_small_mod(field as nat, count as nat);
    } else {
        vstd::arithmetic::div_mod::lemma_mod_add_multiples_vanish(field, count);
        vstd::arithmetic::div_mod::lemma_small_mod(field as nat, count as nat);
    }
    assert(moved_forwards(surface, moves) == surface.focused_on(field));
}

/// A state surface holds its picker and exactly the fields the picked state wants
/// after it: a reason where the state says why, and the question of a cascade where
/// the state can take open descendants and there are some.
pub proof fn a_state_surface_holds_exactly_the_fields_its_state_wants(surface: SurfaceModel)
    requires
        surface.fields.len() > 0,
        surface.commit is SetState,
    ensures
        ({
            let state = surface.spec_picked_state(surface.commit->current);
            let asks_why = state.says_why();
            let asks_to_cascade = state.takes_descendants() && surface.commit->open_descendants
                > 0;
            let fields = surface.revised().fields;
            &&& fields[0] == surface.fields[0]
            &&& fields.len() == 1 + (if asks_why {
                1int
            } else {
                0
            }) + (if asks_to_cascade {
                1int
            } else {
                0
            })
            &&& asks_why ==> fields[1].spec_text() is Some
            &&& asks_to_cascade ==> fields[2].spec_chosen() matches Some(Choice::Cascade(_))
        }),
{
    the_first_field_is_of_its_kind(surface.fields, is_text());
    the_first_field_is_of_its_kind(surface.fields, is_cascade());
    let options = seq![Choice::Cascade(false), Choice::Cascade(true)];
    assert(options[0] == Choice::Cascade(false));
}

/// A reason the reader typed survives every pick that still wants one, and so does
/// the cascade: a field that is still wanted is carried over rather than rebuilt.
pub proof fn a_field_still_wanted_is_carried_over(surface: SurfaceModel)
    requires
        surface.fields.len() > 0,
        surface.commit is SetState,
    ensures
        ({
            let state = surface.spec_picked_state(surface.commit->current);
            &&& state.says_why() ==> (first_field(surface.fields, is_text()) matches Some(i)
                ==> surface.revised().fields[1] == surface.fields[i])
            &&& state.takes_descendants() && surface.commit->open_descendants > 0 ==> (first_field(
                surface.fields,
                is_cascade(),
            ) matches Some(i) ==> surface.revised().fields[2] == surface.fields[i])
        }),
{
}

/// Bringing the fields in line leaves them in line: doing it again changes nothing.
pub proof fn a_revised_surface_is_settled(surface: SurfaceModel)
    requires
        surface.leads_with_its_picker(),
    ensures
        surface.revised().settled(),
{
    if let Commit::SetState { current, open_descendants, .. } = surface.commit {
        let once = surface.revised();
        let state = surface.spec_picked_state(current);
        the_first_field_is_of_its_kind(surface.fields, is_text());
        the_first_field_is_of_its_kind(surface.fields, is_cascade());
        let options = seq![Choice::Cascade(false), Choice::Cascade(true)];
        assert(options[0] == Choice::Cascade(false));
        assert(once.fields[0] == surface.fields[0]);
        assert(once.spec_picked_state(current) == state);
        if state.says_why() {
            assert(is_text()(once.fields[1]));
            lemma_first_field(once.fields, is_text(), 1);
        }
        if state.takes_descendants() && open_descendants > 0 {
            let last = once.fields.len() - 1;
            assert(is_cascade()(once.fields[last]));
            lemma_first_field(once.fields, is_cascade(), last);
        }
        assert(once.wanted(state, open_descendants) =~= once.fields);
        assert(once.revised() =~= once);
    }
}

/// Every surface opens with its fields in line with what it holds.
pub proof fn a_surface_opens_settled(
    target: Selection<Text>,
    container: Text,
    field: Replaceable,
    value: Text,
    stamp: Stamp,
    read: StateTarget<Text, Seq<State>>,
)
    ensures
        SurfaceModel::creating_epic().settled(),
        SurfaceModel::creating_node(target).settled(),
        SurfaceModel::adding_label(target, container).settled(),
        SurfaceModel::adding_blocker(target, container).settled(),
        SurfaceModel::adding_comment(target, container).settled(),
        SurfaceModel::taking_claim(target).settled(),
        SurfaceModel::replacing(field, target, value, stamp).settled(),
        SurfaceModel::setting_state(read).settled(),
{
    let opened = SurfaceModel::one_field(
        " status of "@ + read.selection.spec_reference() + " "@,
        FieldModel::picking(
            STATE_FIELD@,
            read.offered.map_values(|state: State| Choice::State(state)),
            Choice::State(read.current),
        ),
        Placement::Float,
        Commit::SetState {
            target: read.selection,
            current: read.current,
            open_descendants: read.open_descendants,
        },
    );
    a_revised_surface_is_settled(opened);
}

/// No key, no move between the fields and no editor's result leaves a surface out of
/// line with what it holds.
pub proof fn every_door_leaves_a_surface_settled(
    surface: SurfaceModel,
    action: Action,
    forwards: bool,
    text: Text,
)
    requires
        surface.wf(),
        surface.settled(),
        surface.fields.len() <= usize::MAX,
    ensures
        surface.applied(action).settled(),
        surface.focus_moved(forwards).settled(),
        surface.replaced(text).settled(),
{
    let at = surface.spec_focus();
    a_revised_surface_is_settled(surface.with_field(at, surface.fields[at].applied(action)));
    let moved = surface.focus_moved(forwards);
    if surface.focus < surface.fields.len() || forwards || surface.focus == 0 {
        focusing_keeps_a_surface_settled(surface, moved.focus as int);
    }
    if surface.commit is SetState {
        rewriting_keeps_a_surface_settled(surface, text);
    }
}

/// Putting the keyboard in another field leaves the fields in line.
pub proof fn focusing_keeps_a_surface_settled(surface: SurfaceModel, field: int)
    requires
        0 <= field < surface.fields.len() <= usize::MAX,
        surface.settled(),
    ensures
        surface.focused_on(field).settled(),
{
    let moved = surface.focused_on(field);
    if let Commit::SetState { current, open_descendants, .. } = surface.commit {
        let state = surface.spec_picked_state(current);
        assert(surface.revised().fields == surface.wanted(state, open_descendants));
        assert(moved.wanted(state, open_descendants) == surface.wanted(state, open_descendants));
        assert(moved.revised() =~= moved);
    }
}

proof fn rewriting_keeps_a_surface_settled(surface: SurfaceModel, text: Text)
    requires
        surface.fields.len() > 0,
        surface.settled(),
        surface.commit is SetState,
    ensures
        surface.replaced(text).settled(),
{
    let back = surface.replaced(text);
    let state = surface.spec_picked_state(surface.commit->current);
    let open = surface.commit->open_descendants;
    assert(back.spec_picked_state(surface.commit->current) == state);
    the_first_field_is_of_its_kind(surface.fields, is_text());
    the_first_field_is_of_its_kind(surface.fields, is_cascade());
    same_kinds_same_first(surface.fields, back.fields, is_text());
    same_kinds_same_first(surface.fields, back.fields, is_cascade());
    let held = surface.wanted(state, open);
    assert(surface.revised().fields == held);
    assert(held == surface.fields);
    assert forall|i: int| 0 <= i < back.fields.len() implies back.wanted(state, open)[i]
        == back.fields[i] by {
        assert(held[i] == surface.fields[i]);
    }
    assert(back.wanted(state, open) =~= back.fields);
    assert(back.revised() =~= back);
}

/// Two lists of fields of the same kinds have their first of a kind in one place.
proof fn same_kinds_same_first(
    a: Seq<FieldModel>,
    b: Seq<FieldModel>,
    wanted: spec_fn(FieldModel) -> bool,
)
    requires
        a.len() == b.len(),
        forall|i: int| 0 <= i < a.len() ==> wanted(#[trigger] a[i]) == wanted(b[i]),
    ensures
        first_field(a, wanted) == first_field(b, wanted),
    decreases a.len(),
{
    if a.len() > 0 {
        assert(wanted(a[0]) == wanted(b[0]));
        assert forall|i: int| 0 <= i < a.drop_first().len() implies wanted(
            #[trigger] a.drop_first()[i],
        ) == wanted(b.drop_first()[i]) by {
            assert(wanted(a[i + 1]) == wanted(b[i + 1]));
        }
        same_kinds_same_first(a.drop_first(), b.drop_first(), wanted);
    }
}

/// A key and an editor's result reach the field the keyboard is in and no other, and
/// moving between the fields reaches none.
pub proof fn only_the_field_in_focus_is_written(
    surface: SurfaceModel,
    action: Action,
    forwards: bool,
    text: Text,
    other: int,
)
    requires
        surface.wf(),
        0 <= other < surface.fields.len(),
        other != surface.spec_focus(),
    ensures
        !(surface.commit is SetState) ==> surface.applied(action).fields[other]
            == surface.fields[other],
        surface.replaced(text).fields[other] == surface.fields[other],
        surface.focus_moved(forwards).fields == surface.fields,
{
}

/// What a surface replaces names as its precondition the stamp its text was read
/// at, and no other surface's write names one.
pub proof fn only_a_replacement_carries_its_stamp(
    surface: SurfaceModel,
    reading: Result<NodeRef<Text>, Text>,
)
    ensures
        surface.spec_write(reading).0.precondition() == (match surface.commit {
            Commit::Replace { stamp, .. } => Some(stamp),
            _ => None,
        }),
{
}

/// A state surface sends only what is on screen: a reason only for a state that says
/// why, and a cascade only where the state can take open descendants and there are
/// some.
pub proof fn a_state_surface_sends_only_what_is_on_screen(
    surface: SurfaceModel,
    reading: Result<NodeRef<Text>, Text>,
)
    requires
        surface.settled(),
        surface.commit is SetState,
    ensures
        surface.spec_write(reading).0 matches Write::SetState { state, reason, cascade, .. } && {
            &&& reason.len() > 0 ==> state.says_why()
            &&& cascade ==> state.takes_descendants() && surface.commit->open_descendants > 0
        },
{
    let current = surface.commit->current;
    let open = surface.commit->open_descendants;
    let state = surface.spec_picked_state(current);
    assert(surface.revised().fields == surface.wanted(state, open));
    the_first_field_is_of_its_kind(surface.fields, is_text());
    the_first_field_is_of_its_kind(surface.fields, is_cascade());
    if !state.says_why() {
        assert(surface.fields.len() == 1);
        assert(!is_text()(surface.fields[0]));
    }
    if !(state.takes_descendants() && open > 0) {
        if let Some(i) = first_field(surface.fields, is_cascade()) {
            assert(is_cascade()(surface.fields[i]));
            if i == 1 {
                assert(is_text()(surface.fields[1]));
            }
        }
    }
}

/// An empty field as a reader meets it, spelled out.
pub open spec fn blank_field(
    label: Text,
    required: bool,
    check: Check,
    lines: Lines,
) -> FieldModel {
    Field {
        label,
        required,
        check,
        content: Content::Text { value: Seq::empty(), cursor: 0, lines },
        dirty: false,
    }
}

/// Each creation form asks for what the store needs, in the order it is filled in: an
/// epic for its id, its name and its summary, a ticket for its name and its summary;
/// a summary alone may be left empty. The keyboard starts in the first field.
pub proof fn a_creation_form_asks_for_a_name_and_a_summary(parent: Selection<Text>)
    ensures
        ({
            let form = SurfaceModel::creating_epic();
            &&& form.title == " new epic "@
            &&& form.fields.len() == 3
            &&& form.fields[0] == blank_field("epic id"@, true, Check::EpicId, Lines::One)
            &&& form.fields[1] == blank_field("name"@, true, Check::Store, Lines::One)
            &&& form.fields[2] == blank_field("summary"@, false, Check::Store, Lines::One)
            &&& form.focus == 0
            &&& form.placement == Placement::Float
            &&& form.commit is CreateEpic
        }),
        ({
            let form = SurfaceModel::creating_node(parent);
            &&& form.title == (if parent is Node {
                " new "@ + "subticket"@ + " on "@ + parent.spec_reference() + " "@
            } else {
                " new "@ + "ticket"@ + " on "@ + parent.spec_reference() + " "@
            })
            &&& form.fields.len() == 2
            &&& form.fields[0] == blank_field("name"@, true, Check::Store, Lines::One)
            &&& form.fields[1] == blank_field("summary"@, false, Check::Store, Lines::One)
            &&& form.focus == 0
            &&& form.placement == Placement::Float
            &&& form.commit == Commit::CreateNode(parent)
        }),
{
}

/// Each addition asks for one required thing, named for what it is: a label, a
/// reference and a claim's holder in one line over everything, a comment in as many
/// lines as are written, in the pane.
pub proof fn an_addition_asks_for_one_required_thing(target: Selection<Text>, container: Text)
    ensures
        SurfaceModel::adding_label(target, container) == (Surface {
            title: " new label on "@ + container + " "@,
            fields: seq![blank_field("label"@, true, Check::Store, Lines::One)],
            focus: 0,
            placement: Placement::Float,
            commit: Commit::AddLabel(target),
        }),
        SurfaceModel::adding_blocker(target, container) == (Surface {
            title: " new blocker on "@ + container + " "@,
            fields: seq![
                blank_field(
                    "blocker reference (number or epic/number)"@,
                    true,
                    Check::Store,
                    Lines::One,
                ),
            ],
            focus: 0,
            placement: Placement::Float,
            commit: Commit::AddBlocker(target),
        }),
        SurfaceModel::adding_comment(target, container) == (Surface {
            title: " new comment on "@ + container + " "@,
            fields: seq![blank_field("comment"@, true, Check::Store, Lines::Many)],
            focus: 0,
            placement: Placement::Pane,
            commit: Commit::AddComment(target),
        }),
        SurfaceModel::taking_claim(target) == (Surface {
            title: " claim on "@ + target.spec_reference() + " "@,
            fields: seq![blank_field("claim holder"@, true, Check::Store, Lines::One)],
            focus: 0,
            placement: Placement::Float,
            commit: Commit::TakeClaim(target),
        }),
{
}

/// A replacement opens on the text it replaces, at its top: a name and a summary as one
/// line over everything, a body and a comment's text in the pane; a name and a comment
/// may not be emptied; and the stamp the text was read at travels with it.
pub proof fn a_replacement_opens_on_the_text_it_replaces(
    field: Replaceable,
    target: Selection<Text>,
    value: Text,
    stamp: Stamp,
)
    ensures
        ({
            let buffer = SurfaceModel::replacing(field, target, value, stamp);
            let (word, required, lines, placement) = match field {
                Replaceable::Field(FreeForm::Name) => (
                    "name"@,
                    true,
                    Lines::One,
                    Placement::Float,
                ),
                Replaceable::Field(FreeForm::Summary) => (
                    "summary"@,
                    false,
                    Lines::One,
                    Placement::Float,
                ),
                Replaceable::Field(FreeForm::Body) => (
                    "body"@,
                    false,
                    Lines::Many,
                    Placement::Pane,
                ),
                Replaceable::CommentText => ("text"@, true, Lines::Many, Placement::Pane),
            };
            &&& buffer.title == " "@ + word + " of "@ + target.spec_reference() + " "@
            &&& buffer.fields.len() == 1
            &&& buffer.fields[0].label == word
            &&& buffer.fields[0].required == required
            &&& buffer.fields[0].check == Check::Store
            &&& !buffer.fields[0].dirty
            &&& buffer.fields[0].content == (Content::<Text, Seq<Choice>>::Text {
                value: crate::app::field::sieved(value, lines),
                cursor: 0,
                lines,
            })
            &&& buffer.focus == 0
            &&& buffer.placement == placement
            &&& buffer.commit == (Commit::Replace { target, field, stamp })
        }),
{
}

/// A state surface opens on the states it is offered, marked on the one the row is in,
/// with the fields that state wants after it.
pub proof fn a_state_surface_opens_on_the_state_the_row_is_in(
    target: StateTarget<Text, Seq<State>>,
    i: int,
)
    requires
        0 <= i < target.offered.len() <= usize::MAX,
        target.offered[i] == target.current,
        forall|j: int| 0 <= j < i ==> target.offered[j] != target.current,
    ensures
        ({
            let surface = SurfaceModel::setting_state(target);
            &&& surface.title == " status of "@ + target.selection.spec_reference() + " "@
            &&& surface.placement == Placement::Float
            &&& surface.commit == (Commit::SetState {
                target: target.selection,
                current: target.current,
                open_descendants: target.open_descendants,
            })
            &&& surface.focus == 0
            &&& surface.fields.len() > 0
            &&& surface.fields[0].label == "status"@
            &&& !surface.fields[0].required
            &&& surface.fields[0].content matches Content::Pick { options, at } && {
                &&& at == i
                &&& options.len() == target.offered.len()
                &&& forall|k: int|
                    0 <= k < options.len() ==> options[k] == Choice::State(target.offered[k])
            }
            &&& forall|k: int| 0 <= k < surface.fields.len() ==> !surface.fields[k].dirty
        }),
{
    let options = target.offered.map_values(|state: State| Choice::State(state));
    assert forall|j: int| 0 <= j < i implies options[j] != Choice::State(target.current) by {
        assert(target.offered[j] != target.current);
    }
    crate::app::field::a_picker_opens_on_the_first_match(
        STATE_FIELD@,
        options,
        Choice::State(target.current),
        i,
    );
    let picker = seq![FieldModel::picking(STATE_FIELD@, options, Choice::State(target.current))];
    lemma_first_field(picker, is_text(), 1);
    lemma_first_field(picker, is_cascade(), 1);
}

/// Whether a field is one of text holding a value.
pub open spec fn holds_text(field: FieldModel, value: Text) -> bool {
    field.content matches Content::Text { value: held, .. } && held == value
}

/// Whether a field is a picker marked on a value.
pub open spec fn is_marked(field: FieldModel, choice: Choice) -> bool {
    field.content matches Content::Pick { options, at } && at < options.len() && options[at as int]
        == choice
}

/// Accepting a creation form writes what its fields hold: a new epic is given the id,
/// the name and the summary typed for it, a new ticket the name and the summary, in the
/// container the form was opened on; and the notice names what was made.
pub proof fn a_creation_form_writes_what_its_fields_hold(
    surface: SurfaceModel,
    parent: Selection<Text>,
    id: Text,
    name: Text,
    summary: Text,
    reading: Result<NodeRef<Text>, Text>,
)
    ensures
        ({
            let (write, done) = surface.spec_write(reading);
            let n = surface.fields.len();
            &&& surface.commit is CreateEpic && n == 3 && holds_text(surface.fields[0], id)
                && holds_text(surface.fields[1], name) && holds_text(surface.fields[2], summary)
                ==> write == (Write::CreateEpic { epic: Selection::Epic(id), name, summary })
                && done == "epic "@ + id + " created"@
            &&& surface.commit == Commit::CreateNode(parent) && n == 2 && holds_text(
                surface.fields[0],
                name,
            ) && holds_text(surface.fields[1], summary) ==> write == (Write::CreateNode {
                parent,
                name,
                summary,
            }) && done == (if parent is Node {
                "subticket"@
            } else {
                "ticket"@
            }) + " on "@ + parent.spec_reference() + " added"@
        }),
{
}

/// Accepting a surface with one field of text writes exactly that text, to the row the
/// surface was opened on; and the notice names what was written.
pub proof fn a_surface_of_text_writes_exactly_its_text(
    surface: SurfaceModel,
    target: Selection<Text>,
    value: Text,
    field: Replaceable,
    stamp: Stamp,
    reading: Result<NodeRef<Text>, Text>,
)
    requires
        surface.fields.len() == 1,
        holds_text(surface.fields[0], value),
    ensures
        ({
            let (write, done) = surface.spec_write(reading);
            &&& surface.commit == Commit::AddLabel(target) ==> write == Write::AddLabel(
                target,
                value,
            ) && done == "label "@ + value + " added"@
            &&& surface.commit == Commit::AddBlocker(target) ==> {
                &&& write == Write::AddBlocker(target, value)
                &&& done == "blocker "@ + blocker_called(target, value, reading) + " added"@
                &&& surface.spec_token() == Some(trimmed(value))
            }
            &&& surface.commit == Commit::AddComment(target) ==> write == Write::AddComment(
                target,
                value,
            ) && done == "comment on "@ + target.spec_reference() + " added"@
            &&& surface.commit == Commit::TakeClaim(target) ==> write == Write::TakeClaim(
                target,
                value,
            ) && done == "claim on "@ + target.spec_reference() + " taken by "@ + value
            &&& surface.commit == (Commit::Replace { target, field, stamp }) ==> write == (
            Write::Replace { target, field, value, expect: Some(stamp) }) && done == field.called()
                + " of "@ + target.spec_reference() + " saved"@
        }),
{
    lemma_first_field(surface.fields, is_text(), 0);
}

/// Only a blocker's surface names a reference the store has to read first.
pub proof fn only_a_blocker_is_read_before_it_is_written(surface: SurfaceModel)
    ensures
        surface.spec_token() is Some <==> surface.commit is AddBlocker,
{
}

/// Accepting a state surface writes the state its picker is marked on, the reason its
/// field of text holds, and whether its question of a cascade is answered yes.
pub proof fn a_state_surface_writes_what_it_is_marked_on(
    surface: SurfaceModel,
    target: Selection<Text>,
    current: State,
    open_descendants: usize,
    state: State,
    reason: Text,
    cascade: bool,
    reading: Result<NodeRef<Text>, Text>,
)
    requires
        surface.commit == (Commit::SetState { target, current, open_descendants }),
        surface.fields.len() > 0,
        is_marked(surface.fields[0], Choice::State(state)),
    ensures
        ({
            let (write, done) = surface.spec_write(reading);
            let n = surface.fields.len();
            let asked = n > 1 && holds_text(surface.fields[1], reason);
            &&& done == target.spec_reference() + " is now "@ + state.word()
            &&& n == 1 ==> write == (Write::SetState {
                target,
                state,
                reason: Seq::empty(),
                cascade: false,
            })
            &&& n == 2 && asked ==> write == (Write::SetState {
                target,
                state,
                reason,
                cascade: false,
            })
            &&& n == 3 && asked && is_marked(surface.fields[2], Choice::Cascade(cascade)) ==> write
                == (Write::SetState { target, state, reason, cascade })
        }),
{
    let n = surface.fields.len();
    let asked = n > 1 && holds_text(surface.fields[1], reason);
    assert(!is_text()(surface.fields[0]));
    assert(!is_cascade()(surface.fields[0]));
    if n == 1 {
        lemma_first_field(surface.fields, is_text(), 1);
        lemma_first_field(surface.fields, is_cascade(), 1);
    } else if asked {
        lemma_first_field(surface.fields, is_text(), 1);
        assert(!is_cascade()(surface.fields[1]));
        if n == 2 {
            lemma_first_field(surface.fields, is_cascade(), 2);
        } else if n == 3 && is_marked(surface.fields[2], Choice::Cascade(cascade)) {
            lemma_first_field(surface.fields, is_cascade(), 2);
        }
    }
}

/// A surface with no picker to read writes the state the row was in.
pub proof fn a_surface_without_its_picker_keeps_the_rows_state(
    surface: SurfaceModel,
    current: State,
)
    ensures
        surface.fields.len() == 0 ==> surface.spec_picked_state(current) == current,
        surface.fields.len() > 0 && surface.fields[0].content is Text
            ==> surface.spec_picked_state(current) == current,
        forall|state: State|
            surface.fields.len() > 0 && #[trigger] is_marked(
                surface.fields[0],
                Choice::State(state),
            ) ==> surface.spec_picked_state(current) == state,
{
}

/// Marking a state brings its fields with it: after the picker, which stays, comes a
/// reason for a state that says why — the one being typed, or an empty required line —
/// and, for work being closed over open descendants, the question of a cascade — the
/// one being answered, or one marked no. A field nothing asks for goes.
pub proof fn a_marked_state_brings_its_own_fields(
    surface: SurfaceModel,
    target: Selection<Text>,
    current: State,
    open_descendants: usize,
    state: State,
)
    requires
        surface.commit == (Commit::SetState { target, current, open_descendants }),
        0 < surface.fields.len() <= usize::MAX,
        is_marked(surface.fields[0], Choice::State(state)),
    ensures
        ({
            let after = surface.revised();
            let why = state == State::Work(crate::data::NodeState::Blocked) || state == State::Work(
                crate::data::NodeState::Closed,
            ) || state == State::EpicClosed;
            let asks = state == State::Work(crate::data::NodeState::Closed) && open_descendants
                > 0;
            let n = after.fields.len();
            &&& n == 1 + (if why {
                1int
            } else {
                0
            }) + (if asks {
                1int
            } else {
                0
            })
            &&& after.fields[0] == surface.fields[0]
            &&& after.title == surface.title
            &&& after.placement == surface.placement
            &&& after.commit == surface.commit
            &&& after.focus == (if surface.focus < n {
                surface.focus as int
            } else {
                n - 1
            })
            &&& why && surface.fields.len() > 1 && surface.fields[1].content is Text
                ==> after.fields[1] == surface.fields[1]
            &&& why && (forall|i: int|
                0 <= i < surface.fields.len() ==> (#[trigger] surface.fields[i]).content is Pick)
                ==> after.fields[1] == blank_field("reason"@, true, Check::Store, Lines::One)
            &&& asks && surface.fields.len() == 3 && surface.fields[1].content is Text && (
            is_marked(surface.fields[2], Choice::Cascade(true)) || is_marked(
                surface.fields[2],
                Choice::Cascade(false),
            )) ==> after.fields[2] == surface.fields[2]
            &&& asks && (forall|i: int|
                1 <= i < surface.fields.len() ==> (#[trigger] surface.fields[i]).content is Text)
                ==> after.fields[2] == (Field {
                label: cascade_question(open_descendants as nat),
                required: false,
                check: Check::Store,
                content: Content::Pick {
                    options: seq![Choice::Cascade(false), Choice::Cascade(true)],
                    at: 0,
                },
                dirty: false,
            })
        }),
{
    let n = surface.fields.len() as int;
    assert(!is_text()(surface.fields[0]));
    assert(!is_cascade()(surface.fields[0]));
    if n > 1 && surface.fields[1].content is Text {
        lemma_first_field(surface.fields, is_text(), 1);
        assert(!is_cascade()(surface.fields[1]));
        if n == 3 && (is_marked(surface.fields[2], Choice::Cascade(true)) || is_marked(
            surface.fields[2],
            Choice::Cascade(false),
        )) {
            lemma_first_field(surface.fields, is_cascade(), 2);
        }
    }
    if forall|i: int| 0 <= i < n ==> (#[trigger] surface.fields[i]).content is Pick {
        assert forall|j: int| 0 <= j < n implies !is_text()(#[trigger] surface.fields[j]) by {
            assert(surface.fields[j].content is Pick);
        }
        lemma_first_field(surface.fields, is_text(), n);
    }
    if forall|i: int| 1 <= i < n ==> (#[trigger] surface.fields[i]).content is Text {
        assert forall|j: int| 0 <= j < n implies !is_cascade()(#[trigger] surface.fields[j]) by {
            if j > 0 {
                assert(surface.fields[j].content is Text);
            }
        }
        lemma_first_field(surface.fields, is_cascade(), n);
    }
    let options = seq![Choice::Cascade(false), Choice::Cascade(true)];
    assert(options[0] == Choice::Cascade(false));
    crate::app::field::a_picker_opens_on_the_first_match(
        cascade_question(open_descendants as nat),
        options,
        Choice::Cascade(false),
        0,
    );
}

/// The fields of any other surface are fixed when it opens.
pub proof fn only_a_state_surface_is_revised(surface: SurfaceModel)
    requires
        !(surface.commit is SetState),
    ensures
        surface.revised() == surface,
{
}

/// A key reaches the field the keyboard is in and does there what it does to any field,
/// and so does an editor's result; nothing else of the surface changes, but for what a
/// marked state brings with it.
pub proof fn a_key_reaches_the_field_in_focus(
    surface: SurfaceModel,
    action: Action,
    text: Text,
    at: int,
)
    requires
        surface.fields.len() > 0,
        at == (if surface.focus < surface.fields.len() {
            surface.focus as int
        } else {
            surface.fields.len() - 1
        }),
    ensures
        ({
            let keyed = Surface {
                title: surface.title,
                fields: surface.fields.update(at, surface.fields[at].applied(action)),
                focus: surface.focus,
                placement: surface.placement,
                commit: surface.commit,
            };
            &&& surface.commit is SetState ==> surface.applied(action) == keyed.revised()
            &&& !(surface.commit is SetState) ==> surface.applied(action) == keyed
        }),
        surface.replaced(text) == (Surface {
            title: surface.title,
            fields: surface.fields.update(at, surface.fields[at].replaced(text)),
            focus: surface.focus,
            placement: surface.placement,
            commit: surface.commit,
        }),
        surface.spec_focus() == at,
        surface.spec_shape().fields == (if surface.fields.len() == 1 {
            Fields::One
        } else {
            Fields::Several
        }),
        surface.spec_shape().kind == surface.fields[at].spec_kind(),
{
}

/// A warning names the first field it is about: the first with typing in it, the first
/// required one with nothing to see in it, the first whose value will not be sent.
pub proof fn a_warning_is_about_the_first_such_field(surface: SurfaceModel, i: int)
    requires
        0 <= i <= surface.fields.len(),
    ensures
        (forall|j: int| 0 <= j < i ==> !(#[trigger] surface.fields[j]).dirty) ==> {
            &&& i == surface.fields.len() ==> surface.spec_dirtied() is None
            &&& i < surface.fields.len() && surface.fields[i].dirty ==> surface.spec_dirtied()
                == Some(i)
        },
        (forall|j: int| 0 <= j < i ==> !(#[trigger] surface.fields[j]).spec_unfilled()) ==> {
            &&& i == surface.fields.len() ==> surface.spec_unfilled() is None
            &&& i < surface.fields.len() && surface.fields[i].spec_unfilled()
                ==> surface.spec_unfilled() == Some(i)
        },
        (forall|j: int| 0 <= j < i ==> (#[trigger] surface.fields[j]).spec_rejected() is None)
            ==> {
            &&& i == surface.fields.len() ==> surface.spec_rejected() is None
            &&& i < surface.fields.len() && surface.fields[i].spec_rejected() is Some
                ==> surface.spec_rejected() == Some(i)
        },
{
    let n = surface.fields.len();
    if (forall|j: int| 0 <= j < i ==> !(#[trigger] surface.fields[j]).dirty) && (i == n
        || surface.fields[i].dirty) {
        lemma_first_field(surface.fields, is_dirtied(), i);
    }
    if (forall|j: int| 0 <= j < i ==> !(#[trigger] surface.fields[j]).spec_unfilled()) && (i == n
        || surface.fields[i].spec_unfilled()) {
        lemma_first_field(surface.fields, is_unfilled(), i);
    }
    if (forall|j: int| 0 <= j < i ==> (#[trigger] surface.fields[j]).spec_rejected() is None) && (i
        == n || surface.fields[i].spec_rejected() is Some) {
        lemma_first_field(surface.fields, is_rejected(), i);
    }
}

/// A surface is known by what it holds: its fields in their order, and what accepting it
/// writes with the row it writes to.
pub proof fn a_surface_is_known_by_what_it_holds(
    commit: &Commit,
    surface: &Surface,
    fields: Seq<Field>,
)
    ensures
        commit@ == ({
            match commit {
                Commit::CreateEpic => Commit::CreateEpic,
                Commit::CreateNode(parent) => Commit::CreateNode(parent@),
                Commit::AddLabel(set) => Commit::AddLabel(set@),
                Commit::AddBlocker(list) => Commit::AddBlocker(list@),
                Commit::AddComment(list) => Commit::AddComment(list@),
                Commit::TakeClaim(node) => Commit::TakeClaim(node@),
                Commit::SetState { target, current, open_descendants } => Commit::SetState {
                    target: target@,
                    current: *current,
                    open_descendants: *open_descendants,
                },
                Commit::Replace { target, field, stamp } => Commit::Replace {
                    target: target@,
                    field: *field,
                    stamp: *stamp,
                },
            }
        }),
        surface@ == ({
            Surface {
                title: surface.title@,
                fields: fields_shown(surface.fields@),
                focus: surface.focus,
                placement: surface.placement,
                commit: surface.commit@,
            }
        }),
        fields_shown(fields).len() == fields.len(),
        forall|i: int| 0 <= i < fields.len() ==> fields_shown(fields)[i] == fields[i]@,
{
}

} // verus!

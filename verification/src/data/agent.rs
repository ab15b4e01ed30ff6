//! What an agent picker offers, and whether what was picked can still be launched.
use crate::data::{NodeRef, Selection};
use crate::text::{joined, joined3, Text};
use vstd::prelude::*;

verus! {

/// Where an effective resource's definition came from.
#[derive(Clone, Copy, Debug, PartialEq, Eq, Structural)]
pub enum Origin {
    /// This project.
    Local,
    /// The user's global configuration.
    Global,
}

impl Origin {
    /// The word the origin is shown as.
    pub open spec fn word(self) -> Text {
        match self {
            Origin::Local => "local"@,
            Origin::Global => "global"@,
        }
    }
}

/// One effective resource as a catalog lists it.
#[derive(Debug, PartialEq, Eq)]
pub struct ResourceReading {
    /// The effective resource id.
    pub id: String,
    /// Where the definition that won came from.
    pub origin: Origin,
    /// Whether that definition is one a launch could resolve.
    pub valid: bool,
}

/// One valid resource an agent picker can select. Its id is the value a launch
/// request carries; its origin is only the provenance shown to the reader.
#[derive(Debug, PartialEq, Eq)]
#[verifier::ext_equal]
pub struct AgentChoice<S = String> {
    /// The effective resource id.
    pub id: S,
    /// Whether that effective definition came from this project or the user's
    /// global configuration.
    pub origin: Origin,
}

impl View for AgentChoice {
    type V = AgentChoice<Text>;

    open spec fn view(&self) -> AgentChoice<Text> {
        AgentChoice { id: self.id@, origin: self.origin }
    }
}

impl Clone for AgentChoice {
    fn clone(&self) -> (r: Self)
        ensures
            r == *self,
    {
        AgentChoice { id: self.id.clone(), origin: self.origin }
    }
}

impl AgentChoice<Text> {
    /// The one-line value a picker shows.
    pub open spec fn spec_shown(self) -> Text {
        self.id + " ("@ + self.origin.word() + ")"@
    }
}

impl AgentChoice {
    /// The one-line value a picker shows. The origin remains beside the id so two
    /// otherwise identical-looking catalogs explain which definition won.
    pub fn shown(&self) -> (r: String)
        ensures
            r@ == self@.spec_shown(),
    {
        let origin = match self.origin {
            Origin::Local => "local",
            Origin::Global => "global",
        };
        joined(&joined3(&self.id, " (", origin), ")")
    }
}

/// What a launch is scoped to.
#[derive(Debug, PartialEq, Eq)]
#[verifier::ext_equal]
pub enum LaunchTarget<S = String> {
    /// An epic.
    Epic {
        /// Its id.
        id: S,
        /// What it is called.
        name: S,
    },
    /// A ticket.
    Ticket {
        /// Its reference.
        reference: NodeRef<S>,
        /// What it is called.
        name: S,
    },
}

impl View for LaunchTarget {
    type V = LaunchTarget<Text>;

    open spec fn view(&self) -> LaunchTarget<Text> {
        match self {
            LaunchTarget::Epic { id, name } => LaunchTarget::Epic { id: id@, name: name@ },
            LaunchTarget::Ticket { reference, name } => LaunchTarget::Ticket {
                reference: reference@,
                name: name@,
            },
        }
    }
}

impl Clone for LaunchTarget {
    fn clone(&self) -> (r: Self)
        ensures
            r == *self,
    {
        match self {
            LaunchTarget::Epic { id, name } => LaunchTarget::Epic {
                id: id.clone(),
                name: name.clone(),
            },
            LaunchTarget::Ticket { reference, name } => LaunchTarget::Ticket {
                reference: reference.clone(),
                name: name.clone(),
            },
        }
    }
}

/// The valid effective resources and frozen target gathered when an agent picker
/// is requested. Invalid effective entries are deliberately absent: a picker can
/// only produce a request that later launch preparation can resolve.
#[derive(Debug, PartialEq, Eq)]
#[verifier::ext_equal]
pub struct AgentPicker<S = String, C = Vec<AgentChoice>> {
    /// The epic or ticket the request remains scoped to.
    pub target: LaunchTarget<S>,
    /// Workflows, in the roster's stable effective-id order.
    pub workflows: C,
    /// Agent profiles, in the roster's stable effective-id order.
    pub profiles: C,
}

/// What a list of choices offers.
pub open spec fn choices_shown(choices: Seq<AgentChoice>) -> Seq<AgentChoice<Text>> {
    choices.map_values(|choice: AgentChoice| choice@)
}

impl View for AgentPicker {
    type V = AgentPicker<Text, Seq<AgentChoice<Text>>>;

    open spec fn view(&self) -> AgentPicker<Text, Seq<AgentChoice<Text>>> {
        AgentPicker {
            target: self.target@,
            workflows: choices_shown(self.workflows@),
            profiles: choices_shown(self.profiles@),
        }
    }
}

/// A list of choices, cloned.
fn clone_choices(choices: &Vec<AgentChoice>) -> (r: Vec<AgentChoice>)
    ensures
        r@ == choices@,
{
    let mut out: Vec<AgentChoice> = Vec::new();
    let mut i: usize = 0;
    while i < choices.len()
        invariant
            i <= choices.len(),
            out@ == choices@.take(i as int),
        decreases choices.len() - i,
    {
        out.push(choices[i].clone());
        i += 1;
    }
    out
}

impl Clone for AgentPicker {
    fn clone(&self) -> (r: Self)
        ensures
            r@ == self@,
    {
        AgentPicker {
            target: self.target.clone(),
            workflows: clone_choices(&self.workflows),
            profiles: clone_choices(&self.profiles),
        }
    }
}

impl AgentPicker<Text, Seq<AgentChoice<Text>>> {
    /// Why the picker cannot open, and nothing where it can.
    pub open spec fn missing(self) -> Text {
        if self.workflows.len() == 0 && self.profiles.len() == 0 {
            "no valid workflows or agent profiles are available"@
        } else if self.workflows.len() == 0 {
            "no valid workflows are available"@
        } else if self.profiles.len() == 0 {
            "no valid agent profiles are available"@
        } else {
            Seq::empty()
        }
    }
}

impl AgentPicker {
    /// Whether both values a launch request requires are selectable.
    pub fn is_selectable(&self) -> (r: bool)
        ensures
            r == (self@.workflows.len() > 0 && self@.profiles.len() > 0),
    {
        self.workflows.len() > 0 && self.profiles.len() > 0
    }

    /// Why an empty picker cannot open, in terms of the missing selectable
    /// resources rather than invalid candidates the picker never offered.
    pub fn unavailable_reason(&self) -> (r: String)
        ensures
            r@ == self@.missing(),
    {
        match (self.workflows.len() == 0, self.profiles.len() == 0) {
            (true, true) => "no valid workflows or agent profiles are available".to_owned(),
            (true, false) => "no valid workflows are available".to_owned(),
            (false, true) => "no valid agent profiles are available".to_owned(),
            (false, false) => String::new(),
        }
    }
}

/// The choices a catalog comes to: its valid entries, in its own order.
pub open spec fn selectable(entries: Seq<ResourceReading>) -> Seq<AgentChoice<Text>>
    decreases entries.len(),
{
    if entries.len() == 0 {
        Seq::empty()
    } else if entries.last().valid {
        selectable(entries.drop_last()).push(
            AgentChoice { id: entries.last().id@, origin: entries.last().origin },
        )
    } else {
        selectable(entries.drop_last())
    }
}

/// The valid entries of a catalog, as choices.
fn valid_choices(entries: &Vec<ResourceReading>) -> (r: Vec<AgentChoice>)
    ensures
        choices_shown(r@) == selectable(entries@),
{
    let mut out: Vec<AgentChoice> = Vec::new();
    let mut i: usize = 0;
    assert(choices_shown(out@) =~= Seq::empty());
    assert(entries@.take(0).len() == 0);
    while i < entries.len()
        invariant
            i <= entries.len(),
            choices_shown(out@) == selectable(entries@.take(i as int)),
        decreases entries.len() - i,
    {
        assert(entries@.take(i + 1).drop_last() == entries@.take(i as int));
        if entries[i].valid {
            let choice = AgentChoice { id: entries[i].id.clone(), origin: entries[i].origin };
            assert(choices_shown(out@.push(choice)) =~= choices_shown(out@).push(choice@));
            out.push(choice);
        }
        i += 1;
    }
    assert(entries@.take(entries.len() as int) == entries@);
    out
}

/// What a launch on a selection would be scoped to, given what the store says its
/// entity is called.
pub open spec fn launched_on(selection: Selection<Text>, name: Result<Text, Text>) -> Result<
    LaunchTarget<Text>,
    Text,
> {
    match selection {
        Selection::Epic(id) => match name {
            Ok(name) => Ok(LaunchTarget::Epic { id, name }),
            Err(failure) => Err(failure),
        },
        Selection::Node(reference) => match name {
            Ok(name) => Ok(LaunchTarget::Ticket { reference, name }),
            Err(failure) => Err(failure),
        },
        _ => Err(selection.spec_reference() + " is not an epic or ticket"@),
    }
}

/// What a picker offers, given what the store and the two catalogs returned: the
/// first failure, in the order they are read, where there is one.
pub open spec fn picker_for(
    selection: Selection<Text>,
    name: Result<Text, Text>,
    workflows: Result<Vec<ResourceReading>, String>,
    profiles: Result<Vec<ResourceReading>, String>,
) -> Result<AgentPicker<Text, Seq<AgentChoice<Text>>>, Text> {
    match launched_on(selection, name) {
        Err(why) => Err(why),
        Ok(target) => match workflows {
            Err(failure) => Err(failure@),
            Ok(workflows) => match profiles {
                Err(failure) => Err(failure@),
                Ok(profiles) => Ok(
                    AgentPicker {
                        target,
                        workflows: selectable(workflows@),
                        profiles: selectable(profiles@),
                    },
                ),
            },
        },
    }
}

/// The values an agent-picker surface needs, from what was read for it.
///
/// Only epics and tickets can be launch targets; every structural or metadata
/// selection is refused by name, whatever the readings hold.
pub fn agent_picker(
    selection: &Selection,
    name: Result<String, String>,
    workflows: Result<Vec<ResourceReading>, String>,
    profiles: Result<Vec<ResourceReading>, String>,
) -> (r: Result<AgentPicker, String>)
    ensures
        crate::data::write::viewed(r) == picker_for(
            selection@,
            crate::data::write::viewed(name),
            workflows,
            profiles,
        ),
{
    let target = match selection {
        Selection::Epic(id) => match name {
            Ok(name) => LaunchTarget::Epic { id: id.clone(), name },
            Err(failure) => return Err(failure),
        },
        Selection::Node(reference) => match name {
            Ok(name) => LaunchTarget::Ticket { reference: reference.clone(), name },
            Err(failure) => return Err(failure),
        },
        _ => return Err(joined(&selection.reference(), " is not an epic or ticket")),
    };
    match workflows {
        Err(failure) => Err(failure),
        Ok(workflows) => match profiles {
            Err(failure) => Err(failure),
            Ok(profiles) => Ok(
                AgentPicker {
                    target,
                    workflows: valid_choices(&workflows),
                    profiles: valid_choices(&profiles),
                },
            ),
        },
    }
}

/// What became of a resource that was picked, looked up again.
#[derive(Clone, Copy, Debug, PartialEq, Eq, Structural)]
pub enum Resolution {
    /// It is no longer there.
    Missing,
    /// It is there and can no longer be used.
    Invalid,
    /// It is there and usable.
    Valid,
}

/// Why a picked resource cannot be launched with, and nothing where it can.
pub open spec fn unusable(noun: Text, id: Text, found: Result<Resolution, Text>) -> Option<Text> {
    match found {
        Err(failure) => Some(failure),
        Ok(Resolution::Missing) => Some(noun + " '"@ + id + "' does not exist"@),
        Ok(Resolution::Invalid) => Some(noun + " '"@ + id + "' is invalid"@),
        Ok(Resolution::Valid) => None,
    }
}

/// Why a picked resource cannot be launched with, and nothing where it can.
fn objection_to(noun: &str, id: &str, found: Result<Resolution, String>) -> (r: Option<String>)
    ensures
        crate::data::entity::text_in(r) == unusable(
            noun@,
            id@,
            crate::data::entity::spoken(found),
        ),
{
    match found {
        Err(failure) => Some(failure),
        Ok(Resolution::Missing) => Some(joined(&joined3(noun, " '", id), "' does not exist")),
        Ok(Resolution::Invalid) => Some(joined(&joined3(noun, " '", id), "' is invalid")),
        Ok(Resolution::Valid) => None,
    }
}

/// Whether what was picked can still be launched, or the first reason it cannot:
/// the profile's before the workflow's.
///
/// The picker only carried ids, so looking both up again detects a resource that
/// disappeared or became invalid while it was open.
pub fn prepare_agent_launch(
    workflow: &str,
    profile: &str,
    profile_found: Result<Resolution, String>,
    workflow_found: Result<Resolution, String>,
) -> (r: Result<(), String>)
    ensures
        ({
            let about_the_profile = unusable(
                "agent profile"@,
                profile@,
                crate::data::entity::spoken(profile_found),
            );
            let about_the_workflow = unusable(
                "workflow"@,
                workflow@,
                crate::data::entity::spoken(workflow_found),
            );
            match r {
                Ok(()) => about_the_profile is None && about_the_workflow is None,
                Err(why) => if about_the_profile is Some {
                    about_the_profile == Some(why@)
                } else {
                    about_the_workflow == Some(why@)
                },
            }
        }),
{
    match objection_to("agent profile", profile, profile_found) {
        Some(why) => Err(why),
        None => match objection_to("workflow", workflow, workflow_found) {
            Some(why) => Err(why),
            None => Ok(()),
        },
    }
}

/// A picker gives a reason not to open exactly where it cannot open.
pub proof fn a_picker_explains_itself_exactly_where_it_cannot_open(
    picker: AgentPicker<Text, Seq<AgentChoice<Text>>>,
)
    ensures
        picker.missing().len() == 0 <==> picker.workflows.len() > 0 && picker.profiles.len() > 0,
{
    reveal_strlit("no valid workflows or agent profiles are available");
    reveal_strlit("no valid workflows are available");
    reveal_strlit("no valid agent profiles are available");
}

/// A picker offers only what a launch could resolve: every choice is a valid entry
/// of its catalog.
pub proof fn every_choice_is_a_valid_entry(entries: Seq<ResourceReading>, i: int)
    requires
        0 <= i < selectable(entries).len(),
    ensures
        exists|j: int|
            0 <= j < entries.len() && (#[trigger] entries[j]).valid && entries[j].id@
                == selectable(entries)[i].id && entries[j].origin == selectable(entries)[i].origin,
    decreases entries.len(),
{
    let before = entries.drop_last();
    if i < selectable(before).len() {
        every_choice_is_a_valid_entry(before, i);
        let j = choose|j: int|
            0 <= j < before.len() && (#[trigger] before[j]).valid && before[j].id@
                == selectable(before)[i].id && before[j].origin == selectable(before)[i].origin;
        assert(entries[j] == before[j]);
    } else {
        assert(entries[entries.len() - 1].valid);
    }
}

/// A picker leaves no valid resource out: every valid entry of a catalog is one of
/// its choices.
pub proof fn every_valid_entry_is_a_choice(entries: Seq<ResourceReading>, j: int)
    requires
        0 <= j < entries.len(),
        entries[j].valid,
    ensures
        selectable(entries).contains(AgentChoice { id: entries[j].id@, origin: entries[j].origin }),
    decreases entries.len(),
{
    let before = entries.drop_last();
    let choice = AgentChoice { id: entries[j].id@, origin: entries[j].origin };
    if j < before.len() {
        every_valid_entry_is_a_choice(before, j);
        let i = choose|i: int| 0 <= i < selectable(before).len() && selectable(before)[i] == choice;
        assert(selectable(entries)[i] == choice);
    } else {
        assert(selectable(entries).last() == choice);
    }
}

/// A choice is shown by its id with its origin beside it.
pub proof fn a_choice_is_shown_with_its_origin(id: Text)
    ensures
        (AgentChoice { id, origin: Origin::Local }).spec_shown() == id + " ("@ + "local"@ + ")"@,
        (AgentChoice { id, origin: Origin::Global }).spec_shown() == id + " ("@ + "global"@ + ")"@,
{
}

/// A catalog is judged entry by entry and offered in its own order: a valid entry is a
/// choice of its id and its origin, and an invalid one is none.
pub proof fn a_catalog_is_offered_in_its_own_order(
    a: Seq<ResourceReading>,
    b: Seq<ResourceReading>,
    entry: ResourceReading,
)
    ensures
        selectable(a + b) == selectable(a) + selectable(b),
        entry.valid ==> selectable(seq![entry]) == seq![
            AgentChoice { id: entry.id@, origin: entry.origin },
        ],
        !entry.valid ==> selectable(seq![entry]) == Seq::<AgentChoice<Text>>::empty(),
        selectable(Seq::<ResourceReading>::empty()) == Seq::<AgentChoice<Text>>::empty(),
    decreases b.len(),
{
    let one = seq![entry];
    assert(one.drop_last() =~= Seq::<ResourceReading>::empty());
    assert(selectable(one.drop_last()) =~= Seq::<AgentChoice<Text>>::empty());
    if entry.valid {
        assert(selectable(one) =~= seq![AgentChoice { id: entry.id@, origin: entry.origin }]);
    }
    if b.len() == 0 {
        assert(a + b =~= a);
        assert(selectable(a) + selectable(b) =~= selectable(a));
    } else {
        a_catalog_is_offered_in_its_own_order(a, b.drop_last(), entry);
        assert((a + b).drop_last() =~= a + b.drop_last());
        assert((a + b).last() == b.last());
        assert(selectable(a + b) =~= selectable(a) + selectable(b));
    }
}

/// A launch is scoped to the epic or the ticket it is asked on, under the name the store
/// gives it, with the workflows and the profiles each of its own catalog; no other row
/// can be launched on, and what could not be read is answered in its own words, the
/// first of it.
pub proof fn a_launch_is_scoped_to_the_row_it_is_asked_on(
    selection: Selection<Text>,
    name: Text,
    workflows: Vec<ResourceReading>,
    profiles: Vec<ResourceReading>,
    failure: Text,
    refused: String,
    other: Result<Vec<ResourceReading>, String>,
)
    ensures
        ({
            let offered = picker_for(selection, Ok(name), Ok(workflows), Ok(profiles));
            let entity = selection is Epic || selection is Node;
            &&& entity ==> (offered matches Ok(picker) && {
                &&& selection matches Selection::Epic(id) ==> picker.target
                    == (LaunchTarget::Epic { id, name })
                &&& selection matches Selection::Node(reference) ==> picker.target
                    == (LaunchTarget::Ticket { reference, name })
                &&& picker.workflows == selectable(workflows@)
                &&& picker.profiles == selectable(profiles@)
            })
            &&& entity ==> {
                &&& picker_for(selection, Err(failure), other, other) == Err::<
                    AgentPicker<Text, Seq<AgentChoice<Text>>>,
                    Text,
                >(failure)
                &&& picker_for(selection, Ok(name), Err(refused), other) == Err::<
                    AgentPicker<Text, Seq<AgentChoice<Text>>>,
                    Text,
                >(refused@)
                &&& picker_for(selection, Ok(name), Ok(workflows), Err(refused)) == Err::<
                    AgentPicker<Text, Seq<AgentChoice<Text>>>,
                    Text,
                >(refused@)
            }
            &&& !entity ==> picker_for(selection, Ok(name), other, other) == Err::<
                AgentPicker<Text, Seq<AgentChoice<Text>>>,
                Text,
            >(selection.spec_reference() + " is not an epic or ticket"@)
        }),
{
}

/// A picker that cannot open names what is missing.
pub proof fn a_picker_names_what_is_missing(picker: AgentPicker<Text, Seq<AgentChoice<Text>>>)
    ensures
        picker.workflows.len() == 0 && picker.profiles.len() == 0 ==> picker.missing()
            == "no valid workflows or agent profiles are available"@,
        picker.workflows.len() == 0 && picker.profiles.len() > 0 ==> picker.missing()
            == "no valid workflows are available"@,
        picker.workflows.len() > 0 && picker.profiles.len() == 0 ==> picker.missing()
            == "no valid agent profiles are available"@,
        picker.workflows.len() > 0 && picker.profiles.len() > 0 ==> picker.missing()
            == Seq::<char>::empty(),
{
}

/// What was picked is launched with exactly while it is there and usable, and anything
/// else is told by its name.
pub proof fn only_a_usable_resource_is_launched_with(noun: Text, id: Text, failure: Text)
    ensures
        unusable(noun, id, Ok(Resolution::Valid)) is None,
        unusable(noun, id, Ok(Resolution::Missing)) == Some(
            noun + " '"@ + id + "' does not exist"@,
        ),
        unusable(noun, id, Ok(Resolution::Invalid)) == Some(noun + " '"@ + id + "' is invalid"@),
        unusable(noun, id, Err(failure)) == Some(failure),
{
}

/// What a launch offers is known choice by choice, in their order.
pub proof fn a_launch_is_known_by_what_it_offers(
    agent_choice: &AgentChoice,
    launch_target: &LaunchTarget,
    agent_picker: &AgentPicker,
    choices: Seq<AgentChoice>,
)
    ensures
        agent_choice@ == ({
            AgentChoice { id: agent_choice.id@, origin: agent_choice.origin }
        }),
        launch_target@ == ({
            match launch_target {
                LaunchTarget::Epic { id, name } => LaunchTarget::Epic { id: id@, name: name@ },
                LaunchTarget::Ticket { reference, name } => LaunchTarget::Ticket {
                    reference: reference@,
                    name: name@,
                },
            }
        }),
        agent_picker@ == ({
            AgentPicker {
                target: agent_picker.target@,
                workflows: choices_shown(agent_picker.workflows@),
                profiles: choices_shown(agent_picker.profiles@),
            }
        }),
        choices_shown(choices).len() == choices.len(),
        forall|i: int| 0 <= i < choices.len() ==> choices_shown(choices)[i] == choices[i]@,
{
}

} // verus!

//! One field of an editing surface: something to type into, or something to pick
//! from.
use crate::action::{Action, FieldKind, Lines};
use crate::data::entity::text_in;
use crate::data::State;
use crate::text::{blank, chars_of, holds, is_blank, same_text, string_of, Text};
use vstd::prelude::*;

verus! {

/// One value a picker offers.
///
/// Invariant: a picker's value is one of these rather than a word read back out of
/// a field — two pickers offer the word `closed` and mean different things by it.
#[derive(Clone, Copy, Debug, PartialEq, Eq, Structural)]
pub enum Choice {
    /// A state the frozen row is put into.
    State(State),
    /// Whether closing the frozen row takes its open descendants with it.
    Cascade(bool),
}

impl Choice {
    /// The word the reader picks the value by.
    pub open spec fn called(self) -> Text {
        match self {
            Choice::State(state) => state.word(),
            Choice::Cascade(true) => "yes"@,
            Choice::Cascade(false) => "no"@,
        }
    }

    /// The word the reader picks it by. A state's word is the store's own; the
    /// cascade's two are a plain answer to the question its label asks.
    pub fn word(self) -> (r: &'static str)
        ensures
            r@ == self.called(),
    {
        match self {
            Choice::State(state) => state.wire_name(),
            Choice::Cascade(true) => "yes",
            Choice::Cascade(false) => "no",
        }
    }
}

/// What one field of a surface holds.
///
/// Invariant: the kinds are exclusive by construction, so a picker has no cursor to
/// move and no line break to drop, and a field of text has no highlight anything
/// could be marked with.
#[derive(Debug, PartialEq, Eq)]
#[verifier::ext_equal]
pub enum Content<S = String, O = Vec<Choice>> {
    /// Text the reader types, and where in it the next character lands — counted
    /// in characters and not bytes, so a multi-byte character is never split.
    ///
    /// How many lines it holds is not a property of what is in it: an empty field
    /// that holds many lines is still a text area.
    Text {
        /// The text.
        value: S,
        /// Where the next character lands.
        cursor: usize,
        /// How many lines the field holds.
        lines: Lines,
    },
    /// The values on offer, in the order the vertical keys move through them, and
    /// which of them is marked. The marked one *is* the value.
    Pick {
        /// The values on offer.
        options: O,
        /// Which of them is marked.
        at: usize,
    },
}

impl View for Content {
    type V = Content<Text, Seq<Choice>>;

    open spec fn view(&self) -> Content<Text, Seq<Choice>> {
        match self {
            Content::Text { value, cursor, lines } => Content::Text {
                value: value@,
                cursor: *cursor,
                lines: *lines,
            },
            Content::Pick { options, at } => Content::Pick { options: options@, at: *at },
        }
    }
}

/// What the browser itself insists on about a field's value, over and above there
/// being one at all.
///
/// Invariant: this is never a store rule reimplemented: the only thing here is a
/// value the store does not judge.
#[derive(Clone, Copy, Debug, PartialEq, Eq, Structural)]
pub enum Check {
    /// Nothing: the store is the only judge of this value.
    Store,
    /// A usable epic id.
    EpicId,
}

/// What the browser says of an epic id it will not send.
pub open spec fn epic_id_objection() -> Text {
    "an epic id is one name: it cannot contain / and cannot be . or .."@
}

impl Check {
    /// Why the browser will not send a value, and nothing where it will.
    pub open spec fn objects(self, value: Text) -> Option<Text> {
        match self {
            Check::Store => None,
            Check::EpicId => if value.contains('/') || value == "."@ || value == ".."@ {
                Some(epic_id_objection())
            } else {
                None
            },
        }
    }

    /// Why the browser will not send this value, and `None` where it will.
    ///
    /// An epic id is one plain name: it is the whole left-hand side of every
    /// `<epic-id>/<number>` reference and the name the epic is kept under, so a
    /// separator in it names something else, and the two names that mean "a
    /// directory" name no epic at all.
    pub fn objection(self, value: &str) -> (r: Option<String>)
        ensures
            text_in(r) == self.objects(value@),
    {
        match self {
            Check::Store => None,
            Check::EpicId => if holds(value, '/') || same_text(value, ".")
                || same_text(value, "..") {
                Some(
                    "an epic id is one name: it cannot contain / and cannot be . or ..".to_owned(),
                )
            } else {
                None
            },
        }
    }
}

/// One field of an editing surface: something to type into, or something to pick
/// from.
///
/// Invariant: a field of text holds only characters its kind accepts, with its
/// cursor in or at the end of them, and a picker's mark is on one of its values.
#[derive(Debug, PartialEq, Eq)]
#[verifier::ext_equal]
pub struct Field<S = String, O = Vec<Choice>> {
    /// What the field is called wherever it has to be named: on the surface, and
    /// in a warning about it.
    pub label: S,
    /// Whether the store cannot be given this surface with the field left empty.
    pub required: bool,
    /// What the browser itself insists on about the value; see [`Check`].
    pub check: Check,
    /// What it holds, which is the whole of the difference between the kinds.
    pub content: Content<S, O>,
    /// Whether a content-mutating keystroke has landed here.
    ///
    /// Invariant: a flag, never a comparison against what the field started from.
    /// It is sticky, and no motion within a field ever sets it.
    pub dirty: bool,
}

/// A field by what it holds.
pub type FieldModel = Field<Text, Seq<Choice>>;

impl View for Field {
    type V = FieldModel;

    open spec fn view(&self) -> FieldModel {
        Field {
            label: self.label@,
            required: self.required,
            check: self.check,
            content: self.content@,
            dirty: self.dirty,
        }
    }
}

/// Whether a character may land in a field of text holding this many lines: a
/// carriage return never, a line break only where there are lines for it to break.
pub open spec fn accepted(c: char, lines: Lines) -> bool {
    c != '\r' && (c == '\n' ==> lines is Many)
}

/// Whether a character may land in a field of text holding this many lines; see
/// [`Field::accepts`].
pub fn accepts(c: char, lines: Lines) -> (r: bool)
    ensures
        r == accepted(c, lines),
{
    match c {
        '\r' => false,
        '\n' => matches!(lines, Lines::Many),
        _ => true,
    }
}

/// The characters of a text a field holding this many lines accepts, in order.
pub open spec fn sieved(s: Text, lines: Lines) -> Text
    decreases s.len(),
{
    if s.len() == 0 {
        s
    } else if accepted(s.last(), lines) {
        sieved(s.drop_last(), lines).push(s.last())
    } else {
        sieved(s.drop_last(), lines)
    }
}

/// What goes through the sieve is accepted, and never more than went in.
proof fn lemma_sieved(s: Text, lines: Lines)
    ensures
        forall|i: int|
            0 <= i < sieved(s, lines).len() ==> accepted(#[trigger] sieved(s, lines)[i], lines),
        sieved(s, lines).len() <= s.len(),
    decreases s.len(),
{
    if s.len() > 0 {
        lemma_sieved(s.drop_last(), lines);
    }
}

/// A text whose every character is accepted goes through the sieve untouched.
pub proof fn accepted_text_is_kept_whole(s: Text, lines: Lines)
    requires
        forall|i: int| 0 <= i < s.len() ==> accepted(#[trigger] s[i], lines),
    ensures
        sieved(s, lines) == s,
    decreases s.len(),
{
    if s.len() > 0 {
        assert(accepted(s[s.len() - 1], lines));
        assert forall|i: int| 0 <= i < s.drop_last().len() implies accepted(
            #[trigger] s.drop_last()[i],
            lines,
        ) by {
            assert(accepted(s[i], lines));
        }
        accepted_text_is_kept_whole(s.drop_last(), lines);
        assert(s.drop_last().push(s.last()) == s);
    }
}

/// Put a text through the sieve a keystroke goes through.
fn sieve(text: &str, lines: Lines) -> (r: String)
    ensures
        r@ == sieved(text@, lines),
{
    let chars = chars_of(text);
    let mut out = String::new();
    let mut i: usize = 0;
    assert(text@.take(0).len() == 0);
    while i < chars.len()
        invariant
            i <= chars.len(),
            chars@ == text@,
            out@ == sieved(text@.take(i as int), lines),
        decreases chars.len() - i,
    {
        assert(text@.take(i + 1).drop_last() == text@.take(i as int));
        if accepts(chars[i], lines) {
            out.push(chars[i]);
        }
        i += 1;
    }
    assert(text@.take(text@.len() as int) == text@);
    out
}

/// Where the line an offset is on starts.
pub open spec fn line_start(s: Text, at: int) -> int
    decreases at,
{
    if at <= 0 {
        0
    } else if s[at - 1] == '\n' {
        at
    } else {
        line_start(s, at - 1)
    }
}

/// Where the line an offset is on ends: the offset just past its last character.
pub open spec fn line_end(s: Text, at: int) -> int
    decreases s.len() - at,
{
    if at >= s.len() {
        s.len() as int
    } else if s[at] == '\n' {
        at
    } else {
        line_end(s, at + 1)
    }
}

/// The line an offset is on spans it, holds no line break, and is closed by one or
/// by the end of the text on either side.
pub proof fn a_line_lies_between_its_breaks(s: Text, at: int)
    requires
        0 <= at <= s.len(),
    ensures
        0 <= line_start(s, at) <= at <= line_end(s, at) <= s.len(),
        line_start(s, at) > 0 ==> s[line_start(s, at) - 1] == '\n',
        line_end(s, at) < s.len() ==> s[line_end(s, at)] == '\n',
        forall|i: int| line_start(s, at) <= i < line_end(s, at) ==> s[i] != '\n',
{
    lemma_line_start(s, at);
    lemma_line_end(s, at);
}

proof fn lemma_line_start(s: Text, at: int)
    requires
        0 <= at <= s.len(),
    ensures
        0 <= line_start(s, at) <= at,
        line_start(s, at) > 0 ==> s[line_start(s, at) - 1] == '\n',
        forall|i: int| line_start(s, at) <= i < at ==> s[i] != '\n',
    decreases at,
{
    if at > 0 && s[at - 1] != '\n' {
        lemma_line_start(s, at - 1);
    }
}

proof fn lemma_line_end(s: Text, at: int)
    requires
        0 <= at <= s.len(),
    ensures
        at <= line_end(s, at) <= s.len(),
        line_end(s, at) < s.len() ==> s[line_end(s, at)] == '\n',
        forall|i: int| at <= i < line_end(s, at) ==> s[i] != '\n',
    decreases s.len() - at,
{
    if at < s.len() && s[at] != '\n' {
        lemma_line_end(s, at + 1);
    }
}

/// The bounds of the line an offset into a run of characters is on.
fn bounds(chars: &Vec<char>, at: usize) -> (r: (usize, usize))
    requires
        at <= chars.len(),
    ensures
        r.0 == line_start(chars@, at as int),
        r.1 == line_end(chars@, at as int),
        r.0 <= at <= r.1 <= chars.len(),
{
    let mut start: usize = at;
    while start > 0 && chars[start - 1] != '\n'
        invariant
            start <= at <= chars.len(),
            line_start(chars@, at as int) == line_start(chars@, start as int),
        decreases start,
    {
        start -= 1;
    }
    let mut end: usize = at;
    while end < chars.len() && chars[end] != '\n'
        invariant
            at <= end <= chars.len(),
            line_end(chars@, at as int) == line_end(chars@, end as int),
        decreases chars.len() - end,
    {
        end += 1;
    }
    (start, end)
}

/// The line a character offset is on: where it starts, and the offset just past
/// its last character. An offset past the end is on the last line. A field holding
/// one line has exactly one, spanning the whole value.
pub fn line_bounds(value: &str, cursor: usize) -> (r: (usize, usize))
    ensures
        ({
            let at = if cursor < value@.len() {
                cursor as int
            } else {
                value@.len() as int
            };
            r.0 == line_start(value@, at) && r.1 == line_end(value@, at)
        }),
{
    let chars = chars_of(value);
    if cursor < chars.len() {
        bounds(&chars, cursor)
    } else {
        bounds(&chars, chars.len())
    }
}

/// How many characters a value holds, which is where its cursor may go up to.
pub fn char_count(value: &str) -> (r: usize)
    ensures
        r == value@.len(),
{
    chars_of(value).len()
}

/// Where a picker starts that is asked to start on a value: on the first of its
/// values that is that one, and on the first of all where none is.
pub open spec fn mark_on(options: Seq<Choice>, on: Choice) -> int {
    match first_of(options, on) {
        Some(i) => i,
        None => 0,
    }
}

/// The first of some values that is the wanted one.
pub open spec fn first_of(options: Seq<Choice>, wanted: Choice) -> Option<int>
    decreases options.len(),
{
    if options.len() == 0 {
        None
    } else if options[0] == wanted {
        Some(0)
    } else {
        match first_of(options.drop_first(), wanted) {
            Some(i) => Some(i + 1),
            None => None,
        }
    }
}

/// A picker's mark is on one of its values, and on the one it was asked to start
/// on wherever that is offered.
pub proof fn a_picker_starts_on_the_value_it_was_given(options: Seq<Choice>, on: Choice)
    requires
        options.len() > 0,
    ensures
        0 <= mark_on(options, on) < options.len(),
        options.contains(on) ==> options[mark_on(options, on)] == on,
    decreases options.len(),
{
    if options[0] != on {
        let rest = options.drop_first();
        if rest.len() > 0 {
            a_picker_starts_on_the_value_it_was_given(rest, on);
            if options.contains(on) {
                let i = choose|i: int| 0 <= i < options.len() && options[i] == on;
                assert(rest[i - 1] == on);
                lemma_first_of(rest, on);
            }
        }
    }
}

proof fn lemma_first_of(options: Seq<Choice>, wanted: Choice)
    ensures
        (match first_of(options, wanted) {
            Some(i) => 0 <= i < options.len() && options[i] == wanted,
            None => !options.contains(wanted),
        }),
    decreases options.len(),
{
    if options.len() > 0 && options[0] != wanted {
        let rest = options.drop_first();
        lemma_first_of(rest, wanted);
        if first_of(rest, wanted) is None && options.contains(wanted) {
            let i = choose|i: int| 0 <= i < options.len() && options[i] == wanted;
            assert(rest[i - 1] == wanted);
        }
    }
}

/// Find the first of some values that is the wanted one, or stand on the first of
/// all.
fn mark(options: &Vec<Choice>, on: Choice) -> (r: usize)
    ensures
        r == mark_on(options@, on),
        r < options.len() || (r == 0 && options.len() == 0),
{
    let mut i: usize = 0;
    assert(options@.skip(0) == options@);
    while i < options.len()
        invariant
            i <= options.len(),
            (match first_of(options@.skip(i as int), on) {
                Some(k) => first_of(options@, on) == Some(k + i),
                None => first_of(options@, on) is None,
            }),
        decreases options.len() - i,
    {
        assert(options@.skip(i as int).drop_first() == options@.skip(i + 1));
        if options[i] == on {
            return i;
        }
        i += 1;
    }
    0
}

impl FieldModel {
    /// Whether the field holds only what a field of its kind may.
    pub open spec fn wf(self) -> bool {
        match self.content {
            Content::Text { value, cursor, lines } => cursor <= value.len() && forall|i: int|
                0 <= i < value.len() ==> accepted(#[trigger] value[i], lines),
            Content::Pick { options, at } => at < options.len() || (options.len() == 0 && at == 0),
        }
    }

    /// A field starting from text, sieved to what a field of its kind may hold.
    pub open spec fn starting_from(
        label: Text,
        required: bool,
        lines: Lines,
        value: Text,
    ) -> FieldModel {
        Field {
            label,
            required,
            check: Check::Store,
            content: Content::Text { value: sieved(value, lines), cursor: 0, lines },
            dirty: false,
        }
    }

    /// An empty field.
    pub open spec fn empty(label: Text, required: bool, lines: Lines) -> FieldModel {
        Field {
            label,
            required,
            check: Check::Store,
            content: Content::Text { value: Seq::empty(), cursor: 0, lines },
            dirty: false,
        }
    }

    /// An empty required line the browser has a rule of its own about.
    pub open spec fn checking(label: Text, check: Check) -> FieldModel {
        Field { check, ..FieldModel::empty(label, true, Lines::One) }
    }

    /// A field the reader picks a value in.
    pub open spec fn picking(label: Text, options: Seq<Choice>, on: Choice) -> FieldModel {
        Field {
            label,
            required: false,
            check: Check::Store,
            content: Content::Pick { options, at: mark_on(options, on) as usize },
            dirty: false,
        }
    }

    /// The text it holds, which a picker has none of.
    pub open spec fn spec_text(self) -> Option<Text> {
        match self.content {
            Content::Text { value, .. } => Some(value),
            Content::Pick { .. } => None,
        }
    }

    /// The value a picker holds, which a field of text has none of.
    pub open spec fn spec_chosen(self) -> Option<Choice> {
        match self.content {
            Content::Pick { options, at } => if at < options.len() {
                Some(options[at as int])
            } else {
                None
            },
            Content::Text { .. } => None,
        }
    }

    /// What kind of field it is.
    pub open spec fn spec_kind(self) -> FieldKind {
        match self.content {
            Content::Text { lines, .. } => FieldKind::of_text(lines),
            Content::Pick { .. } => FieldKind::Pick,
        }
    }

    /// Whether it is required and has nothing in it a reader could see.
    pub open spec fn spec_unfilled(self) -> bool {
        self.required && (self.spec_text() matches Some(text) && is_blank(text))
    }

    /// Why the browser itself will not send what it holds.
    pub open spec fn spec_rejected(self) -> Option<Text> {
        match self.spec_text() {
            Some(text) => self.check.objects(text),
            None => None,
        }
    }

    /// The field with other text and a cursor in it, by a key that changes what
    /// would be saved.
    pub open spec fn retyped(self, value: Text, cursor: int, lines: Lines) -> FieldModel {
        Field {
            content: Content::Text { value, cursor: cursor as usize, lines },
            dirty: true,
            ..self
        }
    }

    /// The field of text with its cursor elsewhere, by a key that changes nothing
    /// that would be saved.
    pub open spec fn moved(self, value: Text, cursor: int, lines: Lines) -> FieldModel {
        Field { content: Content::Text { value, cursor: cursor as usize, lines }, ..self }
    }

    /// The field of text after a key.
    pub open spec fn typed(
        self,
        action: Action,
        value: Text,
        cursor: int,
        lines: Lines,
    ) -> FieldModel {
        let count = value.len();
        let start = line_start(value, cursor);
        let end = line_end(value, cursor);
        match action {
            Action::Insert(c) => if accepted(c, lines) {
                self.retyped(value.insert(cursor, c), cursor + 1, lines)
            } else {
                self.retyped(value, cursor, lines)
            },
            Action::DeleteBefore => if cursor > 0 {
                self.retyped(value.remove(cursor - 1), cursor - 1, lines)
            } else {
                self.retyped(value, cursor, lines)
            },
            Action::DeleteAfter => if cursor < count {
                self.retyped(value.remove(cursor), cursor, lines)
            } else {
                self.retyped(value, cursor, lines)
            },
            Action::MoveLeft => if cursor > 0 {
                self.moved(value, cursor - 1, lines)
            } else {
                self
            },
            Action::MoveRight => if cursor < count {
                self.moved(value, cursor + 1, lines)
            } else {
                self
            },
            Action::MoveToStart => self.moved(value, start, lines),
            Action::MoveToEnd => self.moved(value, end, lines),
            // The same column of the line above, or its end where it is shorter.
            Action::MoveUp => if start > 0 {
                let above = line_start(value, start - 1);
                let column = cursor - start;
                self.moved(
                    value,
                    if above + column < start - 1 {
                        above + column
                    } else {
                        start - 1
                    },
                    lines,
                )
            } else {
                self
            },
            // The same column of the line below, or its end where it is shorter.
            Action::MoveDown => if end < count {
                let below = end + 1;
                let below_end = line_end(value, below);
                let column = cursor - start;
                self.moved(
                    value,
                    if below + column < below_end {
                        below + column
                    } else {
                        below_end
                    },
                    lines,
                )
            } else {
                self
            },
            _ => self,
        }
    }

    /// The picker after a key: the mark moved, where there is a value that way.
    pub open spec fn marked(self, action: Action, options: Seq<Choice>, at: int) -> FieldModel {
        match action {
            Action::MoveUp => if at > 0 {
                Field {
                    content: Content::Pick { options, at: (at - 1) as usize },
                    dirty: true,
                    ..self
                }
            } else {
                self
            },
            Action::MoveDown => if at + 1 < options.len() {
                Field {
                    content: Content::Pick { options, at: (at + 1) as usize },
                    dirty: true,
                    ..self
                }
            } else {
                self
            },
            _ => self,
        }
    }

    /// The field after a key.
    pub open spec fn applied(self, action: Action) -> FieldModel {
        match self.content {
            Content::Text { value, cursor, lines } => self.typed(
                action,
                value,
                cursor as int,
                lines,
            ),
            Content::Pick { options, at } => self.marked(action, options, at as int),
        }
    }

    /// The field with an external editor's result taken back.
    pub open spec fn replaced(self, text: Text) -> FieldModel {
        match self.content {
            Content::Text { lines, .. } => self.retyped(
                sieved(text, lines),
                sieved(text, lines).len() as int,
                lines,
            ),
            Content::Pick { .. } => self,
        }
    }
}

/// A list of values, cloned.
fn clone_choices(options: &Vec<Choice>) -> (r: Vec<Choice>)
    ensures
        r@ == options@,
{
    let mut out: Vec<Choice> = Vec::new();
    let mut i: usize = 0;
    while i < options.len()
        invariant
            i <= options.len(),
            out@ == options@.take(i as int),
        decreases options.len() - i,
    {
        out.push(options[i]);
        i += 1;
    }
    out
}

impl Clone for Field {
    fn clone(&self) -> (r: Self)
        ensures
            r@ == self@,
    {
        Field {
            label: self.label.clone(),
            required: self.required,
            check: self.check,
            content: match &self.content {
                Content::Text { value, cursor, lines } => Content::Text {
                    value: value.clone(),
                    cursor: *cursor,
                    lines: *lines,
                },
                Content::Pick { options, at } => Content::Pick {
                    options: clone_choices(options),
                    at: *at,
                },
            },
            dirty: self.dirty,
        }
    }
}

impl Field {
    /// An empty field, which is where every surface starts: nothing the browser
    /// puts there itself could be text the reader meant to write.
    pub fn new(label: &str, required: bool, lines: Lines) -> (r: Self)
        ensures
            r@ == FieldModel::empty(label@, required, lines),
            r@.wf(),
    {
        Field {
            label: label.to_owned(),
            required,
            check: Check::Store,
            content: Content::Text { value: String::new(), cursor: 0, lines },
            dirty: false,
        }
    }

    /// An empty required line the browser has a rule of its own about; see
    /// [`Check`]. Required, because a check on a value only means anything where
    /// there has to be one.
    pub fn checked(label: &str, check: Check) -> (r: Self)
        ensures
            r@ == FieldModel::checking(label@, check),
            r@.wf(),
    {
        let mut field = Field::new(label, true, Lines::One);
        field.check = check;
        field
    }

    /// A field the reader picks a value in, starting on the value given — which is
    /// the value the store holds, so a save that changes nothing writes what is
    /// there rather than whatever happened to be listed first. A value the list
    /// does not offer marks the first one instead.
    ///
    /// Never required: a picker always holds one of its values.
    pub fn pick(label: &str, options: Vec<Choice>, on: Choice) -> (r: Self)
        ensures
            r@ == FieldModel::picking(label@, options@, on),
            r@.wf(),
    {
        let at = mark(&options, on);
        Field {
            label: label.to_owned(),
            required: false,
            check: Check::Store,
            content: Content::Pick { options, at },
            dirty: false,
        }
    }

    /// A field starting from text the store holds, which is where a field that
    /// replaces an existing value starts.
    ///
    /// The text goes through the same sieve a keystroke does, so a one-line field
    /// cannot be seeded with a line break either, and the field is not dirty. The
    /// cursor starts at the top, because the reader reads the document before
    /// changing it.
    pub fn filled(label: &str, required: bool, lines: Lines, value: &str) -> (r: Self)
        ensures
            r@ == FieldModel::starting_from(label@, required, lines, value@),
            r@.wf(),
    {
        proof {
            lemma_sieved(value@, lines);
        }
        Field {
            label: label.to_owned(),
            required,
            check: Check::Store,
            content: Content::Text { value: sieve(value, lines), cursor: 0, lines },
            dirty: false,
        }
    }

    /// What the field is called.
    pub fn label(&self) -> (r: &str)
        ensures
            r@ == self@.label,
    {
        &self.label
    }

    /// What kind of field it is, which is what decides whether a line break in it
    /// is content, what the vertical keys reach, and whether an external editor has
    /// anything to take.
    pub fn kind(&self) -> (r: FieldKind)
        ensures
            r == self@.spec_kind(),
    {
        match &self.content {
            Content::Text { lines, .. } => FieldKind::text(*lines),
            Content::Pick { .. } => FieldKind::Pick,
        }
    }

    /// What the reader is looking at in it, for the drawing.
    pub fn shown(&self) -> (r: Shown<'_>)
        ensures
            (match self@.content {
                Content::Text { value, cursor, .. } => r matches Shown::Text {
                    value: shown,
                    cursor: at,
                } && shown@ == value && at == cursor,
                Content::Pick { options, at } => r matches Shown::Pick { options: words, at: on }
                    && on == at && words@.len() == options.len() && forall|i: int|
                    0 <= i < options.len() ==> (#[trigger] words@[i])@ == options[i].called(),
            }),
    {
        match &self.content {
            Content::Text { value, cursor, .. } => Shown::Text { value, cursor: *cursor },
            Content::Pick { options, at } => {
                let mut words: Vec<&'static str> = Vec::new();
                let mut i: usize = 0;
                while i < options.len()
                    invariant
                        i <= options.len(),
                        words@.len() == i,
                        forall|j: int|
                            0 <= j < i ==> (#[trigger] words@[j])@ == options@[j].called(),
                    decreases options.len() - i,
                {
                    words.push(options[i].word());
                    i += 1;
                }
                Shown::Pick { options: words, at: *at }
            },
        }
    }

    /// Whether anything has been typed into it, or marked in it.
    pub fn is_dirty(&self) -> (r: bool)
        ensures
            r == self@.dirty,
    {
        self.dirty
    }

    /// The text it holds, and `None` for a picker — which holds a value rather
    /// than text, so there is nothing in it to hand to an editor or to send as a
    /// reason.
    pub fn text(&self) -> (r: Option<&str>)
        ensures
            (match r {
                Some(text) => self@.spec_text() == Some(text@),
                None => self@.spec_text() is None,
            }),
    {
        match &self.content {
            Content::Text { value, .. } => Some(value),
            Content::Pick { .. } => None,
        }
    }

    /// The value a picker holds, and `None` for a field of text.
    pub fn chosen(&self) -> (r: Option<Choice>)
        ensures
            r == self@.spec_chosen(),
    {
        match &self.content {
            Content::Pick { options, at } => if *at < options.len() {
                Some(options[*at])
            } else {
                None
            },
            Content::Text { .. } => None,
        }
    }

    /// Whether a required field has nothing in it to send.
    ///
    /// A field holding only whitespace counts as empty: the reader cannot tell it
    /// from a blank one on screen. A picker is never unfilled.
    pub fn unfilled(&self) -> (r: bool)
        ensures
            r == self@.spec_unfilled(),
    {
        match self.text() {
            Some(text) => self.required && blank(text),
            None => false,
        }
    }

    /// Why the browser itself will not send what this field holds, and `None`
    /// where it will; see [`Check`].
    pub fn rejected(&self) -> (r: Option<String>)
        ensures
            text_in(r) == self@.spec_rejected(),
    {
        match self.text() {
            Some(text) => self.check.objection(text),
            None => None,
        }
    }

    /// Whether a character may land in the field at all.
    ///
    /// A line break is content where the field holds many lines and is dropped
    /// where it holds one. A carriage return is never content: an editor that hands
    /// back CRLF means one line break rather than a break and a character no
    /// terminal shows. A picker holds no text, so no character is content in it.
    pub fn accepts(&self, c: char) -> (r: bool)
        ensures
            r == (match self@.content {
                Content::Text { lines, .. } => accepted(c, lines),
                Content::Pick { .. } => false,
            }),
    {
        match &self.content {
            Content::Text { lines, .. } => accepts(c, *lines),
            Content::Pick { .. } => false,
        }
    }

    /// Apply a key's intent to the field.
    ///
    /// Invariant: every intent that changes what the field would save sets the
    /// dirty flag and no motion within the field ever does. In a field of text that
    /// includes an intent which happened to change nothing — a deletion with
    /// nothing left to delete — because dirty there is what was *pressed* and not
    /// what differs. In a picker the vertical keys are not motion at all: the mark
    /// is the value, and a key that finds no value that way has changed nothing to
    /// warn about.
    pub fn apply(&mut self, action: Action)
        requires
            old(self)@.wf(),
        ensures
            final(self)@ == old(self)@.applied(action),
            final(self)@.wf(),
    {
        match &self.content {
            Content::Text { value, cursor, lines } => {
                let chars = chars_of(value);
                let cursor: usize = *cursor;
                let lines = *lines;
                self.type_key(action, chars, cursor, lines);
            },
            Content::Pick { options, at } => {
                let at: usize = *at;
                let count: usize = options.len();
                self.mark_key(action, at, count);
            },
        }
    }

    /// Put other text and a cursor into a field of text, as content the reader
    /// changed.
    fn retype(&mut self, chars: &Vec<char>, cursor: usize, lines: Lines)
        requires
            cursor <= chars.len(),
            forall|i: int| 0 <= i < chars.len() ==> accepted(#[trigger] chars@[i], lines),
        ensures
            final(self)@ == old(self)@.retyped(chars@, cursor as int, lines),
            final(self)@.wf(),
    {
        let value = string_of(chars, 0, chars.len());
        assert(value@ == chars@);
        self.content = Content::Text { value, cursor, lines };
        self.dirty = true;
    }

    /// Move the cursor of a field of text.
    fn move_cursor(&mut self, to: usize)
        requires
            old(self)@.wf(),
            old(self)@.content matches Content::Text { value, .. } && to <= value.len(),
        ensures
            old(self)@.content matches Content::Text { value, lines, .. } && final(self)@ == old(
                self,
            )@.moved(value, to as int, lines),
            final(self)@.wf(),
    {
        match &mut self.content {
            Content::Text { value, cursor, lines } => {
                *cursor = to;
            },
            Content::Pick { .. } => {},
        }
    }

    /// Apply a key's intent to a field of text.
    fn type_key(&mut self, action: Action, chars: Vec<char>, cursor: usize, lines: Lines)
        requires
            old(self)@.wf(),
            old(self)@.content == (Content::<Text, Seq<Choice>>::Text {
                value: chars@,
                cursor,
                lines,
            }),
        ensures
            final(self)@ == old(self)@.typed(action, chars@, cursor as int, lines),
            final(self)@.wf(),
    {
        let mut chars = chars;
        let ghost before = chars@;
        match action {
            Action::Insert(c) => {
                // A character the field does not hold is dropped rather than
                // refused: the keystroke still counts as typing.
                if accepts(c, lines) {
                    chars.insert(cursor, c);
                    assert(cursor < chars.len());
                    self.retype(&chars, cursor + 1, lines);
                } else {
                    self.retype(&chars, cursor, lines);
                }
            },
            Action::DeleteBefore => {
                if cursor > 0 {
                    chars.remove(cursor - 1);
                    self.retype(&chars, cursor - 1, lines);
                } else {
                    self.retype(&chars, cursor, lines);
                }
            },
            Action::DeleteAfter => {
                if cursor < chars.len() {
                    chars.remove(cursor);
                    self.retype(&chars, cursor, lines);
                } else {
                    self.retype(&chars, cursor, lines);
                }
            },
            Action::MoveLeft => {
                if cursor > 0 {
                    self.move_cursor(cursor - 1);
                }
            },
            Action::MoveRight => {
                if cursor < chars.len() {
                    self.move_cursor(cursor + 1);
                }
            },
            Action::MoveToStart => {
                let (start, _) = bounds(&chars, cursor);
                self.move_cursor(start);
            },
            Action::MoveToEnd => {
                let (_, end) = bounds(&chars, cursor);
                self.move_cursor(end);
            },
            Action::MoveUp => {
                let (start, _) = bounds(&chars, cursor);
                let column: usize = cursor - start;
                if start > 0 {
                    let (above, above_end) = bounds(&chars, start - 1);
                    proof {
                        a_line_lies_between_its_breaks(before, cursor as int);
                        assert(line_end(before, start - 1) == start - 1);
                    }
                    if column < above_end - above {
                        self.move_cursor(above + column);
                    } else {
                        self.move_cursor(above_end);
                    }
                }
            },
            Action::MoveDown => {
                let (start, end) = bounds(&chars, cursor);
                let column: usize = cursor - start;
                if end < chars.len() {
                    let (below, below_end) = bounds(&chars, end + 1);
                    proof {
                        a_line_lies_between_its_breaks(before, cursor as int);
                        assert(line_start(before, end + 1) == end + 1);
                    }
                    if column < below_end - below {
                        self.move_cursor(below + column);
                    } else {
                        self.move_cursor(below_end);
                    }
                }
            },
            // Everything else is the surface's business or nobody's: a key the
            // field does not answer must not silently change what it holds.
            _ => {},
        }
    }

    /// Apply a key's intent to a picker. The list has ends rather than wrapping
    /// round, exactly as a text cursor does at the first and last line.
    fn mark_key(&mut self, action: Action, at: usize, count: usize)
        requires
            old(self)@.wf(),
            old(self)@.content matches Content::Pick { options, at: on } && on == at
                && options.len() == count,
        ensures
            old(self)@.content matches Content::Pick { options, .. } && final(self)@ == old(
                self,
            )@.marked(action, options, at as int),
            final(self)@.wf(),
    {
        let moved: Option<usize> = match action {
            Action::MoveUp => if at > 0 {
                Some(at - 1)
            } else {
                None
            },
            Action::MoveDown => if at < count && at + 1 < count {
                Some(at + 1)
            } else {
                None
            },
            _ => None,
        };
        if let Some(next) = moved {
            match &mut self.content {
                Content::Pick { options, at } => {
                    *at = next;
                },
                Content::Text { .. } => {},
            }
            self.dirty = true;
        }
    }

    /// Take an external editor's result, which counts as content the reader typed:
    /// the way out warns about it exactly as it does about typing.
    ///
    /// It goes through the same sieve a keystroke does. A picker is left exactly as
    /// it was: it holds no text, so there was nothing to hand over and there is
    /// nothing to take back.
    pub fn replace(&mut self, text: &str)
        requires
            old(self)@.wf(),
        ensures
            final(self)@ == old(self)@.replaced(text@),
            final(self)@.wf(),
    {
        let lines = match &self.content {
            Content::Text { lines, .. } => *lines,
            Content::Pick { .. } => return ,
        };
        proof {
            lemma_sieved(text@, lines);
        }
        let kept = sieve(text, lines);
        let cursor = char_count(&kept);
        self.content = Content::Text { value: kept, cursor, lines };
        self.dirty = true;
    }
}

/// What the reader is looking at in one field, for the drawing.
///
/// Invariant: derived from what the field holds rather than chosen by the drawing.
pub enum Shown<'a> {
    /// Text, and where in it the next character lands.
    Text {
        /// What the field holds.
        value: &'a str,
        /// Where the next character lands, in characters from the start.
        cursor: usize,
    },
    /// The values on offer, in the order the vertical keys move through them, and
    /// which of them the field holds.
    Pick {
        /// The words the values go by.
        options: Vec<&'static str>,
        /// Which of them is marked, which is the field's value.
        at: usize,
    },
}

/// Whether a key changes what a field would save, as against moving within it or
/// being none of the field's business.
pub open spec fn is_content_key(action: Action) -> bool {
    action is Insert || action is DeleteBefore || action is DeleteAfter
}

/// Whether a text holds only what a field holding this many lines accepts.
pub open spec fn all_accepted(s: Text, lines: Lines) -> bool {
    forall|i: int| 0 <= i < s.len() ==> accepted(#[trigger] s[i], lines)
}

/// Every key leaves a field holding only what a field of its kind may, and so does
/// an external editor's result: no door into a field lets in what it does not
/// accept, nor puts its cursor or its mark where there is nothing.
pub proof fn every_door_keeps_a_field_well_formed(field: FieldModel, action: Action, text: Text)
    requires
        field.wf(),
        text.len() <= usize::MAX,
        field.content matches Content::Text { value, .. } ==> value.len() < usize::MAX,
        field.content matches Content::Pick { options, .. } ==> options.len() <= usize::MAX,
    ensures
        field.applied(action).wf(),
        field.replaced(text).wf(),
{
    match field.content {
        Content::Text { value, cursor, lines } => {
            lemma_sieved(text, lines);
            a_line_lies_between_its_breaks(value, cursor as int);
            let start = line_start(value, cursor as int);
            let end = line_end(value, cursor as int);
            if start > 0 {
                a_line_lies_between_its_breaks(value, start - 1);
            }
            if end < value.len() {
                a_line_lies_between_its_breaks(value, end + 1);
            }
            match action {
                Action::Insert(c) => {
                    let typed = value.insert(cursor as int, c);
                    if accepted(c, lines) {
                        assert forall|i: int| 0 <= i < typed.len() implies accepted(
                            #[trigger] typed[i],
                            lines,
                        ) by {
                            if i < cursor {
                                assert(accepted(value[i], lines));
                            } else if i > cursor {
                                assert(accepted(value[i - 1], lines));
                            }
                        }
                    }
                },
                Action::DeleteBefore => {
                    if cursor > 0 {
                        lemma_removed(value, cursor - 1, lines);
                    }
                },
                Action::DeleteAfter => {
                    if cursor < value.len() {
                        lemma_removed(value, cursor as int, lines);
                    }
                },
                _ => {},
            }
        },
        Content::Pick { .. } => {},
    }
}

proof fn lemma_removed(value: Text, at: int, lines: Lines)
    requires
        0 <= at < value.len(),
        all_accepted(value, lines),
    ensures
        all_accepted(value.remove(at), lines),
{
    let left = value.remove(at);
    assert forall|i: int| 0 <= i < left.len() implies accepted(#[trigger] left[i], lines) by {
        if i < at {
            assert(accepted(value[i], lines));
        } else {
            assert(accepted(value[i + 1], lines));
        }
    }
}

/// A field of text never holds a carriage return, nor a line break where it holds
/// one line.
pub proof fn a_one_line_field_holds_no_break(field: FieldModel, i: int)
    requires
        field.wf(),
        field.spec_text() matches Some(text) && 0 <= i < text.len(),
    ensures
        field.spec_text()->0[i] != '\r',
        field.spec_kind() == FieldKind::OneLine ==> field.spec_text()->0[i] != '\n',
{
    assert(accepted(field.spec_text()->0[i], field.content->lines));
}

/// Dirt is what was pressed: a key that changes content dirties a field of text
/// even where there was nothing to change, no motion ever does, and in either kind
/// of field dirt stays.
pub proof fn dirt_is_what_was_pressed(field: FieldModel, action: Action)
    ensures
        field.dirty ==> field.applied(action).dirty,
        field.content is Text && is_content_key(action) ==> field.applied(action).dirty,
        field.content is Text && !is_content_key(action) ==> field.applied(action).dirty
            == field.dirty && field.applied(action).spec_text() == field.spec_text(),
        field.content is Pick ==> (field.applied(action) == field || field.applied(action).dirty),
{
}

/// A character typed and taken back leaves the text and the cursor as they were,
/// and the field dirty.
pub proof fn typing_and_taking_back_leaves_only_dirt(field: FieldModel, c: char)
    requires
        field.wf(),
        field.content matches Content::Text { value, lines, .. } && accepted(c, lines)
            && value.len() < usize::MAX,
    ensures
        field.applied(Action::Insert(c)).applied(Action::DeleteBefore) == (Field {
            dirty: true,
            ..field
        }),
{
    let value = field.content->value;
    let cursor = field.content->cursor as int;
    assert(value.insert(cursor, c).remove(cursor) =~= value);
}

/// A line field has no line to move to: the vertical keys leave it alone.
pub proof fn a_one_line_field_has_no_line_to_move_to(field: FieldModel)
    requires
        field.wf(),
        field.spec_kind() == FieldKind::OneLine,
    ensures
        field.applied(Action::MoveUp) == field,
        field.applied(Action::MoveDown) == field,
{
    let value = field.content->value;
    let cursor = field.content->cursor as int;
    a_line_lies_between_its_breaks(value, cursor);
    if line_start(value, cursor) > 0 {
        assert(accepted(value[line_start(value, cursor) - 1], Lines::One));
    }
    if line_end(value, cursor) < value.len() {
        assert(accepted(value[line_end(value, cursor)], Lines::One));
    }
}

/// A picker's mark has ends and does not wrap, and up undoes down wherever there is
/// a value below.
pub proof fn a_pickers_list_has_ends(field: FieldModel)
    requires
        field.wf(),
    ensures
        field.content matches Content::Pick { options, at } ==> {
            &&& at == 0 ==> field.applied(Action::MoveUp) == field
            &&& at + 1 >= options.len() ==> field.applied(Action::MoveDown) == field
            &&& at + 1 < options.len() <= usize::MAX ==> field.applied(Action::MoveDown).applied(
                Action::MoveUp,
            ).spec_chosen() == field.spec_chosen()
        },
{
}

/// An external editor that hands back what it was given leaves the text as it was,
/// with the cursor at its end and the field dirty.
pub proof fn an_editor_that_changes_nothing_changes_no_text(field: FieldModel)
    requires
        field.wf(),
        field.spec_text() is Some,
    ensures
        field.replaced(field.spec_text()->0).spec_text() == field.spec_text(),
        field.replaced(field.spec_text()->0).dirty,
{
    let lines = field.content->lines;
    let value = field.spec_text()->0;
    assert forall|i: int| 0 <= i < value.len() implies accepted(#[trigger] value[i], lines) by {}
    accepted_text_is_kept_whole(value, lines);
}

/// A field keeps its name, its kind and its rules whatever happens to it.
pub proof fn only_what_a_field_holds_changes(field: FieldModel, action: Action, text: Text)
    ensures
        field.applied(action).label == field.label,
        field.applied(action).required == field.required,
        field.applied(action).check == field.check,
        field.replaced(text).label == field.label,
        field.replaced(text).required == field.required,
        field.replaced(text).check == field.check,
        field.content matches Content::Text { lines, .. } ==> {
            &&& field.applied(action).content matches Content::Text { lines: after, .. } && after
                == lines
            &&& field.replaced(text).content matches Content::Text { lines: after, .. } && after
                == lines
        },
        field.content matches Content::Pick { options, .. } ==> {
            &&& field.applied(action).content matches Content::Pick { options: after, .. } && after
                == options
            &&& field.replaced(text) == field
        },
{
}

/// A carriage return never lands in a field, a line break only where there are lines
/// to break, and every other character anywhere.
pub proof fn what_may_land_in_a_field(c: char)
    ensures
        !accepted('\r', Lines::One),
        !accepted('\r', Lines::Many),
        !accepted('\n', Lines::One),
        accepted('\n', Lines::Many),
        c != '\r' && c != '\n' ==> accepted(c, Lines::One) && accepted(c, Lines::Many),
{
}

/// A typed character stands where the cursor was, everything before it stays, what
/// stood from the cursor on moves up by one, and the cursor moves past it.
pub proof fn a_typed_character_lands_at_the_cursor(
    field: FieldModel,
    value: Text,
    cursor: usize,
    lines: Lines,
    c: char,
)
    requires
        field.content == (Content::<Text, Seq<Choice>>::Text { value, cursor, lines }),
        cursor <= value.len() < usize::MAX,
        c != '\r',
        c == '\n' ==> lines == Lines::Many,
    ensures
        ({
            let after = field.applied(Action::Insert(c));
            &&& after.dirty
            &&& after.content matches Content::Text { value: typed, cursor: at, .. } && {
                &&& at == cursor + 1
                &&& typed.len() == value.len() + 1
                &&& typed[cursor as int] == c
                &&& forall|i: int| 0 <= i < cursor ==> typed[i] == value[i]
                &&& forall|i: int| cursor <= i < value.len() ==> typed[i + 1] == value[i]
            }
        }),
{
}

/// A character a field does not hold is dropped, and the key still counts as typing:
/// the text and the cursor stay.
pub proof fn a_character_a_field_does_not_hold_is_dropped(
    field: FieldModel,
    value: Text,
    cursor: usize,
    lines: Lines,
    c: char,
)
    requires
        field.content == (Content::<Text, Seq<Choice>>::Text { value, cursor, lines }),
        c == '\r' || (c == '\n' && lines == Lines::One),
    ensures
        field.applied(Action::Insert(c)).content == field.content,
        field.applied(Action::Insert(c)).dirty,
{
}

/// Deleting backwards takes the character before the cursor and no other: what stood
/// before it stays, what stood after it moves down by one, and the cursor moves to
/// where it was. At the start there is nothing to take.
pub proof fn deleting_backwards_takes_the_character_before_the_cursor(
    field: FieldModel,
    value: Text,
    cursor: usize,
    lines: Lines,
)
    requires
        field.content == (Content::<Text, Seq<Choice>>::Text { value, cursor, lines }),
        cursor <= value.len(),
    ensures
        ({
            let after = field.applied(Action::DeleteBefore);
            &&& after.dirty
            &&& cursor == 0 ==> after.content == field.content
            &&& cursor > 0 ==> (after.content matches Content::Text { value: left, cursor: at, .. }
                && {
                &&& at == cursor - 1
                &&& left.len() == value.len() - 1
                &&& forall|i: int| 0 <= i < cursor - 1 ==> left[i] == value[i]
                &&& forall|i: int| cursor - 1 <= i < left.len() ==> left[i] == value[i + 1]
            })
        }),
{
}

/// Deleting forwards takes the character under the cursor and no other: what stood
/// before the cursor stays, what stood after the character moves down by one, and the
/// cursor stays. At the end there is nothing to take.
pub proof fn deleting_forwards_takes_the_character_under_the_cursor(
    field: FieldModel,
    value: Text,
    cursor: usize,
    lines: Lines,
)
    requires
        field.content == (Content::<Text, Seq<Choice>>::Text { value, cursor, lines }),
        cursor <= value.len(),
    ensures
        ({
            let after = field.applied(Action::DeleteAfter);
            &&& after.dirty
            &&& cursor == value.len() ==> after.content == field.content
            &&& cursor < value.len() ==> (after.content matches Content::Text {
                value: left,
                cursor: at,
                ..
            } && {
                &&& at == cursor
                &&& left.len() == value.len() - 1
                &&& forall|i: int| 0 <= i < cursor ==> left[i] == value[i]
                &&& forall|i: int| cursor <= i < left.len() ==> left[i] == value[i + 1]
            })
        }),
{
}

/// Typing a character, stepping back over it and deleting forwards gives the text and
/// the cursor back; and deleting forwards is stepping over a character and deleting
/// backwards.
pub proof fn the_two_deletions_meet_over_the_cursor(field: FieldModel, c: char)
    requires
        field.wf(),
        field.content matches Content::Text { value, lines, .. } && accepted(c, lines)
            && value.len() < usize::MAX,
    ensures
        field.applied(Action::Insert(c)).applied(Action::MoveLeft).applied(
            Action::DeleteAfter,
        ).content == field.content,
        field.content->cursor < field.content->value.len() ==> field.applied(
            Action::MoveRight,
        ).applied(Action::DeleteBefore).content == field.applied(Action::DeleteAfter).content,
{
    let value = field.content->value;
    let cursor = field.content->cursor as int;
    assert(value.insert(cursor, c).remove(cursor) =~= value);
}

/// The horizontal keys move the cursor by one character, stopping at either end, and
/// move nothing else.
pub proof fn the_horizontal_keys_move_by_one_character(
    field: FieldModel,
    value: Text,
    cursor: usize,
    lines: Lines,
)
    requires
        field.content == (Content::<Text, Seq<Choice>>::Text { value, cursor, lines }),
        cursor <= value.len() <= usize::MAX,
    ensures
        field.applied(Action::MoveLeft) == (Field {
            content: Content::Text {
                value,
                cursor: (if cursor == 0 {
                    0
                } else {
                    cursor - 1
                }) as usize,
                lines,
            },
            ..field
        }),
        field.applied(Action::MoveRight) == (Field {
            content: Content::Text {
                value,
                cursor: (if cursor == value.len() {
                    cursor as int
                } else {
                    cursor + 1
                }) as usize,
                lines,
            },
            ..field
        }),
        0 < cursor ==> field.applied(Action::MoveLeft).applied(Action::MoveRight) == field,
        cursor < value.len() ==> field.applied(Action::MoveRight).applied(Action::MoveLeft)
            == field,
{
}

/// Whether a line starts at an offset and runs unbroken up to another.
pub open spec fn starts_a_line(s: Text, start: int, at: int) -> bool {
    &&& 0 <= start <= at <= s.len()
    &&& start > 0 ==> s[start - 1] == '\n'
    &&& forall|i: int| start <= i < at ==> s[i] != '\n'
}

/// Whether a line runs unbroken from an offset and ends at another.
pub open spec fn ends_a_line(s: Text, at: int, end: int) -> bool {
    &&& 0 <= at <= end <= s.len()
    &&& end < s.len() ==> s[end] == '\n'
    &&& forall|i: int| at <= i < end ==> s[i] != '\n'
}

/// The line an offset is on is one line: it starts and ends where the line breaks on
/// either side of it say.
pub proof fn every_offset_is_on_one_line(s: Text, start: int, at: int, end: int)
    requires
        starts_a_line(s, start, at),
        ends_a_line(s, at, end),
    ensures
        line_start(s, at) == start,
        line_end(s, at) == end,
{
    a_line_lies_between_its_breaks(s, at);
    let first = line_start(s, at);
    let last = line_end(s, at);
    if first < start {
        assert(s[start - 1] != '\n');
    }
    if start < first {
        assert(s[first - 1] != '\n');
    }
    if last < end {
        assert(s[last] != '\n');
    }
    if end < last {
        assert(s[end] != '\n');
    }
}

/// The keys to the ends of a line reach the offset after the line break before the
/// cursor and the one before the line break after it, or the ends of the text, and
/// change nothing but the cursor.
pub proof fn the_ends_of_a_line_are_its_breaks(
    field: FieldModel,
    value: Text,
    cursor: usize,
    lines: Lines,
    start: int,
    end: int,
)
    requires
        field.content == (Content::<Text, Seq<Choice>>::Text { value, cursor, lines }),
        starts_a_line(value, start, cursor as int),
        ends_a_line(value, cursor as int, end),
        value.len() <= usize::MAX,
    ensures
        field.applied(Action::MoveToStart) == (Field {
            content: Content::Text { value, cursor: start as usize, lines },
            ..field
        }),
        field.applied(Action::MoveToEnd) == (Field {
            content: Content::Text { value, cursor: end as usize, lines },
            ..field
        }),
{
    every_offset_is_on_one_line(value, start, cursor as int, end);
}

/// Moving up lands in the same column of the line above, or at its end where it is
/// shorter, and stays where there is no line above.
pub proof fn moving_up_keeps_the_column(
    field: FieldModel,
    value: Text,
    cursor: usize,
    lines: Lines,
    start: int,
    above: int,
)
    requires
        field.content == (Content::<Text, Seq<Choice>>::Text { value, cursor, lines }),
        starts_a_line(value, start, cursor as int),
        value.len() <= usize::MAX,
        start > 0 ==> starts_a_line(value, above, start - 1),
    ensures
        start == 0 ==> field.applied(Action::MoveUp) == field,
        start > 0 ==> field.applied(Action::MoveUp) == (Field {
            content: Content::Text {
                value,
                cursor: (if above + (cursor - start) <= start - 1 {
                    above + (cursor - start)
                } else {
                    start - 1
                }) as usize,
                lines,
            },
            ..field
        }),
{
    a_line_lies_between_its_breaks(value, cursor as int);
    every_offset_is_on_one_line(value, start, cursor as int, line_end(value, cursor as int));
    if start > 0 {
        a_line_lies_between_its_breaks(value, start - 1);
        every_offset_is_on_one_line(value, above, start - 1, line_end(value, start - 1));
    }
}

/// Moving down lands in the same column of the line below, or at its end where it is
/// shorter, and stays where there is no line below.
pub proof fn moving_down_keeps_the_column(
    field: FieldModel,
    value: Text,
    cursor: usize,
    lines: Lines,
    start: int,
    end: int,
    below_end: int,
)
    requires
        field.content == (Content::<Text, Seq<Choice>>::Text { value, cursor, lines }),
        starts_a_line(value, start, cursor as int),
        ends_a_line(value, cursor as int, end),
        value.len() <= usize::MAX,
        end < value.len() ==> ends_a_line(value, end + 1, below_end),
    ensures
        end == value.len() ==> field.applied(Action::MoveDown) == field,
        end < value.len() ==> field.applied(Action::MoveDown) == (Field {
            content: Content::Text {
                value,
                cursor: (if end + 1 + (cursor - start) <= below_end {
                    end + 1 + (cursor - start)
                } else {
                    below_end
                }) as usize,
                lines,
            },
            ..field
        }),
{
    every_offset_is_on_one_line(value, start, cursor as int, end);
    if end < value.len() {
        a_line_lies_between_its_breaks(value, end + 1);
        every_offset_is_on_one_line(value, line_start(value, end + 1), end + 1, below_end);
    }
}

/// A key that is not one of a field's own leaves the field exactly as it was.
pub proof fn a_field_answers_only_its_own_keys(field: FieldModel, action: Action)
    requires
        !(action is Insert),
        !(action is DeleteBefore),
        !(action is DeleteAfter),
        !(action is MoveLeft),
        !(action is MoveRight),
        !(action is MoveToStart),
        !(action is MoveToEnd),
        !(action is MoveUp),
        !(action is MoveDown),
    ensures
        field.applied(action) == field,
{
}

/// In a picker the vertical keys move the mark by one value and stop at the ends, a
/// mark that moved dirties the field, and no other key reaches it.
pub proof fn a_pickers_mark_moves_by_one_value(
    field: FieldModel,
    options: Seq<Choice>,
    at: usize,
    action: Action,
)
    requires
        field.content == (Content::<Text, Seq<Choice>>::Pick { options, at }),
        at < options.len() <= usize::MAX,
    ensures
        at > 0 ==> field.applied(Action::MoveUp) == (Field {
            content: Content::Pick { options, at: (at - 1) as usize },
            dirty: true,
            ..field
        }),
        at == 0 ==> field.applied(Action::MoveUp) == field,
        at + 1 < options.len() ==> field.applied(Action::MoveDown) == (Field {
            content: Content::Pick { options, at: (at + 1) as usize },
            dirty: true,
            ..field
        }),
        at + 1 == options.len() ==> field.applied(Action::MoveDown) == field,
        !(action is MoveUp) && !(action is MoveDown) ==> field.applied(action) == field,
{
}

/// The sieve keeps each character a field holds and drops each it does not, one by
/// one and in order.
pub proof fn the_sieve_judges_each_character_alone(a: Text, b: Text, c: char, lines: Lines)
    ensures
        sieved(a + b, lines) == sieved(a, lines) + sieved(b, lines),
        sieved(seq![c], lines) == (if c == '\r' || (c == '\n' && lines == Lines::One) {
            Seq::<char>::empty()
        } else {
            seq![c]
        }),
        sieved(Seq::<char>::empty(), lines) == Seq::<char>::empty(),
    decreases b.len(),
{
    let one = seq![c];
    assert(one.drop_last() =~= Seq::<char>::empty());
    assert(sieved(one.drop_last(), lines) == Seq::<char>::empty());
    assert(Seq::<char>::empty().push(c) =~= one);
    if b.len() == 0 {
        assert(a + b =~= a);
        assert(sieved(a, lines) + sieved(b, lines) =~= sieved(a, lines));
    } else {
        the_sieve_judges_each_character_alone(a, b.drop_last(), c, lines);
        assert((a + b).drop_last() =~= a + b.drop_last());
        assert((a + b).last() == b.last());
        assert(sieved(a + b, lines) =~= sieved(a, lines) + sieved(b, lines));
    }
}

/// An editor's result takes the place of the whole text, line breaks and all where the
/// field holds lines, with the cursor at its end and the field dirty.
pub proof fn an_editors_result_takes_the_place_of_the_text(
    field: FieldModel,
    value: Text,
    cursor: usize,
    lines: Lines,
    text: Text,
)
    requires
        field.content == (Content::<Text, Seq<Choice>>::Text { value, cursor, lines }),
        text.len() <= usize::MAX,
    ensures
        ({
            let after = field.replaced(text);
            &&& after.dirty
            &&& after.content matches Content::Text { value: taken, cursor: at, .. } && {
                &&& at == taken.len()
                &&& (forall|i: int|
                    0 <= i < text.len() ==> #[trigger] text[i] != '\r' && (text[i] == '\n'
                        ==> lines == Lines::Many)) ==> taken == text
                &&& !taken.contains('\r')
                &&& lines == Lines::One ==> !taken.contains('\n')
            }
        }),
{
    lemma_sieved(text, lines);
    if forall|i: int|
        0 <= i < text.len() ==> #[trigger] text[i] != '\r' && (text[i] == '\n' ==> lines
            == Lines::Many) {
        assert forall|i: int| 0 <= i < text.len() implies accepted(#[trigger] text[i], lines) by {}
        accepted_text_is_kept_whole(text, lines);
    }
    let taken = sieved(text, lines);
    assert forall|i: int| 0 <= i < taken.len() implies taken[i] != '\r' && (lines == Lines::One
        ==> taken[i] != '\n') by {
        assert(accepted(taken[i], lines));
    }
}

/// A field opens as it is asked for: an empty one holds nothing, one that replaces a
/// value holds the value with the cursor at its top, a checked one is a required line,
/// and none of them is dirty.
pub proof fn a_field_opens_as_it_is_asked_for(
    label: Text,
    required: bool,
    lines: Lines,
    check: Check,
    value: Text,
)
    ensures
        ({
            let empty = FieldModel::empty(label, required, lines);
            let checked = FieldModel::checking(label, check);
            let filled = FieldModel::starting_from(label, required, lines, value);
            &&& empty.label == label && empty.required == required && !empty.dirty
            &&& empty.check == Check::Store
            &&& empty.content == (Content::<Text, Seq<Choice>>::Text {
                value: Seq::empty(),
                cursor: 0,
                lines,
            })
            &&& checked.label == label && checked.required && !checked.dirty
            &&& checked.check == check
            &&& checked.content == (Content::<Text, Seq<Choice>>::Text {
                value: Seq::empty(),
                cursor: 0,
                lines: Lines::One,
            })
            &&& filled.label == label && filled.required == required && !filled.dirty
            &&& filled.check == Check::Store
            &&& filled.content matches Content::Text { value: held, cursor, lines: kind } && {
                &&& cursor == 0
                &&& kind == lines
                &&& (forall|i: int|
                    0 <= i < value.len() ==> #[trigger] value[i] != '\r' && (value[i] == '\n'
                        ==> lines == Lines::Many)) ==> held == value
            }
        }),
{
    if forall|i: int|
        0 <= i < value.len() ==> #[trigger] value[i] != '\r' && (value[i] == '\n' ==> lines
            == Lines::Many) {
        assert forall|i: int| 0 <= i < value.len() implies accepted(#[trigger] value[i], lines) by {}
        accepted_text_is_kept_whole(value, lines);
    }
}

/// A picker opens with the values it is given, on the first that is the one it is
/// asked to start on, or on the first of all where none is; it is neither required nor
/// dirty.
pub proof fn a_picker_opens_on_the_first_match(
    label: Text,
    options: Seq<Choice>,
    on: Choice,
    i: int,
)
    requires
        options.len() <= usize::MAX,
        0 <= i <= options.len(),
        forall|j: int| 0 <= j < i ==> options[j] != on,
        i < options.len() ==> options[i] == on,
    ensures
        FieldModel::picking(label, options, on) == (Field {
            label,
            required: false,
            check: Check::Store,
            content: Content::Pick {
                options,
                at: (if i < options.len() {
                    i
                } else {
                    0
                }) as usize,
            },
            dirty: false,
        }),
{
    lemma_first_at(options, on, i);
}

proof fn lemma_first_at(options: Seq<Choice>, on: Choice, i: int)
    requires
        0 <= i <= options.len(),
        forall|j: int| 0 <= j < i ==> options[j] != on,
        i < options.len() ==> options[i] == on,
    ensures
        first_of(options, on) == (if i < options.len() {
            Some(i)
        } else {
            None
        }),
    decreases options.len(),
{
    if i > 0 {
        assert(options[0] != on);
        lemma_first_at(options.drop_first(), on, i - 1);
    }
}

/// What a field holds is read off its content: text is a field of text's and a marked
/// value a picker's.
pub proof fn a_field_is_read_off_its_content(
    field: FieldModel,
    value: Text,
    cursor: usize,
    lines: Lines,
    options: Seq<Choice>,
    at: usize,
)
    ensures
        field.content == (Content::<Text, Seq<Choice>>::Text { value, cursor, lines }) ==> {
            &&& field.spec_text() == Some(value)
            &&& field.spec_chosen() is None
            &&& field.spec_kind() == (if lines == Lines::One {
                FieldKind::OneLine
            } else {
                FieldKind::ManyLines
            })
            &&& field.spec_unfilled() <==> field.required && forall|i: int|
                0 <= i < value.len() ==> crate::text::is_blank_char(#[trigger] value[i])
            &&& field.spec_rejected() == field.check.objects(value)
        },
        field.content == (Content::<Text, Seq<Choice>>::Pick { options, at }) ==> {
            &&& field.spec_text() is None
            &&& field.spec_chosen() == (if at < options.len() {
                Some(options[at as int])
            } else {
                None
            })
            &&& field.spec_kind() == FieldKind::Pick
            &&& !field.spec_unfilled()
            &&& field.spec_rejected() is None
        },
{
}

/// An epic id is refused exactly where it holds a separator or is one of the two names
/// that mean a directory, and the reader is told what an id is.
pub proof fn an_epic_id_is_one_plain_name(value: Text)
    ensures
        Check::EpicId.objects(value) is Some <==> {
            ||| exists|i: int| 0 <= i < value.len() && value[i] == '/'
            ||| value == seq!['.']
            ||| value == seq!['.', '.']
        },
        Check::EpicId.objects(value) matches Some(why) ==> why
            == "an epic id is one name: it cannot contain / and cannot be . or .."@,
        Check::Store.objects(value) is None,
{
    reveal_strlit(".");
    reveal_strlit("..");
    assert("."@ =~= seq!['.']);
    assert(".."@ =~= seq!['.', '.']);
}

/// A value is picked by the store's own word for a state, and by a plain answer to the
/// question of a cascade.
pub proof fn a_choice_goes_by_its_own_word(state: State)
    ensures
        Choice::State(state).called() == state.word(),
        Choice::Cascade(true).called() == "yes"@,
        Choice::Cascade(false).called() == "no"@,
{
}

/// A field is known by what it holds, text by its characters and a picker by its values.
pub proof fn a_field_is_known_by_what_it_holds(
    inside: &Content,
    held: &Field,
)
    ensures
        inside@ == ({
            match inside {
                Content::Text { value, cursor, lines } => Content::Text {
                    value: value@,
                    cursor: *cursor,
                    lines: *lines,
                },
                Content::Pick { options, at } => Content::Pick { options: options@, at: *at },
            }
        }),
        held@ == ({
            Field {
                label: held.label@,
                required: held.required,
                check: held.check,
                content: held.content@,
                dirty: held.dirty,
            }
        }),
{
}

} // verus!

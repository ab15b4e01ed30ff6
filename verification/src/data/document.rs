//! The documents the preview pane shows for rows no other surface has a document
//! for, and the sizes and texts in them.
use crate::data::row::CommentView;
use crate::data::{Container, Selection};
use crate::moment::timestamp_text;
use crate::text::{as_block, decimal, joined, joined3, number_text, push_block, same_text, Text};
use vstd::prelude::*;
use vstd::utf8::{decode_utf8, valid_utf8};

verus! {

/// The bytes in a kibibyte.
pub const KIB: u128 = 1024;

/// The bytes in a mebibyte.
pub const MIB: u128 = 1048576;

/// The first whole number a double cannot tell from its successor.
pub const DOUBLE_LIMIT: u128 = 9007199254740992;

/// A number over a divisor, rounded to the nearest whole number and to the even
/// one where two are equally near.
pub open spec fn half_even(n: nat, d: nat) -> nat {
    let q = n / d;
    let r = n % d;
    if 2 * r < d || (2 * r == d && q % 2 == 0) {
        q
    } else {
        q + 1
    }
}

/// How far apart the doubles around a whole number are.
pub open spec fn double_step(n: nat) -> nat
    decreases n,
{
    if n < DOUBLE_LIMIT {
        1
    } else {
        2 * double_step(n / 2)
    }
}

/// The double nearest a whole number: the number itself wherever a double can hold
/// it.
pub open spec fn as_double(n: nat) -> nat {
    half_even(n, double_step(n)) * double_step(n)
}

/// A count of tenths as it is written, with its unit.
pub open spec fn tenths_text(tenths: nat, unit: Text) -> Text {
    decimal(tenths / 10) + "."@ + decimal(tenths % 10) + unit
}

/// A byte count as a reader scans it.
pub open spec fn size_text(bytes: nat) -> Text {
    if bytes < KIB {
        decimal(bytes) + " B"@
    } else if bytes < MIB {
        tenths_text(half_even(10 * bytes, KIB as nat), " KiB"@)
    } else {
        tenths_text(half_even(10 * as_double(bytes), MIB as nat), " MiB"@)
    }
}

/// A number over a divisor, rounded half to even.
fn rounded(n: u128, d: u128) -> (r: u128)
    requires
        0 < d <= u64::MAX,
        n < u128::MAX,
    ensures
        r == half_even(n as nat, d as nat),
        r <= n + 1,
{
    let q: u128 = n / d;
    let rest: u128 = n % d;
    proof {
        vstd::arithmetic::div_mod::lemma_div_is_ordered_by_denominator(n as int, 1, d as int);
        vstd::arithmetic::div_mod::lemma_mod_bound(n as int, d as int);
    }
    if 2 * rest < d || (2 * rest == d && q % 2 == 0) {
        q
    } else {
        q + 1
    }
}

/// How far apart the doubles around a whole number are.
fn step_at(n: u64) -> (r: u128)
    ensures
        r == double_step(n as nat),
        0 < r <= u64::MAX,
{
    let mut step: u128 = 1;
    let mut top: u128 = n as u128;
    while top >= DOUBLE_LIMIT
        invariant
            step > 0,
            top * step <= n,
            step * double_step(top as nat) == double_step(n as nat),
        decreases top,
    {
        proof {
            let t = top as int;
            let s = step as int;
            assert((t / 2) * (2 * s) <= t * s) by (nonlinear_arith)
                requires
                    t >= 0,
                    s > 0,
            ;
            assert(s <= t * s) by (nonlinear_arith)
                requires
                    t >= 1,
                    s > 0,
            ;
            let rest = double_step((top / 2) as nat) as int;
            assert((2 * s) * rest == s * (2 * rest)) by (nonlinear_arith);
            assert(double_step(top as nat) == 2 * rest);
        }
        step = step * 2;
        top = top / 2;
    }
    proof {
        let t = top as int;
        let s = step as int;
        if n < DOUBLE_LIMIT {
            lemma_step_one(n as nat);
        } else {
            lemma_step_bounded(n as nat);
        }
        assert(s * 1 == s);
    }
    step
}

/// Below the limit the doubles are the whole numbers themselves.
proof fn lemma_step_one(n: nat)
    requires
        n < DOUBLE_LIMIT,
    ensures
        double_step(n) == 1,
{
}

/// The doubles around a number are never further apart than the number is large.
proof fn lemma_step_bounded(n: nat)
    requires
        n > 0,
    ensures
        0 < double_step(n) <= n,
    decreases n,
{
    if n >= DOUBLE_LIMIT {
        lemma_step_bounded(n / 2);
    }
}

/// A count of tenths as it is written, with its unit.
fn tenths(count: u64, unit: &str) -> (r: String)
    ensures
        r@ == tenths_text(count as nat, unit@),
{
    joined(&joined3(&number_text(count / 10), ".", &number_text(count % 10)), unit)
}

/// A byte count as a reader scans it. Binary units, because an asset is a file
/// on disk, and one decimal above bytes, because the size is a hint rather than
/// a figure to compute with.
pub fn human_size(bytes: u64) -> (r: String)
    ensures
        r@ == size_text(bytes as nat),
{
    if (bytes as u128) < KIB {
        joined(&number_text(bytes), " B")
    } else if (bytes as u128) < MIB {
        tenths(rounded(10 * (bytes as u128), KIB) as u64, " KiB")
    } else {
        let step = step_at(bytes);
        let steps = rounded(bytes as u128, step);
        proof {
            lemma_double_is_near(bytes as nat);
        }
        let size: u128 = steps * step;
        let shown = rounded(10 * size, MIB);
        proof {
            lemma_half_even_bounded(10 * size as nat, MIB as nat);
        }
        tenths(shown as u64, " MiB")
    }
}

/// Rounding lands within one of the quotient.
proof fn lemma_half_even_bounded(n: nat, d: nat)
    requires
        d > 0,
    ensures
        n / d <= half_even(n, d) <= n / d + 1,
{
}

/// The double nearest a number is at most one step above it.
proof fn lemma_double_is_near(n: nat)
    requires
        0 < n <= u64::MAX,
    ensures
        as_double(n) <= 2 * n,
        half_even(n, double_step(n)) * double_step(n) == as_double(n),
{
    lemma_step_bounded(n);
    let d = double_step(n);
    lemma_half_even_bounded(n, d);
    let q = (n / d) as int;
    let h = half_even(n, d) as int;
    vstd::arithmetic::div_mod::lemma_fundamental_div_mod(n as int, d as int);
    assert(h * d <= (q + 1) * d) by (nonlinear_arith)
        requires
            h <= q + 1,
            d > 0,
    ;
    assert((q + 1) * d == d * q + d) by (nonlinear_arith);
}

/// A size above a kibibyte is shown to the nearest tenth of its unit: what is
/// shown is never further from the size than half a tenth.
pub proof fn a_size_is_shown_to_the_nearest_tenth(size: nat, unit: nat)
    requires
        unit > 0,
    ensures
        2 * (half_even(10 * size, unit) * unit - 10 * size) <= unit,
        2 * (10 * size - half_even(10 * size, unit) * unit) <= unit,
{
    let n = 10 * size;
    vstd::arithmetic::div_mod::lemma_fundamental_div_mod(n as int, unit as int);
    let q = (n / unit) as int;
    let u = unit as int;
    assert((q + 1) * u == u * q + u) by (nonlinear_arith);
    assert(q * u == u * q) by (nonlinear_arith);
}

/// A size a double holds exactly is shown for what it is.
pub proof fn a_double_holds_small_sizes_exactly(n: nat)
    requires
        n < DOUBLE_LIMIT,
    ensures
        as_double(n) == n,
{
    lemma_step_one(n);
    assert(n / 1 == n && n % 1 == 0);
}

/// `String::from_utf8`: bytes decode exactly when they are valid UTF-8, and to the
/// characters they encode.
#[verifier::external_body]
fn decoded(bytes: &Vec<u8>) -> (r: Option<String>)
    ensures
        r is Some <==> valid_utf8(bytes@),
        r matches Some(text) ==> text@ == decode_utf8(bytes@),
{
    String::from_utf8(bytes.to_vec()).ok()
}

/// Whether a character is a control character.
pub open spec fn is_control(c: char) -> bool {
    c <= '\u{1f}' || '\u{7f}' <= c <= '\u{9f}'
}

/// Whether a pane can show a character: a tab, a line break, a carriage return, or
/// anything that is not a control character.
pub open spec fn is_printable(c: char) -> bool {
    !is_control(c) || c == '\t' || c == '\n' || c == '\r'
}

/// The text bytes are, if they are text a pane can render.
pub open spec fn text_of(bytes: Seq<u8>) -> Option<Text> {
    let chars = decode_utf8(bytes);
    if valid_utf8(bytes) && (forall|i: int| 0 <= i < chars.len() ==> is_printable(#[trigger] chars[i]))
    {
        Some(chars)
    } else {
        None
    }
}

/// An asset's bytes as text a pane can render: valid UTF-8 carrying no control
/// characters beyond tab, newline and carriage return.
///
/// Valid UTF-8 on its own is not the test. A short binary payload can decode
/// cleanly and still be control bytes, and printing those would scramble the
/// screen.
pub fn as_text(bytes: &Vec<u8>) -> (r: Option<String>)
    ensures
        (match r {
            Some(text) => text_of(bytes@) == Some(text@),
            None => text_of(bytes@) is None,
        }),
{
    match decoded(bytes) {
        None => None,
        Some(text) => {
            let chars = crate::text::chars_of(&text);
            let mut i: usize = 0;
            while i < chars.len()
                invariant
                    i <= chars.len(),
                    chars@ == decode_utf8(bytes@),
                    valid_utf8(bytes@),
                    forall|j: int| 0 <= j < i ==> is_printable(#[trigger] chars@[j]),
                decreases chars.len() - i,
            {
                let c = chars[i];
                let control = c <= '\u{1f}' || ('\u{7f}' <= c && c <= '\u{9f}');
                if control && c != '\t' && c != '\n' && c != '\r' {
                    assert(!is_printable(chars@[i as int]));
                    return None;
                }
                i += 1;
            }
            Some(text)
        },
    }
}

/// The row both composed documents open their table with.
pub open spec fn table_head() -> Text {
    "| field | value |\n|---|---|\n"@
}

/// The document of one comment.
pub open spec fn comment_shown(comment: CommentView) -> Text {
    match comment {
        CommentView::Live { id, author, created, text } => table_head() + "| comment | "@ + decimal(
            id as nat,
        ) + " |\n| author | "@ + author.name@ + " |\n| written | "@ + timestamp_text(created@)
            + " |\n"@ + "\n"@ + as_block(text@),
        CommentView::Tombstone { id, author, created } => table_head() + "| comment | "@ + decimal(
            id as nat,
        ) + " |\n| author | "@ + author.name@ + " |\n| written | "@ + timestamp_text(created@)
            + " |\n"@
            + "| state | withdrawn |\n\n_Withdrawn: the text is not shown. The entry stays because a comment id is never reused._\n"@,
    }
}

/// The number of a comment, withdrawn or not.
pub open spec fn number_of(comment: CommentView) -> u64 {
    match comment {
        CommentView::Live { id, .. } => id,
        CommentView::Tombstone { id, .. } => id,
    }
}

/// The first comment of a thread with this number.
pub open spec fn comment_numbered(comments: Seq<CommentView>, id: u64) -> Option<CommentView>
    decreases comments.len(),
{
    if comments.len() == 0 {
        None
    } else if number_of(comments[0]) == id {
        Some(comments[0])
    } else {
        comment_numbered(comments.drop_first(), id)
    }
}

/// One comment as a document: who wrote it, when in full, and the text as
/// markdown. A withdrawn comment's text is withheld by the read, so its document
/// says that instead — and keeps its id, which is never reused.
pub fn comment_document(id: u64, comments: &Vec<CommentView>) -> (r: Result<String, String>)
    ensures
        (match r {
            Ok(document) => comment_numbered(comments@, id) matches Some(comment) && document@
                == comment_shown(comment),
            Err(words) => comment_numbered(comments@, id) is None && words@ == "comment "@
                + decimal(id as nat) + " does not exist"@,
        }),
{
    let mut i: usize = 0;
    assert(comments@.skip(0) == comments@);
    while i < comments.len()
        invariant
            i <= comments.len(),
            comment_numbered(comments@, id) == comment_numbered(comments@.skip(i as int), id),
        decreases comments.len() - i,
    {
        let number: u64 = match &comments[i] {
            CommentView::Live { id, .. } => *id,
            CommentView::Tombstone { id, .. } => *id,
        };
        if number == id {
            return Ok(comment_page(&comments[i]));
        }
        assert(comments@.skip(i as int).drop_first() == comments@.skip(i + 1));
        i += 1;
    }
    Err(joined3("comment ", &number_text(id), " does not exist"))
}

/// The document of one comment.
fn comment_page(comment: &CommentView) -> (r: String)
    ensures
        r@ == comment_shown(*comment),
{
    let mut doc = "| field | value |\n|---|---|\n".to_owned();
    match comment {
        CommentView::Live { id, author, created, text } => {
            doc.append("| comment | ");
            doc.append(&number_text(*id));
            doc.append(" |\n| author | ");
            doc.append(&author.name);
            doc.append(" |\n| written | ");
            doc.append(&created.shown());
            doc.append(" |\n");
            doc.append("\n");
            push_block(&mut doc, text);
        },
        CommentView::Tombstone { id, author, created } => {
            doc.append("| comment | ");
            doc.append(&number_text(*id));
            doc.append(" |\n| author | ");
            doc.append(&author.name);
            doc.append(" |\n| written | ");
            doc.append(&created.shown());
            doc.append(" |\n");
            doc.append(
                "| state | withdrawn |\n\n_Withdrawn: the text is not shown. The entry stays because a comment id is never reused._\n",
            );
        },
    }
    doc
}

/// One asset as its container's index describes it.
#[derive(Debug, PartialEq, Eq)]
pub struct AssetEntry {
    /// The name it is attached under.
    pub name: String,
    /// What it was described as, if it was.
    pub description: Option<String>,
}

/// The description the first entry of an index with this name carries.
pub open spec fn description_of(assets: Seq<AssetEntry>, name: Text) -> Option<Text>
    decreases assets.len(),
{
    if assets.len() == 0 {
        None
    } else if assets[0].name@ == name {
        crate::data::entity::text_in(assets[0].description)
    } else {
        description_of(assets.drop_first(), name)
    }
}

/// The metadata an asset's document opens with.
pub open spec fn asset_head(name: Text, bytes: Seq<u8>, description: Option<Text>) -> Text {
    let head = table_head() + "| asset | "@ + name + " |\n| size | "@ + size_text(bytes.len())
        + " |\n| type | "@ + (if text_of(bytes) is Some {
        "text"@
    } else {
        "binary"@
    }) + " |\n"@;
    match description {
        Some(description) => head + "| description | "@ + description + " |\n"@,
        None => head,
    }
}

/// The document of one asset.
pub open spec fn asset_shown(
    container: Container<Text>,
    name: Text,
    bytes: Seq<u8>,
    description: Option<Text>,
) -> Text {
    let head = asset_head(name, bytes, description) + "\n## Content\n\n"@;
    match text_of(bytes) {
        Some(text) => head + as_block(text),
        None => head
            + "_Not text, so it is not shown. Write the bytes out with_\n\n```\nloti "@
            + container.spec_cli_noun() + " asset show "@ + container.spec_reference() + " "@ + name
            + "\n```\n"@,
    }
}

/// The description an asset's index entry carries, if it carries one.
fn description_in(assets: &Vec<AssetEntry>, name: &str) -> (r: Option<String>)
    ensures
        crate::data::entity::text_in(r) == description_of(assets@, name@),
{
    let mut i: usize = 0;
    assert(assets@.skip(0) == assets@);
    while i < assets.len()
        invariant
            i <= assets.len(),
            description_of(assets@, name@) == description_of(assets@.skip(i as int), name@),
        decreases assets.len() - i,
    {
        if same_text(&assets[i].name, name) {
            return match &assets[i].description {
                Some(description) => Some(description.clone()),
                None => None,
            };
        }
        assert(assets@.skip(i as int).drop_first() == assets@.skip(i + 1));
        i += 1;
    }
    None
}

/// One asset as a document: its metadata, then its content. Binary content gets
/// a stub naming the command that writes the bytes out, because raw bytes in a
/// terminal scramble the screen.
pub fn asset_document(
    container: &Container,
    name: &str,
    bytes: &Vec<u8>,
    assets: &Vec<AssetEntry>,
) -> (r: String)
    ensures
        r@ == asset_shown(container@, name@, bytes@, description_of(assets@, name@)),
{
    let description = description_in(assets, name);
    let text = as_text(bytes);
    let mut doc = "| field | value |\n|---|---|\n".to_owned();
    doc.append("| asset | ");
    doc.append(name);
    doc.append(" |\n| size | ");
    doc.append(&human_size(bytes.len() as u64));
    doc.append(" |\n| type | ");
    doc.append(
        if text.is_some() {
            "text"
        } else {
            "binary"
        },
    );
    doc.append(" |\n");
    if let Some(description) = &description {
        doc.append("| description | ");
        doc.append(description);
        doc.append(" |\n");
    }
    doc.append("\n## Content\n\n");
    match &text {
        Some(text) => {
            push_block(&mut doc, text);
        },
        None => {
            doc.append("_Not text, so it is not shown. Write the bytes out with_\n\n```\nloti ");
            doc.append(container.cli_noun());
            doc.append(" asset show ");
            doc.append(&container.reference());
            doc.append(" ");
            doc.append(name);
            doc.append("\n```\n");
        },
    }
    doc
}

/// Which document the preview pane shows.
#[derive(Debug, PartialEq, Eq)]
#[verifier::ext_equal]
pub enum Document<S = String> {
    /// An epic's or a node's, exactly as the command line prints it.
    Entity(Container<S>),
    /// One comment's, composed from its container's thread.
    Comment(Container<S>, u64),
    /// One asset's, composed from its bytes and its container's index.
    Asset(Container<S>, S),
}

impl View for Document {
    type V = Document<Text>;

    open spec fn view(&self) -> Document<Text> {
        match self {
            Document::Entity(container) => Document::Entity(container@),
            Document::Comment(container, id) => Document::Comment(container@, *id),
            Document::Asset(container, name) => Document::Asset(container@, name@),
        }
    }
}

/// The document a selection's preview shows.
pub open spec fn previewed(selection: Selection<Text>) -> Document<Text> {
    match selection {
        Selection::Epic(id) => Document::Entity(Container::Epic(id)),
        Selection::Node(node) => Document::Entity(Container::Node(node)),
        Selection::Collection(container, _) => Document::Entity(container),
        Selection::Label(container, _) => Document::Entity(container),
        Selection::UnremovableBlocker(container, _) => Document::Entity(container),
        Selection::Comment(container, id) => Document::Comment(container, id),
        Selection::Asset(container, name) => Document::Asset(container, name),
        Selection::Blocker(_, node) => Document::Entity(Container::Node(node)),
    }
}

/// The document a selection's preview shows.
///
/// A collection, a label and an unremovable blocker have no document of their own,
/// so the pane keeps the container's. A blocker's is the ticket it points at, so
/// what blocks you is readable without leaving the level. A comment and an asset
/// get a document composed here, because no other surface needs one.
pub fn preview(selection: &Selection) -> (r: Document)
    ensures
        r@ == previewed(selection@),
{
    match selection {
        Selection::Epic(id) => Document::Entity(Container::Epic(id.clone())),
        Selection::Node(node) => Document::Entity(Container::Node(node.clone())),
        Selection::Collection(container, _) => Document::Entity(container.clone()),
        Selection::Label(container, _) => Document::Entity(container.clone()),
        Selection::UnremovableBlocker(container, _) => Document::Entity(container.clone()),
        Selection::Comment(container, id) => Document::Comment(container.clone(), *id),
        Selection::Asset(container, name) => Document::Asset(container.clone(), name.clone()),
        Selection::Blocker(_, node) => Document::Entity(Container::Node(node.clone())),
    }
}

/// What a preview shows is decided by the document identity alone: rows that share
/// one show the same content.
pub proof fn a_preview_is_its_documents(a: Selection<Text>, b: Selection<Text>)
    requires
        a.spec_document() == b.spec_document(),
    ensures
        previewed(a) == previewed(b),
        previewed(a) == previewed(a.spec_document()),
{
}

/// There is one nearest whole number, the even one where two are equally near.
proof fn lemma_nearest(n: nat, d: nat, t: nat)
    requires
        d > 0,
        -(d as int) < 2 * (t * d - n) < d || ((2 * (t * d - n) == d || 2 * (n - t * d) == d) && t
            % 2 == 0),
    ensures
        half_even(n, d) == t,
{
    let (q, r) = ((n / d) as int, (n % d) as int);
    vstd::arithmetic::div_mod::lemma_fundamental_div_mod(n as int, d as int);
    let (i, u) = (t as int, d as int);
    assert(u * q == q * u) by (nonlinear_arith);
    if i < q {
        assert(i * u <= (q - 1) * u) by (nonlinear_arith)
            requires
                i <= q - 1,
                u > 0,
        ;
        assert((q - 1) * u == q * u - u) by (nonlinear_arith);
    } else if i > q + 1 {
        assert(i * u >= (q + 2) * u) by (nonlinear_arith)
            requires
                i >= q + 2,
                u > 0,
        ;
        assert((q + 2) * u == q * u + 2 * u) by (nonlinear_arith);
    } else if i == q + 1 {
        assert((q + 1) * u == q * u + u) by (nonlinear_arith);
    }
}

/// A size is bytes below a kibibyte, tenths of a kibibyte below a mebibyte and tenths of
/// a mebibyte from there on; and the tenths shown are the nearest there are to the size,
/// the even number of them where two are equally near.
pub proof fn a_size_is_the_nearest_tenth_of_its_unit(bytes: nat, tenths: nat)
    ensures
        bytes < 1024 ==> size_text(bytes) == decimal(bytes) + " B"@,
        1024 <= bytes < 1048576 && (-1024 < 2 * (tenths * 1024 - 10 * bytes) < 1024 || ((2 * (tenths
            * 1024 - 10 * bytes) == 1024 || 2 * (10 * bytes - tenths * 1024) == 1024) && tenths % 2
            == 0)) ==> size_text(bytes) == decimal(tenths / 10) + "."@ + decimal(tenths % 10)
            + " KiB"@,
        1048576 <= bytes < 9007199254740992 && (-1048576 < 2 * (tenths * 1048576 - 10 * bytes)
            < 1048576 || ((2 * (tenths * 1048576 - 10 * bytes) == 1048576 || 2 * (10 * bytes
            - tenths * 1048576) == 1048576) && tenths % 2 == 0)) ==> size_text(bytes) == decimal(
            tenths / 10,
        ) + "."@ + decimal(tenths % 10) + " MiB"@,
{
    if 1024 <= bytes < 1048576 && (-1024 < 2 * (tenths * 1024 - 10 * bytes) < 1024 || ((2 * (tenths
        * 1024 - 10 * bytes) == 1024 || 2 * (10 * bytes - tenths * 1024) == 1024) && tenths % 2
        == 0)) {
        lemma_nearest(10 * bytes, 1024, tenths);
    }
    if 1048576 <= bytes < 9007199254740992 && (-1048576 < 2 * (tenths * 1048576 - 10 * bytes)
        < 1048576 || ((2 * (tenths * 1048576 - 10 * bytes) == 1048576 || 2 * (10 * bytes - tenths
        * 1048576) == 1048576) && tenths % 2 == 0)) {
        a_double_holds_small_sizes_exactly(bytes);
        lemma_nearest(10 * bytes, 1048576, tenths);
    }
}

/// Sizes a double cannot tell apart are shown alike: from the first whole number it
/// cannot tell from its successor on, twice the size has doubles twice as far apart, and
/// a size is shown as the double nearest to it, the even one where two are equally near.
pub proof fn a_large_size_is_shown_as_the_nearest_double(
    bytes: nat,
    steps: nat,
    shown: nat,
    tenths: nat,
)
    requires
        bytes >= 9007199254740992,
        shown == steps * double_step(bytes),
        -(double_step(bytes) as int) < 2 * (shown - bytes) < double_step(bytes) || ((2 * (shown
            - bytes) == double_step(bytes) || 2 * (bytes - shown) == double_step(bytes)) && steps
            % 2 == 0),
        -1048576 < 2 * (tenths * 1048576 - 10 * shown) < 1048576 || ((2 * (tenths * 1048576 - 10
            * shown) == 1048576 || 2 * (10 * shown - tenths * 1048576) == 1048576) && tenths % 2
            == 0),
    ensures
        double_step(bytes) == 2 * double_step(bytes / 2),
        bytes < 18014398509481984 ==> double_step(bytes) == 2,
        size_text(bytes) == decimal(tenths / 10) + "."@ + decimal(tenths % 10) + " MiB"@,
{
    lemma_step_bounded(bytes);
    if bytes < 18014398509481984 {
        lemma_step_one(bytes / 2);
    }
    lemma_nearest(bytes, double_step(bytes), steps);
    assert(as_double(bytes) == shown);
    lemma_nearest(10 * shown, 1048576, tenths);
}

/// Bytes are text exactly where they are UTF-8 with nothing in them a pane cannot show:
/// no control character but the tab, the line break and the carriage return; and the text
/// is what they decode to.
pub proof fn bytes_are_text_where_a_pane_can_show_them(bytes: Seq<u8>)
    ensures
        text_of(bytes) is Some <==> valid_utf8(bytes) && forall|i: int|
            0 <= i < decode_utf8(bytes).len() ==> {
                let code = (#[trigger] decode_utf8(bytes)[i]) as int;
                code == 9 || code == 10 || code == 13 || (code > 31 && !(127 <= code <= 159))
            },
        text_of(bytes) matches Some(text) ==> text == decode_utf8(bytes),
{
    let chars = decode_utf8(bytes);
    if forall|i: int| 0 <= i < chars.len() ==> is_printable(#[trigger] chars[i]) {
        assert forall|i: int| 0 <= i < chars.len() implies {
            let code = (#[trigger] chars[i]) as int;
            code == 9 || code == 10 || code == 13 || (code > 31 && !(127 <= code <= 159))
        } by {
            assert(is_printable(chars[i]));
        }
    }
}

proof fn lemma_comment_numbered(comments: Seq<CommentView>, id: u64, i: int)
    requires
        0 <= i <= comments.len(),
        forall|j: int| 0 <= j < i ==> number_of(#[trigger] comments[j]) != id,
        i < comments.len() ==> number_of(comments[i]) == id,
    ensures
        comment_numbered(comments, id) == (if i < comments.len() {
            Some(comments[i])
        } else {
            None
        }),
    decreases comments.len(),
{
    if i > 0 {
        assert(number_of(comments[0]) != id);
        let rest = comments.drop_first();
        assert forall|j: int| 0 <= j < i - 1 implies number_of(#[trigger] rest[j]) != id by {
            assert(rest[j] == comments[j + 1]);
        }
        lemma_comment_numbered(rest, id, i - 1);
    }
}

/// A comment is found by its number, the first of a thread that has it, withdrawn or not;
/// `i` is that comment's place, or past the last where there is none.
pub proof fn a_comment_is_found_by_its_number(comments: Seq<CommentView>, id: u64, i: int)
    requires
        0 <= i <= comments.len(),
        forall|j: int|
            0 <= j < i ==> (match #[trigger] comments[j] {
                CommentView::Live { id: number, .. } => number != id,
                CommentView::Tombstone { id: number, .. } => number != id,
            }),
        i < comments.len() ==> (match comments[i] {
            CommentView::Live { id: number, .. } => number == id,
            CommentView::Tombstone { id: number, .. } => number == id,
        }),
    ensures
        i < comments.len() ==> comment_numbered(comments, id) == Some(comments[i]),
        i == comments.len() ==> comment_numbered(comments, id) is None,
{
    assert forall|j: int| 0 <= j < i implies number_of(#[trigger] comments[j]) != id by {
        assert(match comments[j] {
            CommentView::Live { id: number, .. } => number != id,
            CommentView::Tombstone { id: number, .. } => number != id,
        });
    }
    lemma_comment_numbered(comments, id, i);
}

/// A comment's document says its number, who wrote it and when, and then the whole of its
/// text; a withdrawn one's says the same of it, and that the text is withheld.
pub proof fn a_comments_document_is_its_heading_and_its_text(
    id: u64,
    author: crate::data::row::Author,
    created: crate::moment::Moment,
    text: String,
)
    ensures
        ({
            let heading = "| field | value |\n|---|---|\n"@ + "| comment | "@ + decimal(id as nat)
                + " |\n| author | "@ + author.name@ + " |\n| written | "@ + timestamp_text(created@)
                + " |\n"@;
            let live = comment_shown(CommentView::Live { id, author, created, text });
            let gone = comment_shown(CommentView::Tombstone { id, author, created });
            &&& live == heading + "\n"@ + as_block(text@)
            &&& gone == heading
                + "| state | withdrawn |\n\n_Withdrawn: the text is not shown. The entry stays because a comment id is never reused._\n"@
        }),
{
}

proof fn lemma_description(assets: Seq<AssetEntry>, name: Text, i: int)
    requires
        0 <= i <= assets.len(),
        forall|j: int| 0 <= j < i ==> (#[trigger] assets[j]).name@ != name,
        i < assets.len() ==> assets[i].name@ == name,
    ensures
        description_of(assets, name) == (if i < assets.len() {
            crate::data::entity::text_in(assets[i].description)
        } else {
            None
        }),
    decreases assets.len(),
{
    if i > 0 {
        assert(assets[0].name@ != name);
        let rest = assets.drop_first();
        assert forall|j: int| 0 <= j < i - 1 implies (#[trigger] rest[j]).name@ != name by {
            assert(rest[j] == assets[j + 1]);
        }
        lemma_description(rest, name, i - 1);
    }
}

/// An asset is described as its own index entry describes it, the first of that name, and
/// not at all where that entry does not or there is none.
pub proof fn an_asset_is_described_by_its_own_entry(assets: Seq<AssetEntry>, name: Text, i: int)
    requires
        0 <= i <= assets.len(),
        forall|j: int| 0 <= j < i ==> (#[trigger] assets[j]).name@ != name,
        i < assets.len() ==> assets[i].name@ == name,
    ensures
        i == assets.len() ==> description_of(assets, name) is None,
        i < assets.len() ==> {
            &&& assets[i].description is None ==> description_of(assets, name) is None
            &&& assets[i].description matches Some(description) ==> description_of(assets, name)
                == Some(description@)
        },
{
    lemma_description(assets, name, i);
}

/// An asset's document opens with its metadata whatever its bytes are — its name, its
/// size, whether it is text, and its description wherever its entry carries one — and
/// goes on with its content: the text itself, or the command that writes the bytes out.
pub proof fn an_assets_document_is_its_metadata_and_its_content(
    container: Container<Text>,
    name: Text,
    bytes: Seq<u8>,
    described: Option<Text>,
)
    ensures
        ({
            let document = asset_shown(container, name, bytes, described);
            let heading = "| field | value |\n|---|---|\n"@ + "| asset | "@ + name
                + " |\n| size | "@ + size_text(bytes.len()) + " |\n| type | "@;
            let text = heading + "text"@ + " |\n"@;
            let binary = heading + "binary"@ + " |\n"@;
            let row = match described {
                Some(description) => "| description | "@ + description + " |\n"@,
                None => Seq::<char>::empty(),
            };
            let command =
                "_Not text, so it is not shown. Write the bytes out with_\n\n```\nloti "@
                + container.spec_cli_noun() + " asset show "@ + container.spec_reference() + " "@
                + name + "\n```\n"@;
            &&& text_of(bytes) matches Some(content) ==> document == text + row
                + "\n## Content\n\n"@ + as_block(content)
            &&& text_of(bytes) is None ==> document == binary + row + "\n## Content\n\n"@
                + command
        }),
{
    let heading = "| field | value |\n|---|---|\n"@ + "| asset | "@ + name + " |\n| size | "@
        + size_text(bytes.len()) + " |\n| type | "@;
    let row = match described {
        Some(description) => "| description | "@ + description + " |\n"@,
        None => Seq::<char>::empty(),
    };
    let typed = heading + (if text_of(bytes) is Some {
        "text"@
    } else {
        "binary"@
    }) + " |\n"@;
    assert(asset_head(name, bytes, described) =~= typed + row);
    if text_of(bytes) is None {
        let command = "_Not text, so it is not shown. Write the bytes out with_\n\n```\nloti "@
            + container.spec_cli_noun() + " asset show "@ + container.spec_reference() + " "@ + name
            + "\n```\n"@;
        assert(asset_shown(container, name, bytes, described) =~= typed + row
            + "\n## Content\n\n"@ + command);
    }
}

/// A preview shows the document of what the row points at: an entity's own, a comment's
/// and an asset's composed from their container, a blocker's the ticket's it names, and
/// the container's for what has none.
pub proof fn a_preview_shows_what_the_row_points_at(
    id: Text,
    node: crate::data::NodeRef<Text>,
    container: Container<Text>,
    kind: crate::data::Collection,
    word: Text,
    number: u64,
)
    ensures
        previewed(Selection::Epic(id)) == Document::Entity(Container::Epic(id)),
        previewed(Selection::Node(node)) == Document::Entity(Container::Node(node)),
        previewed(Selection::Collection(container, kind)) == Document::Entity(container),
        previewed(Selection::Label(container, word)) == Document::Entity(container),
        previewed(Selection::UnremovableBlocker(container, word)) == Document::Entity(container),
        previewed(Selection::<Text>::Comment(container, number)) == Document::<Text>::Comment(
            container,
            number,
        ),
        previewed(Selection::Asset(container, word)) == Document::Asset(container, word),
        previewed(Selection::Blocker(container, node)) == Document::Entity(Container::Node(node)),
{
}

/// A document is known by what it is of.
pub proof fn a_document_is_known_by_what_it_is_of(
    document: &Document,
)
    ensures
        document@ == ({
            match document {
                Document::Entity(container) => Document::Entity(container@),
                Document::Comment(container, id) => Document::Comment(container@, *id),
                Document::Asset(container, name) => Document::Asset(container@, name@),
            }
        }),
{
}

} // verus!

//! What the document stores, said in the words a person reads.
//!
//! Every sentence here is made from durable facts: identifiers the document
//! stores, and sizes as they were written. The facts arrive already in the
//! document's own spelling; what is decided here is which words surround them
//! and in which order they are read out.
use vstd::prelude::*;
use vstd::string::StringExecFns;

verus! {

/// One straight run between two named points of a sketch.
#[derive(Debug, Clone, PartialEq, Eq)]
pub struct Segment {
    /// The point the document stores first, in its own spelling.
    pub from: String,
    /// The point the document stores second.
    pub to: String,
}

/// One constraint rule as the document stores it.
///
/// A point is the document's own spelling of it (which curve, and which point
/// of that curve). A size is the number exactly as it was stored, in
/// millimetres, already written out: a size a person typed is a size they
/// should be able to recognise.
#[allow(inconsistent_fields)]
#[derive(Debug, Clone, PartialEq, Eq)]
pub enum ConstraintRule {
    Coincident { a: String, b: String },
    Fixed { point: String, x: String, y: String },
    Distance { a: String, b: String, distance: String },
    Horizontal { a: String, b: String },
    Vertical { a: String, b: String },
    EqualLength { a: Segment, b: Segment },
    Perpendicular { a: Segment, b: Segment },
    Parallel { a: Segment, b: Segment },
    /// A family this build has no words for.
    Unknown,
}

/// A segment read out end to end, in the order the document stores its ends.
pub open spec fn segment_text(segment: Segment) -> Seq<char> {
    segment.from@ + " to "@ + segment.to@
}

/// The one sentence said for a constraint rule.
pub open spec fn constraint_sentence(rule: ConstraintRule) -> Seq<char> {
    match rule {
        ConstraintRule::Coincident { a, b } => "Coincident: "@ + a@ + " and "@ + b@
            + " are the same point"@,
        ConstraintRule::Fixed { point, x, y } => "Fixed: "@ + point@ + " is pinned at x "@ + x@
            + " mm, y "@ + y@ + " mm"@,
        ConstraintRule::Distance { a, b, distance } => "Distance: "@ + a@ + " and "@ + b@
            + " are "@ + distance@ + " mm apart"@,
        ConstraintRule::Horizontal { a, b } => "Horizontal: "@ + a@ + " and "@ + b@
            + " share a y coordinate"@,
        ConstraintRule::Vertical { a, b } => "Vertical: "@ + a@ + " and "@ + b@
            + " share an x coordinate"@,
        ConstraintRule::EqualLength { a, b } => "Equal length: "@ + segment_text(a)
            + " is as long as "@ + segment_text(b),
        ConstraintRule::Perpendicular { a, b } => "Perpendicular: "@ + segment_text(a)
            + " meets "@ + segment_text(b) + " at a right angle"@,
        ConstraintRule::Parallel { a, b } => "Parallel: "@ + segment_text(a)
            + " runs in the same direction as "@ + segment_text(b),
        ConstraintRule::Unknown => "A kind of relationship this build has no words for"@,
    }
}

/// The text of a literal, owned.
pub(crate) fn text(s: &str) -> (owned: String)
    ensures
        owned@ == s@,
{
    String::from_str(s)
}

/// `first`, `middle` and `last` in one string.
fn around(first: &str, middle: &str, last: &str) -> (joined: String)
    ensures
        joined@ == first@ + middle@ + last@,
{
    let mut joined = text(first);
    joined.append(middle);
    joined.append(last);
    joined
}

/// One straight run between two named points, read out end to end.
///
/// From and to in the order the document stores them: a segment has no
/// identifier of its own, so its two ends are the whole of what there is to
/// say about it.
pub fn segment(run: &Segment) -> (said: String)
    ensures
        said@ == segment_text(*run),
{
    around(run.from.as_str(), " to ", run.to.as_str())
}

/// Two points and what a rule says about them: `head a and b tail`.
fn two_points(head: &str, a: &String, b: &String, tail: &str) -> (said: String)
    ensures
        said@ == head@ + a@ + " and "@ + b@ + tail@,
{
    let mut said = around(head, a.as_str(), " and ");
    said.append(b.as_str());
    said.append(tail);
    said
}

/// Two segments and what a rule says about them: `head a middle b tail`.
fn two_segments(head: &str, a: &Segment, middle: &str, b: &Segment, tail: &str) -> (said: String)
    ensures
        said@ == head@ + segment_text(*a) + middle@ + segment_text(*b) + tail@,
{
    let first = segment(a);
    let second = segment(b);
    let mut said = around(head, first.as_str(), middle);
    said.append(second.as_str());
    said.append(tail);
    said
}

/// What one stored constraint says, as a sentence.
///
/// Which kind of relationship it is, which parts of the drawing it holds
/// together, and the size it asks for when it asks for one. The order the rule
/// names its parts in is the order they are read out in, whether or not the
/// family cares about order: a window that reordered them would be making its
/// own decisions about what is written down.
///
/// A family this build has no words for says so in words rather than printing
/// the value: an explanation that could degrade into punctuation is not an
/// explanation.
pub fn describe_constraint(rule: &ConstraintRule) -> (sentence: String)
    ensures
        sentence@ == constraint_sentence(*rule),
{
    match rule {
        ConstraintRule::Coincident { a, b } => two_points(
            "Coincident: ",
            a,
            b,
            " are the same point",
        ),
        ConstraintRule::Fixed { point, x, y } => {
            let mut said = around("Fixed: ", point.as_str(), " is pinned at x ");
            said.append(x.as_str());
            said.append(" mm, y ");
            said.append(y.as_str());
            said.append(" mm");
            said
        },
        ConstraintRule::Distance { a, b, distance } => {
            let mut said = two_points("Distance: ", a, b, " are ");
            said.append(distance.as_str());
            said.append(" mm apart");
            said
        },
        ConstraintRule::Horizontal { a, b } => two_points(
            "Horizontal: ",
            a,
            b,
            " share a y coordinate",
        ),
        ConstraintRule::Vertical { a, b } => two_points(
            "Vertical: ",
            a,
            b,
            " share an x coordinate",
        ),
        ConstraintRule::EqualLength { a, b } => {
            let said = two_segments("Equal length: ", a, " is as long as ", b, "");
            proof {
                reveal_strlit("");
                assert(said@ =~= constraint_sentence(*rule));
            }
            said
        },
        ConstraintRule::Perpendicular { a, b } => two_segments(
            "Perpendicular: ",
            a,
            " meets ",
            b,
            " at a right angle",
        ),
        ConstraintRule::Parallel { a, b } => {
            let said = two_segments("Parallel: ", a, " runs in the same direction as ", b, "");
            proof {
                reveal_strlit("");
                assert(said@ =~= constraint_sentence(*rule));
            }
            said
        },
        ConstraintRule::Unknown => text("A kind of relationship this build has no words for"),
    }
}

/// Which end of an extrusion a cap is at.
#[derive(Debug, Clone, PartialEq, Eq)]
pub enum CapSide {
    Start,
    End,
    /// A side this build has no words for, as the document's type prints it.
    Other(String),
}

/// What a stored subshape is: the document's own vocabulary for a role.
///
/// Segments, joints and edges are named by the identifiers the document
/// stores for them, already spelled out. A role this build has no words for
/// is carried as the document's type prints it.
#[allow(inconsistent_fields)]
#[derive(Debug, Clone, PartialEq, Eq)]
pub enum SemanticRole {
    ExtrudeCap { side: CapSide },
    ExtrudeSide { profile_segment: String },
    ExtrudeCapEdge { side: CapSide, profile_segment: String },
    /// A corner of a cap: which end, and the two segments of the joint in the
    /// joint's own canonical order.
    ExtrudeCapVertex { side: CapSide, one: String, another: String },
    /// The edge swept from a joint of two profile segments, in the joint's
    /// canonical order.
    ExtrudeSweepEdge { one: String, other: String },
    SketchSegment { segment: String },
    FilletFace { source_edge: String },
    Other(String),
}

/// What a stored selection rule is.
#[derive(Debug, Clone, PartialEq, Eq)]
pub enum SelectionRule {
    Exact,
    AllDerivedFrom { ancestor: String },
    /// A rule this build has no words for, as the document's type prints it.
    Other(String),
}

/// The words for a cap side that this build does know.
pub open spec fn known_side(side: CapSide, start: Seq<char>, end: Seq<char>) -> Seq<char> {
    match side {
        CapSide::Start => start,
        CapSide::End => end,
        CapSide::Other(printed) => printed@,
    }
}

/// What a stored role says, as a sentence.
pub open spec fn role_sentence(role: SemanticRole) -> Seq<char> {
    match role {
        SemanticRole::ExtrudeCap { side } => match side {
            CapSide::Start => "Extrusion cap, start"@,
            CapSide::End => "Extrusion cap, end"@,
            CapSide::Other(printed) => "Extrusion cap, "@ + printed@,
        },
        SemanticRole::ExtrudeSide { profile_segment } => "Side raised from profile segment "@
            + profile_segment@,
        SemanticRole::ExtrudeCapEdge { side, profile_segment } => known_side(
            side,
            "Start"@,
            "End"@,
        ) + " cap edge of profile segment "@ + profile_segment@,
        SemanticRole::ExtrudeCapVertex { side, one, another } => known_side(
            side,
            "Start"@,
            "End"@,
        ) + " cap vertex at the joint of profile segments "@ + one@ + " and "@ + another@,
        SemanticRole::ExtrudeSweepEdge { one, other } =>
            "Sweep edge at the joint of profile segments "@ + one@ + " and "@ + other@,
        SemanticRole::SketchSegment { segment } => "Sketch segment "@ + segment@,
        SemanticRole::FilletFace { source_edge } => "Fillet of edge "@ + source_edge@,
        SemanticRole::Other(printed) => printed@,
    }
}

/// What a stored selection rule says.
pub open spec fn rule_sentence(rule: SelectionRule) -> Seq<char> {
    match rule {
        SelectionRule::Exact => "Exactly this one"@,
        SelectionRule::AllDerivedFrom { ancestor } => "Everything derived from "@ + ancestor@,
        SelectionRule::Other(printed) => printed@,
    }
}

/// The words for a cap side, owned.
fn side_words(side: &CapSide) -> (said: String)
    ensures
        said@ == known_side(*side, "Start"@, "End"@),
{
    match side {
        CapSide::Start => text("Start"),
        CapSide::End => text("End"),
        CapSide::Other(printed) => printed.clone(),
    }
}

/// `first` followed by `rest`.
fn followed_by(first: String, rest: &str) -> (joined: String)
    ensures
        joined@ == first@ + rest@,
{
    let mut joined = first;
    joined.append(rest);
    joined
}

/// What a stored role says, as a sentence.
///
/// A role names what a subshape *is*: the end cap of this extrusion, the side
/// raised from that sketch segment, or the edge or corner where two such
/// things meet. Which end and which segment are both said, because either
/// alone names several edges of a plate rather than one; a corner names both
/// segments of its joint, in the joint's canonical order. A cap side this build
/// has no words for is said the way the document prints it, and only the side:
/// never the whole role in its place.
pub fn describe_role(role: &SemanticRole) -> (sentence: String)
    ensures
        sentence@ == role_sentence(*role),
{
    match role {
        SemanticRole::ExtrudeCap { side } => match side {
            CapSide::Start => text("Extrusion cap, start"),
            CapSide::End => text("Extrusion cap, end"),
            CapSide::Other(printed) => followed_by(text("Extrusion cap, "), printed.as_str()),
        },
        SemanticRole::ExtrudeSide { profile_segment } => followed_by(
            text("Side raised from profile segment "),
            profile_segment.as_str(),
        ),
        SemanticRole::ExtrudeCapEdge { side, profile_segment } => {
            let said = followed_by(side_words(side), " cap edge of profile segment ");
            followed_by(said, profile_segment.as_str())
        },
        SemanticRole::ExtrudeCapVertex { side, one, another } => {
            let said = followed_by(side_words(side), " cap vertex at the joint of profile segments ");
            let said = followed_by(said, one.as_str());
            let said = followed_by(said, " and ");
            followed_by(said, another.as_str())
        },
        SemanticRole::ExtrudeSweepEdge { one, other } => {
            let said = followed_by(text("Sweep edge at the joint of profile segments "), one.as_str());
            let said = followed_by(said, " and ");
            followed_by(said, other.as_str())
        },
        SemanticRole::SketchSegment { segment } => followed_by(text("Sketch segment "), segment.as_str()),
        SemanticRole::FilletFace { source_edge } => followed_by(
            text("Fillet of edge "),
            source_edge.as_str(),
        ),
        SemanticRole::Other(printed) => printed.clone(),
    }
}

/// What a stored selection rule says.
pub fn describe_rule(rule: &SelectionRule) -> (sentence: String)
    ensures
        sentence@ == rule_sentence(*rule),
{
    match rule {
        SelectionRule::Exact => text("Exactly this one"),
        SelectionRule::AllDerivedFrom { ancestor } => followed_by(
            text("Everything derived from "),
            ancestor.as_str(),
        ),
        SelectionRule::Other(printed) => printed.clone(),
    }
}

/// One durable name of a face, edge or corner, as the document stores it.
#[derive(Debug, Clone, PartialEq, Eq)]
pub struct TopologyMeaning {
    pub reference: String,
    pub owner: String,
    pub producer_feature: String,
    /// The kind of subshape the reference expects, in the document's spelling.
    pub expected_kind: String,
    pub output_role: SemanticRole,
    pub selection: SelectionRule,
}

/// One durable name, in the words a person reads.
///
/// Portable terms only: there is nothing here for an ordinal, a mesh index or
/// a session, because what names a face, an edge or a corner is the reference
/// the document stores.
#[derive(Debug, Clone, PartialEq, Eq)]
pub struct TopologyWords {
    pub reference: String,
    pub owner: String,
    pub producer_feature: String,
    pub expected_kind: String,
    pub role: String,
    pub rule: String,
}

/// The words one stored reference is said in.
pub open spec fn said_in_words(meaning: TopologyMeaning, words: TopologyWords) -> bool {
    &&& words.reference@ == meaning.reference@
    &&& words.owner@ == meaning.owner@
    &&& words.producer_feature@ == meaning.producer_feature@
    &&& words.expected_kind@ == meaning.expected_kind@
    &&& words.role@ == role_sentence(meaning.output_role)
    &&& words.rule@ == rule_sentence(meaning.selection)
}

/// One stored reference, said in the document's own terms.
pub fn topology_words(meaning: &TopologyMeaning) -> (words: TopologyWords)
    ensures
        said_in_words(*meaning, words),
{
    TopologyWords {
        reference: meaning.reference.clone(),
        owner: meaning.owner.clone(),
        producer_feature: meaning.producer_feature.clone(),
        expected_kind: meaning.expected_kind.clone(),
        role: describe_role(&meaning.output_role),
        rule: describe_rule(&meaning.selection),
    }
}

/// One constraint, in the words a person will read: the identifier exactly as
/// the document stores it, and one sentence saying what the constraint is.
///
/// One type for both places a constraint is named (a repeated one beside the
/// sketch it repeats in, and a conflicting one beside the Open that failed
/// over it), because they are the same two halves of the same thing.
#[derive(Debug, Clone, PartialEq, Eq)]
pub struct ConstraintWords {
    pub identifier: String,
    pub says: String,
}

/// A constraint as the document stores it: its identifier and its rule.
#[derive(Debug, Clone, PartialEq, Eq)]
pub struct StoredConstraint {
    pub id: String,
    pub rule: ConstraintRule,
}

/// The identifier and the sentence a stored constraint is shown as.
pub open spec fn stored_words(constraint: StoredConstraint) -> (Seq<char>, Seq<char>) {
    (constraint.id@, constraint_sentence(constraint.rule))
}

/// The identifier and the sentence some constraint words hold.
pub open spec fn words_text(words: ConstraintWords) -> (Seq<char>, Seq<char>) {
    (words.identifier@, words.says@)
}

/// Each of `words` in turn is what `constraints` says, in the same order.
pub open spec fn explains(words: Seq<ConstraintWords>, constraints: Seq<StoredConstraint>) -> bool {
    &&& words.len() == constraints.len()
    &&& forall|i: int|
        0 <= i < words.len() ==> words_text(#[trigger] words[i]) == stored_words(constraints[i])
}

impl ConstraintWords {
    /// What one stored constraint is called and what it says.
    ///
    /// The one road from a durable rule to a sentence, taken by everything
    /// that shows a constraint.
    pub fn of(id: &str, rule: &ConstraintRule) -> (words: ConstraintWords)
        ensures
            words.identifier@ == id@,
            words.says@ == constraint_sentence(*rule),
    {
        ConstraintWords { identifier: text(id), says: describe_constraint(rule) }
    }
}

/// Every stored constraint, said in turn, in the order it is stored.
///
/// Nothing is sorted, folded or dropped: two constraints that say the same
/// thing under two identifiers are two constraints.
pub fn explained(constraints: &Vec<StoredConstraint>) -> (words: Vec<ConstraintWords>)
    ensures
        explains(words@, constraints@),
{
    let mut words: Vec<ConstraintWords> = Vec::new();
    let mut index: usize = 0;
    while index < constraints.len()
        invariant
            index <= constraints.len(),
            explains(words@, constraints@.take(index as int)),
        decreases constraints.len() - index,
    {
        let constraint = &constraints[index];
        words.push(ConstraintWords::of(constraint.id.as_str(), &constraint.rule));
        index = index + 1;
    }
    proof {
        assert(constraints@.take(constraints.len() as int) =~= constraints@);
    }
    words
}

/// What the solve of one constrained sketch found out, as the load carried it.
#[derive(Debug, Clone, PartialEq, Eq)]
pub struct SolveFacts {
    /// The sketch's display name, if it has one.
    pub name: Option<String>,
    /// The document's identifier for the sketch.
    pub sketch: String,
    pub degrees_of_freedom: usize,
    /// The constraints the solve found repeated, in the order the document
    /// stores them.
    pub redundant: Vec<StoredConstraint>,
}

/// What one solved sketch is called, and what its solve found out, in words.
///
/// Every string is a display name the loader already had or a durable
/// identifier the document stores; nothing here was obtained by asking a
/// solver anything.
#[derive(Debug, Clone, PartialEq, Eq)]
pub struct SolveWords {
    pub name: Option<String>,
    pub object: String,
    pub degrees_of_freedom: usize,
    pub redundant: Vec<ConstraintWords>,
}

/// The text of an optional string.
pub open spec fn optional_text(text: Option<String>) -> Option<Seq<char>> {
    match text {
        Some(s) => Some(s@),
        None => None,
    }
}

/// The words one sketch's facts are said in.
pub open spec fn solve_said(facts: SolveFacts, words: SolveWords) -> bool {
    &&& optional_text(words.name) == optional_text(facts.name)
    &&& words.object@ == facts.sketch@
    &&& words.degrees_of_freedom == facts.degrees_of_freedom
    &&& explains(words.redundant@, facts.redundant@)
}

/// An optional string, copied.
fn copied(text: &Option<String>) -> (copy: Option<String>)
    ensures
        optional_text(copy) == optional_text(*text),
{
    match text {
        Some(s) => Some(s.clone()),
        None => None,
    }
}

/// What the window has to say about the sketches behind the picture.
///
/// Said and nothing more: one entry per fact, in the order the facts
/// arrived, which is the order the document stores its sketches. Nothing is
/// sorted, deduplicated or dropped: a sketch the loader accounted for has a
/// row here, or the window is not saying what it was told.
pub fn solve_words_of(solves: &Vec<SolveFacts>) -> (words: Vec<SolveWords>)
    ensures
        words.len() == solves.len(),
        forall|i: int| 0 <= i < solves.len() ==> solve_said(solves[i], #[trigger] words[i]),
{
    let mut words: Vec<SolveWords> = Vec::new();
    let mut index: usize = 0;
    while index < solves.len()
        invariant
            index <= solves.len(),
            words.len() == index,
            forall|i: int| 0 <= i < index ==> solve_said(solves[i], #[trigger] words[i]),
        decreases solves.len() - index,
    {
        let facts = &solves[index];
        words.push(
            SolveWords {
                name: copied(&facts.name),
                object: facts.sketch.clone(),
                degrees_of_freedom: facts.degrees_of_freedom,
                redundant: explained(&facts.redundant),
            },
        );
        index = index + 1;
    }
    words
}

/// Which of the document's families a rule belongs to.
pub open spec fn family(rule: ConstraintRule) -> int {
    match rule {
        ConstraintRule::Coincident { .. } => 0,
        ConstraintRule::Fixed { .. } => 1,
        ConstraintRule::Distance { .. } => 2,
        ConstraintRule::Horizontal { .. } => 3,
        ConstraintRule::Vertical { .. } => 4,
        ConstraintRule::EqualLength { .. } => 5,
        ConstraintRule::Perpendicular { .. } => 6,
        ConstraintRule::Parallel { .. } => 7,
        ConstraintRule::Unknown => 8,
    }
}

/// The first two characters of every family's sentence.
proof fn sentences_begin_by_family(rule: ConstraintRule)
    ensures
        constraint_sentence(rule).len() >= 2,
        family(rule) == 0 ==> constraint_sentence(rule)[0] == 'C',
        family(rule) == 1 ==> constraint_sentence(rule)[0] == 'F',
        family(rule) == 2 ==> constraint_sentence(rule)[0] == 'D',
        family(rule) == 3 ==> constraint_sentence(rule)[0] == 'H',
        family(rule) == 4 ==> constraint_sentence(rule)[0] == 'V',
        family(rule) == 5 ==> constraint_sentence(rule)[0] == 'E',
        family(rule) == 6 ==> constraint_sentence(rule)[0] == 'P' && constraint_sentence(rule)[1]
            == 'e',
        family(rule) == 7 ==> constraint_sentence(rule)[0] == 'P' && constraint_sentence(rule)[1]
            == 'a',
        family(rule) == 8 ==> constraint_sentence(rule)[0] == 'A',
{
    reveal_strlit("Coincident: ");
    reveal_strlit("Fixed: ");
    reveal_strlit("Distance: ");
    reveal_strlit("Horizontal: ");
    reveal_strlit("Vertical: ");
    reveal_strlit("Equal length: ");
    reveal_strlit("Perpendicular: ");
    reveal_strlit("Parallel: ");
    reveal_strlit("A kind of relationship this build has no words for");
}

/// No two families are described the same way, whatever they hold: a
/// sentence says which kind of relationship it is before anything else.
pub proof fn different_families_say_different_things(first: ConstraintRule, second: ConstraintRule)
    requires
        family(first) != family(second),
    ensures
        constraint_sentence(first) != constraint_sentence(second),
{
    sentences_begin_by_family(first);
    sentences_begin_by_family(second);
}

/// The two caps of one segment are said differently, whatever the segment:
/// which end a cap edge or cap corner is at is the first thing said of it.
pub proof fn the_two_ends_are_said_differently(segment: String, one: String, another: String)
    ensures
        role_sentence(SemanticRole::ExtrudeCapEdge { side: CapSide::Start, profile_segment: segment })
            != role_sentence(
            SemanticRole::ExtrudeCapEdge { side: CapSide::End, profile_segment: segment },
        ),
        role_sentence(SemanticRole::ExtrudeCapVertex { side: CapSide::Start, one, another })
            != role_sentence(SemanticRole::ExtrudeCapVertex { side: CapSide::End, one, another }),
        role_sentence(SemanticRole::ExtrudeCap { side: CapSide::Start }) != role_sentence(
            SemanticRole::ExtrudeCap { side: CapSide::End },
        ),
{
    reveal_strlit("Start");
    reveal_strlit("End");
    reveal_strlit("Extrusion cap, start");
    reveal_strlit("Extrusion cap, end");
    let start_edge = role_sentence(
        SemanticRole::ExtrudeCapEdge { side: CapSide::Start, profile_segment: segment },
    );
    let end_edge = role_sentence(
        SemanticRole::ExtrudeCapEdge { side: CapSide::End, profile_segment: segment },
    );
    assert(start_edge[0] == 'S');
    assert(end_edge[0] == 'E');
    let start_vertex = role_sentence(SemanticRole::ExtrudeCapVertex { side: CapSide::Start, one, another });
    let end_vertex = role_sentence(SemanticRole::ExtrudeCapVertex { side: CapSide::End, one, another });
    assert(start_vertex[0] == 'S');
    assert(end_vertex[0] == 'E');
    assert("Extrusion cap, start"@[15] != "Extrusion cap, end"@[15]);
}

/// Whether a character is one of the brackets a programmer's printout uses.
pub open spec fn is_bracket(c: char) -> bool {
    c == '{' || c == '}' || c == '(' || c == '['
}

/// A text with none of those brackets in it.
pub open spec fn free_of_brackets(text: Seq<char>) -> bool {
    forall|i: int| 0 <= i < text.len() ==> !is_bracket(#[trigger] text[i])
}

/// A letter, a space, or the punctuation of an ordinary sentence.
spec fn plain_character(c: char) -> bool {
    c == ' ' || c == ':' || c == ',' || ('a' <= c && c <= 'z') || ('A' <= c && c <= 'Z')
}

proof fn first_words_are_plain()
    ensures
        free_of_brackets("Coincident: "@),
        free_of_brackets(" and "@),
        free_of_brackets(" are the same point"@),
        free_of_brackets("Fixed: "@),
        free_of_brackets(" is pinned at x "@),
        free_of_brackets(" mm, y "@),
        free_of_brackets(" mm"@),
        free_of_brackets("Distance: "@),
        free_of_brackets(" are "@),
        free_of_brackets(" mm apart"@),
        free_of_brackets("Horizontal: "@),
        free_of_brackets(" share a y coordinate"@),
{
    reveal_strlit("Coincident: ");
    assert forall|i: int| 0 <= i < "Coincident: "@.len() implies !is_bracket(#[trigger] "Coincident: "@[i]) by {
        assert(plain_character("Coincident: "@[i]));
    }
    reveal_strlit(" and ");
    assert forall|i: int| 0 <= i < " and "@.len() implies !is_bracket(#[trigger] " and "@[i]) by {
        assert(plain_character(" and "@[i]));
    }
    reveal_strlit(" are the same point");
    assert forall|i: int| 0 <= i < " are the same point"@.len() implies !is_bracket(#[trigger] " are the same point"@[i]) by {
        assert(plain_character(" are the same point"@[i]));
    }
    reveal_strlit("Fixed: ");
    assert forall|i: int| 0 <= i < "Fixed: "@.len() implies !is_bracket(#[trigger] "Fixed: "@[i]) by {
        assert(plain_character("Fixed: "@[i]));
    }
    reveal_strlit(" is pinned at x ");
    assert forall|i: int| 0 <= i < " is pinned at x "@.len() implies !is_bracket(#[trigger] " is pinned at x "@[i]) by {
        assert(plain_character(" is pinned at x "@[i]));
    }
    reveal_strlit(" mm, y ");
    assert forall|i: int| 0 <= i < " mm, y "@.len() implies !is_bracket(#[trigger] " mm, y "@[i]) by {
        assert(plain_character(" mm, y "@[i]));
    }
    reveal_strlit(" mm");
    assert forall|i: int| 0 <= i < " mm"@.len() implies !is_bracket(#[trigger] " mm"@[i]) by {
        assert(plain_character(" mm"@[i]));
    }
    reveal_strlit("Distance: ");
    assert forall|i: int| 0 <= i < "Distance: "@.len() implies !is_bracket(#[trigger] "Distance: "@[i]) by {
        assert(plain_character("Distance: "@[i]));
    }
    reveal_strlit(" are ");
    assert forall|i: int| 0 <= i < " are "@.len() implies !is_bracket(#[trigger] " are "@[i]) by {
        assert(plain_character(" are "@[i]));
    }
    reveal_strlit(" mm apart");
    assert forall|i: int| 0 <= i < " mm apart"@.len() implies !is_bracket(#[trigger] " mm apart"@[i]) by {
        assert(plain_character(" mm apart"@[i]));
    }
    reveal_strlit("Horizontal: ");
    assert forall|i: int| 0 <= i < "Horizontal: "@.len() implies !is_bracket(#[trigger] "Horizontal: "@[i]) by {
        assert(plain_character("Horizontal: "@[i]));
    }
    reveal_strlit(" share a y coordinate");
    assert forall|i: int| 0 <= i < " share a y coordinate"@.len() implies !is_bracket(#[trigger] " share a y coordinate"@[i]) by {
        assert(plain_character(" share a y coordinate"@[i]));
    }
}

proof fn last_words_are_plain()
    ensures
        free_of_brackets("Vertical: "@),
        free_of_brackets(" share an x coordinate"@),
        free_of_brackets("Equal length: "@),
        free_of_brackets(" is as long as "@),
        free_of_brackets(" to "@),
        free_of_brackets("Perpendicular: "@),
        free_of_brackets(" meets "@),
        free_of_brackets(" at a right angle"@),
        free_of_brackets("Parallel: "@),
        free_of_brackets(" runs in the same direction as "@),
        free_of_brackets("A kind of relationship this build has no words for"@),
{
    reveal_strlit("Vertical: ");
    assert forall|i: int| 0 <= i < "Vertical: "@.len() implies !is_bracket(#[trigger] "Vertical: "@[i]) by {
        assert(plain_character("Vertical: "@[i]));
    }
    reveal_strlit(" share an x coordinate");
    assert forall|i: int| 0 <= i < " share an x coordinate"@.len() implies !is_bracket(#[trigger] " share an x coordinate"@[i]) by {
        assert(plain_character(" share an x coordinate"@[i]));
    }
    reveal_strlit("Equal length: ");
    assert forall|i: int| 0 <= i < "Equal length: "@.len() implies !is_bracket(#[trigger] "Equal length: "@[i]) by {
        assert(plain_character("Equal length: "@[i]));
    }
    reveal_strlit(" is as long as ");
    assert forall|i: int| 0 <= i < " is as long as "@.len() implies !is_bracket(#[trigger] " is as long as "@[i]) by {
        assert(plain_character(" is as long as "@[i]));
    }
    reveal_strlit(" to ");
    assert forall|i: int| 0 <= i < " to "@.len() implies !is_bracket(#[trigger] " to "@[i]) by {
        assert(plain_character(" to "@[i]));
    }
    reveal_strlit("Perpendicular: ");
    assert forall|i: int| 0 <= i < "Perpendicular: "@.len() implies !is_bracket(#[trigger] "Perpendicular: "@[i]) by {
        assert(plain_character("Perpendicular: "@[i]));
    }
    reveal_strlit(" meets ");
    assert forall|i: int| 0 <= i < " meets "@.len() implies !is_bracket(#[trigger] " meets "@[i]) by {
        assert(plain_character(" meets "@[i]));
    }
    reveal_strlit(" at a right angle");
    assert forall|i: int| 0 <= i < " at a right angle"@.len() implies !is_bracket(#[trigger] " at a right angle"@[i]) by {
        assert(plain_character(" at a right angle"@[i]));
    }
    reveal_strlit("Parallel: ");
    assert forall|i: int| 0 <= i < "Parallel: "@.len() implies !is_bracket(#[trigger] "Parallel: "@[i]) by {
        assert(plain_character("Parallel: "@[i]));
    }
    reveal_strlit(" runs in the same direction as ");
    assert forall|i: int| 0 <= i < " runs in the same direction as "@.len() implies !is_bracket(#[trigger] " runs in the same direction as "@[i]) by {
        assert(plain_character(" runs in the same direction as "@[i]));
    }
    reveal_strlit("A kind of relationship this build has no words for");
    assert forall|i: int| 0 <= i < "A kind of relationship this build has no words for"@.len() implies !is_bracket(#[trigger] "A kind of relationship this build has no words for"@[i]) by {
        assert(plain_character("A kind of relationship this build has no words for"@[i]));
    }
}

proof fn joined_free_of_brackets(first: Seq<char>, second: Seq<char>)
    requires
        free_of_brackets(first),
        free_of_brackets(second),
    ensures
        free_of_brackets(first + second),
{
    assert forall|i: int| 0 <= i < (first + second).len() implies !is_bracket(
        #[trigger] (first + second)[i],
    ) by {
        if i >= first.len() {
            assert((first + second)[i] == second[i - first.len()]);
        }
    }
}

/// Every text a rule holds (its points and its sizes) is free of brackets.
pub open spec fn parts_free_of_brackets(rule: ConstraintRule) -> bool {
    match rule {
        ConstraintRule::Coincident { a, b } => free_of_brackets(a@) && free_of_brackets(b@),
        ConstraintRule::Fixed { point, x, y } => free_of_brackets(point@) && free_of_brackets(x@)
            && free_of_brackets(y@),
        ConstraintRule::Distance { a, b, distance } => free_of_brackets(a@) && free_of_brackets(
            b@,
        ) && free_of_brackets(distance@),
        ConstraintRule::Horizontal { a, b } => free_of_brackets(a@) && free_of_brackets(b@),
        ConstraintRule::Vertical { a, b } => free_of_brackets(a@) && free_of_brackets(b@),
        ConstraintRule::EqualLength { a, b } => segment_free_of_brackets(a)
            && segment_free_of_brackets(b),
        ConstraintRule::Perpendicular { a, b } => segment_free_of_brackets(a)
            && segment_free_of_brackets(b),
        ConstraintRule::Parallel { a, b } => segment_free_of_brackets(a)
            && segment_free_of_brackets(b),
        ConstraintRule::Unknown => true,
    }
}

/// Both ends of a segment are free of brackets.
pub open spec fn segment_free_of_brackets(run: Segment) -> bool {
    free_of_brackets(run.from@) && free_of_brackets(run.to@)
}

proof fn segment_said_free_of_brackets(run: Segment)
    requires
        segment_free_of_brackets(run),
    ensures
        free_of_brackets(segment_text(run)),
{
    last_words_are_plain();
    joined_free_of_brackets(run.from@, " to "@);
    joined_free_of_brackets(run.from@ + " to "@, run.to@);
}

/// No sentence is a programmer's printout: it holds no bracket that the
/// points and sizes it names did not already hold.
pub proof fn no_sentence_prints_a_bracket(rule: ConstraintRule)
    requires
        parts_free_of_brackets(rule),
    ensures
        free_of_brackets(constraint_sentence(rule)),
{
    first_words_are_plain();
    last_words_are_plain();
    match rule {
        ConstraintRule::Coincident { a, b } => {
            joined_free_of_brackets("Coincident: "@, a@);
            joined_free_of_brackets("Coincident: "@ + a@, " and "@);
            joined_free_of_brackets("Coincident: "@ + a@ + " and "@, b@);
            joined_free_of_brackets("Coincident: "@ + a@ + " and "@ + b@, " are the same point"@);
        },
        ConstraintRule::Fixed { point, x, y } => {
            joined_free_of_brackets("Fixed: "@, point@);
            joined_free_of_brackets("Fixed: "@ + point@, " is pinned at x "@);
            joined_free_of_brackets("Fixed: "@ + point@ + " is pinned at x "@, x@);
            joined_free_of_brackets("Fixed: "@ + point@ + " is pinned at x "@ + x@, " mm, y "@);
            joined_free_of_brackets("Fixed: "@ + point@ + " is pinned at x "@ + x@ + " mm, y "@, y@);
            joined_free_of_brackets(
                "Fixed: "@ + point@ + " is pinned at x "@ + x@ + " mm, y "@ + y@,
                " mm"@,
            );
        },
        ConstraintRule::Distance { a, b, distance } => {
            joined_free_of_brackets("Distance: "@, a@);
            joined_free_of_brackets("Distance: "@ + a@, " and "@);
            joined_free_of_brackets("Distance: "@ + a@ + " and "@, b@);
            joined_free_of_brackets("Distance: "@ + a@ + " and "@ + b@, " are "@);
            joined_free_of_brackets("Distance: "@ + a@ + " and "@ + b@ + " are "@, distance@);
            joined_free_of_brackets(
                "Distance: "@ + a@ + " and "@ + b@ + " are "@ + distance@,
                " mm apart"@,
            );
        },
        ConstraintRule::Horizontal { a, b } => {
            joined_free_of_brackets("Horizontal: "@, a@);
            joined_free_of_brackets("Horizontal: "@ + a@, " and "@);
            joined_free_of_brackets("Horizontal: "@ + a@ + " and "@, b@);
            joined_free_of_brackets("Horizontal: "@ + a@ + " and "@ + b@, " share a y coordinate"@);
        },
        ConstraintRule::Vertical { a, b } => {
            joined_free_of_brackets("Vertical: "@, a@);
            joined_free_of_brackets("Vertical: "@ + a@, " and "@);
            joined_free_of_brackets("Vertical: "@ + a@ + " and "@, b@);
            joined_free_of_brackets("Vertical: "@ + a@ + " and "@ + b@, " share an x coordinate"@);
        },
        ConstraintRule::EqualLength { a, b } => {
            segment_said_free_of_brackets(a);
            segment_said_free_of_brackets(b);
            joined_free_of_brackets("Equal length: "@, segment_text(a));
            joined_free_of_brackets("Equal length: "@ + segment_text(a), " is as long as "@);
            joined_free_of_brackets(
                "Equal length: "@ + segment_text(a) + " is as long as "@,
                segment_text(b),
            );
        },
        ConstraintRule::Perpendicular { a, b } => {
            segment_said_free_of_brackets(a);
            segment_said_free_of_brackets(b);
            joined_free_of_brackets("Perpendicular: "@, segment_text(a));
            joined_free_of_brackets("Perpendicular: "@ + segment_text(a), " meets "@);
            joined_free_of_brackets("Perpendicular: "@ + segment_text(a) + " meets "@, segment_text(b));
            joined_free_of_brackets(
                "Perpendicular: "@ + segment_text(a) + " meets "@ + segment_text(b),
                " at a right angle"@,
            );
        },
        ConstraintRule::Parallel { a, b } => {
            segment_said_free_of_brackets(a);
            segment_said_free_of_brackets(b);
            joined_free_of_brackets("Parallel: "@, segment_text(a));
            joined_free_of_brackets(
                "Parallel: "@ + segment_text(a),
                " runs in the same direction as "@,
            );
            joined_free_of_brackets(
                "Parallel: "@ + segment_text(a) + " runs in the same direction as "@,
                segment_text(b),
            );
        },
        ConstraintRule::Unknown => {},
    }
}

/// A text with no space in it, as a point of a sketch is spelled.
pub open spec fn without_spaces(text: Seq<char>) -> bool {
    !text.contains(' ')
}

/// Two texts joined around a separator that begins with a space read
/// differently when they swap places, if neither holds a space.
proof fn swapped_reads_differently(
    head: Seq<char>,
    first: Seq<char>,
    separator: Seq<char>,
    second: Seq<char>,
    tail: Seq<char>,
)
    requires
        without_spaces(first),
        without_spaces(second),
        first != second,
        separator.len() > 0,
        separator[0] == ' ',
    ensures
        head + first + separator + second + tail != head + second + separator + first + tail,
{
    let said = head + first + separator + second + tail;
    let swapped = head + second + separator + first + tail;
    let h = head.len() as int;
    if said == swapped {
        if first.len() < second.len() {
            assert(said[h + first.len()] == ' ');
            assert(swapped[h + first.len()] == second[first.len() as int]);
            assert(second.contains(second[first.len() as int]));
        } else if second.len() < first.len() {
            assert(swapped[h + second.len()] == ' ');
            assert(said[h + second.len()] == first[second.len() as int]);
            assert(first.contains(first[second.len() as int]));
        } else {
            assert(first =~= said.subrange(h, h + first.len()));
            assert(second =~= swapped.subrange(h, h + second.len()));
        }
    }
}

/// The order the document stores is the order said: two different points
/// (spelled, as points are, without spaces) read out the other way round
/// make a different sentence, and so do the two ends of a segment.
pub proof fn the_order_stored_is_the_order_said(a: String, b: String, distance: String)
    requires
        without_spaces(a@),
        without_spaces(b@),
        a@ != b@,
    ensures
        constraint_sentence(ConstraintRule::Coincident { a, b }) != constraint_sentence(
            ConstraintRule::Coincident { a: b, b: a },
        ),
        constraint_sentence(ConstraintRule::Distance { a, b, distance }) != constraint_sentence(
            ConstraintRule::Distance { a: b, b: a, distance },
        ),
        constraint_sentence(ConstraintRule::Horizontal { a, b }) != constraint_sentence(
            ConstraintRule::Horizontal { a: b, b: a },
        ),
        constraint_sentence(ConstraintRule::Vertical { a, b }) != constraint_sentence(
            ConstraintRule::Vertical { a: b, b: a },
        ),
        segment_text(Segment { from: a, to: b }) != segment_text(Segment { from: b, to: a }),
{
    first_words_are_plain();
    last_words_are_plain();
    reveal_strlit(" and ");
    reveal_strlit(" to ");
    swapped_reads_differently("Coincident: "@, a@, " and "@, b@, " are the same point"@);
    swapped_reads_differently("Distance: "@, a@, " and "@, b@, " are "@ + distance@ + " mm apart"@);
    assert("Distance: "@ + a@ + " and "@ + b@ + (" are "@ + distance@ + " mm apart"@)
        =~= "Distance: "@ + a@ + " and "@ + b@ + " are "@ + distance@ + " mm apart"@);
    assert("Distance: "@ + b@ + " and "@ + a@ + (" are "@ + distance@ + " mm apart"@)
        =~= "Distance: "@ + b@ + " and "@ + a@ + " are "@ + distance@ + " mm apart"@);
    swapped_reads_differently("Horizontal: "@, a@, " and "@, b@, " share a y coordinate"@);
    swapped_reads_differently("Vertical: "@, a@, " and "@, b@, " share an x coordinate"@);
    swapped_reads_differently(Seq::empty(), a@, " to "@, b@, Seq::empty());
    assert(Seq::<char>::empty() + a@ + " to "@ + b@ + Seq::empty() =~= a@ + " to "@ + b@);
    assert(Seq::<char>::empty() + b@ + " to "@ + a@ + Seq::empty() =~= b@ + " to "@ + a@);
}

/// `part` stands somewhere in `sentence`, whole and in order.
pub open spec fn says(sentence: Seq<char>, part: Seq<char>) -> bool {
    exists|at: int|
        0 <= at && at + part.len() <= sentence.len() && #[trigger] sentence.subrange(
            at,
            at + part.len(),
        ) == part
}

proof fn said_between(before: Seq<char>, part: Seq<char>, after: Seq<char>)
    ensures
        says(before + part + after, part),
{
    let whole = before + part + after;
    assert(whole.subrange(before.len() as int, (before.len() + part.len()) as int) =~= part);
}

/// Every text a rule holds is said, whole, in its sentence: every point it
/// names, both ends of every segment, and every size.
pub proof fn every_part_of_a_rule_is_said(rule: ConstraintRule)
    ensures
        match rule {
            ConstraintRule::Coincident { a, b } => says(constraint_sentence(rule), a@) && says(
                constraint_sentence(rule),
                b@,
            ),
            ConstraintRule::Fixed { point, x, y } => says(constraint_sentence(rule), point@)
                && says(constraint_sentence(rule), x@) && says(constraint_sentence(rule), y@),
            ConstraintRule::Distance { a, b, distance } => says(constraint_sentence(rule), a@)
                && says(constraint_sentence(rule), b@) && says(constraint_sentence(rule), distance@),
            ConstraintRule::Horizontal { a, b } => says(constraint_sentence(rule), a@) && says(
                constraint_sentence(rule),
                b@,
            ),
            ConstraintRule::Vertical { a, b } => says(constraint_sentence(rule), a@) && says(
                constraint_sentence(rule),
                b@,
            ),
            ConstraintRule::EqualLength { a, b } | ConstraintRule::Perpendicular { a, b }
            | ConstraintRule::Parallel { a, b } => says(constraint_sentence(rule), a.from@) && says(
                constraint_sentence(rule),
                a.to@,
            ) && says(constraint_sentence(rule), b.from@) && says(constraint_sentence(rule), b.to@),
            ConstraintRule::Unknown => true,
        },
{
    let s = constraint_sentence(rule);
    match rule {
        ConstraintRule::Coincident { a, b } => {
            assert(s =~= ("Coincident: "@) + a@ + (" and "@ + b@ + " are the same point"@));
            said_between("Coincident: "@, a@, " and "@ + b@ + " are the same point"@);
            assert(s =~= ("Coincident: "@ + a@ + " and "@) + b@ + (" are the same point"@));
            said_between("Coincident: "@ + a@ + " and "@, b@, " are the same point"@);
        },
        ConstraintRule::Fixed { point, x, y } => {
            let tail = " is pinned at x "@ + x@ + " mm, y "@ + y@ + " mm"@;
            assert(s =~= "Fixed: "@ + point@ + tail);
            said_between("Fixed: "@, point@, tail);
            assert(s =~= ("Fixed: "@ + point@ + " is pinned at x "@) + x@ + (" mm, y "@ + y@
                + " mm"@));
            said_between("Fixed: "@ + point@ + " is pinned at x "@, x@, " mm, y "@ + y@ + " mm"@);
            said_between("Fixed: "@ + point@ + " is pinned at x "@ + x@ + " mm, y "@, y@, " mm"@);
        },
        ConstraintRule::Distance { a, b, distance } => {
            let tail = " and "@ + b@ + " are "@ + distance@ + " mm apart"@;
            assert(s =~= "Distance: "@ + a@ + tail);
            said_between("Distance: "@, a@, tail);
            assert(s =~= ("Distance: "@ + a@ + " and "@) + b@ + (" are "@ + distance@
                + " mm apart"@));
            said_between("Distance: "@ + a@ + " and "@, b@, " are "@ + distance@ + " mm apart"@);
            said_between("Distance: "@ + a@ + " and "@ + b@ + " are "@, distance@, " mm apart"@);
        },
        ConstraintRule::Horizontal { a, b } => {
            assert(s =~= "Horizontal: "@ + a@ + (" and "@ + b@ + " share a y coordinate"@));
            said_between("Horizontal: "@, a@, " and "@ + b@ + " share a y coordinate"@);
            said_between("Horizontal: "@ + a@ + " and "@, b@, " share a y coordinate"@);
        },
        ConstraintRule::Vertical { a, b } => {
            assert(s =~= "Vertical: "@ + a@ + (" and "@ + b@ + " share an x coordinate"@));
            said_between("Vertical: "@, a@, " and "@ + b@ + " share an x coordinate"@);
            said_between("Vertical: "@ + a@ + " and "@, b@, " share an x coordinate"@);
        },
        ConstraintRule::EqualLength { a, b } => {
            let (h, m, t) = ("Equal length: "@, " is as long as "@, Seq::<char>::empty());
            assert(s =~= h + a.from@ + (" to "@ + a.to@ + m + segment_text(b) + t));
            said_between(h, a.from@, " to "@ + a.to@ + m + segment_text(b) + t);
            assert(s =~= (h + a.from@ + " to "@) + a.to@ + (m + segment_text(b) + t));
            said_between(h + a.from@ + " to "@, a.to@, m + segment_text(b) + t);
            assert(s =~= (h + segment_text(a) + m) + b.from@ + (" to "@ + b.to@ + t));
            said_between(h + segment_text(a) + m, b.from@, " to "@ + b.to@ + t);
            assert(s =~= (h + segment_text(a) + m + b.from@ + " to "@) + b.to@ + t);
            said_between(h + segment_text(a) + m + b.from@ + " to "@, b.to@, t);
        },
        ConstraintRule::Perpendicular { a, b } => {
            let (h, m, t) = ("Perpendicular: "@, " meets "@, " at a right angle"@);
            assert(s =~= h + a.from@ + (" to "@ + a.to@ + m + segment_text(b) + t));
            said_between(h, a.from@, " to "@ + a.to@ + m + segment_text(b) + t);
            assert(s =~= (h + a.from@ + " to "@) + a.to@ + (m + segment_text(b) + t));
            said_between(h + a.from@ + " to "@, a.to@, m + segment_text(b) + t);
            assert(s =~= (h + segment_text(a) + m) + b.from@ + (" to "@ + b.to@ + t));
            said_between(h + segment_text(a) + m, b.from@, " to "@ + b.to@ + t);
            assert(s =~= (h + segment_text(a) + m + b.from@ + " to "@) + b.to@ + t);
            said_between(h + segment_text(a) + m + b.from@ + " to "@, b.to@, t);
        },
        ConstraintRule::Parallel { a, b } => {
            let (h, m, t) = ("Parallel: "@, " runs in the same direction as "@, Seq::<char>::empty());
            assert(s =~= h + a.from@ + (" to "@ + a.to@ + m + segment_text(b) + t));
            said_between(h, a.from@, " to "@ + a.to@ + m + segment_text(b) + t);
            assert(s =~= (h + a.from@ + " to "@) + a.to@ + (m + segment_text(b) + t));
            said_between(h + a.from@ + " to "@, a.to@, m + segment_text(b) + t);
            assert(s =~= (h + segment_text(a) + m) + b.from@ + (" to "@ + b.to@ + t));
            said_between(h + segment_text(a) + m, b.from@, " to "@ + b.to@ + t);
            assert(s =~= (h + segment_text(a) + m + b.from@ + " to "@) + b.to@ + t);
            said_between(h + segment_text(a) + m + b.from@ + " to "@, b.to@, t);
        },
        ConstraintRule::Unknown => {},
    }
}

/// Every identifier a role names is said, whole, in its sentence, and so is
/// the ancestor a selection rule names.
pub proof fn every_identifier_of_a_role_is_said(role: SemanticRole, rule: SelectionRule)
    ensures
        match role {
            SemanticRole::ExtrudeSide { profile_segment } => says(role_sentence(role), profile_segment@),
            SemanticRole::ExtrudeCapEdge { profile_segment, .. } => says(
                role_sentence(role),
                profile_segment@,
            ),
            SemanticRole::ExtrudeCapVertex { one, another, .. } => says(role_sentence(role), one@)
                && says(role_sentence(role), another@),
            SemanticRole::ExtrudeSweepEdge { one, other } => says(role_sentence(role), one@)
                && says(role_sentence(role), other@),
            SemanticRole::SketchSegment { segment } => says(role_sentence(role), segment@),
            SemanticRole::FilletFace { source_edge } => says(role_sentence(role), source_edge@),
            _ => true,
        },
        rule matches SelectionRule::AllDerivedFrom { ancestor } ==> says(rule_sentence(rule), ancestor@),
{
    let s = role_sentence(role);
    let e = Seq::<char>::empty();
    match role {
        SemanticRole::ExtrudeSide { profile_segment } => {
            assert(s =~= "Side raised from profile segment "@ + profile_segment@ + e);
            said_between("Side raised from profile segment "@, profile_segment@, e);
        },
        SemanticRole::ExtrudeCapEdge { side, profile_segment } => {
            let h = known_side(side, "Start"@, "End"@) + " cap edge of profile segment "@;
            assert(s =~= h + profile_segment@ + e);
            said_between(h, profile_segment@, e);
        },
        SemanticRole::ExtrudeCapVertex { side, one, another } => {
            let h = known_side(side, "Start"@, "End"@) + " cap vertex at the joint of profile segments "@;
            assert(s =~= h + one@ + (" and "@ + another@));
            said_between(h, one@, " and "@ + another@);
            assert(s =~= (h + one@ + " and "@) + another@ + e);
            said_between(h + one@ + " and "@, another@, e);
        },
        SemanticRole::ExtrudeSweepEdge { one, other } => {
            let h = "Sweep edge at the joint of profile segments "@;
            assert(s =~= h + one@ + (" and "@ + other@));
            said_between(h, one@, " and "@ + other@);
            assert(s =~= (h + one@ + " and "@) + other@ + e);
            said_between(h + one@ + " and "@, other@, e);
        },
        SemanticRole::SketchSegment { segment } => {
            assert(s =~= "Sketch segment "@ + segment@ + e);
            said_between("Sketch segment "@, segment@, e);
        },
        SemanticRole::FilletFace { source_edge } => {
            assert(s =~= "Fillet of edge "@ + source_edge@ + e);
            said_between("Fillet of edge "@, source_edge@, e);
        },
        _ => {},
    }
    match rule {
        SelectionRule::AllDerivedFrom { ancestor } => {
            assert(rule_sentence(rule) =~= "Everything derived from "@ + ancestor@ + e);
            said_between("Everything derived from "@, ancestor@, e);
        },
        _ => {},
    }
}

/// Every size is said with its unit: millimetres, directly after the number
/// as it was stored.
pub proof fn every_size_is_said_in_millimetres(rule: ConstraintRule)
    ensures
        match rule {
            ConstraintRule::Fixed { x, y, .. } => says(constraint_sentence(rule), x@ + " mm"@)
                && says(constraint_sentence(rule), y@ + " mm"@),
            ConstraintRule::Distance { distance, .. } => says(
                constraint_sentence(rule),
                distance@ + " mm"@,
            ),
            _ => true,
        },
{
    reveal_strlit(" mm, y ");
    reveal_strlit(" mm");
    reveal_strlit(" mm apart");
    let s = constraint_sentence(rule);
    match rule {
        ConstraintRule::Fixed { point, x, y } => {
            let h = "Fixed: "@ + point@ + " is pinned at x "@;
            assert(" mm, y "@ =~= " mm"@ + ", y "@) by {
                reveal_strlit(", y ");
            }
            assert(s =~= h + (x@ + " mm"@) + (", y "@ + y@ + " mm"@));
            said_between(h, x@ + " mm"@, ", y "@ + y@ + " mm"@);
            assert(s =~= (h + x@ + " mm, y "@) + (y@ + " mm"@) + Seq::<char>::empty());
            said_between(h + x@ + " mm, y "@, y@ + " mm"@, Seq::<char>::empty());
        },
        ConstraintRule::Distance { a, b, distance } => {
            let h = "Distance: "@ + a@ + " and "@ + b@ + " are "@;
            assert(" mm apart"@ =~= " mm"@ + " apart"@) by {
                reveal_strlit(" apart");
            }
            assert(s =~= h + (distance@ + " mm"@) + " apart"@);
            said_between(h, distance@ + " mm"@, " apart"@);
        },
        _ => {},
    }
}

} // verus!

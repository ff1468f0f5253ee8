//! What an input event is for, decided without a window.
//!
//! A window is needed to produce these events, but not to decide what they
//! mean: every rule here can be exercised on plain values.
use vstd::prelude::*;

verus! {

/// Whether a gesture aimed at whatever is under the pointer belongs to the
/// interface rather than to the model.
///
/// One statement, so a double tap cannot drift from the wheel, the pinch and
/// the turn: a panel drawn over the viewport wants the pointer, and a gesture
/// made over it is about the panel.
pub fn pointer_gesture_claimed(consumed: bool, wants_pointer: bool) -> (claimed: bool)
    ensures
        claimed == (consumed || wants_pointer),
{
    consumed || wants_pointer
}

/// The kinds of thing the viewport is told, without what they carry.
#[derive(Debug, Clone, Copy, PartialEq, Eq, Structural)]
pub enum ViewportEventKind {
    PointerMoved,
    PointerPressed,
    PointerReleased,
    PointerLeft,
    Wheel,
    Pinch,
    Roll,
    Look,
    GestureCancelled,
    /// Anything else the viewport can be told.
    Other,
}

/// Whether an event of this kind points at something: a press, a move, a
/// wheel, a pinch or a turn, which would otherwise reach the model through a
/// panel drawn over it.
pub open spec fn points_at_something(kind: ViewportEventKind) -> bool {
    match kind {
        ViewportEventKind::Wheel
        | ViewportEventKind::Pinch
        | ViewportEventKind::Roll
        | ViewportEventKind::PointerPressed
        | ViewportEventKind::PointerMoved => true,
        _ => false,
    }
}

/// Whether the interface, rather than the model, is what an event was for.
///
/// Anything the interface actually consumed belongs to it. Beyond that, the
/// events that point at something also belong to it whenever it wants the
/// pointer at all: two fingers over a list are a gesture about the list.
pub fn claimed_by_interface(kind: ViewportEventKind, consumed: bool, wants_pointer: bool) -> (claimed:
    bool)
    ensures
        claimed == if points_at_something(kind) {
            consumed || wants_pointer
        } else {
            consumed
        },
{
    match kind {
        ViewportEventKind::Wheel
        | ViewportEventKind::Pinch
        | ViewportEventKind::Roll
        | ViewportEventKind::PointerPressed
        | ViewportEventKind::PointerMoved => pointer_gesture_claimed(consumed, wants_pointer),
        // Released, left or cancelled: claimed only when actually consumed,
        // so a drag that began in the viewport ends there.
        _ => consumed,
    }
}

/// What the pointer asked about since it was last asked, as the viewport
/// reports it: nothing new, nothing any more, or a position in the window.
#[derive(Debug, Clone, Copy, PartialEq, Eq)]
pub enum Hover<P> {
    Unchanged,
    Cleared,
    At(P),
}

/// What to do with one hover question after the interface was drawn.
#[derive(Debug, Clone, Copy, PartialEq, Eq)]
pub enum HoverRequest<P> {
    /// Nothing moved, so nothing changed.
    Unchanged,
    /// Whatever was under the pointer is not any more.
    Clear,
    /// A row of the list answers for itself.
    Row(usize),
    /// The picture is asked what is at this position.
    Pixel(P),
}

/// The hover request a question becomes.
pub open spec fn hover_request_for<P>(
    row: Option<usize>,
    interface_has_pointer: bool,
    question: Hover<P>,
) -> HoverRequest<P> {
    match row {
        Some(row) => HoverRequest::Row(row),
        None => if interface_has_pointer {
            HoverRequest::Clear
        } else {
            match question {
                Hover::Unchanged => HoverRequest::Unchanged,
                Hover::Cleared => HoverRequest::Clear,
                Hover::At(position) => HoverRequest::Pixel(position),
            }
        },
    }
}

/// What the application must do with one hover question after the interface
/// was drawn.
///
/// Whether the interface consumed a motion is not enough: an idle pointer
/// over a panel is not consumed, because no widget is using it. The finished
/// pass knows whether the pointer is over an interface area, so that fact is
/// an input here. A row is allowed to answer directly; every other interface
/// area blocks the model behind it.
pub fn hover_request<P>(row: Option<usize>, interface_has_pointer: bool, question: Hover<P>) -> (request:
    HoverRequest<P>)
    ensures
        request == hover_request_for(row, interface_has_pointer, question),
{
    match row {
        Some(row) => {
            return HoverRequest::Row(row);
        },
        None => {},
    }
    if interface_has_pointer {
        return HoverRequest::Clear;
    }
    match question {
        Hover::Unchanged => HoverRequest::Unchanged,
        Hover::Cleared => HoverRequest::Clear,
        Hover::At(position) => HoverRequest::Pixel(position),
    }
}

/// What a pixel of the model is a question about: nothing, a definition, or
/// one face, edge or corner of one.
#[derive(Debug, Clone, Copy, PartialEq, Eq)]
pub enum Pointed<D, F, E, V> {
    Nothing,
    Definition(D),
    Face(F),
    Edge(E),
    Vertex(V),
}

/// The most particular thing a pixel names.
pub open spec fn most_particular<D, F, E, V>(
    definition: Option<D>,
    face: Option<F>,
    edge: Option<E>,
    vertex: Option<V>,
) -> Pointed<D, F, E, V> {
    match vertex {
        Some(v) => Pointed::Vertex(v),
        None => match edge {
            Some(e) => Pointed::Edge(e),
            None => match face {
                Some(f) => Pointed::Face(f),
                None => match definition {
                    Some(d) => Pointed::Definition(d),
                    None => Pointed::Nothing,
                },
            },
        },
    }
}

/// What one pixel of the model is a question about, from the four answers
/// one hit gives about it (each `None` where the pixel names no such thing).
///
/// Most particular first: a corner is what a person aimed at, an edge is the
/// line beneath it, a face the surface behind that, and a definition is what
/// is left when the picture cannot say which part of it. Every answer comes
/// from the same pixel of the same frame.
pub fn hovered_at<D, F, E, V>(
    definition: Option<D>,
    face: Option<F>,
    edge: Option<E>,
    vertex: Option<V>,
) -> (pointed: Pointed<D, F, E, V>)
    ensures
        pointed == most_particular(definition, face, edge, vertex),
{
    match vertex {
        Some(v) => {
            return Pointed::Vertex(v);
        },
        None => {},
    }
    match edge {
        Some(e) => {
            return Pointed::Edge(e);
        },
        None => {},
    }
    match face {
        Some(f) => {
            return Pointed::Face(f);
        },
        None => {},
    }
    match definition {
        Some(d) => Pointed::Definition(d),
        None => Pointed::Nothing,
    }
}

/// How the model is drawn: as an eye sees it, or as a drawing shows it.
#[derive(Debug, Clone, Copy, PartialEq, Eq, Structural)]
pub enum Projection {
    Perspective,
    Orthographic,
}

/// The projection that is not the one in use.
pub fn other_projection(current: Projection) -> (other: Projection)
    ensures
        other != current,
{
    match current {
        Projection::Perspective => Projection::Orthographic,
        Projection::Orthographic => Projection::Perspective,
    }
}

/// A mouse button as the window reports it.
#[derive(Debug, Clone, Copy, PartialEq, Eq, Structural)]
pub enum MouseButton {
    Left,
    Middle,
    Right,
    /// Back, forward, or any other button a mouse may have.
    Other,
}

/// A button as the viewport understands it.
#[derive(Debug, Clone, Copy, PartialEq, Eq, Structural)]
pub enum PointerButton {
    Primary,
    Middle,
    Secondary,
}

/// The viewport's button for a mouse button, if it has one.
pub open spec fn pointer_button_for(button: MouseButton) -> Option<PointerButton> {
    match button {
        MouseButton::Left => Some(PointerButton::Primary),
        MouseButton::Middle => Some(PointerButton::Middle),
        MouseButton::Right => Some(PointerButton::Secondary),
        MouseButton::Other => None,
    }
}

/// The viewport's button for a mouse button: the left one chooses and turns,
/// the right one is secondary, and the others mean nothing here.
pub fn button_of(button: MouseButton) -> (pointer: Option<PointerButton>)
    ensures
        pointer == pointer_button_for(button),
        button == MouseButton::Left ==> pointer == Some(PointerButton::Primary),
        button == MouseButton::Middle ==> pointer == Some(PointerButton::Middle),
        button == MouseButton::Right ==> pointer == Some(PointerButton::Secondary),
        button == MouseButton::Other ==> pointer is None,
{
    match button {
        MouseButton::Left => Some(PointerButton::Primary),
        MouseButton::Middle => Some(PointerButton::Middle),
        MouseButton::Right => Some(PointerButton::Secondary),
        MouseButton::Other => None,
    }
}

/// A key that was pressed, as far as the shortcuts care.
#[derive(Debug, Clone, PartialEq, Eq)]
pub enum Key {
    /// A key that types text, with the text it typed.
    Character(String),
    /// The Home key.
    Home,
    /// Any other key.
    Other,
}

/// What one keystroke asks the window to do.
#[derive(Debug, Clone, Copy, PartialEq, Eq, Structural)]
pub enum Requested {
    FrameSelection,
    FrameScene,
    Hide,
    Isolate,
    ShowAll,
    Projection,
}

/// The text printed on each button that has a key, one per action.
#[derive(Debug, Clone, PartialEq, Eq)]
pub struct Shortcuts {
    pub frame: String,
    pub frame_all: String,
    pub hide: String,
    pub isolate: String,
    pub show_all: String,
    pub projection: String,
}

/// A character with an ASCII capital letter made small.
pub open spec fn ascii_lowercase(c: char) -> char {
    if 'A' <= c && c <= 'Z' {
        ((c as u32) + 32) as char
    } else {
        c
    }
}

/// Two texts that are the same once ASCII capitals are made small.
pub open spec fn same_ignoring_ascii_case(a: Seq<char>, b: Seq<char>) -> bool {
    a.map_values(|c: char| ascii_lowercase(c)) == b.map_values(|c: char| ascii_lowercase(c))
}

/// Asks `str::eq_ignore_ascii_case` whether two texts match.
///
/// Its documentation says it is the same as comparing both texts with every
/// ASCII capital made small, which is what this states.
#[verifier::external_body]
fn eq_ignore_ascii_case(a: &str, b: &str) -> (same: bool)
    ensures
        same == same_ignoring_ascii_case(a@, b@),
{
    a.eq_ignore_ascii_case(b)
}

/// Whether an unclaimed key is the one printed on a particular button.
pub open spec fn key_wants(key: Key, claimed_by_ui: bool, shortcut: Seq<char>) -> bool {
    !claimed_by_ui && match key {
        Key::Character(text) => same_ignoring_ascii_case(text@, shortcut),
        _ => false,
    }
}

/// Whether this unclaimed key is the one printed on a particular button.
///
/// The interface has first refusal: a focused text control that accepted an
/// `F` did not also ask to move the camera. Case is ignored, because a
/// keyboard reports what was typed and the button prints one of the two.
pub fn wants(key: &Key, claimed_by_ui: bool, shortcut: &str) -> (wanted: bool)
    ensures
        wanted == key_wants(*key, claimed_by_ui, shortcut@),
{
    if claimed_by_ui {
        return false;
    }
    match key {
        Key::Character(text) => eq_ignore_ascii_case(text.as_str(), shortcut),
        _ => false,
    }
}

/// Which action an unclaimed key asks for, in the order the buttons stand.
pub open spec fn requested_by(key: Key, claimed_by_ui: bool, shortcuts: Shortcuts) -> Option<
    Requested,
> {
    if key_wants(key, claimed_by_ui, shortcuts.frame@) {
        Some(Requested::FrameSelection)
    } else if key_wants(key, claimed_by_ui, shortcuts.frame_all@) {
        Some(Requested::FrameScene)
    } else if key_wants(key, claimed_by_ui, shortcuts.hide@) {
        Some(Requested::Hide)
    } else if key_wants(key, claimed_by_ui, shortcuts.isolate@) {
        Some(Requested::Isolate)
    } else if key_wants(key, claimed_by_ui, shortcuts.show_all@) {
        Some(Requested::ShowAll)
    } else if key_wants(key, claimed_by_ui, shortcuts.projection@) {
        Some(Requested::Projection)
    } else {
        None
    }
}

/// Which action an unclaimed key asks for, if any.
///
/// One place, so every shortcut obeys the same rule about what the interface
/// has already claimed. Each key is read from the text its button prints.
pub fn requested(key: &Key, claimed_by_ui: bool, shortcuts: &Shortcuts) -> (action: Option<
    Requested,
>)
    ensures
        action == requested_by(*key, claimed_by_ui, *shortcuts),
{
    if wants(key, claimed_by_ui, shortcuts.frame.as_str()) {
        Some(Requested::FrameSelection)
    } else if wants(key, claimed_by_ui, shortcuts.frame_all.as_str()) {
        Some(Requested::FrameScene)
    } else if wants(key, claimed_by_ui, shortcuts.hide.as_str()) {
        Some(Requested::Hide)
    } else if wants(key, claimed_by_ui, shortcuts.isolate.as_str()) {
        Some(Requested::Isolate)
    } else if wants(key, claimed_by_ui, shortcuts.show_all.as_str()) {
        Some(Requested::ShowAll)
    } else if wants(key, claimed_by_ui, shortcuts.projection.as_str()) {
        Some(Requested::Projection)
    } else {
        None
    }
}

/// The first view whose key types exactly `typed`, in the order the views
/// are listed.
pub open spec fn first_view_typed<V>(views: Seq<(V, String)>, typed: Seq<char>) -> Option<V>
    decreases views.len(),
{
    if views.len() == 0 {
        None
    } else if views[0].1@ == typed {
        Some(views[0].0)
    } else {
        first_view_typed(views.drop_first(), typed)
    }
}

/// The view a key asks for.
pub open spec fn view_named<V>(key: Key, views: Seq<(V, String)>, home: V) -> Option<V> {
    match key {
        Key::Character(text) => first_view_typed(views, text@),
        Key::Home => Some(home),
        Key::Other => None,
    }
}

/// The first view whose key types exactly `typed`.
fn first_view<V: Copy>(views: &Vec<(V, String)>, typed: &String) -> (view: Option<V>)
    ensures
        view == first_view_typed(views@, typed@),
{
    let mut index: usize = 0;
    assert(views@.skip(0) =~= views@);
    while index < views.len()
        invariant
            index <= views.len(),
            first_view_typed(views@, typed@) == first_view_typed(views@.skip(index as int), typed@),
        decreases views.len() - index,
    {
        let ghost rest = views@.skip(index as int);
        assert(rest[0] == views@[index as int]);
        assert(rest.drop_first() =~= views@.skip(index + 1));
        if views[index].1 == *typed {
            return Some(views[index].0);
        }
        index = index + 1;
    }
    None
}

/// The number keys a drawing office would expect, and Home for `home`.
///
/// `views` is every standard view with the key printed beside it, in the
/// order the panel lists them; a key names the first view that prints it.
pub fn named_view<V: Copy>(key: &Key, views: &Vec<(V, String)>, home: V) -> (view: Option<V>)
    ensures
        view == view_named(*key, views@, home),
{
    match key {
        Key::Character(text) => first_view(views, text),
        Key::Home => Some(home),
        Key::Other => None,
    }
}

/// A key names the first view that prints exactly its text, wherever in the
/// list that view stands, and no view only when none prints it.
pub proof fn a_key_names_the_first_view_printing_it<V>(views: Seq<(V, String)>, typed: Seq<char>, at: int)
    requires
        0 <= at < views.len(),
        views[at].1@ == typed,
        forall|j: int| 0 <= j < at ==> views[j].1@ != typed,
    ensures
        first_view_typed(views, typed) == Some(views[at].0),
    decreases at,
{
    if at > 0 {
        let rest = views.drop_first();
        assert forall|j: int| 0 <= j < at - 1 implies rest[j].1@ != typed by {
            assert(rest[j] == views[j + 1]);
        }
        assert(rest[at - 1] == views[at]);
        a_key_names_the_first_view_printing_it(rest, typed, at - 1);
    }
}

/// A key that no view prints names no view.
pub proof fn a_key_no_view_prints_names_none<V>(views: Seq<(V, String)>, typed: Seq<char>)
    requires
        forall|j: int| 0 <= j < views.len() ==> views[j].1@ != typed,
    ensures
        first_view_typed(views, typed) is None,
    decreases views.len(),
{
    if views.len() > 0 {
        let rest = views.drop_first();
        assert forall|j: int| 0 <= j < rest.len() implies rest[j].1@ != typed by {
            assert(rest[j] == views[j + 1]);
        }
        a_key_no_view_prints_names_none(rest, typed);
    }
}

/// Home names `home`, another key that types nothing names no view, and a
/// key that types text names the first view printing it.
pub proof fn every_printed_view_key_reaches_its_view<V>(views: Seq<(V, String)>, text: String, at: int, home: V)
    requires
        0 <= at < views.len(),
        views[at].1@ == text@,
        forall|j: int| 0 <= j < at ==> views[j].1@ != text@,
    ensures
        view_named(Key::Character(text), views, home) == Some(views[at].0),
        view_named(Key::Home, views, home) == Some(home),
        view_named(Key::Other, views, home) is None,
{
    a_key_names_the_first_view_printing_it(views, text@, at);
}

/// A pixel is a question about its corner when it names one, otherwise its
/// edge, otherwise its face, otherwise its definition, and otherwise nothing.
pub proof fn the_most_particular_answer_wins<D, F, E, V>(
    definition: Option<D>,
    face: Option<F>,
    edge: Option<E>,
    vertex: Option<V>,
)
    ensures
        most_particular(definition, face, edge, vertex) == match (vertex, edge, face, definition) {
            (Some(v), _, _, _) => Pointed::<D, F, E, V>::Vertex(v),
            (None, Some(e), _, _) => Pointed::<D, F, E, V>::Edge(e),
            (None, None, Some(f), _) => Pointed::<D, F, E, V>::Face(f),
            (None, None, None, Some(d)) => Pointed::<D, F, E, V>::Definition(d),
            (None, None, None, None) => Pointed::<D, F, E, V>::Nothing,
        },
{
}

/// A row answers for itself; otherwise an interface under the pointer clears
/// the question; otherwise the question stands as asked.
pub proof fn a_row_answers_and_the_interface_blocks<P>(
    row: Option<usize>,
    interface_has_pointer: bool,
    question: Hover<P>,
)
    ensures
        hover_request_for(row, interface_has_pointer, question) == match row {
            Some(r) => HoverRequest::<P>::Row(r),
            None => if interface_has_pointer {
                HoverRequest::<P>::Clear
            } else {
                match question {
                    Hover::At(p) => HoverRequest::<P>::Pixel(p),
                    Hover::Unchanged => HoverRequest::<P>::Unchanged,
                    Hover::Cleared => HoverRequest::<P>::Clear,
                }
            },
        },
{
}

/// Whether `typed` matches any button's text, ignoring ASCII case.
pub open spec fn any_button_prints(typed: Seq<char>, shortcuts: Shortcuts) -> bool {
    ||| same_ignoring_ascii_case(typed, shortcuts.frame@)
    ||| same_ignoring_ascii_case(typed, shortcuts.frame_all@)
    ||| same_ignoring_ascii_case(typed, shortcuts.hide@)
    ||| same_ignoring_ascii_case(typed, shortcuts.isolate@)
    ||| same_ignoring_ascii_case(typed, shortcuts.show_all@)
    ||| same_ignoring_ascii_case(typed, shortcuts.projection@)
}

/// A key the interface claimed asks for nothing, nor does a key that types
/// no text or text no button prints; an unclaimed key typing the frame
/// button's text, ignoring ASCII case, asks to frame what is chosen, and one
/// typing some button's text asks for an action.
pub proof fn a_claimed_or_silent_key_asks_for_nothing(key: Key, shortcuts: Shortcuts)
    ensures
        requested_by(key, true, shortcuts) is None,
        match key {
            Key::Character(text) => {
                &&& same_ignoring_ascii_case(text@, shortcuts.frame@) ==> requested_by(
                    key,
                    false,
                    shortcuts,
                ) == Some(Requested::FrameSelection)
                &&& (requested_by(key, false, shortcuts) is Some) == any_button_prints(
                    text@,
                    shortcuts,
                )
            },
            _ => requested_by(key, false, shortcuts) is None,
        },
{
}

} // verus!

use vstd::prelude::*;

use crate::x11::common::{MouseButton, Vector2};
use crate::x11::window::{Modifier, Window};

verus! {

/// Native tag of a key-press event record.
pub const KEY_PRESS: i32 = 2;

/// Native tag of a key-release event record.
pub const KEY_RELEASE: i32 = 3;

/// Native tag of a pointer-button-press event record.
pub const BUTTON_PRESS: i32 = 4;

/// Native tag of a pointer-button-release event record.
pub const BUTTON_RELEASE: i32 = 5;

/// Native tag of a pointer-motion event record.
pub const MOTION_NOTIFY: i32 = 6;

/// Native tag of a window-creation notification record.
pub const CREATE_NOTIFY: i32 = 16;

/// The sentinel the native layer writes into an event's subwindow field
/// when the event happened outside any tracked window.
pub const NO_SUBWINDOW: u64 = 0;

/// Payload of a key press or release: the symbolic name of the key.
#[derive(Clone, PartialEq, Eq, Debug)]
pub struct KeyEventData {
    pub key: String,
}

/// Payload of a pointer-button press or release: which button, and where
/// the pointer stood, in root-window coordinates.
#[derive(Clone, Copy, PartialEq, Eq, Structural, Debug)]
pub struct MouseEventData {
    pub button: MouseButton,
    pub root_position: Vector2<i32>,
}

/// Payload of a pointer-motion event: where the pointer stood, in
/// root-window coordinates.
#[derive(Clone, Copy, PartialEq, Eq, Structural, Debug)]
pub struct MotionData {
    pub root_position: Vector2<i32>,
}

/// The closed, typed form of one native event record. Exactly one variant
/// is active; every native tag maps to some variant, with `Unimplemented`
/// as the fallback for tags this layer does not model.
#[derive(Clone, PartialEq, Eq, Debug)]
pub enum EventType {
    KeyPress(KeyEventData),
    KeyRelease(KeyEventData),
    MouseButtonPress(MouseEventData),
    MouseButtonRelease(MouseEventData),
    MotionNotify(MotionData),
    Unimplemented,
}

/// A decoded event together with the window, if any, under the event's
/// location: `None` means the event happened on the root background,
/// outside any tracked window.
#[derive(Clone, PartialEq, Eq, Debug)]
pub struct EventData {
    pub type_: EventType,
    pub subwindow: Option<Window>,
}

/// One pulled native event record, reduced to the plain fields the decoder
/// reads.
///
/// The native record is a tag-discriminated union; the unverified edge that
/// pulls it copies the tag and the kind-specific payload words here before
/// decoding. For key events it also resolves the keycode to its symbolic
/// name (modifier index zero, no secondary layer), a lookup that needs the
/// live native connection; `key_name` carries that resolution and is read
/// only for the two key tags, as `button`, `x_root` and `y_root` are read
/// only for the tags whose payload they belong to.
#[derive(Clone, PartialEq, Eq, Debug)]
pub struct Event {
    /// The native runtime type tag.
    pub type_: i32,
    /// The connection the record came from (its address as a plain number).
    pub display: u64,
    /// The native subwindow field; [`NO_SUBWINDOW`] when the event happened
    /// outside any tracked window.
    pub subwindow: u64,
    /// The symbolic key name, for the two key tags.
    pub key_name: String,
    /// The pointer button code, for the two button tags.
    pub button: u32,
    /// Pointer x coordinate relative to the root window, for pointer tags.
    pub x_root: i32,
    /// Pointer y coordinate relative to the root window, for pointer tags.
    pub y_root: i32,
}

/// The button a native button code stands for. The native contract only
/// ever delivers the codes 1, 2 and 3.
pub open spec fn spec_button_of_code(code: u32) -> MouseButton {
    if code == 1 {
        MouseButton::Left
    } else if code == 2 {
        MouseButton::Middle
    } else {
        MouseButton::Right
    }
}

impl MouseEventData {
    /// Reads the payload of a button press or release: the button code and
    /// the pointer's root coordinates. A code outside 1..=3 is a violation
    /// of the native contract and is left out by precondition; this layer
    /// never maps it to a button.
    pub fn from_raw(button: u32, x_root: i32, y_root: i32) -> (d: Self)
        requires
            1 <= button <= 3,
        ensures
            d.button == spec_button_of_code(button),
            d.root_position.x == x_root,
            d.root_position.y == y_root,
    {
        let b = if button == 1 {
            MouseButton::Left
        } else if button == 2 {
            MouseButton::Middle
        } else {
            MouseButton::Right
        };
        MouseEventData { button: b, root_position: Vector2 { x: x_root, y: y_root } }
    }
}

impl Event {
    /// The native contract guarantees a button code in 1..=3 on the two
    /// button tags; on any other tag the field is not read at all.
    pub open spec fn button_in_contract(self) -> bool {
        (self.type_ == BUTTON_PRESS || self.type_ == BUTTON_RELEASE) ==> 1 <= self.button <= 3
    }

    /// Decodes this record into its typed form: a total mapping on the tag,
    /// with `Unimplemented` for every tag not modeled here, plus the
    /// record's subwindow wrapped as a window of the same connection.
    ///
    /// The record is consumed: it exists only between retrieval and
    /// decoding.
    pub fn get_data(self) -> (r: EventData)
        requires
            self.button_in_contract(),
        ensures
            self.subwindow == NO_SUBWINDOW ==> r.subwindow is None,
            self.subwindow != NO_SUBWINDOW ==> (r.subwindow matches Some(w)
                && w.id == self.subwindow && w.display == self.display),
            self.type_ == KEY_PRESS ==> (r.type_ matches EventType::KeyPress(k)
                && k.key == self.key_name),
            self.type_ == KEY_RELEASE ==> (r.type_ matches EventType::KeyRelease(k)
                && k.key == self.key_name),
            self.type_ == BUTTON_PRESS ==> (r.type_ matches EventType::MouseButtonPress(m)
                && m.button == spec_button_of_code(self.button)
                && m.root_position.x == self.x_root && m.root_position.y == self.y_root),
            self.type_ == BUTTON_RELEASE ==> (r.type_ matches EventType::MouseButtonRelease(m)
                && m.button == spec_button_of_code(self.button)
                && m.root_position.x == self.x_root && m.root_position.y == self.y_root),
            self.type_ == MOTION_NOTIFY ==> (r.type_ matches EventType::MotionNotify(m)
                && m.root_position.x == self.x_root && m.root_position.y == self.y_root),
            (self.type_ != KEY_PRESS && self.type_ != KEY_RELEASE && self.type_ != BUTTON_PRESS
                && self.type_ != BUTTON_RELEASE && self.type_ != MOTION_NOTIFY)
                ==> r.type_ is Unimplemented,
    {
        let subwindow = if self.subwindow == NO_SUBWINDOW {
            None
        } else {
            Some(Window { id: self.subwindow, display: self.display })
        };

        let type_ = if self.type_ == KEY_PRESS {
            EventType::KeyPress(KeyEventData { key: self.key_name })
        } else if self.type_ == KEY_RELEASE {
            EventType::KeyRelease(KeyEventData { key: self.key_name })
        } else if self.type_ == BUTTON_PRESS {
            EventType::MouseButtonPress(MouseEventData::from_raw(self.button, self.x_root, self.y_root))
        } else if self.type_ == BUTTON_RELEASE {
            EventType::MouseButtonRelease(MouseEventData::from_raw(self.button, self.x_root, self.y_root))
        } else if self.type_ == MOTION_NOTIFY {
            EventType::MotionNotify(MotionData { root_position: Vector2 { x: self.x_root, y: self.y_root } })
        } else {
            EventType::Unimplemented
        };

        EventData { type_, subwindow }
    }
}

/// The window pair a canonical creation notification announces: the new
/// window and its parent, both scoped to the connection the notification
/// came from.
#[derive(Clone, Copy, PartialEq, Eq, Structural, Debug)]
pub struct WindowCreateData {
    pub window: Window,
    pub parent_window: Window,
}

/// Interprets one window-creation notification (a record tagged
/// [`CREATE_NOTIFY`]). The native protocol fires several such
/// notifications for one logical window; only an occurrence whose name is
/// already resolvable counts as a creation, so the caller hands over the
/// name it queried for the announced window, and an unnamed occurrence
/// yields `None`. [`CreateNotifyFilter`] additionally drops repeats for a
/// window already announced.
pub fn xevent_to_window_create_data(
    display: u64,
    window_id: u64,
    parent_id: u64,
    name: Option<String>,
) -> (r: Option<WindowCreateData>)
    ensures
        r is Some <==> name is Some,
        r matches Some(d) ==> d.window.id == window_id && d.window.display == display
            && d.parent_window.id == parent_id && d.parent_window.display == display,
{
    if name.is_some() {
        Some(WindowCreateData {
            window: Window { id: window_id, display },
            parent_window: Window { id: parent_id, display },
        })
    } else {
        None
    }
}

/// A window-creation notification reduced to what the dedup policy reads:
/// which window it announces and whether that window's name was resolvable
/// when it fired.
#[derive(Clone, Copy, PartialEq, Eq, Structural, Debug)]
pub struct CreateNotice {
    pub window_id: u64,
    pub named: bool,
}

/// The identifiers a run of the dedup policy has accepted after processing
/// `notices` in order, starting from the already-accepted set `seen0`: a
/// notification is accepted exactly when it is named and its window has not
/// been accepted before, and acceptance records the window.
pub open spec fn seen_after(seen0: Seq<u64>, notices: Seq<CreateNotice>) -> Seq<u64>
    decreases notices.len(),
{
    if notices.len() == 0 {
        seen0
    } else {
        let prev = seen_after(seen0, notices.drop_last());
        let last = notices.last();
        if last.named && !prev.contains(last.window_id) {
            prev.push(last.window_id)
        } else {
            prev
        }
    }
}

/// Whether the run starting from `seen0` accepts the notification at index
/// `i` of `notices` as the canonical creation of its window.
pub open spec fn run_accepts(seen0: Seq<u64>, notices: Seq<CreateNotice>, i: int) -> bool {
    notices[i].named && !seen_after(seen0, notices.take(i)).contains(notices[i].window_id)
}

/// Reduces the repeated creation notifications the protocol fires for one
/// logical window to a single canonical one: the first occurrence whose
/// name is resolvable. Its state is the set of window identifiers already
/// announced, kept as the sequence they were accepted in.
pub struct CreateNotifyFilter {
    /// The identifiers of the windows already announced, oldest first.
    pub seen: Vec<u64>,
}

/// Whether `id` occurs in `v`.
fn contains_id(v: &Vec<u64>, id: u64) -> (r: bool)
    ensures
        r <==> v@.contains(id),
{
    let mut i: usize = 0;
    while i < v.len()
        invariant
            i <= v@.len(),
            forall|j: int| 0 <= j < i ==> v@[j] != id,
        decreases v@.len() - i,
    {
        if v[i] == id {
            return true;
        }
        i += 1;
    }
    false
}

impl CreateNotifyFilter {
    /// A fresh filter that has announced nothing yet.
    pub fn new() -> (f: Self)
        ensures
            f.seen@ == Seq::<u64>::empty(),
    {
        CreateNotifyFilter { seen: Vec::new() }
    }

    /// Feeds one creation notification through the dedup policy: the
    /// notification is announced exactly when its window's name is
    /// resolvable and the window has not been announced before, and an
    /// announced window is recorded. This is one step of [`run_accepts`]'s
    /// run.
    pub fn observe(
        &mut self,
        display: u64,
        window_id: u64,
        parent_id: u64,
        name: Option<String>,
    ) -> (r: Option<WindowCreateData>)
        ensures
            r is Some <==> (name is Some && !old(self).seen@.contains(window_id)),
            r matches Some(d) ==> d.window.id == window_id && d.window.display == display
                && d.parent_window.id == parent_id && d.parent_window.display == display,
            r is Some ==> final(self).seen@ == old(self).seen@.push(window_id),
            r is None ==> final(self).seen@ == old(self).seen@,
    {
        if name.is_none() {
            return None;
        }
        if contains_id(&self.seen, window_id) {
            return None;
        }
        self.seen.push(window_id);
        Some(WindowCreateData {
            window: Window { id: window_id, display },
            parent_window: Window { id: parent_id, display },
        })
    }
}

/// Law: one [`CreateNotifyFilter::observe`] step is one step of the run
/// model. If the filter's state holds the accepted set of the
/// notifications processed so far, then feeding one more notification
/// announces it exactly when the run accepts it, and leaves the state at
/// the extended run's accepted set — so a whole run of `observe` calls
/// announces exactly the notifications [`run_accepts`] accepts.
pub proof fn lemma_observe_is_run_step(
    processed: Seq<CreateNotice>,
    notice: CreateNotice,
    seen: Seq<u64>,
    seen_next: Seq<u64>,
    announced: bool,
)
    requires
        seen == seen_after(Seq::<u64>::empty(), processed),
        announced <==> (notice.named && !seen.contains(notice.window_id)),
        seen_next == if announced {
            seen.push(notice.window_id)
        } else {
            seen
        },
    ensures
        seen_next == seen_after(Seq::<u64>::empty(), processed.push(notice)),
        announced <==> run_accepts(Seq::<u64>::empty(), processed.push(notice), processed.len() as int),
{
    let run = processed.push(notice);
    assert(run.drop_last() =~= processed);
    assert(run.take(processed.len() as int) =~= processed);
    assert(run.last() == notice);
}

/// A window is in the accepted set after a run exactly when it was in it
/// before, or some notification of the run was accepted for it.
proof fn lemma_seen_after_membership(seen0: Seq<u64>, notices: Seq<CreateNotice>, w: u64)
    ensures
        seen_after(seen0, notices).contains(w) <==> (seen0.contains(w) || exists|j: int|
            0 <= j < notices.len() && notices[j].window_id == w && run_accepts(
                seen0,
                notices,
                j,
            )),
    decreases notices.len(),
{
    if notices.len() == 0 {
    } else {
        let prev = notices.drop_last();
        let last = notices.last();
        let n = notices.len() - 1;
        let s = seen_after(seen0, notices);
        let ps = seen_after(seen0, prev);
        lemma_seen_after_membership(seen0, prev, w);
        assert(notices.take(n) =~= prev);
        assert forall|j: int| 0 <= j < n implies (#[trigger] run_accepts(seen0, notices, j)
            <==> run_accepts(seen0, prev, j)) by {
            assert(notices.take(j) =~= prev.take(j));
            assert(notices[j] == prev[j]);
        }
        let accepted_last = last.named && !ps.contains(last.window_id);
        assert(accepted_last ==> s == ps.push(last.window_id));
        assert(!accepted_last ==> s == ps);
        assert(run_accepts(seen0, notices, n) <==> accepted_last);

        // Everything in the set before the last step is still in it after,
        // and its accepting step in the shorter run accepts in the full one.
        if ps.contains(w) {
            let idx = choose|idx: int| 0 <= idx < ps.len() && ps[idx] == w;
            if accepted_last {
                assert(ps.push(last.window_id)[idx] == w);
            }
            assert(s.contains(w));
            if !seen0.contains(w) {
                let j = choose|j: int|
                    0 <= j < prev.len() && prev[j].window_id == w && run_accepts(seen0, prev, j);
                assert(run_accepts(seen0, notices, j));
                assert(notices[j].window_id == w);
            }
        }
        // The last step adds exactly its own window, and only if accepted.
        if accepted_last && w == last.window_id {
            assert(ps.push(w)[ps.len() as int] == w);
            assert(s.contains(w));
        }
        // Conversely, a member of the new set was a member before, or is
        // the window the last step accepted.
        if s.contains(w) && !ps.contains(w) {
            let idx = choose|idx: int| 0 <= idx < s.len() && s[idx] == w;
            assert(accepted_last);
            assert(idx == ps.len());
            assert(w == last.window_id);
            assert(notices[n].window_id == w && run_accepts(seen0, notices, n));
        }
    }
}

/// Acceptance at an index is unchanged by cutting the run off after it.
proof fn lemma_run_accepts_take(seen0: Seq<u64>, notices: Seq<CreateNotice>, n: int, i: int)
    requires
        0 <= i < n <= notices.len(),
    ensures
        run_accepts(seen0, notices.take(n), i) <==> run_accepts(seen0, notices, i),
{
    assert(notices.take(n).take(i) =~= notices.take(i));
    assert(notices.take(n)[i] == notices[i]);
}

/// Law: the dedup policy announces a window at most once. Once a run has
/// accepted a creation notification for a window, it accepts no later
/// notification for the same window, named or not.
pub proof fn lemma_create_filter_at_most_once(notices: Seq<CreateNotice>, i: int, j: int)
    requires
        0 <= i < j < notices.len(),
        notices[i].window_id == notices[j].window_id,
        run_accepts(Seq::<u64>::empty(), notices, i),
    ensures
        !run_accepts(Seq::<u64>::empty(), notices, j),
{
    let empty = Seq::<u64>::empty();
    let w = notices[j].window_id;
    lemma_run_accepts_take(empty, notices, j, i);
    assert(notices.take(j)[i] == notices[i]);
    lemma_seen_after_membership(empty, notices.take(j), w);
    assert(seen_after(empty, notices.take(j)).contains(w));
}

/// Law: the notification a run accepts for a window is the first one whose
/// name was resolvable: every earlier notification for the same window was
/// unnamed.
pub proof fn lemma_create_filter_first_named(notices: Seq<CreateNotice>, i: int, j: int)
    requires
        0 <= i < j < notices.len(),
        notices[i].window_id == notices[j].window_id,
        run_accepts(Seq::<u64>::empty(), notices, j),
    ensures
        !notices[i].named,
{
    let empty = Seq::<u64>::empty();
    let w = notices[j].window_id;
    if notices[i].named {
        if run_accepts(empty, notices, i) {
            lemma_create_filter_at_most_once(notices, i, j);
        } else {
            lemma_seen_after_membership(empty, notices.take(i), w);
            let k = choose|k: int|
                0 <= k < notices.take(i).len() && notices.take(i)[k].window_id == w
                    && run_accepts(empty, notices.take(i), k);
            lemma_run_accepts_take(empty, notices, i, k);
            lemma_create_filter_at_most_once(notices, k, j);
        }
    }
}

/// Law: a window some notification names is announced. If any notification
/// of a run is named, the run accepts a notification for that window at or
/// before it.
pub proof fn lemma_create_filter_eventually_accepts(notices: Seq<CreateNotice>, i: int)
    requires
        0 <= i < notices.len(),
        notices[i].named,
    ensures
        exists|j: int|
            0 <= j <= i && notices[j].window_id == notices[i].window_id && run_accepts(
                Seq::<u64>::empty(),
                notices,
                j,
            ),
{
    let empty = Seq::<u64>::empty();
    let w = notices[i].window_id;
    if run_accepts(empty, notices, i) {
        assert(0 <= i <= i && notices[i].window_id == w && run_accepts(empty, notices, i));
    } else {
        lemma_seen_after_membership(empty, notices.take(i), w);
        let k = choose|k: int|
            0 <= k < notices.take(i).len() && notices.take(i)[k].window_id == w && run_accepts(
                empty,
                notices.take(i),
                k,
            );
        lemma_run_accepts_take(empty, notices, i, k);
        assert(0 <= k <= i && notices[k].window_id == w && run_accepts(empty, notices, k));
    }
}

/// The numeric mask the native layer assigns to a modifier in a grab
/// registration.
pub open spec fn spec_modifier_mask(modifier: Modifier) -> u32 {
    match modifier {
        Modifier::Shift => 0x01,
        Modifier::Lock => 0x02,
        Modifier::Control => 0x04,
        Modifier::Alt => 0x08,
        Modifier::Num => 0x10,
        Modifier::Super => 0x40,
        Modifier::ScrollLock => 0x80,
    }
}

/// The native modifier mask a grab registration hands to the service: one
/// protocol-defined bit per modifier (Alt, Num and ScrollLock ride on the
/// generic modifier slots one, two and five).
pub fn modifier_to_xlib_mod(modifier: Modifier) -> (mask: u32)
    ensures
        mask == spec_modifier_mask(modifier),
{
    match modifier {
        Modifier::Shift => 0x01,
        Modifier::Lock => 0x02,
        Modifier::Control => 0x04,
        Modifier::Alt => 0x08,
        Modifier::Num => 0x10,
        Modifier::Super => 0x40,
        Modifier::ScrollLock => 0x80,
    }
}

/// The numeric button code a grab registration hands to the service.
pub fn mouse_button_to_number(mouse_button: MouseButton) -> (code: u32)
    ensures
        code == mouse_button.spec_code(),
        1 <= code <= 3,
{
    match mouse_button {
        MouseButton::Left => 1,
        MouseButton::Middle => 2,
        MouseButton::Right => 3,
    }
}

/// The event mask a pointer grab registers for: button presses, button
/// releases and pointer motion.
pub fn pointer_grab_event_mask() -> (mask: u32)
    ensures
        mask == 0x4Cu32,
{
    proof {
        assert(0x04u32 | 0x08u32 | 0x40u32 == 0x4Cu32) by (bit_vector);
    }
    0x04 | 0x08 | 0x40
}

} // verus!

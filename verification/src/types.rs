use vstd::prelude::*;

verus! {

/// Integer identifier of a window. The value `0` is a sentinel meaning
/// "no particular window": delivery then goes to whichever window has focus.
pub type WindowHandle = isize;

/// Canonical identifier of a modifier role, with optional left/right variants.
#[derive(Clone, Copy, PartialEq, Eq, Structural, Debug)]
pub enum ModifierId {
    Alt,
    Control,
    Shift,
    Meta,
    LeftAlt,
    RightAlt,
    LeftControl,
    RightControl,
    LeftShift,
    RightShift,
    LeftMeta,
    RightMeta,
}

/// Where a planned event is delivered: the focused window, or a specific
/// window identified by its handle. `Window(0)` is semantically identical to
/// `Focused`.
#[derive(Clone, Copy, PartialEq, Eq, Structural, Debug)]
pub enum Destination {
    Focused,
    Window(WindowHandle),
}

/// A non-negative time quantity exactly as the caller wrote it, so that a
/// parsed `"2s"` round-trips to the exact count of seconds and `"250ms"` to
/// the exact count of milliseconds.
#[derive(Clone, Copy, PartialEq, Eq, Structural, Debug)]
pub enum DurationValue {
    Millis(u64),
    Secs(u64),
}

/// Canonical identifier of a single key: the name under which the external
/// name table knows it (for example `"Enter"`, `"A"`, `"D5"`).
///
/// Values are produced by the key resolver (or by fixed well-known names),
/// never assembled freely by callers.
#[derive(Debug)]
pub struct KeyId {
    name: String,
}

impl View for KeyId {
    type V = Seq<char>;

    closed spec fn view(&self) -> Seq<char> {
        self.name@
    }
}

impl KeyId {
    /// Wraps a name as a key identifier. Crate-internal: the public way to
    /// obtain a `KeyId` is through the resolver.
    pub(crate) fn from_name(name: String) -> (r: KeyId)
        ensures
            r@ == name@,
    {
        KeyId { name }
    }

    /// The name under which the external name table knows this key.
    pub fn name(&self) -> (r: &String)
        ensures
            r@ == self@,
    {
        &self.name
    }
}

impl Clone for KeyId {
    fn clone(&self) -> (r: Self)
        ensures
            r@ == self@,
    {
        KeyId { name: self.name.clone() }
    }
}

impl PartialEq for KeyId {
    fn eq(&self, other: &Self) -> (r: bool) {
        self.name == other.name
    }
}

impl vstd::std_specs::cmp::PartialEqSpecImpl for KeyId {
    open spec fn obeys_eq_spec() -> bool {
        true
    }

    open spec fn eq_spec(&self, other: &Self) -> bool {
        self@ == other@
    }
}

/// Mathematical image of an [`Action`], over sequences of characters.
pub ghost enum ActionSpec {
    KeyDown(Seq<char>),
    KeyUp(Seq<char>),
    KeyClick(Seq<char>, Option<DurationValue>),
    CharInput(char),
    TextInput(Seq<char>),
    Shortcut(Seq<ModifierId>, Seq<char>, Option<DurationValue>),
}

/// One concrete thing the caller asked for, resolved from a command string or
/// chosen by the smart classifier.
#[derive(Debug)]
pub enum Action {
    /// Press (and hold) one key.
    KeyDown(KeyId),
    /// Release one key.
    KeyUp(KeyId),
    /// Press one key and release it, optionally holding it for a while.
    KeyClick(KeyId, Option<DurationValue>),
    /// Inject one literal character.
    CharInput(char),
    /// Inject a string, character by character.
    TextInput(String),
    /// Hold the listed modifiers, in order, around one click of the main key.
    Shortcut(Vec<ModifierId>, KeyId, Option<DurationValue>),
}

impl View for Action {
    type V = ActionSpec;

    open spec fn view(&self) -> ActionSpec {
        match self {
            Action::KeyDown(k) => ActionSpec::KeyDown(k@),
            Action::KeyUp(k) => ActionSpec::KeyUp(k@),
            Action::KeyClick(k, d) => ActionSpec::KeyClick(k@, *d),
            Action::CharInput(c) => ActionSpec::CharInput(*c),
            Action::TextInput(s) => ActionSpec::TextInput(s@),
            Action::Shortcut(m, k, d) => ActionSpec::Shortcut(m@, k@, *d),
        }
    }
}

impl PartialEq for Action {
    fn eq(&self, other: &Self) -> (r: bool) {
        match (self, other) {
            (Action::KeyDown(a), Action::KeyDown(b)) => a == b,
            (Action::KeyUp(a), Action::KeyUp(b)) => a == b,
            (Action::KeyClick(a, da), Action::KeyClick(b, db)) => a == b && opt_duration_eq(
                da,
                db,
            ),
            (Action::CharInput(a), Action::CharInput(b)) => a == b,
            (Action::TextInput(a), Action::TextInput(b)) => *a == *b,
            (Action::Shortcut(ma, ka, da), Action::Shortcut(mb, kb, db)) => modifiers_eq(ma, mb)
                && ka == kb && opt_duration_eq(da, db),
            _ => false,
        }
    }
}

impl vstd::std_specs::cmp::PartialEqSpecImpl for Action {
    open spec fn obeys_eq_spec() -> bool {
        true
    }

    open spec fn eq_spec(&self, other: &Self) -> bool {
        self@ == other@
    }
}

/// Compares two optional durations by value.
fn opt_duration_eq(a: &Option<DurationValue>, b: &Option<DurationValue>) -> (r: bool)
    ensures
        r == (*a == *b),
{
    match (a, b) {
        (Some(x), Some(y)) => x == y,
        (None, None) => true,
        _ => false,
    }
}

/// Compares two modifier lists elementwise.
fn modifiers_eq(a: &Vec<ModifierId>, b: &Vec<ModifierId>) -> (r: bool)
    ensures
        r == (a@ == b@),
{
    if a.len() != b.len() {
        assert(a@ != b@);
        return false;
    }
    let mut i: usize = 0;
    while i < a.len()
        invariant
            i <= a.len(),
            a.len() == b.len(),
            forall|j: int| 0 <= j < i ==> a@[j] == b@[j],
        decreases a.len() - i,
    {
        if a[i] != b[i] {
            assert(a@ != b@);
            return false;
        }
        i = i + 1;
    }
    proof {
        assert(a@ =~= b@);
    }
    true
}

/// Mathematical image of a [`KeyEvent`].
pub ghost enum EventSpec {
    Press { target: Destination, key: Seq<char> },
    Release { target: Destination, key: Seq<char> },
    Char { target: Destination, ch: char },
    Wait { duration: DurationValue },
}

/// One primitive step of a dispatch plan, to be performed in order by an
/// injection backend: press or release a named key, inject one character, or
/// block for a while.
#[derive(Debug)]
pub enum KeyEvent {
    /// Press (and keep holding) the key, at the given destination.
    Press { target: Destination, key: KeyId },
    /// Release the key, at the given destination.
    Release { target: Destination, key: KeyId },
    /// Inject one literal character, at the given destination.
    Char { target: Destination, ch: char },
    /// Block the performing thread for the given time.
    Wait { duration: DurationValue },
}

impl View for KeyEvent {
    type V = EventSpec;

    open spec fn view(&self) -> EventSpec {
        match self {
            KeyEvent::Press { target, key } => EventSpec::Press { target: *target, key: key@ },
            KeyEvent::Release { target, key } => EventSpec::Release { target: *target, key: key@ },
            KeyEvent::Char { target, ch } => EventSpec::Char { target: *target, ch: *ch },
            KeyEvent::Wait { duration } => EventSpec::Wait { duration: *duration },
        }
    }
}

impl DeepView for KeyEvent {
    type V = EventSpec;

    open spec fn deep_view(&self) -> EventSpec {
        self.view()
    }
}

impl PartialEq for KeyEvent {
    fn eq(&self, other: &Self) -> (r: bool) {
        match (self, other) {
            (
                KeyEvent::Press { target: ta, key: ka },
                KeyEvent::Press { target: tb, key: kb },
            ) => ta == tb && ka == kb,
            (
                KeyEvent::Release { target: ta, key: ka },
                KeyEvent::Release { target: tb, key: kb },
            ) => ta == tb && ka == kb,
            (
                KeyEvent::Char { target: ta, ch: ca },
                KeyEvent::Char { target: tb, ch: cb },
            ) => ta == tb && ca == cb,
            (
                KeyEvent::Wait { duration: da },
                KeyEvent::Wait { duration: db },
            ) => da == db,
            _ => false,
        }
    }
}

impl vstd::std_specs::cmp::PartialEqSpecImpl for KeyEvent {
    open spec fn obeys_eq_spec() -> bool {
        true
    }

    open spec fn eq_spec(&self, other: &Self) -> bool {
        self@ == other@
    }
}

} // verus!

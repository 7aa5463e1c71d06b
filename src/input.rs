use vstd::prelude::*;

use crate::catalog::{Namespace, MODIFIER_KEY_COUNT, MOUSE_BUTTON_COUNT, STANDARD_KEY_COUNT};

verus! {

/// What a single input event does to one key.
#[derive(Clone, Copy, Debug, PartialEq, Eq, Structural)]
pub enum Action {
    Press,
    Repeat,
    Release,
}

/// The state of one key: up, down since its press, or down long enough to repeat.
#[derive(Clone, Copy, Debug, PartialEq, Eq, Structural)]
pub enum KeyPhase {
    Idle,
    JustPressed,
    Held,
}

impl KeyPhase {
    /// The edge flag: set by a press, cleared only by a release.
    pub open spec fn is_pressed(self) -> bool {
        !(self is Idle)
    }

    /// The level flag: set by a repeat, cleared only by a release.
    pub open spec fn is_held(self) -> bool {
        self is Held
    }

    /// The per-key transition function.
    ///
    /// A press moves an idle key to `JustPressed` and leaves a pressed one as it is;
    /// a repeat always lands in `Held` (a repeat without a press is absorbed the same
    /// way); a release always returns to `Idle`.
    pub open spec fn next(self, action: Action) -> KeyPhase {
        match action {
            Action::Press => if self is Idle {
                KeyPhase::JustPressed
            } else {
                self
            },
            Action::Repeat => KeyPhase::Held,
            Action::Release => KeyPhase::Idle,
        }
    }
}

/// The phase that a pair of (pressed, held) flags encodes.
pub open spec fn phase_of(pressed: bool, held: bool) -> KeyPhase {
    if held {
        KeyPhase::Held
    } else if pressed {
        KeyPhase::JustPressed
    } else {
        KeyPhase::Idle
    }
}

/// The abstract input state: the phase of every key, per namespace.
pub struct InputView {
    pub standard: Seq<KeyPhase>,
    pub modifier: Seq<KeyPhase>,
    pub mouse: Seq<KeyPhase>,
}

impl InputView {
    pub open spec fn keys(self, ns: Namespace) -> Seq<KeyPhase> {
        match ns {
            Namespace::Standard => self.standard,
            Namespace::Modifier => self.modifier,
            Namespace::Mouse => self.mouse,
        }
    }

    pub open spec fn with_keys(self, ns: Namespace, keys: Seq<KeyPhase>) -> InputView {
        match ns {
            Namespace::Standard => InputView { standard: keys, ..self },
            Namespace::Modifier => InputView { modifier: keys, ..self },
            Namespace::Mouse => InputView { mouse: keys, ..self },
        }
    }

    pub open spec fn phase(self, ns: Namespace, id: int) -> KeyPhase {
        self.keys(ns)[id]
    }

    pub open spec fn pressed(self, ns: Namespace, id: int) -> bool {
        self.phase(ns, id).is_pressed()
    }

    pub open spec fn held(self, ns: Namespace, id: int) -> bool {
        self.phase(ns, id).is_held()
    }

    /// Each namespace holds exactly the catalog's ids.
    pub open spec fn well_sized(self) -> bool {
        &&& self.standard.len() == STANDARD_KEY_COUNT
        &&& self.modifier.len() == MODIFIER_KEY_COUNT
        &&& self.mouse.len() == MOUSE_BUTTON_COUNT
    }

    /// The state with every key up.
    pub open spec fn all_idle() -> InputView {
        InputView {
            standard: Seq::new(STANDARD_KEY_COUNT as nat, |i: int| KeyPhase::Idle),
            modifier: Seq::new(MODIFIER_KEY_COUNT as nat, |i: int| KeyPhase::Idle),
            mouse: Seq::new(MOUSE_BUTTON_COUNT as nat, |i: int| KeyPhase::Idle),
        }
    }

    /// One event applied to key `id` of namespace `ns`; every other key is untouched.
    pub open spec fn apply(self, ns: Namespace, id: int, action: Action) -> InputView {
        self.with_keys(ns, self.keys(ns).update(id, self.phase(ns, id).next(action)))
    }
}

/// `n` identical events applied in a row to key `id` of namespace `ns`.
pub open spec fn apply_times(v: InputView, ns: Namespace, id: int, action: Action, n: nat) -> InputView
    decreases n,
{
    if n == 0 {
        v
    } else {
        apply_times(v, ns, id, action, (n - 1) as nat).apply(ns, id, action)
    }
}

/// After a press the key is pressed, and it is not held unless it already was.
pub proof fn lemma_press_sets_pressed(v: InputView, ns: Namespace, id: int)
    requires
        v.well_sized(),
        0 <= id < ns.spec_key_count(),
    ensures
        v.apply(ns, id, Action::Press).pressed(ns, id),
        !v.held(ns, id) ==> !v.apply(ns, id, Action::Press).held(ns, id),
{
}

/// After a press followed by a repeat the key is both pressed and held.
pub proof fn lemma_press_then_repeat_holds(v: InputView, ns: Namespace, id: int)
    requires
        v.well_sized(),
        0 <= id < ns.spec_key_count(),
    ensures
        v.apply(ns, id, Action::Press).apply(ns, id, Action::Repeat).pressed(ns, id),
        v.apply(ns, id, Action::Press).apply(ns, id, Action::Repeat).held(ns, id),
{
}

/// A release clears both flags whatever came before, and a second release
/// changes nothing.
pub proof fn lemma_release_clears(v: InputView, ns: Namespace, id: int)
    requires
        v.well_sized(),
        0 <= id < ns.spec_key_count(),
    ensures
        !v.apply(ns, id, Action::Release).pressed(ns, id),
        !v.apply(ns, id, Action::Release).held(ns, id),
        v.apply(ns, id, Action::Release).apply(ns, id, Action::Release) == v.apply(
            ns,
            id,
            Action::Release,
        ),
{
    let once = v.apply(ns, id, Action::Release);
    assert(once.apply(ns, id, Action::Release).keys(ns) =~= once.keys(ns));
    assert(once.apply(ns, id, Action::Release) =~= once);
}

/// Any positive number of repeats in a row leaves the same state as one repeat.
pub proof fn lemma_repeat_idempotent(v: InputView, ns: Namespace, id: int, n: nat)
    requires
        v.well_sized(),
        0 <= id < ns.spec_key_count(),
        n >= 1,
    ensures
        apply_times(v, ns, id, Action::Repeat, n) == v.apply(ns, id, Action::Repeat),
    decreases n,
{
    if n > 1 {
        lemma_repeat_idempotent(v, ns, id, (n - 1) as nat);
        let once = v.apply(ns, id, Action::Repeat);
        assert(once.apply(ns, id, Action::Repeat).keys(ns) =~= once.keys(ns));
        assert(once.apply(ns, id, Action::Repeat) =~= once);
    } else {
        assert(apply_times(v, ns, id, Action::Repeat, 0) == v);
    }
}

/// An event on one namespace leaves every other namespace as it was, including
/// the ids with the same number.
pub proof fn lemma_namespaces_independent(
    v: InputView,
    ns: Namespace,
    id: int,
    action: Action,
    other: Namespace,
)
    requires
        v.well_sized(),
        0 <= id < ns.spec_key_count(),
        other != ns,
    ensures
        v.apply(ns, id, action).keys(other) == v.keys(other),
{
}

/// The phases that two parallel flag arrays encode.
pub open spec fn phases_of(press: Seq<bool>, held: Seq<bool>) -> Seq<KeyPhase> {
    Seq::new(press.len(), |i: int| phase_of(press[i], held[i]))
}

/// Two flag arrays of length `n` in which no key is held without being pressed.
pub open spec fn flags_wf(press: Seq<bool>, held: Seq<bool>, n: nat) -> bool {
    &&& press.len() == n
    &&& held.len() == n
    &&& forall|i: int| 0 <= i < n ==> #[trigger] held[i] ==> press[i]
}

/// Per-key press (edge) and held (level) flags for the three key namespaces.
pub struct InputState {
    standard_keys_press: Vec<bool>,
    standard_keys_held: Vec<bool>,
    modifier_keys_press: Vec<bool>,
    modifier_keys_held: Vec<bool>,
    mouse_button_press: Vec<bool>,
    mouse_button_held: Vec<bool>,
}

impl View for InputState {
    type V = InputView;

    closed spec fn view(&self) -> InputView {
        InputView {
            standard: phases_of(self.standard_keys_press@, self.standard_keys_held@),
            modifier: phases_of(self.modifier_keys_press@, self.modifier_keys_held@),
            mouse: phases_of(self.mouse_button_press@, self.mouse_button_held@),
        }
    }
}

/// A vector of `n` copies of `false`.
fn all_false(n: usize) -> (r: Vec<bool>)
    ensures
        r@ == Seq::new(n as nat, |i: int| false),
{
    let mut r: Vec<bool> = Vec::with_capacity(n);
    let mut k: usize = 0;
    while k < n
        invariant
            k <= n,
            r@ == Seq::new(k as nat, |i: int| false),
        decreases n - k,
    {
        r.push(false);
        k = k + 1;
        assert(r@ =~= Seq::new(k as nat, |i: int| false));
    }
    r
}

/// Applies one event to key `id` of a pair of flag arrays.
fn apply_flags(press: &mut Vec<bool>, held: &mut Vec<bool>, id: usize, action: Action)
    requires
        flags_wf(old(press)@, old(held)@, old(press)@.len()),
        id < old(press)@.len(),
    ensures
        flags_wf(final(press)@, final(held)@, old(press)@.len()),
        phases_of(final(press)@, final(held)@) == phases_of(old(press)@, old(held)@).update(
            id as int,
            phase_of(old(press)@[id as int], old(held)@[id as int]).next(action),
        ),
{
    match action {
        Action::Press => {
            press.set(id, true);
        },
        Action::Repeat => {
            press.set(id, true);
            held.set(id, true);
        },
        Action::Release => {
            held.set(id, false);
            press.set(id, false);
        },
    }
    assert(phases_of(press@, held@) =~= phases_of(old(press)@, old(held)@).update(
        id as int,
        phase_of(old(press)@[id as int], old(held)@[id as int]).next(action),
    ));
}

impl InputState {
    /// The flag arrays have the catalog's sizes and no key is held without being pressed.
    pub closed spec fn wf(&self) -> bool {
        &&& flags_wf(self.standard_keys_press@, self.standard_keys_held@, STANDARD_KEY_COUNT as nat)
        &&& flags_wf(self.modifier_keys_press@, self.modifier_keys_held@, MODIFIER_KEY_COUNT as nat)
        &&& flags_wf(self.mouse_button_press@, self.mouse_button_held@, MOUSE_BUTTON_COUNT as nat)
    }

    /// A state with every key of every namespace up.
    pub fn new() -> (r: InputState)
        ensures
            r.wf(),
            r@ == InputView::all_idle(),
    {
        let r = InputState {
            standard_keys_press: all_false(STANDARD_KEY_COUNT),
            standard_keys_held: all_false(STANDARD_KEY_COUNT),
            modifier_keys_press: all_false(MODIFIER_KEY_COUNT),
            modifier_keys_held: all_false(MODIFIER_KEY_COUNT),
            mouse_button_press: all_false(MOUSE_BUTTON_COUNT),
            mouse_button_held: all_false(MOUSE_BUTTON_COUNT),
        };
        assert(r@.standard =~= InputView::all_idle().standard);
        assert(r@.modifier =~= InputView::all_idle().modifier);
        assert(r@.mouse =~= InputView::all_idle().mouse);
        r
    }

    /// Whether standard key `key` is down (pressed since its last release).
    #[allow(non_snake_case)]
    pub fn isStandardPressed(&mut self, key: u64) -> (r: bool)
        requires
            old(self).wf(),
            key < STANDARD_KEY_COUNT,
        ensures
            *final(self) == *old(self),
            r == old(self)@.pressed(Namespace::Standard, key as int),
    {
        self.standard_keys_press[key as usize]
    }

    /// Whether standard key `key` has repeated since its last press.
    #[allow(non_snake_case)]
    pub fn isStandardHeld(&mut self, key: u64) -> (r: bool)
        requires
            old(self).wf(),
            key < STANDARD_KEY_COUNT,
        ensures
            *final(self) == *old(self),
            r == old(self)@.held(Namespace::Standard, key as int),
    {
        self.standard_keys_held[key as usize]
    }

    /// Whether modifier key `key` is down (pressed since its last release).
    #[allow(non_snake_case)]
    pub fn isModifierPressed(&mut self, key: u32) -> (r: bool)
        requires
            old(self).wf(),
            key < MODIFIER_KEY_COUNT,
        ensures
            *final(self) == *old(self),
            r == old(self)@.pressed(Namespace::Modifier, key as int),
    {
        self.modifier_keys_press[key as usize]
    }

    /// Whether modifier key `key` has repeated since its last press.
    #[allow(non_snake_case)]
    pub fn isModifierHeld(&mut self, key: u32) -> (r: bool)
        requires
            old(self).wf(),
            key < MODIFIER_KEY_COUNT,
        ensures
            *final(self) == *old(self),
            r == old(self)@.held(Namespace::Modifier, key as int),
    {
        self.modifier_keys_held[key as usize]
    }

    /// Whether mouse button `key` is down (pressed since its last release).
    #[allow(non_snake_case)]
    pub fn isMouseButtonPressed(&mut self, key: u16) -> (r: bool)
        requires
            old(self).wf(),
            key < MOUSE_BUTTON_COUNT,
        ensures
            *final(self) == *old(self),
            r == old(self)@.pressed(Namespace::Mouse, key as int),
    {
        self.mouse_button_press[key as usize]
    }

    /// Whether mouse button `key` has repeated since its last press.
    #[allow(non_snake_case)]
    pub fn isMouseButtonHeld(&mut self, key: u16) -> (r: bool)
        requires
            old(self).wf(),
            key < MOUSE_BUTTON_COUNT,
        ensures
            *final(self) == *old(self),
            r == old(self)@.held(Namespace::Mouse, key as int),
    {
        self.mouse_button_held[key as usize]
    }

    /// Applies one event to key `id` of namespace `ns`.
    pub fn apply(&mut self, ns: Namespace, id: usize, action: Action)
        requires
            old(self).wf(),
            id < ns.spec_key_count(),
        ensures
            final(self).wf(),
            final(self)@ == old(self)@.apply(ns, id as int, action),
    {
        match ns {
            Namespace::Standard => apply_flags(
                &mut self.standard_keys_press,
                &mut self.standard_keys_held,
                id,
                action,
            ),
            Namespace::Modifier => apply_flags(
                &mut self.modifier_keys_press,
                &mut self.modifier_keys_held,
                id,
                action,
            ),
            Namespace::Mouse => apply_flags(
                &mut self.mouse_button_press,
                &mut self.mouse_button_held,
                id,
                action,
            ),
        }
        assert(self@ =~= old(self)@.apply(ns, id as int, action));
    }
}

} // verus!

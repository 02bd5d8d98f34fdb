//! The hotkey dispatcher: the live set of globally registered key chords and
//! the action each one triggers. The surrounding process registers the chords
//! with the OS and feeds matched events back in; everything decided about an
//! event — toggle the panel, launch a target, ignore — is decided here.

use vstd::pervasive::VecAdditionalExecFns;
use vstd::prelude::*;

use crate::config::{AppState, Config, Hotkey, KeyboardKey, Modifier};
use crate::panel::{PanelAction, PanelController, ScreenLayout};

verus! {

/// The set of modifier keys of a chord. Two chords match exactly when their
/// modifier sets and base keys are equal; the order in which modifiers were
/// listed never matters.
#[derive(Copy, Debug, PartialEq, Eq, Structural)]
pub struct ModifierSet {
    pub shift: bool,
    pub control: bool,
    pub alt: bool,
    pub meta: bool,
}

impl Clone for ModifierSet {
    fn clone(&self) -> (res: Self)
        ensures
            res == *self,
    {
        *self
    }
}

/// A complete chord: a set of modifier keys plus one base key.
#[derive(Copy, Debug, PartialEq, Eq, Structural)]
pub struct Chord {
    pub modifiers: ModifierSet,
    pub key: KeyboardKey,
}

impl Clone for Chord {
    fn clone(&self) -> (res: Self)
        ensures
            res == *self,
    {
        *self
    }
}

/// What a matched chord triggers: toggling the overlay panel, or launching
/// the target with the given registry identifier.
pub enum HotkeyAction {
    TogglePanel,
    LaunchTarget(String),
}

impl Clone for HotkeyAction {
    fn clone(&self) -> (res: Self)
        ensures
            res == *self,
    {
        match self {
            HotkeyAction::TogglePanel => HotkeyAction::TogglePanel,
            HotkeyAction::LaunchTarget(id) => HotkeyAction::LaunchTarget(id.clone()),
        }
    }
}

/// The modifier set with no key held.
pub open spec fn no_modifiers() -> ModifierSet {
    ModifierSet { shift: false, control: false, alt: false, meta: false }
}

/// `ms` with one more modifier key held.
pub open spec fn with_modifier(ms: ModifierSet, m: Modifier) -> ModifierSet {
    match m {
        Modifier::Shift => ModifierSet { shift: true, ..ms },
        Modifier::Control => ModifierSet { control: true, ..ms },
        Modifier::Alt => ModifierSet { alt: true, ..ms },
        Modifier::Meta => ModifierSet { meta: true, ..ms },
    }
}

/// The modifier set holding exactly the modifiers listed in `s`.
pub open spec fn modifier_set_of(s: Seq<Modifier>) -> ModifierSet
    decreases s.len(),
{
    if s.len() == 0 {
        no_modifiers()
    } else {
        with_modifier(modifier_set_of(s.drop_last()), s.last())
    }
}

/// The chord that a stored hotkey binding denotes.
pub open spec fn spec_chord_of(modifiers: Seq<Modifier>, key: KeyboardKey) -> Chord {
    Chord { modifiers: modifier_set_of(modifiers), key: key }
}

/// The chord that a stored hotkey binding denotes.
pub fn chord_of_hotkey(h: &Hotkey) -> (res: Chord)
    ensures
        res == spec_chord_of(h.modifiers@, h.keyboard_key),
{
    let mut ms = ModifierSet { shift: false, control: false, alt: false, meta: false };
    let n = h.modifiers.len();
    let mut i: usize = 0;
    while i < n
        invariant
            n == h.modifiers@.len(),
            0 <= i <= n,
            ms == modifier_set_of(h.modifiers@.subrange(0, i as int)),
        decreases n - i,
    {
        proof {
            assert(h.modifiers@.subrange(0, i + 1).drop_last() =~= h.modifiers@.subrange(
                0,
                i as int,
            ));
        }
        ms = match h.modifiers[i] {
            Modifier::Shift => ModifierSet { shift: true, ..ms },
            Modifier::Control => ModifierSet { control: true, ..ms },
            Modifier::Alt => ModifierSet { alt: true, ..ms },
            Modifier::Meta => ModifierSet { meta: true, ..ms },
        };
        i = i + 1;
    }
    proof {
        assert(h.modifiers@.subrange(0, n as int) =~= h.modifiers@);
    }
    Chord { modifiers: ms, key: h.keyboard_key }
}

/// The built-in chord that toggles the overlay panel: Option (Alt) + Command
/// (Meta) + K.
pub open spec fn spec_default_toggle_chord() -> Chord {
    Chord {
        modifiers: ModifierSet { shift: false, control: false, alt: true, meta: true },
        key: KeyboardKey::KeyK,
    }
}

/// The built-in chord that toggles the overlay panel.
pub fn default_toggle_chord() -> (res: Chord)
    ensures
        res == spec_default_toggle_chord(),
{
    Chord {
        modifiers: ModifierSet { shift: false, control: false, alt: true, meta: true },
        key: KeyboardKey::KeyK,
    }
}

/// The chord-to-action mapping that a binding list denotes, later entries
/// overriding earlier ones on the same chord.
pub open spec fn map_of(s: Seq<(Chord, HotkeyAction)>) -> Map<Chord, HotkeyAction>
    decreases s.len(),
{
    if s.len() == 0 {
        Map::empty()
    } else {
        map_of(s.drop_last()).insert(s.last().0, s.last().1)
    }
}

/// Every chord appears at most once in the binding list.
pub open spec fn chords_unique(s: Seq<(Chord, HotkeyAction)>) -> bool {
    forall|i: int, j: int| 0 <= i < j < s.len() ==> (#[trigger] s[i]).0 != (#[trigger] s[j]).0
}

proof fn lemma_map_of_dom(s: Seq<(Chord, HotkeyAction)>, c: Chord)
    ensures
        map_of(s).contains_key(c) <==> exists|i: int| 0 <= i < s.len() && (#[trigger] s[i]).0 == c,
    decreases s.len(),
{
    if s.len() > 0 {
        lemma_map_of_dom(s.drop_last(), c);
        if s.last().0 == c {
            assert(s[s.len() - 1].0 == c);
        } else if map_of(s).contains_key(c) {
            let i = choose|i: int| 0 <= i < s.drop_last().len() && (#[trigger] s.drop_last()[i]).0
                == c;
            assert(s[i].0 == c);
        } else if exists|i: int| 0 <= i < s.len() && (#[trigger] s[i]).0 == c {
            let i = choose|i: int| 0 <= i < s.len() && (#[trigger] s[i]).0 == c;
            assert(s.drop_last()[i].0 == c);
        }
    }
}

proof fn lemma_map_of_index(s: Seq<(Chord, HotkeyAction)>, i: int)
    requires
        chords_unique(s),
        0 <= i < s.len(),
    ensures
        map_of(s).contains_key(s[i].0),
        map_of(s)[s[i].0] == s[i].1,
    decreases s.len(),
{
    if i == s.len() - 1 {
    } else {
        assert(s.drop_last()[i] == s[i]);
        assert(chords_unique(s.drop_last())) by {
            assert(forall|x: int, y: int|
                0 <= x < y < s.drop_last().len() ==> (#[trigger] s.drop_last()[x]).0 != (
                #[trigger] s.drop_last()[y]).0);
        }
        lemma_map_of_index(s.drop_last(), i);
        assert(s.last().0 != s[i].0);
    }
}

/// Owns the registered chord set. The binding list keeps first-registration
/// order, each chord at most once; [`map_of`] gives its meaning.
pub struct HotkeyDispatcher {
    pub bindings: Vec<(Chord, HotkeyAction)>,
}

impl View for HotkeyDispatcher {
    type V = Map<Chord, HotkeyAction>;

    open spec fn view(&self) -> Map<Chord, HotkeyAction> {
        map_of(self.bindings@)
    }
}

fn find_chord(bindings: &Vec<(Chord, HotkeyAction)>, chord: Chord) -> (res: Option<usize>)
    ensures
        match res {
            Some(i) => 0 <= i < bindings@.len() && bindings@[i as int].0 == chord,
            None => forall|j: int| 0 <= j < bindings@.len() ==> (#[trigger] bindings@[j]).0 != chord,
        },
{
    let n = bindings.len();
    let mut i: usize = 0;
    while i < n
        invariant
            n == bindings@.len(),
            0 <= i <= n,
            forall|j: int| 0 <= j < i ==> (#[trigger] bindings@[j]).0 != chord,
        decreases n - i,
    {
        if bindings[i].0 == chord {
            return Some(i);
        }
        i = i + 1;
    }
    None
}

impl HotkeyDispatcher {
    pub open spec fn wf(&self) -> bool {
        chords_unique(self.bindings@)
    }

    /// A dispatcher with no chord registered.
    pub fn new() -> (res: Self)
        ensures
            res.wf(),
            res@ == Map::<Chord, HotkeyAction>::empty(),
    {
        HotkeyDispatcher { bindings: Vec::new() }
    }

    /// Registers `action` under `chord`. Idempotent and last-write-wins:
    /// re-registering a chord replaces its action and keeps its original
    /// position in registration order.
    pub fn register(&mut self, chord: Chord, action: HotkeyAction)
        requires
            old(self).wf(),
        ensures
            final(self).wf(),
            final(self)@ == old(self)@.insert(chord, action),
    {
        let ghost s0 = self.bindings@;
        match find_chord(&self.bindings, chord) {
            Some(i) => {
                self.bindings.set(i, (chord, action));
                proof {
                    lemma_map_of_update(s0, i as int, chord, action);
                    assert(chords_unique(self.bindings@));
                }
            },
            None => {
                self.bindings.push((chord, action));
                proof {
                    assert(self.bindings@.drop_last() =~= s0);
                    assert(chords_unique(self.bindings@));
                }
            },
        }
    }

    /// Whether `chord` is registered.
    pub fn is_registered(&self, chord: Chord) -> (res: bool)
        ensures
            res == self@.contains_key(chord),
    {
        proof {
            lemma_map_of_dom(self.bindings@, chord);
        }
        match find_chord(&self.bindings, chord) {
            Some(_) => true,
            None => false,
        }
    }

    /// Routes one matched chord event. Key releases are ignored; a pressed
    /// event dispatches exactly the action registered for the chord, and
    /// nothing on an unregistered chord.
    pub fn dispatch(&self, chord: Chord, pressed: bool) -> (res: Option<HotkeyAction>)
        requires
            self.wf(),
        ensures
            !pressed ==> res is None,
            pressed ==> match res {
                Some(a) => self@.contains_key(chord) && a == self@[chord],
                None => !self@.contains_key(chord),
            },
    {
        if !pressed {
            return None;
        }
        proof {
            lemma_map_of_dom(self.bindings@, chord);
        }
        match find_chord(&self.bindings, chord) {
            Some(i) => {
                proof {
                    lemma_map_of_index(self.bindings@, i as int);
                }
                Some(self.bindings[i].1.clone())
            },
            None => None,
        }
    }
}

proof fn lemma_map_of_update(s: Seq<(Chord, HotkeyAction)>, i: int, c: Chord, a: HotkeyAction)
    requires
        chords_unique(s),
        0 <= i < s.len(),
        s[i].0 == c,
    ensures
        map_of(s.update(i, (c, a))) == map_of(s).insert(c, a),
    decreases s.len(),
{
    let u = s.update(i, (c, a));
    if i == s.len() - 1 {
        assert(u.drop_last() =~= s.drop_last());
        assert(map_of(u) == map_of(s.drop_last()).insert(c, a));
        assert(map_of(s.drop_last()).insert(c, a) =~= map_of(s.drop_last()).insert(
            s.last().0,
            s.last().1,
        ).insert(c, a));
    } else {
        assert(u.drop_last() =~= s.drop_last().update(i, (c, a)));
        assert(s.drop_last()[i] == s[i]);
        assert(chords_unique(s.drop_last())) by {
            assert(forall|x: int, y: int|
                0 <= x < y < s.drop_last().len() ==> (#[trigger] s.drop_last()[x]).0 != (
                #[trigger] s.drop_last()[y]).0);
        }
        lemma_map_of_update(s.drop_last(), i, c, a);
        assert(u.last() == s.last());
        assert(s.last().0 != c);
        assert(map_of(s).insert(c, a) =~= map_of(s.drop_last()).insert(c, a).insert(
            s.last().0,
            s.last().1,
        ));
    }
}

/// Law: hotkey registration is last-write-wins per chord. After registering
/// chord `c` for `a` and then `c` for `b`, the registered mapping holds `b`
/// at `c`, so a matched event on `c` dispatches `b` and never `a`.
pub proof fn lemma_register_last_write_wins(
    m: Map<Chord, HotkeyAction>,
    c: Chord,
    a: HotkeyAction,
    b: HotkeyAction,
)
    ensures
        m.insert(c, a).insert(c, b).contains_key(c),
        m.insert(c, a).insert(c, b)[c] == b,
{
}

/// The bindings that one target contributes when the registry is turned into
/// chords: one launch entry per stored hotkey, in stored order.
pub open spec fn hotkey_entries(id: String, hs: Seq<Hotkey>) -> Seq<(Chord, HotkeyAction)>
    decreases hs.len(),
{
    if hs.len() == 0 {
        Seq::empty()
    } else {
        hotkey_entries(id, hs.drop_last()).push(
            (
                spec_chord_of(hs.last().modifiers@, hs.last().keyboard_key),
                HotkeyAction::LaunchTarget(id),
            ),
        )
    }
}

/// The bindings that the whole registry contributes, target by target in
/// registry order.
pub open spec fn config_entries(cs: Seq<Config>) -> Seq<(Chord, HotkeyAction)>
    decreases cs.len(),
{
    if cs.len() == 0 {
        Seq::empty()
    } else {
        config_entries(cs.drop_last()) + hotkey_entries(cs.last().id, cs.last().hotkeys@)
    }
}

/// Every binding a rebuilt dispatcher is asked to hold, in claim order: the
/// panel-toggle chord first, then the registry's per-target chords.
pub open spec fn desired_entries(toggle: Chord, cs: Seq<Config>) -> Seq<(Chord, HotkeyAction)> {
    seq![(toggle, HotkeyAction::TogglePanel)] + config_entries(cs)
}

/// First-claim-wins fold of a binding list: an entry whose chord was already
/// claimed is dropped rather than overriding the earlier claim.
pub open spec fn first_claim_map(s: Seq<(Chord, HotkeyAction)>) -> Map<Chord, HotkeyAction>
    decreases s.len(),
{
    if s.len() == 0 {
        Map::empty()
    } else {
        let m = first_claim_map(s.drop_last());
        if m.contains_key(s.last().0) {
            m
        } else {
            m.insert(s.last().0, s.last().1)
        }
    }
}

/// The chords of the entries that [`first_claim_map`] drops, in claim order:
/// each is a configuration error to surface as a warning, never a crash.
pub open spec fn first_claim_collisions(s: Seq<(Chord, HotkeyAction)>) -> Seq<Chord>
    decreases s.len(),
{
    if s.len() == 0 {
        Seq::empty()
    } else {
        let d = first_claim_collisions(s.drop_last());
        if first_claim_map(s.drop_last()).contains_key(s.last().0) {
            d.push(s.last().0)
        } else {
            d
        }
    }
}

fn collect_entries(toggle: Chord, configs: &Vec<Config>) -> (res: Vec<(Chord, HotkeyAction)>)
    ensures
        res@ == desired_entries(toggle, configs@),
{
    let mut res: Vec<(Chord, HotkeyAction)> = Vec::new();
    res.push((toggle, HotkeyAction::TogglePanel));
    proof {
        assert(res@ =~= seq![(toggle, HotkeyAction::TogglePanel)] + config_entries(
            configs@.subrange(0, 0),
        ));
    }
    let n = configs.len();
    let mut i: usize = 0;
    while i < n
        invariant
            n == configs@.len(),
            0 <= i <= n,
            res@ == seq![(toggle, HotkeyAction::TogglePanel)] + config_entries(
                configs@.subrange(0, i as int),
            ),
        decreases n - i,
    {
        let c = &configs[i];
        let m = c.hotkeys.len();
        let mut j: usize = 0;
        while j < m
            invariant
                n == configs@.len(),
                0 <= i < n,
                c == &configs@[i as int],
                m == c.hotkeys@.len(),
                0 <= j <= m,
                res@ == seq![(toggle, HotkeyAction::TogglePanel)] + config_entries(
                    configs@.subrange(0, i as int),
                ) + hotkey_entries(c.id, c.hotkeys@.subrange(0, j as int)),
            decreases m - j,
        {
            let chord = chord_of_hotkey(&c.hotkeys[j]);
            res.push((chord, HotkeyAction::LaunchTarget(c.id.clone())));
            proof {
                assert(c.hotkeys@.subrange(0, j + 1).drop_last() =~= c.hotkeys@.subrange(
                    0,
                    j as int,
                ));
            }
            j = j + 1;
        }
        proof {
            assert(c.hotkeys@.subrange(0, m as int) =~= c.hotkeys@);
            assert(configs@.subrange(0, i + 1).drop_last() =~= configs@.subrange(0, i as int));
        }
        i = i + 1;
    }
    proof {
        assert(configs@.subrange(0, n as int) =~= configs@);
    }
    res
}

fn build_first_claim(entries: Vec<(Chord, HotkeyAction)>) -> (res: (
    HotkeyDispatcher,
    Vec<Chord>,
))
    ensures
        res.0.wf(),
        res.0@ == first_claim_map(entries@),
        res.1@ == first_claim_collisions(entries@),
{
    let mut dispatcher = HotkeyDispatcher::new();
    let mut collisions: Vec<Chord> = Vec::new();
    let n = entries.len();
    let mut i: usize = 0;
    while i < n
        invariant
            n == entries@.len(),
            0 <= i <= n,
            dispatcher.wf(),
            dispatcher@ == first_claim_map(entries@.subrange(0, i as int)),
            collisions@ == first_claim_collisions(entries@.subrange(0, i as int)),
        decreases n - i,
    {
        let ghost b0 = dispatcher.bindings@;
        let e = &entries[i];
        proof {
            assert(entries@.subrange(0, i + 1).drop_last() =~= entries@.subrange(0, i as int));
            lemma_map_of_dom(dispatcher.bindings@, e.0);
        }
        if dispatcher.is_registered(e.0) {
            collisions.push(e.0);
        } else {
            dispatcher.bindings.push((e.0, e.1.clone()));
            proof {
                assert(dispatcher.bindings@.drop_last() =~= b0);
                assert(chords_unique(dispatcher.bindings@));
            }
        }
        i = i + 1;
    }
    proof {
        assert(entries@.subrange(0, n as int) =~= entries@);
    }
    (dispatcher, collisions)
}

impl HotkeyDispatcher {
    /// Builds the full chord set that the registry calls for: the
    /// panel-toggle chord first, then each target's chords in registry
    /// order. A chord claimed twice keeps its first claim
    /// (first-registered-wins) and is echoed back as a collision warning.
    /// Called whenever the registry changes, replacing the stale set.
    pub fn rebuild_bindings(toggle: Chord, configs: &Vec<Config>) -> (res: (
        HotkeyDispatcher,
        Vec<Chord>,
    ))
        ensures
            res.0.wf(),
            res.0@ == first_claim_map(desired_entries(toggle, configs@)),
            res.1@ == first_claim_collisions(desired_entries(toggle, configs@)),
    {
        let entries = collect_entries(toggle, configs);
        build_first_claim(entries)
    }
}

/// The path of the first target whose identifier is `id`, when that target
/// has one; nothing when the identifier is unknown or the target is not yet
/// resolvable.
pub open spec fn spec_resolve(cs: Seq<Config>, id: Seq<char>, i: int) -> Option<Seq<char>>
    decreases cs.len() - i,
{
    if i < 0 || i >= cs.len() {
        None
    } else if cs[i].id@ == id {
        match cs[i].path {
            Some(p) => Some(p@),
            None => None,
        }
    } else {
        spec_resolve(cs, id, i + 1)
    }
}

/// Resolves a launch action's target identifier to the path handed to the
/// process launcher. `None` — unknown identifier, or a target without a
/// resolvable path — means the launch degrades to a logged no-op.
pub fn resolve_launch(configs: &Vec<Config>, id: &String) -> (res: Option<String>)
    ensures
        match res {
            Some(p) => spec_resolve(configs@, id@, 0) == Some(p@),
            None => spec_resolve(configs@, id@, 0) is None,
        },
{
    let n = configs.len();
    let mut i: usize = 0;
    while i < n
        invariant
            n == configs@.len(),
            0 <= i <= n,
            spec_resolve(configs@, id@, 0) == spec_resolve(configs@, id@, i as int),
        decreases n - i,
    {
        if configs[i].id == *id {
            return match &configs[i].path {
                Some(p) => Some(p.clone()),
                None => None,
            };
        }
        i = i + 1;
    }
    None
}

/// What the process around the dispatcher must do after one OS chord event.
pub enum DispatchOutcome {
    /// A key release, or a chord nobody registered: do nothing.
    Ignored,
    /// The panel toggled; issue these window operations in order.
    Toggled(Vec<PanelAction>),
    /// Spawn the OS handler for this path or URL, fire-and-forget.
    Launch(String),
    /// A launch target without a resolvable path: log and do nothing.
    LaunchUnresolved,
}

/// Routes one OS chord event through the dispatcher: a matched toggle chord
/// drives the panel controller, a matched launch chord resolves its target's
/// path against the registry and never touches panel visibility, and
/// everything else is ignored.
pub fn handle_hotkey_event(
    dispatcher: &HotkeyDispatcher,
    registry: &AppState,
    panel: &mut PanelController,
    chord: Chord,
    pressed: bool,
    os_visible: bool,
    layout: &ScreenLayout,
) -> (out: DispatchOutcome)
    requires
        dispatcher.wf(),
        layout.wf(),
    ensures
        !pressed || !dispatcher@.contains_key(chord) ==> out is Ignored && *final(panel) == *old(panel),
        pressed && dispatcher@.contains_key(chord) && dispatcher@[chord]
            == HotkeyAction::TogglePanel ==> {
            &&& out matches DispatchOutcome::Toggled(acts)
            &&& final(panel).state == (if os_visible {
                crate::panel::PanelState::Hidden
            } else {
                crate::panel::PanelState::Visible
            })
            &&& (os_visible ==> acts@ =~= seq![PanelAction::OrderOut])
            &&& (!os_visible ==> acts@ =~= seq![
                PanelAction::SetPosition(crate::panel::spec_show_point(layout@)),
                PanelAction::ShowAndMakeKey,
            ])
        },
        (pressed && dispatcher@.contains_key(chord) && dispatcher@[chord] matches
            HotkeyAction::LaunchTarget(id)) ==> *final(panel) == *old(panel) && (match spec_resolve(
            registry.configs@,
            dispatcher@[chord]->LaunchTarget_0@,
            0,
        ) {
            Some(p) => out matches DispatchOutcome::Launch(q) && q@ == p,
            None => out is LaunchUnresolved,
        }),
{
    match dispatcher.dispatch(chord, pressed) {
        None => DispatchOutcome::Ignored,
        Some(HotkeyAction::TogglePanel) => {
            let acts = panel.toggle(os_visible, layout);
            DispatchOutcome::Toggled(acts)
        },
        Some(HotkeyAction::LaunchTarget(id)) => {
            match resolve_launch(&registry.configs, &id) {
                Some(path) => DispatchOutcome::Launch(path),
                None => DispatchOutcome::LaunchUnresolved,
            }
        },
    }
}

} // verus!

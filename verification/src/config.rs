//! The target registry: user-configured launch targets, replaced wholesale on
//! each synchronization request from the UI layer.

use vstd::prelude::*;

verus! {

/// How a stored target is resolved to a launch action when invoked.
#[derive(Copy, Debug, PartialEq, Eq, Structural)]
pub enum Variant {
    App,
    Url,
    Extension,
}

impl Clone for Variant {
    fn clone(&self) -> (res: Self)
        ensures
            res == *self,
    {
        *self
    }
}

/// A modifier key of a global key chord.
#[derive(Copy, Debug, PartialEq, Eq, Structural)]
pub enum Modifier {
    Shift,
    Control,
    Alt,
    Meta,
}

impl Clone for Modifier {
    fn clone(&self) -> (res: Self)
        ensures
            res == *self,
    {
        *self
    }
}

/// The base (non-modifier) key of a global key chord.
#[derive(Copy, Debug, PartialEq, Eq, Structural)]
pub enum KeyboardKey {
    KeyA,
    KeyB,
    KeyC,
    KeyD,
    KeyE,
    KeyF,
    KeyG,
    KeyH,
    KeyI,
    KeyJ,
    KeyK,
    KeyL,
    KeyM,
    KeyN,
    KeyO,
    KeyP,
    KeyQ,
    KeyR,
    KeyS,
    KeyT,
    KeyU,
    KeyV,
    KeyW,
    KeyX,
    KeyY,
    KeyZ,
    Digit0,
    Digit1,
    Digit2,
    Digit3,
    Digit4,
    Digit5,
    Digit6,
    Digit7,
    Digit8,
    Digit9,
}

impl Clone for KeyboardKey {
    fn clone(&self) -> (res: Self)
        ensures
            res == *self,
    {
        *self
    }
}

/// One chord binding of a target: a set of modifier keys plus one base key.
/// The order of `modifiers` carries no meaning; two bindings that list the
/// same modifiers in a different order denote the same chord.
pub struct Hotkey {
    pub modifiers: Vec<Modifier>,
    pub keyboard_key: KeyboardKey,
}

/// The mathematical value of a [`Hotkey`].
pub struct HotkeyV {
    pub modifiers: Seq<Modifier>,
    pub keyboard_key: KeyboardKey,
}

impl View for Hotkey {
    type V = HotkeyV;

    open spec fn view(&self) -> HotkeyV {
        HotkeyV { modifiers: self.modifiers@, keyboard_key: self.keyboard_key }
    }
}

impl DeepView for Hotkey {
    type V = HotkeyV;

    open spec fn deep_view(&self) -> HotkeyV {
        self.view()
    }
}

impl Clone for Hotkey {
    fn clone(&self) -> (res: Self)
        ensures
            res@ == self@,
    {
        let res = Hotkey { modifiers: self.modifiers.clone(), keyboard_key: self.keyboard_key };
        proof {
            assert(res.modifiers@ =~= self.modifiers@);
        }
        res
    }
}

/// A user-configured launchable entry of the registry.
pub struct Config {
    /// Unique stable identifier, assigned at creation and never reused.
    pub id: String,
    /// Display string.
    pub name: String,
    /// How `path` is resolved to a launch action.
    pub variant: Variant,
    /// Text-match lookup strings, ordered by display priority.
    pub aliases: Vec<String>,
    /// Chords that launch this target directly, panel open or not.
    pub hotkeys: Vec<Hotkey>,
    /// Resolved filesystem path or URL; absent while unresolvable.
    pub path: Option<String>,
}

/// The mathematical value of a [`Config`].
pub struct ConfigV {
    pub id: Seq<char>,
    pub name: Seq<char>,
    pub variant: Variant,
    pub aliases: Seq<Seq<char>>,
    pub hotkeys: Seq<HotkeyV>,
    pub path: Option<Seq<char>>,
}

impl View for Config {
    type V = ConfigV;

    open spec fn view(&self) -> ConfigV {
        ConfigV {
            id: self.id@,
            name: self.name@,
            variant: self.variant,
            aliases: self.aliases.deep_view(),
            hotkeys: self.hotkeys.deep_view(),
            path: match self.path {
                Some(p) => Some(p@),
                None => None,
            },
        }
    }
}

impl DeepView for Config {
    type V = ConfigV;

    open spec fn deep_view(&self) -> ConfigV {
        self.view()
    }
}

impl Clone for Config {
    fn clone(&self) -> (res: Self)
        ensures
            res@ == self@,
    {
        let res = Config {
            id: self.id.clone(),
            name: self.name.clone(),
            variant: self.variant,
            aliases: self.aliases.clone(),
            hotkeys: self.hotkeys.clone(),
            path: self.path.clone(),
        };
        proof {
            assert(res.aliases.deep_view() =~= self.aliases.deep_view());
            assert(res.hotkeys.deep_view() =~= self.hotkeys.deep_view());
        }
        res
    }
}

/// The full registry contents, replaced wholesale on each sync.
pub type Configs = Vec<Config>;

/// The process-wide shared state: the current registry of targets.
///
/// It starts empty, is populated by the first sync, and is replaced on every
/// later one. Callers that share it across threads keep it behind a lock;
/// every operation here works on the plain value.
pub struct AppState {
    pub configs: Configs,
}

/// Holds exactly when `post` and `returned` are the state and echo that a
/// sync with input `input` leaves behind: both hold the input itself.
pub open spec fn sync_configs_post(post: AppState, input: Seq<ConfigV>, returned: Seq<ConfigV>) -> bool {
    &&& post.configs.deep_view() == input
    &&& returned == input
}

impl AppState {
    /// A registry holding no targets, the state at process start.
    pub fn new() -> (res: Self)
        ensures
            res.configs@ == Seq::<Config>::empty(),
    {
        AppState { configs: Vec::new() }
    }

    /// Atomically replaces the whole registry with `configs` and returns the
    /// stored copy, echoed back for the UI to confirm.
    pub fn sync_configs(&mut self, configs: Configs) -> (res: Configs)
        ensures
            sync_configs_post(*final(self), configs.deep_view(), res.deep_view()),
    {
        self.configs = configs;
        let res = self.configs.clone();
        proof {
            assert(res.deep_view() =~= self.configs.deep_view());
        }
        res
    }

    /// Returns a snapshot copy of the current registry.
    pub fn read_configs(&self) -> (res: Configs)
        ensures
            res.deep_view() == self.configs.deep_view(),
    {
        let res = self.configs.clone();
        proof {
            assert(res.deep_view() =~= self.configs.deep_view());
        }
        res
    }
}

impl Default for AppState {
    fn default() -> (res: Self)
        ensures
            res.configs@ == Seq::<Config>::empty(),
    {
        AppState { configs: Vec::new() }
    }
}

/// Law: `sync_configs` is idempotent under repeated identical input. Two
/// syncs whose inputs hold the same targets leave the same registry behind
/// and echo the same list, so a concurrent read snapshots one of the synced
/// lists and never a mixture: `read_configs` returns exactly the stored
/// sequence, which after either call is that same input.
pub proof fn lemma_sync_configs_idempotent(
    post1: AppState,
    post2: AppState,
    input1: Seq<ConfigV>,
    input2: Seq<ConfigV>,
    ret1: Seq<ConfigV>,
    ret2: Seq<ConfigV>,
)
    requires
        input1 == input2,
        sync_configs_post(post1, input1, ret1),
        sync_configs_post(post2, input2, ret2),
    ensures
        ret1 == ret2,
        post1.configs.deep_view() == post2.configs.deep_view(),
{
}

} // verus!

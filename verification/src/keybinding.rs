//! Key bindings: which key triggers which action of the picker.

use vstd::prelude::*;
use std::collections::HashMap;

verus! {

broadcast use vstd::std_specs::hash::group_hash_axioms;

/// How many keys there are.
pub const KEY_COUNT: u8 = 51;

/// A key of the keyboard.
#[derive(Clone, Copy, Debug, PartialEq, Eq, Hash, Structural)]
pub enum Key {
    ArrowDown,
    ArrowLeft,
    ArrowRight,
    ArrowUp,
    Escape,
    Tab,
    Backspace,
    Enter,
    Space,
    Insert,
    Delete,
    Home,
    End,
    PageUp,
    PageDown,
    Num0,
    Num1,
    Num2,
    Num3,
    Num4,
    Num5,
    Num6,
    Num7,
    Num8,
    Num9,
    A,
    B,
    C,
    D,
    E,
    F,
    G,
    H,
    I,
    J,
    K,
    L,
    M,
    N,
    O,
    P,
    Q,
    R,
    S,
    T,
    U,
    V,
    W,
    X,
    Y,
    Z,
}

impl Key {
    /// The key's place in the list of keys, counted from zero.
    pub open spec fn index(self) -> int {
        match self {
            Key::ArrowDown => 0,
            Key::ArrowLeft => 1,
            Key::ArrowRight => 2,
            Key::ArrowUp => 3,
            Key::Escape => 4,
            Key::Tab => 5,
            Key::Backspace => 6,
            Key::Enter => 7,
            Key::Space => 8,
            Key::Insert => 9,
            Key::Delete => 10,
            Key::Home => 11,
            Key::End => 12,
            Key::PageUp => 13,
            Key::PageDown => 14,
            Key::Num0 => 15,
            Key::Num1 => 16,
            Key::Num2 => 17,
            Key::Num3 => 18,
            Key::Num4 => 19,
            Key::Num5 => 20,
            Key::Num6 => 21,
            Key::Num7 => 22,
            Key::Num8 => 23,
            Key::Num9 => 24,
            Key::A => 25,
            Key::B => 26,
            Key::C => 27,
            Key::D => 28,
            Key::E => 29,
            Key::F => 30,
            Key::G => 31,
            Key::H => 32,
            Key::I => 33,
            Key::J => 34,
            Key::K => 35,
            Key::L => 36,
            Key::M => 37,
            Key::N => 38,
            Key::O => 39,
            Key::P => 40,
            Key::Q => 41,
            Key::R => 42,
            Key::S => 43,
            Key::T => 44,
            Key::U => 45,
            Key::V => 46,
            Key::W => 47,
            Key::X => 48,
            Key::Y => 49,
            Key::Z => 50,
        }
    }

    /// The key's place in the list of keys, counted from zero.
    pub fn code(&self) -> (code: u8)
        ensures
            code == self.index(),
            code < KEY_COUNT,
    {
        match self {
            Key::ArrowDown => 0,
            Key::ArrowLeft => 1,
            Key::ArrowRight => 2,
            Key::ArrowUp => 3,
            Key::Escape => 4,
            Key::Tab => 5,
            Key::Backspace => 6,
            Key::Enter => 7,
            Key::Space => 8,
            Key::Insert => 9,
            Key::Delete => 10,
            Key::Home => 11,
            Key::End => 12,
            Key::PageUp => 13,
            Key::PageDown => 14,
            Key::Num0 => 15,
            Key::Num1 => 16,
            Key::Num2 => 17,
            Key::Num3 => 18,
            Key::Num4 => 19,
            Key::Num5 => 20,
            Key::Num6 => 21,
            Key::Num7 => 22,
            Key::Num8 => 23,
            Key::Num9 => 24,
            Key::A => 25,
            Key::B => 26,
            Key::C => 27,
            Key::D => 28,
            Key::E => 29,
            Key::F => 30,
            Key::G => 31,
            Key::H => 32,
            Key::I => 33,
            Key::J => 34,
            Key::K => 35,
            Key::L => 36,
            Key::M => 37,
            Key::N => 38,
            Key::O => 39,
            Key::P => 40,
            Key::Q => 41,
            Key::R => 42,
            Key::S => 43,
            Key::T => 44,
            Key::U => 45,
            Key::V => 46,
            Key::W => 47,
            Key::X => 48,
            Key::Y => 49,
            Key::Z => 50,
        }
    }
}

/// No two keys share a place in the list of keys.
pub proof fn lemma_index_tells_keys_apart(a: Key, b: Key)
    ensures
        0 <= a.index() < KEY_COUNT,
        a.index() == b.index() <==> a == b,
{
}

/// What a key binding does to the picker when its key is pressed.
#[derive(Clone, Copy, Debug, PartialEq, Eq, Structural)]
pub enum Action {
    /// Show the side panel if it is hidden, hide it if it is shown.
    ToggleSidePanel,
    /// Make the color under the cursor the current color.
    PickColor,
    /// Append the color under the cursor to the palette.
    SaveColor,
}

/// The model of a key binding.
pub struct Binding {
    pub description: Seq<char>,
    pub str_key: Seq<char>,
    pub key: Key,
    pub action: Action,
}

/// A key, what pressing it does, and the texts that tell the user so.
#[derive(Clone, Copy, Debug)]
pub struct KeyBinding {
    description: &'static str,
    str_key: &'static str,
    key: Key,
    binding: Action,
}

impl View for KeyBinding {
    type V = Binding;

    closed spec fn view(&self) -> Binding {
        Binding {
            description: self.description@,
            str_key: self.str_key@,
            key: self.key,
            action: self.binding,
        }
    }
}

impl DeepView for KeyBinding {
    type V = Binding;

    open spec fn deep_view(&self) -> Binding {
        self@
    }
}

impl KeyBinding {
    /// Binds `key` to `binding`. `str_key` is the key as the user reads it,
    /// `description` says what the binding does.
    pub fn new(
        description: &'static str,
        str_key: &'static str,
        key: Key,
        binding: Action,
    ) -> (bound: KeyBinding)
        ensures
            bound@ == (Binding {
                description: description@,
                str_key: str_key@,
                key,
                action: binding,
            }),
    {
        KeyBinding { description, str_key, key, binding }
    }

    /// The key as the user reads it.
    pub fn str_key(&self) -> (text: &'static str)
        ensures
            text@ == self@.str_key,
    {
        self.str_key
    }

    /// What the binding does, in words.
    pub fn description(&self) -> (text: &'static str)
        ensures
            text@ == self@.description,
    {
        self.description
    }

    /// The key that triggers the binding.
    pub fn key(&self) -> (key: Key)
        ensures
            key == self@.key,
    {
        self.key
    }

    /// What the binding does.
    pub fn binding(&self) -> (action: Action)
        ensures
            action == self@.action,
    {
        self.binding
    }
}

/// Every binding in the map stands under its own key.
pub open spec fn keyed(bindings: Map<Key, Binding>) -> bool {
    forall|k: Key| bindings.contains_key(k) ==> (#[trigger] bindings[k]).key == k
}

/// The map that a list of bindings makes: each binding stands under its
/// key, and of two bindings of one key the later stands.
pub open spec fn registry(bindings: Seq<Binding>) -> Map<Key, Binding>
    decreases bindings.len(),
{
    if bindings.len() == 0 {
        Map::empty()
    } else {
        registry(bindings.drop_last()).insert(bindings.last().key, bindings.last())
    }
}

/// In the map that a list of bindings makes, every binding stands under its own key.
pub proof fn lemma_registry_keyed(bindings: Seq<Binding>)
    ensures
        keyed(registry(bindings)),
        registry(bindings).dom().finite(),
    decreases bindings.len(),
{
    if bindings.len() > 0 {
        lemma_registry_keyed(bindings.drop_last());
    }
}

/// What a map from key codes holds, seen as a map from keys.
spec fn by_key(codes: Map<u8, KeyBinding>) -> Map<Key, Binding> {
    Map::new(|k: Key| codes.contains_key(k.index() as u8), |k: Key| codes[k.index() as u8]@)
}

/// Every binding in a map from key codes stands under the code of its own key.
spec fn coded(codes: Map<u8, KeyBinding>) -> bool {
    forall|c: u8| codes.contains_key(c) ==> (#[trigger] codes[c]).key.index() == c
}

proof fn lemma_by_key_insert(codes: Map<u8, KeyBinding>, bound: KeyBinding)
    ensures
        by_key(codes.insert(bound.key.index() as u8, bound)) == by_key(codes).insert(
            bound.key,
            bound@,
        ),
{
    let code = bound.key.index() as u8;
    assert forall|k: Key| (k.index() as u8 == code) == (k == bound.key) by {
        lemma_index_tells_keys_apart(k, bound.key);
    }
    assert(by_key(codes.insert(code, bound)) =~= by_key(codes).insert(bound.key, bound@));
}

/// The key bindings of the picker: at most one binding for each key. It is
/// made once and never changes.
pub struct KeyBindings {
    map: HashMap<u8, KeyBinding>,
}

impl View for KeyBindings {
    type V = Map<Key, Binding>;

    closed spec fn view(&self) -> Map<Key, Binding> {
        by_key(self.map@)
    }
}

impl KeyBindings {
    #[verifier::type_invariant]
    spec fn well_formed(self) -> bool {
        coded(self.map@)
    }

    /// Makes the registry of a list of bindings. Each binding stands under
    /// its key; of two bindings of one key the later stands.
    pub fn new(bindings: Vec<KeyBinding>) -> (made: KeyBindings)
        ensures
            made@ == registry(bindings.deep_view()),
            keyed(made@),
    {
        let ghost models = bindings.deep_view();
        let mut map: HashMap<u8, KeyBinding> = HashMap::new();
        let mut i: usize = 0;
        assert(by_key(map@) =~= registry(models.take(0)));
        while i < bindings.len()
            invariant
                i <= bindings.len(),
                models == bindings.deep_view(),
                coded(map@),
                by_key(map@) == registry(models.take(i as int)),
            decreases bindings.len() - i,
        {
            let bound: KeyBinding = bindings[i];
            proof {
                lemma_by_key_insert(map@, bound);
                assert(models.take(i + 1).drop_last() =~= models.take(i as int));
                assert(models.take(i + 1).last() == bound@);
            }
            map.insert(bound.key.code(), bound);
            i = i + 1;
        }
        proof {
            assert(models.take(i as int) =~= models);
            lemma_registry_keyed(models);
        }
        KeyBindings { map }
    }

    /// The binding of a key, if the key is bound.
    pub fn get(&self, key: Key) -> (found: Option<KeyBinding>)
        ensures
            match found {
                Some(bound) => self@.contains_key(key) && bound@ == self@[key] && bound@.key == key,
                None => !self@.contains_key(key),
            },
    {
        proof {
            use_type_invariant(self);
        }
        let code: u8 = key.code();
        match self.map.get(&code) {
            Some(bound) => {
                proof {
                    lemma_index_tells_keys_apart(bound.key, key);
                }
                Some(*bound)
            },
            None => None,
        }
    }

    /// The bound keys whose place in the list of keys is below `limit`.
    spec fn bound_below(self, limit: int) -> Set<Key> {
        Set::new(|k: Key| self@.contains_key(k) && k.index() < limit)
    }

    /// Every binding, in the order of the keys. Each bound key has exactly
    /// one place in the list.
    pub fn iter(&self) -> (all: Vec<KeyBinding>)
        ensures
            self@.dom().finite(),
            all@.len() == self@.dom().len(),
            forall|i: int|
                0 <= i < all@.len() ==> self@.contains_key((#[trigger] all@[i])@.key)
                    && self@[all@[i]@.key] == all@[i]@,
            forall|k: Key| #[trigger]
                self@.contains_key(k) ==> exists|i: int|
                    0 <= i < all@.len() && (#[trigger] all@[i])@ == self@[k],
            forall|i: int, j: int|
                0 <= i < j < all@.len() ==> (#[trigger] all@[i])@.key.index() < (
                #[trigger] all@[j])@.key.index(),
    {
        proof {
            use_type_invariant(self);
        }
        let mut all: Vec<KeyBinding> = Vec::new();
        let mut code: u8 = 0;
        assert(self.bound_below(0) =~= Set::empty()) by {
            assert forall|k: Key| !self.bound_below(0).contains(k) by {
                lemma_index_tells_keys_apart(k, k);
            }
        }
        while code < KEY_COUNT
            invariant
                code <= KEY_COUNT,
                coded(self.map@),
                self.bound_below(code as int).finite(),
                self.bound_below(code as int).len() == all@.len(),
                forall|i: int|
                    0 <= i < all@.len() ==> self@.contains_key((#[trigger] all@[i])@.key)
                        && self@[all@[i]@.key] == all@[i]@ && all@[i]@.key.index() < code,
                forall|k: Key| #[trigger]
                    self@.contains_key(k) && k.index() < code ==> exists|i: int|
                        0 <= i < all@.len() && (#[trigger] all@[i])@ == self@[k],
                forall|i: int, j: int|
                    0 <= i < j < all@.len() ==> (#[trigger] all@[i])@.key.index() < (
                    #[trigger] all@[j])@.key.index(),
            decreases KEY_COUNT - code,
        {
            let ghost before = all@;
            match self.map.get(&code) {
                Some(bound) => {
                    all.push(*bound);
                    proof {
                        let last = before.len() as int;
                        assert(all@[last] == *bound);
                        assert(self.bound_below(code + 1) =~= self.bound_below(code as int).insert(
                            bound.key,
                        )) by {
                            assert forall|k: Key| (k.index() == code) == (k == bound.key) by {
                                lemma_index_tells_keys_apart(k, bound.key);
                            }
                        }
                        assert forall|k: Key| #[trigger]
                            self@.contains_key(k) && k.index() < code + 1 implies exists|i: int|
                            0 <= i < all@.len() && (#[trigger] all@[i])@ == self@[k] by {
                            if k.index() < code {
                                let i = choose|i: int|
                                    0 <= i < before.len() && (#[trigger] before[i])@ == self@[k];
                                assert(all@[i] == before[i]);
                            } else {
                                lemma_index_tells_keys_apart(k, bound.key);
                                assert(all@[last]@ == self@[k]);
                            }
                        }
                    }
                },
                None => {
                    proof {
                        assert(self.bound_below(code + 1) =~= self.bound_below(code as int));
                        assert forall|k: Key| #[trigger]
                            self@.contains_key(k) && k.index() < code + 1 implies exists|i: int|
                            0 <= i < all@.len() && (#[trigger] all@[i])@ == self@[k] by {
                            assert(k.index() < code);
                        }
                    }
                },
            }
            code = code + 1;
        }
        proof {
            assert forall|k: Key| #[trigger] self@.contains_key(k) implies exists|i: int|
                0 <= i < all@.len() && (#[trigger] all@[i])@ == self@[k] by {
                lemma_index_tells_keys_apart(k, k);
            }
            assert(self.bound_below(KEY_COUNT as int) =~= self@.dom()) by {
                assert forall|k: Key| self@.dom().contains(k) implies self.bound_below(
                    KEY_COUNT as int,
                ).contains(k) by {
                    lemma_index_tells_keys_apart(k, k);
                }
            }
        }
        all
    }
}

/// The bindings that the picker starts with.
pub open spec fn default_bindings() -> Seq<Binding> {
    seq![
        Binding {
            description: "toggle the side panel"@,
            str_key: "h"@,
            key: Key::H,
            action: Action::ToggleSidePanel,
        },
        Binding {
            description: "pick a color from under the cursor"@,
            str_key: "p"@,
            key: Key::P,
            action: Action::PickColor,
        },
        Binding {
            description: "save a color from under the cursor"@,
            str_key: "s"@,
            key: Key::S,
            action: Action::SaveColor,
        },
    ]
}

/// The registry that the picker starts with: `h` toggles the side panel,
/// `p` picks the color under the cursor, `s` saves it to the palette. No
/// other key is bound.
pub fn default_keybindings() -> (made: KeyBindings)
    ensures
        made@ == registry(default_bindings()),
        made@.dom() == set![Key::H, Key::P, Key::S],
        made@[Key::H] == default_bindings()[0],
        made@[Key::P] == default_bindings()[1],
        made@[Key::S] == default_bindings()[2],
{
    let mut bindings: Vec<KeyBinding> = Vec::new();
    bindings.push(
        KeyBinding {
            description: "toggle the side panel",
            str_key: "h",
            key: Key::H,
            binding: Action::ToggleSidePanel,
        },
    );
    bindings.push(
        KeyBinding {
            description: "pick a color from under the cursor",
            str_key: "p",
            key: Key::P,
            binding: Action::PickColor,
        },
    );
    bindings.push(
        KeyBinding {
            description: "save a color from under the cursor",
            str_key: "s",
            key: Key::S,
            binding: Action::SaveColor,
        },
    );
    proof {
        assert(bindings.deep_view() =~= default_bindings());
        lemma_default_registry();
    }
    KeyBindings::new(bindings)
}

/// What the starting registry holds, key by key.
pub proof fn lemma_default_registry()
    ensures
        registry(default_bindings()).dom() == set![Key::H, Key::P, Key::S],
        registry(default_bindings())[Key::H] == default_bindings()[0],
        registry(default_bindings())[Key::P] == default_bindings()[1],
        registry(default_bindings())[Key::S] == default_bindings()[2],
{
    let all = default_bindings();
    let two = all.drop_last();
    let one = two.drop_last();
    assert(one.drop_last().len() == 0);
    reveal_with_fuel(registry, 4);
    assert(registry(all).dom() =~= set![Key::H, Key::P, Key::S]);
}

} // verus!

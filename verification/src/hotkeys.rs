//! The overlay's three hotkeys: which combos are legal, which keystroke fires which action, and how
//! presses travel from the keyboard hook to the overlay.
//!
//! Keys are Windows virtual-key codes. Nothing here depends on the platform.

use vstd::prelude::*;

verus! {

/// Virtual key `X`.
pub const VK_X: u32 = 0x58;

/// Virtual key `C`.
pub const VK_C: u32 = 0x43;

/// Virtual key `Z`.
pub const VK_Z: u32 = 0x5A;

/// One hotkey: the main key and the modifiers that must be held. `alt` is the left Alt.
///
/// The derived default has no key. It is invalid and matches nothing.
#[derive(Debug, Clone, Copy, PartialEq, Eq, Default, Structural)]
pub struct Binding {
    pub vk: u32,
    pub ctrl: bool,
    pub alt: bool,
    pub shift: bool,
}

/// One binding for each action.
#[derive(Debug, Clone, Copy, PartialEq, Eq, Structural)]
pub struct KeyBindings {
    /// Interact mode on and off.
    pub interact: Binding,
    /// Settings mode on and off.
    pub settings: Binding,
    /// Show and hide the whole overlay.
    pub visibility: Binding,
}

/// Which modifiers are physically down when a key fires. Alt is split into its two sides, since
/// nothing else tells Ctrl+Alt from AltGr.
#[derive(Debug, Clone, Copy, PartialEq, Eq, Default, Structural)]
pub struct Mods {
    /// Either Ctrl. AltGr holds down a phantom left Ctrl.
    pub ctrl: bool,
    pub left_alt: bool,
    /// AltGr on a layout that has one.
    pub right_alt: bool,
    /// Either Shift.
    pub shift: bool,
}

/// The shipped combos: Ctrl+Alt+X, Ctrl+Alt+C and Ctrl+Alt+Z.
pub open spec fn shipped_keys() -> KeyBindings {
    KeyBindings {
        interact: Binding { vk: VK_X, ctrl: true, alt: true, shift: false },
        settings: Binding { vk: VK_C, ctrl: true, alt: true, shift: false },
        visibility: Binding { vk: VK_Z, ctrl: true, alt: true, shift: false },
    }
}

/// The shipped combos: Ctrl+Alt+X, Ctrl+Alt+C and Ctrl+Alt+Z.
pub fn default_keys() -> (r: KeyBindings)
    ensures
        r == shipped_keys(),
{
    KeyBindings {
        interact: Binding { vk: VK_X, ctrl: true, alt: true, shift: false },
        settings: Binding { vk: VK_C, ctrl: true, alt: true, shift: false },
        visibility: Binding { vk: VK_Z, ctrl: true, alt: true, shift: false },
    }
}

impl Default for KeyBindings {
    fn default() -> (r: Self)
        ensures
            r == shipped_keys(),
    {
        default_keys()
    }
}

/// Shift, Ctrl and Alt, and the left and right key of each.
pub open spec fn modifier_vk(vk: u32) -> bool {
    0x10 <= vk <= 0x12 || 0xA0 <= vk <= 0xA5
}

/// The punctuation keys, whose codes stand for other characters on other layouts.
pub open spec fn oem_vk(vk: u32) -> bool {
    0xBA <= vk <= 0xC0 || 0xDB <= vk <= 0xDF || vk == 0xE2
}

/// Why a binding cannot be used. A modifier as the main key would fire whenever the user reaches for
/// a chord, the label of a punctuation key would be a guess at the layout, and a combo without Ctrl
/// or Alt would fire while typing.
pub open spec fn binding_fault(b: Binding) -> Option<Seq<char>> {
    if b.vk == 0 || b.vk > 0xFF {
        Some("no key"@)
    } else if modifier_vk(b.vk) {
        Some("a modifier key cannot be the main key"@)
    } else if oem_vk(b.vk) {
        Some("a punctuation key depends on the layout"@)
    } else if !b.ctrl && !b.alt {
        Some("needs Ctrl or Alt"@)
    } else {
        None
    }
}

/// Why a set of bindings cannot be used: the first binding at fault, else two that are the same.
pub open spec fn bindings_fault(k: KeyBindings) -> Option<Seq<char>> {
    if binding_fault(k.interact) is Some {
        binding_fault(k.interact)
    } else if binding_fault(k.settings) is Some {
        binding_fault(k.settings)
    } else if binding_fault(k.visibility) is Some {
        binding_fault(k.visibility)
    } else if k.interact == k.settings || k.interact == k.visibility || k.settings
        == k.visibility {
        Some("two actions share one combo"@)
    } else {
        None
    }
}

/// A set of bindings that can be used.
pub open spec fn valid_keys(k: KeyBindings) -> bool {
    bindings_fault(k) is None
}

/// Whether a virtual key is a modifier.
pub fn is_modifier_vk(vk: u32) -> (r: bool)
    ensures
        r == modifier_vk(vk),
{
    (0x10 <= vk && vk <= 0x12) || (0xA0 <= vk && vk <= 0xA5)
}

/// Whether a virtual key is a punctuation key, whose meaning depends on the layout.
pub fn is_oem_vk(vk: u32) -> (r: bool)
    ensures
        r == oem_vk(vk),
{
    (0xBA <= vk && vk <= 0xC0) || (0xDB <= vk && vk <= 0xDF) || vk == 0xE2
}

/// Why a binding cannot be used, in words for its user.
pub fn check_binding(b: &Binding) -> (r: Result<(), &'static str>)
    ensures
        match binding_fault(*b) {
            Some(why) => r matches Err(e) && e@ == why,
            None => r is Ok,
        },
{
    if b.vk == 0 || b.vk > 0xFF {
        return Err("no key");
    }
    if is_modifier_vk(b.vk) {
        return Err("a modifier key cannot be the main key");
    }
    if is_oem_vk(b.vk) {
        return Err("a punctuation key depends on the layout");
    }
    if !(b.ctrl || b.alt) {
        return Err("needs Ctrl or Alt");
    }
    Ok(())
}

/// Why a set of bindings cannot be used. Two actions on one combo would leave one unreachable.
pub fn check_bindings(k: &KeyBindings) -> (r: Result<(), &'static str>)
    ensures
        match bindings_fault(*k) {
            Some(why) => r matches Err(e) && e@ == why,
            None => r is Ok,
        },
{
    let all: [Binding; 3] = [k.interact, k.settings, k.visibility];
    let mut i: usize = 0;
    while i < 3
        invariant
            i <= 3,
            all@ == seq![k.interact, k.settings, k.visibility],
            forall|j: int| 0 <= j < i ==> binding_fault(#[trigger] all@[j]) is None,
        decreases 3 - i,
    {
        if let Err(why) = check_binding(&all[i]) {
            assert(i == 0 || binding_fault(all@[0]) is None);
            assert(i <= 1 || binding_fault(all@[1]) is None);
            return Err(why);
        }
        i += 1;
    }
    assert(binding_fault(all@[0]) is None && binding_fault(all@[1]) is None && binding_fault(
        all@[2],
    ) is None);
    if k.interact == k.settings || k.interact == k.visibility || k.settings == k.visibility {
        return Err("two actions share one combo");
    }
    Ok(())
}

/// The set to install for a set that was asked for.
pub open spec fn installed_keys(k: KeyBindings) -> KeyBindings {
    if valid_keys(k) {
        k
    } else {
        shipped_keys()
    }
}

impl KeyBindings {
    /// The set to install: a set that cannot be used is replaced as a whole by the shipped one, since
    /// repairing one binding can make it collide with another.
    pub fn sanitized(self) -> (r: Self)
        ensures
            r == if valid_keys(self) {
                self
            } else {
                shipped_keys()
            },
            valid_keys(r),
            r == installed_keys(self),
    {
        if check_bindings(&self).is_ok() {
            self
        } else {
            default_keys()
        }
    }
}

/// One for true.
pub open spec fn bit(b: bool) -> int {
    if b {
        1
    } else {
        0
    }
}

/// A binding as a number below 2048: its key in the low byte, then a bit for each modifier.
pub open spec fn binding_code(b: Binding) -> int {
    b.vk % 256 + 256 * bit(b.ctrl) + 512 * bit(b.alt) + 1024 * bit(b.shift)
}

/// The binding that a number stands for, by its low eleven bits.
pub open spec fn coded_binding(v: int) -> Binding {
    Binding {
        vk: (v % 256) as u32,
        ctrl: v / 256 % 2 == 1,
        alt: v / 512 % 2 == 1,
        shift: v / 1024 % 2 == 1,
    }
}

/// A set of bindings as a number: eleven bits for each.
pub open spec fn keys_code(k: KeyBindings) -> int {
    binding_code(k.interact) + 2048 * binding_code(k.settings) + 4194304 * binding_code(
        k.visibility,
    )
}

/// The set of bindings that a number stands for.
pub open spec fn coded_keys(v: int) -> KeyBindings {
    KeyBindings {
        interact: coded_binding(v % 2048),
        settings: coded_binding(v / 2048 % 2048),
        visibility: coded_binding(v / 4194304 % 2048),
    }
}

/// Packs a binding into eleven bits, so that a whole set fits one word, which the keyboard hook can
/// read without a lock.
pub fn pack_binding(b: Binding) -> (r: u64)
    ensures
        r == binding_code(b),
        r < 2048,
{
    let vk: u64 = b.vk as u64;
    let ctrl: u64 = if b.ctrl { 1 } else { 0 };
    let alt: u64 = if b.alt { 1 } else { 0 };
    let shift: u64 = if b.shift { 1 } else { 0 };
    assert((vk & 0xFF) | (ctrl << 8) | (alt << 9) | (shift << 10) == vk % 256 + 256 * ctrl + 512
        * alt + 1024 * shift) by (bit_vector)
        requires
            ctrl <= 1,
            alt <= 1,
            shift <= 1,
    ;
    (vk & 0xFF) | (ctrl << 8) | (alt << 9) | (shift << 10)
}

/// Unpacks the low eleven bits.
pub fn unpack_binding(v: u64) -> (r: Binding)
    ensures
        r == coded_binding(v as int),
{
    assert(v & 0xFF == v % 256 && v & 0xFF < 256) by (bit_vector);
    assert((v & (1u64 << 8) != 0) == (v / 256 % 2 == 1)) by (bit_vector);
    assert((v & (1u64 << 9) != 0) == (v / 512 % 2 == 1)) by (bit_vector);
    assert((v & (1u64 << 10) != 0) == (v / 1024 % 2 == 1)) by (bit_vector);
    Binding {
        vk: (v & 0xFF) as u32,
        ctrl: v & (1u64 << 8) != 0,
        alt: v & (1u64 << 9) != 0,
        shift: v & (1u64 << 10) != 0,
    }
}

/// Packs a set of bindings into one word.
pub fn pack_keys(k: &KeyBindings) -> (r: u64)
    ensures
        r == keys_code(*k),
{
    let (a, b, c): (u64, u64, u64) = (
        pack_binding(k.interact),
        pack_binding(k.settings),
        pack_binding(k.visibility),
    );
    assert(a | (b << 11) | (c << 22) == a + 2048 * b + 4194304 * c) by (bit_vector)
        requires
            a < 2048,
            b < 2048,
            c < 2048,
    ;
    a | (b << 11) | (c << 22)
}

/// Unpacks a set of bindings.
pub fn unpack_keys(v: u64) -> (r: KeyBindings)
    ensures
        r == coded_keys(v as int),
{
    assert(v & 0x7FF == v % 2048) by (bit_vector);
    assert((v >> 11) & 0x7FF == v / 2048 % 2048) by (bit_vector);
    assert((v >> 22) & 0x7FF == v / 4194304 % 2048) by (bit_vector);
    KeyBindings {
        interact: unpack_binding(v & 0x7FF),
        settings: unpack_binding((v >> 11) & 0x7FF),
        visibility: unpack_binding((v >> 22) & 0x7FF),
    }
}

/// A keystroke satisfies a binding: the right Alt is up, and key and modifiers are exactly those of
/// the binding.
pub open spec fn fires(b: Binding, vk: u32, m: Mods) -> bool {
    &&& !m.right_alt
    &&& b.vk != 0
    &&& b.vk == vk
    &&& b.ctrl == m.ctrl
    &&& b.alt == m.left_alt
    &&& b.shift == m.shift
}

/// Whether a keystroke satisfies a binding.
///
/// The right Alt vetoes everything: a layout with AltGr reports it as Ctrl+Alt, so a combo of both
/// would otherwise fire while the user types an accented letter.
pub fn binding_matches(b: &Binding, vk: u32, m: Mods) -> (r: bool)
    ensures
        r == fires(*b, vk, m),
{
    if m.right_alt {
        return false;
    }
    b.vk != 0 && b.vk == vk && b.ctrl == m.ctrl && b.alt == m.left_alt && b.shift == m.shift
}

/// No action.
pub const REQ_NONE: u8 = 0;

/// Interact mode on and off.
pub const REQ_INTERACT: u8 = 1;

/// Settings mode on and off.
pub const REQ_SETTINGS: u8 = 2;

/// Show and hide the whole overlay.
pub const REQ_VISIBILITY: u8 = 3;

/// The action of a keystroke: the first binding that it satisfies.
pub open spec fn action_of(keys: KeyBindings, vk: u32, m: Mods) -> u8 {
    if fires(keys.interact, vk, m) {
        REQ_INTERACT
    } else if fires(keys.settings, vk, m) {
        REQ_SETTINGS
    } else if fires(keys.visibility, vk, m) {
        REQ_VISIBILITY
    } else {
        REQ_NONE
    }
}

/// Which action a keystroke fires.
pub fn classify_hotkey(keys: &KeyBindings, vk: u32, m: Mods) -> (r: u8)
    ensures
        r == action_of(*keys, vk, m),
{
    if binding_matches(&keys.interact, vk, m) {
        REQ_INTERACT
    } else if binding_matches(&keys.settings, vk, m) {
        REQ_SETTINGS
    } else if binding_matches(&keys.visibility, vk, m) {
        REQ_VISIBILITY
    } else {
        REQ_NONE
    }
}

/// Windows' code for a hook call that carries a keystroke.
pub const HC_ACTION: i32 = 0;

/// Windows' message for a key going down.
pub const WM_KEYDOWN: u32 = 0x0100;

/// Windows' message for a key going down while Alt is held without Ctrl.
pub const WM_SYSKEYDOWN: u32 = 0x0104;

/// A call of the keyboard hook is a key press to look at.
pub open spec fn listens(code: i32, message: u32, suspended: bool) -> bool {
    code == HC_ACTION && (message == WM_KEYDOWN || message == WM_SYSKEYDOWN) && !suspended
}

/// Whether a call of the keyboard hook is a key press to look at. None is while the settings surface
/// captures a new combo: describing a combo must not fire it.
pub fn hook_listens(code: i32, message: u32, suspended: bool) -> (r: bool)
    ensures
        r == (code == HC_ACTION && (message == WM_KEYDOWN || message == WM_SYSKEYDOWN)
            && !suspended),
        r == listens(code, message, suspended),
{
    code == HC_ACTION && (message == WM_KEYDOWN || message == WM_SYSKEYDOWN) && !suspended
}

/// What the keyboard hook queues for a key press, with the bindings as one packed word.
pub open spec fn requested(packed: u64, vk: u32, m: Mods) -> Option<u8> {
    let action = action_of(coded_keys(packed as int), vk, m);
    if action == REQ_NONE {
        None
    } else {
        Some(action)
    }
}

/// What the keyboard hook queues for a key press, with the bindings as one packed word.
pub fn hook_request(packed: u64, vk: u32, m: Mods) -> (r: Option<u8>)
    ensures
        ({
            let action = action_of(coded_keys(packed as int), vk, m);
            r == if action == REQ_NONE {
                None
            } else {
                Some(action)
            }
        }),
        r == requested(packed, vk, m),
{
    let keys = unpack_keys(packed);
    let req: u8 = classify_hotkey(&keys, vk, m);
    if req != REQ_NONE {
        Some(req)
    } else {
        None
    }
}

/// Packing loses nothing of a binding whose key fits a byte.
pub proof fn law_binding_round_trip(b: Binding)
    requires
        b.vk <= 0xFF,
    ensures
        coded_binding(binding_code(b)) == b,
        0 <= binding_code(b) < 2048,
{
}

/// A set of usable bindings survives the packed word that the keyboard hook reads.
#[verifier::spinoff_prover]
#[verifier::rlimit(60)]
pub proof fn law_keys_round_trip(k: KeyBindings)
    requires
        k.interact.vk <= 0xFF,
        k.settings.vk <= 0xFF,
        k.visibility.vk <= 0xFF,
    ensures
        coded_keys(keys_code(k)) == k,
{
    let (a, b, c) = (
        binding_code(k.interact),
        binding_code(k.settings),
        binding_code(k.visibility),
    );
    law_binding_round_trip(k.interact);
    law_binding_round_trip(k.settings);
    law_binding_round_trip(k.visibility);
    let v = keys_code(k);
    assert(v % 2048 == a);
    assert(v / 2048 % 2048 == b);
    assert(v / 4194304 % 2048 == c);
}

/// Usable bindings that were published as a packed word fire as they stand: no keystroke fires
/// another action, or none, on the way through the hook.
pub proof fn law_hook_fires_installed_keys(k: KeyBindings, vk: u32, m: Mods)
    requires
        valid_keys(k),
    ensures
        action_of(coded_keys(keys_code(k)), vk, m) == action_of(k, vk, m),
{
    law_keys_round_trip(k);
}

/// A keystroke under AltGr fires nothing, whatever the bindings.
pub proof fn law_altgr_never_fires(k: KeyBindings, vk: u32, m: Mods)
    requires
        m.right_alt,
    ensures
        action_of(k, vk, m) == REQ_NONE,
{
}

/// Typing fires nothing: without Ctrl or the left Alt, or on a modifier key, no usable set of
/// bindings has an action.
pub proof fn law_typing_never_fires(k: KeyBindings, vk: u32, m: Mods)
    requires
        valid_keys(k),
        (!m.ctrl && !m.left_alt) || modifier_vk(vk),
    ensures
        action_of(k, vk, m) == REQ_NONE,
{
}

/// In a usable set of bindings every action can be reached, by its own combo and by no other.
pub proof fn law_each_action_reachable(k: KeyBindings, vk: u32, m: Mods)
    requires
        valid_keys(k),
    ensures
        (action_of(k, vk, m) == REQ_INTERACT) == fires(k.interact, vk, m),
        (action_of(k, vk, m) == REQ_SETTINGS) == fires(k.settings, vk, m),
        (action_of(k, vk, m) == REQ_VISIBILITY) == fires(k.visibility, vk, m),
        forall|b: Binding|
            b == k.interact || b == k.settings || b == k.visibility ==> #[trigger] fires(
                b,
                b.vk,
                Mods { ctrl: b.ctrl, left_alt: b.alt, right_alt: false, shift: b.shift },
            ),
{
}

/// A binding answers to one keystroke: its own key with exactly its own modifiers, the left Alt for
/// Alt, and no other. A binding without a key answers to none.
pub proof fn law_one_keystroke(b: Binding, vk: u32, m: Mods)
    ensures
        b.vk == 0 ==> !fires(b, vk, m),
        b.vk != 0 ==> (fires(b, vk, m) <==> (vk == b.vk && m == (Mods {
            ctrl: b.ctrl,
            left_alt: b.alt,
            right_alt: false,
            shift: b.shift,
        }))),
{
}

/// Each fault of a binding is named exactly where it is the first that applies: no key, a modifier
/// as the key, a key that depends on the layout, no Ctrl and no Alt.
pub proof fn law_faults_of_a_binding(b: Binding)
    ensures
        ({
            let why = binding_fault(b);
            let key = 1 <= b.vk <= 255;
            let modifier = 16 <= b.vk <= 18 || 160 <= b.vk <= 165;
            let layout = 186 <= b.vk <= 192 || 219 <= b.vk <= 223 || b.vk == 226;
            &&& !key ==> why == Some("no key"@)
            &&& key && modifier ==> why == Some("a modifier key cannot be the main key"@)
            &&& key && layout ==> why == Some("a punctuation key depends on the layout"@)
            &&& key && !modifier && !layout && !b.ctrl && !b.alt ==> why == Some(
                "needs Ctrl or Alt"@,
            )
            &&& why is None <==> key && !modifier && !layout && (b.ctrl || b.alt)
        }),
{
}

/// A set is usable exactly when each of its bindings is and no two are the same, and the words for
/// one that is not are those of its first fault.
pub proof fn law_faults_of_a_set(k: KeyBindings)
    ensures
        ({
            let sound = binding_fault(k.interact) is None && binding_fault(k.settings) is None
                && binding_fault(k.visibility) is None;
            let apart = k.interact != k.settings && k.settings != k.visibility && k.visibility
                != k.interact;
            &&& valid_keys(k) <==> sound && apart
            &&& bindings_fault(k) is None <==> sound && apart
            &&& sound && !apart ==> bindings_fault(k) == Some("two actions share one combo"@)
            &&& binding_fault(k.interact) is Some ==> bindings_fault(k) == binding_fault(k.interact)
            &&& binding_fault(k.interact) is None && binding_fault(k.settings) is Some
                ==> bindings_fault(k) == binding_fault(k.settings)
            &&& binding_fault(k.interact) is None && binding_fault(k.settings) is None
                && binding_fault(k.visibility) is Some ==> bindings_fault(k) == binding_fault(
                k.visibility,
            )
        }),
{
}

/// A keystroke fires an action only through that action's own binding, the earlier one where two
/// would, and fires none only where no binding answers to it.
pub proof fn law_keystroke_finds_its_action(k: KeyBindings, vk: u32, m: Mods)
    ensures
        fires(k.interact, vk, m) ==> action_of(k, vk, m) == REQ_INTERACT,
        fires(k.settings, vk, m) && !fires(k.interact, vk, m) ==> action_of(k, vk, m)
            == REQ_SETTINGS,
        fires(k.visibility, vk, m) && !fires(k.interact, vk, m) && !fires(k.settings, vk, m)
            ==> action_of(k, vk, m) == REQ_VISIBILITY,
        (action_of(k, vk, m) == REQ_NONE) == (!fires(k.interact, vk, m) && !fires(
            k.settings,
            vk,
            m,
        ) && !fires(k.visibility, vk, m)),
{
}

/// What the hook queues is what the installed bindings say: the request of the combo that was
/// pressed, and nothing for any other keystroke.
pub proof fn law_hook_queues_the_pressed_combo(k: KeyBindings, packed: u64, vk: u32, m: Mods)
    requires
        valid_keys(k),
        packed == keys_code(k),
    ensures
        (requested(packed, vk, m) == Some(REQ_INTERACT)) == fires(k.interact, vk, m),
        (requested(packed, vk, m) == Some(REQ_SETTINGS)) == fires(k.settings, vk, m),
        (requested(packed, vk, m) == Some(REQ_VISIBILITY)) == fires(k.visibility, vk, m),
        requested(packed, vk, m) is None == (!fires(k.interact, vk, m) && !fires(
            k.settings,
            vk,
            m,
        ) && !fires(k.visibility, vk, m)),
{
    law_hook_fires_installed_keys(k, vk, m);
}

/// The hook looks only at keys that go down, and at none while a capture suspends it.
pub proof fn law_hook_looks_at_presses(code: i32, message: u32, suspended: bool)
    ensures
        suspended ==> !listens(code, message, suspended),
        code != 0 ==> !listens(code, message, suspended),
        !suspended && code == 0 ==> (listens(code, message, suspended) <==> message == 256
            || message == 260),
{
}

/// What is installed can always be used: a usable set as it is, and no part of any other. Installing
/// it again changes nothing.
pub proof fn law_installed_keys(k: KeyBindings, other: KeyBindings)
    ensures
        valid_keys(k) ==> installed_keys(k) == k,
        valid_keys(installed_keys(k)),
        !valid_keys(k) && !valid_keys(other) ==> installed_keys(k) == installed_keys(other),
        installed_keys(installed_keys(k)) == installed_keys(k),
{
}

} // verus!

//! The keyboard filter: global key chords that the compositor keeps for
//! itself. The chord set is configuration, handed in by the caller.
use vstd::prelude::*;

verus! {

/// What an intercepted chord asks for.
#[derive(Clone, Copy, Debug, PartialEq, Eq, Structural)]
pub enum KeyAction {
    Quit,
    CloseWindow,
    Terminal,
    ToggleFullscreen,
    /// Switch to the virtual terminal of that number.
    SwitchVt(i32),
}

/// One chord: the modified keysym that triggers `action`.
#[derive(Clone, Copy, Debug, PartialEq, Eq, Structural)]
pub struct KeyBinding {
    pub keysym: u32,
    pub action: KeyAction,
}

pub const KEY_Q: u32 = 0x51;
pub const KEY_C: u32 = 0x43;
pub const KEY_F: u32 = 0x46;
pub const KEY_T: u32 = 0x54;
/// `XF86Switch_VT_1`; the keysyms for terminals 2 to 12 follow it.
pub const KEY_SWITCH_VT_1: u32 = 0x1008_FE01;
pub const VT_COUNT: u32 = 12;

/// The action of the first binding of `bs` for `keysym`.
pub open spec fn binding_for(bs: Seq<KeyBinding>, keysym: u32) -> Option<KeyAction>
    decreases bs.len(),
{
    if bs.len() == 0 {
        None
    } else if bs[0].keysym == keysym {
        Some(bs[0].action)
    } else {
        binding_for(bs.drop_first(), keysym)
    }
}

/// The filter's verdict on one key event: only a press can be intercepted,
/// and then only by a bound keysym; everything else is forwarded (`None`).
pub open spec fn filter_spec(bs: Seq<KeyBinding>, keysym: u32, pressed: bool) -> Option<KeyAction> {
    if pressed {
        binding_for(bs, keysym)
    } else {
        None
    }
}

/// Decides whether a key event is intercepted: `Some(action)` for a press of
/// a bound keysym (matched on the keysym after modifiers), `None` to forward
/// the event to the focused client. Releases are always forwarded.
pub fn filter_key(bindings: &Vec<KeyBinding>, keysym: u32, pressed: bool) -> (r: Option<KeyAction>)
    ensures
        r == filter_spec(bindings@, keysym, pressed),
{
    if !pressed {
        return None;
    }
    let ghost bs = bindings@;
    let mut i: usize = 0;
    assert(bs.subrange(0, bs.len() as int) =~= bs);
    while i < bindings.len()
        invariant
            pressed,
            bs == bindings@,
            i <= bs.len(),
            binding_for(bs, keysym) == binding_for(bs.subrange(i as int, bs.len() as int), keysym),
        decreases bs.len() - i,
    {
        let b = bindings[i];
        let ghost rest = bs.subrange(i as int, bs.len() as int);
        assert(rest[0] == b);
        assert(rest.drop_first() =~= bs.subrange(i + 1, bs.len() as int));
        if b.keysym == keysym {
            assert(binding_for(rest, keysym) == Some(b.action));
            return Some(b.action);
        }
        i = i + 1;
    }
    None
}

/// Chords of a nested session: quit, close, toggle fullscreen, terminal.
pub fn windowed_bindings() -> (r: Vec<KeyBinding>)
    ensures
        r@ == seq![
            KeyBinding { keysym: KEY_Q, action: KeyAction::Quit },
            KeyBinding { keysym: KEY_C, action: KeyAction::CloseWindow },
            KeyBinding { keysym: KEY_F, action: KeyAction::ToggleFullscreen },
            KeyBinding { keysym: KEY_T, action: KeyAction::Terminal },
        ],
{
    let r = vec![
        KeyBinding { keysym: KEY_Q, action: KeyAction::Quit },
        KeyBinding { keysym: KEY_C, action: KeyAction::CloseWindow },
        KeyBinding { keysym: KEY_F, action: KeyAction::ToggleFullscreen },
        KeyBinding { keysym: KEY_T, action: KeyAction::Terminal },
    ];
    assert(r@ =~= seq![
        KeyBinding { keysym: KEY_Q, action: KeyAction::Quit },
        KeyBinding { keysym: KEY_C, action: KeyAction::CloseWindow },
        KeyBinding { keysym: KEY_F, action: KeyAction::ToggleFullscreen },
        KeyBinding { keysym: KEY_T, action: KeyAction::Terminal },
    ]);
    r
}

/// Chords on a session of its own: quit, terminal, and one chord per
/// virtual terminal to switch to it.
pub fn tty_bindings() -> (r: Vec<KeyBinding>)
    ensures
        r@.len() == 2 + VT_COUNT,
        r@[0] == (KeyBinding { keysym: KEY_Q, action: KeyAction::Quit }),
        r@[1] == (KeyBinding { keysym: KEY_T, action: KeyAction::Terminal }),
        forall|k: int|
            0 <= k < VT_COUNT ==> #[trigger] r@[2 + k] == (KeyBinding {
                keysym: (KEY_SWITCH_VT_1 + k) as u32,
                action: KeyAction::SwitchVt((k + 1) as i32),
            }),
{
    let mut r: Vec<KeyBinding> = Vec::new();
    r.push(KeyBinding { keysym: KEY_Q, action: KeyAction::Quit });
    r.push(KeyBinding { keysym: KEY_T, action: KeyAction::Terminal });
    let mut k: u32 = 0;
    while k < VT_COUNT
        invariant
            k <= VT_COUNT,
            r@.len() == 2 + k,
            r@[0] == (KeyBinding { keysym: KEY_Q, action: KeyAction::Quit }),
            r@[1] == (KeyBinding { keysym: KEY_T, action: KeyAction::Terminal }),
            forall|j: int|
                0 <= j < k ==> #[trigger] r@[2 + j] == (KeyBinding {
                    keysym: (KEY_SWITCH_VT_1 + j) as u32,
                    action: KeyAction::SwitchVt((j + 1) as i32),
                }),
        decreases VT_COUNT - k,
    {
        r.push(KeyBinding { keysym: KEY_SWITCH_VT_1 + k, action: KeyAction::SwitchVt((k + 1) as i32) });
        k = k + 1;
    }
    r
}

} // verus!

use hud::hotkey_queue::{
    next_suspend, ring_full, ring_slot, HookStep, HookThread, HotkeyQueue, SuspendWatch,
    HOTKEY_QUEUE_LEN, SUSPEND_MAX_TICKS,
};
use hud::hotkeys::{
    binding_matches, check_binding, check_bindings, classify_hotkey, default_keys, hook_listens,
    hook_request, is_oem_vk, pack_binding, pack_keys, unpack_binding, unpack_keys, Binding, KeyBindings, Mods,
    REQ_INTERACT, REQ_NONE, REQ_SETTINGS, REQ_VISIBILITY, VK_C, VK_X, VK_Z,
};

fn mods(lctrl: bool, rctrl: bool, lmenu: bool, rmenu: bool, shift: bool) -> Mods {
    Mods {
        ctrl: lctrl || rctrl,
        left_alt: lmenu,
        right_alt: rmenu,
        shift,
    }
}

#[test]
fn altgr_cannot_fire_a_ctrl_alt_binding() {
    let k = default_keys();
    assert_eq!(
        classify_hotkey(&k, VK_X, mods(true, false, true, false, false)),
        REQ_INTERACT,
        "the documented left-hand cluster must work"
    );
    assert_eq!(
        classify_hotkey(&k, VK_X, mods(true, false, false, true, false)),
        REQ_NONE,
        "AltGr+X must not fire a Ctrl+Alt binding"
    );
    assert_eq!(
        classify_hotkey(&k, VK_X, mods(false, true, false, true, false)),
        REQ_NONE
    );
    assert_eq!(
        classify_hotkey(&k, VK_X, mods(true, false, false, true, false)),
        REQ_NONE
    );
    for (vk, name) in [(VK_X, "interact"), (VK_C, "settings"), (VK_Z, "visibility")] {
        assert_eq!(
            classify_hotkey(&k, vk, mods(true, true, true, true, false)),
            REQ_NONE,
            "RMENU down must veto the {name} binding too"
        );
    }
}

#[test]
fn the_three_default_hotkeys_cannot_collide() {
    let k = default_keys();
    let good = mods(true, false, true, false, false);
    for (vk, want, name) in [
        (VK_X, REQ_INTERACT, "interact"),
        (VK_C, REQ_SETTINGS, "settings"),
        (VK_Z, REQ_VISIBILITY, "visibility"),
    ] {
        assert_eq!(classify_hotkey(&k, vk, good), want, "{name}");
    }
    assert_eq!(classify_hotkey(&k, 0x41 /* A */, good), REQ_NONE);
    assert_eq!(
        classify_hotkey(&k, VK_X, mods(false, false, false, false, false)),
        REQ_NONE
    );
    assert_eq!(
        classify_hotkey(&k, VK_X, mods(true, false, false, false, false)),
        REQ_NONE,
        "Ctrl+X alone must not fire a Ctrl+Alt+X binding"
    );
    assert_eq!(
        classify_hotkey(&k, VK_X, mods(false, false, true, false, false)),
        REQ_NONE
    );
    assert_eq!(
        classify_hotkey(&k, VK_X, mods(true, false, true, false, true)),
        REQ_NONE,
        "an extra Shift must not satisfy a Shift-less binding"
    );
    let hole = KeyBindings {
        interact: Binding::default(),
        ..default_keys()
    };
    assert_eq!(classify_hotkey(&hole, 0, good), REQ_NONE);
    let codes = [REQ_NONE, REQ_INTERACT, REQ_SETTINGS, REQ_VISIBILITY];
    for (i, a) in codes.iter().enumerate() {
        assert!(
            !codes[i + 1..].contains(a),
            "the four request codes must be distinct"
        );
    }
}

#[test]
fn bindings_round_trip_through_the_packed_word_the_hook_reads() {
    for k in [
        default_keys(),
        KeyBindings {
            interact: Binding {
                vk: 0xFF,
                ctrl: true,
                alt: true,
                shift: true,
            },
            settings: Binding {
                vk: 0x70,
                ctrl: false,
                alt: true,
                shift: false,
            },
            visibility: Binding {
                vk: 0x01,
                ctrl: true,
                alt: false,
                shift: true,
            },
        },
    ] {
        assert_eq!(
            unpack_keys(pack_keys(&k)),
            k,
            "every field must survive the trip through the hook's atomic word"
        );
    }
    let a = pack_keys(&KeyBindings {
        interact: Binding {
            vk: 0xFF,
            ctrl: true,
            alt: true,
            shift: true,
        },
        settings: Binding::default(),
        visibility: Binding::default(),
    });
    assert_eq!(unpack_keys(a).settings, Binding::default());
    assert_eq!(unpack_keys(a).visibility, Binding::default());
    assert_eq!(unpack_keys(pack_keys(&default_keys())), default_keys());
}

#[test]
fn the_default_bindings_are_the_agreed_ctrl_alt_cluster_and_are_valid() {
    assert_eq!(check_bindings(&default_keys()), Ok(()));
    assert_eq!(KeyBindings::default(), default_keys());
    assert_eq!(
        hud::config::HudConfig::defaults(None).keys,
        default_keys()
    );
    for (b, vk, name) in [
        (default_keys().interact, VK_X, "interact"),
        (default_keys().settings, VK_C, "settings"),
        (default_keys().visibility, VK_Z, "visibility"),
    ] {
        assert_eq!(
            b,
            Binding {
                vk,
                ctrl: true,
                alt: true,
                shift: false
            },
            "{name} must default to Ctrl+Alt+{}",
            (vk as u8) as char
        );
    }
}

#[test]
fn the_default_key_bindings_agree_across_rust_and_the_frontend() {
    let combo = |vk: u32| Binding {
        vk,
        ctrl: true,
        alt: true,
        shift: false,
    };
    let k = default_keys();
    assert_eq!(k.interact, combo(0x58));
    assert_eq!(k.settings, combo(0x43));
    assert_eq!(k.visibility, combo(0x5A));
    // Each combo, pressed, fires the action it is listed under, and no other.
    let held = Mods {
        ctrl: true,
        left_alt: true,
        ..Default::default()
    };
    for (vk, req) in [
        (0x58, REQ_INTERACT),
        (0x43, REQ_SETTINGS),
        (0x5A, REQ_VISIBILITY),
    ] {
        assert_eq!(hook_request(pack_keys(&k), vk, held), Some(req));
    }
    assert_eq!(hook_request(pack_keys(&k), 0x59, held), None);
}

#[test]
fn a_punctuation_key_cannot_be_bound() {
    let ok = default_keys().interact;
    for vk in (0xBA..=0xC0).chain(0xDB..=0xDF).chain([0xE2]) {
        assert!(is_oem_vk(vk));
        assert_eq!(
            check_binding(&Binding { vk, ..ok }),
            Err("a punctuation key depends on the layout"),
            "0x{vk:02X}"
        );
        let keys = KeyBindings {
            visibility: Binding { vk, ..ok },
            ..default_keys()
        };
        assert_eq!(keys.sanitized(), default_keys());
    }
    for vk in [0xB9, 0xC1, 0xDA, 0xE0, 0xE1, 0xE3, 0x30, 0x70] {
        assert!(!is_oem_vk(vk));
        assert_eq!(check_binding(&Binding { vk, ..ok }), Ok(()), "0x{vk:02X}");
    }
}

#[test]
fn a_binding_that_would_fire_while_typing_is_rejected() {
    let ok = Binding {
        vk: VK_X,
        ctrl: true,
        alt: true,
        shift: false,
    };
    assert_eq!(check_binding(&ok), Ok(()));
    assert!(check_binding(&Binding { vk: 0, ..ok }).is_err());
    assert!(check_binding(&Binding { vk: 0x100, ..ok }).is_err());
    for vk in [0x10, 0x11, 0x12, 0xA0, 0xA1, 0xA2, 0xA3, 0xA4, 0xA5] {
        assert!(
            check_binding(&Binding { vk, ..ok }).is_err(),
            "vk 0x{vk:02X} is a modifier and cannot be a binding's main key"
        );
    }
    assert!(check_binding(&Binding {
        ctrl: false,
        alt: false,
        ..ok
    })
    .is_err());
    assert!(
        check_binding(&Binding {
            ctrl: false,
            alt: false,
            shift: true,
            ..ok
        })
        .is_err(),
        "Shift alone is not a modifier for this purpose"
    );
    assert_eq!(check_binding(&Binding { alt: false, ..ok }), Ok(()));
    assert_eq!(check_binding(&Binding { ctrl: false, ..ok }), Ok(()));
    let collide = KeyBindings {
        settings: default_keys().interact,
        ..default_keys()
    };
    assert!(check_bindings(&collide).is_err());
    assert_eq!(
        collide.sanitized(),
        default_keys(),
        "an unusable set must fall back to the defaults wholesale"
    );
    assert_eq!(default_keys().sanitized(), default_keys(), "a good set is kept");
    let bare = KeyBindings {
        visibility: Binding {
            vk: VK_Z,
            ctrl: false,
            alt: false,
            shift: false,
        },
        ..default_keys()
    };
    assert_eq!(bare.sanitized(), default_keys());
}

#[test]
fn each_fault_of_a_binding_has_its_own_words() {
    let ok = default_keys().interact;
    assert_eq!(check_binding(&Binding { vk: 0, ..ok }), Err("no key"));
    assert_eq!(
        check_binding(&Binding { vk: 0x11, ..ok }),
        Err("a modifier key cannot be the main key")
    );
    assert_eq!(
        check_binding(&Binding {
            ctrl: false,
            alt: false,
            ..ok
        }),
        Err("needs Ctrl or Alt")
    );
    for (interact, settings, visibility) in [
        (ok, ok, default_keys().visibility),
        (ok, default_keys().settings, ok),
    ] {
        assert_eq!(
            check_bindings(&KeyBindings {
                interact,
                settings,
                visibility
            }),
            Err("two actions share one combo")
        );
    }
    // The first binding at fault speaks.
    assert_eq!(
        check_bindings(&KeyBindings {
            interact: ok,
            settings: Binding { vk: 0x10, ..ok },
            visibility: Binding::default(),
        }),
        Err("a modifier key cannot be the main key")
    );
}

#[test]
fn the_packed_word_has_eleven_bits_for_each_binding() {
    let b = Binding {
        vk: 0x58,
        ctrl: true,
        alt: false,
        shift: true,
    };
    assert_eq!(pack_binding(b), 0x58 + 256 + 1024);
    assert_eq!(unpack_binding(0x58 + 256 + 1024), b);
    assert_eq!(
        pack_keys(&default_keys()),
        0x358 + (0x343 << 11) + (0x35A << 22)
    );
    // A key past a byte keeps its low byte.
    assert_eq!(pack_binding(Binding { vk: 0x158, ..b }), pack_binding(b));
}

#[test]
fn each_action_answers_to_its_own_combo_alone() {
    let k = KeyBindings {
        interact: Binding {
            vk: 0x70,
            ctrl: true,
            alt: false,
            shift: false,
        },
        settings: Binding {
            vk: 0x70,
            ctrl: true,
            alt: false,
            shift: true,
        },
        visibility: Binding {
            vk: 0x70,
            ctrl: false,
            alt: true,
            shift: false,
        },
    };
    assert_eq!(check_bindings(&k), Ok(()));
    for (b, want) in [
        (k.interact, REQ_INTERACT),
        (k.settings, REQ_SETTINGS),
        (k.visibility, REQ_VISIBILITY),
    ] {
        let m = Mods {
            ctrl: b.ctrl,
            left_alt: b.alt,
            right_alt: false,
            shift: b.shift,
        };
        assert!(binding_matches(&b, b.vk, m));
        assert_eq!(classify_hotkey(&k, b.vk, m), want);
        assert_eq!(hook_request(pack_keys(&k), b.vk, m), Some(want));
    }
    assert_eq!(
        hook_request(pack_keys(&k), 0x70, mods(false, false, false, false, true)),
        None
    );
}

#[test]
fn the_hook_looks_at_key_presses_unless_a_capture_is_armed() {
    assert!(hook_listens(0, 0x0100, false));
    assert!(hook_listens(0, 0x0104, false));
    assert!(!hook_listens(0, 0x0101, false));
    assert!(!hook_listens(-1, 0x0100, false));
    assert!(!hook_listens(0, 0x0100, true));
}

#[test]
fn the_hotkey_signal_cannot_drop_or_reorder_a_press() {
    let mut q = HotkeyQueue::new();
    assert_eq!(q.pop(), None, "an empty queue yields nothing");

    q.push(REQ_VISIBILITY);
    q.push(REQ_INTERACT);
    assert_eq!(
        q.pop(),
        Some(REQ_VISIBILITY),
        "the FIRST press must survive"
    );
    assert_eq!(q.pop(), Some(REQ_INTERACT));
    assert_eq!(q.pop(), None);

    for seq in [[REQ_SETTINGS, REQ_INTERACT], [REQ_INTERACT, REQ_SETTINGS]] {
        for r in seq {
            q.push(r);
        }
        assert_eq!([q.pop().unwrap(), q.pop().unwrap()], seq);
    }

    q.push(REQ_INTERACT);
    q.push(REQ_INTERACT);
    assert_eq!(
        (q.pop(), q.pop(), q.pop()),
        (Some(REQ_INTERACT), Some(REQ_INTERACT), None)
    );

    assert_eq!(q.dropped(), 0);
    for _ in 0..HOTKEY_QUEUE_LEN {
        q.push(REQ_INTERACT);
    }
    q.push(REQ_SETTINGS);
    assert_eq!(q.dropped(), 1, "the overflow must be counted, not silent");
    for _ in 0..HOTKEY_QUEUE_LEN {
        assert_eq!(q.pop(), Some(REQ_INTERACT));
    }
    assert_eq!(q.pop(), None);

    for i in 0..HOTKEY_QUEUE_LEN * 3 + 5 {
        let want = [REQ_INTERACT, REQ_SETTINGS, REQ_VISIBILITY][i % 3];
        q.push(want);
        assert_eq!(q.pop(), Some(want), "lap {i}");
    }
}

#[test]
fn a_burst_is_replayed_in_order_and_a_suspended_one_is_forgotten() {
    let mut q = HotkeyQueue::new();
    let burst = vec![REQ_SETTINGS, REQ_INTERACT, REQ_INTERACT, REQ_VISIBILITY];
    for r in &burst {
        q.push(*r);
    }
    assert_eq!(q.drain(false), burst);
    assert!(q.drain(false).is_empty());
    for r in &burst {
        q.push(*r);
    }
    assert!(q.drain(true).is_empty());
    assert_eq!(q.pop(), None);
}

#[test]
fn counters_keep_to_their_slots_when_they_run_over() {
    assert_eq!(ring_slot(33), 1);
    assert_eq!(ring_slot(usize::MAX), 31);
    assert!(!ring_full(5, 5));
    assert!(ring_full(37, 5));
    assert!(!ring_full(36, 5));
    // The head has run over, the tail has not: 32 wait.
    assert!(ring_full(15, usize::MAX - 16));
    assert!(!ring_full(14, usize::MAX - 16));
}

#[test]
fn a_rebind_capture_suspends_the_hotkeys_and_cannot_get_stuck() {
    assert_eq!(next_suspend(false, 0), (false, 0));
    assert_eq!(next_suspend(true, 0), (true, 1));
    assert_eq!(
        next_suspend(true, SUSPEND_MAX_TICKS - 1),
        (false, 0),
        "an armed capture must time out"
    );
    // What is queued while a capture is armed is dropped, not replayed.
    let mut q = HotkeyQueue::new();
    q.push(REQ_INTERACT);
    assert!(q.drain(true).is_empty());
    assert!(q.drain(false).is_empty());
}

#[test]
fn a_capture_stays_armed_up_to_the_limit_and_not_past_it() {
    let mut watch = SuspendWatch::new();
    for tick in 1..SUSPEND_MAX_TICKS {
        assert!(watch.tick(true), "tick {tick}");
    }
    assert!(!watch.tick(true));
    assert!(watch.tick(true));
    assert!(!watch.tick(false));
}

#[test]
fn a_lost_keyboard_hook_is_re_installed() {
    let mut thread = HookThread::new();
    let mut waits = vec![];
    for _ in 0..7 {
        match thread.installed(false) {
            HookStep::RetryAfter(secs) => waits.push(secs),
            other => panic!("an install failure must be retried, got {other:?}"),
        }
    }
    assert_eq!(waits, vec![1, 2, 4, 8, 16, 30, 30]);
    assert_eq!(thread.installed(true), HookStep::Pump);
    assert_eq!(thread.installed(false), HookStep::RetryAfter(1));
    assert_eq!(HookThread::pumped(-1), HookStep::Reinstall);
    assert_eq!(HookThread::pumped(0), HookStep::Quit);
    assert_eq!(HookThread::pumped(1), HookStep::Pump);
    assert_eq!(HookThread::pumped(-2), HookStep::Pump);
}

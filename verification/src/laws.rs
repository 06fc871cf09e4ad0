//! Properties that span several operations of the library.

use vstd::prelude::*;
use crate::carbon::{alt_group, control_group, shift_group, spec_carbon_modifiers, super_group};
use crate::code::Code;
use crate::error::ErrorView;
use crate::handler::{spec_hotkey_handler, spec_modifiers_match, SideKeyStates, EVENT_HOTKEY_PRESSED, EVENT_HOTKEY_RELEASED};
use crate::hotkey::{spec_new_hotkey, GlobalHotKeyEvent, HotKey, HotKeyState};
use crate::keymap::{
    lemma_fallback_only_for_event_tap, lemma_scancode_excludes_event_tap, spec_fallback_scancode,
    spec_key_to_scancode, spec_modifier_key_for_keycode, spec_requires_event_tap,
};
use crate::manager::{
    spec_batch_next, spec_carbon_registered, spec_carbon_registration, spec_event_tap_created, spec_fallback_registered,
    spec_register, spec_run_loop_source_created, spec_unregister, EventTapRelease, HotKeyWrapper,
    BatchOp, BatchStepView, Registry, RegisterStepView, UnregisterStepView,
};
use crate::media::{
    spec_event, spec_event_modifiers, spec_flags_changed_hotkey, spec_flags_changed_step, spec_system_defined_event,
    NX_KEYTYPE, EVENT_FLAG_ALTERNATE, EVENT_FLAG_COMMAND,
    EVENT_FLAG_CONTROL, EVENT_FLAG_FUNCTION, EVENT_FLAG_SHIFT,
};
use crate::modifiers::{
    Modifiers, FN, ALT_LEFT, ALT_RIGHT, CONTROL_LEFT, CONTROL_RIGHT, SHIFT_LEFT, SHIFT_RIGHT, SUPER_LEFT, SUPER_RIGHT,
};

verus! {

/// A hotkey that the event tap watches cannot be registered a second time:
/// the second registration fails with `AlreadyRegistered` and changes nothing.
pub proof fn lemma_event_tap_hotkey_registers_once(s: Registry, hotkey: HotKey)
    requires
        spec_requires_event_tap(hotkey.key),
    ensures
        ({
            let s1 = spec_register(s, hotkey).0;
            &&& s1.media.contains(hotkey)
            &&& spec_register(s1, hotkey) == (s1, RegisterStepView::Done(Err(ErrorView::AlreadyRegistered(hotkey))))
        }),
{
    lemma_scancode_excludes_event_tap(hotkey.key);
}

/// Registering a hotkey with Carbon, then unregistering it, gives back the
/// registrations there were before, and unregisters from Carbon the very
/// reference that Carbon returned.
pub proof fn lemma_carbon_register_unregister(s: Registry, hotkey: HotKey, handle: u64)
    requires
        spec_key_to_scancode(hotkey.key) is Some,
        !s.carbon.contains_key(hotkey.spec_id()),
    ensures
        spec_register(s, hotkey) == (s, RegisterStepView::RegisterWithCarbon(
            spec_carbon_registration(hotkey, spec_key_to_scancode(hotkey.key)->0),
        )),
        ({
            let (s1, step) = spec_carbon_registered(s, hotkey, Some(handle));
            &&& step == RegisterStepView::Done(Ok(()))
            &&& s1.carbon.contains_key(hotkey.spec_id())
            &&& spec_unregister(s1, hotkey) == (s, UnregisterStepView::UnregisterFromCarbon { handle })
        }),
{
    lemma_scancode_excludes_event_tap(hotkey.key);
    let s1 = spec_carbon_registered(s, hotkey, Some(handle)).0;
    assert(s1.carbon.remove(hotkey.spec_id()) =~= s.carbon);
}

/// The first hotkey that the event tap watches sets the tap up; unregistering
/// it, the last one, stops the tap and releases the very tap and run-loop
/// source that were set up, leaving things as they were.
pub proof fn lemma_event_tap_lifecycle(s: Registry, hotkey: HotKey, tap: u64, source: u64)
    requires
        spec_requires_event_tap(hotkey.key),
        s.media == Set::<HotKey>::empty(),
        s.event_tap is None,
        s.event_tap_source is None,
    ensures
        ({
            let (s1, step1) = spec_register(s, hotkey);
            let (s2, step2) = spec_event_tap_created(s1, hotkey, Some(tap));
            let (s3, step3) = spec_run_loop_source_created(s2, tap, Some(source));
            &&& step1 == RegisterStepView::CreateEventTap
            &&& step2 == RegisterStepView::CreateRunLoopSource { tap }
            &&& step3 == RegisterStepView::EnableEventTap { tap, source }
            &&& s3.media == set![hotkey]
            &&& spec_unregister(s3, hotkey) == (s, UnregisterStepView::StopWatching(
                EventTapRelease { source: Some(source), tap: Some(tap) },
            ))
        }),
{
    lemma_scancode_excludes_event_tap(hotkey.key);
    let s1 = spec_register(s, hotkey).0;
    assert(s1.media =~= set![hotkey]);
    assert(s1.media.remove(hotkey) =~= Set::<HotKey>::empty());
}

/// While the event tap runs, registering one more hotkey that it watches
/// succeeds at once, and unregistering it again leaves things as they were
/// (the tap keeps running for the hotkeys that were there before).
pub proof fn lemma_event_tap_register_unregister(s: Registry, hotkey: HotKey)
    requires
        spec_requires_event_tap(hotkey.key),
        !s.media.contains(hotkey),
        !s.media.is_empty(),
        s.is_watching(),
    ensures
        ({
            let (s1, step1) = spec_register(s, hotkey);
            &&& step1 == RegisterStepView::Done(Ok(()))
            &&& s1.media == s.media.insert(hotkey)
            &&& spec_unregister(s1, hotkey) == (s, UnregisterStepView::Done(Ok(())))
        }),
{
    lemma_scancode_excludes_event_tap(hotkey.key);
    assert(s.media.insert(hotkey).remove(hotkey) =~= s.media);
}

/// The steps that a batch hands out when every step succeeds.
pub open spec fn spec_batch_steps_on_success(op: BatchOp, pending: Seq<HotKey>) -> Seq<BatchStepView>
    decreases pending.len(),
{
    let (rest, step) = spec_batch_next(op, pending, Ok(()));
    if pending.len() == 0 {
        seq![step]
    } else {
        seq![step] + spec_batch_steps_on_success(op, rest)
    }
}

/// A batch in which every step succeeds hands out each of its hotkeys once,
/// in the order given, and then succeeds.
pub proof fn lemma_batch_visits_all_in_order(op: BatchOp, pending: Seq<HotKey>)
    ensures
        spec_batch_steps_on_success(op, pending).len() == pending.len() + 1,
        forall|i: int| #![trigger pending[i]] 0 <= i < pending.len() ==> spec_batch_steps_on_success(op, pending)[i] == (match op {
            BatchOp::Register => BatchStepView::Register(pending[i]),
            BatchOp::Unregister => BatchStepView::Unregister(pending[i]),
        }),
        spec_batch_steps_on_success(op, pending)[pending.len() as int] == BatchStepView::Done(Ok(())),
    decreases pending.len(),
{
    if pending.len() > 0 {
        let rest = pending.drop_first();
        lemma_batch_visits_all_in_order(op, rest);
        assert forall|i: int| #![trigger pending[i]] 0 <= i < pending.len() implies spec_batch_steps_on_success(op, pending)[i] == (match op {
            BatchOp::Register => BatchStepView::Register(pending[i]),
            BatchOp::Unregister => BatchStepView::Unregister(pending[i]),
        }) by {
            if i > 0 {
                assert(pending[i] == rest[i - 1]);
            }
        }
    }
}

/// A batch stops at the first error, with that error, and hands out nothing more.
pub proof fn lemma_batch_stops_at_error(op: BatchOp, pending: Seq<HotKey>, e: ErrorView)
    ensures
        spec_batch_next(op, pending, Err(e)) == (pending, BatchStepView::Done(Err(e))),
{
}

/// The Mac `fn` key registers through the event tap: where the tap can be
/// set up (accessibility permission), registering it succeeds; where it
/// cannot, registering fails with `FailedToWatchMediaKeyEvent`, as Carbon has
/// no code for the key.
pub proof fn lemma_fn_key_registers_through_event_tap(s: Registry, hotkey: HotKey, tap: u64, source: u64)
    requires
        hotkey.key == Code::Fn,
        !s.media.contains(hotkey),
        s.event_tap is None,
        s.event_tap_source is None,
    ensures
        ({
            let (s1, step1) = spec_register(s, hotkey);
            let (s2, step2) = spec_event_tap_created(s1, hotkey, Some(tap));
            let (s3, step3) = spec_run_loop_source_created(s2, tap, Some(source));
            &&& step1 == RegisterStepView::CreateEventTap
            &&& step2 == RegisterStepView::CreateRunLoopSource { tap }
            &&& step3 == RegisterStepView::EnableEventTap { tap, source }
            &&& s3.media == s.media.insert(hotkey)
            &&& s3.carbon == s.carbon
        }),
        ({
            let (s1, step1) = spec_register(s, hotkey);
            spec_event_tap_created(s1, hotkey, None).1 == RegisterStepView::Done(Err(ErrorView::FailedToWatchMediaKeyEvent))
        }),
{
}

/// Once the event tap runs, it is not set up again: registering a further
/// hotkey that the tap watches succeeds at once, asks for no new tap, and
/// leaves the tap and its run-loop source as they are.
pub proof fn lemma_event_tap_started_once(s: Registry, first: HotKey, second: HotKey, tap: u64, source: u64)
    requires
        spec_requires_event_tap(first.key),
        spec_requires_event_tap(second.key),
        first != second,
        !s.media.contains(first),
        !s.media.contains(second),
        s.event_tap is None,
        s.event_tap_source is None,
    ensures
        ({
            let (s1, step1) = spec_register(s, first);
            let (s2, step2) = spec_event_tap_created(s1, first, Some(tap));
            let (s3, step3) = spec_run_loop_source_created(s2, tap, Some(source));
            let (s4, step4) = spec_register(s3, second);
            &&& step3 == RegisterStepView::EnableEventTap { tap, source }
            &&& step4 == RegisterStepView::Done(Ok(()))
            &&& s4.event_tap == Some(tap)
            &&& s4.event_tap_source == Some(source)
            &&& s4.media == s.media.insert(first).insert(second)
        }),
{
    lemma_scancode_excludes_event_tap(first.key);
    lemma_scancode_excludes_event_tap(second.key);
}

/// The state after registering `hotkey` where every answer of the system is a
/// success: Carbon returns `handle`; the event tap, where one is set up, is
/// `tap` with run-loop source `source`.
pub open spec fn spec_register_succeeds(s: Registry, hotkey: HotKey, handle: u64, tap: u64, source: u64) -> Registry {
    let (s1, step) = spec_register(s, hotkey);
    match step {
        RegisterStepView::RegisterWithCarbon(_) => spec_carbon_registered(s1, hotkey, Some(handle)).0,
        RegisterStepView::CreateEventTap => spec_run_loop_source_created(
            spec_event_tap_created(s1, hotkey, Some(tap)).0,
            tap,
            Some(source),
        ).0,
        _ => s1,
    }
}

/// The last step of registering `hotkey` where every answer of the system is
/// a success (see `spec_register_succeeds`).
pub open spec fn spec_register_last_step(s: Registry, hotkey: HotKey, handle: u64, tap: u64, source: u64) -> RegisterStepView {
    let (s1, step) = spec_register(s, hotkey);
    match step {
        RegisterStepView::RegisterWithCarbon(_) => spec_carbon_registered(s1, hotkey, Some(handle)).1,
        RegisterStepView::CreateEventTap => spec_run_loop_source_created(
            spec_event_tap_created(s1, hotkey, Some(tap)).0,
            tap,
            Some(source),
        ).1,
        _ => step,
    }
}

/// Whether a registration ended in success: `Done(Ok(()))`, or the event tap
/// set up and enabled.
pub open spec fn is_success(step: RegisterStepView) -> bool {
    step == RegisterStepView::Done(Ok(())) || step is EnableEventTap
}

/// Whether each registration of `hotkeys` in turn succeeds, every answer of
/// the system a success.
pub open spec fn spec_register_all_each_succeeds(s: Registry, hotkeys: Seq<HotKey>, handles: Seq<u64>, tap: u64, source: u64) -> bool
    decreases hotkeys.len(),
{
    hotkeys.len() == 0 || {
        &&& is_success(spec_register_last_step(s, hotkeys[0], handles[0], tap, source))
        &&& spec_register_all_each_succeeds(
            spec_register_succeeds(s, hotkeys[0], handles[0], tap, source),
            hotkeys.drop_first(),
            handles.drop_first(),
            tap,
            source,
        )
    }
}

/// A hotkey that Carbon can register, or that the event tap watches and that
/// is not watched yet, registers successfully when the system says yes to
/// everything.
pub proof fn lemma_register_succeeds(s: Registry, hotkey: HotKey, handle: u64, tap: u64, source: u64)
    requires
        spec_key_to_scancode(hotkey.key) is Some || spec_requires_event_tap(hotkey.key),
        !s.media.contains(hotkey),
    ensures
        is_success(spec_register_last_step(s, hotkey, handle, tap, source)),
{
}

/// Each hotkey of a list of known keys with distinct ids, none watched yet,
/// registers successfully in turn when the system says yes to everything:
/// registering the whole list succeeds.
pub proof fn lemma_register_all_each_succeeds(s: Registry, hotkeys: Seq<HotKey>, handles: Seq<u64>, tap: u64, source: u64)
    requires
        forall|i: int| 0 <= i < hotkeys.len() ==> spec_key_to_scancode(#[trigger] hotkeys[i].key) is Some || spec_requires_event_tap(hotkeys[i].key),
        forall|i: int, j: int| 0 <= i < j < hotkeys.len() ==> #[trigger] hotkeys[i].spec_id() != #[trigger] hotkeys[j].spec_id(),
        forall|i: int| 0 <= i < hotkeys.len() ==> !s.media.contains(#[trigger] hotkeys[i]),
    ensures
        spec_register_all_each_succeeds(s, hotkeys, handles, tap, source),
    decreases hotkeys.len(),
{
    if hotkeys.len() > 0 {
        let h = hotkeys[0];
        lemma_register_succeeds(s, h, handles[0], tap, source);
        let s1 = spec_register_succeeds(s, h, handles[0], tap, source);
        lemma_register_succeeds_cm(s, h, handles[0], tap, source);
        let rest = hotkeys.drop_first();
        assert forall|i: int| 0 <= i < rest.len() implies !s1.media.contains(#[trigger] rest[i]) by {
            assert(rest[i] == hotkeys[i + 1]);
            assert(hotkeys[0].spec_id() != hotkeys[i + 1].spec_id());
        }
        assert forall|i: int| 0 <= i < rest.len() implies spec_key_to_scancode(#[trigger] rest[i].key) is Some || spec_requires_event_tap(rest[i].key) by {
            assert(rest[i] == hotkeys[i + 1]);
        }
        assert forall|i: int, j: int| 0 <= i < j < rest.len() implies #[trigger] rest[i].spec_id() != #[trigger] rest[j].spec_id() by {
            assert(rest[i] == hotkeys[i + 1] && rest[j] == hotkeys[j + 1]);
        }
        lemma_register_all_each_succeeds(s1, rest, handles.drop_first(), tap, source);
    }
}

/// The state after registering each of `hotkeys` in turn, every answer of
/// the system a success, the `i`th Carbon registration returning `handles[i]`.
pub open spec fn spec_register_all_succeeds(s: Registry, hotkeys: Seq<HotKey>, handles: Seq<u64>, tap: u64, source: u64) -> Registry
    decreases hotkeys.len(),
{
    if hotkeys.len() == 0 {
        s
    } else {
        spec_register_all_succeeds(
            spec_register_succeeds(s, hotkeys[0], handles[0], tap, source),
            hotkeys.drop_first(),
            handles.drop_first(),
            tap,
            source,
        )
    }
}

/// The state after unregistering each of `hotkeys` in turn (Carbon's answer
/// does not change the state).
pub open spec fn spec_unregister_all(s: Registry, hotkeys: Seq<HotKey>) -> Registry
    decreases hotkeys.len(),
{
    if hotkeys.len() == 0 {
        s
    } else {
        spec_unregister_all(spec_unregister(s, hotkeys[0]).0, hotkeys.drop_first())
    }
}

/// The Carbon registrations and watched hotkeys after a successful registration.
spec fn reg_cm(c: Map<u32, HotKeyWrapper>, m: Set<HotKey>, hotkey: HotKey, handle: u64) -> (Map<u32, HotKeyWrapper>, Set<HotKey>) {
    if spec_key_to_scancode(hotkey.key) is Some {
        (c.insert(hotkey.spec_id(), HotKeyWrapper { handle, hotkey }), m)
    } else if spec_requires_event_tap(hotkey.key) {
        (c, m.insert(hotkey))
    } else {
        (c, m)
    }
}

/// The Carbon registrations and watched hotkeys after unregistering.
spec fn unreg_cm(c: Map<u32, HotKeyWrapper>, m: Set<HotKey>, hotkey: HotKey) -> (Map<u32, HotKeyWrapper>, Set<HotKey>) {
    if spec_requires_event_tap(hotkey.key) {
        (c, m.remove(hotkey))
    } else {
        (c.remove(hotkey.spec_id()), m)
    }
}

spec fn reg_all_cm(c: Map<u32, HotKeyWrapper>, m: Set<HotKey>, hotkeys: Seq<HotKey>, handles: Seq<u64>) -> (Map<u32, HotKeyWrapper>, Set<HotKey>)
    decreases hotkeys.len(),
{
    if hotkeys.len() == 0 {
        (c, m)
    } else {
        let (c1, m1) = reg_cm(c, m, hotkeys[0], handles[0]);
        reg_all_cm(c1, m1, hotkeys.drop_first(), handles.drop_first())
    }
}

spec fn unreg_all_cm(c: Map<u32, HotKeyWrapper>, m: Set<HotKey>, hotkeys: Seq<HotKey>) -> (Map<u32, HotKeyWrapper>, Set<HotKey>)
    decreases hotkeys.len(),
{
    if hotkeys.len() == 0 {
        (c, m)
    } else {
        let (c1, m1) = unreg_cm(c, m, hotkeys[0]);
        unreg_all_cm(c1, m1, hotkeys.drop_first())
    }
}

proof fn lemma_register_succeeds_cm(s: Registry, hotkey: HotKey, handle: u64, tap: u64, source: u64)
    ensures
        ({
            let t = spec_register_succeeds(s, hotkey, handle, tap, source);
            (t.carbon, t.media) == reg_cm(s.carbon, s.media, hotkey, handle)
        }),
{
    lemma_scancode_excludes_event_tap(hotkey.key);
    if spec_key_to_scancode(hotkey.key) is None && spec_requires_event_tap(hotkey.key) && s.media.contains(hotkey) {
        assert(s.media.insert(hotkey) =~= s.media);
    }
}

proof fn lemma_unregister_cm(s: Registry, hotkey: HotKey)
    ensures
        ({
            let t = spec_unregister(s, hotkey).0;
            (t.carbon, t.media) == unreg_cm(s.carbon, s.media, hotkey)
        }),
{
    if !spec_requires_event_tap(hotkey.key) && !s.carbon.contains_key(hotkey.spec_id()) {
        assert(s.carbon.remove(hotkey.spec_id()) =~= s.carbon);
    }
}

proof fn lemma_register_all_succeeds_cm(s: Registry, hotkeys: Seq<HotKey>, handles: Seq<u64>, tap: u64, source: u64)
    ensures
        ({
            let t = spec_register_all_succeeds(s, hotkeys, handles, tap, source);
            (t.carbon, t.media) == reg_all_cm(s.carbon, s.media, hotkeys, handles)
        }),
    decreases hotkeys.len(),
{
    if hotkeys.len() > 0 {
        let s1 = spec_register_succeeds(s, hotkeys[0], handles[0], tap, source);
        lemma_register_succeeds_cm(s, hotkeys[0], handles[0], tap, source);
        lemma_register_all_succeeds_cm(s1, hotkeys.drop_first(), handles.drop_first(), tap, source);
    }
}

proof fn lemma_unregister_all_cm(s: Registry, hotkeys: Seq<HotKey>)
    ensures
        ({
            let t = spec_unregister_all(s, hotkeys);
            (t.carbon, t.media) == unreg_all_cm(s.carbon, s.media, hotkeys)
        }),
    decreases hotkeys.len(),
{
    if hotkeys.len() > 0 {
        lemma_unregister_cm(s, hotkeys[0]);
        lemma_unregister_all_cm(spec_unregister(s, hotkeys[0]).0, hotkeys.drop_first());
    }
}

/// Registering one hotkey and unregistering another, of a different id,
/// can be done in either order.
proof fn lemma_cm_commute(c: Map<u32, HotKeyWrapper>, m: Set<HotKey>, g: HotKey, handle: u64, h: HotKey)
    requires
        g.spec_id() != h.spec_id(),
    ensures
        ({
            let (c1, m1) = reg_cm(c, m, g, handle);
            let (c2, m2) = unreg_cm(c, m, h);
            unreg_cm(c1, m1, h) == reg_cm(c2, m2, g, handle)
        }),
{
    let (c1, m1) = reg_cm(c, m, g, handle);
    let (c2, m2) = unreg_cm(c, m, h);
    let (ca, ma) = unreg_cm(c1, m1, h);
    let (cb, mb) = reg_cm(c2, m2, g, handle);
    assert(g != h);
    assert(ca =~= cb);
    assert(ma =~= mb);
}

proof fn lemma_cm_commute_all(c: Map<u32, HotKeyWrapper>, m: Set<HotKey>, gs: Seq<HotKey>, handles: Seq<u64>, h: HotKey)
    requires
        forall|i: int| 0 <= i < gs.len() ==> #[trigger] gs[i].spec_id() != h.spec_id(),
    ensures
        ({
            let (c1, m1) = reg_all_cm(c, m, gs, handles);
            let (c2, m2) = unreg_cm(c, m, h);
            unreg_cm(c1, m1, h) == reg_all_cm(c2, m2, gs, handles)
        }),
    decreases gs.len(),
{
    if gs.len() > 0 {
        let (c1, m1) = reg_cm(c, m, gs[0], handles[0]);
        let rest = gs.drop_first();
        assert forall|i: int| 0 <= i < rest.len() implies #[trigger] rest[i].spec_id() != h.spec_id() by {
            assert(rest[i] == gs[i + 1]);
        }
        lemma_cm_commute_all(c1, m1, rest, handles.drop_first(), h);
        lemma_cm_commute(c, m, gs[0], handles[0], h);
    }
}

proof fn lemma_cm_round_trip(c: Map<u32, HotKeyWrapper>, m: Set<HotKey>, hotkeys: Seq<HotKey>, handles: Seq<u64>)
    requires
        forall|i: int, j: int| 0 <= i < j < hotkeys.len() ==> #[trigger] hotkeys[i].spec_id() != #[trigger] hotkeys[j].spec_id(),
        forall|i: int| 0 <= i < hotkeys.len() ==> !c.contains_key(#[trigger] hotkeys[i].spec_id()) && !m.contains(hotkeys[i]),
    ensures
        ({
            let (c1, m1) = reg_all_cm(c, m, hotkeys, handles);
            unreg_all_cm(c1, m1, hotkeys) == (c, m)
        }),
    decreases hotkeys.len(),
{
    if hotkeys.len() > 0 {
        let h = hotkeys[0];
        let rest = hotkeys.drop_first();
        let hd = handles.drop_first();
        let (c1, m1) = reg_cm(c, m, h, handles[0]);
        assert forall|i: int| 0 <= i < rest.len() implies #[trigger] rest[i].spec_id() != h.spec_id() by {
            assert(rest[i] == hotkeys[i + 1]);
        }
        lemma_cm_commute_all(c1, m1, rest, hd, h);
        let (c2, m2) = unreg_cm(c1, m1, h);
        assert(c2 =~= c);
        assert(m2 =~= m);
        assert forall|i: int, j: int| 0 <= i < j < rest.len() implies #[trigger] rest[i].spec_id() != #[trigger] rest[j].spec_id() by {
            assert(rest[i] == hotkeys[i + 1] && rest[j] == hotkeys[j + 1]);
        }
        assert forall|i: int| 0 <= i < rest.len() implies !c.contains_key(#[trigger] rest[i].spec_id()) && !m.contains(rest[i]) by {
            assert(rest[i] == hotkeys[i + 1]);
        }
        lemma_cm_round_trip(c, m, rest, hd);
    }
}

/// Registering a list of hotkeys of distinct ids, none of them registered,
/// with every answer of the system a success, and then unregistering the
/// same list, gives back the Carbon registrations and the watched hotkeys
/// that there were before.
pub proof fn lemma_register_all_unregister_all(s: Registry, hotkeys: Seq<HotKey>, handles: Seq<u64>, tap: u64, source: u64)
    requires
        forall|i: int, j: int| 0 <= i < j < hotkeys.len() ==> #[trigger] hotkeys[i].spec_id() != #[trigger] hotkeys[j].spec_id(),
        forall|i: int| 0 <= i < hotkeys.len() ==> !s.carbon.contains_key(#[trigger] hotkeys[i].spec_id()) && !s.media.contains(hotkeys[i]),
    ensures
        ({
            let t = spec_unregister_all(spec_register_all_succeeds(s, hotkeys, handles, tap, source), hotkeys);
            t.carbon == s.carbon && t.media == s.media
        }),
{
    let r = spec_register_all_succeeds(s, hotkeys, handles, tap, source);
    lemma_register_all_succeeds_cm(s, hotkeys, handles, tap, source);
    lemma_unregister_all_cm(r, hotkeys);
    lemma_cm_round_trip(s.carbon, s.media, hotkeys, handles);
}

/// Where the event tap cannot be created (no accessibility permission), a
/// side-specific modifier key is registered with Carbon under its own key
/// code instead, and the event tap no longer watches for it.
pub proof fn lemma_modifier_key_falls_back_to_carbon(s: Registry, hotkey: HotKey, handle: u64)
    requires
        spec_fallback_scancode(hotkey.key) is Some,
        !s.media.contains(hotkey),
        s.event_tap is None,
        s.event_tap_source is None,
    ensures
        ({
            let (s1, step1) = spec_register(s, hotkey);
            let (s2, step2) = spec_event_tap_created(s1, hotkey, None);
            let (s3, step3) = spec_fallback_registered(s2, hotkey, Some(handle));
            &&& step1 == RegisterStepView::CreateEventTap
            &&& step2 == RegisterStepView::RegisterFallbackWithCarbon(
                spec_carbon_registration(hotkey, spec_fallback_scancode(hotkey.key)->0),
            )
            &&& step3 == RegisterStepView::Done(Ok(()))
            &&& s3.media == s.media
            &&& s3.carbon == s.carbon.insert(hotkey.spec_id(), HotKeyWrapper { handle, hotkey })
        }),
{
    lemma_fallback_only_for_event_tap(hotkey.key);
    let s1 = spec_register(s, hotkey).0;
    assert(s1.media.remove(hotkey) =~= s.media);
}

/// Unregistering a hotkey that is registered nowhere succeeds and changes nothing.
pub proof fn lemma_unregister_unregistered(s: Registry, hotkey: HotKey)
    requires
        !s.carbon.contains_key(hotkey.spec_id()),
        !s.media.contains(hotkey),
        !s.media.is_empty(),
    ensures
        spec_unregister(s, hotkey) == (s, UnregisterStepView::Done(Ok(()))),
{
    assert(s.media.remove(hotkey) =~= s.media);
}

/// While the system reports a watched modifier key up, each `FlagsChanged`
/// event for it toggles its known state: a press, then a release.
pub proof fn lemma_modifier_key_toggles(
    registered: Set<HotKey>,
    pressed: Map<u16, bool>,
    keycode: u16,
    flags: u64,
)
    requires
        spec_flags_changed_hotkey(keycode, flags) matches Some(h) && registered.contains(h),
        !pressed.contains_key(keycode) || !pressed[keycode],
    ensures
        ({
            let h = spec_flags_changed_hotkey(keycode, flags)->0;
            let (p1, e1) = spec_flags_changed_step(registered, pressed, keycode, flags, false);
            let (p2, e2) = spec_flags_changed_step(registered, p1, keycode, flags, false);
            &&& e1 == Some(GlobalHotKeyEvent { id: h.spec_id(), state: HotKeyState::Pressed })
            &&& e2 == Some(GlobalHotKeyEvent { id: h.spec_id(), state: HotKeyState::Released })
            &&& p2 == pressed.insert(keycode, false)
        }),
{
    let p1 = pressed.insert(keycode, true);
    assert(p1.insert(keycode, false) =~= pressed.insert(keycode, false));
}

/// A modifier key that the system reports down is known to be down after the
/// event, and a press is reported exactly when it was not known to be down.
pub proof fn lemma_modifier_key_reported_down(
    registered: Set<HotKey>,
    pressed: Map<u16, bool>,
    keycode: u16,
    flags: u64,
)
    requires
        spec_flags_changed_hotkey(keycode, flags) matches Some(h) && registered.contains(h),
    ensures
        ({
            let h = spec_flags_changed_hotkey(keycode, flags)->0;
            let was = pressed.contains_key(keycode) && pressed[keycode];
            let (p1, e1) = spec_flags_changed_step(registered, pressed, keycode, flags, true);
            &&& p1 == pressed.insert(keycode, true)
            &&& e1 == (if was { None } else { Some(spec_event(h.spec_id(), true)) })
        }),
{
}

/// One `FlagsChanged` event as the event tap sees it.
pub struct FlagsChange {
    /// The virtual key code of the key that changed.
    pub keycode: u16,
    /// The event flags.
    pub flags: u64,
    /// Whether the system reported the key down.
    pub reported_down: bool,
}

/// The known key states after a sequence of `FlagsChanged` events, and the
/// hotkey event (if any) reported for each.
pub open spec fn spec_flags_changed_run(
    registered: Set<HotKey>,
    pressed: Map<u16, bool>,
    events: Seq<FlagsChange>,
) -> (Map<u16, bool>, Seq<Option<GlobalHotKeyEvent>>)
    decreases events.len(),
{
    if events.len() == 0 {
        (pressed, Seq::empty())
    } else {
        let (p, reported) = spec_flags_changed_run(registered, pressed, events.drop_last());
        let e = events.last();
        let (p2, r) = spec_flags_changed_step(registered, p, e.keycode, e.flags, e.reported_down);
        (p2, reported.push(r))
    }
}

/// The states (pressed or released) of the hotkey events reported for
/// events about the key with virtual key code `keycode`, in order.
pub open spec fn reported_states_for_key(
    events: Seq<FlagsChange>,
    reported: Seq<Option<GlobalHotKeyEvent>>,
    keycode: u16,
) -> Seq<HotKeyState>
    decreases events.len(),
{
    if events.len() == 0 || reported.len() == 0 {
        Seq::empty()
    } else {
        let earlier = reported_states_for_key(events.drop_last(), reported.drop_last(), keycode);
        if events.last().keycode == keycode && reported.last() is Some {
            earlier.push(reported.last()->0.state)
        } else {
            earlier
        }
    }
}

/// Over any sequence of `FlagsChanged` events, the events reported for one
/// modifier key that starts up alternate: Pressed, Released, Pressed, ...;
/// never two presses or two releases in a row. The key is known to be down
/// exactly when an odd number of them was reported.
pub proof fn lemma_modifier_key_events_alternate(
    registered: Set<HotKey>,
    pressed: Map<u16, bool>,
    events: Seq<FlagsChange>,
    keycode: u16,
)
    requires
        !(pressed.contains_key(keycode) && pressed[keycode]),
    ensures
        ({
            let (p, reported) = spec_flags_changed_run(registered, pressed, events);
            let states = reported_states_for_key(events, reported, keycode);
            &&& reported.len() == events.len()
            &&& forall|i: int| 0 <= i < states.len() ==> #[trigger] states[i] == (if i % 2 == 0 {
                HotKeyState::Pressed
            } else {
                HotKeyState::Released
            })
            &&& (p.contains_key(keycode) && p[keycode]) == (states.len() % 2 == 1)
        }),
    decreases events.len(),
{
    if events.len() > 0 {
        let prefix = events.drop_last();
        lemma_modifier_key_events_alternate(registered, pressed, prefix, keycode);
        let (p, reported) = spec_flags_changed_run(registered, pressed, prefix);
        let e = events.last();
        let (p2, r) = spec_flags_changed_step(registered, p, e.keycode, e.flags, e.reported_down);
        let all = reported.push(r);
        assert(all.drop_last() =~= reported);
        assert(events.drop_last() == prefix);
        let earlier = reported_states_for_key(prefix, reported, keycode);
        let states = reported_states_for_key(events, all, keycode);
        if e.keycode == keycode && r is Some {
            assert(states == earlier.push(r->0.state));
        } else {
            assert(states == earlier);
        }
    }
}

/// The media keys that system-defined events report are keys that the
/// event tap watches, never keys that Carbon registers.
pub proof fn lemma_media_keys_use_event_tap(k: NX_KEYTYPE)
    ensures
        spec_requires_event_tap(k.spec_code()),
        spec_key_to_scancode(k.spec_code()) is None,
{
}

/// The Carbon handler reports a press or release of a hotkey exactly when
/// every side-specific modifier that the hotkey asks for, and the `fn` key
/// where it asks for `FN`, is down: the id that Carbon hands back carries
/// the hotkey's modifiers.
pub proof fn lemma_handler_checks_hotkey_modifiers(hotkey: HotKey, event_kind: u32, keys: SideKeyStates)
    ensures
        spec_hotkey_handler(Some(hotkey.spec_id()), event_kind, keys) == (
            if !spec_modifiers_match(hotkey.mods@, keys) {
                None
            } else if event_kind == EVENT_HOTKEY_PRESSED {
                Some(GlobalHotKeyEvent { id: hotkey.spec_id(), state: HotKeyState::Pressed })
            } else if event_kind == EVENT_HOTKEY_RELEASED {
                Some(GlobalHotKeyEvent { id: hotkey.spec_id(), state: HotKeyState::Released })
            } else {
                None
            }
        ),
{
    hotkey.lemma_id_layout();
    let m: u16 = hotkey.mods@;
    let id: u32 = hotkey.spec_id();
    let t: u16 = Modifiers::spec_from_bits_truncate(id >> 16u32);
    assert(t == ((id >> 16u32) & 0x3fffu32) as u16);
    assert(
        (t & 0x0040u16 == 0x0040u16 <==> m & 0x0040u16 == 0x0040u16)
        && (t & 0x0080u16 == 0x0080u16 <==> m & 0x0080u16 == 0x0080u16)
        && (t & 0x0100u16 == 0x0100u16 <==> m & 0x0100u16 == 0x0100u16)
        && (t & 0x0200u16 == 0x0200u16 <==> m & 0x0200u16 == 0x0200u16)
        && (t & 0x0400u16 == 0x0400u16 <==> m & 0x0400u16 == 0x0400u16)
        && (t & 0x0800u16 == 0x0800u16 <==> m & 0x0800u16 == 0x0800u16)
        && (t & 0x1000u16 == 0x1000u16 <==> m & 0x1000u16 == 0x1000u16)
        && (t & 0x2000u16 == 0x2000u16 <==> m & 0x2000u16 == 0x2000u16)
        && (t & 0x0020u16 == 0x0020u16 <==> m & 0x0020u16 == 0x0020u16)
    ) by (bit_vector)
        requires
            id >> 16u32 == m as u32,
            t == ((id >> 16u32) & 0x3fffu32) as u16,
    ;
    assert(spec_modifiers_match(t, keys) == spec_modifiers_match(m, keys));
}

/// A hotkey that asks for no side-specific modifier and not for `FN` is
/// reported on every press and release that Carbon delivers for it, whatever
/// the state of the side-specific modifier keys and the `fn` key.
pub proof fn lemma_side_neutral_hotkey_always_reported(hotkey: HotKey, keys: SideKeyStates)
    requires
        hotkey.mods@ & (SHIFT_LEFT | SHIFT_RIGHT | CONTROL_LEFT | CONTROL_RIGHT | ALT_LEFT | ALT_RIGHT | SUPER_LEFT | SUPER_RIGHT | FN) == 0,
    ensures
        spec_hotkey_handler(Some(hotkey.spec_id()), EVENT_HOTKEY_PRESSED, keys)
            == Some(GlobalHotKeyEvent { id: hotkey.spec_id(), state: HotKeyState::Pressed }),
        spec_hotkey_handler(Some(hotkey.spec_id()), EVENT_HOTKEY_RELEASED, keys)
            == Some(GlobalHotKeyEvent { id: hotkey.spec_id(), state: HotKeyState::Released }),
{
    lemma_handler_checks_hotkey_modifiers(hotkey, EVENT_HOTKEY_PRESSED, keys);
    lemma_handler_checks_hotkey_modifiers(hotkey, EVENT_HOTKEY_RELEASED, keys);
    assert((SHIFT_LEFT | SHIFT_RIGHT | CONTROL_LEFT | CONTROL_RIGHT | ALT_LEFT | ALT_RIGHT | SUPER_LEFT | SUPER_RIGHT | FN) == 0x3fe0u16) by (bit_vector);
    let m: u16 = hotkey.mods@;
    assert(m & 0x3fe0u16 == 0u16 ==> (
        m & 0x0020u16 != 0x0020u16 &&
        m & 0x0040u16 != 0x0040u16 && m & 0x0080u16 != 0x0080u16
        && m & 0x0100u16 != 0x0100u16 && m & 0x0200u16 != 0x0200u16
        && m & 0x0400u16 != 0x0400u16 && m & 0x0800u16 != 0x0800u16
        && m & 0x1000u16 != 0x1000u16 && m & 0x2000u16 != 0x2000u16)) by (bit_vector);
}

/// Each side-specific modifier, and `FN`, among the bits handed to
/// `modifiers_match` asks for that very key: the match holds exactly when
/// the left Shift key is down where bit `0x0040` is set, the right Shift key
/// where `0x0080` is, the left and right Control keys where `0x0100` and
/// `0x0200` are, the left and right Option keys where `0x0400` and `0x0800`
/// are, the left and right Command keys where `0x1000` and `0x2000` are, and
/// the `fn` key where `0x0020` is. No other bit matters.
pub proof fn lemma_modifiers_match_reads_each_key(bits: u32, keys: SideKeyStates)
    ensures
        spec_modifiers_match(Modifiers::spec_from_bits_truncate(bits), keys) <==> {
            &&& bits & 0x0040u32 != 0 ==> keys.shift_left
            &&& bits & 0x0080u32 != 0 ==> keys.shift_right
            &&& bits & 0x0100u32 != 0 ==> keys.control_left
            &&& bits & 0x0200u32 != 0 ==> keys.control_right
            &&& bits & 0x0400u32 != 0 ==> keys.alt_left
            &&& bits & 0x0800u32 != 0 ==> keys.alt_right
            &&& bits & 0x1000u32 != 0 ==> keys.super_left
            &&& bits & 0x2000u32 != 0 ==> keys.super_right
            &&& bits & 0x0020u32 != 0 ==> keys.fn_key
        },
{
    let t: u16 = Modifiers::spec_from_bits_truncate(bits);
    assert(
        (t & 0x0040u16 == 0x0040u16 <==> bits & 0x0040u32 != 0)
        && (t & 0x0080u16 == 0x0080u16 <==> bits & 0x0080u32 != 0)
        && (t & 0x0100u16 == 0x0100u16 <==> bits & 0x0100u32 != 0)
        && (t & 0x0200u16 == 0x0200u16 <==> bits & 0x0200u32 != 0)
        && (t & 0x0400u16 == 0x0400u16 <==> bits & 0x0400u32 != 0)
        && (t & 0x0800u16 == 0x0800u16 <==> bits & 0x0800u32 != 0)
        && (t & 0x1000u16 == 0x1000u16 <==> bits & 0x1000u32 != 0)
        && (t & 0x2000u16 == 0x2000u16 <==> bits & 0x2000u32 != 0)
        && (t & 0x0020u16 == 0x0020u16 <==> bits & 0x0020u32 != 0)
    ) by (bit_vector)
        requires
            t == (bits & 0x3fffu32) as u16,
    ;
}

/// The Carbon handler reports a hotkey event (kind 5 for a press, 6 for a
/// release) only while the keys that the hotkey's side-specific modifiers
/// name are down: a press of a hotkey whose
/// id asks for the right Control key (bit `0x0200` of its upper half) is
/// reported exactly when the right Control key is down and the other keys
/// it asks for are down too, whatever the left Control key does; likewise
/// for each side of Shift, Option and Command, and for `fn`.
pub proof fn lemma_handler_reads_each_side_key(id: u32, keys: SideKeyStates)
    ensures
        spec_hotkey_handler(Some(id), 5u32, keys) == if {
            &&& (id >> 16u32) & 0x0040u32 != 0 ==> keys.shift_left
            &&& (id >> 16u32) & 0x0080u32 != 0 ==> keys.shift_right
            &&& (id >> 16u32) & 0x0100u32 != 0 ==> keys.control_left
            &&& (id >> 16u32) & 0x0200u32 != 0 ==> keys.control_right
            &&& (id >> 16u32) & 0x0400u32 != 0 ==> keys.alt_left
            &&& (id >> 16u32) & 0x0800u32 != 0 ==> keys.alt_right
            &&& (id >> 16u32) & 0x1000u32 != 0 ==> keys.super_left
            &&& (id >> 16u32) & 0x2000u32 != 0 ==> keys.super_right
            &&& (id >> 16u32) & 0x0020u32 != 0 ==> keys.fn_key
        } {
            Some(GlobalHotKeyEvent { id, state: HotKeyState::Pressed })
        } else {
            None
        },
        spec_hotkey_handler(Some(id), 6u32, keys) == if {
            &&& (id >> 16u32) & 0x0040u32 != 0 ==> keys.shift_left
            &&& (id >> 16u32) & 0x0080u32 != 0 ==> keys.shift_right
            &&& (id >> 16u32) & 0x0100u32 != 0 ==> keys.control_left
            &&& (id >> 16u32) & 0x0200u32 != 0 ==> keys.control_right
            &&& (id >> 16u32) & 0x0400u32 != 0 ==> keys.alt_left
            &&& (id >> 16u32) & 0x0800u32 != 0 ==> keys.alt_right
            &&& (id >> 16u32) & 0x1000u32 != 0 ==> keys.super_left
            &&& (id >> 16u32) & 0x2000u32 != 0 ==> keys.super_right
            &&& (id >> 16u32) & 0x0020u32 != 0 ==> keys.fn_key
        } {
            Some(GlobalHotKeyEvent { id, state: HotKeyState::Released })
        } else {
            None
        },
{
    lemma_modifiers_match_reads_each_key(id >> 16u32, keys);
}

/// The Carbon modifier mask has `shiftKey` (512) exactly when the modifiers
/// hold Shift on either side (bits `0x0001`, `0x0040`, `0x0080`), `cmdKey`
/// (256) exactly when they hold Super on either side or Meta (bits `0x0008`,
/// `0x1000`, `0x2000`, `0x0010`), `optionKey` (2048) exactly when they hold
/// Alt on either side (bits `0x0004`, `0x0400`, `0x0800`), and `controlKey`
/// (4096) exactly when they hold Control on either side (bits `0x0002`,
/// `0x0100`, `0x0200`); `FN` adds nothing.
pub proof fn lemma_carbon_mask_by_flag(m: u16)
    ensures
        spec_carbon_modifiers(m) == (if m & 0x0001u16 != 0 || m & 0x0040u16 != 0 || m & 0x0080u16 != 0 { 512int } else { 0int })
            + (if m & 0x0008u16 != 0 || m & 0x1000u16 != 0 || m & 0x2000u16 != 0 || m & 0x0010u16 != 0 { 256int } else { 0int })
            + (if m & 0x0004u16 != 0 || m & 0x0400u16 != 0 || m & 0x0800u16 != 0 { 2048int } else { 0int })
            + (if m & 0x0002u16 != 0 || m & 0x0100u16 != 0 || m & 0x0200u16 != 0 { 4096int } else { 0int }),
{
    assert(
        (m & shift_group() != 0 <==> (m & 0x0001u16 != 0 || m & 0x0040u16 != 0 || m & 0x0080u16 != 0))
        && (m & super_group() != 0 <==> (m & 0x0008u16 != 0 || m & 0x1000u16 != 0 || m & 0x2000u16 != 0 || m & 0x0010u16 != 0))
        && (m & alt_group() != 0 <==> (m & 0x0004u16 != 0 || m & 0x0400u16 != 0 || m & 0x0800u16 != 0))
        && (m & control_group() != 0 <==> (m & 0x0002u16 != 0 || m & 0x0100u16 != 0 || m & 0x0200u16 != 0))
    ) by (bit_vector);
}

/// The media key numbers of system-defined events decode as AppKit numbers
/// them: 16 is Play/Pause, 17 the next track, 18 the previous track, 19
/// fast forward and 20 rewind; every other number is no media key. Each
/// decodes to the key of the same name.
pub proof fn lemma_media_key_numbers(value: i64)
    ensures
        (NX_KEYTYPE::spec_from_value(value) == Some(NX_KEYTYPE::Play)) <==> value == 16,
        (NX_KEYTYPE::spec_from_value(value) == Some(NX_KEYTYPE::Next)) <==> value == 17,
        (NX_KEYTYPE::spec_from_value(value) == Some(NX_KEYTYPE::Previous)) <==> value == 18,
        (NX_KEYTYPE::spec_from_value(value) == Some(NX_KEYTYPE::Fast)) <==> value == 19,
        (NX_KEYTYPE::spec_from_value(value) == Some(NX_KEYTYPE::Rewind)) <==> value == 20,
        NX_KEYTYPE::spec_from_value(value) is None <==> (value < 16 || value > 20),
        NX_KEYTYPE::Play.spec_code() == Code::MediaPlayPause,
        NX_KEYTYPE::Next.spec_code() == Code::MediaTrackNext,
        NX_KEYTYPE::Previous.spec_code() == Code::MediaTrackPrevious,
        NX_KEYTYPE::Fast.spec_code() == Code::MediaFastForward,
        NX_KEYTYPE::Rewind.spec_code() == Code::MediaRewind,
{
}

/// What the event tap reports of the media-key hotkey with modifiers `mods`
/// and key `key`, where the key went down (`down`) or up: its event where it
/// is among the watched hotkeys `registered`, else nothing.
pub open spec fn media_key_report(registered: Set<HotKey>, mods: u16, key: Code, down: bool) -> Option<GlobalHotKeyEvent> {
    if registered.contains(spec_new_hotkey(mods, key)) {
        Some(spec_event(spec_new_hotkey(mods, key).spec_id(), down))
    } else {
        None
    }
}

/// A system-defined media key event (type 14, subtype 8) whose `data1` carries key number
/// `value` in its upper 16 bits and key state `state` in the byte below
/// (`0xA` for down) reports the hotkey of that very key, with the modifiers
/// that the event's flags hold, where it is watched: Play/Pause for 16, the
/// next track for 17, the previous track for 18, fast forward for 19 and
/// rewind for 20; any other number reports nothing.
pub proof fn lemma_media_key_event_reports_its_key(
    registered: Set<HotKey>,
    value: i64,
    state: i64,
    low: i64,
    flags: u64,
)
    requires
        0 <= value < 0x10000,
        0 <= state < 0x100,
        0 <= low < 0x100,
    ensures
        ({
            let data1 = (value << 16i64) | (state << 8i64) | low;
            let event = spec_system_defined_event(registered, 14u64, 8i16, data1, flags);
            let mods = spec_event_modifiers(flags) as u16;
            let down = state == 0xA;
            &&& value == 16 ==> event == media_key_report(registered, mods, Code::MediaPlayPause, down)
            &&& value == 17 ==> event == media_key_report(registered, mods, Code::MediaTrackNext, down)
            &&& value == 18 ==> event == media_key_report(registered, mods, Code::MediaTrackPrevious, down)
            &&& value == 19 ==> event == media_key_report(registered, mods, Code::MediaFastForward, down)
            &&& value == 20 ==> event == media_key_report(registered, mods, Code::MediaRewind, down)
            &&& (value < 16 || value > 20) ==> event is None
        }),
{
    let data1 = (value << 16i64) | (state << 8i64) | low;
    assert(((data1 & 0xFFFF0000i64) >> 16i64) == value && ((((data1 & 0x0000FFFFi64) & 0xFF00i64) >> 8i64 == 0xAi64) <==> state == 0xA))
        by (bit_vector)
        requires
            0 <= value < 0x10000,
            0 <= state < 0x100,
            0 <= low < 0x100,
            data1 == (value << 16i64) | (state << 8i64) | low,
    ;
    lemma_media_key_numbers(value);
}

/// A `FlagsChanged` event of a modifier key stands for the key with the
/// other modifiers that the event's flags hold: the key's own flag, which
/// the flags carry because the key itself is down, is left out. Each
/// modifier key's virtual key code names it (`0x38` left and `0x3C` right
/// Shift, `0x3B` left and `0x3E` right Control, `0x3A` left and `0x3D` right
/// Option, `0x37` left and `0x36` right Command, `0x3F` `fn`), and its own
/// flag is `EVENT_FLAG_SHIFT`, `EVENT_FLAG_CONTROL`, `EVENT_FLAG_ALTERNATE`,
/// `EVENT_FLAG_COMMAND` or `EVENT_FLAG_FUNCTION`. So a modifier key pressed
/// alone, with only its own flag set, stands for the bare key.
pub proof fn lemma_flags_changed_leaves_out_own_flag(flags: u64)
    ensures
        spec_flags_changed_hotkey(0x38, flags) == Some(spec_new_hotkey(spec_event_modifiers(flags & !EVENT_FLAG_SHIFT) as u16, Code::ShiftLeft)),
        spec_flags_changed_hotkey(0x3C, flags) == Some(spec_new_hotkey(spec_event_modifiers(flags & !EVENT_FLAG_SHIFT) as u16, Code::ShiftRight)),
        spec_flags_changed_hotkey(0x3B, flags) == Some(spec_new_hotkey(spec_event_modifiers(flags & !EVENT_FLAG_CONTROL) as u16, Code::ControlLeft)),
        spec_flags_changed_hotkey(0x3E, flags) == Some(spec_new_hotkey(spec_event_modifiers(flags & !EVENT_FLAG_CONTROL) as u16, Code::ControlRight)),
        spec_flags_changed_hotkey(0x3A, flags) == Some(spec_new_hotkey(spec_event_modifiers(flags & !EVENT_FLAG_ALTERNATE) as u16, Code::AltLeft)),
        spec_flags_changed_hotkey(0x3D, flags) == Some(spec_new_hotkey(spec_event_modifiers(flags & !EVENT_FLAG_ALTERNATE) as u16, Code::AltRight)),
        spec_flags_changed_hotkey(0x37, flags) == Some(spec_new_hotkey(spec_event_modifiers(flags & !EVENT_FLAG_COMMAND) as u16, Code::MetaLeft)),
        spec_flags_changed_hotkey(0x36, flags) == Some(spec_new_hotkey(spec_event_modifiers(flags & !EVENT_FLAG_COMMAND) as u16, Code::MetaRight)),
        spec_flags_changed_hotkey(0x3F, flags) == Some(spec_new_hotkey(spec_event_modifiers(flags & !EVENT_FLAG_FUNCTION) as u16, Code::Fn)),
        spec_flags_changed_hotkey(0x38, EVENT_FLAG_SHIFT) == Some(spec_new_hotkey(0, Code::ShiftLeft)),
        spec_flags_changed_hotkey(0x3C, EVENT_FLAG_SHIFT) == Some(spec_new_hotkey(0, Code::ShiftRight)),
        spec_flags_changed_hotkey(0x3B, EVENT_FLAG_CONTROL) == Some(spec_new_hotkey(0, Code::ControlLeft)),
        spec_flags_changed_hotkey(0x3E, EVENT_FLAG_CONTROL) == Some(spec_new_hotkey(0, Code::ControlRight)),
        spec_flags_changed_hotkey(0x3A, EVENT_FLAG_ALTERNATE) == Some(spec_new_hotkey(0, Code::AltLeft)),
        spec_flags_changed_hotkey(0x3D, EVENT_FLAG_ALTERNATE) == Some(spec_new_hotkey(0, Code::AltRight)),
        spec_flags_changed_hotkey(0x37, EVENT_FLAG_COMMAND) == Some(spec_new_hotkey(0, Code::MetaLeft)),
        spec_flags_changed_hotkey(0x36, EVENT_FLAG_COMMAND) == Some(spec_new_hotkey(0, Code::MetaRight)),
        spec_flags_changed_hotkey(0x3F, EVENT_FLAG_FUNCTION) == Some(spec_new_hotkey(0, Code::Fn)),
{
    assert(
        (spec_event_modifiers(flags) as u16) & !0x0001u16 == spec_event_modifiers(flags & !0x0002_0000u64) as u16
        && (spec_event_modifiers(flags) as u16) & !0x0002u16 == spec_event_modifiers(flags & !0x0004_0000u64) as u16
        && (spec_event_modifiers(flags) as u16) & !0x0004u16 == spec_event_modifiers(flags & !0x0008_0000u64) as u16
        && (spec_event_modifiers(flags) as u16) & !0x0010u16 == spec_event_modifiers(flags & !0x0010_0000u64) as u16
        && (spec_event_modifiers(flags) as u16) & !0x0020u16 == spec_event_modifiers(flags & !0x0080_0000u64) as u16
    ) by (bit_vector);
    assert(
        (spec_event_modifiers(0x0002_0000u64) as u16) & !0x0001u16 == 0u16
        && (spec_event_modifiers(0x0004_0000u64) as u16) & !0x0002u16 == 0u16
        && (spec_event_modifiers(0x0008_0000u64) as u16) & !0x0004u16 == 0u16
        && (spec_event_modifiers(0x0010_0000u64) as u16) & !0x0010u16 == 0u16
        && (spec_event_modifiers(0x0080_0000u64) as u16) & !0x0020u16 == 0u16
    ) by (bit_vector);
}

/// The event tap watches exactly the five media keys, the eight
/// side-specific modifier keys and the Mac `fn` key; every other key is
/// Carbon's or cannot be registered.
pub proof fn lemma_event_tap_keys(code: Code)
    ensures
        spec_requires_event_tap(code) <==> (
            code == Code::MediaPlayPause || code == Code::MediaTrackNext || code == Code::MediaTrackPrevious
            || code == Code::MediaFastForward || code == Code::MediaRewind
            || code == Code::ShiftLeft || code == Code::ShiftRight || code == Code::ControlLeft || code == Code::ControlRight
            || code == Code::AltLeft || code == Code::AltRight || code == Code::MetaLeft || code == Code::MetaRight
            || code == Code::Fn
        ),
{
}

/// Every key that the event tap watches is one that it can report: a media
/// key that system-defined events carry, or a modifier key that
/// `FlagsChanged` events name by its virtual key code. And each of those is
/// watched through the event tap.
pub proof fn lemma_event_tap_keys_are_reported(code: Code)
    ensures
        spec_requires_event_tap(code) <==> (
            (exists|k: NX_KEYTYPE| #[trigger] k.spec_code() == code)
            || (exists|keycode: u16| #[trigger] spec_modifier_key_for_keycode(keycode) == Some(code))
        ),
{
    if exists|k: NX_KEYTYPE| #[trigger] k.spec_code() == code {
        let k = choose|k: NX_KEYTYPE| #[trigger] k.spec_code() == code;
        lemma_media_keys_use_event_tap(k);
    }
    if exists|keycode: u16| #[trigger] spec_modifier_key_for_keycode(keycode) == Some(code) {
        let keycode = choose|keycode: u16| #[trigger] spec_modifier_key_for_keycode(keycode) == Some(code);
        assert(spec_requires_event_tap(code));
    }
    if spec_requires_event_tap(code) {
        lemma_event_tap_keys(code);
        if code == Code::MediaPlayPause {
            assert(NX_KEYTYPE::Play.spec_code() == code);
        } else if code == Code::MediaTrackNext {
            assert(NX_KEYTYPE::Next.spec_code() == code);
        } else if code == Code::MediaTrackPrevious {
            assert(NX_KEYTYPE::Previous.spec_code() == code);
        } else if code == Code::MediaFastForward {
            assert(NX_KEYTYPE::Fast.spec_code() == code);
        } else if code == Code::MediaRewind {
            assert(NX_KEYTYPE::Rewind.spec_code() == code);
        } else if code == Code::ShiftLeft {
            assert(spec_modifier_key_for_keycode(0x38) == Some(code));
        } else if code == Code::ShiftRight {
            assert(spec_modifier_key_for_keycode(0x3C) == Some(code));
        } else if code == Code::ControlLeft {
            assert(spec_modifier_key_for_keycode(0x3B) == Some(code));
        } else if code == Code::ControlRight {
            assert(spec_modifier_key_for_keycode(0x3E) == Some(code));
        } else if code == Code::AltLeft {
            assert(spec_modifier_key_for_keycode(0x3A) == Some(code));
        } else if code == Code::AltRight {
            assert(spec_modifier_key_for_keycode(0x3D) == Some(code));
        } else if code == Code::MetaLeft {
            assert(spec_modifier_key_for_keycode(0x37) == Some(code));
        } else if code == Code::MetaRight {
            assert(spec_modifier_key_for_keycode(0x36) == Some(code));
        } else {
            assert(spec_modifier_key_for_keycode(0x3F) == Some(code));
        }
    }
}

/// The modifiers that an event's flags report: Shift where the flags hold
/// `0x0002_0000`, Control where they hold `0x0004_0000`, Alt where they hold
/// `0x0008_0000`, Command, as `META`, where they hold `0x0010_0000`, and `fn`
/// where they hold `0x0080_0000`; no other modifier.
pub proof fn lemma_event_flags_modifiers(flags: u64)
    ensures
        ((spec_event_modifiers(flags) as u16) & 0x0001u16 != 0) <==> flags & 0x0002_0000u64 != 0,
        ((spec_event_modifiers(flags) as u16) & 0x0002u16 != 0) <==> flags & 0x0004_0000u64 != 0,
        ((spec_event_modifiers(flags) as u16) & 0x0004u16 != 0) <==> flags & 0x0008_0000u64 != 0,
        ((spec_event_modifiers(flags) as u16) & 0x0010u16 != 0) <==> flags & 0x0010_0000u64 != 0,
        ((spec_event_modifiers(flags) as u16) & 0x0020u16 != 0) <==> flags & 0x0080_0000u64 != 0,
        (spec_event_modifiers(flags) as u16) & !0x0037u16 == 0,
{
    assert(
        (((spec_event_modifiers(flags) as u16) & 0x0001u16 != 0) <==> flags & 0x0002_0000u64 != 0)
        && (((spec_event_modifiers(flags) as u16) & 0x0002u16 != 0) <==> flags & 0x0004_0000u64 != 0)
        && (((spec_event_modifiers(flags) as u16) & 0x0004u16 != 0) <==> flags & 0x0008_0000u64 != 0)
        && (((spec_event_modifiers(flags) as u16) & 0x0010u16 != 0) <==> flags & 0x0010_0000u64 != 0)
        && (((spec_event_modifiers(flags) as u16) & 0x0020u16 != 0) <==> flags & 0x0080_0000u64 != 0)
        && (spec_event_modifiers(flags) as u16) & !0x0037u16 == 0
    ) by (bit_vector);
}

} // verus!

//! The hotkey manager: which hotkeys are registered with Carbon, whether the
//! event tap runs, and, step by step, what registering and unregistering a
//! hotkey asks of the system.
//!
//! The system calls themselves (Carbon's `RegisterEventHotKey`, the Core
//! Graphics event tap, the run loop) are made by the caller. Each operation
//! starts with a method that returns a step; the caller performs the step and
//! hands its outcome to the method that the step names, which returns the next
//! step, until a `Done` step carries the operation's result.

use vstd::prelude::*;
use vstd::std_specs::iter::IteratorSpec;
use std::collections::BTreeMap;
use crate::carbon::{carbon_modifiers, hotkey_signature, spec_carbon_modifiers, HOTKEY_SIGNATURE};
use crate::error::{result_view, Error, ErrorView};
use crate::hotkey::HotKey;
use crate::keymap::{
    fallback_scancode, key_to_scancode, requires_event_tap, spec_fallback_scancode,
    spec_key_to_scancode, spec_requires_event_tap,
};
use crate::media::MediaState;

verus! {


/// A hotkey registered with Carbon, with the reference that Carbon returned for it.
#[derive(Clone, Copy, Debug, PartialEq, Eq, Structural)]
pub struct HotKeyWrapper {
    /// Carbon's reference to the registration (an `EventHotKeyRef`, as an address).
    pub handle: u64,
    /// The hotkey.
    pub hotkey: HotKey,
}

/// The identity under which a hotkey is registered with Carbon (an `EventHotKeyID`).
#[derive(Clone, Copy, Debug, PartialEq, Eq, Structural)]
pub struct EventHotKeyId {
    /// The four-character signature of this library.
    pub signature: u32,
    /// The hotkey's id.
    pub id: u32,
}

/// What `RegisterEventHotKey` is called with.
#[derive(Clone, Copy, Debug, PartialEq, Eq, Structural)]
pub struct CarbonRegistration {
    /// The virtual key code of the main key.
    pub scan_code: u32,
    /// The Carbon modifier mask.
    pub modifiers: u32,
    /// The hotkey's identity.
    pub hotkey_id: EventHotKeyId,
}

/// The event tap and its run-loop source, to be released when watching stops.
#[derive(Clone, Copy, Debug, PartialEq, Eq, Structural)]
pub struct EventTapRelease {
    /// The run-loop source to remove from the main run loop and release, if any.
    pub source: Option<u64>,
    /// The event tap to invalidate and release, if any.
    pub tap: Option<u64>,
}

/// The next step of registering a hotkey.
#[derive(Debug)]
pub enum RegisterStep {
    /// Call `RegisterEventHotKey`; hand its reference (`None` on failure) to
    /// `GlobalHotKeyManager::carbon_registered`.
    RegisterWithCarbon(CarbonRegistration),
    /// Create the event tap; hand it (`None` on failure) to
    /// `GlobalHotKeyManager::event_tap_created`.
    CreateEventTap,
    /// Create a run-loop source for the event tap; hand it (`None` on
    /// failure) to `GlobalHotKeyManager::run_loop_source_created`.
    CreateRunLoopSource { tap: u64 },
    /// Add the source to the main run loop and enable the tap; registering
    /// has then succeeded.
    EnableEventTap { tap: u64, source: u64 },
    /// Invalidate and release the event tap, which cannot be used; then call
    /// `GlobalHotKeyManager::event_tap_released`.
    ReleaseEventTap { tap: u64 },
    /// The event tap cannot be had: call `RegisterEventHotKey` for the
    /// modifier key instead; hand its reference (`None` on failure) to
    /// `GlobalHotKeyManager::fallback_registered`.
    RegisterFallbackWithCarbon(CarbonRegistration),
    /// Registering is over, with this result.
    Done(Result<(), Error>),
}

/// A `RegisterStep` as a plain value.
pub enum RegisterStepView {
    RegisterWithCarbon(CarbonRegistration),
    CreateEventTap,
    CreateRunLoopSource { tap: u64 },
    EnableEventTap { tap: u64, source: u64 },
    ReleaseEventTap { tap: u64 },
    RegisterFallbackWithCarbon(CarbonRegistration),
    Done(Result<(), ErrorView>),
}

impl View for RegisterStep {
    type V = RegisterStepView;

    open spec fn view(&self) -> RegisterStepView {
        match self {
            RegisterStep::RegisterWithCarbon(r) => RegisterStepView::RegisterWithCarbon(*r),
            RegisterStep::CreateEventTap => RegisterStepView::CreateEventTap,
            RegisterStep::CreateRunLoopSource { tap } => RegisterStepView::CreateRunLoopSource { tap: *tap },
            RegisterStep::EnableEventTap { tap, source } => RegisterStepView::EnableEventTap { tap: *tap, source: *source },
            RegisterStep::ReleaseEventTap { tap } => RegisterStepView::ReleaseEventTap { tap: *tap },
            RegisterStep::RegisterFallbackWithCarbon(r) => RegisterStepView::RegisterFallbackWithCarbon(*r),
            RegisterStep::Done(r) => RegisterStepView::Done(result_view(*r)),
        }
    }
}

/// The next step of unregistering a hotkey.
#[derive(Debug)]
pub enum UnregisterStep {
    /// Call `UnregisterEventHotKey` with this reference; hand whether it
    /// succeeded to `GlobalHotKeyManager::carbon_unregistered`.
    UnregisterFromCarbon { handle: u64 },
    /// Stop watching: remove and release the run-loop source, invalidate and
    /// release the event tap, each where present; unregistering has then
    /// succeeded.
    StopWatching(EventTapRelease),
    /// Unregistering is over, with this result.
    Done(Result<(), Error>),
}

/// An `UnregisterStep` as a plain value.
pub enum UnregisterStepView {
    UnregisterFromCarbon { handle: u64 },
    StopWatching(EventTapRelease),
    Done(Result<(), ErrorView>),
}

impl View for UnregisterStep {
    type V = UnregisterStepView;

    open spec fn view(&self) -> UnregisterStepView {
        match self {
            UnregisterStep::UnregisterFromCarbon { handle } => UnregisterStepView::UnregisterFromCarbon { handle: *handle },
            UnregisterStep::StopWatching(r) => UnregisterStepView::StopWatching(*r),
            UnregisterStep::Done(r) => UnregisterStepView::Done(result_view(*r)),
        }
    }
}

/// What the manager and the event tap hold, as plain values.
pub struct Registry {
    /// The hotkeys registered with Carbon, by id.
    pub carbon: Map<u32, HotKeyWrapper>,
    /// The event tap, while there is one.
    pub event_tap: Option<u64>,
    /// The event tap's run-loop source, while there is one.
    pub event_tap_source: Option<u64>,
    /// The hotkeys that the event tap watches for.
    pub media: Set<HotKey>,
}

impl Registry {
    /// Whether the event tap runs, or is being set up.
    pub open spec fn is_watching(self) -> bool {
        self.event_tap is Some || self.event_tap_source is Some
    }

    /// Each Carbon registration is stored under its hotkey's id.
    pub open spec fn wf(self) -> bool {
        forall|id: u32| #[trigger] self.carbon.contains_key(id) ==> self.carbon[id].hotkey.spec_id() == id
    }
}

/// What `RegisterEventHotKey` is called with for `hotkey` under virtual key code `scan_code`.
pub open spec fn spec_carbon_registration(hotkey: HotKey, scan_code: u32) -> CarbonRegistration {
    CarbonRegistration {
        scan_code,
        modifiers: spec_carbon_modifiers(hotkey.mods@) as u32,
        hotkey_id: EventHotKeyId { signature: HOTKEY_SIGNATURE, id: hotkey.spec_id() },
    }
}

/// The message of a registration that fails because Carbon has no code for the key.
pub open spec fn unknown_scancode_message(hotkey: HotKey) -> Seq<char> {
    "Unknown scancode for "@ + hotkey.key.spec_name()
}

/// The message of a registration that Carbon refused.
pub open spec fn carbon_refused_message(hotkey: HotKey) -> Seq<char> {
    "RegisterEventHotKey failed for "@ + hotkey.key.spec_name()
}

/// The first step of registering `hotkey`: Carbon registers the keys that it
/// has a code for; the event tap watches media keys and side-specific
/// modifier keys, and is set up for the first of them; other keys fail.
pub open spec fn spec_register(s: Registry, hotkey: HotKey) -> (Registry, RegisterStepView) {
    match spec_key_to_scancode(hotkey.key) {
        Some(sc) => (s, RegisterStepView::RegisterWithCarbon(spec_carbon_registration(hotkey, sc))),
        None => if spec_requires_event_tap(hotkey.key) {
            if s.media.contains(hotkey) {
                (s, RegisterStepView::Done(Err(ErrorView::AlreadyRegistered(hotkey))))
            } else {
                let s1 = Registry { media: s.media.insert(hotkey), ..s };
                if s.is_watching() {
                    (s1, RegisterStepView::Done(Ok(())))
                } else {
                    (s1, RegisterStepView::CreateEventTap)
                }
            }
        } else {
            (s, RegisterStepView::Done(Err(ErrorView::FailedToRegister(unknown_scancode_message(hotkey)))))
        },
    }
}

/// Carbon registered `hotkey` (`handle` is its reference) or refused (`None`).
pub open spec fn spec_carbon_registered(s: Registry, hotkey: HotKey, handle: Option<u64>) -> (Registry, RegisterStepView) {
    match handle {
        Some(h) => (
            Registry { carbon: s.carbon.insert(hotkey.spec_id(), HotKeyWrapper { handle: h, hotkey }), ..s },
            RegisterStepView::Done(Ok(())),
        ),
        None => (s, RegisterStepView::Done(Err(ErrorView::FailedToRegister(carbon_refused_message(hotkey))))),
    }
}

/// The event tap cannot be had while registering `hotkey`: a modifier key
/// that Carbon has a code for is registered with Carbon instead, and no
/// longer watched for; other keys fail (and stay watched for).
pub open spec fn spec_watch_failed(s: Registry, hotkey: HotKey) -> (Registry, RegisterStepView) {
    match spec_fallback_scancode(hotkey.key) {
        Some(sc) => (
            Registry { media: s.media.remove(hotkey), ..s },
            RegisterStepView::RegisterFallbackWithCarbon(spec_carbon_registration(hotkey, sc)),
        ),
        None => (s, RegisterStepView::Done(Err(ErrorView::FailedToWatchMediaKeyEvent))),
    }
}

/// The event tap was created (`tap`) or could not be (`None`).
pub open spec fn spec_event_tap_created(s: Registry, hotkey: HotKey, tap: Option<u64>) -> (Registry, RegisterStepView) {
    match tap {
        Some(t) => (Registry { event_tap: Some(t), ..s }, RegisterStepView::CreateRunLoopSource { tap: t }),
        None => spec_watch_failed(s, hotkey),
    }
}

/// The run-loop source of event tap `tap` was created (`source`) or could not be (`None`).
pub open spec fn spec_run_loop_source_created(s: Registry, tap: u64, source: Option<u64>) -> (Registry, RegisterStepView) {
    match source {
        Some(src) => (
            Registry { event_tap_source: Some(src), ..s },
            RegisterStepView::EnableEventTap { tap, source: src },
        ),
        None => (Registry { event_tap: None, ..s }, RegisterStepView::ReleaseEventTap { tap }),
    }
}

/// Carbon registered the modifier key `hotkey` in place of the event tap
/// (`handle` is its reference) or refused (`None`).
pub open spec fn spec_fallback_registered(s: Registry, hotkey: HotKey, handle: Option<u64>) -> (Registry, RegisterStepView) {
    match handle {
        Some(h) => (
            Registry { carbon: s.carbon.insert(hotkey.spec_id(), HotKeyWrapper { handle: h, hotkey }), ..s },
            RegisterStepView::Done(Ok(())),
        ),
        None => (s, RegisterStepView::Done(Err(ErrorView::FailedToWatchMediaKeyEvent))),
    }
}

/// Stops watching: forgets the event tap and its source, which are to be released.
pub open spec fn spec_stop_watching(s: Registry) -> (Registry, EventTapRelease) {
    (
        Registry { event_tap: None, event_tap_source: None, ..s },
        EventTapRelease { source: s.event_tap_source, tap: s.event_tap },
    )
}

/// The first step of unregistering `hotkey`: a key of the event tap is no
/// longer watched for, and the tap stops when no hotkey is left to watch;
/// any other hotkey registered with Carbon is unregistered there; a hotkey
/// that is not registered is no error.
pub open spec fn spec_unregister(s: Registry, hotkey: HotKey) -> (Registry, UnregisterStepView) {
    if spec_requires_event_tap(hotkey.key) {
        let s1 = Registry { media: s.media.remove(hotkey), ..s };
        if s1.media.is_empty() {
            let (s2, release) = spec_stop_watching(s1);
            (s2, UnregisterStepView::StopWatching(release))
        } else {
            (s1, UnregisterStepView::Done(Ok(())))
        }
    } else if s.carbon.contains_key(hotkey.spec_id()) {
        (
            Registry { carbon: s.carbon.remove(hotkey.spec_id()), ..s },
            UnregisterStepView::UnregisterFromCarbon { handle: s.carbon[hotkey.spec_id()].handle },
        )
    } else {
        (s, UnregisterStepView::Done(Ok(())))
    }
}

/// Carbon unregistered `hotkey` (`ok`) or refused.
pub open spec fn spec_carbon_unregistered(hotkey: HotKey, ok: bool) -> UnregisterStepView {
    if ok {
        UnregisterStepView::Done(Ok(()))
    } else {
        UnregisterStepView::Done(Err(ErrorView::FailedToUnRegister(hotkey)))
    }
}

/// Whether a batch registers or unregisters its hotkeys.
#[derive(Clone, Copy, Debug, PartialEq, Eq, Structural)]
pub enum BatchOp {
    /// Register each hotkey.
    Register,
    /// Unregister each hotkey.
    Unregister,
}

/// A list of hotkeys to register, or to unregister, one after the other,
/// stopping at the first error.
pub struct Batch {
    op: BatchOp,
    hotkeys: Vec<HotKey>,
    next: usize,
}

/// The next step of a batch.
#[derive(Debug)]
pub enum BatchStep {
    /// Register this hotkey (starting with `GlobalHotKeyManager::register`),
    /// and hand the result to `Batch::next`.
    Register(HotKey),
    /// Unregister this hotkey (starting with `GlobalHotKeyManager::unregister`),
    /// and hand the result to `Batch::next`.
    Unregister(HotKey),
    /// The batch is over, with this result.
    Done(Result<(), Error>),
}

/// A `BatchStep` as a plain value.
pub enum BatchStepView {
    Register(HotKey),
    Unregister(HotKey),
    Done(Result<(), ErrorView>),
}

impl View for BatchStep {
    type V = BatchStepView;

    open spec fn view(&self) -> BatchStepView {
        match self {
            BatchStep::Register(h) => BatchStepView::Register(*h),
            BatchStep::Unregister(h) => BatchStepView::Unregister(*h),
            BatchStep::Done(r) => BatchStepView::Done(result_view(*r)),
        }
    }
}

/// What a batch does next: after an error, it stops with that error; else
/// it hands out the first of the hotkeys still to do, or stops with success
/// where none is left.
pub open spec fn spec_batch_next(op: BatchOp, pending: Seq<HotKey>, previous: Result<(), ErrorView>) -> (Seq<HotKey>, BatchStepView) {
    match previous {
        Err(e) => (pending, BatchStepView::Done(Err(e))),
        Ok(()) => if pending.len() == 0 {
            (pending, BatchStepView::Done(Ok(())))
        } else {
            (
                pending.drop_first(),
                match op {
                    BatchOp::Register => BatchStepView::Register(pending[0]),
                    BatchOp::Unregister => BatchStepView::Unregister(pending[0]),
                },
            )
        },
    }
}

impl Batch {
    /// Whether the batch registers or unregisters.
    pub closed spec fn spec_op(&self) -> BatchOp {
        self.op
    }

    /// The hotkeys still to do, in order.
    pub closed spec fn pending(&self) -> Seq<HotKey> {
        self.hotkeys@.skip(self.next as int)
    }

    /// The batch's internal positions agree.
    pub closed spec fn wf(&self) -> bool {
        self.next <= self.hotkeys@.len()
    }

    /// A batch that does `op` to each of `hotkeys`, in order.
    pub fn new(op: BatchOp, hotkeys: &[HotKey]) -> (r: Batch)
        ensures
            r.wf(),
            r.spec_op() == op,
            r.pending() == hotkeys@,
    {
        let mut v: Vec<HotKey> = Vec::new();
        let mut i: usize = 0;
        while i < hotkeys.len()
            invariant
                i <= hotkeys@.len(),
                v@ == hotkeys@.take(i as int),
            decreases hotkeys@.len() - i,
        {
            v.push(hotkeys[i]);
            i = i + 1;
            assert(v@ =~= hotkeys@.take(i as int));
        }
        assert(v@.skip(0) =~= hotkeys@);
        Batch { op, hotkeys: v, next: 0 }
    }

    /// The next step, given the result of the previous one (`Ok(())` to start).
    pub fn next(&mut self, previous: Result<(), Error>) -> (r: BatchStep)
        requires
            old(self).wf(),
        ensures
            final(self).wf(),
            final(self).spec_op() == old(self).spec_op(),
            (final(self).pending(), r@) == spec_batch_next(old(self).spec_op(), old(self).pending(), result_view(previous)),
    {
        match previous {
            Err(e) => BatchStep::Done(Err(e)),
            Ok(()) => if self.next < self.hotkeys.len() {
                let h = self.hotkeys[self.next];
                self.next = self.next + 1;
                assert(final(self).pending() =~= old(self).pending().drop_first());
                match self.op {
                    BatchOp::Register => BatchStep::Register(h),
                    BatchOp::Unregister => BatchStep::Unregister(h),
                }
            } else {
                BatchStep::Done(Ok(()))
            },
        }
    }
}

/// Keys in increasing order are strictly increasing.
proof fn lemma_increasing_keys(keys: Seq<u32>, i: int, j: int)
    requires
        vstd::std_specs::btree::increasing_seq(keys),
        0 <= i < j < keys.len(),
    ensures
        keys[i] < keys[j],
{
    assert(vstd::std_specs::cmp::OrdSpec::cmp_spec(&keys[i], &keys[j]) is Less);
}

/// Registers hotkeys with Carbon and keeps the event tap for the keys that
/// Carbon cannot register.
pub struct GlobalHotKeyManager {
    event_handler: u64,
    hotkeys: BTreeMap<u32, HotKeyWrapper>,
    event_tap: Option<u64>,
    event_tap_source: Option<u64>,
}

impl GlobalHotKeyManager {
    /// The installed Carbon event handler (an `EventHandlerRef`, as an address).
    pub closed spec fn spec_event_handler(&self) -> u64 {
        self.event_handler
    }

    /// The hotkeys registered with Carbon, by id.
    pub closed spec fn spec_carbon(&self) -> Map<u32, HotKeyWrapper> {
        self.hotkeys@
    }

    /// The event tap, while there is one.
    pub closed spec fn spec_event_tap(&self) -> Option<u64> {
        self.event_tap
    }

    /// The event tap's run-loop source, while there is one.
    pub closed spec fn spec_event_tap_source(&self) -> Option<u64> {
        self.event_tap_source
    }

    /// What the manager holds, with `media` the hotkeys that the event tap watches for.
    pub open spec fn registry_with(&self, media: Set<HotKey>) -> Registry {
        Registry {
            carbon: self.spec_carbon(),
            event_tap: self.spec_event_tap(),
            event_tap_source: self.spec_event_tap_source(),
            media,
        }
    }

    /// What the manager and the event tap `media` hold.
    pub open spec fn registry(&self, media: &MediaState) -> Registry {
        self.registry_with(media.registered())
    }

    /// Each Carbon registration is stored under its hotkey's id.
    pub open spec fn wf(&self) -> bool {
        forall|id: u32| #[trigger] self.spec_carbon().contains_key(id) ==> self.spec_carbon()[id].hotkey.spec_id() == id
    }

    /// A manager for the Carbon event handler that was installed (its
    /// reference), or an `OsError` with the system's code where installing
    /// it failed.
    pub fn new(installed: Result<u64, i32>) -> (r: Result<GlobalHotKeyManager, Error>)
        ensures
            match installed {
                Ok(handler) => r matches Ok(m) && {
                    &&& m.wf()
                    &&& m.spec_event_handler() == handler
                    &&& m.spec_carbon() == Map::<u32, HotKeyWrapper>::empty()
                    &&& m.spec_event_tap() is None
                    &&& m.spec_event_tap_source() is None
                },
                Err(code) => r matches Err(e) && e@ == ErrorView::OsError(code),
            },
    {
        match installed {
            Ok(handler) => Ok(GlobalHotKeyManager {
                event_handler: handler,
                hotkeys: BTreeMap::new(),
                event_tap: None,
                event_tap_source: None,
            }),
            Err(code) => Err(Error::OsError(code)),
        }
    }

    /// The installed Carbon event handler.
    pub fn event_handler(&self) -> (r: u64)
        ensures
            r == self.spec_event_handler(),
    {
        self.event_handler
    }

    /// The Carbon registration of `hotkey`.
    fn carbon_registration(hotkey: &HotKey, scan_code: u32) -> (r: CarbonRegistration)
        ensures
            r == spec_carbon_registration(*hotkey, scan_code),
    {
        CarbonRegistration {
            scan_code,
            modifiers: carbon_modifiers(hotkey.mods),
            hotkey_id: EventHotKeyId { signature: hotkey_signature(), id: hotkey.id() },
        }
    }

    /// Starts registering `hotkey`, with `media` the event tap's state.
    pub fn register(&self, media: &mut MediaState, hotkey: HotKey) -> (r: RegisterStep)
        requires
            old(media).wf(),
        ensures
            final(media).wf(),
            final(media).pressed() == old(media).pressed(),
            (self.registry(final(media)), r@) == spec_register(self.registry(old(media)), hotkey),
    {
        if let Some(scan_code) = key_to_scancode(hotkey.key) {
            RegisterStep::RegisterWithCarbon(Self::carbon_registration(&hotkey, scan_code))
        } else if requires_event_tap(hotkey.key) {
            if !media.insert(hotkey) {
                assert(old(media).registered().insert(hotkey) =~= old(media).registered());
                return RegisterStep::Done(Err(Error::AlreadyRegistered(hotkey)));
            }
            if self.event_tap.is_some() || self.event_tap_source.is_some() {
                RegisterStep::Done(Ok(()))
            } else {
                RegisterStep::CreateEventTap
            }
        } else {
            let mut msg = String::from_str("Unknown scancode for ");
            msg.append(hotkey.key.name());
            RegisterStep::Done(Err(Error::FailedToRegister(msg)))
        }
    }

    /// Carbon registered `hotkey` under reference `handle`, or refused (`None`).
    pub fn carbon_registered(&mut self, hotkey: HotKey, handle: Option<u64>) -> (r: RegisterStep)
        requires
            old(self).wf(),
        ensures
            final(self).wf(),
            final(self).spec_event_handler() == old(self).spec_event_handler(),
            forall|media: Set<HotKey>|
                #![trigger old(self).registry_with(media)]
                (final(self).registry_with(media), r@) == spec_carbon_registered(old(self).registry_with(media), hotkey, handle),
    {
        match handle {
            Some(h) => {
                self.hotkeys.insert(hotkey.id(), HotKeyWrapper { handle: h, hotkey });
                RegisterStep::Done(Ok(()))
            },
            None => {
                let mut msg = String::from_str("RegisterEventHotKey failed for ");
                msg.append(hotkey.key.name());
                RegisterStep::Done(Err(Error::FailedToRegister(msg)))
            },
        }
    }

    /// The event tap cannot be had while registering `hotkey`.
    fn watch_failed(&self, media: &mut MediaState, hotkey: HotKey) -> (r: RegisterStep)
        requires
            old(media).wf(),
        ensures
            final(media).wf(),
            final(media).pressed() == old(media).pressed(),
            (self.registry(final(media)), r@) == spec_watch_failed(self.registry(old(media)), hotkey),
    {
        match fallback_scancode(hotkey.key) {
            Some(scan_code) => {
                media.remove(&hotkey);
                RegisterStep::RegisterFallbackWithCarbon(Self::carbon_registration(&hotkey, scan_code))
            },
            None => RegisterStep::Done(Err(Error::FailedToWatchMediaKeyEvent)),
        }
    }

    /// The event tap was created (`tap`), or could not be (`None`), while registering `hotkey`.
    pub fn event_tap_created(&mut self, media: &mut MediaState, hotkey: HotKey, tap: Option<u64>) -> (r: RegisterStep)
        requires
            old(self).wf(),
            old(media).wf(),
        ensures
            final(self).wf(),
            final(media).wf(),
            final(self).spec_event_handler() == old(self).spec_event_handler(),
            final(media).pressed() == old(media).pressed(),
            (final(self).registry(final(media)), r@) == spec_event_tap_created(old(self).registry(old(media)), hotkey, tap),
    {
        match tap {
            Some(t) => {
                self.event_tap = Some(t);
                RegisterStep::CreateRunLoopSource { tap: t }
            },
            None => self.watch_failed(media, hotkey),
        }
    }

    /// The run-loop source of event tap `tap` was created (`source`), or could not be (`None`).
    pub fn run_loop_source_created(&mut self, tap: u64, source: Option<u64>) -> (r: RegisterStep)
        requires
            old(self).wf(),
        ensures
            final(self).wf(),
            final(self).spec_event_handler() == old(self).spec_event_handler(),
            forall|media: Set<HotKey>|
                #![trigger old(self).registry_with(media)]
                (final(self).registry_with(media), r@) == spec_run_loop_source_created(old(self).registry_with(media), tap, source),
    {
        match source {
            Some(s) => {
                self.event_tap_source = Some(s);
                RegisterStep::EnableEventTap { tap, source: s }
            },
            None => {
                self.event_tap = None;
                RegisterStep::ReleaseEventTap { tap }
            },
        }
    }

    /// The unusable event tap was released while registering `hotkey`.
    pub fn event_tap_released(&self, media: &mut MediaState, hotkey: HotKey) -> (r: RegisterStep)
        requires
            old(media).wf(),
        ensures
            final(media).wf(),
            final(media).pressed() == old(media).pressed(),
            (self.registry(final(media)), r@) == spec_watch_failed(self.registry(old(media)), hotkey),
    {
        self.watch_failed(media, hotkey)
    }

    /// Carbon registered the modifier key `hotkey` in place of the event tap,
    /// under reference `handle`, or refused (`None`).
    pub fn fallback_registered(&mut self, hotkey: HotKey, handle: Option<u64>) -> (r: RegisterStep)
        requires
            old(self).wf(),
        ensures
            final(self).wf(),
            final(self).spec_event_handler() == old(self).spec_event_handler(),
            forall|media: Set<HotKey>|
                #![trigger old(self).registry_with(media)]
                (final(self).registry_with(media), r@) == spec_fallback_registered(old(self).registry_with(media), hotkey, handle),
    {
        match handle {
            Some(h) => {
                self.hotkeys.insert(hotkey.id(), HotKeyWrapper { handle: h, hotkey });
                RegisterStep::Done(Ok(()))
            },
            None => RegisterStep::Done(Err(Error::FailedToWatchMediaKeyEvent)),
        }
    }

    /// Forgets the event tap and its run-loop source, and returns them for release.
    pub fn stop_watching_media_keys(&mut self) -> (r: EventTapRelease)
        requires
            old(self).wf(),
        ensures
            final(self).wf(),
            final(self).spec_event_handler() == old(self).spec_event_handler(),
            forall|media: Set<HotKey>|
                #![trigger old(self).registry_with(media)]
                (final(self).registry_with(media), r) == spec_stop_watching(old(self).registry_with(media)),
    {
        let source = self.event_tap_source.take();
        let tap = self.event_tap.take();
        EventTapRelease { source, tap }
    }

    /// Starts unregistering `hotkey`, with `media` the event tap's state.
    pub fn unregister(&mut self, media: &mut MediaState, hotkey: HotKey) -> (r: UnregisterStep)
        requires
            old(self).wf(),
            old(media).wf(),
        ensures
            final(self).wf(),
            final(media).wf(),
            final(self).spec_event_handler() == old(self).spec_event_handler(),
            final(media).pressed() == old(media).pressed(),
            (final(self).registry(final(media)), r@) == spec_unregister(old(self).registry(old(media)), hotkey),
    {
        if requires_event_tap(hotkey.key) {
            media.remove(&hotkey);
            if media.is_empty() {
                let release = self.stop_watching_media_keys();
                UnregisterStep::StopWatching(release)
            } else {
                UnregisterStep::Done(Ok(()))
            }
        } else {
            let id = hotkey.id();
            match self.hotkeys.remove(&id) {
                Some(wrapper) => {
                    assert(old(self).spec_carbon().contains_key(id));
                    assert(wrapper == old(self).spec_carbon()[id]);
                    assert(final(self).spec_carbon() == old(self).spec_carbon().remove(id));
                    UnregisterStep::UnregisterFromCarbon { handle: wrapper.handle }
                },
                None => {
                    assert(!old(self).spec_carbon().contains_key(id));
                    assert(final(self).spec_carbon() =~= old(self).spec_carbon());
                    UnregisterStep::Done(Ok(()))
                },
            }
        }
    }

    /// A batch that registers each of `hotkeys` in turn, stopping at the first error.
    pub fn register_all(&self, hotkeys: &[HotKey]) -> (r: Batch)
        ensures
            r.wf(),
            r.spec_op() == BatchOp::Register,
            r.pending() == hotkeys@,
    {
        Batch::new(BatchOp::Register, hotkeys)
    }

    /// A batch that unregisters each of `hotkeys` in turn, stopping at the first error.
    pub fn unregister_all(&self, hotkeys: &[HotKey]) -> (r: Batch)
        ensures
            r.wf(),
            r.spec_op() == BatchOp::Unregister,
            r.pending() == hotkeys@,
    {
        Batch::new(BatchOp::Unregister, hotkeys)
    }

    /// The hotkeys registered with Carbon, in the order of their ids.
    pub fn registered_hotkeys(&self) -> (r: Vec<HotKey>)
        requires
            self.wf(),
        ensures
            r@.len() == self.spec_carbon().len(),
            forall|i: int, j: int| 0 <= i < j < r@.len() ==> r@[i].spec_id() < r@[j].spec_id(),
            forall|h: HotKey| r@.contains(h) <==> exists|id: u32| #[trigger] self.spec_carbon().contains_key(id) && self.spec_carbon()[id].hotkey == h,
    {
        let mut r: Vec<HotKey> = Vec::new();
        let values = self.hotkeys.values();
        let ghost m = self.hotkeys@;
        let ghost keys: Seq<u32> = choose|key_seq: Seq<u32>|
            {
                &&& key_seq.to_set() == m.dom()
                &&& key_seq.no_duplicates()
                &&& vstd::std_specs::btree::increasing_seq(key_seq)
                &&& IteratorSpec::remaining(&values) == key_seq.map(|i: int, k: u32| &m[k])
            };
        let ghost vs = IteratorSpec::remaining(&values);
        for w in it: values
            invariant
                it.seq() == vs,
                vs == keys.map(|i: int, k: u32| &m[k]),
                r@ == vs.take(it.index() as int).map_values(|x: &HotKeyWrapper| x.hotkey),
        {
            r.push(w.hotkey);
            assert(r@ =~= vs.take(it.index() as int + 1).map_values(|x: &HotKeyWrapper| x.hotkey));
        }
        proof {
            assert(vs.take(vs.len() as int) =~= vs);
            assert forall|i: int, j: int| 0 <= i < j < r@.len() implies r@[i].spec_id() < r@[j].spec_id() by {
                lemma_increasing_keys(keys, i, j);
                assert(keys.to_set().contains(keys[i]));
                assert(keys.to_set().contains(keys[j]));
                assert(r@[i] == m[keys[i]].hotkey);
                assert(r@[j] == m[keys[j]].hotkey);
            }
            assert forall|h: HotKey| r@.contains(h) <==> exists|id: u32| #[trigger] m.contains_key(id) && m[id].hotkey == h by {
                if r@.contains(h) {
                    let i = choose|i: int| 0 <= i < r@.len() && r@[i] == h;
                    assert(keys.to_set().contains(keys[i]));
                    assert(m.contains_key(keys[i]) && m[keys[i]].hotkey == h);
                }
                if exists|id: u32| #[trigger] m.contains_key(id) && m[id].hotkey == h {
                    let id = choose|id: u32| #[trigger] m.contains_key(id) && m[id].hotkey == h;
                    assert(keys.to_set().contains(id));
                    let i = choose|i: int| 0 <= i < keys.len() && keys[i] == id;
                    assert(r@[i] == h);
                }
            }
        }
        r
    }

    /// Carbon unregistered `hotkey` (`ok`) or refused.
    pub fn carbon_unregistered(hotkey: HotKey, ok: bool) -> (r: UnregisterStep)
        ensures
            r@ == spec_carbon_unregistered(hotkey, ok),
    {
        if ok {
            UnregisterStep::Done(Ok(()))
        } else {
            UnregisterStep::Done(Err(Error::FailedToUnRegister(hotkey)))
        }
    }
}

} // verus!

//! Global hotkeys: shortcuts that work even when the window is not focused.
//!
//! The system does the registering. What is to be registered, what became of it and
//! what the system's reports mean is decided here.

use vstd::prelude::*;

use std::collections::HashMap;

use crate::keys::{named_code, Code};
use crate::portal_hotkeys::{PortalShortcutState, ShortcutData, ShortcutInfo};
use crate::settings::{HotkeyBinding, HotkeyModifiers, KeyboardSettings};
use crate::text::{lowercase, same_text, to_lowercase};

verus! {

broadcast use vstd::std_specs::hash::group_hash_axioms;

/// Hotkey action types.
#[derive(Debug, Clone, Copy, PartialEq, Eq, Structural)]
pub enum HotkeyAction {
    PushToTalk,
    ToggleMute,
    ToggleDeafen,
}

/// Registration status for a hotkey action.
#[derive(Debug, Clone, Copy, PartialEq, Eq, Structural)]
pub enum HotkeyRegistrationStatus {
    /// Hotkey registered successfully.
    Registered,
    /// Registration failed.
    Failed,
    /// No binding configured for this action.
    NotConfigured,
}

/// Result of checking for hotkey events.
#[derive(Debug, Clone, Copy, PartialEq, Eq, Structural)]
pub enum HotkeyEvent {
    /// PTT key was pressed.
    PttPressed,
    /// PTT key was released.
    PttReleased,
    /// Toggle mute was pressed.
    ToggleMute,
    /// Toggle deafen was pressed.
    ToggleDeafen,
}

/// A hotkey as it is handed to the system: modifiers, where there are any, and a key.
#[derive(Debug, Clone, Copy, PartialEq, Eq, Structural)]
pub struct HotKey {
    pub modifiers: Option<HotkeyModifiers>,
    pub code: Code,
}

/// The modifiers as they are handed to the system: none at all in place of an empty set.
pub open spec fn global_modifiers(mods: HotkeyModifiers) -> Option<HotkeyModifiers> {
    if mods.none() {
        None
    } else {
        Some(mods)
    }
}

/// The hotkey that a binding stands for, if its key is known.
pub open spec fn hotkey_of(binding: HotkeyBinding) -> Option<HotKey> {
    match named_code(lowercase(binding.key@)) {
        Some(code) => Some(HotKey { modifiers: global_modifiers(binding.modifiers), code }),
        None => None,
    }
}

impl HotkeyManager {
    /// The modifiers as they are handed to the system.
    pub fn modifiers_to_global(mods: &HotkeyModifiers) -> (global: Option<HotkeyModifiers>)
        ensures
            global == global_modifiers(*mods),
    {
        if mods.ctrl || mods.shift || mods.alt || mods.super_key {
            Some(*mods)
        } else {
            None
        }
    }
}

impl HotkeyManager {
    /// The hotkey that a binding stands for.
    pub fn binding_to_hotkey(binding: &HotkeyBinding) -> (hotkey: Result<HotKey, String>)
        ensures
            match hotkey {
                Ok(inner) => hotkey_of(*binding) == Some(inner),
                Err(message) => hotkey_of(*binding) is None && message@ == "Unknown key: "@
                    + binding.key@,
            },
    {
        let modifiers = HotkeyManager::modifiers_to_global(&binding.modifiers);
        match HotkeyManager::key_string_to_code(binding.key.as_str()) {
            Ok(code) => Ok(HotKey { modifiers, code }),
            Err(message) => Err(message),
        }
    }
}

/// What is to be done about the hotkey of one action.
#[derive(Debug, Clone, Copy, PartialEq, Eq, Structural)]
pub enum Request {
    /// Nothing: no key is bound, or hotkeys are not in use.
    Skip,
    /// Nothing: the key that is bound is not known.
    Invalid,
    /// The system is asked to register this hotkey.
    Register(HotKey),
}

/// What is to be done about the three hotkeys, in this order.
#[derive(Debug, Clone, Copy, PartialEq, Eq, Structural)]
pub struct Plan {
    pub ptt: Request,
    pub mute: Request,
    pub deafen: Request,
}

/// What the system answered where it was asked: the number it gave to the hotkey,
/// or nothing where it refused.
#[derive(Debug, Clone, Copy, PartialEq, Eq, Structural)]
pub struct Answers {
    pub ptt: Option<u32>,
    pub mute: Option<u32>,
    pub deafen: Option<u32>,
}

/// The registration status of the three actions.
#[derive(Debug, Clone, Copy, PartialEq, Eq, Structural)]
pub struct Statuses {
    pub ptt: HotkeyRegistrationStatus,
    pub mute: HotkeyRegistrationStatus,
    pub deafen: HotkeyRegistrationStatus,
}

impl Statuses {
    /// The status of an action.
    pub open spec fn of(self, action: HotkeyAction) -> HotkeyRegistrationStatus {
        match action {
            HotkeyAction::PushToTalk => self.ptt,
            HotkeyAction::ToggleMute => self.mute,
            HotkeyAction::ToggleDeafen => self.deafen,
        }
    }
}

/// The request for one binding.
pub open spec fn request_for(binding: Option<HotkeyBinding>) -> Request {
    match binding {
        None => Request::Skip,
        Some(inner) => match hotkey_of(inner) {
            Some(hotkey) => Request::Register(hotkey),
            None => Request::Invalid,
        },
    }
}

/// The status of an action after its request was dealt with.
pub open spec fn status_after(request: Request, answer: Option<u32>) -> HotkeyRegistrationStatus {
    match request {
        Request::Skip => HotkeyRegistrationStatus::NotConfigured,
        Request::Invalid => HotkeyRegistrationStatus::Failed,
        Request::Register(_) => if answer is Some {
            HotkeyRegistrationStatus::Registered
        } else {
            HotkeyRegistrationStatus::Failed
        },
    }
}

/// The actions by the numbers of their hotkeys, with one more of them registered.
pub open spec fn with_answer(
    actions: Map<u32, HotkeyAction>,
    request: Request,
    answer: Option<u32>,
    action: HotkeyAction,
) -> Map<u32, HotkeyAction> {
    if request is Register && answer is Some {
        actions.insert(answer->0, action)
    } else {
        actions
    }
}

/// The actions by the numbers of their hotkeys, once the plan was carried out.
pub open spec fn actions_after(plan: Plan, answers: Answers) -> Map<u32, HotkeyAction> {
    with_answer(
        with_answer(
            with_answer(Map::empty(), plan.ptt, answers.ptt, HotkeyAction::PushToTalk),
            plan.mute,
            answers.mute,
            HotkeyAction::ToggleMute,
        ),
        plan.deafen,
        answers.deafen,
        HotkeyAction::ToggleDeafen,
    )
}

/// What a key going down or up means for an action.
pub open spec fn event_of(action: HotkeyAction, pressed: bool) -> Option<HotkeyEvent> {
    match action {
        HotkeyAction::PushToTalk => Some(
            if pressed {
                HotkeyEvent::PttPressed
            } else {
                HotkeyEvent::PttReleased
            },
        ),
        HotkeyAction::ToggleMute => if pressed {
            Some(HotkeyEvent::ToggleMute)
        } else {
            None
        },
        HotkeyAction::ToggleDeafen => if pressed {
            Some(HotkeyEvent::ToggleDeafen)
        } else {
            None
        },
    }
}

/// What a key going down or up means for an action.
pub fn action_event(action: HotkeyAction, pressed: bool) -> (event: Option<HotkeyEvent>)
    ensures
        event == event_of(action, pressed),
{
    match action {
        HotkeyAction::PushToTalk => if pressed {
            Some(HotkeyEvent::PttPressed)
        } else {
            Some(HotkeyEvent::PttReleased)
        },
        HotkeyAction::ToggleMute => if pressed {
            Some(HotkeyEvent::ToggleMute)
        } else {
            None
        },
        HotkeyAction::ToggleDeafen => if pressed {
            Some(HotkeyEvent::ToggleDeafen)
        } else {
            None
        },
    }
}

/// What one report of the system means.
pub open spec fn event_of_report(
    actions: Map<u32, HotkeyAction>,
    report: (u32, bool),
) -> Option<HotkeyEvent> {
    if actions.dom().contains(report.0) {
        event_of(actions[report.0], report.1)
    } else {
        None
    }
}

/// What the reports of the system mean, in their order.
pub open spec fn events_of(
    actions: Map<u32, HotkeyAction>,
    reports: Seq<(u32, bool)>,
) -> Seq<HotkeyEvent>
    decreases reports.len(),
{
    if reports.len() == 0 {
        Seq::empty()
    } else {
        let before = events_of(actions, reports.drop_last());
        match event_of_report(actions, reports.last()) {
            Some(event) => before.push(event),
            None => before,
        }
    }
}

/// Keeps which hotkeys are registered and what they do.
pub struct HotkeyManager {
    available: bool,
    hotkey_actions: HashMap<u32, HotkeyAction>,
    registered_hotkeys: Vec<HotKey>,
    registration_status: Option<Statuses>,
    is_wayland: bool,
    init_failed: bool,
    portal_backend: Option<PortalShortcutState>,
}

/// What a hotkey manager holds.
pub ghost struct ManagerData {
    /// Whether the system takes hotkeys from this program.
    pub available: bool,
    /// The action of each hotkey, by the number that the system gave it.
    pub actions: Map<u32, HotkeyAction>,
    /// The hotkeys that are registered, in the order in which they were.
    pub registered: Seq<HotKey>,
    /// What became of the last registration, once there was one.
    pub status: Option<Statuses>,
    pub is_wayland: bool,
    pub init_failed: bool,
    /// The shortcuts that the desktop's portal has bound, where it is in use.
    pub portal: Option<Seq<ShortcutData>>,
}

/// The shortcuts of a portal, where it is in use.
pub open spec fn portal_view(portal: Option<PortalShortcutState>) -> Option<Seq<ShortcutData>> {
    match portal {
        Some(state) => Some(state@),
        None => None,
    }
}

impl View for HotkeyManager {
    type V = ManagerData;

    closed spec fn view(&self) -> ManagerData {
        ManagerData {
            available: self.available,
            actions: self.hotkey_actions@,
            registered: self.registered_hotkeys@,
            status: self.registration_status,
            is_wayland: self.is_wayland,
            init_failed: self.init_failed,
            portal: portal_view(self.portal_backend),
        }
    }
}

/// Whether a session type is that of Wayland, in capitals or not.
pub open spec fn names_wayland(session_type: Option<Seq<char>>) -> bool {
    session_type matches Some(name) && lowercase(name) == "wayland"@
}

impl HotkeyManager {
    /// Whether a session type is that of Wayland, in capitals or not.
    pub fn detect_wayland(session_type: &Option<String>) -> (wayland: bool)
        ensures
            wayland == names_wayland(crate::text::optional_text(*session_type)),
    {
        match session_type {
            Some(name) => same_text(to_lowercase(name.as_str()).as_str(), "wayland"),
            None => false,
        }
    }
}

/// The hotkey of a request, where there is one to be registered.
pub open spec fn asked(request: Request, answer: Option<u32>) -> Seq<HotKey> {
    match request {
        Request::Register(hotkey) => if answer is Some {
            seq![hotkey]
        } else {
            Seq::empty()
        },
        _ => Seq::empty(),
    }
}

impl HotkeyManager {
    /// A manager of no hotkeys. Under Wayland the system takes none this way;
    /// elsewhere `created` says whether it does.
    pub fn new(is_wayland: bool, created: bool) -> (manager: Self)
        ensures
            manager@ == (ManagerData {
                available: !is_wayland && created,
                actions: Map::empty(),
                registered: Seq::empty(),
                status: None,
                is_wayland,
                init_failed: !is_wayland && !created,
                portal: None,
            }),
    {
        let manager = HotkeyManager {
            available: !is_wayland && created,
            hotkey_actions: HashMap::new(),
            registered_hotkeys: Vec::new(),
            registration_status: None,
            is_wayland,
            init_failed: !is_wayland && !created,
            portal_backend: None,
        };
        assert(manager.hotkey_actions@ =~= Map::<u32, HotkeyAction>::empty());
        assert(manager.registered_hotkeys@ =~= Seq::<HotKey>::empty());
        manager
    }

    /// Initialize the desktop's portal for global shortcuts, with what it has bound. Only
    /// under Wayland is it used.
    pub fn init_portal_backend(&mut self, backend: Option<PortalShortcutState>)
        ensures
            final(self)@ == if old(self)@.is_wayland && backend is Some {
                ManagerData { portal: portal_view(backend), ..old(self)@ }
            } else {
                old(self)@
            },
    {
        if self.is_wayland && backend.is_some() {
            self.portal_backend = backend;
        }
    }

    /// Check if portal-based shortcuts are available: the portal has bound some.
    pub fn has_portal_backend(&self) -> (available: bool)
        ensures
            available == (self@.portal is Some && (self@.portal->0).len() > 0),
    {
        match &self.portal_backend {
            Some(state) => state.is_available(),
            None => false,
        }
    }

    /// Get the current portal shortcut bindings.
    pub fn get_portal_shortcuts(&self) -> (shortcuts: Vec<ShortcutInfo>)
        ensures
            shortcuts@.map_values(|one: ShortcutInfo| one@) == match self@.portal {
                Some(list) => list,
                None => Seq::empty(),
            },
    {
        let mut shortcuts: Vec<ShortcutInfo> = Vec::new();
        if let Some(state) = &self.portal_backend {
            let mut i: usize = 0;
            while i < state.shortcuts.len()
                invariant
                    i <= state.shortcuts@.len(),
                    shortcuts@.len() == i,
                    forall|j: int|
                        0 <= j < i ==> (#[trigger] shortcuts@[j])@ == state.shortcuts@[j]@,
                decreases state.shortcuts@.len() - i,
            {
                shortcuts.push(state.shortcuts[i].clone());
                i += 1;
            }
            assert(shortcuts@.map_values(|one: ShortcutInfo| one@) =~= state@);
        } else {
            assert(shortcuts@.map_values(|one: ShortcutInfo| one@) =~= Seq::<
                ShortcutData,
            >::empty());
        }
        shortcuts
    }

    /// Get the registration status of the three actions, once there was a registration.
    pub fn registration_status_map(&self) -> (statuses: Option<Statuses>)
        ensures
            statuses == self@.status,
    {
        self.registration_status
    }

    /// Check if global hotkeys are available.
    pub fn is_available(&self) -> (available: bool)
        ensures
            available == self@.available,
    {
        self.available
    }

    /// Check if running on Wayland.
    pub fn is_wayland(&self) -> (wayland: bool)
        ensures
            wayland == self@.is_wayland,
    {
        self.is_wayland
    }

    /// Check if initialization failed (not due to Wayland).
    pub fn init_failed(&self) -> (failed: bool)
        ensures
            failed == self@.init_failed,
    {
        self.init_failed
    }

    /// Get the registration status for a given hotkey action.
    pub fn get_registration_status(&self, action: HotkeyAction) -> (status:
        HotkeyRegistrationStatus)
        ensures
            status == match self@.status {
                Some(statuses) => statuses.of(action),
                None => HotkeyRegistrationStatus::NotConfigured,
            },
    {
        match &self.registration_status {
            Some(statuses) => match action {
                HotkeyAction::PushToTalk => statuses.ptt,
                HotkeyAction::ToggleMute => statuses.mute,
                HotkeyAction::ToggleDeafen => statuses.deafen,
            },
            None => HotkeyRegistrationStatus::NotConfigured,
        }
    }

    /// Forgets every hotkey, and hands back those that the system is to unregister.
    pub fn unregister_all(&mut self) -> (hotkeys: Vec<HotKey>)
        ensures
            hotkeys@ == if old(self)@.available {
                old(self)@.registered
            } else {
                Seq::empty()
            },
            final(self)@ == (ManagerData {
                actions: Map::empty(),
                registered: Seq::empty(),
                ..old(self)@
            }),
    {
        let mut hotkeys: Vec<HotKey> = Vec::new();
        if self.available {
            let mut i: usize = 0;
            while i < self.registered_hotkeys.len()
                invariant
                    i <= self.registered_hotkeys@.len(),
                    hotkeys@ == self.registered_hotkeys@.take(i as int),
                    *self == *old(self),
                decreases self.registered_hotkeys@.len() - i,
            {
                hotkeys.push(self.registered_hotkeys[i]);
                assert(self.registered_hotkeys@.take(i + 1) =~= self.registered_hotkeys@.take(
                    i as int,
                ).push(self.registered_hotkeys@[i as int]));
                i += 1;
            }
            assert(hotkeys@ =~= self.registered_hotkeys@);
        }
        self.hotkey_actions = HashMap::new();
        self.registered_hotkeys = Vec::new();
        assert(self.hotkey_actions@ =~= Map::<u32, HotkeyAction>::empty());
        assert(self.registered_hotkeys@ =~= Seq::<HotKey>::empty());
        hotkeys
    }

    /// What is to be done about the three hotkeys under these settings.
    pub open spec fn plan_for(manager: ManagerData, settings: KeyboardSettings) -> Plan {
        if manager.available && settings.global_hotkeys_enabled {
            Plan {
                ptt: request_for(settings.ptt_hotkey),
                mute: request_for(settings.toggle_mute_hotkey),
                deafen: request_for(settings.toggle_deafen_hotkey),
            }
        } else {
            Plan { ptt: Request::Skip, mute: Request::Skip, deafen: Request::Skip }
        }
    }

    fn request(binding: &Option<HotkeyBinding>) -> (request: Request)
        ensures
            request == request_for(*binding),
    {
        match binding {
            None => Request::Skip,
            Some(inner) => match Self::binding_to_hotkey(inner) {
                Ok(hotkey) => Request::Register(hotkey),
                Err(_) => Request::Invalid,
            },
        }
    }

    /// What is to be done about the three hotkeys under these settings. Nothing is
    /// asked for where the system takes no hotkeys or they are switched off.
    pub fn plan_registration(&self, settings: &KeyboardSettings) -> (plan: Plan)
        ensures
            plan == HotkeyManager::plan_for(self@, *settings),
    {
        if !self.available || !settings.global_hotkeys_enabled {
            return Plan { ptt: Request::Skip, mute: Request::Skip, deafen: Request::Skip };
        }
        Plan {
            ptt: Self::request(&settings.ptt_hotkey),
            mute: Self::request(&settings.toggle_mute_hotkey),
            deafen: Self::request(&settings.toggle_deafen_hotkey),
        }
    }

    fn note_answer(
        &mut self,
        request: Request,
        answer: Option<u32>,
        action: HotkeyAction,
    ) -> (status: HotkeyRegistrationStatus)
        ensures
            status == status_after(request, answer),
            final(self)@ == (ManagerData {
                actions: with_answer(old(self)@.actions, request, answer, action),
                registered: old(self)@.registered + asked(request, answer),
                ..old(self)@
            }),
    {
        match request {
            Request::Skip => {
                assert(self@.registered =~= old(self)@.registered + asked(request, answer));
                HotkeyRegistrationStatus::NotConfigured
            },
            Request::Invalid => {
                assert(self@.registered =~= old(self)@.registered + asked(request, answer));
                HotkeyRegistrationStatus::Failed
            },
            Request::Register(hotkey) => match answer {
                Some(id) => {
                    let _ = self.hotkey_actions.insert(id, action);
                    self.registered_hotkeys.push(hotkey);
                    assert(self@.registered =~= old(self)@.registered + asked(request, answer));
                    HotkeyRegistrationStatus::Registered
                },
                None => {
                    assert(self@.registered =~= old(self)@.registered + asked(request, answer));
                    HotkeyRegistrationStatus::Failed
                },
            },
        }
    }

    /// Register hotkeys from settings: takes down what became of the plan for them.
    /// Every hotkey from before was unregistered first.
    pub fn register_from_settings(&mut self, settings: &KeyboardSettings, answers: Answers)
        ensures
            ({
                let plan = HotkeyManager::plan_for(old(self)@, *settings);
                final(self)@ == (ManagerData {
                    actions: actions_after(plan, answers),
                    registered: asked(plan.ptt, answers.ptt) + asked(plan.mute, answers.mute)
                        + asked(plan.deafen, answers.deafen),
                    status: Some(
                        Statuses {
                            ptt: status_after(plan.ptt, answers.ptt),
                            mute: status_after(plan.mute, answers.mute),
                            deafen: status_after(plan.deafen, answers.deafen),
                        },
                    ),
                    ..old(self)@
                })
            }),
    {
        let plan = self.plan_registration(settings);
        let _ = self.unregister_all();
        let ptt = self.note_answer(plan.ptt, answers.ptt, HotkeyAction::PushToTalk);
        let mute = self.note_answer(plan.mute, answers.mute, HotkeyAction::ToggleMute);
        let deafen = self.note_answer(plan.deafen, answers.deafen, HotkeyAction::ToggleDeafen);
        self.registration_status = Some(Statuses { ptt, mute, deafen });
        assert(self@.registered =~= asked(plan.ptt, answers.ptt) + asked(plan.mute, answers.mute)
            + asked(plan.deafen, answers.deafen));
    }

    /// The events since the last time: those of the portal, and then what the
    /// system's reports mean, each of which gives a hotkey's number and whether it
    /// was pressed or released.
    pub fn poll_events(&self, portal: Vec<HotkeyEvent>, reports: &Vec<(u32, bool)>) -> (events: Vec<
        HotkeyEvent,
    >)
        ensures
            events@ == portal@ + if self@.available {
                events_of(self@.actions, reports@)
            } else {
                Seq::empty()
            },
    {
        let mut events = portal;
        if !self.available {
            assert(events@ =~= portal@ + Seq::<HotkeyEvent>::empty());
            return events;
        }
        let mut i: usize = 0;
        assert(reports@.take(0) =~= Seq::<(u32, bool)>::empty());
        assert(portal@ + Seq::<HotkeyEvent>::empty() =~= portal@);
        while i < reports.len()
            invariant
                i <= reports@.len(),
                events@ == portal@ + events_of(self@.actions, reports@.take(i as int)),
            decreases reports@.len() - i,
        {
            let report: (u32, bool) = reports[i];
            assert(reports@.take(i + 1).drop_last() =~= reports@.take(i as int));
            let ghost before = events@;
            match self.hotkey_actions.get(&report.0) {
                Some(action) => match action_event(*action, report.1) {
                    Some(event) => {
                        events.push(event);
                        assert(events@ =~= portal@ + events_of(
                            self@.actions,
                            reports@.take(i as int),
                        ).push(event));
                    },
                    None => {},
                },
                None => {},
            }
            i += 1;
        }
        assert(reports@.take(i as int) =~= reports@);
        events
    }
}

/// A key that toggles something does so when it goes down, and not when it comes up.
pub proof fn toggles_act_on_press_alone(action: HotkeyAction)
    requires
        action != HotkeyAction::PushToTalk,
    ensures
        event_of(action, true) is Some,
        event_of(action, false) is None,
{
}

/// An action is registered exactly where its key has a number that leads to it,
/// unless the system gave one number to two hotkeys.
pub proof fn registered_keys_are_heard(plan: Plan, answers: Answers, action: HotkeyAction)
    requires
        answers.ptt is Some ==> answers.ptt != answers.mute && answers.ptt != answers.deafen,
        answers.mute is Some ==> answers.mute != answers.deafen,
    ensures
        ({
            let (request, answer) = match action {
                HotkeyAction::PushToTalk => (plan.ptt, answers.ptt),
                HotkeyAction::ToggleMute => (plan.mute, answers.mute),
                HotkeyAction::ToggleDeafen => (plan.deafen, answers.deafen),
            };
            let actions = actions_after(plan, answers);
            status_after(request, answer) == HotkeyRegistrationStatus::Registered <==> exists|
                id: u32,
            |
                #![trigger actions[id]]
                actions.dom().contains(id) && actions[id] == action
        }),
{
    let actions = actions_after(plan, answers);
    let (request, answer) = match action {
        HotkeyAction::PushToTalk => (plan.ptt, answers.ptt),
        HotkeyAction::ToggleMute => (plan.mute, answers.mute),
        HotkeyAction::ToggleDeafen => (plan.deafen, answers.deafen),
    };
    if status_after(request, answer) == HotkeyRegistrationStatus::Registered {
        let id = answer->0;
        assert(actions.dom().contains(id) && actions[id] == action);
    }
}

} // verus!

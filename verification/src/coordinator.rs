//! The coordinator: one state, and one handler for each kind of event.
//!
//! Every handler runs to its end before the next one starts. A handler never
//! talks to the device or to the keypad itself: it is given what was read,
//! changes the state, and returns what is to be sent. The caller performs
//! that, under the same exclusion, and for a switch of output reports back
//! whether the device took the configuration.

use vstd::prelude::*;

use crate::common::{grant_selection, granted, list_features, offered, FromInspector, ToInspector};
use crate::contexts::ContextSet;
use crate::device::{
    apply_configuration, apply_profile, control_feature, get_current_profile, selector_parameter,
    shown_profile, Configuration,
};
use crate::maps::{
    feature_entries, feature_map_new, listing_entries, lists_each_once, no_features, same_text,
    selection_entries, selection_eq, FeatureMap, Selection,
};
use crate::output::{output_of_code, output_of_value, Output};
use crate::profile::{CardSettings, Chosen, Features, ProfileView, SettingsView};
use crate::settings::{load, loaded_settings, prepare_for_save, saves_settings, SerdeCardSettings};
use crate::throttle::SaveThrottle;
use crate::value::ParamValue;

verus! {

/// The action that this coordinator serves.
pub open spec fn select_output_action() -> Seq<char> {
    "io.github.mdonoughe.sbzdeck.selectoutput"@
}

/// Tells whether `action` is the action that this coordinator serves.
pub fn is_select_output(action: &str) -> (ours: bool)
    ensures
        ours == (action@ == select_output_action()),
{
    same_text(action, "io.github.mdonoughe.sbzdeck.selectoutput")
}

/// A change that the device reports.
#[derive(Debug)]
pub enum ChangeEvent {
    /// A parameter of the device took a new value.
    SoundCore(SoundCoreChangeEvent),
    /// The endpoint volume changed, to the single precision number with these bits.
    Volume(u32),
}

/// A parameter of a feature, with its new value.
#[derive(Debug)]
pub struct SoundCoreChangeEvent {
    pub feature: String,
    pub parameter: String,
    pub value: ParamValue,
}

/// What the device's stream of notifications yields.
#[derive(Debug)]
pub enum Notification {
    /// A parameter of a feature changed; `value` is the value read back.
    ParamChange { feature: String, parameter: String, value: ParamValue },
    /// The endpoint volume or its mute switch changed.
    Volume { volume: u32, is_muted: bool },
    /// Anything else.
    Other,
}

impl ChangeEvent {
    /// The change that `notification` reports, if the coordinator is to hear of it.
    pub open spec fn reported_by(self, notification: Notification) -> bool {
        match notification {
            Notification::ParamChange { feature, parameter, value } => self
                == ChangeEvent::SoundCore(SoundCoreChangeEvent { feature, parameter, value }),
            Notification::Volume { volume, is_muted } => !is_muted && self == ChangeEvent::Volume(
                volume,
            ),
            Notification::Other => false,
        }
    }

    /// Picks out the notifications that the coordinator is to hear of: every
    /// change of a parameter, and every change of the volume that is not
    /// made while the endpoint is muted.
    pub fn from_notification(notification: Notification) -> (event: Option<ChangeEvent>)
        ensures
            match event {
                Some(change) => change.reported_by(notification),
                None => match notification {
                    Notification::ParamChange { .. } => false,
                    Notification::Volume { is_muted, .. } => is_muted,
                    Notification::Other => true,
                },
            },
    {
        match notification {
            Notification::ParamChange { feature, parameter, value } => Some(
                ChangeEvent::SoundCore(SoundCoreChangeEvent { feature, parameter, value }),
            ),
            Notification::Volume { volume, is_muted } => {
                if is_muted {
                    None
                } else {
                    Some(ChangeEvent::Volume(volume))
                }
            },
            Notification::Other => None,
        }
    }
}

/// What the keypad software sends.
#[derive(Debug)]
pub enum Incoming {
    /// A button showing `action` appeared, displaying `state`.
    WillAppear { action: String, context: String, state: Option<u8> },
    /// A button showing `action` went away.
    WillDisappear { action: String, context: String },
    /// A button showing `action` was pressed and released.
    KeyUp { action: String, context: String, state: Option<u8>, user_desired_state: Option<u8> },
    /// The persisted settings arrived; `None` where they could not be decoded.
    DidReceiveGlobalSettings { settings: Option<SerdeCardSettings> },
    /// The property inspector sent a request.
    SendToPlugin { action: String, context: String, payload: FromInspector },
    /// Any other message.
    Other,
}

/// Something to send to the keypad software.
#[derive(Debug)]
pub enum Effect {
    /// Make the button `context` display `state`.
    SetState { context: String, state: u8 },
    /// Flash success on the button `context`.
    ShowOk { context: String },
    /// Flash failure on the button `context`.
    ShowAlert { context: String },
    /// Send `payload` to the property inspector of `context`.
    SendToPropertyInspector { action: String, context: String, payload: ToInspector },
}

impl Effect {
    /// The context that the effect is addressed to.
    pub open spec fn addressee(self) -> String {
        match self {
            Effect::SetState { context, .. } => context,
            Effect::ShowOk { context } => context,
            Effect::ShowAlert { context } => context,
            Effect::SendToPropertyInspector { context, .. } => context,
        }
    }

    /// Whether the effect makes the button `context` display `state`.
    pub open spec fn sets_state(self, context: Seq<char>, state: u8) -> bool {
        self matches Effect::SetState { context: c, state: s } && c@ == context && s == state
    }

    /// Whether the effect flashes success on the button `context`.
    pub open spec fn shows_ok(self, context: Seq<char>) -> bool {
        self matches Effect::ShowOk { context: c } && c@ == context
    }

    /// Whether the effect flashes failure on the button `context`.
    pub open spec fn shows_alert(self, context: Seq<char>) -> bool {
        self matches Effect::ShowAlert { context: c } && c@ == context
    }
}

/// The contexts that a list of effects is addressed to, in order.
pub open spec fn addressees(effects: Seq<Effect>) -> Seq<String> {
    Seq::new(effects.len(), |i: int| effects[i].addressee())
}

/// Whether `effects` makes every context of `contexts` display `state`, each
/// once, and does nothing else.
pub open spec fn broadcasts(effects: Seq<Effect>, contexts: Set<Seq<char>>, state: u8) -> bool {
    &&& lists_each_once(addressees(effects), contexts)
    &&& forall|i: int|
        0 <= i < effects.len() ==> (#[trigger] effects[i]).sets_state(
            effects[i].addressee()@,
            state,
        )
}

/// A switch of output that the device is to perform.
#[derive(Debug)]
pub struct Switch {
    /// The button that asked for the switch.
    pub context: String,
    /// The output to switch to.
    pub output: Output,
    /// What to apply to the device.
    pub configuration: Configuration,
}

/// What a handler asks of its caller.
#[derive(Debug)]
pub struct Reaction {
    /// What to send to the keypad software, in order.
    pub effects: Vec<Effect>,
    /// Whether the settings changed and are to be persisted in due course.
    pub dirty: bool,
    /// The switch to perform on the device, if any. Its outcome goes to
    /// [`RawState::complete_switch`].
    pub switch: Option<Switch>,
}

impl Reaction {
    /// Whether the reaction asks for nothing.
    pub open spec fn is_nothing(self) -> bool {
        self.effects@.len() == 0 && !self.dirty && self.switch is None
    }

    /// Whether the reaction is a single effect and nothing else.
    pub open spec fn is_one_effect(self) -> bool {
        self.effects@.len() == 1 && !self.dirty && self.switch is None
    }
}

/// The state of the coordinator.
#[derive(Debug)]
pub struct RawState {
    /// The output that the device was last known to use, if known.
    pub output: Option<Output>,
    /// The buttons that currently show the action.
    pub contexts: ContextSet,
    /// The selection and the profiles.
    pub settings: CardSettings,
}

/// The abstract value of a [`RawState`].
pub struct StateView {
    pub output: Option<Output>,
    pub contexts: Set<Seq<char>>,
    pub settings: SettingsView,
}

impl View for RawState {
    type V = StateView;

    open spec fn view(&self) -> StateView {
        StateView { output: self.output, contexts: self.contexts@, settings: self.settings@ }
    }
}

/// What a dump of the device shows, where there is one.
pub open spec fn live_reading(snapshot: Option<Configuration>) -> Option<(Output, ProfileView)> {
    match snapshot {
        Some(state) => shown_profile(state@),
        None => None,
    }
}

/// The features that a dump of the device offers; none where there is no dump.
pub open spec fn available_features(snapshot: Option<Configuration>) -> Features {
    match snapshot {
        Some(state) => match state@.creative {
            Some(features) => features,
            None => no_features(),
        },
        None => no_features(),
    }
}

/// The output that a press asks for: the hint where there is one, else the
/// output other than the displayed one, an absent display counting as code 0.
/// `None` where the hint is not the code of an output.
pub open spec fn desired_output(state: Option<u8>, hint: Option<u8>) -> Option<Output> {
    match hint {
        Some(code) => output_of_code(code as int),
        None => {
            let shown = match state {
                Some(code) => code as int,
                None => 0,
            };
            output_of_code((shown + 1) % 2)
        },
    }
}

/// Whether a press leads to a switch: it asks for an output, and the device
/// is not known to use that output already.
pub open spec fn press_switches(desired: Option<Output>, live: Option<(Output, ProfileView)>) -> bool {
    desired matches Some(d) && !(live matches Some((o, _)) && o == d)
}

/// Whether a press captures the live profile: it leads to a switch, and the
/// device could be read.
pub open spec fn press_captures(desired: Option<Output>, live: Option<(Output, ProfileView)>) -> bool {
    press_switches(desired, live) && live is Some
}

impl StateView {
    /// The state at startup: nothing registered, nothing stored, and the output
    /// and profile that the device shows, if it could be read.
    pub open spec fn started(live: Option<(Output, ProfileView)>) -> StateView {
        let fresh = StateView {
            output: None,
            contexts: Set::empty(),
            settings: SettingsView::empty(),
        };
        match live {
            Some((output, profile)) => StateView { output: Some(output), ..fresh.captured(output, profile) },
            None => fresh,
        }
    }

    /// This state with `profile` stored as the profile of `output`.
    pub open spec fn captured(self, output: Output, profile: ProfileView) -> StateView {
        StateView {
            settings: SettingsView {
                profiles: self.settings.profiles.with(output, profile),
                ..self.settings
            },
            ..self
        }
    }

    /// The state after a button appeared.
    pub open spec fn appeared(self, context: Seq<char>) -> StateView {
        StateView { contexts: self.contexts.insert(context), ..self }
    }

    /// The state after a button went away.
    pub open spec fn disappeared(self, context: Seq<char>) -> StateView {
        StateView { contexts: self.contexts.remove(context), ..self }
    }

    /// The state after the first half of a press: the live profile is captured
    /// where the press leads to a switch and the device could be read.
    pub open spec fn pressed(self, desired: Option<Output>, live: Option<(Output, ProfileView)>) -> StateView {
        match live {
            Some((output, profile)) => if press_switches(desired, live) {
                self.captured(output, profile)
            } else {
                self
            },
            None => self,
        }
    }

    /// The state after the device was asked to switch to `output`.
    pub open spec fn switched(self, output: Output, applied: bool) -> StateView {
        if applied {
            StateView { output: Some(output), ..self }
        } else {
            self
        }
    }

    /// The state after the device reported `value` for its output selector.
    pub open spec fn selector_changed(self, value: ParamValue) -> StateView {
        StateView { output: output_of_value(value), ..self }
    }

    /// The state after the device reported a new value for another parameter.
    pub open spec fn parameter_changed(self, feature: Seq<char>, parameter: Seq<char>, value: ParamValue) -> StateView {
        match self.output {
            Some(output) => self.captured(
                output,
                self.settings.profiles.of(output).merge(feature, parameter, value),
            ),
            None => self,
        }
    }

    /// The state after the device reported a new volume.
    pub open spec fn volume_changed(self, volume: u32) -> StateView {
        match self.output {
            Some(output) => self.captured(
                output,
                self.settings.profiles.of(output).with_volume(volume),
            ),
            None => self,
        }
    }

    /// The state after the device reported `event`.
    pub open spec fn changed(self, event: ChangeEvent) -> StateView {
        match event {
            ChangeEvent::SoundCore(change) => if is_selector(change) {
                self.selector_changed(change.value)
            } else {
                self.parameter_changed(change.feature@, change.parameter@, change.value)
            },
            ChangeEvent::Volume(volume) => self.volume_changed(volume),
        }
    }

    /// The state after the persisted settings were loaded.
    pub open spec fn loaded(self, settings: SettingsView) -> StateView {
        StateView { settings, ..self }
    }

    /// The state after the selection was replaced by the offered part of `requested`.
    pub open spec fn reselected(self, available: Features, requested: Chosen) -> StateView {
        StateView {
            settings: SettingsView { selection: granted(available, requested), ..self.settings },
            ..self
        }
    }

    /// The state after `message` was handled, given the dump of the device
    /// that was taken for it.
    pub open spec fn received(self, message: Incoming, snapshot: Option<Configuration>) -> StateView {
        match message {
            Incoming::WillAppear { action, context, .. } => if action@ == select_output_action() {
                self.appeared(context@)
            } else {
                self
            },
            Incoming::WillDisappear { action, context } => if action@ == select_output_action() {
                self.disappeared(context@)
            } else {
                self
            },
            Incoming::KeyUp { action, state, user_desired_state, .. } => if action@
                == select_output_action() {
                self.pressed(desired_output(state, user_desired_state), live_reading(snapshot))
            } else {
                self
            },
            Incoming::DidReceiveGlobalSettings { settings } => match settings {
                Some(stored) => self.loaded(loaded_settings(stored)),
                None => self,
            },
            Incoming::SendToPlugin { payload, .. } => match payload {
                FromInspector::GetFeatures => self,
                FromInspector::SetFeatures { selected_parameters } => match snapshot {
                    Some(_) => self.reselected(
                        available_features(snapshot),
                        selection_entries(selected_parameters),
                    ),
                    None => self,
                },
            },
            Incoming::Other => self,
        }
    }
}

/// Whether a reported change is one of the output selector.
pub open spec fn is_selector(change: SoundCoreChangeEvent) -> bool {
    change.feature@ == control_feature() && change.parameter@ == selector_parameter()
}

/// What is due after a button appeared: where the output is known and the
/// button displays another state, the button is made to display the output.
pub open spec fn corrects_display(
    output: Option<Output>,
    context: Seq<char>,
    shown: Option<u8>,
    effect: Option<Effect>,
) -> bool {
    match output {
        Some(o) => if shown == Some(o.code_spec()) {
            effect is None
        } else {
            effect matches Some(e) && e.sets_state(context, o.code_spec())
        },
        None => effect is None,
    }
}

/// What is due after a press, the state after it being `after`.
pub open spec fn answers_press(
    after: StateView,
    context: Seq<char>,
    desired: Option<Output>,
    live: Option<(Output, ProfileView)>,
    reaction: Reaction,
) -> bool {
    &&& reaction.dirty == press_captures(desired, live)
    &&& match desired {
        Some(d) => {
            &&& reaction.effects@.len() == 0
            &&& reaction.switch is Some == press_switches(desired, live)
            &&& reaction.switch matches Some(switch) ==> {
                &&& switch.context@ == context
                &&& switch.output == d
                &&& switch.configuration@ == apply_configuration(
                    d,
                    after.settings.profiles.of(d),
                    after.settings.selection,
                )
            }
        },
        None => {
            &&& reaction.effects@.len() == 1
            &&& reaction.effects@[0].shows_alert(context)
            &&& reaction.switch is None
        },
    }
}

/// What is due after the device reported `event`, the state before being `before`.
pub open spec fn answers_change(before: StateView, event: ChangeEvent, reaction: Reaction) -> bool {
    &&& reaction.switch is None
    &&& match event {
        ChangeEvent::SoundCore(change) => if is_selector(change) {
            &&& !reaction.dirty
            &&& match output_of_value(change.value) {
                Some(output) => broadcasts(reaction.effects@, before.contexts, output.code_spec()),
                None => reaction.effects@.len() == 0,
            }
        } else {
            reaction.effects@.len() == 0 && reaction.dirty == before.output is Some
        },
        ChangeEvent::Volume(_) => reaction.effects@.len() == 0 && reaction.dirty
            == before.output is Some,
    }
}

/// What is due after the property inspector asked for the features.
pub open spec fn answers_query(
    selection: Chosen,
    action: Seq<char>,
    context: Seq<char>,
    available: Features,
    reaction: Reaction,
) -> bool {
    &&& reaction.is_one_effect()
    &&& reaction.effects@[0] matches Effect::SendToPropertyInspector {
        action: a,
        context: c,
        payload: ToInspector::SetFeatures { selected_parameters },
    } && a@ == action && c@ == context && listing_entries(selected_parameters) == offered(
        available,
        selection,
    )
}

/// What is due after `message` was handled, the state having gone from
/// `before` to `after`.
pub open spec fn answers_message(
    before: StateView,
    after: StateView,
    message: Incoming,
    snapshot: Option<Configuration>,
    reaction: Reaction,
) -> bool {
    match message {
        Incoming::WillAppear { action, context, state } => if action@ == select_output_action() {
            &&& !reaction.dirty
            &&& reaction.switch is None
            &&& reaction.effects@.len() <= 1
            &&& corrects_display(
                before.output,
                context@,
                state,
                if reaction.effects@.len() == 1 {
                    Some(reaction.effects@[0])
                } else {
                    None
                },
            )
        } else {
            reaction.is_nothing()
        },
        Incoming::KeyUp { action, context, state, user_desired_state } => if action@
            == select_output_action() {
            answers_press(
                after,
                context@,
                desired_output(state, user_desired_state),
                live_reading(snapshot),
                reaction,
            )
        } else {
            reaction.is_nothing()
        },
        Incoming::SendToPlugin { action, context, payload } => match payload {
            FromInspector::GetFeatures => answers_query(
                before.settings.selection,
                action@,
                context@,
                available_features(snapshot),
                reaction,
            ),
            FromInspector::SetFeatures { .. } => {
                &&& reaction.effects@.len() == 0
                &&& reaction.switch is None
                &&& reaction.dirty == (after.settings.selection != before.settings.selection)
                &&& snapshot is None ==> !reaction.dirty
            },
        },
        _ => reaction.is_nothing(),
    }
}

/// Tells whether handling `message` takes a dump of the device: a press of
/// the served action and every request of the property inspector do.
pub fn needs_snapshot(message: &Incoming) -> (needed: bool)
    ensures
        needed == match *message {
            Incoming::KeyUp { action, .. } => action@ == select_output_action(),
            Incoming::SendToPlugin { .. } => true,
            _ => false,
        },
{
    match message {
        Incoming::KeyUp { action, .. } => is_select_output(action.as_str()),
        Incoming::SendToPlugin { .. } => true,
        _ => false,
    }
}

/// The output that a press asks for.
pub fn desired(state: Option<u8>, user_desired_state: Option<u8>) -> (output: Option<Output>)
    ensures
        output == desired_output(state, user_desired_state),
{
    match user_desired_state {
        Some(code) => Output::from_code(code),
        None => {
            let shown: u8 = match state {
                Some(code) => code,
                None => 0,
            };
            if shown % 2 == 0 {
                Some(Output::Speakers)
            } else {
                Some(Output::Headphones)
            }
        },
    }
}

fn nothing() -> (reaction: Reaction)
    ensures
        reaction.is_nothing(),
{
    Reaction { effects: Vec::new(), dirty: false, switch: None }
}

impl RawState {
    /// The state at startup, given a dump of the device where one could be taken.
    pub fn new(snapshot: Option<Configuration>) -> (state: RawState)
        ensures
            state@ == StateView::started(live_reading(snapshot)),
    {
        let mut state = RawState {
            output: None,
            contexts: ContextSet::new(),
            settings: CardSettings::default(),
        };
        match snapshot {
            Some(device_state) => match get_current_profile(device_state) {
                Some((output, profile)) => {
                    state.output = Some(output);
                    state.settings.profiles.set(output, profile);
                },
                None => {},
            },
            None => {},
        }
        state
    }

    /// A button appeared: it is registered, and where the output is known and
    /// the button displays another state, it is made to display the output.
    pub fn handle_new_action(&mut self, context: &str, action_state: Option<u8>) -> (effect: Option<Effect>)
        ensures
            final(self)@ == old(self)@.appeared(context@),
            corrects_display(old(self)@.output, context@, action_state, effect),
    {
        self.contexts.insert(context);
        match self.output {
            Some(output) => {
                let code = output.code();
                let matches = match action_state {
                    Some(shown) => shown == code,
                    None => false,
                };
                if matches {
                    None
                } else {
                    Some(Effect::SetState { context: context.to_owned(), state: code })
                }
            },
            None => None,
        }
    }

    /// A button went away: it is no longer registered.
    pub fn handle_remove_action(&mut self, context: &str)
        ensures
            final(self)@ == old(self)@.disappeared(context@),
            !old(self)@.contexts.contains(context@) ==> final(self)@ == old(self)@,
    {
        self.contexts.remove(context);
    }

    /// A button was pressed. `snapshot` is the dump of the device taken for
    /// this press, `None` where the device could not be read.
    ///
    /// Where the device already uses the desired output, nothing happens.
    /// Otherwise the profile that the device shows is stored for the output
    /// that it shows, and the reaction holds the configuration to apply.
    /// Where the press asks for no known output, the button flashes failure.
    pub fn handle_press(
        &mut self,
        context: &str,
        state: Option<u8>,
        user_desired_state: Option<u8>,
        snapshot: Option<Configuration>,
    ) -> (reaction: Reaction)
        ensures
            final(self)@ == old(self)@.pressed(
                desired_output(state, user_desired_state),
                live_reading(snapshot),
            ),
            answers_press(
                final(self)@,
                context@,
                desired_output(state, user_desired_state),
                live_reading(snapshot),
                reaction,
            ),
    {
        let output = match desired(state, user_desired_state) {
            Some(output) => output,
            None => {
                let mut effects = Vec::new();
                effects.push(Effect::ShowAlert { context: context.to_owned() });
                return Reaction { effects, dirty: false, switch: None };
            },
        };
        let live = match snapshot {
            Some(device_state) => get_current_profile(device_state),
            None => None,
        };
        let mut dirty = false;
        match live {
            Some((current_device_output, current_device_profile)) => {
                if output == current_device_output {
                    return nothing();
                }
                self.settings.profiles.set(current_device_output, current_device_profile);
                dirty = true;
            },
            None => {},
        }
        let configuration = apply_profile(
            output,
            self.settings.profiles.index(output),
            &self.settings.selected_parameters,
        );
        Reaction {
            effects: Vec::new(),
            dirty,
            switch: Some(Switch { context: context.to_owned(), output, configuration }),
        }
    }

    /// The device was asked to switch to `output` for the button `context`.
    /// Where it did, the output is recorded and the button flashes success;
    /// where it failed, the state stays and the button flashes failure.
    pub fn complete_switch(&mut self, context: &str, output: Output, applied: bool) -> (effect: Effect)
        ensures
            final(self)@ == old(self)@.switched(output, applied),
            applied ==> effect.shows_ok(context@),
            !applied ==> effect.shows_alert(context@),
    {
        if applied {
            self.output = Some(output);
            Effect::ShowOk { context: context.to_owned() }
        } else {
            Effect::ShowAlert { context: context.to_owned() }
        }
    }

    fn broadcast_state(&self, state: u8) -> (effects: Vec<Effect>)
        ensures
            broadcasts(effects@, self@.contexts, state),
    {
        let names = self.contexts.names();
        let mut effects: Vec<Effect> = Vec::new();
        let mut i: usize = 0;
        while i < names.len()
            invariant
                i <= names.len(),
                effects@.len() == i,
                forall|j: int|
                    0 <= j < i ==> (#[trigger] effects@[j]).sets_state(names@[j]@, state)
                        && effects@[j].addressee() == names@[j],
            decreases names.len() - i,
        {
            let context = names[i].clone();
            effects.push(Effect::SetState { context, state });
            i += 1;
        }
        proof {
            assert(addressees(effects@) =~= names@);
        }
        effects
    }

    /// The device reported a change.
    ///
    /// A change of the output selector sets the output, or clears it where the
    /// value names none, and makes every registered button display a known
    /// output. Any other change is stored in the profile of the current
    /// output and marks the settings dirty; it is dropped where the output is
    /// unknown.
    pub fn handle_change(&mut self, event: ChangeEvent) -> (reaction: Reaction)
        ensures
            final(self)@ == old(self)@.changed(event),
            answers_change(old(self)@, event, reaction),
    {
        match event {
            ChangeEvent::SoundCore(change) => {
                if same_text(change.feature.as_str(), "Device Control") && same_text(
                    change.parameter.as_str(),
                    "SelectOutput",
                ) {
                    match Output::try_from(&change.value) {
                        Some(output) => {
                            self.output = Some(output);
                            let effects = self.broadcast_state(output.code());
                            Reaction { effects, dirty: false, switch: None }
                        },
                        None => {
                            self.output = None;
                            nothing()
                        },
                    }
                } else {
                    match self.output {
                        Some(output) => {
                            self.settings.profiles.merge_observed(
                                output,
                                change.feature,
                                change.parameter,
                                change.value,
                            );
                            Reaction { effects: Vec::new(), dirty: true, switch: None }
                        },
                        None => nothing(),
                    }
                }
            },
            ChangeEvent::Volume(volume) => {
                match self.output {
                    Some(output) => {
                        self.settings.profiles.set_volume(output, volume);
                        Reaction { effects: Vec::new(), dirty: true, switch: None }
                    },
                    None => nothing(),
                }
            },
        }
    }

    /// The persisted settings arrived: they replace the selection and the
    /// profiles. The output and the registered buttons stay.
    pub fn handle_settings(&mut self, stored: SerdeCardSettings)
        ensures
            final(self)@ == old(self)@.loaded(loaded_settings(stored)),
    {
        self.settings = load(stored);
    }

    /// The property inspector asked for the features: the answer lists what
    /// the device offers, each parameter marked with whether it is selected.
    pub fn handle_query(&self, action: String, context: String, available: &FeatureMap) -> (reaction:
        Reaction)
        ensures
            answers_query(
                self@.settings.selection,
                action@,
                context@,
                feature_entries(*available),
                reaction,
            ),
    {
        let listing = list_features(available, &self.settings.selected_parameters);
        let mut effects = Vec::new();
        effects.push(
            Effect::SendToPropertyInspector {
                action,
                context,
                payload: ToInspector::SetFeatures { selected_parameters: listing },
            },
        );
        Reaction { effects, dirty: false, switch: None }
    }

    /// The property inspector changed the selection: the part of it that the
    /// device offers becomes the selection. Returns whether the selection
    /// now differs from what it was.
    pub fn handle_selection(&mut self, available: &FeatureMap, requested: &Selection) -> (dirty:
        bool)
        ensures
            final(self)@ == old(self)@.reselected(
                feature_entries(*available),
                selection_entries(*requested),
            ),
            dirty == (final(self)@.settings.selection != old(self)@.settings.selection),
    {
        let selection = grant_selection(available, requested);
        let dirty = !selection_eq(&selection, &self.settings.selected_parameters);
        self.settings.selected_parameters = selection;
        dirty
    }

    /// Asks the throttle at time `now` whether to save, and where it says
    /// yes gives the persisted form of the settings as they are now.
    pub fn save_if_due(&self, throttle: &mut SaveThrottle, now: u64) -> (saved: Option<
        SerdeCardSettings,
    >)
        ensures
            saved is Some == old(throttle)@.saves_at(now),
            final(throttle)@ == old(throttle)@.polled(now),
            saved matches Some(stored) ==> saves_settings(stored, self@.settings),
    {
        if throttle.poll(now) {
            Some(prepare_for_save(&self.settings))
        } else {
            None
        }
    }

    /// Handles a message of the keypad software. `snapshot` is the dump of
    /// the device taken for this message where [`needs_snapshot`] asks for
    /// one, `None` where none was asked for or the device could not be read.
    ///
    /// Where the device could not be read, neither the profiles nor the
    /// selection change: a press captures nothing, and a new selection is
    /// not taken up.
    pub fn handle_message(&mut self, message: Incoming, snapshot: Option<Configuration>) -> (reaction:
        Reaction)
        ensures
            final(self)@ == old(self)@.received(message, snapshot),
            answers_message(old(self)@, final(self)@, message, snapshot, reaction),
    {
        match message {
            Incoming::WillAppear { action, context, state } => {
                if is_select_output(action.as_str()) {
                    let mut effects = Vec::new();
                    match self.handle_new_action(context.as_str(), state) {
                        Some(effect) => {
                            effects.push(effect);
                        },
                        None => {},
                    }
                    Reaction { effects, dirty: false, switch: None }
                } else {
                    nothing()
                }
            },
            Incoming::WillDisappear { action, context } => {
                if is_select_output(action.as_str()) {
                    self.handle_remove_action(context.as_str());
                }
                nothing()
            },
            Incoming::KeyUp { action, context, state, user_desired_state } => {
                if is_select_output(action.as_str()) {
                    self.handle_press(context.as_str(), state, user_desired_state, snapshot)
                } else {
                    nothing()
                }
            },
            Incoming::DidReceiveGlobalSettings { settings } => {
                match settings {
                    Some(stored) => {
                        self.handle_settings(stored);
                    },
                    None => {},
                }
                nothing()
            },
            Incoming::SendToPlugin { action, context, payload } => {
                let read = snapshot.is_some();
                let available = match snapshot {
                    Some(device_state) => match device_state.creative {
                        Some(features) => features,
                        None => feature_map_new(),
                    },
                    None => feature_map_new(),
                };
                match payload {
                    FromInspector::GetFeatures => self.handle_query(action, context, &available),
                    FromInspector::SetFeatures { selected_parameters } => {
                        if read {
                            let dirty = self.handle_selection(&available, &selected_parameters);
                            Reaction { effects: Vec::new(), dirty, switch: None }
                        } else {
                            nothing()
                        }
                    },
                }
            },
            Incoming::Other => nothing(),
        }
    }
}

/// A button that is not registered can go away any number of times: the state stays.
pub proof fn lemma_disappearance_is_idempotent(state: StateView, context: Seq<char>)
    ensures
        !state.contexts.contains(context) ==> state.disappeared(context) == state,
        state.disappeared(context).disappeared(context) == state.disappeared(context),
{
    if !state.contexts.contains(context) {
        assert(state.contexts.remove(context) =~= state.contexts);
    }
    assert(state.contexts.remove(context).remove(context) =~= state.contexts.remove(context));
}

/// A press for the output that the device already uses changes nothing: no
/// profile is captured, nothing is marked dirty, and no switch is asked for.
pub proof fn lemma_no_redundant_switch(
    state: StateView,
    context: Seq<char>,
    output: Output,
    live_profile: ProfileView,
    reaction: Reaction,
)
    requires
        answers_press(
            state.pressed(Some(output), Some((output, live_profile))),
            context,
            Some(output),
            Some((output, live_profile)),
            reaction,
        ),
    ensures
        state.pressed(Some(output), Some((output, live_profile))) == state,
        reaction.is_nothing(),
{
}

/// After a press that switches away from the output that the device shows,
/// the profile of that output is the profile that the device showed, whether
/// or not the device then takes the new configuration.
pub proof fn lemma_capture_precedes_apply(
    state: StateView,
    desired: Output,
    live_output: Output,
    live_profile: ProfileView,
    applied: bool,
)
    requires
        live_output != desired,
    ensures
        state.pressed(Some(desired), Some((live_output, live_profile))).switched(
            desired,
            applied,
        ).settings.profiles.of(live_output) == live_profile,
        press_captures(Some(desired), Some((live_output, live_profile))),
{
}

/// An unknown value of the output selector clears the output and makes no
/// button display anything.
pub proof fn lemma_unknown_selector_is_safe(
    state: StateView,
    change: SoundCoreChangeEvent,
    reaction: Reaction,
)
    requires
        is_selector(change),
        output_of_value(change.value) is None,
        answers_change(state, ChangeEvent::SoundCore(change), reaction),
    ensures
        state.changed(ChangeEvent::SoundCore(change)).output is None,
        state.changed(ChangeEvent::SoundCore(change)).settings == state.settings,
        reaction.is_nothing(),
{
}

/// Where the device could not be read, a press and a request of the
/// property inspector leave the state as it is, the selection and the
/// profiles included.
pub proof fn lemma_failed_read_keeps_state(state: StateView, message: Incoming)
    requires
        message is KeyUp || message is SendToPlugin,
    ensures
        state.received(message, None) == state,
{
}

} // verus!

//! The state of the property inspector: the features that it lists, which of
//! them are unfolded, and what it sends when the user ticks a parameter.
//!
//! Drawing and the connection are done elsewhere. `update` takes what
//! happened, changes the state, and returns what is to be done about it.

use vstd::prelude::*;

use crate::common::{Empty, FromInspector, ToInspector};
use crate::maps::{
    choice_entries, choice_map_clone, choice_map_get, choice_map_insert, choice_map_names,
    listing_entries, listing_get, listing_names, lists_each_once, name_members, name_set_insert,
    name_set_new, panel_entries, panel_get, panel_insert, panel_names, panel_new,
    selection_entries, selection_insert, selection_new, ChoiceMap, Listing, NameSet, PanelMap,
    Selection,
};
use crate::message::{Message, MessageOut};
use crate::names::{lemma_listed_all, lemma_listed_fresh, lemma_listed_step, listed};
use crate::profile::Chosen;
use crate::registration::InspectorRegistrationParams;
use crate::settings::SerdeCardSettings;

verus! {

/// How one feature is shown.
#[derive(Debug)]
pub struct FeatureInfo {
    /// Whether the list of parameters is unfolded.
    pub is_expanded: bool,
    /// For each parameter of the feature, whether it is ticked.
    pub parameters: ChoiceMap,
}

/// The abstract value of a [`FeatureInfo`].
pub struct FeatureInfoView {
    pub is_expanded: bool,
    pub parameters: Map<Seq<char>, bool>,
}

impl View for FeatureInfo {
    type V = FeatureInfoView;

    open spec fn view(&self) -> FeatureInfoView {
        FeatureInfoView {
            is_expanded: self.is_expanded,
            parameters: choice_entries(self.parameters),
        }
    }
}

/// The abstract contents of a panel map: feature name to how it is shown.
pub type Panel = Map<Seq<char>, FeatureInfoView>;

/// The state of the connection to the keypad software.
#[derive(Clone, Copy, Debug, PartialEq, Eq, Structural)]
pub enum SocketStatus {
    Opened,
    Closed,
    Error,
}

/// What the inspector is started with.
pub type RegistrationParams = InspectorRegistrationParams<Empty>;

/// What can happen to the inspector.
#[derive(Debug)]
pub enum ComponentMessage {
    /// The inspector was started.
    Connect(RegistrationParams),
    /// A message arrived from the keypad software.
    Message(Message<SerdeCardSettings, Empty, ToInspector>),
    /// The connection changed its state.
    Status(SocketStatus),
    /// The user ticked or cleared a parameter.
    SetParameter { feature: String, parameter: String, is_selected: bool },
    /// The user unfolded or folded a feature.
    SetFeatureExpanded { feature: String, is_expanded: bool },
}

/// Something for the caller to do.
#[derive(Debug)]
pub enum Command {
    /// Open the connection to `url`.
    Connect { url: String },
    /// Register with the keypad software.
    Register { event: String, uuid: String },
    /// Send a message to the keypad software.
    Send(MessageOut<SerdeCardSettings, Empty, FromInspector>),
}

/// The outcome of an update.
#[derive(Debug)]
pub struct Update {
    /// Whether the inspector is to be drawn again.
    pub should_render: bool,
    /// What to do, in order.
    pub commands: Vec<Command>,
}

/// The state of the inspector.
#[derive(Debug)]
pub struct Model {
    /// What the inspector was started with, once it was.
    pub registration_params: Option<RegistrationParams>,
    /// The listed features, by name.
    pub selected_params: PanelMap,
}

/// The abstract value of a [`Model`].
pub struct ModelView {
    pub registration_params: Option<RegistrationParams>,
    pub features: Panel,
}

impl View for Model {
    type V = ModelView;

    open spec fn view(&self) -> ModelView {
        ModelView {
            registration_params: self.registration_params,
            features: panel_entries(self.selected_params),
        }
    }
}

/// The features that the inspector lists once the plugin has sent `listing`:
/// those of `listing`, each unfolded where `before` held it unfolded.
pub open spec fn listed_from(listing: Map<Seq<char>, Map<Seq<char>, bool>>, before: Panel) -> Panel {
    Map::new(
        |f: Seq<char>| listing.contains_key(f),
        |f: Seq<char>|
            FeatureInfoView {
                is_expanded: before.contains_key(f) && before[f].is_expanded,
                parameters: listing[f],
            },
    )
}

/// `features` with the feature called `name` folded or unfolded; as they are
/// where no feature has that name.
pub open spec fn with_expanded(features: Panel, name: Seq<char>, flag: bool) -> Panel {
    if features.contains_key(name) {
        features.insert(
            name,
            FeatureInfoView { is_expanded: flag, parameters: features[name].parameters },
        )
    } else {
        features
    }
}

/// `features` with the parameter called `parameter` of the feature called
/// `feature` ticked or cleared; as they are where there is no such parameter.
pub open spec fn with_parameter(
    features: Panel,
    feature: Seq<char>,
    parameter: Seq<char>,
    flag: bool,
) -> Panel {
    if features.contains_key(feature) && features[feature].parameters.contains_key(parameter) {
        features.insert(
            feature,
            FeatureInfoView {
                is_expanded: features[feature].is_expanded,
                parameters: features[feature].parameters.insert(parameter, flag),
            },
        )
    } else {
        features
    }
}

/// The names of the ticked parameters.
pub open spec fn ticked(parameters: Map<Seq<char>, bool>) -> Set<Seq<char>> {
    Set::new(|p: Seq<char>| parameters.contains_key(p) && parameters[p])
}

/// The selection that the inspector shows: every feature with a ticked
/// parameter, with the names of its ticked parameters.
pub open spec fn shown_selection(features: Panel) -> Chosen {
    Map::new(
        |f: Seq<char>|
            features.contains_key(f) && ticked(features[f].parameters) != Set::<Seq<char>>::empty(),
        |f: Seq<char>| ticked(features[f].parameters),
    )
}

/// The features after `message`.
pub open spec fn features_after(before: Panel, message: ComponentMessage) -> Panel {
    match message {
        ComponentMessage::Message(
            Message::SendToPropertyInspector {
                payload: ToInspector::SetFeatures { selected_parameters },
                ..
            },
        ) => listed_from(listing_entries(selected_parameters), before),
        ComponentMessage::SetFeatureExpanded { feature, is_expanded } => with_expanded(
            before,
            feature@,
            is_expanded,
        ),
        ComponentMessage::SetParameter { feature, parameter, is_selected } => with_parameter(
            before,
            feature@,
            parameter@,
            is_selected,
        ),
        _ => before,
    }
}

/// Whether the inspector is drawn again after `message`: always after a
/// message of the keypad software, and after the user's action where it
/// changed something.
pub open spec fn renders_after(before: Panel, message: ComponentMessage) -> bool {
    match message {
        ComponentMessage::Message(_) => true,
        ComponentMessage::SetFeatureExpanded { .. } => features_after(before, message) != before,
        ComponentMessage::SetParameter { .. } => features_after(before, message) != before,
        _ => false,
    }
}

/// Whether `command` sends the plugin a message in the name of `params`.
pub open spec fn sends_to_plugin(command: Command, params: RegistrationParams) -> bool {
    command matches Command::Send(MessageOut::SendToPlugin { action, context, .. })
        && action@ == params.action_info.action@ && context@ == params.property_inspector_uuid@
}

/// Whether `commands` is what is due after `message`, the model having gone
/// from `before` to `after`.
pub open spec fn commands_after(
    before: ModelView,
    after: ModelView,
    message: ComponentMessage,
    commands: Seq<Command>,
) -> bool {
    match message {
        ComponentMessage::Connect(params) => {
            &&& commands.len() == 1
            &&& commands[0] matches Command::Connect { url } && url@ == params.url@
        },
        ComponentMessage::Status(SocketStatus::Opened) => match before.registration_params {
            Some(params) => {
                &&& commands.len() == 2
                &&& commands[0] matches Command::Register { event, uuid } && event@
                    == params.register_event@ && uuid@ == params.property_inspector_uuid@
                &&& sends_to_plugin(commands[1], params)
                &&& commands[1] matches Command::Send(
                    MessageOut::SendToPlugin { payload: FromInspector::GetFeatures, .. },
                )
            },
            None => commands.len() == 0,
        },
        ComponentMessage::SetParameter { .. } => match before.registration_params {
            Some(params) => if after.features != before.features {
                &&& commands.len() == 1
                &&& sends_to_plugin(commands[0], params)
                &&& commands[0] matches Command::Send(
                    MessageOut::SendToPlugin {
                        payload: FromInspector::SetFeatures { selected_parameters },
                        ..
                    },
                ) && selection_entries(selected_parameters) == shown_selection(after.features)
            } else {
                commands.len() == 0
            },
            None => commands.len() == 0,
        },
        _ => commands.len() == 0,
    }
}

fn ticked_names(parameters: &ChoiceMap) -> (names: Option<NameSet>)
    ensures
        names is Some == (ticked(choice_entries(*parameters)) != Set::<Seq<char>>::empty()),
        names matches Some(set) ==> name_members(set) == ticked(choice_entries(*parameters)),
{
    let ghost held = choice_entries(*parameters);
    let all = choice_map_names(parameters);
    let mut names = name_set_new();
    let mut any = false;
    let mut i: usize = 0;
    proof {
        assert(name_members(names) =~= ticked(held).intersect(listed(all@, 0)));
    }
    while i < all.len()
        invariant
            i <= all.len(),
            held == choice_entries(*parameters),
            lists_each_once(all@, held.dom()),
            name_members(names) == ticked(held).intersect(listed(all@, i as int)),
            any == (name_members(names) != Set::<Seq<char>>::empty()),
        decreases all.len() - i,
    {
        proof {
            lemma_listed_step(all@, i as int);
            assert(held.dom().contains(all@[i as int]@));
        }
        let name = &all[i];
        let is_ticked = match choice_map_get(parameters, name.as_str()) {
            Some(flag) => *flag,
            None => false,
        };
        if is_ticked {
            name_set_insert(&mut names, name.clone());
            any = true;
            proof {
                assert(name_members(names).contains(name@));
            }
        }
        proof {
            assert(name_members(names) =~= ticked(held).intersect(listed(all@, i + 1)));
        }
        i += 1;
    }
    proof {
        lemma_listed_all(all@, held.dom());
        assert(ticked(held).intersect(held.dom()) =~= ticked(held));
    }
    if any {
        Some(names)
    } else {
        None
    }
}

/// The selection that a panel shows.
pub fn selection_of(features: &PanelMap) -> (selection: Selection)
    ensures
        selection_entries(selection) == shown_selection(panel_entries(*features)),
{
    let ghost held = panel_entries(*features);
    let names = panel_names(features);
    let mut selection = selection_new();
    let mut i: usize = 0;
    proof {
        assert(selection_entries(selection) =~= shown_selection(held).restrict(listed(names@, 0)));
    }
    while i < names.len()
        invariant
            i <= names.len(),
            held == panel_entries(*features),
            lists_each_once(names@, held.dom()),
            selection_entries(selection) == shown_selection(held).restrict(
                listed(names@, i as int),
            ),
        decreases names.len() - i,
    {
        proof {
            lemma_listed_step(names@, i as int);
            lemma_listed_fresh(names@, held.dom(), i as int);
            assert(held.dom().contains(names@[i as int]@));
        }
        let name = &names[i];
        match panel_get(features, name.as_str()) {
            Some(info) => match ticked_names(&info.parameters) {
                Some(chosen) => {
                    selection_insert(&mut selection, name.clone(), chosen);
                },
                None => {},
            },
            None => {},
        }
        proof {
            assert(selection_entries(selection) =~= shown_selection(held).restrict(
                listed(names@, i + 1),
            ));
        }
        i += 1;
    }
    proof {
        lemma_listed_all(names@, held.dom());
        assert(shown_selection(held).restrict(held.dom()) =~= shown_selection(held));
    }
    selection
}

impl Model {
    /// The inspector before it is started: nothing listed.
    pub fn new() -> (model: Model)
        ensures
            model@.registration_params is None,
            model@.features == Map::<Seq<char>, FeatureInfoView>::empty(),
    {
        Model { registration_params: None, selected_params: panel_new() }
    }

    fn show_listing(&mut self, listing: &Listing)
        ensures
            final(self)@.features == listed_from(listing_entries(*listing), old(self)@.features),
            final(self).registration_params == old(self).registration_params,
    {
        let ghost before = panel_entries(self.selected_params);
        let ghost sent = listing_entries(*listing);
        let names = listing_names(listing);
        let mut shown = panel_new();
        let mut i: usize = 0;
        proof {
            assert(panel_entries(shown) =~= listed_from(sent, before).restrict(listed(names@, 0)));
        }
        while i < names.len()
            invariant
                i <= names.len(),
                before == panel_entries(self.selected_params),
                sent == listing_entries(*listing),
                lists_each_once(names@, sent.dom()),
                panel_entries(shown) == listed_from(sent, before).restrict(
                    listed(names@, i as int),
                ),
            decreases names.len() - i,
        {
            proof {
                lemma_listed_step(names@, i as int);
                assert(sent.dom().contains(names@[i as int]@));
            }
            let name = &names[i];
            match listing_get(listing, name.as_str()) {
                Some(choices) => {
                    let is_expanded = match panel_get(&self.selected_params, name.as_str()) {
                        Some(info) => info.is_expanded,
                        None => false,
                    };
                    let info = FeatureInfo { is_expanded, parameters: choice_map_clone(choices) };
                    panel_insert(&mut shown, name.clone(), info);
                },
                None => {},
            }
            proof {
                assert(panel_entries(shown) =~= listed_from(sent, before).restrict(
                    listed(names@, i + 1),
                ));
            }
            i += 1;
        }
        proof {
            lemma_listed_all(names@, sent.dom());
            assert(listed_from(sent, before).restrict(sent.dom()) =~= listed_from(sent, before));
        }
        self.selected_params = shown;
    }

    fn set_expanded(&mut self, feature: &str, is_expanded: bool) -> (changed: bool)
        ensures
            final(self)@.features == with_expanded(old(self)@.features, feature@, is_expanded),
            final(self).registration_params == old(self).registration_params,
            changed == (final(self)@.features != old(self)@.features),
    {
        let ghost before = panel_entries(self.selected_params);
        let replacement = match panel_get(&self.selected_params, feature) {
            Some(info) => {
                if info.is_expanded == is_expanded {
                    None
                } else {
                    Some(FeatureInfo { is_expanded, parameters: choice_map_clone(&info.parameters) })
                }
            },
            None => None,
        };
        match replacement {
            Some(info) => {
                panel_insert(&mut self.selected_params, feature.to_owned(), info);
                proof {
                    let after = panel_entries(self.selected_params);
                    assert(after[feature@].is_expanded != before[feature@].is_expanded);
                }
                true
            },
            None => {
                assert(before =~= with_expanded(before, feature@, is_expanded));
                false
            },
        }
    }

    fn set_parameter(&mut self, feature: &str, parameter: &str, is_selected: bool) -> (changed: bool)
        ensures
            final(self)@.features == with_parameter(
                old(self)@.features,
                feature@,
                parameter@,
                is_selected,
            ),
            final(self).registration_params == old(self).registration_params,
            changed == (final(self)@.features != old(self)@.features),
    {
        let ghost before = panel_entries(self.selected_params);
        let replacement = match panel_get(&self.selected_params, feature) {
            Some(info) => match choice_map_get(&info.parameters, parameter) {
                Some(flag) => {
                    if *flag == is_selected {
                        proof {
                            assert(before[feature@].parameters =~= before[feature@].parameters.insert(
                                parameter@,
                                is_selected,
                            ));
                        }
                        None
                    } else {
                        let mut parameters = choice_map_clone(&info.parameters);
                        choice_map_insert(&mut parameters, parameter.to_owned(), is_selected);
                        Some(FeatureInfo { is_expanded: info.is_expanded, parameters })
                    }
                },
                None => None,
            },
            None => None,
        };
        match replacement {
            Some(info) => {
                panel_insert(&mut self.selected_params, feature.to_owned(), info);
                proof {
                    let after = panel_entries(self.selected_params);
                    assert(after[feature@].parameters[parameter@]
                        != before[feature@].parameters[parameter@]);
                }
                true
            },
            None => {
                assert(before =~= with_parameter(before, feature@, parameter@, is_selected));
                false
            },
        }
    }

    /// Takes in what happened: changes the state, and tells what is to be
    /// done and whether the inspector is to be drawn again.
    ///
    /// A listing from the plugin replaces the listed features and keeps
    /// unfolded what was unfolded. Ticking a parameter sends the plugin the
    /// selection that is then shown. A feature or parameter that is not
    /// listed is left alone.
    pub fn update(&mut self, message: ComponentMessage) -> (update: Update)
        ensures
            final(self)@.features == features_after(old(self)@.features, message),
            final(self)@.registration_params == (match message {
                ComponentMessage::Connect(params) => Some(params),
                _ => old(self)@.registration_params,
            }),
            update.should_render == renders_after(old(self)@.features, message),
            commands_after(old(self)@, final(self)@, message, update.commands@),
    {
        let mut commands: Vec<Command> = Vec::new();
        match message {
            ComponentMessage::Connect(params) => {
                commands.push(Command::Connect { url: params.url.clone() });
                self.registration_params = Some(params);
                Update { should_render: false, commands }
            },
            ComponentMessage::Message(message) => {
                match message {
                    Message::SendToPropertyInspector { payload, .. } => match payload {
                        ToInspector::SetFeatures { selected_parameters } => {
                            self.show_listing(&selected_parameters);
                        },
                    },
                    _ => {},
                }
                Update { should_render: true, commands }
            },
            ComponentMessage::Status(status) => {
                match status {
                    SocketStatus::Opened => match &self.registration_params {
                        Some(params) => {
                            commands.push(
                                Command::Register {
                                    event: params.register_event.clone(),
                                    uuid: params.property_inspector_uuid.clone(),
                                },
                            );
                            commands.push(
                                Command::Send(
                                    MessageOut::SendToPlugin {
                                        action: params.action_info.action.clone(),
                                        context: params.property_inspector_uuid.clone(),
                                        payload: FromInspector::GetFeatures,
                                    },
                                ),
                            );
                        },
                        None => {},
                    },
                    _ => {},
                }
                Update { should_render: false, commands }
            },
            ComponentMessage::SetFeatureExpanded { feature, is_expanded } => {
                let changed = self.set_expanded(feature.as_str(), is_expanded);
                Update { should_render: changed, commands }
            },
            ComponentMessage::SetParameter { feature, parameter, is_selected } => {
                let changed = self.set_parameter(feature.as_str(), parameter.as_str(), is_selected);
                if changed {
                    match &self.registration_params {
                        Some(params) => {
                            commands.push(
                                Command::Send(
                                    MessageOut::SendToPlugin {
                                        action: params.action_info.action.clone(),
                                        context: params.property_inspector_uuid.clone(),
                                        payload: FromInspector::SetFeatures {
                                            selected_parameters: selection_of(&self.selected_params),
                                        },
                                    },
                                ),
                            );
                        },
                        None => {},
                    }
                }
                Update { should_render: changed, commands }
            },
        }
    }
}

} // verus!

//! What is read from the device and what is written to it.
//!
//! The device itself is reached elsewhere. This module turns a dump of the
//! device into the output and profile it shows, and a stored profile into the
//! configuration that switches the device to an output.

use vstd::prelude::*;

use crate::maps::{
    feature_entries, feature_map_get, feature_map_insert, feature_map_new, lists_each_once,
    name_members, name_set_names, param_entries, param_map_get, param_map_insert, param_map_new,
    same_text, selection_entries, selection_get, selection_names, FeatureMap, NameSet, ParamMap,
    Selection,
};
use crate::names::{lemma_listed_all, lemma_listed_fresh, lemma_listed_step, listed};
use crate::output::{output_of_value, Output};
use crate::profile::{Chosen, Features, Profile, ProfileView};
use crate::value::ParamValue;

verus! {

/// The name of the feature that holds the output selector.
pub open spec fn control_feature() -> Seq<char> {
    "Device Control"@
}

/// The name of the parameter that selects the output.
pub open spec fn selector_parameter() -> Seq<char> {
    "SelectOutput"@
}

/// The settings of the audio endpoint.
#[derive(Debug)]
pub struct EndpointConfiguration {
    /// The volume, as the bits of a single precision number.
    pub volume: Option<u32>,
}

/// A state of the device: as dumped from it, or as to be applied to it.
#[derive(Debug)]
pub struct Configuration {
    /// The endpoint settings, if any.
    pub endpoint: Option<EndpointConfiguration>,
    /// The device parameters, if any.
    pub creative: Option<FeatureMap>,
}

/// The abstract value of a [`Configuration`].
pub struct ConfigurationView {
    /// Whether endpoint settings are present.
    pub has_endpoint: bool,
    /// The endpoint volume; `None` also where there are no endpoint settings.
    pub volume: Option<u32>,
    /// The device parameters, if any.
    pub creative: Option<Features>,
}

impl View for Configuration {
    type V = ConfigurationView;

    open spec fn view(&self) -> ConfigurationView {
        ConfigurationView {
            has_endpoint: self.endpoint is Some,
            volume: match self.endpoint {
                Some(e) => e.volume,
                None => None,
            },
            creative: match self.creative {
                Some(m) => Some(feature_entries(m)),
                None => None,
            },
        }
    }
}

/// The output that a set of device parameters shows as selected, if the
/// selector is present and holds a known value.
pub open spec fn shown_output(features: Features) -> Option<Output> {
    if features.contains_key(control_feature()) && features[control_feature()].contains_key(
        selector_parameter(),
    ) {
        output_of_value(features[control_feature()][selector_parameter()])
    } else {
        None
    }
}

/// The output and profile that a dump of the device shows.
pub open spec fn shown_profile(state: ConfigurationView) -> Option<(Output, ProfileView)> {
    match state.creative {
        Some(features) => match shown_output(features) {
            Some(output) => Some(
                (output, ProfileView { volume: state.volume, parameters: features }),
            ),
            None => None,
        },
        None => None,
    }
}

/// The stored values of the chosen parameters of each chosen feature: a feature
/// is carried when it is both chosen and stored, with those of its stored
/// parameters that are chosen.
pub open spec fn carried_features(stored: Features, chosen: Chosen) -> Features {
    Map::new(
        |f: Seq<char>| chosen.contains_key(f) && stored.contains_key(f),
        |f: Seq<char>| stored[f].restrict(chosen[f]),
    )
}

/// The parameters to write when switching to `output`: the carried ones, with
/// the output selector set to the code of `output` whatever was stored or chosen.
pub open spec fn apply_features(output: Output, stored: Features, chosen: Chosen) -> Features {
    let carried = carried_features(stored, chosen);
    let control = if carried.contains_key(control_feature()) {
        carried[control_feature()]
    } else {
        Map::empty()
    };
    carried.insert(
        control_feature(),
        control.insert(selector_parameter(), ParamValue::U32(output.code_spec() as u32)),
    )
}

/// The configuration to apply when switching to `output`.
pub open spec fn apply_configuration(output: Output, profile: ProfileView, chosen: Chosen) -> ConfigurationView {
    ConfigurationView {
        has_endpoint: true,
        volume: profile.volume,
        creative: Some(apply_features(output, profile.parameters, chosen)),
    }
}

/// The values that `stored` holds for the names in `chosen`.
pub fn pick_params(stored: &ParamMap, chosen: &NameSet) -> (picked: ParamMap)
    ensures
        param_entries(picked) == param_entries(*stored).restrict(name_members(*chosen)),
{
    let names = name_set_names(chosen);
    let mut picked = param_map_new();
    let mut i: usize = 0;
    while i < names.len()
        invariant
            i <= names.len(),
            lists_each_once(names@, name_members(*chosen)),
            param_entries(picked) =~= param_entries(*stored).restrict(listed(names@, i as int)),
        decreases names.len() - i,
    {
        proof {
            lemma_listed_step(names@, i as int);
        }
        let name = &names[i];
        match param_map_get(stored, name.as_str()) {
            Some(value) => {
                param_map_insert(&mut picked, name.clone(), *value);
            },
            None => {},
        }
        i += 1;
    }
    proof {
        lemma_listed_all(names@, name_members(*chosen));
    }
    picked
}

/// The output that the device shows as selected, and the profile that it holds.
///
/// `None` where the dump has no device parameters, or where the output
/// selector is absent from them or holds an unknown value.
pub fn get_current_profile(device_state: Configuration) -> (shown: Option<(Output, Profile)>)
    ensures
        match shown {
            Some((output, profile)) => shown_profile(device_state@) == Some((output, profile@)),
            None => shown_profile(device_state@) is None,
        },
{
    let Configuration { endpoint, creative } = device_state;
    match creative {
        Some(creative) => {
            let output = match feature_map_get(&creative, "Device Control") {
                Some(control) => match param_map_get(control, "SelectOutput") {
                    Some(value) => Output::try_from(value),
                    None => None,
                },
                None => None,
            };
            match output {
                Some(output) => {
                    let volume = match endpoint {
                        Some(endpoint) => endpoint.volume,
                        None => None,
                    };
                    Some((output, Profile { volume, parameters: creative }))
                },
                None => None,
            }
        },
        None => None,
    }
}

/// Adding a chosen feature to those considered adds its carried parameters,
/// with the selector forced where the feature is the control feature.
proof fn lemma_apply_step(
    output: Output,
    stored: Features,
    chosen: Chosen,
    done: Set<Seq<char>>,
    f: Seq<char>,
)
    requires
        chosen.contains_key(f),
        !done.contains(f),
    ensures
        stored.contains_key(f) ==> apply_features(output, stored, chosen.restrict(done.insert(f)))
            == apply_features(output, stored, chosen.restrict(done)).insert(
            f,
            if f == control_feature() {
                stored[f].restrict(chosen[f]).insert(
                    selector_parameter(),
                    ParamValue::U32(output.code_spec() as u32),
                )
            } else {
                stored[f].restrict(chosen[f])
            },
        ),
        !stored.contains_key(f) ==> apply_features(
            output,
            stored,
            chosen.restrict(done.insert(f)),
        ) == apply_features(output, stored, chosen.restrict(done)),
{
    let before = chosen.restrict(done);
    let after = chosen.restrict(done.insert(f));
    let cb = carried_features(stored, before);
    let ca = carried_features(stored, after);
    assert(after =~= before.insert(f, chosen[f]));
    if stored.contains_key(f) {
        assert(ca =~= cb.insert(f, stored[f].restrict(chosen[f])));
        let added = if f == control_feature() {
            stored[f].restrict(chosen[f]).insert(
                selector_parameter(),
                ParamValue::U32(output.code_spec() as u32),
            )
        } else {
            stored[f].restrict(chosen[f])
        };
        assert(apply_features(output, stored, after) =~= apply_features(
            output,
            stored,
            before,
        ).insert(f, added));
    } else {
        assert(ca =~= cb);
    }
}

/// The configuration that switches the device to `output`.
///
/// It holds the volume of `profile`, the stored value of every parameter that
/// is both selected and stored, and the output selector, which is always set
/// to the code of `output`.
pub fn apply_profile(output: Output, profile: &Profile, selected_parameters: &Selection) -> (configuration:
    Configuration)
    ensures
        configuration@ == apply_configuration(
            output,
            profile@,
            selection_entries(*selected_parameters),
        ),
{
    let ghost stored = feature_entries(profile.parameters);
    let ghost chosen = selection_entries(*selected_parameters);
    let selector = ParamValue::U32(output.code() as u32);

    let mut control = param_map_new();
    param_map_insert(&mut control, "SelectOutput".to_owned(), selector);
    let mut creative = feature_map_new();
    feature_map_insert(&mut creative, "Device Control".to_owned(), control);

    let names = selection_names(selected_parameters);
    proof {
        assert(listed(names@, 0) =~= Set::<Seq<char>>::empty());
        assert(chosen.restrict(listed(names@, 0)) =~= Map::<Seq<char>, Set<Seq<char>>>::empty());
        assert(carried_features(stored, chosen.restrict(listed(names@, 0))) =~= Map::<
            Seq<char>,
            Map<Seq<char>, ParamValue>,
        >::empty());
        assert(feature_entries(creative) =~= apply_features(
            output,
            stored,
            chosen.restrict(listed(names@, 0)),
        ));
    }
    let mut i: usize = 0;
    while i < names.len()
        invariant
            i <= names.len(),
            stored == feature_entries(profile.parameters),
            chosen == selection_entries(*selected_parameters),
            selector == ParamValue::U32(output.code_spec() as u32),
            lists_each_once(names@, chosen.dom()),
            feature_entries(creative) == apply_features(
                output,
                stored,
                chosen.restrict(listed(names@, i as int)),
            ),
        decreases names.len() - i,
    {
        let name = &names[i];
        proof {
            lemma_listed_step(names@, i as int);
            lemma_listed_fresh(names@, chosen.dom(), i as int);
            assert(chosen.dom().contains(names@[i as int]@));
            lemma_apply_step(output, stored, chosen, listed(names@, i as int), name@);
        }
        match feature_map_get(&profile.parameters, name.as_str()) {
            Some(feature_in) => {
                match selection_get(selected_parameters, name.as_str()) {
                    Some(feature) => {
                        let mut feature_out = pick_params(feature_in, feature);
                        if same_text(name.as_str(), "Device Control") {
                            param_map_insert(&mut feature_out, "SelectOutput".to_owned(), selector);
                        }
                        feature_map_insert(&mut creative, name.clone(), feature_out);
                    },
                    None => {},
                }
            },
            None => {},
        }
        i += 1;
    }
    proof {
        lemma_listed_all(names@, chosen.dom());
        assert(chosen.restrict(chosen.dom()) =~= chosen);
    }
    Configuration {
        endpoint: Some(EndpointConfiguration { volume: profile.volume }),
        creative: Some(creative),
    }
}

/// The parameters written for a switch always hold the selector, set to the
/// code of the desired output, whatever is stored and whatever is selected;
/// so what is written shows the desired output.
pub proof fn lemma_selector_forced(output: Output, stored: Features, chosen: Chosen)
    ensures
        apply_features(output, stored, chosen).contains_key(control_feature()),
        apply_features(output, stored, chosen)[control_feature()].contains_key(
            selector_parameter(),
        ),
        apply_features(output, stored, chosen)[control_feature()][selector_parameter()]
            == ParamValue::U32(output.code_spec() as u32),
        shown_output(apply_features(output, stored, chosen)) == Some(output),
{
}

/// Apart from the selector, what is written for a switch is what is both
/// stored and selected.
pub proof fn lemma_applies_selected_only(
    output: Output,
    stored: Features,
    chosen: Chosen,
    feature: Seq<char>,
    parameter: Seq<char>,
)
    requires
        !(feature == control_feature() && parameter == selector_parameter()),
    ensures
        apply_features(output, stored, chosen).contains_key(feature) && apply_features(
            output,
            stored,
            chosen,
        )[feature].contains_key(parameter) <==> chosen.contains_key(feature) && chosen[feature].contains(
            parameter,
        ) && stored.contains_key(feature) && stored[feature].contains_key(parameter),
        chosen.contains_key(feature) && chosen[feature].contains(parameter) && stored.contains_key(
            feature,
        ) && stored[feature].contains_key(parameter) ==> apply_features(
            output,
            stored,
            chosen,
        )[feature][parameter] == stored[feature][parameter],
{
}

} // verus!

//! Stored profiles: per output, a volume and the parameter values last seen.

use vstd::prelude::*;

use crate::maps::{
    feature_entries, feature_map_entry, feature_map_new, no_features, no_selection,
    param_map_insert, selection_entries, selection_new, FeatureMap, Selection,
};
use crate::output::Output;
use crate::value::ParamValue;

verus! {

/// The abstract contents of a feature map: feature name to parameter name to value.
pub type Features = Map<Seq<char>, Map<Seq<char>, ParamValue>>;

/// The abstract contents of a selection: feature name to chosen parameter names.
pub type Chosen = Map<Seq<char>, Set<Seq<char>>>;

/// What is remembered for one output.
#[derive(Debug)]
pub struct Profile {
    /// The endpoint volume, as the bits of a single precision number, if known.
    pub volume: Option<u32>,
    /// The device parameters, by feature and parameter name.
    pub parameters: FeatureMap,
}

/// The abstract value of a [`Profile`].
pub struct ProfileView {
    pub volume: Option<u32>,
    pub parameters: Features,
}

impl View for Profile {
    type V = ProfileView;

    open spec fn view(&self) -> ProfileView {
        ProfileView { volume: self.volume, parameters: feature_entries(self.parameters) }
    }
}

impl ProfileView {
    /// A profile with no volume and no parameters.
    pub open spec fn empty() -> ProfileView {
        ProfileView { volume: None, parameters: no_features() }
    }

    /// This profile with `value` stored under `feature` and `parameter`, the
    /// feature being added if it was absent.
    pub open spec fn merge(self, feature: Seq<char>, parameter: Seq<char>, value: ParamValue) -> ProfileView {
        let before = if self.parameters.contains_key(feature) {
            self.parameters[feature]
        } else {
            Map::empty()
        };
        ProfileView {
            volume: self.volume,
            parameters: self.parameters.insert(feature, before.insert(parameter, value)),
        }
    }

    /// This profile with its volume replaced.
    pub open spec fn with_volume(self, volume: u32) -> ProfileView {
        ProfileView { volume: Some(volume), parameters: self.parameters }
    }
}

impl Default for Profile {
    fn default() -> (p: Profile)
        ensures
            p@ == ProfileView::empty(),
    {
        Profile { volume: None, parameters: feature_map_new() }
    }
}

impl Profile {
    /// Stores one observed value, adding the feature if the profile did not have it.
    pub fn merge_observed(&mut self, feature: String, parameter: String, value: ParamValue)
        ensures
            final(self)@ == old(self)@.merge(feature@, parameter@, value),
    {
        let params = feature_map_entry(&mut self.parameters, feature);
        param_map_insert(params, parameter, value);
    }

    /// Replaces the stored volume.
    pub fn set_volume(&mut self, volume: u32)
        ensures
            final(self)@ == old(self)@.with_volume(volume),
    {
        self.volume = Some(volume);
    }
}

/// The two profiles, one per output.
#[derive(Debug)]
pub struct Profiles {
    pub headphones: Profile,
    pub speakers: Profile,
}

/// The abstract value of [`Profiles`].
pub struct ProfilesView {
    pub headphones: ProfileView,
    pub speakers: ProfileView,
}

impl ProfilesView {
    /// The profile of `output`.
    pub open spec fn of(self, output: Output) -> ProfileView {
        match output {
            Output::Headphones => self.headphones,
            Output::Speakers => self.speakers,
        }
    }

    /// These profiles with that of `output` replaced.
    pub open spec fn with(self, output: Output, profile: ProfileView) -> ProfilesView {
        match output {
            Output::Headphones => ProfilesView { headphones: profile, speakers: self.speakers },
            Output::Speakers => ProfilesView { headphones: self.headphones, speakers: profile },
        }
    }
}

impl View for Profiles {
    type V = ProfilesView;

    open spec fn view(&self) -> ProfilesView {
        ProfilesView { headphones: self.headphones@, speakers: self.speakers@ }
    }
}

impl Default for Profiles {
    fn default() -> (p: Profiles)
        ensures
            p@.headphones == ProfileView::empty(),
            p@.speakers == ProfileView::empty(),
    {
        Profiles { headphones: Profile::default(), speakers: Profile::default() }
    }
}

impl Profiles {
    /// The profile of `output`.
    pub fn index(&self, index: Output) -> (p: &Profile)
        ensures
            p@ == self@.of(index),
    {
        match index {
            Output::Headphones => &self.headphones,
            Output::Speakers => &self.speakers,
        }
    }

    /// The profile of `output`, to be changed in place: what the caller leaves
    /// in it becomes the profile of `output`, and the other profile stays.
    pub fn index_mut(&mut self, index: Output) -> (p: &mut Profile)
        ensures
            p@ == old(self)@.of(index),
            final(self)@ == old(self)@.with(index, final(p)@),
    {
        match index {
            Output::Headphones => &mut self.headphones,
            Output::Speakers => &mut self.speakers,
        }
    }

    /// Replaces the profile of `output`.
    pub fn set(&mut self, output: Output, profile: Profile)
        ensures
            final(self)@ == old(self)@.with(output, profile@),
    {
        match output {
            Output::Headphones => {
                self.headphones = profile;
            },
            Output::Speakers => {
                self.speakers = profile;
            },
        }
    }

    /// Stores one observed value in the profile of `output`.
    pub fn merge_observed(&mut self, output: Output, feature: String, parameter: String, value: ParamValue)
        ensures
            final(self)@ == old(self)@.with(
                output,
                old(self)@.of(output).merge(feature@, parameter@, value),
            ),
    {
        match output {
            Output::Headphones => self.headphones.merge_observed(feature, parameter, value),
            Output::Speakers => self.speakers.merge_observed(feature, parameter, value),
        }
    }

    /// Replaces the volume in the profile of `output`.
    pub fn set_volume(&mut self, output: Output, volume: u32)
        ensures
            final(self)@ == old(self)@.with(output, old(self)@.of(output).with_volume(volume)),
    {
        match output {
            Output::Headphones => self.headphones.set_volume(volume),
            Output::Speakers => self.speakers.set_volume(volume),
        }
    }
}

/// Everything that is persisted: the selection and the two profiles.
#[derive(Debug)]
pub struct CardSettings {
    /// The parameters that are carried over when the output is switched.
    pub selected_parameters: Selection,
    pub profiles: Profiles,
}

/// The abstract value of [`CardSettings`].
pub struct SettingsView {
    pub selection: Chosen,
    pub profiles: ProfilesView,
}

impl SettingsView {
    /// Settings with nothing selected and two empty profiles.
    pub open spec fn empty() -> SettingsView {
        SettingsView {
            selection: no_selection(),
            profiles: ProfilesView { headphones: ProfileView::empty(), speakers: ProfileView::empty() },
        }
    }
}

impl View for CardSettings {
    type V = SettingsView;

    open spec fn view(&self) -> SettingsView {
        SettingsView {
            selection: selection_entries(self.selected_parameters),
            profiles: self.profiles@,
        }
    }
}

impl Default for CardSettings {
    fn default() -> (s: CardSettings)
        ensures
            s@ == SettingsView::empty(),
    {
        CardSettings { selected_parameters: selection_new(), profiles: Profiles::default() }
    }
}

} // verus!

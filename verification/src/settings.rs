//! The persisted form of the settings, and the conversion to and from it.
//!
//! In the persisted record a parameter value is a number or a boolean. Loading
//! sorts integers into signed and unsigned 32-bit values and leaves out those
//! that fit neither; saving leaves out values that have no number or boolean
//! form.

use vstd::prelude::*;

use crate::maps::{
    feature_entries, feature_map_get, feature_map_insert, feature_map_names, feature_map_new,
    lists_each_once, param_entries, param_map_get, param_map_insert, param_map_names,
    param_map_new, selection_clone, selection_entries, FeatureMap, ParamMap, Selection,
};
use crate::names::{lemma_listed_all, lemma_listed_fresh, lemma_listed_step, listed};
use crate::profile::{CardSettings, Features, Profile, ProfileView, Profiles, ProfilesView, SettingsView};
use crate::value::{finite_bits, finite_bits_spec, ParamValue};

verus! {

/// A parameter value as the persisted record holds it.
#[derive(Clone, Copy, Debug, PartialEq, Eq, Structural)]
pub enum StoredValue {
    /// A number written as an integer that fits 64 signed bits.
    Integer(i64),
    /// A number written as an integer that fits 64 unsigned bits; the form
    /// for the integers above the largest 64-bit signed value.
    Unsigned(u64),
    /// A number that is not written as an integer, as the bits of the nearest
    /// single precision number.
    Real(u32),
    /// A boolean.
    Bool(bool),
    /// Anything that is neither a number nor a boolean.
    Other,
}

/// One named value of the persisted record.
#[derive(Debug)]
pub struct StoredParameter {
    pub name: String,
    pub value: StoredValue,
}

/// One feature of the persisted record, with its values in the order written.
#[derive(Debug)]
pub struct StoredFeature {
    pub name: String,
    pub parameters: Vec<StoredParameter>,
}

/// The persisted form of a profile.
#[derive(Debug)]
pub struct SerdeProfile {
    /// The volume, as the bits of a single precision number.
    pub volume: Option<u32>,
    /// The features in the order written; where a name occurs twice the later entry counts.
    pub parameters: Vec<StoredFeature>,
}

/// The persisted form of the two profiles.
#[derive(Debug)]
pub struct SerdeProfiles {
    pub headphones: SerdeProfile,
    pub speakers: SerdeProfile,
}

/// The persisted form of the settings.
#[derive(Debug)]
pub struct SerdeCardSettings {
    pub selected_parameters: Selection,
    pub profiles: SerdeProfiles,
}

/// The device value that a persisted value loads as, if any.
///
/// An integer loads as a signed value where it fits 32 signed bits, else as an
/// unsigned value where it fits 32 unsigned bits, else not at all.
pub open spec fn device_form(value: StoredValue) -> Option<ParamValue> {
    match value {
        StoredValue::Unsigned(n) => if n <= 0x7fff_ffff {
            Some(ParamValue::I32(n as i32))
        } else if n <= 0xffff_ffff {
            Some(ParamValue::U32(n as u32))
        } else {
            None
        },
        StoredValue::Integer(n) => if n < -0x8000_0000 {
            None
        } else if n <= 0x7fff_ffff {
            Some(ParamValue::I32(n as i32))
        } else if n <= 0xffff_ffff {
            Some(ParamValue::U32(n as u32))
        } else {
            None
        },
        StoredValue::Real(bits) => Some(ParamValue::Float(bits)),
        StoredValue::Bool(b) => Some(ParamValue::Bool(b)),
        StoredValue::Other => None,
    }
}

/// The persisted value that a device value is saved as, if any.
///
/// A floating point value is saved only where it is finite.
pub open spec fn stored_form(value: ParamValue) -> Option<StoredValue> {
    match value {
        ParamValue::I32(n) => Some(StoredValue::Integer(n as i64)),
        ParamValue::U32(n) => Some(StoredValue::Integer(n as i64)),
        ParamValue::Float(bits) => if finite_bits_spec(bits) {
            Some(StoredValue::Real(bits))
        } else {
            None
        },
        ParamValue::Bool(b) => Some(StoredValue::Bool(b)),
        ParamValue::Other => None,
    }
}

/// The parameter map that a list of persisted values loads as: the values
/// that have a device form, a later entry replacing an earlier one of the same name.
pub open spec fn loaded_params(stored: Seq<StoredParameter>) -> Map<Seq<char>, ParamValue>
    decreases stored.len(),
{
    if stored.len() == 0 {
        Map::empty()
    } else {
        let before = loaded_params(stored.drop_last());
        match device_form(stored.last().value) {
            Some(value) => before.insert(stored.last().name@, value),
            None => before,
        }
    }
}

/// The feature map that a list of persisted features loads as, a later entry
/// replacing an earlier one of the same name.
pub open spec fn loaded_features(stored: Seq<StoredFeature>) -> Features
    decreases stored.len(),
{
    if stored.len() == 0 {
        Map::empty()
    } else {
        loaded_features(stored.drop_last()).insert(
            stored.last().name@,
            loaded_params(stored.last().parameters@),
        )
    }
}

/// The profile that a persisted profile loads as.
pub open spec fn loaded_profile(stored: SerdeProfile) -> ProfileView {
    ProfileView { volume: stored.volume, parameters: loaded_features(stored.parameters@) }
}

/// The settings that a persisted record loads as.
pub open spec fn loaded_settings(stored: SerdeCardSettings) -> SettingsView {
    SettingsView {
        selection: selection_entries(stored.selected_parameters),
        profiles: ProfilesView {
            headphones: loaded_profile(stored.profiles.headphones),
            speakers: loaded_profile(stored.profiles.speakers),
        },
    }
}

/// The values of a parameter map that are saved, each in its persisted form.
pub open spec fn saved_params(params: Map<Seq<char>, ParamValue>) -> Map<Seq<char>, StoredValue> {
    Map::new(
        |k: Seq<char>| params.contains_key(k) && stored_form(params[k]) is Some,
        |k: Seq<char>| stored_form(params[k])->0,
    )
}

/// The features that are saved: every feature, with its saved values.
pub open spec fn saved_features(features: Features) -> Map<Seq<char>, Map<Seq<char>, StoredValue>> {
    Map::new(|f: Seq<char>| features.contains_key(f), |f: Seq<char>| saved_params(features[f]))
}

/// What a list of persisted values holds, by name.
pub open spec fn record_params(stored: Seq<StoredParameter>) -> Map<Seq<char>, StoredValue>
    decreases stored.len(),
{
    if stored.len() == 0 {
        Map::empty()
    } else {
        record_params(stored.drop_last()).insert(stored.last().name@, stored.last().value)
    }
}

/// What a list of persisted features holds, by name.
pub open spec fn record_features(stored: Seq<StoredFeature>) -> Map<
    Seq<char>,
    Map<Seq<char>, StoredValue>,
>
    decreases stored.len(),
{
    if stored.len() == 0 {
        Map::empty()
    } else {
        record_features(stored.drop_last()).insert(
            stored.last().name@,
            record_params(stored.last().parameters@),
        )
    }
}

/// No two entries of the list have the same name.
pub open spec fn distinct_parameters(stored: Seq<StoredParameter>) -> bool {
    forall|i: int, j: int|
        0 <= i < j < stored.len() ==> #[trigger] stored[i].name@ != #[trigger] stored[j].name@
}

/// No two features of the list have the same name, and none holds a name twice.
pub open spec fn distinct_features(stored: Seq<StoredFeature>) -> bool {
    &&& forall|i: int, j: int|
        0 <= i < j < stored.len() ==> #[trigger] stored[i].name@ != #[trigger] stored[j].name@
    &&& forall|i: int| 0 <= i < stored.len() ==> distinct_parameters(#[trigger] stored[i].parameters@)
}

/// Whether the persisted form of a profile holds exactly what is saved of `profile`.
pub open spec fn saves_profile(stored: SerdeProfile, profile: ProfileView) -> bool {
    &&& stored.volume == profile.volume
    &&& distinct_features(stored.parameters@)
    &&& record_features(stored.parameters@) == saved_features(profile.parameters)
}

/// Whether a persisted record holds exactly what is saved of `settings`.
pub open spec fn saves_settings(stored: SerdeCardSettings, settings: SettingsView) -> bool {
    &&& selection_entries(stored.selected_parameters) == settings.selection
    &&& saves_profile(stored.profiles.headphones, settings.profiles.headphones)
    &&& saves_profile(stored.profiles.speakers, settings.profiles.speakers)
}

/// The integer that a persisted value is written as, if it is written as one.
pub open spec fn written_integer(value: StoredValue) -> Option<int> {
    match value {
        StoredValue::Integer(n) => Some(n as int),
        StoredValue::Unsigned(n) => Some(n as int),
        _ => None,
    }
}

/// Sorts a persisted value into the kind of device value it stands for.
pub fn to_device_value(value: StoredValue) -> (converted: Option<ParamValue>)
    ensures
        converted == device_form(value),
{
    match value {
        StoredValue::Integer(n) => {
            if n < -0x8000_0000 {
                None
            } else if n <= 0x7fff_ffff {
                Some(ParamValue::I32(n as i32))
            } else if n <= 0xffff_ffff {
                Some(ParamValue::U32(n as u32))
            } else {
                None
            }
        },
        StoredValue::Unsigned(n) => {
            if n <= 0x7fff_ffff {
                Some(ParamValue::I32(n as i32))
            } else if n <= 0xffff_ffff {
                Some(ParamValue::U32(n as u32))
            } else {
                None
            }
        },
        StoredValue::Real(bits) => Some(ParamValue::Float(bits)),
        StoredValue::Bool(b) => Some(ParamValue::Bool(b)),
        StoredValue::Other => None,
    }
}

/// Gives the persisted form of a device value.
pub fn to_stored_value(value: ParamValue) -> (converted: Option<StoredValue>)
    ensures
        converted == stored_form(value),
{
    match value {
        ParamValue::I32(n) => Some(StoredValue::Integer(n as i64)),
        ParamValue::U32(n) => Some(StoredValue::Integer(n as i64)),
        ParamValue::Float(bits) => {
            if finite_bits(bits) {
                Some(StoredValue::Real(bits))
            } else {
                None
            }
        },
        ParamValue::Bool(b) => Some(StoredValue::Bool(b)),
        ParamValue::Other => None,
    }
}

fn load_params(stored: &Vec<StoredParameter>) -> (params: ParamMap)
    ensures
        param_entries(params) == loaded_params(stored@),
{
    let mut params = param_map_new();
    let mut i: usize = 0;
    while i < stored.len()
        invariant
            i <= stored.len(),
            param_entries(params) == loaded_params(stored@.take(i as int)),
        decreases stored.len() - i,
    {
        proof {
            assert(stored@.take(i + 1).drop_last() =~= stored@.take(i as int));
        }
        match to_device_value(stored[i].value) {
            Some(value) => {
                param_map_insert(&mut params, stored[i].name.clone(), value);
            },
            None => {},
        }
        i += 1;
    }
    proof {
        assert(stored@.take(stored.len() as int) =~= stored@);
    }
    params
}

/// Builds the parameters of a profile from their persisted form.
///
/// Values that are neither numbers nor booleans are left out, and so are
/// integers that fit neither 32 signed nor 32 unsigned bits.
pub fn convert_to_soundcore(value: &Vec<StoredFeature>) -> (features: FeatureMap)
    ensures
        feature_entries(features) == loaded_features(value@),
{
    let mut features = feature_map_new();
    let mut i: usize = 0;
    while i < value.len()
        invariant
            i <= value.len(),
            feature_entries(features) == loaded_features(value@.take(i as int)),
        decreases value.len() - i,
    {
        proof {
            assert(value@.take(i + 1).drop_last() =~= value@.take(i as int));
        }
        let params = load_params(&value[i].parameters);
        feature_map_insert(&mut features, value[i].name.clone(), params);
        i += 1;
    }
    proof {
        assert(value@.take(value.len() as int) =~= value@);
    }
    features
}

/// Builds the settings from their persisted form.
pub fn load(de: SerdeCardSettings) -> (settings: CardSettings)
    ensures
        settings@ == loaded_settings(de),
{
    let headphones = Profile {
        volume: de.profiles.headphones.volume,
        parameters: convert_to_soundcore(&de.profiles.headphones.parameters),
    };
    let speakers = Profile {
        volume: de.profiles.speakers.volume,
        parameters: convert_to_soundcore(&de.profiles.speakers.parameters),
    };
    CardSettings {
        selected_parameters: de.selected_parameters,
        profiles: Profiles { headphones, speakers },
    }
}

fn save_params(params: &ParamMap) -> (stored: Vec<StoredParameter>)
    ensures
        distinct_parameters(stored@),
        record_params(stored@) == saved_params(param_entries(*params)),
{
    let ghost held = param_entries(*params);
    let names = param_map_names(params);
    let mut stored: Vec<StoredParameter> = Vec::new();
    let mut i: usize = 0;
    proof {
        assert(saved_params(held).restrict(listed(names@, 0)) =~= record_params(stored@));
    }
    while i < names.len()
        invariant
            i <= names.len(),
            held == param_entries(*params),
            lists_each_once(names@, held.dom()),
            distinct_parameters(stored@),
            forall|j: int|
                0 <= j < stored@.len() ==> listed(names@, i as int).contains(
                    #[trigger] stored@[j].name@,
                ),
            record_params(stored@) == saved_params(held).restrict(listed(names@, i as int)),
        decreases names.len() - i,
    {
        proof {
            lemma_listed_step(names@, i as int);
            lemma_listed_fresh(names@, held.dom(), i as int);
            assert(held.dom().contains(names@[i as int]@));
        }
        let ghost before = stored@;
        let name = &names[i];
        let kept = match param_map_get(params, name.as_str()) {
            Some(value) => to_stored_value(*value),
            None => None,
        };
        match kept {
            Some(value) => {
                stored.push(StoredParameter { name: name.clone(), value });
                proof {
                    assert(stored@.drop_last() =~= before);
                    assert(record_params(stored@) =~= saved_params(held).restrict(
                        listed(names@, i + 1),
                    ));
                }
            },
            None => {
                proof {
                    assert(record_params(stored@) =~= saved_params(held).restrict(
                        listed(names@, i + 1),
                    ));
                }
            },
        }
        i += 1;
    }
    proof {
        lemma_listed_all(names@, held.dom());
        assert(saved_params(held).restrict(held.dom()) =~= saved_params(held));
    }
    stored
}

/// Gives the persisted form of the parameters of a profile.
///
/// Every feature is written once, with each of its values that has a
/// persisted form: integers, booleans and finite floating point values.
pub fn convert_from_soundcore(value: &FeatureMap) -> (stored: Vec<StoredFeature>)
    ensures
        distinct_features(stored@),
        record_features(stored@) == saved_features(feature_entries(*value)),
{
    let ghost held = feature_entries(*value);
    let names = feature_map_names(value);
    let mut stored: Vec<StoredFeature> = Vec::new();
    let mut i: usize = 0;
    proof {
        assert(saved_features(held).restrict(listed(names@, 0)) =~= record_features(stored@));
    }
    while i < names.len()
        invariant
            i <= names.len(),
            held == feature_entries(*value),
            lists_each_once(names@, held.dom()),
            distinct_features(stored@),
            forall|j: int|
                0 <= j < stored@.len() ==> listed(names@, i as int).contains(
                    #[trigger] stored@[j].name@,
                ),
            record_features(stored@) == saved_features(held).restrict(listed(names@, i as int)),
        decreases names.len() - i,
    {
        proof {
            lemma_listed_step(names@, i as int);
            lemma_listed_fresh(names@, held.dom(), i as int);
            assert(held.dom().contains(names@[i as int]@));
        }
        let ghost before = stored@;
        let name = &names[i];
        match feature_map_get(value, name.as_str()) {
            Some(params) => {
                let parameters = save_params(params);
                stored.push(StoredFeature { name: name.clone(), parameters });
                proof {
                    assert(stored@.drop_last() =~= before);
                    assert(record_features(stored@) =~= saved_features(held).restrict(
                        listed(names@, i + 1),
                    ));
                }
            },
            None => {},
        }
        i += 1;
    }
    proof {
        lemma_listed_all(names@, held.dom());
        assert(saved_features(held).restrict(held.dom()) =~= saved_features(held));
    }
    stored
}

/// Gives the persisted form of the settings.
pub fn prepare_for_save(settings: &CardSettings) -> (stored: SerdeCardSettings)
    ensures
        saves_settings(stored, settings@),
{
    SerdeCardSettings {
        selected_parameters: selection_clone(&settings.selected_parameters),
        profiles: SerdeProfiles {
            headphones: SerdeProfile {
                volume: settings.profiles.headphones.volume,
                parameters: convert_from_soundcore(&settings.profiles.headphones.parameters),
            },
            speakers: SerdeProfile {
                volume: settings.profiles.speakers.volume,
                parameters: convert_from_soundcore(&settings.profiles.speakers.parameters),
            },
        },
    }
}

/// An integer loads by its range alone: as a signed value from -2^31 to
/// 2^31 - 1, as an unsigned value from 2^31 to 2^32 - 1, and not at all
/// outside of these, however large it is.
pub proof fn lemma_integers_load_by_range(value: StoredValue)
    requires
        written_integer(value) is Some,
    ensures
        ({
            let n = written_integer(value)->0;
            device_form(value) == (if -0x8000_0000 <= n <= 0x7fff_ffff {
                Some(ParamValue::I32(n as i32))
            } else if 0x8000_0000 <= n <= 0xffff_ffff {
                Some(ParamValue::U32(n as u32))
            } else {
                None
            })
        }),
{
}

/// An entry that does not load leaves no trace: the list without it loads as
/// the list with it.
pub proof fn lemma_dropped_parameter_changes_nothing(stored: Seq<StoredParameter>, at: int)
    requires
        0 <= at < stored.len(),
        device_form(stored[at].value) is None,
    ensures
        loaded_params(stored.remove(at)) == loaded_params(stored),
    decreases stored.len(),
{
    if at == stored.len() - 1 {
        assert(stored.remove(at) =~= stored.drop_last());
    } else {
        lemma_dropped_parameter_changes_nothing(stored.drop_last(), at);
        assert(stored.remove(at).drop_last() =~= stored.drop_last().remove(at));
        assert(stored.remove(at).last() == stored.last());
    }
}

/// Taking an entry that does not load out of one feature changes nothing of
/// what the record loads as, in that feature or in any other.
pub proof fn lemma_dropped_entry_changes_nothing(
    stored: Seq<StoredFeature>,
    changed: Seq<StoredFeature>,
    feature: int,
    at: int,
)
    requires
        0 <= feature < stored.len(),
        0 <= at < stored[feature].parameters@.len(),
        device_form(stored[feature].parameters@[at].value) is None,
        changed.len() == stored.len(),
        forall|i: int| 0 <= i < stored.len() ==> (#[trigger] changed[i]).name@ == stored[i].name@,
        forall|i: int|
            0 <= i < stored.len() && i != feature ==> (#[trigger] changed[i]).parameters@
                == stored[i].parameters@,
        changed[feature].parameters@ == stored[feature].parameters@.remove(at),
    ensures
        loaded_features(changed) == loaded_features(stored),
{
    lemma_dropped_parameter_changes_nothing(stored[feature].parameters@, at);
    lemma_loads_alike(changed, stored);
}

/// Two records load alike where their features have the same names and load alike, one by one.
pub proof fn lemma_loads_alike(a: Seq<StoredFeature>, b: Seq<StoredFeature>)
    requires
        a.len() == b.len(),
        forall|i: int| 0 <= i < a.len() ==> (#[trigger] a[i]).name@ == b[i].name@,
        forall|i: int|
            0 <= i < a.len() ==> loaded_params((#[trigger] a[i]).parameters@) == loaded_params(
                b[i].parameters@,
            ),
    ensures
        loaded_features(a) == loaded_features(b),
    decreases a.len(),
{
    if a.len() > 0 {
        assert forall|i: int| 0 <= i < a.drop_last().len() implies (#[trigger] a.drop_last()[i]).name@
            == b.drop_last()[i].name@ && loaded_params(a.drop_last()[i].parameters@) == loaded_params(
            b.drop_last()[i].parameters@,
        ) by {
            assert(a.drop_last()[i] == a[i]);
            assert(b.drop_last()[i] == b[i]);
        }
        lemma_loads_alike(a.drop_last(), b.drop_last());
        assert(a.last() == a[a.len() - 1]);
        assert(b.last() == b[b.len() - 1]);
    }
}

} // verus!

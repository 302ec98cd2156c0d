//! The insertion-ordered maps and sets that hold profiles and selections.
//!
//! The collections come from the `indexmap` crate. Verus does not look inside
//! them: what each holds is named by a specification function, and the
//! functions below state, without proof, what the crate's methods do to those
//! contents. Everything else in this library is proved from these statements,
//! and from the one on `str`'s equality, with which names are compared.

use indexmap::{IndexMap, IndexSet};
use vstd::prelude::*;

use crate::inspector::{FeatureInfo, FeatureInfoView};
use crate::value::ParamValue;

verus! {

/// `indexmap::IndexMap`, opaque to the verifier.
#[verifier::external_type_specification]
#[verifier::external_body]
#[verifier::reject_recursive_types(K)]
#[verifier::reject_recursive_types(V)]
#[verifier::reject_recursive_types(S)]
pub struct ExIndexMap<K, V, S>(IndexMap<K, V, S>);

/// `indexmap::IndexSet`, opaque to the verifier.
#[verifier::external_type_specification]
#[verifier::external_body]
#[verifier::reject_recursive_types(T)]
#[verifier::reject_recursive_types(S)]
pub struct ExIndexSet<T, S>(IndexSet<T, S>);

/// The parameters of one feature, by name.
pub type ParamMap = IndexMap<String, ParamValue>;

/// The parameters of every feature, by feature name.
pub type FeatureMap = IndexMap<String, IndexMap<String, ParamValue>>;

/// A set of parameter names.
pub type NameSet = IndexSet<String>;

/// The parameter names chosen for each feature.
pub type Selection = IndexMap<String, IndexSet<String>>;

/// For each parameter of one feature, whether it is selected.
pub type ChoiceMap = IndexMap<String, bool>;

/// For each parameter of every feature, whether it is selected.
pub type Listing = IndexMap<String, IndexMap<String, bool>>;

/// The features that the property inspector shows, by name.
pub type PanelMap = IndexMap<String, FeatureInfo>;

/// The key-value pairs that a parameter map holds.
pub uninterp spec fn param_entries(m: IndexMap<String, ParamValue>) -> Map<Seq<char>, ParamValue>;

/// The features that a feature map holds, each with the pairs of its parameter map.
pub uninterp spec fn feature_entries(m: IndexMap<String, IndexMap<String, ParamValue>>) -> Map<
    Seq<char>,
    Map<Seq<char>, ParamValue>,
>;

/// The names that a name set holds.
pub uninterp spec fn name_members(s: IndexSet<String>) -> Set<Seq<char>>;

/// The features that a selection holds, each with the members of its name set.
pub uninterp spec fn selection_entries(m: IndexMap<String, IndexSet<String>>) -> Map<
    Seq<char>,
    Set<Seq<char>>,
>;

/// The key-value pairs that a choice map holds.
pub uninterp spec fn choice_entries(m: IndexMap<String, bool>) -> Map<Seq<char>, bool>;

/// The features that a listing holds, each with the pairs of its choice map.
pub uninterp spec fn listing_entries(m: IndexMap<String, IndexMap<String, bool>>) -> Map<
    Seq<char>,
    Map<Seq<char>, bool>,
>;

/// The features that a panel map holds, each by its abstract value.
pub uninterp spec fn panel_entries(m: IndexMap<String, FeatureInfo>) -> Map<
    Seq<char>,
    FeatureInfoView,
>;

/// The contents of an empty choice map.
pub open spec fn no_choices() -> Map<Seq<char>, bool> {
    Map::empty()
}

/// The contents of an empty listing.
pub open spec fn no_listing() -> Map<Seq<char>, Map<Seq<char>, bool>> {
    Map::empty()
}

/// The contents of an empty panel map.
pub open spec fn no_panel() -> Map<Seq<char>, FeatureInfoView> {
    Map::empty()
}

/// The contents of an empty parameter map.
pub open spec fn no_params() -> Map<Seq<char>, ParamValue> {
    Map::empty()
}

/// The contents of an empty feature map.
pub open spec fn no_features() -> Map<Seq<char>, Map<Seq<char>, ParamValue>> {
    Map::empty()
}

/// The contents of an empty selection.
pub open spec fn no_selection() -> Map<Seq<char>, Set<Seq<char>>> {
    Map::empty()
}

/// `names` lists every member of `keys` exactly once, and nothing else.
pub open spec fn lists_each_once(names: Seq<String>, keys: Set<Seq<char>>) -> bool {
    &&& forall|i: int| 0 <= i < names.len() ==> keys.contains(#[trigger] names[i]@)
    &&& forall|k: Seq<char>| #[trigger]
        keys.contains(k) ==> exists|i: int| 0 <= i < names.len() && #[trigger] names[i]@ == k
    &&& forall|i: int, j: int|
        0 <= i < j < names.len() ==> #[trigger] names[i]@ != #[trigger] names[j]@
}

/// `str`'s equality: two strings are equal when they hold the same characters.
#[verifier::external_body]
pub(crate) fn same_text(a: &str, b: &str) -> (same: bool)
    ensures
        same == (a@ == b@),
{
    a == b
}

/// `IndexMap::new`: the new map holds nothing.
#[verifier::external_body]
pub(crate) fn param_map_new() -> (m: ParamMap)
    ensures
        param_entries(m) == no_params(),
{
    IndexMap::new()
}

/// `IndexMap::get`: the value stored under `name`, if the map has that key.
#[verifier::external_body]
pub(crate) fn param_map_get<'a>(m: &'a ParamMap, name: &str) -> (value: Option<&'a ParamValue>)
    ensures
        value == (if param_entries(*m).contains_key(name@) {
            Some(&param_entries(*m)[name@])
        } else {
            None
        }),
{
    m.get(name)
}

/// `IndexMap::insert`: afterwards the map holds `value` under `name`, in place
/// of any value that was there, and every other pair as before.
#[verifier::external_body]
pub(crate) fn param_map_insert(m: &mut ParamMap, name: String, value: ParamValue)
    ensures
        param_entries(*final(m)) == param_entries(*old(m)).insert(name@, value),
{
    m.insert(name, value);
}

/// `IndexMap::keys`: the keys of the map, each once, copied out.
#[verifier::external_body]
pub(crate) fn param_map_names(m: &ParamMap) -> (names: Vec<String>)
    ensures
        lists_each_once(names@, param_entries(*m).dom()),
{
    m.keys().cloned().collect()
}

/// `IndexMap::new`: the new map holds nothing.
#[verifier::external_body]
pub(crate) fn feature_map_new() -> (m: FeatureMap)
    ensures
        feature_entries(m) == no_features(),
{
    IndexMap::new()
}

/// `IndexMap::get`: the parameter map stored under `name`, if the map has that key.
#[verifier::external_body]
pub(crate) fn feature_map_get<'a>(m: &'a FeatureMap, name: &str) -> (params: Option<&'a ParamMap>)
    ensures
        params is Some == feature_entries(*m).contains_key(name@),
        params matches Some(p) ==> param_entries(*p) == feature_entries(*m)[name@],
{
    m.get(name)
}

/// `IndexMap::insert`: afterwards the map holds `params` under `name`, in place
/// of any parameter map that was there, and every other feature as before.
#[verifier::external_body]
pub(crate) fn feature_map_insert(m: &mut FeatureMap, name: String, params: ParamMap)
    ensures
        feature_entries(*final(m)) == feature_entries(*old(m)).insert(name@, param_entries(params)),
{
    m.insert(name, params);
}

/// `IndexMap::entry` followed by `Entry::or_default`: the parameter map under
/// `name`, to be changed in place, an empty one having been inserted first if
/// the map had none. Whatever the caller leaves in it is what the map then
/// holds under `name`; every other feature stays as before.
#[verifier::external_body]
pub(crate) fn feature_map_entry(m: &mut FeatureMap, name: String) -> (params: &mut ParamMap)
    ensures
        param_entries(*params) == (if feature_entries(*old(m)).contains_key(name@) {
            feature_entries(*old(m))[name@]
        } else {
            no_params()
        }),
        feature_entries(*final(m)) == feature_entries(*old(m)).insert(
            name@,
            param_entries(*final(params)),
        ),
{
    m.entry(name).or_default()
}

/// `IndexMap::keys`: the keys of the map, each once, copied out.
#[verifier::external_body]
pub(crate) fn feature_map_names(m: &FeatureMap) -> (names: Vec<String>)
    ensures
        lists_each_once(names@, feature_entries(*m).dom()),
{
    m.keys().cloned().collect()
}

/// `IndexSet::new`: the new set holds nothing.
#[verifier::external_body]
pub(crate) fn name_set_new() -> (s: NameSet)
    ensures
        name_members(s) == Set::<Seq<char>>::empty(),
{
    IndexSet::new()
}

/// `IndexSet::contains`: whether `name` is a member.
#[verifier::external_body]
pub(crate) fn name_set_contains(s: &NameSet, name: &str) -> (found: bool)
    ensures
        found == name_members(*s).contains(name@),
{
    s.contains(name)
}

/// `IndexSet::insert`: afterwards `name` is a member, beside the former members.
#[verifier::external_body]
pub(crate) fn name_set_insert(s: &mut NameSet, name: String)
    ensures
        name_members(*final(s)) == name_members(*old(s)).insert(name@),
{
    s.insert(name);
}

/// `IndexSet::iter`: the members of the set, each once, copied out.
#[verifier::external_body]
pub(crate) fn name_set_names(s: &NameSet) -> (names: Vec<String>)
    ensures
        lists_each_once(names@, name_members(*s)),
{
    s.iter().cloned().collect()
}

/// `IndexMap::new`: the new map holds nothing.
#[verifier::external_body]
pub(crate) fn selection_new() -> (m: Selection)
    ensures
        selection_entries(m) == no_selection(),
{
    IndexMap::new()
}

/// `IndexMap::get`: the name set stored under `name`, if the map has that key.
#[verifier::external_body]
pub(crate) fn selection_get<'a>(m: &'a Selection, name: &str) -> (chosen: Option<&'a NameSet>)
    ensures
        chosen is Some == selection_entries(*m).contains_key(name@),
        chosen matches Some(s) ==> name_members(*s) == selection_entries(*m)[name@],
{
    m.get(name)
}

/// `IndexMap::insert`: afterwards the map holds `chosen` under `name`, in place
/// of any name set that was there, and every other feature as before.
#[verifier::external_body]
pub(crate) fn selection_insert(m: &mut Selection, name: String, chosen: NameSet)
    ensures
        selection_entries(*final(m)) == selection_entries(*old(m)).insert(
            name@,
            name_members(chosen),
        ),
{
    m.insert(name, chosen);
}

/// `IndexMap::clone`: the copy holds what the map holds.
#[verifier::external_body]
pub(crate) fn selection_clone(m: &Selection) -> (copy: Selection)
    ensures
        selection_entries(copy) == selection_entries(*m),
{
    m.clone()
}

/// `IndexMap::eq`: two maps are equal when they hold the same keys with equal
/// name sets, in whatever order.
#[verifier::external_body]
pub(crate) fn selection_eq(a: &Selection, b: &Selection) -> (same: bool)
    ensures
        same == (selection_entries(*a) == selection_entries(*b)),
{
    a == b
}

/// `IndexMap::keys`: the keys of the map, each once, copied out.
#[verifier::external_body]
pub(crate) fn selection_names(m: &Selection) -> (names: Vec<String>)
    ensures
        lists_each_once(names@, selection_entries(*m).dom()),
{
    m.keys().cloned().collect()
}

/// `IndexMap::new`: the new map holds nothing.
#[verifier::external_body]
pub(crate) fn choice_map_new() -> (m: ChoiceMap)
    ensures
        choice_entries(m) == no_choices(),
{
    IndexMap::new()
}

/// `IndexMap::get`: the flag stored under `name`, if the map has that key.
#[verifier::external_body]
pub(crate) fn choice_map_get<'a>(m: &'a ChoiceMap, name: &str) -> (flag: Option<&'a bool>)
    ensures
        flag == (if choice_entries(*m).contains_key(name@) {
            Some(&choice_entries(*m)[name@])
        } else {
            None
        }),
{
    m.get(name)
}

/// `IndexMap::insert`: afterwards the map holds `flag` under `name`, in place
/// of any flag that was there, and every other pair as before.
#[verifier::external_body]
pub(crate) fn choice_map_insert(m: &mut ChoiceMap, name: String, flag: bool)
    ensures
        choice_entries(*final(m)) == choice_entries(*old(m)).insert(name@, flag),
{
    m.insert(name, flag);
}

/// `IndexMap::keys`: the keys of the map, each once, copied out.
#[verifier::external_body]
pub(crate) fn choice_map_names(m: &ChoiceMap) -> (names: Vec<String>)
    ensures
        lists_each_once(names@, choice_entries(*m).dom()),
{
    m.keys().cloned().collect()
}

/// `IndexMap::clone`: the copy holds what the map holds.
#[verifier::external_body]
pub(crate) fn choice_map_clone(m: &ChoiceMap) -> (copy: ChoiceMap)
    ensures
        choice_entries(copy) == choice_entries(*m),
{
    m.clone()
}

/// `IndexMap::new`: the new map holds nothing.
#[verifier::external_body]
pub(crate) fn listing_new() -> (m: Listing)
    ensures
        listing_entries(m) == no_listing(),
{
    IndexMap::new()
}

/// `IndexMap::get`: the choice map stored under `name`, if the map has that key.
#[verifier::external_body]
pub(crate) fn listing_get<'a>(m: &'a Listing, name: &str) -> (choices: Option<&'a ChoiceMap>)
    ensures
        choices is Some == listing_entries(*m).contains_key(name@),
        choices matches Some(c) ==> choice_entries(*c) == listing_entries(*m)[name@],
{
    m.get(name)
}

/// `IndexMap::insert`: afterwards the map holds `choices` under `name`, in
/// place of any choice map that was there, and every other feature as before.
#[verifier::external_body]
pub(crate) fn listing_insert(m: &mut Listing, name: String, choices: ChoiceMap)
    ensures
        listing_entries(*final(m)) == listing_entries(*old(m)).insert(name@, choice_entries(choices)),
{
    m.insert(name, choices);
}

/// `IndexMap::keys`: the keys of the map, each once, copied out.
#[verifier::external_body]
pub(crate) fn listing_names(m: &Listing) -> (names: Vec<String>)
    ensures
        lists_each_once(names@, listing_entries(*m).dom()),
{
    m.keys().cloned().collect()
}

/// `IndexMap::new`: the new map holds nothing.
#[verifier::external_body]
pub(crate) fn panel_new() -> (m: PanelMap)
    ensures
        panel_entries(m) == no_panel(),
{
    IndexMap::new()
}

/// `IndexMap::get`: the feature stored under `name`, if the map has that key.
#[verifier::external_body]
pub(crate) fn panel_get<'a>(m: &'a PanelMap, name: &str) -> (info: Option<&'a FeatureInfo>)
    ensures
        info is Some == panel_entries(*m).contains_key(name@),
        info matches Some(i) ==> i@ == panel_entries(*m)[name@],
{
    m.get(name)
}

/// `IndexMap::insert`: afterwards the map holds `info` under `name`, in place
/// of any feature that was there, and every other feature as before.
#[verifier::external_body]
pub(crate) fn panel_insert(m: &mut PanelMap, name: String, info: FeatureInfo)
    ensures
        panel_entries(*final(m)) == panel_entries(*old(m)).insert(name@, info@),
{
    m.insert(name, info);
}

/// `IndexMap::keys`: the keys of the map, each once, copied out.
#[verifier::external_body]
pub(crate) fn panel_names(m: &PanelMap) -> (names: Vec<String>)
    ensures
        lists_each_once(names@, panel_entries(*m).dom()),
{
    m.keys().cloned().collect()
}

} // verus!

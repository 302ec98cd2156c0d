//! The messages exchanged between the plugin and its property inspector.

use vstd::prelude::*;

use crate::maps::{
    choice_entries, choice_map_insert, choice_map_new, feature_entries, feature_map_get,
    feature_map_names, listing_entries, listing_insert, listing_new, lists_each_once,
    name_members, name_set_contains, name_set_insert, name_set_new, param_entries,
    param_map_names, selection_entries, selection_get, selection_insert, selection_new,
    ChoiceMap, FeatureMap, Listing, NameSet, ParamMap, Selection,
};
use crate::names::{lemma_listed_all, lemma_listed_fresh, lemma_listed_step, listed};
use crate::profile::{Chosen, Features};

verus! {

/// Settings with nothing in them.
#[derive(Clone, Copy, Debug, Default, PartialEq, Eq, Structural)]
pub struct Empty {}

/// What the property inspector asks of the plugin.
#[derive(Debug)]
pub enum FromInspector {
    /// Asks for the features of the device and the current selection.
    GetFeatures,
    /// Replaces the selection.
    SetFeatures { selected_parameters: Selection },
}

/// What the plugin tells the property inspector.
#[derive(Debug)]
pub enum ToInspector {
    /// The features of the device, each parameter marked as selected or not.
    SetFeatures { selected_parameters: Listing },
}

/// For every parameter that the device offers, whether it is selected.
pub open spec fn offered(available: Features, chosen: Chosen) -> Map<Seq<char>, Map<Seq<char>, bool>> {
    Map::new(
        |f: Seq<char>| available.contains_key(f),
        |f: Seq<char>|
            Map::new(
                |p: Seq<char>| available[f].contains_key(p),
                |p: Seq<char>| chosen.contains_key(f) && chosen[f].contains(p),
            ),
    )
}

/// The part of a requested selection that the device offers: the requested
/// features that it has, each with the requested parameters that it has.
pub open spec fn granted(available: Features, requested: Chosen) -> Chosen {
    Map::new(
        |f: Seq<char>| available.contains_key(f) && requested.contains_key(f),
        |f: Seq<char>| available[f].dom().intersect(requested[f]),
    )
}

fn list_parameters(params: &ParamMap, chosen: Option<&NameSet>) -> (choices: ChoiceMap)
    ensures
        choice_entries(choices) == Map::new(
            |p: Seq<char>| param_entries(*params).contains_key(p),
            |p: Seq<char>| chosen is Some && name_members(*chosen->0).contains(p),
        ),
{
    let ghost held = param_entries(*params);
    let ghost marks = Map::new(
        |p: Seq<char>| held.contains_key(p),
        |p: Seq<char>| chosen is Some && name_members(*chosen->0).contains(p),
    );
    let names = param_map_names(params);
    let mut choices = choice_map_new();
    let mut i: usize = 0;
    proof {
        assert(marks.restrict(listed(names@, 0)) =~= choice_entries(choices));
    }
    while i < names.len()
        invariant
            i <= names.len(),
            held == param_entries(*params),
            marks == Map::new(
                |p: Seq<char>| held.contains_key(p),
                |p: Seq<char>| chosen is Some && name_members(*chosen->0).contains(p),
            ),
            lists_each_once(names@, held.dom()),
            choice_entries(choices) == marks.restrict(listed(names@, i as int)),
        decreases names.len() - i,
    {
        proof {
            lemma_listed_step(names@, i as int);
            assert(held.dom().contains(names@[i as int]@));
        }
        let name = &names[i];
        let selected = match chosen {
            Some(set) => name_set_contains(set, name.as_str()),
            None => false,
        };
        choice_map_insert(&mut choices, name.clone(), selected);
        proof {
            assert(choice_entries(choices) =~= marks.restrict(listed(names@, i + 1)));
        }
        i += 1;
    }
    proof {
        lemma_listed_all(names@, held.dom());
        assert(marks.restrict(held.dom()) =~= marks);
    }
    choices
}

/// Lists every feature and parameter that the device offers, each parameter
/// marked with whether `selected_parameters` holds it.
pub fn list_features(available: &FeatureMap, selected_parameters: &Selection) -> (listing: Listing)
    ensures
        listing_entries(listing) == offered(
            feature_entries(*available),
            selection_entries(*selected_parameters),
        ),
{
    let ghost held = feature_entries(*available);
    let ghost chosen = selection_entries(*selected_parameters);
    let names = feature_map_names(available);
    let mut listing = listing_new();
    let mut i: usize = 0;
    proof {
        assert(offered(held, chosen).restrict(listed(names@, 0)) =~= listing_entries(listing));
    }
    while i < names.len()
        invariant
            i <= names.len(),
            held == feature_entries(*available),
            chosen == selection_entries(*selected_parameters),
            lists_each_once(names@, held.dom()),
            listing_entries(listing) == offered(held, chosen).restrict(listed(names@, i as int)),
        decreases names.len() - i,
    {
        proof {
            lemma_listed_step(names@, i as int);
            assert(held.dom().contains(names@[i as int]@));
        }
        let name = &names[i];
        match feature_map_get(available, name.as_str()) {
            Some(params) => {
                let feature_selection = selection_get(selected_parameters, name.as_str());
                let choices = list_parameters(params, feature_selection);
                proof {
                    assert(choice_entries(choices) =~= offered(held, chosen)[name@]);
                }
                listing_insert(&mut listing, name.clone(), choices);
            },
            None => {},
        }
        proof {
            assert(listing_entries(listing) =~= offered(held, chosen).restrict(
                listed(names@, i + 1),
            ));
        }
        i += 1;
    }
    proof {
        lemma_listed_all(names@, held.dom());
        assert(offered(held, chosen).restrict(held.dom()) =~= offered(held, chosen));
    }
    listing
}

fn grant_parameters(params: &ParamMap, requested: &NameSet) -> (chosen: NameSet)
    ensures
        name_members(chosen) == param_entries(*params).dom().intersect(name_members(*requested)),
{
    let ghost held = param_entries(*params).dom();
    let ghost asked = name_members(*requested);
    let names = param_map_names(params);
    let mut chosen = name_set_new();
    let mut i: usize = 0;
    proof {
        assert(name_members(chosen) =~= listed(names@, 0).intersect(asked));
    }
    while i < names.len()
        invariant
            i <= names.len(),
            held == param_entries(*params).dom(),
            asked == name_members(*requested),
            lists_each_once(names@, held),
            name_members(chosen) == listed(names@, i as int).intersect(asked),
        decreases names.len() - i,
    {
        proof {
            lemma_listed_step(names@, i as int);
        }
        let name = &names[i];
        if name_set_contains(requested, name.as_str()) {
            name_set_insert(&mut chosen, name.clone());
        }
        proof {
            assert(name_members(chosen) =~= listed(names@, i + 1).intersect(asked));
        }
        i += 1;
    }
    proof {
        lemma_listed_all(names@, held);
    }
    chosen
}

/// Cuts a requested selection down to what the device offers: names that the
/// device does not have are left out.
pub fn grant_selection(available: &FeatureMap, requested: &Selection) -> (selection: Selection)
    ensures
        selection_entries(selection) == granted(
            feature_entries(*available),
            selection_entries(*requested),
        ),
{
    let ghost held = feature_entries(*available);
    let ghost asked = selection_entries(*requested);
    let names = feature_map_names(available);
    let mut selection = selection_new();
    let mut i: usize = 0;
    proof {
        assert(selection_entries(selection) =~= granted(held, asked).restrict(listed(names@, 0)));
    }
    while i < names.len()
        invariant
            i <= names.len(),
            held == feature_entries(*available),
            asked == selection_entries(*requested),
            lists_each_once(names@, held.dom()),
            selection_entries(selection) == granted(held, asked).restrict(listed(names@, i as int)),
        decreases names.len() - i,
    {
        proof {
            lemma_listed_step(names@, i as int);
            lemma_listed_fresh(names@, held.dom(), i as int);
            assert(held.dom().contains(names@[i as int]@));
        }
        let name = &names[i];
        match feature_map_get(available, name.as_str()) {
            Some(params) => {
                match selection_get(requested, name.as_str()) {
                    Some(feature_selection) => {
                        let chosen = grant_parameters(params, feature_selection);
                        selection_insert(&mut selection, name.clone(), chosen);
                    },
                    None => {},
                }
            },
            None => {},
        }
        proof {
            assert(selection_entries(selection) =~= granted(held, asked).restrict(
                listed(names@, i + 1),
            ));
        }
        i += 1;
    }
    proof {
        lemma_listed_all(names@, held.dom());
        assert(granted(held, asked).restrict(held.dom()) =~= granted(held, asked));
    }
    selection
}

/// A granted selection holds no feature that the device lacks, and under a
/// feature no parameter that the device lacks there; it holds every requested
/// name that the device has.
pub proof fn lemma_granted_is_intersection(
    available: Features,
    requested: Chosen,
    feature: Seq<char>,
    parameter: Seq<char>,
)
    ensures
        !available.contains_key(feature) ==> !granted(available, requested).contains_key(feature),
        granted(available, requested).contains_key(feature) && granted(
            available,
            requested,
        )[feature].contains(parameter) <==> available.contains_key(feature)
            && available[feature].contains_key(parameter) && requested.contains_key(feature)
            && requested[feature].contains(parameter),
{
}

} // verus!

use indexmap::{IndexMap, IndexSet};
use sbzdeck::device::{apply_profile, get_current_profile, Configuration, EndpointConfiguration};
use sbzdeck::output::Output;
use sbzdeck::profile::{CardSettings, Profile, Profiles};
use sbzdeck::settings::{
    convert_from_soundcore, convert_to_soundcore, load, prepare_for_save, to_device_value,
    to_stored_value, SerdeCardSettings, SerdeProfile, SerdeProfiles, StoredFeature,
    StoredParameter, StoredValue,
};
use sbzdeck::value::{finite_bits, ParamValue};

fn stored(entries: &[(&str, &[(&str, StoredValue)])]) -> Vec<StoredFeature> {
    entries
        .iter()
        .map(|(feature, params)| StoredFeature {
            name: feature.to_string(),
            parameters: params
                .iter()
                .map(|(name, value)| StoredParameter { name: name.to_string(), value: *value })
                .collect(),
        })
        .collect()
}

fn features(entries: &[(&str, &[(&str, ParamValue)])]) -> IndexMap<String, IndexMap<String, ParamValue>> {
    let mut map = IndexMap::new();
    for (feature, params) in entries {
        let mut inner = IndexMap::new();
        for (name, value) in params.iter() {
            inner.insert(name.to_string(), *value);
        }
        map.insert(feature.to_string(), inner);
    }
    map
}

fn flatten(saved: &[StoredFeature]) -> Vec<(String, Vec<(String, StoredValue)>)> {
    saved
        .iter()
        .map(|f| (f.name.clone(), f.parameters.iter().map(|p| (p.name.clone(), p.value)).collect()))
        .collect()
}

#[test]
fn loading_drops_an_integer_beyond_32_bits() {
    let record = SerdeCardSettings {
        selected_parameters: IndexMap::new(),
        profiles: SerdeProfiles {
            headphones: SerdeProfile {
                volume: Some(0.5f32.to_bits()),
                parameters: stored(&[(
                    "Device Control",
                    &[
                        ("Bass", StoredValue::Integer(3)),
                        ("TooBig", StoredValue::Integer(5_000_000_000)),
                        ("On", StoredValue::Bool(true)),
                    ],
                )]),
            },
            speakers: SerdeProfile {
                volume: None,
                parameters: stored(&[("EQ", &[("Level", StoredValue::Real(1.5f32.to_bits()))])]),
            },
        },
    };
    let settings = load(record);
    assert_eq!(
        settings.profiles.headphones.parameters,
        features(&[(
            "Device Control",
            &[("Bass", ParamValue::I32(3)), ("On", ParamValue::Bool(true))]
        )])
    );
    assert_eq!(settings.profiles.headphones.volume, Some(0.5f32.to_bits()));
    assert_eq!(
        settings.profiles.speakers.parameters,
        features(&[("EQ", &[("Level", ParamValue::Float(1.5f32.to_bits()))])])
    );
    assert_eq!(settings.profiles.speakers.volume, None);
}

#[test]
fn loading_drops_an_integer_beyond_64_signed_bits() {
    let with = convert_to_soundcore(&stored(&[
        (
            "F",
            &[("huge", StoredValue::Unsigned(18_446_744_073_709_551_615)), ("ok", StoredValue::Bool(true))],
        ),
        ("G", &[("x", StoredValue::Integer(1))]),
    ]));
    assert_eq!(
        with,
        features(&[("F", &[("ok", ParamValue::Bool(true))]), ("G", &[("x", ParamValue::I32(1))])])
    );
    let without = convert_to_soundcore(&stored(&[
        ("F", &[("ok", StoredValue::Bool(true))]),
        ("G", &[("x", StoredValue::Integer(1))]),
    ]));
    assert_eq!(with, without);
}

#[test]
fn integers_are_sorted_by_range() {
    assert_eq!(to_device_value(StoredValue::Integer(0)), Some(ParamValue::I32(0)));
    assert_eq!(to_device_value(StoredValue::Integer(-1)), Some(ParamValue::I32(-1)));
    assert_eq!(
        to_device_value(StoredValue::Integer(-2_147_483_648)),
        Some(ParamValue::I32(i32::MIN))
    );
    assert_eq!(to_device_value(StoredValue::Integer(-2_147_483_649)), None);
    assert_eq!(
        to_device_value(StoredValue::Integer(2_147_483_647)),
        Some(ParamValue::I32(i32::MAX))
    );
    assert_eq!(
        to_device_value(StoredValue::Integer(2_147_483_648)),
        Some(ParamValue::U32(2_147_483_648))
    );
    assert_eq!(
        to_device_value(StoredValue::Integer(4_294_967_295)),
        Some(ParamValue::U32(u32::MAX))
    );
    assert_eq!(to_device_value(StoredValue::Integer(4_294_967_296)), None);
    assert_eq!(to_device_value(StoredValue::Integer(i64::MAX)), None);
    assert_eq!(to_device_value(StoredValue::Unsigned(9_223_372_036_854_775_808)), None);
    assert_eq!(to_device_value(StoredValue::Unsigned(u64::MAX)), None);
    assert_eq!(to_device_value(StoredValue::Unsigned(4_294_967_296)), None);
    assert_eq!(
        to_device_value(StoredValue::Unsigned(4_294_967_295)),
        Some(ParamValue::U32(u32::MAX))
    );
    assert_eq!(to_device_value(StoredValue::Unsigned(7)), Some(ParamValue::I32(7)));
    assert_eq!(to_device_value(StoredValue::Integer(i64::MIN)), None);
    assert_eq!(to_device_value(StoredValue::Bool(false)), Some(ParamValue::Bool(false)));
    assert_eq!(to_device_value(StoredValue::Real(7)), Some(ParamValue::Float(7)));
    assert_eq!(to_device_value(StoredValue::Other), None);
}

#[test]
fn values_without_a_stored_form_are_left_out() {
    assert_eq!(to_stored_value(ParamValue::I32(-5)), Some(StoredValue::Integer(-5)));
    assert_eq!(
        to_stored_value(ParamValue::U32(u32::MAX)),
        Some(StoredValue::Integer(4_294_967_295))
    );
    assert_eq!(to_stored_value(ParamValue::Bool(true)), Some(StoredValue::Bool(true)));
    assert_eq!(
        to_stored_value(ParamValue::Float(0.25f32.to_bits())),
        Some(StoredValue::Real(0.25f32.to_bits()))
    );
    assert_eq!(to_stored_value(ParamValue::Float(f32::NAN.to_bits())), None);
    assert_eq!(to_stored_value(ParamValue::Float(f32::INFINITY.to_bits())), None);
    assert_eq!(to_stored_value(ParamValue::Float(f32::NEG_INFINITY.to_bits())), None);
    assert_eq!(to_stored_value(ParamValue::Other), None);
}

#[test]
fn finite_bits_agrees_with_the_float() {
    for value in [0.0f32, -0.0, 1.0, -1.5, f32::MAX, f32::MIN, f32::MIN_POSITIVE, f32::NAN, f32::INFINITY, f32::NEG_INFINITY] {
        assert_eq!(finite_bits(value.to_bits()), value.is_finite());
    }
    assert!(!finite_bits(0x7f80_0001));
    assert!(finite_bits(0x7f7f_ffff));
}

#[test]
fn a_later_entry_replaces_an_earlier_one() {
    let loaded = convert_to_soundcore(&stored(&[
        ("A", &[("x", StoredValue::Integer(1)), ("x", StoredValue::Integer(2))]),
        ("B", &[("y", StoredValue::Bool(true))]),
        ("A", &[("z", StoredValue::Integer(3)), ("w", StoredValue::Other)]),
    ]));
    assert_eq!(
        loaded,
        features(&[("A", &[("z", ParamValue::I32(3))]), ("B", &[("y", ParamValue::Bool(true))])])
    );
    let loaded = convert_to_soundcore(&stored(&[(
        "A",
        &[("x", StoredValue::Integer(1)), ("x", StoredValue::Integer(5_000_000_000))],
    )]));
    assert_eq!(loaded, features(&[("A", &[("x", ParamValue::I32(1))])]));
    assert!(convert_to_soundcore(&Vec::new()).is_empty());
}

#[test]
fn saving_writes_every_feature_with_its_storable_values() {
    let saved = convert_from_soundcore(&features(&[
        (
            "Device Control",
            &[
                ("SelectOutput", ParamValue::U32(1)),
                ("Bass", ParamValue::I32(-3)),
                ("Odd", ParamValue::Other),
                ("Nan", ParamValue::Float(f32::NAN.to_bits())),
                ("Level", ParamValue::Float(0.5f32.to_bits())),
                ("On", ParamValue::Bool(false)),
            ],
        ),
        ("Empty", &[("Odd", ParamValue::Other)]),
    ]));
    assert_eq!(
        flatten(&saved),
        vec![
            (
                "Device Control".to_string(),
                vec![
                    ("SelectOutput".to_string(), StoredValue::Integer(1)),
                    ("Bass".to_string(), StoredValue::Integer(-3)),
                    ("Level".to_string(), StoredValue::Real(0.5f32.to_bits())),
                    ("On".to_string(), StoredValue::Bool(false)),
                ]
            ),
            ("Empty".to_string(), vec![]),
        ]
    );
}

#[test]
fn prepare_for_save_copies_selection_and_volumes() {
    let mut selected: IndexMap<String, IndexSet<String>> = IndexMap::new();
    let mut names = IndexSet::new();
    names.insert("Bass".to_string());
    selected.insert("Device Control".to_string(), names);
    let settings = CardSettings {
        selected_parameters: selected.clone(),
        profiles: Profiles {
            headphones: Profile {
                volume: Some(0.25f32.to_bits()),
                parameters: features(&[("Device Control", &[("Bass", ParamValue::I32(4))])]),
            },
            speakers: Profile { volume: None, parameters: IndexMap::new() },
        },
    };
    let record = prepare_for_save(&settings);
    assert_eq!(record.selected_parameters, selected);
    assert_eq!(record.profiles.headphones.volume, Some(0.25f32.to_bits()));
    assert_eq!(record.profiles.speakers.volume, None);
    assert_eq!(
        flatten(&record.profiles.headphones.parameters),
        vec![("Device Control".to_string(), vec![("Bass".to_string(), StoredValue::Integer(4))])]
    );
    assert!(record.profiles.speakers.parameters.is_empty());

    let again = load(record);
    assert_eq!(again.selected_parameters, selected);
    assert_eq!(again.profiles.headphones.parameters, settings.profiles.headphones.parameters);
    assert_eq!(again.profiles.headphones.volume, settings.profiles.headphones.volume);
}

#[test]
fn default_settings_are_empty() {
    let settings = CardSettings::default();
    assert!(settings.selected_parameters.is_empty());
    assert_eq!(settings.profiles.headphones.volume, None);
    assert!(settings.profiles.headphones.parameters.is_empty());
    assert_eq!(settings.profiles.speakers.volume, None);
    assert!(settings.profiles.speakers.parameters.is_empty());
}

#[test]
fn current_profile_needs_a_known_selector() {
    let shown = get_current_profile(Configuration {
        endpoint: Some(EndpointConfiguration { volume: Some(0.6f32.to_bits()) }),
        creative: Some(features(&[
            ("Device Control", &[("SelectOutput", ParamValue::U32(1))]),
            ("EQ", &[("Level", ParamValue::I32(2))]),
        ])),
    });
    let (output, profile) = shown.expect("a profile");
    assert_eq!(output, Output::Speakers);
    assert_eq!(profile.volume, Some(0.6f32.to_bits()));
    assert_eq!(
        profile.parameters,
        features(&[
            ("Device Control", &[("SelectOutput", ParamValue::U32(1))]),
            ("EQ", &[("Level", ParamValue::I32(2))]),
        ])
    );

    let no_endpoint = get_current_profile(Configuration {
        endpoint: None,
        creative: Some(features(&[("Device Control", &[("SelectOutput", ParamValue::U32(0))])])),
    });
    let (output, profile) = no_endpoint.expect("a profile");
    assert_eq!(output, Output::Headphones);
    assert_eq!(profile.volume, None);

    for creative in [
        None,
        Some(features(&[])),
        Some(features(&[("Device Control", &[("Bass", ParamValue::U32(1))])])),
        Some(features(&[("Device Control", &[("SelectOutput", ParamValue::U32(2))])])),
        Some(features(&[("Device Control", &[("SelectOutput", ParamValue::I32(1))])])),
        Some(features(&[("Other", &[("SelectOutput", ParamValue::U32(1))])])),
    ] {
        assert!(get_current_profile(Configuration { endpoint: None, creative }).is_none());
    }
}

#[test]
fn apply_profile_carries_what_is_selected_and_stored() {
    let profile = Profile {
        volume: Some(0.8f32.to_bits()),
        parameters: features(&[
            ("Device Control", &[("Bass", ParamValue::I32(3)), ("Treble", ParamValue::I32(4))]),
            ("EQ", &[("Level", ParamValue::Bool(true))]),
            ("Surround", &[("On", ParamValue::Bool(true))]),
        ]),
    };
    let mut selected: IndexMap<String, IndexSet<String>> = IndexMap::new();
    selected.insert(
        "Device Control".to_string(),
        ["Bass".to_string(), "Absent".to_string()].into_iter().collect(),
    );
    selected.insert("EQ".to_string(), ["Nope".to_string()].into_iter().collect());
    selected.insert("Missing".to_string(), ["X".to_string()].into_iter().collect());

    let configuration = apply_profile(Output::Speakers, &profile, &selected);
    assert_eq!(configuration.endpoint.unwrap().volume, Some(0.8f32.to_bits()));
    assert_eq!(
        configuration.creative.unwrap(),
        features(&[
            (
                "Device Control",
                &[("SelectOutput", ParamValue::U32(1)), ("Bass", ParamValue::I32(3))]
            ),
            ("EQ", &[]),
        ])
    );

    let empty = apply_profile(Output::Headphones, &Profile::default(), &IndexMap::new());
    assert_eq!(empty.endpoint.unwrap().volume, None);
    assert_eq!(
        empty.creative.unwrap(),
        features(&[("Device Control", &[("SelectOutput", ParamValue::U32(0))])])
    );
}

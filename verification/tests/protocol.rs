use indexmap::IndexMap;
use sbzdeck::common::{Empty, FromInspector, ToInspector};
use sbzdeck::contexts::ContextSet;
use sbzdeck::coordinator::{ChangeEvent, Notification};
use sbzdeck::inspector::{
    selection_of, Command, ComponentMessage, FeatureInfo, Model, SocketStatus,
};
use sbzdeck::message::{
    Coordinates, DeviceSize, DeviceType, GlobalSettingsPayload, KeyPayload, Message, MessageOut,
};
use sbzdeck::output::Output;
use sbzdeck::registration::{
    ActionInfo, ActionInfoPayload, InspectorRegistrationParams, Language, Platform,
    RegistrationInfo, RegistrationInfoApplication, RegistrationInfoDevice,
};
use sbzdeck::settings::{SerdeCardSettings, SerdeProfile, SerdeProfiles};
use sbzdeck::value::ParamValue;

fn params() -> InspectorRegistrationParams<Empty> {
    InspectorRegistrationParams {
        url: "ws://localhost:1234".to_string(),
        property_inspector_uuid: "pi-uuid".to_string(),
        register_event: "registerPropertyInspector".to_string(),
        info: RegistrationInfo {
            application: RegistrationInfoApplication {
                language: Language::from_tag("en"),
                platform: Platform::from_tag("windows"),
                version: "4.0".to_string(),
            },
            device_pixel_ratio: 1,
            devices: vec![RegistrationInfoDevice {
                id: "dev".to_string(),
                size: DeviceSize { columns: 5, rows: 3 },
                _type: Some(DeviceType::from_code(0)),
            }],
        },
        action_info: ActionInfo {
            action: "the.action".to_string(),
            context: "ctx".to_string(),
            device: "dev".to_string(),
            payload: ActionInfoPayload {
                settings: Empty {},
                coordinates: Some(Coordinates { column: 1, row: 2 }),
            },
        },
    }
}

fn listing(entries: &[(&str, &[(&str, bool)])]) -> IndexMap<String, IndexMap<String, bool>> {
    entries
        .iter()
        .map(|(name, params)| {
            (
                name.to_string(),
                params.iter().map(|(name, selected)| (name.to_string(), *selected)).collect(),
            )
        })
        .collect()
}

fn shown(model: &Model) -> Vec<(String, bool, Vec<(String, bool)>)> {
    model
        .selected_params
        .iter()
        .map(|(name, info)| {
            (
                name.clone(),
                info.is_expanded,
                info.parameters.iter().map(|(name, selected)| (name.clone(), *selected)).collect(),
            )
        })
        .collect()
}

fn set_features(entries: &[(&str, &[(&str, bool)])]) -> ComponentMessage {
    ComponentMessage::Message(Message::SendToPropertyInspector {
        action: "the.action".to_string(),
        context: "ctx".to_string(),
        payload: ToInspector::SetFeatures { selected_parameters: listing(entries) },
    })
}

#[test]
fn output_codes() {
    assert_eq!(Output::Headphones.code(), 0);
    assert_eq!(Output::Speakers.code(), 1);
    assert_eq!(u8::from(Output::Headphones), 0);
    assert_eq!(u8::from(Output::Speakers), 1);
    let code: u8 = Output::Speakers.into();
    assert_eq!(code, 1);
    assert_eq!(Output::from_code(0), Some(Output::Headphones));
    assert_eq!(Output::from_code(1), Some(Output::Speakers));
    assert_eq!(Output::from_code(2), None);
    assert_eq!(Output::from_code(255), None);
    assert_eq!(Output::try_from(&ParamValue::U32(0)), Some(Output::Headphones));
    assert_eq!(Output::try_from(&ParamValue::U32(1)), Some(Output::Speakers));
    assert_eq!(Output::try_from(&ParamValue::U32(2)), None);
    assert_eq!(Output::try_from(&ParamValue::I32(0)), None);
    assert_eq!(Output::try_from(&ParamValue::Bool(false)), None);
    assert_eq!(Output::try_from(&ParamValue::Float(0)), None);
    assert_eq!(Output::try_from(&ParamValue::Other), None);
}

#[test]
fn device_types_by_code() {
    assert_eq!(DeviceType::from_code(0), DeviceType::StreamDeck);
    assert_eq!(DeviceType::from_code(1), DeviceType::StreamDeckMini);
    assert_eq!(DeviceType::from_code(2), DeviceType::Unknown(2));
    assert_eq!(DeviceType::from_code(u64::MAX), DeviceType::Unknown(u64::MAX));
    for code in [0u64, 1, 2, 77] {
        assert_eq!(DeviceType::from_code(code).code(), code);
    }
}

#[test]
fn languages_and_platforms_by_tag() {
    assert!(matches!(Language::from_tag("en"), Language::English));
    assert!(matches!(Language::from_tag("fr"), Language::French));
    assert!(matches!(Language::from_tag("de"), Language::German));
    assert!(matches!(Language::from_tag("es"), Language::Spanish));
    assert!(matches!(Language::from_tag("ja"), Language::Japanese));
    assert!(matches!(Language::from_tag("zh_cn"), Language::ChineseChina));
    assert!(matches!(Language::from_tag("EN"), Language::Unknown(ref tag) if tag == "EN"));
    assert!(matches!(Language::from_tag(""), Language::Unknown(ref tag) if tag.is_empty()));
    assert!(matches!(Platform::from_tag("mac"), Platform::Mac));
    assert!(matches!(Platform::from_tag("windows"), Platform::Windows));
    assert!(matches!(Platform::from_tag("linux"), Platform::Unknown(ref tag) if tag == "linux"));
}

#[test]
fn context_set_holds_each_context_once() {
    let mut set = ContextSet::new();
    assert_eq!(set.len(), 0);
    assert!(!set.contains("a"));
    set.insert("a");
    set.insert("b");
    set.insert("a");
    assert_eq!(set.names(), &vec!["a".to_string(), "b".to_string()]);
    assert!(set.contains("a") && set.contains("b") && !set.contains("c"));
    set.remove("c");
    assert_eq!(set.len(), 2);
    set.remove("a");
    assert_eq!(set.names(), &vec!["b".to_string()]);
    set.insert("a");
    assert_eq!(set.names(), &vec!["b".to_string(), "a".to_string()]);
}

#[test]
fn muted_volume_notifications_are_not_reported() {
    assert!(ChangeEvent::from_notification(Notification::Volume { volume: 5, is_muted: true }).is_none());
    assert!(matches!(
        ChangeEvent::from_notification(Notification::Volume { volume: 5, is_muted: false }),
        Some(ChangeEvent::Volume(5))
    ));
    assert!(ChangeEvent::from_notification(Notification::Other).is_none());
    match ChangeEvent::from_notification(Notification::ParamChange {
        feature: "F".to_string(),
        parameter: "P".to_string(),
        value: ParamValue::Bool(true),
    }) {
        Some(ChangeEvent::SoundCore(change)) => {
            assert_eq!(change.feature, "F");
            assert_eq!(change.parameter, "P");
            assert_eq!(change.value, ParamValue::Bool(true));
        }
        other => panic!("unexpected {:?}", other),
    }
}

#[test]
fn inspector_connects_then_registers_and_asks_for_features() {
    let mut model = Model::new();
    let update = model.update(ComponentMessage::Status(SocketStatus::Opened));
    assert!(!update.should_render);
    assert!(update.commands.is_empty());

    let update = model.update(ComponentMessage::Connect(params()));
    assert!(!update.should_render);
    assert_eq!(update.commands.len(), 1);
    assert!(matches!(update.commands[0], Command::Connect { ref url } if url == "ws://localhost:1234"));
    assert!(model.registration_params.is_some());

    let update = model.update(ComponentMessage::Status(SocketStatus::Closed));
    assert!(!update.should_render && update.commands.is_empty());
    let update = model.update(ComponentMessage::Status(SocketStatus::Error));
    assert!(!update.should_render && update.commands.is_empty());

    let update = model.update(ComponentMessage::Status(SocketStatus::Opened));
    assert!(!update.should_render);
    assert_eq!(update.commands.len(), 2);
    assert!(matches!(
        update.commands[0],
        Command::Register { ref event, ref uuid }
            if event == "registerPropertyInspector" && uuid == "pi-uuid"
    ));
    assert!(matches!(
        update.commands[1],
        Command::Send(MessageOut::SendToPlugin { ref action, ref context, payload: FromInspector::GetFeatures })
            if action == "the.action" && context == "pi-uuid"
    ));
}

#[test]
fn inspector_listing_keeps_what_was_unfolded() {
    let mut model = Model::new();
    let update = model.update(set_features(&[("A", &[("x", true), ("y", false)]), ("B", &[])]));
    assert!(update.should_render && update.commands.is_empty());
    assert_eq!(
        shown(&model),
        vec![
            ("A".to_string(), false, vec![("x".to_string(), true), ("y".to_string(), false)]),
            ("B".to_string(), false, vec![]),
        ]
    );

    let update = model.update(ComponentMessage::SetFeatureExpanded { feature: "B".to_string(), is_expanded: true });
    assert!(update.should_render && update.commands.is_empty());
    let update = model.update(ComponentMessage::SetFeatureExpanded { feature: "B".to_string(), is_expanded: true });
    assert!(!update.should_render);
    let update = model.update(ComponentMessage::SetFeatureExpanded { feature: "Z".to_string(), is_expanded: true });
    assert!(!update.should_render);

    model.update(set_features(&[("B", &[("k", false)]), ("C", &[]), ("A", &[("x", false)])]));
    assert_eq!(
        shown(&model),
        vec![
            ("B".to_string(), true, vec![("k".to_string(), false)]),
            ("C".to_string(), false, vec![]),
            ("A".to_string(), false, vec![("x".to_string(), false)]),
        ]
    );

    // other messages only ask for a redraw
    let update = model.update(ComponentMessage::Message(Message::DidReceiveGlobalSettings {
        payload: GlobalSettingsPayload {
            settings: SerdeCardSettings {
                selected_parameters: Default::default(),
                profiles: SerdeProfiles {
                    headphones: SerdeProfile { volume: None, parameters: Vec::new() },
                    speakers: SerdeProfile { volume: None, parameters: Vec::new() },
                },
            },
        },
    }));
    assert!(update.should_render && update.commands.is_empty());
    let update = model.update(ComponentMessage::Message(Message::DidReceiveSettings {
        action: "a".to_string(),
        context: "c".to_string(),
        device: "d".to_string(),
        payload: KeyPayload { settings: Empty {}, coordinates: None, state: 0, user_desired_state: None },
    }));
    assert!(update.should_render && update.commands.is_empty());
    assert_eq!(shown(&model).len(), 3);
}

#[test]
fn inspector_sends_the_shown_selection_when_a_parameter_changes() {
    let mut model = Model::new();
    model.update(ComponentMessage::Connect(params()));
    model.update(set_features(&[
        ("A", &[("x", true), ("y", false)]),
        ("B", &[("k", false)]),
        ("C", &[("m", true)]),
    ]));

    let update = model.update(ComponentMessage::SetParameter {
        feature: "A".to_string(),
        parameter: "x".to_string(),
        is_selected: true,
    });
    assert!(!update.should_render && update.commands.is_empty());
    let update = model.update(ComponentMessage::SetParameter {
        feature: "A".to_string(),
        parameter: "nope".to_string(),
        is_selected: true,
    });
    assert!(!update.should_render && update.commands.is_empty());
    let update = model.update(ComponentMessage::SetParameter {
        feature: "nope".to_string(),
        parameter: "x".to_string(),
        is_selected: false,
    });
    assert!(!update.should_render && update.commands.is_empty());

    let update = model.update(ComponentMessage::SetParameter {
        feature: "A".to_string(),
        parameter: "y".to_string(),
        is_selected: true,
    });
    assert!(update.should_render);
    assert_eq!(update.commands.len(), 1);
    match &update.commands[0] {
        Command::Send(MessageOut::SendToPlugin {
            action,
            context,
            payload: FromInspector::SetFeatures { selected_parameters },
        }) => {
            assert_eq!(action, "the.action");
            assert_eq!(context, "pi-uuid");
            assert_eq!(selected_parameters.len(), 2);
            let a: Vec<&String> = selected_parameters["A"].iter().collect();
            assert_eq!(a, vec!["x", "y"]);
            let c: Vec<&String> = selected_parameters["C"].iter().collect();
            assert_eq!(c, vec!["m"]);
            assert!(!selected_parameters.contains_key("B"));
        }
        other => panic!("unexpected command {:?}", other),
    }

    let update = model.update(ComponentMessage::SetParameter {
        feature: "C".to_string(),
        parameter: "m".to_string(),
        is_selected: false,
    });
    assert!(update.should_render);
    match &update.commands[0] {
        Command::Send(MessageOut::SendToPlugin {
            payload: FromInspector::SetFeatures { selected_parameters },
            ..
        }) => {
            assert_eq!(selected_parameters.len(), 1);
            assert!(selected_parameters.contains_key("A"));
        }
        other => panic!("unexpected command {:?}", other),
    }
}

#[test]
fn selection_of_lists_ticked_parameters_only() {
    let mut features: IndexMap<String, FeatureInfo> = IndexMap::new();
    features.insert(
        "A".to_string(),
        FeatureInfo {
            is_expanded: true,
            parameters: [("x".to_string(), false), ("y".to_string(), true)].into_iter().collect(),
        },
    );
    features.insert(
        "B".to_string(),
        FeatureInfo {
            is_expanded: false,
            parameters: [("k".to_string(), false)].into_iter().collect(),
        },
    );
    let selection = selection_of(&features);
    assert_eq!(selection.len(), 1);
    let a: Vec<&String> = selection["A"].iter().collect();
    assert_eq!(a, vec!["y"]);
    assert!(selection_of(&IndexMap::new()).is_empty());
}

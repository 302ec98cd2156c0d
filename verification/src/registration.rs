//! What the keypad software tells a property inspector when it starts it.

use vstd::prelude::*;

use crate::maps::same_text;
use crate::message::{Coordinates, DeviceSize, DeviceType};

verus! {

/// Information about a connected device.
#[derive(Debug)]
pub struct RegistrationInfoDevice {
    /// The ID of the specific device.
    pub id: String,
    /// The size of the device.
    pub size: DeviceSize,
    /// The type of the device.
    pub _type: Option<DeviceType>,
}

/// The language that the keypad software is running in.
#[derive(Debug)]
pub enum Language {
    English,
    French,
    German,
    Spanish,
    Japanese,
    /// Chinese as used in China; the other languages are not tied to a country.
    ChineseChina,
    /// A language that this library does not know, with its tag.
    Unknown(String),
}

impl Language {
    /// The tag of this language.
    pub open spec fn tag(self) -> Seq<char> {
        match self {
            Language::English => "en"@,
            Language::French => "fr"@,
            Language::German => "de"@,
            Language::Spanish => "es"@,
            Language::Japanese => "ja"@,
            Language::ChineseChina => "zh_cn"@,
            Language::Unknown(tag) => tag@,
        }
    }

    /// Whether `tag` is the tag of a language that this library knows.
    pub open spec fn knows(tag: Seq<char>) -> bool {
        tag == "en"@ || tag == "fr"@ || tag == "de"@ || tag == "es"@ || tag == "ja"@ || tag
            == "zh_cn"@
    }

    /// Reads a language from its tag. A tag that is not known is kept as it is.
    pub fn from_tag(value: &str) -> (language: Language)
        ensures
            language.tag() == value@,
            language is Unknown <==> !Language::knows(value@),
    {
        if same_text(value, "en") {
            Language::English
        } else if same_text(value, "fr") {
            Language::French
        } else if same_text(value, "de") {
            Language::German
        } else if same_text(value, "es") {
            Language::Spanish
        } else if same_text(value, "ja") {
            Language::Japanese
        } else if same_text(value, "zh_cn") {
            Language::ChineseChina
        } else {
            Language::Unknown(value.to_owned())
        }
    }
}

/// The platform on which the keypad software is running.
#[derive(Debug)]
pub enum Platform {
    /// macOS.
    Mac,
    /// Windows.
    Windows,
    /// A platform that this library does not know, with its tag.
    Unknown(String),
}

impl Platform {
    /// The tag of this platform.
    pub open spec fn tag(self) -> Seq<char> {
        match self {
            Platform::Mac => "mac"@,
            Platform::Windows => "windows"@,
            Platform::Unknown(tag) => tag@,
        }
    }

    /// Whether `tag` is the tag of a platform that this library knows.
    pub open spec fn knows(tag: Seq<char>) -> bool {
        tag == "mac"@ || tag == "windows"@
    }

    /// Reads a platform from its tag. A tag that is not known is kept as it is.
    pub fn from_tag(value: &str) -> (platform: Platform)
        ensures
            platform.tag() == value@,
            platform is Unknown <==> !Platform::knows(value@),
    {
        if same_text(value, "mac") {
            Platform::Mac
        } else if same_text(value, "windows") {
            Platform::Windows
        } else {
            Platform::Unknown(value.to_owned())
        }
    }
}

/// Information about the keypad software.
#[derive(Debug)]
pub struct RegistrationInfoApplication {
    pub language: Language,
    pub platform: Platform,
    pub version: String,
}

/// Information about the environment the plugin is being loaded into.
#[derive(Debug)]
pub struct RegistrationInfo {
    pub application: RegistrationInfoApplication,
    pub device_pixel_ratio: u8,
    pub devices: Vec<RegistrationInfoDevice>,
}

/// Information about the action that a property inspector is shown for.
#[derive(Debug)]
pub struct ActionInfo<S> {
    pub action: String,
    pub context: String,
    pub device: String,
    pub payload: ActionInfoPayload<S>,
}

/// Additional information about the action.
#[derive(Debug)]
pub struct ActionInfoPayload<S> {
    /// The stored settings for the action instance.
    pub settings: S,
    /// The location of the key, or `None` if this action instance is part of a multi action.
    pub coordinates: Option<Coordinates>,
}

/// Everything that a property inspector is started with.
#[derive(Debug)]
pub struct InspectorRegistrationParams<S> {
    pub url: String,
    pub property_inspector_uuid: String,
    pub register_event: String,
    pub info: RegistrationInfo,
    pub action_info: ActionInfo<S>,
}

/// The six known language tags differ from each other, so each is read as
/// its own language.
pub proof fn lemma_known_languages_differ()
    ensures
        Language::English.tag() != Language::French.tag(),
        Language::English.tag() != Language::German.tag(),
        Language::English.tag() != Language::Spanish.tag(),
        Language::English.tag() != Language::Japanese.tag(),
        Language::English.tag() != Language::ChineseChina.tag(),
        Language::French.tag() != Language::German.tag(),
        Language::French.tag() != Language::Spanish.tag(),
        Language::French.tag() != Language::Japanese.tag(),
        Language::French.tag() != Language::ChineseChina.tag(),
        Language::German.tag() != Language::Spanish.tag(),
        Language::German.tag() != Language::Japanese.tag(),
        Language::German.tag() != Language::ChineseChina.tag(),
        Language::Spanish.tag() != Language::Japanese.tag(),
        Language::Spanish.tag() != Language::ChineseChina.tag(),
        Language::Japanese.tag() != Language::ChineseChina.tag(),
        Platform::Mac.tag() != Platform::Windows.tag(),
{
    reveal_strlit("en");
    reveal_strlit("fr");
    reveal_strlit("de");
    reveal_strlit("es");
    reveal_strlit("ja");
    reveal_strlit("zh_cn");
    reveal_strlit("mac");
    reveal_strlit("windows");
    assert("en"@[0] == 'e' && "en"@[1] == 'n');
    assert("fr"@[0] == 'f');
    assert("de"@[0] == 'd');
    assert("es"@[0] == 'e' && "es"@[1] == 's');
    assert("ja"@[0] == 'j');
    assert("zh_cn"@.len() == 5);
    assert("mac"@.len() == 3);
    assert("windows"@.len() == 7);
}

} // verus!

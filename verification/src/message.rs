//! The messages of the keypad software's protocol, as the property inspector sees them.

use vstd::prelude::*;

verus! {

/// A message received from the keypad software.
///
/// - `G` is the type of the global settings.
/// - `S` is the type of the settings of an action.
/// - `M` is the type of the messages received from the plugin.
#[allow(inconsistent_fields)]
#[derive(Debug)]
pub enum Message<G, S, M> {
    /// The plugin has sent data.
    SendToPropertyInspector {
        /// The uuid of the action.
        action: String,
        /// The instance of the action (key or part of a multiaction).
        context: String,
        /// Information sent from the plugin.
        payload: M,
    },
    /// The application has sent settings for an action.
    DidReceiveSettings {
        /// The uuid of the action.
        action: String,
        /// The instance of the action (key or part of a multiaction).
        context: String,
        /// The device where the action exists.
        device: String,
        /// The current settings for the action.
        payload: KeyPayload<S>,
    },
    /// The application has sent the global settings.
    DidReceiveGlobalSettings {
        /// The current global settings.
        payload: GlobalSettingsPayload<G>,
    },
}

/// A message to be sent to the keypad software.
///
/// - `G` is the type of the global settings.
/// - `S` is the type of the settings of an action.
/// - `M` is the type of the messages sent to the plugin.
#[allow(inconsistent_fields)]
#[derive(Debug)]
pub enum MessageOut<G, S, M> {
    /// Retrieve settings for an instance of an action.
    GetSettings {
        /// The instance of the action (key or part of a multiaction).
        context: String,
    },
    /// Store settings for an instance of an action.
    SetSettings {
        /// The instance of the action (key or part of a multiaction).
        context: String,
        /// The settings to save.
        payload: S,
    },
    /// Send data to the plugin.
    SendToPlugin {
        /// The uuid of the action.
        action: String,
        /// The instance of the action (key or part of a multiaction).
        context: String,
        /// The message to send.
        payload: M,
    },
    /// Open a URL in the default browser.
    OpenUrl {
        /// The url to open.
        payload: UrlPayload,
    },
    /// Retrieve the global settings.
    GetGlobalSettings {
        /// The instance of the action (key or part of a multiaction).
        context: String,
    },
    /// Store the global settings.
    SetGlobalSettings {
        /// The instance of the action (key or part of a multiaction).
        context: String,
        /// The settings to save.
        payload: G,
    },
    /// Write to the log.
    LogMessage {
        /// The message to log.
        payload: LogMessagePayload,
    },
}

/// The URL to launch as part of an `OpenUrl` message.
#[derive(Debug)]
pub struct UrlPayload {
    /// The URL to launch.
    pub url: String,
}

/// Additional information about the key pressed.
#[derive(Debug)]
pub struct KeyPayload<S> {
    /// The stored settings for the action instance.
    pub settings: S,
    /// The location of the key that was pressed, or `None` if this action instance is part of a multi action.
    pub coordinates: Option<Coordinates>,
    /// The current state of the action instance.
    pub state: u8,
    /// The desired state of the action instance (if this instance is part of a multi action).
    pub user_desired_state: Option<u8>,
}

/// The new global settings.
#[derive(Debug)]
pub struct GlobalSettingsPayload<G> {
    /// The stored settings for the plugin.
    pub settings: G,
}

/// A log message.
#[derive(Debug)]
pub struct LogMessagePayload {
    /// The log message text.
    pub message: String,
}

/// Information about a hardware device.
#[derive(Debug)]
pub struct DeviceInfo {
    /// The size of the device.
    pub size: DeviceSize,
    /// The type of the device, or `None` if the software is running with no device attached.
    pub _type: Option<DeviceType>,
}

/// Information about a monitored application that has launched or terminated.
#[derive(Debug)]
pub struct ApplicationPayload {
    /// The name of the application.
    pub application: String,
}

/// The location of a key on a device, counted from zero at the top left corner.
#[derive(Clone, Copy, Debug, PartialEq, Eq, Structural)]
pub struct Coordinates {
    /// The x coordinate of the key.
    pub column: u8,
    /// The y-coordinate of the key.
    pub row: u8,
}

/// The vertical alignment of a title. Titles are always centered horizontally.
#[derive(Clone, Copy, Debug, PartialEq, Eq, Structural)]
pub enum Alignment {
    /// The title should appear at the top of the key.
    Top,
    /// The title should appear in the middle of the key.
    Middle,
    /// The title should appear at the bottom of the key.
    Bottom,
}

/// Style information for a title.
#[derive(Debug)]
pub struct TitleParameters {
    /// The name of the font family.
    pub font_family: String,
    /// The font size.
    pub font_size: u8,
    /// Whether the font is bold and/or italic.
    pub font_style: String,
    /// Whether the font is underlined.
    pub font_underline: bool,
    /// Whether the title is displayed.
    pub show_title: bool,
    /// The vertical alignment of the title.
    pub title_alignment: Alignment,
    /// The color of the title.
    pub title_color: String,
}

/// The size of a device in keys.
#[derive(Clone, Copy, Debug, PartialEq, Eq, Structural)]
pub struct DeviceSize {
    /// The number of key columns on the device.
    pub columns: u8,
    /// The number of key rows on the device.
    pub rows: u8,
}

/// The type of connected hardware device.
#[derive(Clone, Copy, Debug, PartialEq, Eq, Structural)]
pub enum DeviceType {
    /// The full size keypad.
    StreamDeck,
    /// The small keypad.
    StreamDeckMini,
    /// A device that this library does not know, with its code.
    Unknown(u64),
}

impl DeviceType {
    /// The device type that `code` stands for.
    pub open spec fn of_code(code: u64) -> DeviceType {
        if code == 0 {
            DeviceType::StreamDeck
        } else if code == 1 {
            DeviceType::StreamDeckMini
        } else {
            DeviceType::Unknown(code)
        }
    }

    /// The code of this device type.
    pub open spec fn code_spec(self) -> u64 {
        match self {
            DeviceType::StreamDeck => 0,
            DeviceType::StreamDeckMini => 1,
            DeviceType::Unknown(code) => code,
        }
    }

    /// Reads a device type from its code: 0 and 1 are the known devices, and
    /// any other code is kept as unknown.
    pub fn from_code(value: u64) -> (device: DeviceType)
        ensures
            device == DeviceType::of_code(value),
    {
        if value == 0 {
            DeviceType::StreamDeck
        } else if value == 1 {
            DeviceType::StreamDeckMini
        } else {
            DeviceType::Unknown(value)
        }
    }

    /// The code of this device type.
    #[verifier::when_used_as_spec(code_spec)]
    pub fn code(self) -> (code: u64)
        ensures
            code == self.code_spec(),
    {
        match self {
            DeviceType::StreamDeck => 0,
            DeviceType::StreamDeckMini => 1,
            DeviceType::Unknown(code) => code,
        }
    }
}

/// Reading a device type keeps its code.
pub proof fn lemma_device_code_kept(code: u64)
    ensures
        DeviceType::of_code(code).code_spec() == code,
{
}

} // verus!

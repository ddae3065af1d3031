//! The window's state and what each message does to it.
//!
//! Drawing and everything that takes time is done elsewhere: a message
//! changes the state here and may ask for one piece of work, whose result
//! comes back as another message.

use vstd::prelude::*;
use vstd::string::*;
use crate::config::Config;
use crate::keys::KeyMetadata;
use crate::text::owned;

verus! {

/// Main view states
#[derive(Debug, Clone, Copy, PartialEq, Eq, Structural)]
pub enum ViewState {
    Main,
    KeyManagement,
    Settings,
    AddKey,
    Bunker,
}

impl Default for ViewState {
    fn default() -> (view: ViewState)
        ensures
            view == ViewState::Main,
    {
        ViewState::Main
    }
}

/// UI Messages
#[derive(Debug)]
pub enum Message {
    // Navigation
    NavigateTo(ViewState),
    // Key Management
    GenerateKey,
    KeyNameInput(String),
    ImportKeyInput(String),
    ImportKey,
    DeleteKey(String),
    SelectKey(String),
    KeyOperationComplete(Result<String, String>),
    RefreshKeys,
    KeysRefreshed(Vec<KeyMetadata>),
    // Settings
    ToggleAutoStart(bool),
    ToggleNotifications(bool),
    SaveSettings,
    SettingsSaved(Result<(), String>),
    // Bunker
    ToggleBunker(bool),
    GenerateBunkerUri,
    BunkerUriGenerated(Result<String, String>),
    CopyBunkerUri,
    // General
    Lock,
    Noop,
}

/// A copy of what a piece of work reported.
fn copy_outcome(outcome: &Result<String, String>) -> (copy: Result<String, String>)
    ensures
        copy == *outcome,
{
    match outcome {
        Ok(done) => Ok(done.clone()),
        Err(error) => Err(error.clone()),
    }
}

impl Clone for Message {
    fn clone(&self) -> Message {
        match self {
            Message::NavigateTo(view) => Message::NavigateTo(*view),
            Message::GenerateKey => Message::GenerateKey,
            Message::KeyNameInput(name) => Message::KeyNameInput(name.clone()),
            Message::ImportKeyInput(key) => Message::ImportKeyInput(key.clone()),
            Message::ImportKey => Message::ImportKey,
            Message::DeleteKey(name) => Message::DeleteKey(name.clone()),
            Message::SelectKey(name) => Message::SelectKey(name.clone()),
            Message::KeyOperationComplete(outcome) => Message::KeyOperationComplete(copy_outcome(outcome)),
            Message::RefreshKeys => Message::RefreshKeys,
            Message::KeysRefreshed(keys) => Message::KeysRefreshed(keys.clone()),
            Message::ToggleAutoStart(on) => Message::ToggleAutoStart(*on),
            Message::ToggleNotifications(on) => Message::ToggleNotifications(*on),
            Message::SaveSettings => Message::SaveSettings,
            Message::SettingsSaved(outcome) => Message::SettingsSaved(
                match outcome {
                    Ok(_) => Ok(()),
                    Err(error) => Err(error.clone()),
                },
            ),
            Message::ToggleBunker(on) => Message::ToggleBunker(*on),
            Message::GenerateBunkerUri => Message::GenerateBunkerUri,
            Message::BunkerUriGenerated(outcome) => Message::BunkerUriGenerated(copy_outcome(outcome)),
            Message::CopyBunkerUri => Message::CopyBunkerUri,
            Message::Lock => Message::Lock,
            Message::Noop => Message::Noop,
        }
    }
}

/// The work a message asks for.
#[derive(Debug, Clone)]
pub enum Command {
    /// Nothing to do
    Nothing,
    /// Generate a key under this name, then report with
    /// `KeyOperationComplete`
    GenerateKey { name: String },
    /// Import this secret under this name, then report with
    /// `KeyOperationComplete`
    ImportKey { name: String, secret: String },
    /// Delete the key of this name, then report with
    /// `KeyOperationComplete`
    DeleteKey { name: String },
    /// Make the key of this name the active one, then report with
    /// `KeyOperationComplete`
    SelectKey { name: String },
    /// Read the list of keys, then report with `KeysRefreshed`
    RefreshKeys,
    /// Save the settings with these two choices, then report with
    /// `SettingsSaved`
    SaveSettings { auto_start: bool, show_notifications: bool },
    /// Drop the secret that is at hand
    Lock,
    /// Start the bunker, then report with `BunkerUriGenerated`
    StartBunker,
    /// Stop the bunker
    StopBunker,
    /// Ask for the URI of the running bunker, or start it if it is not
    /// running; then report with `BunkerUriGenerated`
    ShowBunkerUri,
    /// Put this text on the clipboard
    Copy { text: String },
}

/// Main UI state
#[derive(Debug)]
pub struct PlebSignerUi {
    pub view: ViewState,
    pub error_message: Option<String>,
    pub success_message: Option<String>,
    // Key management
    pub key_name_input: String,
    pub import_key_input: String,
    pub keys_list: Vec<KeyMetadata>,
    // Settings
    pub auto_start: bool,
    pub notifications_enabled: bool,
    // Bunker
    pub bunker_enabled: bool,
    pub bunker_uri: Option<String>,
}

/// Whether `m` is the message with the text `text`.
pub open spec fn says(m: Option<String>, text: Seq<char>) -> bool {
    m matches Some(s) && s@ == text
}

/// Whether `after` and `command` are what `message` makes of `before`.
pub open spec fn updated(before: PlebSignerUi, message: Message, after: PlebSignerUi, command: Command) -> bool {
    match message {
        Message::NavigateTo(view) => {
            &&& after == (PlebSignerUi { view, error_message: None, success_message: None, ..before })
            &&& command is Nothing
        },
        Message::KeyNameInput(name) => {
            &&& after == (PlebSignerUi { key_name_input: name, ..before })
            &&& command is Nothing
        },
        Message::ImportKeyInput(key) => {
            &&& after == (PlebSignerUi { import_key_input: key, ..before })
            &&& command is Nothing
        },
        Message::GenerateKey => if before.key_name_input@.len() == 0 {
            &&& says(after.error_message, "Please enter a key name"@)
            &&& after == (PlebSignerUi { error_message: after.error_message, ..before })
            &&& command is Nothing
        } else {
            &&& after == before
            &&& command matches Command::GenerateKey { name } && name@ == before.key_name_input@
        },
        Message::ImportKey => if before.key_name_input@.len() == 0 {
            &&& says(after.error_message, "Please enter a key name"@)
            &&& after == (PlebSignerUi { error_message: after.error_message, ..before })
            &&& command is Nothing
        } else if before.import_key_input@.len() == 0 {
            &&& says(after.error_message, "Please enter the private key"@)
            &&& after == (PlebSignerUi { error_message: after.error_message, ..before })
            &&& command is Nothing
        } else {
            &&& after == before
            &&& command matches Command::ImportKey { name, secret } && name@ == before.key_name_input@
                && secret@ == before.import_key_input@
        },
        Message::DeleteKey(key) => {
            &&& after == before
            &&& command matches Command::DeleteKey { name } && name == key
        },
        Message::SelectKey(key) => {
            &&& after == before
            &&& command matches Command::SelectKey { name } && name == key
        },
        Message::KeyOperationComplete(result) => {
            &&& command is RefreshKeys
            &&& match result {
                Ok(done) => {
                    &&& after.success_message == Some(done)
                    &&& after.key_name_input@.len() == 0
                    &&& after.import_key_input@.len() == 0
                    &&& after == (PlebSignerUi {
                        view: ViewState::KeyManagement,
                        success_message: after.success_message,
                        error_message: None,
                        key_name_input: after.key_name_input,
                        import_key_input: after.import_key_input,
                        ..before
                    })
                },
                Err(error) => after == (PlebSignerUi {
                    error_message: Some(error),
                    success_message: None,
                    ..before
                }),
            }
        },
        Message::RefreshKeys => after == before && command is RefreshKeys,
        Message::KeysRefreshed(keys) => {
            &&& after == (PlebSignerUi { keys_list: keys, ..before })
            &&& command is Nothing
        },
        Message::ToggleAutoStart(on) => {
            &&& after == (PlebSignerUi { auto_start: on, ..before })
            &&& command is Nothing
        },
        Message::ToggleNotifications(on) => {
            &&& after == (PlebSignerUi { notifications_enabled: on, ..before })
            &&& command is Nothing
        },
        Message::SaveSettings => {
            &&& after == before
            &&& command == (Command::SaveSettings {
                auto_start: before.auto_start,
                show_notifications: before.notifications_enabled,
            })
        },
        Message::SettingsSaved(result) => {
            &&& command is Nothing
            &&& match result {
                Ok(_) => {
                    &&& says(after.success_message, "Settings saved"@)
                    &&& after == (PlebSignerUi {
                        success_message: after.success_message,
                        error_message: None,
                        ..before
                    })
                },
                Err(error) => after == (PlebSignerUi {
                    error_message: Some(error),
                    success_message: None,
                    ..before
                }),
            }
        },
        Message::Lock => after == before && command is Lock,
        Message::ToggleBunker(on) => if on {
            &&& after == (PlebSignerUi { bunker_enabled: true, ..before })
            &&& command is StartBunker
        } else {
            &&& after == (PlebSignerUi { bunker_enabled: false, bunker_uri: None, ..before })
            &&& command is StopBunker
        },
        Message::GenerateBunkerUri => after == before && command is ShowBunkerUri,
        Message::BunkerUriGenerated(result) => {
            &&& command is Nothing
            &&& match result {
                Ok(uri) => after == (PlebSignerUi { bunker_uri: Some(uri), error_message: None, ..before }),
                Err(error) => after == (PlebSignerUi {
                    error_message: Some(error),
                    bunker_enabled: false,
                    ..before
                }),
            }
        },
        Message::CopyBunkerUri => {
            &&& after == before
            &&& match before.bunker_uri {
                Some(uri) => command matches Command::Copy { text } && text@ == uri@,
                None => command is Nothing,
            }
        },
        Message::Noop => after == before && command is Nothing,
    }
}

impl PlebSignerUi {
    /// The state of a window that has just been opened: the main view, no
    /// keys listed yet, the choices as the settings have them, the bunker
    /// off. The keys are to be read at once.
    pub fn new(config: &Config) -> (r: (PlebSignerUi, Command))
        ensures
            r.0.view == ViewState::Main,
            r.0.error_message is None,
            r.0.success_message is None,
            r.0.key_name_input@.len() == 0,
            r.0.import_key_input@.len() == 0,
            r.0.keys_list@.len() == 0,
            r.0.auto_start == config.general.auto_start,
            r.0.notifications_enabled == config.general.show_notifications,
            !r.0.bunker_enabled,
            r.0.bunker_uri is None,
            r.1 is RefreshKeys,
    {
        let ui = PlebSignerUi {
            view: ViewState::Main,
            error_message: None,
            success_message: None,
            key_name_input: String::new(),
            import_key_input: String::new(),
            keys_list: Vec::new(),
            auto_start: config.general.auto_start,
            notifications_enabled: config.general.show_notifications,
            bunker_enabled: false,
            bunker_uri: None,
        };
        (ui, Command::RefreshKeys)
    }

    pub fn title(&self) -> (title: String)
        ensures
            title@ == "Pleb Signer"@,
    {
        owned("Pleb Signer")
    }

    /// Takes in a message: changes the state and says what work is to be
    /// done, if any.
    pub fn update(&mut self, message: Message) -> (command: Command)
        ensures
            updated(*old(self), message, *final(self), command),
    {
        match message {
            Message::NavigateTo(view) => {
                self.view = view;
                self.error_message = None;
                self.success_message = None;
                Command::Nothing
            },
            Message::KeyNameInput(name) => {
                self.key_name_input = name;
                Command::Nothing
            },
            Message::ImportKeyInput(key) => {
                self.import_key_input = key;
                Command::Nothing
            },
            Message::GenerateKey => {
                if self.key_name_input.as_str().unicode_len() == 0 {
                    self.error_message = Some(owned("Please enter a key name"));
                    return Command::Nothing;
                }
                Command::GenerateKey { name: self.key_name_input.clone() }
            },
            Message::ImportKey => {
                if self.key_name_input.as_str().unicode_len() == 0 {
                    self.error_message = Some(owned("Please enter a key name"));
                    return Command::Nothing;
                }
                if self.import_key_input.as_str().unicode_len() == 0 {
                    self.error_message = Some(owned("Please enter the private key"));
                    return Command::Nothing;
                }
                Command::ImportKey { name: self.key_name_input.clone(), secret: self.import_key_input.clone() }
            },
            Message::DeleteKey(name) => Command::DeleteKey { name },
            Message::SelectKey(name) => Command::SelectKey { name },
            Message::KeyOperationComplete(result) => {
                match result {
                    Ok(done) => {
                        self.success_message = Some(done);
                        self.error_message = None;
                        self.key_name_input = String::new();
                        self.import_key_input = String::new();
                        self.view = ViewState::KeyManagement;
                    },
                    Err(error) => {
                        self.error_message = Some(error);
                        self.success_message = None;
                    },
                }
                Command::RefreshKeys
            },
            Message::RefreshKeys => Command::RefreshKeys,
            Message::KeysRefreshed(keys) => {
                self.keys_list = keys;
                Command::Nothing
            },
            Message::ToggleAutoStart(on) => {
                self.auto_start = on;
                Command::Nothing
            },
            Message::ToggleNotifications(on) => {
                self.notifications_enabled = on;
                Command::Nothing
            },
            Message::SaveSettings => Command::SaveSettings {
                auto_start: self.auto_start,
                show_notifications: self.notifications_enabled,
            },
            Message::SettingsSaved(result) => {
                match result {
                    Ok(_) => {
                        self.success_message = Some(owned("Settings saved"));
                        self.error_message = None;
                    },
                    Err(error) => {
                        self.error_message = Some(error);
                        self.success_message = None;
                    },
                }
                Command::Nothing
            },
            Message::Lock => Command::Lock,
            Message::ToggleBunker(on) => {
                self.bunker_enabled = on;
                if on {
                    Command::StartBunker
                } else {
                    self.bunker_uri = None;
                    Command::StopBunker
                }
            },
            Message::GenerateBunkerUri => Command::ShowBunkerUri,
            Message::BunkerUriGenerated(result) => {
                match result {
                    Ok(uri) => {
                        self.bunker_uri = Some(uri);
                        self.error_message = None;
                    },
                    Err(error) => {
                        self.error_message = Some(error);
                        self.bunker_enabled = false;
                    },
                }
                Command::Nothing
            },
            Message::CopyBunkerUri => match &self.bunker_uri {
                Some(uri) => Command::Copy { text: uri.clone() },
                None => Command::Nothing,
            },
            Message::Noop => Command::Nothing,
        }
    }

    /// Notes that the bunker's URI is on the clipboard.
    pub fn copied(&mut self)
        ensures
            says(final(self).success_message, "Bunker URI copied to clipboard!"@),
            *final(self) == (PlebSignerUi { success_message: final(self).success_message, ..*old(self) }),
    {
        self.success_message = Some(owned("Bunker URI copied to clipboard!"));
    }

    /// The settings with the two choices of the window written in.
    pub fn settings(&self, config: Config) -> (saved: Config)
        ensures
            saved.general.auto_start == self.auto_start,
            saved.general.show_notifications == self.notifications_enabled,
            saved.general.start_minimized == config.general.start_minimized,
            saved.general.request_timeout_secs == config.general.request_timeout_secs,
            saved.security == config.security,
            saved.ui == config.ui,
            saved.authorized_apps == config.authorized_apps,
            saved.config_path == config.config_path,
    {
        let mut saved = config;
        saved.general.auto_start = self.auto_start;
        saved.general.show_notifications = self.notifications_enabled;
        saved
    }

    /// Where the active key is flagged in the list, if any key is.
    pub fn active_key(&self) -> (found: Option<usize>)
        ensures
            match found {
                Some(k) => k < self.keys_list@.len() && self.keys_list@[k as int].is_active && forall|j: int|
                    0 <= j < k ==> !(#[trigger] self.keys_list@[j]).is_active,
                None => forall|j: int| 0 <= j < self.keys_list@.len() ==> !(#[trigger] self.keys_list@[j]).is_active,
            },
    {
        let mut i: usize = 0;
        while i < self.keys_list.len()
            invariant
                i <= self.keys_list@.len(),
                forall|j: int| 0 <= j < i ==> !(#[trigger] self.keys_list@[j]).is_active,
            decreases self.keys_list@.len() - i,
        {
            if self.keys_list[i].is_active {
                return Some(i);
            }
            i += 1;
        }
        None
    }
}

} // verus!

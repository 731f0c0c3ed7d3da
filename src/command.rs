//! The commands that the window sends, and the notifications it gets back.
use vstd::prelude::*;

verus! {

/// One command from the window.
#[derive(Debug)]
pub enum Command {
    /// Replace the preset list; the first preset becomes the selected one.
    Transposes(Vec<i32>),
    /// Select a preset by its index, without pressing any key.
    SelectedIndex(u64),
    /// Enter or leave the mode that reports the next key pressed.
    KeyListen(bool),
    /// Bind the action of this wire name to a key code.
    Bind { name: String, keycode: u64 },
    /// Set pausing.
    Pause(bool),
    /// Set muting of the acknowledgement sounds.
    Muted(bool),
    /// Set the sound volume, which the audio side holds.
    Volume,
    /// Set how far one scroll-down event scrolls.
    ScrollValue(i64),
}

/// What a message from the window holds, key by key; `volume` says whether
/// it has a volume at all.
#[derive(Debug)]
pub struct CommandFields {
    pub transposes: Option<Vec<i32>>,
    pub selected_index: Option<u64>,
    pub key_listen: Option<bool>,
    pub bind: Option<(String, u64)>,
    pub pause: Option<bool>,
    pub muted: Option<bool>,
    pub volume: bool,
    pub scroll_value: Option<i64>,
}

/// The command of a message: its first key present, in the order of the
/// fields of `CommandFields`.
pub open spec fn first_command_model(f: CommandFields) -> Option<Command> {
    if f.transposes is Some {
        Some(Command::Transposes(f.transposes.unwrap()))
    } else if f.selected_index is Some {
        Some(Command::SelectedIndex(f.selected_index.unwrap()))
    } else if f.key_listen is Some {
        Some(Command::KeyListen(f.key_listen.unwrap()))
    } else if f.bind is Some {
        Some(Command::Bind { name: f.bind.unwrap().0, keycode: f.bind.unwrap().1 })
    } else if f.pause is Some {
        Some(Command::Pause(f.pause.unwrap()))
    } else if f.muted is Some {
        Some(Command::Muted(f.muted.unwrap()))
    } else if f.volume {
        Some(Command::Volume)
    } else if f.scroll_value is Some {
        Some(Command::ScrollValue(f.scroll_value.unwrap()))
    } else {
        None
    }
}

impl CommandFields {
    /// A message with no key set.
    pub fn empty() -> (r: CommandFields)
        ensures
            first_command_model(r) is None,
    {
        CommandFields {
            transposes: None,
            selected_index: None,
            key_listen: None,
            bind: None,
            pause: None,
            muted: None,
            volume: false,
            scroll_value: None,
        }
    }

    /// The command that the message carries, if any: where several keys are
    /// present the first one wins.
    pub fn first_command(self) -> (r: Option<Command>)
        ensures
            r == first_command_model(self),
    {
        if let Some(v) = self.transposes {
            Some(Command::Transposes(v))
        } else if let Some(i) = self.selected_index {
            Some(Command::SelectedIndex(i))
        } else if let Some(b) = self.key_listen {
            Some(Command::KeyListen(b))
        } else if let Some((name, keycode)) = self.bind {
            Some(Command::Bind { name, keycode })
        } else if let Some(b) = self.pause {
            Some(Command::Pause(b))
        } else if let Some(b) = self.muted {
            Some(Command::Muted(b))
        } else if self.volume {
            Some(Command::Volume)
        } else if let Some(v) = self.scroll_value {
            Some(Command::ScrollValue(v))
        } else {
            None
        }
    }
}

/// A notification to the window.
#[derive(Clone, Copy, Debug, PartialEq, Eq, Structural)]
pub enum Notification {
    /// The preset now selected.
    CurrentIndex(usize),
    /// Whether the controller is now paused.
    Paused(bool),
}

/// A message to the window: the text of one notification.
#[derive(Debug)]
pub struct Payload {
    pub message: String,
}

#[verifier::external_type_specification]
#[verifier::external_body]
pub struct ExJsonError(serde_json::Error);

/// A key that JSON writes as it stands: no quote, backslash or control
/// character, which are the characters it escapes.
pub open spec fn plain_key(key: Seq<char>) -> bool {
    forall|i: int| 0 <= i < key.len() ==> key[i] != '"' && key[i] != '\\' && (key[i] as u32) >= 32
}

/// The decimal digits of `n`, without leading zeros.
pub open spec fn decimal(n: nat) -> Seq<char>
    decreases n,
{
    if n < 10 {
        seq!["0123456789"@[n as int]]
    } else {
        decimal(n / 10).push("0123456789"@[(n % 10) as int])
    }
}

/// The compact JSON text of an object with one field, whose value is
/// written as `value`.
pub open spec fn json_field_object(key: Seq<char>, value: Seq<char>) -> Seq<char> {
    seq!['{', '"'] + key + seq!['"', ':'] + value + seq!['}']
}

/// Relies on serde_json::to_string, on a map with one string key and an
/// integer value: the compact form, the integer in decimal. It does not
/// fail, its errors coming only from non-string map keys or a failing
/// `Serialize` impl.
#[verifier::external_body]
fn object_u64_text(key: &str, value: u64) -> (r: Result<String, serde_json::Error>)
    requires
        plain_key(key@),
    ensures
        r is Ok,
        r.unwrap()@ == json_field_object(key@, decimal(value as nat)),
{
    serde_json::to_string(&std::collections::BTreeMap::from([(key, value)]))
}

/// Relies on serde_json::to_string, on a map with one string key and a
/// boolean value: the compact form, the value as `true` or `false`. It does
/// not fail, as above.
#[verifier::external_body]
fn object_bool_text(key: &str, value: bool) -> (r: Result<String, serde_json::Error>)
    requires
        plain_key(key@),
    ensures
        r is Ok,
        r.unwrap()@ == json_field_object(
            key@,
            if value {
                "true"@
            } else {
                "false"@
            },
        ),
{
    serde_json::to_string(&std::collections::BTreeMap::from([(key, value)]))
}

/// The text that tells the window of a notification.
pub open spec fn notification_text(n: Notification) -> Seq<char> {
    match n {
        Notification::CurrentIndex(i) => json_field_object("current_index"@, decimal(i as nat)),
        Notification::Paused(b) => json_field_object(
            "paused"@,
            if b {
                "true"@
            } else {
                "false"@
            },
        ),
    }
}

impl Notification {
    /// The message that carries the notification to the window.
    pub fn to_payload(&self) -> (r: Payload)
        ensures
            r.message@ == notification_text(*self),
    {
        let text = match self {
            Notification::CurrentIndex(i) => {
                proof {
                    reveal_strlit("current_index");
                }
                object_u64_text("current_index", *i as u64)
            },
            Notification::Paused(b) => {
                proof {
                    reveal_strlit("paused");
                }
                object_bool_text("paused", *b)
            },
        };
        match text {
            Ok(message) => Payload { message },
            Err(_) => Payload { message: String::new() },
        }
    }
}

/// A command that the state cannot take.
#[derive(Clone, Copy, Debug, PartialEq, Eq, Structural)]
pub enum CommandError {
    /// An empty preset list: there must always be a preset.
    EmptyPresets,
    /// An index past the end of the preset list.
    IndexOutOfRange,
}

} // verus!

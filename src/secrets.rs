//! The secrets form: two text fields (explorer API key and node endpoint),
//! their editing commands, and the checks before they are saved.
use vstd::prelude::*;
use crate::actions::Action;
use crate::input::{KeyCode, KeyEvent};
use crate::state::SecretsState;
use crate::text::{push_char, trim_text, trimmed_text};

verus! {

/// A credential kept in the secrets store.
#[derive(Debug, Clone, Copy, PartialEq, Eq, Structural)]
pub enum SecretKey {
    EtherscanApiKey,
    AnvilRpcUrl,
}

impl SecretKey {
    /// The key under which the secret is stored.
    pub fn storage_key(self) -> (r: &'static str)
        ensures
            r@ == (match self {
                SecretKey::EtherscanApiKey => "v1::secret::etherscan_api_key"@,
                SecretKey::AnvilRpcUrl => "v1::secret::anvil_rpc_url"@,
            }),
    {
        match self {
            SecretKey::EtherscanApiKey => "v1::secret::etherscan_api_key",
            SecretKey::AnvilRpcUrl => "v1::secret::anvil_rpc_url",
        }
    }

    /// The environment variable that overrides the stored secret.
    pub fn env_var(self) -> (r: &'static str)
        ensures
            r@ == (match self {
                SecretKey::EtherscanApiKey => "ETHERSCAN_API_KEY"@,
                SecretKey::AnvilRpcUrl => "ANVIL_RPC_URL"@,
            }),
    {
        match self {
            SecretKey::EtherscanApiKey => "ETHERSCAN_API_KEY",
            SecretKey::AnvilRpcUrl => "ANVIL_RPC_URL",
        }
    }
}

#[derive(Debug, Clone, Copy, PartialEq, Eq, Structural)]
pub enum SecretsField {
    Etherscan,
    Anvil,
}

impl Default for SecretsField {
    fn default() -> (r: Self)
        ensures
            r == SecretsField::Etherscan,
    {
        SecretsField::Etherscan
    }
}

#[derive(Debug)]
pub enum SecretsFormCommand {
    FocusNextField,
    FocusPreviousField,
    InputChar(char),
    InsertText(String),
    Backspace,
    Submit,
    Cancel,
    ClearField,
}

#[derive(Debug, Default)]
pub struct SecretsModal {
    pub etherscan_value: String,
    pub anvil_value: String,
    pub focused_field: SecretsField,
    pub message: Option<String>,
}

/// What the form asks of its owner after a command.
#[derive(Debug)]
pub enum SecretsOutcome {
    Nothing,
    Act(Action),
    /// Store these two values, then report them saved.
    Save { etherscan: String, anvil: String },
}

pub open spec fn other_field(f: SecretsField) -> SecretsField {
    match f {
        SecretsField::Etherscan => SecretsField::Anvil,
        SecretsField::Anvil => SecretsField::Etherscan,
    }
}

/// A pasted text without its line breaks.
pub open spec fn without_breaks(s: Seq<char>) -> Seq<char> {
    s.filter(|c: char| c != '\r' && c != '\n')
}

/// The command that a key stands for while the form has focus.
pub open spec fn form_command_of(key: KeyEvent) -> Option<SecretsFormCommand> {
    let m = key.modifiers;
    match key.code {
        KeyCode::Esc => Some(SecretsFormCommand::Cancel),
        KeyCode::Tab => if m.spec_is_none() {
            Some(SecretsFormCommand::FocusNextField)
        } else if m.spec_is_shift() {
            Some(SecretsFormCommand::FocusPreviousField)
        } else {
            None
        },
        KeyCode::Down => if m.spec_is_none() { Some(SecretsFormCommand::FocusNextField) } else { None },
        KeyCode::Up => if m.spec_is_none() { Some(SecretsFormCommand::FocusPreviousField) } else { None },
        KeyCode::Enter => Some(SecretsFormCommand::Submit),
        KeyCode::Backspace => Some(SecretsFormCommand::Backspace),
        KeyCode::Char(c) => if m.spec_is_control() && c == 'u' {
            Some(SecretsFormCommand::ClearField)
        } else if !m.control {
            Some(SecretsFormCommand::InputChar(c))
        } else {
            None
        },
        _ => None,
    }
}

impl SecretsModal {
    pub fn new() -> (r: Self)
        ensures
            r.etherscan_value@.len() == 0,
            r.anvil_value@.len() == 0,
            r.focused_field == SecretsField::Etherscan,
            r.message is None,
    {
        SecretsModal {
            etherscan_value: String::new(),
            anvil_value: String::new(),
            focused_field: SecretsField::Etherscan,
            message: None,
        }
    }

    /// Fills the fields from the secrets already known.
    pub fn init(&mut self, secrets: &SecretsState)
        ensures
            final(self).etherscan_value@ == (match secrets.etherscan_api_key {
                Some(k) => k@,
                None => Seq::empty(),
            }),
            final(self).anvil_value@ == (match secrets.anvil_rpc_url {
                Some(u) => u@,
                None => Seq::empty(),
            }),
            final(self).focused_field == old(self).focused_field,
            final(self).message == old(self).message,
    {
        self.etherscan_value = match &secrets.etherscan_api_key {
            Some(k) => k.clone(),
            None => String::new(),
        };
        self.anvil_value = match &secrets.anvil_rpc_url {
            Some(u) => u.clone(),
            None => String::new(),
        };
    }

    pub fn command_from_key(event: KeyEvent) -> (r: Option<SecretsFormCommand>)
        ensures
            r == form_command_of(event),
    {
        let m = event.modifiers;
        match event.code {
            KeyCode::Esc => Some(SecretsFormCommand::Cancel),
            KeyCode::Tab => if m.is_none() {
                Some(SecretsFormCommand::FocusNextField)
            } else if m.is_shift() {
                Some(SecretsFormCommand::FocusPreviousField)
            } else {
                None
            },
            KeyCode::Down => if m.is_none() { Some(SecretsFormCommand::FocusNextField) } else { None },
            KeyCode::Up => if m.is_none() { Some(SecretsFormCommand::FocusPreviousField) } else { None },
            KeyCode::Enter => Some(SecretsFormCommand::Submit),
            KeyCode::Backspace => Some(SecretsFormCommand::Backspace),
            KeyCode::Char(c) => if m.is_control() && c == 'u' {
                Some(SecretsFormCommand::ClearField)
            } else if !m.control {
                Some(SecretsFormCommand::InputChar(c))
            } else {
                None
            },
            _ => None,
        }
    }

    /// The text of the focused field.
    pub open spec fn selected_text(&self) -> Seq<char> {
        match self.focused_field {
            SecretsField::Etherscan => self.etherscan_value@,
            SecretsField::Anvil => self.anvil_value@,
        }
    }

    /// The focused field's text.
    pub fn selected_value(&self) -> (r: &String)
        ensures
            r@ == self.selected_text(),
    {
        match self.focused_field {
            SecretsField::Etherscan => &self.etherscan_value,
            SecretsField::Anvil => &self.anvil_value,
        }
    }

    fn set_selected_value(&mut self, value: String)
        ensures
            final(self).focused_field == old(self).focused_field,
            final(self).message == old(self).message,
            final(self).selected_text() == value@,
            old(self).focused_field == SecretsField::Etherscan ==> final(self).anvil_value == old(self).anvil_value,
            old(self).focused_field == SecretsField::Anvil ==> final(self).etherscan_value == old(self).etherscan_value,
    {
        match self.focused_field {
            SecretsField::Etherscan => {
                self.etherscan_value = value;
            },
            SecretsField::Anvil => {
                self.anvil_value = value;
            },
        }
    }

    pub fn field_title(field: SecretsField) -> (r: &'static str)
        ensures
            r@ == (match field {
                SecretsField::Etherscan => "Etherscan API Key"@,
                SecretsField::Anvil => "Anvil RPC URL"@,
            }),
    {
        match field {
            SecretsField::Etherscan => "Etherscan API Key",
            SecretsField::Anvil => "Anvil RPC URL",
        }
    }

    /// Moves the focus to the other field; with two fields both directions agree.
    pub fn cycle_field(&mut self, forward: bool)
        ensures
            final(self).focused_field == other_field(old(self).focused_field),
            final(self).etherscan_value == old(self).etherscan_value,
            final(self).anvil_value == old(self).anvil_value,
            final(self).message == old(self).message,
    {
        self.focused_field = if forward {
            match self.focused_field {
                SecretsField::Etherscan => SecretsField::Anvil,
                SecretsField::Anvil => SecretsField::Etherscan,
            }
        } else {
            match self.focused_field {
                SecretsField::Etherscan => SecretsField::Anvil,
                SecretsField::Anvil => SecretsField::Etherscan,
            }
        };
    }

    /// Both fields must hold more than white space.
    pub fn validate(&self) -> (r: Result<(), &'static str>)
        ensures
            trimmed_text(self.etherscan_value@).len() == 0 ==> (r matches Err(m) && m@
                == "Etherscan API key is required"@),
            trimmed_text(self.etherscan_value@).len() != 0 && trimmed_text(self.anvil_value@).len()
                == 0 ==> (r matches Err(m) && m@ == "Anvil RPC URL is required"@),
            trimmed_text(self.etherscan_value@).len() != 0 && trimmed_text(self.anvil_value@).len()
                != 0 ==> r is Ok,
    {
        if trim_text(self.etherscan_value.as_str()).as_str().is_empty() {
            return Err("Etherscan API key is required");
        }
        if trim_text(self.anvil_value.as_str()).as_str().is_empty() {
            return Err("Anvil RPC URL is required");
        }
        Ok(())
    }

    /// Checks the form before it is stored: on a failed check the reason is
    /// shown and nothing is handed back; otherwise the trimmed values are.
    pub fn save(&mut self) -> (r: Option<(String, String)>)
        ensures
            final(self).etherscan_value == old(self).etherscan_value,
            final(self).anvil_value == old(self).anvil_value,
            final(self).focused_field == old(self).focused_field,
            match r {
                Some((e, a)) => {
                    &&& e@ == trimmed_text(old(self).etherscan_value@)
                    &&& a@ == trimmed_text(old(self).anvil_value@)
                    &&& e@.len() != 0 && a@.len() != 0
                    &&& final(self).message == old(self).message
                },
                None => {
                    &&& (trimmed_text(old(self).etherscan_value@).len() == 0 || trimmed_text(
                        old(self).anvil_value@,
                    ).len() == 0)
                    &&& final(self).message is Some
                },
            },
    {
        match self.validate() {
            Err(message) => {
                self.message = Some(message.to_owned());
                None
            },
            Ok(()) => Some(
                (trim_text(self.etherscan_value.as_str()), trim_text(self.anvil_value.as_str())),
            ),
        }
    }

    /// Records the stored values in the state and reports the form saved.
    pub fn saved(&mut self, secrets: &mut SecretsState, etherscan: String, anvil: String) -> (r: Action)
        ensures
            final(secrets).etherscan_api_key == Some(etherscan),
            final(secrets).anvil_rpc_url == Some(anvil),
            final(self).message matches Some(m) && m@ == "Configuration saved"@,
            r == Action::SecretsSaved,
    {
        secrets.etherscan_api_key = Some(etherscan);
        secrets.anvil_rpc_url = Some(anvil);
        self.message = Some("Configuration saved".to_owned());
        Action::SecretsSaved
    }

    pub fn clear_field(&mut self)
        ensures
            final(self).selected_text().len() == 0,
            final(self).focused_field == old(self).focused_field,
            final(self).message == old(self).message,
            old(self).focused_field == SecretsField::Etherscan ==> final(self).anvil_value == old(self).anvil_value,
            old(self).focused_field == SecretsField::Anvil ==> final(self).etherscan_value == old(self).etherscan_value,
    {
        self.set_selected_value(String::new());
    }

    /// Applies a command; submitting hands back the values to store when the
    /// form is complete.
    pub fn apply_command(&mut self, command: SecretsFormCommand) -> (r: SecretsOutcome)
        ensures
            match command {
                SecretsFormCommand::FocusNextField | SecretsFormCommand::FocusPreviousField => {
                    &&& final(self).focused_field == other_field(old(self).focused_field)
                    &&& final(self).message is None
                    &&& final(self).etherscan_value == old(self).etherscan_value
                    &&& final(self).anvil_value == old(self).anvil_value
                    &&& r is Nothing
                },
                SecretsFormCommand::InputChar(c) => {
                    &&& final(self).focused_field == old(self).focused_field
                    &&& final(self).message is None
                    &&& final(self).selected_text() == old(self).selected_text().push(c)
                    &&& r is Nothing
                },
                SecretsFormCommand::InsertText(t) => {
                    &&& final(self).focused_field == old(self).focused_field
                    &&& final(self).message is None
                    &&& final(self).selected_text() == old(self).selected_text() + without_breaks(t@)
                    &&& r is Nothing
                },
                SecretsFormCommand::Backspace => {
                    &&& final(self).focused_field == old(self).focused_field
                    &&& final(self).message is None
                    &&& final(self).selected_text() == (if old(self).selected_text().len() > 0 {
                        old(self).selected_text().drop_last()
                    } else {
                        old(self).selected_text()
                    })
                    &&& r is Nothing
                },
                SecretsFormCommand::ClearField => {
                    &&& final(self).focused_field == old(self).focused_field
                    &&& final(self).message is None
                    &&& final(self).selected_text().len() == 0
                    &&& r is Nothing
                },
                SecretsFormCommand::Submit => {
                    &&& final(self).etherscan_value == old(self).etherscan_value
                    &&& final(self).anvil_value == old(self).anvil_value
                    &&& (r matches SecretsOutcome::Save { etherscan, anvil } ==> etherscan@ == trimmed_text(
                        old(self).etherscan_value@,
                    ) && anvil@ == trimmed_text(old(self).anvil_value@))
                    &&& (r is Nothing || r is Save)
                    &&& (r is Save <==> (trimmed_text(old(self).etherscan_value@).len() != 0
                        && trimmed_text(old(self).anvil_value@).len() != 0))
                },
                SecretsFormCommand::Cancel => {
                    &&& *final(self) == *old(self)
                    &&& r == SecretsOutcome::Act(Action::CloseModal)
                },
            },
    {
        match command {
            SecretsFormCommand::FocusNextField => {
                self.message = None;
                self.cycle_field(true);
            },
            SecretsFormCommand::FocusPreviousField => {
                self.message = None;
                self.cycle_field(false);
            },
            SecretsFormCommand::InputChar(c) => {
                self.message = None;
                let mut value = self.selected_value().clone();
                push_char(&mut value, c);
                self.set_selected_value(value);
            },
            SecretsFormCommand::InsertText(text) => {
                self.message = None;
                let mut value = self.selected_value().clone();
                let ghost start = value@;
                let n = text.as_str().unicode_len();
                let mut i: usize = 0;
                while i < n
                    invariant
                        n == text@.len(),
                        i <= n,
                        value@ == start + without_breaks(text@.subrange(0, i as int)),
                    decreases n - i,
                {
                    proof {
                        reveal(Seq::filter);
                    }
                    let c = text.as_str().get_char(i);
                    let ghost pre = text@.subrange(0, i as int);
                    let ghost next = text@.subrange(0, i + 1);
                    assert(next.drop_last() =~= pre);
                    if c != '\r' && c != '\n' {
                        push_char(&mut value, c);
                        assert(without_breaks(next) == without_breaks(pre).push(c));
                        assert(value@ =~= start + without_breaks(next));
                    } else {
                        assert(without_breaks(next) == without_breaks(pre));
                    }
                    i = i + 1;
                }
                assert(text@.subrange(0, n as int) =~= text@);
                self.set_selected_value(value);
            },
            SecretsFormCommand::Backspace => {
                self.message = None;
                let value = self.selected_value();
                let n = value.as_str().unicode_len();
                if n > 0 {
                    let kept = value.as_str().substring_char(0, n - 1).to_owned();
                    assert(kept@ =~= self.selected_text().drop_last());
                    self.set_selected_value(kept);
                }
            },
            SecretsFormCommand::ClearField => {
                self.message = None;
                self.clear_field();
            },
            SecretsFormCommand::Submit => {
                return match self.save() {
                    Some((etherscan, anvil)) => SecretsOutcome::Save { etherscan, anvil },
                    None => SecretsOutcome::Nothing,
                };
            },
            SecretsFormCommand::Cancel => {
                return SecretsOutcome::Act(Action::CloseModal);
            },
        }
        SecretsOutcome::Nothing
    }
}

} // verus!

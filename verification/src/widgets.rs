use vstd::prelude::*;

verus! {

use vstd::string::StringExecFns;

/// The visual tone of a modal.
#[derive(Clone, Copy, PartialEq, Eq, Structural, Debug)]
pub enum ModalStyle {
    Normal,
    Warning,
    Error,
}

/// The confirmations and notices the interaction core can raise.
#[derive(Clone, Copy, PartialEq, Eq, Structural, Debug)]
pub enum ConfirmationType {
    DeleteThread,
    DeleteEntry,
    DiscardChanges,
    DiscardNewEntry,
    RemoveImage,
    ReplaceImage,
    CharacterLimit,
}

/// A confirmation dialog: a type-determined title, message, option line,
/// tone and height, with the message and options overridable.
pub struct ConfirmationDialog {
    pub confirmation_type: ConfirmationType,
    pub custom_message: Option<String>,
    pub custom_options: Option<String>,
}

/// What a dialog displays: everything the drawing layer needs.
pub struct DialogContent {
    pub title: String,
    pub message: String,
    pub options: String,
    pub style: ModalStyle,
    pub height: u16,
}

impl ConfirmationDialog {
    pub fn new(confirmation_type: ConfirmationType) -> (d: ConfirmationDialog)
        ensures
            d.confirmation_type == confirmation_type,
            d.custom_message is None,
            d.custom_options is None,
    {
        ConfirmationDialog { confirmation_type, custom_message: None, custom_options: None }
    }

    pub fn with_custom_message(self, message: String) -> (d: ConfirmationDialog)
        ensures
            d.confirmation_type == self.confirmation_type,
            d.custom_message == Some(message),
            d.custom_options == self.custom_options,
    {
        ConfirmationDialog { custom_message: Some(message), ..self }
    }

    pub fn with_custom_options(self, options: String) -> (d: ConfirmationDialog)
        ensures
            d.confirmation_type == self.confirmation_type,
            d.custom_message == self.custom_message,
            d.custom_options == Some(options),
    {
        ConfirmationDialog { custom_options: Some(options), ..self }
    }

    /// The height a dialog type occupies.
    pub open spec fn spec_height(t: ConfirmationType) -> int {
        match t {
            ConfirmationType::CharacterLimit => 6,
            ConfirmationType::ReplaceImage => 8,
            _ => 7,
        }
    }

    /// The dialog's full display content: the per-type title, message,
    /// option line, tone and height, with any custom message or options
    /// taking precedence.
    pub fn content(&self) -> (c: DialogContent)
        ensures
            c.height == Self::spec_height(self.confirmation_type),
            c.style == (match self.confirmation_type {
                ConfirmationType::RemoveImage | ConfirmationType::CharacterLimit
                    => ModalStyle::Error,
                _ => ModalStyle::Warning,
            }),
            match self.custom_message {
                Some(m) => c.message@ == m@,
                None => c.message@ == Self::spec_message(self.confirmation_type),
            },
            match self.custom_options {
                Some(o) => c.options@ == o@,
                None => c.options@ == Self::spec_options(self.confirmation_type),
            },
            c.title@ == Self::spec_title(self.confirmation_type),
    {
        let title: String = match self.confirmation_type {
            ConfirmationType::DeleteThread => String::from_str("Confirm Delete"),
            ConfirmationType::DeleteEntry => String::from_str("Confirm Delete"),
            ConfirmationType::DiscardChanges => String::from_str("Discard Changes?"),
            ConfirmationType::DiscardNewEntry => String::from_str("Discard New Entry?"),
            ConfirmationType::RemoveImage => String::from_str("Remove Image"),
            ConfirmationType::ReplaceImage => String::from_str("Image Already Exists"),
            ConfirmationType::CharacterLimit => String::from_str("Error"),
        };
        let message: String = match &self.custom_message {
            Some(m) => m.clone(),
            None => match self.confirmation_type {
                ConfirmationType::DeleteThread => String::from_str(
                    "Are you sure you want to delete this thread?\n\nThis will delete the thread and all its entries."),
                ConfirmationType::DeleteEntry => String::from_str(
                    "Are you sure you want to delete this entry?"),
                ConfirmationType::DiscardChanges => String::from_str(
                    "You have unsaved changes to the entry content.\n\nDiscard changes and exit?"),
                ConfirmationType::DiscardNewEntry => String::from_str(
                    "You have unsaved content for this new entry.\n\nDiscard new entry and exit?"),
                ConfirmationType::RemoveImage => String::from_str(
                    "Are you sure you want to remove this image?\nThis action cannot be undone."),
                ConfirmationType::ReplaceImage => String::from_str(
                    "This entry already has an image attached.\nWhat would you like to do?"),
                ConfirmationType::CharacterLimit => String::from_str(
                    "Content exceeds 500 character limit.\nPlease shorten your text and try again."),
            },
        };
        let options: String = match &self.custom_options {
            Some(o) => o.clone(),
            None => match self.confirmation_type {
                ConfirmationType::RemoveImage => String::from_str(
                    "[Y] Yes, Remove   [N] No   [Esc] Cancel"),
                ConfirmationType::ReplaceImage => String::from_str(
                    "[R] Replace   [D] Delete Current   [Esc] Cancel"),
                ConfirmationType::CharacterLimit => String::from_str("[Enter] OK"),
                _ => String::from_str("[Y] Yes   [N] No   [Esc] Cancel"),
            },
        };
        let style: ModalStyle = match self.confirmation_type {
            ConfirmationType::RemoveImage | ConfirmationType::CharacterLimit => ModalStyle::Error,
            _ => ModalStyle::Warning,
        };
        let height: u16 = match self.confirmation_type {
            ConfirmationType::CharacterLimit => 6,
            ConfirmationType::ReplaceImage => 8,
            _ => 7,
        };
        DialogContent { title, message, options, style, height }
    }

    /// The per-type title.
    pub open spec fn spec_title(t: ConfirmationType) -> Seq<char> {
        match t {
            ConfirmationType::DeleteThread => "Confirm Delete"@,
            ConfirmationType::DeleteEntry => "Confirm Delete"@,
            ConfirmationType::DiscardChanges => "Discard Changes?"@,
            ConfirmationType::DiscardNewEntry => "Discard New Entry?"@,
            ConfirmationType::RemoveImage => "Remove Image"@,
            ConfirmationType::ReplaceImage => "Image Already Exists"@,
            ConfirmationType::CharacterLimit => "Error"@,
        }
    }

    /// The per-type message.
    pub open spec fn spec_message(t: ConfirmationType) -> Seq<char> {
        match t {
            ConfirmationType::DeleteThread =>
                "Are you sure you want to delete this thread?\n\nThis will delete the thread and all its entries."@,
            ConfirmationType::DeleteEntry => "Are you sure you want to delete this entry?"@,
            ConfirmationType::DiscardChanges =>
                "You have unsaved changes to the entry content.\n\nDiscard changes and exit?"@,
            ConfirmationType::DiscardNewEntry =>
                "You have unsaved content for this new entry.\n\nDiscard new entry and exit?"@,
            ConfirmationType::RemoveImage =>
                "Are you sure you want to remove this image?\nThis action cannot be undone."@,
            ConfirmationType::ReplaceImage =>
                "This entry already has an image attached.\nWhat would you like to do?"@,
            ConfirmationType::CharacterLimit =>
                "Content exceeds 500 character limit.\nPlease shorten your text and try again."@,
        }
    }

    /// The per-type option line.
    pub open spec fn spec_options(t: ConfirmationType) -> Seq<char> {
        match t {
            ConfirmationType::RemoveImage => "[Y] Yes, Remove   [N] No   [Esc] Cancel"@,
            ConfirmationType::ReplaceImage => "[R] Replace   [D] Delete Current   [Esc] Cancel"@,
            ConfirmationType::CharacterLimit => "[Enter] OK"@,
            _ => "[Y] Yes   [N] No   [Esc] Cancel"@,
        }
    }
}

/// The colour-coding bands of the character counter.
#[derive(Clone, Copy, PartialEq, Eq, Structural, Debug)]
pub enum CharCountBand {
    Normal,
    Warning,
    Caution,
    Danger,
    OverLimit,
}

/// The thresholds at which the character counter changes colour.
#[derive(Debug, Clone)]
pub struct CharacterThresholds {
    pub warning: usize,
    pub caution: usize,
    pub danger: usize,
}

impl Default for CharacterThresholds {
    /// The conventional bands: warn at 300, caution at 350, danger at 400.
    fn default() -> (r: Self)
        ensures
            r.warning == 300,
            r.caution == 350,
            r.danger == 400,
    {
        CharacterThresholds { warning: 300, caution: 350, danger: 400 }
    }
}

/// The status bar under an editor: the character count against the limit,
/// with colour bands, and an optional submit button.
pub struct StatusBar {
    pub character_count: usize,
    pub character_limit: usize,
    pub button_text: String,
    pub show_button: bool,
    pub thresholds: CharacterThresholds,
}

impl StatusBar {
    pub fn new(character_count: usize, character_limit: usize, button_text: String) -> (s: StatusBar)
        ensures
            s.character_count == character_count,
            s.character_limit == character_limit,
            s.button_text == button_text,
            s.show_button,
            s.thresholds.warning == 300,
            s.thresholds.caution == 350,
            s.thresholds.danger == 400,
    {
        StatusBar {
            character_count,
            character_limit,
            button_text,
            show_button: true,
            thresholds: CharacterThresholds { warning: 300, caution: 350, danger: 400 },
        }
    }

    pub fn with_thresholds(self, thresholds: CharacterThresholds) -> (s: StatusBar)
        ensures
            s.character_count == self.character_count,
            s.character_limit == self.character_limit,
            s.button_text == self.button_text,
            s.show_button == self.show_button,
            s.thresholds == thresholds,
    {
        StatusBar { thresholds, ..self }
    }

    pub fn show_button(self, show: bool) -> (s: StatusBar)
        ensures
            s.character_count == self.character_count,
            s.character_limit == self.character_limit,
            s.button_text == self.button_text,
            s.show_button == show,
            s.thresholds == self.thresholds,
    {
        StatusBar { show_button: show, ..self }
    }

    /// The colour band of the current count: over the limit outranks the
    /// danger, caution and warning thresholds, in that order.
    pub fn count_band(&self) -> (b: CharCountBand)
        ensures
            b == (if self.character_count > self.character_limit {
                CharCountBand::OverLimit
            } else if self.character_count > self.thresholds.danger {
                CharCountBand::Danger
            } else if self.character_count > self.thresholds.caution {
                CharCountBand::Caution
            } else if self.character_count > self.thresholds.warning {
                CharCountBand::Warning
            } else {
                CharCountBand::Normal
            }),
    {
        if self.character_count > self.character_limit {
            CharCountBand::OverLimit
        } else if self.character_count > self.thresholds.danger {
            CharCountBand::Danger
        } else if self.character_count > self.thresholds.caution {
            CharCountBand::Caution
        } else if self.character_count > self.thresholds.warning {
            CharCountBand::Warning
        } else {
            CharCountBand::Normal
        }
    }
}

} // verus!

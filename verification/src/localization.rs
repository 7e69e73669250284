//! The languages of the app's user interface and the texts translated into them.
use vstd::prelude::*;

verus! {

/// A language of the user interface.
#[derive(Clone, Copy, Debug, PartialEq, Eq, Structural)]
pub enum Locale {
    EN,
    FR,
}

impl Default for Locale {
    /// English.
    fn default() -> (r: Locale)
        ensures
            r == Locale::EN,
    {
        Locale::EN
    }
}

/// A translated text.
#[derive(Clone, Copy, Debug, PartialEq, Eq, Structural)]
pub enum Message {
    /// Shown by the installer once it has restarted itself with admin permissions.
    InstallerReopenUAC,
    /// The label of the button that opens Project64.
    OpenPj64Button,
}

pub open spec fn message_text(locale: Locale, message: Message) -> Seq<char> {
    match message {
        Message::InstallerReopenUAC => match locale {
            Locale::EN => "The installer has been reopened with admin permissions. Please continue there."@,
            Locale::FR => "L'installateur a été ré-ouvert avec les permissions administrateur. Veuillez continuer dans la nouvelle fenêtre."@,
        },
        Message::OpenPj64Button => match locale {
            Locale::EN => "Open Project64"@,
            Locale::FR => "Ouvrir Project64"@,
        },
    }
}

pub open spec fn locale_name(locale: Locale) -> Seq<char> {
    match locale {
        Locale::EN => "English"@,
        Locale::FR => "Français"@,
    }
}

impl Locale {
    /// The text of `message` in this language.
    pub fn message(&self, message: Message) -> (r: &'static str)
        ensures
            r@ == message_text(*self, message),
    {
        match message {
            Message::InstallerReopenUAC => match self {
                Locale::EN => "The installer has been reopened with admin permissions. Please continue there.",
                Locale::FR => "L'installateur a été ré-ouvert avec les permissions administrateur. Veuillez continuer dans la nouvelle fenêtre.",
            },
            Message::OpenPj64Button => match self {
                Locale::EN => "Open Project64",
                Locale::FR => "Ouvrir Project64",
            },
        }
    }

    /// The name of this language, in this language.
    pub fn to_display_string(&self) -> (r: &'static str)
        ensures
            r@ == locale_name(*self),
    {
        match self {
            Locale::EN => "English",
            Locale::FR => "Français",
        }
    }
}

} // verus!

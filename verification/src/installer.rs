//! The pages of the installer and how its Back button moves between them.
use vstd::prelude::*;
use crate::report::{error_report, error_report_text};
use crate::text::push_str;

verus! {

/// An emulator the installer sets multiworld up for.
#[derive(Clone, Copy, Debug, PartialEq, Eq, Structural)]
pub enum Emulator {
    BizHawk,
    Project64,
}

/// A page of the installer. (The error shown on the error page is kept by the
/// window; the page holds whether its details are expanded.)
#[derive(Clone, Debug)]
pub enum Page {
    Error(bool),
    Elevated,
    SelectEmulator {
        emulator: Option<Emulator>,
        install_emulator: Option<bool>,
        emulator_path: Option<String>,
        multiworld_path: Option<String>,
    },
    LocateEmulator {
        emulator: Emulator,
        install_emulator: bool,
        emulator_path: String,
        multiworld_path: Option<String>,
    },
    AskBizHawkUpdate { emulator_path: String, multiworld_path: Option<String> },
    InstallEmulator {
        update: bool,
        emulator: Emulator,
        emulator_path: String,
        multiworld_path: Option<String>,
    },
    LocateMultiworld { emulator: Emulator, emulator_path: String, multiworld_path: String },
    InstallMultiworld {
        emulator: Emulator,
        emulator_path: String,
        multiworld_path: Option<String>,
        config_write_failed: bool,
    },
    AskLaunch { emulator: Emulator, emulator_path: String, multiworld_path: Option<String> },
}

/// A page, with its texts as character sequences.
pub enum PageModel {
    Error(bool),
    Elevated,
    SelectEmulator {
        emulator: Option<Emulator>,
        install_emulator: Option<bool>,
        emulator_path: Option<Seq<char>>,
        multiworld_path: Option<Seq<char>>,
    },
    LocateEmulator {
        emulator: Emulator,
        install_emulator: bool,
        emulator_path: Seq<char>,
        multiworld_path: Option<Seq<char>>,
    },
    AskBizHawkUpdate { emulator_path: Seq<char>, multiworld_path: Option<Seq<char>> },
    InstallEmulator {
        update: bool,
        emulator: Emulator,
        emulator_path: Seq<char>,
        multiworld_path: Option<Seq<char>>,
    },
    LocateMultiworld { emulator: Emulator, emulator_path: Seq<char>, multiworld_path: Seq<char> },
    InstallMultiworld {
        emulator: Emulator,
        emulator_path: Seq<char>,
        multiworld_path: Option<Seq<char>>,
        config_write_failed: bool,
    },
    AskLaunch { emulator: Emulator, emulator_path: Seq<char>, multiworld_path: Option<Seq<char>> },
}

pub open spec fn opt_text(s: Option<String>) -> Option<Seq<char>> {
    match s {
        Some(t) => Some(t@),
        None => None,
    }
}

impl View for Page {
    type V = PageModel;

    open spec fn view(&self) -> PageModel {
        match self {
            Page::Error(e) => PageModel::Error(*e),
            Page::Elevated => PageModel::Elevated,
            Page::SelectEmulator { emulator, install_emulator, emulator_path, multiworld_path } => PageModel::SelectEmulator {
                emulator: *emulator,
                install_emulator: *install_emulator,
                emulator_path: opt_text(*emulator_path),
                multiworld_path: opt_text(*multiworld_path),
            },
            Page::LocateEmulator { emulator, install_emulator, emulator_path, multiworld_path } => PageModel::LocateEmulator {
                emulator: *emulator,
                install_emulator: *install_emulator,
                emulator_path: emulator_path@,
                multiworld_path: opt_text(*multiworld_path),
            },
            Page::AskBizHawkUpdate { emulator_path, multiworld_path } => PageModel::AskBizHawkUpdate {
                emulator_path: emulator_path@,
                multiworld_path: opt_text(*multiworld_path),
            },
            Page::InstallEmulator { update, emulator, emulator_path, multiworld_path } => PageModel::InstallEmulator {
                update: *update,
                emulator: *emulator,
                emulator_path: emulator_path@,
                multiworld_path: opt_text(*multiworld_path),
            },
            Page::LocateMultiworld { emulator, emulator_path, multiworld_path } => PageModel::LocateMultiworld {
                emulator: *emulator,
                emulator_path: emulator_path@,
                multiworld_path: multiworld_path@,
            },
            Page::InstallMultiworld { emulator, emulator_path, multiworld_path, config_write_failed } => PageModel::InstallMultiworld {
                emulator: *emulator,
                emulator_path: emulator_path@,
                multiworld_path: opt_text(*multiworld_path),
                config_write_failed: *config_write_failed,
            },
            Page::AskLaunch { emulator, emulator_path, multiworld_path } => PageModel::AskLaunch {
                emulator: *emulator,
                emulator_path: emulator_path@,
                multiworld_path: opt_text(*multiworld_path),
            },
        }
    }
}

/// The pages with a Back button.
pub open spec fn has_back(p: PageModel) -> bool {
    match p {
        PageModel::LocateEmulator { .. } | PageModel::AskBizHawkUpdate { .. } | PageModel::LocateMultiworld {
            ..
        } | PageModel::InstallMultiworld { .. } | PageModel::AskLaunch { .. } => true,
        _ => false,
    }
}

/// The page the Back button leads to, keeping what was entered: from locating
/// the emulator back to choosing it; from the BizHawk update question or
/// locating the app back to locating the emulator; from the last pages back to
/// locating the app (Project64, where its place was chosen) or the emulator.
pub open spec fn back_spec(p: PageModel) -> PageModel {
    match p {
        PageModel::LocateEmulator { emulator, install_emulator, emulator_path, multiworld_path } => PageModel::SelectEmulator {
            emulator: Some(emulator),
            install_emulator: Some(install_emulator),
            emulator_path: Some(emulator_path),
            multiworld_path,
        },
        PageModel::AskBizHawkUpdate { emulator_path, multiworld_path } => PageModel::LocateEmulator {
            emulator: Emulator::BizHawk,
            install_emulator: false,
            emulator_path,
            multiworld_path,
        },
        PageModel::LocateMultiworld { emulator, emulator_path, multiworld_path } => PageModel::LocateEmulator {
            emulator,
            install_emulator: false,
            emulator_path,
            multiworld_path: Some(multiworld_path),
        },
        PageModel::InstallMultiworld { emulator, emulator_path, multiworld_path, .. } | PageModel::AskLaunch {
            emulator,
            emulator_path,
            multiworld_path,
        } => match (emulator, multiworld_path) {
            (Emulator::Project64, Some(m)) => PageModel::LocateMultiworld {
                emulator,
                emulator_path,
                multiworld_path: m,
            },
            _ => PageModel::LocateEmulator {
                emulator,
                install_emulator: false,
                emulator_path,
                multiworld_path: if emulator == Emulator::BizHawk {
                    multiworld_path
                } else {
                    None
                },
            },
        },
        _ => p,
    }
}

impl Page {
    /// The page the Back button leads to.
    pub fn back(&self) -> (r: Page)
        requires
            has_back(self@),
        ensures
            r@ == back_spec(self@),
    {
        match self {
            Page::LocateEmulator { emulator, install_emulator, emulator_path, multiworld_path } => Page::SelectEmulator {
                emulator: Some(*emulator),
                install_emulator: Some(*install_emulator),
                emulator_path: Some(emulator_path.clone()),
                multiworld_path: multiworld_path.clone(),
            },
            Page::AskBizHawkUpdate { emulator_path, multiworld_path } => Page::LocateEmulator {
                emulator: Emulator::BizHawk,
                install_emulator: false,
                emulator_path: emulator_path.clone(),
                multiworld_path: multiworld_path.clone(),
            },
            Page::LocateMultiworld { emulator, emulator_path, multiworld_path } => Page::LocateEmulator {
                emulator: *emulator,
                install_emulator: false,
                emulator_path: emulator_path.clone(),
                multiworld_path: Some(multiworld_path.clone()),
            },
            Page::InstallMultiworld { emulator, emulator_path, multiworld_path, .. } => Self::back_to_locate(
                *emulator,
                emulator_path,
                multiworld_path,
            ),
            Page::AskLaunch { emulator, emulator_path, multiworld_path } => Self::back_to_locate(
                *emulator,
                emulator_path,
                multiworld_path,
            ),
            _ => self.clone_page(),
        }
    }

    fn back_to_locate(emulator: Emulator, emulator_path: &String, multiworld_path: &Option<String>) -> (r: Page)
        ensures
            r@ == match (emulator, opt_text(*multiworld_path)) {
                (Emulator::Project64, Some(m)) => PageModel::LocateMultiworld {
                    emulator,
                    emulator_path: emulator_path@,
                    multiworld_path: m,
                },
                _ => PageModel::LocateEmulator {
                    emulator,
                    install_emulator: false,
                    emulator_path: emulator_path@,
                    multiworld_path: if emulator == Emulator::BizHawk {
                        opt_text(*multiworld_path)
                    } else {
                        None
                    },
                },
            },
    {
        match emulator {
            Emulator::BizHawk => Page::LocateEmulator {
                emulator,
                install_emulator: false,
                emulator_path: emulator_path.clone(),
                multiworld_path: multiworld_path.clone(),
            },
            Emulator::Project64 => match multiworld_path {
                Some(m) => Page::LocateMultiworld {
                    emulator,
                    emulator_path: emulator_path.clone(),
                    multiworld_path: m.clone(),
                },
                None => Page::LocateEmulator {
                    emulator,
                    install_emulator: false,
                    emulator_path: emulator_path.clone(),
                    multiworld_path: None,
                },
            },
        }
    }

    fn clone_page(&self) -> (r: Page)
        ensures
            r@ == self@,
    {
        match self {
            Page::Error(e) => Page::Error(*e),
            Page::Elevated => Page::Elevated,
            Page::SelectEmulator { emulator, install_emulator, emulator_path, multiworld_path } => Page::SelectEmulator {
                emulator: *emulator,
                install_emulator: *install_emulator,
                emulator_path: emulator_path.clone(),
                multiworld_path: multiworld_path.clone(),
            },
            Page::LocateEmulator { emulator, install_emulator, emulator_path, multiworld_path } => Page::LocateEmulator {
                emulator: *emulator,
                install_emulator: *install_emulator,
                emulator_path: emulator_path.clone(),
                multiworld_path: multiworld_path.clone(),
            },
            Page::AskBizHawkUpdate { emulator_path, multiworld_path } => Page::AskBizHawkUpdate {
                emulator_path: emulator_path.clone(),
                multiworld_path: multiworld_path.clone(),
            },
            Page::InstallEmulator { update, emulator, emulator_path, multiworld_path } => Page::InstallEmulator {
                update: *update,
                emulator: *emulator,
                emulator_path: emulator_path.clone(),
                multiworld_path: multiworld_path.clone(),
            },
            Page::LocateMultiworld { emulator, emulator_path, multiworld_path } => Page::LocateMultiworld {
                emulator: *emulator,
                emulator_path: emulator_path.clone(),
                multiworld_path: multiworld_path.clone(),
            },
            Page::InstallMultiworld { emulator, emulator_path, multiworld_path, config_write_failed } => Page::InstallMultiworld {
                emulator: *emulator,
                emulator_path: emulator_path.clone(),
                multiworld_path: multiworld_path.clone(),
                config_write_failed: *config_write_failed,
            },
            Page::AskLaunch { emulator, emulator_path, multiworld_path } => Page::AskLaunch {
                emulator: *emulator,
                emulator_path: emulator_path.clone(),
                multiworld_path: multiworld_path.clone(),
            },
        }
    }
}

pub open spec fn browse_title_spec(emulator: Emulator, install_emulator: bool) -> Seq<char> {
    match (emulator, install_emulator) {
        (Emulator::BizHawk, false) => "Select BizHawk Folder"@,
        (Emulator::BizHawk, true) => "Choose Location for BizHawk Installation"@,
        (Emulator::Project64, false) => "Select Project64 Folder"@,
        (Emulator::Project64, true) => "Choose Location for Project64 Installation"@,
    }
}

/// The title of the folder dialog for the emulator's location.
pub fn browse_title(emulator: Emulator, install_emulator: bool) -> (r: &'static str)
    ensures
        r@ == browse_title_spec(emulator, install_emulator),
{
    match (emulator, install_emulator) {
        (Emulator::BizHawk, false) => "Select BizHawk Folder",
        (Emulator::BizHawk, true) => "Choose Location for BizHawk Installation",
        (Emulator::Project64, false) => "Select Project64 Folder",
        (Emulator::Project64, true) => "Choose Location for Project64 Installation",
    }
}

/// The first line of the installer's bug report.
pub open spec fn install_report_heading(version: Seq<char>) -> Seq<char> {
    "error in multiworld-installer version "@ + version + ":"@
}

/// The installer's bug report on its error (`display` and `debug_text` are the
/// error's message and debug form).
pub fn install_error_report(version: &str, display: &str, debug_text: &str) -> (r: String)
    ensures
        r@ == error_report_text(install_report_heading(version@), display@, debug_text@),
{
    let mut heading = String::new();
    push_str(&mut heading, "error in multiworld-installer version ");
    push_str(&mut heading, version);
    push_str(&mut heading, ":");
    assert(heading@ =~= install_report_heading(version@));
    error_report(heading.as_str(), display, debug_text)
}

} // verus!

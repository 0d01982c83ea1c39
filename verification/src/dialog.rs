//! The update dialog: what the user asks for, what the background tasks
//! answer, and what the dialog shows for each answer.

use crate::text::{push_str, string_of};
use vstd::prelude::*;

verus! {

/// What the user asks of the dialog.
#[derive(Clone, Copy, Debug, PartialEq, Eq, Structural)]
pub enum Input {
    /// Look for a newer release.
    CheckUpdate,
    /// Download and install the release.
    Download,
    /// Close the dialog.
    Exit,
}

/// What a background task tells the dialog.
#[derive(Debug)]
pub enum CmdOut {
    /// The check has begun.
    Checking,
    /// The check has ended: whether an update is available, with its
    /// changelog, or the error.
    Checked(Result<(bool, String), String>),
    /// The download has begun.
    Download,
    /// Progress of the download: the label, and the fraction that is
    /// written, in parts per million.
    Progress(String, u64),
    /// The installation has ended, with its message or its error.
    Finished(Result<String, String>),
}

/// The background work that an input asks for.
#[derive(Clone, Copy, Debug, PartialEq, Eq, Structural)]
pub enum Effect {
    /// Run a check for updates.
    StartCheck,
    /// Run a download and installation.
    StartDownload,
    /// Close the window.
    Close,
    /// Close the window and end the process, so that the binary that was
    /// installed runs at the next start.
    Quit,
}

/// The state of the update dialog.
#[derive(Debug)]
pub struct Updater {
    /// Whether a check is under way.
    pub checking: bool,
    /// Whether a download has been asked for.
    pub downloading: bool,
    /// The last word of a background task.
    pub task: Option<CmdOut>,
}

impl Default for Updater {
    fn default() -> (out: Updater)
        ensures
            !out.checking,
            !out.downloading,
            out.task is None,
    {
        Updater { checking: false, downloading: false, task: None }
    }
}

impl Updater {
    /// Whether the last word of a background task is that the new binary
    /// is in place.
    pub open spec fn installed(&self) -> bool {
        self.task matches Some(CmdOut::Finished(Ok(_)))
    }

    /// Takes in what the user asked for, and says which work to start.
    ///
    /// Leaving the dialog after a successful installation ends the process;
    /// leaving it at any other time only closes the window.
    pub fn update(&mut self, message: Input) -> (out: Effect)
        ensures
            final(self).task == old(self).task,
            final(self).checking == (old(self).checking || message == Input::CheckUpdate),
            final(self).downloading == (old(self).downloading || message == Input::Download),
            out == match message {
                Input::CheckUpdate => Effect::StartCheck,
                Input::Download => Effect::StartDownload,
                Input::Exit => if old(self).installed() {
                    Effect::Quit
                } else {
                    Effect::Close
                },
            },
    {
        match message {
            Input::CheckUpdate => {
                self.checking = true;
                Effect::StartCheck
            },
            Input::Download => {
                self.downloading = true;
                Effect::StartDownload
            },
            Input::Exit => match &self.task {
                Some(CmdOut::Finished(Ok(_))) => Effect::Quit,
                _ => Effect::Close,
            },
        }
    }

    /// Takes in what a background task said: it becomes the last word, and
    /// the result of a check ends the check.
    pub fn update_cmd(&mut self, message: CmdOut)
        ensures
            final(self).task == Some(message),
            final(self).downloading == old(self).downloading,
            final(self).checking == (old(self).checking && !(message is Checked)),
    {
        if let CmdOut::Checked(_) = &message {
            self.checking = false;
        }
        self.task = Some(message);
    }
}

/// What the dialog shows.
#[derive(Debug)]
pub struct Dialog {
    /// The headline.
    pub label: String,
    /// The changelog, as markup.
    pub whatsnew: String,
    /// The label beside the progress bar.
    pub size_label: String,
    /// The fraction of the progress bar, in parts per million.
    pub fraction_ppm: u64,
    pub check_button: bool,
    pub update_button: bool,
    pub cancel_button: bool,
    pub ok_button: bool,
    pub changelog_shown: bool,
    pub size_shown: bool,
    pub spinner_shown: bool,
    pub progress_shown: bool,
}

/// The mathematical value of a [`Dialog`].
pub struct DialogView {
    pub label: Seq<char>,
    pub whatsnew: Seq<char>,
    pub size_label: Seq<char>,
    pub fraction_ppm: u64,
    pub check_button: bool,
    pub update_button: bool,
    pub cancel_button: bool,
    pub ok_button: bool,
    pub changelog_shown: bool,
    pub size_shown: bool,
    pub spinner_shown: bool,
    pub progress_shown: bool,
}

impl View for Dialog {
    type V = DialogView;

    open spec fn view(&self) -> DialogView {
        DialogView {
            label: self.label@,
            whatsnew: self.whatsnew@,
            size_label: self.size_label@,
            fraction_ppm: self.fraction_ppm,
            check_button: self.check_button,
            update_button: self.update_button,
            cancel_button: self.cancel_button,
            ok_button: self.ok_button,
            changelog_shown: self.changelog_shown,
            size_shown: self.size_shown,
            spinner_shown: self.spinner_shown,
            progress_shown: self.progress_shown,
        }
    }
}

/// An error as the dialog words it.
pub open spec fn error_text(e: Seq<char>) -> Seq<char> {
    "Error: "@ + e
}

/// The dialog `d` after it has taken in the last word `task` of a
/// background task.
pub open spec fn shown(d: DialogView, task: CmdOut) -> DialogView {
    match task {
        CmdOut::Checking => DialogView {
            check_button: false,
            label: "Checking for update..."@,
            spinner_shown: true,
            ..d
        },
        CmdOut::Checked(Ok((true, notes))) => DialogView {
            spinner_shown: false,
            check_button: false,
            label: "What's new?"@,
            whatsnew: notes@,
            changelog_shown: true,
            update_button: true,
            cancel_button: true,
            ..d
        },
        CmdOut::Checked(Ok((false, _))) => DialogView {
            spinner_shown: false,
            check_button: false,
            label: "No update available."@,
            ok_button: true,
            ..d
        },
        CmdOut::Checked(Err(e)) => DialogView {
            spinner_shown: false,
            check_button: false,
            label: error_text(e@),
            ..d
        },
        CmdOut::Download => DialogView {
            update_button: false,
            cancel_button: false,
            changelog_shown: false,
            label: "Downloading..."@,
            size_shown: true,
            progress_shown: true,
            ..d
        },
        CmdOut::Progress(text, ppm) => DialogView {
            label: "Downloading..."@,
            size_label: text@,
            fraction_ppm: ppm,
            ..d
        },
        CmdOut::Finished(Ok(text)) => DialogView {
            progress_shown: false,
            ok_button: true,
            size_shown: false,
            label: text@,
            ..d
        },
        CmdOut::Finished(Err(e)) => DialogView {
            progress_shown: false,
            ok_button: true,
            size_shown: false,
            label: error_text(e@),
            ..d
        },
    }
}

fn error_label(e: &str) -> (out: String)
    ensures
        out@ == error_text(e@),
{
    let mut buf: Vec<char> = Vec::new();
    push_str(&mut buf, "Error: ");
    push_str(&mut buf, e);
    string_of(&buf)
}

impl Dialog {
    /// The dialog as it opens: only the button that starts a check shows.
    pub fn new() -> (out: Dialog)
        ensures
            out@ == (DialogView {
                label: Seq::empty(),
                whatsnew: Seq::empty(),
                size_label: "0.0/0.0 MB"@,
                fraction_ppm: 0,
                check_button: true,
                update_button: false,
                cancel_button: false,
                ok_button: false,
                changelog_shown: false,
                size_shown: false,
                spinner_shown: false,
                progress_shown: false,
            }),
    {
        Dialog {
            label: String::new(),
            whatsnew: String::new(),
            size_label: "0.0/0.0 MB".to_owned(),
            fraction_ppm: 0,
            check_button: true,
            update_button: false,
            cancel_button: false,
            ok_button: false,
            changelog_shown: false,
            size_shown: false,
            spinner_shown: false,
            progress_shown: false,
        }
    }
}

impl Updater {
    /// Brings the dialog up to date with the last word of the background
    /// task. Without such a word the dialog stays as it is.
    pub fn update_view(&self, dialog: &mut Dialog)
        ensures
            final(dialog)@ == match self.task {
                Some(task) => shown(old(dialog)@, task),
                None => old(dialog)@,
            },
    {
        match &self.task {
            None => {},
            Some(CmdOut::Checking) => {
                dialog.check_button = false;
                dialog.label = "Checking for update...".to_owned();
                dialog.spinner_shown = true;
            },
            Some(CmdOut::Checked(result)) => {
                dialog.spinner_shown = false;
                dialog.check_button = false;
                match result {
                    Ok((true, notes)) => {
                        dialog.label = "What's new?".to_owned();
                        dialog.whatsnew = notes.clone();
                        dialog.changelog_shown = true;
                        dialog.update_button = true;
                        dialog.cancel_button = true;
                    },
                    Ok((false, _)) => {
                        dialog.label = "No update available.".to_owned();
                        dialog.ok_button = true;
                    },
                    Err(e) => {
                        dialog.label = error_label(e.as_str());
                    },
                }
            },
            Some(CmdOut::Download) => {
                dialog.update_button = false;
                dialog.cancel_button = false;
                dialog.changelog_shown = false;
                dialog.label = "Downloading...".to_owned();
                dialog.size_shown = true;
                dialog.progress_shown = true;
            },
            Some(CmdOut::Progress(text, ppm)) => {
                dialog.label = "Downloading...".to_owned();
                dialog.size_label = text.clone();
                dialog.fraction_ppm = *ppm;
            },
            Some(CmdOut::Finished(result)) => {
                dialog.progress_shown = false;
                dialog.ok_button = true;
                dialog.size_shown = false;
                match result {
                    Ok(text) => {
                        dialog.label = text.clone();
                    },
                    Err(e) => {
                        dialog.label = error_label(e.as_str());
                    },
                }
            },
        }
    }
}

} // verus!

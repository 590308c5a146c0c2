//! Keyboard handling of the first-run assistant: checking rclone, then entering the Google
//! Drive credentials.
use vstd::prelude::*;
use crate::config::opt_view;
use crate::dashboard::{FirstRunField, FirstRunState, FirstRunStep, HitAction, RcloneInstallStatus};
use crate::line_edit::{
    Key, clean_clip, clean_clipboard_text, edit_line, edited, paste_line, pasted,
};
use crate::text::chars_of;

verus! {

/// What the application must do after a key press in the assistant.
#[derive(Debug, Clone, PartialEq, Eq)]
pub enum FirstRunCommand {
    /// Nothing beyond the change of the assistant itself.
    Nothing,
    /// Start installing rclone.
    InstallRclone,
    /// Store these credentials (client id, client secret) and close the assistant.
    SaveCredentials(String, String),
    /// Close the assistant without credentials.
    SkipCredentials,
}

/// View of the assistant: the part of its state that a key press reads and changes.
#[verifier::ext_equal]
pub struct FirstRunV {
    pub step: FirstRunStep,
    pub field: FirstRunField,
    pub help: bool,
    pub id: Seq<char>,
    pub id_cursor: int,
    pub secret: Seq<char>,
    pub secret_cursor: int,
}

pub open spec fn first_run_view(s: FirstRunState) -> FirstRunV {
    FirstRunV {
        step: s.step,
        field: s.active_field,
        help: s.show_help,
        id: s.client_id@,
        id_cursor: s.client_id_cursor as int,
        secret: s.client_secret@,
        secret_cursor: s.client_secret_cursor as int,
    }
}

pub open spec fn with_field(v: FirstRunV, f: FirstRunField) -> FirstRunV {
    FirstRunV { field: f, ..v }
}

pub open spec fn with_help_toggled(v: FirstRunV) -> FirstRunV {
    FirstRunV { help: !v.help, ..v }
}

/// The credentials step, focus on the client id.
pub open spec fn to_credentials(v: FirstRunV) -> FirstRunV {
    FirstRunV { step: FirstRunStep::GoogleCredentials, field: FirstRunField::ClientIdInput, ..v }
}

/// Whether the install buttons are inactive (rclone installed or being installed).
pub open spec fn install_settled(st: RcloneInstallStatus) -> bool {
    st is Installed || st is Installing
}

/// The assistant after a key on the rclone check: Enter continues once rclone is installed
/// or when `Skip` is focused; the arrows and Tab switch between `Install` and `Skip` while
/// no installation is done or running; Esc goes on to the credentials.
pub open spec fn check_after(v: FirstRunV, status: RcloneInstallStatus, key: Key) -> FirstRunV {
    match key {
        Key::Enter => if status is Installed || (!(status is Installing) && v.field
            == FirstRunField::SkipRcloneButton) {
            to_credentials(v)
        } else {
            v
        },
        Key::Tab | Key::Right | Key::Down => if install_settled(status) {
            v
        } else if v.field == FirstRunField::InstallRcloneButton {
            with_field(v, FirstRunField::SkipRcloneButton)
        } else {
            with_field(v, FirstRunField::InstallRcloneButton)
        },
        Key::BackTab | Key::Left | Key::Up => if install_settled(status) {
            v
        } else if v.field == FirstRunField::SkipRcloneButton {
            with_field(v, FirstRunField::InstallRcloneButton)
        } else {
            with_field(v, FirstRunField::SkipRcloneButton)
        },
        Key::Esc => to_credentials(v),
        _ => v,
    }
}

/// Focus after Tab on the credentials step.
pub open spec fn tab_next(f: FirstRunField) -> FirstRunField {
    match f {
        FirstRunField::ClientIdInput => FirstRunField::ClientSecretInput,
        FirstRunField::ClientSecretInput => FirstRunField::SaveCredentialsButton,
        FirstRunField::SaveCredentialsButton => FirstRunField::SkipCredentialsButton,
        FirstRunField::SkipCredentialsButton => FirstRunField::ToggleHelpButton,
        _ => FirstRunField::ClientIdInput,
    }
}

/// Focus after Shift+Tab on the credentials step.
pub open spec fn tab_prev(f: FirstRunField) -> FirstRunField {
    match f {
        FirstRunField::ClientIdInput => FirstRunField::ToggleHelpButton,
        FirstRunField::ClientSecretInput => FirstRunField::ClientIdInput,
        FirstRunField::SaveCredentialsButton => FirstRunField::ClientSecretInput,
        FirstRunField::SkipCredentialsButton => FirstRunField::SaveCredentialsButton,
        FirstRunField::ToggleHelpButton => FirstRunField::SkipCredentialsButton,
        _ => FirstRunField::ClientIdInput,
    }
}

/// Focus after Down on the credentials step (the buttons form one row).
pub open spec fn row_down(f: FirstRunField) -> FirstRunField {
    match f {
        FirstRunField::ClientIdInput => FirstRunField::ClientSecretInput,
        FirstRunField::ClientSecretInput => FirstRunField::SaveCredentialsButton,
        _ => FirstRunField::ClientIdInput,
    }
}

/// Focus after Up on the credentials step.
pub open spec fn row_up(f: FirstRunField) -> FirstRunField {
    match f {
        FirstRunField::ClientIdInput => FirstRunField::SaveCredentialsButton,
        FirstRunField::ClientSecretInput => FirstRunField::ClientIdInput,
        FirstRunField::SaveCredentialsButton | FirstRunField::SkipCredentialsButton
        | FirstRunField::ToggleHelpButton => FirstRunField::ClientSecretInput,
        _ => FirstRunField::ClientIdInput,
    }
}

/// Focus after Left on the row of buttons (wrapping around).
pub open spec fn button_left(f: FirstRunField) -> FirstRunField {
    match f {
        FirstRunField::SaveCredentialsButton => FirstRunField::ToggleHelpButton,
        FirstRunField::SkipCredentialsButton => FirstRunField::SaveCredentialsButton,
        FirstRunField::ToggleHelpButton => FirstRunField::SkipCredentialsButton,
        _ => f,
    }
}

/// Focus after Right on the row of buttons (wrapping around).
pub open spec fn button_right(f: FirstRunField) -> FirstRunField {
    match f {
        FirstRunField::SaveCredentialsButton => FirstRunField::SkipCredentialsButton,
        FirstRunField::SkipCredentialsButton => FirstRunField::ToggleHelpButton,
        FirstRunField::ToggleHelpButton => FirstRunField::SaveCredentialsButton,
        _ => f,
    }
}

pub open spec fn is_input(f: FirstRunField) -> bool {
    f == FirstRunField::ClientIdInput || f == FirstRunField::ClientSecretInput
}

/// An editing key applied to the focused credential field (none when a button is focused).
pub open spec fn edit_focused(v: FirstRunV, key: Key) -> FirstRunV {
    if v.field == FirstRunField::ClientIdInput {
        let e = edited(v.id, v.id_cursor, key);
        FirstRunV { id: e.0, id_cursor: e.1, ..v }
    } else if v.field == FirstRunField::ClientSecretInput {
        let e = edited(v.secret, v.secret_cursor, key);
        FirstRunV { secret: e.0, secret_cursor: e.1, ..v }
    } else {
        v
    }
}

/// `clip` pasted into the focused credential field (none when a button is focused).
pub open spec fn paste_focused(v: FirstRunV, clip: Seq<char>) -> FirstRunV {
    if v.field == FirstRunField::ClientIdInput {
        let e = pasted(v.id, v.id_cursor, clip);
        FirstRunV { id: e.0, id_cursor: e.1, ..v }
    } else if v.field == FirstRunField::ClientSecretInput {
        let e = pasted(v.secret, v.secret_cursor, clip);
        FirstRunV { secret: e.0, secret_cursor: e.1, ..v }
    } else {
        v
    }
}

/// The assistant after a key on the credentials step. Tab, Shift+Tab, Up and Down move the
/// focus; Enter moves from a field to the next and toggles the help on its button; Left and
/// Right move the cursor of a field or the focus along the buttons; `?` and `h` toggle the help
/// when a button is focused; Ctrl+V pastes the cleaned clipboard `clip` into a field; the other
/// keys edit the focused field.
pub open spec fn credentials_after(v: FirstRunV, key: Key, ctrl: bool, clip: Option<Seq<char>>) -> FirstRunV {
    match key {
        Key::Tab => with_field(v, tab_next(v.field)),
        Key::BackTab => with_field(v, tab_prev(v.field)),
        Key::Down => with_field(v, row_down(v.field)),
        Key::Up => with_field(v, row_up(v.field)),
        Key::Enter => if v.field == FirstRunField::ClientIdInput {
            with_field(v, FirstRunField::ClientSecretInput)
        } else if v.field == FirstRunField::ClientSecretInput {
            with_field(v, FirstRunField::SaveCredentialsButton)
        } else if v.field == FirstRunField::ToggleHelpButton {
            with_help_toggled(v)
        } else {
            v
        },
        Key::Esc => v,
        Key::Left => if is_input(v.field) {
            edit_focused(v, key)
        } else {
            with_field(v, button_left(v.field))
        },
        Key::Right => if is_input(v.field) {
            edit_focused(v, key)
        } else {
            with_field(v, button_right(v.field))
        },
        Key::Char(c) => if (c == '?' || c == 'h') && !is_input(v.field) {
            with_help_toggled(v)
        } else if c == 'v' && ctrl {
            match clip {
                Some(p) => paste_focused(v, clean_clip(p)),
                None => v,
            }
        } else {
            edit_focused(v, key)
        },
        _ => edit_focused(v, key),
    }
}

/// The assistant after a key press; `clip` is the clipboard text read for Ctrl+V.
pub open spec fn first_run_after(
    v: FirstRunV,
    status: RcloneInstallStatus,
    key: Key,
    ctrl: bool,
    clip: Option<Seq<char>>,
) -> FirstRunV {
    if v.step == FirstRunStep::RcloneCheck {
        check_after(v, status, key)
    } else {
        credentials_after(v, key, ctrl, clip)
    }
}

/// Enter on the rclone check with `Install` (not `Skip`) focused while rclone is missing.
pub open spec fn asks_install(v: FirstRunV, status: RcloneInstallStatus, key: Key) -> bool {
    &&& v.step == FirstRunStep::RcloneCheck
    &&& key == Key::Enter
    &&& (status is NotInstalled || status is Failed)
    &&& v.field != FirstRunField::SkipRcloneButton
}

/// Enter on `Save` at the credentials step.
pub open spec fn asks_save(v: FirstRunV, key: Key) -> bool {
    v.step == FirstRunStep::GoogleCredentials && key == Key::Enter && v.field
        == FirstRunField::SaveCredentialsButton
}

/// Esc, or Enter on `Skip`, at the credentials step.
pub open spec fn asks_skip(v: FirstRunV, key: Key) -> bool {
    v.step == FirstRunStep::GoogleCredentials && (key == Key::Esc || (key == Key::Enter && v.field
        == FirstRunField::SkipCredentialsButton))
}

impl FirstRunState {
    /// Handles a key press (`ctrl`: with Control held); `clip` is the clipboard text, read by
    /// the caller for Ctrl+V. Returns what the application must do next.
    pub fn on_key(&mut self, key: Key, ctrl: bool, clip: Option<String>) -> (r: FirstRunCommand)
        ensures
            final(self).rclone_status == old(self).rclone_status,
            first_run_view(*final(self)) == first_run_after(
                first_run_view(*old(self)),
                old(self).rclone_status,
                key,
                ctrl,
                opt_view(clip),
            ),
            r is InstallRclone <==> asks_install(
                first_run_view(*old(self)),
                old(self).rclone_status,
                key,
            ),
            r is SaveCredentials <==> asks_save(first_run_view(*old(self)), key),
            r is SkipCredentials <==> asks_skip(first_run_view(*old(self)), key),
            r matches FirstRunCommand::SaveCredentials(id, secret) ==> id@ == old(self).client_id@
                && secret@ == old(self).client_secret@,
    {
        match self.step {
            FirstRunStep::RcloneCheck => self.check_key(key),
            FirstRunStep::GoogleCredentials => self.credentials_key(key, ctrl, clip),
        }
    }

    fn check_key(&mut self, key: Key) -> (r: FirstRunCommand)
        requires
            old(self).step == FirstRunStep::RcloneCheck,
        ensures
            final(self).rclone_status == old(self).rclone_status,
            first_run_view(*final(self)) == check_after(
                first_run_view(*old(self)),
                old(self).rclone_status,
                key,
            ),
            r is InstallRclone <==> asks_install(
                first_run_view(*old(self)),
                old(self).rclone_status,
                key,
            ),
            r is Nothing || r is InstallRclone,
    {
        let settled = match &self.rclone_status {
            RcloneInstallStatus::Installed(_) | RcloneInstallStatus::Installing => true,
            _ => false,
        };
        match key {
            Key::Enter => {
                match &self.rclone_status {
                    RcloneInstallStatus::Installed(_) => {
                        self.step = FirstRunStep::GoogleCredentials;
                        self.active_field = FirstRunField::ClientIdInput;
                    },
                    RcloneInstallStatus::NotInstalled | RcloneInstallStatus::Failed(_) => {
                        if self.active_field == FirstRunField::SkipRcloneButton {
                            self.step = FirstRunStep::GoogleCredentials;
                            self.active_field = FirstRunField::ClientIdInput;
                        } else {
                            return FirstRunCommand::InstallRclone;
                        }
                    },
                    RcloneInstallStatus::Installing => {},
                }
            },
            Key::Tab | Key::Right | Key::Down => {
                if !settled {
                    self.active_field = if self.active_field == FirstRunField::InstallRcloneButton {
                        FirstRunField::SkipRcloneButton
                    } else {
                        FirstRunField::InstallRcloneButton
                    };
                }
            },
            Key::BackTab | Key::Left | Key::Up => {
                if !settled {
                    self.active_field = if self.active_field == FirstRunField::SkipRcloneButton {
                        FirstRunField::InstallRcloneButton
                    } else {
                        FirstRunField::SkipRcloneButton
                    };
                }
            },
            Key::Esc => {
                self.step = FirstRunStep::GoogleCredentials;
                self.active_field = FirstRunField::ClientIdInput;
            },
            _ => {},
        }
        FirstRunCommand::Nothing
    }

    /// Applies an editing key to the focused credential field.
    fn edit_focused_field(&mut self, key: Key)
        ensures
            final(self).rclone_status == old(self).rclone_status,
            first_run_view(*final(self)) == edit_focused(first_run_view(*old(self)), key),
    {
        if self.active_field == FirstRunField::ClientIdInput {
            edit_line(&mut self.client_id, &mut self.client_id_cursor, key);
        } else if self.active_field == FirstRunField::ClientSecretInput {
            edit_line(&mut self.client_secret, &mut self.client_secret_cursor, key);
        }
    }

    fn credentials_key(&mut self, key: Key, ctrl: bool, clip: Option<String>) -> (r: FirstRunCommand)
        requires
            old(self).step == FirstRunStep::GoogleCredentials,
        ensures
            final(self).rclone_status == old(self).rclone_status,
            first_run_view(*final(self)) == credentials_after(
                first_run_view(*old(self)),
                key,
                ctrl,
                opt_view(clip),
            ),
            r is SaveCredentials <==> asks_save(first_run_view(*old(self)), key),
            r is SkipCredentials <==> asks_skip(first_run_view(*old(self)), key),
            !(r is InstallRclone),
            r matches FirstRunCommand::SaveCredentials(id, secret) ==> id@ == old(self).client_id@
                && secret@ == old(self).client_secret@,
    {
        let input = self.active_field == FirstRunField::ClientIdInput || self.active_field
            == FirstRunField::ClientSecretInput;
        match key {
            Key::Tab => {
                self.active_field = match self.active_field {
                    FirstRunField::ClientIdInput => FirstRunField::ClientSecretInput,
                    FirstRunField::ClientSecretInput => FirstRunField::SaveCredentialsButton,
                    FirstRunField::SaveCredentialsButton => FirstRunField::SkipCredentialsButton,
                    FirstRunField::SkipCredentialsButton => FirstRunField::ToggleHelpButton,
                    _ => FirstRunField::ClientIdInput,
                };
            },
            Key::BackTab => {
                self.active_field = match self.active_field {
                    FirstRunField::ClientIdInput => FirstRunField::ToggleHelpButton,
                    FirstRunField::ClientSecretInput => FirstRunField::ClientIdInput,
                    FirstRunField::SaveCredentialsButton => FirstRunField::ClientSecretInput,
                    FirstRunField::SkipCredentialsButton => FirstRunField::SaveCredentialsButton,
                    FirstRunField::ToggleHelpButton => FirstRunField::SkipCredentialsButton,
                    _ => FirstRunField::ClientIdInput,
                };
            },
            Key::Down => {
                self.active_field = match self.active_field {
                    FirstRunField::ClientIdInput => FirstRunField::ClientSecretInput,
                    FirstRunField::ClientSecretInput => FirstRunField::SaveCredentialsButton,
                    _ => FirstRunField::ClientIdInput,
                };
            },
            Key::Up => {
                self.active_field = match self.active_field {
                    FirstRunField::ClientIdInput => FirstRunField::SaveCredentialsButton,
                    FirstRunField::ClientSecretInput => FirstRunField::ClientIdInput,
                    FirstRunField::SaveCredentialsButton | FirstRunField::SkipCredentialsButton
                    | FirstRunField::ToggleHelpButton => FirstRunField::ClientSecretInput,
                    _ => FirstRunField::ClientIdInput,
                };
            },
            Key::Enter => {
                match self.active_field {
                    FirstRunField::ClientIdInput => {
                        self.active_field = FirstRunField::ClientSecretInput;
                    },
                    FirstRunField::ClientSecretInput => {
                        self.active_field = FirstRunField::SaveCredentialsButton;
                    },
                    FirstRunField::SaveCredentialsButton => {
                        return FirstRunCommand::SaveCredentials(
                            self.client_id.clone(),
                            self.client_secret.clone(),
                        );
                    },
                    FirstRunField::SkipCredentialsButton => {
                        return FirstRunCommand::SkipCredentials;
                    },
                    FirstRunField::ToggleHelpButton => {
                        self.show_help = !self.show_help;
                    },
                    _ => {},
                }
            },
            Key::Esc => {
                return FirstRunCommand::SkipCredentials;
            },
            Key::Left => {
                if input {
                    self.edit_focused_field(key);
                } else {
                    self.active_field = match self.active_field {
                        FirstRunField::SaveCredentialsButton => FirstRunField::ToggleHelpButton,
                        FirstRunField::SkipCredentialsButton => FirstRunField::SaveCredentialsButton,
                        FirstRunField::ToggleHelpButton => FirstRunField::SkipCredentialsButton,
                        f => f,
                    };
                }
            },
            Key::Right => {
                if input {
                    self.edit_focused_field(key);
                } else {
                    self.active_field = match self.active_field {
                        FirstRunField::SaveCredentialsButton => FirstRunField::SkipCredentialsButton,
                        FirstRunField::SkipCredentialsButton => FirstRunField::ToggleHelpButton,
                        FirstRunField::ToggleHelpButton => FirstRunField::SaveCredentialsButton,
                        f => f,
                    };
                }
            },
            Key::Char(c) => {
                if (c == '?' || c == 'h') && !input {
                    self.show_help = !self.show_help;
                } else if c == 'v' && ctrl {
                    if let Some(p) = clip {
                        let clean = clean_clipboard_text(p.as_str());
                        if self.active_field == FirstRunField::ClientIdInput {
                            paste_line(&mut self.client_id, &mut self.client_id_cursor, clean.as_str());
                        } else if self.active_field == FirstRunField::ClientSecretInput {
                            paste_line(
                                &mut self.client_secret,
                                &mut self.client_secret_cursor,
                                clean.as_str(),
                            );
                        }
                    }
                } else {
                    self.edit_focused_field(key);
                }
            },
            _ => {
                self.edit_focused_field(key);
            },
        }
        FirstRunCommand::Nothing
    }
}


/// The assistant after a click on one of its areas: `Continue` and `Skip` go on to the
/// credentials, a credential field takes the focus with the cursor at its end, the help button
/// toggles the help; other areas change nothing.
pub open spec fn first_run_click_after(v: FirstRunV, a: HitAction) -> FirstRunV {
    match a {
        HitAction::FirstRunContinue | HitAction::FirstRunSkipRclone => to_credentials(v),
        HitAction::FirstRunClientId => FirstRunV {
            field: FirstRunField::ClientIdInput,
            id_cursor: v.id.len() as int,
            ..v
        },
        HitAction::FirstRunClientSecret => FirstRunV {
            field: FirstRunField::ClientSecretInput,
            secret_cursor: v.secret.len() as int,
            ..v
        },
        HitAction::FirstRunToggleHelp => with_help_toggled(v),
        _ => v,
    }
}

impl FirstRunState {
    /// Handles a click on one of the assistant's areas (see `first_run_click_after`); the
    /// install, save and skip buttons ask the application for their command.
    pub fn on_click(&mut self, a: HitAction) -> (r: FirstRunCommand)
        ensures
            final(self).rclone_status == old(self).rclone_status,
            first_run_view(*final(self)) == first_run_click_after(first_run_view(*old(self)), a),
            r is InstallRclone <==> a == HitAction::FirstRunInstall,
            r is SaveCredentials <==> a == HitAction::FirstRunSaveCredentials,
            r is SkipCredentials <==> a == HitAction::FirstRunSkipCredentials,
            r matches FirstRunCommand::SaveCredentials(id, secret) ==> id@ == old(self).client_id@
                && secret@ == old(self).client_secret@,
    {
        match a {
            HitAction::FirstRunInstall => FirstRunCommand::InstallRclone,
            HitAction::FirstRunContinue | HitAction::FirstRunSkipRclone => {
                self.step = FirstRunStep::GoogleCredentials;
                self.active_field = FirstRunField::ClientIdInput;
                FirstRunCommand::Nothing
            },
            HitAction::FirstRunClientId => {
                self.active_field = FirstRunField::ClientIdInput;
                self.client_id_cursor = chars_of(self.client_id.as_str()).len();
                FirstRunCommand::Nothing
            },
            HitAction::FirstRunClientSecret => {
                self.active_field = FirstRunField::ClientSecretInput;
                self.client_secret_cursor = chars_of(self.client_secret.as_str()).len();
                FirstRunCommand::Nothing
            },
            HitAction::FirstRunSaveCredentials => FirstRunCommand::SaveCredentials(
                self.client_id.clone(),
                self.client_secret.clone(),
            ),
            HitAction::FirstRunSkipCredentials => FirstRunCommand::SkipCredentials,
            HitAction::FirstRunToggleHelp => {
                self.show_help = !self.show_help;
                FirstRunCommand::Nothing
            },
            _ => FirstRunCommand::Nothing,
        }
    }
}

/// The five controls of the credentials step, in Tab order.
pub open spec fn credentials_control(f: FirstRunField) -> bool {
    ||| f == FirstRunField::ClientIdInput
    ||| f == FirstRunField::ClientSecretInput
    ||| f == FirstRunField::SaveCredentialsButton
    ||| f == FirstRunField::SkipCredentialsButton
    ||| f == FirstRunField::ToggleHelpButton
}

/// On the credentials step, Shift+Tab undoes Tab and Tab undoes Shift+Tab.
pub proof fn law_tab_round_trip(f: FirstRunField)
    requires
        credentials_control(f),
    ensures
        tab_prev(tab_next(f)) == f,
        tab_next(tab_prev(f)) == f,
{
}

/// Tab visits the five controls of the credentials step and comes back after five presses.
pub proof fn law_tab_cycle(f: FirstRunField)
    requires
        credentials_control(f),
    ensures
        credentials_control(tab_next(f)),
        tab_next(tab_next(tab_next(tab_next(tab_next(f))))) == f,
{
}

/// Along the row of buttons, Left undoes Right and Right undoes Left.
pub proof fn law_button_round_trip(f: FirstRunField)
    ensures
        button_left(button_right(f)) == f,
        button_right(button_left(f)) == f,
{
}

/// On the credentials step, the focus never leaves its five controls.
pub proof fn law_credentials_focus_stays(
    v: FirstRunV,
    key: Key,
    ctrl: bool,
    clip: Option<Seq<char>>,
)
    requires
        credentials_control(v.field),
    ensures
        credentials_control(credentials_after(v, key, ctrl, clip).field),
{
}

/// A credential field whose cursor lies within its text keeps it so, whatever the key.
pub proof fn law_credentials_cursors_in_text(
    v: FirstRunV,
    key: Key,
    ctrl: bool,
    clip: Option<Seq<char>>,
)
    requires
        0 <= v.id_cursor <= v.id.len(),
        0 <= v.secret_cursor <= v.secret.len(),
    ensures
        0 <= credentials_after(v, key, ctrl, clip).id_cursor <= credentials_after(
            v,
            key,
            ctrl,
            clip,
        ).id.len(),
        0 <= credentials_after(v, key, ctrl, clip).secret_cursor <= credentials_after(
            v,
            key,
            ctrl,
            clip,
        ).secret.len(),
{
}

impl FirstRunState {
    /// The assistant once rclone's installation has answered: on success it holds the
    /// installed version and the focus moves to Continue; on failure it holds the reason and
    /// the focus goes back to the install button. Returns the message to show.
    pub fn install_finished(&mut self, result: Result<String, String>) -> (r: &'static str)
        ensures
            *final(self) == (FirstRunState {
                rclone_status: final(self).rclone_status,
                active_field: final(self).active_field,
                ..*old(self)
            }),
            match result {
                Ok(version) => final(self).rclone_status == RcloneInstallStatus::Installed(version)
                    && final(self).active_field == FirstRunField::ContinueButton && r@
                    == "✔ Rclone installed successfully!"@,
                Err(reason) => final(self).rclone_status == RcloneInstallStatus::Failed(reason)
                    && final(self).active_field == FirstRunField::InstallRcloneButton && r@
                    == "✗ Rclone installation failed"@,
            },
    {
        let ok = result.is_ok();
        self.apply_install_result(result);
        if ok {
            "✔ Rclone installed successfully!"
        } else {
            "✗ Rclone installation failed"
        }
    }
}

} // verus!

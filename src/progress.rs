//! The in-memory progress state: battle-pass level and target, the three
//! role win counters, the theme, and the open settings subview if any. The
//! front end hands it one message at a time and carries out the command
//! that comes back.
use vstd::prelude::*;

use crate::settings::{appstate_to_settings, message_accepted, page_after, settings_of_appstate, Message as SettingsMessage, OverHelperSettings, SettingsPage, SupportedThemes, MAX_ROLE_WINS};

verus! {

/// The roles that have a win counter.
#[derive(Debug, Clone, Copy, PartialEq, Eq, Structural)]
pub enum Role {
    Tank,
    Damage,
    Support,
}

/// A counter moved by `delta` and kept within `0..=MAX_ROLE_WINS`.
pub open spec fn clamped_wins(wins: u8, delta: i8) -> u8 {
    let moved = wins as int + delta as int;
    if moved < 0 {
        0
    } else if moved > MAX_ROLE_WINS as int {
        MAX_ROLE_WINS
    } else {
        moved as u8
    }
}

/// What the tracker holds while it runs.
#[derive(Debug, Clone, Copy, PartialEq, Eq)]
pub struct OverHelperApp {
    pub battle_pass_level: u8,
    pub battle_pass_target: u8,
    pub tank_wins: u8,
    pub damage_wins: u8,
    pub support_wins: u8,
    pub theme: SupportedThemes,
    pub settings_page: Option<SettingsPage>,
}

/// What the front end is asked to do after a message.
#[derive(Debug, Clone, Copy, PartialEq, Eq)]
pub enum Command {
    /// Nothing.
    Nothing,
    /// Tell the user that the custom target text was not a level.
    ReportInvalidTarget,
    /// Write these settings to the settings file, then close the window.
    SaveAndClose(OverHelperSettings),
}

/// What the front end can tell the tracker.
#[derive(Debug, Clone)]
pub enum Message {
    UpdateBattlePassLevel(u8),
    AdjustRoleWins(Role, i8),
    ResetRoleWins,
    CloseRequested,
    /// Open the settings subview on the current settings.
    OpenSettings,
    ExitSettings,
    SettingsMessage(SettingsMessage),
}

impl OverHelperApp {
    /// Each role counter lies within `0..=MAX_ROLE_WINS`.
    pub open spec fn wf(&self) -> bool {
        &&& self.tank_wins <= MAX_ROLE_WINS
        &&& self.damage_wins <= MAX_ROLE_WINS
        &&& self.support_wins <= MAX_ROLE_WINS
    }

    /// The win counter of `role`.
    pub open spec fn wins_spec(&self, role: Role) -> u8 {
        match role {
            Role::Tank => self.tank_wins,
            Role::Damage => self.damage_wins,
            Role::Support => self.support_wins,
        }
    }

    /// The win counter of `role`.
    pub fn wins(&self, role: Role) -> (r: u8)
        ensures
            r == self.wins_spec(role),
    {
        match role {
            Role::Tank => self.tank_wins,
            Role::Damage => self.damage_wins,
            Role::Support => self.support_wins,
        }
    }

    /// Stores a new level as it is; the caller keeps it within range.
    pub fn set_level(&mut self, new_level: u8)
        ensures
            *final(self) == (OverHelperApp { battle_pass_level: new_level, ..*old(self) }),
    {
        self.battle_pass_level = new_level;
    }

    /// Stores a new target and lowers the level to it if the level was
    /// above; a level below the target is never raised.
    pub fn set_target(&mut self, new_target: u8)
        ensures
            final(self).battle_pass_target == new_target,
            final(self).battle_pass_level == if old(self).battle_pass_level <= new_target {
                old(self).battle_pass_level
            } else {
                new_target
            },
            final(self).battle_pass_level <= new_target,
            *final(self) == (OverHelperApp {
                battle_pass_level: final(self).battle_pass_level,
                battle_pass_target: new_target,
                ..*old(self)
            }),
    {
        self.battle_pass_target = new_target;
        if self.battle_pass_level > new_target {
            self.battle_pass_level = new_target;
        }
    }

    /// Moves the counter of `role` by `delta`, kept within
    /// `0..=MAX_ROLE_WINS`; the other counters are unchanged.
    pub fn adjust_role_wins(&mut self, role: Role, delta: i8)
        ensures
            final(self).wins_spec(role) == clamped_wins(old(self).wins_spec(role), delta),
            forall|other: Role| other != role ==> final(self).wins_spec(other) == old(self).wins_spec(other),
            final(self).battle_pass_level == old(self).battle_pass_level,
            final(self).battle_pass_target == old(self).battle_pass_target,
            final(self).theme == old(self).theme,
            final(self).settings_page == old(self).settings_page,
            old(self).wf() ==> final(self).wf(),
    {
        let wins = self.wins(role);
        let moved: i16 = wins as i16 + delta as i16;
        let clamped: u8 = if moved < 0 {
            0
        } else if moved > MAX_ROLE_WINS as i16 {
            MAX_ROLE_WINS
        } else {
            moved as u8
        };
        match role {
            Role::Tank => self.tank_wins = clamped,
            Role::Damage => self.damage_wins = clamped,
            Role::Support => self.support_wins = clamped,
        }
    }

    /// Sets the three role counters to zero.
    pub fn reset_role_wins(&mut self)
        ensures
            *final(self) == (OverHelperApp { tank_wins: 0, damage_wins: 0, support_wins: 0, ..*old(self) }),
            final(self).wf(),
    {
        self.tank_wins = 0;
        self.damage_wins = 0;
        self.support_wins = 0;
    }

    /// Handles one message and says what the front end is to do next.
    /// - A new level is stored as it is; the role counter messages act as
    ///   `adjust_role_wins` and `reset_role_wins` do.
    /// - A close request asks to store the current settings and close.
    /// - Opening the settings shows the subview on the current settings.
    /// - Leaving the settings takes the subview's target (lowering the level
    ///   to it if need be) and theme, and closes the subview.
    /// - A subview message goes to the open subview; custom target text that
    ///   is not a level is reported. Both subview messages do nothing while
    ///   no subview is open.
    pub fn update(&mut self, message: Message) -> (command: Command)
        ensures
            match message {
                Message::UpdateBattlePassLevel(level) => {
                    &&& *final(self) == (OverHelperApp { battle_pass_level: level, ..*old(self) })
                    &&& command == Command::Nothing
                },
                Message::AdjustRoleWins(role, delta) => {
                    &&& final(self).wins_spec(role) == clamped_wins(old(self).wins_spec(role), delta)
                    &&& forall|other: Role| other != role ==> final(self).wins_spec(other) == old(self).wins_spec(other)
                    &&& final(self).battle_pass_level == old(self).battle_pass_level
                    &&& final(self).battle_pass_target == old(self).battle_pass_target
                    &&& final(self).theme == old(self).theme
                    &&& final(self).settings_page == old(self).settings_page
                    &&& command == Command::Nothing
                },
                Message::ResetRoleWins => {
                    &&& *final(self) == (OverHelperApp { tank_wins: 0, damage_wins: 0, support_wins: 0, ..*old(self) })
                    &&& command == Command::Nothing
                },
                Message::CloseRequested => {
                    &&& *final(self) == *old(self)
                    &&& command == Command::SaveAndClose(settings_of_appstate(*old(self)))
                },
                Message::OpenSettings => {
                    &&& final(self).settings_page == Some(SettingsPage {
                        battle_pass_custom_target: old(self).battle_pass_target,
                        battle_pass_target: crate::seasons::target_kind(old(self).battle_pass_target),
                        theme: old(self).theme,
                    })
                    &&& *final(self) == (OverHelperApp { settings_page: final(self).settings_page, ..*old(self) })
                    &&& command == Command::Nothing
                },
                Message::ExitSettings => {
                    &&& command == Command::Nothing
                    &&& match old(self).settings_page {
                        Some(page) => {
                            &&& final(self).battle_pass_target == page.battle_pass_custom_target
                            &&& final(self).battle_pass_level == if old(self).battle_pass_level <= page.battle_pass_custom_target {
                                old(self).battle_pass_level
                            } else {
                                page.battle_pass_custom_target
                            }
                            &&& *final(self) == (OverHelperApp {
                                battle_pass_level: final(self).battle_pass_level,
                                battle_pass_target: page.battle_pass_custom_target,
                                theme: page.theme,
                                settings_page: None,
                                ..*old(self)
                            })
                        },
                        None => *final(self) == *old(self),
                    }
                },
                Message::SettingsMessage(m) => match old(self).settings_page {
                    Some(page) => {
                        &&& final(self).settings_page == Some(page_after(page, m))
                        &&& *final(self) == (OverHelperApp { settings_page: final(self).settings_page, ..*old(self) })
                        &&& command == if message_accepted(m) {
                            Command::Nothing
                        } else {
                            Command::ReportInvalidTarget
                        }
                    },
                    None => {
                        &&& *final(self) == *old(self)
                        &&& command == Command::Nothing
                    },
                },
            },
            old(self).wf() ==> final(self).wf(),
    {
        match message {
            Message::UpdateBattlePassLevel(level) => {
                self.set_level(level);
                Command::Nothing
            },
            Message::AdjustRoleWins(role, delta) => {
                self.adjust_role_wins(role, delta);
                Command::Nothing
            },
            Message::ResetRoleWins => {
                self.reset_role_wins();
                Command::Nothing
            },
            Message::CloseRequested => Command::SaveAndClose(appstate_to_settings(self)),
            Message::OpenSettings => {
                let current = appstate_to_settings(self);
                self.settings_page = Some(SettingsPage::new(&current));
                Command::Nothing
            },
            Message::ExitSettings => {
                match self.settings_page {
                    Some(page) => {
                        self.set_target(page.battle_pass_custom_target);
                        self.set_theme(page.theme);
                        self.settings_page = None;
                    },
                    None => {},
                }
                Command::Nothing
            },
            Message::SettingsMessage(m) => {
                match self.settings_page {
                    Some(page) => {
                        let mut page = page;
                        let accepted = page.update(m);
                        self.settings_page = Some(page);
                        if accepted {
                            Command::Nothing
                        } else {
                            Command::ReportInvalidTarget
                        }
                    },
                    None => Command::Nothing,
                }
            },
        }
    }

    /// Switches the theme.
    pub fn set_theme(&mut self, theme: SupportedThemes)
        ensures
            *final(self) == (OverHelperApp { theme, ..*old(self) }),
    {
        self.theme = theme;
    }
}

/// A counter after `times` moves by `delta`, each kept within range.
pub open spec fn wins_after(wins: u8, delta: i8, times: nat) -> u8
    decreases times,
{
    if times == 0 {
        wins
    } else {
        clamped_wins(wins_after(wins, delta, (times - 1) as nat), delta)
    }
}

/// Counting up one win at a time from zero stops at `MAX_ROLE_WINS`, and
/// counting down one at a time from `MAX_ROLE_WINS` stops at zero.
pub proof fn lemma_role_wins_saturate(times: nat)
    ensures
        wins_after(0u8, 1i8, times) == if times < MAX_ROLE_WINS as nat { times as u8 } else { MAX_ROLE_WINS },
        wins_after(MAX_ROLE_WINS, -1i8, times) == if times < MAX_ROLE_WINS as nat {
            (MAX_ROLE_WINS as nat - times) as u8
        } else {
            0u8
        },
    decreases times,
{
    if times > 0 {
        lemma_role_wins_saturate((times - 1) as nat);
    }
}

} // verus!

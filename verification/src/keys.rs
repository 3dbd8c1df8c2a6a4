//! What each key press asks the application to do, in each input mode.

use vstd::prelude::*;
use crate::app::{App, InputMode, Tab, tab_at};

verus! {

/// A key press, as the terminal reports it.
#[derive(Debug, Clone, Copy, PartialEq, Eq, Structural)]
pub enum Key {
    /// a character, with whether Control was held
    Char { c: char, ctrl: bool },
    Enter,
    Esc,
    Backspace,
    Tab,
    BackTab,
    Up,
    Down,
    Left,
    Right,
    Other,
}

/// The action a key press asks for.
#[derive(Debug, Clone, Copy, PartialEq, Eq, Structural)]
pub enum Command {
    Nothing,
    Quit,
    NextItem,
    PrevItem,
    JumpTop,
    JumpBottom,
    NextNamespace,
    OpenClusterPicker,
    EnterSearch,
    ViewLogs,
    ViewYaml,
    Describe,
    HelmList,
    OpenExec,
    OpenSecretEdit,
    PromptPortForward,
    ViewPortForwards,
    PromptServiceLogPath,
    PromptScale,
    RequestRolloutRestart,
    RefreshCurrentTab,
    CycleTheme,
    ViewSecretDecoded,
    ShowHelp,
    /// the next tab, then a refresh of it
    NextTab,
    /// the previous tab, then a refresh of it
    PrevTab,
    /// the tab at this index, then a refresh of the tab on screen
    SelectTab(usize),
    ExitSearch,
    SearchPop,
    SearchPush(char),
    CloseViewer,
    ScrollDown,
    ScrollUp,
    ScrollBottom,
    ScrollTop,
    CloseClusterPicker,
    ClusterNext,
    ClusterPrev,
    ConfirmCluster,
    /// back to normal mode, nothing else
    BackToNormal,
    ContainerNext,
    ContainerPrev,
    ConfirmContainer,
    PathPop,
    PathPush(char),
    ConfirmPath,
    ScalePop,
    ScalePush(char),
    ConfirmScale,
    PortPop,
    PortPush(char),
    ConfirmPort,
    SecretKeyNext,
    SecretKeyPrev,
    ConfirmSecretKey,
    SecretValuePop,
    SecretValuePush(char),
    ConfirmSecretValue,
    /// stop the port-forward at this index of the list on screen
    StopPortForward(usize),
    CancelConfirm,
    ToggleConfirm,
    ExecuteConfirm,
}

pub open spec fn is_ascii_digit(c: char) -> bool {
    48 <= c as u32 <= 57
}

pub open spec fn is_down(k: Key) -> bool {
    k == Key::Down || k matches Key::Char { c: 'j', .. }
}

pub open spec fn is_up(k: Key) -> bool {
    k == Key::Up || k matches Key::Char { c: 'k', .. }
}

pub open spec fn is_char(k: Key, x: char) -> bool {
    k matches Key::Char { c, .. } && c == x
}

/// The keys of normal mode.
pub open spec fn normal_command(tab: Tab, k: Key) -> Command {
    if is_char(k, 'q') {
        Command::Quit
    } else if k == (Key::Char { c: 'c', ctrl: true }) {
        Command::Quit
    } else if is_down(k) {
        Command::NextItem
    } else if is_up(k) {
        Command::PrevItem
    } else if is_char(k, 'G') {
        Command::JumpBottom
    } else if is_char(k, 'g') {
        Command::JumpTop
    } else if is_char(k, 'n') {
        Command::NextNamespace
    } else if is_char(k, 'c') {
        Command::OpenClusterPicker
    } else if is_char(k, '/') && tab == Tab::Pods {
        Command::EnterSearch
    } else if is_char(k, 'l') && tab == Tab::Pods {
        Command::ViewLogs
    } else if is_char(k, 'y') {
        Command::ViewYaml
    } else if is_char(k, 'd') {
        Command::Describe
    } else if is_char(k, 'H') {
        Command::HelmList
    } else if is_char(k, 'e') && tab == Tab::Pods {
        Command::OpenExec
    } else if is_char(k, 'e') && tab == Tab::Secrets {
        Command::OpenSecretEdit
    } else if is_char(k, 'p') && tab == Tab::Pods {
        Command::PromptPortForward
    } else if is_char(k, 'P') {
        Command::ViewPortForwards
    } else if is_char(k, 's') && tab == Tab::Pods {
        Command::PromptServiceLogPath
    } else if is_char(k, 's') && tab == Tab::Deployments {
        Command::PromptScale
    } else if is_char(k, 'r') && tab == Tab::Deployments {
        Command::RequestRolloutRestart
    } else if is_char(k, 'r') {
        Command::RefreshCurrentTab
    } else if is_char(k, 'T') {
        Command::CycleTheme
    } else if k == Key::Enter && tab == Tab::Secrets {
        Command::ViewSecretDecoded
    } else if is_char(k, '?') {
        Command::ShowHelp
    } else if k == Key::Tab {
        Command::NextTab
    } else if k == Key::BackTab {
        Command::PrevTab
    } else if is_char(k, '1') {
        Command::SelectTab(0)
    } else if is_char(k, '2') {
        Command::SelectTab(1)
    } else if is_char(k, '3') {
        Command::SelectTab(2)
    } else if is_char(k, '4') {
        Command::SelectTab(3)
    } else if is_char(k, '5') {
        Command::SelectTab(4)
    } else if is_char(k, '6') {
        Command::SelectTab(5)
    } else {
        Command::Nothing
    }
}

/// The digit keys 1 to 9, as the index they name counting from 0.
pub open spec fn digit_index(k: Key) -> Option<usize> {
    match k {
        Key::Char { c, .. } => if 49 <= c as u32 <= 57 {
            Some((c as u32 - 49) as usize)
        } else {
            None
        },
        _ => None,
    }
}

/// The command a key asks for in the given mode, on the given tab; `forwards_shown`
/// says the viewer holds the port-forward list.
pub open spec fn command_for(
    mode: InputMode,
    tab: Tab,
    confirm_yes: bool,
    forwards_shown: bool,
    k: Key,
) -> Command {
    match mode {
        InputMode::Normal => normal_command(tab, k),
        InputMode::Search => match k {
            Key::Esc | Key::Enter => Command::ExitSearch,
            Key::Backspace => Command::SearchPop,
            Key::Char { c, .. } => Command::SearchPush(c),
            _ => Command::Nothing,
        },
        InputMode::Viewing => if k == Key::Esc || is_char(k, 'q') {
            Command::CloseViewer
        } else if is_down(k) {
            Command::ScrollDown
        } else if is_up(k) {
            Command::ScrollUp
        } else if is_char(k, 'G') {
            Command::ScrollBottom
        } else if is_char(k, 'g') {
            Command::ScrollTop
        } else if forwards_shown && digit_index(k) is Some {
            Command::StopPortForward(digit_index(k)->0)
        } else {
            Command::Nothing
        },
        InputMode::ClusterPicker => if k == Key::Esc || is_char(k, 'q') {
            Command::CloseClusterPicker
        } else if is_down(k) {
            Command::ClusterNext
        } else if is_up(k) {
            Command::ClusterPrev
        } else if k == Key::Enter {
            Command::ConfirmCluster
        } else {
            Command::Nothing
        },
        InputMode::ContainerPicker => if k == Key::Esc || is_char(k, 'q') {
            Command::BackToNormal
        } else if is_down(k) {
            Command::ContainerNext
        } else if is_up(k) {
            Command::ContainerPrev
        } else if k == Key::Enter {
            Command::ConfirmContainer
        } else {
            Command::Nothing
        },
        InputMode::Help => if k == Key::Esc || is_char(k, 'q') || is_char(k, '?') {
            Command::BackToNormal
        } else {
            Command::Nothing
        },
        InputMode::PathInput => match k {
            Key::Esc => Command::BackToNormal,
            Key::Enter => Command::ConfirmPath,
            Key::Backspace => Command::PathPop,
            Key::Char { c, .. } => Command::PathPush(c),
            _ => Command::Nothing,
        },
        InputMode::ScaleInput => match k {
            Key::Esc => Command::BackToNormal,
            Key::Enter => Command::ConfirmScale,
            Key::Backspace => Command::ScalePop,
            Key::Char { c, .. } => if is_ascii_digit(c) {
                Command::ScalePush(c)
            } else {
                Command::Nothing
            },
            _ => Command::Nothing,
        },
        InputMode::PortInput => match k {
            Key::Esc => Command::BackToNormal,
            Key::Enter => Command::ConfirmPort,
            Key::Backspace => Command::PortPop,
            Key::Char { c, .. } => Command::PortPush(c),
            _ => Command::Nothing,
        },
        InputMode::SecretKeyPicker => if k == Key::Esc || is_char(k, 'q') {
            Command::BackToNormal
        } else if is_down(k) {
            Command::SecretKeyNext
        } else if is_up(k) {
            Command::SecretKeyPrev
        } else if k == Key::Enter {
            Command::ConfirmSecretKey
        } else {
            Command::Nothing
        },
        InputMode::SecretValueInput => match k {
            Key::Esc => Command::BackToNormal,
            Key::Enter => Command::ConfirmSecretValue,
            Key::Backspace => Command::SecretValuePop,
            Key::Char { c, .. } => Command::SecretValuePush(c),
            _ => Command::Nothing,
        },
        InputMode::Confirm => if k == Key::Esc || is_char(k, 'n') || is_char(k, 'q') {
            Command::CancelConfirm
        } else if k == Key::Left || k == Key::Right || k == Key::Tab {
            Command::ToggleConfirm
        } else if k == Key::Enter || is_char(k, 'y') {
            if confirm_yes {
                Command::ExecuteConfirm
            } else {
                Command::CancelConfirm
            }
        } else {
            Command::Nothing
        },
    }
}

fn char_is(k: Key, x: char) -> (r: bool)
    ensures
        r == is_char(k, x),
{
    match k {
        Key::Char { c, .. } => c == x,
        _ => false,
    }
}

fn key_digit(k: Key) -> (r: Option<usize>)
    ensures
        r == digit_index(k),
{
    match k {
        Key::Char { c, .. } => {
            let u = c as u32;
            if 49 <= u && u <= 57 {
                Some((u - 49) as usize)
            } else {
                None
            }
        },
        _ => None,
    }
}

fn key_down(k: Key) -> (r: bool)
    ensures
        r == is_down(k),
{
    k == Key::Down || char_is(k, 'j')
}

fn key_up(k: Key) -> (r: bool)
    ensures
        r == is_up(k),
{
    k == Key::Up || char_is(k, 'k')
}

fn normal_key(tab: Tab, k: Key) -> (r: Command)
    ensures
        r == normal_command(tab, k),
{
    if char_is(k, 'q') {
        Command::Quit
    } else if k == (Key::Char { c: 'c', ctrl: true }) {
        Command::Quit
    } else if key_down(k) {
        Command::NextItem
    } else if key_up(k) {
        Command::PrevItem
    } else if char_is(k, 'G') {
        Command::JumpBottom
    } else if char_is(k, 'g') {
        Command::JumpTop
    } else if char_is(k, 'n') {
        Command::NextNamespace
    } else if char_is(k, 'c') {
        Command::OpenClusterPicker
    } else if char_is(k, '/') && tab == Tab::Pods {
        Command::EnterSearch
    } else if char_is(k, 'l') && tab == Tab::Pods {
        Command::ViewLogs
    } else if char_is(k, 'y') {
        Command::ViewYaml
    } else if char_is(k, 'd') {
        Command::Describe
    } else if char_is(k, 'H') {
        Command::HelmList
    } else if char_is(k, 'e') && tab == Tab::Pods {
        Command::OpenExec
    } else if char_is(k, 'e') && tab == Tab::Secrets {
        Command::OpenSecretEdit
    } else if char_is(k, 'p') && tab == Tab::Pods {
        Command::PromptPortForward
    } else if char_is(k, 'P') {
        Command::ViewPortForwards
    } else if char_is(k, 's') && tab == Tab::Pods {
        Command::PromptServiceLogPath
    } else if char_is(k, 's') && tab == Tab::Deployments {
        Command::PromptScale
    } else if char_is(k, 'r') && tab == Tab::Deployments {
        Command::RequestRolloutRestart
    } else if char_is(k, 'r') {
        Command::RefreshCurrentTab
    } else if char_is(k, 'T') {
        Command::CycleTheme
    } else if k == Key::Enter && tab == Tab::Secrets {
        Command::ViewSecretDecoded
    } else if char_is(k, '?') {
        Command::ShowHelp
    } else if k == Key::Tab {
        Command::NextTab
    } else if k == Key::BackTab {
        Command::PrevTab
    } else if char_is(k, '1') {
        Command::SelectTab(0)
    } else if char_is(k, '2') {
        Command::SelectTab(1)
    } else if char_is(k, '3') {
        Command::SelectTab(2)
    } else if char_is(k, '4') {
        Command::SelectTab(3)
    } else if char_is(k, '5') {
        Command::SelectTab(4)
    } else if char_is(k, '6') {
        Command::SelectTab(5)
    } else {
        Command::Nothing
    }
}

impl App {
    /// The command a key press asks for in the current mode and tab.
    pub fn key_command(&self, k: Key) -> (r: Command)
        requires
            self.wf(),
        ensures
            r == command_for(
                self.input_mode,
                self.current_tab(),
                self.confirm_yes,
                self.port_forward_view,
                k,
            ),
    {
        let tab = Tab::at(self.active_tab);
        match self.input_mode {
            InputMode::Normal => normal_key(tab, k),
            InputMode::Search => match k {
                Key::Esc | Key::Enter => Command::ExitSearch,
                Key::Backspace => Command::SearchPop,
                Key::Char { c, .. } => Command::SearchPush(c),
                _ => Command::Nothing,
            },
            InputMode::Viewing => if k == Key::Esc || char_is(k, 'q') {
                Command::CloseViewer
            } else if key_down(k) {
                Command::ScrollDown
            } else if key_up(k) {
                Command::ScrollUp
            } else if char_is(k, 'G') {
                Command::ScrollBottom
            } else if char_is(k, 'g') {
                Command::ScrollTop
            } else if self.port_forward_view {
                match key_digit(k) {
                    Some(d) => Command::StopPortForward(d),
                    None => Command::Nothing,
                }
            } else {
                Command::Nothing
            },
            InputMode::ClusterPicker => if k == Key::Esc || char_is(k, 'q') {
                Command::CloseClusterPicker
            } else if key_down(k) {
                Command::ClusterNext
            } else if key_up(k) {
                Command::ClusterPrev
            } else if k == Key::Enter {
                Command::ConfirmCluster
            } else {
                Command::Nothing
            },
            InputMode::ContainerPicker => if k == Key::Esc || char_is(k, 'q') {
                Command::BackToNormal
            } else if key_down(k) {
                Command::ContainerNext
            } else if key_up(k) {
                Command::ContainerPrev
            } else if k == Key::Enter {
                Command::ConfirmContainer
            } else {
                Command::Nothing
            },
            InputMode::Help => if k == Key::Esc || char_is(k, 'q') || char_is(k, '?') {
                Command::BackToNormal
            } else {
                Command::Nothing
            },
            InputMode::PathInput => match k {
                Key::Esc => Command::BackToNormal,
                Key::Enter => Command::ConfirmPath,
                Key::Backspace => Command::PathPop,
                Key::Char { c, .. } => Command::PathPush(c),
                _ => Command::Nothing,
            },
            InputMode::ScaleInput => match k {
                Key::Esc => Command::BackToNormal,
                Key::Enter => Command::ConfirmScale,
                Key::Backspace => Command::ScalePop,
                Key::Char { c, .. } => {
                    let u = c as u32;
                    if 48 <= u && u <= 57 {
                        Command::ScalePush(c)
                    } else {
                        Command::Nothing
                    }
                },
                _ => Command::Nothing,
            },
            InputMode::PortInput => match k {
                Key::Esc => Command::BackToNormal,
                Key::Enter => Command::ConfirmPort,
                Key::Backspace => Command::PortPop,
                Key::Char { c, .. } => Command::PortPush(c),
                _ => Command::Nothing,
            },
            InputMode::SecretKeyPicker => if k == Key::Esc || char_is(k, 'q') {
                Command::BackToNormal
            } else if key_down(k) {
                Command::SecretKeyNext
            } else if key_up(k) {
                Command::SecretKeyPrev
            } else if k == Key::Enter {
                Command::ConfirmSecretKey
            } else {
                Command::Nothing
            },
            InputMode::SecretValueInput => match k {
                Key::Esc => Command::BackToNormal,
                Key::Enter => Command::ConfirmSecretValue,
                Key::Backspace => Command::SecretValuePop,
                Key::Char { c, .. } => Command::SecretValuePush(c),
                _ => Command::Nothing,
            },
            InputMode::Confirm => if k == Key::Esc || char_is(k, 'n') || char_is(k, 'q') {
                Command::CancelConfirm
            } else if k == Key::Left || k == Key::Right || k == Key::Tab {
                Command::ToggleConfirm
            } else if k == Key::Enter || char_is(k, 'y') {
                if self.confirm_yes {
                    Command::ExecuteConfirm
                } else {
                    Command::CancelConfirm
                }
            } else {
                Command::Nothing
            },
        }
    }
}

} // verus!

//! The window operations: dragging, minimising, maximising, the floating
//! mode and close requests. The window's geometry (positions, sizes and the
//! background opacity) is held by the application.

use crate::app_state::{AppState, HandlerResult, UiState, WindowFlags};
use crate::text::owned;
use vstd::prelude::*;

verus! {

/// How the window is shown.
#[derive(Debug, Clone, Copy, PartialEq, Eq, Structural)]
pub enum WindowState {
    Normal,
    Minimized,
    Maximized,
    Floating,
}

/// The result of a window operation, with its message.
#[derive(Debug, Clone)]
pub enum WindowOperationResult {
    Success(String),
    Failed(String),
    Ignored(String),
}

/// The window state that the flags describe: the floating mode first, then
/// a maximised window, otherwise a normal one.
pub open spec fn window_state_of(w: WindowFlags) -> WindowState {
    if w.floating {
        WindowState::Floating
    } else if w.maximized {
        WindowState::Maximized
    } else {
        WindowState::Normal
    }
}

/// The state with `message` as the status message and the window flags `w`.
pub open spec fn with_message_and_window(old: AppState, message: Seq<char>, w: WindowFlags, new: AppState) -> bool {
    &&& new == (AppState { ui: UiState { message: new.ui.message, window: w, ..old.ui }, ..old })
    &&& new.ui.message@ == message
}

/// The message shown when the floating mode is turned on or off.
pub open spec fn floating_message(on: bool) -> Seq<char> {
    if on {
        "已切换到悬浮窗模式"@
    } else {
        "已退出悬浮窗模式"@
    }
}

/// The message shown when the window is maximised or restored.
pub open spec fn maximize_message(on: bool) -> Seq<char> {
    if on {
        "窗口已最大化"@
    } else {
        "窗口已还原"@
    }
}

/// Keeps track of a window drag.
#[derive(Debug)]
pub struct WindowHandler {
    pub is_dragging: bool,
}

impl WindowHandler {
    /// A handler with no drag under way.
    pub fn new() -> (r: WindowHandler)
        ensures
            !r.is_dragging,
    {
        WindowHandler { is_dragging: false }
    }

    /// A drag is under way.
    pub fn is_dragging(&self) -> (r: bool)
        ensures
            r == self.is_dragging,
    {
        self.is_dragging
    }

    /// Ends any drag.
    pub fn reset_drag_state(&mut self)
        ensures
            !final(self).is_dragging,
    {
        self.is_dragging = false;
    }

    /// How the window is shown, as the state's flags say.
    pub fn get_window_state(&self, state: &AppState) -> (r: WindowState)
        ensures
            r == window_state_of(state.ui.window),
    {
        if state.ui.window.floating {
            WindowState::Floating
        } else if state.ui.window.maximized {
            WindowState::Maximized
        } else {
            WindowState::Normal
        }
    }

    /// Starts a drag.
    pub fn handle_start_drag(&mut self, state: &mut AppState) -> (r: HandlerResult)
        ensures
            final(self).is_dragging,
            with_message_and_window(*old(state), "开始拖拽窗口"@, old(state).ui.window, *final(state)),
            r is StateUpdated,
    {
        self.is_dragging = true;
        state.ui.message = owned("开始拖拽窗口");
        HandlerResult::StateUpdated
    }

    /// A drag step: ignored when no drag is under way.
    pub fn handle_drag_window(&mut self, state: &mut AppState) -> (r: HandlerResult)
        ensures
            final(self).is_dragging == old(self).is_dragging,
            *final(state) == *old(state),
            old(self).is_dragging ==> r is StateUpdated,
            !old(self).is_dragging ==> r is NoChange,
    {
        if !self.is_dragging {
            return HandlerResult::NoChange;
        }
        HandlerResult::StateUpdated
    }

    /// The window has been moved: the drag is over.
    pub fn handle_window_moved(&mut self, state: &mut AppState) -> (r: HandlerResult)
        ensures
            !final(self).is_dragging,
            *final(state) == *old(state),
            r is StateUpdated,
    {
        self.is_dragging = false;
        HandlerResult::StateUpdated
    }

    /// Minimises the window.
    pub fn handle_window_minimize(&mut self, state: &mut AppState) -> (r: HandlerResult)
        ensures
            final(self).is_dragging == old(self).is_dragging,
            with_message_and_window(
                *old(state),
                "窗口最小化"@,
                WindowFlags { minimized: true, ..old(state).ui.window },
                *final(state),
            ),
            r is StateUpdated,
    {
        state.ui.message = owned("窗口最小化");
        state.ui.window.minimized = true;
        HandlerResult::StateUpdated
    }

    /// Records that the window was maximised or restored.
    pub fn handle_window_maximize(&mut self, state: &mut AppState, is_maximized: bool) -> (r: HandlerResult)
        ensures
            final(self).is_dragging == old(self).is_dragging,
            with_message_and_window(
                *old(state),
                maximize_message(is_maximized),
                WindowFlags { maximized: is_maximized, ..old(state).ui.window },
                *final(state),
            ),
            r is StateUpdated,
    {
        let message = if is_maximized {
            owned("窗口已最大化")
        } else {
            owned("窗口已还原")
        };
        state.ui.message = message;
        state.ui.window.maximized = is_maximized;
        HandlerResult::StateUpdated
    }

    /// Turns the floating mode on or off, with a message and a toast that
    /// say which.
    pub fn handle_toggle_floating(&mut self, state: &mut AppState) -> (r: HandlerResult)
        ensures
            final(self).is_dragging == old(self).is_dragging,
            ({
                let on = !old(state).ui.window.floating;
                &&& *final(state) == (AppState {
                    ui: UiState {
                        message: final(state).ui.message,
                        toast_message: final(state).ui.toast_message,
                        toast_visible: true,
                        window: WindowFlags { floating: on, ..old(state).ui.window },
                        ..old(state).ui
                    },
                    ..*old(state)
                })
                &&& final(state).ui.message@ == floating_message(on)
                &&& final(state).ui.toast_message matches Some(t) && t@ == floating_message(on)
            }),
            r is StateUpdated,
    {
        let on = !state.ui.window.floating;
        state.ui.window.floating = on;
        let message = if on {
            owned("已切换到悬浮窗模式")
        } else {
            owned("已退出悬浮窗模式")
        };
        state.ui.message = message.clone();
        state.ui.show_toast(message);
        HandlerResult::StateUpdated
    }

    /// Switches the background.
    pub fn handle_background_toggle(&mut self, state: &mut AppState) -> (r: HandlerResult)
        ensures
            final(self).is_dragging == old(self).is_dragging,
            with_message_and_window(*old(state), "背景已切换"@, old(state).ui.window, *final(state)),
            r is StateUpdated,
    {
        state.ui.message = owned("背景已切换");
        HandlerResult::StateUpdated
    }

    /// A request to close the window: refused with a toast while there are
    /// unsaved changes, otherwise acknowledged with a message.
    pub fn handle_window_close_request(&mut self, state: &mut AppState) -> (r: HandlerResult)
        ensures
            final(self).is_dragging == old(self).is_dragging,
            old(state).data.has_unsaved_changes ==> *final(state) == (AppState {
                ui: UiState { toast_message: final(state).ui.toast_message, toast_visible: true, ..old(state).ui },
                ..*old(state)
            }) && (final(state).ui.toast_message matches Some(t) && t@ == "有未保存的更改，请先保存数据"@),
            !old(state).data.has_unsaved_changes ==> with_message_and_window(
                *old(state),
                "准备关闭应用程序"@,
                old(state).ui.window,
                *final(state),
            ),
            r is StateUpdated,
    {
        if state.data.has_unsaved_changes {
            state.ui.show_toast(owned("有未保存的更改，请先保存数据"));
            return HandlerResult::StateUpdated;
        }
        state.ui.message = owned("准备关闭应用程序");
        HandlerResult::StateUpdated
    }
}

impl Default for WindowHandler {
    fn default() -> (r: WindowHandler)
        ensures
            !r.is_dragging,
    {
        WindowHandler::new()
    }
}

} // verus!

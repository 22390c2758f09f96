//! The messages that a handle to the egui window sends to the event loop.
//!
//! Every getter sends a query and waits for the answer on a channel; every
//! setter sends a command. On the main thread the message is handled at
//! once; elsewhere it is posted to the event loop.
use vstd::prelude::*;

verus! {

/// What a getter asks of the window.
#[derive(Debug, Clone, Copy, PartialEq, Eq, Structural)]
pub enum WindowQuery {
    ScaleFactor,
    InnerPosition,
    OuterPosition,
    InnerSize,
    OuterSize,
    IsFullscreen,
    IsMaximized,
    IsDecorated,
    IsResizable,
    IsVisible,
    CurrentMonitor,
    PrimaryMonitor,
    AvailableMonitors,
    Theme,
}

/// How urgently the window asks for the user's attention.
#[derive(Debug, Clone, Copy, PartialEq, Eq, Structural)]
pub enum UserAttentionType {
    Critical,
    Informational,
}

/// The cursor shapes a window can show.
#[derive(Debug, Clone, Copy, PartialEq, Eq, Structural)]
pub enum CursorIcon {
    Default,
    Crosshair,
    Hand,
    Arrow,
    Move,
    Text,
    Wait,
    Help,
    Progress,
    NotAllowed,
    ContextMenu,
    Cell,
    VerticalText,
    Alias,
    Copy,
    NoDrop,
    Grab,
    Grabbing,
    AllScroll,
    ZoomIn,
    ZoomOut,
    EResize,
    NResize,
    NeResize,
    NwResize,
    SResize,
    SeResize,
    SwResize,
    WResize,
    EwResize,
    NsResize,
    NeswResize,
    NwseResize,
    ColResize,
    RowResize,
}

/// A window icon as 32-bit RGBA pixels, row by row.
#[derive(Debug, Clone, PartialEq, Eq)]
pub struct RgbaIcon {
    pub rgba: Vec<u8>,
    pub width: u32,
    pub height: u32,
}

/// What a setter asks of the window.
#[derive(Debug, PartialEq, Eq)]
pub enum WindowCommand {
    Center,
    RequestUserAttention(Option<UserAttentionType>),
    SetResizable(bool),
    SetTitle(String),
    Maximize,
    Unmaximize,
    Minimize,
    Unminimize,
    Show,
    Hide,
    Close,
    SetDecorations(bool),
    SetAlwaysOnTop(bool),
    SetFullscreen(bool),
    SetFocus,
    SetSkipTaskbar(bool),
    SetCursorGrab(bool),
    SetCursorVisible(bool),
    SetCursorIcon(CursorIcon),
    SetIcon(RgbaIcon),
    DragWindow,
}

/// A query addressed to a window.
#[derive(Debug, Clone, Copy, PartialEq, Eq, Structural)]
pub struct QueryMessage {
    pub window: u64,
    pub query: WindowQuery,
}

/// A command addressed to a window.
#[derive(Debug, PartialEq, Eq)]
pub struct CommandMessage {
    pub window: u64,
    pub command: WindowCommand,
}

/// Where a message goes.
#[derive(Debug, Clone, Copy, PartialEq, Eq, Structural)]
pub enum Route {
    /// Handle it at once: the caller runs on the event loop's thread.
    HandleHere,
    /// Post it to the event loop.
    PostToEventLoop,
}

/// Why a window message failed.
#[derive(Debug, Clone, Copy, PartialEq, Eq, Structural)]
pub enum WindowError {
    /// The event loop is gone: the message could not be posted.
    EventLoopClosed,
    /// No answer came back on the channel.
    FailedToReceiveMessage,
}

/// Where a message goes: handled at once on the main thread, posted to the
/// event loop from any other thread.
pub fn route(on_main_thread: bool) -> (r: Route)
    ensures
        r == (if on_main_thread {
            Route::HandleHere
        } else {
            Route::PostToEventLoop
        }),
{
    if on_main_thread {
        Route::HandleHere
    } else {
        Route::PostToEventLoop
    }
}

/// The result of sending a message: a message handled at once always
/// succeeds; a posted one fails when the event loop is gone.
pub fn send_result(route: Route, posted: bool) -> (r: Result<(), WindowError>)
    ensures
        r == (if route == Route::HandleHere || posted {
            Ok::<(), WindowError>(())
        } else {
            Err(WindowError::EventLoopClosed)
        }),
{
    match route {
        Route::HandleHere => Ok(()),
        Route::PostToEventLoop => {
            if posted {
                Ok(())
            } else {
                Err(WindowError::EventLoopClosed)
            }
        },
    }
}

/// The result of a getter: the answer received on the channel, or an error
/// when none came.
pub fn receive_result<T>(answer: Option<T>) -> (r: Result<T, WindowError>)
    ensures
        r == (match answer {
            Some(v) => Ok::<T, WindowError>(v),
            None => Err(WindowError::FailedToReceiveMessage),
        }),
{
    match answer {
        Some(v) => Ok(v),
        None => Err(WindowError::FailedToReceiveMessage),
    }
}

/// The result of a getter: an error when its query could not be posted to
/// the event loop, otherwise the answer received on the channel, or an error
/// when none came.
pub fn query_result<T>(route: Route, posted: bool, answer: Option<T>) -> (r: Result<T, WindowError>)
    ensures
        r == (if route == Route::PostToEventLoop && !posted {
            Err(WindowError::EventLoopClosed)
        } else {
            match answer {
                Some(v) => Ok::<T, WindowError>(v),
                None => Err(WindowError::FailedToReceiveMessage),
            }
        }),
{
    match send_result(route, posted) {
        Err(e) => Err(e),
        Ok(()) => receive_result(answer),
    }
}

/// A handle to the egui window.
#[derive(Debug, Clone, Copy, PartialEq, Eq, Structural)]
pub struct Window {
    pub id: u64,
}

impl Window {
    fn ask(&self, query: WindowQuery) -> (m: QueryMessage)
        ensures
            m == (QueryMessage { window: self.id, query }),
    {
        QueryMessage { window: self.id, query }
    }

    fn command(&self, command: WindowCommand) -> (m: CommandMessage)
        ensures
            m == (CommandMessage { window: self.id, command }),
    {
        CommandMessage { window: self.id, command }
    }

    /// Asks for the scale factor between logical and physical pixels.
    pub fn scale_factor(&self) -> (m: QueryMessage)
        ensures
            m == (QueryMessage { window: self.id, query: WindowQuery::ScaleFactor }),
    {
        self.ask(WindowQuery::ScaleFactor)
    }

    /// Asks for the position of the client area's top-left corner.
    pub fn inner_position(&self) -> (m: QueryMessage)
        ensures
            m == (QueryMessage { window: self.id, query: WindowQuery::InnerPosition }),
    {
        self.ask(WindowQuery::InnerPosition)
    }

    /// Asks for the position of the window's top-left corner.
    pub fn outer_position(&self) -> (m: QueryMessage)
        ensures
            m == (QueryMessage { window: self.id, query: WindowQuery::OuterPosition }),
    {
        self.ask(WindowQuery::OuterPosition)
    }

    /// Asks for the physical size of the client area.
    pub fn inner_size(&self) -> (m: QueryMessage)
        ensures
            m == (QueryMessage { window: self.id, query: WindowQuery::InnerSize }),
    {
        self.ask(WindowQuery::InnerSize)
    }

    /// Asks for the physical size of the whole window.
    pub fn outer_size(&self) -> (m: QueryMessage)
        ensures
            m == (QueryMessage { window: self.id, query: WindowQuery::OuterSize }),
    {
        self.ask(WindowQuery::OuterSize)
    }

    /// Asks whether the window is fullscreen.
    pub fn is_fullscreen(&self) -> (m: QueryMessage)
        ensures
            m == (QueryMessage { window: self.id, query: WindowQuery::IsFullscreen }),
    {
        self.ask(WindowQuery::IsFullscreen)
    }

    /// Asks whether the window is maximized.
    pub fn is_maximized(&self) -> (m: QueryMessage)
        ensures
            m == (QueryMessage { window: self.id, query: WindowQuery::IsMaximized }),
    {
        self.ask(WindowQuery::IsMaximized)
    }

    /// Asks whether the window is decorated.
    pub fn is_decorated(&self) -> (m: QueryMessage)
        ensures
            m == (QueryMessage { window: self.id, query: WindowQuery::IsDecorated }),
    {
        self.ask(WindowQuery::IsDecorated)
    }

    /// Asks whether the window is resizable.
    pub fn is_resizable(&self) -> (m: QueryMessage)
        ensures
            m == (QueryMessage { window: self.id, query: WindowQuery::IsResizable }),
    {
        self.ask(WindowQuery::IsResizable)
    }

    /// Asks whether the window is visible.
    pub fn is_visible(&self) -> (m: QueryMessage)
        ensures
            m == (QueryMessage { window: self.id, query: WindowQuery::IsVisible }),
    {
        self.ask(WindowQuery::IsVisible)
    }

    /// Asks for the monitor the window is on.
    pub fn current_monitor(&self) -> (m: QueryMessage)
        ensures
            m == (QueryMessage { window: self.id, query: WindowQuery::CurrentMonitor }),
    {
        self.ask(WindowQuery::CurrentMonitor)
    }

    /// Asks for the primary monitor.
    pub fn primary_monitor(&self) -> (m: QueryMessage)
        ensures
            m == (QueryMessage { window: self.id, query: WindowQuery::PrimaryMonitor }),
    {
        self.ask(WindowQuery::PrimaryMonitor)
    }

    /// Asks for all monitors.
    pub fn available_monitors(&self) -> (m: QueryMessage)
        ensures
            m == (QueryMessage { window: self.id, query: WindowQuery::AvailableMonitors }),
    {
        self.ask(WindowQuery::AvailableMonitors)
    }

    /// Asks for the window's theme.
    pub fn theme(&self) -> (m: QueryMessage)
        ensures
            m == (QueryMessage { window: self.id, query: WindowQuery::Theme }),
    {
        self.ask(WindowQuery::Theme)
    }

    /// Centers the window.
    pub fn center(&self) -> (m: CommandMessage)
        ensures
            m == (CommandMessage { window: self.id, command: WindowCommand::Center }),
    {
        self.command(WindowCommand::Center)
    }

    /// Requests (or, with `None`, stops requesting) the user's attention.
    pub fn request_user_attention(&self, request_type: Option<UserAttentionType>) -> (m:
        CommandMessage)
        ensures
            m == (CommandMessage {
                window: self.id,
                command: WindowCommand::RequestUserAttention(request_type),
            }),
    {
        self.command(WindowCommand::RequestUserAttention(request_type))
    }

    /// Makes the window resizable or not.
    pub fn set_resizable(&self, resizable: bool) -> (m: CommandMessage)
        ensures
            m == (CommandMessage { window: self.id, command: WindowCommand::SetResizable(resizable) }),
    {
        self.command(WindowCommand::SetResizable(resizable))
    }

    /// Sets the window's title.
    pub fn set_title(&self, title: &str) -> (m: CommandMessage)
        ensures
            m.window == self.id,
            m.command matches WindowCommand::SetTitle(t) && t@ == title@,
    {
        self.command(WindowCommand::SetTitle(title.to_owned()))
    }

    /// Maximizes the window.
    pub fn maximize(&self) -> (m: CommandMessage)
        ensures
            m == (CommandMessage { window: self.id, command: WindowCommand::Maximize }),
    {
        self.command(WindowCommand::Maximize)
    }

    /// Un-maximizes the window.
    pub fn unmaximize(&self) -> (m: CommandMessage)
        ensures
            m == (CommandMessage { window: self.id, command: WindowCommand::Unmaximize }),
    {
        self.command(WindowCommand::Unmaximize)
    }

    /// Minimizes the window.
    pub fn minimize(&self) -> (m: CommandMessage)
        ensures
            m == (CommandMessage { window: self.id, command: WindowCommand::Minimize }),
    {
        self.command(WindowCommand::Minimize)
    }

    /// Un-minimizes the window.
    pub fn unminimize(&self) -> (m: CommandMessage)
        ensures
            m == (CommandMessage { window: self.id, command: WindowCommand::Unminimize }),
    {
        self.command(WindowCommand::Unminimize)
    }

    /// Shows the window.
    pub fn show(&self) -> (m: CommandMessage)
        ensures
            m == (CommandMessage { window: self.id, command: WindowCommand::Show }),
    {
        self.command(WindowCommand::Show)
    }

    /// Hides the window.
    pub fn hide_window(&self) -> (m: CommandMessage)
        ensures
            m == (CommandMessage { window: self.id, command: WindowCommand::Hide }),
    {
        self.command(WindowCommand::Hide)
    }

    /// Closes the window: the close command and its route. Closing panics
    /// before the event loop runs and on the event loop's own thread, so it is
    /// only done from another thread while the loop runs, and the command is
    /// always posted to the loop.
    pub fn close(&self, on_main_thread: bool, loop_running: bool) -> (m: (CommandMessage, Route))
        requires
            loop_running,
            !on_main_thread,
        ensures
            m.0 == (CommandMessage { window: self.id, command: WindowCommand::Close }),
            m.1 == Route::PostToEventLoop,
    {
        (self.command(WindowCommand::Close), route(on_main_thread))
    }

    /// Decorates the window or not.
    pub fn set_decorations(&self, decorations: bool) -> (m: CommandMessage)
        ensures
            m == (CommandMessage {
                window: self.id,
                command: WindowCommand::SetDecorations(decorations),
            }),
    {
        self.command(WindowCommand::SetDecorations(decorations))
    }

    /// Keeps the window above the others or not.
    pub fn set_always_on_top(&self, always_on_top: bool) -> (m: CommandMessage)
        ensures
            m == (CommandMessage {
                window: self.id,
                command: WindowCommand::SetAlwaysOnTop(always_on_top),
            }),
    {
        self.command(WindowCommand::SetAlwaysOnTop(always_on_top))
    }

    /// Makes the window fullscreen or not.
    pub fn set_fullscreen(&self, fullscreen: bool) -> (m: CommandMessage)
        ensures
            m == (CommandMessage {
                window: self.id,
                command: WindowCommand::SetFullscreen(fullscreen),
            }),
    {
        self.command(WindowCommand::SetFullscreen(fullscreen))
    }

    /// Brings the window to the front and focuses it.
    pub fn set_focus(&self) -> (m: CommandMessage)
        ensures
            m == (CommandMessage { window: self.id, command: WindowCommand::SetFocus }),
    {
        self.command(WindowCommand::SetFocus)
    }

    /// Shows the window in the task bar or not.
    pub fn set_skip_taskbar(&self, skip: bool) -> (m: CommandMessage)
        ensures
            m == (CommandMessage { window: self.id, command: WindowCommand::SetSkipTaskbar(skip) }),
    {
        self.command(WindowCommand::SetSkipTaskbar(skip))
    }

    /// Grabs the cursor or releases it.
    pub fn set_cursor_grab(&self, grab: bool) -> (m: CommandMessage)
        ensures
            m == (CommandMessage { window: self.id, command: WindowCommand::SetCursorGrab(grab) }),
    {
        self.command(WindowCommand::SetCursorGrab(grab))
    }

    /// Shows or hides the cursor.
    pub fn set_cursor_visible(&self, visible: bool) -> (m: CommandMessage)
        ensures
            m == (CommandMessage {
                window: self.id,
                command: WindowCommand::SetCursorVisible(visible),
            }),
    {
        self.command(WindowCommand::SetCursorVisible(visible))
    }

    /// Changes the window's cursor.
    pub fn set_cursor_icon(&self, icon: CursorIcon) -> (m: CommandMessage)
        ensures
            m == (CommandMessage { window: self.id, command: WindowCommand::SetCursorIcon(icon) }),
    {
        self.command(WindowCommand::SetCursorIcon(icon))
    }

    /// Sets the window's icon.
    pub fn set_icon(&self, icon: RgbaIcon) -> (m: CommandMessage)
        ensures
            m == (CommandMessage { window: self.id, command: WindowCommand::SetIcon(icon) }),
    {
        self.command(WindowCommand::SetIcon(icon))
    }

    /// Starts dragging the window.
    pub fn start_dragging(&self) -> (m: CommandMessage)
        ensures
            m == (CommandMessage { window: self.id, command: WindowCommand::DragWindow }),
    {
        self.command(WindowCommand::DragWindow)
    }
}

} // verus!

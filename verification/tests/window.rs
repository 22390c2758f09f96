use tauri_egui::window::{
    query_result, receive_result, route, send_result, CursorIcon, QueryMessage, RgbaIcon,
    Route, UserAttentionType, Window, WindowCommand, WindowError, WindowQuery,
};

#[test]
fn routing() {
    assert_eq!(route(true), Route::HandleHere);
    assert_eq!(route(false), Route::PostToEventLoop);
    assert_eq!(send_result(Route::HandleHere, false), Ok(()));
    assert_eq!(send_result(Route::PostToEventLoop, true), Ok(()));
    assert_eq!(send_result(Route::PostToEventLoop, false), Err(WindowError::EventLoopClosed));
    assert_eq!(receive_result(Some(3u32)), Ok(3));
    assert_eq!(receive_result::<u32>(None), Err(WindowError::FailedToReceiveMessage));
}

#[test]
fn getter_results() {
    assert_eq!(query_result(Route::HandleHere, false, Some(2.0f64)), Ok(2.0));
    assert_eq!(query_result(Route::PostToEventLoop, true, Some(true)), Ok(true));
    assert_eq!(
        query_result(Route::PostToEventLoop, false, Some(true)),
        Err(WindowError::EventLoopClosed)
    );
    assert_eq!(
        query_result::<bool>(Route::PostToEventLoop, true, None),
        Err(WindowError::FailedToReceiveMessage)
    );
    assert_eq!(
        query_result::<bool>(Route::HandleHere, false, None),
        Err(WindowError::FailedToReceiveMessage)
    );
}

#[test]
fn getters_ask_their_question() {
    let w = Window { id: 7 };
    let q = |query| QueryMessage { window: 7, query };
    assert_eq!(w.scale_factor(), q(WindowQuery::ScaleFactor));
    assert_eq!(w.inner_position(), q(WindowQuery::InnerPosition));
    assert_eq!(w.outer_position(), q(WindowQuery::OuterPosition));
    assert_eq!(w.inner_size(), q(WindowQuery::InnerSize));
    assert_eq!(w.outer_size(), q(WindowQuery::OuterSize));
    assert_eq!(w.is_fullscreen(), q(WindowQuery::IsFullscreen));
    assert_eq!(w.is_maximized(), q(WindowQuery::IsMaximized));
    assert_eq!(w.is_decorated(), q(WindowQuery::IsDecorated));
    assert_eq!(w.is_resizable(), q(WindowQuery::IsResizable));
    assert_eq!(w.is_visible(), q(WindowQuery::IsVisible));
    assert_eq!(w.current_monitor(), q(WindowQuery::CurrentMonitor));
    assert_eq!(w.primary_monitor(), q(WindowQuery::PrimaryMonitor));
    assert_eq!(w.available_monitors(), q(WindowQuery::AvailableMonitors));
    assert_eq!(w.theme(), q(WindowQuery::Theme));
}

#[test]
fn setters_send_their_command() {
    let w = Window { id: 9 };
    let cmd = |m: tauri_egui::window::CommandMessage| {
        assert_eq!(m.window, 9);
        m.command
    };
    assert_eq!(cmd(w.center()), WindowCommand::Center);
    assert_eq!(
        cmd(w.request_user_attention(Some(UserAttentionType::Critical))),
        WindowCommand::RequestUserAttention(Some(UserAttentionType::Critical))
    );
    assert_eq!(
        cmd(w.request_user_attention(None)),
        WindowCommand::RequestUserAttention(None)
    );
    assert_eq!(cmd(w.set_resizable(false)), WindowCommand::SetResizable(false));
    assert_eq!(cmd(w.set_title("Login")), WindowCommand::SetTitle("Login".to_string()));
    assert_eq!(cmd(w.maximize()), WindowCommand::Maximize);
    assert_eq!(cmd(w.unmaximize()), WindowCommand::Unmaximize);
    assert_eq!(cmd(w.minimize()), WindowCommand::Minimize);
    assert_eq!(cmd(w.unminimize()), WindowCommand::Unminimize);
    assert_eq!(cmd(w.show()), WindowCommand::Show);
    assert_eq!(cmd(w.hide_window()), WindowCommand::Hide);
    let (message, close_route) = w.close(false, true);
    assert_eq!(close_route, Route::PostToEventLoop);
    assert_eq!(cmd(message), WindowCommand::Close);
    let icon = RgbaIcon { rgba: vec![0, 0, 0, 255], width: 1, height: 1 };
    assert_eq!(cmd(w.set_icon(icon.clone())), WindowCommand::SetIcon(icon));
    assert_eq!(cmd(w.set_decorations(true)), WindowCommand::SetDecorations(true));
    assert_eq!(cmd(w.set_always_on_top(true)), WindowCommand::SetAlwaysOnTop(true));
    assert_eq!(cmd(w.set_fullscreen(false)), WindowCommand::SetFullscreen(false));
    assert_eq!(cmd(w.set_focus()), WindowCommand::SetFocus);
    assert_eq!(cmd(w.set_skip_taskbar(true)), WindowCommand::SetSkipTaskbar(true));
    assert_eq!(cmd(w.set_cursor_grab(true)), WindowCommand::SetCursorGrab(true));
    assert_eq!(cmd(w.set_cursor_visible(false)), WindowCommand::SetCursorVisible(false));
    assert_eq!(cmd(w.set_cursor_icon(CursorIcon::Hand)), WindowCommand::SetCursorIcon(CursorIcon::Hand));
    assert_eq!(cmd(w.start_dragging()), WindowCommand::DragWindow);
}

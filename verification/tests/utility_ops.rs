use xwin::err::XErr;
use xwin::system::exec::XWinMessage;
use xwin::utility::{
    clipboard_string, set_clipboard_string, timer_frequency, timer_value, try_clipboard_string,
    try_set_clipboard_string, try_timer_frequency, try_timer_value,
};
use xwin::window::Window;
use xwin::window::ctx::WindowContext;

#[test]
fn clipboard_round_trip_messages() {
    let r = try_set_clipboard_string(String::from("copied"), |m: XWinMessage| {
        assert_eq!(m, XWinMessage::SetClipboardString(String::from("copied")));
        Ok(())
    });
    assert_eq!(r, Ok(()));
    set_clipboard_string(String::from("x"), |_m: XWinMessage| Err(XErr::PlatformError(String::new())));
    assert_eq!(try_clipboard_string(|_m: XWinMessage| Ok(String::from("copied"))), Ok(String::from("copied")));
    assert_eq!(clipboard_string(|_m: XWinMessage| Err(XErr::FormatUnavailable(String::new()))), "");
}

#[test]
fn timer_defaults_to_zero_on_error() {
    assert_eq!(try_timer_frequency(|m: XWinMessage| {
        assert_eq!(m, XWinMessage::GetTimerFrequency);
        Ok(1_000_000)
    }), Ok(1_000_000));
    assert_eq!(timer_frequency(|_m: XWinMessage| Err(XErr::NotInitialized(String::new()))), 0);
    assert_eq!(try_timer_value(|_m: XWinMessage| Ok(5)), Ok(5));
    assert_eq!(timer_value(|_m: XWinMessage| Err(XErr::NotInitialized(String::new()))), 0);
}

#[test]
fn window_context_channels() {
    let mut ctx: WindowContext<u8, u16, u32, char, Vec<String>> = WindowContext::new();
    let mut w = Window::from_glfw(1);
    assert_eq!(w.set_config_channel(Some(&mut ctx), 4), Ok(()));
    let mut input = w.input();
    assert_eq!(input.set_key_channel(Some(&mut ctx), 9), Ok(()));
    let mut seen = Vec::new();
    assert!(ctx.post("moved", |tx: &u8, e: &str| {
        assert_eq!(*tx, 4);
        e == "moved"
    }));
    assert!(!ctx.post("closed", |_tx: &u8, _e: &str| false));
    assert!(!ctx.post("again", |_tx: &u8, _e: &str| true));
    assert!(ctx.post_key(7u32, |tx: &u16, e: u32| {
        seen.push((*tx, e));
        true
    }));
    assert_eq!(seen, vec![(9, 7)]);
    assert_eq!(input.clear_key_channel(Some(&mut ctx)), Ok(()));
    assert!(!ctx.post_key(8u32, |_tx: &u16, _e: u32| true));
    assert_eq!(input.set_char_channel(Some(&mut ctx), 'c'), Ok(()));
    assert!(ctx.post_char('x', |tx: &char, e: char| *tx == 'c' && e == 'x'));
    assert_eq!(input.set_drop_channel(Some(&mut ctx), Vec::new()), Ok(()));
    assert!(!ctx.post_drop(vec![String::from("a.txt")], |_tx: &Vec<String>, _e: Vec<String>| false));
    assert!(!ctx.post_drop(vec![String::from("b.txt")], |_tx: &Vec<String>, _e: Vec<String>| true));
    assert_eq!(input.set_mouse_channel(Some(&mut ctx), 3), Ok(()));
    assert!(ctx.post_mouse(1u8, |tx: &u32, e: u8| *tx == 3 && e == 1));
    assert_eq!(input.clear_mouse_channel(Some(&mut ctx)), Ok(()));
    assert_eq!(
        w.clear_config_channel::<u8, u16, u32, char, Vec<String>>(None),
        Err(XErr::NotInitialized(String::from("Unable to clear config channel when XWin is uninitialized")))
    );
}

use jove::native::{Color, DrawCommand};
use jove::slot::SlotBridge;

#[test]
fn drawing_outside_the_lending_window_raises_not_rendering() {
    let mut bridge = SlotBridge::new();
    let token = bridge.open_window();
    bridge.close_window();
    // The window has closed; the token is stale, as a handler that
    // captured it (say, `update`) would find.
    let args: Vec<Option<u64>> = Vec::new();
    let result = bridge.clear_in_window(&token, &args);
    assert!(result.is_err());
    assert_eq!(result.unwrap_err().message(), "not rendering");
}

#[test]
fn drawing_inside_the_lending_window_succeeds() {
    let mut bridge = SlotBridge::new();
    let token = bridge.open_window();
    let one = 1.0f64.to_bits();
    let args = vec![Some(one), Some(one), Some(one), Some(one)];
    let result = bridge.clear_in_window(&token, &args);
    assert_eq!(
        result,
        Ok(DrawCommand::Clear { color: Color { r: one, g: one, b: one, a: one } })
    );
    bridge.close_window();
}

#[test]
fn rectangle_follows_the_same_authorization_rule() {
    let mut bridge = SlotBridge::new();
    let token = bridge.open_window();
    let args: Vec<Option<u64>> = Vec::new();
    assert!(bridge.rectangle_in_window(&token, &args).is_ok());
    bridge.close_window();
    assert!(bridge.rectangle_in_window(&token, &args).is_err());
}

#[test]
fn a_token_from_an_earlier_window_never_authorizes_again() {
    let mut bridge = SlotBridge::new();
    let stale = bridge.open_window();
    bridge.close_window();
    // A new lending window is open, but the old token does not transfer.
    let fresh = bridge.open_window();
    let args: Vec<Option<u64>> = Vec::new();
    assert!(bridge.clear_in_window(&stale, &args).is_err());
    assert!(bridge.clear_in_window(&fresh, &args).is_ok());
    bridge.close_window();
}

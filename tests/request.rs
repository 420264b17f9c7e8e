use tg_api::keyboard::{buy_menu_keyboard, Button, Keyboard};
use tg_api::request::{second_piece, RequestError, SendBuyTxRequest};

fn filled(buy: &str, receive: &str, amount: &str) -> Keyboard {
    let mut k = buy_menu_keyboard();
    k.set_button(4, 0, Button::labelled(buy));
    k.set_button(4, 1, Button::labelled(receive));
    k.set_button(5, 0, Button::labelled(amount));
    k
}

#[test]
fn request_read_from_filled_menu() {
    let mut k = filled("Buy: 0xaa", "Receive: 0xbb", "Amount: 1.5");
    k.set_button(1, 1, Button::labelled("✅ Rebate"));
    let r = SendBuyTxRequest::new(&k).unwrap();
    assert_eq!(r.wallet, "✅ Wallet 1");
    assert!(!r.private_tx);
    assert!(r.rebate);
    assert_eq!(r.buy, "0xaa");
    assert_eq!(r.receive, "0xbb");
    assert_eq!(r.buy_amount, "1.5");
}

#[test]
fn request_needs_a_selected_wallet() {
    let mut k = filled("Buy: 0xaa", "Receive: 0xbb", "Amount: 1.5");
    k.set_button(3, 0, Button::labelled("Wallet 1"));
    assert_eq!(SendBuyTxRequest::new(&k).unwrap_err(), RequestError::NoWallet);
    assert_eq!(SendBuyTxRequest::new(&Keyboard::new()).unwrap_err(), RequestError::NoWallet);
}

#[test]
fn request_needs_every_button() {
    let mut k = Keyboard::new();
    for _ in 0..3 {
        k.append_row(vec![Button::labelled("x")]);
    }
    k.append_row(vec![Button::labelled("✅ Wallet 1")]);
    assert_eq!(SendBuyTxRequest::new(&k).unwrap_err(), RequestError::MissingButton);
}

#[test]
fn request_needs_token_addresses() {
    let k = buy_menu_keyboard();
    assert_eq!(SendBuyTxRequest::new(&k).unwrap_err(), RequestError::NoTokenAddress);
    let k = filled("Buy: 0xaa", "0xbb", "Amount: 1.5");
    assert_eq!(SendBuyTxRequest::new(&k).unwrap_err(), RequestError::NoTokenAddress);
}

#[test]
fn request_needs_a_numeric_amount() {
    let k = filled("Buy: 0xaa", "Receive: 0xbb", "1.5");
    assert_eq!(SendBuyTxRequest::new(&k).unwrap_err(), RequestError::NoAmount);
    let k = filled("Buy: 0xaa", "Receive: 0xbb", "Amount: lots");
    assert_eq!(SendBuyTxRequest::new(&k).unwrap_err(), RequestError::InvalidAmount);
}

#[test]
fn second_piece_splits_at_colon_space() {
    assert_eq!(second_piece("a: b: c").as_deref(), Some("b"));
    assert_eq!(second_piece("a: b").as_deref(), Some("b"));
    assert_eq!(second_piece("a:: b").as_deref(), Some("b"));
    assert_eq!(second_piece("a: : c").as_deref(), Some(""));
    assert_eq!(second_piece("a: ").as_deref(), Some(""));
    assert_eq!(second_piece("a:b"), None);
    assert_eq!(second_piece(""), None);
}

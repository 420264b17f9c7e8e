use tg_api::keyboard::{
    buy_keyboard, buy_menu_keyboard, create_buy_keyboard, create_keyboard, limit_buy_keyboard,
    limit_sell_keyboard, menu_keyboard, sell_keyboard, Button, ConfigError, Keyboard,
};

fn texts(k: &Keyboard) -> Vec<Vec<String>> {
    k.rows.iter().map(|r| r.iter().map(|b| b.text.clone()).collect()).collect()
}

fn callbacks(k: &Keyboard) -> Vec<Vec<String>> {
    k.rows.iter().map(|r| r.iter().map(|b| b.callback.clone()).collect()).collect()
}

fn decorated_wallets(k: &Keyboard) -> usize {
    let plain = ["Wallet 1", "Wallet 2", "Wallet 3"];
    k.rows[3].iter().enumerate().filter(|(i, b)| b.text != plain[*i]).count()
}

#[test]
fn buy_keyboard_full_layout() {
    let k = create_buy_keyboard(true, false, false, true, false).unwrap();
    let want: Vec<Vec<&str>> = vec![
        vec!["🏠 Main Menu", "❌ Close"],
        vec!["✅ Private Tx", "Rebate"],
        vec!["=Select Wallet="],
        vec!["Wallet 1", "✅Wallet 2", "Wallet 3"],
        vec!["Buy Token", "Receive Token"],
        vec!["Buy Amount"],
        vec!["Estimated Received Amount"],
        vec!["Send Buy Tx"],
    ];
    assert_eq!(texts(&k), want);
    let want_callbacks: Vec<Vec<&str>> = vec![
        vec!["Main Menu", "Close"],
        vec!["✅ Private Tx", "Rebate"],
        vec!["=Select Wallet="],
        vec!["Wallet 1", "✅Wallet 2", "Wallet 3"],
        vec!["Buy Token", "Receive Token"],
        vec!["Buy Amount"],
        vec!["Estimated Received Amount"],
        vec!["Send Buy Tx"],
    ];
    assert_eq!(callbacks(&k), want_callbacks);
}

#[test]
fn buy_keyboard_one_wallet_each_choice() {
    for (w1, w2, w3, chosen) in [
        (true, false, false, 0usize),
        (false, true, false, 1),
        (false, false, true, 2),
    ] {
        for (p, r) in [(false, false), (true, true), (true, false), (false, true)] {
            let k = buy_keyboard(p, r, w1, w2, w3).unwrap();
            assert_eq!(k.rows.len(), 8);
            assert_eq!(k.rows[3].len(), 3);
            assert_eq!(decorated_wallets(&k), 1);
            assert!(k.rows[3][chosen].text.starts_with('✅'));
        }
    }
}

#[test]
fn buy_keyboard_rejects_bad_wallet_selection() {
    for (w1, w2, w3) in [
        (false, false, false),
        (true, true, false),
        (true, false, true),
        (false, true, true),
        (true, true, true),
    ] {
        for (p, r) in [(false, false), (true, true)] {
            assert_eq!(
                create_buy_keyboard(p, r, w1, w2, w3).unwrap_err(),
                ConfigError::InvalidWalletSelection
            );
            assert_eq!(buy_keyboard(p, r, w1, w2, w3).unwrap_err(), ConfigError::InvalidWalletSelection);
        }
    }
}

#[test]
fn first_buy_menu_selects_wallet_one() {
    let k = buy_menu_keyboard();
    assert_eq!(k.rows[3][0].text, "✅ Wallet 1");
    assert_eq!(k.rows[3][1].text, "Wallet 2");
    assert_eq!(k.rows[3][2].text, "Wallet 3");
    assert_eq!(k.rows[1][0].text, "Private Tx");
    assert_eq!(k.rows[1][1].text, "Rebate");
    assert_eq!(decorated_wallets(&k), 1);
}

#[test]
fn create_keyboard_three_to_a_row() {
    let k = create_keyboard(vec!["a", "b", "c", "d"]);
    assert_eq!(texts(&k), vec![vec!["a", "b", "c"], vec!["d"]]);
    assert_eq!(callbacks(&k), vec![vec!["a", "b", "c"], vec!["d"]]);
    let k = create_keyboard(vec!["a", "b", "c", "d", "e", "f"]);
    assert_eq!(texts(&k), vec![vec!["a", "b", "c"], vec!["d", "e", "f"]]);
    let k = create_keyboard(vec![]);
    assert!(k.rows.is_empty());
}

#[test]
fn menu_and_coin_keyboards() {
    assert_eq!(texts(&menu_keyboard()), vec![vec!["Buy", "Sell", "Limit Buy"], vec!["Limit Sell"]]);
    let coins = vec![vec!["BTC", "ETH", "LTC"], vec!["BCH", "Main Menu", "Close"]];
    assert_eq!(texts(&sell_keyboard()), coins);
    assert_eq!(texts(&limit_buy_keyboard()), coins);
    assert_eq!(texts(&limit_sell_keyboard()), coins);
}

#[test]
fn set_button_off_the_keyboard_changes_nothing() {
    let mut k = menu_keyboard();
    k.set_button(1, 1, Button::labelled("x"));
    k.set_button(5, 0, Button::labelled("x"));
    assert_eq!(texts(&k), vec![vec!["Buy", "Sell", "Limit Buy"], vec!["Limit Sell"]]);
    k.set_button(1, 0, Button::callback("x".to_string(), "y".to_string()));
    assert_eq!(texts(&k), vec![vec!["Buy", "Sell", "Limit Buy"], vec!["x"]]);
    assert_eq!(callbacks(&k)[1], vec!["y"]);
}

#[test]
fn duplicate_copies_every_button() {
    let k = buy_menu_keyboard();
    let d = k.duplicate();
    assert_eq!(texts(&d), texts(&k));
    assert_eq!(callbacks(&d), callbacks(&k));
}

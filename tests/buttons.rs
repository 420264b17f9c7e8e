use tg_api::buttons::{toggle_label, BuyButtons};

#[test]
fn classify_labels_with_and_without_decoration() {
    assert!(matches!(BuyButtons::new("Send Buy Tx"), BuyButtons::SendBuyTx));
    assert!(matches!(BuyButtons::new("Send Sell Tx"), BuyButtons::SendSellTx));
    assert!(matches!(BuyButtons::new("Main Menu"), BuyButtons::MainMenu));
    assert!(matches!(BuyButtons::new("🏠 Main Menu"), BuyButtons::MainMenu));
    assert!(matches!(BuyButtons::new("❌ Close"), BuyButtons::Close));
    assert!(matches!(BuyButtons::new("Private Tx"), BuyButtons::PrivateTx("Private Tx")));
    assert!(matches!(BuyButtons::new("✅ Private Tx"), BuyButtons::PrivateTx("✅ Private Tx")));
    assert!(matches!(BuyButtons::new("✅ Rebate"), BuyButtons::Rebate("✅ Rebate")));
    assert!(matches!(BuyButtons::new("Wallet 1"), BuyButtons::Wallet1("Wallet 1")));
    assert!(matches!(BuyButtons::new("✅Wallet 2"), BuyButtons::Wallet2("✅Wallet 2")));
    assert!(matches!(BuyButtons::new("✅ Wallet 3"), BuyButtons::Wallet3("✅ Wallet 3")));
    assert!(matches!(BuyButtons::new("Buy Token"), BuyButtons::BuyToken));
    assert!(matches!(BuyButtons::new("Receive Token"), BuyButtons::ReceiveToken));
    assert!(matches!(BuyButtons::new("Buy Amount"), BuyButtons::BuyAmount));
    assert!(matches!(BuyButtons::new("Estimated Received Amount"), BuyButtons::EstimatedReceivedAmount));
}

#[test]
fn classify_unknown_text_as_send_sell() {
    assert!(matches!(BuyButtons::new("=Select Wallet="), BuyButtons::SendSellTx));
    assert!(matches!(BuyButtons::new(""), BuyButtons::SendSellTx));
    assert!(matches!(BuyButtons::new("✅ Buy Token"), BuyButtons::SendSellTx));
    assert!(matches!(BuyButtons::new("0xabc"), BuyButtons::SendSellTx));
}

#[test]
fn toggle_flips_each_switch() {
    assert_eq!(BuyButtons::new("Private Tx").toggle(), "✅ Private Tx");
    assert_eq!(BuyButtons::new("✅ Private Tx").toggle(), "Private Tx");
    assert_eq!(BuyButtons::new("Rebate").toggle(), "✅ Rebate");
    assert_eq!(BuyButtons::new("✅Wallet 2").toggle(), "Wallet 2");
    assert_eq!(BuyButtons::new("Wallet 3").toggle(), "✅ Wallet 3");
}

#[test]
fn toggle_twice_round_trips() {
    for label in [
        "Private Tx", "✅ Private Tx", "Rebate", "✅ Rebate", "Wallet 1", "✅ Wallet 1",
        "Wallet 2", "✅Wallet 2", "Wallet 3", "✅ Wallet 3",
    ] {
        let once = BuyButtons::new(label).toggle();
        assert_ne!(once, label);
        assert_eq!(
            std::mem::discriminant(&BuyButtons::new(&once)),
            std::mem::discriminant(&BuyButtons::new(label))
        );
        let twice = BuyButtons::new(&once).toggle();
        assert_eq!(twice, label);
        assert_eq!(toggle_label(&once), label);
    }
}

#[test]
fn toggle_of_other_buttons_gives_their_name() {
    assert_eq!(BuyButtons::new("Buy Token").toggle(), "BuyToken");
    assert_eq!(BuyButtons::new("Send Buy Tx").toggle(), "SendBuyTx");
    assert_eq!(BuyButtons::new("❌ Close").toggle(), "Close");
    assert_eq!(BuyButtons::new("nothing").toggle(), "SendSellTx");
}

#[test]
fn toggle_text_decorates_bare_default() {
    let b = BuyButtons::BuyToken;
    assert_eq!(b.toggle_text("Rebate", "Rebate"), "✅ Rebate");
    assert_eq!(b.toggle_text("✅ Rebate", "Rebate"), "Rebate");
    assert_eq!(b.toggle_text("anything", "Wallet 1"), "Wallet 1");
}

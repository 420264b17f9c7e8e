//! Button labels and their "selected" decoration.

use vstd::prelude::*;

use crate::text::str_eq;

verus! {

pub const BUY: &'static str = "Buy";
pub const SELL: &'static str = "Sell";
pub const LIMIT_BUY: &'static str = "Limit Buy";
pub const LIMIT_SELL: &'static str = "Limit Sell";
pub const MAIN_MENU: &'static str = "Main Menu";
pub const CLOSE: &'static str = "Close";
pub const PRIVATE_TX: &'static str = "Private Tx";
pub const REBATE: &'static str = "Rebate";
pub const SELECT_WALLET: &'static str = "=Select Wallet=";
pub const WALLET_1: &'static str = "Wallet 1";
pub const WALLET_2: &'static str = "Wallet 2";
pub const WALLET_3: &'static str = "Wallet 3";
pub const BUY_TOKEN: &'static str = "Buy Token";
pub const RECEIVE_TOKEN: &'static str = "Receive Token";
pub const BUY_AMOUNT: &'static str = "Buy Amount";
pub const ESTIMATED_RECEIVED_AMOUNT: &'static str = "Estimated Received Amount";
pub const SEND_BUY_TX: &'static str = "Send Buy Tx";
pub const SEND_SELL_TX: &'static str = "Send Sell Tx";

pub const HOME_MARK: &'static str = "🏠 ";
pub const CLOSE_MARK: &'static str = "❌ ";
pub const CHECK_MARK: &'static str = "✅ ";
pub const CHECK_MARK_TIGHT: &'static str = "✅";

/// The glyphs put in front of a label to decorate it; empty for labels that
/// have no decoration.
pub open spec fn emoji_prefix(t: Seq<char>) -> Seq<char> {
    if t == MAIN_MENU@ {
        HOME_MARK@
    } else if t == CLOSE@ {
        CLOSE_MARK@
    } else if t == WALLET_2@ {
        CHECK_MARK_TIGHT@
    } else if t == PRIVATE_TX@ || t == REBATE@ || t == WALLET_1@ || t == WALLET_3@ {
        CHECK_MARK@
    } else {
        Seq::empty()
    }
}

/// A label with its decoration in front.
pub open spec fn decorated(t: Seq<char>) -> Seq<char> {
    emoji_prefix(t) + t
}

/// Decorates a known label; any other text comes back unchanged.
pub fn add_emoji(text: &str) -> (r: String)
    ensures
        r@ == decorated(text@),
{
    let prefix: &str = if str_eq(text, MAIN_MENU) {
        HOME_MARK
    } else if str_eq(text, CLOSE) {
        CLOSE_MARK
    } else if str_eq(text, WALLET_2) {
        CHECK_MARK_TIGHT
    } else if str_eq(text, PRIVATE_TX) || str_eq(text, REBATE) || str_eq(text, WALLET_1)
        || str_eq(text, WALLET_3) {
        CHECK_MARK
    } else {
        ""
    };
    proof {
        reveal_strlit("");
    }
    String::from_str(prefix).concat(text)
}

/// Enough of each label's text to tell any two apart, and the decoration
/// that each gets.
pub proof fn lemma_label_text()
    ensures
        emoji_prefix(MAIN_MENU@) == HOME_MARK@,
        emoji_prefix(CLOSE@) == CLOSE_MARK@,
        emoji_prefix(PRIVATE_TX@) == CHECK_MARK@,
        emoji_prefix(REBATE@) == CHECK_MARK@,
        emoji_prefix(WALLET_1@) == CHECK_MARK@,
        emoji_prefix(WALLET_2@) == CHECK_MARK_TIGHT@,
        emoji_prefix(WALLET_3@) == CHECK_MARK@,
        BUY@.len() == 3,
        BUY@[0] == 'B',
        SELL@.len() == 4,
        SELL@[0] == 'S',
        LIMIT_BUY@.len() == 9,
        LIMIT_BUY@[0] == 'L',
        LIMIT_SELL@.len() == 10,
        LIMIT_SELL@[0] == 'L',
        MAIN_MENU@.len() == 9,
        MAIN_MENU@[0] == 'M',
        CLOSE@.len() == 5,
        CLOSE@[0] == 'C',
        PRIVATE_TX@.len() == 10,
        PRIVATE_TX@[0] == 'P',
        REBATE@.len() == 6,
        REBATE@[0] == 'R',
        SELECT_WALLET@.len() == 15,
        SELECT_WALLET@[0] == '=',
        WALLET_1@.len() == 8,
        WALLET_1@[0] == 'W',
        WALLET_2@.len() == 8,
        WALLET_2@[0] == 'W',
        WALLET_3@.len() == 8,
        WALLET_3@[0] == 'W',
        BUY_TOKEN@.len() == 9,
        BUY_TOKEN@[0] == 'B',
        RECEIVE_TOKEN@.len() == 13,
        RECEIVE_TOKEN@[0] == 'R',
        BUY_AMOUNT@.len() == 10,
        BUY_AMOUNT@[0] == 'B',
        ESTIMATED_RECEIVED_AMOUNT@.len() == 25,
        ESTIMATED_RECEIVED_AMOUNT@[0] == 'E',
        SEND_BUY_TX@.len() == 11,
        SEND_BUY_TX@[0] == 'S',
        SEND_SELL_TX@.len() == 12,
        SEND_SELL_TX@[0] == 'S',
        HOME_MARK@.len() == 2,
        HOME_MARK@[0] == '🏠',
        CLOSE_MARK@.len() == 2,
        CLOSE_MARK@[0] == '❌',
        CHECK_MARK@.len() == 2,
        CHECK_MARK@[0] == '✅',
        CHECK_MARK_TIGHT@.len() == 1,
        CHECK_MARK_TIGHT@[0] == '✅',
        WALLET_1@[7] == '1',
        WALLET_2@[7] == '2',
        WALLET_3@[7] == '3',
        SEND_BUY_TX@[5] == 'B',
        SEND_SELL_TX@[5] == 'S',
        BUY_TOKEN@[4] == 'T',
        BUY_AMOUNT@[4] == 'A',
        LIMIT_BUY@[6] == 'B',
        LIMIT_SELL@[6] == 'S',
        decorated(SEND_BUY_TX@) == SEND_BUY_TX@,
        decorated(SEND_SELL_TX@) == SEND_SELL_TX@,
        decorated(BUY_TOKEN@) == BUY_TOKEN@,
        decorated(RECEIVE_TOKEN@) == RECEIVE_TOKEN@,
        decorated(BUY_AMOUNT@) == BUY_AMOUNT@,
        decorated(ESTIMATED_RECEIVED_AMOUNT@) == ESTIMATED_RECEIVED_AMOUNT@,
        decorated(SELECT_WALLET@) == SELECT_WALLET@,
{
    reveal_strlit("Buy");
    reveal_strlit("Sell");
    reveal_strlit("Limit Buy");
    reveal_strlit("Limit Sell");
    reveal_strlit("Main Menu");
    reveal_strlit("Close");
    reveal_strlit("Private Tx");
    reveal_strlit("Rebate");
    reveal_strlit("=Select Wallet=");
    reveal_strlit("Wallet 1");
    reveal_strlit("Wallet 2");
    reveal_strlit("Wallet 3");
    reveal_strlit("Buy Token");
    reveal_strlit("Receive Token");
    reveal_strlit("Buy Amount");
    reveal_strlit("Estimated Received Amount");
    reveal_strlit("Send Buy Tx");
    reveal_strlit("Send Sell Tx");
    reveal_strlit("🏠 ");
    reveal_strlit("❌ ");
    reveal_strlit("✅ ");
    reveal_strlit("✅");
    assert(BUY@.len() == 3);
    assert(SELL@.len() == 4);
    assert(LIMIT_BUY@.len() == 9);
    assert(LIMIT_SELL@.len() == 10);
    assert(MAIN_MENU@.len() == 9);
    assert(CLOSE@.len() == 5);
    assert(PRIVATE_TX@.len() == 10);
    assert(REBATE@.len() == 6);
    assert(SELECT_WALLET@.len() == 15);
    assert(WALLET_1@.len() == 8);
    assert(WALLET_2@.len() == 8);
    assert(WALLET_3@.len() == 8);
    assert(BUY_TOKEN@.len() == 9);
    assert(RECEIVE_TOKEN@.len() == 13);
    assert(BUY_AMOUNT@.len() == 10);
    assert(ESTIMATED_RECEIVED_AMOUNT@.len() == 25);
    assert(SEND_BUY_TX@.len() == 11);
    assert(SEND_SELL_TX@.len() == 12);
    assert(HOME_MARK@.len() == 2);
    assert(CLOSE_MARK@.len() == 2);
    assert(CHECK_MARK@.len() == 2);
    assert(CHECK_MARK_TIGHT@.len() == 1);
    assert(BUY@[0] == 'B');
    assert(SELL@[0] == 'S');
    assert(LIMIT_BUY@[0] == 'L');
    assert(LIMIT_SELL@[0] == 'L');
    assert(MAIN_MENU@[0] == 'M');
    assert(CLOSE@[0] == 'C');
    assert(PRIVATE_TX@[0] == 'P');
    assert(REBATE@[0] == 'R');
    assert(SELECT_WALLET@[0] == '=');
    assert(WALLET_1@[0] == 'W');
    assert(WALLET_2@[0] == 'W');
    assert(WALLET_3@[0] == 'W');
    assert(BUY_TOKEN@[0] == 'B');
    assert(RECEIVE_TOKEN@[0] == 'R');
    assert(BUY_AMOUNT@[0] == 'B');
    assert(ESTIMATED_RECEIVED_AMOUNT@[0] == 'E');
    assert(SEND_BUY_TX@[0] == 'S');
    assert(SEND_SELL_TX@[0] == 'S');
    assert(HOME_MARK@[0] == '🏠');
    assert(CLOSE_MARK@[0] == '❌');
    assert(CHECK_MARK@[0] == '✅');
    assert(CHECK_MARK_TIGHT@[0] == '✅');
    assert(WALLET_1@[7] == '1');
    assert(WALLET_2@[7] == '2');
    assert(WALLET_3@[7] == '3');
    assert(SEND_BUY_TX@[5] == 'B');
    assert(SEND_SELL_TX@[5] == 'S');
    assert(BUY_TOKEN@[4] == 'T');
    assert(BUY_AMOUNT@[4] == 'A');
    assert(LIMIT_BUY@[6] == 'B');
    assert(LIMIT_SELL@[6] == 'S');
    assert(SEND_BUY_TX@ + Seq::<char>::empty() =~= SEND_BUY_TX@);
    assert(SEND_SELL_TX@ + Seq::<char>::empty() =~= SEND_SELL_TX@);
    assert(BUY_TOKEN@ + Seq::<char>::empty() =~= BUY_TOKEN@);
    assert(RECEIVE_TOKEN@ + Seq::<char>::empty() =~= RECEIVE_TOKEN@);
    assert(BUY_AMOUNT@ + Seq::<char>::empty() =~= BUY_AMOUNT@);
    assert(ESTIMATED_RECEIVED_AMOUNT@ + Seq::<char>::empty() =~= ESTIMATED_RECEIVED_AMOUNT@);
    assert(SELECT_WALLET@ + Seq::<char>::empty() =~= SELECT_WALLET@);
}

} // verus!

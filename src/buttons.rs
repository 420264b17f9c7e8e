//! What a pressed button of the buy menu means, read from its text.

use vstd::prelude::*;

use crate::labels::{
    add_emoji, decorated, lemma_label_text, BUY_AMOUNT, BUY_TOKEN, CLOSE, ESTIMATED_RECEIVED_AMOUNT,
    MAIN_MENU, PRIVATE_TX, REBATE, RECEIVE_TOKEN, SEND_BUY_TX, SEND_SELL_TX, WALLET_1, WALLET_2,
    WALLET_3,
};
use crate::text::str_eq;

verus! {

/// The buttons of the buy menu, without the text they were read from.
#[derive(Clone, Copy, Debug, PartialEq, Eq, Structural)]
pub enum ButtonIdentity {
    SendBuyTx,
    SendSellTx,
    MainMenu,
    Close,
    PrivateTx,
    Rebate,
    Wallet1,
    Wallet2,
    Wallet3,
    BuyToken,
    ReceiveToken,
    BuyAmount,
    EstimatedReceivedAmount,
}

impl ButtonIdentity {
    /// The on/off buttons, whose decoration shows their state.
    pub open spec fn is_switch(self) -> bool {
        self is PrivateTx || self is Rebate || self is Wallet1 || self is Wallet2 || self is Wallet3
    }

    /// The undecorated label of a switch.
    pub open spec fn label(self) -> Seq<char> {
        match self {
            ButtonIdentity::PrivateTx => PRIVATE_TX@,
            ButtonIdentity::Rebate => REBATE@,
            ButtonIdentity::Wallet1 => WALLET_1@,
            ButtonIdentity::Wallet2 => WALLET_2@,
            ButtonIdentity::Wallet3 => WALLET_3@,
            _ => Seq::empty(),
        }
    }

    /// The name of the button, as its debug form prints it.
    pub open spec fn tag(self) -> Seq<char> {
        match self {
            ButtonIdentity::SendBuyTx => "SendBuyTx"@,
            ButtonIdentity::SendSellTx => "SendSellTx"@,
            ButtonIdentity::MainMenu => "MainMenu"@,
            ButtonIdentity::Close => "Close"@,
            ButtonIdentity::PrivateTx => "PrivateTx"@,
            ButtonIdentity::Rebate => "Rebate"@,
            ButtonIdentity::Wallet1 => "Wallet1"@,
            ButtonIdentity::Wallet2 => "Wallet2"@,
            ButtonIdentity::Wallet3 => "Wallet3"@,
            ButtonIdentity::BuyToken => "BuyToken"@,
            ButtonIdentity::ReceiveToken => "ReceiveToken"@,
            ButtonIdentity::BuyAmount => "BuyAmount"@,
            ButtonIdentity::EstimatedReceivedAmount => "EstimatedReceivedAmount"@,
        }
    }
}

/// `t` is the label `l`, with or without its decoration.
pub open spec fn is_label(t: Seq<char>, l: Seq<char>) -> bool {
    t == l || t == decorated(l)
}

/// Which button a text names. The token buttons match only undecorated, and
/// text that names no button reads as `SendSellTx`.
pub open spec fn identity_of(t: Seq<char>) -> ButtonIdentity {
    if is_label(t, SEND_BUY_TX@) {
        ButtonIdentity::SendBuyTx
    } else if is_label(t, SEND_SELL_TX@) {
        ButtonIdentity::SendSellTx
    } else if is_label(t, MAIN_MENU@) {
        ButtonIdentity::MainMenu
    } else if is_label(t, CLOSE@) {
        ButtonIdentity::Close
    } else if is_label(t, PRIVATE_TX@) {
        ButtonIdentity::PrivateTx
    } else if is_label(t, REBATE@) {
        ButtonIdentity::Rebate
    } else if is_label(t, WALLET_1@) {
        ButtonIdentity::Wallet1
    } else if is_label(t, WALLET_2@) {
        ButtonIdentity::Wallet2
    } else if is_label(t, WALLET_3@) {
        ButtonIdentity::Wallet3
    } else if t == BUY_TOKEN@ {
        ButtonIdentity::BuyToken
    } else if t == RECEIVE_TOKEN@ {
        ButtonIdentity::ReceiveToken
    } else if t == BUY_AMOUNT@ {
        ButtonIdentity::BuyAmount
    } else if t == ESTIMATED_RECEIVED_AMOUNT@ {
        ButtonIdentity::EstimatedReceivedAmount
    } else {
        ButtonIdentity::SendSellTx
    }
}

/// The other state of a switch: the label decorated when `current` is the
/// bare label, and the bare label otherwise.
pub open spec fn toggled(label: Seq<char>, current: Seq<char>) -> Seq<char> {
    if current == label {
        decorated(label)
    } else {
        label
    }
}

/// What `BuyButtons::new(t).toggle()` returns.
pub open spec fn toggle_of(t: Seq<char>) -> Seq<char> {
    if identity_of(t).is_switch() {
        toggled(identity_of(t).label(), t)
    } else {
        identity_of(t).tag()
    }
}

/// A pressed button of the buy menu. The switches keep the text they were
/// read from, which tells their current state.
#[derive(Debug, Clone)]
pub enum BuyButtons<'a> {
    SendBuyTx,
    SendSellTx,
    MainMenu,
    Close,
    PrivateTx(&'a str),
    Rebate(&'a str),
    Wallet1(&'a str),
    Wallet2(&'a str),
    Wallet3(&'a str),
    BuyToken,
    ReceiveToken,
    BuyAmount,
    EstimatedReceivedAmount,
}

fn matches_label(text: &str, label: &str) -> (r: bool)
    ensures
        r == is_label(text@, label@),
{
    if str_eq(text, label) {
        return true;
    }
    let d = add_emoji(label);
    str_eq(text, d.as_str())
}

impl<'a> BuyButtons<'a> {
    pub open spec fn identity(&self) -> ButtonIdentity {
        match *self {
            BuyButtons::SendBuyTx => ButtonIdentity::SendBuyTx,
            BuyButtons::SendSellTx => ButtonIdentity::SendSellTx,
            BuyButtons::MainMenu => ButtonIdentity::MainMenu,
            BuyButtons::Close => ButtonIdentity::Close,
            BuyButtons::PrivateTx(_) => ButtonIdentity::PrivateTx,
            BuyButtons::Rebate(_) => ButtonIdentity::Rebate,
            BuyButtons::Wallet1(_) => ButtonIdentity::Wallet1,
            BuyButtons::Wallet2(_) => ButtonIdentity::Wallet2,
            BuyButtons::Wallet3(_) => ButtonIdentity::Wallet3,
            BuyButtons::BuyToken => ButtonIdentity::BuyToken,
            BuyButtons::ReceiveToken => ButtonIdentity::ReceiveToken,
            BuyButtons::BuyAmount => ButtonIdentity::BuyAmount,
            BuyButtons::EstimatedReceivedAmount => ButtonIdentity::EstimatedReceivedAmount,
        }
    }

    /// The text a switch was read from; empty for the other buttons.
    pub open spec fn shown(&self) -> Seq<char> {
        match *self {
            BuyButtons::PrivateTx(t) => t@,
            BuyButtons::Rebate(t) => t@,
            BuyButtons::Wallet1(t) => t@,
            BuyButtons::Wallet2(t) => t@,
            BuyButtons::Wallet3(t) => t@,
            _ => Seq::empty(),
        }
    }

    /// What `toggle` returns for this button.
    pub open spec fn toggle_spec(&self) -> Seq<char> {
        if self.identity().is_switch() {
            toggled(self.identity().label(), self.shown())
        } else {
            self.identity().tag()
        }
    }

    /// Reads a button from its text.
    pub fn new(text: &'a str) -> (r: Self)
        ensures
            r.identity() == identity_of(text@),
            r.identity().is_switch() ==> r.shown() == text@,
    {
        if matches_label(text, SEND_BUY_TX) {
            BuyButtons::SendBuyTx
        } else if matches_label(text, SEND_SELL_TX) {
            BuyButtons::SendSellTx
        } else if matches_label(text, MAIN_MENU) {
            BuyButtons::MainMenu
        } else if matches_label(text, CLOSE) {
            BuyButtons::Close
        } else if matches_label(text, PRIVATE_TX) {
            BuyButtons::PrivateTx(text)
        } else if matches_label(text, REBATE) {
            BuyButtons::Rebate(text)
        } else if matches_label(text, WALLET_1) {
            BuyButtons::Wallet1(text)
        } else if matches_label(text, WALLET_2) {
            BuyButtons::Wallet2(text)
        } else if matches_label(text, WALLET_3) {
            BuyButtons::Wallet3(text)
        } else if str_eq(text, BUY_TOKEN) {
            BuyButtons::BuyToken
        } else if str_eq(text, RECEIVE_TOKEN) {
            BuyButtons::ReceiveToken
        } else if str_eq(text, BUY_AMOUNT) {
            BuyButtons::BuyAmount
        } else if str_eq(text, ESTIMATED_RECEIVED_AMOUNT) {
            BuyButtons::EstimatedReceivedAmount
        } else {
            BuyButtons::SendSellTx
        }
    }

    /// The text of a switch in its other state; the button's name for the
    /// buttons that are not switches.
    pub fn toggle(&self) -> (r: String)
        ensures
            r@ == self.toggle_spec(),
    {
        match self {
            BuyButtons::PrivateTx(text) => self.toggle_text(text, PRIVATE_TX),
            BuyButtons::Rebate(text) => self.toggle_text(text, REBATE),
            BuyButtons::Wallet1(text) => self.toggle_text(text, WALLET_1),
            BuyButtons::Wallet2(text) => self.toggle_text(text, WALLET_2),
            BuyButtons::Wallet3(text) => self.toggle_text(text, WALLET_3),
            BuyButtons::SendBuyTx => String::from_str("SendBuyTx"),
            BuyButtons::SendSellTx => String::from_str("SendSellTx"),
            BuyButtons::MainMenu => String::from_str("MainMenu"),
            BuyButtons::Close => String::from_str("Close"),
            BuyButtons::BuyToken => String::from_str("BuyToken"),
            BuyButtons::ReceiveToken => String::from_str("ReceiveToken"),
            BuyButtons::BuyAmount => String::from_str("BuyAmount"),
            BuyButtons::EstimatedReceivedAmount => String::from_str("EstimatedReceivedAmount"),
        }
    }

    /// `default` decorated when `current` is the bare `default`, else the
    /// bare `default`.
    pub fn toggle_text(&self, current: &str, default: &str) -> (r: String)
        ensures
            r@ == toggled(default@, current@),
    {
        if str_eq(current, default) {
            add_emoji(default)
        } else {
            String::from_str(default)
        }
    }
}

/// The text that a button read from `text` toggles to.
pub fn toggle_label(text: &str) -> (r: String)
    ensures
        r@ == toggle_of(text@),
{
    BuyButtons::new(text).toggle()
}

/// Toggling a switch's text gives text that reads as the same switch in its
/// other state, and toggling it again gives the text it started from.
pub proof fn lemma_toggle_round_trip(t: Seq<char>)
    requires
        identity_of(t).is_switch(),
    ensures
        identity_of(toggled(identity_of(t).label(), t)) == identity_of(t),
        toggled(identity_of(t).label(), t) != t,
        toggled(identity_of(t).label(), toggled(identity_of(t).label(), t)) == t,
{
    lemma_label_text();
    let l = identity_of(t).label();
    assert(decorated(l)[0] == crate::labels::CHECK_MARK@[0]);
    assert(decorated(l).len() == l.len() + crate::labels::CHECK_MARK@.len() || l == WALLET_2@);
    if l == WALLET_1@ || l == WALLET_3@ {
        assert(decorated(l)[9] == l[7]);
    }
}

} // verus!

//! Button presses: which handler a press goes to, and the keyboards that
//! the option and wallet handlers put in place of the pressed one.

use vstd::prelude::*;

use crate::buttons::{identity_of, toggle_label, toggle_of, BuyButtons, ButtonIdentity};
use crate::dialogue::PromptKind;
use crate::keyboard::{
    replace_button, shows_selected, switch_button, wallet_label, Button, Keyboard, Layout,
};
use crate::labels::{decorated, lemma_label_text};
use crate::labels::{add_emoji, BUY, CLOSE, MAIN_MENU, SEND_BUY_TX, SEND_SELL_TX, WALLET_1, WALLET_2, WALLET_3};
use crate::text::str_eq;

verus! {

/// A message of the chat, as far as the handlers read it.
#[derive(Clone, Debug)]
pub struct ChatMessage {
    pub chat_id: i64,
    pub id: i32,
    /// The user name of whoever sent the message, if it has one.
    pub author: Option<String>,
    pub keyboard: Option<Keyboard>,
}

/// A button press: the callback value, and the message that carried the
/// keyboard.
#[derive(Clone, Debug)]
pub struct CallbackEvent {
    pub data: Option<String>,
    pub message: Option<ChatMessage>,
}

/// Malformed button presses, which are logged and dropped.
#[derive(Clone, Copy, Debug, PartialEq, Eq, Structural)]
pub enum RouteError {
    /// The press came from a keyboard that is not a known sub-menu.
    UnmatchedQuery,
    /// The press carried no callback value.
    NoQueryData,
    /// The press carried no message.
    NoQueryMessage,
}

/// The sub-menus, told apart by the last button of their keyboard.
#[derive(Clone, Copy, Debug, PartialEq, Eq, Structural)]
pub enum SubMenuType {
    SendBuyTx,
    SendSellTx,
}

/// Where a button press goes.
#[derive(Clone, Copy, Debug, PartialEq, Eq, Structural)]
pub enum Route {
    Buy,
    MainMenu,
    Close,
    SendTx,
    PrivateTx,
    Rebate,
    Wallet,
    Prompt(PromptKind),
    /// A press that needs no handling.
    Ignore,
}

pub open spec fn sub_menu_of(k: Layout) -> Option<SubMenuType> {
    if k.len() > 0 && k.last().len() > 0 {
        if k.last().last().0 == SEND_BUY_TX@ {
            Some(SubMenuType::SendBuyTx)
        } else if k.last().last().0 == SEND_SELL_TX@ {
            Some(SubMenuType::SendSellTx)
        } else {
            None
        }
    } else {
        None
    }
}

pub open spec fn message_layout(m: Option<ChatMessage>) -> Option<Layout> {
    match m {
        Some(msg) => match msg.keyboard {
            Some(k) => Some(k@),
            None => None,
        },
        None => None,
    }
}

/// Where a press of a button of the buy menu goes.
pub open spec fn buy_route(id: ButtonIdentity) -> Route {
    match id {
        ButtonIdentity::SendBuyTx => Route::SendTx,
        ButtonIdentity::PrivateTx => Route::PrivateTx,
        ButtonIdentity::Rebate => Route::Rebate,
        ButtonIdentity::Wallet1 => Route::Wallet,
        ButtonIdentity::Wallet2 => Route::Wallet,
        ButtonIdentity::Wallet3 => Route::Wallet,
        ButtonIdentity::BuyToken => Route::Prompt(PromptKind::BuyToken),
        ButtonIdentity::ReceiveToken => Route::Prompt(PromptKind::ReceiveToken),
        ButtonIdentity::BuyAmount => Route::Prompt(PromptKind::BuyAmount),
        _ => Route::Ignore,
    }
}

/// The top-level values first; any other press is read against the
/// sub-menu that its message's keyboard belongs to.
pub open spec fn route_of(data: Option<Seq<char>>, has_message: bool, k: Option<Layout>) -> Result<Route, RouteError> {
    match data {
        None => Err(RouteError::NoQueryData),
        Some(d) => if d == BUY@ {
            Ok(Route::Buy)
        } else if d == MAIN_MENU@ {
            Ok(Route::MainMenu)
        } else if d == CLOSE@ {
            Ok(Route::Close)
        } else if !has_message {
            Err(RouteError::NoQueryMessage)
        } else {
            match k {
                Some(layout) => match sub_menu_of(layout) {
                    Some(SubMenuType::SendBuyTx) => Ok(buy_route(identity_of(d))),
                    Some(SubMenuType::SendSellTx) => Ok(Route::Ignore),
                    None => Err(RouteError::UnmatchedQuery),
                },
                None => Err(RouteError::UnmatchedQuery),
            }
        },
    }
}

pub open spec fn opt_view(s: Option<String>) -> Option<Seq<char>> {
    match s {
        Some(t) => Some(t@),
        None => None,
    }
}

/// The sub-menu of a keyboard, by the text of its last button.
pub fn find_sub_menu_type(keyboard: &Keyboard) -> (r: Option<SubMenuType>)
    ensures
        r == sub_menu_of(keyboard@),
{
    match keyboard.last_button_text() {
        Some(t) => {
            if str_eq(t.as_str(), SEND_BUY_TX) {
                Some(SubMenuType::SendBuyTx)
            } else if str_eq(t.as_str(), SEND_SELL_TX) {
                Some(SubMenuType::SendSellTx)
            } else {
                None
            }
        },
        None => None,
    }
}

/// The keyboard of a message.
pub fn find_keyboard_from_message(msg: &ChatMessage) -> (r: Result<&Keyboard, RouteError>)
    ensures
        match r {
            Ok(k) => msg.keyboard == Some(*k),
            Err(e) => msg.keyboard is None && e == RouteError::UnmatchedQuery,
        },
{
    match &msg.keyboard {
        Some(k) => Ok(k),
        None => Err(RouteError::UnmatchedQuery),
    }
}

/// The keyboard of the message that a press came from.
pub fn find_keyboard_from_callback(q: &CallbackEvent) -> (r: Result<&Keyboard, RouteError>)
    ensures
        match r {
            Ok(k) => message_layout(q.message) == Some(k@),
            Err(e) => message_layout(q.message) is None && e == RouteError::UnmatchedQuery,
        },
{
    match &q.message {
        Some(msg) => find_keyboard_from_message(msg),
        None => Err(RouteError::UnmatchedQuery),
    }
}

/// The sub-menu of a message, by its keyboard.
pub fn find_sub_menu_type_from_message(msg: &ChatMessage) -> (r: Result<SubMenuType, RouteError>)
    ensures
        match r {
            Ok(t) => message_layout(Some(*msg)) is Some && sub_menu_of(
                message_layout(Some(*msg))->0,
            ) == Some(t),
            Err(e) => e == RouteError::UnmatchedQuery && (message_layout(Some(*msg)) is None
                || sub_menu_of(message_layout(Some(*msg))->0) is None),
        },
{
    let k = find_keyboard_from_message(msg)?;
    match find_sub_menu_type(k) {
        Some(t) => Ok(t),
        None => Err(RouteError::UnmatchedQuery),
    }
}

/// The sub-menu of the message that a press came from.
pub fn find_sub_menu_type_from_callback(q: &CallbackEvent) -> (r: Result<SubMenuType, RouteError>)
    ensures
        match r {
            Ok(t) => message_layout(q.message) is Some && sub_menu_of(message_layout(q.message)->0)
                == Some(t),
            Err(e) => e == RouteError::UnmatchedQuery && (message_layout(q.message) is None
                || sub_menu_of(message_layout(q.message)->0) is None),
        },
{
    let k = find_keyboard_from_callback(q)?;
    match find_sub_menu_type(k) {
        Some(t) => Ok(t),
        None => Err(RouteError::UnmatchedQuery),
    }
}

/// The sub-menu of the press's message, if it is a known one.
pub fn matching_sub_menu(q: &CallbackEvent) -> (r: Option<SubMenuType>)
    ensures
        r == (match message_layout(q.message) {
            Some(k) => sub_menu_of(k),
            None => None,
        }),
{
    match find_sub_menu_type_from_callback(q) {
        Ok(t) => Some(t),
        Err(_) => None,
    }
}

/// Decides which handler a button press goes to.
pub fn route_callback(q: &CallbackEvent) -> (r: Result<Route, RouteError>)
    ensures
        r == route_of(opt_view(q.data), q.message is Some, message_layout(q.message)),
{
    let action = match &q.data {
        Some(d) => d,
        None => return Err(RouteError::NoQueryData),
    };
    if str_eq(action.as_str(), BUY) {
        return Ok(Route::Buy);
    }
    if str_eq(action.as_str(), MAIN_MENU) {
        return Ok(Route::MainMenu);
    }
    if str_eq(action.as_str(), CLOSE) {
        return Ok(Route::Close);
    }
    if let None = &q.message {
        return Err(RouteError::NoQueryMessage);
    }
    match matching_sub_menu(q) {
        Some(SubMenuType::SendBuyTx) => {
            let route = match BuyButtons::new(action.as_str()) {
                BuyButtons::SendBuyTx => Route::SendTx,
                BuyButtons::PrivateTx(_) => Route::PrivateTx,
                BuyButtons::Rebate(_) => Route::Rebate,
                BuyButtons::Wallet1(_) => Route::Wallet,
                BuyButtons::Wallet2(_) => Route::Wallet,
                BuyButtons::Wallet3(_) => Route::Wallet,
                BuyButtons::BuyToken => Route::Prompt(PromptKind::BuyToken),
                BuyButtons::ReceiveToken => Route::Prompt(PromptKind::ReceiveToken),
                BuyButtons::BuyAmount => Route::Prompt(PromptKind::BuyAmount),
                _ => Route::Ignore,
            };
            Ok(route)
        },
        Some(SubMenuType::SendSellTx) => Ok(Route::Ignore),
        None => Err(RouteError::UnmatchedQuery),
    }
}

/// The row of the transaction options, and the row of the wallets.
pub const OPTIONS_ROW: usize = 1;
pub const WALLET_ROW: usize = 3;

/// The keyboard with the option at column `col` of the options row showing
/// the toggled text of the pressed button.
pub open spec fn toggled_option(k: Layout, data: Seq<char>, col: int) -> Layout {
    replace_button(k, OPTIONS_ROW as int, col, (toggle_of(data), toggle_of(data)))
}

fn toggle_option(keyboard: Keyboard, data: &str, col: usize) -> (r: Keyboard)
    ensures
        r@ == toggled_option(keyboard@, data@, col as int),
{
    let mut k = keyboard;
    let t = toggle_label(data);
    let b = Button::callback(t.clone(), t);
    k.set_button(OPTIONS_ROW, col, b);
    k
}

/// The private-transaction switch flipped: the first button of the options
/// row.
pub fn private_tx_keyboard(keyboard: Keyboard, data: &str) -> (r: Keyboard)
    ensures
        r@ == toggled_option(keyboard@, data@, 0),
{
    toggle_option(keyboard, data, 0)
}

/// The rebate switch flipped: the second button of the options row.
pub fn rebate_keyboard(keyboard: Keyboard, data: &str) -> (r: Keyboard)
    ensures
        r@ == toggled_option(keyboard@, data@, 1),
{
    toggle_option(keyboard, data, 1)
}

pub open spec fn wallet_index(id: ButtonIdentity) -> int {
    match id {
        ButtonIdentity::Wallet1 => 0,
        ButtonIdentity::Wallet2 => 1,
        _ => 2,
    }
}

/// The wallet row with wallet `w` selected and the other two not.
pub open spec fn selected_wallet(k: Layout, w: int) -> Layout {
    replace_button(
        replace_button(
            replace_button(k, WALLET_ROW as int, 0, switch_button(wallet_label(0), w == 0)),
            WALLET_ROW as int,
            1,
            switch_button(wallet_label(1), w == 1),
        ),
        WALLET_ROW as int,
        2,
        switch_button(wallet_label(2), w == 2),
    )
}

/// A wallet press keeps the selection single: on a keyboard whose wallet
/// row holds three buttons, afterwards exactly the pressed wallet shows as
/// selected, and the other two show their bare labels.
pub proof fn lemma_wallet_press_selects_one(k: Layout, w: int)
    requires
        k.len() > WALLET_ROW,
        k[WALLET_ROW as int].len() == 3,
        0 <= w < 3,
    ensures
        selected_wallet(k, w)[WALLET_ROW as int].len() == 3,
        forall|j: int|
            0 <= j < 3 ==> (shows_selected(#[trigger] selected_wallet(k, w)[WALLET_ROW as int], j)
                <==> j == w),
        forall|j: int|
            0 <= j < 3 && j != w ==> #[trigger] selected_wallet(k, w)[WALLET_ROW as int][j].0
                == wallet_label(j),
{
    lemma_label_text();
    assert(decorated(wallet_label(0)).len() == 10);
    assert(decorated(wallet_label(1)).len() == 9);
    assert(decorated(wallet_label(2)).len() == 10);
    let row = selected_wallet(k, w)[WALLET_ROW as int];
    assert(row[0] == switch_button(wallet_label(0), w == 0));
    assert(row[1] == switch_button(wallet_label(1), w == 1));
    assert(row[2] == switch_button(wallet_label(2), w == 2));
}

fn wallet_switch(label: &str, on: bool) -> (r: Button)
    ensures
        r@ == switch_button(label@, on),
{
    if on {
        Button::callback(add_emoji(label), add_emoji(label))
    } else {
        Button::labelled(label)
    }
}

/// Whether the keyboard has a wallet row of three buttons.
pub open spec fn has_wallet_row(k: Layout) -> bool {
    k.len() > WALLET_ROW && k[WALLET_ROW as int].len() == 3
}

/// The keyboard after a wallet button is pressed: that wallet becomes the
/// one selected. A keyboard without a wallet row of three buttons is left
/// as it is. `None` when the press is not a wallet's.
pub fn wallet_keyboard(keyboard: Keyboard, data: &str) -> (r: Option<Keyboard>)
    ensures
        match r {
            Some(k) => (identity_of(data@) is Wallet1 || identity_of(data@) is Wallet2
                || identity_of(data@) is Wallet3) && k@ == if has_wallet_row(keyboard@) {
                selected_wallet(keyboard@, wallet_index(identity_of(data@)))
            } else {
                keyboard@
            },
            None => !(identity_of(data@) is Wallet1 || identity_of(data@) is Wallet2
                || identity_of(data@) is Wallet3),
        },
{
    let index: usize = match BuyButtons::new(data) {
        BuyButtons::Wallet1(_) => 0,
        BuyButtons::Wallet2(_) => 1,
        BuyButtons::Wallet3(_) => 2,
        _ => return None,
    };
    let mut k = keyboard;
    if !(k.rows.len() > WALLET_ROW && k.rows[WALLET_ROW].len() == 3) {
        return Some(k);
    }
    k.set_button(WALLET_ROW, 0, wallet_switch(WALLET_1, index == 0));
    k.set_button(WALLET_ROW, 1, wallet_switch(WALLET_2, index == 1));
    k.set_button(WALLET_ROW, 2, wallet_switch(WALLET_3, index == 2));
    Some(k)
}

/// How many messages below a newly sent menu are cleared away.
pub const PREVIOUS_MESSAGES_TO_DELETE: i32 = 20;

/// The ids of the `number_of_deletes` messages from `last_message_id`
/// down, newest first.
pub fn delete_previous_ids(last_message_id: i32, number_of_deletes: i32) -> (r: Vec<i32>)
    requires
        last_message_id - number_of_deletes + 1 >= i32::MIN,
    ensures
        r@.len() == if number_of_deletes >= 0 {
            number_of_deletes as int
        } else {
            0
        },
        forall|i: int| 0 <= i < r@.len() ==> #[trigger] r@[i] == last_message_id - i,
{
    let mut r: Vec<i32> = Vec::new();
    let mut k: i64 = 0;
    while k < number_of_deletes as i64
        invariant
            0 <= k,
            number_of_deletes >= 0 ==> k <= number_of_deletes,
            number_of_deletes < 0 ==> k == 0,
            last_message_id - number_of_deletes + 1 >= i32::MIN,
            r@.len() == k,
            forall|i: int| 0 <= i < r@.len() ==> #[trigger] r@[i] == last_message_id - i,
        decreases number_of_deletes - k,
    {
        r.push((last_message_id as i64 - k) as i32);
        k += 1;
    }
    r
}

/// The ids from `start` down to just above `end`, newest first: the
/// messages that came after `end`.
pub fn delete_up_to_ids(start: i32, end: i32) -> (r: Vec<i32>)
    ensures
        r@.len() == if start > end {
            start - end
        } else {
            0
        },
        forall|i: int| 0 <= i < r@.len() ==> #[trigger] r@[i] == start - i,
{
    let mut r: Vec<i32> = Vec::new();
    let mut id: i32 = start;
    while id > end
        invariant
            start > end ==> end <= id <= start,
            start <= end ==> id == start,
            r@.len() == start - id,
            forall|i: int| 0 <= i < r@.len() ==> #[trigger] r@[i] == start - i,
        decreases id - end,
    {
        r.push(id);
        id = id - 1;
    }
    r
}

} // verus!

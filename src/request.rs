//! The buy order that a filled-in buy menu describes.

use vstd::prelude::*;

use crate::keyboard::{Keyboard, Layout};
use crate::labels::{PRIVATE_TX, REBATE, WALLET_1, WALLET_2, WALLET_3};
use crate::text::{float_literal, is_numeric, str_eq};

verus! {

/// A buy order read off the buy menu's keyboard.
#[derive(Clone, Debug)]
pub struct SendBuyTxRequest {
    /// The text of the selected wallet's button.
    pub wallet: String,
    pub private_tx: bool,
    pub rebate: bool,
    /// The address of the token to buy.
    pub buy: String,
    /// The address of the token to receive.
    pub receive: String,
    /// The amount to buy, as typed; it reads as a number.
    pub buy_amount: String,
}

/// Why a keyboard does not describe a buy order.
#[derive(Clone, Copy, Debug, PartialEq, Eq, Structural)]
pub enum RequestError {
    /// No wallet button shows as selected.
    NoWallet,
    /// The keyboard lacks a button that the order is read from.
    MissingButton,
    /// A token button holds no address.
    NoTokenAddress,
    /// The amount button holds no amount.
    NoAmount,
    /// The amount is not a number.
    InvalidAmount,
}

/// (wallet, private tx, rebate, buy, receive, amount)
pub type RequestView = (Seq<char>, bool, bool, Seq<char>, Seq<char>, Seq<char>);

impl View for SendBuyTxRequest {
    type V = RequestView;

    open spec fn view(&self) -> RequestView {
        (self.wallet@, self.private_tx, self.rebate, self.buy@, self.receive@, self.buy_amount@)
    }
}

pub open spec fn is_plain_wallet(t: Seq<char>) -> bool {
    t == WALLET_1@ || t == WALLET_2@ || t == WALLET_3@
}

/// The text of the first button at or after `from` that is not a bare
/// wallet label.
pub open spec fn first_selected(row: Seq<(Seq<char>, Seq<char>)>, from: int) -> Option<Seq<char>>
    decreases row.len() - from,
{
    if from < 0 || from >= row.len() {
        None
    } else if !is_plain_wallet(row[from].0) {
        Some(row[from].0)
    } else {
        first_selected(row, from + 1)
    }
}

/// The first index at or after `from` where ": " starts, or -1.
pub open spec fn find_sep(s: Seq<char>, from: int) -> int
    decreases s.len() - from,
{
    if from < 0 || from + 1 >= s.len() {
        -1
    } else if s[from] == ':' && s[from + 1] == ' ' {
        from
    } else {
        find_sep(s, from + 1)
    }
}

/// The second piece of `s` split at ": ", if there is one.
pub open spec fn second_field(s: Seq<char>) -> Option<Seq<char>> {
    let i = find_sep(s, 0);
    if i < 0 {
        None
    } else {
        let j = find_sep(s, i + 2);
        Some(s.subrange(i + 2, if j < 0 { s.len() as int } else { j }))
    }
}

pub open spec fn has_button(k: Layout, row: int, col: int) -> bool {
    0 <= row < k.len() && 0 <= col < k[row].len()
}

pub open spec fn text_at(k: Layout, row: int, col: int) -> Seq<char> {
    k[row][col].0
}

/// The order that a buy menu describes: the first wallet that shows as
/// selected, the two switches (on unless bare), and the second pieces of
/// the token and amount buttons.
pub open spec fn request_of(k: Layout) -> Result<RequestView, RequestError> {
    let wallet = if k.len() > 3 {
        first_selected(k[3], 0)
    } else {
        None
    };
    if wallet is None {
        Err(RequestError::NoWallet)
    } else if !(has_button(k, 1, 0) && has_button(k, 1, 1) && has_button(k, 4, 0) && has_button(
        k,
        4,
        1,
    ) && has_button(k, 5, 0)) {
        Err(RequestError::MissingButton)
    } else if second_field(text_at(k, 4, 0)) is None || second_field(text_at(k, 4, 1)) is None {
        Err(RequestError::NoTokenAddress)
    } else if second_field(text_at(k, 5, 0)) is None {
        Err(RequestError::NoAmount)
    } else if !float_literal(second_field(text_at(k, 5, 0))->0) {
        Err(RequestError::InvalidAmount)
    } else {
        Ok(
            (
                wallet->0,
                text_at(k, 1, 0) != PRIVATE_TX@,
                text_at(k, 1, 1) != REBATE@,
                second_field(text_at(k, 4, 0))->0,
                second_field(text_at(k, 4, 1))->0,
                second_field(text_at(k, 5, 0))->0,
            ),
        )
    }
}

fn find_separator(s: &str, from: usize) -> (r: Option<usize>)
    requires
        from <= s@.len(),
    ensures
        match r {
            Some(i) => find_sep(s@, from as int) == i as int && from <= i && i + 2 <= s@.len(),
            None => find_sep(s@, from as int) < 0,
        },
{
    let n = s.unicode_len();
    let mut i: usize = from;
    while n - i > 1
        invariant
            n == s@.len(),
            from <= i <= n,
            find_sep(s@, from as int) == find_sep(s@, i as int),
        decreases n - i,
    {
        if s.get_char(i) == ':' && s.get_char(i + 1) == ' ' {
            return Some(i);
        }
        i += 1;
    }
    None
}

/// The second piece of `s` split at ": ", if there is one.
pub fn second_piece(s: &str) -> (r: Option<String>)
    ensures
        match r {
            Some(t) => second_field(s@) == Some(t@),
            None => second_field(s@) is None,
        },
{
    let n = s.unicode_len();
    let i = match find_separator(s, 0) {
        Some(i) => i,
        None => return None,
    };
    let end = match find_separator(s, i + 2) {
        Some(j) => j,
        None => n,
    };
    Some(String::from_str(s.substring_char(i + 2, end)))
}

fn selected_wallet(row: &Vec<crate::keyboard::Button>) -> (r: Option<String>)
    ensures
        match r {
            Some(t) => first_selected(crate::keyboard::row_view(row@), 0) == Some(t@),
            None => first_selected(crate::keyboard::row_view(row@), 0) is None,
        },
{
    let ghost v = crate::keyboard::row_view(row@);
    let mut i: usize = 0;
    while i < row.len()
        invariant
            i <= row@.len(),
            v == crate::keyboard::row_view(row@),
            first_selected(v, 0) == first_selected(v, i as int),
        decreases row@.len() - i,
    {
        let t = row[i].text.as_str();
        if !(str_eq(t, WALLET_1) || str_eq(t, WALLET_2) || str_eq(t, WALLET_3)) {
            return Some(row[i].text.clone());
        }
        i += 1;
    }
    None
}

impl SendBuyTxRequest {
    /// Reads the order off a buy menu keyboard.
    pub fn new(keyboard: &Keyboard) -> (r: Result<SendBuyTxRequest, RequestError>)
        ensures
            match r {
                Ok(req) => request_of(keyboard@) == Ok::<RequestView, RequestError>(req@),
                Err(e) => request_of(keyboard@) == Err::<RequestView, RequestError>(e),
            },
    {
        let rows = &keyboard.rows;
        let wallet = if rows.len() > 3 {
            selected_wallet(&rows[3])
        } else {
            None
        };
        let wallet = match wallet {
            Some(w) => w,
            None => return Err(RequestError::NoWallet),
        };
        if !(rows.len() > 5 && rows[1].len() > 1 && rows[4].len() > 1 && rows[5].len() > 0) {
            return Err(RequestError::MissingButton);
        }
        let private_tx = !str_eq(rows[1][0].text.as_str(), PRIVATE_TX);
        let rebate = !str_eq(rows[1][1].text.as_str(), REBATE);
        let buy = second_piece(rows[4][0].text.as_str());
        let receive = second_piece(rows[4][1].text.as_str());
        let (buy, receive) = match (buy, receive) {
            (Some(b), Some(r)) => (b, r),
            _ => return Err(RequestError::NoTokenAddress),
        };
        let buy_amount = match second_piece(rows[5][0].text.as_str()) {
            Some(a) => a,
            None => return Err(RequestError::NoAmount),
        };
        if !is_numeric(buy_amount.as_str()) {
            return Err(RequestError::InvalidAmount);
        }
        Ok(SendBuyTxRequest { wallet, private_tx, rebate, buy, receive, buy_amount })
    }
}

} // verus!

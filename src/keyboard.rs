//! Inline keyboards: rows of buttons, each with the text shown and the
//! callback value sent back when it is pressed.

use vstd::prelude::*;

use crate::labels::{
    add_emoji, decorated, lemma_label_text, BUY, BUY_AMOUNT, BUY_TOKEN, CLOSE, ESTIMATED_RECEIVED_AMOUNT,
    LIMIT_BUY, LIMIT_SELL, MAIN_MENU, PRIVATE_TX, REBATE, RECEIVE_TOKEN, SELECT_WALLET, SELL,
    SEND_BUY_TX, WALLET_1, WALLET_2, WALLET_3,
};

verus! {

/// A button as (shown text, callback value).
pub type ButtonView = (Seq<char>, Seq<char>);

/// A keyboard as its rows of buttons.
pub type Layout = Seq<Seq<ButtonView>>;

#[derive(Clone, Debug)]
pub struct Button {
    pub text: String,
    pub callback: String,
}

impl View for Button {
    type V = ButtonView;

    open spec fn view(&self) -> ButtonView {
        (self.text@, self.callback@)
    }
}

pub open spec fn row_view(row: Seq<Button>) -> Seq<ButtonView> {
    row.map_values(|b: Button| b@)
}

#[derive(Clone, Debug)]
pub struct Keyboard {
    pub rows: Vec<Vec<Button>>,
}

impl View for Keyboard {
    type V = Layout;

    open spec fn view(&self) -> Layout {
        self.rows@.map_values(|r: Vec<Button>| row_view(r@))
    }
}

/// `k` with the button at (`row`, `col`) replaced by `b`, where there is one.
pub open spec fn replace_button(k: Layout, row: int, col: int, b: ButtonView) -> Layout {
    if 0 <= row < k.len() && 0 <= col < k[row].len() {
        k.update(row, k[row].update(col, b))
    } else {
        k
    }
}

impl Button {
    /// A button that sends `callback` when pressed.
    pub fn callback(text: String, callback: String) -> (r: Button)
        ensures
            r@ == (text@, callback@),
    {
        Button { text, callback }
    }

    /// A button whose callback value is its own text.
    pub fn labelled(label: &str) -> (r: Button)
        ensures
            r@ == (label@, label@),
    {
        Button { text: String::from_str(label), callback: String::from_str(label) }
    }

    pub fn duplicate(&self) -> (r: Button)
        ensures
            r@ == self@,
    {
        Button { text: self.text.clone(), callback: self.callback.clone() }
    }
}

impl Keyboard {
    pub fn new() -> (r: Keyboard)
        ensures
            r@ == Seq::<Seq<ButtonView>>::empty(),
    {
        let r = Keyboard { rows: Vec::new() };
        assert(r@ =~= Seq::<Seq<ButtonView>>::empty());
        r
    }

    pub fn append_row(&mut self, row: Vec<Button>)
        ensures
            final(self)@ == old(self)@.push(row_view(row@)),
    {
        self.rows.push(row);
        assert(self@ =~= old(self)@.push(row_view(row@)));
    }

    /// A copy of the keyboard, button by button.
    pub fn duplicate(&self) -> (r: Keyboard)
        ensures
            r@ == self@,
    {
        let mut rows: Vec<Vec<Button>> = Vec::new();
        let mut i: usize = 0;
        while i < self.rows.len()
            invariant
                i <= self.rows@.len(),
                rows@.len() == i,
                forall|k: int| 0 <= k < i ==> row_view(#[trigger] rows@[k]@) == self@[k],
            decreases self.rows@.len() - i,
        {
            let src = &self.rows[i];
            let mut row: Vec<Button> = Vec::new();
            let mut j: usize = 0;
            while j < src.len()
                invariant
                    j <= src@.len(),
                    row@.len() == j,
                    forall|k: int| 0 <= k < j ==> (#[trigger] row@[k])@ == src@[k]@,
                decreases src@.len() - j,
            {
                row.push(src[j].duplicate());
                j += 1;
            }
            assert(row_view(row@) =~= row_view(src@));
            rows.push(row);
            i += 1;
        }
        let r = Keyboard { rows };
        assert(r@ =~= self@);
        r
    }

    /// Replaces the button at (`row`, `col`); a position off the keyboard
    /// leaves it unchanged.
    pub fn set_button(&mut self, row: usize, col: usize, b: Button)
        ensures
            final(self)@ == replace_button(old(self)@, row as int, col as int, b@),
    {
        if row < self.rows.len() && col < self.rows[row].len() {
            let mut r = self.rows.remove(row);
            let ghost before = r@;
            r.set(col, b);
            assert(row_view(r@) =~= row_view(before).update(col as int, b@));
            self.rows.insert(row, r);
            assert(self@ =~= replace_button(old(self)@, row as int, col as int, b@));
        }
    }

    /// The text of the last button of the last row.
    pub fn last_button_text(&self) -> (r: Option<&String>)
        ensures
            match r {
                Some(t) => self@.len() > 0 && self@.last().len() > 0 && t@ == self@.last().last().0,
                None => self@.len() == 0 || self@.last().len() == 0,
            },
    {
        let n = self.rows.len();
        if n == 0 {
            return None;
        }
        let last = &self.rows[n - 1];
        let m = last.len();
        if m == 0 {
            return None;
        }
        Some(&last[m - 1].text)
    }
}

/// The rows that `create_keyboard` makes: the labels in order, three to a
/// row, each button sending its own label.
pub open spec fn chunk_layout(labels: Seq<Seq<char>>) -> Layout {
    Seq::new(
        ((labels.len() + 2) / 3) as nat,
        |i: int|
            Seq::new(
                if labels.len() - 3 * i < 3 {
                    (labels.len() - 3 * i) as nat
                } else {
                    3nat
                },
                |j: int| (labels[3 * i + j], labels[3 * i + j]),
            ),
    )
}

pub open spec fn str_views(actions: Seq<&str>) -> Seq<Seq<char>> {
    actions.map_values(|a: &str| a@)
}

/// Lays the actions out three to a row.
pub fn create_keyboard(actions: Vec<&str>) -> (r: Keyboard)
    ensures
        r@ == chunk_layout(str_views(actions@)),
{
    let ghost labels = str_views(actions@);
    let n = actions.len();
    let mut kb = Keyboard::new();
    let mut start: usize = 0;
    while start < n
        invariant
            n == actions@.len(),
            labels == str_views(actions@),
            start == 3 * kb@.len(),
            start <= n + 2,
            forall|i: int| 0 <= i < kb@.len() ==> #[trigger] kb@[i] == chunk_layout(labels)[i],
            kb@.len() <= (n + 2) / 3,
        decreases n + 3 - start,
    {
        let end: usize = if n - start < 3 {
            n
        } else {
            start + 3
        };
        let mut row: Vec<Button> = Vec::new();
        let mut j: usize = start;
        while j < end
            invariant
                start <= j <= end,
                end <= n,
                n == actions@.len(),
                labels == str_views(actions@),
                row@.len() == j - start,
                forall|k: int|
                    0 <= k < j - start ==> (#[trigger] row@[k])@ == (
                        labels[start + k],
                        labels[start + k],
                    ),
            decreases end - j,
        {
            row.push(Button::labelled(actions[j]));
            j += 1;
        }
        let ghost i = kb@.len() as int;
        assert(row_view(row@) =~= chunk_layout(labels)[i]);
        kb.append_row(row);
        start = start + 3;
    }
    assert(kb@ =~= chunk_layout(labels));
    kb
}

pub fn menu_keyboard() -> (r: Keyboard)
    ensures
        r@ == chunk_layout(seq![BUY@, SELL@, LIMIT_BUY@, LIMIT_SELL@]),
{
    let actions: Vec<&str> = vec![BUY, SELL, LIMIT_BUY, LIMIT_SELL];
    assert(str_views(actions@) =~= seq![BUY@, SELL@, LIMIT_BUY@, LIMIT_SELL@]);
    create_keyboard(actions)
}

pub const BTC: &'static str = "BTC";
pub const ETH: &'static str = "ETH";
pub const LTC: &'static str = "LTC";
pub const BCH: &'static str = "BCH";

/// The coins offered by the sell and limit menus, then the way back.
pub open spec fn coin_actions() -> Seq<Seq<char>> {
    seq![BTC@, ETH@, LTC@, BCH@, MAIN_MENU@, CLOSE@]
}

fn coin_keyboard() -> (r: Keyboard)
    ensures
        r@ == chunk_layout(coin_actions()),
{
    let actions: Vec<&str> = vec![BTC, ETH, LTC, BCH, MAIN_MENU, CLOSE];
    assert(str_views(actions@) =~= coin_actions());
    create_keyboard(actions)
}

pub fn sell_keyboard() -> (r: Keyboard)
    ensures
        r@ == chunk_layout(coin_actions()),
{
    coin_keyboard()
}

pub fn limit_buy_keyboard() -> (r: Keyboard)
    ensures
        r@ == chunk_layout(coin_actions()),
{
    coin_keyboard()
}

pub fn limit_sell_keyboard() -> (r: Keyboard)
    ensures
        r@ == chunk_layout(coin_actions()),
{
    coin_keyboard()
}

/// Why a buy keyboard could not be laid out.
#[derive(Clone, Copy, Debug, PartialEq, Eq, Structural)]
pub enum ConfigError {
    /// Not exactly one of the three wallets was selected.
    InvalidWalletSelection,
}

pub open spec fn selected_count(w1: bool, w2: bool, w3: bool) -> int {
    (if w1 {
        1int
    } else {
        0int
    }) + (if w2 {
        1int
    } else {
        0int
    }) + (if w3 {
        1int
    } else {
        0int
    })
}

/// A button that sends its own text.
pub open spec fn plain_button(label: Seq<char>) -> ButtonView {
    (label, label)
}

/// An on/off button: decorated when on, in text and callback alike.
pub open spec fn switch_button(label: Seq<char>, on: bool) -> ButtonView {
    if on {
        (decorated(label), decorated(label))
    } else {
        (label, label)
    }
}

/// The eight rows of the buy menu: navigation, the transaction options, the
/// wallet header, the wallets, the tokens, the amount, the estimate, and
/// the button that sends the buy transaction.
pub open spec fn buy_layout(private_tx: bool, rebate: bool, w1: bool, w2: bool, w3: bool) -> Layout {
    seq![
        seq![(decorated(MAIN_MENU@), MAIN_MENU@), (decorated(CLOSE@), CLOSE@)],
        seq![switch_button(PRIVATE_TX@, private_tx), switch_button(REBATE@, rebate)],
        seq![plain_button(SELECT_WALLET@)],
        seq![switch_button(WALLET_1@, w1), switch_button(WALLET_2@, w2), switch_button(WALLET_3@, w3)],
        seq![plain_button(BUY_TOKEN@), plain_button(RECEIVE_TOKEN@)],
        seq![plain_button(BUY_AMOUNT@)],
        seq![plain_button(ESTIMATED_RECEIVED_AMOUNT@)],
        seq![plain_button(SEND_BUY_TX@)],
    ]
}

fn switch(label: &str, on: bool) -> (r: Button)
    ensures
        r@ == switch_button(label@, on),
{
    if on {
        Button::callback(add_emoji(label), add_emoji(label))
    } else {
        Button::labelled(label)
    }
}

fn labelled_row(label: &str) -> (r: Vec<Button>)
    ensures
        row_view(r@) == seq![plain_button(label@)],
{
    let r = vec![Button::labelled(label)];
    assert(row_view(r@) =~= seq![plain_button(label@)]);
    r
}

/// Lays out the buy menu; exactly one wallet must be selected.
pub fn create_buy_keyboard(private_tx: bool, rebate: bool, wallet1: bool, wallet2: bool, wallet3: bool) -> (r: Result<Keyboard, ConfigError>)
    ensures
        match r {
            Ok(k) => selected_count(wallet1, wallet2, wallet3) == 1 && k@ == buy_layout(
                private_tx,
                rebate,
                wallet1,
                wallet2,
                wallet3,
            ),
            Err(e) => selected_count(wallet1, wallet2, wallet3) != 1 && e
                == ConfigError::InvalidWalletSelection,
        },
{
    let mut count: u8 = 0;
    if wallet1 {
        count += 1;
    }
    if wallet2 {
        count += 1;
    }
    if wallet3 {
        count += 1;
    }
    if count != 1 {
        return Err(ConfigError::InvalidWalletSelection);
    }
    let mut keyboard = Keyboard::new();

    let nav = vec![
        Button::callback(add_emoji(MAIN_MENU), String::from_str(MAIN_MENU)),
        Button::callback(add_emoji(CLOSE), String::from_str(CLOSE)),
    ];
    assert(row_view(nav@) =~= buy_layout(private_tx, rebate, wallet1, wallet2, wallet3)[0]);
    keyboard.append_row(nav);

    let options = vec![switch(PRIVATE_TX, private_tx), switch(REBATE, rebate)];
    assert(row_view(options@) =~= buy_layout(private_tx, rebate, wallet1, wallet2, wallet3)[1]);
    keyboard.append_row(options);

    keyboard.append_row(labelled_row(SELECT_WALLET));

    let wallets = vec![switch(WALLET_1, wallet1), switch(WALLET_2, wallet2), switch(WALLET_3, wallet3)];
    assert(row_view(wallets@) =~= buy_layout(private_tx, rebate, wallet1, wallet2, wallet3)[3]);
    keyboard.append_row(wallets);

    let tokens = vec![Button::labelled(BUY_TOKEN), Button::labelled(RECEIVE_TOKEN)];
    assert(row_view(tokens@) =~= buy_layout(private_tx, rebate, wallet1, wallet2, wallet3)[4]);
    keyboard.append_row(tokens);

    keyboard.append_row(labelled_row(BUY_AMOUNT));
    keyboard.append_row(labelled_row(ESTIMATED_RECEIVED_AMOUNT));
    keyboard.append_row(labelled_row(SEND_BUY_TX));

    assert(keyboard@ =~= buy_layout(private_tx, rebate, wallet1, wallet2, wallet3));
    Ok(keyboard)
}

/// The buy menu keyboard; see `create_buy_keyboard`.
pub fn buy_keyboard(private_tx: bool, rebate: bool, wallet1: bool, wallet2: bool, wallet3: bool) -> (r: Result<Keyboard, ConfigError>)
    ensures
        match r {
            Ok(k) => selected_count(wallet1, wallet2, wallet3) == 1 && k@ == buy_layout(
                private_tx,
                rebate,
                wallet1,
                wallet2,
                wallet3,
            ),
            Err(e) => selected_count(wallet1, wallet2, wallet3) != 1 && e
                == ConfigError::InvalidWalletSelection,
        },
{
    create_buy_keyboard(private_tx, rebate, wallet1, wallet2, wallet3)
}

/// The buy menu as the buy button first shows it: the first wallet
/// selected, private transactions and rebate off.
pub fn buy_menu_keyboard() -> (r: Keyboard)
    ensures
        r@ == buy_layout(false, false, true, false, false),
{
    match buy_keyboard(false, false, true, false, false) {
        Ok(k) => k,
        Err(_) => Keyboard::new(),
    }
}

pub open spec fn wallet_label(j: int) -> Seq<char> {
    if j == 0 {
        WALLET_1@
    } else if j == 1 {
        WALLET_2@
    } else {
        WALLET_3@
    }
}

/// Whether wallet `j` is selected, by the flags given.
pub open spec fn wallet_flag(w1: bool, w2: bool, w3: bool, j: int) -> bool {
    if j == 0 {
        w1
    } else if j == 1 {
        w2
    } else {
        w3
    }
}

/// The wallet button at `j` of a row shows its label decorated.
pub open spec fn shows_selected(row: Seq<ButtonView>, j: int) -> bool {
    row[j].0 == decorated(wallet_label(j))
}

/// With exactly one wallet flag set, the wallet row of the buy menu holds
/// the three wallet buttons, and exactly one of them, the chosen one, shows
/// as selected; the other two show their bare labels.
pub proof fn lemma_one_wallet_selected(private_tx: bool, rebate: bool, w1: bool, w2: bool, w3: bool)
    requires
        selected_count(w1, w2, w3) == 1,
    ensures
        buy_layout(private_tx, rebate, w1, w2, w3)[3].len() == 3,
        exists|j: int|
            0 <= j < 3 && wallet_flag(w1, w2, w3, j) && shows_selected(
                #[trigger] buy_layout(private_tx, rebate, w1, w2, w3)[3],
                j,
            ),
        forall|j: int|
            0 <= j < 3 ==> (shows_selected(buy_layout(private_tx, rebate, w1, w2, w3)[3], j)
                <==> #[trigger] wallet_flag(w1, w2, w3, j)),
        forall|j: int|
            0 <= j < 3 && !#[trigger] wallet_flag(w1, w2, w3, j) ==> buy_layout(
                private_tx,
                rebate,
                w1,
                w2,
                w3,
            )[3][j].0 == wallet_label(j),
{
    lemma_label_text();
    let row = buy_layout(private_tx, rebate, w1, w2, w3)[3];
    assert(decorated(WALLET_1@).len() == 10);
    assert(decorated(WALLET_2@).len() == 9);
    assert(decorated(WALLET_3@).len() == 10);
    assert forall|j: int| 0 <= j < 3 implies (shows_selected(row, j) <==> #[trigger] wallet_flag(
        w1,
        w2,
        w3,
        j,
    )) by {
        if j == 0 {
            assert(row[0] == switch_button(WALLET_1@, w1));
        } else if j == 1 {
            assert(row[1] == switch_button(WALLET_2@, w2));
        } else {
            assert(row[2] == switch_button(WALLET_3@, w3));
        }
    }
    if w1 {
        assert(wallet_flag(w1, w2, w3, 0) && shows_selected(row, 0));
    } else if w2 {
        assert(wallet_flag(w1, w2, w3, 1) && shows_selected(row, 1));
    } else {
        assert(wallet_flag(w1, w2, w3, 2) && shows_selected(row, 2));
    }
}

} // verus!

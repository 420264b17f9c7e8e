//! The network line shown above every menu.

use vstd::prelude::*;

verus! {

pub const WEI_PER_GWEI: u128 = 1_000_000_000;

pub open spec fn digit_char(d: nat) -> char {
    seq!['0', '1', '2', '3', '4', '5', '6', '7', '8', '9'][d as int]
}

/// The decimal digits of `n`, without leading zeros.
pub open spec fn decimal(n: nat) -> Seq<char>
    decreases n,
{
    if n < 10 {
        seq![digit_char(n)]
    } else {
        decimal(n / 10).push(digit_char(n % 10))
    }
}

fn digit_text(d: u128) -> (r: String)
    requires
        d < 10,
    ensures
        r@ == seq![digit_char(d as nat)],
{
    proof {
        reveal_strlit("0");
        reveal_strlit("1");
        reveal_strlit("2");
        reveal_strlit("3");
        reveal_strlit("4");
        reveal_strlit("5");
        reveal_strlit("6");
        reveal_strlit("7");
        reveal_strlit("8");
        reveal_strlit("9");
    }
    if d == 0 {
        let r = String::from_str("0");
        assert(r@ =~= seq![digit_char(d as nat)]);
        r
    } else if d == 1 {
        let r = String::from_str("1");
        assert(r@ =~= seq![digit_char(d as nat)]);
        r
    } else if d == 2 {
        let r = String::from_str("2");
        assert(r@ =~= seq![digit_char(d as nat)]);
        r
    } else if d == 3 {
        let r = String::from_str("3");
        assert(r@ =~= seq![digit_char(d as nat)]);
        r
    } else if d == 4 {
        let r = String::from_str("4");
        assert(r@ =~= seq![digit_char(d as nat)]);
        r
    } else if d == 5 {
        let r = String::from_str("5");
        assert(r@ =~= seq![digit_char(d as nat)]);
        r
    } else if d == 6 {
        let r = String::from_str("6");
        assert(r@ =~= seq![digit_char(d as nat)]);
        r
    } else if d == 7 {
        let r = String::from_str("7");
        assert(r@ =~= seq![digit_char(d as nat)]);
        r
    } else if d == 8 {
        let r = String::from_str("8");
        assert(r@ =~= seq![digit_char(d as nat)]);
        r
    } else {
        let r = String::from_str("9");
        assert(r@ =~= seq![digit_char(d as nat)]);
        r
    }
}

/// The decimal digits of `n`.
fn decimal_text(n: u128) -> (r: String)
    ensures
        r@ == decimal(n as nat),
    decreases n,
{
    if n < 10 {
        digit_text(n)
    } else {
        let head = decimal_text(n / 10);
        let last = digit_text(n % 10);
        let r = head.concat(last.as_str());
        assert(r@ =~= decimal(n as nat));
        r
    }
}

pub const INFO_HEAD: &'static str = "*Ethereum*\n*Gas:* ";
pub const INFO_GAS_UNIT: &'static str = " Gwei  ═  *Block:* ";
pub const INFO_END: &'static str = "\n";

/// The menu text for a gas price (in wei) and a block number.
pub open spec fn info_spec(gas_price_wei: u128, block_number: u64) -> Seq<char> {
    INFO_HEAD@ + decimal((gas_price_wei / WEI_PER_GWEI) as nat) + INFO_GAS_UNIT@ + decimal(
        block_number as nat,
    ) + INFO_END@
}

/// The menu text: the gas price in whole Gwei and the block number.
pub fn info_text(gas_price_wei: u128, block_number: u64) -> (r: String)
    ensures
        r@ == info_spec(gas_price_wei, block_number),
{
    let gwei = decimal_text(gas_price_wei / WEI_PER_GWEI);
    let block = decimal_text(block_number as u128);
    String::from_str(INFO_HEAD).concat(gwei.as_str()).concat(INFO_GAS_UNIT).concat(block.as_str()).concat(
        INFO_END,
    )
}

pub const START_WALLET_1: &'static str = "\n *Wallet 1* ";
pub const START_WALLET_2: &'static str = "\n *Wallet2* ";
pub const START_WALLET_3: &'static str = "\n*Wallet 3* ";

/// The welcome text: the network line, then the three new wallets'
/// addresses as they print.
pub open spec fn start_info_spec(
    gas_price_wei: u128,
    block_number: u64,
    a1: Seq<char>,
    a2: Seq<char>,
    a3: Seq<char>,
) -> Seq<char> {
    info_spec(gas_price_wei, block_number) + START_WALLET_1@ + a1 + START_WALLET_2@ + a2
        + START_WALLET_3@ + a3
}

/// The welcome text shown on start.
pub fn start_info_text(gas_price_wei: u128, block_number: u64, a1: &str, a2: &str, a3: &str) -> (r: String)
    ensures
        r@ == start_info_spec(gas_price_wei, block_number, a1@, a2@, a3@),
{
    info_text(gas_price_wei, block_number).concat(START_WALLET_1).concat(a1).concat(START_WALLET_2).concat(
        a2,
    ).concat(START_WALLET_3).concat(a3)
}

/// What the chat is told once a buy transaction is sent.
pub const TX_SENT_TEXT: &'static str = "Tx Sent\nTx Hash: 0x39ee32a72c11b78e4d190158682e9e3f3ec7cf1aeb849644355475bc778eacba";

} // verus!

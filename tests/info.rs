use tg_api::info::{info_text, start_info_text};

#[test]
fn info_text_shows_gwei_and_block() {
    assert_eq!(
        info_text(25_400_000_000, 19_000_123),
        "*Ethereum*\n*Gas:* 25 Gwei  ═  *Block:* 19000123\n"
    );
    assert_eq!(info_text(999_999_999, 0), "*Ethereum*\n*Gas:* 0 Gwei  ═  *Block:* 0\n");
    assert_eq!(
        info_text(u128::MAX, u64::MAX),
        format!("*Ethereum*\n*Gas:* {} Gwei  ═  *Block:* {}\n", u128::MAX / 1_000_000_000, u64::MAX)
    );
}

#[test]
fn start_info_lists_wallets() {
    assert_eq!(
        start_info_text(3_000_000_000, 7, "0xa", "0xb", "0xc"),
        "*Ethereum*\n*Gas:* 3 Gwei  ═  *Block:* 7\n\n *Wallet 1* 0xa\n *Wallet2* 0xb\n*Wallet 3* 0xc"
    );
}

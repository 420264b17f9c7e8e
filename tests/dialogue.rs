use tg_api::dialogue::{
    begin_prompt, dialogue_step, opening_state, record_menu, DialogueAction, DialogueError, PromptDialogueState,
    PromptKind,
};
use tg_api::keyboard::{buy_menu_keyboard, Keyboard};
use tg_api::registry::{MenuCategory, MessageRegistry};
use tg_api::router::ChatMessage;

const ADDRESS: &str = "0xAbC0123456789abcdef0123456789ABCDEF01234";

fn buy_menu_message(author: Option<&str>, keyboard: Option<Keyboard>) -> ChatMessage {
    ChatMessage { chat_id: 7, id: 40, author: author.map(|a| a.to_string()), keyboard }
}

fn opened(kind: PromptKind) -> (MessageRegistry, PromptDialogueState) {
    let mut registry = MessageRegistry::new();
    let (state, _) = begin_prompt(&mut registry, kind, buy_menu_message(Some("koi_bot"), Some(buy_menu_keyboard())));
    (registry, state)
}

#[test]
fn prompts_open_with_their_text() {
    let mut registry = MessageRegistry::new();
    let m = || buy_menu_message(Some("koi_bot"), Some(buy_menu_keyboard()));
    let (s, t) = begin_prompt(&mut registry, PromptKind::BuyToken, m());
    assert_eq!(s, PromptDialogueState::BuyAddressReceived);
    assert_eq!(t, "Enter the address or name of the token you want to buy");
    let (s, t) = begin_prompt(&mut registry, PromptKind::ReceiveToken, m());
    assert_eq!(s, PromptDialogueState::ReceiveAddressReceived);
    assert_eq!(t, "Enter the address or name of the token you want to sell");
    let (s, t) = begin_prompt(&mut registry, PromptKind::BuyAmount, m());
    assert_eq!(s, PromptDialogueState::BuyAmountReceived);
    assert_eq!(t, "Enter the amount you want to trade");
    assert_eq!(registry.get(MenuCategory::Buy, "koi_bot").unwrap().message_id, 40);
    assert!(registry.get(MenuCategory::Main, "koi_bot").is_none());
}

#[test]
fn prompt_without_author_records_nothing() {
    let mut registry = MessageRegistry::new();
    begin_prompt(&mut registry, PromptKind::BuyToken, buy_menu_message(None, Some(buy_menu_keyboard())));
    assert!(registry.get(MenuCategory::Buy, "koi_bot").is_none());
}

#[test]
fn buy_token_address_fills_menu_and_ends_dialogue() {
    let (registry, state) = opened(PromptKind::BuyToken);
    let step = dialogue_step(state, Some(ADDRESS), 45, &registry, "koi_bot").unwrap();
    assert_eq!(step.next, None);
    match step.action {
        DialogueAction::EditMenu { menu_message_id, keyboard, delete_from } => {
            assert_eq!(menu_message_id, 40);
            assert_eq!(delete_from, 45);
            assert_eq!(keyboard.rows[4][0].text, ADDRESS);
            assert_eq!(keyboard.rows[4][0].callback, "Buy Token");
            assert_eq!(keyboard.rows[4][1].text, "Receive Token");
            assert_eq!(keyboard.rows[3][0].text, "✅ Wallet 1");
        }
        other => panic!("unexpected action {:?}", other),
    }
}

#[test]
fn receive_token_address_fills_second_button() {
    let (registry, state) = opened(PromptKind::ReceiveToken);
    let step = dialogue_step(state, Some(ADDRESS), 46, &registry, "koi_bot").unwrap();
    assert_eq!(step.next, None);
    match step.action {
        DialogueAction::EditMenu { keyboard, .. } => {
            assert_eq!(keyboard.rows[4][0].text, "Buy Token");
            assert_eq!(keyboard.rows[4][1].text, ADDRESS);
            assert_eq!(keyboard.rows[4][1].callback, "Receive Token");
        }
        other => panic!("unexpected action {:?}", other),
    }
}

#[test]
fn invalid_address_asks_again() {
    let (registry, state) = opened(PromptKind::BuyToken);
    let step = dialogue_step(state, Some("0xAbC...1234"), 45, &registry, "koi_bot").unwrap();
    assert_eq!(step.next, Some(PromptDialogueState::BuyAddressReceived));
    match step.action {
        DialogueAction::Reply(t) => assert_eq!(t, "Please enter a valid address"),
        other => panic!("unexpected action {:?}", other),
    }
}

#[test]
fn non_numeric_amount_asks_again() {
    let (registry, state) = opened(PromptKind::BuyAmount);
    let step = dialogue_step(state, Some("notanumber"), 45, &registry, "koi_bot").unwrap();
    assert_eq!(step.next, Some(PromptDialogueState::BuyAmountReceived));
    match step.action {
        DialogueAction::Reply(t) => {
            assert_eq!(t, "Please enter a numeric value");
            assert!(t.contains("enter a numeric value"));
        }
        other => panic!("unexpected action {:?}", other),
    }
}

#[test]
fn numeric_amount_fills_amount_button() {
    let (registry, state) = opened(PromptKind::BuyAmount);
    let step = dialogue_step(state, Some("12.5"), 50, &registry, "koi_bot").unwrap();
    assert_eq!(step.next, None);
    match step.action {
        DialogueAction::EditMenu { menu_message_id, keyboard, delete_from } => {
            assert_eq!((menu_message_id, delete_from), (40, 50));
            assert_eq!(keyboard.rows[5][0].text, "12.5");
            assert_eq!(keyboard.rows[5][0].callback, "Buy Amount");
        }
        other => panic!("unexpected action {:?}", other),
    }
}

#[test]
fn missing_menu_record_only_warns() {
    let registry = MessageRegistry::new();
    let step = dialogue_step(PromptDialogueState::BuyAddressReceived, Some(ADDRESS), 45, &registry, "koi_bot").unwrap();
    assert_eq!(step.next, Some(PromptDialogueState::BuyAddressReceived));
    match step.action {
        DialogueAction::Warn(t) => assert_eq!(t, "message not found"),
        other => panic!("unexpected action {:?}", other),
    }
    let (registry, state) = opened(PromptKind::BuyAmount);
    let step = dialogue_step(state, Some("3"), 45, &registry, "someone_else").unwrap();
    assert!(matches!(step.action, DialogueAction::Warn(_)));
}

#[test]
fn menu_without_keyboard_is_an_error() {
    let mut registry = MessageRegistry::new();
    begin_prompt(&mut registry, PromptKind::BuyToken, buy_menu_message(Some("koi_bot"), None));
    let r = dialogue_step(PromptDialogueState::BuyAddressReceived, Some(ADDRESS), 45, &registry, "koi_bot");
    assert_eq!(r.unwrap_err(), DialogueError::MenuWithoutKeyboard);
}

#[test]
fn message_without_text_asks_for_text() {
    let (registry, state) = opened(PromptKind::BuyToken);
    let step = dialogue_step(state, None, 45, &registry, "koi_bot").unwrap();
    assert_eq!(step.next, Some(state));
    match step.action {
        DialogueAction::Reply(t) => assert_eq!(t, "Send me plain text."),
        other => panic!("unexpected action {:?}", other),
    }
}

#[test]
fn start_states_send_address_prompt() {
    let registry = MessageRegistry::new();
    for s in [PromptDialogueState::BuyStartAddressPrompt, PromptDialogueState::ReceiveStartAddressPrompt] {
        let step = dialogue_step(s, Some("hello"), 1, &registry, "koi_bot").unwrap();
        assert_eq!(step.next, Some(PromptDialogueState::BuyAddressReceived));
        match step.action {
            DialogueAction::Reply(t) => assert_eq!(t, "Enter the address of the token you want to trade"),
            other => panic!("unexpected action {:?}", other),
        }
    }
    assert_eq!(PromptDialogueState::default(), PromptDialogueState::BuyStartAddressPrompt);
}

#[test]
fn other_states_ignore_messages() {
    let registry = MessageRegistry::new();
    for s in [
        PromptDialogueState::BuyTokenNameReceived,
        PromptDialogueState::ReceiveTokenNameReceived,
        PromptDialogueState::StartBuyAmountPrompt,
    ] {
        let step = dialogue_step(s, Some("12"), 1, &registry, "koi_bot").unwrap();
        assert_eq!(step.next, Some(s));
        assert!(matches!(step.action, DialogueAction::Ignore));
    }
}

#[test]
fn record_menu_keeps_latest_per_user() {
    let mut registry = MessageRegistry::new();
    record_menu(&mut registry, MenuCategory::Main, ChatMessage { chat_id: 1, id: 10, author: Some("a".to_string()), keyboard: None });
    record_menu(&mut registry, MenuCategory::Main, ChatMessage { chat_id: 1, id: 12, author: Some("a".to_string()), keyboard: None });
    record_menu(&mut registry, MenuCategory::Main, ChatMessage { chat_id: 1, id: 13, author: None, keyboard: None });
    assert_eq!(registry.get(MenuCategory::Main, "a").unwrap().message_id, 12);
    assert!(registry.get(MenuCategory::Buy, "a").is_none());
}

#[test]
fn opening_states_per_prompt() {
    assert_eq!(opening_state(PromptKind::BuyToken), PromptDialogueState::BuyStartAddressPrompt);
    assert_eq!(opening_state(PromptKind::ReceiveToken), PromptDialogueState::ReceiveStartAddressPrompt);
    assert_eq!(opening_state(PromptKind::BuyAmount), PromptDialogueState::StartBuyAmountPrompt);
}

#[test]
fn integer_amount_fills_amount_button() {
    let (registry, state) = opened(PromptKind::BuyAmount);
    let step = dialogue_step(state, Some("123"), 51, &registry, "koi_bot").unwrap();
    assert_eq!(step.next, None);
    match step.action {
        DialogueAction::EditMenu { keyboard, .. } => {
            assert_eq!(keyboard.rows[5][0].text, "123");
            assert_eq!(keyboard.rows[5][0].callback, "Buy Amount");
            assert_eq!(keyboard.rows[4][0].text, "Buy Token");
        }
        other => panic!("unexpected action {:?}", other),
    }
}

//! The per-chat prompt dialogue: which reply a chat owes, and what each
//! reply does to the buy menu.

use vstd::prelude::*;

use crate::keyboard::{replace_button, Button, Keyboard, Layout};
use crate::labels::{BUY_AMOUNT, BUY_TOKEN, RECEIVE_TOKEN};
use crate::registry::{MenuCategory, MenuRecord, MessageRegistry};
use crate::router::ChatMessage;
use crate::text::{float_literal, is_numeric, is_valid_address, valid_address};

verus! {

/// Which prompt a chat has open.
#[derive(Clone, Copy, Debug, Default, PartialEq, Eq, Structural)]
pub enum PromptDialogueState {
    /// The buy token button was pressed.
    #[default]
    BuyStartAddressPrompt,
    /// Waiting for the address of the token to buy.
    BuyAddressReceived,
    /// A name of the token to buy was received.
    BuyTokenNameReceived,
    /// The receive token button was pressed.
    ReceiveStartAddressPrompt,
    /// Waiting for the address of the token to receive.
    ReceiveAddressReceived,
    /// A name of the token to receive was received.
    ReceiveTokenNameReceived,
    /// The buy amount button was pressed.
    StartBuyAmountPrompt,
    /// Waiting for the amount to buy.
    BuyAmountReceived,
}

/// The buttons that open a prompt.
#[derive(Clone, Copy, Debug, PartialEq, Eq, Structural)]
pub enum PromptKind {
    BuyToken,
    ReceiveToken,
    BuyAmount,
}

pub const ADDRESS_PROMPT: &'static str = "Enter the address of the token you want to trade";
pub const BUY_TOKEN_PROMPT: &'static str = "Enter the address or name of the token you want to buy";
pub const RECEIVE_TOKEN_PROMPT: &'static str = "Enter the address or name of the token you want to sell";
pub const AMOUNT_PROMPT: &'static str = "Enter the amount you want to trade";
pub const PLAIN_TEXT_REPLY: &'static str = "Send me plain text.";
pub const INVALID_ADDRESS_REPLY: &'static str = "Please enter a valid address";
pub const INVALID_AMOUNT_REPLY: &'static str = "Please enter a numeric value";
pub const MENU_NOT_FOUND: &'static str = "message not found";

/// The state a chat waits in once the prompt of `kind` is sent.
pub open spec fn waiting_state(kind: PromptKind) -> PromptDialogueState {
    match kind {
        PromptKind::BuyToken => PromptDialogueState::BuyAddressReceived,
        PromptKind::ReceiveToken => PromptDialogueState::ReceiveAddressReceived,
        PromptKind::BuyAmount => PromptDialogueState::BuyAmountReceived,
    }
}

/// The state a chat is in while the prompt of `kind` is being sent.
pub open spec fn opening_spec(kind: PromptKind) -> PromptDialogueState {
    match kind {
        PromptKind::BuyToken => PromptDialogueState::BuyStartAddressPrompt,
        PromptKind::ReceiveToken => PromptDialogueState::ReceiveStartAddressPrompt,
        PromptKind::BuyAmount => PromptDialogueState::StartBuyAmountPrompt,
    }
}

pub fn opening_state(kind: PromptKind) -> (r: PromptDialogueState)
    ensures
        r == opening_spec(kind),
{
    match kind {
        PromptKind::BuyToken => PromptDialogueState::BuyStartAddressPrompt,
        PromptKind::ReceiveToken => PromptDialogueState::ReceiveStartAddressPrompt,
        PromptKind::BuyAmount => PromptDialogueState::StartBuyAmountPrompt,
    }
}

pub open spec fn prompt_text(kind: PromptKind) -> Seq<char> {
    match kind {
        PromptKind::BuyToken => BUY_TOKEN_PROMPT@,
        PromptKind::ReceiveToken => RECEIVE_TOKEN_PROMPT@,
        PromptKind::BuyAmount => AMOUNT_PROMPT@,
    }
}

/// The record that a sent menu message leaves in the registry.
pub open spec fn record_of(m: ChatMessage) -> MenuRecord {
    MenuRecord { chat_id: m.chat_id, message_id: m.id, keyboard: m.keyboard }
}

/// The registry's records of `category` after `m` is recorded: under its
/// author's name, or not at all when it has no author name.
pub open spec fn recorded(before: Map<Seq<char>, MenuRecord>, m: ChatMessage) -> Map<Seq<char>, MenuRecord> {
    match m.author {
        Some(name) => before.insert(name@, record_of(m)),
        None => before,
    }
}

/// Records a menu message as its author's last one of the category.
pub fn record_menu(registry: &mut MessageRegistry, category: MenuCategory, sent: ChatMessage)
    ensures
        final(registry).records(category) == recorded(old(registry).records(category), sent),
        forall|c: MenuCategory|
            c != category ==> #[trigger] final(registry).records(c) == old(registry).records(c),
{
    let ghost before = sent;
    let ChatMessage { chat_id, id, author, keyboard } = sent;
    match author {
        Some(name) => {
            let record = MenuRecord { chat_id, message_id: id, keyboard };
            assert(record == record_of(before));
            registry.put(category, name, record);
        },
        None => {},
    }
}

/// A token or amount button was pressed on the buy menu `menu`: the menu is
/// recorded as its author's buy menu, and the chat is to get the prompt and
/// wait in the returned state.
pub fn begin_prompt(registry: &mut MessageRegistry, kind: PromptKind, menu: ChatMessage) -> (r: (PromptDialogueState, String))
    ensures
        r.0 == waiting_state(kind),
        r.1@ == prompt_text(kind),
        final(registry).records(MenuCategory::Buy) == recorded(
            old(registry).records(MenuCategory::Buy),
            menu,
        ),
        forall|c: MenuCategory|
            c != MenuCategory::Buy ==> #[trigger] final(registry).records(c) == old(registry).records(c),
{
    record_menu(registry, MenuCategory::Buy, menu);
    match kind {
        PromptKind::BuyToken => (PromptDialogueState::BuyAddressReceived, String::from_str(BUY_TOKEN_PROMPT)),
        PromptKind::ReceiveToken => (
            PromptDialogueState::ReceiveAddressReceived,
            String::from_str(RECEIVE_TOKEN_PROMPT),
        ),
        PromptKind::BuyAmount => (PromptDialogueState::BuyAmountReceived, String::from_str(AMOUNT_PROMPT)),
    }
}

/// What the chat or the menu gets after a message.
#[derive(Clone, Debug)]
pub enum DialogueAction {
    /// Send this text to the chat.
    Reply(String),
    /// Edit the buy menu message in place to show `keyboard` with fresh
    /// info text, then delete the messages from `delete_from` down to just
    /// above the menu.
    EditMenu { menu_message_id: i32, keyboard: Keyboard, delete_from: i32 },
    /// Send nothing; log this warning.
    Warn(String),
    /// The message is not a reply that the state waits for.
    Ignore,
}

pub enum ActionView {
    Reply(Seq<char>),
    EditMenu(i32, Layout, i32),
    Warn(Seq<char>),
    Ignore,
}

impl View for DialogueAction {
    type V = ActionView;

    open spec fn view(&self) -> ActionView {
        match *self {
            DialogueAction::Reply(t) => ActionView::Reply(t@),
            DialogueAction::EditMenu { menu_message_id, keyboard, delete_from } => ActionView::EditMenu(
                menu_message_id,
                keyboard@,
                delete_from,
            ),
            DialogueAction::Warn(t) => ActionView::Warn(t@),
            DialogueAction::Ignore => ActionView::Ignore,
        }
    }
}

/// The state the chat is left in (`None`: the dialogue is over), and what
/// to do.
#[derive(Clone, Debug)]
pub struct DialogueStep {
    pub next: Option<PromptDialogueState>,
    pub action: DialogueAction,
}

#[derive(Clone, Copy, Debug, PartialEq, Eq, Structural)]
pub enum DialogueError {
    /// The recorded buy menu message carries no keyboard to edit.
    MenuWithoutKeyboard,
}

pub open spec fn step_view(r: Result<DialogueStep, DialogueError>) -> Result<(Option<PromptDialogueState>, ActionView), DialogueError> {
    match r {
        Ok(s) => Ok((s.next, s.action@)),
        Err(e) => Err(e),
    }
}

pub open spec fn str_opt_view(text: Option<&str>) -> Option<Seq<char>> {
    match text {
        Some(t) => Some(t@),
        None => None,
    }
}

/// The states that wait for a typed reply.
pub open spec fn awaits_reply(state: PromptDialogueState) -> bool {
    state is BuyAddressReceived || state is ReceiveAddressReceived || state is BuyAmountReceived
}

/// Whether `t` is an acceptable reply in `state`: a number for the amount,
/// an address for the tokens.
pub open spec fn accepts(state: PromptDialogueState, t: Seq<char>) -> bool {
    if state is BuyAmountReceived {
        float_literal(t)
    } else {
        valid_address(t)
    }
}

pub open spec fn invalid_reply(state: PromptDialogueState) -> Seq<char> {
    if state is BuyAmountReceived {
        INVALID_AMOUNT_REPLY@
    } else {
        INVALID_ADDRESS_REPLY@
    }
}

/// The button of the buy menu that a reply fills in: its row, its column
/// and the callback value it then sends.
pub open spec fn reply_slot(state: PromptDialogueState) -> (int, int, Seq<char>) {
    match state {
        PromptDialogueState::ReceiveAddressReceived => (4, 1, RECEIVE_TOKEN@),
        PromptDialogueState::BuyAmountReceived => (5, 0, BUY_AMOUNT@),
        _ => (4, 0, BUY_TOKEN@),
    }
}

/// One step of the dialogue, given the chat's state, the text of the new
/// message (`None` when it has none), the new message's id, and the buy
/// menu records.
pub open spec fn dialogue_spec(
    state: PromptDialogueState,
    text: Option<Seq<char>>,
    message_id: i32,
    menus: Map<Seq<char>, MenuRecord>,
    owner: Seq<char>,
) -> Result<(Option<PromptDialogueState>, ActionView), DialogueError> {
    if state is BuyStartAddressPrompt || state is ReceiveStartAddressPrompt {
        Ok((Some(PromptDialogueState::BuyAddressReceived), ActionView::Reply(ADDRESS_PROMPT@)))
    } else if awaits_reply(state) {
        match text {
            None => Ok((Some(state), ActionView::Reply(PLAIN_TEXT_REPLY@))),
            Some(t) => if !accepts(state, t) {
                Ok((Some(state), ActionView::Reply(invalid_reply(state))))
            } else if !menus.contains_key(owner) {
                Ok((Some(state), ActionView::Warn(MENU_NOT_FOUND@)))
            } else {
                match menus[owner].keyboard {
                    None => Err(DialogueError::MenuWithoutKeyboard),
                    Some(k) => Ok(
                        (
                            None,
                            ActionView::EditMenu(
                                menus[owner].message_id,
                                replace_button(
                                    k@,
                                    reply_slot(state).0,
                                    reply_slot(state).1,
                                    (t, reply_slot(state).2),
                                ),
                                message_id,
                            ),
                        ),
                    ),
                }
            },
        }
    } else {
        Ok((Some(state), ActionView::Ignore))
    }
}

fn reply(next: PromptDialogueState, text: &str) -> (r: DialogueStep)
    ensures
        r.next == Some(next),
        r.action@ == ActionView::Reply(text@),
{
    DialogueStep { next: Some(next), action: DialogueAction::Reply(String::from_str(text)) }
}

/// Handles a message in a chat whose dialogue is in `state`. `menu_owner`
/// is the name under which the buy menu was recorded.
pub fn dialogue_step(
    state: PromptDialogueState,
    text: Option<&str>,
    message_id: i32,
    registry: &MessageRegistry,
    menu_owner: &str,
) -> (r: Result<DialogueStep, DialogueError>)
    ensures
        step_view(r) == dialogue_spec(
            state,
            str_opt_view(text),
            message_id,
            registry.records(MenuCategory::Buy),
            menu_owner@,
        ),
{
    match state {
        PromptDialogueState::BuyStartAddressPrompt | PromptDialogueState::ReceiveStartAddressPrompt => {
            Ok(reply(PromptDialogueState::BuyAddressReceived, ADDRESS_PROMPT))
        },
        PromptDialogueState::BuyAddressReceived
        | PromptDialogueState::ReceiveAddressReceived
        | PromptDialogueState::BuyAmountReceived => {
            let t = match text {
                Some(t) => t,
                None => return Ok(reply(state, PLAIN_TEXT_REPLY)),
            };
            let amount = state == PromptDialogueState::BuyAmountReceived;
            let ok = if amount {
                is_numeric(t)
            } else {
                is_valid_address(t)
            };
            if !ok {
                if amount {
                    return Ok(reply(state, INVALID_AMOUNT_REPLY));
                } else {
                    return Ok(reply(state, INVALID_ADDRESS_REPLY));
                }
            }
            let record = match registry.get(MenuCategory::Buy, menu_owner) {
                Some(m) => m,
                None => {
                    return Ok(
                        DialogueStep {
                            next: Some(state),
                            action: DialogueAction::Warn(String::from_str(MENU_NOT_FOUND)),
                        },
                    );
                },
            };
            let keyboard = match &record.keyboard {
                Some(k) => k,
                None => return Err(DialogueError::MenuWithoutKeyboard),
            };
            let mut edited = keyboard.duplicate();
            let (row, col, callback): (usize, usize, &str) = match state {
                PromptDialogueState::ReceiveAddressReceived => (4, 1, RECEIVE_TOKEN),
                PromptDialogueState::BuyAmountReceived => (5, 0, BUY_AMOUNT),
                _ => (4, 0, BUY_TOKEN),
            };
            edited.set_button(row, col, Button::callback(String::from_str(t), String::from_str(callback)));
            Ok(
                DialogueStep {
                    next: None,
                    action: DialogueAction::EditMenu {
                        menu_message_id: record.message_id,
                        keyboard: edited,
                        delete_from: message_id,
                    },
                },
            )
        },
        _ => Ok(DialogueStep { next: Some(state), action: DialogueAction::Ignore }),
    }
}

/// An acceptable reply to an open prompt, with the buy menu recorded under
/// `owner` and holding the prompt's button, ends the dialogue and edits
/// that menu in place: the prompt's button now shows the reply and sends
/// the prompt's callback, every other button stays as it was, and the
/// messages from the reply down are to be cleared.
pub proof fn lemma_reply_fills_slot(
    state: PromptDialogueState,
    t: Seq<char>,
    message_id: i32,
    menus: Map<Seq<char>, MenuRecord>,
    owner: Seq<char>,
)
    requires
        awaits_reply(state),
        accepts(state, t),
        menus.contains_key(owner),
        menus[owner].keyboard is Some,
        0 <= reply_slot(state).0 < menus[owner].keyboard->0@.len(),
        0 <= reply_slot(state).1 < menus[owner].keyboard->0@[reply_slot(state).0].len(),
    ensures
        ({
            let k = menus[owner].keyboard->0@;
            let (row, col, callback) = reply_slot(state);
            let edited = replace_button(k, row, col, (t, callback));
            &&& dialogue_spec(state, Some(t), message_id, menus, owner) == Ok::<
                (Option<PromptDialogueState>, ActionView),
                DialogueError,
            >((None, ActionView::EditMenu(menus[owner].message_id, edited, message_id)))
            &&& edited.len() == k.len()
            &&& edited[row][col] == (t, callback)
            &&& forall|r: int| 0 <= r < k.len() ==> (#[trigger] edited[r]).len() == k[r].len()
            &&& forall|r: int, c: int|
                0 <= r < k.len() && 0 <= c < k[r].len() && (r != row || c != col) ==> #[trigger] edited[r][c]
                    == k[r][c]
        }),
{
}

} // verus!

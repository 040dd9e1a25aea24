//! Event-routing decisions: which inbound message gets the interactive
//! buttons, who may press them, and what each press leads to. The binary
//! feeds these functions the event's fields and performs the action they
//! decide on.

use vstd::prelude::*;

use crate::strutil::{
    all_digits, contains_char, decimal_value, parse_u64_decimal, second_field, second_token,
    spec_starts_with, str_eq, str_starts_with,
};

verus! {

/// The deployment's fixed identifiers, read once at startup and passed to
/// every decision.
#[derive(Debug, Clone, PartialEq)]
pub struct BotConfig {
    /// The channel watched for bot-authored messages.
    pub api_docs_channel: u64,
    /// The account whose messages get the buttons.
    pub api_docs_bot: u64,
    /// The application identity used for interaction responses.
    pub application_id: u64,
    /// The identities allowed to press the buttons and run the replay
    /// command.
    pub issue_management_users: Vec<u64>,
}

/// `user` names an identity on the authorized-operator list.
pub open spec fn spec_is_operator(cfg: BotConfig, user: Option<u64>) -> bool {
    user matches Some(u) && cfg.issue_management_users@.contains(u)
}

/// Whether `user` is on the authorized-operator list.
pub fn is_operator(cfg: &BotConfig, user: Option<u64>) -> (r: bool)
    ensures
        r == spec_is_operator(*cfg, user),
{
    match user {
        None => false,
        Some(u) => {
            let mut i: usize = 0;
            while i < cfg.issue_management_users.len()
                invariant
                    user == Some(u),
                    i <= cfg.issue_management_users@.len(),
                    forall|j: int| 0 <= j < i ==> cfg.issue_management_users@[j] != u,
                decreases cfg.issue_management_users@.len() - i,
            {
                if cfg.issue_management_users[i] == u {
                    proof {
                        assert(cfg.issue_management_users@.contains(u)) by {
                            assert(cfg.issue_management_users@[i as int] == u);
                        }
                    }
                    return true;
                }
                i = i + 1;
            }
            false
        },
    }
}

/// The custom identifier of the button that starts a conversion.
pub fn create_issue_button_id() -> (r: &'static str)
    ensures
        r@ == "create-github-issue"@,
{
    "create-github-issue"
}

/// The custom identifier of the button that clears a message's buttons.
pub fn delete_message_button_id() -> (r: &'static str)
    ensures
        r@ == "delete-message"@,
{
    "delete-message"
}

/// The replay command's prefix.
pub fn replay_command_prefix() -> (r: &'static str)
    ensures
        r@ == "++fakeit"@,
{
    "++fakeit"
}

/// The ephemeral notice sent to an unauthorized presser.
pub fn unauthorized_reply() -> (r: &'static str)
    ensures
        r@ == "You do not have access to this."@,
{
    "You do not have access to this."
}

/// The ephemeral notice sent when the pressed message holds no link.
pub fn missing_link_reply() -> (r: &'static str)
    ensures
        r@ == "Could not get the issue link."@,
{
    "Could not get the issue link."
}

/// What a button press leads to.
#[derive(Debug, Clone, PartialEq)]
pub enum ButtonAction {
    /// Send the unauthorized notice; fetch nothing, file nothing.
    ReplyUnauthorized,
    /// Run the conversion on the carried URL, then clear the buttons.
    Convert(String),
    /// Send the missing-link notice.
    ReplyMissingLink,
    /// Clear the buttons from the pressed message.
    ClearButtons,
    /// An unknown button: do nothing.
    Ignore,
}

/// Decides a button press: an identity off the operator list gets the
/// unauthorized notice whichever button it pressed, and nothing is fetched or
/// filed; an operator's press starts the conversion, or clears the buttons.
pub fn button_press_action(
    cfg: &BotConfig,
    custom_id: &str,
    presser: Option<u64>,
    embed_url: Option<String>,
) -> (a: ButtonAction)
    ensures
        custom_id@ == "create-github-issue"@ && !spec_is_operator(*cfg, presser) ==> a
            == ButtonAction::ReplyUnauthorized,
        custom_id@ == "create-github-issue"@ && spec_is_operator(*cfg, presser) ==> match embed_url {
            Some(u) => a == ButtonAction::Convert(u),
            None => a == ButtonAction::ReplyMissingLink,
        },
        custom_id@ == "delete-message"@ && !spec_is_operator(*cfg, presser) ==> a
            == ButtonAction::ReplyUnauthorized,
        custom_id@ == "delete-message"@ && spec_is_operator(*cfg, presser) ==> a
            == ButtonAction::ClearButtons,
        custom_id@ != "create-github-issue"@ && custom_id@ != "delete-message"@ ==> a
            == ButtonAction::Ignore,
{
    proof {
        reveal_strlit("create-github-issue");
        reveal_strlit("delete-message");
        assert("create-github-issue"@.len() == 19);
        assert("delete-message"@.len() == 14);
    }
    let create = str_eq(custom_id, "create-github-issue");
    let delete = str_eq(custom_id, "delete-message");
    if create || delete {
        if !is_operator(cfg, presser) {
            ButtonAction::ReplyUnauthorized
        } else if create {
            match embed_url {
                Some(u) => ButtonAction::Convert(u),
                None => ButtonAction::ReplyMissingLink,
            }
        } else {
            ButtonAction::ClearButtons
        }
    } else {
        ButtonAction::Ignore
    }
}

/// `content` is a well-formed replay command: the prefix, then a message
/// identity written as a nonzero decimal number that fits the identity type.
pub open spec fn valid_replay(content: Seq<char>) -> bool {
    &&& spec_starts_with(content, "++fakeit"@)
    &&& contains_char(content, ' ')
    &&& all_digits(second_field(content))
    &&& 0 < decimal_value(second_field(content)) <= u64::MAX
}

/// An author on the operator list sent something starting with the replay
/// prefix.
pub open spec fn replay_attempt(cfg: BotConfig, author_id: u64, content: Seq<char>) -> bool {
    spec_starts_with(content, "++fakeit"@) && spec_is_operator(cfg, Some(author_id))
}

/// The message should get the buttons: it stands in the watched channel or
/// carries the replay prefix, and the watched account wrote it.
pub open spec fn spec_attach_buttons(
    cfg: BotConfig,
    channel_id: u64,
    author_id: u64,
    content: Seq<char>,
) -> bool {
    (channel_id == cfg.api_docs_channel || spec_starts_with(content, "++fakeit"@)) && author_id
        == cfg.api_docs_bot
}

/// Whether a posted message gets the interactive buttons.
pub fn should_attach_buttons(
    cfg: &BotConfig,
    channel_id: u64,
    author_id: u64,
    content: &str,
) -> (r: bool)
    ensures
        r == spec_attach_buttons(*cfg, channel_id, author_id, content@),
{
    (channel_id == cfg.api_docs_channel || str_starts_with(content, "++fakeit")) && author_id
        == cfg.api_docs_bot
}

/// What a posted message leads to.
#[derive(Debug, Clone, PartialEq)]
pub enum MessageAction {
    /// Re-fetch the named message and run it through the flow again.
    Replay(u64),
    /// Repost the message's embeds with the buttons and drop the original.
    AttachButtons,
    /// Do nothing.
    Ignore,
}

/// Decides a posted message: an operator's well-formed replay command names
/// the message to re-fetch; otherwise the watched account's messages in the
/// watched channel get the buttons; everything else is ignored.
pub fn message_action(cfg: &BotConfig, channel_id: u64, author_id: u64, content: &str) -> (a:
    MessageAction)
    ensures
        replay_attempt(*cfg, author_id, content@) && valid_replay(content@) ==> a
            == MessageAction::Replay(decimal_value(second_field(content@)) as u64),
        replay_attempt(*cfg, author_id, content@) && !valid_replay(content@) ==> a
            == MessageAction::Ignore,
        !replay_attempt(*cfg, author_id, content@) && spec_attach_buttons(
            *cfg,
            channel_id,
            author_id,
            content@,
        ) ==> a == MessageAction::AttachButtons,
        !replay_attempt(*cfg, author_id, content@) && !spec_attach_buttons(
            *cfg,
            channel_id,
            author_id,
            content@,
        ) ==> a == MessageAction::Ignore,
{
    if str_starts_with(content, "++fakeit") && is_operator(cfg, Some(author_id)) {
        match second_token(content) {
            None => MessageAction::Ignore,
            Some(tok) => match parse_u64_decimal(tok.as_str()) {
                None => MessageAction::Ignore,
                Some(id) => {
                    if id == 0 {
                        MessageAction::Ignore
                    } else {
                        MessageAction::Replay(id)
                    }
                },
            },
        }
    } else if should_attach_buttons(cfg, channel_id, author_id, content) {
        MessageAction::AttachButtons
    } else {
        MessageAction::Ignore
    }
}

} // verus!

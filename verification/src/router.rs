//! The command router: from an inbound message to the replies that are sent.
//!
//! The router keeps no state. It is driven in two steps, because the status
//! of the backups is collected by the program around this library: `route`
//! says what a message asks for, and, where it asks for the status,
//! `respond_to_collection` turns what the collector brought into replies.
//! Every message with a text gets at least one reply; every reply goes to
//! the chat that the message came from and carries the same keyboard.

use vstd::prelude::*;
use vstd::string::*;
use crate::collector::{decode_output, decoded_text, Collection, CollectionView};
use crate::model::{InstanceView, Report};
use crate::parser::{
    description_text, outcome_view, parse_report, parsed, ParseError, ParseErrorView,
};
use crate::render::{block_text, format_report, report_blocks, texts};
use crate::text::{optional_text, text_eq};

verus! {

/// The command that asks for the status of the backups.
pub const INFO: &'static str = "info";

/// The command with which a chat begins.
pub const START: &'static str = "/start";

/// The command that asks whether the bot is running.
pub const CHECK_BOT: &'static str = "check_bot";

/// The acknowledgement that the bot is running.
pub const RUNNING_NOTICE: &'static str = "Бот запущен";

/// The answer to a text that is no command.
pub const UNKNOWN_NOTICE: &'static str = "Нет такой команды";

/// The notice that the status text could not be read.
pub const UNREADABLE_NOTICE: &'static str =
    "Не удалось обработать ответ сервера";

/// The notice that the status could not be collected.
pub const UNAVAILABLE_NOTICE: &'static str =
    "Не удалось получить ответ сервера";

/// The answer where the status lists no instance.
pub const EMPTY_NOTICE: &'static str = "Нет данных о резервных копиях";

/// What is said of a collector that ran and did not end well.
pub const ABNORMAL_EXIT: &'static str = "the status command exited abnormally";

/// What an inbound message asks for.
#[derive(Debug, Clone, Copy, PartialEq, Eq)]
pub enum Command {
    /// `info`: report the status of the backups.
    Info,
    /// `/start` or `check_bot`: confirm that the bot is running.
    CheckBot,
    /// Any other text.
    Unknown,
}

/// The command that a message text is. The match is exact and case-sensitive.
pub open spec fn command_of(text: Seq<char>) -> Command {
    if text == INFO@ {
        Command::Info
    } else if text == START@ || text == CHECK_BOT@ {
        Command::CheckBot
    } else {
        Command::Unknown
    }
}

/// Classifies a message text.
pub fn classify(text: &str) -> (command: Command)
    ensures
        command == command_of(text@),
{
    if text_eq(text, INFO) {
        Command::Info
    } else if text_eq(text, START) || text_eq(text, CHECK_BOT) {
        Command::CheckBot
    } else {
        Command::Unknown
    }
}

/// The keyboard that is attached to a reply: rows of labelled buttons.
#[derive(Debug, Clone, PartialEq, Eq)]
pub struct Keyboard {
    pub rows: Vec<Vec<String>>,
}

impl View for Keyboard {
    type V = Seq<Seq<Seq<char>>>;

    open spec fn view(&self) -> Seq<Seq<Seq<char>>> {
        Seq::new(
            self.rows@.len(),
            |i: int| Seq::new(self.rows@[i]@.len(), |j: int| self.rows@[i]@[j]@),
        )
    }
}

/// The rows of the fixed keyboard: one column, one button for each command
/// that the operator can pick.
pub open spec fn keyboard_rows() -> Seq<Seq<Seq<char>>> {
    seq![seq![INFO@], seq![CHECK_BOT@]]
}

/// Builds the fixed keyboard.
pub fn make_keyboard() -> (keyboard: Keyboard)
    ensures
        keyboard@ == keyboard_rows(),
{
    let mut first: Vec<String> = Vec::new();
    first.push(INFO.to_owned());
    let mut second: Vec<String> = Vec::new();
    second.push(CHECK_BOT.to_owned());
    let mut rows: Vec<Vec<String>> = Vec::new();
    rows.push(first);
    rows.push(second);
    let keyboard = Keyboard { rows };
    assert(keyboard@ =~~= keyboard_rows());
    keyboard
}

/// How the text of a reply is to be displayed.
#[derive(Debug, Clone, Copy, PartialEq, Eq)]
pub enum Markup {
    /// As it is.
    Plain,
    /// As HTML, so that the tags in it set the emphasis.
    Html,
}

/// One reply message.
#[derive(Debug, Clone, PartialEq, Eq)]
pub struct Reply {
    /// The chat that the reply goes to.
    pub chat: i64,
    pub text: String,
    pub markup: Markup,
    pub keyboard: Keyboard,
}

/// What a [`Reply`] holds.
pub ghost struct ReplyView {
    pub chat: i64,
    pub text: Seq<char>,
    pub markup: Markup,
    pub keyboard: Seq<Seq<Seq<char>>>,
}

impl View for Reply {
    type V = ReplyView;

    open spec fn view(&self) -> ReplyView {
        ReplyView {
            chat: self.chat,
            text: self.text@,
            markup: self.markup,
            keyboard: self.keyboard@,
        }
    }
}

/// What a sequence of replies holds, one for one.
pub open spec fn reply_views(replies: Seq<Reply>) -> Seq<ReplyView> {
    Seq::new(replies.len(), |i: int| replies[i]@)
}

/// The plain reply to a chat with a text, under the fixed keyboard.
pub open spec fn plain_reply(chat: i64, text: Seq<char>) -> ReplyView {
    ReplyView { chat, text, markup: Markup::Plain, keyboard: keyboard_rows() }
}

/// The HTML reply to a chat with a text, under the fixed keyboard.
pub open spec fn html_reply(chat: i64, text: Seq<char>) -> ReplyView {
    ReplyView { chat, text, markup: Markup::Html, keyboard: keyboard_rows() }
}

fn reply(chat: i64, text: String, markup: Markup) -> (reply: Reply)
    ensures
        reply@ == (ReplyView { chat, text: text@, markup, keyboard: keyboard_rows() }),
{
    Reply { chat, text, markup, keyboard: make_keyboard() }
}

/// What the program is to do for a message.
#[derive(Debug, Clone, PartialEq, Eq)]
pub enum Action {
    /// Collect the status of the backups and hand the outcome to
    /// [`respond_to_collection`], then send what that returns.
    Collect,
    /// Send these replies, in this order.
    Send(Vec<Reply>),
}

/// What an [`Action`] holds.
pub ghost enum ActionView {
    Collect,
    Send(Seq<ReplyView>),
}

impl View for Action {
    type V = ActionView;

    open spec fn view(&self) -> ActionView {
        match self {
            Action::Collect => ActionView::Collect,
            Action::Send(replies) => ActionView::Send(reply_views(replies@)),
        }
    }
}

/// The action for a message from a chat. A message without text is not
/// answered. For `info` the status is collected; the other two cases are
/// answered at once with one fixed text.
pub open spec fn action_for(chat: i64, text: Option<Seq<char>>) -> ActionView {
    match text {
        None => ActionView::Send(Seq::empty()),
        Some(text) => match command_of(text) {
            Command::Info => ActionView::Collect,
            Command::CheckBot => ActionView::Send(seq![plain_reply(chat, RUNNING_NOTICE@)]),
            Command::Unknown => ActionView::Send(seq![plain_reply(chat, UNKNOWN_NOTICE@)]),
        },
    }
}

fn one_reply(chat: i64, text: &str) -> (replies: Vec<Reply>)
    ensures
        reply_views(replies@) == seq![plain_reply(chat, text@)],
{
    let mut replies: Vec<Reply> = Vec::new();
    replies.push(reply(chat, text.to_owned(), Markup::Plain));
    assert(reply_views(replies@) =~= seq![plain_reply(chat, text@)]);
    replies
}

/// Decides what to do for an inbound message: `chat` is where it came from,
/// `text` is its text, if it has one.
pub fn route(chat: i64, text: Option<&str>) -> (action: Action)
    ensures
        action@ == action_for(chat, optional_text(text)),
{
    match text {
        None => {
            let replies: Vec<Reply> = Vec::new();
            assert(reply_views(replies@) =~= Seq::empty());
            Action::Send(replies)
        },
        Some(text) => match classify(text) {
            Command::Info => Action::Collect,
            Command::CheckBot => Action::Send(one_reply(chat, RUNNING_NOTICE)),
            Command::Unknown => Action::Send(one_reply(chat, UNKNOWN_NOTICE)),
        },
    }
}

/// The replies that report a failure: a fixed notice, then the diagnostic,
/// as two messages.
pub open spec fn failure_replies(chat: i64, notice: Seq<char>, diagnostic: Seq<char>) -> Seq<
    ReplyView,
> {
    seq![plain_reply(chat, notice), plain_reply(chat, diagnostic)]
}

/// The replies for a report: one HTML block per instance, in the report's
/// order; for a report without instances, one plain notice that there is
/// nothing to show, so that the chat is answered in every case.
pub open spec fn replies_for_report(chat: i64, report: Seq<InstanceView>) -> Seq<ReplyView> {
    if report.len() == 0 {
        seq![plain_reply(chat, EMPTY_NOTICE@)]
    } else {
        Seq::new(report.len(), |i: int| html_reply(chat, block_text(report[i])))
    }
}

/// The replies for the outcome of a parse: for a report, its replies; for a
/// parse error, the notice and the error's description.
pub open spec fn replies_for_outcome(
    chat: i64,
    outcome: Result<Seq<InstanceView>, ParseErrorView>,
) -> Seq<ReplyView> {
    match outcome {
        Ok(report) => replies_for_report(chat, report),
        Err(error) => failure_replies(chat, UNREADABLE_NOTICE@, description_text(error)),
    }
}

/// The replies for what the collector brought. A collector that did not
/// start, or did not end well, is reported to the chat; the output of one
/// that did is decoded, read and rendered.
pub open spec fn replies_for_collection(chat: i64, collection: CollectionView) -> Seq<ReplyView> {
    match collection {
        CollectionView::NotStarted(reason) => failure_replies(chat, UNAVAILABLE_NOTICE@, reason),
        CollectionView::Finished { success, output } => if success {
            replies_for_outcome(chat, parsed(decoded_text(output)))
        } else {
            failure_replies(chat, UNAVAILABLE_NOTICE@, ABNORMAL_EXIT@)
        },
    }
}

fn two_replies(chat: i64, notice: &str, diagnostic: String) -> (replies: Vec<Reply>)
    ensures
        reply_views(replies@) == failure_replies(chat, notice@, diagnostic@),
{
    let mut replies: Vec<Reply> = Vec::new();
    replies.push(reply(chat, notice.to_owned(), Markup::Plain));
    replies.push(reply(chat, diagnostic, Markup::Plain));
    assert(reply_views(replies@) =~= failure_replies(chat, notice@, diagnostic@));
    replies
}

/// Turns the outcome of a parse into replies to a chat. There is at least
/// one reply for every outcome.
pub fn respond_to_outcome(chat: i64, outcome: &Result<Report, ParseError>) -> (replies: Vec<Reply>)
    ensures
        reply_views(replies@) == replies_for_outcome(chat, outcome_view(*outcome)),
{
    match outcome {
        Ok(report) => {
            if report.instances.len() == 0 {
                return one_reply(chat, EMPTY_NOTICE);
            }
            let blocks = format_report(report);
            let mut replies: Vec<Reply> = Vec::new();
            let mut i: usize = 0;
            assert(texts(blocks@).len() == report@.len());
            while i < blocks.len()
                invariant
                    i <= blocks.len(),
                    blocks@.len() == report@.len(),
                    replies@.len() == i,
                    texts(blocks@) == report_blocks(report@),
                    forall|k: int|
                        0 <= k < i ==> (#[trigger] replies@[k])@ == html_reply(
                            chat,
                            block_text(report@[k]),
                        ),
                decreases blocks.len() - i,
            {
                assert(texts(blocks@)[i as int] == blocks@[i as int]@);
                replies.push(reply(chat, blocks[i].clone(), Markup::Html));
                i += 1;
            }
            assert(reply_views(replies@) =~= replies_for_outcome(chat, outcome_view(*outcome)));
            replies
        },
        Err(error) => two_replies(chat, UNREADABLE_NOTICE, error.description()),
    }
}

/// Reads the raw status text and turns it into replies to a chat.
pub fn respond_to_status(chat: i64, raw: &str) -> (replies: Vec<Reply>)
    ensures
        reply_views(replies@) == replies_for_outcome(chat, parsed(raw@)),
{
    let outcome = parse_report(raw);
    respond_to_outcome(chat, &outcome)
}

/// Turns what the collector brought into replies to a chat.
///
/// Where the collector could not be started, or ran and did not end well,
/// the chat is told so in two messages and nothing else happens. Where it
/// ended well, its output is decoded, read and rendered: one block per
/// instance, or one notice where the status lists no instance.
pub fn respond_to_collection(chat: i64, collection: &Collection) -> (replies: Vec<Reply>)
    ensures
        reply_views(replies@) == replies_for_collection(chat, collection@),
{
    match collection {
        Collection::NotStarted(reason) => two_replies(chat, UNAVAILABLE_NOTICE, reason.clone()),
        Collection::Finished { success, output } => {
            if *success {
                let raw = decode_output(output.as_slice());
                respond_to_status(chat, raw.as_str())
            } else {
                two_replies(chat, UNAVAILABLE_NOTICE, ABNORMAL_EXIT.to_owned())
            }
        },
    }
}

} // verus!

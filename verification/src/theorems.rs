//! What holds of the router, the parser and the formatter together, proved
//! from their specifications.

use vstd::prelude::*;
use crate::collector::{decoded_text, CollectionView};
use crate::config::{exit_code_for, startup_for, startup_for_document, StartupView};
use crate::document::TomlView;
use crate::json::{json_parse, JsonView};
use crate::model::{BackupView, InstanceView};
use crate::parser::{
    backup_of, backup_reader, backups_of, instance_of, instance_reader, instances_of, list_of,
    parsed, read_all, report_of, text_of, Field, ParseErrorView,
};
use crate::render::{block_text, entry_text, header_text, joined, report_blocks, texts};
use crate::router::{
    action_for, command_of, html_reply, keyboard_rows, plain_reply, replies_for_collection,
    replies_for_outcome, ActionView, Command, EMPTY_NOTICE, RUNNING_NOTICE, UNKNOWN_NOTICE,
};

verus! {

/// The three commands are told apart as they are written, and every other
/// text is unknown.
pub proof fn commands_are_recognized(text: Seq<char>)
    ensures
        command_of("info"@) == Command::Info,
        command_of("/start"@) == Command::CheckBot,
        command_of("check_bot"@) == Command::CheckBot,
        command_of(text) == Command::Info <==> text == "info"@,
        command_of(text) == Command::CheckBot <==> text == "/start"@ || text == "check_bot"@,
        command_of(text) == Command::Unknown <==> text != "info"@ && text != "/start"@ && text
            != "check_bot"@,
{
    reveal_strlit("info");
    reveal_strlit("/start");
    reveal_strlit("check_bot");
    assert("/start"@.len() != "info"@.len());
    assert("check_bot"@.len() != "info"@.len());
}

/// The router takes the branch of the command: `info` alone has the status
/// collected; `/start` and `check_bot` are acknowledged, and every other
/// text is answered as unknown, each at once and with exactly one plain
/// reply to the chat of the message.
pub proof fn every_message_is_answered(chat: i64, text: Seq<char>)
    ensures
        action_for(chat, Some(text)) == ActionView::Collect <==> text == "info"@,
        text == "/start"@ || text == "check_bot"@ ==> action_for(chat, Some(text))
            == ActionView::Send(seq![plain_reply(chat, RUNNING_NOTICE@)]),
        text != "info"@ && text != "/start"@ && text != "check_bot"@ ==> action_for(
            chat,
            Some(text),
        ) == ActionView::Send(seq![plain_reply(chat, UNKNOWN_NOTICE@)]),
{
    commands_are_recognized(text);
}

/// Every reply that the router gives goes to the chat of the message and
/// carries the full fixed keyboard, whatever the message was and whatever
/// the collector brought.
pub proof fn every_reply_carries_the_keyboard(
    chat: i64,
    text: Option<Seq<char>>,
    collection: CollectionView,
    i: int,
)
    ensures
        action_for(chat, text) matches ActionView::Send(replies) ==> (0 <= i < replies.len() ==> {
            &&& replies[i].keyboard == keyboard_rows()
            &&& replies[i].chat == chat
        }),
        0 <= i < replies_for_collection(chat, collection).len() ==> {
            &&& replies_for_collection(chat, collection)[i].keyboard == keyboard_rows()
            &&& replies_for_collection(chat, collection)[i].chat == chat
        },
        keyboard_rows() == seq![seq!["info"@], seq!["check_bot"@]],
{
}

/// A list is read as a whole or not at all, whatever reads its elements:
/// the result has one reading for each element, in the list's order, each as
/// `each` reads its element; and where the list is refused, the error is
/// that of the first element that is.
pub proof fn elements_are_read_in_order<T>(
    items: Seq<JsonView>,
    each: spec_fn(JsonView) -> Result<T, ParseErrorView>,
)
    ensures
        match read_all(items, each) {
            Ok(read) => read.len() == items.len() && forall|j: int|
                0 <= j < items.len() ==> each(#[trigger] items[j]) == Ok::<T, ParseErrorView>(
                    read[j],
                ),
            Err(error) => exists|j: int|
                0 <= j < items.len() && each(#[trigger] items[j]) == Err::<T, ParseErrorView>(
                    error,
                ) && forall|k: int| 0 <= k < j ==> each(#[trigger] items[k]) is Ok,
        },
    decreases items.len(),
{
    if items.len() > 0 {
        let front = items.drop_last();
        elements_are_read_in_order(front, each);
        assert(forall|k: int| 0 <= k < front.len() ==> front[k] == items[k]);
        match read_all(front, each) {
            Ok(read) => {
                if let Err(error) = each(items.last()) {
                    let j = items.len() - 1;
                    assert(each(items[j]) == Err::<T, ParseErrorView>(error));
                }
            },
            Err(error) => {
                let j = choose|j: int|
                    0 <= j < front.len() && each(#[trigger] front[j]) == Err::<T, ParseErrorView>(
                        error,
                    ) && forall|k: int| 0 <= k < j ==> each(#[trigger] front[k]) is Ok;
                assert(each(items[j]) == Err::<T, ParseErrorView>(error));
            },
        }
    }
}

/// A list that is read as backups gives one backup for each element, in the
/// list's order, each as its element denotes it; a list that is refused
/// holds an element that is refused as a backup.
pub proof fn backups_are_read_in_order(items: Seq<JsonView>)
    ensures
        backups_of(items) matches Ok(backups) ==> backups.len() == items.len() && forall|j: int|
            0 <= j < items.len() ==> backup_of(#[trigger] items[j]) == Ok::<
                BackupView,
                ParseErrorView,
            >(backups[j]),
        backups_of(items) is Err <==> exists|j: int|
            0 <= j < items.len() && backup_of(#[trigger] items[j]) is Err,
{
    elements_are_read_in_order(items, backup_reader());
}

/// A list that is read as instances gives one instance for each element, in
/// the list's order, each as its element denotes it; a list that is refused
/// holds an element that is refused as an instance.
pub proof fn instances_are_read_in_order(items: Seq<JsonView>)
    ensures
        instances_of(items) matches Ok(instances) ==> instances.len() == items.len()
            && forall|i: int|
            0 <= i < items.len() ==> instance_of(#[trigger] items[i]) == Ok::<
                InstanceView,
                ParseErrorView,
            >(instances[i]),
        instances_of(items) is Err <==> exists|i: int|
            0 <= i < items.len() && instance_of(#[trigger] items[i]) is Err,
{
    elements_are_read_in_order(items, instance_reader());
}

/// A JSON value has a text member under a field's key.
pub open spec fn has_text(json: JsonView, field: Field) -> bool {
    json.member(field.key_text()) matches Some(JsonView::Text(_))
}

/// A backup is accepted exactly when its four members are there and are
/// text, and then it holds these four texts as they are.
pub proof fn backup_is_accepted_iff_complete(json: JsonView)
    ensures
        backup_of(json) is Ok <==> has_text(json, Field::Id) && has_text(json, Field::RecoveryTime)
            && has_text(json, Field::BackupMode) && has_text(json, Field::Status),
        backup_of(json) matches Ok(backup) ==> {
            &&& json.member("id"@) == Some(JsonView::Text(backup.id))
            &&& json.member("recovery-time"@) == Some(JsonView::Text(backup.recovery_time))
            &&& json.member("backup-mode"@) == Some(JsonView::Text(backup.backup_mode))
            &&& json.member("status"@) == Some(JsonView::Text(backup.status))
        },
{
}

/// An instance is accepted exactly when its name is there and is text, its
/// list of backups is there and is a list, and every element of that list is
/// accepted as a backup; and then it holds that name as it is.
pub proof fn instance_is_accepted_iff_complete(json: JsonView)
    ensures
        instance_of(json) is Ok <==> has_text(json, Field::Instance) && (json.member(
            "backup"@,
        ) matches Some(JsonView::List(items)) && forall|j: int|
            0 <= j < items.len() ==> backup_of(#[trigger] items[j]) is Ok),
        instance_of(json) matches Ok(instance) ==> json.member("instance"@) == Some(
            JsonView::Text(instance.name),
        ),
{
    if let Some(JsonView::List(items)) = json.member("backup"@) {
        backups_are_read_in_order(items);
    }
}

/// A member that is absent is reported as missing, and one of another type
/// as such; no value is put in its place.
pub proof fn text_member_is_read_or_refused(json: JsonView, field: Field)
    ensures
        text_of(json, field) matches Ok(text) <==> json.member(field.key_text()) matches Some(
            JsonView::Text(text),
        ),
        json.member(field.key_text()) is None <==> text_of(json, field) == Err::<
            Seq<char>,
            ParseErrorView,
        >(ParseErrorView::MissingField(field)),
{
}

/// The elements of the list that a status text denotes, where it denotes
/// one.
pub open spec fn listed_instances(raw: Seq<char>) -> Option<Seq<JsonView>> {
    match json_parse(raw) {
        Ok(json) => json.elements(),
        Err(_) => None,
    }
}

/// The elements of the list of backups of an instance, where it has one.
pub open spec fn listed_backups(instance: JsonView) -> Option<Seq<JsonView>> {
    match list_of(instance, Field::Backup) {
        Ok(backups) => Some(backups),
        Err(_) => None,
    }
}

/// A status text in which the backup `j` of the instance `i` lacks one of
/// its four members is refused.
pub proof fn backup_without_a_member_is_refused(raw: Seq<char>, i: int, j: int, field: Field)
    requires
        field == Field::Id || field == Field::RecoveryTime || field == Field::BackupMode || field
            == Field::Status,
        listed_instances(raw) matches Some(instances) && (0 <= i < instances.len() && (
            listed_backups(instances[i]) matches Some(backups) && (0 <= j < backups.len()
                && backups[j].member(field.key_text()) is None))),
    ensures
        parsed(raw) is Err,
{
    let instances = listed_instances(raw)->Some_0;
    let backups = listed_backups(instances[i])->Some_0;
    assert(backup_of(backups[j]) is Err);
    backups_are_read_in_order(backups);
    assert(instance_of(instances[i]) is Err);
    instances_are_read_in_order(instances);
}

/// A status text in which the instance `i` lacks its name or its list of
/// backups is refused.
pub proof fn instance_without_a_member_is_refused(raw: Seq<char>, i: int, field: Field)
    requires
        field == Field::Instance || field == Field::Backup,
        listed_instances(raw) matches Some(instances) && (0 <= i < instances.len()
            && instances[i].member(field.key_text()) is None),
    ensures
        parsed(raw) is Err,
{
    let instances = listed_instances(raw)->Some_0;
    assert(instance_of(instances[i]) is Err);
    instances_are_read_in_order(instances);
}

/// A key is none of the six that the parser looks under.
pub open spec fn is_other_key(key: Seq<char>) -> bool {
    forall|field: Field| key != #[trigger] field.key_text()
}

/// A member under another key than the six that are required changes
/// nothing: an object is read as the same backup, and as the same instance,
/// with it and without it.
pub proof fn other_member_is_ignored(
    members: Map<Seq<char>, JsonView>,
    key: Seq<char>,
    value: JsonView,
)
    requires
        is_other_key(key),
    ensures
        backup_of(JsonView::Object(members.insert(key, value))) == backup_of(
            JsonView::Object(members),
        ),
        instance_of(JsonView::Object(members.insert(key, value))) == instance_of(
            JsonView::Object(members),
        ),
{
    let with = JsonView::Object(members.insert(key, value));
    let without = JsonView::Object(members);
    assert forall|field: Field| with.member(#[trigger] field.key_text()) == without.member(
        field.key_text(),
    ) by {
        assert(key != field.key_text());
    }
    same_members_same_reading(with, without);
}

/// Two JSON values with the same members under the keys of a backup.
pub open spec fn backups_alike(first: JsonView, second: JsonView) -> bool {
    &&& first.member("id"@) == second.member("id"@)
    &&& first.member("recovery-time"@) == second.member("recovery-time"@)
    &&& first.member("backup-mode"@) == second.member("backup-mode"@)
    &&& first.member("status"@) == second.member("status"@)
}

/// Two JSON values with the same name member, and with backup members that
/// are the same, or are lists that are alike backup for backup.
pub open spec fn instances_alike(first: JsonView, second: JsonView) -> bool {
    &&& first.member("instance"@) == second.member("instance"@)
    &&& match (first.member("backup"@), second.member("backup"@)) {
        (Some(JsonView::List(a)), Some(JsonView::List(b))) => a.len() == b.len() && forall|j: int|
            0 <= j < a.len() ==> backups_alike(#[trigger] a[j], b[j]),
        (a, b) => a == b,
    }
}

/// Two JSON values that are the same, or are lists that are alike instance
/// for instance.
pub open spec fn reports_alike(first: JsonView, second: JsonView) -> bool {
    match (first, second) {
        (JsonView::List(a), JsonView::List(b)) => a.len() == b.len() && forall|i: int|
            0 <= i < a.len() ==> instances_alike(#[trigger] a[i], b[i]),
        (a, b) => a == b,
    }
}

/// Two JSON values that agree under the six keys are read alike, as a backup
/// and as an instance.
pub proof fn same_members_same_reading(first: JsonView, second: JsonView)
    requires
        forall|field: Field|
            first.member(#[trigger] field.key_text()) == second.member(field.key_text()),
    ensures
        backup_of(first) == backup_of(second),
        instance_of(first) == instance_of(second),
{
    assert(first.member(Field::Id.key_text()) == second.member(Field::Id.key_text()));
    assert(first.member(Field::RecoveryTime.key_text()) == second.member(
        Field::RecoveryTime.key_text(),
    ));
    assert(first.member(Field::BackupMode.key_text()) == second.member(
        Field::BackupMode.key_text(),
    ));
    assert(first.member(Field::Status.key_text()) == second.member(Field::Status.key_text()));
    assert(first.member(Field::Instance.key_text()) == second.member(Field::Instance.key_text()));
    assert(first.member(Field::Backup.key_text()) == second.member(Field::Backup.key_text()));
}

/// Lists whose elements are read alike, element for element, are read
/// alike as a whole, whatever reads the elements.
pub proof fn like_elements_read_alike<T>(
    first: Seq<JsonView>,
    second: Seq<JsonView>,
    each: spec_fn(JsonView) -> Result<T, ParseErrorView>,
)
    requires
        first.len() == second.len(),
        forall|j: int| 0 <= j < first.len() ==> each(#[trigger] first[j]) == each(second[j]),
    ensures
        read_all(first, each) == read_all(second, each),
    decreases first.len(),
{
    if first.len() > 0 {
        like_elements_read_alike(first.drop_last(), second.drop_last(), each);
        assert(each(first[first.len() - 1]) == each(second[first.len() - 1]));
    }
}

/// Two values that are alike as backups are read as the same backup.
pub proof fn like_backup_reads_alike(first: JsonView, second: JsonView)
    requires
        backups_alike(first, second),
    ensures
        backup_of(first) == backup_of(second),
{
}

/// Two values that are alike as instances are read as the same instance.
pub proof fn like_instance_reads_alike(first: JsonView, second: JsonView)
    requires
        instances_alike(first, second),
    ensures
        instance_of(first) == instance_of(second),
{
    if let (Some(JsonView::List(a)), Some(JsonView::List(b))) = (
        first.member("backup"@),
        second.member("backup"@),
    ) {
        assert forall|j: int| 0 <= j < a.len() implies backup_reader()(#[trigger] a[j])
            == backup_reader()(b[j]) by {
            like_backup_reads_alike(a[j], b[j]);
        }
        like_elements_read_alike(a, b, backup_reader());
    }
}

/// What a status text holds beside the members that are required is
/// ignored: two JSON values that differ only in members under other keys, of
/// their instances or of their backups, are read as the same report, or are
/// refused with the same error.
pub proof fn other_members_are_ignored(first: JsonView, second: JsonView)
    requires
        reports_alike(first, second),
    ensures
        report_of(first) == report_of(second),
{
    if let (JsonView::List(a), JsonView::List(b)) = (first, second) {
        assert forall|i: int| 0 <= i < a.len() implies instance_reader()(#[trigger] a[i])
            == instance_reader()(b[i]) by {
            like_instance_reads_alike(a[i], b[i]);
        }
        like_elements_read_alike(a, b, instance_reader());
    }
}

/// An instance of the status text is read as an instance of the report: the
/// name is the text under `instance`, and the backups are those of the list
/// under `backup`, as many and in the same order, each as its element
/// denotes it.
pub open spec fn reads_as(source: JsonView, instance: InstanceView) -> bool {
    &&& text_of(source, Field::Instance) == Ok::<Seq<char>, ParseErrorView>(instance.name)
    &&& listed_backups(source) matches Some(backups) && (instance.backups.len() == backups.len()
        && forall|j: int|
        0 <= j < backups.len() ==> backup_of(#[trigger] backups[j]) == Ok::<
            BackupView,
            ParseErrorView,
        >(instance.backups[j]))
}

/// A block lists every backup of its instance: it is the header with the
/// instance's name, followed by as many entries as the instance has backups,
/// the entry at each place being that of the backup at that place.
pub open spec fn lists_every_backup(block: Seq<char>, instance: InstanceView) -> bool {
    exists|entries: Seq<Seq<char>>|
        {
            &&& block == header_text(instance.name) + joined(entries, "\n"@)
            &&& entries.len() == instance.backups.len()
            &&& forall|j: int|
                0 <= j < entries.len() ==> #[trigger] entries[j] == entry_text(instance.backups[j])
        }
}

/// From the status text to the replies: a text that is read as a report
/// gives one block for each instance of the text, in the text's order, and
/// the block of an instance is its header followed by one entry for each of
/// its backups, in the text's order, each holding the four texts of its
/// backup. Each block is one HTML reply; a text without instances gives no
/// block, and one plain notice in place of the blocks.
pub proof fn one_block_per_instance_one_entry_per_backup(chat: i64, raw: Seq<char>)
    requires
        parsed(raw) is Ok,
    ensures
        listed_instances(raw) is Some,
        parsed(raw)->Ok_0.len() == listed_instances(raw)->Some_0.len(),
        report_blocks(parsed(raw)->Ok_0).len() == listed_instances(raw)->Some_0.len(),
        forall|i: int|
            0 <= i < parsed(raw)->Ok_0.len() ==> reads_as(
                #[trigger] listed_instances(raw)->Some_0[i],
                parsed(raw)->Ok_0[i],
            ),
        forall|i: int|
            0 <= i < parsed(raw)->Ok_0.len() ==> (#[trigger] report_blocks(parsed(raw)->Ok_0)[i])
                == block_text(parsed(raw)->Ok_0[i]),
        forall|i: int|
            0 <= i < parsed(raw)->Ok_0.len() ==> lists_every_backup(
                block_text(#[trigger] parsed(raw)->Ok_0[i]),
                parsed(raw)->Ok_0[i],
            ),
        listed_instances(raw)->Some_0.len() > 0 ==> replies_for_outcome(chat, parsed(raw)).len()
            == listed_instances(raw)->Some_0.len(),
        listed_instances(raw)->Some_0.len() > 0 ==> forall|i: int|
            0 <= i < parsed(raw)->Ok_0.len() ==> (#[trigger] replies_for_outcome(
                chat,
                parsed(raw),
            )[i]) == html_reply(chat, report_blocks(parsed(raw)->Ok_0)[i]),
        listed_instances(raw)->Some_0.len() == 0 ==> replies_for_outcome(chat, parsed(raw))
            == seq![plain_reply(chat, EMPTY_NOTICE@)],
{
    let instances = listed_instances(raw)->Some_0;
    let report = parsed(raw)->Ok_0;
    instances_are_read_in_order(instances);
    assert forall|i: int| 0 <= i < report.len() implies reads_as(
        #[trigger] instances[i],
        report[i],
    ) by {
        assert(instance_of(instances[i]) == Ok::<InstanceView, ParseErrorView>(report[i]));
        let backups = listed_backups(instances[i])->Some_0;
        backups_are_read_in_order(backups);
    }
}

/// Every message with a text is answered: whatever the text is and whatever
/// the collector brought, at least one reply goes out, and, by
/// `every_reply_carries_the_keyboard`, each one under the keyboard.
pub proof fn every_text_gets_a_reply(chat: i64, text: Seq<char>, collection: CollectionView)
    ensures
        action_for(chat, Some(text)) matches ActionView::Send(replies) ==> replies.len() >= 1,
        replies_for_collection(chat, collection).len() >= 1,
{
    if let CollectionView::Finished { success, output } = collection {
        if success {
            every_outcome_gets_a_reply(chat, parsed(decoded_text(output)));
        }
    }
}

/// Every outcome of a parse is answered: a report with instances by as many
/// blocks, one without by one notice, an error by notice and diagnostic.
pub proof fn every_outcome_gets_a_reply(
    chat: i64,
    outcome: Result<Seq<InstanceView>, ParseErrorView>,
)
    ensures
        replies_for_outcome(chat, outcome).len() >= 1,
        outcome matches Ok(report) ==> replies_for_outcome(chat, outcome).len() == if report.len()
            == 0 {
            1
        } else {
            report.len()
        },
        outcome is Err ==> replies_for_outcome(chat, outcome).len() == 2,
{
}

/// Formatting is a function of the report: two renderings of one report
/// are the same text, block for block.
pub proof fn formatting_twice_gives_the_same_text(
    report: Seq<InstanceView>,
    first: Seq<String>,
    second: Seq<String>,
)
    requires
        texts(first) == report_blocks(report),
        texts(second) == report_blocks(report),
    ensures
        first.len() == second.len(),
        forall|i: int| 0 <= i < first.len() ==> (#[trigger] first[i])@ == second[i]@,
{
    assert(texts(first).len() == first.len());
    assert(texts(second).len() == second.len());
    assert forall|i: int| 0 <= i < first.len() implies (#[trigger] first[i])@ == second[i]@ by {
        assert(texts(first)[i] == first[i]@);
        assert(texts(second)[i] == second[i]@);
    }
}

/// The chat loop starts only with settings that are there and hold a token
/// that is not empty. A token that is missing, because there are no
/// settings, because they hold no such key or because its value is empty,
/// ends the process with success; the process ends so in no other case.
pub proof fn the_chat_loop_starts_only_with_a_token(settings: Option<Seq<char>>)
    ensures
        startup_for(settings) matches StartupView::Run(token) ==> settings is Some && token.len()
            > 0,
        settings is None ==> startup_for(settings) == StartupView::WriteTemplate,
        exit_code_for(startup_for(settings)) == Some(0i32) <==> startup_for(settings)
            == StartupView::WriteTemplate || startup_for(settings) == StartupView::Incomplete,
        exit_code_for(startup_for(settings)) is None <==> startup_for(settings) is Run
            || startup_for(settings) is Invalid,
{
}

/// What is decided of a document that was read: without the key `token` the
/// template is written, with an empty text under it the startup stops, with
/// another text under it the chat loop starts with that text, and only a
/// value under it that is no text is refused. Whatever else the document
/// holds changes nothing.
pub proof fn a_missing_token_ends_the_startup_cleanly(document: TomlView)
    ensures
        document.entry("token"@) is None ==> startup_for_document(document)
            == StartupView::WriteTemplate,
        document.entry("token"@) matches Some(TomlView::Text(token)) ==> startup_for_document(
            document,
        ) == if token.len() == 0 {
            StartupView::Incomplete
        } else {
            StartupView::Run(token)
        },
        startup_for_document(document) is Invalid <==> (document.entry("token"@) matches Some(
            value,
        ) && value.text() is None),
        document.entry("token"@) is None || document.entry("token"@) == Some(
            TomlView::Text(Seq::empty()),
        ) ==> exit_code_for(startup_for_document(document)) == Some(0i32),
{
}

} // verus!

//! Reading the raw status text into a typed report.
//!
//! The status text is a JSON list of objects, one per instance. Each has a
//! text member `instance` and a list member `backup`; each element of that
//! list is an object with the text members `id`, `recovery-time`,
//! `backup-mode` and `status`. Members under other keys are not looked at.
//! A member that is absent or of another type makes the whole text a parse
//! error; nothing is filled in.
//!
//! The text is first read as JSON and the members are then looked up in the
//! value that was read. Two things follow from that. A key that an object
//! holds more than once counts by its last value, as the JSON reader keeps
//! it; it is no error. And an instance or a backup must be written as an
//! object: one written as an array of its members' values is refused, with
//! its first member reported as missing.

use vstd::prelude::*;
use vstd::string::*;
use crate::json::{error_message, json_parse, json_view, json_views, member, read_json, JsonView};
use crate::model::{
    backup_views, instance_views, Backup, BackupView, Instance, InstanceView, Report,
};

verus! {

/// The members that the parser requires.
#[derive(Debug, Clone, Copy, PartialEq, Eq)]
pub enum Field {
    Instance,
    Backup,
    Id,
    RecoveryTime,
    BackupMode,
    Status,
}

impl Field {
    /// The key under which the status text holds the field.
    pub open spec fn key_text(self) -> Seq<char> {
        match self {
            Field::Instance => "instance"@,
            Field::Backup => "backup"@,
            Field::Id => "id"@,
            Field::RecoveryTime => "recovery-time"@,
            Field::BackupMode => "backup-mode"@,
            Field::Status => "status"@,
        }
    }

    /// The key under which the status text holds the field.
    pub fn key(&self) -> (key: &'static str)
        ensures
            key@ == self.key_text(),
    {
        match self {
            Field::Instance => "instance",
            Field::Backup => "backup",
            Field::Id => "id",
            Field::RecoveryTime => "recovery-time",
            Field::BackupMode => "backup-mode",
            Field::Status => "status",
        }
    }
}

/// Why a status text could not be read.
#[derive(Debug, Clone, PartialEq, Eq)]
pub enum ParseError {
    /// The text is no JSON; the message is the JSON reader's own.
    Syntax(String),
    /// The text is JSON, but no list.
    NotAList,
    /// An instance or a backup lacks a required member.
    MissingField(Field),
    /// A required member is there, but is not of the type that is required:
    /// a list for `backup`, text for the others.
    WrongType(Field),
}

/// What a [`ParseError`] holds.
pub ghost enum ParseErrorView {
    Syntax(Seq<char>),
    NotAList,
    MissingField(Field),
    WrongType(Field),
}

impl View for ParseError {
    type V = ParseErrorView;

    open spec fn view(&self) -> ParseErrorView {
        match self {
            ParseError::Syntax(message) => ParseErrorView::Syntax(message@),
            ParseError::NotAList => ParseErrorView::NotAList,
            ParseError::MissingField(field) => ParseErrorView::MissingField(*field),
            ParseError::WrongType(field) => ParseErrorView::WrongType(*field),
        }
    }
}

/// The description of a parse error, as it is shown to the operator.
pub open spec fn description_text(error: ParseErrorView) -> Seq<char> {
    match error {
        ParseErrorView::Syntax(message) => message,
        ParseErrorView::NotAList => "invalid type: expected a list of instances"@,
        ParseErrorView::MissingField(field) => "missing field `"@ + field.key_text() + "`"@,
        ParseErrorView::WrongType(field) => "invalid type for field `"@ + field.key_text() + "`"@,
    }
}

impl ParseError {
    /// A description of what failed, for the operator to read. A syntax
    /// error is described by the JSON reader's message, unchanged.
    pub fn description(&self) -> (text: String)
        ensures
            text@ == description_text(self@),
    {
        match self {
            ParseError::Syntax(message) => message.clone(),
            ParseError::NotAList => "invalid type: expected a list of instances".to_owned(),
            ParseError::MissingField(field) => {
                let mut text = "missing field `".to_owned();
                text.append(field.key());
                text.append("`");
                text
            },
            ParseError::WrongType(field) => {
                let mut text = "invalid type for field `".to_owned();
                text.append(field.key());
                text.append("`");
                text
            },
        }
    }
}

/// The text member of a JSON value under a field's key.
pub open spec fn text_of(json: JsonView, field: Field) -> Result<Seq<char>, ParseErrorView> {
    match json.member(field.key_text()) {
        None => Err(ParseErrorView::MissingField(field)),
        Some(found) => match found.text() {
            None => Err(ParseErrorView::WrongType(field)),
            Some(text) => Ok(text),
        },
    }
}

/// The list member of a JSON value under a field's key.
pub open spec fn list_of(json: JsonView, field: Field) -> Result<Seq<JsonView>, ParseErrorView> {
    match json.member(field.key_text()) {
        None => Err(ParseErrorView::MissingField(field)),
        Some(found) => match found.elements() {
            None => Err(ParseErrorView::WrongType(field)),
            Some(elements) => Ok(elements),
        },
    }
}

/// The backup that a JSON value denotes. Its four members are read in the
/// order id, recovery time, backup mode, status; the first that fails gives
/// the error.
pub open spec fn backup_of(json: JsonView) -> Result<BackupView, ParseErrorView> {
    match text_of(json, Field::Id) {
        Err(error) => Err(error),
        Ok(id) => match text_of(json, Field::RecoveryTime) {
            Err(error) => Err(error),
            Ok(recovery_time) => match text_of(json, Field::BackupMode) {
                Err(error) => Err(error),
                Ok(backup_mode) => match text_of(json, Field::Status) {
                    Err(error) => Err(error),
                    Ok(status) => Ok(BackupView { id, recovery_time, backup_mode, status }),
                },
            },
        },
    }
}

/// The readings of the elements of a list, in the list's order, where
/// `each` reads one element; where some element is refused, the error of
/// the first that is.
pub open spec fn read_all<T>(
    items: Seq<JsonView>,
    each: spec_fn(JsonView) -> Result<T, ParseErrorView>,
) -> Result<Seq<T>, ParseErrorView>
    decreases items.len(),
{
    if items.len() == 0 {
        Ok(Seq::empty())
    } else {
        match read_all(items.drop_last(), each) {
            Err(error) => Err(error),
            Ok(read) => match each(items.last()) {
                Err(error) => Err(error),
                Ok(one) => Ok(read.push(one)),
            },
        }
    }
}

/// The reading of one element as a backup.
pub open spec fn backup_reader() -> spec_fn(JsonView) -> Result<BackupView, ParseErrorView> {
    |json: JsonView| backup_of(json)
}

/// The reading of one element as an instance.
pub open spec fn instance_reader() -> spec_fn(JsonView) -> Result<InstanceView, ParseErrorView> {
    |json: JsonView| instance_of(json)
}

/// The backups that a list of JSON values denotes, in the list's order; where
/// some element fails, the error of the first that does.
pub open spec fn backups_of(items: Seq<JsonView>) -> Result<Seq<BackupView>, ParseErrorView> {
    read_all(items, backup_reader())
}

/// The instance that a JSON value denotes: its name first, then its backups.
pub open spec fn instance_of(json: JsonView) -> Result<InstanceView, ParseErrorView> {
    match text_of(json, Field::Instance) {
        Err(error) => Err(error),
        Ok(name) => match list_of(json, Field::Backup) {
            Err(error) => Err(error),
            Ok(items) => match backups_of(items) {
                Err(error) => Err(error),
                Ok(backups) => Ok(InstanceView { name, backups }),
            },
        },
    }
}

/// The instances that a list of JSON values denotes, in the list's order;
/// where some element fails, the error of the first that does.
pub open spec fn instances_of(items: Seq<JsonView>) -> Result<Seq<InstanceView>, ParseErrorView> {
    read_all(items, instance_reader())
}

/// The report that a JSON value denotes.
pub open spec fn report_of(json: JsonView) -> Result<Seq<InstanceView>, ParseErrorView> {
    match json.elements() {
        None => Err(ParseErrorView::NotAList),
        Some(items) => instances_of(items),
    }
}

/// The report that a status text denotes.
pub open spec fn parsed(raw: Seq<char>) -> Result<Seq<InstanceView>, ParseErrorView> {
    match json_parse(raw) {
        Err(message) => Err(ParseErrorView::Syntax(message)),
        Ok(json) => report_of(json),
    }
}

/// What the outcome of a parse holds.
pub open spec fn outcome_view(outcome: Result<Report, ParseError>) -> Result<
    Seq<InstanceView>,
    ParseErrorView,
> {
    match outcome {
        Ok(report) => Ok(report@),
        Err(error) => Err(error@),
    }
}

fn read_text(value: &serde_json::Value, field: Field) -> (outcome: Result<String, ParseError>)
    ensures
        match outcome {
            Ok(text) => text_of(json_view(*value), field) matches Ok(read) && read == text@,
            Err(error) => text_of(json_view(*value), field) matches Err(reason) && reason == error@,
        },
{
    match member(value, field.key()) {
        None => Err(ParseError::MissingField(field)),
        Some(found) => match found.as_str() {
            None => Err(ParseError::WrongType(field)),
            Some(text) => Ok(text.to_owned()),
        },
    }
}

fn read_list<'a>(value: &'a serde_json::Value, field: Field) -> (outcome: Result<
    &'a Vec<serde_json::Value>,
    ParseError,
>)
    ensures
        match outcome {
            Ok(items) => list_of(json_view(*value), field) matches Ok(read) && read == json_views(
                items@,
            ),
            Err(error) => list_of(json_view(*value), field) matches Err(reason) && reason == error@,
        },
{
    match member(value, field.key()) {
        None => Err(ParseError::MissingField(field)),
        Some(found) => match found.as_array() {
            None => Err(ParseError::WrongType(field)),
            Some(items) => Ok(items),
        },
    }
}

fn read_backup(value: &serde_json::Value) -> (outcome: Result<Backup, ParseError>)
    ensures
        match outcome {
            Ok(backup) => backup_of(json_view(*value)) matches Ok(read) && read == backup@,
            Err(error) => backup_of(json_view(*value)) matches Err(reason) && reason == error@,
        },
{
    let id = match read_text(value, Field::Id) {
        Ok(text) => text,
        Err(error) => {
            return Err(error);
        },
    };
    let recovery_time = match read_text(value, Field::RecoveryTime) {
        Ok(text) => text,
        Err(error) => {
            return Err(error);
        },
    };
    let backup_mode = match read_text(value, Field::BackupMode) {
        Ok(text) => text,
        Err(error) => {
            return Err(error);
        },
    };
    let status = match read_text(value, Field::Status) {
        Ok(text) => text,
        Err(error) => {
            return Err(error);
        },
    };
    Ok(Backup { id, recovery_time, backup_mode, status })
}

fn read_backups(items: &Vec<serde_json::Value>) -> (outcome: Result<Vec<Backup>, ParseError>)
    ensures
        match outcome {
            Ok(backups) => backups_of(json_views(items@)) matches Ok(read) && read == backup_views(
                backups@,
            ),
            Err(error) => backups_of(json_views(items@)) matches Err(reason) && reason == error@,
        },
{
    let mut backups: Vec<Backup> = Vec::new();
    let mut i: usize = 0;
    assert(backup_views(backups@) =~= Seq::empty());
    while i < items.len()
        invariant
            i <= items.len(),
            backups_of(json_views(items@).take(i as int)) matches Ok(read) && read
                == backup_views(backups@),
        decreases items.len() - i,
    {
        assert(json_views(items@).take(i + 1).drop_last() =~= json_views(items@).take(i as int));
        match read_backup(&items[i]) {
            Ok(backup) => {
                let ghost before = backup_views(backups@);
                backups.push(backup);
                assert(backup_views(backups@) =~= before.push(backup@));
            },
            Err(error) => {
                proof {
                    lemma_error_stays(json_views(items@), backup_reader(), i + 1);
                }
                return Err(error);
            },
        }
        i += 1;
    }
    assert(json_views(items@).take(i as int) =~= json_views(items@));
    Ok(backups)
}

fn read_instance(value: &serde_json::Value) -> (outcome: Result<Instance, ParseError>)
    ensures
        match outcome {
            Ok(instance) => instance_of(json_view(*value)) matches Ok(read) && read == instance@,
            Err(error) => instance_of(json_view(*value)) matches Err(reason) && reason == error@,
        },
{
    let name = match read_text(value, Field::Instance) {
        Ok(text) => text,
        Err(error) => {
            return Err(error);
        },
    };
    let items = match read_list(value, Field::Backup) {
        Ok(items) => items,
        Err(error) => {
            return Err(error);
        },
    };
    match read_backups(items) {
        Ok(backups) => Ok(Instance { name, backups }),
        Err(error) => Err(error),
    }
}

fn read_instances(items: &Vec<serde_json::Value>) -> (outcome: Result<Vec<Instance>, ParseError>)
    ensures
        match outcome {
            Ok(instances) => instances_of(json_views(items@)) matches Ok(read) && read
                == instance_views(instances@),
            Err(error) => instances_of(json_views(items@)) matches Err(reason) && reason == error@,
        },
{
    let mut instances: Vec<Instance> = Vec::new();
    let mut i: usize = 0;
    assert(instance_views(instances@) =~= Seq::empty());
    while i < items.len()
        invariant
            i <= items.len(),
            instances_of(json_views(items@).take(i as int)) matches Ok(read) && read
                == instance_views(instances@),
        decreases items.len() - i,
    {
        assert(json_views(items@).take(i + 1).drop_last() =~= json_views(items@).take(i as int));
        match read_instance(&items[i]) {
            Ok(instance) => {
                let ghost before = instance_views(instances@);
                instances.push(instance);
                assert(instance_views(instances@) =~= before.push(instance@));
            },
            Err(error) => {
                proof {
                    lemma_error_stays(json_views(items@), instance_reader(), i + 1);
                }
                return Err(error);
            },
        }
        i += 1;
    }
    assert(json_views(items@).take(i as int) =~= json_views(items@));
    Ok(instances)
}

/// An error among the first elements of a list is the error of the whole
/// list, whatever reads the elements.
proof fn lemma_error_stays<T>(
    items: Seq<JsonView>,
    each: spec_fn(JsonView) -> Result<T, ParseErrorView>,
    n: int,
)
    requires
        0 <= n <= items.len(),
        read_all(items.take(n), each) is Err,
    ensures
        read_all(items, each) == read_all(items.take(n), each),
    decreases items.len() - n,
{
    if n < items.len() {
        assert(items.take(n + 1).drop_last() =~= items.take(n));
        lemma_error_stays(items, each, n + 1);
    } else {
        assert(items.take(n) =~= items);
    }
}

/// Reads a report out of a JSON value.
///
/// The value must be a list; each element is read as an instance, in order,
/// and the first failure ends the reading with its error.
pub fn report_from_json(value: &serde_json::Value) -> (outcome: Result<Report, ParseError>)
    ensures
        outcome_view(outcome) == report_of(json_view(*value)),
{
    match value.as_array() {
        None => Err(ParseError::NotAList),
        Some(items) => match read_instances(items) {
            Ok(instances) => Ok(Report { instances }),
            Err(error) => Err(error),
        },
    }
}

/// Reads a report out of the raw status text.
///
/// A text that is no JSON gives a syntax error with the JSON reader's
/// message; JSON of another shape than a list of instances gives the error
/// of the first place where it departs from that shape.
pub fn parse_report(raw: &str) -> (outcome: Result<Report, ParseError>)
    ensures
        outcome_view(outcome) == parsed(raw@),
{
    match read_json(raw) {
        Err(error) => Err(ParseError::Syntax(error_message(&error))),
        Ok(value) => report_from_json(&value),
    }
}

} // verus!

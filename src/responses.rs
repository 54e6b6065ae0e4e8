//! The response of the method `/me`: the identity of the bot, and its strict
//! decoder from JSON text.
//!
//! A required field (`user_id`, `first_name`, `is_bot`, `last_activity_time`,
//! `commands`) must be present and of its type; an optional one may be absent or
//! `null`. Fields not named here are ignored. Fields are checked in the order in
//! which the structure declares them, and the first fault found is reported.

use crate::error::{JsonError, JsonFault};
use crate::json::{
    find_member, json_array_of, json_bool_of, json_i64_of, json_object_of, json_opt_string_of,
    json_string_of, member, members_view, parse_array, parse_bool, parse_i64, parse_object,
    parse_opt_string, parse_string,
};
use vstd::prelude::*;

verus! {

/// Response of the method `/me`: information about the current bot.
#[derive(Debug, Clone, PartialEq, Eq)]
pub struct GetMeResponse {
    /// Identifier of the user.
    pub user_id: i64,
    /// Display first name.
    pub first_name: String,
    /// Display last name.
    pub last_name: Option<String>,
    /// Display name. Deprecated alias of `first_name`, which callers should prefer;
    /// still filled in by the API.
    pub name: Option<String>,
    /// Unique public handle.
    pub username: Option<String>,
    /// Whether the user is a bot.
    pub is_bot: bool,
    /// Time of last activity, Unix time in milliseconds.
    pub last_activity_time: i64,
    /// Description of the user.
    pub description: Option<String>,
    /// URL of the avatar.
    pub avatar_url: Option<String>,
    /// URL of the larger avatar.
    pub full_avatar_url: Option<String>,
    /// Commands supported by the bot (at most 32 by the API's contract).
    pub commands: Vec<BotCommand>,
}

/// A command of the bot.
#[derive(Debug, Clone, PartialEq, Eq)]
pub struct BotCommand {
    /// Name of the command (1 to 64 characters by the API's contract).
    pub name: String,
    /// Description of the command.
    pub description: Option<String>,
}

/// A [`BotCommand`] as a mathematical value.
pub struct CommandModel {
    pub name: Seq<char>,
    pub description: Option<Seq<char>>,
}

/// A [`GetMeResponse`] as a mathematical value.
pub struct IdentityModel {
    pub user_id: i64,
    pub first_name: Seq<char>,
    pub last_name: Option<Seq<char>>,
    pub name: Option<Seq<char>>,
    pub username: Option<Seq<char>>,
    pub is_bot: bool,
    pub last_activity_time: i64,
    pub description: Option<Seq<char>>,
    pub avatar_url: Option<Seq<char>>,
    pub full_avatar_url: Option<Seq<char>>,
    pub commands: Seq<CommandModel>,
}

pub open spec fn opt_view(o: Option<String>) -> Option<Seq<char>> {
    match o {
        Some(s) => Some(s@),
        None => None,
    }
}

pub open spec fn commands_view(cs: Seq<BotCommand>) -> Seq<CommandModel> {
    cs.map_values(|c: BotCommand| c@)
}

impl View for BotCommand {
    type V = CommandModel;

    open spec fn view(&self) -> CommandModel {
        CommandModel { name: self.name@, description: opt_view(self.description) }
    }
}

impl View for GetMeResponse {
    type V = IdentityModel;

    open spec fn view(&self) -> IdentityModel {
        IdentityModel {
            user_id: self.user_id,
            first_name: self.first_name@,
            last_name: opt_view(self.last_name),
            name: opt_view(self.name),
            username: opt_view(self.username),
            is_bot: self.is_bot,
            last_activity_time: self.last_activity_time,
            description: opt_view(self.description),
            avatar_url: opt_view(self.avatar_url),
            full_avatar_url: opt_view(self.full_avatar_url),
            commands: commands_view(self.commands@),
        }
    }
}

/// The required integer member `key` of the object with members `ms`.
pub open spec fn required_i64(ms: Seq<(Seq<char>, Seq<char>)>, key: Seq<char>) -> Result<i64, JsonFault> {
    match member(ms, key) {
        None => Err(JsonFault::MissingField(key)),
        Some(raw) => match json_i64_of(raw) {
            Some(v) => Ok(v),
            None => Err(JsonFault::InvalidField(key)),
        },
    }
}

/// The required boolean member `key` of the object with members `ms`.
pub open spec fn required_bool(ms: Seq<(Seq<char>, Seq<char>)>, key: Seq<char>) -> Result<bool, JsonFault> {
    match member(ms, key) {
        None => Err(JsonFault::MissingField(key)),
        Some(raw) => match json_bool_of(raw) {
            Some(v) => Ok(v),
            None => Err(JsonFault::InvalidField(key)),
        },
    }
}

/// The required string member `key` of the object with members `ms`.
pub open spec fn required_string(ms: Seq<(Seq<char>, Seq<char>)>, key: Seq<char>) -> Result<Seq<char>, JsonFault> {
    match member(ms, key) {
        None => Err(JsonFault::MissingField(key)),
        Some(raw) => match json_string_of(raw) {
            Some(v) => Ok(v),
            None => Err(JsonFault::InvalidField(key)),
        },
    }
}

/// The optional string member `key` of the object with members `ms`: absent and
/// `null` both read as `None`.
pub open spec fn optional_string(ms: Seq<(Seq<char>, Seq<char>)>, key: Seq<char>) -> Result<Option<Seq<char>>, JsonFault> {
    match member(ms, key) {
        None => Ok(None),
        Some(raw) => match json_opt_string_of(raw) {
            Some(v) => Ok(v),
            None => Err(JsonFault::InvalidField(key)),
        },
    }
}

/// The command written as the JSON text `raw`.
pub open spec fn command_of(raw: Seq<char>) -> Result<CommandModel, JsonFault> {
    match json_object_of(raw) {
        None => Err(JsonFault::Malformed),
        Some(ms) => {
            let name = required_string(ms, "name"@);
            let description = optional_string(ms, "description"@);
            if name is Err {
                Err(name->Err_0)
            } else if description is Err {
                Err(description->Err_0)
            } else {
                Ok(CommandModel { name: name->Ok_0, description: description->Ok_0 })
            }
        },
    }
}

/// The commands written as the JSON texts `items`, or the fault of the first
/// item that is not a command.
pub open spec fn commands_from(items: Seq<Seq<char>>) -> Result<Seq<CommandModel>, JsonFault>
    decreases items.len(),
{
    if items.len() == 0 {
        Ok(Seq::empty())
    } else {
        match commands_from(items.drop_last()) {
            Err(f) => Err(f),
            Ok(cs) => match command_of(items.last()) {
                Err(f) => Err(f),
                Ok(c) => Ok(cs.push(c)),
            },
        }
    }
}

/// The required member `commands` of the object with members `ms`.
pub open spec fn required_commands(ms: Seq<(Seq<char>, Seq<char>)>) -> Result<Seq<CommandModel>, JsonFault> {
    match member(ms, "commands"@) {
        None => Err(JsonFault::MissingField("commands"@)),
        Some(raw) => match json_array_of(raw) {
            None => Err(JsonFault::InvalidField("commands"@)),
            Some(items) => commands_from(items),
        },
    }
}

/// The bot identity held by an object with members `ms`.
pub open spec fn identity_from_members(ms: Seq<(Seq<char>, Seq<char>)>) -> Result<IdentityModel, JsonFault> {
    let user_id = required_i64(ms, "user_id"@);
    let first_name = required_string(ms, "first_name"@);
    let last_name = optional_string(ms, "last_name"@);
    let name = optional_string(ms, "name"@);
    let username = optional_string(ms, "username"@);
    let is_bot = required_bool(ms, "is_bot"@);
    let last_activity_time = required_i64(ms, "last_activity_time"@);
    let description = optional_string(ms, "description"@);
    let avatar_url = optional_string(ms, "avatar_url"@);
    let full_avatar_url = optional_string(ms, "full_avatar_url"@);
    let commands = required_commands(ms);
    if user_id is Err {
        Err(user_id->Err_0)
    } else if first_name is Err {
        Err(first_name->Err_0)
    } else if last_name is Err {
        Err(last_name->Err_0)
    } else if name is Err {
        Err(name->Err_0)
    } else if username is Err {
        Err(username->Err_0)
    } else if is_bot is Err {
        Err(is_bot->Err_0)
    } else if last_activity_time is Err {
        Err(last_activity_time->Err_0)
    } else if description is Err {
        Err(description->Err_0)
    } else if avatar_url is Err {
        Err(avatar_url->Err_0)
    } else if full_avatar_url is Err {
        Err(full_avatar_url->Err_0)
    } else if commands is Err {
        Err(commands->Err_0)
    } else {
        Ok(
            IdentityModel {
                user_id: user_id->Ok_0,
                first_name: first_name->Ok_0,
                last_name: last_name->Ok_0,
                name: name->Ok_0,
                username: username->Ok_0,
                is_bot: is_bot->Ok_0,
                last_activity_time: last_activity_time->Ok_0,
                description: description->Ok_0,
                avatar_url: avatar_url->Ok_0,
                full_avatar_url: full_avatar_url->Ok_0,
                commands: commands->Ok_0,
            },
        )
    }
}

/// The bot identity written as the JSON text `text`.
pub open spec fn identity_of(text: Seq<char>) -> Result<IdentityModel, JsonFault> {
    match json_object_of(text) {
        None => Err(JsonFault::Malformed),
        Some(ms) => identity_from_members(ms),
    }
}

fn invalid_field(key: &str, e: serde_json::Error) -> (r: JsonError)
    ensures
        r@ == JsonFault::InvalidField(key@),
{
    JsonError::InvalidField(String::from_str(key), e.to_string())
}

fn read_i64(ms: &Vec<(String, String)>, key: &str) -> (r: Result<i64, JsonError>)
    ensures
        match r {
            Ok(v) => required_i64(members_view(ms@), key@) == Ok::<i64, JsonFault>(v),
            Err(e) => required_i64(members_view(ms@), key@) == Err::<i64, JsonFault>(e@),
        },
{
    match find_member(ms, key) {
        None => Err(JsonError::MissingField(String::from_str(key))),
        Some(raw) => match parse_i64(raw.as_str()) {
            Ok(v) => Ok(v),
            Err(e) => Err(invalid_field(key, e)),
        },
    }
}

fn read_bool(ms: &Vec<(String, String)>, key: &str) -> (r: Result<bool, JsonError>)
    ensures
        match r {
            Ok(v) => required_bool(members_view(ms@), key@) == Ok::<bool, JsonFault>(v),
            Err(e) => required_bool(members_view(ms@), key@) == Err::<bool, JsonFault>(e@),
        },
{
    match find_member(ms, key) {
        None => Err(JsonError::MissingField(String::from_str(key))),
        Some(raw) => match parse_bool(raw.as_str()) {
            Ok(v) => Ok(v),
            Err(e) => Err(invalid_field(key, e)),
        },
    }
}

fn read_string(ms: &Vec<(String, String)>, key: &str) -> (r: Result<String, JsonError>)
    ensures
        match r {
            Ok(v) => required_string(members_view(ms@), key@) == Ok::<Seq<char>, JsonFault>(v@),
            Err(e) => required_string(members_view(ms@), key@) == Err::<Seq<char>, JsonFault>(e@),
        },
{
    match find_member(ms, key) {
        None => Err(JsonError::MissingField(String::from_str(key))),
        Some(raw) => match parse_string(raw.as_str()) {
            Ok(v) => Ok(v),
            Err(e) => Err(invalid_field(key, e)),
        },
    }
}

fn read_opt_string(ms: &Vec<(String, String)>, key: &str) -> (r: Result<Option<String>, JsonError>)
    ensures
        match r {
            Ok(v) => optional_string(members_view(ms@), key@) == Ok::<Option<Seq<char>>, JsonFault>(opt_view(v)),
            Err(e) => optional_string(members_view(ms@), key@) == Err::<Option<Seq<char>>, JsonFault>(e@),
        },
{
    match find_member(ms, key) {
        None => Ok(None),
        Some(raw) => match parse_opt_string(raw.as_str()) {
            Ok(v) => Ok(v),
            Err(e) => Err(invalid_field(key, e)),
        },
    }
}


impl BotCommand {
    /// Reads a command from the JSON text `raw`.
    pub fn from_json(raw: &str) -> (r: Result<BotCommand, JsonError>)
        ensures
            match r {
                Ok(c) => command_of(raw@) == Ok::<CommandModel, JsonFault>(c@),
                Err(e) => command_of(raw@) == Err::<CommandModel, JsonFault>(e@),
            },
    {
        let ms = match parse_object(raw) {
            Ok(ms) => ms,
            Err(e) => return Err(JsonError::Malformed(e.to_string())),
        };
        let name = match read_string(&ms, "name") {
            Ok(v) => v,
            Err(e) => return Err(e),
        };
        let description = match read_opt_string(&ms, "description") {
            Ok(v) => v,
            Err(e) => return Err(e),
        };
        Ok(BotCommand { name, description })
    }
}

/// Once a prefix of the items holds a fault, every longer prefix holds the same.
proof fn lemma_commands_error_persists(items: Seq<Seq<char>>, k: int, m: int)
    requires
        0 <= k <= m <= items.len(),
        commands_from(items.take(k)) is Err,
    ensures
        commands_from(items.take(m)) == commands_from(items.take(k)),
    decreases m - k,
{
    if m > k {
        lemma_commands_error_persists(items, k, m - 1);
        assert(items.take(m).drop_last() =~= items.take(m - 1));
    }
}

fn read_commands(ms: &Vec<(String, String)>) -> (r: Result<Vec<BotCommand>, JsonError>)
    ensures
        match r {
            Ok(cs) => required_commands(members_view(ms@)) == Ok::<Seq<CommandModel>, JsonFault>(commands_view(cs@)),
            Err(e) => required_commands(members_view(ms@)) == Err::<Seq<CommandModel>, JsonFault>(e@),
        },
{
    let raw = match find_member(ms, "commands") {
        None => return Err(JsonError::MissingField(String::from_str("commands"))),
        Some(raw) => raw,
    };
    let items = match parse_array(raw.as_str()) {
        Ok(items) => items,
        Err(e) => return Err(invalid_field("commands", e)),
    };
    let ghost iv = items@.map_values(|s: String| s@);
    let mut out: Vec<BotCommand> = Vec::new();
    let mut i: usize = 0;
    assert(iv.take(0) =~= Seq::<Seq<char>>::empty());
    assert(commands_view(out@) =~= Seq::<CommandModel>::empty());
    while i < items.len()
        invariant
            0 <= i <= items.len(),
            iv == items@.map_values(|s: String| s@),
            json_array_of(raw@) == Some(iv),
            member(members_view(ms@), "commands"@) == Some(raw@),
            commands_from(iv.take(i as int)) == Ok::<Seq<CommandModel>, JsonFault>(commands_view(out@)),
        decreases items.len() - i,
    {
        assert(iv.take(i + 1).drop_last() =~= iv.take(i as int));
        assert(iv.take(i + 1).last() == items@[i as int]@);
        match BotCommand::from_json(items[i].as_str()) {
            Ok(c) => {
                let ghost prev = out@;
                out.push(c);
                assert(commands_view(out@) =~= commands_view(prev).push(c@));
            },
            Err(e) => {
                proof {
                    assert(commands_from(iv.take(i + 1)) == Err::<Seq<CommandModel>, JsonFault>(e@));
                    lemma_commands_error_persists(iv, i + 1, iv.len() as int);
                    assert(iv.take(iv.len() as int) =~= iv);
                }
                return Err(e);
            },
        }
        i = i + 1;
    }
    assert(iv.take(i as int) =~= iv);
    Ok(out)
}


impl GetMeResponse {
    /// Reads the bot identity from the JSON text `text`, strictly: it fails, with
    /// the first fault, exactly where [`identity_of`] does, and never yields a
    /// partly filled value.
    pub fn from_json(text: &str) -> (r: Result<GetMeResponse, JsonError>)
        ensures
            match r {
                Ok(v) => identity_of(text@) == Ok::<IdentityModel, JsonFault>(v@),
                Err(e) => identity_of(text@) == Err::<IdentityModel, JsonFault>(e@),
            },
    {
        let ms = match parse_object(text) {
            Ok(ms) => ms,
            Err(e) => return Err(JsonError::Malformed(e.to_string())),
        };
        let user_id = match read_i64(&ms, "user_id") {
            Ok(v) => v,
            Err(e) => return Err(e),
        };
        let first_name = match read_string(&ms, "first_name") {
            Ok(v) => v,
            Err(e) => return Err(e),
        };
        let last_name = match read_opt_string(&ms, "last_name") {
            Ok(v) => v,
            Err(e) => return Err(e),
        };
        let name = match read_opt_string(&ms, "name") {
            Ok(v) => v,
            Err(e) => return Err(e),
        };
        let username = match read_opt_string(&ms, "username") {
            Ok(v) => v,
            Err(e) => return Err(e),
        };
        let is_bot = match read_bool(&ms, "is_bot") {
            Ok(v) => v,
            Err(e) => return Err(e),
        };
        let last_activity_time = match read_i64(&ms, "last_activity_time") {
            Ok(v) => v,
            Err(e) => return Err(e),
        };
        let description = match read_opt_string(&ms, "description") {
            Ok(v) => v,
            Err(e) => return Err(e),
        };
        let avatar_url = match read_opt_string(&ms, "avatar_url") {
            Ok(v) => v,
            Err(e) => return Err(e),
        };
        let full_avatar_url = match read_opt_string(&ms, "full_avatar_url") {
            Ok(v) => v,
            Err(e) => return Err(e),
        };
        let commands = match read_commands(&ms) {
            Ok(v) => v,
            Err(e) => return Err(e),
        };
        Ok(
            GetMeResponse {
                user_id,
                first_name,
                last_name,
                name,
                username,
                is_bot,
                last_activity_time,
                description,
                avatar_url,
                full_avatar_url,
                commands,
            },
        )
    }
}


/// A body that is a JSON object whose required members hold values of their
/// types, and whose optional members are absent, `null` or strings, decodes to an
/// identity whose required fields are exactly those values.
pub proof fn lemma_conforming_body_decodes(
    text: Seq<char>,
    user_id: i64,
    first_name: Seq<char>,
    is_bot: bool,
    last_activity_time: i64,
    items: Seq<Seq<char>>,
    commands: Seq<CommandModel>,
)
    requires
        json_object_of(text) is Some,
        ({
            let ms = json_object_of(text)->Some_0;
            &&& member(ms, "user_id"@) is Some
            &&& json_i64_of(member(ms, "user_id"@)->Some_0) == Some(user_id)
            &&& member(ms, "first_name"@) is Some
            &&& json_string_of(member(ms, "first_name"@)->Some_0) == Some(first_name)
            &&& member(ms, "is_bot"@) is Some
            &&& json_bool_of(member(ms, "is_bot"@)->Some_0) == Some(is_bot)
            &&& member(ms, "last_activity_time"@) is Some
            &&& json_i64_of(member(ms, "last_activity_time"@)->Some_0) == Some(last_activity_time)
            &&& member(ms, "commands"@) is Some
            &&& json_array_of(member(ms, "commands"@)->Some_0) == Some(items)
            &&& optional_string(ms, "last_name"@) is Ok
            &&& optional_string(ms, "name"@) is Ok
            &&& optional_string(ms, "username"@) is Ok
            &&& optional_string(ms, "description"@) is Ok
            &&& optional_string(ms, "avatar_url"@) is Ok
            &&& optional_string(ms, "full_avatar_url"@) is Ok
        }),
        commands_from(items) == Ok::<Seq<CommandModel>, JsonFault>(commands),
    ensures
        identity_of(text) is Ok,
        identity_of(text)->Ok_0.user_id == user_id,
        identity_of(text)->Ok_0.first_name == first_name,
        identity_of(text)->Ok_0.is_bot == is_bot,
        identity_of(text)->Ok_0.last_activity_time == last_activity_time,
        identity_of(text)->Ok_0.commands == commands,
{
}

/// A body that is not a JSON object is rejected as malformed.
pub proof fn lemma_malformed_body_rejected(text: Seq<char>)
    requires
        json_object_of(text) is None,
    ensures
        identity_of(text) == Err::<IdentityModel, JsonFault>(JsonFault::Malformed),
{
}

/// A body that lacks a required member is rejected: no identity, not even a
/// partial one, comes of it.
pub proof fn lemma_missing_required_field_rejected(text: Seq<char>, key: Seq<char>)
    requires
        json_object_of(text) is Some,
        key == "user_id"@ || key == "first_name"@ || key == "is_bot"@ || key
            == "last_activity_time"@ || key == "commands"@,
        member(json_object_of(text)->Some_0, key) is None,
    ensures
        identity_of(text) is Err,
{
}

/// Decoding the same body twice gives structurally equal identities.
pub proof fn lemma_decoding_is_repeatable(text: Seq<char>, first: GetMeResponse, second: GetMeResponse)
    requires
        identity_of(text) == Ok::<IdentityModel, JsonFault>(first@),
        identity_of(text) == Ok::<IdentityModel, JsonFault>(second@),
    ensures
        first@ == second@,
{
}

} // verus!

//! Commands as the controller writes them: one JSON object whose `_type`
//! names the command and whose other fields are the command's own.

use crate::inform::payload::command::{
    OpnFiInformPayloadCmdCommand, OpnFiInformPayloadCommand, OpnFiInformPayloadNoOpCommand,
    OpnFiInformPayloadRebootCommand, OpnFiInformPayloadSetDefaultCommand,
    OpnFiInformPayloadSetParamsCommand, OpnFiInformPayloadUpgradeCommand,
};
use crate::error::OpnFiError;
use vstd::prelude::*;
use vstd::string::StringExecFns;

verus! {

/// What a field of a JSON object holds, as far as a command can use it.
#[derive(PartialEq, Eq, Clone, Debug)]
pub enum JsonValue {
    /// `null`.
    Null,
    /// `true` or `false`.
    Flag(bool),
    /// A whole number from 0 to `u64::MAX`.
    Number(u64),
    /// A string.
    Text(String),
    /// Any other number, an array or an object.
    Other,
}

/// One field of a JSON object.
#[derive(PartialEq, Eq, Clone, Debug)]
pub struct JsonField {
    pub name: String,
    pub value: JsonValue,
}

/// What a `JsonValue` holds, with text as characters.
pub enum JsonValueView {
    Null,
    Flag(bool),
    Number(u64),
    Text(Seq<char>),
    Other,
}

impl View for JsonValue {
    type V = JsonValueView;

    open spec fn view(&self) -> JsonValueView {
        match self {
            JsonValue::Null => JsonValueView::Null,
            JsonValue::Flag(b) => JsonValueView::Flag(*b),
            JsonValue::Number(n) => JsonValueView::Number(*n),
            JsonValue::Text(s) => JsonValueView::Text(s@),
            JsonValue::Other => JsonValueView::Other,
        }
    }
}

/// The fields as pairs of a name and what it holds, in order.
pub open spec fn field_views(fields: Seq<JsonField>) -> Seq<(Seq<char>, JsonValueView)> {
    fields.map_values(|f: JsonField| (f.name@, f.value@))
}

/// The fields of the JSON object that `serde_json` reads out of `data`, each
/// name once; `None` where `data` is not JSON or is not an object.
pub uninterp spec fn json_fields(data: Seq<u8>) -> Option<Seq<(Seq<char>, JsonValueView)>>;

/// `serde_json::from_slice` to a `serde_json::Value`: gives the fields of the
/// object that `data` holds, each as the kind of value it is, and `None`
/// where `data` is not JSON or holds something other than an object.
#[verifier::external_body]
pub(crate) fn json_object(data: &[u8]) -> (r: Option<Vec<JsonField>>)
    ensures
        r is Some <==> json_fields(data@) is Some,
        r matches Some(v) ==> json_fields(data@) == Some(field_views(v@)),
{
    let serde_json::Value::Object(map) = serde_json::from_slice(data).ok()? else {
        return None;
    };
    let mut out = Vec::new();
    for (name, v) in map {
        let value = match v {
            serde_json::Value::Null => JsonValue::Null,
            serde_json::Value::Bool(b) => JsonValue::Flag(b),
            serde_json::Value::String(s) => JsonValue::Text(s),
            serde_json::Value::Number(n) => n.as_u64().map_or(JsonValue::Other, JsonValue::Number),
            _ => JsonValue::Other,
        };
        out.push(JsonField { name, value });
    }
    Some(out)
}

/// What a command holds, with text as characters.
pub enum CommandView {
    NoOp { interval: u64, server_time_in_utc: Seq<char> },
    SetParam {
        mgmt_cfg: Option<Seq<char>>,
        system_cfg: Option<Seq<char>>,
        blocked_sta: Option<Seq<char>>,
        server_time_in_utc: Seq<char>,
    },
    Upgrade { md5sum: Seq<char>, url: Seq<char>, version: Seq<char>, server_time_in_utc: Seq<char> },
    Reboot {
        id: Seq<char>,
        datetime: Seq<char>,
        device_id: Seq<char>,
        reboot_type: Seq<char>,
        server_time_in_utc: Seq<char>,
        time: u64,
    },
    Cmd {
        id: Seq<char>,
        cmd: Seq<char>,
        date_time: Seq<char>,
        device_id: Seq<char>,
        server_time_in_utc: Seq<char>,
        time: u64,
        use_alert: bool,
    },
    SetDefault { server_time_in_utc: Seq<char> },
}

/// An optional text as characters.
pub open spec fn optional_view(text: Option<String>) -> Option<Seq<char>> {
    match text {
        Some(s) => Some(s@),
        None => None,
    }
}

impl View for OpnFiInformPayloadCommand {
    type V = CommandView;

    open spec fn view(&self) -> CommandView {
        match self {
            OpnFiInformPayloadCommand::NoOp(c) => CommandView::NoOp {
                interval: c.interval,
                server_time_in_utc: c.server_time_in_utc@,
            },
            OpnFiInformPayloadCommand::SetParam(c) => CommandView::SetParam {
                mgmt_cfg: optional_view(c.mgmt_cfg),
                system_cfg: optional_view(c.system_cfg),
                blocked_sta: optional_view(c.blocked_sta),
                server_time_in_utc: c.server_time_in_utc@,
            },
            OpnFiInformPayloadCommand::Upgrade(c) => CommandView::Upgrade {
                md5sum: c.md5sum@,
                url: c.url@,
                version: c.version@,
                server_time_in_utc: c.server_time_in_utc@,
            },
            OpnFiInformPayloadCommand::Reboot(c) => CommandView::Reboot {
                id: c.id@,
                datetime: c.datetime@,
                device_id: c.device_id@,
                reboot_type: c.reboot_type@,
                server_time_in_utc: c.server_time_in_utc@,
                time: c.time,
            },
            OpnFiInformPayloadCommand::Cmd(c) => CommandView::Cmd {
                id: c.id@,
                cmd: c.cmd@,
                date_time: c.date_time@,
                device_id: c.device_id@,
                server_time_in_utc: c.server_time_in_utc@,
                time: c.time,
                use_alert: c.use_alert,
            },
            OpnFiInformPayloadCommand::SetDefault(c) => CommandView::SetDefault {
                server_time_in_utc: c.server_time_in_utc@,
            },
        }
    }
}

/// What the first field of this name holds; `None` where no field has the name.
pub open spec fn field_of(fields: Seq<(Seq<char>, JsonValueView)>, name: Seq<char>) -> Option<
    JsonValueView,
>
    decreases fields.len(),
{
    if fields.len() == 0 {
        None
    } else if fields[0].0 == name {
        Some(fields[0].1)
    } else {
        field_of(fields.skip(1), name)
    }
}

/// The text of a field that has to be there and to be a string.
pub open spec fn text_field(fields: Seq<(Seq<char>, JsonValueView)>, name: Seq<char>) -> Option<
    Seq<char>,
> {
    match field_of(fields, name) {
        Some(JsonValueView::Text(s)) => Some(s),
        _ => None,
    }
}

/// The number of a field that has to be there and to be a whole number from 0 on.
pub open spec fn number_field(fields: Seq<(Seq<char>, JsonValueView)>, name: Seq<char>) -> Option<
    u64,
> {
    match field_of(fields, name) {
        Some(JsonValueView::Number(n)) => Some(n),
        _ => None,
    }
}

/// The flag of a field that has to be there and to be `true` or `false`.
pub open spec fn flag_field(fields: Seq<(Seq<char>, JsonValueView)>, name: Seq<char>) -> Option<
    bool,
> {
    match field_of(fields, name) {
        Some(JsonValueView::Flag(b)) => Some(b),
        _ => None,
    }
}

/// The text of a field that may be missing or `null`: then there is no text.
/// `None` where the field holds something that is neither a string nor `null`.
pub open spec fn optional_text_field(
    fields: Seq<(Seq<char>, JsonValueView)>,
    name: Seq<char>,
) -> Option<Option<Seq<char>>> {
    match field_of(fields, name) {
        None => Some(None),
        Some(JsonValueView::Null) => Some(None),
        Some(JsonValueView::Text(s)) => Some(Some(s)),
        _ => None,
    }
}

/// The `noop` command that the fields spell.
pub open spec fn noop_of(f: Seq<(Seq<char>, JsonValueView)>) -> Option<CommandView> {
    match (number_field(f, "interval"@), text_field(f, "server_time_in_utc"@)) {
        (Some(interval), Some(server_time_in_utc)) => Some(
            CommandView::NoOp { interval, server_time_in_utc },
        ),
        _ => None,
    }
}

/// The `setparam` command that the fields spell.
pub open spec fn setparam_of(f: Seq<(Seq<char>, JsonValueView)>) -> Option<CommandView> {
    match (
        optional_text_field(f, "mgmt_cfg"@),
        optional_text_field(f, "system_cfg"@),
        optional_text_field(f, "blocked_sta"@),
        text_field(f, "server_time_in_utc"@),
    ) {
        (Some(mgmt_cfg), Some(system_cfg), Some(blocked_sta), Some(server_time_in_utc)) => Some(
            CommandView::SetParam { mgmt_cfg, system_cfg, blocked_sta, server_time_in_utc },
        ),
        _ => None,
    }
}

/// The `upgrade` command that the fields spell.
pub open spec fn upgrade_of(f: Seq<(Seq<char>, JsonValueView)>) -> Option<CommandView> {
    match (
        text_field(f, "md5sum"@),
        text_field(f, "url"@),
        text_field(f, "version"@),
        text_field(f, "server_time_in_utc"@),
    ) {
        (Some(md5sum), Some(url), Some(version), Some(server_time_in_utc)) => Some(
            CommandView::Upgrade { md5sum, url, version, server_time_in_utc },
        ),
        _ => None,
    }
}

/// The `reboot` command that the fields spell.
pub open spec fn reboot_of(f: Seq<(Seq<char>, JsonValueView)>) -> Option<CommandView> {
    match (
        text_field(f, "_id"@),
        text_field(f, "datetime"@),
        text_field(f, "device_id"@),
        text_field(f, "reboot_type"@),
        text_field(f, "server_time_in_utc"@),
        number_field(f, "time"@),
    ) {
        (
            Some(id),
            Some(datetime),
            Some(device_id),
            Some(reboot_type),
            Some(server_time_in_utc),
            Some(time),
        ) => Some(
            CommandView::Reboot { id, datetime, device_id, reboot_type, server_time_in_utc, time },
        ),
        _ => None,
    }
}

/// The `cmd` command that the fields spell.
pub open spec fn cmd_of(f: Seq<(Seq<char>, JsonValueView)>) -> Option<CommandView> {
    match (
        text_field(f, "_id"@),
        text_field(f, "cmd"@),
        text_field(f, "date_time"@),
        text_field(f, "device_id"@),
        text_field(f, "server_time_in_utc"@),
        number_field(f, "time"@),
        flag_field(f, "use_alert"@),
    ) {
        (
            Some(id),
            Some(cmd),
            Some(date_time),
            Some(device_id),
            Some(server_time_in_utc),
            Some(time),
            Some(use_alert),
        ) => Some(
            CommandView::Cmd {
                id,
                cmd,
                date_time,
                device_id,
                server_time_in_utc,
                time,
                use_alert,
            },
        ),
        _ => None,
    }
}

/// The `setdefault` command that the fields spell.
pub open spec fn setdefault_of(f: Seq<(Seq<char>, JsonValueView)>) -> Option<CommandView> {
    match text_field(f, "server_time_in_utc"@) {
        Some(server_time_in_utc) => Some(CommandView::SetDefault { server_time_in_utc }),
        None => None,
    }
}

/// The command that the fields of an object spell: the text of `_type` names
/// it, in lower case, and each of its own fields has to be there and of its
/// kind, but for the optional texts of `setparam`. Fields that the command does
/// not know are passed over. `None` where the fields spell no command.
pub open spec fn command_of_fields(f: Seq<(Seq<char>, JsonValueView)>) -> Option<CommandView> {
    match text_field(f, "_type"@) {
        None => None,
        Some(kind) => if kind == "noop"@ {
            noop_of(f)
        } else if kind == "setparam"@ {
            setparam_of(f)
        } else if kind == "upgrade"@ {
            upgrade_of(f)
        } else if kind == "reboot"@ {
            reboot_of(f)
        } else if kind == "cmd"@ {
            cmd_of(f)
        } else if kind == "setdefault"@ {
            setdefault_of(f)
        } else {
            None
        },
    }
}

/// The command that `data` spells; `None` where it is no JSON object or its
/// fields spell no command.
pub open spec fn command_parse(data: Seq<u8>) -> Option<CommandView> {
    match json_fields(data) {
        Some(f) => command_of_fields(f),
        None => None,
    }
}

/// What the first field of this name holds.
fn get_field<'a>(fields: &'a Vec<JsonField>, name: &str) -> (r: Option<&'a JsonValue>)
    ensures
        match field_of(field_views(fields@), name@) {
            Some(v) => r matches Some(x) && x@ == v,
            None => r is None,
        },
{
    let ghost all = field_views(fields@);
    let wanted = String::from_str(name);
    let n: usize = fields.len();
    let mut i: usize = 0;
    proof {
        assert(all.skip(0) =~= all);
    }
    while i < n
        invariant
            i <= n,
            n == fields@.len(),
            all == field_views(fields@),
            wanted@ == name@,
            field_of(all, name@) == field_of(all.skip(i as int), name@),
        decreases n - i,
    {
        proof {
            assert(all.skip(i as int)[0] == all[i as int]);
            assert(all.skip(i as int).skip(1) =~= all.skip(i + 1));
        }
        if fields[i].name == wanted {
            return Some(&fields[i].value);
        }
        i += 1;
    }
    None
}

/// The text of a field that has to be there and to be a string.
fn get_text(fields: &Vec<JsonField>, name: &str) -> (r: Option<String>)
    ensures
        match text_field(field_views(fields@), name@) {
            Some(s) => r matches Some(x) && x@ == s,
            None => r is None,
        },
{
    match get_field(fields, name) {
        Some(JsonValue::Text(s)) => Some(s.clone()),
        _ => None,
    }
}

/// The number of a field that has to be there and to be a whole number from 0 on.
fn get_number(fields: &Vec<JsonField>, name: &str) -> (r: Option<u64>)
    ensures
        r == number_field(field_views(fields@), name@),
{
    match get_field(fields, name) {
        Some(JsonValue::Number(n)) => Some(*n),
        _ => None,
    }
}

/// The flag of a field that has to be there and to be `true` or `false`.
fn get_flag(fields: &Vec<JsonField>, name: &str) -> (r: Option<bool>)
    ensures
        r == flag_field(field_views(fields@), name@),
{
    match get_field(fields, name) {
        Some(JsonValue::Flag(b)) => Some(*b),
        _ => None,
    }
}

/// The text of a field that may be missing or `null`.
fn get_optional_text(fields: &Vec<JsonField>, name: &str) -> (r: Option<Option<String>>)
    ensures
        match optional_text_field(field_views(fields@), name@) {
            Some(t) => r matches Some(x) && optional_view(x) == t,
            None => r is None,
        },
{
    match get_field(fields, name) {
        None => Some(None),
        Some(JsonValue::Null) => Some(None),
        Some(JsonValue::Text(s)) => Some(Some(s.clone())),
        _ => None,
    }
}

/// The `noop` command that the fields spell.
fn noop_from(f: &Vec<JsonField>) -> (r: Option<OpnFiInformPayloadCommand>)
    ensures
        match noop_of(field_views(f@)) {
            Some(c) => r matches Some(x) && x@ == c,
            None => r is None,
        },
{
    let interval = get_number(f, "interval");
    let server_time_in_utc = get_text(f, "server_time_in_utc");
    match (interval, server_time_in_utc) {
        (Some(interval), Some(server_time_in_utc)) => Some(
            OpnFiInformPayloadCommand::NoOp(
                OpnFiInformPayloadNoOpCommand { interval, server_time_in_utc },
            ),
        ),
        _ => None,
    }
}

/// The `setparam` command that the fields spell.
fn setparam_from(f: &Vec<JsonField>) -> (r: Option<OpnFiInformPayloadCommand>)
    ensures
        match setparam_of(field_views(f@)) {
            Some(c) => r matches Some(x) && x@ == c,
            None => r is None,
        },
{
    let mgmt_cfg = get_optional_text(f, "mgmt_cfg");
    let system_cfg = get_optional_text(f, "system_cfg");
    let blocked_sta = get_optional_text(f, "blocked_sta");
    let server_time_in_utc = get_text(f, "server_time_in_utc");
    match (mgmt_cfg, system_cfg, blocked_sta, server_time_in_utc) {
        (Some(mgmt_cfg), Some(system_cfg), Some(blocked_sta), Some(server_time_in_utc)) => Some(
            OpnFiInformPayloadCommand::SetParam(
                OpnFiInformPayloadSetParamsCommand {
                    mgmt_cfg,
                    system_cfg,
                    blocked_sta,
                    server_time_in_utc,
                },
            ),
        ),
        _ => None,
    }
}

/// The `upgrade` command that the fields spell.
fn upgrade_from(f: &Vec<JsonField>) -> (r: Option<OpnFiInformPayloadCommand>)
    ensures
        match upgrade_of(field_views(f@)) {
            Some(c) => r matches Some(x) && x@ == c,
            None => r is None,
        },
{
    let md5sum = get_text(f, "md5sum");
    let url = get_text(f, "url");
    let version = get_text(f, "version");
    let server_time_in_utc = get_text(f, "server_time_in_utc");
    match (md5sum, url, version, server_time_in_utc) {
        (Some(md5sum), Some(url), Some(version), Some(server_time_in_utc)) => Some(
            OpnFiInformPayloadCommand::Upgrade(
                OpnFiInformPayloadUpgradeCommand { md5sum, url, version, server_time_in_utc },
            ),
        ),
        _ => None,
    }
}

/// The `reboot` command that the fields spell.
fn reboot_from(f: &Vec<JsonField>) -> (r: Option<OpnFiInformPayloadCommand>)
    ensures
        match reboot_of(field_views(f@)) {
            Some(c) => r matches Some(x) && x@ == c,
            None => r is None,
        },
{
    let id = get_text(f, "_id");
    let datetime = get_text(f, "datetime");
    let device_id = get_text(f, "device_id");
    let reboot_type = get_text(f, "reboot_type");
    let server_time_in_utc = get_text(f, "server_time_in_utc");
    let time = get_number(f, "time");
    match (id, datetime, device_id, reboot_type, server_time_in_utc, time) {
        (
            Some(id),
            Some(datetime),
            Some(device_id),
            Some(reboot_type),
            Some(server_time_in_utc),
            Some(time),
        ) => Some(
            OpnFiInformPayloadCommand::Reboot(
                OpnFiInformPayloadRebootCommand {
                    id,
                    datetime,
                    device_id,
                    reboot_type,
                    server_time_in_utc,
                    time,
                },
            ),
        ),
        _ => None,
    }
}

/// The `cmd` command that the fields spell.
fn cmd_from(f: &Vec<JsonField>) -> (r: Option<OpnFiInformPayloadCommand>)
    ensures
        match cmd_of(field_views(f@)) {
            Some(c) => r matches Some(x) && x@ == c,
            None => r is None,
        },
{
    let id = get_text(f, "_id");
    let cmd = get_text(f, "cmd");
    let date_time = get_text(f, "date_time");
    let device_id = get_text(f, "device_id");
    let server_time_in_utc = get_text(f, "server_time_in_utc");
    let time = get_number(f, "time");
    let use_alert = get_flag(f, "use_alert");
    match (id, cmd, date_time, device_id, server_time_in_utc, time, use_alert) {
        (
            Some(id),
            Some(cmd),
            Some(date_time),
            Some(device_id),
            Some(server_time_in_utc),
            Some(time),
            Some(use_alert),
        ) => Some(
            OpnFiInformPayloadCommand::Cmd(
                OpnFiInformPayloadCmdCommand {
                    id,
                    cmd,
                    date_time,
                    device_id,
                    server_time_in_utc,
                    time,
                    use_alert,
                },
            ),
        ),
        _ => None,
    }
}

/// The `setdefault` command that the fields spell.
fn setdefault_from(f: &Vec<JsonField>) -> (r: Option<OpnFiInformPayloadCommand>)
    ensures
        match setdefault_of(field_views(f@)) {
            Some(c) => r matches Some(x) && x@ == c,
            None => r is None,
        },
{
    match get_text(f, "server_time_in_utc") {
        Some(server_time_in_utc) => Some(
            OpnFiInformPayloadCommand::SetDefault(
                OpnFiInformPayloadSetDefaultCommand { server_time_in_utc },
            ),
        ),
        None => None,
    }
}

impl OpnFiInformPayloadCommand {
    /// The command that the fields of an object spell, see `command_of_fields`.
    pub fn from_fields(fields: &Vec<JsonField>) -> (r: Option<Self>)
        ensures
            match command_of_fields(field_views(fields@)) {
                Some(c) => r matches Some(x) && x@ == c,
                None => r is None,
            },
    {
        let kind = match get_text(fields, "_type") {
            Some(kind) => kind,
            None => {
                return None;
            },
        };
        if kind == String::from_str("noop") {
            noop_from(fields)
        } else if kind == String::from_str("setparam") {
            setparam_from(fields)
        } else if kind == String::from_str("upgrade") {
            upgrade_from(fields)
        } else if kind == String::from_str("reboot") {
            reboot_from(fields)
        } else if kind == String::from_str("cmd") {
            cmd_from(fields)
        } else if kind == String::from_str("setdefault") {
            setdefault_from(fields)
        } else {
            None
        }
    }

    /// The command that the JSON text `data` spells, see `command_parse`;
    /// `SerdeJsonError` where it spells none.
    pub fn from_data(data: &[u8]) -> (r: Result<Self, OpnFiError>)
        ensures
            match command_parse(data@) {
                Some(c) => r matches Ok(x) && x@ == c,
                None => r == Err::<Self, OpnFiError>(OpnFiError::SerdeJsonError),
            },
    {
        match json_object(data) {
            Some(fields) => match OpnFiInformPayloadCommand::from_fields(&fields) {
                Some(c) => Ok(c),
                None => Err(OpnFiError::SerdeJsonError),
            },
            None => Err(OpnFiError::SerdeJsonError),
        }
    }

    /// The command that the JSON text `data` spells; where it spells none, the
    /// command to inform again after 10 seconds.
    pub fn from_data_or_default(data: &[u8]) -> (r: Self)
        ensures
            match command_parse(data@) {
                Some(c) => r@ == c,
                None => r matches OpnFiInformPayloadCommand::NoOp(noop) && noop.interval == 10,
            },
    {
        match OpnFiInformPayloadCommand::from_data(data) {
            Ok(c) => c,
            Err(_) => OpnFiInformPayloadCommand::NoOp(OpnFiInformPayloadNoOpCommand::default()),
        }
    }
}

/// What the payload of a frame is read as.
#[derive(PartialEq, Clone, Debug)]
pub enum ParsedPayload {
    /// A command of the controller.
    Command(OpnFiInformPayloadCommand),
    /// A JSON object whose `_type` names no command: the report of a device,
    /// which is not looked into here.
    Report,
    /// Anything else: no JSON object, or a command whose fields do not fit.
    Unreadable,
}

/// What a `ParsedPayload` holds.
pub enum ParsedPayloadView {
    Command(CommandView),
    Report,
    Unreadable,
}

impl View for ParsedPayload {
    type V = ParsedPayloadView;

    open spec fn view(&self) -> ParsedPayloadView {
        match self {
            ParsedPayload::Command(c) => ParsedPayloadView::Command(c@),
            ParsedPayload::Report => ParsedPayloadView::Report,
            ParsedPayload::Unreadable => ParsedPayloadView::Unreadable,
        }
    }
}

/// Whether the text names a command.
pub open spec fn names_command(kind: Seq<char>) -> bool {
    kind == "noop"@ || kind == "setparam"@ || kind == "upgrade"@ || kind == "reboot"@ || kind
        == "cmd"@ || kind == "setdefault"@
}

/// What the fields of an object are read as: a command where the text of
/// `_type` names one and the fields fit it, unreadable where they do not fit,
/// and a report where `_type` is missing, is no text or names no command.
pub open spec fn payload_of_fields(f: Seq<(Seq<char>, JsonValueView)>) -> ParsedPayloadView {
    match text_field(f, "_type"@) {
        Some(kind) => if names_command(kind) {
            match command_of_fields(f) {
                Some(c) => ParsedPayloadView::Command(c),
                None => ParsedPayloadView::Unreadable,
            }
        } else {
            ParsedPayloadView::Report
        },
        None => ParsedPayloadView::Report,
    }
}

/// What the JSON text `data` is read as; unreadable where it is no JSON object.
pub open spec fn payload_parse(data: Seq<u8>) -> ParsedPayloadView {
    match json_fields(data) {
        Some(f) => payload_of_fields(f),
        None => ParsedPayloadView::Unreadable,
    }
}

impl ParsedPayload {
    /// What the fields of an object are read as, see `payload_of_fields`.
    pub fn from_fields(fields: &Vec<JsonField>) -> (r: Self)
        ensures
            r@ == payload_of_fields(field_views(fields@)),
    {
        let kind = match get_text(fields, "_type") {
            Some(kind) => kind,
            None => {
                return ParsedPayload::Report;
            },
        };
        if kind == String::from_str("noop") || kind == String::from_str("setparam") || kind
            == String::from_str("upgrade") || kind == String::from_str("reboot") || kind
            == String::from_str("cmd") || kind == String::from_str("setdefault") {
            match OpnFiInformPayloadCommand::from_fields(fields) {
                Some(c) => ParsedPayload::Command(c),
                None => ParsedPayload::Unreadable,
            }
        } else {
            ParsedPayload::Report
        }
    }

    /// What the JSON text `data` is read as, see `payload_parse`.
    pub fn from_data(data: &[u8]) -> (r: Self)
        ensures
            r@ == payload_parse(data@),
    {
        match json_object(data) {
            Some(fields) => ParsedPayload::from_fields(&fields),
            None => ParsedPayload::Unreadable,
        }
    }
}

} // verus!

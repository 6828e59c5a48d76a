//! Requests that are carried out by the COM server of the terminal: what they
//! ask for, and the answers as JSON values. Flags are numbers there: zero is
//! false.
use super::cli_channel;
use crate::app::notifications;
use crate::app::notifications::str_or;
use crate::json;
use crate::json::{add_member, array, object, parse_json, text_value, Json, JsonNumber, JsonView, NumberView};
use crate::text;
use crate::text::same_text;
use vstd::prelude::*;

verus! {

/// A window of the terminal.
#[derive(Debug)]
pub struct ProtocolWindowInfo {
    pub window_id: String,
    pub title: String,
    pub is_focused: i32,
    pub tab_count: u32,
}

/// A tab of a window.
#[derive(Debug)]
pub struct ProtocolTabInfo {
    pub tab_id: String,
    pub window_id: String,
    pub title: String,
    pub is_active: i32,
    pub pane_count: u32,
}

/// A pane of a tab.
#[derive(Debug)]
pub struct ProtocolPaneInfo {
    pub pane_id: String,
    pub tab_id: String,
    pub window_id: String,
    pub title: String,
    pub profile: String,
    pub is_active: i32,
    pub pid: u32,
    pub rows: i32,
    pub columns: i32,
}

/// What stands in a pane.
#[derive(Debug)]
pub struct ProtocolPaneOutput {
    pub pane_id: String,
    pub content: String,
    pub line_count: i32,
    pub truncated: i32,
}

/// The process of a pane.
#[derive(Debug)]
pub struct ProtocolProcessStatus {
    pub pane_id: String,
    pub state: String,
    pub pid: u32,
    pub exit_code: i32,
    pub has_exit_code: i32,
}

/// A variable of a pane.
#[derive(Debug)]
pub struct ProtocolSessionVariable {
    pub pane_id: String,
    pub name: String,
    pub value: String,
    pub exists: i32,
}

/// A pane that was opened.
#[derive(Debug)]
pub struct ProtocolTabCreationResult {
    pub tab_id: String,
    pub pane_id: String,
    pub window_id: String,
    pub pid: u32,
}

/// A whole number as a JSON value.
pub open spec fn number(n: int) -> JsonView {
    JsonView::Number(
        if n < 0 {
            NumberView::Negative(n as i64)
        } else {
            NumberView::Unsigned(n as u64)
        },
    )
}

fn number_value(n: i64) -> (value: Json)
    ensures
        value@ == number(n as int),
{
    if n < 0 {
        Json::Number(JsonNumber::Negative(n))
    } else {
        Json::Number(JsonNumber::Unsigned(n as u64))
    }
}

fn flag_value(flag: i32) -> (value: Json)
    ensures
        value@ == JsonView::Bool(flag != 0),
{
    Json::Bool(flag != 0)
}

fn no_members() -> (members: Vec<(String, Json)>)
    ensures
        json::members_view(members@) == Seq::<(Seq<char>, JsonView)>::empty(),
{
    let members: Vec<(String, Json)> = Vec::new();
    assert(json::members_view(members@) =~= Seq::<(Seq<char>, JsonView)>::empty());
    members
}

/// A window as a JSON value.
pub open spec fn window_value(w: ProtocolWindowInfo) -> JsonView {
    JsonView::Object(
        seq![
            ("window_id"@, JsonView::Text(w.window_id@)),
            ("title"@, JsonView::Text(w.title@)),
            ("is_focused"@, JsonView::Bool(w.is_focused != 0)),
            ("tab_count"@, number(w.tab_count as int)),
        ],
    )
}

/// A window as a JSON value.
pub fn window_json(w: &ProtocolWindowInfo) -> (value: Json)
    ensures
        value@ == window_value(*w),
{
    let mut members = no_members();
    add_member(&mut members, "window_id", text_value(w.window_id.as_str()));
    add_member(&mut members, "title", text_value(w.title.as_str()));
    add_member(&mut members, "is_focused", flag_value(w.is_focused));
    add_member(&mut members, "tab_count", number_value(w.tab_count as i64));
    assert(json::members_view(members@) =~= seq![
        ("window_id"@, JsonView::Text(w.window_id@)),
        ("title"@, JsonView::Text(w.title@)),
        ("is_focused"@, JsonView::Bool(w.is_focused != 0)),
        ("tab_count"@, number(w.tab_count as int)),
    ]);
    object(members)
}

/// A tab as a JSON value.
pub open spec fn tab_value(t: ProtocolTabInfo) -> JsonView {
    JsonView::Object(
        seq![
            ("tab_id"@, JsonView::Text(t.tab_id@)),
            ("window_id"@, JsonView::Text(t.window_id@)),
            ("title"@, JsonView::Text(t.title@)),
            ("is_active"@, JsonView::Bool(t.is_active != 0)),
            ("pane_count"@, number(t.pane_count as int)),
        ],
    )
}

/// A tab as a JSON value.
pub fn tab_json(t: &ProtocolTabInfo) -> (value: Json)
    ensures
        value@ == tab_value(*t),
{
    let mut members = no_members();
    add_member(&mut members, "tab_id", text_value(t.tab_id.as_str()));
    add_member(&mut members, "window_id", text_value(t.window_id.as_str()));
    add_member(&mut members, "title", text_value(t.title.as_str()));
    add_member(&mut members, "is_active", flag_value(t.is_active));
    add_member(&mut members, "pane_count", number_value(t.pane_count as i64));
    assert(json::members_view(members@) =~= seq![
        ("tab_id"@, JsonView::Text(t.tab_id@)),
        ("window_id"@, JsonView::Text(t.window_id@)),
        ("title"@, JsonView::Text(t.title@)),
        ("is_active"@, JsonView::Bool(t.is_active != 0)),
        ("pane_count"@, number(t.pane_count as int)),
    ]);
    object(members)
}

/// The pane in front as a JSON value.
pub open spec fn active_pane_value(p: ProtocolPaneInfo) -> JsonView {
    JsonView::Object(
        seq![
            ("pane_id"@, JsonView::Text(p.pane_id@)),
            ("tab_id"@, JsonView::Text(p.tab_id@)),
            ("window_id"@, JsonView::Text(p.window_id@)),
            ("title"@, JsonView::Text(p.title@)),
            ("profile"@, JsonView::Text(p.profile@)),
            ("is_active"@, JsonView::Bool(p.is_active != 0)),
            ("pid"@, number(p.pid as int)),
        ],
    )
}

/// The pane in front as a JSON value.
pub fn active_pane_json(p: &ProtocolPaneInfo) -> (value: Json)
    ensures
        value@ == active_pane_value(*p),
{
    let mut members = no_members();
    add_member(&mut members, "pane_id", text_value(p.pane_id.as_str()));
    add_member(&mut members, "tab_id", text_value(p.tab_id.as_str()));
    add_member(&mut members, "window_id", text_value(p.window_id.as_str()));
    add_member(&mut members, "title", text_value(p.title.as_str()));
    add_member(&mut members, "profile", text_value(p.profile.as_str()));
    add_member(&mut members, "is_active", flag_value(p.is_active));
    add_member(&mut members, "pid", number_value(p.pid as i64));
    assert(json::members_view(members@) =~= seq![
        ("pane_id"@, JsonView::Text(p.pane_id@)),
        ("tab_id"@, JsonView::Text(p.tab_id@)),
        ("window_id"@, JsonView::Text(p.window_id@)),
        ("title"@, JsonView::Text(p.title@)),
        ("profile"@, JsonView::Text(p.profile@)),
        ("is_active"@, JsonView::Bool(p.is_active != 0)),
        ("pid"@, number(p.pid as int)),
    ]);
    object(members)
}

/// The size of a pane as a JSON value.
pub open spec fn size_value(p: ProtocolPaneInfo) -> JsonView {
    JsonView::Object(
        seq![("rows"@, number(p.rows as int)), ("columns"@, number(p.columns as int))],
    )
}

fn size_json(p: &ProtocolPaneInfo) -> (value: Json)
    ensures
        value@ == size_value(*p),
{
    let mut members = no_members();
    add_member(&mut members, "rows", number_value(p.rows as i64));
    add_member(&mut members, "columns", number_value(p.columns as i64));
    assert(json::members_view(members@) =~= seq![
        ("rows"@, number(p.rows as int)),
        ("columns"@, number(p.columns as int)),
    ]);
    object(members)
}

/// A pane of a list as a JSON value, with its size.
pub open spec fn pane_value(p: ProtocolPaneInfo) -> JsonView {
    JsonView::Object(
        seq![
            ("pane_id"@, JsonView::Text(p.pane_id@)),
            ("tab_id"@, JsonView::Text(p.tab_id@)),
            ("window_id"@, JsonView::Text(p.window_id@)),
            ("title"@, JsonView::Text(p.title@)),
            ("profile"@, JsonView::Text(p.profile@)),
            ("is_active"@, JsonView::Bool(p.is_active != 0)),
            ("pid"@, number(p.pid as int)),
            ("size"@, size_value(p)),
        ],
    )
}

/// A pane of a list as a JSON value, with its size.
pub fn pane_json(p: &ProtocolPaneInfo) -> (value: Json)
    ensures
        value@ == pane_value(*p),
{
    let mut members = no_members();
    add_member(&mut members, "pane_id", text_value(p.pane_id.as_str()));
    add_member(&mut members, "tab_id", text_value(p.tab_id.as_str()));
    add_member(&mut members, "window_id", text_value(p.window_id.as_str()));
    add_member(&mut members, "title", text_value(p.title.as_str()));
    add_member(&mut members, "profile", text_value(p.profile.as_str()));
    add_member(&mut members, "is_active", flag_value(p.is_active));
    add_member(&mut members, "pid", number_value(p.pid as i64));
    add_member(&mut members, "size", size_json(p));
    assert(json::members_view(members@) =~= seq![
        ("pane_id"@, JsonView::Text(p.pane_id@)),
        ("tab_id"@, JsonView::Text(p.tab_id@)),
        ("window_id"@, JsonView::Text(p.window_id@)),
        ("title"@, JsonView::Text(p.title@)),
        ("profile"@, JsonView::Text(p.profile@)),
        ("is_active"@, JsonView::Bool(p.is_active != 0)),
        ("pid"@, number(p.pid as int)),
        ("size"@, size_value(*p)),
    ]);
    object(members)
}

/// The text of a pane as a JSON value.
pub open spec fn output_value(o: ProtocolPaneOutput) -> JsonView {
    JsonView::Object(
        seq![
            ("pane_id"@, JsonView::Text(o.pane_id@)),
            ("content"@, JsonView::Text(o.content@)),
            ("line_count"@, number(o.line_count as int)),
            ("truncated"@, JsonView::Bool(o.truncated != 0)),
        ],
    )
}

/// The text of a pane as a JSON value.
pub fn output_json(o: &ProtocolPaneOutput) -> (value: Json)
    ensures
        value@ == output_value(*o),
{
    let mut members = no_members();
    add_member(&mut members, "pane_id", text_value(o.pane_id.as_str()));
    add_member(&mut members, "content", text_value(o.content.as_str()));
    add_member(&mut members, "line_count", number_value(o.line_count as i64));
    add_member(&mut members, "truncated", flag_value(o.truncated));
    assert(json::members_view(members@) =~= seq![
        ("pane_id"@, JsonView::Text(o.pane_id@)),
        ("content"@, JsonView::Text(o.content@)),
        ("line_count"@, number(o.line_count as int)),
        ("truncated"@, JsonView::Bool(o.truncated != 0)),
    ]);
    object(members)
}

/// A pane that was opened as a JSON value.
pub open spec fn created_value(c: ProtocolTabCreationResult) -> JsonView {
    JsonView::Object(
        seq![
            ("tab_id"@, JsonView::Text(c.tab_id@)),
            ("pane_id"@, JsonView::Text(c.pane_id@)),
            ("window_id"@, JsonView::Text(c.window_id@)),
            ("pid"@, number(c.pid as int)),
        ],
    )
}

/// A pane that was opened as a JSON value.
pub fn created_json(c: &ProtocolTabCreationResult) -> (value: Json)
    ensures
        value@ == created_value(*c),
{
    let mut members = no_members();
    add_member(&mut members, "tab_id", text_value(c.tab_id.as_str()));
    add_member(&mut members, "pane_id", text_value(c.pane_id.as_str()));
    add_member(&mut members, "window_id", text_value(c.window_id.as_str()));
    add_member(&mut members, "pid", number_value(c.pid as i64));
    assert(json::members_view(members@) =~= seq![
        ("tab_id"@, JsonView::Text(c.tab_id@)),
        ("pane_id"@, JsonView::Text(c.pane_id@)),
        ("window_id"@, JsonView::Text(c.window_id@)),
        ("pid"@, number(c.pid as int)),
    ]);
    object(members)
}

/// The process of a pane as a JSON value: the exit code is there where the
/// process has one.
pub open spec fn status_value(s: ProtocolProcessStatus) -> JsonView {
    let members = seq![
        ("pane_id"@, JsonView::Text(s.pane_id@)),
        ("state"@, JsonView::Text(s.state@)),
        ("pid"@, number(s.pid as int)),
    ];
    JsonView::Object(
        if s.has_exit_code != 0 {
            members.push(("exit_code"@, number(s.exit_code as int)))
        } else {
            members
        },
    )
}

/// The process of a pane as a JSON value.
pub fn status_json(s: &ProtocolProcessStatus) -> (value: Json)
    ensures
        value@ == status_value(*s),
{
    let mut members = no_members();
    add_member(&mut members, "pane_id", text_value(s.pane_id.as_str()));
    add_member(&mut members, "state", text_value(s.state.as_str()));
    add_member(&mut members, "pid", number_value(s.pid as i64));
    assert(json::members_view(members@) =~= seq![
        ("pane_id"@, JsonView::Text(s.pane_id@)),
        ("state"@, JsonView::Text(s.state@)),
        ("pid"@, number(s.pid as int)),
    ]);
    if s.has_exit_code != 0 {
        add_member(&mut members, "exit_code", number_value(s.exit_code as i64));
    }
    object(members)
}

/// A variable of a pane as a JSON value: the value is null where the variable
/// does not exist.
pub open spec fn variable_value(v: ProtocolSessionVariable) -> JsonView {
    JsonView::Object(
        seq![
            ("pane_id"@, JsonView::Text(v.pane_id@)),
            ("name"@, JsonView::Text(v.name@)),
            (
                "value"@,
                if v.exists != 0 {
                    JsonView::Text(v.value@)
                } else {
                    JsonView::Null
                },
            ),
            ("exists"@, JsonView::Bool(v.exists != 0)),
        ],
    )
}

/// A variable of a pane as a JSON value.
pub fn variable_json(v: &ProtocolSessionVariable) -> (value: Json)
    ensures
        value@ == variable_value(*v),
{
    let held = if v.exists != 0 {
        text_value(v.value.as_str())
    } else {
        Json::Null
    };
    let ghost held_seen = held@;
    let mut members = no_members();
    add_member(&mut members, "pane_id", text_value(v.pane_id.as_str()));
    add_member(&mut members, "name", text_value(v.name.as_str()));
    add_member(&mut members, "value", held);
    add_member(&mut members, "exists", flag_value(v.exists));
    assert(json::members_view(members@) =~= seq![
        ("pane_id"@, JsonView::Text(v.pane_id@)),
        ("name"@, JsonView::Text(v.name@)),
        ("value"@, held_seen),
        ("exists"@, JsonView::Bool(v.exists != 0)),
    ]);
    object(members)
}

/// A list under its name.
pub open spec fn listed(name: Seq<char>, items: Seq<JsonView>) -> JsonView {
    JsonView::Object(seq![(name, JsonView::Array(items))])
}

fn list_json(name: &str, items: Vec<Json>) -> (value: Json)
    ensures
        value@ == listed(name@, items@.map_values(|item: Json| item@)),
{
    let ghost seen = items@.map_values(|item: Json| item@);
    let mut members = no_members();
    add_member(&mut members, name, array(items));
    assert(json::members_view(members@) =~= seq![(name@, JsonView::Array(seen))]);
    object(members)
}

/// The windows as a JSON value.
pub open spec fn windows_value(list: Seq<ProtocolWindowInfo>) -> JsonView {
    listed("windows"@, list.map_values(|item: ProtocolWindowInfo| window_value(item)))
}

/// The windows as a JSON value.
pub fn windows_json(list: &Vec<ProtocolWindowInfo>) -> (value: Json)
    ensures
        value@ == windows_value(list@),
{
    let ghost wanted = list@.map_values(|item: ProtocolWindowInfo| window_value(item));
    let mut items: Vec<Json> = Vec::new();
    let mut i: usize = 0;
    while i < list.len()
        invariant
            i <= list@.len(),
            wanted == list@.map_values(|item: ProtocolWindowInfo| window_value(item)),
            items@.len() == i,
            forall|j: int| 0 <= j < i ==> (#[trigger] items@[j])@ == wanted[j],
        decreases list@.len() - i,
    {
        items.push(window_json(&list[i]));
        i += 1;
    }
    assert(items@.map_values(|item: Json| item@) =~= wanted);
    list_json("windows", items)
}

/// The tabs as a JSON value.
pub open spec fn tabs_value(list: Seq<ProtocolTabInfo>) -> JsonView {
    listed("tabs"@, list.map_values(|item: ProtocolTabInfo| tab_value(item)))
}

/// The tabs as a JSON value.
pub fn tabs_json(list: &Vec<ProtocolTabInfo>) -> (value: Json)
    ensures
        value@ == tabs_value(list@),
{
    let ghost wanted = list@.map_values(|item: ProtocolTabInfo| tab_value(item));
    let mut items: Vec<Json> = Vec::new();
    let mut i: usize = 0;
    while i < list.len()
        invariant
            i <= list@.len(),
            wanted == list@.map_values(|item: ProtocolTabInfo| tab_value(item)),
            items@.len() == i,
            forall|j: int| 0 <= j < i ==> (#[trigger] items@[j])@ == wanted[j],
        decreases list@.len() - i,
    {
        items.push(tab_json(&list[i]));
        i += 1;
    }
    assert(items@.map_values(|item: Json| item@) =~= wanted);
    list_json("tabs", items)
}

/// The panes as a JSON value.
pub open spec fn panes_value(list: Seq<ProtocolPaneInfo>) -> JsonView {
    listed("panes"@, list.map_values(|item: ProtocolPaneInfo| pane_value(item)))
}

/// The panes as a JSON value.
pub fn panes_json(list: &Vec<ProtocolPaneInfo>) -> (value: Json)
    ensures
        value@ == panes_value(list@),
{
    let ghost wanted = list@.map_values(|item: ProtocolPaneInfo| pane_value(item));
    let mut items: Vec<Json> = Vec::new();
    let mut i: usize = 0;
    while i < list.len()
        invariant
            i <= list@.len(),
            wanted == list@.map_values(|item: ProtocolPaneInfo| pane_value(item)),
            items@.len() == i,
            forall|j: int| 0 <= j < i ==> (#[trigger] items@[j])@ == wanted[j],
        decreases list@.len() - i,
    {
        items.push(pane_json(&list[i]));
        i += 1;
    }
    assert(items@.map_values(|item: Json| item@) =~= wanted);
    list_json("panes", items)
}

/// A call of the COM server. How much of a pane the new one takes is not part
/// of `SplitPane`: it is a fraction, which the caller adds.
#[derive(Debug)]
pub enum ComCall {
    Authenticate { token: String },
    GetCapabilities,
    GetActivePane,
    ListWindows,
    ListTabs { window_id: String },
    ListPanes { window_id: String, tab_id: String },
    ReadPaneOutput { pane_id: String, source: String, max_lines: i32 },
    GetProcessStatus { pane_id: String },
    GetSessionVariable { pane_id: String, name: String },
    GetSettings,
    CreateTab { window_id: String, profile: String, commandline: String, title: String, suppress_application_title: bool, inject_mcp_credentials: bool, background: bool },
    SplitPane { pane_id: String, direction: String, profile: String, commandline: String, inject_mcp_credentials: bool, background: bool },
    ClosePane { pane_id: String },
    SendInput { pane_id: String, text: String },
    SetSessionVariable { pane_id: String, name: String, value: String },
    SetSettings { settings: String },
}

pub ghost enum CallView {
    Authenticate { token: Seq<char> },
    GetCapabilities,
    GetActivePane,
    ListWindows,
    ListTabs { window_id: Seq<char> },
    ListPanes { window_id: Seq<char>, tab_id: Seq<char> },
    ReadPaneOutput { pane_id: Seq<char>, source: Seq<char>, max_lines: i32 },
    GetProcessStatus { pane_id: Seq<char> },
    GetSessionVariable { pane_id: Seq<char>, name: Seq<char> },
    GetSettings,
    CreateTab { window_id: Seq<char>, profile: Seq<char>, commandline: Seq<char>, title: Seq<char>, suppress_application_title: bool, inject_mcp_credentials: bool, background: bool },
    SplitPane { pane_id: Seq<char>, direction: Seq<char>, profile: Seq<char>, commandline: Seq<char>, inject_mcp_credentials: bool, background: bool },
    ClosePane { pane_id: Seq<char> },
    SendInput { pane_id: Seq<char>, text: Seq<char> },
    SetSessionVariable { pane_id: Seq<char>, name: Seq<char>, value: Seq<char> },
    SetSettings { settings: Seq<char> },
}

impl View for ComCall {
    type V = CallView;

    open spec fn view(&self) -> CallView {
        match *self {
            ComCall::Authenticate { token } => CallView::Authenticate { token: token@ },
            ComCall::GetCapabilities => CallView::GetCapabilities,
            ComCall::GetActivePane => CallView::GetActivePane,
            ComCall::ListWindows => CallView::ListWindows,
            ComCall::ListTabs { window_id } => CallView::ListTabs { window_id: window_id@ },
            ComCall::ListPanes { window_id, tab_id } => CallView::ListPanes { window_id: window_id@, tab_id: tab_id@ },
            ComCall::ReadPaneOutput { pane_id, source, max_lines } => CallView::ReadPaneOutput { pane_id: pane_id@, source: source@, max_lines },
            ComCall::GetProcessStatus { pane_id } => CallView::GetProcessStatus { pane_id: pane_id@ },
            ComCall::GetSessionVariable { pane_id, name } => CallView::GetSessionVariable { pane_id: pane_id@, name: name@ },
            ComCall::GetSettings => CallView::GetSettings,
            ComCall::CreateTab { window_id, profile, commandline, title, suppress_application_title, inject_mcp_credentials, background } => CallView::CreateTab { window_id: window_id@, profile: profile@, commandline: commandline@, title: title@, suppress_application_title, inject_mcp_credentials, background },
            ComCall::SplitPane { pane_id, direction, profile, commandline, inject_mcp_credentials, background } => CallView::SplitPane { pane_id: pane_id@, direction: direction@, profile: profile@, commandline: commandline@, inject_mcp_credentials, background },
            ComCall::ClosePane { pane_id } => CallView::ClosePane { pane_id: pane_id@ },
            ComCall::SendInput { pane_id, text } => CallView::SendInput { pane_id: pane_id@, text: text@ },
            ComCall::SetSessionVariable { pane_id, name, value } => CallView::SetSessionVariable { pane_id: pane_id@, name: name@, value: value@ },
            ComCall::SetSettings { settings } => CallView::SetSettings { settings: settings@ },
        }
    }
}

/// A parameter that is a text, or what stands in for it.
pub open spec fn text_param(params: JsonView, key: Seq<char>, otherwise: Seq<char>) -> Seq<char> {
    notifications::text_or(params.text_at(key), otherwise)
}

/// A parameter that is a flag, or what stands in for it.
pub open spec fn flag_param(params: JsonView, key: Seq<char>, otherwise: bool) -> bool {
    match params.bool_at(key) {
        Some(flag) => flag,
        None => otherwise,
    }
}

/// The low 32 bits of a number, as a number with a sign.
pub open spec fn low_bits(n: i64) -> i32 {
    n as i32
}

fn get_text(params: &Json, key: &str, otherwise: &str) -> (value: String)
    ensures
        value@ == text_param(params@, key@, otherwise@),
{
    str_or(params.str_at(key), otherwise).to_owned()
}

fn get_flag(params: &Json, key: &str, otherwise: bool) -> (flag: bool)
    ensures
        flag == flag_param(params@, key@, otherwise),
{
    match params.bool_at(key) {
        Some(flag) => flag,
        None => otherwise,
    }
}

fn get_lines(params: &Json) -> (lines: i32)
    ensures
        lines == low_bits(cli_channel::lines_wanted(params@)),
{
    let lines: i64 = match params.i64_at("max_lines") {
        Some(n) => n,
        None => 200,
    };
    #[verifier::truncate]
    let low: i32 = lines as i32;
    low
}

/// The call for a request.
pub open spec fn call_of(method: Seq<char>, params: JsonView) -> Option<CallView> {
    if method == "authenticate"@ {
        Some(
            CallView::Authenticate {
                token: text_param(params, "token"@, Seq::empty()),
            },
        )
    } else if method == "get_capabilities"@ {
        Some(CallView::GetCapabilities)
    } else if method == "get_active_pane"@ {
        Some(CallView::GetActivePane)
    } else if method == "list_windows"@ {
        Some(CallView::ListWindows)
    } else if method == "list_tabs"@ {
        Some(
            CallView::ListTabs {
                window_id: text_param(params, "window_id"@, Seq::empty()),
            },
        )
    } else if method == "list_panes"@ {
        Some(
            CallView::ListPanes {
                window_id: text_param(params, "window_id"@, Seq::empty()),
                tab_id: text_param(params, "tab_id"@, Seq::empty()),
            },
        )
    } else if method == "read_pane_output"@ {
        Some(
            CallView::ReadPaneOutput {
                pane_id: text_param(params, "pane_id"@, Seq::empty()),
                source: text_param(params, "source"@, "scrollback"@),
                max_lines: low_bits(cli_channel::lines_wanted(params)),
            },
        )
    } else if method == "get_process_status"@ {
        Some(
            CallView::GetProcessStatus {
                pane_id: text_param(params, "pane_id"@, Seq::empty()),
            },
        )
    } else if method == "get_session_variable"@ {
        Some(
            CallView::GetSessionVariable {
                pane_id: text_param(params, "pane_id"@, Seq::empty()),
                name: text_param(params, "name"@, Seq::empty()),
            },
        )
    } else if method == "get_settings"@ {
        Some(CallView::GetSettings)
    } else if method == "create_tab"@ {
        Some(
            CallView::CreateTab {
                window_id: text_param(params, "window_id"@, Seq::empty()),
                profile: text_param(params, "profile"@, Seq::empty()),
                commandline: text_param(params, "commandline"@, Seq::empty()),
                title: text_param(params, "title"@, Seq::empty()),
                suppress_application_title: flag_param(params, "suppress_application_title"@, false),
                inject_mcp_credentials: flag_param(params, "inject_mcp_credentials"@, false),
                background: flag_param(params, "background"@, true),
            },
        )
    } else if method == "split_pane"@ {
        Some(
            CallView::SplitPane {
                pane_id: text_param(params, "pane_id"@, Seq::empty()),
                direction: text_param(params, "direction"@, "right"@),
                profile: text_param(params, "profile"@, Seq::empty()),
                commandline: text_param(params, "commandline"@, Seq::empty()),
                inject_mcp_credentials: flag_param(params, "inject_mcp_credentials"@, false),
                background: flag_param(params, "background"@, true),
            },
        )
    } else if method == "close_pane"@ {
        Some(
            CallView::ClosePane {
                pane_id: text_param(params, "pane_id"@, Seq::empty()),
            },
        )
    } else if method == "send_input"@ {
        Some(
            CallView::SendInput {
                pane_id: text_param(params, "pane_id"@, Seq::empty()),
                text: text_param(params, "text"@, Seq::empty()),
            },
        )
    } else if method == "set_session_variable"@ {
        Some(
            CallView::SetSessionVariable {
                pane_id: text_param(params, "pane_id"@, Seq::empty()),
                name: text_param(params, "name"@, Seq::empty()),
                value: text_param(params, "value"@, Seq::empty()),
            },
        )
    } else if method == "set_settings"@ {
        Some(
            CallView::SetSettings {
                settings: text_param(params, "settings"@, Seq::empty()),
            },
        )
    } else {
        None
    }
}

/// The call for a request.
pub fn com_call(method: &str, params: &Json) -> (r: Result<ComCall, String>)
    ensures
        match r {
            Ok(call) => call_of(method@, params@) == Some(call@),
            Err(message) => call_of(method@, params@) is None && message@ == "Unknown method: "@
                + method@,
        },
{
    proof {
        reveal_strlit("");
        assert(""@ =~= Seq::<char>::empty());
    }
    let call = if same_text(method, "authenticate") {
        ComCall::Authenticate {
            token: get_text(params, "token", ""),
        }
    } else if same_text(method, "get_capabilities") {
        ComCall::GetCapabilities
    } else if same_text(method, "get_active_pane") {
        ComCall::GetActivePane
    } else if same_text(method, "list_windows") {
        ComCall::ListWindows
    } else if same_text(method, "list_tabs") {
        ComCall::ListTabs {
            window_id: get_text(params, "window_id", ""),
        }
    } else if same_text(method, "list_panes") {
        ComCall::ListPanes {
            window_id: get_text(params, "window_id", ""),
            tab_id: get_text(params, "tab_id", ""),
        }
    } else if same_text(method, "read_pane_output") {
        ComCall::ReadPaneOutput {
            pane_id: get_text(params, "pane_id", ""),
            source: get_text(params, "source", "scrollback"),
            max_lines: get_lines(params),
        }
    } else if same_text(method, "get_process_status") {
        ComCall::GetProcessStatus {
            pane_id: get_text(params, "pane_id", ""),
        }
    } else if same_text(method, "get_session_variable") {
        ComCall::GetSessionVariable {
            pane_id: get_text(params, "pane_id", ""),
            name: get_text(params, "name", ""),
        }
    } else if same_text(method, "get_settings") {
        ComCall::GetSettings
    } else if same_text(method, "create_tab") {
        ComCall::CreateTab {
            window_id: get_text(params, "window_id", ""),
            profile: get_text(params, "profile", ""),
            commandline: get_text(params, "commandline", ""),
            title: get_text(params, "title", ""),
            suppress_application_title: get_flag(params, "suppress_application_title", false),
            inject_mcp_credentials: get_flag(params, "inject_mcp_credentials", false),
            background: get_flag(params, "background", true),
        }
    } else if same_text(method, "split_pane") {
        ComCall::SplitPane {
            pane_id: get_text(params, "pane_id", ""),
            direction: get_text(params, "direction", "right"),
            profile: get_text(params, "profile", ""),
            commandline: get_text(params, "commandline", ""),
            inject_mcp_credentials: get_flag(params, "inject_mcp_credentials", false),
            background: get_flag(params, "background", true),
        }
    } else if same_text(method, "close_pane") {
        ComCall::ClosePane {
            pane_id: get_text(params, "pane_id", ""),
        }
    } else if same_text(method, "send_input") {
        ComCall::SendInput {
            pane_id: get_text(params, "pane_id", ""),
            text: get_text(params, "text", ""),
        }
    } else if same_text(method, "set_session_variable") {
        ComCall::SetSessionVariable {
            pane_id: get_text(params, "pane_id", ""),
            name: get_text(params, "name", ""),
            value: get_text(params, "value", ""),
        }
    } else if same_text(method, "set_settings") {
        ComCall::SetSettings {
            settings: get_text(params, "settings", ""),
        }
    } else {
        let mut message = "Unknown method: ".to_owned();
        message.append(method);
        return Err(message);
    };
    Ok(call)
}

/// What the COM server answered.
#[derive(Debug)]
pub enum ComReply {
    Authenticated { authenticated: bool, version: String },
    /// The methods are a JSON text.
    Capabilities { version: String, methods: String },
    ActivePane(ProtocolPaneInfo),
    Windows(Vec<ProtocolWindowInfo>),
    Tabs(Vec<ProtocolTabInfo>),
    Panes(Vec<ProtocolPaneInfo>),
    Output(ProtocolPaneOutput),
    Status(ProtocolProcessStatus),
    Variable(ProtocolSessionVariable),
    Settings(String),
    Created(ProtocolTabCreationResult),
    Closed,
    Sent,
    VariableSet,
    SettingsApplied { backup_path: String },
}

/// The methods that a text lists; null where it is no JSON.
pub open spec fn methods_value(methods: Seq<char>) -> JsonView {
    match json::read_json(methods) {
        Ok(value) => value,
        Err(_) => JsonView::Null,
    }
}

/// An object with one member.
pub open spec fn single(name: Seq<char>, value: JsonView) -> JsonView {
    JsonView::Object(seq![(name, value)])
}

/// An object with two members.
pub open spec fn pair(
    first: Seq<char>,
    a: JsonView,
    second: Seq<char>,
    b: JsonView,
) -> JsonView {
    JsonView::Object(seq![(first, a), (second, b)])
}

fn single_json(name: &str, value: Json) -> (r: Json)
    ensures
        r@ == single(name@, value@),
{
    let ghost seen = value@;
    let mut members = no_members();
    add_member(&mut members, name, value);
    assert(json::members_view(members@) =~= seq![(name@, seen)]);
    object(members)
}

fn pair_json(first: &str, a: Json, second: &str, b: Json) -> (r: Json)
    ensures
        r@ == pair(first@, a@, second@, b@),
{
    let ghost a_seen = a@;
    let ghost b_seen = b@;
    let mut members = no_members();
    add_member(&mut members, first, a);
    add_member(&mut members, second, b);
    assert(json::members_view(members@) =~= seq![(first@, a_seen), (second@, b_seen)]);
    object(members)
}

/// The answer as a JSON value.
pub open spec fn reply_value(reply: ComReply) -> JsonView {
    match reply {
        ComReply::Authenticated { authenticated, version } => pair(
            "authenticated"@,
            JsonView::Bool(authenticated),
            "protocol_version"@,
            JsonView::Text(version@),
        ),
        ComReply::Capabilities { version, methods } => pair(
            "protocol_version"@,
            JsonView::Text(version@),
            "methods"@,
            methods_value(methods@),
        ),
        ComReply::ActivePane(pane) => active_pane_value(pane),
        ComReply::Windows(list) => windows_value(list@),
        ComReply::Tabs(list) => tabs_value(list@),
        ComReply::Panes(list) => panes_value(list@),
        ComReply::Output(output) => output_value(output),
        ComReply::Status(status) => status_value(status),
        ComReply::Variable(variable) => variable_value(variable),
        ComReply::Settings(content) => single("settings"@, JsonView::Text(content@)),
        ComReply::Created(created) => created_value(created),
        ComReply::Closed => single("closed"@, JsonView::Bool(true)),
        ComReply::Sent => single("sent"@, JsonView::Bool(true)),
        ComReply::VariableSet => single("set"@, JsonView::Bool(true)),
        ComReply::SettingsApplied { backup_path } => pair(
            "applied"@,
            JsonView::Bool(true),
            "backup_path"@,
            JsonView::Text(backup_path@),
        ),
    }
}

/// The answer as a JSON value.
pub fn com_response(reply: &ComReply) -> (value: Json)
    ensures
        value@ == reply_value(*reply),
{
    match reply {
        ComReply::Authenticated { authenticated, version } => pair_json(
            "authenticated",
            Json::Bool(*authenticated),
            "protocol_version",
            text_value(version.as_str()),
        ),
        ComReply::Capabilities { version, methods } => {
            let listed = match parse_json(methods.as_str()) {
                Ok(value) => value,
                Err(_) => Json::Null,
            };
            pair_json("protocol_version", text_value(version.as_str()), "methods", listed)
        },
        ComReply::ActivePane(pane) => active_pane_json(pane),
        ComReply::Windows(list) => windows_json(list),
        ComReply::Tabs(list) => tabs_json(list),
        ComReply::Panes(list) => panes_json(list),
        ComReply::Output(output) => output_json(output),
        ComReply::Status(status) => status_json(status),
        ComReply::Variable(variable) => variable_json(variable),
        ComReply::Settings(content) => single_json("settings", text_value(content.as_str())),
        ComReply::Created(created) => created_json(created),
        ComReply::Closed => single_json("closed", Json::Bool(true)),
        ComReply::Sent => single_json("sent", Json::Bool(true)),
        ComReply::VariableSet => single_json("set", Json::Bool(true)),
        ComReply::SettingsApplied { backup_path } => pair_json(
            "applied",
            Json::Bool(true),
            "backup_path",
            text_value(backup_path.as_str()),
        ),
    }
}

} // verus!

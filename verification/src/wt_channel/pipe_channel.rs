//! The pipe to the terminal: what goes through it, line by line.
use crate::json;
use crate::json::{add_member, compact_text, object, text_value, Json, JsonView};
use crate::text;
use crate::text::number_text;
use vstd::prelude::*;

verus! {

/// Why a request failed, in the terminal's words.
#[derive(Debug)]
pub struct WireError {
    pub code: String,
    pub message: String,
}

/// The answer to a request.
#[derive(Debug)]
pub struct WireResponse {
    pub result: Option<Json>,
    pub error: Option<WireError>,
}

/// A request as a line of JSON: its type, its number, the method and the
/// parameters, in this order.
pub open spec fn request_line(id: u64, method: Seq<char>, params: JsonView) -> Seq<char> {
    "{\"type\":\"request\",\"id\":\""@ + text::decimal(id as nat) + "\",\"method\":"@
        + json::compact_json(JsonView::Text(method)) + ",\"params\":"@ + json::compact_json(params)
        + "}"@
}

/// The text of the request with the number `id`, without the line break that
/// ends it.
pub fn request_text(id: u64, method: &str, params: &Json) -> (line: String)
    ensures
        line@ == request_line(id, method@, params@),
{
    let mut line = "{\"type\":\"request\",\"id\":\"".to_owned();
    line.append(number_text(id).as_str());
    line.append("\",\"method\":");
    line.append(compact_text(&text_value(method)).as_str());
    line.append(",\"params\":");
    line.append(compact_text(params).as_str());
    line.append("}");
    line
}

/// What a response came to: the error in the terminal's words, or the result,
/// which is null where there is none.
pub fn response_result(response: WireResponse) -> (r: Result<Json, String>)
    ensures
        match response.error {
            Some(error) => r matches Err(message) && message@ == "WT protocol error ["@
                + error.code@ + "]: "@ + error.message@,
            None => match response.result {
                Some(result) => r matches Ok(value) && value@ == result@,
                None => r matches Ok(value) && value@ is Null,
            },
        },
{
    if let Some(error) = response.error {
        let mut message = "WT protocol error [".to_owned();
        message.append(error.code.as_str());
        message.append("]: ");
        message.append(error.message.as_str());
        return Err(message);
    }
    match response.result {
        Some(result) => Ok(result),
        None => Ok(Json::Null),
    }
}

/// The parameters of the request that authenticates.
pub fn authentication_params(token: &str) -> (params: Json)
    ensures
        params@ == JsonView::Object(seq![("token"@, JsonView::Text(token@))]),
{
    let mut members: Vec<(String, Json)> = Vec::new();
    assert(json::members_view(members@) =~= Seq::<(Seq<char>, JsonView)>::empty());
    add_member(&mut members, "token", text_value(token));
    assert(json::members_view(members@) =~= seq![("token"@, JsonView::Text(token@))]);
    object(members)
}

/// Whether the terminal accepted the token.
pub fn check_authentication(result: &Json) -> (r: Result<(), String>)
    ensures
        match r {
            Ok(()) => result@.bool_at("authenticated"@) == Some(true),
            Err(message) => result@.bool_at("authenticated"@) != Some(true) && message@
                == "Authentication rejected by Windows Terminal"@,
        },
{
    match result.bool_at("authenticated") {
        Some(true) => Ok(()),
        _ => Err("Authentication rejected by Windows Terminal".to_owned()),
    }
}

/// The pipe and the token that the environment names. A token that is missing
/// is an empty one.
pub fn pipe_from_environment(pipe_name: Option<&str>, token: Option<&str>) -> (r: Result<
    (String, String),
    String,
>)
    ensures
        match (pipe_name, r) {
            (Some(pipe_name), Ok(found)) => found.0@ == pipe_name@ && match token {
                Some(token) => found.1@ == token@,
                None => found.1@.len() == 0,
            },
            (None, Err(message)) => message@
                == "WT_PIPE_NAME not set. Must run inside a Windows Terminal pane with protocol access."@,
            _ => false,
        },
{
    let pipe_name = match pipe_name {
        Some(pipe_name) => pipe_name.to_owned(),
        None => {
            return Err(
                "WT_PIPE_NAME not set. Must run inside a Windows Terminal pane with protocol access.".to_owned(),
            );
        },
    };
    let token = match token {
        Some(token) => token.to_owned(),
        None => String::new(),
    };
    Ok((pipe_name, token))
}

} // verus!

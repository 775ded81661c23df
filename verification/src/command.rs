use vstd::prelude::*;

verus! {

/// One decoded inbound command: `command_type`, whose first character is
/// the routing code, and `command`, the free-form argument some codes use.
pub struct Cmd {
    pub command_type: String,
    pub command: String,
}

/// What a payload decodes to under the fixed command schema: the
/// `command_type` and `command` fields when the payload is a JSON object
/// carrying both as strings, and nothing otherwise. The decode is a
/// function of the payload text alone.
pub uninterp spec fn decoded_command(payload: Seq<char>) -> Option<(Seq<char>, Seq<char>)>;

/// Relies on serde_json::from_str::<serde_json::Value>, whose result is a
/// function of the text alone, together with serde_json::Value::get and
/// serde_json::Value::as_str to read the two string fields of the schema
/// out of the parsed document.
#[verifier::external_body]
pub(crate) fn decode_command(payload: &str) -> (r: Option<Cmd>)
    ensures
        match r {
            Some(c) => decoded_command(payload@) == Some((c.command_type@, c.command@)),
            None => decoded_command(payload@) is None,
        },
{
    let doc: serde_json::Value = match serde_json::from_str(payload) {
        Ok(v) => v,
        Err(_) => return None,
    };
    let command_type = match doc.get("command_type").and_then(|f| f.as_str()) {
        Some(s) => s,
        None => return None,
    };
    let command = match doc.get("command").and_then(|f| f.as_str()) {
        Some(s) => s,
        None => return None,
    };
    Some(Cmd { command_type: command_type.to_string(), command: command.to_string() })
}

} // verus!

use vstd::prelude::*;
use vstd::string::StrSliceExecFns;
use vstd::string::StringExecFns;

use crate::command::Cmd;
use crate::command::decode_command;
use crate::command::decoded_command;
use crate::config::Config;

verus! {

/// One structured external operation: a program name and its argument
/// list, handed to the executor verbatim, with no shell interpretation.
pub struct Operation {
    pub program: String,
    pub args: Vec<String>,
}

/// The mathematical value of an [`Operation`].
#[verifier::ext_equal]
pub ghost struct OperationSpec {
    pub program: Seq<char>,
    pub args: Seq<Seq<char>>,
}

impl View for Operation {
    type V = OperationSpec;

    open spec fn view(&self) -> OperationSpec {
        OperationSpec { program: self.program@, args: self.args.deep_view() }
    }
}

/// What to do with the output an operation produced.
#[derive(Clone, Copy, PartialEq, Eq, Structural, Debug)]
pub enum OutputPolicy {
    /// Publish the captured output only when the executor produced some;
    /// a failed start publishes nothing.
    IfProduced,
    /// Publish unconditionally; a failed start publishes empty text.
    Always,
}

/// The routed outcome of one inbound payload: drop it, run one operation
/// and then answer, or answer directly with a fixed text.
pub enum Plan {
    /// The payload did not decode as a command: no operation, no response.
    Ignore,
    /// Run the operation, then publish its output under the policy.
    Execute { op: Operation, policy: OutputPolicy },
    /// Publish this text directly; no operation is run.
    Respond { text: String },
}

/// The mathematical value of a [`Plan`].
#[verifier::ext_equal]
pub ghost enum PlanSpec {
    Ignore,
    Execute { op: OperationSpec, policy: OutputPolicy },
    Respond { text: Seq<char> },
}

impl View for Plan {
    type V = PlanSpec;

    open spec fn view(&self) -> PlanSpec {
        match self {
            Plan::Ignore => PlanSpec::Ignore,
            Plan::Execute { op, policy } => PlanSpec::Execute { op: op@, policy: *policy },
            Plan::Respond { text } => PlanSpec::Respond { text: text@ },
        }
    }
}

/// The fixed response to a command whose type code is not recognized.
pub open spec fn invalid_type_text() -> Seq<char> {
    "Command type is not valid"@
}

/// The fixed acknowledgement published for the no-operation code 'D'.
pub open spec fn ack_text() -> Seq<char> {
    "Command acknowledged"@
}

/// The operation the diagnostic code 'A' runs, parameterized by the
/// command argument.
pub open spec fn diagnostic_op(arg: Seq<char>) -> OperationSpec {
    OperationSpec { program: "asterisk"@, args: seq!["-x"@, arg] }
}

/// The fixed operation the code 'U' runs.
pub open spec fn uptime_op() -> OperationSpec {
    OperationSpec { program: "uptime"@, args: Seq::empty() }
}

/// The fixed diagnostic operation the code 'C' runs.
pub open spec fn check_op() -> OperationSpec {
    OperationSpec { program: "asterisk"@, args: seq!["-x"@, "status"@] }
}

/// Routing, as a function of the decoded command fields: the first
/// character of the type string selects the handler; an empty or
/// unrecognized type string is answered with the fixed invalid-type text.
pub open spec fn route_spec(command_type: Seq<char>, arg: Seq<char>) -> PlanSpec {
    if command_type.len() == 0 {
        PlanSpec::Respond { text: invalid_type_text() }
    } else if command_type[0] == 'A' {
        PlanSpec::Execute { op: diagnostic_op(arg), policy: OutputPolicy::IfProduced }
    } else if command_type[0] == 'U' {
        PlanSpec::Execute { op: uptime_op(), policy: OutputPolicy::IfProduced }
    } else if command_type[0] == 'C' {
        PlanSpec::Execute { op: check_op(), policy: OutputPolicy::Always }
    } else if command_type[0] == 'D' {
        PlanSpec::Respond { text: ack_text() }
    } else {
        PlanSpec::Respond { text: invalid_type_text() }
    }
}

/// The plan for a raw payload: what routing does with its decode result.
pub open spec fn plan_spec(decoded: Option<(Seq<char>, Seq<char>)>) -> PlanSpec {
    match decoded {
        Some((command_type, arg)) => route_spec(command_type, arg),
        None => PlanSpec::Ignore,
    }
}

/// Selects the handler for one decoded command by the first character of
/// its type string.
pub fn route(cmd: Cmd) -> (p: Plan)
    ensures
        p@ == route_spec(cmd.command_type@, cmd.command@),
{
    let ghost arg = cmd.command@;
    if cmd.command_type.unicode_len() == 0 {
        return Plan::Respond { text: String::from_str("Command type is not valid") };
    }
    let code = cmd.command_type.as_str().get_char(0);
    if code == 'A' {
        let mut args: Vec<String> = Vec::new();
        args.push(String::from_str("-x"));
        args.push(cmd.command);
        let op = Operation { program: String::from_str("asterisk"), args };
        proof {
            assert(op@.args =~= diagnostic_op(arg).args);
        }
        Plan::Execute { op, policy: OutputPolicy::IfProduced }
    } else if code == 'U' {
        let args: Vec<String> = Vec::new();
        let op = Operation { program: String::from_str("uptime"), args };
        proof {
            assert(op@.args =~= uptime_op().args);
        }
        Plan::Execute { op, policy: OutputPolicy::IfProduced }
    } else if code == 'C' {
        let mut args: Vec<String> = Vec::new();
        args.push(String::from_str("-x"));
        args.push(String::from_str("status"));
        let op = Operation { program: String::from_str("asterisk"), args };
        proof {
            assert(op@.args =~= check_op().args);
        }
        Plan::Execute { op, policy: OutputPolicy::Always }
    } else if code == 'D' {
        Plan::Respond { text: String::from_str("Command acknowledged") }
    } else {
        Plan::Respond { text: String::from_str("Command type is not valid") }
    }
}

/// Turns one raw inbound payload into its plan: decode, then route; a
/// payload that does not decode is dropped.
pub fn plan_payload(payload: &str) -> (p: Plan)
    ensures
        p@ == plan_spec(decoded_command(payload@)),
{
    match decode_command(payload) {
        Some(cmd) => route(cmd),
        None => Plan::Ignore,
    }
}

/// The response text owed after an operation ran, as a function of the
/// policy and the captured output: under `IfProduced` exactly the output,
/// if any; under `Always` one response in every case, empty when the
/// operation could not be started.
pub open spec fn response_text_spec(policy: OutputPolicy, output: Option<Seq<char>>) -> Option<
    Seq<char>,
> {
    match policy {
        OutputPolicy::IfProduced => output,
        OutputPolicy::Always => match output {
            Some(text) => Some(text),
            None => Some(Seq::empty()),
        },
    }
}

/// Applies the output policy to what the executor returned.
pub fn response_for_output(policy: OutputPolicy, output: Option<String>) -> (r: Option<String>)
    ensures
        r.deep_view() == response_text_spec(policy, output.deep_view()),
{
    match policy {
        OutputPolicy::IfProduced => output,
        OutputPolicy::Always => match output {
            Some(text) => Some(text),
            None => Some(String::new()),
        },
    }
}

/// One outbound publish: destination topic, text payload, and QoS.
pub struct OutboundMessage {
    pub topic: String,
    pub payload: String,
    pub qos: i32,
}

/// Builds the response publish for one response text: it goes to the
/// status topic at QoS 1 (at-least-once).
pub fn response_message(cfg: &Config, text: String) -> (m: OutboundMessage)
    requires
        cfg.well_formed(),
    ensures
        m.topic@ == cfg.topics@[1]@,
        m.payload@ == text@,
        m.qos == 1,
{
    let topic = cfg.topics[1].clone();
    OutboundMessage { topic, payload: text, qos: 1 }
}

} // verus!

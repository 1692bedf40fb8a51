use vstd::prelude::*;
use std::collections::HashMap;
use crate::options::DebuggerOptions;

verus! {

/// A process id, given as an integer or as a string holding a number.
#[derive(Debug, Clone, PartialEq, Eq)]
pub enum ProcessId {
    Int(i32),
    String(String),
}

/// A debug session's configuration as the backend reads it.
#[derive(Debug)]
pub struct MonoDebugConfig {
    pub request: String,
    pub program: Option<String>,
    pub args: Option<Vec<String>>,
    pub cwd: Option<String>,
    pub env: HashMap<String, String>,
    pub process_id: Option<ProcessId>,
    pub debugger_options: Option<DebuggerOptions>,
    pub ttype: Option<String>,
}

/// Why no attach configuration could be built.
#[derive(Clone, Copy, Debug, PartialEq, Eq, Structural)]
pub enum AttachError {
    MissingProcessId,
}

impl AttachError {
    pub fn message(&self) -> (r: String)
        ensures
            r@ == "process_id is required"@,
    {
        String::from_str("process_id is required")
    }
}

/// The kind of session a configuration asks for.
#[derive(Clone, Copy, Debug, PartialEq, Eq, Structural)]
pub enum RequestKind {
    Launch,
    Attach,
}

/// Reads a configuration's `request` value: `launch` or `attach`.
pub fn request_kind(request: &String) -> (r: Option<RequestKind>)
    ensures
        r == Some(RequestKind::Launch) <==> request@ == "launch"@,
        r == Some(RequestKind::Attach) <==> request@ == "attach"@,
        r is None <==> request@ != "launch"@ && request@ != "attach"@,
{
    proof {
        reveal_strlit("launch");
        reveal_strlit("attach");
        assert("launch"@[0] != "attach"@[0]);
    }
    if *request == String::from_str("launch") {
        Some(RequestKind::Launch)
    } else if *request == String::from_str("attach") {
        Some(RequestKind::Attach)
    } else {
        None
    }
}

impl MonoDebugConfig {
    /// The configuration of an attach session to the process the user picked:
    /// default debugger options, no program, arguments, directory or environment.
    pub fn default_attach(process_id: Option<u32>) -> (r: Result<MonoDebugConfig, AttachError>)
        ensures
            process_id is None <==> r == Err::<MonoDebugConfig, AttachError>(
                AttachError::MissingProcessId,
            ),
            r matches Ok(c) ==> {
                &&& c.request@ == "attach"@
                &&& c.program is None
                &&& c.args is None
                &&& c.cwd is None
                &&& c.env@ == Map::<String, String>::empty()
                &&& c.process_id is None
                &&& c.debugger_options matches Some(o) && o.is_default()
                &&& c.ttype matches Some(t) && t@ == "unity"@
            },
    {
        if process_id.is_none() {
            return Err(AttachError::MissingProcessId);
        }
        Ok(
            MonoDebugConfig {
                request: String::from_str("attach"),
                program: None,
                args: None,
                cwd: None,
                env: HashMap::new(),
                process_id: None,
                debugger_options: Some(DebuggerOptions::default()),
                ttype: Some(String::from_str("unity")),
            },
        )
    }
}

} // verus!

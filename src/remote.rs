//! The values exchanged with the remote property and procedure store.

use vstd::prelude::*;

verus! {

/// A plugin as the remote server has it installed.
pub struct Plugin {
    pub plugin_name: String,
    pub plugin_version: String,
}

/// A property as the remote server returns it.
pub struct Property {
    pub property_name: Option<String>,
    pub value: String,
}

/// A call on the remote store.
pub enum RemoteCall {
    SetProperty { path: String, value: String },
    SetProcedureCommand { project: String, procedure: String, step: String, command: String },
}

pub ghost enum Call {
    SetProperty(Seq<char>, Seq<char>),
    SetProcedureCommand(Seq<char>, Seq<char>, Seq<char>, Seq<char>),
}

impl View for RemoteCall {
    type V = Call;

    open spec fn view(&self) -> Call {
        match self {
            RemoteCall::SetProperty { path, value } => Call::SetProperty(path@, value@),
            RemoteCall::SetProcedureCommand { project, procedure, step, command } =>
                Call::SetProcedureCommand(project@, procedure@, step@, command@),
        }
    }
}

} // verus!

//! The action-group document form: a declarative group of actions with its
//! own entrypoint, as a specification document declares it. The surrounding
//! application parses the document and hands these plain values over;
//! ordered pair sequences stand in for the document's mappings.

use vstd::prelude::*;
use crate::common::{Argument, FunctionNotation, TypeSpec};

verus! {

/// How an action is carried out as a command: its arguments and, optionally,
/// which stream to capture.
pub struct ActionCommand {
    pub args: Vec<String>,
    pub capture: Option<String>,
}

/// How an action is carried out as an endpoint call: an optional method and
/// the path.
pub struct ActionEndpoint {
    pub method: Option<String>,
    pub path: String,
}

/// One action of a group: its declared inputs and outputs, an optional
/// command or endpoint carrying it out, and an optional calling-convention
/// notation.
pub struct Action {
    pub command: Option<ActionCommand>,
    pub description: Option<String>,
    pub endpoint: Option<ActionEndpoint>,
    pub notation: Option<FunctionNotation>,
    pub input: Vec<Argument>,
    pub output: Vec<Argument>,
}

/// The entrypoint of an action group: its kind, the target it runs (the
/// document's `exec` key), optional inline content and an optional startup
/// delay.
pub struct Entrypoint {
    pub kind: String,
    pub exec_target: String,
    pub content: Option<String>,
    pub delay: Option<u64>,
}

/// A whole action-group document: named actions with the group's identity,
/// its entrypoint, and the declared build inputs.
pub struct ActionGroup {
    pub actions: Vec<(String, Action)>,
    pub base: Option<String>,
    pub contributors: Option<Vec<String>>,
    pub description: Option<String>,
    pub entrypoint: Entrypoint,
    pub environment: Option<Vec<(String, String)>>,
    pub dependencies: Option<Vec<String>>,
    pub files: Option<Vec<String>>,
    pub initialize: Option<Vec<String>>,
    pub install: Option<Vec<String>>,
    pub kind: String,
    pub name: String,
    pub types: Option<Vec<(String, TypeSpec)>>,
    pub version: String,
}

} // verus!

//! The execution-container specification: the declarative document that one
//! build invocation consumes. It is created once per build and never mutated.

use vstd::prelude::*;
use crate::common::{Argument, ArgumentModel};

verus! {

/// Mathematical model of a [`ContainerAction`].
#[verifier::ext_equal]
pub ghost struct ActionModel {
    pub input: Seq<ArgumentModel>,
    pub output: Seq<ArgumentModel>,
    pub pattern: Option<Seq<char>>,
    pub description: Option<Seq<char>>,
}

/// One declared action: a callable unit of the container. Its `output` must
/// hold at least one argument for the manifest synthesizer to accept it.
pub struct ContainerAction {
    pub input: Vec<Argument>,
    pub output: Vec<Argument>,
    pub pattern: Option<String>,
    pub description: Option<String>,
}

impl View for ContainerAction {
    type V = ActionModel;

    open spec fn view(&self) -> ActionModel {
        ActionModel {
            input: self.input.deep_view(),
            output: self.output.deep_view(),
            pattern: match self.pattern {
                Some(p) => Some(p@),
                None => None,
            },
            description: match self.description {
                Some(d) => Some(d@),
                None => None,
            },
        }
    }
}

impl DeepView for ContainerAction {
    type V = ActionModel;

    open spec fn deep_view(&self) -> ActionModel {
        self@
    }
}

/// The model of a string-pair sequence: both components as character
/// sequences, order kept.
pub open spec fn pairs_model(pairs: Seq<(String, String)>) -> Seq<(Seq<char>, Seq<char>)> {
    pairs.map_values(|e: (String, String)| (e.0@, e.1@))
}

/// The model of a named-action sequence, order kept.
pub open spec fn actions_model(actions: Seq<(String, ContainerAction)>) -> Seq<
    (Seq<char>, ActionModel),
> {
    actions.map_values(|a: (String, ContainerAction)| (a.0@, a.1@))
}

/// Mathematical model of a [`ContainerSpec`].
#[verifier::ext_equal]
pub ghost struct SpecModel {
    pub name: Seq<char>,
    pub version: Seq<char>,
    pub description: Seq<char>,
    pub base: Option<Seq<char>>,
    pub environment: Seq<(Seq<char>, Seq<char>)>,
    pub dependencies: Seq<Seq<char>>,
    pub files: Seq<Seq<char>>,
    pub install: Seq<Seq<char>>,
    pub actions: Seq<(Seq<char>, ActionModel)>,
}

impl SpecModel {
    /// Well-formedness of the document's mappings: action names and
    /// environment keys are pairwise distinct, as the keys of a mapping are.
    pub open spec fn well_formed(self) -> bool {
        &&& forall|i: int, j: int|
            0 <= i < j < self.actions.len() ==> (#[trigger] self.actions[i]).0 != (
            #[trigger] self.actions[j]).0
        &&& forall|i: int, j: int|
            0 <= i < j < self.environment.len() ==> (#[trigger] self.environment[i]).0 != (
            #[trigger] self.environment[j]).0
    }
}

/// The container specification. Ordered sequences stand in for the document's
/// mappings so that every derived artifact is reproducible: environment
/// entries, dependencies, files, install lines and actions are all kept in
/// their declared order. A specification is well formed when its model is:
/// the sequences that stand in for mappings carry pairwise-distinct keys.
pub struct ContainerSpec {
    pub name: String,
    pub version: String,
    pub description: String,
    pub base: Option<String>,
    pub environment: Vec<(String, String)>,
    pub dependencies: Vec<String>,
    pub files: Vec<String>,
    pub install: Vec<String>,
    pub actions: Vec<(String, ContainerAction)>,
}

impl View for ContainerSpec {
    type V = SpecModel;

    open spec fn view(&self) -> SpecModel {
        SpecModel {
            name: self.name@,
            version: self.version@,
            description: self.description@,
            base: match self.base {
                Some(b) => Some(b@),
                None => None,
            },
            environment: pairs_model(self.environment@),
            dependencies: self.dependencies.deep_view(),
            files: self.files.deep_view(),
            install: self.install.deep_view(),
            actions: actions_model(self.actions@),
        }
    }
}

impl DeepView for ContainerSpec {
    type V = SpecModel;

    open spec fn deep_view(&self) -> SpecModel {
        self@
    }
}

impl ContainerSpec {
    /// Well-formedness of the specification: its model's mapping keys are
    /// pairwise distinct.
    pub open spec fn well_formed(&self) -> bool {
        self@.well_formed()
    }
}

} // verus!

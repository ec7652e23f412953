//! The package manifest: the function table derived from a container
//! specification's actions, plus the synthesizer that derives it.

use vstd::prelude::*;
use crate::common::{Argument, ArgumentModel, clone_arguments};
use crate::container::{ActionModel, ContainerSpec};
use crate::errors::SpecValidationError;

verus! {

/// Mathematical model of a [`Function`].
#[verifier::ext_equal]
pub ghost struct FunctionModel {
    pub arguments: Seq<ArgumentModel>,
    pub pattern: Option<Seq<char>>,
    pub return_type: Seq<char>,
}

/// One callable function exposed by a package: the action's inputs, its
/// calling-convention pattern passed through verbatim, and the single
/// declared return type.
#[derive(Debug, PartialEq, Eq)]
pub struct Function {
    pub arguments: Vec<Argument>,
    pub pattern: Option<String>,
    pub return_type: String,
}

impl View for Function {
    type V = FunctionModel;

    open spec fn view(&self) -> FunctionModel {
        FunctionModel {
            arguments: self.arguments.deep_view(),
            pattern: match self.pattern {
                Some(p) => Some(p@),
                None => None,
            },
            return_type: self.return_type@,
        }
    }
}

impl DeepView for Function {
    type V = FunctionModel;

    open spec fn deep_view(&self) -> FunctionModel {
        self@
    }
}

impl Function {
    pub fn new(arguments: Vec<Argument>, pattern: Option<String>, return_type: String) -> (res:
        Self)
        ensures
            res == (Function { arguments, pattern, return_type }),
    {
        Function { arguments, pattern, return_type }
    }
}

/// The model of a named-function sequence, order kept.
pub open spec fn functions_model(functions: Seq<(String, Function)>) -> Seq<
    (Seq<char>, FunctionModel),
> {
    functions.map_values(|f: (String, Function)| (f.0@, f.1@))
}

/// Mathematical model of a [`PackageInfo`].
#[verifier::ext_equal]
pub ghost struct PackageModel {
    pub name: Seq<char>,
    pub version: Seq<char>,
    pub description: Seq<char>,
    pub kind: Seq<char>,
    pub functions: Seq<(Seq<char>, FunctionModel)>,
}

/// The package manifest: identity fields copied from the specification, the
/// fixed package kind, and the function table in declared action order.
#[derive(Debug, PartialEq, Eq)]
pub struct PackageInfo {
    pub name: String,
    pub version: String,
    pub description: String,
    pub kind: String,
    pub functions: Vec<(String, Function)>,
}

impl View for PackageInfo {
    type V = PackageModel;

    open spec fn view(&self) -> PackageModel {
        PackageModel {
            name: self.name@,
            version: self.version@,
            description: self.description@,
            kind: self.kind@,
            functions: functions_model(self.functions@),
        }
    }
}

impl PackageInfo {
    pub fn new(
        name: String,
        version: String,
        description: String,
        kind: String,
        functions: Vec<(String, Function)>,
    ) -> (res: Self)
        ensures
            res == (PackageInfo { name, version, description, kind, functions }),
    {
        PackageInfo { name, version, description, kind, functions }
    }
}

/// The function a valid action maps to: arguments are the action's inputs,
/// the pattern is passed through, and the return type is the declared type
/// of the action's first output argument.
pub open spec fn action_function(a: ActionModel) -> FunctionModel
    recommends
        a.output.len() > 0,
{
    FunctionModel { arguments: a.input, pattern: a.pattern, return_type: a.output[0].data_type }
}

/// The function table a specification's actions give rise to: one function
/// per action, under the action's own name, in declared order.
pub open spec fn manifest_functions(actions: Seq<(Seq<char>, ActionModel)>) -> Seq<
    (Seq<char>, FunctionModel),
> {
    actions.map_values(|a: (Seq<char>, ActionModel)| (a.0, action_function(a.1)))
}

/// The whole manifest a specification gives rise to, when every action is
/// valid: identity copied, the fixed `"ecu"` kind, and the function table of
/// [`manifest_functions`].
pub open spec fn manifest_model(m: crate::container::SpecModel) -> PackageModel {
    PackageModel {
        name: m.name,
        version: m.version,
        description: m.description,
        kind: "ecu"@,
        functions: manifest_functions(m.actions),
    }
}

/// The key sequence of a named-action sequence, order kept.
pub open spec fn action_names(actions: Seq<(Seq<char>, ActionModel)>) -> Seq<Seq<char>> {
    actions.map_values(|a: (Seq<char>, ActionModel)| a.0)
}

/// The key sequence of a named-function sequence, order kept.
pub open spec fn function_names(functions: Seq<(Seq<char>, FunctionModel)>) -> Seq<Seq<char>> {
    functions.map_values(|f: (Seq<char>, FunctionModel)| f.0)
}

/// Law: the manifest's function names are exactly the specification's action
/// names — the same key sequence, so for a well-formed specification, whose
/// action names are pairwise distinct, the two sets of unique keys are
/// equal, with no renaming and no filtering.
pub proof fn lemma_manifest_function_names(m: crate::container::SpecModel)
    ensures
        function_names(manifest_functions(m.actions)) == action_names(m.actions),
        function_names(manifest_functions(m.actions)).to_set() == action_names(m.actions).to_set(),
        m.well_formed() ==> forall|i: int, j: int|
            0 <= i < j < m.actions.len() ==> function_names(manifest_functions(m.actions))[i]
                != function_names(manifest_functions(m.actions))[j],
{
    assert(function_names(manifest_functions(m.actions)) =~= action_names(m.actions));
}

/// Every action of the sequence declares at least one output argument.
pub open spec fn all_actions_have_output(actions: Seq<(Seq<char>, ActionModel)>) -> bool {
    forall|i: int| 0 <= i < actions.len() ==> #[trigger] actions[i].1.output.len() > 0
}

/// Derives the package manifest from a container specification.
///
/// Succeeds exactly when every action declares at least one output; the
/// manifest then carries the specification's identity, the fixed `"ecu"`
/// kind, and one function per action, in declared order, as
/// [`action_function`] gives it. Otherwise reports the first action, in
/// declared order, that has no output.
pub fn generate_package_info(container_info: &ContainerSpec) -> (res: Result<
    PackageInfo,
    SpecValidationError,
>)
    ensures
        res is Ok <==> all_actions_have_output(container_info@.actions),
        res matches Ok(info) ==> info@ == manifest_model(container_info@),
        res matches Err(e) ==> exists|i: int|
            {
                &&& 0 <= i < container_info@.actions.len()
                &&& (#[trigger] container_info@.actions[i]).1.output.len() == 0
                &&& e.action@ == container_info@.actions[i].0
                &&& forall|j: int| 0 <= j < i ==> #[trigger] container_info@.actions[j].1.output.len() > 0
            },
{
    let ghost actions = container_info@.actions;
    let mut functions: Vec<(String, Function)> = Vec::new();
    let n = container_info.actions.len();
    for idx in 0..n
        invariant
            n == container_info.actions.len(),
            actions == container_info@.actions,
            forall|j: int| 0 <= j < idx ==> #[trigger] actions[j].1.output.len() > 0,
            functions@.len() == idx,
            functions_model(functions@) == manifest_functions(actions.take(idx as int)),
    {
        let (action_name, action) = &container_info.actions[idx];
        if action.output.len() == 0 {
            proof {
                assert(actions[idx as int].1.output.len() == 0);
                assert(!all_actions_have_output(actions));
            }
            return Err(SpecValidationError { action: action_name.clone() });
        }
        let arguments = clone_arguments(&action.input);
        let pattern = match &action.pattern {
            Some(p) => Some(p.clone()),
            None => None,
        };
        let return_type = action.output[0].data_type.clone();
        let function = Function::new(arguments, pattern, return_type);
        let ghost pre = functions@;
        functions.push((action_name.clone(), function));
        proof {
            let lm = functions_model(functions@);
            let rm = manifest_functions(actions.take(idx + 1));
            assert forall|j: int| 0 <= j < idx implies lm[j] == rm[j] by {
                assert(functions@[j] == pre[j]);
                assert(lm[j] == functions_model(pre)[j]);
                assert(rm[j] == manifest_functions(actions.take(idx as int))[j]);
            }
            assert(lm[idx as int].0 == rm[idx as int].0);
            assert(lm[idx as int].1 =~~= rm[idx as int].1);
        }
        assert(functions_model(functions@) =~~= manifest_functions(actions.take(idx + 1)));
    }
    assert(actions.take(n as int) =~= actions);
    let info = PackageInfo::new(
        container_info.name.clone(),
        container_info.version.clone(),
        container_info.description.clone(),
        String::from_str("ecu"),
        functions,
    );
    assert(info@ =~~= manifest_model(container_info@));
    Ok(info)
}

} // verus!

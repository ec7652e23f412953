//! Shared data types: arguments, calling-convention notations, and the
//! function signatures exposed by a package manifest.

use vstd::prelude::*;

verus! {

/// Mathematical model of an [`Argument`]: both fields as character sequences.
#[verifier::ext_equal]
pub ghost struct ArgumentModel {
    pub name: Seq<char>,
    pub data_type: Seq<char>,
}

/// A named, typed argument of an action or of a manifest function. The type
/// token is opaque: it is passed through verbatim, never interpreted here.
#[derive(Debug, PartialEq, Eq)]
pub struct Argument {
    pub name: String,
    pub data_type: String,
}

impl View for Argument {
    type V = ArgumentModel;

    open spec fn view(&self) -> ArgumentModel {
        ArgumentModel { name: self.name@, data_type: self.data_type@ }
    }
}

impl DeepView for Argument {
    type V = ArgumentModel;

    open spec fn deep_view(&self) -> ArgumentModel {
        self@
    }
}

impl Clone for Argument {
    fn clone(&self) -> (res: Self)
        ensures
            res == *self,
    {
        Argument { name: self.name.clone(), data_type: self.data_type.clone() }
    }
}

/// A calling-convention notation for a function: optional infix terms and
/// optional prefix and postfix terms, passed through verbatim.
pub struct FunctionNotation {
    pub infix: Option<Vec<String>>,
    pub postfix: Option<String>,
    pub prefix: Option<String>,
}

/// A named data type declared by a specification document, with its
/// properties; passed through verbatim, never interpreted here.
pub struct TypeSpec {
    pub name: String,
    pub properties: Vec<Argument>,
}

/// Copies a sequence of arguments, preserving it exactly.
pub fn clone_arguments(args: &Vec<Argument>) -> (res: Vec<Argument>)
    ensures
        res@ == args@,
{
    let res = args.clone();
    assert(res@ =~= args@);
    res
}

} // verus!

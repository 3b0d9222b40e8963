//! The data captured for one bound parameter of a traced call.

use vstd::prelude::*;

verus! {

/// How a bound parameter was declared by the function that received it.
#[derive(Clone, Copy, Debug, PartialEq, Eq, Hash, Structural)]
pub enum ArgumentKind {
    /// An ordinary parameter, bound by position or by name.
    Positional,
    /// The parameter that collects surplus positional arguments.
    VariadicPositional,
    /// A parameter that can only be bound by name.
    KeywordOnly,
    /// The parameter that collects surplus keyword arguments.
    VariadicKeyword,
}

/// One entry of a call's local-variable snapshot: the variable's name and the
/// name of the runtime type of the value bound to it, where the host could
/// resolve the value.
#[derive(Clone, Debug, PartialEq, Eq)]
pub struct Binding {
    pub name: String,
    pub typ: Option<String>,
}

/// The mathematical content of a [`Binding`].
pub struct BindingView {
    pub name: Seq<char>,
    pub typ: Option<Seq<char>>,
}

impl View for Binding {
    type V = BindingView;

    open spec fn view(&self) -> BindingView {
        BindingView {
            name: self.name@,
            typ: match self.typ {
                Some(t) => Some(t@),
                None => None,
            },
        }
    }
}

/// One classified parameter binding: its name, the name of the runtime type of
/// the bound value, and how the parameter was declared.
#[derive(Clone, Debug, PartialEq, Eq)]
pub struct Argument {
    pub name: String,
    pub typ: String,
    pub kind: ArgumentKind,
}

/// The mathematical content of an [`Argument`].
pub struct ArgumentView {
    pub name: Seq<char>,
    pub typ: Seq<char>,
    pub kind: ArgumentKind,
}

impl View for Argument {
    type V = ArgumentView;

    open spec fn view(&self) -> ArgumentView {
        ArgumentView { name: self.name@, typ: self.typ@, kind: self.kind }
    }
}

/// The views of a sequence of bindings, entry by entry.
pub open spec fn binding_views(s: Seq<Binding>) -> Seq<BindingView> {
    Seq::new(s.len(), |i: int| s[i]@)
}

/// The views of a sequence of arguments, entry by entry.
pub open spec fn argument_views(s: Seq<Argument>) -> Seq<ArgumentView> {
    Seq::new(s.len(), |i: int| s[i]@)
}

/// The type name recorded for a value that the host could not resolve.
pub open spec fn unknown_type() -> Seq<char> {
    "<unknown>"@
}

/// The type name recorded for a value: the resolved name, or the sentinel
/// where there is none.
pub open spec fn recorded_type(resolved: Option<Seq<char>>) -> Seq<char> {
    match resolved {
        Some(name) => name,
        None => unknown_type(),
    }
}

/// Name the type of a value for a record. An unresolvable value is recorded
/// under the sentinel `<unknown>`; it is never an error.
pub fn resolve_type(resolved: &Option<String>) -> (r: String)
    ensures
        r@ == recorded_type(
            match *resolved {
                Some(t) => Some(t@),
                None => None,
            },
        ),
        *resolved is None ==> r@ == "<unknown>"@,
{
    match resolved {
        Some(name) => name.clone(),
        None => "<unknown>".to_owned(),
    }
}

/// The argument that a snapshot entry becomes when classified as `kind`.
pub open spec fn argument_of(binding: BindingView, kind: ArgumentKind) -> ArgumentView {
    ArgumentView {
        name: binding.name,
        typ: recorded_type(binding.typ),
        kind,
    }
}

impl Argument {
    /// Classify one snapshot entry as `kind`.
    pub fn from_binding(binding: &Binding, kind: ArgumentKind) -> (r: Argument)
        ensures
            r@ == argument_of(binding@, kind),
    {
        Argument {
            name: binding.name.clone(),
            typ: resolve_type(&binding.typ),
            kind,
        }
    }

    /// A copy of this argument.
    pub fn duplicate(&self) -> (r: Argument)
        ensures
            r@ == self@,
    {
        Argument { name: self.name.clone(), typ: self.typ.clone(), kind: self.kind }
    }
}

} // verus!

//! Replaces references to formal parameters by the actual arguments of a call.

use crate::error::{QasmSimError, QasmSimErrorView, RuntimeKind};
use crate::grammar::ast::{Argument, ArgumentView};
use vstd::hash_map::StringHashMap;
use vstd::prelude::*;

verus! {

/// The bindings that a table holds, each actual argument by its view.
pub open spec fn binding_views(table: Map<Seq<char>, Argument>) -> Map<Seq<char>, ArgumentView> {
    table.map_values(|actual: Argument| actual@)
}

/// Every actual argument is an item of a register: no name is bound to
/// another name.
pub open spec fn fully_resolved(bindings: Map<Seq<char>, ArgumentView>) -> bool {
    forall|name: Seq<char>| #[trigger] bindings.contains_key(name) ==> bindings[name] is Item
}

/// The error for a name that is bound to nothing. It carries the name as it is.
pub open spec fn unbound(name: Seq<char>) -> QasmSimErrorView {
    QasmSimErrorView::RuntimeError {
        kind: RuntimeKind::QuantumRegisterNotFound,
        symbol_name: name,
    }
}

/// What resolving `name` against `bindings` gives: the actual argument bound
/// to exactly that name, or else the error that carries the name.
pub open spec fn resolution(bindings: Map<Seq<char>, ArgumentView>, name: Seq<char>) -> Result<
    ArgumentView,
    QasmSimErrorView,
> {
    if bindings.contains_key(name) {
        Ok(bindings[name])
    } else {
        Err(unbound(name))
    }
}

/// The view of a result of [`ArgumentSolver::solve`].
pub open spec fn outcome(result: Result<Argument, QasmSimError>) -> Result<
    ArgumentView,
    QasmSimErrorView,
> {
    match result {
        Ok(actual) => Ok(actual@),
        Err(error) => Err(error@),
    }
}

/// Two names differ: in length, or in the character at some position.
pub open spec fn names_differ(a: Seq<char>, b: Seq<char>) -> bool {
    a.len() != b.len() || exists|i: int| 0 <= i < a.len() && a[i] != b[i]
}

/// A name that is bound resolves to the actual argument it is bound to.
pub proof fn lemma_bound_name_resolves(bindings: Map<Seq<char>, ArgumentView>, name: Seq<char>)
    requires
        bindings.contains_key(name),
    ensures
        resolution(bindings, name) == Ok::<ArgumentView, QasmSimErrorView>(bindings[name]),
{
}

/// A name that is not bound fails to resolve, and the error carries exactly
/// that name.
pub proof fn lemma_unbound_name_fails(bindings: Map<Seq<char>, ArgumentView>, name: Seq<char>)
    requires
        !bindings.contains_key(name),
    ensures
        resolution(bindings, name) == Err::<ArgumentView, QasmSimErrorView>(unbound(name)),
        unbound(name)->symbol_name == name,
        unbound(name)->kind == RuntimeKind::QuantumRegisterNotFound,
{
}

/// Names are matched whole: a name resolves exactly when some bound name has
/// its length and, at every position, its character.
pub proof fn lemma_exact_match(bindings: Map<Seq<char>, ArgumentView>, name: Seq<char>)
    ensures
        resolution(bindings, name) is Ok <==> exists|bound: Seq<char>|
            #[trigger] bindings.contains_key(bound) && !names_differ(bound, name),
{
    if bindings.contains_key(name) {
        assert(!names_differ(name, name));
    }
    assert forall|bound: Seq<char>|
        #[trigger] bindings.contains_key(bound) && !names_differ(bound, name) implies bound
        == name by {
        assert(bound =~= name);
    }
}

/// Nothing is matched in part. Where every bound name differs from `name`, be
/// it in a single character, `name` is unbound.
pub proof fn lemma_no_partial_match(bindings: Map<Seq<char>, ArgumentView>, name: Seq<char>)
    requires
        forall|bound: Seq<char>| #[trigger]
            bindings.contains_key(bound) ==> names_differ(bound, name),
    ensures
        resolution(bindings, name) == Err::<ArgumentView, QasmSimErrorView>(unbound(name)),
{
    if bindings.contains_key(name) {
        assert(names_differ(name, name));
    }
}

/// Against a table in which no name is bound to another name, whatever
/// resolves resolves to an item of a register.
pub proof fn lemma_resolved_table_gives_items(
    bindings: Map<Seq<char>, ArgumentView>,
    name: Seq<char>,
)
    requires
        fully_resolved(bindings),
    ensures
        resolution(bindings, name) matches Ok(actual) ==> actual is Item,
{
}

/// Bindings do not interfere: binding another name leaves what `name`
/// resolves to as it was.
pub proof fn lemma_other_binding_is_ignored(
    bindings: Map<Seq<char>, ArgumentView>,
    other: Seq<char>,
    actual: ArgumentView,
    name: Seq<char>,
)
    requires
        other != name,
    ensures
        resolution(bindings.insert(other, actual), name) == resolution(bindings, name),
{
}

/// Resolves references to formal parameters against the bindings of one call.
///
/// The solver borrows the table and never changes it.
pub struct ArgumentSolver<'bindings>(&'bindings StringHashMap<Argument>);

impl<'bindings> View for ArgumentSolver<'bindings> {
    type V = Map<Seq<char>, ArgumentView>;

    /// The bindings that the solver resolves against.
    closed spec fn view(&self) -> Map<Seq<char>, ArgumentView> {
        binding_views(self.0@)
    }
}

impl<'bindings> ArgumentSolver<'bindings> {
    /// A solver over `argument_table`, which binds each formal parameter of
    /// an invoked operation to the actual argument of the call.
    pub fn new(argument_table: &'bindings StringHashMap<Argument>) -> (solver: Self)
        ensures
            solver@ == binding_views(argument_table@),
    {
        ArgumentSolver(argument_table)
    }

    /// The actual argument for the formal parameter that `arg` names.
    ///
    /// The result is a copy of its own. A name that the table does not hold,
    /// letter for letter, is an error that carries the name.
    pub fn solve(&self, arg: &Argument) -> (result: Result<Argument, QasmSimError>)
        requires
            arg is Id,
        ensures
            outcome(result) == resolution(self@, arg@->Id_0),
            fully_resolved(self@) ==> (result matches Ok(actual) ==> actual is Item),
    {
        match arg {
            Argument::Id(name) => match self.0.get(name.as_str()) {
                None => Err(
                    QasmSimError::RuntimeError {
                        kind: RuntimeKind::QuantumRegisterNotFound,
                        symbol_name: name.clone(),
                    },
                ),
                Some(argument) => Ok(argument.clone()),
            },
            Argument::Item(..) => vstd::pervasive::unreached(),
        }
    }
}

} // verus!

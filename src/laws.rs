use vstd::prelude::*;

use crate::catalog::{Function, Operator};
use crate::expr::{kinds_match, render_list, Tree};
use crate::registry::{ValueKind, WireTypeDescriptor};

verus! {

/// An operator applied to well-typed operands of the types it declares gives
/// a well-typed expression of its result type, rendered as the left operand,
/// the symbol and the right operand separated by spaces, in parentheses for
/// the grouped operator.
pub proof fn operator_application(op: Operator, left: Tree, right: Tree)
    requires
        left.well_typed(),
        right.well_typed(),
        op.spec_accepts(left.kind(), right.kind()),
    ensures
        ({
            let t = Tree::Op { op, left: Box::new(left), right: Box::new(right) };
            &&& t.well_typed()
            &&& t.kind() == op.spec_result()
            &&& !op.spec_grouped() ==> t.render() == left.render() + " "@ + op.spec_symbol() + " "@
                + right.render()
            &&& op.spec_grouped() ==> t.render() == "("@ + left.render() + " "@ + op.spec_symbol()
                + " "@ + right.render() + ")"@
        }),
{
}

/// A function called on well-typed arguments of the types it declares, in
/// order, gives a well-typed expression of its result type, rendered as its
/// name followed by the rendered arguments, separated by commas, in
/// parentheses.
pub proof fn function_call(func: Function, call: Tree, args: Seq<Tree>)
    requires
        call.is_call(func, args),
        forall|i: int| 0 <= i < args.len() ==> (#[trigger] args[i]).well_typed(),
        kinds_match(args, func.spec_params()),
    ensures
        call.well_typed(),
        call.kind() == func.spec_result(),
        call.render() == func.spec_name() + "("@ + render_list(args) + ")"@,
{
}

/// Looking up a kind right after registering it gives back the registered
/// descriptor.
pub proof fn registry_round_trip(
    registry: Map<ValueKind, WireTypeDescriptor>,
    kind: ValueKind,
    descriptor: WireTypeDescriptor,
)
    requires
        !registry.contains_key(kind),
    ensures
        registry.insert(kind, descriptor).contains_key(kind),
        registry.insert(kind, descriptor)[kind] == descriptor,
{
}

} // verus!

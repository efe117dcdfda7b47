//! What `resolve` builds, it builds in the scope that it is in.

use vstd::prelude::*;

use crate::resolve::ResolvedSymbol;
use crate::scope::ExprContext;
use crate::span::TextSpan;
use crate::state::State;
use crate::tir::AccessContext;

verus! {

impl<'ast> State<'ast> {
    pub broadcast proof fn keeps_resolved_symbol_to_expression(
        self,
        ctx: ExprContext,
        access: AccessContext,
        resolved: ResolvedSymbol,
        span: TextSpan,
    )
        ensures
            ctx.stays_in_scope(
                (#[trigger] self.resolved_symbol_to_expression(ctx, access, resolved, span)).1,
            ),
    {
        broadcast use crate::nesting::group_nesting;

        ctx.grows_into_itself();
        reveal(State::resolved_symbol_to_expression);
    }
}

} // verus!

//! The completion itself: from the place of the request and the resolved
//! interface to the candidates that are offered.

use vstd::prelude::*;
use crate::missing::{borrowed_views, missing_members, missing_of};
use crate::model::{
    opt_resolution, CompletionContext, CompletionContextView, CompletionItemView, Completions,
    ImplBlock, ImplBlockView, ImplementationMemberView, InterfaceDefinition, InterfaceMember,
    InterfaceMemberView, Resolution, ResolutionView,
};
use crate::stub::{add_function_impl, add_type_alias_impl, function_candidate, type_alias_candidate};

verus! {

/// Whether a request at this place is answered at all: the cursor stands in an
/// implementation block that has a member list, and not inside the body of a
/// callable member.
pub open spec fn gate_open(ctx: CompletionContextView) -> bool {
    ctx.impl_block matches Some(block) && block.item_list is Some && !ctx.in_function_body
}

/// The interface that the block implements: the block names it by a plain
/// path, and that path resolved to an interface and to nothing else.
pub open spec fn target_trait(impl_block: ImplBlockView, resolution: Option<ResolutionView>) -> Option<
    Seq<InterfaceMemberView>,
> {
    match resolution {
        Some(ResolutionView::Interface(members)) => if impl_block.has_target_path {
            Some(members)
        } else {
            None
        },
        _ => None,
    }
}

/// The stub for one missing member. Constants get none.
pub open spec fn stub_for(member: InterfaceMemberView, offset: u32) -> Option<CompletionItemView> {
    match member {
        InterfaceMemberView::Callable(f) => Some(function_candidate(f, offset)),
        InterfaceMemberView::AssociatedType(t) => Some(type_alias_candidate(t, offset)),
        InterfaceMemberView::Constant(_) => None,
    }
}

/// `stub_for` at a fixed offset, as a function of the member.
pub open spec fn stub_at(offset: u32) -> spec_fn(InterfaceMemberView) -> Option<
    CompletionItemView,
> {
    |member: InterfaceMemberView| stub_for(member, offset)
}

/// The stubs for a sequence of missing members, in the same order, with the
/// constants left out.
pub open spec fn stubs_of(missing: Seq<InterfaceMemberView>, offset: u32) -> Seq<
    CompletionItemView,
> {
    missing.filter_map(stub_at(offset))
}

/// The candidates for an interface with the given members and a block that
/// holds the given items.
pub open spec fn candidates_for(
    members: Seq<InterfaceMemberView>,
    items: Seq<ImplementationMemberView>,
    offset: u32,
) -> Seq<CompletionItemView> {
    stubs_of(missing_of(members, items), offset)
}

/// Everything that one request is answered with.
pub open spec fn offered(ctx: CompletionContextView, resolution: Option<ResolutionView>) -> Seq<
    CompletionItemView,
> {
    if gate_open(ctx) {
        match target_trait(ctx.impl_block->0, resolution) {
            Some(members) => candidates_for(members, ctx.impl_block->0.item_list->0, ctx.offset),
            None => Seq::empty(),
        }
    } else {
        Seq::empty()
    }
}

/// Tells whether a request at this place is answered at all. Where it is not,
/// the target path need not even be resolved.
pub fn completion_applies(ctx: &CompletionContext) -> (open: bool)
    ensures
        open == gate_open(ctx@),
{
    match &ctx.impl_block {
        Some(block) => block.item_list.is_some() && !ctx.in_function_body,
        None => false,
    }
}

/// Picks the interface out of what the block's target path resolved to.
pub fn resolve_target_trait<'a>(impl_block: &ImplBlock, resolution: &'a Option<Resolution>) -> (found:
    Option<&'a InterfaceDefinition>)
    ensures
        match found {
            Some(def) => {
                &&& *resolution == Some(Resolution::Interface(*def))
                &&& target_trait(impl_block@, opt_resolution(*resolution)) == Some(def@)
            },
            None => target_trait(impl_block@, opt_resolution(*resolution)) is None,
        },
{
    if !impl_block.has_target_path {
        return None;
    }
    match resolution {
        Some(Resolution::Interface(def)) => Some(def),
        _ => None,
    }
}

/// Answers one request: adds to `acc` a candidate for every callable member
/// and every associated type that the interface declares and the block does
/// not provide, in the order of the interface.
pub fn complete_trait_impl(
    acc: &mut Completions,
    ctx: &CompletionContext,
    resolution: &Option<Resolution>,
)
    ensures
        final(acc)@ == old(acc)@ + offered(ctx@, opt_resolution(*resolution)),
{
    let impl_block = match &ctx.impl_block {
        Some(block) => block,
        None => {
            assert(acc@ =~= old(acc)@ + offered(ctx@, opt_resolution(*resolution)));
            return ;
        },
    };
    let item_list = match &impl_block.item_list {
        Some(items) => items,
        None => {
            assert(acc@ =~= old(acc)@ + offered(ctx@, opt_resolution(*resolution)));
            return ;
        },
    };
    if ctx.in_function_body {
        assert(acc@ =~= old(acc)@ + offered(ctx@, opt_resolution(*resolution)));
        return ;
    }
    let target = match resolve_target_trait(impl_block, resolution) {
        Some(def) => def,
        None => {
            assert(acc@ =~= old(acc)@ + offered(ctx@, opt_resolution(*resolution)));
            return ;
        },
    };
    let missing_items = missing_members(target, item_list);
    let ghost missing = borrowed_views(missing_items@);
    assert(offered(ctx@, opt_resolution(*resolution)) == stubs_of(missing, ctx.offset));
    assert(missing.take(0).filter_map(stub_at(ctx.offset)) =~= Seq::empty());
    assert(acc@ =~= old(acc)@ + stubs_of(missing.take(0), ctx.offset));
    let mut i: usize = 0;
    while i < missing_items.len()
        invariant
            i <= missing_items.len(),
            missing == borrowed_views(missing_items@),
            acc@ == old(acc)@ + stubs_of(missing.take(i as int), ctx.offset),
        decreases missing_items.len() - i,
    {
        proof {
            missing.lemma_filter_map_take_succ(stub_at(ctx.offset), i as int);
        }
        match missing_items[i] {
            InterfaceMember::Callable(f) => add_function_impl(acc, ctx, f),
            InterfaceMember::AssociatedType(t) => add_type_alias_impl(acc, ctx, t),
            InterfaceMember::Constant(_) => {},
        }
        assert(acc@ =~= old(acc)@ + stubs_of(missing.take(i + 1), ctx.offset));
        i = i + 1;
    }
    assert(missing.take(i as int) =~= missing);
}

} // verus!

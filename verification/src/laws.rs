//! What holds of the candidates for every interface and every block.

use vstd::prelude::*;
use crate::completion::{candidates_for, offered, stub_at, stub_for};
use crate::missing::{implemented, missing, missing_from, missing_of, provides};
use crate::model::{
    CompletionContextView, CompletionItemView, ImplementationMemberView, InterfaceMemberView,
    ResolutionView,
};

verus! {

/// Whether a member is of a kind that stubs are written for: a callable
/// member or an associated type.
pub open spec fn has_stub(member: InterfaceMemberView) -> bool {
    !(member is Constant)
}

/// `has_stub`, as a predicate.
pub open spec fn stubbed() -> spec_fn(InterfaceMemberView) -> bool {
    |member: InterfaceMemberView| has_stub(member)
}

/// The members with a stub that the block provides.
pub open spec fn provided_in(items: Seq<ImplementationMemberView>) -> spec_fn(
    InterfaceMemberView,
) -> bool {
    |member: InterfaceMemberView| has_stub(member) && implemented(member, items)
}

/// The members with a stub that the block does not provide.
pub open spec fn remaining_in(items: Seq<ImplementationMemberView>) -> spec_fn(
    InterfaceMemberView,
) -> bool {
    |member: InterfaceMemberView| has_stub(member) && !implemented(member, items)
}

/// The stub of a member that has one.
pub open spec fn stub_of(offset: u32) -> spec_fn(InterfaceMemberView) -> CompletionItemView {
    |member: InterfaceMemberView| stub_for(member, offset)->0
}

/// What one more member at the end of an interface adds to the candidates.
pub open spec fn contribution(
    member: InterfaceMemberView,
    items: Seq<ImplementationMemberView>,
    offset: u32,
) -> Seq<CompletionItemView> {
    if has_stub(member) && !implemented(member, items) {
        seq![stub_for(member, offset)->0]
    } else {
        Seq::empty()
    }
}

/// The candidates for an interface are those for all but its last member,
/// followed by what the last member adds.
pub proof fn lemma_candidates_push(
    prefix: Seq<InterfaceMemberView>,
    last: InterfaceMemberView,
    items: Seq<ImplementationMemberView>,
    offset: u32,
)
    ensures
        candidates_for(prefix.push(last), items, offset) == candidates_for(prefix, items, offset)
            + contribution(last, items, offset),
{
    prefix.lemma_filter_push(last, missing_from(items));
    let owed = missing_of(prefix, items);
    if missing(last, items) {
        assert(owed.push(last).drop_last() =~= owed);
        assert(owed.push(last).filter_map(stub_at(offset)) =~= owed.filter_map(stub_at(offset))
            + contribution(last, items, offset));
    } else {
        assert(candidates_for(prefix, items, offset) + contribution(last, items, offset)
            =~= candidates_for(prefix, items, offset));
    }
}

/// Completeness. The candidates are exactly the stubs of the callable members
/// and associated types that the block does not provide, in the order in which
/// the interface declares them. Their number is the number of such members in
/// the interface less the number of those that the block provides.
pub proof fn lemma_completeness(
    members: Seq<InterfaceMemberView>,
    items: Seq<ImplementationMemberView>,
    offset: u32,
)
    ensures
        candidates_for(members, items, offset) == members.filter(remaining_in(items)).map_values(
            stub_of(offset),
        ),
        candidates_for(members, items, offset).len() == members.filter(stubbed()).len()
            - members.filter(provided_in(items)).len(),
    decreases members.len(),
{
    let stubs = members.filter(remaining_in(items)).map_values(stub_of(offset));
    if members.len() == 0 {
        reveal(Seq::filter);
        assert(candidates_for(members, items, offset) =~= stubs);
    } else {
        let prefix = members.drop_last();
        let last = members.last();
        assert(members =~= prefix.push(last));
        lemma_completeness(prefix, items, offset);
        lemma_candidates_push(prefix, last, items, offset);
        prefix.lemma_filter_push(last, remaining_in(items));
        prefix.lemma_filter_push(last, stubbed());
        prefix.lemma_filter_push(last, provided_in(items));
        assert(candidates_for(members, items, offset) =~= stubs);
    }
}

/// No duplicate offers, and no constants. Every candidate is the stub of a
/// member of the interface that is a callable member or an associated type,
/// and that nothing in the block provides by kind and name.
pub proof fn lemma_candidates_are_owed(
    members: Seq<InterfaceMemberView>,
    items: Seq<ImplementationMemberView>,
    offset: u32,
    k: int,
)
    requires
        0 <= k < candidates_for(members, items, offset).len(),
    ensures
        k < members.filter(remaining_in(items)).len(),
        ({
            let origin = members.filter(remaining_in(items))[k];
            &&& members.contains(origin)
            &&& !(origin is Constant)
            &&& !implemented(origin, items)
            &&& stub_for(origin, offset) == Some(candidates_for(members, items, offset)[k])
        }),
{
    lemma_completeness(members, items, offset);
    let owed = members.filter(remaining_in(items));
    members.lemma_filter_pred(remaining_in(items), k);
    assert(owed.contains(owed[k]));
    members.lemma_filter_contains_rev(remaining_in(items), owed[k]);
}

/// The name that a member with a stub carries.
pub open spec fn stub_name(member: InterfaceMemberView) -> Seq<char> {
    match member {
        InterfaceMemberView::Callable(f) => f.name,
        InterfaceMemberView::AssociatedType(t) => t.name,
        InterfaceMemberView::Constant(_) => Seq::empty(),
    }
}

/// The label of a stub tells the kind and the name of the member it was
/// written for: two members with a stub whose labels agree are of one kind
/// and carry one name.
pub proof fn lemma_label_tells_kind_and_name(
    a: InterfaceMemberView,
    b: InterfaceMemberView,
    offset: u32,
)
    requires
        has_stub(a),
        has_stub(b),
        (stub_for(a, offset)->0).label == (stub_for(b, offset)->0).label,
    ensures
        a is Callable <==> b is Callable,
        stub_name(a) == stub_name(b),
{
    reveal_strlit("fn ");
    reveal_strlit("()");
    reveal_strlit("(..)");
    reveal_strlit("type ");
    reveal_strlit(" = ");
    let la = (stub_for(a, offset)->0).label;
    let lb = (stub_for(b, offset)->0).label;
    let na = stub_name(a);
    let nb = stub_name(b);
    assert(la[0] == lb[0]);
    if a is Callable {
        assert(la[0] == 'f');
        assert(b is Callable);
        let fa = a->Callable_0;
        let fb = b->Callable_0;
        let sa = if fa.param_count() > 0 { "(..)"@ } else { "()"@ };
        let sb = if fb.param_count() > 0 { "(..)"@ } else { "()"@ };
        assert(la == "fn "@ + na + sa);
        assert(lb == "fn "@ + nb + sb);
        assert(la[la.len() - 2] == lb[lb.len() - 2]);
        assert(la[la.len() - 2] == sa[sa.len() - 2]);
        assert(lb[lb.len() - 2] == sb[sb.len() - 2]);
        assert(sa == sb);
        assert(la.len() == 3 + na.len() + sa.len());
        assert(lb.len() == 3 + nb.len() + sb.len());
        assert(na.len() == nb.len());
        assert forall|i: int| 0 <= i < na.len() implies na[i] == nb[i] by {
            assert(la[3 + i] == na[i]);
            assert(lb[3 + i] == nb[i]);
        }
        assert(na =~= nb);
    } else {
        assert(la[0] == 't');
        assert(b is AssociatedType);
        assert(la == "type "@ + na + " = "@);
        assert(lb == "type "@ + nb + " = "@);
        assert(la.len() == 5 + na.len() + 3);
        assert(lb.len() == 5 + nb.len() + 3);
        assert(na.len() == nb.len());
        assert forall|i: int| 0 <= i < na.len() implies na[i] == nb[i] by {
            assert(la[5 + i] == na[i]);
            assert(lb[5 + i] == nb[i]);
        }
        assert(na =~= nb);
    }
}

/// Whether the block provides a member depends on the member's kind and name
/// alone.
pub proof fn lemma_implemented_by_kind_and_name(
    a: InterfaceMemberView,
    b: InterfaceMemberView,
    items: Seq<ImplementationMemberView>,
)
    requires
        has_stub(a),
        has_stub(b),
        a is Callable <==> b is Callable,
        stub_name(a) == stub_name(b),
    ensures
        implemented(a, items) == implemented(b, items),
{
    assert forall|j: int| 0 <= j < items.len() implies provides(#[trigger] items[j], a)
        == provides(items[j], b) by {}
}

/// No duplicate offers, as the user sees it. Where the block provides a
/// callable member or an associated type, no candidate carries the label that
/// the stub of that member would carry.
pub proof fn lemma_provided_label_not_offered(
    members: Seq<InterfaceMemberView>,
    items: Seq<ImplementationMemberView>,
    offset: u32,
    provided: InterfaceMemberView,
    k: int,
)
    requires
        has_stub(provided),
        implemented(provided, items),
        0 <= k < candidates_for(members, items, offset).len(),
    ensures
        candidates_for(members, items, offset)[k].label != (stub_for(provided, offset)->0).label,
{
    lemma_candidates_are_owed(members, items, offset, k);
    let origin = members.filter(remaining_in(items))[k];
    if candidates_for(members, items, offset)[k].label == (stub_for(provided, offset)->0).label {
        lemma_label_tells_kind_and_name(origin, provided, offset);
        lemma_implemented_by_kind_and_name(origin, provided, items);
    }
}

/// Constant exclusion. The constants of an interface, named or not, provided
/// or not, change nothing: the candidates are those of the interface with its
/// constants taken out.
pub proof fn lemma_constants_never_offered(
    members: Seq<InterfaceMemberView>,
    items: Seq<ImplementationMemberView>,
    offset: u32,
)
    ensures
        candidates_for(members, items, offset) == candidates_for(
            members.filter(stubbed()),
            items,
            offset,
        ),
    decreases members.len(),
{
    if members.len() == 0 {
        reveal(Seq::filter);
    } else {
        let prefix = members.drop_last();
        let last = members.last();
        assert(members =~= prefix.push(last));
        lemma_constants_never_offered(prefix, items, offset);
        lemma_candidates_push(prefix, last, items, offset);
        prefix.lemma_filter_push(last, stubbed());
        if has_stub(last) {
            lemma_candidates_push(prefix.filter(stubbed()), last, items, offset);
        } else {
            assert(candidates_for(prefix, items, offset) + contribution(last, items, offset)
                =~= candidates_for(prefix, items, offset));
        }
    }
}

/// Idempotence. Two answers to one request, added to equal collections, leave
/// equal collections: the answer depends on nothing but the request.
pub proof fn lemma_same_request_same_answer(
    ctx: CompletionContextView,
    resolution: Option<ResolutionView>,
    before: Seq<CompletionItemView>,
    first: Seq<CompletionItemView>,
    second: Seq<CompletionItemView>,
)
    requires
        first == before + offered(ctx, resolution),
        second == before + offered(ctx, resolution),
    ensures
        first == second,
{
}

} // verus!

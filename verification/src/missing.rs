//! Which members of an interface an implementation block does not provide yet.

use vstd::prelude::*;
use crate::model::{
    member_views, opt_text, ImplementationMember, ImplementationMemberView, InterfaceDefinition,
    InterfaceMember, InterfaceMemberView,
};

verus! {

/// Whether a member of the block provides a member of the interface: both are
/// of one kind, and both carry the same name. A member without a name
/// provides nothing, and nothing provides a constant without a name.
pub open spec fn provides(item: ImplementationMemberView, member: InterfaceMemberView) -> bool {
    match (member, item) {
        (InterfaceMemberView::Callable(f), ImplementationMemberView::CallableImpl { name }) => name
            == Some(f.name),
        (InterfaceMemberView::Constant(c), ImplementationMemberView::ConstantImpl { name }) => {
            c.name is Some && name == c.name
        },
        (
            InterfaceMemberView::AssociatedType(t),
            ImplementationMemberView::AssociatedTypeImpl { name },
        ) => name == Some(t.name),
        _ => false,
    }
}

/// Whether some member of the block provides the member of the interface.
pub open spec fn implemented(
    member: InterfaceMemberView,
    items: Seq<ImplementationMemberView>,
) -> bool {
    exists|j: int| 0 <= j < items.len() && provides(#[trigger] items[j], member)
}

/// A constant that was declared without a name.
pub open spec fn is_nameless_constant(member: InterfaceMemberView) -> bool {
    member matches InterfaceMemberView::Constant(c) && c.name is None
}

/// Whether the block still owes the member: nothing in the block provides it.
/// A constant without a name is never owed, since nothing could provide it.
pub open spec fn missing(member: InterfaceMemberView, items: Seq<ImplementationMemberView>) -> bool {
    !is_nameless_constant(member) && !implemented(member, items)
}

/// `missing`, as a predicate on the members of an interface.
pub open spec fn missing_from(items: Seq<ImplementationMemberView>) -> spec_fn(
    InterfaceMemberView,
) -> bool {
    |member: InterfaceMemberView| missing(member, items)
}

/// The members that the block still owes, in the order of their declaration.
pub open spec fn missing_of(
    members: Seq<InterfaceMemberView>,
    items: Seq<ImplementationMemberView>,
) -> Seq<InterfaceMemberView> {
    members.filter(missing_from(items))
}

/// The views of a sequence of borrowed interface members, in order.
pub open spec fn borrowed_views(v: Seq<&InterfaceMember>) -> Seq<InterfaceMemberView> {
    v.map_values(|m: &InterfaceMember| m@)
}

/// Whether a member of the block carries exactly the wanted name.
pub fn has_name(name: &Option<String>, wanted: &String) -> (b: bool)
    ensures
        b == (opt_text(*name) == Some(wanted@)),
{
    match name {
        Some(n) => *n == *wanted,
        None => false,
    }
}

/// Whether a member of the block provides a member of the interface.
pub fn item_provides(item: &ImplementationMember, member: &InterfaceMember) -> (b: bool)
    ensures
        b == provides(item@, member@),
{
    match member {
        InterfaceMember::Callable(f) => match item {
            ImplementationMember::CallableImpl { name } => has_name(name, &f.name),
            _ => false,
        },
        InterfaceMember::Constant(c) => match &c.name {
            Some(c_name) => match item {
                ImplementationMember::ConstantImpl { name } => has_name(name, c_name),
                _ => false,
            },
            None => false,
        },
        InterfaceMember::AssociatedType(t) => match item {
            ImplementationMember::AssociatedTypeImpl { name } => has_name(name, &t.name),
            _ => false,
        },
    }
}

/// Looks through the block for a member that provides the given one.
pub fn is_implemented(member: &InterfaceMember, items: &Vec<ImplementationMember>) -> (b: bool)
    ensures
        b == implemented(member@, member_views(items@)),
{
    let ghost views = member_views(items@);
    let mut j: usize = 0;
    while j < items.len()
        invariant
            j <= items.len(),
            views == member_views(items@),
            forall|k: int| 0 <= k < j ==> !provides(#[trigger] views[k], member@),
        decreases items.len() - j,
    {
        if item_provides(&items[j], member) {
            assert(provides(views[j as int], member@));
            return true;
        }
        j = j + 1;
    }
    false
}

/// Whether the block still owes the given member.
pub fn is_missing(member: &InterfaceMember, items: &Vec<ImplementationMember>) -> (b: bool)
    ensures
        b == missing(member@, member_views(items@)),
{
    match member {
        InterfaceMember::Constant(c) => match &c.name {
            Some(_) => !is_implemented(member, items),
            None => false,
        },
        _ => !is_implemented(member, items),
    }
}

/// The members of the interface that the block does not provide, in the order
/// in which the interface declares them.
pub fn missing_members<'a>(
    interface: &'a InterfaceDefinition,
    items: &Vec<ImplementationMember>,
) -> (found: Vec<&'a InterfaceMember>)
    ensures
        borrowed_views(found@) == missing_of(interface@, member_views(items@)),
{
    let ghost views = member_views(items@);
    let mut found: Vec<&'a InterfaceMember> = Vec::new();
    let mut i: usize = 0;
    assert(interface@.take(0) =~= Seq::empty());
    proof {
        reveal(Seq::filter);
    }
    assert(borrowed_views(found@) =~= missing_of(interface@.take(0), views));
    while i < interface.members.len()
        invariant
            i <= interface.members.len(),
            views == member_views(items@),
            borrowed_views(found@) == missing_of(interface@.take(i as int), views),
        decreases interface.members.len() - i,
    {
        let member = &interface.members[i];
        proof {
            assert(interface@.take(i + 1) =~= interface@.take(i as int).push(member@));
            interface@.take(i as int).lemma_filter_push(member@, missing_from(views));
        }
        if is_missing(member, items) {
            found.push(member);
            assert(borrowed_views(found@) =~= missing_of(interface@.take(i + 1), views));
        }
        i = i + 1;
    }
    assert(interface@.take(i as int) =~= interface@);
    found
}

} // verus!

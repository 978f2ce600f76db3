//! Reading an implementation block out of the syntax tree.
//!
//! The tree belongs to `ra_ap_syntax`. What its nodes hold is not proved here:
//! it is named, and the three functions marked `external_body` are believed to
//! return what the names stand for. The names take a node for a value: they
//! speak of a tree that nobody edits in place while it is read.

use vstd::prelude::*;
use ra_ap_syntax::ast;
use ra_ap_syntax::ast::{AstNode, HasName};
use crate::model::{
    member_views, ImplBlock, ImplBlockView, ImplementationMember, ImplementationMemberView,
};

verus! {

/// `ra_ap_syntax::ast::Impl`, the node of an implementation block.
#[verifier::external_type_specification]
#[verifier::external_body]
pub struct ExImpl(ast::Impl);

/// `ra_ap_syntax::ast::AssocItem`, the node of one member of a block.
#[verifier::external_type_specification]
#[verifier::external_body]
pub struct ExAssocItem(ast::AssocItem);

/// `ra_ap_syntax::ast::Path`, the node of a path.
#[verifier::external_type_specification]
#[verifier::external_body]
pub struct ExPath(ast::Path);

/// The member nodes in the block's member list, in source order; `None` where
/// the block has no member list.
pub uninterp spec fn block_item_nodes(block: ast::Impl) -> Option<Seq<ast::AssocItem>>;

/// The kind of a member node, and the text of its name where it has one.
pub uninterp spec fn node_member(item: ast::AssocItem) -> ImplementationMemberView;

/// The path by which the block names the interface it implements; `None`
/// where it names none, or names it by a type that is no path.
pub uninterp spec fn block_target_path(block: ast::Impl) -> Option<ast::Path>;

/// The members that a sequence of member nodes stands for, in order.
pub open spec fn node_members(nodes: Seq<ast::AssocItem>) -> Seq<ImplementationMemberView> {
    nodes.map_values(|item: ast::AssocItem| node_member(item))
}

/// What the completion reads of a block.
pub open spec fn block_model(block: ast::Impl) -> ImplBlockView {
    ImplBlockView {
        has_target_path: block_target_path(block) is Some,
        item_list: match block_item_nodes(block) {
            Some(nodes) => Some(node_members(nodes)),
            None => None,
        },
    }
}

/// Calls `Impl::assoc_item_list` and, on the list, `AssocItemList::assoc_items`.
/// The first returns the child node that is the member list, if there is one;
/// the second walks the list's children that are members. Believed: the nodes
/// returned are those that `block_item_nodes` names.
#[verifier::external_body]
fn assoc_items(block: &ast::Impl) -> (nodes: Option<Vec<ast::AssocItem>>)
    ensures
        match nodes {
            Some(v) => block_item_nodes(*block) == Some(v@),
            None => block_item_nodes(*block) is None,
        },
{
    match block.assoc_item_list() {
        Some(list) => Some(list.assoc_items().collect()),
        None => None,
    }
}

/// Tells the variants of `AssocItem` apart and calls `HasName::name` on the
/// node inside; the name is handed on as the text of its node. Believed: the
/// member returned is the one that `node_member` names.
#[verifier::external_body]
fn member_of_node(item: &ast::AssocItem) -> (member: ImplementationMember)
    ensures
        member@ == node_member(*item),
{
    match item {
        ast::AssocItem::Fn(it) => ImplementationMember::CallableImpl {
            name: it.name().map(|n| n.syntax().to_string()),
        },
        ast::AssocItem::Const(it) => ImplementationMember::ConstantImpl {
            name: it.name().map(|n| n.syntax().to_string()),
        },
        ast::AssocItem::TypeAlias(it) => ImplementationMember::AssociatedTypeImpl {
            name: it.name().map(|n| n.syntax().to_string()),
        },
        ast::AssocItem::MacroCall(_) => ImplementationMember::MacroCall,
    }
}

/// Calls `Impl::trait_`, which returns the type in front of `for`, and, where
/// that type is a path type, `PathType::path`. Believed: the path returned is
/// the one that `block_target_path` names.
#[verifier::external_body]
fn trait_path(block: &ast::Impl) -> (path: Option<ast::Path>)
    ensures
        path == block_target_path(*block),
{
    match block.trait_() {
        Some(ast::Type::PathType(it)) => it.path(),
        _ => None,
    }
}

/// The path that is to be resolved to find the implemented interface.
pub fn target_trait_path(block: &ast::Impl) -> (path: Option<ast::Path>)
    ensures
        path == block_target_path(*block),
        path is Some <==> block_model(*block).has_target_path,
{
    trait_path(block)
}

/// Reads from the node of a block what the completion needs of it: whether it
/// names its interface by a path, and the kind and name of each member.
pub fn read_impl_block(block: &ast::Impl) -> (read: ImplBlock)
    ensures
        read@ == block_model(*block),
{
    let has_target_path = trait_path(block).is_some();
    let item_list = match assoc_items(block) {
        Some(nodes) => {
            let ghost wanted = node_members(nodes@);
            let mut members: Vec<ImplementationMember> = Vec::new();
            let mut i: usize = 0;
            while i < nodes.len()
                invariant
                    i <= nodes.len(),
                    wanted == node_members(nodes@),
                    members.len() == i,
                    member_views(members@) == wanted.take(i as int),
                decreases nodes.len() - i,
            {
                let member = member_of_node(&nodes[i]);
                members.push(member);
                i = i + 1;
                assert(member_views(members@) =~= wanted.take(i as int));
            }
            assert(wanted.take(i as int) =~= wanted);
            Some(members)
        },
        None => None,
    };
    ImplBlock { has_target_path, item_list }
}

} // verus!

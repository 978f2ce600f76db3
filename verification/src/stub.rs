//! The stub that is offered for one missing member: what it is called in the
//! list, and the text that choosing it inserts.

use vstd::prelude::*;
use vstd::string::*;
use crate::model::{
    opt_text, AssociatedTypeMember, AssociatedTypeMemberView, CallableMember, CallableMemberView,
    CompletionContext, CompletionItem, CompletionItemKind, CompletionItemView, Completions,
};
use crate::text::{append_joined, append_prefixed, bracketed_unless_empty, join_texts};

verus! {

/// The parameters as they stand between the round brackets: the receiver
/// first, where there is one.
pub open spec fn all_params(f: CallableMemberView) -> Seq<Seq<char>> {
    match f.self_param {
        Some(s) => seq![s] + f.params,
        None => f.params,
    }
}

/// The return type behind its arrow, or nothing.
pub open spec fn ret_type_text(ret_type: Option<Seq<char>>) -> Seq<char> {
    match ret_type {
        Some(t) => " -> "@ + t,
        None => Seq::empty(),
    }
}

/// The constraint clause on a line of its own, or nothing where the member
/// declares no predicate.
pub open spec fn where_clause_text(predicates: Seq<Seq<char>>) -> Seq<char> {
    if predicates.len() == 0 {
        Seq::empty()
    } else {
        "\nwhere "@ + join_texts(predicates, ",\n      "@)
    }
}

/// The declared signature of a callable member: name, generic parameters,
/// parameters, return type and constraint clause, each as it was written.
pub open spec fn signature_text(f: CallableMemberView) -> Seq<char> {
    "fn "@ + f.name + bracketed_unless_empty("<"@, f.generic_params, ", "@, ">"@) + "("@
        + join_texts(all_params(f), ", "@) + ")"@ + ret_type_text(f.ret_type) + where_clause_text(
        f.where_predicates,
    )
}

/// The short text shown for a callable member: empty brackets where it takes
/// no parameter, two dots between them where it takes any.
pub open spec fn function_label(f: CallableMemberView) -> Seq<char> {
    if f.param_count() > 0 {
        "fn "@ + f.name + "(..)"@
    } else {
        "fn "@ + f.name + "()"@
    }
}

/// The text inserted for a callable member: its signature and an empty body.
pub open spec fn function_snippet(f: CallableMemberView) -> Seq<char> {
    signature_text(f) + " {}"@
}

/// A callable member with a receiver is a method, any other a function.
pub open spec fn function_kind(f: CallableMemberView) -> CompletionItemKind {
    if f.self_param is Some {
        CompletionItemKind::Method
    } else {
        CompletionItemKind::Function
    }
}

/// The candidate offered for a missing callable member at the given offset.
pub open spec fn function_candidate(f: CallableMemberView, offset: u32) -> CompletionItemView {
    CompletionItemView {
        label: function_label(f),
        insert_text: function_snippet(f),
        kind: function_kind(f),
        documentation: f.docs,
        source_start: offset,
        source_end: offset,
    }
}

/// The text inserted for an associated type: everything up to the type that
/// the user has yet to write.
pub open spec fn type_alias_snippet(t: AssociatedTypeMemberView) -> Seq<char> {
    "type "@ + t.name + " = "@
}

/// The candidate offered for a missing associated type at the given offset.
pub open spec fn type_alias_candidate(t: AssociatedTypeMemberView, offset: u32) -> CompletionItemView {
    CompletionItemView {
        label: type_alias_snippet(t),
        insert_text: type_alias_snippet(t),
        kind: CompletionItemKind::TypeAlias,
        documentation: t.docs,
        source_start: offset,
        source_end: offset,
    }
}

/// A copy of an optional documentation text.
pub fn copy_docs(docs: &Option<String>) -> (copy: Option<String>)
    ensures
        opt_text(copy) == opt_text(*docs),
{
    match docs {
        Some(text) => Some(text.clone()),
        None => None,
    }
}

/// Writes out the declared signature of a callable member.
pub fn render_signature(func: &CallableMember) -> (out: String)
    ensures
        out@ == signature_text(func@),
{
    let mut out = String::from_str("fn ");
    out.append(func.name.as_str());
    if func.generic_params.len() > 0 {
        out.append("<");
        append_joined(&mut out, &func.generic_params, ", ");
        out.append(">");
    }
    let ghost head = out@;
    assert(head =~= "fn "@ + func@.name + bracketed_unless_empty(
        "<"@,
        func@.generic_params,
        ", "@,
        ">"@,
    ));
    out.append("(");
    match &func.self_param {
        Some(receiver) => {
            out.append(receiver.as_str());
            append_prefixed(&mut out, &func.params, 0, ", ");
            proof {
                let all = all_params(func@);
                assert(all.drop_first() =~= func@.params);
                assert(func@.params.subrange(0, func.params.len() as int) =~= func@.params);
            }
        },
        None => {
            append_joined(&mut out, &func.params, ", ");
        },
    }
    out.append(")");
    assert(out@ =~= head + "("@ + join_texts(all_params(func@), ", "@) + ")"@);
    let ghost with_params = out@;
    match &func.ret_type {
        Some(ret) => {
            out.append(" -> ");
            out.append(ret.as_str());
        },
        None => {},
    }
    assert(out@ =~= with_params + ret_type_text(func@.ret_type));
    let ghost with_ret = out@;
    if func.where_predicates.len() > 0 {
        out.append("\nwhere ");
        append_joined(&mut out, &func.where_predicates, ",\n      ");
    }
    assert(out@ =~= with_ret + where_clause_text(func@.where_predicates));
    out
}

/// Adds the candidate for a missing callable member.
pub fn add_function_impl(acc: &mut Completions, ctx: &CompletionContext, func: &CallableMember)
    ensures
        final(acc)@ == old(acc)@.push(function_candidate(func@, ctx.offset)),
{
    let mut label = String::from_str("fn ");
    label.append(func.name.as_str());
    if func.self_param.is_some() || func.params.len() > 0 {
        label.append("(..)");
    } else {
        label.append("()");
    }
    let completion_kind = if func.self_param.is_some() {
        CompletionItemKind::Method
    } else {
        CompletionItemKind::Function
    };
    let mut snippet = render_signature(func);
    snippet.append(" {}");
    let item = CompletionItem {
        label,
        insert_text: snippet,
        kind: completion_kind,
        documentation: copy_docs(&func.docs),
        source_start: ctx.offset,
        source_end: ctx.offset,
    };
    assert(item@ == function_candidate(func@, ctx.offset));
    acc.add(item);
}

/// Adds the candidate for a missing associated type.
pub fn add_type_alias_impl(
    acc: &mut Completions,
    ctx: &CompletionContext,
    type_alias: &AssociatedTypeMember,
)
    ensures
        final(acc)@ == old(acc)@.push(type_alias_candidate(type_alias@, ctx.offset)),
{
    let mut snippet = String::from_str("type ");
    snippet.append(type_alias.name.as_str());
    snippet.append(" = ");
    let item = CompletionItem {
        label: snippet.clone(),
        insert_text: snippet,
        kind: CompletionItemKind::TypeAlias,
        documentation: copy_docs(&type_alias.docs),
        source_start: ctx.offset,
        source_end: ctx.offset,
    };
    assert(item@ == type_alias_candidate(type_alias@, ctx.offset));
    acc.add(item);
}

} // verus!

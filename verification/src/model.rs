//! The data that the completion works on, each type with its mathematical view.

use vstd::prelude::*;

verus! {

/// The text of an optional string.
pub open spec fn opt_text(o: Option<String>) -> Option<Seq<char>> {
    match o {
        Some(s) => Some(s@),
        None => None,
    }
}

/// The texts of a sequence of strings, in order.
pub open spec fn texts_of(v: Seq<String>) -> Seq<Seq<char>> {
    v.map_values(|s: String| s@)
}

/// A callable member as an interface declares it. Every part of the signature
/// is kept as the text that was written in the declaration.
pub struct CallableMember {
    pub name: String,
    /// The generic parameters, one text per parameter; empty when there is no list.
    pub generic_params: Vec<String>,
    /// The instance receiver, if the member takes one.
    pub self_param: Option<String>,
    /// The parameters after the receiver.
    pub params: Vec<String>,
    pub ret_type: Option<String>,
    /// The predicates of the constraint clause; empty when there is no clause.
    pub where_predicates: Vec<String>,
    pub docs: Option<String>,
}

pub ghost struct CallableMemberView {
    pub name: Seq<char>,
    pub generic_params: Seq<Seq<char>>,
    pub self_param: Option<Seq<char>>,
    pub params: Seq<Seq<char>>,
    pub ret_type: Option<Seq<char>>,
    pub where_predicates: Seq<Seq<char>>,
    pub docs: Option<Seq<char>>,
}

impl View for CallableMember {
    type V = CallableMemberView;

    open spec fn view(&self) -> CallableMemberView {
        CallableMemberView {
            name: self.name@,
            generic_params: texts_of(self.generic_params@),
            self_param: opt_text(self.self_param),
            params: texts_of(self.params@),
            ret_type: opt_text(self.ret_type),
            where_predicates: texts_of(self.where_predicates@),
            docs: opt_text(self.docs),
        }
    }
}

impl CallableMemberView {
    /// The number of parameters, the receiver counted.
    pub open spec fn param_count(self) -> nat {
        if self.self_param is Some {
            self.params.len() + 1
        } else {
            self.params.len()
        }
    }
}

/// A constant member of an interface. Its name may be absent.
pub struct ConstantMember {
    pub name: Option<String>,
    pub docs: Option<String>,
}

pub ghost struct ConstantMemberView {
    pub name: Option<Seq<char>>,
    pub docs: Option<Seq<char>>,
}

impl View for ConstantMember {
    type V = ConstantMemberView;

    open spec fn view(&self) -> ConstantMemberView {
        ConstantMemberView { name: opt_text(self.name), docs: opt_text(self.docs) }
    }
}

/// An associated type of an interface.
pub struct AssociatedTypeMember {
    pub name: String,
    pub docs: Option<String>,
}

pub ghost struct AssociatedTypeMemberView {
    pub name: Seq<char>,
    pub docs: Option<Seq<char>>,
}

impl View for AssociatedTypeMember {
    type V = AssociatedTypeMemberView;

    open spec fn view(&self) -> AssociatedTypeMemberView {
        AssociatedTypeMemberView { name: self.name@, docs: opt_text(self.docs) }
    }
}

/// One member that an interface declares.
pub enum InterfaceMember {
    Callable(CallableMember),
    Constant(ConstantMember),
    AssociatedType(AssociatedTypeMember),
}

pub ghost enum InterfaceMemberView {
    Callable(CallableMemberView),
    Constant(ConstantMemberView),
    AssociatedType(AssociatedTypeMemberView),
}

impl View for InterfaceMember {
    type V = InterfaceMemberView;

    open spec fn view(&self) -> InterfaceMemberView {
        match self {
            InterfaceMember::Callable(f) => InterfaceMemberView::Callable(f@),
            InterfaceMember::Constant(c) => InterfaceMemberView::Constant(c@),
            InterfaceMember::AssociatedType(t) => InterfaceMemberView::AssociatedType(t@),
        }
    }
}

/// A resolved interface: its members in the order of their declaration.
pub struct InterfaceDefinition {
    pub members: Vec<InterfaceMember>,
}

impl View for InterfaceDefinition {
    type V = Seq<InterfaceMemberView>;

    open spec fn view(&self) -> Seq<InterfaceMemberView> {
        self.members@.map_values(|m: InterfaceMember| m@)
    }
}

/// One member that an implementation block already holds. In unfinished source
/// text any of them may lack its name.
pub enum ImplementationMember {
    CallableImpl { name: Option<String> },
    ConstantImpl { name: Option<String> },
    AssociatedTypeImpl { name: Option<String> },
    /// A macro invocation in member position: it provides no member by name.
    MacroCall,
}

pub ghost enum ImplementationMemberView {
    CallableImpl { name: Option<Seq<char>> },
    ConstantImpl { name: Option<Seq<char>> },
    AssociatedTypeImpl { name: Option<Seq<char>> },
    MacroCall,
}

impl View for ImplementationMember {
    type V = ImplementationMemberView;

    open spec fn view(&self) -> ImplementationMemberView {
        match self {
            ImplementationMember::CallableImpl { name } => ImplementationMemberView::CallableImpl {
                name: opt_text(*name),
            },
            ImplementationMember::ConstantImpl { name } => ImplementationMemberView::ConstantImpl {
                name: opt_text(*name),
            },
            ImplementationMember::AssociatedTypeImpl { name } => {
                ImplementationMemberView::AssociatedTypeImpl { name: opt_text(*name) }
            },
            ImplementationMember::MacroCall => ImplementationMemberView::MacroCall,
        }
    }
}

/// The views of a sequence of implementation members, in order.
pub open spec fn member_views(v: Seq<ImplementationMember>) -> Seq<ImplementationMemberView> {
    v.map_values(|m: ImplementationMember| m@)
}

/// The implementation block that is being edited.
pub struct ImplBlock {
    /// Whether the block names the interface it implements by a plain path.
    pub has_target_path: bool,
    /// The members inside the braces; `None` while the block has no braces yet.
    pub item_list: Option<Vec<ImplementationMember>>,
}

pub ghost struct ImplBlockView {
    pub has_target_path: bool,
    pub item_list: Option<Seq<ImplementationMemberView>>,
}

impl View for ImplBlock {
    type V = ImplBlockView;

    open spec fn view(&self) -> ImplBlockView {
        ImplBlockView {
            has_target_path: self.has_target_path,
            item_list: match self.item_list {
                Some(v) => Some(member_views(v@)),
                None => None,
            },
        }
    }
}

/// What the path of the implemented interface resolved to.
pub enum Resolution {
    Interface(InterfaceDefinition),
    ConcreteType,
    Enumeration,
    Other,
}

pub ghost enum ResolutionView {
    Interface(Seq<InterfaceMemberView>),
    ConcreteType,
    Enumeration,
    Other,
}

impl View for Resolution {
    type V = ResolutionView;

    open spec fn view(&self) -> ResolutionView {
        match self {
            Resolution::Interface(def) => ResolutionView::Interface(def@),
            Resolution::ConcreteType => ResolutionView::ConcreteType,
            Resolution::Enumeration => ResolutionView::Enumeration,
            Resolution::Other => ResolutionView::Other,
        }
    }
}

/// The view of a resolution that may have found nothing.
pub open spec fn opt_resolution(r: Option<Resolution>) -> Option<ResolutionView> {
    match r {
        Some(found) => Some(found@),
        None => None,
    }
}

/// Where the completion was asked for.
pub struct CompletionContext {
    /// The implementation block around the cursor, if there is one.
    pub impl_block: Option<ImplBlock>,
    /// Whether the cursor stands inside the body of a callable member.
    pub in_function_body: bool,
    /// The offset of the cursor in the source text.
    pub offset: u32,
}

pub ghost struct CompletionContextView {
    pub impl_block: Option<ImplBlockView>,
    pub in_function_body: bool,
    pub offset: u32,
}

impl View for CompletionContext {
    type V = CompletionContextView;

    open spec fn view(&self) -> CompletionContextView {
        CompletionContextView {
            impl_block: match self.impl_block {
                Some(block) => Some(block@),
                None => None,
            },
            in_function_body: self.in_function_body,
            offset: self.offset,
        }
    }
}

/// The category of a candidate.
#[derive(Clone, Copy, Debug, PartialEq, Eq, Structural)]
pub enum CompletionItemKind {
    Function,
    Method,
    TypeAlias,
}

/// One completion that is offered to the editor.
#[derive(Debug)]
pub struct CompletionItem {
    pub label: String,
    pub insert_text: String,
    pub kind: CompletionItemKind,
    pub documentation: Option<String>,
    /// Start of the text that the insertion replaces.
    pub source_start: u32,
    /// End of the text that the insertion replaces.
    pub source_end: u32,
}

pub ghost struct CompletionItemView {
    pub label: Seq<char>,
    pub insert_text: Seq<char>,
    pub kind: CompletionItemKind,
    pub documentation: Option<Seq<char>>,
    pub source_start: u32,
    pub source_end: u32,
}

impl View for CompletionItem {
    type V = CompletionItemView;

    open spec fn view(&self) -> CompletionItemView {
        CompletionItemView {
            label: self.label@,
            insert_text: self.insert_text@,
            kind: self.kind,
            documentation: opt_text(self.documentation),
            source_start: self.source_start,
            source_end: self.source_end,
        }
    }
}

/// The candidates collected for one request, in the order they were added.
pub struct Completions {
    pub buf: Vec<CompletionItem>,
}

impl View for Completions {
    type V = Seq<CompletionItemView>;

    open spec fn view(&self) -> Seq<CompletionItemView> {
        self.buf@.map_values(|c: CompletionItem| c@)
    }
}

impl Completions {
    /// An empty collection.
    pub fn new() -> (acc: Completions)
        ensures
            acc@ == Seq::<CompletionItemView>::empty(),
    {
        let acc = Completions { buf: Vec::new() };
        assert(acc@ =~= Seq::<CompletionItemView>::empty());
        acc
    }

    /// Adds one candidate behind those that are there.
    pub fn add(&mut self, item: CompletionItem)
        ensures
            final(self)@ == old(self)@.push(item@),
    {
        self.buf.push(item);
        assert(self@ =~= old(self)@.push(item@));
    }
}

} // verus!

//! Data model of the transformation: the user's interface declaration, the
//! two synthetic declarations, and the two terminal outcomes of an expansion.
//!
//! An interface declaration holds only what the transformation reads: its
//! visibility, its name, its ordered interface-extension requirements, and an
//! opaque body of method signatures that is never inspected or rewritten.

use vstd::prelude::*;
use crate::names::{hidden_interface_name_spec, hidden_method_name_spec};

verus! {

/// Mathematical model of an interface declaration.
#[verifier::ext_equal]
pub ghost struct InterfaceView {
    pub vis: Seq<char>,
    pub name: Seq<char>,
    pub requirements: Seq<Seq<char>>,
    pub body: Seq<Seq<char>>,
}

/// The user's interface declaration: visibility text, name, ordered
/// interface-extension requirements, and the opaque body items.
pub struct InterfaceDecl {
    pub vis: String,
    pub name: String,
    pub requirements: Vec<String>,
    pub body: Vec<String>,
}

impl View for InterfaceDecl {
    type V = InterfaceView;

    open spec fn view(&self) -> InterfaceView {
        InterfaceView {
            vis: self.vis@,
            name: self.name@,
            requirements: self.requirements@.map_values(|s: String| s@),
            body: self.body@.map_values(|s: String| s@),
        }
    }
}

/// The declaration after the one mutation the pipeline performs: the hidden
/// interface name is appended after all pre-existing requirements, and
/// everything else is untouched.
pub open spec fn augmented_spec(v: InterfaceView) -> InterfaceView {
    InterfaceView { requirements: v.requirements.push(hidden_interface_name_spec(v.name)), ..v }
}

impl InterfaceDecl {
    /// Appends the hidden interface name derived from this declaration's own
    /// name to the requirements list, preserving all pre-existing entries and
    /// their order.
    pub fn add_supertrait(&mut self)
        ensures
            final(self)@ == augmented_spec(old(self)@),
    {
        let hidden = crate::names::derive_hidden_interface_name(self.name.as_str());
        self.requirements.push(hidden);
        proof {
            assert(final(self)@.requirements =~= augmented_spec(old(self)@).requirements);
        }
    }
}

/// Law: augmentation is an order-preserving append — the augmented
/// requirements are exactly the original ones, in their order, followed by
/// the hidden interface name derived from the declaration's own name, and
/// nothing else of the declaration changes.
pub proof fn lemma_augmentation_appends(v: InterfaceView)
    ensures
        augmented_spec(v).requirements =~= v.requirements + seq![
            hidden_interface_name_spec(v.name),
        ],
        augmented_spec(v).requirements.len() == v.requirements.len() + 1,
        forall|i: int|
            0 <= i < v.requirements.len() ==> augmented_spec(v).requirements[i]
                == v.requirements[i],
        augmented_spec(v).requirements.last() == hidden_interface_name_spec(v.name),
        augmented_spec(v).vis == v.vis,
        augmented_spec(v).name == v.name,
        augmented_spec(v).body == v.body,
{
}

/// Mathematical model of the hidden interface.
#[verifier::ext_equal]
pub ghost struct HiddenInterfaceView {
    pub vis: Seq<char>,
    pub name: Seq<char>,
    pub methods: Seq<Seq<char>>,
}

/// The synthetic hidden interface: it carries the visibility of the user's
/// declaration and exactly one method, named after the user's name.
pub struct HiddenInterface {
    pub vis: String,
    pub name: String,
    pub methods: Vec<String>,
}

impl View for HiddenInterface {
    type V = HiddenInterfaceView;

    open spec fn view(&self) -> HiddenInterfaceView {
        HiddenInterfaceView {
            vis: self.vis@,
            name: self.name@,
            methods: self.methods@.map_values(|s: String| s@),
        }
    }
}

/// The hidden interface that belongs to an interface declaration: the same
/// visibility, the derived hidden interface name, and exactly one method,
/// named with the derived hidden method name.
pub open spec fn hidden_interface_spec(v: InterfaceView) -> HiddenInterfaceView {
    HiddenInterfaceView {
        vis: v.vis,
        name: hidden_interface_name_spec(v.name),
        methods: seq![hidden_method_name_spec(v.name)],
    }
}

/// Law: the hidden interface has exactly one method, named with the hidden
/// method name derived from the declaration's name; its visibility equals the
/// declaration's visibility, and its own name is the derived hidden interface
/// name.
pub proof fn lemma_hidden_interface_shape(v: InterfaceView)
    ensures
        hidden_interface_spec(v).methods.len() == 1,
        hidden_interface_spec(v).methods[0] == hidden_method_name_spec(v.name),
        hidden_interface_spec(v).vis == v.vis,
        hidden_interface_spec(v).name == hidden_interface_name_spec(v.name),
{
}

/// Mathematical model of the blanket implementation.
#[verifier::ext_equal]
pub ghost struct BlanketImplView {
    pub hidden_interface: Seq<char>,
    pub method: Seq<char>,
    pub user_interface: Seq<char>,
    pub type_param: Seq<char>,
    pub capability_alias: Seq<char>,
    pub registry_var: Seq<char>,
}

/// The synthetic blanket implementation: it implements the hidden interface
/// for every type with the Database capability, and its one method registers
/// a dynamic view of the user's interface in the per-instance views registry.
/// The generic type parameter, the local alias for the capability bound, and
/// the local registry variable carry hygiene-fresh names.
pub struct BlanketImpl {
    pub hidden_interface: String,
    pub method: String,
    pub user_interface: String,
    pub type_param: String,
    pub capability_alias: String,
    pub registry_var: String,
}

impl View for BlanketImpl {
    type V = BlanketImplView;

    open spec fn view(&self) -> BlanketImplView {
        BlanketImplView {
            hidden_interface: self.hidden_interface@,
            method: self.method@,
            user_interface: self.user_interface@,
            type_param: self.type_param@,
            capability_alias: self.capability_alias@,
            registry_var: self.registry_var@,
        }
    }
}

/// The kind of failure an expansion can end in.
pub enum DiagnosticKind {
    /// Non-empty configuration text was supplied to the directive.
    ArgumentError,
    /// The input is not a syntactically valid interface declaration.
    SyntaxError,
}

/// A single diagnostic, the only output of a failed expansion.
pub struct Diagnostic {
    pub kind: DiagnosticKind,
    pub message: String,
}

/// The three declarations of a successful expansion, in emission order.
pub struct Artifacts {
    pub interface: InterfaceDecl,
    pub hidden: HiddenInterface,
    pub blanket: BlanketImpl,
}

/// The outcome of one expansion: either exactly three declarations or
/// exactly one diagnostic, never a mixture.
pub enum Expansion {
    Success(Artifacts),
    Failure(Diagnostic),
}

} // verus!

//! Transformation pipeline: validation, name derivation, the one mutation of
//! the input declaration, and construction of the two synthetic declarations.
//!
//! The flow is strictly linear: validate the directive's arguments, parse the
//! input, derive the hidden names, append the hidden requirement, build the
//! hidden interface and the blanket implementation. Any failure at validation
//! or parse short-circuits into a single diagnostic.

use vstd::prelude::*;
use crate::decl::{
    augmented_spec, hidden_interface_spec, Artifacts, BlanketImpl, Diagnostic, DiagnosticKind,
    Expansion, HiddenInterface, InterfaceDecl,
};
use crate::hygiene::{collect_identifiers, contains_chars, ident_runs, HygieneContext};
use crate::names::{
    derive_hidden_interface_name, derive_hidden_method_name, hidden_interface_name_spec,
    hidden_method_name_spec,
};
use crate::parse::{parse_interface, parse_of};

verus! {

/// Pipeline state for one expansion: the declaration being rewritten, the
/// hygiene context of the invocation, and the two derived names.
pub struct Pipeline {
    pub hygiene: HygieneContext,
    pub input: InterfaceDecl,
    pub hidden_interface_name: String,
    pub hidden_method_name: String,
}

impl Pipeline {
    /// The derived names belong to the input's name and the hygiene context
    /// is usable.
    pub open spec fn wf(self) -> bool {
        &&& self.hygiene.wf()
        &&& self.hidden_interface_name@ == hidden_interface_name_spec(self.input@.name)
        &&& self.hidden_method_name@ == hidden_method_name_spec(self.input@.name)
    }

    /// Derive-names stage: records the declaration and the hygiene context
    /// and derives both hidden names from the declaration's name.
    pub fn new(hygiene: HygieneContext, input: InterfaceDecl) -> (r: Pipeline)
        requires
            hygiene.wf(),
        ensures
            r.wf(),
            r.input == input,
            r.hygiene == hygiene,
    {
        let hidden_interface_name = derive_hidden_interface_name(input.name.as_str());
        let hidden_method_name = derive_hidden_method_name(input.name.as_str());
        Pipeline { hygiene, input, hidden_interface_name, hidden_method_name }
    }

    /// Mutate stage: appends the hidden interface name after all pre-existing
    /// requirements, keeping their order; nothing else changes.
    fn add_supertrait(&mut self)
        requires
            old(self).wf(),
        ensures
            final(self).wf(),
            final(self).input@ == augmented_spec(old(self).input@),
            final(self).hygiene == old(self).hygiene,
    {
        self.input.add_supertrait();
    }

    /// Builds the hidden interface: the input's visibility, the derived
    /// hidden interface name, and exactly one method carrying the derived
    /// hidden method name.
    fn build_hidden_interface(&self) -> (r: HiddenInterface)
        requires
            self.wf(),
        ensures
            r@ == hidden_interface_spec(self.input@),
    {
        let mut methods: Vec<String> = Vec::new();
        methods.push(self.hidden_method_name.clone());
        let r = HiddenInterface {
            vis: self.input.vis.clone(),
            name: self.hidden_interface_name.clone(),
            methods,
        };
        proof {
            assert(r@ =~= hidden_interface_spec(self.input@));
        }
        r
    }

    /// Builds the blanket implementation: it implements the hidden interface
    /// for every type with the Database capability, names its one method with
    /// the derived hidden method name, and registers the user's interface in
    /// the per-instance views registry. Its three local names are
    /// hygiene-fresh and pairwise distinct.
    fn build_blanket_implementation(&mut self) -> (r: BlanketImpl)
        requires
            old(self).wf(),
        ensures
            final(self).wf(),
            final(self).input == old(self).input,
            final(self).hygiene.taken == old(self).hygiene.taken,
            r@.hidden_interface == hidden_interface_name_spec(old(self).input@.name),
            r@.method == hidden_method_name_spec(old(self).input@.name),
            r@.user_interface == old(self).input@.name,
            !contains_chars(old(self).hygiene.taken_views(), r@.type_param),
            !contains_chars(old(self).hygiene.taken_views(), r@.capability_alias),
            !contains_chars(old(self).hygiene.taken_views(), r@.registry_var),
            r@.type_param != r@.capability_alias,
            r@.type_param != r@.registry_var,
            r@.capability_alias != r@.registry_var,
    {
        let type_param = self.hygiene.fresh("DB");
        let ghost s1 = self.hygiene;
        let capability_alias = self.hygiene.fresh("Database");
        let ghost s2 = self.hygiene;
        let registry_var = self.hygiene.fresh("views");
        let ghost s3 = self.hygiene;
        proof {
            reveal_strlit("DB");
            reveal_strlit("Database");
            reveal_strlit("views");
            let i1 = choose|i: int|
                0 <= i < s1.key_views().len() && s1.key_views()[i] == "DB"@ && s1.val_views()[i]
                    == type_param@;
            let i2 = choose|i: int|
                0 <= i < s2.key_views().len() && s2.key_views()[i] == "Database"@
                    && s2.val_views()[i] == capability_alias@;
            let i3 = choose|i: int|
                0 <= i < s3.key_views().len() && s3.key_views()[i] == "views"@ && s3.val_views()[i]
                    == registry_var@;
            assert(s3.key_views()[i1] == "DB"@ && s3.val_views()[i1] == type_param@);
            assert(s3.key_views()[i2] == "Database"@ && s3.val_views()[i2] == capability_alias@);
            assert("DB"@.len() == 2 && "Database"@.len() == 8 && "views"@.len() == 5);
        }
        BlanketImpl {
            hidden_interface: self.hidden_interface_name.clone(),
            method: self.hidden_method_name.clone(),
            user_interface: self.input.name.clone(),
            type_param,
            capability_alias,
            registry_var,
        }
    }

    /// Runs the mutate and build stages and concatenates the three artifacts
    /// in emission order: the augmented declaration, the hidden interface,
    /// the blanket implementation.
    pub fn expand(self) -> (r: Artifacts)
        requires
            self.wf(),
        ensures
            r.interface@ == augmented_spec(self.input@),
            r.hidden@ == hidden_interface_spec(self.input@),
            r.blanket@.hidden_interface == hidden_interface_name_spec(self.input@.name),
            r.blanket@.method == hidden_method_name_spec(self.input@.name),
            r.blanket@.user_interface == self.input@.name,
            !contains_chars(self.hygiene.taken_views(), r.blanket@.type_param),
            !contains_chars(self.hygiene.taken_views(), r.blanket@.capability_alias),
            !contains_chars(self.hygiene.taken_views(), r.blanket@.registry_var),
            r.blanket@.type_param != r.blanket@.capability_alias,
            r.blanket@.type_param != r.blanket@.registry_var,
            r.blanket@.capability_alias != r.blanket@.registry_var,
    {
        let mut this = self;
        this.add_supertrait();
        let blanket = this.build_blanket_implementation();
        let hidden = this.build_hidden_interface();
        proof {
            assert(hidden_interface_spec(augmented_spec(self.input@)) =~= hidden_interface_spec(
                self.input@,
            ));
        }
        Artifacts { interface: this.input, hidden, blanket }
    }
}

/// The message of the diagnostic for configuration text supplied to the
/// directive, which accepts none.
pub open spec fn argument_error_message_spec() -> Seq<char> {
    "the attribute accepts no arguments"@
}

/// The message of the diagnostic for input that does not parse as an
/// interface declaration.
pub open spec fn syntax_error_message_spec() -> Seq<char> {
    "expected a trait declaration"@
}

/// One whole expansion, from raw argument and input text to the terminal
/// outcome: exactly three declarations on success, exactly one diagnostic on
/// failure. Any argument text is an argument error; input that does not parse
/// as an interface declaration is a syntax error; otherwise the augmented
/// declaration, the hidden interface and the blanket implementation are
/// produced, with blanket locals fresh with respect to every identifier run
/// in the input text.
pub fn db_view(args: &str, input: &str) -> (r: Expansion)
    ensures
        args@.len() != 0 ==> (r matches Expansion::Failure(d) && d.kind is ArgumentError
            && d.message@ == argument_error_message_spec()),
        (args@.len() == 0 && parse_of(input@) is None) ==> (r matches Expansion::Failure(d)
            && d.kind is SyntaxError && d.message@ == syntax_error_message_spec()),
        args@.len() == 0 ==> (parse_of(input@) matches Some(v) ==> r matches Expansion::Success(a)
            && {
            &&& a.interface@ == augmented_spec(v)
            &&& a.hidden@ == hidden_interface_spec(v)
            &&& a.blanket@.hidden_interface == hidden_interface_name_spec(v.name)
            &&& a.blanket@.method == hidden_method_name_spec(v.name)
            &&& a.blanket@.user_interface == v.name
            &&& !contains_chars(ident_runs(input@), a.blanket@.type_param)
            &&& !contains_chars(ident_runs(input@), a.blanket@.capability_alias)
            &&& !contains_chars(ident_runs(input@), a.blanket@.registry_var)
            &&& a.blanket@.type_param != a.blanket@.capability_alias
            &&& a.blanket@.type_param != a.blanket@.registry_var
            &&& a.blanket@.capability_alias != a.blanket@.registry_var
        }),
{
    if !args.is_empty() {
        let message = "the attribute accepts no arguments".to_owned();
        return Expansion::Failure(Diagnostic { kind: DiagnosticKind::ArgumentError, message });
    }
    match parse_interface(input) {
        None => {
            let message = "expected a trait declaration".to_owned();
            Expansion::Failure(Diagnostic { kind: DiagnosticKind::SyntaxError, message })
        },
        Some(decl) => {
            let taken = collect_identifiers(input);
            let hygiene = HygieneContext::new(taken);
            let pipeline = Pipeline::new(hygiene, decl);
            let artifacts = pipeline.expand();
            Expansion::Success(artifacts)
        },
    }
}

} // verus!

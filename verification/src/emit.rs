//! Emitter: concatenates the three declarations of a successful expansion
//! into one output fragment of source text, or converts a failure into a
//! single compiler-diagnostic fragment.

use vstd::prelude::*;
use vstd::string::StringExecFns;
use crate::decl::{
    Artifacts, BlanketImpl, BlanketImplView, Diagnostic, Expansion, HiddenInterface,
    HiddenInterfaceView, InterfaceDecl, InterfaceView,
};

verus! {

/// Each item of `items` rendered as `pre + item + suf`, concatenated in order.
pub open spec fn render_each(items: Seq<Seq<char>>, pre: Seq<char>, suf: Seq<char>) -> Seq<char>
    decreases items.len(),
{
    if items.len() == 0 {
        Seq::empty()
    } else {
        pre + items[0] + suf + render_each(items.drop_first(), pre, suf)
    }
}

/// The visibility followed by one space, or nothing for inherited visibility.
pub open spec fn vis_prefix(vis: Seq<char>) -> Seq<char> {
    if vis.len() == 0 {
        vis
    } else {
        vis + " "@
    }
}

/// The requirements list as written after the interface name: nothing when it
/// is empty, else a colon and the entries joined by plus signs, in order.
pub open spec fn render_requirements(rs: Seq<Seq<char>>) -> Seq<char> {
    if rs.len() == 0 {
        Seq::empty()
    } else {
        ": "@ + rs[0] + render_each(rs.skip(1), " + "@, ""@)
    }
}

/// The text of an interface declaration.
pub open spec fn render_interface_spec(v: InterfaceView) -> Seq<char> {
    vis_prefix(v.vis) + "trait "@ + v.name + render_requirements(v.requirements) + " { "@
        + render_each(v.body, ""@, " "@) + "}"@
}

/// The text of the hidden interface: marked as an implementation detail, with
/// each method rendered as a signature taking only the receiver.
pub open spec fn render_hidden_spec(h: HiddenInterfaceView) -> Seq<char> {
    "#[doc(hidden)] "@ + vis_prefix(h.vis) + "trait "@ + h.name + " { "@ + render_each(
        h.methods,
        "fn "@,
        "(&self); "@,
    ) + "}"@
}

/// The text of the blanket implementation: inside an anonymous scope, the
/// Database capability is aliased to a hygiene-fresh name, the hidden
/// interface is implemented for every type with that capability, and the one
/// method registers the user's interface in the per-instance views registry
/// with identity upcast and downcast functions.
pub open spec fn render_blanket_spec(b: BlanketImplView) -> Seq<char> {
    "const _: () = { use salsa::Database as "@ + b.capability_alias + "; #[doc(hidden)] impl<"@
        + b.type_param + ": "@ + b.capability_alias + "> "@ + b.hidden_interface + " for "@
        + b.type_param + " { fn "@ + b.method + "(&self) { let "@ + b.registry_var
        + " = self.views_of_self(); "@ + b.registry_var + ".add::<dyn "@ + b.user_interface
        + ">(|t| t, |t| t); } } };"@
}

/// The whole successful fragment: the three declarations in emission order.
pub open spec fn render_fragment_spec(
    i: InterfaceView,
    h: HiddenInterfaceView,
    b: BlanketImplView,
) -> Seq<char> {
    render_interface_spec(i) + " "@ + render_hidden_spec(h) + " "@ + render_blanket_spec(b)
}

/// The diagnostic fragment for a failed expansion.
pub open spec fn render_diagnostic_spec(message: Seq<char>) -> Seq<char> {
    "::core::compile_error! { \""@ + message + "\" }"@
}

/// Appends `pre + item + suf` for each item from position `from` on.
#[verifier::loop_isolation(false)]
fn append_each(out: &mut String, items: &Vec<String>, from: usize, pre: &str, suf: &str)
    requires
        from <= items@.len(),
    ensures
        final(out)@ == old(out)@ + render_each(
            items@.map_values(|t: String| t@).skip(from as int),
            pre@,
            suf@,
        ),
{
    let ghost s = items@.map_values(|t: String| t@);
    let n = items.len();
    let mut i = from;
    while i < n
        invariant
            from <= i <= n,
            out@ + render_each(s.skip(i as int), pre@, suf@) == old(out)@ + render_each(
                s.skip(from as int),
                pre@,
                suf@,
            ),
        decreases n - i,
    {
        proof {
            assert(s.skip(i as int)[0] == s[i as int]);
            assert(s.skip(i as int).drop_first() =~= s.skip(i + 1));
        }
        let ghost before = out@;
        out.append(pre);
        out.append(items[i].as_str());
        out.append(suf);
        proof {
            assert(out@ + render_each(s.skip(i + 1), pre@, suf@) =~= before + render_each(
                s.skip(i as int),
                pre@,
                suf@,
            ));
        }
        i = i + 1;
    }
    proof {
        assert(s.skip(n as int) =~= Seq::<Seq<char>>::empty());
        assert(out@ + render_each(s.skip(n as int), pre@, suf@) =~= out@);
    }
}

/// Prints an interface declaration back to text.
pub fn render_interface(d: &InterfaceDecl) -> (r: String)
    ensures
        r@ == render_interface_spec(d@),
{
    let mut r = String::new();
    if !d.vis.as_str().is_empty() {
        r.append(d.vis.as_str());
        r.append(" ");
    }
    r.append("trait ");
    r.append(d.name.as_str());
    if d.requirements.len() > 0 {
        r.append(": ");
        r.append(d.requirements[0].as_str());
        append_each(&mut r, &d.requirements, 1, " + ", "");
    }
    r.append(" { ");
    append_each(&mut r, &d.body, 0, "", " ");
    r.append("}");
    proof {
        assert(d.body@.map_values(|t: String| t@).skip(0) =~= d@.body);
        assert(r@ =~= render_interface_spec(d@));
    }
    r
}

/// Prints the hidden interface to text.
pub fn render_hidden(h: &HiddenInterface) -> (r: String)
    ensures
        r@ == render_hidden_spec(h@),
{
    let mut r = String::new();
    r.append("#[doc(hidden)] ");
    if !h.vis.as_str().is_empty() {
        r.append(h.vis.as_str());
        r.append(" ");
    }
    r.append("trait ");
    r.append(h.name.as_str());
    r.append(" { ");
    append_each(&mut r, &h.methods, 0, "fn ", "(&self); ");
    r.append("}");
    proof {
        assert(h.methods@.map_values(|t: String| t@).skip(0) =~= h@.methods);
        assert(r@ =~= render_hidden_spec(h@));
    }
    r
}

/// Prints the blanket implementation to text.
pub fn render_blanket(b: &BlanketImpl) -> (r: String)
    ensures
        r@ == render_blanket_spec(b@),
{
    let mut r = String::new();
    r.append("const _: () = { use salsa::Database as ");
    r.append(b.capability_alias.as_str());
    r.append("; #[doc(hidden)] impl<");
    r.append(b.type_param.as_str());
    r.append(": ");
    r.append(b.capability_alias.as_str());
    r.append("> ");
    r.append(b.hidden_interface.as_str());
    r.append(" for ");
    r.append(b.type_param.as_str());
    r.append(" { fn ");
    r.append(b.method.as_str());
    r.append("(&self) { let ");
    r.append(b.registry_var.as_str());
    r.append(" = self.views_of_self(); ");
    r.append(b.registry_var.as_str());
    r.append(".add::<dyn ");
    r.append(b.user_interface.as_str());
    r.append(">(|t| t, |t| t); } } };");
    proof {
        assert(r@ =~= render_blanket_spec(b@));
    }
    r
}

/// Prints a failure as a single compiler-diagnostic fragment.
pub fn render_diagnostic(d: &Diagnostic) -> (r: String)
    ensures
        r@ == render_diagnostic_spec(d.message@),
{
    let mut r = String::new();
    r.append("::core::compile_error! { \"");
    r.append(d.message.as_str());
    r.append("\" }");
    proof {
        assert(r@ =~= render_diagnostic_spec(d.message@));
    }
    r
}

/// Emit: one output fragment. On success the three declarations are
/// concatenated in order — the augmented declaration, the hidden interface,
/// the blanket implementation; on failure the fragment is exactly one
/// diagnostic.
pub fn emit(e: &Expansion) -> (r: String)
    ensures
        e matches Expansion::Success(a) ==> r@ == render_fragment_spec(
            a.interface@,
            a.hidden@,
            a.blanket@,
        ),
        e matches Expansion::Failure(d) ==> r@ == render_diagnostic_spec(d.message@),
{
    match e {
        Expansion::Success(a) => {
            let mut r = render_interface(&a.interface);
            r.append(" ");
            let h = render_hidden(&a.hidden);
            r.append(h.as_str());
            r.append(" ");
            let b = render_blanket(&a.blanket);
            r.append(b.as_str());
            proof {
                assert(r@ =~= render_fragment_spec(a.interface@, a.hidden@, a.blanket@));
            }
            r
        },
        Expansion::Failure(d) => render_diagnostic(d),
    }
}

} // verus!

//! Name synthesizer: derives the hidden interface name and the hidden method
//! name from the user-chosen interface name.
//!
//! Both derived names are built from fixed marker affixes around the user's
//! name, so they are deterministic and never collide with the user's name or
//! with each other.

use vstd::prelude::*;
use vstd::string::StringExecFns;
use vstd::utf8::is_ascii_chars;

verus! {

/// What `heck`'s snake-case conversion returns for a given character sequence.
pub uninterp spec fn snake_of(s: Seq<char>) -> Seq<char>;

/// An ASCII letter or digit.
pub open spec fn is_ascii_alnum(c: char) -> bool {
    ('a' <= c && c <= 'z') || ('A' <= c && c <= 'Z') || ('0' <= c && c <= '9')
}

/// How many ASCII letters and digits a character sequence holds.
pub open spec fn ascii_alnum_count(s: Seq<char>) -> nat
    decreases s.len(),
{
    if s.len() == 0 {
        0
    } else {
        (if is_ascii_alnum(s[0]) {
            1nat
        } else {
            0nat
        }) + ascii_alnum_count(s.drop_first())
    }
}

/// Relies on `heck::ToSnakeCase::to_snake_case` for `str`: the result is a
/// function of the input characters alone (words are lower-cased and joined by
/// underscores). For ASCII input every letter and digit is kept, lower-cased,
/// in order, while the word separators dropped from the input and the
/// underscores inserted between words are not letters or digits, so the count
/// of ASCII letters and digits is unchanged.
#[verifier::external_body]
fn to_snake_case(s: &str) -> (r: String)
    ensures
        r@ == snake_of(s@),
        is_ascii_chars(s@) ==> ascii_alnum_count(r@) == ascii_alnum_count(s@),
{
    heck::ToSnakeCase::to_snake_case(s)
}

/// The hidden interface name: the user name between fixed marker affixes.
pub open spec fn hidden_interface_name_spec(name: Seq<char>) -> Seq<char> {
    "__SalsaAddView"@ + name + "__"@
}

/// The hidden method name: the snake-cased user name between fixed marker
/// affixes.
pub open spec fn hidden_method_name_spec(name: Seq<char>) -> Seq<char> {
    "__salsa_add_view_"@ + snake_of(name) + "__"@
}

/// Derives the hidden interface name from the user-chosen interface name.
/// The result is a pure function of the input and never equals the input.
pub fn derive_hidden_interface_name(name: &str) -> (r: String)
    ensures
        r@ == hidden_interface_name_spec(name@),
        r@ != name@,
{
    proof {
        lemma_derived_names_distinct(name@);
    }
    let mut r = String::new();
    r.append("__SalsaAddView");
    r.append(name);
    r.append("__");
    proof {
        assert(r@ =~= hidden_interface_name_spec(name@));
    }
    r
}

/// Derives the hidden method name from the user-chosen interface name. The
/// result is a pure function of the input, never equals the hidden interface
/// name, and (for ASCII names) never equals the input.
pub fn derive_hidden_method_name(name: &str) -> (r: String)
    ensures
        r@ == hidden_method_name_spec(name@),
        r@ != hidden_interface_name_spec(name@),
        is_ascii_chars(name@) ==> r@ != name@,
{
    let snake = to_snake_case(name);
    let mut r = String::new();
    r.append("__salsa_add_view_");
    r.append(snake.as_str());
    r.append("__");
    proof {
        assert(r@ =~= hidden_method_name_spec(name@));
        lemma_derived_names_distinct(name@);
        if is_ascii_chars(name@) && r@ == name@ {
            reveal_strlit("__salsa_add_view_");
            reveal_strlit("__");
            lemma_alnum_count_concat("__salsa_add_view_"@ + snake_of(name@), "__"@);
            lemma_alnum_count_concat("__salsa_add_view_"@, snake_of(name@));
            assert(is_ascii_alnum("__salsa_add_view_"@[2]));
            lemma_alnum_count_positive("__salsa_add_view_"@, 2);
            assert(ascii_alnum_count(name@) >= 1 + ascii_alnum_count(snake_of(name@)));
            assert(false);
        }
    }
    r
}

/// Law: the derived names never collide. The hidden interface name differs
/// from the user name (the marker affixes make it strictly longer), and the
/// two derived names differ from each other (their fixed prefixes differ).
pub proof fn lemma_derived_names_distinct(name: Seq<char>)
    ensures
        hidden_interface_name_spec(name) != name,
        hidden_method_name_spec(name) != hidden_interface_name_spec(name),
{
    reveal_strlit("__SalsaAddView");
    reveal_strlit("__salsa_add_view_");
    reveal_strlit("__");
    assert(hidden_interface_name_spec(name).len() == name.len() + 16);
    assert(hidden_interface_name_spec(name)[2] == 'S');
    assert(hidden_method_name_spec(name)[2] == 's');
}

/// Law: name derivation is deterministic — equal user names always yield
/// equal derived names, in any call and in any run.
pub proof fn lemma_name_derivation_deterministic(n1: Seq<char>, n2: Seq<char>)
    requires
        n1 == n2,
    ensures
        hidden_interface_name_spec(n1) == hidden_interface_name_spec(n2),
        hidden_method_name_spec(n1) == hidden_method_name_spec(n2),
{
}

/// The count of ASCII letters and digits distributes over concatenation.
proof fn lemma_alnum_count_concat(a: Seq<char>, b: Seq<char>)
    ensures
        ascii_alnum_count(a + b) == ascii_alnum_count(a) + ascii_alnum_count(b),
    decreases a.len(),
{
    if a.len() == 0 {
        assert(a + b =~= b);
    } else {
        assert((a + b).drop_first() =~= a.drop_first() + b);
        assert((a + b)[0] == a[0]);
        lemma_alnum_count_concat(a.drop_first(), b);
    }
}

/// A sequence with an ASCII letter or digit at some position has a positive
/// count of them.
proof fn lemma_alnum_count_positive(s: Seq<char>, i: int)
    requires
        0 <= i < s.len(),
        is_ascii_alnum(s[i]),
    ensures
        ascii_alnum_count(s) >= 1,
    decreases i,
{
    if i > 0 {
        lemma_alnum_count_positive(s.drop_first(), i - 1);
    }
}

} // verus!

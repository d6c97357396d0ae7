use vstd::prelude::*;

verus! {

/// The text placed before the name in a greeting.
pub open spec fn greeting_prefix() -> Seq<char> {
    "Hello, "@
}

/// The text placed after the name in a greeting.
pub open spec fn greeting_suffix() -> Seq<char> {
    "! You've been greeted from Rust!"@
}

/// The greeting for `name`: the fixed template with `name` put in its one slot.
pub open spec fn greeting(name: Seq<char>) -> Seq<char> {
    greeting_prefix() + name + greeting_suffix()
}

/// Greets `name`. Never fails; the name is copied as it is.
pub fn greet(name: &str) -> (r: String)
    ensures
        r@ == greeting(name@),
{
    let mut r = String::from_str("Hello, ");
    r.append(name);
    r.append("! You've been greeted from Rust!");
    r
}

/// A greeting is the prefix, then the name exactly as given, then the suffix:
/// the name stands in it once, neither escaped nor cut.
pub proof fn lemma_greeting_layout(name: Seq<char>)
    ensures
        greeting(name).len() == greeting_prefix().len() + name.len() + greeting_suffix().len(),
        greeting(name).subrange(0, greeting_prefix().len() as int) == greeting_prefix(),
        greeting(name).subrange(
            greeting_prefix().len() as int,
            (greeting_prefix().len() + name.len()) as int,
        ) == name,
        greeting(name).subrange(
            (greeting_prefix().len() + name.len()) as int,
            greeting(name).len() as int,
        ) == greeting_suffix(),
{
    let p = greeting_prefix();
    let q = greeting_suffix();
    let g = greeting(name);
    assert(g.subrange(0, p.len() as int) =~= p);
    assert(g.subrange(p.len() as int, (p.len() + name.len()) as int) =~= name);
    assert(g.subrange((p.len() + name.len()) as int, g.len() as int) =~= q);
}

/// Two names greet alike only when they are the same name: nothing of the name
/// is lost in the greeting.
pub proof fn lemma_greeting_injective(a: Seq<char>, b: Seq<char>)
    requires
        greeting(a) == greeting(b),
    ensures
        a == b,
{
    lemma_greeting_layout(a);
    lemma_greeting_layout(b);
}

/// The empty name gives the template with nothing in its slot.
pub proof fn lemma_greeting_empty()
    ensures
        greeting(Seq::empty()) == "Hello, ! You've been greeted from Rust!"@,
{
    reveal_strlit("Hello, ");
    reveal_strlit("! You've been greeted from Rust!");
    reveal_strlit("Hello, ! You've been greeted from Rust!");
    assert(greeting(Seq::empty()) =~= "Hello, ! You've been greeted from Rust!"@);
}

} // verus!

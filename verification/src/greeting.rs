//! The greeting command.

use vstd::prelude::*;

verus! {

/// The characters every greeting starts with: `Hello, `.
pub open spec fn greeting_prefix() -> Seq<char> {
    seq!['H', 'e', 'l', 'l', 'o', ',', ' ']
}

/// The characters every greeting ends with: `!`.
pub open spec fn greeting_suffix() -> Seq<char> {
    seq!['!']
}

/// The greeting for `name`: the prefix, the name as given, the suffix.
pub open spec fn greeting_text(name: Seq<char>) -> Seq<char> {
    greeting_prefix() + name + greeting_suffix()
}

/// Returns the greeting for `name`. Any text is accepted, the empty one too.
///
/// The result depends on `name` alone: the function keeps no state, so calls
/// from several callers do not affect one another.
pub fn greet(name: &str) -> (greeting: String)
    ensures
        greeting@ == greeting_text(name@),
{
    let mut greeting = String::from_str("Hello, ");
    greeting.append(name);
    greeting.append("!");
    proof {
        reveal_strlit("Hello, ");
        reveal_strlit("!");
        assert("Hello, "@ =~= greeting_prefix());
        assert("!"@ =~= greeting_suffix());
    }
    greeting
}

/// A greeting is the prefix, then the name unchanged, then the suffix, and so
/// is eight characters longer than the name.
pub proof fn lemma_greeting_holds_name(name: Seq<char>)
    ensures
        greeting_text(name).len() == name.len() + 8,
        greeting_prefix().is_prefix_of(greeting_text(name)),
        greeting_suffix().is_suffix_of(greeting_text(name)),
        greeting_text(name).subrange(7, greeting_text(name).len() - 1) == name,
{
    let text = greeting_text(name);
    assert(text.subrange(0, 7) =~= greeting_prefix());
    assert(text.subrange(text.len() - 1, text.len() as int) =~= greeting_suffix());
    assert(text.subrange(7, text.len() - 1) =~= name);
}

/// Greetings tell names apart: two names have the same greeting exactly when
/// they are the same name.
pub proof fn lemma_greeting_tells_names_apart(first: Seq<char>, second: Seq<char>)
    ensures
        greeting_text(first) == greeting_text(second) <==> first == second,
{
    if greeting_text(first) == greeting_text(second) {
        lemma_greeting_holds_name(first);
        lemma_greeting_holds_name(second);
    }
}

} // verus!

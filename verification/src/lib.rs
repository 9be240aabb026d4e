use vstd::prelude::*;

verus! {

/// The fixed text that every greeting entry point emits.
pub open spec fn greeting_text() -> Seq<char> {
    "Hello World"@
}

/// The greeting as a complete output line: the fixed text followed by a
/// single newline.
pub open spec fn greeting_line_text() -> Seq<char> {
    greeting_text().push('\n')
}

/// True when `s` holds no line break, so writing `s` and then one newline
/// produces exactly one line of output.
pub open spec fn is_single_line(s: Seq<char>) -> bool {
    forall|i: int| 0 <= i < s.len() ==> s[i] != '\n'
}

/// Returns the greeting text itself, exactly `"Hello World"`.
pub fn greeting() -> (r: String)
    ensures
        r@ == greeting_text(),
{
    String::from_str("Hello World")
}

/// Returns the greeting as a full line, exactly `"Hello World"` followed by
/// a newline. A caller that writes the result to a stream emits the whole
/// observable output of one greeting invocation.
pub fn greeting_line() -> (r: String)
    ensures
        r@ == greeting_line_text(),
{
    let mut s = greeting();
    s.append("\n");
    proof {
        reveal_strlit("\n");
        assert(s@ =~= greeting_line_text());
    }
    s
}

/// A greeting invocation produces exactly one line: the text holds no line
/// break, and the full line ends in its only newline.
pub proof fn lemma_greeting_single_line()
    ensures
        is_single_line(greeting_text()),
        greeting_line_text().len() > 0,
        greeting_line_text().last() == '\n',
        is_single_line(greeting_line_text().drop_last()),
{
    reveal_strlit("Hello World");
    assert(greeting_text() =~= seq![
        'H', 'e', 'l', 'l', 'o', ' ', 'W', 'o', 'r', 'l', 'd',
    ]);
    assert(greeting_line_text().drop_last() =~= greeting_text());
}

/// Greeting is stateless and idempotent: any two results that meet the
/// contract of `greeting` are the same text, so repeated invocations
/// produce identical output with no accumulated state.
pub proof fn lemma_greeting_deterministic(r1: Seq<char>, r2: Seq<char>)
    requires
        r1 == greeting_text(),
        r2 == greeting_text(),
    ensures
        r1 == r2,
{
}

} // verus!

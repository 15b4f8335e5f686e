//! Rendering of error chains for the log.

use vstd::prelude::*;
use vstd::string::*;

verus! {

/// An error of the `anyhow` crate: an error with the chain of its causes.
#[verifier::external_type_specification]
#[verifier::external_body]
pub struct ExAnyhowError(anyhow::Error);

/// `anyhow::Error::chain`, each error of the chain written out by its
/// `Display`. The chain begins with the error itself, so it is never empty.
#[verifier::external_body]
fn chain_messages(e: &anyhow::Error) -> (messages: Vec<String>)
    ensures
        messages@.len() >= 1,
{
    e.chain().map(|cause| cause.to_string()).collect()
}

/// `n` tabs.
pub open spec fn tabs(n: nat) -> Seq<char> {
    Seq::new(n, |i: int| '\t')
}

/// The messages one per line, each indented by one tab more than the one
/// before it, the first not at all.
pub open spec fn unrolled(messages: Seq<Seq<char>>) -> Seq<char>
    decreases messages.len(),
{
    if messages.len() == 0 {
        Seq::empty()
    } else {
        unrolled(messages.drop_last()) + tabs((messages.len() - 1) as nat) + messages.last()
            + seq!['\n']
    }
}

/// Writes `n` tabs to the end of `text`.
fn push_tabs(text: &mut String, n: usize)
    ensures
        final(text)@ == old(text)@ + tabs(n as nat),
{
    let mut i: usize = 0;
    assert(text@ =~= old(text)@ + tabs(0));
    while i < n
        invariant
            i <= n,
            text@ == old(text)@ + tabs(i as nat),
        decreases n - i,
    {
        text.append("\t");
        proof {
            reveal_strlit("\t");
            assert("\t"@ =~= seq!['\t']);
            assert(text@ =~= old(text)@ + tabs((i + 1) as nat));
        }
        i = i + 1;
    }
}

/// Renders a chain of messages, outermost first, one per line and indented
/// by depth.
pub fn unroll_messages(messages: &Vec<String>) -> (text: String)
    ensures
        text@ == unrolled(messages.deep_view()),
{
    let mut text = String::new();
    let mut i: usize = 0;
    while i < messages.len()
        invariant
            i <= messages.len(),
            text@ == unrolled(messages.deep_view().take(i as int)),
        decreases messages.len() - i,
    {
        push_tabs(&mut text, i);
        text.append(messages[i].as_str());
        text.append("\n");
        proof {
            reveal_strlit("\n");
            assert("\n"@ =~= seq!['\n']);
            let all = messages.deep_view();
            assert(all.take(i + 1).drop_last() =~= all.take(i as int));
            assert(all.take(i + 1).last() == messages@[i as int]@);
        }
        i = i + 1;
    }
    assert(messages.deep_view().take(i as int) =~= messages.deep_view());
    text
}

/// Prints every error and context of the chain, outermost first.
pub fn unroll_anyhow_result(e: anyhow::Error) -> (text: String)
    ensures
        exists|messages: Seq<Seq<char>>| messages.len() >= 1 && text@ == unrolled(messages),
{
    let messages = chain_messages(&e);
    let text = unroll_messages(&messages);
    assert(messages.deep_view().len() >= 1 && text@ == unrolled(messages.deep_view()));
    text
}

} // verus!

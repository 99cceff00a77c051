use vstd::prelude::*;

verus! {

broadcast use vstd::string::to_string_from_display_ensures_for_str;

/// The text of every answer on the greeting route.
pub open spec fn greeting_text() -> Seq<char> {
    "Hello, World!"@
}

/// The handler of the greeting route: it reads no input and no state, and
/// returns a fresh copy of the greeting text.
pub fn hello() -> (r: String)
    ensures
        r@ == greeting_text(),
{
    "Hello, World!".to_string()
}

/// Any number of answers from `hello`, made in any order or at the same time,
/// are all the same text: no call can affect what another returns.
pub proof fn lemma_answers_identical(answers: Seq<String>)
    requires
        forall|i: int| 0 <= i < answers.len() ==> (#[trigger] answers[i])@ == greeting_text(),
    ensures
        forall|i: int, j: int|
            0 <= i < answers.len() && 0 <= j < answers.len() ==> (#[trigger] answers[i])@ == (
            #[trigger] answers[j])@,
{
}

} // verus!

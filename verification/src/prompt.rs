//! Wrapping a template's instruction and the caller's input into the one
//! system message that makes the model print a result and nothing else.
//!
//! A prompt template is any function from the input text to an instruction.
//! The extended content is, in this order: [`FRAME_HEAD`], the instruction,
//! [`FRAME_DIRECTIVE`], the input, [`FRAME_TAIL`]. Instruction and input are
//! embedded verbatim.

use vstd::prelude::*;
use crate::message::{Message, MessageView, Role};

verus! {

/// What precedes the instruction.
pub const FRAME_HEAD: &'static str = "FUNCTION: ";

/// What stands between the instruction and the input: the directive to print
/// the function's result and nothing else.
pub const FRAME_DIRECTIVE: &'static str =
    " \n    INSTRUCTION: You are a function printer. You ONLY print the results of functions.\n  Nothing else. No commentary. Here is the input to the function: ";

/// What follows the input.
pub const FRAME_TAIL: &'static str = ".\n  Print out what the function will return.";

/// `part` stands in `text` at offset `at`.
pub open spec fn occurs_at(text: Seq<char>, part: Seq<char>, at: int) -> bool {
    &&& 0 <= at
    &&& at + part.len() <= text.len()
    &&& text.subrange(at, at + part.len()) == part
}

/// `part` stands somewhere in `text`, character for character.
pub open spec fn contains(text: Seq<char>, part: Seq<char>) -> bool {
    exists|at: int| occurs_at(text, part, at)
}

/// The content of the extended message for an instruction and an input.
pub open spec fn extended_content(instruction: Seq<char>, input: Seq<char>) -> Seq<char> {
    FRAME_HEAD@ + instruction + FRAME_DIRECTIVE@ + input + FRAME_TAIL@
}

/// The extended message for an instruction and an input: a system message
/// with the extended content.
pub open spec fn extended_message(instruction: Seq<char>, input: Seq<char>) -> MessageView {
    MessageView { role: Role::System, content: extended_content(instruction, input) }
}

/// `message` is an extension of `input` under `template`: the extended
/// message for `input` and an instruction that the template renders for it.
pub open spec fn extends<F: Fn(&str) -> &'static str>(
    template: F,
    input: &str,
    message: MessageView,
) -> bool {
    exists|instruction: &'static str|
        call_ensures(template, (input,), instruction) && message == extended_message(
            instruction@,
            input@,
        )
}

/// `template` renders one instruction for `input` and no other, as every
/// template does that depends on its argument alone.
pub open spec fn renders_one_instruction<F: Fn(&str) -> &'static str>(
    template: F,
    input: &str,
) -> bool {
    forall|one: &'static str, other: &'static str|
        call_ensures(template, (input,), one) && call_ensures(template, (input,), other)
            ==> one@ == other@
}

/// Where the instruction starts in the extended content.
pub open spec fn instruction_offset() -> int {
    FRAME_HEAD@.len() as int
}

/// Where the input starts in the extended content.
pub open spec fn input_offset(instruction: Seq<char>) -> int {
    (FRAME_HEAD@.len() + instruction.len() + FRAME_DIRECTIVE@.len()) as int
}

/// The extended content holds the instruction and the input verbatim, each
/// at its offset.
pub proof fn lemma_extended_content_embeds(instruction: Seq<char>, input: Seq<char>)
    ensures
        occurs_at(extended_content(instruction, input), instruction, instruction_offset()),
        occurs_at(extended_content(instruction, input), input, input_offset(instruction)),
        contains(extended_content(instruction, input), instruction),
        contains(extended_content(instruction, input), input),
{
    let text = extended_content(instruction, input);
    let at_instruction = instruction_offset();
    let at_input = input_offset(instruction);
    assert(text.subrange(at_instruction, at_instruction + instruction.len()) =~= instruction);
    assert(text.subrange(at_input, at_input + input.len()) =~= input);
    assert(occurs_at(text, instruction, at_instruction));
    assert(occurs_at(text, input, at_input));
}

/// Two extended contents are the same text exactly when what stands between
/// head and tail is: instruction, directive and input, concatenated.
pub proof fn lemma_extended_content_collides(
    instruction1: Seq<char>,
    input1: Seq<char>,
    instruction2: Seq<char>,
    input2: Seq<char>,
)
    ensures
        extended_content(instruction1, input1) == extended_content(instruction2, input2) <==>
            instruction1 + FRAME_DIRECTIVE@ + input1 == instruction2 + FRAME_DIRECTIVE@ + input2,
{
    let middle1 = instruction1 + FRAME_DIRECTIVE@ + input1;
    let middle2 = instruction2 + FRAME_DIRECTIVE@ + input2;
    let text1 = extended_content(instruction1, input1);
    let text2 = extended_content(instruction2, input2);
    let head = FRAME_HEAD@.len() as int;
    assert(text1 =~= FRAME_HEAD@ + middle1 + FRAME_TAIL@);
    assert(text2 =~= FRAME_HEAD@ + middle2 + FRAME_TAIL@);
    if text1 == text2 {
        assert(middle1.len() == middle2.len());
        assert(text1.subrange(head, head + middle1.len()) =~= middle1);
        assert(text2.subrange(head, head + middle2.len()) =~= middle2);
    }
}

/// With instructions of one length, the extended content determines both the
/// instruction and the input.
pub proof fn lemma_extended_content_injective(
    instruction1: Seq<char>,
    input1: Seq<char>,
    instruction2: Seq<char>,
    input2: Seq<char>,
)
    requires
        instruction1.len() == instruction2.len(),
        extended_content(instruction1, input1) == extended_content(instruction2, input2),
    ensures
        instruction1 == instruction2,
        input1 == input2,
{
    let text1 = extended_content(instruction1, input1);
    let text2 = extended_content(instruction2, input2);
    lemma_extended_content_embeds(instruction1, input1);
    lemma_extended_content_embeds(instruction2, input2);
    assert(input1.len() == input2.len()) by {
        assert(text1.len() == text2.len());
    }
    assert(instruction1 =~= instruction2);
    assert(input1 =~= input2);
}

/// Distinct inputs give distinct extended messages: the input is embedded,
/// not discarded. This holds whenever the template answers the two inputs
/// with instructions of one length, as every template with a fixed
/// instruction does. A template that answers them with instructions of
/// different lengths can make up for the difference between the inputs; the
/// messages then coincide exactly when instruction, directive and input
/// concatenate to the same text, and only those inputs are left out here.
pub proof fn lemma_distinct_inputs_distinct_messages(
    instruction1: Seq<char>,
    input1: Seq<char>,
    instruction2: Seq<char>,
    input2: Seq<char>,
)
    requires
        input1 != input2,
        instruction1.len() == instruction2.len() || instruction1 + FRAME_DIRECTIVE@ + input1
            != instruction2 + FRAME_DIRECTIVE@ + input2,
    ensures
        extended_message(instruction1, input1) != extended_message(instruction2, input2),
        extended_content(instruction1, input1) != extended_content(instruction2, input2),
{
    if extended_content(instruction1, input1) == extended_content(instruction2, input2) {
        lemma_extended_content_collides(instruction1, input1, instruction2, input2);
        if instruction1.len() == instruction2.len() {
            lemma_extended_content_injective(instruction1, input1, instruction2, input2);
        }
    }
}

/// Extending is deterministic: a template that renders one instruction for
/// an input has one extension of that input.
pub proof fn lemma_extension_is_determined<F: Fn(&str) -> &'static str>(
    template: F,
    input: &str,
    one: MessageView,
    other: MessageView,
)
    requires
        renders_one_instruction(template, input),
        extends(template, input, one),
        extends(template, input, other),
    ensures
        one == other,
{
    let first = choose|instruction: &'static str|
        call_ensures(template, (input,), instruction) && one == extended_message(
            instruction@,
            input@,
        );
    let second = choose|instruction: &'static str|
        call_ensures(template, (input,), instruction) && other == extended_message(
            instruction@,
            input@,
        );
    assert(first@ == second@);
}

/// Builds the extended message from an instruction that a template has
/// already rendered and the input it was rendered for.
pub fn compose_extended_message(instruction: &str, func_input: &str) -> (msg: Message)
    ensures
        msg@ == extended_message(instruction@, func_input@),
{
    let mut content = String::from_str(FRAME_HEAD);
    content.append(instruction);
    content.append(FRAME_DIRECTIVE);
    content.append(func_input);
    content.append(FRAME_TAIL);
    assert(content@ =~= extended_content(instruction@, func_input@));
    Message::new(Role::System, content)
}

/// Renders the template `ai_func` on `func_input` and wraps instruction and
/// input into one system message. The message holds both verbatim, whatever
/// they are (the empty input included). There is no failure: a message is
/// made for every input that the template accepts.
pub fn extend_ai_function<F>(ai_func: F, func_input: &str) -> (msg: Message) where
    F: Fn(&str) -> &'static str,

    requires
        call_requires(ai_func, (func_input,)),
    ensures
        extends(ai_func, func_input, msg@),
        msg@.role == Role::System,
        contains(msg@.content, func_input@),
{
    let instruction = ai_func(func_input);
    proof {
        lemma_extended_content_embeds(instruction@, func_input@);
    }
    compose_extended_message(instruction, func_input)
}

} // verus!

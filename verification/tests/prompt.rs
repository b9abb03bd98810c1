use auto_gippity::message::{Message, Role};
use auto_gippity::prompt::{
    compose_extended_message, extend_ai_function, FRAME_DIRECTIVE, FRAME_HEAD, FRAME_TAIL,
};

fn convert_user_input_to_goal(_user_request: &str) -> &'static str {
    "fn convert_user_input_to_goal(_user_request: &str) {\n    /// Input: Takes in a user request\n    /// Function: Converts user request into a short summarized goal\n    /// Output: Prints goal. All outputs start with \"build a website that ...\"\n    println!(OUTPUT)\n}"
}

fn short_goal(_input: &str) -> &'static str {
    "Return the goal as a short sentence."
}

fn echo_length(input: &str) -> &'static str {
    if input.len() > 3 {
        "long"
    } else {
        "tiny"
    }
}

fn compensating(input: &str) -> &'static str {
    if input == "z" {
        "x \n    INSTRUCTION: You are a function printer. You ONLY print the results of functions.\n  Nothing else. No commentary. Here is the input to the function: y"
    } else {
        "x"
    }
}

#[test]
fn tests_extending_ai_function() {
    let extended_msg = extend_ai_function(convert_user_input_to_goal, "dummy variable");
    println!("{:?}", &extended_msg);
    assert_eq!(extended_msg.role().as_str(), "system".to_string());
    assert_eq!(extended_msg.role(), Role::System);
}

#[test]
fn extended_message_embeds_instruction_and_input() {
    let input = "Build a stock price API server.";
    let msg = extend_ai_function(short_goal, input);
    assert_eq!(msg.role(), Role::System);
    assert!(msg.content().contains("Return the goal as a short sentence."));
    assert!(msg.content().contains(input));
}

#[test]
fn extended_content_is_the_framed_text() {
    let msg = extend_ai_function(short_goal, "Build a stock price API server.");
    let expected = "FUNCTION: Return the goal as a short sentence. \n    INSTRUCTION: You are a function printer. You ONLY print the results of functions.\n  Nothing else. No commentary. Here is the input to the function: Build a stock price API server..\n  Print out what the function will return.";
    assert_eq!(msg.content(), expected);
}

#[test]
fn extended_content_matches_the_multiline_layout() {
    let msg = extend_ai_function(short_goal, "in");
    let expected = format!("FUNCTION: {} 
    INSTRUCTION: You are a function printer. You ONLY print the results of functions.
  Nothing else. No commentary. Here is the input to the function: {}.
  Print out what the function will return.", "Return the goal as a short sentence.", "in");
    assert_eq!(msg.content(), expected);
}

#[test]
fn frame_parts_surround_instruction_and_input() {
    let msg = compose_extended_message("do", "it");
    assert_eq!(msg.role(), Role::System);
    assert_eq!(msg.content(), format!("{}do{}it{}", FRAME_HEAD, FRAME_DIRECTIVE, FRAME_TAIL));
    assert_eq!(FRAME_HEAD, "FUNCTION: ");
    assert_eq!(FRAME_TAIL, ".\n  Print out what the function will return.");
    assert!(FRAME_DIRECTIVE.starts_with(" \n    INSTRUCTION: You are a function printer."));
    assert!(FRAME_DIRECTIVE.ends_with("Here is the input to the function: "));
}

#[test]
fn instruction_and_input_stand_at_their_offsets() {
    let instruction = "Return the goal as a short sentence.";
    let input = "Build a stock price API server.";
    let msg = compose_extended_message(instruction, input);
    let at_instruction = FRAME_HEAD.len();
    let at_input = FRAME_HEAD.len() + instruction.len() + FRAME_DIRECTIVE.len();
    assert_eq!(&msg.content()[at_instruction..at_instruction + instruction.len()], instruction);
    assert_eq!(&msg.content()[at_input..at_input + input.len()], input);
    assert_eq!(msg.content().len(), at_input + input.len() + FRAME_TAIL.len());
}

#[test]
fn empty_input_is_extended_too() {
    let msg = extend_ai_function(short_goal, "");
    assert_eq!(msg.role(), Role::System);
    let instruction = "Return the goal as a short sentence.";
    assert_eq!(
        msg.content(),
        format!("{}{}{}{}", FRAME_HEAD, instruction, FRAME_DIRECTIVE, FRAME_TAIL)
    );
}

#[test]
fn empty_instruction_and_input_leave_the_frame() {
    let msg = compose_extended_message("", "");
    assert_eq!(msg.content(), format!("{}{}{}", FRAME_HEAD, FRAME_DIRECTIVE, FRAME_TAIL));
}

#[test]
fn input_is_embedded_verbatim() {
    let input = "line one\n\t\"quoted\" {braces} \\ back\u{e9}\u{4e16}";
    let msg = extend_ai_function(short_goal, input);
    assert!(msg.content().contains(input));
    assert!(msg.content().ends_with(&format!("{}{}", input, FRAME_TAIL)));
}

#[test]
fn distinct_inputs_give_distinct_messages() {
    let first = extend_ai_function(short_goal, "Build a stock price API server.");
    let second = extend_ai_function(short_goal, "Build a stock price API server!");
    assert_ne!(first, second);
    assert_ne!(first.content(), second.content());
}

#[test]
fn distinct_inputs_differ_under_equal_length_instructions() {
    let first = extend_ai_function(echo_length, "abcd");
    let second = extend_ai_function(echo_length, "abc");
    assert!(first.content().contains("long"));
    assert!(second.content().contains("tiny"));
    assert_ne!(first, second);
}

#[test]
fn same_input_gives_the_same_message() {
    let first = extend_ai_function(short_goal, "same");
    let second = extend_ai_function(short_goal, "same");
    assert_eq!(first, second);
}

#[test]
fn instructions_of_different_length_can_hide_a_difference() {
    let long_input = format!("y{}z", FRAME_DIRECTIVE);
    let first = extend_ai_function(compensating, &long_input);
    let second = extend_ai_function(compensating, "z");
    assert_ne!(long_input, "z");
    assert_eq!(first.content(), second.content());
    assert_eq!(first, second);
}

#[test]
fn template_may_be_a_closure() {
    let template = |_input: &str| -> &'static str { "Sum the numbers." };
    let msg = extend_ai_function(template, "1 2 3");
    assert_eq!(msg, compose_extended_message("Sum the numbers.", "1 2 3"));
}

#[test]
fn role_names_are_the_wire_names() {
    assert_eq!(Role::System.as_str(), "system");
    assert_eq!(Role::User.as_str(), "user");
    assert_eq!(Role::Assistant.as_str(), "assistant");
}

#[test]
fn cloned_message_equals_its_source() {
    let msg = Message::new(Role::User, "Hi there".to_string());
    let copy = msg.clone();
    assert_eq!(copy, msg);
    assert_eq!(copy.role(), Role::User);
    assert_eq!(copy.content(), "Hi there");
}

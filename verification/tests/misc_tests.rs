use lace::bytecode::{Instructions, Opcode};
use lace::cli::InterpreterArgs;
use lace::repl::{PromptColour, ReplPrompt, LOGO, SYMBOL};
use lace::text::{chars_of, has_prefix, has_suffix, join, same_chars, spells, string_of};

#[test]
fn a_constant_takes_one_operand_of_two_bytes() {
    assert_eq!(Opcode::Constant.width_lookup(), vec![2]);
    assert_eq!(
        Opcode::Constant.make(vec![65534]),
        Instructions {
            data: vec![0, 255, 254]
        }
    );
    assert_eq!(Opcode::Constant.make(vec![258]).data, vec![0, 1, 2]);
    assert_eq!(Opcode::Constant.make(vec![]).data, vec![0]);
    assert_eq!(Opcode::Constant.make(vec![1, 2]).data, vec![0, 0, 1]);
}

#[test]
fn an_operand_is_cut_down_to_its_width() {
    assert_eq!(Opcode::Constant.make(vec![-1]).data, vec![0, 255, 255]);
    assert_eq!(Opcode::Constant.make(vec![65536 + 5]).data, vec![0, 0, 5]);
}

#[test]
fn the_prompt_changes_colour() {
    let mut prompt = ReplPrompt::new();
    assert_eq!(prompt.logo, LOGO);
    assert_eq!(prompt.symbol, SYMBOL);
    assert_eq!(prompt.symbol, ">> ");
    assert_eq!(prompt.colour(), "\x1b[92m");
    prompt.errored();
    assert_eq!(prompt.colour(), "\x1b[91m");
    assert_eq!(prompt.colour, PromptColour::Error);
    prompt.works();
    assert_eq!(prompt.colour(), "\x1b[92m");
    assert_eq!(ReplPrompt::default().colour, PromptColour::Works);
    assert_eq!(PromptColour::Error.colour(), "\x1b[91m");
}

#[test]
fn the_argument_after_the_program_names_the_file() {
    assert_eq!(InterpreterArgs::from(vec![]).file, None);
    assert_eq!(InterpreterArgs::from(vec!["lace".into()]).file, None);
    assert_eq!(
        InterpreterArgs::from(vec!["lace".into(), "main.lace".into()]),
        InterpreterArgs {
            file: Some("main.lace".into())
        }
    );
    assert_eq!(InterpreterArgs::default().file, None);
}

#[test]
fn text_helpers() {
    let chars = chars_of("héllo");
    assert_eq!(chars, vec!['h', 'é', 'l', 'l', 'o']);
    assert_eq!(string_of(&chars, 1, 3), "él");
    assert_eq!(string_of(&chars, 2, 2), "");
    assert_eq!(join("ab", "cd"), "abcd");
    assert!(same_chars(&chars, &chars_of("héllo")));
    assert!(!same_chars(&chars, &chars_of("hello")));
    assert!(spells(&chars_of("let"), "let"));
    assert!(!spells(&chars_of("le"), "let"));
    assert!(has_prefix(&chars, &chars_of("hé")));
    assert!(!has_prefix(&chars, &chars_of("he")));
    assert!(has_suffix(&chars, &chars_of("llo")));
    assert!(has_suffix(&chars, &chars_of("")));
    assert!(!has_suffix(&chars_of("lo"), &chars_of("llo")));
}

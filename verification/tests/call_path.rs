use cairo_lang_sierra::program::Program;
use cairo_lang_sierra::ProgramParser;
use cairo_run_adapter::call::{call_error_message, judge_program};

const FIVE: &str = "type felt252 = felt252;

libfunc five = felt252_const<5>;
libfunc keep = store_temp<felt252>;

five() -> ([0]);
keep([0]) -> ([0]);
return([0]);

demo::main@0() -> (felt252);
";

fn parse(text: &str) -> Result<Program, String> {
    ProgramParser::new().parse(text).map_err(|error| error.to_string())
}

#[test]
fn a_program_that_parsed_is_handed_on_as_it_is() {
    let parsed = parse(FIVE).expect("the text is a program");
    let program = judge_program(Ok(parsed.clone())).expect("a program stays a program");
    assert_eq!(program, parsed);
    assert_eq!(program.type_declarations.len(), 1);
    assert_eq!(program.libfunc_declarations.len(), 2);
    assert_eq!(program.statements.len(), 3);
    assert_eq!(program.funcs.len(), 1);
}

#[test]
fn a_text_that_is_no_program_fails_the_call() {
    let objection = parse("this is no program").expect_err("the text is no program");
    let error = judge_program(Err(objection.clone())).expect_err("an error stays an error");
    assert_eq!(error, format!("Error from CairoRunner: {}", objection));
    assert!(error.len() > "Error from CairoRunner: ".len());
}

#[test]
fn call_errors_are_marked_as_the_runner_s() {
    assert_eq!(call_error_message("boom"), "Error from CairoRunner: boom");
    assert_eq!(call_error_message(""), "Error from CairoRunner: ");
    assert_eq!(
        judge_program(Err("bad token".to_string())).expect_err("an error stays an error"),
        "Error from CairoRunner: bad token"
    );
}

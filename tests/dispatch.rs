use target_dispatch::{
    AdvancedTarget, BasicTarget, Command, Error, Extension, FaultyTarget, Output, TargetBase,
    TargetController, Transcript,
};

const UNLUCKY: &str = "multiplying by 7 is unlucky!";
const NO_DEC: &str = "`dec` operations are not supported yet";

fn demo_commands() -> Vec<Command> {
    vec![
        Command::PrintState,
        Command::SetState(2),
        Command::PrintState,
        Command::Inc,
        Command::Inc,
        Command::Inc,
        Command::PrintState,
        Command::IncDec,
        Command::PrintState,
        Command::Dec,
        Command::PrintState,
        Command::Mul(2),
        Command::PrintState,
        Command::Mul(7),
        Command::PrintState,
    ]
}

#[test]
fn advanced_scenario_reaches_eight_then_refuses_seven() {
    let mut c = TargetController::new(AdvancedTarget::new(0));
    let mut out = Transcript::new();
    let cmds = [
        Command::SetState(2),
        Command::Inc,
        Command::Inc,
        Command::Inc,
        Command::Dec,
        Command::Mul(2),
    ];
    assert!(c.run(&cmds, &mut out).is_ok());
    assert_eq!(c.target().get_state(), 8);
    let r = c.run(&[Command::Mul(7), Command::PrintState], &mut out);
    assert!(matches!(r, Err(Error::Target(UNLUCKY))));
    assert_eq!(c.target().get_state(), 8);
    assert!(out.lines.is_empty());
}

#[test]
fn basic_extension_commands_only_emit_diagnostics() {
    let mut c = TargetController::new(BasicTarget::new(5));
    let mut out = Transcript::new();
    let cmds = [Command::Inc, Command::Dec, Command::IncDec, Command::Mul(5)];
    assert!(c.run(&cmds, &mut out).is_ok());
    assert_eq!(
        out.lines,
        vec![
            Output::Unsupported(Extension::IncDec),
            Output::Unsupported(Extension::IncDec),
            Output::Unsupported(Extension::IncDec),
            Output::Unsupported(Extension::Mul),
        ]
    );
    assert_eq!(c.target().get_state(), 5);
}

#[test]
fn faulty_incdec_keeps_increment_and_fails() {
    let mut c = TargetController::new(FaultyTarget::new(0));
    let mut out = Transcript::new();
    let r = c.run(&[Command::IncDec, Command::PrintState], &mut out);
    assert!(matches!(r, Err(Error::Target(NO_DEC))));
    assert_eq!(c.target().get_state(), 1);
    assert!(out.lines.is_empty());
}

#[test]
fn faulty_dec_fails_and_mul_is_unsupported() {
    let mut c = TargetController::new(FaultyTarget::new(3));
    let mut out = Transcript::new();
    assert!(c.run(&[Command::Mul(4), Command::Inc], &mut out).is_ok());
    assert_eq!(out.lines, vec![Output::Unsupported(Extension::Mul)]);
    assert_eq!(c.target().get_state(), 4);
    let r = c.run(&[Command::Dec], &mut out);
    assert!(matches!(r, Err(Error::Target(NO_DEC))));
    assert_eq!(c.target().get_state(), 4);
}

#[test]
fn print_after_set_reports_value_on_every_target() {
    let cmds = [Command::SetState(-42), Command::PrintState];
    let expected = vec![Output::State(-42)];

    let mut out = Transcript::new();
    let mut a = TargetController::new(AdvancedTarget::new(9));
    assert!(a.run(&cmds, &mut out).is_ok());
    assert_eq!(out.lines, expected);

    let mut out = Transcript::new();
    let mut b = TargetController::new(BasicTarget::new(9));
    assert!(b.run(&cmds, &mut out).is_ok());
    assert_eq!(out.lines, expected);

    let mut out = Transcript::new();
    let mut f = TargetController::new(FaultyTarget::new(9));
    assert!(f.run(&cmds, &mut out).is_ok());
    assert_eq!(out.lines, expected);
}

#[test]
fn repeated_print_reports_same_value() {
    let mut c = TargetController::new(AdvancedTarget::new(17));
    let mut out = Transcript::new();
    let cmds = [Command::PrintState, Command::PrintState, Command::PrintState];
    assert!(c.run(&cmds, &mut out).is_ok());
    assert_eq!(out.lines, vec![Output::State(17); 3]);
    assert_eq!(c.target().get_state(), 17);
}

#[test]
fn prefix_before_failure_leaves_same_state() {
    let cmds = demo_commands();
    // On the faulty target the IncDec at index 7 fails.
    let mut full = TargetController::new(FaultyTarget::new(0));
    let mut full_out = Transcript::new();
    assert!(full.run(&cmds, &mut full_out).is_err());

    let mut prefix = TargetController::new(FaultyTarget::new(0));
    let mut prefix_out = Transcript::new();
    assert!(prefix.run(&cmds[..7], &mut prefix_out).is_ok());
    assert_eq!(prefix.target().get_state(), 5);
    assert_eq!(prefix_out.lines, full_out.lines);
    // The failing IncDec adds its increment on top of the prefix state.
    assert_eq!(full.target().get_state(), prefix.target().get_state() + 1);
}

#[test]
fn demo_sequence_on_advanced() {
    let mut c = TargetController::new(AdvancedTarget::new(0));
    let mut out = Transcript::new();
    let r = c.run(&demo_commands(), &mut out);
    assert!(matches!(r, Err(Error::Target(UNLUCKY))));
    assert_eq!(
        out.lines,
        vec![
            Output::State(0),
            Output::State(2),
            Output::State(5),
            Output::State(5),
            Output::State(4),
            Output::State(8),
        ]
    );
    assert_eq!(c.target().get_state(), 8);
}

#[test]
fn demo_sequence_on_basic() {
    let mut c = TargetController::new(BasicTarget::new(0));
    let mut out = Transcript::new();
    assert!(c.run(&demo_commands(), &mut out).is_ok());
    let incdec = Output::Unsupported(Extension::IncDec);
    let mul = Output::Unsupported(Extension::Mul);
    assert_eq!(
        out.lines,
        vec![
            Output::State(0),
            Output::State(2),
            incdec,
            incdec,
            incdec,
            Output::State(2),
            incdec,
            Output::State(2),
            incdec,
            Output::State(2),
            mul,
            Output::State(2),
            mul,
            Output::State(2),
        ]
    );
}

#[test]
fn demo_sequence_on_faulty() {
    let mut c = TargetController::new(FaultyTarget::new(0));
    let mut out = Transcript::new();
    let r = c.run(&demo_commands(), &mut out);
    assert!(matches!(r, Err(Error::Target(NO_DEC))));
    assert_eq!(
        out.lines,
        vec![Output::State(0), Output::State(2), Output::State(5)]
    );
    assert_eq!(c.target().get_state(), 6);
}

#[test]
fn empty_sequence_does_nothing() {
    let mut c = TargetController::new(AdvancedTarget::new(-3));
    let mut out = Transcript::new();
    assert!(c.run(&[], &mut out).is_ok());
    assert!(out.lines.is_empty());
    assert_eq!(c.target().get_state(), -3);
}

#[test]
fn overflow_is_a_domain_error() {
    let mut out = Transcript::new();
    let mut c = TargetController::new(AdvancedTarget::new(isize::MAX));
    let r = c.run(&[Command::Inc], &mut out);
    assert!(matches!(r, Err(Error::Target("register overflow"))));
    assert_eq!(c.target().get_state(), isize::MAX);

    let mut c = TargetController::new(AdvancedTarget::new(isize::MIN));
    let r = c.run(&[Command::Dec], &mut out);
    assert!(matches!(r, Err(Error::Target("register overflow"))));
    assert_eq!(c.target().get_state(), isize::MIN);

    let mut c = TargetController::new(AdvancedTarget::new(isize::MAX / 2 + 1));
    let r = c.run(&[Command::Mul(2)], &mut out);
    assert!(matches!(r, Err(Error::Target("register overflow"))));
    assert_eq!(c.target().get_state(), isize::MAX / 2 + 1);

    let mut c = TargetController::new(FaultyTarget::new(isize::MAX));
    let r = c.run(&[Command::IncDec], &mut out);
    assert!(matches!(r, Err(Error::Target("register overflow"))));
    assert_eq!(c.target().get_state(), isize::MAX);
    assert!(out.lines.is_empty());
}

#[test]
fn mul_by_negative_and_zero() {
    let mut c = TargetController::new(AdvancedTarget::new(6));
    let mut out = Transcript::new();
    assert!(c.run(&[Command::Mul(-3), Command::PrintState, Command::Mul(0)], &mut out).is_ok());
    assert_eq!(out.lines, vec![Output::State(-18)]);
    assert_eq!(c.target().get_state(), 0);
}

#[test]
fn diagnostics_name_the_extension() {
    assert_eq!(Extension::IncDec.diagnostic(), "IncDec extension not supported!");
    assert_eq!(Extension::Mul.diagnostic(), "Mul extension not supported!");
}

//! Tests for the lowering pass: name resolution, condition and command
//! cardinality, mutual exclusion, capacity bounds, and the assembled
//! index-addressed model.

use nova_verifier::error::{Context, Level, Session, Span, SpanStyle, Spanned};
use nova_verifier::index::{
    self, CheckData, CommandObject, FloatBits, FloatCondition, PyroContinuityCondition, Seconds,
    StateIndex, MAX_STATES,
};
use nova_verifier::lower;
use nova_verifier::upper;

/// Wraps a value in a dummy span, for documents assembled by hand.
fn cs<T>(value: T) -> Spanned<T> {
    Spanned::new(value, Span::dummy())
}

fn f32_bits(v: f32) -> FloatBits {
    FloatBits(v.to_bits())
}

fn testing() -> Context {
    Session::new()
        .add_file(Vec::new(), String::from("<anonymous>"))
        .unwrap()
}

/// A check with nothing set; tests fill in what they exercise.
fn empty_check(name: &str, kind: &str) -> upper::Check {
    upper::Check {
        name: cs(name.to_string()),
        check: cs(kind.to_string()),
        transition: None,
        abort: None,
        greater_than: None,
        upper_bound: None,
        lower_bound: None,
        flag: None,
    }
}

/// A single-state document holding the given checks.
fn one_state_config(checks: Vec<Spanned<upper::Check>>) -> upper::ConfigFile {
    upper::ConfigFile {
        default_state: None,
        states: cs(vec![cs(upper::State {
            name: cs("PowerOn".to_string()),
            timeout: None,
            checks,
            commands: vec![],
        })]),
    }
}

fn check_ok(input: upper::ConfigFile, expected: index::ConfigFile) {
    let mut context = testing();
    let cfg_file = lower::verify(input, &mut context);
    match context.end_phase() {
        Ok(_) => assert_eq!(expected, cfg_file.unwrap()),
        Err(d) => panic!("lowering should have succeeded: {:?}", d.diagnostics),
    }
}

fn check_error(input: upper::ConfigFile) -> Vec<nova_verifier::error::Diagnostic> {
    let mut context = testing();
    let cfg_file = lower::verify(input, &mut context);
    assert!(cfg_file.is_err(), "lowering should have failed");
    context
        .end_phase()
        .expect_err("a failed lowering leaves an error diagnostic")
        .diagnostics
}

#[test]
fn lower_basic1() {
    let upper = upper::ConfigFile {
        default_state: Some(cs("PowerOn".to_string())),
        states: cs(vec![cs(upper::State {
            name: cs("PowerOn".to_string()),
            timeout: None,
            checks: vec![cs(upper::Check {
                name: cs("Takeoff".to_string()),
                check: cs("altitude".to_string()),
                greater_than: Some(cs(f32_bits(100.0))),
                transition: None,
                upper_bound: None,
                flag: None,
                lower_bound: None,
                abort: None,
            })],
            commands: vec![],
        })]),
    };

    let expected = index::ConfigFile {
        default_state: StateIndex::new(0).unwrap(),
        states: vec![index::State {
            timeout: None,
            checks: vec![index::Check::new(
                CheckData::Altitude(FloatCondition::GreaterThan(f32_bits(100.0))),
                None,
            )],
            commands: vec![],
        }],
    };

    check_ok(upper, expected);
}

#[test]
fn basic2() {
    let upper = upper::ConfigFile {
        default_state: None,
        states: cs(vec![
            cs(upper::State {
                name: cs("Ground".to_string()),
                timeout: None,
                checks: vec![cs(upper::Check {
                    name: cs("Takeoff".to_string()),
                    check: cs("altitude".to_string()),
                    greater_than: Some(cs(f32_bits(100.0))),
                    transition: None,
                    upper_bound: None,
                    flag: None,
                    lower_bound: None,
                    abort: None,
                })],
                commands: vec![],
            }),
            cs(upper::State {
                name: cs("Launch".to_string()),
                timeout: None,
                checks: vec![cs(upper::Check {
                    name: cs("Pyro1Cont".to_string()),
                    check: cs("pyro1_continuity".to_string()),
                    greater_than: None,
                    transition: None,
                    upper_bound: None,
                    flag: Some(cs("set".to_string())),
                    lower_bound: None,
                    abort: None,
                })],
                commands: vec![],
            }),
        ]),
    };

    let expected = index::ConfigFile {
        default_state: StateIndex::new(0).unwrap(),
        states: vec![
            index::State {
                timeout: None,
                checks: vec![index::Check::new(
                    CheckData::Altitude(FloatCondition::GreaterThan(f32_bits(100.0))),
                    None,
                )],
                commands: vec![],
            },
            index::State {
                timeout: None,
                checks: vec![index::Check::new(
                    CheckData::Pyro1Continuity(PyroContinuityCondition(true)),
                    None,
                )],
                commands: vec![],
            },
        ],
    };

    check_ok(upper, expected);
}

#[test]
fn error_unknown_state() {
    let bad_name = "I do not exist!".to_string();
    let upper = upper::ConfigFile {
        default_state: Some(cs(bad_name.clone())),
        states: cs(vec![cs(upper::State {
            name: cs("PowerOn".to_string()),
            timeout: None,
            checks: vec![cs(upper::Check {
                name: cs("Takeoff".to_string()),
                check: cs("altitude".to_string()),
                greater_than: Some(cs(f32_bits(100.0))),
                transition: None,
                upper_bound: None,
                flag: None,
                lower_bound: None,
                abort: None,
            })],
            commands: vec![],
        })]),
    };
    let diags = check_error(upper);
    assert!(diags
        .iter()
        .any(|d| d.level == Level::Error && d.message == "state not found `I do not exist!`"));
}

#[test]
fn error_mutiple_subchecks() {
    let upper = upper::ConfigFile {
        default_state: None,
        states: cs(vec![cs(upper::State {
            name: cs("PowerOn".to_string()),
            timeout: None,
            checks: vec![cs(upper::Check {
                name: cs("Check".to_string()),
                check: cs("pyro1_continuity".to_string()),
                greater_than: Some(cs(f32_bits(100.0))),
                transition: None,
                upper_bound: Some(cs(f32_bits(0.0))),
                flag: Some(cs("set".to_string())),
                lower_bound: Some(cs(f32_bits(0.5))),
                abort: None,
            })],
            commands: vec![],
        })]),
    };
    check_error(upper);
}

#[test]
fn too_many_conditions_labels_every_group() {
    // Three condition groups set at once, each at its own location: the
    // report labels all three, ordered by source position.
    let mut check = empty_check("Check", "pyro1_continuity");
    check.flag = Some(Spanned::new("set".to_string(), Span::new(10, 13)));
    check.upper_bound = Some(Spanned::new(f32_bits(0.0), Span::new(20, 23)));
    check.lower_bound = Some(Spanned::new(f32_bits(0.5), Span::new(30, 33)));
    check.greater_than = Some(Spanned::new(f32_bits(100.0), Span::new(40, 45)));
    let diags = check_error(one_state_config(vec![cs(check)]));

    let d = diags
        .iter()
        .find(|d| d.message == "too many conditions")
        .expect("the conflict is reported");
    let labels: Vec<_> = d
        .spans
        .iter()
        .filter(|l| l.style == SpanStyle::Secondary)
        .collect();
    assert_eq!(labels.len(), 3);
    assert_eq!(labels[0].span, Span::new(10, 13));
    assert_eq!(labels[1].span, Span::new(20, 23));
    assert_eq!(labels[2].span, Span::new(40, 45));
    for l in labels {
        assert_eq!(l.label.as_deref(), Some("declared here"));
    }
}

#[test]
fn no_condition_fails() {
    let diags = check_error(one_state_config(vec![cs(empty_check("C", "altitude"))]));
    assert!(diags.iter().any(|d| d.message == "no condition"));
}

#[test]
fn unmatched_bound_fails() {
    let mut check = empty_check("C", "altitude");
    check.upper_bound = Some(cs(f32_bits(1.0)));
    let diags = check_error(one_state_config(vec![cs(check)]));
    assert!(diags.iter().any(|d| d.message == "unmatched bound"));
}

#[test]
fn unknown_check_kind_fails_with_help() {
    let mut check = empty_check("C", "speling");
    check.flag = Some(cs("set".to_string()));
    let diags = check_error(one_state_config(vec![cs(check)]));
    assert!(diags
        .iter()
        .any(|d| d.message == "no check with name `speling` exists"));
    assert!(diags.iter().any(|d| d.level == Level::Help
        && d.message == "try `apogee`, or `altitude`, or `pyroX_continuity`"));
}

#[test]
fn bad_flag_value_fails() {
    let mut check = empty_check("C", "apogee");
    check.flag = Some(cs("maybe".to_string()));
    let diags = check_error(one_state_config(vec![cs(check)]));
    assert!(diags
        .iter()
        .any(|d| d.message == "flag values must be `set` or `unset`"));
}

#[test]
fn mismatched_check_type_fails() {
    // A continuity check needs a flag condition; a numeric one does not fit.
    let mut check = empty_check("C", "pyro2_continuity");
    check.greater_than = Some(cs(f32_bits(1.0)));
    let diags = check_error(one_state_config(vec![cs(check)]));
    assert!(diags.iter().any(|d| d.message == "mismatched check type"));

    // And a flag does not fit an altitude check.
    let mut check = empty_check("C", "altitude");
    check.flag = Some(cs("set".to_string()));
    let diags = check_error(one_state_config(vec![cs(check)]));
    assert!(diags.iter().any(|d| d.message == "mismatched check type"));
}

#[test]
fn transition_and_abort_conflict() {
    // Both names resolve, and the check still fails.
    let mut check = empty_check("C", "apogee");
    check.flag = Some(cs("set".to_string()));
    check.transition = Some(Spanned::new("PowerOn".to_string(), Span::new(5, 12)));
    check.abort = Some(Spanned::new("PowerOn".to_string(), Span::new(1, 4)));
    let diags = check_error(one_state_config(vec![cs(check.clone())]));
    let d = diags
        .iter()
        .find(|d| d.message == "abort and transition cannot be active in the same check")
        .expect("the conflict is reported");
    // Spans come out ordered by source position: the abort was written first.
    assert_eq!(d.spans[0].span, Span::new(1, 4));
    assert_eq!(d.spans[1].span, Span::new(5, 12));
    assert!(diags
        .iter()
        .any(|d| d.message == "remove either `abort` or `transition`"));

    // A dangling name on either side also fails.
    let mut check = empty_check("C", "apogee");
    check.flag = Some(cs("set".to_string()));
    check.transition = Some(cs("Nowhere".to_string()));
    check.abort = Some(cs("PowerOn".to_string()));
    let diags = check_error(one_state_config(vec![cs(check)]));
    assert!(diags
        .iter()
        .any(|d| d.message == "state not found `Nowhere`"));
}

#[test]
fn transition_resolves_to_declaration_order_index() {
    let mut check = empty_check("Takeoff", "altitude");
    check.greater_than = Some(cs(f32_bits(100.0)));
    check.transition = Some(cs("Launch".to_string()));
    let upper = upper::ConfigFile {
        default_state: Some(cs("Launch".to_string())),
        states: cs(vec![
            cs(upper::State {
                name: cs("Ground".to_string()),
                timeout: None,
                checks: vec![cs(check)],
                commands: vec![],
            }),
            cs(upper::State {
                name: cs("Launch".to_string()),
                timeout: None,
                checks: vec![],
                commands: vec![],
            }),
        ]),
    };
    let expected = index::ConfigFile {
        default_state: StateIndex::new(1).unwrap(),
        states: vec![
            index::State {
                timeout: None,
                checks: vec![index::Check::new(
                    CheckData::Altitude(FloatCondition::GreaterThan(f32_bits(100.0))),
                    Some(index::StateTransition::Transition(StateIndex::new(1).unwrap())),
                )],
                commands: vec![],
            },
            index::State {
                timeout: None,
                checks: vec![],
                commands: vec![],
            },
        ],
    };
    check_ok(upper, expected);
}

fn n_plain_states(n: usize) -> upper::ConfigFile {
    let mut states = Vec::new();
    for i in 0..n {
        states.push(cs(upper::State {
            name: cs(format!("State{}", i)),
            timeout: None,
            checks: vec![],
            commands: vec![],
        }));
    }
    upper::ConfigFile {
        default_state: None,
        states: cs(states),
    }
}

#[test]
fn zero_states_fails() {
    let diags = check_error(n_plain_states(0));
    assert!(diags
        .iter()
        .any(|d| d.level == Level::Error && d.message == "no states declared"));
}

#[test]
fn too_many_states_fails() {
    let diags = check_error(n_plain_states(MAX_STATES + 1));
    assert!(diags
        .iter()
        .any(|d| d.level == Level::Error && d.message == "too many states"));
}

#[test]
fn exactly_max_states_succeeds() {
    let mut context = testing();
    let cfg = lower::verify(n_plain_states(MAX_STATES), &mut context);
    assert!(context.end_phase().is_ok());
    let cfg = cfg.unwrap();
    assert_eq!(cfg.states.len(), MAX_STATES);
    assert_eq!(cfg.default_state, StateIndex::new(0).unwrap());
}

#[test]
fn default_state_dangling_fails_but_items_still_checked() {
    // The dangling default is reported, and so is the defect inside the
    // state: the pass keeps going to surface both.
    let mut config = one_state_config(vec![cs(empty_check("C", "altitude"))]);
    config.default_state = Some(cs("DoesNotExist".to_string()));
    let diags = check_error(config);
    assert!(diags
        .iter()
        .any(|d| d.message == "state not found `DoesNotExist`"));
    assert!(diags.iter().any(|d| d.message == "no condition"));
}

#[test]
fn too_many_checks_in_one_state_fails() {
    let mut checks = Vec::new();
    for _ in 0..(index::MAX_CHECKS + 1) {
        let mut c = empty_check("C", "apogee");
        c.flag = Some(cs("set".to_string()));
        checks.push(cs(c));
    }
    let diags = check_error(one_state_config(checks));
    assert!(diags.iter().any(|d| d.message == "too many checks"));
}

#[test]
fn too_many_commands_in_one_state_fails() {
    let mut commands = Vec::new();
    for _ in 0..(index::MAX_COMMANDS + 1) {
        commands.push(cs(upper::Command {
            pyro1: Some(cs(upper::TomlBool(true))),
            pyro2: None,
            pyro3: None,
            data_rate: None,
            beacon: None,
            delay: None,
        }));
    }
    let mut config = one_state_config(vec![]);
    config.states.value[0].value.commands = commands;
    let diags = check_error(config);
    assert!(diags.iter().any(|d| d.message == "too many commands"));
}

#[test]
fn unset_flag_lowers_to_false() {
    let mut check = empty_check("ApogeeReached", "apogee");
    check.flag = Some(cs("unset".to_string()));
    let mut context = testing();
    let cfg = lower::verify(one_state_config(vec![cs(check)]), &mut context).unwrap();
    assert!(context.end_phase().is_ok());
    assert_eq!(
        cfg.states[0].checks[0],
        index::Check::new(
            CheckData::ApogeeFlag(index::NativeFlagCondition(false)),
            None
        )
    );
}

#[test]
fn command_action_missing_fails() {
    let command = upper::Command {
        pyro1: None,
        pyro2: None,
        pyro3: None,
        data_rate: None,
        beacon: None,
        delay: None,
    };
    let mut config = one_state_config(vec![]);
    config.states.value[0].value.commands.push(cs(command));
    let diags = check_error(config);
    assert!(diags.iter().any(|d| d.message == "command action missing"));
}

#[test]
fn too_many_command_actions_labels_every_field() {
    let command = upper::Command {
        pyro1: Some(Spanned::new(upper::TomlBool(true), Span::new(30, 34))),
        pyro2: None,
        pyro3: None,
        data_rate: Some(Spanned::new(64u16, Span::new(10, 12))),
        beacon: Some(Spanned::new(upper::TomlBool(false), Span::new(20, 25))),
        delay: None,
    };
    let mut config = one_state_config(vec![]);
    config.states.value[0].value.commands.push(cs(command));
    let diags = check_error(config);
    let d = diags
        .iter()
        .find(|d| d.message == "too many command actions")
        .expect("the conflict is reported");
    let labels: Vec<_> = d
        .spans
        .iter()
        .filter(|l| l.style == SpanStyle::Secondary)
        .collect();
    assert_eq!(labels.len(), 3);
    assert_eq!(labels[0].span, Span::new(10, 12));
    assert_eq!(labels[1].span, Span::new(20, 25));
    assert_eq!(labels[2].span, Span::new(30, 34));
}

#[test]
fn command_delay_defaults_to_zero() {
    let command = upper::Command {
        pyro1: Some(cs(upper::TomlBool(true))),
        pyro2: None,
        pyro3: None,
        data_rate: None,
        beacon: None,
        delay: None,
    };
    let mut config = one_state_config(vec![]);
    config.states.value[0].value.commands.push(cs(command));
    let mut context = testing();
    let cfg = lower::verify(config, &mut context).unwrap();
    assert!(context.end_phase().is_ok());
    assert_eq!(
        cfg.states[0].commands[0],
        index::Command::new(CommandObject::Pyro1(true), Seconds(f32_bits(0.0)))
    );
}

//! End-to-end tests: document model in, bytes and diagnostics out, and the
//! byte format itself.

use nova_verifier::encode;
use nova_verifier::error::{Session, Span, Spanned};
use nova_verifier::index::{
    self, CheckData, CommandObject, FloatBits, FloatCondition, NativeFlagCondition, Seconds,
    StateIndex, StateTransition,
};
use nova_verifier::upper;
use nova_verifier::verify_inner;

fn cs<T>(value: T) -> Spanned<T> {
    Spanned::new(value, Span::dummy())
}

fn f32_bits(v: f32) -> FloatBits {
    FloatBits(v.to_bits())
}

/// The document of the first worked example: one state, one altitude
/// check, no explicit default.
fn example_one() -> upper::ConfigFile {
    upper::ConfigFile {
        default_state: None,
        states: cs(vec![cs(upper::State {
            name: cs("PowerOn".to_string()),
            timeout: None,
            checks: vec![cs(upper::Check {
                name: cs("Takeoff".to_string()),
                check: cs("altitude".to_string()),
                transition: None,
                abort: None,
                greater_than: Some(cs(f32_bits(100.0))),
                upper_bound: None,
                lower_bound: None,
                flag: None,
            })],
            commands: vec![],
        })]),
    }
}

fn run(parsed: Result<upper::ConfigFile, upper::ParseError>) -> Result<
    (Vec<u8>, Vec<nova_verifier::error::Diagnostic>),
    Vec<nova_verifier::error::Diagnostic>,
> {
    verify_inner(
        Session::new(),
        Vec::new(),
        String::from("<anonymous>"),
        parsed,
    )
}

#[test]
fn pipeline_example_one_succeeds() {
    let (bytes, diags) = run(Ok(example_one())).expect("a valid document compiles");
    assert!(diags.is_empty());

    // default index 0; one state; one check: altitude, greater-than,
    // no transition; no commands; no timeout.
    let expected: Vec<u8> = vec![
        0, // default state index
        1, // one state
        1, // one check
        1, // check data: altitude
        0, // condition: greater-than
        100.0f32.to_bits().to_le_bytes()[0],
        100.0f32.to_bits().to_le_bytes()[1],
        100.0f32.to_bits().to_le_bytes()[2],
        100.0f32.to_bits().to_le_bytes()[3],
        0, // no transition
        0, // no commands
        0, // no timeout
    ];
    assert_eq!(bytes, expected);
}

#[test]
fn pipeline_dangling_default_fails_naming_the_string() {
    let mut config = example_one();
    config.default_state = Some(cs("DoesNotExist".to_string()));
    let diags = run(Ok(config)).expect_err("a dangling default fails");
    assert!(diags
        .iter()
        .any(|d| d.message.contains("DoesNotExist")));
    assert!(diags
        .iter()
        .any(|d| d.message == "state not found `DoesNotExist`"));
}

#[test]
fn pipeline_parse_failure_yields_no_bytes() {
    let failure = upper::ParseError {
        row: 0,
        col: 0,
        message: "unexpected end of input".to_string(),
    };
    let diags = run(Err(failure)).expect_err("a parse failure fails the pipeline");
    assert_eq!(diags.len(), 1);
    assert_eq!(diags[0].message, "failed to parse config file");
}

#[test]
fn encoding_is_deterministic() {
    let mut context = Session::new()
        .add_file(Vec::new(), String::from("<anonymous>"))
        .unwrap();
    let lowered = nova_verifier::lower::verify(example_one(), &mut context).unwrap();
    assert!(context.end_phase().is_ok());

    let first = encode::encode(&lowered);
    let second = encode::encode(&lowered);
    assert_eq!(first, second);

    // Running the whole pipeline again also reproduces the bytes.
    let (bytes, _) = run(Ok(example_one())).unwrap();
    assert_eq!(first, bytes);
}

#[test]
fn encode_covers_every_payload_shape() {
    let config = index::ConfigFile {
        default_state: StateIndex::new(1).unwrap(),
        states: vec![
            index::State {
                checks: vec![
                    index::Check::new(
                        CheckData::ApogeeFlag(NativeFlagCondition(true)),
                        Some(StateTransition::Transition(StateIndex::new(1).unwrap())),
                    ),
                    index::Check::new(
                        CheckData::Altitude(FloatCondition::Between {
                            upper_bound: f32_bits(1.5),
                            lower_bound: f32_bits(0.5),
                        }),
                        Some(StateTransition::Abort(StateIndex::new(0).unwrap())),
                    ),
                ],
                commands: vec![
                    index::Command::new(CommandObject::DataRate(512), Seconds(f32_bits(2.0))),
                    index::Command::new(CommandObject::Beacon(true), Seconds(f32_bits(0.0))),
                ],
                timeout: None,
            },
            index::State {
                checks: vec![index::Check::new(
                    CheckData::Pyro3Continuity(index::PyroContinuityCondition(false)),
                    None,
                )],
                commands: vec![],
                timeout: Some(index::Timeout {
                    seconds: Seconds(f32_bits(3.0)),
                    transition: StateIndex::new(0).unwrap(),
                }),
            },
        ],
    };

    let bytes = encode::encode(&config);

    let mut expected: Vec<u8> = vec![1, 2];
    // first state: two checks
    expected.push(2);
    expected.extend([0, 1]); // apogee flag, set
    expected.extend([1, 0, 1]); // transition to state 1
    expected.push(1); // altitude
    expected.push(2); // between
    expected.extend(1.5f32.to_bits().to_le_bytes());
    expected.extend(0.5f32.to_bits().to_le_bytes());
    expected.extend([1, 1, 0]); // abort to state 0
    // two commands
    expected.push(2);
    expected.push(3); // data rate
    expected.extend(512u16.to_le_bytes());
    expected.extend(2.0f32.to_bits().to_le_bytes());
    expected.push(4); // beacon
    expected.push(1);
    expected.extend(0.0f32.to_bits().to_le_bytes());
    expected.push(0); // no timeout
    // second state: one check, no commands, a timeout
    expected.push(1);
    expected.extend([4, 0]); // pyro3 continuity, unset
    expected.push(0); // no transition
    expected.push(0); // no commands
    expected.push(1); // timeout present
    expected.extend(3.0f32.to_bits().to_le_bytes());
    expected.push(0); // timeout target

    assert_eq!(bytes, expected);
}

#[test]
fn a_session_opened_with_an_error_never_reaches_encoding() {
    let mut session = Session::new();
    session.add_diagnostic(nova_verifier::error::Diagnostic {
        level: nova_verifier::error::Level::Error,
        message: "could not open the file".to_string(),
        spans: vec![],
    });
    let diags = verify_inner(
        session,
        Vec::new(),
        String::from("<anonymous>"),
        Ok(example_one()),
    )
    .expect_err("the pre-existing error fails the first phase");
    assert_eq!(diags.len(), 1);
    assert_eq!(diags[0].message, "could not open the file");
}

#[test]
fn later_declaration_of_a_duplicated_name_shadows_the_earlier() {
    let mut config = example_one();
    let second = cs(upper::State {
        name: cs("PowerOn".to_string()),
        timeout: None,
        checks: vec![],
        commands: vec![],
    });
    config.states.value.push(second);
    config.default_state = Some(cs("PowerOn".to_string()));

    let mut context = Session::new()
        .add_file(Vec::new(), String::from("<anonymous>"))
        .unwrap();
    let lowered = nova_verifier::lower::verify(config, &mut context).unwrap();
    assert!(context.end_phase().is_ok());
    assert_eq!(lowered.default_state, StateIndex::new(1).unwrap());
}

#[test]
fn state_index_is_minted_only_in_range() {
    assert!(StateIndex::new(0).is_some());
    let last = StateIndex::new((index::MAX_STATES - 1) as u8).unwrap();
    assert_eq!(last.get(), (index::MAX_STATES - 1) as u8);
    assert!(StateIndex::new(index::MAX_STATES as u8).is_none());
    assert!(StateIndex::new(255).is_none());
}

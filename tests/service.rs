use ergolib::{
    handle1337, handle42, respond, translate, Counter, Error, Operation, ServiceError,
    WireResponse,
};

fn wire(status: u16, body: &str) -> WireResponse {
    WireResponse { status, body: body.to_string() }
}

#[test]
fn count_fourteen_on_42_is_rejected() {
    let r = respond(Operation::Op42, Ok(Counter { count: 14 }));
    assert_eq!(r, Err(wire(500, "The server doesn't like this number")));
}

#[test]
fn count_one_on_42_is_division_by_zero() {
    let r = respond(Operation::Op42, Ok(Counter { count: 1 }));
    assert_eq!(r, Err(wire(422, "count can't be zero")));
}

#[test]
fn count_seven_on_42_succeeds() {
    let r = respond(Operation::Op42, Ok(Counter { count: 7 }));
    assert_eq!(r, Ok(Counter { count: 7 }));
}

#[test]
fn count_twenty_four_on_1337_is_rejected() {
    let r = respond(Operation::Op1337, Ok(Counter { count: 24 }));
    assert_eq!(r, Err(wire(500, "The server doesn't like this number")));
}

#[test]
fn count_fourteen_on_1337_succeeds() {
    // 14 - 1 = 13 is refused only by the other operation.
    let r = respond(Operation::Op1337, Ok(Counter { count: 14 }));
    assert_eq!(r, Ok(Counter { count: 102 }));
}

#[test]
fn count_zero_is_division_by_zero_not_wrapped() {
    assert_eq!(handle42(Counter { count: 0 }), Err(ServiceError::DivisionByZero));
    assert_eq!(handle1337(Counter { count: 0 }), Err(ServiceError::DivisionByZero));
    let r = respond(Operation::Op1337, Ok(Counter { count: 0 }));
    assert_eq!(r, Err(wire(422, "count can't be zero")));
}

#[test]
fn quotient_of_decremented_count() {
    for n in 2..200usize {
        let expected42 = if n - 1 == 13 { None } else { Some(42 / (n - 1)) };
        match expected42 {
            Some(q) => assert_eq!(handle42(Counter { count: n }), Ok(Counter { count: q })),
            None => assert_eq!(handle42(Counter { count: n }), Err(ServiceError::DontLikeIt)),
        }
        let expected1337 = if n - 1 == 23 { None } else { Some(1337 / (n - 1)) };
        match expected1337 {
            Some(q) => assert_eq!(handle1337(Counter { count: n }), Ok(Counter { count: q })),
            None => assert_eq!(handle1337(Counter { count: n }), Err(ServiceError::DontLikeIt)),
        }
    }
}

#[test]
fn largest_count_is_handled() {
    assert_eq!(handle42(Counter { count: usize::MAX }), Ok(Counter { count: 0 }));
    assert_eq!(handle1337(Counter { count: usize::MAX }), Ok(Counter { count: 0 }));
}

#[test]
fn malformed_body_is_422_with_diagnostic() {
    let decoded = serde_yaml::from_str::<std::collections::BTreeMap<String, usize>>("count: [1");
    let diagnostic = decoded.unwrap_err().to_string();
    assert!(!diagnostic.is_empty());
    for op in [Operation::Op42, Operation::Op1337] {
        let r = respond(op, Err(ServiceError::Decode(diagnostic.clone())));
        let w = r.unwrap_err();
        assert_eq!(w.status, 422);
        assert!(w.body.starts_with("YAML error: "));
        assert!(w.body.contains(&diagnostic));
    }
}

#[test]
fn transport_failure_passes_status_through() {
    let e = ServiceError::Transport { status: Some(408), message: "timed out".to_string() };
    assert_eq!(translate(&e), wire(408, "timed out"));
    let e = ServiceError::Transport { status: None, message: "connection reset".to_string() };
    assert_eq!(translate(&e), wire(500, "connection reset"));
}

#[test]
fn translate_covers_every_kind() {
    assert_eq!(translate(&ServiceError::DivisionByZero), wire(422, "count can't be zero"));
    assert_eq!(
        translate(&ServiceError::DontLikeIt),
        wire(500, "The server doesn't like this number")
    );
    assert_eq!(
        translate(&ServiceError::Decode("bad".to_string())),
        wire(422, "YAML error: bad")
    );
}

#[test]
fn domain_errors_convert() {
    assert_eq!(ServiceError::from(Error::DivisionByZero), ServiceError::DivisionByZero);
    assert_eq!(ServiceError::from(Error::DontLikeIt), ServiceError::DontLikeIt);
}

#[test]
fn identical_input_identical_output() {
    let inputs = [
        Ok(Counter { count: 7 }),
        Ok(Counter { count: 14 }),
        Ok(Counter { count: 1 }),
        Err(ServiceError::Decode("oops".to_string())),
    ];
    for op in [Operation::Op42, Operation::Op1337] {
        for input in inputs.iter() {
            assert_eq!(respond(op, input.clone()), respond(op, input.clone()));
        }
    }
}

#[test]
fn failure_bodies_are_non_empty() {
    let inputs = [
        Ok(Counter { count: 0 }),
        Ok(Counter { count: 1 }),
        Ok(Counter { count: 14 }),
        Ok(Counter { count: 24 }),
        Err(ServiceError::Decode(String::new())),
        Err(ServiceError::Transport { status: Some(400), message: "bad".to_string() }),
    ];
    for op in [Operation::Op42, Operation::Op1337] {
        for input in inputs.iter() {
            if let Err(w) = respond(op, input.clone()) {
                assert!(w.status == 200 || !w.body.is_empty());
            }
        }
    }
}

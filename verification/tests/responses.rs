use webcalc::dispatch::operand_error_reply;
use webcalc::dispatch::plan_request;
use webcalc::dispatch::success_reply;
use webcalc::dispatch::error_reply;
use webcalc::dispatch::NumVerdict;
use webcalc::dispatch::Outcome;
use webcalc::ops::OpType;
use webcalc::route::check_number_format;

/// The floating-point half of operand validation, as the embedding
/// program performs it: parse the token and check the accepted range.
fn verdict(tok: &[u8]) -> NumVerdict {
    if !check_number_format(tok) {
        return NumVerdict::BadFormat;
    }
    let s = std::str::from_utf8(tok).unwrap();
    let x: f32 = match serde_json::from_str(s) {
        Ok(x) => x,
        Err(_) => return NumVerdict::BadFormat,
    };
    if x < -1e9 {
        NumVerdict::TooSmall
    } else if x > 1e9 {
        NumVerdict::TooLarge
    } else {
        NumVerdict::Good
    }
}

/// One whole request, library decisions plus the floating-point work.
fn handle(path: &str) -> (u16, String) {
    match plan_request(path.as_bytes()) {
        Outcome::Finished(r) => (r.code, String::from_utf8(r.body).unwrap()),
        Outcome::Compute { op, first, second } => {
            let fv = verdict(&first);
            let sv = verdict(&second);
            if let Some(r) = operand_error_reply(fv, sv) {
                return (r.code, String::from_utf8(r.body).unwrap());
            }
            let a: f32 = serde_json::from_str(std::str::from_utf8(&first).unwrap()).unwrap();
            let b: f32 = serde_json::from_str(std::str::from_utf8(&second).unwrap()).unwrap();
            let v = match op {
                OpType::Plus => a + b,
                OpType::Minus => a - b,
                OpType::Div => a / b,
                OpType::Mul => a * b,
            };
            let text = serde_json::to_string(&v).unwrap();
            let r = success_reply(text.as_bytes());
            (r.code, String::from_utf8(r.body).unwrap())
        }
    }
}

#[test]
fn plus_two_three() {
    assert_eq!(handle("/plus/2/3"), (200, r#"{"status":0,"result":5.0}"#.to_string()));
}

#[test]
fn division_by_zero_renders_null() {
    // Division is not special-cased: it follows IEEE-754 semantics, and a
    // non-finite result is rendered the way serde_json renders it, as null.
    assert_eq!(handle("/div/10/0"), (200, r#"{"status":0,"result":null}"#.to_string()));
}

#[test]
fn case_insensitive_method_name() {
    assert_eq!(handle("/Plus/-1/1"), (200, r#"{"status":0,"result":0.0}"#.to_string()));
}

#[test]
fn unknown_method_lists_registry() {
    assert_eq!(
        handle("/foo/1/2"),
        (
            405,
            r#"{"status":-1,"error_message":"Invalid method. Possible methods: [\"plus\", \"minus\", \"div\", \"mul\"]","error_code":405}"#.to_string()
        )
    );
}

#[test]
fn unknown_method_code_in_body() {
    for p in ["/foo/1/2", "/PLUSS/1/2", "/Add/3/4"].iter() {
        let (code, body) = handle(p);
        assert_eq!(code, 405);
        let v: serde_json::Value = serde_json::from_str(&body).unwrap();
        assert_eq!(v["error_code"], serde_json::Value::from(405));
        assert_eq!(v["status"], serde_json::Value::from(-1));
    }
}

#[test]
fn unmatched_paths_are_not_found() {
    let expected = r#"{"status":-1,"error_message":"Invalid url","error_code":404}"#;
    for p in ["/plus/1", "/plus/1/2/3", "/", "", "/plus/abc/2"].iter() {
        assert_eq!(handle(p), (404, expected.to_string()), "{}", p);
    }
}

#[test]
fn first_operand_too_large() {
    assert_eq!(
        handle("/plus/2e9/1"),
        (
            405,
            r#"{"status":-1,"error_message":"Invalid first argument: Number should not be greater than 1e9","error_code":405}"#.to_string()
        )
    );
}

#[test]
fn second_operand_too_small() {
    assert_eq!(
        handle("/mul/1/-2e9"),
        (
            405,
            r#"{"status":-1,"error_message":"Invalid second argument: Number should not be less than -1e9","error_code":405}"#.to_string()
        )
    );
}

#[test]
fn first_failure_takes_precedence() {
    assert_eq!(
        handle("/div/2e9/-2e9"),
        (
            405,
            r#"{"status":-1,"error_message":"Invalid first argument: Number should not be greater than 1e9","error_code":405}"#.to_string()
        )
    );
}

#[test]
fn range_bounds_are_inclusive() {
    for (p, expected) in [("/plus/1e9/0", 1e9f32), ("/plus/-1e9/0", -1e9f32)].iter() {
        let (code, body) = handle(p);
        assert_eq!(code, 200, "{}", p);
        let v: serde_json::Value = serde_json::from_str(&body).unwrap();
        assert_eq!(v["result"].as_f64().unwrap() as f32, *expected, "{}", p);
    }
}

#[test]
fn malformed_operand_verdicts_name_the_operand() {
    let r = operand_error_reply(NumVerdict::BadFormat, NumVerdict::Good).unwrap();
    assert_eq!(r.code, 405);
    assert_eq!(
        String::from_utf8(r.body).unwrap(),
        r#"{"status":-1,"error_message":"Invalid first argument: Invalid number format. Should be a JSON number","error_code":405}"#
    );

    let r = operand_error_reply(NumVerdict::Good, NumVerdict::BadFormat).unwrap();
    assert_eq!(r.code, 405);
    assert_eq!(
        String::from_utf8(r.body).unwrap(),
        r#"{"status":-1,"error_message":"Invalid second argument: Invalid number format. Should be a JSON number","error_code":405}"#
    );

    assert!(operand_error_reply(NumVerdict::Good, NumVerdict::Good).is_none());
}

#[test]
fn exact_arithmetic_results() {
    assert_eq!(handle("/minus/7.5/2.25"), (200, r#"{"status":0,"result":5.25}"#.to_string()));
    assert_eq!(handle("/mul/3/4"), (200, r#"{"status":0,"result":12.0}"#.to_string()));
    let (code, body) = handle("/div/1/3");
    assert_eq!(code, 200);
    let v: serde_json::Value = serde_json::from_str(&body).unwrap();
    let got = v["result"].as_f64().unwrap() as f32;
    assert_eq!(got, 1.0f32 / 3.0f32);
}

#[test]
fn repeated_requests_are_identical() {
    for p in ["/plus/2/3", "/foo/1/2", "/plus/1", "/div/10/0", "/minus/2e9/1"].iter() {
        assert_eq!(handle(p), handle(p), "{}", p);
    }
}

#[test]
fn success_reply_frames_result() {
    let r = success_reply(b"5.0");
    assert_eq!(r.code, 200);
    assert_eq!(String::from_utf8(r.body).unwrap(), r#"{"status":0,"result":5.0}"#);
}

#[test]
fn error_reply_carries_its_code() {
    let r = error_reply(b"something went wrong", 500);
    assert_eq!(r.code, 500);
    assert_eq!(
        String::from_utf8(r.body).unwrap(),
        r#"{"status":-1,"error_message":"something went wrong","error_code":500}"#
    );
}

#[test]
fn error_message_is_json_escaped() {
    let msg = "a \"quoted\" name, a back\\slash, a\nnewline, a\ttab, and \u{1} control";
    let r = error_reply(msg.as_bytes(), 405);
    let body = String::from_utf8(r.body).unwrap();
    let v: serde_json::Value = serde_json::from_str(&body).unwrap();
    assert_eq!(v["error_message"].as_str().unwrap(), msg);
    assert!(body.contains(r#"\"quoted\""#));
    assert!(body.contains(r#"back\\slash"#));
    assert!(body.contains(r#"a\nnewline"#));
    assert!(body.contains(r#"a\ttab"#));
    assert!(body.contains(r#"\u0001 control"#));
}

#[test]
fn plan_hands_on_operation_and_tokens() {
    match plan_request(b"/MUL/1.5/-2e3") {
        Outcome::Compute { op, first, second } => {
            assert_eq!(op, OpType::Mul);
            assert_eq!(first, b"1.5".to_vec());
            assert_eq!(second, b"-2e3".to_vec());
        }
        Outcome::Finished(_) => panic!("expected a computation"),
    }
}

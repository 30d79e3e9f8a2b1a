use stasis::outgoing::{
    call, call_message, call_return, create_module, register_callback, register_callback_message,
    register_fn, register_fn_message, register_stasis_callback, return_json, u32_to_decimal,
    CallReturn, Handshake, Outgoing, CALL_FN, CREATE_MODULE, REGISTER_CB, REGISTER_FN,
    REGISTER_STASIS_CB,
};

fn payload(op: u32, json: &str) -> Outgoing {
    Outgoing::Payload { op, json: json.to_string() }
}

#[test]
fn opcodes_are_fixed() {
    assert_eq!(REGISTER_STASIS_CB, 0);
    assert_eq!(CREATE_MODULE, 1);
    assert_eq!(REGISTER_FN, 2);
    assert_eq!(REGISTER_CB, 3);
    assert_eq!(CALL_FN, 4);
}

#[test]
fn decimal_of_numbers() {
    assert_eq!(u32_to_decimal(0), "0");
    assert_eq!(u32_to_decimal(7), "7");
    assert_eq!(u32_to_decimal(10), "10");
    assert_eq!(u32_to_decimal(1009), "1009");
    assert_eq!(u32_to_decimal(4_294_967_295), "4294967295");
}

#[test]
fn decimal_agrees_with_std() {
    for n in [0u32, 9, 10, 99, 100, 12_345, 1_000_000, 2_147_483_648, u32::MAX] {
        assert_eq!(u32_to_decimal(n), n.to_string());
    }
}

#[test]
fn decimal_agrees_with_json_numbers() {
    for n in [0u32, 5, 42, 1_000, 65_536, 999_999_999, u32::MAX] {
        assert_eq!(u32_to_decimal(n), serde_json::to_string(&n).unwrap());
    }
}

#[test]
fn payload_reads_back_as_its_fields() {
    let mut fields = serde_json::Map::new();
    fields.insert("id".to_string(), serde_json::Value::from(9u32));
    fields.insert("name".to_string(), serde_json::Value::from("f\\"));
    fields.insert("code".to_string(), serde_json::Value::from("x\ty"));
    let message = register_fn(9, "f\\", "x\ty").unwrap();
    let json = match message {
        Outgoing::Payload { json, .. } => json,
        Outgoing::Scalar { .. } => panic!("a payload was expected"),
    };
    let value: serde_json::Value = serde_json::from_str(&json).unwrap();
    assert_eq!(value, serde_json::Value::Object(fields));
}

#[test]
fn register_fn_payload() {
    assert_eq!(
        register_fn(3, "random", "function(){ return Math.random(); }"),
        Ok(payload(
            2,
            "{\"id\":3,\"name\":\"random\",\"code\":\"function(){ return Math.random(); }\"}"
        ))
    );
}

#[test]
fn register_fn_escapes_its_strings() {
    assert_eq!(
        register_fn(0, "say \"hi\"", "a\nb\\c"),
        Ok(payload(2, "{\"id\":0,\"name\":\"say \\\"hi\\\"\",\"code\":\"a\\nb\\\\c\"}"))
    );
}

#[test]
fn register_fn_payload_is_json() {
    let code = "\n  function(s) {\n    window.alert(s);\n  }\n";
    let message = register_fn(12, "alert", code).unwrap();
    let json = match message {
        Outgoing::Payload { op, json } => {
            assert_eq!(op, REGISTER_FN);
            json
        }
        Outgoing::Scalar { .. } => panic!("a payload was expected"),
    };
    let value: serde_json::Value = serde_json::from_str(&json).unwrap();
    assert_eq!(value["id"].as_u64(), Some(12));
    assert_eq!(value["name"].as_str(), Some("alert"));
    assert_eq!(value["code"].as_str(), Some(code));
}

#[test]
fn register_callback_payload() {
    assert_eq!(
        register_callback(1, "done", 0),
        Ok(payload(3, "{\"module\":1,\"callback\":0,\"name\":\"done\"}"))
    );
    assert_eq!(
        register_callback(40, "on \"tick\"", 17),
        Ok(payload(3, "{\"module\":40,\"callback\":17,\"name\":\"on \\\"tick\\\"\"}"))
    );
}

#[test]
fn call_payload() {
    assert_eq!(
        call(5, "console.log", "\"Hello World!\""),
        Ok(payload(4, "{\"id\":5,\"name\":\"console.log\",\"args\":\"Hello World!\"}"))
    );
    assert_eq!(
        call(2, "setTimeout", "[1,1000]"),
        Ok(payload(4, "{\"id\":2,\"name\":\"setTimeout\",\"args\":[1,1000]}"))
    );
    assert_eq!(call(2, "random", "[]"), Ok(payload(4, "{\"id\":2,\"name\":\"random\",\"args\":[]}")));
}

#[test]
fn messages_frame_what_they_are_given() {
    assert_eq!(register_fn_message(1, "N", "C"), payload(2, "{\"id\":1,\"name\":N,\"code\":C}"));
    assert_eq!(
        register_callback_message(1, 2, "N"),
        payload(3, "{\"module\":1,\"callback\":2,\"name\":N}")
    );
    assert_eq!(call_message(1, "N", "A"), payload(4, "{\"id\":1,\"name\":N,\"args\":A}"));
}

#[test]
fn first_module_announces_the_dispatcher() {
    let mut latch = Handshake::new();
    assert!(!latch.is_registered());
    let calls = create_module(&mut latch, 0x400);
    assert_eq!(
        calls,
        vec![
            Outgoing::Scalar { op: 0, a: 0x400, b: 0 },
            Outgoing::Scalar { op: 1, a: 0, b: 0 },
        ]
    );
    assert!(latch.is_registered());
}

#[test]
fn later_modules_only_create() {
    let mut latch = Handshake::new();
    create_module(&mut latch, 0x400);
    for _ in 0..3 {
        let calls = create_module(&mut latch, 0x400);
        assert_eq!(calls, vec![Outgoing::Scalar { op: 1, a: 0, b: 0 }]);
        assert!(latch.is_registered());
    }
}

#[test]
fn dispatcher_announcement() {
    assert_eq!(register_stasis_callback(77), Outgoing::Scalar { op: 0, a: 77, b: 0 });
}

#[test]
fn null_return_is_null() {
    assert_eq!(call_return(0), CallReturn::Null);
    assert_eq!(return_json(None), "null");
}

#[test]
fn other_return_is_a_header() {
    assert_eq!(call_return(8), CallReturn::Header { addr: 8 });
    assert_eq!(call_return(u32::MAX), CallReturn::Header { addr: u32::MAX });
    assert_eq!(return_json(Some("0.25".to_string())), "0.25");
    assert_eq!(return_json(Some("\"ABC\"".to_string())), "\"ABC\"");
}

#[test]
fn round_trip_through_an_echoing_host() {
    let value = vec![1u32, 2, 3];
    let args = serde_json::to_string(&value).unwrap();
    let message = call(1, "echo", &args).unwrap();
    let sent = match message {
        Outgoing::Payload { json, .. } => json,
        Outgoing::Scalar { .. } => panic!("a payload was expected"),
    };
    let seen: serde_json::Value = serde_json::from_str(&sent).unwrap();
    let echoed = serde_json::to_string(&seen["args"]).unwrap();
    let back: Vec<u32> = serde_json::from_str(&return_json(Some(echoed))).unwrap();
    assert_eq!(back, value);
}

#[test]
fn requests_are_always_made() {
    for text in ["", "plain", "\"", "\\", "\u{0}", "\u{1f}", "\u{7f}", "caf\u{e9} \u{1F600}", "a\tb\r\n"] {
        assert!(register_fn(1, text, text).is_ok());
        assert!(register_callback(1, text, 0).is_ok());
        assert!(call(1, text, "null").is_ok());
    }
}

#[test]
fn control_characters_are_escaped() {
    assert_eq!(
        register_callback(0, "\u{8}\t\n\u{c}\r", 0),
        Ok(payload(3, "{\"module\":0,\"callback\":0,\"name\":\"\\b\\t\\n\\f\\r\"}"))
    );
    assert_eq!(
        register_callback(0, "\u{0}\u{1}\u{b}\u{e}\u{1a}\u{1f}", 0),
        Ok(payload(
            3,
            "{\"module\":0,\"callback\":0,\"name\":\"\\u0000\\u0001\\u000b\\u000e\\u001a\\u001f\"}"
        ))
    );
}

#[test]
fn other_characters_stand_for_themselves() {
    assert_eq!(
        register_callback(0, " /\u{7f}\u{80}\u{e9}\u{2028}\u{1F600}'", 0),
        Ok(payload(
            3,
            "{\"module\":0,\"callback\":0,\"name\":\" /\u{7f}\u{80}\u{e9}\u{2028}\u{1F600}'\"}"
        ))
    );
}

#[test]
fn empty_string_is_two_quotes() {
    assert_eq!(call(0, "", "[]"), Ok(payload(4, "{\"id\":0,\"name\":\"\",\"args\":[]}")));
}

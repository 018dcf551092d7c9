use aleo_acc::errors::{
    identity_error_to_rpc, protocol_error_to_rpc, to_jsonrpc_error, to_jsonrpc_result,
    EngineFailure, IdentityError, ProtocolError, CODE_INVALID_PARAMS, CODE_METHOD_NOT_FOUND,
    CODE_SERVER_ERROR,
};
use aleo_acc::identity::IdentityStore;
use aleo_acc::rpc::{call_end_line, call_start_line, Action, EngineCall, Param, Request, RpcImpl};

fn gateway() -> RpcImpl {
    RpcImpl { version: String::from("1.2.3") }
}

fn store_with_identity() -> IdentityStore {
    let mut s = vec![0u8; 32];
    s[31] = 1;
    IdentityStore::load(Some(s), None).unwrap()
}

fn req(method: &str, params: Vec<Param>) -> Request {
    Request { method: String::from(method), params }
}

/// A stub engine that must never be reached: panics if asked to run a call.
fn engine_stub_never_called(action: &Action) {
    if let Action::CallEngine(_) = action {
        panic!("request reached the engine before validation finished");
    }
}

#[test]
fn unknown_method_is_method_not_found() {
    let gw = gateway();
    let store = store_with_identity();
    let r = gw.dispatch(&store, req("no_such_method", vec![]));
    engine_stub_never_called(&r);
    match r {
        Action::RespondError(e) => {
            assert_eq!(e.code, CODE_METHOD_NOT_FOUND);
            assert_eq!(e.message, "Method not found");
        },
        _ => panic!("expected an error verdict"),
    }
}

#[test]
fn missing_required_parameter_is_invalid_params() {
    let gw = gateway();
    let store = store_with_identity();
    // execute without program_id, function or inputs.
    let r = gw.dispatch(&store, req("execute", vec![Param::Str(String::from("key"))]));
    engine_stub_never_called(&r);
    match r {
        Action::RespondError(e) => assert_eq!(e.code, CODE_INVALID_PARAMS),
        _ => panic!("expected an error verdict"),
    }
}

#[test]
fn wrong_parameter_kind_is_invalid_params() {
    let gw = gateway();
    let store = store_with_identity();
    let r = gw.dispatch(
        &store,
        req(
            "execute",
            vec![
                Param::Str(String::from("key")),
                Param::U64(7),
                Param::Str(String::from("f")),
                Param::StrList(vec![]),
            ],
        ),
    );
    engine_stub_never_called(&r);
    match r {
        Action::RespondError(e) => assert_eq!(e.code, CODE_INVALID_PARAMS),
        _ => panic!("expected an error verdict"),
    }
}

#[test]
fn empty_identifier_is_invalid_params() {
    let gw = gateway();
    let store = store_with_identity();
    let r = gw.dispatch(
        &store,
        req("split", vec![
            Param::Str(String::new()),
            Param::Str(String::from("record1")),
            Param::U64(5),
        ]),
    );
    engine_stub_never_called(&r);
    match r {
        Action::RespondError(e) => assert_eq!(e.code, CODE_INVALID_PARAMS),
        _ => panic!("expected an error verdict"),
    }
}

#[test]
fn too_many_parameters_is_invalid_params() {
    let gw = gateway();
    let store = store_with_identity();
    let r = gw.dispatch(
        &store,
        req("decrypt_recordsv2", vec![
            Param::Str(String::from("view-key")),
            Param::StrList(vec![String::from("r")]),
            Param::Str(String::from("extra")),
        ]),
    );
    engine_stub_never_called(&r);
    match r {
        Action::RespondError(e) => assert_eq!(e.code, CODE_INVALID_PARAMS),
        _ => panic!("expected an error verdict"),
    }
}

#[test]
fn valid_deploy_shapes_the_exact_engine_call() {
    let gw = gateway();
    let store = store_with_identity();
    let r = gw.dispatch(
        &store,
        req(
            "deploy",
            vec![
                Param::Str(String::from("key")),
                Param::Str(String::from("program prog.aleo;")),
                Param::Absent,
                Param::StrMap(vec![(String::from("dep.aleo"), String::from("program dep;"))]),
                Param::U64(1000),
            ],
        ),
    );
    match r {
        Action::CallEngine(EngineCall::Deploy {
            private_key,
            program,
            fee_record,
            imports,
            priority_fee_in_microcredits,
            query,
        }) => {
            assert_eq!(private_key, "key");
            assert_eq!(program, "program prog.aleo;");
            assert_eq!(fee_record, None);
            assert_eq!(
                imports,
                Some(vec![(String::from("dep.aleo"), String::from("program dep;"))])
            );
            assert_eq!(priority_fee_in_microcredits, Some(1000));
            assert_eq!(query, None);
        },
        _ => panic!("expected an engine call"),
    }
}

#[test]
fn valid_transfer_shapes_the_exact_engine_call() {
    let gw = gateway();
    let store = store_with_identity();
    let r = gw.dispatch(
        &store,
        req(
            "transfer",
            vec![
                Param::Str(String::from("key")),
                Param::Str(String::from("aleo1recipient")),
                Param::U64(42),
                Param::Str(String::from("transfer_public")),
                Param::Absent,
                Param::Absent,
                Param::U64(3),
                Param::Str(String::from("https://node.example")),
            ],
        ),
    );
    match r {
        Action::CallEngine(EngineCall::Transfer { recipient, amount, fee, query, .. }) => {
            assert_eq!(recipient, "aleo1recipient");
            assert_eq!(amount, 42);
            assert_eq!(fee, Some(3));
            assert_eq!(query, Some(String::from("https://node.example")));
        },
        _ => panic!("expected an engine call"),
    }
}

#[test]
fn engine_failure_message_is_surfaced_verbatim() {
    let gw = gateway();
    let store = store_with_identity();
    // A valid execute request reaches the engine...
    let r = gw.dispatch(
        &store,
        req(
            "execute",
            vec![
                Param::Str(String::from("key")),
                Param::Str(String::from("prog.aleo")),
                Param::Str(String::from("mint")),
                Param::StrList(vec![String::from("1u64")]),
            ],
        ),
    );
    assert!(matches!(r, Action::CallEngine(EngineCall::Execute { .. })));
    // ...and the stubbed engine fails: the message comes back exactly.
    let outcome: Result<String, EngineFailure> = Err(EngineFailure {
        message: String::from("insufficient balance"),
        detail: String::from("Error { kind: Balance }"),
    });
    let resp = to_jsonrpc_result(outcome);
    match resp {
        Err(e) => {
            assert_eq!(e.code, CODE_SERVER_ERROR);
            assert_eq!(e.message, "insufficient balance");
            assert_eq!(e.data, Some(String::from("Error { kind: Balance }")));
        },
        Ok(_) => panic!("expected a protocol error"),
    }
}

#[test]
fn engine_success_passes_through() {
    let resp = to_jsonrpc_result(Ok(String::from("at1transaction")));
    assert_eq!(resp.unwrap(), "at1transaction");
}

#[test]
fn engine_list_results_pass_through() {
    let outcome: Result<Vec<String>, EngineFailure> =
        Ok(vec![String::from("record one"), String::from("record two")]);
    assert_eq!(to_jsonrpc_result(outcome).unwrap(), vec!["record one", "record two"]);
}

#[test]
fn engine_error_mapping_is_exact() {
    let e = to_jsonrpc_error(EngineFailure {
        message: String::from("m"),
        detail: String::from("d"),
    });
    assert_eq!(e.code, CODE_SERVER_ERROR);
    assert_eq!(e.message, "m");
    assert_eq!(e.data, Some(String::from("d")));
}

#[test]
fn every_registered_wire_name_is_known_to_dispatch() {
    let gw = gateway();
    let store = store_with_identity();
    let names = vec![
        "deploy",
        "execute",
        "transfer",
        "join",
        "split",
        "deployment_cost",
        "execution_costv2",
        "decrypt_recordsv2",
        "transaction_from_authorization",
        "deploy_from_authorization",
        "discovery",
        "update",
    ];
    for name in names {
        let r = gw.dispatch(&store, req(name, vec![]));
        if let Action::RespondError(e) = &r {
            assert_ne!(e.code, CODE_METHOD_NOT_FOUND, "{name} should be registered");
        }
    }
    // The registry is case-sensitive.
    let r = gw.dispatch(&store, req("Deploy", vec![]));
    match r {
        Action::RespondError(e) => assert_eq!(e.code, CODE_METHOD_NOT_FOUND),
        _ => panic!("expected an error verdict"),
    }
}

#[test]
fn engine_calls_are_logged_under_their_names() {
    let gw = gateway();
    let store = store_with_identity();
    let r = gw.dispatch(
        &store,
        req("split", vec![
            Param::Str(String::from("key")),
            Param::Str(String::from("record1")),
            Param::U64(5),
        ]),
    );
    let Action::CallEngine(call) = r else { panic!("expected an engine call") };
    assert_eq!(call.call_name(), "split");
    assert_eq!(call_start_line(call.call_name()), "executing method 'split'");
    assert_eq!(call_end_line(call.call_name(), 42), "method 'split' took 42 ms");
}

#[test]
fn protocol_errors_map_to_their_wire_shapes() {
    let e = protocol_error_to_rpc(ProtocolError::MethodNotFound);
    assert_eq!(e.code, CODE_METHOD_NOT_FOUND);
    assert_eq!(e.message, "Method not found");
    assert_eq!(e.data, None);
    let e = protocol_error_to_rpc(ProtocolError::InvalidParams);
    assert_eq!(e.code, CODE_INVALID_PARAMS);
    assert_eq!(e.message, "Invalid params");
    assert_eq!(e.data, None);
}

#[test]
fn identity_errors_map_to_server_errors() {
    let e = identity_error_to_rpc(IdentityError::Corrupt);
    assert_eq!(e.code, CODE_SERVER_ERROR);
    assert_eq!(e.message, "identity record is corrupt");
    let e = identity_error_to_rpc(IdentityError::IoFailure);
    assert_eq!(e.code, CODE_SERVER_ERROR);
    assert_eq!(e.message, "identity storage is inaccessible");
}

#[test]
fn discovery_succeeds_without_any_password() {
    let gw = gateway();
    // Password-protected record, nothing supplied this session.
    let mut s = vec![0u8; 32];
    s[31] = 1;
    let store = IdentityStore::load(Some(s), Some(String::from("pw"))).unwrap();
    let d = gw.discovery(&store).unwrap();
    assert_eq!(d.version, "1.2.3");
    assert_eq!(d.pubkey, store.fingerprint());
    assert_eq!(
        d.features,
        vec![
            "deploy",
            "execute",
            "transfer",
            "join",
            "split",
            "deployment_cost",
            "execution_costv2",
            "decrypt_recordsv2",
            "transaction_from_authorization",
            "deploy_from_authorization",
            "update",
        ]
    );
}

#[test]
fn discovery_without_identity_fails() {
    let gw = gateway();
    let store = IdentityStore::new();
    let r = gw.discovery(&store);
    match r {
        Err(e) => assert_eq!(e.code, CODE_SERVER_ERROR),
        Ok(_) => panic!("expected an error"),
    }
}

#[test]
fn dispatched_discovery_answers_immediately() {
    let gw = gateway();
    let store = store_with_identity();
    let r = gw.dispatch(&store, req("discovery", vec![]));
    match r {
        Action::RespondDiscovery(d) => assert_eq!(d.pubkey, store.fingerprint()),
        _ => panic!("expected a discovery response"),
    }
}

#[test]
fn update_always_succeeds_and_prompts_only_on_version_mismatch() {
    let gw = gateway();
    let (ok, action) = gw.update(String::from("1.2.3"));
    assert!(ok.is_ok());
    assert!(!action.prompt);
    let (ok, action) = gw.update(String::from("9.9.9"));
    assert!(ok.is_ok());
    assert!(action.prompt);
    assert_eq!(action.required_version, "9.9.9");
}

#[test]
fn dispatched_update_carries_the_prompt_decision() {
    let gw = gateway();
    let store = store_with_identity();
    let r = gw.dispatch(&store, req("update", vec![Param::Str(String::from("2.0.0"))]));
    match r {
        Action::RespondUpdate(u) => {
            assert!(u.prompt);
            assert_eq!(u.required_version, "2.0.0");
        },
        _ => panic!("expected an update response"),
    }
}

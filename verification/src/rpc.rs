//! The request gateway: the fixed method registry, structural validation
//! of inbound parameters, and normalisation of engine outcomes.
//!
//! A request moves through `Received -> Validated -> Dispatched`: `dispatch`
//! parses the method name, validates the positional parameters, and either
//! produces the exact engine call to perform (the signing engine is an
//! external collaborator: the caller of `dispatch` runs the call and hands
//! the outcome to `to_jsonrpc_result`), answers `discovery` and `update`
//! itself, or rejects the request with a protocol error. Malformed input
//! never reaches the engine.

use vstd::pervasive::arbitrary;
use vstd::prelude::*;
use vstd::string::StringExecFns;

use crate::errors::{
    invalid_params_error, is_invalid_params_err, is_method_not_found_err, is_no_identity_err,
    method_not_found_error, no_identity_error, RpcError,
};
use crate::identity::IdentityStore;

verus! {

/// The fixed method registry: every procedure the gateway serves.
#[derive(Clone, Copy, Debug, PartialEq, Eq, Structural)]
pub enum Method {
    Deploy,
    Execute,
    Transfer,
    Join,
    Split,
    DeploymentCost,
    ExecutionCost,
    DecryptRecords,
    TransactionFromAuthorization,
    DeployFromAuthorization,
    Discovery,
    Update,
}

/// The registry lookup: wire name to method. Fixed at startup, never
/// mutated; names not in this table are unknown.
pub open spec fn method_of(name: Seq<char>) -> Option<Method> {
    if name == "deploy"@ {
        Some(Method::Deploy)
    } else if name == "execute"@ {
        Some(Method::Execute)
    } else if name == "transfer"@ {
        Some(Method::Transfer)
    } else if name == "join"@ {
        Some(Method::Join)
    } else if name == "split"@ {
        Some(Method::Split)
    } else if name == "deployment_cost"@ {
        Some(Method::DeploymentCost)
    } else if name == "execution_costv2"@ {
        Some(Method::ExecutionCost)
    } else if name == "decrypt_recordsv2"@ {
        Some(Method::DecryptRecords)
    } else if name == "transaction_from_authorization"@ {
        Some(Method::TransactionFromAuthorization)
    } else if name == "deploy_from_authorization"@ {
        Some(Method::DeployFromAuthorization)
    } else if name == "discovery"@ {
        Some(Method::Discovery)
    } else if name == "update"@ {
        Some(Method::Update)
    } else {
        None
    }
}

/// Looks a wire name up in the registry.
pub fn parse_method(name: &String) -> (r: Option<Method>)
    ensures
        r == method_of(name@),
{
    if *name == String::from_str("deploy") {
        Some(Method::Deploy)
    } else if *name == String::from_str("execute") {
        Some(Method::Execute)
    } else if *name == String::from_str("transfer") {
        Some(Method::Transfer)
    } else if *name == String::from_str("join") {
        Some(Method::Join)
    } else if *name == String::from_str("split") {
        Some(Method::Split)
    } else if *name == String::from_str("deployment_cost") {
        Some(Method::DeploymentCost)
    } else if *name == String::from_str("execution_costv2") {
        Some(Method::ExecutionCost)
    } else if *name == String::from_str("decrypt_recordsv2") {
        Some(Method::DecryptRecords)
    } else if *name == String::from_str("transaction_from_authorization") {
        Some(Method::TransactionFromAuthorization)
    } else if *name == String::from_str("deploy_from_authorization") {
        Some(Method::DeployFromAuthorization)
    } else if *name == String::from_str("discovery") {
        Some(Method::Discovery)
    } else if *name == String::from_str("update") {
        Some(Method::Update)
    } else {
        None
    }
}

/// One positional parameter of an inbound request, already decoded from the
/// transport into a plain value. `Absent` stands for an omitted or null
/// optional argument.
#[derive(Debug)]
pub enum Param {
    Str(String),
    U64(u64),
    StrList(Vec<String>),
    StrMap(Vec<(String, String)>),
    Absent,
}

/// An inbound request: the wire method name and its positional parameters.
#[derive(Debug)]
pub struct Request {
    pub method: String,
    pub params: Vec<Param>,
}

/// The parameter at a position; positions past the end are absent.
pub open spec fn param_at(ps: Seq<Param>, i: int) -> Param {
    if 0 <= i < ps.len() {
        ps[i]
    } else {
        Param::Absent
    }
}

/// A required string parameter: present and a non-empty identifier.
pub open spec fn req_str_ok(p: Param) -> bool {
    p matches Param::Str(s) && s@.len() > 0
}

/// An optional string parameter: a string or omitted.
pub open spec fn opt_str_ok(p: Param) -> bool {
    p is Str || p is Absent
}

/// A required numeric parameter.
pub open spec fn req_u64_ok(p: Param) -> bool {
    p is U64
}

/// An optional numeric parameter: a number or omitted.
pub open spec fn opt_u64_ok(p: Param) -> bool {
    p is U64 || p is Absent
}

/// An optional string-to-string map parameter: a map or omitted.
pub open spec fn opt_map_ok(p: Param) -> bool {
    p is StrMap || p is Absent
}

/// A required list-of-strings parameter.
pub open spec fn req_list_ok(p: Param) -> bool {
    p is StrList
}

/// The string value of a parameter known to be a string.
pub open spec fn str_val(p: Param) -> String {
    match p {
        Param::Str(s) => s,
        _ => arbitrary(),
    }
}

/// The value of an optional string parameter.
pub open spec fn opt_str_val(p: Param) -> Option<String> {
    match p {
        Param::Str(s) => Some(s),
        _ => None,
    }
}

/// The value of a numeric parameter known to be present.
pub open spec fn u64_val(p: Param) -> u64 {
    match p {
        Param::U64(n) => n,
        _ => arbitrary(),
    }
}

/// The value of an optional numeric parameter.
pub open spec fn opt_u64_val(p: Param) -> Option<u64> {
    match p {
        Param::U64(n) => Some(n),
        _ => None,
    }
}

/// The value of an optional map parameter.
pub open spec fn opt_map_val(p: Param) -> Option<Vec<(String, String)>> {
    match p {
        Param::StrMap(m) => Some(m),
        _ => None,
    }
}

/// The value of a list parameter known to be present.
pub open spec fn list_val(p: Param) -> Vec<String> {
    match p {
        Param::StrList(l) => l,
        _ => arbitrary(),
    }
}

/// A fully validated wallet operation, ready to hand to the signing engine.
/// Producing one of these is the only way a request reaches the engine.
#[derive(Debug)]
pub enum EngineCall {
    Deploy {
        private_key: String,
        program: String,
        fee_record: Option<String>,
        imports: Option<Vec<(String, String)>>,
        priority_fee_in_microcredits: Option<u64>,
        query: Option<String>,
    },
    Execute {
        private_key: String,
        program_id: String,
        function: String,
        inputs: Vec<String>,
        record: Option<String>,
        fee: Option<u64>,
        query: Option<String>,
    },
    Transfer {
        private_key: String,
        recipient: String,
        amount: u64,
        function: String,
        input_record: Option<String>,
        fee_record: Option<String>,
        fee: Option<u64>,
        query: Option<String>,
    },
    Join {
        private_key: String,
        first_record: String,
        second_record: String,
        fee_record: Option<String>,
        fee: Option<u64>,
        query: Option<String>,
    },
    Split {
        private_key: String,
        record: String,
        amount: u64,
        query: Option<String>,
    },
    DeploymentCost {
        program: String,
        imports: Option<Vec<(String, String)>>,
    },
    ExecutionCost {
        program_id: String,
        function: String,
        inputs: Vec<String>,
        query: Option<String>,
    },
    DecryptRecords {
        view_key: String,
        records: Vec<String>,
    },
    TransactionFromAuthorization {
        program_id: String,
        execute_authorization: String,
        fee_authorization: String,
        query: Option<String>,
    },
    DeployFromAuthorization {
        program: String,
        imports: Option<Vec<(String, String)>>,
        owner: String,
        fee_authorization: String,
        query: Option<String>,
    },
}

/// The wire name of the engine function a validated call runs.
pub open spec fn call_name_of(c: EngineCall) -> Seq<char> {
    match c {
        EngineCall::Deploy { .. } => "deploy"@,
        EngineCall::Execute { .. } => "execute"@,
        EngineCall::Transfer { .. } => "transfer"@,
        EngineCall::Join { .. } => "join"@,
        EngineCall::Split { .. } => "split"@,
        EngineCall::DeploymentCost { .. } => "deployment_cost"@,
        EngineCall::ExecutionCost { .. } => "execution_cost"@,
        EngineCall::DecryptRecords { .. } => "decrypt_records"@,
        EngineCall::TransactionFromAuthorization { .. } => "transaction_for_authorize"@,
        EngineCall::DeployFromAuthorization { .. } => "deploy_for_authorize"@,
    }
}

impl EngineCall {
    /// The name this call is logged and timed under.
    pub fn call_name(&self) -> (r: &'static str)
        ensures
            r@ == call_name_of(*self),
    {
        match self {
            EngineCall::Deploy { .. } => "deploy",
            EngineCall::Execute { .. } => "execute",
            EngineCall::Transfer { .. } => "transfer",
            EngineCall::Join { .. } => "join",
            EngineCall::Split { .. } => "split",
            EngineCall::DeploymentCost { .. } => "deployment_cost",
            EngineCall::ExecutionCost { .. } => "execution_cost",
            EngineCall::DecryptRecords { .. } => "decrypt_records",
            EngineCall::TransactionFromAuthorization { .. } => "transaction_for_authorize",
            EngineCall::DeployFromAuthorization { .. } => "deploy_for_authorize",
        }
    }
}

/// The log line written when a dispatched call enters the engine.
pub open spec fn call_start_line_of(name: Seq<char>) -> Seq<char> {
    "executing method '"@ + name + "'"@
}

/// The log line written when a dispatched call leaves the engine, with the
/// elapsed wall time.
pub open spec fn call_end_line_of(name: Seq<char>, elapsed_ms: nat) -> Seq<char> {
    "method '"@ + name + "' took "@ + crate::service::dec_str_of(elapsed_ms) + " ms"@
}

/// Formats the entry log line for one dispatched call: the timing and
/// logging around every engine call is uniform, whatever the method.
pub fn call_start_line(name: &str) -> (r: String)
    ensures
        r@ == call_start_line_of(name@),
{
    let mut line = String::from_str("executing method '");
    line.append(name);
    line.append("'");
    proof {
        assert(line@ =~= call_start_line_of(name@));
    }
    line
}

/// Formats the exit log line for one dispatched call, whatever its
/// outcome.
pub fn call_end_line(name: &str, elapsed_ms: u64) -> (r: String)
    ensures
        r@ == call_end_line_of(name@, elapsed_ms as nat),
{
    let mut line = String::from_str("method '");
    line.append(name);
    line.append("' took ");
    let ms = crate::service::u64_to_dec(elapsed_ms);
    line.append(ms.as_str());
    line.append(" ms");
    proof {
        assert(line@ =~= call_end_line_of(name@, elapsed_ms as nat));
    }
    line
}

/// The discovery/handshake response: running version, the ordered feature
/// list, and the hex fingerprint of the loaded identity. Returned verbatim
/// to any caller, authenticated or not.
#[derive(Debug)]
pub struct Discovery {
    pub version: String,
    pub features: Vec<String>,
    pub pubkey: String,
}

/// The ordered feature list discovery reports: the wire names of every
/// method a caller may invoke after the handshake.
pub open spec fn feature_list() -> Seq<Seq<char>> {
    seq![
        "deploy"@,
        "execute"@,
        "transfer"@,
        "join"@,
        "split"@,
        "deployment_cost"@,
        "execution_costv2"@,
        "decrypt_recordsv2"@,
        "transaction_from_authorization"@,
        "deploy_from_authorization"@,
        "update"@,
    ]
}

/// What a successful `update` call asks of the surrounding shell: whether
/// to prompt the user, and for which version.
#[derive(Debug)]
pub struct UpdateAction {
    pub prompt: bool,
    pub required_version: String,
}

/// The gateway's verdict on one request: forward a validated call to the
/// engine, answer immediately, or reject.
#[derive(Debug)]
pub enum Action {
    /// Run this call on the signing engine, then normalise its outcome.
    CallEngine(EngineCall),
    /// Answer the handshake immediately.
    RespondDiscovery(Discovery),
    /// Answer with empty success; prompt the user if asked to.
    RespondUpdate(UpdateAction),
    /// Reject with the wire error.
    RespondError(RpcError),
}

/// The request gateway. Holds the running version string it reports in
/// `discovery` and compares in `update`.
pub struct RpcImpl {
    pub version: String,
}

impl RpcImpl {
    /// Validates a deploy request's identifiers and shapes the engine call.
    pub fn deploy(
        &self,
        private_key: String,
        program: String,
        fee_record: Option<String>,
        imports: Option<Vec<(String, String)>>,
        priority_fee_in_microcredits: Option<u64>,
        query: Option<String>,
    ) -> (r: Result<EngineCall, RpcError>)
        ensures
            private_key@.len() > 0 && program@.len() > 0 ==> (r matches Ok(c) && c == (
            EngineCall::Deploy {
                private_key,
                program,
                fee_record,
                imports,
                priority_fee_in_microcredits,
                query,
            })),
            !(private_key@.len() > 0 && program@.len() > 0) ==> (r matches Err(e) && is_invalid_params_err(e)),
    {
        if private_key.as_str().is_empty() || program.as_str().is_empty() {
            return Err(invalid_params_error());
        }
        Ok(
            EngineCall::Deploy {
                private_key,
                program,
                fee_record,
                imports,
                priority_fee_in_microcredits,
                query,
            },
        )
    }

    /// Validates an execute request's identifiers and shapes the engine call.
    pub fn execute(
        &self,
        private_key: String,
        program_id: String,
        function: String,
        inputs: Vec<String>,
        record: Option<String>,
        fee: Option<u64>,
        query: Option<String>,
    ) -> (r: Result<EngineCall, RpcError>)
        ensures
            private_key@.len() > 0 && program_id@.len() > 0 && function@.len() > 0 ==> (r matches Ok(
                c,
            ) && c == (EngineCall::Execute {
                private_key,
                program_id,
                function,
                inputs,
                record,
                fee,
                query,
            })),
            !(private_key@.len() > 0 && program_id@.len() > 0 && function@.len() > 0) ==> (r matches Err(
                e,
            ) && is_invalid_params_err(e)),
    {
        if private_key.as_str().is_empty() || program_id.as_str().is_empty()
            || function.as_str().is_empty() {
            return Err(invalid_params_error());
        }
        Ok(EngineCall::Execute { private_key, program_id, function, inputs, record, fee, query })
    }

    /// Validates a transfer request's identifiers and shapes the engine call.
    pub fn transfer(
        &self,
        private_key: String,
        recipient: String,
        amount: u64,
        function: String,
        input_record: Option<String>,
        fee_record: Option<String>,
        fee: Option<u64>,
        query: Option<String>,
    ) -> (r: Result<EngineCall, RpcError>)
        ensures
            private_key@.len() > 0 && recipient@.len() > 0 && function@.len() > 0 ==> (r matches Ok(
                c,
            ) && c == (EngineCall::Transfer {
                private_key,
                recipient,
                amount,
                function,
                input_record,
                fee_record,
                fee,
                query,
            })),
            !(private_key@.len() > 0 && recipient@.len() > 0 && function@.len() > 0) ==> (r matches Err(
                e,
            ) && is_invalid_params_err(e)),
    {
        if private_key.as_str().is_empty() || recipient.as_str().is_empty()
            || function.as_str().is_empty() {
            return Err(invalid_params_error());
        }
        Ok(
            EngineCall::Transfer {
                private_key,
                recipient,
                amount,
                function,
                input_record,
                fee_record,
                fee,
                query,
            },
        )
    }

    /// Validates a join request's identifiers and shapes the engine call.
    pub fn join(
        &self,
        private_key: String,
        first_record: String,
        second_record: String,
        fee_record: Option<String>,
        fee: Option<u64>,
        query: Option<String>,
    ) -> (r: Result<EngineCall, RpcError>)
        ensures
            private_key@.len() > 0 && first_record@.len() > 0 && second_record@.len() > 0 ==> (
            r matches Ok(c) && c == (EngineCall::Join {
                private_key,
                first_record,
                second_record,
                fee_record,
                fee,
                query,
            })),
            !(private_key@.len() > 0 && first_record@.len() > 0 && second_record@.len() > 0) ==> (
            r matches Err(e) && is_invalid_params_err(e)),
    {
        if private_key.as_str().is_empty() || first_record.as_str().is_empty()
            || second_record.as_str().is_empty() {
            return Err(invalid_params_error());
        }
        Ok(
            EngineCall::Join {
                private_key,
                first_record,
                second_record,
                fee_record,
                fee,
                query,
            },
        )
    }

    /// Validates a split request's identifiers and shapes the engine call.
    pub fn split(&self, private_key: String, record: String, amount: u64, query: Option<String>)
        -> (r: Result<EngineCall, RpcError>)
        ensures
            private_key@.len() > 0 && record@.len() > 0 ==> (r matches Ok(c) && c == (
            EngineCall::Split { private_key, record, amount, query })),
            !(private_key@.len() > 0 && record@.len() > 0) ==> (r matches Err(e) && is_invalid_params_err(e)),
    {
        if private_key.as_str().is_empty() || record.as_str().is_empty() {
            return Err(invalid_params_error());
        }
        Ok(EngineCall::Split { private_key, record, amount, query })
    }

    /// Validates a deployment-cost request and shapes the engine call.
    pub fn deployment_cost(&self, program: String, imports: Option<Vec<(String, String)>>) -> (r:
        Result<EngineCall, RpcError>)
        ensures
            program@.len() > 0 ==> (r matches Ok(c) && c == (EngineCall::DeploymentCost {
                program,
                imports,
            })),
            program@.len() == 0 ==> (r matches Err(e) && is_invalid_params_err(e)),
    {
        if program.as_str().is_empty() {
            return Err(invalid_params_error());
        }
        Ok(EngineCall::DeploymentCost { program, imports })
    }

    /// Validates an execution-cost request and shapes the engine call.
    pub fn execution_cost(
        &self,
        program_id: String,
        function: String,
        inputs: Vec<String>,
        query: Option<String>,
    ) -> (r: Result<EngineCall, RpcError>)
        ensures
            program_id@.len() > 0 && function@.len() > 0 ==> (r matches Ok(c) && c == (
            EngineCall::ExecutionCost { program_id, function, inputs, query })),
            !(program_id@.len() > 0 && function@.len() > 0) ==> (r matches Err(e) && is_invalid_params_err(e)),
    {
        if program_id.as_str().is_empty() || function.as_str().is_empty() {
            return Err(invalid_params_error());
        }
        Ok(EngineCall::ExecutionCost { program_id, function, inputs, query })
    }

    /// Validates a record-decryption request and shapes the engine call.
    pub fn decrypt_records(&self, view_key: String, records: Vec<String>) -> (r: Result<
        EngineCall,
        RpcError,
    >)
        ensures
            view_key@.len() > 0 ==> (r matches Ok(c) && c == (EngineCall::DecryptRecords {
                view_key,
                records,
            })),
            view_key@.len() == 0 ==> (r matches Err(e) && is_invalid_params_err(e)),
    {
        if view_key.as_str().is_empty() {
            return Err(invalid_params_error());
        }
        Ok(EngineCall::DecryptRecords { view_key, records })
    }

    /// Validates a transaction-from-authorization request and shapes the
    /// engine call.
    pub fn transaction_from_authorization(
        &self,
        program_id: String,
        execute_authorization: String,
        fee_authorization: String,
        query: Option<String>,
    ) -> (r: Result<EngineCall, RpcError>)
        ensures
            program_id@.len() > 0 && execute_authorization@.len() > 0 && fee_authorization@.len()
                > 0 ==> (r matches Ok(c) && c == (EngineCall::TransactionFromAuthorization {
                program_id,
                execute_authorization,
                fee_authorization,
                query,
            })),
            !(program_id@.len() > 0 && execute_authorization@.len() > 0 && fee_authorization@.len()
                > 0) ==> (r matches Err(e) && is_invalid_params_err(e)),
    {
        if program_id.as_str().is_empty() || execute_authorization.as_str().is_empty()
            || fee_authorization.as_str().is_empty() {
            return Err(invalid_params_error());
        }
        Ok(
            EngineCall::TransactionFromAuthorization {
                program_id,
                execute_authorization,
                fee_authorization,
                query,
            },
        )
    }

    /// Validates a deploy-from-authorization request and shapes the engine
    /// call.
    pub fn deploy_from_authorization(
        &self,
        program: String,
        imports: Option<Vec<(String, String)>>,
        owner: String,
        fee_authorization: String,
        query: Option<String>,
    ) -> (r: Result<EngineCall, RpcError>)
        ensures
            program@.len() > 0 && owner@.len() > 0 && fee_authorization@.len() > 0 ==> (r matches Ok(
                c,
            ) && c == (EngineCall::DeployFromAuthorization {
                program,
                imports,
                owner,
                fee_authorization,
                query,
            })),
            !(program@.len() > 0 && owner@.len() > 0 && fee_authorization@.len() > 0) ==> (
            r matches Err(e) && is_invalid_params_err(e)),
    {
        if program.as_str().is_empty() || owner.as_str().is_empty()
            || fee_authorization.as_str().is_empty() {
            return Err(invalid_params_error());
        }
        Ok(
            EngineCall::DeployFromAuthorization {
                program,
                imports,
                owner,
                fee_authorization,
                query,
            },
        )
    }

    /// The unauthenticated handshake: reports the running version, the
    /// feature list, and the fingerprint of the loaded identity. Never
    /// touches the password gate; fails only when no identity exists yet.
    pub fn discovery(&self, store: &IdentityStore) -> (r: Result<Discovery, RpcError>)
        ensures
            (r is Ok) == store.has_identity(),
            r matches Ok(d) ==> d.version@ == self.version@ && d.pubkey@
                == store.fingerprint_model() && d.features@.map_values(|s: String| s@)
                == feature_list(),
            r matches Err(e) ==> is_no_identity_err(e),
    {
        if !store.identity_loaded() {
            return Err(no_identity_error());
        }
        let pubkey = store.fingerprint();
        let mut features: Vec<String> = Vec::new();
        features.push(String::from_str("deploy"));
        features.push(String::from_str("execute"));
        features.push(String::from_str("transfer"));
        features.push(String::from_str("join"));
        features.push(String::from_str("split"));
        features.push(String::from_str("deployment_cost"));
        features.push(String::from_str("execution_costv2"));
        features.push(String::from_str("decrypt_recordsv2"));
        features.push(String::from_str("transaction_from_authorization"));
        features.push(String::from_str("deploy_from_authorization"));
        features.push(String::from_str("update"));
        proof {
            assert(features@.map_values(|s: String| s@) =~= feature_list());
        }
        Ok(Discovery { version: self.version.clone(), features, pubkey })
    }

    /// The advisory update handshake: always answers success at once; asks
    /// the shell to prompt the user exactly when the required version is
    /// not the running version. (The caller's intent is read as "you must
    /// be running exactly this version": no ordering of version strings is
    /// applied.) Whether the user ever confirms does not affect the
    /// response.
    pub fn update(&self, version: String) -> (r: (Result<(), RpcError>, UpdateAction))
        ensures
            r.0 is Ok,
            r.1.prompt == (version@ != self.version@),
            r.1.required_version == version,
    {
        let same = version == self.version;
        (Ok(()), UpdateAction { prompt: !same, required_version: version })
    }
}

/// A deploy request's parameters pass validation.
pub open spec fn valid_deploy(ps: Seq<Param>) -> bool {
    &&& req_str_ok(param_at(ps, 0))
    &&& req_str_ok(param_at(ps, 1))
    &&& opt_str_ok(param_at(ps, 2))
    &&& opt_map_ok(param_at(ps, 3))
    &&& opt_u64_ok(param_at(ps, 4))
    &&& opt_str_ok(param_at(ps, 5))
    &&& ps.len() <= 6
}

/// The engine call a valid deploy request shapes.
pub open spec fn deploy_call_of(ps: Seq<Param>) -> EngineCall {
    EngineCall::Deploy {
        private_key: str_val(param_at(ps, 0)),
        program: str_val(param_at(ps, 1)),
        fee_record: opt_str_val(param_at(ps, 2)),
        imports: opt_map_val(param_at(ps, 3)),
        priority_fee_in_microcredits: opt_u64_val(param_at(ps, 4)),
        query: opt_str_val(param_at(ps, 5)),
    }
}

/// An execute request's parameters pass validation.
pub open spec fn valid_execute(ps: Seq<Param>) -> bool {
    &&& req_str_ok(param_at(ps, 0))
    &&& req_str_ok(param_at(ps, 1))
    &&& req_str_ok(param_at(ps, 2))
    &&& req_list_ok(param_at(ps, 3))
    &&& opt_str_ok(param_at(ps, 4))
    &&& opt_u64_ok(param_at(ps, 5))
    &&& opt_str_ok(param_at(ps, 6))
    &&& ps.len() <= 7
}

/// The engine call a valid execute request shapes.
pub open spec fn execute_call_of(ps: Seq<Param>) -> EngineCall {
    EngineCall::Execute {
        private_key: str_val(param_at(ps, 0)),
        program_id: str_val(param_at(ps, 1)),
        function: str_val(param_at(ps, 2)),
        inputs: list_val(param_at(ps, 3)),
        record: opt_str_val(param_at(ps, 4)),
        fee: opt_u64_val(param_at(ps, 5)),
        query: opt_str_val(param_at(ps, 6)),
    }
}

/// A transfer request's parameters pass validation.
pub open spec fn valid_transfer(ps: Seq<Param>) -> bool {
    &&& req_str_ok(param_at(ps, 0))
    &&& req_str_ok(param_at(ps, 1))
    &&& req_u64_ok(param_at(ps, 2))
    &&& req_str_ok(param_at(ps, 3))
    &&& opt_str_ok(param_at(ps, 4))
    &&& opt_str_ok(param_at(ps, 5))
    &&& opt_u64_ok(param_at(ps, 6))
    &&& opt_str_ok(param_at(ps, 7))
    &&& ps.len() <= 8
}

/// The engine call a valid transfer request shapes.
pub open spec fn transfer_call_of(ps: Seq<Param>) -> EngineCall {
    EngineCall::Transfer {
        private_key: str_val(param_at(ps, 0)),
        recipient: str_val(param_at(ps, 1)),
        amount: u64_val(param_at(ps, 2)),
        function: str_val(param_at(ps, 3)),
        input_record: opt_str_val(param_at(ps, 4)),
        fee_record: opt_str_val(param_at(ps, 5)),
        fee: opt_u64_val(param_at(ps, 6)),
        query: opt_str_val(param_at(ps, 7)),
    }
}

/// A join request's parameters pass validation.
pub open spec fn valid_join(ps: Seq<Param>) -> bool {
    &&& req_str_ok(param_at(ps, 0))
    &&& req_str_ok(param_at(ps, 1))
    &&& req_str_ok(param_at(ps, 2))
    &&& opt_str_ok(param_at(ps, 3))
    &&& opt_u64_ok(param_at(ps, 4))
    &&& opt_str_ok(param_at(ps, 5))
    &&& ps.len() <= 6
}

/// The engine call a valid join request shapes.
pub open spec fn join_call_of(ps: Seq<Param>) -> EngineCall {
    EngineCall::Join {
        private_key: str_val(param_at(ps, 0)),
        first_record: str_val(param_at(ps, 1)),
        second_record: str_val(param_at(ps, 2)),
        fee_record: opt_str_val(param_at(ps, 3)),
        fee: opt_u64_val(param_at(ps, 4)),
        query: opt_str_val(param_at(ps, 5)),
    }
}

/// A split request's parameters pass validation.
pub open spec fn valid_split(ps: Seq<Param>) -> bool {
    &&& req_str_ok(param_at(ps, 0))
    &&& req_str_ok(param_at(ps, 1))
    &&& req_u64_ok(param_at(ps, 2))
    &&& opt_str_ok(param_at(ps, 3))
    &&& ps.len() <= 4
}

/// The engine call a valid split request shapes.
pub open spec fn split_call_of(ps: Seq<Param>) -> EngineCall {
    EngineCall::Split {
        private_key: str_val(param_at(ps, 0)),
        record: str_val(param_at(ps, 1)),
        amount: u64_val(param_at(ps, 2)),
        query: opt_str_val(param_at(ps, 3)),
    }
}

/// A deployment-cost request's parameters pass validation.
pub open spec fn valid_deployment_cost(ps: Seq<Param>) -> bool {
    &&& req_str_ok(param_at(ps, 0))
    &&& opt_map_ok(param_at(ps, 1))
    &&& ps.len() <= 2
}

/// The engine call a valid deployment-cost request shapes.
pub open spec fn deployment_cost_call_of(ps: Seq<Param>) -> EngineCall {
    EngineCall::DeploymentCost {
        program: str_val(param_at(ps, 0)),
        imports: opt_map_val(param_at(ps, 1)),
    }
}

/// An execution-cost request's parameters pass validation.
pub open spec fn valid_execution_cost(ps: Seq<Param>) -> bool {
    &&& req_str_ok(param_at(ps, 0))
    &&& req_str_ok(param_at(ps, 1))
    &&& req_list_ok(param_at(ps, 2))
    &&& opt_str_ok(param_at(ps, 3))
    &&& ps.len() <= 4
}

/// The engine call a valid execution-cost request shapes.
pub open spec fn execution_cost_call_of(ps: Seq<Param>) -> EngineCall {
    EngineCall::ExecutionCost {
        program_id: str_val(param_at(ps, 0)),
        function: str_val(param_at(ps, 1)),
        inputs: list_val(param_at(ps, 2)),
        query: opt_str_val(param_at(ps, 3)),
    }
}

/// A record-decryption request's parameters pass validation.
pub open spec fn valid_decrypt_records(ps: Seq<Param>) -> bool {
    &&& req_str_ok(param_at(ps, 0))
    &&& req_list_ok(param_at(ps, 1))
    &&& ps.len() <= 2
}

/// The engine call a valid record-decryption request shapes.
pub open spec fn decrypt_records_call_of(ps: Seq<Param>) -> EngineCall {
    EngineCall::DecryptRecords {
        view_key: str_val(param_at(ps, 0)),
        records: list_val(param_at(ps, 1)),
    }
}

/// A transaction-from-authorization request's parameters pass validation.
pub open spec fn valid_transaction_from_authorization(ps: Seq<Param>) -> bool {
    &&& req_str_ok(param_at(ps, 0))
    &&& req_str_ok(param_at(ps, 1))
    &&& req_str_ok(param_at(ps, 2))
    &&& opt_str_ok(param_at(ps, 3))
    &&& ps.len() <= 4
}

/// The engine call a valid transaction-from-authorization request shapes.
pub open spec fn transaction_from_authorization_call_of(ps: Seq<Param>) -> EngineCall {
    EngineCall::TransactionFromAuthorization {
        program_id: str_val(param_at(ps, 0)),
        execute_authorization: str_val(param_at(ps, 1)),
        fee_authorization: str_val(param_at(ps, 2)),
        query: opt_str_val(param_at(ps, 3)),
    }
}

/// A deploy-from-authorization request's parameters pass validation.
pub open spec fn valid_deploy_from_authorization(ps: Seq<Param>) -> bool {
    &&& req_str_ok(param_at(ps, 0))
    &&& opt_map_ok(param_at(ps, 1))
    &&& req_str_ok(param_at(ps, 2))
    &&& req_str_ok(param_at(ps, 3))
    &&& opt_str_ok(param_at(ps, 4))
    &&& ps.len() <= 5
}

/// The engine call a valid deploy-from-authorization request shapes.
pub open spec fn deploy_from_authorization_call_of(ps: Seq<Param>) -> EngineCall {
    EngineCall::DeployFromAuthorization {
        program: str_val(param_at(ps, 0)),
        imports: opt_map_val(param_at(ps, 1)),
        owner: str_val(param_at(ps, 2)),
        fee_authorization: str_val(param_at(ps, 3)),
        query: opt_str_val(param_at(ps, 4)),
    }
}

/// An update request's parameters pass validation.
pub open spec fn valid_update(ps: Seq<Param>) -> bool {
    &&& req_str_ok(param_at(ps, 0))
    &&& ps.len() <= 1
}

/// The verdict is a rejection with the invalid-parameters code.
pub open spec fn is_invalid_params(r: Action) -> bool {
    r matches Action::RespondError(e) && is_invalid_params_err(e)
}

/// What a correct discovery answer looks like.
pub open spec fn discovery_post(gw: RpcImpl, store: IdentityStore, r: Action) -> bool {
    if store.has_identity() {
        r matches Action::RespondDiscovery(d) && d.version@ == gw.version@ && d.pubkey@
            == store.fingerprint_model() && d.features@.map_values(|s: String| s@)
            == feature_list()
    } else {
        r matches Action::RespondError(e) && is_no_identity_err(e)
    }
}

/// What the gateway's verdict must be for each known method: a validated
/// engine call exactly when the parameters pass, a rejection otherwise;
/// discovery and update answered on the spot.
pub open spec fn dispatch_post(
    m: Method,
    gw: RpcImpl,
    store: IdentityStore,
    ps: Seq<Param>,
    r: Action,
) -> bool {
    match m {
        Method::Deploy => if valid_deploy(ps) {
            r == Action::CallEngine(deploy_call_of(ps))
        } else {
            is_invalid_params(r)
        },
        Method::Execute => if valid_execute(ps) {
            r == Action::CallEngine(execute_call_of(ps))
        } else {
            is_invalid_params(r)
        },
        Method::Transfer => if valid_transfer(ps) {
            r == Action::CallEngine(transfer_call_of(ps))
        } else {
            is_invalid_params(r)
        },
        Method::Join => if valid_join(ps) {
            r == Action::CallEngine(join_call_of(ps))
        } else {
            is_invalid_params(r)
        },
        Method::Split => if valid_split(ps) {
            r == Action::CallEngine(split_call_of(ps))
        } else {
            is_invalid_params(r)
        },
        Method::DeploymentCost => if valid_deployment_cost(ps) {
            r == Action::CallEngine(deployment_cost_call_of(ps))
        } else {
            is_invalid_params(r)
        },
        Method::ExecutionCost => if valid_execution_cost(ps) {
            r == Action::CallEngine(execution_cost_call_of(ps))
        } else {
            is_invalid_params(r)
        },
        Method::DecryptRecords => if valid_decrypt_records(ps) {
            r == Action::CallEngine(decrypt_records_call_of(ps))
        } else {
            is_invalid_params(r)
        },
        Method::TransactionFromAuthorization => if valid_transaction_from_authorization(ps) {
            r == Action::CallEngine(transaction_from_authorization_call_of(ps))
        } else {
            is_invalid_params(r)
        },
        Method::DeployFromAuthorization => if valid_deploy_from_authorization(ps) {
            r == Action::CallEngine(deploy_from_authorization_call_of(ps))
        } else {
            is_invalid_params(r)
        },
        Method::Discovery => if ps.len() == 0 {
            discovery_post(gw, store, r)
        } else {
            is_invalid_params(r)
        },
        Method::Update => if valid_update(ps) {
            r matches Action::RespondUpdate(u) && u.prompt == (str_val(param_at(ps, 0))@
                != gw.version@) && u.required_version == str_val(param_at(ps, 0))
        } else {
            is_invalid_params(r)
        },
    }
}

/// What is left of a parameter list after the first `k` positions.
pub open spec fn tail_of(ps: Seq<Param>, k: int) -> Seq<Param> {
    if k >= ps.len() {
        Seq::<Param>::empty()
    } else {
        ps.skip(k)
    }
}

/// Takes the parameter at position `k` of the original list, consuming the
/// working list front to back; positions past the end read as absent.
fn take_next(ps: &mut Vec<Param>, Ghost(orig): Ghost<Seq<Param>>, Ghost(k): Ghost<int>) -> (r:
    Param)
    requires
        0 <= k,
        old(ps)@ == tail_of(orig, k),
    ensures
        r == param_at(orig, k),
        final(ps)@ == tail_of(orig, k + 1),
{
    if ps.len() == 0 {
        proof {
            assert(tail_of(orig, k).len() == 0);
            assert(k >= orig.len() || orig.skip(k).len() == 0);
            assert(param_at(orig, k) == Param::Absent);
            assert(tail_of(orig, k + 1) =~= Seq::<Param>::empty());
        }
        Param::Absent
    } else {
        let p = ps.remove(0);
        proof {
            assert(k < orig.len());
            assert(orig.skip(k)[0] == orig[k]);
            assert(ps@ =~= tail_of(orig, k + 1));
        }
        p
    }
}

impl RpcImpl {
    /// The gateway on one inbound request: parse the method name against
    /// the fixed registry, validate the positional parameters, and decide.
    /// An unknown name is rejected with the method-not-found error and
    /// ill-shaped parameters with the invalid-parameters error, in both
    /// cases without shaping any engine call; a valid wallet request
    /// becomes exactly the engine call its parameters describe; discovery
    /// and update are answered immediately.
    pub fn dispatch(&self, store: &IdentityStore, req: Request) -> (r: Action)
        ensures
            method_of(req.method@) is None ==> (r matches Action::RespondError(e)
                && is_method_not_found_err(e)),
            method_of(req.method@) matches Some(m) ==> dispatch_post(m, *self, *store, req.params@, r),
    {
        let ghost orig = req.params@;
        let method = match parse_method(&req.method) {
            Some(m) => m,
            None => {
                return Action::RespondError(method_not_found_error());
            },
        };
        let mut ps = req.params;
        proof {
            assert(ps@ =~= tail_of(orig, 0));
        }
        match method {
            Method::Deploy => {
                let p0 = take_next(&mut ps, Ghost(orig), Ghost(0));
                let p1 = take_next(&mut ps, Ghost(orig), Ghost(1));
                let p2 = take_next(&mut ps, Ghost(orig), Ghost(2));
                let p3 = take_next(&mut ps, Ghost(orig), Ghost(3));
                let p4 = take_next(&mut ps, Ghost(orig), Ghost(4));
                let p5 = take_next(&mut ps, Ghost(orig), Ghost(5));
                if ps.len() != 0 {
                    return Action::RespondError(invalid_params_error());
                }
                proof {
                    assert(orig.len() <= 6);
                }
                let private_key = match p0 {
                    Param::Str(s) => s,
                    _ => {
                        return Action::RespondError(invalid_params_error());
                    },
                };
                let program = match p1 {
                    Param::Str(s) => s,
                    _ => {
                        return Action::RespondError(invalid_params_error());
                    },
                };
                let fee_record = match p2 {
                    Param::Str(s) => Some(s),
                    Param::Absent => None,
                    _ => {
                        return Action::RespondError(invalid_params_error());
                    },
                };
                let imports = match p3 {
                    Param::StrMap(m) => Some(m),
                    Param::Absent => None,
                    _ => {
                        return Action::RespondError(invalid_params_error());
                    },
                };
                let priority_fee = match p4 {
                    Param::U64(n) => Some(n),
                    Param::Absent => None,
                    _ => {
                        return Action::RespondError(invalid_params_error());
                    },
                };
                let query = match p5 {
                    Param::Str(s) => Some(s),
                    Param::Absent => None,
                    _ => {
                        return Action::RespondError(invalid_params_error());
                    },
                };
                match self.deploy(private_key, program, fee_record, imports, priority_fee, query) {
                    Ok(c) => Action::CallEngine(c),
                    Err(e) => Action::RespondError(e),
                }
            },
            Method::Execute => {
                let p0 = take_next(&mut ps, Ghost(orig), Ghost(0));
                let p1 = take_next(&mut ps, Ghost(orig), Ghost(1));
                let p2 = take_next(&mut ps, Ghost(orig), Ghost(2));
                let p3 = take_next(&mut ps, Ghost(orig), Ghost(3));
                let p4 = take_next(&mut ps, Ghost(orig), Ghost(4));
                let p5 = take_next(&mut ps, Ghost(orig), Ghost(5));
                let p6 = take_next(&mut ps, Ghost(orig), Ghost(6));
                if ps.len() != 0 {
                    return Action::RespondError(invalid_params_error());
                }
                let private_key = match p0 {
                    Param::Str(s) => s,
                    _ => {
                        return Action::RespondError(invalid_params_error());
                    },
                };
                let program_id = match p1 {
                    Param::Str(s) => s,
                    _ => {
                        return Action::RespondError(invalid_params_error());
                    },
                };
                let function = match p2 {
                    Param::Str(s) => s,
                    _ => {
                        return Action::RespondError(invalid_params_error());
                    },
                };
                let inputs = match p3 {
                    Param::StrList(l) => l,
                    _ => {
                        return Action::RespondError(invalid_params_error());
                    },
                };
                let record = match p4 {
                    Param::Str(s) => Some(s),
                    Param::Absent => None,
                    _ => {
                        return Action::RespondError(invalid_params_error());
                    },
                };
                let fee = match p5 {
                    Param::U64(n) => Some(n),
                    Param::Absent => None,
                    _ => {
                        return Action::RespondError(invalid_params_error());
                    },
                };
                let query = match p6 {
                    Param::Str(s) => Some(s),
                    Param::Absent => None,
                    _ => {
                        return Action::RespondError(invalid_params_error());
                    },
                };
                match self.execute(private_key, program_id, function, inputs, record, fee, query) {
                    Ok(c) => Action::CallEngine(c),
                    Err(e) => Action::RespondError(e),
                }
            },
            Method::Transfer => {
                let p0 = take_next(&mut ps, Ghost(orig), Ghost(0));
                let p1 = take_next(&mut ps, Ghost(orig), Ghost(1));
                let p2 = take_next(&mut ps, Ghost(orig), Ghost(2));
                let p3 = take_next(&mut ps, Ghost(orig), Ghost(3));
                let p4 = take_next(&mut ps, Ghost(orig), Ghost(4));
                let p5 = take_next(&mut ps, Ghost(orig), Ghost(5));
                let p6 = take_next(&mut ps, Ghost(orig), Ghost(6));
                let p7 = take_next(&mut ps, Ghost(orig), Ghost(7));
                if ps.len() != 0 {
                    return Action::RespondError(invalid_params_error());
                }
                let private_key = match p0 {
                    Param::Str(s) => s,
                    _ => {
                        return Action::RespondError(invalid_params_error());
                    },
                };
                let recipient = match p1 {
                    Param::Str(s) => s,
                    _ => {
                        return Action::RespondError(invalid_params_error());
                    },
                };
                let amount = match p2 {
                    Param::U64(n) => n,
                    _ => {
                        return Action::RespondError(invalid_params_error());
                    },
                };
                let function = match p3 {
                    Param::Str(s) => s,
                    _ => {
                        return Action::RespondError(invalid_params_error());
                    },
                };
                let input_record = match p4 {
                    Param::Str(s) => Some(s),
                    Param::Absent => None,
                    _ => {
                        return Action::RespondError(invalid_params_error());
                    },
                };
                let fee_record = match p5 {
                    Param::Str(s) => Some(s),
                    Param::Absent => None,
                    _ => {
                        return Action::RespondError(invalid_params_error());
                    },
                };
                let fee = match p6 {
                    Param::U64(n) => Some(n),
                    Param::Absent => None,
                    _ => {
                        return Action::RespondError(invalid_params_error());
                    },
                };
                let query = match p7 {
                    Param::Str(s) => Some(s),
                    Param::Absent => None,
                    _ => {
                        return Action::RespondError(invalid_params_error());
                    },
                };
                match self.transfer(
                    private_key,
                    recipient,
                    amount,
                    function,
                    input_record,
                    fee_record,
                    fee,
                    query,
                ) {
                    Ok(c) => Action::CallEngine(c),
                    Err(e) => Action::RespondError(e),
                }
            },
            Method::Join => {
                let p0 = take_next(&mut ps, Ghost(orig), Ghost(0));
                let p1 = take_next(&mut ps, Ghost(orig), Ghost(1));
                let p2 = take_next(&mut ps, Ghost(orig), Ghost(2));
                let p3 = take_next(&mut ps, Ghost(orig), Ghost(3));
                let p4 = take_next(&mut ps, Ghost(orig), Ghost(4));
                let p5 = take_next(&mut ps, Ghost(orig), Ghost(5));
                if ps.len() != 0 {
                    return Action::RespondError(invalid_params_error());
                }
                let private_key = match p0 {
                    Param::Str(s) => s,
                    _ => {
                        return Action::RespondError(invalid_params_error());
                    },
                };
                let first_record = match p1 {
                    Param::Str(s) => s,
                    _ => {
                        return Action::RespondError(invalid_params_error());
                    },
                };
                let second_record = match p2 {
                    Param::Str(s) => s,
                    _ => {
                        return Action::RespondError(invalid_params_error());
                    },
                };
                let fee_record = match p3 {
                    Param::Str(s) => Some(s),
                    Param::Absent => None,
                    _ => {
                        return Action::RespondError(invalid_params_error());
                    },
                };
                let fee = match p4 {
                    Param::U64(n) => Some(n),
                    Param::Absent => None,
                    _ => {
                        return Action::RespondError(invalid_params_error());
                    },
                };
                let query = match p5 {
                    Param::Str(s) => Some(s),
                    Param::Absent => None,
                    _ => {
                        return Action::RespondError(invalid_params_error());
                    },
                };
                match self.join(private_key, first_record, second_record, fee_record, fee, query) {
                    Ok(c) => Action::CallEngine(c),
                    Err(e) => Action::RespondError(e),
                }
            },
            Method::Split => {
                let p0 = take_next(&mut ps, Ghost(orig), Ghost(0));
                let p1 = take_next(&mut ps, Ghost(orig), Ghost(1));
                let p2 = take_next(&mut ps, Ghost(orig), Ghost(2));
                let p3 = take_next(&mut ps, Ghost(orig), Ghost(3));
                if ps.len() != 0 {
                    return Action::RespondError(invalid_params_error());
                }
                let private_key = match p0 {
                    Param::Str(s) => s,
                    _ => {
                        return Action::RespondError(invalid_params_error());
                    },
                };
                let record = match p1 {
                    Param::Str(s) => s,
                    _ => {
                        return Action::RespondError(invalid_params_error());
                    },
                };
                let amount = match p2 {
                    Param::U64(n) => n,
                    _ => {
                        return Action::RespondError(invalid_params_error());
                    },
                };
                let query = match p3 {
                    Param::Str(s) => Some(s),
                    Param::Absent => None,
                    _ => {
                        return Action::RespondError(invalid_params_error());
                    },
                };
                match self.split(private_key, record, amount, query) {
                    Ok(c) => Action::CallEngine(c),
                    Err(e) => Action::RespondError(e),
                }
            },
            Method::DeploymentCost => {
                let p0 = take_next(&mut ps, Ghost(orig), Ghost(0));
                let p1 = take_next(&mut ps, Ghost(orig), Ghost(1));
                if ps.len() != 0 {
                    return Action::RespondError(invalid_params_error());
                }
                let program = match p0 {
                    Param::Str(s) => s,
                    _ => {
                        return Action::RespondError(invalid_params_error());
                    },
                };
                let imports = match p1 {
                    Param::StrMap(m) => Some(m),
                    Param::Absent => None,
                    _ => {
                        return Action::RespondError(invalid_params_error());
                    },
                };
                match self.deployment_cost(program, imports) {
                    Ok(c) => Action::CallEngine(c),
                    Err(e) => Action::RespondError(e),
                }
            },
            Method::ExecutionCost => {
                let p0 = take_next(&mut ps, Ghost(orig), Ghost(0));
                let p1 = take_next(&mut ps, Ghost(orig), Ghost(1));
                let p2 = take_next(&mut ps, Ghost(orig), Ghost(2));
                let p3 = take_next(&mut ps, Ghost(orig), Ghost(3));
                if ps.len() != 0 {
                    return Action::RespondError(invalid_params_error());
                }
                let program_id = match p0 {
                    Param::Str(s) => s,
                    _ => {
                        return Action::RespondError(invalid_params_error());
                    },
                };
                let function = match p1 {
                    Param::Str(s) => s,
                    _ => {
                        return Action::RespondError(invalid_params_error());
                    },
                };
                let inputs = match p2 {
                    Param::StrList(l) => l,
                    _ => {
                        return Action::RespondError(invalid_params_error());
                    },
                };
                let query = match p3 {
                    Param::Str(s) => Some(s),
                    Param::Absent => None,
                    _ => {
                        return Action::RespondError(invalid_params_error());
                    },
                };
                match self.execution_cost(program_id, function, inputs, query) {
                    Ok(c) => Action::CallEngine(c),
                    Err(e) => Action::RespondError(e),
                }
            },
            Method::DecryptRecords => {
                let p0 = take_next(&mut ps, Ghost(orig), Ghost(0));
                let p1 = take_next(&mut ps, Ghost(orig), Ghost(1));
                if ps.len() != 0 {
                    return Action::RespondError(invalid_params_error());
                }
                let view_key = match p0 {
                    Param::Str(s) => s,
                    _ => {
                        return Action::RespondError(invalid_params_error());
                    },
                };
                let records = match p1 {
                    Param::StrList(l) => l,
                    _ => {
                        return Action::RespondError(invalid_params_error());
                    },
                };
                match self.decrypt_records(view_key, records) {
                    Ok(c) => Action::CallEngine(c),
                    Err(e) => Action::RespondError(e),
                }
            },
            Method::TransactionFromAuthorization => {
                let p0 = take_next(&mut ps, Ghost(orig), Ghost(0));
                let p1 = take_next(&mut ps, Ghost(orig), Ghost(1));
                let p2 = take_next(&mut ps, Ghost(orig), Ghost(2));
                let p3 = take_next(&mut ps, Ghost(orig), Ghost(3));
                if ps.len() != 0 {
                    return Action::RespondError(invalid_params_error());
                }
                let program_id = match p0 {
                    Param::Str(s) => s,
                    _ => {
                        return Action::RespondError(invalid_params_error());
                    },
                };
                let execute_authorization = match p1 {
                    Param::Str(s) => s,
                    _ => {
                        return Action::RespondError(invalid_params_error());
                    },
                };
                let fee_authorization = match p2 {
                    Param::Str(s) => s,
                    _ => {
                        return Action::RespondError(invalid_params_error());
                    },
                };
                let query = match p3 {
                    Param::Str(s) => Some(s),
                    Param::Absent => None,
                    _ => {
                        return Action::RespondError(invalid_params_error());
                    },
                };
                match self.transaction_from_authorization(
                    program_id,
                    execute_authorization,
                    fee_authorization,
                    query,
                ) {
                    Ok(c) => Action::CallEngine(c),
                    Err(e) => Action::RespondError(e),
                }
            },
            Method::DeployFromAuthorization => {
                let p0 = take_next(&mut ps, Ghost(orig), Ghost(0));
                let p1 = take_next(&mut ps, Ghost(orig), Ghost(1));
                let p2 = take_next(&mut ps, Ghost(orig), Ghost(2));
                let p3 = take_next(&mut ps, Ghost(orig), Ghost(3));
                let p4 = take_next(&mut ps, Ghost(orig), Ghost(4));
                if ps.len() != 0 {
                    return Action::RespondError(invalid_params_error());
                }
                let program = match p0 {
                    Param::Str(s) => s,
                    _ => {
                        return Action::RespondError(invalid_params_error());
                    },
                };
                let imports = match p1 {
                    Param::StrMap(m) => Some(m),
                    Param::Absent => None,
                    _ => {
                        return Action::RespondError(invalid_params_error());
                    },
                };
                let owner = match p2 {
                    Param::Str(s) => s,
                    _ => {
                        return Action::RespondError(invalid_params_error());
                    },
                };
                let fee_authorization = match p3 {
                    Param::Str(s) => s,
                    _ => {
                        return Action::RespondError(invalid_params_error());
                    },
                };
                let query = match p4 {
                    Param::Str(s) => Some(s),
                    Param::Absent => None,
                    _ => {
                        return Action::RespondError(invalid_params_error());
                    },
                };
                match self.deploy_from_authorization(
                    program,
                    imports,
                    owner,
                    fee_authorization,
                    query,
                ) {
                    Ok(c) => Action::CallEngine(c),
                    Err(e) => Action::RespondError(e),
                }
            },
            Method::Discovery => {
                if ps.len() != 0 {
                    return Action::RespondError(invalid_params_error());
                }
                match self.discovery(store) {
                    Ok(d) => Action::RespondDiscovery(d),
                    Err(e) => Action::RespondError(e),
                }
            },
            Method::Update => {
                let p0 = take_next(&mut ps, Ghost(orig), Ghost(0));
                if ps.len() != 0 {
                    return Action::RespondError(invalid_params_error());
                }
                let version = match p0 {
                    Param::Str(s) => s,
                    _ => {
                        return Action::RespondError(invalid_params_error());
                    },
                };
                if version.as_str().is_empty() {
                    return Action::RespondError(invalid_params_error());
                }
                let (_ok, action) = self.update(version);
                Action::RespondUpdate(action)
            },
        }
    }
}

} // verus!

//! ModSecurity transaction API.

use vstd::prelude::*;
use vstd::string::StringSliceAdditionalSpecFns;

use crate::bindings::RawBindings;
use crate::cstr::{
    check_text, nul_free, lemma_texts_check_three, lemma_texts_check_two, text_check, texts_check,
};
use crate::error::ModSecurityError;
use crate::intervention::{decision_of, decision_view, Intervention, RawInterventionView};
use crate::msc::ModSecurity;
use crate::rules::Rules;
use crate::ModSecurityResult;

verus! {

/// One phase entry point of the engine, with the arguments it was handed.
pub enum PhaseCall {
    Connection { client: Seq<char>, client_port: i32, server: Seq<char>, server_port: i32 },
    Uri { uri: Seq<char>, method: Seq<char>, http_version: Seq<char> },
    RequestHeader { key: Seq<char>, value: Seq<char> },
    RequestHeaders,
    RequestBodyChunk { body: Seq<u8> },
    RequestBody,
    ResponseHeader { key: Seq<char>, value: Seq<char> },
    ResponseHeaders { status: i32, protocol: Seq<char> },
    ResponseBodyChunk { body: Seq<u8> },
    ResponseBody,
    Logging,
}

/// One native call made on a transaction, with what the engine answered.
pub enum Exchange {
    /// A phase call and its native code
    Phase(PhaseCall, i32),
    /// A query of the decision buffer, its native code and the record it filled in
    Query(i32, RawInterventionView),
    /// A query of the request body's length and its answer
    RequestBodyLength(usize),
    /// A query of the response body's length and its answer
    ResponseBodyLength(usize),
}

/// The mathematical content of a [`Transaction`].
pub struct TransactionView {
    /// Every native call made on the transaction, in order
    pub exchanges: Seq<Exchange>,
    /// The explicit transaction id, if one was given
    pub id: Option<Seq<char>>,
    /// Whether a log callback is kept alive for the engine
    pub log_callback: bool,
}

impl TransactionView {
    /// The transaction after one more native call.
    pub open spec fn after(self, e: Exchange) -> TransactionView {
        TransactionView { exchanges: self.exchanges.push(e), ..self }
    }

    /// The native code answered to the last call (0 after a length query).
    pub open spec fn last_code(self) -> i32 {
        match self.exchanges.last() {
            Exchange::Phase(_, code) => code,
            Exchange::Query(code, _) => code,
            _ => 0,
        }
    }
}

/// What a phase call gives for native code `code`: success for 1 or more, else `err`.
pub open spec fn phase_outcome(code: i32, err: ModSecurityError) -> ModSecurityResult<()> {
    if code >= 1 {
        Ok(())
    } else {
        Err(err)
    }
}

/// A phase method took `pre` to `post` with result `r`: where an argument cannot be
/// handed on (`check`), nothing is called and the check's error comes back; else
/// `call` is made once and its native code decides between success and `err`.
pub open spec fn phase_step(
    pre: TransactionView,
    post: TransactionView,
    r: ModSecurityResult<()>,
    check: ModSecurityResult<()>,
    call: PhaseCall,
    err: ModSecurityError,
) -> bool {
    if check is Err {
        r == check && post == pre
    } else {
        post == pre.after(Exchange::Phase(call, post.last_code())) && r == phase_outcome(
            post.last_code(),
            err,
        )
    }
}

/// Arguments free of NUL bytes are always accepted: a phase method with such arguments
/// hands them to the engine unchanged and never fails for their encoding.
pub proof fn lemma_nul_free_arguments_accepted(args: Seq<Seq<u8>>)
    requires
        forall|i: int| 0 <= i < args.len() ==> nul_free(#[trigger] args[i]),
    ensures
        texts_check(args) == Ok::<(), ModSecurityError>(()),
    decreases args.len(),
{
    if args.len() > 0 {
        assert(nul_free(args[0]));
        assert forall|i: int| 0 <= i < args.drop_first().len() implies nul_free(
            #[trigger] args.drop_first()[i],
        ) by {
            assert(args.drop_first()[i] == args[i + 1]);
        }
        lemma_nul_free_arguments_accepted(args.drop_first());
    }
}

/// Where the engine answers a query of its decision buffer with no decision, the
/// transaction reports no intervention.
pub proof fn lemma_no_decision_no_intervention(code: i32, raw: RawInterventionView)
    requires
        code <= 0,
    ensures
        decision_of(code, raw) is None,
{
}

/// Interprets the native code of a phase call.
pub fn phase_result(code: i32, err: ModSecurityError) -> (r: ModSecurityResult<()>)
    ensures
        r == phase_outcome(code, err),
{
    if code >= 1 {
        Ok(())
    } else {
        Err(err)
    }
}

/// An intermediate builder for creating a [`TransactionBuilder`]
pub struct TransactionBuilderWithoutRules<'a, B: RawBindings> {
    ms: &'a ModSecurity<B>,
}

impl<'a, B: RawBindings> TransactionBuilderWithoutRules<'a, B> {
    /// The engine the transaction will run on.
    pub closed spec fn engine(&self) -> &'a ModSecurity<B> {
        self.ms
    }

    pub(crate) fn new(ms: &'a ModSecurity<B>) -> (r: Self)
        ensures
            r.engine() == ms,
    {
        TransactionBuilderWithoutRules { ms }
    }

    /// Creates a new transaction builder with the given rules.
    pub fn with_rules(self, rules: &'a Rules<B>) -> (r: TransactionBuilder<'a, B>)
        ensures
            r.engine() == self.engine(),
            r.rules() == rules,
            r.id() is None,
            !r.has_log_callback(),
    {
        TransactionBuilder::new(self.ms, rules)
    }
}

/// Builds a ModSecurity transaction with custom configuration.
pub struct TransactionBuilder<'a, B: RawBindings> {
    ms: &'a ModSecurity<B>,
    rules: &'a Rules<B>,
    log_cb: Option<B::LogCallback>,
    id: Option<&'a str>,
}

/// The view of an optional string slice.
pub open spec fn str_view(o: Option<&str>) -> Option<Seq<char>> {
    match o {
        Some(s) => Some(s@),
        None => None,
    }
}

/// What checking an optional id for use as a C string gives.
pub open spec fn id_check(o: Option<&str>) -> ModSecurityResult<()> {
    match o {
        Some(s) => text_check(s.spec_bytes()),
        None => Ok(()),
    }
}

impl<'a, B: RawBindings> TransactionBuilder<'a, B> {
    /// The engine the transaction will run on.
    pub closed spec fn engine(&self) -> &'a ModSecurity<B> {
        self.ms
    }

    /// The rules the transaction will be inspected against.
    pub closed spec fn rules(&self) -> &'a Rules<B> {
        self.rules
    }

    /// The explicit transaction id, if one was set.
    pub closed spec fn id(&self) -> Option<&'a str> {
        self.id
    }

    /// Whether a logging callback was set.
    pub closed spec fn has_log_callback(&self) -> bool {
        self.log_cb is Some
    }

    fn new(ms: &'a ModSecurity<B>, rules: &'a Rules<B>) -> (r: Self)
        ensures
            r.engine() == ms,
            r.rules() == rules,
            r.id() is None,
            !r.has_log_callback(),
    {
        TransactionBuilder { ms, rules, log_cb: None, id: None }
    }

    /// Sets a logging callback for the transaction that will be invoked for each
    /// generated log message.
    pub fn with_logging(self, log_cb: B::LogCallback) -> (r: Self)
        ensures
            r.engine() == self.engine(),
            r.rules() == self.rules(),
            r.id() == self.id(),
            r.has_log_callback(),
    {
        TransactionBuilder { log_cb: Some(log_cb), ..self }
    }

    /// Sets an explicit transaction ID.
    pub fn with_id(self, id: &'a str) -> (r: Self)
        ensures
            r.engine() == self.engine(),
            r.rules() == self.rules(),
            r.id() == Some(id),
            r.has_log_callback() == self.has_log_callback(),
    {
        TransactionBuilder { id: Some(id), ..self }
    }

    /// Creates the configured transaction.
    pub fn build(self) -> (r: ModSecurityResult<Transaction<'a, B>>)
        ensures
            r is Err <==> id_check(self.id()) is Err,
            r matches Err(e) ==> Err::<(), _>(e) == id_check(self.id()),
            r matches Ok(t) ==> t@ == (TransactionView {
                exchanges: Seq::empty(),
                id: str_view(self.id()),
                log_callback: self.has_log_callback(),
            }),
    {
        Transaction::new(self.ms, self.rules, self.id, self.log_cb)
    }
}

/// A ModSecurity transaction.
///
/// A transaction represents the inspection of an entire request and response cycle.
/// It borrows the engine and the rules it was built from, so both outlive it.
pub struct Transaction<'a, B: RawBindings> {
    inner: B::Transaction,
    #[allow(dead_code)]
    ms: &'a ModSecurity<B>,
    #[allow(dead_code)]
    rules: &'a Rules<B>,
}

impl<'a, B: RawBindings> View for Transaction<'a, B> {
    type V = TransactionView;

    closed spec fn view(&self) -> TransactionView {
        B::transaction_view(self.inner)
    }
}

impl<'a, B: RawBindings> Transaction<'a, B> {
    fn new(
        ms: &'a ModSecurity<B>,
        rules: &'a Rules<B>,
        id: Option<&'a str>,
        log_cb: Option<B::LogCallback>,
    ) -> (r: ModSecurityResult<Self>)
        ensures
            r is Err <==> id_check(id) is Err,
            r matches Err(e) ==> Err::<(), _>(e) == id_check(id),
            r matches Ok(t) ==> t@ == (TransactionView {
                exchanges: Seq::empty(),
                id: str_view(id),
                log_callback: log_cb is Some,
            }),
    {
        let inner = match id {
            Some(s) => {
                match check_text(s) {
                    Err(e) => {
                        return Err(e);
                    },
                    Ok(()) => B::msc_new_transaction_with_id(ms.inner(), rules.inner(), s, log_cb),
                }
            },
            None => B::msc_new_transaction(ms.inner(), rules.inner(), log_cb),
        };
        Ok(Transaction { inner, ms, rules })
    }

    /// Processes rules in the logging phase for this transaction.
    ///
    /// Call it once per transaction, whatever the earlier phases decided: rules of the
    /// logging phase run here. Check for an intervention afterwards.
    pub fn process_logging(&mut self) -> (r: ModSecurityResult<()>)
        ensures
            phase_step(
                old(self)@,
                final(self)@,
                r,
                Ok(()),
                PhaseCall::Logging,
                ModSecurityError::ProcessLogging,
            ),
    {
        let code = B::msc_process_logging(&mut self.inner);
        phase_result(code, ModSecurityError::ProcessLogging)
    }

    /// Performs analysis on the connection.
    ///
    /// Call it at the very beginning of a request, when the connection arrives.
    pub fn process_connection(&mut self, client: &str, c_port: i32, server: &str, s_port: i32) -> (r:
        ModSecurityResult<()>)
        ensures
            phase_step(
                old(self)@,
                final(self)@,
                r,
                texts_check(seq![client.spec_bytes(), server.spec_bytes()]),
                PhaseCall::Connection {
                    client: client@,
                    client_port: c_port,
                    server: server@,
                    server_port: s_port,
                },
                ModSecurityError::ProcessConnection,
            ),
    {
        proof {
            lemma_texts_check_two(client.spec_bytes(), server.spec_bytes());
        }
        if let Err(e) = check_text(client) {
            return Err(e);
        }
        if let Err(e) = check_text(server) {
            return Err(e);
        }
        let code = B::msc_process_connection(&mut self.inner, client, c_port, server, s_port);
        phase_result(code, ModSecurityError::ProcessConnection)
    }

    /// Performs the analysis on the URI and all the query string variables.
    ///
    /// Call it at the very beginning of a request, before the request headers.
    pub fn process_uri(&mut self, uri: &str, method: &str, http_version: &str) -> (r:
        ModSecurityResult<()>)
        ensures
            phase_step(
                old(self)@,
                final(self)@,
                r,
                texts_check(seq![uri.spec_bytes(), method.spec_bytes(), http_version.spec_bytes()]),
                PhaseCall::Uri { uri: uri@, method: method@, http_version: http_version@ },
                ModSecurityError::ProcessUri,
            ),
    {
        proof {
            lemma_texts_check_three(uri.spec_bytes(), method.spec_bytes(), http_version.spec_bytes());
            lemma_texts_check_two(method.spec_bytes(), http_version.spec_bytes());
        }
        if let Err(e) = check_text(uri) {
            return Err(e);
        }
        if let Err(e) = check_text(method) {
            return Err(e);
        }
        if let Err(e) = check_text(http_version) {
            return Err(e);
        }
        let code = B::msc_process_uri(&mut self.inner, uri, method, http_version);
        phase_result(code, ModSecurityError::ProcessUri)
    }

    /// Appends a chunk to the request body; chunks accumulate.
    pub fn append_request_body(&mut self, body: &[u8]) -> (r: ModSecurityResult<()>)
        ensures
            phase_step(
                old(self)@,
                final(self)@,
                r,
                Ok(()),
                PhaseCall::RequestBodyChunk { body: body@ },
                ModSecurityError::AppendRequestBody,
            ),
    {
        let code = B::msc_append_request_body(&mut self.inner, body);
        phase_result(code, ModSecurityError::AppendRequestBody)
    }

    /// Appends a chunk to the response body; chunks accumulate.
    pub fn append_response_body(&mut self, body: &[u8]) -> (r: ModSecurityResult<()>)
        ensures
            phase_step(
                old(self)@,
                final(self)@,
                r,
                Ok(()),
                PhaseCall::ResponseBodyChunk { body: body@ },
                ModSecurityError::AppendResponseBody,
            ),
    {
        let code = B::msc_append_response_body(&mut self.inner, body);
        phase_result(code, ModSecurityError::AppendResponseBody)
    }

    /// Processes rules in the request body phase for this transaction.
    pub fn process_request_body(&mut self) -> (r: ModSecurityResult<()>)
        ensures
            phase_step(
                old(self)@,
                final(self)@,
                r,
                Ok(()),
                PhaseCall::RequestBody,
                ModSecurityError::ProcessRequestBody,
            ),
    {
        let code = B::msc_process_request_body(&mut self.inner);
        phase_result(code, ModSecurityError::ProcessRequestBody)
    }

    /// Processes rules in the response body phase for this transaction.
    pub fn process_response_body(&mut self) -> (r: ModSecurityResult<()>)
        ensures
            phase_step(
                old(self)@,
                final(self)@,
                r,
                Ok(()),
                PhaseCall::ResponseBody,
                ModSecurityError::ProcessResponseBody,
            ),
    {
        let code = B::msc_process_response_body(&mut self.inner);
        phase_result(code, ModSecurityError::ProcessResponseBody)
    }

    /// Processes rules in the request headers phase for this transaction.
    ///
    /// Add the request headers with [`Transaction::add_request_header`] first.
    pub fn process_request_headers(&mut self) -> (r: ModSecurityResult<()>)
        ensures
            phase_step(
                old(self)@,
                final(self)@,
                r,
                Ok(()),
                PhaseCall::RequestHeaders,
                ModSecurityError::ProcessRequestHeaders,
            ),
    {
        let code = B::msc_process_request_headers(&mut self.inner);
        phase_result(code, ModSecurityError::ProcessRequestHeaders)
    }

    /// Processes rules in the response headers phase for this transaction.
    ///
    /// Add the response headers with [`Transaction::add_response_header`] first.
    pub fn process_response_headers(&mut self, code: i32, protocol: &str) -> (r:
        ModSecurityResult<()>)
        ensures
            phase_step(
                old(self)@,
                final(self)@,
                r,
                text_check(protocol.spec_bytes()),
                PhaseCall::ResponseHeaders { status: code, protocol: protocol@ },
                ModSecurityError::ProcessResponseHeaders,
            ),
    {
        if let Err(e) = check_text(protocol) {
            return Err(e);
        }
        let native = B::msc_process_response_headers(&mut self.inner, code, protocol);
        phase_result(native, ModSecurityError::ProcessResponseHeaders)
    }

    /// Adds a request header to the transaction.
    pub fn add_request_header(&mut self, key: &str, value: &str) -> (r: ModSecurityResult<()>)
        ensures
            phase_step(
                old(self)@,
                final(self)@,
                r,
                texts_check(seq![key.spec_bytes(), value.spec_bytes()]),
                PhaseCall::RequestHeader { key: key@, value: value@ },
                ModSecurityError::AddRequestHeader,
            ),
    {
        proof {
            lemma_texts_check_two(key.spec_bytes(), value.spec_bytes());
        }
        if let Err(e) = check_text(key) {
            return Err(e);
        }
        if let Err(e) = check_text(value) {
            return Err(e);
        }
        let code = B::msc_add_request_header(&mut self.inner, key, value);
        phase_result(code, ModSecurityError::AddRequestHeader)
    }

    /// Adds a response header to the transaction.
    pub fn add_response_header(&mut self, key: &str, value: &str) -> (r: ModSecurityResult<()>)
        ensures
            phase_step(
                old(self)@,
                final(self)@,
                r,
                texts_check(seq![key.spec_bytes(), value.spec_bytes()]),
                PhaseCall::ResponseHeader { key: key@, value: value@ },
                ModSecurityError::AddResponseHeader,
            ),
    {
        proof {
            lemma_texts_check_two(key.spec_bytes(), value.spec_bytes());
        }
        if let Err(e) = check_text(key) {
            return Err(e);
        }
        if let Err(e) = check_text(value) {
            return Err(e);
        }
        let code = B::msc_add_response_header(&mut self.inner, key, value);
        phase_result(code, ModSecurityError::AddResponseHeader)
    }

    /// Returns an intervention if one is triggered by the transaction.
    ///
    /// Each call queries the engine afresh and returns a snapshot of its own.
    pub fn intervention(&mut self) -> (r: Option<Intervention>)
        ensures
            final(self)@.exchanges.last() matches Exchange::Query(code, raw) && final(self)@
                == old(self)@.after(Exchange::Query(code, raw)) && decision_view(r)
                == decision_of(code, raw),
    {
        let (code, raw) = B::msc_intervention(&mut self.inner);
        Intervention::from_native(code, raw)
    }

    /// Returns the length of the request body.
    pub fn get_request_body_length(&mut self) -> (r: usize)
        ensures
            final(self)@ == old(self)@.after(Exchange::RequestBodyLength(r)),
    {
        B::msc_get_request_body_length(&mut self.inner)
    }

    /// Returns the length of the response body.
    pub fn get_response_body_length(&mut self) -> (r: usize)
        ensures
            final(self)@ == old(self)@.after(Exchange::ResponseBodyLength(r)),
    {
        B::msc_get_response_body_length(&mut self.inner)
    }
}

} // verus!

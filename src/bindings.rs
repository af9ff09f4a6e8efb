//! The native entry points of libmodsecurity that this crate drives.
//!
//! The engine itself is native code. A host program reaches it by implementing
//! [`RawBindings`] for a type of its own: each method makes one native call on plain
//! values and hands back what the engine answered. Handles are owned values of the
//! associated types, and releasing a handle (under the lock the native library asks
//! for) belongs to those types.

use vstd::prelude::*;
use vstd::string::StringSliceAdditionalSpecFns;

use crate::cstr::nul_free;
use crate::intervention::RawIntervention;
use crate::msc::{EngineCall, ModSecurityView};
use crate::rules::{error_bytes, RuleLoad, RuleSource, RulesView};
use crate::transaction::{Exchange, PhaseCall, TransactionView};

verus! {

/// The native operation set of the inspection engine.
///
/// Every string argument is free of NUL bytes, so it can be handed on as a C string.
/// Each handle carries a model of what has been asked of it: an engine the
/// configuration calls it received, a rule set the loads it parsed, a transaction the
/// calls it answered. Each method states what it adds to that model. The three model
/// functions are for verification only: nothing calls them when the program runs.
pub trait RawBindings {
    /// An engine handle; dropping it releases the engine.
    type Engine;

    /// A rule-set handle; dropping it releases the rule set.
    type RuleSet;

    /// A transaction handle; dropping it releases the transaction and its id.
    type Transaction;

    /// What a transaction keeps alive for the engine's log callback.
    type LogCallback;

    /// The configuration calls an engine received, in order.
    spec fn engine_view(ms: Self::Engine) -> ModSecurityView;

    /// The loads a rule set was handed, in order, with the parser's answers.
    spec fn rules_view(rules: Self::RuleSet) -> RulesView;

    /// How a transaction was opened, and every call it answered.
    spec fn transaction_view(t: Self::Transaction) -> TransactionView;

    /// `msc_init`: allocates an engine.
    fn msc_init() -> (r: Self::Engine)
        ensures
            Self::engine_view(r).calls == Seq::<EngineCall>::empty(),
    ;

    /// `msc_who_am_i`: the engine's version and platform.
    fn msc_who_am_i(ms: &Self::Engine) -> &str;

    /// `msc_set_connector_info`: records who is using the engine.
    fn msc_set_connector_info(ms: &mut Self::Engine, connector: &str)
        requires
            nul_free(connector.spec_bytes()),
        ensures
            Self::engine_view(*final(ms)).calls == Self::engine_view(*old(ms)).calls.push(
                EngineCall::ConnectorInfo(connector@),
            ),
    ;

    /// `msc_set_log_cb`: installs the one trampoline that dispatches log messages to
    /// the transactions' callbacks.
    fn msc_set_log_cb(ms: &mut Self::Engine)
        ensures
            Self::engine_view(*final(ms)).calls == Self::engine_view(*old(ms)).calls.push(
                EngineCall::LogCallback,
            ),
    ;

    /// `msc_create_rules_set`: allocates an empty rule set.
    fn msc_create_rules_set() -> (r: Self::RuleSet)
        ensures
            Self::rules_view(r).loads == Seq::<RuleLoad>::empty(),
    ;

    /// `msc_rules_add_file`: parses a rules file; answers the native code and the
    /// native error text, if one was written.
    fn msc_rules_add_file(rules: &mut Self::RuleSet, file: &str) -> (r: (i32, Option<Vec<u8>>))
        requires
            nul_free(file.spec_bytes()),
        ensures
            Self::rules_view(*final(rules)).loads == Self::rules_view(*old(rules)).loads.push(
                RuleLoad {
                    source: RuleSource::File,
                    text: file@,
                    code: r.0,
                    error: error_bytes(r.1),
                },
            ),
    ;

    /// `msc_rules_add`: parses rule-language text; answers as `msc_rules_add_file`.
    fn msc_rules_add(rules: &mut Self::RuleSet, plain_rules: &str) -> (r: (
        i32,
        Option<Vec<u8>>,
    ))
        requires
            nul_free(plain_rules.spec_bytes()),
        ensures
            Self::rules_view(*final(rules)).loads == Self::rules_view(*old(rules)).loads.push(
                RuleLoad {
                    source: RuleSource::Plain,
                    text: plain_rules@,
                    code: r.0,
                    error: error_bytes(r.1),
                },
            ),
    ;

    /// `msc_rules_dump`: writes the compiled rule set to the diagnostic channel.
    fn msc_rules_dump(rules: &Self::RuleSet);

    /// `msc_new_transaction`: starts a transaction, with the log callback's context.
    fn msc_new_transaction(
        ms: &Self::Engine,
        rules: &Self::RuleSet,
        log_cb: Option<Self::LogCallback>,
    ) -> (r: Self::Transaction)
        ensures
            Self::transaction_view(r) == (TransactionView {
                exchanges: Seq::empty(),
                id: None,
                log_callback: log_cb is Some,
            }),
    ;

    /// `msc_new_transaction_with_id`: starts a transaction with an explicit id.
    fn msc_new_transaction_with_id(
        ms: &Self::Engine,
        rules: &Self::RuleSet,
        id: &str,
        log_cb: Option<Self::LogCallback>,
    ) -> (r: Self::Transaction)
        requires
            nul_free(id.spec_bytes()),
        ensures
            Self::transaction_view(r) == (TransactionView {
                exchanges: Seq::empty(),
                id: Some(id@),
                log_callback: log_cb is Some,
            }),
    ;

    /// `msc_process_connection`
    fn msc_process_connection(
        transaction: &mut Self::Transaction,
        client: &str,
        c_port: i32,
        server: &str,
        s_port: i32,
    ) -> (r: i32)
        requires
            nul_free(client.spec_bytes()),
            nul_free(server.spec_bytes()),
        ensures
            Self::transaction_view(*final(transaction)) == Self::transaction_view(
                *old(transaction),
            ).after(
                Exchange::Phase(
                    PhaseCall::Connection {
                        client: client@,
                        client_port: c_port,
                        server: server@,
                        server_port: s_port,
                    },
                    r,
                ),
            ),
    ;

    /// `msc_process_uri`
    fn msc_process_uri(
        transaction: &mut Self::Transaction,
        uri: &str,
        protocol: &str,
        http_version: &str,
    ) -> (r: i32)
        requires
            nul_free(uri.spec_bytes()),
            nul_free(protocol.spec_bytes()),
            nul_free(http_version.spec_bytes()),
        ensures
            Self::transaction_view(*final(transaction)) == Self::transaction_view(
                *old(transaction),
            ).after(
                Exchange::Phase(
                    PhaseCall::Uri { uri: uri@, method: protocol@, http_version: http_version@ },
                    r,
                ),
            ),
    ;

    /// `msc_add_request_header`
    fn msc_add_request_header(transaction: &mut Self::Transaction, key: &str, value: &str) -> (r:
        i32)
        requires
            nul_free(key.spec_bytes()),
            nul_free(value.spec_bytes()),
        ensures
            Self::transaction_view(*final(transaction)) == Self::transaction_view(
                *old(transaction),
            ).after(Exchange::Phase(PhaseCall::RequestHeader { key: key@, value: value@ }, r)),
    ;

    /// `msc_process_request_headers`
    fn msc_process_request_headers(transaction: &mut Self::Transaction) -> (r: i32)
        ensures
            Self::transaction_view(*final(transaction)) == Self::transaction_view(
                *old(transaction),
            ).after(Exchange::Phase(PhaseCall::RequestHeaders, r)),
    ;

    /// `msc_append_request_body`
    fn msc_append_request_body(transaction: &mut Self::Transaction, body: &[u8]) -> (r: i32)
        ensures
            Self::transaction_view(*final(transaction)) == Self::transaction_view(
                *old(transaction),
            ).after(Exchange::Phase(PhaseCall::RequestBodyChunk { body: body@ }, r)),
    ;

    /// `msc_process_request_body`
    fn msc_process_request_body(transaction: &mut Self::Transaction) -> (r: i32)
        ensures
            Self::transaction_view(*final(transaction)) == Self::transaction_view(
                *old(transaction),
            ).after(Exchange::Phase(PhaseCall::RequestBody, r)),
    ;

    /// `msc_add_response_header`
    fn msc_add_response_header(transaction: &mut Self::Transaction, key: &str, value: &str) -> (r:
        i32)
        requires
            nul_free(key.spec_bytes()),
            nul_free(value.spec_bytes()),
        ensures
            Self::transaction_view(*final(transaction)) == Self::transaction_view(
                *old(transaction),
            ).after(Exchange::Phase(PhaseCall::ResponseHeader { key: key@, value: value@ }, r)),
    ;

    /// `msc_process_response_headers`
    fn msc_process_response_headers(
        transaction: &mut Self::Transaction,
        code: i32,
        protocol: &str,
    ) -> (r: i32)
        requires
            nul_free(protocol.spec_bytes()),
        ensures
            Self::transaction_view(*final(transaction)) == Self::transaction_view(
                *old(transaction),
            ).after(
                Exchange::Phase(PhaseCall::ResponseHeaders { status: code, protocol: protocol@ }, r),
            ),
    ;

    /// `msc_append_response_body`
    fn msc_append_response_body(transaction: &mut Self::Transaction, body: &[u8]) -> (r: i32)
        ensures
            Self::transaction_view(*final(transaction)) == Self::transaction_view(
                *old(transaction),
            ).after(Exchange::Phase(PhaseCall::ResponseBodyChunk { body: body@ }, r)),
    ;

    /// `msc_process_response_body`
    fn msc_process_response_body(transaction: &mut Self::Transaction) -> (r: i32)
        ensures
            Self::transaction_view(*final(transaction)) == Self::transaction_view(
                *old(transaction),
            ).after(Exchange::Phase(PhaseCall::ResponseBody, r)),
    ;

    /// `msc_process_logging`
    fn msc_process_logging(transaction: &mut Self::Transaction) -> (r: i32)
        ensures
            Self::transaction_view(*final(transaction)) == Self::transaction_view(
                *old(transaction),
            ).after(Exchange::Phase(PhaseCall::Logging, r)),
    ;

    /// `msc_intervention`: queries the decision buffer; answers the native code and the
    /// record, filled in from [`RawIntervention::empty`], with its strings copied out
    /// and the native ones released.
    fn msc_intervention(transaction: &mut Self::Transaction) -> (r: (i32, RawIntervention))
        ensures
            Self::transaction_view(*final(transaction)) == Self::transaction_view(
                *old(transaction),
            ).after(Exchange::Query(r.0, r.1@)),
    ;

    /// `msc_get_request_body_length`
    fn msc_get_request_body_length(transaction: &mut Self::Transaction) -> (r: usize)
        ensures
            Self::transaction_view(*final(transaction)) == Self::transaction_view(
                *old(transaction),
            ).after(Exchange::RequestBodyLength(r)),
    ;

    /// `msc_get_response_body_length`
    fn msc_get_response_body_length(transaction: &mut Self::Transaction) -> (r: usize)
        ensures
            Self::transaction_view(*final(transaction)) == Self::transaction_view(
                *old(transaction),
            ).after(Exchange::ResponseBodyLength(r)),
    ;
}

/// A marker type with no bindings of its own.
///
/// This crate holds no native code and implements [`RawBindings`] for no type: the
/// program that links libmodsecurity implements it for a type of its own.
#[derive(Clone, Copy)]
pub struct Bindings;

impl Default for Bindings {
    fn default() -> (r: Self)
        ensures
            r == Bindings,
    {
        Bindings
    }
}

} // verus!

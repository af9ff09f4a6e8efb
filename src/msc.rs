//! ModSecurity instance and builder.

use vstd::prelude::*;
use vstd::string::{is_ascii, is_ascii_spec_bytes, StringSliceAdditionalSpecFns};

use crate::bindings::RawBindings;
use crate::cstr::{check_text, nul_free, text_check};
use crate::transaction::TransactionBuilderWithoutRules;
use crate::ModSecurityResult;

verus! {

/// The connector information an engine starts with.
pub const CONNECTOR_INFO: &'static str = "rust-modsecurity v0.1.0";

/// A configuration call made on the engine.
pub enum EngineCall {
    /// Connector information was recorded
    ConnectorInfo(Seq<char>),
    /// The log-callback trampoline was installed
    LogCallback,
}

/// The mathematical content of a [`ModSecurity`] instance: every configuration call
/// its engine received, in order.
pub struct ModSecurityView {
    pub calls: Seq<EngineCall>,
}

/// Builds a ModSecurity instance with custom configuration.
pub struct ModSecurityBuilder<B: RawBindings> {
    msc: ModSecurity<B>,
}

impl<B: RawBindings> ModSecurityBuilder<B> {
    /// The configuration built so far.
    pub closed spec fn config(&self) -> ModSecurityView {
        self.msc@
    }

    fn new() -> (r: Self)
        ensures
            r.config().calls == seq![EngineCall::ConnectorInfo(CONNECTOR_INFO@)],
    {
        ModSecurityBuilder { msc: ModSecurity::default() }
    }

    /// Overrides information about the connector that is using the library.
    ///
    /// By default, the connector info is [`CONNECTOR_INFO`].
    pub fn with_connector_info(self, connector: &str) -> (r: ModSecurityResult<Self>)
        ensures
            text_check(connector.spec_bytes()) is Err <==> r is Err,
            r matches Err(e) ==> Err::<(), _>(e) == text_check(connector.spec_bytes()),
            r matches Ok(b) ==> b.config().calls == self.config().calls.push(
                EngineCall::ConnectorInfo(connector@),
            ),
    {
        let mut this = self;
        match this.msc.set_connector_info(connector) {
            Ok(()) => Ok(this),
            Err(e) => Err(e),
        }
    }

    /// Enables log callbacks on the ModSecurity instance. The callbacks themselves are
    /// specified when creating a [`crate::transaction::Transaction`].
    pub fn with_log_callbacks(self) -> (r: Self)
        ensures
            r.config().calls == self.config().calls.push(EngineCall::LogCallback),
    {
        let mut this = self;
        this.msc.enable_log_callbacks();
        this
    }

    /// Creates the configured ModSecurity instance.
    pub fn build(self) -> (r: ModSecurity<B>)
        ensures
            r@ == self.config(),
    {
        self.msc
    }
}

/// A ModSecurity instance.
///
/// This is the main entry point to the ModSecurity library. It is used to create
/// transactions and manage the library's configuration. Its release is serialized
/// by the binding with every other engine's and with all rule parsing, so a single
/// instance per program is recommended.
pub struct ModSecurity<B: RawBindings> {
    inner: B::Engine,
}

impl<B: RawBindings> View for ModSecurity<B> {
    type V = ModSecurityView;

    closed spec fn view(&self) -> ModSecurityView {
        B::engine_view(self.inner)
    }
}

impl<B: RawBindings> Default for ModSecurity<B> {
    fn default() -> (r: Self)
        ensures
            r@.calls == seq![EngineCall::ConnectorInfo(CONNECTOR_INFO@)],
    {
        let mut msc = ModSecurity::new();
        proof {
            reveal_strlit("rust-modsecurity v0.1.0");
            let s = CONNECTOR_INFO;
            assert(s@ == "rust-modsecurity v0.1.0"@);
            assert(is_ascii(s));
            is_ascii_spec_bytes(s);
            assert(nul_free(s.spec_bytes()));
        }
        let _ = msc.set_connector_info(CONNECTOR_INFO);
        proof {
            assert(msc@.calls =~= seq![EngineCall::ConnectorInfo(CONNECTOR_INFO@)]);
        }
        msc
    }
}

impl<B: RawBindings> ModSecurity<B> {
    fn new() -> (r: Self)
        ensures
            r@.calls.len() == 0,
    {
        ModSecurity { inner: B::msc_init() }
    }

    /// Creates a new ModSecurity builder.
    pub fn builder() -> (r: ModSecurityBuilder<B>)
        ensures
            r.config().calls == seq![EngineCall::ConnectorInfo(CONNECTOR_INFO@)],
    {
        ModSecurityBuilder::new()
    }

    /// Creates a new transaction builder.
    pub fn transaction_builder(&self) -> (r: TransactionBuilderWithoutRules<'_, B>)
        ensures
            r.engine() == self,
    {
        TransactionBuilderWithoutRules::new(self)
    }

    /// Returns information about this ModSecurity version and platform.
    pub fn whoami(&self) -> &str {
        B::msc_who_am_i(&self.inner)
    }

    fn set_connector_info(&mut self, connector: &str) -> (r: ModSecurityResult<()>)
        ensures
            r == text_check(connector.spec_bytes()),
            r is Err ==> final(self)@ == old(self)@,
            r is Ok ==> final(self)@.calls == old(self)@.calls.push(
                EngineCall::ConnectorInfo(connector@),
            ),
    {
        match check_text(connector) {
            Err(e) => Err(e),
            Ok(()) => {
                B::msc_set_connector_info(&mut self.inner, connector);
                Ok(())
            },
        }
    }

    fn enable_log_callbacks(&mut self)
        ensures
            final(self)@.calls == old(self)@.calls.push(EngineCall::LogCallback),
    {
        B::msc_set_log_cb(&mut self.inner);
    }

    pub(crate) fn inner(&self) -> &B::Engine {
        &self.inner
    }
}

} // verus!

//! ModSecurity rules.

use vstd::prelude::*;
use vstd::string::StringExecFns;
use vstd::string::StringSliceAdditionalSpecFns;

use vstd::utf8::{decode_utf8, valid_utf8};

use crate::bindings::RawBindings;
use crate::cstr::{check_text, lossy_text, lossy_utf8, text_check};
use crate::error::ModSecurityError;
use crate::ModSecurityResult;

verus! {

/// Where rules handed to the parser come from.
#[derive(Clone, Copy, PartialEq, Eq, Debug, Structural)]
pub enum RuleSource {
    /// A rules file, named by its path
    File,
    /// Rule-language text
    Plain,
}

/// One load handed to the native parser: what it was given and what it answered.
pub struct RuleLoad {
    pub source: RuleSource,
    /// The path or the rule text
    pub text: Seq<char>,
    /// The native code
    pub code: i32,
    /// The native error text, if one was written
    pub error: Option<Seq<u8>>,
}

/// The message carried by a failed load: the parser's text, or a fixed one where
/// the parser wrote none.
pub open spec fn load_message(error: Option<Seq<u8>>) -> Seq<char> {
    match error {
        Some(b) => if valid_utf8(b) {
            decode_utf8(b)
        } else {
            lossy_utf8(b)
        },
        None => "Unknown error"@,
    }
}

/// The message carried by a failed load, if `r` is one.
pub open spec fn load_error_message(r: ModSecurityResult<()>) -> Option<Seq<char>> {
    match r {
        Err(ModSecurityError::RulesAddFile(m)) => Some(m@),
        Err(ModSecurityError::RulesAddPlain(m)) => Some(m@),
        _ => None,
    }
}

/// `r` is what a load from `source` gives when the parser answers `code` and `error`:
/// success for a non-negative code, else the error of that source with the message.
pub open spec fn is_load_outcome(
    r: ModSecurityResult<()>,
    source: RuleSource,
    code: i32,
    error: Option<Seq<u8>>,
) -> bool {
    if code >= 0 {
        r == Ok::<(), ModSecurityError>(())
    } else {
        match r {
            Err(ModSecurityError::RulesAddFile(m)) => source == RuleSource::File && m@
                == load_message(error),
            Err(ModSecurityError::RulesAddPlain(m)) => source == RuleSource::Plain && m@
                == load_message(error),
            _ => false,
        }
    }
}

/// The bytes held by an optional buffer.
pub open spec fn error_bytes(o: Option<Vec<u8>>) -> Option<Seq<u8>> {
    match o {
        Some(v) => Some(v@),
        None => None,
    }
}

/// Interprets the parser's answer to a load from `source`.
pub fn load_result(code: i32, error: Option<Vec<u8>>, source: RuleSource) -> (r:
    ModSecurityResult<()>)
    ensures
        is_load_outcome(r, source, code, error_bytes(error)),
{
    if code < 0 {
        let message = match error {
            Some(b) => lossy_text(b.as_slice()),
            None => {
                proof {
                    reveal_strlit("Unknown error");
                }
                String::from_str("Unknown error")
            },
        };
        match source {
            RuleSource::File => Err(ModSecurityError::RulesAddFile(message)),
            RuleSource::Plain => Err(ModSecurityError::RulesAddPlain(message)),
        }
    } else {
        Ok(())
    }
}

/// Rules the parser rejects give a rule-loading error of their source, and its message
/// is not empty: it is the parser's text, or a fixed text where the parser wrote none.
/// (The parser's text is taken to be non-empty UTF-8.)
pub proof fn lemma_failed_load_has_message(
    r: ModSecurityResult<()>,
    source: RuleSource,
    code: i32,
    error: Option<Seq<u8>>,
)
    requires
        is_load_outcome(r, source, code, error),
        code < 0,
        error matches Some(b) ==> valid_utf8(b) && b.len() > 0,
    ensures
        source == RuleSource::File ==> r matches Err(ModSecurityError::RulesAddFile(_)),
        source == RuleSource::Plain ==> r matches Err(ModSecurityError::RulesAddPlain(_)),
        load_error_message(r) matches Some(m) && m.len() > 0,
{
    reveal_strlit("Unknown error");
    if let Some(b) = error {
        assert(decode_utf8(b).len() > 0);
    }
}

/// The mathematical content of a [`Rules`]: every load handed to the parser, in order.
pub struct RulesView {
    pub loads: Seq<RuleLoad>,
}

/// A set of rules to be used by a ModSecurity instance.
///
/// Parsing and release are serialized across all rule sets and engines by the
/// binding, since the native parser is not reentrant. Build one rule set and share
/// it across many [`crate::transaction::Transaction`]s.
pub struct Rules<B: RawBindings> {
    inner: B::RuleSet,
}

impl<B: RawBindings> View for Rules<B> {
    type V = RulesView;

    closed spec fn view(&self) -> RulesView {
        B::rules_view(self.inner)
    }
}

impl<B: RawBindings> Default for Rules<B> {
    fn default() -> (r: Self)
        ensures
            r@.loads.len() == 0,
    {
        Self::new()
    }
}

impl<B: RawBindings> Rules<B> {
    /// Creates a new set of rules.
    pub fn new() -> (r: Self)
        ensures
            r@.loads.len() == 0,
    {
        Rules { inner: B::msc_create_rules_set() }
    }

    pub(crate) fn inner(&self) -> &B::RuleSet {
        &self.inner
    }

    /// Adds rules from a file to the set.
    pub fn add_file(&mut self, file: &str) -> (r: ModSecurityResult<()>)
        ensures
            text_check(file.spec_bytes()) is Err ==> r == text_check(file.spec_bytes())
                && final(self)@ == old(self)@,
            text_check(file.spec_bytes()) is Ok ==> {
                let load = final(self)@.loads.last();
                &&& final(self)@.loads.len() == old(self)@.loads.len() + 1
                &&& final(self)@.loads.drop_last() == old(self)@.loads
                &&& load.source == RuleSource::File
                &&& load.text == file@
                &&& is_load_outcome(r, RuleSource::File, load.code, load.error)
            },
    {
        match check_text(file) {
            Err(e) => Err(e),
            Ok(()) => {
                let (code, error) = B::msc_rules_add_file(&mut self.inner, file);
                proof {
                    assert(B::rules_view(self.inner).loads.drop_last() =~= B::rules_view(
                        old(self).inner,
                    ).loads);
                }
                load_result(code, error, RuleSource::File)
            },
        }
    }

    /// Adds plain rules to the set.
    pub fn add_plain(&mut self, plain_rules: &str) -> (r: ModSecurityResult<()>)
        ensures
            text_check(plain_rules.spec_bytes()) is Err ==> r == text_check(
                plain_rules.spec_bytes(),
            ) && final(self)@ == old(self)@,
            text_check(plain_rules.spec_bytes()) is Ok ==> {
                let load = final(self)@.loads.last();
                &&& final(self)@.loads.len() == old(self)@.loads.len() + 1
                &&& final(self)@.loads.drop_last() == old(self)@.loads
                &&& load.source == RuleSource::Plain
                &&& load.text == plain_rules@
                &&& is_load_outcome(r, RuleSource::Plain, load.code, load.error)
            },
    {
        match check_text(plain_rules) {
            Err(e) => Err(e),
            Ok(()) => {
                let (code, error) = B::msc_rules_add(&mut self.inner, plain_rules);
                proof {
                    assert(B::rules_view(self.inner).loads.drop_last() =~= B::rules_view(
                        old(self).inner,
                    ).loads);
                }
                load_result(code, error, RuleSource::Plain)
            },
        }
    }

    /// Dumps the rules to the engine's diagnostic channel.
    pub fn dump(&mut self)
        ensures
            final(self)@ == old(self)@,
    {
        B::msc_rules_dump(&self.inner);
    }
}

} // verus!

//! Intervention related types and methods.

use vstd::prelude::*;

use vstd::utf8::{encode_utf8, encode_utf8_decode_utf8, encode_utf8_valid_utf8};

use crate::cstr::{decode_text, utf8_text_of};

verus! {

/// The decision record as the engine fills it in, with each string field copied
/// out as the bytes the engine wrote (`None` for a null field).
pub struct RawIntervention {
    /// HTTP status the engine asks for
    pub status: i32,
    /// Advisory pause
    pub pause: i32,
    /// Redirect target, if any
    pub url: Option<Vec<u8>>,
    /// Log message, if any
    pub log: Option<Vec<u8>>,
    /// Non-zero where the decision is disruptive
    pub disruptive: i32,
}

/// The mathematical content of a [`RawIntervention`].
pub struct RawInterventionView {
    pub status: i32,
    pub pause: i32,
    pub url: Option<Seq<u8>>,
    pub log: Option<Seq<u8>>,
    pub disruptive: i32,
}

/// The bytes held by an optional buffer.
pub open spec fn bytes_of(o: Option<Vec<u8>>) -> Option<Seq<u8>> {
    match o {
        Some(v) => Some(v@),
        None => None,
    }
}

impl View for RawIntervention {
    type V = RawInterventionView;

    open spec fn view(&self) -> RawInterventionView {
        RawInterventionView {
            status: self.status,
            pause: self.pause,
            url: bytes_of(self.url),
            log: bytes_of(self.log),
            disruptive: self.disruptive,
        }
    }
}

impl RawIntervention {
    /// The record as it stands before the engine fills it in: status 200, nothing else set.
    pub fn empty() -> (r: Self)
        ensures
            r@ == (RawInterventionView { status: 200, pause: 0, url: None, log: None, disruptive: 0 }),
    {
        RawIntervention { status: 200, pause: 0, url: None, log: None, disruptive: 0 }
    }
}

/// The mathematical content of an [`Intervention`].
pub struct InterventionView {
    pub status: i32,
    pub pause: i32,
    pub url: Option<Seq<char>>,
    pub log: Option<Seq<char>>,
    pub disruptive: bool,
}

/// Represents an intervention from ModSecurity.
#[derive(Debug)]
pub struct Intervention {
    status: i32,
    pause: i32,
    url: Option<String>,
    log: Option<String>,
    disruptive: bool,
}

/// The text held by an optional string.
pub open spec fn text_of(o: Option<String>) -> Option<Seq<char>> {
    match o {
        Some(s) => Some(s@),
        None => None,
    }
}

/// The text that an optional native string field stands for: none where the field is
/// null or is not valid UTF-8.
pub open spec fn field_text(o: Option<Seq<u8>>) -> Option<Seq<char>> {
    match o {
        Some(b) => utf8_text_of(b),
        None => None,
    }
}

impl View for Intervention {
    type V = InterventionView;

    closed spec fn view(&self) -> InterventionView {
        InterventionView {
            status: self.status,
            pause: self.pause,
            url: text_of(self.url),
            log: text_of(self.log),
            disruptive: self.disruptive,
        }
    }
}

/// The snapshot made of a record that the engine filled in.
pub open spec fn snapshot_of(raw: RawInterventionView) -> InterventionView {
    InterventionView {
        status: raw.status,
        pause: raw.pause,
        url: field_text(raw.url),
        log: field_text(raw.log),
        disruptive: raw.disruptive != 0,
    }
}

/// What a query of the decision buffer yields: a snapshot where the engine answered
/// with a positive code, none otherwise.
pub open spec fn decision_of(code: i32, raw: RawInterventionView) -> Option<InterventionView> {
    if code > 0 {
        Some(snapshot_of(raw))
    } else {
        None
    }
}

/// The view of an optional snapshot.
pub open spec fn decision_view(o: Option<Intervention>) -> Option<InterventionView> {
    match o {
        Some(i) => Some(i@),
        None => None,
    }
}

/// Text handed to the engine (as a header key or value, for instance) is handed on as
/// its UTF-8 encoding; where the engine echoes those bytes in a decision's url or log
/// field, the snapshot holds the very same text.
pub proof fn lemma_echoed_text_round_trip(s: Seq<char>, raw: RawInterventionView)
    ensures
        raw.log == Some(encode_utf8(s)) ==> snapshot_of(raw).log == Some(s),
        raw.url == Some(encode_utf8(s)) ==> snapshot_of(raw).url == Some(s),
{
    encode_utf8_valid_utf8(s);
    encode_utf8_decode_utf8(s);
}

fn text_ref(o: &Option<String>) -> (r: Option<&str>)
    ensures
        r is None <==> o is None,
        r matches Some(s) ==> o matches Some(t) && s@ == t@,
{
    match o {
        Some(s) => Some(s.as_str()),
        None => None,
    }
}

impl Intervention {
    /// Copies a record that the engine filled in into a snapshot.
    pub fn new(raw: RawIntervention) -> (r: Self)
        ensures
            r@ == snapshot_of(raw@),
    {
        let url = decode_text(raw.url);
        let log = decode_text(raw.log);
        Intervention {
            status: raw.status,
            pause: raw.pause,
            url,
            log,
            disruptive: raw.disruptive != 0,
        }
    }

    /// Interprets the answer to a query of the decision buffer: `code` is what the
    /// query returned and `raw` the record it filled in.
    pub fn from_native(code: i32, raw: RawIntervention) -> (r: Option<Self>)
        ensures
            decision_view(r) == decision_of(code, raw@),
    {
        if code > 0 {
            Some(Intervention::new(raw))
        } else {
            None
        }
    }

    /// Returns the status code of the intervention.
    pub fn status(&self) -> (r: i32)
        ensures
            r == self@.status,
    {
        self.status
    }

    /// Returns the pause code of the intervention.
    pub fn pause(&self) -> (r: i32)
        ensures
            r == self@.pause,
    {
        self.pause
    }

    /// Returns the URL, if any, of the intervention.
    pub fn url(&self) -> (r: Option<&str>)
        ensures
            r is None <==> self@.url is None,
            r matches Some(s) ==> self@.url == Some(s@),
    {
        text_ref(&self.url)
    }

    /// Returns the log message, if any, of the intervention.
    pub fn log(&self) -> (r: Option<&str>)
        ensures
            r is None <==> self@.log is None,
            r matches Some(s) ==> self@.log == Some(s@),
    {
        text_ref(&self.log)
    }

    /// Returns whether the intervention is disruptive.
    pub fn disruptive(&self) -> (r: bool)
        ensures
            r == self@.disruptive,
    {
        self.disruptive
    }
}

} // verus!

//! Errors rendered as key/value pairs for structured logging.
//!
//! An error is logged as its message under `error`, its root cause under
//! `root_cause`, its backtrace under `backtrace`, and then each cause below
//! the error itself, outermost first, under `cause`.

use vstd::prelude::*;

use crate::text::str_eq;

verus! {

#[verifier::external_type_specification]
#[verifier::external_body]
pub struct ExFailureError(failure::Error);

/// An error to be logged as key/value pairs.
pub struct SlogKVError(pub failure::Error);

/// The keys under which an error's parts are logged.
#[derive(Debug, Clone, Copy, PartialEq, Eq, Structural)]
pub enum SlogKVErrorKey {
    Error,
    RootCause,
    Backtrace,
    Cause,
}

/// The text of a key.
pub open spec fn key_name(key: SlogKVErrorKey) -> Seq<char> {
    match key {
        SlogKVErrorKey::Error => "error"@,
        SlogKVErrorKey::RootCause => "root_cause"@,
        SlogKVErrorKey::Backtrace => "backtrace"@,
        SlogKVErrorKey::Cause => "cause"@,
    }
}

/// The key whose text is `s`, if any.
pub open spec fn key_from_name(s: Seq<char>) -> Option<SlogKVErrorKey> {
    if s == "error"@ {
        Some(SlogKVErrorKey::Error)
    } else if s == "root_cause"@ {
        Some(SlogKVErrorKey::RootCause)
    } else if s == "backtrace"@ {
        Some(SlogKVErrorKey::Backtrace)
    } else if s == "cause"@ {
        Some(SlogKVErrorKey::Cause)
    } else {
        None
    }
}

impl SlogKVErrorKey {
    /// The text under which this part of an error is logged.
    pub fn to_str(self) -> (r: &'static str)
        ensures
            r@ == key_name(self),
    {
        match self {
            SlogKVErrorKey::Error => "error",
            SlogKVErrorKey::RootCause => "root_cause",
            SlogKVErrorKey::Backtrace => "backtrace",
            SlogKVErrorKey::Cause => "cause",
        }
    }

    /// The key whose text is `s`; `None` for any other text.
    pub fn from_str(s: &str) -> (r: Option<Self>)
        ensures
            r == key_from_name(s@),
    {
        if str_eq(s, "error") {
            Some(SlogKVErrorKey::Error)
        } else if str_eq(s, "root_cause") {
            Some(SlogKVErrorKey::RootCause)
        } else if str_eq(s, "backtrace") {
            Some(SlogKVErrorKey::Backtrace)
        } else if str_eq(s, "cause") {
            Some(SlogKVErrorKey::Cause)
        } else {
            None
        }
    }
}

/// Reading back the text of a key gives the key.
pub proof fn lemma_key_round_trip(key: SlogKVErrorKey)
    ensures
        key_from_name(key_name(key)) == Some(key),
{
    reveal_strlit("error");
    reveal_strlit("root_cause");
    reveal_strlit("backtrace");
    reveal_strlit("cause");
    assert("error"@[0] != "cause"@[0]);
    assert("error"@.len() != "root_cause"@.len());
    assert("error"@.len() != "backtrace"@.len());
    assert("root_cause"@.len() != "backtrace"@.len());
    assert("root_cause"@.len() != "cause"@.len());
    assert("backtrace"@.len() != "cause"@.len());
}

/// Only the text of a key reads back as that key.
pub proof fn lemma_key_from_name_exact(s: Seq<char>, key: SlogKVErrorKey)
    requires
        key_from_name(s) == Some(key),
    ensures
        key_name(key) == s,
{
}

/// The pairs logged for an error with the given message, root cause,
/// backtrace and chain of errors (the error itself first).
pub open spec fn error_pairs_spec(
    message: Seq<char>,
    root_cause: Seq<char>,
    backtrace: Seq<char>,
    chain: Seq<Seq<char>>,
) -> Seq<(SlogKVErrorKey, Seq<char>)> {
    seq![
        (SlogKVErrorKey::Error, message),
        (SlogKVErrorKey::RootCause, root_cause),
        (SlogKVErrorKey::Backtrace, backtrace),
    ] + causes_below(chain).map_values(|c: Seq<char>| (SlogKVErrorKey::Cause, c))
}

/// The errors of a chain after the first.
pub open spec fn causes_below(chain: Seq<Seq<char>>) -> Seq<Seq<char>> {
    if chain.len() == 0 {
        chain
    } else {
        chain.drop_first()
    }
}

pub open spec fn pairs_view(pairs: Seq<(SlogKVErrorKey, String)>) -> Seq<(SlogKVErrorKey, Seq<char>)> {
    pairs.map_values(|p: (SlogKVErrorKey, String)| (p.0, p.1@))
}

pub open spec fn texts_view(texts: Seq<String>) -> Seq<Seq<char>> {
    texts.map_values(|t: String| t@)
}

/// The key/value pairs that log an error: its message, root cause and
/// backtrace, then every error of `chain` after the first as a cause.
pub fn error_kv_pairs(message: String, root_cause: String, backtrace: String, chain: Vec<String>) -> (r:
    Vec<(SlogKVErrorKey, String)>)
    ensures
        pairs_view(r@) == error_pairs_spec(message@, root_cause@, backtrace@, texts_view(chain@)),
{
    let ghost m = message@;
    let ghost rc = root_cause@;
    let ghost bt = backtrace@;
    let mut r: Vec<(SlogKVErrorKey, String)> = Vec::new();
    r.push((SlogKVErrorKey::Error, message));
    r.push((SlogKVErrorKey::RootCause, root_cause));
    r.push((SlogKVErrorKey::Backtrace, backtrace));
    let ghost chain_view = texts_view(chain@);
    let ghost head = seq![
        (SlogKVErrorKey::Error, m),
        (SlogKVErrorKey::RootCause, rc),
        (SlogKVErrorKey::Backtrace, bt),
    ];
    assert(pairs_view(r@) =~= head);
    let n = chain.len();
    if n == 0 {
        assert(pairs_view(r@) =~= error_pairs_spec(m, rc, bt, chain_view));
        return r;
    }
    let mut i: usize = 1;
    assert(pairs_view(r@) =~= head + chain_view.subrange(1, 1).map_values(
        |c: Seq<char>| (SlogKVErrorKey::Cause, c),
    ));
    while i < n
        invariant
            n == chain@.len(),
            1 <= i <= n,
            chain_view == texts_view(chain@),
            pairs_view(r@) == head + chain_view.subrange(1, i as int).map_values(
                |c: Seq<char>| (SlogKVErrorKey::Cause, c),
            ),
        decreases n - i,
    {
        let cause = chain[i].clone();
        let ghost before = r@;
        assert(chain_view[i as int] == cause@);
        r.push((SlogKVErrorKey::Cause, cause));
        assert(pairs_view(r@) =~= pairs_view(before).push((SlogKVErrorKey::Cause, chain_view[i as int])));
        assert(pairs_view(r@) =~= head + chain_view.subrange(1, i + 1).map_values(
            |c: Seq<char>| (SlogKVErrorKey::Cause, c),
        ));
        i = i + 1;
    }
    assert(chain_view.subrange(1, n as int) =~= causes_below(chain_view));
    r
}

/// The text of an error, as its `Display` writes it.
///
/// Wraps `format!("{}", err)` on `failure::Error`; what the text holds is
/// left unsaid here: it is whatever the error's own `Display` writes.
#[verifier::external_body]
fn error_message(err: &failure::Error) -> String {
    format!("{}", err)
}

/// The root cause of an error, as its `Debug` writes it in the alternate form.
///
/// Wraps `failure::Error::find_root_cause`, written with `{:#?}`; the text
/// is left unsaid here.
#[verifier::external_body]
fn root_cause_text(err: &failure::Error) -> String {
    format!("{:#?}", err.find_root_cause())
}

/// The backtrace of an error, as its `Debug` writes it in the alternate form.
///
/// Wraps `failure::Error::backtrace`, written with `{:#?}`; the text depends
/// on how the process captures backtraces and is left unsaid here.
#[verifier::external_body]
fn backtrace_text(err: &failure::Error) -> String {
    format!("{:#?}", err.backtrace())
}

/// The text of every error in the chain of `err`, the error itself first.
///
/// Wraps `failure::Error::iter_chain`, each item written with `{}`. Its
/// source starts the chain with the error itself, so the chain is never
/// empty; the texts are left unsaid here.
#[verifier::external_body]
fn chain_texts(err: &failure::Error) -> (r: Vec<String>)
    ensures
        r.len() >= 1,
{
    err.iter_chain().map(|c| format!("{}", c)).collect()
}

impl SlogKVError {
    /// The key/value pairs that log this error, in the order they are
    /// emitted: the error's message, root cause, backtrace, then each
    /// cause below the error itself.
    pub fn kv_pairs(&self) -> (r: Vec<(SlogKVErrorKey, String)>)
        ensures
            r@.len() >= 3,
            r@[0].0 == SlogKVErrorKey::Error,
            r@[1].0 == SlogKVErrorKey::RootCause,
            r@[2].0 == SlogKVErrorKey::Backtrace,
            forall|i: int| 3 <= i < r@.len() ==> (#[trigger] r@[i]).0 == SlogKVErrorKey::Cause,
            exists|message: Seq<char>, root_cause: Seq<char>, backtrace: Seq<char>, chain: Seq<Seq<char>>|
                chain.len() >= 1 && pairs_view(r@) == #[trigger] error_pairs_spec(
                    message,
                    root_cause,
                    backtrace,
                    chain,
                ),
    {
        let err = &self.0;
        let message = error_message(err);
        let root_cause = root_cause_text(err);
        let backtrace = backtrace_text(err);
        let chain = chain_texts(err);
        let ghost parts = (message@, root_cause@, backtrace@, texts_view(chain@));
        let r = error_kv_pairs(message, root_cause, backtrace, chain);
        proof {
            assert(parts.3.len() >= 1);
            assert(pairs_view(r@) == error_pairs_spec(parts.0, parts.1, parts.2, parts.3));
            assert(pairs_view(r@).len() == r@.len());
            assert(pairs_view(r@).len() >= 3);
            assert forall|i: int| 3 <= i < r@.len() implies (#[trigger] r@[i]).0
                == SlogKVErrorKey::Cause by {
                assert(pairs_view(r@)[i].0 == r@[i].0);
            }
            assert(pairs_view(r@)[0].0 == r@[0].0);
            assert(pairs_view(r@)[1].0 == r@[1].0);
            assert(pairs_view(r@)[2].0 == r@[2].0);
        }
        r
    }
}

} // verus!

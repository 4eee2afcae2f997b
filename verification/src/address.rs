//! Address normalization: in an isolated network namespace the loopback alias
//! in a resolved address gives way to the gateway address.

use crate::messages::{missing_setting_message, missing_setting_text};
use crate::model::{
    uri_outcome,
    AddressMode,
    AddressModeView,
    DiscoveryError,
    DiscoveryErrorView,
    ErrorKind,
};
use vstd::prelude::*;
use vstd::string::{StrSliceExecFns, StringExecFns};

verus! {

/// Name of the setting that holds the gateway address.
pub const HOST_GATEWAY_VAR: &'static str = "HOST_GATEWAY";

/// Name of the setting that holds the loopback alias.
pub const LOCALHOST_ALIAS_VAR: &'static str = "LOCALHOST_ALIAS";

/// `text` with every occurrence of `pattern` replaced by `replacement`.
/// Occurrences are taken from the left and do not overlap. An empty pattern
/// occurs before every character and at the end.
pub open spec fn replaced(text: Seq<char>, pattern: Seq<char>, replacement: Seq<char>) -> Seq<
    char,
>
    decreases text.len(),
{
    if text.len() == 0 {
        if pattern.len() == 0 {
            replacement
        } else {
            text
        }
    } else if pattern.len() == 0 {
        replacement + text.take(1) + replaced(text.skip(1), pattern, replacement)
    } else if pattern.is_prefix_of(text) {
        replacement + replaced(text.skip(pattern.len() as int), pattern, replacement)
    } else {
        text.take(1) + replaced(text.skip(1), pattern, replacement)
    }
}

/// Does `pattern` occur somewhere in `text`?
pub open spec fn occurs_in(pattern: Seq<char>, text: Seq<char>) -> bool {
    exists|at: int| 0 <= at <= text.len() && pattern.is_prefix_of(#[trigger] text.skip(at))
}

/// What normalization makes of `uri` under `mode`.
pub open spec fn normalized(uri: Seq<char>, mode: AddressModeView) -> Result<
    Seq<char>,
    DiscoveryErrorView,
> {
    match mode {
        AddressModeView::Direct => Ok(uri),
        AddressModeView::Isolated { host_gateway: None, .. } => Err(
            DiscoveryErrorView {
                kind: ErrorKind::MissingConfiguration,
                message: missing_setting_text(HOST_GATEWAY_VAR@),
            },
        ),
        AddressModeView::Isolated { host_gateway: Some(_), host_alias: None } => Err(
            DiscoveryErrorView {
                kind: ErrorKind::MissingConfiguration,
                message: missing_setting_text(LOCALHOST_ALIAS_VAR@),
            },
        ),
        AddressModeView::Isolated { host_gateway: Some(gateway), host_alias: Some(alias) } => Ok(
            replaced(uri, alias, gateway),
        ),
    }
}

/// In direct mode an address comes back as it went in.
pub proof fn lemma_direct_mode_keeps_address(uri: Seq<char>)
    ensures
        normalized(uri, AddressModeView::Direct) == Ok::<Seq<char>, DiscoveryErrorView>(uri),
{
}

/// In isolated mode normalization succeeds exactly when both settings are
/// there; an absent one is a missing configuration.
pub proof fn lemma_isolated_mode_needs_both_settings(
    uri: Seq<char>,
    host_gateway: Option<Seq<char>>,
    host_alias: Option<Seq<char>>,
)
    ensures
        normalized(uri, AddressModeView::Isolated { host_gateway, host_alias }) is Ok <==> (
        host_gateway is Some && host_alias is Some),
        normalized(uri, AddressModeView::Isolated { host_gateway, host_alias }) is Err
            ==> normalized(
            uri,
            AddressModeView::Isolated { host_gateway, host_alias },
        )->Err_0.kind == ErrorKind::MissingConfiguration,
{
}

/// A text in which a non-empty pattern does not occur is left as it is. So
/// an address from which the alias is gone is not changed by a second pass.
pub proof fn lemma_replaced_without_occurrence(
    text: Seq<char>,
    pattern: Seq<char>,
    replacement: Seq<char>,
)
    requires
        pattern.len() > 0,
        !occurs_in(pattern, text),
    ensures
        replaced(text, pattern, replacement) == text,
    decreases text.len(),
{
    if text.len() > 0 {
        let rest = text.skip(1);
        assert(text.skip(0) =~= text);
        assert forall|at: int| 0 <= at <= rest.len() implies !pattern.is_prefix_of(
            #[trigger] rest.skip(at),
        ) by {
            assert(rest.skip(at) =~= text.skip(at + 1));
        }
        lemma_replaced_without_occurrence(rest, pattern, replacement);
        assert(text.take(1) + rest =~= text);
    }
}

/// The characters of `text`, in order.
fn characters(text: &str) -> (chars: Vec<char>)
    ensures
        chars@ == text@,
{
    let mut chars: Vec<char> = Vec::new();
    for c in iter: text.chars()
        invariant
            iter.seq() == text@,
            chars@ == iter.seq().take(iter.index() as int),
    {
        chars.push(c);
        assert(iter.seq().take(iter.index() + 1) =~= iter.seq().take(iter.index() as int).push(c));
    }
    assert(chars@ =~= text@);
    chars
}

/// Does `pattern` stand in `text` at position `at`?
fn occurs_at(text: &Vec<char>, at: usize, pattern: &Vec<char>) -> (found: bool)
    requires
        at <= text.len(),
    ensures
        found == pattern@.is_prefix_of(text@.skip(at as int)),
{
    if pattern.len() > text.len() - at {
        return false;
    }
    let ghost rest = text@.skip(at as int);
    let mut j: usize = 0;
    while j < pattern.len()
        invariant
            j <= pattern.len(),
            at + pattern.len() <= text.len(),
            rest == text@.skip(at as int),
            forall|k: int| 0 <= k < j ==> rest[k] == pattern@[k],
        decreases pattern.len() - j,
    {
        if text[at + j] != pattern[j] {
            assert(rest.subrange(0, pattern.len() as int)[j as int] != pattern@[j as int]);
            return false;
        }
        j += 1;
    }
    assert(pattern@ =~= rest.subrange(0, pattern.len() as int));
    true
}

/// Replaces every occurrence of `pattern` in `text` by `replacement`, as
/// `str::replace` does. What stands between two occurrences is copied in one
/// piece.
pub fn replace_all(text: &str, pattern: &str, replacement: &str) -> (out: String)
    ensures
        out@ == replaced(text@, pattern@, replacement@),
{
    let text_chars = characters(text);
    let pattern_chars = characters(pattern);
    let text_len = text_chars.len();
    let pattern_len = pattern_chars.len();
    let ghost goal = replaced(text@, pattern@, replacement@);
    let mut out = String::new();
    // `text[copied..at]` holds no occurrence and is not yet in `out`.
    let mut copied: usize = 0;
    let mut at: usize = 0;
    proof {
        assert(text@.skip(0) =~= text@);
        assert(out@ + text@.subrange(0, 0) + goal =~= goal);
    }
    while at < text_len
        invariant
            copied <= at <= text_len,
            text_chars@ == text@,
            pattern_chars@ == pattern@,
            text_len == text@.len(),
            pattern_len == pattern@.len(),
            goal == replaced(text@, pattern@, replacement@),
            out@ + text@.subrange(copied as int, at as int) + replaced(
                text@.skip(at as int),
                pattern@,
                replacement@,
            ) == goal,
        decreases text_len - at,
    {
        let ghost rest = text@.skip(at as int);
        let ghost done = out@;
        let ghost pending = text@.subrange(copied as int, at as int);
        if occurs_at(&text_chars, at, &pattern_chars) {
            out.append(text.substring_char(copied, at));
            out.append(replacement);
            if pattern_len == 0 {
                proof {
                    let tail = replaced(rest.skip(1), pattern@, replacement@);
                    assert(rest.take(1) =~= text@.subrange(at as int, at + 1));
                    assert(rest.skip(1) =~= text@.skip(at + 1));
                    assert(out@ + text@.subrange(at as int, at + 1) + tail =~= done + pending + (
                    replacement@ + rest.take(1) + tail));
                }
                copied = at;
                at += 1;
            } else {
                proof {
                    let tail = replaced(rest.skip(pattern_len as int), pattern@, replacement@);
                    assert(rest.skip(pattern_len as int) =~= text@.skip(at + pattern_len));
                    assert(out@ + text@.subrange(at + pattern_len, at + pattern_len) + tail
                        =~= done + pending + (replacement@ + tail));
                }
                at += pattern_len;
                copied = at;
            }
        } else {
            proof {
                let tail = replaced(rest.skip(1), pattern@, replacement@);
                assert(rest.skip(1) =~= text@.skip(at + 1));
                assert(done + text@.subrange(copied as int, at + 1) + tail =~= done + pending + (
                rest.take(1) + tail));
            }
            at += 1;
        }
    }
    let ghost done = out@;
    let ghost pending = text@.subrange(copied as int, at as int);
    out.append(text.substring_char(copied, text_len));
    if pattern_len == 0 {
        out.append(replacement);
    } else {
        assert(done + pending + Seq::<char>::empty() =~= done + pending);
    }
    out
}

/// Makes a resolved address reachable from where the caller runs.
///
/// In direct mode the address comes back unchanged. In isolated mode every
/// occurrence of the loopback alias gives way to the gateway address; where
/// one of the two settings is absent the call fails and names it, the gateway
/// first.
pub fn get_uri(uri: &str, mode: &AddressMode) -> (result: Result<String, DiscoveryError>)
    ensures
        uri_outcome(result) == normalized(uri@, mode@),
{
    match mode {
        AddressMode::Direct => Ok(uri.to_owned()),
        AddressMode::Isolated { host_gateway, host_alias } => {
            match host_gateway {
                None => Err(
                    DiscoveryError {
                        kind: ErrorKind::MissingConfiguration,
                        message: missing_setting_message(HOST_GATEWAY_VAR),
                    },
                ),
                Some(gateway) => match host_alias {
                    None => Err(
                        DiscoveryError {
                            kind: ErrorKind::MissingConfiguration,
                            message: missing_setting_message(LOCALHOST_ALIAS_VAR),
                        },
                    ),
                    Some(alias) => Ok(replace_all(uri, alias.as_str(), gateway.as_str())),
                },
            }
        },
    }
}

} // verus!

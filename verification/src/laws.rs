//! The library's stated laws: properties that hold of the URL builder
//! and the fallback chain for all inputs, proved once and for all.

use vstd::prelude::*;

use crate::builder::{
    email_url_spec, is_phone_separator, stripped_phone, whatsapp_native_spec, whatsapp_web_spec,
};
use crate::chain::{chain_spec, StrategyView};
use crate::dispatch::{attempts_spec, has_success, OutcomeView};
use crate::intent::IntentView;
use crate::platform::Platform;

verus! {

/// When both subject and body are present, the e-mail address carries
/// both parameters, each percent-encoded, joined by `&`, behind a
/// single `?`.
pub proof fn lemma_email_params_joined(
    addr: Seq<char>,
    subject: Seq<char>,
    body: Seq<char>,
)
    ensures
        email_url_spec(addr, Some(subject), Some(body)) == "mailto:"@ + addr + "?subject="@
            + crate::encode::url_encoded(subject) + "&body="@ + crate::encode::url_encoded(body),
{
}

/// Stripping separators commutes with appending a kept character.
pub proof fn lemma_strip_push(x: Seq<char>, c: char)
    requires
        !is_phone_separator(c),
    ensures
        stripped_phone(x.push(c)) == stripped_phone(x).push(c),
{
    assert(x.push(c).drop_last() =~= x);
}

/// Stripping `+`, `-` and spaces from a phone number is idempotent: a
/// stripped number has no separators left to remove.
pub proof fn lemma_strip_idempotent(s: Seq<char>)
    ensures
        stripped_phone(stripped_phone(s)) == stripped_phone(s),
    decreases s.len(),
{
    if s.len() == 0 {
    } else {
        lemma_strip_idempotent(s.drop_last());
        if !is_phone_separator(s.last()) {
            lemma_strip_push(stripped_phone(s.drop_last()), s.last());
        }
    }
}

/// The same stripping is applied to the native and the web WhatsApp
/// address: building either from an already-stripped number changes
/// nothing.
pub proof fn lemma_whatsapp_links_share_stripped_phone(
    phone: Seq<char>,
    message: Option<Seq<char>>,
)
    ensures
        whatsapp_native_spec(stripped_phone(phone), message) == whatsapp_native_spec(
            phone,
            message,
        ),
        whatsapp_web_spec(stripped_phone(phone), message) == whatsapp_web_spec(phone, message),
{
    lemma_strip_idempotent(phone);
}

/// The WhatsApp chain has exactly three tiers, in this order: the
/// native-app link to the OS open-equivalent, the web link to the OS
/// open-equivalent, and a direct spawn of the platform's shell-open
/// program with the web link as its final argument.
pub proof fn lemma_whatsapp_chain_tiers(
    phone: Seq<char>,
    message: Option<Seq<char>>,
    p: Platform,
)
    ensures
        chain_spec(IntentView::OpenWhatsApp { phone, message }, p).len() == 3,
        chain_spec(IntentView::OpenWhatsApp { phone, message }, p)[0]
            == (StrategyView::OpenUrlPrimitive { url: whatsapp_native_spec(phone, message) }),
        chain_spec(IntentView::OpenWhatsApp { phone, message }, p)[1]
            == (StrategyView::OpenUrlPrimitive { url: whatsapp_web_spec(phone, message) }),
        chain_spec(IntentView::OpenWhatsApp { phone, message }, p)[2]
            == (StrategyView::SpawnProgram {
            program: p.shell_open_program_spec(),
            args: p.shell_open_args_spec().push(whatsapp_web_spec(phone, message)),
        }),
{
}

/// A chain whose every tier fails is attempted to the end and yields no
/// success: the call fails only after exhausting every tier.
pub proof fn lemma_exhausted_chain_fails(os: Seq<OutcomeView>)
    requires
        forall|j: int| 0 <= j < os.len() ==> os[j] is Failed,
    ensures
        !has_success(os),
        attempts_spec(os) == os.len(),
{
}

} // verus!

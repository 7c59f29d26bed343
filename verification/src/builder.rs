//! The URL builder: pure construction of scheme-specific addresses from
//! structured intent fields.

use vstd::prelude::*;

use crate::encode::{encode_component, url_encoded};

verus! {

/// The characters stripped from a phone number before it is substituted
/// into a WhatsApp link.
pub open spec fn is_phone_separator(c: char) -> bool {
    c == '+' || c == '-' || c == ' '
}

/// A phone number with every `+`, `-` and space removed, the rest kept
/// in order.
pub open spec fn stripped_phone(s: Seq<char>) -> Seq<char>
    decreases s.len(),
{
    if s.len() == 0 {
        Seq::empty()
    } else {
        let rest = stripped_phone(s.drop_last());
        if is_phone_separator(s.last()) {
            rest
        } else {
            rest.push(s.last())
        }
    }
}

/// The view of an optional string.
pub open spec fn opt_text(o: Option<String>) -> Option<Seq<char>> {
    match o {
        Some(s) => Some(s@),
        None => None,
    }
}

/// The `mailto:` address for an e-mail intent: the address itself,
/// followed — only when at least one optional part is present — by `?`
/// and the present parameters among `subject=` and `body=`, joined by
/// `&`, each percent-encoded.
pub open spec fn email_url_spec(
    addr: Seq<char>,
    subject: Option<Seq<char>>,
    body: Option<Seq<char>>,
) -> Seq<char> {
    let base = "mailto:"@ + addr;
    match subject {
        Some(s) => match body {
            Some(b) => base + "?subject="@ + url_encoded(s) + "&body="@ + url_encoded(b),
            None => base + "?subject="@ + url_encoded(s),
        },
        None => match body {
            Some(b) => base + "?body="@ + url_encoded(b),
            None => base,
        },
    }
}

/// The dialler address for a phone intent: the number passed through
/// unmodified.
pub open spec fn tel_url_spec(number: Seq<char>) -> Seq<char> {
    "tel:"@ + number
}

/// The native-app WhatsApp link: separators stripped from the phone, the
/// optional message percent-encoded.
pub open spec fn whatsapp_native_spec(phone: Seq<char>, message: Option<Seq<char>>) -> Seq<char> {
    let base = "whatsapp://send?phone="@ + stripped_phone(phone);
    match message {
        Some(m) => base + "&text="@ + url_encoded(m),
        None => base,
    }
}

/// The web-fallback WhatsApp link: same stripped phone, same encoded
/// message, under the `wa.me` host.
pub open spec fn whatsapp_web_spec(phone: Seq<char>, message: Option<Seq<char>>) -> Seq<char> {
    let base = "https://wa.me/"@ + stripped_phone(phone);
    match message {
        Some(m) => base + "?text="@ + url_encoded(m),
        None => base,
    }
}

/// Removes every `+`, `-` and space from a phone number.
pub fn strip_phone(phone: &str) -> (r: String)
    ensures
        r@ == stripped_phone(phone@),
{
    let n = phone.unicode_len();
    let mut out = String::new();
    let mut i: usize = 0;
    while i < n
        invariant
            i <= n,
            n == phone@.len(),
            out@ == stripped_phone(phone@.subrange(0, i as int)),
        decreases n - i,
    {
        let c = phone.get_char(i);
        if !(c == '+' || c == '-' || c == ' ') {
            let piece = phone.substring_char(i, i + 1);
            out.append(piece);
            proof {
                assert(phone@.subrange(i as int, i + 1) =~= seq![phone@[i as int]]);
            }
        }
        proof {
            let pre = phone@.subrange(0, i as int);
            let ext = phone@.subrange(0, i + 1);
            assert(ext.drop_last() =~= pre);
            assert(ext.last() == phone@[i as int]);
            if !is_phone_separator(phone@[i as int]) {
                assert(out@ =~= stripped_phone(pre).push(phone@[i as int]));
            }
        }
        i += 1;
    }
    proof {
        assert(phone@.subrange(0, n as int) =~= phone@);
    }
    out
}

/// Builds the `mailto:` address for an e-mail intent.
pub fn build_email_url(address: &str, subject: &Option<String>, body: &Option<String>) -> (r:
    String)
    ensures
        r@ == email_url_spec(address@, opt_text(*subject), opt_text(*body)),
{
    let mut url = String::from_str("mailto:");
    url.append(address);
    match subject {
        Some(s) => {
            url.append("?subject=");
            let enc = encode_component(s.as_str());
            url.append(enc.as_str());
            match body {
                Some(b) => {
                    url.append("&body=");
                    let encb = encode_component(b.as_str());
                    url.append(encb.as_str());
                },
                None => {},
            }
        },
        None => {
            match body {
                Some(b) => {
                    url.append("?body=");
                    let encb = encode_component(b.as_str());
                    url.append(encb.as_str());
                },
                None => {},
            }
        },
    }
    proof {
        assert(url@ =~= email_url_spec(address@, opt_text(*subject), opt_text(*body)));
    }
    url
}

/// Builds the dialler address for a phone intent; the number is passed
/// through unmodified.
pub fn build_tel_url(number: &str) -> (r: String)
    ensures
        r@ == tel_url_spec(number@),
{
    let mut url = String::from_str("tel:");
    url.append(number);
    url
}

/// Builds the pair of WhatsApp addresses: the native-app link and the
/// web-fallback link, both over the separator-stripped phone number.
pub fn build_whatsapp_urls(phone: &str, message: &Option<String>) -> (r: (String, String))
    ensures
        r.0@ == whatsapp_native_spec(phone@, opt_text(*message)),
        r.1@ == whatsapp_web_spec(phone@, opt_text(*message)),
{
    let stripped = strip_phone(phone);

    let mut native = String::from_str("whatsapp://send?phone=");
    native.append(stripped.as_str());
    let mut web = String::from_str("https://wa.me/");
    web.append(stripped.as_str());

    match message {
        Some(m) => {
            let enc = encode_component(m.as_str());
            native.append("&text=");
            native.append(enc.as_str());
            web.append("?text=");
            web.append(enc.as_str());
        },
        None => {},
    }
    proof {
        assert(native@ =~= whatsapp_native_spec(phone@, opt_text(*message)));
        assert(web@ =~= whatsapp_web_spec(phone@, opt_text(*message)));
    }
    (native, web)
}

} // verus!

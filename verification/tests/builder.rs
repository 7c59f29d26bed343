use intent_launch::builder::{build_email_url, build_tel_url, build_whatsapp_urls, strip_phone};

#[test]
fn email_with_subject_and_body_joins_encoded_params() {
    let url = build_email_url(
        "a@b.com",
        &Some(String::from("hello world & more")),
        &Some(String::from("line one = line two?")),
    );
    let expected = format!(
        "mailto:a@b.com?subject={}&body={}",
        urlencoding::encode("hello world & more"),
        urlencoding::encode("line one = line two?")
    );
    assert_eq!(url, expected);

    // Decoding the parameters gives back the original free text.
    let query = url.strip_prefix("mailto:a@b.com?").unwrap();
    let mut parts = query.split('&');
    let subject = parts.next().unwrap().strip_prefix("subject=").unwrap();
    let body = parts.next().unwrap().strip_prefix("body=").unwrap();
    assert!(parts.next().is_none());
    assert_eq!(
        urlencoding::decode(subject).unwrap(),
        "hello world & more"
    );
    assert_eq!(
        urlencoding::decode(body).unwrap(),
        "line one = line two?"
    );
}

#[test]
fn email_with_subject_only() {
    let url = build_email_url("a@b.com", &Some(String::from("hi there")), &None);
    assert_eq!(url, "mailto:a@b.com?subject=hi%20there");
}

#[test]
fn email_with_body_only() {
    let url = build_email_url("a@b.com", &None, &Some(String::from("x y")));
    assert_eq!(url, "mailto:a@b.com?body=x%20y");
}

#[test]
fn email_without_optional_parts_has_no_query() {
    let url = build_email_url("a@b.com", &None, &None);
    assert_eq!(url, "mailto:a@b.com");
}

#[test]
fn email_encodes_non_ascii_subject() {
    let url = build_email_url("a@b.com", &Some(String::from("שלום")), &None);
    let expected = format!("mailto:a@b.com?subject={}", urlencoding::encode("שלום"));
    assert_eq!(url, expected);
    let encoded = url.strip_prefix("mailto:a@b.com?subject=").unwrap();
    assert!(encoded.chars().all(|c| c.is_ascii_alphanumeric() || "-._~%".contains(c)));
    assert_eq!(urlencoding::decode(encoded).unwrap(), "שלום");
}

#[test]
fn phone_number_passes_through_unmodified() {
    let url = build_tel_url("+1 555-0100");
    assert_eq!(url, "tel:+1 555-0100");
}

#[test]
fn whatsapp_strips_separators_in_both_links() {
    let (native, web) = build_whatsapp_urls("+1 555-0100", &None);
    assert_eq!(native, "whatsapp://send?phone=15550100");
    assert_eq!(web, "https://wa.me/15550100");
}

#[test]
fn whatsapp_message_is_encoded_in_both_links() {
    let (native, web) = build_whatsapp_urls("+44 20-7946 0958", &Some(String::from("hi there & bye")));
    let enc = urlencoding::encode("hi there & bye");
    assert_eq!(native, format!("whatsapp://send?phone=442079460958&text={}", enc));
    assert_eq!(web, format!("https://wa.me/442079460958?text={}", enc));
}

#[test]
fn strip_phone_is_idempotent_on_samples() {
    for sample in ["+1 555-0100", "  + - ", "12345", "+972-3-555-0199"] {
        let once = strip_phone(sample);
        let twice = strip_phone(&once);
        assert_eq!(once, twice);
    }
    assert_eq!(strip_phone("+1 555-0100"), "15550100");
    assert_eq!(strip_phone(""), "");
    assert_eq!(strip_phone("+- "), "");
}

use dialler::contact::Contact;
use dialler::error::Error;

fn contact(id: u64, first: Option<&str>, last: Option<&str>, company: Option<&str>, phone: &str) -> Contact {
    Contact {
        id,
        first_name: first.map(|s| s.to_string()),
        last_name: last.map(|s| s.to_string()),
        company_name: company.map(|s| s.to_string()),
        phone_number: phone.to_string(),
    }
}

#[test]
fn contact_line_with_every_value() {
    let c = contact(42, Some("Ann"), Some("Lee"), Some("Acme"), "0400 111 222");
    assert_eq!(c.to_string(), "#42 - Ann Lee - Acme - 0400 111 222");
}

#[test]
fn contact_line_with_missing_values() {
    let c = contact(7, None, Some("Lee"), None, "123");
    assert_eq!(c.to_string(), "#7 - N/A Lee - N/A - 123");
}

#[test]
fn contact_line_with_extreme_ids() {
    assert_eq!(contact(0, None, None, None, "").to_string(), "#0 - N/A N/A - N/A - ");
    assert_eq!(
        contact(u64::MAX, None, None, None, "1").to_string(),
        "#18446744073709551615 - N/A N/A - N/A - 1"
    );
    assert_eq!(contact(1000, None, None, None, "1").to_string(), "#1000 - N/A N/A - N/A - 1");
}

#[test]
fn dial_number_strips_blanks() {
    let c = contact(1, None, None, None, " 0400 111\t222 \n");
    assert_eq!(c.dial_number(), "0400111222");
    let unicode = contact(3, None, None, None, "0400\u{A0}111\u{3000}222\u{2009}\u{B}");
    assert_eq!(unicode.dial_number(), "0400111222");
    let plain = contact(2, None, None, None, "+61-400");
    assert_eq!(plain.dial_number(), "+61-400");
}

#[test]
fn error_messages() {
    assert_eq!(Error::ConfigError("no home".to_string()).message(), "no home");
    assert_eq!(Error::IoError("closed".to_string()).message(), "closed");
    assert_eq!(Error::StoreError("UNIQUE".to_string()).message(), "UNIQUE");
}

use zero2prod::form::Field;
use zero2prod::form::FormData;
use zero2prod::form::FormError;

fn pairs(items: &[(&str, &str)]) -> Vec<(String, String)> {
    items
        .iter()
        .map(|(key, value)| (key.to_string(), value.to_string()))
        .collect()
}

#[test]
fn from_pairs_reads_both_fields_in_any_order() {
    let form = FormData::from_pairs(&pairs(&[("name", "le guin"), ("email", "a@b")])).expect("form");
    assert_eq!(form.email, "a@b");
    assert_eq!(form.name, "le guin");

    let form = FormData::from_pairs(&pairs(&[("email", "c@d"), ("name", "ursula")])).expect("form");
    assert_eq!(form.email, "c@d");
    assert_eq!(form.name, "ursula");
}

#[test]
fn from_pairs_ignores_other_keys() {
    let form = FormData::from_pairs(&pairs(&[
        ("page", "3"),
        ("email", "a@b"),
        ("page", "4"),
        ("", ""),
        ("name", "n"),
        ("Email", "x@y"),
        ("names", "z"),
    ]))
    .expect("form");
    assert_eq!(form.email, "a@b");
    assert_eq!(form.name, "n");
}

#[test]
fn from_pairs_reports_the_missing_field() {
    assert_eq!(
        FormData::from_pairs(&pairs(&[])).err(),
        Some(FormError::MissingField(Field::Email))
    );
    assert_eq!(
        FormData::from_pairs(&pairs(&[("name", "n")])).err(),
        Some(FormError::MissingField(Field::Email))
    );
    assert_eq!(
        FormData::from_pairs(&pairs(&[("email", "a@b")])).err(),
        Some(FormError::MissingField(Field::Name))
    );
    assert_eq!(
        FormData::from_pairs(&pairs(&[("other", "x")])).err(),
        Some(FormError::MissingField(Field::Email))
    );
}

#[test]
fn from_pairs_reports_the_first_repeated_field() {
    assert_eq!(
        FormData::from_pairs(&pairs(&[("email", "a@b"), ("email", "c@d"), ("name", "n")])).err(),
        Some(FormError::DuplicateField(Field::Email))
    );
    assert_eq!(
        FormData::from_pairs(&pairs(&[("name", "n"), ("email", "a@b"), ("name", "m")])).err(),
        Some(FormError::DuplicateField(Field::Name))
    );
    assert_eq!(
        FormData::from_pairs(&pairs(&[
            ("name", "n"),
            ("email", "a@b"),
            ("name", "m"),
            ("email", "c@d")
        ]))
        .err(),
        Some(FormError::DuplicateField(Field::Name))
    );
    assert_eq!(
        FormData::from_pairs(&pairs(&[("name", "n"), ("name", "n")])).err(),
        Some(FormError::DuplicateField(Field::Name))
    );
}

#[test]
fn parse_decodes_percent_escapes_and_plus_signs() {
    let form = FormData::parse(b"name=le%20guin&email=ursula_le_guin%40gmail.com").expect("form");
    assert_eq!(form.email, "ursula_le_guin@gmail.com");
    assert_eq!(form.name, "le guin");

    let form = FormData::parse(b"email=a%2Bb%40c.d&name=le+guin").expect("form");
    assert_eq!(form.email, "a+b@c.d");
    assert_eq!(form.name, "le guin");

    let form = FormData::parse(b"name=comt%C3%A9&email=x%40y").expect("form");
    assert_eq!(form.name, "comt\u{e9}");
    assert_eq!(form.email, "x@y");
}

#[test]
fn parse_keeps_empty_values() {
    let form = FormData::parse(b"name=&email=").expect("form");
    assert_eq!(form.email, "");
    assert_eq!(form.name, "");

    let form = FormData::parse(b"name&email").expect("form");
    assert_eq!(form.email, "");
    assert_eq!(form.name, "");
}

#[test]
fn parse_reports_missing_and_repeated_fields() {
    assert_eq!(
        FormData::parse(b"").err(),
        Some(FormError::MissingField(Field::Email))
    );
    assert_eq!(
        FormData::parse(b"name=le%20guin").err(),
        Some(FormError::MissingField(Field::Email))
    );
    assert_eq!(
        FormData::parse(b"&email=ursula_le_guin%40gmail.com").err(),
        Some(FormError::MissingField(Field::Name))
    );
    assert_eq!(
        FormData::parse(b"email=a%40b&name=n&email=c%40d").err(),
        Some(FormError::DuplicateField(Field::Email))
    );
}

#[test]
fn parse_agrees_with_the_decoder_on_the_pairs() {
    let body = b"a=1&name=x+y&b=%26&email=p%40q&c";
    let decoded = serde_urlencoded::from_bytes::<Vec<(String, String)>>(body).expect("pairs");
    assert_eq!(decoded.len(), 5);

    let direct = FormData::parse(body).expect("form");
    let selected = FormData::from_pairs(&decoded).expect("form");
    assert_eq!(direct.email, selected.email);
    assert_eq!(direct.name, selected.name);
    assert_eq!(direct.email, "p@q");
    assert_eq!(direct.name, "x y");
}

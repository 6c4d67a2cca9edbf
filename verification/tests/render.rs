use nature_iq::records::Country;
use nature_iq::render::i64_to_string;
use nature_iq::render::render_country;
use nature_iq::render::render_country_list;
use nature_iq::render::u64_to_string;

#[test]
fn natural_numbers_render_in_decimal() {
    assert_eq!(u64_to_string(0), "0");
    assert_eq!(u64_to_string(7), "7");
    assert_eq!(u64_to_string(10), "10");
    assert_eq!(u64_to_string(100), "100");
    assert_eq!(u64_to_string(18446744073709551615), "18446744073709551615");
}

#[test]
fn integers_render_with_sign() {
    assert_eq!(i64_to_string(0), "0");
    assert_eq!(i64_to_string(13), "13");
    assert_eq!(i64_to_string(-1), "-1");
    assert_eq!(i64_to_string(-105), "-105");
    assert_eq!(i64_to_string(i64::MAX), "9223372036854775807");
    assert_eq!(i64_to_string(i64::MIN), "-9223372036854775808");
}

#[test]
fn one_record_renders_with_its_fields() {
    let c = Country { countries_id: -7, name: String::from("Nowhere") };
    assert_eq!(render_country(&c), "Country { id: -7, name: \"Nowhere\" }");
}

#[test]
fn list_rendering_brackets_and_separates() {
    let list = vec![
        Country { countries_id: 1, name: String::from("A") },
        Country { countries_id: 2, name: String::from("B") },
        Country { countries_id: 3, name: String::from("C") },
    ];
    assert_eq!(
        render_country_list(&list),
        "[Country { id: 1, name: \"A\" }, Country { id: 2, name: \"B\" }, Country { id: 3, name: \"C\" }]"
    );
}

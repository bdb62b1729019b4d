use xtb_rs::json::{Json, Member};
use xtb_rs::wire::{read_document, write_document};

fn member(name: &str, value: Json) -> Member {
    Member { name: name.to_string(), value }
}

#[test]
fn reads_an_object_with_every_kind_of_value() {
    let text = br#"{"a":null,"b":true,"c":12,"d":-0.5,"e":"x","f":[1,2],"g":{"h":1e+5}}"#;
    let json = read_document(text).unwrap();
    let expected = Json::Object(vec![
        member("a", Json::Null),
        member("b", Json::Bool(true)),
        member("c", Json::Number("12".to_string())),
        member("d", Json::Number("-0.5".to_string())),
        member("e", Json::Text("x".to_string())),
        member(
            "f",
            Json::Array(vec![Json::Number("1".to_string()), Json::Number("2".to_string())]),
        ),
        member("g", Json::Object(vec![member("h", Json::Number("1e+5".to_string()))])),
    ]);
    assert_eq!(json, expected);
}

#[test]
fn rejects_what_is_no_json() {
    assert!(read_document(b"{\"a\":").is_err());
    assert!(read_document(b"").is_err());
    assert!(read_document(b"{} x").is_err());
}

#[test]
fn writes_members_ordered_by_name() {
    let json = Json::Object(vec![
        member("b", Json::Bool(false)),
        member("a", Json::Number("0.01".to_string())),
    ]);
    let text = write_document(&json).unwrap();
    assert_eq!(text, br#"{"a":0.01,"b":false}"#.to_vec());
}

#[test]
fn a_later_member_replaces_an_earlier_one_of_the_same_name() {
    let json = Json::Object(vec![
        member("a", Json::Bool(false)),
        member("a", Json::Bool(true)),
    ]);
    let text = write_document(&json).unwrap();
    assert_eq!(text, br#"{"a":true}"#.to_vec());
    assert_eq!(json.get("a"), Some(&Json::Bool(true)));
}

#[test]
fn does_not_write_a_number_that_is_no_literal() {
    assert_eq!(write_document(&Json::Number("1.".to_string())), None);
    assert_eq!(write_document(&Json::Number("01".to_string())), None);
    assert_eq!(write_document(&Json::Number("1E5".to_string())), None);
    assert_eq!(write_document(&Json::Array(vec![Json::Number("x".to_string())])), None);
}

#[test]
fn keeps_number_literals_as_they_stand() {
    for literal in ["0", "-0", "7", "-12", "0.010", "1.0", "12.5e-3", "1e+21", "18446744073709551616"] {
        let json = Json::Number(literal.to_string());
        let text = write_document(&json).unwrap();
        assert_eq!(text, literal.as_bytes().to_vec());
        assert_eq!(read_document(&text).unwrap(), json);
    }
}

#[test]
fn every_number_literal_is_written_as_it_stands() {
    let mut count = 0;
    for sign in ["", "-"] {
        for integer in ["0", "7", "10", "1234567890123456789012", "18446744073709551615"] {
            for fraction in ["", ".0", ".010", ".5", ".000000000000000000000001"] {
                for exponent in ["", "e+0", "e-7", "e+308", "e+999", "e-999999"] {
                    let literal = format!("{}{}{}{}", sign, integer, fraction, exponent);
                    assert!(xtb_rs::number::check_number_literal(&literal), "{}", literal);
                    let json = Json::Number(literal.clone());
                    let text = write_document(&json).unwrap();
                    assert_eq!(text, literal.as_bytes().to_vec());
                    assert_eq!(read_document(&text).unwrap(), json);
                    count += 1;
                }
            }
        }
    }
    assert_eq!(count, 300);
}

#[test]
fn nested_documents_come_back_as_they_went() {
    let mut json = Json::Number("1".to_string());
    for depth in 0..100 {
        json = if depth % 2 == 0 {
            Json::Array(vec![json, Json::Null])
        } else {
            Json::Object(vec![member("k", json)])
        };
    }
    let text = write_document(&json).unwrap();
    assert_eq!(read_document(&text).unwrap(), json);
    assert_eq!(json.duplicate(), json);
}

use enseada::document::{client_guid, code_guid, document_path, token_guid};
use enseada::entity::TokenKind;
use enseada::guid::Guid;

#[test]
fn it_converts_from_string_with_partition() {
    let s = String::from("part:id:id");
    let guid = Guid::from(s.as_str());
    assert_eq!(guid.partition(), Some(String::from("part")));
    assert_eq!(guid.id(), &String::from("id:id"));
}

#[test]
fn it_converts_from_string_without_partition() {
    let s = String::from("no-partition");
    let guid = Guid::from(s.as_str());
    assert_eq!(guid.partition(), None);
    assert_eq!(guid.id(), &s);
}

#[test]
fn it_converts_from_string_and_to_string() {
    let s = String::from("part:id");
    let guid = Guid::from(s.as_str());
    assert_eq!(guid.to_string(), s);
}

#[test]
fn guid_key_round_trip_keeps_every_key() {
    for s in ["", ":", "a:", ":b", "part:id:id", "no-colon", "x::y"] {
        assert_eq!(Guid::from(s).to_string(), s);
    }
}

#[test]
fn guid_parts_round_trip() {
    let g = Guid::new(Some("oauth".to_string()), "client:one".to_string());
    let back = Guid::parse(g.to_string().as_str());
    assert_eq!(back.partition(), Some("oauth".to_string()));
    assert_eq!(back.id(), "client:one");
}

#[test]
fn guid_empty_partition() {
    let g = Guid::parse(":id");
    assert_eq!(g.partition(), Some(String::new()));
    assert_eq!(g.id(), "id");
}

#[test]
fn entity_ids_are_partitioned() {
    assert_eq!(client_guid("enseada").to_string(), "oauth:enseada");
    assert_eq!(code_guid("abc").to_string(), "code:abc");
    assert_eq!(token_guid(TokenKind::Access, "t").to_string(), "access_token:t");
    assert_eq!(token_guid(TokenKind::Refresh, "t").to_string(), "refresh_token:t");
    assert_eq!(document_path("oauth", "oauth:enseada"), "oauth/oauth:enseada");
}

#[test]
fn guid_from_owned_string() {
    let g = Guid::from(String::from("part:id"));
    assert_eq!(g.partition(), Some("part".to_string()));
    assert_eq!(g.id(), "id");
}

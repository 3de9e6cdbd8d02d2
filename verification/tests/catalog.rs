use tcglense::commands::catalog::{cards_request, CardSearch};
use tcglense::commands::{deck_route, game_route, item_route};
use tcglense::commands::catalog::{decode_hex, HexError};
use tcglense::weblogin::sha256_hex;

#[test]
fn decode_hex_parses_and_ignores_whitespace() {
    let out = decode_hex("00 ff 10\n2a").unwrap();
    assert_eq!(out, vec![0x00, 0xff, 0x10, 0x2a]);
}

#[test]
fn decode_hex_rejects_odd_length() {
    assert!(decode_hex("abc").is_err());
}

#[test]
fn decode_hex_rejects_non_hex() {
    assert!(decode_hex("zz").is_err());
}

#[test]
fn decode_hex_names_the_error_it_hits() {
    assert!(matches!(decode_hex("abc"), Err(HexError::OddLength)));
    assert!(matches!(decode_hex("zz"), Err(HexError::InvalidDigit)));
    assert_eq!(decode_hex("").unwrap(), Vec::<u8>::new());
    assert_eq!(decode_hex("AbCd").unwrap(), vec![0xab, 0xcd]);
}

#[test]
fn written_hex_decodes_back() {
    let s = sha256_hex("abc");
    assert_eq!(s, "ba7816bf8f01cfea414140de5dae2223b00361a396177a9cb410ff61f20015ad");
    let bytes = decode_hex(&s).unwrap();
    assert_eq!(bytes.len(), 32);
    assert_eq!(&bytes[..4], &[0xba, 0x78, 0x16, 0xbf]);
}

#[test]
fn a_sign_before_a_digit_is_not_hex() {
    assert!(matches!(decode_hex("+f"), Err(HexError::InvalidDigit)));
    assert!(matches!(decode_hex("-1"), Err(HexError::InvalidDigit)));
}

#[test]
fn card_searches_name_their_route() {
    let base = CardSearch {
        query: Some("bolt".into()),
        name: Some("Lightning".into()),
        set: None,
        related: true,
        sort: None,
        dir: Some("asc".into()),
        page: Some(2),
        page_size: None,
        preview: false,
        limit: Some(5),
    };
    let (p, q) = cards_request("mtg", &base).unwrap();
    assert_eq!(p, "/api/games/mtg/cards");
    assert_eq!(q, vec![("q", "bolt".to_string()), ("dir", "asc".to_string()), ("page", "2".to_string()), ("name", "Lightning".to_string())]);
    let in_set = CardSearch { set: Some("blb".into()), ..base };
    let (p, q) = cards_request("mtg", &in_set).unwrap();
    assert_eq!(p, "/api/games/mtg/sets/blb/cards");
    assert_eq!(q.last().unwrap(), &("include_related", "true".to_string()));
    let preview = CardSearch { preview: true, set: None, ..in_set };
    let (p, q) = cards_request("mtg", &preview).unwrap();
    assert_eq!(p, "/api/games/mtg/cards/preview");
    assert_eq!(q.last().unwrap(), &("limit", "5".to_string()));
    let bad = CardSearch { set: Some("blb".into()), ..preview };
    assert_eq!(
        cards_request("mtg", &bad).unwrap_err(),
        "--preview is not available with --set; drop --set (or use `set <code> --cards`)"
    );
}

#[test]
fn routes_put_the_game_and_the_item_in_place() {
    assert_eq!(game_route("mtg", "/sets"), "/api/games/mtg/sets");
    assert_eq!(item_route("mtg", "cards", "abc", "/prices"), "/api/games/mtg/cards/abc/prices");
    assert_eq!(deck_route("mtg", Some(7), "/tokens"), "/api/decks/mtg/7/tokens");
    assert_eq!(deck_route("mtg", None, ""), "/api/decks/mtg");
}

use transformer_rs::domain::entity::TextTokenizer;
use transformer_rs::adapter::outbound::ByteLevelTokenizer;
use transformer_rs::domain::entity::value_objects::{Text, TokenIds};

#[test]
fn encode_maps_each_utf8_byte_to_its_value() {
    let t = ByteLevelTokenizer;
    let ids = t.encode(&Text("hi".into()), false).unwrap();
    assert_eq!(ids, TokenIds(vec![104, 105]));
    let ids = t.encode(&Text("é".into()), false).unwrap();
    assert_eq!(ids, TokenIds(vec![0xc3, 0xa9]));
}

#[test]
fn special_tokens_frame_the_bytes() {
    let t = ByteLevelTokenizer;
    let ids = t.encode(&Text("hi".into()), true).unwrap();
    assert_eq!(ids, TokenIds(vec![256, 104, 105, 257]));
    assert_eq!(t.encode(&Text(String::new()), true).unwrap(), TokenIds(vec![256, 257]));
}

#[test]
fn decode_drops_special_ids() {
    let t = ByteLevelTokenizer;
    let text = t.decode(&TokenIds(vec![256, 104, 258, 105, 257, 300])).unwrap();
    assert_eq!(text, Text("hi".into()));
}

#[test]
fn decode_replaces_invalid_utf8() {
    let t = ByteLevelTokenizer;
    let text = t.decode(&TokenIds(vec![104, 0xff])).unwrap();
    assert_eq!(text, Text("h\u{fffd}".into()));
}

#[test]
fn text_roundtrips_through_the_byte_level_tokenizer() {
    let t = ByteLevelTokenizer;
    for s in ["hello transformer", "", "añb 黑 👨‍👩‍👧"] {
        for special in [false, true] {
            let ids = t.encode(&Text(s.into()), special).unwrap();
            assert_eq!(t.decode(&ids).unwrap(), Text(s.into()));
        }
    }
}

#[test]
fn byte_level_config_is_the_default() {
    let c = ByteLevelTokenizer.config();
    assert_eq!(c.kind, "byte-level-v1");
    assert_eq!(c.vocab_size, 259);
}

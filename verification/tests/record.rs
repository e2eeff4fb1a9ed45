use anime_list::models::{Anime, AnimeImage, AnimeStatus};
use anime_list::record::{decode_anime, decode_image, encode_anime, encode_image};

fn sample() -> Anime {
    Anime {
        id: "id-1".to_string(),
        name: "Show A".to_string(),
        score: 8.5f64.to_bits(),
        review: String::new(),
        link: "https://shikimori.one/animes/123-show".to_string(),
        status: AnimeStatus::Waiting,
    }
}

fn same(a: &Anime, b: &Anime) -> bool {
    a.id == b.id && a.name == b.name && a.score == b.score && a.review == b.review
        && a.link == b.link && a.status == b.status
}

#[test]
fn an_entry_is_written_field_by_field() {
    let a = Anime {
        id: "ab".to_string(),
        name: "é".to_string(),
        score: 0x0102030405060708,
        review: String::new(),
        link: "/".to_string(),
        status: AnimeStatus::Dropped,
    };
    let expected: Vec<u8> = vec![
        2, 0, 0, 0, 0, 0, 0, 0, b'a', b'b',
        2, 0, 0, 0, 0, 0, 0, 0, 0xc3, 0xa9,
        8, 7, 6, 5, 4, 3, 2, 1,
        0, 0, 0, 0, 0, 0, 0, 0,
        1, 0, 0, 0, 0, 0, 0, 0, b'/',
        1,
    ];
    assert_eq!(encode_anime(&a), expected);
}

#[test]
fn an_image_is_written_field_by_field() {
    let i = AnimeImage {
        link: "l".to_string(),
        image_data: vec![9, 8, 7],
        content_type: "t/x".to_string(),
    };
    let expected: Vec<u8> = vec![
        1, 0, 0, 0, 0, 0, 0, 0, b'l',
        3, 0, 0, 0, 0, 0, 0, 0, b't', b'/', b'x',
        3, 0, 0, 0, 0, 0, 0, 0, 9, 8, 7,
    ];
    assert_eq!(encode_image(&i), expected);
}

#[test]
fn an_entry_comes_back_as_written() {
    let a = sample();
    let back = decode_anime(&encode_anime(&a)).unwrap();
    assert!(same(&a, &back));
    assert_eq!(f64::from_bits(back.score), 8.5);
}

#[test]
fn every_status_comes_back() {
    for status in [AnimeStatus::Completed, AnimeStatus::Dropped, AnimeStatus::Waiting, AnimeStatus::Unset] {
        let mut a = sample();
        a.status = status;
        assert_eq!(decode_anime(&encode_anime(&a)).unwrap().status, status);
    }
}

#[test]
fn texts_outside_ascii_come_back() {
    let mut a = sample();
    a.name = "Стальной алхимик 鋼の錬金術師 🎬".to_string();
    a.review = "line one\nline two\0end".to_string();
    let back = decode_anime(&encode_anime(&a)).unwrap();
    assert!(same(&a, &back));
}

#[test]
fn an_image_comes_back_as_written() {
    let i = AnimeImage {
        link: "https://shikimori.one/animes/1".to_string(),
        image_data: (0..=255u8).collect(),
        content_type: "image/png".to_string(),
    };
    let back = decode_image(&encode_image(&i)).unwrap();
    assert_eq!(back.link, i.link);
    assert_eq!(back.image_data, i.image_data);
    assert_eq!(back.content_type, i.content_type);
}

#[test]
fn an_empty_image_comes_back() {
    let i = AnimeImage { link: String::new(), image_data: Vec::new(), content_type: String::new() };
    let bytes = encode_image(&i);
    assert_eq!(bytes.len(), 24);
    let back = decode_image(&bytes).unwrap();
    assert!(back.link.is_empty() && back.image_data.is_empty() && back.content_type.is_empty());
}

#[test]
fn what_is_cut_short_is_no_entry() {
    let bytes = encode_anime(&sample());
    let mut n = 0;
    while n < bytes.len() {
        assert!(decode_anime(&bytes[..n]).is_none());
        n += 1;
    }
}

#[test]
fn what_goes_on_after_the_end_is_no_entry() {
    let mut bytes = encode_anime(&sample());
    bytes.push(0);
    assert!(decode_anime(&bytes).is_none());
    let mut bytes = encode_image(&AnimeImage {
        link: "l".to_string(),
        image_data: vec![1],
        content_type: "t".to_string(),
    });
    bytes.push(0);
    assert!(decode_image(&bytes).is_none());
}

#[test]
fn an_unknown_status_is_no_entry() {
    let mut bytes = encode_anime(&sample());
    let last = bytes.len() - 1;
    bytes[last] = 4;
    assert!(decode_anime(&bytes).is_none());
}

#[test]
fn a_text_that_is_not_utf8_is_no_entry() {
    let mut bytes = encode_anime(&sample());
    bytes[8] = 0xff;
    assert!(decode_anime(&bytes).is_none());
}

#[test]
fn a_length_beyond_the_end_is_no_entry() {
    let mut bytes = encode_anime(&sample());
    bytes[7] = 0xff;
    assert!(decode_anime(&bytes).is_none());
    assert!(decode_image(&[0xff; 8]).is_none());
    assert!(decode_image(&[]).is_none());
}

#[test]
fn json_is_no_entry() {
    assert!(decode_anime(br#"{"id":"1","name":"x"}"#).is_none());
}

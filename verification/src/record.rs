//! The bytes that records are stored as.
//!
//! A record is the sequence of its fields. A number is written as eight
//! bytes, lowest first. A text is written as the number of bytes of its
//! UTF-8 form, then those bytes; a run of bytes as its length, then the
//! bytes. A status is one byte.

use vstd::prelude::*;
use vstd::bytes::{
    spec_u64_to_le_bytes, spec_u64_from_le_bytes, u64_to_le_bytes, u64_from_le_bytes,
    lemma_auto_spec_u64_to_from_le_bytes,
};
use vstd::slice::{slice_subrange, slice_to_vec};
use vstd::utf8::{
    encode_utf8, decode_utf8, valid_utf8, encode_utf8_valid_utf8, encode_utf8_decode_utf8,
};
use crate::models::{Anime, AnimeView, AnimeImage, ImageView, AnimeStatus};

verus! {

/// The byte that a status is written as.
pub open spec fn status_byte(status: AnimeStatus) -> u8 {
    match status {
        AnimeStatus::Completed => 0,
        AnimeStatus::Dropped => 1,
        AnimeStatus::Waiting => 2,
        AnimeStatus::Unset => 3,
    }
}

/// The bytes that a run of bytes is written as.
pub open spec fn blob_bytes(data: Seq<u8>) -> Seq<u8> {
    spec_u64_to_le_bytes(data.len() as u64) + data
}

/// The bytes that a text is written as.
pub open spec fn text_bytes(text: Seq<char>) -> Seq<u8> {
    blob_bytes(encode_utf8(text))
}

/// The bytes that an entry is written as.
pub open spec fn anime_bytes(a: AnimeView) -> Seq<u8> {
    text_bytes(a.id) + text_bytes(a.name) + spec_u64_to_le_bytes(a.score) + text_bytes(a.review)
        + text_bytes(a.link) + seq![status_byte(a.status)]
}

/// The bytes that an image is written as.
pub open spec fn image_bytes(i: ImageView) -> Seq<u8> {
    text_bytes(i.link) + text_bytes(i.content_type) + blob_bytes(i.image_data)
}

/// Whether the lengths of an entry's texts can be written down.
pub open spec fn anime_fits(a: AnimeView) -> bool {
    &&& encode_utf8(a.id).len() <= u64::MAX
    &&& encode_utf8(a.name).len() <= u64::MAX
    &&& encode_utf8(a.review).len() <= u64::MAX
    &&& encode_utf8(a.link).len() <= u64::MAX
}

/// Whether the lengths of an image's fields can be written down.
pub open spec fn image_fits(i: ImageView) -> bool {
    &&& encode_utf8(i.link).len() <= u64::MAX
    &&& encode_utf8(i.content_type).len() <= u64::MAX
    &&& i.image_data.len() <= u64::MAX
}

/// Reads a number from the front of `b`: the number and what follows it.
pub open spec fn read_u64(b: Seq<u8>) -> Option<(u64, Seq<u8>)> {
    if b.len() >= 8 {
        Some((spec_u64_from_le_bytes(b.take(8)), b.skip(8)))
    } else {
        None
    }
}

/// Reads a run of bytes from the front of `b`.
pub open spec fn read_blob(b: Seq<u8>) -> Option<(Seq<u8>, Seq<u8>)> {
    match read_u64(b) {
        Some((n, rest)) => if n <= rest.len() {
            Some((rest.take(n as int), rest.skip(n as int)))
        } else {
            None
        },
        None => None,
    }
}

/// Reads a text from the front of `b`.
pub open spec fn read_text(b: Seq<u8>) -> Option<(Seq<char>, Seq<u8>)> {
    match read_blob(b) {
        Some((data, rest)) => if valid_utf8(data) {
            Some((decode_utf8(data), rest))
        } else {
            None
        },
        None => None,
    }
}

/// Reads a status from the front of `b`.
pub open spec fn read_status(b: Seq<u8>) -> Option<(AnimeStatus, Seq<u8>)> {
    if b.len() == 0 {
        None
    } else if b[0] == 0 {
        Some((AnimeStatus::Completed, b.skip(1)))
    } else if b[0] == 1 {
        Some((AnimeStatus::Dropped, b.skip(1)))
    } else if b[0] == 2 {
        Some((AnimeStatus::Waiting, b.skip(1)))
    } else if b[0] == 3 {
        Some((AnimeStatus::Unset, b.skip(1)))
    } else {
        None
    }
}

/// The entry that `b` is the stored form of, if it is one.
pub open spec fn anime_of_bytes(b: Seq<u8>) -> Option<AnimeView> {
    match read_text(b) {
        Some((id, b1)) => match read_text(b1) {
            Some((name, b2)) => match read_u64(b2) {
                Some((score, b3)) => match read_text(b3) {
                    Some((review, b4)) => match read_text(b4) {
                        Some((link, b5)) => match read_status(b5) {
                            Some((status, b6)) => if b6.len() == 0 {
                                Some(AnimeView { id, name, score, review, link, status })
                            } else {
                                None
                            },
                            None => None,
                        },
                        None => None,
                    },
                    None => None,
                },
                None => None,
            },
            None => None,
        },
        None => None,
    }
}

/// The image that `b` is the stored form of, if it is one.
pub open spec fn image_of_bytes(b: Seq<u8>) -> Option<ImageView> {
    match read_text(b) {
        Some((link, b1)) => match read_text(b1) {
            Some((content_type, b2)) => match read_blob(b2) {
                Some((image_data, b3)) => if b3.len() == 0 {
                    Some(ImageView { link, image_data, content_type })
                } else {
                    None
                },
                None => None,
            },
            None => None,
        },
        None => None,
    }
}

/// A number that was written is read back, with what follows it.
pub proof fn lemma_read_u64(x: u64, rest: Seq<u8>)
    ensures
        read_u64(spec_u64_to_le_bytes(x) + rest) == Some((x, rest)),
{
    lemma_auto_spec_u64_to_from_le_bytes();
    let b = spec_u64_to_le_bytes(x) + rest;
    assert(b.take(8) =~= spec_u64_to_le_bytes(x));
    assert(b.skip(8) =~= rest);
}

/// A run of bytes that was written is read back, with what follows it.
pub proof fn lemma_read_blob(data: Seq<u8>, rest: Seq<u8>)
    requires
        data.len() <= u64::MAX,
    ensures
        read_blob(blob_bytes(data) + rest) == Some((data, rest)),
{
    let n = data.len() as u64;
    assert(blob_bytes(data) + rest =~= spec_u64_to_le_bytes(n) + (data + rest));
    lemma_read_u64(n, data + rest);
    assert((data + rest).take(n as int) =~= data);
    assert((data + rest).skip(n as int) =~= rest);
}

/// A text that was written is read back, with what follows it.
pub proof fn lemma_read_text(text: Seq<char>, rest: Seq<u8>)
    requires
        encode_utf8(text).len() <= u64::MAX,
    ensures
        read_text(text_bytes(text) + rest) == Some((text, rest)),
{
    lemma_read_blob(encode_utf8(text), rest);
    encode_utf8_valid_utf8(text);
    encode_utf8_decode_utf8(text);
}

/// An entry that was written is read back.
pub proof fn lemma_anime_round_trip(a: AnimeView)
    requires
        anime_fits(a),
    ensures
        anime_of_bytes(anime_bytes(a)) == Some(a),
{
    let tail = seq![status_byte(a.status)];
    let b5 = tail;
    let b4 = text_bytes(a.link) + b5;
    let b3 = text_bytes(a.review) + b4;
    let b2 = spec_u64_to_le_bytes(a.score) + b3;
    let b1 = text_bytes(a.name) + b2;
    let b = text_bytes(a.id) + b1;
    assert(anime_bytes(a) =~= b);
    lemma_read_text(a.id, b1);
    lemma_read_text(a.name, b2);
    lemma_read_u64(a.score, b3);
    lemma_read_text(a.review, b4);
    lemma_read_text(a.link, b5);
    assert(read_status(b5) == Some((a.status, b5.skip(1))));
    assert(b5.skip(1).len() == 0);
}

/// An image that was written is read back.
pub proof fn lemma_image_round_trip(i: ImageView)
    requires
        image_fits(i),
    ensures
        image_of_bytes(image_bytes(i)) == Some(i),
{
    let b2 = blob_bytes(i.image_data);
    let b1 = text_bytes(i.content_type) + b2;
    let b = text_bytes(i.link) + b1;
    assert(image_bytes(i) =~= b);
    lemma_read_text(i.link, b1);
    lemma_read_text(i.content_type, b2);
    assert(b2 =~= blob_bytes(i.image_data) + Seq::<u8>::empty());
    lemma_read_blob(i.image_data, Seq::<u8>::empty());
}

/// Turns bytes into the text that they are the UTF-8 form of.
///
/// Trusted: calls `String::from_utf8` of std, which gives a text exactly
/// when the bytes are well-formed UTF-8, and then the text that they encode.
#[verifier::external_body]
pub(crate) fn text_from_utf8(bytes: Vec<u8>) -> (r: Option<String>)
    ensures
        r is Some <==> valid_utf8(bytes@),
        r matches Some(s) ==> s@ == decode_utf8(bytes@),
{
    String::from_utf8(bytes).ok()
}

fn put_u64(out: &mut Vec<u8>, x: u64)
    ensures
        final(out)@ == old(out)@ + spec_u64_to_le_bytes(x),
{
    let mut digits = u64_to_le_bytes(x);
    out.append(&mut digits);
}

fn put_bytes(out: &mut Vec<u8>, data: &[u8])
    ensures
        final(out)@ == old(out)@ + data@,
{
    let mut i: usize = 0;
    while i < data.len()
        invariant
            i <= data.len(),
            out@ == old(out)@ + data@.take(i as int),
        decreases data.len() - i,
    {
        out.push(data[i]);
        assert(data@.take(i + 1) =~= data@.take(i as int).push(data@[i as int]));
        i += 1;
    }
    assert(data@.take(data@.len() as int) =~= data@);
}

fn put_blob(out: &mut Vec<u8>, data: &[u8])
    ensures
        final(out)@ == old(out)@ + blob_bytes(data@),
        data@.len() <= u64::MAX,
{
    put_u64(out, data.len() as u64);
    put_bytes(out, data);
    assert(out@ =~= old(out)@ + blob_bytes(data@));
}

fn put_text(out: &mut Vec<u8>, text: &str)
    ensures
        final(out)@ == old(out)@ + text_bytes(text@),
        encode_utf8(text@).len() <= u64::MAX,
{
    put_blob(out, text.as_bytes());
}

/// Tells the byte of a status.
fn status_to_byte(status: AnimeStatus) -> (b: u8)
    ensures
        b == status_byte(status),
{
    match status {
        AnimeStatus::Completed => 0,
        AnimeStatus::Dropped => 1,
        AnimeStatus::Waiting => 2,
        AnimeStatus::Unset => 3,
    }
}

/// Writes an entry.
pub fn encode_anime(a: &Anime) -> (r: Vec<u8>)
    ensures
        r@ == anime_bytes(a@),
        anime_fits(a@),
{
    let mut out: Vec<u8> = Vec::new();
    put_text(&mut out, a.id.as_str());
    put_text(&mut out, a.name.as_str());
    put_u64(&mut out, a.score);
    put_text(&mut out, a.review.as_str());
    put_text(&mut out, a.link.as_str());
    out.push(status_to_byte(a.status));
    assert(out@ =~= anime_bytes(a@));
    out
}

/// Writes an image.
pub fn encode_image(i: &AnimeImage) -> (r: Vec<u8>)
    ensures
        r@ == image_bytes(i@),
        image_fits(i@),
{
    let mut out: Vec<u8> = Vec::new();
    put_text(&mut out, i.link.as_str());
    put_text(&mut out, i.content_type.as_str());
    put_blob(&mut out, i.image_data.as_slice());
    assert(out@ =~= image_bytes(i@));
    out
}

fn take_u64(bytes: &[u8], pos: usize) -> (r: Option<(u64, usize)>)
    requires
        pos <= bytes@.len(),
    ensures
        match r {
            Some((x, next)) => pos <= next <= bytes@.len() && read_u64(bytes@.skip(pos as int))
                == Some((x, bytes@.skip(next as int))),
            None => read_u64(bytes@.skip(pos as int)) is None,
        },
{
    if bytes.len() - pos < 8 {
        return None;
    }
    let x = u64_from_le_bytes(slice_subrange(bytes, pos, pos + 8));
    assert(bytes@.skip(pos as int).take(8) =~= bytes@.subrange(pos as int, pos + 8));
    assert(bytes@.skip(pos as int).skip(8) =~= bytes@.skip(pos + 8));
    Some((x, pos + 8))
}

fn take_blob(bytes: &[u8], pos: usize) -> (r: Option<(Vec<u8>, usize)>)
    requires
        pos <= bytes@.len(),
    ensures
        match r {
            Some((data, next)) => pos <= next <= bytes@.len() && read_blob(
                bytes@.skip(pos as int),
            ) == Some((data@, bytes@.skip(next as int))),
            None => read_blob(bytes@.skip(pos as int)) is None,
        },
{
    match take_u64(bytes, pos) {
        None => None,
        Some((n, start)) => {
            if n > (bytes.len() - start) as u64 {
                return None;
            }
            let end: usize = start + n as usize;
            let data = slice_to_vec(slice_subrange(bytes, start, end));
            assert(bytes@.skip(start as int).take(n as int) =~= bytes@.subrange(
                start as int,
                end as int,
            ));
            assert(bytes@.skip(start as int).skip(n as int) =~= bytes@.skip(end as int));
            Some((data, end))
        },
    }
}

fn take_text(bytes: &[u8], pos: usize) -> (r: Option<(String, usize)>)
    requires
        pos <= bytes@.len(),
    ensures
        match r {
            Some((text, next)) => pos <= next <= bytes@.len() && read_text(
                bytes@.skip(pos as int),
            ) == Some((text@, bytes@.skip(next as int))),
            None => read_text(bytes@.skip(pos as int)) is None,
        },
{
    match take_blob(bytes, pos) {
        None => None,
        Some((data, next)) => match text_from_utf8(data) {
            None => None,
            Some(text) => Some((text, next)),
        },
    }
}

fn take_status(bytes: &[u8], pos: usize) -> (r: Option<(AnimeStatus, usize)>)
    requires
        pos <= bytes@.len(),
    ensures
        match r {
            Some((status, next)) => pos <= next <= bytes@.len() && read_status(
                bytes@.skip(pos as int),
            ) == Some((status, bytes@.skip(next as int))),
            None => read_status(bytes@.skip(pos as int)) is None,
        },
{
    if pos >= bytes.len() {
        return None;
    }
    let b = bytes[pos];
    assert(bytes@.skip(pos as int)[0] == b);
    assert(bytes@.skip(pos as int).skip(1) =~= bytes@.skip(pos + 1));
    if b == 0 {
        Some((AnimeStatus::Completed, pos + 1))
    } else if b == 1 {
        Some((AnimeStatus::Dropped, pos + 1))
    } else if b == 2 {
        Some((AnimeStatus::Waiting, pos + 1))
    } else if b == 3 {
        Some((AnimeStatus::Unset, pos + 1))
    } else {
        None
    }
}

/// Reads an entry: `None` where the bytes are not the stored form of one.
pub fn decode_anime(bytes: &[u8]) -> (r: Option<Anime>)
    ensures
        match r {
            Some(a) => anime_of_bytes(bytes@) == Some(a@),
            None => anime_of_bytes(bytes@) is None,
        },
{
    assert(bytes@.skip(0) =~= bytes@);
    let (id, pos) = match take_text(bytes, 0) {
        Some(x) => x,
        None => { return None; },
    };
    let (name, pos) = match take_text(bytes, pos) {
        Some(x) => x,
        None => { return None; },
    };
    let (score, pos) = match take_u64(bytes, pos) {
        Some(x) => x,
        None => { return None; },
    };
    let (review, pos) = match take_text(bytes, pos) {
        Some(x) => x,
        None => { return None; },
    };
    let (link, pos) = match take_text(bytes, pos) {
        Some(x) => x,
        None => { return None; },
    };
    let (status, pos) = match take_status(bytes, pos) {
        Some(x) => x,
        None => { return None; },
    };
    if pos != bytes.len() {
        return None;
    }
    Some(Anime { id, name, score, review, link, status })
}

/// Reads an image: `None` where the bytes are not the stored form of one.
pub fn decode_image(bytes: &[u8]) -> (r: Option<AnimeImage>)
    ensures
        match r {
            Some(i) => image_of_bytes(bytes@) == Some(i@),
            None => image_of_bytes(bytes@) is None,
        },
{
    assert(bytes@.skip(0) =~= bytes@);
    let (link, pos) = match take_text(bytes, 0) {
        Some(x) => x,
        None => { return None; },
    };
    let (content_type, pos) = match take_text(bytes, pos) {
        Some(x) => x,
        None => { return None; },
    };
    let (image_data, pos) = match take_blob(bytes, pos) {
        Some(x) => x,
        None => { return None; },
    };
    if pos != bytes.len() {
        return None;
    }
    Some(AnimeImage { link, image_data, content_type })
}

} // verus!

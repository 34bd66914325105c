//! Files that the user picks, which come as URIs.
use crate::text::same;
use vstd::prelude::*;
use vstd::utf8::*;

verus! {

/// The value of a hexadecimal digit.
pub open spec fn hex_value(b: u8) -> Option<int> {
    if '0' as u8 <= b <= '9' as u8 {
        Some(b - '0' as u8)
    } else if 'a' as u8 <= b <= 'f' as u8 {
        Some(b - 'a' as u8 + 10)
    } else if 'A' as u8 <= b <= 'F' as u8 {
        Some(b - 'A' as u8 + 10)
    } else {
        None
    }
}

/// The bytes begin with a percent sign and two hexadecimal digits.
pub open spec fn starts_with_escape(bytes: Seq<u8>) -> bool {
    &&& bytes.len() >= 3
    &&& bytes[0] == '%' as u8
    &&& hex_value(bytes[1]) is Some
    &&& hex_value(bytes[2]) is Some
}

/// The bytes with each percent sign and two hexadecimal digits replaced by the
/// byte that they stand for.
pub open spec fn percent_decoded(bytes: Seq<u8>) -> Seq<u8>
    decreases bytes.len(),
{
    if bytes.len() == 0 {
        Seq::empty()
    } else if starts_with_escape(bytes) {
        seq![(16 * hex_value(bytes[1])->0 + hex_value(bytes[2])->0) as u8] + percent_decoded(
            bytes.skip(3),
        )
    } else {
        seq![bytes[0]] + percent_decoded(bytes.skip(1))
    }
}

/// `decode` of urlencoding: escapes are replaced, everything else stays, be it a
/// plus sign or a percent sign that escapes nothing. There is no result if the
/// bytes are not UTF-8 then.
#[verifier::external_body]
fn percent_decode(text: &str) -> (r: Option<String>)
    ensures
        match r {
            Some(s) => encode_utf8(s@) == percent_decoded(encode_utf8(text@)),
            None => !valid_utf8(percent_decoded(encode_utf8(text@))),
        },
{
    urlencoding::decode(text).ok().map(|s| s.into_owned())
}

/// A URI without the scheme of local files.
pub open spec fn without_scheme(uri: Seq<char>) -> Seq<char> {
    if uri.len() >= 7 && uri.take(7) == "file://"@ {
        uri.skip(7)
    } else {
        uri
    }
}

/// The path of a file that was picked. `None` if it is not UTF-8.
pub fn file_path(uri: &str) -> (r: Option<String>)
    ensures
        match r {
            Some(path) => encode_utf8(path@) == percent_decoded(
                encode_utf8(without_scheme(uri@)),
            ),
            None => !valid_utf8(percent_decoded(encode_utf8(without_scheme(uri@)))),
        },
{
    let n: usize = uri.unicode_len();
    if n >= 7 {
        assert(uri@.subrange(0, 7) =~= uri@.take(7));
        if same(uri.substring_char(0, 7), "file://") {
            assert(uri@.subrange(7, n as int) =~= uri@.skip(7));
            return percent_decode(uri.substring_char(7, n));
        }
    }
    percent_decode(uri)
}

/// The first of the files that were picked.
pub fn first_uri(uris: &Vec<String>) -> (r: Option<String>)
    ensures
        r == (if uris.len() > 0 {
            Some(uris@[0])
        } else {
            None
        }),
{
    if uris.len() > 0 {
        Some(uris[0].clone())
    } else {
        None
    }
}

/// A text without percent signs stays as it is.
pub proof fn plain_text_is_unchanged(bytes: Seq<u8>)
    requires
        forall|i: int| 0 <= i < bytes.len() ==> bytes[i] != '%' as u8,
    ensures
        percent_decoded(bytes) == bytes,
    decreases bytes.len(),
{
    if bytes.len() > 0 {
        plain_text_is_unchanged(bytes.skip(1));
        assert(seq![bytes[0]] + bytes.skip(1) =~= bytes);
    }
}

/// The scheme of local files does not belong to the path: with it or without it,
/// the path is the same.
pub proof fn the_scheme_does_not_count(
    uri: &str,
    rest: &str,
    path: Option<String>,
    rest_path: Option<String>,
)
    requires
        uri@ == "file://"@ + rest@,
        rest@.len() < 7 || rest@.take(7) != "file://"@,
        call_ensures(file_path, (uri,), path),
        call_ensures(file_path, (rest,), rest_path),
    ensures
        path is Some <==> rest_path is Some,
        path is Some ==> path->0@ == rest_path->0@,
{
    reveal_strlit("file://");
    assert(uri@.take(7) =~= "file://"@);
    assert(uri@.skip(7) =~= rest@);
    if path is Some {
        encode_utf8_valid_utf8(path->0@);
    }
    if rest_path is Some {
        encode_utf8_valid_utf8(rest_path->0@);
    }
    if path is Some && rest_path is Some {
        encode_utf8_decode_utf8(path->0@);
        encode_utf8_decode_utf8(rest_path->0@);
    }
}

/// A percent sign with two hexadecimal digits stands for the byte of that number.
pub proof fn an_escape_stands_for_a_byte(
    uri: &str,
    rest: &str,
    path: String,
    rest_path: String,
    high: u8,
    low: u8,
    byte: u8,
)
    requires
        uri@.len() < 7 || uri@.take(7) != "file://"@,
        rest@.len() < 7 || rest@.take(7) != "file://"@,
        ({
            ||| 0x30 <= high <= 0x39 && byte / 16 == high - 0x30
            ||| 0x61 <= high <= 0x66 && byte / 16 == high - 0x61 + 10
            ||| 0x41 <= high <= 0x46 && byte / 16 == high - 0x41 + 10
        }),
        ({
            ||| 0x30 <= low <= 0x39 && byte % 16 == low - 0x30
            ||| 0x61 <= low <= 0x66 && byte % 16 == low - 0x61 + 10
            ||| 0x41 <= low <= 0x46 && byte % 16 == low - 0x41 + 10
        }),
        encode_utf8(uri@) == seq![0x25u8, high, low] + encode_utf8(rest@),
        call_ensures(file_path, (uri,), Some(path)),
        call_ensures(file_path, (rest,), Some(rest_path)),
    ensures
        encode_utf8(path@) == seq![byte] + encode_utf8(rest_path@),
{
    let bytes = encode_utf8(uri@);
    assert(bytes[0] == 0x25 && bytes[1] == high && bytes[2] == low);
    assert(bytes.skip(3) =~= encode_utf8(rest@));
    assert(starts_with_escape(bytes));
    assert(16 * hex_value(high)->0 + hex_value(low)->0 == byte);
}

/// A byte that begins no escape stays as it is.
pub proof fn other_bytes_stay(
    uri: &str,
    rest: &str,
    path: String,
    rest_path: String,
    byte: u8,
)
    requires
        uri@.len() < 7 || uri@.take(7) != "file://"@,
        rest@.len() < 7 || rest@.take(7) != "file://"@,
        byte != 0x25,
        encode_utf8(uri@) == seq![byte] + encode_utf8(rest@),
        call_ensures(file_path, (uri,), Some(path)),
        call_ensures(file_path, (rest,), Some(rest_path)),
    ensures
        encode_utf8(path@) == seq![byte] + encode_utf8(rest_path@),
{
    let bytes = encode_utf8(uri@);
    assert(bytes[0] == byte);
    assert(bytes.skip(1) =~= encode_utf8(rest@));
}

/// A path without percent signs is taken as it stands, and so there is one.
pub proof fn plain_paths_stay(uri: &str, path: Option<String>)
    requires
        uri@.len() < 7 || uri@.take(7) != "file://"@,
        forall|i: int|
            0 <= i < encode_utf8(uri@).len() ==> #[trigger] encode_utf8(uri@)[i] != 0x25,
        call_ensures(file_path, (uri,), path),
    ensures
        path is Some,
        path->0@ == uri@,
{
    plain_text_is_unchanged(encode_utf8(uri@));
    encode_utf8_valid_utf8(uri@);
    encode_utf8_decode_utf8(uri@);
    encode_utf8_decode_utf8(path->0@);
}

/// Of several files that were picked, the first one counts.
pub proof fn the_first_file_counts(uris: &Vec<String>, first: Option<String>)
    requires
        call_ensures(first_uri, (uris,), first),
    ensures
        first is Some <==> uris@.len() > 0,
        uris@.len() > 0 ==> first == Some(uris@[0]),
{
}

} // verus!

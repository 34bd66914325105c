//! Text helpers: decimal numbers, searching, trimming and byte order.
use vstd::prelude::*;
use vstd::string::*;
use vstd::utf8::*;

verus! {

/// The character for one decimal digit.
pub open spec fn digit(d: nat) -> char {
    ('0' as nat + d) as char
}

/// The decimal digits of `n`, without leading zeros.
pub open spec fn decimal(n: nat) -> Seq<char>
    decreases n,
{
    if n < 10 {
        seq![digit(n)]
    } else {
        decimal(n / 10).push(digit(n % 10))
    }
}

/// The decimal digits of `n`, after a minus sign where it is negative.
pub open spec fn signed_decimal(n: int) -> Seq<char> {
    if n < 0 {
        seq!['-'] + decimal((-n) as nat)
    } else {
        decimal(n as nat)
    }
}

/// The view of an optional string.
pub open spec fn opt_view(o: Option<String>) -> Option<Seq<char>> {
    match o {
        Some(s) => Some(s@),
        None => None,
    }
}

/// The view of an optional text.
pub open spec fn str_view(text: Option<&str>) -> Option<Seq<char>> {
    match text {
        Some(s) => Some(s@),
        None => None,
    }
}

/// An optional string, read only.
pub fn as_opt_str(text: &Option<String>) -> (r: Option<&str>)
    ensures
        str_view(r) == opt_view(*text),
{
    match text {
        Some(s) => Some(s.as_str()),
        None => None,
    }
}

/// The views of a list of strings.
pub open spec fn views(list: Seq<String>) -> Seq<Seq<char>> {
    list.map_values(|s: String| s@)
}

/// `pat` stands in `s` at position `i`.
pub open spec fn occurs_at(s: Seq<char>, pat: Seq<char>, i: int) -> bool {
    0 <= i && i + pat.len() <= s.len() && s.subrange(i, i + pat.len()) == pat
}

/// `pat` stands in `s` at position `i`, and at no later one.
pub open spec fn occurs_last_at(s: Seq<char>, pat: Seq<char>, i: int) -> bool {
    occurs_at(s, pat, i) && forall|j: int| #[trigger] occurs_at(s, pat, j) ==> j <= i
}

/// Where `pat` occurs last in `s`, if it does.
pub open spec fn last_index(s: Seq<char>, pat: Seq<char>) -> Option<int> {
    if exists|i: int| occurs_at(s, pat, i) {
        Some(choose|i: int| occurs_last_at(s, pat, i))
    } else {
        None
    }
}

/// Unicode's `White_Space` property.
pub open spec fn white_space(c: char) -> bool {
    let n = c as int;
    ||| 9 <= n <= 13
    ||| n == 0x20
    ||| n == 0x85
    ||| n == 0xa0
    ||| n == 0x1680
    ||| 0x2000 <= n <= 0x200a
    ||| n == 0x2028
    ||| n == 0x2029
    ||| n == 0x202f
    ||| n == 0x205f
    ||| n == 0x3000
}

/// `s` without the white space in front.
pub open spec fn trim_start(s: Seq<char>) -> Seq<char>
    decreases s.len(),
{
    if s.len() > 0 && white_space(s[0]) {
        trim_start(s.drop_first())
    } else {
        s
    }
}

/// `s` without the white space behind.
pub open spec fn trim_end(s: Seq<char>) -> Seq<char>
    decreases s.len(),
{
    if s.len() > 0 && white_space(s.last()) {
        trim_end(s.drop_last())
    } else {
        s
    }
}

/// `s` without the white space around it.
pub open spec fn trimmed(s: Seq<char>) -> Seq<char> {
    trim_end(trim_start(s))
}

/// `a` comes before `b` in the lexicographic order of bytes.
pub open spec fn bytes_before(a: Seq<u8>, b: Seq<u8>) -> bool
    decreases a.len(),
{
    if b.len() == 0 {
        false
    } else if a.len() == 0 {
        true
    } else if a[0] != b[0] {
        a[0] < b[0]
    } else {
        bytes_before(a.drop_first(), b.drop_first())
    }
}

/// `a` comes before `b` in the order of strings, which is that of their bytes.
pub open spec fn text_before(a: Seq<char>, b: Seq<char>) -> bool {
    bytes_before(encode_utf8(a), encode_utf8(b))
}

/// The parts one after the other, with `sep` between two of them.
pub open spec fn joined(parts: Seq<Seq<char>>, sep: Seq<char>) -> Seq<char>
    decreases parts.len(),
{
    if parts.len() == 0 {
        Seq::empty()
    } else if parts.len() == 1 {
        parts[0]
    } else {
        joined(parts.drop_last(), sep) + sep + parts.last()
    }
}

/// Whether two strings hold the same characters.
pub fn same(a: &str, b: &str) -> (r: bool)
    ensures
        r == (a@ == b@),
{
    let left: String = a.to_owned();
    let right: String = b.to_owned();
    left == right
}

/// A text, or a placeholder where there is none or it is empty.
pub open spec fn or_placeholder(text: Option<Seq<char>>, placeholder: Seq<char>) -> Seq<char> {
    match text {
        Some(s) => if s.len() > 0 {
            s
        } else {
            placeholder
        },
        None => placeholder,
    }
}

/// A text, or a placeholder where there is none or it is empty.
pub fn shown_text(text: Option<&str>, placeholder: &str) -> (r: String)
    ensures
        r@ == or_placeholder(str_view(text), placeholder@),
{
    match text {
        Some(s) => if s.unicode_len() > 0 {
            s.to_owned()
        } else {
            placeholder.to_owned()
        },
        None => placeholder.to_owned(),
    }
}

/// An entry field's text as an optional value: an empty field has none.
pub open spec fn entry_value(text: Seq<char>) -> Option<Seq<char>> {
    if text.len() > 0 {
        Some(text)
    } else {
        None
    }
}

/// The text that an entry field shows for an optional value.
pub open spec fn entry_text(value: Option<Seq<char>>) -> Seq<char> {
    match value {
        Some(s) => s,
        None => Seq::empty(),
    }
}

/// An entry field's text as an optional value.
pub fn value_of_entry(text: String) -> (r: Option<String>)
    ensures
        opt_view(r) == entry_value(text@),
{
    if text.as_str().unicode_len() > 0 {
        Some(text)
    } else {
        None
    }
}

/// The text that an entry field shows for an optional value.
pub fn text_of_entry(value: &Option<String>) -> (r: String)
    ensures
        r@ == entry_text(opt_view(*value)),
{
    match value {
        Some(s) => s.clone(),
        None => String::new(),
    }
}

/// A copy of an optional string.
pub fn clone_opt(o: &Option<String>) -> (r: Option<String>)
    ensures
        r == *o,
{
    match o {
        Some(s) => Some(s.clone()),
        None => None,
    }
}

/// `a` followed by `b`.
pub fn join2(a: &str, b: &str) -> (r: String)
    ensures
        r@ == a@ + b@,
{
    let mut s: String = a.to_owned();
    s.append(b);
    s
}

/// `a`, `b` and `c` one after the other.
pub fn join3(a: &str, b: &str, c: &str) -> (r: String)
    ensures
        r@ == a@ + b@ + c@,
{
    let mut s: String = a.to_owned();
    s.append(b);
    s.append(c);
    s
}

fn digit_text(d: u64) -> (r: &'static str)
    requires
        d < 10,
    ensures
        r@ == seq![digit(d as nat)],
{
    proof {
        reveal_strlit("0");
        reveal_strlit("1");
        reveal_strlit("2");
        reveal_strlit("3");
        reveal_strlit("4");
        reveal_strlit("5");
        reveal_strlit("6");
        reveal_strlit("7");
        reveal_strlit("8");
        reveal_strlit("9");
    }
    match d {
        0 => "0",
        1 => "1",
        2 => "2",
        3 => "3",
        4 => "4",
        5 => "5",
        6 => "6",
        7 => "7",
        8 => "8",
        _ => "9",
    }
}

/// `n` in decimal.
pub fn decimal_string(n: u64) -> (r: String)
    ensures
        r@ == decimal(n as nat),
    decreases n,
{
    if n < 10 {
        digit_text(n).to_owned()
    } else {
        let mut s: String = decimal_string(n / 10);
        s.append(digit_text(n % 10));
        s
    }
}

/// `n` in decimal, with a sign where it is negative.
pub fn signed_string(n: i64) -> (r: String)
    ensures
        r@ == signed_decimal(n as int),
{
    if n < 0 {
        let magnitude: u64 = (-(n + 1)) as u64 + 1;
        proof {
            reveal_strlit("-");
        }
        join2("-", decimal_string(magnitude).as_str())
    } else {
        decimal_string(n as u64)
    }
}

/// The characters of `s`.
pub fn chars_of(s: &str) -> (r: Vec<char>)
    ensures
        r@ == s@,
{
    let mut v: Vec<char> = Vec::new();
    for c in it: s.chars()
        invariant
            it.seq() == s@,
            v@ == it.seq().take(it.index()),
    {
        v.push(c);
    }
    v
}

/// Whether `pat` stands in `s` at position `i`.
fn occurs(s: &Vec<char>, pat: &Vec<char>, i: usize) -> (r: bool)
    requires
        i + pat.len() <= s.len(),
    ensures
        r == occurs_at(s@, pat@, i as int),
{
    for k in 0..pat.len()
        invariant
            i + pat.len() <= s.len(),
            forall|m: int| 0 <= m < k ==> s@[i + m] == pat@[m],
    {
        if s[i + k] != pat[k] {
            assert(s@.subrange(i as int, i + pat.len())[k as int] != pat@[k as int]);
            return false;
        }
    }
    assert(s@.subrange(i as int, i + pat.len()) =~= pat@);
    true
}

/// Where `pat` occurs last in `s`.
pub fn rfind(s: &Vec<char>, pat: &Vec<char>) -> (r: Option<usize>)
    requires
        pat.len() > 0,
    ensures
        match r {
            Some(i) => last_index(s@, pat@) == Some(i as int) && occurs_last_at(s@, pat@, i as int),
            None => last_index(s@, pat@) is None,
        },
{
    if pat.len() > s.len() {
        assert(forall|j: int| !occurs_at(s@, pat@, j));
        return None;
    }
    let mut n: usize = s.len() - pat.len() + 1;
    while n > 0
        invariant
            n <= s.len() - pat.len() + 1,
            pat.len() > 0,
            forall|j: int| #[trigger] occurs_at(s@, pat@, j) ==> j < n,
        decreases n,
    {
        n = n - 1;
        if occurs(s, pat, n) {
            assert(occurs_last_at(s@, pat@, n as int));
            return Some(n);
        }
    }
    None
}

/// Whether a character is white space.
pub fn is_white_space(c: char) -> (r: bool)
    ensures
        r == white_space(c),
{
    let n: u32 = c as u32;
    (9 <= n && n <= 13) || n == 0x20 || n == 0x85 || n == 0xa0 || n == 0x1680 || (0x2000 <= n && n
        <= 0x200a) || n == 0x2028 || n == 0x2029 || n == 0x202f || n == 0x205f || n == 0x3000
}

/// `s` without the white space around it.
pub fn trim(s: &str) -> (r: String)
    ensures
        r@ == trimmed(s@),
{
    let chars: Vec<char> = chars_of(s);
    let mut from: usize = 0;
    assert(chars@.skip(0) =~= chars@);
    while from < chars.len() && is_white_space(chars[from])
        invariant
            from <= chars.len(),
            trim_start(chars@) == trim_start(chars@.skip(from as int)),
        decreases chars.len() - from,
    {
        proof {
            assert(chars@.skip(from as int).drop_first() =~= chars@.skip(from + 1));
        }
        from = from + 1;
    }
    let mut to: usize = chars.len();
    assert(chars@.skip(from as int) =~= chars@.subrange(from as int, to as int));
    while to > from && is_white_space(chars[to - 1])
        invariant
            from <= to <= chars.len(),
            trimmed(chars@) == trim_end(chars@.subrange(from as int, to as int)),
        decreases to,
    {
        proof {
            assert(chars@.subrange(from as int, to as int).drop_last() =~= chars@.subrange(
                from as int,
                to - 1,
            ));
        }
        to = to - 1;
    }
    s.substring_char(from, to).to_owned()
}

/// Whether `a` comes before `b` in the order of strings.
pub fn is_before(a: &str, b: &str) -> (r: bool)
    ensures
        r == text_before(a@, b@),
{
    let left: &[u8] = a.as_bytes();
    let right: &[u8] = b.as_bytes();
    let mut i: usize = 0;
    assert(left@.skip(0) =~= left@);
    assert(right@.skip(0) =~= right@);
    while i < left.len() && i < right.len() && left[i] == right[i]
        invariant
            i <= left.len(),
            i <= right.len(),
            bytes_before(left@, right@) == bytes_before(left@.skip(i as int), right@.skip(i as int)),
        decreases left.len() - i,
    {
        proof {
            assert(left@.skip(i as int).drop_first() =~= left@.skip(i + 1));
            assert(right@.skip(i as int).drop_first() =~= right@.skip(i + 1));
        }
        i = i + 1;
    }
    if i >= right.len() {
        false
    } else if i >= left.len() {
        true
    } else {
        left[i] < right[i]
    }
}

/// The strings one after the other, with `sep` between two of them.
pub fn join(parts: &Vec<String>, upto: usize, sep: &str) -> (r: String)
    requires
        upto <= parts.len(),
    ensures
        r@ == joined(views(parts@).take(upto as int), sep@),
{
    let mut s: String = String::new();
    for i in 0..upto
        invariant
            upto <= parts.len(),
            s@ == joined(views(parts@).take(i as int), sep@),
    {
        proof {
            let now = views(parts@).take(i + 1);
            assert(now.drop_last() =~= views(parts@).take(i as int));
            assert(now.last() == parts@[i as int]@);
        }
        if i > 0 {
            s.append(sep);
        }
        s.append(parts[i].as_str());
        assert(i == 0 ==> s@ =~= parts@[0]@);
    }
    s
}

/// A text in lower case.
pub uninterp spec fn lowercase(text: Seq<char>) -> Seq<char>;

/// `str::to_lowercase`. What the lower case of a text is, Unicode says.
#[verifier::external_body]
pub(crate) fn to_lowercase(text: &str) -> (r: String)
    ensures
        r@ == lowercase(text@),
{
    text.to_lowercase()
}

/// No byte string comes before itself.
pub proof fn bytes_before_irreflexive(a: Seq<u8>)
    ensures
        !bytes_before(a, a),
    decreases a.len(),
{
    if a.len() > 0 {
        bytes_before_irreflexive(a.drop_first());
    }
}

/// The order of byte strings is transitive.
pub proof fn bytes_before_transitive(a: Seq<u8>, b: Seq<u8>, c: Seq<u8>)
    requires
        bytes_before(a, b),
        bytes_before(b, c),
    ensures
        bytes_before(a, c),
    decreases a.len(),
{
    if a.len() > 0 && b.len() > 0 && c.len() > 0 && a[0] == b[0] && b[0] == c[0] {
        bytes_before_transitive(a.drop_first(), b.drop_first(), c.drop_first());
    }
}

/// Of two different byte strings one comes before the other.
pub proof fn bytes_before_total(a: Seq<u8>, b: Seq<u8>)
    ensures
        a == b || bytes_before(a, b) || bytes_before(b, a),
    decreases a.len(),
{
    if a.len() > 0 && b.len() > 0 {
        if a[0] == b[0] {
            bytes_before_total(a.drop_first(), b.drop_first());
            if a.drop_first() == b.drop_first() {
                assert(a =~= seq![a[0]] + a.drop_first());
                assert(b =~= seq![b[0]] + b.drop_first());
            }
        }
    } else if a.len() == 0 && b.len() == 0 {
        assert(a =~= b);
    }
}

/// The order of strings is a strict total order: no string comes before itself,
/// of two different ones exactly one comes before the other, and the order is
/// transitive.
pub proof fn text_order_is_total(a: Seq<char>, b: Seq<char>, c: Seq<char>)
    ensures
        !text_before(a, a),
        a == b || text_before(a, b) || text_before(b, a),
        !(text_before(a, b) && text_before(b, a)),
        text_before(a, b) && text_before(b, c) ==> text_before(a, c),
{
    let (x, y, z) = (encode_utf8(a), encode_utf8(b), encode_utf8(c));
    bytes_before_irreflexive(x);
    bytes_before_total(x, y);
    encode_utf8_decode_utf8(a);
    encode_utf8_decode_utf8(b);
    if bytes_before(x, y) && bytes_before(y, x) {
        bytes_before_transitive(x, y, x);
    }
    if bytes_before(x, y) && bytes_before(y, z) {
        bytes_before_transitive(x, y, z);
    }
}

proof fn common_bytes_do_not_count(a: Seq<u8>, b: Seq<u8>, n: int)
    requires
        0 <= n <= a.len(),
        n <= b.len(),
        a.take(n) == b.take(n),
    ensures
        bytes_before(a, b) == bytes_before(a.skip(n), b.skip(n)),
    decreases n,
{
    if n == 0 {
        assert(a.skip(0) =~= a);
        assert(b.skip(0) =~= b);
    } else {
        assert(a.take(n)[0] == a[0]);
        assert(b.take(n)[0] == b[0]);
        assert(a.drop_first().take(n - 1) =~= a.take(n).drop_first());
        assert(b.drop_first().take(n - 1) =~= b.take(n).drop_first());
        common_bytes_do_not_count(a.drop_first(), b.drop_first(), n - 1);
        assert(a.drop_first().skip(n - 1) =~= a.skip(n));
        assert(b.drop_first().skip(n - 1) =~= b.skip(n));
    }
}

/// The first byte in which two texts differ decides which of them comes first; a
/// text that goes on from another comes behind it.
pub proof fn the_first_difference_decides(a: &str, b: &str, first: bool, n: int)
    requires
        call_ensures(is_before, (a, b), first),
        0 <= n <= encode_utf8(a@).len(),
        n <= encode_utf8(b@).len(),
        encode_utf8(a@).take(n) == encode_utf8(b@).take(n),
    ensures
        n < encode_utf8(a@).len() && n < encode_utf8(b@).len() && encode_utf8(a@)[n]
            != encode_utf8(b@)[n] ==> first == (encode_utf8(a@)[n] < encode_utf8(b@)[n]),
        n == encode_utf8(a@).len() ==> first == (n < encode_utf8(b@).len()),
        n == encode_utf8(b@).len() ==> !first,
{
    common_bytes_do_not_count(encode_utf8(a@), encode_utf8(b@), n);
}

/// A text that consists of ASCII characters is placed by the first character in
/// which it differs from another one.
pub proof fn letters_are_placed_by_their_codes(a: &str, b: &str, first: bool, n: int)
    requires
        call_ensures(is_before, (a, b), first),
        is_ascii_chars(a@),
        is_ascii_chars(b@),
        0 <= n < a@.len(),
        n < b@.len(),
        a@.take(n) == b@.take(n),
        a@[n] != b@[n],
    ensures
        first == ((a@[n] as u32) < (b@[n] as u32)),
{
    is_ascii_chars_encode_utf8(a@);
    is_ascii_chars_encode_utf8(b@);
    let (x, y) = (encode_utf8(a@), encode_utf8(b@));
    assert forall|i: int| 0 <= i < n implies x[i] == y[i] by {
        assert(a@.take(n)[i] == a@[i]);
        assert(b@.take(n)[i] == b@[i]);
    }
    assert(x.take(n) =~= y.take(n));
    common_bytes_do_not_count(x, y, n);
}

/// A number is written digit by digit: it ends in its last digit, in front of
/// which stands what is left of it.
pub proof fn numbers_are_written_digit_by_digit(n: u64, text: String, rest: String)
    requires
        call_ensures(decimal_string, (n,), text),
        call_ensures(decimal_string, ((n / 10) as u64,), rest),
    ensures
        n < 10 ==> text@.len() == 1,
        n >= 10 ==> text@.drop_last() == rest@,
        text@.len() > 0,
        text@.last() as int == 0x30 + n % 10,
{
    assert(n >= 10 ==> text@.drop_last() =~= rest@);
}

/// A negative number is written as a minus sign and the number without it.
pub proof fn negative_numbers_have_a_sign(n: i64, text: String, magnitude: u64, digits: String)
    requires
        call_ensures(signed_string, (n,), text),
        magnitude == (if n < 0 { -n } else { n as int }),
        call_ensures(decimal_string, (magnitude,), digits),
    ensures
        n >= 0 ==> text@ == digits@,
        n < 0 ==> text@ == seq!['-'] + digits@,
{
}

/// What is found last in a text stands there, and nowhere further on; nothing is
/// found only where it stands nowhere.
pub proof fn the_last_place_is_found(
    s: &Vec<char>,
    pat: &Vec<char>,
    r: Option<usize>,
    i: int,
)
    requires
        call_ensures(rfind, (s, pat), r),
        0 <= i,
        i + pat@.len() <= s@.len(),
        s@.subrange(i, i + pat@.len()) == pat@,
    ensures
        r is Some,
        i <= r->0,
        r->0 + pat@.len() <= s@.len(),
        s@.subrange(r->0 as int, r->0 + pat@.len()) == pat@,
{
    assert(occurs_at(s@, pat@, i));
}

/// What is found stands where it was found.
pub proof fn what_is_found_is_there(s: &Vec<char>, pat: &Vec<char>, r: Option<usize>)
    requires
        call_ensures(rfind, (s, pat), r),
        r is Some,
    ensures
        r->0 + pat@.len() <= s@.len(),
        s@.subrange(r->0 as int, r->0 + pat@.len()) == pat@,
{
}

proof fn trimming_cuts_white_space(s: Seq<char>) -> (bounds: (int, int))
    ensures
        0 <= bounds.0 <= bounds.1 <= s.len(),
        trimmed(s) == s.subrange(bounds.0, bounds.1),
        forall|i: int| 0 <= i < bounds.0 ==> white_space(#[trigger] s[i]),
        forall|i: int| bounds.1 <= i < s.len() ==> white_space(#[trigger] s[i]),
        bounds.0 < bounds.1 ==> !white_space(s[bounds.0]) && !white_space(s[bounds.1 - 1]),
    decreases s.len(),
{
    if s.len() == 0 {
        assert(s.subrange(0, 0) =~= s);
        (0, 0)
    } else if white_space(s[0]) {
        let (from, to) = trimming_cuts_white_space(s.drop_first());
        assert(s.subrange(from + 1, to + 1) =~= s.drop_first().subrange(from, to));
        assert forall|i: int| 0 <= i < from + 1 implies white_space(#[trigger] s[i]) by {
            if i > 0 {
                assert(s[i] == s.drop_first()[i - 1]);
            }
        }
        assert forall|i: int| to + 1 <= i < s.len() implies white_space(#[trigger] s[i]) by {
            assert(s[i] == s.drop_first()[i - 1]);
        }
        (from + 1, to + 1)
    } else if white_space(s.last()) {
        let (from, to) = trimming_cuts_white_space(s.drop_last());
        assert(trim_start(s) == s);
        assert(trim_start(s.drop_last()) == s.drop_last());
        assert(s.subrange(from, to) =~= s.drop_last().subrange(from, to));
        assert forall|i: int| to <= i < s.len() implies white_space(#[trigger] s[i]) by {
            if i < s.len() - 1 {
                assert(s[i] == s.drop_last()[i]);
            }
        }
        (from, to)
    } else {
        assert(s.subrange(0, s.len() as int) =~= s);
        (0, s.len() as int)
    }
}

/// Trimming cuts off white space at both ends, all of it, and nothing else: what
/// is left is a part of the text that neither begins nor ends with white space.
pub proof fn trimming_leaves_the_middle(text: &str, r: String) -> (bounds: (int, int))
    requires
        call_ensures(trim, (text,), r),
    ensures
        0 <= bounds.0 <= bounds.1 <= text@.len(),
        r@ == text@.subrange(bounds.0, bounds.1),
        forall|i: int|
            0 <= i < bounds.0 || bounds.1 <= i < text@.len() ==> white_space(
                #[trigger] text@[i],
            ),
        bounds.0 < bounds.1 ==> !white_space(text@[bounds.0]) && !white_space(
            text@[bounds.1 - 1],
        ),
{
    trimming_cuts_white_space(text@)
}

/// Space, tab, line feed and carriage return are white space; letters, digits and
/// signs are not.
pub proof fn letters_are_not_white_space(c: char, white: bool)
    requires
        call_ensures(is_white_space, (c,), white),
    ensures
        c == ' ' || c == '\t' || c == '\n' || c == '\r' ==> white,
        c == '\u{b}' || c == '\u{c}' || c == '\u{85}' || c == '\u{a0}' ==> white,
        c == '\u{1680}' || '\u{2000}' <= c <= '\u{200a}' || c == '\u{2028}' || c == '\u{2029}' || c
            == '\u{202f}' || c == '\u{205f}' || c == '\u{3000}' ==> white,
        0x21 <= c as u32 <= 0x7e ==> !white,
        0xa1 <= c as u32 <= 0x167f ==> !white,
        '\u{200b}' <= c <= '\u{2027}' ==> !white,
        c as u32 > 0x3000 ==> !white,
{
}

/// Texts are joined with one separator between two of them, and none at the ends.
pub proof fn joining_puts_separators_between(
    parts: &Vec<String>,
    upto: usize,
    next: usize,
    sep: &str,
    shorter: String,
    longer: String,
)
    requires
        next == upto + 1,
        next <= parts@.len(),
        call_ensures(join, (parts, upto, sep), shorter),
        call_ensures(join, (parts, next, sep), longer),
    ensures
        upto == 0 ==> shorter@.len() == 0 && longer@ == parts@[0]@,
        upto > 0 ==> longer@ == shorter@ + sep@ + parts@[upto as int]@,
{
    let now = views(parts@).take(upto + 1);
    assert(now.drop_last() =~= views(parts@).take(upto as int));
}

/// An empty field has no value, and a field shows the value that was read from it.
pub proof fn fields_show_their_values(text: String, value: Option<String>, shown: String)
    requires
        call_ensures(value_of_entry, (text,), value),
        call_ensures(text_of_entry, (&value,), shown),
    ensures
        shown@ == text@,
        value is None <==> text@.len() == 0,
        value is Some ==> value->0@ == text@,
{
    assert(text@.len() == 0 ==> shown@ =~= text@);
}

/// A field without a value is empty, and one with a value shows it.
pub proof fn a_missing_value_leaves_the_field_empty(
    value: String,
    empty: String,
    filled: String,
)
    requires
        call_ensures(text_of_entry, (&None,), empty),
        call_ensures(text_of_entry, (&Some(value),), filled),
    ensures
        empty@.len() == 0,
        filled@ == value@,
{
}

/// A text is shown wherever there is one, a placeholder where there is none.
pub proof fn placeholders_stand_for_nothing(
    text: &str,
    placeholder: &str,
    shown: String,
    missing: String,
)
    requires
        call_ensures(shown_text, (Some(text), placeholder), shown),
        call_ensures(shown_text, (None, placeholder), missing),
    ensures
        text@.len() > 0 ==> shown@ == text@,
        text@.len() == 0 ==> shown@ == placeholder@,
        missing@ == placeholder@,
{
}

/// Texts are put together in their order, whole, and nothing between them; a text
/// is the same as another exactly if it has the same characters.
pub proof fn texts_are_put_together(
    a: &str,
    b: &str,
    c: &str,
    two: String,
    three: String,
    equal: bool,
    chars: Vec<char>,
    i: int,
)
    requires
        call_ensures(join2, (a, b), two),
        call_ensures(join3, (a, b, c), three),
        call_ensures(same, (a, b), equal),
        call_ensures(chars_of, (a,), chars),
    ensures
        two@.len() == a@.len() + b@.len(),
        two@.take(a@.len() as int) == a@,
        two@.skip(a@.len() as int) == b@,
        three@ == two@ + c@,
        equal <==> a@.len() == b@.len() && a@.is_prefix_of(b@),
        chars@.len() == a@.len() && (0 <= i < a@.len() ==> chars@[i] == a@[i]),
{
    assert(two@.take(a@.len() as int) =~= a@);
    assert(two@.skip(a@.len() as int) =~= b@);
    if a@.len() == b@.len() && a@.is_prefix_of(b@) {
        assert(a@ =~= b@);
    }
}

} // verus!

//! JSON text: string literals, and the framing of arrays and objects.
//!
//! Texts are sequences of characters. The functions here put already encoded
//! values together; they never look inside a value.

use vstd::prelude::*;
use vstd::string::*;

verus! {

/// The JSON string literal that stands for `s`: `s` between two quotation
/// marks, with the characters that JSON does not allow in a string escaped.
pub uninterp spec fn string_literal(s: Seq<char>) -> Seq<char>;

/// Whether `text` opens and closes with a quotation mark, as every JSON
/// string literal does.
pub open spec fn is_quoted(text: Seq<char>) -> bool {
    text.len() >= 2 && text.first() == '"' && text.last() == '"'
}

/// The items of `items`, in order, with a comma between neighbours.
pub open spec fn joined(items: Seq<Seq<char>>) -> Seq<char>
    decreases items.len(),
{
    if items.len() == 0 {
        Seq::empty()
    } else if items.len() == 1 {
        items[0]
    } else {
        joined(items.drop_last()) + seq![','] + items.last()
    }
}

/// The JSON array whose elements are the texts `items`.
pub open spec fn array_text(items: Seq<Seq<char>>) -> Seq<char> {
    seq!['['] + joined(items) + seq![']']
}

/// One member of a JSON object: the literal of its key, a colon, its value.
pub open spec fn member_text(member: (Seq<char>, Seq<char>)) -> Seq<char> {
    string_literal(member.0) + seq![':'] + member.1
}

/// The JSON object with the given members, each a key and the text of its
/// value, in the given order.
pub open spec fn object_text(members: Seq<(Seq<char>, Seq<char>)>) -> Seq<char> {
    seq!['{'] + joined(Seq::new(members.len(), |i: int| member_text(members[i]))) + seq!['}']
}

/// Whether one of `members` has the key `key`.
pub open spec fn has_key(members: Seq<(Seq<char>, Seq<char>)>, key: Seq<char>) -> bool {
    exists|i: int| 0 <= i < members.len() && (#[trigger] members[i]).0 == key
}

/// Whether `c` is one of the ten decimal digits.
pub open spec fn is_digit(c: char) -> bool {
    '0' <= c <= '9'
}

/// Whether `s` is one decimal digit or more, and nothing else.
pub open spec fn is_digits(s: Seq<char>) -> bool {
    s.len() > 0 && forall|k: int| 0 <= k < s.len() ==> is_digit(#[trigger] s[k])
}

/// The integer part of a JSON number: a single zero, or digits of which the
/// first is not zero.
pub open spec fn is_integer_part(s: Seq<char>) -> bool {
    is_digits(s) && (s[0] == '0' ==> s.len() == 1)
}

/// The fraction part of a JSON number: nothing, or a point and digits.
pub open spec fn is_fraction_part(s: Seq<char>) -> bool {
    s.len() == 0 || (s[0] == '.' && is_digits(s.skip(1)))
}

/// The exponent part of a JSON number: nothing, or `e` or `E`, then a sign
/// or none, then digits.
pub open spec fn is_exponent_part(s: Seq<char>) -> bool {
    s.len() == 0 || ((s[0] == 'e' || s[0] == 'E') && (is_digits(s.skip(1)) || (s.len() >= 2 && (s[1]
        == '+' || s[1] == '-') && is_digits(s.skip(2)))))
}

/// Whether `s` from `start` on falls into an integer part that ends at `i`,
/// a fraction part that ends at `j`, and an exponent part.
pub open spec fn splits_as_number(s: Seq<char>, start: int, i: int, j: int) -> bool {
    &&& 0 <= start <= i <= j <= s.len()
    &&& is_integer_part(s.subrange(start, i))
    &&& is_fraction_part(s.subrange(i, j))
    &&& is_exponent_part(s.subrange(j, s.len() as int))
}

/// The length of the sign of a number: 1 where `s` begins with a minus
/// sign, else 0.
pub open spec fn sign_len(s: Seq<char>) -> int {
    if s.len() > 0 && s[0] == '-' {
        1
    } else {
        0
    }
}

/// Whether `s` is a JSON number: a minus sign or none, then an integer
/// part, a fraction part and an exponent part.
pub open spec fn is_number_text(s: Seq<char>) -> bool {
    exists|i: int, j: int| splits_as_number(s, sign_len(s), i, j)
}

/// In a number the integer part ends where the first run of digits ends.
proof fn lemma_integer_part_ends(s: Seq<char>, start: int, i: int, j: int, p: int)
    requires
        splits_as_number(s, start, i, j),
        start <= p <= s.len(),
        forall|k: int| start <= k < p ==> is_digit(#[trigger] s[k]),
        p < s.len() ==> !is_digit(s[p]),
    ensures
        i == p,
{
    let int_part = s.subrange(start, i);
    if i > p {
        assert(is_digit(int_part[p - start]));
    } else if i < p {
        assert(is_digit(s[i]));
        let frac_part = s.subrange(i, j);
        let exp_part = s.subrange(j, s.len() as int);
        if frac_part.len() > 0 {
            assert(frac_part[0] == s[i]);
        } else {
            assert(exp_part[0] == s[i]);
        }
    }
}

/// In a number whose integer part ends at `i`, the fraction part is empty
/// unless a point stands at `i`, and then it ends where the digits after the
/// point end.
proof fn lemma_fraction_part_ends(s: Seq<char>, start: int, i: int, j: int, p: int)
    requires
        splits_as_number(s, start, i, j),
        i < s.len() && s[i] == '.' ==> {
            &&& i < p <= s.len()
            &&& forall|k: int| i < k < p ==> is_digit(#[trigger] s[k])
            &&& p < s.len() ==> !is_digit(s[p])
        },
    ensures
        i < s.len() && s[i] == '.' ==> j == p && p > i + 1,
        !(i < s.len() && s[i] == '.') ==> j == i,
{
    let frac_part = s.subrange(i, j);
    let exp_part = s.subrange(j, s.len() as int);
    if i < s.len() && s[i] == '.' {
        if frac_part.len() == 0 {
            assert(exp_part[0] == s[i]);
        } else {
            let digits = frac_part.skip(1);
            assert(digits.len() > 0);
            assert(forall|k: int| 0 <= k < digits.len() ==> digits[k] == s[i + 1 + k]);
            if j > p {
                assert(is_digit(digits[p - i - 1]));
            } else if j < p {
                assert(is_digit(s[j]));
                assert(exp_part[0] == s[j]);
            }
        }
    } else if frac_part.len() > 0 {
        assert(frac_part[0] == s[i]);
    }
}

/// A text between quotation marks is no number: where a string literal
/// stands, no reader takes it for a numeric value.
pub proof fn lemma_quoted_is_no_number(text: Seq<char>)
    requires
        is_quoted(text),
    ensures
        !is_number_text(text),
{
    if is_number_text(text) {
        let (i, j) = choose|i: int, j: int| splits_as_number(text, sign_len(text), i, j);
        assert(is_digit(text.subrange(0, i)[0]));
    }
}

/// Every character of a number is an ASCII character.
proof fn lemma_number_is_ascii(s: Seq<char>)
    requires
        is_number_text(s),
    ensures
        vstd::utf8::is_ascii_chars(s),
{
    let start = sign_len(s);
    let (i, j) = choose|i: int, j: int| splits_as_number(s, start, i, j);
    let int_part = s.subrange(start, i);
    let frac_part = s.subrange(i, j);
    let exp_part = s.subrange(j, s.len() as int);
    assert forall|k: int| 0 <= k < s.len() implies '\0' <= #[trigger] s[k] <= '\u{7f}' by {
        if k < start {
        } else if k < i {
            assert(is_digit(int_part[k - start]));
        } else if k < j {
            assert(frac_part[0] == s[i]);
            if k > i {
                assert(is_digit(frac_part.skip(1)[k - i - 1]));
            }
        } else {
            assert(exp_part[0] == s[j]);
            if k > j {
                if is_digits(exp_part.skip(1)) {
                    assert(is_digit(exp_part.skip(1)[k - j - 1]));
                } else {
                    assert(exp_part[1] == s[j + 1]);
                    if k > j + 1 {
                        assert(is_digit(exp_part.skip(2)[k - j - 2]));
                    }
                }
            }
        }
    }
}

/// The views of the strings of `items`.
pub open spec fn texts(items: Seq<String>) -> Seq<Seq<char>> {
    items.map_values(|s: String| s@)
}

/// A member of a JSON object under construction: a key, not yet quoted, and
/// the text of an encoded value.
pub struct Member {
    pub key: String,
    pub value: String,
}

impl View for Member {
    type V = (Seq<char>, Seq<char>);

    open spec fn view(&self) -> (Seq<char>, Seq<char>) {
        (self.key@, self.value@)
    }
}

/// The views of the members of `members`.
pub open spec fn member_views(members: Seq<Member>) -> Seq<(Seq<char>, Seq<char>)> {
    members.map_values(|m: Member| m@)
}

/// Encodes `s` as a JSON string literal.
///
/// Calls `serde_json`: the `Display` of a `serde_json::Value::String` writes
/// the compact JSON text of the string. The contract names that text and
/// claims of it only that it stands between two quotation marks.
#[verifier::external_body]
pub(crate) fn quote(s: &str) -> (r: String)
    ensures
        r@ == string_literal(s@),
        is_quoted(r@),
{
    serde_json::Value::from(s).to_string()
}

/// The ASCII codes of the characters that a number is made of.
const ZERO: u8 = 48;

const NINE: u8 = 57;

const MINUS: u8 = 45;

const PLUS: u8 = 43;

const POINT: u8 = 46;

const LOWER_E: u8 = 101;

const UPPER_E: u8 = 69;

/// The end of the run of digits of `text` that begins at `from`.
fn skip_digits(text: &str, from: usize, len: usize) -> (end: usize)
    requires
        text.is_ascii(),
        len == text@.len(),
        from <= len,
    ensures
        from <= end <= len,
        forall|k: int| from <= k < end ==> is_digit(#[trigger] text@[k]),
        end < len ==> !is_digit(text@[end as int]),
{
    let mut end = from;
    while end < len
        invariant
            text.is_ascii(),
            len == text@.len(),
            from <= end <= len,
            forall|k: int| from <= k < end ==> is_digit(#[trigger] text@[k]),
        ensures
            from <= end <= len,
            forall|k: int| from <= k < end ==> is_digit(#[trigger] text@[k]),
            end < len ==> !is_digit(text@[end as int]),
        decreases len - end,
    {
        let b = text.get_ascii(end);
        if b < ZERO || b > NINE {
            break ;
        }
        end += 1;
    }
    end
}

/// Tells whether `text` is a JSON number.
pub fn is_number(text: &str) -> (r: bool)
    ensures
        r == is_number_text(text@),
{
    if !text.is_ascii() {
        proof {
            if is_number_text(text@) {
                lemma_number_is_ascii(text@);
            }
        }
        return false;
    }
    let len = text.as_bytes().len();
    proof {
        is_ascii_spec_bytes(text);
    }
    let start: usize = if len > 0 && text.get_ascii(0) == MINUS { 1 } else { 0 };
    let i = skip_digits(text, start, len);
    let mut j = i;
    if i < len && text.get_ascii(i) == POINT {
        j = skip_digits(text, i + 1, len);
    }
    let ghost s = text@;
    assert(start == sign_len(s));
    proof {
        assert forall|a: int, b: int| splits_as_number(s, start as int, a, b) implies a == i && b
            == j && j != i + 1 by {
            lemma_integer_part_ends(s, start as int, a, b, i as int);
            lemma_fraction_part_ends(s, start as int, a, b, j as int);
        }
    }
    if i == start || (i > start + 1 && text.get_ascii(start) == ZERO) || j - i == 1 {
        proof {
            if is_number_text(s) {
                let (a, b) = choose|a: int, b: int| splits_as_number(s, start as int, a, b);
                assert(s.subrange(start as int, a)[0] == s[start as int]);
            }
        }
        return false;
    }
    proof {
        let int_part = s.subrange(start as int, i as int);
        let frac_part = s.subrange(i as int, j as int);
        assert(is_integer_part(int_part));
        if j > i {
            assert forall|k: int| 0 <= k < frac_part.skip(1).len() implies is_digit(
                #[trigger] frac_part.skip(1)[k],
            ) by {
                assert(frac_part.skip(1)[k] == s[i + 1 + k]);
            }
        }
        assert(is_fraction_part(frac_part));
    }
    if j == len {
        assert(splits_as_number(s, start as int, i as int, j as int));
        return true;
    }
    let mark = text.get_ascii(j);
    let ghost exp_part = s.subrange(j as int, len as int);
    assert(exp_part[0] == s[j as int]);
    if mark != LOWER_E && mark != UPPER_E {
        return false;
    }
    let mut k = j + 1;
    if k < len && (text.get_ascii(k) == PLUS || text.get_ascii(k) == MINUS) {
        k = k + 1;
    }
    let end = skip_digits(text, k, len);
    proof {
        let after_mark = exp_part.skip(1);
        let after_sign = exp_part.skip(2);
        assert(forall|t: int| 0 <= t < after_mark.len() ==> after_mark[t] == s[j + 1 + t]);
        assert(exp_part.len() >= 2 ==> forall|t: int|
            0 <= t < after_sign.len() ==> after_sign[t] == s[j + 2 + t]);
        if end > k && end == len {
            assert(is_exponent_part(exp_part));
            assert(splits_as_number(s, start as int, i as int, j as int));
        } else {
            if is_exponent_part(exp_part) {
                if is_digits(after_mark) {
                    assert(is_digit(after_mark[0]));
                    if end < len {
                        assert(is_digit(after_mark[end - j - 1]));
                    }
                } else {
                    assert(exp_part[1] == s[j + 1]);
                    assert(is_digit(after_sign[0]));
                    if end < len {
                        assert(is_digit(after_sign[end - j - 2]));
                    }
                }
            }
        }
    }
    end > k && end == len
}

/// Joins `items` with commas.
fn join(items: &Vec<String>) -> (r: String)
    ensures
        r@ == joined(texts(items@)),
{
    let mut out = String::new();
    let mut i: usize = 0;
    while i < items.len()
        invariant
            i <= items.len(),
            out@ == joined(texts(items@).take(i as int)),
        decreases items.len() - i,
    {
        proof {
            reveal_strlit(",");
            assert(texts(items@).take(i + 1).drop_last() =~= texts(items@).take(i as int));
        }
        if i > 0 {
            out.append(",");
        }
        out.append(items[i].as_str());
        assert(out@ =~= joined(texts(items@).take(i + 1)));
        i += 1;
    }
    assert(texts(items@).take(i as int) =~= texts(items@));
    out
}

/// Frames the encoded values `items` as a JSON array.
pub fn array(items: &Vec<String>) -> (r: String)
    ensures
        r@ == array_text(texts(items@)),
{
    let inner = join(items);
    let mut out = String::from_str("[");
    out.append(inner.as_str());
    out.append("]");
    proof {
        reveal_strlit("[");
        reveal_strlit("]");
        assert(out@ =~= array_text(texts(items@)));
    }
    out
}

/// Frames `members` as a JSON object, quoting each key.
pub fn object(members: &Vec<Member>) -> (r: String)
    ensures
        r@ == object_text(member_views(members@)),
{
    let mut parts: Vec<String> = Vec::new();
    let mut i: usize = 0;
    while i < members.len()
        invariant
            i <= members.len(),
            parts@.len() == i,
            forall|j: int| 0 <= j < i ==> (#[trigger] parts@[j])@ == member_text(members@[j]@),
        decreases members.len() - i,
    {
        let mut part = quote(members[i].key.as_str());
        part.append(":");
        part.append(members[i].value.as_str());
        proof {
            reveal_strlit(":");
        }
        parts.push(part);
        i += 1;
    }
    assert(texts(parts@) =~= Seq::new(
        member_views(members@).len(),
        |i: int| member_text(member_views(members@)[i]),
    ));
    let inner = join(&parts);
    let mut out = String::from_str("{");
    out.append(inner.as_str());
    out.append("}");
    proof {
        reveal_strlit("{");
        reveal_strlit("}");
        assert(out@ =~= object_text(member_views(members@)));
    }
    out
}

} // verus!

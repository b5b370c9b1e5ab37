//! Character-level building blocks: classification, comparison, splitting and
//! decimal rendering of text.
use vstd::prelude::*;

verus! {

broadcast use vstd::string::group_string_axioms;

/// `String::push` appends one character to the end of the string.
pub assume_specification[ std::string::String::push ](s: &mut std::string::String, c: char)
    ensures
        final(s)@ == old(s)@.push(c),
;

/// The C0 and C1 control characters.
pub open spec fn is_control_char(c: char) -> bool {
    c as u32 <= 0x1f || 0x7f <= c as u32 <= 0x9f
}

/// The characters with the Unicode property `White_Space`.
pub open spec fn is_space_char(c: char) -> bool {
    let n = c as u32;
    ||| 0x09 <= n <= 0x0d
    ||| n == 0x20
    ||| n == 0x85
    ||| n == 0xa0
    ||| n == 0x1680
    ||| 0x2000 <= n <= 0x200a
    ||| n == 0x2028
    ||| n == 0x2029
    ||| n == 0x202f
    ||| n == 0x205f
    ||| n == 0x3000
}

pub open spec fn is_digit_char(c: char) -> bool {
    '0' <= c <= '9'
}

pub open spec fn is_upper_char(c: char) -> bool {
    'A' <= c <= 'Z'
}

pub open spec fn is_lower_char(c: char) -> bool {
    'a' <= c <= 'z'
}

pub open spec fn is_alpha_char(c: char) -> bool {
    is_upper_char(c) || is_lower_char(c)
}

/// A lowercase hexadecimal digit.
pub open spec fn is_lower_hex_char(c: char) -> bool {
    is_digit_char(c) || 'a' <= c <= 'f'
}

/// ASCII case folding of one character.
pub open spec fn lower_char(c: char) -> char {
    if is_upper_char(c) {
        (c as u32 + 32) as char
    } else {
        c
    }
}

/// ASCII case folding of a text.
pub open spec fn lower_text(s: Seq<char>) -> Seq<char> {
    s.map_values(|c: char| lower_char(c))
}

/// The parts of `s` between occurrences of `sep`; there is always one part
/// more than there are separators.
pub open spec fn split_text(s: Seq<char>, sep: spec_fn(char) -> bool) -> Seq<Seq<char>>
    decreases s.len(),
{
    if s.len() == 0 {
        seq![Seq::<char>::empty()]
    } else {
        let parts = split_text(s.drop_last(), sep);
        if sep(s.last()) {
            parts.push(Seq::<char>::empty())
        } else {
            parts.drop_last().push(parts.last().push(s.last()))
        }
    }
}

/// `s` without the characters satisfying `p` at its end.
pub open spec fn trim_text_end(s: Seq<char>, p: spec_fn(char) -> bool) -> Seq<char>
    decreases s.len(),
{
    if s.len() > 0 && p(s.last()) {
        trim_text_end(s.drop_last(), p)
    } else {
        s
    }
}

/// `s` without the characters satisfying `p` at its start.
pub open spec fn trim_text_start(s: Seq<char>, p: spec_fn(char) -> bool) -> Seq<char>
    decreases s.len(),
{
    if s.len() > 0 && p(s[0]) {
        trim_text_start(s.skip(1), p)
    } else {
        s
    }
}

/// Matches one fixed character.
pub open spec fn exactly(sep: char) -> spec_fn(char) -> bool {
    |c: char| c == sep
}

/// Matches white space.
pub open spec fn spaces() -> spec_fn(char) -> bool {
    |c: char| is_space_char(c)
}

/// `s` without the white space at either end.
pub open spec fn trim_text(s: Seq<char>) -> Seq<char> {
    trim_text_end(trim_text_start(s, spaces()), spaces())
}

/// The non-empty parts of `s` between white space.
pub open spec fn words(s: Seq<char>) -> Seq<Seq<char>> {
    split_text(s, spaces()).filter(|part: Seq<char>| part.len() > 0)
}

/// The character of a decimal digit.
pub open spec fn digit_char(d: nat) -> char {
    ('0' as u32 + d) as char
}

/// The shortest decimal notation of `n`.
pub open spec fn decimal_text(n: nat) -> Seq<char>
    decreases n,
{
    if n < 10 {
        seq![digit_char(n)]
    } else {
        decimal_text(n / 10).push(digit_char(n % 10))
    }
}

/// The shortest decimal notation of a signed number.
pub open spec fn signed_decimal_text(n: int) -> Seq<char> {
    if n < 0 {
        seq!['-'] + decimal_text((-n) as nat)
    } else {
        decimal_text(n as nat)
    }
}

/// The concatenation of all parts.
pub open spec fn concat_text(parts: Seq<Seq<char>>) -> Seq<char>
    decreases parts.len(),
{
    if parts.len() == 0 {
        Seq::empty()
    } else {
        concat_text(parts.drop_last()) + parts.last()
    }
}

pub fn is_control(c: char) -> (r: bool)
    ensures
        r == is_control_char(c),
{
    let n: u32 = c as u32;
    n <= 0x1f || (0x7f <= n && n <= 0x9f)
}

pub fn is_space(c: char) -> (r: bool)
    ensures
        r == is_space_char(c),
{
    let n: u32 = c as u32;
    (0x09 <= n && n <= 0x0d) || n == 0x20 || n == 0x85 || n == 0xa0 || n == 0x1680
        || (0x2000 <= n && n <= 0x200a) || n == 0x2028 || n == 0x2029 || n == 0x202f
        || n == 0x205f || n == 0x3000
}

pub fn is_digit(c: char) -> (r: bool)
    ensures
        r == is_digit_char(c),
{
    '0' <= c && c <= '9'
}

pub fn is_alpha(c: char) -> (r: bool)
    ensures
        r == is_alpha_char(c),
{
    ('A' <= c && c <= 'Z') || ('a' <= c && c <= 'z')
}

pub fn is_lower_hex(c: char) -> (r: bool)
    ensures
        r == is_lower_hex_char(c),
{
    is_digit(c) || ('a' <= c && c <= 'f')
}

fn to_lower(c: char) -> (r: char)
    ensures
        r == lower_char(c),
{
    if 'A' <= c && c <= 'Z' {
        ((c as u8) + 32) as char
    } else {
        c
    }
}

/// The characters of a string slice.
pub fn chars_of(s: &str) -> (r: Vec<char>)
    ensures
        r@ == s@,
{
    let mut out: Vec<char> = Vec::new();
    for c in it: s.chars()
        invariant
            it.seq() == s@,
            out@ == s@.take(it.index() as int),
    {
        out.push(c);
    }
    out
}

/// The string made of the given characters.
pub fn text_of(chars: &Vec<char>) -> (r: String)
    ensures
        r@ == chars@,
{
    let mut out = String::new();
    for i in 0..chars.len()
        invariant
            out@ == chars@.take(i as int),
    {
        out.push(chars[i]);
    }
    out
}

/// Equality of two character vectors.
pub fn same_chars(a: &Vec<char>, b: &Vec<char>) -> (r: bool)
    ensures
        r == (a@ == b@),
{
    if a.len() != b.len() {
        return false;
    }
    for i in 0..a.len()
        invariant
            a@.len() == b@.len(),
            forall|j: int| 0 <= j < i ==> a@[j] == b@[j],
    {
        if a[i] != b[i] {
            return false;
        }
    }
    assert(a@ =~= b@);
    true
}

/// Equality of two string slices.
pub fn same_text(a: &str, b: &str) -> (r: bool)
    ensures
        r == (a@ == b@),
{
    let a = chars_of(a);
    let b = chars_of(b);
    same_chars(&a, &b)
}

/// ASCII case folding.
pub fn lower_chars(chars: &Vec<char>) -> (r: Vec<char>)
    ensures
        r@ == lower_text(chars@),
{
    let mut out: Vec<char> = Vec::new();
    for i in 0..chars.len()
        invariant
            out@ == lower_text(chars@).take(i as int),
    {
        out.push(to_lower(chars[i]));
    }
    out
}

/// The two texts one after the other.
pub fn join2(a: &str, b: &str) -> (r: String)
    ensures
        r@ == a@ + b@,
{
    let mut out = a.to_owned();
    push_text(&mut out, b);
    out
}

/// Appends a text.
pub fn push_text(out: &mut String, tail: &str)
    ensures
        final(out)@ == old(out)@ + tail@,
{
    let ghost start = out@;
    for c in it: tail.chars()
        invariant
            it.seq() == tail@,
            out@ == start + tail@.take(it.index() as int),
    {
        out.push(c);
        assert(tail@.take(it.index() + 1) == tail@.take(it.index() as int).push(c));
    }
}

/// The views of a list of character vectors.
pub open spec fn parts_view(parts: Seq<Vec<char>>) -> Seq<Seq<char>> {
    parts.map_values(|part: Vec<char>| part@)
}

/// Splits at every occurrence of one character.
pub fn split_chars(chars: &Vec<char>, sep: char) -> (r: Vec<Vec<char>>)
    ensures
        parts_view(r@) == split_text(chars@, exactly(sep)),
        r@.len() > 0,
{
    let mut parts: Vec<Vec<char>> = Vec::new();
    let mut current: Vec<char> = Vec::new();
    assert(parts_view(parts@).push(current@) =~= split_text(chars@.take(0), exactly(sep)));
    for i in 0..chars.len()
        invariant
            parts_view(parts@).push(current@) == split_text(chars@.take(i as int), exactly(sep)),
    {
        let ghost before = split_text(chars@.take(i as int), exactly(sep));
        let c = chars[i];
        proof {
            assert(chars@.take(i + 1).drop_last() =~= chars@.take(i as int));
            assert(chars@.take(i + 1).last() == c);
            assert(before.drop_last() =~= parts_view(parts@));
            assert(before.last() == current@);
        }
        if c == sep {
            let ghost closed = current@;
            let ghost earlier = parts@;
            parts.push(current);
            current = Vec::new();
            proof {
                assert(parts_view(parts@) =~= parts_view(earlier).push(closed));
                assert(current@ =~= Seq::<char>::empty());
            }
        } else {
            current.push(c);
        }
    }
    let ghost earlier = parts@;
    let ghost closed = current@;
    parts.push(current);
    proof {
        assert(chars@.take(chars@.len() as int) =~= chars@);
        assert(parts_view(parts@) =~= parts_view(earlier).push(closed));
    }
    parts
}

/// Splits at white space and drops the empty parts.
pub fn words_of(chars: &Vec<char>) -> (r: Vec<Vec<char>>)
    ensures
        parts_view(r@) == words(chars@),
{
    let keep = Ghost(|part: Seq<char>| part.len() > 0);
    let mut parts: Vec<Vec<char>> = Vec::new();
    let mut current: Vec<char> = Vec::new();
    proof {
        assert(split_text(chars@.take(0), spaces()) =~= seq![Seq::<char>::empty()]);
        assert(split_text(chars@.take(0), spaces()).drop_last() =~= Seq::<Seq<char>>::empty());
        reveal(Seq::filter);
        assert(parts_view(parts@) =~= Seq::<Seq<char>>::empty());
    }
    for i in 0..chars.len()
        invariant
            keep@ == (|part: Seq<char>| part.len() > 0),
            split_text(chars@.take(i as int), spaces()).len() > 0,
            split_text(chars@.take(i as int), spaces()).last() == current@,
            parts_view(parts@) == split_text(chars@.take(i as int), spaces()).drop_last().filter(keep@),
    {
        let ghost before = split_text(chars@.take(i as int), spaces());
        let c = chars[i];
        proof {
            assert(chars@.take(i + 1).drop_last() =~= chars@.take(i as int));
            assert(chars@.take(i + 1).last() == c);
        }
        if is_space(c) {
            let ghost earlier = parts@;
            let ghost closed = current@;
            proof {
                lemma_filter_push(before.drop_last(), before.last(), keep@);
                assert(before.drop_last().push(before.last()) =~= before);
                assert(before.push(Seq::<char>::empty()).drop_last() =~= before);
            }
            if current.len() > 0 {
                parts.push(current);
                proof {
                    assert(parts_view(parts@) =~= parts_view(earlier).push(closed));
                }
            }
            current = Vec::new();
            proof {
                assert(current@ =~= Seq::<char>::empty());
            }
        } else {
            proof {
                assert(before.drop_last().push(before.last().push(c)).drop_last() =~= before.drop_last());
            }
            current.push(c);
        }
    }
    let ghost all = split_text(chars@, spaces());
    proof {
        assert(chars@.take(chars@.len() as int) =~= chars@);
        lemma_filter_push(all.drop_last(), all.last(), keep@);
        assert(all.drop_last().push(all.last()) =~= all);
    }
    if current.len() > 0 {
        let ghost earlier = parts@;
        let ghost closed = current@;
        parts.push(current);
        proof {
            assert(parts_view(parts@) =~= parts_view(earlier).push(closed));
        }
    }
    parts
}

proof fn lemma_filter_push<A>(s: Seq<A>, a: A, keep: spec_fn(A) -> bool)
    ensures
        s.push(a).filter(keep) == if keep(a) {
            s.filter(keep).push(a)
        } else {
            s.filter(keep)
        },
{
    reveal(Seq::filter);
    assert(s.push(a).drop_last() =~= s);
}

/// Drops every trailing occurrence of one character.
pub fn trim_chars_end(chars: Vec<char>, sep: char) -> (r: Vec<char>)
    ensures
        r@ == trim_text_end(chars@, exactly(sep)),
{
    let ghost start = chars@;
    let mut chars = chars;
    while chars.len() > 0 && chars[chars.len() - 1] == sep
        invariant
            trim_text_end(chars@, exactly(sep)) == trim_text_end(start, exactly(sep)),
        decreases chars@.len(),
    {
        let ghost before = chars@;
        chars.pop();
        assert(chars@ =~= before.drop_last());
    }
    chars
}

/// Drops the white space at both ends.
pub fn trim_chars(chars: &Vec<char>) -> (r: Vec<char>)
    ensures
        r@ == trim_text(chars@),
{
    let mut from: usize = 0;
    assert(chars@.skip(0) =~= chars@);
    while from < chars.len() && is_space(chars[from])
        invariant
            from <= chars.len(),
            trim_text_start(chars@.skip(from as int), spaces()) == trim_text_start(chars@, spaces()),
        decreases chars.len() - from,
    {
        assert(chars@.skip(from as int).skip(1) =~= chars@.skip(from + 1));
        from += 1;
    }
    let ghost head = chars@.skip(from as int);
    let mut upto: usize = chars.len();
    assert(chars@.subrange(from as int, upto as int) =~= head);
    while from < upto && is_space(chars[upto - 1])
        invariant
            from <= upto <= chars.len(),
            trim_text_end(chars@.subrange(from as int, upto as int), spaces()) == trim_text_end(head, spaces()),
        decreases upto,
    {
        assert(chars@.subrange(from as int, upto as int).drop_last() =~= chars@.subrange(from as int, upto - 1));
        upto -= 1;
    }
    let mut out: Vec<char> = Vec::new();
    for i in from..upto
        invariant
            from <= upto <= chars.len(),
            out@ == chars@.subrange(from as int, i as int),
    {
        out.push(chars[i]);
    }
    out
}

/// True when every character satisfies the decimal-digit predicate.
pub fn all_digits(chars: &Vec<char>) -> (r: bool)
    ensures
        r == (forall|i: int| 0 <= i < chars@.len() ==> is_digit_char(#[trigger] chars@[i])),
{
    for i in 0..chars.len()
        invariant
            forall|j: int| 0 <= j < i ==> is_digit_char(#[trigger] chars@[j]),
    {
        if !is_digit(chars[i]) {
            return false;
        }
    }
    true
}

/// The views of a list of strings.
pub open spec fn texts(items: Seq<String>) -> Seq<Seq<char>> {
    items.map_values(|t: String| t@)
}

/// The view of an optional string.
pub open spec fn text_option(o: Option<String>) -> Option<Seq<char>> {
    match o {
        Some(t) => Some(t@),
        None => None,
    }
}

/// A copy of an optional string.
pub fn clone_text_option(o: &Option<String>) -> (r: Option<String>)
    ensures
        r == *o,
{
    match o {
        Some(t) => Some(t.clone()),
        None => None,
    }
}

/// A copy of a list of strings.
pub fn clone_texts(items: &Vec<String>) -> (r: Vec<String>)
    ensures
        r@ == items@,
{
    let mut out: Vec<String> = Vec::new();
    for i in 0..items.len()
        invariant
            out@ == items@.take(i as int),
    {
        out.push(items[i].clone());
    }
    out
}

/// Equality of two optional strings.
pub fn same_text_option(a: &Option<String>, b: &Option<String>) -> (r: bool)
    ensures
        r == (text_option(*a) == text_option(*b)),
{
    match (a, b) {
        (Some(a), Some(b)) => *a == *b,
        (None, None) => true,
        _ => false,
    }
}

/// True when the list holds the text.
pub fn contains_text(items: &Vec<String>, text: &str) -> (r: bool)
    ensures
        r == texts(items@).contains(text@),
{
    for i in 0..items.len()
        invariant
            forall|j: int| 0 <= j < i ==> (#[trigger] items@[j])@ != text@,
    {
        if same_text(items[i].as_str(), text) {
            assert(texts(items@)[i as int] == text@);
            return true;
        }
    }
    assert forall|j: int| 0 <= j < items@.len() implies #[trigger] texts(items@)[j] != text@ by {
        assert(items@[j]@ != text@);
    }
    false
}

fn digit_of(d: u8) -> (c: char)
    requires
        d < 10,
    ensures
        c == digit_char(d as nat),
{
    (48 + d) as char
}

/// The decimal notation of an unsigned number.
pub fn decimal(n: u128) -> (r: String)
    ensures
        r@ == decimal_text(n as nat),
    decreases n,
{
    if n < 10 {
        let mut out = String::new();
        out.push(digit_of(n as u8));
        assert(out@ == decimal_text(n as nat));
        out
    } else {
        let mut out = decimal(n / 10);
        out.push(digit_of((n % 10) as u8));
        out
    }
}

/// The decimal notation of a signed number.
pub fn signed_decimal(n: i64) -> (r: String)
    ensures
        r@ == signed_decimal_text(n as int),
{
    if n < 0 {
        let magnitude: u128 = (-(n as i128)) as u128;
        let digits = decimal(magnitude);
        proof {
            reveal_strlit("-");
        }
        assert("-"@ =~= seq!['-']);
        join2("-", digits.as_str())
    } else {
        decimal(n as u128)
    }
}

/// The number that a row of decimal digits stands for.
pub open spec fn digits_value(s: Seq<char>) -> nat
    decreases s.len(),
{
    if s.len() == 0 {
        0
    } else {
        digits_value(s.drop_last()) * 10 + (s.last() as nat - '0' as nat) as nat
    }
}

/// The digits of an unsigned number, which a plus sign may precede.
pub open spec fn unsigned_digits(s: Seq<char>) -> Seq<char> {
    if s.len() > 0 && s[0] == '+' {
        s.skip(1)
    } else {
        s
    }
}

/// The number that a text stands for, where it fits into 64 bits.
pub open spec fn unsigned_value(s: Seq<char>) -> Option<u64> {
    let digits = unsigned_digits(s);
    if digits.len() > 0 && (forall|i: int|
        0 <= i < digits.len() ==> is_digit_char(#[trigger] digits[i])) && digits_value(digits)
        <= u64::MAX {
        Some(digits_value(digits) as u64)
    } else {
        None
    }
}

proof fn lemma_prefix_value(s: Seq<char>, i: int)
    requires
        0 <= i <= s.len(),
        forall|j: int| 0 <= j < s.len() ==> is_digit_char(#[trigger] s[j]),
    ensures
        digits_value(s.take(i)) <= digits_value(s),
    decreases s.len() - i,
{
    if i < s.len() {
        lemma_prefix_value(s, i + 1);
        assert(s.take(i + 1).drop_last() =~= s.take(i));
    } else {
        assert(s.take(i) =~= s);
    }
}

/// Reads an unsigned decimal number.
pub fn parse_unsigned(text: &str) -> (r: Option<u64>)
    ensures
        r == unsigned_value(text@),
{
    let chars = chars_of(text);
    let start: usize = if chars.len() > 0 && chars[0] == '+' {
        1
    } else {
        0
    };
    let ghost digits = unsigned_digits(text@);
    assert(digits =~= chars@.skip(start as int));
    if start == chars.len() {
        return None;
    }
    let mut value: u64 = 0;
    assert(digits.take(0) =~= Seq::<char>::empty());
    for i in start..chars.len()
        invariant
            digits == chars@.skip(start as int),
            digits == unsigned_digits(text@),
            start < chars@.len(),
            forall|j: int| 0 <= j < i - start ==> is_digit_char(#[trigger] digits[j]),
            value == digits_value(digits.take(i - start)),
    {
        let c = chars[i];
        assert(c == digits[i - start]);
        if !is_digit(c) {
            return None;
        }
        let digit: u64 = c as u64 - '0' as u64;
        let ghost next = digits.take(i - start + 1);
        assert(next.drop_last() =~= digits.take(i - start));
        assert(digits_value(next) == value * 10 + digit);
        if value > (u64::MAX - digit) / 10 {
            proof {
                assert(value * 10 + digit > u64::MAX);
                if forall|j: int| 0 <= j < digits.len() ==> is_digit_char(#[trigger] digits[j]) {
                    lemma_prefix_value(digits, i - start + 1);
                }
            }
            return None;
        }
        value = value * 10 + digit;
    }
    assert(digits.take(digits.len() as int) =~= digits);
    Some(value)
}

} // verus!

//! Text handling shared by the parsers: characters, lines, fields, numbers.
//!
//! Texts are modelled as `Seq<char>`. The executable functions take `&str`
//! and hand back `String`s whose views are the modelled sequences.

use vstd::prelude::*;

verus! {

/// `String::push` of the standard library appends the one character to the
/// end of the string and changes nothing else.
pub assume_specification[ String::push ](s: &mut String, ch: char)
    ensures
        final(s)@ == old(s)@.push(ch),
;

/// The views of a sequence of strings, one for one.
pub open spec fn views(strings: Seq<String>) -> Seq<Seq<char>> {
    Seq::new(strings.len(), |i: int| strings[i]@)
}

/// A class of characters that a scan looks for.
#[derive(Clone, Copy, Debug, PartialEq, Eq, Structural)]
pub enum CharClass {
    /// The line feed.
    Newline,
    /// Any white space.
    Space,
    /// Anything but white space.
    Word,
}

/// White space as Unicode defines it (the property `White_Space`).
pub open spec fn is_space(c: char) -> bool {
    let n = c as u32;
    ||| 0x09 <= n <= 0x0d
    ||| n == 0x20
    ||| n == 0x85
    ||| n == 0xa0
    ||| n == 0x1680
    ||| 0x2000 <= n <= 0x200a
    ||| n == 0x2028
    ||| n == 0x2029
    ||| n == 0x202f
    ||| n == 0x205f
    ||| n == 0x3000
}

/// Whether `c` belongs to `class`.
pub open spec fn in_class(c: char, class: CharClass) -> bool {
    match class {
        CharClass::Newline => c == '\n',
        CharClass::Space => is_space(c),
        CharClass::Word => !is_space(c),
    }
}

/// The number of characters before the first one of `class`; the length of
/// `s` where there is none.
pub open spec fn first_in(s: Seq<char>, class: CharClass) -> nat
    decreases s.len(),
{
    if s.len() == 0 || in_class(s[0], class) {
        0
    } else {
        1 + first_in(s.skip(1), class)
    }
}

/// `first_in` stays within the text, passes over no character of the class
/// and stops on one.
pub proof fn lemma_first_in(s: Seq<char>, class: CharClass)
    ensures
        first_in(s, class) <= s.len(),
        forall|j: int| 0 <= j < first_in(s, class) ==> !in_class(#[trigger] s[j], class),
        first_in(s, class) < s.len() ==> in_class(s[first_in(s, class) as int], class),
    decreases s.len(),
{
    if s.len() == 0 || in_class(s[0], class) {
    } else {
        let rest = s.skip(1);
        lemma_first_in(rest, class);
        assert forall|j: int| 0 <= j < first_in(s, class) implies !in_class(
            #[trigger] s[j],
            class,
        ) by {
            if j > 0 {
                assert(s[j] == rest[j - 1]);
            }
        }
    }
}

/// The position that has these three properties is the one `first_in` names.
pub proof fn lemma_first_in_unique(s: Seq<char>, class: CharClass, k: int)
    requires
        0 <= k <= s.len(),
        forall|j: int| 0 <= j < k ==> !in_class(#[trigger] s[j], class),
        k < s.len() ==> in_class(s[k], class),
    ensures
        first_in(s, class) == k,
    decreases s.len(),
{
    if s.len() == 0 || in_class(s[0], class) {
        if k > 0 {
            assert(!in_class(s[0], class));
        }
    } else {
        let rest = s.skip(1);
        assert forall|j: int| 0 <= j < k - 1 implies !in_class(#[trigger] rest[j], class) by {
            assert(rest[j] == s[j + 1]);
        }
        lemma_first_in_unique(rest, class, k - 1);
    }
}

/// Returns whether `c` is white space.
pub fn is_whitespace(c: char) -> (space: bool)
    ensures
        space == is_space(c),
{
    let n: u32 = c as u32;
    (0x09 <= n && n <= 0x0d) || n == 0x20 || n == 0x85 || n == 0xa0 || n == 0x1680 || (0x2000 <= n
        && n <= 0x200a) || n == 0x2028 || n == 0x2029 || n == 0x202f || n == 0x205f || n == 0x3000
}

/// Returns whether `c` belongs to `class`.
pub fn belongs(c: char, class: CharClass) -> (inside: bool)
    ensures
        inside == in_class(c, class),
{
    match class {
        CharClass::Newline => c == '\n',
        CharClass::Space => is_whitespace(c),
        CharClass::Word => !is_whitespace(c),
    }
}

/// Returns the position of the first character of `class` at or after
/// `from`, or the length of `chars` where there is none.
pub fn find(chars: &Vec<char>, from: usize, class: CharClass) -> (at: usize)
    requires
        from <= chars.len(),
    ensures
        from <= at <= chars.len(),
        at == from + first_in(chars@.skip(from as int), class),
{
    let mut at: usize = from;
    while at < chars.len() && !belongs(chars[at], class)
        invariant
            from <= at <= chars.len(),
            forall|j: int| from <= j < at ==> !in_class(#[trigger] chars@[j], class),
        decreases chars.len() - at,
    {
        at += 1;
    }
    proof {
        let rest = chars@.skip(from as int);
        assert forall|j: int| 0 <= j < at - from implies !in_class(#[trigger] rest[j], class) by {
            assert(rest[j] == chars@[from + j]);
        }
        lemma_first_in_unique(rest, class, at - from);
    }
    at
}

/// Returns the characters of `s`, in order.
pub fn to_chars(s: &str) -> (chars: Vec<char>)
    ensures
        chars@ == s@,
{
    let mut chars: Vec<char> = Vec::new();
    for c in it: s.chars()
        invariant
            chars@ == it.seq().take(it.index() as int),
            it.seq() == s@,
    {
        chars.push(c);
    }
    chars
}

/// Returns the characters from `from` up to `to` as a string.
pub fn string_of(chars: &Vec<char>, from: usize, to: usize) -> (s: String)
    requires
        from <= to <= chars.len(),
    ensures
        s@ == chars@.subrange(from as int, to as int),
{
    let mut s = String::new();
    let mut at: usize = from;
    while at < to
        invariant
            from <= at <= to <= chars.len(),
            s@ == chars@.subrange(from as int, at as int),
        decreases to - at,
    {
        s.push(chars[at]);
        at += 1;
        assert(s@ =~= chars@.subrange(from as int, at as int));
    }
    s
}

/// A line without the carriage return that ended it, if one did.
pub open spec fn strip_cr(line: Seq<char>) -> Seq<char> {
    if line.len() > 0 && line.last() == '\r' {
        line.drop_last()
    } else {
        line
    }
}

/// The lines of a text. A line ends with a line feed, or with a carriage
/// return and a line feed; neither belongs to the line. What follows the last
/// line feed is a line of its own unless it is empty.
pub open spec fn lines_of(s: Seq<char>) -> Seq<Seq<char>>
    decreases s.len(),
{
    if s.len() == 0 {
        Seq::empty()
    } else {
        let end = first_in(s, CharClass::Newline) as int;
        if end >= s.len() {
            seq![s]
        } else {
            seq![strip_cr(s.take(end))] + lines_of(s.skip(end + 1))
        }
    }
}

/// Splits `text` into its lines.
pub fn lines(text: &str) -> (result: Vec<String>)
    ensures
        views(result@) == lines_of(text@),
{
    let chars = to_chars(text);
    let mut result: Vec<String> = Vec::new();
    let mut pos: usize = 0;
    assert(chars@.skip(0) =~= chars@);
    assert(views(result@) =~= Seq::<Seq<char>>::empty());
    while pos < chars.len()
        invariant
            pos <= chars.len(),
            chars@ == text@,
            lines_of(text@) == views(result@) + lines_of(chars@.skip(pos as int)),
        decreases chars.len() - pos,
    {
        let ghost rest = chars@.skip(pos as int);
        let ghost before = views(result@);
        let end = find(&chars, pos, CharClass::Newline);
        if end == chars.len() {
            let line = string_of(&chars, pos, end);
            result.push(line);
            pos = end;
            proof {
                assert(line@ =~= rest);
                assert(lines_of(rest) == seq![rest]);
                assert(lines_of(chars@.skip(pos as int)) =~= Seq::<Seq<char>>::empty());
                assert(views(result@) =~= before + seq![rest]);
            }
        } else {
            let stop = if end > pos && chars[end - 1] == '\r' {
                end - 1
            } else {
                end
            };
            let line = string_of(&chars, pos, stop);
            result.push(line);
            proof {
                let head = rest.take(end - pos);
                assert(head =~= chars@.subrange(pos as int, end as int));
                assert(line@ =~= strip_cr(head));
                assert(rest.skip(end - pos + 1) =~= chars@.skip(end + 1));
                assert(views(result@) =~= before + seq![strip_cr(head)]);
                assert(lines_of(rest) == seq![strip_cr(head)] + lines_of(rest.skip(end - pos + 1)));
                assert(before + (seq![strip_cr(head)] + lines_of(chars@.skip(end + 1)))
                    =~= (before + seq![strip_cr(head)]) + lines_of(chars@.skip(end + 1)));
            }
            pos = end + 1;
        }
    }
    assert(lines_of(chars@.skip(pos as int)) =~= Seq::<Seq<char>>::empty());
    assert(views(result@) + Seq::<Seq<char>>::empty() =~= views(result@));
    result
}

/// The fields of a line: its longest runs of characters that are not white
/// space, from left to right.
pub open spec fn fields_of(s: Seq<char>) -> Seq<Seq<char>>
    decreases s.len(),
{
    let start = first_in(s, CharClass::Word) as int;
    if start >= s.len() {
        Seq::empty()
    } else {
        let rest = s.skip(start);
        let len = first_in(rest, CharClass::Space) as int;
        proof {
            lemma_first_in(s, CharClass::Word);
            lemma_first_in(rest, CharClass::Space);
        }
        seq![rest.take(len)] + fields_of(rest.skip(len))
    }
}

/// No field is empty.
pub proof fn lemma_fields_not_empty(s: Seq<char>, i: int)
    requires
        0 <= i < fields_of(s).len(),
    ensures
        fields_of(s)[i].len() > 0,
    decreases s.len(),
{
    let start = first_in(s, CharClass::Word) as int;
    lemma_first_in(s, CharClass::Word);
    if start < s.len() {
        let rest = s.skip(start);
        let len = first_in(rest, CharClass::Space) as int;
        lemma_first_in(rest, CharClass::Space);
        assert(in_class(rest[0], CharClass::Word));
        assert(len >= 1);
        if i > 0 {
            lemma_fields_not_empty(rest.skip(len), i - 1);
        }
    }
}

/// Splits `line` into its fields.
pub fn fields(line: &str) -> (result: Vec<String>)
    ensures
        views(result@) == fields_of(line@),
{
    let chars = to_chars(line);
    let mut result: Vec<String> = Vec::new();
    let mut pos: usize = 0;
    assert(chars@.skip(0) =~= chars@);
    assert(views(result@) =~= Seq::<Seq<char>>::empty());
    while pos < chars.len()
        invariant
            pos <= chars.len(),
            chars@ == line@,
            fields_of(line@) == views(result@) + fields_of(chars@.skip(pos as int)),
        decreases chars.len() - pos,
    {
        let ghost tail = chars@.skip(pos as int);
        let ghost before = views(result@);
        let start = find(&chars, pos, CharClass::Word);
        if start == chars.len() {
            pos = start;
            proof {
                assert(fields_of(tail) =~= Seq::<Seq<char>>::empty());
                assert(fields_of(chars@.skip(pos as int)) =~= Seq::<Seq<char>>::empty());
            }
        } else {
            let end = find(&chars, start, CharClass::Space);
            let field = string_of(&chars, start, end);
            result.push(field);
            proof {
                let rest = tail.skip(start - pos);
                assert(rest =~= chars@.skip(start as int));
                lemma_first_in(tail, CharClass::Word);
                lemma_first_in(rest, CharClass::Space);
                assert(rest.take(end - start) =~= chars@.subrange(start as int, end as int));
                assert(rest.skip(end - start) =~= chars@.skip(end as int));
                assert(fields_of(tail) == seq![rest.take(end - start)] + fields_of(
                    rest.skip(end - start),
                ));
                assert(views(result@) =~= before + seq![field@]);
                assert(before + (seq![field@] + fields_of(chars@.skip(end as int))) =~= (before
                    + seq![field@]) + fields_of(chars@.skip(end as int)));
                assert(in_class(rest[0], CharClass::Word));
                assert(end > start);
            }
            pos = end;
        }
    }
    assert(fields_of(chars@.skip(pos as int)) =~= Seq::<Seq<char>>::empty());
    assert(views(result@) + Seq::<Seq<char>>::empty() =~= views(result@));
    result
}

/// A decimal digit.
pub open spec fn is_digit(c: char) -> bool {
    0x30 <= c as u32 <= 0x39
}

/// The number that a decimal digit stands for.
pub open spec fn digit_of(c: char) -> nat {
    (c as u32 - 0x30) as nat
}

/// Whether `s` holds decimal digits only.
pub open spec fn all_digits(s: Seq<char>) -> bool {
    forall|i: int| 0 <= i < s.len() ==> is_digit(#[trigger] s[i])
}

/// The number that a run of decimal digits stands for.
pub open spec fn value_of(s: Seq<char>) -> nat
    decreases s.len(),
{
    if s.len() == 0 {
        0
    } else {
        value_of(s.drop_last()) * 10 + digit_of(s.last())
    }
}

/// A number's text without the plus sign that may lead it.
pub open spec fn unsigned_of(s: Seq<char>) -> Seq<char> {
    if s.len() > 0 && s[0] == '+' {
        s.skip(1)
    } else {
        s
    }
}

/// The 32-bit number that a text denotes: an optional plus sign, then one or
/// more decimal digits whose value fits. Any other text denotes none.
pub open spec fn number_of(s: Seq<char>) -> Option<u32> {
    let digits = unsigned_of(s);
    if digits.len() > 0 && all_digits(digits) && value_of(digits) <= u32::MAX {
        Some(value_of(digits) as u32)
    } else {
        None
    }
}

/// One more digit multiplies the value by ten and adds the digit.
pub proof fn lemma_value_step(s: Seq<char>, k: int)
    requires
        0 <= k < s.len(),
    ensures
        value_of(s.take(k + 1)) == value_of(s.take(k)) * 10 + digit_of(s[k]),
{
    assert(s.take(k + 1).drop_last() =~= s.take(k));
}

/// A run of digits is worth at least as much as any of its prefixes.
pub proof fn lemma_value_grows(s: Seq<char>, k: int)
    requires
        0 <= k <= s.len(),
        all_digits(s),
    ensures
        value_of(s.take(k)) <= value_of(s),
    decreases s.len(),
{
    if k == s.len() {
        assert(s.take(k) =~= s);
    } else {
        let front = s.drop_last();
        assert(is_digit(s[s.len() - 1]));
        assert forall|i: int| 0 <= i < front.len() implies is_digit(#[trigger] front[i]) by {
            assert(front[i] == s[i]);
        }
        lemma_value_grows(front, k);
        assert(front.take(k) =~= s.take(k));
    }
}

/// Reads `text` as a 32-bit number.
pub fn parse_u32(text: &str) -> (number: Option<u32>)
    ensures
        number == number_of(text@),
{
    let chars = to_chars(text);
    let start: usize = if chars.len() > 0 && chars[0] == '+' {
        1
    } else {
        0
    };
    let ghost digits = unsigned_of(text@);
    assert(digits =~= chars@.skip(start as int));
    if start == chars.len() {
        return None;
    }
    let mut value: u64 = 0;
    let mut at: usize = start;
    assert(digits.take(0) =~= Seq::<char>::empty());
    while at < chars.len()
        invariant
            start <= at <= chars.len(),
            digits == chars@.skip(start as int),
            digits == unsigned_of(text@),
            value == value_of(digits.take(at - start)),
            value <= u32::MAX,
            forall|j: int| 0 <= j < at - start ==> is_digit(#[trigger] digits[j]),
        decreases chars.len() - at,
    {
        let code: u32 = chars[at] as u32;
        assert(digits[at - start] == chars@[at as int]);
        if code < 0x30 || code > 0x39 {
            assert(!is_digit(digits[at - start]));
            return None;
        }
        proof {
            lemma_value_step(digits, at - start);
        }
        value = value * 10 + (code - 0x30) as u64;
        at += 1;
        if value > 0xffff_ffff {
            proof {
                if all_digits(digits) {
                    lemma_value_grows(digits, at - start);
                }
            }
            return None;
        }
    }
    assert(digits.take(at - start) =~= digits);
    Some(value as u32)
}

/// The character that stands for a digit below ten.
pub open spec fn digit_char(digit: nat) -> char {
    seq!['0', '1', '2', '3', '4', '5', '6', '7', '8', '9'][digit as int]
}

/// The decimal text of a number, without leading zeros.
pub open spec fn decimal_of(n: nat) -> Seq<char>
    decreases n,
{
    if n < 10 {
        seq![digit_char(n)]
    } else {
        decimal_of(n / 10).push(digit_char(n % 10))
    }
}

/// The decimal text of an integer; a minus sign leads a negative one.
pub open spec fn signed_decimal_of(n: int) -> Seq<char> {
    if n < 0 {
        seq!['-'] + decimal_of((-n) as nat)
    } else {
        decimal_of(n as nat)
    }
}

/// Returns the character of a digit below ten.
pub fn digit_to_char(digit: u64) -> (c: char)
    requires
        digit < 10,
    ensures
        c == digit_char(digit as nat),
{
    match digit {
        0 => '0',
        1 => '1',
        2 => '2',
        3 => '3',
        4 => '4',
        5 => '5',
        6 => '6',
        7 => '7',
        8 => '8',
        _ => '9',
    }
}

/// Appends the decimal text of `n` to `out`.
pub fn push_decimal(out: &mut String, n: u64)
    ensures
        final(out)@ == old(out)@ + decimal_of(n as nat),
    decreases n,
{
    if n >= 10 {
        push_decimal(out, n / 10);
    }
    out.push(digit_to_char(n % 10));
    assert(out@ =~= old(out)@ + decimal_of(n as nat));
}

/// Appends the decimal text of `n` to `out`, with its sign where negative.
pub fn push_signed(out: &mut String, n: i32)
    ensures
        final(out)@ == old(out)@ + signed_decimal_of(n as int),
{
    let wide: i64 = n as i64;
    if wide < 0 {
        out.push('-');
        push_decimal(out, (-wide) as u64);
        assert(out@ =~= old(out)@ + signed_decimal_of(n as int));
    } else {
        push_decimal(out, wide as u64);
    }
}

/// A text without the white space that ends it.
pub open spec fn trim_end_of(s: Seq<char>) -> Seq<char>
    decreases s.len(),
{
    if s.len() > 0 && is_space(s.last()) {
        trim_end_of(s.drop_last())
    } else {
        s
    }
}

/// A text without the white space that leads and ends it.
pub open spec fn trim_of(s: Seq<char>) -> Seq<char> {
    trim_end_of(s.skip(first_in(s, CharClass::Word) as int))
}

/// Removes the white space at both ends of `text`.
pub fn trim(text: &str) -> (trimmed: String)
    ensures
        trimmed@ == trim_of(text@),
{
    let chars = to_chars(text);
    let start = find(&chars, 0, CharClass::Word);
    assert(chars@.skip(0) =~= chars@);
    let mut end: usize = chars.len();
    assert(chars@.subrange(start as int, end as int) =~= chars@.skip(start as int));
    while end > start && is_whitespace(chars[end - 1])
        invariant
            start <= end <= chars.len(),
            trim_of(text@) == trim_end_of(chars@.subrange(start as int, end as int)),
        decreases end,
    {
        proof {
            let now = chars@.subrange(start as int, end as int);
            assert(now.last() == chars@[end - 1]);
            assert(now.drop_last() =~= chars@.subrange(start as int, end - 1));
        }
        end -= 1;
    }
    proof {
        let now = chars@.subrange(start as int, end as int);
        if end > start {
            assert(now.last() == chars@[end - 1]);
        }
    }
    string_of(&chars, start, end)
}

/// Returns whether `text` begins with `prefix`.
pub fn starts_with(text: &Vec<char>, prefix: &Vec<char>) -> (begins: bool)
    ensures
        begins == prefix@.is_prefix_of(text@),
{
    if prefix.len() > text.len() {
        return false;
    }
    let mut at: usize = 0;
    while at < prefix.len()
        invariant
            at <= prefix.len() <= text.len(),
            forall|j: int| 0 <= j < at ==> prefix@[j] == text@[j],
        decreases prefix.len() - at,
    {
        if prefix[at] != text[at] {
            return false;
        }
        at += 1;
    }
    assert(prefix@ =~= text@.subrange(0, prefix@.len() as int));
    true
}

} // verus!

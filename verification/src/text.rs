//! Text as the browser reasons about it: sequences of characters, the decimal
//! numerals and reference tokens written in it, and what counts as blank.
use vstd::prelude::*;

verus! {

/// What a piece of text is, whoever owns it: its characters in order.
pub type Text = Seq<char>;

/// `String::push` puts one character at the end of a string and changes nothing
/// before it.
pub assume_specification[ String::push ](s: &mut String, c: char)
    ensures
        final(s)@ == old(s)@.push(c),
;

/// The characters of a string, in order.
pub fn chars_of(s: &str) -> (r: Vec<char>)
    ensures
        r@ == s@,
{
    let mut out: Vec<char> = Vec::new();
    for c in it: s.chars()
        invariant
            out@ == it.seq().take(it.index() as int),
            it.seq() == s@,
    {
        out.push(c);
    }
    out
}

/// The string a run of characters spells.
pub fn string_of(chars: &Vec<char>, from: usize, to: usize) -> (r: String)
    requires
        from <= to <= chars.len(),
    ensures
        r@ == chars@.subrange(from as int, to as int),
{
    let mut out = String::new();
    let mut i: usize = from;
    while i < to
        invariant
            from <= i <= to <= chars.len(),
            out@ == chars@.subrange(from as int, i as int),
        decreases to - i,
    {
        out.push(chars[i]);
        i += 1;
    }
    out
}

/// Whether two strings hold the same characters.
pub fn same_text(a: &str, b: &str) -> (r: bool)
    ensures
        r == (a@ == b@),
{
    a.to_owned() == b.to_owned()
}

/// Two pieces of text, one after the other.
pub fn joined(a: &str, b: &str) -> (r: String)
    ensures
        r@ == a@ + b@,
{
    let mut out = a.to_owned();
    out.append(b);
    out
}

/// Three pieces of text, one after the other.
pub fn joined3(a: &str, b: &str, c: &str) -> (r: String)
    ensures
        r@ == a@ + b@ + c@,
{
    let mut out = a.to_owned();
    out.append(b);
    out.append(c);
    out
}

/// Whether a string holds a character.
pub fn holds(s: &str, wanted: char) -> (r: bool)
    ensures
        r == s@.contains(wanted),
{
    let chars = chars_of(s);
    let mut i: usize = 0;
    while i < chars.len()
        invariant
            i <= chars.len(),
            chars@ == s@,
            forall|j: int| 0 <= j < i ==> chars@[j] != wanted,
        decreases chars.len() - i,
    {
        if chars[i] == wanted {
            return true;
        }
        i += 1;
    }
    false
}

/// Whether a text ends with a line break.
pub open spec fn ends_the_line(s: Text) -> bool {
    s.len() > 0 && s.last() == '\n'
}

/// A text as a block of a document: closed by a line break, which is added only
/// where the text did not bring its own.
pub open spec fn as_block(s: Text) -> Text {
    if ends_the_line(s) {
        s
    } else {
        s.push('\n')
    }
}

/// Put a text at the end of a document as a block of its own.
pub fn push_block(doc: &mut String, text: &str)
    ensures
        final(doc)@ == old(doc)@ + as_block(text@),
{
    let chars = chars_of(text);
    doc.append(text);
    if chars.len() == 0 || chars[chars.len() - 1] != '\n' {
        doc.push('\n');
    }
}

/// The character a decimal digit is written as.
pub open spec fn digit(d: nat) -> char {
    ('0' as nat + d) as char
}

/// A number as it is written: its decimal digits, most significant first and
/// with no leading zero.
pub open spec fn decimal(n: nat) -> Text
    decreases n,
{
    if n < 10 {
        seq![digit(n)]
    } else {
        decimal(n / 10).push(digit(n % 10))
    }
}

/// The character one decimal digit is written as.
fn digit_char(d: u64) -> (c: char)
    requires
        d < 10,
    ensures
        c == digit(d as nat),
{
    match d {
        0 => '0',
        1 => '1',
        2 => '2',
        3 => '3',
        4 => '4',
        5 => '5',
        6 => '6',
        7 => '7',
        8 => '8',
        _ => '9',
    }
}

/// Write a number out in decimal.
pub fn number_text(n: u64) -> (r: String)
    ensures
        r@ == decimal(n as nat),
    decreases n,
{
    if n < 10 {
        let mut out = String::new();
        out.push(digit_char(n));
        out
    } else {
        let mut out = number_text(n / 10);
        out.push(digit_char(n % 10));
        out
    }
}

/// Write a count out in decimal.
pub fn count_text(n: usize) -> (r: String)
    ensures
        r@ == decimal(n as nat),
{
    number_text(n as u64)
}

/// Whether a character is a decimal digit.
pub open spec fn is_digit(c: char) -> bool {
    '0' <= c <= '9'
}

/// What a run of decimal digits counts to.
pub open spec fn digits_value(s: Text) -> nat
    decreases s.len(),
{
    if s.len() == 0 {
        0
    } else {
        digits_value(s.drop_last()) * 10 + (s.last() as int - '0' as int) as nat
    }
}

/// The digits of a numeral: everything but the one plus sign it may lead with.
pub open spec fn numeral_digits(s: Text) -> Text {
    if s.len() > 0 && s[0] == '+' {
        s.drop_first()
    } else {
        s
    }
}

/// The number a numeral names, and nothing for text that is not one: an optional
/// plus sign followed by at least one decimal digit and nothing else, counting to
/// something that fits in 64 bits.
pub open spec fn number_in(s: Text) -> Option<u64> {
    let digits = numeral_digits(s);
    if digits.len() > 0 && (forall|i: int| 0 <= i < digits.len() ==> is_digit(#[trigger] digits[i]))
        && digits_value(digits) <= u64::MAX {
        Some(digits_value(digits) as u64)
    } else {
        None
    }
}

/// A longer run of digits never counts to less than the run it starts with.
proof fn lemma_value_grows(s: Text, i: int)
    requires
        0 <= i <= s.len(),
        forall|j: int| 0 <= j < s.len() ==> is_digit(#[trigger] s[j]),
    ensures
        digits_value(s.take(i)) <= digits_value(s),
    decreases s.len(),
{
    if i == s.len() {
        assert(s.take(i) == s);
    } else {
        assert(s.drop_last().take(i) == s.take(i));
        assert forall|j: int| 0 <= j < s.drop_last().len() implies is_digit(
            #[trigger] s.drop_last()[j],
        ) by {
            assert(is_digit(s[j]));
        }
        lemma_value_grows(s.drop_last(), i);
        assert(is_digit(s.last()));
    }
}

/// Read a numeral, or nothing where the text is not one.
pub fn parse_number(s: &str) -> (r: Option<u64>)
    ensures
        r == number_in(s@),
{
    let chars = chars_of(s);
    let start: usize = if chars.len() > 0 && chars[0] == '+' {
        1
    } else {
        0
    };
    let ghost digits = numeral_digits(s@);
    assert(digits == chars@.skip(start as int));
    if start == chars.len() {
        return None;
    }
    let mut value: u64 = 0;
    let mut i: usize = start;
    while i < chars.len()
        invariant
            start <= i <= chars.len(),
            digits == chars@.skip(start as int),
            digits == numeral_digits(s@),
            digits.len() > 0,
            value == digits_value(digits.take(i - start)),
            forall|j: int| 0 <= j < i - start ==> is_digit(#[trigger] digits[j]),
        decreases chars.len() - i,
    {
        let c = chars[i];
        assert(c == digits[i - start]);
        if !('0' <= c && c <= '9') {
            return None;
        }
        let d: u64 = (c as u32 - '0' as u32) as u64;
        let wide: u128 = value as u128 * 10 + d as u128;
        proof {
            let next = digits.take(i - start + 1);
            assert(next.drop_last() == digits.take(i - start));
            assert(next.last() == c);
            assert(digits_value(next) == wide);
        }
        if wide > u64::MAX as u128 {
            proof {
                if forall|j: int| 0 <= j < digits.len() ==> is_digit(#[trigger] digits[j]) {
                    lemma_value_grows(digits, i - start + 1);
                }
            }
            return None;
        }
        value = wide as u64;
        i += 1;
    }
    assert(digits.take(digits.len() as int) == digits);
    Some(value)
}

/// Reading back a number gives the number that was written.
pub proof fn written_numbers_read_back(n: u64)
    ensures
        number_in(decimal(n as nat)) == Some(n),
{
    lemma_decimal_digits(n as nat);
    let s = decimal(n as nat);
    assert(is_digit(s[0]));
    assert(numeral_digits(s) == s);
}

/// A written number is digits throughout, at least one of them, and counts to the
/// number it was written for.
proof fn lemma_decimal_digits(n: nat)
    ensures
        decimal(n).len() > 0,
        forall|i: int| 0 <= i < decimal(n).len() ==> is_digit(#[trigger] decimal(n)[i]),
        digits_value(decimal(n)) == n,
    decreases n,
{
    if n < 10 {
        let s = decimal(n);
        assert(s.drop_last() == Seq::<char>::empty());
        assert(digits_value(s.drop_last()) == 0);
    } else {
        lemma_decimal_digits(n / 10);
        let s = decimal(n);
        assert(s.drop_last() == decimal(n / 10));
        assert forall|i: int| 0 <= i < s.len() implies is_digit(#[trigger] s[i]) by {
            if i < s.len() - 1 {
                assert(is_digit(decimal(n / 10)[i]));
            }
        }
    }
}

/// Whether a character is white space.
pub open spec fn is_blank_char(c: char) -> bool {
    ||| '\u{9}' <= c <= '\u{d}'
    ||| c == '\u{20}'
    ||| c == '\u{85}'
    ||| c == '\u{a0}'
    ||| c == '\u{1680}'
    ||| '\u{2000}' <= c <= '\u{200a}'
    ||| c == '\u{2028}'
    ||| c == '\u{2029}'
    ||| c == '\u{202f}'
    ||| c == '\u{205f}'
    ||| c == '\u{3000}'
}

/// Whether a character is white space.
fn blank_char(c: char) -> (r: bool)
    ensures
        r == is_blank_char(c),
{
    ('\u{9}' <= c && c <= '\u{d}') || c == '\u{20}' || c == '\u{85}' || c == '\u{a0}' || c
        == '\u{1680}' || ('\u{2000}' <= c && c <= '\u{200a}') || c == '\u{2028}' || c == '\u{2029}'
        || c == '\u{202f}' || c == '\u{205f}' || c == '\u{3000}'
}

/// Whether a text has nothing in it a reader could see.
pub open spec fn is_blank(s: Text) -> bool {
    forall|i: int| 0 <= i < s.len() ==> is_blank_char(#[trigger] s[i])
}

/// A text without the white space it starts with.
pub open spec fn without_leading_blanks(s: Text) -> Text
    decreases s.len(),
{
    if s.len() > 0 && is_blank_char(s[0]) {
        without_leading_blanks(s.drop_first())
    } else {
        s
    }
}

/// A text without the white space it ends with.
pub open spec fn without_trailing_blanks(s: Text) -> Text
    decreases s.len(),
{
    if s.len() > 0 && is_blank_char(s.last()) {
        without_trailing_blanks(s.drop_last())
    } else {
        s
    }
}

/// A text without the white space around it.
pub open spec fn trimmed(s: Text) -> Text {
    without_trailing_blanks(without_leading_blanks(s))
}

/// Whether a text has nothing in it a reader could see.
pub fn blank(s: &str) -> (r: bool)
    ensures
        r == is_blank(s@),
{
    let chars = chars_of(s);
    let mut i: usize = 0;
    while i < chars.len()
        invariant
            i <= chars.len(),
            chars@ == s@,
            forall|j: int| 0 <= j < i ==> is_blank_char(#[trigger] s@[j]),
        decreases chars.len() - i,
    {
        if !blank_char(chars[i]) {
            assert(!is_blank_char(s@[i as int]));
            return false;
        }
        i += 1;
    }
    true
}

/// A text without the white space around it.
pub fn trim(s: &str) -> (r: String)
    ensures
        r@ == trimmed(s@),
{
    let chars = chars_of(s);
    let mut start: usize = 0;
    assert(s@.skip(0) == s@);
    while start < chars.len() && blank_char(chars[start])
        invariant
            start <= chars.len(),
            chars@ == s@,
            without_leading_blanks(s@) == without_leading_blanks(s@.skip(start as int)),
        decreases chars.len() - start,
    {
        assert(s@.skip(start as int).drop_first() == s@.skip(start + 1));
        start += 1;
    }
    let ghost rest = s@.skip(start as int);
    assert(without_leading_blanks(s@) == rest);
    let mut end: usize = chars.len();
    assert(chars@.subrange(start as int, end as int) == rest);
    while start < end && blank_char(chars[end - 1])
        invariant
            start <= end <= chars.len(),
            without_trailing_blanks(rest) == without_trailing_blanks(
                chars@.subrange(start as int, end as int),
            ),
        decreases end - start,
    {
        assert(chars@.subrange(start as int, end as int).drop_last() == chars@.subrange(
            start as int,
            end - 1,
        ));
        end -= 1;
    }
    string_of(&chars, start, end)
}

/// Trimming leaves nothing exactly when there was nothing to see.
pub proof fn trimming_leaves_nothing_of_blanks(s: Text)
    ensures
        is_blank(s) <==> trimmed(s).len() == 0,
{
    lemma_leading(s);
    lemma_trailing(without_leading_blanks(s));
    let rest = without_leading_blanks(s);
    if is_blank(s) {
        assert(is_blank(rest));
    }
    if trimmed(s).len() == 0 {
        assert(is_blank(rest));
    }
}

/// Dropping leading white space keeps a suffix: all of the text was blank exactly
/// when what is left is.
proof fn lemma_leading(s: Text)
    ensures
        is_blank(s) <==> is_blank(without_leading_blanks(s)),
    decreases s.len(),
{
    if s.len() > 0 && is_blank_char(s[0]) {
        lemma_leading(s.drop_first());
        if is_blank(s) {
            assert forall|i: int| 0 <= i < s.drop_first().len() implies is_blank_char(
                #[trigger] s.drop_first()[i],
            ) by {
                assert(is_blank_char(s[i + 1]));
            }
        }
        if is_blank(s.drop_first()) {
            assert forall|i: int| 0 <= i < s.len() implies is_blank_char(#[trigger] s[i]) by {
                if i > 0 {
                    assert(is_blank_char(s.drop_first()[i - 1]));
                }
            }
        }
    }
}

/// Dropping trailing white space leaves nothing exactly where everything was
/// blank.
proof fn lemma_trailing(s: Text)
    ensures
        is_blank(s) <==> without_trailing_blanks(s).len() == 0,
    decreases s.len(),
{
    if s.len() > 0 && is_blank_char(s.last()) {
        lemma_trailing(s.drop_last());
        if is_blank(s) {
            assert forall|i: int| 0 <= i < s.drop_last().len() implies is_blank_char(
                #[trigger] s.drop_last()[i],
            ) by {
                assert(is_blank_char(s[i]));
            }
        }
        if is_blank(s.drop_last()) {
            assert forall|i: int| 0 <= i < s.len() implies is_blank_char(#[trigger] s[i]) by {
                if i < s.len() - 1 {
                    assert(is_blank_char(s.drop_last()[i]));
                }
            }
        }
    } else if s.len() > 0 {
        assert(!is_blank_char(s[s.len() - 1]));
    }
}

/// Closing a text as a block keeps the text, ends it with a line break, and adds one
/// only where the text did not bring its own.
pub proof fn a_block_is_its_text_closed_by_one_break(s: Text)
    ensures
        as_block(s).len() > 0,
        as_block(s)[as_block(s).len() - 1] == '\n',
        s.len() <= as_block(s).len() <= s.len() + 1,
        forall|i: int| 0 <= i < s.len() ==> as_block(s)[i] == s[i],
        s.len() > 0 && s[s.len() - 1] == '\n' ==> as_block(s) == s,
        s.len() == 0 || s[s.len() - 1] != '\n' ==> as_block(s).len() == s.len() + 1,
        as_block(as_block(s)) == as_block(s),
{
}

/// Decimal is positional: one digit more at the end of a number counts ten times on,
/// and a number below ten is its one digit.
pub proof fn a_digit_more_counts_ten_times_on(n: nat, d: nat)
    requires
        d < 10,
    ensures
        decimal(d) == seq!["0123456789"@[d as int]],
        n > 0 ==> decimal(10 * n + d) == decimal(n) + seq!["0123456789"@[d as int]],
        n > 0 ==> decimal(n)[0] != '0',
    decreases n,
{
    reveal_strlit("0123456789");
    assert((10 * n + d) / 10 == n && (10 * n + d) % 10 == d);
    if n > 0 {
        assert(decimal(10 * n + d) =~= decimal(n) + seq!["0123456789"@[d as int]]);
        if n >= 10 {
            a_digit_more_counts_ten_times_on(n / 10, d);
            lemma_decimal_digits(n / 10);
        }
    }
}

/// No two numbers are written alike.
pub proof fn no_two_numbers_are_written_alike(a: nat, b: nat)
    ensures
        decimal(a) == decimal(b) ==> a == b,
{
    lemma_decimal_digits(a);
    lemma_decimal_digits(b);
}

/// A numeral is read a digit at a time, each counting ten times what stood before it
/// and the digit, for as long as the whole fits in 64 bits; and one plus sign in
/// front of it changes nothing.
pub proof fn a_numeral_is_read_digit_by_digit(s: Text, c: char, d: nat)
    requires
        d < 10,
        c == "0123456789"@[d as int],
        forall|i: int| 0 <= i < s.len() ==> '0' <= #[trigger] s[i] <= '9',
    ensures
        number_in(seq![c]) == Some(d as u64),
        s.len() > 0 ==> (match number_in(s) {
            Some(n) => number_in(s.push(c)) == (if 10 * n + d <= u64::MAX {
                Some((10 * n + d) as u64)
            } else {
                None
            }),
            None => number_in(s.push(c)) is None,
        }),
        number_in(seq!['+'] + s.push(c)) == number_in(s.push(c)),
{
    reveal_strlit("0123456789");
    let one = seq![c];
    assert(one.drop_last() =~= Seq::<char>::empty());
    assert(digits_value(one.drop_last()) == 0);
    assert(is_digit(one[0]));
    assert(numeral_digits(one) == one);
    let more = s.push(c);
    assert(more.drop_last() =~= s);
    assert forall|i: int| 0 <= i < more.len() implies is_digit(#[trigger] more[i]) by {
        if i < s.len() {
            assert('0' <= s[i] <= '9');
        }
    }
    assert(is_digit(more[0]));
    assert(numeral_digits(more) == more);
    let signed = seq!['+'] + more;
    assert(signed.drop_first() =~= more);
    assert(numeral_digits(signed) == more);
    if s.len() > 0 {
        assert(is_digit(s[0]));
        assert(numeral_digits(s) == s);
    }
}

/// Text that is not a numeral names no number: nothing, a sign with nothing after it,
/// or anything with a character in it that is neither a digit nor one plus sign in
/// front.
pub proof fn only_digits_name_a_number(s: Text, i: int)
    ensures
        s.len() == 0 ==> number_in(s) is None,
        s.len() == 1 && s[0] == '+' ==> number_in(s) is None,
        0 <= i < s.len() && !('0' <= s[i] <= '9') && !(i == 0 && s[i] == '+') ==> number_in(s)
            is None,
{
    let digits = numeral_digits(s);
    if 0 <= i < s.len() && !('0' <= s[i] <= '9') && !(i == 0 && s[i] == '+') {
        if s[0] == '+' {
            assert(!is_digit(digits[i - 1]));
        } else {
            assert(!is_digit(digits[i]));
        }
    }
}

/// How many blanks a text starts with, and that what is left starts with none.
proof fn lemma_leading_at(s: Text) -> (i: int)
    ensures
        0 <= i <= s.len(),
        without_leading_blanks(s) == s.skip(i),
        forall|k: int| 0 <= k < i ==> is_blank_char(#[trigger] s[k]),
        i < s.len() ==> !is_blank_char(s[i]),
    decreases s.len(),
{
    if s.len() > 0 && is_blank_char(s[0]) {
        let rest = s.drop_first();
        let j = lemma_leading_at(rest);
        assert(rest.skip(j) =~= s.skip(j + 1));
        assert forall|k: int| 0 <= k < j + 1 implies is_blank_char(#[trigger] s[k]) by {
            if k > 0 {
                assert(is_blank_char(rest[k - 1]));
            }
        }
        j + 1
    } else {
        assert(s.skip(0) =~= s);
        0
    }
}

/// Where the blanks a text ends with start, and that what is left ends with none.
proof fn lemma_trailing_at(s: Text) -> (j: int)
    ensures
        0 <= j <= s.len(),
        without_trailing_blanks(s) == s.take(j),
        forall|k: int| j <= k < s.len() ==> is_blank_char(#[trigger] s[k]),
        j > 0 ==> !is_blank_char(s[j - 1]),
    decreases s.len(),
{
    if s.len() > 0 && is_blank_char(s.last()) {
        let rest = s.drop_last();
        let j = lemma_trailing_at(rest);
        assert(rest.take(j) =~= s.take(j));
        assert forall|k: int| j <= k < s.len() implies is_blank_char(#[trigger] s[k]) by {
            if k < s.len() - 1 {
                assert(is_blank_char(rest[k]));
            }
        }
        j
    } else {
        assert(s.take(s.len() as int) =~= s);
        s.len() as int
    }
}

/// Trimming takes the blanks around a text and nothing else: what is left is a run of
/// it that neither starts nor ends with a blank, with nothing but blanks on either
/// side.
pub proof fn trimming_takes_exactly_the_blanks_around(s: Text)
    ensures
        exists|i: int, j: int|
            0 <= i <= j <= s.len() && trimmed(s) == #[trigger] s.subrange(i, j) && (forall|k: int|
                0 <= k < i || j <= k < s.len() ==> is_blank_char(#[trigger] s[k])) && (i < j
                ==> !is_blank_char(s[i]) && !is_blank_char(s[j - 1])),
{
    let i = lemma_leading_at(s);
    let rest = s.skip(i);
    let n = lemma_trailing_at(rest);
    let j = i + n;
    assert(rest.take(n) =~= s.subrange(i, j));
    assert forall|k: int| 0 <= k < i || j <= k < s.len() implies is_blank_char(
        #[trigger] s[k],
    ) by {
        if k >= j {
            assert(is_blank_char(rest[k - i]));
        }
    }
    if i < j {
        assert(!is_blank_char(rest[n - 1]));
    }
}

/// White space is the space, the five controls from the tab to the carriage return,
/// the next line, and the spaces and separators beyond Latin; a character one can see
/// is none of them.
pub proof fn white_space_is_what_cannot_be_seen(c: char)
    ensures
        is_blank_char(c) <==> {
            let code = c as int;
            ||| 9 <= code <= 13
            ||| code == 32
            ||| code == 133
            ||| code == 160
            ||| code == 5760
            ||| 8192 <= code <= 8202
            ||| code == 8232
            ||| code == 8233
            ||| code == 8239
            ||| code == 8287
            ||| code == 12288
        },
        is_blank(seq![c]) <==> is_blank_char(c),
{
    if is_blank(seq![c]) {
        assert(is_blank_char(seq![c][0]));
    }
}

} // verus!

//! Text building: decimal numbers, padding, line splitting and trimming.

use vstd::prelude::*;

verus! {

/// `String::push` appends one character to the end of the string.
pub assume_specification[ String::push ](s: &mut String, ch: char)
    ensures
        final(s)@ == old(s)@.push(ch),
;

/// The characters with Unicode's `White_Space` property.
pub open spec fn is_white_space(c: char) -> bool {
    ||| 0x09 <= c as u32 <= 0x0d
    ||| c as u32 == 0x20
    ||| c as u32 == 0x85
    ||| c as u32 == 0xa0
    ||| c as u32 == 0x1680
    ||| 0x2000 <= c as u32 <= 0x200a
    ||| c as u32 == 0x2028
    ||| c as u32 == 0x2029
    ||| c as u32 == 0x202f
    ||| c as u32 == 0x205f
    ||| c as u32 == 0x3000
}

/// `char::is_whitespace` answers whether the character has the `White_Space`
/// property.
pub assume_specification[ char::is_whitespace ](c: char) -> (r: bool)
    ensures
        r == is_white_space(c),
;

/// The control characters of Unicode.
pub open spec fn is_control_char(c: char) -> bool {
    c as u32 <= 0x1f || 0x7f <= c as u32 <= 0x9f
}

/// Whether the character is a control character.
pub fn control_char(c: char) -> (r: bool)
    ensures
        r == is_control_char(c),
{
    let code: u32 = c as u32;
    code <= 0x1f || (0x7f <= code && code <= 0x9f)
}

/// The halfwidth katakana sound marks, which a terminal shows on a cell of their
/// own though they have no width.
pub open spec fn is_sound_mark(c: char) -> bool {
    c as u32 == 0xff9e || c as u32 == 0xff9f
}

/// Whether the character is a halfwidth katakana sound mark.
pub fn sound_mark(c: char) -> (r: bool)
    ensures
        r == is_sound_mark(c),
{
    let code: u32 = c as u32;
    code == 0xff9e || code == 0xff9f
}

/// `n` spaces; none where `n` is negative.
pub open spec fn spaces(n: int) -> Seq<char> {
    Seq::new(
        if n > 0 {
            n as nat
        } else {
            0
        },
        |i: int| ' ',
    )
}

/// The character of one decimal digit.
pub open spec fn digit(d: nat) -> char {
    ('0' as u32 + d) as char
}

/// `n` in decimal, most significant digit first, without leading zeros.
pub open spec fn decimal(n: nat) -> Seq<char>
    decreases n,
{
    if n < 10 {
        seq![digit(n)]
    } else {
        decimal(n / 10).push(digit(n % 10))
    }
}

/// `n` in decimal, with a leading `-` when it is negative.
pub open spec fn signed_decimal(n: int) -> Seq<char> {
    if n < 0 {
        seq!['-'] + decimal((-n) as nat)
    } else {
        decimal(n as nat)
    }
}

/// `text` followed by the spaces that bring it to `width` characters.
pub open spec fn padded_right(text: Seq<char>, width: nat) -> Seq<char> {
    text + Seq::new(
        if text.len() < width {
            (width - text.len()) as nat
        } else {
            0
        },
        |i: int| ' ',
    )
}

/// Appends `n` in decimal.
pub fn push_decimal(out: &mut String, n: u64)
    ensures
        final(out)@ == old(out)@ + decimal(n as nat),
    decreases n,
{
    if n >= 10 {
        push_decimal(out, n / 10);
    }
    let d: u8 = 0x30 + (n % 10) as u8;
    let c = d as char;
    assert(c == digit((n % 10) as nat));
    out.push(c);
    proof {
        if n >= 10 {
            assert(decimal(n as nat) == decimal((n / 10) as nat).push(digit((n % 10) as nat)));
        }
    }
}

/// Appends `n` in decimal, with its sign when it is negative.
pub fn push_signed_decimal(out: &mut String, n: i32)
    ensures
        final(out)@ == old(out)@ + signed_decimal(n as int),
{
    if n < 0 {
        out.push('-');
        let magnitude: u64 = (-(n as i64)) as u64;
        push_decimal(out, magnitude);
        proof {
            assert(old(out)@.push('-') + decimal((-n) as nat) =~= old(out)@ + signed_decimal(
                n as int,
            ));
        }
    } else {
        push_decimal(out, n as u64);
    }
}

/// `text` padded on the right with spaces to `width` characters.
pub fn pad_right(text: &str, width: usize) -> (out: String)
    ensures
        out@ == padded_right(text@, width as nat),
{
    let mut out = text.to_owned();
    let len: usize = text.unicode_len();
    let mut i: usize = len;
    assert(out@ =~= padded_right(text@, len as nat));
    while i < width
        invariant
            len == text@.len(),
            len <= i,
            i <= width || i == len,
            out@ == padded_right(text@, i as nat),
        decreases width - i,
    {
        out.push(' ');
        i = i + 1;
        assert(out@ =~= padded_right(text@, i as nat));
    }
    assert(out@ =~= padded_right(text@, width as nat));
    out
}

/// The pieces of `text` between its newlines; one piece, `text` itself, when
/// there are none.
pub open spec fn split_newlines(text: Seq<char>) -> Seq<Seq<char>>
    decreases text.len(),
{
    if text.len() == 0 {
        seq![Seq::empty()]
    } else {
        let pieces = split_newlines(text.drop_last());
        if text.last() == '\n' {
            pieces.push(Seq::empty())
        } else {
            pieces.drop_last().push(pieces.last().push(text.last()))
        }
    }
}

/// `line` without the carriage return it may end in.
pub open spec fn without_carriage_return(line: Seq<char>) -> Seq<char> {
    if line.len() > 0 && line.last() == '\r' {
        line.drop_last()
    } else {
        line
    }
}

/// The lines of `text`: a line ends in `\n` or `\r\n`, and the ending of the
/// last line is optional.
pub open spec fn lines_of(text: Seq<char>) -> Seq<Seq<char>> {
    let pieces = split_newlines(text);
    let ended = pieces.drop_last().map_values(|l: Seq<char>| without_carriage_return(l));
    if pieces.last().len() == 0 {
        ended
    } else {
        ended.push(pieces.last())
    }
}

/// `text` without the white space it ends in.
pub open spec fn trimmed_end(text: Seq<char>) -> Seq<char>
    decreases text.len(),
{
    if text.len() > 0 && is_white_space(text.last()) {
        trimmed_end(text.drop_last())
    } else {
        text
    }
}

/// The pieces one after the other, each followed by a newline.
pub open spec fn newline_terminated(pieces: Seq<Seq<char>>) -> Seq<char>
    decreases pieces.len(),
{
    if pieces.len() == 0 {
        Seq::empty()
    } else {
        newline_terminated(pieces.drop_last()) + pieces.last() + seq!['\n']
    }
}

/// The pieces with a newline between each two of them.
pub open spec fn newline_joined(pieces: Seq<Seq<char>>) -> Seq<char> {
    newline_terminated(pieces.drop_last()) + pieces.last()
}

/// `text` with the white space at the end of each of its lines taken away.
pub open spec fn with_line_ends_trimmed(text: Seq<char>) -> Seq<char> {
    newline_joined(split_newlines(text).map_values(|l: Seq<char>| trimmed_end(l)))
}

/// Whether `text` holds nothing but white space.
pub open spec fn is_blank(text: Seq<char>) -> bool {
    forall|i: int| 0 <= i < text.len() ==> is_white_space(#[trigger] text[i])
}

/// The contents of a sequence of strings.
pub open spec fn contents(strings: Seq<String>) -> Seq<Seq<char>> {
    strings.map_values(|s: String| s@)
}

/// The string made of `chars`.
pub fn string_of(chars: &Vec<char>) -> (out: String)
    ensures
        out@ == chars@,
{
    let mut out = String::new();
    for i in 0..chars.len()
        invariant
            out@ == chars@.take(i as int),
    {
        out.push(chars[i]);
        assert(out@ =~= chars@.take(i + 1));
    }
    assert(chars@.take(chars@.len() as int) =~= chars@);
    out
}

/// The characters of `text`.
pub fn chars_of(text: &str) -> (out: Vec<char>)
    ensures
        out@ == text@,
{
    let mut out: Vec<char> = Vec::new();
    let len: usize = text.unicode_len();
    for i in 0..len
        invariant
            len == text@.len(),
            out@ == text@.take(i as int),
    {
        out.push(text.get_char(i));
        assert(out@ =~= text@.take(i + 1));
    }
    assert(text@.take(len as int) =~= text@);
    out
}

/// The lines of `text`, without their endings.
pub fn lines(text: &str) -> (out: Vec<String>)
    ensures
        contents(out@) == lines_of(text@),
{
    let chars = chars_of(text);
    let mut out: Vec<String> = Vec::new();
    let mut line: Vec<char> = Vec::new();
    assert(split_newlines(text@.take(0)) =~= seq![Seq::<char>::empty()]);
    for i in 0..chars.len()
        invariant
            chars@ == text@,
            split_newlines(text@.take(i as int)).len() == out@.len() + 1,
            line@ == split_newlines(text@.take(i as int)).last(),
            contents(out@) == split_newlines(text@.take(i as int)).drop_last().map_values(
                |l: Seq<char>| without_carriage_return(l),
            ),
    {
        let c = chars[i];
        let ghost before = split_newlines(text@.take(i as int));
        let ghost after = split_newlines(text@.take(i + 1));
        assert(text@.take(i + 1).drop_last() =~= text@.take(i as int));
        if c == '\n' {
            let n: usize = line.len();
            if n > 0 && line[n - 1] == '\r' {
                line.truncate(n - 1);
            }
            assert(line@ =~= without_carriage_return(before.last()));
            let s = string_of(&line);
            let ghost old_out = out@;
            out.push(s);
            line = Vec::new();
            assert(after.drop_last() =~= before);
            let ghost ended = before.drop_last().map_values(
                |l: Seq<char>| without_carriage_return(l),
            );
            assert(contents(out@) =~= contents(old_out).push(s@));
            assert(contents(out@) =~= ended.push(without_carriage_return(before.last())));
            assert(after.drop_last().map_values(|l: Seq<char>| without_carriage_return(l))
                =~= ended.push(without_carriage_return(before.last())));
        } else {
            line.push(c);
            assert(after.drop_last() =~= before.drop_last());
        }
    }
    assert(text@.take(text@.len() as int) =~= text@);
    if line.len() > 0 {
        out.push(string_of(&line));
    }
    assert(contents(out@) =~= lines_of(text@));
    out
}

/// Drops the white space at the end of `line`.
pub fn trim_end(line: &mut Vec<char>)
    ensures
        final(line)@ == trimmed_end(old(line)@),
{
    let ghost whole = line@;
    while line.len() > 0 && line[line.len() - 1].is_whitespace()
        invariant
            trimmed_end(line@) == trimmed_end(whole),
        decreases line@.len(),
    {
        let n: usize = line.len();
        line.truncate(n - 1);
        assert(line@ =~= line@.take(n - 1));
    }
}

/// `text` with the white space at the end of each of its lines taken away.
pub fn trim_line_ends(text: &Vec<char>) -> (out: Vec<char>)
    ensures
        out@ == with_line_ends_trimmed(text@),
{
    let mut out: Vec<char> = Vec::new();
    let mut line: Vec<char> = Vec::new();
    assert(split_newlines(text@.take(0)) =~= seq![Seq::<char>::empty()]);
    assert(split_newlines(text@.take(0)).drop_last().map_values(
        |l: Seq<char>| trimmed_end(l),
    ).len() == 0);
    for i in 0..text.len()
        invariant
            split_newlines(text@.take(i as int)).len() > 0,
            line@ == split_newlines(text@.take(i as int)).last(),
            out@ == newline_terminated(
                split_newlines(text@.take(i as int)).drop_last().map_values(
                    |l: Seq<char>| trimmed_end(l),
                ),
            ),
    {
        let c = text[i];
        let ghost before = split_newlines(text@.take(i as int));
        let ghost after = split_newlines(text@.take(i + 1));
        assert(text@.take(i + 1).drop_last() =~= text@.take(i as int));
        if c == '\n' {
            trim_end(&mut line);
            out.append(&mut line);
            out.push('\n');
            line = Vec::new();
            assert(after.drop_last() =~= before);
            let ghost trimmed = before.map_values(|l: Seq<char>| trimmed_end(l));
            assert(trimmed.drop_last() =~= before.drop_last().map_values(
                |l: Seq<char>| trimmed_end(l),
            ));
            assert(out@ =~= newline_terminated(trimmed));
        } else {
            line.push(c);
            assert(after.drop_last() =~= before.drop_last());
        }
    }
    assert(text@.take(text@.len() as int) =~= text@);
    let ghost pieces = split_newlines(text@);
    let ghost trimmed = pieces.map_values(|l: Seq<char>| trimmed_end(l));
    assert(trimmed.drop_last() =~= pieces.drop_last().map_values(|l: Seq<char>| trimmed_end(l)));
    trim_end(&mut line);
    out.append(&mut line);
    out
}

/// Whether `text` holds nothing but white space.
pub fn blank(text: &Vec<char>) -> (r: bool)
    ensures
        r == is_blank(text@),
{
    for i in 0..text.len()
        invariant
            forall|j: int| 0 <= j < i ==> is_white_space(#[trigger] text@[j]),
    {
        if !text[i].is_whitespace() {
            return false;
        }
    }
    true
}

/// A decimal number is written in digits only.
pub proof fn decimal_is_digits(n: nat)
    ensures
        decimal(n).len() > 0,
        forall|i: int|
            0 <= i < decimal(n).len() ==> '0' <= #[trigger] decimal(n)[i] && decimal(n)[i] <= '9',
    decreases n,
{
    if n >= 10 {
        decimal_is_digits(n / 10);
    }
}

/// Different numbers are written differently.
pub proof fn decimal_is_injective(a: nat, b: nat)
    ensures
        decimal(a) == decimal(b) ==> a == b,
    decreases a,
{
    decimal_is_digits(a / 10);
    decimal_is_digits(b / 10);
    if decimal(a) == decimal(b) {
        assert(decimal(a).last() == digit(a % 10));
        assert(decimal(b).last() == digit(b % 10));
        if a >= 10 && b >= 10 {
            assert(decimal(a).drop_last() =~= decimal(a / 10));
            assert(decimal(b).drop_last() =~= decimal(b / 10));
            decimal_is_injective(a / 10, b / 10);
        }
    }
}

pub(crate) proof fn a_line_is_one_piece(line: Seq<char>)
    requires
        !line.contains('\n'),
    ensures
        split_newlines(line) == seq![line],
    decreases line.len(),
{
    if line.len() == 0 {
        assert(line =~= Seq::empty());
    } else {
        let before = line.drop_last();
        assert(line[line.len() - 1] != '\n');
        assert forall|k: int| 0 <= k < before.len() implies #[trigger] before[k] != '\n' by {
            assert(line[k] != '\n');
        }
        a_line_is_one_piece(before);
        assert(before.push(line.last()) =~= line);
        assert(split_newlines(line) =~= seq![line]);
    }
}

pub(crate) proof fn one_more_line_is_one_more_piece(text: Seq<char>, line: Seq<char>)
    requires
        !line.contains('\n'),
    ensures
        split_newlines(text.push('\n') + line) == split_newlines(text).push(line),
    decreases line.len(),
{
    let whole = text.push('\n') + line;
    if line.len() == 0 {
        assert(whole =~= text.push('\n'));
        assert(whole.drop_last() =~= text);
        assert(line =~= Seq::empty());
    } else {
        let before = line.drop_last();
        assert(line[line.len() - 1] != '\n');
        assert forall|k: int| 0 <= k < before.len() implies #[trigger] before[k] != '\n' by {
            assert(line[k] != '\n');
        }
        one_more_line_is_one_more_piece(text, before);
        assert(whole.drop_last() =~= text.push('\n') + before);
        assert(before.push(line.last()) =~= line);
        assert(split_newlines(whole) =~= split_newlines(text).push(line));
    }
}

pub(crate) proof fn trimming_keeps_what_is_not_blank(text: Seq<char>)
    ensures
        is_blank(trimmed_end(text)) == is_blank(text),
    decreases text.len(),
{
    if text.len() > 0 && is_white_space(text.last()) {
        let before = text.drop_last();
        trimming_keeps_what_is_not_blank(before);
        if is_blank(before) {
            assert forall|i: int| 0 <= i < text.len() implies is_white_space(#[trigger] text[i]) by {
                if i < before.len() {
                    assert(is_white_space(before[i]));
                }
            }
        }
        if is_blank(text) {
            assert forall|i: int| 0 <= i < before.len() implies is_white_space(
                #[trigger] before[i],
            ) by {
                assert(is_white_space(text[i]));
            }
        }
    }
}

proof fn blank_parts(a: Seq<char>, b: Seq<char>)
    ensures
        is_blank(a + b) == (is_blank(a) && is_blank(b)),
{
    if is_blank(a + b) {
        assert forall|i: int| 0 <= i < a.len() implies is_white_space(#[trigger] a[i]) by {
            assert((a + b)[i] == a[i]);
        }
        assert forall|i: int| 0 <= i < b.len() implies is_white_space(#[trigger] b[i]) by {
            assert((a + b)[a.len() + i] == b[i]);
        }
    }
}

proof fn terminated_lines_are_blank_together(pieces: Seq<Seq<char>>)
    ensures
        is_blank(newline_terminated(pieces)) == (forall|k: int|
            0 <= k < pieces.len() ==> is_blank(#[trigger] pieces[k])),
    decreases pieces.len(),
{
    if pieces.len() > 0 {
        let before = pieces.drop_last();
        terminated_lines_are_blank_together(before);
        blank_parts(newline_terminated(before), pieces.last());
        blank_parts(newline_terminated(before) + pieces.last(), seq!['\n']);
        assert(is_blank(seq!['\n']));
        assert(pieces[pieces.len() - 1] == pieces.last());
        assert forall|k: int| 0 <= k < before.len() implies is_blank(#[trigger] before[k])
            == is_blank(pieces[k]) by {}
        if forall|k: int| 0 <= k < before.len() ==> is_blank(#[trigger] before[k]) {
            if is_blank(pieces.last()) {
                assert forall|k: int| 0 <= k < pieces.len() implies is_blank(
                    #[trigger] pieces[k],
                ) by {
                    if k < before.len() {
                        assert(is_blank(before[k]));
                    }
                }
            }
        } else {
            let k = choose|k: int| 0 <= k < before.len() && !is_blank(#[trigger] before[k]);
            assert(!is_blank(pieces[k]));
        }
    }
}

pub(crate) proof fn joined_lines_are_blank_together(pieces: Seq<Seq<char>>)
    requires
        pieces.len() > 0,
    ensures
        is_blank(newline_joined(pieces)) == (forall|k: int|
            0 <= k < pieces.len() ==> is_blank(#[trigger] pieces[k])),
{
    let before = pieces.drop_last();
    terminated_lines_are_blank_together(before);
    blank_parts(newline_terminated(before), pieces.last());
    assert(pieces[pieces.len() - 1] == pieces.last());
    assert forall|k: int| 0 <= k < before.len() implies is_blank(#[trigger] before[k]) == is_blank(
        pieces[k],
    ) by {}
    if forall|k: int| 0 <= k < before.len() ==> is_blank(#[trigger] before[k]) {
        if is_blank(pieces.last()) {
            assert forall|k: int| 0 <= k < pieces.len() implies is_blank(#[trigger] pieces[k]) by {
                if k < before.len() {
                    assert(is_blank(before[k]));
                }
            }
        }
    } else {
        let k = choose|k: int| 0 <= k < before.len() && !is_blank(#[trigger] before[k]);
        assert(!is_blank(pieces[k]));
    }
}

/// The number that a row of decimal digits stands for.
pub open spec fn number_of(digits: Seq<char>) -> int
    decreases digits.len(),
{
    if digits.len() == 0 {
        0
    } else {
        number_of(digits.drop_last()) * 10 + (digits.last() as u32 - '0' as u32)
    }
}

/// A number in decimal stands for that number, and no number but zero begins with a
/// zero. A negative one has a minus before it.
pub proof fn decimals_stand_for_their_numbers(n: nat)
    ensures
        number_of(decimal(n)) == n,
        n > 0 ==> decimal(n)[0] != '0',
        n < 10 ==> decimal(n).len() == 1,
        signed_decimal(n as int) == decimal(n),
        n > 0 ==> signed_decimal(-(n as int)) == seq!['-'] + decimal(n),
    decreases n,
{
    reveal_with_fuel(number_of, 2);
    if n >= 10 {
        decimals_stand_for_their_numbers(n / 10);
        decimal_is_digits(n / 10);
        assert(decimal(n).drop_last() =~= decimal(n / 10));
        assert(decimal(n)[0] == decimal(n / 10)[0]);
    } else {
        assert(decimal(n).drop_last() =~= Seq::empty());
    }
}

/// Padding keeps the text, and adds the spaces that are missing at its right; a text
/// that is long enough is left as it is.
pub proof fn padding_only_adds_spaces(text: Seq<char>, width: nat)
    ensures
        padded_right(text, width).take(text.len() as int) == text,
        text.len() <= width ==> padded_right(text, width).len() == width,
        text.len() >= width ==> padded_right(text, width) == text,
        forall|i: int|
            text.len() <= i < width ==> #[trigger] padded_right(text, width)[i] == ' ',
{
    assert(padded_right(text, width).take(text.len() as int) =~= text);
    if text.len() >= width {
        assert(padded_right(text, width) =~= text);
    }
}

/// The pieces of a text joined by newlines are the text, there is always at least one,
/// and none of them holds a newline.
pub proof fn pieces_make_up_the_text(text: Seq<char>)
    ensures
        split_newlines(text).len() > 0,
        newline_joined(split_newlines(text)) == text,
        forall|k: int|
            0 <= k < split_newlines(text).len() ==> !(#[trigger] split_newlines(text)[k]).contains(
                '\n',
            ),
    decreases text.len(),
{
    let pieces = split_newlines(text);
    if text.len() == 0 {
        assert(pieces.drop_last() =~= Seq::empty());
        assert(newline_joined(pieces) =~= text);
    } else {
        let before = text.drop_last();
        let old = split_newlines(before);
        pieces_make_up_the_text(before);
        assert(before.push(text.last()) =~= text);
        if text.last() == '\n' {
            assert(pieces.drop_last() =~= old);
            assert(newline_terminated(old) == newline_terminated(old.drop_last()) + old.last()
                + seq!['\n']);
            assert(newline_joined(pieces) =~= text);
        } else {
            assert(pieces.drop_last() =~= old.drop_last());
            assert(pieces.last() =~= old.last().push(text.last()));
            assert(newline_joined(pieces) =~= text);
            assert forall|k: int| 0 <= k < pieces.len() implies !(#[trigger] pieces[k]).contains(
                '\n',
            ) by {
                if k < pieces.len() - 1 {
                    assert(pieces[k] == old[k]);
                } else {
                    assert(!old[old.len() - 1].contains('\n'));
                    if pieces[k].contains('\n') {
                        let w = pieces[k].index_of('\n');
                        if w < old.last().len() {
                            assert(old.last()[w] == '\n');
                        }
                    }
                }
            }
        }
    }
}

/// Lines are read one by one. What follows the last line ending is a line of its own
/// unless it is empty; a line that is ended counts without its ending, be that a
/// newline or a carriage return and a newline.
pub proof fn lines_are_read_one_by_one(text: Seq<char>, line: Seq<char>)
    requires
        !line.contains('\n'),
        text.len() == 0 || text.last() == '\n',
    ensures
        lines_of(Seq::empty()).len() == 0,
        line.len() > 0 ==> lines_of(text + line) == lines_of(text).push(line),
        line.len() == 0 || line.last() != '\r' ==> lines_of((text + line).push('\n')) == lines_of(
            text,
        ).push(line),
        lines_of((text + line).push('\r').push('\n')) == lines_of(text).push(line),
{
    the_empty_text_has_no_lines();
    one_more_line(text, line);
    let returned = line.push('\r');
    assert(!returned.contains('\n')) by {
        if returned.contains('\n') {
            let w = returned.index_of('\n');
            if w < line.len() {
                assert(line[w] == '\n');
            }
        }
    }
    one_more_line(text, returned);
    assert((text + line).push('\r') =~= text + returned);
    assert(returned.drop_last() =~= line);
}

proof fn the_empty_text_has_no_lines()
    ensures
        lines_of(Seq::empty()).len() == 0,
{
    assert(split_newlines(Seq::<char>::empty()) =~= seq![Seq::<char>::empty()]);
}

proof fn one_more_line(text: Seq<char>, line: Seq<char>)
    requires
        !line.contains('\n'),
        text.len() == 0 || text.last() == '\n',
    ensures
        line.len() > 0 ==> lines_of(text + line) == lines_of(text).push(line),
        lines_of((text + line).push('\n')) == lines_of(text).push(without_carriage_return(line)),
{
    let head = split_newlines(text);
    let whole = split_newlines(text + line);
    if text.len() == 0 {
        assert(text + line =~= line);
        a_line_is_one_piece(line);
        assert(head =~= seq![Seq::<char>::empty()]);
        assert(whole.drop_last() =~= Seq::empty());
        assert(head.drop_last() =~= Seq::empty());
    } else {
        let inner = text.drop_last();
        assert(inner.push('\n') =~= text);
        one_more_line_is_one_more_piece(inner, line);
        assert(head =~= split_newlines(inner).push(Seq::empty()));
        assert(whole.drop_last() =~= split_newlines(inner));
        assert(head.drop_last() =~= split_newlines(inner));
    }
    assert(head.last().len() == 0);
    assert(whole.last() == line);
    assert(whole.drop_last() =~= head.drop_last());
    if line.len() > 0 {
        assert(lines_of(text + line) =~= lines_of(text).push(line));
    }
    let closed = split_newlines((text + line).push('\n'));
    assert((text + line).push('\n').drop_last() =~= text + line);
    assert(closed =~= whole.push(Seq::empty()));
    assert(closed.drop_last() =~= whole);
    assert(whole =~= whole.drop_last().push(line));
    assert(lines_of((text + line).push('\n')) =~= lines_of(text).push(
        without_carriage_return(line),
    ));
}

/// Trimming takes the white space off the end of a text, all of it and nothing else.
pub proof fn trimming_takes_white_space_only(text: Seq<char>)
    ensures
        trimmed_end(text).len() <= text.len(),
        trimmed_end(text) == text.take(trimmed_end(text).len() as int),
        trimmed_end(text).len() > 0 ==> !is_white_space(trimmed_end(text).last()),
        forall|i: int|
            trimmed_end(text).len() <= i < text.len() ==> is_white_space(#[trigger] text[i]),
    decreases text.len(),
{
    if text.len() > 0 && is_white_space(text.last()) {
        let before = text.drop_last();
        trimming_takes_white_space_only(before);
        assert(trimmed_end(text) =~= text.take(trimmed_end(text).len() as int));
        assert forall|i: int| trimmed_end(text).len() <= i < text.len() implies is_white_space(
            #[trigger] text[i],
        ) by {
            if i < before.len() {
                assert(before[i] == text[i]);
            }
        }
    } else {
        assert(text.take(text.len() as int) =~= text);
    }
}

/// A text of one line is trimmed at its end only.
pub proof fn one_line_is_trimmed_at_its_end(line: Seq<char>)
    requires
        !line.contains('\n'),
    ensures
        with_line_ends_trimmed(line) == trimmed_end(line),
{
    a_line_is_one_piece(line);
    let pieces = split_newlines(line).map_values(|l: Seq<char>| trimmed_end(l));
    assert(pieces =~= seq![trimmed_end(line)]);
    assert(pieces.drop_last() =~= Seq::empty());
    assert(with_line_ends_trimmed(line) =~= trimmed_end(line));
}

/// Control characters are the first thirty-two, and those from the delete character
/// through the next thirty-two; the two sound marks are the last halfwidth katakana.
pub proof fn special_characters_by_their_code(c: char, n: int)
    ensures
        c as u32 <= 31 ==> is_control_char(c),
        127 <= c as u32 <= 159 ==> is_control_char(c),
        32 <= c as u32 <= 126 || 160 <= c as u32 ==> !is_control_char(c),
        is_sound_mark(c) <==> c as u32 == 65438 || c as u32 == 65439,
        n >= 0 ==> spaces(n).len() == n,
        n < 0 ==> spaces(n).len() == 0,
        forall|i: int| 0 <= i < n ==> #[trigger] spaces(n)[i] == ' ',
{
}

} // verus!

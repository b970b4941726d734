//! Control sequences written to the host terminal: the clipboard, the shape of
//! the mouse pointer, and links.

use vstd::prelude::*;
use vstd::utf8::encode_utf8;

use crate::geometry::{capped, Rect};
use crate::mouse::{HoverTransition, UrlSpan};
use crate::screen::{screen_view, Cell, CellColor, CellView, PaneParser, ScreenView};
use crate::text::{decimal, push_decimal};

verus! {

/// The character that stands for six bits.
pub open spec fn base64_digit(v: int) -> char {
    if v < 26 {
        ('A' as u32 + v) as char
    } else if v < 52 {
        ('a' as u32 + (v - 26)) as char
    } else if v < 62 {
        ('0' as u32 + (v - 52)) as char
    } else if v == 62 {
        '+'
    } else {
        '/'
    }
}

/// The four characters that stand for three bytes.
pub open spec fn base64_group(a: u8, b: u8, c: u8) -> Seq<char> {
    let n = a * 65536 + b * 256 + c;
    seq![
        base64_digit(n / 262144),
        base64_digit(n / 4096 % 64),
        base64_digit(n / 64 % 64),
        base64_digit(n % 64),
    ]
}

/// `bytes` in base64 with the standard alphabet: three bytes give four
/// characters, and a shorter last group is padded with `=`.
pub open spec fn base64(bytes: Seq<u8>) -> Seq<char>
    decreases bytes.len(),
{
    if bytes.len() == 0 {
        Seq::empty()
    } else if bytes.len() == 1 {
        base64_group(bytes[0], 0, 0).take(2) + seq!['=', '=']
    } else if bytes.len() == 2 {
        base64_group(bytes[0], bytes[1], 0).take(3) + seq!['=']
    } else {
        base64_group(bytes[0], bytes[1], bytes[2]) + base64(bytes.skip(3))
    }
}

/// `base64::Engine::encode` of the engine `base64::engine::general_purpose::STANDARD`:
/// base64 with the standard alphabet and padding.
#[verifier::external_body]
fn base64_encode(bytes: &[u8]) -> (r: String)
    ensures
        r@ == base64(bytes@),
{
    base64::Engine::encode(&base64::engine::general_purpose::STANDARD, bytes)
}

/// The sequence that puts a text on the system clipboard.
pub open spec fn clipboard_sequence(text: Seq<char>) -> Seq<char> {
    "\x1b]52;c;"@ + base64(encode_utf8(text)) + "\x07"@
}

/// Appends the sequence that puts `text` on the system clipboard.
pub fn write_clipboard_to(out: &mut String, text: &str)
    ensures
        final(out)@ == old(out)@ + clipboard_sequence(text@),
{
    let payload = base64_encode(text.as_bytes());
    out.append("\x1b]52;c;");
    out.append(payload.as_str());
    out.append("\x07");
    assert(out@ =~= old(out)@ + clipboard_sequence(text@));
}

/// The sequence that sets the shape of the mouse pointer: a hand or an arrow.
pub open spec fn pointer_sequence(pointer: bool) -> Seq<char> {
    if pointer {
        "\x1b]22;pointer\x1b\\"@
    } else {
        "\x1b]22;default\x1b\\"@
    }
}

/// Appends the sequence that sets the shape of the mouse pointer.
pub fn emit_mouse_cursor_shape(out: &mut String, pointer: bool)
    ensures
        final(out)@ == old(out)@ + pointer_sequence(pointer),
{
    if pointer {
        out.append("\x1b]22;pointer\x1b\\");
    } else {
        out.append("\x1b]22;default\x1b\\");
    }
}

/// What a hover transition writes: the pointer changes when a link comes under
/// the mouse and when it leaves, and not otherwise.
pub open spec fn hover_sequence(transition: HoverTransition) -> Seq<char> {
    match transition {
        HoverTransition::Activated => pointer_sequence(true),
        HoverTransition::Deactivated => pointer_sequence(false),
        HoverTransition::Unchanged => Seq::empty(),
    }
}

/// Appends what a hover transition writes.
pub fn apply_hover_cursor(out: &mut String, transition: HoverTransition)
    ensures
        final(out)@ == old(out)@ + hover_sequence(transition),
{
    match transition {
        HoverTransition::Activated => emit_mouse_cursor_shape(out, true),
        HoverTransition::Deactivated => emit_mouse_cursor_shape(out, false),
        HoverTransition::Unchanged => {
            assert(out@ =~= old(out)@ + hover_sequence(transition));
        },
    }
}

/// The sequence that selects a color for the text or its background.
pub open spec fn color_sequence(color: CellColor, foreground: bool) -> Seq<char> {
    let kind = if foreground {
        "\x1b[38"@
    } else {
        "\x1b[48"@
    };
    match color {
        CellColor::Default => if foreground {
            "\x1b[39m"@
        } else {
            "\x1b[49m"@
        },
        CellColor::Idx(n) => kind + ";5;"@ + decimal(n as nat) + "m"@,
        CellColor::Rgb(r, g, b) => kind + ";2;"@ + decimal(r as nat) + ";"@ + decimal(g as nat)
            + ";"@ + decimal(b as nat) + "m"@,
    }
}

/// Appends the sequence that selects a color for the text or its background.
pub fn emit_color(out: &mut String, color: CellColor, foreground: bool)
    ensures
        final(out)@ == old(out)@ + color_sequence(color, foreground),
{
    let kind = if foreground {
        "\x1b[38"
    } else {
        "\x1b[48"
    };
    match color {
        CellColor::Default => {
            if foreground {
                out.append("\x1b[39m");
            } else {
                out.append("\x1b[49m");
            }
        },
        CellColor::Idx(n) => {
            out.append(kind);
            out.append(";5;");
            push_decimal(out, n as u64);
            out.append("m");
        },
        CellColor::Rgb(r, g, b) => {
            out.append(kind);
            out.append(";2;");
            push_decimal(out, r as u64);
            out.append(";");
            push_decimal(out, g as u64);
            out.append(";");
            push_decimal(out, b as u64);
            out.append("m");
        },
    }
    assert(out@ =~= old(out)@ + color_sequence(color, foreground));
}

/// `text` when `wanted`, and nothing otherwise.
pub open spec fn only_if(wanted: bool, text: Seq<char>) -> Seq<char> {
    if wanted {
        text
    } else {
        Seq::empty()
    }
}

/// The sequence that selects a cell's attributes and colors, after clearing
/// those of the cell before. Dimness is left out.
pub open spec fn cell_style_sequence(
    bold: bool,
    italic: bool,
    underline: bool,
    inverse: bool,
    fg: CellColor,
    bg: CellColor,
) -> Seq<char> {
    "\x1b[0m"@ + only_if(bold, "\x1b[1m"@) + only_if(italic, "\x1b[3m"@) + only_if(
        underline,
        "\x1b[4m"@,
    ) + only_if(inverse, "\x1b[7m"@) + color_sequence(fg, true) + color_sequence(bg, false)
}

fn append_if(out: &mut String, wanted: bool, text: &str)
    ensures
        final(out)@ == old(out)@ + only_if(wanted, text@),
{
    if wanted {
        out.append(text);
    } else {
        assert(out@ =~= old(out)@ + only_if(wanted, text@));
    }
}

/// Appending seven texts one by one is appending them together.
proof fn seven_in_a_row(
    s: Seq<char>,
    a: Seq<char>,
    b: Seq<char>,
    c: Seq<char>,
    d: Seq<char>,
    e: Seq<char>,
    f: Seq<char>,
    g: Seq<char>,
)
    ensures
        s + a + b + c + d + e + f + g == s + (a + b + c + d + e + f + g),
{
    assert(s + a + b =~= s + (a + b));
    assert(s + (a + b) + c =~= s + (a + b + c));
    assert(s + (a + b + c) + d =~= s + (a + b + c + d));
    assert(s + (a + b + c + d) + e =~= s + (a + b + c + d + e));
    assert(s + (a + b + c + d + e) + f =~= s + (a + b + c + d + e + f));
    assert(s + (a + b + c + d + e + f) + g =~= s + (a + b + c + d + e + f + g));
}

/// Appends the sequence that selects a cell's attributes and colors.
pub fn emit_cell_sgr(out: &mut String, cell: &Cell)
    ensures
        final(out)@ == old(out)@ + cell_style_sequence(
            cell.glyph.bold,
            cell.glyph.italic,
            cell.glyph.underline,
            cell.glyph.inverse,
            cell.fg,
            cell.bg,
        ),
{
    let ghost s0 = out@;
    out.append("\x1b[0m");
    append_if(out, cell.glyph.bold, "\x1b[1m");
    append_if(out, cell.glyph.italic, "\x1b[3m");
    append_if(out, cell.glyph.underline, "\x1b[4m");
    append_if(out, cell.glyph.inverse, "\x1b[7m");
    emit_color(out, cell.fg, true);
    emit_color(out, cell.bg, false);
    proof {
        seven_in_a_row(
            s0,
            "\x1b[0m"@,
            only_if(cell.glyph.bold, "\x1b[1m"@),
            only_if(cell.glyph.italic, "\x1b[3m"@),
            only_if(cell.glyph.underline, "\x1b[4m"@),
            only_if(cell.glyph.inverse, "\x1b[7m"@),
            color_sequence(cell.fg, true),
            color_sequence(cell.bg, false),
        );
    }
}

/// What is printed for a cell of a link: its style and its text, a space where
/// it has none, and nothing for the second half of a wide glyph.
pub open spec fn link_cell(cell: Option<CellView>) -> Seq<char> {
    match cell {
        Some(c) => if c.wide_continuation {
            Seq::empty()
        } else {
            cell_style_sequence(c.bold, c.italic, c.underline, c.inverse, c.fg, c.bg) + if c.contents.len() == 0 {
                " "@
            } else {
                c.contents
            }
        },
        None => Seq::empty(),
    }
}

/// What is printed for the cells of a row from `start` up to `end`.
pub open spec fn link_cells(screen: ScreenView, row: u16, start: u16, end: int) -> Seq<char>
    decreases end - start,
{
    if end <= start {
        Seq::empty()
    } else {
        link_cells(screen, row, start, end - 1) + link_cell(screen.cell_at(row, (end - 1) as u16))
    }
}

/// What is printed for one link: go to its first cell, open the link, print its
/// cells again, close it.
pub open spec fn link_sequence(area: Rect, screen: ScreenView, url: UrlSpan) -> Seq<char> {
    if url.cols.start >= url.cols.end {
        Seq::empty()
    } else {
        "\x1b["@ + decimal((capped(area.y + url.row) + 1) as nat) + ";"@ + decimal(
            (capped(area.x + url.cols.start) + 1) as nat,
        ) + "H\x1b]8;;"@ + url.url@ + "\x1b\\"@ + link_cells(
            screen,
            url.row,
            url.cols.start,
            url.cols.end as int,
        ) + "\x1b]8;;\x1b\\"@
    }
}

/// What is printed for a list of links.
pub open spec fn link_sequences(area: Rect, screen: ScreenView, urls: Seq<UrlSpan>) -> Seq<char>
    decreases urls.len(),
{
    if urls.len() == 0 {
        Seq::empty()
    } else {
        link_sequences(area, screen, urls.drop_last()) + link_sequence(area, screen, urls.last())
    }
}

/// What is printed to mark the links of a screen drawn at `area`: the links,
/// between saving and restoring the cursor; nothing when there are none.
pub open spec fn hyperlinks(area: Rect, screen: ScreenView, urls: Seq<UrlSpan>) -> Seq<char> {
    if urls.len() == 0 {
        Seq::empty()
    } else {
        "\x1b7"@ + link_sequences(area, screen, urls) + "\x1b8"@
    }
}

fn emit_link(out: &mut String, area: Rect, screen: &PaneParser, url: &UrlSpan)
    ensures
        final(out)@ == old(out)@ + link_sequence(area, screen_view(*screen), *url),
{
    if url.cols.start >= url.cols.end {
        assert(out@ =~= old(out)@ + link_sequence(area, screen_view(*screen), *url));
        return ;
    }
    let y: u16 = area.y.saturating_add(url.row);
    let x: u16 = area.x.saturating_add(url.cols.start);
    out.append("\x1b[");
    push_decimal(out, y as u64 + 1);
    out.append(";");
    push_decimal(out, x as u64 + 1);
    out.append("H\x1b]8;;");
    out.append(url.url.as_str());
    out.append("\x1b\\");
    let ghost opened = out@;
    let mut col: u16 = url.cols.start;
    assert(out@ =~= opened + link_cells(screen_view(*screen), url.row, url.cols.start, col as int));
    while col < url.cols.end
        invariant
            url.cols.start <= col <= url.cols.end,
            out@ == opened + link_cells(
                screen_view(*screen),
                url.row,
                url.cols.start,
                col as int,
            ),
        decreases url.cols.end - col,
    {
        let ghost before = out@;
        let ghost view = screen_view(*screen).cell_at(url.row, col);
        if let Some(cell) = screen.cell(url.row, col) {
            assert(cell.shows(view->0));
            if !cell.glyph.wide_continuation {
                emit_cell_sgr(out, &cell);
                if cell.glyph.contents.as_str().unicode_len() == 0 {
                    out.append(" ");
                } else {
                    out.append(cell.glyph.contents.as_str());
                }
            }
        }
        assert(out@ =~= before + link_cell(view));
        col = col + 1;
        assert(out@ =~= opened + link_cells(
            screen_view(*screen),
            url.row,
            url.cols.start,
            col as int,
        ));
    }
    out.append("\x1b]8;;\x1b\\");
    assert(out@ =~= old(out)@ + link_sequence(area, screen_view(*screen), *url));
}

/// Appends what marks the links of a screen drawn at `area` as links, for the
/// host terminal to react to. `urls` are the links found on the screen.
pub fn paint_hyperlinks_post_draw(
    out: &mut String,
    area: Rect,
    screen: &PaneParser,
    urls: &Vec<UrlSpan>,
)
    ensures
        final(out)@ == old(out)@ + hyperlinks(area, screen_view(*screen), urls@),
{
    if urls.len() == 0 {
        assert(out@ =~= old(out)@ + hyperlinks(area, screen_view(*screen), urls@));
        return ;
    }
    out.append("\x1b7");
    let ghost saved = out@;
    assert(out@ =~= saved + link_sequences(area, screen_view(*screen), urls@.take(0)));
    for i in 0..urls.len()
        invariant
            out@ == saved + link_sequences(area, screen_view(*screen), urls@.take(i as int)),
    {
        assert(urls@.take(i + 1).drop_last() =~= urls@.take(i as int));
        assert(urls@.take(i + 1).last() == urls@[i as int]);
        emit_link(out, area, screen, &urls[i]);
        assert(out@ =~= saved + link_sequences(area, screen_view(*screen), urls@.take(i + 1)));
    }
    assert(urls@.take(urls@.len() as int) =~= urls@);
    out.append("\x1b8");
    assert(out@ =~= old(out)@ + hyperlinks(area, screen_view(*screen), urls@));
}

/// A clipboard payload takes four characters for every three bytes, a last
/// incomplete group counted whole.
pub proof fn base64_length(bytes: Seq<u8>)
    ensures
        base64(bytes).len() == (bytes.len() + 2) / 3 * 4,
    decreases bytes.len(),
{
    if bytes.len() >= 3 {
        base64_length(bytes.skip(3));
    }
}

/// The six bits that a base64 character stands for.
pub open spec fn base64_bits(c: char) -> int {
    if 'A' <= c <= 'Z' {
        c as int - 'A' as int
    } else if 'a' <= c <= 'z' {
        c as int - 'a' as int + 26
    } else if '0' <= c <= '9' {
        c as int - '0' as int + 52
    } else if c == '+' {
        62
    } else {
        63
    }
}

/// The bytes that padded base64 text stands for.
pub open spec fn base64_decoded(text: Seq<char>) -> Seq<u8>
    decreases text.len(),
{
    if text.len() < 4 {
        Seq::empty()
    } else {
        let n = base64_bits(text[0]) * 262144 + base64_bits(text[1]) * 4096 + if text[2] == '=' {
            0
        } else {
            base64_bits(text[2]) * 64
        } + if text[3] == '=' {
            0
        } else {
            base64_bits(text[3])
        };
        let bytes = seq![(n / 65536) as u8, (n / 256 % 256) as u8, (n % 256) as u8];
        if text[2] == '=' {
            bytes.take(1)
        } else if text[3] == '=' {
            bytes.take(2)
        } else {
            bytes + base64_decoded(text.skip(4))
        }
    }
}

proof fn digits_keep_their_bits(v: int)
    requires
        0 <= v < 64,
    ensures
        base64_bits(base64_digit(v)) == v,
        base64_digit(v) != '=',
{
}

proof fn six_bits_at_a_time(n: int)
    requires
        0 <= n < 16777216,
    ensures
        n == n / 262144 * 262144 + n / 4096 % 64 * 4096 + n / 64 % 64 * 64 + n % 64,
        0 <= n / 262144 < 64,
{
    vstd::arithmetic::div_mod::lemma_div_denominator(n, 64, 64);
    vstd::arithmetic::div_mod::lemma_div_denominator(n, 4096, 64);
    let q = n / 64;
    let p = n / 4096;
    assert(p == q / 64);
    assert(n / 262144 == p / 64);
    assert(n == q * 64 + n % 64);
    assert(q == p * 64 + q % 64);
    assert(p == p / 64 * 64 + p % 64);
}

proof fn eight_bits_at_a_time(a: u8, b: u8, c: u8)
    ensures
        ({
            let n = a * 65536 + b * 256 + c;
            &&& 0 <= n < 16777216
            &&& n / 65536 == a && n / 256 % 256 == b && n % 256 == c
            &&& c == 0 ==> n % 64 == 0
            &&& b == 0 && c == 0 ==> n / 64 % 64 == 0
        }),
{
    let n = a * 65536 + b * 256 + c;
    assert(n / 256 == a * 256 + b);
    if c == 0 {
        assert(n == (a * 1024 + b * 4) * 64);
        if b == 0 {
            assert(n / 64 == a * 16 * 64);
        }
    }
}

proof fn groups_keep_their_bytes(a: u8, b: u8, c: u8)
    ensures
        ({
            let g = base64_group(a, b, c);
            let n = base64_bits(g[0]) * 262144 + base64_bits(g[1]) * 4096 + base64_bits(g[2]) * 64
                + base64_bits(g[3]);
            &&& n / 65536 == a && n / 256 % 256 == b && n % 256 == c
            &&& g[2] != '=' && g[3] != '='
            &&& c == 0 ==> base64_bits(g[3]) == 0
            &&& b == 0 && c == 0 ==> base64_bits(g[2]) == 0
        }),
{
    let n = a * 65536 + b * 256 + c;
    eight_bits_at_a_time(a, b, c);
    six_bits_at_a_time(n);
    digits_keep_their_bits(n / 262144);
    digits_keep_their_bits(n / 4096 % 64);
    digits_keep_their_bits(n / 64 % 64);
    digits_keep_their_bits(n % 64);
}

/// Base64 text stands for the bytes it was made from.
pub proof fn base64_round_trips(bytes: Seq<u8>)
    ensures
        base64_decoded(base64(bytes)) == bytes,
    decreases bytes.len(),
{
    reveal_with_fuel(base64_decoded, 2);
    let text = base64(bytes);
    if bytes.len() == 1 {
        groups_keep_their_bytes(bytes[0], 0, 0);
        assert(base64_decoded(text) =~= bytes);
    } else if bytes.len() == 2 {
        groups_keep_their_bytes(bytes[0], bytes[1], 0);
        assert(base64_decoded(text) =~= bytes);
    } else if bytes.len() > 2 {
        groups_keep_their_bytes(bytes[0], bytes[1], bytes[2]);
        assert(text.skip(4) =~= base64(bytes.skip(3)));
        base64_round_trips(bytes.skip(3));
        assert(base64_decoded(text) =~= bytes);
    } else {
        assert(base64_decoded(text) =~= bytes);
    }
}

/// What a copy puts on the clipboard is the text that was copied, whatever it
/// holds: the payload of the sequence is base64 for its UTF-8.
pub proof fn the_clipboard_gets_the_text(text: Seq<char>)
    ensures
        ({
            let sequence = clipboard_sequence(text);
            let payload = sequence.subrange(7, sequence.len() - 1);
            vstd::utf8::decode_utf8(base64_decoded(payload)) == text
        }),
{
    reveal_strlit("\x1b]52;c;");
    reveal_strlit("\x07");
    let sequence = clipboard_sequence(text);
    let payload = base64(encode_utf8(text));
    assert(sequence.subrange(7, sequence.len() - 1) =~= payload);
    base64_round_trips(encode_utf8(text));
    vstd::utf8::encode_utf8_decode_utf8(text);
}

/// The pointer changes to a hand when a link comes under the mouse and back to an
/// arrow when it leaves; while nothing changes nothing is written.
pub proof fn the_pointer_follows_the_link()
    ensures
        hover_sequence(HoverTransition::Activated) == "\x1b]22;pointer\x1b\\"@,
        hover_sequence(HoverTransition::Deactivated) == "\x1b]22;default\x1b\\"@,
        hover_sequence(HoverTransition::Unchanged).len() == 0,
        pointer_sequence(true) == "\x1b]22;pointer\x1b\\"@,
        pointer_sequence(false) == "\x1b]22;default\x1b\\"@,
{
}

/// A color is selected by its number in the palette, by its three parts in the order
/// red, green, blue, or as the default; the text and its background by different
/// sequences.
pub proof fn colors_are_selected_by_their_numbers(n: u8, g: u8, b: u8)
    ensures
        color_sequence(CellColor::Default, true) == "\x1b[39m"@,
        color_sequence(CellColor::Default, false) == "\x1b[49m"@,
        color_sequence(CellColor::Idx(n), true) == "\x1b[38"@ + (";5;"@ + (decimal(n as nat)
            + "m"@)),
        color_sequence(CellColor::Idx(n), false) == "\x1b[48"@ + (";5;"@ + (decimal(n as nat)
            + "m"@)),
        color_sequence(CellColor::Rgb(n, g, b), true) == "\x1b[38"@ + (";2;"@ + (decimal(n as nat)
            + (";"@ + (decimal(g as nat) + (";"@ + (decimal(b as nat) + "m"@)))))),
        color_sequence(CellColor::Rgb(n, g, b), false) == "\x1b[48"@ + (";2;"@ + (decimal(n as nat)
            + (";"@ + (decimal(g as nat) + (";"@ + (decimal(b as nat) + "m"@)))))),
{
    assert(color_sequence(CellColor::Idx(n), true) =~= "\x1b[38"@ + (";5;"@ + (decimal(n as nat)
        + "m"@)));
    assert(color_sequence(CellColor::Idx(n), false) =~= "\x1b[48"@ + (";5;"@ + (decimal(n as nat)
        + "m"@)));
    assert(color_sequence(CellColor::Rgb(n, g, b), true) =~= "\x1b[38"@ + (";2;"@ + (decimal(
        n as nat,
    ) + (";"@ + (decimal(g as nat) + (";"@ + (decimal(b as nat) + "m"@)))))));
    assert(color_sequence(CellColor::Rgb(n, g, b), false) =~= "\x1b[48"@ + (";2;"@ + (decimal(
        n as nat,
    ) + (";"@ + (decimal(g as nat) + (";"@ + (decimal(b as nat) + "m"@)))))));
}

/// The style of a cell starts from a clean slate, then selects each attribute that the
/// cell has and no other, and ends with its two colors.
pub proof fn a_cell_style_selects_what_the_cell_has(
    bold: bool,
    italic: bool,
    underline: bool,
    inverse: bool,
    fg: CellColor,
    bg: CellColor,
)
    ensures
        ({
            let none = Seq::<char>::empty();
            let b = if bold {
                "\x1b[1m"@
            } else {
                none
            };
            let i = if italic {
                "\x1b[3m"@
            } else {
                none
            };
            let u = if underline {
                "\x1b[4m"@
            } else {
                none
            };
            let r = if inverse {
                "\x1b[7m"@
            } else {
                none
            };
            cell_style_sequence(bold, italic, underline, inverse, fg, bg) == "\x1b[0m"@ + b + i + u
                + r + color_sequence(fg, true) + color_sequence(bg, false)
        }),
{
}

/// A cell of a link is printed in its own style with its own text, a space where it
/// has none; the second half of a wide glyph, and what is past an edge, is not.
pub proof fn a_link_cell_shows_its_text(cell: CellView)
    ensures
        link_cell(None).len() == 0,
        cell.wide_continuation ==> link_cell(Some(cell)).len() == 0,
        !cell.wide_continuation ==> {
            let style = cell_style_sequence(
                cell.bold,
                cell.italic,
                cell.underline,
                cell.inverse,
                cell.fg,
                cell.bg,
            );
            &&& cell.contents.len() > 0 ==> link_cell(Some(cell)) == style + cell.contents
            &&& cell.contents.len() == 0 ==> link_cell(Some(cell)) == style + " "@
        },
{
}

/// The cells of a link are printed from left to right, each once: a stretch is what
/// stands before any of its columns, followed by what stands from that column on.
pub proof fn link_cells_are_printed_in_order(
    screen: ScreenView,
    row: u16,
    start: u16,
    mid: u16,
    end: int,
)
    requires
        start <= mid <= end,
    ensures
        link_cells(screen, row, start, start as int).len() == 0,
        link_cells(screen, row, start, end) == link_cells(screen, row, start, mid as int)
            + link_cells(screen, row, mid, end),
        mid < u16::MAX ==> link_cells(screen, row, mid, mid + 1) == link_cell(
            screen.cell_at(row, mid),
        ),
    decreases end - mid,
{
    if end > mid {
        link_cells_are_printed_in_order(screen, row, start, mid, end - 1);
        assert(link_cells(screen, row, start, end) =~= link_cells(screen, row, start, mid as int)
            + link_cells(screen, row, mid, end));
    } else {
        assert(link_cells(screen, row, start, end) =~= link_cells(screen, row, start, mid as int)
            + link_cells(screen, row, mid, end));
    }
    if mid < u16::MAX {
        reveal_with_fuel(link_cells, 2);
        assert(link_cells(screen, row, mid, mid + 1) =~= link_cell(screen.cell_at(row, mid)));
    }
}

/// A link is printed over its first cell, counted from one, at the place of the pane:
/// opened with its address, its cells again, and closed. A link without cells is not
/// printed.
pub proof fn a_link_is_printed_where_it_stands(area: Rect, screen: ScreenView, url: UrlSpan)
    ensures
        url.cols.start >= url.cols.end ==> link_sequence(area, screen, url).len() == 0,
        url.cols.start < url.cols.end && area.y + url.row <= u16::MAX && area.x + url.cols.start
            <= u16::MAX ==> link_sequence(area, screen, url) == "\x1b["@ + decimal(
            (area.y + url.row + 1) as nat,
        ) + ";"@ + decimal((area.x + url.cols.start + 1) as nat) + "H\x1b]8;;"@ + url.url@
            + "\x1b\\"@ + link_cells(screen, url.row, url.cols.start, url.cols.end as int)
            + "\x1b]8;;\x1b\\"@,
{
}

/// All links of a screen are printed in order, between saving and restoring the
/// cursor; without any, nothing is written.
pub proof fn links_are_printed_in_order(
    area: Rect,
    screen: ScreenView,
    urls: Seq<UrlSpan>,
    last: UrlSpan,
)
    ensures
        hyperlinks(area, screen, Seq::empty()).len() == 0,
        link_sequences(area, screen, Seq::empty()).len() == 0,
        link_sequences(area, screen, urls.push(last)) == link_sequences(area, screen, urls)
            + link_sequence(area, screen, last),
        hyperlinks(area, screen, urls.push(last)) == "\x1b7"@ + (link_sequences(
            area,
            screen,
            urls,
        ) + link_sequence(area, screen, last)) + "\x1b8"@,
{
    assert(urls.push(last).drop_last() =~= urls);
}

/// The clipboard sequence of a text: its opening, the text in base64, and its end.
pub proof fn a_copy_is_framed(text: Seq<char>)
    ensures
        clipboard_sequence(text) == "\x1b]52;c;"@ + (base64(encode_utf8(text)) + "\x07"@),
{
    assert(clipboard_sequence(text) =~= "\x1b]52;c;"@ + (base64(encode_utf8(text)) + "\x07"@));
}

} // verus!

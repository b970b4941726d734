//! The help screen: every binding, by where it holds.

use vstd::prelude::*;

use crate::geometry::{centered, centered_rect_with_size, Rect};
use crate::keymap::{
    binding_of, what_is_found_is_there, Binding, Bindings, DirectAction, ModalChord, PopupAction,
    PrefixAction, ScrollAction,
};
use crate::paint::{
    block_inner, inside_border, line_views, paint, paint_views, plain_text, text_line, Align,
    LineView, Paint, PaintView, TextLine,
};
use crate::style::Style;
use crate::text::{pad_right, padded_right};

verus! {

/// The size of the help screen.
pub const HELP_WIDTH: u16 = 64;

pub const HELP_HEIGHT: u16 = 50;

/// How wide the column of chords is.
pub const CHORD_COLUMN: usize = 10;

/// The line of one binding: the chord in its column, and what it does.
pub open spec fn binding_text(chord: Seq<char>, description: Seq<char>) -> Seq<char> {
    "  "@ + padded_right(chord, CHORD_COLUMN as nat) + "  "@ + description
}

/// The line of one binding.
pub open spec fn entry(chord: Seq<char>, description: Seq<char>) -> LineView {
    text_line(binding_text(chord, description), Style::plain())
}

/// The style of a section's first line.
pub open spec fn header_style() -> Style {
    Style { bold: true, ..Style::plain() }
}

/// The first line of a section.
pub open spec fn header(text: Seq<char>) -> LineView {
    text_line(text, header_style())
}

/// The line between two sections.
pub open spec fn blank_line() -> LineView {
    text_line(""@, Style::plain())
}

/// The lines of the bindings of one scope.
pub open spec fn entries<A>(bindings: Seq<Binding<A>>) -> Seq<LineView> {
    bindings.map_values(|b: Binding<A>| entry(b.label@, b.description@))
}

/// The lines of the chords of the spawn dialog.
pub open spec fn modal_entries(chords: Seq<ModalChord>) -> Seq<LineView> {
    chords.map_values(|c: ModalChord| entry(c.label@, c.description@))
}

/// The prefix key, and the chords that need none.
pub open spec fn direct_section(bindings: Bindings) -> Seq<LineView> {
    seq![
        header("prefix:  "@ + bindings.prefix_label@),
        blank_line(),
        header("direct (no prefix):"@),
    ] + entries(bindings.on_direct.bindings@) + seq![blank_line()]
}

/// The commands after the prefix key.
pub open spec fn prefix_section(bindings: Bindings) -> Seq<LineView> {
    seq![header("in prefix mode:"@)] + entries(bindings.on_prefix.bindings@) + seq![
        entry("1-9"@, "focus agent by one-indexed position"@),
        blank_line(),
    ]
}

/// The keys of the agent switcher.
pub open spec fn popup_section(bindings: Bindings) -> Seq<LineView> {
    seq![header("in agent switcher popup:"@)] + entries(bindings.on_popup.bindings@) + seq![
        blank_line(),
    ]
}

/// The keys of the spawn dialog.
pub open spec fn modal_section(bindings: Bindings) -> Seq<LineView> {
    seq![header("in spawn minibuffer:"@)] + modal_entries(bindings.on_modal@) + seq![blank_line()]
}

/// What moves through the scrollback.
pub open spec fn scroll_section(bindings: Bindings) -> Seq<LineView> {
    seq![
        header("in scroll mode:"@),
        entry("wheel"@, "wheel up enters scroll mode; wheel down exits at the bottom"@),
    ] + entries(bindings.on_scroll.bindings@) + seq![
        entry(
            "type"@,
            "typing real text snaps to live and forwards (nav chords preserve scroll)"@,
        ),
        blank_line(),
    ]
}

/// What the mouse does, and how to leave.
pub open spec fn mouse_section() -> Seq<LineView> {
    seq![
        header("mouse:"@),
        entry("click"@, "click a tab to focus it (no prefix needed)"@),
        entry("drag tab"@, "drag a tab onto another to reorder (browser-tab semantics)"@),
        entry("drag pane"@, "select text in the agent pane; release copies via OSC 52"@),
        entry("alt+drag"@, "fallback to terminal-native selection (works without OSC 52)"@),
        blank_line(),
        text_line("press any key to close"@, Style::plain()),
    ]
}

/// The text of the help screen.
pub open spec fn help_lines(bindings: Bindings) -> Seq<LineView> {
    direct_section(bindings) + prefix_section(bindings) + popup_section(bindings) + modal_section(
        bindings,
    ) + scroll_section(bindings) + mouse_section()
}

/// The help screen: a bordered text in the middle of `area`, over everything.
pub open spec fn help_paint(area: Rect, bindings: Bindings) -> Seq<PaintView> {
    let popup = centered(HELP_WIDTH, HELP_HEIGHT, area);
    seq![
        PaintView::Clear { area: popup },
        PaintView::Border { area: popup, title: " codemux help "@ },
        plain_text(inside_border(popup), help_lines(bindings)),
    ]
}

fn add_line(lines: &mut Vec<TextLine>, line: TextLine)
    ensures
        line_views(final(lines)@) == line_views(old(lines)@).push(line@),
{
    lines.push(line);
    assert(line_views(lines@) =~= line_views(old(lines)@).push(line@));
}

fn add_header(lines: &mut Vec<TextLine>, text: String)
    ensures
        line_views(final(lines)@) == line_views(old(lines)@).push(header(text@)),
{
    let mut style = Style::none();
    style.bold = true;
    add_line(lines, TextLine::styled(text, style));
}

fn add_blank(lines: &mut Vec<TextLine>)
    ensures
        line_views(final(lines)@) == line_views(old(lines)@).push(blank_line()),
{
    add_line(lines, TextLine::raw("".to_owned()));
}

/// The line of one binding.
pub fn binding_line(chord: &str, description: &str) -> (r: TextLine)
    ensures
        r@ == entry(chord@, description@),
{
    let padded = pad_right(chord, CHORD_COLUMN);
    let mut text = "  ".to_owned();
    text.append(padded.as_str());
    text.append("  ");
    text.append(description);
    TextLine::raw(text)
}

fn add_entry(lines: &mut Vec<TextLine>, chord: &str, description: &str)
    ensures
        line_views(final(lines)@) == line_views(old(lines)@).push(entry(chord@, description@)),
{
    add_line(lines, binding_line(chord, description));
}

fn add_entries<A>(lines: &mut Vec<TextLine>, bindings: &Vec<Binding<A>>)
    ensures
        line_views(final(lines)@) == line_views(old(lines)@) + entries(bindings@),
{
    let ghost before = line_views(lines@);
    let ghost wanted = entries(bindings@);
    assert(before + wanted.take(0) =~= before);
    for i in 0..bindings.len()
        invariant
            wanted == entries(bindings@),
            line_views(lines@) == before + wanted.take(i as int),
    {
        add_entry(lines, bindings[i].label.as_str(), bindings[i].description.as_str());
        assert(line_views(lines@) =~= before + wanted.take(i + 1));
    }
    assert(wanted.take(wanted.len() as int) =~= wanted);
}

fn add_modal_entries(lines: &mut Vec<TextLine>, chords: &Vec<ModalChord>)
    ensures
        line_views(final(lines)@) == line_views(old(lines)@) + modal_entries(chords@),
{
    let ghost before = line_views(lines@);
    let ghost wanted = modal_entries(chords@);
    assert(before + wanted.take(0) =~= before);
    for i in 0..chords.len()
        invariant
            wanted == modal_entries(chords@),
            line_views(lines@) == before + wanted.take(i as int),
    {
        add_entry(lines, chords[i].label.as_str(), chords[i].description.as_str());
        assert(line_views(lines@) =~= before + wanted.take(i + 1));
    }
    assert(wanted.take(wanted.len() as int) =~= wanted);
}

fn add_direct_section(lines: &mut Vec<TextLine>, bindings: &Bindings)
    ensures
        line_views(final(lines)@) == line_views(old(lines)@) + direct_section(*bindings),
{
    let mut prefix = "prefix:  ".to_owned();
    prefix.append(bindings.prefix_label.as_str());
    add_header(lines, prefix);
    add_blank(lines);
    add_header(lines, "direct (no prefix):".to_owned());
    add_entries(lines, &bindings.on_direct.bindings);
    add_blank(lines);
    assert(line_views(lines@) =~= line_views(old(lines)@) + direct_section(*bindings));
}

fn add_prefix_section(lines: &mut Vec<TextLine>, bindings: &Bindings)
    ensures
        line_views(final(lines)@) == line_views(old(lines)@) + prefix_section(*bindings),
{
    add_header(lines, "in prefix mode:".to_owned());
    add_entries(lines, &bindings.on_prefix.bindings);
    add_entry(lines, "1-9", "focus agent by one-indexed position");
    add_blank(lines);
    assert(line_views(lines@) =~= line_views(old(lines)@) + prefix_section(*bindings));
}

fn add_popup_section(lines: &mut Vec<TextLine>, bindings: &Bindings)
    ensures
        line_views(final(lines)@) == line_views(old(lines)@) + popup_section(*bindings),
{
    add_header(lines, "in agent switcher popup:".to_owned());
    add_entries(lines, &bindings.on_popup.bindings);
    add_blank(lines);
    assert(line_views(lines@) =~= line_views(old(lines)@) + popup_section(*bindings));
}

fn add_modal_section(lines: &mut Vec<TextLine>, bindings: &Bindings)
    ensures
        line_views(final(lines)@) == line_views(old(lines)@) + modal_section(*bindings),
{
    add_header(lines, "in spawn minibuffer:".to_owned());
    add_modal_entries(lines, &bindings.on_modal);
    add_blank(lines);
    assert(line_views(lines@) =~= line_views(old(lines)@) + modal_section(*bindings));
}

fn add_scroll_section(lines: &mut Vec<TextLine>, bindings: &Bindings)
    ensures
        line_views(final(lines)@) == line_views(old(lines)@) + scroll_section(*bindings),
{
    add_header(lines, "in scroll mode:".to_owned());
    add_entry(lines, "wheel", "wheel up enters scroll mode; wheel down exits at the bottom");
    add_entries(lines, &bindings.on_scroll.bindings);
    add_entry(
        lines,
        "type",
        "typing real text snaps to live and forwards (nav chords preserve scroll)",
    );
    add_blank(lines);
    assert(line_views(lines@) =~= line_views(old(lines)@) + scroll_section(*bindings));
}

fn add_mouse_section(lines: &mut Vec<TextLine>)
    ensures
        line_views(final(lines)@) == line_views(old(lines)@) + mouse_section(),
{
    add_header(lines, "mouse:".to_owned());
    add_entry(lines, "click", "click a tab to focus it (no prefix needed)");
    add_entry(lines, "drag tab", "drag a tab onto another to reorder (browser-tab semantics)");
    add_entry(lines, "drag pane", "select text in the agent pane; release copies via OSC 52");
    add_entry(lines, "alt+drag", "fallback to terminal-native selection (works without OSC 52)");
    add_blank(lines);
    add_line(lines, TextLine::raw("press any key to close".to_owned()));
    assert(line_views(lines@) =~= line_views(old(lines)@) + mouse_section());
}

/// Draws the help screen.
pub fn render_help(out: &mut Vec<Paint>, area: Rect, bindings: &Bindings)
    requires
        area.fits(),
    ensures
        paint_views(final(out)@) == paint_views(old(out)@) + help_paint(area, *bindings),
{
    let popup = centered_rect_with_size(HELP_WIDTH, HELP_HEIGHT, area);
    proof {
        crate::geometry::centered_rect_stays_inside(HELP_WIDTH, HELP_HEIGHT, area);
    }
    paint(out, Paint::Clear { area: popup });
    paint(out, Paint::Border { area: popup, title: " codemux help ".to_owned() });
    let inner = block_inner(popup);
    let mut lines: Vec<TextLine> = Vec::new();
    assert(line_views(lines@) + direct_section(*bindings) =~= direct_section(*bindings));
    add_direct_section(&mut lines, bindings);
    add_prefix_section(&mut lines, bindings);
    add_popup_section(&mut lines, bindings);
    add_modal_section(&mut lines, bindings);
    add_scroll_section(&mut lines, bindings);
    add_mouse_section(&mut lines);
    paint(
        out,
        Paint::Text { area: inner, lines, style: Style::none(), align: Align::Left, border: None },
    );
    assert(paint_views(out@) =~= paint_views(old(out)@) + help_paint(area, *bindings));
}

/// A line of one of several sections is a line of them together.
proof fn a_section_is_shown(before: Seq<LineView>, section: Seq<LineView>, after: Seq<LineView>, i: int)
    requires
        0 <= i < section.len(),
    ensures
        (before + section + after).contains(section[i]),
{
    assert((before + section + after)[before.len() + i] == section[i]);
}

/// Every binding of every scope is listed: the prefix key, the chords that need
/// none, the commands after it, and the keys of the switcher, of the spawn dialog
/// and of scrolling back.
pub proof fn help_lists_every_binding(bindings: Bindings)
    ensures
        help_lines(bindings).contains(header("prefix:  "@ + bindings.prefix_label@)),
        forall|b: Binding<DirectAction>| #[trigger]
            bindings.on_direct.bindings@.contains(b) ==> help_lines(bindings).contains(
                entry(b.label@, b.description@),
            ),
        forall|b: Binding<PrefixAction>| #[trigger]
            bindings.on_prefix.bindings@.contains(b) ==> help_lines(bindings).contains(
                entry(b.label@, b.description@),
            ),
        forall|b: Binding<PopupAction>| #[trigger]
            bindings.on_popup.bindings@.contains(b) ==> help_lines(bindings).contains(
                entry(b.label@, b.description@),
            ),
        forall|c: ModalChord| #[trigger]
            bindings.on_modal@.contains(c) ==> help_lines(bindings).contains(
                entry(c.label@, c.description@),
            ),
        forall|b: Binding<ScrollAction>| #[trigger]
            bindings.on_scroll.bindings@.contains(b) ==> help_lines(bindings).contains(
                entry(b.label@, b.description@),
            ),
{
    let direct = direct_section(bindings);
    let prefix = prefix_section(bindings);
    let popup = popup_section(bindings);
    let modal = modal_section(bindings);
    let scroll = scroll_section(bindings);
    let rest = mouse_section();
    let all = help_lines(bindings);
    let none = Seq::<LineView>::empty();
    assert(all =~= none + direct + (prefix + popup + modal + scroll + rest));
    assert(all =~= direct + prefix + (popup + modal + scroll + rest));
    assert(all =~= (direct + prefix) + popup + (modal + scroll + rest));
    assert(all =~= (direct + prefix + popup) + modal + (scroll + rest));
    assert(all =~= (direct + prefix + popup + modal) + scroll + rest);
    a_section_is_shown(none, direct, prefix + popup + modal + scroll + rest, 0);
    assert forall|b: Binding<DirectAction>| #[trigger]
        bindings.on_direct.bindings@.contains(b) implies all.contains(
        entry(b.label@, b.description@),
    ) by {
        let i = bindings.on_direct.bindings@.index_of(b);
        assert(direct[3 + i] == entry(b.label@, b.description@));
        a_section_is_shown(none, direct, prefix + popup + modal + scroll + rest, 3 + i);
    }
    assert forall|b: Binding<PrefixAction>| #[trigger]
        bindings.on_prefix.bindings@.contains(b) implies all.contains(
        entry(b.label@, b.description@),
    ) by {
        let i = bindings.on_prefix.bindings@.index_of(b);
        assert(prefix[1 + i] == entry(b.label@, b.description@));
        a_section_is_shown(direct, prefix, popup + modal + scroll + rest, 1 + i);
    }
    assert forall|b: Binding<PopupAction>| #[trigger]
        bindings.on_popup.bindings@.contains(b) implies all.contains(
        entry(b.label@, b.description@),
    ) by {
        let i = bindings.on_popup.bindings@.index_of(b);
        assert(popup[1 + i] == entry(b.label@, b.description@));
        a_section_is_shown(direct + prefix, popup, modal + scroll + rest, 1 + i);
    }
    assert forall|c: ModalChord| #[trigger]
        bindings.on_modal@.contains(c) implies all.contains(entry(c.label@, c.description@)) by {
        let i = bindings.on_modal@.index_of(c);
        assert(modal[1 + i] == entry(c.label@, c.description@));
        a_section_is_shown(direct + prefix + popup, modal, scroll + rest, 1 + i);
    }
    assert forall|b: Binding<ScrollAction>| #[trigger]
        bindings.on_scroll.bindings@.contains(b) implies all.contains(
        entry(b.label@, b.description@),
    ) by {
        let i = bindings.on_scroll.bindings@.index_of(b);
        assert(scroll[2 + i] == entry(b.label@, b.description@));
        a_section_is_shown(direct + prefix + popup + modal, scroll, rest, 2 + i);
    }
}

/// Whether `lines` tell of the binding of `action`.
pub open spec fn tells_of<A>(lines: Seq<LineView>, bindings: Seq<Binding<A>>, action: A) -> bool {
    match binding_of(bindings, action) {
        Some(b) => b.action == action && lines.contains(entry(b.label@, b.description@)),
        None => false,
    }
}

/// Where every action has a binding, every action of every scope has its line on the
/// help screen, with the chord that is bound to it.
pub proof fn help_lists_every_action(bindings: Bindings)
    requires
        bindings.complete(),
    ensures
        forall|action: DirectAction| #[trigger]
            tells_of(help_lines(bindings), bindings.on_direct.bindings@, action),
        forall|action: PrefixAction| #[trigger]
            tells_of(help_lines(bindings), bindings.on_prefix.bindings@, action),
        forall|action: PopupAction| #[trigger]
            tells_of(help_lines(bindings), bindings.on_popup.bindings@, action),
        forall|action: ScrollAction| #[trigger]
            tells_of(help_lines(bindings), bindings.on_scroll.bindings@, action),
{
    help_lists_every_binding(bindings);
    assert forall|action: DirectAction| #[trigger]
        tells_of(help_lines(bindings), bindings.on_direct.bindings@, action) by {
        assert(bindings.on_direct.binds(action));
        what_is_found_is_there(bindings.on_direct.bindings@, action);
    }
    assert forall|action: PrefixAction| #[trigger]
        tells_of(help_lines(bindings), bindings.on_prefix.bindings@, action) by {
        assert(bindings.on_prefix.binds(action));
        what_is_found_is_there(bindings.on_prefix.bindings@, action);
    }
    assert forall|action: PopupAction| #[trigger]
        tells_of(help_lines(bindings), bindings.on_popup.bindings@, action) by {
        assert(bindings.on_popup.binds(action));
        what_is_found_is_there(bindings.on_popup.bindings@, action);
    }
    assert forall|action: ScrollAction| #[trigger]
        tells_of(help_lines(bindings), bindings.on_scroll.bindings@, action) by {
        assert(bindings.on_scroll.binds(action));
        what_is_found_is_there(bindings.on_scroll.bindings@, action);
    }
}

/// The line of a binding: the chord in a column of ten characters, or wider where it
/// is longer, and what it does. A headline is in bold.
pub proof fn a_binding_is_shown_with_its_chord(chord: Seq<char>, description: Seq<char>)
    ensures
        entry(chord, description).spans.len() == 1,
        entry(chord, description).style == Style::plain(),
        header(chord).spans.len() == 1 && header(chord).spans[0].content == chord,
        header(chord).style == (Style { bold: true, ..Style::plain() }),
        chord.len() >= 10 ==> entry(chord, description).spans[0].content == "  "@ + chord + "  "@
            + description,
        chord.len() < 10 ==> {
            let pad = Seq::new((10 - chord.len()) as nat, |i: int| ' ');
            entry(chord, description).spans[0].content == "  "@ + (chord + pad) + "  "@
                + description
        },
{
    if chord.len() >= 10 {
        assert(padded_right(chord, 10) =~= chord);
    } else {
        assert(padded_right(chord, 10) =~= chord + Seq::new(
            (10 - chord.len()) as nat,
            |i: int| ' ',
        ));
    }
}

/// The bindings of each scope are listed in their order, one line each, below the
/// headline of their scope.
pub proof fn bindings_are_listed_in_order(bindings: Bindings, i: int)
    ensures
        ({
            let list = bindings.on_direct.bindings@;
            let section = direct_section(bindings);
            &&& section.len() == list.len() + 4
            &&& section[0] == header("prefix:  "@ + bindings.prefix_label@)
            &&& 0 <= i < list.len() ==> section[i + 3] == entry(
                list[i].label@,
                list[i].description@,
            )
        }),
        ({
            let list = bindings.on_prefix.bindings@;
            let section = prefix_section(bindings);
            &&& section.len() == list.len() + 3
            &&& 0 <= i < list.len() ==> section[i + 1] == entry(
                list[i].label@,
                list[i].description@,
            )
        }),
        ({
            let list = bindings.on_popup.bindings@;
            let section = popup_section(bindings);
            &&& section.len() == list.len() + 2
            &&& 0 <= i < list.len() ==> section[i + 1] == entry(
                list[i].label@,
                list[i].description@,
            )
        }),
        ({
            let list = bindings.on_modal@;
            let section = modal_section(bindings);
            &&& section.len() == list.len() + 2
            &&& 0 <= i < list.len() ==> section[i + 1] == entry(
                list[i].label@,
                list[i].description@,
            )
        }),
        ({
            let list = bindings.on_scroll.bindings@;
            let section = scroll_section(bindings);
            &&& section.len() == list.len() + 4
            &&& 0 <= i < list.len() ==> section[i + 2] == entry(
                list[i].label@,
                list[i].description@,
            )
        }),
        help_lines(bindings).len() == bindings.on_direct.bindings@.len()
            + bindings.on_prefix.bindings@.len() + bindings.on_popup.bindings@.len()
            + bindings.on_modal@.len() + bindings.on_scroll.bindings@.len() + 22,
{
}

/// The help screen is drawn in the middle over whatever is there, with its text inside
/// its border.
pub proof fn help_is_drawn_in_the_middle(area: Rect, bindings: Bindings)
    requires
        area.fits(),
        area.width >= 64,
        area.height >= 50,
    ensures
        ({
            let drawn = help_paint(area, bindings);
            &&& drawn.len() == 3
            &&& drawn[0] is Clear && drawn[1] is Border && drawn[2] is Text
            &&& drawn[0]->Clear_area == drawn[1]->Border_area
            &&& drawn[1]->Border_area.width == 64 && drawn[1]->Border_area.height == 50
            &&& drawn[2]->Text_area.x == drawn[1]->Border_area.x + 1
            &&& drawn[2]->Text_area.y == drawn[1]->Border_area.y + 1
            &&& drawn[2]->Text_area.width == 62 && drawn[2]->Text_area.height == 48
            &&& drawn[2]->Text_lines == help_lines(bindings)
        }),
{
    crate::geometry::centered_rect_stays_inside(HELP_WIDTH, HELP_HEIGHT, area);
}

} // verus!

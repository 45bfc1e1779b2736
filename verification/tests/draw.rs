use brannon::draw::cursor::{self, CursorShape};
use brannon::draw::direction::Direction;
use brannon::draw::line::draw_char;
use brannon::draw::{clear, draw_binds, draw_box, draw_frame, draw_title};
use brannon::input::binds::Binds;
use brannon::input::key::Key;
use brannon::style::align::AlignX;
use brannon::style::color::{Color, ColorBG};
use brannon::style::line::Line;
use brannon::style::text::TextStyle;
use brannon::style::{reset, set_style, PrintableStyle};
use brannon::unit::{Point, TermSize, Unit};
use brannon::widget::attr::Attr;
use brannon::widget::{border, fill, outline};

const SIZE: TermSize = TermSize { cols: 80, rows: 24 };

#[test]
fn cursor_sequences() {
    assert_eq!(cursor::show(), "\x1b[?25h");
    assert_eq!(cursor::hide_cursor(), "\x1b[?25l");
    assert_eq!(cursor::home(), "\x1b[H");
    assert_eq!(cursor::up(), "\x1b[1A");
    assert_eq!(cursor::down(), "\x1b[1B");
    assert_eq!(cursor::right(), "\x1b[1C");
    assert_eq!(cursor::left(), "\x1b[1D");
    assert_eq!(cursor::go(Point::cor(3, 4), SIZE), "\x1b[4;3H");
    assert_eq!(cursor::go(Point::cor(0, 120), SIZE), "\x1b[120;0H");
    assert_eq!(cursor::go(Point::pct(50, 50), SIZE), "\x1b[12;40H");
    assert_eq!(
        cursor::go(Point { x: Unit::PctHPO(100, -1), y: Unit::PctVPO(0, 1) }, SIZE),
        "\x1b[1;79H"
    );
    assert_eq!(cursor::set_shape(CursorShape::Unset), "\x1b[0 q");
    assert_eq!(cursor::set_shape(CursorShape::BlinkBlock), "\x1b[1 q");
    assert_eq!(cursor::set_shape(CursorShape::SolidBlock), "\x1b[2 q");
    assert_eq!(cursor::set_shape(CursorShape::BlinkingUnderline), "\x1b[3 q");
    assert_eq!(cursor::set_shape(CursorShape::SolidUnderline), "\x1b[4 q");
    assert_eq!(cursor::set_shape(CursorShape::BlinkingBar), "\x1b[5 q");
    assert_eq!(cursor::set_shape(CursorShape::SolidBar), "\x1b[6 q");
    assert_eq!(clear(), "\x1b[2J");
}

#[test]
fn style_sequences() {
    assert_eq!(reset(), "\x1b[0m");
    assert_eq!(set_style(TextStyle::Bold), "\x1b[1m");
    assert_eq!(TextStyle::Dim.print(), "\x1b[2m");
    assert_eq!(TextStyle::Italic.print(), "\x1b[3m");
    assert_eq!(TextStyle::Underline.print(), "\x1b[4m");
    assert_eq!(TextStyle::Blinking.print(), "\x1b[5m");
    assert_eq!(TextStyle::Inverse.print(), "\x1b[7m");
    assert_eq!(TextStyle::Hidden.print(), "\x1b[8m");
    assert_eq!(TextStyle::Strikethrough.print(), "\x1b[9m");
    assert_eq!(TextStyle::NoBold.print(), "\x1b[22m");
    assert_eq!(TextStyle::NoDim.print(), "\x1b[22m");
    assert_eq!(TextStyle::NoItalic.print(), "\x1b[23m");
    assert_eq!(TextStyle::NoUnderline.print(), "\x1b[24m");
    assert_eq!(TextStyle::NoBlinking.print(), "\x1b[25m");
    assert_eq!(TextStyle::NoInverse.print(), "\x1b[27m");
    assert_eq!(TextStyle::NoHidden.print(), "\x1b[28m");
    assert_eq!(TextStyle::NoStrikethrough.print(), "\x1b[29m");
    assert_eq!(set_style(Color::Unset), "");
    assert_eq!(Color::Reset.print(), "\x1b[39m");
    assert_eq!(Color::Black.print(), "\x1b[30m");
    assert_eq!(Color::Red.print(), "\x1b[31m");
    assert_eq!(Color::Green.print(), "\x1b[32m");
    assert_eq!(Color::Yellow.print(), "\x1b[33m");
    assert_eq!(Color::Blue.print(), "\x1b[34m");
    assert_eq!(Color::Magenta.print(), "\x1b[35m");
    assert_eq!(Color::Cyan.print(), "\x1b[36m");
    assert_eq!(Color::White.print(), "\x1b[37m");
    assert_eq!(Color::ID(0).print(), "\x1b[38;5;0m");
    assert_eq!(Color::ID(245).print(), "\x1b[38;5;245m");
    assert_eq!(Color::RGB(1, 20, 255).print(), "\x1b[38;2;1;20;255m");
    assert_eq!(ColorBG::Unset.print(), "");
    assert_eq!(ColorBG::Reset.print(), "\x1b[49m");
    assert_eq!(ColorBG::Black.print(), "\x1b[40m");
    assert_eq!(ColorBG::Red.print(), "\x1b[41m");
    assert_eq!(ColorBG::Green.print(), "\x1b[42m");
    assert_eq!(ColorBG::Yellow.print(), "\x1b[43m");
    assert_eq!(ColorBG::Blue.print(), "\x1b[44m");
    assert_eq!(ColorBG::Magenta.print(), "\x1b[45m");
    assert_eq!(ColorBG::Cyan.print(), "\x1b[46m");
    assert_eq!(ColorBG::White.print(), "\x1b[47m");
    assert_eq!(ColorBG::ID(1000).print(), "\x1b[48;5;1000m");
    assert_eq!(ColorBG::RGB(0, 0, 0).print(), "\x1b[48;2;0;0;0m");
    assert_eq!(
        ColorBG::ID(usize::MAX).print(),
        format!("\x1b[48;5;{}m", usize::MAX)
    );
}

#[test]
fn colors_change_layer() {
    for (fg, bg) in [
        (Color::Unset, ColorBG::Unset),
        (Color::Reset, ColorBG::Reset),
        (Color::Black, ColorBG::Black),
        (Color::Red, ColorBG::Red),
        (Color::Green, ColorBG::Green),
        (Color::Yellow, ColorBG::Yellow),
        (Color::Blue, ColorBG::Blue),
        (Color::Magenta, ColorBG::Magenta),
        (Color::Cyan, ColorBG::Cyan),
        (Color::White, ColorBG::White),
        (Color::ID(7), ColorBG::ID(7)),
        (Color::RGB(1, 2, 3), ColorBG::RGB(1, 2, 3)),
    ] {
        assert_eq!(fg.to_bg(), bg);
        assert_eq!(bg.to_fg(), fg);
    }
}

#[test]
fn runs_of_a_character() {
    assert_eq!(
        draw_char('#', &Color::Blue, Direction::Right, 3),
        "\x1b[34m###\x1b[0m"
    );
    assert_eq!(
        draw_char('#', &Color::Unset, Direction::Up, 2),
        "#\x1b[1A\x1b[1D#\x1b[1A\x1b[1D\x1b[0m"
    );
    assert_eq!(
        draw_char('█', &Color::Red, Direction::Down, 1),
        "\x1b[31m█\x1b[1B\x1b[1D\x1b[0m"
    );
    assert_eq!(
        draw_char('x', &Color::Red, Direction::Left, 2),
        "\x1b[31mx\x1b[2Dx\x1b[2D\x1b[0m"
    );
    assert_eq!(draw_char('x', &Color::Red, Direction::Left, 0), "\x1b[31m\x1b[0m");
}

fn sized(w: usize, h: usize) -> Attr {
    let mut attr = Attr::new();
    attr.size(w, h);
    attr
}

#[test]
fn box_outline() {
    let attr = sized(4, 3);
    assert_eq!(
        draw_box(Point::cor(1, 1), &attr, Line::Light, SIZE),
        "\x1b[37m\x1b[1;1H┌──┐\x1b[1D\x1b[1B│\x1b[1B\x1b[1D┘\x1b[2D─\x1b[2D─\x1b[2D└\x1b[1D\x1b[1A│\x1b[1A\x1b[1D\x1b[0m"
    );
    let mut arc = sized(3, 2);
    arc.arc().fg(Color::Red).fill(ColorBG::Blue);
    assert_eq!(
        draw_box(Point::cor(5, 6), &arc, Line::Heavy, SIZE),
        "\x1b[31m\x1b[44m\x1b[6;5H╭━╮\x1b[1D\x1b[1B╯\x1b[2D━\x1b[2D╰\x1b[1D\x1b[1A\x1b[0m"
    );
    // A box without room between its corners
    assert_eq!(
        draw_box(Point::cor(1, 1), &sized(0, 1), Line::Double, SIZE),
        "\x1b[37m\x1b[1;1H╔╗\x1b[1D\x1b[1B╝\x1b[2D╚\x1b[1D\x1b[1A\x1b[0m"
    );
    let mut hidden = sized(4, 3);
    hidden.hide_border();
    assert_eq!(draw_box(Point::cor(1, 1), &hidden, Line::Light, SIZE), "");
}

#[test]
fn titles_on_the_border() {
    let mut attr = sized(20, 5);
    attr.title("Hi");
    assert_eq!(
        draw_title(Point::cor(3, 4), &attr, SIZE),
        "\x1b[1m\x1b[37m\x1b[4;4H┤ Hi ├\x1b[0m"
    );
    // 20 / 2 - (2 + 4) / 2 = 7
    attr.alignx(AlignX::Center);
    assert_eq!(
        draw_title(Point::cor(3, 4), &attr, SIZE),
        "\x1b[1m\x1b[37m\x1b[4;10H┤ Hi ├\x1b[0m"
    );
    // 20 - (2 + 5) = 13
    attr.alignx(AlignX::Right);
    assert_eq!(
        draw_title(Point::cor(3, 4), &attr, SIZE),
        "\x1b[1m\x1b[37m\x1b[4;16H┤ Hi ├\x1b[0m"
    );
    attr.hide_title();
    assert_eq!(draw_title(Point::cor(3, 4), &attr, SIZE), "");
    attr.show_title().hide_border();
    assert_eq!(draw_title(Point::cor(3, 4), &attr, SIZE), "");
    // A title that is longer than the box is wide starts at the edge.
    let mut narrow = sized(4, 5);
    narrow.title("A long title").alignx(AlignX::Right);
    assert_eq!(
        draw_title(Point::cor(3, 4), &narrow, SIZE),
        "\x1b[1m\x1b[37m\x1b[4;3H┤ A long title ├\x1b[0m"
    );
}

#[test]
fn binds_on_the_border() {
    let mut attr = sized(30, 5);
    attr.binds(Binds::new().bind(Key::Enter.into(), "Go"));
    // The hint is `<Enter> Go`, 10 bytes.
    assert_eq!(
        draw_binds(Point::cor(3, 4), &attr, SIZE),
        "\x1b[1m\x1b[37m\x1b[8;4H<Enter> Go\x1b[0m"
    );
    attr.binds_align(AlignX::Center);
    assert_eq!(
        draw_binds(Point::cor(3, 4), &attr, SIZE),
        "\x1b[1m\x1b[37m\x1b[8;13H<Enter> Go\x1b[0m"
    );
    attr.binds_align(AlignX::Right);
    assert_eq!(
        draw_binds(Point::cor(3, 4), &attr, SIZE),
        "\x1b[1m\x1b[37m\x1b[8;22H<Enter> Go\x1b[0m"
    );
    attr.hide_binds();
    assert_eq!(draw_binds(Point::cor(3, 4), &attr, SIZE), "");
}

#[test]
fn frame_round_the_screen() {
    let size = TermSize { cols: 5, rows: 3 };
    let mut attr = Attr::new();
    assert_eq!(
        draw_frame(&attr, size),
        "\x1b[37m\x1b[1;1H╔═══╗\x1b[1D\x1b[1B║\x1b[1B╝\x1b[2D═\x1b[2D═\x1b[2D═\x1b[2D╚\x1b[1D\x1b[1A║\x1b[1A\x1b[1D\x1b[0m"
    );
    attr.title("T").binds(Binds::new().bind(Key::q.into(), "Quit"));
    let size = TermSize { cols: 40, rows: 10 };
    let out = draw_frame(&attr, size);
    assert!(out.starts_with("\x1b[37m\x1b[1;1H╔"));
    // The title starts a cell in, the hint on the last row.
    assert!(out.ends_with("\x1b[1m\x1b[1;2H╣ T ╠\x1b[10;2H<q> Quit\x1b[0m"));
    attr.title_align(AlignX::Center).binds_align(AlignX::Right);
    let out = draw_frame(&attr, size);
    // 40 / 2 - (1 + 4) / 2 = 18 and 40 - (8 + 1) = 31
    assert!(out.ends_with("\x1b[1m\x1b[1;19H╣ T ╠\x1b[10;32H<q> Quit\x1b[0m"));
    attr.hide_border();
    assert_eq!(draw_frame(&attr, size), "");
}

#[test]
fn widget_background_and_border() {
    let mut attr = sized(3, 2);
    assert_eq!(fill(&attr, Point::cor(2, 5), SIZE), "");
    attr.should_fill = true;
    attr.fill = ColorBG::Green;
    assert_eq!(
        fill(&attr, Point::cor(2, 5), SIZE),
        "\x1b[42m\x1b[5;2H   \x1b[6;2H   "
    );
    attr.hide_border();
    assert_eq!(border(&attr, Point::cor(2, 5), SIZE), "\x1b[37m\x1b[1m");
    assert_eq!(
        outline(&attr, Point::cor(2, 5), SIZE),
        "\x1b[42m\x1b[5;2H   \x1b[6;2H   \x1b[37m\x1b[1m"
    );
    let mut boxed = sized(2, 2);
    boxed.selected = true;
    assert_eq!(
        border(&boxed, Point::cor(1, 1), SIZE),
        "\x1b[37m\x1b[37m\x1b[1;1H┏┓\x1b[1D\x1b[1B┛\x1b[2D┗\x1b[1D\x1b[1A\x1b[0m\x1b[1m"
    );
}

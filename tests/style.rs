use tui_style::{Color, Modifier, Style};

fn styles() -> Vec<Style> {
    vec![
        Style::default(),
        Style::default().fg(Color::Yellow),
        Style::default().bg(Color::Yellow),
        Style::default().add_modifier(Modifier::bold()),
        Style::default().remove_modifier(Modifier::bold()),
        Style::default().add_modifier(Modifier::italic()),
        Style::default().remove_modifier(Modifier::italic()),
        Style::default().add_modifier(Modifier::italic() | Modifier::bold()),
        Style::default().remove_modifier(Modifier::italic() | Modifier::bold()),
    ]
}

/// Paints the styles one after the other onto a single cell, as a buffer does, and returns
/// the cell's resolved style: its colors and the attributes that are on.
fn paint_cell(chain: &[Style]) -> Style {
    let mut fg = Color::Reset;
    let mut bg = Color::Reset;
    let mut modifier = Modifier::empty();
    for s in chain {
        if let Some(c) = s.fg {
            fg = c;
        }
        if let Some(c) = s.bg {
            bg = c;
        }
        modifier.insert(s.add_modifier);
        modifier.remove(s.sub_modifier);
    }
    Style {
        fg: Some(fg),
        bg: Some(bg),
        add_modifier: modifier,
        sub_modifier: Modifier::empty(),
    }
}

fn fold(chain: &[Style]) -> Style {
    let mut acc = Style::default();
    for s in chain {
        acc = acc.patch(*s);
    }
    acc
}

#[test]
fn combined_patch_gives_same_result_as_individual_patch() {
    let styles = styles();
    for &a in &styles {
        for &b in &styles {
            for &c in &styles {
                for &d in &styles {
                    let combined = a.patch(b.patch(c.patch(d)));

                    assert_eq!(
                        Style::default().patch(a).patch(b).patch(c).patch(d),
                        Style::default().patch(combined)
                    );
                }
            }
        }
    }
}

#[test]
fn patch_with_default_is_identity() {
    for s in styles().into_iter().chain([Style::reset(), Style::reset().fg(Color::Rgb(1, 2, 3))]) {
        assert_eq!(Style::default().patch(s), s);
        assert_eq!(s.patch(Style::default()), s);
    }
}

#[test]
fn mutators_keep_add_and_sub_disjoint() {
    let s = Style::default()
        .add_modifier(Modifier::bold() | Modifier::dim())
        .remove_modifier(Modifier::dim() | Modifier::hidden())
        .add_modifier(Modifier::hidden());
    assert_eq!(s.add_modifier, Modifier::bold() | Modifier::hidden());
    assert_eq!(s.sub_modifier, Modifier::dim());
    assert!(!s.add_modifier.intersects(s.sub_modifier));
    let r = Style::reset().add_modifier(Modifier::italic());
    assert!(r.add_modifier.intersection(r.sub_modifier).is_empty());
    assert_eq!(r.sub_modifier, Modifier::all() - Modifier::italic());
}

#[test]
fn patch_overrides_foreground() {
    let s = Style::default()
        .fg(Color::Black)
        .bg(Color::Green)
        .add_modifier(Modifier::italic() | Modifier::bold());
    let r = s.patch(Style::default().fg(Color::Red));
    assert_eq!(r.fg, Some(Color::Red));
    assert_eq!(r.bg, Some(Color::Green));
    assert_eq!(r.add_modifier, Modifier::italic() | Modifier::bold());
    assert_eq!(r.sub_modifier, Modifier::empty());
}

#[test]
fn chain_folds_left_to_right() {
    let chain = [
        Style::default().fg(Color::Blue).add_modifier(Modifier::bold() | Modifier::italic()),
        Style::default().bg(Color::Red),
        Style::default().fg(Color::Yellow).remove_modifier(Modifier::italic()),
    ];
    assert_eq!(
        paint_cell(&chain),
        Style {
            fg: Some(Color::Yellow),
            bg: Some(Color::Red),
            add_modifier: Modifier::bold(),
            sub_modifier: Modifier::empty(),
        }
    );
    let folded = fold(&chain);
    assert_eq!(folded.fg, Some(Color::Yellow));
    assert_eq!(folded.bg, Some(Color::Red));
    assert_eq!(folded.add_modifier, Modifier::bold());
    assert_eq!(folded.sub_modifier, Modifier::italic());
}

#[test]
fn reset_absorbs_earlier_styles() {
    let chain = [
        Style::default().fg(Color::Blue).add_modifier(Modifier::bold() | Modifier::italic()),
        Style::reset().fg(Color::Yellow),
    ];
    assert_eq!(
        paint_cell(&chain),
        Style {
            fg: Some(Color::Yellow),
            bg: Some(Color::Reset),
            add_modifier: Modifier::empty(),
            sub_modifier: Modifier::empty(),
        }
    );
    let folded = fold(&chain);
    assert_eq!(folded.fg, Some(Color::Yellow));
    assert_eq!(folded.bg, Some(Color::Reset));
    assert_eq!(folded.add_modifier, Modifier::empty());
    assert_eq!(folded.sub_modifier, Modifier::all());
}

#[test]
fn reset_has_all_attributes_off() {
    let r = Style::reset();
    assert_eq!(r.fg, Some(Color::Reset));
    assert_eq!(r.bg, Some(Color::Reset));
    assert!(r.add_modifier.is_empty());
    assert!(r.sub_modifier.is_all());
}

#[test]
fn later_add_and_remove_override_earlier() {
    let style = Style::default().add_modifier(Modifier::bold());
    let patched = style.patch(Style::default().add_modifier(Modifier::italic()));
    assert_eq!(patched.add_modifier, Modifier::bold() | Modifier::italic());
    assert_eq!(patched.sub_modifier, Modifier::empty());

    let style = Style::default().add_modifier(Modifier::bold() | Modifier::italic());
    let patched = style.patch(Style::default().remove_modifier(Modifier::italic()));
    assert_eq!(patched.add_modifier, Modifier::bold());
    assert_eq!(patched.sub_modifier, Modifier::italic());

    let back_on = patched.patch(Style::default().add_modifier(Modifier::italic()));
    assert_eq!(back_on.add_modifier, Modifier::bold() | Modifier::italic());
    assert_eq!(back_on.sub_modifier, Modifier::empty());
}

#[test]
fn colors_replace_and_absent_colors_keep() {
    let style = Style::default().fg(Color::Blue).bg(Color::Indexed(7));
    assert_eq!(style.patch(Style::default().fg(Color::Red)), Style::default().fg(Color::Red).bg(Color::Indexed(7)));
    assert_eq!(style.patch(Style::default().bg(Color::Rgb(0, 0, 255))).bg, Some(Color::Rgb(0, 0, 255)));
    assert_eq!(style.patch(Style::default().add_modifier(Modifier::dim())).fg, Some(Color::Blue));
}

#[test]
fn union_laws() {
    let a = Modifier::bold() | Modifier::hidden();
    let b = Modifier::italic() | Modifier::hidden();
    let c = Modifier::crossed_out();
    assert_eq!(a.union(b), b.union(a));
    assert_eq!(a.union(b).union(c), a.union(b.union(c)));
    assert_eq!(a.union(b).bits(), 0x085);
    assert_eq!(a | b, a.union(b));
}

#[test]
fn difference_and_complement() {
    let a = Modifier::bold() | Modifier::dim() | Modifier::reversed();
    assert_eq!(a.difference(a), Modifier::empty());
    assert_eq!(a - Modifier::dim(), Modifier::bold() | Modifier::reversed());
    assert_eq!(a.complement().bits(), 0x1ff & !0x043);
    assert_eq!(a.complement().complement(), a);
    assert_eq!(!a, a.complement());
    assert_eq!(Modifier::empty().complement(), Modifier::all());
    assert_eq!(Modifier::from_bits_unchecked(0xfe00).complement(), Modifier::all());
}

#[test]
fn intersection_and_symmetric_difference() {
    let a = Modifier::bold() | Modifier::dim();
    let b = Modifier::dim() | Modifier::underlined();
    assert_eq!(a.intersection(b), Modifier::dim());
    assert_eq!(a & b, Modifier::dim());
    assert_eq!(a.symmetric_difference(b), Modifier::bold() | Modifier::underlined());
    assert_eq!(a ^ b, Modifier::bold() | Modifier::underlined());
    assert!(a.intersects(b));
    assert!(!a.intersects(Modifier::slow_blink() | Modifier::rapid_blink()));
}

#[test]
fn contains_never_holds_for_empty() {
    assert!(!Modifier::empty().contains(Modifier::empty()));
    assert!(!Modifier::all().contains(Modifier::empty()));
    assert!(Modifier::all().contains(Modifier::bold()));
    assert!((Modifier::bold() | Modifier::dim()).contains(Modifier::dim()));
    assert!(!Modifier::bold().contains(Modifier::bold() | Modifier::dim()));
}

#[test]
fn insert_and_remove_in_place() {
    let mut m = Modifier::empty();
    m.insert(Modifier::bold() | Modifier::italic());
    assert_eq!(m, Modifier::bold() | Modifier::italic());
    m.remove(Modifier::bold());
    assert_eq!(m, Modifier::italic());
    m.remove(Modifier::italic());
    assert!(m.is_empty());
}

#[test]
fn from_bits_round_trip_and_rejection() {
    let m = Modifier::bold() | Modifier::crossed_out();
    assert_eq!(Modifier::from_bits(m.bits()), Some(m));
    assert_eq!(Modifier::from_bits(0x1ff), Some(Modifier::all()));
    assert_eq!(Modifier::from_bits(0x200), None);
    assert_eq!(Modifier::from_bits(0x8001), None);
    for raw in [0u16, 0x001, 0x1ff, 0x200, 0x3ff, 0xffff, 0x8101] {
        assert_eq!(Some(Modifier::from_bits_truncate(raw)), Modifier::from_bits(raw & Modifier::all().bits()));
    }
    assert_eq!(Modifier::from_bits_truncate(0xffff), Modifier::all());
    assert_eq!(Modifier::from_bits_unchecked(0x8001).bits(), 0x8001);
}

#[test]
fn is_empty_and_is_all() {
    assert!(Modifier::empty().is_empty());
    assert!(!Modifier::bold().is_empty());
    assert!(Modifier::all().is_all());
    assert!(Modifier::from_bits_unchecked(0xffff).is_all());
    assert!(!(Modifier::all() - Modifier::hidden()).is_all());
}

#[test]
fn named_flag_bits() {
    let flags = [
        Modifier::bold(),
        Modifier::dim(),
        Modifier::italic(),
        Modifier::underlined(),
        Modifier::slow_blink(),
        Modifier::rapid_blink(),
        Modifier::reversed(),
        Modifier::hidden(),
        Modifier::crossed_out(),
    ];
    let mut all = Modifier::empty();
    for (i, f) in flags.iter().enumerate() {
        assert_eq!(f.bits(), 1u16 << i);
        all = all | *f;
    }
    assert_eq!(all, Modifier::all());
}

#[test]
fn debug_string_lists_flags() {
    assert_eq!(Modifier::empty().debug_string(), "(empty)");
    assert_eq!(Modifier::bold().debug_string(), "BOLD");
    assert_eq!((Modifier::italic() | Modifier::bold()).debug_string(), "BOLD | ITALIC");
    assert_eq!(
        Modifier::all().debug_string(),
        "BOLD | DIM | ITALIC | UNDERLINED | SLOW_BLINK | RAPID_BLINK | REVERSED | HIDDEN | CROSSED_OUT"
    );
}

#[test]
fn debug_string_shows_unknown_bits_in_hex() {
    assert_eq!(Modifier::from_bits_unchecked(0x201).debug_string(), "BOLD | 0x200");
    assert_eq!(Modifier::from_bits_unchecked(0xfe00).debug_string(), "0xfe00");
    assert_eq!(Modifier::from_bits_unchecked(0xa404).debug_string(), "ITALIC | 0xa400");
}

#[test]
fn set_identities() {
    let a = Modifier::bold() | Modifier::underlined();
    let b = Modifier::underlined() | Modifier::hidden();
    assert_eq!(a.union(Modifier::empty()), a);
    assert_eq!(a.symmetric_difference(b), a.difference(b).union(b.difference(a)));
    assert_eq!(a.complement(), Modifier::all().difference(a));
    let mut c = a;
    c.insert(b);
    assert_eq!(c, a.union(b));
    c.remove(b);
    assert_eq!(c, a.union(b).difference(b));
}

#[test]
fn modifier_mutators_match_patching_one_field_style() {
    let s = Style::default().fg(Color::Cyan).add_modifier(Modifier::dim()).remove_modifier(Modifier::bold());
    let m = Modifier::bold() | Modifier::italic();
    assert_eq!(s.add_modifier(m), s.patch(Style::default().add_modifier(m)));
    assert_eq!(s.remove_modifier(m), s.patch(Style::default().remove_modifier(m)));
    assert_eq!(s.remove_modifier(m).add_modifier(m), s.add_modifier(m));
    assert_eq!(s.add_modifier(m).remove_modifier(m), s.remove_modifier(m));
}

#[test]
fn reset_absorbs_any_valid_style() {
    for s in styles() {
        assert_eq!(s.patch(Style::reset()), Style::reset());
    }
    assert_eq!(
        Style::default(),
        Style { fg: None, bg: None, add_modifier: Modifier::empty(), sub_modifier: Modifier::empty() }
    );
}

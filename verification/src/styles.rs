use vstd::prelude::*;

verus! {

/// A text style that the core defines; `C` is the color type.
/// A field that is `None` leaves that property of the text as it is.
#[derive(Debug)]
pub struct Style<C> {
    pub fg_color: Option<C>,
    pub bg_color: Option<C>,
    pub weight: Option<u32>,
    pub italic: Option<bool>,
    pub underline: Option<bool>,
}

impl<C> Style<C> {
    /// The style that sets nothing.
    pub open spec fn spec_unstyled() -> Style<C> {
        Style { fg_color: None, bg_color: None, weight: None, italic: None, underline: None }
    }

    /// The style that sets nothing.
    pub fn unstyled() -> (s: Style<C>)
        ensures
            s == Style::<C>::spec_unstyled(),
    {
        Style { fg_color: None, bg_color: None, weight: None, italic: None, underline: None }
    }

    /// The style of selected text: the theme's selection colors and nothing else.
    pub fn selection(foreground: Option<C>, background: Option<C>) -> (s: Style<C>)
        ensures
            s == (Style {
                fg_color: foreground,
                bg_color: background,
                weight: None,
                italic: None,
                underline: None,
            }),
    {
        Style { fg_color: foreground, bg_color: background, weight: None, italic: None, underline: None }
    }
}

/// The style table after style `id` is set to `s`: the table grows with
/// unstyled entries up to `id` where it is shorter.
pub open spec fn styles_after_set<C>(old: Seq<Style<C>>, id: nat, s: Style<C>) -> Seq<Style<C>> {
    if id < old.len() {
        old.update(id as int, s)
    } else {
        old + Seq::new((id - old.len()) as nat, |i: int| Style::<C>::spec_unstyled()) + seq![s]
    }
}

/// Setting style `id` makes it `s`, keeps every other style that was
/// defined, fills the gap before `id` with unstyled entries, and leaves the
/// table `max(len, id + 1)` long.
pub proof fn lemma_set_style<C>(old: Seq<Style<C>>, id: nat, s: Style<C>)
    ensures
        styles_after_set(old, id, s)[id as int] == s,
        styles_after_set(old, id, s).len() == if id < old.len() { old.len() } else { id + 1 },
        forall|j: int| 0 <= j < old.len() && j != id ==> #[trigger] styles_after_set(old, id, s)[j] == old[j],
        forall|j: int|
            old.len() <= j < id ==> #[trigger] styles_after_set(old, id, s)[j] == Style::<C>::spec_unstyled(),
{
}

/// Sets style `id` of a style table, growing it as needed.
pub fn set_style_in<C>(styles: &mut Vec<Style<C>>, id: usize, style: Style<C>)
    ensures
        final(styles)@ == styles_after_set(old(styles)@, id as nat, style),
{
    let ghost start = styles@;
    while styles.len() < id
        invariant
            start.len() <= styles@.len(),
            styles@.len() <= id || styles@ == start,
            styles@ == start + Seq::new((styles@.len() - start.len()) as nat, |i: int| Style::<C>::spec_unstyled()),
        decreases id - styles@.len(),
    {
        styles.push(Style::unstyled());
        assert(styles@ =~= start + Seq::new((styles@.len() - start.len()) as nat, |i: int| Style::<C>::spec_unstyled()));
    }
    if styles.len() == id {
        styles.push(style);
        assert(styles@ =~= styles_after_set(start, id as nat, style));
    } else {
        styles.set(id, style);
        assert(styles@ =~= styles_after_set(start, id as nat, style));
    }
}

/// A run of text in one style, as the line cache gives it: the run starts
/// `start` bytes after the end of the previous run and is `len` bytes long.
#[derive(Debug, Clone, Copy)]
pub struct StyleSpan {
    pub start: i64,
    pub len: u64,
    pub id: usize,
}

/// One text attribute of a laid-out line.
#[derive(Debug)]
pub enum AttrKind<C> {
    Foreground(C),
    Background(C),
    Weight(u32),
    /// Italic when true, upright when false.
    Italic(bool),
    /// Single underline when true, none when false.
    Underline(bool),
}

/// A text attribute over the byte range `start_index..end_index` of a line.
#[derive(Debug)]
pub struct TextAttr<C> {
    pub kind: AttrKind<C>,
    pub start_index: u32,
    pub end_index: u32,
}

pub open spec fn in_i64(x: int) -> bool {
    i64::MIN <= x <= i64::MAX
}

/// The byte offset at which the runs before run `k` end.
pub open spec fn span_offset(spans: Seq<StyleSpan>, k: nat) -> int
    decreases k,
{
    if k == 0 || k > spans.len() {
        0
    } else {
        let p = spans[k - 1];
        span_offset(spans, (k - 1) as nat) + p.start + (p.len as i64)
    }
}

/// The offsets of all runs can be computed in `i64` without overflow.
pub open spec fn spans_fit(spans: Seq<StyleSpan>) -> bool {
    forall|k: int|
        0 <= k < spans.len() ==> {
            &&& in_i64(span_offset(spans, k as nat) + #[trigger] spans[k].start)
            &&& in_i64(span_offset(spans, k as nat) + spans[k].start + (spans[k].len as i64))
        }
}

/// The attributes that a style gives to the byte range `start..end`, in the
/// order foreground, background, weight, style, underline.
pub open spec fn style_attrs<C>(style: Style<C>, start: u32, end: u32) -> Seq<TextAttr<C>> {
    let fg = match style.fg_color {
        Some(c) => seq![TextAttr { kind: AttrKind::Foreground(c), start_index: start, end_index: end }],
        None => Seq::empty(),
    };
    let bg = match style.bg_color {
        Some(c) => seq![TextAttr { kind: AttrKind::Background(c), start_index: start, end_index: end }],
        None => Seq::empty(),
    };
    let weight = match style.weight {
        Some(w) => seq![TextAttr { kind: AttrKind::Weight(w), start_index: start, end_index: end }],
        None => Seq::empty(),
    };
    let italic = match style.italic {
        Some(b) => seq![TextAttr { kind: AttrKind::Italic(b), start_index: start, end_index: end }],
        None => Seq::empty(),
    };
    let underline = match style.underline {
        Some(b) => seq![TextAttr { kind: AttrKind::Underline(b), start_index: start, end_index: end }],
        None => Seq::empty(),
    };
    fg + bg + weight + italic + underline
}

/// The attributes of run `k`: those of its style, over its byte range (an
/// unknown style gives none).
pub open spec fn span_attrs<C>(spans: Seq<StyleSpan>, styles: Seq<Style<C>>, k: nat) -> Seq<TextAttr<C>> {
    let p = spans[k as int];
    let off = span_offset(spans, k);
    if p.id < styles.len() {
        style_attrs(styles[p.id as int], (off + p.start) as u32, (off + p.start + (p.len as i64)) as u32)
    } else {
        Seq::empty()
    }
}

/// The attributes of the first `k` runs, run by run.
pub open spec fn line_attrs_upto<C>(spans: Seq<StyleSpan>, styles: Seq<Style<C>>, k: nat) -> Seq<TextAttr<C>>
    decreases k,
{
    if k == 0 {
        Seq::empty()
    } else {
        line_attrs_upto(spans, styles, (k - 1) as nat) + span_attrs(spans, styles, (k - 1) as nat)
    }
}

/// The byte range of run `k`: from its start to its end, as byte indices.
pub open spec fn run_start(spans: Seq<StyleSpan>, k: nat) -> u32 {
    (span_offset(spans, k) + spans[k as int].start) as u32
}

pub open spec fn run_end(spans: Seq<StyleSpan>, k: nat) -> u32 {
    (span_offset(spans, k) + spans[k as int].start + (spans[k as int].len as i64)) as u32
}

/// Whether the attribute `a` carries a value that `style` sets, of the same
/// property.
pub open spec fn carries_style_value<C>(a: TextAttr<C>, style: Style<C>) -> bool {
    match a.kind {
        AttrKind::Foreground(c) => style.fg_color == Some(c),
        AttrKind::Background(c) => style.bg_color == Some(c),
        AttrKind::Weight(w) => style.weight == Some(w),
        AttrKind::Italic(b) => style.italic == Some(b),
        AttrKind::Underline(b) => style.underline == Some(b),
    }
}

/// The attributes of a style: each property that the style sets appears,
/// with the style's own value, over the given range; and every attribute is
/// over that range and carries a value that the style sets.
pub proof fn lemma_style_attrs<C>(style: Style<C>, start: u32, end: u32)
    ensures
        forall|i: int| 0 <= i < style_attrs(style, start, end).len() ==> {
            &&& (#[trigger] style_attrs(style, start, end)[i]).start_index == start
            &&& style_attrs(style, start, end)[i].end_index == end
            &&& carries_style_value(style_attrs(style, start, end)[i], style)
        },
        style.fg_color is Some ==> style_attrs(style, start, end).contains(
            TextAttr { kind: AttrKind::Foreground(style.fg_color.unwrap()), start_index: start, end_index: end },
        ),
        style.bg_color is Some ==> style_attrs(style, start, end).contains(
            TextAttr { kind: AttrKind::Background(style.bg_color.unwrap()), start_index: start, end_index: end },
        ),
        style.weight is Some ==> style_attrs(style, start, end).contains(
            TextAttr { kind: AttrKind::Weight(style.weight.unwrap()), start_index: start, end_index: end },
        ),
        style.italic is Some ==> style_attrs(style, start, end).contains(
            TextAttr { kind: AttrKind::Italic(style.italic.unwrap()), start_index: start, end_index: end },
        ),
        style.underline is Some ==> style_attrs(style, start, end).contains(
            TextAttr { kind: AttrKind::Underline(style.underline.unwrap()), start_index: start, end_index: end },
        ),
{
    let r = style_attrs(style, start, end);
    let fg: Seq<TextAttr<C>> = match style.fg_color {
        Some(c) => seq![TextAttr { kind: AttrKind::Foreground(c), start_index: start, end_index: end }],
        None => Seq::empty(),
    };
    let bg: Seq<TextAttr<C>> = match style.bg_color {
        Some(c) => seq![TextAttr { kind: AttrKind::Background(c), start_index: start, end_index: end }],
        None => Seq::empty(),
    };
    let weight: Seq<TextAttr<C>> = match style.weight {
        Some(w) => seq![TextAttr { kind: AttrKind::Weight(w), start_index: start, end_index: end }],
        None => Seq::empty(),
    };
    let italic: Seq<TextAttr<C>> = match style.italic {
        Some(b) => seq![TextAttr { kind: AttrKind::Italic(b), start_index: start, end_index: end }],
        None => Seq::empty(),
    };
    let underline: Seq<TextAttr<C>> = match style.underline {
        Some(b) => seq![TextAttr { kind: AttrKind::Underline(b), start_index: start, end_index: end }],
        None => Seq::empty(),
    };
    assert(r == fg + bg + weight + italic + underline);
    let p1 = fg.len();
    let p2 = p1 + bg.len();
    let p3 = p2 + weight.len();
    let p4 = p3 + italic.len();
    assert forall|i: int| 0 <= i < r.len() implies {
        &&& (#[trigger] r[i]).start_index == start
        &&& r[i].end_index == end
        &&& carries_style_value(r[i], style)
    } by {
        if i < p1 {
            assert(r[i] == fg[i]);
        } else if i < p2 {
            assert(r[i] == bg[i - p1]);
        } else if i < p3 {
            assert(r[i] == weight[i - p2]);
        } else if i < p4 {
            assert(r[i] == italic[i - p3]);
        } else {
            assert(r[i] == underline[i - p4]);
        }
    }
    if style.fg_color is Some {
        assert(r[0] == fg[0]);
    }
    if style.bg_color is Some {
        assert(r[p1 as int] == bg[0]);
    }
    if style.weight is Some {
        assert(r[p2 as int] == weight[0]);
    }
    if style.italic is Some {
        assert(r[p3 as int] == italic[0]);
    }
    if style.underline is Some {
        assert(r[p4 as int] == underline[0]);
    }
}

/// The attributes of the first `m` runs begin those of the first `n` runs.
proof fn lemma_line_attrs_prefix<C>(spans: Seq<StyleSpan>, styles: Seq<Style<C>>, m: nat, n: nat)
    requires
        m <= n,
    ensures
        line_attrs_upto(spans, styles, m).len() <= line_attrs_upto(spans, styles, n).len(),
        forall|i: int| 0 <= i < line_attrs_upto(spans, styles, m).len() ==>
            #[trigger] line_attrs_upto(spans, styles, n)[i] == line_attrs_upto(spans, styles, m)[i],
    decreases n,
{
    if m < n {
        lemma_line_attrs_prefix(spans, styles, m, (n - 1) as nat);
    }
}

/// Each property that the style of a run sets appears among the line's
/// attributes with the style's own value, over the run's byte range; and
/// every attribute of the run is over that range and carries a value of the
/// run's style.
pub proof fn lemma_line_attributes_carry_styles<C>(spans: Seq<StyleSpan>, styles: Seq<Style<C>>, k: nat)
    requires
        k < spans.len(),
        spans[k as int].id < styles.len(),
    ensures
        ({
            let all = line_attrs_upto(spans, styles, spans.len());
            let st = styles[spans[k as int].id as int];
            let s = run_start(spans, k);
            let e = run_end(spans, k);
            &&& st.fg_color is Some ==> all.contains(
                TextAttr { kind: AttrKind::Foreground(st.fg_color.unwrap()), start_index: s, end_index: e },
            )
            &&& st.bg_color is Some ==> all.contains(
                TextAttr { kind: AttrKind::Background(st.bg_color.unwrap()), start_index: s, end_index: e },
            )
            &&& st.weight is Some ==> all.contains(
                TextAttr { kind: AttrKind::Weight(st.weight.unwrap()), start_index: s, end_index: e },
            )
            &&& st.italic is Some ==> all.contains(
                TextAttr { kind: AttrKind::Italic(st.italic.unwrap()), start_index: s, end_index: e },
            )
            &&& st.underline is Some ==> all.contains(
                TextAttr { kind: AttrKind::Underline(st.underline.unwrap()), start_index: s, end_index: e },
            )
        }),
{
    let all = line_attrs_upto(spans, styles, spans.len());
    let st = styles[spans[k as int].id as int];
    let s = run_start(spans, k);
    let e = run_end(spans, k);
    let before = line_attrs_upto(spans, styles, k);
    let run = span_attrs(spans, styles, k);
    assert(run == style_attrs(st, s, e));
    lemma_style_attrs(st, s, e);
    assert(line_attrs_upto(spans, styles, k + 1) == before + run);
    lemma_line_attrs_prefix(spans, styles, k + 1, spans.len());
    assert forall|a: TextAttr<C>| run.contains(a) implies all.contains(a) by {
        let j = choose|j: int| 0 <= j < run.len() && run[j] == a;
        assert(line_attrs_upto(spans, styles, k + 1)[before.len() + j] == a);
        assert(all[before.len() + j] == a);
    }
}

fn push_attr<C: Copy>(out: &mut Vec<TextAttr<C>>, kind: AttrKind<C>, start: u32, end: u32)
    ensures
        final(out)@ == old(out)@.push(TextAttr { kind, start_index: start, end_index: end }),
{
    out.push(TextAttr { kind, start_index: start, end_index: end });
}

/// Appends the attributes that `style` gives to the byte range `start..end`.
fn push_style_attrs<C: Copy>(out: &mut Vec<TextAttr<C>>, style: &Style<C>, start: u32, end: u32)
    ensures
        final(out)@ == old(out)@ + style_attrs(*style, start, end),
{
    let ghost o = out@;
    if let Some(c) = style.fg_color {
        push_attr(out, AttrKind::Foreground(c), start, end);
    }
    if let Some(c) = style.bg_color {
        push_attr(out, AttrKind::Background(c), start, end);
    }
    if let Some(w) = style.weight {
        push_attr(out, AttrKind::Weight(w), start, end);
    }
    if let Some(b) = style.italic {
        push_attr(out, AttrKind::Italic(b), start, end);
    }
    if let Some(b) = style.underline {
        push_attr(out, AttrKind::Underline(b), start, end);
    }
    assert(out@ =~= o + style_attrs(*style, start, end));
}

/// The text attributes of a line with the given style runs, for the style
/// table `styles`.
pub fn line_attributes<C: Copy>(spans: &Vec<StyleSpan>, styles: &Vec<Style<C>>) -> (r: Vec<TextAttr<C>>)
    requires
        spans_fit(spans@),
    ensures
        r@ == line_attrs_upto(spans@, styles@, spans@.len()),
{
    let mut out: Vec<TextAttr<C>> = Vec::new();
    let mut ix: i64 = 0;
    let n = spans.len();
    let mut i: usize = 0;
    while i < n
        invariant
            n == spans@.len(),
            i <= n,
            spans_fit(spans@),
            ix as int == span_offset(spans@, i as nat),
            out@ == line_attrs_upto(spans@, styles@, i as nat),
        decreases n - i,
    {
        let span = &spans[i];
        assert(in_i64(span_offset(spans@, i as nat) + spans@[i as int].start));
        let first: i64 = ix + span.start;
        let last: i64 = first + (span.len as i64);
        let start_index = first as u32;
        let end_index = last as u32;
        if span.id < styles.len() {
            push_style_attrs(&mut out, &styles[span.id], start_index, end_index);
        }
        assert(out@ =~= line_attrs_upto(spans@, styles@, (i + 1) as nat));
        ix = last;
        i = i + 1;
    }
    out
}

} // verus!

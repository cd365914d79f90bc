//! Assembling the status line.
//!
//! The line is built from the resolved facts alone: the decorated head
//! label, the divergence report, the four status counts and the stash
//! count.  [`format_line`] yields the plain text of the line;
//! [`format_segments`] yields the same text cut into pieces, each tagged
//! with the style it is shown in, for a renderer to colour.

use vstd::prelude::*;
use crate::DivergenceInfo;
use crate::StatusCounts;
use crate::text::spec_decimal;
use crate::text::u64_to_string;

verus! {

/// The style a piece of the line is rendered in.
#[derive(Clone, Copy, Debug, PartialEq, Eq, Structural)]
pub enum Style {
    Plain,
    BoldMagenta,
    Cyan,
    BrightMagenta,
    Red,
    Yellow,
}

/// One piece of the status line: a text and the style it is shown in.
pub struct Segment {
    pub style: Style,
    pub text: String,
}

/// The segments reduced to what they say: style and text content.
pub open spec fn seg_views(segs: Seq<Segment>) -> Seq<(Style, Seq<char>)> {
    segs.map_values(|s: Segment| (s.style, s.text@))
}

/// The text the segments spell out, in order.
pub open spec fn views_text(vs: Seq<(Style, Seq<char>)>) -> Seq<char>
    decreases vs.len(),
{
    if vs.len() == 0 {
        Seq::empty()
    } else {
        views_text(vs.drop_last()) + vs.last().1
    }
}

/// The divergence part of the line: a no-upstream glyph for a local-only
/// branch; otherwise the nonzero distances, up-arrow then down-arrow;
/// nothing when the branch is in step with its upstream.
pub open spec fn spec_divergence_part(d: DivergenceInfo) -> Seq<char> {
    if d.is_local_only {
        " ⬨"@
    } else if d.ahead > 0 || d.behind > 0 {
        " "@ + (if d.ahead > 0 {
            "↑"@ + spec_decimal(d.ahead as int)
        } else {
            Seq::empty()
        }) + (if d.behind > 0 {
            "↓"@ + spec_decimal(d.behind as int)
        } else {
            Seq::empty()
        })
    } else {
        Seq::empty()
    }
}

/// The counts part of the line: when any category is nonzero, the nonzero
/// counts in parentheses, each behind its glyph, in the fixed order
/// untracked, changed, staged, conflicted.
pub open spec fn spec_counts_part(c: StatusCounts) -> Seq<char> {
    if c.untracked > 0 || c.changed > 0 || c.staged > 0 || c.conflicted > 0 {
        " ("@ + (if c.untracked > 0 {
            "+"@ + spec_decimal(c.untracked as int)
        } else {
            Seq::empty()
        }) + (if c.changed > 0 {
            "Δ"@ + spec_decimal(c.changed as int)
        } else {
            Seq::empty()
        }) + (if c.staged > 0 {
            "●"@ + spec_decimal(c.staged as int)
        } else {
            Seq::empty()
        }) + (if c.conflicted > 0 {
            "✖"@ + spec_decimal(c.conflicted as int)
        } else {
            Seq::empty()
        }) + ")"@
    } else {
        Seq::empty()
    }
}

/// The stash part of the line: the flag glyph and the count, when any
/// stash entries exist.
pub open spec fn spec_stash_part(stash: usize) -> Seq<char> {
    if stash > 0 {
        " ⚑"@ + spec_decimal(stash as int)
    } else {
        Seq::empty()
    }
}

/// The whole line: ` on `, the label, then the divergence, counts and
/// stash parts, each present only when its condition holds.
pub open spec fn spec_line(
    label: Seq<char>,
    d: DivergenceInfo,
    c: StatusCounts,
    stash: usize,
) -> Seq<char> {
    " on "@ + label + spec_divergence_part(d) + spec_counts_part(c) + spec_stash_part(stash)
}

fn append_divergence(out: &mut String, div: &DivergenceInfo)
    ensures
        final(out)@ == old(out)@ + spec_divergence_part(*div),
{
    if div.is_local_only {
        out.append(" ⬨");
    } else if div.ahead > 0 || div.behind > 0 {
        out.append(" ");
        if div.ahead > 0 {
            out.append("↑");
            out.append(u64_to_string(div.ahead as u64).as_str());
        }
        if div.behind > 0 {
            out.append("↓");
            out.append(u64_to_string(div.behind as u64).as_str());
        }
    }
    proof {
        assert(out@ =~= old(out)@ + spec_divergence_part(*div));
    }
}

fn append_count_piece(out: &mut String, glyph: &str, n: usize)
    ensures
        final(out)@ == old(out)@ + glyph@ + spec_decimal(n as int),
{
    out.append(glyph);
    out.append(u64_to_string(n as u64).as_str());
    proof {
        assert(out@ =~= old(out)@ + glyph@ + spec_decimal(n as int));
    }
}

#[verifier::rlimit(100)]
fn append_counts(out: &mut String, counts: &StatusCounts)
    ensures
        final(out)@ == old(out)@ + spec_counts_part(*counts),
{
    let ghost pa: Seq<char> = if counts.untracked > 0 {
        "+"@ + spec_decimal(counts.untracked as int)
    } else {
        Seq::empty()
    };
    let ghost pb: Seq<char> = if counts.changed > 0 {
        "Δ"@ + spec_decimal(counts.changed as int)
    } else {
        Seq::empty()
    };
    let ghost pc: Seq<char> = if counts.staged > 0 {
        "●"@ + spec_decimal(counts.staged as int)
    } else {
        Seq::empty()
    };
    let ghost pd: Seq<char> = if counts.conflicted > 0 {
        "✖"@ + spec_decimal(counts.conflicted as int)
    } else {
        Seq::empty()
    };
    if counts.untracked > 0 || counts.changed > 0 || counts.staged > 0 || counts.conflicted > 0 {
        out.append(" (");
        if counts.untracked > 0 {
            append_count_piece(out, "+", counts.untracked);
        }
        proof {
            assert(out@ =~= old(out)@ + " ("@ + pa);
        }
        if counts.changed > 0 {
            append_count_piece(out, "Δ", counts.changed);
        }
        proof {
            assert(out@ =~= old(out)@ + " ("@ + pa + pb);
        }
        if counts.staged > 0 {
            append_count_piece(out, "●", counts.staged);
        }
        proof {
            assert(out@ =~= old(out)@ + " ("@ + pa + pb + pc);
        }
        if counts.conflicted > 0 {
            append_count_piece(out, "✖", counts.conflicted);
        }
        proof {
            assert(out@ =~= old(out)@ + " ("@ + pa + pb + pc + pd);
        }
        out.append(")");
        proof {
            assert(spec_counts_part(*counts) =~= " ("@ + pa + pb + pc + pd + ")"@);
            assert(out@ =~= old(out)@ + spec_counts_part(*counts));
        }
    } else {
        proof {
            assert(out@ =~= old(out)@ + spec_counts_part(*counts));
        }
    }
}

fn append_stash(out: &mut String, stash: usize)
    ensures
        final(out)@ == old(out)@ + spec_stash_part(stash),
{
    if stash > 0 {
        out.append(" ⚑");
        out.append(u64_to_string(stash as u64).as_str());
    }
    proof {
        assert(out@ =~= old(out)@ + spec_stash_part(stash));
    }
}

/// Render the plain text of the status line.
pub fn format_line(label: &str, div: &DivergenceInfo, counts: &StatusCounts, stash: usize) -> (r:
    String)
    ensures
        r@ == spec_line(label@, *div, *counts, stash),
{
    let mut out = String::new();
    out.append(" on ");
    out.append(label);
    append_divergence(&mut out, div);
    append_counts(&mut out, counts);
    append_stash(&mut out, stash);
    proof {
        assert(out@ =~= spec_line(label@, *div, *counts, stash));
    }
    out
}

/// The divergence segments, with the texts of [`spec_divergence_part`].
pub open spec fn spec_div_segs(d: DivergenceInfo) -> Seq<(Style, Seq<char>)> {
    if d.is_local_only {
        seq![(Style::Plain, " ⬨"@)]
    } else if d.ahead > 0 || d.behind > 0 {
        seq![(Style::Plain, " "@)] + (if d.ahead > 0 {
            seq![(Style::Plain, "↑"@ + spec_decimal(d.ahead as int))]
        } else {
            Seq::empty()
        }) + (if d.behind > 0 {
            seq![(Style::Plain, "↓"@ + spec_decimal(d.behind as int))]
        } else {
            Seq::empty()
        })
    } else {
        Seq::empty()
    }
}

/// The counts segments, one styled piece per nonzero category, with the
/// texts of [`spec_counts_part`].
pub open spec fn spec_count_segs(c: StatusCounts) -> Seq<(Style, Seq<char>)> {
    if c.untracked > 0 || c.changed > 0 || c.staged > 0 || c.conflicted > 0 {
        seq![(Style::Plain, " ("@)] + (if c.untracked > 0 {
            seq![(Style::Cyan, "+"@ + spec_decimal(c.untracked as int))]
        } else {
            Seq::empty()
        }) + (if c.changed > 0 {
            seq![(Style::BrightMagenta, "Δ"@ + spec_decimal(c.changed as int))]
        } else {
            Seq::empty()
        }) + (if c.staged > 0 {
            seq![(Style::Red, "●"@ + spec_decimal(c.staged as int))]
        } else {
            Seq::empty()
        }) + (if c.conflicted > 0 {
            seq![(Style::Yellow, "✖"@ + spec_decimal(c.conflicted as int))]
        } else {
            Seq::empty()
        }) + seq![(Style::Plain, ")"@)]
    } else {
        Seq::empty()
    }
}

/// The stash segment, with the text of [`spec_stash_part`].
pub open spec fn spec_stash_segs(stash: usize) -> Seq<(Style, Seq<char>)> {
    if stash > 0 {
        seq![(Style::Plain, " ⚑"@ + spec_decimal(stash as int))]
    } else {
        Seq::empty()
    }
}

/// The whole line as styled segments: the lead-in and the emphasized
/// label, then the divergence, counts and stash segments.
pub open spec fn spec_segments(
    label: Seq<char>,
    d: DivergenceInfo,
    c: StatusCounts,
    stash: usize,
) -> Seq<(Style, Seq<char>)> {
    seq![(Style::Plain, " on "@), (Style::BoldMagenta, label)] + spec_div_segs(d)
        + spec_count_segs(c) + spec_stash_segs(stash)
}

pub proof fn lemma_views_text_concat(a: Seq<(Style, Seq<char>)>, b: Seq<(Style, Seq<char>)>)
    ensures
        views_text(a + b) == views_text(a) + views_text(b),
    decreases b.len(),
{
    if b.len() == 0 {
        assert(a + b =~= a);
        assert(views_text(a) + views_text(b) =~= views_text(a));
    } else {
        assert((a + b).drop_last() =~= a + b.drop_last());
        lemma_views_text_concat(a, b.drop_last());
        assert((a + b).last() == b.last());
        assert(views_text(a) + (views_text(b.drop_last()) + b.last().1) =~= views_text(a)
            + views_text(b));
        assert(views_text(a + b) =~= views_text(a) + views_text(b));
    }
}

proof fn lemma_views_text_single(p: (Style, Seq<char>))
    ensures
        views_text(seq![p]) == p.1,
{
    assert(seq![p].len() == 1);
    assert(seq![p].drop_last() =~= Seq::<(Style, Seq<char>)>::empty());
    assert(views_text(seq![p].drop_last()) =~= Seq::<char>::empty());
    assert(seq![p].last() == p);
    assert(views_text(seq![p]) =~= p.1);
}

proof fn lemma_div_segs_text(d: DivergenceInfo)
    ensures
        views_text(spec_div_segs(d)) == spec_divergence_part(d),
{
    if d.is_local_only {
        lemma_views_text_single((Style::Plain, " ⬨"@));
    } else if d.ahead > 0 || d.behind > 0 {
        let sp = seq![(Style::Plain, " "@)];
        let a = if d.ahead > 0 {
            seq![(Style::Plain, "↑"@ + spec_decimal(d.ahead as int))]
        } else {
            Seq::empty()
        };
        let b = if d.behind > 0 {
            seq![(Style::Plain, "↓"@ + spec_decimal(d.behind as int))]
        } else {
            Seq::empty()
        };
        lemma_views_text_concat(sp, a);
        lemma_views_text_concat(sp + a, b);
        lemma_views_text_single((Style::Plain, " "@));
        if d.ahead > 0 {
            lemma_views_text_single((Style::Plain, "↑"@ + spec_decimal(d.ahead as int)));
        }
        if d.behind > 0 {
            lemma_views_text_single((Style::Plain, "↓"@ + spec_decimal(d.behind as int)));
        }
        assert(views_text(spec_div_segs(d)) =~= spec_divergence_part(d));
    }
}

#[verifier::rlimit(50)]
proof fn lemma_count_segs_text(c: StatusCounts)
    ensures
        views_text(spec_count_segs(c)) == spec_counts_part(c),
{
    if c.untracked > 0 || c.changed > 0 || c.staged > 0 || c.conflicted > 0 {
        let p1 = seq![(Style::Plain, " ("@)];
        let a = if c.untracked > 0 {
            seq![(Style::Cyan, "+"@ + spec_decimal(c.untracked as int))]
        } else {
            Seq::empty()
        };
        let b = if c.changed > 0 {
            seq![(Style::BrightMagenta, "Δ"@ + spec_decimal(c.changed as int))]
        } else {
            Seq::empty()
        };
        let d = if c.staged > 0 {
            seq![(Style::Red, "●"@ + spec_decimal(c.staged as int))]
        } else {
            Seq::empty()
        };
        let e = if c.conflicted > 0 {
            seq![(Style::Yellow, "✖"@ + spec_decimal(c.conflicted as int))]
        } else {
            Seq::empty()
        };
        let p2 = seq![(Style::Plain, ")"@)];
        lemma_views_text_concat(p1, a);
        lemma_views_text_concat(p1 + a, b);
        lemma_views_text_concat(p1 + a + b, d);
        lemma_views_text_concat(p1 + a + b + d, e);
        lemma_views_text_concat(p1 + a + b + d + e, p2);
        lemma_views_text_single((Style::Plain, " ("@));
        lemma_views_text_single((Style::Plain, ")"@));
        if c.untracked > 0 {
            lemma_views_text_single((Style::Cyan, "+"@ + spec_decimal(c.untracked as int)));
        }
        if c.changed > 0 {
            lemma_views_text_single(
                (Style::BrightMagenta, "Δ"@ + spec_decimal(c.changed as int)),
            );
        }
        if c.staged > 0 {
            lemma_views_text_single((Style::Red, "●"@ + spec_decimal(c.staged as int)));
        }
        if c.conflicted > 0 {
            lemma_views_text_single((Style::Yellow, "✖"@ + spec_decimal(c.conflicted as int)));
        }
        assert(views_text(spec_count_segs(c)) =~= spec_counts_part(c));
    }
}

proof fn lemma_stash_segs_text(stash: usize)
    ensures
        views_text(spec_stash_segs(stash)) == spec_stash_part(stash),
{
    if stash > 0 {
        lemma_views_text_single((Style::Plain, " ⚑"@ + spec_decimal(stash as int)));
    }
}

/// The styled segments spell out exactly the plain line: concatenating
/// their texts, in order, gives [`spec_line`] of the same inputs.
pub proof fn lemma_segments_text(
    label: Seq<char>,
    d: DivergenceInfo,
    c: StatusCounts,
    stash: usize,
)
    ensures
        views_text(spec_segments(label, d, c, stash)) == spec_line(label, d, c, stash),
{
    let head = seq![(Style::Plain, " on "@), (Style::BoldMagenta, label)];
    lemma_views_text_concat(head, spec_div_segs(d));
    lemma_views_text_concat(head + spec_div_segs(d), spec_count_segs(c));
    lemma_views_text_concat(head + spec_div_segs(d) + spec_count_segs(c), spec_stash_segs(stash));
    lemma_div_segs_text(d);
    lemma_count_segs_text(c);
    lemma_stash_segs_text(stash);
    assert(head.drop_last() =~= seq![(Style::Plain, " on "@)]);
    lemma_views_text_single((Style::Plain, " on "@));
    assert(views_text(head) =~= " on "@ + label);
    assert(views_text(spec_segments(label, d, c, stash)) =~= spec_line(label, d, c, stash));
}

/// Render the status line as styled segments, for a renderer to colour
/// one by one; their texts in order are exactly the plain line.
#[verifier::rlimit(50)]
pub fn format_segments(
    label: &str,
    div: &DivergenceInfo,
    counts: &StatusCounts,
    stash: usize,
) -> (r: Vec<Segment>)
    ensures
        seg_views(r@) == spec_segments(label@, *div, *counts, stash),
        views_text(seg_views(r@)) == spec_line(label@, *div, *counts, stash),
{
    let ghost head_segs: Seq<(Style, Seq<char>)> = seq![
        (Style::Plain, " on "@),
        (Style::BoldMagenta, label@),
    ];
    let ghost div_done: Seq<(Style, Seq<char>)> = head_segs + spec_div_segs(*div);
    let ghost counts_done: Seq<(Style, Seq<char>)> = div_done + spec_count_segs(*counts);
    let mut segs: Vec<Segment> = Vec::new();
    segs.push(Segment { style: Style::Plain, text: String::from_str(" on ") });
    segs.push(Segment { style: Style::BoldMagenta, text: label.to_owned() });
    proof {
        assert(seg_views(segs@) =~~= head_segs);
    }
    if div.is_local_only {
        segs.push(Segment { style: Style::Plain, text: String::from_str(" ⬨") });
        proof {
            assert(seg_views(segs@) =~~= div_done);
        }
    } else if div.ahead > 0 || div.behind > 0 {
        segs.push(Segment { style: Style::Plain, text: String::from_str(" ") });
        if div.ahead > 0 {
            let text = String::from_str("↑").concat(u64_to_string(div.ahead as u64).as_str());
            segs.push(Segment { style: Style::Plain, text });
        }
        if div.behind > 0 {
            let text = String::from_str("↓").concat(u64_to_string(div.behind as u64).as_str());
            segs.push(Segment { style: Style::Plain, text });
        }
        proof {
            assert(seg_views(segs@) =~~= div_done);
        }
    } else {
        proof {
            assert(seg_views(segs@) =~~= div_done);
        }
    }
    if counts.untracked > 0 || counts.changed > 0 || counts.staged > 0 || counts.conflicted > 0 {
        segs.push(Segment { style: Style::Plain, text: String::from_str(" (") });
        if counts.untracked > 0 {
            let text = String::from_str("+").concat(
                u64_to_string(counts.untracked as u64).as_str(),
            );
            segs.push(Segment { style: Style::Cyan, text });
        }
        if counts.changed > 0 {
            let text = String::from_str("Δ").concat(
                u64_to_string(counts.changed as u64).as_str(),
            );
            segs.push(Segment { style: Style::BrightMagenta, text });
        }
        if counts.staged > 0 {
            let text = String::from_str("●").concat(u64_to_string(counts.staged as u64).as_str());
            segs.push(Segment { style: Style::Red, text });
        }
        if counts.conflicted > 0 {
            let text = String::from_str("✖").concat(
                u64_to_string(counts.conflicted as u64).as_str(),
            );
            segs.push(Segment { style: Style::Yellow, text });
        }
        segs.push(Segment { style: Style::Plain, text: String::from_str(")") });
        proof {
            assert(seg_views(segs@) =~~= counts_done);
        }
    } else {
        proof {
            assert(seg_views(segs@) =~~= counts_done);
        }
    }
    if stash > 0 {
        let text = String::from_str(" ⚑").concat(u64_to_string(stash as u64).as_str());
        segs.push(Segment { style: Style::Plain, text });
    }
    proof {
        assert(seg_views(segs@) =~~= spec_segments(label@, *div, *counts, stash));
        lemma_segments_text(label@, *div, *counts, stash);
    }
    segs
}

/// The line is a pure function of the four inputs: equal inputs give
/// byte-identical output, with no hidden state to disturb a second call.
pub proof fn lemma_format_line_deterministic(
    label1: Seq<char>,
    d1: DivergenceInfo,
    c1: StatusCounts,
    stash1: usize,
    label2: Seq<char>,
    d2: DivergenceInfo,
    c2: StatusCounts,
    stash2: usize,
)
    requires
        label1 == label2,
        d1 == d2,
        c1 == c2,
        stash1 == stash2,
    ensures
        spec_line(label1, d1, c1, stash1) == spec_line(label2, d2, c2, stash2),
{
}

} // verus!

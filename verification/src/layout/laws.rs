use vstd::prelude::*;

use crate::layout::alignment::EdgeSet;
use crate::layout::geometry::Rect;
use crate::layout::node::Node;
use crate::layout::saturating::{sat_mul, sat_sub};
use crate::layout::size_resolution::{
    assign_fold, border_commands, even_share, spec_resolve_size, stack_class, vertical_sizings,
    vraw_fold, vstack_final_bounds, SizedModel,
};
use crate::layout::sizing::{spec_fit_extent, ItemSizing, Sizing};
use crate::rendering::CommandModel;

verus! {

/// The sum of a sequence of extents, over the unbounded integers.
pub open spec fn seq_sum(s: Seq<usize>) -> int
    decreases s.len(),
{
    if s.len() == 0 {
        0int
    } else {
        seq_sum(s.drop_last()) + s.last()
    }
}

/// The heights of a sequence of rectangles.
pub open spec fn rect_heights(rects: Seq<Rect>) -> Seq<usize> {
    Seq::new(rects.len(), |i: int| rects[i].height)
}

/// The total extent the non-expanding children keep for themselves: fixed
/// extents, plus the minima that flexible children collapse to while a greedy
/// sibling exists.
pub open spec fn collapsed_sum(sizings: Seq<Sizing>) -> int
    decreases sizings.len(),
{
    if sizings.len() == 0 {
        0int
    } else {
        collapsed_sum(sizings.drop_last()) + (match sizings.last() {
            Sizing::Static(n) => n as int,
            Sizing::Flexible(n) => n as int,
            Sizing::Greedy(_) => 0int,
        })
    }
}

/// The classification of a sizing sequence, read off its first element.
proof fn lemma_class_front(s: Seq<Sizing>, z: usize)
    requires
        s.len() >= 1,
    ensures
        stack_class(s, z).0 == stack_class(s.drop_first(), z).0 + (if s.first() is Greedy {
            1int
        } else {
            0int
        }),
        collapsed_sum(s) == collapsed_sum(s.drop_first()) + (match s.first() {
            Sizing::Static(n) => n as int,
            Sizing::Flexible(n) => n as int,
            Sizing::Greedy(_) => 0int,
        }),
    decreases s.len(),
{
    if s.len() == 1 {
        assert(s.drop_first() =~= Seq::<Sizing>::empty());
        assert(s.drop_last() =~= Seq::<Sizing>::empty());
        assert(s.first() == s.last());
    } else {
        lemma_class_front(s.drop_last(), z);
        assert(s.drop_last().drop_first() =~= s.drop_first().drop_last());
        assert(s.drop_last().first() == s.first());
        assert(s.drop_first().last() == s.last());
    }
}

/// The total of the fixed extents alone.
pub open spec fn static_sum(sizings: Seq<Sizing>) -> int
    decreases sizings.len(),
{
    if sizings.len() == 0 {
        0int
    } else {
        static_sum(sizings.drop_last()) + (match sizings.last() {
            Sizing::Static(n) => n as int,
            Sizing::Flexible(_) => 0int,
            Sizing::Greedy(_) => 0int,
        })
    }
}

/// The fixed-extent total is never negative.
proof fn lemma_static_sum_nonneg(s: Seq<Sizing>)
    ensures
        static_sum(s) >= 0,
    decreases s.len(),
{
    if s.len() > 0 {
        lemma_static_sum_nonneg(s.drop_last());
    }
}

/// When every flexible minimum is zero, the collapsed total is the fixed
/// total.
proof fn lemma_collapsed_is_static(s: Seq<Sizing>)
    requires
        forall|i: int|
            0 <= i < s.len() ==> (#[trigger] s[i] matches Sizing::Flexible(m) ==> m == 0),
    ensures
        collapsed_sum(s) == static_sum(s),
    decreases s.len(),
{
    if s.len() > 0 {
        assert(s[s.len() - 1] == s.last());
        lemma_collapsed_is_static(s.drop_last());
    }
}

/// A classification's counts are never negative.
proof fn lemma_class_counts_nonneg(s: Seq<Sizing>, z: usize)
    ensures
        stack_class(s, z).0 >= 0,
        stack_class(s, z).1 >= 0,
    decreases s.len(),
{
    if s.len() > 0 {
        lemma_class_counts_nonneg(s.drop_last(), z);
    }
}

/// The fixed total a classification reports is the fixed-extent total on top
/// of the reservation, clamped to the machine word.
proof fn lemma_class_fixed_total(s: Seq<Sizing>, z: usize)
    ensures
        stack_class(s, z).2 == if z + static_sum(s) > usize::MAX {
            usize::MAX as int
        } else {
            z + static_sum(s)
        },
    decreases s.len(),
{
    lemma_static_sum_nonneg(s);
    if s.len() > 0 {
        lemma_class_fixed_total(s.drop_last(), z);
        lemma_static_sum_nonneg(s.drop_last());
    }
}

/// How one extent-assignment pass distributes the expandable space: with the
/// even share at least one pixel, every greedy minimum within the share, every
/// flexible minimum zero, and the leftover of `m` shares plus a remainder
/// below one share, the pass hands out exactly the fixed extents, the
/// collapsed minima, and the whole expandable space, ending with nothing
/// left.
proof fn lemma_assign_fold_fills(
    sizings: Seq<Sizing>,
    share: usize,
    remaining: usize,
    acc: Seq<usize>,
)
    requires
        share >= 1,
        forall|i: int|
            0 <= i < sizings.len() ==> (#[trigger] sizings[i] matches Sizing::Greedy(m) ==> m
                <= share),
        forall|i: int|
            0 <= i < sizings.len() ==> (#[trigger] sizings[i] matches Sizing::Flexible(m) ==> m
                == 0),
        stack_class(sizings, 0).0 >= 1 ==> 0 <= remaining - stack_class(sizings, 0).0 * share
            < share,
        stack_class(sizings, 0).0 == 0 ==> remaining == 0,
    ensures
        assign_fold(sizings, true, share, acc, remaining).0.len() == acc.len() + sizings.len(),
        seq_sum(assign_fold(sizings, true, share, acc, remaining).0) == seq_sum(acc)
            + collapsed_sum(sizings) + remaining,
        assign_fold(sizings, true, share, acc, remaining).1 == 0,
    decreases sizings.len(),
{
    let ghost m = stack_class(sizings, 0).0;
    if sizings.len() == 0 {
        assert(m == 0);
    } else {
        lemma_class_front(sizings, 0);
        let first = sizings.first();
        let rest = sizings.drop_first();
        let m_rest = stack_class(rest, 0).0;
        match first {
            Sizing::Static(sz) => {
                let acc2 = acc.push(sz);
                proof_step_sum(acc, sz);
                lemma_assign_fold_fills(rest, share, remaining, acc2);
            },
            Sizing::Flexible(sz) => {
                assert(sizings[0] == first);
                assert(sz == 0);
                let acc2 = acc.push(sz);
                proof_step_sum(acc, sz);
                lemma_assign_fold_fills(rest, share, remaining, acc2);
            },
            Sizing::Greedy(t) => {
                assert(sizings[0] == first);
                assert(t <= share);
                assert(m == m_rest + 1);
                lemma_class_counts_nonneg(rest, 0);
                assert(m >= 1);
                let r = remaining - m * share;
                assert(0 <= r < share);
                let after = sat_sub(remaining, share);
                assert(remaining >= share) by (nonlinear_arith)
                    requires
                        remaining == m * share + r,
                        m >= 1,
                        r >= 0,
                        share >= 1,
                ;
                assert(after == remaining - share);
                assert(m * share == m_rest * share + share) by (nonlinear_arith)
                    requires
                        m == m_rest + 1,
                ;
                if m_rest >= 1 {
                    assert(after == m_rest * share + r);
                    assert(after >= share) by (nonlinear_arith)
                        requires
                            after == m_rest * share + r,
                            m_rest >= 1,
                            r >= 0,
                            share >= 1,
                    ;
                    let given = if share >= t {
                        share
                    } else {
                        t
                    };
                    assert(given == share);
                    let acc2 = acc.push(share);
                    proof_step_sum(acc, share);
                    lemma_assign_fold_fills(rest, share, after, acc2);
                } else {
                    assert(m == 1);
                    assert(m * share == share) by (nonlinear_arith)
                        requires
                            m == 1,
                    ;
                    assert(after == r);
                    assert(after < share);
                    let handed = crate::layout::saturating::sat_add(share, after);
                    assert(handed == share + after);
                    assert(handed >= t);
                    let acc2 = acc.push(handed);
                    proof_step_sum(acc, handed);
                    lemma_assign_fold_fills(rest, share, 0, acc2);
                }
            },
        }
    }
}

/// Pushing an extent onto a partial sum adds exactly that extent.
proof fn proof_step_sum(acc: Seq<usize>, e: usize)
    ensures
        seq_sum(acc.push(e)) == seq_sum(acc) + e,
{
    assert(acc.push(e).drop_last() =~= acc);
}

/// The rectangles a top-to-bottom layout pass produces carry exactly the
/// extents handed to it.
proof fn lemma_vraw_heights(
    widths: Seq<usize>,
    heights: Seq<usize>,
    spacing: usize,
    acc: Seq<Rect>,
    last: Rect,
)
    requires
        widths.len() == heights.len(),
    ensures
        rect_heights(vraw_fold(widths, heights, spacing, acc, last)) =~= rect_heights(acc)
            + heights,
    decreases widths.len(),
{
    if widths.len() == 0 {
        assert(rect_heights(acc) + heights =~= rect_heights(acc));
    } else {
        let gap: i64 = if acc.len() == 0 {
            0
        } else {
            crate::layout::saturating::coord_of_extent(spacing)
        };
        let nb = Rect {
            x: 0,
            y: crate::layout::saturating::sat_add_i64(
                crate::layout::size_resolution::rect_max_y(last),
                gap,
            ),
            width: widths.first(),
            height: heights.first(),
        };
        lemma_vraw_heights(widths.drop_first(), heights.drop_first(), spacing, acc.push(nb), nb);
        assert(rect_heights(acc.push(nb)) =~= rect_heights(acc).push(heights.first()));
        assert(rect_heights(acc).push(heights.first()) + heights.drop_first() =~= rect_heights(acc)
            + heights);
    }
}

/// For every vertical stack whose fixed extents and spacing fit the container,
/// with at least one greedy child, an even share of at least one pixel, the
/// division remainder below one share, every greedy minimum within its share
/// and every flexible minimum zero: the final child extents along the stack
/// axis plus the spacing reservation fill the container's extent exactly.
pub proof fn lemma_vertical_stack_fills<Content>(
    spacing: usize,
    children: Seq<SizedModel<Content>>,
    bounds: Rect,
)
    requires
        children.len() >= 1,
        ({
            let sizings = vertical_sizings(children);
            let spacing_sizing = sat_mul(spacing, (children.len() - 1) as usize);
            let class = stack_class(sizings, spacing_sizing);
            let leftover = sat_sub(bounds.height, class.2);
            let share = even_share(class, leftover);
            &&& class.0 >= 1
            &&& class.2 <= bounds.height
            &&& share >= 1
            &&& leftover - class.0 * share < share
            &&& forall|i: int|
                0 <= i < sizings.len() ==> (#[trigger] sizings[i] matches Sizing::Greedy(m) ==> m
                    <= share)
            &&& forall|i: int|
                0 <= i < sizings.len() ==> (#[trigger] sizings[i] matches Sizing::Flexible(m)
                    ==> m == 0)
        }),
    ensures
        seq_sum(rect_heights(vstack_final_bounds(spacing, children, bounds))) + sat_mul(
            spacing,
            (children.len() - 1) as usize,
        ) == bounds.height,
{
    let sizings = vertical_sizings(children);
    let spacing_sizing = sat_mul(spacing, (children.len() - 1) as usize);
    let class = stack_class(sizings, spacing_sizing);
    let leftover = sat_sub(bounds.height, class.2);
    let share = even_share(class, leftover);
    assert(leftover == bounds.height - class.2);
    vstd::arithmetic::div_mod::lemma_fundamental_div_mod(leftover as int, class.0);
    let r = leftover - class.0 * share;
    assert(share == leftover as int / class.0);
    assert(r >= 0) by {
        vstd::arithmetic::div_mod::lemma_remainder_lower(leftover as int, class.0);
        assert(leftover as int % class.0 == leftover - class.0 * (leftover as int / class.0));
    };
    assert(stack_class(sizings, 0).0 == class.0) by {
        lemma_class_same_counts(sizings, spacing_sizing);
    };
    assert(0 <= leftover - stack_class(sizings, 0).0 * share < share);
    lemma_assign_fold_fills(sizings, share, leftover, Seq::empty());
    let assigned = assign_fold(sizings, true, share, Seq::empty(), leftover).0;
    assert(seq_sum(assigned) == collapsed_sum(sizings) + leftover);
    lemma_class_fixed_total(sizings, spacing_sizing);
    lemma_collapsed_is_static(sizings);
    assert(class.2 == spacing_sizing + collapsed_sum(sizings));
    let widths = Seq::new(
        children.len(),
        |i: int| spec_fit_extent(children[i].sizing.horizontal, bounds.width),
    );
    lemma_vraw_heights(
        widths,
        assigned,
        spacing,
        Seq::empty(),
        Rect { x: 0, y: 0, width: 0, height: 0 },
    );
    assert(rect_heights(Seq::empty()) + assigned =~= assigned);
    assert(rect_heights(vstack_final_bounds(spacing, children, bounds)) == assigned);
}

/// With nothing to expand, one extent-assignment pass hands every child
/// exactly its fixed extent.
proof fn lemma_assign_fold_fixed(
    sizings: Seq<Sizing>,
    has_greedy: bool,
    share: usize,
    remaining: usize,
    acc: Seq<usize>,
)
    requires
        forall|i: int| 0 <= i < sizings.len() ==> (#[trigger] sizings[i]) is Static,
    ensures
        assign_fold(sizings, has_greedy, share, acc, remaining).0.len() == acc.len()
            + sizings.len(),
        seq_sum(assign_fold(sizings, has_greedy, share, acc, remaining).0) == seq_sum(acc)
            + static_sum(sizings),
    decreases sizings.len(),
{
    if sizings.len() > 0 {
        assert(sizings[0] == sizings.first());
        match sizings.first() {
            Sizing::Static(sz) => {
                proof_step_sum(acc, sz);
                assert forall|i: int|
                    0 <= i < sizings.drop_first().len() implies (#[trigger] sizings.drop_first()[i]) is Static by {
                    assert(sizings.drop_first()[i] == sizings[i + 1]);
                }
                lemma_assign_fold_fixed(
                    sizings.drop_first(),
                    has_greedy,
                    share,
                    remaining,
                    acc.push(sz),
                );
                lemma_class_front(sizings, 0);
                lemma_static_sum_front(sizings);
            },
            Sizing::Greedy(_) => {
                assert(false);
            },
            Sizing::Flexible(_) => {
                assert(false);
            },
        }
    }
}

/// The fixed-extent total, read off the first element.
proof fn lemma_static_sum_front(s: Seq<Sizing>)
    requires
        s.len() >= 1,
    ensures
        static_sum(s) == static_sum(s.drop_first()) + (match s.first() {
            Sizing::Static(n) => n as int,
            Sizing::Flexible(_) => 0int,
            Sizing::Greedy(_) => 0int,
        }),
    decreases s.len(),
{
    if s.len() == 1 {
        assert(s.drop_first() =~= Seq::<Sizing>::empty());
        assert(s.drop_last() =~= Seq::<Sizing>::empty());
        assert(s.first() == s.last());
    } else {
        lemma_static_sum_front(s.drop_last());
        assert(s.drop_last().drop_first() =~= s.drop_first().drop_last());
        assert(s.drop_last().first() == s.first());
        assert(s.drop_first().last() == s.last());
    }
}

/// For every vertical stack whose children are all fixed along the stack
/// axis: the final child extents plus the spacing reservation total exactly
/// the fixed extent the measurement classification reports — the stack's own
/// extent — however much room the container offers.
pub proof fn lemma_fixed_stack_extent<Content>(
    spacing: usize,
    children: Seq<SizedModel<Content>>,
    bounds: Rect,
)
    requires
        children.len() >= 1,
        forall|i: int|
            0 <= i < children.len() ==> (#[trigger] children[i]).sizing.vertical is Static,
        sat_mul(spacing, (children.len() - 1) as usize) + static_sum(vertical_sizings(children))
            <= usize::MAX,
    ensures
        seq_sum(rect_heights(vstack_final_bounds(spacing, children, bounds))) + sat_mul(
            spacing,
            (children.len() - 1) as usize,
        ) == stack_class(
            vertical_sizings(children),
            sat_mul(spacing, (children.len() - 1) as usize),
        ).2,
{
    let sizings = vertical_sizings(children);
    let spacing_sizing = sat_mul(spacing, (children.len() - 1) as usize);
    let class = stack_class(sizings, spacing_sizing);
    let leftover = sat_sub(bounds.height, class.2);
    let share = even_share(class, leftover);
    assert forall|i: int| 0 <= i < sizings.len() implies (#[trigger] sizings[i]) is Static by {
        assert(sizings[i] == children[i].sizing.vertical);
    }
    lemma_assign_fold_fixed(sizings, class.0 != 0, share, leftover, Seq::empty());
    let assigned = assign_fold(sizings, class.0 != 0, share, Seq::empty(), leftover).0;
    lemma_class_fixed_total(sizings, spacing_sizing);
    lemma_static_sum_nonneg(sizings);
    let widths = Seq::new(
        children.len(),
        |i: int| spec_fit_extent(children[i].sizing.horizontal, bounds.width),
    );
    lemma_vraw_heights(
        widths,
        assigned,
        spacing,
        Seq::empty(),
        Rect { x: 0, y: 0, width: 0, height: 0 },
    );
    assert(rect_heights(Seq::empty()) + assigned =~= assigned);
    assert(rect_heights(vstack_final_bounds(spacing, children, bounds)) == assigned);
}

/// A classification's greedy and expandable counts do not depend on the
/// spacing reservation.
proof fn lemma_class_same_counts(s: Seq<Sizing>, z: usize)
    ensures
        stack_class(s, z).0 == stack_class(s, 0).0,
        stack_class(s, z).1 == stack_class(s, 0).1,
    decreases s.len(),
{
    if s.len() > 0 {
        lemma_class_same_counts(s.drop_last(), z);
    }
}

/// While any greedy child exists, a flexible child never expands: its
/// assigned extent along the stack axis is exactly its minimum.
pub proof fn lemma_greedy_takes_priority(
    sizings: Seq<Sizing>,
    share: usize,
    acc: Seq<usize>,
    remaining: usize,
)
    ensures
        assign_fold(sizings, true, share, acc, remaining).0.len() == acc.len() + sizings.len(),
        forall|i: int|
            0 <= i < acc.len() ==> assign_fold(sizings, true, share, acc, remaining).0[i]
                == acc[i],
        forall|i: int|
            0 <= i < sizings.len() ==> (#[trigger] sizings[i] matches Sizing::Flexible(m)
                ==> assign_fold(sizings, true, share, acc, remaining).0[acc.len() + i] == m),
    decreases sizings.len(),
{
    if sizings.len() > 0 {
        let first = sizings.first();
        let step = crate::layout::size_resolution::assign_one(first, true, share, remaining);
        let acc2 = acc.push(step.0);
        lemma_greedy_takes_priority(sizings.drop_first(), share, acc2, step.1);
        let result = assign_fold(sizings, true, share, acc, remaining).0;
        assert forall|i: int| 0 <= i < acc.len() implies result[i] == acc[i] by {
            assert(result[i] == acc2[i]);
        }
        assert forall|i: int|
            0 <= i < sizings.len() implies (#[trigger] sizings[i] matches Sizing::Flexible(m)
            ==> result[acc.len() + i] == m) by {
            if i == 0 {
                assert(sizings[0] == first);
                assert(result[acc.len() as int] == acc2[acc.len() as int]);
            } else {
                assert(sizings.drop_first()[i - 1] == sizings[i]);
                assert(result[acc2.len() + (i - 1)] == result[acc.len() + i]);
            }
        }
    }
}

/// A width wrapper reports a fixed horizontal sizing of exactly its extent,
/// and the rectangle that sizing takes inside any bounds is exactly that
/// extent wide, whatever the wrapped content reported.
pub proof fn lemma_width_fixes_extent<Content>(
    k: usize,
    child: Node<Content>,
    measure_bounds: Rect,
    arrange_bounds: Rect,
)
    ensures
        spec_resolve_size(Node::Width(k, Box::new(child)), measure_bounds).sizing.horizontal
            == Sizing::Static(k),
        spec_resolve_size(
            Node::Width(k, Box::new(child)),
            measure_bounds,
        ).sizing.spec_fit_into(arrange_bounds).width == k,
{
}

/// A height wrapper reports a fixed vertical sizing of exactly its extent,
/// and the rectangle that sizing takes inside any bounds is exactly that
/// extent tall, whatever the wrapped content reported.
pub proof fn lemma_height_fixes_extent<Content>(
    k: usize,
    child: Node<Content>,
    measure_bounds: Rect,
    arrange_bounds: Rect,
)
    ensures
        spec_resolve_size(Node::Height(k, Box::new(child)), measure_bounds).sizing.vertical
            == Sizing::Static(k),
        spec_resolve_size(
            Node::Height(k, Box::new(child)),
            measure_bounds,
        ).sizing.spec_fit_into(arrange_bounds).height == k,
{
}

/// A vertically centered child sits at the container's top offset by half the
/// leftover, rounded down, so an odd leftover pixel falls on the trailing
/// side; the mirrored fact holds horizontally.
pub proof fn lemma_center_offset(sizing: ItemSizing, bounds: Rect)
    requires
        spec_fit_extent(sizing.vertical, bounds.height) <= bounds.height,
        bounds.y + bounds.height <= i64::MAX,
        spec_fit_extent(sizing.horizontal, bounds.width) <= bounds.width,
        bounds.x + bounds.width <= i64::MAX,
    ensures
        ({
            let child_height = spec_fit_extent(sizing.vertical, bounds.height);
            let offset = (bounds.height - child_height) / 2;
            crate::layout::saturating::sat_add_i64(
                bounds.y,
                crate::layout::saturating::coord_of_extent(
                    (sat_sub(bounds.height, child_height) / 2) as usize,
                ),
            ) == bounds.y + offset
        }),
        ({
            let child_width = spec_fit_extent(sizing.horizontal, bounds.width);
            let offset = (bounds.width - child_width) / 2;
            crate::layout::saturating::sat_add_i64(
                bounds.x,
                crate::layout::saturating::coord_of_extent(
                    (sat_sub(bounds.width, child_width) / 2) as usize,
                ),
            ) == bounds.x + offset
        }),
{
}

/// Arrangement is deterministic: two command lists computed from the same
/// measured tree and the same bounds are identical.
pub proof fn lemma_arrangement_deterministic<Content>(
    s: SizedModel<Content>,
    bounds: Rect,
    first: Seq<CommandModel<Content>>,
    second: Seq<CommandModel<Content>>,
)
    requires
        first == crate::layout::size_resolution::spec_draw(s, bounds),
        second == crate::layout::size_resolution::spec_draw(s, bounds),
    ensures
        first == second,
{
}

/// A border over all four sides emits exactly one stroked rectangle and no
/// filled bar; a border over a strict subset of the sides emits exactly one
/// filled bar per bordered side and no stroked rectangle.
pub proof fn lemma_border_command_shape<Content>(
    bounds: Rect,
    n: usize,
    style: Content,
    edges: EdgeSet,
)
    ensures
        edges.spec_is_all() ==> border_commands(bounds, n, style, edges) =~= seq![
            CommandModel::StrokeRect(bounds, n, style),
        ],
        !edges.spec_is_all() ==> {
            let commands = border_commands(bounds, n, style, edges);
            &&& commands.len() == edges.spec_count()
            &&& forall|i: int| 0 <= i < commands.len() ==> #[trigger] commands[i] is FillRect
        },
{
    if !edges.spec_is_all() {
        let commands = border_commands(bounds, n, style, edges);
        assert(commands.len() == edges.spec_count());
        assert forall|i: int| 0 <= i < commands.len() implies #[trigger] commands[i] is FillRect by {
        }
    }
}


/// One-line layout: the resolution state after any number of characters of a
/// text that never breaks — no newline, and every glyph's pen position plus
/// its width inside the right bound — is the unwrapped element sequence with
/// no committed line.
proof fn lemma_single_line_loop(
    font: crate::fonts::FontModel,
    chars: Seq<char>,
    bounds: Rect,
    n: int,
)
    requires
        0 <= n <= chars.len(),
        font.size.height <= bounds.height,
        forall|i: int| 0 <= i < n ==> #[trigger] chars[i] != '\n',
        forall|i: int|
            0 <= i < n && !crate::fonts::font_calculations::lays_as_space(chars[i])
                ==> crate::layout::saturating::sat_add(
                crate::fonts::font_calculations::spec_next_glyph_x(
                    font,
                    #[trigger] crate::fonts::font_calculations::unwrapped_state(font, chars, i),
                ),
                font.size.width,
            ) <= bounds.width,
    ensures
        crate::fonts::font_calculations::spec_lines_loop(font, chars, bounds, n)
            == (crate::fonts::font_calculations::LineResolutionModel {
            lines: Seq::empty(),
            cur: crate::fonts::font_calculations::unwrapped_state(font, chars, n),
            char_height: crate::fonts::font_calculations::unwrapped_char_height(font, chars, n),
            prev_start: 0int,
        }, false),
    decreases n,
{
    if n == 0 {
        assert(crate::fonts::font_calculations::spec_lines_loop(font, chars, bounds, 0).0
            =~= crate::fonts::font_calculations::initial_state());
    } else {
        lemma_single_line_loop(font, chars, bounds, n - 1);
        assert(chars[n - 1] != '\n');
        let st = crate::fonts::font_calculations::spec_lines_loop(font, chars, bounds, n - 1).0;
        assert(crate::fonts::font_calculations::spec_line_y(font, st.lines) == 0);
    }
}

/// A text that fits on one line stays on one line: with no newline and every
/// glyph's pen position plus its width inside the right bound, and the glyph
/// height inside the bottom bound, the laid-out text has exactly one line,
/// and every glyph on it is offset purely horizontally.
pub proof fn lemma_fitting_text_stays_on_one_line(
    font: crate::fonts::FontModel,
    chars: Seq<char>,
    bounds: Rect,
)
    requires
        font.size.height <= bounds.height,
        forall|i: int| 0 <= i < chars.len() ==> #[trigger] chars[i] != '\n',
        forall|i: int|
            0 <= i < chars.len() && !crate::fonts::font_calculations::lays_as_space(chars[i])
                ==> crate::layout::saturating::sat_add(
                crate::fonts::font_calculations::spec_next_glyph_x(
                    font,
                    #[trigger] crate::fonts::font_calculations::unwrapped_state(font, chars, i),
                ),
                font.size.width,
            ) <= bounds.width,
    ensures
        crate::fonts::font_calculations::spec_calculate_lines(font, chars, bounds).lines.len()
            == 1,
        forall|j: int|
            0 <= j < crate::fonts::font_calculations::spec_calculate_lines(
                font,
                chars,
                bounds,
            ).lines[0].glyphs.len() ==> #[trigger] crate::fonts::font_calculations::spec_calculate_lines(
                font,
                chars,
                bounds,
            ).lines[0].glyphs[j].offset.height == 0,
{
    lemma_single_line_loop(font, chars, bounds, chars.len() as int);
    let st = crate::fonts::font_calculations::spec_lines_loop(
        font,
        chars,
        bounds,
        chars.len() as int,
    ).0;
    lemma_unwrapped_offsets_flat(font, chars, chars.len() as int);
    lemma_put_glyphs_keep_flat_offsets(st.cur);
}

/// Every glyph of an unwrapped element sequence sits at vertical offset zero.
proof fn lemma_unwrapped_offsets_flat(font: crate::fonts::FontModel, chars: Seq<char>, n: int)
    ensures
        forall|i: int|
            0 <= i < crate::fonts::font_calculations::unwrapped_state(font, chars, n).len()
                ==> (#[trigger] crate::fonts::font_calculations::unwrapped_state(
                font,
                chars,
                n,
            )[i] matches crate::fonts::font_calculations::ElementModel::Put(g) ==> g.offset.height
                == 0),
    decreases n,
{
    if n > 0 {
        lemma_unwrapped_offsets_flat(font, chars, n - 1);
    }
}

/// Filtering the spaces out keeps every glyph's flat vertical offset.
proof fn lemma_put_glyphs_keep_flat_offsets(elems: Seq<crate::fonts::font_calculations::ElementModel>)
    requires
        forall|i: int|
            0 <= i < elems.len() ==> (#[trigger] elems[i]
                matches crate::fonts::font_calculations::ElementModel::Put(g) ==> g.offset.height
                == 0),
    ensures
        forall|j: int|
            0 <= j < crate::fonts::font_calculations::put_glyphs(elems).len()
                ==> #[trigger] crate::fonts::font_calculations::put_glyphs(
                elems,
            )[j].offset.height == 0,
    decreases elems.len(),
{
    if elems.len() > 0 {
        assert(elems[elems.len() - 1] == elems.last());
        assert forall|i: int|
            0 <= i < elems.drop_last().len() implies (#[trigger] elems.drop_last()[i]
            matches crate::fonts::font_calculations::ElementModel::Put(g) ==> g.offset.height
            == 0) by {
            assert(elems.drop_last()[i] == elems[i]);
        }
        lemma_put_glyphs_keep_flat_offsets(elems.drop_last());
        let prior = crate::fonts::font_calculations::put_glyphs(elems.drop_last());
        let whole = crate::fonts::font_calculations::put_glyphs(elems);
        assert forall|j: int| 0 <= j < whole.len() implies #[trigger] whole[j].offset.height
            == 0 by {
            match elems.last() {
                crate::fonts::font_calculations::ElementModel::Space => {
                    assert(whole[j] == prior[j]);
                },
                crate::fonts::font_calculations::ElementModel::Put(g) => {
                    if j < prior.len() {
                        assert(whole[j] == prior[j]);
                    } else {
                        assert(whole[j] == g);
                    }
                },
            }
        }
    }
}


/// Lines only accumulate: walking more characters never removes a committed
/// line.
proof fn lemma_lines_monotone(
    font: crate::fonts::FontModel,
    chars: Seq<char>,
    bounds: Rect,
    m: int,
    n: int,
)
    requires
        0 <= m <= n,
    ensures
        crate::fonts::font_calculations::spec_lines_loop(font, chars, bounds, n).0.lines.len()
            >= crate::fonts::font_calculations::spec_lines_loop(font, chars, bounds, m).0.lines.len(),
    decreases n - m,
{
    if n > m {
        lemma_lines_monotone(font, chars, bounds, m, n - 1);
    }
}

/// A text too wide for its bound wraps: with no newline, every glyph up to
/// some character fitting, that character's glyph crossing the right bound,
/// and the whole layout fitting vertically, the laid-out text has at least
/// two lines.
pub proof fn lemma_overwide_text_wraps(
    font: crate::fonts::FontModel,
    chars: Seq<char>,
    bounds: Rect,
    k: int,
)
    requires
        0 <= k < chars.len(),
        font.size.height <= bounds.height,
        forall|i: int| 0 <= i <= k ==> #[trigger] chars[i] != '\n',
        !crate::fonts::font_calculations::lays_as_space(chars[k]),
        forall|i: int|
            0 <= i < k && !crate::fonts::font_calculations::lays_as_space(chars[i])
                ==> crate::layout::saturating::sat_add(
                crate::fonts::font_calculations::spec_next_glyph_x(
                    font,
                    #[trigger] crate::fonts::font_calculations::unwrapped_state(font, chars, i),
                ),
                font.size.width,
            ) <= bounds.width,
        crate::layout::saturating::sat_add(
            crate::fonts::font_calculations::spec_next_glyph_x(
                font,
                crate::fonts::font_calculations::unwrapped_state(font, chars, k),
            ),
            font.size.width,
        ) > bounds.width,
        !crate::fonts::font_calculations::spec_lines_loop(
            font,
            chars,
            bounds,
            chars.len() as int,
        ).1,
    ensures
        crate::fonts::font_calculations::spec_calculate_lines(font, chars, bounds).lines.len()
            >= 2,
{
    lemma_single_line_loop(font, chars, bounds, k);
    let st = crate::fonts::font_calculations::spec_lines_loop(font, chars, bounds, k).0;
    let after = crate::fonts::font_calculations::spec_lines_loop(font, chars, bounds, k + 1);
    assert(after.0.lines.len() >= 1);
    lemma_lines_monotone(font, chars, bounds, k + 1, chars.len() as int);
}

} // verus!

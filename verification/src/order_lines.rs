//! Order lines: identifiers, sides, line types, single lines and the overlay
//! that collects them.
//!
//! Prices and quantities are carried as an opaque number type `F` chosen by
//! the caller; nothing in this module inspects them.

use vstd::prelude::*;
use crate::color::{ChartColor, unmultiplied};
use crate::cadence::lemma_filter_take_step;

verus! {

/// Unique string identifier for an order, used to reference specific order lines.
#[derive(Debug, Clone, PartialEq, Eq, Hash)]
pub struct OrderId(pub String);

impl OrderId {
    /// Create a new order ID from a string.
    pub fn new(id: &str) -> (r: Self)
        ensures
            r.0@ == id@,
    {
        OrderId(id.to_owned())
    }

    /// The identifier as display text.
    pub fn to_string(&self) -> (r: String)
        ensures
            r@ == self.0@,
    {
        self.0.clone()
    }

    /// Whether two identifiers hold the same text.
    fn same_as(&self, other: &OrderId) -> (r: bool)
        ensures
            r == (self.0@ == other.0@),
    {
        self.0 == other.0
    }

    /// A copy of this identifier.
    fn duplicate(&self) -> (r: OrderId)
        ensures
            r.0@ == self.0@,
    {
        OrderId(self.0.clone())
    }
}

/// Side of the order: buy or sell.
#[derive(Debug, Clone, Copy, PartialEq, Eq)]
pub enum OrderSide {
    /// Long / buy order.
    Buy,
    /// Short / sell order.
    Sell,
}

/// Display text of an order side.
pub open spec fn side_label(side: OrderSide) -> Seq<char> {
    match side {
        OrderSide::Buy => "BUY"@,
        OrderSide::Sell => "SELL"@,
    }
}

impl OrderSide {
    /// Get display text
    pub fn label(&self) -> (r: &'static str)
        ensures
            r@ == side_label(*self),
    {
        match self {
            OrderSide::Buy => "BUY",
            OrderSide::Sell => "SELL",
        }
    }
}

/// Categorization of an order line, determining its visual style and label.
#[derive(Debug, Clone, Copy, PartialEq)]
pub enum OrderLineType<F> {
    /// Entry order (limit or market)
    Entry,
    /// Stop loss order
    StopLoss,
    /// Take profit order (with optional partial percentage)
    TakeProfit { partial_pct: Option<F> },
    /// Pending limit order
    PendingLimit,
    /// Pending stop order
    PendingStop,
}

/// Short label of a line type.
pub open spec fn type_short_label<F>(t: OrderLineType<F>) -> Seq<char> {
    match t {
        OrderLineType::Entry => "ENT"@,
        OrderLineType::StopLoss => "SL"@,
        OrderLineType::TakeProfit { .. } => "TP"@,
        OrderLineType::PendingLimit => "LMT"@,
        OrderLineType::PendingStop => "STP"@,
    }
}

impl<F> OrderLineType<F> {
    /// Get short label for the line type
    pub fn short_label(&self) -> (r: &'static str)
        ensures
            r@ == type_short_label(*self),
    {
        match self {
            OrderLineType::Entry => "ENT",
            OrderLineType::StopLoss => "SL",
            OrderLineType::TakeProfit { .. } => "TP",
            OrderLineType::PendingLimit => "LMT",
            OrderLineType::PendingStop => "STP",
        }
    }
}

/// A single order line rendered as a dashed horizontal line across the chart
/// with a label, type indicator, and optional cancel button.
#[derive(Debug, Clone)]
pub struct OrderLine<F> {
    /// Unique order identifier
    pub order_id: OrderId,
    /// Price level for the line
    pub price: F,
    /// Type of order line
    pub line_type: OrderLineType<F>,
    /// Display label
    pub label: String,
    /// Order side (buy/sell)
    pub side: OrderSide,
    /// Quantity
    pub quantity: F,
    /// Whether this order is currently active (can be cancelled)
    pub is_active: bool,
    /// Whether this order is selected/highlighted
    pub is_selected: bool,
    /// Color override (line, label background, label text); `None` keeps the defaults.
    pub custom_color: Option<(ChartColor, ChartColor, ChartColor)>,
}

/// `line` is the line a constructor builds from these arguments: active,
/// not selected, default colors.
pub open spec fn built_line<F>(
    line: OrderLine<F>,
    order_id: Seq<char>,
    price: F,
    line_type: OrderLineType<F>,
    label: Seq<char>,
    side: OrderSide,
    quantity: F,
) -> bool {
    &&& line.order_id.0@ == order_id
    &&& line.price == price
    &&& line.line_type == line_type
    &&& line.label@ == label
    &&& line.side == side
    &&& line.quantity == quantity
    &&& line.is_active
    &&& !line.is_selected
    &&& line.custom_color is None
}

impl<F> OrderLine<F> {
    fn build(
        order_id: &str,
        price: F,
        line_type: OrderLineType<F>,
        side: OrderSide,
        quantity: F,
        label: &str,
    ) -> (r: Self)
        ensures
            built_line(r, order_id@, price, line_type, label@, side, quantity),
    {
        OrderLine {
            order_id: OrderId::new(order_id),
            price,
            line_type,
            label: label.to_owned(),
            side,
            quantity,
            is_active: true,
            is_selected: false,
            custom_color: None,
        }
    }

    /// Create a new entry order line
    pub fn entry(order_id: &str, price: F, side: OrderSide, quantity: F, label: &str) -> (r: Self)
        ensures
            built_line(r, order_id@, price, OrderLineType::Entry, label@, side, quantity),
    {
        Self::build(order_id, price, OrderLineType::Entry, side, quantity, label)
    }

    /// Create a stop loss order line
    pub fn stop_loss(order_id: &str, price: F, side: OrderSide, quantity: F, label: &str) -> (r:
        Self)
        ensures
            built_line(r, order_id@, price, OrderLineType::StopLoss, label@, side, quantity),
    {
        Self::build(order_id, price, OrderLineType::StopLoss, side, quantity, label)
    }

    /// Create a take profit order line
    pub fn take_profit(
        order_id: &str,
        price: F,
        side: OrderSide,
        quantity: F,
        label: &str,
        partial_pct: Option<F>,
    ) -> (r: Self)
        ensures
            built_line(
                r,
                order_id@,
                price,
                OrderLineType::TakeProfit { partial_pct },
                label@,
                side,
                quantity,
            ),
    {
        Self::build(order_id, price, OrderLineType::TakeProfit { partial_pct }, side, quantity, label)
    }

    /// Create a pending limit order line
    pub fn pending_limit(order_id: &str, price: F, side: OrderSide, quantity: F, label: &str) -> (r:
        Self)
        ensures
            built_line(r, order_id@, price, OrderLineType::PendingLimit, label@, side, quantity),
    {
        Self::build(order_id, price, OrderLineType::PendingLimit, side, quantity, label)
    }

    /// Set selected state
    pub fn with_selected(self, selected: bool) -> (r: Self)
        ensures
            r == (OrderLine { is_selected: selected, ..self }),
    {
        let mut s = self;
        s.is_selected = selected;
        s
    }

    /// Set active state
    pub fn with_active(self, active: bool) -> (r: Self)
        ensures
            r == (OrderLine { is_active: active, ..self }),
    {
        let mut s = self;
        s.is_active = active;
        s
    }

    /// Override the line color, label background color and label text color.
    pub fn with_color(self, line_color: ChartColor, bg_color: ChartColor, text_color: ChartColor) -> (r: Self)
        ensures
            r == (OrderLine { custom_color: Some((line_color, bg_color, text_color)), ..self }),
    {
        let mut s = self;
        s.custom_color = Some((line_color, bg_color, text_color));
        s
    }
}

/// Action returned from the overlay's rendering when the user interacts
/// with an order line (click, drag, cancel).
#[derive(Debug, Clone, PartialEq, Default)]
pub enum OrderLineAction<F> {
    /// No action
    #[default]
    NoAction,
    /// Order line was clicked/selected
    Selected(OrderId),
    /// Cancel button was clicked
    CancelRequested(OrderId),
    /// Order line is being dragged to new price
    DragStarted(OrderId),
    /// Order line drag in progress
    Dragging(OrderId, F),
    /// Order line drag completed
    DragCompleted(OrderId, F),
}

/// The action of the last entry that is not `NoAction`, or `NoAction` when there is none.
pub open spec fn latest_action<F>(actions: Seq<OrderLineAction<F>>) -> OrderLineAction<F>
    decreases actions.len(),
{
    if actions.len() == 0 {
        OrderLineAction::NoAction
    } else if !(actions.last() is NoAction) {
        actions.last()
    } else {
        latest_action(actions.drop_last())
    }
}

/// The combined action of a frame is the action of the last line that
/// reported one: it is `NoAction` exactly when no line reported anything,
/// and otherwise it is some line's action with only `NoAction` after it.
pub proof fn lemma_latest_is_last_reported<F>(actions: Seq<OrderLineAction<F>>)
    ensures
        latest_action(actions) is NoAction <==> forall|i: int|
            0 <= i < actions.len() ==> (#[trigger] actions[i]) is NoAction,
        !(latest_action(actions) is NoAction) ==> exists|i: int|
            0 <= i < actions.len() && actions[i] == latest_action(actions) && forall|j: int|
                i < j < actions.len() ==> (#[trigger] actions[j]) is NoAction,
    decreases actions.len(),
{
    if actions.len() > 0 {
        let rest = actions.drop_last();
        lemma_latest_is_last_reported(rest);
        let n = actions.len() - 1;
        if actions.last() is NoAction {
            assert forall|i: int| 0 <= i < rest.len() implies rest[i] == actions[i] by {}
            if latest_action(rest) is NoAction {
                assert forall|i: int| 0 <= i < actions.len() implies (#[trigger] actions[i]) is NoAction by {
                    if i < n {
                        assert(rest[i] is NoAction);
                    }
                }
            } else {
                let i = choose|i: int|
                    0 <= i < rest.len() && rest[i] == latest_action(rest) && forall|j: int|
                        i < j < rest.len() ==> (#[trigger] rest[j]) is NoAction;
                assert(actions[i] == latest_action(actions));
                assert forall|j: int| i < j < actions.len() implies (#[trigger] actions[j]) is NoAction by {
                    if j < n {
                        assert(rest[j] is NoAction);
                    }
                }
            }
        } else {
            assert(actions[n] == latest_action(actions));
            assert(!(actions[n] is NoAction));
        }
    }
}

/// The display texts of order sides and line types.
pub proof fn lemma_display_labels<F>(t: OrderLineType<F>)
    ensures
        side_label(OrderSide::Buy) == "BUY"@,
        side_label(OrderSide::Sell) == "SELL"@,
        t is Entry ==> type_short_label(t) == "ENT"@,
        t is StopLoss ==> type_short_label(t) == "SL"@,
        t is TakeProfit ==> type_short_label(t) == "TP"@,
        t is PendingLimit ==> type_short_label(t) == "LMT"@,
        t is PendingStop ==> type_short_label(t) == "STP"@,
{
}

impl<F> OrderLineAction<F> {
    /// Combines the actions of all rendered lines, in drawing order: a later
    /// interaction replaces an earlier one, and lines without interaction
    /// leave the result unchanged.
    pub fn latest(actions: Vec<OrderLineAction<F>>) -> (r: OrderLineAction<F>)
        ensures
            r == latest_action(actions@),
    {
        let mut rest = actions;
        while rest.len() > 0
            invariant
                latest_action(actions@) == latest_action(rest@),
            decreases rest.len(),
        {
            let ghost before = rest@;
            let a = rest.pop().unwrap();
            assert(before.drop_last() =~= rest@);
            match a {
                OrderLineAction::NoAction => {},
                _ => {
                    return a;
                },
            }
        }
        OrderLineAction::NoAction
    }
}

impl<F> OrderLine<F> {
    /// The interaction a single line reports for one frame, given whether its
    /// label and its cancel button were clicked. A cancel click counts only
    /// on an active line and takes precedence over a label click.
    pub fn click_action(&self, label_clicked: bool, cancel_clicked: bool) -> (r: OrderLineAction<F>)
        ensures
            self.is_active && cancel_clicked ==> (r matches OrderLineAction::CancelRequested(id)
                && id.0@ == self.order_id.0@),
            !(self.is_active && cancel_clicked) && label_clicked ==> (r matches OrderLineAction::Selected(id)
                && id.0@ == self.order_id.0@),
            !(self.is_active && cancel_clicked) && !label_clicked ==> r is NoAction,
    {
        let mut action = OrderLineAction::NoAction;
        if label_clicked {
            action = OrderLineAction::Selected(self.order_id.duplicate());
        }
        if self.is_active {
            if cancel_clicked {
                action = OrderLineAction::CancelRequested(self.order_id.duplicate());
            }
        }
        action
    }
}

/// Which theme color a line without a color override is drawn in.
pub enum OrderColorRole {
    /// The bullish (rising) color.
    Bullish,
    /// The bearish (falling) color.
    Bearish,
}

/// Entry and pending orders follow their side, stop losses are always
/// bearish and take profits always bullish.
pub open spec fn color_role<F>(line_type: OrderLineType<F>, side: OrderSide) -> OrderColorRole {
    match line_type {
        OrderLineType::StopLoss => OrderColorRole::Bearish,
        OrderLineType::TakeProfit { .. } => OrderColorRole::Bullish,
        _ => match side {
            OrderSide::Buy => OrderColorRole::Bullish,
            OrderSide::Sell => OrderColorRole::Bearish,
        },
    }
}

/// Which theme color a line gets: entry and pending orders take the color
/// of their side (buy bullish, sell bearish), a stop loss is always bearish
/// and a take profit always bullish, whatever its side.
pub proof fn lemma_color_role_by_type_and_side<F>(line_type: OrderLineType<F>, side: OrderSide)
    ensures
        (line_type is Entry || line_type is PendingLimit || line_type is PendingStop) ==> (color_role(
            line_type,
            side,
        ) == OrderColorRole::Bearish <==> side == OrderSide::Sell),
        line_type is StopLoss ==> color_role(line_type, side) == OrderColorRole::Bearish,
        line_type is TakeProfit ==> color_role(line_type, side) == OrderColorRole::Bullish,
{
}

/// Colors for an order line: `(line, label background, label text)`.
///
/// A color override wins. Otherwise the line color is the theme color of the
/// line's role, the label background is that color at alpha 220 and the label
/// text uses `label_text`.
pub fn get_order_colors<F>(
    line: &OrderLine<F>,
    bullish: ChartColor,
    bearish: ChartColor,
    label_text: ChartColor,
) -> (r: (ChartColor, ChartColor, ChartColor))
    ensures
        line.custom_color matches Some(c) ==> r == c,
        line.custom_color is None ==> {
            let base = match color_role(line.line_type, line.side) {
                OrderColorRole::Bullish => bullish,
                OrderColorRole::Bearish => bearish,
            };
            &&& r.0 == base
            &&& r.1 == unmultiplied(base.r, base.g, base.b, 220)
            &&& r.2 == label_text
        },
        line.custom_color is None && (line.line_type is Entry || line.line_type is PendingLimit
            || line.line_type is PendingStop) ==> r.0 == (match line.side {
            OrderSide::Buy => bullish,
            OrderSide::Sell => bearish,
        }),
        line.custom_color is None && line.line_type is StopLoss ==> r.0 == bearish,
        line.custom_color is None && line.line_type is TakeProfit ==> r.0 == bullish,
        line.custom_color is None ==> r.1 == unmultiplied(r.0.r, r.0.g, r.0.b, 220),
{
    if let Some(custom) = line.custom_color {
        return custom;
    }
    let base = match line.line_type {
        OrderLineType::StopLoss => bearish,
        OrderLineType::TakeProfit { .. } => bullish,
        _ => match line.side {
            OrderSide::Buy => bullish,
            OrderSide::Sell => bearish,
        },
    };
    (base, ChartColor::from_rgba_unmultiplied(base.r, base.g, base.b, 220), label_text)
}

/// The line carries the identifier `id`.
pub open spec fn has_id<F>(line: OrderLine<F>, id: Seq<char>) -> bool {
    line.order_id.0@ == id
}

/// Keeps the lines whose identifier differs from `id`.
pub open spec fn other_ids<F>(id: Seq<char>) -> spec_fn(OrderLine<F>) -> bool {
    |l: OrderLine<F>| !has_id(l, id)
}

/// `i` is the position of the first line carrying `id`.
pub open spec fn first_with_id<F>(lines: Seq<OrderLine<F>>, id: Seq<char>, i: int) -> bool {
    &&& 0 <= i < lines.len()
    &&& has_id(lines[i], id)
    &&& forall|j: int| 0 <= j < i ==> !has_id(#[trigger] lines[j], id)
}

/// Some line carries `id`.
pub open spec fn contains_id<F>(lines: Seq<OrderLine<F>>, id: Seq<char>) -> bool {
    exists|i: int| 0 <= i < lines.len() && has_id(#[trigger] lines[i], id)
}

/// A collection of [`OrderLine`]s to render on the chart.
///
/// Manages adding, removing, and looking up order lines by identifier.
#[derive(Debug, Clone, Default)]
pub struct OrderLineOverlay<F> {
    /// All order lines to display
    pub lines: Vec<OrderLine<F>>,
}

impl<F> OrderLineOverlay<F> {
    /// Create a new empty overlay
    pub fn new() -> (r: Self)
        ensures
            r.lines@.len() == 0,
    {
        OrderLineOverlay { lines: Vec::new() }
    }

    /// Add an order line
    pub fn add_line(&mut self, line: OrderLine<F>)
        ensures
            final(self).lines@ == old(self).lines@.push(line),
    {
        self.lines.push(line);
    }

    /// Remove every order line with the given ID, keeping the others in order.
    pub fn remove_line(&mut self, order_id: &OrderId)
        ensures
            final(self).lines@ == old(self).lines@.filter(other_ids(order_id.0@)),
    {
        let ghost orig = self.lines@;
        let ghost id = order_id.0@;
        let ghost mut j: int = 0;
        let mut i: usize = 0;
        proof {
            reveal(Seq::filter);
            assert(orig.take(0) =~= Seq::<OrderLine<F>>::empty());
            assert(orig.skip(0) =~= orig);
        }
        while i < self.lines.len()
            invariant
                0 <= j <= orig.len(),
                i == orig.take(j).filter(other_ids(id)).len(),
                self.lines@ == orig.take(j).filter(other_ids(id)) + orig.skip(j),
                id == order_id.0@,
            decreases orig.len() - j,
        {
            proof {
                lemma_filter_take_step(orig, other_ids(id), j);
                assert(self.lines@[i as int] == orig[j]);
            }
            if self.lines[i].order_id.same_as(order_id) {
                self.lines.remove(i);
                proof {
                    assert(self.lines@ =~= orig.take(j + 1).filter(other_ids(id)) + orig.skip(j + 1));
                }
            } else {
                i = i + 1;
                proof {
                    assert(self.lines@ =~= orig.take(j + 1).filter(other_ids(id)) + orig.skip(j + 1));
                }
            }
            proof {
                j = j + 1;
            }
        }
        proof {
            assert(orig.take(j) =~= orig);
            assert(self.lines@ =~= orig.filter(other_ids(id)));
        }
    }

    /// Clear all lines
    pub fn clear(&mut self)
        ensures
            final(self).lines@.len() == 0,
    {
        self.lines.clear();
    }

    fn find_index(&self, order_id: &OrderId) -> (r: Option<usize>)
        ensures
            r matches Some(i) ==> first_with_id(self.lines@, order_id.0@, i as int),
            r is None ==> !contains_id(self.lines@, order_id.0@),
    {
        let mut i: usize = 0;
        while i < self.lines.len()
            invariant
                0 <= i <= self.lines@.len(),
                forall|j: int| 0 <= j < i ==> !has_id(#[trigger] self.lines@[j], order_id.0@),
            decreases self.lines@.len() - i,
        {
            if self.lines[i].order_id.same_as(order_id) {
                return Some(i);
            }
            i = i + 1;
        }
        None
    }

    /// Get the first line with the given ID
    pub fn get_line(&self, order_id: &OrderId) -> (r: Option<&OrderLine<F>>)
        ensures
            r is None <==> !contains_id(self.lines@, order_id.0@),
            r matches Some(l) ==> exists|i: int|
                first_with_id(self.lines@, order_id.0@, i) && *l == self.lines@[i],
    {
        match self.find_index(order_id) {
            Some(i) => Some(&self.lines[i]),
            None => None,
        }
    }

    /// Get a mutable reference to the first line with the given ID
    pub fn get_line_mut(&mut self, order_id: &OrderId) -> (r: Option<&mut OrderLine<F>>)
        ensures
            r is None <==> !contains_id(old(self).lines@, order_id.0@),
            r is None ==> final(self).lines@ == old(self).lines@,
            r matches Some(l) ==> exists|i: int|
                first_with_id(old(self).lines@, order_id.0@, i) && *l == old(self).lines@[i]
                    && final(self).lines@ == old(self).lines@.update(i, *final(l)),
    {
        match self.find_index(order_id) {
            Some(i) => Some(&mut self.lines[i]),
            None => None,
        }
    }
}

proof fn lemma_filter_all_kept<F>(s: Seq<OrderLine<F>>, id: Seq<char>)
    requires
        !contains_id(s, id),
    ensures
        s.filter(other_ids(id)) == s,
    decreases s.len(),
{
    reveal(Seq::filter);
    if s.len() > 0 {
        assert(!has_id(s[s.len() - 1], id));
        assert forall|i: int| 0 <= i < s.drop_last().len() implies !has_id(
            #[trigger] s.drop_last()[i],
            id,
        ) by {
            assert(s.drop_last()[i] == s[i]);
        }
        lemma_filter_all_kept(s.drop_last(), id);
        assert(s.drop_last().push(s.last()) =~= s);
    }
}

/// After removing an identifier, no line carries it (so a lookup finds nothing).
pub proof fn lemma_removed_id_absent<F>(lines: Seq<OrderLine<F>>, id: Seq<char>)
    ensures
        !contains_id(lines.filter(other_ids(id)), id),
{
    lines.filter_lemma(other_ids(id));
    assert forall|i: int| 0 <= i < lines.filter(other_ids(id)).len() implies !has_id(
        #[trigger] lines.filter(other_ids(id))[i],
        id,
    ) by {
        assert((other_ids(id))(lines.filter(other_ids(id))[i]));
    }
}

/// After adding a line, a lookup of its identifier finds a line.
pub proof fn lemma_added_line_found<F>(lines: Seq<OrderLine<F>>, line: OrderLine<F>)
    ensures
        contains_id(lines.push(line), line.order_id.0@),
{
    assert(has_id(lines.push(line)[lines.len() as int], line.order_id.0@));
}

/// Removing the same identifier twice is the same as removing it once.
pub proof fn lemma_remove_idempotent<F>(lines: Seq<OrderLine<F>>, id: Seq<char>)
    ensures
        lines.filter(other_ids(id)).filter(other_ids(id)) == lines.filter(other_ids(id)),
{
    lemma_removed_id_absent(lines, id);
    lemma_filter_all_kept(lines.filter(other_ids(id)), id);
}

/// Adding a line whose identifier is not yet present and then removing that
/// identifier gives back the lines as they were.
pub proof fn lemma_add_then_remove<F>(lines: Seq<OrderLine<F>>, line: OrderLine<F>)
    requires
        !contains_id(lines, line.order_id.0@),
    ensures
        lines.push(line).filter(other_ids(line.order_id.0@)) == lines,
{
    let id = line.order_id.0@;
    reveal(Seq::filter);
    assert(lines.push(line).drop_last() =~= lines);
    assert(lines.push(line).last() == line);
    lemma_filter_all_kept(lines, id);
}

/// Removing one identifier keeps every line that carries another.
pub proof fn lemma_remove_keeps_others<F>(lines: Seq<OrderLine<F>>, id: Seq<char>, other: Seq<char>)
    requires
        contains_id(lines, other),
        other != id,
    ensures
        contains_id(lines.filter(other_ids(id)), other),
{
    let i = choose|i: int| 0 <= i < lines.len() && has_id(#[trigger] lines[i], other);
    lines.filter_lemma(other_ids(id));
    assert((other_ids(id))(lines[i]));
    assert(lines.filter(other_ids(id)).contains(lines[i]));
}

} // verus!

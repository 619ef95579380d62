use egui_charts::color::ChartColor;
use egui_charts::order_lines::{
    get_order_colors, OrderId, OrderLine, OrderLineAction, OrderLineOverlay, OrderLineType,
    OrderSide,
};

const RED: ChartColor = ChartColor { r: 255, g: 0, b: 0, a: 255 };
const GREEN: ChartColor = ChartColor { r: 0, g: 255, b: 0, a: 255 };
const BLUE: ChartColor = ChartColor { r: 0, g: 0, b: 255, a: 255 };
const GRAY: ChartColor = ChartColor { r: 160, g: 160, b: 160, a: 255 };
const BLACK: ChartColor = ChartColor { r: 0, g: 0, b: 0, a: 255 };
const YELLOW: ChartColor = ChartColor { r: 255, g: 255, b: 0, a: 255 };

fn rgb(r: u8, g: u8, b: u8) -> ChartColor {
    ChartColor { r, g, b, a: 255 }
}


#[test]
fn test_order_line_creation() {
    let line = OrderLine::entry("order1", 100.0, OrderSide::Buy, 1.0, "Test Order");
    assert_eq!(line.order_id.0, "order1");
    assert_eq!(line.price, 100.0);
    assert!(line.is_active);
}

#[test]
fn test_overlay_management() {
    let mut overlay = OrderLineOverlay::new();

    overlay.add_line(OrderLine::entry("o1", 100.0, OrderSide::Buy, 1.0, "Order 1"));
    overlay.add_line(OrderLine::stop_loss("o2", 95.0, OrderSide::Buy, 1.0, "SL"));

    assert_eq!(overlay.lines.len(), 2);

    overlay.remove_line(&OrderId::new("o1"));
    assert_eq!(overlay.lines.len(), 1);

    overlay.clear();
    assert!(overlay.lines.is_empty());
}

#[test]
fn order_id_text_round_trips() {
    let id = OrderId::new("abc-42");
    assert_eq!(id.0, "abc-42");
    assert_eq!(id.to_string(), "abc-42");
}

#[test]
fn side_and_type_labels() {
    assert_eq!(OrderSide::Buy.label(), "BUY");
    assert_eq!(OrderSide::Sell.label(), "SELL");
    assert_eq!(OrderLineType::<f64>::Entry.short_label(), "ENT");
    assert_eq!(OrderLineType::<f64>::StopLoss.short_label(), "SL");
    assert_eq!(
        OrderLineType::TakeProfit { partial_pct: Some(50.0) }.short_label(),
        "TP"
    );
    assert_eq!(OrderLineType::<f64>::PendingLimit.short_label(), "LMT");
    assert_eq!(OrderLineType::<f64>::PendingStop.short_label(), "STP");
}

#[test]
fn constructors_set_type_and_defaults() {
    let tp = OrderLine::take_profit("t", 110.0, OrderSide::Sell, 2.0, "TP 50%", Some(50.0));
    assert_eq!(tp.line_type, OrderLineType::TakeProfit { partial_pct: Some(50.0) });
    assert_eq!(tp.side, OrderSide::Sell);
    assert_eq!(tp.quantity, 2.0);
    assert_eq!(tp.label, "TP 50%");
    assert!(tp.is_active);
    assert!(!tp.is_selected);
    assert!(tp.custom_color.is_none());

    let lmt = OrderLine::pending_limit("p", 99.5, OrderSide::Buy, 3.0, "LMT");
    assert_eq!(lmt.line_type, OrderLineType::PendingLimit);
    assert_eq!(lmt.price, 99.5);
}

#[test]
fn builders_change_only_their_field() {
    let line = OrderLine::entry("a", 1.0, OrderSide::Buy, 1.0, "A")
        .with_selected(true)
        .with_active(false)
        .with_color(RED, GREEN, BLUE);
    assert!(line.is_selected);
    assert!(!line.is_active);
    assert_eq!(line.custom_color, Some((RED, GREEN, BLUE)));
    assert_eq!(line.order_id.0, "a");
    assert_eq!(line.price, 1.0);
}

#[test]
fn remove_line_keeps_other_lines_in_order() {
    let mut overlay = OrderLineOverlay::new();
    overlay.add_line(OrderLine::entry("a", 1.0, OrderSide::Buy, 1.0, "first a"));
    overlay.add_line(OrderLine::entry("b", 2.0, OrderSide::Buy, 1.0, "b"));
    overlay.add_line(OrderLine::entry("a", 3.0, OrderSide::Sell, 1.0, "second a"));
    overlay.add_line(OrderLine::entry("c", 4.0, OrderSide::Sell, 1.0, "c"));
    overlay.remove_line(&OrderId::new("a"));
    let ids: Vec<&str> = overlay.lines.iter().map(|l| l.order_id.0.as_str()).collect();
    assert_eq!(ids, vec!["b", "c"]);
    // Removing again changes nothing.
    overlay.remove_line(&OrderId::new("a"));
    assert_eq!(overlay.lines.len(), 2);
    // Removing an absent id changes nothing.
    overlay.remove_line(&OrderId::new("zzz"));
    assert_eq!(overlay.lines.len(), 2);
}

#[test]
fn get_line_finds_first_match() {
    let mut overlay = OrderLineOverlay::new();
    assert!(overlay.get_line(&OrderId::new("a")).is_none());
    overlay.add_line(OrderLine::entry("a", 1.0, OrderSide::Buy, 1.0, "first"));
    overlay.add_line(OrderLine::entry("a", 2.0, OrderSide::Buy, 1.0, "second"));
    assert_eq!(overlay.get_line(&OrderId::new("a")).unwrap().label, "first");
    assert!(overlay.get_line(&OrderId::new("b")).is_none());
}

#[test]
fn get_line_mut_edits_in_place() {
    let mut overlay = OrderLineOverlay::new();
    overlay.add_line(OrderLine::entry("x", 1.0, OrderSide::Buy, 1.0, "x"));
    overlay.add_line(OrderLine::entry("y", 2.0, OrderSide::Buy, 1.0, "y"));
    if let Some(line) = overlay.get_line_mut(&OrderId::new("y")) {
        line.price = 42.0;
        line.is_selected = true;
    }
    assert_eq!(overlay.lines[1].price, 42.0);
    assert!(overlay.lines[1].is_selected);
    assert_eq!(overlay.lines[0].price, 1.0);
    assert!(overlay.get_line_mut(&OrderId::new("nope")).is_none());
}

#[test]
fn add_then_remove_fresh_id_restores_overlay() {
    let mut overlay = OrderLineOverlay::new();
    overlay.add_line(OrderLine::entry("a", 1.0, OrderSide::Buy, 1.0, "a"));
    overlay.add_line(OrderLine::entry("new", 5.0, OrderSide::Sell, 1.0, "n"));
    assert!(overlay.get_line(&OrderId::new("new")).is_some());
    overlay.remove_line(&OrderId::new("new"));
    assert_eq!(overlay.lines.len(), 1);
    assert_eq!(overlay.lines[0].order_id.0, "a");
    assert!(overlay.get_line(&OrderId::new("new")).is_none());
}

#[test]
fn click_action_prefers_cancel_on_active_lines() {
    let active = OrderLine::entry("a", 1.0, OrderSide::Buy, 1.0, "a");
    assert_eq!(
        active.click_action(true, true),
        OrderLineAction::CancelRequested(OrderId::new("a"))
    );
    assert_eq!(active.click_action(true, false), OrderLineAction::Selected(OrderId::new("a")));
    assert_eq!(
        active.click_action(false, true),
        OrderLineAction::CancelRequested(OrderId::new("a"))
    );
    assert_eq!(active.click_action(false, false), OrderLineAction::NoAction);

    let inactive = active.with_active(false);
    assert_eq!(inactive.click_action(true, true), OrderLineAction::Selected(OrderId::new("a")));
    assert_eq!(inactive.click_action(false, true), OrderLineAction::NoAction);
}

#[test]
fn latest_action_wins() {
    let actions: Vec<OrderLineAction<f64>> = vec![
        OrderLineAction::Selected(OrderId::new("a")),
        OrderLineAction::NoAction,
        OrderLineAction::CancelRequested(OrderId::new("b")),
        OrderLineAction::NoAction,
    ];
    assert_eq!(
        OrderLineAction::latest(actions),
        OrderLineAction::CancelRequested(OrderId::new("b"))
    );
    let none: Vec<OrderLineAction<f64>> = vec![OrderLineAction::NoAction, OrderLineAction::NoAction];
    assert_eq!(OrderLineAction::latest(none), OrderLineAction::NoAction);
    assert_eq!(OrderLineAction::<f64>::latest(Vec::new()), OrderLineAction::NoAction);
    assert_eq!(OrderLineAction::<f64>::default(), OrderLineAction::NoAction);
}

#[test]
fn order_colors_follow_role_or_override() {
    let bull = rgb(10, 200, 30);
    let bear = rgb(220, 20, 40);
    let text = rgb(255, 255, 255);

    let buy = OrderLine::entry("a", 1.0, OrderSide::Buy, 1.0, "a");
    let (line, bg, t) = get_order_colors(&buy, bull, bear, text);
    assert_eq!(line, bull);
    // Premultiplied by egui, alpha 220.
    assert_eq!(bg, ChartColor::from_rgba_unmultiplied(10, 200, 30, 220));
    assert_eq!(bg.a, 220);
    assert_ne!(bg, bull);
    assert_eq!(t, text);

    let sell = OrderLine::pending_limit("b", 1.0, OrderSide::Sell, 1.0, "b");
    assert_eq!(get_order_colors(&sell, bull, bear, text).0, bear);

    let sl = OrderLine::stop_loss("c", 1.0, OrderSide::Buy, 1.0, "c");
    let (sl_line, sl_bg, _) = get_order_colors(&sl, bull, bear, text);
    assert_eq!(sl_line, bear);
    assert_eq!(sl_bg, ChartColor::from_rgba_unmultiplied(220, 20, 40, 220));

    let tp = OrderLine::take_profit("d", 1.0, OrderSide::Sell, 1.0, "d", None);
    assert_eq!(get_order_colors(&tp, bull, bear, text).0, bull);

    let custom = buy.with_color(GRAY, BLACK, YELLOW);
    assert_eq!(get_order_colors(&custom, bull, bear, text), (GRAY, BLACK, YELLOW));
}

#[test]
fn unmultiplied_colors_premultiply() {
    // Opaque colors keep their channels; fully transparent ones become zero.
    assert_eq!(ChartColor::from_rgba_unmultiplied(12, 34, 56, 255), rgb(12, 34, 56));
    assert_eq!(
        ChartColor::from_rgba_unmultiplied(12, 34, 56, 0),
        ChartColor { r: 0, g: 0, b: 0, a: 0 }
    );
}
